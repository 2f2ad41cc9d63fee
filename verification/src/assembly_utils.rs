//! Assembly text helpers for the inline-hook compiler: saving and restoring
//! vector registers around injected code, and preserving the registers the
//! platform calling convention makes the caller's responsibility.
use crate::hook_codegen::{spec_u64_text, u64_text};
use vstd::prelude::*;

verus! {

/// The sixteen vector registers of the target architecture.
#[derive(Debug, Clone, Copy, PartialEq, Eq, Structural)]
pub enum XmmRegister {
    Xmm0,
    Xmm1,
    Xmm2,
    Xmm3,
    Xmm4,
    Xmm5,
    Xmm6,
    Xmm7,
    Xmm8,
    Xmm9,
    Xmm10,
    Xmm11,
    Xmm12,
    Xmm13,
    Xmm14,
    Xmm15,
}

/// A vector register's index.
pub open spec fn spec_xmm_index(r: XmmRegister) -> u64 {
    match r {
        XmmRegister::Xmm0 => 0,
        XmmRegister::Xmm1 => 1,
        XmmRegister::Xmm2 => 2,
        XmmRegister::Xmm3 => 3,
        XmmRegister::Xmm4 => 4,
        XmmRegister::Xmm5 => 5,
        XmmRegister::Xmm6 => 6,
        XmmRegister::Xmm7 => 7,
        XmmRegister::Xmm8 => 8,
        XmmRegister::Xmm9 => 9,
        XmmRegister::Xmm10 => 10,
        XmmRegister::Xmm11 => 11,
        XmmRegister::Xmm12 => 12,
        XmmRegister::Xmm13 => 13,
        XmmRegister::Xmm14 => 14,
        XmmRegister::Xmm15 => 15,
    }
}

impl XmmRegister {
    /// The register's index in its bank.
    pub fn index(&self) -> (r: u64)
        ensures
            r == spec_xmm_index(*self),
    {
        match self {
            XmmRegister::Xmm0 => 0,
            XmmRegister::Xmm1 => 1,
            XmmRegister::Xmm2 => 2,
            XmmRegister::Xmm3 => 3,
            XmmRegister::Xmm4 => 4,
            XmmRegister::Xmm5 => 5,
            XmmRegister::Xmm6 => 6,
            XmmRegister::Xmm7 => 7,
            XmmRegister::Xmm8 => 8,
            XmmRegister::Xmm9 => 9,
            XmmRegister::Xmm10 => 10,
            XmmRegister::Xmm11 => 11,
            XmmRegister::Xmm12 => 12,
            XmmRegister::Xmm13 => 13,
            XmmRegister::Xmm14 => 14,
            XmmRegister::Xmm15 => 15,
        }
    }

    /// The register with an index, where one exists.
    pub fn try_from(value: u64) -> (r: Result<XmmRegister, ()>)
        ensures
            match r {
                Ok(reg) => value <= 15 && spec_xmm_index(reg) == value,
                Err(_) => value > 15,
            },
    {
        if value == 0 {
            Ok(XmmRegister::Xmm0)
        } else if value == 1 {
            Ok(XmmRegister::Xmm1)
        } else if value == 2 {
            Ok(XmmRegister::Xmm2)
        } else if value == 3 {
            Ok(XmmRegister::Xmm3)
        } else if value == 4 {
            Ok(XmmRegister::Xmm4)
        } else if value == 5 {
            Ok(XmmRegister::Xmm5)
        } else if value == 6 {
            Ok(XmmRegister::Xmm6)
        } else if value == 7 {
            Ok(XmmRegister::Xmm7)
        } else if value == 8 {
            Ok(XmmRegister::Xmm8)
        } else if value == 9 {
            Ok(XmmRegister::Xmm9)
        } else if value == 10 {
            Ok(XmmRegister::Xmm10)
        } else if value == 11 {
            Ok(XmmRegister::Xmm11)
        } else if value == 12 {
            Ok(XmmRegister::Xmm12)
        } else if value == 13 {
            Ok(XmmRegister::Xmm13)
        } else if value == 14 {
            Ok(XmmRegister::Xmm14)
        } else if value == 15 {
            Ok(XmmRegister::Xmm15)
        } else {
            Err(())
        }
    }
}

/// The text that saves one vector register on the stack: sixteen bytes of
/// room, then an unaligned store.
pub open spec fn spec_push_xmm_text(n: XmmRegister) -> Seq<char> {
    "sub rsp, 16\nmovdqu dqword [rsp], xmm"@ + spec_u64_text(spec_xmm_index(n)) + "\n"@
}

/// Emits the save of one vector register, undone by `pop_xmm_for_fasm`.
pub fn push_xmm_for_fasm(n: XmmRegister) -> (r: String)
    ensures
        r@ == spec_push_xmm_text(n),
{
    let mut out = "sub rsp, 16\nmovdqu dqword [rsp], xmm".to_owned();
    let idx = u64_text(n.index());
    out.append(idx.as_str());
    out.append("\n");
    out
}

/// The text that restores one vector register from the stack.
pub open spec fn spec_pop_xmm_text(n: XmmRegister) -> Seq<char> {
    "movdqu xmm"@ + spec_u64_text(spec_xmm_index(n)) + ", dqword [rsp]\nadd rsp, 16\n"@
}

/// Emits the restore of one vector register saved by `push_xmm_for_fasm`.
pub fn pop_xmm_for_fasm(n: XmmRegister) -> (r: String)
    ensures
        r@ == spec_pop_xmm_text(n),
{
    let mut out = "movdqu xmm".to_owned();
    let idx = u64_text(n.index());
    out.append(idx.as_str());
    out.append(", dqword [rsp]\nadd rsp, 16\n");
    out
}

/// Emits the pushes of the four parameter registers of the platform
/// calling convention, in argument order.
pub fn preserve_microsoft_registers() -> (r: String)
    ensures
        r@ == "push rcx\npush rdx\npush r8\npush r9\n"@,
{
    "push rcx\npush rdx\npush r8\npush r9\n".to_owned()
}

/// Emits the matching pops, in reverse order.
pub fn retrieve_microsoft_registers() -> (r: String)
    ensures
        r@ == "pop r9\npop r8\npop rdx\npop rcx\n"@,
{
    "pop r9\npop r8\npop rdx\npop rcx\n".to_owned()
}

} // verus!
