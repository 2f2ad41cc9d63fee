//! The thunk-chasing address resolver. A candidate address may point at a
//! short jump, a near jump or an indirect far jump rather than at the real
//! function entry; the resolver follows such redirects until it reaches a
//! byte that is not a jump opcode, and validates every address it visits
//! against a bounds policy.
use crate::memory::{MemoryImage, signed32, signed8, spec_signed32, spec_signed8};
use vstd::prelude::*;

verus! {

/// How many redirects the resolver is willing to follow before giving up.
pub const THUNK_CHASE_LIMIT: u64 = 64;

/// A bounds policy: decides which addresses the resolver may accept and
/// continue chasing from.
pub trait PointerBounds {
    spec fn spec_in_bounds(img: &MemoryImage, addr: u64) -> bool;

    fn in_bounds(img: &MemoryImage, addr: u64) -> (r: bool)
        ensures
            r == Self::spec_in_bounds(img, addr),
    ;
}

/// Accepts only addresses inside the executable image.
pub struct PointerExecutableBound;

/// Accepts every address but the null address.
pub struct PointerUnbounded;

impl PointerBounds for PointerExecutableBound {
    open spec fn spec_in_bounds(img: &MemoryImage, addr: u64) -> bool {
        img.base <= addr && addr - img.base < img.bytes@.len()
    }

    fn in_bounds(img: &MemoryImage, addr: u64) -> (r: bool) {
        img.base <= addr && addr - img.base < img.bytes.len() as u64
    }
}

impl PointerBounds for PointerUnbounded {
    open spec fn spec_in_bounds(img: &MemoryImage, addr: u64) -> bool {
        addr != 0
    }

    fn in_bounds(img: &MemoryImage, addr: u64) -> (r: bool) {
        addr != 0
    }
}

/// Where a short jump at `addr` lands: the signed byte at `addr + 1` plus two.
pub open spec fn spec_short_jump_target(img: &MemoryImage, addr: u64) -> u64 {
    vstd::wrapping::u64_specs::wrapping_add_signed(
        vstd::wrapping::u64_specs::wrapping_add(addr, 2),
        spec_signed8(img.spec_byte_at(vstd::wrapping::u64_specs::wrapping_add(addr, 1))) as i64,
    )
}

/// Where a near jump at `addr` lands: the signed double word at `addr + 1`,
/// relative to the end of the five-byte instruction.
pub open spec fn spec_near_jump_target(img: &MemoryImage, addr: u64) -> u64 {
    vstd::wrapping::u64_specs::wrapping_add_signed(
        vstd::wrapping::u64_specs::wrapping_add(addr, 5),
        spec_signed32(img.spec_dword_at(vstd::wrapping::u64_specs::wrapping_add(addr, 1))) as i64,
    )
}

/// One state-machine run of the resolver with `fuel` redirects left. `None`
/// stands for rejection: an address the policy refuses, a byte the image
/// cannot supply, or a redirect chain longer than the fuel allows.
pub open spec fn spec_try_deref<B: PointerBounds>(img: &MemoryImage, addr: u64, fuel: nat) -> Option<
    u64,
>
    decreases fuel,
{
    if !B::spec_in_bounds(img, addr) {
        None
    } else if !img.spec_in_image(addr) {
        None
    } else {
        let op = img.spec_byte_at(addr);
        if op == 0xeb {
            if fuel == 0 {
                None
            } else if !img.spec_in_image(vstd::wrapping::u64_specs::wrapping_add(addr, 1)) {
                None
            } else {
                spec_try_deref::<B>(img, spec_short_jump_target(img, addr), (fuel - 1) as nat)
            }
        } else if op == 0xe9 {
            if fuel == 0 {
                None
            } else if !img.spec_range_in_image(vstd::wrapping::u64_specs::wrapping_add(addr, 1), 4) {
                None
            } else {
                spec_try_deref::<B>(img, spec_near_jump_target(img, addr), (fuel - 1) as nat)
            }
        } else if op == 0xff {
            if !img.spec_in_image(vstd::wrapping::u64_specs::wrapping_add(addr, 1)) {
                None
            } else if img.spec_byte_at(vstd::wrapping::u64_specs::wrapping_add(addr, 1)) & 0xf
                == 5 {
                if fuel == 0 {
                    None
                } else if !img.spec_range_in_image(
                    vstd::wrapping::u64_specs::wrapping_add(addr, 6),
                    8,
                ) {
                    None
                } else {
                    spec_try_deref::<B>(
                        img,
                        img.spec_qword_at(vstd::wrapping::u64_specs::wrapping_add(addr, 6)),
                        (fuel - 1) as nat,
                    )
                }
            } else {
                Some(addr)
            }
        } else {
            Some(addr)
        }
    }
}

/// Follows jump redirects starting at `addr` until a non-jump byte is
/// reached, checking each visited address against the bounds policy `B`.
pub fn try_deref_instruction_pointer<B: PointerBounds>(img: &MemoryImage, addr: u64) -> (r: Option<
    u64,
>)
    ensures
        r == spec_try_deref::<B>(img, addr, THUNK_CHASE_LIMIT as nat),
{
    let mut cur: u64 = addr;
    let mut fuel: u64 = THUNK_CHASE_LIMIT;
    loop
        invariant
            spec_try_deref::<B>(img, addr, THUNK_CHASE_LIMIT as nat) == spec_try_deref::<B>(
                img,
                cur,
                fuel as nat,
            ),
        decreases fuel,
    {
        if !B::in_bounds(img, cur) {
            return None;
        }
        if !img.in_image(cur) {
            return None;
        }
        let op = img.byte_at(cur);
        if op == 0xeb {
            if fuel == 0 {
                return None;
            }
            let a1 = cur.wrapping_add(1);
            if !img.in_image(a1) {
                return None;
            }
            let d = signed8(img.byte_at(a1));
            cur = cur.wrapping_add(2).wrapping_add_signed(d);
            fuel = fuel - 1;
        } else if op == 0xe9 {
            if fuel == 0 {
                return None;
            }
            let a1 = cur.wrapping_add(1);
            if !img.range_in_image(a1, 4) {
                return None;
            }
            let d = signed32(img.dword_at(a1));
            cur = cur.wrapping_add(5).wrapping_add_signed(d);
            fuel = fuel - 1;
        } else if op == 0xff {
            let a1 = cur.wrapping_add(1);
            if !img.in_image(a1) {
                return None;
            }
            if img.byte_at(a1) & 0xf == 5 {
                if fuel == 0 {
                    return None;
                }
                let a6 = cur.wrapping_add(6);
                if !img.range_in_image(a6, 8) {
                    return None;
                }
                cur = img.qword_at(a6);
                fuel = fuel - 1;
            } else {
                return Some(cur);
            }
        } else {
            return Some(cur);
        }
    }
}

/// Computes the absolute address for an offset into the module: the base
/// address plus the offset.
pub fn get_address(img: &MemoryImage, ofs: u64) -> (r: u64)
    requires
        img.base + ofs <= u64::MAX,
    ensures
        r == img.base + ofs,
{
    img.base + ofs
}

/// Like `get_address`, but follows jump redirects at the target, so that a
/// thunked function resolves to its real entry point.
pub fn get_address_may_thunk(img: &MemoryImage, ofs: u64) -> (r: Option<u64>)
    requires
        img.base + ofs <= u64::MAX,
    ensures
        r == spec_try_deref::<PointerUnbounded>(img, (img.base + ofs) as u64, THUNK_CHASE_LIMIT as nat),
{
    try_deref_instruction_pointer::<PointerUnbounded>(img, img.base + ofs)
}

/// Follows jump redirects starting from an absolute address.
pub fn get_address_may_thunk_absolute(img: &MemoryImage, addr: u64) -> (r: Option<u64>)
    ensures
        r == spec_try_deref::<PointerUnbounded>(img, addr, THUNK_CHASE_LIMIT as nat),
{
    try_deref_instruction_pointer::<PointerUnbounded>(img, addr)
}

/// What dereferencing the four-byte relative displacement at `addr` yields:
/// the displacement plus the address of the following byte quadruple's end,
/// accepted only where the policy allows the target.
pub open spec fn spec_deref_int_relative<B: PointerBounds>(img: &MemoryImage, addr: u64) -> Option<
    u64,
> {
    if !img.spec_range_in_image(addr, 4) {
        None
    } else {
        let target = vstd::wrapping::u64_specs::wrapping_add_signed(
            vstd::wrapping::u64_specs::wrapping_add(addr, 4),
            spec_signed32(img.spec_dword_at(addr)) as i64,
        );
        if B::spec_in_bounds(img, target) {
            Some(target)
        } else {
            None
        }
    }
}

/// Dereferences a four-byte signed displacement at `addr`: the target is
/// `addr + displacement + 4`.
pub fn deref_int_relative_pointer<B: PointerBounds>(img: &MemoryImage, addr: u64) -> (r: Option<
    u64,
>)
    ensures
        r == spec_deref_int_relative::<B>(img, addr),
{
    if !img.range_in_image(addr, 4) {
        return None;
    }
    let d = signed32(img.dword_at(addr));
    let target = addr.wrapping_add(4).wrapping_add_signed(d);
    if B::in_bounds(img, target) {
        Some(target)
    } else {
        None
    }
}

/// Dereferences the displacement of an instruction whose operand starts at
/// its second byte.
pub fn get_indirect_address_short(img: &MemoryImage, ofs: u64) -> (r: Option<u64>)
    requires
        img.base + ofs + 1 <= u64::MAX,
    ensures
        r == spec_deref_int_relative::<PointerUnbounded>(img, (img.base + ofs + 1) as u64),
{
    deref_int_relative_pointer::<PointerUnbounded>(img, img.base + ofs + 1)
}

/// Dereferences the displacement of an instruction whose operand starts at
/// its third byte.
pub fn get_indirect_address_short2(img: &MemoryImage, ofs: u64) -> (r: Option<u64>)
    requires
        img.base + ofs + 2 <= u64::MAX,
    ensures
        r == spec_deref_int_relative::<PointerUnbounded>(img, (img.base + ofs + 2) as u64),
{
    deref_int_relative_pointer::<PointerUnbounded>(img, img.base + ofs + 2)
}

/// Dereferences the displacement of an instruction whose operand starts at
/// its fourth byte.
pub fn get_indirect_address_long(img: &MemoryImage, ofs: u64) -> (r: Option<u64>)
    requires
        img.base + ofs + 3 <= u64::MAX,
    ensures
        r == spec_deref_int_relative::<PointerUnbounded>(img, (img.base + ofs + 3) as u64),
{
    deref_int_relative_pointer::<PointerUnbounded>(img, img.base + ofs + 3)
}

/// Dereferences the displacement of an instruction whose operand starts at
/// its fifth byte.
pub fn get_indirect_address_long4(img: &MemoryImage, ofs: u64) -> (r: Option<u64>)
    requires
        img.base + ofs + 4 <= u64::MAX,
    ensures
        r == spec_deref_int_relative::<PointerUnbounded>(img, (img.base + ofs + 4) as u64),
{
    deref_int_relative_pointer::<PointerUnbounded>(img, img.base + ofs + 4)
}


/// Whatever the executable-bound resolver accepts lies inside the module:
/// every intermediate and final address was checked against the image.
pub proof fn lemma_resolved_in_module(img: &MemoryImage, addr: u64, fuel: nat, r: u64)
    requires
        spec_try_deref::<PointerExecutableBound>(img, addr, fuel) == Some(r),
    ensures
        img.base <= r && r - img.base < img.bytes@.len(),
    decreases fuel,
{
    if PointerExecutableBound::spec_in_bounds(img, addr) && img.spec_in_image(addr) {
        let op = img.spec_byte_at(addr);
        if op == 0xeb {
            lemma_resolved_in_module(img, spec_short_jump_target(img, addr), (fuel - 1) as nat, r);
        } else if op == 0xe9 {
            lemma_resolved_in_module(img, spec_near_jump_target(img, addr), (fuel - 1) as nat, r);
        } else if op == 0xff && img.spec_byte_at(
            vstd::wrapping::u64_specs::wrapping_add(addr, 1),
        ) & 0xf == 5 {
            lemma_resolved_in_module(
                img,
                img.spec_qword_at(vstd::wrapping::u64_specs::wrapping_add(addr, 6)),
                (fuel - 1) as nat,
            r);
        }
    }
}

/// Whatever the unbounded resolver accepts is not the null address.
pub proof fn lemma_resolved_not_null(img: &MemoryImage, addr: u64, fuel: nat, r: u64)
    requires
        spec_try_deref::<PointerUnbounded>(img, addr, fuel) == Some(r),
    ensures
        r != 0,
    decreases fuel,
{
    if PointerUnbounded::spec_in_bounds(img, addr) && img.spec_in_image(addr) {
        let op = img.spec_byte_at(addr);
        if op == 0xeb {
            lemma_resolved_not_null(img, spec_short_jump_target(img, addr), (fuel - 1) as nat, r);
        } else if op == 0xe9 {
            lemma_resolved_not_null(img, spec_near_jump_target(img, addr), (fuel - 1) as nat, r);
        } else if op == 0xff && img.spec_byte_at(
            vstd::wrapping::u64_specs::wrapping_add(addr, 1),
        ) & 0xf == 5 {
            lemma_resolved_not_null(
                img,
                img.spec_qword_at(vstd::wrapping::u64_specs::wrapping_add(addr, 6)),
                (fuel - 1) as nat,
            r);
        }
    }
}

/// A short jump lands the signed byte plus two past the jump: with the bytes
/// `0xEB, 0x05` at `a`, an unbounded resolve yields `a + 2 + 5` as long as
/// the landing byte is not itself a jump opcode.
pub proof fn lemma_short_thunk_resolves(img: &MemoryImage, a: u64)
    requires
        a != 0,
        a + 7 <= u64::MAX,
        img.spec_in_image(a),
        img.spec_in_image((a + 1) as u64),
        img.spec_in_image((a + 7) as u64),
        img.spec_byte_at(a) == 0xeb,
        img.spec_byte_at((a + 1) as u64) == 0x05,
        img.spec_byte_at((a + 7) as u64) != 0xeb,
        img.spec_byte_at((a + 7) as u64) != 0xe9,
        img.spec_byte_at((a + 7) as u64) != 0xff,
    ensures
        spec_try_deref::<PointerUnbounded>(img, a, THUNK_CHASE_LIMIT as nat) == Some(
            (a + 2 + 5) as u64,
        ),
{
    let t = (a + 7) as u64;
    assert(spec_try_deref::<PointerUnbounded>(img, t, (THUNK_CHASE_LIMIT - 1) as nat) == Some(t));
    assert(spec_short_jump_target(img, a) == t);
}

/// A near jump lands the signed double word plus five past the jump: with
/// the byte `0xE9` at `a` followed by a little-endian displacement that
/// decodes to `d`, an unbounded resolve yields `a + 1 + d + 4` as long as
/// the landing byte is not itself a jump opcode.
pub proof fn lemma_near_thunk_resolves(img: &MemoryImage, a: u64, d: int)
    requires
        a != 0,
        a + 5 <= u64::MAX,
        img.spec_in_image(a),
        img.spec_range_in_image((a + 1) as u64, 4),
        img.spec_byte_at(a) == 0xe9,
        d == spec_signed32(img.spec_dword_at((a + 1) as u64)),
        0 < a + 1 + d + 4 <= u64::MAX,
        img.spec_in_image((a + 1 + d + 4) as u64),
        img.spec_byte_at((a + 1 + d + 4) as u64) != 0xeb,
        img.spec_byte_at((a + 1 + d + 4) as u64) != 0xe9,
        img.spec_byte_at((a + 1 + d + 4) as u64) != 0xff,
    ensures
        spec_try_deref::<PointerUnbounded>(img, a, THUNK_CHASE_LIMIT as nat) == Some(
            (a + 1 + d + 4) as u64,
        ),
{
    let t = (a + 1 + d + 4) as u64;
    assert(spec_try_deref::<PointerUnbounded>(img, t, (THUNK_CHASE_LIMIT - 1) as nat) == Some(t));
    assert(spec_near_jump_target(img, a) == t);
}

/// Under the executable bounds policy, any candidate address outside the
/// image is rejected outright, whatever bytes the image holds.
pub proof fn lemma_bounds_rejection(img: &MemoryImage, addr: u64, fuel: nat)
    requires
        !(img.base <= addr && addr - img.base < img.bytes@.len()),
    ensures
        spec_try_deref::<PointerExecutableBound>(img, addr, fuel) == None::<u64>,
{
}

} // verus!
