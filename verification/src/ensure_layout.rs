//! The declared size and alignment constraints of a layout-checked struct,
//! and the diagnostics of the layout annotation's parameter parser.
use vstd::prelude::*;

verus! {

/// The size and alignment an annotated struct declares, either optional.
#[derive(Clone, Copy, Debug, PartialEq, Eq, Structural)]
pub struct EnsureLayout {
    pub size: Option<u64>,
    pub align: Option<u64>,
}

impl EnsureLayout {
    pub fn new(size: Option<u64>, align: Option<u64>) -> (r: EnsureLayout)
        ensures
            r.size == size,
            r.align == align,
    {
        EnsureLayout { size, align }
    }

    pub fn get_size(&self) -> (r: Option<u64>)
        ensures
            r == self.size,
    {
        self.size
    }

    pub fn get_align(&self) -> (r: Option<u64>)
        ensures
            r == self.align,
    {
        self.align
    }

    /// The diagnostic for a mislabeled parameter.
    pub fn fmt_invalid_identifer(count: &str, ident_name: &str) -> (r: String)
        ensures
            r@ == "Name of "@ + count@ + " argument should be the identifier "@ + ident_name@,
    {
        let mut out = "Name of ".to_owned();
        out.append(count);
        out.append(" argument should be the identifier ");
        out.append(ident_name);
        out
    }

    /// The diagnostic for a parameter whose value is not a constant.
    pub fn fmt_compile_constant(ident_name: &str) -> (r: String)
        ensures
            r@ == "Identifier "@ + ident_name@ + " must be a value known at compile time"@,
    {
        let mut out = "Identifier ".to_owned();
        out.append(ident_name);
        out.append(" must be a value known at compile time");
        out
    }
}

} // verus!
