//! The host-language type mapping: converts the native declarations' type
//! names into the host binding's type names, following the marshalling
//! table of the binding generator.
use crate::hook_codegen::TypeTree;
use crate::hook_parse::str_eq_lit;
use vstd::prelude::*;

verus! {

/// The host-side spelling of a native type name; a name outside the
/// marshalling table is kept as it is.
pub open spec fn spec_cs_name(s: Seq<char>) -> Seq<char> {
    if s == "i8"@ {
        "sbyte"@
    } else if s == "i16"@ {
        "short"@
    } else if s == "i32"@ {
        "int"@
    } else if s == "i64"@ {
        "long"@
    } else if s == "i128"@ {
        "Int128"@
    } else if s == "isize"@ {
        "nint"@
    } else if s == "u8"@ {
        "byte"@
    } else if s == "u16"@ {
        "ushort"@
    } else if s == "u32"@ {
        "uint"@
    } else if s == "u64"@ {
        "ulong"@
    } else if s == "u128"@ {
        "UInt128"@
    } else if s == "f32"@ {
        "float"@
    } else if s == "f64"@ {
        "double"@
    } else if s == "bool"@ {
        "bool"@
    } else if s == "char"@ {
        "uint"@
    } else if s == "usize"@ {
        "nuint"@
    } else if s == "()"@ {
        "void"@
    } else if s == "c_char"@ {
        "byte"@
    } else if s == "c_schar"@ {
        "sbyte"@
    } else if s == "c_uchar"@ {
        "byte"@
    } else if s == "c_short"@ {
        "short"@
    } else if s == "c_ushort"@ {
        "ushort"@
    } else if s == "c_int"@ {
        "int"@
    } else if s == "c_uint"@ {
        "uint"@
    } else if s == "c_long"@ {
        "CLong"@
    } else if s == "c_ulong"@ {
        "CULong"@
    } else if s == "c_longlong"@ {
        "long"@
    } else if s == "c_ulonglong"@ {
        "ulong"@
    } else if s == "c_float"@ {
        "float"@
    } else if s == "c_double"@ {
        "double"@
    } else if s == "c_void"@ {
        "void"@
    } else if s == "CString"@ {
        "sbyte"@
    } else if s == "NonZeroI8"@ {
        "sbyte"@
    } else if s == "NonZeroI16"@ {
        "short"@
    } else if s == "NonZeroI32"@ {
        "int"@
    } else if s == "NonZeroI64"@ {
        "long"@
    } else if s == "NonZeroI128"@ {
        "Int128"@
    } else if s == "NonZeroIsize"@ {
        "nint"@
    } else if s == "NonZeroU8"@ {
        "byte"@
    } else if s == "NonZeroU16"@ {
        "ushort"@
    } else if s == "NonZeroU32"@ {
        "uint"@
    } else if s == "NonZeroU64"@ {
        "ulong"@
    } else if s == "NonZeroU128"@ {
        "UInt128"@
    } else if s == "NonZeroUsize"@ {
        "nuint"@
    } else {
        s
    }
}

/// The host-side type text of a type tree: pointers and arrays marshal as
/// raw pointers to the element's host type.
pub open spec fn spec_cs_typename(t: TypeTree) -> Seq<char>
    decreases t,
{
    match t {
        TypeTree::Name(s) => spec_cs_name(s@),
        TypeTree::ConstPtr(inner) => spec_cs_typename(*inner) + "*"@,
        TypeTree::MutPtr(inner) => spec_cs_typename(*inner) + "*"@,
        TypeTree::Array(inner, _) => spec_cs_typename(*inner) + "*"@,
    }
}

/// Host-language conversion utilities.
pub struct Utils;

impl Utils {
    /// The host-side spelling of a native type name, following the
    /// marshalling table; unknown names are kept.
    pub fn convert_type_name(ty: &str) -> (r: &str)
        ensures
            r@ == spec_cs_name(ty@),
    {
        if str_eq_lit(ty, "i8") {
            "sbyte"
        } else if str_eq_lit(ty, "i16") {
            "short"
        } else if str_eq_lit(ty, "i32") {
            "int"
        } else if str_eq_lit(ty, "i64") {
            "long"
        } else if str_eq_lit(ty, "i128") {
            "Int128"
        } else if str_eq_lit(ty, "isize") {
            "nint"
        } else if str_eq_lit(ty, "u8") {
            "byte"
        } else if str_eq_lit(ty, "u16") {
            "ushort"
        } else if str_eq_lit(ty, "u32") {
            "uint"
        } else if str_eq_lit(ty, "u64") {
            "ulong"
        } else if str_eq_lit(ty, "u128") {
            "UInt128"
        } else if str_eq_lit(ty, "f32") {
            "float"
        } else if str_eq_lit(ty, "f64") {
            "double"
        } else if str_eq_lit(ty, "bool") {
            "bool"
        } else if str_eq_lit(ty, "char") {
            "uint"
        } else if str_eq_lit(ty, "usize") {
            "nuint"
        } else if str_eq_lit(ty, "()") {
            "void"
        } else if str_eq_lit(ty, "c_char") {
            "byte"
        } else if str_eq_lit(ty, "c_schar") {
            "sbyte"
        } else if str_eq_lit(ty, "c_uchar") {
            "byte"
        } else if str_eq_lit(ty, "c_short") {
            "short"
        } else if str_eq_lit(ty, "c_ushort") {
            "ushort"
        } else if str_eq_lit(ty, "c_int") {
            "int"
        } else if str_eq_lit(ty, "c_uint") {
            "uint"
        } else if str_eq_lit(ty, "c_long") {
            "CLong"
        } else if str_eq_lit(ty, "c_ulong") {
            "CULong"
        } else if str_eq_lit(ty, "c_longlong") {
            "long"
        } else if str_eq_lit(ty, "c_ulonglong") {
            "ulong"
        } else if str_eq_lit(ty, "c_float") {
            "float"
        } else if str_eq_lit(ty, "c_double") {
            "double"
        } else if str_eq_lit(ty, "c_void") {
            "void"
        } else if str_eq_lit(ty, "CString") {
            "sbyte"
        } else if str_eq_lit(ty, "NonZeroI8") {
            "sbyte"
        } else if str_eq_lit(ty, "NonZeroI16") {
            "short"
        } else if str_eq_lit(ty, "NonZeroI32") {
            "int"
        } else if str_eq_lit(ty, "NonZeroI64") {
            "long"
        } else if str_eq_lit(ty, "NonZeroI128") {
            "Int128"
        } else if str_eq_lit(ty, "NonZeroIsize") {
            "nint"
        } else if str_eq_lit(ty, "NonZeroU8") {
            "byte"
        } else if str_eq_lit(ty, "NonZeroU16") {
            "ushort"
        } else if str_eq_lit(ty, "NonZeroU32") {
            "uint"
        } else if str_eq_lit(ty, "NonZeroU64") {
            "ulong"
        } else if str_eq_lit(ty, "NonZeroU128") {
            "UInt128"
        } else if str_eq_lit(ty, "NonZeroUsize") {
            "nuint"
        } else {
            ty
        }
    }

    /// Whether a name belongs to the marshalling table: exactly the names
    /// whose conversion differs from the name itself.
    pub fn is_primitive_type(ty: &str) -> (r: bool)
        ensures
            r == (ty@ != spec_cs_name(ty@)),
    {
        let converted = Self::convert_type_name(ty);
        !str_eq_lit(ty, converted)
    }

    /// The host-side type text of a whole type tree.
    pub fn to_csharp_typename(ty: &TypeTree) -> (r: String)
        ensures
            r@ == spec_cs_typename(*ty),
        decreases ty,
    {
        match ty {
            TypeTree::Name(s) => {
                let cs = Self::convert_type_name(s.as_str());
                cs.to_owned()
            },
            TypeTree::ConstPtr(inner) => {
                let mut out = Self::to_csharp_typename(inner);
                out.append("*");
                out
            },
            TypeTree::MutPtr(inner) => {
                let mut out = Self::to_csharp_typename(inner);
                out.append("*");
                out
            },
            TypeTree::Array(inner, _) => {
                let mut out = Self::to_csharp_typename(inner);
                out.append("*");
                out
            },
        }
    }
}

} // verus!
