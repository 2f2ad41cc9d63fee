use riri_mod_tools::csharp::Utils;
use riri_mod_tools::hook_codegen::{
    ascii_uppercase, make_hook_og_fn_string, make_hook_set_string, make_vtbl_ptr_string,
    rewrite_stmts, u64_text, HookExpr, HookFunctionSig, HookStmt, Reloaded2CSharpHook, TypeTree,
    CodegenError,
};

fn sig(name: &str, params: Vec<TypeTree>, ret: Option<TypeTree>) -> HookFunctionSig {
    HookFunctionSig {
        name: name.to_owned(),
        params,
        ret,
        has_generics: false,
        abi: Some("C".to_owned()),
        has_receiver: false,
    }
}

#[test]
fn name_mangling() {
    assert_eq!(make_hook_set_string("FOO"), "__HOOK_SET_FOO");
    assert_eq!(make_hook_og_fn_string("FOO"), "__HOOK_OGFN_FOO");
    assert_eq!(make_vtbl_ptr_string("FOO"), "__VTBL_PTR_FOO");
    assert_eq!(ascii_uppercase("test_function_static_offset"), "TEST_FUNCTION_STATIC_OFFSET");
    assert_eq!(ascii_uppercase("Mixed_09az"), "MIXED_09AZ");
    assert_eq!(u64_text(0), "0");
    assert_eq!(u64_text(120549), "120549");
}

#[test]
fn function_hook_generates_slot_setter_and_body() {
    // A static-offset function hook produces the three native items: the
    // original-pointer slot, its setter, and the function itself.
    let s = sig(
        "test_function_static_offset",
        vec![TypeTree::Name("u32".to_owned()), TypeTree::MutPtr(Box::new(TypeTree::Name("u8".to_owned())))],
        Some(TypeTree::Name("u32".to_owned())),
    );
    let body = vec![HookStmt::Opaque("a1 * 2".to_owned())];
    let mut gen = Reloaded2CSharpHook::new(false);
    let a = gen.codegen_rust_function(&s, body).expect("a C-ABI function compiles");
    assert_eq!(a.slot_name, "__HOOK_OGFN_TEST_FUNCTION_STATIC_OFFSET");
    assert_eq!(a.fn_type, "extern \"C\" fn (u32, *mut u8) -> u32");
    assert!(a.slot_decl.contains("pub static __HOOK_OGFN_TEST_FUNCTION_STATIC_OFFSET"));
    assert!(a.slot_decl.contains("::std::sync::OnceLock<extern \"C\" fn (u32, *mut u8) -> u32>"));
    assert!(a.setter.contains("fn __HOOK_SET_TEST_FUNCTION_STATIC_OFFSET(cb: extern \"C\" fn (u32, *mut u8) -> u32)"));
    assert!(a.setter.contains("__HOOK_OGFN_TEST_FUNCTION_STATIC_OFFSET.set(cb)"));
    // The body is unchanged: it held no call-original expression.
    assert_eq!(a.body.len(), 1);
    assert!(matches!(&a.body[0], HookStmt::Opaque(t) if t == "a1 * 2"));
}

#[test]
fn function_hook_rejects_unsupported_signatures() {
    let mut s = sig("f", vec![], None);
    s.has_generics = true;
    let mut gen = Reloaded2CSharpHook::new(false);
    assert_eq!(gen.codegen_rust_function(&s, vec![]).unwrap_err(), CodegenError::GenericsNotSupported);

    let mut s = sig("f", vec![], None);
    s.abi = None;
    assert_eq!(gen.codegen_rust_function(&s, vec![]).unwrap_err(), CodegenError::MissingCAbi);

    let mut s = sig("f", vec![], None);
    s.abi = Some("system".to_owned());
    assert_eq!(gen.codegen_rust_function(&s, vec![]).unwrap_err(), CodegenError::MissingCAbi);

    let mut s = sig("f", vec![], None);
    s.has_receiver = true;
    assert_eq!(gen.codegen_rust_function(&s, vec![]).unwrap_err(), CodegenError::ReceiverNotSupported);
}

#[test]
fn call_original_is_rewritten_everywhere() {
    // The call-original marker is replaced in a plain initializer, inside
    // arithmetic, inside blocks, and in tail position.
    let mac = |a: &str| HookExpr::MacroCall {
        name: "original_function".to_owned(),
        args: a.to_owned(),
    };
    let body = vec![
        HookStmt::Local { init: Some(Box::new(mac("a1"))), diverge: None },
        HookStmt::Local {
            init: Some(Box::new(HookExpr::Binary(
                Box::new(mac("a1")),
                Box::new(HookExpr::Opaque("2".to_owned())),
            ))),
            diverge: None,
        },
        HookStmt::Local {
            init: Some(Box::new(HookExpr::Block(vec![HookStmt::Expr(Box::new(mac("a1")))]))),
            diverge: None,
        },
        HookStmt::Local {
            init: Some(Box::new(HookExpr::UnsafeBlock(vec![HookStmt::Expr(Box::new(mac("a1")))]))),
            diverge: None,
        },
        HookStmt::Expr(Box::new(mac("a1"))),
    ];
    let slot = "__HOOK_OGFN_TEST_FUNCTION_MAIN".to_owned();
    let out = rewrite_stmts(body, &slot);
    let expect_indirect = |e: &HookExpr| match e {
        HookExpr::IndirectCall { slot: s, args } => {
            assert_eq!(s, &slot);
            assert_eq!(args, "a1");
        },
        _ => panic!("the call-original marker must become an indirect call"),
    };
    match &out[0] {
        HookStmt::Local { init: Some(e), .. } => expect_indirect(e),
        _ => panic!("statement shape must be kept"),
    }
    match &out[1] {
        HookStmt::Local { init: Some(e), .. } => match &**e {
            HookExpr::Binary(l, _) => expect_indirect(l),
            _ => panic!("binary shape must be kept"),
        },
        _ => panic!("statement shape must be kept"),
    }
    match &out[2] {
        HookStmt::Local { init: Some(e), .. } => match &**e {
            HookExpr::Block(ss) => match &ss[0] {
                HookStmt::Expr(e) => expect_indirect(e),
                _ => panic!("block body must be kept"),
            },
            _ => panic!("block shape must be kept"),
        },
        _ => panic!("statement shape must be kept"),
    }
    match &out[4] {
        HookStmt::Expr(e) => expect_indirect(e),
        _ => panic!("tail expression must be kept"),
    }
}

#[test]
fn other_macros_are_left_alone() {
    let body = vec![HookStmt::Expr(Box::new(HookExpr::MacroCall {
        name: "println".to_owned(),
        args: "\"hi\"".to_owned(),
    }))];
    let out = rewrite_stmts(body, &"SLOT".to_owned());
    assert!(matches!(&out[0], HookStmt::Expr(e) if matches!(&**e,
        HookExpr::MacroCall { name, .. } if name == "println")));
}

#[test]
fn static_hook_generates_cell_and_setter() {
    let mut gen = Reloaded2CSharpHook::new(false);
    let a = gen
        .codegen_rust_static("GLOBAL_COUNTER", &TypeTree::ConstPtr(Box::new(TypeTree::Name("u32".to_owned()))))
        .expect("a pointer-typed global compiles");
    assert!(a.global_decl.contains("pub static GLOBAL_COUNTER: ::std::sync::OnceLock<*const u32>"));
    assert!(a.setter.contains("fn __HOOK_SET_GLOBAL_COUNTER(cb: *const u32)"));

    let e = gen
        .codegen_rust_static("A", &TypeTree::Array(Box::new(TypeTree::Name("u8".to_owned())), 4))
        .unwrap_err();
    assert_eq!(e, CodegenError::UnsupportedFieldType);
}

#[test]
fn class_hook_injects_the_table_pointer() {
    let mut gen = Reloaded2CSharpHook::new(false);
    let a = gen.codegen_rust_class("TaskList", true).expect("named fields compile");
    assert_eq!(a.vtbl_name, "__VTBL_PTR_TASKLIST");
    assert!(a.vtbl_decl.contains("pub static __VTBL_PTR_TASKLIST: ::std::sync::OnceLock<usize>"));
    assert_eq!(a.injected_field, "#[doc(hidden)] __cpp_vtbl: usize");
    let e = gen.codegen_rust_class("Tuple", false).unwrap_err();
    assert_eq!(e, CodegenError::NamedFieldsRequired);
}

#[test]
fn type_name_conversion_follows_the_table() {
    assert_eq!(Utils::convert_type_name("i8"), "sbyte");
    assert_eq!(Utils::convert_type_name("u64"), "ulong");
    assert_eq!(Utils::convert_type_name("usize"), "nuint");
    assert_eq!(Utils::convert_type_name("f32"), "float");
    assert_eq!(Utils::convert_type_name("c_void"), "void");
    assert_eq!(Utils::convert_type_name("NonZeroU32"), "uint");
    assert_eq!(Utils::convert_type_name("MyStruct"), "MyStruct");
    assert!(Utils::is_primitive_type("i32"));
    assert!(!Utils::is_primitive_type("MyStruct"));
    // bool converts to itself, so it does not count as converted.
    assert!(!Utils::is_primitive_type("bool"));
}

#[test]
fn csharp_typename_marshals_pointers() {
    let t = TypeTree::MutPtr(Box::new(TypeTree::Name("u8".to_owned())));
    assert_eq!(Utils::to_csharp_typename(&t), "byte*");
    let t = TypeTree::ConstPtr(Box::new(TypeTree::ConstPtr(Box::new(TypeTree::Name(
        "c_char".to_owned(),
    )))));
    assert_eq!(Utils::to_csharp_typename(&t), "byte**");
    let t = TypeTree::Array(Box::new(TypeTree::Name("f32".to_owned())), 4);
    assert_eq!(Utils::to_csharp_typename(&t), "float*");
}
