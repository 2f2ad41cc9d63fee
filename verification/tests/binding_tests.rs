use riri_mod_tools::hook_assignment::{
    hex_text, get_resolve_function_path, HookAssignCodegenStaticOffset,
    HookAssignCodegenDynamicOffset, HookAssignCodegenDynamicOffsetSharedScans,
    HookAssignCodegenUserDefined, HookBootstrapFunctionState, HookBootstrapStaticState,
    InitFunction, ModLoadingFunction,
};
use riri_mod_tools::hook_evaluation::{HookEvaluationResult, HookEvaluator};
use riri_mod_tools::hook_parse::{
    ArmCase, ArmPattern, AsmField, DescriptorArg, DescriptorCall, DescriptorValue, DynamicOffset,
    HookArm, CallingConvention, StaticOffset,
};
use riri_mod_tools::riri_hook::{parse_hook_info, AssemblyFunctionHook, HookDescriptor};
use riri_mod_tools::utils::SourceWriter;

fn state() -> HookBootstrapFunctionState {
    // The delegate path ends in the function name, a separator, and the
    // eight-character delegate suffix.
    HookBootstrapFunctionState::new(
        "set_color".to_owned(),
        "p3r.mod.ReloadedFFI.Hooks.Colors.set_colorDelegate".to_owned(),
    )
}

#[test]
fn bootstrap_paths_are_cut_from_the_delegate_path() {
    let s = state();
    assert_eq!(s.get_fn_name(), "set_color");
    assert_eq!(s.get_delegate_path(), "p3r.mod.ReloadedFFI.Hooks.Colors.set_colorDelegate");
    assert_eq!(s.get_fn_path(), "p3r.mod.ReloadedFFI.Hooks.Colors.set_color");
    assert_eq!(s.get_class_path(), "p3r.mod.ReloadedFFI.Hooks.Colors");
}

#[test]
fn hex_rendering() {
    assert_eq!(hex_text(0), "0");
    assert_eq!(hex_text(0xbe34240), "be34240");
    assert_eq!(hex_text(0xDEADBEEF), "deadbeef");
}

#[test]
fn resolver_path_picks_the_namespace() {
    // Built-in resolvers live in the utility class; custom resolvers in
    // the hook class.
    let r = get_resolve_function_path(&None, "m.ReloadedFFI.Utilities", "m.Hooks.C", None, false);
    assert_eq!(r, "m.ReloadedFFI.Utilities.get_address_may_thunk(x);");
    let r = get_resolve_function_path(
        &Some("get_indirect_address_long".to_owned()),
        "m.ReloadedFFI.Utilities",
        "m.Hooks.C",
        Some("0x10".to_owned()),
        false,
    );
    assert_eq!(r, "m.ReloadedFFI.Utilities.get_indirect_address_long(0x10);");
    let r = get_resolve_function_path(
        &Some("set_gfd_global".to_owned()),
        "m.ReloadedFFI.Utilities",
        "m.Hooks.C",
        Some("addr_relative".to_owned()),
        true,
    );
    assert_eq!(r, "m.Hooks.C.set_gfd_global((nuint)addr_relative);");
}

#[test]
fn static_offset_binding_resolves_and_publishes() {
    let gen = HookAssignCodegenStaticOffset::new(StaticOffset(0xbe34240));
    let out = gen.make_single_function_hook_assign(
        "p3r.mod.ReloadedFFI.Utilities",
        "p3r.mod.ReloadedFFI.Hooks.Colors",
        &state(),
        "delegate* unmanaged[Stdcall]<uint, void>",
    );
    assert!(out.contains("var addr_set_color = p3r.mod.ReloadedFFI.Utilities.get_address_may_thunk(0xbe34240);"));
    assert!(out.contains("_set_color = _hooks!.CreateHook<p3r.mod.ReloadedFFI.Hooks.Colors.set_colorDelegate>(p3r.mod.ReloadedFFI.Hooks.Colors.set_color, (long)addr_set_color).Activate();"));
    assert!(out.contains("__HOOK_SET_SET_COLOR((delegate* unmanaged[Stdcall]<uint, void>)_set_color.OriginalFunctionWrapperAddress);"));
}

#[test]
fn dynamic_offset_binding_scans_for_the_pattern() {
    let d = DynamicOffset {
        sig: "F7 05 ?? ?? ?? ?? 00 00 00 02".to_owned(),
        resolve_type: Some("set_gfd_global".to_owned()),
        call_conv: CallingConvention::Microsoft,
        shared_scan: None,
    };
    let gen = HookAssignCodegenDynamicOffset::new(&d);
    let out = gen.make_single_function_hook_assign(
        "p3r.mod.ReloadedFFI.Utilities",
        "p3r.mod.ReloadedFFI.Hooks.Colors",
        &state(),
        "delegate* unmanaged[Stdcall]<uint, void>",
    );
    assert!(out.starts_with("SigScan(\"F7 05 ?? ?? ?? ?? 00 00 00 02\", \"set_color\", x => {"));
    assert!(out.contains("var addr = p3r.mod.ReloadedFFI.Hooks.Colors.set_gfd_global(x);"));
    assert!(out.contains("p3r.mod.ReloadedFFI.Hooks.Colors.__HOOK_SET_SET_COLOR("));
}

#[test]
fn shared_scan_producer_adds_the_scan_and_consumer_does_not() {
    let producer = DynamicOffset {
        sig: "48 83 EC".to_owned(),
        resolve_type: None,
        call_conv: CallingConvention::Microsoft,
        shared_scan: Some(riri_mod_tools::hook_parse::RyoTuneSharedScan::Produce),
    };
    let gen = HookAssignCodegenDynamicOffsetSharedScans::new(&producer);
    let out = gen.make_single_function_hook_assign(
        "m.ReloadedFFI.Utilities",
        "m.Hooks.C",
        &state(),
        "dt",
    );
    assert!(out.contains("_sharedScans!.AddScan<"));
    assert!(out.contains("var addr_relative = x - _baseAddress;"));
    assert!(out.contains("get_address_may_thunk((nuint)addr_relative);"));

    let consumer = DynamicOffset {
        sig: String::new(),
        resolve_type: None,
        call_conv: CallingConvention::Microsoft,
        shared_scan: Some(riri_mod_tools::hook_parse::RyoTuneSharedScan::Consume),
    };
    let gen = HookAssignCodegenDynamicOffsetSharedScans::new(&consumer);
    let out = gen.make_single_function_hook_assign(
        "m.ReloadedFFI.Utilities",
        "m.Hooks.C",
        &state(),
        "dt",
    );
    assert!(!out.contains("AddScan"));
    assert!(out.contains("CreateListener"));
}

#[test]
fn user_defined_binding_hands_over_the_callback() {
    let gen = HookAssignCodegenUserDefined::new();
    let out = gen.make_single_function_hook_assign("m.Hooks.C", &state());
    assert_eq!(out, "m.Hooks.C.__HOOK_USER_SET_SET_COLOR(&UserDefined_set_color);\n");
}

#[test]
fn event_function_calls() {
    assert_eq!(InitFunction::make_init_function_call("m.Hooks.C", "module_init"), "m.Hooks.C.module_init();\n");
    assert_eq!(ModLoadingFunction::make_function_call("m.Hooks.C", "on_mod_loaded"), "m.Hooks.C.on_mod_loaded(confHandle);\n");
}

#[test]
fn multi_branch_chain_keys_on_the_identity_hash() {
    // Two numeric branches and a fallback compile to an if/else-if chain
    // on the executable identity hash, closed by the fallback.
    let arms = vec![
        HookArm {
            pattern: ArmPattern::Single(ArmCase::Num(111)),
            entry: DescriptorCall {
                callee: "static_offset".to_owned(),
                args: vec![DescriptorArg::Plain(DescriptorValue::Number(0x10))],
            },
        },
        HookArm {
            pattern: ArmPattern::Single(ArmCase::Name("XRD759_STEAM_102".to_owned())),
            entry: DescriptorCall {
                callee: "static_offset".to_owned(),
                args: vec![DescriptorArg::Plain(DescriptorValue::Number(0x20))],
            },
        },
        HookArm {
            pattern: ArmPattern::Single(ArmCase::Wild),
            entry: DescriptorCall {
                callee: "static_offset".to_owned(),
                args: vec![DescriptorArg::Plain(DescriptorValue::Number(0x30))],
            },
        },
    ];
    let info = parse_hook_info(HookDescriptor::Arms(arms)).expect("a valid set parses");
    let mut ev = HookEvaluator::new("p3r.mod".to_owned());
    let out = ev.generate_hook_c_function_for_function(&info, "Colors", &state(), "dt");
    assert!(out.starts_with(
        "if (p3r.mod.ReloadedFFI.Utilities.get_executable_hash() == 111) {"
    ));
    assert!(out.contains(
        "else if (p3r.mod.ReloadedFFI.Utilities.get_executable_hash() == p3r.mod.Mod.XRD759_STEAM_102) {"
    ));
    assert!(out.contains("else {"));
    assert!(out.contains("get_address_may_thunk(0x10);"));
    assert!(out.contains("get_address_may_thunk(0x20);"));
    assert!(out.contains("get_address_may_thunk(0x30);"));
    assert!(out.trim_end().ends_with("}"));
}

#[test]
fn single_branch_needs_no_conditional() {
    let info = parse_hook_info(HookDescriptor::Single(DescriptorCall {
        callee: "static_offset".to_owned(),
        args: vec![DescriptorArg::Plain(DescriptorValue::Number(0x40))],
    }))
    .expect("parses");
    let mut ev = HookEvaluator::new("p3r.mod".to_owned());
    let out = ev.generate_hook_c_function_for_function(&info, "Colors", &state(), "dt");
    assert!(!out.contains("if ("));
    assert!(out.contains("get_address_may_thunk(0x40);"));
}

#[test]
fn shared_scan_use_is_remembered() {
    let d = DescriptorCall {
        callee: "dynamic_offset".to_owned(),
        args: vec![
            DescriptorArg::Assign {
                name: "signature".to_owned(),
                value: DescriptorValue::Text("48 83".to_owned()),
            },
            DescriptorArg::Assign {
                name: "shared_scan".to_owned(),
                value: DescriptorValue::Text("producer".to_owned()),
            },
        ],
    };
    let info = parse_hook_info(HookDescriptor::Single(d)).expect("parses");
    let mut ev = HookEvaluator::new("m".to_owned());
    assert!(!ev.uses_shared_scans);
    let _ = ev.generate_hook_c_function_for_function(&info, "C", &state(), "dt");
    assert!(ev.uses_shared_scans);
}

#[test]
fn evaluator_namespaces() {
    let ev = HookEvaluator::new("p3r.mod".to_owned());
    assert_eq!(ev.ffi_namespace(), "p3r.mod.ReloadedFFI");
    assert_eq!(ev.ffi_hook_namespace(), "p3r.mod.ReloadedFFI.Hooks");
    assert_eq!(ev.ffi_interface_namespace("IColors"), "p3r.mod.ReloadedFFI.Interfaces.IColors");
    assert_eq!(ev.ffi_utility_class(), "p3r.mod.ReloadedFFI.Utilities");
}

#[test]
fn evaluation_result_keeps_its_lists() {
    let r = HookEvaluationResult::new(
        vec!["RegisterA".to_owned()],
        vec!["LateA".to_owned(), "LateB".to_owned()],
    );
    assert_eq!(r.get_register_hook_functions().len(), 1);
    assert_eq!(r.get_loader_initialized_functions().len(), 2);
}

#[test]
fn source_writer_tracks_indentation() {
    let mut w = SourceWriter::new();
    w.writeln("namespace demo");
    w.indent().expect("depth one is allowed");
    w.writeln("class Mod");
    w.indent().expect("depth two is allowed");
    w.writeln("int x;");
    w.unindent().expect("matched");
    w.unindent().expect("matched");
    assert!(w.unindent().is_err());
    let text = w.submit();
    assert_eq!(
        text,
        "namespace demo\n{\n    class Mod\n    {\n        int x;\n    }\n}\n"
    );
}

#[test]
fn source_writer_custom_indent() {
    let mut w = SourceWriter::new_custom_indent("\t".to_owned());
    w.indent().expect("depth one");
    w.write("x");
    let text = w.submit();
    assert_eq!(text, "{\n\tx");
}

#[test]
fn static_binding_publishes_through_the_setter() {
    let gen = HookAssignCodegenStaticOffset::new(StaticOffset(0x20));
    let st = HookBootstrapStaticState::new("uint".to_owned(), "GLOBAL_FLAG".to_owned());
    let out = gen.make_single_static_hook_assign("m.ReloadedFFI.Utilities", "m.Hooks.C", &st);
    assert!(out.contains("var addr_GLOBAL_FLAG = m.ReloadedFFI.Utilities.get_address_may_thunk(0x20);"));
    assert!(out.contains("m.Hooks.C.__HOOK_SET_GLOBAL_FLAG((uint)addr_GLOBAL_FLAG);"));
}

#[test]
fn inline_hook_builds_assembly_glue_and_activation() {
    let fields = vec![
        AsmField::Ident("ExecuteFirst".to_owned()),
        AsmField::List(vec!["r8".to_owned()]),
        AsmField::Ident("rax".to_owned()),
        AsmField::List(vec![]),
        AsmField::Flag(false),
        AsmField::Text("sub rsp, 0x40\n".to_owned()),
        AsmField::Text("add rsp, 0x40\n".to_owned()),
    ];
    let hook = AssemblyFunctionHook::parse(
        HookDescriptor::Single(DescriptorCall {
            callee: "static_offset".to_owned(),
            args: vec![DescriptorArg::Plain(DescriptorValue::Number(0xa150))],
        }),
        &vec![fields],
    )
    .expect("parses");
    let mut ev = HookEvaluator::new("p3r.mod".to_owned());
    let out = ev
        .generate_hook_assembly_function(&hook, "Colors", &state())
        .expect("a static inline hook compiles");
    assert!(out.contains("var addr_set_color = p3r.mod.ReloadedFFI.Utilities.get_address_may_thunk(0xa150);"));
    assert!(out.contains("string[] function_set_color"));
    assert!(out.contains("\"use64\","));
    assert!(out.contains("sub rsp, 0x40"));
    assert!(out.contains("GetAbsoluteCallMnemonics(p3r.mod.ReloadedFFI.Hooks.Colors.set_color, out _set_color_WRAP)"));
    assert!(out.contains("add rsp, 0x40"));
    assert!(out.contains("_set_color_ASM = _hooks!.CreateAsmHook(function_set_color, (long)addr_set_color, Reloaded.Hooks.Definitions.Enums.AsmHookBehaviour.ExecuteFirst).Activate();"));
}

#[test]
fn inline_hook_refuses_a_shared_scan_branch() {
    let fields = vec![
        AsmField::Ident("ExecuteAfter".to_owned()),
        AsmField::List(vec![]),
        AsmField::Ident("rax".to_owned()),
    ];
    let hook = AssemblyFunctionHook::parse(
        HookDescriptor::Single(DescriptorCall {
            callee: "dynamic_offset".to_owned(),
            args: vec![
                DescriptorArg::Assign {
                    name: "signature".to_owned(),
                    value: DescriptorValue::Text("48 83".to_owned()),
                },
                DescriptorArg::Assign {
                    name: "shared_scan".to_owned(),
                    value: DescriptorValue::Text("producer".to_owned()),
                },
            ],
        }),
        &vec![fields],
    )
    .expect("parses");
    let mut ev = HookEvaluator::new("m".to_owned());
    assert!(ev.generate_hook_assembly_function(&hook, "C", &state()).is_err());
}

#[test]
fn late_binding_bootstrap_creates_the_hook_from_the_given_address() {
    let ev = HookEvaluator::new("p3r.mod".to_owned());
    let out = ev.generate_init_function_bootstrap(&state(), "dt");
    assert!(out.contains("public static unsafe void UserDefined_set_color(nuint addr)"));
    assert!(out.contains("_instance!._set_color = _hooks!.CreateHook<p3r.mod.ReloadedFFI.Hooks.Colors.set_colorDelegate>(p3r.mod.ReloadedFFI.Hooks.Colors.set_color, (long)addr).Activate();"));
    assert!(out.contains("p3r.mod.ReloadedFFI.Hooks.Colors.__HOOK_SET_SET_COLOR((dt)_instance!._set_color.OriginalFunctionWrapperAddress);"));
}
