use riri_mod_tools::hook_parse::{
    validate_conditions, ArmCase, ArmPattern, AsmField, AssemblyFunctionHookData,
    AsmHookExecuteBehavior, CallingConvention, CppClassMethods, DescriptorArg, DescriptorCall,
    DescriptorValue, DynamicOffset, HookArm, HookConditional, HookEntry, HookParseError,
    RegistersX86, RyoTuneSharedScan, StaticOffset,
};
use riri_mod_tools::riri_hook::{parse_hook_info, AssemblyFunctionHook, HookDescriptor};

fn call(callee: &str, args: Vec<DescriptorArg>) -> DescriptorCall {
    DescriptorCall { callee: callee.to_owned(), args }
}

fn assign(name: &str, value: DescriptorValue) -> DescriptorArg {
    DescriptorArg::Assign { name: name.to_owned(), value }
}

fn static_call(offset: u64) -> DescriptorCall {
    call("static_offset", vec![DescriptorArg::Plain(DescriptorValue::Number(offset))])
}

#[test]
fn static_offset_parses_the_literal() {
    let entry = HookEntry::new(&static_call(0x10)).expect("a plain literal parses");
    match entry {
        HookEntry::Static(StaticOffset(v)) => assert_eq!(v, 0x10),
        _ => panic!("a static_offset call must parse to a static entry"),
    }
}

#[test]
fn static_offset_argument_errors() {
    let e = HookEntry::new(&call("static_offset", vec![])).unwrap_err();
    assert_eq!(e, HookParseError::WrongStaticArgumentCount);
    let e = HookEntry::new(&call(
        "static_offset",
        vec![DescriptorArg::Plain(DescriptorValue::Text("0x10".to_owned()))],
    ))
    .unwrap_err();
    assert_eq!(e, HookParseError::StaticArgumentNotANumber);
    let e = HookEntry::new(&call(
        "static_offset",
        vec![assign("offset", DescriptorValue::Number(1))],
    ))
    .unwrap_err();
    assert_eq!(e, HookParseError::StaticArgumentNotALiteral);
}

#[test]
fn dynamic_offset_parses_all_parameters() {
    let c = call(
        "dynamic_offset",
        vec![
            assign(
                "signature",
                DescriptorValue::Text("F7 05 ?? ?? ?? ?? 00 00 00 02".to_owned()),
            ),
            assign("resolve_type", DescriptorValue::Path(vec!["set_gfd_global".to_owned()])),
            assign("calling_convention", DescriptorValue::Text("microsoft".to_owned())),
        ],
    );
    let d = DynamicOffset::from_expr_call(&c).expect("a full dynamic descriptor parses");
    assert_eq!(d.sig, "F7 05 ?? ?? ?? ?? 00 00 00 02");
    assert_eq!(d.resolve_type, Some("set_gfd_global".to_owned()));
    assert_eq!(d.call_conv, CallingConvention::Microsoft);
    assert_eq!(d.shared_scan, None);
}

#[test]
fn dynamic_offset_defaults_and_requirements() {
    // The pattern is required unless the declaration only consumes a
    // shared scan.
    let e = DynamicOffset::from_expr_call(&call("dynamic_offset", vec![])).unwrap_err();
    assert_eq!(e, HookParseError::SignatureRequired);

    let d = DynamicOffset::from_expr_call(&call(
        "dynamic_offset",
        vec![assign("shared_scan", DescriptorValue::Text("consumer".to_owned()))],
    ))
    .expect("a consumer needs no pattern");
    assert_eq!(d.sig, "");
    assert_eq!(d.shared_scan, Some(RyoTuneSharedScan::Consume));
    // The calling convention defaults to the platform compiler's.
    assert_eq!(d.call_conv, CallingConvention::Microsoft);

    let e = DynamicOffset::from_expr_call(&call(
        "dynamic_offset",
        vec![assign("shared_scan", DescriptorValue::Text("producer".to_owned()))],
    ))
    .unwrap_err();
    assert_eq!(e, HookParseError::SignatureRequired);
}

#[test]
fn dynamic_offset_rejects_bad_values() {
    let e = DynamicOffset::from_expr_call(&call(
        "dynamic_offset",
        vec![assign("signature", DescriptorValue::Number(3))],
    ))
    .unwrap_err();
    assert_eq!(e, HookParseError::InvalidSignatureValue);

    let e = DynamicOffset::from_expr_call(&call(
        "dynamic_offset",
        vec![assign(
            "resolve_type",
            DescriptorValue::Path(vec!["a".to_owned(), "b".to_owned()]),
        )],
    ))
    .unwrap_err();
    assert_eq!(e, HookParseError::MultiSegmentResolvePath);

    let e = DynamicOffset::from_expr_call(&call(
        "dynamic_offset",
        vec![assign("calling_convention", DescriptorValue::Text("stdcall".to_owned()))],
    ))
    .unwrap_err();
    assert_eq!(e, HookParseError::UnknownCallingConvention);

    let e = DynamicOffset::from_expr_call(&call(
        "dynamic_offset",
        vec![assign("shared_scan", DescriptorValue::Text("observer".to_owned()))],
    ))
    .unwrap_err();
    assert_eq!(e, HookParseError::UnknownSharedScan);

    let e = DynamicOffset::from_expr_call(&call(
        "dynamic_offset",
        vec![
            assign("signature", DescriptorValue::Text("48".to_owned())),
            assign("signature", DescriptorValue::Text("49".to_owned())),
        ],
    ))
    .unwrap_err();
    assert_eq!(e, HookParseError::DuplicateParameter);

    let e = DynamicOffset::from_expr_call(&call(
        "dynamic_offset",
        vec![assign("pattern", DescriptorValue::Text("48".to_owned()))],
    ))
    .unwrap_err();
    assert_eq!(e, HookParseError::UnsupportedArgumentName);
}

#[test]
fn unknown_entry_name_is_rejected() {
    let e = HookEntry::new(&call("magic_offset", vec![])).unwrap_err();
    assert_eq!(e, HookParseError::UnknownEntryName);
}

#[test]
fn single_descriptor_parses_unconditionally() {
    let h = parse_hook_info(HookDescriptor::Single(static_call(0x1000))).expect("parses");
    assert_eq!(h.0.len(), 1);
    assert!(matches!(h.0[0].0, HookConditional::Unconditional));
}

#[test]
fn arms_parse_in_order() {
    let arms = vec![
        HookArm {
            pattern: ArmPattern::Single(ArmCase::Name("XRD759_STEAM_102".to_owned())),
            entry: static_call(0x1000),
        },
        HookArm {
            pattern: ArmPattern::Single(ArmCase::Num(0xDEAD)),
            entry: static_call(0x2000),
        },
        HookArm { pattern: ArmPattern::Single(ArmCase::Wild), entry: static_call(0x3000) },
    ];
    let h = parse_hook_info(HookDescriptor::Arms(arms)).expect("a valid set parses");
    assert_eq!(h.0.len(), 3);
    assert!(matches!(&h.0[0].0, HookConditional::HashNamed(s) if s == "XRD759_STEAM_102"));
    assert!(matches!(h.0[1].0, HookConditional::HashNum(0xDEAD)));
    assert!(matches!(h.0[2].0, HookConditional::Fallback));
}

#[test]
fn choice_pattern_duplicates_the_entry() {
    let arms = vec![HookArm {
        pattern: ArmPattern::Choice(vec![ArmCase::Num(1), ArmCase::Num(2)]),
        entry: static_call(0x1000),
    }];
    let h = parse_hook_info(HookDescriptor::Arms(arms)).expect("parses");
    assert_eq!(h.0.len(), 2);
}

#[test]
fn default_must_be_the_last_arm() {
    // A fallback arm anywhere but last is a hard parse failure.
    let arms = vec![
        HookArm { pattern: ArmPattern::Single(ArmCase::Wild), entry: static_call(0x1000) },
        HookArm { pattern: ArmPattern::Single(ArmCase::Num(7)), entry: static_call(0x2000) },
    ];
    let e = parse_hook_info(HookDescriptor::Arms(arms)).unwrap_err();
    assert_eq!(e, HookParseError::DefaultArmMustBeLast);
}

#[test]
fn two_default_arms_are_rejected() {
    let arms = vec![
        HookArm { pattern: ArmPattern::Single(ArmCase::Wild), entry: static_call(0x1000) },
        HookArm { pattern: ArmPattern::Single(ArmCase::Wild), entry: static_call(0x2000) },
    ];
    let e = parse_hook_info(HookDescriptor::Arms(arms)).unwrap_err();
    assert_eq!(e, HookParseError::DefaultArmMustBeLast);
}

#[test]
fn duplicate_conditions_are_rejected() {
    let arms = vec![
        HookArm { pattern: ArmPattern::Single(ArmCase::Num(7)), entry: static_call(0x1000) },
        HookArm { pattern: ArmPattern::Single(ArmCase::Num(7)), entry: static_call(0x2000) },
    ];
    let e = parse_hook_info(HookDescriptor::Arms(arms)).unwrap_err();
    assert_eq!(e, HookParseError::DuplicateCondition);
}

#[test]
fn unconditional_entry_must_stand_alone() {
    // A set holding an unconditional entry next to any other entry breaks
    // the invariants.
    let e1 = HookEntry::new(&static_call(1)).unwrap();
    let e2 = HookEntry::new(&static_call(2)).unwrap();
    let set = vec![
        (HookConditional::Unconditional, e1),
        (HookConditional::HashNum(5), e2),
    ];
    let e = validate_conditions(&set).unwrap_err();
    assert_eq!(e, HookParseError::UnconditionalNotAlone);

    let alone = vec![(HookConditional::Unconditional, HookEntry::new(&static_call(1)).unwrap())];
    assert!(validate_conditions(&alone).is_ok());
}

#[test]
fn assembly_entry_parses_positional_fields() {
    let fields = vec![
        AsmField::Ident("ExecuteFirst".to_owned()),
        AsmField::List(vec!["r8".to_owned(), "r9".to_owned(), "r15".to_owned()]),
        AsmField::Ident("rax".to_owned()),
        AsmField::List(vec![]),
        AsmField::Flag(false),
        AsmField::Text("sub rsp, 0x40".to_owned()),
        AsmField::Text("add rsp, 0x40".to_owned()),
    ];
    let d = AssemblyFunctionHookData::parse(&fields).expect("a full entry parses");
    assert_eq!(d.execute_mode, AsmHookExecuteBehavior::ExecuteFirst);
    assert_eq!(
        d.registers,
        vec![RegistersX86::r8, RegistersX86::r9, RegistersX86::r15, RegistersX86::rax]
    );
    assert!(d.callee_saved_registers.is_empty());
    assert!(!d.allocate_shadow_space);
    assert_eq!(d.asm_insert_before, Some("sub rsp, 0x40".to_owned()));
    assert_eq!(d.asm_insert_after, Some("add rsp, 0x40".to_owned()));
}

#[test]
fn assembly_entry_none_means_no_insert() {
    let fields = vec![
        AsmField::Ident("ExecuteAfter".to_owned()),
        AsmField::List(vec!["rcx".to_owned()]),
        AsmField::Ident("rax".to_owned()),
        AsmField::List(vec![]),
        AsmField::Flag(true),
        AsmField::Ident("None".to_owned()),
    ];
    let d = AssemblyFunctionHookData::parse(&fields).expect("parses");
    assert_eq!(d.execute_mode, AsmHookExecuteBehavior::ExecuteAfter);
    assert!(d.allocate_shadow_space);
    assert_eq!(d.asm_insert_before, None);
    assert_eq!(d.asm_insert_after, None);
}

#[test]
fn assembly_entry_errors() {
    let too_few = vec![AsmField::Ident("ExecuteFirst".to_owned())];
    assert_eq!(
        AssemblyFunctionHookData::parse(&too_few).unwrap_err(),
        HookParseError::MissingAsmParameters
    );

    let bad_mode = vec![
        AsmField::Ident("ExecuteTwice".to_owned()),
        AsmField::List(vec![]),
        AsmField::Ident("rax".to_owned()),
    ];
    assert_eq!(
        AssemblyFunctionHookData::parse(&bad_mode).unwrap_err(),
        HookParseError::UnknownExecuteMethod
    );

    let bad_reg = vec![
        AsmField::Ident("ExecuteFirst".to_owned()),
        AsmField::List(vec!["eax".to_owned()]),
        AsmField::Ident("rax".to_owned()),
    ];
    assert_eq!(
        AssemblyFunctionHookData::parse(&bad_reg).unwrap_err(),
        HookParseError::UnknownRegister
    );

    let bad_flag = vec![
        AsmField::Ident("ExecuteFirst".to_owned()),
        AsmField::List(vec![]),
        AsmField::Ident("rax".to_owned()),
        AsmField::List(vec![]),
        AsmField::Text("yes".to_owned()),
    ];
    assert_eq!(
        AssemblyFunctionHookData::parse(&bad_flag).unwrap_err(),
        HookParseError::ShadowSpaceNotBool
    );

    let bad_asm = vec![
        AsmField::Ident("ExecuteFirst".to_owned()),
        AsmField::List(vec![]),
        AsmField::Ident("rax".to_owned()),
        AsmField::List(vec![]),
        AsmField::Flag(false),
        AsmField::Ident("Nothing".to_owned()),
    ];
    assert_eq!(
        AssemblyFunctionHookData::parse(&bad_asm).unwrap_err(),
        HookParseError::AsmNotStringOrNone
    );
}

#[test]
fn assembly_hook_count_must_match_branches() {
    let arms = vec![
        HookArm { pattern: ArmPattern::Single(ArmCase::Num(1)), entry: static_call(0x10) },
        HookArm { pattern: ArmPattern::Single(ArmCase::Num(2)), entry: static_call(0x20) },
    ];
    let one_entry = vec![vec![
        AsmField::Ident("ExecuteFirst".to_owned()),
        AsmField::List(vec![]),
        AsmField::Ident("rax".to_owned()),
    ]];
    let e = AssemblyFunctionHook::parse(HookDescriptor::Arms(arms), &one_entry).unwrap_err();
    assert_eq!(e, HookParseError::AssemblyCountMismatch);
}

#[test]
fn assembly_hook_parses_with_matching_counts() {
    let entry_fields = vec![
        AsmField::Ident("DoNotExecuteOriginal".to_owned()),
        AsmField::List(vec!["rcx".to_owned()]),
        AsmField::Ident("rax".to_owned()),
    ];
    let a = AssemblyFunctionHook::parse(HookDescriptor::Single(static_call(0xa150)), &vec![entry_fields])
        .expect("parses");
    assert_eq!(a.data.len(), 1);
    assert_eq!(a.data[0].execute_mode, AsmHookExecuteBehavior::DoNotExecuteOriginal);
    assert!(!a.is_user_defined_init());
}

#[test]
fn user_defined_entries_are_detected() {
    let h = parse_hook_info(HookDescriptor::Single(call("user_defined", vec![]))).unwrap();
    assert!(h.is_user_defined_init());
    let h2 = parse_hook_info(HookDescriptor::Single(static_call(4))).unwrap();
    assert!(!h2.is_user_defined_init());
}

#[test]
fn cpp_class_methods_arguments() {
    let c = call(
        "cpp_class_methods",
        vec![
            assign("path", DescriptorValue::Text("prefix".to_owned())),
            assign("auto_drop", DescriptorValue::Number(0)),
        ],
    );
    let m = CppClassMethods::parse(&c).expect("parses");
    assert_eq!(m.path, Some("prefix".to_owned()));
    assert_eq!(m.auto_drop, Some(0));

    let bad = call(
        "cpp_class_methods",
        vec![DescriptorArg::Plain(DescriptorValue::Number(1))],
    );
    assert_eq!(
        CppClassMethods::parse(&bad).unwrap_err(),
        HookParseError::ParametersShouldBeAssignments
    );
}
