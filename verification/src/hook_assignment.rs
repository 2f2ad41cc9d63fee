//! The host-binding compiler stage: for each branch of a hook set it emits
//! the host-side registration text that resolves an address - directly,
//! through a pattern scan, or through a shared scan - creates the hook, and
//! publishes the original-function pointer back through the native setter.
use crate::hook_codegen::{make_hook_set_string, make_user_set_string, spec_ascii_upper, ascii_uppercase};
use crate::hook_parse::{
    spec_cond_model, str_eq_lit, AsmHookExecuteBehavior, AssemblyFunctionHookData, DynamicOffset,
    HookConditional, RyoTuneSharedScan, StaticOffset,
};
use crate::hook_codegen::{spec_u64_text, u64_text};
use crate::vtable::push_char;
use vstd::prelude::*;

verus! {

/// The hexadecimal digits of a number, most significant first.
pub open spec fn spec_hex_text(n: u64) -> Seq<char>
    decreases n,
{
    if n < 16 {
        seq![spec_hex_digit(n)]
    } else {
        spec_hex_text(n / 16) + seq![spec_hex_digit(n % 16)]
    }
}

/// One hexadecimal digit.
pub open spec fn spec_hex_digit(d: u64) -> char {
    if d < 10 {
        ((d + 48) as u8) as char
    } else {
        ((d + 87) as u8) as char
    }
}

/// Renders a number in lower-case hexadecimal.
pub fn hex_text(n: u64) -> (r: String)
    ensures
        r@ == spec_hex_text(n),
    decreases n,
{
    let d = n % 16;
    let digit: u8 = if d < 10 {
        (d + 48) as u8
    } else {
        (d + 87) as u8
    };
    if n < 16 {
        let mut out = String::new();
        push_char(&mut out, digit as char);
        proof {
            assert(out@ =~= spec_hex_text(n));
        }
        out
    } else {
        let mut out = hex_text(n / 16);
        push_char(&mut out, digit as char);
        proof {
            assert(out@ =~= spec_hex_text(n));
        }
        out
    }
}

/// The bootstrap identifiers of one hooked function on the host side: the
/// function's name, its delegate type's path, and the two prefixes cut out
/// of the delegate path - the path of the hook thunk, and the path of the
/// class that holds the setters.
#[derive(Debug)]
pub struct HookBootstrapFunctionState {
    pub fn_name: String,
    pub delegate_path: String,
    pub fn_path: String,
    pub class_path: String,
}

impl HookBootstrapFunctionState {
    /// Derives the sibling paths from the delegate path by cutting its
    /// known suffixes: the delegate path must end in the function name, a
    /// separator, and the eight-character delegate suffix.
    pub fn new(fn_name: String, delegate_path: String) -> (r: HookBootstrapFunctionState)
        requires
            delegate_path@.len() >= fn_name@.len() + 9,
        ensures
            r.fn_name == fn_name,
            r.delegate_path == delegate_path,
            r.fn_path@ == delegate_path@.subrange(0, delegate_path@.len() - 8),
            r.class_path@ == delegate_path@.subrange(
                0,
                delegate_path@.len() - 9 - fn_name@.len(),
            ),
    {
        let dlen = delegate_path.as_str().unicode_len();
        let nlen = fn_name.as_str().unicode_len();
        let fn_path = delegate_path.as_str().substring_char(0, dlen - 8).to_owned();
        let class_path = delegate_path.as_str().substring_char(0, dlen - 9 - nlen).to_owned();
        HookBootstrapFunctionState { fn_name, delegate_path, fn_path, class_path }
    }

    pub fn get_fn_name(&self) -> (r: &str)
        ensures
            r@ == self.fn_name@,
    {
        self.fn_name.as_str()
    }

    pub fn get_delegate_path(&self) -> (r: &str)
        ensures
            r@ == self.delegate_path@,
    {
        self.delegate_path.as_str()
    }

    pub fn get_fn_path(&self) -> (r: &str)
        ensures
            r@ == self.fn_path@,
    {
        self.fn_path.as_str()
    }

    pub fn get_class_path(&self) -> (r: &str)
        ensures
            r@ == self.class_path@,
    {
        self.class_path.as_str()
    }
}

/// The bootstrap identifiers of one hooked global: its host-side value
/// type and its name.
#[derive(Debug)]
pub struct HookBootstrapStaticState {
    pub static_type: String,
    pub static_name: String,
}

impl HookBootstrapStaticState {
    pub fn new(static_type: String, static_name: String) -> (r: HookBootstrapStaticState)
        ensures
            r.static_type == static_type,
            r.static_name == static_name,
    {
        HookBootstrapStaticState { static_type, static_name }
    }
}

/// The bootstrap identifiers of a hooked class. The class stage carries no
/// state of its own yet.
#[derive(Debug)]
pub struct HookBootstrapClassState;

/// Whether a resolver name is one of the built-in address-resolution entry
/// points, which live in the utility namespace.
pub open spec fn spec_is_builtin_resolver(s: Seq<char>) -> bool {
    ||| s == "get_address"@
    ||| s == "get_address_may_thunk"@
    ||| s == "get_indirect_address_short"@
    ||| s == "get_indirect_address_short2"@
    ||| s == "get_indirect_address_long"@
    ||| s == "get_indirect_address_long4"@
}

fn is_builtin_resolver(s: &str) -> (r: bool)
    ensures
        r == spec_is_builtin_resolver(s@),
{
    str_eq_lit(s, "get_address") || str_eq_lit(s, "get_address_may_thunk") || str_eq_lit(
        s,
        "get_indirect_address_short",
    ) || str_eq_lit(s, "get_indirect_address_short2") || str_eq_lit(s, "get_indirect_address_long")
        || str_eq_lit(s, "get_indirect_address_long4")
}

/// The invocation text of a resolver: its namespace - the utility class for
/// the built-ins, the hook class otherwise - the name, an optional cast,
/// and the input value, `x` when none is given. The default resolver
/// follows thunks.
pub open spec fn spec_resolve_function_path(
    fn_name: Option<Seq<char>>,
    util_namespace: Seq<char>,
    hook_namespace: Seq<char>,
    input_value: Option<Seq<char>>,
    cast: bool,
) -> Seq<char> {
    let name = match fn_name {
        Some(s) => s,
        None => "get_address_may_thunk"@,
    };
    let ns = if spec_is_builtin_resolver(name) {
        util_namespace
    } else {
        hook_namespace
    };
    let value = match input_value {
        Some(v) => v,
        None => "x"@,
    };
    let cast_text: Seq<char> = if cast {
        "(nuint)"@
    } else {
        ""@
    };
    ns + "."@ + name + "("@ + cast_text + value + ");"@
}

/// Renders the invocation of an address resolver.
pub fn get_resolve_function_path(
    fn_name: &Option<String>,
    util_namespace: &str,
    hook_namespace: &str,
    input_value: Option<String>,
    cast: bool,
) -> (r: String)
    ensures
        r@ == spec_resolve_function_path(
            match fn_name {
                Some(s) => Some(s@),
                None => None,
            },
            util_namespace@,
            hook_namespace@,
            match input_value {
                Some(v) => Some(v@),
                None => None,
            },
            cast,
        ),
{
    let builtin = match fn_name {
        Some(s) => is_builtin_resolver(s.as_str()),
        None => true,
    };
    let mut out = if builtin {
        util_namespace.to_owned()
    } else {
        hook_namespace.to_owned()
    };
    out.append(".");
    match fn_name {
        Some(s) => {
            out.append(s.as_str());
        },
        None => {
            out.append("get_address_may_thunk");
        },
    }
    out.append("(");
    if cast {
        out.append("(nuint)");
    } else {
        out.append("");
    }
    match &input_value {
        Some(v) => {
            out.append(v.as_str());
        },
        None => {
            out.append("x");
        },
    }
    out.append(");");
    out
}

/// The registration text of a statically resolved function hook: resolve
/// the fixed offset, create and activate the hook, and publish the
/// original-function pointer through the native setter.
pub open spec fn spec_static_function_assign(
    offset: u64,
    util_namespace: Seq<char>,
    hooks_class: Seq<char>,
    fn_name: Seq<char>,
    delegate_path: Seq<char>,
    fn_path: Seq<char>,
    delegate_type: Seq<char>,
) -> Seq<char> {
    "var addr_"@ + fn_name + " = "@ + spec_resolve_function_path(
        None,
        util_namespace,
        hooks_class,
        Some("0x"@ + spec_hex_text(offset)),
        false,
    ) + "\n            _"@ + fn_name + " = _hooks!.CreateHook<"@ + delegate_path + ">("@ + fn_path
        + ", (long)addr_"@ + fn_name + ").Activate();\n            "@ + hooks_class + "."@
        + "__HOOK_SET_"@ + spec_ascii_upper(fn_name) + "(("@ + delegate_type + ")_"@ + fn_name
        + ".OriginalFunctionWrapperAddress);\n"@
}

/// The host-binding generator for a fixed-offset branch.
#[derive(Debug)]
pub struct HookAssignCodegenStaticOffset(pub StaticOffset);

impl HookAssignCodegenStaticOffset {
    pub fn new(parm: StaticOffset) -> (r: HookAssignCodegenStaticOffset)
        ensures
            r.0 == parm,
    {
        HookAssignCodegenStaticOffset(parm)
    }

    /// Emits the registration of one statically resolved function hook.
    pub fn make_single_function_hook_assign(
        &self,
        util_namespace: &str,
        hooks_class: &str,
        class: &HookBootstrapFunctionState,
        delegate_type: &str,
    ) -> (r: String)
        ensures
            r@ == spec_static_function_assign(
                self.0.0,
                util_namespace@,
                hooks_class@,
                class.fn_name@,
                class.delegate_path@,
                class.fn_path@,
                delegate_type@,
            ),
    {
        let resolve = get_resolve_function_path(
            &None,
            util_namespace,
            hooks_class,
            Some(
                {
                    let mut v = "0x".to_owned();
                    let h = hex_text(self.0.0);
                    v.append(h.as_str());
                    v
                },
            ),
            false,
        );
        let mut out = "var addr_".to_owned();
        out.append(class.get_fn_name());
        out.append(" = ");
        out.append(resolve.as_str());
        out.append("\n            _");
        out.append(class.get_fn_name());
        out.append(" = _hooks!.CreateHook<");
        out.append(class.get_delegate_path());
        out.append(">(");
        out.append(class.get_fn_path());
        out.append(", (long)addr_");
        out.append(class.get_fn_name());
        out.append(").Activate();\n            ");
        out.append(hooks_class);
        out.append(".");
        let upper = ascii_uppercase(class.get_fn_name());
        let setter = make_hook_set_string(upper.as_str());
        out.append(setter.as_str());
        out.append("((");
        out.append(delegate_type);
        out.append(")_");
        out.append(class.get_fn_name());
        out.append(".OriginalFunctionWrapperAddress);\n");
        out
    }

    /// Emits the registration of one statically resolved global.
    pub fn make_single_static_hook_assign(
        &self,
        util_namespace: &str,
        hooks_class: &str,
        state: &HookBootstrapStaticState,
    ) -> (r: String)
        ensures
            r@ == "var addr_"@ + state.static_name@ + " = "@ + spec_resolve_function_path(
                None,
                util_namespace@,
                hooks_class@,
                Some("0x"@ + spec_hex_text(self.0.0)),
                false,
            ) + "\n"@ + hooks_class@ + "."@ + "__HOOK_SET_"@ + state.static_name@ + "(("@
                + state.static_type@ + ")addr_"@ + state.static_name@ + ");\n"@,
    {
        let resolve = get_resolve_function_path(
            &None,
            util_namespace,
            hooks_class,
            Some(
                {
                    let mut v = "0x".to_owned();
                    let h = hex_text(self.0.0);
                    v.append(h.as_str());
                    v
                },
            ),
            false,
        );
        let mut out = "var addr_".to_owned();
        out.append(state.static_name.as_str());
        out.append(" = ");
        out.append(resolve.as_str());
        out.append("\n");
        out.append(hooks_class);
        out.append(".");
        let setter = make_hook_set_string(state.static_name.as_str());
        out.append(setter.as_str());
        out.append("((");
        out.append(state.static_type.as_str());
        out.append(")addr_");
        out.append(state.static_name.as_str());
        out.append(");\n");
        out
    }
}

/// The registration text of a pattern-scanned function hook: scan for the
/// branch's byte pattern, resolve the match address with the branch's
/// resolver, create and activate the hook, and publish the original
/// pointer.
pub open spec fn spec_dynamic_function_assign(
    sig: Seq<char>,
    resolve_type: Option<Seq<char>>,
    util_namespace: Seq<char>,
    hooks_class: Seq<char>,
    fn_name: Seq<char>,
    delegate_path: Seq<char>,
    fn_path: Seq<char>,
    class_path: Seq<char>,
    delegate_type: Seq<char>,
) -> Seq<char> {
    "SigScan(\""@ + sig + "\", \""@ + fn_name + "\", x => {\n                var addr = "@
        + spec_resolve_function_path(resolve_type, util_namespace, hooks_class, None, false)
        + "\n                _"@ + fn_name + " = _hooks!.CreateHook<"@ + delegate_path + ">("@
        + fn_path + ", (long)addr).Activate();\n                "@ + class_path + "."@
        + "__HOOK_SET_"@ + spec_ascii_upper(fn_name) + "(("@ + delegate_type + ")_"@ + fn_name
        + ".OriginalFunctionWrapperAddress);\n            });\n"@
}

/// The host-binding generator for a pattern-scanned branch.
#[derive(Debug)]
pub struct HookAssignCodegenDynamicOffset<'a>(pub &'a DynamicOffset);

impl<'a> HookAssignCodegenDynamicOffset<'a> {
    pub fn new(parm: &'a DynamicOffset) -> (r: HookAssignCodegenDynamicOffset<'a>)
        ensures
            r.0 == parm,
    {
        HookAssignCodegenDynamicOffset(parm)
    }

    /// Emits the registration of one pattern-scanned function hook.
    pub fn make_single_function_hook_assign(
        &self,
        util_namespace: &str,
        hooks_class: &str,
        class: &HookBootstrapFunctionState,
        delegate_type: &str,
    ) -> (r: String)
        ensures
            r@ == spec_dynamic_function_assign(
                self.0.sig@,
                match self.0.resolve_type {
                    Some(s) => Some(s@),
                    None => None,
                },
                util_namespace@,
                hooks_class@,
                class.fn_name@,
                class.delegate_path@,
                class.fn_path@,
                class.class_path@,
                delegate_type@,
            ),
    {
        let resolve = get_resolve_function_path(
            &self.0.resolve_type,
            util_namespace,
            hooks_class,
            None,
            false,
        );
        let mut out = "SigScan(\"".to_owned();
        out.append(self.0.sig.as_str());
        out.append("\", \"");
        out.append(class.get_fn_name());
        out.append("\", x => {\n                var addr = ");
        out.append(resolve.as_str());
        out.append("\n                _");
        out.append(class.get_fn_name());
        out.append(" = _hooks!.CreateHook<");
        out.append(class.get_delegate_path());
        out.append(">(");
        out.append(class.get_fn_path());
        out.append(", (long)addr).Activate();\n                ");
        out.append(class.get_class_path());
        out.append(".");
        let upper = ascii_uppercase(class.get_fn_name());
        let setter = make_hook_set_string(upper.as_str());
        out.append(setter.as_str());
        out.append("((");
        out.append(delegate_type);
        out.append(")_");
        out.append(class.get_fn_name());
        out.append(".OriginalFunctionWrapperAddress);\n            });\n");
        out
    }
}

/// The registration text of a shared-scan function hook: a producer
/// broadcasts its scan under the delegate type, every consumer listens,
/// converts the absolute match to a module-relative address, resolves and
/// hooks it.
pub open spec fn spec_shared_function_assign(
    produces: bool,
    sig: Seq<char>,
    resolve_type: Option<Seq<char>>,
    util_namespace: Seq<char>,
    hooks_class: Seq<char>,
    fn_name: Seq<char>,
    delegate_path: Seq<char>,
    fn_path: Seq<char>,
    class_path: Seq<char>,
    delegate_type: Seq<char>,
) -> Seq<char> {
    (if produces {
        "_sharedScans!.AddScan<"@ + delegate_path + ">("@ + sig + ");\n"@
    } else {
        Seq::<char>::empty()
    }) + "_sharedScans!.CreateListener<"@ + delegate_path
        + ">(x => {\n                var addr_relative = x - _baseAddress;\n                var addr = "@
        + spec_resolve_function_path(
        resolve_type,
        util_namespace,
        hooks_class,
        Some("addr_relative"@),
        true,
    ) + "\n                _"@ + fn_name + " = _hooks!.CreateHook<"@ + delegate_path + ">("@
        + fn_path + ", addr).Activate();\n                "@ + class_path + "."@ + "__HOOK_SET_"@
        + spec_ascii_upper(fn_name) + "(("@ + delegate_type + ")_"@ + fn_name
        + ".OriginalFunctionWrapperAddress);\n            });\n"@
}

/// The host-binding generator for a shared-scan branch.
#[derive(Debug)]
pub struct HookAssignCodegenDynamicOffsetSharedScans<'a>(pub &'a DynamicOffset);

impl<'a> HookAssignCodegenDynamicOffsetSharedScans<'a> {
    pub fn new(parm: &'a DynamicOffset) -> (r: HookAssignCodegenDynamicOffsetSharedScans<'a>)
        ensures
            r.0 == parm,
    {
        HookAssignCodegenDynamicOffsetSharedScans(parm)
    }

    /// Emits the registration of one shared-scan function hook: only a
    /// producer adds the scan; one scan result serves every consumer of
    /// the pattern.
    pub fn make_single_function_hook_assign(
        &self,
        util_namespace: &str,
        hooks_class: &str,
        class: &HookBootstrapFunctionState,
        delegate_type: &str,
    ) -> (r: String)
        ensures
            r@ == spec_shared_function_assign(
                self.0.shared_scan == Some(RyoTuneSharedScan::Produce),
                self.0.sig@,
                match self.0.resolve_type {
                    Some(s) => Some(s@),
                    None => None,
                },
                util_namespace@,
                hooks_class@,
                class.fn_name@,
                class.delegate_path@,
                class.fn_path@,
                class.class_path@,
                delegate_type@,
            ),
    {
        let produces = match &self.0.shared_scan {
            Some(s) => *s == RyoTuneSharedScan::Produce,
            None => false,
        };
        let mut out = String::new();
        proof {
            assert(out@ + "_sharedScans!.CreateListener<"@ =~= "_sharedScans!.CreateListener<"@);
        }
        if produces {
            out.append("_sharedScans!.AddScan<");
            out.append(class.get_delegate_path());
            out.append(">(");
            out.append(self.0.sig.as_str());
            out.append(");\n");
            proof {
                assert(out@ =~= "_sharedScans!.AddScan<"@ + class.delegate_path@ + ">("@
                    + self.0.sig@ + ");\n"@);
            }
        }
        let resolve = get_resolve_function_path(
            &self.0.resolve_type,
            util_namespace,
            hooks_class,
            Some("addr_relative".to_owned()),
            true,
        );
        out.append("_sharedScans!.CreateListener<");
        out.append(class.get_delegate_path());
        out.append(
            ">(x => {\n                var addr_relative = x - _baseAddress;\n                var addr = ",
        );
        out.append(resolve.as_str());
        out.append("\n                _");
        out.append(class.get_fn_name());
        out.append(" = _hooks!.CreateHook<");
        out.append(class.get_delegate_path());
        out.append(">(");
        out.append(class.get_fn_path());
        out.append(", addr).Activate();\n                ");
        out.append(class.get_class_path());
        out.append(".");
        let upper = ascii_uppercase(class.get_fn_name());
        let setter = make_hook_set_string(upper.as_str());
        out.append(setter.as_str());
        out.append("((");
        out.append(delegate_type);
        out.append(")_");
        out.append(class.get_fn_name());
        out.append(".OriginalFunctionWrapperAddress);\n            });\n");
        out
    }
}

/// The host-binding generator for a user-deferred branch: registration
/// hands the native side a callback through the late-binding setter.
#[derive(Debug)]
pub struct HookAssignCodegenUserDefined;

impl HookAssignCodegenUserDefined {
    pub fn new() -> (r: HookAssignCodegenUserDefined) {
        HookAssignCodegenUserDefined
    }

    /// Emits the late-binding registration of a user-deferred hook.
    pub fn make_single_function_hook_assign(
        &self,
        hooks_class: &str,
        class: &HookBootstrapFunctionState,
    ) -> (r: String)
        ensures
            r@ == hooks_class@ + "."@ + "__HOOK_USER_SET_"@ + spec_ascii_upper(class.fn_name@)
                + "(&UserDefined_"@ + class.fn_name@ + ");\n"@,
    {
        let mut out = hooks_class.to_owned();
        out.append(".");
        let upper = ascii_uppercase(class.get_fn_name());
        let setter = make_user_set_string(upper.as_str());
        out.append(setter.as_str());
        out.append("(&UserDefined_");
        out.append(class.get_fn_name());
        out.append(");\n");
        out
    }
}


/// The text a condition contributes to a generated identifier: the chosen
/// name, the chosen number in decimal, and nothing for the unconditional
/// and fallback cases.
pub open spec fn spec_cond_suffix(cond: (int, Seq<char>, u64)) -> Seq<char> {
    if cond.0 == 1 {
        cond.1
    } else if cond.0 == 2 {
        spec_u64_text(cond.2)
    } else {
        Seq::empty()
    }
}

/// Renders a condition's identifier suffix.
pub fn cond_suffix(cond: &HookConditional) -> (r: String)
    ensures
        r@ == spec_cond_suffix(spec_cond_model(*cond)),
{
    match cond {
        HookConditional::HashNamed(s) => s.clone(),
        HookConditional::HashNum(v) => u64_text(*v),
        _ => String::new(),
    }
}

/// The assembly glue of one inline-hook branch: the mnemonic list opens in
/// long mode, the verbatim pre-insert text, the reverse-call line that
/// exposes the hook thunk to raw instructions, and the verbatim post-insert
/// text.
pub open spec fn spec_asm_glue(
    fn_name: Seq<char>,
    fn_path: Seq<char>,
    cond: (int, Seq<char>, u64),
    before: Option<Seq<char>>,
    after: Option<Seq<char>>,
    array_name: Seq<char>,
) -> Seq<char> {
    "            string[] "@ + array_name
        + " = \n            {\n                \"use64\",\n"@ + (match before {
        Some(v) => v,
        None => Seq::empty(),
    })
        + "                $\"{_hooks!.Utilities.GetAbsoluteCallMnemonics("@ + fn_path
        + ", out _"@ + fn_name + "_WRAP"@ + spec_cond_suffix(cond) + ")}\",\n"@ + (match after {
        Some(v) => v,
        None => Seq::empty(),
    }) + "            };\n"@
}

fn push_asm_glue(
    out: &mut String,
    class: &HookBootstrapFunctionState,
    assemble: &AssemblyFunctionHookData,
    cond: &HookConditional,
    array_name: &str,
)
    ensures
        final(out)@ == old(out)@ + spec_asm_glue(
            class.fn_name@,
            class.fn_path@,
            spec_cond_model(*cond),
            match assemble.asm_insert_before {
                Some(v) => Some(v@),
                None => None,
            },
            match assemble.asm_insert_after {
                Some(v) => Some(v@),
                None => None,
            },
            array_name@,
        ),
{
    out.append("            string[] ");
    out.append(array_name);
    out.append(" = \n            {\n                \"use64\",\n");
    match &assemble.asm_insert_before {
        Some(v) => {
            out.append(v.as_str());
        },
        None => {},
    }
    out.append("                $\"{_hooks!.Utilities.GetAbsoluteCallMnemonics(");
    out.append(class.get_fn_path());
    out.append(", out _");
    out.append(class.get_fn_name());
    out.append("_WRAP");
    let suffix = cond_suffix(cond);
    out.append(suffix.as_str());
    out.append(")}\",\n");
    match &assemble.asm_insert_after {
        Some(v) => {
            out.append(v.as_str());
        },
        None => {},
    }
    out.append("            };\n");
}

/// The activation call of one inline-hook branch, tagged with its execute
/// behavior.
pub open spec fn spec_asm_activation(
    fn_name: Seq<char>,
    array_name: Seq<char>,
    addr_name: Seq<char>,
    behavior: AsmHookExecuteBehavior,
) -> Seq<char> {
    "            _"@ + fn_name + "_ASM = _hooks!.CreateAsmHook("@ + array_name + ", (long)"@
        + addr_name + ", Reloaded.Hooks.Definitions.Enums.AsmHookBehaviour."@ + (match behavior {
        AsmHookExecuteBehavior::ExecuteFirst => "ExecuteFirst"@,
        AsmHookExecuteBehavior::ExecuteAfter => "ExecuteAfter"@,
        AsmHookExecuteBehavior::DoNotExecuteOriginal => "DoNotExecuteOriginal"@,
    }) + ").Activate();\n"@
}

fn push_asm_activation(
    out: &mut String,
    class: &HookBootstrapFunctionState,
    array_name: &str,
    addr_name: &str,
    behavior: AsmHookExecuteBehavior,
)
    ensures
        final(out)@ == old(out)@ + spec_asm_activation(
            class.fn_name@,
            array_name@,
            addr_name@,
            behavior,
        ),
{
    out.append("            _");
    out.append(class.get_fn_name());
    out.append("_ASM = _hooks!.CreateAsmHook(");
    out.append(array_name);
    out.append(", (long)");
    out.append(addr_name);
    out.append(", Reloaded.Hooks.Definitions.Enums.AsmHookBehaviour.");
    out.append(behavior.as_str());
    out.append(").Activate();\n");
}

/// The registration text of a statically resolved inline hook: resolve the
/// fixed offset, build the assembly glue, and activate the hook under its
/// branch behavior.
pub open spec fn spec_static_asm_assign(
    offset: u64,
    util_namespace: Seq<char>,
    hooks_class: Seq<char>,
    fn_name: Seq<char>,
    fn_path: Seq<char>,
    cond: (int, Seq<char>, u64),
    before: Option<Seq<char>>,
    after: Option<Seq<char>>,
    behavior: AsmHookExecuteBehavior,
) -> Seq<char> {
    "var addr_"@ + fn_name + " = "@ + spec_resolve_function_path(
        None,
        util_namespace,
        hooks_class,
        Some("0x"@ + spec_hex_text(offset)),
        false,
    ) + "\n"@ + spec_asm_glue(
        fn_name,
        fn_path,
        cond,
        before,
        after,
        "function_"@ + fn_name,
    ) + spec_asm_activation(fn_name, "function_"@ + fn_name, "addr_"@ + fn_name, behavior)
}

impl HookAssignCodegenStaticOffset {
    /// Emits the registration of one statically resolved inline hook.
    pub fn make_function_hook_assign_assembly(
        &self,
        util_namespace: &str,
        hooks_class: &str,
        class: &HookBootstrapFunctionState,
        assemble_info: &AssemblyFunctionHookData,
        cond: &HookConditional,
    ) -> (r: String)
        ensures
            r@ == spec_static_asm_assign(
                self.0.0,
                util_namespace@,
                hooks_class@,
                class.fn_name@,
                class.fn_path@,
                spec_cond_model(*cond),
                match assemble_info.asm_insert_before {
                    Some(v) => Some(v@),
                    None => None,
                },
                match assemble_info.asm_insert_after {
                    Some(v) => Some(v@),
                    None => None,
                },
                assemble_info.execute_mode,
            ),
    {
        let resolve = get_resolve_function_path(
            &None,
            util_namespace,
            hooks_class,
            Some(
                {
                    let mut v = "0x".to_owned();
                    let h = hex_text(self.0.0);
                    v.append(h.as_str());
                    v
                },
            ),
            false,
        );
        let mut out = "var addr_".to_owned();
        out.append(class.get_fn_name());
        out.append(" = ");
        out.append(resolve.as_str());
        out.append("\n");
        let array_name = {
            let mut n = "function_".to_owned();
            n.append(class.get_fn_name());
            n
        };
        let addr_name = {
            let mut n = "addr_".to_owned();
            n.append(class.get_fn_name());
            n
        };
        push_asm_glue(&mut out, class, assemble_info, cond, array_name.as_str());
        push_asm_activation(
            &mut out,
            class,
            array_name.as_str(),
            addr_name.as_str(),
            assemble_info.execute_mode,
        );
        out
    }
}

/// The registration text of a pattern-scanned inline hook: the scan
/// callback resolves the match, builds the glue, and activates the hook.
pub open spec fn spec_dynamic_asm_assign(
    sig: Seq<char>,
    resolve_type: Option<Seq<char>>,
    util_namespace: Seq<char>,
    hooks_class: Seq<char>,
    fn_name: Seq<char>,
    fn_path: Seq<char>,
    cond: (int, Seq<char>, u64),
    before: Option<Seq<char>>,
    after: Option<Seq<char>>,
    behavior: AsmHookExecuteBehavior,
) -> Seq<char> {
    "SigScan(\""@ + sig + "\", \""@ + fn_name + "\", x => {\n                var addr = "@
        + spec_resolve_function_path(resolve_type, util_namespace, hooks_class, None, false)
        + "\n"@ + spec_asm_glue(fn_name, fn_path, cond, before, after, "function"@)
        + spec_asm_activation(fn_name, "function"@, "addr"@, behavior) + "            });\n"@
}

impl<'a> HookAssignCodegenDynamicOffset<'a> {
    /// Emits the registration of one pattern-scanned inline hook.
    pub fn make_function_hook_assign_assembly(
        &self,
        util_namespace: &str,
        hooks_class: &str,
        class: &HookBootstrapFunctionState,
        assemble_info: &AssemblyFunctionHookData,
        cond: &HookConditional,
    ) -> (r: String)
        ensures
            r@ == spec_dynamic_asm_assign(
                self.0.sig@,
                match self.0.resolve_type {
                    Some(s) => Some(s@),
                    None => None,
                },
                util_namespace@,
                hooks_class@,
                class.fn_name@,
                class.fn_path@,
                spec_cond_model(*cond),
                match assemble_info.asm_insert_before {
                    Some(v) => Some(v@),
                    None => None,
                },
                match assemble_info.asm_insert_after {
                    Some(v) => Some(v@),
                    None => None,
                },
                assemble_info.execute_mode,
            ),
    {
        let resolve = get_resolve_function_path(
            &self.0.resolve_type,
            util_namespace,
            hooks_class,
            None,
            false,
        );
        let mut out = "SigScan(\"".to_owned();
        out.append(self.0.sig.as_str());
        out.append("\", \"");
        out.append(class.get_fn_name());
        out.append("\", x => {\n                var addr = ");
        out.append(resolve.as_str());
        out.append("\n");
        push_asm_glue(&mut out, class, assemble_info, cond, "function");
        push_asm_activation(&mut out, class, "function", "addr", assemble_info.execute_mode);
        out.append("            });\n");
        out
    }
}

/// The call of a source file's initializer from the registration routine.
#[derive(Debug)]
pub struct InitFunction;

impl InitFunction {
    /// Emits the call of an initializer routine.
    pub fn make_init_function_call(hooks_class: &str, fn_name: &str) -> (r: String)
        ensures
            r@ == hooks_class@ + "."@ + fn_name@ + "();\n"@,
    {
        let mut out = hooks_class.to_owned();
        out.append(".");
        out.append(fn_name);
        out.append("();\n");
        out
    }
}

/// The call of a mod-loading routine, which receives the configuration
/// handle.
#[derive(Debug)]
pub struct ModLoadingFunction;

impl ModLoadingFunction {
    /// Emits the call of a mod-loading routine.
    pub fn make_function_call(hooks_class: &str, fn_name: &str) -> (r: String)
        ensures
            r@ == hooks_class@ + "."@ + fn_name@ + "(confHandle);\n"@,
    {
        let mut out = hooks_class.to_owned();
        out.append(".");
        out.append(fn_name);
        out.append("(confHandle);\n");
        out
    }
}

} // verus!
