//! The per-source-file evaluation driver's verifiable core: the namespace
//! scheme of the generated binding unit, and the compilation of a
//! conditional hook set into an if/else-if chain keyed on the executable
//! identity hash, ending in the fallback branch where one exists.
use crate::hook_assignment::{
    spec_dynamic_asm_assign, spec_dynamic_function_assign, spec_shared_function_assign,
    spec_static_asm_assign, spec_static_function_assign, HookAssignCodegenDynamicOffset,
    HookAssignCodegenDynamicOffsetSharedScans, HookAssignCodegenStaticOffset,
    HookAssignCodegenUserDefined, HookBootstrapFunctionState,
};
use crate::hook_codegen::{spec_ascii_upper, spec_u64_text, u64_text};
use crate::hook_parse::{
    asm_model_of, cond_entries_model, conds_of, spec_cond_model, spec_set_valid, AsmDataModel,
    EntryModel, HookConditional, HookEntry,
};
use crate::riri_hook::{AssemblyFunctionHook, HookInfo};
use vstd::prelude::*;

verus! {

/// A failure while evaluating the annotated items of a source file.
#[derive(Debug)]
pub struct MacroParseError(pub String);

/// What the evaluation of all source files yields for the generated main
/// unit: the registration routines to call at module load, and the late
/// routines to call once the loader has initialized every mod.
#[derive(Debug)]
pub struct HookEvaluationResult {
    pub register_hook_functions: Vec<String>,
    pub loader_initialized_functions: Vec<String>,
}

impl HookEvaluationResult {
    pub fn new(
        register_hook_functions: Vec<String>,
        loader_initialized_functions: Vec<String>,
    ) -> (r: HookEvaluationResult)
        ensures
            r.register_hook_functions == register_hook_functions,
            r.loader_initialized_functions == loader_initialized_functions,
    {
        HookEvaluationResult { register_hook_functions, loader_initialized_functions }
    }

    pub fn get_register_hook_functions(&self) -> (r: &Vec<String>)
        ensures
            r == &self.register_hook_functions,
    {
        &self.register_hook_functions
    }

    pub fn get_loader_initialized_functions(&self) -> (r: &Vec<String>)
        ensures
            r == &self.loader_initialized_functions,
    {
        &self.loader_initialized_functions
    }
}

/// The expression that reads the executable identity hash in generated
/// code.
pub open spec fn spec_get_hash_call(mod_id: Seq<char>) -> Seq<char> {
    mod_id + ".ReloadedFFI.Utilities"@ + ".get_executable_hash()"@
}

/// The conditional prefix of one branch: the first branch opens the chain,
/// later named and numeric branches continue it, and the fallback closes
/// into a bare else.
pub open spec fn spec_cond_prefix(
    mod_id: Seq<char>,
    cond: (int, Seq<char>, u64),
    first: bool,
) -> Seq<char> {
    if cond.0 == 1 {
        if first {
            "if ("@ + spec_get_hash_call(mod_id) + " == "@ + mod_id + ".Mod."@ + cond.1
                + ") {\n            "@
        } else {
            "}"@ + "           else if ("@ + spec_get_hash_call(mod_id) + " == "@ + mod_id
                + ".Mod."@ + cond.1 + ") {\n            "@
        }
    } else if cond.0 == 2 {
        if first {
            "if ("@ + spec_get_hash_call(mod_id) + " == "@ + spec_u64_text(cond.2)
                + ") {\n            "@
        } else {
            "}"@ + "           else if ("@ + spec_get_hash_call(mod_id) + " == "@ + spec_u64_text(
                cond.2,
            ) + ") {\n            "@
        }
    } else {
        "}"@ + "           else "@ + "{\n            "@
    }
}

/// The chain body from branch `i` onward: each branch's conditional prefix
/// followed by its registration block.
pub open spec fn spec_chain_entries(
    mod_id: Seq<char>,
    blocks: Seq<((int, Seq<char>, u64), Seq<char>)>,
    i: int,
) -> Seq<char>
    decreases blocks.len() - i,
{
    if i < 0 || i >= blocks.len() {
        Seq::empty()
    } else {
        spec_cond_prefix(mod_id, blocks[i].0, i == 0) + blocks[i].1 + spec_chain_entries(
            mod_id,
            blocks,
            i + 1,
        )
    }
}

/// The whole registration text of a hook set: a single entry stands alone;
/// several entries form the if/else-if chain keyed on the executable
/// identity hash, closed with its ending brace.
pub open spec fn spec_hook_chain(
    mod_id: Seq<char>,
    blocks: Seq<((int, Seq<char>, u64), Seq<char>)>,
) -> Seq<char> {
    if blocks.len() == 1 {
        blocks[0].1 + "            "@
    } else {
        spec_chain_entries(mod_id, blocks, 0) + "}\n"@ + "            "@
    }
}

/// The evaluation driver's verifiable state: the mod identifier that names
/// every generated namespace, and whether any branch so far uses a shared
/// scan.
#[derive(Debug)]
pub struct HookEvaluator {
    pub mod_id: String,
    pub uses_shared_scans: bool,
}

impl HookEvaluator {
    pub fn new(mod_id: String) -> (r: HookEvaluator)
        ensures
            r.mod_id == mod_id,
            !r.uses_shared_scans,
    {
        HookEvaluator { mod_id, uses_shared_scans: false }
    }

    /// The namespace of every generated binding item.
    pub fn ffi_namespace(&self) -> (r: String)
        ensures
            r@ == self.mod_id@ + ".ReloadedFFI"@,
    {
        let mut out = self.mod_id.clone();
        out.append(".ReloadedFFI");
        out
    }

    /// The namespace of the generated hook classes.
    pub fn ffi_hook_namespace(&self) -> (r: String)
        ensures
            r@ == self.mod_id@ + ".ReloadedFFI.Hooks"@,
    {
        let mut out = self.mod_id.clone();
        out.append(".ReloadedFFI.Hooks");
        out
    }

    /// The namespace of one generated interface.
    pub fn ffi_interface_namespace(&self, i: &str) -> (r: String)
        ensures
            r@ == self.mod_id@ + ".ReloadedFFI.Interfaces."@ + i@,
    {
        let mut out = self.mod_id.clone();
        out.append(".ReloadedFFI.Interfaces.");
        out.append(i);
        out
    }

    /// The class of the built-in utility entry points.
    pub fn ffi_utility_class(&self) -> (r: String)
        ensures
            r@ == self.mod_id@ + ".ReloadedFFI.Utilities"@,
    {
        let mut out = self.mod_id.clone();
        out.append(".ReloadedFFI.Utilities");
        out
    }

    /// Emits the conditional prefix of one branch.
    fn generate_conditional(&self, cond: &HookConditional, first: bool) -> (r: String)
        requires
            !(cond is Unconditional),
        ensures
            r@ == spec_cond_prefix(self.mod_id@, spec_cond_model(*cond), first),
    {
        let hash_call = {
            let mut h = self.ffi_utility_class();
            h.append(".get_executable_hash()");
            h
        };
        match cond {
            HookConditional::HashNamed(s) => {
                let mut out = if first {
                    "if (".to_owned()
                } else {
                    let mut o = "}".to_owned();
                    o.append("           else if (");
                    o
                };
                out.append(hash_call.as_str());
                out.append(" == ");
                out.append(self.mod_id.as_str());
                out.append(".Mod.");
                out.append(s.as_str());
                out.append(") {\n            ");
                out
            },
            HookConditional::HashNum(v) => {
                let mut out = if first {
                    "if (".to_owned()
                } else {
                    let mut o = "}".to_owned();
                    o.append("           else if (");
                    o
                };
                out.append(hash_call.as_str());
                out.append(" == ");
                let num = u64_text(*v);
                out.append(num.as_str());
                out.append(") {\n            ");
                out
            },
            _ => {
                let mut out = "}".to_owned();
                out.append("           else ");
                out.append("{\n            ");
                out
            },
        }
    }

    /// The registration block of one resolution entry, under the chosen
    /// strategy: direct computation for a fixed offset, a pattern scan for
    /// a dynamic one, the shared-scan listener where the branch shares its
    /// scan, and the late-binding setter for a user-deferred branch.
    pub open spec fn spec_entry_block(
        mod_id: Seq<char>,
        entry: EntryModel,
        fn_name: Seq<char>,
        delegate_path: Seq<char>,
        fn_path: Seq<char>,
        class_path: Seq<char>,
        cs_class: Seq<char>,
        delegate_type: Seq<char>,
    ) -> Seq<char> {
        let util = mod_id + ".ReloadedFFI.Utilities"@;
        let hooks_class = mod_id + ".ReloadedFFI.Hooks"@ + "."@ + cs_class;
        match entry {
            EntryModel::Static(offset) => spec_static_function_assign(
                offset,
                util,
                hooks_class,
                fn_name,
                delegate_path,
                fn_path,
                delegate_type,
            ),
            EntryModel::Dyn(d) => if d.shared_scan is Some {
                spec_shared_function_assign(
                    d.shared_scan == Some(crate::hook_parse::RyoTuneSharedScan::Produce),
                    d.sig,
                    d.resolve_type,
                    util,
                    hooks_class,
                    fn_name,
                    delegate_path,
                    fn_path,
                    class_path,
                    delegate_type,
                )
            } else {
                spec_dynamic_function_assign(
                    d.sig,
                    d.resolve_type,
                    util,
                    hooks_class,
                    fn_name,
                    delegate_path,
                    fn_path,
                    class_path,
                    delegate_type,
                )
            },
            EntryModel::Delayed => hooks_class + "."@ + "__HOOK_USER_SET_"@ + spec_ascii_upper(
                fn_name,
            ) + "(&UserDefined_"@ + fn_name + ");\n"@,
        }
    }

    /// Emits the registration block of one entry and notes a shared scan.
    fn generate_hook_entry_block_function(
        &mut self,
        cs_class: &str,
        class_data: &HookBootstrapFunctionState,
        delegate_type: &str,
        entry: &HookEntry,
    ) -> (r: String)
        ensures
            r@ == Self::spec_entry_block(
                old(self).mod_id@,
                crate::hook_parse::entry_model_of(*entry),
                class_data.fn_name@,
                class_data.delegate_path@,
                class_data.fn_path@,
                class_data.class_path@,
                cs_class@,
                delegate_type@,
            ),
            final(self).mod_id == old(self).mod_id,
            final(self).uses_shared_scans == (old(self).uses_shared_scans || (match entry {
                HookEntry::Dyn(d) => d.shared_scan is Some,
                _ => false,
            })),
    {
        let util = self.ffi_utility_class();
        let hooks_class = {
            let mut h = self.ffi_hook_namespace();
            h.append(".");
            h.append(cs_class);
            h
        };
        proof {
            assert(util@ == old(self).mod_id@ + ".ReloadedFFI.Utilities"@);
            assert(hooks_class@ == old(self).mod_id@ + ".ReloadedFFI.Hooks"@ + "."@ + cs_class@);
        }
        match entry {
            HookEntry::Static(s) => {
                let gen = HookAssignCodegenStaticOffset::new(*s);
                let rr = gen.make_single_function_hook_assign(
                    util.as_str(),
                    hooks_class.as_str(),
                    class_data,
                    delegate_type,
                );
                proof {
                    assert(rr@ == Self::spec_entry_block(
                        old(self).mod_id@,
                        crate::hook_parse::entry_model_of(*entry),
                        class_data.fn_name@,
                        class_data.delegate_path@,
                        class_data.fn_path@,
                        class_data.class_path@,
                        cs_class@,
                        delegate_type@,
                    ));
                }
                rr
            },
            HookEntry::Dyn(d) => {
                let shared = d.shared_scan.is_some();
                if shared {
                    self.uses_shared_scans = true;
                    let gen = HookAssignCodegenDynamicOffsetSharedScans::new(d);
                    let rr = gen.make_single_function_hook_assign(
                        util.as_str(),
                        hooks_class.as_str(),
                        class_data,
                        delegate_type,
                    );
                    proof {
                        assert(rr@ == Self::spec_entry_block(
                            old(self).mod_id@,
                            crate::hook_parse::entry_model_of(*entry),
                            class_data.fn_name@,
                            class_data.delegate_path@,
                            class_data.fn_path@,
                            class_data.class_path@,
                            cs_class@,
                            delegate_type@,
                        ));
                    }
                    rr
                } else {
                    let gen = HookAssignCodegenDynamicOffset::new(d);
                    let rr = gen.make_single_function_hook_assign(
                        util.as_str(),
                        hooks_class.as_str(),
                        class_data,
                        delegate_type,
                    );
                    proof {
                        assert(rr@ == Self::spec_entry_block(
                            old(self).mod_id@,
                            crate::hook_parse::entry_model_of(*entry),
                            class_data.fn_name@,
                            class_data.delegate_path@,
                            class_data.fn_path@,
                            class_data.class_path@,
                            cs_class@,
                            delegate_type@,
                        ));
                    }
                    rr
                }
            },
            HookEntry::Delayed => {
                let gen = HookAssignCodegenUserDefined::new();
                let rr = gen.make_single_function_hook_assign(hooks_class.as_str(), class_data);
                proof {
                    assert(rr@ == Self::spec_entry_block(
                        old(self).mod_id@,
                        crate::hook_parse::entry_model_of(*entry),
                        class_data.fn_name@,
                        class_data.delegate_path@,
                        class_data.fn_path@,
                        class_data.class_path@,
                        cs_class@,
                        delegate_type@,
                    ));
                }
                rr
            },
        }
    }


    /// Whether an inline hook can be emitted for an entry: every strategy
    /// but a shared scan, whose inline emission the framework does not
    /// offer.
    pub open spec fn spec_asm_entry_supported(entry: EntryModel) -> bool {
        match entry {
            EntryModel::Dyn(d) => d.shared_scan is None,
            _ => true,
        }
    }

    /// The registration block of one inline-hook branch: the resolved
    /// address, the assembly glue around the reverse-call line, and the
    /// activation under the branch's behavior. A user-deferred branch
    /// emits nothing here.
    pub open spec fn spec_asm_entry_block(
        mod_id: Seq<char>,
        entry: EntryModel,
        asmm: AsmDataModel,
        cond: (int, Seq<char>, u64),
        fn_name: Seq<char>,
        fn_path: Seq<char>,
        cs_class: Seq<char>,
    ) -> Seq<char> {
        let util = mod_id + ".ReloadedFFI.Utilities"@;
        let hooks_class = mod_id + ".ReloadedFFI.Hooks"@ + "."@ + cs_class;
        match entry {
            EntryModel::Static(offset) => spec_static_asm_assign(
                offset,
                util,
                hooks_class,
                fn_name,
                fn_path,
                cond,
                asmm.asm_insert_before,
                asmm.asm_insert_after,
                asmm.execute_mode,
            ),
            EntryModel::Dyn(d) => spec_dynamic_asm_assign(
                d.sig,
                d.resolve_type,
                util,
                hooks_class,
                fn_name,
                fn_path,
                cond,
                asmm.asm_insert_before,
                asmm.asm_insert_after,
                asmm.execute_mode,
            ),
            EntryModel::Delayed => Seq::empty(),
        }
    }

    fn generate_hook_entry_block_inline_function(
        &mut self,
        cs_class: &str,
        class_data: &HookBootstrapFunctionState,
        entry: &HookEntry,
        assemble: &crate::hook_parse::AssemblyFunctionHookData,
        cond: &HookConditional,
    ) -> (r: Result<String, MacroParseError>)
        ensures
            final(self).mod_id == old(self).mod_id,
            match r {
                Ok(text) => Self::spec_asm_entry_supported(
                    crate::hook_parse::entry_model_of(*entry),
                ) && text@ == Self::spec_asm_entry_block(
                    old(self).mod_id@,
                    crate::hook_parse::entry_model_of(*entry),
                    asm_model_of(*assemble),
                    spec_cond_model(*cond),
                    class_data.fn_name@,
                    class_data.fn_path@,
                    cs_class@,
                ),
                Err(_) => !Self::spec_asm_entry_supported(
                    crate::hook_parse::entry_model_of(*entry),
                ),
            },
    {
        let util = self.ffi_utility_class();
        let hooks_class = {
            let mut h = self.ffi_hook_namespace();
            h.append(".");
            h.append(cs_class);
            h
        };
        proof {
            assert(util@ == old(self).mod_id@ + ".ReloadedFFI.Utilities"@);
            assert(hooks_class@ == old(self).mod_id@ + ".ReloadedFFI.Hooks"@ + "."@ + cs_class@);
        }
        match entry {
            HookEntry::Static(s) => {
                let gen = HookAssignCodegenStaticOffset::new(*s);
                Ok(gen.make_function_hook_assign_assembly(
                    util.as_str(),
                    hooks_class.as_str(),
                    class_data,
                    assemble,
                    cond,
                ))
            },
            HookEntry::Dyn(d) => {
                if d.shared_scan.is_some() {
                    Err(
                        MacroParseError(
                            "an inline hook cannot share its scan".to_owned(),
                        ),
                    )
                } else {
                    let gen = HookAssignCodegenDynamicOffset::new(d);
                    Ok(gen.make_function_hook_assign_assembly(
                        util.as_str(),
                        hooks_class.as_str(),
                        class_data,
                        assemble,
                        cond,
                    ))
                }
            },
            HookEntry::Delayed => Ok(String::new()),
        }
    }

    /// Compiles an inline hook set into its registration text: one entry
    /// per branch of the conditional chain, each paired with its assembly
    /// entry. A shared-scan branch fails, as no inline emission exists for
    /// it.
    pub fn generate_hook_assembly_function(
        &mut self,
        hook_parm: &AssemblyFunctionHook,
        cs_class: &str,
        class_data: &HookBootstrapFunctionState,
    ) -> (r: Result<String, MacroParseError>)
        requires
            spec_set_valid(conds_of(cond_entries_model(hook_parm.hook_info.0@))),
            hook_parm.hook_info.0@.len() > 0,
            hook_parm.data@.len() == hook_parm.hook_info.0@.len(),
        ensures
            final(self).mod_id == old(self).mod_id,
            match r {
                Ok(text) => {
                    &&& (forall|i: int|
                        0 <= i < cond_entries_model(hook_parm.hook_info.0@).len()
                            ==> Self::spec_asm_entry_supported(
                            #[trigger] cond_entries_model(hook_parm.hook_info.0@)[i].1,
                        ))
                    &&& text@ == spec_hook_chain(
                        old(self).mod_id@,
                        Seq::new(
                            cond_entries_model(hook_parm.hook_info.0@).len(),
                            |i: int|
                                (
                                    cond_entries_model(hook_parm.hook_info.0@)[i].0,
                                    Self::spec_asm_entry_block(
                                        old(self).mod_id@,
                                        cond_entries_model(hook_parm.hook_info.0@)[i].1,
                                        asm_model_of(hook_parm.data@[i]),
                                        cond_entries_model(hook_parm.hook_info.0@)[i].0,
                                        class_data.fn_name@,
                                        class_data.fn_path@,
                                        cs_class@,
                                    ),
                                ),
                        ),
                    )
                },
                Err(_) => exists|i: int|
                    0 <= i < cond_entries_model(hook_parm.hook_info.0@).len()
                        && !Self::spec_asm_entry_supported(
                        #[trigger] cond_entries_model(hook_parm.hook_info.0@)[i].1,
                    ),
            },
    {
        let ghost blocks = Seq::new(
            cond_entries_model(hook_parm.hook_info.0@).len(),
            |i: int|
                (
                    cond_entries_model(hook_parm.hook_info.0@)[i].0,
                    Self::spec_asm_entry_block(
                        old(self).mod_id@,
                        cond_entries_model(hook_parm.hook_info.0@)[i].1,
                        asm_model_of(hook_parm.data@[i]),
                        cond_entries_model(hook_parm.hook_info.0@)[i].0,
                        class_data.fn_name@,
                        class_data.fn_path@,
                        cs_class@,
                    ),
                ),
        );
        if hook_parm.hook_info.0.len() == 1 {
            let block = match self.generate_hook_entry_block_inline_function(
                cs_class,
                class_data,
                &hook_parm.hook_info.0[0].1,
                &hook_parm.data[0],
                &hook_parm.hook_info.0[0].0,
            ) {
                Ok(b) => b,
                Err(e) => {
                    proof {
                        assert(!Self::spec_asm_entry_supported(
                            cond_entries_model(hook_parm.hook_info.0@)[0].1,
                        ));
                    }
                    return Err(e);
                },
            };
            let mut out = block;
            out.append("            ");
            Ok(out)
        } else {
            let mut out = String::new();
            let mut i: usize = 0;
            while i < hook_parm.hook_info.0.len()
                invariant
                    i <= hook_parm.hook_info.0@.len(),
                    hook_parm.hook_info.0@.len() > 1,
                    hook_parm.data@.len() == hook_parm.hook_info.0@.len(),
                    self.mod_id == old(self).mod_id,
                    spec_set_valid(conds_of(cond_entries_model(hook_parm.hook_info.0@))),
                    blocks == Seq::new(
                        cond_entries_model(hook_parm.hook_info.0@).len(),
                        |k: int|
                            (
                                cond_entries_model(hook_parm.hook_info.0@)[k].0,
                                Self::spec_asm_entry_block(
                                    old(self).mod_id@,
                                    cond_entries_model(hook_parm.hook_info.0@)[k].1,
                                    asm_model_of(hook_parm.data@[k]),
                                    cond_entries_model(hook_parm.hook_info.0@)[k].0,
                                    class_data.fn_name@,
                                    class_data.fn_path@,
                                    cs_class@,
                                ),
                            ),
                    ),
                    forall|k: int|
                        0 <= k < i ==> Self::spec_asm_entry_supported(
                            #[trigger] cond_entries_model(hook_parm.hook_info.0@)[k].1,
                        ),
                    out@ + spec_chain_entries(old(self).mod_id@, blocks, i as int)
                        == spec_chain_entries(old(self).mod_id@, blocks, 0),
                decreases hook_parm.hook_info.0@.len() - i,
            {
                proof {
                    let conds = conds_of(cond_entries_model(hook_parm.hook_info.0@));
                    assert(conds[i as int] == spec_cond_model(hook_parm.hook_info.0@[i as int].0));
                    if hook_parm.hook_info.0@[i as int].0 is Unconditional {
                        assert(conds[i as int].0 == 0);
                        assert(false);
                    }
                }
                let prefix = self.generate_conditional(&hook_parm.hook_info.0[i].0, i == 0);
                let block = match self.generate_hook_entry_block_inline_function(
                    cs_class,
                    class_data,
                    &hook_parm.hook_info.0[i].1,
                    &hook_parm.data[i],
                    &hook_parm.hook_info.0[i].0,
                ) {
                    Ok(b) => b,
                    Err(e) => {
                        proof {
                            assert(!Self::spec_asm_entry_supported(
                                cond_entries_model(hook_parm.hook_info.0@)[i as int].1,
                            ));
                        }
                        return Err(e);
                    },
                };
                out.append(prefix.as_str());
                out.append(block.as_str());
                i = i + 1;
            }
            proof {
                assert(spec_chain_entries(
                    old(self).mod_id@,
                    blocks,
                    hook_parm.hook_info.0@.len() as int,
                ) =~= Seq::<char>::empty());
                assert(out@ + Seq::<char>::empty() =~= out@);
            }
            out.append("}\n");
            out.append("            ");
            Ok(out)
        }
    }

    /// The late-binding entry point of one user-deferred hook: the host
    /// method the native side calls with a resolved address once its own
    /// initialization is done.
    pub open spec fn spec_init_function_bootstrap(
        fn_name: Seq<char>,
        delegate_path: Seq<char>,
        fn_path: Seq<char>,
        class_path: Seq<char>,
        delegate_type: Seq<char>,
    ) -> Seq<char> {
        "[UnmanagedCallersOnly(CallConvs = [ typeof(System.Runtime.CompilerServices.CallConvStdcall) ])]\n\t\tpublic static unsafe void UserDefined_"@
            + fn_name + "(nuint addr)\n\t\t{\n\t\t\t_instance!._"@ + fn_name
            + " = _hooks!.CreateHook<"@ + delegate_path + ">("@ + fn_path
            + ", (long)addr).Activate();\n\t\t\t"@ + class_path + "."@ + "__HOOK_SET_"@
            + crate::hook_codegen::spec_ascii_upper(fn_name) + "(("@ + delegate_type + ")_instance!._"@
            + fn_name + ".OriginalFunctionWrapperAddress);\n\t\t}\n"@
    }

    /// Emits the late-binding entry point of a user-deferred hook.
    pub fn generate_init_function_bootstrap(
        &self,
        class_data: &HookBootstrapFunctionState,
        delegate_type: &str,
    ) -> (r: String)
        ensures
            r@ == Self::spec_init_function_bootstrap(
                class_data.fn_name@,
                class_data.delegate_path@,
                class_data.fn_path@,
                class_data.class_path@,
                delegate_type@,
            ),
    {
        let mut out =
            "[UnmanagedCallersOnly(CallConvs = [ typeof(System.Runtime.CompilerServices.CallConvStdcall) ])]\n\t\tpublic static unsafe void UserDefined_".to_owned();
        out.append(class_data.get_fn_name());
        out.append("(nuint addr)\n\t\t{\n\t\t\t_instance!._");
        out.append(class_data.get_fn_name());
        out.append(" = _hooks!.CreateHook<");
        out.append(class_data.get_delegate_path());
        out.append(">(");
        out.append(class_data.get_fn_path());
        out.append(", (long)addr).Activate();\n\t\t\t");
        out.append(class_data.get_class_path());
        out.append(".");
        let upper = crate::hook_codegen::ascii_uppercase(class_data.get_fn_name());
        let setter = crate::hook_codegen::make_hook_set_string(upper.as_str());
        out.append(setter.as_str());
        out.append("((");
        out.append(delegate_type);
        out.append(")_instance!._");
        out.append(class_data.get_fn_name());
        out.append(".OriginalFunctionWrapperAddress);\n\t\t}\n");
        out
    }

    /// Compiles a whole hook set into its registration text: one entry
    /// stands alone; several form the if/else-if chain keyed on the
    /// executable identity hash. The set must satisfy the conditional-set
    /// invariants, as every parsed set does.
    pub fn generate_hook_c_function_for_function(
        &mut self,
        hook_parm: &HookInfo,
        cs_class: &str,
        class_data: &HookBootstrapFunctionState,
        delegate_type: &str,
    ) -> (r: String)
        requires
            spec_set_valid(conds_of(cond_entries_model(hook_parm.0@))),
            hook_parm.0@.len() > 0,
        ensures
            r@ == spec_hook_chain(
                old(self).mod_id@,
                Seq::new(
                    cond_entries_model(hook_parm.0@).len(),
                    |i: int|
                        (
                            cond_entries_model(hook_parm.0@)[i].0,
                            Self::spec_entry_block(
                                old(self).mod_id@,
                                cond_entries_model(hook_parm.0@)[i].1,
                                class_data.fn_name@,
                                class_data.delegate_path@,
                                class_data.fn_path@,
                                class_data.class_path@,
                                cs_class@,
                                delegate_type@,
                            ),
                        ),
                ),
            ),
            final(self).mod_id == old(self).mod_id,
    {
        let ghost blocks = Seq::new(
            cond_entries_model(hook_parm.0@).len(),
            |i: int|
                (
                    cond_entries_model(hook_parm.0@)[i].0,
                    Self::spec_entry_block(
                        old(self).mod_id@,
                        cond_entries_model(hook_parm.0@)[i].1,
                        class_data.fn_name@,
                        class_data.delegate_path@,
                        class_data.fn_path@,
                        class_data.class_path@,
                        cs_class@,
                        delegate_type@,
                    ),
                ),
        );
        if hook_parm.0.len() == 1 {
            let mut out = self.generate_hook_entry_block_function(
                cs_class,
                class_data,
                delegate_type,
                &hook_parm.0[0].1,
            );
            out.append("            ");
            out
        } else {
            let mut out = String::new();
            let mut i: usize = 0;
            while i < hook_parm.0.len()
                invariant
                    i <= hook_parm.0@.len(),
                    hook_parm.0@.len() > 1,
                    self.mod_id == old(self).mod_id,
                    spec_set_valid(conds_of(cond_entries_model(hook_parm.0@))),
                    blocks == Seq::new(
                        cond_entries_model(hook_parm.0@).len(),
                        |k: int|
                            (
                                cond_entries_model(hook_parm.0@)[k].0,
                                Self::spec_entry_block(
                                    old(self).mod_id@,
                                    cond_entries_model(hook_parm.0@)[k].1,
                                    class_data.fn_name@,
                                    class_data.delegate_path@,
                                    class_data.fn_path@,
                                    class_data.class_path@,
                                    cs_class@,
                                    delegate_type@,
                                ),
                            ),
                    ),
                    out@ + spec_chain_entries(old(self).mod_id@, blocks, i as int)
                        == spec_chain_entries(old(self).mod_id@, blocks, 0),
                decreases hook_parm.0@.len() - i,
            {
                proof {
                    let conds = conds_of(cond_entries_model(hook_parm.0@));
                    assert(conds[i as int] == spec_cond_model(hook_parm.0@[i as int].0));
                    if hook_parm.0@[i as int].0 is Unconditional {
                        assert(conds[i as int].0 == 0);
                        assert(false);
                    }
                }
                let prefix = self.generate_conditional(&hook_parm.0[i].0, i == 0);
                out.append(prefix.as_str());
                let block = self.generate_hook_entry_block_function(
                    cs_class,
                    class_data,
                    delegate_type,
                    &hook_parm.0[i].1,
                );
                out.append(block.as_str());
                i = i + 1;
            }
            proof {
                assert(spec_chain_entries(old(self).mod_id@, blocks, hook_parm.0@.len() as int)
                    =~= Seq::<char>::empty());
                assert(out@ + Seq::<char>::empty() =~= out@);
            }
            out.append("}\n");
            out.append("            ");
            out
        }
    }
}

} // verus!
