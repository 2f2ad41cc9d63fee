//! The hook intermediate representation: a conditional set of resolution
//! entries per hooked item, and the per-source-file evaluation results that
//! the compiler stages consume.
use crate::hook_parse::{
    asm_model_of, cond_entries_model, conds_of, spec_collect_arms, spec_parse_asm,
    spec_parse_entry, spec_set_valid, validate_conditions, AsmDataModel, AsmField,
    AssemblyFunctionHookData, DescriptorCall, EntryModel, HookArm, HookConditional, HookEntry,
    HookInfoMultipleCaseCollector, HookParseError,
};
use vstd::prelude::*;

verus! {

/// The parsed conditional hook set of one hooked item: entries in arm
/// order, each under its condition.
#[derive(Debug)]
pub struct HookInfo(pub Vec<(HookConditional, HookEntry)>);

/// Whether any entry of a set defers resolution to hand-written code.
pub open spec fn spec_has_delayed(s: Seq<((int, Seq<char>, u64), EntryModel)>) -> bool {
    exists|i: int| 0 <= i < s.len() && s[i].1 is Delayed
}

impl HookInfo {
    pub fn new(entries: Vec<(HookConditional, HookEntry)>) -> (r: HookInfo)
        ensures
            r.0 == entries,
    {
        HookInfo(entries)
    }

    /// Whether any entry of this set is resolved by user-defined code at
    /// host-runtime-initialization time.
    pub fn is_user_defined_init(&self) -> (r: bool)
        ensures
            r == spec_has_delayed(cond_entries_model(self.0@)),
    {
        let mut i: usize = 0;
        while i < self.0.len()
            invariant
                i <= self.0@.len(),
                forall|j: int|
                    0 <= j < i ==> !(#[trigger] cond_entries_model(self.0@)[j].1 is Delayed),
            decreases self.0@.len() - i,
        {
            let found = matches!(&self.0[i].1, HookEntry::Delayed);
            if found {
                proof {
                    assert(cond_entries_model(self.0@)[i as int].1 is Delayed);
                }
                return true;
            }
            i = i + 1;
        }
        false
    }
}

/// A whole descriptor as handed to the parser: one resolution call, or a
/// braced list of condition arms.
#[derive(Debug)]
pub enum HookDescriptor {
    Single(DescriptorCall),
    Arms(Vec<HookArm>),
}

/// Parses a descriptor into a hook set. A single call becomes the one
/// unconditional entry; arms are collected in order and the resulting set
/// must satisfy the conditional-set invariants, else the parse fails hard.
pub fn parse_hook_info(d: HookDescriptor) -> (r: Result<HookInfo, HookParseError>)
    ensures
        match r {
            Ok(h) => {
                &&& spec_set_valid(conds_of(cond_entries_model(h.0@)))
                &&& (match d {
                    HookDescriptor::Single(call) => cond_entries_model(h.0@).len() == 1
                        && cond_entries_model(h.0@)[0].0 == (0int, Seq::<char>::empty(), 0u64)
                        && spec_parse_entry(call) == Ok::<EntryModel, HookParseError>(
                        cond_entries_model(h.0@)[0].1,
                    ),
                    HookDescriptor::Arms(arms) => spec_collect_arms(arms@, false) is Ok
                        && cond_entries_model(h.0@) == spec_collect_arms(
                        arms@,
                        false,
                    )->Ok_0.0,
                })
            },
            Err(e) => match d {
                HookDescriptor::Single(call) => spec_parse_entry(call) == Err::<
                    EntryModel,
                    HookParseError,
                >(e),
                HookDescriptor::Arms(arms) => match spec_collect_arms(arms@, false) {
                    Err(e2) => e == e2,
                    Ok((s, _)) => !spec_set_valid(conds_of(s)),
                },
            },
        },
{
    match d {
        HookDescriptor::Single(call) => {
            let entry = match HookEntry::new(&call) {
                Ok(e) => e,
                Err(e) => {
                    return Err(e);
                },
            };
            let mut v: Vec<(HookConditional, HookEntry)> = Vec::new();
            v.push((HookConditional::Unconditional, entry));
            let h = HookInfo::new(v);
            proof {
                let m = cond_entries_model(h.0@);
                assert(m.len() == 1);
                assert(m[0].0 == (0int, Seq::<char>::empty(), 0u64));
                assert(spec_set_valid(conds_of(m)));
            }
            Ok(h)
        },
        HookDescriptor::Arms(arms) => {
            let ghost arms_g = arms@;
            let mut collector = HookInfoMultipleCaseCollector::new(arms);
            let entries = match collector.collect_patterns() {
                Ok(v) => v,
                Err(e) => {
                    return Err(e);
                },
            };
            proof {
                assert(spec_collect_arms(arms_g, false) == Ok::<
                    (Seq<((int, Seq<char>, u64), EntryModel)>, bool),
                    HookParseError,
                >((cond_entries_model(entries@), collector.has_default_arm)));
            }
            match validate_conditions(&entries) {
                Ok(_) => Ok(HookInfo::new(entries)),
                Err(e) => Err(e),
            }
        },
    }
}

/// When a source file's initializer routine runs.
#[derive(Debug, Clone, Copy, PartialEq, Eq, Structural, PartialOrd, Ord)]
pub enum SourceFileInitializeState {
    /// As soon as the native module is loaded.
    ModuleLoaded,
    /// When this mod has finished loading.
    ModLoaded,
    /// After the loader has initialized every mod.
    ModLoaderInitialized,
}

/// An initializer routine found in a source file: its name and when it is
/// to be invoked.
#[derive(Debug)]
pub struct SourceFileInitializeFunction {
    pub value: String,
    pub state: SourceFileInitializeState,
}

impl SourceFileInitializeFunction {
    pub fn new(value: String, state: SourceFileInitializeState) -> (r:
        SourceFileInitializeFunction)
        ensures
            r.value == value,
            r.state == state,
    {
        SourceFileInitializeFunction { value, state }
    }

    pub fn get_value(&self) -> (r: &str)
        ensures
            r@ == self.value@,
    {
        self.value.as_str()
    }

    pub fn get_state(&self) -> (r: SourceFileInitializeState)
        ensures
            r == self.state,
    {
        self.state
    }
}


/// The assembly entries of a list of field lists, each parsed in order.
pub open spec fn spec_parse_asm_list(fields: Seq<Vec<AsmField>>) -> Result<
    Seq<AsmDataModel>,
    HookParseError,
>
    decreases fields.len(),
{
    if fields.len() == 0 {
        Ok(Seq::empty())
    } else {
        match spec_parse_asm(fields[0]@) {
            Err(e) => Err(e),
            Ok(m) => match spec_parse_asm_list(fields.drop_first()) {
                Err(e) => Err(e),
                Ok(rest) => Ok(seq![m] + rest),
            },
        }
    }
}

/// The plain-value forms of a list of assembly entries.
pub open spec fn asm_models(s: Seq<AssemblyFunctionHookData>) -> Seq<AsmDataModel> {
    s.map(|i: int, d: AssemblyFunctionHookData| asm_model_of(d))
}

fn asm_list_from(fields: &Vec<Vec<AsmField>>, i: usize) -> (r: Result<
    Vec<AssemblyFunctionHookData>,
    HookParseError,
>)
    requires
        i <= fields@.len(),
    ensures
        match r {
            Ok(v) => spec_parse_asm_list(fields@.skip(i as int)) == Ok::<
                Seq<AsmDataModel>,
                HookParseError,
            >(asm_models(v@)),
            Err(e) => spec_parse_asm_list(fields@.skip(i as int)) == Err::<
                Seq<AsmDataModel>,
                HookParseError,
            >(e),
        },
    decreases fields@.len() - i,
{
    if i >= fields.len() {
        proof {
            assert(fields@.skip(i as int) =~= Seq::<Vec<AsmField>>::empty());
        }
        let v: Vec<AssemblyFunctionHookData> = Vec::new();
        proof {
            assert(asm_models(v@) =~= Seq::<AsmDataModel>::empty());
        }
        Ok(v)
    } else {
        proof {
            assert(fields@.skip(i as int)[0] == fields@[i as int]);
            assert(fields@.skip(i as int).drop_first() =~= fields@.skip(i + 1));
        }
        match AssemblyFunctionHookData::parse(&fields[i]) {
            Err(e) => Err(e),
            Ok(d) => match asm_list_from(fields, i + 1) {
                Err(e) => Err(e),
                Ok(mut v) => {
                    let ghost rest = asm_models(v@);
                    let ghost dm = asm_model_of(d);
                    v.insert(0, d);
                    proof {
                        assert(asm_models(v@) =~= seq![dm] + rest);
                    }
                    Ok(v)
                },
            },
        }
    }
}

/// A mid-function interception: the conditional hook set paired with one
/// assembly entry per branch.
#[derive(Debug)]
pub struct AssemblyFunctionHook {
    pub hook_info: HookInfo,
    pub data: Vec<AssemblyFunctionHookData>,
}

impl AssemblyFunctionHook {
    /// Parses an inline-hook descriptor: the hook set, then one assembly
    /// entry per branch; the two counts must agree.
    pub fn parse(d: HookDescriptor, asm_entries: &Vec<Vec<AsmField>>) -> (r: Result<
        AssemblyFunctionHook,
        HookParseError,
    >)
        ensures
            match r {
                Ok(a) => {
                    &&& spec_set_valid(conds_of(cond_entries_model(a.hook_info.0@)))
                    &&& spec_parse_asm_list(asm_entries@) == Ok::<
                        Seq<AsmDataModel>,
                        HookParseError,
                    >(asm_models(a.data@))
                    &&& a.data@.len() == a.hook_info.0@.len()
                    &&& (match d {
                        HookDescriptor::Single(call) => cond_entries_model(a.hook_info.0@).len()
                            == 1 && spec_parse_entry(call) == Ok::<EntryModel, HookParseError>(
                            cond_entries_model(a.hook_info.0@)[0].1,
                        ),
                        HookDescriptor::Arms(arms) => spec_collect_arms(arms@, false) is Ok
                            && cond_entries_model(a.hook_info.0@) == spec_collect_arms(
                            arms@,
                            false,
                        )->Ok_0.0,
                    })
                },
                Err(e) => {
                    ||| (match d {
                        HookDescriptor::Single(call) => spec_parse_entry(call) == Err::<
                            EntryModel,
                            HookParseError,
                        >(e),
                        HookDescriptor::Arms(arms) => match spec_collect_arms(arms@, false) {
                            Err(e2) => e == e2,
                            Ok((s, _)) => !spec_set_valid(conds_of(s)),
                        },
                    })
                    ||| spec_parse_asm_list(asm_entries@) == Err::<
                        Seq<AsmDataModel>,
                        HookParseError,
                    >(e)
                    ||| e == HookParseError::AssemblyCountMismatch
                },
            },
    {
        let hook_info = match parse_hook_info(d) {
            Ok(h) => h,
            Err(e) => {
                return Err(e);
            },
        };
        proof {
            assert(asm_entries@.skip(0) =~= asm_entries@);
        }
        let data = match asm_list_from(asm_entries, 0) {
            Ok(v) => v,
            Err(e) => {
                return Err(e);
            },
        };
        if data.len() != hook_info.0.len() {
            return Err(HookParseError::AssemblyCountMismatch);
        }
        Ok(AssemblyFunctionHook { hook_info, data })
    }

    /// Whether any branch of this hook defers resolution to user code.
    pub fn is_user_defined_init(&self) -> (r: bool)
        ensures
            r == spec_has_delayed(cond_entries_model(self.hook_info.0@)),
    {
        self.hook_info.is_user_defined_init()
    }
}

/// What the evaluation of one annotated item in a source file yielded: a
/// whole-function hook, an inline assembly hook, or an initializer routine.
#[derive(Debug)]
pub enum SourceFileEvaluationType {
    CFunction(HookInfo),
    Inline(AssemblyFunctionHook),
    InitFunction(SourceFileInitializeFunction),
}

impl SourceFileEvaluationType {
    /// Whether the item needs the late-registration entry point: only hooks
    /// with a user-deferred branch do.
    pub fn is_user_defined_init(&self) -> (r: bool)
        ensures
            r == (match *self {
                SourceFileEvaluationType::CFunction(h) => spec_has_delayed(
                    cond_entries_model(h.0@),
                ),
                SourceFileEvaluationType::Inline(a) => spec_has_delayed(
                    cond_entries_model(a.hook_info.0@),
                ),
                SourceFileEvaluationType::InitFunction(_) => false,
            }),
    {
        match self {
            SourceFileEvaluationType::CFunction(h) => h.is_user_defined_init(),
            SourceFileEvaluationType::Inline(a) => a.is_user_defined_init(),
            SourceFileEvaluationType::InitFunction(_) => false,
        }
    }
}

} // verus!
