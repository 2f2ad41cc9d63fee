//! The hook descriptor parser: turns a declarative descriptor - a single
//! resolution call, or a set of condition arms - into the intermediate
//! representation the compiler stages consume. A descriptor is held as plain
//! values: calls with named-assignment arguments, and arms whose patterns
//! select by executable identity.
use vstd::prelude::*;

verus! {

/// Compares a string against a literal by contents.
pub(crate) fn str_eq_lit(a: &str, b: &str) -> (r: bool)
    ensures
        r == (a@ == b@),
{
    let x = a.to_owned();
    let y = b.to_owned();
    x == y
}

/// A value on the right-hand side of a descriptor argument: a string
/// literal, an integer literal, or a bare name path.
#[derive(Debug)]
pub enum DescriptorValue {
    Text(String),
    Number(u64),
    Path(Vec<String>),
}

/// One argument of a resolution call: either a `name = value` assignment or
/// a plain value.
#[derive(Debug)]
pub enum DescriptorArg {
    Assign { name: String, value: DescriptorValue },
    Plain(DescriptorValue),
}

/// One resolution call of the descriptor grammar: a callee name applied to
/// arguments.
#[derive(Debug)]
pub struct DescriptorCall {
    pub callee: String,
    pub args: Vec<DescriptorArg>,
}

/// A single case of an arm pattern.
#[derive(Debug)]
pub enum ArmCase {
    Name(String),
    Num(u64),
    Wild,
}

/// The pattern of one descriptor arm: a single case or a choice of cases.
#[derive(Debug)]
pub enum ArmPattern {
    Single(ArmCase),
    Choice(Vec<ArmCase>),
}

/// One arm of a multi-entry descriptor: a pattern and its resolution call.
#[derive(Debug)]
pub struct HookArm {
    pub pattern: ArmPattern,
    pub entry: DescriptorCall,
}

/// Why a descriptor was rejected. Each variant names one diagnostic of the
/// parser.
#[derive(Debug, Clone, Copy, PartialEq, Eq, Structural)]
pub enum HookParseError {
    /// A parameter was assigned twice.
    DuplicateParameter,
    /// The signature value is not a string literal.
    InvalidSignatureValue,
    /// The resolver value is not a name.
    InvalidResolveTypeValue,
    /// The resolver name is a qualified path, not a single identifier.
    MultiSegmentResolvePath,
    /// The calling-convention value is not a string literal.
    InvalidCallingConventionValue,
    /// The calling-convention string names no supported convention.
    UnknownCallingConvention,
    /// The shared-scan value is not a string literal.
    InvalidSharedScanValue,
    /// The shared-scan string names no supported role.
    UnknownSharedScan,
    /// An assignment uses a parameter name the grammar does not know.
    UnsupportedArgumentName,
    /// A dynamic offset without a shared-scan consumer role must carry a
    /// pattern.
    SignatureRequired,
    /// A static offset takes exactly one argument.
    WrongStaticArgumentCount,
    /// The static offset argument is a literal of the wrong kind.
    StaticArgumentNotANumber,
    /// The static offset argument is not a literal.
    StaticArgumentNotALiteral,
    /// The callee is none of the known resolution strategies.
    UnknownEntryName,
    /// The fallback arm must be the last arm.
    DefaultArmMustBeLast,
    /// Two arms select on the same condition.
    DuplicateCondition,
    /// An unconditional entry cannot share a set with other entries.
    UnconditionalNotAlone,
    /// The descriptor holds no entry at all.
    EmptyDescriptor,
    /// The assembly data array length must equal the number of arms.
    AssemblyCountMismatch,
    /// The execute mode names no supported behavior.
    UnknownExecuteMethod,
    /// A register name is not a 64-bit general-purpose register.
    UnknownRegister,
    /// The shadow-space flag must be a boolean literal.
    ShadowSpaceNotBool,
    /// Inline assembly must be a string or the bare name None.
    AsmNotStringOrNone,
    /// The assembly entry holds more fields than the grammar has.
    TooManyAsmParameters,
    /// Execute mode and registers are required.
    MissingAsmParameters,
    /// A field of an assembly entry has the wrong shape.
    InvalidAsmField,
    /// The class path value is not a string literal.
    InvalidPathAssignment,
    /// The auto-drop value is not an integer literal.
    InvalidAutoDropAssignment,
    /// A class-methods argument names no known parameter.
    UnimplementedArgument,
    /// Class-methods parameters must be assignments.
    ParametersShouldBeAssignments,
}

/// The calling convention a hooked function is declared with.
#[derive(Clone, Copy, Debug, PartialEq, Eq, Structural)]
pub enum CallingConvention {
    Microsoft,
    Unknown,
}

/// The convention named by a string: `microsoft` or `unknown`.
pub open spec fn spec_cc_from(s: Seq<char>) -> Result<CallingConvention, ()> {
    if s == "microsoft"@ {
        Ok(CallingConvention::Microsoft)
    } else if s == "unknown"@ {
        Ok(CallingConvention::Unknown)
    } else {
        Err(())
    }
}

impl CallingConvention {
    pub fn try_from(value: &str) -> (r: Result<CallingConvention, ()>)
        ensures
            r == spec_cc_from(value@),
    {
        if str_eq_lit(value, "microsoft") {
            Ok(CallingConvention::Microsoft)
        } else if str_eq_lit(value, "unknown") {
            Ok(CallingConvention::Unknown)
        } else {
            Err(())
        }
    }
}

/// The role a declaration plays in a shared pattern scan.
#[derive(Clone, Copy, Debug, PartialEq, Eq, Structural)]
pub enum RyoTuneSharedScan {
    Produce,
    Consume,
}

/// The shared-scan role named by a string: `producer` or `consumer`.
pub open spec fn spec_ss_from(s: Seq<char>) -> Result<RyoTuneSharedScan, ()> {
    if s == "producer"@ {
        Ok(RyoTuneSharedScan::Produce)
    } else if s == "consumer"@ {
        Ok(RyoTuneSharedScan::Consume)
    } else {
        Err(())
    }
}

impl RyoTuneSharedScan {
    pub fn try_from(value: &str) -> (r: Result<RyoTuneSharedScan, ()>)
        ensures
            r == spec_ss_from(value@),
    {
        if str_eq_lit(value, "producer") {
            Ok(RyoTuneSharedScan::Produce)
        } else if str_eq_lit(value, "consumer") {
            Ok(RyoTuneSharedScan::Consume)
        } else {
            Err(())
        }
    }
}

/// A fixed offset from the module base.
#[derive(Clone, Copy, Debug, PartialEq, Eq, Structural)]
pub struct StaticOffset(pub u64);

/// What parsing a static-offset call yields: the single argument must be an
/// integer literal.
pub open spec fn spec_parse_static(args: Seq<DescriptorArg>) -> Result<
    StaticOffset,
    HookParseError,
> {
    if args.len() != 1 {
        Err(HookParseError::WrongStaticArgumentCount)
    } else {
        match args[0] {
            DescriptorArg::Plain(DescriptorValue::Number(v)) => Ok(StaticOffset(v)),
            DescriptorArg::Plain(_) => Err(HookParseError::StaticArgumentNotANumber),
            DescriptorArg::Assign { .. } => Err(HookParseError::StaticArgumentNotALiteral),
        }
    }
}

impl StaticOffset {
    pub fn from_expr_call(entry: &DescriptorCall) -> (r: Result<StaticOffset, HookParseError>)
        ensures
            r == spec_parse_static(entry.args@),
    {
        if entry.args.len() != 1 {
            return Err(HookParseError::WrongStaticArgumentCount);
        }
        match &entry.args[0] {
            DescriptorArg::Plain(DescriptorValue::Number(v)) => Ok(StaticOffset(*v)),
            DescriptorArg::Plain(_) => Err(HookParseError::StaticArgumentNotANumber),
            DescriptorArg::Assign { .. } => Err(HookParseError::StaticArgumentNotALiteral),
        }
    }
}

/// A pattern-scanned offset: the byte pattern, an optional resolver name,
/// the calling convention, and an optional shared-scan role.
#[derive(Debug)]
pub struct DynamicOffset {
    pub sig: String,
    pub resolve_type: Option<String>,
    pub call_conv: CallingConvention,
    pub shared_scan: Option<RyoTuneSharedScan>,
}

/// A dynamic offset as plain values: the pattern and resolver name are
/// character sequences.
pub struct DynModel {
    pub sig: Seq<char>,
    pub resolve_type: Option<Seq<char>>,
    pub call_conv: CallingConvention,
    pub shared_scan: Option<RyoTuneSharedScan>,
}

/// A dynamic offset's plain-value form.
pub open spec fn dyn_model_of(d: DynamicOffset) -> DynModel {
    DynModel {
        sig: d.sig@,
        resolve_type: match d.resolve_type {
            Some(s) => Some(s@),
            None => None,
        },
        call_conv: d.call_conv,
        shared_scan: d.shared_scan,
    }
}

/// The accumulating state of a dynamic-offset parse: each parameter may be
/// given at most once.
pub struct DynParseState {
    pub sig: Option<Seq<char>>,
    pub resolve_type: Option<Seq<char>>,
    pub call_conv: Option<CallingConvention>,
    pub shared_scan: Option<RyoTuneSharedScan>,
}

/// An optional string as an optional character sequence.
pub open spec fn view_opt_str(o: Option<String>) -> Option<Seq<char>> {
    match o {
        Some(s) => Some(s@),
        None => None,
    }
}

/// One assignment folded into the state. Plain arguments are passed over.
pub open spec fn spec_dyn_step(st: DynParseState, arg: DescriptorArg) -> Result<
    DynParseState,
    HookParseError,
> {
    match arg {
        DescriptorArg::Plain(_) => Ok(st),
        DescriptorArg::Assign { name, value } => {
            if name@ == "signature"@ {
                if st.sig is Some {
                    Err(HookParseError::DuplicateParameter)
                } else {
                    match value {
                        DescriptorValue::Text(s) => Ok(DynParseState { sig: Some(s@), ..st }),
                        _ => Err(HookParseError::InvalidSignatureValue),
                    }
                }
            } else if name@ == "resolve_type"@ {
                if st.resolve_type is Some {
                    Err(HookParseError::DuplicateParameter)
                } else {
                    match value {
                        DescriptorValue::Path(segs) => if segs@.len() > 1 {
                            Err(HookParseError::MultiSegmentResolvePath)
                        } else if segs@.len() == 0 {
                            Err(HookParseError::InvalidResolveTypeValue)
                        } else {
                            Ok(DynParseState { resolve_type: Some(segs@[0]@), ..st })
                        },
                        _ => Err(HookParseError::InvalidResolveTypeValue),
                    }
                }
            } else if name@ == "calling_convention"@ {
                if st.call_conv is Some {
                    Err(HookParseError::DuplicateParameter)
                } else {
                    match value {
                        DescriptorValue::Text(s) => match spec_cc_from(s@) {
                            Ok(c) => Ok(DynParseState { call_conv: Some(c), ..st }),
                            Err(_) => Err(HookParseError::UnknownCallingConvention),
                        },
                        _ => Err(HookParseError::InvalidCallingConventionValue),
                    }
                }
            } else if name@ == "shared_scan"@ {
                if st.shared_scan is Some {
                    Err(HookParseError::DuplicateParameter)
                } else {
                    match value {
                        DescriptorValue::Text(s) => match spec_ss_from(s@) {
                            Ok(c) => Ok(DynParseState { shared_scan: Some(c), ..st }),
                            Err(_) => Err(HookParseError::UnknownSharedScan),
                        },
                        _ => Err(HookParseError::InvalidSharedScanValue),
                    }
                }
            } else {
                Err(HookParseError::UnsupportedArgumentName)
            }
        },
    }
}

/// The assignments of a dynamic-offset call folded left to right.
pub open spec fn spec_dyn_fold(args: Seq<DescriptorArg>, st: DynParseState) -> Result<
    DynParseState,
    HookParseError,
>
    decreases args.len(),
{
    if args.len() == 0 {
        Ok(st)
    } else {
        match spec_dyn_step(st, args[0]) {
            Err(e) => Err(e),
            Ok(st2) => spec_dyn_fold(args.drop_first(), st2),
        }
    }
}

/// The dynamic offset a call parses to: a pattern is required unless the
/// declaration only consumes a shared scan; the calling convention defaults
/// to the platform compiler's.
pub open spec fn spec_parse_dynamic(args: Seq<DescriptorArg>) -> Result<
    DynModel,
    HookParseError,
> {
    match spec_dyn_fold(
        args,
        DynParseState { sig: None, resolve_type: None, call_conv: None, shared_scan: None },
    ) {
        Err(e) => Err(e),
        Ok(st) => if st.sig is None && st.shared_scan != Some(RyoTuneSharedScan::Consume) {
            Err(HookParseError::SignatureRequired)
        } else {
            Ok(
                DynModel {
                    sig: match st.sig {
                        Some(s) => s,
                        None => Seq::empty(),
                    },
                    resolve_type: st.resolve_type,
                    call_conv: match st.call_conv {
                        Some(c) => c,
                        None => CallingConvention::Microsoft,
                    },
                    shared_scan: st.shared_scan,
                },
            )
        },
    }
}

impl DynamicOffset {
    pub fn from_expr_call(entry: &DescriptorCall) -> (r: Result<DynamicOffset, HookParseError>)
        ensures
            match r {
                Ok(d) => spec_parse_dynamic(entry.args@) == Ok::<DynModel, HookParseError>(
                    dyn_model_of(d),
                ),
                Err(e) => spec_parse_dynamic(entry.args@) == Err::<DynModel, HookParseError>(e),
            },
    {
        let ghost init = DynParseState {
            sig: None,
            resolve_type: None,
            call_conv: None,
            shared_scan: None,
        };
        let mut ret_sig: Option<String> = None;
        let mut resolve_type: Option<String> = None;
        let mut call_conv: Option<CallingConvention> = None;
        let mut shared_scan: Option<RyoTuneSharedScan> = None;
        let mut i: usize = 0;
        proof {
            assert(entry.args@.skip(0) =~= entry.args@);
        }
        while i < entry.args.len()
            invariant
                i <= entry.args@.len(),
                init == (DynParseState {
                    sig: None::<Seq<char>>,
                    resolve_type: None::<Seq<char>>,
                    call_conv: None::<CallingConvention>,
                    shared_scan: None::<RyoTuneSharedScan>,
                }),
                spec_dyn_fold(entry.args@, init) == spec_dyn_fold(
                    entry.args@.skip(i as int),
                    DynParseState {
                        sig: view_opt_str(ret_sig),
                        resolve_type: view_opt_str(resolve_type),
                        call_conv: call_conv,
                        shared_scan: shared_scan,
                    },
                ),
            decreases entry.args@.len() - i,
        {
            let ghost st = DynParseState {
                sig: view_opt_str(ret_sig),
                resolve_type: view_opt_str(resolve_type),
                call_conv: call_conv,
                shared_scan: shared_scan,
            };
            proof {
                assert(entry.args@.skip(i as int)[0] == entry.args@[i as int]);
                assert(entry.args@.skip(i as int).drop_first() =~= entry.args@.skip(i + 1));
            }
            match &entry.args[i] {
                DescriptorArg::Plain(_) => {},
                DescriptorArg::Assign { name, value } => {
                    if str_eq_lit(name.as_str(), "signature") {
                        if ret_sig.is_some() {
                            return Err(HookParseError::DuplicateParameter);
                        }
                        match value {
                            DescriptorValue::Text(s) => {
                                ret_sig = Some(s.clone());
                            },
                            _ => {
                                return Err(HookParseError::InvalidSignatureValue);
                            },
                        }
                    } else if str_eq_lit(name.as_str(), "resolve_type") {
                        if resolve_type.is_some() {
                            return Err(HookParseError::DuplicateParameter);
                        }
                        match value {
                            DescriptorValue::Path(segs) => {
                                if segs.len() > 1 {
                                    return Err(HookParseError::MultiSegmentResolvePath);
                                }
                                if segs.len() == 0 {
                                    return Err(HookParseError::InvalidResolveTypeValue);
                                }
                                resolve_type = Some(segs[0].clone());
                            },
                            _ => {
                                return Err(HookParseError::InvalidResolveTypeValue);
                            },
                        }
                    } else if str_eq_lit(name.as_str(), "calling_convention") {
                        if call_conv.is_some() {
                            return Err(HookParseError::DuplicateParameter);
                        }
                        match value {
                            DescriptorValue::Text(s) => {
                                match CallingConvention::try_from(s.as_str()) {
                                    Ok(c) => {
                                        call_conv = Some(c);
                                    },
                                    Err(_) => {
                                        return Err(HookParseError::UnknownCallingConvention);
                                    },
                                }
                            },
                            _ => {
                                return Err(HookParseError::InvalidCallingConventionValue);
                            },
                        }
                    } else if str_eq_lit(name.as_str(), "shared_scan") {
                        if shared_scan.is_some() {
                            return Err(HookParseError::DuplicateParameter);
                        }
                        match value {
                            DescriptorValue::Text(s) => {
                                match RyoTuneSharedScan::try_from(s.as_str()) {
                                    Ok(c) => {
                                        shared_scan = Some(c);
                                    },
                                    Err(_) => {
                                        return Err(HookParseError::UnknownSharedScan);
                                    },
                                }
                            },
                            _ => {
                                return Err(HookParseError::InvalidSharedScanValue);
                            },
                        }
                    } else {
                        return Err(HookParseError::UnsupportedArgumentName);
                    }
                },
            }
            i = i + 1;
        }
        proof {
            assert(entry.args@.skip(entry.args@.len() as int) =~= Seq::<DescriptorArg>::empty());
        }
        if ret_sig.is_none() {
            let consumes = match &shared_scan {
                Some(s) => *s == RyoTuneSharedScan::Consume,
                None => false,
            };
            if !consumes {
                return Err(HookParseError::SignatureRequired);
            }
        }
        let sig = match ret_sig {
            Some(v) => v,
            None => String::new(),
        };
        Ok(
            DynamicOffset {
                sig,
                resolve_type,
                call_conv: match call_conv {
                    Some(c) => c,
                    None => CallingConvention::Microsoft,
                },
                shared_scan,
            },
        )
    }
}

/// One resolution strategy of a hook entry.
#[derive(Debug)]
pub enum HookEntry {
    Static(StaticOffset),
    Dyn(DynamicOffset),
    Delayed,
}

/// A resolution entry as plain values.
pub enum EntryModel {
    Static(u64),
    Dyn(DynModel),
    Delayed,
}

/// An entry's plain-value form.
pub open spec fn entry_model_of(e: HookEntry) -> EntryModel {
    match e {
        HookEntry::Static(s) => EntryModel::Static(s.0),
        HookEntry::Dyn(d) => EntryModel::Dyn(dyn_model_of(d)),
        HookEntry::Delayed => EntryModel::Delayed,
    }
}

/// The entry a resolution call parses to, by callee name.
pub open spec fn spec_parse_entry(call: DescriptorCall) -> Result<EntryModel, HookParseError> {
    if call.callee@ == "dynamic_offset"@ {
        match spec_parse_dynamic(call.args@) {
            Ok(d) => Ok(EntryModel::Dyn(d)),
            Err(e) => Err(e),
        }
    } else if call.callee@ == "static_offset"@ {
        match spec_parse_static(call.args@) {
            Ok(s) => Ok(EntryModel::Static(s.0)),
            Err(e) => Err(e),
        }
    } else if call.callee@ == "user_defined"@ {
        Ok(EntryModel::Delayed)
    } else {
        Err(HookParseError::UnknownEntryName)
    }
}

impl HookEntry {
    pub fn new(entry: &DescriptorCall) -> (r: Result<HookEntry, HookParseError>)
        ensures
            match r {
                Ok(e) => spec_parse_entry(*entry) == Ok::<EntryModel, HookParseError>(
                    entry_model_of(e),
                ),
                Err(e) => spec_parse_entry(*entry) == Err::<EntryModel, HookParseError>(e),
            },
    {
        if str_eq_lit(entry.callee.as_str(), "dynamic_offset") {
            match DynamicOffset::from_expr_call(entry) {
                Ok(d) => Ok(HookEntry::Dyn(d)),
                Err(e) => Err(e),
            }
        } else if str_eq_lit(entry.callee.as_str(), "static_offset") {
            match StaticOffset::from_expr_call(entry) {
                Ok(s) => Ok(HookEntry::Static(s)),
                Err(e) => Err(e),
            }
        } else if str_eq_lit(entry.callee.as_str(), "user_defined") {
            Ok(HookEntry::Delayed)
        } else {
            Err(HookParseError::UnknownEntryName)
        }
    }
}

/// The condition under which one entry of a set applies.
#[derive(Debug)]
pub enum HookConditional {
    /// The only entry of a single-entry set.
    Unconditional,
    /// Applies when the executable identity hash equals a named constant.
    HashNamed(String),
    /// Applies when the executable identity hash equals the literal.
    HashNum(u64),
    /// The trailing arm that applies when no other condition held.
    Fallback,
}

/// A condition as a plain value: a tag, the name it compares against, and
/// the number it compares against.
pub open spec fn spec_cond_model(c: HookConditional) -> (int, Seq<char>, u64) {
    match c {
        HookConditional::Unconditional => (0, Seq::empty(), 0),
        HookConditional::HashNamed(s) => (1, s@, 0),
        HookConditional::HashNum(v) => (2, Seq::empty(), v),
        HookConditional::Fallback => (3, Seq::empty(), 0),
    }
}

impl HookConditional {
    /// Whether two conditions select the same case.
    pub fn same_condition(&self, other: &HookConditional) -> (r: bool)
        ensures
            r == (spec_cond_model(*self) == spec_cond_model(*other)),
    {
        match (self, other) {
            (HookConditional::Unconditional, HookConditional::Unconditional) => true,
            (HookConditional::HashNamed(a), HookConditional::HashNamed(b)) => *a == *b,
            (HookConditional::HashNum(a), HookConditional::HashNum(b)) => *a == *b,
            (HookConditional::Fallback, HookConditional::Fallback) => true,
            _ => false,
        }
    }
}

/// The invariants of a conditional hook set, over the condition models
/// alone: an unconditional entry stands alone; the fallback, if present, is
/// last; and conditions other than the fallback are pairwise distinct. Tags:
/// 0 unconditional, 1 named, 2 numeric, 3 fallback.
pub open spec fn spec_set_valid(conds: Seq<(int, Seq<char>, u64)>) -> bool {
    &&& (forall|i: int| 0 <= i < conds.len() && #[trigger] conds[i].0 == 0 ==> conds.len() == 1)
    &&& (forall|i: int| 0 <= i < conds.len() && #[trigger] conds[i].0 == 3 ==> i == conds.len() - 1)
    &&& (forall|i: int, j: int|
        0 <= i < j < conds.len() && conds[i].0 != 3 ==> #[trigger] conds[i] != #[trigger] conds[j])
}

/// One entry of a parsed set, as plain values: condition model and entry
/// model.
pub open spec fn cond_entries_model(s: Seq<(HookConditional, HookEntry)>) -> Seq<
    ((int, Seq<char>, u64), EntryModel),
> {
    s.map(|i: int, e: (HookConditional, HookEntry)| (spec_cond_model(e.0), entry_model_of(e.1)))
}

/// The conditions alone of a model sequence.
pub open spec fn conds_of(s: Seq<((int, Seq<char>, u64), EntryModel)>) -> Seq<
    (int, Seq<char>, u64),
> {
    s.map(|i: int, e: ((int, Seq<char>, u64), EntryModel)| e.0)
}

/// One arm case collected under the running fallback flag: its condition
/// and entry, and the flag after it.
pub open spec fn spec_collect_case(
    case: ArmCase,
    call: DescriptorCall,
    default_arm: bool,
) -> Result<(((int, Seq<char>, u64), EntryModel), bool), HookParseError> {
    if default_arm {
        Err(HookParseError::DefaultArmMustBeLast)
    } else {
        match spec_parse_entry(call) {
            Err(e) => Err(e),
            Ok(em) => match case {
                ArmCase::Name(s) => Ok((((1, s@, 0), em), false)),
                ArmCase::Num(v) => Ok((((2, Seq::empty(), v), em), false)),
                ArmCase::Wild => Ok((((3, Seq::empty(), 0), em), true)),
            },
        }
    }
}

/// The cases of a choice pattern collected left to right.
pub open spec fn spec_collect_cases(
    cases: Seq<ArmCase>,
    call: DescriptorCall,
    default_arm: bool,
) -> Result<(Seq<((int, Seq<char>, u64), EntryModel)>, bool), HookParseError>
    decreases cases.len(),
{
    if cases.len() == 0 {
        Ok((Seq::empty(), default_arm))
    } else {
        match spec_collect_case(cases[0], call, default_arm) {
            Err(e) => Err(e),
            Ok((e, f)) => match spec_collect_cases(cases.drop_first(), call, f) {
                Err(e2) => Err(e2),
                Ok((s, f2)) => Ok((seq![e] + s, f2)),
            },
        }
    }
}

/// The arms of a multi-entry descriptor collected in order; a fallback arm
/// anywhere but last is a hard failure.
pub open spec fn spec_collect_arms(arms: Seq<HookArm>, default_arm: bool) -> Result<
    (Seq<((int, Seq<char>, u64), EntryModel)>, bool),
    HookParseError,
>
    decreases arms.len(),
{
    if arms.len() == 0 {
        Ok((Seq::empty(), default_arm))
    } else if default_arm {
        Err(HookParseError::DefaultArmMustBeLast)
    } else {
        let step = match arms[0].pattern {
            ArmPattern::Single(c) => match spec_collect_case(c, arms[0].entry, default_arm) {
                Err(e) => Err(e),
                Ok((e, f)) => Ok((seq![e], f)),
            },
            ArmPattern::Choice(cs) => spec_collect_cases(cs@, arms[0].entry, default_arm),
        };
        match step {
            Err(e) => Err(e),
            Ok((es, f)) => match spec_collect_arms(arms.drop_first(), f) {
                Err(e2) => Err(e2),
                Ok((s, f2)) => Ok((es + s, f2)),
            },
        }
    }
}

/// Collects the arms of a multi-entry descriptor into condition-entry
/// pairs, tracking whether a fallback arm has been seen.
pub struct HookInfoMultipleCaseCollector {
    pub arms: Vec<HookArm>,
    pub has_default_arm: bool,
}

impl HookInfoMultipleCaseCollector {
    pub fn new(arms: Vec<HookArm>) -> (r: HookInfoMultipleCaseCollector)
        ensures
            r.arms == arms,
            !r.has_default_arm,
    {
        HookInfoMultipleCaseCollector { arms, has_default_arm: false }
    }

    fn collect_case(
        case: &ArmCase,
        call: &DescriptorCall,
        default_arm: bool,
    ) -> (r: Result<((HookConditional, HookEntry), bool), HookParseError>)
        ensures
            match r {
                Ok((e, f)) => spec_collect_case(*case, *call, default_arm) == Ok::<
                    (((int, Seq<char>, u64), EntryModel), bool),
                    HookParseError,
                >((((spec_cond_model(e.0), entry_model_of(e.1))), f)),
                Err(e) => spec_collect_case(*case, *call, default_arm) == Err::<
                    (((int, Seq<char>, u64), EntryModel), bool),
                    HookParseError,
                >(e),
            },
    {
        if default_arm {
            return Err(HookParseError::DefaultArmMustBeLast);
        }
        let entry = match HookEntry::new(call) {
            Ok(e) => e,
            Err(e) => {
                return Err(e);
            },
        };
        match case {
            ArmCase::Name(s) => Ok(((HookConditional::HashNamed(s.clone()), entry), false)),
            ArmCase::Num(v) => Ok(((HookConditional::HashNum(*v), entry), false)),
            ArmCase::Wild => Ok(((HookConditional::Fallback, entry), true)),
        }
    }

    /// Flattens every arm into its condition-entry pairs. A fallback arm
    /// that is not the final case fails the parse.
    pub fn collect_patterns(&mut self) -> (r: Result<
        Vec<(HookConditional, HookEntry)>,
        HookParseError,
    >)
        requires
            !old(self).has_default_arm,
        ensures
            final(self).arms == old(self).arms,
            match r {
                Ok(v) => spec_collect_arms(old(self).arms@, false) == Ok::<
                    (Seq<((int, Seq<char>, u64), EntryModel)>, bool),
                    HookParseError,
                >((cond_entries_model(v@), final(self).has_default_arm)),
                Err(e) => spec_collect_arms(old(self).arms@, false) == Err::<
                    (Seq<((int, Seq<char>, u64), EntryModel)>, bool),
                    HookParseError,
                >(e),
            },
    {
        let mut out: Vec<(HookConditional, HookEntry)> = Vec::new();
        let mut i: usize = 0;
        proof {
            assert(self.arms@.skip(0) =~= self.arms@);
            assert(cond_entries_model(out@) =~= Seq::<((int, Seq<char>, u64), EntryModel)>::empty());
        }
        while i < self.arms.len()
            invariant
                i <= self.arms@.len(),
                self.arms == old(self).arms,
                spec_collect_arms(self.arms@, false) == (match spec_collect_arms(
                    self.arms@.skip(i as int),
                    self.has_default_arm,
                ) {
                    Ok((s, f)) => Ok::<
                        (Seq<((int, Seq<char>, u64), EntryModel)>, bool),
                        HookParseError,
                    >((cond_entries_model(out@) + s, f)),
                    Err(e) => Err::<
                        (Seq<((int, Seq<char>, u64), EntryModel)>, bool),
                        HookParseError,
                    >(e),
                }),
            decreases self.arms@.len() - i,
        {
            proof {
                assert(self.arms@.skip(i as int)[0] == self.arms@[i as int]);
                assert(self.arms@.skip(i as int).drop_first() =~= self.arms@.skip(i + 1));
            }
            if self.has_default_arm {
                return Err(HookParseError::DefaultArmMustBeLast);
            }
            let ghost out_before = cond_entries_model(out@);
            let ghost flag_before = self.has_default_arm;
            match &self.arms[i].pattern {
                ArmPattern::Single(c) => {
                    match Self::collect_case(c, &self.arms[i].entry, self.has_default_arm) {
                        Err(e) => {
                            return Err(e);
                        },
                        Ok((e, f)) => {
                            let ghost em = (spec_cond_model(e.0), entry_model_of(e.1));
                            out.push(e);
                            self.has_default_arm = f;
                            proof {
                                assert(cond_entries_model(out@) =~= out_before + seq![em]);
                                let rec = spec_collect_arms(self.arms@.skip(i + 1), f);
                                if rec is Ok {
                                    vstd::seq_lib::lemma_concat_associative(
                                        out_before,
                                        seq![em],
                                        rec->Ok_0.0,
                                    );
                                }
                            }
                        },
                    }
                },
                ArmPattern::Choice(cs) => {
                    let ghost call_g = self.arms@[i as int].entry;
                    let mut j: usize = 0;
                    proof {
                        assert(cs@.skip(0) =~= cs@);
                    }
                    while j < cs.len()
                        invariant
                            j <= cs@.len(),
                            self.arms == old(self).arms,
                            i < self.arms@.len(),
                            self.arms@[i as int].pattern == ArmPattern::Choice(*cs),
                            call_g == self.arms@[i as int].entry,
                            flag_before == false,
                            out_before.len() <= cond_entries_model(out@).len(),
                            spec_collect_arms(self.arms@, false) == (match spec_collect_arms(
                                self.arms@.skip(i as int),
                                false,
                            ) {
                                Ok((s, f)) => Ok::<
                                    (Seq<((int, Seq<char>, u64), EntryModel)>, bool),
                                    HookParseError,
                                >((out_before + s, f)),
                                Err(e) => Err::<
                                    (Seq<((int, Seq<char>, u64), EntryModel)>, bool),
                                    HookParseError,
                                >(e),
                            }),
                            spec_collect_cases(cs@, call_g, flag_before) == (match
                                spec_collect_cases(
                                cs@.skip(j as int),
                                call_g,
                                self.has_default_arm,
                            ) {
                                Ok((s, f)) => Ok::<
                                    (Seq<((int, Seq<char>, u64), EntryModel)>, bool),
                                    HookParseError,
                                >((cond_entries_model(out@).skip(out_before.len() as int) + s, f)),
                                Err(e) => Err::<
                                    (Seq<((int, Seq<char>, u64), EntryModel)>, bool),
                                    HookParseError,
                                >(e),
                            }),
                            cond_entries_model(out@).len() >= out_before.len(),
                            cond_entries_model(out@).take(out_before.len() as int)
                                == out_before,
                        decreases cs@.len() - j,
                    {
                        proof {
                            assert(cs@.skip(j as int)[0] == cs@[j as int]);
                            assert(cs@.skip(j as int).drop_first() =~= cs@.skip(j + 1));
                        }
                        match Self::collect_case(&cs[j], &self.arms[i].entry, self.has_default_arm) {
                            Err(e) => {
                                proof {
                                    assert(spec_collect_cases(
                                        cs@.skip(j as int),
                                        call_g,
                                        self.has_default_arm,
                                    ) == Err::<
                                        (Seq<((int, Seq<char>, u64), EntryModel)>, bool),
                                        HookParseError,
                                    >(e));
                                    assert(spec_collect_cases(cs@, call_g, false) == Err::<
                                        (Seq<((int, Seq<char>, u64), EntryModel)>, bool),
                                        HookParseError,
                                    >(e));
                                    assert(spec_collect_arms(self.arms@.skip(i as int), false)
                                        == Err::<
                                        (Seq<((int, Seq<char>, u64), EntryModel)>, bool),
                                        HookParseError,
                                    >(e));
                                }
                                return Err(e);
                            },
                            Ok((e, f)) => {
                                let ghost em = (spec_cond_model(e.0), entry_model_of(e.1));
                                let ghost out_mid = cond_entries_model(out@);
                                out.push(e);
                                self.has_default_arm = f;
                                proof {
                                    assert(cond_entries_model(out@) =~= out_mid + seq![em]);
                                    assert(cond_entries_model(out@).skip(out_before.len() as int)
                                        =~= out_mid.skip(out_before.len() as int) + seq![em]);
                                    assert(cond_entries_model(out@).take(
                                        out_before.len() as int,
                                    ) =~= out_before);
                                    let rec = spec_collect_cases(cs@.skip(j + 1), call_g, f);
                                    if rec is Ok {
                                        vstd::seq_lib::lemma_concat_associative(
                                            out_mid.skip(out_before.len() as int),
                                            seq![em],
                                            rec->Ok_0.0,
                                        );
                                    }
                                }
                            },
                        }
                        j = j + 1;
                    }
                    proof {
                        assert(cs@.skip(cs@.len() as int) =~= Seq::<ArmCase>::empty());
                        assert(cond_entries_model(out@).skip(out_before.len() as int) + Seq::<
                            ((int, Seq<char>, u64), EntryModel),
                        >::empty() =~= cond_entries_model(out@).skip(out_before.len() as int));
                        assert(out_before + cond_entries_model(out@).skip(out_before.len() as int)
                            =~= cond_entries_model(out@));
                        let rec = spec_collect_arms(self.arms@.skip(i + 1), self.has_default_arm);
                        if rec is Ok {
                            vstd::seq_lib::lemma_concat_associative(
                                out_before,
                                cond_entries_model(out@).skip(out_before.len() as int),
                                rec->Ok_0.0,
                            );
                        }
                    }
                },
            }
            i = i + 1;
        }
        proof {
            assert(self.arms@.skip(self.arms@.len() as int) =~= Seq::<HookArm>::empty());
            assert(cond_entries_model(out@) + Seq::<
                ((int, Seq<char>, u64), EntryModel),
            >::empty() =~= cond_entries_model(out@));
        }
        Ok(out)
    }
}

/// Checks a collected set against the conditional-set invariants: it
/// answers affirmatively exactly for valid sets.
pub fn validate_conditions(v: &Vec<(HookConditional, HookEntry)>) -> (r: Result<
    (),
    HookParseError,
>)
    ensures
        r is Ok <==> spec_set_valid(conds_of(cond_entries_model(v@))),
{
    let ghost conds = conds_of(cond_entries_model(v@));
    let n = v.len();
    let mut i: usize = 0;
    while i < n
        invariant
            n == v@.len(),
            i <= n,
            conds == conds_of(cond_entries_model(v@)),
            forall|k: int| 0 <= k < i && #[trigger] conds[k].0 == 0 ==> n == 1,
            forall|k: int| 0 <= k < i && #[trigger] conds[k].0 == 3 ==> k == n - 1,
            forall|k: int, l: int|
                0 <= k < i && k < l < n && conds[k].0 != 3 ==> #[trigger] conds[k]
                    != #[trigger] conds[l],
        decreases n - i,
    {
        let is_uncond = matches!(&v[i].0, HookConditional::Unconditional);
        let is_fallback = matches!(&v[i].0, HookConditional::Fallback);
        proof {
            assert(conds[i as int] == spec_cond_model(v@[i as int].0));
        }
        if is_uncond && n != 1 {
            proof {
                assert(conds[i as int].0 == 0);
                assert(!spec_set_valid(conds));
            }
            return Err(HookParseError::UnconditionalNotAlone);
        }
        if is_fallback && i != n - 1 {
            proof {
                assert(conds[i as int].0 == 3);
                assert(!spec_set_valid(conds));
            }
            return Err(HookParseError::DefaultArmMustBeLast);
        }
        if !is_fallback {
            proof {
                assert(conds[i as int].0 != 3);
            }
            let mut j: usize = i + 1;
            while j < n
                invariant
                    n == v@.len(),
                    i < j <= n,
                    i < n,
                    conds == conds_of(cond_entries_model(v@)),
                    conds[i as int].0 != 3,
                    forall|l: int|
                        i < l < j ==> conds[i as int] != #[trigger] conds[l],
                decreases n - j,
            {
                proof {
                    assert(conds[j as int] == spec_cond_model(v@[j as int].0));
                }
                if v[i].0.same_condition(&v[j].0) {
                    proof {
                        assert(conds[i as int] == conds[j as int]);
                        assert(!spec_set_valid(conds));
                    }
                    return Err(HookParseError::DuplicateCondition);
                }
                j = j + 1;
            }
        }
        i = i + 1;
    }
    Ok(())
}

/// The behavior of an assembly-level hook relative to the instructions it
/// replaces.
#[derive(Debug, PartialEq, Eq, Structural, Copy, Clone)]
pub enum AsmHookExecuteBehavior {
    /// Executes the injected assembly before the original instructions.
    ExecuteFirst,
    /// Executes the injected assembly after the original instructions.
    ExecuteAfter,
    /// Never executes the replaced instructions: control does not return to
    /// the original code path, which makes this mode dangerous.
    DoNotExecuteOriginal,
}

/// The behavior named by a string.
pub open spec fn spec_behavior_from(s: Seq<char>) -> Result<AsmHookExecuteBehavior, ()> {
    if s == "ExecuteFirst"@ {
        Ok(AsmHookExecuteBehavior::ExecuteFirst)
    } else if s == "ExecuteAfter"@ {
        Ok(AsmHookExecuteBehavior::ExecuteAfter)
    } else if s == "DoNotExecuteOriginal"@ {
        Ok(AsmHookExecuteBehavior::DoNotExecuteOriginal)
    } else {
        Err(())
    }
}

impl AsmHookExecuteBehavior {
    pub fn try_from(value: &str) -> (r: Result<AsmHookExecuteBehavior, ()>)
        ensures
            r == spec_behavior_from(value@),
    {
        if str_eq_lit(value, "ExecuteFirst") {
            Ok(AsmHookExecuteBehavior::ExecuteFirst)
        } else if str_eq_lit(value, "ExecuteAfter") {
            Ok(AsmHookExecuteBehavior::ExecuteAfter)
        } else if str_eq_lit(value, "DoNotExecuteOriginal") {
            Ok(AsmHookExecuteBehavior::DoNotExecuteOriginal)
        } else {
            Err(())
        }
    }

    /// The behavior's name, as the host's hooking library spells it.
    pub fn as_str(&self) -> (r: &'static str)
        ensures
            r@ == (match *self {
                AsmHookExecuteBehavior::ExecuteFirst => "ExecuteFirst"@,
                AsmHookExecuteBehavior::ExecuteAfter => "ExecuteAfter"@,
                AsmHookExecuteBehavior::DoNotExecuteOriginal => "DoNotExecuteOriginal"@,
            }),
    {
        match self {
            AsmHookExecuteBehavior::ExecuteFirst => "ExecuteFirst",
            AsmHookExecuteBehavior::ExecuteAfter => "ExecuteAfter",
            AsmHookExecuteBehavior::DoNotExecuteOriginal => "DoNotExecuteOriginal",
        }
    }
}

/// The 64-bit general-purpose registers an inline hook may name.
#[allow(non_camel_case_types)]
#[derive(Debug, Copy, Clone, PartialEq, Eq, Structural)]
pub enum RegistersX86 {
    rax,
    rbx,
    rcx,
    rdx,
    rsi,
    rdi,
    rbp,
    rsp,
    r8,
    r9,
    r10,
    r11,
    r12,
    r13,
    r14,
    r15,
}

/// The register named by a string.
pub open spec fn spec_reg_from(s: Seq<char>) -> Result<RegistersX86, ()> {
    if s == "rax"@ {
        Ok(RegistersX86::rax)
    } else if s == "rbx"@ {
        Ok(RegistersX86::rbx)
    } else if s == "rcx"@ {
        Ok(RegistersX86::rcx)
    } else if s == "rdx"@ {
        Ok(RegistersX86::rdx)
    } else if s == "rsi"@ {
        Ok(RegistersX86::rsi)
    } else if s == "rdi"@ {
        Ok(RegistersX86::rdi)
    } else if s == "rbp"@ {
        Ok(RegistersX86::rbp)
    } else if s == "rsp"@ {
        Ok(RegistersX86::rsp)
    } else if s == "r8"@ {
        Ok(RegistersX86::r8)
    } else if s == "r9"@ {
        Ok(RegistersX86::r9)
    } else if s == "r10"@ {
        Ok(RegistersX86::r10)
    } else if s == "r11"@ {
        Ok(RegistersX86::r11)
    } else if s == "r12"@ {
        Ok(RegistersX86::r12)
    } else if s == "r13"@ {
        Ok(RegistersX86::r13)
    } else if s == "r14"@ {
        Ok(RegistersX86::r14)
    } else if s == "r15"@ {
        Ok(RegistersX86::r15)
    } else {
        Err(())
    }
}

impl RegistersX86 {
    pub fn try_from(value: &str) -> (r: Result<RegistersX86, ()>)
        ensures
            r == spec_reg_from(value@),
    {
        if str_eq_lit(value, "rax") {
            Ok(RegistersX86::rax)
        } else if str_eq_lit(value, "rbx") {
            Ok(RegistersX86::rbx)
        } else if str_eq_lit(value, "rcx") {
            Ok(RegistersX86::rcx)
        } else if str_eq_lit(value, "rdx") {
            Ok(RegistersX86::rdx)
        } else if str_eq_lit(value, "rsi") {
            Ok(RegistersX86::rsi)
        } else if str_eq_lit(value, "rdi") {
            Ok(RegistersX86::rdi)
        } else if str_eq_lit(value, "rbp") {
            Ok(RegistersX86::rbp)
        } else if str_eq_lit(value, "rsp") {
            Ok(RegistersX86::rsp)
        } else if str_eq_lit(value, "r8") {
            Ok(RegistersX86::r8)
        } else if str_eq_lit(value, "r9") {
            Ok(RegistersX86::r9)
        } else if str_eq_lit(value, "r10") {
            Ok(RegistersX86::r10)
        } else if str_eq_lit(value, "r11") {
            Ok(RegistersX86::r11)
        } else if str_eq_lit(value, "r12") {
            Ok(RegistersX86::r12)
        } else if str_eq_lit(value, "r13") {
            Ok(RegistersX86::r13)
        } else if str_eq_lit(value, "r14") {
            Ok(RegistersX86::r14)
        } else if str_eq_lit(value, "r15") {
            Ok(RegistersX86::r15)
        } else {
            Err(())
        }
    }
}


/// One positional field of an assembly-hook entry: a bare name, a bracketed
/// list of names, a boolean literal, or a string literal.
#[derive(Debug)]
pub enum AsmField {
    Ident(String),
    List(Vec<String>),
    Flag(bool),
    Text(String),
}

/// An assembly-hook entry as plain values. The register list carries the
/// parameter registers with the return register appended last.
pub struct AsmDataModel {
    pub execute_mode: AsmHookExecuteBehavior,
    pub registers: Seq<RegistersX86>,
    pub callee_saved_registers: Seq<RegistersX86>,
    pub allocate_shadow_space: bool,
    pub asm_insert_before: Option<Seq<char>>,
    pub asm_insert_after: Option<Seq<char>>,
}

/// The registers named by a list of strings, in order.
pub open spec fn spec_regs_from(names: Seq<String>) -> Result<Seq<RegistersX86>, HookParseError>
    decreases names.len(),
{
    if names.len() == 0 {
        Ok(Seq::empty())
    } else {
        match spec_reg_from(names[0]@) {
            Err(_) => Err(HookParseError::UnknownRegister),
            Ok(r) => match spec_regs_from(names.drop_first()) {
                Err(e) => Err(e),
                Ok(rest) => Ok(seq![r] + rest),
            },
        }
    }
}

/// The execute mode a field parses to: a bare name naming a behavior.
pub open spec fn spec_asm_execute(f: AsmField) -> Result<AsmHookExecuteBehavior, HookParseError> {
    match f {
        AsmField::Ident(s) => match spec_behavior_from(s@) {
            Ok(b) => Ok(b),
            Err(_) => Err(HookParseError::UnknownExecuteMethod),
        },
        _ => Err(HookParseError::InvalidAsmField),
    }
}

/// A register list field.
pub open spec fn spec_asm_reg_list(f: AsmField) -> Result<Seq<RegistersX86>, HookParseError> {
    match f {
        AsmField::List(names) => spec_regs_from(names@),
        _ => Err(HookParseError::InvalidAsmField),
    }
}

/// The return-register field: a bare register name.
pub open spec fn spec_asm_ret_reg(f: AsmField) -> Result<RegistersX86, HookParseError> {
    match f {
        AsmField::Ident(s) => match spec_reg_from(s@) {
            Ok(r) => Ok(r),
            Err(_) => Err(HookParseError::UnknownRegister),
        },
        _ => Err(HookParseError::InvalidAsmField),
    }
}

/// The shadow-space field: a boolean literal.
pub open spec fn spec_asm_flag(f: AsmField) -> Result<bool, HookParseError> {
    match f {
        AsmField::Flag(b) => Ok(b),
        _ => Err(HookParseError::ShadowSpaceNotBool),
    }
}

/// An inline-assembly field: a string, or the bare name None for absence.
pub open spec fn spec_asm_text(f: AsmField) -> Result<Option<Seq<char>>, HookParseError> {
    match f {
        AsmField::Text(s) => Ok(Some(s@)),
        AsmField::Ident(s) => if s@ == "None"@ {
            Ok(None)
        } else {
            Err(HookParseError::AsmNotStringOrNone)
        },
        _ => Err(HookParseError::AsmNotStringOrNone),
    }
}

/// The assembly entry a field list parses to: execute mode, parameter
/// registers, return register, then optionally callee-saved registers, the
/// shadow-space flag and the two inline-assembly inserts.
pub open spec fn spec_parse_asm(fields: Seq<AsmField>) -> Result<AsmDataModel, HookParseError> {
    if fields.len() < 3 {
        Err(HookParseError::MissingAsmParameters)
    } else if fields.len() > 7 {
        Err(HookParseError::TooManyAsmParameters)
    } else {
        match spec_asm_execute(fields[0]) {
            Err(e) => Err(e),
            Ok(em) => match spec_asm_reg_list(fields[1]) {
                Err(e) => Err(e),
                Ok(regs) => match spec_asm_ret_reg(fields[2]) {
                    Err(e) => Err(e),
                    Ok(rr) => match (if fields.len() > 3 {
                        spec_asm_reg_list(fields[3])
                    } else {
                        Ok(Seq::empty())
                    }) {
                        Err(e) => Err(e),
                        Ok(saved) => match (if fields.len() > 4 {
                            spec_asm_flag(fields[4])
                        } else {
                            Ok(false)
                        }) {
                            Err(e) => Err(e),
                            Ok(shadow) => match (if fields.len() > 5 {
                                spec_asm_text(fields[5])
                            } else {
                                Ok(None)
                            }) {
                                Err(e) => Err(e),
                                Ok(before) => match (if fields.len() > 6 {
                                    spec_asm_text(fields[6])
                                } else {
                                    Ok(None)
                                }) {
                                    Err(e) => Err(e),
                                    Ok(after) => Ok(
                                        AsmDataModel {
                                            execute_mode: em,
                                            registers: regs.push(rr),
                                            callee_saved_registers: saved,
                                            allocate_shadow_space: shadow,
                                            asm_insert_before: before,
                                            asm_insert_after: after,
                                        },
                                    ),
                                },
                            },
                        },
                    },
                },
            },
        }
    }
}

/// One arm's worth of assembly-hook data: how the injected code runs, which
/// registers it touches, and the raw instruction text around the call.
#[derive(Debug)]
pub struct AssemblyFunctionHookData {
    pub execute_mode: AsmHookExecuteBehavior,
    pub registers: Vec<RegistersX86>,
    pub callee_saved_registers: Vec<RegistersX86>,
    pub allocate_shadow_space: bool,
    pub asm_insert_before: Option<String>,
    pub asm_insert_after: Option<String>,
}

/// An assembly entry's plain-value form.
pub open spec fn asm_model_of(d: AssemblyFunctionHookData) -> AsmDataModel {
    AsmDataModel {
        execute_mode: d.execute_mode,
        registers: d.registers@,
        callee_saved_registers: d.callee_saved_registers@,
        allocate_shadow_space: d.allocate_shadow_space,
        asm_insert_before: match d.asm_insert_before {
            Some(s) => Some(s@),
            None => None,
        },
        asm_insert_after: match d.asm_insert_after {
            Some(s) => Some(s@),
            None => None,
        },
    }
}

fn regs_from(names: &Vec<String>, i: usize) -> (r: Result<Vec<RegistersX86>, HookParseError>)
    requires
        i <= names@.len(),
    ensures
        match r {
            Ok(v) => spec_regs_from(names@.skip(i as int)) == Ok::<
                Seq<RegistersX86>,
                HookParseError,
            >(v@),
            Err(e) => spec_regs_from(names@.skip(i as int)) == Err::<
                Seq<RegistersX86>,
                HookParseError,
            >(e),
        },
    decreases names@.len() - i,
{
    if i >= names.len() {
        proof {
            assert(names@.skip(i as int) =~= Seq::<String>::empty());
        }
        let v: Vec<RegistersX86> = Vec::new();
        Ok(v)
    } else {
        proof {
            assert(names@.skip(i as int)[0] == names@[i as int]);
            assert(names@.skip(i as int).drop_first() =~= names@.skip(i + 1));
        }
        match RegistersX86::try_from(names[i].as_str()) {
            Err(_) => Err(HookParseError::UnknownRegister),
            Ok(reg) => match regs_from(names, i + 1) {
                Err(e) => Err(e),
                Ok(mut v) => {
                    let ghost rest = v@;
                    v.insert(0, reg);
                    proof {
                        assert(v@ =~= seq![reg] + rest);
                    }
                    Ok(v)
                },
            },
        }
    }
}

fn asm_reg_list(f: &AsmField) -> (r: Result<Vec<RegistersX86>, HookParseError>)
    ensures
        match r {
            Ok(v) => spec_asm_reg_list(*f) == Ok::<Seq<RegistersX86>, HookParseError>(v@),
            Err(e) => spec_asm_reg_list(*f) == Err::<Seq<RegistersX86>, HookParseError>(e),
        },
{
    match f {
        AsmField::List(names) => {
            proof {
                assert(names@.skip(0) =~= names@);
            }
            regs_from(names, 0)
        },
        _ => Err(HookParseError::InvalidAsmField),
    }
}

fn asm_text(f: &AsmField) -> (r: Result<Option<String>, HookParseError>)
    ensures
        match r {
            Ok(o) => spec_asm_text(*f) == Ok::<Option<Seq<char>>, HookParseError>(
                match o {
                    Some(s) => Some(s@),
                    None => None,
                },
            ),
            Err(e) => spec_asm_text(*f) == Err::<Option<Seq<char>>, HookParseError>(e),
        },
{
    match f {
        AsmField::Text(s) => Ok(Some(s.clone())),
        AsmField::Ident(s) => {
            if str_eq_lit(s.as_str(), "None") {
                Ok(None)
            } else {
                Err(HookParseError::AsmNotStringOrNone)
            }
        },
        _ => Err(HookParseError::AsmNotStringOrNone),
    }
}

impl AssemblyFunctionHookData {
    /// Parses one assembly entry from its positional fields.
    pub fn parse(fields: &Vec<AsmField>) -> (r: Result<AssemblyFunctionHookData, HookParseError>)
        ensures
            match r {
                Ok(d) => spec_parse_asm(fields@) == Ok::<AsmDataModel, HookParseError>(
                    asm_model_of(d),
                ),
                Err(e) => spec_parse_asm(fields@) == Err::<AsmDataModel, HookParseError>(e),
            },
    {
        if fields.len() < 3 {
            return Err(HookParseError::MissingAsmParameters);
        }
        if fields.len() > 7 {
            return Err(HookParseError::TooManyAsmParameters);
        }
        let execute_mode = match &fields[0] {
            AsmField::Ident(s) => match AsmHookExecuteBehavior::try_from(s.as_str()) {
                Ok(b) => b,
                Err(_) => {
                    return Err(HookParseError::UnknownExecuteMethod);
                },
            },
            _ => {
                return Err(HookParseError::InvalidAsmField);
            },
        };
        let mut registers = match asm_reg_list(&fields[1]) {
            Ok(v) => v,
            Err(e) => {
                return Err(e);
            },
        };
        let ret_reg = match &fields[2] {
            AsmField::Ident(s) => match RegistersX86::try_from(s.as_str()) {
                Ok(b) => b,
                Err(_) => {
                    return Err(HookParseError::UnknownRegister);
                },
            },
            _ => {
                return Err(HookParseError::InvalidAsmField);
            },
        };
        registers.push(ret_reg);
        let callee_saved_registers = if fields.len() > 3 {
            match asm_reg_list(&fields[3]) {
                Ok(v) => v,
                Err(e) => {
                    return Err(e);
                },
            }
        } else {
            Vec::new()
        };
        let allocate_shadow_space = if fields.len() > 4 {
            match &fields[4] {
                AsmField::Flag(b) => *b,
                _ => {
                    return Err(HookParseError::ShadowSpaceNotBool);
                },
            }
        } else {
            false
        };
        let asm_insert_before = if fields.len() > 5 {
            match asm_text(&fields[5]) {
                Ok(o) => o,
                Err(e) => {
                    return Err(e);
                },
            }
        } else {
            None
        };
        let asm_insert_after = if fields.len() > 6 {
            match asm_text(&fields[6]) {
                Ok(o) => o,
                Err(e) => {
                    return Err(e);
                },
            }
        } else {
            None
        };
        let d = AssemblyFunctionHookData {
            execute_mode,
            registers,
            callee_saved_registers,
            allocate_shadow_space,
            asm_insert_before,
            asm_insert_after,
        };
        Ok(d)
    }
}

/// The arguments of a class-methods annotation: an optional path prefix and
/// an optional destructor slot index.
#[derive(Debug)]
pub struct CppClassMethods {
    pub path: Option<String>,
    pub auto_drop: Option<u64>,
}

/// The class-methods state folded over the call's arguments.
pub struct CppClassMethodsState {
    pub path: Option<Seq<char>>,
    pub auto_drop: Option<u64>,
}

/// One argument folded into the class-methods state.
pub open spec fn spec_cpp_step(st: CppClassMethodsState, arg: DescriptorArg) -> Result<
    CppClassMethodsState,
    HookParseError,
> {
    match arg {
        DescriptorArg::Plain(_) => Err(HookParseError::ParametersShouldBeAssignments),
        DescriptorArg::Assign { name, value } => {
            if name@ == "path"@ {
                if st.path is Some {
                    Err(HookParseError::DuplicateParameter)
                } else {
                    match value {
                        DescriptorValue::Text(s) => Ok(CppClassMethodsState { path: Some(s@), ..st }),
                        _ => Err(HookParseError::InvalidPathAssignment),
                    }
                }
            } else if name@ == "auto_drop"@ {
                if st.auto_drop is Some {
                    Err(HookParseError::DuplicateParameter)
                } else {
                    match value {
                        DescriptorValue::Number(v) => Ok(
                            CppClassMethodsState { auto_drop: Some(v), ..st },
                        ),
                        _ => Err(HookParseError::InvalidAutoDropAssignment),
                    }
                }
            } else {
                Err(HookParseError::UnimplementedArgument)
            }
        },
    }
}

/// The arguments of a class-methods call folded left to right.
pub open spec fn spec_cpp_fold(args: Seq<DescriptorArg>, st: CppClassMethodsState) -> Result<
    CppClassMethodsState,
    HookParseError,
>
    decreases args.len(),
{
    if args.len() == 0 {
        Ok(st)
    } else {
        match spec_cpp_step(st, args[0]) {
            Err(e) => Err(e),
            Ok(st2) => spec_cpp_fold(args.drop_first(), st2),
        }
    }
}

impl CppClassMethods {
    /// Parses the class-methods annotation's arguments.
    pub fn parse(call: &DescriptorCall) -> (r: Result<CppClassMethods, HookParseError>)
        ensures
            match r {
                Ok(c) => spec_cpp_fold(
                    call.args@,
                    CppClassMethodsState { path: None, auto_drop: None },
                ) == Ok::<CppClassMethodsState, HookParseError>(
                    CppClassMethodsState {
                        path: match c.path {
                            Some(s) => Some(s@),
                            None => None,
                        },
                        auto_drop: c.auto_drop,
                    },
                ),
                Err(e) => spec_cpp_fold(
                    call.args@,
                    CppClassMethodsState { path: None, auto_drop: None },
                ) == Err::<CppClassMethodsState, HookParseError>(e),
            },
    {
        let mut path: Option<String> = None;
        let mut auto_drop: Option<u64> = None;
        let mut i: usize = 0;
        proof {
            assert(call.args@.skip(0) =~= call.args@);
        }
        while i < call.args.len()
            invariant
                i <= call.args@.len(),
                spec_cpp_fold(
                    call.args@,
                    CppClassMethodsState {
                        path: None::<Seq<char>>,
                        auto_drop: None::<u64>,
                    },
                ) == spec_cpp_fold(
                    call.args@.skip(i as int),
                    CppClassMethodsState {
                        path: view_opt_str(path),
                        auto_drop: auto_drop,
                    },
                ),
            decreases call.args@.len() - i,
        {
            proof {
                assert(call.args@.skip(i as int)[0] == call.args@[i as int]);
                assert(call.args@.skip(i as int).drop_first() =~= call.args@.skip(i + 1));
            }
            match &call.args[i] {
                DescriptorArg::Plain(_) => {
                    return Err(HookParseError::ParametersShouldBeAssignments);
                },
                DescriptorArg::Assign { name, value } => {
                    if str_eq_lit(name.as_str(), "path") {
                        if path.is_some() {
                            return Err(HookParseError::DuplicateParameter);
                        }
                        match value {
                            DescriptorValue::Text(s) => {
                                path = Some(s.clone());
                            },
                            _ => {
                                return Err(HookParseError::InvalidPathAssignment);
                            },
                        }
                    } else if str_eq_lit(name.as_str(), "auto_drop") {
                        if auto_drop.is_some() {
                            return Err(HookParseError::DuplicateParameter);
                        }
                        match value {
                            DescriptorValue::Number(v) => {
                                auto_drop = Some(*v);
                            },
                            _ => {
                                return Err(HookParseError::InvalidAutoDropAssignment);
                            },
                        }
                    } else {
                        return Err(HookParseError::UnimplementedArgument);
                    }
                },
            }
            i = i + 1;
        }
        proof {
            assert(call.args@.skip(call.args@.len() as int) =~= Seq::<DescriptorArg>::empty());
        }
        Ok(CppClassMethods { path, auto_drop })
    }
}

} // verus!
