//! The native-side compiler stage: for each hooked item it emits the
//! write-once original-function slot, the one-shot setter the host calls to
//! publish the resolved pointer, and the hook body with every internal
//! call-original expression rewritten to an indirect call through the slot.
use crate::hook_parse::str_eq_lit;
use crate::vtable::push_char;
use vstd::prelude::*;

verus! {

/// The character with a letter's upper-case code: ASCII lower-case letters
/// move down by the case distance, everything else stays.
pub open spec fn spec_upper_char(c: char) -> char {
    if 97 <= c as u32 && c as u32 <= 122 {
        ((c as u32) - 32) as char
    } else {
        c
    }
}

/// A string with every ASCII letter upper-cased.
pub open spec fn spec_ascii_upper(s: Seq<char>) -> Seq<char> {
    Seq::new(s.len(), |i: int| spec_upper_char(s[i]))
}

/// Upper-cases the ASCII letters of a string, as global names are spelled.
pub fn ascii_uppercase(s: &str) -> (r: String)
    ensures
        r@ == spec_ascii_upper(s@),
{
    let n = s.unicode_len();
    let mut out = String::new();
    let mut i: usize = 0;
    while i < n
        invariant
            i <= n,
            n == s@.len(),
            out@ == spec_ascii_upper(s@).take(i as int),
        decreases n - i,
    {
        let c = s.get_char(i);
        let v = c as u32;
        let u: char = if v >= 97 && v <= 122 {
            ((v - 32) as u8) as char
        } else {
            c
        };
        proof {
            assert(u == spec_upper_char(s@[i as int]));
        }
        push_char(&mut out, u);
        proof {
            assert(out@ =~= spec_ascii_upper(s@).take(i + 1));
        }
        i = i + 1;
    }
    proof {
        assert(spec_ascii_upper(s@).take(n as int) =~= spec_ascii_upper(s@));
    }
    out
}

/// The name of a hooked item's one-shot setter entry point.
pub fn make_hook_set_string(s: &str) -> (r: String)
    ensures
        r@ == "__HOOK_SET_"@ + s@,
{
    let mut out = "__HOOK_SET_".to_owned();
    out.append(s);
    out
}

/// The name of a hooked function's original-pointer slot.
pub fn make_hook_og_fn_string(s: &str) -> (r: String)
    ensures
        r@ == "__HOOK_OGFN_"@ + s@,
{
    let mut out = "__HOOK_OGFN_".to_owned();
    out.append(s);
    out
}

/// The name of a hooked class's dispatch-table pointer slot.
pub fn make_vtbl_ptr_string(s: &str) -> (r: String)
    ensures
        r@ == "__VTBL_PTR_"@ + s@,
{
    let mut out = "__VTBL_PTR_".to_owned();
    out.append(s);
    out
}

/// The name of the host-side callback object for a user-deferred hook.
pub fn make_user_cb_string(s: &str) -> (r: String)
    ensures
        r@ == "__HOOK_USER_CB_"@ + s@,
{
    let mut out = "__HOOK_USER_CB_".to_owned();
    out.append(s);
    out
}

/// The name of the late-binding setter for a user-deferred hook.
pub fn make_user_set_string(s: &str) -> (r: String)
    ensures
        r@ == "__HOOK_USER_SET_"@ + s@,
{
    let mut out = "__HOOK_USER_SET_".to_owned();
    out.append(s);
    out
}

/// Why code generation refused a declaration, before any output was
/// produced.
#[derive(Debug, Clone, Copy, PartialEq, Eq, Structural)]
pub enum CodegenError {
    /// Hookable functions cannot carry generic type or lifetime arguments.
    GenericsNotSupported,
    /// Hookable functions must be declared with the C ABI.
    MissingCAbi,
    /// Hookable functions cannot take a receiver argument.
    ReceiverNotSupported,
    /// The field type is neither a name nor a pointer.
    UnsupportedFieldType,
    /// A hooked class must have named fields.
    NamedFieldsRequired,
}

/// A type as the hooked declarations spell it: a plain name, a pointer, or
/// a sized array.
#[derive(Debug)]
pub enum TypeTree {
    Name(String),
    ConstPtr(Box<TypeTree>),
    MutPtr(Box<TypeTree>),
    Array(Box<TypeTree>, u64),
}

/// The source text of a type.
pub open spec fn spec_type_text(t: TypeTree) -> Seq<char>
    decreases t,
{
    match t {
        TypeTree::Name(s) => s@,
        TypeTree::ConstPtr(inner) => "*const "@ + spec_type_text(*inner),
        TypeTree::MutPtr(inner) => "*mut "@ + spec_type_text(*inner),
        TypeTree::Array(inner, n) => "["@ + spec_type_text(*inner) + "; "@ + spec_u64_text(n)
            + "]"@,
    }
}

/// The decimal digits of a number, most significant first.
pub open spec fn spec_u64_text(n: u64) -> Seq<char>
    decreases n,
{
    if n < 10 {
        seq![((n + 48) as u8) as char]
    } else {
        spec_u64_text(n / 10) + seq![((n % 10 + 48) as u8) as char]
    }
}

/// Renders a number in decimal.
pub fn u64_text(n: u64) -> (r: String)
    ensures
        r@ == spec_u64_text(n),
    decreases n,
{
    let digit: u8 = (n % 10) as u8 + 48;
    if n < 10 {
        let mut out = String::new();
        push_char(&mut out, digit as char);
        proof {
            assert(out@ =~= spec_u64_text(n));
        }
        out
    } else {
        let mut out = u64_text(n / 10);
        push_char(&mut out, digit as char);
        proof {
            assert(out@ =~= spec_u64_text(n));
        }
        out
    }
}

/// Renders a type's source text.
pub fn type_text(t: &TypeTree) -> (r: String)
    ensures
        r@ == spec_type_text(*t),
    decreases t,
{
    match t {
        TypeTree::Name(s) => s.clone(),
        TypeTree::ConstPtr(inner) => {
            let mut out = "*const ".to_owned();
            let it = type_text(inner);
            out.append(it.as_str());
            out
        },
        TypeTree::MutPtr(inner) => {
            let mut out = "*mut ".to_owned();
            let it = type_text(inner);
            out.append(it.as_str());
            out
        },
        TypeTree::Array(inner, n) => {
            let mut out = "[".to_owned();
            let it = type_text(inner);
            out.append(it.as_str());
            out.append("; ");
            let nt = u64_text(*n);
            out.append(nt.as_str());
            out.append("]");
            out
        },
    }
}

/// The type text a hooked global may use: a name or a pointer; anything
/// else is refused before code generation begins.
pub open spec fn spec_get_type_name(t: TypeTree) -> Result<Seq<char>, CodegenError>
    decreases t,
{
    match t {
        TypeTree::Name(s) => Ok(s@),
        TypeTree::ConstPtr(inner) => match spec_get_type_name(*inner) {
            Ok(s) => Ok("*const "@ + s),
            Err(e) => Err(e),
        },
        TypeTree::MutPtr(inner) => match spec_get_type_name(*inner) {
            Ok(s) => Ok("*mut "@ + s),
            Err(e) => Err(e),
        },
        TypeTree::Array(_, _) => Err(CodegenError::UnsupportedFieldType),
    }
}

/// Renders the type of a hooked global, refusing shapes the host binding
/// cannot carry.
pub fn get_type_name(t: &TypeTree) -> (r: Result<String, CodegenError>)
    ensures
        match r {
            Ok(s) => spec_get_type_name(*t) == Ok::<Seq<char>, CodegenError>(s@),
            Err(e) => spec_get_type_name(*t) == Err::<Seq<char>, CodegenError>(e),
        },
    decreases t,
{
    match t {
        TypeTree::Name(s) => Ok(s.clone()),
        TypeTree::ConstPtr(inner) => match get_type_name(inner) {
            Ok(s) => {
                let mut out = "*const ".to_owned();
                out.append(s.as_str());
                Ok(out)
            },
            Err(e) => Err(e),
        },
        TypeTree::MutPtr(inner) => match get_type_name(inner) {
            Ok(s) => {
                let mut out = "*mut ".to_owned();
                out.append(s.as_str());
                Ok(out)
            },
            Err(e) => Err(e),
        },
        TypeTree::Array(_, _) => Err(CodegenError::UnsupportedFieldType),
    }
}

/// One expression of a hook body, as far as the rewriter needs to see it: a
/// macro invocation may be the call-original marker, compound expressions
/// carry their rewritable parts, and anything else is opaque text.
#[derive(Debug)]
pub enum HookExpr {
    /// `name!(args)`, with the argument tokens kept as text.
    MacroCall { name: String, args: String },
    /// An indirect call through the original-function slot, the rewritten
    /// form of the call-original marker.
    IndirectCall { slot: String, args: String },
    Block(Vec<HookStmt>),
    UnsafeBlock(Vec<HookStmt>),
    Binary(Box<HookExpr>, Box<HookExpr>),
    Cast(Box<HookExpr>),
    Paren(Box<HookExpr>),
    Tuple(Vec<HookExpr>),
    Unary(Box<HookExpr>),
    RawAddr(Box<HookExpr>),
    Reference(Box<HookExpr>),
    IfExpr { cond: Box<HookExpr>, then_body: Vec<HookStmt>, else_body: Option<Box<HookExpr>> },
    ForLoop { iter: Box<HookExpr>, body: Vec<HookStmt> },
    LoopExpr(Vec<HookStmt>),
    WhileLoop { cond: Box<HookExpr>, body: Vec<HookStmt> },
    Call { callee: String, args: Vec<HookExpr> },
    MethodCall { method: String, args: Vec<HookExpr> },
    MatchExpr { scrutinee: Box<HookExpr>, arms: Vec<HookMatchArm> },
    Opaque(String),
}

/// One arm of a match inside a hook body.
#[derive(Debug)]
pub struct HookMatchArm {
    pub guard: Option<Box<HookExpr>>,
    pub body: Box<HookExpr>,
}

/// One statement of a hook body.
#[derive(Debug)]
pub enum HookStmt {
    Local { init: Option<Box<HookExpr>>, diverge: Option<Box<HookExpr>> },
    Expr(Box<HookExpr>),
    Opaque(String),
}

/// Relates a hook-body expression to its rewritten form: every macro
/// invocation of the call-original marker becomes an indirect call through
/// the named slot, and everything else is kept, its rewritable parts
/// related recursively.
pub open spec fn spec_rewritten_expr(a: HookExpr, b: HookExpr, slot: Seq<char>) -> bool
    decreases a,
{
    match a {
        HookExpr::MacroCall { name, args } => if name@ == "original_function"@ {
            match b {
                HookExpr::IndirectCall { slot: s2, args: a2 } => s2@ == slot && a2 == args,
                _ => false,
            }
        } else {
            b == HookExpr::MacroCall { name, args }
        },
        HookExpr::IndirectCall { slot: s0, args } => b == HookExpr::IndirectCall {
            slot: s0,
            args,
        },
        HookExpr::Block(ss) => match b {
            HookExpr::Block(ts) => spec_rewritten_stmts(ss@, ts@, slot),
            _ => false,
        },
        HookExpr::UnsafeBlock(ss) => match b {
            HookExpr::UnsafeBlock(ts) => spec_rewritten_stmts(ss@, ts@, slot),
            _ => false,
        },
        HookExpr::Binary(l, r) => match b {
            HookExpr::Binary(l2, r2) => spec_rewritten_expr(*l, *l2, slot) && spec_rewritten_expr(
                *r,
                *r2,
                slot,
            ),
            _ => false,
        },
        HookExpr::Cast(x) => match b {
            HookExpr::Cast(y) => spec_rewritten_expr(*x, *y, slot),
            _ => false,
        },
        HookExpr::Paren(x) => match b {
            HookExpr::Paren(y) => spec_rewritten_expr(*x, *y, slot),
            _ => false,
        },
        HookExpr::Tuple(xs) => match b {
            HookExpr::Tuple(ys) => spec_rewritten_exprs(xs@, ys@, slot),
            _ => false,
        },
        HookExpr::Unary(x) => match b {
            HookExpr::Unary(y) => spec_rewritten_expr(*x, *y, slot),
            _ => false,
        },
        HookExpr::RawAddr(x) => match b {
            HookExpr::RawAddr(y) => spec_rewritten_expr(*x, *y, slot),
            _ => false,
        },
        HookExpr::Reference(x) => match b {
            HookExpr::Reference(y) => spec_rewritten_expr(*x, *y, slot),
            _ => false,
        },
        HookExpr::IfExpr { cond, then_body, else_body } => match b {
            HookExpr::IfExpr { cond: c2, then_body: t2, else_body: e2 } => {
                &&& spec_rewritten_expr(*cond, *c2, slot)
                &&& spec_rewritten_stmts(then_body@, t2@, slot)
                &&& (match (else_body, e2) {
                    (Some(x), Some(y)) => spec_rewritten_expr(*x, *y, slot),
                    (None, None) => true,
                    _ => false,
                })
            },
            _ => false,
        },
        HookExpr::ForLoop { iter, body } => match b {
            HookExpr::ForLoop { iter: i2, body: b2 } => spec_rewritten_expr(*iter, *i2, slot)
                && spec_rewritten_stmts(body@, b2@, slot),
            _ => false,
        },
        HookExpr::LoopExpr(body) => match b {
            HookExpr::LoopExpr(b2) => spec_rewritten_stmts(body@, b2@, slot),
            _ => false,
        },
        HookExpr::WhileLoop { cond, body } => match b {
            HookExpr::WhileLoop { cond: c2, body: b2 } => spec_rewritten_expr(*cond, *c2, slot)
                && spec_rewritten_stmts(body@, b2@, slot),
            _ => false,
        },
        HookExpr::Call { callee, args } => match b {
            HookExpr::Call { callee: c2, args: a2 } => c2 == callee && spec_rewritten_exprs(
                args@,
                a2@,
                slot,
            ),
            _ => false,
        },
        HookExpr::MethodCall { method, args } => match b {
            HookExpr::MethodCall { method: m2, args: a2 } => m2 == method && spec_rewritten_exprs(
                args@,
                a2@,
                slot,
            ),
            _ => false,
        },
        HookExpr::MatchExpr { scrutinee, arms } => match b {
            HookExpr::MatchExpr { scrutinee: s2, arms: a2 } => spec_rewritten_expr(
                *scrutinee,
                *s2,
                slot,
            ) && spec_rewritten_arms(arms@, a2@, slot),
            _ => false,
        },
        HookExpr::Opaque(s0) => b == HookExpr::Opaque(s0),
    }
}

/// Relates two expression lists element for element.
pub open spec fn spec_rewritten_exprs(a: Seq<HookExpr>, b: Seq<HookExpr>, slot: Seq<char>) -> bool
    decreases a,
{
    a.len() == b.len() && (forall|i: int|
        0 <= i < a.len() ==> spec_rewritten_expr(#[trigger] a[i], b[i], slot))
}

/// Relates two statement lists element for element.
pub open spec fn spec_rewritten_stmts(a: Seq<HookStmt>, b: Seq<HookStmt>, slot: Seq<char>) -> bool
    decreases a,
{
    a.len() == b.len() && (forall|i: int|
        0 <= i < a.len() ==> spec_rewritten_stmt(#[trigger] a[i], b[i], slot))
}

/// Relates two match-arm lists element for element.
pub open spec fn spec_rewritten_arms(a: Seq<HookMatchArm>, b: Seq<HookMatchArm>, slot: Seq<char>) -> bool
    decreases a,
{
    a.len() == b.len() && (forall|i: int|
        0 <= i < a.len() ==> spec_rewritten_arm(#[trigger] a[i], b[i], slot))
}

/// Relates a match arm to its rewritten form: the guard, if any, and the
/// body are rewritten.
pub open spec fn spec_rewritten_arm(a: HookMatchArm, b: HookMatchArm, slot: Seq<char>) -> bool
    decreases a,
{
    &&& (match (a.guard, b.guard) {
        (Some(x), Some(y)) => spec_rewritten_expr(*x, *y, slot),
        (None, None) => true,
        _ => false,
    })
    &&& spec_rewritten_expr(*a.body, *b.body, slot)
}

/// Relates a statement to its rewritten form: initializer and diverging
/// alternative are rewritten, other statements are kept.
pub open spec fn spec_rewritten_stmt(a: HookStmt, b: HookStmt, slot: Seq<char>) -> bool
    decreases a,
{
    match a {
        HookStmt::Local { init, diverge } => match b {
            HookStmt::Local { init: i2, diverge: d2 } => {
                &&& (match (init, i2) {
                    (Some(x), Some(y)) => spec_rewritten_expr(*x, *y, slot),
                    (None, None) => true,
                    _ => false,
                })
                &&& (match (diverge, d2) {
                    (Some(x), Some(y)) => spec_rewritten_expr(*x, *y, slot),
                    (None, None) => true,
                    _ => false,
                })
            },
            _ => false,
        },
        HookStmt::Expr(x) => match b {
            HookStmt::Expr(y) => spec_rewritten_expr(*x, *y, slot),
            _ => false,
        },
        HookStmt::Opaque(s0) => b == HookStmt::Opaque(s0),
    }
}


/// Rewrites one expression: the call-original marker becomes an indirect
/// call through the slot.
pub fn rewrite_expr(e: HookExpr, slot: &String) -> (r: HookExpr)
    ensures
        spec_rewritten_expr(e, r, slot@),
    decreases e,
{
    match e {
        HookExpr::MacroCall { name, args } => {
            if str_eq_lit(name.as_str(), "original_function") {
                HookExpr::IndirectCall { slot: slot.clone(), args }
            } else {
                HookExpr::MacroCall { name, args }
            }
        },
        HookExpr::IndirectCall { slot: s0, args } => HookExpr::IndirectCall { slot: s0, args },
        HookExpr::Block(ss) => HookExpr::Block(rewrite_stmts(ss, slot)),
        HookExpr::UnsafeBlock(ss) => HookExpr::UnsafeBlock(rewrite_stmts(ss, slot)),
        HookExpr::Binary(l, r) => HookExpr::Binary(
            Box::new(rewrite_expr(*l, slot)),
            Box::new(rewrite_expr(*r, slot)),
        ),
        HookExpr::Cast(x) => HookExpr::Cast(Box::new(rewrite_expr(*x, slot))),
        HookExpr::Paren(x) => HookExpr::Paren(Box::new(rewrite_expr(*x, slot))),
        HookExpr::Tuple(xs) => HookExpr::Tuple(rewrite_exprs(xs, slot)),
        HookExpr::Unary(x) => HookExpr::Unary(Box::new(rewrite_expr(*x, slot))),
        HookExpr::RawAddr(x) => HookExpr::RawAddr(Box::new(rewrite_expr(*x, slot))),
        HookExpr::Reference(x) => HookExpr::Reference(Box::new(rewrite_expr(*x, slot))),
        HookExpr::IfExpr { cond, then_body, else_body } => HookExpr::IfExpr {
            cond: Box::new(rewrite_expr(*cond, slot)),
            then_body: rewrite_stmts(then_body, slot),
            else_body: match else_body {
                Some(x) => Some(Box::new(rewrite_expr(*x, slot))),
                None => None,
            },
        },
        HookExpr::ForLoop { iter, body } => HookExpr::ForLoop {
            iter: Box::new(rewrite_expr(*iter, slot)),
            body: rewrite_stmts(body, slot),
        },
        HookExpr::LoopExpr(body) => HookExpr::LoopExpr(rewrite_stmts(body, slot)),
        HookExpr::WhileLoop { cond, body } => HookExpr::WhileLoop {
            cond: Box::new(rewrite_expr(*cond, slot)),
            body: rewrite_stmts(body, slot),
        },
        HookExpr::Call { callee, args } => HookExpr::Call {
            callee,
            args: rewrite_exprs(args, slot),
        },
        HookExpr::MethodCall { method, args } => HookExpr::MethodCall {
            method,
            args: rewrite_exprs(args, slot),
        },
        HookExpr::MatchExpr { scrutinee, arms } => HookExpr::MatchExpr {
            scrutinee: Box::new(rewrite_expr(*scrutinee, slot)),
            arms: rewrite_arms(arms, slot),
        },
        HookExpr::Opaque(s0) => HookExpr::Opaque(s0),
    }
}

/// Rewrites a list of expressions in order.
pub fn rewrite_exprs(mut es: Vec<HookExpr>, slot: &String) -> (r: Vec<HookExpr>)
    ensures
        spec_rewritten_exprs(es@, r@, slot@),
    decreases es@,
{
    if es.len() == 0 {
        es
    } else {
        let ghost es0 = es@;
        let head = es.remove(0);
        let rh = rewrite_expr(head, slot);
        let mut rest = rewrite_exprs(es, slot);
        rest.insert(0, rh);
        proof {
            assert(forall|i: int|
                0 < i < es0.len() ==> #[trigger] es0[i] == es0.drop_first()[i - 1]);
        }
        rest
    }
}

/// Rewrites a statement list in order: this is the search over a hook body
/// for call-original invocations.
pub fn rewrite_stmts(mut ss: Vec<HookStmt>, slot: &String) -> (r: Vec<HookStmt>)
    ensures
        spec_rewritten_stmts(ss@, r@, slot@),
    decreases ss@,
{
    if ss.len() == 0 {
        ss
    } else {
        let ghost ss0 = ss@;
        let head = ss.remove(0);
        let rh = rewrite_stmt(head, slot);
        let mut rest = rewrite_stmts(ss, slot);
        rest.insert(0, rh);
        proof {
            assert(forall|i: int|
                0 < i < ss0.len() ==> #[trigger] ss0[i] == ss0.drop_first()[i - 1]);
        }
        rest
    }
}

/// Rewrites a list of match arms in order.
pub fn rewrite_arms(mut arms: Vec<HookMatchArm>, slot: &String) -> (r: Vec<HookMatchArm>)
    ensures
        spec_rewritten_arms(arms@, r@, slot@),
    decreases arms@,
{
    if arms.len() == 0 {
        arms
    } else {
        let ghost a0 = arms@;
        let head = arms.remove(0);
        let guard = match head.guard {
            Some(x) => Some(Box::new(rewrite_expr(*x, slot))),
            None => None,
        };
        let body = Box::new(rewrite_expr(*head.body, slot));
        let rh = HookMatchArm { guard, body };
        let mut rest = rewrite_arms(arms, slot);
        rest.insert(0, rh);
        proof {
            assert(forall|i: int|
                0 < i < a0.len() ==> #[trigger] a0[i] == a0.drop_first()[i - 1]);
        }
        rest
    }
}

/// Rewrites one statement.
pub fn rewrite_stmt(st: HookStmt, slot: &String) -> (r: HookStmt)
    ensures
        spec_rewritten_stmt(st, r, slot@),
    decreases st,
{
    match st {
        HookStmt::Local { init, diverge } => HookStmt::Local {
            init: match init {
                Some(x) => Some(Box::new(rewrite_expr(*x, slot))),
                None => None,
            },
            diverge: match diverge {
                Some(x) => Some(Box::new(rewrite_expr(*x, slot))),
                None => None,
            },
        },
        HookStmt::Expr(x) => HookStmt::Expr(Box::new(rewrite_expr(*x, slot))),
        HookStmt::Opaque(s0) => HookStmt::Opaque(s0),
    }
}


/// The comma-joined source texts of a parameter list.
pub open spec fn spec_join_types(ts: Seq<TypeTree>) -> Seq<char>
    decreases ts.len(),
{
    if ts.len() == 0 {
        Seq::empty()
    } else if ts.len() == 1 {
        spec_type_text(ts[0])
    } else {
        spec_type_text(ts[0]) + ", "@ + spec_join_types(ts.drop_first())
    }
}

fn join_types_from(ts: &Vec<TypeTree>, i: usize) -> (r: String)
    requires
        i <= ts@.len(),
    ensures
        r@ == spec_join_types(ts@.skip(i as int)),
    decreases ts@.len() - i,
{
    if i >= ts.len() {
        proof {
            assert(ts@.skip(i as int) =~= Seq::<TypeTree>::empty());
        }
        String::new()
    } else {
        proof {
            assert(ts@.skip(i as int)[0] == ts@[i as int]);
            assert(ts@.skip(i as int).drop_first() =~= ts@.skip(i + 1));
        }
        let mut out = type_text(&ts[i]);
        if i + 1 < ts.len() {
            out.append(", ");
            let rest = join_types_from(ts, i + 1);
            out.append(rest.as_str());
        } else {
            proof {
                assert(ts@.skip(i as int).len() == 1);
            }
        }
        out
    }
}

/// Renders a parameter list, comma separated.
pub fn join_types(ts: &Vec<TypeTree>) -> (r: String)
    ensures
        r@ == spec_join_types(ts@),
{
    proof {
        assert(ts@.skip(0) =~= ts@);
    }
    join_types_from(ts, 0)
}

/// The text of a one-shot setter entry point: the host calls it once to
/// publish a resolved value into the write-once slot.
pub open spec fn spec_setter_text(set_name: Seq<char>, ty: Seq<char>, hooked: Seq<char>) -> Seq<
    char,
> {
    "#[no_mangle]\n#[doc(hidden)]\npub unsafe extern \"C\" fn "@ + set_name + "(cb: "@ + ty
        + ") { let _ = "@ + hooked + ".set(cb); }\n"@
}

/// The declaration text of a write-once slot.
pub open spec fn spec_slot_decl_text(name: Seq<char>, ty: Seq<char>) -> Seq<char> {
    "#[doc(hidden)]\npub static "@ + name + ": ::std::sync::OnceLock<"@ + ty
        + "> = ::std::sync::OnceLock::new();\n"@
}

/// The declaration text of a hooked global's cell.
pub open spec fn spec_global_decl_text(name: Seq<char>, ty: Seq<char>) -> Seq<char> {
    "pub static "@ + name + ": ::std::sync::OnceLock<"@ + ty
        + "> = ::std::sync::OnceLock::new();\n"@
}

/// The signature of a function to be hooked, as plain values.
#[derive(Debug)]
pub struct HookFunctionSig {
    pub name: String,
    pub params: Vec<TypeTree>,
    pub ret: Option<TypeTree>,
    pub has_generics: bool,
    pub abi: Option<String>,
    pub has_receiver: bool,
}

/// The native fragment emitted for one hooked function: the slot, its
/// setter, the function-pointer type, and the rewritten body.
#[derive(Debug)]
pub struct HookFunctionArtifacts {
    pub slot_name: String,
    pub slot_decl: String,
    pub setter: String,
    pub fn_type: String,
    pub body: Vec<HookStmt>,
}

/// The native fragment emitted for one hooked global.
#[derive(Debug)]
pub struct HookStaticArtifacts {
    pub global_decl: String,
    pub setter: String,
}

/// The native fragment emitted for one hooked class: the dispatch-table
/// slot, its setter, and the pointer field injected into the struct.
#[derive(Debug)]
pub struct HookClassArtifacts {
    pub vtbl_name: String,
    pub vtbl_decl: String,
    pub setter: String,
    pub injected_field: String,
}

/// The function-pointer type text of a hooked function.
pub open spec fn spec_fn_type_text(params: Seq<TypeTree>, ret: Option<TypeTree>) -> Seq<char> {
    "extern \"C\" fn ("@ + spec_join_types(params) + ") -> "@ + (match ret {
        Some(t) => spec_type_text(t),
        None => "()"@,
    })
}

/// The native compiler stage for the host's hooking framework.
#[derive(Debug)]
pub struct Reloaded2CSharpHook {
    pub user_defined: bool,
    pub hook_set_name: Option<String>,
}

impl Reloaded2CSharpHook {
    pub fn new(user_defined: bool) -> (r: Reloaded2CSharpHook)
        ensures
            r.user_defined == user_defined,
            r.hook_set_name is None,
    {
        Reloaded2CSharpHook { user_defined, hook_set_name: None }
    }

    /// Whether this item needs the late-binding entry point.
    pub fn is_user_defined(&self) -> (r: bool)
        ensures
            r == self.user_defined,
    {
        self.user_defined
    }

    /// Emits the one-shot setter for a slot and remembers its name.
    pub fn create_set_function(&mut self, ty: &str, set_name: &str, hooked_name: &str) -> (r:
        String)
        ensures
            r@ == spec_setter_text("__HOOK_SET_"@ + set_name@, ty@, hooked_name@),
            match final(self).hook_set_name {
                Some(s) => s@ == "__HOOK_SET_"@ + set_name@,
                None => false,
            },
            final(self).user_defined == old(self).user_defined,
    {
        let set_cell_fn_name = make_hook_set_string(set_name);
        let mut out = "#[no_mangle]\n#[doc(hidden)]\npub unsafe extern \"C\" fn ".to_owned();
        out.append(set_cell_fn_name.as_str());
        out.append("(cb: ");
        out.append(ty);
        out.append(") { let _ = ");
        out.append(hooked_name);
        out.append(".set(cb); }\n");
        self.hook_set_name = Some(set_cell_fn_name);
        out
    }

    /// Compiles one hooked function into its native fragment: rejects
    /// generic signatures, non-C ABIs and receiver arguments, then emits
    /// the slot, its setter and the body with call-original expressions
    /// rewritten to indirect calls through the slot.
    pub fn codegen_rust_function(
        &mut self,
        sig: &HookFunctionSig,
        body: Vec<HookStmt>,
    ) -> (r: Result<HookFunctionArtifacts, CodegenError>)
        ensures
            match r {
                Ok(a) => {
                    &&& !sig.has_generics
                    &&& !sig.has_receiver
                    &&& (match sig.abi {
                        Some(s) => s@ == "C"@,
                        None => false,
                    })
                    &&& a.slot_name@ == "__HOOK_OGFN_"@ + spec_ascii_upper(sig.name@)
                    &&& a.fn_type@ == spec_fn_type_text(
                        sig.params@,
                        match sig.ret {
                            Some(t) => Some(t),
                            None => None,
                        },
                    )
                    &&& a.slot_decl@ == spec_slot_decl_text(a.slot_name@, a.fn_type@)
                    &&& a.setter@ == spec_setter_text(
                        "__HOOK_SET_"@ + spec_ascii_upper(sig.name@),
                        a.fn_type@,
                        a.slot_name@,
                    )
                    &&& spec_rewritten_stmts(body@, a.body@, a.slot_name@)
                },
                Err(e) => {
                    ||| (e == CodegenError::GenericsNotSupported && sig.has_generics)
                    ||| (e == CodegenError::MissingCAbi && (match sig.abi {
                        Some(s) => s@ != "C"@,
                        None => true,
                    }))
                    ||| (e == CodegenError::ReceiverNotSupported && sig.has_receiver)
                },
            },
    {
        if sig.has_generics {
            return Err(CodegenError::GenericsNotSupported);
        }
        let abi_ok = match &sig.abi {
            Some(a) => str_eq_lit(a.as_str(), "C"),
            None => false,
        };
        if !abi_ok {
            return Err(CodegenError::MissingCAbi);
        }
        if sig.has_receiver {
            return Err(CodegenError::ReceiverNotSupported);
        }
        let fn_name_upper = ascii_uppercase(sig.name.as_str());
        let slot_name = make_hook_og_fn_string(fn_name_upper.as_str());
        let mut fn_type = "extern \"C\" fn (".to_owned();
        let joined = join_types(&sig.params);
        fn_type.append(joined.as_str());
        fn_type.append(") -> ");
        match &sig.ret {
            Some(t) => {
                let tt = type_text(t);
                fn_type.append(tt.as_str());
            },
            None => {
                fn_type.append("()");
            },
        }
        let mut slot_decl = "#[doc(hidden)]\npub static ".to_owned();
        slot_decl.append(slot_name.as_str());
        slot_decl.append(": ::std::sync::OnceLock<");
        slot_decl.append(fn_type.as_str());
        slot_decl.append("> = ::std::sync::OnceLock::new();\n");
        let setter = self.create_set_function(fn_type.as_str(), fn_name_upper.as_str(), slot_name.as_str());
        let new_body = rewrite_stmts(body, &slot_name);
        Ok(
            HookFunctionArtifacts {
                slot_name,
                slot_decl,
                setter,
                fn_type,
                body: new_body,
            },
        )
    }

    /// Compiles one hooked global: the cell declaration and its setter.
    pub fn codegen_rust_static(&mut self, name: &str, ty: &TypeTree) -> (r: Result<
        HookStaticArtifacts,
        CodegenError,
    >)
        ensures
            match r {
                Ok(a) => {
                    &&& spec_get_type_name(*ty) is Ok
                    &&& a.global_decl@ == spec_global_decl_text(
                        name@,
                        spec_get_type_name(*ty)->Ok_0,
                    )
                    &&& a.setter@ == spec_setter_text(
                        "__HOOK_SET_"@ + name@,
                        spec_get_type_name(*ty)->Ok_0,
                        name@,
                    )
                },
                Err(e) => spec_get_type_name(*ty) == Err::<Seq<char>, CodegenError>(e),
            },
    {
        let cell_type = match get_type_name(ty) {
            Ok(t) => t,
            Err(e) => {
                return Err(e);
            },
        };
        let mut global_decl = "pub static ".to_owned();
        global_decl.append(name);
        global_decl.append(": ::std::sync::OnceLock<");
        global_decl.append(cell_type.as_str());
        global_decl.append("> = ::std::sync::OnceLock::new();\n");
        let setter = self.create_set_function(cell_type.as_str(), name, name);
        Ok(HookStaticArtifacts { global_decl, setter })
    }

    /// Compiles one hooked class: the dispatch-table slot and setter, and
    /// the pointer field injected at the head of the struct's named fields.
    pub fn codegen_rust_class(&mut self, class_name: &str, has_named_fields: bool) -> (r: Result<
        HookClassArtifacts,
        CodegenError,
    >)
        ensures
            match r {
                Ok(a) => {
                    &&& has_named_fields
                    &&& a.vtbl_name@ == "__VTBL_PTR_"@ + spec_ascii_upper(class_name@)
                    &&& a.vtbl_decl@ == spec_global_decl_text(a.vtbl_name@, "usize"@)
                    &&& a.setter@ == spec_setter_text(
                        "__HOOK_SET_"@ + a.vtbl_name@,
                        "usize"@,
                        a.vtbl_name@,
                    )
                    &&& a.injected_field@ == "#[doc(hidden)] __cpp_vtbl: usize"@
                },
                Err(e) => e == CodegenError::NamedFieldsRequired && !has_named_fields,
            },
    {
        if !has_named_fields {
            return Err(CodegenError::NamedFieldsRequired);
        }
        let class_name_upper = ascii_uppercase(class_name);
        let vtbl_name = make_vtbl_ptr_string(class_name_upper.as_str());
        let mut vtbl_decl = "pub static ".to_owned();
        vtbl_decl.append(vtbl_name.as_str());
        vtbl_decl.append(": ::std::sync::OnceLock<");
        vtbl_decl.append("usize");
        vtbl_decl.append("> = ::std::sync::OnceLock::new();\n");
        let setter = self.create_set_function("usize", vtbl_name.as_str(), vtbl_name.as_str());
        let injected_field = "#[doc(hidden)] __cpp_vtbl: usize".to_owned();
        Ok(HookClassArtifacts { vtbl_name, vtbl_decl, setter, injected_field })
    }
}

/// The method-level generator of the class-binding stage; its emission is
/// not yet implemented by the framework and produces nothing.
#[derive(Debug)]
pub struct CppClassMethodGenerator;

impl CppClassMethodGenerator {
    pub fn codegen_external(&self) {
    }
}

} // verus!
