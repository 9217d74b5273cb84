//! The laws of the machine, proved once and for all over the step model.
//!
//! Each proof function states a behavior of the language for every machine
//! state and every operand, not just for chosen values: what the arithmetic
//! natives leave on the value stack, when a definition is rejected, where a
//! branch transfers control, how a loop iterates and exits, that a variable
//! returns the value last written, that quotation plus invocation equals a
//! direct call, and that replaying cached instructions never re-tokenizes.
use crate::arith::{spec_add, spec_div, spec_mod, spec_mul, spec_pow, spec_sub};
use crate::step::{
    eval_step, native_step, spec_parse, spec_run, top_token, RunOutcome, VmView,
};
use crate::token::{Mode, NativeOp, Token, VmError};
use vstd::prelude::*;

verus! {

/// Whether the evaluator is in its normal state: the control stack's top is
/// not a mode marker that gates dispatch.
pub open spec fn eval_normal(v: VmView) -> bool {
    top_token(v.ctrl) != Some(Token::Control(Mode::Def)) && top_token(v.ctrl) != Some(
        Token::Control(Mode::Quote),
    ) && top_token(v.ctrl) != Some(Token::Control(Mode::Compile))
}

/// A binary arithmetic native pops the right-hand operand, then the
/// left-hand one, and pushes the exact mathematical result, whatever else
/// lies below them; the instruction pointer advances by one.
pub proof fn lemma_arith_binary(v: VmView, rest: Seq<Token>, lhs: i64, rhs: i64)
    requires
        v.stack == rest.push(Token::Number(lhs)).push(Token::Number(rhs)),
        v.index < usize::MAX,
    ensures
        spec_add(rhs, lhs) is Ok ==> native_step(v, NativeOp::Plus) == Ok::<
            (VmView, usize),
            VmError,
        >(
            (
                VmView { stack: rest.push(Token::Number(spec_add(rhs, lhs)->Ok_0)), ..v },
                (v.index + 1) as usize,
            ),
        ),
        spec_sub(lhs, rhs) is Ok ==> native_step(v, NativeOp::Minus) == Ok::<
            (VmView, usize),
            VmError,
        >(
            (
                VmView { stack: rest.push(Token::Number(spec_sub(lhs, rhs)->Ok_0)), ..v },
                (v.index + 1) as usize,
            ),
        ),
        spec_mul(rhs, lhs) is Ok ==> native_step(v, NativeOp::Multiply) == Ok::<
            (VmView, usize),
            VmError,
        >(
            (
                VmView { stack: rest.push(Token::Number(spec_mul(rhs, lhs)->Ok_0)), ..v },
                (v.index + 1) as usize,
            ),
        ),
        spec_div(lhs, rhs) is Ok ==> native_step(v, NativeOp::Divide) == Ok::<
            (VmView, usize),
            VmError,
        >(
            (
                VmView { stack: rest.push(Token::Number(spec_div(lhs, rhs)->Ok_0)), ..v },
                (v.index + 1) as usize,
            ),
        ),
        spec_pow(lhs, rhs) is Ok ==> native_step(v, NativeOp::Pow) == Ok::<
            (VmView, usize),
            VmError,
        >(
            (
                VmView { stack: rest.push(Token::Number(spec_pow(lhs, rhs)->Ok_0)), ..v },
                (v.index + 1) as usize,
            ),
        ),
        spec_mod(lhs, rhs) is Ok ==> native_step(v, NativeOp::Mod) == Ok::<
            (VmView, usize),
            VmError,
        >(
            (
                VmView { stack: rest.push(Token::Number(spec_mod(lhs, rhs)->Ok_0)), ..v },
                (v.index + 1) as usize,
            ),
        ),
{
    let s = v.stack;
    assert(s.drop_last() =~= rest.push(Token::Number(lhs)));
    assert(s.drop_last().drop_last() =~= rest);
}

/// A unary arithmetic native pops one number and pushes the exact result:
/// numbers are integers, so the rounding natives return their operand
/// unchanged, and `abs` and `neg` compute the exact magnitude and negation.
pub proof fn lemma_arith_unary(v: VmView, rest: Seq<Token>, x: i64)
    requires
        v.stack == rest.push(Token::Number(x)),
        v.index < usize::MAX,
    ensures
        native_step(v, NativeOp::Floor) == Ok::<(VmView, usize), VmError>(
            (VmView { stack: rest.push(Token::Number(x)), ..v }, (v.index + 1) as usize),
        ),
        native_step(v, NativeOp::Ceil) == native_step(v, NativeOp::Floor),
        native_step(v, NativeOp::Round) == native_step(v, NativeOp::Floor),
        x > i64::MIN ==> native_step(v, NativeOp::Abs) == Ok::<(VmView, usize), VmError>(
            (
                VmView {
                    stack: rest.push(
                        Token::Number(
                            if x < 0 {
                                (-x) as i64
                            } else {
                                x
                            },
                        ),
                    ),
                    ..v
                },
                (v.index + 1) as usize,
            ),
        ),
        x > i64::MIN ==> native_step(v, NativeOp::Neg) == Ok::<(VmView, usize), VmError>(
            (VmView { stack: rest.push(Token::Number((-x) as i64)), ..v }, (v.index + 1) as usize),
        ),
{
    assert(v.stack.drop_last() =~= rest);
}

/// A comparison native pops two numbers and pushes the boolean comparison of
/// the left-hand operand against the right-hand one.
pub proof fn lemma_compare(v: VmView, rest: Seq<Token>, lhs: i64, rhs: i64)
    requires
        v.stack == rest.push(Token::Number(lhs)).push(Token::Number(rhs)),
        v.index < usize::MAX,
    ensures
        native_step(v, NativeOp::Equal) == Ok::<(VmView, usize), VmError>(
            (VmView { stack: rest.push(Token::Bool(lhs == rhs)), ..v }, (v.index + 1) as usize),
        ),
        native_step(v, NativeOp::GreaterThan) == Ok::<(VmView, usize), VmError>(
            (VmView { stack: rest.push(Token::Bool(lhs > rhs)), ..v }, (v.index + 1) as usize),
        ),
        native_step(v, NativeOp::LessThan) == Ok::<(VmView, usize), VmError>(
            (VmView { stack: rest.push(Token::Bool(lhs < rhs)), ..v }, (v.index + 1) as usize),
        ),
{
    let s = v.stack;
    assert(s.drop_last() =~= rest.push(Token::Number(lhs)));
    assert(s.drop_last().drop_last() =~= rest);
}

/// Defining a name that the symbol arena already holds is fatal with
/// `DuplicateSymbol`, in definition capture and in variable capture alike.
pub proof fn lemma_duplicate_symbol_rejected(v: VmView, raw: Seq<char>)
    requires
        top_token(v.ctrl) == Some(Token::Control(Mode::Def)) || top_token(v.ctrl) == Some(
            Token::Control(Mode::Var),
        ),
        crate::step::contains_text(v.syms, raw),
    ensures
        spec_parse(v, raw) == Err::<(VmView, Token), VmError>(VmError::DuplicateSymbol),
{
}

/// `if` pops a "no" target, a "yes" target and a condition, and transfers
/// control to the chosen target without pushing a return address.
pub proof fn lemma_if_branches(
    v: VmView,
    rest: Seq<Token>,
    cond: bool,
    yes: usize,
    no: usize,
)
    requires
        v.stack == rest.push(Token::Bool(cond)).push(Token::Jump(yes)).push(Token::Jump(no)),
    ensures
        native_step(v, NativeOp::If) == Ok::<(VmView, usize), VmError>(
            (
                VmView { stack: rest, ..v },
                if cond {
                    yes
                } else {
                    no
                },
            ),
        ),
{
    let s = v.stack;
    assert(s.drop_last() =~= rest.push(Token::Bool(cond)).push(Token::Jump(yes)));
    assert(s.drop_last().drop_last() =~= rest.push(Token::Bool(cond)));
    assert(s.drop_last().drop_last().drop_last() =~= rest);
}

/// While iterations remain, `enumerate` re-arms the loop: it pushes the
/// bound, the incremented counter, the body target and its own address, and
/// transfers control to the body.
pub proof fn lemma_enumerate_iterates(
    v: VmView,
    rest: Seq<Token>,
    from: i64,
    to: i64,
    body: usize,
)
    requires
        v.ctrl == rest.push(Token::Number(to)).push(Token::Number(from)).push(Token::Jump(body)),
        from < to,
    ensures
        native_step(v, NativeOp::Enumerate) == Ok::<(VmView, usize), VmError>(
            (
                VmView {
                    ctrl: rest.push(Token::Number(to)).push(Token::Number((from + 1) as i64)).push(
                        Token::Jump(body),
                    ).push(Token::Jump(v.index)),
                    ..v
                },
                body,
            ),
        ),
{
    let c = v.ctrl;
    assert(c.drop_last() =~= rest.push(Token::Number(to)).push(Token::Number(from)));
    assert(c.drop_last().drop_last() =~= rest.push(Token::Number(to)));
    assert(c.drop_last().drop_last().drop_last() =~= rest);
}

/// When the range is exhausted, `enumerate` removes the bookkeeping triple
/// and falls through, ending the loop.
pub proof fn lemma_enumerate_exhausts(
    v: VmView,
    rest: Seq<Token>,
    from: i64,
    to: i64,
    body: usize,
)
    requires
        v.ctrl == rest.push(Token::Number(to)).push(Token::Number(from)).push(Token::Jump(body)),
        from >= to,
        v.index < usize::MAX,
    ensures
        native_step(v, NativeOp::Enumerate) == Ok::<(VmView, usize), VmError>(
            (VmView { ctrl: rest, ..v }, (v.index + 1) as usize),
        ),
{
    let c = v.ctrl;
    assert(c.drop_last() =~= rest.push(Token::Number(to)).push(Token::Number(from)));
    assert(c.drop_last().drop_last() =~= rest.push(Token::Number(to)));
    assert(c.drop_last().drop_last().drop_last() =~= rest);
}

/// `leave-if` on a true condition removes the loop's four bookkeeping values
/// and resumes exactly at the instruction after the loop's `enumerate`.
pub proof fn lemma_leave_if_exits(
    v: VmView,
    srest: Seq<Token>,
    crest: Seq<Token>,
    to: i64,
    from: i64,
    body: usize,
    reentry: usize,
)
    requires
        v.stack == srest.push(Token::Bool(true)),
        v.ctrl == crest.push(Token::Number(to)).push(Token::Number(from)).push(
            Token::Jump(body),
        ).push(Token::Jump(reentry)),
        reentry < usize::MAX,
    ensures
        native_step(v, NativeOp::LeaveIf) == Ok::<(VmView, usize), VmError>(
            (VmView { stack: srest, ctrl: crest, ..v }, (reentry + 1) as usize),
        ),
{
    assert(v.stack.drop_last() =~= srest);
    let c = v.ctrl;
    assert(c.drop_last() =~= crest.push(Token::Number(to)).push(Token::Number(from)).push(
        Token::Jump(body),
    ));
    assert(c.drop_last().drop_last() =~= crest.push(Token::Number(to)).push(Token::Number(from)));
    assert(c.drop_last().drop_last().drop_last() =~= crest.push(Token::Number(to)));
    assert(c.drop_last().drop_last().drop_last().drop_last() =~= crest);
}

/// `i` reads the loop counter three slots down the control stack, without
/// popping, and pushes the index of the iteration now running.
pub proof fn lemma_i_reads_counter(v: VmView, counter: i64)
    requires
        v.ctrl.len() >= 3,
        v.ctrl[v.ctrl.len() - 3] == Token::Number(counter),
        counter > i64::MIN,
        v.index < usize::MAX,
    ensures
        native_step(v, NativeOp::I) == Ok::<(VmView, usize), VmError>(
            (
                VmView { stack: v.stack.push(Token::Number((counter - 1) as i64)), ..v },
                (v.index + 1) as usize,
            ),
        ),
{
}

/// `write` stores the popped number in the popped variable's cell; every
/// other cell keeps its value.
pub proof fn lemma_write_stores(v: VmView, rest: Seq<Token>, x: i64, h: usize)
    requires
        v.stack == rest.push(Token::Number(x)).push(Token::Var(h)),
        h < v.vars.len(),
        v.index < usize::MAX,
    ensures
        native_step(v, NativeOp::Write) == Ok::<(VmView, usize), VmError>(
            (
                VmView { stack: rest, vars: v.vars.update(h as int, Token::Number(x)), ..v },
                (v.index + 1) as usize,
            ),
        ),
        native_step(v, NativeOp::Write)->Ok_0.0.vars[h as int] == Token::Number(x),
        forall|k: int|
            0 <= k < v.vars.len() && k != h ==> native_step(v, NativeOp::Write)->Ok_0.0.vars[k]
                == v.vars[k],
{
    let s = v.stack;
    assert(s.drop_last() =~= rest.push(Token::Number(x)));
    assert(s.drop_last().drop_last() =~= rest);
}

/// `read` pushes the current value of the popped variable's cell; together
/// with `lemma_write_stores` this is the variable round trip: a read after a
/// write returns the value last written.
pub proof fn lemma_read_returns(v: VmView, rest: Seq<Token>, x: i64, h: usize)
    requires
        v.stack == rest.push(Token::Var(h)),
        h < v.vars.len(),
        v.vars[h as int] == Token::Number(x),
        v.index < usize::MAX,
    ensures
        native_step(v, NativeOp::Read) == Ok::<(VmView, usize), VmError>(
            (VmView { stack: rest.push(Token::Number(x)), ..v }, (v.index + 1) as usize),
        ),
{
    assert(v.stack.drop_last() =~= rest);
}

/// A variable cell is born holding zero: a read before any write returns 0.
pub proof fn lemma_var_initial_zero(v: VmView, raw: Seq<char>)
    requires
        top_token(v.ctrl) == Some(Token::Control(Mode::Var)),
        !crate::step::contains_text(v.syms, raw),
    ensures
        spec_parse(v, raw) is Ok,
        spec_parse(v, raw)->Ok_0.0.vars == v.vars.push(Token::Number(0)),
        spec_parse(v, raw)->Ok_0.0.vars.last() == Token::Number(0),
{
}

/// Invoking a quoted word is the same step as calling the word directly:
/// `invoke` on the code pointer that quotation produced (the word's body
/// address) yields the same machine state and the same control transfer as
/// evaluating the word reference itself.
pub proof fn lemma_quote_invoke_like_call(v: VmView, w: usize)
    requires
        eval_normal(v),
        w < v.dict.len(),
        v.stack.len() > 0,
        v.stack.last() == Token::Jump(v.dict[w as int].jump),
    ensures
        native_step(v, NativeOp::Invoke) == eval_step(
            VmView { stack: v.stack.drop_last(), ..v },
            Token::Word(w),
        ),
{
}

/// Evaluation never rewrites the instruction cache, the symbol arena or the
/// string arena, never shrinks the variable store, and only appends to the
/// dictionary: replaying a cached instruction cannot re-tokenize anything.
#[verifier::rlimit(100)]
pub proof fn lemma_eval_preserves_program(v: VmView, t: Token)
    requires
        eval_step(v, t) is Ok,
    ensures
        eval_step(v, t)->Ok_0.0.tokens == v.tokens,
        eval_step(v, t)->Ok_0.0.syms == v.syms,
        eval_step(v, t)->Ok_0.0.strs == v.strs,
        eval_step(v, t)->Ok_0.0.vars.len() == v.vars.len(),
        eval_step(v, t)->Ok_0.0.dict.len() >= v.dict.len(),
        forall|k: int|
            0 <= k < v.dict.len() ==> eval_step(v, t)->Ok_0.0.dict[k] == v.dict[k],
{
}

/// The tokenizer only appends: the instruction cache, the arenas and the
/// variable store keep every entry they had, and the dictionary is untouched.
pub proof fn lemma_parse_appends(v: VmView, raw: Seq<char>)
    requires
        spec_parse(v, raw) is Ok,
    ensures
        spec_parse(v, raw)->Ok_0.0.tokens.len() >= v.tokens.len(),
        forall|k: int|
            0 <= k < v.tokens.len() ==> spec_parse(v, raw)->Ok_0.0.tokens[k] == v.tokens[k],
        spec_parse(v, raw)->Ok_0.0.syms.len() >= v.syms.len(),
        forall|k: int| 0 <= k < v.syms.len() ==> spec_parse(v, raw)->Ok_0.0.syms[k] == v.syms[k],
        spec_parse(v, raw)->Ok_0.0.strs.len() >= v.strs.len(),
        forall|k: int| 0 <= k < v.strs.len() ==> spec_parse(v, raw)->Ok_0.0.strs[k] == v.strs[k],
        spec_parse(v, raw)->Ok_0.0.dict == v.dict,
        spec_parse(v, raw)->Ok_0.0.vars.len() >= v.vars.len(),
{
}

/// Whether a token's handle, if it carries one, points into its arena.
pub open spec fn wf_token(v: VmView, t: Token) -> bool {
    match t {
        Token::Word(i) => i < v.dict.len(),
        Token::Var(h) => h < v.vars.len(),
        Token::Symbol(s) => s < v.syms.len(),
        _ => true,
    }
}

/// Handle validity of a whole state: every handle in the instruction cache
/// and on either stack points into its arena, and every variable cell holds
/// a number. Arenas are append-only, so handles stay valid for the whole run.
pub open spec fn wf(v: VmView) -> bool {
    &&& forall|k: int| 0 <= k < v.tokens.len() ==> wf_token(v, #[trigger] v.tokens[k])
    &&& forall|k: int| 0 <= k < v.stack.len() ==> wf_token(v, #[trigger] v.stack[k])
    &&& forall|k: int| 0 <= k < v.ctrl.len() ==> wf_token(v, #[trigger] v.ctrl[k])
    &&& forall|k: int| 0 <= k < v.vars.len() ==> (#[trigger] v.vars[k]) is Number
}

/// A value-stack-only native preserves handle validity: whatever it pushes
/// is either a number, a boolean, or a value that was already on the stack.
#[verifier::rlimit(100)]
pub proof fn lemma_stack_step_wf(v: VmView, n: NativeOp, s2: Seq<Token>)
    requires
        wf(v),
        crate::step::stack_step(v.stack, n) == Ok::<Seq<Token>, VmError>(s2),
    ensures
        forall|k: int| 0 <= k < s2.len() ==> wf_token(v, #[trigger] s2[k]),
{
    if matches!(n, NativeOp::Plus | NativeOp::Minus | NativeOp::Multiply | NativeOp::Divide
        | NativeOp::Pow | NativeOp::Mod | NativeOp::Floor | NativeOp::Ceil | NativeOp::Round
        | NativeOp::Abs | NativeOp::Neg) {
        // The arithmetic natives push a fresh number over a shortened stack.
        assert(forall|k: int| 0 <= k < s2.len() ==> wf_token(v, #[trigger] s2[k]));
    } else if matches!(n, NativeOp::Drop | NativeOp::Swap | NativeOp::Rot | NativeOp::Pick
        | NativeOp::Over | NativeOp::Dup | NativeOp::Questionmark) {
        // The shuffling natives only rearrange values already on the stack.
        assert(forall|k: int| 0 <= k < s2.len() ==> wf_token(v, #[trigger] s2[k]));
    } else {
        // The comparisons and boolean literals push a fresh boolean.
        assert(forall|k: int| 0 <= k < s2.len() ==> wf_token(v, #[trigger] s2[k]));
    }
}

/// When every arena only grows and no variable cell changes tag, a token
/// valid in the old state is valid in the new one.
pub proof fn lemma_wf_token_monotone(v: VmView, v2: VmView, t: Token)
    requires
        wf_token(v, t),
        v2.dict.len() >= v.dict.len(),
        v2.vars.len() >= v.vars.len(),
        v2.syms.len() >= v.syms.len(),
    ensures
        wf_token(v2, t),
{
}

/// A step whose result differs from the old state only as the spec shows
/// keeps every handle valid, provided its new stack and control contents
/// were already valid and the arenas only grew.
#[verifier::rlimit(100)]
proof fn lemma_wf_assemble(v: VmView, v2: VmView)
    requires
        wf(v),
        v2.tokens == v.tokens,
        v2.dict.len() >= v.dict.len(),
        v2.syms.len() >= v.syms.len(),
        v2.vars.len() >= v.vars.len(),
        forall|k: int| 0 <= k < v2.vars.len() ==> (#[trigger] v2.vars[k]) is Number,
        forall|k: int| 0 <= k < v2.stack.len() ==> wf_token(v, #[trigger] v2.stack[k]),
        forall|k: int| 0 <= k < v2.ctrl.len() ==> wf_token(v, #[trigger] v2.ctrl[k]),
    ensures
        wf(v2),
{
    assert forall|k: int| 0 <= k < v2.tokens.len() implies wf_token(v2, #[trigger] v2.tokens[k]) by {
        lemma_wf_token_monotone(v, v2, v2.tokens[k]);
    }
    assert forall|k: int| 0 <= k < v2.stack.len() implies wf_token(v2, #[trigger] v2.stack[k]) by {
        lemma_wf_token_monotone(v, v2, v2.stack[k]);
    }
    assert forall|k: int| 0 <= k < v2.ctrl.len() implies wf_token(v2, #[trigger] v2.ctrl[k]) by {
        lemma_wf_token_monotone(v, v2, v2.ctrl[k]);
    }
}

/// Handle validity across the definition-lifecycle and output natives.
#[verifier::rlimit(100)]
proof fn lemma_native_wf_define(v: VmView, n: NativeOp)
    requires
        wf(v),
        native_step(v, n) is Ok,
        matches!(n, NativeOp::Dot | NativeOp::Dots | NativeOp::CtrlDots | NativeOp::Def
            | NativeOp::Var | NativeOp::Quote | NativeOp::OpenParen | NativeOp::OpenBrace
            | NativeOp::CloseBrace | NativeOp::Semicolon),
    ensures
        wf(native_step(v, n)->Ok_0.0),
{
    lemma_wf_assemble(v, native_step(v, n)->Ok_0.0);
}

/// Handle validity across the control-transfer natives.
#[verifier::rlimit(100)]
proof fn lemma_native_wf_transfer(v: VmView, n: NativeOp)
    requires
        wf(v),
        native_step(v, n) is Ok,
        matches!(n, NativeOp::StoreCtrl | NativeOp::ReadCtrl | NativeOp::CopyCtrl
            | NativeOp::Invoke | NativeOp::If | NativeOp::Range),
    ensures
        wf(native_step(v, n)->Ok_0.0),
{
    lemma_wf_assemble(v, native_step(v, n)->Ok_0.0);
}

/// Handle validity across the loop and variable-store natives.
#[verifier::rlimit(100)]
proof fn lemma_native_wf_loop(v: VmView, n: NativeOp)
    requires
        wf(v),
        native_step(v, n) is Ok,
        matches!(n, NativeOp::Enumerate | NativeOp::LeaveIf | NativeOp::I | NativeOp::Read
            | NativeOp::Write | NativeOp::Debug),
    ensures
        wf(native_step(v, n)->Ok_0.0),
{
    lemma_wf_assemble(v, native_step(v, n)->Ok_0.0);
}

/// One native step preserves handle validity.
#[verifier::rlimit(100)]
pub proof fn lemma_native_preserves_wf(v: VmView, n: NativeOp)
    requires
        wf(v),
        native_step(v, n) is Ok,
    ensures
        wf(native_step(v, n)->Ok_0.0),
{
    let v2 = native_step(v, n)->Ok_0.0;
    if crate::step::is_stack_native(n) {
        let s2 = crate::step::stack_step(v.stack, n)->Ok_0;
        lemma_stack_step_wf(v, n, s2);
        assert(v2 == (VmView { stack: s2, ..v }));
        lemma_wf_assemble(v, v2);
    } else {
        match n {
            NativeOp::Dot | NativeOp::Dots | NativeOp::CtrlDots | NativeOp::Def | NativeOp::Var
                | NativeOp::Quote | NativeOp::OpenParen | NativeOp::OpenBrace
                | NativeOp::CloseBrace | NativeOp::Semicolon => lemma_native_wf_define(v, n),
            NativeOp::StoreCtrl | NativeOp::ReadCtrl | NativeOp::CopyCtrl | NativeOp::Invoke
                | NativeOp::If | NativeOp::Range => lemma_native_wf_transfer(v, n),
            NativeOp::Enumerate | NativeOp::LeaveIf | NativeOp::I | NativeOp::Read
                | NativeOp::Write | NativeOp::Debug => lemma_native_wf_loop(v, n),
            _ => {},
        }
    }
}

/// One evaluator step preserves handle validity, whatever instruction it
/// evaluates, as long as that instruction's own handle is valid.
pub proof fn lemma_eval_preserves_wf(v: VmView, t: Token)
    requires
        wf(v),
        wf_token(v, t),
        eval_step(v, t) is Ok,
    ensures
        wf(eval_step(v, t)->Ok_0.0),
{
    if top_token(v.ctrl) == Some(Token::Control(Mode::Def)) {
    } else if top_token(v.ctrl) == Some(Token::Control(Mode::Quote)) {
    } else if top_token(v.ctrl) == Some(Token::Control(Mode::Compile)) {
    } else {
        match t {
            Token::Native(n) => {
                lemma_native_preserves_wf(v, n);
            },
            _ => {},
        }
    }
}

/// A found dictionary index points into the dictionary.
pub proof fn lemma_find_word_in_range(d: Seq<crate::step::DictView>, x: Seq<char>, i: int)
    requires
        crate::step::find_word_from(d, x, i) is Some,
    ensures
        crate::step::find_word_from(d, x, i)->0 < d.len(),
    decreases d.len() - i,
{
    if 0 <= i < d.len() {
        if d[i].word != x {
            lemma_find_word_in_range(d, x, i + 1);
        }
    }
}

/// The tokenizer preserves handle validity and only hands out instructions
/// whose handles are valid in the state it returns.
#[verifier::rlimit(100)]
pub proof fn lemma_parse_preserves_wf(v: VmView, raw: Seq<char>)
    requires
        wf(v),
        spec_parse(v, raw) is Ok,
    ensures
        wf(spec_parse(v, raw)->Ok_0.0),
        wf_token(spec_parse(v, raw)->Ok_0.0, spec_parse(v, raw)->Ok_0.1),
{
    let (v2, t) = spec_parse(v, raw)->Ok_0;
    if top_token(v.ctrl) == Some(Token::Control(Mode::Comment)) || top_token(v.ctrl) == Some(
        Token::Control(Mode::Def),
    ) {
        lemma_wf_assemble(v, v2);
    } else if top_token(v.ctrl) == Some(Token::Control(Mode::Var)) {
        assert forall|k: int| 0 <= k < v2.tokens.len() implies wf_token(
            v2,
            #[trigger] v2.tokens[k],
        ) by {
            if k < v.tokens.len() {
                lemma_wf_token_monotone(v, v2, v2.tokens[k]);
            }
        }
        assert forall|k: int| 0 <= k < v2.stack.len() implies wf_token(
            v2,
            #[trigger] v2.stack[k],
        ) by {
            lemma_wf_token_monotone(v, v2, v2.stack[k]);
        }
        assert forall|k: int| 0 <= k < v2.ctrl.len() implies wf_token(v2, #[trigger] v2.ctrl[k]) by {
            lemma_wf_token_monotone(v, v2, v2.ctrl[k]);
        }
    } else {
        match crate::step::spec_find_word(v.dict, raw) {
            Some(i) => {
                if crate::natives::spec_native_of(raw) is None {
                    lemma_find_word_in_range(v.dict, raw, 0);
                }
            },
            None => {},
        }
        lemma_wf_assemble(v, v2);
    }
}

/// Every state a run reaches keeps its handles valid: arenas are append-only
/// and no step fabricates a handle, so a handle, once issued, stays valid
/// for the process lifetime.
pub proof fn lemma_run_preserves_wf(v: VmView, raws: Seq<Seq<char>>, si: int, fuel: nat)
    requires
        wf(v),
        spec_run(v, raws, si, fuel) matches RunOutcome::Finished(_)
            || spec_run(v, raws, si, fuel) matches RunOutcome::OutOfFuel(_),
    ensures
        ({
            let vf = match spec_run(v, raws, si, fuel) {
                RunOutcome::Finished(x) => x,
                RunOutcome::OutOfFuel(x) => x,
                RunOutcome::Fatal(_, _) => v,
            };
            wf(vf)
        }),
    decreases fuel,
{
    if !(v.index < v.tokens.len() || si < raws.len()) {
    } else if fuel == 0 {
    } else if v.index < v.tokens.len() {
        let t = v.tokens[v.index as int];
        match eval_step(v, t) {
            Ok((v2, nx)) => {
                assert(wf_token(v, t));
                lemma_eval_preserves_wf(v, t);
                let vnext = VmView { index: nx, ..v2 };
                assert(wf(vnext));
                lemma_run_preserves_wf(vnext, raws, si, (fuel - 1) as nat);
            },
            Err(_) => {},
        }
    } else {
        match spec_parse(v, raws[si]) {
            Ok((v2, t)) => {
                lemma_parse_preserves_wf(v, raws[si]);
                let v3 = VmView { tokens: v2.tokens.push(t), ..v2 };
                assert forall|k: int| 0 <= k < v3.tokens.len() implies wf_token(
                    v3,
                    #[trigger] v3.tokens[k],
                ) by {
                    if k < v2.tokens.len() {
                        assert(wf_token(v2, v2.tokens[k]));
                    } else {
                        assert(v3.tokens[k] == t);
                    }
                }
                assert(wf(v3));
                assert(wf_token(v3, t));
                match eval_step(v3, t) {
                    Ok((v4, nx)) => {
                        lemma_eval_preserves_wf(v3, t);
                        let vnext = VmView { index: nx, ..v4 };
                        assert(wf(vnext));
                        lemma_run_preserves_wf(vnext, raws, si + 1, (fuel - 1) as nat);
                    },
                    Err(_) => {},
                }
            },
            Err(_) => {},
        }
    }
}

/// Instructions already cached are stable for the rest of the run: whatever
/// a run does, every index it had already populated still holds the same
/// instruction when it ends. Re-visiting an index never re-parses it.
pub proof fn lemma_run_cache_stable(v: VmView, raws: Seq<Seq<char>>, si: int, fuel: nat)
    requires
        spec_run(v, raws, si, fuel) matches RunOutcome::Finished(_)
            || spec_run(v, raws, si, fuel) matches RunOutcome::OutOfFuel(_),
    ensures
        ({
            let vf = match spec_run(v, raws, si, fuel) {
                RunOutcome::Finished(x) => x,
                RunOutcome::OutOfFuel(x) => x,
                RunOutcome::Fatal(_, _) => v,
            };
            vf.tokens.len() >= v.tokens.len() && (forall|k: int|
                0 <= k < v.tokens.len() ==> vf.tokens[k] == v.tokens[k]) && vf.syms.len()
                >= v.syms.len() && (forall|k: int|
                0 <= k < v.syms.len() ==> vf.syms[k] == v.syms[k])
        }),
    decreases fuel,
{
    if !(v.index < v.tokens.len() || si < raws.len()) {
    } else if fuel == 0 {
    } else if v.index < v.tokens.len() {
        let t = v.tokens[v.index as int];
        match eval_step(v, t) {
            Ok((v2, nx)) => {
                lemma_eval_preserves_program(v, t);
                let vnext = VmView { index: nx, ..v2 };
                assert(vnext.tokens == v.tokens && vnext.syms == v.syms);
                lemma_run_cache_stable(vnext, raws, si, (fuel - 1) as nat);
                assert(spec_run(v, raws, si, fuel) == spec_run(
                    vnext,
                    raws,
                    si,
                    (fuel - 1) as nat,
                ));
            },
            Err(_) => {},
        }
    } else {
        match spec_parse(v, raws[si]) {
            Ok((v2, t)) => {
                lemma_parse_appends(v, raws[si]);
                let v3 = VmView { tokens: v2.tokens.push(t), ..v2 };
                match eval_step(v3, t) {
                    Ok((v4, nx)) => {
                        lemma_eval_preserves_program(v3, t);
                        let vnext = VmView { index: nx, ..v4 };
                        assert(vnext.tokens.len() >= v.tokens.len() && forall|k: int|
                            0 <= k < v.tokens.len() ==> vnext.tokens[k] == v.tokens[k]);
                        assert(vnext.syms.len() >= v.syms.len() && forall|k: int|
                            0 <= k < v.syms.len() ==> vnext.syms[k] == v.syms[k]);
                        lemma_run_cache_stable(vnext, raws, si + 1, (fuel - 1) as nat);
                        assert(spec_run(v, raws, si, fuel) == spec_run(
                            vnext,
                            raws,
                            si + 1,
                            (fuel - 1) as nat,
                        ));
                    },
                    Err(_) => {},
                }
            },
            Err(_) => {},
        }
    }
}

} // verus!
