//! The mathematical model of the machine and its step functions.
//!
//! `VmView` shadows the interpreter's state; `spec_parse`, `eval_step` and
//! `native_step` say exactly what one tokenizer or evaluator step does to it;
//! `spec_run` chains steps over a lexeme sequence. The executable machine is
//! proved to follow these functions step for step.
use crate::arith::{spec_abs, spec_add, spec_div, spec_mod, spec_mul, spec_neg, spec_pow, spec_sub};
use crate::natives::spec_native_of;
use crate::text::spec_parse_int;
use crate::token::{Mode, NativeOp, OutView, Token, VmError};
use vstd::prelude::*;

verus! {

/// One dictionary entry: a finalized word's name and the instruction index
/// its body begins at.
pub ghost struct DictView {
    pub word: Seq<char>,
    pub jump: usize,
}

/// The whole machine state: instruction pointer, instruction cache, the two
/// stacks, the append-only arenas, and the output log.
#[verifier::ext_equal]
pub ghost struct VmView {
    pub index: usize,
    pub tokens: Seq<Token>,
    pub stack: Seq<Token>,
    pub ctrl: Seq<Token>,
    pub syms: Seq<Seq<char>>,
    pub strs: Seq<Seq<char>>,
    pub dict: Seq<DictView>,
    pub vars: Seq<Token>,
    pub out: Seq<OutView>,
}

/// The top of a stack, if any.
pub open spec fn top_token(s: Seq<Token>) -> Option<Token> {
    if s.len() == 0 {
        None
    } else {
        Some(s.last())
    }
}

/// Pop any value; popping an empty stack is fatal.
pub open spec fn s_pop(s: Seq<Token>) -> Result<(Seq<Token>, Token), VmError> {
    if s.len() == 0 {
        Err(VmError::StackUnderflow)
    } else {
        Ok((s.drop_last(), s.last()))
    }
}

/// Pop a value that must be a number.
pub open spec fn s_pop_num(s: Seq<Token>) -> Result<(Seq<Token>, i64), VmError> {
    match s_pop(s) {
        Ok((s2, Token::Number(x))) => Ok((s2, x)),
        Ok(_) => Err(VmError::TypeMismatch),
        Err(e) => Err(e),
    }
}

/// Pop a value that must be a boolean.
pub open spec fn s_pop_bool(s: Seq<Token>) -> Result<(Seq<Token>, bool), VmError> {
    match s_pop(s) {
        Ok((s2, Token::Bool(x))) => Ok((s2, x)),
        Ok(_) => Err(VmError::TypeMismatch),
        Err(e) => Err(e),
    }
}

/// Pop a value that must be a jump target.
pub open spec fn s_pop_jump(s: Seq<Token>) -> Result<(Seq<Token>, usize), VmError> {
    match s_pop(s) {
        Ok((s2, Token::Jump(x))) => Ok((s2, x)),
        Ok(_) => Err(VmError::TypeMismatch),
        Err(e) => Err(e),
    }
}

/// Pop a value that must be a variable handle.
pub open spec fn s_pop_var(s: Seq<Token>) -> Result<(Seq<Token>, usize), VmError> {
    match s_pop(s) {
        Ok((s2, Token::Var(x))) => Ok((s2, x)),
        Ok(_) => Err(VmError::TypeMismatch),
        Err(e) => Err(e),
    }
}

/// The next instruction index; running off the address space is fatal.
pub open spec fn spec_bump(i: usize) -> Result<usize, VmError> {
    if i == usize::MAX {
        Err(VmError::Overflow)
    } else {
        Ok((i + 1) as usize)
    }
}

/// Advance to the instruction after the current one, with the given state.
pub open spec fn adv(v: VmView) -> Result<(VmView, usize), VmError> {
    match spec_bump(v.index) {
        Ok(n) => Ok((v, n)),
        Err(e) => Err(e),
    }
}

/// Whether the symbol arena already holds this name.
pub open spec fn contains_text(ss: Seq<Seq<char>>, x: Seq<char>) -> bool {
    exists|k: int| 0 <= k < ss.len() && ss[k] == x
}

/// The first dictionary entry (searching from `i`) whose word is `x`.
pub open spec fn find_word_from(d: Seq<DictView>, x: Seq<char>, i: int) -> Option<usize>
    decreases d.len() - i,
{
    if !(0 <= i < d.len()) {
        None
    } else if d[i].word == x {
        Some(i as usize)
    } else {
        find_word_from(d, x, i + 1)
    }
}

pub open spec fn spec_find_word(d: Seq<DictView>, x: Seq<char>) -> Option<usize> {
    find_word_from(d, x, 0)
}

/// One tokenizer step: the current control-stack top and a raw lexeme give
/// one instruction, possibly growing the arenas or the instruction cache.
pub open spec fn spec_parse(v: VmView, raw: Seq<char>) -> Result<(VmView, Token), VmError> {
    if top_token(v.ctrl) == Some(Token::Control(Mode::Comment)) {
        if spec_native_of(raw) == Some(NativeOp::CloseParen) {
            Ok((VmView { ctrl: v.ctrl.drop_last(), ..v }, Token::Empty))
        } else {
            Ok((v, Token::Empty))
        }
    } else if top_token(v.ctrl) == Some(Token::Control(Mode::Def)) {
        if contains_text(v.syms, raw) {
            Err(VmError::DuplicateSymbol)
        } else {
            Ok(
                (
                    VmView { ctrl: v.ctrl.drop_last(), syms: v.syms.push(raw), ..v },
                    Token::Symbol(v.syms.len() as usize),
                ),
            )
        }
    } else if top_token(v.ctrl) == Some(Token::Control(Mode::Var)) {
        if contains_text(v.syms, raw) {
            Err(VmError::DuplicateSymbol)
        } else {
            Ok(
                (
                    VmView {
                        ctrl: v.ctrl.drop_last(),
                        vars: v.vars.push(Token::Number(0)),
                        syms: v.syms.push(raw),
                        tokens: v.tokens + seq![
                            Token::Empty,
                            Token::Symbol(v.syms.len() as usize),
                            Token::Native(NativeOp::OpenBrace),
                            Token::Var(v.vars.len() as usize),
                            Token::Native(NativeOp::CloseBrace),
                            Token::Native(NativeOp::Semicolon),
                        ],
                        ..v
                    },
                    Token::Empty,
                ),
            )
        }
    } else {
        match spec_native_of(raw) {
            Some(n) => Ok((v, Token::Native(n))),
            None => match spec_find_word(v.dict, raw) {
                Some(i) => Ok((v, Token::Word(i))),
                None => match spec_parse_int(raw) {
                    Some(x) => Ok((v, Token::Number(x))),
                    None => if raw.len() >= 1 && raw[0] == '"' && raw[raw.len() - 1] == '"' {
                        Ok(
                            (
                                VmView { strs: v.strs.push(raw), ..v },
                                Token::Str(v.strs.len() as usize),
                            ),
                        )
                    } else {
                        Ok((v, Token::Empty))
                    },
                },
            },
        }
    }
}

/// Whether a native only reads and writes the value stack.
pub open spec fn is_stack_native(n: NativeOp) -> bool {
    match n {
        NativeOp::Plus | NativeOp::Minus | NativeOp::Multiply | NativeOp::Divide | NativeOp::Pow
            | NativeOp::Mod | NativeOp::Floor | NativeOp::Ceil | NativeOp::Round | NativeOp::Abs
            | NativeOp::Neg | NativeOp::Drop | NativeOp::Swap | NativeOp::Rot | NativeOp::Pick
            | NativeOp::Over | NativeOp::Dup | NativeOp::Questionmark | NativeOp::Equal
            | NativeOp::GreaterThan | NativeOp::LessThan | NativeOp::Not | NativeOp::True
            | NativeOp::False => true,
        _ => false,
    }
}

/// Push an arithmetic result, or pass its failure on.
pub open spec fn push_num(s: Seq<Token>, r: Result<i64, VmError>) -> Result<
    Seq<Token>,
    VmError,
> {
    match r {
        Ok(x) => Ok(s.push(Token::Number(x))),
        Err(e) => Err(e),
    }
}

/// Pop two numbers: the right-hand operand comes off first.
pub open spec fn s_pop_num2(s: Seq<Token>) -> Result<(Seq<Token>, i64, i64), VmError> {
    match s_pop_num(s) {
        Ok((s1, rhs)) => match s_pop_num(s1) {
            Ok((s2, lhs)) => Ok((s2, rhs, lhs)),
            Err(e) => Err(e),
        },
        Err(e) => Err(e),
    }
}

/// What a value-stack-only native does to the value stack.
pub open spec fn stack_step(s: Seq<Token>, n: NativeOp) -> Result<Seq<Token>, VmError> {
    match n {
        NativeOp::Plus => match s_pop_num2(s) {
            Ok((s2, rhs, lhs)) => push_num(s2, spec_add(rhs, lhs)),
            Err(e) => Err(e),
        },
        NativeOp::Minus => match s_pop_num2(s) {
            Ok((s2, rhs, lhs)) => push_num(s2, spec_sub(lhs, rhs)),
            Err(e) => Err(e),
        },
        NativeOp::Multiply => match s_pop_num2(s) {
            Ok((s2, rhs, lhs)) => push_num(s2, spec_mul(rhs, lhs)),
            Err(e) => Err(e),
        },
        NativeOp::Divide => match s_pop_num2(s) {
            Ok((s2, rhs, lhs)) => push_num(s2, spec_div(lhs, rhs)),
            Err(e) => Err(e),
        },
        NativeOp::Pow => match s_pop_num2(s) {
            Ok((s2, rhs, lhs)) => push_num(s2, spec_pow(lhs, rhs)),
            Err(e) => Err(e),
        },
        NativeOp::Mod => match s_pop_num2(s) {
            Ok((s2, rhs, lhs)) => push_num(s2, spec_mod(lhs, rhs)),
            Err(e) => Err(e),
        },
        NativeOp::Floor => match s_pop_num(s) {
            Ok((s2, x)) => Ok(s2.push(Token::Number(x))),
            Err(e) => Err(e),
        },
        NativeOp::Ceil => match s_pop_num(s) {
            Ok((s2, x)) => Ok(s2.push(Token::Number(x))),
            Err(e) => Err(e),
        },
        NativeOp::Round => match s_pop_num(s) {
            Ok((s2, x)) => Ok(s2.push(Token::Number(x))),
            Err(e) => Err(e),
        },
        NativeOp::Abs => match s_pop_num(s) {
            Ok((s2, x)) => push_num(s2, spec_abs(x)),
            Err(e) => Err(e),
        },
        NativeOp::Neg => match s_pop_num(s) {
            Ok((s2, x)) => push_num(s2, spec_neg(x)),
            Err(e) => Err(e),
        },
        NativeOp::Drop => match s_pop(s) {
            Ok((s2, _)) => Ok(s2),
            Err(e) => Err(e),
        },
        NativeOp::Swap => match s_pop(s) {
            Ok((s1, a)) => match s_pop(s1) {
                Ok((s2, b)) => Ok(s2.push(a).push(b)),
                Err(e) => Err(e),
            },
            Err(e) => Err(e),
        },
        NativeOp::Rot => match s_pop(s) {
            Ok((s1, a)) => match s_pop(s1) {
                Ok((s2, b)) => match s_pop(s2) {
                    Ok((s3, c)) => Ok(s3.push(b).push(a).push(c)),
                    Err(e) => Err(e),
                },
                Err(e) => Err(e),
            },
            Err(e) => Err(e),
        },
        NativeOp::Pick => match s_pop_num(s) {
            // The depth is counted against the stack's length before the
            // count itself is popped: a count of 2 copies the new top, and a
            // count outside [2, len + 1] reaches past either end, fatally.
            Ok((s2, x)) => if x < 2 || x > s2.len() + 1 {
                Err(VmError::StackUnderflow)
            } else {
                Ok(s2.push(s2[s2.len() + 1 - x]))
            },
            Err(e) => Err(e),
        },
        NativeOp::Over => match s_pop(s) {
            Ok((s1, a)) => match s_pop(s1) {
                Ok((s2, b)) => Ok(s2.push(b).push(a).push(b)),
                Err(e) => Err(e),
            },
            Err(e) => Err(e),
        },
        NativeOp::Dup => match s_pop(s) {
            Ok((s2, a)) => Ok(s2.push(a).push(a)),
            Err(e) => Err(e),
        },
        NativeOp::Questionmark => match s_pop(s) {
            Ok((s1, fv)) => match s_pop(s1) {
                Ok((s2, tv)) => match s_pop_bool(s2) {
                    Ok((s3, cond)) => Ok(
                        s3.push(
                            if cond {
                                tv
                            } else {
                                fv
                            },
                        ),
                    ),
                    Err(e) => Err(e),
                },
                Err(e) => Err(e),
            },
            Err(e) => Err(e),
        },
        NativeOp::Equal => match s_pop_num2(s) {
            Ok((s2, rhs, lhs)) => Ok(s2.push(Token::Bool(lhs == rhs))),
            Err(e) => Err(e),
        },
        NativeOp::GreaterThan => match s_pop_num2(s) {
            Ok((s2, rhs, lhs)) => Ok(s2.push(Token::Bool(lhs > rhs))),
            Err(e) => Err(e),
        },
        NativeOp::LessThan => match s_pop_num2(s) {
            Ok((s2, rhs, lhs)) => Ok(s2.push(Token::Bool(lhs < rhs))),
            Err(e) => Err(e),
        },
        NativeOp::Not => match s_pop_bool(s) {
            Ok((s2, b)) => Ok(s2.push(Token::Bool(!b))),
            Err(e) => Err(e),
        },
        NativeOp::True => Ok(s.push(Token::Bool(true))),
        NativeOp::False => Ok(s.push(Token::Bool(false))),
        _ => Err(VmError::Unsupported),
    }
}

/// One native-operation step: what it pops and pushes, and the next
/// instruction index (`index + 1` unless the operation transfers control).
pub open spec fn native_step(v: VmView, n: NativeOp) -> Result<(VmView, usize), VmError> {
    if is_stack_native(n) {
        match stack_step(v.stack, n) {
            Ok(s2) => adv(VmView { stack: s2, ..v }),
            Err(e) => Err(e),
        }
    } else {
        match n {
            NativeOp::Dot => match s_pop(v.stack) {
                Ok((s2, t)) => adv(
                    VmView { stack: s2, out: v.out.push(OutView::Printed(t)), ..v },
                ),
                Err(e) => Err(e),
            },
            NativeOp::Dots => adv(
                VmView { out: v.out.push(OutView::StackSnapshot(v.stack)), ..v },
            ),
            NativeOp::CtrlDots => adv(
                VmView { out: v.out.push(OutView::CtrlSnapshot(v.ctrl)), ..v },
            ),
            NativeOp::Def => adv(VmView { ctrl: v.ctrl.push(Token::Control(Mode::Def)), ..v }),
            NativeOp::Var => adv(VmView { ctrl: v.ctrl.push(Token::Control(Mode::Var)), ..v }),
            NativeOp::Quote => adv(VmView { ctrl: v.ctrl.push(Token::Control(Mode::Quote)), ..v }),
            NativeOp::OpenParen => adv(
                VmView { ctrl: v.ctrl.push(Token::Control(Mode::Comment)), ..v },
            ),
            NativeOp::OpenBrace => match spec_bump(v.index) {
                Ok(nx) => Ok(
                    (
                        VmView {
                            ctrl: v.ctrl.push(Token::Control(Mode::Compile)),
                            stack: v.stack.push(Token::Jump(nx)),
                            ..v
                        },
                        nx,
                    ),
                ),
                Err(e) => Err(e),
            },
            NativeOp::CloseBrace => match s_pop(v.ctrl) {
                Ok((c2, Token::Jump(j))) => Ok((VmView { ctrl: c2, ..v }, j)),
                _ => Err(VmError::MissingReturnAddress),
            },
            NativeOp::Semicolon => match s_pop(v.stack) {
                Ok((s1, Token::Jump(j))) => match s_pop(s1) {
                    Ok((s2, Token::Symbol(i))) => if i < v.syms.len() {
                        adv(
                            VmView {
                                stack: s2,
                                dict: v.dict.push(DictView { word: v.syms[i as int], jump: j }),
                                ..v
                            },
                        )
                    } else {
                        Err(VmError::InvalidHandle)
                    },
                    Ok(_) => Err(VmError::TypeMismatch),
                    Err(e) => Err(e),
                },
                Ok(_) => Err(VmError::TypeMismatch),
                Err(e) => Err(e),
            },
            NativeOp::StoreCtrl => match s_pop(v.stack) {
                Ok((s2, t)) => adv(VmView { stack: s2, ctrl: v.ctrl.push(t), ..v }),
                Err(e) => Err(e),
            },
            NativeOp::ReadCtrl => match s_pop(v.ctrl) {
                Ok((c2, t)) => adv(VmView { ctrl: c2, stack: v.stack.push(t), ..v }),
                Err(e) => Err(e),
            },
            NativeOp::CopyCtrl => match s_pop(v.ctrl) {
                Ok((c2, t)) => adv(VmView { ctrl: c2.push(t), stack: v.stack.push(t), ..v }),
                Err(e) => Err(e),
            },
            NativeOp::Invoke => match s_pop_jump(v.stack) {
                Ok((s2, j)) => match spec_bump(v.index) {
                    Ok(nx) => Ok(
                        (VmView { stack: s2, ctrl: v.ctrl.push(Token::Jump(nx)), ..v }, j),
                    ),
                    Err(e) => Err(e),
                },
                Err(e) => Err(e),
            },
            NativeOp::If => match s_pop_jump(v.stack) {
                Ok((s1, no)) => match s_pop_jump(s1) {
                    Ok((s2, yes)) => match s_pop_bool(s2) {
                        Ok((s3, cond)) => Ok(
                            (
                                VmView { stack: s3, ..v },
                                if cond {
                                    yes
                                } else {
                                    no
                                },
                            ),
                        ),
                        Err(e) => Err(e),
                    },
                    Err(e) => Err(e),
                },
                Err(e) => Err(e),
            },
            NativeOp::Range => match s_pop_num(v.stack) {
                Ok((s1, to)) => match s_pop_num(s1) {
                    Ok((s2, from)) => match s_pop_jump(s2) {
                        Ok((s3, j)) => adv(
                            VmView {
                                stack: s3,
                                ctrl: v.ctrl.push(Token::Number(to)).push(Token::Number(from)).push(
                                    Token::Jump(j),
                                ),
                                ..v
                            },
                        ),
                        Err(e) => Err(e),
                    },
                    Err(e) => Err(e),
                },
                Err(e) => Err(e),
            },
            NativeOp::Enumerate => match s_pop_jump(v.ctrl) {
                Ok((c1, j)) => match s_pop_num(c1) {
                    Ok((c2, from)) => match s_pop_num(c2) {
                        Ok((c3, to)) => if from < to {
                            Ok(
                                (
                                    VmView {
                                        ctrl: c3.push(Token::Number(to)).push(
                                            Token::Number((from + 1) as i64),
                                        ).push(Token::Jump(j)).push(Token::Jump(v.index)),
                                        ..v
                                    },
                                    j,
                                ),
                            )
                        } else {
                            adv(VmView { ctrl: c3, ..v })
                        },
                        Err(e) => Err(e),
                    },
                    Err(e) => Err(e),
                },
                Err(e) => Err(e),
            },
            NativeOp::LeaveIf => match s_pop_bool(v.stack) {
                Ok((s1, cond)) => if cond {
                    match s_pop_jump(v.ctrl) {
                        Ok((c1, reentry)) => match s_pop_jump(c1) {
                            Ok((c2, _body)) => match s_pop_num(c2) {
                                Ok((c3, _)) => match s_pop_num(c3) {
                                    Ok((c4, _)) => match spec_bump(reentry) {
                                        Ok(nx) => Ok((VmView { stack: s1, ctrl: c4, ..v }, nx)),
                                        Err(e) => Err(e),
                                    },
                                    Err(e) => Err(e),
                                },
                                Err(e) => Err(e),
                            },
                            Err(e) => Err(e),
                        },
                        Err(e) => Err(e),
                    }
                } else {
                    adv(VmView { stack: s1, ..v })
                },
                Err(e) => Err(e),
            },
            NativeOp::I => if v.ctrl.len() < 3 {
                Err(VmError::StackUnderflow)
            } else {
                match v.ctrl[v.ctrl.len() - 3] {
                    Token::Number(x) => if x == i64::MIN {
                        Err(VmError::Overflow)
                    } else {
                        adv(VmView { stack: v.stack.push(Token::Number((x - 1) as i64)), ..v })
                    },
                    _ => Err(VmError::TypeMismatch),
                }
            },
            NativeOp::Read => match s_pop_var(v.stack) {
                Ok((s2, h)) => if h < v.vars.len() {
                    match v.vars[h as int] {
                        Token::Number(x) => adv(
                            VmView { stack: s2.push(Token::Number(x)), ..v },
                        ),
                        _ => Err(VmError::TypeMismatch),
                    }
                } else {
                    Err(VmError::InvalidHandle)
                },
                Err(e) => Err(e),
            },
            NativeOp::Write => match s_pop_var(v.stack) {
                Ok((s1, h)) => match s_pop_num(s1) {
                    Ok((s2, x)) => if h < v.vars.len() {
                        adv(
                            VmView {
                                stack: s2,
                                vars: v.vars.update(h as int, Token::Number(x)),
                                ..v
                            },
                        )
                    } else {
                        Err(VmError::InvalidHandle)
                    },
                    Err(e) => Err(e),
                },
                Err(e) => Err(e),
            },
            NativeOp::Debug => adv(v),
            _ => Err(VmError::Unsupported),
        }
    }
}

/// One evaluator step: the active mode (the control stack's top) gates
/// dispatch; in the normal state literals push themselves, jumps and word
/// references call, natives run.
pub open spec fn eval_step(v: VmView, t: Token) -> Result<(VmView, usize), VmError> {
    if top_token(v.ctrl) == Some(Token::Control(Mode::Def)) {
        adv(v)
    } else if top_token(v.ctrl) == Some(Token::Control(Mode::Quote)) {
        match t {
            Token::Word(w) => if w < v.dict.len() {
                adv(
                    VmView {
                        ctrl: v.ctrl.drop_last(),
                        stack: v.stack.push(Token::Jump(v.dict[w as int].jump)),
                        ..v
                    },
                )
            } else {
                Err(VmError::InvalidHandle)
            },
            _ => Err(VmError::InvalidModeTransition),
        }
    } else if top_token(v.ctrl) == Some(Token::Control(Mode::Compile)) {
        if t == Token::Native(NativeOp::OpenBrace) {
            adv(VmView { ctrl: v.ctrl.push(Token::Control(Mode::Compile)), ..v })
        } else if t == Token::Native(NativeOp::CloseBrace) {
            adv(VmView { ctrl: v.ctrl.drop_last(), ..v })
        } else {
            adv(v)
        }
    } else {
        match t {
            Token::Native(n) => native_step(v, n),
            Token::Number(_) => adv(VmView { stack: v.stack.push(t), ..v }),
            Token::Bool(_) => adv(VmView { stack: v.stack.push(t), ..v }),
            Token::Symbol(_) => adv(VmView { stack: v.stack.push(t), ..v }),
            Token::Var(_) => adv(VmView { stack: v.stack.push(t), ..v }),
            Token::Control(_) => Err(VmError::InvalidModeTransition),
            Token::Jump(target) => match spec_bump(v.index) {
                Ok(nx) => Ok((VmView { ctrl: v.ctrl.push(Token::Jump(nx)), ..v }, target)),
                Err(e) => Err(e),
            },
            Token::Word(w) => if w < v.dict.len() {
                match spec_bump(v.index) {
                    Ok(nx) => Ok(
                        (
                            VmView { ctrl: v.ctrl.push(Token::Jump(nx)), ..v },
                            v.dict[w as int].jump,
                        ),
                    ),
                    Err(e) => Err(e),
                }
            } else {
                Err(VmError::InvalidHandle)
            },
            Token::Empty => adv(v),
            Token::Str(_) => Err(VmError::Unsupported),
        }
    }
}

/// Whether two states agree on everything but the two stacks: what a failing
/// step is allowed to leave behind. A fatal step may have consumed operands,
/// but it never touches the instruction cache, the arenas, the dictionary,
/// the variable store, the output log or the instruction pointer.
pub open spec fn eq_outside_stacks(a: VmView, b: VmView) -> bool {
    a.index == b.index && a.tokens == b.tokens && a.syms == b.syms && a.strs == b.strs && a.dict
        == b.dict && a.vars == b.vars && a.out == b.out
}

/// How a whole run ends: the instruction pointer leaves both the cache and
/// the source (natural termination), the step budget runs out, or a step
/// fails. A fatal outcome carries the state the failing step started from,
/// so that what the machine had printed up to the abort stays pinned.
pub ghost enum RunOutcome {
    Finished(VmView),
    OutOfFuel(VmView),
    Fatal(VmView, VmError),
}

/// Runs the machine: replay the cached instruction under the instruction
/// pointer, or tokenize the next source lexeme and cache it; evaluate; stop
/// when neither cache nor source has an instruction.
pub open spec fn spec_run(v: VmView, raws: Seq<Seq<char>>, si: int, fuel: nat) -> RunOutcome
    decreases fuel,
{
    if !(v.index < v.tokens.len() || si < raws.len()) {
        RunOutcome::Finished(v)
    } else if fuel == 0 {
        RunOutcome::OutOfFuel(v)
    } else if v.index < v.tokens.len() {
        match eval_step(v, v.tokens[v.index as int]) {
            Ok((v2, nx)) => spec_run(VmView { index: nx, ..v2 }, raws, si, (fuel - 1) as nat),
            Err(e) => RunOutcome::Fatal(v, e),
        }
    } else {
        match spec_parse(v, raws[si]) {
            Ok((v2, t)) => {
                let v3 = VmView { tokens: v2.tokens.push(t), ..v2 };
                match eval_step(v3, t) {
                    Ok((v4, nx)) => spec_run(
                        VmView { index: nx, ..v4 },
                        raws,
                        si + 1,
                        (fuel - 1) as nat,
                    ),
                    Err(e) => RunOutcome::Fatal(v3, e),
                }
            },
            Err(e) => RunOutcome::Fatal(v, e),
        }
    }
}

} // verus!
