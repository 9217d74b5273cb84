//! The threaded execution engine.
//!
//! One machine owns the instruction cache, the value and control stacks, the
//! symbol/string arenas, the dictionary, the variable store, and the output
//! log. Source text is tokenized on first visit and replayed from the cache
//! thereafter, so backward jumps re-execute resolved instructions without
//! re-tokenizing. Every public method is proved to follow the step functions
//! of the mathematical model (`crate::step`).
use crate::arith::{abs_i64, add_i64, div_i64, mod_i64, mul_i64, neg_i64, pow_i64, sub_i64};
use crate::natives::native_of;
use crate::stack::Stack;
use crate::step::{
    contains_text, eq_outside_stacks, eval_step, find_word_from, is_stack_native, native_step, spec_bump,
    spec_find_word, spec_parse, spec_run, stack_step, top_token, DictView, RunOutcome, VmView,
};
use crate::text::{parse_int, spec_lexemes, split_whitespace_lexemes};
use crate::token::{Mode, NativeOp, OutEvent, Token, VmError};
use vstd::prelude::*;
use vstd::string::StrSliceExecFns;

verus! {

/// A finalized word: its name and the instruction index its body begins at.
/// Entries are created exactly once, by `;`, and never removed or mutated.
pub struct DictEntry {
    pub word: String,
    pub jump: usize,
}

impl View for DictEntry {
    type V = DictView;

    open spec fn view(&self) -> DictView {
        DictView { word: self.word@, jump: self.jump }
    }
}

impl DeepView for DictEntry {
    type V = DictView;

    open spec fn deep_view(&self) -> DictView {
        self.view()
    }
}

/// The interpreter: an instruction pointer over a lazily-populated
/// instruction cache, two stacks, and the append-only stores.
pub struct VirtualMachine {
    /// The instruction pointer.
    pub index: usize,
    /// The instruction cache: parse-on-first-visit, replay-thereafter.
    pub tokens: Vec<Token>,
    /// The value stack.
    pub stack: Vec<Token>,
    /// The control stack: mode markers, return addresses, loop bookkeeping.
    pub ctrl: Vec<Token>,
    /// The symbol-name arena (word and variable names).
    pub syms: Vec<String>,
    /// The string arena.
    pub strs: Vec<String>,
    /// The dictionary of finalized words.
    pub dict: Vec<DictEntry>,
    /// The variable store: one numeric cell per declared variable.
    pub vars: Vec<Token>,
    /// What the machine printed, in order.
    pub out: Vec<OutEvent>,
}

impl View for VirtualMachine {
    type V = VmView;

    open spec fn view(&self) -> VmView {
        VmView {
            index: self.index,
            tokens: self.tokens@,
            stack: self.stack@,
            ctrl: self.ctrl@,
            syms: self.syms.deep_view(),
            strs: self.strs.deep_view(),
            dict: self.dict.deep_view(),
            vars: self.vars@,
            out: self.out.deep_view(),
        }
    }
}

/// The state a fresh machine starts in: everything empty, pointer at zero.
pub open spec fn init_view() -> VmView {
    VmView {
        index: 0,
        tokens: Seq::empty(),
        stack: Seq::empty(),
        ctrl: Seq::empty(),
        syms: Seq::empty(),
        strs: Seq::empty(),
        dict: Seq::empty(),
        vars: Seq::empty(),
        out: Seq::empty(),
    }
}

/// The top of a token stack, without popping it.
fn top_of(v: &Vec<Token>) -> (r: Option<Token>)
    ensures
        r == top_token(v@),
{
    if v.len() == 0 {
        None
    } else {
        Some(v[v.len() - 1])
    }
}

/// The next instruction index.
fn bump_index(i: usize) -> (r: Result<usize, VmError>)
    ensures
        r == spec_bump(i),
{
    if i == usize::MAX {
        Err(VmError::Overflow)
    } else {
        Ok(i + 1)
    }
}

/// Whether the symbol arena already holds this name.
fn contains_name(syms: &Vec<String>, raw: &str) -> (r: bool)
    ensures
        r == contains_text(syms.deep_view(), raw@),
{
    let n = syms.len();
    let mut k: usize = 0;
    while k < n
        invariant
            n == syms.len(),
            0 <= k <= n,
            forall|j: int| 0 <= j < k ==> syms.deep_view()[j] != raw@,
        decreases n - k,
    {
        if crate::text::eq_str(syms[k].as_str(), raw) {
            assert(syms.deep_view()[k as int] == raw@);
            return true;
        }
        k = k + 1;
    }
    false
}

/// The first dictionary entry whose word is this name, if any.
fn find_word(dict: &Vec<DictEntry>, raw: &str) -> (r: Option<usize>)
    ensures
        r == spec_find_word(dict.deep_view(), raw@),
{
    let n = dict.len();
    let mut k: usize = 0;
    while k < n
        invariant
            n == dict.len(),
            0 <= k <= n,
            spec_find_word(dict.deep_view(), raw@) == find_word_from(
                dict.deep_view(),
                raw@,
                k as int,
            ),
        decreases n - k,
    {
        if crate::text::eq_str(dict[k].word.as_str(), raw) {
            assert(dict.deep_view()[k as int].word == raw@);
            return Some(k);
        }
        k = k + 1;
    }
    None
}

/// A copy of a whole token stack, for an output snapshot.
fn copy_tokens(v: &Vec<Token>) -> (r: Vec<Token>)
    ensures
        r@ == v@,
{
    let mut r: Vec<Token> = Vec::new();
    let mut k: usize = 0;
    while k < v.len()
        invariant
            0 <= k <= v.len(),
            r@ == v@.take(k as int),
        decreases v.len() - k,
    {
        r.push(v[k]);
        assert(r@ =~= v@.take(k + 1));
        k = k + 1;
    }
    assert(v@.take(v.len() as int) =~= v@);
    r
}

/// Whether a native only reads and writes the value stack.
fn stack_native(n: NativeOp) -> (r: bool)
    ensures
        r == is_stack_native(n),
{
    match n {
        NativeOp::Plus | NativeOp::Minus | NativeOp::Multiply | NativeOp::Divide | NativeOp::Pow
            | NativeOp::Mod | NativeOp::Floor | NativeOp::Ceil | NativeOp::Round | NativeOp::Abs
            | NativeOp::Neg | NativeOp::Drop | NativeOp::Swap | NativeOp::Rot | NativeOp::Pick
            | NativeOp::Over | NativeOp::Dup | NativeOp::Questionmark | NativeOp::Equal
            | NativeOp::GreaterThan | NativeOp::LessThan | NativeOp::Not | NativeOp::True
            | NativeOp::False => true,
        _ => false,
    }
}

/// Runs a value-stack-only native against the value stack.
fn run_stack_native(stack: &mut Vec<Token>, n: NativeOp) -> (r: Result<(), VmError>)
    ensures
        match stack_step(old(stack)@, n) {
            Ok(s2) => r == Ok::<(), VmError>(()) && final (stack)@ == s2,
            Err(e) => r == Err::<(), VmError>(e),
        },
{
    match n {
        NativeOp::Plus | NativeOp::Minus | NativeOp::Multiply | NativeOp::Divide | NativeOp::Pow
            | NativeOp::Mod | NativeOp::Floor | NativeOp::Ceil | NativeOp::Round | NativeOp::Abs
            | NativeOp::Neg => run_arith_native(stack, n),
        NativeOp::Drop | NativeOp::Swap | NativeOp::Rot | NativeOp::Pick | NativeOp::Over
            | NativeOp::Dup | NativeOp::Questionmark => run_shuffle_native(stack, n),
        NativeOp::Equal | NativeOp::GreaterThan | NativeOp::LessThan | NativeOp::Not
            | NativeOp::True | NativeOp::False => run_compare_native(stack, n),
        _ => Err(VmError::Unsupported),
    }
}

/// The arithmetic natives: unary and binary operations on numbers.
#[verifier::rlimit(100)]
fn run_arith_native(stack: &mut Vec<Token>, n: NativeOp) -> (r: Result<(), VmError>)
    requires
        matches!(n, NativeOp::Plus | NativeOp::Minus | NativeOp::Multiply | NativeOp::Divide
            | NativeOp::Pow | NativeOp::Mod | NativeOp::Floor | NativeOp::Ceil | NativeOp::Round
            | NativeOp::Abs | NativeOp::Neg),
    ensures
        match stack_step(old(stack)@, n) {
            Ok(s2) => r == Ok::<(), VmError>(()) && final (stack)@ == s2,
            Err(e) => r == Err::<(), VmError>(e),
        },
{
    match n {
        NativeOp::Plus => {
            let rhs = match stack.pop_num() {
                Ok(x) => x,
                Err(e) => return Err(e),
            };
            let lhs = match stack.pop_num() {
                Ok(x) => x,
                Err(e) => return Err(e),
            };
            match add_i64(rhs, lhs) {
                Ok(x) => {
                    stack.push(Token::Number(x));
                    Ok(())
                },
                Err(e) => Err(e),
            }
        },
        NativeOp::Minus => {
            let rhs = match stack.pop_num() {
                Ok(x) => x,
                Err(e) => return Err(e),
            };
            let lhs = match stack.pop_num() {
                Ok(x) => x,
                Err(e) => return Err(e),
            };
            match sub_i64(lhs, rhs) {
                Ok(x) => {
                    stack.push(Token::Number(x));
                    Ok(())
                },
                Err(e) => Err(e),
            }
        },
        NativeOp::Multiply => {
            let rhs = match stack.pop_num() {
                Ok(x) => x,
                Err(e) => return Err(e),
            };
            let lhs = match stack.pop_num() {
                Ok(x) => x,
                Err(e) => return Err(e),
            };
            match mul_i64(rhs, lhs) {
                Ok(x) => {
                    stack.push(Token::Number(x));
                    Ok(())
                },
                Err(e) => Err(e),
            }
        },
        NativeOp::Divide => {
            let rhs = match stack.pop_num() {
                Ok(x) => x,
                Err(e) => return Err(e),
            };
            let lhs = match stack.pop_num() {
                Ok(x) => x,
                Err(e) => return Err(e),
            };
            match div_i64(lhs, rhs) {
                Ok(x) => {
                    stack.push(Token::Number(x));
                    Ok(())
                },
                Err(e) => Err(e),
            }
        },
        NativeOp::Pow => {
            let rhs = match stack.pop_num() {
                Ok(x) => x,
                Err(e) => return Err(e),
            };
            let lhs = match stack.pop_num() {
                Ok(x) => x,
                Err(e) => return Err(e),
            };
            match pow_i64(lhs, rhs) {
                Ok(x) => {
                    stack.push(Token::Number(x));
                    Ok(())
                },
                Err(e) => Err(e),
            }
        },
        NativeOp::Mod => {
            let rhs = match stack.pop_num() {
                Ok(x) => x,
                Err(e) => return Err(e),
            };
            let lhs = match stack.pop_num() {
                Ok(x) => x,
                Err(e) => return Err(e),
            };
            match mod_i64(lhs, rhs) {
                Ok(x) => {
                    stack.push(Token::Number(x));
                    Ok(())
                },
                Err(e) => Err(e),
            }
        },
        NativeOp::Floor | NativeOp::Ceil | NativeOp::Round => {
            // Numbers are integers: rounding in any direction returns them.
            let x = match stack.pop_num() {
                Ok(x) => x,
                Err(e) => return Err(e),
            };
            stack.push(Token::Number(x));
            Ok(())
        },
        NativeOp::Abs => {
            let x = match stack.pop_num() {
                Ok(x) => x,
                Err(e) => return Err(e),
            };
            match abs_i64(x) {
                Ok(y) => {
                    stack.push(Token::Number(y));
                    Ok(())
                },
                Err(e) => Err(e),
            }
        },
        NativeOp::Neg => {
            let x = match stack.pop_num() {
                Ok(x) => x,
                Err(e) => return Err(e),
            };
            match neg_i64(x) {
                Ok(y) => {
                    stack.push(Token::Number(y));
                    Ok(())
                },
                Err(e) => Err(e),
            }
        },
        _ => Err(VmError::Unsupported),
    }
}

/// The stack-shuffling natives and conditional value selection.
#[verifier::rlimit(100)]
fn run_shuffle_native(stack: &mut Vec<Token>, n: NativeOp) -> (r: Result<(), VmError>)
    requires
        matches!(n, NativeOp::Drop | NativeOp::Swap | NativeOp::Rot | NativeOp::Pick | NativeOp::Over
            | NativeOp::Dup | NativeOp::Questionmark),
    ensures
        match stack_step(old(stack)@, n) {
            Ok(s2) => r == Ok::<(), VmError>(()) && final (stack)@ == s2,
            Err(e) => r == Err::<(), VmError>(e),
        },
{
    match n {
        NativeOp::Drop => {
            match stack.popp() {
                Ok(_) => Ok(()),
                Err(e) => Err(e),
            }
        },
        NativeOp::Swap => {
            let a = match stack.popp() {
                Ok(t) => t,
                Err(e) => return Err(e),
            };
            let b = match stack.popp() {
                Ok(t) => t,
                Err(e) => return Err(e),
            };
            stack.push(a);
            stack.push(b);
            Ok(())
        },
        NativeOp::Rot => {
            let a = match stack.popp() {
                Ok(t) => t,
                Err(e) => return Err(e),
            };
            let b = match stack.popp() {
                Ok(t) => t,
                Err(e) => return Err(e),
            };
            let c = match stack.popp() {
                Ok(t) => t,
                Err(e) => return Err(e),
            };
            stack.push(b);
            stack.push(a);
            stack.push(c);
            Ok(())
        },
        NativeOp::Pick => {
            let x = match stack.pop_num() {
                Ok(x) => x,
                Err(e) => return Err(e),
            };
            if x < 2 {
                return Err(VmError::StackUnderflow);
            }
            // The depth counts against the length before the pop: len + 1 - x.
            let du = (x as u64) - 1;
            if du > stack.len() as u64 {
                return Err(VmError::StackUnderflow);
            }
            let idx = stack.len() - du as usize;
            let t = stack[idx];
            stack.push(t);
            Ok(())
        },
        NativeOp::Over => {
            let a = match stack.popp() {
                Ok(t) => t,
                Err(e) => return Err(e),
            };
            let b = match stack.popp() {
                Ok(t) => t,
                Err(e) => return Err(e),
            };
            stack.push(b);
            stack.push(a);
            stack.push(b);
            Ok(())
        },
        NativeOp::Dup => {
            let a = match stack.popp() {
                Ok(t) => t,
                Err(e) => return Err(e),
            };
            stack.push(a);
            stack.push(a);
            Ok(())
        },
        NativeOp::Questionmark => {
            let fv = match stack.popp() {
                Ok(t) => t,
                Err(e) => return Err(e),
            };
            let tv = match stack.popp() {
                Ok(t) => t,
                Err(e) => return Err(e),
            };
            let cond = match stack.pop_bool() {
                Ok(b) => b,
                Err(e) => return Err(e),
            };
            stack.push(if cond {
                tv
            } else {
                fv
            });
            Ok(())
        },
        _ => Err(VmError::Unsupported),
    }
}

/// The comparison natives and the boolean literals.
#[verifier::rlimit(100)]
fn run_compare_native(stack: &mut Vec<Token>, n: NativeOp) -> (r: Result<(), VmError>)
    requires
        matches!(n, NativeOp::Equal | NativeOp::GreaterThan | NativeOp::LessThan | NativeOp::Not
            | NativeOp::True | NativeOp::False),
    ensures
        match stack_step(old(stack)@, n) {
            Ok(s2) => r == Ok::<(), VmError>(()) && final (stack)@ == s2,
            Err(e) => r == Err::<(), VmError>(e),
        },
{
    match n {
        NativeOp::Equal => {
            let rhs = match stack.pop_num() {
                Ok(x) => x,
                Err(e) => return Err(e),
            };
            let lhs = match stack.pop_num() {
                Ok(x) => x,
                Err(e) => return Err(e),
            };
            stack.push(Token::Bool(lhs == rhs));
            Ok(())
        },
        NativeOp::GreaterThan => {
            let rhs = match stack.pop_num() {
                Ok(x) => x,
                Err(e) => return Err(e),
            };
            let lhs = match stack.pop_num() {
                Ok(x) => x,
                Err(e) => return Err(e),
            };
            stack.push(Token::Bool(lhs > rhs));
            Ok(())
        },
        NativeOp::LessThan => {
            let rhs = match stack.pop_num() {
                Ok(x) => x,
                Err(e) => return Err(e),
            };
            let lhs = match stack.pop_num() {
                Ok(x) => x,
                Err(e) => return Err(e),
            };
            stack.push(Token::Bool(lhs < rhs));
            Ok(())
        },
        NativeOp::Not => {
            let b = match stack.pop_bool() {
                Ok(b) => b,
                Err(e) => return Err(e),
            };
            stack.push(Token::Bool(!b));
            Ok(())
        },
        NativeOp::True => {
            stack.push(Token::Bool(true));
            Ok(())
        },
        NativeOp::False => {
            stack.push(Token::Bool(false));
            Ok(())
        },
        _ => Err(VmError::Unsupported),
    }
}

impl VirtualMachine {
    /// A fresh machine: empty stores, instruction pointer at zero.
    pub fn new() -> (vm: VirtualMachine)
        ensures
            vm@ == init_view(),
    {
        let vm = VirtualMachine {
            index: 0,
            tokens: Vec::new(),
            stack: Vec::new(),
            ctrl: Vec::new(),
            syms: Vec::new(),
            strs: Vec::new(),
            dict: Vec::new(),
            vars: Vec::new(),
            out: Vec::new(),
        };
        proof {
            assert(vm@ =~= init_view());
        }
        vm
    }

    /// Tokenizes one raw lexeme into one instruction, consulting (and
    /// sometimes popping) the control stack's top for the active parsing
    /// mode; a variable declaration also synthesizes its six-instruction
    /// expansion into the cache.
    pub fn parse(&mut self, raw_token: &str) -> (r: Result<Token, VmError>)
        ensures
            match spec_parse(old(self)@, raw_token@) {
                Ok((v2, t)) => r == Ok::<Token, VmError>(t) && final (self)@ == v2,
                Err(e) => r == Err::<Token, VmError>(e) && eq_outside_stacks(old(self)@, final (self)@),
            },
    {
        let ghost v0 = self@;
        match top_of(&self.ctrl) {
            Some(Token::Control(Mode::Comment)) => {
                match native_of(raw_token) {
                    Some(NativeOp::CloseParen) => {
                        self.ctrl.pop();
                        assert(self@ =~= (VmView { ctrl: v0.ctrl.drop_last(), ..v0 }));
                    },
                    _ => {},
                }
                return Ok(Token::Empty);
            },
            Some(Token::Control(Mode::Def)) => {
                self.ctrl.pop();
                if contains_name(&self.syms, raw_token) {
                    return Err(VmError::DuplicateSymbol);
                }
                let h = self.syms.len();
                self.syms.push(raw_token.to_owned());
                proof {
                    assert(self.syms.deep_view() =~= v0.syms.push(raw_token@));
                    assert(self@ =~= (VmView {
                        ctrl: v0.ctrl.drop_last(),
                        syms: v0.syms.push(raw_token@),
                        ..v0
                    }));
                }
                return Ok(Token::Symbol(h));
            },
            Some(Token::Control(Mode::Var)) => {
                self.ctrl.pop();
                if contains_name(&self.syms, raw_token) {
                    return Err(VmError::DuplicateSymbol);
                }
                let h = self.syms.len();
                let varh = self.vars.len();
                self.vars.push(Token::Number(0));
                self.syms.push(raw_token.to_owned());
                self.tokens.push(Token::Empty);
                self.tokens.push(Token::Symbol(h));
                self.tokens.push(Token::Native(NativeOp::OpenBrace));
                self.tokens.push(Token::Var(varh));
                self.tokens.push(Token::Native(NativeOp::CloseBrace));
                self.tokens.push(Token::Native(NativeOp::Semicolon));
                proof {
                    assert(self.syms.deep_view() =~= v0.syms.push(raw_token@));
                    assert(self.tokens@ =~= v0.tokens + seq![
                        Token::Empty,
                        Token::Symbol(v0.syms.len() as usize),
                        Token::Native(NativeOp::OpenBrace),
                        Token::Var(v0.vars.len() as usize),
                        Token::Native(NativeOp::CloseBrace),
                        Token::Native(NativeOp::Semicolon),
                    ]);
                    assert(self@ =~= (VmView {
                        ctrl: v0.ctrl.drop_last(),
                        vars: v0.vars.push(Token::Number(0)),
                        syms: v0.syms.push(raw_token@),
                        tokens: self.tokens@,
                        ..v0
                    }));
                }
                return Ok(Token::Empty);
            },
            _ => {},
        }
        match native_of(raw_token) {
            Some(n) => {
                return Ok(Token::Native(n));
            },
            None => {},
        }
        match find_word(&self.dict, raw_token) {
            Some(i) => {
                return Ok(Token::Word(i));
            },
            None => {},
        }
        match parse_int(raw_token) {
            Some(x) => {
                return Ok(Token::Number(x));
            },
            None => {},
        }
        let n = raw_token.unicode_len();
        if n >= 1 && raw_token.get_char(0) == '"' && raw_token.get_char(n - 1) == '"' {
            let h = self.strs.len();
            self.strs.push(raw_token.to_owned());
            proof {
                assert(self.strs.deep_view() =~= v0.strs.push(raw_token@));
                assert(self@ =~= (VmView { strs: v0.strs.push(raw_token@), ..v0 }));
            }
            return Ok(Token::Str(h));
        }
        Ok(Token::Empty)
    }

    /// Runs one native operation: pops and pushes per its contract, and
    /// returns the next instruction index (`index + 1` unless the operation
    /// transfers control).
    pub fn evaluate_native(&mut self, native: NativeOp) -> (r: Result<usize, VmError>)
        ensures
            match native_step(old(self)@, native) {
                Ok((v2, nx)) => r == Ok::<usize, VmError>(nx) && final (self)@ == v2,
                Err(e) => r == Err::<usize, VmError>(e) && eq_outside_stacks(old(self)@, final (self)@),
            },
    {
        let ghost v0 = self@;
        if stack_native(native) {
            match run_stack_native(&mut self.stack, native) {
                Ok(()) => {
                    proof {
                        assert(self@ =~= (VmView { stack: self.stack@, ..v0 }));
                    }
                    return bump_index(self.index);
                },
                Err(e) => {
                    return Err(e);
                },
            }
        }
        match native {
            NativeOp::Dot | NativeOp::Dots | NativeOp::CtrlDots => self.native_output_step(native),
            NativeOp::Def | NativeOp::Var | NativeOp::Quote | NativeOp::OpenParen
                | NativeOp::OpenBrace | NativeOp::CloseBrace | NativeOp::Semicolon => self
                .native_define_step(native),
            NativeOp::StoreCtrl | NativeOp::ReadCtrl | NativeOp::CopyCtrl | NativeOp::Invoke
                | NativeOp::If => self.native_transfer_step(native),
            NativeOp::Range | NativeOp::Enumerate | NativeOp::LeaveIf | NativeOp::I => self
                .native_loop_step(native),
            _ => self.native_store_step(native),
        }
    }

    /// The output natives: print the top value or a whole-stack snapshot.
    #[verifier::rlimit(100)]
    fn native_output_step(&mut self, native: NativeOp) -> (r: Result<usize, VmError>)
        requires
            matches!(native, NativeOp::Dot | NativeOp::Dots | NativeOp::CtrlDots),
        ensures
            match native_step(old(self)@, native) {
                Ok((v2, nx)) => r == Ok::<usize, VmError>(nx) && final (self)@ == v2,
                Err(e) => r == Err::<usize, VmError>(e) && eq_outside_stacks(old(self)@, final (self)@),
            },
    {
        let ghost v0 = self@;
        match native {
            NativeOp::Dot => {
                let t = match self.stack.popp() {
                    Ok(t) => t,
                    Err(e) => return Err(e),
                };
                let nx = match bump_index(self.index) {
                    Ok(nx) => nx,
                    Err(e) => return Err(e),
                };
                self.out.push(OutEvent::Printed(t));
                proof {
                    assert(self.out.deep_view() =~= v0.out.push(
                        crate::token::OutView::Printed(t),
                    ));
                    assert(self@ =~= (VmView {
                        stack: self.stack@,
                        out: self.out.deep_view(),
                        ..v0
                    }));
                }
                Ok(nx)
            },
            NativeOp::Dots => {
                let nx = match bump_index(self.index) {
                    Ok(nx) => nx,
                    Err(e) => return Err(e),
                };
                let snap = copy_tokens(&self.stack);
                self.out.push(OutEvent::StackSnapshot(snap));
                proof {
                    assert(self.out.deep_view() =~= v0.out.push(
                        crate::token::OutView::StackSnapshot(v0.stack),
                    ));
                    assert(self@ =~= (VmView { out: self.out.deep_view(), ..v0 }));
                }
                Ok(nx)
            },
            NativeOp::CtrlDots => {
                let nx = match bump_index(self.index) {
                    Ok(nx) => nx,
                    Err(e) => return Err(e),
                };
                let snap = copy_tokens(&self.ctrl);
                self.out.push(OutEvent::CtrlSnapshot(snap));
                proof {
                    assert(self.out.deep_view() =~= v0.out.push(
                        crate::token::OutView::CtrlSnapshot(v0.ctrl),
                    ));
                    assert(self@ =~= (VmView { out: self.out.deep_view(), ..v0 }));
                }
                Ok(nx)
            },
            _ => Err(VmError::Unsupported),
        }
    }

    /// The definition-lifecycle natives: mode pushes, bracket compilation,
    /// and `;`, which finalizes a dictionary entry.
    #[verifier::rlimit(100)]
    fn native_define_step(&mut self, native: NativeOp) -> (r: Result<usize, VmError>)
        requires
            matches!(native, NativeOp::Def | NativeOp::Var | NativeOp::Quote | NativeOp::OpenParen
                | NativeOp::OpenBrace | NativeOp::CloseBrace | NativeOp::Semicolon),
        ensures
            match native_step(old(self)@, native) {
                Ok((v2, nx)) => r == Ok::<usize, VmError>(nx) && final (self)@ == v2,
                Err(e) => r == Err::<usize, VmError>(e) && eq_outside_stacks(old(self)@, final (self)@),
            },
    {
        let ghost v0 = self@;
        match native {
            NativeOp::Def => {
                self.ctrl.push(Token::Control(Mode::Def));
                proof {
                    assert(self@ =~= (VmView { ctrl: self.ctrl@, ..v0 }));
                }
                bump_index(self.index)
            },
            NativeOp::Var => {
                self.ctrl.push(Token::Control(Mode::Var));
                proof {
                    assert(self@ =~= (VmView { ctrl: self.ctrl@, ..v0 }));
                }
                bump_index(self.index)
            },
            NativeOp::Quote => {
                self.ctrl.push(Token::Control(Mode::Quote));
                proof {
                    assert(self@ =~= (VmView { ctrl: self.ctrl@, ..v0 }));
                }
                bump_index(self.index)
            },
            NativeOp::OpenParen => {
                self.ctrl.push(Token::Control(Mode::Comment));
                proof {
                    assert(self@ =~= (VmView { ctrl: self.ctrl@, ..v0 }));
                }
                bump_index(self.index)
            },
            NativeOp::OpenBrace => {
                let nx = match bump_index(self.index) {
                    Ok(nx) => nx,
                    Err(e) => return Err(e),
                };
                self.ctrl.push(Token::Control(Mode::Compile));
                self.stack.push(Token::Jump(nx));
                proof {
                    assert(self@ =~= (VmView { ctrl: self.ctrl@, stack: self.stack@, ..v0 }));
                }
                Ok(nx)
            },
            NativeOp::CloseBrace => {
                match self.ctrl.popp() {
                    Ok(Token::Jump(j)) => {
                        proof {
                            assert(self@ =~= (VmView { ctrl: self.ctrl@, ..v0 }));
                        }
                        Ok(j)
                    },
                    _ => Err(VmError::MissingReturnAddress),
                }
            },
            NativeOp::Semicolon => {
                let j = match self.stack.popp() {
                    Ok(Token::Jump(j)) => j,
                    Ok(_) => return Err(VmError::TypeMismatch),
                    Err(e) => return Err(e),
                };
                let sym = match self.stack.popp() {
                    Ok(Token::Symbol(i)) => i,
                    Ok(_) => return Err(VmError::TypeMismatch),
                    Err(e) => return Err(e),
                };
                if sym >= self.syms.len() {
                    return Err(VmError::InvalidHandle);
                }
                let nx = match bump_index(self.index) {
                    Ok(nx) => nx,
                    Err(e) => return Err(e),
                };
                let word = self.syms[sym].clone();
                self.dict.push(DictEntry { word, jump: j });
                proof {
                    assert(self.dict.deep_view() =~= v0.dict.push(
                        DictView { word: v0.syms[sym as int], jump: j },
                    ));
                    assert(self@ =~= (VmView {
                        stack: self.stack@,
                        dict: self.dict.deep_view(),
                        ..v0
                    }));
                }
                Ok(nx)
            },
            _ => Err(VmError::Unsupported),
        }
    }

    /// The control-transfer natives: moves between the two stacks, calling a
    /// first-class code pointer, and branching.
    #[verifier::rlimit(100)]
    fn native_transfer_step(&mut self, native: NativeOp) -> (r: Result<usize, VmError>)
        requires
            matches!(native, NativeOp::StoreCtrl | NativeOp::ReadCtrl | NativeOp::CopyCtrl
                | NativeOp::Invoke | NativeOp::If),
        ensures
            match native_step(old(self)@, native) {
                Ok((v2, nx)) => r == Ok::<usize, VmError>(nx) && final (self)@ == v2,
                Err(e) => r == Err::<usize, VmError>(e) && eq_outside_stacks(old(self)@, final (self)@),
            },
    {
        let ghost v0 = self@;
        match native {
            NativeOp::StoreCtrl => {
                let t = match self.stack.popp() {
                    Ok(t) => t,
                    Err(e) => return Err(e),
                };
                self.ctrl.push(t);
                proof {
                    assert(self@ =~= (VmView { stack: self.stack@, ctrl: self.ctrl@, ..v0 }));
                }
                bump_index(self.index)
            },
            NativeOp::ReadCtrl => {
                let t = match self.ctrl.popp() {
                    Ok(t) => t,
                    Err(e) => return Err(e),
                };
                self.stack.push(t);
                proof {
                    assert(self@ =~= (VmView { stack: self.stack@, ctrl: self.ctrl@, ..v0 }));
                }
                bump_index(self.index)
            },
            NativeOp::CopyCtrl => {
                let t = match self.ctrl.popp() {
                    Ok(t) => t,
                    Err(e) => return Err(e),
                };
                self.ctrl.push(t);
                self.stack.push(t);
                proof {
                    assert(self@ =~= (VmView { stack: self.stack@, ctrl: self.ctrl@, ..v0 }));
                }
                bump_index(self.index)
            },
            NativeOp::Invoke => {
                let j = match self.stack.pop_jump() {
                    Ok(j) => j,
                    Err(e) => return Err(e),
                };
                let nx = match bump_index(self.index) {
                    Ok(nx) => nx,
                    Err(e) => return Err(e),
                };
                self.ctrl.push(Token::Jump(nx));
                proof {
                    assert(self@ =~= (VmView { stack: self.stack@, ctrl: self.ctrl@, ..v0 }));
                }
                Ok(j)
            },
            NativeOp::If => {
                let no = match self.stack.pop_jump() {
                    Ok(j) => j,
                    Err(e) => return Err(e),
                };
                let yes = match self.stack.pop_jump() {
                    Ok(j) => j,
                    Err(e) => return Err(e),
                };
                let cond = match self.stack.pop_bool() {
                    Ok(b) => b,
                    Err(e) => return Err(e),
                };
                proof {
                    assert(self@ =~= (VmView { stack: self.stack@, ..v0 }));
                }
                Ok(
                    if cond {
                        yes
                    } else {
                        no
                    },
                )
            },
            _ => Err(VmError::Unsupported),
        }
    }

    /// The loop-family natives, which keep their bookkeeping as plain values
    /// on the control stack.
    #[verifier::rlimit(100)]
    fn native_loop_step(&mut self, native: NativeOp) -> (r: Result<usize, VmError>)
        requires
            matches!(native, NativeOp::Range | NativeOp::Enumerate | NativeOp::LeaveIf | NativeOp::I),
        ensures
            match native_step(old(self)@, native) {
                Ok((v2, nx)) => r == Ok::<usize, VmError>(nx) && final (self)@ == v2,
                Err(e) => r == Err::<usize, VmError>(e) && eq_outside_stacks(old(self)@, final (self)@),
            },
    {
        let ghost v0 = self@;
        match native {
            NativeOp::Range => {
                let to = match self.stack.pop_num() {
                    Ok(x) => x,
                    Err(e) => return Err(e),
                };
                self.ctrl.push(Token::Number(to));
                let from = match self.stack.pop_num() {
                    Ok(x) => x,
                    Err(e) => return Err(e),
                };
                self.ctrl.push(Token::Number(from));
                let j = match self.stack.pop_jump() {
                    Ok(x) => x,
                    Err(e) => return Err(e),
                };
                self.ctrl.push(Token::Jump(j));
                proof {
                    assert(self@ =~= (VmView { stack: self.stack@, ctrl: self.ctrl@, ..v0 }));
                }
                bump_index(self.index)
            },
            NativeOp::Enumerate => {
                let j = match self.ctrl.pop_jump() {
                    Ok(x) => x,
                    Err(e) => return Err(e),
                };
                let from = match self.ctrl.pop_num() {
                    Ok(x) => x,
                    Err(e) => return Err(e),
                };
                let to = match self.ctrl.pop_num() {
                    Ok(x) => x,
                    Err(e) => return Err(e),
                };
                if from < to {
                    self.ctrl.push(Token::Number(to));
                    self.ctrl.push(Token::Number(from + 1));
                    self.ctrl.push(Token::Jump(j));
                    self.ctrl.push(Token::Jump(self.index));
                    proof {
                        assert(self@ =~= (VmView { ctrl: self.ctrl@, ..v0 }));
                    }
                    Ok(j)
                } else {
                    proof {
                        assert(self@ =~= (VmView { ctrl: self.ctrl@, ..v0 }));
                    }
                    bump_index(self.index)
                }
            },
            NativeOp::LeaveIf => {
                let cond = match self.stack.pop_bool() {
                    Ok(b) => b,
                    Err(e) => return Err(e),
                };
                if cond {
                    let reentry = match self.ctrl.pop_jump() {
                        Ok(x) => x,
                        Err(e) => return Err(e),
                    };
                    match self.ctrl.pop_jump() {
                        Ok(_) => {},
                        Err(e) => return Err(e),
                    }
                    match self.ctrl.pop_num() {
                        Ok(_) => {},
                        Err(e) => return Err(e),
                    }
                    match self.ctrl.pop_num() {
                        Ok(_) => {},
                        Err(e) => return Err(e),
                    }
                    proof {
                        assert(self@ =~= (VmView { stack: self.stack@, ctrl: self.ctrl@, ..v0 }));
                    }
                    bump_index(reentry)
                } else {
                    proof {
                        assert(self@ =~= (VmView { stack: self.stack@, ..v0 }));
                    }
                    bump_index(self.index)
                }
            },
            NativeOp::I => {
                if self.ctrl.len() < 3 {
                    return Err(VmError::StackUnderflow);
                }
                let t = self.ctrl[self.ctrl.len() - 3];
                match t {
                    Token::Number(x) => {
                        if x == i64::MIN {
                            return Err(VmError::Overflow);
                        }
                        self.stack.push(Token::Number(x - 1));
                        proof {
                            assert(self@ =~= (VmView { stack: self.stack@, ..v0 }));
                        }
                        bump_index(self.index)
                    },
                    _ => Err(VmError::TypeMismatch),
                }
            },
            _ => Err(VmError::Unsupported),
        }
    }

    /// The variable-store natives, the no-op `debug`, and the stubbed
    /// operations, which are fatal when reached.
    #[verifier::rlimit(100)]
    fn native_store_step(&mut self, native: NativeOp) -> (r: Result<usize, VmError>)
        requires
            !crate::step::is_stack_native(native),
            matches!(native, NativeOp::Read | NativeOp::Write | NativeOp::Debug | NativeOp::LoadFile
                | NativeOp::ByteArray | NativeOp::SetElem | NativeOp::GetElem
                | NativeOp::DisplayImage | NativeOp::Loop | NativeOp::Assign | NativeOp::Comment
                | NativeOp::CloseParen),
        ensures
            match native_step(old(self)@, native) {
                Ok((v2, nx)) => r == Ok::<usize, VmError>(nx) && final (self)@ == v2,
                Err(e) => r == Err::<usize, VmError>(e) && eq_outside_stacks(old(self)@, final (self)@),
            },
    {
        let ghost v0 = self@;
        match native {
            NativeOp::Read => {
                let h = match self.stack.pop_var() {
                    Ok(h) => h,
                    Err(e) => return Err(e),
                };
                if h >= self.vars.len() {
                    return Err(VmError::InvalidHandle);
                }
                match self.vars[h] {
                    Token::Number(x) => {
                        self.stack.push(Token::Number(x));
                        proof {
                            assert(self@ =~= (VmView { stack: self.stack@, ..v0 }));
                        }
                        bump_index(self.index)
                    },
                    _ => Err(VmError::TypeMismatch),
                }
            },
            NativeOp::Write => {
                let h = match self.stack.pop_var() {
                    Ok(h) => h,
                    Err(e) => return Err(e),
                };
                let x = match self.stack.pop_num() {
                    Ok(x) => x,
                    Err(e) => return Err(e),
                };
                if h >= self.vars.len() {
                    return Err(VmError::InvalidHandle);
                }
                let nx = match bump_index(self.index) {
                    Ok(nx) => nx,
                    Err(e) => return Err(e),
                };
                self.vars.set(h, Token::Number(x));
                proof {
                    assert(self@ =~= (VmView { stack: self.stack@, vars: self.vars@, ..v0 }));
                }
                Ok(nx)
            },
            NativeOp::Debug => bump_index(self.index),
            _ => Err(VmError::Unsupported),
        }
    }

    /// Evaluates one instruction: the active mode (the control stack's top)
    /// gates dispatch; in the normal state literals push themselves, jumps
    /// and word references call, natives run. Returns the next instruction
    /// index.
    pub fn evaluate(&mut self, token: Token) -> (r: Result<usize, VmError>)
        ensures
            match eval_step(old(self)@, token) {
                Ok((v2, nx)) => r == Ok::<usize, VmError>(nx) && final (self)@ == v2,
                Err(e) => r == Err::<usize, VmError>(e) && eq_outside_stacks(old(self)@, final (self)@),
            },
    {
        let ghost v0 = self@;
        match top_of(&self.ctrl) {
            Some(Token::Control(Mode::Def)) => {
                return bump_index(self.index);
            },
            Some(Token::Control(Mode::Quote)) => {
                match token {
                    Token::Word(w) => {
                        if w >= self.dict.len() {
                            return Err(VmError::InvalidHandle);
                        }
                        self.ctrl.pop();
                        let j = self.dict[w].jump;
                        self.stack.push(Token::Jump(j));
                        proof {
                            assert(self@ =~= (VmView {
                                ctrl: v0.ctrl.drop_last(),
                                stack: v0.stack.push(Token::Jump(v0.dict[w as int].jump)),
                                ..v0
                            }));
                        }
                        return bump_index(self.index);
                    },
                    _ => {
                        return Err(VmError::InvalidModeTransition);
                    },
                }
            },
            Some(Token::Control(Mode::Compile)) => {
                if token == Token::Native(NativeOp::OpenBrace) {
                    self.ctrl.push(Token::Control(Mode::Compile));
                    proof {
                        assert(self@ =~= (VmView { ctrl: self.ctrl@, ..v0 }));
                    }
                } else if token == Token::Native(NativeOp::CloseBrace) {
                    self.ctrl.pop();
                    proof {
                        assert(self@ =~= (VmView { ctrl: v0.ctrl.drop_last(), ..v0 }));
                    }
                }
                return bump_index(self.index);
            },
            _ => {},
        }
        match token {
            Token::Native(n) => self.evaluate_native(n),
            Token::Number(_) | Token::Bool(_) | Token::Symbol(_) | Token::Var(_) => {
                self.stack.push(token);
                proof {
                    assert(self@ =~= (VmView { stack: v0.stack.push(token), ..v0 }));
                }
                bump_index(self.index)
            },
            Token::Control(_) => Err(VmError::InvalidModeTransition),
            Token::Jump(target) => {
                let nx = match bump_index(self.index) {
                    Ok(nx) => nx,
                    Err(e) => return Err(e),
                };
                self.ctrl.push(Token::Jump(nx));
                proof {
                    assert(self@ =~= (VmView { ctrl: v0.ctrl.push(Token::Jump(nx)), ..v0 }));
                }
                Ok(target)
            },
            Token::Word(w) => {
                if w >= self.dict.len() {
                    return Err(VmError::InvalidHandle);
                }
                let nx = match bump_index(self.index) {
                    Ok(nx) => nx,
                    Err(e) => return Err(e),
                };
                self.ctrl.push(Token::Jump(nx));
                proof {
                    assert(self@ =~= (VmView { ctrl: v0.ctrl.push(Token::Jump(nx)), ..v0 }));
                }
                Ok(self.dict[w].jump)
            },
            Token::Empty => bump_index(self.index),
            Token::Str(_) => Err(VmError::Unsupported),
        }
    }

    /// Runs a source text to completion (or fatal abort), spending at most
    /// `fuel` fetch-evaluate steps. Returns `Ok(true)` when the program ran
    /// to natural termination, `Ok(false)` when the step budget ran out
    /// first, and the fatal error otherwise.
    pub fn interpret(&mut self, source: String, fuel: u64) -> (r: Result<bool, VmError>)
        ensures
            match spec_run(
                VmView { index: 0, ..old(self)@ },
                spec_lexemes(source@),
                0,
                fuel as nat,
            ) {
                RunOutcome::Finished(vf) => r == Ok::<bool, VmError>(true) && final (self)@ == vf,
                RunOutcome::OutOfFuel(vf) => r == Ok::<bool, VmError>(false) && final (self)@
                    == vf,
                RunOutcome::Fatal(vf, e) => r == Err::<bool, VmError>(e) && eq_outside_stacks(
                    vf,
                    final (self)@,
                ),
            },
    {
        let raws = split_whitespace_lexemes(source.as_str());
        self.index = 0;
        proof {
            assert(self@ =~= (VmView { index: 0, ..old(self)@ }));
        }
        let mut source_index: usize = 0;
        let mut fuel_left: u64 = fuel;
        loop
            invariant
                raws.deep_view() == spec_lexemes(source@),
                0 <= source_index <= raws.len(),
                spec_run(VmView { index: 0, ..old(self)@ }, spec_lexemes(source@), 0, fuel as nat)
                    == spec_run(
                    self@,
                    raws.deep_view(),
                    source_index as int,
                    fuel_left as nat,
                ),
            decreases fuel_left,
        {
            let ghost lexs = raws.deep_view();
            let more_cache = self.index < self.tokens.len();
            let more_source = source_index < raws.len();
            if !(more_cache || more_source) {
                assert(spec_run(self@, lexs, source_index as int, fuel_left as nat)
                    == RunOutcome::Finished(self@));
                return Ok(true);
            }
            if fuel_left == 0 {
                assert(spec_run(self@, lexs, source_index as int, fuel_left as nat)
                    == RunOutcome::OutOfFuel(self@));
                return Ok(false);
            }
            let ghost v_iter = self@;
            let ghost si_iter = source_index as int;
            let ghost fuel_iter = fuel_left as nat;
            fuel_left = fuel_left - 1;
            let token: Token;
            if more_cache {
                token = self.tokens[self.index];
            } else {
                assert(lexs[si_iter] == raws[si_iter]@);
                let t = match self.parse(raws[source_index].as_str()) {
                    Ok(t) => t,
                    Err(e) => {
                        assert(spec_run(v_iter, lexs, si_iter, fuel_iter) == RunOutcome::Fatal(
                            v_iter,
                            e,
                        ));
                        return Err(e);
                    },
                };
                source_index = source_index + 1;
                self.tokens.push(t);
                token = t;
                proof {
                    let (pv, pt) = spec_parse(v_iter, lexs[si_iter])->Ok_0;
                    assert(pt == t);
                    assert(self@ =~= (VmView { tokens: pv.tokens.push(pt), ..pv }));
                }
            }
            let ghost v_mid = self@;
            match self.evaluate(token) {
                Ok(nx) => {
                    self.index = nx;
                    proof {
                        assert(self@ =~= (VmView { index: nx, ..eval_step(v_mid, token)->Ok_0.0 }));
                        assert(spec_run(v_iter, lexs, si_iter, fuel_iter) == spec_run(
                            self@,
                            lexs,
                            source_index as int,
                            fuel_left as nat,
                        ));
                    }
                },
                Err(e) => {
                    assert(spec_run(v_iter, lexs, si_iter, fuel_iter) == RunOutcome::Fatal(
                        v_mid,
                        e,
                    ));
                    return Err(e);
                },
            }
        }
    }
}

} // verus!
