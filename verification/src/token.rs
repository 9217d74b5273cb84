//! The tagged-union value/instruction model and the fatal-error taxonomy.
//!
//! Instructions and runtime values share one representation (`Token`), since
//! both travel over the same two stacks. Handles (`Str`, `Symbol`, `Var`,
//! `Word`) index append-only arenas and stay valid for the whole run.
use vstd::prelude::*;

verus! {

/// A marker pushed on the control stack denoting an active parser/evaluator
/// mode. Modes gate both the tokenizer and the evaluator: each checks the
/// control stack's top before doing anything else on a given step.
#[derive(Clone, Copy, PartialEq, Eq, Structural, Debug)]
pub enum Mode {
    /// Skip lexemes until the close-paren keyword.
    Comment,
    /// The next lexeme is a new word's name.
    Def,
    /// The next lexeme is a new variable's name.
    Var,
    /// The next resolved word reference becomes a code pointer, not a call.
    Quote,
    /// Currently inside a bracketed body being recorded rather than executed.
    Compile,
}

/// The fixed set of built-in operations, identified by reserved keywords.
#[derive(Clone, Copy, PartialEq, Eq, Structural, Debug)]
pub enum NativeOp {
    Plus,
    Minus,
    Multiply,
    Divide,
    Pow,
    Mod,
    Floor,
    Ceil,
    Round,
    Abs,
    Neg,
    Dot,
    Dots,
    CtrlDots,
    Drop,
    Swap,
    Rot,
    Pick,
    Over,
    Dup,
    Def,
    Var,
    Quote,
    OpenBrace,
    CloseBrace,
    Semicolon,
    StoreCtrl,
    ReadCtrl,
    CopyCtrl,
    Invoke,
    Questionmark,
    If,
    Range,
    Enumerate,
    LeaveIf,
    I,
    OpenParen,
    CloseParen,
    Equal,
    GreaterThan,
    LessThan,
    Not,
    True,
    False,
    Read,
    Write,
    Debug,
    LoadFile,
    ByteArray,
    SetElem,
    GetElem,
    DisplayImage,
    Loop,
    Assign,
    Comment,
}

/// One element of the executable sequence: either a literal value or a
/// native/word operation. Runtime values and instructions share this type.
#[derive(Clone, Copy, PartialEq, Eq, Structural, Debug)]
pub enum Token {
    /// A numeric literal or arithmetic result.
    Number(i64),
    /// A boolean literal or comparison result.
    Bool(bool),
    /// Handle into the append-only string arena.
    Str(usize),
    /// Handle into the append-only symbol-name arena.
    Symbol(usize),
    /// Handle into the variable store.
    Var(usize),
    /// Index of a finalized dictionary entry; evaluating it calls the word.
    Word(usize),
    /// An absolute instruction-pointer value: call-return address, branch
    /// target, or loop bookkeeping.
    Jump(usize),
    /// An active parser/evaluator mode marker (control stack only).
    Control(Mode),
    /// A built-in operation.
    Native(NativeOp),
    /// A no-op instruction (unknown lexemes, filler from expansions).
    Empty,
}

/// Why a run aborted. Every error is fatal: there is no recovery channel,
/// the run stops at the first failure.
#[derive(Clone, Copy, PartialEq, Eq, Structural, Debug)]
pub enum VmError {
    /// Popping an empty value or control stack.
    StackUnderflow,
    /// Popping a value whose tag does not match the operation's expectation.
    TypeMismatch,
    /// A `def`/`var` name already present in the symbol arena.
    DuplicateSymbol,
    /// A `}` or a call return with no matching `Jump` on the control stack.
    MissingReturnAddress,
    /// Evaluating a `ControlMode` value directly, or a non-word while quoting.
    InvalidModeTransition,
    /// Dividing or taking a remainder by zero.
    DivisionByZero,
    /// An arithmetic result or instruction index outside the machine's range.
    Overflow,
    /// A handle pointing outside its arena.
    InvalidHandle,
    /// An operation outside this core: stubbed natives, string evaluation.
    Unsupported,
}

/// One record sent to the console-output collaborator. The core only decides
/// what is emitted; rendering values to text is outside it.
#[derive(PartialEq, Eq, Debug)]
pub enum OutEvent {
    /// `.` popped this value and printed it.
    Printed(Token),
    /// `.s` printed this snapshot of the whole value stack.
    StackSnapshot(Vec<Token>),
    /// `.c` printed this snapshot of the whole control stack.
    CtrlSnapshot(Vec<Token>),
}

/// The mathematical shadow of an `OutEvent`.
pub ghost enum OutView {
    Printed(Token),
    StackSnapshot(Seq<Token>),
    CtrlSnapshot(Seq<Token>),
}

impl View for OutEvent {
    type V = OutView;

    open spec fn view(&self) -> OutView {
        match self {
            OutEvent::Printed(t) => OutView::Printed(*t),
            OutEvent::StackSnapshot(s) => OutView::StackSnapshot(s@),
            OutEvent::CtrlSnapshot(s) => OutView::CtrlSnapshot(s@),
        }
    }
}

impl DeepView for OutEvent {
    type V = OutView;

    open spec fn deep_view(&self) -> OutView {
        self.view()
    }
}

} // verus!
