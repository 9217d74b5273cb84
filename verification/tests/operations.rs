//! Unit-level checks of the tokenizer and single operations.
use stackvm::text::parse_int;
use stackvm::token::{Mode, NativeOp, Token, VmError};
use stackvm::virtual_machine::VirtualMachine;

#[test]
fn parse_resolves_native_keywords() {
    let mut vm = VirtualMachine::new();
    assert_eq!(vm.parse("dup"), Ok(Token::Native(NativeOp::Dup)));
    assert_eq!(vm.parse("+"), Ok(Token::Native(NativeOp::Plus)));
    assert_eq!(vm.parse("leave-if"), Ok(Token::Native(NativeOp::LeaveIf)));
    assert_eq!(vm.parse("{"), Ok(Token::Native(NativeOp::OpenBrace)));
}

#[test]
fn parse_resolves_numbers_strings_and_unknowns() {
    let mut vm = VirtualMachine::new();
    assert_eq!(vm.parse("42"), Ok(Token::Number(42)));
    assert_eq!(vm.parse("-42"), Ok(Token::Number(-42)));
    assert_eq!(vm.parse("nonsense"), Ok(Token::Empty));
    assert_eq!(vm.parse("\"quoted\""), Ok(Token::Str(0)));
    assert_eq!(vm.strs.len(), 1);
    assert_eq!(vm.parse("\"again\""), Ok(Token::Str(1)));
    assert_eq!(vm.strs.len(), 2);
}

#[test]
fn parse_in_definition_mode_captures_a_symbol() {
    let mut vm = VirtualMachine::new();
    vm.ctrl.push(Token::Control(Mode::Def));
    assert_eq!(vm.parse("square"), Ok(Token::Symbol(0)));
    assert_eq!(vm.syms.len(), 1);
    assert_eq!(vm.ctrl.len(), 0);
}

#[test]
fn parse_in_variable_mode_synthesizes_the_expansion() {
    let mut vm = VirtualMachine::new();
    vm.ctrl.push(Token::Control(Mode::Var));
    assert_eq!(vm.parse("x"), Ok(Token::Empty));
    assert_eq!(vm.vars, vec![Token::Number(0)]);
    assert_eq!(
        vm.tokens,
        vec![
            Token::Empty,
            Token::Symbol(0),
            Token::Native(NativeOp::OpenBrace),
            Token::Var(0),
            Token::Native(NativeOp::CloseBrace),
            Token::Native(NativeOp::Semicolon),
        ]
    );
}

#[test]
fn parse_in_comment_mode_yields_empty_until_close_paren() {
    let mut vm = VirtualMachine::new();
    vm.ctrl.push(Token::Control(Mode::Comment));
    assert_eq!(vm.parse("dup"), Ok(Token::Empty));
    assert_eq!(vm.ctrl.len(), 1);
    assert_eq!(vm.parse(")"), Ok(Token::Empty));
    assert_eq!(vm.ctrl.len(), 0);
}

#[test]
fn if_transfers_to_the_chosen_target() {
    let mut vm = VirtualMachine::new();
    vm.stack.push(Token::Bool(true));
    vm.stack.push(Token::Jump(20));
    vm.stack.push(Token::Jump(30));
    assert_eq!(vm.evaluate_native(NativeOp::If), Ok(20));
    assert_eq!(vm.stack, Vec::new());

    let mut vm = VirtualMachine::new();
    vm.stack.push(Token::Bool(false));
    vm.stack.push(Token::Jump(20));
    vm.stack.push(Token::Jump(30));
    assert_eq!(vm.evaluate_native(NativeOp::If), Ok(30));
}

#[test]
fn evaluating_a_mode_marker_is_fatal() {
    let mut vm = VirtualMachine::new();
    assert_eq!(
        vm.evaluate(Token::Control(Mode::Quote)),
        Err(VmError::InvalidModeTransition)
    );
}

#[test]
fn word_call_pushes_a_return_address() {
    let mut vm = VirtualMachine::new();
    vm.index = 9;
    vm.dict.push(stackvm::virtual_machine::DictEntry {
        word: String::from("w"),
        jump: 3,
    });
    assert_eq!(vm.evaluate(Token::Word(0)), Ok(3));
    assert_eq!(vm.ctrl, vec![Token::Jump(10)]);
}

#[test]
fn enumerate_rearms_while_iterations_remain() {
    let mut vm = VirtualMachine::new();
    vm.index = 7;
    vm.ctrl.push(Token::Number(5));
    vm.ctrl.push(Token::Number(0));
    vm.ctrl.push(Token::Jump(1));
    assert_eq!(vm.evaluate_native(NativeOp::Enumerate), Ok(1));
    assert_eq!(
        vm.ctrl,
        vec![
            Token::Number(5),
            Token::Number(1),
            Token::Jump(1),
            Token::Jump(7),
        ]
    );
    // The counter three slots down drives `i`.
    assert_eq!(vm.evaluate_native(NativeOp::I), Ok(8));
    assert_eq!(vm.stack, vec![Token::Number(0)]);
}

#[test]
fn enumerate_falls_through_when_exhausted() {
    let mut vm = VirtualMachine::new();
    vm.index = 7;
    vm.ctrl.push(Token::Number(5));
    vm.ctrl.push(Token::Number(5));
    vm.ctrl.push(Token::Jump(1));
    assert_eq!(vm.evaluate_native(NativeOp::Enumerate), Ok(8));
    assert_eq!(vm.ctrl, Vec::new());
}

#[test]
fn integer_literals_parse_exactly() {
    assert_eq!(parse_int("0"), Some(0));
    assert_eq!(parse_int("007"), Some(7));
    assert_eq!(parse_int("-9223372036854775808"), Some(i64::MIN));
    assert_eq!(parse_int("9223372036854775807"), Some(i64::MAX));
    assert_eq!(parse_int("9223372036854775808"), None);
    assert_eq!(parse_int("-9223372036854775809"), None);
    assert_eq!(parse_int(""), None);
    assert_eq!(parse_int("-"), None);
    assert_eq!(parse_int("3.5"), None);
    assert_eq!(parse_int("12a"), None);
}
