//! End-to-end programs run through the interpreter.
use stackvm::token::{OutEvent, Token, VmError};
use stackvm::virtual_machine::VirtualMachine;

const FUEL: u64 = 1_000_000;

fn run(src: &str) -> VirtualMachine {
    let mut vm = VirtualMachine::new();
    let r = vm.interpret(String::from(src), FUEL);
    assert_eq!(r, Ok(true), "program should run to completion: {}", src);
    vm
}

fn run_err(src: &str) -> VmError {
    let mut vm = VirtualMachine::new();
    match vm.interpret(String::from(src), FUEL) {
        Err(e) => e,
        Ok(done) => panic!("expected a fatal error, got Ok({}) for: {}", done, src),
    }
}

fn nums(xs: &[i64]) -> Vec<Token> {
    xs.iter().map(|x| Token::Number(*x)).collect()
}

#[test]
fn arith_add() {
    assert_eq!(run("3 4 +").stack, nums(&[7]));
}

#[test]
fn arith_sub() {
    assert_eq!(run("10 3 -").stack, nums(&[7]));
}

#[test]
fn arith_mul() {
    assert_eq!(run("6 7 *").stack, nums(&[42]));
}

#[test]
fn arith_div() {
    assert_eq!(run("10 3 /").stack, nums(&[3]));
}

#[test]
fn arith_pow() {
    assert_eq!(run("2 3 ^").stack, nums(&[8]));
}

#[test]
fn arith_mod() {
    assert_eq!(run("10 3 %").stack, nums(&[1]));
}

#[test]
fn arith_unary() {
    assert_eq!(run("5 neg").stack, nums(&[-5]));
    assert_eq!(run("0 7 - abs").stack, nums(&[7]));
    assert_eq!(run("9 floor").stack, nums(&[9]));
    assert_eq!(run("9 ceil").stack, nums(&[9]));
    assert_eq!(run("9 round").stack, nums(&[9]));
}

#[test]
fn arith_nested_expression() {
    // (3 + 4) * (10 - 8) = 14
    assert_eq!(run("3 4 + 10 8 - *").stack, nums(&[14]));
}

#[test]
fn word_roundtrip() {
    assert_eq!(run("def square { dup * } ;  5 square").stack, nums(&[25]));
}

#[test]
fn duplicate_definition_is_fatal() {
    let e = run_err("def square { dup * } ; def square { dup } ;");
    assert_eq!(e, VmError::DuplicateSymbol);
}

#[test]
fn comparison_false() {
    assert_eq!(run("3 2 <").stack, vec![Token::Bool(false)]);
}

#[test]
fn comparison_true() {
    assert_eq!(run("2 3 <").stack, vec![Token::Bool(true)]);
    assert_eq!(run("3 2 >").stack, vec![Token::Bool(true)]);
    assert_eq!(run("3 3 =").stack, vec![Token::Bool(true)]);
    assert_eq!(run("true not").stack, vec![Token::Bool(false)]);
}

#[test]
fn conditional_takes_yes_branch() {
    let vm = run("def big { 77 . } ; def small { 88 . } ; def choose { 2 3 < ' big ' small if } ; choose");
    assert_eq!(vm.out, vec![OutEvent::Printed(Token::Number(77))]);
}

#[test]
fn conditional_takes_no_branch() {
    let vm = run("def big { 77 . } ; def small { 88 . } ; def choose { 3 2 < ' big ' small if } ; choose");
    assert_eq!(vm.out, vec![OutEvent::Printed(Token::Number(88))]);
}

#[test]
fn range_loop_runs_body_five_times() {
    let vm = run("{ i . } 0 5 range enumerate");
    let expected: Vec<OutEvent> =
        [0, 1, 2, 3, 4].iter().map(|x| OutEvent::Printed(Token::Number(*x))).collect();
    assert_eq!(vm.out, expected);
}

#[test]
fn leave_if_exits_loop_after_iteration() {
    let vm = run("{ i . i 2 = leave-if } 0 5 range enumerate 99 .");
    let expected: Vec<OutEvent> =
        [0, 1, 2, 99].iter().map(|x| OutEvent::Printed(Token::Number(*x))).collect();
    assert_eq!(vm.out, expected);
}

#[test]
fn empty_range_skips_body() {
    let vm = run("{ i . } 0 0 range enumerate");
    assert_eq!(vm.out, Vec::new());
}

#[test]
fn variable_roundtrip() {
    let vm = run("var x  42 x write  x read .");
    assert_eq!(vm.out, vec![OutEvent::Printed(Token::Number(42))]);
    let vm = run("var x  42 x write  7 x write  x read");
    assert_eq!(vm.stack, nums(&[7]));
}

#[test]
fn variable_reads_zero_before_write() {
    assert_eq!(run("var x  x read").stack, nums(&[0]));
}

#[test]
fn quotation_invoke_matches_direct_call() {
    let direct = run("def square { dup * } ;  5 square");
    let quoted = run("def square { dup * } ;  5 ' square invoke");
    assert_eq!(direct.stack, nums(&[25]));
    assert_eq!(quoted.stack, direct.stack);
}

#[test]
fn cached_instructions_are_stable_across_loop_replays() {
    // 8 lexemes; the loop body is replayed three times, yet the cache and
    // the arenas keep exactly one entry per parsed lexeme.
    let vm = run("{ i . } 0 3 range enumerate");
    assert_eq!(vm.tokens.len(), 8);
    assert_eq!(vm.syms.len(), 0);
    assert_eq!(vm.strs.len(), 0);
    assert_eq!(vm.vars.len(), 0);
}

#[test]
fn comment_is_skipped() {
    assert_eq!(run("( this text is ignored ) 1 2 +").stack, nums(&[3]));
}

#[test]
fn unknown_lexeme_is_a_silent_no_op() {
    // A documented quirk: an unresolvable word parses as an empty
    // instruction rather than failing the run.
    assert_eq!(run("xyzzy 5").stack, nums(&[5]));
}

#[test]
fn shuffle_words() {
    assert_eq!(run("1 2 swap").stack, nums(&[2, 1]));
    assert_eq!(run("1 2 3 rot").stack, nums(&[2, 3, 1]));
    assert_eq!(run("1 2 over").stack, nums(&[1, 2, 1]));
    assert_eq!(run("7 dup").stack, nums(&[7, 7]));
    assert_eq!(run("1 2 drop").stack, nums(&[1]));
    // The depth counts against the stack's length before the count is
    // popped: 2 copies the top, 4 reaches the bottom.
    assert_eq!(run("10 20 30 2 pick").stack, nums(&[10, 20, 30, 30]));
    assert_eq!(run("10 20 30 3 pick").stack, nums(&[10, 20, 30, 20]));
    assert_eq!(run("10 20 30 4 pick").stack, nums(&[10, 20, 30, 10]));
}

#[test]
fn conditional_value_selection() {
    assert_eq!(run("true 1 2 ?").stack, nums(&[1]));
    assert_eq!(run("false 1 2 ?").stack, nums(&[2]));
}

#[test]
fn control_stack_words() {
    assert_eq!(run("5 store-ctrl read-ctrl").stack, nums(&[5]));
    let vm = run("5 store-ctrl copy-ctrl");
    assert_eq!(vm.stack, nums(&[5]));
    assert_eq!(vm.ctrl, nums(&[5]));
}

#[test]
fn stack_snapshot_output() {
    let vm = run("1 2 .s");
    assert_eq!(vm.out, vec![OutEvent::StackSnapshot(nums(&[1, 2]))]);
    assert_eq!(vm.stack, nums(&[1, 2]));
}

#[test]
fn ctrl_snapshot_output() {
    let vm = run("5 store-ctrl .c");
    assert_eq!(vm.out, vec![OutEvent::CtrlSnapshot(nums(&[5]))]);
    assert_eq!(vm.ctrl, nums(&[5]));
}

#[test]
fn debug_is_a_no_op() {
    assert_eq!(run("1 debug 2").stack, nums(&[1, 2]));
}

#[test]
fn equal_compares_numbers_only() {
    assert_eq!(run_err("true false ="), VmError::TypeMismatch);
}

#[test]
fn signed_literals() {
    assert_eq!(run("-7 +5 +").stack, nums(&[-2]));
}

#[test]
fn fractional_literal_is_not_a_number() {
    // Numbers are integers; a fractional lexeme resolves to nothing.
    assert_eq!(run("5.5 3").stack, nums(&[3]));
}

#[test]
fn stack_underflow_is_fatal() {
    assert_eq!(run_err("+"), VmError::StackUnderflow);
    assert_eq!(run_err("drop"), VmError::StackUnderflow);
    assert_eq!(run_err("0 pick"), VmError::StackUnderflow);
    assert_eq!(run_err("5 1 pick"), VmError::StackUnderflow);
    assert_eq!(run_err("10 20 4 pick"), VmError::StackUnderflow);
}

#[test]
fn type_mismatch_is_fatal() {
    assert_eq!(run_err("true 1 +"), VmError::TypeMismatch);
    assert_eq!(run_err("1 not"), VmError::TypeMismatch);
}

#[test]
fn missing_return_address_is_fatal() {
    assert_eq!(run_err("}"), VmError::MissingReturnAddress);
}

#[test]
fn quoting_a_non_word_is_fatal() {
    assert_eq!(run_err("' 5"), VmError::InvalidModeTransition);
}

#[test]
fn division_by_zero_is_fatal() {
    assert_eq!(run_err("1 0 /"), VmError::DivisionByZero);
    assert_eq!(run_err("1 0 %"), VmError::DivisionByZero);
}

#[test]
fn overflow_is_fatal() {
    assert_eq!(run_err("9223372036854775807 1 +"), VmError::Overflow);
}

#[test]
fn string_literal_evaluation_is_fatal() {
    assert_eq!(run_err("\"hello\""), VmError::Unsupported);
}

#[test]
fn stubbed_native_is_fatal() {
    assert_eq!(run_err("byte-array"), VmError::Unsupported);
}

#[test]
fn out_of_fuel_reports_false() {
    let mut vm = VirtualMachine::new();
    assert_eq!(vm.interpret(String::from("1 2 +"), 0), Ok(false));
    let mut vm = VirtualMachine::new();
    assert_eq!(vm.interpret(String::from("1 2 +"), 2), Ok(false));
}

#[test]
fn empty_source_finishes_at_once() {
    let mut vm = VirtualMachine::new();
    assert_eq!(vm.interpret(String::from("   \n\t  "), 0), Ok(true));
    assert_eq!(vm.stack, Vec::new());
}
