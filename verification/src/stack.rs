//! Tag-checked stack access.
//!
//! Every native operation reaches the two stacks through these fallible,
//! tag-checked pops; popping an empty stack or a value of the wrong tag is
//! fatal and aborts the run.
use crate::step::{s_pop, s_pop_bool, s_pop_jump, s_pop_num, s_pop_var};
use crate::token::{Token, VmError};
use vstd::prelude::*;

verus! {

/// Fallible, tag-checked pops over a stack of tokens. On failure the run
/// aborts, so nothing is promised of the stack's remains.
pub trait Stack: Sized {
    spec fn contents(&self) -> Seq<Token>;

    /// Pop any value.
    fn popp(&mut self) -> (r: Result<Token, VmError>)
        ensures
            match s_pop(old(self).contents()) {
                Ok((s2, t)) => r == Ok::<Token, VmError>(t) && final (self).contents() == s2,
                Err(e) => r == Err::<Token, VmError>(e),
            },
    ;

    /// Pop a value that must be a number.
    fn pop_num(&mut self) -> (r: Result<i64, VmError>)
        ensures
            match s_pop_num(old(self).contents()) {
                Ok((s2, x)) => r == Ok::<i64, VmError>(x) && final (self).contents() == s2,
                Err(e) => r == Err::<i64, VmError>(e),
            },
    ;

    /// Pop a value that must be a boolean.
    fn pop_bool(&mut self) -> (r: Result<bool, VmError>)
        ensures
            match s_pop_bool(old(self).contents()) {
                Ok((s2, x)) => r == Ok::<bool, VmError>(x) && final (self).contents() == s2,
                Err(e) => r == Err::<bool, VmError>(e),
            },
    ;

    /// Pop a value that must be a jump target.
    fn pop_jump(&mut self) -> (r: Result<usize, VmError>)
        ensures
            match s_pop_jump(old(self).contents()) {
                Ok((s2, x)) => r == Ok::<usize, VmError>(x) && final (self).contents() == s2,
                Err(e) => r == Err::<usize, VmError>(e),
            },
    ;

    /// Pop a value that must be a variable handle.
    fn pop_var(&mut self) -> (r: Result<usize, VmError>)
        ensures
            match s_pop_var(old(self).contents()) {
                Ok((s2, x)) => r == Ok::<usize, VmError>(x) && final (self).contents() == s2,
                Err(e) => r == Err::<usize, VmError>(e),
            },
    ;
}

impl Stack for Vec<Token> {
    open spec fn contents(&self) -> Seq<Token> {
        self@
    }

    fn popp(&mut self) -> (r: Result<Token, VmError>) {
        match self.pop() {
            Some(t) => Ok(t),
            None => Err(VmError::StackUnderflow),
        }
    }

    fn pop_num(&mut self) -> (r: Result<i64, VmError>) {
        match self.pop() {
            Some(Token::Number(x)) => Ok(x),
            Some(_) => Err(VmError::TypeMismatch),
            None => Err(VmError::StackUnderflow),
        }
    }

    fn pop_bool(&mut self) -> (r: Result<bool, VmError>) {
        match self.pop() {
            Some(Token::Bool(x)) => Ok(x),
            Some(_) => Err(VmError::TypeMismatch),
            None => Err(VmError::StackUnderflow),
        }
    }

    fn pop_jump(&mut self) -> (r: Result<usize, VmError>) {
        match self.pop() {
            Some(Token::Jump(x)) => Ok(x),
            Some(_) => Err(VmError::TypeMismatch),
            None => Err(VmError::StackUnderflow),
        }
    }

    fn pop_var(&mut self) -> (r: Result<usize, VmError>) {
        match self.pop() {
            Some(Token::Var(x)) => Ok(x),
            Some(_) => Err(VmError::TypeMismatch),
            None => Err(VmError::StackUnderflow),
        }
    }
}

} // verus!
