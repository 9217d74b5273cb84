//! The native keyword table: the fixed mapping from literal keyword spelling
//! to built-in operation tag, consulted once per unseen lexeme.
use crate::text::eq_str;
use crate::token::NativeOp;
use vstd::prelude::*;

verus! {

/// The operation a keyword spelling names, if any.
pub open spec fn spec_native_of(s: Seq<char>) -> Option<NativeOp> {
    if s == "+"@ {
        Some(NativeOp::Plus)
    } else if s == "-"@ {
        Some(NativeOp::Minus)
    } else if s == "*"@ {
        Some(NativeOp::Multiply)
    } else if s == "/"@ {
        Some(NativeOp::Divide)
    } else if s == "^"@ {
        Some(NativeOp::Pow)
    } else if s == "%"@ {
        Some(NativeOp::Mod)
    } else if s == "floor"@ {
        Some(NativeOp::Floor)
    } else if s == "ceil"@ {
        Some(NativeOp::Ceil)
    } else if s == "round"@ {
        Some(NativeOp::Round)
    } else if s == "abs"@ {
        Some(NativeOp::Abs)
    } else if s == "neg"@ {
        Some(NativeOp::Neg)
    } else if s == "."@ {
        Some(NativeOp::Dot)
    } else if s == ".s"@ {
        Some(NativeOp::Dots)
    } else if s == ".c"@ {
        Some(NativeOp::CtrlDots)
    } else if s == "drop"@ {
        Some(NativeOp::Drop)
    } else if s == "swap"@ {
        Some(NativeOp::Swap)
    } else if s == "rot"@ {
        Some(NativeOp::Rot)
    } else if s == "pick"@ {
        Some(NativeOp::Pick)
    } else if s == "over"@ {
        Some(NativeOp::Over)
    } else if s == "dup"@ {
        Some(NativeOp::Dup)
    } else if s == "def"@ {
        Some(NativeOp::Def)
    } else if s == "var"@ {
        Some(NativeOp::Var)
    } else if s == "'"@ {
        Some(NativeOp::Quote)
    } else if s == "{"@ {
        Some(NativeOp::OpenBrace)
    } else if s == "}"@ {
        Some(NativeOp::CloseBrace)
    } else if s == ";"@ {
        Some(NativeOp::Semicolon)
    } else if s == "store-ctrl"@ {
        Some(NativeOp::StoreCtrl)
    } else if s == "read-ctrl"@ {
        Some(NativeOp::ReadCtrl)
    } else if s == "copy-ctrl"@ {
        Some(NativeOp::CopyCtrl)
    } else if s == "invoke"@ {
        Some(NativeOp::Invoke)
    } else if s == "?"@ {
        Some(NativeOp::Questionmark)
    } else if s == "if"@ {
        Some(NativeOp::If)
    } else if s == "range"@ {
        Some(NativeOp::Range)
    } else if s == "enumerate"@ {
        Some(NativeOp::Enumerate)
    } else if s == "leave-if"@ {
        Some(NativeOp::LeaveIf)
    } else if s == "i"@ {
        Some(NativeOp::I)
    } else if s == "("@ {
        Some(NativeOp::OpenParen)
    } else if s == ")"@ {
        Some(NativeOp::CloseParen)
    } else if s == "="@ {
        Some(NativeOp::Equal)
    } else if s == ">"@ {
        Some(NativeOp::GreaterThan)
    } else if s == "<"@ {
        Some(NativeOp::LessThan)
    } else if s == "not"@ {
        Some(NativeOp::Not)
    } else if s == "true"@ {
        Some(NativeOp::True)
    } else if s == "false"@ {
        Some(NativeOp::False)
    } else if s == "read"@ {
        Some(NativeOp::Read)
    } else if s == "write"@ {
        Some(NativeOp::Write)
    } else if s == "debug"@ {
        Some(NativeOp::Debug)
    } else if s == "load-file"@ {
        Some(NativeOp::LoadFile)
    } else if s == "byte-array"@ {
        Some(NativeOp::ByteArray)
    } else if s == "set"@ {
        Some(NativeOp::SetElem)
    } else if s == "get"@ {
        Some(NativeOp::GetElem)
    } else if s == "display-image"@ {
        Some(NativeOp::DisplayImage)
    } else if s == "loop"@ {
        Some(NativeOp::Loop)
    } else if s == "assign"@ {
        Some(NativeOp::Assign)
    } else if s == "comment"@ {
        Some(NativeOp::Comment)
    } else {
        None
    }
}

/// Looks a lexeme up in the native keyword table.
pub fn native_of(s: &str) -> (r: Option<NativeOp>)
    ensures
        r == spec_native_of(s@),
{
    if eq_str(s, "+") {
        Some(NativeOp::Plus)
    } else if eq_str(s, "-") {
        Some(NativeOp::Minus)
    } else if eq_str(s, "*") {
        Some(NativeOp::Multiply)
    } else if eq_str(s, "/") {
        Some(NativeOp::Divide)
    } else if eq_str(s, "^") {
        Some(NativeOp::Pow)
    } else if eq_str(s, "%") {
        Some(NativeOp::Mod)
    } else if eq_str(s, "floor") {
        Some(NativeOp::Floor)
    } else if eq_str(s, "ceil") {
        Some(NativeOp::Ceil)
    } else if eq_str(s, "round") {
        Some(NativeOp::Round)
    } else if eq_str(s, "abs") {
        Some(NativeOp::Abs)
    } else if eq_str(s, "neg") {
        Some(NativeOp::Neg)
    } else if eq_str(s, ".") {
        Some(NativeOp::Dot)
    } else if eq_str(s, ".s") {
        Some(NativeOp::Dots)
    } else if eq_str(s, ".c") {
        Some(NativeOp::CtrlDots)
    } else if eq_str(s, "drop") {
        Some(NativeOp::Drop)
    } else if eq_str(s, "swap") {
        Some(NativeOp::Swap)
    } else if eq_str(s, "rot") {
        Some(NativeOp::Rot)
    } else if eq_str(s, "pick") {
        Some(NativeOp::Pick)
    } else if eq_str(s, "over") {
        Some(NativeOp::Over)
    } else if eq_str(s, "dup") {
        Some(NativeOp::Dup)
    } else if eq_str(s, "def") {
        Some(NativeOp::Def)
    } else if eq_str(s, "var") {
        Some(NativeOp::Var)
    } else if eq_str(s, "'") {
        Some(NativeOp::Quote)
    } else if eq_str(s, "{") {
        Some(NativeOp::OpenBrace)
    } else if eq_str(s, "}") {
        Some(NativeOp::CloseBrace)
    } else if eq_str(s, ";") {
        Some(NativeOp::Semicolon)
    } else if eq_str(s, "store-ctrl") {
        Some(NativeOp::StoreCtrl)
    } else if eq_str(s, "read-ctrl") {
        Some(NativeOp::ReadCtrl)
    } else if eq_str(s, "copy-ctrl") {
        Some(NativeOp::CopyCtrl)
    } else if eq_str(s, "invoke") {
        Some(NativeOp::Invoke)
    } else if eq_str(s, "?") {
        Some(NativeOp::Questionmark)
    } else if eq_str(s, "if") {
        Some(NativeOp::If)
    } else if eq_str(s, "range") {
        Some(NativeOp::Range)
    } else if eq_str(s, "enumerate") {
        Some(NativeOp::Enumerate)
    } else if eq_str(s, "leave-if") {
        Some(NativeOp::LeaveIf)
    } else if eq_str(s, "i") {
        Some(NativeOp::I)
    } else if eq_str(s, "(") {
        Some(NativeOp::OpenParen)
    } else if eq_str(s, ")") {
        Some(NativeOp::CloseParen)
    } else if eq_str(s, "=") {
        Some(NativeOp::Equal)
    } else if eq_str(s, ">") {
        Some(NativeOp::GreaterThan)
    } else if eq_str(s, "<") {
        Some(NativeOp::LessThan)
    } else if eq_str(s, "not") {
        Some(NativeOp::Not)
    } else if eq_str(s, "true") {
        Some(NativeOp::True)
    } else if eq_str(s, "false") {
        Some(NativeOp::False)
    } else if eq_str(s, "read") {
        Some(NativeOp::Read)
    } else if eq_str(s, "write") {
        Some(NativeOp::Write)
    } else if eq_str(s, "debug") {
        Some(NativeOp::Debug)
    } else if eq_str(s, "load-file") {
        Some(NativeOp::LoadFile)
    } else if eq_str(s, "byte-array") {
        Some(NativeOp::ByteArray)
    } else if eq_str(s, "set") {
        Some(NativeOp::SetElem)
    } else if eq_str(s, "get") {
        Some(NativeOp::GetElem)
    } else if eq_str(s, "display-image") {
        Some(NativeOp::DisplayImage)
    } else if eq_str(s, "loop") {
        Some(NativeOp::Loop)
    } else if eq_str(s, "assign") {
        Some(NativeOp::Assign)
    } else if eq_str(s, "comment") {
        Some(NativeOp::Comment)
    } else {
        None
    }
}

} // verus!
