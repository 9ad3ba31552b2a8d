//! The abstract syntax of the language: expression and statement trees as the
//! parser builds them, immutable thereafter and carrying no behavior of their
//! own. Identifiers and literal text are owned, so a tree is independent of
//! the source it was read from.

use vstd::prelude::*;

verus! {

/// The name under which a variable is bound in the environment.
#[derive(Debug)]
pub struct Identifier {
    pub name: String,
}

impl Clone for Identifier {
    fn clone(&self) -> (r: Self)
        ensures
            r == self,
    {
        Identifier { name: self.name.clone() }
    }
}

/// A literal value as written in the program text. A number is carried as the
/// bit pattern of the binary64 value the numeral denotes.
#[derive(Debug)]
pub enum Literal {
    Undefined,
    Number(u64),
    String(String),
}

/// One expression node. Binary operators evaluate their left operand before
/// the right one; `Object` is a variable reference resolved against the
/// environment at evaluation time.
#[derive(Debug)]
pub enum Expression {
    Negate(Box<Expression>),
    Add(Box<Expression>, Box<Expression>),
    Subtract(Box<Expression>, Box<Expression>),
    Multiply(Box<Expression>, Box<Expression>),
    Divide(Box<Expression>, Box<Expression>),
    Modulo(Box<Expression>, Box<Expression>),
    Equal(Box<Expression>, Box<Expression>),
    NotEqual(Box<Expression>, Box<Expression>),
    StrictEqual(Box<Expression>, Box<Expression>),
    StrictNotEqual(Box<Expression>, Box<Expression>),
    GreaterThan(Box<Expression>, Box<Expression>),
    GreaterOrEqualThan(Box<Expression>, Box<Expression>),
    LessThan(Box<Expression>, Box<Expression>),
    LessOrEqualThan(Box<Expression>, Box<Expression>),
    Object(Identifier),
    Literal(Literal),
}

/// One executable unit. `Break` and `Continue` are non-local signals that
/// unwind to the nearest enclosing loop.
#[derive(Debug)]
pub enum Statement {
    Assign(Assignment),
    Increase(Increment),
    Decrease(Decrement),
    Print(Print),
    Read(Read),
    If(If),
    LoopWhile(LoopWhile),
    Break,
    Continue,
}

/// Bind the result of evaluating `value` to `variable`, replacing any prior
/// binding.
#[derive(Debug)]
pub struct Assignment {
    pub variable: Identifier,
    pub value: Expression,
}

/// Add one to the variable's current value (an unbound variable counts as
/// `Undefined`) and rebind it.
#[derive(Debug)]
pub struct Increment {
    pub variable: Identifier,
}

/// Subtract one from the variable's current value (an unbound variable counts
/// as `Undefined`) and rebind it.
#[derive(Debug)]
pub struct Decrement {
    pub variable: Identifier,
}

/// How a printed value is framed: raw text, text followed by a line
/// terminator, or a single byte obtained by truncating a numeric value.
#[derive(Clone, Copy, PartialEq, Eq, Structural, Debug)]
pub enum PrintFormat {
    String,
    Line,
    Byte,
}

/// Evaluate `value` and emit it under `format`.
#[derive(Debug)]
pub struct Print {
    pub value: Expression,
    pub format: PrintFormat,
}

/// How read input is to be parsed: as a number or as a raw byte. The `Read`
/// node carries no format of its own; the evaluator is handed the format
/// through another channel.
#[derive(Clone, Copy, PartialEq, Eq, Structural, Debug)]
pub enum ReadFormat {
    Number,
    Byte,
}

/// Read one unit of external input and bind it to `variable`.
#[derive(Debug)]
pub struct Read {
    pub variable: Identifier,
}

/// Run `block` when `condition` is truthy, else `else_block` when present.
#[derive(Debug)]
pub struct If {
    pub condition: Expression,
    pub block: Vec<Statement>,
    pub else_block: Option<Vec<Statement>>,
}

/// Pre-test loop: while `condition` is truthy, run `block`. A `Break` raised
/// anywhere in the block ends the loop at once; a `Continue` re-tests the
/// condition.
#[derive(Debug)]
pub struct LoopWhile {
    pub condition: Expression,
    pub block: Vec<Statement>,
}

} // verus!
