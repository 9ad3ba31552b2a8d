//! The runtime value model: the closed set of value kinds, the coercion that
//! every binary operator shares, and the operators themselves. All operations
//! are total: no input combination fails, wrong kinds degrade to defined
//! fallback values.

use vstd::prelude::*;
use vstd::string::StringExecFns;
use vstd::string::StrSliceExecFns;
use crate::syntax::Identifier;
use crate::number::ZERO_BITS;
use crate::number::ONE_BITS;
use crate::number::sum_bits;
use crate::number::diff_bits;
use crate::number::prod_bits;
use crate::number::quot_bits;
use crate::number::rem_bits;
use crate::number::lt_bits;
use crate::number::exceeds_epsilon_bits;
use crate::number::within_epsilon_bits;
use crate::number::parsed_or_zero_bits;
use crate::number::bits_add;
use crate::number::bits_sub;
use crate::number::bits_mul;
use crate::number::bits_div;
use crate::number::bits_rem;
use crate::number::bits_lt;
use crate::number::bits_exceeds_epsilon;
use crate::number::bits_within_epsilon;
use crate::number::bits_parse_or_zero;

verus! {

/// A binding of an identifier to a value. The environment that owns the
/// mapping lives with the evaluator; this is only the pairing.
#[derive(Debug)]
pub struct Variable {
    pub ident: Identifier,
    pub value: Value,
}

/// The only runtime representation of data: exactly one of absence, a
/// double-precision number (carried as its binary64 bit pattern), or owned
/// text.
#[derive(PartialEq, Debug)]
pub enum Value {
    Undefined,
    Number(u64),
    String(String),
}

/// The transient classification of two values that decides how a binary
/// operator reads them: both undefined, both numeric after coercion, or both
/// text after coercion.
#[derive(PartialEq, Debug)]
pub enum ArithmeticCast {
    Undefined,
    Numbers(u64, u64),
    Strings(String, String),
}

/// The mathematical shadow of a `Value`: text as its character sequence.
pub enum ValueModel {
    Undefined,
    Number(u64),
    Text(Seq<char>),
}

/// The mathematical shadow of an `ArithmeticCast`.
pub enum CastModel {
    Undefined,
    Numbers(u64, u64),
    Texts(Seq<char>, Seq<char>),
}

impl View for Value {
    type V = ValueModel;

    open spec fn view(&self) -> ValueModel {
        match self {
            Value::Undefined => ValueModel::Undefined,
            Value::Number(n) => ValueModel::Number(*n),
            Value::String(s) => ValueModel::Text(s@),
        }
    }
}

impl View for ArithmeticCast {
    type V = CastModel;

    open spec fn view(&self) -> CastModel {
        match self {
            ArithmeticCast::Undefined => CastModel::Undefined,
            ArithmeticCast::Numbers(a, b) => CastModel::Numbers(*a, *b),
            ArithmeticCast::Strings(a, b) => CastModel::Texts(a@, b@),
        }
    }
}

impl Clone for Value {
    fn clone(&self) -> (r: Self)
        ensures
            r == self,
    {
        match self {
            Value::Undefined => Value::Undefined,
            Value::Number(n) => Value::Number(*n),
            Value::String(s) => Value::String(s.clone()),
        }
    }
}

/// Strict lexicographic order on text, character by character: the single
/// meaning of `<` and `>` over two coerced strings.
pub open spec fn lex_lt(a: Seq<char>, b: Seq<char>) -> bool
    decreases a.len(),
{
    if b.len() == 0 {
        false
    } else if a.len() == 0 {
        true
    } else if (a[0] as u32) < (b[0] as u32) {
        true
    } else if a[0] != b[0] {
        false
    } else {
        lex_lt(a.subrange(1, a.len() as int), b.subrange(1, b.len() as int))
    }
}

/// The coercion table itself, the single source of truth for every binary
/// operator: an `Undefined` operand coerces to zero against a number and to
/// empty text against a string; a string against a number parses, with text
/// that is no numeral degrading to zero.
pub open spec fn spec_cast(a: ValueModel, b: ValueModel) -> CastModel {
    match (a, b) {
        (ValueModel::Undefined, ValueModel::Undefined) => CastModel::Undefined,
        (ValueModel::Undefined, ValueModel::Number(n)) => CastModel::Numbers(ZERO_BITS, n),
        (ValueModel::Number(n), ValueModel::Undefined) => CastModel::Numbers(n, ZERO_BITS),
        (ValueModel::Undefined, ValueModel::Text(s)) => CastModel::Texts(Seq::empty(), s),
        (ValueModel::Text(s), ValueModel::Undefined) => CastModel::Texts(s, Seq::empty()),
        (ValueModel::Number(x), ValueModel::Number(y)) => CastModel::Numbers(x, y),
        (ValueModel::Number(n), ValueModel::Text(s)) => CastModel::Numbers(
            n,
            parsed_or_zero_bits(s),
        ),
        (ValueModel::Text(s), ValueModel::Number(n)) => CastModel::Numbers(
            parsed_or_zero_bits(s),
            n,
        ),
        (ValueModel::Text(x), ValueModel::Text(y)) => CastModel::Texts(x, y),
    }
}

/// A number is truthy iff its magnitude exceeds the machine epsilon, text iff
/// non-empty; `Undefined` is always falsy.
pub open spec fn spec_to_boolean(v: ValueModel) -> bool {
    match v {
        ValueModel::Undefined => false,
        ValueModel::Number(n) => exceeds_epsilon_bits(n),
        ValueModel::Text(s) => s.len() != 0,
    }
}

/// Logical (not arithmetic) negation: the boolean complement of truthiness.
pub open spec fn spec_negate(v: ValueModel) -> bool {
    !spec_to_boolean(v)
}

/// Addition: two undefineds give one, numbers their sum, strings their
/// concatenation.
pub open spec fn spec_add(a: ValueModel, b: ValueModel) -> ValueModel {
    match spec_cast(a, b) {
        CastModel::Undefined => ValueModel::Number(ONE_BITS),
        CastModel::Numbers(x, y) => ValueModel::Number(sum_bits(x, y)),
        CastModel::Texts(x, y) => ValueModel::Text(x + y),
    }
}

/// Subtraction: two undefineds give one, numbers their difference; arithmetic
/// other than addition is not defined over two strings, so that case is
/// `Undefined`.
pub open spec fn spec_subtract(a: ValueModel, b: ValueModel) -> ValueModel {
    match spec_cast(a, b) {
        CastModel::Undefined => ValueModel::Number(ONE_BITS),
        CastModel::Numbers(x, y) => ValueModel::Number(diff_bits(x, y)),
        CastModel::Texts(x, y) => ValueModel::Undefined,
    }
}

/// Multiplication: the numeric case is the true product of the operands.
pub open spec fn spec_multiply(a: ValueModel, b: ValueModel) -> ValueModel {
    match spec_cast(a, b) {
        CastModel::Undefined => ValueModel::Number(ONE_BITS),
        CastModel::Numbers(x, y) => ValueModel::Number(prod_bits(x, y)),
        CastModel::Texts(x, y) => ValueModel::Undefined,
    }
}

/// Division, with the same shape as subtraction.
pub open spec fn spec_divide(a: ValueModel, b: ValueModel) -> ValueModel {
    match spec_cast(a, b) {
        CastModel::Undefined => ValueModel::Number(ONE_BITS),
        CastModel::Numbers(x, y) => ValueModel::Number(quot_bits(x, y)),
        CastModel::Texts(x, y) => ValueModel::Undefined,
    }
}

/// Remainder, with the same shape as subtraction.
pub open spec fn spec_modulo(a: ValueModel, b: ValueModel) -> ValueModel {
    match spec_cast(a, b) {
        CastModel::Undefined => ValueModel::Number(ONE_BITS),
        CastModel::Numbers(x, y) => ValueModel::Number(rem_bits(x, y)),
        CastModel::Texts(x, y) => ValueModel::Undefined,
    }
}

/// Loose equality, after coercion: two undefineds compare equal, numbers up
/// to the machine epsilon, text exactly.
pub open spec fn spec_equal(a: ValueModel, b: ValueModel) -> bool {
    match spec_cast(a, b) {
        CastModel::Undefined => true,
        CastModel::Numbers(x, y) => within_epsilon_bits(x, y),
        CastModel::Texts(x, y) => x == y,
    }
}

/// Strict equality, without coercion: any cross-kind pair is unequal.
pub open spec fn spec_strict_equal(a: ValueModel, b: ValueModel) -> bool {
    match (a, b) {
        (ValueModel::Undefined, ValueModel::Undefined) => true,
        (ValueModel::Number(x), ValueModel::Number(y)) => within_epsilon_bits(x, y),
        (ValueModel::Text(x), ValueModel::Text(y)) => x == y,
        _ => false,
    }
}

/// Strict order, after coercion: two undefineds are unordered, numbers
/// compare numerically, text lexicographically.
pub open spec fn spec_greater_than(a: ValueModel, b: ValueModel) -> bool {
    match spec_cast(a, b) {
        CastModel::Undefined => false,
        CastModel::Numbers(x, y) => lt_bits(y, x),
        CastModel::Texts(x, y) => lex_lt(y, x),
    }
}

/// Strict order, after coercion, the mirror image of `spec_greater_than`.
pub open spec fn spec_less_than(a: ValueModel, b: ValueModel) -> bool {
    match spec_cast(a, b) {
        CastModel::Undefined => false,
        CastModel::Numbers(x, y) => lt_bits(x, y),
        CastModel::Texts(x, y) => lex_lt(x, y),
    }
}

/// Over two text operands, addition is concatenation, and every other
/// arithmetic operator is undefined: for all text values `a` and `b`, adding
/// them yields their concatenation, while subtraction, multiplication,
/// division and remainder yield `Undefined`.
pub proof fn lemma_text_operands(a: Seq<char>, b: Seq<char>)
    ensures
        spec_add(ValueModel::Text(a), ValueModel::Text(b)) == ValueModel::Text(a + b),
        spec_subtract(ValueModel::Text(a), ValueModel::Text(b)) == ValueModel::Undefined,
        spec_multiply(ValueModel::Text(a), ValueModel::Text(b)) == ValueModel::Undefined,
        spec_divide(ValueModel::Text(a), ValueModel::Text(b)) == ValueModel::Undefined,
        spec_modulo(ValueModel::Text(a), ValueModel::Text(b)) == ValueModel::Undefined,
{
}

/// Two `Undefined` operands are the one pair that classifies as the
/// `Undefined` outcome, and there every arithmetic operator yields one while
/// loose equality holds and neither order does.
pub proof fn lemma_undefined_operands()
    ensures
        spec_cast(ValueModel::Undefined, ValueModel::Undefined) == CastModel::Undefined,
        spec_add(ValueModel::Undefined, ValueModel::Undefined) == ValueModel::Number(ONE_BITS),
        spec_subtract(ValueModel::Undefined, ValueModel::Undefined) == ValueModel::Number(
            ONE_BITS,
        ),
        spec_multiply(ValueModel::Undefined, ValueModel::Undefined) == ValueModel::Number(
            ONE_BITS,
        ),
        spec_divide(ValueModel::Undefined, ValueModel::Undefined) == ValueModel::Number(ONE_BITS),
        spec_modulo(ValueModel::Undefined, ValueModel::Undefined) == ValueModel::Number(ONE_BITS),
        spec_equal(ValueModel::Undefined, ValueModel::Undefined),
        !spec_greater_than(ValueModel::Undefined, ValueModel::Undefined),
        !spec_less_than(ValueModel::Undefined, ValueModel::Undefined),
{
}

/// Strict lexicographic comparison of two text values, matching `lex_lt`.
pub fn str_lex_lt(a: &str, b: &str) -> (r: bool)
    ensures
        r == lex_lt(a@, b@),
    decreases a@.len(),
{
    let b_len = b.unicode_len();
    if b_len == 0 {
        false
    } else {
        let a_len = a.unicode_len();
        if a_len == 0 {
            true
        } else {
            let ca = a.get_char(0);
            let cb = b.get_char(0);
            if (ca as u32) < (cb as u32) {
                true
            } else if ca != cb {
                false
            } else {
                str_lex_lt(a.substring_char(1, a_len), b.substring_char(1, b_len))
            }
        }
    }
}

impl Value {
    /// Truthiness: see `spec_to_boolean`.
    pub fn to_boolean(&self) -> (r: bool)
        ensures
            r == spec_to_boolean(self@),
    {
        match self {
            Value::Number(num) => bits_exceeds_epsilon(*num),
            Value::String(s) => !s.as_str().is_empty(),
            Value::Undefined => false,
        }
    }

    /// Logical complement of truthiness.
    pub fn negate(&self) -> (r: bool)
        ensures
            r == spec_negate(self@),
    {
        !self.to_boolean()
    }

    /// Classify two operands per the coercion table; see `spec_cast`.
    pub fn arithmetic_cast(left: &Value, right: &Value) -> (r: ArithmeticCast)
        ensures
            r@ == spec_cast(left@, right@),
    {
        match (left, right) {
            (Value::Undefined, Value::Undefined) => ArithmeticCast::Undefined,
            (Value::Undefined, Value::Number(num)) => ArithmeticCast::Numbers(ZERO_BITS, *num),
            (Value::Number(num), Value::Undefined) => ArithmeticCast::Numbers(*num, ZERO_BITS),
            (Value::Undefined, Value::String(s)) => ArithmeticCast::Strings(
                String::new(),
                s.clone(),
            ),
            (Value::String(s), Value::Undefined) => ArithmeticCast::Strings(
                s.clone(),
                String::new(),
            ),
            (Value::Number(x), Value::Number(y)) => ArithmeticCast::Numbers(*x, *y),
            (Value::Number(num), Value::String(s)) => ArithmeticCast::Numbers(
                *num,
                bits_parse_or_zero(s.as_str()),
            ),
            (Value::String(s), Value::Number(num)) => ArithmeticCast::Numbers(
                bits_parse_or_zero(s.as_str()),
                *num,
            ),
            (Value::String(x), Value::String(y)) => ArithmeticCast::Strings(x.clone(), y.clone()),
        }
    }

    /// See `spec_add`.
    pub fn add(&self, other: &Value) -> (r: Value)
        ensures
            r@ == spec_add(self@, other@),
    {
        match Value::arithmetic_cast(self, other) {
            ArithmeticCast::Undefined => Value::Number(ONE_BITS),
            ArithmeticCast::Numbers(x, y) => Value::Number(bits_add(x, y)),
            ArithmeticCast::Strings(x, y) => Value::String(x.concat(y.as_str())),
        }
    }

    /// See `spec_subtract`.
    pub fn subtract(&self, other: &Value) -> (r: Value)
        ensures
            r@ == spec_subtract(self@, other@),
    {
        match Value::arithmetic_cast(self, other) {
            ArithmeticCast::Undefined => Value::Number(ONE_BITS),
            ArithmeticCast::Numbers(x, y) => Value::Number(bits_sub(x, y)),
            ArithmeticCast::Strings(_, _) => Value::Undefined,
        }
    }

    /// See `spec_multiply`.
    pub fn multiply(&self, other: &Value) -> (r: Value)
        ensures
            r@ == spec_multiply(self@, other@),
    {
        match Value::arithmetic_cast(self, other) {
            ArithmeticCast::Undefined => Value::Number(ONE_BITS),
            ArithmeticCast::Numbers(x, y) => Value::Number(bits_mul(x, y)),
            ArithmeticCast::Strings(_, _) => Value::Undefined,
        }
    }

    /// See `spec_divide`.
    pub fn divide(&self, other: &Value) -> (r: Value)
        ensures
            r@ == spec_divide(self@, other@),
    {
        match Value::arithmetic_cast(self, other) {
            ArithmeticCast::Undefined => Value::Number(ONE_BITS),
            ArithmeticCast::Numbers(x, y) => Value::Number(bits_div(x, y)),
            ArithmeticCast::Strings(_, _) => Value::Undefined,
        }
    }

    /// See `spec_modulo`.
    pub fn modulo(&self, other: &Value) -> (r: Value)
        ensures
            r@ == spec_modulo(self@, other@),
    {
        match Value::arithmetic_cast(self, other) {
            ArithmeticCast::Undefined => Value::Number(ONE_BITS),
            ArithmeticCast::Numbers(x, y) => Value::Number(bits_rem(x, y)),
            ArithmeticCast::Strings(_, _) => Value::Undefined,
        }
    }

    /// Loose equality; see `spec_equal`.
    pub fn equal(&self, other: &Value) -> (r: bool)
        ensures
            r == spec_equal(self@, other@),
    {
        match Value::arithmetic_cast(self, other) {
            ArithmeticCast::Undefined => true,
            ArithmeticCast::Numbers(x, y) => bits_within_epsilon(x, y),
            ArithmeticCast::Strings(x, y) => x == y,
        }
    }

    /// Strict equality; see `spec_strict_equal`.
    pub fn strict_equal(&self, other: &Value) -> (r: bool)
        ensures
            r == spec_strict_equal(self@, other@),
    {
        match (self, other) {
            (Value::Undefined, Value::Undefined) => true,
            (Value::Number(x), Value::Number(y)) => bits_within_epsilon(*x, *y),
            (Value::String(x), Value::String(y)) => *x == *y,
            _ => false,
        }
    }

    /// See `spec_greater_than`.
    pub fn greater_than(&self, other: &Value) -> (r: bool)
        ensures
            r == spec_greater_than(self@, other@),
    {
        match Value::arithmetic_cast(self, other) {
            ArithmeticCast::Undefined => false,
            ArithmeticCast::Numbers(x, y) => bits_lt(y, x),
            ArithmeticCast::Strings(x, y) => str_lex_lt(y.as_str(), x.as_str()),
        }
    }

    /// See `spec_less_than`.
    pub fn less_than(&self, other: &Value) -> (r: bool)
        ensures
            r == spec_less_than(self@, other@),
    {
        match Value::arithmetic_cast(self, other) {
            ArithmeticCast::Undefined => false,
            ArithmeticCast::Numbers(x, y) => bits_lt(x, y),
            ArithmeticCast::Strings(x, y) => str_lex_lt(x.as_str(), y.as_str()),
        }
    }
}

} // verus!
