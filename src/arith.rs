use vstd::prelude::*;
use crate::value::OwnedValue;

verus! {

/// A numeric operand: an integer, or a float as its IEEE-754 binary64 bits.
#[derive(Debug, Clone, Copy, PartialEq, Eq, Structural)]
pub enum Number {
    Integer(i64),
    Float(u64),
}

/// The outcome of combining two owned values.
///
/// Integer results and pass-through values are computed here. A result
/// that needs floating-point work is returned as the operation to carry
/// out, with each integer operand to be promoted to a float first.
#[derive(Debug)]
pub enum Arith {
    /// The result itself.
    Value(OwnedValue),
    /// `Float(lhs + rhs)`.
    FloatSum(Number, Number),
    /// `Float(lhs / rhs)`.
    FloatQuotient(Number, Number),
}

/// Why two values cannot be combined.
#[derive(Debug, Clone, Copy, PartialEq, Eq, Structural)]
pub enum ArithError {
    /// An operand kind outside the numeric coercion table.
    UnsupportedOperands,
}

/// Integer division truncated toward zero.
pub open spec fn trunc_div(x: int, d: int) -> int {
    if x == 0 {
        0
    } else if x > 0 && d > 0 {
        x / d
    } else if x < 0 && d < 0 {
        (-x) / (-d)
    } else if x < 0 {
        -((-x) / d)
    } else {
        -(x / (-d))
    }
}

/// Whether integer division of `lhs` by `rhs` has a value: not by zero, and
/// not `i64::MIN` by `-1`, whose quotient does not fit.
pub open spec fn int_division_defined(lhs: OwnedValue, rhs: OwnedValue) -> bool {
    match (lhs, rhs) {
        (OwnedValue::Integer(a), OwnedValue::Integer(b)) => b != 0 && !(a == i64::MIN && b == -1),
        _ => true,
    }
}

/// The numeric reading of a value, if it has one.
pub open spec fn number_of(v: OwnedValue) -> Option<Number> {
    match v {
        OwnedValue::Integer(i) => Some(Number::Integer(i)),
        OwnedValue::Float(f) => Some(Number::Float(f)),
        _ => None,
    }
}

/// Addition by the coercion table: integers add with wrap-around, a float on
/// either side makes a float sum, `Null` on either side is an identity, and
/// any other pair is refused.
pub open spec fn add_spec(lhs: OwnedValue, rhs: OwnedValue) -> Result<Arith, ArithError> {
    match (lhs, rhs) {
        (OwnedValue::Integer(a), OwnedValue::Integer(b)) => Ok(
            Arith::Value(OwnedValue::Integer(a.wrapping_add(b))),
        ),
        (OwnedValue::Integer(a), OwnedValue::Float(b)) => Ok(
            Arith::FloatSum(Number::Integer(a), Number::Float(b)),
        ),
        (OwnedValue::Float(a), OwnedValue::Integer(b)) => Ok(
            Arith::FloatSum(Number::Float(a), Number::Integer(b)),
        ),
        (OwnedValue::Float(a), OwnedValue::Float(b)) => Ok(
            Arith::FloatSum(Number::Float(a), Number::Float(b)),
        ),
        (l, OwnedValue::Null) => Ok(Arith::Value(l)),
        (OwnedValue::Null, r) => Ok(Arith::Value(r)),
        _ => Err(ArithError::UnsupportedOperands),
    }
}

/// Division by the coercion table: integer by integer truncates toward zero,
/// a float on either side makes a float quotient, any other pair is refused.
pub open spec fn div_spec(lhs: OwnedValue, rhs: OwnedValue) -> Result<Arith, ArithError> {
    match (lhs, rhs) {
        (OwnedValue::Integer(a), OwnedValue::Integer(b)) => Ok(
            Arith::Value(OwnedValue::Integer(trunc_div(a as int, b as int) as i64)),
        ),
        (OwnedValue::Integer(a), OwnedValue::Float(b)) => Ok(
            Arith::FloatQuotient(Number::Integer(a), Number::Float(b)),
        ),
        (OwnedValue::Float(a), OwnedValue::Integer(b)) => Ok(
            Arith::FloatQuotient(Number::Float(a), Number::Integer(b)),
        ),
        (OwnedValue::Float(a), OwnedValue::Float(b)) => Ok(
            Arith::FloatQuotient(Number::Float(a), Number::Float(b)),
        ),
        _ => Err(ArithError::UnsupportedOperands),
    }
}

proof fn lemma_div_bounded(n: int, m: int)
    requires
        0 <= n,
        1 <= m,
    ensures
        0 <= n / m <= n,
        m >= 2 ==> n / m <= n / 2,
{
    assert(0 <= n / m <= n) by (nonlinear_arith)
        requires
            0 <= n,
            1 <= m,
    ;
    if m >= 2 {
        vstd::arithmetic::div_mod::lemma_div_is_ordered_by_denominator(n, 2, m);
    }
}

proof fn lemma_trunc_div_fits(a: i64, b: i64)
    requires
        b != 0,
        !(a == i64::MIN && b == -1),
    ensures
        a.checked_div(b) == Some(trunc_div(a as int, b as int) as i64),
        i64::MIN <= trunc_div(a as int, b as int) <= i64::MAX,
{
    let x = a as int;
    let d = b as int;
    if x > 0 && d > 0 {
        lemma_div_bounded(x, d);
    } else if x < 0 && d < 0 {
        lemma_div_bounded(-x, -d);
    } else if x < 0 && d > 0 {
        lemma_div_bounded(-x, d);
    } else if x > 0 && d < 0 {
        lemma_div_bounded(x, -d);
    }
}

impl OwnedValue {
    /// Adds two owned values by the coercion table.
    pub fn add(self, rhs: OwnedValue) -> (r: Result<Arith, ArithError>)
        ensures
            r == add_spec(self, rhs),
    {
        match (self, rhs) {
            (OwnedValue::Integer(a), OwnedValue::Integer(b)) => Ok(
                Arith::Value(OwnedValue::Integer(a.wrapping_add(b))),
            ),
            (OwnedValue::Integer(a), OwnedValue::Float(b)) => Ok(
                Arith::FloatSum(Number::Integer(a), Number::Float(b)),
            ),
            (OwnedValue::Float(a), OwnedValue::Integer(b)) => Ok(
                Arith::FloatSum(Number::Float(a), Number::Integer(b)),
            ),
            (OwnedValue::Float(a), OwnedValue::Float(b)) => Ok(
                Arith::FloatSum(Number::Float(a), Number::Float(b)),
            ),
            (l, OwnedValue::Null) => Ok(Arith::Value(l)),
            (OwnedValue::Null, r) => Ok(Arith::Value(r)),
            _ => Err(ArithError::UnsupportedOperands),
        }
    }

    /// Adds a bare integer to a numeric value.
    pub fn add_integer(self, rhs: i64) -> (r: Result<Arith, ArithError>)
        ensures
            (self is Integer || self is Float) ==> r == add_spec(self, OwnedValue::Integer(rhs)),
            !(self is Integer || self is Float) ==> r == Err::<Arith, ArithError>(
                ArithError::UnsupportedOperands,
            ),
    {
        match self {
            OwnedValue::Integer(a) => Ok(Arith::Value(OwnedValue::Integer(a.wrapping_add(rhs)))),
            OwnedValue::Float(a) => Ok(Arith::FloatSum(Number::Float(a), Number::Integer(rhs))),
            _ => Err(ArithError::UnsupportedOperands),
        }
    }

    /// Adds a bare float, given as its IEEE-754 binary64 bits, to a numeric
    /// value.
    pub fn add_float(self, rhs: u64) -> (r: Result<Arith, ArithError>)
        ensures
            (self is Integer || self is Float) ==> r == add_spec(self, OwnedValue::Float(rhs)),
            !(self is Integer || self is Float) ==> r == Err::<Arith, ArithError>(
                ArithError::UnsupportedOperands,
            ),
    {
        match self {
            OwnedValue::Integer(a) => Ok(Arith::FloatSum(Number::Integer(a), Number::Float(rhs))),
            OwnedValue::Float(a) => Ok(Arith::FloatSum(Number::Float(a), Number::Float(rhs))),
            _ => Err(ArithError::UnsupportedOperands),
        }
    }

    /// Divides two owned values by the coercion table. An integer division
    /// without a value is the caller's to rule out.
    pub fn div(self, rhs: OwnedValue) -> (r: Result<Arith, ArithError>)
        requires
            int_division_defined(self, rhs),
        ensures
            r == div_spec(self, rhs),
    {
        match (self, rhs) {
            (OwnedValue::Integer(a), OwnedValue::Integer(b)) => {
                proof {
                    lemma_trunc_div_fits(a, b);
                }
                match a.checked_div(b) {
                    Some(q) => Ok(Arith::Value(OwnedValue::Integer(q))),
                    None => {
                        proof {
                            assert(false);
                        }
                        Err(ArithError::UnsupportedOperands)
                    },
                }
            },
            (OwnedValue::Integer(a), OwnedValue::Float(b)) => Ok(
                Arith::FloatQuotient(Number::Integer(a), Number::Float(b)),
            ),
            (OwnedValue::Float(a), OwnedValue::Integer(b)) => Ok(
                Arith::FloatQuotient(Number::Float(a), Number::Integer(b)),
            ),
            (OwnedValue::Float(a), OwnedValue::Float(b)) => Ok(
                Arith::FloatQuotient(Number::Float(a), Number::Float(b)),
            ),
            _ => Err(ArithError::UnsupportedOperands),
        }
    }
}

/// On any two numeric operands addition never fails: an integer pair adds
/// with wrap-around, and a pair with a float, like its division, becomes the
/// float operation on the two operands as they are.
pub proof fn lemma_numeric_coercion(lhs: OwnedValue, rhs: OwnedValue)
    requires
        number_of(lhs) is Some,
        number_of(rhs) is Some,
    ensures
        (lhs is Integer && rhs is Integer) ==> add_spec(lhs, rhs) == Ok::<Arith, ArithError>(
            Arith::Value(OwnedValue::Integer(lhs->Integer_0.wrapping_add(rhs->Integer_0))),
        ),
        !(lhs is Integer && rhs is Integer) ==> add_spec(lhs, rhs) == Ok::<Arith, ArithError>(
            Arith::FloatSum(number_of(lhs)->Some_0, number_of(rhs)->Some_0),
        ),
        !(lhs is Integer && rhs is Integer) ==> div_spec(lhs, rhs) == Ok::<Arith, ArithError>(
            Arith::FloatQuotient(number_of(lhs)->Some_0, number_of(rhs)->Some_0),
        ),
{
}

/// `Null` is an additive identity on both sides, for every value.
pub proof fn lemma_null_is_additive_identity(v: OwnedValue)
    ensures
        add_spec(OwnedValue::Null, v) == Ok::<Arith, ArithError>(Arith::Value(v)),
        add_spec(v, OwnedValue::Null) == Ok::<Arith, ArithError>(Arith::Value(v)),
{
}

} // verus!
