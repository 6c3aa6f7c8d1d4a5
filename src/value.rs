use std::rc::Rc;
use vstd::prelude::*;

verus! {

/// A borrowed, read-only view of one cell.
///
/// A float is carried as its IEEE-754 binary64 bit pattern.
#[derive(Debug, Clone, PartialEq)]
pub enum Value<'a> {
    Null,
    Integer(i64),
    Float(u64),
    Text(&'a String),
    Blob(&'a Vec<u8>),
}

/// An owned cell: what may be stored, moved, used as a key or combined.
///
/// A float is carried as its IEEE-754 binary64 bit pattern. Text and blob
/// payloads are shared and never mutated once built.
#[derive(Debug, PartialEq)]
pub enum OwnedValue {
    Null,
    Integer(i64),
    Float(u64),
    Text(Rc<String>),
    Blob(Rc<Vec<u8>>),
    Agg(Box<AggContext>),
    Record(crate::record::OwnedRecord),
}

/// Partial state of an aggregate, combined row by row and finalized elsewhere.
#[derive(Debug, PartialEq)]
pub enum AggContext {
    /// Running accumulator and running count.
    Avg(OwnedValue, OwnedValue),
    Sum(OwnedValue),
    Count(OwnedValue),
    Max(OwnedValue),
    Min(OwnedValue),
}

/// The mathematical content of an owned value, nested records included.
pub enum ValueModel {
    Null,
    Integer(i64),
    Float(u64),
    Text(Seq<char>),
    Blob(Seq<u8>),
    Agg(Box<AggModel>),
    Record(crate::record::RecordModel),
}

/// The mathematical content of an aggregate state.
pub enum AggModel {
    Avg(ValueModel, ValueModel),
    Sum(ValueModel),
    Count(ValueModel),
    Max(ValueModel),
    Min(ValueModel),
}

impl OwnedValue {
    pub open spec fn view(&self) -> ValueModel
        decreases self, 0int,
    {
        match self {
            OwnedValue::Null => ValueModel::Null,
            OwnedValue::Integer(i) => ValueModel::Integer(*i),
            OwnedValue::Float(f) => ValueModel::Float(*f),
            OwnedValue::Text(s) => ValueModel::Text(s@),
            OwnedValue::Blob(b) => ValueModel::Blob(b@),
            OwnedValue::Agg(a) => ValueModel::Agg(Box::new(a.view())),
            OwnedValue::Record(r) => ValueModel::Record(r.view()),
        }
    }
}

impl AggContext {
    pub open spec fn view(&self) -> AggModel
        decreases self, 0int,
    {
        match self {
            AggContext::Avg(acc, count) => AggModel::Avg(acc.view(), count.view()),
            AggContext::Sum(acc) => AggModel::Sum(acc.view()),
            AggContext::Count(count) => AggModel::Count(count.view()),
            AggContext::Max(max) => AggModel::Max(max.view()),
            AggContext::Min(min) => AggModel::Min(min.view()),
        }
    }
}

/// The mathematical content of a plain scalar cell.
pub enum Scalar {
    Null,
    Integer(int),
    Float(u64),
    Text(Seq<char>),
    Blob(Seq<u8>),
}

impl<'a> Value<'a> {
    pub open spec fn view(&self) -> Scalar {
        match *self {
            Value::Null => Scalar::Null,
            Value::Integer(i) => Scalar::Integer(i as int),
            Value::Float(f) => Scalar::Float(f),
            Value::Text(s) => Scalar::Text(s@),
            Value::Blob(b) => Scalar::Blob(b@),
        }
    }
}

impl AggContext {
    /// The accumulator that stands for this aggregate once finalized.
    pub open spec fn accumulator(&self) -> OwnedValue {
        match *self {
            AggContext::Avg(acc, _) => acc,
            AggContext::Sum(acc) => acc,
            AggContext::Count(count) => count,
            AggContext::Max(max) => max,
            AggContext::Min(min) => min,
        }
    }
}

/// Whether a value reduces to a plain scalar: no nested record is reached
/// through its aggregate accumulators.
pub open spec fn is_scalar_like(v: OwnedValue) -> bool
    decreases v,
{
    match v {
        OwnedValue::Record(_) => false,
        OwnedValue::Agg(a) => is_scalar_like(a.accumulator()),
        _ => true,
    }
}

/// The plain scalar that a value reads as; an aggregate reads as its
/// accumulator (for an average, the running sum, not the quotient).
pub open spec fn scalar_of(v: OwnedValue) -> Scalar
    decreases v,
{
    match v {
        OwnedValue::Null => Scalar::Null,
        OwnedValue::Integer(i) => Scalar::Integer(i as int),
        OwnedValue::Float(f) => Scalar::Float(f),
        OwnedValue::Text(s) => Scalar::Text(s@),
        OwnedValue::Blob(b) => Scalar::Blob(b@),
        OwnedValue::Agg(a) => scalar_of(a.accumulator()),
        OwnedValue::Record(_) => Scalar::Null,
    }
}

/// Whether a value has a plain scalar reading, which `to_value` asks for.
pub fn has_scalar_reading(value: &OwnedValue) -> (r: bool)
    ensures
        r == is_scalar_like(*value),
    decreases value,
{
    match value {
        OwnedValue::Record(_) => false,
        OwnedValue::Agg(a) => match &**a {
            AggContext::Avg(acc, _count) => has_scalar_reading(acc),
            AggContext::Sum(acc) => has_scalar_reading(acc),
            AggContext::Count(count) => has_scalar_reading(count),
            AggContext::Max(max) => has_scalar_reading(max),
            AggContext::Min(min) => has_scalar_reading(min),
        },
        _ => true,
    }
}

/// Borrowed view of an owned value; an aggregate is read through its
/// accumulator, which assumes that it was finalized.
pub fn to_value(value: &OwnedValue) -> (r: Value<'_>)
    requires
        is_scalar_like(*value),
    ensures
        r@ == scalar_of(*value),
    decreases value,
{
    match value {
        OwnedValue::Null => Value::Null,
        OwnedValue::Integer(i) => Value::Integer(*i),
        OwnedValue::Float(f) => Value::Float(*f),
        OwnedValue::Text(s) => Value::Text(&**s),
        OwnedValue::Blob(b) => Value::Blob(&**b),
        OwnedValue::Agg(a) => match &**a {
            AggContext::Avg(acc, _count) => to_value(acc),
            AggContext::Sum(acc) => to_value(acc),
            AggContext::Count(count) => to_value(count),
            AggContext::Max(max) => to_value(max),
            AggContext::Min(min) => to_value(min),
        },
        OwnedValue::Record(_) => {
            proof {
                assert(false);
            }
            Value::Null
        },
    }
}

/// Why a value could not be read as a Rust type.
#[derive(Debug, Clone, Copy, PartialEq, Eq, Structural)]
pub enum ValueError {
    ExpectedInteger,
    ExpectedText,
}

/// Reading a borrowed value as a Rust type.
pub trait FromValue<'a> {
    fn from_value(value: &Value<'a>) -> Result<Self, ValueError> where Self: Sized + 'a;
}

impl<'a> FromValue<'a> for i64 {
    fn from_value(value: &Value<'a>) -> (r: Result<i64, ValueError>)
        ensures
            match value@ {
                Scalar::Integer(i) => r == Ok::<i64, ValueError>(i as i64),
                _ => r == Err::<i64, ValueError>(ValueError::ExpectedInteger),
            },
    {
        match value {
            Value::Integer(i) => Ok(*i),
            _ => Err(ValueError::ExpectedInteger),
        }
    }
}

impl<'a> FromValue<'a> for String {
    fn from_value(value: &Value<'a>) -> (r: Result<String, ValueError>)
        ensures
            match value@ {
                Scalar::Text(t) => r is Ok && r->Ok_0@ == t,
                _ => r == Err::<String, ValueError>(ValueError::ExpectedText),
            },
    {
        match value {
            Value::Text(s) => Ok((**s).clone()),
            _ => Err(ValueError::ExpectedText),
        }
    }
}

impl<'a> FromValue<'a> for &'a str {
    fn from_value(value: &Value<'a>) -> (r: Result<&'a str, ValueError>)
        ensures
            match value@ {
                Scalar::Text(t) => r is Ok && r->Ok_0@ == t,
                _ => r == Err::<&'a str, ValueError>(ValueError::ExpectedText),
            },
    {
        match value {
            Value::Text(s) => Ok(s.as_str()),
            _ => Err(ValueError::ExpectedText),
        }
    }
}

/// Relies on `Rc::clone`: the new handle points at the same allocation,
/// so it holds the same content.
#[verifier::external_body]
fn share<T>(r: &Rc<T>) -> (s: Rc<T>)
    ensures
        s == *r,
{
    Rc::clone(r)
}

pub(crate) fn clone_value(v: &OwnedValue) -> (r: OwnedValue)
    ensures
        r@ == v@,
    decreases v, 0int,
{
    match v {
        OwnedValue::Null => OwnedValue::Null,
        OwnedValue::Integer(i) => OwnedValue::Integer(*i),
        OwnedValue::Float(f) => OwnedValue::Float(*f),
        OwnedValue::Text(s) => OwnedValue::Text(share(s)),
        OwnedValue::Blob(b) => OwnedValue::Blob(share(b)),
        OwnedValue::Agg(a) => OwnedValue::Agg(Box::new(clone_agg(&**a))),
        OwnedValue::Record(rec) => OwnedValue::Record(crate::record::clone_record(rec)),
    }
}

fn clone_agg(a: &AggContext) -> (r: AggContext)
    ensures
        r@ == a@,
    decreases a, 0int,
{
    match a {
        AggContext::Avg(acc, count) => AggContext::Avg(clone_value(acc), clone_value(count)),
        AggContext::Sum(acc) => AggContext::Sum(clone_value(acc)),
        AggContext::Count(count) => AggContext::Count(clone_value(count)),
        AggContext::Max(max) => AggContext::Max(clone_value(max)),
        AggContext::Min(min) => AggContext::Min(clone_value(min)),
    }
}

impl Clone for OwnedValue {
    fn clone(&self) -> (r: Self)
        ensures
            r@ == self@,
    {
        clone_value(self)
    }
}

impl Clone for AggContext {
    fn clone(&self) -> (r: Self)
        ensures
            r@ == self@,
    {
        clone_agg(self)
    }
}

} // verus!
