use crate::context::Context;
use crate::error::NodeError;
use crate::float::Float;
use crate::value::{range_contains, FloatListValue, FloatRange, FloatRangeValue, FloatValue, IntValue};
use vstd::prelude::*;

verus! {

/// Met when the value lies in the half-open range.
#[derive(Debug)]
pub struct FloatInRange {
    pub value: FloatValue,
    pub range: FloatRangeValue,
}

/// Met when the list has at least one element.
#[derive(Debug)]
pub struct FloatListIsNotEmpty {
    pub list: FloatListValue,
}

/// Met when the list's length differs from the given length.
#[derive(Debug)]
pub struct FloatListLengthNotEquals {
    pub list: FloatListValue,
    pub length: IntValue,
}

/// Met when `left <= right`.
#[derive(Debug)]
pub struct IntLessThanOrEquals {
    pub left: IntValue,
    pub right: IntValue,
}

/// Any condition of the catalog.
#[derive(Debug)]
pub enum Condition {
    FloatInRange(FloatInRange),
    FloatListIsNotEmpty(FloatListIsNotEmpty),
    FloatListLengthNotEquals(FloatListLengthNotEquals),
    IntLessThanOrEquals(IntLessThanOrEquals),
}

impl FloatInRange {
    /// Evaluates `value`, then `range`; the first failure is the result.
    pub open spec fn spec_is_met(&self) -> Result<bool, NodeError> {
        match self.value.spec_evaluate() {
            Err(e) => Err(e),
            Ok(v) => match self.range.spec_evaluate() {
                Err(e) => Err(e),
                Ok(r) => Ok(range_contains(r, v)),
            },
        }
    }

    pub fn is_met<C: Context>(&self, _context: &C) -> (r: Result<bool, NodeError>)
        ensures
            r == self.spec_is_met(),
    {
        let value: Float = self.value.evaluate()?;
        let range: FloatRange = self.range.evaluate()?;
        Ok(range.contains(&value))
    }
}

impl FloatListIsNotEmpty {
    /// Evaluates `list`; its failure is the result.
    pub open spec fn spec_is_met(&self) -> Result<bool, NodeError> {
        match self.list.spec_evaluate() {
            Err(e) => Err(e),
            Ok(items) => Ok(items.len() != 0),
        }
    }

    pub fn is_met<C: Context>(&self, _context: &C) -> (r: Result<bool, NodeError>)
        ensures
            r == self.spec_is_met(),
    {
        let items = self.list.evaluate()?;
        Ok(items.len() != 0)
    }
}

impl FloatListLengthNotEquals {
    /// Evaluates `list`, then `length`; the first failure is the result. A
    /// negative length is refused rather than coerced.
    pub open spec fn spec_is_met(&self) -> Result<bool, NodeError> {
        match self.list.spec_evaluate() {
            Err(e) => Err(e),
            Ok(items) => match self.length.spec_evaluate() {
                Err(e) => Err(e),
                Ok(n) => if n < 0 {
                    Err(NodeError::InvalidParameter { value: n })
                } else {
                    Ok(items.len() != n as int)
                },
            },
        }
    }

    pub fn is_met<C: Context>(&self, _context: &C) -> (r: Result<bool, NodeError>)
        ensures
            r == self.spec_is_met(),
    {
        let items = self.list.evaluate()?;
        let n: i64 = self.length.evaluate()?;
        if n < 0 {
            Err(NodeError::InvalidParameter { value: n })
        } else {
            Ok(items.len() as u64 != n as u64)
        }
    }
}

impl IntLessThanOrEquals {
    /// Evaluates `left`, then `right`; the first failure is the result.
    pub open spec fn spec_is_met(&self) -> Result<bool, NodeError> {
        match self.left.spec_evaluate() {
            Err(e) => Err(e),
            Ok(l) => match self.right.spec_evaluate() {
                Err(e) => Err(e),
                Ok(r) => Ok(l <= r),
            },
        }
    }

    pub fn is_met<C: Context>(&self, _context: &C) -> (r: Result<bool, NodeError>)
        ensures
            r == self.spec_is_met(),
    {
        let left: i64 = self.left.evaluate()?;
        let right: i64 = self.right.evaluate()?;
        Ok(left <= right)
    }
}

impl Condition {
    pub open spec fn spec_is_met(&self) -> Result<bool, NodeError> {
        match self {
            Condition::FloatInRange(c) => c.spec_is_met(),
            Condition::FloatListIsNotEmpty(c) => c.spec_is_met(),
            Condition::FloatListLengthNotEquals(c) => c.spec_is_met(),
            Condition::IntLessThanOrEquals(c) => c.spec_is_met(),
        }
    }

    pub fn is_met<C: Context>(&self, context: &C) -> (r: Result<bool, NodeError>)
        ensures
            r == self.spec_is_met(),
    {
        match self {
            Condition::FloatInRange(c) => c.is_met(context),
            Condition::FloatListIsNotEmpty(c) => c.is_met(context),
            Condition::FloatListLengthNotEquals(c) => c.is_met(context),
            Condition::IntLessThanOrEquals(c) => c.is_met(context),
        }
    }
}

} // verus!
