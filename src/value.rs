use crate::error::NodeError;
use crate::float::Float;
use vstd::prelude::*;

verus! {

/// A boolean-valued node: a literal, or an operation whose result is a boolean.
#[derive(Debug)]
pub enum BoolValue {
    Literal(bool),
    Operation(Box<BoolOperation>),
}

/// The operations whose result is a boolean value.
#[derive(Debug)]
pub enum BoolOperation {
    Buffer(Buffer),
}

/// Pass-through operation: its result is a literal holding its input's value.
#[derive(Debug)]
pub struct Buffer {
    pub value: Box<BoolValue>,
}

/// An integer-valued node.
#[derive(Debug)]
pub enum IntValue {
    Literal(i64),
}

/// A float-valued node.
#[derive(Debug)]
pub enum FloatValue {
    Literal(Float),
}

/// A half-open interval `[start, end)` of floats.
#[derive(Clone, Copy, Debug)]
pub struct FloatRange {
    pub start: Float,
    pub end: Float,
}

/// A node whose value is a list of floats.
#[derive(Debug)]
pub enum FloatListValue {
    Literal(Vec<FloatValue>),
}

/// A node whose value is a range of floats.
#[derive(Debug)]
pub enum FloatRangeValue {
    Literal(FloatRange),
}

/// `start <= value < end`.
pub open spec fn range_contains(range: FloatRange, value: Float) -> bool {
    crate::float::float_le(range.start.bits, value.bits) && crate::float::float_lt(
        value.bits,
        range.end.bits,
    )
}

impl FloatRange {
    /// Half-open membership: `start <= value < end`.
    pub fn contains(&self, value: &Float) -> (r: bool)
        ensures
            r == range_contains(*self, *value),
    {
        self.start.le(value) && value.lt(&self.end)
    }
}

impl BoolValue {
    /// Bounds the depth of evaluation below this node.
    pub open spec fn height(&self) -> nat
        decreases self,
    {
        match self {
            BoolValue::Literal(_) => 1,
            BoolValue::Operation(op) => op.height() + 1,
        }
    }

    /// The value this node evaluates to.
    pub open spec fn spec_evaluate(&self) -> Result<bool, NodeError>
        decreases self.height(),
    {
        match self {
            BoolValue::Literal(b) => Ok(*b),
            BoolValue::Operation(op) => op.spec_outcome(),
        }
    }

    pub fn evaluate(&self) -> (r: Result<bool, NodeError>)
        ensures
            r == self.spec_evaluate(),
        decreases self.height(),
    {
        match self {
            BoolValue::Literal(b) => Ok(*b),
            BoolValue::Operation(op) => {
                let v = op.execute()?;
                proof {
                    op.lemma_execute_agrees();
                }
                v.evaluate()
            },
        }
    }
}

impl BoolOperation {
    pub open spec fn height(&self) -> nat
        decreases self,
    {
        match self {
            BoolOperation::Buffer(b) => b.height() + 1,
        }
    }

    /// The boolean that this operation's result evaluates to.
    pub open spec fn spec_outcome(&self) -> Result<bool, NodeError>
        decreases self.height(),
    {
        match self {
            BoolOperation::Buffer(b) => b.spec_outcome(),
        }
    }

    /// The value node that `execute` returns.
    pub open spec fn spec_execute(&self) -> Result<BoolValue, NodeError> {
        match self.spec_outcome() {
            Ok(b) => Ok(BoolValue::Literal(b)),
            Err(e) => Err(e),
        }
    }

    /// Evaluating what `execute` returns gives this operation's outcome.
    pub proof fn lemma_execute_agrees(&self)
        ensures
            match self.spec_execute() {
                Ok(v) => v.spec_evaluate() == self.spec_outcome() && v.height() <= self.height(),
                Err(e) => self.spec_outcome() == Err::<bool, NodeError>(e),
            },
    {
    }

    /// An operation used as a value evaluates to what its `execute` result
    /// evaluates to, and fails exactly as `execute` fails.
    pub proof fn lemma_operation_as_value(self)
        ensures
            BoolValue::Operation(Box::new(self)).spec_evaluate() == match self.spec_execute() {
                Ok(v) => v.spec_evaluate(),
                Err(e) => Err(e),
            },
    {
        self.lemma_execute_agrees();
    }

    pub fn execute(&self) -> (r: Result<BoolValue, NodeError>)
        ensures
            r == self.spec_execute(),
        decreases self.height(),
    {
        match self {
            BoolOperation::Buffer(b) => b.execute(),
        }
    }
}

impl Buffer {
    pub fn new(value: BoolValue) -> (r: Buffer)
        ensures
            *r.value == value,
    {
        Buffer { value: Box::new(value) }
    }

    pub open spec fn height(&self) -> nat
        decreases self,
    {
        self.value.height() + 1
    }

    pub open spec fn spec_outcome(&self) -> Result<bool, NodeError>
        decreases self.height(),
    {
        self.value.spec_evaluate()
    }

    /// Evaluates the input and wraps the boolean as a literal.
    pub fn execute(&self) -> (r: Result<BoolValue, NodeError>)
        ensures
            r == BoolOperation::Buffer(*self).spec_execute(),
        decreases self.height(),
    {
        let b = self.value.evaluate()?;
        Ok(BoolValue::Literal(b))
    }
}

impl IntValue {
    pub open spec fn spec_evaluate(&self) -> Result<i64, NodeError> {
        match self {
            IntValue::Literal(i) => Ok(*i),
        }
    }

    pub fn evaluate(&self) -> (r: Result<i64, NodeError>)
        ensures
            r == self.spec_evaluate(),
    {
        match self {
            IntValue::Literal(i) => Ok(*i),
        }
    }
}

impl FloatValue {
    pub open spec fn spec_evaluate(&self) -> Result<Float, NodeError> {
        match self {
            FloatValue::Literal(x) => Ok(*x),
        }
    }

    pub fn evaluate(&self) -> (r: Result<Float, NodeError>)
        ensures
            r == self.spec_evaluate(),
    {
        match self {
            FloatValue::Literal(x) => Ok(*x),
        }
    }
}

impl FloatRangeValue {
    pub open spec fn spec_evaluate(&self) -> Result<FloatRange, NodeError> {
        match self {
            FloatRangeValue::Literal(r) => Ok(*r),
        }
    }

    pub fn evaluate(&self) -> (r: Result<FloatRange, NodeError>)
        ensures
            r == self.spec_evaluate(),
    {
        match self {
            FloatRangeValue::Literal(r) => Ok(*r),
        }
    }
}

/// Evaluates the elements left to right; the first failure is the result.
pub open spec fn evaluate_all(items: Seq<FloatValue>) -> Result<Seq<Float>, NodeError>
    decreases items.len(),
{
    if items.len() == 0 {
        Ok(Seq::empty())
    } else {
        match evaluate_all(items.drop_last()) {
            Err(e) => Err(e),
            Ok(done) => match items.last().spec_evaluate() {
                Err(e) => Err(e),
                Ok(x) => Ok(done.push(x)),
            },
        }
    }
}

impl FloatListValue {
    pub open spec fn spec_evaluate(&self) -> Result<Seq<Float>, NodeError> {
        match self {
            FloatListValue::Literal(items) => evaluate_all(items@),
        }
    }

    /// Evaluates each element in order, stopping at the first failure.
    pub fn evaluate(&self) -> (r: Result<Vec<Float>, NodeError>)
        ensures
            match (r, self.spec_evaluate()) {
                (Ok(got), Ok(want)) => got@ == want,
                (Err(e), Err(want)) => e == want,
                _ => false,
            },
    {
        match self {
            FloatListValue::Literal(items) => {
                let mut out: Vec<Float> = Vec::new();
                let mut i: usize = 0;
                while i < items.len()
                    invariant
                        i <= items.len(),
                        evaluate_all(items@.subrange(0, i as int)) == Ok::<Seq<Float>, NodeError>(out@),
                    decreases items.len() - i,
                {
                    proof {
                        assert(items@.subrange(0, i as int + 1).drop_last() =~= items@.subrange(0, i as int));
                    }
                    let x = items[i].evaluate()?;
                    out.push(x);
                    i = i + 1;
                }
                proof {
                    assert(items@.subrange(0, i as int) =~= items@);
                }
                Ok(out)
            },
        }
    }
}

} // verus!
