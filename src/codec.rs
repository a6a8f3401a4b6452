use crate::error::{Family, NodeError};
use crate::record::{lemma_field_smaller, field, has_tag, node1, node2, reports_unknown, required_field, tag, unknown_or_malformed, Record};
use crate::condition::{Condition, FloatInRange, FloatListIsNotEmpty, FloatListLengthNotEquals, IntLessThanOrEquals};
use crate::value::{BoolOperation, BoolValue, Buffer, FloatListValue, FloatRange, FloatRangeValue, FloatValue, IntValue};
use vstd::prelude::*;

verus! {

pub open spec fn encodes_int(rec: Record, v: IntValue) -> bool {
    match v {
        IntValue::Literal(i) => tag(rec) == Some("Int"@) && field(rec, "value"@) == Some(
            Record::Int(i),
        ),
    }
}

pub open spec fn encodes_float(rec: Record, v: FloatValue) -> bool {
    match v {
        FloatValue::Literal(x) => tag(rec) == Some("Float"@) && field(rec, "value"@) == Some(
            Record::Float(x),
        ),
    }
}

pub open spec fn encodes_range(rec: Record, v: FloatRangeValue) -> bool {
    match v {
        FloatRangeValue::Literal(r) => tag(rec) == Some("FloatRange"@) && field(rec, "start"@)
            == Some(Record::Float(r.start)) && field(rec, "end"@) == Some(Record::Float(r.end)),
    }
}

pub open spec fn encodes_floats(recs: Seq<Record>, items: Seq<FloatValue>) -> bool {
    recs.len() == items.len() && forall|i: int|
        0 <= i < items.len() ==> #[trigger] encodes_float(recs[i], items[i])
}

pub open spec fn encodes_list(rec: Record, v: FloatListValue) -> bool {
    match v {
        FloatListValue::Literal(items) => tag(rec) == Some("FloatList"@) && match field(
            rec,
            "value"@,
        ) {
            Some(Record::List(recs)) => encodes_floats(recs@, items@),
            _ => false,
        },
    }
}

impl IntValue {
    pub fn to_record(&self) -> (r: Record)
        ensures
            encodes_int(r, *self),
    {
        match self {
            IntValue::Literal(i) => node1("Int", "value", Record::Int(*i)),
        }
    }

    pub fn from_record(rec: &Record) -> (r: Result<IntValue, NodeError>)
        ensures
            r matches Ok(v) ==> encodes_int(*rec, v),
            forall|v: IntValue| encodes_int(*rec, v) ==> r is Ok,
            reports_unknown(r, *rec, Family::IntValue),
    {
        if has_tag(rec, "Int") {
            match required_field(rec, "value")? {
                Record::Int(i) => Ok(IntValue::Literal(*i)),
                _ => Err(NodeError::MalformedRecord { field: "value".to_owned() }),
            }
        } else {
            Err(unknown_or_malformed(rec, Family::IntValue))
        }
    }
}

impl FloatValue {
    pub fn to_record(&self) -> (r: Record)
        ensures
            encodes_float(r, *self),
    {
        match self {
            FloatValue::Literal(x) => node1("Float", "value", Record::Float(*x)),
        }
    }

    pub fn from_record(rec: &Record) -> (r: Result<FloatValue, NodeError>)
        ensures
            r matches Ok(v) ==> encodes_float(*rec, v),
            forall|v: FloatValue| encodes_float(*rec, v) ==> r is Ok,
            reports_unknown(r, *rec, Family::FloatValue),
    {
        if has_tag(rec, "Float") {
            match required_field(rec, "value")? {
                Record::Float(x) => Ok(FloatValue::Literal(*x)),
                _ => Err(NodeError::MalformedRecord { field: "value".to_owned() }),
            }
        } else {
            Err(unknown_or_malformed(rec, Family::FloatValue))
        }
    }
}

/// Reads a field that must hold a float.
fn float_field(rec: &Record, key: &str) -> (r: Result<crate::float::Float, NodeError>)
    ensures
        r matches Ok(x) ==> field(*rec, key@) == Some(Record::Float(x)),
        (field(*rec, key@) matches Some(Record::Float(_))) ==> r is Ok,
        r matches Err(e) ==> e is MalformedRecord,
{
    match required_field(rec, key)? {
        Record::Float(x) => Ok(*x),
        _ => Err(NodeError::MalformedRecord { field: key.to_owned() }),
    }
}

impl FloatRangeValue {
    pub fn to_record(&self) -> (r: Record)
        ensures
            encodes_range(r, *self),
    {
        proof {
            reveal_strlit("start");
            reveal_strlit("end");
            assert("start"@.len() != "end"@.len());
        }
        match self {
            FloatRangeValue::Literal(r) => node2(
                "FloatRange",
                "start",
                Record::Float(r.start),
                "end",
                Record::Float(r.end),
            ),
        }
    }

    pub fn from_record(rec: &Record) -> (r: Result<FloatRangeValue, NodeError>)
        ensures
            r matches Ok(v) ==> encodes_range(*rec, v),
            forall|v: FloatRangeValue| encodes_range(*rec, v) ==> r is Ok,
            reports_unknown(r, *rec, Family::FloatRangeValue),
    {
        if has_tag(rec, "FloatRange") {
            let start = float_field(rec, "start")?;
            let end = float_field(rec, "end")?;
            Ok(FloatRangeValue::Literal(FloatRange { start, end }))
        } else {
            Err(unknown_or_malformed(rec, Family::FloatRangeValue))
        }
    }
}

impl FloatListValue {
    pub fn to_record(&self) -> (r: Record)
        ensures
            encodes_list(r, *self),
    {
        match self {
            FloatListValue::Literal(items) => {
                let mut recs: Vec<Record> = Vec::new();
                let mut i: usize = 0;
                while i < items.len()
                    invariant
                        i <= items.len(),
                        encodes_floats(recs@, items@.subrange(0, i as int)),
                    decreases items.len() - i,
                {
                    let r = items[i].to_record();
                    recs.push(r);
                    i = i + 1;
                    proof {
                        assert forall|j: int| 0 <= j < i implies #[trigger] encodes_float(
                            recs@[j],
                            items@.subrange(0, i as int)[j],
                        ) by {
                            if j < i - 1 {
                                assert(encodes_float(recs@[j], items@.subrange(0, i - 1)[j]));
                            }
                        }
                    }
                }
                proof {
                    assert(items@.subrange(0, i as int) =~= items@);
                }
                node1("FloatList", "value", Record::List(recs))
            },
        }
    }

    pub fn from_record(rec: &Record) -> (r: Result<FloatListValue, NodeError>)
        ensures
            r matches Ok(v) ==> encodes_list(*rec, v),
            forall|v: FloatListValue| encodes_list(*rec, v) ==> r is Ok,
            reports_unknown(r, *rec, Family::FloatListValue),
    {
        if has_tag(rec, "FloatList") {
            let value = required_field(rec, "value")?;
            match value {
                Record::List(recs) => {
                    let mut items: Vec<FloatValue> = Vec::new();
                    let mut i: usize = 0;
                    while i < recs.len()
                        invariant
                            i <= recs.len(),
                            field(*rec, "value"@) == Some(*value),
                            *value == Record::List(*recs),
                            tag(*rec) == Some("FloatList"@),
                            encodes_floats(recs@.subrange(0, i as int), items@),
                        decreases recs.len() - i,
                    {
                        let item = match FloatValue::from_record(&recs[i]) {
                            Ok(item) => item,
                            Err(e) => {
                                proof {
                                    assert forall|v: FloatListValue| !encodes_list(*rec, v) by {
                                        if encodes_list(*rec, v) {
                                            let FloatListValue::Literal(want) = v;
                                            assert(encodes_float(recs@[i as int], want@[i as int]));
                                        }
                                    }
                                }
                                return Err(e);
                            },
                        };
                        items.push(item);
                        i = i + 1;
                        proof {
                            assert forall|j: int| 0 <= j < i implies #[trigger] encodes_float(
                                recs@.subrange(0, i as int)[j],
                                items@[j],
                            ) by {
                                if j < i - 1 {
                                    assert(encodes_float(recs@.subrange(0, i - 1)[j], items@[j]));
                                }
                            }
                        }
                    }
                    proof {
                        assert(recs@.subrange(0, i as int) =~= recs@);
                    }
                    Ok(FloatListValue::Literal(items))
                },
                _ => Err(NodeError::MalformedRecord { field: "value".to_owned() }),
            }
        } else {
            Err(unknown_or_malformed(rec, Family::FloatListValue))
        }
    }
}

pub open spec fn encodes_bool(rec: Record, v: BoolValue) -> bool
    decreases v.height(),
{
    match v {
        BoolValue::Literal(b) => tag(rec) == Some("Bool"@) && field(rec, "value"@) == Some(
            Record::Bool(b),
        ),
        BoolValue::Operation(op) => encodes_operation(rec, *op),
    }
}

pub open spec fn encodes_operation(rec: Record, op: BoolOperation) -> bool
    decreases op.height(),
{
    match op {
        BoolOperation::Buffer(b) => encodes_buffer(rec, b),
    }
}

pub open spec fn encodes_buffer(rec: Record, b: Buffer) -> bool
    decreases b.height(),
{
    tag(rec) == Some("Buffer"@) && match field(rec, "value"@) {
        Some(sub) => encodes_bool(sub, *b.value),
        None => false,
    }
}

impl BoolValue {
    pub fn to_record(&self) -> (r: Record)
        ensures
            encodes_bool(r, *self),
        decreases self.height(),
    {
        match self {
            BoolValue::Literal(b) => node1("Bool", "value", Record::Bool(*b)),
            BoolValue::Operation(op) => op.to_record(),
        }
    }

    pub fn from_record(rec: &Record) -> (r: Result<BoolValue, NodeError>)
        ensures
            r matches Ok(v) ==> encodes_bool(*rec, v),
            forall|v: BoolValue| encodes_bool(*rec, v) ==> r is Ok,
            reports_unknown(r, *rec, Family::BoolValue),
        decreases *rec, 1nat,
    {
        proof {
            reveal_strlit("Bool");
            reveal_strlit("Buffer");
            assert("Bool"@.len() != "Buffer"@.len());
        }
        if has_tag(rec, "Bool") {
            match required_field(rec, "value")? {
                Record::Bool(b) => Ok(BoolValue::Literal(*b)),
                _ => Err(NodeError::MalformedRecord { field: "value".to_owned() }),
            }
        } else if has_tag(rec, "Buffer") {
            let b = match Buffer::from_fields(rec) {
                Ok(b) => b,
                Err(e) => {
                    proof {
                        assert forall|v: BoolValue| !encodes_bool(*rec, v) by {
                            if let BoolValue::Operation(op) = v {
                                let BoolOperation::Buffer(b) = *op;
                                assert(encodes_bool(*rec, v) ==> encodes_buffer(*rec, b));
                            }
                        }
                    }
                    return Err(e);
                },
            };
            Ok(BoolValue::Operation(Box::new(BoolOperation::Buffer(b))))
        } else {
            Err(unknown_or_malformed(rec, Family::BoolValue))
        }
    }
}

impl BoolOperation {
    pub fn to_record(&self) -> (r: Record)
        ensures
            encodes_operation(r, *self),
        decreases self.height(),
    {
        match self {
            BoolOperation::Buffer(b) => b.to_record(),
        }
    }

    pub fn from_record(rec: &Record) -> (r: Result<BoolOperation, NodeError>)
        ensures
            r matches Ok(v) ==> encodes_operation(*rec, v),
            forall|v: BoolOperation| encodes_operation(*rec, v) ==> r is Ok,
            reports_unknown(r, *rec, Family::BoolOperation),
    {
        if has_tag(rec, "Buffer") {
            let b = match Buffer::from_fields(rec) {
                Ok(b) => b,
                Err(e) => {
                    proof {
                        assert forall|v: BoolOperation| !encodes_operation(*rec, v) by {
                            let BoolOperation::Buffer(b) = v;
                            assert(encodes_operation(*rec, v) ==> encodes_buffer(*rec, b));
                        }
                    }
                    return Err(e);
                },
            };
            Ok(BoolOperation::Buffer(b))
        } else {
            Err(unknown_or_malformed(rec, Family::BoolOperation))
        }
    }
}

impl Buffer {
    pub fn to_record(&self) -> (r: Record)
        ensures
            encodes_buffer(r, *self),
        decreases self.height(),
    {
        let sub = self.value.to_record();
        node1("Buffer", "value", sub)
    }

    /// Reads the fields of a record tagged `Buffer`.
    fn from_fields(rec: &Record) -> (r: Result<Buffer, NodeError>)
        requires
            tag(*rec) == Some("Buffer"@),
        ensures
            r matches Ok(b) ==> encodes_buffer(*rec, b),
            forall|b: Buffer| encodes_buffer(*rec, b) ==> r is Ok,
        decreases *rec, 0nat,
    {
        let sub = required_field(rec, "value")?;
        proof {
            lemma_field_smaller(*rec, "value"@);
        }
        let v = match BoolValue::from_record(sub) {
            Ok(v) => v,
            Err(e) => {
                proof {
                    assert forall|b: Buffer| !encodes_buffer(*rec, b) by {
                        if encodes_buffer(*rec, b) {
                            assert(encodes_bool(*sub, *b.value));
                        }
                    }
                }
                return Err(e);
            },
        };
        Ok(Buffer { value: Box::new(v) })
    }
}

/// The field `key` of `rec` encodes the float value `v`.
pub open spec fn float_at(rec: Record, key: Seq<char>, v: FloatValue) -> bool {
    field(rec, key) matches Some(x) && encodes_float(x, v)
}

/// The field `key` of `rec` encodes the integer value `v`.
pub open spec fn int_at(rec: Record, key: Seq<char>, v: IntValue) -> bool {
    field(rec, key) matches Some(x) && encodes_int(x, v)
}

/// The field `key` of `rec` encodes the range value `v`.
pub open spec fn range_at(rec: Record, key: Seq<char>, v: FloatRangeValue) -> bool {
    field(rec, key) matches Some(x) && encodes_range(x, v)
}

/// The field `key` of `rec` encodes the list value `v`.
pub open spec fn list_at(rec: Record, key: Seq<char>, v: FloatListValue) -> bool {
    field(rec, key) matches Some(x) && encodes_list(x, v)
}

fn read_float_at(rec: &Record, key: &str) -> (r: Result<FloatValue, NodeError>)
    ensures
        r matches Ok(v) ==> float_at(*rec, key@, v),
        forall|v: FloatValue| float_at(*rec, key@, v) ==> r is Ok,
{
    let sub = required_field(rec, key)?;
    FloatValue::from_record(sub)
}

fn read_int_at(rec: &Record, key: &str) -> (r: Result<IntValue, NodeError>)
    ensures
        r matches Ok(v) ==> int_at(*rec, key@, v),
        forall|v: IntValue| int_at(*rec, key@, v) ==> r is Ok,
{
    let sub = required_field(rec, key)?;
    IntValue::from_record(sub)
}

fn read_range_at(rec: &Record, key: &str) -> (r: Result<FloatRangeValue, NodeError>)
    ensures
        r matches Ok(v) ==> range_at(*rec, key@, v),
        forall|v: FloatRangeValue| range_at(*rec, key@, v) ==> r is Ok,
{
    let sub = required_field(rec, key)?;
    FloatRangeValue::from_record(sub)
}

fn read_list_at(rec: &Record, key: &str) -> (r: Result<FloatListValue, NodeError>)
    ensures
        r matches Ok(v) ==> list_at(*rec, key@, v),
        forall|v: FloatListValue| list_at(*rec, key@, v) ==> r is Ok,
{
    let sub = required_field(rec, key)?;
    FloatListValue::from_record(sub)
}

pub open spec fn encodes_condition(rec: Record, c: Condition) -> bool {
    match c {
        Condition::FloatInRange(c) => tag(rec) == Some("FloatInRange"@) && float_at(
            rec,
            "value"@,
            c.value,
        ) && range_at(rec, "range"@, c.range),
        Condition::FloatListIsNotEmpty(c) => tag(rec) == Some("FloatListIsNotEmpty"@) && list_at(
            rec,
            "list"@,
            c.list,
        ),
        Condition::FloatListLengthNotEquals(c) => tag(rec) == Some("FloatListLengthNotEquals"@)
            && list_at(rec, "list"@, c.list) && int_at(rec, "length"@, c.length),
        Condition::IntLessThanOrEquals(c) => tag(rec) == Some("IntLessThanOrEquals"@) && int_at(
            rec,
            "left"@,
            c.left,
        ) && int_at(rec, "right"@, c.right),
    }
}

impl Condition {
    pub fn to_record(&self) -> (r: Record)
        ensures
            encodes_condition(r, *self),
    {
        proof {
            reveal_strlit("value");
            reveal_strlit("range");
            reveal_strlit("list");
            reveal_strlit("length");
            reveal_strlit("left");
            reveal_strlit("right");
            assert("value"@[0] != "range"@[0]);
            assert("list"@.len() != "length"@.len());
            assert("left"@.len() != "right"@.len());
        }
        match self {
            Condition::FloatInRange(c) => node2(
                "FloatInRange",
                "value",
                c.value.to_record(),
                "range",
                c.range.to_record(),
            ),
            Condition::FloatListIsNotEmpty(c) => node1(
                "FloatListIsNotEmpty",
                "list",
                c.list.to_record(),
            ),
            Condition::FloatListLengthNotEquals(c) => node2(
                "FloatListLengthNotEquals",
                "list",
                c.list.to_record(),
                "length",
                c.length.to_record(),
            ),
            Condition::IntLessThanOrEquals(c) => node2(
                "IntLessThanOrEquals",
                "left",
                c.left.to_record(),
                "right",
                c.right.to_record(),
            ),
        }
    }

    pub fn from_record(rec: &Record) -> (r: Result<Condition, NodeError>)
        ensures
            r matches Ok(c) ==> encodes_condition(*rec, c),
            forall|c: Condition| encodes_condition(*rec, c) ==> r is Ok,
            reports_unknown(r, *rec, Family::Condition),
    {
        proof {
            reveal_strlit("FloatInRange");
            reveal_strlit("FloatListIsNotEmpty");
            reveal_strlit("FloatListLengthNotEquals");
            reveal_strlit("IntLessThanOrEquals");
            assert("FloatInRange"@.len() == 12);
            assert("FloatListIsNotEmpty"@.len() == 19);
            assert("FloatListLengthNotEquals"@.len() == 24);
            assert("FloatListIsNotEmpty"@[0] != "IntLessThanOrEquals"@[0]);
        }
        if has_tag(rec, "FloatInRange") {
            let value = read_float_at(rec, "value")?;
            let range = read_range_at(rec, "range")?;
            Ok(Condition::FloatInRange(FloatInRange { value, range }))
        } else if has_tag(rec, "FloatListIsNotEmpty") {
            let list = read_list_at(rec, "list")?;
            Ok(Condition::FloatListIsNotEmpty(FloatListIsNotEmpty { list }))
        } else if has_tag(rec, "FloatListLengthNotEquals") {
            let list = read_list_at(rec, "list")?;
            let length = read_int_at(rec, "length")?;
            Ok(Condition::FloatListLengthNotEquals(FloatListLengthNotEquals { list, length }))
        } else if has_tag(rec, "IntLessThanOrEquals") {
            let left = read_int_at(rec, "left")?;
            let right = read_int_at(rec, "right")?;
            Ok(Condition::IntLessThanOrEquals(IntLessThanOrEquals { left, right }))
        } else {
            Err(unknown_or_malformed(rec, Family::Condition))
        }
    }
}

proof fn lemma_bool_unique(rec: Record, a: BoolValue, b: BoolValue)
    requires
        encodes_bool(rec, a),
        encodes_bool(rec, b),
    ensures
        a == b,
    decreases a.height(),
{
    reveal_strlit("Bool");
    reveal_strlit("Buffer");
    assert("Bool"@.len() != "Buffer"@.len());
    match (a, b) {
        (BoolValue::Operation(x), BoolValue::Operation(y)) => {
            let BoolOperation::Buffer(bx) = *x;
            let BoolOperation::Buffer(by) = *y;
            let sub = field(rec, "value"@)->Some_0;
            assert(encodes_bool(sub, *bx.value));
            lemma_bool_unique(sub, *bx.value, *by.value);
        },
        _ => {},
    }
}

proof fn lemma_list_same_values(rec: Record, a: FloatListValue, b: FloatListValue)
    requires
        encodes_list(rec, a),
        encodes_list(rec, b),
    ensures
        a.spec_evaluate() == b.spec_evaluate(),
{
    let FloatListValue::Literal(xs) = a;
    let FloatListValue::Literal(ys) = b;
    let recs = field(rec, "value"@)->Some_0->List_0;
    assert forall|i: int| 0 <= i < xs@.len() implies xs@[i] == ys@[i] by {
        assert(encodes_float(recs@[i], xs@[i]));
        assert(encodes_float(recs@[i], ys@[i]));
    }
    assert(xs@ =~= ys@);
}

/// Round trip of the boolean family: a record that encodes `v`, as
/// `to_record` writes it, is read back as `v` itself.
pub proof fn lemma_round_trip_bool(rec: Record, v: BoolValue, back: BoolValue)
    requires
        encodes_bool(rec, v),
        encodes_bool(rec, back),
    ensures
        back == v,
        back.spec_evaluate() == v.spec_evaluate(),
{
    lemma_bool_unique(rec, v, back);
}

/// Round trip of conditions: any condition read back from a record that
/// encodes `c`, as `to_record` writes it, evaluates exactly as `c` does.
pub proof fn lemma_round_trip(rec: Record, c: Condition, back: Condition)
    requires
        encodes_condition(rec, c),
        encodes_condition(rec, back),
    ensures
        back.spec_is_met() == c.spec_is_met(),
{
    reveal_strlit("FloatInRange");
    reveal_strlit("FloatListIsNotEmpty");
    reveal_strlit("FloatListLengthNotEquals");
    reveal_strlit("IntLessThanOrEquals");
    assert("FloatInRange"@.len() == 12);
    assert("FloatListIsNotEmpty"@.len() == 19);
    assert("FloatListLengthNotEquals"@.len() == 24);
    assert("FloatListIsNotEmpty"@[0] != "IntLessThanOrEquals"@[0]);
    match (c, back) {
        (Condition::FloatListIsNotEmpty(x), Condition::FloatListIsNotEmpty(y)) => {
            lemma_list_same_values(field(rec, "list"@)->Some_0, x.list, y.list);
        },
        (Condition::FloatListLengthNotEquals(x), Condition::FloatListLengthNotEquals(y)) => {
            lemma_list_same_values(field(rec, "list"@)->Some_0, x.list, y.list);
        },
        _ => {},
    }
}

} // verus!
