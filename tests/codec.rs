use condtree::condition::{
    Condition, FloatInRange, FloatListIsNotEmpty, FloatListLengthNotEquals, IntLessThanOrEquals,
};
use condtree::context::NullContext;
use condtree::error::{Family, NodeError};
use condtree::float::Float;
use condtree::record::{Entry, Node, Record};
use condtree::value::{
    BoolOperation, BoolValue, Buffer, FloatListValue, FloatRange, FloatRangeValue, FloatValue,
    IntValue,
};

fn float(x: f64) -> Float {
    Float::from_bits(x.to_bits())
}

fn node(tag: &str, fields: Vec<(&str, Record)>) -> Record {
    Record::Node(Node {
        tag: tag.to_string(),
        fields: fields
            .into_iter()
            .map(|(k, v)| Entry { key: k.to_string(), value: v })
            .collect(),
    })
}

fn tag_of(rec: &Record) -> &str {
    match rec {
        Record::Node(n) => n.tag.as_str(),
        _ => panic!("not a node"),
    }
}

fn field<'a>(rec: &'a Record, key: &str) -> &'a Record {
    match rec {
        Record::Node(n) => &n.fields.iter().find(|e| e.key == key).unwrap().value,
        _ => panic!("not a node"),
    }
}

#[test]
fn mod_test_serde() {
    let c = Condition::IntLessThanOrEquals(IntLessThanOrEquals {
        left: IntValue::Literal(2),
        right: IntValue::Literal(1),
    });
    let rec = c.to_record();
    assert_eq!(tag_of(&rec), "IntLessThanOrEquals");
    assert_eq!(tag_of(field(&rec, "left")), "Int");
    assert!(matches!(field(field(&rec, "left"), "value"), Record::Int(2)));
    assert!(matches!(field(field(&rec, "right"), "value"), Record::Int(1)));
    let back = Condition::from_record(&rec).unwrap();
    assert!(!back.is_met(&NullContext).unwrap());
}

#[test]
fn in_range_round_trip() {
    let c = Condition::FloatInRange(FloatInRange {
        value: FloatValue::Literal(float(1.0)),
        range: FloatRangeValue::Literal(FloatRange { start: float(0.0), end: float(1.0) }),
    });
    let rec = c.to_record();
    assert_eq!(tag_of(field(&rec, "range")), "FloatRange");
    assert!(matches!(field(field(&rec, "range"), "end"), Record::Float(x) if x.to_bits() == 1.0f64.to_bits()));
    match Condition::from_record(&rec).unwrap() {
        Condition::FloatInRange(back) => {
            assert_eq!(back.value.evaluate().unwrap().to_bits(), 1.0f64.to_bits());
            let r = back.range.evaluate().unwrap();
            assert_eq!(r.start.to_bits(), 0.0f64.to_bits());
            assert_eq!(r.end.to_bits(), 1.0f64.to_bits());
            assert!(!back.is_met(&NullContext).unwrap());
        },
        _ => panic!("wrong kind"),
    }
}

#[test]
fn list_conditions_round_trip() {
    let list = || FloatListValue::Literal(vec![FloatValue::Literal(float(1.0))]);
    let c = Condition::FloatListIsNotEmpty(FloatListIsNotEmpty { list: list() });
    let rec = c.to_record();
    assert_eq!(tag_of(field(&rec, "list")), "FloatList");
    assert!(matches!(field(field(&rec, "list"), "value"), Record::List(items) if items.len() == 1));
    assert!(Condition::from_record(&rec).unwrap().is_met(&NullContext).unwrap());

    let c = Condition::FloatListLengthNotEquals(FloatListLengthNotEquals {
        list: list(),
        length: IntValue::Literal(1),
    });
    let back = Condition::from_record(&c.to_record()).unwrap();
    assert!(!back.is_met(&NullContext).unwrap());
}

#[test]
fn test_serde() {
    let op = BoolOperation::Buffer(Buffer::new(BoolValue::Literal(true)));
    let rec = op.to_record();
    assert_eq!(tag_of(&rec), "Buffer");
    assert_eq!(tag_of(field(&rec, "value")), "Bool");
    assert!(matches!(field(field(&rec, "value"), "value"), Record::Bool(true)));
    let back = BoolOperation::from_record(&rec).unwrap();
    assert_eq!(
        op.execute().unwrap().evaluate().unwrap(),
        back.execute().unwrap().evaluate().unwrap()
    );
    let as_value = BoolValue::from_record(&rec).unwrap();
    assert!(as_value.evaluate().unwrap());
}

#[test]
fn reading_from_hand_written_record() {
    let rec = node(
        "FloatListLengthNotEquals",
        vec![
            ("list", node("FloatList", vec![("value", Record::List(vec![
                node("Float", vec![("value", Record::Float(float(1.0)))]),
                node("Float", vec![("value", Record::Float(float(2.0)))]),
            ]))])),
            ("length", node("Int", vec![("value", Record::Int(2))])),
        ],
    );
    assert!(!Condition::from_record(&rec).unwrap().is_met(&NullContext).unwrap());
}

#[test]
fn condition_tag_unknown_to_value_families() {
    let rec = node("IntLessThanOrEquals", vec![]);
    let r = IntValue::from_record(&rec);
    assert!(matches!(r, Err(NodeError::UnknownKind { family: Family::IntValue, ref tag }) if tag == "IntLessThanOrEquals"));
    assert!(matches!(FloatValue::from_record(&rec), Err(NodeError::UnknownKind { family: Family::FloatValue, .. })));
    assert!(matches!(BoolValue::from_record(&rec), Err(NodeError::UnknownKind { family: Family::BoolValue, .. })));
}

#[test]
fn value_tag_unknown_to_condition_family() {
    let rec = node("Float", vec![("value", Record::Float(float(1.0)))]);
    let r = Condition::from_record(&rec);
    assert!(matches!(r, Err(NodeError::UnknownKind { family: Family::Condition, ref tag }) if tag == "Float"));
}

#[test]
fn nested_unknown_tag_is_named() {
    let rec = node("Buffer", vec![("value", node("Nope", vec![]))]);
    let r = BoolOperation::from_record(&rec);
    assert!(matches!(r, Err(NodeError::UnknownKind { family: Family::BoolValue, ref tag }) if tag == "Nope"));
}

#[test]
fn missing_field_is_malformed() {
    let rec = node("IntLessThanOrEquals", vec![("left", node("Int", vec![("value", Record::Int(1))]))]);
    let r = Condition::from_record(&rec);
    assert!(matches!(r, Err(NodeError::MalformedRecord { ref field }) if field == "right"));
}

#[test]
fn wrong_scalar_is_malformed() {
    let rec = node("Int", vec![("value", Record::Bool(true))]);
    assert!(matches!(IntValue::from_record(&rec), Err(NodeError::MalformedRecord { .. })));
    assert!(matches!(IntValue::from_record(&Record::Int(3)), Err(NodeError::MalformedRecord { .. })));
}
