use condtree::value::{BoolOperation, BoolValue, Buffer};

#[test]
fn test_execute() {
    let operation = Buffer::new(BoolValue::Literal(true));
    assert!(operation.execute().unwrap().evaluate().unwrap());
}

#[test]
fn buffer_passes_false_through() {
    let operation = Buffer::new(BoolValue::Literal(false));
    let v = operation.execute().unwrap();
    assert!(matches!(v, BoolValue::Literal(false)));
}

#[test]
fn operation_used_as_value() {
    let nested = Buffer::new(BoolValue::Operation(Box::new(BoolOperation::Buffer(Buffer::new(
        BoolValue::Literal(true),
    )))));
    let op = BoolOperation::Buffer(nested);
    let direct = op.execute().unwrap().evaluate().unwrap();
    let as_value = BoolValue::Operation(Box::new(op)).evaluate().unwrap();
    assert!(direct);
    assert_eq!(direct, as_value);
}
