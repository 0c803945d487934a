use pg_decoderbufs::decoderbufs::{Datum, DatumMessage, Op, Point, RowMessage, TypeInfo};

fn record(op: Option<i32>) -> RowMessage {
    RowMessage {
        transaction_id: None,
        commit_time: None,
        table: None,
        op,
        new_tuple: Vec::new(),
        old_tuple: Vec::new(),
        new_typeinfo: Vec::new(),
    }
}

#[test]
fn op_names_are_the_protocol_names() {
    assert_eq!(Op::Unknown.as_str_name(), "UNKNOWN");
    assert_eq!(Op::Insert.as_str_name(), "INSERT");
    assert_eq!(Op::Update.as_str_name(), "UPDATE");
    assert_eq!(Op::Delete.as_str_name(), "DELETE");
    assert_eq!(Op::Begin.as_str_name(), "BEGIN");
    assert_eq!(Op::Commit.as_str_name(), "COMMIT");
}

#[test]
fn op_wire_numbers() {
    assert_eq!(Op::Unknown.as_i32(), -1);
    assert_eq!(Op::Insert.as_i32(), 0);
    assert_eq!(Op::Update.as_i32(), 1);
    assert_eq!(Op::Delete.as_i32(), 2);
    assert_eq!(Op::Begin.as_i32(), 3);
    assert_eq!(Op::Commit.as_i32(), 4);
}

#[test]
fn op_from_wire_number() {
    assert_eq!(Op::from_i32(-1), Some(Op::Unknown));
    assert_eq!(Op::from_i32(0), Some(Op::Insert));
    assert_eq!(Op::from_i32(1), Some(Op::Update));
    assert_eq!(Op::from_i32(2), Some(Op::Delete));
    assert_eq!(Op::from_i32(3), Some(Op::Begin));
    assert_eq!(Op::from_i32(4), Some(Op::Commit));
    assert_eq!(Op::from_i32(5), None);
    assert_eq!(Op::from_i32(-2), None);
    assert_eq!(Op::from_i32(i32::MAX), None);
    assert_eq!(Op::from_i32(i32::MIN), None);
}

#[test]
fn op_wire_number_round_trip() {
    for op in [Op::Unknown, Op::Insert, Op::Update, Op::Delete, Op::Begin, Op::Commit] {
        assert_eq!(Op::from_i32(op.as_i32()), Some(op));
    }
}

#[test]
fn op_order_follows_wire_numbers() {
    assert!(Op::Unknown < Op::Insert);
    assert!(Op::Insert < Op::Update);
    assert!(Op::Update < Op::Delete);
    assert!(Op::Delete < Op::Begin);
    assert!(Op::Begin < Op::Commit);
}

#[test]
fn record_getters_default_when_absent() {
    let empty = record(None);
    assert_eq!(empty.transaction_id(), 0);
    assert_eq!(empty.commit_time(), 0);
    assert_eq!(empty.table(), "");
    assert_eq!(empty.op(), Op::Unknown);
}

#[test]
fn record_getters_return_what_is_there() {
    let full = RowMessage {
        transaction_id: Some(42),
        commit_time: Some(1000),
        table: Some("public.t".to_string()),
        op: Some(3),
        new_tuple: Vec::new(),
        old_tuple: Vec::new(),
        new_typeinfo: Vec::new(),
    };
    assert_eq!(full.transaction_id(), 42);
    assert_eq!(full.commit_time(), 1000);
    assert_eq!(full.table(), "public.t");
    assert_eq!(full.op(), Op::Begin);
}

#[test]
fn record_op_of_a_number_that_is_no_operation_is_unknown() {
    assert_eq!(record(Some(17)).op(), Op::Unknown);
    assert_eq!(record(Some(-1)).op(), Op::Unknown);
    assert_eq!(record(Some(-5)).op(), Op::Unknown);
    assert_eq!(record(Some(0)).op(), Op::Insert);
    assert_eq!(record(Some(4)).op(), Op::Commit);
}

#[test]
fn floats_are_carried_as_bit_patterns() {
    let single = Datum::DatumFloat(1.5f32.to_bits());
    let double = Datum::DatumDouble((-2.25f64).to_bits());
    let point = Datum::DatumPoint(Point { x: 3.0f64.to_bits(), y: 4.0f64.to_bits() });
    match single {
        Datum::DatumFloat(bits) => assert_eq!(f32::from_bits(bits), 1.5),
        _ => unreachable!(),
    }
    match double {
        Datum::DatumDouble(bits) => assert_eq!(f64::from_bits(bits), -2.25),
        _ => unreachable!(),
    }
    match point {
        Datum::DatumPoint(p) => {
            assert_eq!(f64::from_bits(p.x), 3.0);
            assert_eq!(f64::from_bits(p.y), 4.0);
        }
        _ => unreachable!(),
    }
}

#[test]
fn records_compare_by_content() {
    let column = DatumMessage {
        column_name: "id".to_string(),
        column_type: Some(23),
        datum: Datum::DatumInt32(7),
    };
    let info = TypeInfo { modifier: "integer".to_string(), value_optional: false };
    let mut a = record(Some(0));
    a.new_tuple.push(column.clone());
    a.new_typeinfo.push(info.clone());
    let mut b = record(Some(0));
    b.new_tuple.push(column);
    b.new_typeinfo.push(info);
    assert_eq!(a, b);
    b.op = Some(1);
    assert_ne!(a, b);
}
