use pg_decoderbufs::decoderbufs::{Datum, DatumMessage, Op, RowMessage};
use pg_decoderbufs::stream::{
    pgtime, unix_micros, Assembler, DecoderBufMessage, DecoderBufStream, KeepAlive,
    ProtocolViolation, ReplicationSlot, ReplicationSlotCreate, SlotRow, SourceItem, Step,
    StreamError, ViolationKind, WalTransaction, MICROSECONDS_FROM_UNIX_EPOCH_TO_2000,
};
use tokio_postgres::types::PgLsn;

fn record(op: Op) -> RowMessage {
    RowMessage {
        transaction_id: None,
        commit_time: None,
        table: None,
        op: Some(op.as_i32()),
        new_tuple: Vec::new(),
        old_tuple: Vec::new(),
        new_typeinfo: Vec::new(),
    }
}

fn begin(txid: u32, commit_time: u64) -> RowMessage {
    RowMessage { transaction_id: Some(txid), commit_time: Some(commit_time), ..record(Op::Begin) }
}

fn change(op: Op, table: &str, id: i32) -> RowMessage {
    RowMessage {
        table: Some(table.to_string()),
        new_tuple: vec![DatumMessage {
            column_name: "id".to_string(),
            column_type: None,
            datum: Datum::DatumInt32(id),
        }],
        ..record(op)
    }
}

fn xlog(wal_start: u64, record: RowMessage) -> SourceItem {
    SourceItem::XLogData { wal_start, record }
}

#[test]
fn whole_transaction_is_emitted_once() {
    let mut assembler = Assembler::new();
    assert!(assembler.is_idle());
    assert_eq!(assembler.feed(begin(9, 77), 100), Ok(None));
    assert!(!assembler.is_idle());
    let events = vec![
        change(Op::Insert, "t", 1),
        change(Op::Update, "t", 2),
        change(Op::Delete, "u", 3),
        change(Op::Insert, "t", 4),
    ];
    for (i, event) in events.iter().enumerate() {
        assert_eq!(assembler.feed(event.clone(), 101 + i as u64), Ok(None));
        assert!(!assembler.is_idle());
    }
    assert_eq!(
        assembler.feed(record(Op::Commit), 200),
        Ok(Some(WalTransaction { start: 100, txid: 9, commit_time: 77, events }))
    );
    assert!(assembler.is_idle());
}

#[test]
fn transaction_without_changes_is_emitted_empty() {
    let mut assembler = Assembler::new();
    assert_eq!(assembler.feed(begin(1, 2), 3), Ok(None));
    assert_eq!(
        assembler.feed(record(Op::Commit), 4),
        Ok(Some(WalTransaction { start: 3, txid: 1, commit_time: 2, events: vec![] }))
    );
    assert!(assembler.is_idle());
}

#[test]
fn begin_without_id_and_time_counts_as_zero() {
    let mut assembler = Assembler::new();
    assert_eq!(assembler.feed(record(Op::Begin), 5), Ok(None));
    assert_eq!(
        assembler.feed(record(Op::Commit), 6),
        Ok(Some(WalTransaction { start: 5, txid: 0, commit_time: 0, events: vec![] }))
    );
}

#[test]
fn second_begin_is_a_violation_and_nothing_is_lost() {
    let mut assembler = Assembler::new();
    assert_eq!(assembler.feed(begin(1, 10), 100), Ok(None));
    assert_eq!(assembler.feed(change(Op::Insert, "t", 1), 101), Ok(None));
    let second = begin(2, 20);
    assert_eq!(
        assembler.feed(second.clone(), 102),
        Err(ProtocolViolation { kind: ViolationKind::NestedBegin, record: second, start: 102 })
    );
    assert!(!assembler.is_idle());
    assert_eq!(assembler.feed(change(Op::Insert, "t", 2), 103), Ok(None));
    assert_eq!(
        assembler.feed(record(Op::Commit), 104),
        Ok(Some(WalTransaction {
            start: 100,
            txid: 1,
            commit_time: 10,
            events: vec![change(Op::Insert, "t", 1), change(Op::Insert, "t", 2)],
        }))
    );
}

#[test]
fn commit_while_idle_is_a_violation() {
    let mut assembler = Assembler::new();
    let commit = record(Op::Commit);
    assert_eq!(
        assembler.feed(commit.clone(), 7),
        Err(ProtocolViolation {
            kind: ViolationKind::CommitOutsideTransaction,
            record: commit,
            start: 7,
        })
    );
    assert!(assembler.is_idle());
}

#[test]
fn commit_after_commit_is_a_violation() {
    let mut assembler = Assembler::new();
    assert_eq!(assembler.feed(begin(1, 1), 1), Ok(None));
    assert!(assembler.feed(record(Op::Commit), 2).is_ok());
    let commit = record(Op::Commit);
    assert_eq!(
        assembler.feed(commit.clone(), 3),
        Err(ProtocolViolation {
            kind: ViolationKind::CommitOutsideTransaction,
            record: commit,
            start: 3,
        })
    );
}

#[test]
fn change_while_idle_is_a_violation() {
    for op in [Op::Insert, Op::Update, Op::Delete] {
        let mut assembler = Assembler::new();
        let row = change(op, "t", 1);
        assert_eq!(
            assembler.feed(row.clone(), 8),
            Err(ProtocolViolation {
                kind: ViolationKind::ChangeOutsideTransaction,
                record: row,
                start: 8,
            })
        );
        assert!(assembler.is_idle());
    }
}

#[test]
fn unknown_or_absent_operation_is_a_violation_in_either_state() {
    let unknown = record(Op::Unknown);
    let absent = RowMessage { op: None, ..record(Op::Unknown) };
    let invalid = RowMessage { op: Some(99), ..record(Op::Unknown) };
    for bad in [unknown, absent, invalid] {
        let mut assembler = Assembler::new();
        assert_eq!(
            assembler.feed(bad.clone(), 1),
            Err(ProtocolViolation {
                kind: ViolationKind::UnknownOperation,
                record: bad.clone(),
                start: 1,
            })
        );
        assert!(assembler.is_idle());
        assert_eq!(assembler.feed(begin(4, 5), 2), Ok(None));
        assert_eq!(
            assembler.feed(bad.clone(), 3),
            Err(ProtocolViolation { kind: ViolationKind::UnknownOperation, record: bad, start: 3 })
        );
        assert_eq!(
            assembler.feed(record(Op::Commit), 4),
            Ok(Some(WalTransaction { start: 2, txid: 4, commit_time: 5, events: vec![] }))
        );
    }
}

#[test]
fn transactions_come_out_in_commit_order() {
    let mut assembler = Assembler::new();
    let mut emitted = Vec::new();
    let stream = vec![
        begin(1, 10),
        change(Op::Insert, "t", 1),
        record(Op::Commit),
        begin(2, 20),
        change(Op::Delete, "t", 1),
        change(Op::Insert, "t", 2),
        record(Op::Commit),
    ];
    for (position, row) in stream.into_iter().enumerate() {
        if let Some(transaction) = assembler.feed(row, position as u64).unwrap() {
            emitted.push(transaction);
        }
    }
    assert_eq!(
        emitted,
        vec![
            WalTransaction {
                start: 0,
                txid: 1,
                commit_time: 10,
                events: vec![change(Op::Insert, "t", 1)],
            },
            WalTransaction {
                start: 3,
                txid: 2,
                commit_time: 20,
                events: vec![change(Op::Delete, "t", 1), change(Op::Insert, "t", 2)],
            },
        ]
    );
    assert!(assembler.is_idle());
}

#[test]
fn session_yields_one_transaction_for_begin_two_inserts_commit() {
    let mut stream = DecoderBufStream::new();
    assert_eq!(stream.advance(xlog(10, begin(42, 1000))), Step::Continue);
    assert_eq!(stream.advance(xlog(11, change(Op::Insert, "t", 1))), Step::Continue);
    assert_eq!(stream.advance(xlog(12, change(Op::Insert, "t", 2))), Step::Continue);
    let next = stream.advance(xlog(13, record(Op::Commit)));
    match next {
        Step::Yield(DecoderBufMessage::Transaction(transaction)) => {
            assert_eq!(transaction.start, 10);
            assert_eq!(transaction.txid, 42);
            assert_eq!(transaction.commit_time, 1000);
            assert_eq!(transaction.events.len(), 2);
            assert_eq!(
                transaction.events,
                vec![change(Op::Insert, "t", 1), change(Op::Insert, "t", 2)]
            );
            for event in &transaction.events {
                assert_eq!(event.table(), "t");
                assert_eq!(event.op(), Op::Insert);
            }
        }
        other => panic!("{:?}", other),
    }
    assert_eq!(stream.advance(xlog(14, begin(43, 1001))), Step::Continue);
}

#[test]
fn session_passes_keep_alive_between_two_transactions() {
    let mut stream = DecoderBufStream::new();
    let keep_alive = KeepAlive { needs_reply: true, server_time: 500 };
    let items = vec![
        xlog(1, begin(1, 10)),
        xlog(2, change(Op::Insert, "t", 1)),
        xlog(3, record(Op::Commit)),
        SourceItem::PrimaryKeepAlive(keep_alive),
        xlog(4, begin(2, 20)),
        xlog(5, record(Op::Commit)),
    ];
    let mut yielded = Vec::new();
    for item in items {
        match stream.advance(item) {
            Step::Yield(message) => yielded.push(message),
            Step::Continue => {}
            other => panic!("{:?}", other),
        }
    }
    assert_eq!(
        yielded,
        vec![
            DecoderBufMessage::Transaction(WalTransaction {
                start: 1,
                txid: 1,
                commit_time: 10,
                events: vec![change(Op::Insert, "t", 1)],
            }),
            DecoderBufMessage::PrimaryKeepAlive(KeepAlive { needs_reply: true, server_time: 500 }),
            DecoderBufMessage::Transaction(WalTransaction {
                start: 4,
                txid: 2,
                commit_time: 20,
                events: vec![],
            }),
        ]
    );
}

#[test]
fn keep_alive_inside_a_transaction_leaves_it_alone() {
    let mut stream = DecoderBufStream::new();
    assert_eq!(stream.advance(xlog(1, begin(1, 10))), Step::Continue);
    let keep_alive = KeepAlive { needs_reply: false, server_time: -3 };
    assert_eq!(
        stream.advance(SourceItem::PrimaryKeepAlive(keep_alive)),
        Step::Yield(DecoderBufMessage::PrimaryKeepAlive(keep_alive))
    );
    assert_eq!(stream.advance(xlog(2, change(Op::Update, "t", 1))), Step::Continue);
    assert_eq!(
        stream.advance(xlog(3, record(Op::Commit))),
        Step::Yield(DecoderBufMessage::Transaction(WalTransaction {
            start: 1,
            txid: 1,
            commit_time: 10,
            events: vec![change(Op::Update, "t", 1)],
        }))
    );
}

#[test]
fn closed_connection_ends_the_stream() {
    let mut stream = DecoderBufStream::new();
    assert_eq!(stream.advance(SourceItem::Closed), Step::End);
    assert_eq!(stream.advance(xlog(1, begin(1, 10))), Step::Continue);
    assert_eq!(stream.advance(SourceItem::Closed), Step::End);
}

#[test]
fn rejected_payload_fails_the_stream_as_a_decode_error() {
    let mut stream = DecoderBufStream::new();
    assert_eq!(
        stream.advance(SourceItem::Undecodable { wal_start: 9, reason: "bad tag".to_string() }),
        Step::Fail(StreamError::Decode { wal_start: 9, reason: "bad tag".to_string() })
    );
}

#[test]
fn violation_fails_the_stream_as_a_protocol_error() {
    let mut stream = DecoderBufStream::new();
    let commit = record(Op::Commit);
    assert_eq!(
        stream.advance(xlog(5, commit.clone())),
        Step::Fail(StreamError::Protocol(ProtocolViolation {
            kind: ViolationKind::CommitOutsideTransaction,
            record: commit,
            start: 5,
        }))
    );
    assert_eq!(stream.advance(xlog(6, begin(1, 1))), Step::Continue);
    let second = begin(2, 2);
    assert_eq!(
        stream.advance(xlog(7, second.clone())),
        Step::Fail(StreamError::Protocol(ProtocolViolation {
            kind: ViolationKind::NestedBegin,
            record: second,
            start: 7,
        }))
    );
}

#[test]
fn clock_offset_is_thirty_years() {
    assert_eq!(MICROSECONDS_FROM_UNIX_EPOCH_TO_2000, 946_684_800_000_000);
    assert_eq!(MICROSECONDS_FROM_UNIX_EPOCH_TO_2000, 10_957 * 86_400 * 1_000_000);
}

#[test]
fn pgtime_subtracts_the_offset() {
    assert_eq!(pgtime(946_684_800_000_000), 0);
    assert_eq!(pgtime(946_684_800_000_001), 1);
    assert_eq!(pgtime(946_684_799_999_999), -1);
    assert_eq!(pgtime(0), -946_684_800_000_000);
    assert_eq!(pgtime(1_700_000_000_000_000), 753_315_200_000_000);
    assert_eq!(pgtime(i64::MAX as u128 + 946_684_800_000_000), i64::MAX);
}

#[test]
fn unix_micros_adds_the_offset() {
    assert_eq!(unix_micros(0), Some(946_684_800_000_000));
    assert_eq!(unix_micros(1), Some(946_684_800_000_001));
    assert_eq!(unix_micros(-1), Some(946_684_799_999_999));
    assert_eq!(unix_micros(-946_684_800_000_000), Some(0));
    assert_eq!(unix_micros(-946_684_800_000_001), None);
    assert_eq!(unix_micros(i64::MIN), None);
    assert_eq!(unix_micros(i64::MAX), Some(i64::MAX as u128 + 946_684_800_000_000));
    assert_eq!(unix_micros(500), Some(946_684_800_000_500));
}

#[test]
fn clock_round_trip() {
    for instant in [
        0u128,
        1,
        946_684_799_999_999,
        946_684_800_000_000,
        1_700_000_000_123_456,
        i64::MAX as u128 + 946_684_800_000_000,
    ] {
        assert_eq!(unix_micros(pgtime(instant)), Some(instant));
    }
    for time in [-946_684_800_000_000i64, -1, 0, 1, 1000, i64::MAX] {
        assert_eq!(pgtime(unix_micros(time).unwrap()), time);
    }
}

#[test]
fn slot_commands() {
    assert_eq!(
        ReplicationSlot::create_query("stream_nft"),
        "CREATE_REPLICATION_SLOT stream_nft LOGICAL \"decoderbufs\""
    );
    assert_eq!(ReplicationSlot::drop_query("stream_nft"), "DROP_REPLICATION_SLOT stream_nft WAIT");
    assert_eq!(
        ReplicationSlot::start_query_at("stream_nft", "0/0"),
        "START_REPLICATION SLOT stream_nft LOGICAL 0/0"
    );
    assert_eq!(ReplicationSlot::create_query(""), "CREATE_REPLICATION_SLOT  LOGICAL \"decoderbufs\"");
}

#[test]
fn start_command_writes_the_position_as_the_server_reads_it() {
    assert_eq!(
        ReplicationSlot::start_query("s", 0),
        "START_REPLICATION SLOT s LOGICAL 0/0"
    );
    assert_eq!(
        ReplicationSlot::start_query("s", 0x16_B374_D848),
        "START_REPLICATION SLOT s LOGICAL 16/B374D848"
    );
    assert_eq!(
        ReplicationSlot::start_query("s", u64::MAX),
        "START_REPLICATION SLOT s LOGICAL FFFFFFFF/FFFFFFFF"
    );
    assert_eq!(
        ReplicationSlot::start_query("s", 25501),
        "START_REPLICATION SLOT s LOGICAL 0/639D"
    );
    for lsn in [0u64, 1, 25501, 1 << 32, 0x16_B374_D848, u64::MAX] {
        assert_eq!(
            ReplicationSlot::start_query("slot", lsn),
            format!("START_REPLICATION SLOT slot LOGICAL {}", PgLsn::from(lsn))
        );
    }
}

fn slot_row(
    slot_name: Option<&str>,
    consistent_point: Option<&str>,
    snapshot_name: Option<&str>,
    output_plugin: Option<&str>,
) -> SlotRow {
    SlotRow {
        slot_name: slot_name.map(str::to_string),
        consistent_point: consistent_point.map(str::to_string),
        snapshot_name: snapshot_name.map(str::to_string),
        output_plugin: output_plugin.map(str::to_string),
    }
}

#[test]
fn created_slot_is_read_from_the_first_row() {
    let rows = vec![
        slot_row(Some("s"), Some("0/16B3748"), Some("00000003-1"), Some("decoderbufs")),
        slot_row(Some("other"), Some("1/0"), Some("x"), Some("y")),
    ];
    assert_eq!(
        ReplicationSlotCreate::from_rows(rows),
        Some(ReplicationSlotCreate {
            slot_name: "s".to_string(),
            consistent_point: "0/16B3748".to_string(),
            snapshot_name: "00000003-1".to_string(),
            output_plugin: "decoderbufs".to_string(),
        })
    );
}

#[test]
fn created_slot_needs_a_complete_first_row() {
    assert_eq!(ReplicationSlotCreate::from_rows(vec![]), None);
    assert_eq!(
        ReplicationSlotCreate::from_rows(vec![slot_row(None, Some("a"), Some("b"), Some("c"))]),
        None
    );
    assert_eq!(
        ReplicationSlotCreate::from_rows(vec![slot_row(Some("s"), None, Some("b"), Some("c"))]),
        None
    );
    assert_eq!(
        ReplicationSlotCreate::from_rows(vec![slot_row(Some("s"), Some("a"), None, Some("c"))]),
        None
    );
    assert_eq!(
        ReplicationSlotCreate::from_rows(vec![slot_row(Some("s"), Some("a"), Some("b"), None)]),
        None
    );
    assert_eq!(
        ReplicationSlotCreate::from_rows(vec![
            slot_row(Some("s"), Some("a"), Some("b"), None),
            slot_row(Some("s"), Some("a"), Some("b"), Some("c")),
        ]),
        None
    );
}
