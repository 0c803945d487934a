//! Assembly of row messages into transactions, and the session that hands
//! the transactions to a consumer.
//!
//! The server streams the changes of one transaction at a time: a `Begin`
//! record, the changed rows, a `Commit` record. [`Assembler`] folds that
//! stream into [`WalTransaction`]s and reports every record that breaks the
//! pattern. [`DecoderBufStream`] is the session around it: the caller pulls
//! an item from the replication connection, hands it to
//! [`DecoderBufStream::advance`], and does what the returned [`Step`] says.

pub mod laws;

use crate::decoderbufs::{DatumMessage, Op, RowMessage, TypeInfo};
use tokio_postgres::types::PgLsn;
use vstd::prelude::*;
use vstd::string::StringExecFns;

verus! {

/// The changes of one transaction, complete from `Begin` to `Commit`.
#[derive(Clone, Debug, PartialEq, Eq)]
pub struct WalTransaction {
    /// The log position of the message that began the transaction.
    pub start: u64,
    pub txid: u32,
    /// Microseconds since 2000-01-01T00:00:00Z.
    pub commit_time: u64,
    /// The row changes of the transaction, in the order they arrived.
    pub events: Vec<RowMessage>,
}

/// What a [`WalTransaction`] holds, as a mathematical value.
pub struct WalTransactionView {
    pub start: u64,
    pub txid: u32,
    pub commit_time: u64,
    pub events: Seq<RowMessage>,
}

impl View for WalTransaction {
    type V = WalTransactionView;

    open spec fn view(&self) -> WalTransactionView {
        WalTransactionView {
            start: self.start,
            txid: self.txid,
            commit_time: self.commit_time,
            events: self.events@,
        }
    }
}

/// Whether an operation changes a row.
pub open spec fn is_change(op: Op) -> bool {
    op == Op::Insert || op == Op::Update || op == Op::Delete
}

impl WalTransactionView {
    /// Whether every event of the transaction is the change of a row.
    pub open spec fn only_changes(self) -> bool {
        forall|i: int| 0 <= i < self.events.len() ==> is_change(#[trigger] self.events[i].spec_op())
    }
}

/// The ways in which a record can break the pattern of the stream.
#[derive(Clone, Copy, Debug, PartialEq, Eq, Hash, Structural)]
pub enum ViolationKind {
    /// A `Begin` arrived while a transaction was in progress.
    NestedBegin,
    /// A `Commit` arrived while no transaction was in progress.
    CommitOutsideTransaction,
    /// A row change arrived while no transaction was in progress.
    ChangeOutsideTransaction,
    /// The record names no operation, or one that is not known.
    UnknownOperation,
}

/// A record that broke the pattern of the stream, handed back together with
/// the log position it arrived at.
#[derive(Clone, Debug, PartialEq, Eq)]
pub struct ProtocolViolation {
    pub kind: ViolationKind,
    pub record: RowMessage,
    pub start: u64,
}

/// The state of an [`Assembler`].
pub enum State {
    /// No transaction is in progress.
    Idle,
    /// A transaction has begun; this is what has arrived of it.
    Accumulating(WalTransactionView),
}

impl State {
    /// Whether the transaction in progress, if any, holds only row changes.
    pub open spec fn only_changes(self) -> bool {
        match self {
            State::Idle => true,
            State::Accumulating(transaction) => transaction.only_changes(),
        }
    }
}

/// What the assembler makes of one record.
pub enum Outcome {
    /// The record was taken in and no transaction is complete.
    Buffered,
    /// The record completed this transaction.
    Completed(WalTransactionView),
    /// The record broke the pattern of the stream in this way.
    Violation(ViolationKind),
}

/// The transition of the assembler: the state after a record that arrived
/// at log position `start`, and what the assembler makes of the record.
///
/// A violation leaves the state as it was.
pub open spec fn step(state: State, record: RowMessage, start: u64) -> (State, Outcome) {
    match state {
        State::Idle => match record.spec_op() {
            Op::Begin => (
                State::Accumulating(
                    WalTransactionView {
                        start,
                        txid: record.spec_transaction_id(),
                        commit_time: record.spec_commit_time(),
                        events: Seq::empty(),
                    },
                ),
                Outcome::Buffered,
            ),
            Op::Commit => (state, Outcome::Violation(ViolationKind::CommitOutsideTransaction)),
            Op::Insert | Op::Update | Op::Delete => (
                state,
                Outcome::Violation(ViolationKind::ChangeOutsideTransaction),
            ),
            Op::Unknown => (state, Outcome::Violation(ViolationKind::UnknownOperation)),
        },
        State::Accumulating(transaction) => match record.spec_op() {
            Op::Begin => (state, Outcome::Violation(ViolationKind::NestedBegin)),
            Op::Commit => (State::Idle, Outcome::Completed(transaction)),
            Op::Insert | Op::Update | Op::Delete => (
                State::Accumulating(
                    WalTransactionView {
                        start: transaction.start,
                        txid: transaction.txid,
                        commit_time: transaction.commit_time,
                        events: transaction.events.push(record),
                    },
                ),
                Outcome::Buffered,
            ),
            Op::Unknown => (state, Outcome::Violation(ViolationKind::UnknownOperation)),
        },
    }
}

/// What [`Assembler::feed`] returned, as an [`Outcome`].
pub open spec fn outcome_of(result: Result<Option<WalTransaction>, ProtocolViolation>) -> Outcome {
    match result {
        Ok(None) => Outcome::Buffered,
        Ok(Some(transaction)) => Outcome::Completed(transaction@),
        Err(violation) => Outcome::Violation(violation.kind),
    }
}

/// Folds a stream of row messages into transactions.
///
/// The assembler is idle or holds the one transaction that is in progress.
/// The transaction in progress holds only row changes.
pub struct Assembler {
    transaction: Option<WalTransaction>,
}

impl View for Assembler {
    type V = State;

    closed spec fn view(&self) -> State {
        match self.transaction {
            None => State::Idle,
            Some(transaction) => State::Accumulating(transaction@),
        }
    }
}

impl Assembler {
    #[verifier::type_invariant]
    spec fn holds_only_changes(self) -> bool {
        self@.only_changes()
    }

    /// An idle assembler.
    pub fn new() -> (assembler: Self)
        ensures
            assembler@ is Idle,
    {
        Assembler { transaction: None }
    }

    /// Whether no transaction is in progress.
    pub fn is_idle(&self) -> (idle: bool)
        ensures
            idle == (self@ is Idle),
    {
        self.transaction.is_none()
    }

    /// Takes the transaction in progress out of the assembler, which is idle
    /// afterwards.
    fn take(&mut self) -> (transaction: Option<WalTransaction>)
        ensures
            final(self)@ is Idle,
            match transaction {
                None => old(self)@ is Idle,
                Some(transaction) => old(self)@ == State::Accumulating(transaction@)
                    && transaction@.only_changes(),
            },
    {
        let mut held = Assembler { transaction: None };
        core::mem::swap(self, &mut held);
        proof {
            use_type_invariant(&held);
        }
        held.transaction
    }

    /// Takes in the record that arrived at log position `start`.
    ///
    /// Returns the transaction that the record completed, or `None` if the
    /// record was buffered. A record that breaks the pattern of the stream
    /// comes back in the error, and the assembler stays as it was: what had
    /// arrived of the transaction in progress is still there.
    pub fn feed(&mut self, record: RowMessage, start: u64) -> (result: Result<
        Option<WalTransaction>,
        ProtocolViolation,
    >)
        ensures
            (final(self)@, outcome_of(result)) == step(old(self)@, record, start),
            result matches Ok(Some(transaction)) ==> transaction@.only_changes(),
            result matches Err(violation) ==> violation.record == record && violation.start
                == start && final(self)@ == old(self)@,
    {
        proof {
            use_type_invariant(&*self);
        }
        match record.op() {
            Op::Begin => {
                if self.transaction.is_some() {
                    Err(ProtocolViolation { kind: ViolationKind::NestedBegin, record, start })
                } else {
                    self.transaction = Some(
                        WalTransaction {
                            start,
                            txid: record.transaction_id(),
                            commit_time: record.commit_time(),
                            events: Vec::new(),
                        },
                    );
                    Ok(None)
                }
            },
            Op::Commit => {
                match self.take() {
                    Some(transaction) => Ok(Some(transaction)),
                    None => Err(
                        ProtocolViolation {
                            kind: ViolationKind::CommitOutsideTransaction,
                            record,
                            start,
                        },
                    ),
                }
            },
            Op::Insert | Op::Update | Op::Delete => {
                match self.take() {
                    Some(mut transaction) => {
                        transaction.events.push(record);
                        self.transaction = Some(transaction);
                        Ok(None)
                    },
                    None => Err(
                        ProtocolViolation {
                            kind: ViolationKind::ChangeOutsideTransaction,
                            record,
                            start,
                        },
                    ),
                }
            },
            Op::Unknown => Err(
                ProtocolViolation { kind: ViolationKind::UnknownOperation, record, start },
            ),
        }
    }
}

/// A keep-alive message of the server.
#[derive(Clone, Copy, Debug, PartialEq, Eq, Structural)]
pub struct KeepAlive {
    /// Whether the server asks for a reply as soon as possible.
    pub needs_reply: bool,
    /// The clock of the server, in microseconds since 2000-01-01T00:00:00Z.
    pub server_time: i64,
}

/// What a session hands to its consumer.
#[derive(Clone, Debug, PartialEq, Eq)]
pub enum DecoderBufMessage {
    /// A transaction is complete.
    Transaction(WalTransaction),
    /// The server sent a keep-alive message, which is passed on as it came.
    PrimaryKeepAlive(KeepAlive),
}

/// What the replication connection yields, after the decoder has run over
/// the payload.
#[derive(Clone, Debug, PartialEq, Eq)]
pub enum SourceItem {
    /// A message that carries a row message: the log position of the
    /// message and the row message that the decoder found in its payload.
    XLogData { wal_start: u64, record: RowMessage },
    /// A message whose payload the decoder rejected: the log position of the
    /// message and the complaint of the decoder.
    Undecodable { wal_start: u64, reason: String },
    /// A keep-alive message.
    PrimaryKeepAlive(KeepAlive),
    /// The connection was closed, or failed.
    Closed,
}

/// Why a session cannot go on.
#[derive(Clone, Debug, PartialEq, Eq)]
pub enum StreamError {
    /// The payload of the message at `wal_start` is no row message.
    Decode { wal_start: u64, reason: String },
    /// A row message broke the pattern of the stream.
    Protocol(ProtocolViolation),
}

/// What the caller of [`DecoderBufStream::advance`] is to do next.
#[derive(Clone, Debug, PartialEq, Eq)]
pub enum Step {
    /// Hand this message to the consumer.
    Yield(DecoderBufMessage),
    /// There is nothing to hand on: pull the next item.
    Continue,
    /// The stream has ended.
    End,
    /// The stream is broken.
    Fail(StreamError),
}

/// A replication session: an [`Assembler`] and the rules by which the items
/// of the connection reach it.
pub struct DecoderBufStream {
    assembler: Assembler,
}

impl View for DecoderBufStream {
    type V = State;

    closed spec fn view(&self) -> State {
        self.assembler@
    }
}

impl DecoderBufStream {
    /// A session in which no transaction is in progress.
    pub fn new() -> (stream: Self)
        ensures
            stream@ is Idle,
    {
        DecoderBufStream { assembler: Assembler::new() }
    }

    /// Takes in the next item of the replication connection and says what to
    /// do next.
    ///
    /// A row message goes to the assembler: the transaction it completes is
    /// yielded, a record that is buffered asks for the next item, and a
    /// violation fails the stream. A payload that the decoder rejected fails
    /// the stream too. A keep-alive message is yielded as it came. A closed
    /// connection ends the stream. Only a row message that the assembler
    /// accepts changes the state of the session.
    pub fn advance(&mut self, item: SourceItem) -> (next: Step)
        ensures
            match item {
                SourceItem::XLogData { wal_start, record } => {
                    let (state, outcome) = step(old(self)@, record, wal_start);
                    &&& final(self)@ == state
                    &&& match outcome {
                        Outcome::Buffered => next is Continue,
                        Outcome::Completed(transaction) => {
                            &&& next matches Step::Yield(DecoderBufMessage::Transaction(emitted))
                            &&& emitted@ == transaction
                            &&& emitted@.only_changes()
                        },
                        Outcome::Violation(kind) => next == Step::Fail(
                            StreamError::Protocol(
                                ProtocolViolation { kind, record, start: wal_start },
                            ),
                        ),
                    }
                },
                SourceItem::Undecodable { wal_start, reason } => {
                    &&& final(self)@ == old(self)@
                    &&& next == Step::Fail(StreamError::Decode { wal_start, reason })
                },
                SourceItem::PrimaryKeepAlive(keep_alive) => {
                    &&& final(self)@ == old(self)@
                    &&& next == Step::Yield(DecoderBufMessage::PrimaryKeepAlive(keep_alive))
                },
                SourceItem::Closed => {
                    &&& final(self)@ == old(self)@
                    &&& next is End
                },
            },
    {
        match item {
            SourceItem::XLogData { wal_start, record } => {
                match self.assembler.feed(record, wal_start) {
                    Ok(Some(transaction)) => Step::Yield(
                        DecoderBufMessage::Transaction(transaction),
                    ),
                    Ok(None) => Step::Continue,
                    Err(violation) => Step::Fail(StreamError::Protocol(violation)),
                }
            },
            SourceItem::Undecodable { wal_start, reason } => Step::Fail(
                StreamError::Decode { wal_start, reason },
            ),
            SourceItem::PrimaryKeepAlive(keep_alive) => Step::Yield(
                DecoderBufMessage::PrimaryKeepAlive(keep_alive),
            ),
            SourceItem::Closed => Step::End,
        }
    }
}

/// The columns of a row as they came, each with its name and datum.
pub type UntypedColumns = Vec<DatumMessage>;

/// The change of one row, over rows of type `T`.
#[derive(Clone, Debug, PartialEq, Eq)]
pub enum Change<T = UntypedColumns> {
    /// The row that was inserted.
    Insert(T),
    /// The row as it was and the row as it is now.
    Update(T, T),
    /// The row that was deleted.
    Delete(T),
}

/// The change of one row in the log: the change itself, the table of the
/// row, and the type information of its columns.
#[derive(Clone, Debug, PartialEq, Eq)]
pub struct WalRowEntry {
    pub change: Change<UntypedColumns>,
    pub table: String,
    pub typeinfo: Vec<TypeInfo>,
}

/// The microseconds from 1970-01-01T00:00:00Z to 2000-01-01T00:00:00Z, the
/// instant from which the server counts time.
pub const MICROSECONDS_FROM_UNIX_EPOCH_TO_2000: u128 = 946_684_800_000_000;

/// The time of the server at an instant that lies `unix_micros` microseconds
/// after 1970-01-01T00:00:00Z: the microseconds since 2000-01-01T00:00:00Z.
pub open spec fn pgtime_of(unix_micros: int) -> int {
    unix_micros - MICROSECONDS_FROM_UNIX_EPOCH_TO_2000
}

/// The microseconds since 1970-01-01T00:00:00Z at which the time of the
/// server is `time`.
pub open spec fn unix_micros_of(time: int) -> int {
    time + MICROSECONDS_FROM_UNIX_EPOCH_TO_2000
}

/// Converts an instant, given in microseconds since 1970-01-01T00:00:00Z, to
/// the time of the server, in microseconds since 2000-01-01T00:00:00Z.
///
/// The instant must not lie so far ahead that the result overflows.
pub fn pgtime(unix_micros: u128) -> (time: i64)
    requires
        pgtime_of(unix_micros as int) <= i64::MAX,
    ensures
        time == pgtime_of(unix_micros as int),
{
    if unix_micros >= MICROSECONDS_FROM_UNIX_EPOCH_TO_2000 {
        (unix_micros - MICROSECONDS_FROM_UNIX_EPOCH_TO_2000) as i64
    } else {
        -((MICROSECONDS_FROM_UNIX_EPOCH_TO_2000 - unix_micros) as i64)
    }
}

/// Converts a time of the server, in microseconds since
/// 2000-01-01T00:00:00Z, to microseconds since 1970-01-01T00:00:00Z, or to
/// `None` for a time before 1970.
pub fn unix_micros(time: i64) -> (unix_micros: Option<u128>)
    ensures
        match unix_micros {
            Some(micros) => micros == unix_micros_of(time as int),
            None => unix_micros_of(time as int) < 0,
        },
{
    if time >= 0 {
        Some(MICROSECONDS_FROM_UNIX_EPOCH_TO_2000 + (time as u128))
    } else if time >= -946_684_800_000_000i64 {
        Some(MICROSECONDS_FROM_UNIX_EPOCH_TO_2000 - ((-time) as u128))
    } else {
        None
    }
}

/// The two clocks differ by a fixed offset: converting an instant to the
/// time of the server and back gives the instant, and the other way round.
pub proof fn lemma_pgtime_round_trip(unix_micros: int, time: int)
    ensures
        unix_micros_of(pgtime_of(unix_micros)) == unix_micros,
        pgtime_of(unix_micros_of(time)) == time,
{
}

/// The text of a log position, as [`PgLsn`] displays it.
pub uninterp spec fn lsn_text(lsn: u64) -> Seq<char>;

/// Writes a log position as text.
///
/// This calls the `Display` implementation of
/// `tokio_postgres::types::PgLsn` on the position. Its contract is not
/// proved: it gives the text a name, [`lsn_text`], and says that the same
/// position gives the same text.
#[verifier::external_body]
fn lsn_to_string(lsn: u64) -> (text: String)
    ensures
        text@ == lsn_text(lsn),
{
    PgLsn::from(lsn).to_string()
}

/// The command that creates a logical replication slot of a given name for
/// the `decoderbufs` output plugin.
pub open spec fn create_query_text(name: Seq<char>) -> Seq<char> {
    "CREATE_REPLICATION_SLOT "@ + name + " LOGICAL \"decoderbufs\""@
}

/// The command that drops the replication slot of a given name once it is
/// no longer in use.
pub open spec fn drop_query_text(name: Seq<char>) -> Seq<char> {
    "DROP_REPLICATION_SLOT "@ + name + " WAIT"@
}

/// The command that starts streaming from the replication slot of a given
/// name at a log position that is given as text.
pub open spec fn start_query_text(name: Seq<char>, lsn: Seq<char>) -> Seq<char> {
    "START_REPLICATION SLOT "@ + name + " LOGICAL "@ + lsn
}

/// The commands of the replication protocol that manage a slot.
///
/// The name of the slot goes into the command as it is given.
pub struct ReplicationSlot;

impl ReplicationSlot {
    /// Returns the command that creates the slot `name`.
    pub fn create_query(name: &str) -> (query: String)
        ensures
            query@ == create_query_text(name@),
    {
        let mut query = String::from_str("CREATE_REPLICATION_SLOT ");
        query.append(name);
        query.append(" LOGICAL \"decoderbufs\"");
        query
    }

    /// Returns the command that drops the slot `name`.
    pub fn drop_query(name: &str) -> (query: String)
        ensures
            query@ == drop_query_text(name@),
    {
        let mut query = String::from_str("DROP_REPLICATION_SLOT ");
        query.append(name);
        query.append(" WAIT");
        query
    }

    /// Returns the command that starts streaming from the slot `name` at the
    /// log position whose text is `lsn`.
    pub fn start_query_at(name: &str, lsn: &str) -> (query: String)
        ensures
            query@ == start_query_text(name@, lsn@),
    {
        let mut query = String::from_str("START_REPLICATION SLOT ");
        query.append(name);
        query.append(" LOGICAL ");
        query.append(lsn);
        query
    }

    /// Returns the command that starts streaming from the slot `name` at the
    /// log position `lsn`.
    pub fn start_query(name: &str, lsn: u64) -> (query: String)
        ensures
            query@ == start_query_text(name@, lsn_text(lsn)),
    {
        let text = lsn_to_string(lsn);
        Self::start_query_at(name, text.as_str())
    }
}

/// One row of the answer of the server to the command that creates a slot.
/// A column that is absent from the row, or null, is `None`.
#[derive(Clone, Debug, PartialEq, Eq)]
pub struct SlotRow {
    pub slot_name: Option<String>,
    pub consistent_point: Option<String>,
    pub snapshot_name: Option<String>,
    pub output_plugin: Option<String>,
}

impl SlotRow {
    /// Whether the row holds all four columns.
    pub open spec fn complete(self) -> bool {
        &&& self.slot_name is Some
        &&& self.consistent_point is Some
        &&& self.snapshot_name is Some
        &&& self.output_plugin is Some
    }
}

/// A replication slot as the server described it when it was created.
#[derive(Clone, Debug, PartialEq, Eq)]
pub struct ReplicationSlotCreate {
    pub slot_name: String,
    /// The log position at which the slot became consistent, as text.
    pub consistent_point: String,
    pub snapshot_name: String,
    pub output_plugin: String,
}

impl ReplicationSlotCreate {
    /// Reads the description of the slot from the rows that the server
    /// answered with: from the first row, which must hold all four columns.
    /// Returns `None` if there is no row or the first row lacks a column.
    pub fn from_rows(rows: Vec<SlotRow>) -> (created: Option<ReplicationSlotCreate>)
        ensures
            created is Some <==> rows@.len() > 0 && rows@[0].complete(),
            created matches Some(slot) ==> {
                &&& rows@[0].slot_name == Some(slot.slot_name)
                &&& rows@[0].consistent_point == Some(slot.consistent_point)
                &&& rows@[0].snapshot_name == Some(slot.snapshot_name)
                &&& rows@[0].output_plugin == Some(slot.output_plugin)
            },
    {
        let mut rows = rows;
        if rows.len() == 0 {
            return None;
        }
        let row = rows.remove(0);
        match (row.slot_name, row.consistent_point, row.snapshot_name, row.output_plugin) {
            (Some(slot_name), Some(consistent_point), Some(snapshot_name), Some(output_plugin)) => {
                Some(
                    ReplicationSlotCreate {
                        slot_name,
                        consistent_point,
                        snapshot_name,
                        output_plugin,
                    },
                )
            },
            _ => None,
        }
    }
}

} // verus!
