//! The row-change record that the `decoderbufs` output plugin emits, as plain
//! data.
//!
//! Floating-point payloads are carried as their IEEE 754 bit patterns: this
//! crate moves them around and never computes with them.

use vstd::prelude::*;

verus! {

/// The operation that a row message reports.
///
/// The numeric values on the wire run from `-1` for [`Op::Unknown`] to `4`
/// for [`Op::Commit`], in declaration order.
#[derive(Clone, Copy, Debug, PartialEq, Eq, Hash, PartialOrd, Ord, Structural)]
pub enum Op {
    Unknown,
    Insert,
    Update,
    Delete,
    Begin,
    Commit,
}

impl Op {
    /// The number that stands for this operation on the wire.
    pub open spec fn wire_value(self) -> int {
        match self {
            Op::Unknown => -1,
            Op::Insert => 0,
            Op::Update => 1,
            Op::Delete => 2,
            Op::Begin => 3,
            Op::Commit => 4,
        }
    }

    /// The operation that a wire number stands for, if any.
    pub open spec fn of_wire_value(value: int) -> Option<Op> {
        if value == -1 {
            Some(Op::Unknown)
        } else if value == 0 {
            Some(Op::Insert)
        } else if value == 1 {
            Some(Op::Update)
        } else if value == 2 {
            Some(Op::Delete)
        } else if value == 3 {
            Some(Op::Begin)
        } else if value == 4 {
            Some(Op::Commit)
        } else {
            None
        }
    }

    /// The field name of this operation in the protocol definition.
    pub open spec fn str_name(self) -> Seq<char> {
        match self {
            Op::Unknown => "UNKNOWN"@,
            Op::Insert => "INSERT"@,
            Op::Update => "UPDATE"@,
            Op::Delete => "DELETE"@,
            Op::Begin => "BEGIN"@,
            Op::Commit => "COMMIT"@,
        }
    }

    /// String value of the enum field names used in the protocol definition.
    ///
    /// The values are not transformed in any way and thus are stable and safe
    /// for programmatic use.
    pub fn as_str_name(&self) -> (name: &'static str)
        ensures
            name@ == self.str_name(),
    {
        match self {
            Op::Unknown => "UNKNOWN",
            Op::Insert => "INSERT",
            Op::Update => "UPDATE",
            Op::Delete => "DELETE",
            Op::Begin => "BEGIN",
            Op::Commit => "COMMIT",
        }
    }

    /// Converts a wire number to an operation, or `None` if the number
    /// stands for no operation.
    pub fn from_i32(value: i32) -> (op: Option<Op>)
        ensures
            op == Op::of_wire_value(value as int),
    {
        match value {
            -1 => Some(Op::Unknown),
            0 => Some(Op::Insert),
            1 => Some(Op::Update),
            2 => Some(Op::Delete),
            3 => Some(Op::Begin),
            4 => Some(Op::Commit),
            _ => None,
        }
    }

    /// The wire number of this operation.
    pub fn as_i32(self) -> (value: i32)
        ensures
            value == self.wire_value(),
    {
        match self {
            Op::Unknown => -1,
            Op::Insert => 0,
            Op::Update => 1,
            Op::Delete => 2,
            Op::Begin => 3,
            Op::Commit => 4,
        }
    }
}

/// Every operation is found again from its wire number, and a wire number
/// that stands for an operation is the wire number of that operation.
pub proof fn lemma_wire_value_round_trip(op: Op, value: int)
    ensures
        Op::of_wire_value(op.wire_value()) == Some(op),
        Op::of_wire_value(value) matches Some(found) ==> found.wire_value() == value,
{
}

/// No two operations share a field name.
pub proof fn lemma_str_name_injective(a: Op, b: Op)
    requires
        a.str_name() == b.str_name(),
    ensures
        a == b,
{
    reveal_strlit("UNKNOWN");
    reveal_strlit("INSERT");
    reveal_strlit("UPDATE");
    reveal_strlit("DELETE");
    reveal_strlit("BEGIN");
    reveal_strlit("COMMIT");
    if a != b {
        let x = a.str_name();
        let y = b.str_name();
        assert(x.len() != y.len() || x[0] != y[0]);
    }
}

/// A geometric point. Each coordinate is the bit pattern of an IEEE 754
/// double.
#[derive(Clone, Copy, Debug, PartialEq, Eq, Structural)]
pub struct Point {
    pub x: u64,
    pub y: u64,
}

/// The value of one column.
#[derive(Clone, Debug, PartialEq, Eq)]
pub enum Datum {
    DatumInt32(i32),
    DatumInt64(i64),
    /// The bit pattern of an IEEE 754 single.
    DatumFloat(u32),
    /// The bit pattern of an IEEE 754 double.
    DatumDouble(u64),
    DatumBool(bool),
    DatumString(String),
    DatumBytes(Vec<u8>),
    DatumPoint(Point),
    /// The value was left out on purpose.
    DatumMissing(bool),
}

/// What a [`Datum`] holds, as a mathematical value.
pub enum DatumView {
    DatumInt32(i32),
    DatumInt64(i64),
    DatumFloat(u32),
    DatumDouble(u64),
    DatumBool(bool),
    DatumString(Seq<char>),
    DatumBytes(Seq<u8>),
    DatumPoint(Point),
    DatumMissing(bool),
}

impl View for Datum {
    type V = DatumView;

    open spec fn view(&self) -> DatumView {
        match self {
            Datum::DatumInt32(v) => DatumView::DatumInt32(*v),
            Datum::DatumInt64(v) => DatumView::DatumInt64(*v),
            Datum::DatumFloat(v) => DatumView::DatumFloat(*v),
            Datum::DatumDouble(v) => DatumView::DatumDouble(*v),
            Datum::DatumBool(v) => DatumView::DatumBool(*v),
            Datum::DatumString(v) => DatumView::DatumString(v@),
            Datum::DatumBytes(v) => DatumView::DatumBytes(v@),
            Datum::DatumPoint(v) => DatumView::DatumPoint(*v),
            Datum::DatumMissing(v) => DatumView::DatumMissing(*v),
        }
    }
}

impl DeepView for Datum {
    type V = DatumView;

    open spec fn deep_view(&self) -> DatumView {
        self@
    }
}

/// One column of a row: its name, the type hint that the server attached,
/// and its value.
#[derive(Clone, Debug, PartialEq, Eq)]
pub struct DatumMessage {
    pub column_name: String,
    pub column_type: Option<i64>,
    pub datum: Datum,
}

/// What a [`DatumMessage`] holds, as a mathematical value.
pub struct DatumMessageView {
    pub column_name: Seq<char>,
    pub column_type: Option<i64>,
    pub datum: DatumView,
}

impl View for DatumMessage {
    type V = DatumMessageView;

    open spec fn view(&self) -> DatumMessageView {
        DatumMessageView {
            column_name: self.column_name@,
            column_type: self.column_type,
            datum: self.datum@,
        }
    }
}

impl DeepView for DatumMessage {
    type V = DatumMessageView;

    open spec fn deep_view(&self) -> DatumMessageView {
        self@
    }
}

/// The type modifier of a column and whether the column admits no value.
#[derive(Clone, Debug, PartialEq, Eq)]
pub struct TypeInfo {
    pub modifier: String,
    pub value_optional: bool,
}

/// What a [`TypeInfo`] holds, as a mathematical value.
pub struct TypeInfoView {
    pub modifier: Seq<char>,
    pub value_optional: bool,
}

impl View for TypeInfo {
    type V = TypeInfoView;

    open spec fn view(&self) -> TypeInfoView {
        TypeInfoView { modifier: self.modifier@, value_optional: self.value_optional }
    }
}

impl DeepView for TypeInfo {
    type V = TypeInfoView;

    open spec fn deep_view(&self) -> TypeInfoView {
        self@
    }
}

/// One decoded message of the replication stream: the start or the end of a
/// transaction, or the change of one row.
#[derive(Clone, Debug, PartialEq, Eq)]
pub struct RowMessage {
    pub transaction_id: Option<u32>,
    /// Microseconds since 2000-01-01T00:00:00Z.
    pub commit_time: Option<u64>,
    pub table: Option<String>,
    /// The wire number of the operation; see [`Op`].
    pub op: Option<i32>,
    pub new_tuple: Vec<DatumMessage>,
    /// Present only for updates and deletes of a table with full replica
    /// identity.
    pub old_tuple: Vec<DatumMessage>,
    /// Parallel to `new_tuple`.
    pub new_typeinfo: Vec<TypeInfo>,
}

/// What a [`RowMessage`] holds, as a mathematical value.
pub struct RowMessageView {
    pub transaction_id: Option<u32>,
    pub commit_time: Option<u64>,
    pub table: Option<Seq<char>>,
    pub op: Option<i32>,
    pub new_tuple: Seq<DatumMessageView>,
    pub old_tuple: Seq<DatumMessageView>,
    pub new_typeinfo: Seq<TypeInfoView>,
}

impl View for RowMessage {
    type V = RowMessageView;

    open spec fn view(&self) -> RowMessageView {
        RowMessageView {
            transaction_id: self.transaction_id,
            commit_time: self.commit_time,
            table: match self.table {
                Some(name) => Some(name@),
                None => None,
            },
            op: self.op,
            new_tuple: self.new_tuple.deep_view(),
            old_tuple: self.old_tuple.deep_view(),
            new_typeinfo: self.new_typeinfo.deep_view(),
        }
    }
}

impl DeepView for RowMessage {
    type V = RowMessageView;

    open spec fn deep_view(&self) -> RowMessageView {
        self@
    }
}

/// The operation that a wire field stands for: `Unknown` where the field is
/// absent or holds a number that stands for no operation.
pub open spec fn op_of_wire(op: Option<i32>) -> Op {
    match op {
        Some(value) => match Op::of_wire_value(value as int) {
            Some(op) => op,
            None => Op::Unknown,
        },
        None => Op::Unknown,
    }
}

impl RowMessage {
    /// The transaction id, or 0 where the record carries none.
    pub open spec fn spec_transaction_id(&self) -> u32 {
        match self.transaction_id {
            Some(id) => id,
            None => 0,
        }
    }

    /// The commit time, or 0 where the record carries none.
    pub open spec fn spec_commit_time(&self) -> u64 {
        match self.commit_time {
            Some(time) => time,
            None => 0,
        }
    }

    /// The table name, or the empty name where the record carries none.
    pub open spec fn spec_table(&self) -> Seq<char> {
        match self.table {
            Some(name) => name@,
            None => Seq::empty(),
        }
    }

    /// The operation of the record; see [`op_of_wire`].
    pub open spec fn spec_op(&self) -> Op {
        op_of_wire(self.op)
    }

    /// Returns the transaction id, or 0 if the record carries none.
    #[verifier::when_used_as_spec(spec_transaction_id)]
    pub fn transaction_id(&self) -> (id: u32)
        ensures
            id == self.spec_transaction_id(),
    {
        match self.transaction_id {
            Some(id) => id,
            None => 0,
        }
    }

    /// Returns the commit time, or 0 if the record carries none.
    #[verifier::when_used_as_spec(spec_commit_time)]
    pub fn commit_time(&self) -> (time: u64)
        ensures
            time == self.spec_commit_time(),
    {
        match self.commit_time {
            Some(time) => time,
            None => 0,
        }
    }

    /// Returns the table name, or the empty string if the record carries
    /// none.
    pub fn table(&self) -> (name: &str)
        ensures
            name@ == self.spec_table(),
    {
        match &self.table {
            Some(name) => name.as_str(),
            None => {
                proof {
                    reveal_strlit("");
                }
                ""
            },
        }
    }

    /// Returns the operation of the record, or `Unknown` if the field is
    /// absent or holds a number that stands for no operation.
    #[verifier::when_used_as_spec(spec_op)]
    pub fn op(&self) -> (op: Op)
        ensures
            op == self.spec_op(),
    {
        match self.op {
            Some(value) => match Op::from_i32(value) {
                Some(op) => op,
                None => Op::Unknown,
            },
            None => Op::Unknown,
        }
    }
}

} // verus!
