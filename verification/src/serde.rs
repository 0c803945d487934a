//! Extraction of typed rows from the column list of a row message.
//!
//! A caller describes the row it wants as a list of [`Field`]s: the name of
//! the column to read, the primitive kind it expects there, and whether the
//! value may be absent. [`from_row`] matches the fields to the columns by
//! name and yields one [`Value`] per field, or the [`Error`] of the first
//! field that cannot be had. [`Tuple`] walks the columns in wire order for
//! callers that drive the extraction themselves.

pub mod bytes_array;

use crate::decoderbufs::{Datum, DatumMessage, DatumMessageView, DatumView};
use vstd::prelude::*;
use vstd::slice::slice_to_vec;
use vstd::string::StringExecFns;

verus! {

/// The primitive kinds that a field of a typed row can ask for.
#[derive(Clone, Copy, Debug, PartialEq, Eq, Hash, Structural)]
pub enum FieldKind {
    Int32,
    Int64,
    Float,
    Double,
    Bool,
    Text,
    Bytes,
}

impl FieldKind {
    /// The name of the kind in messages.
    pub open spec fn text(self) -> Seq<char> {
        match self {
            FieldKind::Int32 => "int32"@,
            FieldKind::Int64 => "int64"@,
            FieldKind::Float => "float"@,
            FieldKind::Double => "double"@,
            FieldKind::Bool => "bool"@,
            FieldKind::Text => "string"@,
            FieldKind::Bytes => "bytes"@,
        }
    }

    /// Returns the name of the kind in messages.
    pub fn as_str(&self) -> (text: &'static str)
        ensures
            text@ == self.text(),
    {
        match self {
            FieldKind::Int32 => "int32",
            FieldKind::Int64 => "int64",
            FieldKind::Float => "float",
            FieldKind::Double => "double",
            FieldKind::Bool => "bool",
            FieldKind::Text => "string",
            FieldKind::Bytes => "bytes",
        }
    }
}

/// One field of a typed row.
#[derive(Clone, Debug, PartialEq, Eq)]
pub struct Field {
    /// The name of the column that the field is read from.
    pub name: String,
    /// The kind of value that the field holds.
    pub kind: FieldKind,
    /// Whether the field may be left without a value.
    pub optional: bool,
}

/// What a [`Field`] holds, as a mathematical value.
pub struct FieldView {
    pub name: Seq<char>,
    pub kind: FieldKind,
    pub optional: bool,
}

impl View for Field {
    type V = FieldView;

    open spec fn view(&self) -> FieldView {
        FieldView { name: self.name@, kind: self.kind, optional: self.optional }
    }
}

impl DeepView for Field {
    type V = FieldView;

    open spec fn deep_view(&self) -> FieldView {
        self@
    }
}

/// The value of one field of a typed row.
#[derive(Clone, Debug, PartialEq, Eq)]
pub enum Value {
    /// An optional field without a value.
    Absent,
    Int32(i32),
    Int64(i64),
    /// The bit pattern of an IEEE 754 single.
    Float(u32),
    /// The bit pattern of an IEEE 754 double.
    Double(u64),
    Bool(bool),
    Text(String),
    Bytes(Vec<u8>),
}

/// What a [`Value`] holds, as a mathematical value.
pub enum ValueView {
    Absent,
    Int32(i32),
    Int64(i64),
    Float(u32),
    Double(u64),
    Bool(bool),
    Text(Seq<char>),
    Bytes(Seq<u8>),
}

impl View for Value {
    type V = ValueView;

    open spec fn view(&self) -> ValueView {
        match self {
            Value::Absent => ValueView::Absent,
            Value::Int32(v) => ValueView::Int32(*v),
            Value::Int64(v) => ValueView::Int64(*v),
            Value::Float(v) => ValueView::Float(*v),
            Value::Double(v) => ValueView::Double(*v),
            Value::Bool(v) => ValueView::Bool(*v),
            Value::Text(v) => ValueView::Text(v@),
            Value::Bytes(v) => ValueView::Bytes(v@),
        }
    }
}

impl DeepView for Value {
    type V = ValueView;

    open spec fn deep_view(&self) -> ValueView {
        self@
    }
}

impl ValueView {
    /// The kind of a value; `None` for the absent value, which has none.
    pub open spec fn kind(self) -> Option<FieldKind> {
        match self {
            ValueView::Absent => None,
            ValueView::Int32(_) => Some(FieldKind::Int32),
            ValueView::Int64(_) => Some(FieldKind::Int64),
            ValueView::Float(_) => Some(FieldKind::Float),
            ValueView::Double(_) => Some(FieldKind::Double),
            ValueView::Bool(_) => Some(FieldKind::Bool),
            ValueView::Text(_) => Some(FieldKind::Text),
            ValueView::Bytes(_) => Some(FieldKind::Bytes),
        }
    }
}

/// Why a field could not be had.
#[derive(Clone, Copy, Debug, PartialEq, Eq, Hash, Structural)]
pub enum ErrorKind {
    /// A required field has no column, or its column holds no value.
    RequiredFieldAbsent,
    /// The column holds a primitive of another kind than the field expects.
    TypeMismatch,
    /// The column holds a datum that has no primitive form.
    UnsupportedDatum,
    /// More than one column bears the name of the field.
    DuplicateColumn,
}

impl ErrorKind {
    /// What went wrong, in words.
    pub open spec fn text(self) -> Seq<char> {
        match self {
            ErrorKind::RequiredFieldAbsent => "required field absent"@,
            ErrorKind::TypeMismatch => "type mismatch"@,
            ErrorKind::UnsupportedDatum => "unsupported datum kind"@,
            ErrorKind::DuplicateColumn => "duplicate column"@,
        }
    }

    /// Returns what went wrong, in words.
    pub fn as_str(&self) -> (text: &'static str)
        ensures
            text@ == self.text(),
    {
        match self {
            ErrorKind::RequiredFieldAbsent => "required field absent",
            ErrorKind::TypeMismatch => "type mismatch",
            ErrorKind::UnsupportedDatum => "unsupported datum kind",
            ErrorKind::DuplicateColumn => "duplicate column",
        }
    }
}

/// The failure to extract one field: what went wrong, the name of the field,
/// and the kind that the field expected.
#[derive(Clone, Debug, PartialEq, Eq)]
pub struct Error {
    pub kind: ErrorKind,
    pub field: String,
    pub expected: FieldKind,
}

/// What an [`Error`] holds, as a mathematical value.
pub struct ErrorView {
    pub kind: ErrorKind,
    pub field: Seq<char>,
    pub expected: FieldKind,
}

impl View for Error {
    type V = ErrorView;

    open spec fn view(&self) -> ErrorView {
        ErrorView { kind: self.kind, field: self.field@, expected: self.expected }
    }
}

impl DeepView for Error {
    type V = ErrorView;

    open spec fn deep_view(&self) -> ErrorView {
        self@
    }
}

/// The primitive that a datum stands for: the absent value for a missing
/// datum, and `None` for a geometric point, which has no primitive form.
pub open spec fn primitive_of(datum: DatumView) -> Option<ValueView> {
    match datum {
        DatumView::DatumInt32(v) => Some(ValueView::Int32(v)),
        DatumView::DatumInt64(v) => Some(ValueView::Int64(v)),
        DatumView::DatumFloat(v) => Some(ValueView::Float(v)),
        DatumView::DatumDouble(v) => Some(ValueView::Double(v)),
        DatumView::DatumBool(v) => Some(ValueView::Bool(v)),
        DatumView::DatumString(v) => Some(ValueView::Text(v)),
        DatumView::DatumBytes(v) => Some(ValueView::Bytes(v)),
        DatumView::DatumPoint(_) => None,
        DatumView::DatumMissing(_) => Some(ValueView::Absent),
    }
}

/// The error of a given kind for a field.
pub open spec fn field_error(kind: ErrorKind, field: FieldView) -> ErrorView {
    ErrorView { kind, field: field.name, expected: field.kind }
}

/// What a datum yields for a field: its primitive where that is of the kind
/// the field expects, the absent value for a missing datum where the field
/// is optional, and an error otherwise.
pub open spec fn decode_datum(datum: DatumView, field: FieldView) -> Result<ValueView, ErrorView> {
    match primitive_of(datum) {
        None => Err(field_error(ErrorKind::UnsupportedDatum, field)),
        Some(ValueView::Absent) => if field.optional {
            Ok(ValueView::Absent)
        } else {
            Err(field_error(ErrorKind::RequiredFieldAbsent, field))
        },
        Some(value) => if value.kind() == Some(field.kind) {
            Ok(value)
        } else {
            Err(field_error(ErrorKind::TypeMismatch, field))
        },
    }
}

/// A primitive as it lies in a datum: text and bytes are borrowed.
#[derive(Clone, Copy, Debug, PartialEq, Eq)]
pub enum Primitive<'a> {
    /// No value.
    Absent,
    Int32(i32),
    Int64(i64),
    /// The bit pattern of an IEEE 754 single.
    Float(u32),
    /// The bit pattern of an IEEE 754 double.
    Double(u64),
    Bool(bool),
    Text(&'a str),
    Bytes(&'a [u8]),
}

impl<'a> View for Primitive<'a> {
    type V = ValueView;

    open spec fn view(&self) -> ValueView {
        match self {
            Primitive::Absent => ValueView::Absent,
            Primitive::Int32(v) => ValueView::Int32(*v),
            Primitive::Int64(v) => ValueView::Int64(*v),
            Primitive::Float(v) => ValueView::Float(*v),
            Primitive::Double(v) => ValueView::Double(*v),
            Primitive::Bool(v) => ValueView::Bool(*v),
            Primitive::Text(v) => ValueView::Text(v@),
            Primitive::Bytes(v) => ValueView::Bytes(v@),
        }
    }
}

impl<'a> DeepView for Primitive<'a> {
    type V = ValueView;

    open spec fn deep_view(&self) -> ValueView {
        self@
    }
}

impl Datum {
    /// Returns the primitive that the datum stands for, or `None` for a
    /// geometric point. A missing datum stands for the absent value.
    pub fn primitive(&self) -> (primitive: Option<Primitive<'_>>)
        ensures
            primitive.deep_view() == primitive_of(self@),
    {
        match self {
            Datum::DatumInt32(v) => Some(Primitive::Int32(*v)),
            Datum::DatumInt64(v) => Some(Primitive::Int64(*v)),
            Datum::DatumFloat(v) => Some(Primitive::Float(*v)),
            Datum::DatumDouble(v) => Some(Primitive::Double(*v)),
            Datum::DatumBool(v) => Some(Primitive::Bool(*v)),
            Datum::DatumString(v) => Some(Primitive::Text(v.as_str())),
            Datum::DatumBytes(v) => Some(Primitive::Bytes(v.as_slice())),
            Datum::DatumPoint(_) => None,
            Datum::DatumMissing(_) => Some(Primitive::Absent),
        }
    }
}

impl<'a> Primitive<'a> {
    /// Returns the kind of the primitive, or `None` for the absent value.
    pub fn kind(&self) -> (kind: Option<FieldKind>)
        ensures
            kind == self@.kind(),
    {
        match self {
            Primitive::Absent => None,
            Primitive::Int32(_) => Some(FieldKind::Int32),
            Primitive::Int64(_) => Some(FieldKind::Int64),
            Primitive::Float(_) => Some(FieldKind::Float),
            Primitive::Double(_) => Some(FieldKind::Double),
            Primitive::Bool(_) => Some(FieldKind::Bool),
            Primitive::Text(_) => Some(FieldKind::Text),
            Primitive::Bytes(_) => Some(FieldKind::Bytes),
        }
    }

    /// Returns the primitive as a value of its own, with text and bytes
    /// copied.
    pub fn to_value(&self) -> (value: Value)
        ensures
            value@ == self@,
    {
        match self {
            Primitive::Absent => Value::Absent,
            Primitive::Int32(v) => Value::Int32(*v),
            Primitive::Int64(v) => Value::Int64(*v),
            Primitive::Float(v) => Value::Float(*v),
            Primitive::Double(v) => Value::Double(*v),
            Primitive::Bool(v) => Value::Bool(*v),
            Primitive::Text(v) => Value::Text(String::from_str(v)),
            Primitive::Bytes(v) => Value::Bytes(slice_to_vec(v)),
        }
    }
}

impl Value {
    /// Returns the kind of the value, or `None` for the absent value.
    pub fn kind(&self) -> (kind: Option<FieldKind>)
        ensures
            kind == self@.kind(),
    {
        match self {
            Value::Absent => None,
            Value::Int32(_) => Some(FieldKind::Int32),
            Value::Int64(_) => Some(FieldKind::Int64),
            Value::Float(_) => Some(FieldKind::Float),
            Value::Double(_) => Some(FieldKind::Double),
            Value::Bool(_) => Some(FieldKind::Bool),
            Value::Text(_) => Some(FieldKind::Text),
            Value::Bytes(_) => Some(FieldKind::Bytes),
        }
    }
}

/// The message of an error: what went wrong, the field in backticks, and
/// the expected kind in parentheses.
pub open spec fn message_of(error: ErrorView) -> Seq<char> {
    error.kind.text() + ": `"@ + error.field + "` (expected "@ + error.expected.text() + ")"@
}

impl Error {
    /// The error of a given kind for a field.
    pub fn new(kind: ErrorKind, field: &Field) -> (error: Error)
        ensures
            error@ == field_error(kind, field@),
    {
        Error { kind, field: field.name.clone(), expected: field.kind }
    }

    /// Returns the message of the error, such as
    /// ``required field absent: `id` (expected int32)``.
    pub fn message(&self) -> (message: String)
        ensures
            message@ == message_of(self@),
    {
        let mut message = String::from_str(self.kind.as_str());
        message.append(": `");
        message.append(self.field.as_str());
        message.append("` (expected ");
        message.append(self.expected.as_str());
        message.append(")");
        message
    }
}

/// The outcome of decoding one field, as a mathematical value.
pub open spec fn field_outcome(result: Result<Value, Error>) -> Result<ValueView, ErrorView> {
    match result {
        Ok(value) => Ok(value@),
        Err(error) => Err(error@),
    }
}

/// Decodes one datum into the value of a field.
///
/// A missing datum gives the absent value for an optional field and a
/// required-field error for any other. A geometric point gives an
/// unsupported-datum error. Any other datum gives its primitive where the
/// field expects that kind, and a type-mismatch error where it does not.
pub fn deserialize_datum(datum: &Datum, field: &Field) -> (result: Result<Value, Error>)
    ensures
        field_outcome(result) == decode_datum(datum@, field@),
        datum is DatumMissing && field.optional ==> result == Ok::<Value, Error>(Value::Absent),
        datum is DatumMissing && !field.optional ==> result is Err
            && result->Err_0.kind == ErrorKind::RequiredFieldAbsent
            && result->Err_0.field@ == field.name@,
{
    match datum.primitive() {
        None => Err(Error::new(ErrorKind::UnsupportedDatum, field)),
        Some(primitive) => match primitive.kind() {
            None => if field.optional {
                Ok(Value::Absent)
            } else {
                Err(Error::new(ErrorKind::RequiredFieldAbsent, field))
            },
            Some(kind) => if kind == field.kind {
                Ok(primitive.to_value())
            } else {
                Err(Error::new(ErrorKind::TypeMismatch, field))
            },
        },
    }
}

/// The test that a column bears a given name.
pub open spec fn bears(name: Seq<char>) -> spec_fn(DatumMessageView) -> bool {
    |column: DatumMessageView| column.column_name == name
}

/// The columns of a row that bear a given name, in the order of the row.
pub open spec fn columns_named(row: Seq<DatumMessageView>, name: Seq<char>) -> Seq<
    DatumMessageView,
> {
    row.filter(bears(name))
}

/// What a row yields for a field.
///
/// The field is read from the one column that bears its name. Without such
/// a column the field is absent, which an optional field admits and a
/// required field does not. With more than one the row is ambiguous.
pub open spec fn decode_field(row: Seq<DatumMessageView>, field: FieldView) -> Result<
    ValueView,
    ErrorView,
> {
    let named = columns_named(row, field.name);
    if named.len() == 0 {
        if field.optional {
            Ok(ValueView::Absent)
        } else {
            Err(field_error(ErrorKind::RequiredFieldAbsent, field))
        }
    } else if named.len() == 1 {
        decode_datum(named[0].datum, field)
    } else {
        Err(field_error(ErrorKind::DuplicateColumn, field))
    }
}

/// What a row yields for a schema: the values of all its fields, in the
/// order of the schema, or the error of the first field that fails.
pub open spec fn decode_row(row: Seq<DatumMessageView>, schema: Seq<FieldView>) -> Result<
    Seq<ValueView>,
    ErrorView,
>
    decreases schema.len(),
{
    if schema.len() == 0 {
        Ok(Seq::empty())
    } else {
        match decode_row(row, schema.drop_last()) {
            Err(error) => Err(error),
            Ok(values) => match decode_field(row, schema.last()) {
                Err(error) => Err(error),
                Ok(value) => Ok(values.push(value)),
            },
        }
    }
}

/// The outcome of decoding a row, as a mathematical value.
pub open spec fn row_outcome(result: Result<Vec<Value>, Error>) -> Result<Seq<ValueView>, ErrorView> {
    match result {
        Ok(values) => Ok(values.deep_view()),
        Err(error) => Err(error@),
    }
}

/// How many columns of a row bear a name, as far as [`find_column`] tells
/// them apart.
#[derive(Clone, Copy, Debug, PartialEq, Eq, Structural)]
pub enum Lookup {
    /// No column bears the name.
    Missing,
    /// Exactly one column bears the name: the one at this position.
    Unique(usize),
    /// More than one column bears the name.
    Repeated,
}

/// Extending a row by one column extends the columns of a name by that
/// column if it bears the name, and leaves them as they are if not.
proof fn lemma_columns_named_push(
    row: Seq<DatumMessageView>,
    column: DatumMessageView,
    name: Seq<char>,
)
    ensures
        columns_named(row.push(column), name) == if column.column_name == name {
            columns_named(row, name).push(column)
        } else {
            columns_named(row, name)
        },
{
    reveal(Seq::filter);
    assert(row.push(column).drop_last() =~= row);
}

/// Looks a name up among the columns of a row.
pub fn find_column(row: &[DatumMessage], name: &String) -> (found: Lookup)
    ensures
        match found {
            Lookup::Missing => columns_named(row.deep_view(), name@).len() == 0,
            Lookup::Unique(position) => position < row@.len() && columns_named(
                row.deep_view(),
                name@,
            ) == seq![row@[position as int]@],
            Lookup::Repeated => columns_named(row.deep_view(), name@).len() >= 2,
        },
{
    let ghost columns = row.deep_view();
    let mut found = Lookup::Missing;
    let mut i: usize = 0;
    while i < row.len()
        invariant
            i <= row@.len(),
            columns == row.deep_view(),
            match found {
                Lookup::Missing => columns_named(columns.take(i as int), name@).len() == 0,
                Lookup::Unique(position) => position < i && columns_named(
                    columns.take(i as int),
                    name@,
                ) == seq![row@[position as int]@],
                Lookup::Repeated => columns_named(columns.take(i as int), name@).len() >= 2,
            },
        decreases row@.len() - i,
    {
        proof {
            lemma_columns_named_push(columns.take(i as int), columns[i as int], name@);
            assert(columns.take(i as int).push(columns[i as int]) =~= columns.take(i + 1));
        }
        if row[i].column_name == *name {
            found = match found {
                Lookup::Missing => Lookup::Unique(i),
                _ => Lookup::Repeated,
            };
        }
        i += 1;
    }
    proof {
        assert(columns.take(i as int) =~= columns);
    }
    found
}

/// Decodes the field of a typed row from the columns of a row message.
pub fn deserialize_field(row: &[DatumMessage], field: &Field) -> (result: Result<Value, Error>)
    ensures
        field_outcome(result) == decode_field(row.deep_view(), field@),
{
    match find_column(row, &field.name) {
        Lookup::Missing => if field.optional {
            Ok(Value::Absent)
        } else {
            Err(Error::new(ErrorKind::RequiredFieldAbsent, field))
        },
        Lookup::Unique(position) => deserialize_datum(&row[position].datum, field),
        Lookup::Repeated => Err(Error::new(ErrorKind::DuplicateColumn, field)),
    }
}

/// Decodes a typed row from the columns of a row message.
///
/// The fields are matched to the columns by name, whatever the order of the
/// columns. The result holds one value for each field of the schema, in the
/// order of the schema; columns that no field names are passed over. The
/// first field that cannot be had, in the order of the schema, fails the
/// whole row with its error.
pub fn from_row(row: &[DatumMessage], schema: &[Field]) -> (result: Result<Vec<Value>, Error>)
    ensures
        row_outcome(result) == decode_row(row.deep_view(), schema.deep_view()),
{
    let ghost fields = schema.deep_view();
    let mut values: Vec<Value> = Vec::new();
    let mut i: usize = 0;
    proof {
        assert(values.deep_view() =~= Seq::<ValueView>::empty());
    }
    while i < schema.len()
        invariant
            i <= schema@.len(),
            fields == schema.deep_view(),
            decode_row(row.deep_view(), fields.take(i as int)) == Ok::<Seq<ValueView>, ErrorView>(
                values.deep_view(),
            ),
        decreases schema@.len() - i,
    {
        proof {
            assert(fields.take(i + 1).drop_last() =~= fields.take(i as int));
        }
        let ghost before = values.deep_view();
        match deserialize_field(row, &schema[i]) {
            Err(error) => {
                proof {
                    lemma_decode_row_fails_with_prefix(row.deep_view(), fields, i + 1);
                }
                return Err(error);
            },
            Ok(value) => {
                values.push(value);
                proof {
                    assert(values.deep_view() =~= before.push(value@));
                }
            },
        }
        i += 1;
    }
    proof {
        assert(fields.take(i as int) =~= fields);
    }
    Ok(values)
}

/// A row that fails for the first fields of a schema fails in the same way
/// for the whole schema.
pub proof fn lemma_decode_row_fails_with_prefix(
    row: Seq<DatumMessageView>,
    schema: Seq<FieldView>,
    n: int,
)
    requires
        0 <= n <= schema.len(),
        decode_row(row, schema.take(n)) is Err,
    ensures
        decode_row(row, schema) == decode_row(row, schema.take(n)),
    decreases schema.len(),
{
    if n == schema.len() {
        assert(schema.take(n) =~= schema);
    } else {
        assert(schema.drop_last().take(n) =~= schema.take(n));
        lemma_decode_row_fails_with_prefix(row, schema.drop_last(), n);
    }
}

/// How often a value occurs among the members of a sequence that pass a
/// test: as often as in the sequence if it passes the test, and never if
/// it does not.
proof fn lemma_filter_count<A>(s: Seq<A>, test: spec_fn(A) -> bool, value: A)
    ensures
        s.filter(test).to_multiset().count(value) == if test(value) {
            s.to_multiset().count(value)
        } else {
            0
        },
    decreases s.len(),
{
    reveal(Seq::filter);
    if s.len() == 0 {
        s.to_multiset_ensures();
    } else {
        let init = s.drop_last();
        lemma_filter_count(init, test, value);
        assert(s =~= init.push(s.last()));
        init.to_multiset_ensures();
        init.filter(test).to_multiset_ensures();
    }
}

/// Where exactly one column of a row bears a name, the columns of that name
/// are that one column.
proof fn lemma_columns_named_of_only_column(row: Seq<DatumMessageView>, name: Seq<char>, i: int)
    requires
        0 <= i < row.len(),
        forall|j: int| 0 <= j < row.len() ==> (#[trigger] row[j].column_name == name <==> j == i),
    ensures
        columns_named(row, name) == seq![row[i]],
    decreases row.len(),
{
    reveal(Seq::filter);
    let init = row.drop_last();
    if i == row.len() - 1 {
        lemma_columns_named_of_no_column(init, name);
    } else {
        lemma_columns_named_of_only_column(init, name, i);
    }
}

/// Where no column of a row bears a name, there are no columns of that
/// name.
proof fn lemma_columns_named_of_no_column(row: Seq<DatumMessageView>, name: Seq<char>)
    requires
        forall|j: int| 0 <= j < row.len() ==> #[trigger] row[j].column_name != name,
    ensures
        columns_named(row, name).len() == 0,
    decreases row.len(),
{
    reveal(Seq::filter);
    if row.len() > 0 {
        lemma_columns_named_of_no_column(row.drop_last(), name);
    }
}

/// A name is paired with the value at its own position: where the column at
/// position `i` is the only one that bears the name of a field, the field
/// holds what the datum at position `i` yields for it.
pub proof fn lemma_decode_field_reads_its_column(
    row: Seq<DatumMessageView>,
    field: FieldView,
    i: int,
)
    requires
        0 <= i < row.len(),
        forall|j: int|
            0 <= j < row.len() ==> (#[trigger] row[j].column_name == field.name <==> j == i),
    ensures
        decode_field(row, field) == decode_datum(row[i].datum, field),
{
    lemma_columns_named_of_only_column(row, field.name, i);
}

/// A field whose name no column bears is absent: an optional field holds
/// the absent value, and a required field fails.
pub proof fn lemma_decode_field_without_column(row: Seq<DatumMessageView>, field: FieldView)
    requires
        forall|j: int| 0 <= j < row.len() ==> #[trigger] row[j].column_name != field.name,
    ensures
        field.optional ==> decode_field(row, field) == Ok::<ValueView, ErrorView>(
            ValueView::Absent,
        ),
        !field.optional ==> decode_field(row, field) == Err::<ValueView, ErrorView>(
            field_error(ErrorKind::RequiredFieldAbsent, field),
        ),
{
    lemma_columns_named_of_no_column(row, field.name);
}

/// Whatever fails for a field, the error names the field and the kind that
/// the field expected.
pub proof fn lemma_error_names_field(row: Seq<DatumMessageView>, field: FieldView)
    ensures
        decode_field(row, field) matches Err(error) ==> error.field == field.name
            && error.expected == field.kind,
{
}

/// A missing datum is absent, not an error, for an optional field, and a
/// required-field error that names the field for any other.
pub proof fn lemma_missing_datum(present: bool, field: FieldView)
    ensures
        field.optional ==> decode_datum(DatumView::DatumMissing(present), field) == Ok::<
            ValueView,
            ErrorView,
        >(ValueView::Absent),
        !field.optional ==> decode_datum(DatumView::DatumMissing(present), field) == Err::<
            ValueView,
            ErrorView,
        >(
            ErrorView {
                kind: ErrorKind::RequiredFieldAbsent,
                field: field.name,
                expected: field.kind,
            },
        ),
{
}

/// Two rows with the same columns, in whatever order, hold the same columns
/// of any name, up to their order; where a name has one column in the one
/// row, it has the same column in the other.
proof fn lemma_columns_named_of_same_columns(
    row: Seq<DatumMessageView>,
    other: Seq<DatumMessageView>,
    name: Seq<char>,
)
    requires
        row.to_multiset() == other.to_multiset(),
    ensures
        columns_named(row, name).len() == columns_named(other, name).len(),
        columns_named(row, name).len() == 1 ==> columns_named(row, name)[0] == columns_named(
            other,
            name,
        )[0],
{
    let mine = columns_named(row, name);
    let theirs = columns_named(other, name);
    assert(mine.to_multiset() =~= theirs.to_multiset()) by {
        assert forall|column: DatumMessageView|
            mine.to_multiset().count(column) == theirs.to_multiset().count(column) by {
            lemma_filter_count(row, bears(name), column);
            lemma_filter_count(other, bears(name), column);
        }
    }
    mine.to_multiset_ensures();
    theirs.to_multiset_ensures();
    if mine.len() == 1 {
        assert(theirs.to_multiset().count(mine[0]) > 0);
    }
}

/// The order of the columns does not matter: two rows that hold the same
/// columns, in whatever order, yield the same for every field.
pub proof fn lemma_decode_field_ignores_column_order(
    row: Seq<DatumMessageView>,
    other: Seq<DatumMessageView>,
    field: FieldView,
)
    requires
        row.to_multiset() == other.to_multiset(),
    ensures
        decode_field(row, field) == decode_field(other, field),
{
    lemma_columns_named_of_same_columns(row, other, field.name);
}

/// The order of the columns does not matter: two rows that hold the same
/// columns, in whatever order, yield the same typed row for every schema.
pub proof fn lemma_decode_row_ignores_column_order(
    row: Seq<DatumMessageView>,
    other: Seq<DatumMessageView>,
    schema: Seq<FieldView>,
)
    requires
        row.to_multiset() == other.to_multiset(),
    ensures
        decode_row(row, schema) == decode_row(other, schema),
    decreases schema.len(),
{
    if schema.len() > 0 {
        lemma_decode_row_ignores_column_order(row, other, schema.drop_last());
        lemma_decode_field_ignores_column_order(row, other, schema.last());
    }
}

/// A typed row holds, field by field, what the row yields for the field:
/// decoding succeeds if and only if it succeeds for every field of the
/// schema, and then the value at each position is the value of the field at
/// that position.
pub proof fn lemma_decode_row_is_fieldwise(row: Seq<DatumMessageView>, schema: Seq<FieldView>)
    ensures
        decode_row(row, schema) is Ok <==> forall|i: int|
            0 <= i < schema.len() ==> decode_field(row, #[trigger] schema[i]) is Ok,
        decode_row(row, schema) matches Ok(values) ==> values.len() == schema.len() && forall|
            i: int,
        |
            0 <= i < schema.len() ==> decode_field(row, schema[i]) == Ok::<ValueView, ErrorView>(
                #[trigger] values[i],
            ),
    decreases schema.len(),
{
    if schema.len() > 0 {
        let earlier = schema.drop_last();
        lemma_decode_row_is_fieldwise(row, earlier);
        assert forall|i: int| 0 <= i < earlier.len() implies earlier[i] == schema[i] by {}
    }
}

/// The error of a row is the error of the first field that fails, in the
/// order of the schema.
pub proof fn lemma_decode_row_fails_at_first(row: Seq<DatumMessageView>, schema: Seq<FieldView>)
    requires
        decode_row(row, schema) is Err,
    ensures
        exists|i: int|
            {
                &&& 0 <= i < schema.len()
                &&& decode_row(row, schema.take(i)) is Ok
                &&& #[trigger] decode_field(row, schema[i]) is Err
                &&& decode_row(row, schema)->Err_0 == decode_field(row, schema[i])->Err_0
            },
    decreases schema.len(),
{
    let earlier = schema.drop_last();
    if decode_row(row, earlier) is Err {
        lemma_decode_row_fails_at_first(row, earlier);
        let i = choose|i: int|
            {
                &&& 0 <= i < earlier.len()
                &&& decode_row(row, earlier.take(i)) is Ok
                &&& #[trigger] decode_field(row, earlier[i]) is Err
                &&& decode_row(row, earlier)->Err_0 == decode_field(row, earlier[i])->Err_0
            };
        assert(earlier.take(i) =~= schema.take(i));
    } else {
        assert(schema.take(schema.len() - 1) =~= earlier);
    }
}

/// A cursor over the columns of a row that yields them left to right, each
/// as a key, the name of the column, and then a value, its datum.
pub struct Tuple<'a> {
    columns: &'a [DatumMessage],
    position: usize,
}

impl<'a> View for Tuple<'a> {
    type V = Seq<DatumMessage>;

    /// The columns that the cursor has yet to yield.
    closed spec fn view(&self) -> Seq<DatumMessage> {
        self.columns@.skip(self.position as int)
    }
}

impl<'a> Tuple<'a> {
    #[verifier::type_invariant]
    spec fn in_bounds(self) -> bool {
        self.position <= self.columns@.len()
    }

    /// A cursor in front of the first column of a row.
    pub fn new(columns: &'a [DatumMessage]) -> (tuple: Self)
        ensures
            tuple@ == columns@,
    {
        Tuple { columns, position: 0 }
    }

    /// Returns the name of the next column, or `None` once all columns have
    /// been yielded. The cursor stays where it is.
    pub fn next_key(&self) -> (key: Option<&'a str>)
        ensures
            match key {
                None => self@.len() == 0,
                Some(name) => self@.len() > 0 && name@ == self@[0].column_name@,
            },
    {
        proof {
            use_type_invariant(self);
        }
        if self.position < self.columns.len() {
            Some(self.columns[self.position].column_name.as_str())
        } else {
            None
        }
    }

    /// Returns the datum of the next column and steps past that column, or
    /// returns `None` once all columns have been yielded.
    pub fn next_value(&mut self) -> (value: Option<&'a Datum>)
        ensures
            match value {
                None => old(self)@.len() == 0 && final(self)@ == old(self)@,
                Some(datum) => old(self)@.len() > 0 && *datum == old(self)@[0].datum
                    && final(self)@ == old(self)@.drop_first(),
            },
    {
        proof {
            use_type_invariant(&*self);
        }
        if self.position < self.columns.len() {
            let datum = &self.columns[self.position].datum;
            self.position += 1;
            Some(datum)
        } else {
            None
        }
    }
}

} // verus!
