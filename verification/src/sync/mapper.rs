//! The field mapper: which local column travels under which remote key, and
//! how a local scalar becomes a wire value and back.

use vstd::prelude::*;
use vstd::string::*;
use crate::config::firebase::{FieldMap, FirestoreValue, WireValue};
use crate::decimal::signed_decimal;

verus! {

/// The type of a local column.
#[derive(Clone, Copy, PartialEq, Eq, Structural, Debug)]
pub enum ColumnKind {
    Text,
    Flag,
    Integer,
}

/// A local scalar.
#[derive(Debug, Clone, PartialEq)]
pub enum Scalar {
    Text(String),
    Flag(bool),
    Integer(i64),
}

/// What a local scalar holds.
pub enum ScalarValue {
    Text(Seq<char>),
    Flag(bool),
    Integer(i64),
}

impl View for Scalar {
    type V = ScalarValue;

    open spec fn view(&self) -> ScalarValue {
        match self {
            Scalar::Text(s) => ScalarValue::Text(s@),
            Scalar::Flag(b) => ScalarValue::Flag(*b),
            Scalar::Integer(n) => ScalarValue::Integer(*n),
        }
    }
}

impl ScalarValue {
    /// The type of column that holds such a scalar.
    pub open spec fn kind(self) -> ColumnKind {
        match self {
            ScalarValue::Text(_) => ColumnKind::Text,
            ScalarValue::Flag(_) => ColumnKind::Flag,
            ScalarValue::Integer(_) => ColumnKind::Integer,
        }
    }
}

/// One line of a key table: a local column, the remote key under which it
/// travels, its type, and whether the column refuses null.
#[derive(Debug, Clone, PartialEq)]
pub struct KeyMapping {
    pub column: &'static str,
    pub key: &'static str,
    pub kind: ColumnKind,
    pub required: bool,
}

/// The mapped columns of one local row, in the order of the key table of its
/// entity type. A column that is null holds `None`.
#[derive(Debug, Clone, PartialEq)]
pub struct Record {
    pub values: Vec<Option<Scalar>>,
}

impl View for Record {
    type V = Seq<Option<ScalarValue>>;

    open spec fn view(&self) -> Seq<Option<ScalarValue>> {
        Seq::new(
            self.values@.len(),
            |i: int|
                match self.values@[i] {
                    Some(v) => Some(v@),
                    None => None,
                },
        )
    }
}

/// A key of a document that could not be mapped: it holds a value of
/// another type than its column.
#[derive(Debug, Clone, PartialEq)]
pub struct MappingError {
    pub key: String,
}

/// The wire value that a local scalar travels as. An integer travels as its
/// decimal text.
pub open spec fn encoded(value: ScalarValue) -> WireValue {
    match value {
        ScalarValue::Text(s) => WireValue::Text(s),
        ScalarValue::Flag(b) => WireValue::Boolean(b),
        ScalarValue::Integer(n) => WireValue::Integer(signed_decimal(n as int)),
    }
}

/// The local scalar of the given type that a wire value stands for. `None`
/// where the wire value is of another type.
pub open spec fn decoded(kind: ColumnKind, wire: WireValue) -> Option<ScalarValue> {
    match kind {
        ColumnKind::Text => match wire.text() {
            Some(s) => Some(ScalarValue::Text(s)),
            None => None,
        },
        ColumnKind::Flag => match wire.flag() {
            Some(b) => Some(ScalarValue::Flag(b)),
            None => None,
        },
        ColumnKind::Integer => match wire.number() {
            Some(n) => Some(ScalarValue::Integer(n)),
            None => None,
        },
    }
}

/// The zero value of a type: the empty text, false, zero.
pub open spec fn zero_of(kind: ColumnKind) -> ScalarValue {
    match kind {
        ColumnKind::Text => ScalarValue::Text(Seq::empty()),
        ColumnKind::Flag => ScalarValue::Flag(false),
        ColumnKind::Integer => ScalarValue::Integer(0),
    }
}

/// Column `i` of a record; null where the record is shorter.
pub open spec fn column_of(record: Seq<Option<ScalarValue>>, i: int) -> Option<ScalarValue> {
    if 0 <= i < record.len() {
        record[i]
    } else {
        None
    }
}

/// The fields that the first `n` columns of a record travel as: a column
/// that is null is left out, every other one stands under its key.
pub open spec fn outbound_fields(
    table: Seq<KeyMapping>,
    record: Seq<Option<ScalarValue>>,
    n: nat,
) -> Map<Seq<char>, WireValue>
    decreases n,
{
    if n == 0 {
        Map::empty()
    } else {
        let before = outbound_fields(table, record, (n - 1) as nat);
        match column_of(record, n - 1) {
            Some(value) => before.insert(table[n - 1].key@, encoded(value)),
            None => before,
        }
    }
}

/// Whether a document holds, under the key of `line`, a value of another
/// type than the column.
pub open spec fn mismatched(line: KeyMapping, fields: Map<Seq<char>, WireValue>) -> bool {
    fields.contains_key(line.key@) && decoded(line.kind, fields[line.key@]).is_none()
}

/// What a column is set to from a document: the value under its key; where
/// that is missing or of another type, the zero value of a column that
/// refuses null, and null otherwise.
pub open spec fn inbound_value(line: KeyMapping, fields: Map<Seq<char>, WireValue>) -> Option<
    ScalarValue,
> {
    let found = if fields.contains_key(line.key@) {
        decoded(line.kind, fields[line.key@])
    } else {
        None
    };
    match found {
        Some(value) => Some(value),
        None => if line.required {
            Some(zero_of(line.kind))
        } else {
            None
        },
    }
}

/// The record that a document's fields are mapped to.
pub open spec fn inbound_record(table: Seq<KeyMapping>, fields: Map<Seq<char>, WireValue>) -> Seq<
    Option<ScalarValue>,
> {
    Seq::new(table.len(), |i: int| inbound_value(table[i], fields))
}

/// The keys, among those of the first `n` lines, under which a document
/// holds a value of another type than the column.
pub open spec fn mismatched_keys(
    table: Seq<KeyMapping>,
    fields: Map<Seq<char>, WireValue>,
    n: nat,
) -> Seq<Seq<char>>
    decreases n,
{
    if n == 0 {
        Seq::empty()
    } else {
        let before = mismatched_keys(table, fields, (n - 1) as nat);
        if mismatched(table[n - 1], fields) {
            before.push(table[n - 1].key@)
        } else {
            before
        }
    }
}

/// The keys of a list of mapping errors.
pub open spec fn error_keys(errors: Seq<MappingError>) -> Seq<Seq<char>> {
    Seq::new(errors.len(), |i: int| errors[i].key@)
}

/// Whether no two lines of a key table share a remote key.
pub open spec fn distinct_remote_keys(table: Seq<KeyMapping>) -> bool {
    forall|i: int, j: int|
        0 <= i < table.len() && 0 <= j < table.len() && i != j ==> (#[trigger] table[i]).key@ != (
        #[trigger] table[j]).key@
}

/// Whether a record fits a key table: as many columns, each value of its
/// column's type, and a value in every column that refuses null.
pub open spec fn fits(table: Seq<KeyMapping>, record: Seq<Option<ScalarValue>>) -> bool {
    &&& record.len() == table.len()
    &&& forall|i: int|
        0 <= i < table.len() ==> match #[trigger] record[i] {
            Some(value) => value.kind() == table[i].kind,
            None => !table[i].required,
        }
}

/// What is read from a document fits the key table it was read by,
/// whatever the document holds.
pub proof fn read_record_fits(table: Seq<KeyMapping>, fields: Map<Seq<char>, WireValue>)
    ensures
        fits(table, inbound_record(table, fields)),
{
    let record = inbound_record(table, fields);
    assert forall|i: int| 0 <= i < table.len() implies match #[trigger] record[i] {
        Some(value) => value.kind() == table[i].kind,
        None => !table[i].required,
    } by {
        assert(record[i] == inbound_value(table[i], fields));
    }
}

/// Reading undoes writing, scalar by scalar.
pub proof fn scalar_round_trip(value: ScalarValue)
    ensures
        decoded(value.kind(), encoded(value)) == Some(value),
{
    match value {
        ScalarValue::Integer(n) => {
            crate::decimal::integer_round_trip(n);
        },
        _ => {},
    }
}

/// What the outbound fields hold under a key: nothing under a key of no
/// line among the first `n`.
pub proof fn outbound_holds_table_keys_only(
    table: Seq<KeyMapping>,
    record: Seq<Option<ScalarValue>>,
    n: nat,
    key: Seq<char>,
)
    requires
        n <= table.len(),
        outbound_fields(table, record, n).contains_key(key),
    ensures
        exists|i: int| 0 <= i < n && (#[trigger] table[i]).key@ == key,
    decreases n,
{
    if n > 0 {
        if table[n - 1].key@ == key {
        } else {
            outbound_holds_table_keys_only(table, record, (n - 1) as nat, key);
        }
    }
}

/// With distinct keys, the outbound fields hold under the key of line `i`
/// what column `i` travels as, and nothing where the column is null.
pub proof fn outbound_lookup(
    table: Seq<KeyMapping>,
    record: Seq<Option<ScalarValue>>,
    n: nat,
    i: int,
)
    requires
        distinct_remote_keys(table),
        n <= table.len(),
        0 <= i < n,
    ensures
        match column_of(record, i) {
            Some(value) => outbound_fields(table, record, n).contains_key(table[i].key@)
                && outbound_fields(table, record, n)[table[i].key@] == encoded(value),
            None => !outbound_fields(table, record, n).contains_key(table[i].key@),
        },
    decreases n,
{
    if i == n - 1 {
        if column_of(record, i).is_none() {
            if outbound_fields(table, record, (n - 1) as nat).contains_key(table[i].key@) {
                outbound_holds_table_keys_only(table, record, (n - 1) as nat, table[i].key@);
                let j = choose|j: int| 0 <= j < n - 1 && (#[trigger] table[j]).key@ == table[i].key@;
                assert(table[j].key@ == table[i].key@);
            }
        }
    } else {
        outbound_lookup(table, record, (n - 1) as nat, i);
        assert(table[n - 1].key@ != table[i].key@);
    }
}

/// The mapping round trip: a record that fits its key table, whose keys are
/// distinct, is read back unchanged from the fields it was written to.
pub proof fn mapping_round_trip(table: Seq<KeyMapping>, record: Seq<Option<ScalarValue>>)
    requires
        distinct_remote_keys(table),
        fits(table, record),
    ensures
        inbound_record(table, outbound_fields(table, record, table.len())) == record,
{
    let fields = outbound_fields(table, record, table.len());
    assert forall|i: int| 0 <= i < table.len() implies inbound_value(table[i], fields)
        == record[i] by {
        outbound_lookup(table, record, table.len(), i);
        match record[i] {
            Some(value) => {
                scalar_round_trip(value);
            },
            None => {},
        }
    }
    assert(inbound_record(table, fields) =~= record);
}

/// Whether a scalar is of the given type.
pub fn is_of_kind(value: &Scalar, kind: ColumnKind) -> (same: bool)
    ensures
        same == (value@.kind() == kind),
{
    match value {
        Scalar::Text(_) => kind == ColumnKind::Text,
        Scalar::Flag(_) => kind == ColumnKind::Flag,
        Scalar::Integer(_) => kind == ColumnKind::Integer,
    }
}

/// Whether a record fits a key table.
pub fn fits_table(table: &Vec<KeyMapping>, record: &Record) -> (fitting: bool)
    ensures
        fitting == fits(table@, record@),
{
    if record.values.len() != table.len() {
        return false;
    }
    let mut i: usize = 0;
    while i < table.len()
        invariant
            0 <= i <= table@.len(),
            record@.len() == table@.len(),
            record.values@.len() == table@.len(),
            forall|j: int|
                0 <= j < i ==> match #[trigger] record@[j] {
                    Some(value) => value.kind() == table@[j].kind,
                    None => !table@[j].required,
                },
        decreases table@.len() - i,
    {
        let fitting = match &record.values[i] {
            Some(value) => is_of_kind(value, table[i].kind),
            None => !table[i].required,
        };
        if !fitting {
            assert(!(match record@[i as int] {
                Some(value) => value.kind() == table@[i as int].kind,
                None => !table@[i as int].required,
            }));
            return false;
        }
        i = i + 1;
    }
    true
}

/// The wire value that a local scalar travels as.
pub fn encode(value: &Scalar) -> (wire: FirestoreValue)
    ensures
        wire@ == encoded(value@),
{
    match value {
        Scalar::Text(s) => FirestoreValue::string(s.as_str()),
        Scalar::Flag(b) => FirestoreValue::boolean(*b),
        Scalar::Integer(n) => FirestoreValue::integer(*n),
    }
}

/// The local scalar of the given type that a wire value stands for.
pub fn decode(kind: ColumnKind, wire: &FirestoreValue) -> (value: Option<Scalar>)
    ensures
        match value {
            Some(v) => decoded(kind, wire@) == Some(v@),
            None => decoded(kind, wire@).is_none(),
        },
{
    match kind {
        ColumnKind::Text => match wire.as_string() {
            Some(s) => Some(Scalar::Text(String::from_str(s))),
            None => None,
        },
        ColumnKind::Flag => match wire.as_boolean() {
            Some(b) => Some(Scalar::Flag(b)),
            None => None,
        },
        ColumnKind::Integer => match wire.as_integer() {
            Some(n) => Some(Scalar::Integer(n)),
            None => None,
        },
    }
}

/// The zero value of a type.
pub fn zero(kind: ColumnKind) -> (value: Scalar)
    ensures
        value@ == zero_of(kind),
{
    match kind {
        ColumnKind::Text => Scalar::Text(String::new()),
        ColumnKind::Flag => Scalar::Flag(false),
        ColumnKind::Integer => Scalar::Integer(0),
    }
}

/// Writes a record to wire fields by its key table. Null columns are left
/// out; a record shorter than the table counts as null from its end on.
pub fn to_wire(table: &Vec<KeyMapping>, record: &Record) -> (fields: FieldMap)
    ensures
        fields@ == outbound_fields(table@, record@, table@.len()),
{
    let mut fields = FieldMap::new();
    let mut i: usize = 0;
    while i < table.len()
        invariant
            0 <= i <= table.len(),
            fields@ == outbound_fields(table@, record@, i as nat),
        decreases table.len() - i,
    {
        if i < record.values.len() {
            match &record.values[i] {
                Some(value) => {
                    fields.insert(String::from_str(table[i].key), encode(value));
                },
                None => {},
            }
        }
        i = i + 1;
    }
    fields
}

/// Reads a record from wire fields by its key table, and lists the keys that
/// hold a value of another type than their column. Such a key counts as
/// missing; the other columns are read all the same.
pub fn from_wire(table: &Vec<KeyMapping>, fields: &FieldMap) -> (read: (Record, Vec<MappingError>))
    ensures
        read.0@ == inbound_record(table@, fields@),
        error_keys(read.1@) == mismatched_keys(table@, fields@, table@.len()),
{
    let mut values: Vec<Option<Scalar>> = Vec::new();
    let mut errors: Vec<MappingError> = Vec::new();
    let mut i: usize = 0;
    while i < table.len()
        invariant
            0 <= i <= table.len(),
            values@.len() == i,
            forall|j: int|
                0 <= j < i ==> (match #[trigger] values@[j] {
                    Some(v) => Some(v@),
                    None => None,
                }) == inbound_value(table@[j], fields@),
            error_keys(errors@) == mismatched_keys(table@, fields@, i as nat),
        decreases table.len() - i,
    {
        let line = &table[i];
        let found = match fields.get(line.key) {
            Some(wire) => {
                let value = decode(line.kind, wire);
                if value.is_none() {
                    let ghost before = errors@;
                    errors.push(MappingError { key: String::from_str(line.key) });
                    proof {
                        assert(error_keys(errors@) =~= error_keys(before).push(line.key@));
                    }
                }
                value
            },
            None => None,
        };
        let value = match found {
            Some(v) => Some(v),
            None => if line.required {
                Some(zero(line.kind))
            } else {
                None
            },
        };
        values.push(value);
        i = i + 1;
    }
    let record = Record { values };
    proof {
        assert(record@ =~= inbound_record(table@, fields@));
    }
    (record, errors)
}

/// The line of the soft-delete mark. It is read like a column that refuses
/// null: missing means false.
pub open spec fn deleted_line() -> KeyMapping {
    KeyMapping { column: "is_deleted", key: "isDeleted", kind: ColumnKind::Flag, required: true }
}

/// The line of the version counter. It is read like a column that refuses
/// null: missing means zero.
pub open spec fn version_line() -> KeyMapping {
    KeyMapping { column: "version", key: "version", kind: ColumnKind::Integer, required: true }
}

/// The fields of the document that a row is uploaded as: its mapped columns,
/// the tenant under `courtId`, the soft-delete mark and the version where
/// they are not null, and under `updatedAt` the time of mapping.
pub open spec fn document_fields(
    table: Seq<KeyMapping>,
    record: Seq<Option<ScalarValue>>,
    tenant: Seq<char>,
    is_deleted: Option<bool>,
    version: Option<i64>,
    stamp: Seq<char>,
) -> Map<Seq<char>, WireValue> {
    let columns = outbound_fields(table, record, table.len());
    let scoped = columns.insert("courtId"@, WireValue::Text(tenant));
    let marked = match is_deleted {
        Some(b) => scoped.insert("isDeleted"@, encoded(ScalarValue::Flag(b))),
        None => scoped,
    };
    let counted = match version {
        Some(v) => marked.insert("version"@, encoded(ScalarValue::Integer(v))),
        None => marked,
    };
    counted.insert("updatedAt"@, WireValue::Timestamp(stamp))
}

/// Whether a document is a tombstone: flagged as deleted.
pub open spec fn is_tombstone(fields: Map<Seq<char>, WireValue>) -> bool {
    inbound_value(deleted_line(), fields) == Some(ScalarValue::Flag(true))
}

/// The version that a document carries; zero where it carries none.
pub open spec fn version_in(fields: Map<Seq<char>, WireValue>) -> i64 {
    match inbound_value(version_line(), fields) {
        Some(ScalarValue::Integer(v)) => v,
        _ => 0,
    }
}

/// Whether the keys of a table differ from the four keys that every
/// document carries besides its columns.
pub open spec fn avoids_reserved_keys(table: Seq<KeyMapping>) -> bool {
    forall|i: int|
        0 <= i < table.len() ==> {
            let key = (#[trigger] table[i]).key@;
            key != "courtId"@ && key != "isDeleted"@ && key != "version"@ && key != "updatedAt"@
        }
}

/// Writes a row to the fields of the document it is uploaded as.
pub fn to_document(
    table: &Vec<KeyMapping>,
    record: &Record,
    tenant: &str,
    is_deleted: Option<bool>,
    version: Option<i64>,
    stamp: &str,
) -> (fields: FieldMap)
    ensures
        fields@ == document_fields(table@, record@, tenant@, is_deleted, version, stamp@),
{
    let mut fields = to_wire(table, record);
    fields.insert(String::from_str("courtId"), FirestoreValue::string(tenant));
    match is_deleted {
        Some(b) => {
            fields.insert(String::from_str("isDeleted"), FirestoreValue::boolean(b));
        },
        None => {},
    }
    match version {
        Some(v) => {
            fields.insert(String::from_str("version"), FirestoreValue::integer(v));
        },
        None => {},
    }
    fields.insert(String::from_str("updatedAt"), FirestoreValue::timestamp(stamp));
    fields
}

/// Whether a document is flagged as deleted.
pub fn reads_as_tombstone(fields: &FieldMap) -> (deleted: bool)
    ensures
        deleted == is_tombstone(fields@),
{
    match fields.get("isDeleted") {
        Some(wire) => match wire.as_boolean() {
            Some(b) => b,
            None => false,
        },
        None => false,
    }
}

/// The version that a document carries; zero where it carries none.
pub fn read_version(fields: &FieldMap) -> (version: i64)
    ensures
        version == version_in(fields@),
{
    match fields.get("version") {
        Some(wire) => match wire.as_integer() {
            Some(v) => v,
            None => 0,
        },
        None => 0,
    }
}

} // verus!
