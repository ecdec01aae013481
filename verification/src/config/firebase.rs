//! The document store: its tagged wire values, documents and field maps.

use vstd::prelude::*;
use vstd::string::*;
use crate::decimal::{i64_of, i64_to_decimal, parse_i64, signed_decimal};
use crate::text::{last_segment, last_segment_of, str_eq};

verus! {

/// A value as the document store transmits it. An integer travels as its
/// decimal text, a timestamp as RFC 3339 text, a double as the 64 bits of its
/// IEEE 754 pattern.
#[derive(Debug, PartialEq)]
pub enum FirestoreValue {
    StringValue(String),
    IntegerValue(String),
    DoubleValue(u64),
    BooleanValue(bool),
    TimestampValue(String),
    NullValue,
    MapValue(MapValue),
}

/// A nested map of wire values.
#[derive(Debug, PartialEq)]
pub struct MapValue {
    pub fields: FieldMap,
}

/// What a wire value holds, texts taken as sequences of characters. A nested
/// map is carried as it is.
pub enum WireValue {
    Text(Seq<char>),
    Integer(Seq<char>),
    Double(u64),
    Boolean(bool),
    Timestamp(Seq<char>),
    Null,
    Nested(MapValue),
}

impl View for FirestoreValue {
    type V = WireValue;

    open spec fn view(&self) -> WireValue {
        match self {
            FirestoreValue::StringValue(s) => WireValue::Text(s@),
            FirestoreValue::IntegerValue(s) => WireValue::Integer(s@),
            FirestoreValue::DoubleValue(b) => WireValue::Double(*b),
            FirestoreValue::BooleanValue(b) => WireValue::Boolean(*b),
            FirestoreValue::TimestampValue(s) => WireValue::Timestamp(s@),
            FirestoreValue::NullValue => WireValue::Null,
            FirestoreValue::MapValue(m) => WireValue::Nested(*m),
        }
    }
}

/// One key of a field map with its value.
#[derive(Debug, PartialEq)]
pub struct FieldEntry {
    pub key: String,
    pub value: FirestoreValue,
}

/// The fields of a document: wire values by key, each key once. The keys
/// are held in the order in which they were first set, and `==` compares two
/// maps entry by entry in that order.
#[derive(Debug, PartialEq)]
pub struct FieldMap {
    entries: Vec<FieldEntry>,
}

/// Whether no two entries of `entries` share a key.
pub open spec fn distinct_keys(entries: Seq<FieldEntry>) -> bool {
    forall|i: int, j: int|
        0 <= i < entries.len() && 0 <= j < entries.len() && i != j ==> (#[trigger] entries[i]).key@
            != (#[trigger] entries[j]).key@
}

/// Whether `entries` holds `key` at position `i`.
pub open spec fn holds_key_at(entries: Seq<FieldEntry>, key: Seq<char>, i: int) -> bool {
    0 <= i < entries.len() && entries[i].key@ == key
}

/// Whether `entries` holds `key` at all.
pub open spec fn has_key(entries: Seq<FieldEntry>, key: Seq<char>) -> bool {
    exists|i: int| holds_key_at(entries, key, i)
}

/// The map that a list of entries stands for.
pub open spec fn entries_map(entries: Seq<FieldEntry>) -> Map<Seq<char>, WireValue> {
    Map::new(
        |key: Seq<char>| has_key(entries, key),
        |key: Seq<char>| entries[choose|i: int| holds_key_at(entries, key, i)].value@,
    )
}

/// Where distinct keys hold `key` at position `i`, the map holds under
/// `key` the value at that position.
pub proof fn lookup_by_position(entries: Seq<FieldEntry>, key: Seq<char>, i: int)
    requires
        distinct_keys(entries),
        holds_key_at(entries, key, i),
    ensures
        entries_map(entries).contains_key(key),
        entries_map(entries)[key] == entries[i].value@,
{
    let j = choose|j: int| holds_key_at(entries, key, j);
    assert(holds_key_at(entries, key, j));
    assert(j == i);
}

/// To put an entry in the place of one with the same key sets the key to
/// the new value and leaves the other keys as they are.
pub proof fn replacing_sets_the_key(before: Seq<FieldEntry>, i: int, entry: FieldEntry)
    requires
        distinct_keys(before),
        holds_key_at(before, entry.key@, i),
    ensures
        distinct_keys(before.update(i, entry)),
        entries_map(before.update(i, entry)) == entries_map(before).insert(
            entry.key@,
            entry.value@,
        ),
{
    let after = before.update(i, entry);
    assert forall|a: int, b: int|
        0 <= a < after.len() && 0 <= b < after.len() && a != b implies (#[trigger] after[a]).key@
        != (#[trigger] after[b]).key@ by {
        assert(after[a].key@ == before[a].key@);
        assert(after[b].key@ == before[b].key@);
    }
    assert forall|k: Seq<char>| #[trigger] has_key(after, k) <==> has_key(before, k) by {
        if has_key(after, k) {
            let j = choose|j: int| holds_key_at(after, k, j);
            assert(holds_key_at(before, k, j));
        }
        if has_key(before, k) {
            let j = choose|j: int| holds_key_at(before, k, j);
            assert(holds_key_at(after, k, j));
        }
    }
    assert forall|k: Seq<char>| #[trigger] has_key(after, k) implies entries_map(after)[k]
        == entries_map(before).insert(entry.key@, entry.value@)[k] by {
        let j = choose|j: int| holds_key_at(after, k, j);
        lookup_by_position(after, k, j);
        if k != entry.key@ {
            assert(holds_key_at(before, k, j));
            lookup_by_position(before, k, j);
        } else {
            assert(holds_key_at(after, k, i));
        }
    }
    assert(entries_map(after) =~= entries_map(before).insert(entry.key@, entry.value@));
}

/// To append an entry whose key is new sets the key to its value and leaves
/// the other keys as they are.
pub proof fn appending_sets_the_key(before: Seq<FieldEntry>, entry: FieldEntry)
    requires
        distinct_keys(before),
        !has_key(before, entry.key@),
    ensures
        distinct_keys(before.push(entry)),
        entries_map(before.push(entry)) == entries_map(before).insert(entry.key@, entry.value@),
{
    let after = before.push(entry);
    let last = before.len() as int;
    assert(holds_key_at(after, entry.key@, last));
    assert forall|a: int, b: int|
        0 <= a < after.len() && 0 <= b < after.len() && a != b implies (#[trigger] after[a]).key@
        != (#[trigger] after[b]).key@ by {
        if a < last {
            assert(after[a] == before[a]);
            assert(!holds_key_at(before, entry.key@, a));
        }
        if b < last {
            assert(after[b] == before[b]);
            assert(!holds_key_at(before, entry.key@, b));
        }
    }
    assert forall|k: Seq<char>| #[trigger] has_key(after, k) <==> (k == entry.key@ || has_key(
        before,
        k,
    )) by {
        if has_key(after, k) {
            let j = choose|j: int| holds_key_at(after, k, j);
            if j < last {
                assert(holds_key_at(before, k, j));
            }
        }
        if has_key(before, k) {
            let j = choose|j: int| holds_key_at(before, k, j);
            assert(holds_key_at(after, k, j));
        }
    }
    assert forall|k: Seq<char>| #[trigger] has_key(after, k) implies entries_map(after)[k]
        == entries_map(before).insert(entry.key@, entry.value@)[k] by {
        let j = choose|j: int| holds_key_at(after, k, j);
        lookup_by_position(after, k, j);
        if k != entry.key@ {
            assert(holds_key_at(before, k, j));
            lookup_by_position(before, k, j);
        } else {
            assert(holds_key_at(after, k, last));
        }
    }
    assert(entries_map(after) =~= entries_map(before).insert(entry.key@, entry.value@));
}

impl View for FieldMap {
    type V = Map<Seq<char>, WireValue>;

    closed spec fn view(&self) -> Map<Seq<char>, WireValue> {
        entries_map(self.entries@)
    }
}

impl FieldMap {
    #[verifier::type_invariant]
    spec fn well_formed(self) -> bool {
        distinct_keys(self.entries@)
    }

    /// A map without fields.
    pub fn new() -> (fields: FieldMap)
        ensures
            fields@ == Map::<Seq<char>, WireValue>::empty(),
    {
        let fields = FieldMap { entries: Vec::new() };
        assert(fields@ =~= Map::<Seq<char>, WireValue>::empty());
        fields
    }

    fn position(&self, key: &str) -> (found: Option<usize>)
        ensures
            match found {
                Some(i) => holds_key_at(self.entries@, key@, i as int),
                None => forall|i: int| !holds_key_at(self.entries@, key@, i),
            },
    {
        let mut i: usize = 0;
        while i < self.entries.len()
            invariant
                0 <= i <= self.entries.len(),
                forall|j: int| 0 <= j < i ==> !holds_key_at(self.entries@, key@, j),
            decreases self.entries.len() - i,
        {
            if str_eq(self.entries[i].key.as_str(), key) {
                return Some(i);
            }
            i = i + 1;
        }
        None
    }

    /// Sets `key` to `value`, in place of what it was set to before.
    pub fn insert(&mut self, key: String, value: FirestoreValue)
        ensures
            final(self)@ == old(self)@.insert(key@, value@),
    {
        proof {
            use_type_invariant(&*self);
        }
        let ghost before = self.entries@;
        let found = self.position(key.as_str());
        let entry = FieldEntry { key, value };
        let mut taken = FieldMap { entries: Vec::new() };
        core::mem::swap(self, &mut taken);
        let mut entries = taken.entries;
        match found {
            Some(i) => {
                proof {
                    replacing_sets_the_key(before, i as int, entry);
                }
                entries.set(i, entry);
            },
            None => {
                proof {
                    assert(!has_key(before, entry.key@)) by {
                        if has_key(before, entry.key@) {
                            let j = choose|j: int| holds_key_at(before, entry.key@, j);
                            assert(holds_key_at(before, entry.key@, j));
                        }
                    }
                    appending_sets_the_key(before, entry);
                }
                entries.push(entry);
            },
        }
        *self = FieldMap { entries };
    }

    /// The value that `key` is set to.
    pub fn get(&self, key: &str) -> (value: Option<&FirestoreValue>)
        ensures
            match value {
                Some(v) => self@.contains_key(key@) && v@ == self@[key@],
                None => !self@.contains_key(key@),
            },
    {
        proof {
            use_type_invariant(self);
        }
        match self.position(key) {
            Some(i) => {
                proof {
                    lookup_by_position(self.entries@, key@, i as int);
                }
                Some(&self.entries[i].value)
            },
            None => None,
        }
    }

    /// The text under `key`, where a string value stands there.
    pub fn get_str(&self, key: &str) -> (text: Option<&str>)
        ensures
            match text {
                Some(t) => text_at(self@, key@) == Some(t@),
                None => text_at(self@, key@).is_none(),
            },
    {
        match self.get(key) {
            Some(value) => value.as_string(),
            None => None,
        }
    }

    /// The truth value under `key`, where a boolean value stands there.
    pub fn get_bool(&self, key: &str) -> (flag: Option<bool>)
        ensures
            flag == flag_at(self@, key@),
    {
        match self.get(key) {
            Some(value) => value.as_boolean(),
            None => None,
        }
    }

    /// The integer under `key`, where an integer value stands there.
    pub fn get_int(&self, key: &str) -> (number: Option<i64>)
        ensures
            number == number_at(self@, key@),
    {
        match self.get(key) {
            Some(value) => value.as_integer(),
            None => None,
        }
    }

    /// The entries of the map, each key once.
    pub fn entries(&self) -> (entries: &Vec<FieldEntry>)
        ensures
            distinct_keys(entries@),
            self@ == entries_map(entries@),
    {
        proof {
            use_type_invariant(self);
        }
        &self.entries
    }
}

impl WireValue {
    /// The text of a string value.
    pub open spec fn text(self) -> Option<Seq<char>> {
        match self {
            WireValue::Text(s) => Some(s),
            _ => None,
        }
    }

    /// The integer that an integer value denotes. `None` too where its text is
    /// no decimal notation of a 64-bit integer.
    pub open spec fn number(self) -> Option<i64> {
        match self {
            WireValue::Integer(s) => i64_of(s),
            _ => None,
        }
    }

    /// The truth value of a boolean value.
    pub open spec fn flag(self) -> Option<bool> {
        match self {
            WireValue::Boolean(b) => Some(b),
            _ => None,
        }
    }

    /// The text of a timestamp value.
    pub open spec fn instant(self) -> Option<Seq<char>> {
        match self {
            WireValue::Timestamp(s) => Some(s),
            _ => None,
        }
    }

    /// The bit pattern of a double value.
    pub open spec fn bits(self) -> Option<u64> {
        match self {
            WireValue::Double(b) => Some(b),
            _ => None,
        }
    }
}

/// The text that a map holds under `key`: `None` where the key is missing
/// or holds a value of another type.
pub open spec fn text_at(fields: Map<Seq<char>, WireValue>, key: Seq<char>) -> Option<Seq<char>> {
    if fields.contains_key(key) {
        fields[key].text()
    } else {
        None
    }
}

/// The truth value that a map holds under `key`.
pub open spec fn flag_at(fields: Map<Seq<char>, WireValue>, key: Seq<char>) -> Option<bool> {
    if fields.contains_key(key) {
        fields[key].flag()
    } else {
        None
    }
}

/// The integer that a map holds under `key`.
pub open spec fn number_at(fields: Map<Seq<char>, WireValue>, key: Seq<char>) -> Option<i64> {
    if fields.contains_key(key) {
        fields[key].number()
    } else {
        None
    }
}

impl FirestoreValue {
    /// A string value.
    pub fn string(val: &str) -> (value: FirestoreValue)
        ensures
            value@ == WireValue::Text(val@),
    {
        FirestoreValue::StringValue(String::from_str(val))
    }

    /// An integer value: `val` in decimal notation.
    pub fn integer(val: i64) -> (value: FirestoreValue)
        ensures
            value@ == WireValue::Integer(signed_decimal(val as int)),
    {
        FirestoreValue::IntegerValue(i64_to_decimal(val))
    }

    /// A double value, given by the 64 bits of its IEEE 754 pattern.
    pub fn double(bits: u64) -> (value: FirestoreValue)
        ensures
            value@ == WireValue::Double(bits),
    {
        FirestoreValue::DoubleValue(bits)
    }

    /// A boolean value.
    pub fn boolean(val: bool) -> (value: FirestoreValue)
        ensures
            value@ == WireValue::Boolean(val),
    {
        FirestoreValue::BooleanValue(val)
    }

    /// A timestamp value: `val` is taken as RFC 3339 text and not examined.
    pub fn timestamp(val: &str) -> (value: FirestoreValue)
        ensures
            value@ == WireValue::Timestamp(val@),
    {
        FirestoreValue::TimestampValue(String::from_str(val))
    }

    /// The null value.
    pub fn null() -> (value: FirestoreValue)
        ensures
            value@ == WireValue::Null,
    {
        FirestoreValue::NullValue
    }

    /// The text, where this is a string value.
    pub fn as_string(&self) -> (text: Option<&str>)
        ensures
            match text {
                Some(t) => self@.text() == Some(t@),
                None => self@.text().is_none(),
            },
    {
        match self {
            FirestoreValue::StringValue(s) => Some(s.as_str()),
            _ => None,
        }
    }

    /// The integer, where this is an integer value whose text denotes one.
    pub fn as_integer(&self) -> (number: Option<i64>)
        ensures
            number == self@.number(),
    {
        match self {
            FirestoreValue::IntegerValue(s) => parse_i64(s.as_str()),
            _ => None,
        }
    }

    /// The truth value, where this is a boolean value.
    pub fn as_boolean(&self) -> (flag: Option<bool>)
        ensures
            flag == self@.flag(),
    {
        match self {
            FirestoreValue::BooleanValue(b) => Some(*b),
            _ => None,
        }
    }

    /// The text, where this is a timestamp value.
    pub fn as_timestamp(&self) -> (text: Option<&str>)
        ensures
            match text {
                Some(t) => self@.instant() == Some(t@),
                None => self@.instant().is_none(),
            },
    {
        match self {
            FirestoreValue::TimestampValue(s) => Some(s.as_str()),
            _ => None,
        }
    }

    /// The bit pattern, where this is a double value.
    pub fn as_double(&self) -> (bits: Option<u64>)
        ensures
            bits == self@.bits(),
    {
        match self {
            FirestoreValue::DoubleValue(b) => Some(*b),
            _ => None,
        }
    }
}

/// An integer written to the wire is read back as itself.
pub proof fn integer_survives_the_wire(val: i64)
    ensures
        WireValue::Integer(signed_decimal(val as int)).number() == Some(val),
{
    crate::decimal::integer_round_trip(val);
}

/// A document of the store.
#[derive(Debug, PartialEq)]
pub struct FirestoreDocument {
    /// The full resource name; its last segment is the document's id.
    pub name: String,
    pub fields: FieldMap,
    pub create_time: Option<String>,
    pub update_time: Option<String>,
}

/// One page of a collection listing.
#[derive(Debug, PartialEq)]
pub struct ListDocumentsResponse {
    pub documents: Vec<FirestoreDocument>,
    pub next_page_token: Option<String>,
}

/// One line of a query's answer. A line may carry no document.
#[derive(Debug, PartialEq)]
pub struct RunQueryResponseItem {
    pub document: Option<FirestoreDocument>,
}

/// The last segment of a resource name: the document's id.
pub fn extract_document_id(name: &str) -> (id: String)
    ensures
        id@ == last_segment(name@),
{
    last_segment_of(name)
}

/// The documents that the lines of a query's answer carry, in their order.
pub open spec fn carried_documents(items: Seq<RunQueryResponseItem>) -> Seq<FirestoreDocument>
    decreases items.len(),
{
    if items.len() == 0 {
        Seq::empty()
    } else {
        match items.last().document {
            Some(doc) => carried_documents(items.drop_last()).push(doc),
            None => carried_documents(items.drop_last()),
        }
    }
}

/// Keeps the documents of a query's answer and drops the lines without one.
pub fn collect_documents(items: Vec<RunQueryResponseItem>) -> (documents: Vec<FirestoreDocument>)
    ensures
        documents@ == carried_documents(items@),
{
    let mut items = items;
    let ghost all = items@;
    let mut reversed: Vec<FirestoreDocument> = Vec::new();
    while items.len() > 0
        invariant
            items@.len() <= all.len(),
            items@ == all.subrange(0, items@.len() as int),
            carried_documents(all) == carried_documents(items@) + reversed@.reverse(),
        decreases items.len(),
    {
        let ghost before = items@;
        let ghost done = reversed@;
        let item = items.pop().unwrap();
        proof {
            assert(items@ == before.drop_last());
            assert(item == before.last());
        }
        match item.document {
            Some(doc) => {
                reversed.push(doc);
                proof {
                    assert(reversed@.reverse() =~= seq![doc] + done.reverse());
                    assert(carried_documents(before) == carried_documents(items@).push(doc));
                    assert(carried_documents(all) =~= carried_documents(items@) + reversed@.reverse());
                }
            },
            None => {},
        }
    }
    let mut documents: Vec<FirestoreDocument> = Vec::new();
    let ghost stack = reversed@;
    proof {
        assert(items@ =~= Seq::<RunQueryResponseItem>::empty());
        assert(carried_documents(all) =~= stack.reverse());
    }
    while reversed.len() > 0
        invariant
            reversed@.len() <= stack.len(),
            reversed@ == stack.subrange(0, reversed@.len() as int),
            documents@ == stack.subrange(reversed@.len() as int, stack.len() as int).reverse(),
        decreases reversed.len(),
    {
        let ghost n = reversed@.len() as int;
        let doc = reversed.pop().unwrap();
        documents.push(doc);
        proof {
            assert(documents@ =~= stack.subrange(n - 1, stack.len() as int).reverse());
        }
    }
    proof {
        assert(stack.subrange(0, stack.len() as int) =~= stack);
    }
    documents
}

/// The collection that a query reads.
#[derive(Debug, Clone, PartialEq)]
pub struct CollectionSelector {
    pub collection_id: String,
}

/// The field that a filter or an ordering speaks of.
#[derive(Debug, Clone, PartialEq)]
pub struct FieldReference {
    pub field_path: String,
}

/// A comparison of one field with a value.
#[derive(Debug, PartialEq)]
pub struct FieldFilter {
    pub field: FieldReference,
    pub op: String,
    pub value: FirestoreValue,
}

/// Several filters joined by one operator.
#[derive(Debug, PartialEq)]
pub struct CompositeFilter {
    pub op: String,
    pub filters: Vec<Filter>,
}

/// A filter of a structured query: a field filter or a composite one.
#[derive(Debug, PartialEq)]
pub struct Filter {
    pub field_filter: Option<FieldFilter>,
    pub composite_filter: Option<CompositeFilter>,
}

/// One ordering of a query's answer.
#[derive(Debug, Clone, PartialEq)]
pub struct OrderBy {
    pub field: FieldReference,
    pub direction: String,
}

/// A structured query against one parent path.
#[derive(Debug, PartialEq)]
pub struct StructuredQuery {
    pub from: Vec<CollectionSelector>,
    pub filter: Option<Filter>,
    pub order_by: Option<Vec<OrderBy>>,
    pub limit: Option<i32>,
    pub offset: Option<i32>,
}

impl Filter {
    /// The filter that compares the field at `field_path` with `value` by `op`.
    pub fn field(field_path: &str, op: &str, value: FirestoreValue) -> (filter: Filter)
        ensures
            filter.composite_filter.is_none(),
            filter.field_filter matches Some(f) && f.field.field_path@ == field_path@ && f.op@
                == op@ && f.value == value,
    {
        Filter {
            field_filter: Some(
                FieldFilter {
                    field: FieldReference { field_path: String::from_str(field_path) },
                    op: String::from_str(op),
                    value,
                },
            ),
            composite_filter: None,
        }
    }

    /// The filter that holds where all of `filters` hold.
    pub fn and(filters: Vec<Filter>) -> (filter: Filter)
        ensures
            filter.field_filter.is_none(),
            filter.composite_filter matches Some(c) && c.op@ == "AND"@ && c.filters == filters,
    {
        Filter {
            field_filter: None,
            composite_filter: Some(CompositeFilter { op: String::from_str("AND"), filters }),
        }
    }
}

impl OrderBy {
    /// Ascending order by the field at `field_path`.
    pub fn asc(field_path: &str) -> (order: OrderBy)
        ensures
            order.field.field_path@ == field_path@,
            order.direction@ == "ASCENDING"@,
    {
        OrderBy {
            field: FieldReference { field_path: String::from_str(field_path) },
            direction: String::from_str("ASCENDING"),
        }
    }
}

/// The verb of a request.
#[derive(Clone, Copy, PartialEq, Eq, Structural, Debug)]
pub enum HttpMethod {
    Get,
    Post,
    Patch,
    Delete,
}

/// A request to the store, ready to be sent. The body, where there is one,
/// is JSON and is supplied by the sender.
#[derive(Debug, Clone, PartialEq)]
pub struct HttpRequest {
    pub method: HttpMethod,
    pub url: String,
    pub has_body: bool,
}

/// What came of sending a request.
#[derive(Debug, Clone, PartialEq)]
pub enum HttpOutcome {
    /// No answer was had: the request could not be sent or the answer not read.
    Failed { error: String },
    /// The store answered with this status and body.
    Answered { status: u16, body: String },
}

/// Why a request to the store did not succeed.
#[derive(Debug, Clone, PartialEq)]
pub enum RemoteError {
    /// The store could not be reached. The next cycle tries again.
    Unavailable { message: String },
    /// The store answered and refused.
    Rejected { status: u16, body: String },
}

/// What a failed request says in words, for the operation `operation`.
pub open spec fn described(error: RemoteError, operation: Seq<char>) -> Seq<char> {
    match error {
        RemoteError::Unavailable { message } => "Firestore "@ + operation + " failed: "@ + message@,
        RemoteError::Rejected { status, body } => "Firestore "@ + operation + " error (HTTP "@
            + crate::decimal::decimal(status as nat) + "): "@ + body@,
    }
}

impl RemoteError {
    /// The failure in words: which operation failed, and with what status
    /// and body where the store answered.
    pub fn describe(&self, operation: &str) -> (text: String)
        ensures
            text@ == described(*self, operation@),
    {
        let mut text = String::from_str("Firestore ");
        text.append(operation);
        match self {
            RemoteError::Unavailable { message } => {
                text.append(" failed: ");
                text.append(message.as_str());
            },
            RemoteError::Rejected { status, body } => {
                text.append(" error (HTTP ");
                crate::decimal::push_decimal(&mut text, *status as u64);
                text.append("): ");
                text.append(body.as_str());
            },
        }
        text
    }
}

/// Whether a status is one of success.
pub open spec fn is_success(status: u16) -> bool {
    200 <= status < 300
}

/// The answer of the store to a request, by what came of sending it.
pub open spec fn classified(outcome: HttpOutcome) -> Result<String, RemoteError> {
    match outcome {
        HttpOutcome::Failed { error } => Err(RemoteError::Unavailable { message: error }),
        HttpOutcome::Answered { status, body } => if is_success(status) {
            Ok(body)
        } else {
            Err(RemoteError::Rejected { status, body })
        },
    }
}

/// Tells an answer of success, whose body is handed on, from a failure of
/// the transport and from a refusal, which keeps status and body.
pub fn classify(outcome: HttpOutcome) -> (answer: Result<String, RemoteError>)
    ensures
        answer == classified(outcome),
{
    match outcome {
        HttpOutcome::Failed { error } => Err(RemoteError::Unavailable { message: error }),
        HttpOutcome::Answered { status, body } => {
            if status >= 200 && status < 300 {
                Ok(body)
            } else {
                Err(RemoteError::Rejected { status, body })
            }
        },
    }
}

/// The answer to a request that deletes a document. That the document was
/// not there is no failure.
pub open spec fn classified_delete(outcome: HttpOutcome) -> Result<(), RemoteError> {
    match outcome {
        HttpOutcome::Failed { error } => Err(RemoteError::Unavailable { message: error }),
        HttpOutcome::Answered { status, body } => if is_success(status) || status == 404 {
            Ok(())
        } else {
            Err(RemoteError::Rejected { status, body })
        },
    }
}

/// Classifies the answer to a request that deletes a document.
pub fn classify_delete(outcome: HttpOutcome) -> (answer: Result<(), RemoteError>)
    ensures
        answer == classified_delete(outcome),
{
    match outcome {
        HttpOutcome::Failed { error } => Err(RemoteError::Unavailable { message: error }),
        HttpOutcome::Answered { status, body } => {
            if (status >= 200 && status < 300) || status == 404 {
                Ok(())
            } else {
                Err(RemoteError::Rejected { status, body })
            }
        },
    }
}

/// Where the documents of a project are found.
pub open spec fn base_url_of(project_id: Seq<char>) -> Seq<char> {
    "https://firestore.googleapis.com/v1/projects/"@ + project_id
        + "/databases/(default)/documents"@
}

/// The address of `path` below the documents of a project, with the key.
pub open spec fn keyed_url(project_id: Seq<char>, api_key: Seq<char>, path: Seq<char>) -> Seq<
    char,
> {
    base_url_of(project_id) + "/"@ + path + "?key="@ + api_key
}

/// The address that creates the document `document_id` in a collection.
pub open spec fn create_url(
    project_id: Seq<char>,
    api_key: Seq<char>,
    collection_path: Seq<char>,
    document_id: Seq<char>,
) -> Seq<char> {
    base_url_of(project_id) + "/"@ + collection_path + "?documentId="@ + document_id + "&key="@
        + api_key
}

/// The address that lists a collection, one page at a time.
pub open spec fn list_url(
    project_id: Seq<char>,
    api_key: Seq<char>,
    collection_path: Seq<char>,
    page_size: Option<i32>,
    page_token: Option<Seq<char>>,
) -> Seq<char> {
    let plain = keyed_url(project_id, api_key, collection_path);
    let sized = match page_size {
        Some(size) => plain + "&pageSize="@ + signed_decimal(size as int),
        None => plain,
    };
    match page_token {
        Some(token) => sized + "&pageToken="@ + token,
        None => sized,
    }
}

/// The address that runs a query below `parent_path`.
pub open spec fn query_url(project_id: Seq<char>, api_key: Seq<char>, parent_path: Seq<char>) -> Seq<
    char,
> {
    base_url_of(project_id) + "/"@ + parent_path + ":runQuery?key="@ + api_key
}

/// The document store of one project, reached with a pre-shared key.
#[derive(Debug, Clone, PartialEq)]
pub struct FirestoreClient {
    project_id: String,
    api_key: String,
}

impl FirestoreClient {
    /// The project whose documents are addressed.
    pub closed spec fn project(&self) -> Seq<char> {
        self.project_id@
    }

    /// The key that every request carries.
    pub closed spec fn key(&self) -> Seq<char> {
        self.api_key@
    }

    pub fn new(project_id: &str, api_key: &str) -> (client: FirestoreClient)
        ensures
            client.project() == project_id@,
            client.key() == api_key@,
    {
        FirestoreClient {
            project_id: String::from_str(project_id),
            api_key: String::from_str(api_key),
        }
    }

    /// The address below which the project's documents stand.
    pub fn base_url(&self) -> (url: String)
        ensures
            url@ == base_url_of(self.project()),
    {
        let mut url = String::from_str("https://firestore.googleapis.com/v1/projects/");
        url.append(self.project_id.as_str());
        url.append("/databases/(default)/documents");
        url
    }

    /// The address of `path`, with the key.
    pub fn url_with_key(&self, path: &str) -> (url: String)
        ensures
            url@ == keyed_url(self.project(), self.key(), path@),
    {
        let mut url = self.base_url();
        url.append("/");
        url.append(path);
        url.append("?key=");
        url.append(self.api_key.as_str());
        url
    }

    /// The request that reads the document at `path`.
    pub fn get_document_request(&self, path: &str) -> (request: HttpRequest)
        ensures
            request.method == HttpMethod::Get,
            !request.has_body,
            request.url@ == keyed_url(self.project(), self.key(), path@),
    {
        HttpRequest { method: HttpMethod::Get, url: self.url_with_key(path), has_body: false }
    }

    /// The request that creates the document `document_id` in the collection
    /// at `collection_path`. Its body holds the fields.
    pub fn create_document_request(&self, collection_path: &str, document_id: &str) -> (request:
        HttpRequest)
        ensures
            request.method == HttpMethod::Post,
            request.has_body,
            request.url@ == create_url(
                self.project(),
                self.key(),
                collection_path@,
                document_id@,
            ),
    {
        let mut url = self.base_url();
        url.append("/");
        url.append(collection_path);
        url.append("?documentId=");
        url.append(document_id);
        url.append("&key=");
        url.append(self.api_key.as_str());
        HttpRequest { method: HttpMethod::Post, url, has_body: true }
    }

    /// The request that writes the fields of the document at `path`. The
    /// store refuses it where the document does not exist.
    pub fn update_document_request(&self, path: &str) -> (request: HttpRequest)
        ensures
            request.method == HttpMethod::Patch,
            request.has_body,
            request.url@ == keyed_url(self.project(), self.key(), path@),
    {
        HttpRequest { method: HttpMethod::Patch, url: self.url_with_key(path), has_body: true }
    }

    /// The request that deletes the document at `path`.
    pub fn delete_document_request(&self, path: &str) -> (request: HttpRequest)
        ensures
            request.method == HttpMethod::Delete,
            !request.has_body,
            request.url@ == keyed_url(self.project(), self.key(), path@),
    {
        HttpRequest { method: HttpMethod::Delete, url: self.url_with_key(path), has_body: false }
    }

    /// The request that lists one page of the collection at `collection_path`.
    pub fn list_documents_request(
        &self,
        collection_path: &str,
        page_size: Option<i32>,
        page_token: Option<&str>,
    ) -> (request: HttpRequest)
        ensures
            request.method == HttpMethod::Get,
            !request.has_body,
            request.url@ == list_url(
                self.project(),
                self.key(),
                collection_path@,
                page_size,
                match page_token {
                    Some(token) => Some(token@),
                    None => None,
                },
            ),
    {
        let mut url = self.url_with_key(collection_path);
        match page_size {
            Some(size) => {
                url.append("&pageSize=");
                let digits = i64_to_decimal(size as i64);
                url.append(digits.as_str());
            },
            None => {},
        }
        match page_token {
            Some(token) => {
                url.append("&pageToken=");
                url.append(token);
            },
            None => {},
        }
        HttpRequest { method: HttpMethod::Get, url, has_body: false }
    }

    /// The request that runs a structured query below `parent_path`. Its
    /// body holds the query.
    pub fn run_query_request(&self, parent_path: &str) -> (request: HttpRequest)
        ensures
            request.method == HttpMethod::Post,
            request.has_body,
            request.url@ == query_url(self.project(), self.key(), parent_path@),
    {
        let mut url = self.base_url();
        url.append("/");
        url.append(parent_path);
        url.append(":runQuery?key=");
        url.append(self.api_key.as_str());
        HttpRequest { method: HttpMethod::Post, url, has_body: true }
    }
}

} // verus!
