//! The download of one page: what each document does to the local table.

use vstd::prelude::*;
use vstd::string::*;
use crate::config::firebase::{
    CollectionSelector, Filter, FirestoreDocument, FirestoreValue, OrderBy, StructuredQuery,
    WireValue, extract_document_id,
};
use crate::sync::mapper::{
    MappingError, Record, deleted_line, error_keys, from_wire, inbound_record, is_tombstone,
    mismatched, mismatched_keys, read_version, reads_as_tombstone, version_in, version_line,
};
use crate::sync::push::{SyncRow, SyncStatus};
use crate::sync::tables::EntityKind;
use crate::text::last_segment;

verus! {

/// A row as it comes down from the remote store. It is written as synced,
/// with its flags cleared.
#[derive(Debug, Clone, PartialEq)]
pub struct IncomingRow {
    pub remote_id: String,
    pub court_id: String,
    pub record: Record,
    pub version: i64,
    /// Seconds since the Unix epoch at the download.
    pub last_synced_at: i64,
}

/// Why a document is passed over.
#[derive(Clone, Copy, PartialEq, Eq, Structural, Debug)]
pub enum SkipReason {
    /// The document's name ends in no identifier.
    NoDocumentId,
    /// The local row holds changes that are not uploaded yet: it wins.
    LocalPending,
}

/// What a downloaded document does to the local table.
#[derive(Debug, Clone, PartialEq)]
pub enum PullAction {
    /// Nothing is written.
    Skip(SkipReason),
    /// The local row of that identifier is deleted, if there is one.
    DeleteLocal { remote_id: String },
    /// The row is inserted, or written over the local row of its identifier.
    /// `errors` lists the keys that held a value of another type.
    Upsert { row: IncomingRow, errors: Vec<MappingError> },
}

/// A downloaded document, with the sync status of the local row that has its
/// identifier, `None` where there is no such row.
#[derive(Debug, PartialEq)]
pub struct Pulled {
    pub document: FirestoreDocument,
    pub local: Option<SyncStatus>,
}

/// The keys of a document that hold a value of another type than their
/// column: those of the key table, then the soft-delete mark and the version.
pub open spec fn pull_errors(kind: EntityKind, fields: Map<Seq<char>, WireValue>) -> Seq<Seq<char>> {
    let columns = mismatched_keys(kind.keys(), fields, kind.keys().len());
    let marked = if mismatched(deleted_line(), fields) {
        columns.push("isDeleted"@)
    } else {
        columns
    };
    if mismatched(version_line(), fields) {
        marked.push("version"@)
    } else {
        marked
    }
}

/// Whether `action` is what the download of `document` does, given the sync
/// status `local` of the local row with its identifier. A document without
/// an identifier is passed over. A pending local row wins over whatever the
/// document holds. A tombstone deletes the local row. Every other document
/// is written.
pub open spec fn pulls(
    action: &PullAction,
    kind: EntityKind,
    document: &FirestoreDocument,
    local: Option<SyncStatus>,
    tenant: Seq<char>,
    at: i64,
) -> bool {
    let id = last_segment(document.name@);
    let fields = document.fields@;
    if id.len() == 0 {
        *action == PullAction::Skip(SkipReason::NoDocumentId)
    } else if local == Some(SyncStatus::Pending) {
        *action == PullAction::Skip(SkipReason::LocalPending)
    } else if is_tombstone(fields) {
        action matches PullAction::DeleteLocal { remote_id } && remote_id@ == id
    } else {
        action matches PullAction::Upsert { row, errors } && row.remote_id@ == id && row.court_id@
            == tenant && row.record@ == inbound_record(kind.keys(), fields) && row.version
            == version_in(fields) && row.last_synced_at == at && error_keys(errors@) == pull_errors(
            kind,
            fields,
        )
    }
}

/// What the download of `document` does to the local table at second `at`.
pub fn pull_action(
    kind: EntityKind,
    document: &FirestoreDocument,
    local: Option<SyncStatus>,
    tenant: &str,
    at: i64,
) -> (action: PullAction)
    ensures
        pulls(&action, kind, document, local, tenant@, at),
{
    let remote_id = extract_document_id(document.name.as_str());
    if remote_id.as_str().is_empty() {
        return PullAction::Skip(SkipReason::NoDocumentId);
    }
    match local {
        Some(SyncStatus::Pending) => {
            return PullAction::Skip(SkipReason::LocalPending);
        },
        _ => {},
    }
    if reads_as_tombstone(&document.fields) {
        return PullAction::DeleteLocal { remote_id };
    }
    let table = kind.key_table();
    let (record, mut errors) = from_wire(&table, &document.fields);
    match document.fields.get("isDeleted") {
        Some(wire) => {
            if wire.as_boolean().is_none() {
                let ghost before = errors@;
                errors.push(MappingError { key: String::from_str("isDeleted") });
                proof {
                    assert(error_keys(errors@) =~= error_keys(before).push("isDeleted"@));
                }
            }
        },
        None => {},
    }
    match document.fields.get("version") {
        Some(wire) => {
            if wire.as_integer().is_none() {
                let ghost before = errors@;
                errors.push(MappingError { key: String::from_str("version") });
                proof {
                    assert(error_keys(errors@) =~= error_keys(before).push("version"@));
                }
            }
        },
        None => {},
    }
    PullAction::Upsert {
        row: IncomingRow {
            remote_id,
            court_id: String::from_str(tenant),
            record,
            version: read_version(&document.fields),
            last_synced_at: at,
        },
        errors,
    }
}

/// What the download of a page does, document by document. A document that
/// cannot be read is passed over or read in part; the others are not touched
/// by that.
pub fn plan_pull(kind: EntityKind, page: &Vec<Pulled>, tenant: &str, at: i64) -> (actions: Vec<
    PullAction,
>)
    ensures
        actions@.len() == page@.len(),
        forall|i: int|
            0 <= i < page@.len() ==> pulls(
                #[trigger] &actions@[i],
                kind,
                &page@[i].document,
                page@[i].local,
                tenant@,
                at,
            ),
{
    let mut actions: Vec<PullAction> = Vec::new();
    let mut i: usize = 0;
    while i < page.len()
        invariant
            0 <= i <= page@.len(),
            actions@.len() == i,
            forall|j: int|
                0 <= j < i ==> pulls(
                    #[trigger] &actions@[j],
                    kind,
                    &page@[j].document,
                    page@[j].local,
                    tenant@,
                    at,
                ),
        decreases page@.len() - i,
    {
        let action = pull_action(kind, &page[i].document, page[i].local, tenant, at);
        actions.push(action);
        i = i + 1;
    }
    actions
}

/// The local row after a downloaded row was written: over the row of its
/// identifier where there is one, which keeps its local key, its soft-delete
/// mark and its version, and as a new row under `new_local_id` otherwise.
/// The version of a row rises by confirmed uploads alone.
pub open spec fn merged_row(existing: Option<SyncRow>, incoming: IncomingRow, new_local_id: i64) -> SyncRow {
    match existing {
        Some(old) => SyncRow {
            record: incoming.record,
            sync_status: SyncStatus::Synced,
            is_new: false,
            has_changes: false,
            last_synced_at: Some(incoming.last_synced_at),
            ..old
        },
        None => SyncRow {
            local_id: new_local_id,
            remote_id: Some(incoming.remote_id),
            record: incoming.record,
            is_deleted: Some(false),
            version: Some(incoming.version),
            sync_status: SyncStatus::Synced,
            is_new: false,
            has_changes: false,
            last_synced_at: Some(incoming.last_synced_at),
        },
    }
}

/// The local row of an identifier after `action`: `None` where there is
/// none, or none any more.
pub open spec fn row_after_pull(existing: Option<SyncRow>, action: PullAction, new_local_id: i64) -> Option<
    SyncRow,
> {
    match action {
        PullAction::Skip(_) => existing,
        PullAction::DeleteLocal { .. } => None,
        PullAction::Upsert { row, .. } => Some(merged_row(existing, row, new_local_id)),
    }
}

/// Writes a downloaded row over the local row of its identifier, or makes a
/// new row under `new_local_id`.
pub fn merge(existing: Option<SyncRow>, incoming: IncomingRow, new_local_id: i64) -> (row: SyncRow)
    ensures
        row == merged_row(existing, incoming, new_local_id),
{
    match existing {
        Some(old) => SyncRow {
            local_id: old.local_id,
            remote_id: old.remote_id,
            record: incoming.record,
            is_deleted: old.is_deleted,
            version: old.version,
            sync_status: SyncStatus::Synced,
            is_new: false,
            has_changes: false,
            last_synced_at: Some(incoming.last_synced_at),
        },
        None => SyncRow {
            local_id: new_local_id,
            remote_id: Some(incoming.remote_id),
            record: incoming.record,
            is_deleted: Some(false),
            version: Some(incoming.version),
            sync_status: SyncStatus::Synced,
            is_new: false,
            has_changes: false,
            last_synced_at: Some(incoming.last_synced_at),
        },
    }
}

/// The most documents that one cycle downloads of one entity type. What is
/// left comes with a later cycle.
pub const PAGE_SIZE: i32 = 500;

/// Whether `query` asks for the documents of `kind` that were updated after
/// `since`, oldest first, one page of them.
pub open spec fn asks_for_updates(query: &StructuredQuery, kind: EntityKind, since: Seq<char>) -> bool {
    &&& query.from@.len() == 1
    &&& query.from@[0].collection_id@ == kind.collection_name()
    &&& query.filter matches Some(filter)
    &&& filter.composite_filter.is_none()
    &&& filter.field_filter matches Some(field)
    &&& field.field.field_path@ == "updatedAt"@
    &&& field.op@ == "GREATER_THAN"@
    &&& field.value@ == WireValue::Timestamp(since)
    &&& query.order_by matches Some(orders)
    &&& orders@.len() == 1
    &&& orders@[0].field.field_path@ == "updatedAt"@
    &&& orders@[0].direction@ == "ASCENDING"@
    &&& query.limit == Some(PAGE_SIZE)
    &&& query.offset.is_none()
}

/// The query that downloads what changed remotely after `since`.
pub fn pull_query(kind: EntityKind, since: &str) -> (query: StructuredQuery)
    ensures
        asks_for_updates(&query, kind, since@),
{
    let mut from: Vec<CollectionSelector> = Vec::new();
    from.push(CollectionSelector { collection_id: String::from_str(kind.collection()) });
    let mut orders: Vec<OrderBy> = Vec::new();
    orders.push(OrderBy::asc("updatedAt"));
    StructuredQuery {
        from,
        filter: Some(Filter::field("updatedAt", "GREATER_THAN", FirestoreValue::timestamp(since))),
        order_by: Some(orders),
        limit: Some(PAGE_SIZE),
        offset: None,
    }
}

} // verus!
