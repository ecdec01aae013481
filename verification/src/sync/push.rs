//! The upload of one row: what is planned, which requests follow one
//! another, and what becomes of the local row.

use vstd::prelude::*;
use vstd::string::*;
use crate::config::firebase::{
    FieldMap, FirestoreClient, HttpMethod, HttpOutcome, HttpRequest, RemoteError, WireValue,
    classified, classified_delete, classify, classify_delete, create_url, keyed_url,
};
use crate::sync::clock::{fresh_id_has_no_slash, fresh_remote_id, is_fresh_id, read_clock};
use crate::sync::mapper::{Record, document_fields, to_document};
use crate::sync::tables::EntityKind;
use crate::text::{has_char, last_segment, last_segment_of_joined};

verus! {

/// Whether a row holds changes that the remote store has not confirmed.
#[derive(Clone, Copy, PartialEq, Eq, Structural, Debug)]
pub enum SyncStatus {
    Pending,
    Synced,
}

/// One local row of a synchronised table: its sync state and its mapped
/// columns.
#[derive(Debug, Clone, PartialEq)]
pub struct SyncRow {
    /// The local primary key. It is never transmitted.
    pub local_id: i64,
    /// The identifier under which the row is known remotely. It is set on
    /// the first upload and stays.
    pub remote_id: Option<String>,
    pub record: Record,
    pub is_deleted: Option<bool>,
    pub version: Option<i64>,
    pub sync_status: SyncStatus,
    pub is_new: bool,
    pub has_changes: bool,
    /// Seconds since the Unix epoch at the last confirmed upload or download.
    pub last_synced_at: Option<i64>,
}

impl SyncRow {
    /// Whether the row is due for upload.
    pub open spec fn needs_push(&self) -> bool {
        self.sync_status == SyncStatus::Pending || self.is_new || self.has_changes
    }

    /// Whether the row is marked for deletion.
    pub open spec fn marked_deleted(&self) -> bool {
        self.is_deleted == Some(true)
    }

    /// A row that was just made locally: it is new, pending, and known to
    /// the remote store under no identifier.
    pub fn created(local_id: i64, record: Record) -> (row: SyncRow)
        ensures
            row == (SyncRow {
                local_id,
                remote_id: None,
                record,
                is_deleted: Some(false),
                version: None,
                sync_status: SyncStatus::Pending,
                is_new: true,
                has_changes: false,
                last_synced_at: None,
            }),
    {
        SyncRow {
            local_id,
            remote_id: None,
            record,
            is_deleted: Some(false),
            version: None,
            sync_status: SyncStatus::Pending,
            is_new: true,
            has_changes: false,
            last_synced_at: None,
        }
    }

    /// The row after a local edit set its columns to `record`: it holds
    /// changes and is pending.
    pub fn edited(self, record: Record) -> (row: SyncRow)
        ensures
            row == (SyncRow {
                record,
                has_changes: true,
                sync_status: SyncStatus::Pending,
                ..self
            }),
    {
        SyncRow {
            local_id: self.local_id,
            remote_id: self.remote_id,
            record,
            is_deleted: self.is_deleted,
            version: self.version,
            sync_status: SyncStatus::Pending,
            is_new: self.is_new,
            has_changes: true,
            last_synced_at: self.last_synced_at,
        }
    }

    /// The row after it was marked for deletion: it is pending, and the
    /// next upload deletes its document.
    pub fn marked_for_deletion(self) -> (row: SyncRow)
        ensures
            row == (SyncRow {
                is_deleted: Some(true),
                sync_status: SyncStatus::Pending,
                ..self
            }),
    {
        SyncRow {
            local_id: self.local_id,
            remote_id: self.remote_id,
            record: self.record,
            is_deleted: Some(true),
            version: self.version,
            sync_status: SyncStatus::Pending,
            is_new: self.is_new,
            has_changes: self.has_changes,
            last_synced_at: self.last_synced_at,
        }
    }

    /// Whether the row is due for upload.
    pub fn is_due(&self) -> (due: bool)
        ensures
            due == self.needs_push(),
    {
        self.sync_status == SyncStatus::Pending || self.is_new || self.has_changes
    }
}

/// The path below which a tenant's collections stand.
pub open spec fn parent_path_of(tenant: Seq<char>) -> Seq<char> {
    "courts/"@ + tenant
}

/// The path of a collection of a tenant.
pub open spec fn collection_path_of(tenant: Seq<char>, collection: Seq<char>) -> Seq<char> {
    parent_path_of(tenant) + "/"@ + collection
}

/// The path of a document of a tenant.
pub open spec fn document_path_of(tenant: Seq<char>, collection: Seq<char>, id: Seq<char>) -> Seq<
    char,
> {
    collection_path_of(tenant, collection) + "/"@ + id
}

/// The identifier of a document is found again in its path, provided it
/// holds no `/`.
pub proof fn document_path_ends_in_id(tenant: Seq<char>, collection: Seq<char>, id: Seq<char>)
    requires
        !has_char(id, '/'),
    ensures
        last_segment(document_path_of(tenant, collection, id)) == id,
{
    reveal_strlit("/");
    assert("/"@ =~= seq!['/']);
    last_segment_of_joined(collection_path_of(tenant, collection), id);
}

/// The path below which a tenant's collections stand.
pub fn parent_path(tenant: &str) -> (path: String)
    ensures
        path@ == parent_path_of(tenant@),
{
    let mut path = String::from_str("courts/");
    path.append(tenant);
    path
}

/// The path of a collection of a tenant.
pub fn collection_path(tenant: &str, kind: EntityKind) -> (path: String)
    ensures
        path@ == collection_path_of(tenant@, kind.collection_name()),
{
    let mut path = parent_path(tenant);
    path.append("/");
    path.append(kind.collection());
    path
}

/// The path of a document of a tenant.
pub fn document_path(tenant: &str, kind: EntityKind, id: &str) -> (path: String)
    ensures
        path@ == document_path_of(tenant@, kind.collection_name(), id@),
{
    let mut path = collection_path(tenant, kind);
    path.append("/");
    path.append(id);
    path
}

/// What the upload of one row needs: where the document stands, what is
/// written to it, and whether the row's identifier is new.
#[derive(Debug, PartialEq)]
pub struct PushPlan {
    pub local_id: i64,
    pub remote_id: String,
    /// The identifier was made for this upload. It is stored in the local row
    /// before any request is sent, so that an upload that is cut short is
    /// taken up again under the same identifier.
    pub assign_remote_id: bool,
    /// The row is marked for deletion: the document is deleted, not written.
    pub delete: bool,
    pub collection_path: String,
    pub document_path: String,
    /// The fields to write. Empty where the document is deleted.
    pub fields: FieldMap,
    /// The time of mapping, as it stands under `updatedAt`.
    pub stamp: String,
}

/// Whether `plan` is the plan for the upload of `row` under the identifier
/// and the time of mapping that it names.
pub open spec fn plans(plan: &PushPlan, kind: EntityKind, row: &SyncRow, tenant: Seq<char>) -> bool {
    &&& plan.local_id == row.local_id
    &&& match row.remote_id {
        Some(id) => plan.remote_id == id && !plan.assign_remote_id,
        None => plan.assign_remote_id,
    }
    &&& plan.delete == row.marked_deleted()
    &&& plan.collection_path@ == collection_path_of(tenant, kind.collection_name())
    &&& plan.document_path@ == document_path_of(tenant, kind.collection_name(), plan.remote_id@)
    &&& plan.fields@ == if plan.delete {
        Map::<Seq<char>, WireValue>::empty()
    } else {
        document_fields(kind.keys(), row.record@, tenant, row.is_deleted, row.version, plan.stamp@)
    }
}

/// Plans the upload of `row`. `fresh_id` becomes the row's identifier where
/// it has none yet; `stamp` is the time of mapping.
pub fn plan_push_with(
    kind: EntityKind,
    row: &SyncRow,
    tenant: &str,
    fresh_id: String,
    stamp: String,
) -> (plan: PushPlan)
    ensures
        plans(&plan, kind, row, tenant@),
        plan.stamp == stamp,
        row.remote_id.is_none() ==> plan.remote_id == fresh_id,
{
    let (remote_id, assign_remote_id) = match &row.remote_id {
        Some(id) => (id.clone(), false),
        None => (fresh_id, true),
    };
    let delete = match row.is_deleted {
        Some(b) => b,
        None => false,
    };
    let fields = if delete {
        FieldMap::new()
    } else {
        let table = kind.key_table();
        to_document(&table, &row.record, tenant, row.is_deleted, row.version, stamp.as_str())
    };
    PushPlan {
        local_id: row.local_id,
        collection_path: collection_path(tenant, kind),
        document_path: document_path(tenant, kind, remote_id.as_str()),
        remote_id,
        assign_remote_id,
        delete,
        fields,
        stamp,
    }
}

/// Plans the upload of `row`. A row without an identifier gets a freshly
/// made one, and the clock is read for the time of mapping.
pub fn plan_push(kind: EntityKind, row: &SyncRow, tenant: &str) -> (plan: PushPlan)
    ensures
        plans(&plan, kind, row, tenant@),
        row.remote_id.is_none() ==> is_fresh_id(plan.remote_id@) && last_segment(
            plan.document_path@,
        ) == plan.remote_id@,
{
    proof {
        if row.remote_id.is_none() {
            assert forall|id: Seq<char>| is_fresh_id(id) implies last_segment(
                document_path_of(tenant@, kind.collection_name(), id),
            ) == id by {
                fresh_id_has_no_slash(id);
                document_path_ends_in_id(tenant@, kind.collection_name(), id);
            }
        }
    }
    let stamp = read_clock().text;
    match &row.remote_id {
        Some(_) => plan_push_with(kind, row, tenant, String::new(), stamp),
        None => plan_push_with(kind, row, tenant, fresh_remote_id(), stamp),
    }
}

/// A request of the upload protocol.
#[derive(Clone, Copy, PartialEq, Eq, Structural, Debug)]
pub enum PushCall {
    Delete,
    Update,
    Create,
}

/// How the upload of one row ended.
#[derive(Debug, Clone, PartialEq)]
pub enum PushOutcome {
    /// The document was deleted: the local row is purged.
    Purged,
    /// The document was written: the local row is marked as synced.
    Synced,
    /// The store could not be reached or refused: the row stays pending.
    LeftPending(RemoteError),
}

/// What the upload of one row does next.
#[derive(Debug, Clone, PartialEq)]
pub enum PushStep {
    /// The identifier of the plan is stored in the local row.
    StoreRemoteId,
    /// This request is sent.
    Call(PushCall),
    /// The upload has ended.
    Settled(PushOutcome),
}

/// The first step of an upload: an identifier that was made for it is
/// stored before anything is sent; with an identifier that the row had
/// already, the first request is sent at once.
pub open spec fn first_step_of(assign_remote_id: bool, delete: bool) -> PushStep {
    if assign_remote_id {
        PushStep::StoreRemoteId
    } else {
        PushStep::Call(first_call_of(delete))
    }
}

/// The first request of an upload: a deletion for a row that is marked for
/// it, an update for every other.
pub open spec fn first_call_of(delete: bool) -> PushCall {
    if delete {
        PushCall::Delete
    } else {
        PushCall::Update
    }
}

/// What follows the answer to a request. A deletion and a creation settle
/// the upload either way. An update that fails, most often because the
/// document does not exist yet, is followed by a creation.
pub open spec fn step_after(call: PushCall, answer: Result<(), RemoteError>) -> PushStep {
    match (call, answer) {
        (PushCall::Delete, Ok(_)) => PushStep::Settled(PushOutcome::Purged),
        (PushCall::Delete, Err(e)) => PushStep::Settled(PushOutcome::LeftPending(e)),
        (PushCall::Update, Ok(_)) => PushStep::Settled(PushOutcome::Synced),
        (PushCall::Update, Err(_)) => PushStep::Call(PushCall::Create),
        (PushCall::Create, Ok(_)) => PushStep::Settled(PushOutcome::Synced),
        (PushCall::Create, Err(e)) => PushStep::Settled(PushOutcome::LeftPending(e)),
    }
}

/// What came of a request of the upload protocol. An update or a creation
/// succeeded where the store answered with success. A deletion succeeded
/// also where the document was not there.
pub open spec fn answered(call: PushCall, outcome: HttpOutcome) -> Result<(), RemoteError> {
    match call {
        PushCall::Delete => classified_delete(outcome),
        _ => match classified(outcome) {
            Ok(_) => Ok(()),
            Err(e) => Err(e),
        },
    }
}

/// Reads what came of sending the request that `call` stands for.
pub fn push_answer(call: PushCall, outcome: HttpOutcome) -> (answer: Result<(), RemoteError>)
    ensures
        answer == answered(call, outcome),
{
    match call {
        PushCall::Delete => classify_delete(outcome),
        _ => match classify(outcome) {
            Ok(_) => Ok(()),
            Err(e) => Err(e),
        },
    }
}

/// The first step of the upload that `plan` describes.
pub fn first_step(plan: &PushPlan) -> (step: PushStep)
    ensures
        step == first_step_of(plan.assign_remote_id, plan.delete),
{
    if plan.assign_remote_id {
        PushStep::StoreRemoteId
    } else {
        PushStep::Call(first_call(plan))
    }
}

/// The first request of the upload that `plan` describes. It is sent once
/// the row holds the identifier of the plan.
pub fn first_call(plan: &PushPlan) -> (call: PushCall)
    ensures
        call == first_call_of(plan.delete),
{
    if plan.delete {
        PushCall::Delete
    } else {
        PushCall::Update
    }
}

/// What the upload does after `answer` came to `call`.
pub fn next_step(call: PushCall, answer: Result<(), RemoteError>) -> (step: PushStep)
    ensures
        step == step_after(call, answer),
{
    match call {
        PushCall::Delete => match answer {
            Ok(_) => PushStep::Settled(PushOutcome::Purged),
            Err(e) => PushStep::Settled(PushOutcome::LeftPending(e)),
        },
        PushCall::Update => match answer {
            Ok(_) => PushStep::Settled(PushOutcome::Synced),
            Err(_) => PushStep::Call(PushCall::Create),
        },
        PushCall::Create => match answer {
            Ok(_) => PushStep::Settled(PushOutcome::Synced),
            Err(e) => PushStep::Settled(PushOutcome::LeftPending(e)),
        },
    }
}

/// The request that `call` stands for in the upload that `plan` describes.
pub fn push_request(client: &FirestoreClient, plan: &PushPlan, call: PushCall) -> (request:
    HttpRequest)
    ensures
        match call {
            PushCall::Delete => request.method == HttpMethod::Delete && !request.has_body
                && request.url@ == keyed_url(client.project(), client.key(), plan.document_path@),
            PushCall::Update => request.method == HttpMethod::Patch && request.has_body
                && request.url@ == keyed_url(client.project(), client.key(), plan.document_path@),
            PushCall::Create => request.method == HttpMethod::Post && request.has_body
                && request.url@ == create_url(
                client.project(),
                client.key(),
                plan.collection_path@,
                plan.remote_id@,
            ),
        },
{
    match call {
        PushCall::Delete => client.delete_document_request(plan.document_path.as_str()),
        PushCall::Update => client.update_document_request(plan.document_path.as_str()),
        PushCall::Create => client.create_document_request(
            plan.collection_path.as_str(),
            plan.remote_id.as_str(),
        ),
    }
}

/// The version after one more confirmed upload. The counter stops at the
/// largest value it can hold.
pub open spec fn next_version(version: Option<i64>) -> i64 {
    match version {
        Some(v) => if v < i64::MAX {
            (v + 1) as i64
        } else {
            v
        },
        None => 1,
    }
}

/// The local row after its upload ended, `None` where it is purged. The
/// identifier of the plan is in the row whatever came of the requests. A
/// written document marks the row as synced, clears its flags, counts its
/// version up and notes the time. A failure leaves everything else as it was.
pub open spec fn settled_row(row: SyncRow, plan: PushPlan, outcome: PushOutcome, at: i64) -> Option<
    SyncRow,
> {
    match outcome {
        PushOutcome::Purged => None,
        PushOutcome::Synced => Some(
            SyncRow {
                remote_id: Some(plan.remote_id),
                sync_status: SyncStatus::Synced,
                is_new: false,
                has_changes: false,
                version: Some(next_version(row.version)),
                last_synced_at: Some(at),
                ..row
            },
        ),
        PushOutcome::LeftPending(_) => Some(SyncRow { remote_id: Some(plan.remote_id), ..row }),
    }
}

/// What is written to the local table when an upload has ended.
#[derive(Debug, Clone, PartialEq)]
pub enum RowChange {
    /// The row is removed.
    Purge,
    /// The sync state of the row is written as this row holds it.
    Store(SyncRow),
    /// Nothing is written: the row stays as this row holds it.
    Keep(SyncRow),
}

impl RowChange {
    /// The row after the change, `None` where it is removed.
    pub open spec fn row(self) -> Option<SyncRow> {
        match self {
            RowChange::Purge => None,
            RowChange::Store(row) => Some(row),
            RowChange::Keep(row) => Some(row),
        }
    }
}

/// What is written to the local table after the upload of `row` ended with
/// `outcome` at second `at`: the row is purged after a deletion, stored
/// after a write, and kept after a failure.
pub fn settle(row: SyncRow, plan: &PushPlan, outcome: &PushOutcome, at: i64) -> (change: RowChange)
    ensures
        change.row() == settled_row(row, *plan, *outcome, at),
        match outcome {
            PushOutcome::Purged => change is Purge,
            PushOutcome::Synced => change is Store,
            PushOutcome::LeftPending(_) => change is Keep,
        },
{
    match outcome {
        PushOutcome::Purged => RowChange::Purge,
        PushOutcome::Synced => {
            let version = match row.version {
                Some(v) => if v < i64::MAX {
                    v + 1
                } else {
                    v
                },
                None => 1,
            };
            RowChange::Store(
                SyncRow {
                    local_id: row.local_id,
                    remote_id: Some(plan.remote_id.clone()),
                    record: row.record,
                    is_deleted: row.is_deleted,
                    version: Some(version),
                    sync_status: SyncStatus::Synced,
                    is_new: false,
                    has_changes: false,
                    last_synced_at: Some(at),
                },
            )
        },
        PushOutcome::LeftPending(_) => RowChange::Keep(
            SyncRow {
                local_id: row.local_id,
                remote_id: Some(plan.remote_id.clone()),
                record: row.record,
                is_deleted: row.is_deleted,
                version: row.version,
                sync_status: row.sync_status,
                is_new: row.is_new,
                has_changes: row.has_changes,
                last_synced_at: row.last_synced_at,
            },
        ),
    }
}

} // verus!
