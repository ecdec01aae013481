//! What holds of every cycle, whatever the stores hold and whatever fails.

use vstd::prelude::*;
use crate::config::firebase::{FirestoreDocument, RemoteError};
use crate::sync::clock::Instant;
use crate::sync::engine::{SyncCycle, SyncSummary, begins, nothing_confirmed_where_all_failed};
use crate::sync::pull::{IncomingRow, PullAction, merged_row, pull_errors, pulls, row_after_pull};
use crate::sync::push::{
    PushCall, PushOutcome, PushPlan, PushStep, SyncRow, SyncStatus, collection_path_of,
    first_call_of, first_step_of, plans, settled_row, step_after,
};
use crate::text::{has_char, last_segment, last_segment_of_joined};
use crate::sync::mapper::{
    KeyMapping, ScalarValue, avoids_reserved_keys, document_fields, fits, inbound_record,
    inbound_value, is_tombstone, mapping_round_trip, mismatched, mismatched_keys,
    outbound_fields, outbound_lookup, scalar_round_trip, version_in,
};
use crate::sync::tables::{EntityKind, case_keys_are_told_apart, offender_keys_are_told_apart};

verus! {

/// A cycle that finds no row due for upload and no document updated since
/// its checkpoint reports nothing pushed, nothing pulled and no failure.
pub proof fn quiet_cycle_reports_nothing(
    cycle: SyncCycle,
    tenant: String,
    now: Instant,
    checkpoint: Option<String>,
)
    requires
        begins(&cycle, tenant, now, checkpoint),
    ensures
        cycle.after_push(EntityKind::Offender, Seq::empty()).after_push(
            EntityKind::Case,
            Seq::empty(),
        ).after_pull(EntityKind::Offender, Seq::empty()).after_pull(
            EntityKind::Case,
            Seq::empty(),
        ).summary() == (SyncSummary {
            pushed_offenders: 0,
            pushed_cases: 0,
            pulled_offenders: 0,
            pulled_cases: 0,
            partial_failure: false,
        }),
{
}

/// A row whose upload was confirmed is not due for upload again, nor is a
/// row that was downloaded: a cycle leaves nothing for the next one but what
/// failed.
pub proof fn settled_rows_are_not_due(
    row: SyncRow,
    plan: PushPlan,
    at: i64,
    existing: Option<SyncRow>,
    incoming: IncomingRow,
    new_local_id: i64,
)
    ensures
        settled_row(row, plan, PushOutcome::Synced, at) matches Some(after) && !after.needs_push(),
        settled_row(row, plan, PushOutcome::Purged, at).is_none(),
        !merged_row(existing, incoming, new_local_id).needs_push(),
{
}

/// A failed upload leaves the row as due as it was, with its columns and its
/// version untouched.
pub proof fn failed_upload_leaves_row_due(row: SyncRow, plan: PushPlan, error: RemoteError, at: i64)
    ensures
        settled_row(row, plan, PushOutcome::LeftPending(error), at) matches Some(after)
            && after.needs_push() == row.needs_push() && after.record == row.record
            && after.version == row.version && after.sync_status == row.sync_status,
{
}

/// The identifier of a row is set once and stays: an upload keeps the
/// identifier that the row has, and so does a download. The version never
/// falls: an upload leaves it or counts it up, a download leaves it.
pub proof fn identifier_stays(
    row: SyncRow,
    plan: PushPlan,
    kind: EntityKind,
    tenant: Seq<char>,
    outcome: PushOutcome,
    at: i64,
    incoming: IncomingRow,
    new_local_id: i64,
)
    requires
        plans(&plan, kind, &row, tenant),
        row.remote_id.is_some(),
    ensures
        settled_row(row, plan, outcome, at) matches Some(after) ==> after.remote_id
            == row.remote_id && after.local_id == row.local_id,
        merged_row(Some(row), incoming, new_local_id).remote_id == row.remote_id,
        merged_row(Some(row), incoming, new_local_id).local_id == row.local_id,
        merged_row(Some(row), incoming, new_local_id).version == row.version,
        settled_row(row, plan, outcome, at) matches Some(after) ==> (match row.version {
            Some(v) => after.version matches Some(w) && w >= v,
            None => true,
        }),
{
}

/// An identifier that is made for an upload is stored in the local row
/// before any request is sent, so that an upload that is cut short is taken
/// up again under the same identifier; and every later plan for the row
/// names that identifier.
pub proof fn identifier_is_stored_first(
    row: SyncRow,
    plan: PushPlan,
    kind: EntityKind,
    tenant: Seq<char>,
    outcome: PushOutcome,
    at: i64,
    later: PushPlan,
)
    requires
        plans(&plan, kind, &row, tenant),
        row.remote_id.is_none(),
        settled_row(row, plan, outcome, at) matches Some(after) && plans(
            &later,
            kind,
            &after,
            tenant,
        ),
    ensures
        first_step_of(plan.assign_remote_id, plan.delete) == PushStep::StoreRemoteId,
        later.remote_id == plan.remote_id,
        !later.assign_remote_id,
        later.document_path@ == plan.document_path@,
{
}

/// Local wins: a row that holds changes not yet uploaded is left exactly as
/// it is by a download, whatever the document of its identifier holds.
pub proof fn pending_row_survives_download(
    row: SyncRow,
    action: PullAction,
    kind: EntityKind,
    document: FirestoreDocument,
    tenant: Seq<char>,
    at: i64,
    new_local_id: i64,
)
    requires
        row.sync_status == SyncStatus::Pending,
        pulls(&action, kind, &document, Some(row.sync_status), tenant, at),
    ensures
        action is Skip,
        row_after_pull(Some(row), action, new_local_id) == Some(row),
{
}

/// A row that is marked for deletion is deleted remotely and not written:
/// its upload begins with a deletion, a confirmed deletion purges the local
/// row, and a failed one leaves it as it was, to be tried again.
pub proof fn marked_row_is_deleted_and_purged(
    row: SyncRow,
    plan: PushPlan,
    kind: EntityKind,
    tenant: Seq<char>,
    error: RemoteError,
    at: i64,
)
    requires
        plans(&plan, kind, &row, tenant),
        row.marked_deleted(),
    ensures
        first_call_of(plan.delete) == PushCall::Delete,
        plan.fields@ == Map::<Seq<char>, crate::config::firebase::WireValue>::empty(),
        step_after(PushCall::Delete, Ok(())) == PushStep::Settled(PushOutcome::Purged),
        settled_row(row, plan, PushOutcome::Purged, at).is_none(),
        step_after(PushCall::Delete, Err(error)) == PushStep::Settled(
            PushOutcome::LeftPending(error),
        ),
        settled_row(row, plan, PushOutcome::LeftPending(error), at) matches Some(after)
            && after.marked_deleted() && after.needs_push() == row.needs_push(),
{
}

/// A tombstone is never materialised: the download of a document that is
/// flagged as deleted writes no row. Where no local row has its identifier,
/// none has it afterwards, and a row that is not pending is removed.
pub proof fn tombstone_is_never_materialised(
    action: PullAction,
    kind: EntityKind,
    document: FirestoreDocument,
    existing: Option<SyncRow>,
    tenant: Seq<char>,
    at: i64,
    new_local_id: i64,
)
    requires
        is_tombstone(document.fields@),
        pulls(
            &action,
            kind,
            &document,
            match existing {
                Some(row) => Some(row.sync_status),
                None => None,
            },
            tenant,
            at,
        ),
    ensures
        !(action is Upsert),
        existing.is_none() ==> row_after_pull(existing, action, new_local_id).is_none(),
        row_after_pull(existing, action, new_local_id) matches Some(after) ==> existing == Some(
            after,
        ),
{
}

/// The checkpoint never regresses, whatever failed: a cycle ends with the
/// time at which it began as its checkpoint, whatever it pushed or pulled and
/// whether or not anything failed. So of two cycles, the later to begin
/// stores the later checkpoint, as far as the clock does not run backwards.
pub proof fn checkpoint_never_regresses(first: SyncCycle, second: SyncCycle)
    requires
        second.started_at.not_before(&first.started_at),
    ensures
        first.ending().checkpoint == first.started_at,
        second.ending().checkpoint == second.started_at,
        second.ending().checkpoint.not_before(&first.ending().checkpoint),
{
}

/// Over any run of cycles, each of which may have failed in part: as far as
/// the clock does not run backwards from one cycle to a later one, neither
/// do the checkpoints that they store.
pub proof fn checkpoints_follow_the_clock(cycles: Seq<SyncCycle>)
    requires
        forall|i: int, j: int|
            0 <= i <= j < cycles.len() ==> (#[trigger] cycles[j]).started_at.not_before(
                &(#[trigger] cycles[i]).started_at,
            ),
    ensures
        forall|i: int, j: int|
            0 <= i <= j < cycles.len() ==> (#[trigger] cycles[j]).ending().checkpoint.not_before(
                &(#[trigger] cycles[i]).ending().checkpoint,
            ),
{
}

/// What a cycle notes of one entity type leaves what it has noted of the
/// other as it was.
pub proof fn tallies_are_separate(
    cycle: SyncCycle,
    kind: EntityKind,
    other: EntityKind,
    outcomes: Seq<PushOutcome>,
    actions: Seq<PullAction>,
)
    requires
        kind != other,
    ensures
        cycle.after_push(kind, outcomes).tally(other) == cycle.tally(other),
        cycle.after_pull(kind, actions).tally(other) == cycle.tally(other),
        cycle.after_failed_pull(kind).tally(other) == cycle.tally(other),
        cycle.after_push(kind, outcomes).started_at == cycle.started_at,
        cycle.after_pull(kind, actions).started_at == cycle.started_at,
        cycle.after_failed_pull(kind).started_at == cycle.started_at,
{
}

/// Partial-failure isolation: where the remote store refuses every upload
/// of one entity type, that type is reported with nothing pushed, and the
/// other type's uploads and downloads are reported exactly as they would be
/// had nothing failed.
pub proof fn failure_of_one_kind_is_isolated(
    cycle: SyncCycle,
    failing: EntityKind,
    other: EntityKind,
    refused: Seq<PushOutcome>,
    outcomes: Seq<PushOutcome>,
    actions: Seq<PullAction>,
)
    requires
        failing != other,
        forall|i: int| 0 <= i < refused.len() ==> #[trigger] refused[i] is LeftPending,
    ensures
        cycle.after_push(failing, refused).tally(failing).pushed == 0,
        refused.len() > 0 ==> cycle.after_push(failing, refused).summary().partial_failure,
        cycle.after_push(failing, refused).after_push(other, outcomes).after_pull(
            other,
            actions,
        ).tally(other) == cycle.after_push(other, outcomes).after_pull(other, actions).tally(other),
        cycle.after_push(failing, refused).after_push(other, outcomes).after_pull(
            other,
            actions,
        ).tally(failing).pushed == 0,
{
    nothing_confirmed_where_all_failed(refused);
}

/// What a document holds under the key of a line is what the line's column
/// travels as: the keys that every document carries besides its columns
/// stand in the way of none.
pub proof fn columns_show_through(
    table: Seq<KeyMapping>,
    record: Seq<Option<ScalarValue>>,
    tenant: Seq<char>,
    is_deleted: Option<bool>,
    version: Option<i64>,
    stamp: Seq<char>,
    i: int,
)
    requires
        avoids_reserved_keys(table),
        0 <= i < table.len(),
    ensures
        inbound_value(
            table[i],
            document_fields(table, record, tenant, is_deleted, version, stamp),
        ) == inbound_value(table[i], outbound_fields(table, record, table.len())),
        mismatched(table[i], document_fields(table, record, tenant, is_deleted, version, stamp))
            == mismatched(table[i], outbound_fields(table, record, table.len())),
{
    let key = table[i].key@;
    assert(key != "courtId"@ && key != "isDeleted"@ && key != "version"@ && key != "updatedAt"@);
}

/// No key of a record that fits its table is found mismatched in the fields
/// it was written to.
pub proof fn written_fields_match(
    table: Seq<KeyMapping>,
    record: Seq<Option<ScalarValue>>,
    fields: Map<Seq<char>, crate::config::firebase::WireValue>,
    n: nat,
)
    requires
        n <= table.len(),
        forall|i: int| 0 <= i < table.len() ==> !mismatched(#[trigger] table[i], fields),
    ensures
        mismatched_keys(table, fields, n) == Seq::<Seq<char>>::empty(),
    decreases n,
{
    if n > 0 {
        written_fields_match(table, record, fields, (n - 1) as nat);
        assert(!mismatched(table[n - 1], fields));
    }
}

/// Round trip: the document that a row is uploaded as is read back as the
/// same columns, the same soft-delete mark and the same version, with no key
/// found mismatched. A version that is null is read back as zero.
pub proof fn document_round_trip(
    kind: EntityKind,
    record: Seq<Option<ScalarValue>>,
    tenant: Seq<char>,
    is_deleted: Option<bool>,
    version: Option<i64>,
    stamp: Seq<char>,
)
    requires
        fits(kind.keys(), record),
    ensures
        ({
            let fields = document_fields(kind.keys(), record, tenant, is_deleted, version, stamp);
            &&& inbound_record(kind.keys(), fields) == record
            &&& is_tombstone(fields) == (is_deleted == Some(true))
            &&& version_in(fields) == match version {
                Some(v) => v,
                None => 0,
            }
            &&& pull_errors(kind, fields) == Seq::<Seq<char>>::empty()
        }),
{
    let table = kind.keys();
    match kind {
        EntityKind::Offender => {
            offender_keys_are_told_apart();
        },
        EntityKind::Case => {
            case_keys_are_told_apart();
        },
    }
    let fields = document_fields(table, record, tenant, is_deleted, version, stamp);
    let columns = outbound_fields(table, record, table.len());
    mapping_round_trip(table, record);
    reveal_strlit("courtId");
    reveal_strlit("isDeleted");
    reveal_strlit("version");
    reveal_strlit("updatedAt");
    assert("isDeleted"@ != "courtId"@ && "isDeleted"@ != "version"@ && "isDeleted"@
        != "updatedAt"@) by {
        assert("isDeleted"@.len() == 9);
        assert("courtId"@.len() == 7);
        assert("version"@.len() == 7);
        assert("updatedAt"@[0] == 'u');
        assert("isDeleted"@[0] == 'i');
    }
    assert("version"@ != "courtId"@ && "version"@ != "updatedAt"@) by {
        assert("version"@[0] == 'v');
        assert("courtId"@[0] == 'c');
        assert("updatedAt"@.len() == 9);
        assert("version"@.len() == 7);
    }
    assert forall|i: int| 0 <= i < table.len() implies inbound_value(#[trigger] table[i], fields)
        == record[i] && !mismatched(table[i], fields) by {
        columns_show_through(table, record, tenant, is_deleted, version, stamp, i);
        outbound_lookup(table, record, table.len(), i);
        assert(inbound_record(table, columns)[i] == inbound_value(table[i], columns));
        match record[i] {
            Some(value) => {
                scalar_round_trip(value);
            },
            None => {},
        }
    }
    assert(inbound_record(table, fields) =~= record);
    written_fields_match(table, record, fields, table.len());
    if !columns.insert("courtId"@, crate::config::firebase::WireValue::Text(tenant)).contains_key(
        "isDeleted"@,
    ) {
    } else {
        crate::sync::mapper::outbound_holds_table_keys_only(
            table,
            record,
            table.len(),
            "isDeleted"@,
        );
    }
    if columns.contains_key("version"@) {
        crate::sync::mapper::outbound_holds_table_keys_only(table, record, table.len(), "version"@);
    }
    match version {
        Some(v) => {
            scalar_round_trip(ScalarValue::Integer(v));
        },
        None => {},
    }
}

/// Round trip between two devices: where one device uploads a row and
/// another, which has no row of that identifier, downloads the document
/// from the path it was written to, the other device writes a row with the
/// same identifier and the same columns.
pub proof fn uploaded_row_comes_down_alike(
    kind: EntityKind,
    row: SyncRow,
    plan: PushPlan,
    document: FirestoreDocument,
    root: Seq<char>,
    action: PullAction,
    tenant: Seq<char>,
    at: i64,
)
    requires
        fits(kind.keys(), row.record@),
        plans(&plan, kind, &row, tenant),
        !row.marked_deleted(),
        plan.remote_id@.len() > 0,
        !has_char(plan.remote_id@, '/'),
        document.fields@ == plan.fields@,
        document.name@ == root + "/"@ + plan.document_path@,
        pulls(&action, kind, &document, None, tenant, at),
    ensures
        action matches PullAction::Upsert { row: incoming, errors } && incoming.remote_id@
            == plan.remote_id@ && incoming.record@ == row.record@ && incoming.court_id@ == tenant
            && errors@.len() == 0,
{
    document_round_trip(kind, row.record@, tenant, row.is_deleted, row.version, plan.stamp@);
    assert(last_segment(document.name@) == plan.remote_id@) by {
        reveal_strlit("/");
        assert("/"@ =~= seq!['/']);
        let prefix = root + "/"@ + collection_path_of(tenant, kind.collection_name());
        assert(document.name@ =~= prefix + seq!['/'] + plan.remote_id@);
        last_segment_of_joined(prefix, plan.remote_id@);
    }
    match action {
        PullAction::Upsert { row: incoming, errors } => {
            assert(crate::sync::mapper::error_keys(errors@).len() == errors@.len());
        },
        _ => {},
    }
}

} // verus!
