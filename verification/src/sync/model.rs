//! A table of one entity type as a map from local keys to rows, and what the
//! steps of a cycle do to it. The local store is held to this model: it
//! writes what the engine decided, row by row, each write keyed as here.

use vstd::prelude::*;
use crate::config::firebase::FirestoreDocument;
use crate::sync::mapper::is_tombstone;
use crate::sync::pull::{PullAction, merged_row, pulls};
use crate::sync::push::{PushOutcome, PushPlan, SyncRow, SyncStatus, plans, settled_row};
use crate::sync::tables::EntityKind;
use crate::text::last_segment;

verus! {

/// Whether a row is known remotely under `remote_id`.
pub open spec fn known_as(row: SyncRow, remote_id: Seq<char>) -> bool {
    match row.remote_id {
        Some(id) => id@ == remote_id,
        None => false,
    }
}

/// Whether the table holds, under the key `key`, a row that is known
/// remotely under `remote_id`.
pub open spec fn holds(table: Map<i64, SyncRow>, key: i64, remote_id: Seq<char>) -> bool {
    table.contains_key(key) && known_as(table[key], remote_id)
}

/// Whether no two rows of the table are known under one remote identifier.
pub open spec fn unique_remote_ids(table: Map<i64, SyncRow>) -> bool {
    forall|a: i64, b: i64, remote_id: Seq<char>|
        #[trigger] holds(table, a, remote_id) && #[trigger] holds(table, b, remote_id) ==> a == b
}

/// The sync status of the row that is known under `remote_id`, `None` where
/// there is no such row.
pub open spec fn status_in(table: Map<i64, SyncRow>, remote_id: Seq<char>) -> Option<SyncStatus> {
    if exists|key: i64| holds(table, key, remote_id) {
        Some(table[choose|key: i64| holds(table, key, remote_id)].sync_status)
    } else {
        None
    }
}

/// The table after the upload of the row under `key` ended.
pub open spec fn table_after_upload(
    table: Map<i64, SyncRow>,
    key: i64,
    plan: PushPlan,
    outcome: PushOutcome,
    at: i64,
) -> Map<i64, SyncRow> {
    match settled_row(table[key], plan, outcome, at) {
        Some(row) => table.insert(key, row),
        None => table.remove(key),
    }
}

/// The table after one downloaded document was dealt with. A row that is
/// written for the first time stands under the key `new_key`.
pub open spec fn table_after_pull(table: Map<i64, SyncRow>, action: PullAction, new_key: i64) -> Map<
    i64,
    SyncRow,
> {
    match action {
        PullAction::Skip(_) => table,
        PullAction::DeleteLocal { remote_id } => table.remove_keys(
            Set::new(|key: i64| holds(table, key, remote_id@)),
        ),
        PullAction::Upsert { row, .. } => if exists|key: i64| holds(table, key, row.remote_id@) {
            let key = choose|key: i64| holds(table, key, row.remote_id@);
            table.insert(key, merged_row(Some(table[key]), row, key))
        } else {
            table.insert(new_key, merged_row(None, row, new_key))
        },
    }
}

/// The table after the documents of a page were dealt with, one after the
/// other. The `i`-th of them, where it is written for the first time, stands
/// under the key `new_keys(i)`.
pub open spec fn table_after_page(
    table: Map<i64, SyncRow>,
    actions: Seq<PullAction>,
    new_keys: spec_fn(int) -> i64,
) -> Map<i64, SyncRow>
    decreases actions.len(),
{
    if actions.len() == 0 {
        table
    } else {
        table_after_pull(
            table_after_page(table, actions.drop_last(), new_keys),
            actions.last(),
            new_keys(actions.len() - 1),
        )
    }
}

/// An upload touches the row it is about and no other. Where the remote
/// store confirmed it, the row is gone or no longer due.
pub proof fn upload_settles_one_row(
    table: Map<i64, SyncRow>,
    key: i64,
    plan: PushPlan,
    outcome: PushOutcome,
    at: i64,
)
    requires
        table.contains_key(key),
    ensures
        forall|other: i64|
            other != key ==> (table_after_upload(table, key, plan, outcome, at).contains_key(other)
                <==> table.contains_key(other)) && table_after_upload(
                table,
                key,
                plan,
                outcome,
                at,
            )[other] == table[other],
        !(outcome is LeftPending) ==> (table_after_upload(
            table,
            key,
            plan,
            outcome,
            at,
        ).contains_key(key) ==> !table_after_upload(table, key, plan, outcome, at)[key].needs_push()),
        outcome is Purged ==> !table_after_upload(table, key, plan, outcome, at).contains_key(key),
{
}

/// An upload keeps remote identifiers unique, provided that an identifier
/// which was made for it is borne by no other row.
pub proof fn upload_keeps_remote_ids_unique(
    table: Map<i64, SyncRow>,
    key: i64,
    plan: PushPlan,
    kind: EntityKind,
    tenant: Seq<char>,
    outcome: PushOutcome,
    at: i64,
)
    requires
        unique_remote_ids(table),
        table.contains_key(key),
        plans(&plan, kind, &table[key], tenant),
        table[key].remote_id.is_none() ==> forall|other: i64| !holds(table, other, plan.remote_id@),
    ensures
        unique_remote_ids(table_after_upload(table, key, plan, outcome, at)),
{
    let after = table_after_upload(table, key, plan, outcome, at);
    assert forall|a: i64, b: i64, remote_id: Seq<char>|
        #[trigger] holds(after, a, remote_id) && #[trigger] holds(after, b, remote_id) implies a
        == b by {
        if a != key {
            assert(holds(table, a, remote_id));
        }
        if b != key {
            assert(holds(table, b, remote_id));
        }
        if a == key && b != key {
            if table[key].remote_id.is_some() {
                assert(holds(table, key, remote_id));
            } else {
                assert(!holds(table, b, plan.remote_id@));
            }
        }
        if b == key && a != key {
            if table[key].remote_id.is_some() {
                assert(holds(table, key, remote_id));
            } else {
                assert(!holds(table, a, plan.remote_id@));
            }
        }
    }
}

/// A table whose rows were all uploaded with confirmation, or were not due,
/// holds no row that is due: the next cycle finds nothing to upload.
pub proof fn nothing_is_due_after_confirmed_uploads(
    before: Map<i64, SyncRow>,
    after: Map<i64, SyncRow>,
    plan_of: spec_fn(i64) -> PushPlan,
    outcome_of: spec_fn(i64) -> PushOutcome,
    at: i64,
)
    requires
        forall|key: i64| #[trigger]
            after.contains_key(key) ==> before.contains_key(key) && (if before[key].needs_push() {
                !(outcome_of(key) is LeftPending) && Some(after[key]) == settled_row(
                    before[key],
                    plan_of(key),
                    outcome_of(key),
                    at,
                )
            } else {
                after[key] == before[key]
            }),
    ensures
        forall|key: i64| #[trigger] after.contains_key(key) ==> !after[key].needs_push(),
{
}

/// A download keeps remote identifiers unique: it writes over the row of
/// its identifier where there is one, and makes a new row only where there
/// is none.
pub proof fn download_keeps_remote_ids_unique(
    table: Map<i64, SyncRow>,
    action: PullAction,
    new_key: i64,
)
    requires
        unique_remote_ids(table),
    ensures
        unique_remote_ids(table_after_pull(table, action, new_key)),
{
    let after = table_after_pull(table, action, new_key);
    match action {
        PullAction::Upsert { row, errors } => {
            let rid = row.remote_id@;
            if exists|key: i64| holds(table, key, rid) {
                let key = choose|key: i64| holds(table, key, rid);
                assert(holds(table, key, rid));
                assert forall|a: i64, b: i64, remote_id: Seq<char>|
                    #[trigger] holds(after, a, remote_id) && #[trigger] holds(
                        after,
                        b,
                        remote_id,
                    ) implies a == b by {
                    assert(holds(table, a, remote_id));
                    assert(holds(table, b, remote_id));
                }
            } else {
                assert forall|a: i64, b: i64, remote_id: Seq<char>|
                    #[trigger] holds(after, a, remote_id) && #[trigger] holds(
                        after,
                        b,
                        remote_id,
                    ) implies a == b by {
                    if a != new_key {
                        assert(holds(table, a, remote_id));
                    }
                    if b != new_key {
                        assert(holds(table, b, remote_id));
                    }
                }
            }
        },
        PullAction::DeleteLocal { remote_id } => {
            assert forall|a: i64, b: i64, rid: Seq<char>|
                #[trigger] holds(after, a, rid) && #[trigger] holds(after, b, rid) implies a
                == b by {
                assert(holds(table, a, rid));
                assert(holds(table, b, rid));
            }
        },
        PullAction::Skip(_) => {},
    }
}

/// Whether an action is about the identifier `remote_id`: it deletes or
/// writes the row of that identifier, or does nothing.
pub open spec fn is_about(action: PullAction, remote_id: Seq<char>) -> bool {
    match action {
        PullAction::Skip(_) => true,
        PullAction::DeleteLocal { remote_id: id } => id@ == remote_id,
        PullAction::Upsert { row, .. } => row.remote_id@ == remote_id,
    }
}

/// What a download does for a document is about the document's identifier.
pub proof fn download_is_about_its_document(
    action: PullAction,
    kind: EntityKind,
    document: FirestoreDocument,
    local: Option<SyncStatus>,
    tenant: Seq<char>,
    at: i64,
)
    requires
        pulls(&action, kind, &document, local, tenant, at),
    ensures
        is_about(action, last_segment(document.name@)),
        local == Some(SyncStatus::Pending) ==> action is Skip,
{
}

/// An action that is about one identifier leaves every row of another
/// identifier as it is, and a skip leaves every row as it is.
pub proof fn download_spares_other_rows(
    table: Map<i64, SyncRow>,
    key: i64,
    action: PullAction,
    remote_id: Seq<char>,
    new_key: i64,
)
    requires
        table.contains_key(key),
        new_key != key,
        is_about(action, remote_id),
        known_as(table[key], remote_id) ==> action is Skip,
    ensures
        table_after_pull(table, action, new_key).contains_key(key),
        table_after_pull(table, action, new_key)[key] == table[key],
{
    match action {
        PullAction::Upsert { row, errors } => {
            if exists|k: i64| holds(table, k, row.remote_id@) {
                let found = choose|k: i64| holds(table, k, row.remote_id@);
                assert(holds(table, found, row.remote_id@));
            }
        },
        _ => {},
    }
}

/// Where distinct rows are known under distinct identifiers, the status
/// that the table holds for the identifier of a row is the status of that
/// row.
pub proof fn status_of_a_row(table: Map<i64, SyncRow>, key: i64, remote_id: Seq<char>)
    requires
        unique_remote_ids(table),
        holds(table, key, remote_id),
    ensures
        status_in(table, remote_id) == Some(table[key].sync_status),
{
    let found = choose|k: i64| holds(table, k, remote_id);
    assert(holds(table, found, remote_id));
}

/// Local wins, for one document: a row that holds changes not yet uploaded
/// stands in the table after a download exactly as before, whatever the
/// document holds, as long as the document was dealt with by the sync
/// status that the table holds for its identifier.
pub proof fn pending_row_survives_a_document(
    table: Map<i64, SyncRow>,
    key: i64,
    action: PullAction,
    kind: EntityKind,
    document: FirestoreDocument,
    tenant: Seq<char>,
    at: i64,
    new_key: i64,
)
    requires
        unique_remote_ids(table),
        table.contains_key(key),
        table[key].sync_status == SyncStatus::Pending,
        !table.contains_key(new_key),
        pulls(
            &action,
            kind,
            &document,
            status_in(table, last_segment(document.name@)),
            tenant,
            at,
        ),
    ensures
        table_after_pull(table, action, new_key).contains_key(key),
        table_after_pull(table, action, new_key)[key] == table[key],
{
    let id = last_segment(document.name@);
    if known_as(table[key], id) {
        status_of_a_row(table, key, id);
    }
    download_is_about_its_document(action, kind, document, status_in(table, id), tenant, at);
    download_spares_other_rows(table, key, action, id, new_key);
}

/// Local wins, for a page: a row that holds changes not yet uploaded stands
/// in the table after the download of a whole page exactly as before,
/// whatever the documents hold and however many of them bear its
/// identifier, as long as each document was dealt with by the sync status
/// that the table held for its identifier when the page came.
pub proof fn pending_row_survives_a_page(
    table: Map<i64, SyncRow>,
    key: i64,
    actions: Seq<PullAction>,
    documents: Seq<FirestoreDocument>,
    kind: EntityKind,
    tenant: Seq<char>,
    at: i64,
    new_keys: spec_fn(int) -> i64,
)
    requires
        unique_remote_ids(table),
        table.contains_key(key),
        table[key].sync_status == SyncStatus::Pending,
        actions.len() == documents.len(),
        forall|i: int| 0 <= i < actions.len() ==> #[trigger] new_keys(i) != key,
        forall|i: int|
            0 <= i < actions.len() ==> pulls(
                &#[trigger] actions[i],
                kind,
                &documents[i],
                status_in(table, last_segment(documents[i].name@)),
                tenant,
                at,
            ),
    ensures
        table_after_page(table, actions, new_keys).contains_key(key),
        table_after_page(table, actions, new_keys)[key] == table[key],
    decreases actions.len(),
{
    if actions.len() > 0 {
        let last = actions.len() - 1;
        let earlier = actions.drop_last();
        assert forall|i: int| 0 <= i < earlier.len() implies pulls(
            &#[trigger] earlier[i],
            kind,
            &documents.drop_last()[i],
            status_in(table, last_segment(documents.drop_last()[i].name@)),
            tenant,
            at,
        ) by {
            assert(earlier[i] == actions[i]);
            assert(pulls(
                &actions[i],
                kind,
                &documents[i],
                status_in(table, last_segment(documents[i].name@)),
                tenant,
                at,
            ));
        }
        pending_row_survives_a_page(
            table,
            key,
            earlier,
            documents.drop_last(),
            kind,
            tenant,
            at,
            new_keys,
        );
        let so_far = table_after_page(table, earlier, new_keys);
        let id = last_segment(documents[last].name@);
        assert(pulls(&actions[last], kind, &documents[last], status_in(table, id), tenant, at));
        if known_as(table[key], id) {
            status_of_a_row(table, key, id);
        }
        download_is_about_its_document(
            actions[last],
            kind,
            documents[last],
            status_in(table, id),
            tenant,
            at,
        );
        download_spares_other_rows(so_far, key, actions[last], id, new_keys(last));
    }
}

/// A tombstone materialises nothing: after the download of a document that
/// is flagged as deleted, the table holds under the document's identifier
/// no row but one that it held before, unchanged; and none at all unless
/// that row holds changes not yet uploaded.
pub proof fn tombstone_leaves_no_row(
    table: Map<i64, SyncRow>,
    action: PullAction,
    kind: EntityKind,
    document: FirestoreDocument,
    tenant: Seq<char>,
    at: i64,
    new_key: i64,
)
    requires
        unique_remote_ids(table),
        is_tombstone(document.fields@),
        last_segment(document.name@).len() > 0,
        pulls(
            &action,
            kind,
            &document,
            status_in(table, last_segment(document.name@)),
            tenant,
            at,
        ),
    ensures
        forall|key: i64| #[trigger]
            holds(table_after_pull(table, action, new_key), key, last_segment(document.name@))
                ==> holds(table, key, last_segment(document.name@)) && table[key].sync_status
                == SyncStatus::Pending && table_after_pull(table, action, new_key)[key]
                == table[key],
{
    let id = last_segment(document.name@);
    let after = table_after_pull(table, action, new_key);
    assert forall|key: i64| #[trigger] holds(after, key, id) implies holds(table, key, id)
        && table[key].sync_status == SyncStatus::Pending && after[key] == table[key] by {
        if status_in(table, id) == Some(SyncStatus::Pending) {
            assert(action is Skip);
            let found = choose|k: i64| holds(table, k, id);
            assert(holds(table, found, id));
            assert(holds(table, key, id));
        } else {
            assert(action is DeleteLocal);
        }
    }
}

} // verus!
