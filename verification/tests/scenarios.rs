use records_and_tracking::config::firebase::{
    extract_document_id, FieldMap, FirestoreDocument, FirestoreValue, MapValue, RemoteError,
};
use records_and_tracking::sync::clock::Instant;
use records_and_tracking::sync::engine::{schedule, Phase, SyncEngine, SyncError, SyncSummary};
use records_and_tracking::sync::pull::{merge, plan_pull, PullAction, Pulled, PAGE_SIZE};
use records_and_tracking::sync::push::{
    first_call, first_step, next_step, plan_push_with, settle, PushCall, PushOutcome, PushPlan,
    PushStep, RowChange, SyncRow, SyncStatus,
};
use records_and_tracking::sync::tables::EntityKind;
use records_and_tracking::sync::mapper::{Record, Scalar};

fn copy_value(value: &FirestoreValue) -> FirestoreValue {
    match value {
        FirestoreValue::StringValue(s) => FirestoreValue::StringValue(s.clone()),
        FirestoreValue::IntegerValue(s) => FirestoreValue::IntegerValue(s.clone()),
        FirestoreValue::DoubleValue(b) => FirestoreValue::DoubleValue(*b),
        FirestoreValue::BooleanValue(b) => FirestoreValue::BooleanValue(*b),
        FirestoreValue::TimestampValue(s) => FirestoreValue::TimestampValue(s.clone()),
        FirestoreValue::NullValue => FirestoreValue::NullValue,
        FirestoreValue::MapValue(m) => FirestoreValue::MapValue(MapValue { fields: copy_fields(&m.fields) }),
    }
}

fn copy_fields(fields: &FieldMap) -> FieldMap {
    let mut copy = FieldMap::new();
    for entry in fields.entries() {
        copy.insert(entry.key.clone(), copy_value(&entry.value));
    }
    copy
}

/// A remote store in memory: documents by path, and the requests it saw.
struct Remote {
    documents: Vec<(String, FieldMap)>,
    refused: Vec<EntityKind>,
    requests: Vec<String>,
}

impl Remote {
    fn new() -> Remote {
        Remote { documents: Vec::new(), refused: Vec::new(), requests: Vec::new() }
    }

    fn find(&self, path: &str) -> Option<usize> {
        self.documents.iter().position(|(p, _)| p == path)
    }

    fn answer(&mut self, kind: EntityKind, plan: &PushPlan, call: PushCall) -> Result<(), RemoteError> {
        match call {
            PushCall::Delete => self.requests.push(format!("DELETE {}", plan.document_path)),
            PushCall::Update => self.requests.push(format!("UPDATE {}", plan.document_path)),
            PushCall::Create => {
                self.requests.push(format!("CREATE {} {}", plan.collection_path, plan.remote_id))
            }
        }
        if self.refused.contains(&kind) {
            return Err(RemoteError::Rejected { status: 403, body: "refused".to_string() });
        }
        match call {
            PushCall::Delete => {
                if let Some(i) = self.find(&plan.document_path) {
                    self.documents.remove(i);
                }
                Ok(())
            }
            PushCall::Update => match self.find(&plan.document_path) {
                Some(i) => {
                    self.documents[i].1 = copy_fields(&plan.fields);
                    Ok(())
                }
                None => Err(RemoteError::Rejected { status: 404, body: "no such document".to_string() }),
            },
            PushCall::Create => {
                let path = format!("{}/{}", plan.collection_path, plan.remote_id);
                if self.find(&path).is_some() {
                    return Err(RemoteError::Rejected { status: 409, body: "exists".to_string() });
                }
                self.documents.push((path, copy_fields(&plan.fields)));
                Ok(())
            }
        }
    }

    fn query(&self, tenant: &str, kind: EntityKind, since: &str) -> Vec<FirestoreDocument> {
        let prefix = format!("courts/{}/{}/", tenant, kind.collection());
        let mut found: Vec<(String, &String, &FieldMap)> = self
            .documents
            .iter()
            .filter(|(path, _)| path.starts_with(&prefix))
            .filter_map(|(path, fields)| {
                let stamp = fields.get("updatedAt")?.as_timestamp()?.to_string();
                if stamp.as_str() > since {
                    Some((stamp, path, fields))
                } else {
                    None
                }
            })
            .collect();
        found.sort_by(|a, b| a.0.cmp(&b.0));
        found
            .into_iter()
            .take(PAGE_SIZE as usize)
            .map(|(_, path, fields)| FirestoreDocument {
                name: format!("projects/p/databases/(default)/documents/{}", path),
                fields: copy_fields(fields),
                create_time: None,
                update_time: None,
            })
            .collect()
    }
}

/// A device in memory: its two tables, its checkpoint and its engine.
struct Device {
    offenders: Vec<SyncRow>,
    cases: Vec<SyncRow>,
    checkpoint: Option<String>,
    engine: SyncEngine,
    next_local_id: i64,
    ids_made: u32,
}

impl Device {
    fn new(tenant: Option<&str>) -> Device {
        Device {
            offenders: Vec::new(),
            cases: Vec::new(),
            checkpoint: None,
            engine: SyncEngine::new(tenant.map(|t| t.to_string())),
            next_local_id: 1,
            ids_made: 0,
        }
    }

    fn table(&mut self, kind: EntityKind) -> &mut Vec<SyncRow> {
        match kind {
            EntityKind::Offender => &mut self.offenders,
            EntityKind::Case => &mut self.cases,
        }
    }

    fn add(&mut self, kind: EntityKind, record: Record) -> i64 {
        let id = self.next_local_id;
        self.next_local_id += 1;
        self.table(kind).push(SyncRow::created(id, record));
        id
    }
}

fn offender(name: &str) -> Record {
    let mut values: Vec<Option<Scalar>> = vec![Some(Scalar::Text(name.to_string()))];
    values.resize(35, None);
    Record { values }
}

fn case(title: &str) -> Record {
    let mut values: Vec<Option<Scalar>> = vec![
        Some(Scalar::Text(title.to_string())),
        None,
        Some(Scalar::Text("Open".to_string())),
        Some(Scalar::Text("Medium".to_string())),
    ];
    values.resize(26, None);
    Record { values }
}

fn at(second: u32) -> Instant {
    Instant {
        secs: 1_704_067_200 + second as i64,
        nanos: 0,
        text: format!("2024-01-01T00:00:{:02}+00:00", second),
    }
}

fn push_pending(device: &mut Device, remote: &mut Remote, kind: EntityKind, tenant: &str, now: &Instant) -> Vec<PushOutcome> {
    let mut outcomes = Vec::new();
    let due: Vec<i64> = device.table(kind).iter().filter(|r| r.is_due()).map(|r| r.local_id).collect();
    for local_id in due {
        device.ids_made += 1;
        let fresh = format!("{}-{}-{}", kind.collection(), now.secs, device.ids_made);
        let index = device.table(kind).iter().position(|r| r.local_id == local_id).unwrap();
        let row = device.table(kind)[index].clone();
        let plan = plan_push_with(kind, &row, tenant, fresh, now.text.clone());
        let mut step = first_step(&plan);
        let outcome = loop {
            step = match step {
                PushStep::StoreRemoteId => {
                    assert!(remote.requests.iter().all(|r| !r.contains(plan.remote_id.as_str())));
                    device.table(kind)[index].remote_id = Some(plan.remote_id.clone());
                    PushStep::Call(first_call(&plan))
                }
                PushStep::Call(call) => next_step(call, remote.answer(kind, &plan, call)),
                PushStep::Settled(outcome) => break outcome,
            };
        };
        match settle(row, &plan, &outcome, now.secs) {
            RowChange::Store(after) => device.table(kind)[index] = after,
            RowChange::Keep(after) => assert_eq!(device.table(kind)[index], after),
            RowChange::Purge => {
                device.table(kind).remove(index);
            }
        }
        outcomes.push(outcome);
    }
    outcomes
}

fn pull_remote(device: &mut Device, remote: &Remote, kind: EntityKind, tenant: &str, since: &str, now: &Instant) -> Vec<PullAction> {
    let page: Vec<Pulled> = remote
        .query(tenant, kind, since)
        .into_iter()
        .map(|document| {
            let id = extract_document_id(&document.name);
            let local = device
                .table(kind)
                .iter()
                .find(|r| r.remote_id.as_deref() == Some(id.as_str()))
                .map(|r| r.sync_status);
            Pulled { document, local }
        })
        .collect();
    let actions = plan_pull(kind, &page, tenant, now.secs);
    for action in &actions {
        match action {
            PullAction::Skip(_) => {}
            PullAction::DeleteLocal { remote_id } => {
                device.table(kind).retain(|r| r.remote_id.as_deref() != Some(remote_id.as_str()));
            }
            PullAction::Upsert { row, .. } => {
                let found = device
                    .table(kind)
                    .iter()
                    .position(|r| r.remote_id.as_deref() == Some(row.remote_id.as_str()));
                match found {
                    Some(i) => {
                        let old = device.table(kind)[i].clone();
                        device.table(kind)[i] = merge(Some(old), row.clone(), 0);
                    }
                    None => {
                        let id = device.next_local_id;
                        device.next_local_id += 1;
                        device.table(kind).push(merge(None, row.clone(), id));
                    }
                }
            }
        }
    }
    actions
}

fn sync_all(device: &mut Device, remote: &mut Remote, now: Instant) -> Result<SyncSummary, SyncError> {
    let mut cycle = device.engine.begin_at(now.clone(), device.checkpoint.clone())?;
    let tenant = cycle.tenant.clone();
    let since = cycle.since.clone();
    for phase in schedule() {
        match phase {
            Phase::Push(kind) => {
                let outcomes = push_pending(device, remote, kind, &tenant, &now);
                cycle.record_push(kind, &outcomes);
            }
            Phase::Pull(kind) => {
                let actions = pull_remote(device, remote, kind, &tenant, &since, &now);
                cycle.record_pull(kind, &actions);
            }
        }
    }
    let end = device.engine.finish(cycle);
    device.checkpoint = Some(end.checkpoint.text);
    Ok(end.summary)
}

#[test]
fn first_upload_of_a_new_offender() {
    let mut remote = Remote::new();
    let mut device = Device::new(Some("c1"));
    device.add(EntityKind::Offender, offender("John Smith"));
    assert_eq!(device.offenders[0].remote_id, None);

    let summary = sync_all(&mut device, &mut remote, at(1)).unwrap();

    assert_eq!(summary.pushed_offenders, 1);
    assert!(!summary.partial_failure);
    let row = &device.offenders[0];
    let remote_id = row.remote_id.clone().unwrap();
    assert!(!remote_id.is_empty());
    assert_eq!(row.sync_status, SyncStatus::Synced);
    assert!(!row.is_new);
    assert!(!row.has_changes);
    assert_eq!(row.version, Some(1));
    let index = remote.find(&format!("courts/c1/offenders/{}", remote_id)).unwrap();
    assert_eq!(remote.documents[index].1.get_str("fullName"), Some("John Smith"));
    assert_eq!(
        remote.requests,
        vec![
            format!("UPDATE courts/c1/offenders/{}", remote_id),
            format!("CREATE courts/c1/offenders {}", remote_id),
        ]
    );
}

#[test]
fn a_row_pushed_by_one_device_is_pulled_alike_by_another() {
    let mut remote = Remote::new();
    let mut first = Device::new(Some("c1"));
    first.add(EntityKind::Offender, offender("Jane Doe"));
    assert!(first.offenders[0].is_new);
    sync_all(&mut first, &mut remote, at(1)).unwrap();

    let mut second = Device::new(Some("c1"));
    let summary = sync_all(&mut second, &mut remote, at(2)).unwrap();

    assert_eq!(summary.pulled_offenders, 1);
    assert_eq!(summary.pushed_offenders, 0);
    assert_eq!(second.offenders.len(), 1);
    assert_eq!(second.offenders[0].remote_id, first.offenders[0].remote_id);
    assert_eq!(second.offenders[0].record, first.offenders[0].record);
    assert_eq!(second.offenders[0].record.values[0], Some(Scalar::Text("Jane Doe".to_string())));
    assert_eq!(second.offenders[0].sync_status, SyncStatus::Synced);
    assert!(!second.offenders[0].is_due());
}

#[test]
fn a_pending_local_row_is_not_overwritten_by_a_pull() {
    let mut remote = Remote::new();
    let mut first = Device::new(Some("c1"));
    first.add(EntityKind::Case, case("State v. Doe"));
    sync_all(&mut first, &mut remote, at(1)).unwrap();
    let mut second = Device::new(Some("c1"));
    sync_all(&mut second, &mut remote, at(2)).unwrap();

    // Both devices edit the case; the first uploads its edit.
    let row = first.cases.remove(0);
    first.cases.push(row.edited(case("First device's title")));
    sync_all(&mut first, &mut remote, at(3)).unwrap();
    let row = second.cases.remove(0);
    second.cases.push(row.edited(case("Second device's title")));
    let before = second.cases[0].clone();

    // The second device pulls the first device's edit while its own is pending.
    let tenant = "c1";
    let actions = pull_remote(&mut second, &remote, EntityKind::Case, tenant, "2024-01-01T00:00:02+00:00", &at(4));
    assert_eq!(actions.len(), 1);
    assert!(matches!(actions[0], PullAction::Skip(_)));
    assert_eq!(second.cases, vec![before]);
}

#[test]
fn a_soft_deleted_row_is_deleted_remotely_and_purged() {
    let mut remote = Remote::new();
    let mut first = Device::new(Some("c1"));
    first.add(EntityKind::Offender, offender("Jane Doe"));
    sync_all(&mut first, &mut remote, at(1)).unwrap();
    let remote_id = first.offenders[0].remote_id.clone().unwrap();
    assert_eq!(remote.documents.len(), 1);

    let row = first.offenders.remove(0);
    first.offenders.push(row.marked_for_deletion());
    remote.requests.clear();
    let summary = sync_all(&mut first, &mut remote, at(5)).unwrap();

    assert_eq!(remote.requests, vec![format!("DELETE courts/c1/offenders/{}", remote_id)]);
    assert_eq!(summary.pushed_offenders, 1);
    assert!(first.offenders.is_empty());
    assert!(remote.documents.is_empty());

    let mut second = Device::new(Some("c1"));
    let summary = sync_all(&mut second, &mut remote, at(6)).unwrap();
    assert_eq!(summary.pulled_offenders, 0);
    assert!(second.offenders.is_empty());
}

#[test]
fn a_failed_deletion_is_tried_again() {
    let mut remote = Remote::new();
    let mut device = Device::new(Some("c1"));
    device.add(EntityKind::Offender, offender("Jane Doe"));
    sync_all(&mut device, &mut remote, at(1)).unwrap();
    let row = device.offenders.remove(0);
    device.offenders.push(row.marked_for_deletion());

    remote.refused.push(EntityKind::Offender);
    let summary = sync_all(&mut device, &mut remote, at(2)).unwrap();
    assert_eq!(summary.pushed_offenders, 0);
    assert!(summary.partial_failure);
    assert_eq!(device.offenders.len(), 1);
    assert!(device.offenders[0].is_due());
    assert_eq!(remote.documents.len(), 1);

    remote.refused.clear();
    let summary = sync_all(&mut device, &mut remote, at(3)).unwrap();
    assert_eq!(summary.pushed_offenders, 1);
    assert!(device.offenders.is_empty());
    assert!(remote.documents.is_empty());
}

#[test]
fn a_remote_tombstone_removes_the_local_row_and_is_never_written() {
    let mut remote = Remote::new();
    let mut fields = FieldMap::new();
    fields.insert("fullName".to_string(), FirestoreValue::string("Gone"));
    fields.insert("isDeleted".to_string(), FirestoreValue::boolean(true));
    fields.insert("updatedAt".to_string(), FirestoreValue::timestamp("2024-01-01T00:00:03+00:00"));
    remote.documents.push(("courts/c1/offenders/gone".to_string(), fields));

    let mut fresh = Device::new(Some("c1"));
    let summary = sync_all(&mut fresh, &mut remote, at(4)).unwrap();
    assert_eq!(summary.pulled_offenders, 1);
    assert!(fresh.offenders.is_empty());

    let mut holder = Device::new(Some("c1"));
    holder.offenders.push(SyncRow {
        remote_id: Some("gone".to_string()),
        sync_status: SyncStatus::Synced,
        is_new: false,
        ..SyncRow::created(1, offender("Gone"))
    });
    sync_all(&mut holder, &mut remote, at(4)).unwrap();
    assert!(holder.offenders.is_empty());
}

#[test]
fn a_second_cycle_without_changes_pushes_and_pulls_nothing() {
    let mut remote = Remote::new();
    let mut first = Device::new(Some("c1"));
    first.add(EntityKind::Offender, offender("Jane Doe"));
    first.add(EntityKind::Case, case("State v. Doe"));
    sync_all(&mut first, &mut remote, at(1)).unwrap();

    let mut second = Device::new(Some("c1"));
    let summary = sync_all(&mut second, &mut remote, at(2)).unwrap();
    assert_eq!((summary.pulled_offenders, summary.pulled_cases), (1, 1));
    let rows = (second.offenders.clone(), second.cases.clone());
    remote.requests.clear();

    let summary = sync_all(&mut second, &mut remote, at(3)).unwrap();
    assert_eq!(
        summary,
        SyncSummary {
            pushed_offenders: 0,
            pushed_cases: 0,
            pulled_offenders: 0,
            pulled_cases: 0,
            partial_failure: false,
        }
    );
    assert_eq!((second.offenders.clone(), second.cases.clone()), rows);
    assert!(remote.requests.is_empty());
}

#[test]
fn what_a_cycle_uploaded_may_come_down_again_and_changes_nothing() {
    let mut remote = Remote::new();
    let mut device = Device::new(Some("c1"));
    device.add(EntityKind::Offender, offender("Jane Doe"));
    // The document is stamped after the cycle began.
    let row = device.offenders[0].clone();
    let plan = plan_push_with(EntityKind::Offender, &row, "c1", "id-1".to_string(), at(2).text);
    remote.answer(EntityKind::Offender, &plan, PushCall::Create).unwrap();
    device.offenders[0] = match settle(row, &plan, &PushOutcome::Synced, at(2).secs) {
        RowChange::Store(after) => after,
        other => panic!("unexpected {:?}", other),
    };
    device.checkpoint = Some(at(1).text);
    let rows = device.offenders.clone();

    let summary = sync_all(&mut device, &mut remote, at(3)).unwrap();
    assert_eq!(summary.pushed_offenders, 0);
    assert_eq!(summary.pulled_offenders, 1);
    assert_eq!(device.offenders.len(), 1);
    assert_eq!(device.offenders[0].record, rows[0].record);
    assert_eq!(device.offenders[0].remote_id, rows[0].remote_id);
    assert!(!device.offenders[0].is_due());

    let summary = sync_all(&mut device, &mut remote, at(4)).unwrap();
    assert_eq!(summary.pulled_offenders, 0);
}

#[test]
fn the_checkpoint_follows_the_clock_whatever_fails() {
    let mut remote = Remote::new();
    let mut device = Device::new(Some("c1"));
    device.add(EntityKind::Offender, offender("Jane Doe"));
    assert_eq!(device.checkpoint, None);

    remote.refused.push(EntityKind::Offender);
    let summary = sync_all(&mut device, &mut remote, at(1)).unwrap();
    assert!(summary.partial_failure);
    assert_eq!(device.checkpoint, Some(at(1).text));

    remote.refused.clear();
    sync_all(&mut device, &mut remote, at(7)).unwrap();
    assert_eq!(device.checkpoint, Some(at(7).text));

    remote.refused.push(EntityKind::Case);
    device.add(EntityKind::Case, case("State v. Doe"));
    sync_all(&mut device, &mut remote, at(9)).unwrap();
    assert_eq!(device.checkpoint, Some(at(9).text));
}

#[test]
fn an_aborted_cycle_stores_no_checkpoint() {
    let mut device = Device::new(Some("c1"));
    device.checkpoint = Some(at(1).text);
    let cycle = device.engine.begin_at(at(5), device.checkpoint.clone()).unwrap();
    let error = device.engine.abort(cycle, "database is locked".to_string());
    assert_eq!(error, SyncError::LocalStoreError { message: "database is locked".to_string() });
    assert_eq!(device.checkpoint, Some(at(1).text));
    assert!(!device.engine.is_running());
}

#[test]
fn refused_offenders_do_not_hold_back_cases() {
    let mut remote = Remote::new();
    let mut other = Device::new(Some("c1"));
    other.add(EntityKind::Case, case("Remote case"));
    sync_all(&mut other, &mut remote, at(1)).unwrap();

    let mut device = Device::new(Some("c1"));
    device.add(EntityKind::Offender, offender("A"));
    device.add(EntityKind::Offender, offender("B"));
    device.add(EntityKind::Case, case("Local case"));
    remote.refused.push(EntityKind::Offender);

    let summary = sync_all(&mut device, &mut remote, at(2)).unwrap();

    assert_eq!(summary.pushed_offenders, 0);
    assert_eq!(summary.pushed_cases, 1);
    assert_eq!(summary.pulled_cases, 2);
    assert_eq!(summary.pulled_offenders, 0);
    assert!(summary.partial_failure);
    assert!(device.offenders.iter().all(|r| r.is_due() && r.remote_id.is_some()));
    assert_eq!(device.cases.len(), 2);
    assert!(device.cases.iter().all(|r| !r.is_due()));
    assert_eq!(remote.documents.len(), 2);

    // The refused rows go up with the next cycle, under the identifiers they were given.
    let ids: Vec<Option<String>> = device.offenders.iter().map(|r| r.remote_id.clone()).collect();
    remote.refused.clear();
    let summary = sync_all(&mut device, &mut remote, at(3)).unwrap();
    assert_eq!(summary.pushed_offenders, 2);
    assert!(!summary.partial_failure);
    assert_eq!(device.offenders.iter().map(|r| r.remote_id.clone()).collect::<Vec<_>>(), ids);
}

#[test]
fn no_cycle_runs_without_a_tenant() {
    let mut remote = Remote::new();
    let mut device = Device::new(None);
    device.add(EntityKind::Offender, offender("A"));
    assert_eq!(sync_all(&mut device, &mut remote, at(1)), Err(SyncError::AuthRequired));
    assert!(remote.requests.is_empty());
    assert!(device.offenders[0].is_due());
    assert_eq!(device.checkpoint, None);
}

#[test]
fn a_page_holds_no_more_than_its_size() {
    let mut remote = Remote::new();
    for i in 0..(PAGE_SIZE as usize + 20) {
        let mut fields = FieldMap::new();
        fields.insert("title".to_string(), FirestoreValue::string(&format!("Case {}", i)));
        fields.insert(
            "updatedAt".to_string(),
            FirestoreValue::timestamp(&format!("2024-01-01T00:{:02}:{:02}+00:00", 1 + i / 60, i % 60)),
        );
        remote.documents.push((format!("courts/c1/cases/case-{}", i), fields));
    }
    let mut device = Device::new(Some("c1"));
    let summary = sync_all(&mut device, &mut remote, at(1)).unwrap();
    assert_eq!(summary.pulled_cases, 500);
    assert_eq!(device.cases.len(), 500);
}
