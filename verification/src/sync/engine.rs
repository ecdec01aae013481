//! The sync engine: when a cycle begins, what it counts, and how it ends.

use vstd::prelude::*;
use vstd::string::*;
use crate::config::firebase::RemoteError;
use crate::decimal::{decimal, push_decimal};
use crate::sync::clock::{Instant, read_clock};
use crate::sync::mapper::MappingError;
use crate::sync::pull::{PullAction, SkipReason};
use crate::sync::push::PushOutcome;
use crate::sync::tables::EntityKind;

verus! {

/// Why a cycle does not start, or does not end.
#[derive(Debug, Clone, PartialEq)]
pub enum SyncError {
    /// No tenant scope is bound.
    AuthRequired,
    /// Another cycle is under way.
    AlreadyRunning,
    /// The remote store could not be reached.
    RemoteUnavailable { message: String },
    /// The remote store answered and refused.
    RemoteRejected { status: u16, body: String },
    /// The local store failed.
    LocalStoreError { message: String },
    /// A document could not be mapped.
    MappingError { key: String },
}

/// What an error says in words.
pub open spec fn error_text(error: SyncError) -> Seq<char> {
    match error {
        SyncError::AuthRequired => "No court_id set. Please log in first."@,
        SyncError::AlreadyRunning => "A sync is already running."@,
        SyncError::RemoteUnavailable { message } => message@,
        SyncError::RemoteRejected { status, body } => "HTTP "@ + decimal(status as nat) + ": "@
            + body@,
        SyncError::LocalStoreError { message } => message@,
        SyncError::MappingError { key } => "Field "@ + key@ + " could not be mapped"@,
    }
}

impl SyncError {
    /// The error in words.
    pub fn message(&self) -> (text: String)
        ensures
            text@ == error_text(*self),
    {
        match self {
            SyncError::AuthRequired => String::from_str("No court_id set. Please log in first."),
            SyncError::AlreadyRunning => String::from_str("A sync is already running."),
            SyncError::RemoteUnavailable { message } => message.clone(),
            SyncError::RemoteRejected { status, body } => {
                let mut text = String::from_str("HTTP ");
                push_decimal(&mut text, *status as u64);
                text.append(": ");
                text.append(body.as_str());
                text
            },
            SyncError::LocalStoreError { message } => message.clone(),
            SyncError::MappingError { key } => {
                let mut text = String::from_str("Field ");
                text.append(key.as_str());
                text.append(" could not be mapped");
                text
            },
        }
    }

    /// The error that a failed request counts as.
    pub open spec fn of_remote(error: RemoteError) -> SyncError {
        match error {
            RemoteError::Unavailable { message } => SyncError::RemoteUnavailable { message },
            RemoteError::Rejected { status, body } => SyncError::RemoteRejected { status, body },
        }
    }

    /// The error that a key which could not be mapped counts as.
    pub fn from_mapping(error: MappingError) -> (sync_error: SyncError)
        ensures
            sync_error == (SyncError::MappingError { key: error.key }),
    {
        SyncError::MappingError { key: error.key }
    }

    /// The error that a failed request counts as.
    pub fn from_remote(error: RemoteError) -> (sync_error: SyncError)
        ensures
            sync_error == SyncError::of_remote(error),
    {
        match error {
            RemoteError::Unavailable { message } => SyncError::RemoteUnavailable { message },
            RemoteError::Rejected { status, body } => SyncError::RemoteRejected { status, body },
        }
    }
}

/// The seconds between the end of one periodic cycle and the start of the
/// next.
pub const SYNC_INTERVAL_SECS: u64 = 300;

/// One phase of a cycle: the uploads or the downloads of one entity type.
#[derive(Clone, Copy, PartialEq, Eq, Structural, Debug)]
pub enum Phase {
    Push(EntityKind),
    Pull(EntityKind),
}

/// The phases of a cycle in their order: every entity type is uploaded, and
/// only then is every entity type downloaded.
pub open spec fn phases() -> Seq<Phase> {
    seq![
        Phase::Push(EntityKind::Offender),
        Phase::Push(EntityKind::Case),
        Phase::Pull(EntityKind::Offender),
        Phase::Pull(EntityKind::Case),
    ]
}

/// The phases of a cycle in their order.
pub fn schedule() -> (order: Vec<Phase>)
    ensures
        order@ == phases(),
{
    vec![
        Phase::Push(EntityKind::Offender),
        Phase::Push(EntityKind::Case),
        Phase::Pull(EntityKind::Offender),
        Phase::Pull(EntityKind::Case),
    ]
}

/// Every entity type has one phase of uploads and one of downloads, and no
/// download comes before an upload.
pub proof fn uploads_come_first(kind: EntityKind)
    ensures
        exists|i: int| 0 <= i < phases().len() && phases()[i] == Phase::Push(kind),
        exists|i: int| 0 <= i < phases().len() && phases()[i] == Phase::Pull(kind),
        forall|i: int, j: int|
            0 <= i < phases().len() && 0 <= j < phases().len() && phases()[i] is Pull
                && phases()[j] is Push ==> j < i,
        forall|i: int, j: int|
            0 <= i < j < phases().len() ==> phases()[i] != phases()[j],
{
    match kind {
        EntityKind::Offender => {
            assert(phases()[0] == Phase::Push(kind));
            assert(phases()[2] == Phase::Pull(kind));
        },
        EntityKind::Case => {
            assert(phases()[1] == Phase::Push(kind));
            assert(phases()[3] == Phase::Pull(kind));
        },
    }
}

/// What a cycle has done for one entity type.
#[derive(Clone, Copy, PartialEq, Eq, Structural, Debug)]
pub struct Tally {
    /// Rows whose upload the remote store confirmed.
    pub pushed: usize,
    /// Documents that came down.
    pub pulled: usize,
    /// Whether anything failed: an upload, the download, a mapping.
    pub failed: bool,
}

/// How many of `outcomes` are uploads that the remote store confirmed.
pub open spec fn confirmed(outcomes: Seq<PushOutcome>) -> nat
    decreases outcomes.len(),
{
    if outcomes.len() == 0 {
        0
    } else {
        let before = confirmed(outcomes.drop_last());
        match outcomes.last() {
            PushOutcome::LeftPending(_) => before,
            _ => before + 1,
        }
    }
}

/// Whether a downloaded document could not be read in full.
pub open spec fn faulty(action: PullAction) -> bool {
    match action {
        PullAction::Skip(SkipReason::NoDocumentId) => true,
        PullAction::Upsert { errors, .. } => errors@.len() > 0,
        _ => false,
    }
}

/// Whether any of `actions` is faulty.
pub open spec fn any_faulty(actions: Seq<PullAction>) -> bool {
    exists|i: int| 0 <= i < actions.len() && faulty(#[trigger] actions[i])
}

/// No more uploads are confirmed than there are.
pub proof fn confirmed_is_bounded(outcomes: Seq<PushOutcome>)
    ensures
        confirmed(outcomes) <= outcomes.len(),
    decreases outcomes.len(),
{
    if outcomes.len() > 0 {
        confirmed_is_bounded(outcomes.drop_last());
    }
}

/// Where every upload was left pending, none is confirmed.
pub proof fn nothing_confirmed_where_all_failed(outcomes: Seq<PushOutcome>)
    requires
        forall|i: int| 0 <= i < outcomes.len() ==> #[trigger] outcomes[i] is LeftPending,
    ensures
        confirmed(outcomes) == 0,
    decreases outcomes.len(),
{
    if outcomes.len() > 0 {
        let shorter = outcomes.drop_last();
        assert forall|i: int| 0 <= i < shorter.len() implies #[trigger] shorter[i] is LeftPending by {
            assert(shorter[i] == outcomes[i]);
        }
        nothing_confirmed_where_all_failed(shorter);
        assert(outcomes[outcomes.len() - 1] is LeftPending);
    }
}

/// One cycle under way.
#[derive(Debug, Clone, PartialEq)]
pub struct SyncCycle {
    /// The tenant scope of the cycle.
    pub tenant: String,
    /// When the cycle began.
    pub started_at: Instant,
    /// The checkpoint that the cycle found: documents updated after it are
    /// downloaded.
    pub since: String,
    pub offenders: Tally,
    pub cases: Tally,
}

/// What a cycle reports: how many rows went up and how many documents came
/// down, by entity type, and whether anything failed on the way.
#[derive(Debug, Clone, PartialEq)]
pub struct SyncSummary {
    pub pushed_offenders: usize,
    pub pushed_cases: usize,
    pub pulled_offenders: usize,
    pub pulled_cases: usize,
    pub partial_failure: bool,
}

/// The end of a cycle: its report, and the checkpoint to store.
#[derive(Debug, Clone, PartialEq)]
pub struct CycleEnd {
    pub summary: SyncSummary,
    pub checkpoint: Instant,
}

impl SyncCycle {
    /// What the cycle has done for `kind`.
    pub open spec fn tally(&self, kind: EntityKind) -> Tally {
        match kind {
            EntityKind::Offender => self.offenders,
            EntityKind::Case => self.cases,
        }
    }

    /// The cycle with `tally` in place of what it has done for `kind`.
    pub open spec fn with_tally(self, kind: EntityKind, tally: Tally) -> SyncCycle {
        match kind {
            EntityKind::Offender => SyncCycle { offenders: tally, ..self },
            EntityKind::Case => SyncCycle { cases: tally, ..self },
        }
    }

    /// The cycle after the uploads of `kind` ended as `outcomes` say.
    pub open spec fn after_push(self, kind: EntityKind, outcomes: Seq<PushOutcome>) -> SyncCycle {
        let old = self.tally(kind);
        self.with_tally(
            kind,
            Tally {
                pushed: confirmed(outcomes) as usize,
                pulled: old.pulled,
                failed: old.failed || confirmed(outcomes) < outcomes.len(),
            },
        )
    }

    /// The cycle after the download of `kind` brought what `actions` were
    /// planned for.
    pub open spec fn after_pull(self, kind: EntityKind, actions: Seq<PullAction>) -> SyncCycle {
        let old = self.tally(kind);
        self.with_tally(
            kind,
            Tally {
                pushed: old.pushed,
                pulled: actions.len() as usize,
                failed: old.failed || any_faulty(actions),
            },
        )
    }

    /// The cycle after the download of `kind` failed: nothing came down.
    pub open spec fn after_failed_pull(self, kind: EntityKind) -> SyncCycle {
        let old = self.tally(kind);
        self.with_tally(kind, Tally { pushed: old.pushed, pulled: 0, failed: true })
    }

    /// How the cycle ends: with its report, and with the time at which it
    /// began as the checkpoint to store.
    pub open spec fn ending(self) -> CycleEnd {
        CycleEnd { summary: self.summary(), checkpoint: self.started_at }
    }

    /// What the cycle reports.
    pub open spec fn summary(&self) -> SyncSummary {
        SyncSummary {
            pushed_offenders: self.offenders.pushed,
            pushed_cases: self.cases.pushed,
            pulled_offenders: self.offenders.pulled,
            pulled_cases: self.cases.pulled,
            partial_failure: self.offenders.failed || self.cases.failed,
        }
    }

    fn set_tally(&mut self, kind: EntityKind, tally: Tally)
        ensures
            *final(self) == old(self).with_tally(kind, tally),
    {
        match kind {
            EntityKind::Offender => {
                self.offenders = tally;
            },
            EntityKind::Case => {
                self.cases = tally;
            },
        }
    }

    /// Notes how the uploads of `kind` ended. A failed upload marks the cycle
    /// as failed in part and counts for nothing else.
    pub fn record_push(&mut self, kind: EntityKind, outcomes: &Vec<PushOutcome>)
        ensures
            *final(self) == old(self).after_push(kind, outcomes@),
    {
        let mut count: usize = 0;
        let mut i: usize = 0;
        while i < outcomes.len()
            invariant
                0 <= i <= outcomes@.len(),
                count == confirmed(outcomes@.subrange(0, i as int)),
                count <= i,
            decreases outcomes@.len() - i,
        {
            proof {
                let longer = outcomes@.subrange(0, i + 1);
                assert(longer.drop_last() =~= outcomes@.subrange(0, i as int));
                assert(longer.last() == outcomes@[i as int]);
            }
            match &outcomes[i] {
                PushOutcome::LeftPending(_) => {},
                _ => {
                    count = count + 1;
                },
            }
            i = i + 1;
        }
        proof {
            assert(outcomes@.subrange(0, i as int) =~= outcomes@);
        }
        let (pulled, failed) = match kind {
            EntityKind::Offender => (self.offenders.pulled, self.offenders.failed),
            EntityKind::Case => (self.cases.pulled, self.cases.failed),
        };
        self.set_tally(
            kind,
            Tally { pushed: count, pulled, failed: failed || count < outcomes.len() },
        );
    }

    /// Notes what the download of `kind` brought: one action for each
    /// document that came down.
    pub fn record_pull(&mut self, kind: EntityKind, actions: &Vec<PullAction>)
        ensures
            *final(self) == old(self).after_pull(kind, actions@),
    {
        let mut found = false;
        let mut i: usize = 0;
        while i < actions.len()
            invariant
                0 <= i <= actions@.len(),
                found == any_faulty(actions@.subrange(0, i as int)),
            decreases actions@.len() - i,
        {
            let ghost shorter = actions@.subrange(0, i as int);
            let ghost longer = actions@.subrange(0, i + 1);
            let bad = match &actions[i] {
                PullAction::Skip(SkipReason::NoDocumentId) => true,
                PullAction::Upsert { errors, .. } => errors.len() > 0,
                _ => false,
            };
            proof {
                assert(longer[i as int] == actions@[i as int]);
                if any_faulty(shorter) {
                    let j = choose|j: int| 0 <= j < shorter.len() && faulty(#[trigger] shorter[j]);
                    assert(longer[j] == shorter[j]);
                }
                if any_faulty(longer) && !bad {
                    let j = choose|j: int| 0 <= j < longer.len() && faulty(#[trigger] longer[j]);
                    assert(shorter[j] == longer[j]);
                }
            }
            found = found || bad;
            i = i + 1;
        }
        proof {
            assert(actions@.subrange(0, i as int) =~= actions@);
        }
        let (pushed, failed) = match kind {
            EntityKind::Offender => (self.offenders.pushed, self.offenders.failed),
            EntityKind::Case => (self.cases.pushed, self.cases.failed),
        };
        self.set_tally(kind, Tally { pushed, pulled: actions.len(), failed: failed || found });
    }

    /// Notes that the download of `kind` failed. The cycle goes on: what was
    /// missed comes with the next one.
    pub fn record_failed_pull(&mut self, kind: EntityKind)
        ensures
            *final(self) == old(self).after_failed_pull(kind),
    {
        let pushed = match kind {
            EntityKind::Offender => self.offenders.pushed,
            EntityKind::Case => self.cases.pushed,
        };
        self.set_tally(kind, Tally { pushed, pulled: 0, failed: true });
    }
}

/// The text of a report.
pub open spec fn message_of(summary: SyncSummary) -> Seq<char> {
    "Pushed: "@ + decimal(summary.pushed_offenders as nat) + " offenders, "@ + decimal(
        summary.pushed_cases as nat,
    ) + " cases. Pulled: "@ + decimal(summary.pulled_offenders as nat) + " offenders, "@ + decimal(
        summary.pulled_cases as nat,
    ) + " cases."@
}

impl SyncSummary {
    /// The report in words.
    pub fn message(&self) -> (text: String)
        ensures
            text@ == message_of(*self),
    {
        let mut text = String::from_str("Pushed: ");
        push_decimal(&mut text, self.pushed_offenders as u64);
        text.append(" offenders, ");
        push_decimal(&mut text, self.pushed_cases as u64);
        text.append(" cases. Pulled: ");
        push_decimal(&mut text, self.pulled_offenders as u64);
        text.append(" offenders, ");
        push_decimal(&mut text, self.pulled_cases as u64);
        text.append(" cases.");
        text
    }
}

/// The engine of one process: the tenant scope it is bound to, and whether
/// a cycle is under way. At most one cycle runs at a time.
#[derive(Debug, Clone, PartialEq)]
pub struct SyncEngine {
    court_id: Option<String>,
    in_flight: bool,
}

/// The checkpoint of a store that holds none: the Unix epoch.
pub open spec fn earliest_checkpoint() -> Seq<char> {
    "1970-01-01T00:00:00Z"@
}

/// Whether `cycle` is a cycle that has just begun for `tenant` at `now`,
/// resuming from `checkpoint`.
pub open spec fn begins(
    cycle: &SyncCycle,
    tenant: String,
    now: Instant,
    checkpoint: Option<String>,
) -> bool {
    &&& cycle.tenant == tenant
    &&& cycle.started_at == now
    &&& cycle.since@ == match checkpoint {
        Some(text) => text@,
        None => earliest_checkpoint(),
    }
    &&& cycle.offenders == Tally { pushed: 0, pulled: 0, failed: false }
    &&& cycle.cases == Tally { pushed: 0, pulled: 0, failed: false }
}

impl SyncEngine {
    /// The tenant scope that the engine is bound to.
    pub closed spec fn tenant(&self) -> Option<String> {
        self.court_id
    }

    /// Whether a cycle is under way.
    pub closed spec fn running(&self) -> bool {
        self.in_flight
    }

    /// An engine bound to the tenant scope `court_id`, or to none.
    pub fn new(court_id: Option<String>) -> (engine: SyncEngine)
        ensures
            engine.tenant() == court_id,
            !engine.running(),
    {
        SyncEngine { court_id, in_flight: false }
    }

    /// Binds the engine to another tenant scope, or to none.
    pub fn set_court_id(&mut self, court_id: Option<String>)
        ensures
            final(self).tenant() == court_id,
            final(self).running() == old(self).running(),
    {
        self.court_id = court_id;
    }

    /// Whether a cycle is under way.
    pub fn is_running(&self) -> (running: bool)
        ensures
            running == self.running(),
    {
        self.in_flight
    }

    /// Begins a cycle at `now`, resuming from `checkpoint`. Without a tenant
    /// scope no cycle begins, nor while another is under way; the engine is
    /// then left as it was.
    pub fn begin_at(&mut self, now: Instant, checkpoint: Option<String>) -> (begun: Result<
        SyncCycle,
        SyncError,
    >)
        ensures
            match old(self).tenant() {
                None => begun == Err::<SyncCycle, SyncError>(SyncError::AuthRequired) && *final(self) == *old(self),
                Some(tenant) => if old(self).running() {
                    begun == Err::<SyncCycle, SyncError>(SyncError::AlreadyRunning) && *final(self) == *old(self)
                } else {
                    begun matches Ok(cycle) && begins(&cycle, tenant, now, checkpoint)
                        && final(self).running() && final(self).tenant() == old(self).tenant()
                },
            },
    {
        let tenant = match &self.court_id {
            Some(tenant) => tenant.clone(),
            None => {
                return Err(SyncError::AuthRequired);
            },
        };
        if self.in_flight {
            return Err(SyncError::AlreadyRunning);
        }
        self.in_flight = true;
        let since = match checkpoint {
            Some(text) => text,
            None => String::from_str("1970-01-01T00:00:00Z"),
        };
        Ok(
            SyncCycle {
                tenant,
                started_at: now,
                since,
                offenders: Tally { pushed: 0, pulled: 0, failed: false },
                cases: Tally { pushed: 0, pulled: 0, failed: false },
            },
        )
    }

    /// Begins a cycle now, resuming from `checkpoint`: the clock is read for
    /// the time at which the cycle begins.
    pub fn begin(&mut self, checkpoint: Option<String>) -> (begun: Result<SyncCycle, SyncError>)
        ensures
            match old(self).tenant() {
                None => begun == Err::<SyncCycle, SyncError>(SyncError::AuthRequired) && *final(self) == *old(self),
                Some(tenant) => if old(self).running() {
                    begun == Err::<SyncCycle, SyncError>(SyncError::AlreadyRunning) && *final(self) == *old(self)
                } else {
                    begun matches Ok(cycle) && begins(&cycle, tenant, cycle.started_at, checkpoint)
                        && final(self).running() && final(self).tenant() == old(self).tenant()
                },
            },
    {
        self.begin_at(read_clock(), checkpoint)
    }

    /// Ends `cycle`. The checkpoint to store is the time at which the cycle
    /// began, not the time at which it ends: what was written remotely while
    /// the cycle ran is downloaded by the next one.
    pub fn finish(&mut self, cycle: SyncCycle) -> (end: CycleEnd)
        ensures
            end == cycle.ending(),
            !final(self).running(),
            final(self).tenant() == old(self).tenant(),
    {
        self.in_flight = false;
        CycleEnd {
            summary: SyncSummary {
                pushed_offenders: cycle.offenders.pushed,
                pushed_cases: cycle.cases.pushed,
                pulled_offenders: cycle.offenders.pulled,
                pulled_cases: cycle.cases.pulled,
                partial_failure: cycle.offenders.failed || cycle.cases.failed,
            },
            checkpoint: cycle.started_at,
        }
    }

    /// Gives `cycle` up because the local store failed. No checkpoint is
    /// stored, so the next cycle resumes where this one did.
    pub fn abort(&mut self, cycle: SyncCycle, message: String) -> (error: SyncError)
        ensures
            error == (SyncError::LocalStoreError { message }),
            !final(self).running(),
            final(self).tenant() == old(self).tenant(),
    {
        self.in_flight = false;
        SyncError::LocalStoreError { message }
    }
}

} // verus!

