//! Step/metrics recording registry.
//!
//! Tracks, per entity and per step, a timing and status record. A started
//! record is finalized exactly once: by an explicit stop, or — through the
//! deferred-release discipline of [`StepRecordHandle::release`] — with the
//! `NotSet` status when the owning routine gives the handle back without
//! stopping, so duration metrics are never silently lost.

use vstd::prelude::*;
use vstd::pervasive::VecAdditionalExecFns;

verus! {

broadcast use
    vstd::seq_lib::group_seq_properties,
    Seq::lemma_filter_push,
    Seq::lemma_filter_pred,
    Seq::lemma_filter_contains,
    Seq::lemma_filter_contains_rev;

/// The step a record times.
#[derive(Clone, Copy, Debug, PartialEq, Eq, Hash, Structural)]
pub enum StepName {
    Total,
    ProvisionBuilder,
    RegistryCreateRepository,
    GitClone,
    Build,
    Deployment,
}

impl StepName {
    /// The step's name as text.
    pub fn to_string(&self) -> (r: String)
        ensures
            *self is Total ==> r@ == "Total"@,
            *self is ProvisionBuilder ==> r@ == "ProvisionBuilder"@,
            *self is RegistryCreateRepository ==> r@ == "RegistryCreateRepository"@,
            *self is GitClone ==> r@ == "GitClone"@,
            *self is Build ==> r@ == "Build"@,
            *self is Deployment ==> r@ == "Deployment"@,
    {
        match self {
            StepName::Total => String::from_str("Total"),
            StepName::ProvisionBuilder => String::from_str("ProvisionBuilder"),
            StepName::RegistryCreateRepository => String::from_str("RegistryCreateRepository"),
            StepName::GitClone => String::from_str("GitClone"),
            StepName::Build => String::from_str("Build"),
            StepName::Deployment => String::from_str("Deployment"),
        }
    }
}

/// Whether a record belongs to a single service or a whole environment.
#[derive(Clone, Copy, Debug, PartialEq, Eq, Structural)]
pub enum StepLabel {
    Service,
    Environment,
}

/// How a step ended. `NotSet` marks a record finalized by the
/// deferred-release discipline rather than an explicit stop.
#[derive(Clone, Copy, Debug, PartialEq, Eq, Structural)]
pub enum StepStatus {
    Success,
    Error,
    Cancel,
    Skip,
    NotSet,
}

/// One timing record: created on start with no duration and no status,
/// mutated exactly once on stop, immutable afterwards. Timestamps and
/// durations are in milliseconds.
#[derive(Clone, Copy, Debug, PartialEq, Eq, Structural)]
pub struct StepRecord {
    pub step_name: StepName,
    pub label: StepLabel,
    pub id: u128,
    pub start_time: u64,
    pub duration: Option<u64>,
    pub status: Option<StepStatus>,
}

impl StepRecord {
    /// Opens a record at the current time, with no duration and no status
    /// yet.
    pub fn new(step_name: StepName, label: StepLabel, id: u128) -> (r: Self)
        ensures
            r.step_name == step_name,
            r.label == label,
            r.id == id,
            r.duration is None,
            r.status is None,
    {
        StepRecord {
            step_name,
            label,
            id,
            start_time: now_millis(),
            duration: None,
            status: None,
        }
    }
}

/// Relies on std::time::SystemTime::now for a wall-clock timestamp. The
/// clock's value depends on the machine and the moment, so nothing is
/// promised of it.
#[verifier::external_body]
fn now_millis() -> u64 {
    std::time::SystemTime::now()
        .duration_since(std::time::UNIX_EPOCH)
        .map(|d| d.as_millis() as u64)
        .unwrap_or(0)
}

/// A record is addressed by the entity it belongs to and the step it times.
pub open spec fn key_matches(r: StepRecord, id: u128, step_name: StepName) -> bool {
    r.id == id && r.step_name == step_name
}

/// The key predicate as a first-class function.
pub open spec fn key_pred(id: u128, step_name: StepName) -> spec_fn(StepRecord) -> bool {
    |r: StepRecord| key_matches(r, id, step_name)
}

/// The complement of the key predicate as a first-class function.
pub open spec fn other_key_pred(id: u128, step_name: StepName) -> spec_fn(StepRecord) -> bool {
    |r: StepRecord| !key_matches(r, id, step_name)
}

/// Some record in the registry has this key.
pub open spec fn has_record(s: Seq<StepRecord>, id: u128, step_name: StepName) -> bool {
    exists|i: int| 0 <= i < s.len() && key_matches(s[i], id, step_name)
}

/// The registry without the records of one key.
pub open spec fn drop_record(s: Seq<StepRecord>, id: u128, step_name: StepName) -> Seq<
    StepRecord,
> {
    s.filter(other_key_pred(id, step_name))
}

/// A record as `start` opens it.
pub open spec fn fresh_record(
    id: u128,
    label: StepLabel,
    step_name: StepName,
    now: u64,
) -> StepRecord {
    StepRecord { step_name, label, id, start_time: now, duration: None, status: None }
}

/// Starting a step replaces any record of the same key — last start wins —
/// by a fresh one.
pub open spec fn start_model(
    s: Seq<StepRecord>,
    id: u128,
    label: StepLabel,
    step_name: StepName,
    now: u64,
) -> Seq<StepRecord> {
    drop_record(s, id, step_name).push(fresh_record(id, label, step_name, now))
}

/// Time elapsed between a start and a stop, saturating at zero if the
/// clock went backwards.
pub open spec fn elapsed_millis(start_time: u64, now: u64) -> u64 {
    if now >= start_time {
        (now - start_time) as u64
    } else {
        0u64
    }
}

/// A record once its step stopped: duration recorded, status set, the rest
/// untouched.
pub open spec fn finish_record(r: StepRecord, status: StepStatus, now: u64) -> StepRecord {
    StepRecord {
        step_name: r.step_name,
        label: r.label,
        id: r.id,
        start_time: r.start_time,
        duration: Some(elapsed_millis(r.start_time, now)),
        status: Some(status),
    }
}

/// The per-record effect of a stop, as a first-class function: records of
/// the key are finished, every other record is untouched.
pub open spec fn stop_fn(
    id: u128,
    step_name: StepName,
    status: StepStatus,
    now: u64,
) -> spec_fn(StepRecord) -> StepRecord {
    |r: StepRecord|
        if key_matches(r, id, step_name) {
            finish_record(r, status, now)
        } else {
            r
        }
}

/// Stopping a step finishes its record and leaves the rest alone.
pub open spec fn stop_model(
    s: Seq<StepRecord>,
    id: u128,
    step_name: StepName,
    status: StepStatus,
    now: u64,
) -> Seq<StepRecord> {
    s.map_values(stop_fn(id, step_name, status, now))
}

/// A step is stopped when its record exists and carries a duration.
pub open spec fn is_stopped_model(s: Seq<StepRecord>, id: u128, step_name: StepName) -> bool {
    exists|i: int| 0 <= i < s.len() && key_matches(s[i], id, step_name) && s[i].duration is Some
}

/// Releasing a handle without an explicit stop finalizes the record with
/// `NotSet`; a record already stopped is left untouched.
pub open spec fn release_model(
    s: Seq<StepRecord>,
    id: u128,
    step_name: StepName,
    now: u64,
) -> Seq<StepRecord> {
    if is_stopped_model(s, id, step_name) {
        s
    } else {
        stop_model(s, id, step_name, StepStatus::NotSet, now)
    }
}

/// A finished record of one entity.
pub open spec fn finished_for_pred(id: u128) -> spec_fn(StepRecord) -> bool {
    |r: StepRecord| r.id == id && r.duration is Some
}

/// What a query for an entity returns: its records that carry a duration,
/// in registry order.
pub open spec fn records_model(s: Seq<StepRecord>, id: u128) -> Seq<StepRecord> {
    s.filter(finished_for_pred(id))
}

/// The registry never holds two records of the same key.
pub open spec fn wf_registry(s: Seq<StepRecord>) -> bool {
    forall|i: int, j: int|
        0 <= i < j < s.len() ==> !(#[trigger] s[i].id == #[trigger] s[j].id && s[i].step_name
            == s[j].step_name)
}

/// Filtering keeps the keys pairwise distinct.
proof fn lemma_wf_filter(s: Seq<StepRecord>, p: spec_fn(StepRecord) -> bool)
    requires
        wf_registry(s),
    ensures
        wf_registry(s.filter(p)),
    decreases s.len(),
{
    reveal(Seq::filter);
    if s.len() > 0 {
        let rest = s.drop_last();
        assert(wf_registry(rest));
        lemma_wf_filter(rest, p);
        if p(s.last()) {
            let f = rest.filter(p);
            assert forall|i: int, j: int| 0 <= i < j < f.push(s.last()).len() implies !(
            #[trigger] f.push(s.last())[i].id == #[trigger] f.push(s.last())[j].id && f.push(
                s.last(),
            )[i].step_name == f.push(s.last())[j].step_name) by {
                if j == f.len() {
                    assert(f.contains(f[i]));
                    assert(rest.contains(f[i]));
                    let k = choose|k: int| 0 <= k < rest.len() && rest[k] == f[i];
                    assert(!(s[k].id == s[s.len() - 1].id && s[k].step_name == s[s.len()
                        - 1].step_name));
                }
            }
        }
    }
}

/// Law: starting a step and then stopping it yields exactly one record
/// under that key — it carries a duration and the given status — and the
/// entity's finished records contain it. Every start is matched by exactly
/// one completion.
pub proof fn lemma_start_then_stop_finishes_once(
    s: Seq<StepRecord>,
    id: u128,
    label: StepLabel,
    step_name: StepName,
    status: StepStatus,
    t1: u64,
    t2: u64,
)
    requires
        wf_registry(s),
    ensures
        ({
            let fin = finish_record(fresh_record(id, label, step_name, t1), status, t2);
            let s2 = stop_model(start_model(s, id, label, step_name, t1), id, step_name, status, t2);
            &&& s2.filter(key_pred(id, step_name)) == seq![fin]
            &&& fin.duration is Some
            &&& fin.status == Some(status)
            &&& records_model(s2, id).contains(fin)
        }),
{
    broadcast use Seq::lemma_push_map_commute;

    let fresh = fresh_record(id, label, step_name, t1);
    let fin = finish_record(fresh, status, t2);
    let dropped = drop_record(s, id, step_name);
    let s1 = start_model(s, id, label, step_name, t1);
    let f = stop_fn(id, step_name, status, t2);
    let s2 = stop_model(s1, id, step_name, status, t2);
    assert(f(fresh) == fin);
    assert(s2 =~= dropped.map_values(f).push(fin));
    assert forall|j: int| 0 <= j < dropped.len() implies #[trigger] dropped.map_values(f)[j]
        == dropped[j] by {
        assert(other_key_pred(id, step_name)(dropped[j]));
    }
    assert(dropped.map_values(f) =~= dropped);
    assert(s2 =~= dropped.push(fin));
    assert(key_pred(id, step_name)(fin));
    assert(s2.filter(key_pred(id, step_name)) == dropped.filter(key_pred(id, step_name)).push(
        fin,
    ));
    assert(dropped.all(|r: StepRecord| !key_pred(id, step_name)(r))) by {
        assert forall|j: int| 0 <= j < dropped.len() implies !key_pred(id, step_name)(
            #[trigger] dropped[j],
        ) by {
            assert(other_key_pred(id, step_name)(dropped[j]));
        }
    }
    dropped.lemma_all_neg_filter_empty(key_pred(id, step_name));
    assert(dropped.filter(key_pred(id, step_name)).push(fin) =~= seq![fin]);
    assert(finished_for_pred(id)(fin));
    assert(s2[s2.len() - 1] == fin);
    assert(records_model(s2, id).contains(fin));
}

/// Law (guaranteed completion): a started step whose handle is released
/// without an explicit stop still ends with exactly one finished record —
/// its status is `NotSet` and it carries a duration.
pub proof fn lemma_start_then_release_completes(
    s: Seq<StepRecord>,
    id: u128,
    label: StepLabel,
    step_name: StepName,
    t1: u64,
    t2: u64,
)
    requires
        wf_registry(s),
    ensures
        ({
            let fin = finish_record(fresh_record(id, label, step_name, t1), StepStatus::NotSet, t2);
            let s2 = release_model(start_model(s, id, label, step_name, t1), id, step_name, t2);
            &&& s2.filter(key_pred(id, step_name)) == seq![fin]
            &&& fin.duration is Some
            &&& fin.status == Some(StepStatus::NotSet)
            &&& records_model(s2, id).contains(fin)
        }),
{
    let s1 = start_model(s, id, label, step_name, t1);
    let dropped = drop_record(s, id, step_name);
    assert(!is_stopped_model(s1, id, step_name)) by {
        if is_stopped_model(s1, id, step_name) {
            let i = choose|i: int|
                0 <= i < s1.len() && key_matches(s1[i], id, step_name) && s1[i].duration is Some;
            if i < s1.len() - 1 {
                assert(other_key_pred(id, step_name)(dropped[i]));
            }
        }
    }
    lemma_start_then_stop_finishes_once(s, id, label, step_name, StepStatus::NotSet, t1, t2);
}

/// Law: an entity for which no step was ever started has no records — a
/// query returns the empty sequence.
pub proof fn lemma_no_started_steps_no_records(s: Seq<StepRecord>, id: u128)
    requires
        forall|i: int| 0 <= i < s.len() ==> (#[trigger] s[i].id) != id,
    ensures
        records_model(s, id) == Seq::<StepRecord>::empty(),
{
    assert(s.all(|r: StepRecord| !finished_for_pred(id)(r))) by {
        assert forall|j: int| 0 <= j < s.len() implies !finished_for_pred(id)(
            #[trigger] s[j],
        ) by {
            assert(s[j].id != id);
        }
    }
    s.lemma_all_neg_filter_empty(finished_for_pred(id));
    assert(records_model(s, id) =~= Seq::<StepRecord>::empty());
}

/// A concurrency-safe step registry would wrap this value in a mutex; the
/// registry itself is the verified bookkeeping over a record list whose
/// keys stay pairwise distinct.
pub struct StdMetricsRegistry {
    records: Vec<StepRecord>,
}

impl View for StdMetricsRegistry {
    type V = Seq<StepRecord>;

    closed spec fn view(&self) -> Seq<StepRecord> {
        self.records@
    }
}

/// A scoped token for a started step. Giving it back through
/// [`StepRecordHandle::release`] guarantees the record is finalized even
/// when no explicit stop happened.
pub struct StepRecordHandle {
    id: u128,
    name: StepName,
}

impl StepRecordHandle {
    /// The entity this handle tracks.
    pub closed spec fn spec_id(&self) -> u128 {
        self.id
    }

    /// The step this handle tracks.
    pub closed spec fn spec_name(&self) -> StepName {
        self.name
    }

    /// Builds a handle for a started step.
    pub fn new(id: u128, name: StepName) -> (r: Self)
        ensures
            r.spec_id() == id,
            r.spec_name() == name,
    {
        StepRecordHandle { id, name }
    }

    /// Whether the tracked record has already been stopped.
    pub fn is_stopped(&self, registry: &StdMetricsRegistry) -> (r: bool)
        ensures
            r == is_stopped_model(registry@, self.spec_id(), self.spec_name()),
    {
        registry.record_is_stopped(self.id, self.name)
    }

    /// Stops the tracked record with the given status.
    pub fn stop(&self, registry: &mut StdMetricsRegistry, status: StepStatus) -> (r: Option<
        StepRecord,
    >)
        requires
            old(registry).wf(),
        ensures
            final(registry).wf(),
            exists|now: u64|
                final(registry)@ == stop_model(
                    old(registry)@,
                    self.spec_id(),
                    self.spec_name(),
                    status,
                    now,
                ),
            r is Some <==> has_record(old(registry)@, self.spec_id(), self.spec_name()),
            r matches Some(rec) ==> key_matches(rec, self.spec_id(), self.spec_name())
                && rec.status == Some(status) && rec.duration is Some
                && final(registry)@.contains(rec),
    {
        let r = registry.stop_record(self.id, self.name, status);
        proof {
            let now = choose|now: u64|
                registry@ == stop_model(old(registry)@, self.id, self.name, status, now);
            assert(registry@ == stop_model(
                old(registry)@,
                self.spec_id(),
                self.spec_name(),
                status,
                now,
            ));
        }
        r
    }

    /// Gives the handle back: if the record was never stopped, it is
    /// finalized now with the `NotSet` status. This is the
    /// guaranteed-completion discipline — call it on every exit path.
    pub fn release(self, registry: &mut StdMetricsRegistry) -> (r: Option<StepRecord>)
        requires
            old(registry).wf(),
        ensures
            final(registry).wf(),
            exists|now: u64|
                final(registry)@ == release_model(
                    old(registry)@,
                    self.spec_id(),
                    self.spec_name(),
                    now,
                ),
            is_stopped_model(old(registry)@, self.spec_id(), self.spec_name()) ==> r is None,
            !is_stopped_model(old(registry)@, self.spec_id(), self.spec_name()) ==> (r is Some
                <==> has_record(old(registry)@, self.spec_id(), self.spec_name())),
            r matches Some(rec) ==> key_matches(rec, self.spec_id(), self.spec_name())
                && rec.status == Some(StepStatus::NotSet) && rec.duration is Some
                && final(registry)@.contains(rec),
    {
        if !self.is_stopped(registry) {
            let r = registry.stop_record(self.id, self.name, StepStatus::NotSet);
            proof {
                let now = choose|now: u64|
                    registry@ == stop_model(
                        old(registry)@,
                        self.spec_id(),
                        self.spec_name(),
                        StepStatus::NotSet,
                        now,
                    );
                assert(registry@ == release_model(
                    old(registry)@,
                    self.spec_id(),
                    self.spec_name(),
                    now,
                ));
            }
            r
        } else {
            proof {
                assert(registry@ == release_model(
                    old(registry)@,
                    self.spec_id(),
                    self.spec_name(),
                    0,
                ));
            }
            None
        }
    }
}

impl StdMetricsRegistry {
    /// The registry's records have pairwise distinct keys.
    pub open spec fn wf(&self) -> bool {
        wf_registry(self@)
    }

    /// An empty registry.
    pub fn new() -> (r: Self)
        ensures
            r@ == Seq::<StepRecord>::empty(),
            r.wf(),
    {
        StdMetricsRegistry { records: Vec::new() }
    }

    /// Opens a record for `(id, step_name)` at the current time and hands
    /// back the handle that guarantees its completion. A record already
    /// present under the same key is overwritten — last start wins.
    pub fn start_record(&mut self, id: u128, label: StepLabel, step_name: StepName) -> (handle:
        StepRecordHandle)
        requires
            old(self).wf(),
        ensures
            final(self).wf(),
            exists|now: u64|
                final(self)@ == start_model(old(self)@, id, label, step_name, now),
            handle.spec_id() == id,
            handle.spec_name() == step_name,
    {
        let ghost s0 = self.records@;
        let record = StepRecord::new(step_name, label, id);
        let mut kept: Vec<StepRecord> = Vec::new();
        let mut i: usize = 0;
        while i < self.records.len()
            invariant
                0 <= i <= self.records@.len(),
                self.records@ == s0,
                kept@ == s0.take(i as int).filter(other_key_pred(id, step_name)),
            decreases self.records@.len() - i,
        {
            proof {
                assert(s0.take(i + 1) =~= s0.take(i as int).push(s0[i as int]));
            }
            let r = self.records[i];
            if !(r.id == id && r.step_name == step_name) {
                proof {
                    assert(!key_matches(s0[i as int], id, step_name));
                }
                kept.push(r);
            } else {
                proof {
                    assert(key_matches(s0[i as int], id, step_name));
                }
            }
            i += 1;
        }
        proof {
            assert(s0.take(s0.len() as int) =~= s0);
            lemma_wf_filter(s0, other_key_pred(id, step_name));
        }
        kept.push(record);
        proof {
            let f = drop_record(s0, id, step_name);
            assert forall|a: int, b: int| 0 <= a < b < kept@.len() implies !(#[trigger] kept@[a].id
                == #[trigger] kept@[b].id && kept@[a].step_name == kept@[b].step_name) by {
                if b == kept@.len() - 1 {
                    assert(f.contains(f[a]));
                    assert(!key_matches(f[a], id, step_name));
                }
            }
        }
        self.records = kept;
        proof {
            assert(record == fresh_record(id, label, step_name, record.start_time));
            assert(self@ == start_model(s0, id, label, step_name, record.start_time));
        }
        StepRecordHandle::new(id, step_name)
    }

    /// Finishes the record of `(id, step_name)`: its duration becomes the
    /// time elapsed since its start and its status the one given. The
    /// finished record is returned for the caller's message sink; `None`
    /// says no such record was started.
    pub fn stop_record(&mut self, id: u128, step_name: StepName, status: StepStatus) -> (r:
        Option<StepRecord>)
        requires
            old(self).wf(),
        ensures
            final(self).wf(),
            exists|now: u64|
                final(self)@ == stop_model(old(self)@, id, step_name, status, now),
            r is Some <==> has_record(old(self)@, id, step_name),
            r matches Some(rec) ==> key_matches(rec, id, step_name) && rec.status == Some(status)
                && rec.duration is Some && final(self)@.contains(rec),
    {
        let ghost s0 = self.records@;
        let now = now_millis();
        let mut result: Option<StepRecord> = None;
        let mut i: usize = 0;
        while i < self.records.len()
            invariant
                0 <= i <= self.records@.len(),
                self.records@.len() == s0.len(),
                forall|j: int|
                    0 <= j < i ==> self.records@[j] == #[trigger] stop_fn(
                        id,
                        step_name,
                        status,
                        now,
                    )(s0[j]),
                forall|j: int| i <= j < s0.len() ==> #[trigger] self.records@[j] == s0[j],
                result is Some <==> exists|j: int|
                    0 <= j < i && key_matches(#[trigger] s0[j], id, step_name),
                result matches Some(rec) ==> exists|j: int|
                    0 <= j < i && key_matches(#[trigger] s0[j], id, step_name)
                        && rec == finish_record(s0[j], status, now) && self.records@[j] == rec,
            decreases self.records@.len() - i,
        {
            let r = self.records[i];
            if r.id == id && r.step_name == step_name {
                let duration: u64 = if now >= r.start_time {
                    now - r.start_time
                } else {
                    0
                };
                let finished = StepRecord {
                    step_name: r.step_name,
                    label: r.label,
                    id: r.id,
                    start_time: r.start_time,
                    duration: Some(duration),
                    status: Some(status),
                };
                proof {
                    assert(finished == finish_record(s0[i as int], status, now));
                }
                self.records.set(i, finished);
                result = Some(finished);
            }
            i += 1;
        }
        proof {
            assert(self.records@ =~= stop_model(s0, id, step_name, status, now));
            assert forall|a: int, b: int| 0 <= a < b < self.records@.len() implies !(
            #[trigger] self.records@[a].id == #[trigger] self.records@[b].id
                && self.records@[a].step_name == self.records@[b].step_name) by {
                assert(self.records@[a].id == s0[a].id && self.records@[a].step_name
                    == s0[a].step_name);
                assert(self.records@[b].id == s0[b].id && self.records@[b].step_name
                    == s0[b].step_name);
            }
            if result is Some {
                let rec = result->Some_0;
                let j = choose|j: int|
                    0 <= j < s0.len() && key_matches(s0[j], id, step_name) && rec == finish_record(
                        s0[j],
                        status,
                        now,
                    ) && self.records@[j] == rec;
                assert(self.records@.contains(rec));
            }
        }
        result
    }

    /// Whether the record of `(id, step_name)` exists and already carries a
    /// duration.
    pub fn record_is_stopped(&self, id: u128, step_name: StepName) -> (r: bool)
        ensures
            r == is_stopped_model(self@, id, step_name),
    {
        let mut i: usize = 0;
        while i < self.records.len()
            invariant
                0 <= i <= self.records@.len(),
                forall|j: int|
                    0 <= j < i ==> !(key_matches(#[trigger] self.records@[j], id, step_name)
                        && self.records@[j].duration is Some),
            decreases self.records@.len() - i,
        {
            let r = self.records[i];
            if r.id == id && r.step_name == step_name && r.duration.is_some() {
                return true;
            }
            i += 1;
        }
        false
    }

    /// The finished records of one entity, in registry order; records still
    /// running are not reported.
    pub fn get_records(&self, id: u128) -> (r: Vec<StepRecord>)
        ensures
            r@ == records_model(self@, id),
    {
        let ghost s0 = self.records@;
        let mut out: Vec<StepRecord> = Vec::new();
        let mut i: usize = 0;
        while i < self.records.len()
            invariant
                0 <= i <= self.records@.len(),
                self.records@ == s0,
                out@ == s0.take(i as int).filter(finished_for_pred(id)),
            decreases self.records@.len() - i,
        {
            proof {
                assert(s0.take(i + 1) =~= s0.take(i as int).push(s0[i as int]));
            }
            let r = self.records[i];
            if r.id == id && r.duration.is_some() {
                proof {
                    assert(finished_for_pred(id)(s0[i as int]));
                }
                out.push(r);
            } else {
                proof {
                    assert(!finished_for_pred(id)(s0[i as int]));
                }
            }
            i += 1;
        }
        proof {
            assert(s0.take(s0.len() as int) =~= s0);
        }
        out
    }

    /// Empties the registry.
    pub fn clear(&mut self)
        ensures
            final(self)@ == Seq::<StepRecord>::empty(),
            final(self).wf(),
    {
        self.records = Vec::new();
    }
}

impl Default for StdMetricsRegistry {
    /// An empty registry.
    fn default() -> (r: Self)
        ensures
            r@ == Seq::<StepRecord>::empty(),
            r.wf(),
    {
        StdMetricsRegistry::new()
    }
}

} // verus!
