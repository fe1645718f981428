use vstd::prelude::*;

use crate::detect::detect;
use crate::detect::spec_changed;
use crate::publish::Alert;
use crate::publish::alert_for;
use crate::publish::spec_alert_body;
use crate::publish::spec_alert_title;
use crate::status::FetchError;
use crate::status::StatusView;
use crate::status::VpnStatus;
use crate::store::StatusStore;

verus! {

pub open spec fn view_result(r: Result<VpnStatus, FetchError>) -> Result<StatusView, FetchError> {
    match r {
        Ok(st) => Ok(st@),
        Err(e) => Err(e),
    }
}

/// How one poll outcome updates the stored state: a success replaces it,
/// a failure leaves the last known state untouched.
pub open spec fn next_store(
    cur: Option<StatusView>,
    f: Result<StatusView, FetchError>,
) -> Option<StatusView> {
    match f {
        Ok(st) => Some(st),
        Err(_) => cur,
    }
}

/// What the presentation layer is told after a successful cycle.
pub struct PublishEvent {
    pub status: VpnStatus,
    pub changed: bool,
    pub alert: Option<Alert>,
}

/// Everything one poll cycle asks of the outside world.
pub struct CycleOutcome {
    /// `Some` exactly on a successful fetch: the fan-out to the
    /// presentation layer.
    pub published: Option<PublishEvent>,
    /// `Some` exactly on a failed fetch: the report for the diagnostic
    /// sink.
    pub failure: Option<FetchError>,
}

/// One poll cycle, given the fetch outcome: detect the transition against
/// the store, update the store on success, and say what to publish or
/// report. A failure leaves the store untouched and publishes nothing.
pub fn run_cycle(store: &mut StatusStore, fetched: Result<VpnStatus, FetchError>) -> (o:
    CycleOutcome)
    ensures
        final(store)@ == next_store(old(store)@, view_result(fetched)),
        match view_result(fetched) {
            Ok(st) => o.failure is None && (o.published matches Some(ev)
                && ev.status@ == st
                && ev.changed == spec_changed(old(store)@, st)
                && (ev.changed ==> (ev.alert matches Some(a)
                    && a.title@ == spec_alert_title()
                    && a.body@ == spec_alert_body(st)))
                && (!ev.changed ==> ev.alert is None)),
            Err(e) => o.published is None && o.failure == Some(e),
        },
{
    match fetched {
        Ok(status) => {
            let transition = detect(store.read(), &status);
            let alert = if transition.changed {
                Some(alert_for(&status))
            } else {
                None
            };
            let published = PublishEvent { status: status.clone(), changed: transition.changed, alert };
            store.write(status);
            CycleOutcome { published: Some(published), failure: None }
        },
        Err(e) => CycleOutcome { published: None, failure: Some(e) },
    }
}

/// Where the monitor stands between events.
#[derive(Clone, Copy, Debug, PartialEq, Eq, Structural)]
pub enum MonitorPhase {
    /// Waiting for the next tick of the poll cadence.
    Idle,
    /// A fetch is in flight; no second fetch may start.
    Fetching,
    /// A fetch succeeded and its fan-out is being delivered.
    Publishing,
}

/// The monitor's control state: its phase and the stop latch. The stored
/// status lives apart in the `StatusStore`, which other readers share.
#[derive(Clone, Copy, Debug, PartialEq, Eq, Structural)]
pub struct Monitor {
    pub phase: MonitorPhase,
    pub stop_requested: bool,
}

/// What the driving loop tells the monitor.
pub enum MonitorEvent {
    /// The poll cadence elapsed.
    Tick,
    /// The in-flight fetch resolved.
    FetchResolved(Result<VpnStatus, FetchError>),
    /// The fan-out of the last success was delivered.
    Published,
    /// An external stop signal arrived.
    StopRequested,
}

/// What the monitor asks the driving loop to do next.
pub enum MonitorAction {
    /// Start one fetch against the status endpoint.
    BeginFetch,
    /// Fan the new state out to the presentation layer.
    Publish(PublishEvent),
    /// Hand a fetch failure to the diagnostic sink.
    Report(FetchError),
    /// Stop driving the monitor: the stop request has been honored.
    Halt,
    /// Nothing to do; wait for the next event.
    Continue,
}

/// The part of an event that the control state depends on.
#[derive(Clone, Copy, Debug, PartialEq, Eq, Structural)]
pub enum EventShape {
    Tick,
    FetchOk,
    FetchFailed,
    Published,
    StopRequested,
}

pub open spec fn event_shape(ev: MonitorEvent) -> EventShape {
    match ev {
        MonitorEvent::Tick => EventShape::Tick,
        MonitorEvent::FetchResolved(Ok(_)) => EventShape::FetchOk,
        MonitorEvent::FetchResolved(Err(_)) => EventShape::FetchFailed,
        MonitorEvent::Published => EventShape::Published,
        MonitorEvent::StopRequested => EventShape::StopRequested,
    }
}

/// The monitor's control state after one event. A stop request latches;
/// every other event moves the phase through
/// Idle -> Fetching -> (Publishing ->) Idle, and an event that does not
/// belong to the current phase changes nothing.
pub open spec fn spec_next_monitor(m: Monitor, s: EventShape) -> Monitor {
    let stop = m.stop_requested || s is StopRequested;
    let phase = match (m.phase, s) {
        (MonitorPhase::Idle, EventShape::Tick) => if m.stop_requested {
            MonitorPhase::Idle
        } else {
            MonitorPhase::Fetching
        },
        (MonitorPhase::Fetching, EventShape::FetchOk) => MonitorPhase::Publishing,
        (MonitorPhase::Fetching, EventShape::FetchFailed) => MonitorPhase::Idle,
        (MonitorPhase::Publishing, EventShape::Published) => MonitorPhase::Idle,
        _ => m.phase,
    };
    Monitor { phase, stop_requested: stop }
}

/// Whether one event makes the monitor start a fetch: only a tick in the
/// idle phase with no stop requested does.
pub open spec fn spec_starts_fetch(m: Monitor, s: EventShape) -> bool {
    m.phase == MonitorPhase::Idle && s == EventShape::Tick && !m.stop_requested
}

/// Whether one event makes the monitor ask its driver to stop: only a
/// tick in the idle phase under a requested stop does. In particular no
/// fetch failure, and no event at all while no stop was requested, ever
/// ends the polling.
pub open spec fn spec_halts(m: Monitor, s: EventShape) -> bool {
    m.phase == MonitorPhase::Idle && s == EventShape::Tick && m.stop_requested
}

impl Monitor {
    /// The monitor before its first tick: idle, no stop requested.
    pub fn new() -> (m: Self)
        ensures
            m == (Monitor { phase: MonitorPhase::Idle, stop_requested: false }),
    {
        Monitor { phase: MonitorPhase::Idle, stop_requested: false }
    }
}

/// Feed one event to the monitor. The control state follows
/// `spec_next_monitor`; a fetch starts exactly when `spec_starts_fetch`
/// says so; a resolved fetch runs one poll cycle against the store, whose
/// outcome the returned action carries; a tick under a requested stop —
/// and nothing else — halts the loop. No fetch failure ever stops the
/// monitor: it is only reported.
pub fn monitor_step(m: &mut Monitor, store: &mut StatusStore, ev: MonitorEvent) -> (a:
    MonitorAction)
    ensures
        *final(m) == spec_next_monitor(*old(m), event_shape(ev)),
        (a is BeginFetch) == spec_starts_fetch(*old(m), event_shape(ev)),
        (a is Halt) == spec_halts(*old(m), event_shape(ev)),
        match ev {
            MonitorEvent::FetchResolved(f) => if old(m).phase == MonitorPhase::Fetching {
                final(store)@ == next_store(old(store)@, view_result(f)) && match view_result(f) {
                    Ok(st) => a matches MonitorAction::Publish(ev2)
                        && ev2.status@ == st
                        && ev2.changed == spec_changed(old(store)@, st)
                        && (ev2.changed ==> (ev2.alert matches Some(al)
                            && al.title@ == spec_alert_title()
                            && al.body@ == spec_alert_body(st)))
                        && (!ev2.changed ==> ev2.alert is None),
                    Err(e) => a == MonitorAction::Report(e),
                }
            } else {
                final(store)@ == old(store)@ && a is Continue
            },
            MonitorEvent::Tick => final(store)@ == old(store)@ && (old(m).phase
                != MonitorPhase::Idle ==> a is Continue),
            _ => final(store)@ == old(store)@ && a is Continue,
        },
{
    match ev {
        MonitorEvent::Tick => {
            if m.phase == MonitorPhase::Idle {
                if m.stop_requested {
                    MonitorAction::Halt
                } else {
                    m.phase = MonitorPhase::Fetching;
                    MonitorAction::BeginFetch
                }
            } else {
                MonitorAction::Continue
            }
        },
        MonitorEvent::FetchResolved(f) => {
            if m.phase == MonitorPhase::Fetching {
                let ok = f.is_ok();
                let outcome = run_cycle(store, f);
                if ok {
                    m.phase = MonitorPhase::Publishing;
                } else {
                    m.phase = MonitorPhase::Idle;
                }
                match outcome.published {
                    Some(ev2) => MonitorAction::Publish(ev2),
                    None => match outcome.failure {
                        Some(e) => MonitorAction::Report(e),
                        None => MonitorAction::Continue,
                    },
                }
            } else {
                MonitorAction::Continue
            }
        },
        MonitorEvent::Published => {
            if m.phase == MonitorPhase::Publishing {
                m.phase = MonitorPhase::Idle;
            }
            MonitorAction::Continue
        },
        MonitorEvent::StopRequested => {
            m.stop_requested = true;
            MonitorAction::Continue
        },
    }
}

/// The stored state after a run of poll cycles with the given fetch
/// outcomes, starting from `init`.
pub open spec fn store_after(
    init: Option<StatusView>,
    rs: Seq<Result<StatusView, FetchError>>,
) -> Option<StatusView>
    decreases rs.len(),
{
    if rs.len() == 0 {
        init
    } else {
        store_after(next_store(init, rs[0]), rs.drop_first())
    }
}

/// The most recent successful outcome in `rs`, if any.
pub open spec fn last_success(rs: Seq<Result<StatusView, FetchError>>) -> Option<StatusView>
    decreases rs.len(),
{
    if rs.len() == 0 {
        None
    } else {
        match rs.last() {
            Ok(st) => Some(st),
            Err(_) => last_success(rs.drop_last()),
        }
    }
}

proof fn lemma_store_after_snoc(
    init: Option<StatusView>,
    rs: Seq<Result<StatusView, FetchError>>,
    r: Result<StatusView, FetchError>,
)
    ensures
        store_after(init, rs.push(r)) == next_store(store_after(init, rs), r),
    decreases rs.len(),
{
    if rs.len() == 0 {
        assert(rs.push(r)[0] == r);
        assert(rs.push(r).drop_first() =~= rs);
        assert(store_after(init, rs.push(r)) == store_after(next_store(init, r), rs));
        assert(store_after(next_store(init, r), rs) == next_store(init, r));
        assert(store_after(init, rs) == init);
    } else {
        assert(rs.push(r)[0] == rs[0]);
        assert(rs.push(r).drop_first() =~= rs.drop_first().push(r));
        lemma_store_after_snoc(next_store(init, rs[0]), rs.drop_first(), r);
        assert(store_after(init, rs.push(r)) == store_after(
            next_store(init, rs[0]),
            rs.drop_first().push(r),
        ));
        assert(store_after(init, rs) == store_after(next_store(init, rs[0]), rs.drop_first()));
    }
}

/// Law: after any sequence of poll cycles, the store holds the most
/// recent successful fetch result; if none succeeded it still holds the
/// initial value. Failures are invisible to the store.
pub proof fn lemma_store_tracks_last_success(
    init: Option<StatusView>,
    rs: Seq<Result<StatusView, FetchError>>,
)
    ensures
        store_after(init, rs) == match last_success(rs) {
            Some(st) => Some(st),
            None => init,
        },
    decreases rs.len(),
{
    if rs.len() > 0 {
        lemma_store_tracks_last_success(init, rs.drop_last());
        lemma_store_after_snoc(init, rs.drop_last(), rs.last());
        assert(rs.drop_last().push(rs.last()) =~= rs);
    }
}

/// Whether one poll cycle with outcome `f` against a store holding `cur`
/// publishes a connectivity change.
pub open spec fn cycle_changed(
    cur: Option<StatusView>,
    f: Result<StatusView, FetchError>,
) -> bool {
    match f {
        Ok(st) => spec_changed(cur, st),
        Err(_) => false,
    }
}

/// How many of the poll cycles with outcomes `rs`, starting from `init`,
/// publish a connectivity change.
pub open spec fn changed_count(
    init: Option<StatusView>,
    rs: Seq<Result<StatusView, FetchError>>,
) -> nat
    decreases rs.len(),
{
    if rs.len() == 0 {
        0nat
    } else {
        (if cycle_changed(init, rs[0]) {
            1nat
        } else {
            0nat
        }) + changed_count(next_store(init, rs[0]), rs.drop_first())
    }
}

proof fn lemma_same_connectivity_never_changes(p: StatusView, st: StatusView, n: nat)
    requires
        p.connected == st.connected,
    ensures
        changed_count(Some(p), Seq::new(n, |i: int| Ok(st))) == 0,
    decreases n,
{
    let rs = Seq::new(n, |i: int| Ok::<StatusView, FetchError>(st));
    if n > 0 {
        assert(rs.drop_first() =~= Seq::new((n - 1) as nat, |i: int| Ok::<StatusView, FetchError>(st)));
        lemma_same_connectivity_never_changes(st, st, (n - 1) as nat);
    }
}

/// Law (idempotence): a run of identical successful fetches publishes a
/// connectivity change at most once — on the first cycle, and only when
/// that first cycle differs from the initial store value.
pub proof fn lemma_identical_fetches_change_once(init: Option<StatusView>, st: StatusView, n: nat)
    ensures
        changed_count(init, Seq::new(n, |i: int| Ok(st))) == if n > 0 && spec_changed(init, st) {
            1nat
        } else {
            0nat
        },
{
    let rs = Seq::new(n, |i: int| Ok::<StatusView, FetchError>(st));
    if n > 0 {
        assert(rs.drop_first() =~= Seq::new((n - 1) as nat, |i: int| Ok::<StatusView, FetchError>(st)));
        lemma_same_connectivity_never_changes(st, st, (n - 1) as nat);
    }
}

/// Law: at most one fetch is in flight at a time. A fetch starts only
/// from the idle phase and moves the monitor to the fetching phase, where
/// no event starts another fetch before the in-flight one resolves.
pub proof fn lemma_no_overlapping_fetches(m: Monitor, s: EventShape)
    ensures
        spec_starts_fetch(m, s) ==> m.phase == MonitorPhase::Idle && spec_next_monitor(
            m,
            s,
        ).phase == MonitorPhase::Fetching,
        m.phase == MonitorPhase::Fetching ==> !spec_starts_fetch(m, s),
{
}

/// The monitor's control state after a sequence of events.
pub open spec fn monitor_after(m: Monitor, evs: Seq<EventShape>) -> Monitor
    decreases evs.len(),
{
    if evs.len() == 0 {
        m
    } else {
        monitor_after(spec_next_monitor(m, evs[0]), evs.drop_first())
    }
}

/// Whether any event in `evs` makes the monitor start a fetch.
pub open spec fn any_fetch_started(m: Monitor, evs: Seq<EventShape>) -> bool
    decreases evs.len(),
{
    if evs.len() == 0 {
        false
    } else {
        spec_starts_fetch(m, evs[0]) || any_fetch_started(
            spec_next_monitor(m, evs[0]),
            evs.drop_first(),
        )
    }
}

/// Law (cancellation): once a stop has been requested, no sequence of
/// later events makes the monitor start another fetch, and the stop
/// request never unlatches.
pub proof fn lemma_stop_prevents_fetch(m: Monitor, evs: Seq<EventShape>)
    requires
        m.stop_requested,
    ensures
        !any_fetch_started(m, evs),
        monitor_after(m, evs).stop_requested,
    decreases evs.len(),
{
    if evs.len() > 0 {
        lemma_stop_prevents_fetch(spec_next_monitor(m, evs[0]), evs.drop_first());
    }
}

/// Whether any event in `evs` makes the monitor ask its driver to stop.
pub open spec fn any_halt(m: Monitor, evs: Seq<EventShape>) -> bool
    decreases evs.len(),
{
    if evs.len() == 0 {
        false
    } else {
        spec_halts(m, evs[0]) || any_halt(spec_next_monitor(m, evs[0]), evs.drop_first())
    }
}

/// Law (the loop outlives every failure): with no stop requested and none
/// arriving, no sequence of events — fetch failures of any length
/// included — makes the monitor ask its driver to halt.
pub proof fn lemma_no_halt_without_stop(m: Monitor, evs: Seq<EventShape>)
    requires
        !m.stop_requested,
        forall|i: int| 0 <= i < evs.len() ==> evs[i] != EventShape::StopRequested,
    ensures
        !any_halt(m, evs),
    decreases evs.len(),
{
    if evs.len() > 0 {
        assert(forall|i: int|
            0 <= i < evs.drop_first().len() ==> evs.drop_first()[i] == evs[i + 1]);
        lemma_no_halt_without_stop(spec_next_monitor(m, evs[0]), evs.drop_first());
    }
}

} // verus!
