use vstd::prelude::*;
use crate::visibility::{TickerVisibility, WindowState, spec_visibility, visibility_for_monitor};

verus! {

/// Seconds to wait after a failed resolution and after the event stream ends.
pub const RETRY_DELAY_SECS: u64 = 2;

/// Where the reconciliation loop stands.
#[derive(Clone, Copy, Debug, PartialEq, Eq, Structural)]
pub enum WatchPhase {
    /// The monitor name is to be resolved.
    Resolving,
    /// Resolution failed: wait before trying again.
    Backoff,
    /// Resolved to this id: probe and emit the initial visibility.
    Seeding(i64),
    /// Follow the event stream for this id until it ends.
    Streaming(i64),
    /// The stream ended: wait before re-probing.
    Cooling(i64),
    /// Probe again with the previous id, emit, then resolve afresh.
    Reseeding(i64),
}

/// The outside work that a phase asks for.
#[derive(Clone, Copy, Debug, PartialEq, Eq, Structural)]
pub enum WatchAction {
    /// Run the monitor inventory query.
    QueryMonitors,
    /// Sleep this many seconds.
    Sleep(u64),
    /// Run the active-window query.
    Probe,
    /// Follow the event stream for this monitor id until it ends.
    Stream(i64),
}

/// The outcome of an action, handed back to the loop.
#[derive(Clone, Copy, Debug, PartialEq, Eq, Structural)]
pub enum WatchEvent {
    /// The inventory query gave this id, or nothing.
    Resolved(Option<i64>),
    /// The sleep is over.
    Slept,
    /// The active-window query gave this state.
    Probed(WindowState),
    /// The event stream ended, cleanly or with an error.
    StreamEnded,
}

/// One transition: the phase that follows and what to emit, if anything.
#[derive(Clone, Copy, Debug, PartialEq, Eq, Structural)]
pub struct WatchStep {
    pub next: WatchPhase,
    pub emit: Option<TickerVisibility>,
}

/// The outside work each phase asks for.
pub open spec fn spec_action(p: WatchPhase) -> WatchAction {
    match p {
        WatchPhase::Resolving => WatchAction::QueryMonitors,
        WatchPhase::Backoff => WatchAction::Sleep(RETRY_DELAY_SECS),
        WatchPhase::Seeding(_) => WatchAction::Probe,
        WatchPhase::Streaming(id) => WatchAction::Stream(id),
        WatchPhase::Cooling(_) => WatchAction::Sleep(RETRY_DELAY_SECS),
        WatchPhase::Reseeding(_) => WatchAction::Probe,
    }
}

/// The transition relation. An outcome that does not answer the phase's
/// action leaves the phase as it is and emits nothing.
pub open spec fn spec_step(p: WatchPhase, ev: WatchEvent) -> WatchStep {
    match (p, ev) {
        (WatchPhase::Resolving, WatchEvent::Resolved(r)) => match r {
            Some(id) => WatchStep { next: WatchPhase::Seeding(id), emit: None },
            None => WatchStep { next: WatchPhase::Backoff, emit: None },
        },
        (WatchPhase::Backoff, WatchEvent::Slept) => WatchStep { next: WatchPhase::Resolving, emit: None },
        (WatchPhase::Seeding(id), WatchEvent::Probed(w)) => WatchStep {
            next: WatchPhase::Streaming(id),
            emit: Some(spec_visibility(w, id)),
        },
        (WatchPhase::Streaming(id), WatchEvent::StreamEnded) => WatchStep {
            next: WatchPhase::Cooling(id),
            emit: None,
        },
        (WatchPhase::Cooling(id), WatchEvent::Slept) => WatchStep {
            next: WatchPhase::Reseeding(id),
            emit: None,
        },
        (WatchPhase::Reseeding(id), WatchEvent::Probed(w)) => WatchStep {
            next: WatchPhase::Resolving,
            emit: Some(spec_visibility(w, id)),
        },
        _ => WatchStep { next: p, emit: None },
    }
}

impl WatchPhase {
    /// The phase the watcher starts in.
    pub fn start() -> (r: WatchPhase)
        ensures
            r == WatchPhase::Resolving,
    {
        WatchPhase::Resolving
    }

    /// The outside work this phase asks for.
    pub fn action(&self) -> (r: WatchAction)
        ensures
            r == spec_action(*self),
    {
        match self {
            WatchPhase::Resolving => WatchAction::QueryMonitors,
            WatchPhase::Backoff => WatchAction::Sleep(RETRY_DELAY_SECS),
            WatchPhase::Seeding(_) => WatchAction::Probe,
            WatchPhase::Streaming(id) => WatchAction::Stream(*id),
            WatchPhase::Cooling(_) => WatchAction::Sleep(RETRY_DELAY_SECS),
            WatchPhase::Reseeding(_) => WatchAction::Probe,
        }
    }

    /// Takes the outcome of this phase's action.
    pub fn step(&self, ev: &WatchEvent) -> (r: WatchStep)
        ensures
            r == spec_step(*self, *ev),
    {
        match (self, ev) {
            (WatchPhase::Resolving, WatchEvent::Resolved(r)) => match r {
                Some(id) => WatchStep { next: WatchPhase::Seeding(*id), emit: None },
                None => WatchStep { next: WatchPhase::Backoff, emit: None },
            },
            (WatchPhase::Backoff, WatchEvent::Slept) => WatchStep {
                next: WatchPhase::Resolving,
                emit: None,
            },
            (WatchPhase::Seeding(id), WatchEvent::Probed(w)) => WatchStep {
                next: WatchPhase::Streaming(*id),
                emit: Some(visibility_for_monitor(w, *id)),
            },
            (WatchPhase::Streaming(id), WatchEvent::StreamEnded) => WatchStep {
                next: WatchPhase::Cooling(*id),
                emit: None,
            },
            (WatchPhase::Cooling(id), WatchEvent::Slept) => WatchStep {
                next: WatchPhase::Reseeding(*id),
                emit: None,
            },
            (WatchPhase::Reseeding(id), WatchEvent::Probed(w)) => WatchStep {
                next: WatchPhase::Resolving,
                emit: Some(visibility_for_monitor(w, *id)),
            },
            _ => WatchStep { next: *self, emit: None },
        }
    }
}

/// The emissions of one step, as a sequence.
pub open spec fn emitted(e: Option<TickerVisibility>) -> Seq<TickerVisibility> {
    match e {
        Some(v) => seq![v],
        None => Seq::empty(),
    }
}

/// Feeds a sequence of outcomes to the loop from phase `p`: the phase reached
/// and everything emitted on the way, in order.
pub open spec fn run(p: WatchPhase, evs: Seq<WatchEvent>) -> (WatchPhase, Seq<TickerVisibility>)
    decreases evs.len(),
{
    if evs.len() == 0 {
        (p, Seq::empty())
    } else {
        let s = spec_step(p, evs[0]);
        let rest = run(s.next, evs.drop_first());
        (rest.0, emitted(s.emit) + rest.1)
    }
}

/// The actions the loop asks for, one before each outcome, on the same run.
pub open spec fn actions_of(p: WatchPhase, evs: Seq<WatchEvent>) -> Seq<WatchAction>
    decreases evs.len(),
{
    if evs.len() == 0 {
        Seq::empty()
    } else {
        seq![spec_action(p)] + actions_of(spec_step(p, evs[0]).next, evs.drop_first())
    }
}

/// `n` failed inventory queries, each followed by its back-off sleep.
pub open spec fn failed_resolutions(n: nat) -> Seq<WatchEvent>
    decreases n,
{
    if n == 0 {
        Seq::empty()
    } else {
        seq![WatchEvent::Resolved(None), WatchEvent::Slept] + failed_resolutions((n - 1) as nat)
    }
}

/// `n` inventory queries, each followed by a back-off sleep.
pub open spec fn retry_actions(n: nat) -> Seq<WatchAction>
    decreases n,
{
    if n == 0 {
        Seq::empty()
    } else {
        seq![WatchAction::QueryMonitors, WatchAction::Sleep(RETRY_DELAY_SECS)] + retry_actions(
            (n - 1) as nat,
        )
    }
}

/// Running two sequences of outcomes one after the other is running their
/// concatenation.
pub proof fn lemma_run_append(p: WatchPhase, a: Seq<WatchEvent>, b: Seq<WatchEvent>)
    ensures
        run(p, a + b) == (run(run(p, a).0, b).0, run(p, a).1 + run(run(p, a).0, b).1),
        actions_of(p, a + b) == actions_of(p, a) + actions_of(run(p, a).0, b),
    decreases a.len(),
{
    if a.len() == 0 {
        assert(a + b =~= b);
        assert(run(p, a).1 + run(run(p, a).0, b).1 =~= run(p, b).1);
        assert(actions_of(p, a) + actions_of(run(p, a).0, b) =~= actions_of(p, b));
    } else {
        let s = spec_step(p, a[0]);
        assert((a + b)[0] == a[0]);
        assert((a + b).drop_first() =~= a.drop_first() + b);
        lemma_run_append(s.next, a.drop_first(), b);
        assert(emitted(s.emit) + (run(s.next, a.drop_first()).1 + run(run(s.next, a.drop_first()).0, b).1)
            =~= (emitted(s.emit) + run(s.next, a.drop_first()).1) + run(run(s.next, a.drop_first()).0, b).1);
        assert(seq![spec_action(p)] + (actions_of(s.next, a.drop_first()) + actions_of(run(s.next, a.drop_first()).0, b))
            =~= (seq![spec_action(p)] + actions_of(s.next, a.drop_first())) + actions_of(run(s.next, a.drop_first()).0, b));
    }
}

/// Each failed resolution costs one inventory query and one back-off sleep of
/// `RETRY_DELAY_SECS`, emits nothing, and leads back to resolving.
pub proof fn lemma_resolution_retry(n: nat)
    ensures
        run(WatchPhase::Resolving, failed_resolutions(n)) == (WatchPhase::Resolving, Seq::<TickerVisibility>::empty()),
        actions_of(WatchPhase::Resolving, failed_resolutions(n)) == retry_actions(n),
    decreases n,
{
    if n > 0 {
        let once = seq![WatchEvent::Resolved(None), WatchEvent::Slept];
        let rest = failed_resolutions((n - 1) as nat);
        lemma_resolution_retry((n - 1) as nat);
        lemma_run_append(WatchPhase::Resolving, once, rest);
        assert(once.drop_first() =~= seq![WatchEvent::Slept]);
        assert(once.drop_first().drop_first() =~= Seq::<WatchEvent>::empty());
        reveal_with_fuel(run, 3);
        reveal_with_fuel(actions_of, 3);
        assert(run(WatchPhase::Resolving, once) == (WatchPhase::Resolving, Seq::<TickerVisibility>::empty())) by {
            assert(emitted(None) + Seq::<TickerVisibility>::empty() =~= Seq::<TickerVisibility>::empty());
        }
        assert(actions_of(WatchPhase::Resolving, once) =~= seq![
            WatchAction::QueryMonitors,
            WatchAction::Sleep(RETRY_DELAY_SECS),
        ]);
        assert(Seq::<TickerVisibility>::empty() + Seq::<TickerVisibility>::empty() =~= Seq::<TickerVisibility>::empty());
    }
}

/// After the event stream ends, the loop waits, emits the visibility of a
/// fresh probe under the previous id, then resolves again (through any number
/// of failed attempts) and emits the visibility of another fresh probe under
/// the new id; nothing else is emitted in between.
pub proof fn lemma_recovery_convergence(id: i64, before: WindowState, n: nat, new_id: i64, after: WindowState)
    ensures
        run(
            WatchPhase::Streaming(id),
            seq![WatchEvent::StreamEnded, WatchEvent::Slept, WatchEvent::Probed(before)]
                + failed_resolutions(n) + seq![WatchEvent::Resolved(Some(new_id)), WatchEvent::Probed(after)],
        ) == (WatchPhase::Streaming(new_id), seq![spec_visibility(before, id), spec_visibility(after, new_id)]),
        actions_of(
            WatchPhase::Streaming(id),
            seq![WatchEvent::StreamEnded, WatchEvent::Slept, WatchEvent::Probed(before)]
                + failed_resolutions(n) + seq![WatchEvent::Resolved(Some(new_id)), WatchEvent::Probed(after)],
        ) == seq![WatchAction::Stream(id), WatchAction::Sleep(RETRY_DELAY_SECS), WatchAction::Probe]
            + retry_actions(n) + seq![WatchAction::QueryMonitors, WatchAction::Probe],
{
    let a = seq![WatchEvent::StreamEnded, WatchEvent::Slept, WatchEvent::Probed(before)];
    let f = failed_resolutions(n);
    let c = seq![WatchEvent::Resolved(Some(new_id)), WatchEvent::Probed(after)];
    reveal_with_fuel(run, 4);
    reveal_with_fuel(actions_of, 4);
    assert(a.drop_first() =~= seq![WatchEvent::Slept, WatchEvent::Probed(before)]);
    assert(a.drop_first().drop_first() =~= seq![WatchEvent::Probed(before)]);
    assert(a.drop_first().drop_first().drop_first() =~= Seq::<WatchEvent>::empty());
    assert(c.drop_first() =~= seq![WatchEvent::Probed(after)]);
    assert(c.drop_first().drop_first() =~= Seq::<WatchEvent>::empty());
    let v1 = spec_visibility(before, id);
    let v2 = spec_visibility(after, new_id);
    assert(run(WatchPhase::Streaming(id), a) == (WatchPhase::Resolving, seq![v1])) by {
        assert(emitted(None) + (emitted(None) + (emitted(Some(v1)) + Seq::<TickerVisibility>::empty()))
            =~= seq![v1]);
    }
    assert(run(WatchPhase::Resolving, c) == (WatchPhase::Streaming(new_id), seq![v2])) by {
        assert(emitted(None) + (emitted(Some(v2)) + Seq::<TickerVisibility>::empty()) =~= seq![v2]);
    }
    assert(actions_of(WatchPhase::Streaming(id), a) =~= seq![
        WatchAction::Stream(id),
        WatchAction::Sleep(RETRY_DELAY_SECS),
        WatchAction::Probe,
    ]);
    assert(actions_of(WatchPhase::Resolving, c) =~= seq![WatchAction::QueryMonitors, WatchAction::Probe]);
    lemma_resolution_retry(n);
    lemma_run_append(WatchPhase::Streaming(id), a, f);
    lemma_run_append(WatchPhase::Streaming(id), a + f, c);
    assert(seq![v1] + Seq::<TickerVisibility>::empty() + seq![v2] =~= seq![v1, v2]);
}

/// The loop does not suppress repeats: the same probe result, taken once at
/// seeding and again at re-seeding, is emitted twice.
pub proof fn lemma_same_probe_emitted_twice(id: i64, w: WindowState)
    ensures
        run(
            WatchPhase::Seeding(id),
            seq![WatchEvent::Probed(w), WatchEvent::StreamEnded, WatchEvent::Slept, WatchEvent::Probed(w)],
        ) == (WatchPhase::Resolving, seq![spec_visibility(w, id), spec_visibility(w, id)]),
{
    let evs = seq![WatchEvent::Probed(w), WatchEvent::StreamEnded, WatchEvent::Slept, WatchEvent::Probed(w)];
    let v = spec_visibility(w, id);
    reveal_with_fuel(run, 5);
    assert(evs.drop_first() =~= seq![WatchEvent::StreamEnded, WatchEvent::Slept, WatchEvent::Probed(w)]);
    assert(evs.drop_first().drop_first() =~= seq![WatchEvent::Slept, WatchEvent::Probed(w)]);
    assert(evs.drop_first().drop_first().drop_first() =~= seq![WatchEvent::Probed(w)]);
    assert(evs.drop_first().drop_first().drop_first().drop_first() =~= Seq::<WatchEvent>::empty());
    assert(emitted(Some(v)) + (emitted(None) + (emitted(None) + (emitted(Some(v))
        + Seq::<TickerVisibility>::empty()))) =~= seq![v, v]);
}

} // verus!
