//! The heartbeat that keeps a registration alive.
//!
//! After registering, an instance tells the discovery service that it is
//! still there once per interval, for as long as the process runs. The
//! [`Heartbeat`] decides what the background task does next: wait for the
//! interval, send a beat, or stop. Its caller sleeps and sends, and reports
//! each result as a [`HeartbeatEvent`].
//!
//! A beat that fails is counted and otherwise changes nothing: the next beat
//! goes out one interval later, as if the failed one had arrived.

use crate::descriptor::{Registration, ServiceIdentity};
use crate::error::ConfigurationError;
use vstd::prelude::*;

verus! {

/// The interval, in seconds, at which a gateway sends heartbeats unless
/// configured otherwise.
pub const DEFAULT_INTERVAL_SECS: u64 = 30;

/// Everything a heartbeat task needs, handed over once when it starts.
#[derive(Debug)]
pub struct HeartbeatConfig<C> {
    /// The connection on which the identity was issued.
    pub connection: C,
    /// The identity to keep alive.
    pub identity: ServiceIdentity,
    /// The time between two beats, in seconds.
    pub interval_secs: u64,
}

impl<C> HeartbeatConfig<C> {
    /// The configuration that keeps `registration` alive: its identity, on
    /// the very connection that issued it.
    pub fn for_registration(registration: Registration<C>, interval_secs: u64) -> (r:
        HeartbeatConfig<C>)
        ensures
            r.connection == registration.connection,
            r.identity == registration.identity,
            r.interval_secs == interval_secs,
    {
        HeartbeatConfig {
            connection: registration.connection,
            identity: registration.identity,
            interval_secs,
        }
    }
}

/// What the caller observed while carrying out the heartbeat's last request.
#[derive(Clone, Copy, Debug, PartialEq, Eq, Structural)]
pub enum HeartbeatEvent {
    /// The interval has passed.
    Elapsed,
    /// The beat was sent and acknowledged.
    Delivered,
    /// The beat could not be sent, or was not acknowledged.
    SendFailed,
    /// The process is shutting down.
    Shutdown,
}

/// What the heartbeat asks its caller to do next.
#[derive(Clone, Copy, Debug, PartialEq, Eq, Structural)]
pub enum HeartbeatAction {
    /// Sleep for this many seconds.
    Wait(u64),
    /// Send one beat that names the heartbeat's identity, over the
    /// heartbeat's connection.
    Send,
    /// The event did not apply; keep on with the operation under way.
    Ignored,
    /// Leave the loop.
    Stop,
}

/// What a heartbeat is busy with.
#[derive(Clone, Copy, Debug, PartialEq, Eq, Structural)]
pub enum BeatPhase {
    /// Sleeping until the next beat is due.
    Waiting,
    /// A beat is on its way.
    Sending,
    /// Shut down; nothing more will be sent.
    Stopped,
}

/// The part of a heartbeat that changes while it runs.
pub struct BeatState {
    /// What the heartbeat is busy with.
    pub phase: BeatPhase,
    /// How many beats in a row have failed, up to `u64::MAX`.
    pub missed: u64,
}

/// The state in which every heartbeat starts: waiting for its first
/// interval to pass, with no beat missed.
pub open spec fn initial_state() -> BeatState {
    BeatState { phase: BeatPhase::Waiting, missed: 0 }
}

/// One more missed beat, counted without overflow.
pub open spec fn one_more(missed: u64) -> u64 {
    if missed < u64::MAX {
        (missed + 1) as u64
    } else {
        missed
    }
}

/// The state that follows `state` when `event` is reported.
pub open spec fn step_state(state: BeatState, event: HeartbeatEvent) -> BeatState {
    match (state.phase, event) {
        (BeatPhase::Stopped, _) => state,
        (_, HeartbeatEvent::Shutdown) => BeatState { phase: BeatPhase::Stopped, ..state },
        (BeatPhase::Waiting, HeartbeatEvent::Elapsed) => BeatState {
            phase: BeatPhase::Sending,
            ..state
        },
        (BeatPhase::Sending, HeartbeatEvent::Delivered) => BeatState {
            phase: BeatPhase::Waiting,
            missed: 0,
        },
        (BeatPhase::Sending, HeartbeatEvent::SendFailed) => BeatState {
            phase: BeatPhase::Waiting,
            missed: one_more(state.missed),
        },
        _ => state,
    }
}

/// The request that a heartbeat with the given interval makes when `event`
/// is reported in `state`.
pub open spec fn step_action(interval_secs: u64, state: BeatState, event: HeartbeatEvent)
    -> HeartbeatAction {
    match (state.phase, event) {
        (BeatPhase::Stopped, _) => HeartbeatAction::Stop,
        (_, HeartbeatEvent::Shutdown) => HeartbeatAction::Stop,
        (BeatPhase::Waiting, HeartbeatEvent::Elapsed) => HeartbeatAction::Send,
        (BeatPhase::Sending, HeartbeatEvent::Delivered) => HeartbeatAction::Wait(interval_secs),
        (BeatPhase::Sending, HeartbeatEvent::SendFailed) => HeartbeatAction::Wait(interval_secs),
        _ => HeartbeatAction::Ignored,
    }
}

/// The decisions of one heartbeat task.
#[derive(Debug)]
pub struct Heartbeat<C> {
    connection: C,
    identity: ServiceIdentity,
    interval_secs: u64,
    phase: BeatPhase,
    missed: u64,
}

impl<C> Heartbeat<C> {
    #[verifier::type_invariant]
    spec fn interval_is_positive(self) -> bool {
        self.interval_secs > 0
    }

    /// The connection that every beat travels on.
    pub closed spec fn connection_view(&self) -> C {
        self.connection
    }

    /// The identity that every beat names.
    pub closed spec fn identity_view(&self) -> Seq<char> {
        self.identity@
    }

    /// The time between two beats, in seconds.
    pub closed spec fn interval(&self) -> u64 {
        self.interval_secs
    }

    /// The part of the heartbeat that changes while it runs.
    pub closed spec fn state(&self) -> BeatState {
        BeatState { phase: self.phase, missed: self.missed }
    }

    /// Sets up a heartbeat from its configuration.
    ///
    /// An interval of zero is a configuration error, and then no heartbeat
    /// exists that could ask for anything. Otherwise the heartbeat keeps the
    /// configured connection, identity and interval for good, and first asks
    /// to wait for one interval.
    pub fn new(config: HeartbeatConfig<C>) -> (r: Result<
        (Heartbeat<C>, HeartbeatAction),
        ConfigurationError,
    >)
        ensures
            match r {
                Ok((heartbeat, action)) => {
                    &&& config.interval_secs > 0
                    &&& heartbeat.connection_view() == config.connection
                    &&& heartbeat.identity_view() == config.identity@
                    &&& heartbeat.identity_view().len() > 0
                    &&& heartbeat.interval() == config.interval_secs
                    &&& heartbeat.state() == initial_state()
                    &&& action == HeartbeatAction::Wait(config.interval_secs)
                },
                Err(error) => config.interval_secs == 0 && error
                    == ConfigurationError::InvalidInterval,
            },
    {
        if config.interval_secs == 0 {
            return Err(ConfigurationError::InvalidInterval);
        }
        proof {
            use_type_invariant(&config.identity);
        }
        let interval_secs: u64 = config.interval_secs;
        let heartbeat = Heartbeat {
            connection: config.connection,
            identity: config.identity,
            interval_secs,
            phase: BeatPhase::Waiting,
            missed: 0,
        };
        Ok((heartbeat, HeartbeatAction::Wait(interval_secs)))
    }

    /// The connection to send beats on.
    pub fn connection(&self) -> (r: &C)
        ensures
            *r == self.connection_view(),
    {
        &self.connection
    }

    /// The identity to name in each beat.
    pub fn identity(&self) -> (r: &ServiceIdentity)
        ensures
            r@ == self.identity_view(),
            r@.len() > 0,
    {
        proof {
            use_type_invariant(&self.identity);
        }
        &self.identity
    }

    /// The time between two beats, in seconds; never zero.
    pub fn interval_secs(&self) -> (r: u64)
        ensures
            r == self.interval(),
            r > 0,
    {
        proof {
            use_type_invariant(self);
        }
        self.interval_secs
    }

    /// How many beats in a row have failed. The count returns to zero with
    /// the next beat that is delivered.
    pub fn missed_beats(&self) -> (r: u64)
        ensures
            r == self.state().missed,
    {
        self.missed
    }

    /// Whether the heartbeat has been shut down.
    pub fn is_stopped(&self) -> (r: bool)
        ensures
            r == (self.state().phase == BeatPhase::Stopped),
    {
        match self.phase {
            BeatPhase::Stopped => true,
            _ => false,
        }
    }

    /// Takes in what the caller observed and says what to do next.
    ///
    /// Connection, identity and interval stay as configured.
    pub fn step(&mut self, event: HeartbeatEvent) -> (action: HeartbeatAction)
        ensures
            final(self).state() == step_state(old(self).state(), event),
            action == step_action(old(self).interval(), old(self).state(), event),
            final(self).connection_view() == old(self).connection_view(),
            final(self).identity_view() == old(self).identity_view(),
            final(self).interval() == old(self).interval(),
    {
        proof {
            use_type_invariant(&*self);
        }
        match (self.phase, event) {
            (BeatPhase::Stopped, _) => HeartbeatAction::Stop,
            (_, HeartbeatEvent::Shutdown) => {
                self.phase = BeatPhase::Stopped;
                HeartbeatAction::Stop
            },
            (BeatPhase::Waiting, HeartbeatEvent::Elapsed) => {
                self.phase = BeatPhase::Sending;
                HeartbeatAction::Send
            },
            (BeatPhase::Sending, HeartbeatEvent::Delivered) => {
                self.phase = BeatPhase::Waiting;
                self.missed = 0;
                HeartbeatAction::Wait(self.interval_secs)
            },
            (BeatPhase::Sending, HeartbeatEvent::SendFailed) => {
                self.phase = BeatPhase::Waiting;
                if self.missed < u64::MAX {
                    self.missed = self.missed + 1;
                }
                HeartbeatAction::Wait(self.interval_secs)
            },
            _ => HeartbeatAction::Ignored,
        }
    }
}

/// The state reached from `state` after `events` were reported in order.
pub open spec fn run_state(state: BeatState, events: Seq<HeartbeatEvent>) -> BeatState
    decreases events.len(),
{
    if events.len() == 0 {
        state
    } else {
        step_state(run_state(state, events.drop_last()), events.last())
    }
}

/// The requests that a heartbeat with the given interval makes, one per
/// event, while `events` are reported in order, starting in `state`.
pub open spec fn run_actions(interval_secs: u64, state: BeatState, events: Seq<HeartbeatEvent>)
    -> Seq<HeartbeatAction>
    decreases events.len(),
{
    if events.len() == 0 {
        Seq::empty()
    } else {
        run_actions(interval_secs, state, events.drop_last()).push(
            step_action(
                interval_secs,
                run_state(state, events.drop_last()),
                events.last(),
            ),
        )
    }
}

/// What a caller reports over `outcomes.len()` rounds of the heartbeat loop:
/// in each round first that the interval has passed, and then whether the
/// beat was delivered (`true`) or failed (`false`).
pub open spec fn rounds(outcomes: Seq<bool>) -> Seq<HeartbeatEvent>
    decreases outcomes.len(),
{
    if outcomes.len() == 0 {
        Seq::empty()
    } else {
        rounds(outcomes.drop_last()).push(HeartbeatEvent::Elapsed).push(
            if outcomes.last() {
                HeartbeatEvent::Delivered
            } else {
                HeartbeatEvent::SendFailed
            },
        )
    }
}

/// The seconds of waiting that `actions` ask for in total.
pub open spec fn seconds_waited(actions: Seq<HeartbeatAction>) -> nat
    decreases actions.len(),
{
    if actions.len() == 0 {
        0
    } else {
        let asked: nat = match actions.last() {
            HeartbeatAction::Wait(secs) => secs as nat,
            _ => 0,
        };
        seconds_waited(actions.drop_last()) + asked
    }
}

/// Whether round `k` of `actions`, counted from zero, is on schedule: the
/// round asks for one beat and then for one wait of the interval, and the
/// waits asked for before that beat, together with the first wait that the
/// heartbeat asked for when it was set up, add up to `k + 1` intervals.
pub open spec fn round_is_on_schedule(
    interval_secs: u64,
    actions: Seq<HeartbeatAction>,
    k: int,
) -> bool {
    &&& actions[2 * k] == HeartbeatAction::Send
    &&& actions[2 * k + 1] == HeartbeatAction::Wait(interval_secs)
    &&& interval_secs + seconds_waited(actions.subrange(0, 2 * k)) == (k + 1) * interval_secs
}

/// A beat that fails does not end the heartbeat. The heartbeat asks to wait
/// one interval, as after a beat that arrived, and when that interval has
/// passed it asks for the next beat.
pub proof fn lemma_failed_beat_is_followed_by_the_next(interval_secs: u64, state: BeatState)
    requires
        state.phase == BeatPhase::Sending,
    ensures
        step_action(interval_secs, state, HeartbeatEvent::SendFailed) == HeartbeatAction::Wait(
            interval_secs,
        ),
        step_action(interval_secs, state, HeartbeatEvent::SendFailed) == step_action(
            interval_secs,
            state,
            HeartbeatEvent::Delivered,
        ),
        step_state(state, HeartbeatEvent::SendFailed).phase == BeatPhase::Waiting,
        step_action(
            interval_secs,
            step_state(state, HeartbeatEvent::SendFailed),
            HeartbeatEvent::Elapsed,
        ) == HeartbeatAction::Send,
{
}

/// Beats do not overlap: while one is on its way the heartbeat asks for no
/// other, whatever is reported to it, and only a report on that beat, or a
/// shutdown, moves it on.
pub proof fn lemma_one_beat_at_a_time(interval_secs: u64, state: BeatState, event: HeartbeatEvent)
    requires
        state.phase == BeatPhase::Sending,
    ensures
        step_action(interval_secs, state, event) != HeartbeatAction::Send,
        event == HeartbeatEvent::Elapsed ==> step_state(state, event) == state,
{
}

/// After a shutdown the heartbeat stays stopped and asks for nothing but to
/// leave the loop, whatever is reported to it.
pub proof fn lemma_shutdown_is_final(
    interval_secs: u64,
    state: BeatState,
    events: Seq<HeartbeatEvent>,
)
    ensures
        run_state(step_state(state, HeartbeatEvent::Shutdown), events).phase == BeatPhase::Stopped,
        forall|i: int|
            0 <= i < events.len() ==> #[trigger] run_actions(
                interval_secs,
                step_state(state, HeartbeatEvent::Shutdown),
                events,
            )[i] == HeartbeatAction::Stop,
        run_actions(interval_secs, step_state(state, HeartbeatEvent::Shutdown), events).len()
            == events.len(),
    decreases events.len(),
{
    if events.len() > 0 {
        lemma_shutdown_is_final(interval_secs, state, events.drop_last());
    }
}

/// The schedule of a heartbeat. As long as it is not shut down, and however
/// many of its beats fail, a heartbeat asks alternately for one beat and for
/// one wait of exactly the configured interval. Its first request, made when
/// it was set up, is such a wait as well: so the first beat goes out one
/// interval after the start, and every later beat one interval after the
/// beat before it.
pub proof fn lemma_beats_keep_their_schedule(interval_secs: u64, outcomes: Seq<bool>)
    ensures
        run_state(initial_state(), rounds(outcomes)).phase == BeatPhase::Waiting,
        run_actions(interval_secs, initial_state(), rounds(outcomes)).len() == 2 * outcomes.len(),
        forall|k: int|
            0 <= k < outcomes.len() ==> #[trigger] round_is_on_schedule(
                interval_secs,
                run_actions(interval_secs, initial_state(), rounds(outcomes)),
                k,
            ),
    decreases outcomes.len(),
{
    let events = rounds(outcomes);
    let actions = run_actions(interval_secs, initial_state(), events);
    if outcomes.len() > 0 {
        let earlier = outcomes.drop_last();
        let n = earlier.len() as int;
        lemma_beats_keep_their_schedule(interval_secs, earlier);
        lemma_one_more_round(interval_secs, outcomes);
        let earlier_actions = run_actions(interval_secs, initial_state(), rounds(earlier));
        assert forall|k: int| 0 <= k < outcomes.len() implies #[trigger] round_is_on_schedule(
            interval_secs,
            actions,
            k,
        ) by {
            if k < n {
                assert(round_is_on_schedule(interval_secs, earlier_actions, k));
                assert(actions[2 * k] == earlier_actions[2 * k]);
                assert(actions[2 * k + 1] == earlier_actions[2 * k + 1]);
                assert(actions.subrange(0, 2 * k) =~= earlier_actions.subrange(0, 2 * k));
            } else {
                assert(actions.subrange(0, 2 * k) =~= earlier_actions);
                lemma_seconds_waited_in_rounds(interval_secs, earlier);
                assert((n + 1) * interval_secs == n * interval_secs + interval_secs)
                    by (nonlinear_arith);
            }
        }
    }
}

/// Over whole rounds a heartbeat asks for one interval of waiting per round.
pub proof fn lemma_seconds_waited_in_rounds(interval_secs: u64, outcomes: Seq<bool>)
    ensures
        seconds_waited(run_actions(interval_secs, initial_state(), rounds(outcomes)))
            == outcomes.len() * interval_secs,
    decreases outcomes.len(),
{
    let events = rounds(outcomes);
    let actions = run_actions(interval_secs, initial_state(), events);
    if outcomes.len() > 0 {
        let earlier = outcomes.drop_last();
        lemma_seconds_waited_in_rounds(interval_secs, earlier);
        lemma_beats_keep_their_schedule(interval_secs, earlier);
        lemma_one_more_round(interval_secs, outcomes);
        let earlier_actions = run_actions(interval_secs, initial_state(), rounds(earlier));
        let with_send = earlier_actions.push(HeartbeatAction::Send);
        assert(actions.drop_last() =~= with_send);
        assert(with_send.drop_last() =~= earlier_actions);
        assert(seconds_waited(with_send) == seconds_waited(earlier_actions));
        assert(seconds_waited(actions) == seconds_waited(with_send) + interval_secs);
        assert((earlier.len() + 1) * interval_secs == earlier.len() * interval_secs
            + interval_secs) by (nonlinear_arith);
    }
}

/// One round of the loop, begun while waiting: the heartbeat asks for a beat
/// and then for a wait of one interval, and is waiting again.
proof fn lemma_one_more_round(interval_secs: u64, outcomes: Seq<bool>)
    requires
        outcomes.len() > 0,
        run_state(initial_state(), rounds(outcomes.drop_last())).phase == BeatPhase::Waiting,
    ensures
        run_state(initial_state(), rounds(outcomes)).phase == BeatPhase::Waiting,
        run_actions(interval_secs, initial_state(), rounds(outcomes)) == run_actions(
            interval_secs,
            initial_state(),
            rounds(outcomes.drop_last()),
        ).push(HeartbeatAction::Send).push(HeartbeatAction::Wait(interval_secs)),
{
    let events = rounds(outcomes);
    let before = rounds(outcomes.drop_last());
    let middle = before.push(HeartbeatEvent::Elapsed);
    assert(events.drop_last() =~= middle);
    assert(middle.drop_last() =~= before);
    assert(middle.last() == HeartbeatEvent::Elapsed);
    let waiting = run_state(initial_state(), before);
    let sending = run_state(initial_state(), middle);
    assert(sending == step_state(waiting, HeartbeatEvent::Elapsed));
    assert(run_actions(interval_secs, initial_state(), middle) == run_actions(
        interval_secs,
        initial_state(),
        before,
    ).push(HeartbeatAction::Send));
    assert(run_state(initial_state(), events) == step_state(sending, events.last()));
    assert(run_actions(interval_secs, initial_state(), events) == run_actions(
        interval_secs,
        initial_state(),
        middle,
    ).push(step_action(interval_secs, sending, events.last())));
}

} // verus!
