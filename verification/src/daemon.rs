//! The event loop of the daemon, as two state machines that do none of the
//! outside work themselves.
//!
//! The [`Ticker`] is the one producer of the action stream. It says what the
//! background context is to do next: put an action on the stream, poll the
//! control socket, or sleep. The [`Daemon`] is the one consumer. It owns the
//! track lists and the status line, and it is handed each action together
//! with what the outside work for that action brought, as an [`Event`].

use vstd::prelude::*;
use crate::ipc::Action;
use crate::track_info::{spec_shown_status, update_track_info, Track};
use crate::track_lists::{
    fetched_views, spec_failed, spec_store_all, Contents, Fetched, TrackLists,
};

verus! {

/// How many seconds the ticker sleeps between two cycles.
pub const POLL_INTERVAL: u64 = 1;

/// What the ticker asks of the background context next.
#[derive(Clone, Copy, Debug, PartialEq, Eq, Structural)]
pub enum TickerStep {
    /// Put `action` on the stream, and report that it is there.
    Enqueue { action: Action },
    /// Poll the control socket once, and report what the poll yielded.
    Poll,
    /// Sleep `seconds`, and report that they have passed.
    Sleep { seconds: u64 },
}

/// The producer of the action stream, named by what it does next.
///
/// The stream opens with a tick and a refresh. Then cycle follows cycle: a
/// tick, then the actions polled from the control socket for as long as
/// polls yield one, then a sleep.
#[derive(Clone, Copy, Debug, PartialEq, Eq, Structural)]
pub enum Ticker {
    /// About to enqueue the opening tick.
    Opening,
    /// About to enqueue the opening refresh.
    OpeningRefresh,
    /// About to enqueue the tick of a cycle.
    Ticking,
    /// About to poll the control socket.
    Polling,
    /// About to enqueue an action that a poll yielded.
    Forwarding { action: Action },
    /// About to sleep until the next cycle.
    Sleeping,
}

impl Ticker {
    /// What a ticker in this state asks for.
    pub open spec fn spec_step(self) -> TickerStep {
        match self {
            Ticker::Opening => TickerStep::Enqueue { action: Action::Tick },
            Ticker::OpeningRefresh => TickerStep::Enqueue { action: Action::RefreshCache },
            Ticker::Ticking => TickerStep::Enqueue { action: Action::Tick },
            Ticker::Polling => TickerStep::Poll,
            Ticker::Forwarding { action } => TickerStep::Enqueue { action },
            Ticker::Sleeping => TickerStep::Sleep { seconds: POLL_INTERVAL },
        }
    }

    /// The state after an action that was asked for is on the stream.
    pub open spec fn spec_enqueued(self) -> Ticker {
        match self {
            Ticker::Opening => Ticker::OpeningRefresh,
            Ticker::OpeningRefresh => Ticker::Ticking,
            Ticker::Ticking => Ticker::Polling,
            Ticker::Forwarding { .. } => Ticker::Polling,
            _ => self,
        }
    }

    /// The state after a poll that was asked for yielded `found`.
    pub open spec fn spec_polled(self, found: Option<Action>) -> Ticker {
        match (self, found) {
            (Ticker::Polling, Some(action)) => Ticker::Forwarding { action },
            (Ticker::Polling, None) => Ticker::Sleeping,
            _ => self,
        }
    }

    /// The state after a sleep that was asked for has passed.
    pub open spec fn spec_slept(self) -> Ticker {
        match self {
            Ticker::Sleeping => Ticker::Ticking,
            _ => self,
        }
    }

    /// How many steps a ticker in this state takes before it polls.
    pub open spec fn spec_distance(self) -> nat {
        match self {
            Ticker::Opening => 3,
            Ticker::OpeningRefresh => 2,
            Ticker::Sleeping => 2,
            Ticker::Ticking => 1,
            Ticker::Forwarding { .. } => 1,
            Ticker::Polling => 0,
        }
    }

    /// The actions that a ticker in this state puts on the stream, in
    /// order, while the polls it asks for yield `polls`, first to last. It
    /// is followed up to the poll for which `polls` has no outcome left.
    pub open spec fn spec_stream(self, polls: Seq<Option<Action>>) -> Seq<Action>
        decreases polls.len(), self.spec_distance(),
    {
        match self {
            Ticker::Polling => if polls.len() == 0 {
                Seq::empty()
            } else {
                self.spec_polled(polls[0]).spec_stream(polls.drop_first())
            },
            Ticker::Sleeping => self.spec_slept().spec_stream(polls),
            Ticker::Opening => seq![Action::Tick] + self.spec_enqueued().spec_stream(polls),
            Ticker::OpeningRefresh => seq![Action::RefreshCache] + self.spec_enqueued().spec_stream(
                polls,
            ),
            Ticker::Ticking => seq![Action::Tick] + self.spec_enqueued().spec_stream(polls),
            Ticker::Forwarding { action } => seq![action] + self.spec_enqueued().spec_stream(polls),
        }
    }

    /// Returns a ticker at the opening of the stream.
    pub fn new() -> (ticker: Ticker)
        ensures
            ticker == Ticker::Opening,
    {
        Ticker::Opening
    }

    /// Returns what the background context is to do next.
    pub fn step(&self) -> (step: TickerStep)
        ensures
            step == self.spec_step(),
    {
        match self {
            Ticker::Opening => TickerStep::Enqueue { action: Action::Tick },
            Ticker::OpeningRefresh => TickerStep::Enqueue { action: Action::RefreshCache },
            Ticker::Ticking => TickerStep::Enqueue { action: Action::Tick },
            Ticker::Polling => TickerStep::Poll,
            Ticker::Forwarding { action } => TickerStep::Enqueue { action: *action },
            Ticker::Sleeping => TickerStep::Sleep { seconds: POLL_INTERVAL },
        }
    }

    /// Takes in that the action asked for is on the stream. Does nothing
    /// where no action was asked for.
    pub fn enqueued(&mut self)
        ensures
            *final(self) == old(self).spec_enqueued(),
    {
        match self {
            Ticker::Opening => {
                *self = Ticker::OpeningRefresh;
            },
            Ticker::OpeningRefresh => {
                *self = Ticker::Ticking;
            },
            Ticker::Ticking => {
                *self = Ticker::Polling;
            },
            Ticker::Forwarding { .. } => {
                *self = Ticker::Polling;
            },
            _ => {},
        }
    }

    /// Takes in what the poll asked for yielded: the action of a request,
    /// or nothing. Does nothing where no poll was asked for.
    pub fn polled(&mut self, found: Option<Action>)
        ensures
            *final(self) == old(self).spec_polled(found),
    {
        match self {
            Ticker::Polling => match found {
                Some(action) => {
                    *self = Ticker::Forwarding { action };
                },
                None => {
                    *self = Ticker::Sleeping;
                },
            },
            _ => {},
        }
    }

    /// Takes in that the sleep asked for has passed. Does nothing where no
    /// sleep was asked for.
    pub fn slept(&mut self)
        ensures
            *final(self) == old(self).spec_slept(),
    {
        match self {
            Ticker::Sleeping => {
                *self = Ticker::Ticking;
            },
            _ => {},
        }
    }
}

/// The action that one poll adds to the stream: the action polled, or,
/// where the poll yielded nothing, the tick of the next cycle.
pub open spec fn spec_action_after_poll(found: Option<Action>) -> Action {
    match found {
        Some(action) => action,
        None => Action::Tick,
    }
}

/// The stream keeps the order of the polls: it is the opening tick and
/// refresh and the tick of the first cycle, and then, for each poll in
/// order, the one action that this poll adds. No action is dropped, none is
/// put on the stream twice, and none overtakes another.
pub proof fn lemma_stream_in_poll_order(polls: Seq<Option<Action>>)
    ensures
        Ticker::Opening.spec_stream(polls) == seq![Action::Tick, Action::RefreshCache, Action::Tick]
            + polls.map_values(|found: Option<Action>| spec_action_after_poll(found)),
{
    lemma_stream_from_poll(polls);
    let after = polls.map_values(|found: Option<Action>| spec_action_after_poll(found));
    assert(Ticker::Ticking.spec_stream(polls) == seq![Action::Tick] + after);
    assert(Ticker::OpeningRefresh.spec_stream(polls) == seq![Action::RefreshCache] + (
    seq![Action::Tick] + after));
    assert(Ticker::Opening.spec_stream(polls) =~= seq![
        Action::Tick,
        Action::RefreshCache,
        Action::Tick,
    ] + after);
}

/// From a poll on, each poll adds one action to the stream.
proof fn lemma_stream_from_poll(polls: Seq<Option<Action>>)
    ensures
        Ticker::Polling.spec_stream(polls) == polls.map_values(
            |found: Option<Action>| spec_action_after_poll(found),
        ),
    decreases polls.len(),
{
    let after = polls.map_values(|found: Option<Action>| spec_action_after_poll(found));
    if polls.len() == 0 {
        assert(after =~= Seq::empty());
    } else {
        let rest = polls.drop_first();
        lemma_stream_from_poll(rest);
        let after_rest = rest.map_values(|found: Option<Action>| spec_action_after_poll(found));
        assert(after =~= seq![spec_action_after_poll(polls[0])] + after_rest);
        match polls[0] {
            Some(action) => {
                assert(Ticker::Polling.spec_stream(polls) == (Ticker::Forwarding {
                    action,
                }).spec_stream(rest));
            },
            None => {
                assert(Ticker::Polling.spec_stream(polls) == Ticker::Sleeping.spec_stream(rest));
                assert(Ticker::Sleeping.spec_stream(rest) == Ticker::Ticking.spec_stream(rest));
            },
        }
    }
}

/// An action that has come off the stream, with what the outside work for
/// it brought.
#[derive(Clone, Debug, PartialEq, Eq)]
pub enum Event {
    /// A tick, with the track that plays; nothing where no track plays or
    /// the service could not be asked.
    Tick { now_playing: Option<Track> },
    /// A refresh, with the outcome of fetching each working list.
    Refresh { fetched: Vec<Fetched> },
    /// A status request that came in on the connection `reply`.
    Status { reply: u64 },
}

/// What the event loop is to do once an event is handled.
#[derive(Clone, Debug, PartialEq, Eq)]
pub enum Effect {
    /// Show `line`, the status line computed by a tick.
    Show { line: String },
    /// After a refresh: write the track lists to the cache where `persist`
    /// holds, and nothing otherwise.
    Refreshed { persist: bool },
    /// Send `text`, the last status line computed, on the connection
    /// `reply`.
    Reply { reply: u64, text: String },
}

/// An effect, as contracts see it.
pub enum EffectView {
    Show { line: Seq<char> },
    Refreshed { persist: bool },
    Reply { reply: u64, text: Seq<char> },
}

impl View for Effect {
    type V = EffectView;

    open spec fn view(&self) -> EffectView {
        match *self {
            Effect::Show { line } => EffectView::Show { line: line@ },
            Effect::Refreshed { persist } => EffectView::Refreshed { persist },
            Effect::Reply { reply, text } => EffectView::Reply { reply, text: text@ },
        }
    }
}

/// The views of `effects`, in order.
pub open spec fn effect_views(effects: Seq<Effect>) -> Seq<EffectView> {
    effects.map_values(|effect: Effect| effect@)
}

/// What the consumer holds, as contracts see it.
pub struct DaemonState {
    /// The tracks of the fetched playlists.
    pub contents: Contents,
    /// The status that the last tick computed; empty before the first.
    pub status: Seq<char>,
}

impl Event {
    /// The action that this event answers.
    pub open spec fn spec_action(self) -> Action {
        match self {
            Event::Tick { .. } => Action::Tick,
            Event::Refresh { .. } => Action::RefreshCache,
            Event::Status { reply } => Action::ReplyStatus { reply },
        }
    }

    /// Returns the action that this event answers.
    pub fn action(&self) -> (action: Action)
        ensures
            action == self.spec_action(),
    {
        match self {
            Event::Tick { .. } => Action::Tick,
            Event::Refresh { .. } => Action::RefreshCache,
            Event::Status { reply } => Action::ReplyStatus { reply: *reply },
        }
    }
}

/// The state after `event` is handled, and the effect of handling it.
///
/// A tick computes the status anew and shows it. A refresh takes in what
/// was fetched, list by list, and asks for the cache to be written where no
/// fetch failed. A status request is answered with the last status.
pub open spec fn spec_handle(state: DaemonState, event: Event) -> (DaemonState, EffectView) {
    match event {
        Event::Tick { now_playing } => {
            let status = spec_shown_status(now_playing, state.contents);
            (DaemonState { status, ..state }, EffectView::Show { line: status })
        },
        Event::Refresh { fetched } => {
            let outcomes = fetched_views(fetched@);
            (
                DaemonState { contents: spec_store_all(state.contents, outcomes), ..state },
                EffectView::Refreshed { persist: spec_failed(outcomes).len() == 0 },
            )
        },
        Event::Status { reply } => (state, EffectView::Reply { reply, text: state.status }),
    }
}

/// The state after `events` are handled one at a time, first to last, and
/// the effects of handling them, in the same order.
pub open spec fn spec_run(state: DaemonState, events: Seq<Event>) -> (DaemonState, Seq<EffectView>)
    decreases events.len(),
{
    if events.len() == 0 {
        (state, Seq::empty())
    } else {
        let (before, effects) = spec_run(state, events.drop_last());
        let (after, effect) = spec_handle(before, events.last());
        (after, effects.push(effect))
    }
}

/// The consumer of the action stream: the track lists and the status line.
#[derive(Clone, Debug, PartialEq, Eq)]
pub struct Daemon {
    track_lists: TrackLists,
    track_info: String,
}

impl View for Daemon {
    type V = DaemonState;

    closed spec fn view(&self) -> DaemonState {
        DaemonState { contents: self.track_lists@, status: self.track_info@ }
    }
}

impl Daemon {
    /// Returns a consumer that starts with `track_lists` and an empty
    /// status.
    pub fn new(track_lists: TrackLists) -> (daemon: Daemon)
        ensures
            daemon@ == (DaemonState { contents: track_lists@, status: Seq::empty() }),
    {
        Daemon { track_lists, track_info: String::new() }
    }

    /// Returns the track lists.
    pub fn track_lists(&self) -> (track_lists: &TrackLists)
        ensures
            track_lists@ == self@.contents,
    {
        &self.track_lists
    }

    /// Returns the status that the last tick computed.
    pub fn track_info(&self) -> (track_info: &String)
        ensures
            track_info@ == self@.status,
    {
        &self.track_info
    }

    /// Handles one event, and returns what the event loop is to do for it.
    /// No event fails: a tick without a track shows the placeholder, and a
    /// list whose fetch failed keeps what it had.
    pub fn handle(&mut self, event: Event) -> (effect: Effect)
        ensures
            (final(self)@, effect@) == spec_handle(old(self)@, event),
    {
        match event {
            Event::Tick { now_playing } => {
                update_track_info(now_playing.as_ref(), &self.track_lists, &mut self.track_info);
                Effect::Show { line: self.track_info.clone() }
            },
            Event::Refresh { fetched } => {
                let failed = self.track_lists.store_all(fetched);
                Effect::Refreshed { persist: failed.len() == 0 }
            },
            Event::Status { reply } => Effect::Reply { reply, text: self.track_info.clone() },
        }
    }

    /// Handles `events` one at a time, first to last, and returns the
    /// effects in the same order.
    pub fn run(&mut self, events: Vec<Event>) -> (effects: Vec<Effect>)
        ensures
            (final(self)@, effect_views(effects@)) == spec_run(old(self)@, events@),
    {
        let mut effects: Vec<Effect> = Vec::new();
        for event in it: events
            invariant
                it.seq() == events@,
                (self@, effect_views(effects@)) == spec_run(old(self)@, events@.take(it.index() as int)),
        {
            proof {
                let n = it.index() as int;
                assert(events@.take(n + 1).drop_last() =~= events@.take(n));
                assert(events@.take(n + 1).last() == event);
            }
            let ghost before = effect_views(effects@);
            let effect = self.handle(event);
            effects.push(effect);
            assert(effect_views(effects@) =~= before.push(effect@));
        }
        assert(events@.take(events@.len() as int) =~= events@);
        effects
    }
}

/// Events are handled in the order of the stream, one at a time: there is
/// one effect for each event, and the effect at each place is that of
/// handling the event at the same place in the state left by exactly the
/// events before it.
pub proof fn lemma_effects_in_order(state: DaemonState, events: Seq<Event>, at: int)
    requires
        0 <= at < events.len(),
    ensures
        spec_run(state, events).1.len() == events.len(),
        spec_run(state, events).1[at] == spec_handle(
            spec_run(state, events.take(at)).0,
            events[at],
        ).1,
    decreases events.len(),
{
    lemma_one_effect_each(state, events);
    lemma_one_effect_each(state, events.drop_last());
    if at == events.len() - 1 {
        assert(events.take(at) =~= events.drop_last());
    } else {
        lemma_effects_in_order(state, events.drop_last(), at);
        assert(events.drop_last().take(at) =~= events.take(at));
    }
}

/// Handling events yields one effect for each.
pub proof fn lemma_one_effect_each(state: DaemonState, events: Seq<Event>)
    ensures
        spec_run(state, events).1.len() == events.len(),
    decreases events.len(),
{
    if events.len() > 0 {
        lemma_one_effect_each(state, events.drop_last());
    }
}

} // verus!
