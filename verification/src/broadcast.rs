//! The strict fan-out: one message to every endpoint of a directory listing,
//! given up at the first thing that goes wrong.
//!
//! The decisions are taken here; the caller does the reading, connecting and
//! writing. It hands each thing that happened to [`Broadcast::step`] as an
//! [`Event`] and carries out the [`Action`] that comes back.

use crate::discovery::{endpoints, is_endpoint, names_endpoint};
use vstd::prelude::*;

verus! {

/// Why a run failed.
#[derive(Clone, Copy, Debug, PartialEq, Eq, Structural)]
pub enum Failure {
    /// The directory, or one of its entries, could not be read.
    Discovery,
    /// An endpoint did not accept the connection.
    Connect,
    /// The message could not be written to an open connection.
    Write,
}

/// How far a run has come.
#[derive(Clone, Copy, Debug, PartialEq, Eq, Structural)]
pub enum Phase {
    /// The listing is being walked.
    Running,
    /// The listing ended and every delivery went through.
    Done,
    /// Something failed; nothing more is attempted.
    Failed(Failure),
}

/// Something that happened outside.
#[derive(Debug, PartialEq, Eq)]
pub enum Event {
    /// The listing gave an entry: its path as text, or `None` if the path is
    /// not text.
    Entry(Option<String>),
    /// The listing has no more entries.
    End,
    /// The directory, or its next entry, could not be read.
    ListingFailed,
    /// The message was written to the endpoint handed out last.
    Delivered,
    /// The endpoint handed out last refused the connection.
    ConnectFailed,
    /// The write to the endpoint handed out last failed.
    WriteFailed,
}

/// What the caller is to do next.
#[derive(Debug, PartialEq, Eq)]
pub enum Action {
    /// Read the next entry of the listing.
    Next,
    /// Connect to the endpoint at this path, write the message and close.
    Deliver(String),
    /// Stop: the run is over, with this outcome.
    Finish(Result<(), Failure>),
}

/// An event with its path as text.
pub enum EventView {
    Entry(Option<Seq<char>>),
    End,
    ListingFailed,
    Delivered,
    ConnectFailed,
    WriteFailed,
}

/// An action with its path as text.
pub enum ActionView {
    Next,
    Deliver(Seq<char>),
    Finish(Result<(), Failure>),
}

impl View for Event {
    type V = EventView;

    open spec fn view(&self) -> EventView {
        match *self {
            Event::Entry(Some(path)) => EventView::Entry(Some(path@)),
            Event::Entry(None) => EventView::Entry(None),
            Event::End => EventView::End,
            Event::ListingFailed => EventView::ListingFailed,
            Event::Delivered => EventView::Delivered,
            Event::ConnectFailed => EventView::ConnectFailed,
            Event::WriteFailed => EventView::WriteFailed,
        }
    }
}

impl View for Action {
    type V = ActionView;

    open spec fn view(&self) -> ActionView {
        match *self {
            Action::Next => ActionView::Next,
            Action::Deliver(path) => ActionView::Deliver(path@),
            Action::Finish(outcome) => ActionView::Finish(outcome),
        }
    }
}

/// The outcome of a run that is over; `None` while it is running.
pub open spec fn outcome_of(phase: Phase) -> Option<Result<(), Failure>> {
    match phase {
        Phase::Running => None,
        Phase::Done => Some(Ok(())),
        Phase::Failed(failure) => Some(Err(failure)),
    }
}

/// The phase that follows `phase` on `event`. A run that is over stays as it
/// is. A running one ends well at the end of the listing, ends badly on any
/// failure, and goes on otherwise.
pub open spec fn next_phase(phase: Phase, event: EventView) -> Phase {
    match phase {
        Phase::Running => match event {
            EventView::End => Phase::Done,
            EventView::ListingFailed => Phase::Failed(Failure::Discovery),
            EventView::ConnectFailed => Phase::Failed(Failure::Connect),
            EventView::WriteFailed => Phase::Failed(Failure::Write),
            EventView::Entry(_) => Phase::Running,
            EventView::Delivered => Phase::Running,
        },
        over => over,
    }
}

/// The action that answers `event` in `phase`, for a run that looks for
/// endpoints under `prefix`. A run that is over answers with its outcome. A
/// running one hands out an entry that is an endpoint, asks for the next entry
/// after any other entry and after a delivery, and answers with its outcome
/// when the event ends it.
pub open spec fn next_action(phase: Phase, prefix: Seq<char>, event: EventView) -> ActionView {
    match outcome_of(next_phase(phase, event)) {
        Some(outcome) => ActionView::Finish(outcome),
        None => match event {
            EventView::Entry(path) if is_endpoint(path, prefix) => ActionView::Deliver(
                path.unwrap(),
            ),
            _ => ActionView::Next,
        },
    }
}

/// One run of the fan-out.
pub struct Broadcast {
    prefix: String,
    phase: Phase,
}

impl Broadcast {
    /// The text that an endpoint's path must begin with.
    pub closed spec fn prefix_text(&self) -> Seq<char> {
        self.prefix@
    }

    /// How far the run has come.
    pub closed spec fn phase_of(&self) -> Phase {
        self.phase
    }

    /// Starts a run that looks for endpoints whose path begins with `prefix`.
    pub fn new(prefix: String) -> (run: Broadcast)
        ensures
            run.prefix_text() == prefix@,
            run.phase_of() == Phase::Running,
    {
        Broadcast { prefix, phase: Phase::Running }
    }

    /// How far the run has come.
    pub fn phase(&self) -> (phase: Phase)
        ensures
            phase == self.phase_of(),
    {
        self.phase
    }

    /// The outcome of the run, once it is over.
    pub fn outcome(&self) -> (outcome: Option<Result<(), Failure>>)
        ensures
            outcome == outcome_of(self.phase_of()),
    {
        match self.phase {
            Phase::Running => None,
            Phase::Done => Some(Ok(())),
            Phase::Failed(failure) => Some(Err(failure)),
        }
    }

    /// Takes in what happened and says what to do next.
    pub fn step(&mut self, event: Event) -> (action: Action)
        ensures
            final(self).prefix_text() == old(self).prefix_text(),
            final(self).phase_of() == next_phase(old(self).phase_of(), event@),
            action@ == next_action(old(self).phase_of(), old(self).prefix_text(), event@),
    {
        match self.phase {
            Phase::Running => {},
            Phase::Done => {
                return Action::Finish(Ok(()));
            },
            Phase::Failed(failure) => {
                return Action::Finish(Err(failure));
            },
        }
        match event {
            Event::Entry(Some(path)) => {
                if names_endpoint(Some(path.as_str()), self.prefix.as_str()) {
                    Action::Deliver(path)
                } else {
                    Action::Next
                }
            },
            Event::Entry(None) => Action::Next,
            Event::Delivered => Action::Next,
            Event::End => {
                self.phase = Phase::Done;
                Action::Finish(Ok(()))
            },
            Event::ListingFailed => self.fail(Failure::Discovery),
            Event::ConnectFailed => self.fail(Failure::Connect),
            Event::WriteFailed => self.fail(Failure::Write),
        }
    }

    /// Ends the run with `failure`.
    fn fail(&mut self, failure: Failure) -> (action: Action)
        ensures
            final(self).prefix_text() == old(self).prefix_text(),
            final(self).phase_of() == Phase::Failed(failure),
            action@ == ActionView::Finish(Err(failure)),
    {
        self.phase = Phase::Failed(failure);
        Action::Finish(Err(failure))
    }
}

/// The phase after a run has taken in `events`, one after the other.
pub open spec fn phase_after(phase: Phase, events: Seq<EventView>) -> Phase
    decreases events.len(),
{
    if events.len() == 0 {
        phase
    } else {
        next_phase(phase_after(phase, events.drop_last()), events.last())
    }
}

/// The actions with which a run answers `events`, one for each.
pub open spec fn actions_for(phase: Phase, prefix: Seq<char>, events: Seq<EventView>) -> Seq<
    ActionView,
>
    decreases events.len(),
{
    if events.len() == 0 {
        seq![]
    } else {
        actions_for(phase, prefix, events.drop_last()).push(
            next_action(phase_after(phase, events.drop_last()), prefix, events.last()),
        )
    }
}

/// The events of a listing that gives `entries` one by one.
pub open spec fn listing(entries: Seq<Option<Seq<char>>>) -> Seq<EventView> {
    Seq::new(entries.len(), |i: int| EventView::Entry(entries[i]))
}

/// A run hands out a path only while it is running, and only a path that was
/// just listed and begins with the prefix.
pub proof fn delivery_only_to_endpoints(
    phase: Phase,
    prefix: Seq<char>,
    event: EventView,
    path: Seq<char>,
)
    ensures
        next_action(phase, prefix, event) == ActionView::Deliver(path) <==> phase == Phase::Running
            && event == EventView::Entry(Some(path)) && prefix.is_prefix_of(path),
{
}

/// Once a run is over it stays over with the same outcome, whatever happens
/// next, and every answer is that outcome: after a failure no further endpoint
/// is attempted.
pub proof fn over_stays_over(phase: Phase, prefix: Seq<char>, events: Seq<EventView>)
    requires
        phase != Phase::Running,
    ensures
        phase_after(phase, events) == phase,
        forall|i: int|
            0 <= i < events.len() ==> #[trigger] actions_for(phase, prefix, events)[i]
                == ActionView::Finish(outcome_of(phase).unwrap()),
        actions_for(phase, prefix, events).len() == events.len(),
    decreases events.len(),
{
    if events.len() > 0 {
        over_stays_over(phase, prefix, events.drop_last());
    }
}

/// A failure ends a running run at once: the answer is the failure, and the
/// run is over.
pub proof fn failure_ends_run(prefix: Seq<char>, event: EventView)
    requires
        event is ListingFailed || event is ConnectFailed || event is WriteFailed,
    ensures
        next_phase(Phase::Running, event) is Failed,
        next_action(Phase::Running, prefix, event) == ActionView::Finish(
            Err(next_phase(Phase::Running, event)->Failed_0),
        ),
{
}

/// A listing in which no entry is an endpoint, followed by its end, is
/// answered without a single delivery and ends well.
pub proof fn no_endpoint_no_delivery(prefix: Seq<char>, entries: Seq<Option<Seq<char>>>)
    requires
        forall|i: int| 0 <= i < entries.len() ==> !is_endpoint(#[trigger] entries[i], prefix),
    ensures
        phase_after(Phase::Running, listing(entries)) == Phase::Running,
        phase_after(Phase::Running, listing(entries).push(EventView::End)) == Phase::Done,
        actions_for(Phase::Running, prefix, listing(entries)).len() == entries.len(),
        forall|i: int|
            0 <= i < entries.len() ==> #[trigger] actions_for(
                Phase::Running,
                prefix,
                listing(entries),
            )[i] == ActionView::Next,
    decreases entries.len(),
{
    let events = listing(entries);
    if entries.len() > 0 {
        no_endpoint_no_delivery(prefix, entries.drop_last());
        assert(events.drop_last() =~= listing(entries.drop_last()));
        assert(events.last() == EventView::Entry(entries.last()));
    }
    assert(events.push(EventView::End).drop_last() =~= events);
}

/// The paths that a row of actions hands out, in order.
pub open spec fn handed_out(actions: Seq<ActionView>) -> Seq<Seq<char>>
    decreases actions.len(),
{
    if actions.len() == 0 {
        seq![]
    } else {
        match actions.last() {
            ActionView::Deliver(path) => handed_out(actions.drop_last()).push(path),
            _ => handed_out(actions.drop_last()),
        }
    }
}

/// While nothing fails, a run hands out exactly the endpoints of the listing,
/// each once and in the order of the listing.
pub proof fn run_hands_out_endpoints(prefix: Seq<char>, entries: Seq<Option<Seq<char>>>)
    ensures
        phase_after(Phase::Running, listing(entries)) == Phase::Running,
        handed_out(actions_for(Phase::Running, prefix, listing(entries))) == endpoints(
            entries,
            prefix,
        ),
    decreases entries.len(),
{
    let events = listing(entries);
    if entries.len() > 0 {
        run_hands_out_endpoints(prefix, entries.drop_last());
        assert(events.drop_last() =~= listing(entries.drop_last()));
        assert(events.last() == EventView::Entry(entries.last()));
        let actions = actions_for(Phase::Running, prefix, events);
        assert(actions.drop_last() =~= actions_for(Phase::Running, prefix, events.drop_last()));
    }
}

} // verus!
