//! The relay between a client and its destination.
//!
//! Two copy loops run side by side, one for each direction, and the first of
//! them to end, or the idle timeout, ends the relay. The relay here decides;
//! the driver reads, writes and keeps the time.

use vstd::prelude::*;

verus! {

/// One of the two ends of a relay.
#[derive(Clone, Copy, Debug, PartialEq, Eq, Structural)]
pub enum Side {
    Client,
    Destination,
}

impl Side {
    /// The other end.
    pub open spec fn spec_opposite(self) -> Side {
        match self {
            Side::Client => Side::Destination,
            Side::Destination => Side::Client,
        }
    }

    /// The other end.
    pub fn opposite(self) -> (s: Side)
        ensures
            s == self.spec_opposite(),
    {
        match self {
            Side::Client => Side::Destination,
            Side::Destination => Side::Client,
        }
    }
}

/// Why a relay ended.
#[derive(Clone, Copy, Debug, PartialEq, Eq, Structural)]
pub enum RelayEnd {
    /// The stream from this side came to its end.
    Completed(Side),
    /// Copying from this side failed.
    Failed(Side),
    /// Nothing moved in either direction for the idle timeout.
    TimedOut,
}

/// What the driver reports to a relay.
#[derive(Debug)]
pub enum RelayEvent {
    /// Bytes were read from this side.
    Data(Side, Vec<u8>),
    /// This side has no more to send.
    Eof(Side),
    /// Reading from this side, or writing what it sent, failed.
    Failed(Side),
    /// The idle timeout has passed.
    IdleTimeout,
}

/// What the driver is to do for a relay.
#[derive(Debug)]
pub enum RelayAction {
    /// Write these bytes to this side.
    Forward(Side, Vec<u8>),
    /// Stop both copy loops and close both streams.
    Stop(RelayEnd),
}

/// What a `RelayAction` holds.
pub enum RelayActionView {
    Forward(Side, Seq<u8>),
    Stop(RelayEnd),
}

impl View for RelayAction {
    type V = RelayActionView;

    open spec fn view(&self) -> RelayActionView {
        match *self {
            RelayAction::Forward(side, bytes) => RelayActionView::Forward(side, bytes@),
            RelayAction::Stop(end) => RelayActionView::Stop(end),
        }
    }
}

/// A relay: running until it has an end.
#[derive(Clone, Copy, Debug)]
pub struct Relay {
    /// The seconds without progress after which the relay ends, if any.
    pub idle_timeout: Option<u64>,
    /// Why the relay ended, once it has.
    pub end: Option<RelayEnd>,
}

/// What was forwarded in each direction, and how the relay ended.
pub struct RelayTrace {
    pub to_destination: Seq<u8>,
    pub to_client: Seq<u8>,
    pub end: Option<RelayEnd>,
}

impl Relay {
    /// The end that an event brings about, if it brings one.
    pub open spec fn spec_end_of(event: RelayEvent) -> Option<RelayEnd> {
        match event {
            RelayEvent::Data(..) => None,
            RelayEvent::Eof(side) => Some(RelayEnd::Completed(side)),
            RelayEvent::Failed(side) => Some(RelayEnd::Failed(side)),
            RelayEvent::IdleTimeout => Some(RelayEnd::TimedOut),
        }
    }

    /// The relay after an event, and what the driver is to do. A relay that
    /// has ended stays ended and forwards nothing; a running relay forwards
    /// what one side sent to the other side, and ends on the first event
    /// that is not data.
    pub open spec fn spec_on_event(self, event: RelayEvent) -> (Relay, RelayActionView) {
        match self.end {
            Some(end) => (self, RelayActionView::Stop(end)),
            None => match event {
                RelayEvent::Data(side, bytes) => (
                    self,
                    RelayActionView::Forward(side.spec_opposite(), bytes@),
                ),
                _ => (
                    Relay { end: Relay::spec_end_of(event), ..self },
                    RelayActionView::Stop(Relay::spec_end_of(event)->0),
                ),
            },
        }
    }

    /// What a run of events has forwarded, and whether it has ended the
    /// relay, starting from a relay that runs.
    pub open spec fn spec_run(events: Seq<RelayEvent>) -> RelayTrace
        decreases events.len(),
    {
        if events.len() == 0 {
            RelayTrace { to_destination: Seq::empty(), to_client: Seq::empty(), end: None }
        } else {
            let before = Relay::spec_run(events.drop_last());
            let relay = Relay { idle_timeout: None, end: before.end };
            match relay.spec_on_event(events.last()) {
                (after, RelayActionView::Forward(Side::Destination, bytes)) => RelayTrace {
                    to_destination: before.to_destination + bytes,
                    ..before
                },
                (after, RelayActionView::Forward(Side::Client, bytes)) => RelayTrace {
                    to_client: before.to_client + bytes,
                    ..before
                },
                (after, RelayActionView::Stop(_)) => RelayTrace { end: after.end, ..before },
            }
        }
    }

    /// A running relay with this idle timeout.
    pub fn new(idle_timeout: Option<u64>) -> (r: Relay)
        ensures
            r == (Relay { idle_timeout, end: None }),
    {
        Relay { idle_timeout, end: None }
    }

    /// Whether the relay has not ended yet.
    pub fn is_running(&self) -> (b: bool)
        ensures
            b == (self.end is None),
    {
        self.end.is_none()
    }

    /// Takes an event and says what the driver is to do.
    pub fn on_event(&mut self, event: RelayEvent) -> (action: RelayAction)
        ensures
            (*final(self), action@) == old(self).spec_on_event(event),
    {
        match self.end {
            Some(end) => RelayAction::Stop(end),
            None => match event {
                RelayEvent::Data(side, bytes) => RelayAction::Forward(side.opposite(), bytes),
                RelayEvent::Eof(side) => {
                    self.end = Some(RelayEnd::Completed(side));
                    RelayAction::Stop(RelayEnd::Completed(side))
                },
                RelayEvent::Failed(side) => {
                    self.end = Some(RelayEnd::Failed(side));
                    RelayAction::Stop(RelayEnd::Failed(side))
                },
                RelayEvent::IdleTimeout => {
                    self.end = Some(RelayEnd::TimedOut);
                    RelayAction::Stop(RelayEnd::TimedOut)
                },
            },
        }
    }

    /// The first event that is not data ends a running relay, whichever
    /// side it comes from, and nothing is forwarded for it.
    pub proof fn lemma_first_end_wins(self, event: RelayEvent)
        requires
            self.end is None,
            !(event is Data),
        ensures
            self.spec_on_event(event).0.end is Some,
            self.spec_on_event(event).1 is Stop,
    {
    }

    /// Once a relay has ended it stays as it is: no event is forwarded in
    /// either direction, and the end does not change.
    pub proof fn lemma_ended_forwards_nothing(self, event: RelayEvent)
        requires
            self.end is Some,
        ensures
            self.spec_on_event(event) == (self, RelayActionView::Stop(self.end->0)),
    {
    }

    /// While the relay runs, what one side sent goes to the other side as
    /// it is, behind all that went there before, and nothing goes the other
    /// way.
    pub proof fn lemma_run_forwards_in_order(events: Seq<RelayEvent>, side: Side, bytes: Vec<u8>)
        requires
            Relay::spec_run(events).end is None,
        ensures
            ({
                let before = Relay::spec_run(events);
                let after = Relay::spec_run(events.push(RelayEvent::Data(side, bytes)));
                &&& after.end is None
                &&& side == Side::Client ==> after.to_destination == before.to_destination
                    + bytes@ && after.to_client == before.to_client
                &&& side == Side::Destination ==> after.to_client == before.to_client + bytes@
                    && after.to_destination == before.to_destination
            }),
    {
        let longer = events.push(RelayEvent::Data(side, bytes));
        assert(longer.drop_last() =~= events);
    }

    /// After the event that ended the relay nothing more is delivered: a
    /// run that has ended, and the same run with more events behind it, have
    /// forwarded the same bytes and ended the same way.
    pub proof fn lemma_run_ends_once(events: Seq<RelayEvent>, more: Seq<RelayEvent>)
        requires
            Relay::spec_run(events).end is Some,
        ensures
            Relay::spec_run(events + more) == Relay::spec_run(events),
        decreases more.len(),
    {
        if more.len() == 0 {
            assert(events + more =~= events);
        } else {
            Relay::lemma_run_ends_once(events, more.drop_last());
            assert((events + more).drop_last() =~= events + more.drop_last());
        }
    }
}

} // verus!
