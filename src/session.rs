//! The per-connection session: a state machine from transport events to the
//! next action, and the replies a whole run of inbound frames receives.
use vstd::prelude::*;

use crate::frame::{react, views, Frame, FrameView, Reaction, ReactionView, reaction_of};

verus! {

/// Why a session ended.
#[derive(Debug, Clone, Copy, PartialEq, Eq, Structural)]
pub enum Termination {
    /// The peer sent a close frame.
    PeerClosed,
    /// The inbound stream ended without a close frame.
    PeerGone,
    /// The protocol upgrade did not succeed.
    HandshakeFailed,
    /// Reading the next frame failed.
    ReadFailed,
    /// Sending a reply failed.
    SendFailed,
    /// The driver reported an event that the current phase does not await.
    OutOfOrder,
}

impl Termination {
    pub open spec fn spec_is_error(self) -> bool {
        !(self is PeerClosed || self is PeerGone)
    }

    /// Whether the session ended with an error rather than by the peer's
    /// doing.
    #[verifier::when_used_as_spec(spec_is_error)]
    pub fn is_error(self) -> (r: bool)
        ensures
            r == self.spec_is_error(),
    {
        match self {
            Termination::PeerClosed | Termination::PeerGone => false,
            _ => true,
        }
    }
}

/// Where a session stands.
#[derive(Debug, Clone, Copy, PartialEq, Eq, Structural)]
pub enum Phase {
    /// Waiting for the protocol upgrade.
    Handshaking,
    /// Waiting for the next inbound frame.
    Open,
    /// Waiting for a reply to be sent.
    Replying,
    /// Ended; nothing more is read or sent.
    Closed(Termination),
}

/// What the driver observed.
#[derive(Debug, Clone, PartialEq, Eq)]
pub enum Event {
    Upgraded,
    UpgradeFailed,
    Received(Frame),
    StreamEnded,
    ReadFailed,
    Sent,
    SendFailed,
}

pub enum EventView {
    Upgraded,
    UpgradeFailed,
    Received(FrameView),
    StreamEnded,
    ReadFailed,
    Sent,
    SendFailed,
}

impl View for Event {
    type V = EventView;

    open spec fn view(&self) -> EventView {
        match self {
            Event::Upgraded => EventView::Upgraded,
            Event::UpgradeFailed => EventView::UpgradeFailed,
            Event::Received(f) => EventView::Received(f@),
            Event::StreamEnded => EventView::StreamEnded,
            Event::ReadFailed => EventView::ReadFailed,
            Event::Sent => EventView::Sent,
            Event::SendFailed => EventView::SendFailed,
        }
    }
}

/// What the driver is to do next.
#[derive(Debug, Clone, PartialEq, Eq)]
pub enum Action {
    /// Wait for the next inbound frame.
    ReadNext,
    /// Send this frame, then report whether that succeeded.
    Send(Frame),
    /// Stop: the session is over.
    Finish(Termination),
}

pub enum ActionView {
    ReadNext,
    Send(FrameView),
    Finish(Termination),
}

impl View for Action {
    type V = ActionView;

    open spec fn view(&self) -> ActionView {
        match self {
            Action::ReadNext => ActionView::ReadNext,
            Action::Send(f) => ActionView::Send(f@),
            Action::Finish(t) => ActionView::Finish(*t),
        }
    }
}

pub open spec fn finish(t: Termination) -> (Phase, ActionView) {
    (Phase::Closed(t), ActionView::Finish(t))
}

/// The transition relation: the phase after an event, and the action that
/// goes with it. An event that the phase does not await ends the session.
pub open spec fn next(p: Phase, e: EventView) -> (Phase, ActionView) {
    match p {
        Phase::Handshaking => match e {
            EventView::Upgraded => (Phase::Open, ActionView::ReadNext),
            EventView::UpgradeFailed => finish(Termination::HandshakeFailed),
            _ => finish(Termination::OutOfOrder),
        },
        Phase::Open => match e {
            EventView::Received(f) => match reaction_of(f) {
                ReactionView::Reply(r) => (Phase::Replying, ActionView::Send(r)),
                ReactionView::Ignore => (Phase::Open, ActionView::ReadNext),
                ReactionView::Stop => finish(Termination::PeerClosed),
            },
            EventView::StreamEnded => finish(Termination::PeerGone),
            EventView::ReadFailed => finish(Termination::ReadFailed),
            _ => finish(Termination::OutOfOrder),
        },
        Phase::Replying => match e {
            EventView::Sent => (Phase::Open, ActionView::ReadNext),
            EventView::SendFailed => finish(Termination::SendFailed),
            _ => finish(Termination::OutOfOrder),
        },
        Phase::Closed(t) => finish(t),
    }
}

/// The replies that a session sends to inbound frames arriving in the order
/// of `s`, each reply sent before the next frame is read, up to the first
/// close frame.
pub open spec fn replies(s: Seq<FrameView>) -> Seq<FrameView>
    decreases s.len(),
{
    if s.len() == 0 {
        Seq::empty()
    } else {
        match reaction_of(s[0]) {
            ReactionView::Reply(r) => seq![r] + replies(s.drop_first()),
            ReactionView::Ignore => replies(s.drop_first()),
            ReactionView::Stop => Seq::empty(),
        }
    }
}

/// One connection's session, owned by the task that drives it.
pub struct Session {
    phase: Phase,
}

impl View for Session {
    type V = Phase;

    closed spec fn view(&self) -> Phase {
        self.phase
    }
}

impl Session {
    /// A session that awaits the protocol upgrade.
    pub fn new() -> (s: Session)
        ensures
            s@ == Phase::Handshaking,
    {
        Session { phase: Phase::Handshaking }
    }

    /// The current phase.
    pub fn phase(&self) -> (p: Phase)
        ensures
            p == self@,
    {
        self.phase
    }

    /// Whether the session has ended.
    pub fn is_closed(&self) -> (r: bool)
        ensures
            r == (self@ is Closed),
    {
        match self.phase {
            Phase::Closed(_) => true,
            _ => false,
        }
    }

    /// Takes one event and moves to the next phase, returning what the
    /// driver must do.
    pub fn step(&mut self, event: Event) -> (a: Action)
        ensures
            (final(self)@, a@) == next(old(self)@, event@),
    {
        match self.phase {
            Phase::Handshaking => match event {
                Event::Upgraded => {
                    self.phase = Phase::Open;
                    Action::ReadNext
                },
                Event::UpgradeFailed => self.end(Termination::HandshakeFailed),
                _ => self.end(Termination::OutOfOrder),
            },
            Phase::Open => match event {
                Event::Received(f) => match react(f) {
                    Reaction::Reply(r) => {
                        self.phase = Phase::Replying;
                        Action::Send(r)
                    },
                    Reaction::Ignore => Action::ReadNext,
                    Reaction::Stop => self.end(Termination::PeerClosed),
                },
                Event::StreamEnded => self.end(Termination::PeerGone),
                Event::ReadFailed => self.end(Termination::ReadFailed),
                _ => self.end(Termination::OutOfOrder),
            },
            Phase::Replying => match event {
                Event::Sent => {
                    self.phase = Phase::Open;
                    Action::ReadNext
                },
                Event::SendFailed => self.end(Termination::SendFailed),
                _ => self.end(Termination::OutOfOrder),
            },
            Phase::Closed(t) => Action::Finish(t),
        }
    }

    fn end(&mut self, t: Termination) -> (a: Action)
        ensures
            (final(self)@, a@) == finish(t),
    {
        self.phase = Phase::Closed(t);
        Action::Finish(t)
    }
}

/// Drives a fresh session over inbound frames arriving in the order given,
/// every upgrade and send succeeding, and returns the frames it sends back,
/// in order.
pub fn respond_all(frames: &Vec<Frame>) -> (r: Vec<Frame>)
    ensures
        views(r@) == replies(views(frames@)),
{
    let ghost all = views(frames@);
    let mut session = Session::new();
    let _ = session.step(Event::Upgraded);
    let mut out: Vec<Frame> = Vec::new();
    let mut done = false;
    let mut i: usize = 0;
    assert(views(out@) =~= Seq::<FrameView>::empty());
    assert(all.skip(0) =~= all);
    assert(Seq::<FrameView>::empty() + replies(all) =~= replies(all));
    while i < frames.len() && !done
        invariant
            0 <= i <= frames.len(),
            all == views(frames@),
            !done ==> session@ == Phase::Open,
            !done ==> views(out@) + replies(all.skip(i as int)) == replies(all),
            done ==> views(out@) == replies(all),
        decreases frames.len() - i,
    {
        let ghost rest = all.skip(i as int);
        assert(rest[0] == frames@[i as int]@);
        assert(rest.drop_first() =~= all.skip(i + 1));
        let a = session.step(Event::Received(frames[i].duplicate()));
        match a {
            Action::Send(f) => {
                let ghost before = views(out@);
                out.push(f);
                assert(views(out@) =~= before + seq![f@]);
                let _ = session.step(Event::Sent);
            },
            Action::ReadNext => {},
            Action::Finish(_) => {
                done = true;
            },
        }
        i = i + 1;
    }
    proof {
        if !done {
            assert(all.skip(i as int) =~= Seq::<FrameView>::empty());
            assert(views(out@) =~= views(out@) + Seq::<FrameView>::empty());
        }
    }
    out
}

} // verus!
