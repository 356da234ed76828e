//! Frames as the session logic sees them, and the reaction to each kind.
use vstd::prelude::*;

verus! {

/// The reason carried by a close frame: a status code and a text.
#[derive(Debug, Clone, PartialEq, Eq)]
pub struct CloseInfo {
    pub code: u16,
    pub reason: String,
}

/// One discrete protocol message, tagged by kind.
#[derive(Debug, Clone, PartialEq, Eq)]
pub enum Frame {
    Text(String),
    Binary(Vec<u8>),
    Ping(Vec<u8>),
    Pong(Vec<u8>),
    Close(Option<CloseInfo>),
    /// Any kind the session does not act upon.
    Other,
}

/// The mathematical value of a frame: its kind and its payload.
pub enum FrameView {
    Text(Seq<char>),
    Binary(Seq<u8>),
    Ping(Seq<u8>),
    Pong(Seq<u8>),
    Close(Option<(u16, Seq<char>)>),
    Other,
}

impl View for CloseInfo {
    type V = (u16, Seq<char>);

    open spec fn view(&self) -> (u16, Seq<char>) {
        (self.code, self.reason@)
    }
}

impl View for Frame {
    type V = FrameView;

    open spec fn view(&self) -> FrameView {
        match self {
            Frame::Text(t) => FrameView::Text(t@),
            Frame::Binary(b) => FrameView::Binary(b@),
            Frame::Ping(p) => FrameView::Ping(p@),
            Frame::Pong(p) => FrameView::Pong(p@),
            Frame::Close(c) => FrameView::Close(
                match c {
                    Some(i) => Some(i@),
                    None => None,
                },
            ),
            Frame::Other => FrameView::Other,
        }
    }
}

/// The views of a sequence of frames, in order.
pub open spec fn views(s: Seq<Frame>) -> Seq<FrameView> {
    s.map_values(|f: Frame| f@)
}

/// What the session does with one inbound frame.
#[derive(Debug, Clone, PartialEq, Eq)]
pub enum Reaction {
    /// Send this frame back before reading the next one.
    Reply(Frame),
    /// Send nothing and read the next frame.
    Ignore,
    /// End the session.
    Stop,
}

pub enum ReactionView {
    Reply(FrameView),
    Ignore,
    Stop,
}

impl View for Reaction {
    type V = ReactionView;

    open spec fn view(&self) -> ReactionView {
        match self {
            Reaction::Reply(f) => ReactionView::Reply(f@),
            Reaction::Ignore => ReactionView::Ignore,
            Reaction::Stop => ReactionView::Stop,
        }
    }
}

/// Text and binary frames are echoed unchanged, a ping is answered by a pong
/// with the same payload, a close ends the session, anything else is ignored.
pub open spec fn reaction_of(f: FrameView) -> ReactionView {
    match f {
        FrameView::Text(t) => ReactionView::Reply(FrameView::Text(t)),
        FrameView::Binary(b) => ReactionView::Reply(FrameView::Binary(b)),
        FrameView::Ping(p) => ReactionView::Reply(FrameView::Pong(p)),
        FrameView::Pong(_) => ReactionView::Ignore,
        FrameView::Close(_) => ReactionView::Stop,
        FrameView::Other => ReactionView::Ignore,
    }
}

/// Decides the reaction to one inbound frame, handing its payload on
/// without a copy.
pub fn react(frame: Frame) -> (r: Reaction)
    ensures
        r@ == reaction_of(frame@),
{
    match frame {
        Frame::Text(t) => Reaction::Reply(Frame::Text(t)),
        Frame::Binary(b) => Reaction::Reply(Frame::Binary(b)),
        Frame::Ping(p) => Reaction::Reply(Frame::Pong(p)),
        Frame::Pong(_) => Reaction::Ignore,
        Frame::Close(_) => Reaction::Stop,
        Frame::Other => Reaction::Ignore,
    }
}

fn copy_bytes(b: &Vec<u8>) -> (r: Vec<u8>)
    ensures
        r@ == b@,
{
    let r = b.clone();
    assert(r@ =~= b@);
    r
}

impl Frame {
    /// A copy of this frame with the same kind and payload.
    pub fn duplicate(&self) -> (r: Frame)
        ensures
            r@ == self@,
    {
        match self {
            Frame::Text(t) => Frame::Text(t.clone()),
            Frame::Binary(b) => Frame::Binary(copy_bytes(b)),
            Frame::Ping(p) => Frame::Ping(copy_bytes(p)),
            Frame::Pong(p) => Frame::Pong(copy_bytes(p)),
            Frame::Close(None) => Frame::Close(None),
            Frame::Close(Some(c)) => Frame::Close(
                Some(CloseInfo { code: c.code, reason: c.reason.clone() }),
            ),
            Frame::Other => Frame::Other,
        }
    }
}

} // verus!
