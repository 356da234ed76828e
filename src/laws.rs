//! Properties of the session's replies, stated over the transcript and the
//! transition relation.
use vstd::prelude::*;

use crate::frame::{reaction_of, FrameView, ReactionView};
use crate::session::{finish, next, replies, EventView, Phase, Termination};

verus! {

proof fn lemma_replies_cons(f: FrameView, rest: Seq<FrameView>)
    ensures
        replies(seq![f] + rest) == match reaction_of(f) {
            ReactionView::Reply(r) => seq![r] + replies(rest),
            ReactionView::Ignore => replies(rest),
            ReactionView::Stop => Seq::<FrameView>::empty(),
        },
{
    let s = seq![f] + rest;
    assert(s[0] == f);
    assert(s.drop_first() =~= rest);
}

/// A text frame is answered, before anything that follows it, by a text
/// frame with exactly the same characters; the frames after it are answered
/// as if it had not come.
pub proof fn text_is_echoed(t: Seq<char>, rest: Seq<FrameView>)
    ensures
        replies(seq![FrameView::Text(t)] + rest) == seq![FrameView::Text(t)] + replies(rest),
{
    lemma_replies_cons(FrameView::Text(t), rest);
}

/// A binary frame is answered, before anything that follows it, by a binary
/// frame with exactly the same bytes.
pub proof fn binary_is_echoed(b: Seq<u8>, rest: Seq<FrameView>)
    ensures
        replies(seq![FrameView::Binary(b)] + rest) == seq![FrameView::Binary(b)] + replies(
            rest,
        ),
{
    lemma_replies_cons(FrameView::Binary(b), rest);
}

/// A ping is answered by exactly one pong with the same payload, and by no
/// other frame.
pub proof fn ping_gets_one_pong(p: Seq<u8>, rest: Seq<FrameView>)
    ensures
        replies(seq![FrameView::Ping(p)] + rest) == seq![FrameView::Pong(p)] + replies(rest),
{
    lemma_replies_cons(FrameView::Ping(p), rest);
}

/// A pong is answered by nothing at all.
pub proof fn pong_is_silent(x: Seq<u8>, rest: Seq<FrameView>)
    ensures
        replies(seq![FrameView::Pong(x)] + rest) == replies(rest),
{
    lemma_replies_cons(FrameView::Pong(x), rest);
}

/// After a close frame nothing is sent, whatever else arrives.
pub proof fn close_ends_replies(c: Option<(u16, Seq<char>)>, rest: Seq<FrameView>)
    ensures
        replies(seq![FrameView::Close(c)] + rest) == Seq::<FrameView>::empty(),
{
    lemma_replies_cons(FrameView::Close(c), rest);
}

/// An open session that receives a close frame ends cleanly, and an ended
/// session stays ended and only ever asks to finish, whatever event follows.
pub proof fn close_terminates(c: Option<(u16, Seq<char>)>, e: EventView)
    ensures
        next(Phase::Open, EventView::Received(FrameView::Close(c))) == finish(
            Termination::PeerClosed,
        ),
        !Termination::PeerClosed.spec_is_error(),
        next(next(Phase::Open, EventView::Received(FrameView::Close(c))).0, e) == finish(
            Termination::PeerClosed,
        ),
{
}

/// A stream that ends without a close frame ends the session without an
/// error, and the session then stays ended.
pub proof fn abrupt_end_is_clean(e: EventView)
    ensures
        next(Phase::Open, EventView::StreamEnded) == finish(Termination::PeerGone),
        !Termination::PeerGone.spec_is_error(),
        next(Phase::Closed(Termination::PeerGone), e) == finish(Termination::PeerGone),
{
}

/// Frames are answered in the order they arrive: as long as no close frame
/// comes first, the replies to `a` followed by `b` are the replies to `a`
/// followed by the replies to `b`.
pub proof fn replies_keep_order(a: Seq<FrameView>, b: Seq<FrameView>)
    requires
        forall|i: int| 0 <= i < a.len() ==> !(#[trigger] a[i] is Close),
    ensures
        replies(a + b) == replies(a) + replies(b),
    decreases a.len(),
{
    if a.len() == 0 {
        assert(a + b =~= b);
        assert(replies(a) + replies(b) =~= replies(b));
    } else {
        let f = a[0];
        let t = a.drop_first();
        assert(a =~= seq![f] + t);
        assert(a + b =~= seq![f] + (t + b));
        assert forall|i: int| 0 <= i < t.len() implies !(#[trigger] t[i] is Close) by {
            assert(t[i] == a[i + 1]);
        }
        replies_keep_order(t, b);
        lemma_replies_cons(f, t + b);
        lemma_replies_cons(f, t);
        match reaction_of(f) {
            ReactionView::Reply(r) => {
                assert(seq![r] + (replies(t) + replies(b)) =~= (seq![r] + replies(t)) + replies(
                    b,
                ));
            },
            _ => {},
        }
    }
}

} // verus!
