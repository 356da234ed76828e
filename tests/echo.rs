use ws_echo::{
    after_accept, react, respond_all, AcceptStep, Action, CloseInfo, Event, Frame, Phase,
    Reaction, Session, Termination,
};

fn open_session() -> Session {
    let mut s = Session::new();
    assert_eq!(s.step(Event::Upgraded), Action::ReadNext);
    s
}

#[test]
fn text_is_echoed_unchanged() {
    for t in ["", "hello", "a\u{0}b\tc\n\u{7f}", "héllo wörld ✓ 😀"] {
        let out = respond_all(&vec![Frame::Text(t.to_string())]);
        assert_eq!(out, vec![Frame::Text(t.to_string())]);
    }
}

#[test]
fn binary_is_echoed_unchanged() {
    for b in [vec![], vec![0u8], vec![0xff, 0x00, 0x10, 0x80]] {
        let out = respond_all(&vec![Frame::Binary(b.clone())]);
        assert_eq!(out, vec![Frame::Binary(b)]);
    }
}

#[test]
fn ping_gets_exactly_one_pong() {
    let out = respond_all(&vec![Frame::Ping(vec![1, 2, 3])]);
    assert_eq!(out, vec![Frame::Pong(vec![1, 2, 3])]);
    let out = respond_all(&vec![Frame::Ping(vec![])]);
    assert_eq!(out, vec![Frame::Pong(vec![])]);
}

#[test]
fn pong_gets_no_reply() {
    assert_eq!(respond_all(&vec![Frame::Pong(vec![9, 9])]), vec![]);
    let mut s = open_session();
    assert_eq!(s.step(Event::Received(Frame::Pong(vec![7]))), Action::ReadNext);
    assert_eq!(s.phase(), Phase::Open);
}

#[test]
fn close_ends_the_session() {
    let frames = vec![
        Frame::Text("a".to_string()),
        Frame::Close(Some(CloseInfo { code: 1000, reason: "bye".to_string() })),
        Frame::Text("b".to_string()),
        Frame::Ping(vec![1]),
    ];
    assert_eq!(respond_all(&frames), vec![Frame::Text("a".to_string())]);

    let mut s = open_session();
    assert_eq!(
        s.step(Event::Received(Frame::Close(None))),
        Action::Finish(Termination::PeerClosed)
    );
    assert!(s.is_closed());
    assert!(!Termination::PeerClosed.is_error());
    assert_eq!(
        s.step(Event::Received(Frame::Text("late".to_string()))),
        Action::Finish(Termination::PeerClosed)
    );
    assert_eq!(s.phase(), Phase::Closed(Termination::PeerClosed));
}

#[test]
fn connections_are_isolated() {
    let mut a = open_session();
    let mut b = open_session();
    let ra = a.step(Event::Received(Frame::Text("hello".to_string())));
    let rb = b.step(Event::Received(Frame::Text("world".to_string())));
    assert_eq!(ra, Action::Send(Frame::Text("hello".to_string())));
    assert_eq!(rb, Action::Send(Frame::Text("world".to_string())));
    assert_eq!(a.step(Event::Sent), Action::ReadNext);
    assert_eq!(b.step(Event::Sent), Action::ReadNext);
    assert_eq!(
        respond_all(&vec![Frame::Text("hello".to_string())]),
        vec![Frame::Text("hello".to_string())]
    );
    assert_eq!(
        respond_all(&vec![Frame::Text("world".to_string())]),
        vec![Frame::Text("world".to_string())]
    );
}

#[test]
fn abrupt_disconnect_is_not_an_error() {
    let mut s = open_session();
    assert_eq!(s.step(Event::StreamEnded), Action::Finish(Termination::PeerGone));
    assert!(!Termination::PeerGone.is_error());
    assert!(s.is_closed());
    let other = open_session();
    assert_eq!(other.phase(), Phase::Open);
}

#[test]
fn echoes_keep_arrival_order() {
    let frames = vec![Frame::Text("1".to_string()), Frame::Text("2".to_string())];
    assert_eq!(
        respond_all(&frames),
        vec![Frame::Text("1".to_string()), Frame::Text("2".to_string())]
    );
    let mixed = vec![
        Frame::Binary(vec![1]),
        Frame::Pong(vec![]),
        Frame::Other,
        Frame::Ping(vec![2]),
        Frame::Text("x".to_string()),
    ];
    assert_eq!(
        respond_all(&mixed),
        vec![Frame::Binary(vec![1]), Frame::Pong(vec![2]), Frame::Text("x".to_string())]
    );
}

#[test]
fn reply_must_be_sent_before_next_read() {
    let mut s = open_session();
    assert_eq!(
        s.step(Event::Received(Frame::Text("1".to_string()))),
        Action::Send(Frame::Text("1".to_string()))
    );
    assert_eq!(s.phase(), Phase::Replying);
    assert_eq!(
        s.step(Event::Received(Frame::Text("2".to_string()))),
        Action::Finish(Termination::OutOfOrder)
    );
    assert!(Termination::OutOfOrder.is_error());
}

#[test]
fn failures_end_the_session_with_an_error() {
    let mut s = Session::new();
    assert_eq!(s.phase(), Phase::Handshaking);
    assert_eq!(s.step(Event::UpgradeFailed), Action::Finish(Termination::HandshakeFailed));
    assert!(Termination::HandshakeFailed.is_error());

    let mut s = open_session();
    assert_eq!(s.step(Event::ReadFailed), Action::Finish(Termination::ReadFailed));
    assert!(Termination::ReadFailed.is_error());

    let mut s = open_session();
    let _ = s.step(Event::Received(Frame::Binary(vec![5])));
    assert_eq!(s.step(Event::SendFailed), Action::Finish(Termination::SendFailed));
    assert!(Termination::SendFailed.is_error());

    let mut s = Session::new();
    assert_eq!(
        s.step(Event::Received(Frame::Other)),
        Action::Finish(Termination::OutOfOrder)
    );
}

#[test]
fn reactions_by_kind() {
    assert_eq!(react(Frame::Text("t".to_string())), Reaction::Reply(Frame::Text("t".to_string())));
    assert_eq!(react(Frame::Binary(vec![3])), Reaction::Reply(Frame::Binary(vec![3])));
    assert_eq!(react(Frame::Ping(vec![4])), Reaction::Reply(Frame::Pong(vec![4])));
    assert_eq!(react(Frame::Pong(vec![4])), Reaction::Ignore);
    assert_eq!(react(Frame::Close(None)), Reaction::Stop);
    assert_eq!(react(Frame::Other), Reaction::Ignore);
}

#[test]
fn duplicate_keeps_kind_and_payload() {
    let c = Frame::Close(Some(CloseInfo { code: 1001, reason: "away".to_string() }));
    assert_eq!(c.duplicate(), c);
    let p = Frame::Ping(vec![1, 2]);
    assert_eq!(p.duplicate(), p);
}

#[test]
fn failed_accept_halts_listener() {
    assert_eq!(after_accept(true), AcceptStep::Dispatch);
    assert_eq!(after_accept(false), AcceptStep::Halt);
}

#[test]
fn empty_input_gets_no_reply() {
    assert_eq!(respond_all(&vec![]), vec![]);
}
