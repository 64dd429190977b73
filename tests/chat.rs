use chatroom::broadcast::Subscription;
use chatroom::registry::{RoomError, RoomLogEvent, RoomRegistry};
use chatroom::session::{
    inbound_action, outbound_action, Delivery, Handshake, HandshakeFrame, HandshakeOutcome,
    InboundAction, InboundFrame, Joined, OutboundAction, Phase, Pump, Session,
};
use chatroom::text::{id_text, welcome, ChatMessage};
use tokio::sync::broadcast::error::TryRecvError;
use tokio::sync::broadcast::Receiver;

const U1: u128 = 0x67e5_5044_10b1_426f_9247_bb68_0e5f_e0c8;
const U2: u128 = 0x0000_0000_0000_0000_0000_0000_0000_0002;
const R1: u128 = 0xa1a2_a3a4_b1b2_c1c2_d1d2_d3d4_d5d6_d7d8;

fn join(reg: &mut RoomRegistry, user: u128, room: Option<u128>, fresh: u128) -> (Session, Joined) {
    let mut s = Session::new();
    let out = s.handshake(reg, HandshakeFrame::Parsed(Handshake { user, room }), fresh);
    match out {
        HandshakeOutcome::Joined(j) => (s, j),
        _ => panic!("handshake did not join"),
    }
}

fn next(rx: &mut Receiver<String>) -> Result<String, TryRecvError> {
    rx.try_recv()
}

fn rx_of(s: Subscription) -> Receiver<String> {
    s.into_receiver()
}

#[test]
fn id_text_is_hyphenated_lower_hex() {
    assert_eq!(id_text(U1), "67e55044-10b1-426f-9247-bb680e5fe0c8");
    assert_eq!(id_text(U2), "00000000-0000-0000-0000-000000000002");
    assert_eq!(id_text(R1), "a1a2a3a4-b1b2-c1c2-d1d2-d3d4d5d6d7d8");
}

#[test]
fn welcome_names_user_and_room() {
    assert_eq!(
        welcome(U2, R1),
        "Welcome 00000000-0000-0000-0000-000000000002! Your chatroom_uuid is a1a2a3a4-b1b2-c1c2-d1d2-d3d4d5d6d7d8."
    );
}

#[test]
fn frames_of_messages() {
    assert_eq!(ChatMessage::Joined { user: U2 }.frame(), "00000000-0000-0000-0000-000000000002 joined.");
    let m = ChatMessage::Said { user: U2, body: "hello".to_string() };
    assert_eq!(m.frame(), "00000000-0000-0000-0000-000000000002: hello");
    let empty = ChatMessage::Said { user: U2, body: String::new() };
    assert_eq!(empty.frame(), "00000000-0000-0000-0000-000000000002: ");
}

#[test]
fn ensure_room_fresh_then_existing() {
    let mut reg = RoomRegistry::new();
    let a = reg.ensure_room(None, R1).ok().unwrap();
    assert_eq!(a.room, R1);
    assert_eq!(a.log, Some(RoomLogEvent::RoomCreated { room: R1 }));
    assert_eq!(a.broadcaster.room_id(), R1);
    assert!(reg.contains_room(R1));
    assert_eq!(reg.member_count(R1), Some(0));
    let b = reg.ensure_room(Some(R1), 7).ok().unwrap();
    assert_eq!(b.room, R1);
    assert_eq!(b.log, None);
    assert!(!reg.contains_room(7));
}

#[test]
fn ensure_room_refuses_taken_fresh_id() {
    let mut reg = RoomRegistry::new();
    reg.ensure_room(Some(R1), 0).ok().unwrap();
    match reg.ensure_room(None, R1) {
        Err(e) => assert_eq!(e, RoomError::IdInUse { room: R1 }),
        Ok(_) => panic!("a taken identifier was accepted"),
    }
}

#[test]
fn ensure_room_creates_requested_unknown_room() {
    let mut reg = RoomRegistry::new();
    let e = reg.ensure_room(Some(R1), 5).ok().unwrap();
    assert_eq!(e.room, R1);
    assert_eq!(e.log, Some(RoomLogEvent::RoomCreated { room: R1 }));
    assert!(!reg.contains_room(5));
}

#[test]
fn add_member_is_idempotent_and_logged_each_time() {
    let mut reg = RoomRegistry::new();
    reg.ensure_room(Some(R1), 0).ok().unwrap();
    assert_eq!(reg.add_member(R1, U1), Ok(RoomLogEvent::MemberAdded { room: R1, user: U1 }));
    assert_eq!(reg.add_member(R1, U1), Ok(RoomLogEvent::MemberAdded { room: R1, user: U1 }));
    assert_eq!(reg.member_count(R1), Some(1));
    assert!(reg.is_member(R1, U1));
    assert!(!reg.is_member(R1, U2));
}

#[test]
fn add_member_to_unknown_room_fails() {
    let mut reg = RoomRegistry::new();
    assert_eq!(reg.add_member(R1, U1), Err(RoomError::UnknownRoom { room: R1 }));
    assert!(!reg.contains_room(R1));
    assert!(!reg.is_member(R1, U1));
    assert_eq!(reg.member_count(R1), None);
    assert!(reg.broadcaster(R1).is_none());
    assert!(reg.subscribe(R1).is_none());
}

#[test]
fn concurrent_fresh_rooms_are_distinct_and_empty() {
    let mut reg = RoomRegistry::new();
    let fresh: Vec<u128> = (1..=5).collect();
    let mut rooms = Vec::new();
    for f in &fresh {
        let e = reg.ensure_room(None, *f).ok().unwrap();
        rooms.push(e.room);
    }
    assert_eq!(rooms, fresh);
    for r in &rooms {
        assert_eq!(reg.member_count(*r), Some(0));
    }
}

#[test]
fn same_unknown_id_makes_one_channel() {
    let mut reg = RoomRegistry::new();
    let mut created = 0;
    let mut subs = Vec::new();
    for n in 0..4u128 {
        let e = reg.ensure_room(Some(R1), 100 + n).ok().unwrap();
        if e.log.is_some() {
            created += 1;
        }
        subs.push(rx_of(reg.subscribe(R1).unwrap()));
    }
    assert_eq!(created, 1);
    let b = reg.broadcaster(R1).unwrap();
    assert_eq!(b.publish(&ChatMessage::Joined { user: U1 }), Some(4));
    for rx in subs.iter_mut() {
        assert_eq!(next(rx).unwrap(), format!("{} joined.", id_text(U1)));
    }
}

#[test]
fn handshake_skips_other_frames() {
    let mut reg = RoomRegistry::new();
    let mut s = Session::new();
    assert!(matches!(s.handshake(&mut reg, HandshakeFrame::NotText, 1), HandshakeOutcome::Wait));
    assert_eq!(s.phase(), Phase::AwaitingHandshake);
}

#[test]
fn malformed_handshake_is_rejected_and_closes() {
    let mut reg = RoomRegistry::new();
    let mut s = Session::new();
    let out = s.handshake(&mut reg, HandshakeFrame::Malformed("missing field `user_uuid`".to_string()), 1);
    match out {
        HandshakeOutcome::Reject(d) => assert_eq!(d, "missing field `user_uuid`"),
        _ => panic!("not rejected"),
    }
    assert_eq!(s.phase(), Phase::Closed);
    assert!(!reg.contains_room(1));
}

#[test]
fn handshake_end_closes() {
    let mut reg = RoomRegistry::new();
    let mut s = Session::new();
    assert!(matches!(s.handshake(&mut reg, HandshakeFrame::End, 1), HandshakeOutcome::Close));
    assert_eq!(s.phase(), Phase::Closed);
}

#[test]
fn handshake_with_taken_fresh_id_asks_again() {
    let mut reg = RoomRegistry::new();
    let _a = join(&mut reg, U1, None, R1);
    let mut s = Session::new();
    let out = s.handshake(&mut reg, HandshakeFrame::Parsed(Handshake { user: U2, room: None }), R1);
    assert!(matches!(out, HandshakeOutcome::FreshIdTaken));
    assert_eq!(s.phase(), Phase::AwaitingHandshake);
    assert_eq!(reg.member_count(R1), Some(1));
}

#[test]
fn join_logs_creation_then_membership() {
    let mut reg = RoomRegistry::new();
    let (s, j) = join(&mut reg, U1, None, R1);
    assert_eq!(s.phase(), Phase::Streaming { user: U1, room: R1 });
    assert_eq!(j.log, vec![RoomLogEvent::RoomCreated { room: R1 }, RoomLogEvent::MemberAdded { room: R1, user: U1 }]);
    let (_s2, j2) = join(&mut reg, U2, Some(R1), 9);
    assert_eq!(j2.log, vec![RoomLogEvent::MemberAdded { room: R1, user: U2 }]);
    assert_eq!(j2.room, R1);
    assert_eq!(reg.member_count(R1), Some(2));
}

#[test]
fn scenario_two_users_chat() {
    let mut reg = RoomRegistry::new();
    let (_sa, ja) = join(&mut reg, U1, None, R1);
    assert_eq!(ja.welcome, format!("Welcome {}! Your chatroom_uuid is {}.", id_text(U1), id_text(R1)));
    ja.announce();
    let mut rx_a = rx_of(ja.subscription);
    assert_eq!(next(&mut rx_a).unwrap(), format!("{} joined.", id_text(U1)));

    let (_sb, jb) = join(&mut reg, U2, Some(R1), 42);
    assert_eq!(jb.welcome, format!("Welcome {}! Your chatroom_uuid is {}.", id_text(U2), id_text(R1)));
    jb.announce();
    let mut rx_b = rx_of(jb.subscription);
    assert_eq!(next(&mut rx_a).unwrap(), format!("{} joined.", id_text(U2)));

    match inbound_action(U2, InboundFrame::Text("hello".to_string())) {
        InboundAction::Publish(m) => {
            jb.broadcaster.publish(&m);
        }
        _ => panic!("text not published"),
    }
    assert_eq!(next(&mut rx_a).unwrap(), format!("{}: hello", id_text(U2)));
    assert_eq!(next(&mut rx_b).unwrap(), format!("{} joined.", id_text(U2)));
    assert_eq!(next(&mut rx_b).unwrap(), format!("{}: hello", id_text(U2)));
}

#[test]
fn messages_arrive_in_publish_order() {
    let mut reg = RoomRegistry::new();
    let (_sa, ja) = join(&mut reg, U1, None, R1);
    let (_sb, jb) = join(&mut reg, U2, Some(R1), 3);
    let mut rx_a = rx_of(ja.subscription);
    for body in ["one", "two", "three"] {
        jb.broadcaster.publish(&ChatMessage::Said { user: U2, body: body.to_string() });
    }
    ja.broadcaster.publish(&ChatMessage::Said { user: U1, body: "four".to_string() });
    let got: Vec<String> = (0..4).map(|_| next(&mut rx_a).unwrap()).collect();
    assert_eq!(
        got,
        vec![
            format!("{}: one", id_text(U2)),
            format!("{}: two", id_text(U2)),
            format!("{}: three", id_text(U2)),
            format!("{}: four", id_text(U1)),
        ]
    );
    assert_eq!(next(&mut rx_a), Err(TryRecvError::Empty));
}

#[test]
fn disconnecting_one_session_leaves_the_other() {
    let mut reg = RoomRegistry::new();
    let (mut sa, ja) = join(&mut reg, U1, None, R1);
    let (sb, jb) = join(&mut reg, U2, Some(R1), 3);
    assert_eq!(sa.pump_finished(Pump::Inbound), Some(Pump::Outbound));
    assert_eq!(sa.phase(), Phase::Closed);
    assert_eq!(sa.pump_finished(Pump::Outbound), None);
    drop(ja);
    assert_eq!(sb.phase(), Phase::Streaming { user: U2, room: R1 });
    let mut rx_b = rx_of(jb.subscription);
    assert_eq!(jb.broadcaster.publish(&ChatMessage::Said { user: U2, body: "still here".to_string() }), Some(1));
    assert_eq!(next(&mut rx_b).unwrap(), format!("{}: still here", id_text(U2)));
    assert!(reg.is_member(R1, U1));
}

#[test]
fn supervisor_cancels_the_other_pump() {
    let mut reg = RoomRegistry::new();
    let (mut s, _j) = join(&mut reg, U1, None, R1);
    assert_eq!(s.pump_finished(Pump::Outbound), Some(Pump::Inbound));
    assert_eq!(s.pump_finished(Pump::Inbound), None);
    let mut idle = Session::new();
    assert_eq!(idle.pump_finished(Pump::Inbound), None);
    assert_eq!(idle.phase(), Phase::AwaitingHandshake);
}

#[test]
fn lagging_reader_sees_a_gap() {
    let mut reg = RoomRegistry::with_capacity(2);
    let (_s, j) = join(&mut reg, U1, None, R1);
    let mut rx = rx_of(j.subscription);
    for i in 0..5 {
        assert_eq!(j.broadcaster.publish(&ChatMessage::Said { user: U1, body: format!("{}", i) }), Some(1));
    }
    let missed = match next(&mut rx) {
        Err(TryRecvError::Lagged(n)) => n,
        other => panic!("no gap: {:?}", other),
    };
    assert_eq!(missed, 3);
    assert!(matches!(outbound_action(Delivery::Lagged(missed)), OutboundAction::Skip { missed: 3 }));
    assert_eq!(next(&mut rx).unwrap(), format!("{}: 3", id_text(U1)));
    assert_eq!(next(&mut rx).unwrap(), format!("{}: 4", id_text(U1)));
}

#[test]
fn publish_without_readers_reaches_none() {
    let mut reg = RoomRegistry::new();
    let e = reg.ensure_room(None, R1).ok().unwrap();
    assert_eq!(e.broadcaster.publish(&ChatMessage::Joined { user: U1 }), None);
}

#[test]
fn outbound_decisions() {
    match outbound_action(Delivery::Frame("x: y".to_string())) {
        OutboundAction::Write(w) => assert_eq!(w, "x: y"),
        _ => panic!("frame not written"),
    }
    assert!(matches!(outbound_action(Delivery::Closed), OutboundAction::Stop));
}

#[test]
fn inbound_decisions() {
    match inbound_action(U1, InboundFrame::Text("hi".to_string())) {
        InboundAction::Publish(m) => assert_eq!(m.frame(), format!("{}: hi", id_text(U1))),
        _ => panic!("text not published"),
    }
    assert!(matches!(inbound_action(U1, InboundFrame::Other), InboundAction::Ignore));
    assert!(matches!(inbound_action(U1, InboundFrame::End), InboundAction::Stop));
}
