//! One connection's decisions. A session awaits a handshake, joins the
//! room it names (or a new one), then streams through two pumps: inbound
//! frames are published to the room, the room's frames are written out.
//! When either pump ends, the other is cancelled and the session closes.

use vstd::prelude::*;
use crate::broadcast::{Broadcaster, Subscription};
use crate::registry::{
    RoomLogEvent, RoomRegistry, creation_event, ensure_refused, target_room, with_member,
    with_room,
};
use crate::text::{ChatMessage, frame_of, said_text, welcome, welcome_text};

verus! {

/// The first payload of a connection: who is speaking and, optionally,
/// which room to join.
#[derive(PartialEq, Eq, Structural, Clone, Copy, Debug)]
pub struct Handshake {
    pub user: u128,
    pub room: Option<u128>,
}

/// A frame read while awaiting the handshake, as the transport saw it.
pub enum HandshakeFrame {
    /// A text frame that holds a handshake payload.
    Parsed(Handshake),
    /// A text frame that does not; the text describes why.
    Malformed(String),
    /// A frame of another kind.
    NotText,
    /// The stream ended or failed.
    End,
}

/// Where a session stands.
#[derive(PartialEq, Eq, Structural, Clone, Copy, Debug)]
pub enum Phase {
    AwaitingHandshake,
    Streaming { user: u128, room: u128 },
    Closed,
}

/// One of the two pumps of a streaming session.
#[derive(PartialEq, Eq, Structural, Clone, Copy, Debug)]
pub enum Pump {
    /// Moves the room's frames to the connection.
    Outbound,
    /// Moves the connection's frames to the room.
    Inbound,
}

/// The other pump of the same session.
pub open spec fn other_pump(p: Pump) -> Pump {
    match p {
        Pump::Outbound => Pump::Inbound,
        Pump::Inbound => Pump::Outbound,
    }
}

/// Everything a session needs once it has joined its room.
pub struct Joined {
    pub user: u128,
    pub room: u128,
    /// The frame to send first on the connection.
    pub welcome: String,
    /// The entries to append to the room log, in order.
    pub log: Vec<RoomLogEvent>,
    /// A handle on the room's channel, for the inbound pump.
    pub broadcaster: Broadcaster,
    /// The session's reader of the room's channel, for the outbound pump.
    pub subscription: Subscription,
}

/// What to do after a frame read while awaiting the handshake.
pub enum HandshakeOutcome {
    /// Read the next frame.
    Wait,
    /// Send this diagnostic frame, then close the connection.
    Reject(String),
    /// Close the connection.
    Close,
    /// The fresh room identifier is taken: hand the same frame in again
    /// with another one.
    FreshIdTaken,
    /// The session has joined a room.
    Joined(Joined),
}

/// The log entries of a join: the room's creation if it was made, then
/// the membership.
pub open spec fn join_log(rooms: Map<u128, Set<u128>>, room: u128, user: u128) -> Seq<
    RoomLogEvent,
> {
    match creation_event(rooms, room) {
        Some(e) => seq![e, RoomLogEvent::MemberAdded { room, user }],
        None => seq![RoomLogEvent::MemberAdded { room, user }],
    }
}

/// The rooms once `user` has joined the room it asked for (or `fresh`).
pub open spec fn after_join(
    rooms: Map<u128, Set<u128>>,
    requested: Option<u128>,
    fresh: u128,
    user: u128,
) -> Map<u128, Set<u128>> {
    let room = target_room(requested, fresh);
    with_member(with_room(rooms, room), room, user)
}

/// The per-connection state machine.
pub struct Session {
    phase: Phase,
}

impl Joined {
    /// Publishes the "joined" notice of this session's user to its room.
    pub fn announce(&self) -> (r: Option<usize>)
        ensures
            r matches Some(n) ==> n > 0,
    {
        self.broadcaster.publish(&ChatMessage::Joined { user: self.user })
    }
}

impl Session {
    /// Where the session stands.
    pub closed spec fn state(&self) -> Phase {
        self.phase
    }

    /// A session that awaits its handshake.
    pub fn new() -> (r: Session)
        ensures
            r.state() == Phase::AwaitingHandshake,
    {
        Session { phase: Phase::AwaitingHandshake }
    }

    /// Where the session stands.
    pub fn phase(&self) -> (r: Phase)
        ensures
            r == self.state(),
    {
        self.phase
    }

    /// Handles one frame read while awaiting the handshake. Frames of another
    /// kind are skipped; a malformed payload is answered with its diagnostic
    /// and closes the session without touching the registry. A handshake
    /// makes sure the room exists, adds the user to it, and subscribes the
    /// session to the room's channel. `fresh` is the identifier of the room
    /// to make when the handshake names none.
    pub fn handshake(
        &mut self,
        registry: &mut RoomRegistry,
        frame: HandshakeFrame,
        fresh: u128,
    ) -> (r: HandshakeOutcome)
        requires
            old(self).state() == Phase::AwaitingHandshake,
            old(registry).wf(),
        ensures
            final(registry).wf(),
            final(registry).capacity() == old(registry).capacity(),
            forall|k: u128| #[trigger]
                old(registry).members().contains_key(k) ==> final(registry).channel(k) == old(
                    registry,
                ).channel(k),
            match frame {
                HandshakeFrame::NotText => {
                    &&& r is Wait
                    &&& final(self).state() == Phase::AwaitingHandshake
                    &&& final(registry).members() == old(registry).members()
                },
                HandshakeFrame::End => {
                    &&& r is Close
                    &&& final(self).state() == Phase::Closed
                    &&& final(registry).members() == old(registry).members()
                },
                HandshakeFrame::Malformed(diag) => {
                    &&& r matches HandshakeOutcome::Reject(d) && d@ == diag@
                    &&& final(self).state() == Phase::Closed
                    &&& final(registry).members() == old(registry).members()
                },
                HandshakeFrame::Parsed(h) => if ensure_refused(
                    old(registry).members(),
                    h.room,
                    fresh,
                ) {
                    &&& r is FreshIdTaken
                    &&& final(self).state() == Phase::AwaitingHandshake
                    &&& final(registry).members() == old(registry).members()
                } else {
                    let room = target_room(h.room, fresh);
                    &&& r matches HandshakeOutcome::Joined(j) && {
                        &&& j.user == h.user
                        &&& j.room == room
                        &&& j.welcome@ == welcome_text(h.user, room)
                        &&& j.log@ == join_log(old(registry).members(), room, h.user)
                        &&& j.broadcaster.room() == room
                        &&& j.subscription.room() == room
                    }
                    &&& final(self).state() == Phase::Streaming { user: h.user, room }
                    &&& final(registry).members() == after_join(
                        old(registry).members(),
                        h.room,
                        fresh,
                        h.user,
                    )
                },
            },
    {
        match frame {
            HandshakeFrame::NotText => HandshakeOutcome::Wait,
            HandshakeFrame::End => {
                self.phase = Phase::Closed;
                HandshakeOutcome::Close
            },
            HandshakeFrame::Malformed(diag) => {
                self.phase = Phase::Closed;
                HandshakeOutcome::Reject(diag)
            },
            HandshakeFrame::Parsed(h) => {
                let ensured = match registry.ensure_room(h.room, fresh) {
                    Ok(e) => e,
                    Err(_) => {
                        return HandshakeOutcome::FreshIdTaken;
                    },
                };
                let room = ensured.room;
                let ghost mid = *registry;
                let added = registry.add_member(room, h.user);
                proof {
                    assert forall|k: u128| #[trigger]
                        old(registry).members().contains_key(k) implies registry.channel(k)
                        == old(registry).channel(k) by {
                        assert(mid.members().contains_key(k));
                    }
                }
                let mut log: Vec<RoomLogEvent> = Vec::new();
                match ensured.log {
                    Some(e) => log.push(e),
                    None => {},
                }
                match added {
                    Ok(e) => log.push(e),
                    Err(_) => {},
                }
                let subscription = match registry.subscribe(room) {
                    Some(s) => s,
                    None => ensured.broadcaster.subscribe(),
                };
                self.phase = Phase::Streaming { user: h.user, room };
                let j = Joined {
                    user: h.user,
                    room,
                    welcome: welcome(h.user, room),
                    log,
                    broadcaster: ensured.broadcaster,
                    subscription,
                };
                proof {
                    assert(j.log@ =~= join_log(old(registry).members(), room, h.user));
                }
                HandshakeOutcome::Joined(j)
            },
        }
    }

    /// Records that one pump of a streaming session has ended, for whatever
    /// reason, and names the other pump, which must be cancelled. The session
    /// closes; a pump that ends after that names nothing, so exactly one of
    /// the two starts the shutdown.
    pub fn pump_finished(&mut self, pump: Pump) -> (r: Option<Pump>)
        ensures
            old(self).state() is Streaming ==> {
                &&& r == Some(other_pump(pump))
                &&& final(self).state() == Phase::Closed
            },
            !(old(self).state() is Streaming) ==> {
                &&& r is None
                &&& final(self).state() == old(self).state()
            },
    {
        match self.phase {
            Phase::Streaming { .. } => {
                self.phase = Phase::Closed;
                match pump {
                    Pump::Outbound => Some(Pump::Inbound),
                    Pump::Inbound => Some(Pump::Outbound),
                }
            },
            _ => None,
        }
    }
}

/// What a session's reader of the room's channel handed over.
pub enum Delivery {
    /// The next frame of the room.
    Frame(String),
    /// The reader fell behind and this many frames were dropped for it.
    Lagged(u64),
    /// The channel has no sender left.
    Closed,
}

/// What the outbound pump does next.
pub enum OutboundAction {
    /// Write this text frame to the connection.
    Write(String),
    /// Go on reading: this many frames were skipped.
    Skip { missed: u64 },
    /// End the pump.
    Stop,
}

/// The outbound pump's decision: a frame is written as it is, a gap is
/// noted and passed over without ending the connection, and a closed
/// channel ends the pump.
pub fn outbound_action(d: Delivery) -> (r: OutboundAction)
    ensures
        match d {
            Delivery::Frame(f) => r matches OutboundAction::Write(w) && w@ == f@,
            Delivery::Lagged(n) => r matches OutboundAction::Skip { missed } && missed == n,
            Delivery::Closed => r is Stop,
        },
{
    match d {
        Delivery::Frame(f) => OutboundAction::Write(f),
        Delivery::Lagged(n) => OutboundAction::Skip { missed: n },
        Delivery::Closed => OutboundAction::Stop,
    }
}

/// A frame read from the connection while streaming.
pub enum InboundFrame {
    /// A text frame.
    Text(String),
    /// A frame of another kind (binary, ping, pong).
    Other,
    /// A close frame, a read error, or the end of the stream.
    End,
}

/// What the inbound pump does next.
pub enum InboundAction {
    /// Publish this message to the room.
    Publish(ChatMessage),
    /// Read on.
    Ignore,
    /// End the pump.
    Stop,
}

/// The inbound pump's decision for `user`'s connection: a text is published
/// as that user's chat line, other frames are passed over, and the end of
/// input ends the pump.
pub fn inbound_action(user: u128, f: InboundFrame) -> (r: InboundAction)
    ensures
        match f {
            InboundFrame::Text(body) => r matches InboundAction::Publish(m) && m
                == ChatMessage::Said { user, body } && frame_of(m) == said_text(user, body@),
            InboundFrame::Other => r is Ignore,
            InboundFrame::End => r is Stop,
        },
{
    match f {
        InboundFrame::Text(body) => InboundAction::Publish(ChatMessage::Said { user, body }),
        InboundFrame::Other => InboundAction::Ignore,
        InboundFrame::End => InboundAction::Stop,
    }
}

} // verus!
