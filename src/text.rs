//! The texts a session sends: identifiers in their hyphenated form, the
//! welcome frame, the "joined" notice and the chat lines of members.

use vstd::prelude::*;
use vstd::arithmetic::power2::pow2;
use vstd::string::StringExecFns;

verus! {

/// Lower-case hexadecimal digit of value `d` (0 to 15).
pub open spec fn hex_digit(d: int) -> char {
    seq!['0', '1', '2', '3', '4', '5', '6', '7', '8', '9', 'a', 'b', 'c', 'd', 'e', 'f'][d]
}

/// The `i`-th four-bit group of `v`, counting from the most significant one.
pub open spec fn nibble(v: u128, i: int) -> int {
    (v as int / pow2((4 * (31 - i)) as nat) as int) % 16
}

/// The 32 hexadecimal digits of `v`, most significant first.
pub open spec fn hex_digits(v: u128) -> Seq<char> {
    Seq::new(32, |i: int| hex_digit(nibble(v, i)))
}

/// The hyphenated text of a 128-bit identifier: digit groups of 8, 4, 4, 4
/// and 12, joined by `-`.
pub open spec fn uuid_text(v: u128) -> Seq<char> {
    let h = hex_digits(v);
    h.subrange(0, 8) + seq!['-'] + h.subrange(8, 12) + seq!['-'] + h.subrange(12, 16)
        + seq!['-'] + h.subrange(16, 20) + seq!['-'] + h.subrange(20, 32)
}

/// The frame that greets a user once the handshake has placed it in a room.
pub open spec fn welcome_text(user: u128, room: u128) -> Seq<char> {
    "Welcome "@ + uuid_text(user) + "! Your chatroom_uuid is "@ + uuid_text(room) + "."@
}

/// The notice published to a room when a user joins it.
pub open spec fn joined_text(user: u128) -> Seq<char> {
    uuid_text(user) + " joined."@
}

/// A chat line as the other members of the room see it.
pub open spec fn said_text(user: u128, body: Seq<char>) -> Seq<char> {
    uuid_text(user) + ": "@ + body
}

/// Relies on uuid's `Display` for `Uuid` built by `Uuid::from_u128`: the
/// sixteen big-endian bytes of the value as lower-case hexadecimal digits,
/// high digit first, with a hyphen after the 8th, 12th, 16th and 20th digit.
#[verifier::external_body]
fn uuid_string(id: u128) -> (r: String)
    ensures
        r@ == uuid_text(id),
{
    uuid::Uuid::from_u128(id).to_string()
}

/// The hyphenated text of an identifier.
pub fn id_text(id: u128) -> (r: String)
    ensures
        r@ == uuid_text(id),
{
    uuid_string(id)
}

/// The welcome frame for `user` in `room`.
pub fn welcome(user: u128, room: u128) -> (r: String)
    ensures
        r@ == welcome_text(user, room),
{
    let mut s = String::from_str("Welcome ");
    let u = uuid_string(user);
    s.append(u.as_str());
    s.append("! Your chatroom_uuid is ");
    let rm = uuid_string(room);
    s.append(rm.as_str());
    s.append(".");
    s
}

/// What travels through a room's broadcast channel.
pub enum ChatMessage {
    /// A user has joined the room.
    Joined { user: u128 },
    /// A member sent a line of text.
    Said { user: u128, body: String },
}

/// The frame text that a message becomes.
pub open spec fn frame_of(m: ChatMessage) -> Seq<char> {
    match m {
        ChatMessage::Joined { user } => joined_text(user),
        ChatMessage::Said { user, body } => said_text(user, body@),
    }
}

impl ChatMessage {
    /// The frame text of this message: the joined notice verbatim, a chat
    /// line prefixed with its sender.
    pub fn frame(&self) -> (r: String)
        ensures
            r@ == frame_of(*self),
    {
        match self {
            ChatMessage::Joined { user } => {
                let mut s = uuid_string(*user);
                s.append(" joined.");
                s
            },
            ChatMessage::Said { user, body } => {
                let mut s = uuid_string(*user);
                s.append(": ");
                s.append(body.as_str());
                s
            },
        }
    }
}

} // verus!
