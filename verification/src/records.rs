//! The records kept in the local database.

use crate::primitives::utc_now_text;
use vstd::prelude::*;

verus! {

/// A known peer.
#[derive(Debug, Clone, PartialEq, Eq)]
pub struct Peer {
    pub id: u16,
    pub name: String,
    pub address: String,
    pub is_friend: bool,
    pub connected: bool,
}

impl Peer {
    /// A new peer record; the database assigns the id.
    pub fn build(name: &str, address: &str, is_friend: bool) -> (p: Self)
        ensures
            p.id == 0,
            p.name@ == name@,
            p.address@ == address@,
            p.is_friend == is_friend,
            !p.connected,
    {
        Self { id: 0, name: name.to_owned(), address: address.to_owned(), is_friend, connected: false }
    }
}

/// A chat message with a peer.
#[derive(Debug, Clone, PartialEq, Eq)]
pub struct Chat {
    pub id: u16,
    pub sender_id: u16,
    pub receiver_id: u16,
    pub data: String,
    pub time: String,
}

/// The id under which the local user is stored.
pub open spec fn self_id() -> u16 {
    1
}

impl Chat {
    /// A chat record stamped with `time`; the database assigns the id.
    pub fn build_at(text: &str, sender: u16, receiver: u16, time: String) -> (c: Self)
        ensures
            c.id == 0,
            c.sender_id == sender,
            c.receiver_id == receiver,
            c.data@ == text@,
            c.time == time,
    {
        Self { id: 0, sender_id: sender, receiver_id: receiver, data: text.to_owned(), time }
    }

    /// A chat record stamped with the current time.
    pub fn build(text: &str, sender: u16, receiver: u16) -> (c: Self)
        ensures
            c.id == 0,
            c.sender_id == sender,
            c.receiver_id == receiver,
            c.data@ == text@,
    {
        Self::build_at(text, sender, receiver, utc_now_text())
    }

    /// A chat the local user sends to peer `rec`.
    pub fn chat_to_send(text: &str, rec: u16) -> (c: Self)
        ensures
            c.id == 0,
            c.sender_id == self_id(),
            c.receiver_id == rec,
            c.data@ == text@,
    {
        Self::build(text, 1, rec)
    }

    /// A chat the local user received from peer `sen`.
    pub fn chat_to_rec(text: &str, sen: u16) -> (c: Self)
        ensures
            c.id == 0,
            c.sender_id == sen,
            c.receiver_id == self_id(),
            c.data@ == text@,
    {
        Self::build(text, sen, 1)
    }
}

/// A chat message as the terminal front end shows it.
#[derive(Debug, Clone, PartialEq, Eq)]
pub struct TuiChat {
    pub id: u16,
    pub sender_name: String,
    pub data: String,
    pub time: String,
}

/// A displayed chat with its texts taken as character sequences.
#[verifier::ext_equal]
pub struct ChatLine {
    pub id: u16,
    pub sender_name: Seq<char>,
    pub data: Seq<char>,
    pub time: Seq<char>,
}

impl View for TuiChat {
    type V = ChatLine;

    open spec fn view(&self) -> ChatLine {
        ChatLine { id: self.id, sender_name: self.sender_name@, data: self.data@, time: self.time@ }
    }
}

impl TuiChat {
    /// A displayed chat stamped with `time`.
    pub fn build_at(text: &str, name: &str, time: String) -> (c: Self)
        ensures
            c.id == 0,
            c.sender_name@ == name@,
            c.data@ == text@,
            c.time == time,
    {
        Self { id: 0, sender_name: name.to_owned(), data: text.to_owned(), time }
    }

    /// A displayed chat stamped with the current time.
    pub fn build(text: &str, name: &str) -> (c: Self)
        ensures
            c.id == 0,
            c.sender_name@ == name@,
            c.data@ == text@,
    {
        Self::build_at(text, name, utc_now_text())
    }
}

/// A group as the local database stores it.
#[derive(Debug, Clone, PartialEq, Eq)]
pub struct DBGroup {
    pub id: u16,
    /// The group id that MLS uses; not the relational id.
    pub group_id: Vec<u8>,
    pub name: String,
    pub connected: bool,
}

impl DBGroup {
    /// A new group record; the database assigns the id.
    pub fn new(group_id: Vec<u8>, name: String) -> (g: Self)
        ensures
            g.id == 0,
            g.group_id == group_id,
            g.name == name,
            !g.connected,
    {
        Self { id: 0, group_id, name, connected: false }
    }
}

/// A chat message of a group.
#[derive(Debug, Clone, PartialEq, Eq)]
pub struct GroupChat {
    pub id: u8,
    pub group_id: u8,
    pub sender_id: u8,
    pub data: String,
    pub time: String,
}

/// Membership of a peer in a group.
pub struct GroupToPeer {
    pub id: u8,
    pub peer_id: u8,
    pub group_id: u8,
}

} // verus!
