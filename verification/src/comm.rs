//! Messages exchanged between peers, and between the terminal front end and
//! the daemon.

use crate::records::{DBGroup, Peer, TuiChat};
use vstd::prelude::*;

verus! {

/// A message between two peers.
#[derive(Debug, Clone, PartialEq, Eq)]
pub enum Msg {
    /// A text from the peer.
    Text(String),
    /// A public key identifying the peer.
    PublicKey([u8; 32]),
    /// A signature followed by the two keys it covers, for verification.
    SignedAndPublicKey(Vec<u8>, [u8; 32], [u8; 32]),
    /// The peer was verified.
    Verified,
    /// Asks the peer to join a group.
    JoinGroup,
    /// An MLS welcome for the peer, in its wire encoding.
    Welcome(Vec<u8>),
    /// Group verification completed.
    GroupSuccess,
    /// A serialized MLS key package, for joining a group.
    KeyPackage(Vec<u8>),
    /// A group error, with its message.
    GroupError(String),
    /// The group was joined; carries the serialized group id.
    GroupVerified(Vec<u8>),
    /// A message or commit for a group: serialized group id, then payload.
    GroupAction(Vec<u8>, Vec<u8>),
    /// Asks the peer to connect to a group; carries the serialized group id.
    InitiateGroup(Vec<u8>),
}

impl Msg {
    /// A text message.
    pub fn text(value: &str) -> (m: Msg)
        ensures
            m matches Msg::Text(t) && t@ == value@,
    {
        Msg::Text(value.to_owned())
    }
}

/// A command for a peer's connection task.
#[derive(Debug, Clone, PartialEq)]
pub enum SlaveCmd {
    Msg(Msg),
    Shutdown,
}

/// A command from the terminal front end to the daemon.
#[derive(Debug, Clone, PartialEq, Eq)]
pub enum IPCCmd {
    /// Start the server.
    StartServer,
    /// List all chats with peers.
    PingChat,
    /// A basic tick.
    Tick,
    /// Add a peer (address, port).
    AddPeer(String, u16),
    /// Connect to a peer (peer id).
    Connect(u16),
    /// Disconnect from a peer (peer index).
    Disconnect(u16),
    /// Send a text to a peer (peer index, text).
    Text(u16, String),
    /// List all peers.
    PeerList,
    /// The latest chats with a contact.
    ChatList { peer_id: u16, msg_amount: u8 },
    /// The latest chats of a group.
    GroupChatList { group_idx: u16, msg_amount: u8 },
    /// Rename a peer.
    RenamePeer(u16, String),
    /// Send a text to a group (group index, text).
    GroupText(u16, String),
    /// Delete the peer with this database index.
    DeletePeer(u16),
    /// Delete the group with this database index.
    DeleteGroup(u16),
    /// Create a group with the name given, or a generated one.
    NewGroup(Option<String>),
    /// Add a member to a group (group index, peer index).
    AddToGroup(u16, u16),
    /// Remove a member from a group (group index, peer index).
    RemoveFromGroup(u16, u16),
    /// Rename a group.
    RenameGroup(u16, String),
    /// List the groups.
    GroupList,
    /// Connect to the group with this database index.
    GroupConnect(u16),
    /// Ask the other peers to join a group as well.
    InitiateGroup(Vec<u8>),
    /// Promote a member to admin (group index, peer index).
    Promote(u16, u16),
    /// Demote an admin to member (group index, peer index).
    Demote(u16, u16),
}

/// A command from the front end, with its texts taken as character
/// sequences.
#[verifier::ext_equal]
pub enum CmdView {
    StartServer,
    PingChat,
    Tick,
    AddPeer(Seq<char>, u16),
    Connect(u16),
    Disconnect(u16),
    Text(u16, Seq<char>),
    PeerList,
    ChatList { peer_id: u16, msg_amount: u8 },
    GroupChatList { group_idx: u16, msg_amount: u8 },
    RenamePeer(u16, Seq<char>),
    GroupText(u16, Seq<char>),
    DeletePeer(u16),
    DeleteGroup(u16),
    NewGroup(Option<Seq<char>>),
    AddToGroup(u16, u16),
    RemoveFromGroup(u16, u16),
    RenameGroup(u16, Seq<char>),
    GroupList,
    GroupConnect(u16),
    InitiateGroup(Seq<u8>),
    Promote(u16, u16),
    Demote(u16, u16),
}

impl View for IPCCmd {
    type V = CmdView;

    open spec fn view(&self) -> CmdView {
        match self {
            IPCCmd::StartServer => CmdView::StartServer,
            IPCCmd::PingChat => CmdView::PingChat,
            IPCCmd::Tick => CmdView::Tick,
            IPCCmd::AddPeer(a, p) => CmdView::AddPeer(a@, *p),
            IPCCmd::Connect(i) => CmdView::Connect(*i),
            IPCCmd::Disconnect(i) => CmdView::Disconnect(*i),
            IPCCmd::Text(i, t) => CmdView::Text(*i, t@),
            IPCCmd::PeerList => CmdView::PeerList,
            IPCCmd::ChatList { peer_id, msg_amount } => CmdView::ChatList {
                peer_id: *peer_id,
                msg_amount: *msg_amount,
            },
            IPCCmd::GroupChatList { group_idx, msg_amount } => CmdView::GroupChatList {
                group_idx: *group_idx,
                msg_amount: *msg_amount,
            },
            IPCCmd::RenamePeer(i, n) => CmdView::RenamePeer(*i, n@),
            IPCCmd::GroupText(i, t) => CmdView::GroupText(*i, t@),
            IPCCmd::DeletePeer(i) => CmdView::DeletePeer(*i),
            IPCCmd::DeleteGroup(i) => CmdView::DeleteGroup(*i),
            IPCCmd::NewGroup(n) => CmdView::NewGroup(
                match n {
                    Some(t) => Some(t@),
                    None => None,
                },
            ),
            IPCCmd::AddToGroup(g, p) => CmdView::AddToGroup(*g, *p),
            IPCCmd::RemoveFromGroup(g, p) => CmdView::RemoveFromGroup(*g, *p),
            IPCCmd::RenameGroup(i, n) => CmdView::RenameGroup(*i, n@),
            IPCCmd::GroupList => CmdView::GroupList,
            IPCCmd::GroupConnect(i) => CmdView::GroupConnect(*i),
            IPCCmd::InitiateGroup(g) => CmdView::InitiateGroup(g@),
            IPCCmd::Promote(g, p) => CmdView::Promote(*g, *p),
            IPCCmd::Demote(g, p) => CmdView::Demote(*g, *p),
        }
    }
}

/// A response from the daemon to the terminal front end.
#[derive(Debug, Clone, PartialEq, Eq)]
pub enum IPCRes {
    /// Whether the server started.
    ServerStarted(bool),
    /// A peer was added.
    AddedPeer(Peer),
    /// A connection attempt's result (peer id, connected).
    Connected(u16, bool),
    /// A text from a peer (peer index, message).
    Text(u16, String),
    /// A notification.
    Notification(String),
    /// An error.
    Error(String),
    /// The list of peers.
    PeerList(Vec<Peer>),
    /// The chats with a peer.
    ChatList { peer_id: u16, chats: Vec<TuiChat> },
    /// The answer to a tick.
    Tock,
    /// A peer was deleted.
    DeletedPeer(u16),
    /// A group was deleted.
    DeletedGroup(u16),
    /// A peer was renamed.
    RenamedPeer(u16),
    /// The list of groups.
    GroupList(Vec<DBGroup>),
    /// The chats of a group.
    GroupChatList { group_idx: u16, chats: Vec<TuiChat> },
    /// A group was renamed.
    RenamedGroup(u16),
    /// A group was connected (message, group id).
    GroupConnected(String, u16),
}

/// What travels inside the daemon between its tasks.
#[non_exhaustive]
#[derive(Debug, Clone)]
pub enum Internal {
    HsId,
    Msg(Msg),
    IPCRes(IPCRes),
    IPCCmd(IPCCmd),
    RemovePeer(u16),
    ChatSent(u16, String),
}

/// A desktop notification: a text from a peer (name, message) or a system
/// message.
#[derive(Clone)]
pub enum ConanNotif {
    Text(String, String),
    Sys(String),
}

/// Errors of the daemon.
#[derive(Debug)]
pub enum ConanError {
    ConnectionError,
    NotFound,
    ParseError,
    Database,
    Other(String),
}

/// The outcome of verifying a peer.
#[derive(Debug, Clone, Copy, PartialEq, Eq, Structural)]
pub enum PeerVerified {
    Verified,
    Invalid,
}

/// Whether a peer is connected.
#[derive(Debug, Clone, Copy, PartialEq, Eq, Structural)]
pub enum PeerStatus {
    Connected,
    NotFound,
}

impl Default for PeerStatus {
    /// A peer is not found until it connects.
    fn default() -> (s: Self)
        ensures
            s == PeerStatus::NotFound,
    {
        PeerStatus::NotFound
    }
}

/// Errors of group operations.
#[non_exhaustive]
#[derive(Debug, Clone, PartialEq, Eq)]
pub enum ConanGroupError {
    AdminsNotFound,
    NotAdmin,
    NotFound,
    Extraction,
    Other(String),
}

impl ConanGroupError {
    /// The message shown for the error.
    pub fn message(&self) -> (s: String)
        ensures
            s@ == match self {
                ConanGroupError::AdminsNotFound => "Admin Data not found"@,
                ConanGroupError::NotAdmin => "Not Admin"@,
                ConanGroupError::NotFound => "Group not found"@,
                ConanGroupError::Extraction => "Could not extract group info."@,
                ConanGroupError::Other(m) => m@,
            },
    {
        match self {
            ConanGroupError::AdminsNotFound => "Admin Data not found".to_owned(),
            ConanGroupError::NotAdmin => "Not Admin".to_owned(),
            ConanGroupError::NotFound => "Group not found".to_owned(),
            ConanGroupError::Extraction => "Could not extract group info.".to_owned(),
            ConanGroupError::Other(m) => m.clone(),
        }
    }
}

/// A Tor relay as the relay directory lists it: nickname, fingerprint,
/// addresses and whether it is running.
#[derive(Debug, Clone, PartialEq, Eq)]
pub struct RelayDetail {
    pub n: String,
    pub f: String,
    pub a: Vec<String>,
    pub r: bool,
}

/// The relay directory's answer.
#[derive(Debug, Clone, PartialEq, Eq)]
pub struct TorResponse {
    pub version: String,
    pub build_revision: String,
    pub relays_published: String,
    pub relays: Vec<RelayDetail>,
    pub bridges_published: String,
    pub bridges: Vec<String>,
}

} // verus!
