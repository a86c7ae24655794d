//! The daemon's decisions: what each command from the front end asks it to
//! do, whether to dial a peer, how a failed dial is reported, which peers
//! and groups are shown as connected, and which group members to reach.
//! Dialing, the database and the group protocol are carried out around
//! these decisions.

use crate::comm::{IPCCmd, IPCRes};
use crate::numerals::{decimal, push_decimal};
use crate::primitives::string_of;
use crate::text::chars_of;
use crate::records::{DBGroup, Peer};
use std::collections::HashSet;
use vstd::prelude::*;

verus! {

broadcast use vstd::std_specs::hash::group_hash_axioms;

/// The id under which the local user is stored.
pub const SELF_ID: u16 = 1;

/// How often a peer is dialed before giving up.
pub const MAX_DIAL_ATTEMPTS: u8 = 5;

/// What a command from the front end asks the daemon to do.
#[derive(Debug, Clone, PartialEq, Eq)]
pub enum DaemonTask {
    /// Answer a tick.
    Tock,
    /// Report whether the server is ready.
    ReportServer,
    /// Store a new peer at this address, under a generated name.
    AddPeer(String),
    /// Connect to the peer with this id.
    Connect(u16),
    /// Store a text to oneself and echo it back.
    StoreOwnText(String),
    /// Store a text to a connected peer and send it.
    SendText(u16, String),
    /// Close the connection to this peer.
    Shutdown(u16),
    /// List the peers, marking the connected ones.
    ListPeers,
    /// Delete this peer.
    DeletePeer(u16),
    /// Delete this group.
    DeleteGroup(u16),
    /// Rename this peer.
    RenamePeer(u16, String),
    /// List this many chats with this peer.
    ListChats(u16, u8),
    /// Create a group with this name.
    CreateGroup(String),
    /// Invite this peer (second) into this group (first).
    AddToGroup(u16, u16),
    /// Remove this peer (second) from this group (first).
    RemoveFromGroup(u16, u16),
    /// Rename this group.
    RenameGroup(u16, String),
    /// Connect to the members of this group.
    ConnectGroup(u16),
    /// Connect to the group with this MLS group id.
    InitiateGroup(Vec<u8>),
    /// List the groups, marking the connected ones.
    ListGroups,
    /// List this many chats of this group.
    ListGroupChats(u16, u8),
    /// Send a text to this group.
    SendGroupText(u16, String),
    /// Make this peer (second) an admin of this group (first).
    Promote(u16, u16),
    /// Make this admin (second) a plain member of this group (first).
    Demote(u16, u16),
    /// Nothing to do.
    Nothing,
}

/// The commands the daemon does not handle; receiving one stops it.
pub open spec fn unhandled(cmd: IPCCmd) -> bool {
    cmd is PingChat
}

/// The task for command `cmd`; `name` is the generated name for a group
/// created without one. A text to oneself is stored and echoed; a
/// disconnect from oneself does nothing.
pub open spec fn task_for(cmd: IPCCmd, name: Seq<char>) -> DaemonTask {
    match cmd {
        IPCCmd::Tick => DaemonTask::Tock,
        IPCCmd::StartServer => DaemonTask::ReportServer,
        IPCCmd::AddPeer(addr, _) => DaemonTask::AddPeer(addr),
        IPCCmd::Connect(id) => DaemonTask::Connect(id),
        IPCCmd::Text(id, text) => if id == SELF_ID {
            DaemonTask::StoreOwnText(text)
        } else {
            DaemonTask::SendText(id, text)
        },
        IPCCmd::Disconnect(id) => if id == SELF_ID {
            DaemonTask::Nothing
        } else {
            DaemonTask::Shutdown(id)
        },
        IPCCmd::PeerList => DaemonTask::ListPeers,
        IPCCmd::DeletePeer(id) => DaemonTask::DeletePeer(id),
        IPCCmd::DeleteGroup(id) => DaemonTask::DeleteGroup(id),
        IPCCmd::RenamePeer(id, n) => DaemonTask::RenamePeer(id, n),
        IPCCmd::ChatList { peer_id, msg_amount } => DaemonTask::ListChats(peer_id, msg_amount),
        IPCCmd::NewGroup(_) => DaemonTask::Nothing,
        IPCCmd::AddToGroup(g, p) => DaemonTask::AddToGroup(g, p),
        IPCCmd::RemoveFromGroup(g, p) => DaemonTask::RemoveFromGroup(g, p),
        IPCCmd::RenameGroup(id, n) => DaemonTask::RenameGroup(id, n),
        IPCCmd::GroupConnect(id) => DaemonTask::ConnectGroup(id),
        IPCCmd::InitiateGroup(g) => DaemonTask::InitiateGroup(g),
        IPCCmd::GroupList => DaemonTask::ListGroups,
        IPCCmd::GroupChatList { group_idx, msg_amount } => DaemonTask::ListGroupChats(
            group_idx,
            msg_amount,
        ),
        IPCCmd::GroupText(id, text) => DaemonTask::SendGroupText(id, text),
        IPCCmd::Promote(g, p) => DaemonTask::Promote(g, p),
        IPCCmd::Demote(g, p) => DaemonTask::Demote(g, p),
        IPCCmd::PingChat => DaemonTask::Nothing,
    }
}

/// The task for command `cmd`. A group created without a name is named
/// `generated`.
pub fn handle_commands(cmd: IPCCmd, generated: String) -> (task: DaemonTask)
    requires
        !unhandled(cmd),
    ensures
        cmd is NewGroup ==> (task matches DaemonTask::CreateGroup(n) && n@ == match cmd->NewGroup_0 {
            Some(given) => given@,
            None => generated@,
        }),
        !(cmd is NewGroup) ==> task == task_for(cmd, generated@),
{
    match cmd {
        IPCCmd::Tick => DaemonTask::Tock,
        IPCCmd::StartServer => DaemonTask::ReportServer,
        IPCCmd::AddPeer(addr, _) => DaemonTask::AddPeer(addr),
        IPCCmd::Connect(id) => DaemonTask::Connect(id),
        IPCCmd::Text(id, text) => {
            if id == SELF_ID {
                DaemonTask::StoreOwnText(text)
            } else {
                DaemonTask::SendText(id, text)
            }
        },
        IPCCmd::Disconnect(id) => {
            if id == SELF_ID {
                DaemonTask::Nothing
            } else {
                DaemonTask::Shutdown(id)
            }
        },
        IPCCmd::PeerList => DaemonTask::ListPeers,
        IPCCmd::DeletePeer(id) => DaemonTask::DeletePeer(id),
        IPCCmd::DeleteGroup(id) => DaemonTask::DeleteGroup(id),
        IPCCmd::RenamePeer(id, n) => DaemonTask::RenamePeer(id, n),
        IPCCmd::ChatList { peer_id, msg_amount } => DaemonTask::ListChats(peer_id, msg_amount),
        IPCCmd::NewGroup(name) => {
            match name {
                Some(given) => DaemonTask::CreateGroup(given),
                None => DaemonTask::CreateGroup(generated),
            }
        },
        IPCCmd::AddToGroup(g, p) => DaemonTask::AddToGroup(g, p),
        IPCCmd::RemoveFromGroup(g, p) => DaemonTask::RemoveFromGroup(g, p),
        IPCCmd::RenameGroup(id, n) => DaemonTask::RenameGroup(id, n),
        IPCCmd::GroupConnect(id) => DaemonTask::ConnectGroup(id),
        IPCCmd::InitiateGroup(g) => DaemonTask::InitiateGroup(g),
        IPCCmd::GroupList => DaemonTask::ListGroups,
        IPCCmd::GroupChatList { group_idx, msg_amount } => DaemonTask::ListGroupChats(
            group_idx,
            msg_amount,
        ),
        IPCCmd::GroupText(id, text) => DaemonTask::SendGroupText(id, text),
        IPCCmd::Promote(g, p) => DaemonTask::Promote(g, p),
        IPCCmd::Demote(g, p) => DaemonTask::Demote(g, p),
        IPCCmd::PingChat => DaemonTask::Nothing,
    }
}

// ----------------------------------------------------------------------
// Connecting to a peer
// ----------------------------------------------------------------------

/// What a request to connect to a peer calls for.
#[derive(Debug, Clone, Copy, PartialEq, Eq, Structural)]
pub enum ConnectStep {
    /// A connection is live: report it.
    AlreadyConnected,
    /// The peer is being dialed: report that it is not connected yet.
    StillDialing,
    /// Dial the peer.
    Dial,
}

/// Decides a request to connect to peer `peer_id`, which has a live
/// connection when `live`. `waitlist` holds the peers being dialed; a peer
/// found live leaves it.
pub fn connect_step(waitlist: &mut HashSet<u16>, peer_id: u16, live: bool) -> (step: ConnectStep)
    ensures
        live ==> step == ConnectStep::AlreadyConnected,
        live ==> final(waitlist)@ == old(waitlist)@.remove(peer_id),
        !live && old(waitlist)@.contains(peer_id) ==> step == ConnectStep::StillDialing,
        !live && !old(waitlist)@.contains(peer_id) ==> step == ConnectStep::Dial,
        !live ==> final(waitlist)@ == old(waitlist)@,
{
    if live {
        waitlist.remove(&peer_id);
        ConnectStep::AlreadyConnected
    } else if waitlist.contains(&peer_id) {
        ConnectStep::StillDialing
    } else {
        ConnectStep::Dial
    }
}

/// Records that peer `peer_id` is being dialed; the reply reports it as
/// not connected yet.
pub fn dial_started(waitlist: &mut HashSet<u16>, peer_id: u16) -> (reply: IPCRes)
    ensures
        final(waitlist)@ == old(waitlist)@.insert(peer_id),
        reply == IPCRes::Connected(peer_id, false),
{
    waitlist.insert(peer_id);
    IPCRes::Connected(peer_id, false)
}

impl ConnectStep {
    /// The reply to the front end for a step that does not dial.
    pub fn reply(&self, peer_id: u16) -> (r: IPCRes)
        ensures
            r == IPCRes::Connected(peer_id, *self == ConnectStep::AlreadyConnected),
    {
        IPCRes::Connected(peer_id, *self == ConnectStep::AlreadyConnected)
    }
}

/// Whether dialing the address should go ahead: not when it is the
/// daemon's own address (`own`), and not when it is the address of a known
/// peer (`known`) that has a live connection (`live`). The replies tell the
/// front end why not.
pub fn check_dial(addr: &str, own: Option<&str>, known: Option<&Peer>, live: bool) -> (r: (
    bool,
    Vec<IPCRes>,
))
    ensures
        (own matches Some(o) && o@ == addr@) ==> !r.0 && r.1@.len() == 1 && (
        r.1@[0] matches IPCRes::Error(t) && t@ == "Cannot connect to Self."@),
        !(own matches Some(o) && o@ == addr@) && known is Some && live ==> !r.0 && r.1@.len() == 2
            && r.1@[0] == IPCRes::Connected(known->0.id, true) && (
        r.1@[1] matches IPCRes::Notification(t) && t@ == "Already connected to "@ + known->0.name@),
        !(own matches Some(o) && o@ == addr@) && !(known is Some && live) ==> r.0 && r.1@.len()
            == 0,
{
    let mut replies: Vec<IPCRes> = Vec::new();
    if let Some(o) = own {
        if o.to_owned() == addr.to_owned() {
            replies.push(IPCRes::Error("Cannot connect to Self.".to_owned()));
            return (false, replies);
        }
    }
    if let Some(p) = known {
        if live {
            replies.push(IPCRes::Connected(p.id, true));
            let mut note = "Already connected to ".to_owned();
            note.append(p.name.as_str());
            replies.push(IPCRes::Notification(note));
            return (false, replies);
        }
    }
    (true, replies)
}

/// The replies a task sends to the front end once its work is done, for the
/// tasks whose replies are fixed by the task alone; `ready` is whether the
/// server has started. A tick is answered with `Tock`, a readiness request
/// with `ServerStarted(ready)`, a text to oneself is echoed back, and a
/// deletion or renaming is confirmed with the id. The other tasks answer
/// with what their work produces (a list, the dial replies), or not at all.
pub open spec fn fixed_replies(task: DaemonTask, ready: bool) -> Seq<IPCRes> {
    match task {
        DaemonTask::Tock => seq![IPCRes::Tock],
        DaemonTask::ReportServer => seq![IPCRes::ServerStarted(ready)],
        DaemonTask::StoreOwnText(text) => seq![IPCRes::Text(SELF_ID, text)],
        DaemonTask::DeletePeer(id) => seq![IPCRes::DeletedPeer(id)],
        DaemonTask::DeleteGroup(id) => seq![IPCRes::DeletedGroup(id)],
        DaemonTask::RenamePeer(id, _) => seq![IPCRes::RenamedPeer(id)],
        DaemonTask::RenameGroup(id, _) => seq![IPCRes::RenamedGroup(id)],
        _ => Seq::empty(),
    }
}

/// The replies fixed by `task` (see `fixed_replies`).
pub fn task_replies(task: &DaemonTask, ready: bool) -> (replies: Vec<IPCRes>)
    ensures
        replies@ == fixed_replies(*task, ready),
{
    let mut replies: Vec<IPCRes> = Vec::new();
    match task {
        DaemonTask::Tock => replies.push(IPCRes::Tock),
        DaemonTask::ReportServer => replies.push(IPCRes::ServerStarted(ready)),
        DaemonTask::StoreOwnText(text) => replies.push(IPCRes::Text(SELF_ID, text.clone())),
        DaemonTask::DeletePeer(id) => replies.push(IPCRes::DeletedPeer(*id)),
        DaemonTask::DeleteGroup(id) => replies.push(IPCRes::DeletedGroup(*id)),
        DaemonTask::RenamePeer(id, _) => replies.push(IPCRes::RenamedPeer(*id)),
        DaemonTask::RenameGroup(id, _) => replies.push(IPCRes::RenamedGroup(*id)),
        _ => {},
    }
    assert(replies@ =~= fixed_replies(*task, ready));
    replies
}

/// Whether to dial again after failed dial number `attempt` (from 1):
/// exactly while fewer than five dials have been made.
pub fn dial_again(attempt: u8) -> (again: bool)
    requires
        1 <= attempt <= MAX_DIAL_ATTEMPTS,
    ensures
        again == (attempt < MAX_DIAL_ATTEMPTS),
{
    attempt < MAX_DIAL_ATTEMPTS
}

/// What the front end is told after failed dial number `attempt` (from 1)
/// of five: a retry notice, or after the last one an error.
pub fn attempt_failed(attempt: u8) -> (r: IPCRes)
    requires
        1 <= attempt <= MAX_DIAL_ATTEMPTS,
    ensures
        attempt == MAX_DIAL_ATTEMPTS ==> (r matches IPCRes::Error(t) && t@
            == "Failed to Connect.\nPlease check your Internet connection"@),
        attempt < MAX_DIAL_ATTEMPTS ==> (r matches IPCRes::Notification(t) && t@
            == "Retrying Connection. ["@ + decimal(attempt as nat) + "/5]"@),
{
    if attempt == MAX_DIAL_ATTEMPTS {
        IPCRes::Error("Failed to Connect.\nPlease check your Internet connection".to_owned())
    } else {
        let mut note = chars_of("Retrying Connection. [");
        push_decimal(&mut note, attempt as usize);
        let mut tail = chars_of("/5]");
        note.append(&mut tail);
        IPCRes::Notification(string_of(note.as_slice()))
    }
}

// ----------------------------------------------------------------------
// Lists shown to the front end
// ----------------------------------------------------------------------

/// `p` with its connection state set to `connected`.
pub open spec fn with_connection(p: Peer, connected: bool) -> Peer {
    Peer { connected, ..p }
}

/// Marks each peer connected exactly when its id has a live connection.
pub fn mark_live_peers(peers: &mut Vec<Peer>, live: &HashSet<u16>)
    ensures
        final(peers)@.len() == old(peers)@.len(),
        forall|i: int|
            0 <= i < old(peers)@.len() ==> #[trigger] final(peers)@[i] == with_connection(
                old(peers)@[i],
                live@.contains(old(peers)@[i].id),
            ),
{
    let n = peers.len();
    let mut i: usize = 0;
    while i < n
        invariant
            n == peers.len(),
            n == old(peers)@.len(),
            i <= n,
            forall|k: int|
                0 <= k < i ==> #[trigger] peers@[k] == with_connection(
                    old(peers)@[k],
                    live@.contains(old(peers)@[k].id),
                ),
            forall|k: int| i <= k < n ==> #[trigger] peers@[k] == old(peers)@[k],
        decreases n - i,
    {
        let mut p = peers.remove(i);
        p.connected = live.contains(&p.id);
        peers.insert(i, p);
        i = i + 1;
    }
}

/// `g` marked connected, when `live`.
pub open spec fn with_group_connection(g: DBGroup, live: bool) -> DBGroup {
    DBGroup { connected: g.connected || live, ..g }
}

/// Marks each group whose id has a loaded group as connected; the others
/// keep their state.
pub fn mark_live_groups(groups: &mut Vec<DBGroup>, live: &HashSet<u16>)
    ensures
        final(groups)@.len() == old(groups)@.len(),
        forall|i: int|
            0 <= i < old(groups)@.len() ==> #[trigger] final(groups)@[i] == with_group_connection(
                old(groups)@[i],
                live@.contains(old(groups)@[i].id),
            ),
{
    let n = groups.len();
    let mut i: usize = 0;
    while i < n
        invariant
            n == groups.len(),
            n == old(groups)@.len(),
            i <= n,
            forall|k: int|
                0 <= k < i ==> #[trigger] groups@[k] == with_group_connection(
                    old(groups)@[k],
                    live@.contains(old(groups)@[k].id),
                ),
            forall|k: int| i <= k < n ==> #[trigger] groups@[k] == old(groups)@[k],
        decreases n - i,
    {
        let mut g = groups.remove(i);
        if live.contains(&g.id) {
            g.connected = true;
        }
        groups.insert(i, g);
        i = i + 1;
    }
}

// ----------------------------------------------------------------------
// Group members
// ----------------------------------------------------------------------

/// The members to dial when connecting to a group: those without a live
/// connection, other than the local user, in order.
pub open spec fn to_dial(members: Seq<Peer>, live: Set<u16>) -> Seq<Peer> {
    members.filter(|p: Peer| !live.contains(p.id) && p.id != SELF_ID)
}

/// The members of a group to dial: those without a live connection, other
/// than the local user, in order.
pub fn members_to_dial(members: Vec<Peer>, live: &HashSet<u16>) -> (r: Vec<Peer>)
    ensures
        r@ == to_dial(members@, live@),
{
    let mut r: Vec<Peer> = Vec::new();
    let mut rest = members;
    let ghost all = rest@;
    assert(all.len() == rest.len());
    let mut taken: usize = 0;
    while rest.len() > 0
        invariant
            taken + rest@.len() == all.len(),
            all.len() <= usize::MAX,
            rest@ == all.skip(taken as int),
            r@ == to_dial(all.take(taken as int), live@),
        decreases rest@.len(),
    {
        let p = rest.remove(0);
        proof {
            assert(all.take(taken + 1) =~= all.take(taken as int).push(p));
            reveal_with_fuel(Seq::filter, 2);
            assert(all.take(taken + 1).drop_last() =~= all.take(taken as int));
        }
        if !live.contains(&p.id) && p.id != SELF_ID {
            r.push(p);
        }
        taken = taken + 1;
        assert(rest@ =~= all.skip(taken as int));
    }
    assert(all.take(taken as int) =~= all);
    r
}

/// The members that a group message goes out to: of the members' ids (none
/// for a member unknown to the database), those with a live connection.
pub open spec fn fanout_targets(members: Seq<Option<u16>>, live: Set<u16>) -> Seq<Option<u16>> {
    members.filter(|m: Option<u16>| m matches Some(id) && live.contains(id))
}

/// The ids that a group message goes out to: the members known to the
/// database with a live connection, in order.
pub fn fanout(members: &Vec<Option<u16>>, live: &HashSet<u16>) -> (r: Vec<u16>)
    ensures
        r@.map_values(|id: u16| Some(id)) == fanout_targets(members@, live@),
{
    let mut r: Vec<u16> = Vec::new();
    let n = members.len();
    let mut i: usize = 0;
    while i < n
        invariant
            n == members.len(),
            i <= n,
            r@.map_values(|id: u16| Some(id)) == fanout_targets(members@.take(i as int), live@),
        decreases n - i,
    {
        let m = members[i];
        proof {
            assert(members@.take(i + 1) =~= members@.take(i as int).push(m));
            reveal_with_fuel(Seq::filter, 2);
            assert(members@.take(i + 1).drop_last() =~= members@.take(i as int));
        }
        let ghost before = r@;
        if let Some(id) = m {
            if live.contains(&id) {
                r.push(id);
                assert(r@.map_values(|id: u16| Some(id)) =~= before.map_values(
                    |id: u16| Some(id),
                ).push(Some(id)));
            }
        }
        i = i + 1;
    }
    assert(members@.take(n as int) =~= members@);
    r
}

/// Commands that name a group and a peer keep them in their places: the
/// task adds, removes, promotes or demotes peer `p` in group `g`, exactly
/// as the front end asked, whatever name stands ready for a new group.
pub proof fn law_group_commands_keep_their_ids(g: u16, p: u16, name: Seq<char>)
    ensures
        task_for(IPCCmd::AddToGroup(g, p), name) == DaemonTask::AddToGroup(g, p),
        task_for(IPCCmd::RemoveFromGroup(g, p), name) == DaemonTask::RemoveFromGroup(g, p),
        task_for(IPCCmd::Promote(g, p), name) == DaemonTask::Promote(g, p),
        task_for(IPCCmd::Demote(g, p), name) == DaemonTask::Demote(g, p),
        task_for(IPCCmd::GroupConnect(g), name) == DaemonTask::ConnectGroup(g),
        task_for(IPCCmd::Connect(p), name) == DaemonTask::Connect(p),
        task_for(IPCCmd::DeletePeer(p), name) == DaemonTask::DeletePeer(p),
        task_for(IPCCmd::DeleteGroup(g), name) == DaemonTask::DeleteGroup(g),
{
}

/// Commands that carry a text or a name pass it on unchanged with their
/// id: a text to a peer is sent to that peer, a text to oneself is stored
/// and echoed, a rename renames the named peer or group, a chat list asks
/// for that many chats of that peer or group. A disconnect closes the
/// peer's connection, except from oneself, where it does nothing.
pub proof fn law_commands_pass_their_contents_on(
    id: u16,
    text: String,
    count: u8,
    addr: String,
    port: u16,
    name: Seq<char>,
)
    ensures
        id != SELF_ID ==> task_for(IPCCmd::Text(id, text), name) == DaemonTask::SendText(id, text),
        task_for(IPCCmd::Text(SELF_ID, text), name) == DaemonTask::StoreOwnText(text),
        id != SELF_ID ==> task_for(IPCCmd::Disconnect(id), name) == DaemonTask::Shutdown(id),
        task_for(IPCCmd::Disconnect(SELF_ID), name) == DaemonTask::Nothing,
        task_for(IPCCmd::RenamePeer(id, text), name) == DaemonTask::RenamePeer(id, text),
        task_for(IPCCmd::RenameGroup(id, text), name) == DaemonTask::RenameGroup(id, text),
        task_for(IPCCmd::GroupText(id, text), name) == DaemonTask::SendGroupText(id, text),
        task_for(IPCCmd::ChatList { peer_id: id, msg_amount: count }, name)
            == DaemonTask::ListChats(id, count),
        task_for(IPCCmd::GroupChatList { group_idx: id, msg_amount: count }, name)
            == DaemonTask::ListGroupChats(id, count),
        task_for(IPCCmd::AddPeer(addr, port), name) == DaemonTask::AddPeer(addr),
        task_for(IPCCmd::Tick, name) == DaemonTask::Tock,
        task_for(IPCCmd::StartServer, name) == DaemonTask::ReportServer,
        task_for(IPCCmd::PeerList, name) == DaemonTask::ListPeers,
        task_for(IPCCmd::GroupList, name) == DaemonTask::ListGroups,
{
}

} // verus!
