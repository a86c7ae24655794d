//! What a response from the daemon does to the front end's state.

use crate::comm::{CmdView, IPCCmd, IPCRes};
use crate::records::{ChatLine, TuiChat};
use crate::tui::app::{App, AppView};
use crate::tui::keys::{notify, show};
use crate::tui::screens::{InputMode, LoadingMode, Screen, ScreenView, ConfirmMode};
use vstd::prelude::*;

verus! {

/// A command for the daemon, to send at once or after a short pause.
#[derive(Debug, Clone, PartialEq, Eq)]
pub enum Outgoing {
    Now(IPCCmd),
    AfterPause(IPCCmd),
}

/// An outgoing command taken by its view: whether it waits, and the command.
pub open spec fn outgoing_view(o: Option<Outgoing>) -> Option<(bool, CmdView)> {
    match o {
        Some(Outgoing::Now(c)) => Some((false, c@)),
        Some(Outgoing::AfterPause(c)) => Some((true, c@)),
        None => None,
    }
}

/// The name under which a peer's messages are shown as they arrive.
pub open spec fn their_name() -> Seq<char> {
    "They"@
}

/// `s` with the loading screen closed, if one waiting for `m` is drawn.
pub open spec fn close_loading_if(s: AppView, m: spec_fn(LoadingMode) -> bool) -> AppView {
    match s.screen {
        ScreenView::LoadingScreen { mode, .. } => if m(mode) {
            show(s, ScreenView::Blank)
        } else {
            s
        },
        _ => s,
    }
}

/// The state, and the command to send, after response `r` arrived at time
/// `now`. A failed server start or connection is retried after a pause; an
/// added peer is connected to; lists replace the contacts, the groups or
/// the chats shown; texts and chat lists count only for the selection.
pub open spec fn ipc_step(s: AppView, r: IPCRes, now: Seq<char>) -> (
    AppView,
    Option<(bool, CmdView)>,
) {
    match r {
        IPCRes::ServerStarted(true) => (
            close_loading_if(
                notify(s, "Server Started."@),
                |m: LoadingMode| m == LoadingMode::StartServer,
            ),
            None,
        ),
        IPCRes::ServerStarted(false) => (s, Some((true, CmdView::StartServer))),
        IPCRes::AddedPeer(peer) => (
            AppView {
                notification: Some("Added Peer."@),
                screen: ScreenView::LoadingScreen {
                    loading_text: "Adding peer..."@,
                    mode: LoadingMode::PeerConnect(peer.id),
                },
                contacts: s.contacts.push(peer),
                ..s
            },
            Some((false, CmdView::Connect(peer.id))),
        ),
        IPCRes::Connected(id, true) => (
            notify(
                close_loading_if(s, |m: LoadingMode| m is PeerConnect),
                "Connected."@,
            ),
            None,
        ),
        IPCRes::Connected(id, false) => (s, Some((true, CmdView::Connect(id)))),
        IPCRes::Error(text) => (
            match s.screen {
                ScreenView::LoadingScreen { .. } => show(notify(s, text@), ScreenView::Blank),
                _ => notify(s, text@),
            },
            None,
        ),
        IPCRes::Notification(text) => (notify(s, text@), None),
        IPCRes::PeerList(peers) => (AppView { contacts: peers@, ..s }, None),
        IPCRes::GroupConnected(msg, _) => (
            close_loading_if(notify(s, msg@), |m: LoadingMode| m is GroupConnect),
            None,
        ),
        IPCRes::GroupList(list) => (AppView { groups: list@, ..s }, None),
        IPCRes::Text(sent_idx, text) => match s.current_contact() {
            (true, Some(i)) => if i == sent_idx && i < s.contacts.len() && s.contacts[i as int].id
                == i as u16 {
                (
                    AppView {
                        chats: s.chats.push(
                            ChatLine { id: 0, sender_name: their_name(), data: text@, time: now },
                        ),
                        ..s
                    },
                    None,
                )
            } else {
                (s, None)
            },
            _ => (s, None),
        },
        IPCRes::ChatList { peer_id, chats } => match s.current_contact() {
            (true, Some(i)) => if i < s.contacts.len() && s.contacts[i as int].id == peer_id {
                (AppView { chats: chats@.map_values(|c: TuiChat| c@), ..s }, None)
            } else {
                (s, None)
            },
            _ => (s, None),
        },
        IPCRes::GroupChatList { group_idx, chats } => match s.current_contact() {
            (false, Some(i)) => if i < s.groups.len() && s.groups[i as int].id == group_idx {
                (AppView { chats: chats@.map_values(|c: TuiChat| c@), ..s }, None)
            } else {
                (s, None)
            },
            _ => (s, None),
        },
        IPCRes::RenamedPeer(idx) => if (idx as int) < s.contacts.len() {
            (
                match s.screen {
                    ScreenView::InputScreen { mode: InputMode::RenamePeer, .. } => show(
                        notify(s, "Peer name changed to "@ + s.contacts[idx as int].name@),
                        ScreenView::Blank,
                    ),
                    _ => notify(s, "Peer name changed to "@ + s.contacts[idx as int].name@),
                },
                None,
            )
        } else {
            (s, None)
        },
        IPCRes::DeletedGroup(_) => (notify(s, "Group deleted."@), None),
        IPCRes::DeletedPeer(_) => (
            match s.screen {
                ScreenView::ConfirmScreen { mode: ConfirmMode::DeletePeer, .. } => show(
                    notify(s, "Peer deleted."@),
                    ScreenView::Blank,
                ),
                _ => notify(s, "Peer deleted."@),
            },
            None,
        ),
        _ => (s, None),
    }
}

impl App {
    /// Takes in response `res` from the daemon, arrived at time `now`;
    /// returns the command to send back, if any.
    pub fn manage_ipc(&mut self, res: IPCRes, now: &str) -> (out: Option<Outgoing>)
        requires
            old(self)@.cursors_in_range(),
        ensures
            final(self)@ == ipc_step(old(self)@, res, now@).0,
            outgoing_view(out) == ipc_step(old(self)@, res, now@).1,
            final(self)@.cursors_in_range(),
    {
        match res {
            IPCRes::ServerStarted(true) => {
                self.notification = Some("Server Started.".to_owned());
                if matches!(self.active_screen, Screen::LoadingScreen { mode: LoadingMode::StartServer, .. }) {
                    self.active_screen = Screen::Blank;
                }
                None
            },
            IPCRes::ServerStarted(false) => Some(Outgoing::AfterPause(IPCCmd::StartServer)),
            IPCRes::AddedPeer(peer) => {
                let id = peer.id;
                self.notification = Some("Added Peer.".to_owned());
                self.active_screen = Screen::LoadingScreen {
                    loading_text: "Adding peer...".to_owned(),
                    mode: LoadingMode::PeerConnect(id),
                };
                self.contacts.push(peer);
                Some(Outgoing::Now(IPCCmd::Connect(id)))
            },
            IPCRes::Connected(id, connected) => {
                if connected {
                    if matches!(self.active_screen, Screen::LoadingScreen { mode: LoadingMode::PeerConnect(_), .. }) {
                        self.active_screen = Screen::Blank;
                    }
                    self.notification = Some("Connected.".to_owned());
                    None
                } else {
                    Some(Outgoing::AfterPause(IPCCmd::Connect(id)))
                }
            },
            IPCRes::Error(text) => {
                self.notification = Some(text);
                if matches!(self.active_screen, Screen::LoadingScreen { .. }) {
                    self.active_screen = Screen::Blank;
                }
                None
            },
            IPCRes::Notification(text) => {
                self.notification = Some(text);
                None
            },
            IPCRes::PeerList(peers) => {
                self.contacts = peers;
                None
            },
            IPCRes::GroupConnected(msg, _) => {
                self.notification = Some(msg);
                if matches!(self.active_screen, Screen::LoadingScreen { mode: LoadingMode::GroupConnect(_), .. }) {
                    self.active_screen = Screen::Blank;
                }
                None
            },
            IPCRes::GroupList(list) => {
                self.groups = list;
                None
            },
            IPCRes::Text(sent_idx, text) => {
                let (is_peer, idx) = self.current_contact();
                if let Some(i) = idx {
                    if is_peer && i == sent_idx as usize && i < self.contacts.len()
                        && self.contacts[i].id == i as u16 {
                        let line = TuiChat {
                            id: 0,
                            sender_name: "They".to_owned(),
                            data: text,
                            time: now.to_owned(),
                        };
                        let ghost before = self.chats@;
                        self.chats.push(line);
                        assert(self.chats@.map_values(|c: TuiChat| c@) =~= before.map_values(
                            |c: TuiChat| c@,
                        ).push(line@));
                    }
                }
                None
            },
            IPCRes::ChatList { peer_id, chats } => {
                let (is_peer, idx) = self.current_contact();
                if let Some(i) = idx {
                    if is_peer && i < self.contacts.len() && self.contacts[i].id == peer_id {
                        self.chats = chats;
                    }
                }
                None
            },
            IPCRes::GroupChatList { group_idx, chats } => {
                let (is_peer, idx) = self.current_contact();
                if let Some(i) = idx {
                    if !is_peer && i < self.groups.len() && self.groups[i].id == group_idx {
                        self.chats = chats;
                    }
                }
                None
            },
            IPCRes::RenamedPeer(idx) => {
                if (idx as usize) < self.contacts.len() {
                    let mut note = "Peer name changed to ".to_owned();
                    note.append(self.contacts[idx as usize].name.as_str());
                    self.notification = Some(note);
                    if matches!(self.active_screen, Screen::InputScreen { mode: InputMode::RenamePeer, .. }) {
                        self.active_screen = Screen::Blank;
                    }
                }
                None
            },
            IPCRes::DeletedGroup(_) => {
                self.notification = Some("Group deleted.".to_owned());
                None
            },
            IPCRes::DeletedPeer(_) => {
                self.notification = Some("Peer deleted.".to_owned());
                if matches!(self.active_screen, Screen::ConfirmScreen { mode: ConfirmMode::DeletePeer, .. }) {
                    self.active_screen = Screen::Blank;
                }
                None
            },
            _ => None,
        }
    }
}

/// A selected contact's history is shown: when the selection is contact `i`
/// and its id is `peer_id`, a chat list for `peer_id` replaces the shown
/// chats with the received ones and changes nothing else.
pub proof fn law_selected_peer_history_shown(
    s: AppView,
    i: usize,
    peer_id: u16,
    chats: Vec<TuiChat>,
    now: Seq<char>,
)
    requires
        i < s.contacts.len(),
        s.selected == Some(i),
        s.contacts[i as int].id == peer_id,
    ensures
        ipc_step(s, IPCRes::ChatList { peer_id, chats }, now).0 == (AppView {
            chats: chats@.map_values(|c: TuiChat| c@),
            ..s
        }),
        ipc_step(s, IPCRes::ChatList { peer_id, chats }, now).0.chats.len() == chats@.len(),
{
}

/// A selected group's history is shown: when the selection is group `g`
/// (listed after the contacts and the group heading) and its id is
/// `group_idx`, a group chat list for `group_idx` replaces the shown chats
/// with the received ones and changes nothing else.
pub proof fn law_selected_group_history_shown(
    s: AppView,
    g: int,
    group_idx: u16,
    chats: Vec<TuiChat>,
    now: Seq<char>,
)
    requires
        0 <= g < s.groups.len(),
        s.contacts.len() + 1 + g <= usize::MAX,
        s.selected == Some((s.contacts.len() + 1 + g) as usize),
        s.groups[g].id == group_idx,
    ensures
        ipc_step(s, IPCRes::GroupChatList { group_idx, chats }, now).0 == (AppView {
            chats: chats@.map_values(|c: TuiChat| c@),
            ..s
        }),
        ipc_step(s, IPCRes::GroupChatList { group_idx, chats }, now).0.chats.len() == chats@.len(),
{
}

} // verus!
