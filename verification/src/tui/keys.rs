//! What a key press does when no screen is drawn over the panes.

use crate::comm::{CmdView, IPCCmd};
use crate::primitives::string_of;
use crate::text::chars_of;
use crate::records::{ChatLine, TuiChat};
use crate::tui::app::{App, AppView};
use crate::tui::input::{apply_edit, edited, trim, trimmed};
use crate::tui::navigation::{after_next_tab, moved_down, moved_up, TerminalControl};
use crate::tui::screens::{
    ConfirmMode, InputMode, Key, KeyCode, LoadingMode, Mode, Screen, ScreenView, Tab,
};
use vstd::prelude::*;

verus! {

/// Commands taken by their views.
pub open spec fn views(cmds: Seq<IPCCmd>) -> Seq<CmdView> {
    cmds.map_values(|c: IPCCmd| c@)
}

/// The number of chats asked for when a chat is opened.
pub const CHAT_PAGE: u8 = 50;

/// The name under which the local user's own messages are shown.
pub open spec fn own_name() -> Seq<char> {
    "You"@
}

/// `s` with the notification `msg`.
pub open spec fn notify(s: AppView, msg: Seq<char>) -> AppView {
    AppView { notification: Some(msg), ..s }
}

/// `s` with `screen` drawn over the panes.
pub open spec fn show(s: AppView, screen: ScreenView) -> AppView {
    AppView { screen, ..s }
}

/// `s` after an editing key in the chat buffer, when editing.
pub open spec fn chat_edited(s: AppView, code: KeyCode) -> AppView {
    match s.mode {
        Mode::Insert { cursor_pos } => {
            let e = edited(s.chat_buf, cursor_pos as nat, code);
            AppView { chat_buf: e.0, mode: Mode::Insert { cursor_pos: e.1 as usize }, ..s }
        },
        Mode::Normal => s,
    }
}

/// Shift-D: asks to disconnect the selected peer.
pub open spec fn on_disconnect_key(s: AppView) -> AppView {
    let (is_peer, idx) = s.current_contact();
    match idx {
        None => notify(s, "No peer selected."@),
        Some(i) => if is_peer && i < s.contacts.len() && !s.contacts[i as int].connected {
            notify(s, "Peer is not connected"@)
        } else if s.screen is Blank {
            show(
                s,
                ScreenView::ConfirmScreen {
                    prompt: "Are you sure you want to disconnect?"@,
                    yes_selected: false,
                    mode: ConfirmMode::DisconnectPeer,
                },
            )
        } else {
            s
        },
    }
}

/// `d`: asks to delete the selected peer or group; the local user cannot
/// be deleted.
pub open spec fn on_delete_key(s: AppView) -> AppView {
    let (is_peer, idx) = s.current_contact();
    match idx {
        None => s,
        Some(i) => if is_peer && i == 0 {
            notify(s, "Cannot delete Self"@)
        } else {
            let name = if is_peer {
                s.contacts[i as int].name@
            } else {
                s.groups[i as int].name@
            };
            show(
                s,
                ScreenView::ConfirmScreen {
                    prompt: "Are you sure you want to delete "@ + name + "?"@,
                    yes_selected: false,
                    mode: ConfirmMode::DeletePeer,
                },
            )
        },
    }
}

/// `r`: opens an input screen to rename the selected peer or group; the
/// local user (id 1) cannot be renamed.
pub open spec fn on_rename_key(s: AppView) -> AppView {
    match s.current_contact() {
        (true, Some(i)) => if i < s.contacts.len() {
            let p = s.contacts[i as int];
            if p.id == 1 {
                notify(s, "Cannot rename self."@)
            } else {
                show(
                    s,
                    ScreenView::InputScreen {
                        input: p.name@,
                        cursor_pos: p.name@.len(),
                        prompt: " Rename Peer "@,
                        mode: InputMode::RenamePeer,
                    },
                )
            }
        } else {
            s
        },
        (false, Some(i)) => if i < s.groups.len() {
            let g = s.groups[i as int];
            show(
                s,
                ScreenView::InputScreen {
                    input: g.name@,
                    cursor_pos: g.name@.len(),
                    prompt: " Rename Group "@,
                    mode: InputMode::RenameGroup,
                },
            )
        } else {
            s
        },
        _ => s,
    }
}

/// Enter on the contacts: opens the local user's own chat, or connects to
/// the selected peer or group and asks for its chats.
pub open spec fn on_enter_contacts(s: AppView) -> (AppView, Seq<CmdView>) {
    match s.current_contact() {
        (true, Some(i)) => if i < s.contacts.len() {
            let p = s.contacts[i as int];
            if p.id == 1 {
                (
                    after_next_tab(s),
                    seq![CmdView::ChatList { peer_id: p.id, msg_amount: CHAT_PAGE }],
                )
            } else {
                (
                    show(
                        s,
                        ScreenView::LoadingScreen {
                            loading_text: "Connecting..."@,
                            mode: LoadingMode::PeerConnect(p.id),
                        },
                    ),
                    seq![
                        CmdView::Connect(p.id),
                        CmdView::ChatList { peer_id: i as u16, msg_amount: CHAT_PAGE },
                    ],
                )
            }
        } else {
            (s, seq![])
        },
        (false, Some(i)) => if i < s.groups.len() {
            let g = s.groups[i as int];
            (
                show(
                    s,
                    ScreenView::LoadingScreen {
                        loading_text: "Connecting to "@ + g.name@ + ".."@,
                        mode: LoadingMode::GroupConnect(g.id),
                    },
                ),
                seq![CmdView::GroupConnect(g.id)],
            )
        } else {
            (s, seq![])
        },
        _ => (s, seq![]),
    }
}

/// `s` after the message `text` went out at time `now`: the message is
/// shown and the chat buffer emptied.
pub open spec fn sent(s: AppView, text: Seq<char>, now: Seq<char>) -> AppView {
    AppView {
        chats: s.chats.push(ChatLine { id: 0, sender_name: own_name(), data: text, time: now }),
        chat_buf: Seq::empty(),
        mode: match s.mode {
            Mode::Insert { .. } => Mode::Insert { cursor_pos: 0 },
            Mode::Normal => Mode::Normal,
        },
        ..s
    }
}

/// Enter in the chat: sends the chat buffer, without surrounding white
/// space, to the selected peer or group. Nothing is sent when it is blank;
/// a peer that is not connected (other than the local user) gets the
/// command, and the user a notification.
pub open spec fn on_enter_chat(s: AppView, now: Seq<char>) -> (AppView, Seq<CmdView>) {
    let text = trimmed(s.chat_buf);
    match s.current_contact() {
        (is_peer, Some(i)) => if text.len() == 0 {
            (s, seq![])
        } else if is_peer {
            if i < s.contacts.len() {
                let p = s.contacts[i as int];
                if !p.connected && p.id != 1 {
                    (notify(s, "Contact not connected."@), seq![CmdView::Text(p.id, text)])
                } else {
                    (sent(s, text, now), seq![CmdView::Text(p.id, text)])
                }
            } else {
                (s, seq![])
            }
        } else if i < s.groups.len() {
            (sent(s, text, now), seq![CmdView::GroupText(s.groups[i as int].id, text)])
        } else {
            (s, seq![])
        },
        _ => (s, seq![]),
    }
}

/// The keys, with no screen drawn, on which the front end stops: Enter,
/// Up or Down while no pane has the focus, and `d` on a group position
/// past the last group.
pub open spec fn none_screen_panics(s: AppView, k: Key) -> bool {
    ||| s.tab == Tab::Unfocused && (k.code is Up || k.code is Down || (k.code is Enter
        && s.current_contact().1 is Some))
    ||| k.code == KeyCode::Char('d') && s.mode is Normal && s.tab == Tab::Contact && !k.shift
        && match s.current_contact() {
        (false, Some(i)) => i >= s.groups.len(),
        _ => false,
    }
}

/// What a character key does outside insert mode.
pub open spec fn on_char_key(s: AppView, k: Key, ch: char) -> AppView {
    if ch == 'p' && k.control_only() {
        if s.screen is Blank {
            show(
                s,
                ScreenView::CommandPalette { text: seq![], cursor_pos: 0, options: seq![] },
            )
        } else {
            s
        }
    } else if (ch == 'D' || ch == 'd') && s.tab == Tab::Contact && k.shift {
        on_disconnect_key(s)
    } else if ch == 'd' && s.tab == Tab::Contact {
        on_delete_key(s)
    } else if ch == 'r' && s.tab == Tab::Contact {
        on_rename_key(s)
    } else if ch == 'a' {
        show(
            s,
            ScreenView::InputScreen {
                input: seq![],
                cursor_pos: 0,
                prompt: " New Peer "@,
                mode: InputMode::NewPeer,
            },
        )
    } else if ch == 'j' && s.tab == Tab::Contact {
        moved_down(s)
    } else if ch == 'k' && s.tab == Tab::Contact {
        moved_up(s)
    } else if ch == 'q' {
        show(
            s,
            ScreenView::ConfirmScreen {
                prompt: "Are you sure you want to quit?"@,
                yes_selected: false,
                mode: ConfirmMode::Exit,
            },
        )
    } else {
        s
    }
}

/// The state and the commands after key `k`, with no screen drawn, at time
/// `now`. Tab switches the pane; in insert mode characters and the editing
/// keys edit the chat buffer; other characters open screens or move the
/// selection; Enter connects or sends; Esc leaves the chat; Up and Down
/// move the selection or scroll the chat.
pub open spec fn none_screen_step(s: AppView, k: Key, now: Seq<char>) -> (
    AppView,
    Seq<CmdView>,
) {
    match k.code {
        KeyCode::Tab => (after_next_tab(s), seq![]),
        KeyCode::Char(ch) => if s.mode is Insert {
            (chat_edited(s, k.code), seq![])
        } else {
            (on_char_key(s, k, ch), seq![])
        },
        KeyCode::Backspace | KeyCode::Delete | KeyCode::Left | KeyCode::Right => (
            chat_edited(s, k.code),
            seq![],
        ),
        KeyCode::Enter => match s.tab {
            Tab::Contact => on_enter_contacts(s),
            Tab::Chat => on_enter_chat(s, now),
            Tab::Unfocused => (s, seq![]),
        },
        KeyCode::Esc => if s.tab == Tab::Chat {
            (AppView { tab: Tab::Contact, mode: Mode::Normal, ..s }, seq![])
        } else {
            (s, seq![])
        },
        KeyCode::Down => match s.tab {
            Tab::Contact => (moved_down(s), seq![]),
            Tab::Chat => (
                AppView {
                    chat_scroll: if s.chat_scroll >= 5 {
                        (s.chat_scroll - 5) as u16
                    } else {
                        0
                    },
                    ..s
                },
                seq![],
            ),
            Tab::Unfocused => (s, seq![]),
        },
        KeyCode::Up => match s.tab {
            Tab::Contact => (moved_up(s), seq![]),
            Tab::Chat => (
                AppView {
                    chat_scroll: if s.chat_scroll <= u16::MAX - 5 {
                        (s.chat_scroll + 5) as u16
                    } else {
                        u16::MAX
                    },
                    ..s
                },
                seq![],
            ),
            Tab::Unfocused => (s, seq![]),
        },
        _ => (s, seq![]),
    }
}

impl App {
    /// Shows the notification `msg`.
    fn notify(&mut self, msg: &str)
        ensures
            final(self)@ == notify(old(self)@, msg@),
    {
        self.notification = Some(msg.to_owned());
    }

    /// Applies an editing key to the chat buffer, when editing.
    fn edit_chat(&mut self, code: KeyCode)
        requires
            old(self)@.cursors_in_range(),
        ensures
            final(self)@ == chat_edited(old(self)@, code),
            final(self)@.cursors_in_range(),
    {
        match self.mode {
            Mode::Insert { cursor_pos } => {
                let c = apply_edit(&mut self.chat_buf, cursor_pos, code);
                self.mode = Mode::Insert { cursor_pos: c };
            },
            Mode::Normal => {},
        }
    }

    fn disconnect_key(&mut self)
        requires
            old(self)@.cursors_in_range(),
        ensures
            final(self)@ == on_disconnect_key(old(self)@),
            final(self)@.cursors_in_range(),
    {
        let (is_peer, idx) = self.current_contact();
        match idx {
            None => {
                self.notify("No peer selected.");
            },
            Some(i) => {
                if is_peer && i < self.contacts.len() && !self.contacts[i].connected {
                    self.notify("Peer is not connected");
                } else if matches!(self.active_screen, Screen::Blank) {
                    self.active_screen = Screen::ConfirmScreen {
                        prompt: "Are you sure you want to disconnect?".to_owned(),
                        yes_selected: false,
                        mode: ConfirmMode::DisconnectPeer,
                    };
                }
            },
        }
    }

    fn delete_key(&mut self)
        requires
            old(self)@.cursors_in_range(),
            match old(self)@.current_contact() {
                (false, Some(i)) => i < old(self)@.groups.len(),
                _ => true,
            },
        ensures
            final(self)@ == on_delete_key(old(self)@),
            final(self)@.cursors_in_range(),
    {
        let (is_peer, idx) = self.current_contact();
        let i = match idx {
            Some(i) => i,
            None => {
                return;
            },
        };
        if is_peer && i == 0 {
            self.notify("Cannot delete Self");
            return;
        }
        let mut prompt = "Are you sure you want to delete ".to_owned();
        if is_peer {
            prompt.append(self.contacts[i].name.as_str());
        } else {
            prompt.append(self.groups[i].name.as_str());
        }
        prompt.append("?");
        self.active_screen = Screen::ConfirmScreen {
            prompt,
            yes_selected: false,
            mode: ConfirmMode::DeletePeer,
        };
    }

    fn rename_key(&mut self)
        requires
            old(self)@.cursors_in_range(),
        ensures
            final(self)@ == on_rename_key(old(self)@),
            final(self)@.cursors_in_range(),
    {
        let (is_peer, idx) = self.current_contact();
        let i = match idx {
            Some(i) => i,
            None => {
                return;
            },
        };
        if is_peer {
            if i >= self.contacts.len() {
                return;
            }
            if self.contacts[i].id == 1 {
                self.notify("Cannot rename self.");
                return;
            }
            let input = chars_of(self.contacts[i].name.as_str());
            let cursor_pos = input.len();
            self.active_screen = Screen::InputScreen {
                input,
                cursor_pos,
                prompt: " Rename Peer ".to_owned(),
                mode: InputMode::RenamePeer,
            };
        } else {
            if i >= self.groups.len() {
                return;
            }
            let input = chars_of(self.groups[i].name.as_str());
            let cursor_pos = input.len();
            self.active_screen = Screen::InputScreen {
                input,
                cursor_pos,
                prompt: " Rename Group ".to_owned(),
                mode: InputMode::RenameGroup,
            };
        }
    }

    fn enter_contacts(&mut self) -> (cmds: Vec<IPCCmd>)
        requires
            old(self)@.cursors_in_range(),
        ensures
            final(self)@ == on_enter_contacts(old(self)@).0,
            views(cmds@) == on_enter_contacts(old(self)@).1,
            final(self)@.cursors_in_range(),
    {
        let mut cmds: Vec<IPCCmd> = Vec::new();
        let (is_peer, idx) = self.current_contact();
        let i = match idx {
            Some(i) => i,
            None => {
                assert(views(cmds@) =~= seq![]);
                return cmds;
            },
        };
        if is_peer {
            if i >= self.contacts.len() {
                assert(views(cmds@) =~= seq![]);
                return cmds;
            }
            let id = self.contacts[i].id;
            if id == 1 {
                cmds.push(IPCCmd::ChatList { peer_id: id, msg_amount: CHAT_PAGE });
                self.next_tab();
                assert(views(cmds@) =~= seq![
                    CmdView::ChatList { peer_id: id, msg_amount: CHAT_PAGE },
                ]);
                return cmds;
            }
            self.active_screen = Screen::LoadingScreen {
                loading_text: "Connecting...".to_owned(),
                mode: LoadingMode::PeerConnect(id),
            };
            cmds.push(IPCCmd::Connect(id));
            cmds.push(IPCCmd::ChatList { peer_id: i as u16, msg_amount: CHAT_PAGE });
            assert(views(cmds@) =~= seq![
                CmdView::Connect(id),
                CmdView::ChatList { peer_id: i as u16, msg_amount: CHAT_PAGE },
            ]);
        } else {
            if i >= self.groups.len() {
                assert(views(cmds@) =~= seq![]);
                return cmds;
            }
            let id = self.groups[i].id;
            let mut text = "Connecting to ".to_owned();
            text.append(self.groups[i].name.as_str());
            text.append("..");
            self.active_screen = Screen::LoadingScreen {
                loading_text: text,
                mode: LoadingMode::GroupConnect(id),
            };
            cmds.push(IPCCmd::GroupConnect(id));
            assert(views(cmds@) =~= seq![CmdView::GroupConnect(id)]);
        }
        cmds
    }

    /// Shows `text`, sent at `now`, and empties the chat buffer.
    fn record_sent(&mut self, text: &Vec<char>, now: &str)
        requires
            old(self)@.cursors_in_range(),
        ensures
            final(self)@ == sent(old(self)@, text@, now@),
            final(self)@.cursors_in_range(),
    {
        let line = TuiChat {
            id: 0,
            sender_name: "You".to_owned(),
            data: string_of(text.as_slice()),
            time: now.to_owned(),
        };
        let ghost old_chats = self.chats@;
        self.chats.push(line);
        assert(self.chats@.map_values(|c: TuiChat| c@) =~= old_chats.map_values(
            |c: TuiChat| c@,
        ).push(line@));
        self.chat_buf = Vec::new();
        match self.mode {
            Mode::Insert { .. } => {
                self.mode = Mode::Insert { cursor_pos: 0 };
            },
            Mode::Normal => {},
        }
    }

    fn enter_chat(&mut self, now: &str) -> (cmds: Vec<IPCCmd>)
        requires
            old(self)@.cursors_in_range(),
        ensures
            final(self)@ == on_enter_chat(old(self)@, now@).0,
            views(cmds@) == on_enter_chat(old(self)@, now@).1,
            final(self)@.cursors_in_range(),
    {
        let mut cmds: Vec<IPCCmd> = Vec::new();
        let (is_peer, idx) = self.current_contact();
        let i = match idx {
            Some(i) => i,
            None => {
                assert(views(cmds@) =~= seq![]);
                return cmds;
            },
        };
        let text = trim(&self.chat_buf);
        if text.len() == 0 {
            assert(views(cmds@) =~= seq![]);
            return cmds;
        }
        if is_peer {
            if i >= self.contacts.len() {
                assert(views(cmds@) =~= seq![]);
                return cmds;
            }
            let id = self.contacts[i].id;
            let connected = self.contacts[i].connected;
            cmds.push(IPCCmd::Text(id, string_of(text.as_slice())));
            assert(views(cmds@) =~= seq![CmdView::Text(id, text@)]);
            if !connected && id != 1 {
                self.notify("Contact not connected.");
                return cmds;
            }
        } else {
            if i >= self.groups.len() {
                assert(views(cmds@) =~= seq![]);
                return cmds;
            }
            cmds.push(IPCCmd::GroupText(self.groups[i].id, string_of(text.as_slice())));
            assert(views(cmds@) =~= seq![CmdView::GroupText(self.groups@[i as int].id, text@)]);
        }
        self.record_sent(&text, now);
        cmds
    }

    fn char_key(&mut self, key: Key, ch: char)
        requires
            old(self)@.cursors_in_range(),
            key.code == KeyCode::Char(ch),
            old(self)@.mode is Normal,
            !none_screen_panics(old(self)@, key),
        ensures
            final(self)@ == on_char_key(old(self)@, key, ch),
            final(self)@.cursors_in_range(),
    {
        if ch == 'p' && key.control && !key.shift && !key.other_modifiers {
            if matches!(self.active_screen, Screen::Blank) {
                let options: Vec<String> = Vec::new();
                assert(options@.map_values(|o: String| o@) =~= seq![]);
                self.active_screen = Screen::CommandPalette {
                    text: Vec::new(),
                    cursor_pos: 0,
                    options,
                };
            }
        } else if (ch == 'D' || ch == 'd') && self.tab == Tab::Contact && key.shift {
            self.disconnect_key();
        } else if ch == 'd' && self.tab == Tab::Contact {
            self.delete_key();
        } else if ch == 'r' && self.tab == Tab::Contact {
            self.rename_key();
        } else if ch == 'a' {
            self.active_screen = Screen::InputScreen {
                input: Vec::new(),
                cursor_pos: 0,
                prompt: " New Peer ".to_owned(),
                mode: InputMode::NewPeer,
            };
        } else if ch == 'j' && self.tab == Tab::Contact {
            self.next_idx();

        } else if ch == 'k' && self.tab == Tab::Contact {
            self.prev_idx();

        } else if ch == 'q' {

            self.active_screen = Screen::ConfirmScreen {
                prompt: "Are you sure you want to quit?".to_owned(),
                yes_selected: false,
                mode: ConfirmMode::Exit,
            };
        }
    }

    /// Whether key `key` stops the front end when no screen is drawn; the
    /// caller stops instead of calling `handle_none_screen`.
    pub fn none_screen_stops(&self, key: Key) -> (b: bool)
        ensures
            b == none_screen_panics(self@, key),
    {
        let (is_peer, idx) = self.current_contact();
        let unfocused = self.tab == Tab::Unfocused && (matches!(key.code, KeyCode::Up)
            || matches!(key.code, KeyCode::Down) || (matches!(key.code, KeyCode::Enter)
            && idx.is_some()));
        let past_groups = match (is_peer, idx) {
            (false, Some(i)) => i >= self.groups.len(),
            _ => false,
        };
        let bad_delete = key.code == KeyCode::Char('d') && matches!(self.mode, Mode::Normal)
            && self.tab == Tab::Contact && !key.shift && past_groups;
        unfocused || bad_delete
    }

    /// Handles key `key`, pressed at time `now`, with no screen drawn;
    /// returns the commands to send to the daemon, in order.
    pub fn handle_none_screen(&mut self, key: Key, now: &str) -> (cmds: Vec<IPCCmd>)
        requires
            old(self)@.cursors_in_range(),
            !none_screen_panics(old(self)@, key),
        ensures
            final(self)@ == none_screen_step(old(self)@, key, now@).0,
            views(cmds@) == none_screen_step(old(self)@, key, now@).1,
            final(self)@.cursors_in_range(),
    {
        let mut cmds: Vec<IPCCmd> = Vec::new();
        assert(views(cmds@) =~= seq![]);
        match key.code {
            KeyCode::Tab => {
                self.next_tab();
            },
            KeyCode::Char(ch) => {
                if matches!(self.mode, Mode::Insert { .. }) {
                    self.edit_chat(key.code);
                } else {
                    self.char_key(key, ch);
                }
            },
            KeyCode::Backspace | KeyCode::Delete | KeyCode::Left | KeyCode::Right => {
                self.edit_chat(key.code);
            },
            KeyCode::Enter => {
                match self.tab {
                    Tab::Contact => {
                        cmds = self.enter_contacts();
                    },
                    Tab::Chat => {
                        cmds = self.enter_chat(now);
                    },
                    Tab::Unfocused => {},
                }
            },
            KeyCode::Esc => {
                if self.tab == Tab::Chat {
                    self.tab = Tab::Contact;
                    self.mode = Mode::Normal;
                }
            },
            KeyCode::Down => {
                match self.tab {
                    Tab::Contact => {
                        self.next_idx();
                    },
                    Tab::Chat => {
                        self.chat_scroll = self.chat_scroll.saturating_sub(5);
                    },
                    Tab::Unfocused => {},
                }
            },
            KeyCode::Up => {
                match self.tab {
                    Tab::Contact => {
                        self.prev_idx();
                    },
                    Tab::Chat => {
                        self.chat_scroll = self.chat_scroll.saturating_add(5);
                    },
                    Tab::Unfocused => {},
                }
            },
            _ => {},
        }
        cmds
    }
}

} // verus!
