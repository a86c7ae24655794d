//! What a key press does on the screens drawn over the panes: the input,
//! loading and confirmation screens and the command palette; and the
//! dispatch of every key press.

use crate::comm::{CmdView, IPCCmd};
use crate::numerals::{decimal, push_decimal};
use crate::primitives::string_of;
use crate::text::chars_of;
use crate::records::DBGroup;
use crate::tui::app::{App, AppView};
use crate::tui::input::{apply_edit, copy_range, edited, is_editing_key, trim, trimmed};
use crate::tui::keys::{none_screen_panics, none_screen_step, notify, show, views};
use crate::tui::screens::PaletteError;
use crate::tui::screens::{
    palette_command_of, ConfirmMode, InputMode, Key, KeyCode, PaletteCommand, Screen, ScreenView,
};
use vstd::prelude::*;

verus! {

/// The port given to a peer added by address.
pub const NEW_PEER_PORT: u16 = 80;

// ----------------------------------------------------------------------
// The input screen
// ----------------------------------------------------------------------

/// The note shown when the selection is not a group, with the position and
/// the number of peers.
pub open spec fn not_a_group_note(idx: nat, contacts: nat) -> Seq<char> {
    "idx: "@ + decimal(idx) + ", contact len: "@ + decimal(contacts)
}

/// Enter on an input screen holding `input`: adds the peer at that
/// address, or renames the selected peer or group.
pub open spec fn on_input_enter(s: AppView, input: Seq<char>, mode: InputMode) -> (
    AppView,
    Seq<CmdView>,
) {
    let c = s.contacts.len();
    let g = s.groups.len();
    match mode {
        InputMode::NewPeer => (s, seq![CmdView::AddPeer(input, NEW_PEER_PORT)]),
        InputMode::RenamePeer => match s.selected {
            Some(i) => if i < c {
                (show(s, ScreenView::Blank), seq![CmdView::RenamePeer(s.contacts[i as int].id, input)])
            } else {
                (s, seq![])
            },
            None => (s, seq![]),
        },
        InputMode::RenameGroup => match s.selected {
            None => (notify(s, "nothing selected"@), seq![]),
            Some(i) => if i > c && i - c - 1 < g {
                (
                    show(s, ScreenView::Blank),
                    seq![CmdView::RenameGroup(s.groups[i - c - 1].id, input)],
                )
            } else {
                (notify(s, not_a_group_note(i as nat, c)), seq![])
            },
        },
    }
}

/// The state and the commands after key `k` on an input screen: the
/// editing keys edit the input, Enter submits it, Esc closes the screen.
pub open spec fn input_screen_step(s: AppView, k: Key) -> (AppView, Seq<CmdView>) {
    match s.screen {
        ScreenView::InputScreen { input, cursor_pos, prompt, mode } => if is_editing_key(k.code) {
            let e = edited(input, cursor_pos, k.code);
            (
                show(s, ScreenView::InputScreen { input: e.0, cursor_pos: e.1, prompt, mode }),
                seq![],
            )
        } else if k.code is Enter {
            on_input_enter(s, input, mode)
        } else if k.code is Esc {
            (show(s, ScreenView::Blank), seq![])
        } else {
            (s, seq![])
        },
        _ => (s, seq![]),
    }
}

// ----------------------------------------------------------------------
// The loading screen
// ----------------------------------------------------------------------

/// The state after key `k` on a loading screen: Esc closes it and shows
/// what was loading as a notification.
pub open spec fn loading_screen_step(s: AppView, k: Key) -> AppView {
    match s.screen {
        ScreenView::LoadingScreen { loading_text, .. } => if k.code is Esc {
            show(notify(s, loading_text), ScreenView::Blank)
        } else {
            s
        },
        _ => s,
    }
}

// ----------------------------------------------------------------------
// The confirmation screen
// ----------------------------------------------------------------------

/// Enter on a confirmation screen with `yes` chosen or not: quits, deletes
/// the selected peer or group, or disconnects the selected peer.
pub open spec fn on_confirm(s: AppView, yes: bool, mode: ConfirmMode) -> (AppView, Seq<CmdView>) {
    let c = s.contacts.len();
    let g = s.groups.len();
    match mode {
        ConfirmMode::Exit => (
            show(AppView { running: if yes { false } else { s.running }, ..s }, ScreenView::Blank),
            seq![],
        ),
        ConfirmMode::DeletePeer => if yes && s.selected is Some {
            let i = s.selected->0;
            if i < c {
                (show(s, ScreenView::Blank), seq![CmdView::DeletePeer(s.contacts[i as int].id)])
            } else if i > c && i - c - 1 < g {
                (show(s, ScreenView::Blank), seq![CmdView::DeleteGroup(s.groups[i - c - 1].id)])
            } else {
                (s, seq![])
            }
        } else {
            (show(s, ScreenView::Blank), seq![])
        },
        ConfirmMode::DisconnectPeer => match s.current_contact() {
            (true, Some(i)) => if yes && i < c {
                (show(s, ScreenView::Blank), seq![CmdView::Disconnect(s.contacts[i as int].id)])
            } else {
                (show(s, ScreenView::Blank), seq![])
            },
            _ => (show(s, ScreenView::Blank), seq![]),
        },
    }
}

/// The state and the commands after key `k` on a confirmation screen:
/// Left and Right switch between yes and no, Enter acts on the choice,
/// Esc closes the screen.
pub open spec fn confirm_screen_step(s: AppView, k: Key) -> (AppView, Seq<CmdView>) {
    match s.screen {
        ScreenView::ConfirmScreen { prompt, yes_selected, mode } => match k.code {
            KeyCode::Esc => (show(s, ScreenView::Blank), seq![]),
            KeyCode::Left | KeyCode::Right => (
                show(s, ScreenView::ConfirmScreen { prompt, yes_selected: !yes_selected, mode }),
                seq![],
            ),
            KeyCode::Enter => on_confirm(s, yes_selected, mode),
            _ => (s, seq![]),
        },
        _ => (s, seq![]),
    }
}

// ----------------------------------------------------------------------
// The command palette
// ----------------------------------------------------------------------

/// Where the first word of `t` from position `i` ends: at the first space,
/// or at the end.
pub open spec fn word_end(t: Seq<char>, i: nat) -> nat
    decreases t.len() - i,
{
    if i >= t.len() || t[i as int] == ' ' {
        i
    } else {
        word_end(t, i + 1)
    }
}

/// The command word of the palette text: up to the first space.
pub open spec fn palette_word(t: Seq<char>) -> Seq<char> {
    t.take(word_end(t, 0) as int)
}

/// The argument of the palette text: what follows the first space, without
/// surrounding white space.
pub open spec fn palette_argument(t: Seq<char>) -> Seq<char> {
    let e = word_end(t, 0);
    if e < t.len() {
        trimmed(t.skip((e + 1) as int))
    } else {
        seq![]
    }
}

/// The first group from position `i` on named `name`.
pub open spec fn first_named(gs: Seq<DBGroup>, name: Seq<char>, i: nat) -> Option<nat>
    decreases gs.len() - i,
{
    if i >= gs.len() {
        None
    } else if gs[i as int].name@ == name {
        Some(i)
    } else {
        first_named(gs, name, i + 1)
    }
}

/// Enter on the palette holding `text`: `newgroup`, optionally followed by
/// a name, creates a group; `addtogroup` followed by a group's name adds
/// the selected peer to the first group of that name.
pub open spec fn on_palette_enter(s: AppView, text: Seq<char>) -> (AppView, Seq<CmdView>) {
    let arg = palette_argument(text);
    match palette_command_of(palette_word(text)) {
        None => (notify(s, "Invalid Command"@), seq![]),
        Some(PaletteCommand::NewGroup) => (
            show(s, ScreenView::Blank),
            seq![
                CmdView::NewGroup(
                    if arg.len() == 0 {
                        None
                    } else {
                        Some(arg)
                    },
                ),
            ],
        ),
        Some(PaletteCommand::AddToGroup) => match s.current_contact() {
            (true, Some(i)) => if i < s.contacts.len() {
                match first_named(s.groups, arg, 0) {
                    Some(j) => (
                        show(s, ScreenView::Blank),
                        seq![CmdView::AddToGroup(s.groups[j as int].id, s.contacts[i as int].id)],
                    ),
                    None => (notify(s, "No such group with that name"@), seq![]),
                }
            } else {
                (s, seq![])
            },
            _ => (s, seq![]),
        },
    }
}

/// The state and the commands after key `k` on the command palette: the
/// editing keys edit the text, Enter runs it, Esc closes the palette.
pub open spec fn palette_step(s: AppView, k: Key) -> (AppView, Seq<CmdView>) {
    match s.screen {
        ScreenView::CommandPalette { text, cursor_pos, options } => if is_editing_key(k.code) {
            let e = edited(text, cursor_pos, k.code);
            (
                show(s, ScreenView::CommandPalette { text: e.0, cursor_pos: e.1, options }),
                seq![],
            )
        } else if k.code is Esc {
            (show(s, ScreenView::Blank), seq![])
        } else if k.code is Enter {
            on_palette_enter(s, text)
        } else {
            (s, seq![])
        },
        _ => (s, seq![]),
    }
}

// ----------------------------------------------------------------------
// Every key
// ----------------------------------------------------------------------

/// Control-C, which stops the front end whatever is shown.
pub open spec fn is_interrupt(k: Key) -> bool {
    k.code == KeyCode::Char('c') && k.control
}

/// The state and the commands after key `k` at time `now`: Control-C stops
/// the front end; other keys go to the screen that is drawn, or to the
/// panes when none is.
pub open spec fn key_step(s: AppView, k: Key, now: Seq<char>) -> (AppView, Seq<CmdView>) {
    if is_interrupt(k) {
        (AppView { running: false, ..s }, seq![])
    } else {
        match s.screen {
            ScreenView::Blank => none_screen_step(s, k, now),
            ScreenView::InputScreen { .. } => input_screen_step(s, k),
            ScreenView::LoadingScreen { .. } => (loading_screen_step(s, k), seq![]),
            ScreenView::ConfirmScreen { .. } => confirm_screen_step(s, k),
            ScreenView::CommandPalette { .. } => palette_step(s, k),
        }
    }
}

/// The keys on which the front end stops without a result.
pub open spec fn key_panics(s: AppView, k: Key) -> bool {
    !is_interrupt(k) && s.screen is Blank && none_screen_panics(s, k)
}

impl App {
    fn input_enter(&mut self, input: String, mode: InputMode) -> (cmds: Vec<IPCCmd>)
        requires
            old(self)@.cursors_in_range(),
        ensures
            final(self)@ == on_input_enter(old(self)@, input@, mode).0,
            views(cmds@) == on_input_enter(old(self)@, input@, mode).1,
            final(self)@.cursors_in_range(),
    {
        let mut cmds: Vec<IPCCmd> = Vec::new();
        let c = self.contacts.len();
        match mode {
            InputMode::NewPeer => {
                cmds.push(IPCCmd::AddPeer(input, NEW_PEER_PORT));
            },
            InputMode::RenamePeer => {
                if let Some(i) = self.selected {
                    if i < c {
                        cmds.push(IPCCmd::RenamePeer(self.contacts[i].id, input));
                        self.active_screen = Screen::Blank;
                    }
                }
            },
            InputMode::RenameGroup => {
                match self.selected {
                    None => {
                        self.notification = Some("nothing selected".to_owned());
                    },
                    Some(i) => {
                        if i > c && i - c - 1 < self.groups.len() {
                            cmds.push(IPCCmd::RenameGroup(self.groups[i - c - 1].id, input));
                            self.active_screen = Screen::Blank;
                        } else {
                            let mut note: Vec<char> = chars_of("idx: ");
                            push_decimal(&mut note, i);
                            let mut middle = chars_of(", contact len: ");
                            note.append(&mut middle);
                            push_decimal(&mut note, c);
                            self.notification = Some(string_of(note.as_slice()));
                        }
                    },
                }
            },
        }
        assert(views(cmds@) =~= on_input_enter(old(self)@, input@, mode).1);
        cmds
    }

    /// Handles key `key` on an input screen; returns the commands to send.
    pub fn handle_input_screen(&mut self, key: Key) -> (cmds: Vec<IPCCmd>)
        requires
            old(self)@.cursors_in_range(),
        ensures
            final(self)@ == input_screen_step(old(self)@, key).0,
            views(cmds@) == input_screen_step(old(self)@, key).1,
            final(self)@.cursors_in_range(),
    {
        let mut cmds: Vec<IPCCmd> = Vec::new();
        assert(views(cmds@) =~= seq![]);
        let mut screen = Screen::Blank;
        std::mem::swap(&mut screen, &mut self.active_screen);
        match screen {
            Screen::InputScreen { mut input, cursor_pos, prompt, mode } => {
                match key.code {
                    KeyCode::Char(_) | KeyCode::Backspace | KeyCode::Delete | KeyCode::Left
                    | KeyCode::Right => {
                        let c = apply_edit(&mut input, cursor_pos, key.code);
                        self.active_screen = Screen::InputScreen {
                            input,
                            cursor_pos: c,
                            prompt,
                            mode,
                        };
                    },
                    KeyCode::Enter => {
                        let text = string_of(input.as_slice());
                        self.active_screen = Screen::InputScreen { input, cursor_pos, prompt, mode };
                        cmds = self.input_enter(text, mode);
                    },
                    KeyCode::Esc => {},
                    _ => {
                        self.active_screen = Screen::InputScreen { input, cursor_pos, prompt, mode };
                    },
                }
            },
            other => {
                self.active_screen = other;
            },
        }
        cmds
    }

    /// Handles key `key` on a loading screen.
    pub fn handle_loading_screen(&mut self, key: Key)
        requires
            old(self)@.cursors_in_range(),
        ensures
            final(self)@ == loading_screen_step(old(self)@, key),
            final(self)@.cursors_in_range(),
    {
        if let KeyCode::Esc = key.code {
            let mut screen = Screen::Blank;
            std::mem::swap(&mut screen, &mut self.active_screen);
            match screen {
                Screen::LoadingScreen { loading_text, .. } => {
                    self.notification = Some(loading_text);
                },
                other => {
                    self.active_screen = other;
                },
            }
        }
    }

    fn confirm(&mut self, yes: bool, mode: ConfirmMode) -> (cmds: Vec<IPCCmd>)
        requires
            old(self)@.cursors_in_range(),
        ensures
            final(self)@ == on_confirm(old(self)@, yes, mode).0,
            views(cmds@) == on_confirm(old(self)@, yes, mode).1,
            final(self)@.cursors_in_range(),
    {
        let mut cmds: Vec<IPCCmd> = Vec::new();
        let c = self.contacts.len();
        match mode {
            ConfirmMode::Exit => {
                if yes {
                    self.running = false;
                }
            },
            ConfirmMode::DeletePeer => {
                if yes && self.selected.is_some() {
                    let i = self.selected.unwrap();
                    if i < c {
                        cmds.push(IPCCmd::DeletePeer(self.contacts[i].id));
                    } else if i > c && i - c - 1 < self.groups.len() {
                        cmds.push(IPCCmd::DeleteGroup(self.groups[i - c - 1].id));
                    } else {
                        assert(views(cmds@) =~= seq![]);
                        return cmds;
                    }
                }
            },
            ConfirmMode::DisconnectPeer => {
                let (is_peer, idx) = self.current_contact();
                if let Some(i) = idx {
                    if is_peer && yes && i < c {
                        cmds.push(IPCCmd::Disconnect(self.contacts[i].id));
                    }
                }
            },
        }
        self.active_screen = Screen::Blank;
        assert(views(cmds@) =~= on_confirm(old(self)@, yes, mode).1);
        cmds
    }

    /// Handles key `key` on a confirmation screen; returns the commands to
    /// send.
    pub fn handle_confirm_screen(&mut self, key: Key) -> (cmds: Vec<IPCCmd>)
        requires
            old(self)@.cursors_in_range(),
        ensures
            final(self)@ == confirm_screen_step(old(self)@, key).0,
            views(cmds@) == confirm_screen_step(old(self)@, key).1,
            final(self)@.cursors_in_range(),
    {
        let mut cmds: Vec<IPCCmd> = Vec::new();
        assert(views(cmds@) =~= seq![]);
        let mut screen = Screen::Blank;
        std::mem::swap(&mut screen, &mut self.active_screen);
        match screen {
            Screen::ConfirmScreen { prompt, yes_selected, mode } => {
                match key.code {
                    KeyCode::Esc => {},
                    KeyCode::Left | KeyCode::Right => {
                        self.active_screen = Screen::ConfirmScreen {
                            prompt,
                            yes_selected: !yes_selected,
                            mode,
                        };
                    },
                    KeyCode::Enter => {
                        self.active_screen = Screen::ConfirmScreen { prompt, yes_selected, mode };
                        cmds = self.confirm(yes_selected, mode);
                    },
                    _ => {
                        self.active_screen = Screen::ConfirmScreen { prompt, yes_selected, mode };
                    },
                }
            },
            other => {
                self.active_screen = other;
            },
        }
        cmds
    }
}

proof fn lemma_first_named_bound(gs: Seq<DBGroup>, name: Seq<char>, i: nat)
    ensures
        first_named(gs, name, i) matches Some(j) ==> i <= j < gs.len(),
    decreases gs.len() - i,
{
    if i < gs.len() {
        lemma_first_named_bound(gs, name, i + 1);
    }
}

/// Where the first word of `t` ends.
fn find_word_end(t: &Vec<char>) -> (e: usize)
    ensures
        e == word_end(t@, 0),
        e <= t.len(),
{
    let n = t.len();
    let mut e: usize = 0;
    while e < n && t[e] != ' '
        invariant
            n == t.len(),
            e <= n,
            word_end(t@, 0) == word_end(t@, e as nat),
        decreases n - e,
    {
        e = e + 1;
    }
    e
}

/// The first group named `name`.
fn find_group(groups: &Vec<DBGroup>, name: &String) -> (r: Option<usize>)
    ensures
        match r {
            Some(j) => first_named(groups@, name@, 0) == Some(j as nat) && j < groups.len(),
            None => first_named(groups@, name@, 0) is None,
        },
{
    proof {
        lemma_first_named_bound(groups@, name@, 0);
    }
    let n = groups.len();
    let mut j: usize = 0;
    while j < n
        invariant
            n == groups.len(),
            j <= n,
            first_named(groups@, name@, 0) == first_named(groups@, name@, j as nat),
        decreases n - j,
    {
        if groups[j].name == *name {
            return Some(j);
        }
        j = j + 1;
    }
    None
}

impl App {
    fn palette_enter(&mut self, text: &Vec<char>) -> (cmds: Vec<IPCCmd>)
        requires
            old(self)@.cursors_in_range(),
        ensures
            final(self)@ == on_palette_enter(old(self)@, text@).0,
            views(cmds@) == on_palette_enter(old(self)@, text@).1,
            final(self)@.cursors_in_range(),
    {
        let mut cmds: Vec<IPCCmd> = Vec::new();
        assert(views(cmds@) =~= seq![]);
        let n = text.len();
        let e = find_word_end(text);
        let word = copy_range(text, 0, e);
        assert(word@ =~= palette_word(text@));
        let arg: Vec<char> = if e < n {
            let rest = copy_range(text, e + 1, n);
            assert(rest@ =~= text@.skip(e + 1));
            trim(&rest)
        } else {
            Vec::new()
        };
        assert(arg@ =~= palette_argument(text@));
        let word_text = string_of(word.as_slice());
        let arg_text = string_of(arg.as_slice());
        match PaletteCommand::try_from(word_text.as_str()) {
            Err(PaletteError::NoSuchCommand) => {
                self.notification = Some("Invalid Command".to_owned());
            },
            Ok(PaletteCommand::NewGroup) => {
                let name = if arg.len() == 0 {
                    None
                } else {
                    Some(arg_text)
                };
                cmds.push(IPCCmd::NewGroup(name));
                self.active_screen = Screen::Blank;
                assert(views(cmds@) =~= seq![
                    CmdView::NewGroup(
                        if arg@.len() == 0 {
                            None
                        } else {
                            Some(arg@)
                        },
                    ),
                ]);
            },
            Ok(PaletteCommand::AddToGroup) => {
                let (is_peer, idx) = self.current_contact();
                if let Some(i) = idx {
                    if is_peer && i < self.contacts.len() {
                        match find_group(&self.groups, &arg_text) {
                            Some(j) => {
                                cmds.push(
                                    IPCCmd::AddToGroup(self.groups[j].id, self.contacts[i].id),
                                );
                                self.active_screen = Screen::Blank;
                                assert(views(cmds@) =~= seq![
                                    CmdView::AddToGroup(
                                        self.groups@[j as int].id,
                                        self.contacts@[i as int].id,
                                    ),
                                ]);
                            },
                            None => {
                                self.notification = Some(
                                    "No such group with that name".to_owned(),
                                );
                            },
                        }
                    }
                }
            },
        }
        assert(views(cmds@) =~= on_palette_enter(old(self)@, text@).1);
        cmds
    }

    /// Handles key `key` on the command palette; returns the commands to
    /// send.
    pub fn handle_command_palette(&mut self, key: Key) -> (cmds: Vec<IPCCmd>)
        requires
            old(self)@.cursors_in_range(),
        ensures
            final(self)@ == palette_step(old(self)@, key).0,
            views(cmds@) == palette_step(old(self)@, key).1,
            final(self)@.cursors_in_range(),
    {
        let mut cmds: Vec<IPCCmd> = Vec::new();
        assert(views(cmds@) =~= seq![]);
        let mut screen = Screen::Blank;
        std::mem::swap(&mut screen, &mut self.active_screen);
        match screen {
            Screen::CommandPalette { mut text, cursor_pos, options } => {
                match key.code {
                    KeyCode::Char(_) | KeyCode::Backspace | KeyCode::Delete | KeyCode::Left
                    | KeyCode::Right => {
                        let c = apply_edit(&mut text, cursor_pos, key.code);
                        self.active_screen = Screen::CommandPalette {
                            text,
                            cursor_pos: c,
                            options,
                        };
                    },
                    KeyCode::Esc => {},
                    KeyCode::Enter => {
                        let typed = copy_range(&text, 0, text.len());
                        assert(typed@ =~= text@);
                        self.active_screen = Screen::CommandPalette { text, cursor_pos, options };
                        cmds = self.palette_enter(&typed);
                    },
                    _ => {
                        self.active_screen = Screen::CommandPalette { text, cursor_pos, options };
                    },
                }
            },
            other => {
                self.active_screen = other;
            },
        }
        cmds
    }

    /// Whether key `key` stops the front end; the caller stops instead of
    /// calling `manage_keys`.
    pub fn key_stops(&self, key: Key) -> (b: bool)
        ensures
            b == key_panics(self@, key),
    {
        let interrupt = key.code == KeyCode::Char('c') && key.control;
        !interrupt && matches!(self.active_screen, Screen::Blank) && self.none_screen_stops(key)
    }

    /// Handles key `key`, pressed at time `now`: Control-C stops the front
    /// end; other keys go to the screen drawn, or to the panes. Returns the
    /// commands to send to the daemon, in order.
    pub fn manage_keys(&mut self, key: Key, now: &str) -> (cmds: Vec<IPCCmd>)
        requires
            old(self)@.cursors_in_range(),
            !key_panics(old(self)@, key),
        ensures
            final(self)@ == key_step(old(self)@, key, now@).0,
            views(cmds@) == key_step(old(self)@, key, now@).1,
            final(self)@.cursors_in_range(),
    {
        if key.code == KeyCode::Char('c') && key.control {
            self.running = false;
            let cmds: Vec<IPCCmd> = Vec::new();
            assert(views(cmds@) =~= seq![]);
            return cmds;
        }
        if matches!(self.active_screen, Screen::Blank) {
            self.handle_none_screen(key, now)
        } else if matches!(self.active_screen, Screen::InputScreen { .. }) {
            self.handle_input_screen(key)
        } else if matches!(self.active_screen, Screen::LoadingScreen { .. }) {
            self.handle_loading_screen(key);
            let cmds: Vec<IPCCmd> = Vec::new();
            assert(views(cmds@) =~= seq![]);
            cmds
        } else if matches!(self.active_screen, Screen::ConfirmScreen { .. }) {
            self.handle_confirm_screen(key)
        } else {
            self.handle_command_palette(key)
        }
    }
}

/// Esc closes whatever screen is drawn over the panes, and sends nothing.
pub proof fn law_escape_closes_screens(s: AppView, k: Key, now: Seq<char>)
    requires
        k.code is Esc,
        !(s.screen is Blank),
    ensures
        key_step(s, k, now).0.screen == ScreenView::Blank,
        key_step(s, k, now).1.len() == 0,
{
}

/// Control-C stops the front end whatever is shown, and sends nothing.
pub proof fn law_interrupt_stops(s: AppView, k: Key, now: Seq<char>)
    requires
        is_interrupt(k),
    ensures
        !key_step(s, k, now).0.running,
        key_step(s, k, now).1.len() == 0,
{
}

/// Only Control-C and a confirmed quit stop the front end.
pub proof fn law_only_interrupt_or_quit_stops(s: AppView, k: Key, now: Seq<char>)
    requires
        s.running,
        !key_step(s, k, now).0.running,
    ensures
        is_interrupt(k) || (s.screen matches ScreenView::ConfirmScreen { yes_selected, mode, .. }
            && yes_selected && mode == ConfirmMode::Exit && k.code is Enter),
{
}

/// Confirming a deletion deletes what is selected: on a deletion
/// confirmation with yes chosen, Enter asks the daemon to delete exactly the
/// selected peer (a contact `i`) or the selected group (group `g`, listed
/// after the contacts and the group heading), and closes the screen. With
/// no chosen, Enter only closes the screen.
pub proof fn law_confirmed_deletion_deletes_selection(
    s: AppView,
    k: Key,
    prompt: Seq<char>,
    yes: bool,
    i: int,
)
    requires
        s.screen == (ScreenView::ConfirmScreen {
            prompt,
            yes_selected: yes,
            mode: ConfirmMode::DeletePeer,
        }),
        k.code == KeyCode::Enter,
        s.selected == Some(i as usize),
        0 <= i <= usize::MAX,
    ensures
        yes && i < s.contacts.len() ==> confirm_screen_step(s, k).1 == seq![
            CmdView::DeletePeer(s.contacts[i].id),
        ] && confirm_screen_step(s, k).0.screen == ScreenView::Blank,
        yes && s.contacts.len() < i && i - s.contacts.len() - 1 < s.groups.len() ==> confirm_screen_step(s, k).1
            == seq![CmdView::DeleteGroup(s.groups[i - s.contacts.len() - 1].id)]
            && confirm_screen_step(s, k).0.screen == ScreenView::Blank,
        !yes ==> confirm_screen_step(s, k).1 == Seq::<CmdView>::empty()
            && confirm_screen_step(s, k).0.screen == ScreenView::Blank,
{
}

/// The other confirmations do what they ask: confirming an exit with yes
/// stops the front end, with no keeps it running; confirming a disconnect
/// with yes and a contact `i` selected asks the daemon to disconnect
/// exactly that contact's peer. Each closes the screen. Left and Right
/// only switch the choice; Esc closes without a command.
pub proof fn law_confirmations_do_what_they_ask(
    s: AppView,
    k: Key,
    prompt: Seq<char>,
    yes: bool,
    mode: ConfirmMode,
    i: usize,
)
    requires
        s.screen == (ScreenView::ConfirmScreen { prompt, yes_selected: yes, mode }),
    ensures
        k.code == KeyCode::Enter && mode == ConfirmMode::Exit ==> confirm_screen_step(s, k).0.running
            == (s.running && !yes) && confirm_screen_step(s, k).1 == Seq::<CmdView>::empty(),
        k.code == KeyCode::Enter && mode == ConfirmMode::DisconnectPeer && yes && s.selected == Some(
            i,
        ) && i < s.contacts.len() ==> confirm_screen_step(s, k).1 == seq![
            CmdView::Disconnect(s.contacts[i as int].id),
        ],
        k.code == KeyCode::Enter ==> confirm_screen_step(s, k).1.len() <= 1,
        (k.code == KeyCode::Left || k.code == KeyCode::Right) ==> confirm_screen_step(s, k) == (
            AppView {
                screen: ScreenView::ConfirmScreen { prompt, yes_selected: !yes, mode },
                ..s
            },
            Seq::<CmdView>::empty(),
        ),
        k.code == KeyCode::Esc ==> confirm_screen_step(s, k).0.screen == ScreenView::Blank
            && confirm_screen_step(s, k).1 == Seq::<CmdView>::empty(),
{
}

} // verus!
