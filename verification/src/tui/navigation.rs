//! Moving between the panes and through the contact list.
//!
//! The contact list shows the `c` peers at positions `0..c`, the group
//! header at `c` and the `g` groups at `c + 1 ..= c + g`. Moving down goes
//! to the next position that holds a peer or a group, from the last one
//! back to the first; moving up goes the other way.

use crate::tui::app::{App, AppView};
use crate::tui::screens::{Mode, Tab};
use vstd::prelude::*;

verus! {

/// Position `p` holds a peer or a group.
pub open spec fn selectable(p: int, c: int, g: int) -> bool {
    (0 <= p < c) || (c < p <= c + g)
}

/// The position below `i`, from the last position back to the first.
pub open spec fn next_position(i: int, c: int, g: int) -> int {
    if g == 0 {
        if i + 1 < c { i + 1 } else { 0 }
    } else if c == 0 {
        if i < g { i + 1 } else { 1 }
    } else if i < c - 1 {
        i + 1
    } else if i == c - 1 {
        c + 1
    } else if i < c + g {
        i + 1
    } else {
        0
    }
}

/// The position above `i`, from the first position round to the last.
pub open spec fn prev_position(i: int, c: int, g: int) -> int {
    if g == 0 {
        if i > 0 { i - 1 } else if c > 0 { c - 1 } else { 0 }
    } else if c == 0 {
        if i > 1 { i - 1 } else { g }
    } else if i == 0 {
        c + g
    } else if i == c + 1 {
        c - 1
    } else {
        i - 1
    }
}

/// The selection after moving down: the first position when nothing was
/// selected; unchanged when the list is empty.
pub open spec fn next_selection(sel: Option<usize>, c: nat, g: nat) -> Option<usize> {
    if c == 0 && g == 0 {
        sel
    } else {
        match sel {
            None => Some(0),
            Some(i) => Some(next_position(i as int, c as int, g as int) as usize),
        }
    }
}

/// The selection after moving up: the first position when nothing was
/// selected; unchanged when the list is empty.
pub open spec fn prev_selection(sel: Option<usize>, c: nat, g: nat) -> Option<usize> {
    if c == 0 && g == 0 {
        sel
    } else {
        match sel {
            None => Some(0),
            Some(i) => Some(prev_position(i as int, c as int, g as int) as usize),
        }
    }
}

/// `s` after moving the selection down.
pub open spec fn moved_down(s: AppView) -> AppView {
    if s.contacts.len() + s.groups.len() < usize::MAX {
        AppView { selected: next_selection(s.selected, s.contacts.len(), s.groups.len()), ..s }
    } else {
        s
    }
}

/// `s` after moving the selection up.
pub open spec fn moved_up(s: AppView) -> AppView {
    if s.contacts.len() + s.groups.len() < usize::MAX {
        AppView { selected: prev_selection(s.selected, s.contacts.len(), s.groups.len()), ..s }
    } else {
        s
    }
}

/// The state after the focus moves to the other pane. Entering the chat
/// pane starts editing at the end of the chat buffer.
pub open spec fn after_next_tab(s: AppView) -> AppView {
    match s.tab {
        Tab::Chat => AppView { tab: Tab::Contact, mode: Mode::Normal, ..s },
        _ => AppView { tab: Tab::Chat, mode: Mode::Insert { cursor_pos: s.chat_buf.len() as usize }, ..s },
    }
}

/// Moving the focus and the selection.
pub trait TerminalControl {
    fn next_tab(&mut self);
    fn next_idx(&mut self);
    fn prev_idx(&mut self);
}

impl TerminalControl for App {
    /// Moves the focus from the contacts to the chat, or back.
    fn next_tab(&mut self)
        ensures
            final(self)@ == after_next_tab(old(self)@),
    {
        match self.tab {
            Tab::Unfocused | Tab::Contact => {
                self.tab = Tab::Chat;
                self.mode = Mode::Insert { cursor_pos: self.chat_buf.len() };
            },
            Tab::Chat => {
                self.tab = Tab::Contact;
                self.mode = Mode::Normal;
            },
        }
    }

    /// Moves the selection down.
    fn next_idx(&mut self)
        ensures
            final(self)@ == moved_down(old(self)@),
    {
        let c_len = self.contacts.len();
        let g_len = self.groups.len();
        if c_len == 0 && g_len == 0 {
            return;
        }
        if c_len >= usize::MAX - g_len {
            return;
        }
        let next = match self.selected {
            Some(idx) => {
                if g_len == 0 {
                    if idx < c_len - 1 {
                        idx + 1
                    } else {
                        0
                    }
                } else if c_len == 0 {
                    if idx < g_len {
                        idx + 1
                    } else {
                        1
                    }
                } else if idx < c_len - 1 {
                    idx + 1
                } else if idx == c_len - 1 {
                    c_len + 1
                } else if idx < c_len + g_len {
                    idx + 1
                } else {
                    0
                }
            },
            None => 0,
        };
        self.selected = Some(next);
    }

    /// Moves the selection up.
    fn prev_idx(&mut self)
        ensures
            final(self)@ == moved_up(old(self)@),
    {
        let c_len = self.contacts.len();
        let g_len = self.groups.len();
        if c_len == 0 && g_len == 0 {
            return;
        }
        if c_len >= usize::MAX - g_len {
            return;
        }
        let prev = match self.selected {
            Some(idx) => {
                if g_len == 0 {
                    if idx > 0 {
                        idx - 1
                    } else {
                        c_len.saturating_sub(1)
                    }
                } else if c_len == 0 {
                    if idx > 1 {
                        idx - 1
                    } else {
                        g_len
                    }
                } else if idx == 0 {
                    c_len + g_len
                } else if idx == c_len + 1 {
                    c_len - 1
                } else {
                    idx - 1
                }
            },
            None => 0,
        };
        self.selected = Some(prev);
    }
}

/// Moving down lands on the next position that holds a peer or a group,
/// skipping the group header; past the last such position it wraps to the
/// first.
pub proof fn law_next_is_following_entry(i: int, c: int, g: int)
    requires
        0 <= i,
        0 <= c,
        0 <= g,
        c + g > 0,
    ensures
        selectable(next_position(i, c, g), c, g),
        next_position(i, c, g) > i ==> forall|p: int|
            i < p < next_position(i, c, g) ==> !selectable(p, c, g),
        next_position(i, c, g) <= i ==> (forall|p: int| p > i ==> !selectable(p, c, g)) && (
        forall|p: int| p < next_position(i, c, g) ==> !selectable(p, c, g)),
{
}

/// From a position that holds a peer or a group, moving up lands on the
/// previous such position, wrapping from the first to the last.
pub proof fn law_prev_is_preceding_entry(i: int, c: int, g: int)
    requires
        0 <= c,
        0 <= g,
        selectable(i, c, g),
    ensures
        selectable(prev_position(i, c, g), c, g),
        prev_position(i, c, g) < i ==> forall|p: int|
            prev_position(i, c, g) < p < i ==> !selectable(p, c, g),
        prev_position(i, c, g) >= i ==> (forall|p: int| p < i ==> !selectable(p, c, g)) && (
        forall|p: int| p > prev_position(i, c, g) ==> !selectable(p, c, g)),
{
}

/// Moving down and then up returns to a selected peer or group.
pub proof fn law_up_undoes_down(i: int, c: int, g: int)
    requires
        0 <= c,
        0 <= g,
        selectable(i, c, g),
    ensures
        prev_position(next_position(i, c, g), c, g) == i,
{
}

/// Moving up and then down returns to a selected peer or group.
pub proof fn law_down_undoes_up(i: int, c: int, g: int)
    requires
        0 <= c,
        0 <= g,
        selectable(i, c, g),
    ensures
        next_position(prev_position(i, c, g), c, g) == i,
{
}

/// Switching the pane twice from the contacts returns to the contacts,
/// out of insert mode, with nothing else changed.
pub proof fn law_tab_twice_from_contacts(s: AppView)
    requires
        s.tab == Tab::Contact,
        s.mode == Mode::Normal,
    ensures
        after_next_tab(after_next_tab(s)) == s,
{
}

} // verus!
