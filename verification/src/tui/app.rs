//! The front end's state.

use crate::records::{ChatLine, DBGroup, Peer, TuiChat};
use crate::tui::screens::{Mode, Screen, ScreenView, Tab};
use vstd::prelude::*;

verus! {

/// The state of the terminal front end.
///
/// The contact list shows the peers at positions `0..c`, a header for the
/// groups at position `c`, and the groups at `c + 1 ..= c + g`, where `c`
/// and `g` are the numbers of peers and groups. `selected` is the
/// highlighted position.
pub struct App {
    pub running: bool,
    pub tab: Tab,
    pub mode: Mode,
    pub chat_buf: Vec<char>,
    pub chat_scroll: u16,
    pub active_screen: Screen,
    pub notification: Option<String>,
    pub contacts: Vec<Peer>,
    pub groups: Vec<DBGroup>,
    pub selected: Option<usize>,
    pub chats: Vec<TuiChat>,
}

/// The state of the front end, with its texts taken as character sequences.
#[verifier::ext_equal]
pub struct AppView {
    pub running: bool,
    pub tab: Tab,
    pub mode: Mode,
    pub chat_buf: Seq<char>,
    pub chat_scroll: u16,
    pub screen: ScreenView,
    pub notification: Option<Seq<char>>,
    pub contacts: Seq<Peer>,
    pub groups: Seq<DBGroup>,
    pub selected: Option<usize>,
    pub chats: Seq<ChatLine>,
}

/// An optional text taken as a character sequence.
pub open spec fn text_view(t: Option<String>) -> Option<Seq<char>> {
    match t {
        Some(s) => Some(s@),
        None => None,
    }
}

impl View for App {
    type V = AppView;

    open spec fn view(&self) -> AppView {
        AppView {
            running: self.running,
            tab: self.tab,
            mode: self.mode,
            chat_buf: self.chat_buf@,
            chat_scroll: self.chat_scroll,
            screen: self.active_screen@,
            notification: text_view(self.notification),
            contacts: self.contacts@,
            groups: self.groups@,
            selected: self.selected,
            chats: self.chats@.map_values(|c: TuiChat| c@),
        }
    }
}

/// What the position `sel` designates in a list of `c` peers followed by
/// the group header and the groups: `(true, Some(i))` for the peer `i`,
/// `(false, Some(j))` for the group `j`, `(false, None)` for the header
/// and `(true, None)` when nothing is selected.
pub open spec fn contact_at(sel: Option<usize>, c: nat) -> (bool, Option<usize>) {
    match sel {
        None => (true, None),
        Some(s) => if s < c {
            (true, Some(s))
        } else if s == c {
            (false, None)
        } else {
            (false, Some((s - c - 1) as usize))
        },
    }
}

impl AppView {
    /// The selected contact, as `contact_at` describes it.
    pub open spec fn current_contact(self) -> (bool, Option<usize>) {
        contact_at(self.selected, self.contacts.len())
    }

    /// Cursors stay within the text they edit.
    pub open spec fn cursors_in_range(self) -> bool {
        &&& (self.mode matches Mode::Insert { cursor_pos } ==> cursor_pos <= self.chat_buf.len())
        &&& (self.screen matches ScreenView::InputScreen { input, cursor_pos, .. }
            ==> cursor_pos <= input.len())
        &&& (self.screen matches ScreenView::CommandPalette { text, cursor_pos, .. }
            ==> cursor_pos <= text.len())
    }
}

impl App {
    /// A front end with no peers, no groups and nothing selected.
    pub fn new() -> (app: Self)
        ensures
            app@.running,
            app@.tab == Tab::Unfocused,
            app@.mode == Mode::Normal,
            app@.chat_buf == Seq::<char>::empty(),
            app@.chat_scroll == 0,
            app@.screen == ScreenView::Blank,
            app@.notification is None,
            app@.contacts.len() == 0,
            app@.groups.len() == 0,
            app@.selected is None,
            app@.chats.len() == 0,
            app@.cursors_in_range(),
    {
        let app = App {
            running: true,
            tab: Tab::Unfocused,
            mode: Mode::Normal,
            chat_buf: Vec::new(),
            chat_scroll: 0,
            active_screen: Screen::Blank,
            notification: None,
            contacts: Vec::new(),
            groups: Vec::new(),
            selected: None,
            chats: Vec::new(),
        };
        assert(app.chats@.map_values(|c: TuiChat| c@).len() == 0);
        app
    }

    /// The selected contact: `(true, Some(i))` for the peer `i`,
    /// `(false, Some(j))` for the group `j`, `(false, None)` for the group
    /// header, `(true, None)` when nothing is selected.
    pub fn current_contact(&self) -> (r: (bool, Option<usize>))
        ensures
            r == self@.current_contact(),
    {
        let c = self.contacts.len();
        match self.selected {
            None => (true, None),
            Some(s) => {
                if s < c {
                    (true, Some(s))
                } else if s == c {
                    (false, None)
                } else {
                    (false, Some(s - c - 1))
                }
            },
        }
    }
}

} // verus!
