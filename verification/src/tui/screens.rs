//! The screens, tabs and modes of the terminal front end.

use vstd::prelude::*;

verus! {

/// The focused pane.
#[derive(Debug, Clone, Copy, PartialEq, Eq, Structural)]
pub enum Tab {
    Contact,
    Chat,
    /// No pane has the focus yet.
    Unfocused,
}

/// What an input screen collects.
#[derive(Debug, Clone, Copy, PartialEq, Eq, Structural)]
pub enum InputMode {
    NewPeer,
    RenamePeer,
    RenameGroup,
}

/// What a confirmation screen asks about.
#[derive(Debug, Clone, Copy, PartialEq, Eq, Structural)]
pub enum ConfirmMode {
    Exit,
    DeletePeer,
    DisconnectPeer,
}

/// What a loading screen waits for.
#[derive(Debug, Clone, Copy, PartialEq, Eq, Structural)]
pub enum LoadingMode {
    PeerConnect(u16),
    StartServer,
    GroupConnect(u16),
}

/// Whether typed characters go into the chat buffer, and where.
#[derive(Debug, Clone, Copy, PartialEq, Eq, Structural)]
pub enum Mode {
    Normal,
    Insert { cursor_pos: usize },
}

/// The screen drawn over the panes. Text being edited is kept as
/// characters, and cursors count characters.
#[non_exhaustive]
#[allow(inconsistent_fields)]
#[derive(Debug, Clone, PartialEq, Eq)]
pub enum Screen {
    InputScreen { input: Vec<char>, cursor_pos: usize, prompt: String, mode: InputMode },
    LoadingScreen { loading_text: String, mode: LoadingMode },
    ConfirmScreen { prompt: String, yes_selected: bool, mode: ConfirmMode },
    CommandPalette { text: Vec<char>, cursor_pos: usize, options: Vec<String> },
    /// No screen over the panes.
    Blank,
}

/// A screen with its texts taken as character sequences.
#[verifier::ext_equal]
#[allow(inconsistent_fields)]
pub enum ScreenView {
    InputScreen { input: Seq<char>, cursor_pos: nat, prompt: Seq<char>, mode: InputMode },
    LoadingScreen { loading_text: Seq<char>, mode: LoadingMode },
    ConfirmScreen { prompt: Seq<char>, yes_selected: bool, mode: ConfirmMode },
    CommandPalette { text: Seq<char>, cursor_pos: nat, options: Seq<Seq<char>> },
    Blank,
}

impl View for Screen {
    type V = ScreenView;

    open spec fn view(&self) -> ScreenView {
        match self {
            Screen::InputScreen { input, cursor_pos, prompt, mode } => ScreenView::InputScreen {
                input: input@,
                cursor_pos: *cursor_pos as nat,
                prompt: prompt@,
                mode: *mode,
            },
            Screen::LoadingScreen { loading_text, mode } => ScreenView::LoadingScreen {
                loading_text: loading_text@,
                mode: *mode,
            },
            Screen::ConfirmScreen { prompt, yes_selected, mode } => ScreenView::ConfirmScreen {
                prompt: prompt@,
                yes_selected: *yes_selected,
                mode: *mode,
            },
            Screen::CommandPalette { text, cursor_pos, options } => ScreenView::CommandPalette {
                text: text@,
                cursor_pos: *cursor_pos as nat,
                options: options@.map_values(|o: String| o@),
            },
            Screen::Blank => ScreenView::Blank,
        }
    }
}

/// A command typed into the command palette.
#[derive(Debug, Clone, Copy, PartialEq, Eq, Structural)]
pub enum PaletteCommand {
    AddToGroup,
    NewGroup,
}

/// The palette text names no command.
#[derive(Debug, Clone, Copy, PartialEq, Eq, Structural)]
pub enum PaletteError {
    NoSuchCommand,
}

impl PaletteError {
    /// The message shown for the error.
    pub fn message(&self) -> (s: String)
        ensures
            s@ == "No such Enum"@,
    {
        "No such Enum".to_owned()
    }
}

/// The command that the word `value` names, if any.
pub open spec fn palette_command_of(value: Seq<char>) -> Option<PaletteCommand> {
    if value == "newgroup"@ {
        Some(PaletteCommand::NewGroup)
    } else if value == "addtogroup"@ {
        Some(PaletteCommand::AddToGroup)
    } else {
        None
    }
}

impl PaletteCommand {
    /// The command named by `value`: `newgroup` or `addtogroup`.
    pub fn try_from(value: &str) -> (r: Result<Self, PaletteError>)
        ensures
            match palette_command_of(value@) {
                Some(c) => r == Ok::<Self, PaletteError>(c),
                None => r == Err::<Self, PaletteError>(PaletteError::NoSuchCommand),
            },
    {
        let v = value.to_owned();
        if v == "newgroup".to_owned() {
            Ok(PaletteCommand::NewGroup)
        } else if v == "addtogroup".to_owned() {
            Ok(PaletteCommand::AddToGroup)
        } else {
            Err(PaletteError::NoSuchCommand)
        }
    }
}

/// A key as the front end reads it: its code and whether Control, Shift
/// or any other modifier was held.
#[derive(Debug, Clone, Copy, PartialEq, Eq, Structural)]
pub enum KeyCode {
    Char(char),
    Tab,
    Backspace,
    Delete,
    Enter,
    Left,
    Right,
    Up,
    Down,
    Esc,
    Other,
}

/// A key press.
#[derive(Debug, Clone, Copy, PartialEq, Eq, Structural)]
pub struct Key {
    pub code: KeyCode,
    pub control: bool,
    pub shift: bool,
    pub other_modifiers: bool,
}

impl Key {
    /// Control and no other modifier.
    pub open spec fn control_only(self) -> bool {
        self.control && !self.shift && !self.other_modifiers
    }
}

} // verus!
