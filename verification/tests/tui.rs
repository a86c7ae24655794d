use conan::comm::{IPCCmd, IPCRes};
use conan::records::{DBGroup, Peer, TuiChat};
use conan::tui::app::App;
use conan::tui::ipc::Outgoing;
use conan::tui::navigation::TerminalControl;
use conan::tui::screens::{
    ConfirmMode, InputMode, Key, KeyCode, LoadingMode, Mode, PaletteCommand, PaletteError, Screen,
    Tab,
};

fn key(code: KeyCode) -> Key {
    Key { code, control: false, shift: false, other_modifiers: false }
}

fn ch(c: char) -> Key {
    key(KeyCode::Char(c))
}

fn peer(id: u16, name: &str, connected: bool) -> Peer {
    let mut p = Peer::build(name, "addr.onion", true);
    p.id = id;
    p.connected = connected;
    p
}

fn group(id: u16, name: &str) -> DBGroup {
    let mut g = DBGroup::new(vec![id as u8], name.to_string());
    g.id = id;
    g
}

/// Self, two peers and two groups; the contacts pane has the focus.
fn app() -> App {
    let mut a = App::new();
    a.contacts = vec![peer(1, "Me", true), peer(2, "alice", true), peer(3, "bob", false)];
    a.groups = vec![group(7, "friends"), group(8, "work")];
    a.tab = Tab::Contact;
    a
}

fn text(chars: &[char]) -> String {
    chars.iter().collect()
}

#[test]
fn palette_command_try_from_known_words() {
    assert_eq!(PaletteCommand::try_from("newgroup"), Ok(PaletteCommand::NewGroup));
    assert_eq!(PaletteCommand::try_from("addtogroup"), Ok(PaletteCommand::AddToGroup));
}

#[test]
fn palette_command_try_from_unknown_word() {
    assert_eq!(PaletteCommand::try_from("NewGroup"), Err(PaletteError::NoSuchCommand));
    assert_eq!(PaletteCommand::try_from(""), Err(PaletteError::NoSuchCommand));
    assert_eq!(PaletteError::NoSuchCommand.message(), "No such Enum");
}

#[test]
fn next_idx_skips_group_header_and_wraps() {
    let mut a = app();
    a.next_idx();
    assert_eq!(a.selected, Some(0));
    a.next_idx();
    a.next_idx();
    assert_eq!(a.selected, Some(2));
    a.next_idx();
    assert_eq!(a.selected, Some(4));
    a.next_idx();
    assert_eq!(a.selected, Some(5));
    a.next_idx();
    assert_eq!(a.selected, Some(0));
}

#[test]
fn prev_idx_skips_group_header_and_wraps() {
    let mut a = app();
    a.selected = Some(0);
    a.prev_idx();
    assert_eq!(a.selected, Some(5));
    a.selected = Some(4);
    a.prev_idx();
    assert_eq!(a.selected, Some(2));
}

#[test]
fn up_undoes_down_on_every_entry() {
    let mut a = app();
    for start in [0usize, 1, 2, 4, 5] {
        a.selected = Some(start);
        a.next_idx();
        a.prev_idx();
        assert_eq!(a.selected, Some(start));
    }
}

#[test]
fn navigation_with_only_groups_starts_after_header() {
    let mut a = App::new();
    a.groups = vec![group(7, "friends"), group(8, "work")];
    a.selected = Some(2);
    a.next_idx();
    assert_eq!(a.selected, Some(1));
    a.prev_idx();
    assert_eq!(a.selected, Some(2));
}

#[test]
fn navigation_on_empty_list_does_nothing() {
    let mut a = App::new();
    a.next_idx();
    assert_eq!(a.selected, None);
    a.prev_idx();
    assert_eq!(a.selected, None);
}

#[test]
fn next_tab_enters_insert_mode_at_end_of_buffer() {
    let mut a = app();
    a.chat_buf = vec!['h', 'i'];
    a.next_tab();
    assert_eq!(a.tab, Tab::Chat);
    assert_eq!(a.mode, Mode::Insert { cursor_pos: 2 });
    a.next_tab();
    assert_eq!(a.tab, Tab::Contact);
    assert_eq!(a.mode, Mode::Normal);
}

#[test]
fn current_contact_distinguishes_peers_header_and_groups() {
    let mut a = app();
    assert_eq!(a.current_contact(), (true, None));
    a.selected = Some(1);
    assert_eq!(a.current_contact(), (true, Some(1)));
    a.selected = Some(3);
    assert_eq!(a.current_contact(), (false, None));
    a.selected = Some(5);
    assert_eq!(a.current_contact(), (false, Some(1)));
}

#[test]
fn typing_and_editing_the_chat_buffer() {
    let mut a = app();
    a.next_tab();
    for c in "helo".chars() {
        assert!(a.manage_keys(ch(c), "t").is_empty());
    }
    a.manage_keys(key(KeyCode::Left), "t");
    a.manage_keys(ch('l'), "t");
    assert_eq!(text(&a.chat_buf), "hello");
    a.manage_keys(key(KeyCode::Backspace), "t");
    assert_eq!(text(&a.chat_buf), "helo");
    a.manage_keys(key(KeyCode::Delete), "t");
    assert_eq!(text(&a.chat_buf), "hel");
    a.manage_keys(key(KeyCode::Right), "t");
    assert_eq!(a.mode, Mode::Insert { cursor_pos: 3 });
}

#[test]
fn enter_in_chat_sends_trimmed_text_to_connected_peer() {
    let mut a = app();
    a.selected = Some(1);
    a.next_tab();
    for c in "  hi there ".chars() {
        a.manage_keys(ch(c), "t");
    }
    let cmds = a.manage_keys(key(KeyCode::Enter), "12:00");
    assert_eq!(cmds, vec![IPCCmd::Text(2, "hi there".to_string())]);
    assert_eq!(a.chats.len(), 1);
    assert_eq!(a.chats[0].data, "hi there");
    assert_eq!(a.chats[0].sender_name, "You");
    assert_eq!(a.chats[0].time, "12:00");
    assert!(a.chat_buf.is_empty());
    assert_eq!(a.mode, Mode::Insert { cursor_pos: 0 });
}

#[test]
fn enter_in_chat_to_disconnected_peer_only_notifies() {
    let mut a = app();
    a.selected = Some(2);
    a.next_tab();
    a.manage_keys(ch('x'), "t");
    let cmds = a.manage_keys(key(KeyCode::Enter), "t");
    assert_eq!(cmds, vec![IPCCmd::Text(3, "x".to_string())]);
    assert_eq!(a.notification.as_deref(), Some("Contact not connected."));
    assert!(a.chats.is_empty());
    assert_eq!(a.chat_buf, vec!['x']);
}

#[test]
fn enter_in_chat_with_blank_buffer_sends_nothing() {
    let mut a = app();
    a.selected = Some(1);
    a.next_tab();
    a.manage_keys(ch(' '), "t");
    assert!(a.manage_keys(key(KeyCode::Enter), "t").is_empty());
}

#[test]
fn enter_in_chat_sends_to_group() {
    let mut a = app();
    a.selected = Some(5);
    a.next_tab();
    a.manage_keys(ch('y'), "t");
    let cmds = a.manage_keys(key(KeyCode::Enter), "t");
    assert_eq!(cmds, vec![IPCCmd::GroupText(8, "y".to_string())]);
    assert_eq!(a.chats.len(), 1);
}

#[test]
fn enter_on_peer_connects_and_asks_for_chats() {
    let mut a = app();
    a.selected = Some(2);
    let cmds = a.manage_keys(key(KeyCode::Enter), "t");
    assert_eq!(
        cmds,
        vec![IPCCmd::Connect(3), IPCCmd::ChatList { peer_id: 2, msg_amount: 50 }]
    );
    assert_eq!(
        a.active_screen,
        Screen::LoadingScreen {
            loading_text: "Connecting...".to_string(),
            mode: LoadingMode::PeerConnect(3)
        }
    );
}

#[test]
fn enter_on_self_opens_own_chat() {
    let mut a = app();
    a.selected = Some(0);
    let cmds = a.manage_keys(key(KeyCode::Enter), "t");
    assert_eq!(cmds, vec![IPCCmd::ChatList { peer_id: 1, msg_amount: 50 }]);
    assert_eq!(a.tab, Tab::Chat);
    assert_eq!(a.active_screen, Screen::Blank);
}

#[test]
fn enter_on_group_connects_to_it() {
    let mut a = app();
    a.selected = Some(4);
    let cmds = a.manage_keys(key(KeyCode::Enter), "t");
    assert_eq!(cmds, vec![IPCCmd::GroupConnect(7)]);
    assert_eq!(
        a.active_screen,
        Screen::LoadingScreen {
            loading_text: "Connecting to friends..".to_string(),
            mode: LoadingMode::GroupConnect(7)
        }
    );
}

#[test]
fn delete_key_asks_for_confirmation_with_name() {
    let mut a = app();
    a.selected = Some(1);
    a.manage_keys(ch('d'), "t");
    assert_eq!(
        a.active_screen,
        Screen::ConfirmScreen {
            prompt: "Are you sure you want to delete alice?".to_string(),
            yes_selected: false,
            mode: ConfirmMode::DeletePeer
        }
    );
}

#[test]
fn delete_key_refuses_self() {
    let mut a = app();
    a.selected = Some(0);
    a.manage_keys(ch('d'), "t");
    assert_eq!(a.notification.as_deref(), Some("Cannot delete Self"));
    assert_eq!(a.active_screen, Screen::Blank);
}

#[test]
fn confirmed_delete_of_group_sends_delete_group() {
    let mut a = app();
    a.selected = Some(5);
    a.manage_keys(ch('d'), "t");
    a.manage_keys(key(KeyCode::Right), "t");
    let cmds = a.manage_keys(key(KeyCode::Enter), "t");
    assert_eq!(cmds, vec![IPCCmd::DeleteGroup(8)]);
    assert_eq!(a.active_screen, Screen::Blank);
}

#[test]
fn declined_delete_sends_nothing() {
    let mut a = app();
    a.selected = Some(2);
    a.manage_keys(ch('d'), "t");
    let cmds = a.manage_keys(key(KeyCode::Enter), "t");
    assert!(cmds.is_empty());
    assert_eq!(a.active_screen, Screen::Blank);
}

#[test]
fn shift_d_on_unconnected_peer_notifies() {
    let mut a = app();
    a.selected = Some(2);
    let k = Key { code: KeyCode::Char('D'), control: false, shift: true, other_modifiers: false };
    a.manage_keys(k, "t");
    assert_eq!(a.notification.as_deref(), Some("Peer is not connected"));
}

#[test]
fn shift_d_then_yes_disconnects() {
    let mut a = app();
    a.selected = Some(1);
    let k = Key { code: KeyCode::Char('D'), control: false, shift: true, other_modifiers: false };
    a.manage_keys(k, "t");
    a.manage_keys(key(KeyCode::Left), "t");
    assert_eq!(a.manage_keys(key(KeyCode::Enter), "t"), vec![IPCCmd::Disconnect(2)]);
}

#[test]
fn shift_d_with_nothing_selected_notifies() {
    let mut a = app();
    let k = Key { code: KeyCode::Char('d'), control: false, shift: true, other_modifiers: false };
    a.manage_keys(k, "t");
    assert_eq!(a.notification.as_deref(), Some("No peer selected."));
}

#[test]
fn rename_peer_flow() {
    let mut a = app();
    a.selected = Some(1);
    a.manage_keys(ch('r'), "t");
    a.manage_keys(ch('2'), "t");
    let cmds = a.manage_keys(key(KeyCode::Enter), "t");
    assert_eq!(cmds, vec![IPCCmd::RenamePeer(2, "alice2".to_string())]);
    assert_eq!(a.active_screen, Screen::Blank);
}

#[test]
fn rename_self_is_refused() {
    let mut a = app();
    a.selected = Some(0);
    a.manage_keys(ch('r'), "t");
    assert_eq!(a.notification.as_deref(), Some("Cannot rename self."));
}

#[test]
fn rename_group_flow() {
    let mut a = app();
    a.selected = Some(4);
    a.manage_keys(ch('r'), "t");
    match &a.active_screen {
        Screen::InputScreen { input, cursor_pos, mode, .. } => {
            assert_eq!(text(input), "friends");
            assert_eq!(*cursor_pos, 7);
            assert_eq!(*mode, InputMode::RenameGroup);
        }
        other => panic!("unexpected screen {other:?}"),
    }
    a.manage_keys(key(KeyCode::Backspace), "t");
    let cmds = a.manage_keys(key(KeyCode::Enter), "t");
    assert_eq!(cmds, vec![IPCCmd::RenameGroup(7, "friend".to_string())]);
}

#[test]
fn rename_group_with_peer_selected_reports_position() {
    let mut a = app();
    a.selected = Some(1);
    a.active_screen = Screen::InputScreen {
        input: vec!['x'],
        cursor_pos: 1,
        prompt: " Rename Group ".to_string(),
        mode: InputMode::RenameGroup,
    };
    assert!(a.manage_keys(key(KeyCode::Enter), "t").is_empty());
    assert_eq!(a.notification.as_deref(), Some("idx: 1, contact len: 3"));
}

#[test]
fn new_peer_screen_adds_peer_on_port_80() {
    let mut a = app();
    a.manage_keys(ch('a'), "t");
    for c in "xyz.onion".chars() {
        a.manage_keys(ch(c), "t");
    }
    let cmds = a.manage_keys(key(KeyCode::Enter), "t");
    assert_eq!(cmds, vec![IPCCmd::AddPeer("xyz.onion".to_string(), 80)]);
}

#[test]
fn quit_needs_confirmation() {
    let mut a = app();
    a.manage_keys(ch('q'), "t");
    assert!(a.running);
    a.manage_keys(key(KeyCode::Left), "t");
    a.manage_keys(key(KeyCode::Enter), "t");
    assert!(!a.running);
}

#[test]
fn control_c_stops_from_any_screen() {
    let mut a = app();
    a.manage_keys(ch('a'), "t");
    let k = Key { code: KeyCode::Char('c'), control: true, shift: false, other_modifiers: false };
    assert!(a.manage_keys(k, "t").is_empty());
    assert!(!a.running);
}

#[test]
fn escape_closes_screens() {
    let mut a = app();
    a.manage_keys(ch('a'), "t");
    a.manage_keys(key(KeyCode::Esc), "t");
    assert_eq!(a.active_screen, Screen::Blank);
    a.active_screen = Screen::LoadingScreen {
        loading_text: "Connecting...".to_string(),
        mode: LoadingMode::StartServer,
    };
    a.manage_keys(key(KeyCode::Esc), "t");
    assert_eq!(a.active_screen, Screen::Blank);
    assert_eq!(a.notification.as_deref(), Some("Connecting..."));
}

#[test]
fn escape_leaves_the_chat() {
    let mut a = app();
    a.next_tab();
    a.manage_keys(key(KeyCode::Esc), "t");
    assert_eq!(a.tab, Tab::Contact);
    assert_eq!(a.mode, Mode::Normal);
}

#[test]
fn j_and_k_move_the_selection() {
    let mut a = app();
    a.manage_keys(ch('j'), "t");
    a.manage_keys(ch('j'), "t");
    assert_eq!(a.selected, Some(1));
    a.manage_keys(ch('k'), "t");
    assert_eq!(a.selected, Some(0));
}

#[test]
fn arrows_scroll_the_chat() {
    let mut a = app();
    a.tab = Tab::Chat;
    a.manage_keys(key(KeyCode::Up), "t");
    assert_eq!(a.chat_scroll, 5);
    a.manage_keys(key(KeyCode::Down), "t");
    a.manage_keys(key(KeyCode::Down), "t");
    assert_eq!(a.chat_scroll, 0);
}

#[test]
fn unfocused_arrow_is_refused() {
    let a = App::new();
    assert!(a.key_stops(key(KeyCode::Down)));
    assert!(!a.key_stops(key(KeyCode::Tab)));
}

#[test]
fn palette_new_group_with_and_without_name() {
    let mut a = app();
    let k = Key { code: KeyCode::Char('p'), control: true, shift: false, other_modifiers: false };
    a.manage_keys(k, "t");
    for c in "newgroup  team ".chars() {
        a.manage_keys(ch(c), "t");
    }
    let cmds = a.manage_keys(key(KeyCode::Enter), "t");
    assert_eq!(cmds, vec![IPCCmd::NewGroup(Some("team".to_string()))]);
    assert_eq!(a.active_screen, Screen::Blank);

    a.manage_keys(k, "t");
    for c in "newgroup".chars() {
        a.manage_keys(ch(c), "t");
    }
    assert_eq!(a.manage_keys(key(KeyCode::Enter), "t"), vec![IPCCmd::NewGroup(None)]);
}

#[test]
fn palette_add_to_group_finds_group_by_name() {
    let mut a = app();
    a.selected = Some(2);
    let k = Key { code: KeyCode::Char('p'), control: true, shift: false, other_modifiers: false };
    a.manage_keys(k, "t");
    for c in "addtogroup work".chars() {
        a.manage_keys(ch(c), "t");
    }
    assert_eq!(a.manage_keys(key(KeyCode::Enter), "t"), vec![IPCCmd::AddToGroup(8, 3)]);
}

#[test]
fn palette_reports_unknown_group_and_command() {
    let mut a = app();
    a.selected = Some(2);
    let k = Key { code: KeyCode::Char('p'), control: true, shift: false, other_modifiers: false };
    a.manage_keys(k, "t");
    for c in "addtogroup home".chars() {
        a.manage_keys(ch(c), "t");
    }
    assert!(a.manage_keys(key(KeyCode::Enter), "t").is_empty());
    assert_eq!(a.notification.as_deref(), Some("No such group with that name"));
    a.active_screen = Screen::CommandPalette { text: vec!['z'], cursor_pos: 1, options: vec![] };
    assert!(a.manage_keys(key(KeyCode::Enter), "t").is_empty());
    assert_eq!(a.notification.as_deref(), Some("Invalid Command"));
}

#[test]
fn ipc_failed_server_start_is_retried_after_pause() {
    let mut a = app();
    assert_eq!(
        a.manage_ipc(IPCRes::ServerStarted(false), "t"),
        Some(Outgoing::AfterPause(IPCCmd::StartServer))
    );
}

#[test]
fn ipc_server_started_closes_its_loading_screen() {
    let mut a = app();
    a.active_screen = Screen::LoadingScreen {
        loading_text: "Starting".to_string(),
        mode: LoadingMode::StartServer,
    };
    assert_eq!(a.manage_ipc(IPCRes::ServerStarted(true), "t"), None);
    assert_eq!(a.active_screen, Screen::Blank);
    assert_eq!(a.notification.as_deref(), Some("Server Started."));
}

#[test]
fn ipc_added_peer_is_connected_to() {
    let mut a = app();
    let out = a.manage_ipc(IPCRes::AddedPeer(peer(9, "carol", false)), "t");
    assert_eq!(out, Some(Outgoing::Now(IPCCmd::Connect(9))));
    assert_eq!(a.contacts.len(), 4);
    assert_eq!(
        a.active_screen,
        Screen::LoadingScreen {
            loading_text: "Adding peer...".to_string(),
            mode: LoadingMode::PeerConnect(9)
        }
    );
}

#[test]
fn ipc_failed_connection_is_retried() {
    let mut a = app();
    assert_eq!(
        a.manage_ipc(IPCRes::Connected(3, false), "t"),
        Some(Outgoing::AfterPause(IPCCmd::Connect(3)))
    );
    a.active_screen = Screen::LoadingScreen {
        loading_text: "Connecting...".to_string(),
        mode: LoadingMode::PeerConnect(3),
    };
    assert_eq!(a.manage_ipc(IPCRes::Connected(3, true), "t"), None);
    assert_eq!(a.active_screen, Screen::Blank);
    assert_eq!(a.notification.as_deref(), Some("Connected."));
}

#[test]
fn ipc_text_shows_only_for_selected_peer() {
    let mut a = app();
    a.contacts = vec![peer(0, "zero", true), peer(1, "Me", true)];
    a.selected = Some(1);
    a.manage_ipc(IPCRes::Text(1, "hey".to_string()), "now");
    assert_eq!(a.chats.len(), 1);
    assert_eq!(a.chats[0].sender_name, "They");
    a.manage_ipc(IPCRes::Text(0, "other".to_string()), "now");
    assert_eq!(a.chats.len(), 1);
}

#[test]
fn ipc_chat_list_replaces_chats_of_selected_peer() {
    let mut a = app();
    a.selected = Some(1);
    let chats = vec![TuiChat::build_at("old", "alice", "yesterday".to_string())];
    a.manage_ipc(IPCRes::ChatList { peer_id: 3, chats: chats.clone() }, "t");
    assert!(a.chats.is_empty());
    a.manage_ipc(IPCRes::ChatList { peer_id: 2, chats }, "t");
    assert_eq!(a.chats.len(), 1);
}

#[test]
fn ipc_lists_replace_contacts_and_groups() {
    let mut a = app();
    a.manage_ipc(IPCRes::PeerList(vec![peer(1, "Me", true)]), "t");
    assert_eq!(a.contacts.len(), 1);
    a.manage_ipc(IPCRes::GroupList(vec![]), "t");
    assert!(a.groups.is_empty());
}

#[test]
fn ipc_error_closes_loading_screen() {
    let mut a = app();
    a.active_screen = Screen::LoadingScreen {
        loading_text: "x".to_string(),
        mode: LoadingMode::GroupConnect(1),
    };
    a.manage_ipc(IPCRes::Error("boom".to_string()), "t");
    assert_eq!(a.active_screen, Screen::Blank);
    assert_eq!(a.notification.as_deref(), Some("boom"));
}

#[test]
fn ipc_renamed_peer_and_deleted_peer_notify() {
    let mut a = app();
    a.manage_ipc(IPCRes::RenamedPeer(2), "t");
    assert_eq!(a.notification.as_deref(), Some("Peer name changed to bob"));
    a.active_screen = Screen::ConfirmScreen {
        prompt: String::new(),
        yes_selected: true,
        mode: ConfirmMode::DeletePeer,
    };
    a.manage_ipc(IPCRes::DeletedPeer(3), "t");
    assert_eq!(a.notification.as_deref(), Some("Peer deleted."));
    assert_eq!(a.active_screen, Screen::Blank);
}
