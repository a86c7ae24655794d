use conan::daemon::dial_again;
use conan::daemon::task_replies;
use conan::comm::{IPCCmd, IPCRes};
use conan::daemon::{
    attempt_failed, check_dial, connect_step, dial_started, fanout, handle_commands,
    mark_live_groups, mark_live_peers, members_to_dial, ConnectStep, DaemonTask,
};
use conan::records::{DBGroup, Peer};
use conan::comm::ConanGroupError;
use conan::invitations::{InvitationError, Invitations};
use std::collections::HashSet;

fn peer(id: u16, name: &str) -> Peer {
    let mut p = Peer::build(name, "addr.onion", true);
    p.id = id;
    p
}

#[test]
fn commands_become_tasks() {
    assert_eq!(handle_commands(IPCCmd::Tick, String::new()), DaemonTask::Tock);
    assert_eq!(
        handle_commands(IPCCmd::Text(1, "note".into()), String::new()),
        DaemonTask::StoreOwnText("note".into())
    );
    assert_eq!(
        handle_commands(IPCCmd::Text(4, "hi".into()), String::new()),
        DaemonTask::SendText(4, "hi".into())
    );
    assert_eq!(handle_commands(IPCCmd::Disconnect(1), String::new()), DaemonTask::Nothing);
    assert_eq!(handle_commands(IPCCmd::Disconnect(5), String::new()), DaemonTask::Shutdown(5));
}

#[test]
fn new_group_takes_given_or_generated_name() {
    assert_eq!(
        handle_commands(IPCCmd::NewGroup(Some("team".into())), "bakuro".into()),
        DaemonTask::CreateGroup("team".into())
    );
    assert_eq!(
        handle_commands(IPCCmd::NewGroup(None), "bakuro".into()),
        DaemonTask::CreateGroup("bakuro".into())
    );
}

#[test]
fn connect_step_follows_waitlist() {
    let mut waitlist = HashSet::new();
    assert_eq!(connect_step(&mut waitlist, 4, false), ConnectStep::Dial);
    assert_eq!(dial_started(&mut waitlist, 4), IPCRes::Connected(4, false));
    assert_eq!(connect_step(&mut waitlist, 4, false), ConnectStep::StillDialing);
    assert_eq!(ConnectStep::StillDialing.reply(4), IPCRes::Connected(4, false));
    assert_eq!(connect_step(&mut waitlist, 4, true), ConnectStep::AlreadyConnected);
    assert!(!waitlist.contains(&4));
    assert_eq!(ConnectStep::AlreadyConnected.reply(4), IPCRes::Connected(4, true));
}

#[test]
fn dialing_self_is_refused() {
    let (go, replies) = check_dial("me.onion", Some("me.onion"), None, false);
    assert!(!go);
    assert_eq!(replies, vec![IPCRes::Error("Cannot connect to Self.".into())]);
}

#[test]
fn dialing_a_live_peer_reports_it() {
    let p = peer(6, "dora");
    let (go, replies) = check_dial("addr.onion", Some("me.onion"), Some(&p), true);
    assert!(!go);
    assert_eq!(
        replies,
        vec![
            IPCRes::Connected(6, true),
            IPCRes::Notification("Already connected to dora".into())
        ]
    );
    let (go, replies) = check_dial("addr.onion", Some("me.onion"), Some(&p), false);
    assert!(go);
    assert!(replies.is_empty());
}

#[test]
fn failed_attempts_are_reported() {
    assert_eq!(
        attempt_failed(2),
        IPCRes::Notification("Retrying Connection. [2/5]".into())
    );
    assert_eq!(
        attempt_failed(5),
        IPCRes::Error("Failed to Connect.\nPlease check your Internet connection".into())
    );
}

#[test]
fn peers_are_marked_by_live_connections() {
    let mut peers = vec![peer(1, "Me"), peer(2, "a"), peer(3, "b")];
    peers[2].connected = true;
    let live: HashSet<u16> = [2u16].into_iter().collect();
    mark_live_peers(&mut peers, &live);
    assert_eq!(
        peers.iter().map(|p| p.connected).collect::<Vec<_>>(),
        vec![false, true, false]
    );
}

#[test]
fn groups_are_marked_when_loaded() {
    let mut groups = vec![DBGroup::new(vec![1], "a".into()), DBGroup::new(vec![2], "b".into())];
    groups[0].id = 1;
    groups[1].id = 2;
    groups[1].connected = true;
    let live: HashSet<u16> = [1u16].into_iter().collect();
    mark_live_groups(&mut groups, &live);
    assert!(groups[0].connected);
    assert!(groups[1].connected);
}

#[test]
fn group_members_to_dial_skip_self_and_live() {
    let members = vec![peer(1, "Me"), peer(2, "a"), peer(3, "b"), peer(4, "c")];
    let live: HashSet<u16> = [3u16].into_iter().collect();
    let ids: Vec<u16> = members_to_dial(members, &live).iter().map(|p| p.id).collect();
    assert_eq!(ids, vec![2, 4]);
}

#[test]
fn group_messages_go_to_live_known_members() {
    let live: HashSet<u16> = [2u16, 5].into_iter().collect();
    assert_eq!(fanout(&vec![Some(2), None, Some(3), Some(5)], &live), vec![2, 5]);
}

#[test]
fn invitations_are_found_until_settled() {
    let mut inv = Invitations::new();
    assert_eq!(inv.invited_group(3), Err(ConanGroupError::NotFound));
    inv.invite(3, vec![1, 2, 3]);
    assert_eq!(inv.invited_group(3), Ok(vec![1, 2, 3]));
    inv.invite(3, vec![9]);
    assert_eq!(inv.invited_group(3), Ok(vec![9]));
    assert_eq!(inv.settle(3), Some(vec![9]));
    assert_eq!(inv.invited_group(3), Err(ConanGroupError::NotFound));
    assert_eq!(inv.settle(3), None);
}

#[test]
fn withdrawing_without_invitation_fails() {
    let mut inv = Invitations::new();
    let err = inv.withdraw(4).unwrap_err();
    assert_eq!(err, InvitationError::NotPending);
    assert_eq!(err.message(), "Could not remove group.");
    inv.invite(4, vec![7]);
    assert_eq!(inv.withdraw(4), Ok(vec![7]));
}

#[test]
fn fixed_replies_of_tasks() {
    assert_eq!(task_replies(&DaemonTask::Tock, false), vec![IPCRes::Tock]);
    assert_eq!(task_replies(&DaemonTask::ReportServer, true), vec![IPCRes::ServerStarted(true)]);
    assert_eq!(
        task_replies(&DaemonTask::StoreOwnText("hi".to_string()), false),
        vec![IPCRes::Text(1, "hi".to_string())]
    );
    assert_eq!(task_replies(&DaemonTask::DeletePeer(4), false), vec![IPCRes::DeletedPeer(4)]);
    assert_eq!(
        task_replies(&DaemonTask::RenameGroup(2, "g".to_string()), false),
        vec![IPCRes::RenamedGroup(2)]
    );
    assert_eq!(task_replies(&DaemonTask::ListPeers, true), vec![]);
}

#[test]
fn dial_again_until_the_fifth_attempt() {
    for attempt in 1u8..5 {
        assert!(dial_again(attempt));
    }
    assert!(!dial_again(5));
}
