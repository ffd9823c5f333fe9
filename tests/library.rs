use agent_browser::channel::{
    check_reply, decode_reply, encode_request, transport_error, ChannelError, Envelope, IoFailure,
    Param, ReplyFields, Stage,
};
use agent_browser::classify::{classify, is_uuid, SessionKind};
use agent_browser::cloud::{cloud_request, cloud_sessions, headed_launch_request, CloudQuery};
use agent_browser::naming::{join_path, record_file_name, session_name_from_file_name, socket_file_name};
use agent_browser::pid::{parse_decimal_i32, parse_pid};
use agent_browser::registry::{find_local_sessions, status_of, RecordFile, RegistryError};
use agent_browser::supervisor::{StartAction, StartError, StartEvent, StartPhase, Supervisor};
use agent_browser::terminate::{KillAction, KillError, KillEvent, Killer};

fn record(file_name: &str, contents: Option<&str>) -> RecordFile {
    RecordFile { file_name: file_name.to_string(), contents: contents.map(|c| c.to_string()) }
}

#[test]
fn uuid_token_is_remote() {
    assert!(is_uuid("550e8400-e29b-41d4-a716-446655440000"));
    assert_eq!(classify("550e8400-e29b-41d4-a716-446655440000"), SessionKind::Remote);
}

#[test]
fn uuid_upper_case_hex_is_remote() {
    assert!(is_uuid("550E8400-E29B-41D4-A716-446655440000"));
}

#[test]
fn uuid_with_non_hex_character_is_local() {
    assert!(!is_uuid("550e8400-e29b-41d4-a716-44665544000g"));
    assert_eq!(classify("550e8400-e29b-41d4-a716-44665544000g"), SessionKind::Local);
}

#[test]
fn uuid_with_wrong_grouping_is_local() {
    assert!(!is_uuid("550e8400e-29b-41d4-a716-446655440000"));
    assert!(!is_uuid("550e8400-e29b-41d4-a716-44665544-000"));
    assert!(!is_uuid("550e8400-e29b-41d4-a716-4466554400000"));
    assert!(!is_uuid("550e8400-e29b-41d4-a716-44665544000"));
}

#[test]
fn ordinary_names_are_local() {
    assert_eq!(classify(""), SessionKind::Local);
    assert_eq!(classify("default"), SessionKind::Local);
    assert_eq!(classify("ééééééééé-e29b-41d4-a716-446655440000"), SessionKind::Local);
}

#[test]
fn file_names_follow_the_convention() {
    assert_eq!(record_file_name("foo"), "agent-browser-foo.pid");
    assert_eq!(socket_file_name("foo"), "agent-browser-foo.sock");
}

#[test]
fn session_name_is_read_back_from_record_name() {
    assert_eq!(session_name_from_file_name("agent-browser-foo.pid"), Some("foo".to_string()));
    assert_eq!(session_name_from_file_name("agent-browser-a.b.pid"), Some("a.b".to_string()));
    assert_eq!(session_name_from_file_name("agent-browser-.pid"), None);
    assert_eq!(session_name_from_file_name("agent-browser-foo.sock"), None);
    assert_eq!(session_name_from_file_name("other-foo.pid"), None);
    assert_eq!(session_name_from_file_name("agent-browser-foo.pid.bak"), None);
}

#[test]
fn paths_are_joined_with_one_separator() {
    assert_eq!(join_path("/tmp", "agent-browser-foo.sock"), "/tmp/agent-browser-foo.sock");
    assert_eq!(join_path("/tmp/", "agent-browser-foo.sock"), "/tmp/agent-browser-foo.sock");
}

#[test]
fn decimal_numbers_are_parsed() {
    assert_eq!(parse_decimal_i32("4242"), Some(4242));
    assert_eq!(parse_decimal_i32("+7"), Some(7));
    assert_eq!(parse_decimal_i32("-12"), Some(-12));
    assert_eq!(parse_decimal_i32("007"), Some(7));
    assert_eq!(parse_decimal_i32("2147483647"), Some(i32::MAX));
    assert_eq!(parse_decimal_i32("-2147483648"), Some(i32::MIN));
}

#[test]
fn malformed_numbers_are_rejected() {
    assert_eq!(parse_decimal_i32(""), None);
    assert_eq!(parse_decimal_i32("-"), None);
    assert_eq!(parse_decimal_i32("+"), None);
    assert_eq!(parse_decimal_i32("12a"), None);
    assert_eq!(parse_decimal_i32(" 42"), None);
    assert_eq!(parse_decimal_i32("2147483648"), None);
    assert_eq!(parse_decimal_i32("-2147483649"), None);
    assert_eq!(parse_decimal_i32("99999999999999999999"), None);
    assert_eq!(parse_decimal_i32("４２"), None);
}

#[test]
fn record_text_is_trimmed_before_parsing() {
    assert_eq!(parse_pid("4242\n"), Some(4242));
    assert_eq!(parse_pid("  17 \t"), Some(17));
    assert_eq!(parse_pid("\n"), None);
}

#[test]
fn empty_registry_lists_nothing() {
    let files: Vec<RecordFile> = Vec::new();
    let found = find_local_sessions("/tmp", &files, |_| true, |_| true);
    assert!(found.is_empty());
}

#[test]
fn registry_lists_records_sorted_and_skips_malformed() {
    let files = vec![
        record("agent-browser-zeta.pid", Some("30\n")),
        record("agent-browser-alpha.pid", Some("10")),
        record("agent-browser-broken.pid", Some("not a pid")),
        record("agent-browser-unreadable.pid", None),
        record("agent-browser-alpha.sock", None),
        record("notes.txt", Some("5")),
        record("agent-browser-mid.pid", Some("20")),
    ];
    let found = find_local_sessions("/tmp", &files, |pid| pid != 20, |path| path.ends_with("zeta.sock"));
    let names: Vec<&str> = found.iter().map(|s| s.name.as_str()).collect();
    assert_eq!(names, vec!["alpha", "mid", "zeta"]);
    assert_eq!(found[0].pid, 10);
    assert!(found[0].running);
    assert!(!found[1].running);
    assert_eq!(found[2].socket_path, "/tmp/agent-browser-zeta.sock");
    assert!(found[2].socket_exists);
    assert!(!found[0].socket_exists);
}

#[test]
fn dead_process_status_is_not_running() {
    let status = status_of("/tmp", "foo", Some("4242".to_string()), |_| false, |_| false).unwrap();
    assert_eq!(status.name, "foo");
    assert_eq!(status.pid, 4242);
    assert!(!status.running);
    assert_eq!(status.socket_path, "/tmp/agent-browser-foo.sock");
}

#[test]
fn status_without_record_is_not_found() {
    let r = status_of("/tmp", "foo", None, |_| true, |_| true);
    assert_eq!(r.unwrap_err(), RegistryError::NotFound);
}

#[test]
fn status_with_malformed_record_is_not_found() {
    let r = status_of("/tmp", "foo", Some("junk".to_string()), |_| true, |_| true);
    assert_eq!(r.unwrap_err(), RegistryError::NotFound);
}

#[test]
fn non_positive_pid_is_never_running() {
    let status = status_of("/tmp", "foo", Some("0".to_string()), |_| true, |_| true).unwrap();
    assert_eq!(status.pid, 0);
    assert!(!status.running);
    let status = status_of("/tmp", "foo", Some("-1".to_string()), |_| true, |_| true).unwrap();
    assert!(!status.running);
    let files = vec![record("agent-browser-zero.pid", Some("0"))];
    let found = find_local_sessions("/tmp", &files, |_| true, |_| true);
    assert_eq!(found.len(), 1);
    assert!(!found[0].running);
}

#[test]
fn terminate_never_signals_a_non_positive_pid() {
    let (_, action) = Killer::start(Some("0".to_string()));
    assert_eq!(action, KillAction::Fail(KillError::MalformedRecord));
    let (_, action) = Killer::start(Some("-1".to_string()));
    assert_eq!(action, KillAction::Fail(KillError::MalformedRecord));
}

#[test]
fn control_characters_are_escaped_in_requests() {
    let e = Envelope {
        id: "\u{1}\\".to_string(),
        action: "a\tb\r\u{8}\u{c}/".to_string(),
        params: Vec::new(),
    };
    assert_eq!(
        encode_request(&e),
        "{\"id\":\"\\u0001\\\\\",\"action\":\"a\\tb\\r\\b\\f/\"}\n"
    );
}

#[test]
fn terminate_without_record_is_not_found_and_sends_no_signal() {
    let (killer, action) = Killer::start(None);
    assert_eq!(action, KillAction::Fail(KillError::NotFound));
    assert_eq!(killer.phase, agent_browser::terminate::KillPhase::Finished);
}

#[test]
fn terminate_with_malformed_record_fails() {
    let (_, action) = Killer::start(Some("pid?".to_string()));
    assert_eq!(action, KillAction::Fail(KillError::MalformedRecord));
}

#[test]
fn terminate_accepted_signal_cleans_up() {
    let (mut killer, action) = Killer::start(Some("4242\n".to_string()));
    assert_eq!(action, KillAction::Signal(4242));
    assert_eq!(killer.step(KillEvent::Signalled(true)), KillAction::Cleanup);
    assert_eq!(killer.step(KillEvent::CleanedUp), KillAction::Killed(4242));
}

#[test]
fn terminate_rejected_signal_with_live_process_fails_after_cleanup() {
    let (mut killer, _) = Killer::start(Some("77".to_string()));
    assert_eq!(killer.step(KillEvent::Signalled(false)), KillAction::ProbeAlive(77));
    assert_eq!(killer.step(KillEvent::AliveAfter(true)), KillAction::Cleanup);
    assert_eq!(
        killer.step(KillEvent::CleanedUp),
        KillAction::Fail(KillError::TerminationFailed { pid: 77 })
    );
}

#[test]
fn terminate_rejected_signal_with_dead_process_succeeds() {
    let (mut killer, _) = Killer::start(Some("77".to_string()));
    assert_eq!(killer.step(KillEvent::Signalled(false)), KillAction::ProbeAlive(77));
    assert_eq!(killer.step(KillEvent::AliveAfter(false)), KillAction::Cleanup);
    assert_eq!(killer.step(KillEvent::CleanedUp), KillAction::Killed(77));
}

#[test]
fn reachable_worker_is_not_spawned_twice() {
    for _ in 0..2 {
        let mut s = Supervisor::new(false, 5);
        assert_eq!(s.step(StartEvent::Reachable(true)), StartAction::Ready);
        assert_eq!(s.phase, StartPhase::Finished);
    }
}

#[test]
fn unreachable_worker_is_spawned_once_and_polled_until_ready() {
    let mut s = Supervisor::new(true, 5);
    assert_eq!(s.step(StartEvent::Reachable(false)), StartAction::Spawn { headed: true });
    assert_eq!(s.step(StartEvent::Spawned(true)), StartAction::WaitAndPoll);
    assert_eq!(s.step(StartEvent::Polled(false)), StartAction::WaitAndPoll);
    assert_eq!(s.step(StartEvent::Polled(false)), StartAction::WaitAndPoll);
    assert_eq!(s.step(StartEvent::Polled(true)), StartAction::Ready);
}

#[test]
fn startup_times_out_after_the_ceiling() {
    let mut s = Supervisor::new(false, 3);
    assert_eq!(s.step(StartEvent::Reachable(false)), StartAction::Spawn { headed: false });
    assert_eq!(s.step(StartEvent::Spawned(true)), StartAction::WaitAndPoll);
    assert_eq!(s.step(StartEvent::Polled(false)), StartAction::WaitAndPoll);
    assert_eq!(s.step(StartEvent::Polled(false)), StartAction::WaitAndPoll);
    assert_eq!(s.step(StartEvent::Polled(false)), StartAction::Fail(StartError::StartupTimeout));
}

#[test]
fn failed_launch_is_reported() {
    let mut s = Supervisor::new(false, 0);
    assert_eq!(s.max_polls, 1);
    assert_eq!(s.step(StartEvent::Reachable(false)), StartAction::Spawn { headed: false });
    assert_eq!(s.step(StartEvent::Spawned(false)), StartAction::Fail(StartError::SpawnFailed));
}

#[test]
fn ping_request_is_one_json_line() {
    let e = Envelope { id: "1".to_string(), action: "ping".to_string(), params: Vec::new() };
    assert_eq!(encode_request(&e), "{\"id\":\"1\",\"action\":\"ping\"}\n");
}

#[test]
fn request_fields_are_quoted_and_escaped() {
    let e = Envelope {
        id: "a\"b".to_string(),
        action: "fill".to_string(),
        params: vec![
            ("text".to_string(), Param::Text("x\ny".to_string())),
            ("force".to_string(), Param::Flag(true)),
        ],
    };
    assert_eq!(
        encode_request(&e),
        "{\"id\":\"a\\\"b\",\"action\":\"fill\",\"text\":\"x\\ny\",\"force\":true}\n"
    );
}

#[test]
fn matching_reply_is_accepted() {
    let r = decode_reply("7", "{\"id\":\"7\",\"success\":true,\"data\":{\"title\":\"T\"}}").unwrap();
    assert!(r.success);
    assert_eq!(r.data.unwrap()["title"], "T");
    assert!(r.error.is_none());
    let r = decode_reply("7", "{\"id\":\"7\",\"success\":false,\"error\":\"boom\"}").unwrap();
    assert!(!r.success);
    assert_eq!(r.error.as_deref(), Some("boom"));
}

#[test]
fn reply_with_other_id_is_protocol_error() {
    let r = decode_reply("1", "{\"id\":\"2\",\"success\":true,\"data\":{}}");
    assert_eq!(r.unwrap_err(), ChannelError::ProtocolError);
    let r = decode_reply("1", "{\"id\":1,\"success\":true}");
    assert_eq!(r.unwrap_err(), ChannelError::ProtocolError);
    let f = ReplyFields { id: Some("2".to_string()), success: Some(true), error: None, data: None };
    assert_eq!(check_reply("1", f).unwrap_err(), ChannelError::ProtocolError);
}

#[test]
fn unparseable_or_incomplete_reply_is_protocol_error() {
    assert_eq!(decode_reply("1", "not json").unwrap_err(), ChannelError::ProtocolError);
    assert_eq!(decode_reply("1", "").unwrap_err(), ChannelError::ProtocolError);
    assert_eq!(decode_reply("1", "{\"success\":true}").unwrap_err(), ChannelError::ProtocolError);
    assert_eq!(decode_reply("1", "{\"id\":\"1\"}").unwrap_err(), ChannelError::ProtocolError);
}

#[test]
fn no_listener_is_connection_refused() {
    assert_eq!(transport_error(Stage::Connect, IoFailure::Other), ChannelError::ConnectionRefused);
    assert_eq!(transport_error(Stage::Connect, IoFailure::TimedOut), ChannelError::ConnectionRefused);
}

#[test]
fn slow_worker_is_transport_timeout() {
    assert_eq!(transport_error(Stage::Read, IoFailure::TimedOut), ChannelError::TransportTimeout);
    assert_eq!(transport_error(Stage::Write, IoFailure::TimedOut), ChannelError::TransportTimeout);
    assert_eq!(transport_error(Stage::Read, IoFailure::Other), ChannelError::ConnectionRefused);
}

#[test]
fn cloud_queries_use_their_actions() {
    let e = cloud_request("9".to_string(), CloudQuery::Stop("abc".to_string()));
    assert_eq!(
        encode_request(&e),
        "{\"id\":\"9\",\"action\":\"bb_session_stop\",\"sessionId\":\"abc\"}\n"
    );
    let e = cloud_request("9".to_string(), CloudQuery::List);
    assert_eq!(encode_request(&e), "{\"id\":\"9\",\"action\":\"bb_session_list\"}\n");
    let e = cloud_request("9".to_string(), CloudQuery::Info("x".to_string()));
    assert_eq!(e.action, "bb_session_get");
    let e = cloud_request("9".to_string(), CloudQuery::Debug("x".to_string()));
    assert_eq!(e.action, "bb_session_debug");
    let e = headed_launch_request("3".to_string());
    assert_eq!(encode_request(&e), "{\"id\":\"3\",\"action\":\"launch\",\"headless\":false}\n");
}

#[test]
fn cloud_session_list_is_read_from_reply() {
    let reply = decode_reply("1", "{\"id\":\"1\",\"success\":true,\"data\":{\"sessions\":[{\"id\":\"a\"},{\"id\":\"b\"}]}}");
    let sessions = cloud_sessions(&reply);
    assert_eq!(sessions.len(), 2);
    assert_eq!(sessions[1]["id"], "b");
    let no_array = decode_reply("1", "{\"id\":\"1\",\"success\":true,\"data\":{\"sessions\":3}}");
    assert!(cloud_sessions(&no_array).is_empty());
    let failed = decode_reply("1", "{\"id\":\"1\",\"success\":false,\"error\":\"no key\"}");
    assert!(cloud_sessions(&failed).is_empty());
    assert!(cloud_sessions(&Err(ChannelError::ConnectionRefused)).is_empty());
}
