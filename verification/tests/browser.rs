use cmux_linux::browser::{
    agent_browser_candidates, agent_browser_socket_dir, parse_port, request_id, stream_port_from_text,
    BrowserManager, DaemonPoll, PortParseError, PreviewState, DAEMON_POLL_LIMIT,
};

#[test]
fn socket_dir_discovery_order() {
    assert_eq!(agent_browser_socket_dir(Some("/s"), Some("/r"), Some("/h"), "/tmp"), "/s");
    assert_eq!(agent_browser_socket_dir(Some(""), Some("/r"), Some("/h"), "/tmp"), "/r/agent-browser");
    assert_eq!(agent_browser_socket_dir(None, Some(""), Some("/h"), "/tmp"), "/h/.agent-browser");
    assert_eq!(agent_browser_socket_dir(None, None, None, "/tmp/"), "/tmp/agent-browser");
    assert_eq!(agent_browser_socket_dir(None, None, Some(""), "/tmp"), ".agent-browser");
}

#[test]
fn daemon_paths_use_session_name() {
    let m = BrowserManager::new();
    assert_eq!(m.session_name, "cmux");
    assert_eq!(m.preview_state, PreviewState::Empty);
    assert_eq!(m.daemon_socket_path("/run/user/1/agent-browser"), "/run/user/1/agent-browser/cmux.sock");
    assert_eq!(m.stream_port_path("/d/"), "/d/cmux.stream");
}

#[test]
fn daemon_poll_gives_up_after_limit() {
    let mut m = BrowserManager::new();
    for poll in 1..DAEMON_POLL_LIMIT {
        assert_eq!(m.record_daemon_poll(poll, false), DaemonPoll::KeepWaiting);
    }
    assert_eq!(m.record_daemon_poll(DAEMON_POLL_LIMIT, false), DaemonPoll::TimedOut);
    assert_eq!(m.preview_state, PreviewState::Empty);
    assert_eq!(m.record_daemon_poll(3, true), DaemonPoll::Ready);
    assert_eq!(m.preview_state, PreviewState::Connected);
}

#[test]
fn request_ids() {
    assert_eq!(request_id(0), "cmux-0");
    assert_eq!(request_id(18446744073709551615), "cmux-18446744073709551615");
}

#[test]
fn port_parsing_matches_std() {
    let cases = ["", "0", "65535", "65536", "+80", "+", "-", "-1", "8a", "99999x", "1x99999", "٣", "007", "  1"];
    for c in cases {
        let expected = c.parse::<u16>();
        let got = parse_port(c);
        match (expected, got) {
            (Ok(a), Ok(b)) => assert_eq!(a, b, "{:?}", c),
            (Err(e), Err(k)) => {
                let kind = match k {
                    PortParseError::Empty => std::num::IntErrorKind::Empty,
                    PortParseError::InvalidDigit => std::num::IntErrorKind::InvalidDigit,
                    PortParseError::PosOverflow => std::num::IntErrorKind::PosOverflow,
                };
                assert_eq!(e.kind(), &kind, "{:?}", c);
            }
            (a, b) => panic!("{:?}: std {:?}, library {:?}", c, a, b),
        }
    }
}

#[test]
fn stream_port_file_contents() {
    assert_eq!(stream_port_from_text("  9222\n"), Ok(9222));
    assert_eq!(
        stream_port_from_text(" 70000 \n"),
        Err("Failed to parse stream port '70000': number too large to fit in target type".to_string())
    );
    assert_eq!(
        stream_port_from_text("\n\t"),
        Err("Failed to parse stream port '': cannot parse integer from empty string".to_string())
    );
    assert_eq!(
        stream_port_from_text("port 1"),
        Err("Failed to parse stream port 'port 1': invalid digit found in string".to_string())
    );
}

#[test]
fn path_candidates_follow_path_order() {
    assert_eq!(
        agent_browser_candidates("/usr/bin:/opt/x/:"),
        vec!["/usr/bin/agent-browser", "/opt/x/agent-browser", "agent-browser"]
    );
    assert_eq!(agent_browser_candidates(""), vec!["agent-browser"]);
    assert_eq!(agent_browser_candidates("::"), vec!["agent-browser", "agent-browser", "agent-browser"]);
}
