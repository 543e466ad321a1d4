use ssher::error::{exit_code, SessionError};
use ssher::geometry::Geometry;
use ssher::model::Server;
use ssher::session::{Action, ChannelOp, ChannelState, Event, Phase, Session};
use ssher::terminal::RawModeGuard;

fn profile(host: &str, password: Option<&str>) -> Server {
    let mut server = Server::new(host.to_string());
    server.user = "test".to_string();
    server.password = password.map(|p| p.to_string());
    server
}

fn size(cols: u16, rows: u16) -> Geometry {
    Geometry::new(cols, rows).unwrap()
}

/// A session for `host` that has come as far as waiting in the pump, on a
/// terminal of 80 by 24 that was in cooked mode.
fn pumping(host: &str) -> Session {
    let mut s = Session::with_key_path(profile(host, None), "/keys/id".to_string());
    s.step(Event::Begin);
    if s.phase() == Phase::Resolving {
        s.step(Event::Addresses(vec!["192.0.2.1".to_string()]));
    }
    s.step(Event::Connected);
    s.step(Event::KeyLoaded);
    s.step(Event::Authenticated(true));
    s.step(Event::RawMode(false));
    s.step(Event::RawModeEnabled);
    s.step(Event::ChannelOpened);
    s.step(Event::Terminal { size: size(80, 24), term: None });
    s.step(Event::PtyGranted);
    assert_eq!(s.step(Event::ShellStarted), vec![Action::QuerySize]);
    assert_eq!(s.step(Event::Size(size(80, 24))), vec![Action::Wait]);
    assert_eq!(s.phase(), Phase::Waiting);
    s
}

#[test]
fn an_empty_password_falls_back_to_the_key() {
    let mut server = profile("127.0.0.1", Some(""));
    server.port = 22;
    let mut s = Session::with_key_path(server, "/home/test/.ssh/id_rsa".to_string());
    assert_eq!(
        s.step(Event::Begin),
        vec![Action::Connect { address: "127.0.0.1".to_string(), port: 22 }]
    );
    assert_eq!(
        s.step(Event::Connected),
        vec![Action::LoadKey { path: "/home/test/.ssh/id_rsa".to_string() }]
    );
    assert_eq!(s.phase(), Phase::LoadingKey);
    assert_eq!(
        s.step(Event::KeyLoaded),
        vec![Action::AuthenticateKey { user: "test".to_string() }]
    );
}

#[test]
fn a_password_is_decoded_and_used_alone() {
    let mut s = Session::with_key_path(profile("10.0.0.1", Some("aHVudGVyMg==")), "/k".to_string());
    s.step(Event::Begin);
    assert_eq!(
        s.step(Event::Connected),
        vec![Action::AuthenticatePassword {
            user: "test".to_string(),
            secret: "hunter2".to_string()
        }]
    );
    assert_eq!(s.phase(), Phase::Authenticating);
}

#[test]
fn a_malformed_password_is_a_credential_error() {
    for stored in ["***", "//4="] {
        let mut s = Session::with_key_path(profile("10.0.0.1", Some(stored)), "/k".to_string());
        s.step(Event::Begin);
        assert_eq!(s.step(Event::Connected), vec![]);
        assert_eq!(s.outcome(), Some(Err(SessionError::CredentialDecode)));
    }
}

#[test]
fn remote_data_then_exit_writes_both_and_ends_well() {
    let mut s = pumping("example.org");
    assert_eq!(
        s.step(Event::RemoteData(vec![0x68, 0x69])),
        vec![Action::Write(vec![0x68, 0x69]), Action::Flush, Action::QuerySize]
    );
    assert_eq!(s.step(Event::Size(size(80, 24))), vec![Action::Wait]);
    assert_eq!(
        s.step(Event::RemoteExit),
        vec![
            Action::DisableRawMode,
            Action::Notice("Connection to example.org closed.\r\n".to_string()),
            Action::SendEof,
            Action::Disconnect,
        ]
    );
    assert!(s.is_finished());
    assert_eq!(s.channel(), ChannelState::Closed);
    assert_eq!(s.outcome(), Some(Ok(())));
    assert_eq!(exit_code(&s.outcome().unwrap()), 0);
}

#[test]
fn the_end_of_local_input_sends_one_eof_and_ends_well() {
    let mut s = pumping("h");
    let actions = s.step(Event::Input(vec![]));
    assert_eq!(actions, vec![Action::SendEof, Action::DisableRawMode, Action::Disconnect]);
    assert_eq!(actions.iter().filter(|a| **a == Action::SendEof).count(), 1);
    assert!(!actions.contains(&Action::Wait));
    assert!(s.is_finished());
    assert_eq!(exit_code(&s.outcome().unwrap()), 0);
    assert_eq!(s.step(Event::RemoteExit), vec![]);
    assert_eq!(s.step(Event::Input(vec![])), vec![]);
}

#[test]
fn a_numeric_host_is_connected_to_without_a_lookup() {
    let mut s = Session::with_key_path(profile("198.51.100.7", None), "/k".to_string());
    assert_eq!(
        s.step(Event::Begin),
        vec![Action::Connect { address: "198.51.100.7".to_string(), port: 22 }]
    );
    assert_eq!(s.phase(), Phase::Connecting);
}

#[test]
fn a_name_is_looked_up_once_and_the_first_address_taken() {
    let mut s = Session::with_key_path(profile("example.org", None), "/k".to_string());
    assert_eq!(s.step(Event::Begin), vec![Action::Lookup("example.org".to_string())]);
    assert_eq!(s.phase(), Phase::Resolving);
    assert_eq!(
        s.step(Event::Addresses(vec!["203.0.113.5".to_string(), "203.0.113.6".to_string()])),
        vec![Action::Connect { address: "203.0.113.5".to_string(), port: 22 }]
    );
}

#[test]
fn a_lookup_without_addresses_is_a_resolution_error() {
    let mut s = Session::with_key_path(profile("example.org", None), "/k".to_string());
    s.step(Event::Begin);
    assert_eq!(s.step(Event::Addresses(vec![])), vec![]);
    assert_eq!(s.outcome(), Some(Err(SessionError::Resolution)));

    let mut s = Session::with_key_path(profile("example.org", None), "/k".to_string());
    s.step(Event::Begin);
    assert_eq!(s.step(Event::Failed), vec![]);
    assert_eq!(s.outcome(), Some(Err(SessionError::Resolution)));
}

#[test]
fn a_missing_key_file_is_a_key_error_with_a_failing_status() {
    let mut s = Session::with_key_path(profile("10.0.0.1", None), "/missing".to_string());
    s.step(Event::Begin);
    assert_eq!(s.step(Event::Connected), vec![Action::LoadKey { path: "/missing".to_string() }]);
    assert_eq!(s.step(Event::Failed), vec![]);
    assert!(s.is_finished());
    assert_eq!(s.outcome(), Some(Err(SessionError::KeyLoad)));
    assert_ne!(exit_code(&s.outcome().unwrap()), 0);
    assert_eq!(s.guard(), None);
}

#[test]
fn every_setup_failure_has_its_error() {
    let script: Vec<(Event, SessionError, Vec<Action>)> = vec![
        (Event::Connected, SessionError::Connect, vec![]),
        (Event::KeyLoaded, SessionError::KeyLoad, vec![]),
        (Event::Authenticated(true), SessionError::Authentication, vec![]),
        (Event::RawMode(false), SessionError::TerminalQuery, vec![Action::Disconnect]),
        (Event::RawModeEnabled, SessionError::TerminalQuery, vec![Action::Disconnect]),
        (
            Event::ChannelOpened,
            SessionError::ChannelOpen,
            vec![Action::DisableRawMode, Action::Disconnect],
        ),
        (
            Event::Terminal { size: size(80, 24), term: None },
            SessionError::TerminalQuery,
            vec![Action::DisableRawMode, Action::Disconnect],
        ),
        (
            Event::PtyGranted,
            SessionError::PtyRequest,
            vec![Action::DisableRawMode, Action::Disconnect],
        ),
        (
            Event::ShellStarted,
            SessionError::ShellRequest,
            vec![Action::DisableRawMode, Action::Disconnect],
        ),
        (
            Event::Size(size(80, 24)),
            SessionError::TerminalQuery,
            vec![Action::DisableRawMode, Action::Disconnect],
        ),
        (Event::RemoteOther, SessionError::Io, vec![Action::DisableRawMode, Action::Disconnect]),
    ];
    for stop in 0..script.len() {
        let mut s = Session::with_key_path(profile("10.0.0.1", None), "/k".to_string());
        s.step(Event::Begin);
        for (i, (event, error, cleanup)) in script.iter().enumerate() {
            if i == stop {
                assert_eq!(&s.step(Event::Failed), cleanup, "step {}", i);
                assert_eq!(s.outcome(), Some(Err(*error)), "step {}", i);
                assert_eq!(exit_code(&s.outcome().unwrap()), 1);
                break;
            }
            let event = match event {
                Event::Connected => Event::Connected,
                Event::KeyLoaded => Event::KeyLoaded,
                Event::Authenticated(ok) => Event::Authenticated(*ok),
                Event::RawMode(active) => Event::RawMode(*active),
                Event::RawModeEnabled => Event::RawModeEnabled,
                Event::ChannelOpened => Event::ChannelOpened,
                Event::Terminal { size, .. } => Event::Terminal { size: *size, term: None },
                Event::PtyGranted => Event::PtyGranted,
                Event::ShellStarted => Event::ShellStarted,
                Event::Size(g) => Event::Size(*g),
                _ => Event::RemoteOther,
            };
            s.step(event);
        }
    }
}

#[test]
fn a_rejected_authentication_is_an_authentication_error() {
    let mut s = Session::with_key_path(profile("10.0.0.1", None), "/k".to_string());
    s.step(Event::Begin);
    s.step(Event::Connected);
    s.step(Event::KeyLoaded);
    assert_eq!(s.step(Event::Authenticated(false)), vec![]);
    assert_eq!(s.outcome(), Some(Err(SessionError::Authentication)));
}

#[test]
fn the_pty_is_sized_to_the_terminal_and_typed_by_the_environment() {
    for (term, expected) in [(None, "xterm"), (Some("screen-256color"), "screen-256color"), (Some(""), "")] {
        let mut s = Session::with_key_path(profile("10.0.0.1", None), "/k".to_string());
        s.step(Event::Begin);
        s.step(Event::Connected);
        s.step(Event::KeyLoaded);
        assert_eq!(s.step(Event::Authenticated(true)), vec![Action::QueryRawMode]);
        assert_eq!(s.step(Event::RawMode(false)), vec![Action::EnableRawMode]);
        assert_eq!(s.step(Event::RawModeEnabled), vec![Action::OpenChannel]);
        assert_eq!(s.channel(), ChannelState::Unopened);
        assert_eq!(s.step(Event::ChannelOpened), vec![Action::QueryTerminal]);
        assert_eq!(s.channel(), ChannelState::Opened);
        assert_eq!(
            s.step(Event::Terminal { size: size(132, 43), term: term.map(|t| t.to_string()) }),
            vec![Action::RequestPty { term: expected.to_string(), size: size(132, 43) }]
        );
        assert_eq!(s.geometry(), Some(size(132, 43)));
        assert_eq!(s.step(Event::PtyGranted), vec![Action::RequestShell]);
        assert_eq!(s.channel(), ChannelState::PtyRequested);
        assert_eq!(s.step(Event::ShellStarted), vec![Action::QuerySize]);
        assert_eq!(s.channel(), ChannelState::ShellActive);
    }
}

#[test]
fn a_changed_size_is_sent_once_and_stored() {
    let mut s = pumping("h");
    assert_eq!(s.step(Event::RemoteOther), vec![Action::QuerySize]);
    assert_eq!(
        s.step(Event::Size(size(100, 30))),
        vec![Action::Resize(size(100, 30)), Action::Wait]
    );
    assert_eq!(s.geometry(), Some(size(100, 30)));
    assert_eq!(s.step(Event::RemoteOther), vec![Action::QuerySize]);
    assert_eq!(s.step(Event::Size(size(100, 30))), vec![Action::Wait]);
    assert_eq!(s.geometry(), Some(size(100, 30)));
    s.step(Event::RemoteOther);
    assert_eq!(
        s.step(Event::Size(size(100, 31))),
        vec![Action::Resize(size(100, 31)), Action::Wait]
    );
    s.step(Event::RemoteOther);
    assert_eq!(
        s.step(Event::Size(size(80, 24))),
        vec![Action::Resize(size(80, 24)), Action::Wait]
    );
}

#[test]
fn local_input_is_forwarded_in_order() {
    let mut s = pumping("h");
    let chunks: Vec<Vec<u8>> = vec![vec![1, 2, 3], vec![4], vec![5, 6], vec![0, 255]];
    let mut sent: Vec<u8> = Vec::new();
    for chunk in &chunks {
        for action in s.step(Event::Input(chunk.clone())) {
            if let Action::SendData(bytes) = action {
                sent.extend(bytes);
            }
        }
        s.step(Event::Size(size(80, 24)));
    }
    assert_eq!(sent, chunks.concat());
}

#[test]
fn remote_output_is_written_in_order_and_flushed() {
    let mut s = pumping("h");
    let chunks: Vec<Vec<u8>> = vec![vec![b'a'], vec![], vec![b'b', b'c'], vec![0x1b, b'[', b'm']];
    let mut written: Vec<u8> = Vec::new();
    for chunk in &chunks {
        let actions = s.step(Event::RemoteData(chunk.clone()));
        assert_eq!(actions[1], Action::Flush);
        if let Action::Write(bytes) = &actions[0] {
            written.extend(bytes);
        } else {
            panic!("no write");
        }
        s.step(Event::Size(size(80, 24)));
    }
    assert_eq!(written, chunks.concat());
}

#[test]
fn a_request_to_terminate_gives_raw_mode_back_and_leaves() {
    let mut s = pumping("h");
    assert_eq!(
        s.step(Event::Terminate),
        vec![
            Action::DisableRawMode,
            Action::Notice("Connection to h closed.\r\n".to_string()),
            Action::Exit,
        ]
    );
    assert!(s.is_finished());
    assert_eq!(s.outcome(), Some(Ok(())));

    let mut s = pumping("h");
    s.step(Event::RemoteOther);
    assert_eq!(s.phase(), Phase::PollingGeometry);
    assert_eq!(s.step(Event::Terminate).first(), Some(&Action::DisableRawMode));
}

#[test]
fn a_failed_output_is_an_io_error() {
    let mut s = pumping("h");
    assert_eq!(
        s.step(Event::RemoteData(vec![1])),
        vec![Action::Write(vec![1]), Action::Flush, Action::QuerySize]
    );
    assert_eq!(s.step(Event::OutputFailed), vec![Action::DisableRawMode, Action::Disconnect]);
    assert_eq!(s.outcome(), Some(Err(SessionError::Io)));

    let mut s = pumping("h");
    assert_eq!(s.step(Event::OutputFailed), vec![]);
    assert_eq!(s.phase(), Phase::Waiting);
}

#[test]
fn the_channel_follows_its_course() {
    let c = ChannelState::Unopened;
    assert_eq!(c.after(ChannelOp::Data), None);
    assert_eq!(c.after(ChannelOp::Close), None);
    let c = c.after(ChannelOp::Open).unwrap();
    assert_eq!(c, ChannelState::Opened);
    assert_eq!(c.after(ChannelOp::RequestShell), None);
    let c = c.after(ChannelOp::RequestPty).unwrap();
    assert_eq!(c, ChannelState::PtyRequested);
    let c = c.after(ChannelOp::RequestShell).unwrap();
    assert_eq!(c, ChannelState::ShellActive);
    assert_eq!(c.after(ChannelOp::Data), Some(ChannelState::ShellActive));
    assert_eq!(c.after(ChannelOp::Resize), Some(ChannelState::ShellActive));
    assert_eq!(c.after(ChannelOp::Open), None);
    assert_eq!(c.after(ChannelOp::Eof), Some(ChannelState::EofSent));
    assert_eq!(c.after(ChannelOp::RemoteExit), Some(ChannelState::RemoteExited));
    assert_eq!(ChannelState::EofSent.after(ChannelOp::Data), None);
    assert_eq!(ChannelState::EofSent.after(ChannelOp::Eof), None);
    assert_eq!(ChannelState::RemoteExited.after(ChannelOp::Eof), Some(ChannelState::RemoteExited));
    assert_eq!(ChannelState::RemoteExited.after(ChannelOp::Data), None);
    assert_eq!(ChannelState::EofSent.after(ChannelOp::Close), Some(ChannelState::Closed));
    assert_eq!(ChannelState::RemoteExited.after(ChannelOp::Close), Some(ChannelState::Closed));
    assert_eq!(ChannelState::Closed.after(ChannelOp::Close), None);
    assert_eq!(ChannelState::Closed.after(ChannelOp::Open), None);
}

#[test]
fn a_failure_in_the_pump_gives_raw_mode_back() {
    let mut s = pumping("h");
    assert_eq!(s.step(Event::Failed), vec![Action::DisableRawMode, Action::Disconnect]);
    assert_eq!(s.outcome(), Some(Err(SessionError::Io)));
    assert_eq!(s.guard().map(|g| g.released), Some(true));
}

#[test]
fn a_terminal_in_raw_mode_is_not_switched_again() {
    let mut s = Session::with_key_path(profile("10.0.0.1", None), "/k".to_string());
    s.step(Event::Begin);
    s.step(Event::Connected);
    s.step(Event::KeyLoaded);
    s.step(Event::Authenticated(true));
    assert_eq!(s.step(Event::RawMode(true)), vec![Action::OpenChannel]);
    assert_eq!(s.guard(), Some(RawModeGuard { enabled: true, released: false }));
    // the guard still gives raw mode back at the end
    assert_eq!(s.step(Event::Failed), vec![Action::DisableRawMode, Action::Disconnect]);
}

#[test]
fn raw_mode_is_given_back_once() {
    let mut s = pumping("h");
    let mut count = 0;
    for event in [Event::RemoteExit, Event::Terminate, Event::Failed, Event::Input(vec![])] {
        count += s.step(event).iter().filter(|a| **a == Action::DisableRawMode).count();
    }
    assert_eq!(count, 1);

    let (mut guard, switch_on) = RawModeGuard::new(false);
    assert!(switch_on);
    assert!(guard.is_live());
    assert!(guard.release());
    assert!(!guard.release());
    assert!(!guard.release());
    assert!(!guard.is_live());
    let (mut guard, switch_on) = RawModeGuard::new(true);
    assert!(!switch_on);
    assert!(guard.release());
    assert!(!guard.release());
}

#[test]
fn events_that_are_not_waited_for_change_nothing() {
    let mut s = Session::with_key_path(profile("10.0.0.1", None), "/k".to_string());
    for event in [Event::Connected, Event::Input(vec![1]), Event::Terminate, Event::Failed, Event::RemoteExit] {
        assert_eq!(s.step(event), vec![]);
        assert_eq!(s.phase(), Phase::Idle);
    }
    let mut s = pumping("h");
    assert_eq!(s.step(Event::Size(size(1, 1))), vec![]);
    assert_eq!(s.step(Event::Begin), vec![]);
    assert_eq!(s.phase(), Phase::Waiting);
    assert_eq!(s.geometry(), Some(size(80, 24)));
}

#[test]
fn the_key_path_has_the_home_directory_marker_expanded() {
    let mut server = profile("10.0.0.1", None);
    server.identity_file = Some("/etc/keys/id".to_string());
    let mut s = Session::new(server);
    s.step(Event::Begin);
    assert_eq!(s.step(Event::Connected), vec![Action::LoadKey { path: "/etc/keys/id".to_string() }]);

    for unmarked in ["~other/.ssh/id", "a~/b", "~"] {
        let mut server = profile("10.0.0.1", None);
        server.identity_file = Some(unmarked.to_string());
        let mut s = Session::new(server);
        s.step(Event::Begin);
        match s.step(Event::Connected).pop() {
            Some(Action::LoadKey { path }) => {
                if unmarked == "~" {
                    assert!(!path.starts_with('~'), "{}", path);
                } else {
                    assert_eq!(path, unmarked);
                }
            }
            other => panic!("{:?}", other),
        }
    }

    let mut server = profile("10.0.0.1", None);
    server.identity_file = None;
    let mut s = Session::new(server);
    s.step(Event::Begin);
    match s.step(Event::Connected).pop() {
        Some(Action::LoadKey { path }) => {
            assert!(path.ends_with("/.ssh/id_rsa"), "{}", path);
            assert!(!path.starts_with('~'), "{}", path);
        }
        other => panic!("{:?}", other),
    }
}

#[test]
fn geometry_has_no_empty_dimension() {
    assert_eq!(Geometry::new(0, 24), None);
    assert_eq!(Geometry::new(80, 0), None);
    assert_eq!(Geometry::new(0, 0), None);
    let g = Geometry::new(1, 65535).unwrap();
    assert_eq!((g.cols(), g.rows()), (1, 65535));
    assert!(g.same_as(&size(1, 65535)));
    assert!(!g.same_as(&size(2, 65535)));
}

#[test]
fn errors_have_messages_and_a_failing_status() {
    let all = [
        SessionError::Resolution,
        SessionError::Connect,
        SessionError::CredentialDecode,
        SessionError::KeyLoad,
        SessionError::Authentication,
        SessionError::ChannelOpen,
        SessionError::PtyRequest,
        SessionError::ShellRequest,
        SessionError::TerminalQuery,
        SessionError::Io,
    ];
    for e in all {
        assert!(!e.message().is_empty());
        assert_eq!(exit_code(&Err(e)), 1);
    }
    assert_eq!(SessionError::Authentication.message(), "Authentication failed.");
    assert_eq!(exit_code(&Ok(())), 0);
}

/// Performs the actions of a step on a terminal that is in raw mode or not.
fn perform(raw: &mut bool, actions: &[Action]) {
    for action in actions {
        match action {
            Action::EnableRawMode => *raw = true,
            Action::DisableRawMode => *raw = false,
            _ => {}
        }
    }
}

#[test]
fn the_terminal_is_cooked_again_however_the_session_ends() {
    let endings: Vec<Vec<Event>> = vec![
        vec![Event::Input(vec![])],
        vec![Event::RemoteExit],
        vec![Event::Terminate],
        vec![Event::Failed],
        vec![Event::RemoteOther, Event::Failed],
        vec![Event::RemoteOther, Event::Terminate],
        vec![Event::RemoteData(vec![1]), Event::OutputFailed],
    ];
    for ending in endings {
        let mut raw = false;
        let mut s = Session::with_key_path(profile("10.0.0.1", None), "/k".to_string());
        perform(&mut raw, &s.step(Event::Begin));
        perform(&mut raw, &s.step(Event::Connected));
        perform(&mut raw, &s.step(Event::KeyLoaded));
        perform(&mut raw, &s.step(Event::Authenticated(true)));
        let found = raw;
        perform(&mut raw, &s.step(Event::RawMode(found)));
        raw = true;
        perform(&mut raw, &s.step(Event::RawModeEnabled));
        perform(&mut raw, &s.step(Event::ChannelOpened));
        perform(&mut raw, &s.step(Event::Terminal { size: size(80, 24), term: None }));
        perform(&mut raw, &s.step(Event::PtyGranted));
        perform(&mut raw, &s.step(Event::ShellStarted));
        perform(&mut raw, &s.step(Event::Size(size(80, 24))));
        assert!(raw);
        for event in ending {
            perform(&mut raw, &s.step(event));
        }
        assert!(s.is_finished());
        assert!(!raw);
    }
}

#[test]
fn a_setup_that_fails_before_raw_mode_leaves_the_terminal_alone() {
    for before in [false, true] {
        let mut raw = before;
        let mut s = Session::with_key_path(profile("10.0.0.1", None), "/k".to_string());
        perform(&mut raw, &s.step(Event::Begin));
        perform(&mut raw, &s.step(Event::Connected));
        perform(&mut raw, &s.step(Event::Failed));
        assert!(s.is_finished());
        assert_eq!(raw, before);
    }
}
