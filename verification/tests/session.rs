use serveto::session::{greet, parse_command, wrap, Command};
use serveto::{handle_client, Session, SessionAction, SessionEvent, SessionState, Utility};

fn line(text: &str) -> SessionEvent {
    SessionEvent::Line { read: text.len(), text: text.to_string() }
}

fn sent(action: SessionAction) -> Vec<u8> {
    match action {
        SessionAction::Send(bytes) => bytes,
        _ => panic!("nothing was sent"),
    }
}

fn reading(peer: &str) -> Session {
    let mut session = Session::new(peer.to_string());
    handle_client(&mut session, SessionEvent::Opened);
    assert_eq!(session.state(), SessionState::ReadingLine);
    session
}

#[test]
fn a_session_begins_with_the_welcome() {
    let mut session = Session::new("127.0.0.1".to_string());
    assert_eq!(session.state(), SessionState::Connected);
    assert_eq!(session.peer(), "127.0.0.1");
    let action = handle_client(&mut session, SessionEvent::Opened);
    assert_eq!(sent(action), b"Bienvenido 127.0.0.1\n".to_vec());
    assert_eq!(session.state(), SessionState::ReadingLine);
    assert_eq!(session.peer(), "127.0.0.1");
}

#[test]
fn the_welcome_names_the_peer_in_utf8() {
    assert_eq!(greet("::1"), b"Bienvenido ::1\n".to_vec());
    assert_eq!(greet(""), b"Bienvenido \n".to_vec());
    assert_eq!(greet("año"), "Bienvenido año\n".as_bytes().to_vec());
}

#[test]
fn fecha_yields_the_envelope_round_the_date() {
    let mut session = reading("10.0.0.1");
    let action = handle_client(&mut session, line("fecha\n"));
    assert!(matches!(action, SessionAction::Run(Utility::Date)));
    assert_eq!(session.state(), SessionState::Reporting);
    let date = b"Wed Oct 28 03:52:10 UTC 2026\n".to_vec();
    let action = handle_client(&mut session, SessionEvent::Output(date));
    assert_eq!(sent(action), b"OK.\nWed Oct 28 03:52:10 UTC 2026\nFIN.\n".to_vec());
    assert_eq!(session.state(), SessionState::ReadingLine);
}

#[test]
fn usuarios_and_procesos_run_their_programs() {
    let mut session = reading("10.0.0.1");
    let action = handle_client(&mut session, line("usuarios\n"));
    assert!(matches!(action, SessionAction::Run(Utility::Users)));
    let action = handle_client(&mut session, SessionEvent::Output(Vec::new()));
    assert_eq!(sent(action), b"OK.\nFIN.\n".to_vec());
    let action = handle_client(&mut session, line("procesos\r\n"));
    assert!(matches!(action, SessionAction::Run(Utility::Processes)));
    let action = handle_client(&mut session, SessionEvent::Output(b"PID TTY\n1 ?\n".to_vec()));
    assert_eq!(sent(action), b"OK.\nPID TTY\n1 ?\nFIN.\n".to_vec());
}

#[test]
fn each_utility_names_its_program() {
    assert_eq!(Utility::Users.program(), "who");
    assert_eq!(Utility::Date.program(), "date");
    assert_eq!(Utility::Processes.program(), "ps");
}

#[test]
fn the_envelope_carries_raw_bytes() {
    assert_eq!(wrap(vec![0xff, 0x00, 0x0a]), b"OK.\n\xff\x00\nFIN.\n".to_vec());
    assert_eq!(wrap(Vec::new()), b"OK.\nFIN.\n".to_vec());
}

#[test]
fn salir_yields_the_farewell_and_closes() {
    let mut session = reading("10.0.0.1");
    let action = handle_client(&mut session, line("salir\n"));
    match action {
        SessionAction::SendAndClose(bytes) => assert_eq!(bytes, b"ADIOS.\n".to_vec()),
        _ => panic!("the session did not close"),
    }
    assert_eq!(session.state(), SessionState::Closing);
    assert!(!session.is_over());
    let action = handle_client(&mut session, SessionEvent::Closed);
    assert!(matches!(action, SessionAction::Finish));
    assert_eq!(session.state(), SessionState::ClosedByServer);
    assert!(session.is_over());
}

#[test]
fn nothing_is_sent_after_the_server_closed() {
    let mut session = reading("10.0.0.1");
    handle_client(&mut session, line("salir\n"));
    handle_client(&mut session, SessionEvent::Closed);
    for event in [
        line("fecha\n"),
        SessionEvent::Opened,
        SessionEvent::Output(b"x".to_vec()),
        SessionEvent::Closed,
        SessionEvent::Failed,
    ] {
        let action = handle_client(&mut session, event);
        assert!(matches!(action, SessionAction::Finish));
        assert_eq!(session.state(), SessionState::ClosedByServer);
    }
}

#[test]
fn an_unrecognized_line_yields_err_and_the_session_stays_open() {
    let mut session = reading("10.0.0.1");
    let action = handle_client(&mut session, line("foo\n"));
    assert_eq!(sent(action), b"ERR.\n".to_vec());
    assert_eq!(session.state(), SessionState::ReadingLine);
    assert!(!session.is_over());
    let action = handle_client(&mut session, line("fecha\n"));
    assert!(matches!(action, SessionAction::Run(Utility::Date)));
}

#[test]
fn a_blank_line_yields_err() {
    let mut session = reading("10.0.0.1");
    assert_eq!(sent(handle_client(&mut session, line("\n"))), b"ERR.\n".to_vec());
    assert_eq!(sent(handle_client(&mut session, line("   \r\n"))), b"ERR.\n".to_vec());
    assert_eq!(session.state(), SessionState::ReadingLine);
}

#[test]
fn commands_are_case_sensitive_and_exact() {
    assert_eq!(parse_command("fecha"), Command::Report(Utility::Date));
    assert_eq!(parse_command("  fecha \n"), Command::Report(Utility::Date));
    assert_eq!(parse_command("usuarios\n"), Command::Report(Utility::Users));
    assert_eq!(parse_command("procesos\n"), Command::Report(Utility::Processes));
    assert_eq!(parse_command("salir\n"), Command::Quit);
    assert_eq!(parse_command("Fecha\n"), Command::Unknown);
    assert_eq!(parse_command("SALIR\n"), Command::Unknown);
    assert_eq!(parse_command("fecha now\n"), Command::Unknown);
    assert_eq!(parse_command("fe cha\n"), Command::Unknown);
    assert_eq!(parse_command("fechas\n"), Command::Unknown);
    assert_eq!(parse_command("who\n"), Command::Unknown);
    assert_eq!(parse_command(""), Command::Unknown);
}

#[test]
fn a_read_of_no_bytes_ends_the_session_silently() {
    let mut session = reading("10.0.0.1");
    let action =
        handle_client(&mut session, SessionEvent::Line { read: 0, text: String::new() });
    assert!(matches!(action, SessionAction::Finish));
    assert_eq!(session.state(), SessionState::ClosedByClient);
    assert!(session.is_over());
    let action = handle_client(&mut session, line("fecha\n"));
    assert!(matches!(action, SessionAction::Finish));
    assert_eq!(session.state(), SessionState::ClosedByClient);
}

#[test]
fn a_last_line_without_line_feed_is_still_a_command() {
    let mut session = reading("10.0.0.1");
    let action = handle_client(&mut session, line("salir"));
    assert!(matches!(action, SessionAction::SendAndClose(_)));
}

#[test]
fn a_failed_action_aborts_the_session() {
    for before in [0, 1, 2, 3] {
        let mut session = Session::new("10.0.0.1".to_string());
        if before >= 1 {
            handle_client(&mut session, SessionEvent::Opened);
        }
        if before == 2 {
            handle_client(&mut session, line("usuarios\n"));
        }
        if before == 3 {
            handle_client(&mut session, line("salir\n"));
        }
        let action = handle_client(&mut session, SessionEvent::Failed);
        assert!(matches!(action, SessionAction::Abort));
        assert_eq!(session.state(), SessionState::Failed);
        assert!(session.is_over());
        let action = handle_client(&mut session, line("fecha\n"));
        assert!(matches!(action, SessionAction::Abort));
        assert_eq!(session.state(), SessionState::Failed);
    }
}

#[test]
fn an_event_that_answers_nothing_aborts_the_session() {
    let mut session = Session::new("10.0.0.1".to_string());
    let action = handle_client(&mut session, line("fecha\n"));
    assert!(matches!(action, SessionAction::Abort));
    assert_eq!(session.state(), SessionState::Failed);

    let mut session = reading("10.0.0.1");
    let action = handle_client(&mut session, SessionEvent::Output(b"x".to_vec()));
    assert!(matches!(action, SessionAction::Abort));

    let mut session = reading("10.0.0.1");
    handle_client(&mut session, line("fecha\n"));
    let action = handle_client(&mut session, line("fecha\n"));
    assert!(matches!(action, SessionAction::Abort));

    let mut session = reading("10.0.0.1");
    let action = handle_client(&mut session, SessionEvent::Closed);
    assert!(matches!(action, SessionAction::Abort));
}

#[test]
fn sessions_do_not_touch_each_other() {
    let mut first = reading("10.0.0.1");
    let mut second = reading("10.0.0.2");
    handle_client(&mut first, line("fecha\n"));
    assert_eq!(sent(handle_client(&mut second, line("foo\n"))), b"ERR.\n".to_vec());
    handle_client(&mut second, SessionEvent::Line { read: 0, text: String::new() });
    assert_eq!(second.state(), SessionState::ClosedByClient);
    assert_eq!(first.state(), SessionState::Reporting);
    let action = handle_client(&mut first, SessionEvent::Output(b"now\n".to_vec()));
    assert_eq!(sent(action), b"OK.\nnow\nFIN.\n".to_vec());
    assert_eq!(first.peer(), "10.0.0.1");
    assert_eq!(second.peer(), "10.0.0.2");
}

#[test]
fn a_date_session_writes_welcome_and_one_envelope() {
    let mut session = Session::new("127.0.0.1".to_string());
    let mut written: Vec<u8> = Vec::new();
    written.extend(sent(handle_client(&mut session, SessionEvent::Opened)));
    let action = handle_client(&mut session, line("fecha\n"));
    assert_eq!(action, SessionAction::Run(Utility::Date));
    let date = b"Wed Oct 28 10:00:00 UTC 2026\n".to_vec();
    written.extend(sent(handle_client(&mut session, SessionEvent::Output(date))));
    let action =
        handle_client(&mut session, SessionEvent::Line { read: 0, text: String::new() });
    assert_eq!(action, SessionAction::Finish);
    assert_eq!(session.state(), SessionState::ClosedByClient);
    assert_eq!(
        written,
        b"Bienvenido 127.0.0.1\nOK.\nWed Oct 28 10:00:00 UTC 2026\nFIN.\n".to_vec()
    );
    let text = String::from_utf8(written).unwrap();
    let lines: Vec<&str> = text.lines().collect();
    assert_eq!(lines, vec!["Bienvenido 127.0.0.1", "OK.", "Wed Oct 28 10:00:00 UTC 2026", "FIN."]);
}

#[test]
fn nothing_stands_between_the_output_and_fin() {
    assert_eq!(wrap(b"a\nb\n".to_vec()), b"OK.\na\nb\nFIN.\n".to_vec());
    assert_eq!(wrap(b"no line feed".to_vec()), b"OK.\nno line feedFIN.\n".to_vec());
}

#[test]
fn every_line_gets_one_reply() {
    let mut session = reading("10.0.0.1");
    let mut replies = 1;
    let mut lines = 0;
    for text in ["foo\n", "fecha\n", "\n", "usuarios\n", "procesos\n", "bar\n", "salir\n"] {
        let mut action = handle_client(&mut session, line(text));
        lines += 1;
        if let SessionAction::Run(_) = action {
            assert_eq!(replies, lines);
            action = handle_client(&mut session, SessionEvent::Output(b"out\n".to_vec()));
        }
        assert!(matches!(action, SessionAction::Send(_) | SessionAction::SendAndClose(_)));
        replies += 1;
        assert_eq!(replies, lines + 1);
    }
    assert_eq!(session.state(), SessionState::Closing);
}
