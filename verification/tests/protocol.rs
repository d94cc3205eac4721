use sidegate::protocol::{parse_line, send_line, Command, Event, Reaction, Session, St};

fn status(f: [&str; 5]) -> St {
    St {
        state: f[0].to_string(),
        endpoint: f[1].to_string(),
        user: f[2].to_string(),
        ip: f[3].to_string(),
        msg: f[4].to_string(),
    }
}

#[test]
fn command_lines() {
    assert_eq!(Command::Quit.line(), "quit\t");
    assert_eq!(Command::Logout.line(), "logout\t");
    assert_eq!(Command::Connect.line(), "connect\t");
    assert_eq!(Command::Disconnect.line(), "disconnect\t");
    assert_eq!(Command::Setup("vpn.example.edu".to_string()).line(), "setup\tvpn.example.edu");
}

#[test]
fn command_is_one_line_without_nul() {
    assert_eq!(send_line("setup", "a\nb\0c"), "setup\tabc");
    assert_eq!(send_line("se\0t\nup", "\n"), "setup\t");
    assert!(!send_line("a\0", "b\0").contains(char::from(0)));
    // Tabs and carriage returns pass.
    assert_eq!(send_line("setup", "a\tb\r"), "setup\ta\tb\r");
}

#[test]
fn commands_are_told_apart() {
    let lines = [
        Command::Quit.line(),
        Command::Logout.line(),
        Command::Connect.line(),
        Command::Disconnect.line(),
        Command::Setup("".to_string()).line(),
        Command::Setup("x".to_string()).line(),
    ];
    for i in 0..lines.len() {
        for j in 0..i {
            assert_ne!(lines[i], lines[j]);
        }
    }
}

#[test]
fn command_read_back() {
    let line = send_line("setup", "vpn\texample");
    let (verb, argument) = line.split_once('\t').unwrap();
    assert_eq!((verb, argument), ("setup", "vpn\texample"));
}

#[test]
fn status_line() {
    let want = status(["on", "vpn.example.edu", "me", "10.0.0.2", "ok"]);
    assert_eq!(parse_line("on\tvpn.example.edu\tme\t10.0.0.2\tok"), Event::Status(want));
    assert_eq!(parse_line("\t\t\t\t"), Event::Status(St::default()));
}

#[test]
fn further_fields_are_ignored() {
    assert_eq!(parse_line("off\ta\tb\tc\td\te\tf"), Event::Status(status(["off", "a", "b", "c", "d"])));
}

#[test]
fn short_lines_are_ignored() {
    assert_eq!(parse_line(""), Event::Ignored);
    assert_eq!(parse_line("on\ta\tb\tc"), Event::Ignored);
    // Too short even to say that the core is done.
    assert_eq!(parse_line("exited"), Event::Ignored);
}

#[test]
fn exited_line() {
    assert_eq!(parse_line("exited\t\t\t\t"), Event::Exited);
    assert_eq!(parse_line("exited\ta\tb\tc\td\te"), Event::Exited);
    assert_eq!(parse_line("exited \t\t\t\t"), Event::Status(status(["exited ", "", "", "", ""])));
}

#[test]
fn fresh_session() {
    let s = Session::new();
    assert_eq!(s.st, status(["starting", "", "", "", ""]));
    assert_eq!(s.st, St::starting());
    assert!(!s.exited);
}

#[test]
fn session_shows_the_latest_status() {
    let mut s = Session::new();
    assert_eq!(s.take_line("login\tvpn\t\t\t"), Reaction::Repaint);
    assert_eq!(s.take_line("garbage"), Reaction::Skip);
    assert_eq!(s.st, status(["login", "vpn", "", "", ""]));
    assert_eq!(s.take_line("on\tvpn\tme\t10.0.0.2\t"), Reaction::Repaint);
    assert!(!s.exited);
    assert_eq!(s.take_line("exited\t\t\t\t"), Reaction::Stop);
    assert!(s.exited);
    assert_eq!(s.st, status(["on", "vpn", "me", "10.0.0.2", ""]));
}

#[test]
fn session_reads_utf8() {
    let mut s = Session::new();
    assert_eq!(s.receive("off\tvpn\t我\t\t会话过期".as_bytes()), Reaction::Repaint);
    assert_eq!(s.st, status(["off", "vpn", "我", "", "会话过期"]));
    assert_eq!(s.receive(b"on\ta"), Reaction::Skip);
    assert_eq!(s.receive(b"exited\t\t\t\t"), Reaction::Stop);
    assert!(s.exited);
}

#[test]
fn session_replaces_invalid_utf8() {
    let mut s = Session::new();
    assert_eq!(s.receive(b"off\t\xff\tu\xe4\t\tm"), Reaction::Repaint);
    assert_eq!(s.st, status(["off", "\u{fffd}", "u\u{fffd}", "", "m"]));
}

#[test]
fn status_clone_is_equal() {
    let st = status(["on", "a", "b", "c", "d"]);
    assert_eq!(st.clone(), st);
}
