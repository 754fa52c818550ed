use jsonlog_fmt::{lookup, open_session, Action};

#[test]
fn unknown_scheme_exits_with_one() {
    assert!(matches!(open_session("neon"), Err(1)));
    assert!(matches!(open_session("OCEAN"), Err(1)));
}

#[test]
fn known_scheme_opens_a_session() {
    for name in ["chalk", "greyscale", "ocean", "solarized"] {
        let service = open_session(name).unwrap();
        assert_eq!(service.colors, lookup(name).unwrap());
    }
}

#[test]
fn end_of_input_exits_with_zero() {
    let service = open_session("ocean").unwrap();
    assert!(matches!(service.next_action(None), Action::Exit(0)));
}

#[test]
fn every_line_is_printed_before_the_end() {
    let service = open_session("ocean").unwrap();
    let lines = ["plain text\n", "42\n", "{\"a\":true}\n", "\n"];
    for line in lines {
        match service.next_action(Some(line)) {
            Action::Print(out) => assert_eq!(out, service.format_input(line)),
            Action::Exit(_) => panic!("the session stopped on a line"),
        }
    }
    match service.next_action(Some("plain text\n")) {
        Action::Print(out) => assert_eq!(out, "plain text\n"),
        Action::Exit(_) => panic!("the session stopped on a line"),
    }
    match service.next_action(Some("42\n")) {
        Action::Print(out) => assert_eq!(out.trim(), "\x1b[38;2;180;142;173m42\x1b[39m"),
        Action::Exit(_) => panic!("the session stopped on a line"),
    }
    assert!(matches!(service.next_action(None), Action::Exit(0)));
}
