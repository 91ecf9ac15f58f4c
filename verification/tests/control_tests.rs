use anymon::control::{parse_control, line_is_blank, ControlCommand};

#[test]
fn parse_restart_words() {
    assert_eq!(parse_control("rs"), ControlCommand::Restart);
    assert_eq!(parse_control("restart"), ControlCommand::Restart);
    assert_eq!(parse_control("RS"), ControlCommand::Restart);
    assert_eq!(parse_control("  Restart  "), ControlCommand::Restart);
}

#[test]
fn parse_status_word() {
    assert_eq!(parse_control("status"), ControlCommand::Status);
    assert_eq!(parse_control("\tSTATUS\n"), ControlCommand::Status);
}

#[test]
fn parse_quit_words() {
    assert_eq!(parse_control("quit"), ControlCommand::Quit);
    assert_eq!(parse_control("q"), ControlCommand::Quit);
    assert_eq!(parse_control("exit"), ControlCommand::Quit);
    assert_eq!(parse_control(" Q "), ControlCommand::Quit);
}

#[test]
fn parse_ignores_everything_else() {
    assert_eq!(parse_control(""), ControlCommand::Ignored);
    assert_eq!(parse_control("   "), ControlCommand::Ignored);
    assert_eq!(parse_control("reload"), ControlCommand::Ignored);
    assert_eq!(parse_control("rs now"), ControlCommand::Ignored);
    assert_eq!(parse_control("quitx"), ControlCommand::Ignored);
    assert_eq!(parse_control("résumé"), ControlCommand::Ignored);
}

#[test]
fn parse_trims_unicode_whitespace() {
    assert_eq!(parse_control("\u{00A0}rs\u{2003}"), ControlCommand::Restart);
    assert_eq!(parse_control("\u{000B}quit\u{000C}"), ControlCommand::Quit);
}

#[test]
fn blank_lines() {
    assert!(line_is_blank(""));
    assert!(line_is_blank(" \t\r\n"));
    assert!(line_is_blank("\u{00A0}\u{2028}"));
    assert!(!line_is_blank(" x "));
}
