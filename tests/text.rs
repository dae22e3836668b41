use pingpong::command::{parse_command, CommandError, Role};
use pingpong::endpoint::{parse_port, Endpoint, IpAddress};
use pingpong::message::{is_probe, is_probe_text, same_text, Message};

fn args(v: &[&str]) -> Vec<String> {
    v.iter().map(|s| s.to_string()).collect()
}

#[test]
fn message_texts_and_bytes() {
    assert_eq!(Message::Ping.text(), "ping");
    assert_eq!(Message::Pong.text(), "pong");
    assert_eq!(Message::Dong.text(), "dong");
    assert_eq!(Message::Ping.to_bytes(), b"ping".to_vec());
    assert_eq!(Message::Pong.to_bytes(), b"pong".to_vec());
    assert_eq!(Message::Dong.to_bytes(), b"dong".to_vec());
}

#[test]
fn probe_text_is_trimmed_ping() {
    assert!(is_probe_text("ping"));
    assert!(is_probe_text("  ping\n"));
    assert!(is_probe_text("\u{2000}ping\u{85}"));
    assert!(!is_probe_text("ping!"));
    assert!(!is_probe_text("p ing"));
    assert!(!is_probe_text(""));
    assert!(!is_probe_text("   "));
    assert!(!is_probe_text("\u{200b}ping"));
}

#[test]
fn probe_bytes_are_decoded_lossily() {
    assert!(is_probe(b" ping \n"));
    assert!(!is_probe(b"\xffping"));
    assert!(!is_probe(b"ping\xc3"));
    assert!(!is_probe(b"hello"));
}

#[test]
fn same_text_compares_characters() {
    assert!(same_text("abc", "abc"));
    assert!(same_text("", ""));
    assert!(!same_text("abc", "abd"));
    assert!(!same_text("abc", "ab"));
    assert!(same_text("é", "\u{e9}"));
}

#[test]
fn ports_parse_like_u16() {
    assert_eq!(parse_port("9999"), Some(9999));
    assert_eq!(parse_port("0"), Some(0));
    assert_eq!(parse_port("65535"), Some(65535));
    assert_eq!(parse_port("+80"), Some(80));
    assert_eq!(parse_port("0080"), Some(80));
    assert_eq!(parse_port("65536"), None);
    assert_eq!(parse_port("99999999999999999999"), None);
    assert_eq!(parse_port(""), None);
    assert_eq!(parse_port("+"), None);
    assert_eq!(parse_port("-1"), None);
    assert_eq!(parse_port("12a"), None);
    assert_eq!(parse_port(" 80"), None);
    assert_eq!(parse_port("\u{663}"), None);
    for s in ["1", "42", "+7", "65535", "65536", "x", "", "007"] {
        assert_eq!(parse_port(s), s.parse::<u16>().ok(), "{}", s);
    }
}

#[test]
fn local_endpoint_defaults_to_ephemeral() {
    assert_eq!(Endpoint::local_for(None), Endpoint { ip: IpAddress::V4(0), port: 0 });
    assert_eq!(Endpoint::local_for(Some(9)), Endpoint::any_v4(9));
}

#[test]
fn command_selects_role() {
    assert_eq!(
        parse_command(&args(&["udp", "--ping", "127.0.0.1:9999"])),
        Ok(Role::Probe { remote: "127.0.0.1:9999".to_string(), local_port: None })
    );
    assert_eq!(
        parse_command(&args(&["udp", "--ping", "10.0.0.1:9999", "4000"])),
        Ok(Role::Probe { remote: "10.0.0.1:9999".to_string(), local_port: Some(4000) })
    );
    assert_eq!(parse_command(&args(&["udp", "--pong", "9999"])), Ok(Role::Respond { port: 9999 }));
    assert_eq!(parse_command(&args(&["udp", "--pong", "9999", "extra"])), Ok(Role::Respond { port: 9999 }));
    assert_eq!(
        parse_command(&args(&["udp", "--dong", "h:1", "7"])),
        Ok(Role::Announce { remote: "h:1".to_string(), local_port: Some(7) })
    );
}

#[test]
fn command_errors() {
    assert_eq!(parse_command(&args(&[])), Err(CommandError::Usage));
    assert_eq!(parse_command(&args(&["udp"])), Err(CommandError::Usage));
    assert_eq!(parse_command(&args(&["udp", "--pong"])), Err(CommandError::Usage));
    assert_eq!(parse_command(&args(&["udp", "--pang", "1"])), Err(CommandError::UnknownMode));
    assert_eq!(parse_command(&args(&["udp", "ping", "1"])), Err(CommandError::UnknownMode));
    assert_eq!(parse_command(&args(&["udp", "--pong", "port"])), Err(CommandError::InvalidPort));
    assert_eq!(parse_command(&args(&["udp", "--ping", "h:1", "70000"])), Err(CommandError::InvalidPort));
    assert_eq!(parse_command(&args(&["udp", "--dong", "h:1", ""])), Err(CommandError::InvalidPort));
}
