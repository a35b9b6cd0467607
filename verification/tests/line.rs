use dxcllistener::decode::take_text;
use dxcllistener::endpoint::{address, name};
use dxcllistener::line::{clean_line, is_auth_token, strip_line_end, terminated};
use dxcllistener::worker::ReadFailure;

#[test]
fn clean_line_strips_line_end() {
    assert_eq!(clean_line("DX de DJ1TO: 3780.0 OH5Z\r\n"), "DX de DJ1TO: 3780.0 OH5Z");
    assert_eq!(clean_line("abc\n"), "abc");
    assert_eq!(clean_line("abc\r"), "abc");
}

#[test]
fn clean_line_strips_bell_before_line_end() {
    assert_eq!(clean_line("abc\u{7}\r\n"), "abc");
    assert_eq!(clean_line("abc\u{7}\u{7}\u{7} \t\r\n"), "abc");
    assert_eq!(clean_line("abc\u{7}"), "abc");
}

#[test]
fn clean_line_trims_whitespace_first_and_bells_second() {
    assert_eq!(clean_line("abc \u{7}"), "abc ");
    assert_eq!(clean_line("abc\u{7} \u{7}\n"), "abc\u{7} ");
}

#[test]
fn clean_line_keeps_clean_text() {
    assert_eq!(clean_line("abc"), "abc");
    assert_eq!(clean_line("  abc"), "  abc");
    assert_eq!(clean_line("a b\u{7}c"), "a b\u{7}c");
}

#[test]
fn clean_line_of_nothing_but_noise_is_empty() {
    assert_eq!(clean_line(""), "");
    assert_eq!(clean_line("\r\n"), "");
    assert_eq!(clean_line(" \t \n"), "");
    assert_eq!(clean_line("\u{7}\u{7}"), "");
    assert_eq!(clean_line("\u{7}\n"), "");
}

#[test]
fn clean_line_knows_whitespace_beyond_ascii() {
    assert_eq!(clean_line("abc\u{a0}"), "abc");
    assert_eq!(clean_line("abc\u{2003}\u{3000}\u{85}"), "abc");
    assert_eq!(clean_line("größe\u{2028}"), "größe");
    assert_eq!(clean_line("abc\u{200b}"), "abc\u{200b}");
}

#[test]
fn clean_line_agrees_with_the_standard_trims() {
    let samples = vec![
        "",
        " ",
        "\u{7}",
        "a",
        "a \u{7} \u{7}",
        "\u{7} a\u{b}\u{c}",
        "DX de K1ABC: 14025.0 W1XYZ\u{7}\u{7}\r\n",
        "日本語\u{3000}\u{7}",
        "tab\tinside\t",
        "\u{1680}\u{7}\u{1680}",
    ];
    for sample in samples {
        assert_eq!(clean_line(sample), sample.trim_end().trim_end_matches('\u{7}'));
    }
}

#[test]
fn is_auth_token_accepts_both_prompts() {
    assert!(is_auth_token("login:"));
    assert!(is_auth_token("Please enter your call:"));
}

#[test]
fn is_auth_token_matches_at_the_end() {
    assert!(is_auth_token("Welcome to the cluster\r\nlogin:"));
    assert!(is_auth_token("xxPlease enter your call:"));
    assert!(!is_auth_token("login: "));
    assert!(!is_auth_token("login:\n"));
    assert!(!is_auth_token("login: DL1ABC"));
    assert!(!is_auth_token("Please enter your call: now"));
}

#[test]
fn is_auth_token_rejects_other_text() {
    assert!(!is_auth_token(""));
    assert!(!is_auth_token(":"));
    assert!(!is_auth_token("ogin:"));
    assert!(!is_auth_token("Login:"));
    assert!(!is_auth_token("please enter your call:"));
    assert!(!is_auth_token("password:"));
    assert!(!is_auth_token("lögin:"));
}

#[test]
fn terminated_appends_carriage_return_and_line_feed() {
    assert_eq!(terminated("DL1ABC"), "DL1ABC\r\n");
    assert_eq!(terminated(""), "\r\n");
    assert_eq!(terminated("a\r\n"), "a\r\n\r\n");
}

#[test]
fn address_joins_host_and_port() {
    assert_eq!(address("example.com", 7300), "example.com:7300");
    assert_eq!(address("127.0.0.1", 23), "127.0.0.1:23");
    assert_eq!(address("", 8000), ":8000");
}

#[test]
fn address_writes_every_port_in_decimal() {
    assert_eq!(address("h", 0), "h:0");
    assert_eq!(address("h", 9), "h:9");
    assert_eq!(address("h", 10), "h:10");
    assert_eq!(address("h", 1005), "h:1005");
    assert_eq!(address("h", 40000), "h:40000");
    assert_eq!(address("h", 65535), "h:65535");
    let mut port: u16 = 0;
    loop {
        assert_eq!(address("h", port), format!("h:{}", port));
        if port == u16::MAX {
            break;
        }
        port += 1;
    }
}

#[test]
fn name_puts_callsign_before_address() {
    assert_eq!(name("DL1ABC", "example.com", 7300), "DL1ABC@example.com:7300");
    assert_eq!(name("", "h", 1), "@h:1");
}

#[test]
fn strip_line_end_takes_one_line_end_off() {
    assert_eq!(strip_line_end("login:\n"), "login:");
    assert_eq!(strip_line_end("login:\r\n"), "login:");
    assert_eq!(strip_line_end("a\n\n"), "a\n");
    assert_eq!(strip_line_end("a\r\r\n"), "a\r");
    assert_eq!(strip_line_end("\n"), "");
    assert_eq!(strip_line_end("\r\n"), "");
}

#[test]
fn strip_line_end_leaves_other_text_alone() {
    assert_eq!(strip_line_end(""), "");
    assert_eq!(strip_line_end("login:"), "login:");
    assert_eq!(strip_line_end("login: "), "login: ");
    assert_eq!(strip_line_end("login:\r"), "login:\r");
    assert_eq!(strip_line_end("a\nb"), "a\nb");
    assert_eq!(strip_line_end("größe \u{7}"), "größe \u{7}");
}

#[test]
fn take_text_takes_all_of_a_text() {
    assert_eq!(take_text(Vec::new()), Ok((String::new(), Vec::new())));
    assert_eq!(
        take_text(b"login:".to_vec()),
        Ok(("login:".to_string(), Vec::new()))
    );
    assert_eq!(
        take_text("größe\u{3000}\n".as_bytes().to_vec()),
        Ok(("größe\u{3000}\n".to_string(), Vec::new()))
    );
}

#[test]
fn take_text_leaves_a_character_that_is_not_complete() {
    assert_eq!(take_text(vec![b'a', 0xc3]), Ok(("a".to_string(), vec![0xc3])));
    assert_eq!(
        take_text(vec![b'a', b'b', 0xe3, 0x80]),
        Ok(("ab".to_string(), vec![0xe3, 0x80]))
    );
    assert_eq!(
        take_text(vec![0xf0, 0x9f, 0x93]),
        Ok((String::new(), vec![0xf0, 0x9f, 0x93]))
    );
    let (text, rest) = take_text(vec![0xc3, 0xb6, 0xe2, 0x82]).unwrap();
    assert_eq!(text, "ö");
    let mut whole = rest;
    whole.push(0xac);
    assert_eq!(take_text(whole), Ok(("€".to_string(), Vec::new())));
}

#[test]
fn take_text_fails_on_bytes_that_are_no_text() {
    assert_eq!(take_text(vec![b'a', 0xff, b'b']), Err(ReadFailure::Other));
    assert_eq!(take_text(vec![0x80]), Err(ReadFailure::Other));
    assert_eq!(take_text(vec![0xc3, b'a']), Err(ReadFailure::Other));
    assert_eq!(take_text(vec![b'o', b'k', 0xc0, 0xaf]), Err(ReadFailure::Other));
    assert_eq!(take_text(vec![0xed, 0xa0, 0x80]), Err(ReadFailure::Other));
}
