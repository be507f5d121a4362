use chatty::args::{has_flag, overlay_mode, with_decorations};

fn args(list: &[&str]) -> Vec<String> {
    list.iter().map(|s| (*s).to_owned()).collect()
}

#[test]
fn overlay_flag_detected() {
    assert!(overlay_mode(&args(&["chatty", "--overlay"])));
    assert!(!overlay_mode(&args(&["chatty"])));
    assert!(!overlay_mode(&args(&[])));
}

#[test]
fn decorations_flag_detected() {
    assert!(with_decorations(&args(&["chatty", "--overlay", "--with-decorations"])));
    assert!(!with_decorations(&args(&["chatty", "--overlay"])));
}

#[test]
fn flag_must_match_exactly() {
    assert!(!has_flag(&args(&["--overlayx", "x--overlay", "--Overlay"]), "--overlay"));
    assert!(has_flag(&args(&["a", "--overlay", "b"]), "--overlay"));
}

#[test]
fn icon_code_points() {
    assert_eq!(chatty::icons::ADD, '\u{e145}');
    assert_eq!(chatty::icons::CLOSE, '\u{e5cd}');
    assert_eq!(chatty::icons::MOOD, '\u{e7f2}');
    assert_eq!(chatty::icons::PERSON, '\u{e7fd}');
    assert_eq!(chatty::icons::SEND, '\u{e163}');
    assert_eq!(chatty::icons::SETTINGS, '\u{e8b8}');
}

#[test]
fn protocol_message_variants() {
    let m = chatty::twitch::Message::User("hello".to_owned());
    match m {
        chatty::twitch::Message::User(s) => assert_eq!(s, "hello"),
        _ => unreachable!(),
    }
    assert!(matches!(chatty::twitch::Message::Connected, chatty::twitch::Message::Connected));
    assert!(matches!(chatty::twitch::Message::Disconnected, chatty::twitch::Message::Disconnected));
}
