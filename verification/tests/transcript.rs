use macos_term::transcript::{transcript, TerminalEntry, TextColor};

fn line(e: &TerminalEntry) -> Option<(&str, &'static str)> {
    match e {
        TerminalEntry::Line(t, c) => Some((t.as_str(), c.css_class())),
        TerminalEntry::Prompt => None,
    }
}

#[test]
fn transcript_shape() {
    let t = transcript();
    assert_eq!(t.len(), 63);
    assert_eq!(line(&t[0]), Some(("Last login: Sun Oct 19 14:23:45 on ttys001", "gray")));
    assert!(matches!(t[1], TerminalEntry::Prompt));
    for i in 0..20 {
        assert!(matches!(t[3 * i + 2], TerminalEntry::Prompt));
        let command = format!("echo 'Testing blur radius: {}'", i * 5);
        let output = format!("Testing blur radius: {}", i * 5);
        assert_eq!(line(&t[3 * i + 3]), Some((command.as_str(), "white")));
        assert_eq!(line(&t[3 * i + 4]), Some((output.as_str(), "cyan")));
    }
    assert!(matches!(t[62], TerminalEntry::Prompt));
}

#[test]
fn transcript_last_round_mentions_ninety_five() {
    let t = transcript();
    assert_eq!(line(&t[60]), Some(("echo 'Testing blur radius: 95'", "white")));
    assert_eq!(line(&t[61]), Some(("Testing blur radius: 95", "cyan")));
}

#[test]
fn colour_classes() {
    assert_eq!(TextColor::Gray.css_class(), "gray");
    assert_eq!(TextColor::White.css_class(), "white");
    assert_eq!(TextColor::Cyan.css_class(), "cyan");
    assert_eq!(TextColor::Green.css_class(), "green");
}
