use rcolors::{color_disabled, color_sprint, Ansi, Builder};

#[test]
fn macro_color_print() {
    let s = color_sprint(Ansi::FgRed, "This is red text");
    assert_eq!(s, "\x1b[31mThis is red text\x1b[0m");
}

#[test]
fn macro_color_println() {
    println!("{}", color_sprint(Ansi::FgRed, "This is red text"));
}

#[test]
fn macro_color_sprint() {
    let s = color_sprint(Ansi::FgRed, "This is red text");
    assert_eq!(s, "\u{1b}[31mThis is red text\u{1b}[0m");
}

#[test]
fn test_color_print() {
    let s = color_sprint(Ansi::FgRed, "This is red text");
    assert_eq!(s, "\x1b[31mThis is red text\x1b[0m");
}

#[test]
fn test_color_println() {
    let line = format!("{}\n", color_sprint(Ansi::FgRed, "This is red text"));
    assert_eq!(line, "\x1b[31mThis is red text\x1b[0m\n");
}

#[test]
fn test_color_sprint() {
    let s = color_sprint(Ansi::FgRed, "This is red text");
    assert_eq!(s, "\u{1b}[31mThis is red text\u{1b}[0m");
}

#[test]
fn sprint_red_hi() {
    assert_eq!(color_sprint(Ansi::FgRed, "hi"), "\x1b[31mhi\x1b[0m");
    assert_eq!(color_sprint(Ansi::BgHiWhite, ""), "\x1b[107m\x1b[0m");
}

#[test]
fn sprint_matches_forced_builder() {
    for (a, s) in [(Ansi::FgRed, "hi"), (Ansi::Underline, "x y"), (Ansi::BgHiBlue, "")] {
        let mut builder = Builder::with_no_color(true);
        builder.force_color().ansi(a).text(s).ansi(Ansi::Reset);
        assert_eq!(builder.to_string(), color_sprint(a, s));
    }
}

#[test]
fn color_decision() {
    assert!(color_disabled(true, true));
    assert!(color_disabled(true, false));
    assert!(color_disabled(false, false));
    assert!(!color_disabled(false, true));
}
