use rcolors::ansi::Ansi;

const ALL: [Ansi; 42] = [
    Ansi::Reset,
    Ansi::Bold,
    Ansi::Faint,
    Ansi::Italic,
    Ansi::Underline,
    Ansi::BlinkSlow,
    Ansi::BlinkRapid,
    Ansi::ReverseVideo,
    Ansi::Concealed,
    Ansi::CrossedOut,
    Ansi::FgBlack,
    Ansi::FgRed,
    Ansi::FgGreen,
    Ansi::FgYellow,
    Ansi::FgBlue,
    Ansi::FgMagenta,
    Ansi::FgCyan,
    Ansi::FgWhite,
    Ansi::FgHiBlack,
    Ansi::FgHiRed,
    Ansi::FgHiGreen,
    Ansi::FgHiYellow,
    Ansi::FgHiBlue,
    Ansi::FgHiMagenta,
    Ansi::FgHiCyan,
    Ansi::FgHiWhite,
    Ansi::BgBlack,
    Ansi::BgRed,
    Ansi::BgGreen,
    Ansi::BgYellow,
    Ansi::BgBlue,
    Ansi::BgMagenta,
    Ansi::BgCyan,
    Ansi::BgWhite,
    Ansi::BgHiBlack,
    Ansi::BgHiRed,
    Ansi::BgHiGreen,
    Ansi::BgHiYellow,
    Ansi::BgHiBlue,
    Ansi::BgHiMagenta,
    Ansi::BgHiCyan,
    Ansi::BgHiWhite,
];

#[test]
fn test_fg_colors() {
    let fg_green = Ansi::FgGreen;
    assert_eq!(fg_green.to_string(), "\x1b[32m");

    let fg_hi_red = Ansi::FgHiRed;
    assert_eq!(fg_hi_red.to_string(), "\x1b[91m");
}

#[test]
fn test_bg_colors() {
    let bg_black = Ansi::BgBlack;
    assert_eq!(bg_black.to_string(), "\x1b[40m");

    let bg_hi_white = Ansi::BgHiWhite;
    assert_eq!(bg_hi_white.to_string(), "\x1b[107m");
}

#[test]
fn test_control_codes() {
    let reset = Ansi::Reset;
    assert_eq!(reset.to_string(), "\x1b[0m");

    let bold = Ansi::Bold;
    assert_eq!(bold.to_string(), "\x1b[1m");
}

#[test]
fn every_escape_is_esc_bracket_digits_m() {
    for a in ALL {
        let s = a.to_string();
        let bytes = s.as_bytes();
        assert_eq!(bytes[0], 0x1b);
        assert_eq!(bytes[1], b'[');
        assert_eq!(bytes[bytes.len() - 1], b'm');
        let digits = &bytes[2..bytes.len() - 1];
        assert!(!digits.is_empty());
        assert!(digits.iter().all(|b| b.is_ascii_digit()));
        assert!(digits.len() == 1 || digits[0] != b'0');
    }
}

#[test]
fn escape_carries_the_code() {
    for a in ALL {
        assert_eq!(a.to_string(), format!("\x1b[{}m", a.code()));
    }
}

#[test]
fn codes_by_family() {
    assert_eq!(Ansi::CrossedOut.code(), 9);
    assert_eq!(Ansi::FgWhite.code(), 37);
    assert_eq!(Ansi::FgHiBlack.code(), 90);
    assert_eq!(Ansi::BgMagenta.code(), 45);
    assert_eq!(Ansi::BgHiRed.code(), 101);
    assert_eq!(Ansi::BgHiCyan.to_string(), "\x1b[106m");
    assert_eq!(Ansi::ReverseVideo.to_string(), "\x1b[7m");
}

#[test]
fn distinct_attributes_render_distinctly() {
    for (i, a) in ALL.iter().enumerate() {
        for (j, b) in ALL.iter().enumerate() {
            if i != j {
                assert_ne!(a, b);
                assert_ne!(a.to_string(), b.to_string());
            }
        }
    }
}
