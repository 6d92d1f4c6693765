use vstd::prelude::*;

verus! {

/// A terminal display attribute: one Select Graphic Rendition parameter.
///
/// The style attributes take the parameters 0 to 9; the colors take 30 to 37
/// (foreground), 90 to 97 (high-intensity foreground), 40 to 47 (background)
/// and 100 to 107 (high-intensity background).
#[derive(Debug, Clone, Copy, PartialEq, Eq, Structural)]
pub enum Ansi {
    Reset,
    Bold,
    Faint,
    Italic,
    Underline,
    BlinkSlow,
    BlinkRapid,
    ReverseVideo,
    Concealed,
    CrossedOut,
    FgBlack,
    FgRed,
    FgGreen,
    FgYellow,
    FgBlue,
    FgMagenta,
    FgCyan,
    FgWhite,
    FgHiBlack,
    FgHiRed,
    FgHiGreen,
    FgHiYellow,
    FgHiBlue,
    FgHiMagenta,
    FgHiCyan,
    FgHiWhite,
    BgBlack,
    BgRed,
    BgGreen,
    BgYellow,
    BgBlue,
    BgMagenta,
    BgCyan,
    BgWhite,
    BgHiBlack,
    BgHiRed,
    BgHiGreen,
    BgHiYellow,
    BgHiBlue,
    BgHiMagenta,
    BgHiCyan,
    BgHiWhite,
}

/// The decimal digit `d` as a character.
pub open spec fn digit_char(d: nat) -> char
    recommends
        d < 10,
{
    if d == 0 { '0' } else if d == 1 { '1' } else if d == 2 { '2' } else if d == 3 { '3' }
    else if d == 4 { '4' } else if d == 5 { '5' } else if d == 6 { '6' } else if d == 7 { '7' }
    else if d == 8 { '8' } else { '9' }
}

/// `n` written in decimal, without leading zeros.
pub open spec fn decimal(n: nat) -> Seq<char>
    decreases n,
{
    if n < 10 {
        seq![digit_char(n)]
    } else {
        decimal(n / 10).push(digit_char(n % 10))
    }
}

/// The escape sequence `ESC [ <code> m` that selects the parameter `code`.
pub open spec fn escape(code: nat) -> Seq<char> {
    seq!['\x1b', '['] + decimal(code) + seq!['m']
}

impl Ansi {
    /// The attribute's SGR parameter.
    pub open spec fn spec_code(self) -> nat {
        match self {
            Ansi::Reset => 0,
            Ansi::Bold => 1,
            Ansi::Faint => 2,
            Ansi::Italic => 3,
            Ansi::Underline => 4,
            Ansi::BlinkSlow => 5,
            Ansi::BlinkRapid => 6,
            Ansi::ReverseVideo => 7,
            Ansi::Concealed => 8,
            Ansi::CrossedOut => 9,
            Ansi::FgBlack => 30,
            Ansi::FgRed => 31,
            Ansi::FgGreen => 32,
            Ansi::FgYellow => 33,
            Ansi::FgBlue => 34,
            Ansi::FgMagenta => 35,
            Ansi::FgCyan => 36,
            Ansi::FgWhite => 37,
            Ansi::FgHiBlack => 90,
            Ansi::FgHiRed => 91,
            Ansi::FgHiGreen => 92,
            Ansi::FgHiYellow => 93,
            Ansi::FgHiBlue => 94,
            Ansi::FgHiMagenta => 95,
            Ansi::FgHiCyan => 96,
            Ansi::FgHiWhite => 97,
            Ansi::BgBlack => 40,
            Ansi::BgRed => 41,
            Ansi::BgGreen => 42,
            Ansi::BgYellow => 43,
            Ansi::BgBlue => 44,
            Ansi::BgMagenta => 45,
            Ansi::BgCyan => 46,
            Ansi::BgWhite => 47,
            Ansi::BgHiBlack => 100,
            Ansi::BgHiRed => 101,
            Ansi::BgHiGreen => 102,
            Ansi::BgHiYellow => 103,
            Ansi::BgHiBlue => 104,
            Ansi::BgHiMagenta => 105,
            Ansi::BgHiCyan => 106,
            Ansi::BgHiWhite => 107,
        }
    }

    /// The escape sequence that this attribute renders to.
    pub open spec fn spec_escape(self) -> Seq<char> {
        escape(self.spec_code())
    }
}

/// The attribute whose SGR parameter is `code`, if there is one.
pub open spec fn from_code(code: nat) -> Option<Ansi> {
    if code == 0 {
        Some(Ansi::Reset)
    } else if code == 1 {
        Some(Ansi::Bold)
    } else if code == 2 {
        Some(Ansi::Faint)
    } else if code == 3 {
        Some(Ansi::Italic)
    } else if code == 4 {
        Some(Ansi::Underline)
    } else if code == 5 {
        Some(Ansi::BlinkSlow)
    } else if code == 6 {
        Some(Ansi::BlinkRapid)
    } else if code == 7 {
        Some(Ansi::ReverseVideo)
    } else if code == 8 {
        Some(Ansi::Concealed)
    } else if code == 9 {
        Some(Ansi::CrossedOut)
    } else if code == 30 {
        Some(Ansi::FgBlack)
    } else if code == 31 {
        Some(Ansi::FgRed)
    } else if code == 32 {
        Some(Ansi::FgGreen)
    } else if code == 33 {
        Some(Ansi::FgYellow)
    } else if code == 34 {
        Some(Ansi::FgBlue)
    } else if code == 35 {
        Some(Ansi::FgMagenta)
    } else if code == 36 {
        Some(Ansi::FgCyan)
    } else if code == 37 {
        Some(Ansi::FgWhite)
    } else if code == 90 {
        Some(Ansi::FgHiBlack)
    } else if code == 91 {
        Some(Ansi::FgHiRed)
    } else if code == 92 {
        Some(Ansi::FgHiGreen)
    } else if code == 93 {
        Some(Ansi::FgHiYellow)
    } else if code == 94 {
        Some(Ansi::FgHiBlue)
    } else if code == 95 {
        Some(Ansi::FgHiMagenta)
    } else if code == 96 {
        Some(Ansi::FgHiCyan)
    } else if code == 97 {
        Some(Ansi::FgHiWhite)
    } else if code == 40 {
        Some(Ansi::BgBlack)
    } else if code == 41 {
        Some(Ansi::BgRed)
    } else if code == 42 {
        Some(Ansi::BgGreen)
    } else if code == 43 {
        Some(Ansi::BgYellow)
    } else if code == 44 {
        Some(Ansi::BgBlue)
    } else if code == 45 {
        Some(Ansi::BgMagenta)
    } else if code == 46 {
        Some(Ansi::BgCyan)
    } else if code == 47 {
        Some(Ansi::BgWhite)
    } else if code == 100 {
        Some(Ansi::BgHiBlack)
    } else if code == 101 {
        Some(Ansi::BgHiRed)
    } else if code == 102 {
        Some(Ansi::BgHiGreen)
    } else if code == 103 {
        Some(Ansi::BgHiYellow)
    } else if code == 104 {
        Some(Ansi::BgHiBlue)
    } else if code == 105 {
        Some(Ansi::BgHiMagenta)
    } else if code == 106 {
        Some(Ansi::BgHiCyan)
    } else if code == 107 {
        Some(Ansi::BgHiWhite)
    } else {
        None
    }
}

/// Whether `c` is one of the ASCII digits `0` to `9`.
pub open spec fn is_ascii_digit(c: char) -> bool {
    '0' <= c && c <= '9'
}

/// The value of the decimal digit `c`.
pub open spec fn digit_value(c: char) -> nat {
    if c == '0' { 0 } else if c == '1' { 1 } else if c == '2' { 2 } else if c == '3' { 3 }
    else if c == '4' { 4 } else if c == '5' { 5 } else if c == '6' { 6 } else if c == '7' { 7 }
    else if c == '8' { 8 } else { 9 }
}

/// The number that the decimal digits `s` spell.
pub open spec fn decimal_value(s: Seq<char>) -> nat
    decreases s.len(),
{
    if s.len() == 0 {
        0
    } else {
        decimal_value(s.drop_last()) * 10 + digit_value(s.last())
    }
}

/// A decimal numeral is non-empty, made of ASCII digits, and spells its number.
pub proof fn lemma_decimal(n: nat)
    ensures
        decimal(n).len() >= 1,
        forall|i: int| 0 <= i < decimal(n).len() ==> is_ascii_digit(#[trigger] decimal(n)[i]),
        decimal_value(decimal(n)) == n,
    decreases n,
{
    if n >= 10 {
        lemma_decimal(n / 10);
        let d = decimal(n);
        assert(d.drop_last() =~= decimal(n / 10));
        assert(forall|i: int| 0 <= i < d.len() - 1 ==> d[i] == decimal(n / 10)[i]);
        assert(digit_value(d.last()) == n % 10);
        assert((n / 10) * 10 + n % 10 == n) by (nonlinear_arith);
        assert(decimal_value(d) == decimal_value(d.drop_last()) * 10 + digit_value(d.last()));
    } else {
        let d = decimal(n);
        assert(d.drop_last() =~= Seq::<char>::empty());
        assert(decimal_value(d.drop_last()) == 0);
        assert(digit_value(d.last()) == n);
        assert(decimal_value(d) == decimal_value(d.drop_last()) * 10 + digit_value(d.last()));
    }
}

/// No two attributes share an SGR parameter.
pub proof fn lemma_code_determines_attribute(a: Ansi)
    ensures
        from_code(a.spec_code()) == Some(a),
{
}

/// Every escape sequence is `ESC`, `[`, one or more ASCII digits without a
/// leading zero (but for the parameter 0 itself), then `m`.
pub proof fn lemma_escape_shape(a: Ansi)
    ensures
        a.spec_escape().len() >= 4,
        a.spec_escape()[0] == '\x1b',
        a.spec_escape()[1] == '[',
        a.spec_escape().last() == 'm',
        forall|i: int|
            2 <= i < a.spec_escape().len() - 1 ==> is_ascii_digit(#[trigger] a.spec_escape()[i]),
        a.spec_escape().len() > 4 ==> a.spec_escape()[2] != '0',
{
    let code = a.spec_code();
    lemma_decimal(code);
    let e = a.spec_escape();
    assert(forall|i: int| 2 <= i < e.len() - 1 ==> e[i] == decimal(code)[i - 2]);
    if e.len() > 4 {
        assert(decimal(code).len() >= 2);
        assert(code >= 10);
        assert(decimal(code)[0] != '0') by {
            lemma_leading_digit(code);
        }
    }
}

/// A numeral of two or more digits does not start with `0`.
proof fn lemma_leading_digit(n: nat)
    requires
        n >= 10,
    ensures
        decimal(n)[0] != '0',
    decreases n,
{
    lemma_decimal(n / 10);
    assert(decimal(n)[0] == decimal(n / 10)[0]);
    if n / 10 >= 10 {
        lemma_leading_digit(n / 10);
    }
}

/// Distinct attributes render to distinct escape sequences.
pub proof fn lemma_escape_injective(a: Ansi, b: Ansi)
    ensures
        a != b ==> a.spec_escape() != b.spec_escape(),
{
    if a.spec_escape() == b.spec_escape() {
        let (ca, cb) = (a.spec_code(), b.spec_code());
        lemma_decimal(ca);
        lemma_decimal(cb);
        let e = a.spec_escape();
        assert(e.subrange(2, e.len() - 1) =~= decimal(ca));
        assert(b.spec_escape().subrange(2, e.len() - 1) =~= decimal(cb));
        assert(ca == cb);
        lemma_code_determines_attribute(a);
        lemma_code_determines_attribute(b);
    }
}

impl Ansi {
    /// The attribute's SGR parameter.
    pub fn code(&self) -> (r: u8)
        ensures
            r == self.spec_code(),
    {
        match self {
            Ansi::Reset => 0,
            Ansi::Bold => 1,
            Ansi::Faint => 2,
            Ansi::Italic => 3,
            Ansi::Underline => 4,
            Ansi::BlinkSlow => 5,
            Ansi::BlinkRapid => 6,
            Ansi::ReverseVideo => 7,
            Ansi::Concealed => 8,
            Ansi::CrossedOut => 9,
            Ansi::FgBlack => 30,
            Ansi::FgRed => 31,
            Ansi::FgGreen => 32,
            Ansi::FgYellow => 33,
            Ansi::FgBlue => 34,
            Ansi::FgMagenta => 35,
            Ansi::FgCyan => 36,
            Ansi::FgWhite => 37,
            Ansi::FgHiBlack => 90,
            Ansi::FgHiRed => 91,
            Ansi::FgHiGreen => 92,
            Ansi::FgHiYellow => 93,
            Ansi::FgHiBlue => 94,
            Ansi::FgHiMagenta => 95,
            Ansi::FgHiCyan => 96,
            Ansi::FgHiWhite => 97,
            Ansi::BgBlack => 40,
            Ansi::BgRed => 41,
            Ansi::BgGreen => 42,
            Ansi::BgYellow => 43,
            Ansi::BgBlue => 44,
            Ansi::BgMagenta => 45,
            Ansi::BgCyan => 46,
            Ansi::BgWhite => 47,
            Ansi::BgHiBlack => 100,
            Ansi::BgHiRed => 101,
            Ansi::BgHiGreen => 102,
            Ansi::BgHiYellow => 103,
            Ansi::BgHiBlue => 104,
            Ansi::BgHiMagenta => 105,
            Ansi::BgHiCyan => 106,
            Ansi::BgHiWhite => 107,
        }
    }

    /// Renders the attribute as its escape sequence `ESC [ <code> m`.
    pub fn to_string(&self) -> (r: String)
        ensures
            r@ == self.spec_escape(),
    {
        let mut out = String::new();
        proof {
            reveal_strlit("\x1b[");
            reveal_strlit("m");
        }
        out.append("\x1b[");
        push_decimal(&mut out, self.code());
        out.append("m");
        out
    }
}

/// The one-character string that holds the decimal digit `d`.
fn digit_str(d: u8) -> (r: &'static str)
    requires
        d < 10,
    ensures
        r@ == seq![digit_char(d as nat)],
{
    proof {
        reveal_strlit("0");
        reveal_strlit("1");
        reveal_strlit("2");
        reveal_strlit("3");
        reveal_strlit("4");
        reveal_strlit("5");
        reveal_strlit("6");
        reveal_strlit("7");
        reveal_strlit("8");
        reveal_strlit("9");
    }
    match d {
        0 => "0",
        1 => "1",
        2 => "2",
        3 => "3",
        4 => "4",
        5 => "5",
        6 => "6",
        7 => "7",
        8 => "8",
        _ => "9",
    }
}

/// Appends `n` in decimal to `out`.
fn push_decimal(out: &mut String, n: u8)
    ensures
        final(out)@ == old(out)@ + decimal(n as nat),
    decreases n,
{
    if n >= 10 {
        push_decimal(out, n / 10);
    }
    out.append(digit_str(n % 10));
    proof {
        if n >= 10 {
            assert(decimal(n as nat) == decimal((n / 10) as nat).push(digit_char((n % 10) as nat)));
        }
    }
}

} // verus!
