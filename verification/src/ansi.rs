//! Colours and emphasis in container log lines: the SGR escape sequences
//! (`ESC [ codes m`) that programs write to colour their output, turned into
//! runs of text that share one style.

use vstd::prelude::*;
use crate::text::{all_digits, chars_of, digits_value, is_digit, split_chars, split_seq, string_of, unsigned_digits};

verus! {

/// The colours a log line can ask for.
#[derive(Clone, Copy, Debug, PartialEq, Eq, Structural)]
pub enum Color {
    Reset,
    Black,
    Red,
    Green,
    Yellow,
    Blue,
    Magenta,
    Cyan,
    White,
    DarkGray,
    LightRed,
    LightGreen,
    LightYellow,
    LightBlue,
    LightMagenta,
    LightCyan,
}

/// How a run of text is drawn: its colours (`None` keeps the colour of what
/// lies beneath) and its emphasis.
#[derive(Clone, Copy, Debug, PartialEq, Eq, Structural)]
pub struct TextStyle {
    pub fg: Option<Color>,
    pub bg: Option<Color>,
    pub bold: bool,
    pub italic: bool,
    pub underlined: bool,
    pub reversed: bool,
}

/// A run of text in one style.
#[derive(Debug)]
pub struct StyledText {
    pub text: String,
    pub style: TextStyle,
}

/// The style a log line starts in: white text, no emphasis.
pub open spec fn plain() -> TextStyle {
    TextStyle { fg: Some(Color::White), bg: None, bold: false, italic: false, underlined: false, reversed: false }
}

fn plain_exec() -> (r: TextStyle)
    ensures
        r == plain(),
{
    TextStyle { fg: Some(Color::White), bg: None, bold: false, italic: false, underlined: false, reversed: false }
}

/// The colour of a normal colour index (0 to 7: black, red, green, yellow,
/// blue, magenta, cyan, white); any other index resets.
pub open spec fn normal_color(n: nat) -> Color {
    if n == 0 { Color::Black }
    else if n == 1 { Color::Red }
    else if n == 2 { Color::Green }
    else if n == 3 { Color::Yellow }
    else if n == 4 { Color::Blue }
    else if n == 5 { Color::Magenta }
    else if n == 6 { Color::Cyan }
    else if n == 7 { Color::White }
    else { Color::Reset }
}

/// The colour of a bright colour index (0 to 7); any other index resets.
pub open spec fn bright_color(n: nat) -> Color {
    if n == 0 { Color::DarkGray }
    else if n == 1 { Color::LightRed }
    else if n == 2 { Color::LightGreen }
    else if n == 3 { Color::LightYellow }
    else if n == 4 { Color::LightBlue }
    else if n == 5 { Color::LightMagenta }
    else if n == 6 { Color::LightCyan }
    else if n == 7 { Color::White }
    else { Color::Reset }
}

/// The colour of a normal colour index (see [`normal_color`]).
pub fn ansi_color(n: u8) -> (r: Color)
    ensures
        r == normal_color(n as nat),
{
    match n {
        0 => Color::Black,
        1 => Color::Red,
        2 => Color::Green,
        3 => Color::Yellow,
        4 => Color::Blue,
        5 => Color::Magenta,
        6 => Color::Cyan,
        7 => Color::White,
        _ => Color::Reset,
    }
}

/// The colour of a bright colour index (see [`bright_color`]).
pub fn ansi_bright_color(n: u8) -> (r: Color)
    ensures
        r == bright_color(n as nat),
{
    match n {
        0 => Color::DarkGray,
        1 => Color::LightRed,
        2 => Color::LightGreen,
        3 => Color::LightYellow,
        4 => Color::LightBlue,
        5 => Color::LightMagenta,
        6 => Color::LightCyan,
        7 => Color::White,
        _ => Color::Reset,
    }
}

/// The style after one SGR code: 0 resets to [`plain`], 1, 3, 4 and 7 add
/// bold, italic, underline and reverse video, 30 to 37 and 90 to 97 set the
/// text colour, 40 to 47 the background; other codes change nothing.
pub open spec fn sgr(st: TextStyle, n: nat) -> TextStyle {
    if n == 0 {
        plain()
    } else if n == 1 {
        TextStyle { bold: true, ..st }
    } else if n == 3 {
        TextStyle { italic: true, ..st }
    } else if n == 4 {
        TextStyle { underlined: true, ..st }
    } else if n == 7 {
        TextStyle { reversed: true, ..st }
    } else if 30 <= n <= 37 {
        TextStyle { fg: Some(normal_color((n - 30) as nat)), ..st }
    } else if 40 <= n <= 47 {
        TextStyle { bg: Some(normal_color((n - 40) as nat)), ..st }
    } else if 90 <= n <= 97 {
        TextStyle { fg: Some(bright_color((n - 90) as nat)), ..st }
    } else {
        st
    }
}

/// Each emphasis code turns on its own flag and changes nothing else: 1
/// bold, 3 italic, 4 underlined, 7 reversed. No other code turns one of
/// these flags on, and no code but 0 (the reset) turns one off.
pub proof fn lemma_sgr_emphasis(st: TextStyle, n: nat)
    ensures
        n == 1 ==> sgr(st, n) == (TextStyle { bold: true, ..st }),
        n == 3 ==> sgr(st, n) == (TextStyle { italic: true, ..st }),
        n == 4 ==> sgr(st, n) == (TextStyle { underlined: true, ..st }),
        n == 7 ==> sgr(st, n) == (TextStyle { reversed: true, ..st }),
        sgr(st, n).bold && !st.bold ==> n == 1,
        sgr(st, n).italic && !st.italic ==> n == 3,
        sgr(st, n).underlined && !st.underlined ==> n == 4,
        sgr(st, n).reversed && !st.reversed ==> n == 7,
        n != 0 ==> (st.bold ==> sgr(st, n).bold) && (st.italic ==> sgr(st, n).italic)
            && (st.underlined ==> sgr(st, n).underlined) && (st.reversed ==> sgr(st, n).reversed),
{
}

/// Colour codes change one colour and nothing else: 30 to 37 and 90 to 97
/// set the foreground, 40 to 47 the background. Different codes of one
/// range give different colours; a normal and a bright code give the same
/// colour only for white (37 and 97).
pub proof fn lemma_sgr_colours(st: TextStyle, n: nat, m: nat)
    ensures
        (30 <= n <= 37 || 90 <= n <= 97) ==> sgr(st, n) == (TextStyle { fg: sgr(st, n).fg, ..st }) && sgr(st, n).fg is Some,
        40 <= n <= 47 ==> sgr(st, n) == (TextStyle { bg: sgr(st, n).bg, ..st }) && sgr(st, n).bg is Some,
        n < 8 && m < 8 && n != m ==> normal_color(n) != normal_color(m) && bright_color(n) != bright_color(m),
        n < 8 && m < 8 && normal_color(n) == bright_color(m) ==> n == 7 && m == 7,
        n < 8 ==> normal_color(n) != Color::Reset && bright_color(n) != Color::Reset,
{
}

fn sgr_exec(st: TextStyle, n: u8) -> (r: TextStyle)
    ensures
        r == sgr(st, n as nat),
{
    if n == 0 {
        plain_exec()
    } else if n == 1 {
        TextStyle { bold: true, ..st }
    } else if n == 3 {
        TextStyle { italic: true, ..st }
    } else if n == 4 {
        TextStyle { underlined: true, ..st }
    } else if n == 7 {
        TextStyle { reversed: true, ..st }
    } else if 30 <= n && n <= 37 {
        TextStyle { fg: Some(ansi_color(n - 30)), ..st }
    } else if 40 <= n && n <= 47 {
        TextStyle { bg: Some(ansi_color(n - 40)), ..st }
    } else if 90 <= n && n <= 97 {
        TextStyle { fg: Some(ansi_bright_color(n - 90)), ..st }
    } else {
        st
    }
}

/// Whether `str::parse::<u8>` accepts `s`: an optional '+', then at least
/// one ASCII digit, with a value below 256.
pub open spec fn parses_as_u8(s: Seq<char>) -> bool {
    let d = unsigned_digits(s);
    &&& d.len() > 0
    &&& all_digits(d)
    &&& digits_value(d) <= 255
}

/// The value of `s` as a `u8`, if `str::parse::<u8>` accepts it.
pub fn parse_u8(s: &Vec<char>) -> (r: Option<u8>)
    ensures
        r == (if parses_as_u8(s@) { Some(digits_value(unsigned_digits(s@)) as u8) } else { None }),
{
    let start: usize = if s.len() > 0 && s[0] == '+' { 1 } else { 0 };
    let ghost d = unsigned_digits(s@);
    assert(d =~= s@.subrange(start as int, s@.len() as int));
    if start >= s.len() {
        return None;
    }
    let mut value: u32 = 0;
    let mut i = start;
    while i < s.len()
        invariant
            start <= i <= s@.len(),
            d == unsigned_digits(s@),
            d =~= s@.subrange(start as int, s@.len() as int),
            forall|k: int| start <= k < i ==> is_digit(#[trigger] s@[k]),
            value == digits_value(s@.subrange(start as int, i as int)),
            value <= 255,
        decreases s@.len() - i,
    {
        let c = s[i];
        assert(s@.subrange(start as int, i + 1).drop_last() =~= s@.subrange(start as int, i as int));
        if !('0' <= c && c <= '9') {
            assert(d[i - start] == c);
            assert(!is_digit(d[i - start]));
            assert(!(forall|k: int| 0 <= k < d.len() ==> is_digit(#[trigger] d[k])));
            return None;
        }
        let v = value * 10 + ((c as u32) - ('0' as u32));
        if v > 255 {
            proof {
                let p = s@.subrange(start as int, i + 1);
                assert(p.last() == c);
                assert(digits_value(p) == v);
                assert(d.subrange(0, p.len() as int) =~= p);
                crate::text::lemma_digits_grow(p, d);
            }
            return None;
        }
        value = v;
        i = i + 1;
    }
    assert(s@.subrange(start as int, i as int) =~= d);
    Some(value as u8)
}

/// The style after the codes of one escape sequence, applied in order;
/// codes that are not numbers below 256 are skipped.
pub open spec fn apply_codes(st: TextStyle, parts: Seq<Seq<char>>) -> TextStyle
    decreases parts.len(),
{
    if parts.len() == 0 {
        st
    } else {
        let before = apply_codes(st, parts.drop_last());
        if parses_as_u8(parts.last()) { sgr(before, digits_value(unsigned_digits(parts.last()))) } else { before }
    }
}

/// The escape character that starts a control sequence.
pub open spec fn esc() -> char {
    '\u{1b}'
}

/// Where the codes of an escape sequence that start at `j` end: at the
/// first character from `j` on that is neither a digit nor ';'.
pub open spec fn codes_end(s: Seq<char>, j: int) -> int
    decreases s.len() - j,
{
    if 0 <= j < s.len() && (is_digit(s[j]) || s[j] == ';') { codes_end(s, j + 1) } else { j }
}

proof fn lemma_codes_end(s: Seq<char>, j: int)
    requires
        0 <= j,
    ensures
        j <= codes_end(s, j),
        j <= s.len() ==> codes_end(s, j) <= s.len(),
    decreases s.len() - j,
{
    if 0 <= j < s.len() && (is_digit(s[j]) || s[j] == ';') {
        lemma_codes_end(s, j + 1);
    }
}

/// The runs of `s` from position `i` on, given the style in force, the text
/// not yet closed into a run and the runs found so far. Text collects until
/// an escape character followed by '['; the collected text closes into a
/// run, the digits and ';' that follow are the codes, the character after
/// them ends the sequence, and the codes change the style for what follows.
pub open spec fn ansi_scan(s: Seq<char>, i: int, st: TextStyle, buf: Seq<char>, runs: Seq<(Seq<char>, TextStyle)>) -> Seq<(Seq<char>, TextStyle)>
    decreases s.len() - i,
{
    if i < 0 || i >= s.len() {
        if buf.len() > 0 { runs.push((buf, st)) } else { runs }
    } else if s[i] == esc() && i + 1 < s.len() && s[i + 1] == '[' {
        let closed = if buf.len() > 0 { runs.push((buf, st)) } else { runs };
        let e = codes_end(s, i + 2);
        let next = if e + 1 < s.len() { e + 1 } else { s.len() as int };
        if next <= i {
            runs
        } else {
            ansi_scan(s, next, apply_codes(st, split_seq(s.subrange(i + 2, e), ';')), Seq::empty(), closed)
        }
    } else {
        ansi_scan(s, i + 1, st, buf.push(s[i]), runs)
    }
}

/// The styled runs of a log line: [`ansi_scan`] from the start in the
/// [`plain`] style, or, when that finds no text at all, the whole line in
/// the plain style.
pub open spec fn ansi_runs(s: Seq<char>) -> Seq<(Seq<char>, TextStyle)> {
    let r = ansi_scan(s, 0, plain(), Seq::empty(), Seq::empty());
    if r.len() == 0 { seq![(s, plain())] } else { r }
}

/// A run as a pair of its text and its style.
pub open spec fn run_view(x: StyledText) -> (Seq<char>, TextStyle) {
    (x.text@, x.style)
}

fn apply_codes_exec(st: TextStyle, codes: &Vec<char>) -> (r: TextStyle)
    ensures
        r == apply_codes(st, split_seq(codes@, ';')),
{
    let parts = split_chars(codes, ';');
    let ghost pv = parts@.map_values(|p: Vec<char>| p@);
    let mut cur = st;
    let mut k: usize = 0;
    while k < parts.len()
        invariant
            k <= parts@.len(),
            pv == parts@.map_values(|p: Vec<char>| p@),
            pv == split_seq(codes@, ';'),
            cur == apply_codes(st, pv.subrange(0, k as int)),
        decreases parts@.len() - k,
    {
        assert(pv.subrange(0, k + 1).drop_last() =~= pv.subrange(0, k as int));
        assert(pv.subrange(0, k + 1).last() == parts@[k as int]@);
        if let Some(n) = parse_u8(&parts[k]) {
            cur = sgr_exec(cur, n);
        }
        k = k + 1;
    }
    assert(pv.subrange(0, k as int) =~= pv);
    cur
}

/// The styled runs of a log line (see [`ansi_runs`]).
pub fn parse_ansi(message: &str) -> (r: Vec<StyledText>)
    ensures
        r@.map_values(|x: StyledText| run_view(x)) == ansi_runs(message@),
{
    let s = chars_of(message);
    let ghost sv = s@;
    let mut runs: Vec<StyledText> = Vec::new();
    let mut style = plain_exec();
    let mut buf: Vec<char> = Vec::new();
    let mut i: usize = 0;
    assert(runs@.map_values(|x: StyledText| run_view(x)) =~= Seq::<(Seq<char>, TextStyle)>::empty());
    assert(buf@ =~= Seq::<char>::empty());
    while i < s.len()
        invariant
            sv == s@,
            sv == message@,
            i <= sv.len(),
            ansi_scan(sv, i as int, style, buf@, runs@.map_values(|x: StyledText| run_view(x)))
                == ansi_scan(sv, 0, plain(), Seq::empty(), Seq::empty()),
        decreases sv.len() - i,
    {
        let ghost before = runs@.map_values(|x: StyledText| run_view(x));
        if s[i] == '\u{1b}' && i + 1 < s.len() && s[i + 1] == '[' {
            if buf.len() > 0 {
                runs.push(StyledText { text: string_of(buf.as_slice()), style });
                assert(runs@.map_values(|x: StyledText| run_view(x)) =~= before.push((buf@, style)));
            } else {
                assert(runs@.map_values(|x: StyledText| run_view(x)) =~= before);
            }
            buf = Vec::new();
            let mut j = i + 2;
            proof {
                lemma_codes_end(sv, i + 2);
            }
            while j < s.len() && (('0' <= s[j] && s[j] <= '9') || s[j] == ';')
                invariant
                    sv == s@,
                    i + 2 <= j <= sv.len(),
                    codes_end(sv, j as int) == codes_end(sv, i + 2),
                decreases sv.len() - j,
            {
                j = j + 1;
            }
            let mut codes: Vec<char> = Vec::new();
            let mut k = i + 2;
            while k < j
                invariant
                    sv == s@,
                    i + 2 <= k <= j <= sv.len(),
                    codes@ == sv.subrange(i + 2, k as int),
                decreases j - k,
            {
                codes.push(s[k]);
                k = k + 1;
                assert(codes@ =~= sv.subrange(i + 2, k as int));
            }
            style = apply_codes_exec(style, &codes);
            i = if j < s.len() - 1 { j + 1 } else { s.len() };
        } else {
            buf.push(s[i]);
            i = i + 1;
        }
    }
    let ghost before = runs@.map_values(|x: StyledText| run_view(x));
    if buf.len() > 0 {
        runs.push(StyledText { text: string_of(buf.as_slice()), style });
        assert(runs@.map_values(|x: StyledText| run_view(x)) =~= before.push((buf@, style)));
    }
    if runs.len() == 0 {
        runs.push(StyledText { text: string_of(s.as_slice()), style: plain_exec() });
        assert(runs@.map_values(|x: StyledText| run_view(x)) =~= seq![(sv, plain())]);
    }
    runs
}

} // verus!
