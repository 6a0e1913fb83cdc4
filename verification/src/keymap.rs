//! Key codes and modifiers, the parsing of key-binding strings, and the
//! table of bindings the input handlers consult.

use vstd::prelude::*;
use crate::config::Keybindings;
use crate::text::{
    chars_of, eq_ignore_ascii_case, eq_ignore_ascii_case_seq, is_uppercase, lowercase, str_eq,
    to_lowercase, trim, trim_seq, uppercase_char,
};

verus! {

/// A key as the terminal reports it. Keys the application never binds are
/// reported as `Other`.
#[derive(Clone, Copy, Debug, PartialEq, Eq, Structural)]
pub enum KeyCode {
    Backspace,
    Enter,
    Left,
    Right,
    Up,
    Down,
    Home,
    End,
    PageUp,
    PageDown,
    Tab,
    BackTab,
    Delete,
    Insert,
    F(u8),
    Char(char),
    Null,
    Esc,
    Other,
}

/// The modifier keys held with a key, as a bit set.
#[derive(Clone, Copy, Debug, PartialEq, Eq, Structural)]
pub struct KeyModifiers {
    pub bits: u8,
}

impl KeyModifiers {
    /// No modifier held.
    pub fn none() -> (r: Self)
        ensures
            r == no_mods(),
    {
        KeyModifiers { bits: 0 }
    }

    /// Shift held alone.
    pub fn shift() -> (r: Self)
        ensures
            r == shift(),
    {
        KeyModifiers { bits: 1 }
    }

    /// Control held alone.
    pub fn control() -> (r: Self)
        ensures
            r == control(),
    {
        KeyModifiers { bits: 2 }
    }
}

/// No modifier.
pub open spec fn no_mods() -> KeyModifiers {
    KeyModifiers { bits: 0 }
}

/// Shift alone.
pub open spec fn shift() -> KeyModifiers {
    KeyModifiers { bits: 1 }
}

/// Control alone.
pub open spec fn control() -> KeyModifiers {
    KeyModifiers { bits: 2 }
}

/// A key with its modifiers, as a binding names it.
#[derive(Clone, Copy, Debug, PartialEq, Eq, Structural)]
pub struct ParsedKey {
    pub code: KeyCode,
    pub modifiers: KeyModifiers,
}

/// Whether a binding fires for a key press: the codes agree, and the
/// modifiers agree up to a Shift that is present on one side and absent on
/// the other.
pub open spec fn key_matches(k: ParsedKey, code: KeyCode, modifiers: KeyModifiers) -> bool {
    k.code == code && (k.modifiers == modifiers
        || (k.modifiers == no_mods() && modifiers == shift())
        || (k.modifiers == shift() && modifiers == no_mods()))
}

impl ParsedKey {
    pub fn matches(&self, code: KeyCode, modifiers: KeyModifiers) -> (r: bool)
        ensures
            r == key_matches(*self, code, modifiers),
    {
        if self.code == code {
            return self.modifiers == modifiers
                || (self.modifiers == KeyModifiers::none() && modifiers == KeyModifiers::shift())
                || (self.modifiers == KeyModifiers::shift() && modifiers == KeyModifiers::none());
        }
        false
    }
}

/// The key a special name (already lowercased) stands for, if it is one.
pub open spec fn named_key(l: Seq<char>) -> Option<ParsedKey> {
    if l == "esc"@ || l == "escape"@ {
        Some(ParsedKey { code: KeyCode::Esc, modifiers: no_mods() })
    }    else if l == "enter"@ {
        Some(ParsedKey { code: KeyCode::Enter, modifiers: no_mods() })
    }    else if l == "tab"@ {
        Some(ParsedKey { code: KeyCode::Tab, modifiers: no_mods() })
    }    else if l == "backspace"@ {
        Some(ParsedKey { code: KeyCode::Backspace, modifiers: no_mods() })
    }    else if l == "up"@ || l == "arrowup"@ || l == "arrow_up"@ {
        Some(ParsedKey { code: KeyCode::Up, modifiers: no_mods() })
    }    else if l == "down"@ || l == "arrowdown"@ || l == "arrow_down"@ {
        Some(ParsedKey { code: KeyCode::Down, modifiers: no_mods() })
    }    else if l == "left"@ || l == "arrowleft"@ || l == "arrow_left"@ {
        Some(ParsedKey { code: KeyCode::Left, modifiers: no_mods() })
    }    else if l == "right"@ || l == "arrowright"@ || l == "arrow_right"@ {
        Some(ParsedKey { code: KeyCode::Right, modifiers: no_mods() })
    }    else if l == "pageup"@ || l == "page_up"@ {
        Some(ParsedKey { code: KeyCode::PageUp, modifiers: no_mods() })
    }    else if l == "pagedown"@ || l == "page_down"@ {
        Some(ParsedKey { code: KeyCode::PageDown, modifiers: no_mods() })
    }    else if l == "ctrl+a"@ || l == "ctrl_a"@ {
        Some(ParsedKey { code: KeyCode::Char('a'), modifiers: control() })
    }    else if l == "ctrl+b"@ || l == "ctrl_b"@ {
        Some(ParsedKey { code: KeyCode::Char('b'), modifiers: control() })
    }    else if l == "ctrl+c"@ || l == "ctrl_c"@ {
        Some(ParsedKey { code: KeyCode::Char('c'), modifiers: control() })
    }    else if l == "ctrl+d"@ || l == "ctrl_d"@ {
        Some(ParsedKey { code: KeyCode::Char('d'), modifiers: control() })
    }    else if l == "ctrl+e"@ || l == "ctrl_e"@ {
        Some(ParsedKey { code: KeyCode::Char('e'), modifiers: control() })
    }    else if l == "ctrl+f"@ || l == "ctrl_f"@ {
        Some(ParsedKey { code: KeyCode::Char('f'), modifiers: control() })
    }    else if l == "ctrl+h"@ || l == "ctrl_h"@ {
        Some(ParsedKey { code: KeyCode::Char('h'), modifiers: control() })
    }    else if l == "ctrl+s"@ || l == "ctrl_s"@ {
        Some(ParsedKey { code: KeyCode::Char('s'), modifiers: control() })
    }    else if l == "ctrl+u"@ || l == "ctrl_u"@ {
        Some(ParsedKey { code: KeyCode::Char('u'), modifiers: control() })
    }    else if l == "ctrl+y"@ || l == "ctrl_y"@ {
        Some(ParsedKey { code: KeyCode::Char('y'), modifiers: control() })
    }    else if l == "ctrl+o"@ || l == "ctrl_o"@ {
        Some(ParsedKey { code: KeyCode::Char('o'), modifiers: control() })
    }    else if l == "ctrl+p"@ || l == "ctrl_p"@ {
        Some(ParsedKey { code: KeyCode::Char('p'), modifiers: control() })
    }    else if l == "ctrl+t"@ || l == "ctrl_t"@ {
        Some(ParsedKey { code: KeyCode::Char('t'), modifiers: control() })
    } else {
        None
    }
}

/// The letters that can be bound with Control.
pub open spec fn is_ctrl_letter(c: char) -> bool {
    c == 'a' || c == 'b' || c == 'c' || c == 'd' || c == 'e' || c == 'f' || c == 'h'
        || c == 's' || c == 'u' || c == 'y' || c == 'o' || c == 'p' || c == 't'
}

/// "ctrl+" or "ctrl_" followed by a letter names that same letter with
/// Control held.
pub proof fn lemma_ctrl_names(c: char)
    requires
        is_ctrl_letter(c),
    ensures
        named_key(seq!['c', 't', 'r', 'l', '+', c]) == Some(ParsedKey { code: KeyCode::Char(c), modifiers: control() }),
        named_key(seq!['c', 't', 'r', 'l', '_', c]) == Some(ParsedKey { code: KeyCode::Char(c), modifiers: control() }),
{
    let plus = seq!['c', 't', 'r', 'l', '+', c];
    let under = seq!['c', 't', 'r', 'l', '_', c];
    reveal_strlit("arrow_down");
    reveal_strlit("arrow_left");
    reveal_strlit("arrow_right");
    reveal_strlit("arrow_up");
    reveal_strlit("arrowdown");
    reveal_strlit("arrowleft");
    reveal_strlit("arrowright");
    reveal_strlit("arrowup");
    reveal_strlit("backspace");
    reveal_strlit("ctrl+a");
    reveal_strlit("ctrl+b");
    reveal_strlit("ctrl+c");
    reveal_strlit("ctrl+d");
    reveal_strlit("ctrl+e");
    reveal_strlit("ctrl+f");
    reveal_strlit("ctrl+h");
    reveal_strlit("ctrl+o");
    reveal_strlit("ctrl+p");
    reveal_strlit("ctrl+s");
    reveal_strlit("ctrl+t");
    reveal_strlit("ctrl+u");
    reveal_strlit("ctrl+y");
    reveal_strlit("ctrl_a");
    reveal_strlit("ctrl_b");
    reveal_strlit("ctrl_c");
    reveal_strlit("ctrl_d");
    reveal_strlit("ctrl_e");
    reveal_strlit("ctrl_f");
    reveal_strlit("ctrl_h");
    reveal_strlit("ctrl_o");
    reveal_strlit("ctrl_p");
    reveal_strlit("ctrl_s");
    reveal_strlit("ctrl_t");
    reveal_strlit("ctrl_u");
    reveal_strlit("ctrl_y");
    reveal_strlit("down");
    reveal_strlit("enter");
    reveal_strlit("esc");
    reveal_strlit("escape");
    reveal_strlit("left");
    reveal_strlit("page_down");
    reveal_strlit("page_up");
    reveal_strlit("pagedown");
    reveal_strlit("pageup");
    reveal_strlit("right");
    reveal_strlit("tab");
    reveal_strlit("up");
    if c == 'a' {
        assert(plus =~= "ctrl+a"@);
        assert(under =~= "ctrl_a"@);
    }
    if c == 'b' {
        assert(plus =~= "ctrl+b"@);
        assert(under =~= "ctrl_b"@);
    }
    if c == 'c' {
        assert(plus =~= "ctrl+c"@);
        assert(under =~= "ctrl_c"@);
    }
    if c == 'd' {
        assert(plus =~= "ctrl+d"@);
        assert(under =~= "ctrl_d"@);
    }
    if c == 'e' {
        assert(plus =~= "ctrl+e"@);
        assert(under =~= "ctrl_e"@);
    }
    if c == 'f' {
        assert(plus =~= "ctrl+f"@);
        assert(under =~= "ctrl_f"@);
    }
    if c == 'h' {
        assert(plus =~= "ctrl+h"@);
        assert(under =~= "ctrl_h"@);
    }
    if c == 's' {
        assert(plus =~= "ctrl+s"@);
        assert(under =~= "ctrl_s"@);
    }
    if c == 'u' {
        assert(plus =~= "ctrl+u"@);
        assert(under =~= "ctrl_u"@);
    }
    if c == 'y' {
        assert(plus =~= "ctrl+y"@);
        assert(under =~= "ctrl_y"@);
    }
    if c == 'o' {
        assert(plus =~= "ctrl+o"@);
        assert(under =~= "ctrl_o"@);
    }
    if c == 'p' {
        assert(plus =~= "ctrl+p"@);
        assert(under =~= "ctrl_p"@);
    }
    if c == 't' {
        assert(plus =~= "ctrl+t"@);
        assert(under =~= "ctrl_t"@);
    }
}

/// Every name of a Control key is "ctrl", then '+' or '_', then the letter
/// of the key it names; names of the other special keys hold no modifier.
pub proof fn lemma_named_key_modifiers(l: Seq<char>)
    ensures
        named_key(l) matches Some(k) ==> (k.modifiers == control() ==> l.len() == 6 && l.subrange(0, 4) == "ctrl"@
            && (l[4] == '+' || l[4] == '_') && k.code == KeyCode::Char(l[5]) && is_ctrl_letter(l[5])),
        named_key(l) matches Some(k) ==> (k.modifiers != control() ==> k.modifiers == no_mods()),
{
    reveal_strlit("arrow_down");
    reveal_strlit("arrow_left");
    reveal_strlit("arrow_right");
    reveal_strlit("arrow_up");
    reveal_strlit("arrowdown");
    reveal_strlit("arrowleft");
    reveal_strlit("arrowright");
    reveal_strlit("arrowup");
    reveal_strlit("backspace");
    reveal_strlit("ctrl+a");
    reveal_strlit("ctrl+b");
    reveal_strlit("ctrl+c");
    reveal_strlit("ctrl+d");
    reveal_strlit("ctrl+e");
    reveal_strlit("ctrl+f");
    reveal_strlit("ctrl+h");
    reveal_strlit("ctrl+o");
    reveal_strlit("ctrl+p");
    reveal_strlit("ctrl+s");
    reveal_strlit("ctrl+t");
    reveal_strlit("ctrl+u");
    reveal_strlit("ctrl+y");
    reveal_strlit("ctrl_a");
    reveal_strlit("ctrl_b");
    reveal_strlit("ctrl_c");
    reveal_strlit("ctrl_d");
    reveal_strlit("ctrl_e");
    reveal_strlit("ctrl_f");
    reveal_strlit("ctrl_h");
    reveal_strlit("ctrl_o");
    reveal_strlit("ctrl_p");
    reveal_strlit("ctrl_s");
    reveal_strlit("ctrl_t");
    reveal_strlit("ctrl_u");
    reveal_strlit("ctrl_y");
    reveal_strlit("down");
    reveal_strlit("enter");
    reveal_strlit("esc");
    reveal_strlit("escape");
    reveal_strlit("left");
    reveal_strlit("page_down");
    reveal_strlit("page_up");
    reveal_strlit("pagedown");
    reveal_strlit("pageup");
    reveal_strlit("right");
    reveal_strlit("tab");
    reveal_strlit("up");
    reveal_strlit("ctrl");
    if named_key(l) is Some && named_key(l)->0.modifiers == control() {
        assert(l.len() == 6);
        assert(l.subrange(0, 4) =~= "ctrl"@);
    }
}

/// A binding whose trimmed, lowercased text is "ctrl+" or "ctrl_" followed
/// by a letter parses as that letter with Control held, whatever case it
/// was written in.
pub proof fn lemma_parse_ctrl_binding(s: Seq<char>, c: char, sep: char)
    requires
        is_ctrl_letter(c),
        sep == '+' || sep == '_',
        lowercase(trim_seq(s)) == seq!['c', 't', 'r', 'l', sep, c],
        s != " "@,
        !eq_ignore_ascii_case_seq(s, "space"@),
    ensures
        parse_spec(s) == (ParsedKey { code: KeyCode::Char(c), modifiers: control() }),
{
    lemma_ctrl_names(c);
}

/// What a binding string means: `" "` or "space" (any ASCII case) is the
/// space bar; otherwise the trimmed string names a special key (in any
/// case), or is a single character (Shift held when it is upper case), or
/// stands for its first character ('j' when it is empty).
pub open spec fn parse_spec(s: Seq<char>) -> ParsedKey {
    if s == " "@ || eq_ignore_ascii_case_seq(s, "space"@) {
        ParsedKey { code: KeyCode::Char(' '), modifiers: no_mods() }
    } else {
        let t = trim_seq(s);
        match named_key(lowercase(t)) {
            Some(k) => k,
            None => if t.len() == 1 {
                ParsedKey {
                    code: KeyCode::Char(t[0]),
                    modifiers: if uppercase_char(t[0]) { shift() } else { no_mods() },
                }
            } else {
                ParsedKey {
                    code: KeyCode::Char(if t.len() > 0 { t[0] } else { 'j' }),
                    modifiers: no_mods(),
                }
            },
        }
    }
}

/// The special key that a lowercased binding string names, if any (see
/// [`named_key`]).
pub fn named_key_exec(l: &str) -> (r: Option<ParsedKey>)
    ensures
        r == named_key(l@),
{
    if str_eq(l, "esc") || str_eq(l, "escape") {
        Some(ParsedKey { code: KeyCode::Esc, modifiers: KeyModifiers::none() })
    }    else if str_eq(l, "enter") {
        Some(ParsedKey { code: KeyCode::Enter, modifiers: KeyModifiers::none() })
    }    else if str_eq(l, "tab") {
        Some(ParsedKey { code: KeyCode::Tab, modifiers: KeyModifiers::none() })
    }    else if str_eq(l, "backspace") {
        Some(ParsedKey { code: KeyCode::Backspace, modifiers: KeyModifiers::none() })
    }    else if str_eq(l, "up") || str_eq(l, "arrowup") || str_eq(l, "arrow_up") {
        Some(ParsedKey { code: KeyCode::Up, modifiers: KeyModifiers::none() })
    }    else if str_eq(l, "down") || str_eq(l, "arrowdown") || str_eq(l, "arrow_down") {
        Some(ParsedKey { code: KeyCode::Down, modifiers: KeyModifiers::none() })
    }    else if str_eq(l, "left") || str_eq(l, "arrowleft") || str_eq(l, "arrow_left") {
        Some(ParsedKey { code: KeyCode::Left, modifiers: KeyModifiers::none() })
    }    else if str_eq(l, "right") || str_eq(l, "arrowright") || str_eq(l, "arrow_right") {
        Some(ParsedKey { code: KeyCode::Right, modifiers: KeyModifiers::none() })
    }    else if str_eq(l, "pageup") || str_eq(l, "page_up") {
        Some(ParsedKey { code: KeyCode::PageUp, modifiers: KeyModifiers::none() })
    }    else if str_eq(l, "pagedown") || str_eq(l, "page_down") {
        Some(ParsedKey { code: KeyCode::PageDown, modifiers: KeyModifiers::none() })
    }    else if str_eq(l, "ctrl+a") || str_eq(l, "ctrl_a") {
        Some(ParsedKey { code: KeyCode::Char('a'), modifiers: KeyModifiers::control() })
    }    else if str_eq(l, "ctrl+b") || str_eq(l, "ctrl_b") {
        Some(ParsedKey { code: KeyCode::Char('b'), modifiers: KeyModifiers::control() })
    }    else if str_eq(l, "ctrl+c") || str_eq(l, "ctrl_c") {
        Some(ParsedKey { code: KeyCode::Char('c'), modifiers: KeyModifiers::control() })
    }    else if str_eq(l, "ctrl+d") || str_eq(l, "ctrl_d") {
        Some(ParsedKey { code: KeyCode::Char('d'), modifiers: KeyModifiers::control() })
    }    else if str_eq(l, "ctrl+e") || str_eq(l, "ctrl_e") {
        Some(ParsedKey { code: KeyCode::Char('e'), modifiers: KeyModifiers::control() })
    }    else if str_eq(l, "ctrl+f") || str_eq(l, "ctrl_f") {
        Some(ParsedKey { code: KeyCode::Char('f'), modifiers: KeyModifiers::control() })
    }    else if str_eq(l, "ctrl+h") || str_eq(l, "ctrl_h") {
        Some(ParsedKey { code: KeyCode::Char('h'), modifiers: KeyModifiers::control() })
    }    else if str_eq(l, "ctrl+s") || str_eq(l, "ctrl_s") {
        Some(ParsedKey { code: KeyCode::Char('s'), modifiers: KeyModifiers::control() })
    }    else if str_eq(l, "ctrl+u") || str_eq(l, "ctrl_u") {
        Some(ParsedKey { code: KeyCode::Char('u'), modifiers: KeyModifiers::control() })
    }    else if str_eq(l, "ctrl+y") || str_eq(l, "ctrl_y") {
        Some(ParsedKey { code: KeyCode::Char('y'), modifiers: KeyModifiers::control() })
    }    else if str_eq(l, "ctrl+o") || str_eq(l, "ctrl_o") {
        Some(ParsedKey { code: KeyCode::Char('o'), modifiers: KeyModifiers::control() })
    }    else if str_eq(l, "ctrl+p") || str_eq(l, "ctrl_p") {
        Some(ParsedKey { code: KeyCode::Char('p'), modifiers: KeyModifiers::control() })
    }    else if str_eq(l, "ctrl+t") || str_eq(l, "ctrl_t") {
        Some(ParsedKey { code: KeyCode::Char('t'), modifiers: KeyModifiers::control() })
    } else {
        None
    }
}

/// Parses a binding string such as "j", "Ctrl+A", "Esc" or "Enter".
pub fn parse_keybinding(s: &str) -> (r: ParsedKey)
    ensures
        r == parse_spec(s@),
{
    if str_eq(s, " ") || eq_ignore_ascii_case(s, "space") {
        return ParsedKey { code: KeyCode::Char(' '), modifiers: KeyModifiers::none() };
    }
    let t = trim(s);
    let low = to_lowercase(t.as_str());
    match named_key_exec(low.as_str()) {
        Some(k) => k,
        None => {
            let chars = chars_of(t.as_str());
            if chars.len() == 1 {
                ParsedKey {
                    code: KeyCode::Char(chars[0]),
                    modifiers: if is_uppercase(chars[0]) { KeyModifiers::shift() } else { KeyModifiers::none() },
                }
            } else {
                ParsedKey {
                    code: KeyCode::Char(if chars.len() > 0 { chars[0] } else { 'j' }),
                    modifiers: KeyModifiers::none(),
                }
            }
        }
    }
}

/// Each binding string of a list, parsed.
pub open spec fn parse_all_spec(keys: Seq<String>) -> Seq<ParsedKey> {
    keys.map_values(|k: String| parse_spec(k@))
}

/// Whether any key of the list fires for a press.
pub open spec fn any_matches(keys: Seq<ParsedKey>, code: KeyCode, modifiers: KeyModifiers) -> bool {
    exists|i: int| 0 <= i < keys.len() && key_matches(#[trigger] keys[i], code, modifiers)
}

fn parse_all(keys: &Vec<String>) -> (r: Vec<ParsedKey>)
    ensures
        r@ == parse_all_spec(keys@),
{
    let mut out: Vec<ParsedKey> = Vec::new();
    let mut i: usize = 0;
    while i < keys.len()
        invariant
            i <= keys@.len(),
            out@ == parse_all_spec(keys@.subrange(0, i as int)),
        decreases keys@.len() - i,
    {
        out.push(parse_keybinding(keys[i].as_str()));
        i = i + 1;
        assert(out@ =~= parse_all_spec(keys@.subrange(0, i as int)));
    }
    assert(keys@.subrange(0, i as int) =~= keys@);
    out
}

fn any_match(keys: &Vec<ParsedKey>, code: KeyCode, modifiers: KeyModifiers) -> (r: bool)
    ensures
        r == any_matches(keys@, code, modifiers),
{
    let mut i: usize = 0;
    while i < keys.len()
        invariant
            i <= keys@.len(),
            forall|j: int| 0 <= j < i ==> !key_matches(#[trigger] keys@[j], code, modifiers),
        decreases keys@.len() - i,
    {
        if keys[i].matches(code, modifiers) {
            return true;
        }
        i = i + 1;
    }
    false
}

/// The parsed bindings of every action.
#[derive(Debug)]
pub struct KeyMap {
    pub quit: Vec<ParsedKey>,
    pub back: Vec<ParsedKey>,
    pub help: Vec<ParsedKey>,
    pub navigate_down: Vec<ParsedKey>,
    pub navigate_up: Vec<ParsedKey>,
    pub open_details: Vec<ParsedKey>,
    pub open_logs: Vec<ParsedKey>,
    pub open_shell: Vec<ParsedKey>,
    pub start_stop: Vec<ParsedKey>,
    pub restart: Vec<ParsedKey>,
    pub delete: Vec<ParsedKey>,
    pub search: Vec<ParsedKey>,
    pub toggle_selection: Vec<ParsedKey>,
    pub select_all: Vec<ParsedKey>,
    pub navigate_images: Vec<ParsedKey>,
    pub run_image: Vec<ParsedKey>,
    pub remove_image: Vec<ParsedKey>,
    pub remove_dangling_images: Vec<ParsedKey>,
    pub prune_images: Vec<ParsedKey>,
    pub events_export: Vec<ParsedKey>,
    pub jump_top: Vec<ParsedKey>,
    pub jump_bottom: Vec<ParsedKey>,
    pub statistics_sort: Vec<ParsedKey>,
    pub statistics_sort_desc: Vec<ParsedKey>,
    pub logs_export: Vec<ParsedKey>,
    pub toggle_timestamps: Vec<ParsedKey>,
    pub sort_direction: Vec<ParsedKey>,
}

impl KeyMap {
    /// Whether every list of the map is the parse of the matching list of `kb`.
    pub open spec fn built_from(self, kb: Keybindings) -> bool {
        &&& self.quit@ == parse_all_spec(kb.quit@)
        &&& self.back@ == parse_all_spec(kb.back@)
        &&& self.help@ == parse_all_spec(kb.help@)
        &&& self.navigate_down@ == parse_all_spec(kb.navigate_down@)
        &&& self.navigate_up@ == parse_all_spec(kb.navigate_up@)
        &&& self.open_details@ == parse_all_spec(kb.open_details@)
        &&& self.open_logs@ == parse_all_spec(kb.open_logs@)
        &&& self.open_shell@ == parse_all_spec(kb.open_shell@)
        &&& self.start_stop@ == parse_all_spec(kb.start_stop@)
        &&& self.restart@ == parse_all_spec(kb.restart@)
        &&& self.delete@ == parse_all_spec(kb.delete@)
        &&& self.search@ == parse_all_spec(kb.search@)
        &&& self.toggle_selection@ == parse_all_spec(kb.toggle_selection@)
        &&& self.select_all@ == parse_all_spec(kb.select_all@)
        &&& self.navigate_images@ == parse_all_spec(kb.navigate_images@)
        &&& self.run_image@ == parse_all_spec(kb.run_image@)
        &&& self.remove_image@ == parse_all_spec(kb.remove_image@)
        &&& self.remove_dangling_images@ == parse_all_spec(kb.remove_dangling_images@)
        &&& self.prune_images@ == parse_all_spec(kb.prune_images@)
        &&& self.events_export@ == parse_all_spec(kb.events_export@)
        &&& self.jump_top@ == parse_all_spec(kb.jump_top@)
        &&& self.jump_bottom@ == parse_all_spec(kb.jump_bottom@)
        &&& self.statistics_sort@ == parse_all_spec(kb.statistics_sort@)
        &&& self.statistics_sort_desc@ == parse_all_spec(kb.statistics_sort_desc@)
        &&& self.logs_export@ == parse_all_spec(kb.logs_export@)
        &&& self.toggle_timestamps@ == parse_all_spec(kb.toggle_timestamps@)
        &&& self.sort_direction@ == parse_all_spec(kb.sort_direction@)
    }

    pub fn from_keybindings(keybindings: &Keybindings) -> (r: Self)
        ensures
            r.built_from(*keybindings),
    {
        KeyMap {
            quit: parse_all(&keybindings.quit),
            back: parse_all(&keybindings.back),
            help: parse_all(&keybindings.help),
            navigate_down: parse_all(&keybindings.navigate_down),
            navigate_up: parse_all(&keybindings.navigate_up),
            open_details: parse_all(&keybindings.open_details),
            open_logs: parse_all(&keybindings.open_logs),
            open_shell: parse_all(&keybindings.open_shell),
            start_stop: parse_all(&keybindings.start_stop),
            restart: parse_all(&keybindings.restart),
            delete: parse_all(&keybindings.delete),
            search: parse_all(&keybindings.search),
            toggle_selection: parse_all(&keybindings.toggle_selection),
            select_all: parse_all(&keybindings.select_all),
            navigate_images: parse_all(&keybindings.navigate_images),
            run_image: parse_all(&keybindings.run_image),
            remove_image: parse_all(&keybindings.remove_image),
            remove_dangling_images: parse_all(&keybindings.remove_dangling_images),
            prune_images: parse_all(&keybindings.prune_images),
            events_export: parse_all(&keybindings.events_export),
            jump_top: parse_all(&keybindings.jump_top),
            jump_bottom: parse_all(&keybindings.jump_bottom),
            statistics_sort: parse_all(&keybindings.statistics_sort),
            statistics_sort_desc: parse_all(&keybindings.statistics_sort_desc),
            logs_export: parse_all(&keybindings.logs_export),
            toggle_timestamps: parse_all(&keybindings.toggle_timestamps),
            sort_direction: parse_all(&keybindings.sort_direction),
        }
    }

    pub fn is_quit(&self, code: KeyCode, modifiers: KeyModifiers) -> (r: bool)
        ensures
            r == any_matches(self.quit@, code, modifiers),
    {
        any_match(&self.quit, code, modifiers)
    }

    pub fn is_back(&self, code: KeyCode, modifiers: KeyModifiers) -> (r: bool)
        ensures
            r == any_matches(self.back@, code, modifiers),
    {
        any_match(&self.back, code, modifiers)
    }

    pub fn is_help(&self, code: KeyCode, modifiers: KeyModifiers) -> (r: bool)
        ensures
            r == any_matches(self.help@, code, modifiers),
    {
        any_match(&self.help, code, modifiers)
    }

    pub fn is_navigate_down(&self, code: KeyCode, modifiers: KeyModifiers) -> (r: bool)
        ensures
            r == any_matches(self.navigate_down@, code, modifiers),
    {
        any_match(&self.navigate_down, code, modifiers)
    }

    pub fn is_navigate_up(&self, code: KeyCode, modifiers: KeyModifiers) -> (r: bool)
        ensures
            r == any_matches(self.navigate_up@, code, modifiers),
    {
        any_match(&self.navigate_up, code, modifiers)
    }

    pub fn is_open_details(&self, code: KeyCode, modifiers: KeyModifiers) -> (r: bool)
        ensures
            r == any_matches(self.open_details@, code, modifiers),
    {
        any_match(&self.open_details, code, modifiers)
    }

    pub fn is_open_logs(&self, code: KeyCode, modifiers: KeyModifiers) -> (r: bool)
        ensures
            r == any_matches(self.open_logs@, code, modifiers),
    {
        any_match(&self.open_logs, code, modifiers)
    }

    pub fn is_open_shell(&self, code: KeyCode, modifiers: KeyModifiers) -> (r: bool)
        ensures
            r == any_matches(self.open_shell@, code, modifiers),
    {
        any_match(&self.open_shell, code, modifiers)
    }

    pub fn is_start_stop(&self, code: KeyCode, modifiers: KeyModifiers) -> (r: bool)
        ensures
            r == any_matches(self.start_stop@, code, modifiers),
    {
        any_match(&self.start_stop, code, modifiers)
    }

    pub fn is_restart(&self, code: KeyCode, modifiers: KeyModifiers) -> (r: bool)
        ensures
            r == any_matches(self.restart@, code, modifiers),
    {
        any_match(&self.restart, code, modifiers)
    }

    pub fn is_delete(&self, code: KeyCode, modifiers: KeyModifiers) -> (r: bool)
        ensures
            r == any_matches(self.delete@, code, modifiers),
    {
        any_match(&self.delete, code, modifiers)
    }

    pub fn is_search(&self, code: KeyCode, modifiers: KeyModifiers) -> (r: bool)
        ensures
            r == any_matches(self.search@, code, modifiers),
    {
        any_match(&self.search, code, modifiers)
    }

    pub fn is_toggle_selection(&self, code: KeyCode, modifiers: KeyModifiers) -> (r: bool)
        ensures
            r == any_matches(self.toggle_selection@, code, modifiers),
    {
        any_match(&self.toggle_selection, code, modifiers)
    }

    pub fn is_select_all(&self, code: KeyCode, modifiers: KeyModifiers) -> (r: bool)
        ensures
            r == any_matches(self.select_all@, code, modifiers),
    {
        any_match(&self.select_all, code, modifiers)
    }

    pub fn is_navigate_images(&self, code: KeyCode, modifiers: KeyModifiers) -> (r: bool)
        ensures
            r == any_matches(self.navigate_images@, code, modifiers),
    {
        any_match(&self.navigate_images, code, modifiers)
    }

    pub fn is_run_image(&self, code: KeyCode, modifiers: KeyModifiers) -> (r: bool)
        ensures
            r == any_matches(self.run_image@, code, modifiers),
    {
        any_match(&self.run_image, code, modifiers)
    }

    pub fn is_remove_image(&self, code: KeyCode, modifiers: KeyModifiers) -> (r: bool)
        ensures
            r == any_matches(self.remove_image@, code, modifiers),
    {
        any_match(&self.remove_image, code, modifiers)
    }

    pub fn is_remove_dangling_images(&self, code: KeyCode, modifiers: KeyModifiers) -> (r: bool)
        ensures
            r == any_matches(self.remove_dangling_images@, code, modifiers),
    {
        any_match(&self.remove_dangling_images, code, modifiers)
    }

    pub fn is_prune_images(&self, code: KeyCode, modifiers: KeyModifiers) -> (r: bool)
        ensures
            r == any_matches(self.prune_images@, code, modifiers),
    {
        any_match(&self.prune_images, code, modifiers)
    }

    pub fn is_events_export(&self, code: KeyCode, modifiers: KeyModifiers) -> (r: bool)
        ensures
            r == any_matches(self.events_export@, code, modifiers),
    {
        any_match(&self.events_export, code, modifiers)
    }

    pub fn is_jump_top(&self, code: KeyCode, modifiers: KeyModifiers) -> (r: bool)
        ensures
            r == any_matches(self.jump_top@, code, modifiers),
    {
        any_match(&self.jump_top, code, modifiers)
    }

    pub fn is_jump_bottom(&self, code: KeyCode, modifiers: KeyModifiers) -> (r: bool)
        ensures
            r == any_matches(self.jump_bottom@, code, modifiers),
    {
        any_match(&self.jump_bottom, code, modifiers)
    }

    pub fn is_statistics_sort(&self, code: KeyCode, modifiers: KeyModifiers) -> (r: bool)
        ensures
            r == any_matches(self.statistics_sort@, code, modifiers),
    {
        any_match(&self.statistics_sort, code, modifiers)
    }

    pub fn is_statistics_sort_desc(&self, code: KeyCode, modifiers: KeyModifiers) -> (r: bool)
        ensures
            r == any_matches(self.statistics_sort_desc@, code, modifiers),
    {
        any_match(&self.statistics_sort_desc, code, modifiers)
    }

    pub fn is_logs_export(&self, code: KeyCode, modifiers: KeyModifiers) -> (r: bool)
        ensures
            r == any_matches(self.logs_export@, code, modifiers),
    {
        any_match(&self.logs_export, code, modifiers)
    }

    pub fn is_toggle_timestamps(&self, code: KeyCode, modifiers: KeyModifiers) -> (r: bool)
        ensures
            r == any_matches(self.toggle_timestamps@, code, modifiers),
    {
        any_match(&self.toggle_timestamps, code, modifiers)
    }

    pub fn is_sort_direction(&self, code: KeyCode, modifiers: KeyModifiers) -> (r: bool)
        ensures
            r == any_matches(self.sort_direction@, code, modifiers),
    {
        any_match(&self.sort_direction, code, modifiers)
    }
}

impl Default for KeyMap {
    fn default() -> (r: Self)
        ensures
            exists|kb: Keybindings| kb.is_default() && r.built_from(kb),
    {
        let kb = Keybindings::default();
        KeyMap::from_keybindings(&kb)
    }
}

} // verus!
