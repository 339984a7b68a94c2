//! What a terminal sends: keys, the mouse, pastes.

use crate::text;
use vstd::prelude::*;

verus! {

#[derive(Debug, Clone, Copy, PartialEq, Eq, Structural)]
pub enum KeyCode {
    Backspace,
    Enter,
    Left,
    Right,
    Up,
    Down,
    Home,
    End,
    PageUp,
    PageDown,
    Tab,
    BackTab,
    Delete,
    Insert,
    Esc,
    F(u8),
    Char(char),
    Other,
}

#[derive(Debug, Clone, Copy, PartialEq, Eq, Structural)]
pub struct KeyModifiers {
    pub shift: bool,
    pub alt: bool,
    pub control: bool,
    pub command: bool,
    pub hyper: bool,
    pub meta: bool,
}

#[derive(Debug, Clone, Copy, PartialEq, Eq, Structural)]
pub enum KeyEventKind {
    Press,
    Repeat,
    Release,
}

#[derive(Debug, Clone, Copy, PartialEq, Eq, Structural)]
pub struct KeyEvent {
    pub code: KeyCode,
    pub modifiers: KeyModifiers,
    pub kind: KeyEventKind,
}

#[derive(Debug, Clone, Copy, PartialEq, Eq, Structural)]
pub enum MouseButton {
    Left,
    Right,
    Middle,
}

#[derive(Debug, Clone, Copy, PartialEq, Eq, Structural)]
pub enum MouseEventKind {
    Down(MouseButton),
    Up(MouseButton),
    Drag(MouseButton),
    Moved,
    ScrollUp,
    ScrollDown,
    ScrollLeft,
    ScrollRight,
}

#[derive(Debug, Clone, Copy, PartialEq, Eq, Structural)]
pub struct MouseEvent {
    pub kind: MouseEventKind,
    pub column: u16,
    pub row: u16,
    pub modifiers: KeyModifiers,
}

#[derive(Debug, Clone, PartialEq, Eq)]
pub enum TermEvent {
    Key(KeyEvent),
    Mouse(MouseEvent),
    Paste(String),
    Resize(u16, u16),
    FocusGained,
    FocusLost,
}

/// `char::from_u32` of std: the scalar value with this number, if there is
/// one.
pub assume_specification[ std::char::from_u32 ](n: u32) -> (r: Option<char>)
    ensures
        r == (if n <= 0xD7FF || (0xE000 <= n && n <= 0x10FFFF) {
            Some(n as char)
        } else {
            None
        }),
;

/// The modifiers that the bits of a key report stand for.
pub open spec fn modifiers_of(mask: u32) -> KeyModifiers {
    KeyModifiers {
        shift: mask & 1u32 != 0,
        alt: mask & 2u32 != 0,
        control: mask & 4u32 != 0,
        command: mask & 8u32 != 0,
        hyper: mask & 16u32 != 0,
        meta: mask & 32u32 != 0,
    }
}

pub open spec fn code_of(c: char, modifiers: KeyModifiers) -> KeyCode {
    if c == '\u{1b}' {
        KeyCode::Esc
    } else if c == '\r' {
        KeyCode::Enter
    } else if c == '\t' {
        if modifiers.shift {
            KeyCode::BackTab
        } else {
            KeyCode::Tab
        }
    } else if c == '\u{7f}' {
        KeyCode::Backspace
    } else {
        KeyCode::Char(c)
    }
}

/// The modifier bits and the kind of press in the second field of a report.
pub open spec fn mask_and_kind(field: Seq<char>) -> Option<(u32, KeyEventKind)> {
    let parts = text::split_on(field, ':');
    match text::parsed_number(parts[0], u32::MAX as nat) {
        None => None,
        Some(mask) => if mask == 0 || parts.len() > 2 {
            None
        } else if parts.len() == 1 || parts[1] == "1"@ {
            Some(((mask - 1) as u32, KeyEventKind::Press))
        } else if parts[1] == "2"@ {
            Some(((mask - 1) as u32, KeyEventKind::Repeat))
        } else if parts[1] == "3"@ {
            Some(((mask - 1) as u32, KeyEventKind::Release))
        } else {
            None
        },
    }
}

/// The key that the parameters of one `CSI ... u` report name. Reports with
/// more than two fields are not understood.
pub open spec fn csi_u_key(params: Seq<char>) -> Option<KeyEvent> {
    let fields = text::split_on(params, ';');
    let number = text::parsed_number(text::split_on(fields[0], ':')[0], u32::MAX as nat);
    let rest = if fields.len() == 1 {
        Some((0u32, KeyEventKind::Press))
    } else if fields.len() == 2 {
        mask_and_kind(fields[1])
    } else {
        None
    };
    match (number, rest) {
        (Some(n), Some((mask, kind))) => if n <= 0xD7FF || 0xE000 <= n <= 0x10FFFF {
            Some(
                KeyEvent {
                    code: code_of(n as char, modifiers_of(mask)),
                    modifiers: modifiers_of(mask),
                    kind,
                },
            )
        } else {
            None
        },
        _ => None,
    }
}

fn read_mask_and_kind(field: &str) -> (r: Option<(u32, KeyEventKind)>)
    ensures
        r == mask_and_kind(field@),
{
    let parts = text::split(field, ':');
    assert(forall|i: int| 0 <= i < parts@.len() ==> text::views(parts@)[i] == parts@[i]@);
    let mask: u64 = match text::parse_number(parts[0].as_str(), u32::MAX as u64) {
        Some(m) => m,
        None => return None,
    };
    if mask == 0 || parts.len() > 2 {
        return None;
    }
    let bits: u32 = (mask - 1) as u32;
    if parts.len() == 1 || text::same(parts[1].as_str(), "1") {
        return Some((bits, KeyEventKind::Press));
    }
    if text::same(parts[1].as_str(), "2") {
        return Some((bits, KeyEventKind::Repeat));
    }
    if text::same(parts[1].as_str(), "3") {
        return Some((bits, KeyEventKind::Release));
    }
    None
}

fn decode_csi_u_key(params: &str) -> (r: Option<KeyEvent>)
    ensures
        r == csi_u_key(params@),
{
    let fields = text::split(params, ';');
    assert(forall|i: int| 0 <= i < fields@.len() ==> text::views(fields@)[i] == fields@[i]@);
    let head = text::split(fields[0].as_str(), ':');
    assert(text::views(head@)[0] == head@[0]@);
    let codepoint: u32 = match text::parse_number(head[0].as_str(), u32::MAX as u64) {
        Some(n) => n as u32,
        None => return None,
    };
    let (mask, kind): (u32, KeyEventKind) = if fields.len() == 1 {
        (0, KeyEventKind::Press)
    } else if fields.len() == 2 {
        match read_mask_and_kind(fields[1].as_str()) {
            Some(p) => p,
            None => return None,
        }
    } else {
        return None;
    };
    let modifiers = KeyModifiers {
        shift: mask & 1 != 0,
        alt: mask & 2 != 0,
        control: mask & 4 != 0,
        command: mask & 8 != 0,
        hyper: mask & 16 != 0,
        meta: mask & 32 != 0,
    };
    let c = match std::char::from_u32(codepoint) {
        Some(c) => c,
        None => return None,
    };
    let code = if c == '\u{1b}' {
        KeyCode::Esc
    } else if c == '\r' {
        KeyCode::Enter
    } else if c == '\t' {
        if modifiers.shift {
            KeyCode::BackTab
        } else {
            KeyCode::Tab
        }
    } else if c == '\u{7f}' {
        KeyCode::Backspace
    } else {
        KeyCode::Char(c)
    };
    Some(KeyEvent { code, modifiers, kind })
}

/// The keys of a text that is nothing but `CSI ... u` reports.
pub open spec fn csi_u_keys(s: Seq<char>) -> Option<Seq<KeyEvent>>
    decreases s.len(),
{
    if s.len() == 0 {
        Some(Seq::empty())
    } else if !text::has_prefix(s, seq!['\u{1b}', '[']) {
        None
    } else {
        let body = s.skip(2);
        let end = text::index_of_char(body, 'u');
        if end < 0 || end >= body.len() {
            None
        } else {
            match (csi_u_key(body.take(end)), csi_u_keys(body.skip(end + 1))) {
                (Some(key), Some(keys)) => Some(seq![key] + keys),
                _ => None,
            }
        }
    }
}

proof fn lemma_index_in_front(s: Seq<char>, t: Seq<char>, c: char)
    requires
        text::index_of_char(s, c) < s.len(),
    ensures
        text::index_of_char(s + t, c) == text::index_of_char(s, c),
    decreases s.len(),
{
    if s.len() > 0 && s[0] != c {
        assert((s + t).skip(1) =~= s.skip(1) + t);
        lemma_index_in_front(s.skip(1), t, c);
    }
}

proof fn lemma_keys_in_front(a: Seq<char>, b: Seq<char>)
    requires
        csi_u_keys(a) is Some,
    ensures
        csi_u_keys(a + b) == (match csi_u_keys(b) {
            Some(keys) => Some(csi_u_keys(a)->0 + keys),
            None => None,
        }),
    decreases a.len(),
{
    if a.len() == 0 {
        assert(a + b =~= b);
        assert(forall|keys: Seq<KeyEvent>| Seq::<KeyEvent>::empty() + keys =~= keys);
    } else {
        let s = a + b;
        let start = seq!['\u{1b}', '['];
        assert(a.take(2) =~= start);
        assert(s.take(2) =~= a.take(2));
        let body = a.skip(2);
        let end = text::index_of_char(body, 'u');
        assert(s.skip(2) =~= body + b);
        lemma_index_in_front(body, b, 'u');
        text::lemma_index_of_char(body, 'u');
        assert(s.skip(2).take(end) =~= body.take(end));
        assert(s.skip(2).skip(end + 1) =~= body.skip(end + 1) + b);
        lemma_keys_in_front(body.skip(end + 1), b);
        let first = seq![csi_u_key(body.take(end))->0];
        let rest = csi_u_keys(body.skip(end + 1))->0;
        assert(forall|keys: Seq<KeyEvent>| first + (rest + keys) =~= (first + rest) + keys);
    }
}

/// The keys of a pasted text, where it is made of reports and not empty.
pub open spec fn leaked_keys(s: Seq<char>) -> Option<Seq<KeyEvent>> {
    if s.len() == 0 {
        None
    } else {
        csi_u_keys(s)
    }
}

/// Two pasted texts put together give the keys of both, in their order.
pub proof fn law_leaked_keys_add_up(a: Seq<char>, b: Seq<char>)
    requires
        leaked_keys(a) is Some,
        leaked_keys(b) is Some,
    ensures
        leaked_keys(a + b) == Some(leaked_keys(a)->0 + leaked_keys(b)->0),
{
    lemma_keys_in_front(a, b);
}

/// Keys are found only where the whole text is made of reports: nothing is
/// found in a text that does not begin like one, nor where such a text stands
/// behind reports.
pub proof fn law_other_text_is_no_key(a: Seq<char>, tail: Seq<char>)
    requires
        leaked_keys(a) is Some,
        tail.len() > 0,
        !text::has_prefix(tail, seq!['\u{1b}', '[']),
    ensures
        leaked_keys(tail) is None,
        leaked_keys(a + tail) is None,
{
    lemma_keys_in_front(a, tail);
}

/// Some terminal layers wrap key reports in paste brackets. The keys come back
/// only where the whole text, which must not be empty, is made of reports.
pub fn decode_leaked_csi_u_keys(pasted: &str) -> (r: Option<Vec<KeyEvent>>)
    ensures
        match r {
            Some(keys) => leaked_keys(pasted@) == Some(keys@),
            None => leaked_keys(pasted@) is None,
        },
{
    let v = text::chars_of(pasted);
    if v.len() == 0 {
        return None;
    }
    let mut keys: Vec<KeyEvent> = Vec::new();
    let mut at: usize = 0;
    assert(v@.skip(0) =~= v@);
    while at < v.len()
        invariant
            at <= v@.len(),
            v@ == pasted@,
            match csi_u_keys(v@.skip(at as int)) {
                Some(rest) => csi_u_keys(pasted@) == Some(keys@ + rest),
                None => csi_u_keys(pasted@) is None,
            },
        decreases v@.len() - at,
    {
        let ghost s = v@.skip(at as int);
        if v.len() - at < 2 || v[at] != '\u{1b}' || v[at + 1] != '[' {
            assert(!text::has_prefix(s, seq!['\u{1b}', '['])) by {
                if text::has_prefix(s, seq!['\u{1b}', '[']) {
                    assert(s.take(2)[0] == s[0] && s.take(2)[1] == s[1]);
                }
            }
            return None;
        }
        assert(s.take(2) =~= seq!['\u{1b}', '[']);
        let ghost body = s.skip(2);
        let mut end: usize = at + 2;
        assert(body =~= v@.skip(at as int + 2));
        while end < v.len() && v[end] != 'u'
            invariant
                at + 2 <= end <= v@.len(),
                body == v@.skip(at as int + 2),
                text::index_of_char(body, 'u') == (end - at - 2) + text::index_of_char(
                    v@.skip(end as int),
                    'u',
                ),
            decreases v@.len() - end,
        {
            assert(v@.skip(end as int).skip(1) =~= v@.skip(end as int + 1));
            end = end + 1;
        }
        if end == v.len() {
            return None;
        }
        let params = text::string_of_range(&v, at + 2, end);
        assert(params@ =~= body.take(end - at - 2));
        let key = match decode_csi_u_key(params.as_str()) {
            Some(k) => k,
            None => return None,
        };
        let ghost before = keys@;
        keys.push(key);
        assert(body.skip(end - at - 2 + 1) =~= v@.skip(end as int + 1));
        assert(forall|rest: Seq<KeyEvent>| before + (seq![key] + rest) =~= keys@ + rest);
        at = end + 1;
    }
    assert(v@.skip(at as int) =~= Seq::empty());
    assert(keys@ + Seq::<KeyEvent>::empty() =~= keys@);
    Some(keys)
}

} // verus!
