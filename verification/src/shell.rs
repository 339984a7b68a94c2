//! The local shell behind `!` commands: what is written to it, and how its
//! output is read.

use crate::text;
use vstd::prelude::*;

verus! {

/// What stands for a quote inside a quoted command: the quotes are closed, one
/// quote stands between double quotes, and they are opened again.
pub open spec fn quote_escape() -> Seq<char> {
    "'\"'\"'"@
}

/// A command between quotes.
pub open spec fn quoted_command(command: Seq<char>) -> Seq<char> {
    "'"@ + text::replaced(command, '\'', quote_escape()) + "'"@
}

pub fn shell_quote(value: &str) -> (r: String)
    ensures
        r@ == quoted_command(value@),
{
    let inner = text::replace_char(value, '\'', "'\"'\"'");
    text::concat3("'", inner.as_str(), "'")
}

/// How a POSIX shell reads the next character of a word.
pub enum Quoting {
    Plain,
    Single,
    Double,
}

/// The characters that mean more than themselves outside quotes: they end the
/// word, quote, or are expanded.
pub open spec fn means_more(c: char) -> bool {
    c == ' ' || c == '\t' || c == '\n' || c == '|' || c == '&' || c == ';' || c == '<' || c == '>'
        || c == '(' || c == ')' || c == '$' || c == '`' || c == '\\' || c == '"' || c == '\''
        || c == '*' || c == '?' || c == '[' || c == '#' || c == '~' || c == '='
        || c == '%' || c == '!' || c == '{' || c == '}'
}

/// The word that a POSIX shell reads in a text, where the text is one word and
/// every character of it stands for itself or quotes. Between single quotes
/// every other character stands for itself; between double quotes all but the
/// dollar sign, the backquote and the backslash do.
pub open spec fn shell_word(s: Seq<char>, quoting: Quoting) -> Option<Seq<char>>
    decreases s.len(),
{
    if s.len() == 0 {
        if quoting is Plain {
            Some(Seq::empty())
        } else {
            None
        }
    } else {
        let c = s[0];
        let rest = s.skip(1);
        match quoting {
            Quoting::Plain => if c == '\'' {
                shell_word(rest, Quoting::Single)
            } else if c == '"' {
                shell_word(rest, Quoting::Double)
            } else if means_more(c) {
                None
            } else {
                with_first(c, shell_word(rest, Quoting::Plain))
            },
            Quoting::Single => if c == '\'' {
                shell_word(rest, Quoting::Plain)
            } else {
                with_first(c, shell_word(rest, Quoting::Single))
            },
            Quoting::Double => if c == '"' {
                shell_word(rest, Quoting::Plain)
            } else if c == '$' || c == '`' || c == '\\' {
                None
            } else {
                with_first(c, shell_word(rest, Quoting::Double))
            },
        }
    }
}

pub open spec fn with_first(c: char, word: Option<Seq<char>>) -> Option<Seq<char>> {
    match word {
        Some(w) => Some(seq![c] + w),
        None => None,
    }
}

proof fn lemma_quoted_rest(command: Seq<char>, tail: Seq<char>)
    ensures
        shell_word(text::replaced(command, '\'', quote_escape()) + tail, Quoting::Single) == (
        match shell_word(tail, Quoting::Single) {
            Some(w) => Some(command + w),
            None => None,
        }),
    decreases command.len(),
{
    reveal_strlit("'\"'\"'");
    let by = quote_escape();
    if command.len() == 0 {
        assert(text::replaced(command, '\'', by) + tail =~= tail);
        assert(forall|w: Seq<char>| command + w =~= w);
    } else {
        let init = command.drop_last();
        let c = command.last();
        let before = text::replaced(init, '\'', by);
        if c == '\'' {
            assert(text::replaced(command, '\'', by) + tail =~= before + (by + tail));
            lemma_quoted_rest(init, by + tail);
            let s0 = by + tail;
            assert(s0.skip(1)[0] == '"');
            assert(s0.skip(1).skip(1)[0] == '\'');
            assert(s0.skip(1).skip(1).skip(1)[0] == '"');
            assert(s0.skip(1).skip(1).skip(1).skip(1)[0] == '\'');
            assert(s0.skip(1).skip(1).skip(1).skip(1).skip(1) =~= tail);
            reveal_with_fuel(shell_word, 6);
        } else {
            assert(text::replaced(command, '\'', by) + tail =~= before + (seq![c] + tail));
            lemma_quoted_rest(init, seq![c] + tail);
            assert((seq![c] + tail).skip(1) =~= tail);
        }
        assert(forall|w: Seq<char>| init + (seq![c] + w) =~= command + w);
    }
}

/// A POSIX shell reads a quoted command as one word, which is the command.
pub proof fn law_quoted_command_is_one_word(command: Seq<char>)
    ensures
        shell_word(quoted_command(command), Quoting::Plain) == Some(command),
{
    reveal_strlit("'");
    let body = text::replaced(command, '\'', quote_escape());
    let tail = "'"@;
    assert(quoted_command(command)[0] == '\'');
    assert(quoted_command(command).skip(1) =~= body + tail);
    lemma_quoted_rest(command, tail);
    assert(tail.skip(1) =~= Seq::empty());
    assert(shell_word(tail.skip(1), Quoting::Plain) == Some(Seq::<char>::empty()));
    assert(shell_word(tail, Quoting::Single) == Some(Seq::<char>::empty()));
    assert(command + Seq::<char>::empty() =~= command);
}

/// A command without quotes stands between quotes as it is.
pub proof fn law_quoting_adds_only_quotes(command: Seq<char>)
    requires
        !command.contains('\''),
    ensures
        quoted_command(command) == "'"@ + command + "'"@,
{
    lemma_nothing_replaced(command);
}

proof fn lemma_nothing_replaced(s: Seq<char>)
    requires
        !s.contains('\''),
    ensures
        text::replaced(s, '\'', quote_escape()) == s,
    decreases s.len(),
{
    if s.len() > 0 {
        assert(s[s.len() - 1] == s.last());
        assert forall|k: int| 0 <= k < s.drop_last().len() implies s.drop_last()[k] != '\'' by {
            assert(s.drop_last()[k] == s[k]);
        }
        lemma_nothing_replaced(s.drop_last());
        assert(s.drop_last().push(s.last()) =~= s);
    }
}

/// What ends the output of one command: a record separator, the name of the
/// shell and the number of the command.
pub open spec fn marker_text(name: Seq<char>, id: nat) -> Seq<char> {
    "\u{1e}"@ + name + ":"@ + text::decimal(id) + ":"@
}

pub fn command_marker(name: &str, id: u64) -> (r: String)
    ensures
        r@ == marker_text(name@, id as nat),
{
    let mut r = text::concat3("\u{1e}", name, ":");
    let n = text::decimal_string(id);
    text::push_str(&mut r, n.as_str());
    text::push_str(&mut r, ":");
    r
}

/// The lines that run one command: the command with its input closed, then its
/// status between the marker and a unit separator on the control channel.
pub open spec fn script_text(name: Seq<char>, id: nat, command: Seq<char>) -> Seq<char> {
    "eval "@ + quoted_command(command) + " 2>&1 < /dev/null\n__martty_shell_status=$?\n"@
        + "command printf '\\036"@ + name + ":"@ + text::decimal(id)
        + ":%s\\037' \"$__martty_shell_status\" >&9\n"@
}

pub fn command_script(name: &str, id: u64, command: &str) -> (r: String)
    ensures
        r@ == script_text(name@, id as nat, command@),
{
    let q = shell_quote(command);
    let mut r = text::concat3("eval ", q.as_str(), " 2>&1 < /dev/null\n__martty_shell_status=$?\n");
    text::push_str(&mut r, "command printf '\\036");
    text::push_str(&mut r, name);
    text::push_str(&mut r, ":");
    let n = text::decimal_string(id);
    text::push_str(&mut r, n.as_str());
    text::push_str(&mut r, ":%s\\037' \"$__martty_shell_status\" >&9\n");
    r
}

pub open spec fn bytes_at(haystack: Seq<u8>, needle: Seq<u8>, i: int) -> bool {
    0 <= i && i + needle.len() <= haystack.len() && haystack.subrange(i, i + needle.len()) == needle
}

/// Where some bytes first occur in others.
pub open spec fn first_at(haystack: Seq<u8>, needle: Seq<u8>, r: Option<usize>) -> bool {
    match r {
        Some(i) => bytes_at(haystack, needle, i as int) && forall|k: int|
            0 <= k < i ==> !bytes_at(haystack, needle, k),
        None => forall|k: int| !bytes_at(haystack, needle, k),
    }
}

pub fn find_bytes(haystack: &[u8], needle: &[u8]) -> (r: Option<usize>)
    requires
        needle@.len() > 0,
    ensures
        first_at(haystack@, needle@, r),
{
    if needle.len() > haystack.len() {
        return None;
    }
    let last: usize = haystack.len() - needle.len();
    let mut i: usize = 0;
    loop
        invariant
            i <= last,
            last + needle@.len() == haystack@.len() <= usize::MAX,
            forall|k: int| 0 <= k < i ==> !bytes_at(haystack@, needle@, k),
        decreases last - i,
    {
        let mut j: usize = 0;
        let mut same = true;
        while same && j < needle.len()
            invariant
                j <= needle@.len(),
                i + needle@.len() <= haystack@.len() <= usize::MAX,
                same ==> haystack@.subrange(i as int, i + j) =~= needle@.take(j as int),
                !same ==> !bytes_at(haystack@, needle@, i as int),
            decreases needle@.len() - j + (if same { 1int } else { 0 }),
        {
            if haystack[i + j] != needle[j] {
                assert(haystack@.subrange(i as int, i + needle@.len())[j as int]
                    != needle@[j as int]);
                same = false;
            } else {
                assert(haystack@.subrange(i as int, i + j + 1) =~= haystack@.subrange(
                    i as int,
                    i + j,
                ).push(haystack@[i + j]));
                assert(needle@.take(j as int + 1) =~= needle@.take(j as int).push(
                    needle@[j as int],
                ));
                j = j + 1;
            }
        }
        if same {
            assert(needle@.take(j as int) =~= needle@);
            return Some(i);
        }
        if i == last {
            assert forall|k: int| !bytes_at(haystack@, needle@, k) by {}
            return None;
        }
        i = i + 1;
    }
}

pub open spec fn byte_digits(s: Seq<u8>) -> bool {
    forall|i: int| 0 <= i < s.len() ==> 0x30 <= #[trigger] s[i] <= 0x39
}

pub open spec fn byte_value(s: Seq<u8>) -> nat
    decreases s.len(),
{
    if s.len() == 0 {
        0
    } else {
        byte_value(s.drop_last()) * 10 + (s.last() - 0x30) as nat
    }
}

/// The status that some bytes spell: a number that an `i32` can hold, with a
/// sign or without.
pub open spec fn spelled_status(s: Seq<u8>) -> Option<i32> {
    let signed = s.len() > 0 && (s[0] == 0x2B || s[0] == 0x2D);
    let digits = if signed {
        s.skip(1)
    } else {
        s
    };
    let n = if signed && s[0] == 0x2D {
        -(byte_value(digits) as int)
    } else {
        byte_value(digits) as int
    };
    if digits.len() > 0 && byte_digits(digits) && i32::MIN <= n <= i32::MAX {
        Some(n as i32)
    } else {
        None
    }
}

proof fn lemma_byte_value_grows(s: Seq<u8>, n: int)
    requires
        0 <= n <= s.len(),
        byte_digits(s),
    ensures
        byte_value(s.take(n)) <= byte_value(s),
    decreases s.len() - n,
{
    if n < s.len() {
        lemma_byte_value_grows(s, n + 1);
        assert(s.take(n + 1).drop_last() =~= s.take(n));
    } else {
        assert(s.take(n) =~= s);
    }
}

fn read_status(s: &[u8]) -> (r: Option<i32>)
    ensures
        r == spelled_status(s@),
{
    let negative = s.len() > 0 && s[0] == 0x2D;
    let start: usize = if s.len() > 0 && (s[0] == 0x2B || s[0] == 0x2D) {
        1
    } else {
        0
    };
    if start == s.len() {
        return None;
    }
    let ghost d = s@.skip(start as int);
    assert(start == 0 ==> d =~= s@);
    let mut i: usize = start;
    let mut n: i64 = 0;
    assert(d.take(0) =~= Seq::empty());
    while i < s.len()
        invariant
            start <= i <= s@.len(),
            d == s@.skip(start as int),
            forall|k: int| 0 <= k < i - start ==> 0x30 <= #[trigger] d[k] <= 0x39,
            n == byte_value(d.take(i - start)),
            0 <= n <= 0x8000_0000,
            spelled_status(s@) is Some ==> byte_digits(d) && byte_value(d) <= 0x8000_0000,
        decreases s@.len() - i,
    {
        let c: u8 = s[i];
        assert(d[i - start] == c);
        assert(d.take(i - start + 1).drop_last() =~= d.take(i - start));
        if c < 0x30 || c > 0x39 {
            return None;
        }
        n = n * 10 + (c - 0x30) as i64;
        i = i + 1;
        if n > 0x8000_0000 {
            proof {
                if byte_digits(d) {
                    lemma_byte_value_grows(d, i - start);
                }
            }
            return None;
        }
    }
    assert(d.take(i - start) =~= d);
    let v: i64 = if negative {
        -n
    } else {
        n
    };
    if v < i32::MIN as i64 || v > i32::MAX as i64 {
        return None;
    }
    Some(v as i32)
}

/// What the output captured so far says about the end of a command.
pub enum Captured {
    /// The end has not been seen.
    More,
    /// The command ended with this status; its output is what stands before
    /// `end`.
    Ended { end: usize, status: Option<i32> },
}

/// The first unit separator from `from` on.
pub open spec fn separator_at(s: Seq<u8>, from: int, i: int) -> bool {
    &&& from <= i < s.len()
    &&& s[i] == 0x1f
    &&& forall|k: int| from <= k < i ==> s[k] != 0x1f
}

/// Reads the end of a command off its output: the marker, the status behind it
/// and a separator. Without all of them there is more to come.
pub fn read_end(captured: &Vec<u8>, marker: &Vec<u8>) -> (r: Captured)
    requires
        marker@.len() > 0,
    ensures
        match r {
            Captured::Ended { end, status } => first_at(captured@, marker@, Some(end)) && exists|
                i: int,
            |
                #![trigger captured@.subrange(end + marker@.len(), i)]
                separator_at(captured@, end + marker@.len(), i) && status == spelled_status(
                    captured@.subrange(end + marker@.len(), i),
                ),
            Captured::More => forall|end: usize|
                #![trigger bytes_at(captured@, marker@, end as int)]
                first_at(captured@, marker@, Some(end)) ==> forall|k: int|
                    end + marker@.len() <= k < captured@.len() ==> captured@[k] != 0x1f,
        },
{
    let found = find_bytes(captured.as_slice(), marker.as_slice());
    let start: usize = match found {
        Some(i) => i,
        None => return Captured::More,
    };
    assert(start + marker@.len() <= captured.len());
    let from: usize = start + marker.len();
    let mut i: usize = from;
    while i < captured.len() && captured[i] != 0x1f
        invariant
            from <= i <= captured@.len(),
            forall|k: int| from <= k < i ==> captured@[k] != 0x1f,
        decreases captured@.len() - i,
    {
        i = i + 1;
    }
    if i == captured.len() {
        assert forall|end: usize| #[trigger]
            bytes_at(captured@, marker@, end as int) && first_at(
                captured@,
                marker@,
                Some(end),
            ) implies end == start by {
            if end < start {
                assert(!bytes_at(captured@, marker@, end as int));
            } else if start < end {
                assert(!bytes_at(captured@, marker@, start as int));
            }
        }
        return Captured::More;
    }
    let part = vstd::slice::slice_subrange(captured.as_slice(), from, i);
    let status = read_status(part);
    assert(separator_at(captured@, from as int, i as int));
    assert(status == spelled_status(captured@.subrange(start + marker@.len(), i as int)));
    Captured::Ended { end: start, status }
}

/// What `String::from_utf8_lossy` of std makes of some bytes.
pub uninterp spec fn lossy_text(bytes: Seq<u8>) -> Seq<char>;

/// `String::from_utf8_lossy` of std: the bytes as text, with a replacement
/// character for what is not UTF-8. Which bytes one replacement stands for is
/// not said here.
#[verifier::external_body]
fn from_utf8_lossy(bytes: &Vec<u8>) -> (r: String)
    ensures
        r@ == lossy_text(bytes@),
{
    String::from_utf8_lossy(bytes).into_owned()
}

/// How many bytes of output are shown.
pub const OUTPUT_LIMIT: u128 = 16384;

/// The output that is shown: all of it, or as much as fits and a note.
pub open spec fn shown_output(t: Seq<char>) -> Seq<char> {
    if text::utf8_len(t) > OUTPUT_LIMIT {
        text::byte_prefix(t, OUTPUT_LIMIT as int) + "\n… (truncated)"@
    } else {
        t
    }
}

pub fn limit_output(output: String) -> (r: String)
    ensures
        r@ == shown_output(output@),
{
    let v = text::chars_of(output.as_str());
    let n: usize = text::chars_in_bytes(&v, OUTPUT_LIMIT);
    if n == v.len() {
        assert(v@.take(n as int) =~= output@);
        return output;
    }
    proof {
        text::lemma_utf8_len_grows(v@, n as int + 1);
    }
    assert(v@.subrange(0, n as int) =~= v@.take(n as int));
    let mut r = text::string_of_range(&v, 0, n);
    text::push_str(&mut r, "\n… (truncated)");
    r
}

pub fn shell_output(bytes: &Vec<u8>) -> (r: String)
    ensures
        r@ == shown_output(lossy_text(bytes@)),
{
    limit_output(from_utf8_lossy(bytes))
}

/// How waiting for the end of a command went.
pub enum ShellRead {
    Done(Option<i32>),
    /// The shell has closed its output; its own exit status.
    Eof(Option<i32>),
    /// Nothing came for too long.
    Silent,
}

/// How long a command may be silent.
pub const SHELL_SILENCE_SECS: u64 = 120;

/// What a command came to: its status, what is shown of its output, and
/// whether the shell can take another one.
pub fn shell_result(read: ShellRead, captured: &Vec<u8>) -> (r: (Option<i32>, String, bool))
    ensures
        match read {
            ShellRead::Done(code) => r.0 == code && r.1@ == shown_output(lossy_text(captured@)) && r.2,
            ShellRead::Eof(code) => r.0 == code && r.1@ == shown_output(lossy_text(captured@)) && !r.2,
            ShellRead::Silent => r.0 is None && r.1@
                == "command killed: no output for 120s — the next `!` restarts the shell"@ && !r.2,
        },
{
    match read {
        ShellRead::Done(code) => (code, shell_output(captured), true),
        ShellRead::Eof(code) => (code, shell_output(captured), false),
        ShellRead::Silent => (
            None,
            "command killed: no output for 120s — the next `!` restarts the shell".to_owned(),
            false,
        ),
    }
}

} // verus!
