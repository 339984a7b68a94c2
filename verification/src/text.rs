//! Text as sequences of characters: the few string operations the rest of the
//! library is built on, each with its meaning on `Seq<char>`.

use vstd::prelude::*;

verus! {

/// `String::push` of std: the character goes to the end.
pub assume_specification[ String::push ](s: &mut String, c: char)
    ensures
        final(s)@ == old(s)@.push(c),
;

/// `str == str` of std: two strings are equal when their characters are.
pub assume_specification[ <str as PartialEq>::eq ](a: &str, b: &str) -> (r: bool)
    ensures
        r == (a@ == b@),
;

/// Whether two texts have the same characters.
pub fn same(a: &str, b: &str) -> (r: bool)
    ensures
        r == (a@ == b@),
{
    *a == *b
}

/// What `str::to_lowercase` of std gives: the Unicode lowercase of a text.
pub uninterp spec fn lowercase(s: Seq<char>) -> Seq<char>;

/// `str::to_lowercase` of std. Nothing is said of the mapping itself, which is
/// a table of the Unicode standard.
#[verifier::external_body]
pub(crate) fn to_lowercase(s: &str) -> (r: String)
    ensures
        r@ == lowercase(s@),
{
    s.to_lowercase()
}

/// The characters of a text.
pub fn chars_of(s: &str) -> (v: Vec<char>)
    ensures
        v@ == s@,
{
    let mut v: Vec<char> = Vec::new();
    for c in iter: s.chars()
        invariant
            v@ =~= s@.take(iter.index() as int),
            iter.seq() == s@,
    {
        v.push(c);
    }
    v
}

/// The text made of the characters from `from` up to, not including, `to`.
pub fn string_of_range(v: &Vec<char>, from: usize, to: usize) -> (s: String)
    requires
        from <= to <= v@.len(),
    ensures
        s@ == v@.subrange(from as int, to as int),
{
    let mut s = String::new();
    let mut i: usize = from;
    while i < to
        invariant
            from <= i <= to <= v@.len(),
            s@ =~= v@.subrange(from as int, i as int),
        decreases to - i,
    {
        s.push(v[i]);
        i = i + 1;
    }
    s
}

pub fn string_of(v: &Vec<char>) -> (s: String)
    ensures
        s@ == v@,
{
    let s = string_of_range(v, 0, v.len());
    assert(v@.subrange(0, v@.len() as int) =~= v@);
    s
}

/// Adds `t` to the end of `s`.
pub fn push_str(s: &mut String, t: &str)
    ensures
        final(s)@ == old(s)@ + t@,
{
    for c in iter: t.chars()
        invariant
            s@ =~= old(s)@ + t@.take(iter.index() as int),
            iter.seq() == t@,
    {
        s.push(c);
    }
    assert(t@.take(t@.len() as int) =~= t@);
}

pub fn concat2(a: &str, b: &str) -> (r: String)
    ensures
        r@ == a@ + b@,
{
    let mut r = a.to_owned();
    push_str(&mut r, b);
    r
}

pub fn concat3(a: &str, b: &str, c: &str) -> (r: String)
    ensures
        r@ == a@ + b@ + c@,
{
    let mut r = a.to_owned();
    push_str(&mut r, b);
    push_str(&mut r, c);
    r
}

/// The characters with the Unicode property White_Space.
pub open spec fn white_space(c: char) -> bool {
    ||| 0x9 <= c as u32 <= 0xD
    ||| c as u32 == 0x20
    ||| c as u32 == 0x85
    ||| c as u32 == 0xA0
    ||| c as u32 == 0x1680
    ||| 0x2000 <= c as u32 <= 0x200A
    ||| c as u32 == 0x2028
    ||| c as u32 == 0x2029
    ||| c as u32 == 0x202F
    ||| c as u32 == 0x205F
    ||| c as u32 == 0x3000
}

pub fn is_white_space(c: char) -> (r: bool)
    ensures
        r == white_space(c),
{
    let n: u32 = c as u32;
    (0x9 <= n && n <= 0xD) || n == 0x20 || n == 0x85 || n == 0xA0 || n == 0x1680 || (0x2000 <= n
        && n <= 0x200A) || n == 0x2028 || n == 0x2029 || n == 0x202F || n == 0x205F || n == 0x3000
}

/// The control characters: C0, delete and C1.
pub open spec fn control(c: char) -> bool {
    c as u32 <= 0x1F || 0x7F <= c as u32 <= 0x9F
}

pub fn is_control(c: char) -> (r: bool)
    ensures
        r == control(c),
{
    let n: u32 = c as u32;
    n <= 0x1F || (0x7F <= n && n <= 0x9F)
}

pub open spec fn trimmed_start(s: Seq<char>) -> Seq<char>
    decreases s.len(),
{
    if s.len() > 0 && white_space(s[0]) {
        trimmed_start(s.skip(1))
    } else {
        s
    }
}

pub open spec fn trimmed_end(s: Seq<char>) -> Seq<char>
    decreases s.len(),
{
    if s.len() > 0 && white_space(s.last()) {
        trimmed_end(s.drop_last())
    } else {
        s
    }
}

/// A text without the white space around it.
pub open spec fn trimmed(s: Seq<char>) -> Seq<char> {
    trimmed_end(trimmed_start(s))
}

pub fn trim_start(s: &str) -> (r: String)
    ensures
        r@ == trimmed_start(s@),
{
    let v = chars_of(s);
    let mut i: usize = 0;
    assert(v@.skip(0) =~= v@);
    while i < v.len() && is_white_space(v[i])
        invariant
            i <= v@.len(),
            v@ == s@,
            trimmed_start(v@.skip(i as int)) == trimmed_start(s@),
        decreases v@.len() - i,
    {
        assert(v@.skip(i as int).skip(1) =~= v@.skip(i as int + 1));
        i = i + 1;
    }
    assert(v@.skip(i as int) =~= v@.subrange(i as int, v@.len() as int));
    string_of_range(&v, i, v.len())
}

pub fn trim_end(s: &str) -> (r: String)
    ensures
        r@ == trimmed_end(s@),
{
    let v = chars_of(s);
    let mut i: usize = v.len();
    assert(v@.take(i as int) =~= v@);
    while i > 0 && is_white_space(v[i - 1])
        invariant
            i <= v@.len(),
            v@ == s@,
            trimmed_end(v@.take(i as int)) == trimmed_end(s@),
        decreases i,
    {
        assert(v@.take(i as int).drop_last() =~= v@.take(i as int - 1));
        i = i - 1;
    }
    assert(v@.take(i as int) =~= v@.subrange(0, i as int));
    string_of_range(&v, 0, i)
}

pub fn trim(s: &str) -> (r: String)
    ensures
        r@ == trimmed(s@),
{
    let t = trim_start(s);
    trim_end(t.as_str())
}

/// The pieces of a text between the occurrences of one character. There is
/// always one piece more than there are occurrences.
pub open spec fn split_on(s: Seq<char>, c: char) -> Seq<Seq<char>>
    decreases s.len(),
{
    if s.len() == 0 {
        seq![Seq::<char>::empty()]
    } else {
        let init = split_on(s.drop_last(), c);
        if s.last() == c {
            init.push(Seq::empty())
        } else {
            init.drop_last().push(init.last().push(s.last()))
        }
    }
}

/// The pieces put one after another with `sep` between them.
pub open spec fn joined(parts: Seq<Seq<char>>, sep: Seq<char>) -> Seq<char>
    decreases parts.len(),
{
    if parts.len() == 0 {
        Seq::empty()
    } else if parts.len() == 1 {
        parts[0]
    } else {
        joined(parts.drop_last(), sep) + sep + parts.last()
    }
}

/// The views of a list of strings.
pub open spec fn views(v: Seq<String>) -> Seq<Seq<char>> {
    v.map_values(|s: String| s@)
}

pub proof fn lemma_split_on_nonempty(s: Seq<char>, c: char)
    ensures
        split_on(s, c).len() >= 1,
    decreases s.len(),
{
    if s.len() > 0 {
        lemma_split_on_nonempty(s.drop_last(), c);
    }
}

/// Joining the pieces of a split with the character it was split on gives the
/// text back.
pub proof fn lemma_split_then_join(s: Seq<char>, c: char)
    ensures
        joined(split_on(s, c), seq![c]) == s,
    decreases s.len(),
{
    if s.len() > 0 {
        let init = split_on(s.drop_last(), c);
        lemma_split_then_join(s.drop_last(), c);
        lemma_split_on_nonempty(s.drop_last(), c);
        let all = split_on(s, c);
        if s.last() == c {
            assert(all.drop_last() =~= init);
            assert(joined(all, seq![c]) =~= joined(init, seq![c]) + seq![c]);
            assert(s =~= s.drop_last() + seq![c]);
        } else {
            assert(all.drop_last() =~= init.drop_last());
            if all.len() > 1 {
                assert(joined(all, seq![c]) =~= joined(init, seq![c]).push(s.last()));
            }
            assert(s =~= s.drop_last().push(s.last()));
        }
    }
}

pub fn split(s: &str, c: char) -> (r: Vec<String>)
    ensures
        views(r@) == split_on(s@, c),
        r@.len() >= 1,
{
    let v = chars_of(s);
    let mut r: Vec<String> = Vec::new();
    let mut piece = String::new();
    let mut i: usize = 0;
    assert(split_on(v@.take(0), c) =~= seq![Seq::<char>::empty()]);
    assert(views(r@).push(piece@) =~= seq![Seq::<char>::empty()]);
    while i < v.len()
        invariant
            i <= v@.len(),
            v@ == s@,
            views(r@).push(piece@) == split_on(v@.take(i as int), c),
        decreases v@.len() - i,
    {
        assert(v@.take(i as int + 1).drop_last() =~= v@.take(i as int));
        if v[i] == c {
            let ghost old_r = r@;
            let ghost old_p = piece@;
            r.push(piece);
            piece = String::new();
            assert(views(r@) =~= views(old_r).push(old_p));
            assert(piece@ =~= Seq::empty());
        } else {
            let ghost old_p = piece@;
            piece.push(v[i]);
            assert(views(r@).push(old_p).drop_last() =~= views(r@));
        }
        i = i + 1;
    }
    assert(v@.take(i as int) =~= s@);
    let ghost old_r = r@;
    let ghost old_p = piece@;
    r.push(piece);
    assert(views(r@) =~= views(old_r).push(old_p));
    r
}

pub fn join(parts: &Vec<String>, sep: &str) -> (r: String)
    ensures
        r@ == joined(views(parts@), sep@),
{
    let mut r = String::new();
    let mut i: usize = 0;
    assert(views(parts@).take(0) =~= Seq::empty());
    while i < parts.len()
        invariant
            i <= parts@.len(),
            r@ == joined(views(parts@).take(i as int), sep@),
        decreases parts@.len() - i,
    {
        assert(views(parts@).take(i as int + 1).drop_last() =~= views(parts@).take(i as int));
        if i > 0 {
            push_str(&mut r, sep);
        }
        push_str(&mut r, parts[i].as_str());
        if i == 0 {
            assert(r@ =~= parts@[0]@);
        }
        i = i + 1;
    }
    assert(views(parts@).take(i as int) =~= views(parts@));
    r
}

pub open spec fn has_prefix(s: Seq<char>, p: Seq<char>) -> bool {
    p.len() <= s.len() && s.take(p.len() as int) == p
}

pub fn starts_with(s: &str, p: &str) -> (r: bool)
    ensures
        r == has_prefix(s@, p@),
{
    let a = chars_of(s);
    let b = chars_of(p);
    if b.len() > a.len() {
        return false;
    }
    let mut i: usize = 0;
    while i < b.len()
        invariant
            i <= b@.len() <= a@.len(),
            a@ == s@,
            b@ == p@,
            a@.take(i as int) =~= b@.take(i as int),
        decreases b@.len() - i,
    {
        if a[i] != b[i] {
            assert(s@.take(p@.len() as int)[i as int] != p@[i as int]);
            return false;
        }
        assert(a@.take(i as int + 1) =~= a@.take(i as int).push(a@[i as int]));
        assert(b@.take(i as int + 1) =~= b@.take(i as int).push(b@[i as int]));
        i = i + 1;
    }
    assert(b@.take(i as int) =~= b@);
    true
}

/// What is left of a text behind a prefix, if it has it.
pub open spec fn behind_prefix(s: Seq<char>, p: Seq<char>) -> Option<Seq<char>> {
    if has_prefix(s, p) {
        Some(s.skip(p.len() as int))
    } else {
        None
    }
}

/// The view of an optional string.
pub open spec fn opt_view(s: Option<String>) -> Option<Seq<char>> {
    match s {
        Some(s) => Some(s@),
        None => None,
    }
}

pub open spec fn opt_str_view(s: Option<&str>) -> Option<Seq<char>> {
    match s {
        Some(s) => Some(s@),
        None => None,
    }
}

/// Whether there is a text and it is this one.
pub fn opt_is(s: Option<&str>, lit: &str) -> (r: bool)
    ensures
        r == (opt_str_view(s) == Some(lit@)),
{
    match s {
        Some(s) => same(s, lit),
        None => false,
    }
}

/// An owned copy of an optional text.
pub fn opt_owned(s: Option<&str>) -> (r: Option<String>)
    ensures
        opt_view(r) == opt_str_view(s),
{
    match s {
        Some(s) => Some(s.to_owned()),
        None => None,
    }
}

pub fn copy_opt(s: &Option<String>) -> (r: Option<String>)
    ensures
        opt_view(r) == opt_view(*s),
{
    match s {
        Some(t) => Some(t.clone()),
        None => None,
    }
}

pub open spec fn text_or(s: Option<Seq<char>>, other: Seq<char>) -> Seq<char> {
    match s {
        Some(s) => s,
        None => other,
    }
}

/// An owned copy of the text, or of `other` where there is none.
pub fn owned_or(s: Option<&str>, other: &str) -> (r: String)
    ensures
        r@ == text_or(opt_str_view(s), other@),
{
    match s {
        Some(s) => s.to_owned(),
        None => other.to_owned(),
    }
}

pub fn empty() -> (r: String)
    ensures
        r@ == Seq::<char>::empty(),
{
    let r = String::new();
    assert(r@ =~= Seq::empty());
    r
}

pub fn strip_prefix(s: &str, p: &str) -> (r: Option<String>)
    ensures
        opt_view(r) == behind_prefix(s@, p@),
{
    if starts_with(s, p) {
        let v = chars_of(s);
        let n: usize = chars_of(p).len();
        assert(v@.subrange(n as int, v@.len() as int) =~= s@.skip(n as int));
        Some(string_of_range(&v, n, v.len()))
    } else {
        None
    }
}

/// The index of the first occurrence of a character, or the length.
pub open spec fn index_of_char(s: Seq<char>, c: char) -> int
    decreases s.len(),
{
    if s.len() == 0 || s[0] == c {
        0
    } else {
        1 + index_of_char(s.skip(1), c)
    }
}

pub proof fn lemma_index_of_char(s: Seq<char>, c: char)
    ensures
        0 <= index_of_char(s, c) <= s.len(),
        index_of_char(s, c) < s.len() ==> s[index_of_char(s, c)] == c,
        forall|i: int| 0 <= i < index_of_char(s, c) ==> s[i] != c,
    decreases s.len(),
{
    if s.len() > 0 && s[0] != c {
        lemma_index_of_char(s.skip(1), c);
        assert forall|i: int| 0 <= i < index_of_char(s, c) implies s[i] != c by {
            if i > 0 {
                assert(s[i] == s.skip(1)[i - 1]);
            }
        }
    }
}

/// The two sides of the first occurrence of a character.
pub open spec fn split_at_char(s: Seq<char>, c: char) -> Option<(Seq<char>, Seq<char>)> {
    let i = index_of_char(s, c);
    if i < s.len() {
        Some((s.take(i), s.skip(i + 1)))
    } else {
        None
    }
}

/// A text is split at the first place where the character stands.
pub proof fn lemma_split_at(a: Seq<char>, c: char, b: Seq<char>)
    requires
        !a.contains(c),
    ensures
        split_at_char(a + seq![c] + b, c) == Some((a, b)),
        split_at_char(a, c) is None,
{
    let s = a + seq![c] + b;
    lemma_index_of_char(s, c);
    lemma_index_of_char(a, c);
    let i = index_of_char(s, c);
    assert(s[a.len() as int] == c);
    if i < a.len() {
        assert(s[i] == a[i]);
    }
    assert(i == a.len());
    assert(s.take(i) =~= a);
    assert(s.skip(i + 1) =~= b);
    let k = index_of_char(a, c);
    if k < a.len() {
        assert(a[k] == c);
    }
}

pub open spec fn opt_pair_view(p: Option<(String, String)>) -> Option<(Seq<char>, Seq<char>)> {
    match p {
        Some((a, b)) => Some((a@, b@)),
        None => None,
    }
}

pub fn split_once(s: &str, c: char) -> (r: Option<(String, String)>)
    ensures
        opt_pair_view(r) == split_at_char(s@, c),
{
    let v = chars_of(s);
    let mut i: usize = 0;
    assert(v@.skip(0) =~= s@);
    while i < v.len() && v[i] != c
        invariant
            i <= v@.len(),
            v@ == s@,
            index_of_char(s@, c) == i + index_of_char(v@.skip(i as int), c),
        decreases v@.len() - i,
    {
        assert(v@.skip(i as int).skip(1) =~= v@.skip(i as int + 1));
        i = i + 1;
    }
    if i < v.len() {
        assert(v@.subrange(0, i as int) =~= s@.take(i as int));
        assert(v@.subrange(i as int + 1, v@.len() as int) =~= s@.skip(i as int + 1));
        Some((string_of_range(&v, 0, i), string_of_range(&v, i + 1, v.len())))
    } else {
        None
    }
}

/// `p` occurs in `s` at `i`.
pub open spec fn occurs_at(s: Seq<char>, p: Seq<char>, i: int) -> bool {
    0 <= i && i + p.len() <= s.len() && s.subrange(i, i + p.len()) == p
}

pub open spec fn contains_text(s: Seq<char>, p: Seq<char>) -> bool {
    exists|i: int| occurs_at(s, p, i)
}

pub fn contains(s: &str, p: &str) -> (r: bool)
    ensures
        r == contains_text(s@, p@),
{
    let a = chars_of(s);
    let b = chars_of(p);
    if b.len() > a.len() {
        return false;
    }
    let last: usize = a.len() - b.len();
    let mut i: usize = 0;
    loop
        invariant
            a@ == s@,
            b@ == p@,
            i <= last,
            last + b@.len() == a@.len() <= usize::MAX,
            forall|k: int| 0 <= k < i ==> !occurs_at(s@, p@, k),
        decreases last - i,
    {
        let mut j: usize = 0;
        let mut same = true;
        while same && j < b.len()
            invariant
                a@ == s@,
                b@ == p@,
                j <= b@.len(),
                i + b@.len() <= a@.len() <= usize::MAX,
                same ==> a@.subrange(i as int, i + j) =~= b@.take(j as int),
                !same ==> !occurs_at(s@, p@, i as int),
            decreases b@.len() - j + (if same { 1int } else { 0 }),
        {
            if a[i + j] != b[j] {
                assert(s@.subrange(i as int, i + p@.len())[j as int] != p@[j as int]);
                same = false;
            } else {
                assert(a@.subrange(i as int, i + j + 1) =~= a@.subrange(i as int, i + j).push(a@[i + j]));
                assert(b@.take(j as int + 1) =~= b@.take(j as int).push(b@[j as int]));
                j = j + 1;
            }
        }
        if same {
            assert(b@.take(j as int) =~= b@);
            assert(occurs_at(s@, p@, i as int));
            return true;
        }
        if i == last {
            return false;
        }
        i = i + 1;
    }
}

/// At most the first `n` characters.
pub open spec fn first_chars(s: Seq<char>, n: int) -> Seq<char> {
    if s.len() <= n {
        s
    } else {
        s.take(n)
    }
}

pub fn take_chars(s: &str, n: usize) -> (r: String)
    ensures
        r@ == first_chars(s@, n as int),
{
    let v = chars_of(s);
    let end: usize = if v.len() <= n { v.len() } else { n };
    assert(v@.subrange(0, end as int) =~= first_chars(s@, n as int));
    string_of_range(&v, 0, end)
}

pub open spec fn digit_char(d: int) -> char {
    (0x30 + d) as char
}

/// A number in decimal, without leading zeros.
pub open spec fn decimal(n: nat) -> Seq<char>
    decreases n,
{
    if n < 10 {
        seq![digit_char(n as int)]
    } else {
        decimal(n / 10).push(digit_char((n % 10) as int))
    }
}

pub fn decimal_string(n: u64) -> (s: String)
    ensures
        s@ == decimal(n as nat),
{
    wide_decimal_string(n as u128)
}

/// The number behind `n`, in decimal.
pub fn ordinal_string(n: usize) -> (s: String)
    ensures
        s@ == decimal((n + 1) as nat),
{
    wide_decimal_string(n as u128 + 1)
}

pub fn count_string(n: usize) -> (s: String)
    ensures
        s@ == decimal(n as nat),
{
    wide_decimal_string(n as u128)
}

fn wide_decimal_string(n: u128) -> (s: String)
    ensures
        s@ == decimal(n as nat),
    decreases n,
{
    let mut s = if n < 10 {
        String::new()
    } else {
        wide_decimal_string(n / 10)
    };
    let d: u8 = (n % 10) as u8;
    s.push((48u8 + d) as char);
    assert(n < 10 ==> s@ =~= seq![digit_char(n as int)]);
    s
}

/// A signed number in decimal.
pub open spec fn signed_decimal(n: int) -> Seq<char> {
    if n < 0 {
        seq!['-'] + decimal((-n) as nat)
    } else {
        decimal(n as nat)
    }
}

pub fn signed_decimal_string(n: i64) -> (s: String)
    ensures
        s@ == signed_decimal(n as int),
{
    if n < 0 {
        let mut s = String::new();
        s.push('-');
        let m: u64 = (-(n + 1)) as u64 + 1;
        let d = decimal_string(m);
        push_str(&mut s, d.as_str());
        assert(s@ =~= seq!['-'] + decimal((-n) as nat));
        s
    } else {
        decimal_string(n as u64)
    }
}

pub open spec fn ascii_digit(c: char) -> bool {
    0x30 <= c as u32 <= 0x39
}

pub open spec fn all_digits(s: Seq<char>) -> bool {
    forall|i: int| 0 <= i < s.len() ==> ascii_digit(#[trigger] s[i])
}

/// The number that a row of decimal digits stands for.
pub open spec fn digits_value(s: Seq<char>) -> nat
    decreases s.len(),
{
    if s.len() == 0 {
        0
    } else {
        digits_value(s.drop_last()) * 10 + (s.last() as u32 - 0x30) as nat
    }
}

/// The digits of an unsigned number: one plus sign in front may stand.
pub open spec fn unsigned_digits(s: Seq<char>) -> Seq<char> {
    if s.len() > 0 && s[0] == '+' {
        s.skip(1)
    } else {
        s
    }
}

/// The unsigned number that a text spells, if it does and it is at most `max`.
pub open spec fn parsed_number(s: Seq<char>, max: nat) -> Option<nat> {
    let d = unsigned_digits(s);
    if d.len() > 0 && all_digits(d) && digits_value(d) <= max {
        Some(digits_value(d))
    } else {
        None
    }
}

pub proof fn lemma_digits_grow(s: Seq<char>, n: int)
    requires
        0 <= n <= s.len(),
        all_digits(s),
    ensures
        digits_value(s.take(n)) <= digits_value(s),
    decreases s.len() - n,
{
    if n < s.len() {
        lemma_digits_grow(s, n + 1);
        assert(s.take(n + 1).drop_last() =~= s.take(n));
    } else {
        assert(s.take(n) =~= s);
    }
}

pub fn parse_number(s: &str, max: u64) -> (r: Option<u64>)
    ensures
        crate::json::nat_of(r) == parsed_number(s@, max as nat),
{
    let v = chars_of(s);
    let start: usize = if v.len() > 0 && v[0] == '+' {
        1
    } else {
        0
    };
    let ghost d = unsigned_digits(s@);
    assert(d =~= v@.skip(start as int));
    if start == v.len() {
        return None;
    }
    let mut i: usize = start;
    let mut n: u64 = 0;
    assert(d.take(0) =~= Seq::empty());
    while i < v.len()
        invariant
            start <= i <= v@.len(),
            v@ == s@,
            d == unsigned_digits(s@),
            d == v@.skip(start as int),
            forall|k: int| 0 <= k < i - start ==> ascii_digit(#[trigger] d[k]),
            n == digits_value(d.take(i - start)),
            n <= max,
        decreases v@.len() - i,
    {
        let c = v[i];
        assert(d[i - start] == c);
        let code: u32 = c as u32;
        if code < 0x30 || code > 0x39 {
            assert(!ascii_digit(d[i - start]));
            return None;
        }
        let digit: u64 = (code - 0x30) as u64;
        assert(d.take(i - start + 1).drop_last() =~= d.take(i - start));
        if n > max / 10 || digit > max - n * 10 {
            proof {
                if all_digits(d) {
                    lemma_digits_grow(d, i - start + 1);
                }
            }
            return None;
        }
        n = n * 10 + digit;
        i = i + 1;
    }
    assert(d.take(i - start) =~= d);
    Some(n)
}

pub open spec fn ascii_lower_char(c: char) -> char {
    if 0x41 <= c as u32 <= 0x5A {
        (c as u32 + 0x20) as char
    } else {
        c
    }
}

/// A text with the letters A to Z in lower case.
pub open spec fn ascii_lower(s: Seq<char>) -> Seq<char> {
    s.map_values(|c: char| ascii_lower_char(c))
}

fn lower_char(c: char) -> (r: char)
    ensures
        r == ascii_lower_char(c),
{
    let n: u32 = c as u32;
    if n >= 0x41 && n <= 0x5A {
        (n as u8 + 0x20) as char
    } else {
        c
    }
}

pub fn to_ascii_lowercase(s: &str) -> (r: String)
    ensures
        r@ == ascii_lower(s@),
{
    let v = chars_of(s);
    let mut r = empty();
    let mut i: usize = 0;
    while i < v.len()
        invariant
            i <= v@.len(),
            v@ == s@,
            r@ =~= ascii_lower(s@.take(i as int)),
        decreases v@.len() - i,
    {
        r.push(lower_char(v[i]));
        i = i + 1;
    }
    assert(s@.take(i as int) =~= s@);
    r
}

/// Whether two texts differ at most in the case of the letters A to Z.
pub fn eq_ignore_ascii_case(a: &str, b: &str) -> (r: bool)
    ensures
        r == (ascii_lower(a@) == ascii_lower(b@)),
{
    let x = to_ascii_lowercase(a);
    let y = to_ascii_lowercase(b);
    same(x.as_str(), y.as_str())
}

/// How many bytes a character takes in UTF-8.
pub open spec fn utf8_size(c: char) -> int {
    if (c as u32) < 0x80 {
        1
    } else if (c as u32) < 0x800 {
        2
    } else if (c as u32) < 0x10000 {
        3
    } else {
        4
    }
}

pub open spec fn utf8_len(s: Seq<char>) -> int
    decreases s.len(),
{
    if s.len() == 0 {
        0
    } else {
        utf8_len(s.drop_last()) + utf8_size(s.last())
    }
}

pub fn utf8_size_of(c: char) -> (r: u128)
    ensures
        r == utf8_size(c),
        1 <= r <= 4,
{
    let n: u32 = c as u32;
    if n < 0x80 {
        1
    } else if n < 0x800 {
        2
    } else if n < 0x10000 {
        3
    } else {
        4
    }
}

/// The longest beginning of a text that takes at most `limit` bytes.
pub open spec fn byte_prefix(s: Seq<char>, limit: int) -> Seq<char>
    decreases s.len(),
{
    if s.len() == 0 || utf8_len(s) <= limit {
        s
    } else {
        byte_prefix(s.drop_last(), limit)
    }
}

pub proof fn lemma_utf8_len_grows(s: Seq<char>, n: int)
    requires
        0 <= n <= s.len(),
    ensures
        utf8_len(s.take(n)) + (s.len() - n) <= utf8_len(s),
    decreases s.len() - n,
{
    if n < s.len() {
        lemma_utf8_len_grows(s, n + 1);
        assert(s.take(n + 1).drop_last() =~= s.take(n));
    } else {
        assert(s.take(n) =~= s);
    }
}

proof fn lemma_byte_prefix_is(s: Seq<char>, limit: int, n: int)
    requires
        0 <= n <= s.len(),
        utf8_len(s.take(n)) <= limit,
        n < s.len() ==> utf8_len(s.take(n + 1)) > limit,
    ensures
        byte_prefix(s, limit) == s.take(n),
    decreases s.len(),
{
    if n == s.len() {
        assert(s.take(n) =~= s);
    } else {
        lemma_utf8_len_grows(s, n + 1);
        assert(s.drop_last().take(n) =~= s.take(n));
        if n + 1 < s.len() {
            assert(s.drop_last().take(n + 1) =~= s.take(n + 1));
        } else {
            assert(s.take(n + 1) =~= s);
        }
        lemma_byte_prefix_is(s.drop_last(), limit, n);
    }
}

/// The number of characters of a text that fit into `limit` bytes.
pub fn chars_in_bytes(v: &Vec<char>, limit: u128) -> (r: usize)
    ensures
        r <= v@.len(),
        byte_prefix(v@, limit as int) == v@.take(r as int),
        utf8_len(v@.take(r as int)) <= limit,
        r < v@.len() ==> utf8_len(v@.take(r as int + 1)) > limit,
{
    let mut i: usize = 0;
    let mut n: u128 = 0;
    assert(v@.take(0) =~= Seq::empty());
    while i < v.len()
        invariant
            i <= v@.len(),
            n == utf8_len(v@.take(i as int)),
            n <= limit,
            n <= 4 * i,
        decreases v@.len() - i,
    {
        let w: u128 = utf8_size_of(v[i]);
        assert(v@.take(i as int + 1).drop_last() =~= v@.take(i as int));
        if w > limit - n {
            proof {
                lemma_byte_prefix_is(v@, limit as int, i as int);
            }
            return i;
        }
        n = n + w;
        i = i + 1;
    }
    proof {
        lemma_byte_prefix_is(v@, limit as int, i as int);
    }
    i
}

/// The first `n` bytes of a text, where they are whole characters.
pub open spec fn bytes_taken(s: Seq<char>, n: int) -> Option<Seq<char>> {
    if utf8_len(byte_prefix(s, n)) == n {
        Some(byte_prefix(s, n))
    } else {
        None
    }
}

pub fn first_bytes(s: &str, n: u128) -> (r: Option<String>)
    requires
        n > 0,
    ensures
        opt_view(r) == bytes_taken(s@, n as int),
{
    let v = chars_of(s);
    let short = chars_in_bytes(&v, n - 1);
    let long = chars_in_bytes(&v, n);
    if short < long {
        proof {
            lemma_utf8_len_grows(v@.take(long as int), short as int + 1);
            assert(v@.take(long as int).take(short as int + 1) =~= v@.take(short as int + 1));
        }
        let t = string_of_range(&v, 0, long);
        assert(t@ =~= v@.take(long as int));
        Some(t)
    } else {
        proof {
            lemma_utf8_len_grows(v@.take(short as int), long as int);
            assert(v@.take(short as int).take(long as int) =~= v@.take(long as int));
        }
        None
    }
}

pub open spec fn hex_char(d: int) -> char {
    if d < 10 {
        (0x30 + d) as char
    } else {
        (0x57 + d) as char
    }
}

/// A number in hexadecimal, in lower case and without leading zeros.
pub open spec fn hex(n: nat) -> Seq<char>
    decreases n,
{
    if n < 16 {
        seq![hex_char(n as int)]
    } else {
        hex(n / 16).push(hex_char((n % 16) as int))
    }
}

/// The digits of a hexadecimal number in lower case.
pub open spec fn is_hex_digit(c: char) -> bool {
    ('0' <= c && c <= '9') || ('a' <= c && c <= 'f')
}

pub proof fn lemma_hex_digits(n: nat)
    ensures
        hex(n).len() > 0,
        forall|i: int| 0 <= i < hex(n).len() ==> is_hex_digit(#[trigger] hex(n)[i]),
    decreases n,
{
    if n >= 16 {
        lemma_hex_digits(n / 16);
        let before = hex(n / 16);
        assert forall|i: int| 0 <= i < hex(n).len() implies is_hex_digit(#[trigger] hex(n)[i]) by {
            if i < before.len() {
                assert(hex(n)[i] == before[i]);
            }
        }
    }
}

pub proof fn lemma_hex_injective(a: nat, b: nat)
    requires
        hex(a) == hex(b),
    ensures
        a == b,
    decreases a,
{
    lemma_hex_digits(a / 16);
    lemma_hex_digits(b / 16);
    assert(hex(a).last() == hex_char((a % 16) as int));
    assert(hex(b).last() == hex_char((b % 16) as int));
    if a >= 16 && b >= 16 {
        assert(hex(a).drop_last() =~= hex(a / 16));
        assert(hex(b).drop_last() =~= hex(b / 16));
        lemma_hex_injective(a / 16, b / 16);
    } else if a >= 16 {
        assert(hex(a).len() > 1);
    } else if b >= 16 {
        assert(hex(b).len() > 1);
    }
}

pub fn hex_string(n: u128) -> (s: String)
    ensures
        s@ == hex(n as nat),
    decreases n,
{
    let mut s = if n < 16 {
        empty()
    } else {
        hex_string(n / 16)
    };
    let d: u8 = (n % 16) as u8;
    let c: char = if d < 10 {
        (48u8 + d) as char
    } else {
        (87u8 + d) as char
    };
    s.push(c);
    assert(n < 16 ==> s@ =~= seq![hex_char(n as int)]);
    s
}

/// Every occurrence of one character replaced by a text.
pub open spec fn replaced(s: Seq<char>, c: char, by: Seq<char>) -> Seq<char>
    decreases s.len(),
{
    if s.len() == 0 {
        Seq::empty()
    } else if s.last() == c {
        replaced(s.drop_last(), c, by) + by
    } else {
        replaced(s.drop_last(), c, by).push(s.last())
    }
}

pub fn replace_char(s: &str, c: char, by: &str) -> (r: String)
    ensures
        r@ == replaced(s@, c, by@),
{
    let v = chars_of(s);
    let mut r = empty();
    let mut i: usize = 0;
    assert(v@.take(0) =~= Seq::empty());
    while i < v.len()
        invariant
            i <= v@.len(),
            v@ == s@,
            r@ == replaced(v@.take(i as int), c, by@),
        decreases v@.len() - i,
    {
        assert(v@.take(i as int + 1).drop_last() =~= v@.take(i as int));
        if v[i] == c {
            push_str(&mut r, by);
        } else {
            r.push(v[i]);
        }
        i = i + 1;
    }
    assert(v@.take(i as int) =~= v@);
    r
}

/// The words of a text: what stands between white space.
pub open spec fn words_and_rest(s: Seq<char>) -> (Seq<Seq<char>>, Seq<char>)
    decreases s.len(),
{
    if s.len() == 0 {
        (Seq::empty(), Seq::empty())
    } else {
        let (words, open) = words_and_rest(s.drop_last());
        if white_space(s.last()) {
            (
                if open.len() > 0 {
                    words.push(open)
                } else {
                    words
                },
                Seq::empty(),
            )
        } else {
            (words, open.push(s.last()))
        }
    }
}

pub open spec fn words(s: Seq<char>) -> Seq<Seq<char>> {
    let (words, open) = words_and_rest(s);
    if open.len() > 0 {
        words.push(open)
    } else {
        words
    }
}

proof fn lemma_words_and_rest_of_parts(s: Seq<char>, t: Seq<char>)
    requires
        words_and_rest(s).1.len() == 0,
    ensures
        words_and_rest(s + t).0 == words_and_rest(s).0 + words_and_rest(t).0,
        words_and_rest(s + t).1 == words_and_rest(t).1,
    decreases t.len(),
{
    if t.len() == 0 {
        assert(s + t =~= s);
        assert(words_and_rest(s).0 + words_and_rest(t).0 =~= words_and_rest(s).0);
        assert(words_and_rest(s).1 =~= words_and_rest(t).1);
    } else {
        assert((s + t).drop_last() =~= s + t.drop_last());
        assert((s + t).last() == t.last());
        lemma_words_and_rest_of_parts(s, t.drop_last());
        let open = words_and_rest(t.drop_last()).1;
        let first = words_and_rest(s).0;
        let words = words_and_rest(t.drop_last()).0;
        assert((first + words).push(open) =~= first + words.push(open));
    }
}

/// The words of two texts with a blank between them are the words of both.
pub proof fn lemma_words_of_parts(s: Seq<char>, t: Seq<char>)
    ensures
        words(s + " "@ + t) == words(s) + words(t),
{
    reveal_strlit(" ");
    let head = s + " "@;
    assert(head.drop_last() =~= s);
    assert(head.last() == ' ');
    assert(white_space(' '));
    assert(words_and_rest(head).0 == words(s));
    lemma_words_and_rest_of_parts(head, t);
    let open = words_and_rest(t).1;
    let first = words(s);
    let more = words_and_rest(t).0;
    assert((first + more).push(open) =~= first + more.push(open));
}

pub fn split_whitespace(s: &str) -> (r: Vec<String>)
    ensures
        views(r@) == words(s@),
{
    let v = chars_of(s);
    let mut r: Vec<String> = Vec::new();
    let mut word = empty();
    let mut size: usize = 0;
    let mut i: usize = 0;
    assert(v@.take(0) =~= Seq::empty());
    assert(views(r@) =~= Seq::<Seq<char>>::empty());
    while i < v.len()
        invariant
            i <= v@.len(),
            v@ == s@,
            size == word@.len(),
            size <= i,
            words_and_rest(v@.take(i as int)) == (views(r@), word@),
        decreases v@.len() - i,
    {
        assert(v@.take(i as int + 1).drop_last() =~= v@.take(i as int));
        if is_white_space(v[i]) {
            if size > 0 {
                let ghost before = views(r@);
                let ghost w = word@;
                r.push(word);
                assert(views(r@) =~= before.push(w));
                word = empty();
                size = 0;
            }
            assert(word@ =~= Seq::empty());
        } else {
            word.push(v[i]);
            size = size + 1;
        }
        i = i + 1;
    }
    assert(v@.take(i as int) =~= v@);
    if size > 0 {
        let ghost before = views(r@);
        let ghost w = word@;
        r.push(word);
        assert(views(r@) =~= before.push(w));
    }
    r
}

/// Where a text first occurs in another, from `i` on.
pub open spec fn occurrence_from(s: Seq<char>, p: Seq<char>, i: int) -> Option<int>
    decreases s.len() + 1 - i,
{
    if i < 0 || i + p.len() > s.len() {
        None
    } else if occurs_at(s, p, i) {
        Some(i)
    } else {
        occurrence_from(s, p, i + 1)
    }
}

/// Where a text first occurs in another, counted in characters.
pub open spec fn occurrence(s: Seq<char>, p: Seq<char>) -> Option<int> {
    occurrence_from(s, p, 0)
}

fn matches_at(a: &Vec<char>, b: &Vec<char>, i: usize) -> (r: bool)
    requires
        i + b@.len() <= a@.len(),
    ensures
        r == occurs_at(a@, b@, i as int),
{
    let n: usize = a.len();
    let mut j: usize = 0;
    while j < b.len()
        invariant
            j <= b@.len(),
            n == a@.len(),
            i + b@.len() <= n,
            a@.subrange(i as int, i + j) =~= b@.take(j as int),
        decreases b@.len() - j,
    {
        if a[i + j] != b[j] {
            assert(a@.subrange(i as int, i + b@.len())[j as int] != b@[j as int]);
            return false;
        }
        assert(a@.subrange(i as int, i + j + 1) =~= a@.subrange(i as int, i + j).push(a@[i + j]));
        assert(b@.take(j as int + 1) =~= b@.take(j as int).push(b@[j as int]));
        j = j + 1;
    }
    assert(b@.take(j as int) =~= b@);
    true
}

pub open spec fn opt_int(n: Option<usize>) -> Option<int> {
    match n {
        Some(n) => Some(n as int),
        None => None,
    }
}

pub fn find(a: &Vec<char>, b: &Vec<char>) -> (r: Option<usize>)
    ensures
        opt_int(r) == occurrence(a@, b@),
        r matches Some(i) ==> i + b@.len() <= a@.len(),
{
    if b.len() > a.len() {
        return None;
    }
    let last: usize = a.len() - b.len();
    let mut i: usize = 0;
    loop
        invariant
            i <= last,
            last + b@.len() == a@.len(),
            occurrence(a@, b@) == occurrence_from(a@, b@, i as int),
        decreases last - i,
    {
        if matches_at(a, b, i) {
            return Some(i);
        }
        if i == last {
            assert(occurrence_from(a@, b@, i + 1) is None);
            return None;
        }
        i = i + 1;
    }
}

} // verus!
