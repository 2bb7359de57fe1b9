//! Text primitives.
//!
//! A text is a sequence of characters. The functions here are the ones that the
//! rules of the daemon are written in; the few that lean on the standard
//! library's character tables name its result.

use vstd::prelude::*;
use vstd::utf8::*;

verus! {

/// `String::push` appends one character at the end.
pub assume_specification[ String::push ](s: &mut String, c: char)
    ensures
        final(s)@ == old(s)@.push(c),
;

/// `str == str` compares the two texts character for character.
pub assume_specification[ <str as PartialEq>::eq ](a: &str, b: &str) -> (equal: bool)
    ensures
        equal == (a@ == b@),
;

/// The text that `str::to_lowercase` makes of `s`.
pub uninterp spec fn lowercased(s: Seq<char>) -> Seq<char>;

/// `str::to_lowercase`: the lower-case equivalent by the Unicode tables, which
/// is the ASCII one where the text is ASCII.
#[verifier::external_body]
pub(crate) fn to_lowercase(s: &str) -> (lower: String)
    ensures
        lower@ == lowercased(s@),
        is_ascii_chars(s@) ==> lower@ == lower_ascii(s@),
{
    s.to_lowercase()
}

/// The text that `{:?}` prints for the text `s`.
pub uninterp spec fn quoted(s: Seq<char>) -> Seq<char>;

/// `format!("{:?}")` on a text: the text in quotes, with escapes.
#[verifier::external_body]
pub(crate) fn quote(s: &str) -> (text: String)
    ensures
        text@ == quoted(s@),
{
    format!("{:?}", s)
}

/// Whether two texts are the same.
pub fn same(a: &str, b: &str) -> (equal: bool)
    ensures
        equal == (a@ == b@),
{
    *a == *b
}

/// The characters of a text.
pub fn chars_of(text: &str) -> (chars: Vec<char>)
    ensures
        chars@ == text@,
{
    let mut chars: Vec<char> = Vec::new();
    for c in it: text.chars()
        invariant
            chars@ == text@.take(it.index() as int),
            it.seq() == text@,
    {
        chars.push(c);
    }
    assert(text@.take(text@.len() as int) =~= text@);
    chars
}

/// The text that some of the characters form.
pub fn text_of(chars: &Vec<char>, from: usize, to: usize) -> (text: String)
    requires
        from <= to <= chars@.len(),
    ensures
        text@ == chars@.subrange(from as int, to as int),
{
    let mut text = String::new();
    let mut i: usize = from;
    while i < to
        invariant
            from <= i <= to <= chars@.len(),
            text@ == chars@.subrange(from as int, i as int),
        decreases to - i,
    {
        text.push(chars[i]);
        i = i + 1;
        assert(text@ =~= chars@.subrange(from as int, i as int));
    }
    text
}

/// Length of the text in bytes of its UTF-8 form.
pub open spec fn byte_len(s: Seq<char>) -> nat {
    encode_utf8(s).len()
}

pub fn byte_length(s: &str) -> (n: usize)
    ensures
        n == byte_len(s@),
{
    s.as_bytes().len()
}

/// The decimal digit of a number below ten.
pub open spec fn digit(n: int) -> char {
    (48 + n) as char
}

fn digit_char(n: u64) -> (c: char)
    requires
        n < 10,
    ensures
        c == digit(n as int),
{
    let code: u8 = 48 + n as u8;
    code as char
}

/// A number in decimal.
pub open spec fn decimal(n: nat) -> Seq<char>
    decreases n,
{
    if n < 10 {
        seq![digit(n as int)]
    } else {
        decimal(n / 10).push(digit((n % 10) as int))
    }
}

pub fn decimal_text(n: u64) -> (text: String)
    ensures
        text@ == decimal(n as nat),
    decreases n,
{
    if n < 10 {
        let mut text = String::new();
        text.push(digit_char(n));
        assert(text@ =~= decimal(n as nat));
        text
    } else {
        let mut text = decimal_text(n / 10);
        text.push(digit_char(n % 10));
        text
    }
}

/// Whether `needle` stands in `hay` at `at`.
pub open spec fn stands_at(hay: Seq<char>, needle: Seq<char>, at: int) -> bool {
    0 <= at && at + needle.len() <= hay.len() && hay.subrange(at, at + needle.len()) == needle
}

/// Whether `needle` occurs in `hay`.
pub open spec fn occurs(needle: Seq<char>, hay: Seq<char>) -> bool {
    exists|at: int| stands_at(hay, needle, at)
}

/// Whether `hay` begins with `needle`.
pub open spec fn begins(hay: Seq<char>, needle: Seq<char>) -> bool {
    stands_at(hay, needle, 0)
}

/// Whether `hay` ends with `needle`.
pub open spec fn ends(hay: Seq<char>, needle: Seq<char>) -> bool {
    stands_at(hay, needle, hay.len() - needle.len())
}

pub fn chars_stand_at(hay: &Vec<char>, needle: &Vec<char>, at: usize) -> (found: bool)
    ensures
        found == stands_at(hay@, needle@, at as int),
{
    let n: usize = hay.len();
    if at > n || needle.len() > n - at {
        return false;
    }
    let mut i: usize = 0;
    while i < needle.len()
        invariant
            i <= needle@.len(),
            n == hay@.len(),
            at + needle@.len() <= n,
            forall|j: int| 0 <= j < i ==> hay@[at + j] == #[trigger] needle@[j],
        decreases needle@.len() - i,
    {
        if hay[at + i] != needle[i] {
            assert(hay@.subrange(at as int, at + needle@.len())[i as int] != needle@[i as int]);
            return false;
        }
        i = i + 1;
    }
    assert(hay@.subrange(at as int, at + needle@.len()) =~= needle@);
    true
}

pub fn contains(hay: &str, needle: &str) -> (found: bool)
    ensures
        found == occurs(needle@, hay@),
{
    let h = chars_of(hay);
    let n = chars_of(needle);
    if n.len() > h.len() {
        return false;
    }
    let last: usize = h.len() - n.len();
    let mut i: usize = 0;
    while i <= last
        invariant
            h@ == hay@,
            n@ == needle@,
            n@.len() <= h@.len(),
            last == h@.len() - n@.len(),
            i <= last + 1,
            forall|j: int| 0 <= j < i ==> !(#[trigger] stands_at(hay@, needle@, j)),
        decreases last + 1 - i,
    {
        if chars_stand_at(&h, &n, i) {
            return true;
        }
        if i == last {
            assert forall|j: int| !(#[trigger] stands_at(hay@, needle@, j)) by {
                if 0 <= j <= last && j < i {
                }
            }
            return false;
        }
        i = i + 1;
    }
    false
}

pub fn starts_with(hay: &str, needle: &str) -> (found: bool)
    ensures
        found == begins(hay@, needle@),
{
    chars_stand_at(&chars_of(hay), &chars_of(needle), 0)
}

pub fn ends_with(hay: &str, needle: &str) -> (found: bool)
    ensures
        found == ends(hay@, needle@),
{
    let h = chars_of(hay);
    let n = chars_of(needle);
    if n.len() > h.len() {
        return false;
    }
    chars_stand_at(&h, &n, h.len() - n.len())
}

pub fn contains_char(hay: &str, c: char) -> (found: bool)
    ensures
        found == hay@.contains(c),
{
    let h = chars_of(hay);
    let mut i: usize = 0;
    while i < h.len()
        invariant
            h@ == hay@,
            i <= h@.len(),
            forall|j: int| 0 <= j < i ==> h@[j] != c,
        decreases h@.len() - i,
    {
        if h[i] == c {
            assert(hay@[i as int] == c);
            return true;
        }
        i = i + 1;
    }
    false
}

/// The ASCII lower case of a character.
pub open spec fn lower_char(c: char) -> char {
    if 'A' <= c && c <= 'Z' {
        ((c as u8) + 32) as char
    } else {
        c
    }
}

/// The text with its ASCII letters in lower case.
pub open spec fn lower_ascii(s: Seq<char>) -> Seq<char> {
    s.map_values(|c: char| lower_char(c))
}

fn to_lower_char(c: char) -> (lower: char)
    ensures
        lower == lower_char(c),
{
    if 'A' <= c && c <= 'Z' {
        ((c as u8) + 32) as char
    } else {
        c
    }
}

pub fn to_ascii_lowercase(s: &str) -> (lower: String)
    ensures
        lower@ == lower_ascii(s@),
{
    let mut lower = String::new();
    for c in it: s.chars()
        invariant
            it.seq() == s@,
            lower@ == lower_ascii(s@.take(it.index() as int)),
    {
        lower.push(to_lower_char(c));
        assert(lower@ =~= lower_ascii(s@.take(it.index() + 1)));
    }
    assert(s@.take(s@.len() as int) =~= s@);
    lower
}

/// Whether two texts are the same but for the case of ASCII letters.
pub open spec fn same_ignoring_case(a: Seq<char>, b: Seq<char>) -> bool {
    lower_ascii(a) == lower_ascii(b)
}

pub fn eq_ignore_ascii_case(a: &str, b: &str) -> (equal: bool)
    ensures
        equal == same_ignoring_case(a@, b@),
{
    to_ascii_lowercase(a) == to_ascii_lowercase(b)
}

/// The characters with the Unicode property `White_Space`.
pub open spec fn white(c: char) -> bool {
    let n = c as int;
    ||| 0x9 <= n <= 0xd
    ||| n == 0x20
    ||| n == 0x85
    ||| n == 0xa0
    ||| n == 0x1680
    ||| 0x2000 <= n <= 0x200a
    ||| n == 0x2028
    ||| n == 0x2029
    ||| n == 0x202f
    ||| n == 0x205f
    ||| n == 0x3000
}

pub fn is_white(c: char) -> (yes: bool)
    ensures
        yes == white(c),
{
    let n: u32 = c as u32;
    (0x9 <= n && n <= 0xd) || n == 0x20 || n == 0x85 || n == 0xa0 || n == 0x1680 || (0x2000 <= n
        && n <= 0x200a) || n == 0x2028 || n == 0x2029 || n == 0x202f || n == 0x205f || n == 0x3000
}

/// The text without the white space at its start.
pub open spec fn trimmed_start(s: Seq<char>) -> Seq<char>
    decreases s.len(),
{
    if s.len() > 0 && white(s[0]) {
        trimmed_start(s.subrange(1, s.len() as int))
    } else {
        s
    }
}

/// The text without the white space at its end.
pub open spec fn trimmed_end(s: Seq<char>) -> Seq<char>
    decreases s.len(),
{
    if s.len() > 0 && white(s.last()) {
        trimmed_end(s.drop_last())
    } else {
        s
    }
}

/// The text without the white space around it.
pub open spec fn trimmed(s: Seq<char>) -> Seq<char> {
    trimmed_end(trimmed_start(s))
}

pub fn trim(s: &str) -> (text: String)
    ensures
        text@ == trimmed(s@),
{
    let chars = chars_of(s);
    let n: usize = chars.len();
    let mut from: usize = 0;
    assert(s@.subrange(0, n as int) =~= s@);
    while from < n && is_white(chars[from])
        invariant
            chars@ == s@,
            n == s@.len(),
            from <= n,
            trimmed_start(s@) == trimmed_start(s@.subrange(from as int, n as int)),
        decreases n - from,
    {
        assert(s@.subrange(from as int, n as int).subrange(1, n - from) =~= s@.subrange(
            from + 1,
            n as int,
        ));
        from = from + 1;
    }
    assert(trimmed_start(s@) == s@.subrange(from as int, n as int));
    let mut to: usize = n;
    while to > from && is_white(chars[to - 1])
        invariant
            chars@ == s@,
            n == s@.len(),
            from <= to <= n,
            trimmed(s@) == trimmed_end(s@.subrange(from as int, to as int)),
        decreases to,
    {
        assert(s@.subrange(from as int, to as int).drop_last() =~= s@.subrange(
            from as int,
            to - 1,
        ));
        to = to - 1;
    }
    text_of(&chars, from, to)
}

/// The text without the occurrences of `c` at its start.
pub open spec fn without_leading(s: Seq<char>, c: char) -> Seq<char>
    decreases s.len(),
{
    if s.len() > 0 && s[0] == c {
        without_leading(s.subrange(1, s.len() as int), c)
    } else {
        s
    }
}

pub fn trim_start_matches(s: &str, c: char) -> (text: String)
    ensures
        text@ == without_leading(s@, c),
{
    let chars = chars_of(s);
    let n: usize = chars.len();
    let mut from: usize = 0;
    assert(s@.subrange(0, n as int) =~= s@);
    while from < n && chars[from] == c
        invariant
            chars@ == s@,
            n == s@.len(),
            from <= n,
            without_leading(s@, c) == without_leading(s@.subrange(from as int, n as int), c),
        decreases n - from,
    {
        assert(s@.subrange(from as int, n as int).subrange(1, n - from) =~= s@.subrange(
            from + 1,
            n as int,
        ));
        from = from + 1;
    }
    text_of(&chars, from, n)
}

/// The text without the occurrences of `c` at its end.
pub open spec fn without_trailing(s: Seq<char>, c: char) -> Seq<char>
    decreases s.len(),
{
    if s.len() > 0 && s.last() == c {
        without_trailing(s.drop_last(), c)
    } else {
        s
    }
}

pub fn trim_end_matches(s: &str, c: char) -> (text: String)
    ensures
        text@ == without_trailing(s@, c),
{
    let chars = chars_of(s);
    let n: usize = chars.len();
    let mut to: usize = n;
    assert(s@.subrange(0, n as int) =~= s@);
    while to > 0 && chars[to - 1] == c
        invariant
            chars@ == s@,
            n == s@.len(),
            to <= n,
            without_trailing(s@, c) == without_trailing(s@.subrange(0, to as int), c),
        decreases to,
    {
        assert(s@.subrange(0, to as int).drop_last() =~= s@.subrange(0, to - 1));
        to = to - 1;
    }
    text_of(&chars, 0, to)
}

/// At most the first `n` characters.
pub open spec fn first_chars(s: Seq<char>, n: nat) -> Seq<char> {
    if s.len() <= n {
        s
    } else {
        s.subrange(0, n as int)
    }
}

pub fn take_chars(s: &str, n: usize) -> (text: String)
    ensures
        text@ == first_chars(s@, n as nat),
{
    let chars = chars_of(s);
    let to: usize = if chars.len() <= n {
        chars.len()
    } else {
        n
    };
    assert(s@.subrange(0, s@.len() as int) =~= s@);
    text_of(&chars, 0, to)
}

/// The text of an optional text.
pub open spec fn text_view(s: Option<&str>) -> Option<Seq<char>> {
    match s {
        Some(t) => Some(t@),
        None => None,
    }
}

/// The text of an optional owned text.
pub open spec fn owned_view(s: Option<String>) -> Option<Seq<char>> {
    match s {
        Some(t) => Some(t@),
        None => None,
    }
}

/// The texts of a list.
pub open spec fn texts(list: Seq<String>) -> Seq<Seq<char>> {
    list.map_values(|s: String| s@)
}

/// The texts one after the other, with `separator` between each two.
pub open spec fn joined(parts: Seq<Seq<char>>, separator: Seq<char>) -> Seq<char>
    decreases parts.len(),
{
    if parts.len() == 0 {
        Seq::empty()
    } else if parts.len() == 1 {
        parts[0]
    } else {
        joined(parts.drop_last(), separator) + separator + parts.last()
    }
}

pub fn join(parts: &Vec<String>, separator: &str) -> (text: String)
    ensures
        text@ == joined(texts(parts@), separator@),
{
    let mut text = String::new();
    let mut i: usize = 0;
    let ghost all = texts(parts@);
    assert(all.take(0) =~= Seq::<Seq<char>>::empty());
    while i < parts.len()
        invariant
            i <= parts@.len(),
            all == texts(parts@),
            text@ == joined(all.take(i as int), separator@),
        decreases parts@.len() - i,
    {
        let ghost now = all.take(i + 1);
        assert(now.drop_last() =~= all.take(i as int));
        assert(now.last() == parts@[i as int]@);
        if i > 0 {
            text.append(separator);
        }
        text.append(parts[i].as_str());
        if i == 0 {
            assert(text@ =~= now[0]);
        }
        i = i + 1;
    }
    assert(all.take(all.len() as int) =~= all);
    text
}

/// Whether `s` is one of `list`.
pub open spec fn one_of(s: Seq<char>, list: Seq<&str>) -> bool {
    exists|i: int| 0 <= i < list.len() && (#[trigger] list[i])@ == s
}

pub fn is_one_of(s: &str, list: &[&str]) -> (found: bool)
    ensures
        found == one_of(s@, list@),
{
    let mut i: usize = 0;
    while i < list.len()
        invariant
            i <= list@.len(),
            forall|j: int| 0 <= j < i ==> (#[trigger] list@[j])@ != s@,
        decreases list@.len() - i,
    {
        if *list[i] == *s {
            assert(list@[i as int]@ == s@);
            return true;
        }
        i = i + 1;
    }
    false
}

/// Place of the first `c` in `s` at or after `from`; the length of `s` where
/// there is none.
pub open spec fn next_of(s: Seq<char>, c: char, from: int) -> int
    decreases s.len() - from,
{
    if from >= s.len() {
        s.len() as int
    } else if s[from] == c {
        from
    } else {
        next_of(s, c, from + 1)
    }
}

/// The parts of `s` between the occurrences of `c`, from `from` on.
pub open spec fn parts_from(s: Seq<char>, c: char, from: int) -> Seq<Seq<char>>
    decreases s.len() - from,
    when 0 <= from <= s.len()
    via parts_from_decreases
{
    let to = next_of(s, c, from);
    if to >= s.len() {
        seq![s.subrange(from, s.len() as int)]
    } else {
        seq![s.subrange(from, to)] + parts_from(s, c, to + 1)
    }
}

#[via_fn]
proof fn parts_from_decreases(s: Seq<char>, c: char, from: int) {
    lemma_next_of(s, c, from);
}

/// The parts of `s` between the occurrences of `c`.
pub open spec fn parts(s: Seq<char>, c: char) -> Seq<Seq<char>> {
    parts_from(s, c, 0)
}

proof fn lemma_next_of(s: Seq<char>, c: char, from: int)
    requires
        0 <= from <= s.len(),
    ensures
        from <= next_of(s, c, from) <= s.len(),
    decreases s.len() - from,
{
    if from < s.len() && s[from] != c {
        lemma_next_of(s, c, from + 1);
    }
}

fn find_char(chars: &Vec<char>, c: char, from: usize) -> (at: usize)
    requires
        from <= chars@.len(),
    ensures
        at == next_of(chars@, c, from as int),
        from <= at <= chars@.len(),
{
    let mut i: usize = from;
    while i < chars.len() && chars[i] != c
        invariant
            from <= i <= chars@.len(),
            next_of(chars@, c, from as int) == next_of(chars@, c, i as int),
        decreases chars@.len() - i,
    {
        i = i + 1;
    }
    i
}

/// Split a text at each `c`.
pub fn split(s: &str, c: char) -> (list: Vec<String>)
    ensures
        texts(list@) == parts(s@, c),
        list@.len() >= 1,
{
    let chars = chars_of(s);
    let n: usize = chars.len();
    let mut list: Vec<String> = Vec::new();
    let mut from: usize = 0;
    assert(texts(list@) + parts_from(s@, c, 0) =~= parts(s@, c));
    loop
        invariant_except_break
            texts(list@) + parts_from(s@, c, from as int) == parts(s@, c),
        invariant
            chars@ == s@,
            n == s@.len(),
            from <= n,
        ensures
            texts(list@) == parts(s@, c),
            list@.len() >= 1,
        decreases n - from,
    {
        let to: usize = find_char(&chars, c, from);
        let part = text_of(&chars, from, to);
        let ghost before = list@;
        list.push(part);
        assert(texts(list@) =~= texts(before).push(part@));
        if to >= n {
            assert(texts(list@) =~= texts(before) + parts_from(s@, c, from as int));
            break;
        }
        assert(texts(list@) + parts_from(s@, c, to + 1) =~= texts(before) + parts_from(
            s@,
            c,
            from as int,
        ));
        from = to + 1;
    }
    list
}

/// The first line: what stands before the first line feed, without a carriage
/// return in front of it.
pub open spec fn first_line(s: Seq<char>) -> Seq<char> {
    let to = next_of(s, '\n', 0);
    if to < s.len() && to > 0 && s[to - 1] == '\r' {
        s.subrange(0, to - 1)
    } else {
        s.subrange(0, to)
    }
}

pub fn take_first_line(s: &str) -> (line: String)
    ensures
        line@ == first_line(s@),
{
    let chars = chars_of(s);
    let to: usize = find_char(&chars, '\n', 0);
    if to < chars.len() && to > 0 && chars[to - 1] == '\r' {
        text_of(&chars, 0, to - 1)
    } else {
        text_of(&chars, 0, to)
    }
}

/// Whether `c` is a decimal digit.
pub open spec fn is_digit(c: char) -> bool {
    '0' <= c && c <= '9'
}

/// The number that a row of digits stands for.
pub open spec fn digits_value(s: Seq<char>) -> nat
    decreases s.len(),
{
    if s.len() == 0 {
        0
    } else {
        digits_value(s.drop_last()) * 10 + (s.last() as int - 48) as nat
    }
}

/// Whether `s` is a row of at least one digit.
pub open spec fn all_digits(s: Seq<char>) -> bool {
    s.len() > 0 && forall|i: int| 0 <= i < s.len() ==> is_digit(#[trigger] s[i])
}

/// `s` without a leading sign `c`.
pub open spec fn unsigned_part(s: Seq<char>, c: char) -> Seq<char> {
    if s.len() > 0 && s[0] == c {
        s.subrange(1, s.len() as int)
    } else {
        s
    }
}

/// The number that `s` stands for, if it is one up to `max`: digits, with a plus
/// sign or none.
pub open spec fn parsed_uint(s: Seq<char>, max: nat) -> Option<nat> {
    let d = unsigned_part(s, '+');
    if all_digits(d) && digits_value(d) <= max {
        Some(digits_value(d))
    } else {
        None
    }
}

proof fn lemma_digits_grow(s: Seq<char>, i: int)
    requires
        0 <= i <= s.len(),
        forall|j: int| 0 <= j < s.len() ==> is_digit(#[trigger] s[j]),
    ensures
        digits_value(s.take(i)) <= digits_value(s),
    decreases s.len() - i,
{
    if i < s.len() {
        lemma_digits_grow(s, i + 1);
        assert(s.take(i + 1).drop_last() =~= s.take(i));
    } else {
        assert(s.take(i) =~= s);
    }
}

/// The value of a row of digits from `from` on, if it is one up to `max`.
fn digits_from(chars: &Vec<char>, from: usize, max: u128) -> (value: Option<u128>)
    requires
        from <= chars@.len(),
        max <= u64::MAX,
    ensures
        ({
            let d = chars@.subrange(from as int, chars@.len() as int);
            match value {
                Some(v) => all_digits(d) && digits_value(d) <= max && v == digits_value(d),
                None => !(all_digits(d) && digits_value(d) <= max),
            }
        }),
{
    let ghost d = chars@.subrange(from as int, chars@.len() as int);
    if from >= chars.len() {
        return None;
    }
    let mut value: u128 = 0;
    let mut i: usize = from;
    assert(d.take(0) =~= Seq::<char>::empty());
    while i < chars.len()
        invariant
            from <= i <= chars@.len(),
            d == chars@.subrange(from as int, chars@.len() as int),
            max <= u64::MAX,
            value <= max,
            value == digits_value(d.take(i - from)),
            forall|j: int| 0 <= j < i - from ==> is_digit(#[trigger] d[j]),
        decreases chars@.len() - i,
    {
        let c = chars[i];
        assert(c == d[i - from]);
        if !('0' <= c && c <= '9') {
            assert(!is_digit(d[i - from]));
            return None;
        }
        assert(d.take(i - from + 1).drop_last() =~= d.take(i - from));
        value = value * 10 + (c as u128 - 48);
        if value > max {
            proof {
                if all_digits(d) {
                    lemma_digits_grow(d, i - from + 1);
                }
            }
            return None;
        }
        i = i + 1;
    }
    assert(d.take(d.len() as int) =~= d);
    Some(value)
}

pub fn parse_u32(s: &str) -> (value: Option<u32>)
    ensures
        match value {
            Some(v) => parsed_uint(s@, u32::MAX as nat) == Some(v as nat),
            None => parsed_uint(s@, u32::MAX as nat) is None,
        },
{
    let chars = chars_of(s);
    let from: usize = if chars.len() > 0 && chars[0] == '+' {
        1
    } else {
        0
    };
    assert(chars@.subrange(0, chars@.len() as int) =~= chars@);
    match digits_from(&chars, from, u32::MAX as u128) {
        Some(v) => Some(v as u32),
        None => None,
    }
}

/// The number that `s` stands for, if it is one of 64 bits with a sign.
pub open spec fn parsed_i64(s: Seq<char>) -> Option<int> {
    if s.len() > 0 && s[0] == '-' {
        let d = unsigned_part(s, '-');
        if all_digits(d) && digits_value(d) <= 0x8000_0000_0000_0000 {
            Some(-(digits_value(d) as int))
        } else {
            None
        }
    } else {
        match parsed_uint(s, i64::MAX as nat) {
            Some(v) => Some(v as int),
            None => None,
        }
    }
}

pub fn parse_i64(s: &str) -> (value: Option<i64>)
    ensures
        match value {
            Some(v) => parsed_i64(s@) == Some(v as int),
            None => parsed_i64(s@) is None,
        },
{
    let chars = chars_of(s);
    assert(chars@.subrange(0, chars@.len() as int) =~= chars@);
    if chars.len() > 0 && chars[0] == '-' {
        match digits_from(&chars, 1, 0x8000_0000_0000_0000) {
            Some(v) => Some((0 - (v as i128)) as i64),
            None => None,
        }
    } else {
        let from: usize = if chars.len() > 0 && chars[0] == '+' {
            1
        } else {
            0
        };
        match digits_from(&chars, from, i64::MAX as u128) {
            Some(v) => Some(v as i64),
            None => None,
        }
    }
}

/// A text occurs in another exactly where that one is made of it with something
/// before and something behind.
pub proof fn occurrence_splits_the_text(needle: Seq<char>, hay: Seq<char>)
    ensures
        occurs(needle, hay) <==> exists|before: Seq<char>, after: Seq<char>|
            hay == #[trigger] (before + needle + after),
{
    if occurs(needle, hay) {
        let at = choose|at: int| stands_at(hay, needle, at);
        let before = hay.subrange(0, at);
        let after = hay.subrange(at + needle.len(), hay.len() as int);
        assert(hay =~= before + needle + after);
    }
    if exists|before: Seq<char>, after: Seq<char>| hay == #[trigger] (before + needle + after) {
        let (before, after) = choose|before: Seq<char>, after: Seq<char>|
            hay == #[trigger] (before + needle + after);
        let at = before.len() as int;
        assert(hay.subrange(at, at + needle.len()) =~= needle);
        assert(stands_at(hay, needle, at));
    }
}

/// A text begins with another where something follows that one, and ends with it
/// where something goes before.
pub proof fn beginning_and_end_split_the_text(part: Seq<char>, hay: Seq<char>)
    ensures
        begins(hay, part) <==> exists|after: Seq<char>| hay == #[trigger] (part + after),
        ends(hay, part) <==> exists|before: Seq<char>| hay == #[trigger] (before + part),
{
    if begins(hay, part) {
        let after = hay.subrange(part.len() as int, hay.len() as int);
        assert(hay =~= part + after);
    }
    if exists|after: Seq<char>| hay == #[trigger] (part + after) {
        assert(hay.subrange(0, part.len() as int) =~= part);
    }
    if ends(hay, part) {
        let before = hay.subrange(0, hay.len() - part.len());
        assert(hay =~= before + part);
    }
    if exists|before: Seq<char>| hay == #[trigger] (before + part) {
        assert(hay.subrange(hay.len() - part.len(), hay.len() as int) =~= part);
    }
}

/// A number in decimal is a row of digits that stands for that number, without a
/// zero in front.
pub proof fn decimal_stands_for_its_number(n: nat)
    ensures
        all_digits(decimal(n)),
        digits_value(decimal(n)) == n,
        n > 0 ==> decimal(n)[0] != '0',
        n < 10 ==> decimal(n).len() == 1,
    decreases n,
{
    if n >= 10 {
        decimal_stands_for_its_number(n / 10);
        let d = decimal(n);
        assert(d.drop_last() =~= decimal(n / 10));
        assert forall|i: int| 0 <= i < d.len() implies is_digit(#[trigger] d[i]) by {
            if i < d.len() - 1 {
                assert(d[i] == decimal(n / 10)[i]);
            }
        }
        assert(d[0] == decimal(n / 10)[0]);
    } else {
        let d = decimal(n);
        assert(d.drop_last() =~= Seq::<char>::empty());
        assert(digits_value(d.drop_last()) == 0);
    }
}

/// Digits count ten times as much one place further to the left.
pub proof fn digits_have_their_places(s: Seq<char>, c: char)
    requires
        '0' <= c <= '9',
    ensures
        digits_value(s.push(c)) == 10 * digits_value(s) + (c as int - '0' as int),
        digits_value(Seq::<char>::empty()) == 0,
{
    assert(s.push(c).drop_last() =~= s);
}

/// Lower case changes the letters from A to Z by the distance of the alphabets, and
/// nothing else.
pub proof fn lower_case_moves_capital_letters(s: Seq<char>, i: int)
    requires
        0 <= i < s.len(),
    ensures
        lower_ascii(s).len() == s.len(),
        'A' <= s[i] <= 'Z' ==> lower_ascii(s)[i] as int == s[i] as int + ('a' as int - 'A' as int),
        !('A' <= s[i] <= 'Z') ==> lower_ascii(s)[i] == s[i],
        lower_ascii(lower_ascii(s)) == lower_ascii(s),
{
    assert(lower_ascii(lower_ascii(s)) =~= lower_ascii(s));
}

/// Two texts are the same but for the case where they have the same length and each
/// two characters are the same but for the case.
pub proof fn case_is_ignored_letter_by_letter(a: Seq<char>, b: Seq<char>)
    ensures
        same_ignoring_case(a, b) <==> a.len() == b.len() && forall|i: int|
            0 <= i < a.len() ==> #[trigger] lower_char(a[i]) == lower_char(b[i]),
        same_ignoring_case(a, b) <==> same_ignoring_case(b, a),
        same_ignoring_case(a, lower_ascii(a)),
{
    if same_ignoring_case(a, b) {
        assert(lower_ascii(a).len() == a.len() && lower_ascii(b).len() == b.len());
        assert forall|i: int| 0 <= i < a.len() implies #[trigger] lower_char(a[i]) == lower_char(
            b[i],
        ) by {
            assert(lower_ascii(a)[i] == lower_ascii(b)[i]);
        }
    }
    if a.len() == b.len() && forall|i: int|
        0 <= i < a.len() ==> #[trigger] lower_char(a[i]) == lower_char(b[i]) {
        assert(lower_ascii(a) =~= lower_ascii(b));
    }
    assert(lower_ascii(lower_ascii(a)) =~= lower_ascii(a));
}

proof fn lemma_trimmed_start(s: Seq<char>) -> (k: int)
    ensures
        0 <= k <= s.len(),
        trimmed_start(s) == s.subrange(k, s.len() as int),
        forall|i: int| 0 <= i < k ==> white(#[trigger] s[i]),
        k < s.len() ==> !white(s[k]),
    decreases s.len(),
{
    if s.len() > 0 && white(s[0]) {
        let rest = s.subrange(1, s.len() as int);
        let k = lemma_trimmed_start(rest);
        assert(rest.subrange(k, rest.len() as int) =~= s.subrange(k + 1, s.len() as int));
        assert forall|i: int| 0 <= i < k + 1 implies white(#[trigger] s[i]) by {
            if i > 0 {
                assert(s[i] == rest[i - 1]);
            }
        }
        k + 1
    } else {
        assert(s.subrange(0, s.len() as int) =~= s);
        0
    }
}

proof fn lemma_trimmed_end(s: Seq<char>) -> (k: int)
    ensures
        0 <= k <= s.len(),
        trimmed_end(s) == s.subrange(0, k),
        forall|i: int| k <= i < s.len() ==> white(#[trigger] s[i]),
        k > 0 ==> !white(s[k - 1]),
    decreases s.len(),
{
    if s.len() > 0 && white(s.last()) {
        let rest = s.drop_last();
        let k = lemma_trimmed_end(rest);
        assert(rest.subrange(0, k) =~= s.subrange(0, k));
        assert forall|i: int| k <= i < s.len() implies white(#[trigger] s[i]) by {
            if i < rest.len() {
                assert(s[i] == rest[i]);
            }
        }
        k
    } else {
        assert(s.subrange(0, s.len() as int) =~= s);
        s.len() as int
    }
}

/// Trimming takes away white space at both ends, all of it, and nothing else.
pub proof fn trimming_takes_white_ends(s: Seq<char>)
    ensures
        exists|from: int, to: int|
            0 <= from <= to <= s.len() && trimmed(s) == #[trigger] s.subrange(from, to) && (forall|
                i: int,
            |
                0 <= i < s.len() && !(from <= i < to) ==> white(#[trigger] s[i])),
        trimmed(s).len() > 0 ==> !white(trimmed(s)[0]) && !white(trimmed(s).last()),
{
    let from = lemma_trimmed_start(s);
    let rest = s.subrange(from, s.len() as int);
    let k = lemma_trimmed_end(rest);
    let to = from + k;
    assert(rest.subrange(0, k) =~= s.subrange(from, to));
    assert forall|i: int| 0 <= i < s.len() && !(from <= i < to) implies white(#[trigger] s[i]) by {
        if i >= to {
            assert(s[i] == rest[i - from]);
        }
    }
    assert(trimmed(s) == s.subrange(from, to));
    if trimmed(s).len() > 0 {
        assert(trimmed(s)[0] == s[from]);
        assert(trimmed(s).last() == rest[k - 1]);
    }
}

/// White are the blank, the tab, the line ends and the no-break space; letters,
/// digits and the signs of paths are not.
pub proof fn blanks_are_white_letters_are_not(c: char)
    ensures
        white(' ') && white('\t') && white('\n') && white('\r'),
        c as int == 0xa0 || c as int == 0x3000 ==> white(c),
        0x21 <= c as int <= 0x7e ==> !white(c),
{
}

/// Of a text no longer than the limit everything is kept, of a longer one the
/// beginning.
pub proof fn cut_keeps_the_beginning(s: Seq<char>, n: nat)
    ensures
        first_chars(s, n).len() == if s.len() < n {
            s.len()
        } else {
            n
        },
        forall|i: int| 0 <= i < first_chars(s, n).len() ==> #[trigger] first_chars(s, n)[i] == s[i],
{
}

/// Joining texts puts them in their order, with the separator between each two and
/// nowhere else.
pub proof fn joining_keeps_the_order(
    parts: Seq<Seq<char>>,
    separator: Seq<char>,
    next: Seq<char>,
)
    ensures
        joined(Seq::<Seq<char>>::empty(), separator) == Seq::<char>::empty(),
        joined(seq![next], separator) == next,
        parts.len() > 0 ==> joined(parts.push(next), separator) == joined(parts, separator)
            + separator + next,
{
    assert(parts.push(next).drop_last() =~= parts);
}

proof fn lemma_next_found(s: Seq<char>, c: char, from: int)
    requires
        0 <= from <= s.len(),
    ensures
        from <= next_of(s, c, from) <= s.len(),
        forall|i: int| from <= i < next_of(s, c, from) ==> #[trigger] s[i] != c,
        next_of(s, c, from) < s.len() ==> s[next_of(s, c, from)] == c,
    decreases s.len() - from,
{
    if from < s.len() && s[from] != c {
        lemma_next_found(s, c, from + 1);
    }
}

/// Splitting a text at a character gives parts without it, which joined by it give
/// the text again.
pub proof fn splitting_is_undone_by_joining(s: Seq<char>, c: char)
    ensures
        joined(parts(s, c), seq![c]) == s,
        forall|k: int| 0 <= k < parts(s, c).len() ==> !(#[trigger] parts(s, c)[k]).contains(c),
{
    lemma_parts_from(s, c, 0);
    assert(s.subrange(0, s.len() as int) =~= s);
}

proof fn lemma_parts_from(s: Seq<char>, c: char, from: int)
    requires
        0 <= from <= s.len(),
    ensures
        parts_from(s, c, from).len() > 0,
        joined(parts_from(s, c, from), seq![c]) == s.subrange(from, s.len() as int),
        forall|k: int|
            0 <= k < parts_from(s, c, from).len() ==> !(#[trigger] parts_from(
                s,
                c,
                from,
            )[k]).contains(c),
    decreases s.len() - from,
{
    let to = next_of(s, c, from);
    lemma_next_found(s, c, from);
    let first = s.subrange(from, to);
    assert(!first.contains(c)) by {
        if first.contains(c) {
            let i = choose|i: int| 0 <= i < first.len() && first[i] == c;
            assert(s[from + i] == c);
        }
    }
    if to >= s.len() {
        assert(parts_from(s, c, from) =~= seq![first]);
    } else {
        let rest = parts_from(s, c, to + 1);
        lemma_parts_from(s, c, to + 1);
        let all = parts_from(s, c, from);
        assert(all =~= seq![first] + rest);
        lemma_joined_front(first, rest, seq![c]);
        assert(first + seq![c] + s.subrange(to + 1, s.len() as int) =~= s.subrange(
            from,
            s.len() as int,
        ));
        assert forall|k: int| 0 <= k < all.len() implies !(#[trigger] all[k]).contains(c) by {
            if k > 0 {
                assert(all[k] == rest[k - 1]);
            }
        }
    }
}

proof fn lemma_joined_front(first: Seq<char>, rest: Seq<Seq<char>>, separator: Seq<char>)
    requires
        rest.len() > 0,
    ensures
        joined(seq![first] + rest, separator) == first + separator + joined(rest, separator),
    decreases rest.len(),
{
    let all = seq![first] + rest;
    assert(all.drop_last() =~= seq![first] + rest.drop_last());
    if rest.len() == 1 {
        assert(rest.drop_last() =~= Seq::<Seq<char>>::empty());
        assert(all.drop_last() =~= seq![first]);
        assert(joined(seq![first], separator) == first);
        assert(joined(rest, separator) == rest[0]);
        assert(all.last() == rest[0]);
        assert(joined(all, separator) =~= first + separator + rest[0]);
    } else {
        lemma_joined_front(first, rest.drop_last(), separator);
        assert(joined(all, separator) =~= first + separator + joined(rest, separator));
    }
}

/// The first line of a text reaches to the first line feed, and leaves a carriage
/// return before it out.
pub proof fn first_line_ends_at_line_feed(line: Seq<char>, rest: Seq<char>)
    requires
        !line.contains('\n'),
    ensures
        first_line(line + seq!['\n'] + rest) == if line.len() > 0 && line.last() == '\r' {
            line.drop_last()
        } else {
            line
        },
        first_line(line) == line,
{
    let s = line + seq!['\n'] + rest;
    let to = line.len() as int;
    lemma_next_found(s, '\n', 0);
    lemma_next_found(line, '\n', 0);
    assert(s[to] == '\n');
    let found = next_of(s, '\n', 0);
    if found < to {
        assert(line[found] == s[found]);
    }
    assert(found == to);
    if next_of(line, '\n', 0) < line.len() {
        assert(line[next_of(line, '\n', 0)] == '\n');
    }
    assert(s.subrange(0, to) =~= line);
    assert(line.subrange(0, to) =~= line);
    if line.len() > 0 {
        assert(s[to - 1] == line.last());
        assert(s.subrange(0, to - 1) =~= line.drop_last());
    }
}

/// A number that is read back from its decimal form is that number, with a sign or
/// without; anything but digits is none.
pub proof fn numbers_are_read_back(n: nat, max: nat)
    ensures
        parsed_uint(decimal(n), max) == if n <= max {
            Some(n)
        } else {
            None::<nat>
        },
        parsed_uint(seq!['+'] + decimal(n), max) == parsed_uint(decimal(n), max),
        parsed_i64(decimal(n)) == if n <= i64::MAX {
            Some(n as int)
        } else {
            None::<int>
        },
        parsed_i64(seq!['-'] + decimal(n)) == if n <= 0x8000_0000_0000_0000 {
            Some(-(n as int))
        } else {
            None::<int>
        },
        parsed_uint(Seq::<char>::empty(), max) is None,
{
    decimal_stands_for_its_number(n);
    let d = decimal(n);
    assert(is_digit(d[0]));
    let plus = seq!['+'] + d;
    let minus = seq!['-'] + d;
    assert(plus.subrange(1, plus.len() as int) =~= d);
    assert(minus.subrange(1, minus.len() as int) =~= d);
}

/// A text that holds anything but digits behind an optional sign is no number.
pub proof fn other_characters_make_no_number(s: Seq<char>, i: int, max: nat)
    requires
        0 <= i < s.len(),
        !('0' <= s[i] <= '9'),
        i > 0 || s[i] != '+',
    ensures
        parsed_uint(s, max) is None,
        i > 0 || s[i] != '-' ==> parsed_i64(s) is None,
{
    let plus = unsigned_part(s, '+');
    if s[0] == '+' {
        assert(plus[i - 1] == s[i]);
        assert(!is_digit(plus[i - 1]));
    } else {
        assert(!is_digit(plus[i]));
    }
    if s[0] == '-' && i > 0 {
        let minus = unsigned_part(s, '-');
        assert(minus[i - 1] == s[i]);
        assert(!is_digit(minus[i - 1]));
    }
}

/// Taking a character away at the start or the end takes away all of it there, and
/// nothing else.
pub proof fn character_is_taken_from_the_ends(s: Seq<char>, c: char)
    ensures
        exists|k: int|
            0 <= k <= s.len() && without_leading(s, c) == #[trigger] s.subrange(k, s.len() as int)
                && (forall|i: int| 0 <= i < k ==> #[trigger] s[i] == c),
        exists|k: int|
            0 <= k <= s.len() && without_trailing(s, c) == #[trigger] s.subrange(0, k) && (forall|
                i: int,
            |
                k <= i < s.len() ==> #[trigger] s[i] == c),
        without_leading(s, c).len() > 0 ==> without_leading(s, c)[0] != c,
        without_trailing(s, c).len() > 0 ==> without_trailing(s, c).last() != c,
{
    let k = lemma_leading(s, c);
    assert(without_leading(s, c) == s.subrange(k, s.len() as int));
    let m = lemma_trailing(s, c);
    assert(without_trailing(s, c) == s.subrange(0, m));
}

proof fn lemma_leading(s: Seq<char>, c: char) -> (k: int)
    ensures
        0 <= k <= s.len(),
        without_leading(s, c) == s.subrange(k, s.len() as int),
        forall|i: int| 0 <= i < k ==> #[trigger] s[i] == c,
        k < s.len() ==> s[k] != c,
    decreases s.len(),
{
    if s.len() > 0 && s[0] == c {
        let rest = s.subrange(1, s.len() as int);
        let k = lemma_leading(rest, c);
        assert(rest.subrange(k, rest.len() as int) =~= s.subrange(k + 1, s.len() as int));
        assert forall|i: int| 0 <= i < k + 1 implies #[trigger] s[i] == c by {
            if i > 0 {
                assert(s[i] == rest[i - 1]);
            }
        }
        k + 1
    } else {
        assert(s.subrange(0, s.len() as int) =~= s);
        0
    }
}

proof fn lemma_trailing(s: Seq<char>, c: char) -> (k: int)
    ensures
        0 <= k <= s.len(),
        without_trailing(s, c) == s.subrange(0, k),
        forall|i: int| k <= i < s.len() ==> #[trigger] s[i] == c,
        k > 0 ==> s[k - 1] != c,
    decreases s.len(),
{
    if s.len() > 0 && s.last() == c {
        let rest = s.drop_last();
        let k = lemma_trailing(rest, c);
        assert(rest.subrange(0, k) =~= s.subrange(0, k));
        assert forall|i: int| k <= i < s.len() implies #[trigger] s[i] == c by {
            if i < rest.len() {
                assert(s[i] == rest[i]);
            }
        }
        k
    } else {
        assert(s.subrange(0, s.len() as int) =~= s);
        s.len() as int
    }
}

/// A text is one of some words where it is the same as one of them.
pub proof fn word_is_one_of_its_list(text: Seq<char>, words: Seq<&'static str>, i: int)
    ensures
        0 <= i < words.len() && words[i]@ == text ==> one_of(text, words),
        one_of(text, words) ==> exists|k: int|
            0 <= k < words.len() && (#[trigger] words[k])@ == text,
{
}

} // verus!
