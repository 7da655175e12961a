//! Text as sequences of characters: the small operations on strings that the
//! rest of the crate is built from, each with its meaning over `Seq<char>`.
use vstd::prelude::*;
use vstd::string::*;

verus! {

/// The characters with the Unicode property `White_Space`.
pub open spec fn is_space(c: char) -> bool {
    let n = c as u32;
    ||| 0x09 <= n <= 0x0d
    ||| n == 0x20
    ||| n == 0x85
    ||| n == 0xa0
    ||| n == 0x1680
    ||| 0x2000 <= n <= 0x200a
    ||| n == 0x2028
    ||| n == 0x2029
    ||| n == 0x202f
    ||| n == 0x205f
    ||| n == 0x3000
}

/// `s` without the leading white space.
pub open spec fn trim_start(s: Seq<char>) -> Seq<char>
    decreases s.len(),
{
    if s.len() > 0 && is_space(s[0]) {
        trim_start(s.skip(1))
    } else {
        s
    }
}

/// `s` without the trailing white space.
pub open spec fn trim_end(s: Seq<char>) -> Seq<char>
    decreases s.len(),
{
    if s.len() > 0 && is_space(s.last()) {
        trim_end(s.drop_last())
    } else {
        s
    }
}

/// `s` without the white space at either end.
pub open spec fn trim(s: Seq<char>) -> Seq<char> {
    trim_end(trim_start(s))
}

/// What follows `prefix` in `s`, if `s` begins with it.
pub open spec fn strip_prefix(s: Seq<char>, prefix: Seq<char>) -> Option<Seq<char>> {
    if prefix.is_prefix_of(s) {
        Some(s.skip(prefix.len() as int))
    } else {
        None
    }
}

/// The pieces of `s` between the separators `sep`; one more than there are
/// separators.
pub open spec fn split_on(s: Seq<char>, sep: char) -> Seq<Seq<char>>
    decreases s.len(),
{
    if s.len() == 0 {
        seq![Seq::<char>::empty()]
    } else {
        let before = split_on(s.drop_last(), sep);
        if s.last() == sep {
            before.push(Seq::<char>::empty())
        } else {
            before.drop_last().push(before.last().push(s.last()))
        }
    }
}

/// What stands before and after the first `sep` in `s`.
pub open spec fn split_once(s: Seq<char>, sep: char) -> Option<(Seq<char>, Seq<char>)> {
    match s.index_of_first(sep) {
        Some(i) => Some((s.take(i), s.skip(i + 1))),
        None => None,
    }
}

/// Whether `needle` stands somewhere in `s`.
pub open spec fn holds_text(s: Seq<char>, needle: Seq<char>) -> bool {
    exists|i: int|
        0 <= i <= s.len() - needle.len() && #[trigger] s.subrange(i, i + needle.len()) == needle
}

/// A line without the carriage return of a `\r\n` ending.
pub open spec fn without_carriage_return(line: Seq<char>) -> Seq<char> {
    if line.len() > 0 && line.last() == '\r' {
        line.drop_last()
    } else {
        line
    }
}

/// The lines of `s`. A line ends at `\n` or `\r\n`; the ending of the last line
/// may be missing, and a lone `\r` there is kept.
pub open spec fn text_lines(s: Seq<char>) -> Seq<Seq<char>> {
    let parts = split_on(s, '\n');
    let ended = parts.drop_last().map_values(|line: Seq<char>| without_carriage_return(line));
    if parts.last().len() == 0 {
        ended
    } else {
        ended.push(parts.last())
    }
}

/// The decimal digit of `d`.
pub open spec fn digit_char(d: int) -> char {
    ('0' as int + d) as char
}

/// `n` in decimal notation.
pub open spec fn decimal(n: nat) -> Seq<char>
    decreases n,
{
    if n < 10 {
        seq![digit_char(n as int)]
    } else {
        decimal(n / 10).push(digit_char((n % 10) as int))
    }
}

pub open spec fn is_digit(c: char) -> bool {
    '0' <= c <= '9'
}

pub open spec fn all_digits(s: Seq<char>) -> bool {
    forall|i: int| 0 <= i < s.len() ==> is_digit(#[trigger] s[i])
}

/// The number that a sequence of digits denotes.
pub open spec fn digits_value(s: Seq<char>) -> nat
    decreases s.len(),
{
    if s.len() == 0 {
        0
    } else {
        (digits_value(s.drop_last()) * 10 + (s.last() as int - '0' as int)) as nat
    }
}

/// The digits of a number: what follows an optional `+`.
pub open spec fn unsigned_digits(s: Seq<char>) -> Seq<char> {
    if s.len() > 0 && s[0] == '+' {
        s.skip(1)
    } else {
        s
    }
}

/// The number below `2^32` that `s` denotes: an optional `+`, then one or more
/// decimal digits.
pub open spec fn u32_value(s: Seq<char>) -> Option<u32> {
    let digits = unsigned_digits(s);
    if digits.len() > 0 && all_digits(digits) && digits_value(digits) <= u32::MAX {
        Some(digits_value(digits) as u32)
    } else {
        None
    }
}

pub proof fn lemma_split_on_nonempty(s: Seq<char>, sep: char)
    ensures
        split_on(s, sep).len() > 0,
    decreases s.len(),
{
    if s.len() > 0 {
        lemma_split_on_nonempty(s.drop_last(), sep);
    }
}

/// Splitting two texts joined by the separator gives the pieces of the first,
/// then the pieces of the second.
pub proof fn law_split_joined(a: Seq<char>, b: Seq<char>, sep: char)
    ensures
        split_on(a.push(sep) + b, sep) == split_on(a, sep) + split_on(b, sep),
    decreases b.len(),
{
    let whole = a.push(sep) + b;
    if b.len() == 0 {
        assert(whole =~= a.push(sep));
        assert(a.push(sep).drop_last() =~= a);
        assert(split_on(b, sep) =~= seq![Seq::<char>::empty()]);
    } else {
        law_split_joined(a, b.drop_last(), sep);
        lemma_split_on_nonempty(b.drop_last(), sep);
        assert(whole.drop_last() =~= a.push(sep) + b.drop_last());
        let left = split_on(a, sep);
        let right = split_on(b.drop_last(), sep);
        assert((left + right).drop_last() =~= left + right.drop_last());
        assert((left + right).last() == right.last());
    }
}

/// The characters of `s`.
pub fn chars_of(s: &str) -> (chars: Vec<char>)
    ensures
        chars@ == s@,
{
    let mut chars: Vec<char> = Vec::new();
    for c in it: s.chars()
        invariant
            chars@ == it.seq().take(it.index()),
            it.seq() == s@,
    {
        chars.push(c);
    }
    assert(s@.take(s@.len() as int) == s@);
    chars
}

/// The part of `s` from character `from` up to character `to`.
pub fn part_of(s: &str, from: usize, to: usize) -> (part: String)
    requires
        from <= to <= s@.len(),
    ensures
        part@ == s@.subrange(from as int, to as int),
{
    s.substring_char(from, to).to_owned()
}

/// Whether `a` and `b` hold the same characters.
pub fn same_text(a: &str, b: &str) -> (same: bool)
    ensures
        same == (a@ == b@),
{
    a.to_owned() == b.to_owned()
}

/// `first` followed by `second`.
pub fn join2(first: &str, second: &str) -> (joined: String)
    ensures
        joined@ == first@ + second@,
{
    let mut joined = first.to_owned();
    joined.append(second);
    joined
}

pub fn is_space_char(c: char) -> (space: bool)
    ensures
        space == is_space(c),
{
    let n: u32 = c as u32;
    (0x09 <= n && n <= 0x0d) || n == 0x20 || n == 0x85 || n == 0xa0 || n == 0x1680 || (0x2000 <= n
        && n <= 0x200a) || n == 0x2028 || n == 0x2029 || n == 0x202f || n == 0x205f || n == 0x3000
}

/// `s` without the white space at either end.
pub fn trim_text(s: &str) -> (trimmed: String)
    ensures
        trimmed@ == trim(s@),
{
    let chars = chars_of(s);
    let mut from: usize = 0;
    assert(s@.skip(0) =~= s@);
    while from < chars.len() && is_space_char(chars[from])
        invariant
            from <= chars.len(),
            chars@ == s@,
            trim_start(s@) == trim_start(s@.skip(from as int)),
        decreases chars.len() - from,
    {
        assert(s@.skip(from as int).skip(1) =~= s@.skip(from + 1));
        from = from + 1;
    }
    let ghost rest = s@.skip(from as int);
    assert(trim_start(s@) == rest);
    let mut to: usize = chars.len();
    assert(s@.subrange(from as int, to as int) =~= rest);
    while from < to && is_space_char(chars[to - 1])
        invariant
            from <= to <= chars.len(),
            chars@ == s@,
            trim_end(rest) == trim_end(s@.subrange(from as int, to as int)),
        decreases to,
    {
        assert(s@.subrange(from as int, to as int).drop_last() =~= s@.subrange(
            from as int,
            to - 1,
        ));
        to = to - 1;
    }
    part_of(s, from, to)
}

/// What follows `prefix` in `s`, if `s` begins with it.
pub fn strip_prefix_text(s: &str, prefix: &str) -> (rest: Option<String>)
    ensures
        rest.deep_view() == strip_prefix(s@, prefix@),
{
    let chars = chars_of(s);
    let wanted = chars_of(prefix);
    if wanted.len() > chars.len() {
        return None;
    }
    let mut i: usize = 0;
    while i < wanted.len()
        invariant
            i <= wanted.len() <= chars.len(),
            chars@ == s@,
            wanted@ == prefix@,
            forall|j: int| 0 <= j < i ==> s@[j] == prefix@[j],
        decreases wanted.len() - i,
    {
        if chars[i] != wanted[i] {
            assert(s@.subrange(0, prefix@.len() as int)[i as int] != prefix@[i as int]);
            return None;
        }
        i = i + 1;
    }
    assert(prefix@ =~= s@.subrange(0, prefix@.len() as int));
    assert(s@.subrange(wanted.len() as int, chars.len() as int) =~= s@.skip(wanted.len() as int));
    Some(part_of(s, wanted.len(), chars.len()))
}

/// The pieces of `s` between the separators `sep`.
pub fn split_text(s: &str, sep: char) -> (parts: Vec<String>)
    ensures
        parts.deep_view() == split_on(s@, sep),
        parts@.len() > 0,
{
    let chars = chars_of(s);
    let mut parts: Vec<String> = Vec::new();
    let mut start: usize = 0;
    let mut i: usize = 0;
    assert(s@.take(0) =~= Seq::<char>::empty());
    assert(s@.subrange(0, 0) =~= Seq::<char>::empty());
    assert(parts.deep_view().push(s@.subrange(0, 0)) =~= split_on(s@.take(0), sep));
    while i < chars.len()
        invariant
            start <= i <= chars.len(),
            chars@ == s@,
            parts.deep_view().push(s@.subrange(start as int, i as int)) == split_on(
                s@.take(i as int),
                sep,
            ),
        decreases chars.len() - i,
    {
        let ghost before = parts.deep_view();
        let ghost piece = s@.subrange(start as int, i as int);
        assert(s@.take(i + 1).drop_last() =~= s@.take(i as int));
        assert(s@.take(i + 1).last() == s@[i as int]);
        assert(before.push(piece).drop_last() =~= before);
        if chars[i] == sep {
            parts.push(part_of(s, start, i));
            start = i + 1;
            assert(parts.deep_view() =~= before.push(piece));
            assert(s@.subrange(start as int, i + 1) =~= Seq::<char>::empty());
        } else {
            assert(s@.subrange(start as int, i + 1) =~= piece.push(s@[i as int]));
        }
        i = i + 1;
    }
    assert(s@.take(s@.len() as int) =~= s@);
    let ghost before = parts.deep_view();
    parts.push(part_of(s, start, chars.len()));
    assert(parts.deep_view() =~= before.push(s@.subrange(start as int, s@.len() as int)));
    parts
}

/// What stands before and after the first `sep` in `s`.
pub fn split_once_text(s: &str, sep: char) -> (halves: Option<(String, String)>)
    ensures
        halves.deep_view() == split_once(s@, sep),
{
    let chars = chars_of(s);
    let mut i: usize = 0;
    proof {
        s@.index_of_first_ensures(sep);
    }
    while i < chars.len()
        invariant
            i <= chars.len(),
            chars@ == s@,
            forall|j: int| 0 <= j < i ==> s@[j] != sep,
            match s@.index_of_first(sep) {
                Some(index) => {
                    &&& 0 <= index < s@.len()
                    &&& s@[index] == sep
                    &&& forall|j: int| 0 <= j < index < s@.len() ==> s@[j] != sep
                },
                None => !s@.contains(sep),
            },
        decreases chars.len() - i,
    {
        if chars[i] == sep {
            assert(s@.contains(sep));
            assert(s@.index_of_first(sep) == Some(i as int));
            assert(s@.subrange(0, i as int) =~= s@.take(i as int));
            assert(s@.subrange(i + 1, s@.len() as int) =~= s@.skip(i + 1));
            return Some((part_of(s, 0, i), part_of(s, i + 1, chars.len())));
        }
        i = i + 1;
    }
    None
}

/// Whether `needle` stands somewhere in `s`.
pub fn holds(s: &str, needle: &str) -> (found: bool)
    ensures
        found == holds_text(s@, needle@),
{
    let chars = chars_of(s);
    let wanted = chars_of(needle);
    if wanted.len() > chars.len() {
        return false;
    }
    let mut at: usize = 0;
    while at <= chars.len() - wanted.len()
        invariant
            chars@ == s@,
            wanted@ == needle@,
            wanted.len() <= chars.len(),
            at <= chars.len() - wanted.len() + 1,
            forall|i: int|
                0 <= i < at ==> #[trigger] s@.subrange(i, i + needle@.len()) != needle@,
        decreases chars.len() - wanted.len() + 1 - at,
    {
        let mut same: usize = 0;
        while same < wanted.len() && chars[at + same] == wanted[same]
            invariant
                chars@ == s@,
                wanted@ == needle@,
                at + wanted.len() <= chars.len(),
                same <= wanted.len(),
                forall|j: int| 0 <= j < same ==> #[trigger] s@[at + j] == needle@[j],
            decreases wanted.len() - same,
        {
            same = same + 1;
        }
        if same == wanted.len() {
            assert forall|j: int| 0 <= j < needle@.len() implies s@.subrange(
                at as int,
                at + needle@.len(),
            )[j] == needle@[j] by {
                assert(s@[at + j] == needle@[j]);
            }
            assert(s@.subrange(at as int, at + needle@.len()) =~= needle@);
            return true;
        }
        assert(s@.subrange(at as int, at + needle@.len())[same as int] != needle@[same as int]);
        if at == chars.len() - wanted.len() {
            return false;
        }
        at = at + 1;
    }
    false
}

fn line_without_carriage_return(line: &str) -> (kept: String)
    ensures
        kept@ == without_carriage_return(line@),
{
    let chars = chars_of(line);
    if chars.len() > 0 && chars[chars.len() - 1] == '\r' {
        assert(line@.subrange(0, line@.len() - 1) =~= line@.drop_last());
        part_of(line, 0, chars.len() - 1)
    } else {
        line.to_owned()
    }
}

/// The lines of `s`.
pub fn lines_of(s: &str) -> (lines: Vec<String>)
    ensures
        lines.deep_view() == text_lines(s@),
{
    let parts = split_text(s, '\n');
    let ghost strip = |line: Seq<char>| without_carriage_return(line);
    let last: usize = parts.len() - 1;
    let mut lines: Vec<String> = Vec::new();
    let mut i: usize = 0;
    while i < last
        invariant
            i <= last,
            last == parts.len() - 1,
            parts.deep_view() == split_on(s@, '\n'),
            strip == (|line: Seq<char>| without_carriage_return(line)),
            lines.deep_view() == split_on(s@, '\n').take(i as int).map_values(strip),
        decreases last - i,
    {
        let line = line_without_carriage_return(parts[i].as_str());
        assert(split_on(s@, '\n')[i as int] == parts@[i as int]@);
        let ghost before = lines.deep_view();
        lines.push(line);
        assert(lines.deep_view() =~= before.push(line@));
        assert(split_on(s@, '\n').take(i + 1).map_values(strip) =~= before.push(line@));
        i = i + 1;
    }
    assert(split_on(s@, '\n').take(last as int) =~= split_on(s@, '\n').drop_last());
    assert(split_on(s@, '\n').last() == parts@[last as int]@);
    if !parts[last].as_str().is_empty() {
        let ghost before = lines.deep_view();
        lines.push(parts[last].clone());
        assert(lines.deep_view() =~= before.push(parts@[last as int]@));
    }
    lines
}

fn digit_text(d: u32) -> (text: &'static str)
    requires
        d < 10,
    ensures
        text@ == seq![digit_char(d as int)],
{
    proof {
        reveal_strlit("0");
        reveal_strlit("1");
        reveal_strlit("2");
        reveal_strlit("3");
        reveal_strlit("4");
        reveal_strlit("5");
        reveal_strlit("6");
        reveal_strlit("7");
        reveal_strlit("8");
        reveal_strlit("9");
    }
    let text: &'static str = match d {
        0 => "0",
        1 => "1",
        2 => "2",
        3 => "3",
        4 => "4",
        5 => "5",
        6 => "6",
        7 => "7",
        8 => "8",
        _ => "9",
    };
    assert(text@ =~= seq![digit_char(d as int)]);
    text
}

/// `n` in decimal notation.
pub fn decimal_text(n: u32) -> (text: String)
    ensures
        text@ == decimal(n as nat),
    decreases n,
{
    if n < 10 {
        digit_text(n).to_owned()
    } else {
        let mut text = decimal_text(n / 10);
        text.append(digit_text(n % 10));
        assert(text@ =~= decimal(n as nat));
        text
    }
}

proof fn lemma_digits_value_grows(s: Seq<char>, k: int)
    requires
        0 <= k <= s.len(),
        all_digits(s),
    ensures
        digits_value(s.take(k)) <= digits_value(s),
    decreases s.len(),
{
    if k < s.len() {
        assert(s.drop_last().take(k) =~= s.take(k));
        assert(is_digit(s.last()));
        assert(all_digits(s.drop_last())) by {
            assert forall|i: int| 0 <= i < s.drop_last().len() implies is_digit(
                #[trigger] s.drop_last()[i],
            ) by {
                assert(is_digit(s[i]));
            }
        }
        lemma_digits_value_grows(s.drop_last(), k);
    } else {
        assert(s.take(k) =~= s);
    }
}

/// The number below `2^32` that `s` denotes.
pub fn parse_u32(s: &str) -> (value: Option<u32>)
    ensures
        value == u32_value(s@),
{
    let chars = chars_of(s);
    let start: usize = if chars.len() > 0 && chars[0] == '+' {
        1
    } else {
        0
    };
    let ghost digits = unsigned_digits(s@);
    assert(s@.skip(0) =~= s@);
    assert(digits == s@.skip(start as int));
    if start == chars.len() {
        return None;
    }
    let mut value: u64 = 0;
    let mut i: usize = start;
    assert(digits.take(0) =~= Seq::<char>::empty());
    while i < chars.len()
        invariant
            start <= i <= chars.len(),
            chars@ == s@,
            digits == unsigned_digits(s@),
            digits == s@.skip(start as int),
            digits.len() > 0,
            value == digits_value(digits.take(i - start)),
            value <= u32::MAX,
            forall|j: int| 0 <= j < i - start ==> is_digit(#[trigger] digits[j]),
        decreases chars.len() - i,
    {
        let c = chars[i];
        assert(c == digits[i - start]);
        if !('0' <= c && c <= '9') {
            assert(!all_digits(digits));
            return None;
        }
        value = value * 10 + (c as u64 - '0' as u64);
        assert(digits.take(i - start + 1).drop_last() =~= digits.take(i - start));
        assert(digits.take(i - start + 1).last() == c);
        if value > 0xffff_ffff {
            proof {
                if all_digits(digits) {
                    lemma_digits_value_grows(digits, i - start + 1);
                }
            }
            return None;
        }
        i = i + 1;
    }
    assert(digits.take(digits.len() as int) =~= digits);
    assert(all_digits(digits));
    Some(value as u32)
}

proof fn lemma_decimal_digits(n: nat)
    ensures
        all_digits(decimal(n)),
        decimal(n).len() > 0,
        digits_value(decimal(n)) == n,
    decreases n,
{
    if n < 10 {
        let s = decimal(n);
        assert(s.drop_last() =~= Seq::<char>::empty());
        assert(digits_value(s.drop_last()) == 0);
    } else {
        lemma_decimal_digits(n / 10);
        let s = decimal(n);
        assert(s.drop_last() =~= decimal(n / 10));
        assert forall|i: int| 0 <= i < s.len() implies is_digit(#[trigger] s[i]) by {
            if i < s.len() - 1 {
                assert(s[i] == decimal(n / 10)[i]);
            }
        }
    }
}

/// A number written in decimal notation reads back as itself.
pub proof fn law_decimal_reads_back(n: u32)
    ensures
        u32_value(decimal(n as nat)) == Some(n),
{
    lemma_decimal_digits(n as nat);
    assert(is_digit(decimal(n as nat)[0]));
}

/// Trimming takes away white space at the ends, all of it and nothing else.
pub proof fn law_trim_takes_the_space_at_the_ends(s: Seq<char>)
    ensures
        exists|i: int, j: int|
            #![trigger s.subrange(i, j)]
            {
                &&& 0 <= i <= j <= s.len()
                &&& trim(s) == s.subrange(i, j)
                &&& forall|k: int| 0 <= k < i || j <= k < s.len() ==> is_space(#[trigger] s[k])
                &&& i < j ==> !is_space(s[i]) && !is_space(s[j - 1])
            },
{
    let i = lemma_trim_start(s);
    let rest = s.skip(i);
    let n = lemma_trim_end(rest);
    let j = i + n;
    assert(rest.take(n) =~= s.subrange(i, j));
    assert forall|k: int| 0 <= k < i || j <= k < s.len() implies is_space(#[trigger] s[k]) by {
        if k >= j {
            assert(is_space(rest[k - i]));
        }
    }
    if i < j {
        assert(rest[0] == s[i]);
        assert(rest[n - 1] == s[j - 1]);
    }
}

proof fn lemma_trim_start(s: Seq<char>) -> (i: int)
    ensures
        0 <= i <= s.len(),
        trim_start(s) == s.skip(i),
        forall|k: int| 0 <= k < i ==> is_space(#[trigger] s[k]),
        i < s.len() ==> !is_space(s[i]),
    decreases s.len(),
{
    if s.len() > 0 && is_space(s[0]) {
        let rest = s.skip(1);
        let i = lemma_trim_start(rest);
        assert(rest.skip(i) =~= s.skip(i + 1));
        assert forall|k: int| 0 <= k < i + 1 implies is_space(#[trigger] s[k]) by {
            if k > 0 {
                assert(is_space(rest[k - 1]));
            }
        }
        if i + 1 < s.len() {
            assert(rest[i] == s[i + 1]);
        }
        i + 1
    } else {
        assert(s.skip(0) =~= s);
        0
    }
}

proof fn lemma_trim_end(s: Seq<char>) -> (n: int)
    ensures
        0 <= n <= s.len(),
        trim_end(s) == s.take(n),
        forall|k: int| n <= k < s.len() ==> is_space(#[trigger] s[k]),
        n > 0 ==> !is_space(s[n - 1]),
    decreases s.len(),
{
    if s.len() > 0 && is_space(s.last()) {
        let front = s.drop_last();
        let n = lemma_trim_end(front);
        assert(front.take(n) =~= s.take(n));
        assert forall|k: int| n <= k < s.len() implies is_space(#[trigger] s[k]) by {
            if k < front.len() {
                assert(is_space(front[k]));
            }
        }
        if n > 0 {
            assert(front[n - 1] == s[n - 1]);
        }
        n
    } else {
        assert(s.take(s.len() as int) =~= s);
        s.len() as int
    }
}

/// A number with white space around it, as a program prints it, is trimmed to the
/// number.
pub proof fn law_trim_leaves_the_middle(left: Seq<char>, middle: Seq<char>, right: Seq<char>)
    requires
        forall|k: int| 0 <= k < left.len() ==> is_space(#[trigger] left[k]),
        forall|k: int| 0 <= k < right.len() ==> is_space(#[trigger] right[k]),
        middle.len() > 0,
        !is_space(middle[0]),
        !is_space(middle.last()),
    ensures
        trim(left + middle + right) == middle,
{
    let s = left + middle + right;
    law_trim_takes_the_space_at_the_ends(s);
    let (i, j) = choose|i: int, j: int|
        #![trigger s.subrange(i, j)]
        {
            &&& 0 <= i <= j <= s.len()
            &&& trim(s) == s.subrange(i, j)
            &&& forall|k: int| 0 <= k < i || j <= k < s.len() ==> is_space(#[trigger] s[k])
            &&& i < j ==> !is_space(s[i]) && !is_space(s[j - 1])
        };
    let a = left.len() as int;
    let b = a + middle.len();
    assert(s[a] == middle[0]);
    assert(s[b - 1] == middle.last());
    assert(!is_space(s[a]) && !is_space(s[b - 1]));
    assert(i <= a && b <= j);
    if i < a {
        assert(s[i] == left[i]);
    }
    if j > b {
        assert(s[j - 1] == right[j - 1 - b]);
    }
    assert(s.subrange(a, b) =~= middle);
}

/// A text begins with a prefix exactly if it is the prefix and a rest, and the rest
/// is what is left without the prefix.
pub proof fn law_stripped_prefix_goes_back(s: Seq<char>, prefix: Seq<char>, rest: Seq<char>)
    ensures
        strip_prefix(s, prefix) == Some(rest) <==> s == prefix + rest,
{
    if strip_prefix(s, prefix) == Some(rest) {
        assert(s =~= prefix + s.skip(prefix.len() as int));
    }
    if s == prefix + rest {
        assert(prefix =~= s.subrange(0, prefix.len() as int));
        assert(s.skip(prefix.len() as int) =~= rest);
    }
}

/// A text without the separator is its only piece.
pub proof fn law_unseparated_text_is_one_piece(s: Seq<char>, sep: char)
    requires
        !s.contains(sep),
    ensures
        split_on(s, sep) == seq![s],
    decreases s.len(),
{
    if s.len() > 0 {
        let front = s.drop_last();
        assert(!front.contains(sep)) by {
            assert forall|i: int| 0 <= i < front.len() implies front[i] != sep by {
                assert(s[i] == front[i]);
            }
        }
        law_unseparated_text_is_one_piece(front, sep);
        assert(s.last() == s[s.len() - 1]);
        assert(front.push(s.last()) =~= s);
        assert(split_on(s, sep) =~= seq![s]);
    } else {
        assert(s =~= Seq::<char>::empty());
    }
}

/// No piece holds the separator.
pub proof fn law_pieces_hold_no_separator(s: Seq<char>, sep: char)
    ensures
        forall|i: int|
            0 <= i < split_on(s, sep).len() ==> !(#[trigger] split_on(s, sep)[i]).contains(sep),
    decreases s.len(),
{
    if s.len() > 0 {
        let front = s.drop_last();
        law_pieces_hold_no_separator(front, sep);
        lemma_split_on_nonempty(front, sep);
        let before = split_on(front, sep);
        let after = split_on(s, sep);
        assert forall|i: int| 0 <= i < after.len() implies !(#[trigger] after[i]).contains(sep) by {
            if s.last() == sep {
                if i < before.len() {
                    assert(after[i] == before[i]);
                }
            } else if i < before.len() - 1 {
                assert(after[i] == before[i]);
            } else {
                let grown = before.last().push(s.last());
                assert(after[i] == grown);
                assert(!before[before.len() - 1].contains(sep));
                if grown.contains(sep) {
                    let k = choose|k: int| 0 <= k < grown.len() && grown[k] == sep;
                    if k < before.last().len() {
                        assert(before.last()[k] == sep);
                    }
                }
            }
        }
    }
}

/// A text is split once at its first separator: into what stands before it and what
/// stands after it. It is not split exactly if it holds no separator.
pub proof fn law_split_at_the_first(s: Seq<char>, sep: char, before: Seq<char>, after: Seq<char>)
    ensures
        split_once(s, sep) == Some((before, after)) <==> s == before.push(sep) + after
            && !before.contains(sep),
        split_once(s, sep) is None <==> !s.contains(sep),
{
    s.index_of_first_ensures(sep);
    if let Some((a, b)) = split_once(s, sep) {
        let i = s.index_of_first(sep)->0;
        assert(s =~= s.take(i).push(sep) + s.skip(i + 1));
        assert forall|k: int| 0 <= k < s.take(i).len() implies s.take(i)[k] != sep by {
            assert(s.take(i)[k] == s[k]);
        }
        assert(!s.take(i).contains(sep));
        assert(s[i] == sep);
    }
    if s == before.push(sep) + after && !before.contains(sep) {
        let n = before.len() as int;
        assert(s[n] == sep);
        assert(s.contains(sep));
        let i = s.index_of_first(sep)->0;
        if i < n {
            assert(before[i] == s[i]);
        }
        assert(i == n);
        assert(s.take(n) =~= before);
        assert(s.skip(n + 1) =~= after);
    }
}

/// A text holds another exactly if that stands between something before it and
/// something after it.
pub proof fn law_held_text_stands_in_between(s: Seq<char>, needle: Seq<char>)
    ensures
        holds_text(s, needle) <==> exists|before: Seq<char>, after: Seq<char>|
            s == #[trigger] (before + needle + after),
{
    if holds_text(s, needle) {
        let i = choose|i: int|
            0 <= i <= s.len() - needle.len() && #[trigger] s.subrange(i, i + needle.len())
                == needle;
        let before = s.take(i);
        let after = s.skip(i + needle.len());
        assert(s =~= before + s.subrange(i, i + needle.len()) + after);
        assert(s == before + needle + after);
    }
    if exists|before: Seq<char>, after: Seq<char>| s == #[trigger] (before + needle + after) {
        let (before, after) = choose|before: Seq<char>, after: Seq<char>|
            s == #[trigger] (before + needle + after);
        let i = before.len() as int;
        assert(s.subrange(i, i + needle.len()) =~= needle);
    }
}

/// The lines of a text, one by one: a line that is ended comes first, without its
/// ending; what has no ending is the last line; and nothing has no lines.
pub proof fn law_lines_one_by_one(line: Seq<char>, rest: Seq<char>)
    requires
        !line.contains('\n'),
    ensures
        text_lines(Seq::empty()) == Seq::<Seq<char>>::empty(),
        line.len() > 0 ==> text_lines(line) == seq![line],
        line.len() == 0 || line.last() != '\r' ==> text_lines(line.push('\n') + rest) == seq![line]
            + text_lines(rest),
        text_lines(line.push('\r').push('\n') + rest) == seq![line] + text_lines(rest),
{
    let strip = |part: Seq<char>| without_carriage_return(part);
    let none = Seq::<char>::empty();
    assert(split_on(none, '\n') =~= seq![none]);
    assert(text_lines(none) =~= Seq::<Seq<char>>::empty());
    law_unseparated_text_is_one_piece(line, '\n');
    if line.len() > 0 {
        assert(text_lines(line) =~= seq![line]);
    }
    let returned = line.push('\r');
    assert forall|k: int| 0 <= k < returned.len() implies returned[k] != '\n' by {
        if k < line.len() {
            assert(line[k] == returned[k]);
        }
    }
    assert(!returned.contains('\n'));
    law_unseparated_text_is_one_piece(returned, '\n');
    lemma_split_on_nonempty(rest, '\n');
    let parts = split_on(rest, '\n');
    law_split_joined(line, rest, '\n');
    assert((seq![line] + parts).drop_last() =~= seq![line] + parts.drop_last());
    assert((seq![line] + parts.drop_last()).map_values(strip) =~= seq![
        without_carriage_return(line),
    ] + parts.drop_last().map_values(strip));
    assert((seq![line] + parts).last() == parts.last());
    law_split_joined(returned, rest, '\n');
    assert((seq![returned] + parts).drop_last() =~= seq![returned] + parts.drop_last());
    assert((seq![returned] + parts.drop_last()).map_values(strip) =~= seq![
        without_carriage_return(returned),
    ] + parts.drop_last().map_values(strip));
    assert((seq![returned] + parts).last() == parts.last());
    assert(returned.drop_last() =~= line);
    if line.len() == 0 || line.last() != '\r' {
        assert(text_lines(line.push('\n') + rest) =~= seq![line] + text_lines(rest));
    }
    assert(text_lines(returned.push('\n') + rest) =~= seq![line] + text_lines(rest));
}

/// The number that a text denotes, digit by digit: each digit further is worth ten
/// times the number before and the digit, up to the largest number that fits.
pub proof fn law_number_digit_by_digit(digits: Seq<char>, digit: char)
    requires
        forall|i: int| 0 <= i < digits.len() ==> '0' <= (#[trigger] digits[i]) <= '9',
        '0' <= digit <= '9',
    ensures
        u32_value(seq![digit]) == Some((digit as int - '0' as int) as u32),
        digits.len() > 0 ==> u32_value(digits.push(digit)) == (match u32_value(digits) {
            Some(n) => if n * 10 + (digit as int - '0' as int) <= 0xffff_ffff {
                Some((n * 10 + (digit as int - '0' as int)) as u32)
            } else {
                None
            },
            None => None,
        }),
        digits.len() > 0 ==> u32_value(seq!['+'] + digits) == u32_value(digits),
{
    let one = seq![digit];
    assert(one.drop_last() =~= Seq::<char>::empty());
    assert(digits_value(one.drop_last()) == 0);
    assert(all_digits(one));
    assert(unsigned_digits(one) == one);
    if digits.len() > 0 {
        let more = digits.push(digit);
        assert(more.drop_last() =~= digits);
        assert(is_digit(digits[0]));
        assert(all_digits(digits)) by {
            assert forall|i: int| 0 <= i < digits.len() implies is_digit(#[trigger] digits[i]) by {
            }
        }
        assert forall|i: int| 0 <= i < more.len() implies is_digit(#[trigger] more[i]) by {
            if i < digits.len() {
                assert(more[i] == digits[i]);
            }
        }
        assert(more[0] == digits[0]);
        let signed = seq!['+'] + digits;
        assert(signed.skip(1) =~= digits);
        assert(signed[0] == '+');
    }
}

/// A text with anything but a sign in front and digits denotes no number, and
/// neither does one without digits.
pub proof fn law_other_texts_are_no_numbers(s: Seq<char>)
    ensures
        u32_value(Seq::empty()) is None,
        u32_value(seq!['+']) is None,
        (exists|i: int| 0 <= i < s.len() && !('0' <= #[trigger] s[i] <= '9') && (i > 0 || s[i]
            != '+')) ==> u32_value(s) is None,
{
    assert(seq!['+'].skip(1) =~= Seq::<char>::empty());
    if exists|i: int| 0 <= i < s.len() && !('0' <= #[trigger] s[i] <= '9') && (i > 0 || s[i] != '+') {
        let i = choose|i: int|
            0 <= i < s.len() && !('0' <= #[trigger] s[i] <= '9') && (i > 0 || s[i] != '+');
        let digits = unsigned_digits(s);
        if s[0] == '+' {
            assert(digits[i - 1] == s[i]);
        } else {
            assert(digits[i] == s[i]);
        }
        assert(!all_digits(digits));
    }
}

/// A number is written with digits alone, at least one, and without a zero in front
/// unless it is zero.
pub proof fn law_decimal_is_made_of_digits(n: nat)
    ensures
        decimal(n).len() > 0,
        forall|i: int| 0 <= i < decimal(n).len() ==> '0' <= (#[trigger] decimal(n)[i]) <= '9',
        n > 0 ==> decimal(n)[0] != '0',
    decreases n,
{
    lemma_decimal_digits(n);
    assert forall|i: int| 0 <= i < decimal(n).len() implies '0' <= (#[trigger] decimal(n)[i])
        <= '9' by {
        assert(is_digit(decimal(n)[i]));
    }
    if n >= 10 {
        law_decimal_is_made_of_digits(n / 10);
        assert(decimal(n)[0] == decimal(n / 10)[0]);
    }
}

/// White space is what Unicode calls white space: the blanks of one line, the ends of
/// lines and pages, and the wide, narrow and unbreakable spaces.
pub proof fn law_white_space(c: char)
    ensures
        is_space(c) <==> {
            ||| c == ' ' || c == '\t' || c == '\n' || c == '\r' || c == '\u{b}' || c == '\u{c}'
            ||| c == '\u{85}' || c == '\u{2028}' || c == '\u{2029}'
            ||| c == '\u{a0}' || c == '\u{1680}' || c == '\u{202f}' || c == '\u{205f}'
            ||| c == '\u{3000}'
            ||| '\u{2000}' <= c <= '\u{200a}'
        },
{
}

} // verus!
