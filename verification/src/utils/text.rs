use vstd::prelude::*;

verus! {

/// `String::push` appends one character to the end of the string.
pub assume_specification[ String::push ](s: &mut String, c: char)
    ensures
        final(s)@ == old(s)@.push(c),
;

/// The character contents of each string of `v`, in order.
pub open spec fn texts(v: Seq<String>) -> Seq<Seq<char>> {
    Seq::new(v.len(), |i: int| v[i]@)
}

/// The contents of each vector of `v`, in order.
pub open spec fn pieces(v: Seq<Vec<char>>) -> Seq<Seq<char>> {
    Seq::new(v.len(), |i: int| v[i]@)
}

/// The pieces into which the separator `sep` cuts `s`, read from left to
/// right: each occurrence of `sep` closes one piece and opens the next, so
/// a text with `n` separators has `n + 1` pieces, empty ones among them.
pub open spec fn split(s: Seq<char>, sep: char) -> Seq<Seq<char>>
    decreases s.len(),
{
    if s.len() == 0 {
        seq![Seq::empty()]
    } else {
        let before = split(s.drop_last(), sep);
        if s.last() == sep {
            before.push(Seq::empty())
        } else {
            before.drop_last().push(before.last().push(s.last()))
        }
    }
}

/// The decimal digit for `d`.
pub open spec fn digit(d: nat) -> char {
    ((48 + d) as u8) as char
}

/// `n` in decimal, without leading zeros.
pub open spec fn decimal(n: nat) -> Seq<char>
    decreases n,
{
    if n < 10 {
        seq![digit(n)]
    } else {
        decimal(n / 10).push(digit(n % 10))
    }
}

/// `n` in decimal, at least two digits wide, filled with a zero.
pub open spec fn two_digits(n: nat) -> Seq<char> {
    if n < 10 {
        seq!['0'] + decimal(n)
    } else {
        decimal(n)
    }
}

/// `v` in decimal, with a minus sign where it is negative.
pub open spec fn signed_decimal(v: int) -> Seq<char> {
    if v < 0 {
        seq!['-'] + decimal((-v) as nat)
    } else {
        decimal(v as nat)
    }
}

/// Whether `c` is a decimal digit.
pub open spec fn is_digit(c: char) -> bool {
    '0' <= c <= '9'
}

/// Whether `s` holds decimal digits and nothing else.
pub open spec fn all_digits(s: Seq<char>) -> bool {
    forall|i: int| 0 <= i < s.len() ==> is_digit(#[trigger] s[i])
}

/// The number that the decimal digits `s` spell.
pub open spec fn digits_value(s: Seq<char>) -> nat
    decreases s.len(),
{
    if s.len() == 0 {
        0
    } else {
        digits_value(s.drop_last()) * 10 + (s.last() as u32 - '0' as u32) as nat
    }
}

/// The 32-bit integer that `s` spells: an optional sign, then one or more
/// decimal digits and nothing else. `None` where `s` has another shape or
/// the number does not fit.
pub open spec fn parse_i32(s: Seq<char>) -> Option<int> {
    let signed = s.len() > 0 && (s[0] == '-' || s[0] == '+');
    let digits = if signed { s.drop_first() } else { s };
    let value = if signed && s[0] == '-' { -(digits_value(digits) as int) } else { digits_value(digits) as int };
    if digits.len() > 0 && all_digits(digits) && i32::MIN <= value <= i32::MAX {
        Some(value)
    } else {
        None
    }
}

/// An owned copy of every string of `v`.
pub fn clone_strings(v: &Vec<String>) -> (copy: Vec<String>)
    ensures
        texts(copy@) == texts(v@),
{
    let mut copy: Vec<String> = Vec::new();
    let mut i: usize = 0;
    while i < v.len()
        invariant
            i <= v.len(),
            copy.len() == i,
            forall|j: int| 0 <= j < i ==> copy[j]@ == v[j]@,
        decreases v.len() - i,
    {
        copy.push(v[i].clone());
        i += 1;
    }
    assert(texts(copy@) =~= texts(v@));
    copy
}

/// The characters of `s`.
pub fn chars_of(s: &str) -> (chars: Vec<char>)
    ensures
        chars@ == s@,
{
    let mut chars: Vec<char> = Vec::new();
    for c in it: s.chars()
        invariant
            chars@ == it.seq().take(it.index()),
            it.seq() == s@,
    {
        chars.push(c);
    }
    chars
}

/// The string that spells `chars`.
pub fn string_of(chars: &Vec<char>) -> (s: String)
    ensures
        s@ == chars@,
{
    let mut s = String::new();
    let mut i: usize = 0;
    while i < chars.len()
        invariant
            i <= chars.len(),
            s@ == chars@.take(i as int),
        decreases chars.len() - i,
    {
        s.push(chars[i]);
        assert(chars@.take(i + 1) =~= chars@.take(i as int).push(chars[i as int]));
        i += 1;
    }
    assert(chars@.take(i as int) =~= chars@);
    s
}

/// Appends the characters of `tail` to `s`.
pub fn push_chars(s: &mut String, tail: &Vec<char>)
    ensures
        final(s)@ == old(s)@ + tail@,
{
    let mut i: usize = 0;
    while i < tail.len()
        invariant
            i <= tail.len(),
            s@ == old(s)@ + tail@.take(i as int),
        decreases tail.len() - i,
    {
        s.push(tail[i]);
        assert(tail@.take(i + 1) =~= tail@.take(i as int).push(tail[i as int]));
        i += 1;
    }
    assert(tail@.take(i as int) =~= tail@);
}

/// Cuts `chars` at every occurrence of `sep`.
pub fn split_chars(chars: &Vec<char>, sep: char) -> (cut: Vec<Vec<char>>)
    ensures
        pieces(cut@) == split(chars@, sep),
        cut.len() >= 1,
{
    let mut cut: Vec<Vec<char>> = Vec::new();
    let mut current: Vec<char> = Vec::new();
    let mut i: usize = 0;
    assert(chars@.take(0) =~= Seq::<char>::empty());
    assert(pieces(cut@).push(current@) =~= split(chars@.take(0), sep));
    while i < chars.len()
        invariant
            i <= chars.len(),
            pieces(cut@).push(current@) == split(chars@.take(i as int), sep),
        decreases chars.len() - i,
    {
        let ghost closed = pieces(cut@);
        let ghost open = current@;
        let ghost next = chars@.take(i + 1);
        assert(next.drop_last() =~= chars@.take(i as int));
        assert(next.last() == chars[i as int]);
        assert(closed.push(open).drop_last() =~= closed);
        if chars[i] == sep {
            cut.push(current);
            current = Vec::new();
            assert(pieces(cut@) =~= closed.push(open));
        } else {
            current.push(chars[i]);
        }
        i += 1;
    }
    assert(chars@.take(i as int) =~= chars@);
    let ghost closed = pieces(cut@);
    cut.push(current);
    assert(pieces(cut@) =~= closed.push(current@));
    cut
}

/// Whether `a` and `b` hold the same characters.
pub fn same_chars(a: &Vec<char>, b: &Vec<char>) -> (same: bool)
    ensures
        same == (a@ == b@),
{
    if a.len() != b.len() {
        return false;
    }
    let mut i: usize = 0;
    while i < a.len()
        invariant
            i <= a.len(),
            a.len() == b.len(),
            forall|j: int| 0 <= j < i ==> a[j] == b[j],
        decreases a.len() - i,
    {
        if a[i] != b[i] {
            return false;
        }
        i += 1;
    }
    assert(a@ =~= b@);
    true
}

/// Appends the characters of `tail` to `s`.
pub fn push_text(s: &mut String, tail: &str)
    ensures
        final(s)@ == old(s)@ + tail@,
{
    let chars = chars_of(tail);
    push_chars(s, &chars);
}

/// The character for the decimal digit `d`.
fn digit_char(d: u8) -> (c: char)
    requires
        d < 10,
    ensures
        c == digit(d as nat),
        is_digit(c),
{
    (48u8 + d) as char
}

/// Appends `n` in decimal to `out`.
pub fn push_decimal(out: &mut String, n: u64)
    ensures
        final(out)@ == old(out)@ + decimal(n as nat),
    decreases n,
{
    if n >= 10 {
        push_decimal(out, n / 10);
    }
    out.push(digit_char((n % 10) as u8));
    assert(out@ =~= old(out)@ + decimal(n as nat));
}

/// Appends `n` in decimal, at least two digits wide, to `out`.
pub fn push_two_digits(out: &mut String, n: u64)
    ensures
        final(out)@ == old(out)@ + two_digits(n as nat),
{
    if n < 10 {
        out.push('0');
    }
    push_decimal(out, n);
    assert(out@ =~= old(out)@ + two_digits(n as nat));
}

/// Appends `v` in decimal to `out`, with a minus sign where it is negative.
pub fn push_signed_decimal(out: &mut String, v: i32)
    ensures
        final(out)@ == old(out)@ + signed_decimal(v as int),
{
    if v < 0 {
        out.push('-');
        let magnitude: u64 = (-(v as i64)) as u64;
        push_decimal(out, magnitude);
    } else {
        push_decimal(out, v as u64);
    }
    assert(out@ =~= old(out)@ + signed_decimal(v as int));
}

/// Reads `chars` as a 32-bit integer in decimal.
pub fn parse_i32_chars(chars: &Vec<char>) -> (value: Option<i32>)
    ensures
        value is Some <==> parse_i32(chars@) is Some,
        value is Some ==> value->0 == parse_i32(chars@)->0,
{
    let count = chars.len();
    let signed = count > 0 && (chars[0] == '-' || chars[0] == '+');
    let negative = signed && chars[0] == '-';
    let first: usize = if signed { 1 } else { 0 };
    let ghost digits = if signed { chars@.drop_first() } else { chars@ };
    if first >= count {
        return None;
    }
    let mut total: u64 = 0;
    let mut fits = true;
    let mut i: usize = first;
    assert(digits.take(0) =~= Seq::<char>::empty());
    while i < count
        invariant
            first <= i <= count,
            count == chars.len(),
            first == if signed { 1usize } else { 0usize },
            signed == (count > 0 && (chars[0] == '-' || chars[0] == '+')),
            digits == if signed { chars@.drop_first() } else { chars@ },
            forall|j: int| 0 <= j < i - first ==> is_digit(#[trigger] digits[j]),
            fits ==> total == digits_value(digits.take(i - first)) && total <= 2147483648,
            !fits ==> digits_value(digits.take(i - first)) > 2147483648,
        decreases count - i,
    {
        let c = chars[i];
        assert(digits[i - first] == c);
        if !(c >= '0' && c <= '9') {
            assert(!is_digit(digits[i - first]));
            return None;
        }
        let ghost shorter = digits.take(i - first);
        let ghost longer = digits.take(i - first + 1);
        assert(longer.drop_last() =~= shorter);
        assert(longer.last() == c);
        if fits {
            let d: u64 = (c as u32 - '0' as u32) as u64;
            total = total * 10 + d;
            if total > 2147483648 {
                fits = false;
            }
        }
        i += 1;
    }
    assert(digits.take(i - first) =~= digits);
    if !fits {
        return None;
    }
    if negative {
        Some((-(total as i64)) as i32)
    } else if total <= 2147483647 {
        Some(total as i32)
    } else {
        None
    }
}

} // verus!
