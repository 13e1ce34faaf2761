//! Text as sequences of characters: trimming, decimal numerals and the few
//! character classes the rest of the library asks about.

use vstd::prelude::*;

verus! {

/// `String::push` appends one character to the end of the string.
pub assume_specification[ String::push ](s: &mut String, ch: char)
    ensures
        final(s)@ == old(s)@.push(ch),
;

/// A character with Unicode's `White_Space` property.
pub open spec fn whitespace(c: char) -> bool {
    ||| '\u{9}' <= c <= '\u{d}'
    ||| c == '\u{20}'
    ||| c == '\u{85}'
    ||| c == '\u{a0}'
    ||| c == '\u{1680}'
    ||| '\u{2000}' <= c <= '\u{200a}'
    ||| c == '\u{2028}'
    ||| c == '\u{2029}'
    ||| c == '\u{202f}'
    ||| c == '\u{205f}'
    ||| c == '\u{3000}'
}

/// A character in Unicode's control category.
pub open spec fn control(c: char) -> bool {
    c <= '\u{1f}' || '\u{7f}' <= c <= '\u{9f}'
}

pub open spec fn ascii_digit(c: char) -> bool {
    '0' <= c <= '9'
}

pub open spec fn ascii_alphanumeric(c: char) -> bool {
    ascii_digit(c) || 'a' <= c <= 'z' || 'A' <= c <= 'Z'
}

/// `s` without the whitespace it starts with.
pub open spec fn trimmed_start(s: Seq<char>) -> Seq<char>
    decreases s.len(),
{
    if s.len() > 0 && whitespace(s[0]) {
        trimmed_start(s.drop_first())
    } else {
        s
    }
}

/// `s` without the whitespace it ends with.
pub open spec fn trimmed_end(s: Seq<char>) -> Seq<char>
    decreases s.len(),
{
    if s.len() > 0 && whitespace(s.last()) {
        trimmed_end(s.drop_last())
    } else {
        s
    }
}

/// `s` without whitespace at either end.
pub open spec fn trimmed(s: Seq<char>) -> Seq<char> {
    trimmed_end(trimmed_start(s))
}

/// The character for one decimal digit.
pub open spec fn digit(n: nat) -> char {
    (48 + n) as char
}

/// The decimal numeral of `n`, without leading zeros.
pub open spec fn decimal(n: nat) -> Seq<char>
    decreases n,
{
    if n < 10 {
        seq![digit(n)]
    } else {
        decimal(n / 10).push(digit(n % 10))
    }
}

/// The decimal numeral of `n`, padded with a zero to two digits.
pub open spec fn decimal2(n: nat) -> Seq<char> {
    if n < 10 {
        seq!['0'] + decimal(n)
    } else {
        decimal(n)
    }
}

/// The decimal numeral of `n`, with a sign where it is negative.
pub open spec fn signed(n: int) -> Seq<char> {
    if n < 0 {
        "-"@ + decimal((-n) as nat)
    } else {
        decimal(n as nat)
    }
}

/// `text` names a numeral: at least one character, and digits only.
pub open spec fn numeric(text: Seq<char>) -> bool {
    text.len() > 0 && forall|i: int| 0 <= i < text.len() ==> ascii_digit(#[trigger] text[i])
}

pub fn is_whitespace(c: char) -> (r: bool)
    ensures
        r == whitespace(c),
{
    ('\u{9}' <= c && c <= '\u{d}') || c == '\u{20}' || c == '\u{85}' || c == '\u{a0}' || c
        == '\u{1680}' || ('\u{2000}' <= c && c <= '\u{200a}') || c == '\u{2028}' || c == '\u{2029}'
        || c == '\u{202f}' || c == '\u{205f}' || c == '\u{3000}'
}

pub fn is_control(c: char) -> (r: bool)
    ensures
        r == control(c),
{
    c <= '\u{1f}' || ('\u{7f}' <= c && c <= '\u{9f}')
}

pub fn is_ascii_digit(c: char) -> (r: bool)
    ensures
        r == ascii_digit(c),
{
    '0' <= c && c <= '9'
}

pub fn is_ascii_alphanumeric(c: char) -> (r: bool)
    ensures
        r == ascii_alphanumeric(c),
{
    is_ascii_digit(c) || ('a' <= c && c <= 'z') || ('A' <= c && c <= 'Z')
}

/// The characters of `s`, in order.
pub fn chars_of(s: &str) -> (v: Vec<char>)
    ensures
        v@ == s@,
{
    let mut v: Vec<char> = Vec::new();
    for c in iter: s.chars()
        invariant
            v@ == iter.seq().take(iter.index()),
            iter.seq() == s@,
    {
        v.push(c);
    }
    v
}

/// The string made of `chars[from..to]`.
pub fn text_of(chars: &Vec<char>, from: usize, to: usize) -> (s: String)
    requires
        from <= to <= chars@.len(),
    ensures
        s@ == chars@.subrange(from as int, to as int),
{
    let mut s = String::new();
    let mut i: usize = from;
    while i < to
        invariant
            from <= i <= to <= chars@.len(),
            s@ == chars@.subrange(from as int, i as int),
        decreases to - i,
    {
        s.push(chars[i]);
        i += 1;
    }
    s
}

/// Whether two texts hold the same characters.
pub fn same_text(a: &str, b: &str) -> (r: bool)
    ensures
        r == (a@ == b@),
{
    let va: Vec<char> = chars_of(a);
    let vb: Vec<char> = chars_of(b);
    if va.len() != vb.len() {
        return false;
    }
    let mut i: usize = 0;
    while i < va.len()
        invariant
            i <= va@.len(),
            va@ == a@,
            vb@ == b@,
            va@.len() == vb@.len(),
            va@.take(i as int) == vb@.take(i as int),
        decreases va@.len() - i,
    {
        if va[i] != vb[i] {
            assert(a@[i as int] != b@[i as int]);
            return false;
        }
        i += 1;
    }
    assert(va@.take(i as int) == va@);
    assert(vb@.take(i as int) == vb@);
    true
}

proof fn lemma_trimmed_start_skips(s: Seq<char>, n: int)
    requires
        0 <= n <= s.len(),
        forall|i: int| 0 <= i < n ==> whitespace(#[trigger] s[i]),
        n == s.len() || !whitespace(s[n]),
    ensures
        trimmed_start(s) == s.skip(n),
    decreases n,
{
    if n > 0 {
        let t = s.drop_first();
        assert(forall|i: int| 0 <= i < t.len() ==> t[i] == s[i + 1]);
        lemma_trimmed_start_skips(t, n - 1);
        assert(t.skip(n - 1) == s.skip(n));
    } else {
        assert(s.skip(0) == s);
    }
}

proof fn lemma_trimmed_end_takes(s: Seq<char>, n: int)
    requires
        0 <= n <= s.len(),
        forall|i: int| n <= i < s.len() ==> whitespace(#[trigger] s[i]),
        n == 0 || !whitespace(s[n - 1]),
    ensures
        trimmed_end(s) == s.take(n),
    decreases s.len() - n,
{
    if n < s.len() {
        let t = s.drop_last();
        lemma_trimmed_end_takes(t, n);
        assert(t.take(n) == s.take(n));
    } else {
        assert(s.take(n) == s);
    }
}

/// The bounds of the trimmed text inside `v`.
fn trim_bounds(v: &Vec<char>) -> (r: (usize, usize))
    ensures
        r.0 <= r.1 <= v@.len(),
        v@.subrange(r.0 as int, r.1 as int) == trimmed(v@),
{
    let mut from: usize = 0;
    while from < v.len() && is_whitespace(v[from])
        invariant
            from <= v@.len(),
            forall|i: int| 0 <= i < from ==> whitespace(#[trigger] v@[i]),
        decreases v@.len() - from,
    {
        from += 1;
    }
    let mut to: usize = v.len();
    while to > from && is_whitespace(v[to - 1])
        invariant
            from <= to <= v@.len(),
            forall|i: int| to <= i < v@.len() ==> whitespace(#[trigger] v@[i]),
        decreases to,
    {
        to -= 1;
    }
    proof {
        lemma_trimmed_start_skips(v@, from as int);
        let t = v@.skip(from as int);
        assert(forall|i: int| 0 <= i < t.len() ==> t[i] == v@[i + from]);
        lemma_trimmed_end_takes(t, to - from);
        assert(t.take(to - from) == v@.subrange(from as int, to as int));
    }
    (from, to)
}

/// `s` without whitespace at either end.
pub fn trim(s: &str) -> (r: String)
    ensures
        r@ == trimmed(s@),
{
    let v: Vec<char> = chars_of(s);
    let (from, to) = trim_bounds(&v);
    text_of(&v, from, to)
}

/// The first `n` characters of `s`, or all of it where it is shorter.
pub fn truncated(s: &str, n: usize) -> (r: String)
    ensures
        r@ == (if s@.len() <= n { s@ } else { s@.take(n as int) }),
{
    let v: Vec<char> = chars_of(s);
    let to: usize = if v.len() < n { v.len() } else { n };
    let r = text_of(&v, 0, to);
    proof {
        assert(v@.subrange(0, to as int) == v@.take(to as int));
        assert(v@.take(v@.len() as int) == v@);
    }
    r
}

/// The character for one decimal digit.
fn digit_char(n: u8) -> (c: char)
    requires
        n < 10,
    ensures
        c == digit(n as nat),
{
    (48 + n) as char
}

/// The decimal numeral of `n`.
pub fn decimal_text(n: u64) -> (s: String)
    ensures
        s@ == decimal(n as nat),
    decreases n,
{
    if n < 10 {
        let mut s = String::new();
        s.push(digit_char(n as u8));
        assert(s@ == seq![digit(n as nat)]);
        s
    } else {
        let mut s = decimal_text(n / 10);
        s.push(digit_char((n % 10) as u8));
        s
    }
}

/// The decimal numeral of `n`, padded with a zero to two digits.
pub fn decimal2_text(n: u64) -> (s: String)
    ensures
        s@ == decimal2(n as nat),
{
    if n < 10 {
        let mut s = String::new();
        s.push('0');
        s.append(decimal_text(n).as_str());
        assert(s@ == decimal2(n as nat));
        s
    } else {
        decimal_text(n)
    }
}

/// The decimal numeral of `n`, with a sign where it is negative.
pub fn signed_text(n: i64) -> (s: String)
    ensures
        s@ == signed(n as int),
{
    if n >= 0 {
        decimal_text(n as u64)
    } else {
        let magnitude: u64 = (-(n as i128)) as u64;
        joined("-", decimal_text(magnitude).as_str())
    }
}

/// Whether `text` is a numeral.
pub fn is_numeric(text: &str) -> (r: bool)
    ensures
        r == numeric(text@),
{
    let v: Vec<char> = chars_of(text);
    let mut i: usize = 0;
    while i < v.len()
        invariant
            i <= v@.len(),
            v@ == text@,
            forall|j: int| 0 <= j < i ==> ascii_digit(#[trigger] v@[j]),
        decreases v@.len() - i,
    {
        if !is_ascii_digit(v[i]) {
            assert(!ascii_digit(text@[i as int]));
            return false;
        }
        i += 1;
    }
    v.len() > 0
}

/// `a` followed by `b`.
pub fn joined(a: &str, b: &str) -> (s: String)
    ensures
        s@ == a@ + b@,
{
    let mut s = String::new();
    s.append(a);
    s.append(b);
    assert(s@ == a@ + b@);
    s
}

/// The number that a text of digits stands for.
pub open spec fn numeral_value(text: Seq<char>) -> int
    decreases text.len(),
{
    if text.len() == 0 {
        0
    } else {
        10 * numeral_value(text.drop_last()) + (text.last() as int - 48)
    }
}

/// Trimming takes whitespace away and nothing else: what is left stands in the
/// text between two runs of whitespace, and neither starts nor ends with any.
pub proof fn trimming_takes_only_whitespace(s: Seq<char>) -> (bounds: (int, int))
    ensures
        0 <= bounds.0 <= bounds.1 <= s.len(),
        trimmed(s) == s.subrange(bounds.0, bounds.1),
        forall|i: int| 0 <= i < bounds.0 ==> whitespace(#[trigger] s[i]),
        forall|i: int| bounds.1 <= i < s.len() ==> whitespace(#[trigger] s[i]),
        trimmed(s).len() > 0 ==> !whitespace(trimmed(s)[0]) && !whitespace(trimmed(s).last()),
{
    let from = lemma_start_bound(s);
    let t = s.skip(from);
    assert(forall|i: int| 0 <= i < t.len() ==> t[i] == s[i + from]);
    let to = lemma_end_bound(t);
    lemma_trimmed_start_skips(s, from);
    lemma_trimmed_end_takes(t, to);
    assert(t.take(to) =~= s.subrange(from, from + to));
    assert forall|i: int| from + to <= i < s.len() implies whitespace(#[trigger] s[i]) by {
        assert(whitespace(t[i - from]));
    }
    if to > 0 {
        assert(t.take(to)[0] == t[0]);
        assert(t[0] == s[from]);
        assert(t.take(to).last() == t[to - 1]);
    }
    (from, from + to)
}

proof fn lemma_start_bound(s: Seq<char>) -> (n: int)
    ensures
        0 <= n <= s.len(),
        forall|i: int| 0 <= i < n ==> whitespace(#[trigger] s[i]),
        n == s.len() || !whitespace(s[n]),
    decreases s.len(),
{
    if s.len() > 0 && whitespace(s[0]) {
        let t = s.drop_first();
        let n = lemma_start_bound(t);
        assert forall|i: int| 0 <= i < n + 1 implies whitespace(#[trigger] s[i]) by {
            if i > 0 {
                assert(whitespace(t[i - 1]));
            }
        }
        if n < t.len() {
            assert(t[n] == s[n + 1]);
        }
        n + 1
    } else {
        0
    }
}

proof fn lemma_end_bound(s: Seq<char>) -> (n: int)
    ensures
        0 <= n <= s.len(),
        forall|i: int| n <= i < s.len() ==> whitespace(#[trigger] s[i]),
        n == 0 || !whitespace(s[n - 1]),
    decreases s.len(),
{
    if s.len() > 0 && whitespace(s.last()) {
        let n = lemma_end_bound(s.drop_last());
        assert forall|i: int| n <= i < s.len() implies whitespace(#[trigger] s[i]) by {
            if i < s.len() - 1 {
                assert(whitespace(s.drop_last()[i]));
            }
        }
        n
    } else {
        s.len() as int
    }
}

/// A text without whitespace at its ends is left as it is.
pub proof fn trimming_leaves_tight_texts(s: Seq<char>)
    requires
        s.len() > 0 ==> !whitespace(s[0]) && !whitespace(s.last()),
    ensures
        trimmed(s) == s,
{
}

/// Whitespace is the six ASCII blanks and, beyond them, the two of Latin-1, the
/// Ogham mark, the general punctuation's spaces and separators, and the
/// ideographic space.
pub proof fn whitespace_is_blank(c: char)
    ensures
        (c as int) < 0x80 ==> (whitespace(c) <==> c == ' ' || c == '\t' || c == '\n' || c == '\r' || c
            as int == 0x0B || c as int == 0x0C),
        (c as int) >= 0x80 ==> (whitespace(c) <==> set![
            0x85int,
            0xA0int,
            0x1680int,
            0x2028int,
            0x2029int,
            0x202Fint,
            0x205Fint,
            0x3000int,
        ].contains(c as int) || 0x2000 <= c as int <= 0x200A),
{
}

/// No character is a control character and printable: those are the codes
/// below the space, and the delete with the 32 codes behind it.
pub proof fn control_characters_do_not_print(c: char)
    ensures
        control(c) <==> (c as int) < 0x20 || c as int == 0x7F || 0x80 <= c as int <= 0x9F,
        ascii_alphanumeric(c) ==> !control(c) && !whitespace(c),
{
}

/// The letters and digits of ASCII: ten digits, and 26 letters in two cases that
/// lie 32 apart.
pub proof fn letters_and_digits(c: char)
    ensures
        ascii_digit(c) <==> 48 <= c as int <= 57,
        ascii_alphanumeric(c) <==> 48 <= c as int <= 57 || 65 <= c as int <= 90 || 65 <= c as int
            - 32 <= 90,
{
}

/// A numeral says its number: in digits, without a leading zero.
pub proof fn numerals_say_their_number(n: nat)
    ensures
        numeral_value(decimal(n)) == n,
        numeric(decimal(n)),
        decimal(n)[0] == '0' ==> n == 0 && decimal(n).len() == 1,
    decreases n,
{
    if n < 10 {
        let t = decimal(n);
        assert(t.drop_last() =~= seq![]);
        assert(numeral_value(t.drop_last()) == 0);
    } else {
        numerals_say_their_number(n / 10);
        let head = decimal(n / 10);
        let t = decimal(n);
        assert(t.drop_last() =~= head);
        assert(t[0] == head[0]);
        assert forall|i: int| 0 <= i < t.len() implies ascii_digit(#[trigger] t[i]) by {
            if i < head.len() {
                assert(t[i] == head[i]);
            }
        }
    }
}

/// Two numbers never share a numeral.
pub proof fn numerals_tell_numbers_apart(a: nat, b: nat)
    ensures
        decimal(a) == decimal(b) ==> a == b,
{
    numerals_say_their_number(a);
    numerals_say_their_number(b);
}

/// A padded numeral says the same number, in two digits up to 99.
pub proof fn padded_numerals_say_their_number(n: nat)
    ensures
        numeral_value(decimal2(n)) == n,
        numeric(decimal2(n)),
        n < 100 ==> decimal2(n).len() == 2,
        n >= 10 ==> decimal2(n) == decimal(n),
{
    numerals_say_their_number(n);
    if n < 10 {
        let t = decimal2(n);
        assert(t.drop_last() =~= seq!['0']);
        assert(seq!['0'].drop_last() =~= seq![]);
        reveal_with_fuel(numeral_value, 3);
        assert(t.last() == decimal(n)[0]);
    } else if n < 100 {
        reveal_with_fuel(decimal, 2);
    }
}

/// A signed numeral carries a minus before the digits exactly below zero.
pub proof fn signed_numerals_say_their_number(n: int)
    ensures
        n >= 0 ==> numeric(signed(n)) && numeral_value(signed(n)) == n,
        n < 0 ==> signed(n).len() > 1 && signed(n)[0] == '-' && numeric(signed(n).skip(1))
            && numeral_value(signed(n).skip(1)) == -n,
{
    reveal_strlit("-");
    if n < 0 {
        numerals_say_their_number((-n) as nat);
        assert(signed(n).skip(1) =~= decimal((-n) as nat));
    } else {
        numerals_say_their_number(n as nat);
    }
}

/// A text is numeric where taking any one of its characters alone gives a
/// digit, and it has one.
pub proof fn numeric_texts_hold_digits(text: Seq<char>, i: int)
    requires
        0 <= i < text.len(),
    ensures
        numeric(text) ==> 48 <= text[i] as int <= 57,
        !(48 <= text[i] as int <= 57) ==> !numeric(text),
        text.len() == 1 ==> (numeric(text) <==> 48 <= text[i] as int <= 57),
        !numeric(text.take(0)),
        numeric(text.take(i)) && 48 <= text[i] as int <= 57 ==> numeric(text.take(i + 1)),
{
    if numeric(text.take(i)) && ascii_digit(text[i]) {
        assert forall|j: int| 0 <= j < i + 1 implies ascii_digit(#[trigger] text.take(i + 1)[j]) by {
            if j < i {
                assert(text.take(i)[j] == text[j]);
            }
        }
    }
}

/// A text that is cut keeps its beginning and no more than it was cut to, and a
/// shorter one stays whole.
pub proof fn cut_texts_keep_their_beginning(s: &str, n: usize, r: String)
    requires
        call_ensures(truncated, (s, n), r),
    ensures
        r@.len() <= n,
        r@.len() <= s@.len(),
        r@.len() == n || r@ == s@,
        forall|i: int| 0 <= i < r@.len() ==> #[trigger] r@[i] == s@[i],
{
}

/// Two texts put together are as long as both, the first in front.
pub proof fn put_together_texts_follow_each_other(a: &str, b: &str, r: String)
    requires
        call_ensures(joined, (a, b), r),
    ensures
        r@.len() == a@.len() + b@.len(),
        r@.take(a@.len() as int) == a@,
        r@.skip(a@.len() as int) == b@,
{
    assert(r@.take(a@.len() as int) =~= a@);
    assert(r@.skip(a@.len() as int) =~= b@);
}

} // verus!
