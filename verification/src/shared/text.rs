use vstd::prelude::*;
use vstd::string::{StrSliceExecFns, StringExecFns};

verus! {

/// Whether `c` is one of the ten decimal digits.
pub open spec fn is_digit(c: char) -> bool {
    '0' <= c && c <= '9'
}

/// The number that the decimal digit `c` stands for.
pub open spec fn digit_value(c: char) -> nat
    recommends
        is_digit(c),
{
    (c as int - '0' as int) as nat
}

/// Punctuation that groups the digits of a written identifier and carries
/// no information of its own.
pub open spec fn is_separator(c: char) -> bool {
    c == '.' || c == '-' || c == '/'
}

/// The decimal digits of `s`, in the order in which they occur.
pub open spec fn digits_of(s: Seq<char>) -> Seq<char> {
    s.filter(|c: char| is_digit(c))
}

/// Whether `s` holds a character that is neither a digit nor a separator.
pub open spec fn has_foreign_char(s: Seq<char>) -> bool {
    exists|i: int| 0 <= i < s.len() && !is_digit(#[trigger] s[i]) && !is_separator(s[i])
}

/// Whether every item of `d` equals the first one. True of the empty sequence.
pub open spec fn all_same(d: Seq<char>) -> bool {
    forall|i: int| 0 <= i < d.len() ==> #[trigger] d[i] == d[0]
}

/// The sum of `digit * weight` over the positions that `weights` covers.
pub open spec fn weighted_sum(digits: Seq<char>, weights: Seq<nat>) -> nat
    decreases weights.len(),
{
    if weights.len() == 0 {
        0
    } else {
        weighted_sum(digits, weights.drop_last()) + digit_value(digits[weights.len() - 1])
            * weights.last()
    }
}

/// Filtering one more item either appends it or leaves the result as it was.
pub proof fn lemma_digits_of_step(s: Seq<char>, i: int)
    requires
        0 <= i < s.len(),
    ensures
        digits_of(s.take(i + 1)) == if is_digit(s[i]) {
            digits_of(s.take(i)).push(s[i])
        } else {
            digits_of(s.take(i))
        },
{
    reveal(Seq::filter);
    assert(s.take(i + 1).drop_last() =~= s.take(i));
}

/// Whether `c` is one of the ten decimal digits.
pub fn is_digit_char(c: char) -> (b: bool)
    ensures
        b == is_digit(c),
{
    '0' <= c && c <= '9'
}

/// Whether `c` is punctuation that groups the digits of a written
/// identifier.
pub fn is_separator_char(c: char) -> (b: bool)
    ensures
        b == is_separator(c),
{
    c == '.' || c == '-' || c == '/'
}

/// The number that the decimal digit `c` stands for.
pub fn digit_of(c: char) -> (d: u32)
    requires
        is_digit(c),
    ensures
        d == digit_value(c),
        d <= 9,
{
    (c as u32) - ('0' as u32)
}

/// The characters of `s`, in order.
pub fn chars_of(s: &str) -> (out: Vec<char>)
    ensures
        out@ == s@,
{
    let mut out: Vec<char> = Vec::new();
    for c in it: s.chars()
        invariant
            out@ == it.seq().take(it.index() as int),
            it.seq() == s@,
    {
        out.push(c);
    }
    out
}

/// What a scan of a written identifier finds: its digits, and whether any
/// character was neither a digit nor a separator.
pub struct DigitScan {
    pub digits: Vec<char>,
    pub foreign: bool,
}

/// Reads `s` once and keeps its digits.
pub fn scan_digits(s: &str) -> (scan: DigitScan)
    ensures
        scan.digits@ == digits_of(s@),
        scan.foreign == has_foreign_char(s@),
        forall|i: int| 0 <= i < scan.digits@.len() ==> is_digit(#[trigger] scan.digits@[i]),
{
    let mut digits: Vec<char> = Vec::new();
    let mut foreign = false;
    for c in it: s.chars()
        invariant
            it.seq() == s@,
            digits@ == digits_of(s@.take(it.index() as int)),
            foreign == has_foreign_char(s@.take(it.index() as int)),
            forall|i: int| 0 <= i < digits@.len() ==> is_digit(#[trigger] digits@[i]),
    {
        proof {
            let k = it.index() as int;
            lemma_digits_of_step(s@, k);
            let before = s@.take(k);
            let after = s@.take(k + 1);
            assert(after[k] == c);
            if has_foreign_char(before) {
                let j = choose|j: int|
                    0 <= j < before.len() && !is_digit(#[trigger] before[j]) && !is_separator(
                        before[j],
                    );
                assert(after[j] == before[j]);
            }
        }
        if is_digit_char(c) {
            digits.push(c);
        } else if !is_separator_char(c) {
            foreign = true;
        }
    }
    proof {
        assert(s@.take(s@.len() as int) =~= s@);
    }
    DigitScan { digits, foreign }
}

/// The character that writes the number `d`, which is below ten.
pub open spec fn digit_char(d: nat) -> char
    recommends
        d < 10,
{
    ('0' as int + d) as char
}

/// `n` written in decimal, without leading zeros.
pub open spec fn decimal_text(n: nat) -> Seq<char>
    decreases n,
{
    if n < 10 {
        seq![digit_char(n)]
    } else {
        decimal_text(n / 10).push(digit_char(n % 10))
    }
}

/// The one-character text that writes the number `d`, which is below ten.
pub fn digit_str(d: usize) -> (text: &'static str)
    requires
        d < 10,
    ensures
        text@ == seq![digit_char(d as nat)],
{
    proof {
        reveal_strlit("0");
        reveal_strlit("1");
        reveal_strlit("2");
        reveal_strlit("3");
        reveal_strlit("4");
        reveal_strlit("5");
        reveal_strlit("6");
        reveal_strlit("7");
        reveal_strlit("8");
        reveal_strlit("9");
    }
    match d {
        0 => "0",
        1 => "1",
        2 => "2",
        3 => "3",
        4 => "4",
        5 => "5",
        6 => "6",
        7 => "7",
        8 => "8",
        _ => "9",
    }
}

/// `n` written in decimal, without leading zeros.
pub fn decimal_string(n: usize) -> (text: String)
    ensures
        text@ == decimal_text(n as nat),
    decreases n,
{
    if n < 10 {
        String::from_str(digit_str(n))
    } else {
        let mut text = decimal_string(n / 10);
        text.append(digit_str(n % 10));
        text
    }
}

/// Whether `a` and `b` hold the same characters.
pub fn same_text(a: &str, b: &str) -> (same: bool)
    ensures
        same == (a@ == b@),
{
    let left = chars_of(a);
    let right = chars_of(b);
    if left.len() != right.len() {
        return false;
    }
    let mut i: usize = 0;
    while i < left.len()
        invariant
            i <= left.len(),
            left@ == a@,
            right@ == b@,
            left@.len() == right@.len(),
            forall|j: int| 0 <= j < i ==> left@[j] == right@[j],
        decreases left.len() - i,
    {
        if left[i] != right[i] {
            return false;
        }
        i += 1;
    }
    assert(left@ =~= right@);
    true
}

/// The digits of `s`, as a string of its own.
pub fn keep_digits(s: &str) -> (out: String)
    ensures
        out@ == digits_of(s@),
{
    let mut out = String::new();
    for c in it: s.chars()
        invariant
            it.seq() == s@,
            out@ == digits_of(s@.take(it.index() as int)),
    {
        proof {
            lemma_digits_of_step(s@, it.index() as int);
        }
        if is_digit_char(c) {
            let d = digit_of(c);
            out.append(digit_str(d as usize));
        }
    }
    proof {
        assert(s@.take(s@.len() as int) =~= s@);
    }
    out
}

/// Whether `c` is white space: a character with the Unicode property
/// White_Space.
pub open spec fn is_whitespace(c: char) -> bool {
    let code = c as int;
    (0x09 <= code && code <= 0x0d) || code == 0x20 || code == 0x85 || code == 0xa0 || code
        == 0x1680 || (0x2000 <= code && code <= 0x200a) || code == 0x2028 || code == 0x2029
        || code == 0x202f || code == 0x205f || code == 0x3000
}

/// `s` without the white space at its start.
pub open spec fn trimmed_start(s: Seq<char>) -> Seq<char>
    decreases s.len(),
{
    if s.len() > 0 && is_whitespace(s.first()) {
        trimmed_start(s.drop_first())
    } else {
        s
    }
}

/// `s` without the white space at its end.
pub open spec fn trimmed_end(s: Seq<char>) -> Seq<char>
    decreases s.len(),
{
    if s.len() > 0 && is_whitespace(s.last()) {
        trimmed_end(s.drop_last())
    } else {
        s
    }
}

/// `s` without the white space at its start and at its end.
pub open spec fn trimmed(s: Seq<char>) -> Seq<char> {
    trimmed_end(trimmed_start(s))
}

/// Whether `c` is white space.
pub fn is_whitespace_char(c: char) -> (b: bool)
    ensures
        b == is_whitespace(c),
{
    let code: u32 = c as u32;
    (0x09 <= code && code <= 0x0d) || code == 0x20 || code == 0x85 || code == 0xa0 || code
        == 0x1680 || (0x2000 <= code && code <= 0x200a) || code == 0x2028 || code == 0x2029
        || code == 0x202f || code == 0x205f || code == 0x3000
}

/// `s` without the white space at its start and at its end.
pub fn trim(s: &str) -> (out: String)
    ensures
        out@ == trimmed(s@),
{
    let chars = chars_of(s);
    let mut start: usize = 0;
    assert(chars@.skip(0) =~= chars@);
    while start < chars.len() && is_whitespace_char(chars[start])
        invariant
            start <= chars.len(),
            trimmed_start(chars@) == trimmed_start(chars@.skip(start as int)),
        decreases chars.len() - start,
    {
        proof {
            let rest = chars@.skip(start as int);
            assert(rest.drop_first() =~= chars@.skip(start + 1));
        }
        start += 1;
    }
    assert(trimmed_start(chars@) =~= chars@.subrange(start as int, chars@.len() as int));
    let mut end: usize = chars.len();
    while end > start && is_whitespace_char(chars[end - 1])
        invariant
            start <= end <= chars.len(),
            trimmed(chars@) == trimmed_end(chars@.subrange(start as int, end as int)),
        decreases end - start,
    {
        proof {
            let part = chars@.subrange(start as int, end as int);
            assert(part.drop_last() =~= chars@.subrange(start as int, end - 1));
        }
        end -= 1;
    }
    assert(trimmed(chars@) == chars@.subrange(start as int, end as int));
    String::from_str(s.substring_char(start, end))
}

/// Whether `text` begins with the characters of `prefix`.
pub fn starts_with(text: &Vec<char>, prefix: &str) -> (found: bool)
    ensures
        found == prefix@.is_prefix_of(text@),
{
    let head = chars_of(prefix);
    if head.len() > text.len() {
        return false;
    }
    let mut i: usize = 0;
    while i < head.len()
        invariant
            i <= head.len() <= text.len(),
            head@ == prefix@,
            forall|j: int| 0 <= j < i ==> head@[j] == text@[j],
        decreases head.len() - i,
    {
        if head[i] != text[i] {
            return false;
        }
        i += 1;
    }
    true
}

/// A sequence of digits is its own sequence of digits.
pub proof fn lemma_digits_of_digits(s: Seq<char>)
    requires
        forall|i: int| 0 <= i < s.len() ==> is_digit(#[trigger] s[i]),
    ensures
        digits_of(s) == s,
        !has_foreign_char(s),
    decreases s.len(),
{
    reveal(Seq::filter);
    if s.len() > 0 {
        lemma_digits_of_digits(s.drop_last());
    }
}

/// What is kept of a text as its digits is made of digits, and is its own
/// sequence of digits.
pub proof fn lemma_digits_of_is_digits(s: Seq<char>)
    ensures
        forall|i: int| 0 <= i < digits_of(s).len() ==> is_digit(#[trigger] digits_of(s)[i]),
        digits_of(digits_of(s)) == digits_of(s),
        !has_foreign_char(digits_of(s)),
{
    s.filter_lemma(|c: char| is_digit(c));
    lemma_digits_of_digits(digits_of(s));
}

/// What `trimmed_start` drops is white space, and what it keeps is the rest
/// of the text, which does not begin with white space.
pub proof fn lemma_trimmed_start(s: Seq<char>) -> (from: int)
    ensures
        0 <= from <= s.len(),
        trimmed_start(s) == s.subrange(from, s.len() as int),
        forall|i: int| 0 <= i < from ==> is_whitespace(#[trigger] s[i]),
        from < s.len() ==> !is_whitespace(s[from]),
    decreases s.len(),
{
    if s.len() > 0 && is_whitespace(s.first()) {
        let rest = s.drop_first();
        let inner = lemma_trimmed_start(rest);
        assert forall|i: int| 0 <= i < inner + 1 implies is_whitespace(#[trigger] s[i]) by {
            if i > 0 {
                assert(s[i] == rest[i - 1]);
            }
        }
        inner + 1
    } else {
        0
    }
}

/// What `trimmed_end` drops is white space, and what it keeps is the text
/// before it, which does not end with white space.
pub proof fn lemma_trimmed_end(s: Seq<char>) -> (to: int)
    ensures
        0 <= to <= s.len(),
        trimmed_end(s) == s.subrange(0, to),
        forall|i: int| to <= i < s.len() ==> is_whitespace(#[trigger] s[i]),
        0 < to ==> !is_whitespace(s[to - 1]),
    decreases s.len(),
{
    if s.len() > 0 && is_whitespace(s.last()) {
        let rest = s.drop_last();
        let inner = lemma_trimmed_end(rest);
        assert forall|i: int| inner <= i < s.len() implies is_whitespace(#[trigger] s[i]) by {
            if i < s.len() - 1 {
                assert(s[i] == rest[i]);
            }
        }
        inner
    } else {
        s.len() as int
    }
}

/// A trimmed text is the stretch of the text between the white space at its
/// two ends: everything before it and after it is white space, and it
/// neither begins nor ends with white space.
pub proof fn law_trimmed_is_the_core(s: Seq<char>) -> (bounds: (int, int))
    ensures
        0 <= bounds.0 <= bounds.1 <= s.len(),
        trimmed(s) == s.subrange(bounds.0, bounds.1),
        forall|i: int| 0 <= i < bounds.0 ==> is_whitespace(#[trigger] s[i]),
        forall|i: int| bounds.1 <= i < s.len() ==> is_whitespace(#[trigger] s[i]),
        bounds.0 < bounds.1 ==> !is_whitespace(s[bounds.0]) && !is_whitespace(s[bounds.1 - 1]),
{
    let from = lemma_trimmed_start(s);
    let rest = s.subrange(from, s.len() as int);
    let to = lemma_trimmed_end(rest);
    assert forall|i: int| from + to <= i < s.len() implies is_whitespace(#[trigger] s[i]) by {
        assert(s[i] == rest[i - from]);
    }
    (from, from + to)
}

/// The number that a sequence of decimal digits writes.
pub open spec fn decimal_value(digits: Seq<char>) -> nat
    decreases digits.len(),
{
    if digits.len() == 0 {
        0
    } else {
        decimal_value(digits.drop_last()) * 10 + digit_value(digits.last())
    }
}

/// The decimal text of a number is made of digits, writes that number, and
/// begins with a zero only for zero itself.
pub proof fn law_decimal_text_writes_its_number(n: nat)
    ensures
        decimal_text(n).len() >= 1,
        forall|i: int| 0 <= i < decimal_text(n).len() ==> is_digit(#[trigger] decimal_text(n)[i]),
        decimal_value(decimal_text(n)) == n,
        n > 0 ==> decimal_text(n)[0] != '0',
    decreases n,
{
    if n < 10 {
        let text = seq![digit_char(n)];
        assert(decimal_value(text.drop_last()) == 0);
    } else {
        law_decimal_text_writes_its_number(n / 10);
        let head = decimal_text(n / 10);
        let text = head.push(digit_char(n % 10));
        assert(text.drop_last() =~= head);
        assert forall|i: int| 0 <= i < text.len() implies is_digit(#[trigger] text[i]) by {
            if i < head.len() {
                assert(text[i] == head[i]);
            }
        }
    }
}

} // verus!
