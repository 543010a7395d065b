//! Text helpers: characters of a string, search, trimming, ASCII case
//! folding and decimal digits.

use vstd::prelude::*;

verus! {

/// `String::push` appends the character to the end of the string.
pub assume_specification[ std::string::String::push ](s: &mut std::string::String, c: char)
    ensures
        final(s)@ == old(s)@.push(c),
;

/// The upper-case form of `text` as `str::to_uppercase` gives it, by the
/// Unicode rules.
pub uninterp spec fn upper_case(text: Seq<char>) -> Seq<char>;

/// Calls `str::to_uppercase`: the upper-case equivalent of the text as a new
/// string.
#[verifier::external_body]
pub(crate) fn to_uppercase(text: &str) -> (upper: String)
    ensures
        upper@ == upper_case(text@),
{
    text.to_uppercase()
}

/// The characters of `s`, in order.
pub fn chars_of(s: &str) -> (chars: Vec<char>)
    ensures
        chars@ == s@,
{
    let mut chars: Vec<char> = Vec::new();
    for c in it: s.chars()
        invariant
            chars@ == it.seq().take(it.index()),
            it.seq() == s@,
    {
        chars.push(c);
    }
    chars
}

/// Whether `a` and `b` hold the same characters.
pub fn same_text(a: &str, b: &str) -> (same: bool)
    ensures
        same == (a@ == b@),
{
    let a_chars = chars_of(a);
    let b_chars = chars_of(b);
    if a_chars.len() != b_chars.len() {
        return false;
    }
    let mut i: usize = 0;
    while i < a_chars.len()
        invariant
            a_chars@ == a@,
            b_chars@ == b@,
            a_chars@.len() == b_chars@.len(),
            i <= a_chars@.len(),
            forall|k: int| 0 <= k < i ==> a@[k] == b@[k],
        decreases a_chars@.len() - i,
    {
        if a_chars[i] != b_chars[i] {
            return false;
        }
        i += 1;
    }
    assert(a@ =~= b@);
    true
}

/// The lower-case form of an ASCII capital; any other character itself.
pub open spec fn fold_char(c: char) -> char {
    if 'A' <= c <= 'Z' {
        ((c as u8) + 32) as char
    } else {
        c
    }
}

/// Equality of two texts up to the case of their ASCII letters.
pub open spec fn same_ignoring_ascii_case(a: Seq<char>, b: Seq<char>) -> bool {
    &&& a.len() == b.len()
    &&& forall|i: int| 0 <= i < a.len() ==> fold_char(a[i]) == fold_char(b[i])
}

/// The lower-case form of an ASCII capital; any other character itself.
pub fn to_lower(c: char) -> (folded: char)
    ensures
        folded == fold_char(c),
{
    if 'A' <= c && c <= 'Z' {
        ((c as u8) + 32) as char
    } else {
        c
    }
}

/// Whether `a` and `b` are equal up to the case of their ASCII letters.
pub fn eq_ignore_ascii_case(a: &str, b: &str) -> (same: bool)
    ensures
        same == same_ignoring_ascii_case(a@, b@),
{
    let a_chars = chars_of(a);
    let b_chars = chars_of(b);
    if a_chars.len() != b_chars.len() {
        return false;
    }
    let mut i: usize = 0;
    while i < a_chars.len()
        invariant
            a_chars@ == a@,
            b_chars@ == b@,
            a_chars@.len() == b_chars@.len(),
            i <= a_chars@.len(),
            forall|k: int| 0 <= k < i ==> fold_char(a@[k]) == fold_char(b@[k]),
        decreases a_chars@.len() - i,
    {
        if to_lower(a_chars[i]) != to_lower(b_chars[i]) {
            return false;
        }
        i += 1;
    }
    true
}

/// Whether `pat` stands in `s` at index `i`.
pub open spec fn occurs_at(s: Seq<char>, pat: Seq<char>, i: int) -> bool {
    &&& 0 <= i
    &&& i + pat.len() <= s.len()
    &&& s.subrange(i, i + pat.len()) == pat
}

/// The least index from `from` on at which `pat` stands in `s`, and the
/// length of `s` where there is none.
pub open spec fn find_from(s: Seq<char>, pat: Seq<char>, from: int) -> int
    decreases s.len() - from,
{
    if from >= s.len() {
        s.len() as int
    } else if occurs_at(s, pat, from) {
        from
    } else {
        find_from(s, pat, from + 1)
    }
}

/// The part of `s` before the first occurrence of `pat`; all of `s` where
/// `pat` does not occur.
pub open spec fn head_before(s: Seq<char>, pat: Seq<char>) -> Seq<char> {
    s.take(find_from(s, pat, 0))
}

/// `find_from` gives an index within `s` at which `pat` stands unless it is
/// the length of `s`, and `pat` stands at no index between `from` and it.
pub proof fn lemma_find_from(s: Seq<char>, pat: Seq<char>, from: int)
    requires
        0 <= from <= s.len(),
    ensures
        from <= find_from(s, pat, from) <= s.len(),
        find_from(s, pat, from) < s.len() ==> occurs_at(s, pat, find_from(s, pat, from)),
        forall|j: int| from <= j < find_from(s, pat, from) ==> !occurs_at(s, pat, j),
    decreases s.len() - from,
{
    if from < s.len() && !occurs_at(s, pat, from) {
        lemma_find_from(s, pat, from + 1);
    }
}

/// An index that `pat` does not stand before, and at which it stands unless
/// the index is the length of `s`, is what `find_from` gives.
pub proof fn lemma_find_from_unique(s: Seq<char>, pat: Seq<char>, from: int, at: int)
    requires
        0 <= from <= at <= s.len(),
        forall|j: int| from <= j < at ==> !occurs_at(s, pat, j),
        at < s.len() ==> occurs_at(s, pat, at),
    ensures
        find_from(s, pat, from) == at,
    decreases at - from,
{
    if from < at {
        lemma_find_from_unique(s, pat, from + 1, at);
    }
}

/// Whether `pat` stands in `s` at index `i`.
fn matches_at(s: &Vec<char>, pat: &Vec<char>, i: usize) -> (found: bool)
    requires
        i <= s@.len(),
    ensures
        found == occurs_at(s@, pat@, i as int),
{
    if pat.len() > s.len() - i {
        return false;
    }
    let mut k: usize = 0;
    while k < pat.len()
        invariant
            i + pat@.len() <= s@.len() <= usize::MAX,
            k <= pat@.len(),
            forall|j: int| 0 <= j < k ==> s@[i + j] == pat@[j],
        decreases pat@.len() - k,
    {
        if s[i + k] != pat[k] {
            assert(s@.subrange(i as int, i + pat@.len())[k as int] != pat@[k as int]);
            return false;
        }
        k += 1;
    }
    assert(s@.subrange(i as int, i + pat@.len()) =~= pat@);
    true
}

/// The part of `s` before the first occurrence of `pat`.
pub fn head_of(s: &str, pat: &str) -> (head: String)
    ensures
        head@ == head_before(s@, pat@),
{
    let chars = chars_of(s);
    let pat_chars = chars_of(pat);
    let mut i: usize = 0;
    while i < chars.len() && !matches_at(&chars, &pat_chars, i)
        invariant
            i <= chars@.len(),
            find_from(chars@, pat_chars@, 0) == find_from(chars@, pat_chars@, i as int),
        decreases chars@.len() - i,
    {
        i += 1;
    }
    let mut head = String::new();
    let mut k: usize = 0;
    while k < i
        invariant
            k <= i <= chars@.len(),
            head@ == chars@.take(k as int),
        decreases i - k,
    {
        head.push(chars[k]);
        k += 1;
    }
    head
}

/// Whether `c` is white space: a character with the Unicode property
/// `White_Space`.
pub open spec fn is_whitespace(c: char) -> bool {
    ||| 0x09 <= c as u32 <= 0x0d
    ||| c as u32 == 0x20
    ||| c as u32 == 0x85
    ||| c as u32 == 0xa0
    ||| c as u32 == 0x1680
    ||| 0x2000 <= c as u32 <= 0x200a
    ||| c as u32 == 0x2028
    ||| c as u32 == 0x2029
    ||| c as u32 == 0x202f
    ||| c as u32 == 0x205f
    ||| c as u32 == 0x3000
}

/// The index of the first character of `s` from `from` on that is no white
/// space; the length of `s` where there is none.
pub open spec fn trim_start(s: Seq<char>, from: int) -> int
    decreases s.len() - from,
{
    if from >= s.len() {
        s.len() as int
    } else if !is_whitespace(s[from]) {
        from
    } else {
        trim_start(s, from + 1)
    }
}

/// The index after the last character of `s` before `to` that is no white
/// space and does not stand before `floor`; `floor` where there is none.
pub open spec fn trim_end(s: Seq<char>, floor: int, to: int) -> int
    decreases to - floor,
{
    if to <= floor {
        floor
    } else if !is_whitespace(s[to - 1]) {
        to
    } else {
        trim_end(s, floor, to - 1)
    }
}

/// The text `s` with the white space at its two ends removed.
pub open spec fn trimmed(s: Seq<char>) -> Seq<char> {
    s.subrange(trim_start(s, 0), trim_end(s, trim_start(s, 0), s.len() as int))
}

/// `trim_start` gives an index within `s` before which all is white space,
/// and at which no white space stands unless it is the length of `s`.
pub proof fn lemma_trim_start(s: Seq<char>, from: int)
    requires
        0 <= from <= s.len(),
    ensures
        from <= trim_start(s, from) <= s.len(),
        forall|j: int| from <= j < trim_start(s, from) ==> is_whitespace(s[j]),
        trim_start(s, from) < s.len() ==> !is_whitespace(s[trim_start(s, from)]),
    decreases s.len() - from,
{
    if from < s.len() && is_whitespace(s[from]) {
        lemma_trim_start(s, from + 1);
    }
}

/// `trim_end` gives an index between `floor` and `to` from which all is white
/// space up to `to`, and before which no white space stands unless it is
/// `floor`.
pub proof fn lemma_trim_end(s: Seq<char>, floor: int, to: int)
    requires
        0 <= floor <= to <= s.len(),
    ensures
        floor <= trim_end(s, floor, to) <= to,
        forall|j: int| trim_end(s, floor, to) <= j < to ==> is_whitespace(s[j]),
        trim_end(s, floor, to) > floor ==> !is_whitespace(s[trim_end(s, floor, to) - 1]),
    decreases to - floor,
{
    if to > floor && is_whitespace(s[to - 1]) {
        lemma_trim_end(s, floor, to - 1);
    }
}

/// A trimmed text is a stretch of the text it was made of; all that was cut
/// off at either end is white space, and neither its first nor its last
/// character is.
pub proof fn lemma_trimmed(s: Seq<char>)
    ensures
        trimmed(s).len() <= s.len(),
        trimmed(s).len() > 0 ==> !is_whitespace(trimmed(s).first()) && !is_whitespace(
            trimmed(s).last(),
        ),
        exists|start: int|
            {
                &&& 0 <= start
                &&& start + trimmed(s).len() <= s.len()
                &&& trimmed(s) == #[trigger] s.subrange(start, start + trimmed(s).len())
                &&& forall|j: int| 0 <= j < start ==> is_whitespace(s[j])
                &&& forall|j: int| start + trimmed(s).len() <= j < s.len() ==> is_whitespace(s[j])
            },
{
    lemma_trim_start(s, 0);
    let start = trim_start(s, 0);
    lemma_trim_end(s, start, s.len() as int);
    let end = trim_end(s, start, s.len() as int);
    assert(trimmed(s) == s.subrange(start, start + trimmed(s).len()));
}

/// Whether `c` is white space.
pub fn is_white(c: char) -> (white: bool)
    ensures
        white == is_whitespace(c),
{
    let n: u32 = c as u32;
    (0x09 <= n && n <= 0x0d) || n == 0x20 || n == 0x85 || n == 0xa0 || n == 0x1680 || (0x2000 <= n
        && n <= 0x200a) || n == 0x2028 || n == 0x2029 || n == 0x202f || n == 0x205f || n == 0x3000
}

/// The text `s` with the white space at its two ends removed.
pub fn trim(s: &str) -> (text: String)
    ensures
        text@ == trimmed(s@),
{
    let chars = chars_of(s);
    let mut start: usize = 0;
    while start < chars.len() && is_white(chars[start])
        invariant
            start <= chars@.len(),
            trim_start(chars@, 0) == trim_start(chars@, start as int),
        decreases chars@.len() - start,
    {
        start += 1;
    }
    let mut end: usize = chars.len();
    while end > start && is_white(chars[end - 1])
        invariant
            start <= end <= chars@.len(),
            trim_end(chars@, start as int, chars@.len() as int) == trim_end(
                chars@,
                start as int,
                end as int,
            ),
        decreases end - start,
    {
        end -= 1;
    }
    let mut text = String::new();
    let mut k: usize = start;
    while k < end
        invariant
            start <= k <= end <= chars@.len(),
            text@ == chars@.subrange(start as int, k as int),
        decreases end - k,
    {
        text.push(chars[k]);
        assert(chars@.subrange(start as int, k + 1) =~= chars@.subrange(
            start as int,
            k as int,
        ).push(chars@[k as int]));
        k += 1;
    }
    text
}

/// The decimal digit of `d`, for `d` below ten.
pub open spec fn digit(d: int) -> char {
    if d == 0 {
        '0'
    } else if d == 1 {
        '1'
    } else if d == 2 {
        '2'
    } else if d == 3 {
        '3'
    } else if d == 4 {
        '4'
    } else if d == 5 {
        '5'
    } else if d == 6 {
        '6'
    } else if d == 7 {
        '7'
    } else if d == 8 {
        '8'
    } else {
        '9'
    }
}

/// The last `width` decimal digits of `n`, with leading zeros.
pub open spec fn fixed_decimal(n: nat, width: nat) -> Seq<char>
    decreases width,
{
    if width == 0 {
        Seq::empty()
    } else {
        fixed_decimal(n / 10, (width - 1) as nat).push(digit((n % 10) as int))
    }
}

/// The decimal numeral of `n`, without leading zeros.
pub open spec fn decimal(n: nat) -> Seq<char>
    decreases n,
{
    if n < 10 {
        seq![digit(n as int)]
    } else {
        decimal(n / 10).push(digit((n % 10) as int))
    }
}

/// The decimal digit of `d`.
fn digit_of(d: u8) -> (c: char)
    requires
        d < 10,
    ensures
        c == digit(d as int),
{
    if d == 0 {
        '0'
    } else if d == 1 {
        '1'
    } else if d == 2 {
        '2'
    } else if d == 3 {
        '3'
    } else if d == 4 {
        '4'
    } else if d == 5 {
        '5'
    } else if d == 6 {
        '6'
    } else if d == 7 {
        '7'
    } else if d == 8 {
        '8'
    } else {
        '9'
    }
}

/// Appends to `out` the digits held in `stack`, last first.
fn push_reversed(out: &mut String, stack: &Vec<char>)
    ensures
        final(out)@ == old(out)@ + stack@.reverse(),
{
    let mut k: usize = stack.len();
    while k > 0
        invariant
            k <= stack@.len(),
            out@ == old(out)@ + stack@.reverse().take(stack@.len() - k),
        decreases k,
    {
        k -= 1;
        out.push(stack[k]);
        assert(stack@.reverse().take(stack@.len() - k) =~= stack@.reverse().take(
            stack@.len() - k - 1,
        ).push(stack@[k as int]));
    }
    assert(stack@.reverse().take(stack@.len() as int) =~= stack@.reverse());
}

/// Appends the decimal numeral of `n` to `out`.
pub fn push_decimal(out: &mut String, n: u128)
    ensures
        final(out)@ == old(out)@ + decimal(n as nat),
{
    let mut stack: Vec<char> = Vec::new();
    let mut rest: u128 = n;
    while rest >= 10
        invariant
            decimal(n as nat) == decimal(rest as nat) + stack@.reverse(),
        decreases rest,
    {
        let d: u8 = (rest % 10) as u8;
        let ghost before = stack@;
        stack.push(digit_of(d));
        assert(decimal(rest as nat) == decimal((rest / 10) as nat).push(digit((rest % 10) as int)));
        assert(decimal((rest / 10) as nat).push(digit((rest % 10) as int)) + before.reverse()
            =~= decimal((rest / 10) as nat) + stack@.reverse());
        rest = rest / 10;
    }
    out.push(digit_of(rest as u8));
    push_reversed(out, &stack);
    assert(old(out)@.push(digit(rest as int)) + stack@.reverse() =~= old(out)@ + (decimal(
        rest as nat,
    ) + stack@.reverse()));
}

/// Appends the last `width` decimal digits of `n` to `out`, with leading
/// zeros.
pub fn push_fixed_decimal(out: &mut String, n: u128, width: usize)
    ensures
        final(out)@ == old(out)@ + fixed_decimal(n as nat, width as nat),
{
    let mut stack: Vec<char> = Vec::new();
    let mut rest: u128 = n;
    let mut left: usize = width;
    while left > 0
        invariant
            fixed_decimal(n as nat, width as nat) == fixed_decimal(rest as nat, left as nat)
                + stack@.reverse(),
        decreases left,
    {
        let d: u8 = (rest % 10) as u8;
        let ghost before = stack@;
        stack.push(digit_of(d));
        assert(fixed_decimal(rest as nat, left as nat) == fixed_decimal(
            (rest / 10) as nat,
            (left - 1) as nat,
        ).push(digit((rest % 10) as int)));
        assert(fixed_decimal((rest / 10) as nat, (left - 1) as nat).push(
            digit((rest % 10) as int),
        ) + before.reverse() =~= fixed_decimal((rest / 10) as nat, (left - 1) as nat)
            + stack@.reverse());
        rest = rest / 10;
        left -= 1;
    }
    push_reversed(out, &stack);
    assert(fixed_decimal(rest as nat, 0) + stack@.reverse() =~= stack@.reverse());
}

} // verus!
