//! Text: what the dashboard does with the characters of a line.
//!
//! A string is modelled by its view, the sequence of its characters.

use vstd::prelude::*;
use vstd::string::*;

verus! {

/// `String::push` appends one character to the end of the string.
pub assume_specification[ String::push ](s: &mut String, c: char)
    ensures
        final(s)@ == old(s)@.push(c),
;

/// The characters of `s`, in order.
pub fn chars_of(s: &str) -> (chars: Vec<char>)
    ensures
        chars@ == s@,
{
    let mut out: Vec<char> = Vec::new();
    for c in it: s.chars()
        invariant
            it.seq() == s@,
            out@ == it.seq().take(it.index() as int),
    {
        out.push(c);
    }
    assert(out@ =~= s@);
    out
}

/// The string made of the characters `chars[from..to]`.
pub(crate) fn string_of(chars: &Vec<char>, from: usize, to: usize) -> (s: String)
    requires
        from <= to <= chars@.len(),
    ensures
        s@ == chars@.subrange(from as int, to as int),
{
    let mut out = String::new();
    let mut i: usize = from;
    while i < to
        invariant
            from <= i <= to <= chars@.len(),
            out@ == chars@.subrange(from as int, i as int),
        decreases to - i,
    {
        out.push(chars[i]);
        i += 1;
        assert(out@ =~= chars@.subrange(from as int, i as int));
    }
    out
}

// ---------------------------------------------------------------------------
// Character classes
// ---------------------------------------------------------------------------

/// The escape character, which opens a terminal control sequence.
pub const ESCAPE: char = '\u{1b}';

/// The ellipsis that ends a clipped text.
pub const ELLIPSIS: char = '\u{2026}';

/// Unicode general category `Cc`: the C0 and C1 control codes and `DEL`.
pub open spec fn control(c: char) -> bool {
    c as u32 <= 0x1f || 0x7f <= c as u32 <= 0x9f
}

/// The Unicode property `White_Space`.
pub open spec fn white_space(c: char) -> bool {
    let n = c as u32;
    ||| 0x09 <= n <= 0x0d
    ||| n == 0x20
    ||| n == 0x85
    ||| n == 0xa0
    ||| n == 0x1680
    ||| 0x2000 <= n <= 0x200a
    ||| n == 0x2028
    ||| n == 0x2029
    ||| n == 0x202f
    ||| n == 0x205f
    ||| n == 0x3000
}

/// The bytes that end a control sequence: `@` to `~`.
pub open spec fn final_byte(c: char) -> bool {
    0x40 <= c as u32 <= 0x7e
}

/// `c` with an ASCII capital replaced by its small letter.
pub open spec fn ascii_lower(c: char) -> char {
    if 0x41 <= c as u32 <= 0x5a {
        (c as u32 + 0x20) as char
    } else {
        c
    }
}

/// Whether `c` is a control code.
pub fn is_control(c: char) -> (r: bool)
    ensures
        r == control(c),
{
    let n: u32 = c as u32;
    n <= 0x1f || (0x7f <= n && n <= 0x9f)
}

/// Whether `c` is white space.
pub fn is_white_space(c: char) -> (r: bool)
    ensures
        r == white_space(c),
{
    let n: u32 = c as u32;
    (0x09 <= n && n <= 0x0d) || n == 0x20 || n == 0x85 || n == 0xa0 || n == 0x1680 || (0x2000 <= n
        && n <= 0x200a) || n == 0x2028 || n == 0x2029 || n == 0x202f || n == 0x205f || n == 0x3000
}

/// Whether `a` and `b` are the same character, ASCII case aside.
fn same_letter(a: char, b: char) -> (r: bool)
    ensures
        r == (ascii_lower(a) == ascii_lower(b)),
{
    let m: u32 = a as u32;
    let n: u32 = b as u32;
    let low_m: u32 = if 0x41 <= m && m <= 0x5a { m + 0x20 } else { m };
    let low_n: u32 = if 0x41 <= n && n <= 0x5a { n + 0x20 } else { n };
    assert(ascii_lower(a) as u32 == low_m);
    assert(ascii_lower(b) as u32 == low_n);
    low_m == low_n
}

// ---------------------------------------------------------------------------
// Searching and comparing
// ---------------------------------------------------------------------------

/// `part` stands in `whole` at index `at`.
pub open spec fn stands_at(part: Seq<char>, whole: Seq<char>, at: int) -> bool {
    0 <= at && at + part.len() <= whole.len() && whole.subrange(at, at + part.len()) == part
}

/// `part` stands somewhere in `whole`.
pub open spec fn occurs(part: Seq<char>, whole: Seq<char>) -> bool {
    exists|at: int| stands_at(part, whole, at)
}

/// The two texts agree, ASCII case aside.
pub open spec fn equal_ignoring_case(a: Seq<char>, b: Seq<char>) -> bool {
    a.len() == b.len() && forall|i: int|
        0 <= i < a.len() ==> ascii_lower(#[trigger] a[i]) == ascii_lower(b[i])
}

/// Whether `part` stands in `whole` at index `at`.
fn found_at(part: &Vec<char>, whole: &Vec<char>, at: usize) -> (r: bool)
    ensures
        r == stands_at(part@, whole@, at as int),
{
    if at > whole.len() || part.len() > whole.len() - at {
        return false;
    }
    let mut i: usize = 0;
    while i < part.len()
        invariant
            i <= part@.len(),
            at + part@.len() <= whole@.len() <= usize::MAX,
            forall|j: int| 0 <= j < i ==> part@[j] == #[trigger] whole@[at + j],
        decreases part.len() - i,
    {
        if part[i] != whole[at + i] {
            assert(whole@.subrange(at as int, at + part@.len())[i as int] != part@[i as int]);
            return false;
        }
        i += 1;
    }
    assert forall|j: int| 0 <= j < part@.len() implies #[trigger] part@[j] == whole@.subrange(
        at as int,
        at + part@.len(),
    )[j] by {
        assert(part@[j] == whole@[at + j]);
    }
    assert(whole@.subrange(at as int, at + part@.len()) =~= part@);
    true
}

/// Whether the characters `part` occur in the characters `whole`.
pub fn contains(whole: &Vec<char>, part: &str) -> (r: bool)
    ensures
        r == occurs(part@, whole@),
{
    let wanted = chars_of(part);
    let mut at: usize = 0;
    while at < whole.len()
        invariant
            wanted@ == part@,
            at <= whole@.len(),
            forall|k: int| 0 <= k < at ==> !#[trigger] stands_at(part@, whole@, k),
        decreases whole.len() - at,
    {
        if found_at(&wanted, whole, at) {
            return true;
        }
        at += 1;
    }
    found_at(&wanted, whole, at)
}

/// Whether `s` begins with `prefix`.
pub fn starts_with(s: &Vec<char>, prefix: &str) -> (r: bool)
    ensures
        r == prefix@.is_prefix_of(s@),
{
    let prefix = chars_of(prefix);
    let r = found_at(&prefix, s, 0);
    assert(r == prefix@.is_prefix_of(s@)) by {
        if prefix@.len() <= s@.len() {
            assert(s@.subrange(0, prefix@.len() as int) =~= s@.take(prefix@.len() as int));
        }
    }
    r
}

/// Whether `a` and `b` agree, ASCII case aside.
pub fn eq_ignore_case(a: &str, b: &str) -> (r: bool)
    ensures
        r == equal_ignoring_case(a@, b@),
{
    let left = chars_of(a);
    let right = chars_of(b);
    if left.len() != right.len() {
        return false;
    }
    let mut i: usize = 0;
    while i < left.len()
        invariant
            left@ == a@,
            right@ == b@,
            i <= left@.len(),
            left@.len() == right@.len(),
            forall|j: int| 0 <= j < i ==> ascii_lower(#[trigger] a@[j]) == ascii_lower(b@[j]),
        decreases left.len() - i,
    {
        if !same_letter(left[i], right[i]) {
            assert(ascii_lower(a@[i as int]) != ascii_lower(b@[i as int]));
            return false;
        }
        i += 1;
    }
    true
}

/// Whether `a` and `b` are the same text.
pub fn same_text(a: &str, b: &str) -> (r: bool)
    ensures
        r == (a@ == b@),
{
    let a = chars_of(a);
    let b = chars_of(b);
    let r = a.len() == b.len() && found_at(&a, &b, 0);
    assert(a@.len() == b@.len() ==> b@.subrange(0, a@.len() as int) =~= b@);
    r
}

// ---------------------------------------------------------------------------
// Trimming
// ---------------------------------------------------------------------------

/// `s` without its leading white space.
pub open spec fn trim_start(s: Seq<char>) -> Seq<char>
    decreases s.len(),
{
    if s.len() > 0 && white_space(s[0]) {
        trim_start(s.skip(1))
    } else {
        s
    }
}

/// `s` without its trailing white space.
pub open spec fn trim_end(s: Seq<char>) -> Seq<char>
    decreases s.len(),
{
    if s.len() > 0 && white_space(s.last()) {
        trim_end(s.drop_last())
    } else {
        s
    }
}

/// `s` without the white space at its two ends.
pub open spec fn trimmed(s: Seq<char>) -> Seq<char> {
    trim_end(trim_start(s))
}

/// `s` without the copies of `prefix` that it begins with.
pub open spec fn without_leading(s: Seq<char>, prefix: Seq<char>) -> Seq<char>
    decreases s.len(),
{
    if prefix.len() > 0 && prefix.is_prefix_of(s) {
        without_leading(s.skip(prefix.len() as int), prefix)
    } else {
        s
    }
}

/// `s` without the copies of `last` that it ends with.
pub open spec fn without_trailing(s: Seq<char>, last: char) -> Seq<char>
    decreases s.len(),
{
    if s.len() > 0 && s.last() == last {
        without_trailing(s.drop_last(), last)
    } else {
        s
    }
}

/// The text `chars` without the white space at its two ends.
pub fn trim_chars(chars: &Vec<char>) -> (r: String)
    ensures
        r@ == trimmed(chars@),
{
    let mut from: usize = 0;
    assert(chars@.skip(0) =~= chars@);
    while from < chars.len() && is_white_space(chars[from])
        invariant
            from <= chars@.len(),
            trim_start(chars@) == trim_start(chars@.skip(from as int)),
        decreases chars.len() - from,
    {
        assert(chars@.skip(from as int).skip(1) =~= chars@.skip(from + 1));
        from += 1;
    }
    assert(trim_start(chars@) == chars@.skip(from as int));
    let mut to: usize = chars.len();
    assert(chars@.skip(from as int) =~= chars@.subrange(from as int, to as int));
    while from < to && is_white_space(chars[to - 1])
        invariant
            from <= to <= chars@.len(),
            trimmed(chars@) == trim_end(chars@.subrange(from as int, to as int)),
        decreases to,
    {
        assert(chars@.subrange(from as int, to as int).drop_last() =~= chars@.subrange(
            from as int,
            to - 1,
        ));
        to -= 1;
    }
    string_of(chars, from, to)
}

/// The text `s` without the white space at its two ends.
pub fn trim(s: &str) -> (r: String)
    ensures
        r@ == trimmed(s@),
{
    trim_chars(&chars_of(s))
}

/// `s` without the copies of `prefix` that it begins with.
pub fn trim_start_matches(s: &str, prefix: &str) -> (r: String)
    ensures
        r@ == without_leading(s@, prefix@),
{
    let chars = chars_of(s);
    let wanted = chars_of(prefix);
    if wanted.len() == 0 {
        return string_of_all(&chars);
    }
    let mut from: usize = 0;
    assert(chars@.skip(0) =~= chars@);
    while found_at(&wanted, &chars, from)
        invariant
            wanted@ == prefix@,
            wanted@.len() > 0,
            chars@ == s@,
            from <= chars@.len(),
            without_leading(s@, prefix@) == without_leading(chars@.skip(from as int), prefix@),
        decreases chars.len() - from,
    {
        let ghost rest = chars@.skip(from as int);
        proof {
            assert(rest.subrange(0, prefix@.len() as int) =~= chars@.subrange(
                from as int,
                from + wanted@.len(),
            ));
            assert(rest.skip(prefix@.len() as int) =~= chars@.skip(from + wanted@.len()));
        }
        from += wanted.len();
    }
    proof {
        let rest = chars@.skip(from as int);
        if prefix@.is_prefix_of(rest) {
            assert(rest.subrange(0, prefix@.len() as int) =~= chars@.subrange(
                from as int,
                from + prefix@.len(),
            ));
        }
        assert(rest =~= chars@.subrange(from as int, chars@.len() as int));
    }
    string_of(&chars, from, chars.len())
}

/// `s` without the copies of `last` that it ends with.
pub fn trim_end_matches(s: &str, last: char) -> (r: String)
    ensures
        r@ == without_trailing(s@, last),
{
    let chars = chars_of(s);
    let mut to: usize = chars.len();
    assert(chars@.take(to as int) =~= chars@);
    while to > 0 && chars[to - 1] == last
        invariant
            to <= chars@.len(),
            chars@ == s@,
            without_trailing(s@, last) == without_trailing(chars@.take(to as int), last),
        decreases to,
    {
        assert(chars@.take(to as int).drop_last() =~= chars@.take(to - 1));
        to -= 1;
    }
    assert(chars@.take(to as int) =~= chars@.subrange(0, to as int));
    string_of(&chars, 0, to)
}

/// The rest of `s` behind `prefix`, if `s` begins with it.
pub fn strip_prefix(s: &str, prefix: &str) -> (r: Option<String>)
    ensures
        r is Some <==> prefix@.is_prefix_of(s@),
        r matches Some(rest) ==> rest@ == s@.skip(prefix@.len() as int),
{
    let chars = chars_of(s);
    if starts_with(&chars, prefix) {
        let from: usize = chars_of(prefix).len();
        let rest = string_of(&chars, from, chars.len());
        assert(rest@ =~= s@.skip(prefix@.len() as int));
        Some(rest)
    } else {
        None
    }
}

/// The string made of all the characters `chars`.
pub fn string_of_all(chars: &Vec<char>) -> (s: String)
    ensures
        s@ == chars@,
{
    let s = string_of(chars, 0, chars.len());
    assert(s@ =~= chars@);
    s
}

/// What is left of a text without its leading copies of a prefix does not begin
/// with the prefix, and is an end of the text.
pub proof fn no_leading_copy_is_left(s: Seq<char>, prefix: Seq<char>)
    requires
        prefix.len() > 0,
    ensures
        !prefix.is_prefix_of(without_leading(s, prefix)),
        without_leading(s, prefix).is_suffix_of(s),
    decreases s.len(),
{
    if prefix.is_prefix_of(s) {
        let rest = s.skip(prefix.len() as int);
        no_leading_copy_is_left(rest, prefix);
        let left = without_leading(s, prefix);
        assert(rest.subrange(rest.len() - left.len(), rest.len() as int) =~= s.subrange(
            s.len() - left.len(),
            s.len() as int,
        ));
    } else {
        assert(s.subrange(0, s.len() as int) =~= s);
    }
}

// ---------------------------------------------------------------------------
// Clipping
// ---------------------------------------------------------------------------

/// `s` where it has at most `limit` characters; else its beginning and an
/// ellipsis, `limit` characters together, or nothing where `limit` leaves no
/// room for both.
pub open spec fn clipped(s: Seq<char>, limit: nat) -> Seq<char> {
    if s.len() <= limit {
        s
    } else if limit <= 1 {
        Seq::empty()
    } else {
        s.take(limit - 1).push(ELLIPSIS)
    }
}

/// Clips `input` to `max_chars` characters.
pub fn clip_text(input: &str, max_chars: usize) -> (r: String)
    ensures
        r@ == clipped(input@, max_chars as nat),
{
    let chars = chars_of(input);
    if chars.len() <= max_chars {
        return string_of_all(&chars);
    }
    if max_chars <= 1 {
        return String::new();
    }
    let mut r = string_of(&chars, 0, max_chars - 1);
    r.push(ELLIPSIS);
    assert(r@ =~= input@.take(max_chars - 1).push(ELLIPSIS));
    r
}

/// Fits the label of a meter into `max_chars` characters.
pub fn fit_label(label: &str, max_chars: usize) -> (r: String)
    ensures
        r@ == clipped(label@, max_chars as nat),
{
    clip_text(label, max_chars)
}

/// A clipped text never has more characters than the limit, and clipping it
/// again changes nothing.
pub proof fn clipped_text_fits(s: Seq<char>, limit: nat)
    ensures
        clipped(s, limit).len() <= limit,
        clipped(clipped(s, limit), limit) == clipped(s, limit),
{
}

/// Clipping to one limit and then to another is clipping to the smaller.
pub proof fn clipping_twice_is_clipping_to_the_smaller(s: Seq<char>, m: nat, n: nat)
    ensures
        clipped(clipped(s, m), n) == clipped(s, if m <= n { m } else { n }),
{
    if s.len() > m && n < m && n > 1 {
        assert(clipped(s, m).take(n - 1) =~= s.take(n - 1));
    }
}

/// Clipping keeps what stands before the ellipsis: the result without it is a
/// beginning of the text.
pub proof fn clipped_text_begins_as_the_text(s: Seq<char>, limit: nat)
    ensures
        clipped(s, limit) == s || clipped(s, limit).len() == 0 || (clipped(s, limit).last()
            == ELLIPSIS && clipped(s, limit).drop_last().is_prefix_of(s)),
{
    if s.len() > limit && limit > 1 {
        assert(clipped(s, limit).drop_last() =~= s.subrange(0, limit - 1));
    }
}

// ---------------------------------------------------------------------------
// Numerals
// ---------------------------------------------------------------------------

/// The decimal digit for `d`.
pub open spec fn digit(d: nat) -> char {
    (0x30 + d) as char
}

/// The decimal numeral of `n`, without leading zeros.
pub open spec fn decimal(n: nat) -> Seq<char>
    decreases n,
{
    if n < 10 {
        seq![digit(n)]
    } else {
        decimal(n / 10).push(digit(n % 10))
    }
}

/// The decimal numeral of `n`, with a minus sign where `n` is negative.
pub open spec fn signed_decimal(n: int) -> Seq<char> {
    if n < 0 {
        seq!['-'] + decimal((-n) as nat)
    } else {
        decimal(n as nat)
    }
}

/// The number that a decimal numeral stands for.
pub open spec fn numeral_value(s: Seq<char>) -> nat
    decreases s.len(),
{
    if s.len() == 0 {
        0
    } else {
        10 * numeral_value(s.drop_last()) + (s.last() as nat - 0x30) as nat
    }
}

/// A decimal numeral stands for the number it was made of, and begins with a
/// zero only if it is that of zero.
pub proof fn decimal_reads_back(n: nat)
    ensures
        numeral_value(decimal(n)) == n,
        decimal(n).len() > 0,
        decimal(n)[0] == '0' ==> n == 0,
    decreases n,
{
    if n < 10 {
        assert(decimal(n).drop_last() =~= Seq::empty());
        assert(digit(n) as nat == 0x30 + n);
        assert(numeral_value(Seq::empty()) == 0);
    } else {
        decimal_reads_back(n / 10);
        assert(decimal(n).drop_last() =~= decimal(n / 10));
        assert(digit(n % 10) as nat == 0x30 + n % 10);
    }
}

/// The decimal numeral of `n`.
pub fn decimal_text(n: u64) -> (r: String)
    ensures
        r@ == decimal(n as nat),
    decreases n,
{
    let d: u8 = (n % 10) as u8;
    let c: char = (0x30u8 + d) as char;
    let mut r = if n < 10 {
        String::new()
    } else {
        decimal_text(n / 10)
    };
    r.push(c);
    assert(r@ =~= decimal(n as nat));
    r
}

/// The decimal numeral of `n`, with its sign.
pub fn signed_decimal_text(n: i32) -> (r: String)
    ensures
        r@ == signed_decimal(n as int),
{
    if n < 0 {
        let size: u64 = (-(n as i64)) as u64;
        let mut r = String::new();
        r.push('-');
        r.append(decimal_text(size).as_str());
        assert(r@ =~= signed_decimal(n as int));
        r
    } else {
        decimal_text(n as u64)
    }
}


// ---------------------------------------------------------------------------
// Laws
// ---------------------------------------------------------------------------

/// A text is found wherever it stands between two others, and nowhere else.
pub proof fn part_is_found_between_any_texts(a: Seq<char>, part: Seq<char>, b: Seq<char>)
    ensures
        occurs(part, a + part + b),
{
    let whole = a + part + b;
    assert(whole.subrange(a.len() as int, (a.len() + part.len()) as int) =~= part);
    assert(stands_at(part, whole, a.len() as int));
}

/// Where a text is found in another, that one is the text with something before
/// it and something behind.
pub proof fn found_part_splits_the_text(part: Seq<char>, whole: Seq<char>)
    ensures
        occurs(part, whole) ==> exists|a: Seq<char>, b: Seq<char>|
            #![trigger a + part + b]
            whole == a + part + b,
{
    if occurs(part, whole) {
        let at = choose|at: int| stands_at(part, whole, at);
        let a = whole.take(at);
        let b = whole.skip(at + part.len());
        let middle = whole.subrange(at, at + part.len());
        assert(whole =~= a + middle + b);
    }
}

/// `a` is an ASCII capital, and `b` its small letter.
pub open spec fn capital_of(a: char, b: char) -> bool {
    'A' <= a <= 'Z' && b as u32 == a as u32 + 0x20
}

/// Two texts agree but for the case exactly when they are as long as each other,
/// and wherever they differ, one has an ASCII capital and the other its small
/// letter.
pub proof fn case_is_all_that_is_ignored(a: Seq<char>, b: Seq<char>)
    ensures
        equal_ignoring_case(a, b) <==> a.len() == b.len() && forall|i: int|
            0 <= i < a.len() ==> #[trigger] a[i] == b[i] || capital_of(a[i], b[i]) || capital_of(
                b[i],
                a[i],
            ),
{
    if a.len() == b.len() {
        assert forall|i: int| 0 <= i < a.len() implies (ascii_lower(#[trigger] a[i])
            == ascii_lower(b[i]) <==> a[i] == b[i] || capital_of(a[i], b[i]) || capital_of(
            b[i],
            a[i],
        )) by {
            lowered_letters_agree(a[i], b[i]);
        }
    }
}

proof fn lowered_letters_agree(c: char, d: char)
    ensures
        ascii_lower(c) == ascii_lower(d) <==> c == d || capital_of(c, d) || capital_of(d, c),
{
    let m = c as u32;
    let n = d as u32;
    assert(ascii_lower(c) as u32 == if 0x41 <= m <= 0x5a { (m + 0x20) as u32 } else { m });
    assert(ascii_lower(d) as u32 == if 0x41 <= n <= 0x5a { (n + 0x20) as u32 } else { n });
    assert(capital_of(c, d) <==> 0x41 <= m <= 0x5a && n == m + 0x20);
    assert(capital_of(d, c) <==> 0x41 <= n <= 0x5a && m == n + 0x20);
    assert(c == d <==> m == n);
    assert(ascii_lower(c) == ascii_lower(d) <==> ascii_lower(c) as u32 == ascii_lower(d) as u32);
}

/// Every character of the text is white space.
pub open spec fn blank(s: Seq<char>) -> bool {
    forall|i: int| 0 <= i < s.len() ==> white_space(#[trigger] s[i])
}

/// The text neither begins nor ends with white space.
pub open spec fn no_white_ends(s: Seq<char>) -> bool {
    s.len() > 0 ==> !white_space(s[0]) && !white_space(s.last())
}

proof fn leading_blanks_go(w: Seq<char>, s: Seq<char>)
    requires
        blank(w),
        s.len() > 0 ==> !white_space(s[0]),
    ensures
        trim_start(w + s) == s,
    decreases w.len(),
{
    if w.len() == 0 {
        assert(w + s =~= s);
    } else {
        assert(white_space(w[0]));
        assert((w + s)[0] == w[0]);
        assert((w + s).skip(1) =~= w.skip(1) + s);
        leading_blanks_go(w.skip(1), s);
    }
}

proof fn trailing_blanks_go(s: Seq<char>, w: Seq<char>)
    requires
        blank(w),
        s.len() > 0 ==> !white_space(s.last()),
    ensures
        trim_end(s + w) == s,
    decreases w.len(),
{
    if w.len() == 0 {
        assert(s + w =~= s);
    } else {
        assert(white_space(w.last()));
        assert((s + w).last() == w.last());
        assert((s + w).drop_last() =~= s + w.drop_last());
        trailing_blanks_go(s, w.drop_last());
    }
}

/// Trimming takes the white space around a text away, all of it, and nothing
/// else: what stands between is kept, the white space inside it too.
pub proof fn trimming_removes_the_blanks_around(before: Seq<char>, s: Seq<char>, behind: Seq<char>)
    requires
        blank(before),
        blank(behind),
        no_white_ends(s),
    ensures
        trimmed(before + s + behind) == s,
{
    assert(before + s + behind =~= before + (s + behind));
    if s.len() > 0 {
        leading_blanks_go(before, s + behind);
        trailing_blanks_go(s, behind);
    } else {
        let all = before + behind;
        assert(before + (s + behind) =~= all + Seq::empty());
        assert forall|i: int| 0 <= i < all.len() implies white_space(#[trigger] all[i]) by {
            if i < before.len() {
                assert(white_space(before[i]));
            } else {
                assert(white_space(behind[i - before.len()]));
            }
        }
        leading_blanks_go(all, Seq::empty());
    }
}

/// However often a prefix is repeated before a text, it is removed as often; and
/// a text that does not begin with it is kept.
pub proof fn leading_copies_are_removed_one_by_one(s: Seq<char>, prefix: Seq<char>)
    requires
        prefix.len() > 0,
    ensures
        without_leading(prefix + s, prefix) == without_leading(s, prefix),
        !prefix.is_prefix_of(s) ==> without_leading(s, prefix) == s,
{
    assert((prefix + s).subrange(0, prefix.len() as int) =~= prefix);
    assert((prefix + s).skip(prefix.len() as int) =~= s);
}

/// What is taken off the end of a text is copies of the character, all of them,
/// and nothing else.
pub proof fn only_trailing_copies_are_removed(s: Seq<char>, last: char)
    ensures
        without_trailing(s, last).is_prefix_of(s),
        without_trailing(s, last).len() > 0 ==> without_trailing(s, last).last() != last,
        forall|i: int| without_trailing(s, last).len() <= i < s.len() ==> #[trigger] s[i] == last,
    decreases s.len(),
{
    let r = without_trailing(s, last);
    if s.len() > 0 && s.last() == last {
        let front = s.drop_last();
        only_trailing_copies_are_removed(front, last);
        assert(front.subrange(0, r.len() as int) =~= s.subrange(0, r.len() as int));
        assert forall|i: int| r.len() <= i < s.len() implies #[trigger] s[i] == last by {
            if i < front.len() {
                assert(front[i] == s[i]);
            }
        }
    } else {
        assert(s.subrange(0, s.len() as int) =~= s);
    }
}

/// A text that fits is kept as it is, however much room there is. One that does
/// not fit takes all of the room: it is cut so that the ellipsis is its last
/// character, and every character before that is the text's own. Where there is
/// no room for a character and the ellipsis, nothing is left.
pub proof fn clipping_uses_all_of_the_room(s: Seq<char>, limit: nat)
    ensures
        s.len() <= limit ==> clipped(s, limit) == s,
        s.len() > limit && limit > 1 ==> clipped(s, limit).len() == limit && clipped(
            s,
            limit,
        ).last() == '\u{2026}' && forall|i: int|
            0 <= i < limit - 1 ==> #[trigger] clipped(s, limit)[i] == s[i],
        s.len() > limit && limit <= 1 ==> clipped(s, limit).len() == 0,
{
}

/// The numeral of a number is made of decimal digits.
pub proof fn decimal_is_made_of_digits(n: nat)
    ensures
        forall|i: int| 0 <= i < decimal(n).len() ==> '0' <= #[trigger] decimal(n)[i] <= '9',
    decreases n,
{
    if n < 10 {
        assert(digit(n) as nat == 0x30 + n);
    } else {
        decimal_is_made_of_digits(n / 10);
        assert(digit(n % 10) as nat == 0x30 + n % 10);
        assert forall|i: int| 0 <= i < decimal(n).len() implies '0' <= #[trigger] decimal(n)[i]
            <= '9' by {
            if i < decimal(n / 10).len() {
                assert(decimal(n)[i] == decimal(n / 10)[i]);
            }
        }
    }
}

/// The numeral of a negative number is a minus sign and the numeral of its
/// amount, and that of any other number has no sign: so it stands for the number
/// that it was made of.
pub proof fn signed_decimal_reads_back(n: int)
    ensures
        n < 0 <==> signed_decimal(n)[0] == '-',
        n < 0 ==> numeral_value(signed_decimal(n).skip(1)) == -n && signed_decimal(n).skip(1)
            == decimal((-n) as nat),
        n >= 0 ==> numeral_value(signed_decimal(n)) == n && signed_decimal(n) == decimal(n as nat),
{
    if n < 0 {
        decimal_reads_back((-n) as nat);
        assert(signed_decimal(n).skip(1) =~= decimal((-n) as nat));
    } else {
        decimal_reads_back(n as nat);
        decimal_is_made_of_digits(n as nat);
        assert('0' <= decimal(n as nat)[0]);
    }
}

/// A control sequence ends with a character from the at sign to the tilde; the
/// control codes are those below the blank, and those from delete to the last of
/// the second set.
pub proof fn classes_of_characters(c: char)
    ensures
        final_byte(c) <==> '@' <= c <= '~',
        control(c) <==> c < ' ' || '\u{7f}' <= c <= '\u{9f}',
        ESCAPE == '\u{1b}',
        ELLIPSIS == '\u{2026}',
{
}

} // verus!
