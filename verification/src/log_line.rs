//! Lines of the device's log: making them safe to print.

use vstd::prelude::*;
use vstd::string::*;

use crate::text;
use crate::text::{chars_of, is_control, trim_chars, ESCAPE};

verus! {

/// What follows a control sequence whose opening `ESC [` stands before `s`:
/// everything behind its final byte, or nothing where it has none.
pub open spec fn after_sequence(s: Seq<char>) -> Seq<char>
    decreases s.len(),
{
    if s.len() == 0 {
        s
    } else if text::final_byte(s[0]) {
        s.skip(1)
    } else {
        after_sequence(s.skip(1))
    }
}

/// What remains of `s` on the right of its first character, or of the control
/// sequence that it begins with.
pub open spec fn after_first(s: Seq<char>) -> Seq<char> {
    if s.len() >= 2 && s[0] == ESCAPE && s[1] == '[' {
        after_sequence(s.skip(2))
    } else {
        s.skip(1)
    }
}

/// What is printed for the first character of a line: two blanks for a tab,
/// nothing for another control code, and any other character itself.
pub open spec fn printed(c: char) -> Seq<char> {
    if c == '\t' {
        seq![' ', ' ']
    } else if text::control(c) {
        Seq::empty()
    } else {
        seq![c]
    }
}

/// `s` without its control sequences and control codes.
pub open spec fn plain(s: Seq<char>) -> Seq<char>
    decreases s.len(),
{
    if s.len() == 0 {
        s
    } else {
        proof {
            after_sequence_shrinks(s.skip(2));
        }
        printed(s[0]) + plain(after_first(s))
    }
}

/// The line that is kept of `s`: its plain text, trimmed.
pub open spec fn sanitized(s: Seq<char>) -> Seq<char> {
    text::trimmed(plain(s))
}

/// What follows a control sequence is no longer than what it was read from.
pub proof fn after_sequence_shrinks(s: Seq<char>)
    ensures
        after_sequence(s).len() <= s.len(),
    decreases s.len(),
{
    if s.len() > 0 && !text::final_byte(s[0]) {
        after_sequence_shrinks(s.skip(1));
    }
}

/// The index behind the control sequence whose text starts at `from`.
fn skip_sequence(chars: &Vec<char>, from: usize) -> (to: usize)
    requires
        from <= chars@.len(),
    ensures
        from <= to <= chars@.len(),
        chars@.skip(to as int) == after_sequence(chars@.skip(from as int)),
{
    let mut i: usize = from;
    while i < chars.len()
        invariant
            from <= i <= chars@.len(),
            after_sequence(chars@.skip(from as int)) == after_sequence(chars@.skip(i as int)),
        decreases chars.len() - i,
    {
        let c: char = chars[i];
        assert(chars@.skip(i as int).skip(1) =~= chars@.skip(i + 1));
        i += 1;
        let n: u32 = c as u32;
        if 0x40 <= n && n <= 0x7e {
            return i;
        }
    }
    i
}

/// Makes a line of the log safe to print.
pub fn sanitize_log_line(input: &str) -> (r: String)
    ensures
        r@ == sanitized(input@),
{
    let chars = chars_of(input);
    let mut out: Vec<char> = Vec::new();
    let mut i: usize = 0;
    assert(chars@.skip(0) =~= chars@);
    while i < chars.len()
        invariant
            chars@ == input@,
            i <= chars@.len(),
            plain(input@) == out@ + plain(chars@.skip(i as int)),
        decreases chars.len() - i,
    {
        let c: char = chars[i];
        let ghost rest = chars@.skip(i as int);
        let ghost before = out@;
        if c == '\t' {
            out.push(' ');
            out.push(' ');
        } else if !is_control(c) {
            out.push(c);
        }
        assert(out@ =~= before + printed(rest[0]));
        if c == ESCAPE && i + 1 < chars.len() && chars[i + 1] == '[' {
            assert(rest.skip(2) =~= chars@.skip(i + 2));
            i = skip_sequence(&chars, i + 2);
        } else {
            assert(rest.skip(1) =~= chars@.skip(i + 1));
            i += 1;
        }
        assert(chars@.skip(i as int) == after_first(rest));
        assert(before + (printed(rest[0]) + plain(after_first(rest))) =~= out@ + plain(
            after_first(rest),
        ));
    }
    assert(out@ =~= plain(input@));
    trim_chars(&out)
}

// ---------------------------------------------------------------------------
// Laws
// ---------------------------------------------------------------------------

/// Every character of `s` can be printed: none is a control code.
pub open spec fn printable(s: Seq<char>) -> bool {
    forall|i: int| 0 <= i < s.len() ==> !text::control(#[trigger] s[i])
}

/// The plain text of a line holds no control code.
proof fn plain_is_printable(s: Seq<char>)
    ensures
        printable(plain(s)),
    decreases s.len(),
{
    if s.len() > 0 {
        after_sequence_shrinks(s.skip(2));
        plain_is_printable(after_first(s));
    }
}

/// A line without control codes is its own plain text.
proof fn printable_is_plain(s: Seq<char>)
    requires
        printable(s),
    ensures
        plain(s) == s,
    decreases s.len(),
{
    if s.len() > 0 {
        assert(!text::control(s[0]));
        assert forall|i: int| 0 <= i < s.skip(1).len() implies !text::control(#[trigger] s.skip(1)[i]) by {
            assert(s.skip(1)[i] == s[i + 1]);
        }
        printable_is_plain(s.skip(1));
        assert(s =~= seq![s[0]] + s.skip(1));
    }
}

/// Trimming cuts a piece out of the text.
proof fn trim_start_cuts(s: Seq<char>) -> (from: int)
    ensures
        0 <= from <= s.len(),
        text::trim_start(s) == s.skip(from),
        text::trim_start(s).len() > 0 ==> !text::white_space(text::trim_start(s)[0]),
    decreases s.len(),
{
    if s.len() > 0 && text::white_space(s[0]) {
        let from = trim_start_cuts(s.skip(1));
        assert(s.skip(1).skip(from) =~= s.skip(from + 1));
        from + 1
    } else {
        assert(s.skip(0) =~= s);
        0
    }
}

proof fn trim_end_cuts(s: Seq<char>) -> (to: int)
    ensures
        0 <= to <= s.len(),
        text::trim_end(s) == s.take(to),
        text::trim_end(s).len() > 0 ==> !text::white_space(text::trim_end(s).last()),
    decreases s.len(),
{
    if s.len() > 0 && text::white_space(s.last()) {
        let to = trim_end_cuts(s.drop_last());
        assert(s.drop_last().take(to) =~= s.take(to));
        to
    } else {
        assert(s.take(s.len() as int) =~= s);
        s.len() as int
    }
}

/// A trimmed text begins and ends with something other than white space, and
/// trimming it again changes nothing.
pub proof fn trimmed_text_has_no_white_ends(s: Seq<char>)
    ensures
        text::trimmed(s).len() > 0 ==> !text::white_space(text::trimmed(s)[0]) && !text::white_space(text::trimmed(s).last()),
        text::trimmed(text::trimmed(s)) == text::trimmed(s),
{
    let from = trim_start_cuts(s);
    let to = trim_end_cuts(text::trim_start(s));
}

/// A sanitized line holds no control code (so neither an escape sequence nor a
/// line break), and it has no white space at its ends.
pub proof fn sanitized_line_is_printable(s: Seq<char>)
    ensures
        printable(sanitized(s)),
        sanitized(s).len() > 0 ==> !text::white_space(sanitized(s)[0]) && !text::white_space(
            sanitized(s).last(),
        ),
{
    plain_is_printable(s);
    trimmed_text_has_no_white_ends(plain(s));
    let from = trim_start_cuts(plain(s));
    let to = trim_end_cuts(text::trim_start(plain(s)));
    assert forall|i: int| 0 <= i < sanitized(s).len() implies !text::control(
        #[trigger] sanitized(s)[i],
    ) by {
        assert(sanitized(s)[i] == plain(s)[from + i]);
    }
}

/// Sanitizing a line a second time changes nothing.
pub proof fn sanitizing_twice_is_sanitizing_once(s: Seq<char>)
    ensures
        sanitized(sanitized(s)) == sanitized(s),
{
    sanitized_line_is_printable(s);
    printable_is_plain(sanitized(s));
    trimmed_text_has_no_white_ends(plain(s));
}

/// No character of `s` is the escape character.
pub open spec fn no_escape(s: Seq<char>) -> bool {
    forall|i: int| 0 <= i < s.len() ==> #[trigger] s[i] != ESCAPE
}

/// No character of `s` can end a control sequence.
pub open spec fn no_final_byte(s: Seq<char>) -> bool {
    forall|i: int| 0 <= i < s.len() ==> !text::final_byte(#[trigger] s[i])
}

/// The opening of a control sequence, followed by `rest`.
pub open spec fn opened(rest: Seq<char>) -> Seq<char> {
    seq![ESCAPE, '['] + rest
}

/// What stands before the first escape character is made plain by itself.
proof fn plain_splits(a: Seq<char>, b: Seq<char>)
    requires
        no_escape(a),
    ensures
        plain(a + b) == plain(a) + plain(b),
    decreases a.len(),
{
    if a.len() == 0 {
        assert(a + b =~= b);
        assert(plain(a) + plain(b) =~= plain(b));
    } else {
        let rest = a.skip(1);
        assert forall|i: int| 0 <= i < rest.len() implies #[trigger] rest[i] != ESCAPE by {
            assert(rest[i] == a[i + 1]);
        }
        plain_splits(rest, b);
        assert(a[0] != ESCAPE);
        assert((a + b)[0] == a[0]);
        assert((a + b).skip(1) =~= rest + b);
        assert(printed(a[0]) + (plain(rest) + plain(b)) =~= printed(a[0]) + plain(rest) + plain(
            b,
        ));
    }
}

/// A control sequence ends with its first final byte.
proof fn sequence_ends_with_its_final_byte(params: Seq<char>, last: char, rest: Seq<char>)
    requires
        no_final_byte(params),
        text::final_byte(last),
    ensures
        after_sequence(params.push(last) + rest) == rest,
    decreases params.len(),
{
    let s = params.push(last) + rest;
    if params.len() == 0 {
        assert(s[0] == last);
        assert(s.skip(1) =~= rest);
    } else {
        let fewer = params.skip(1);
        assert forall|i: int| 0 <= i < fewer.len() implies !text::final_byte(
            #[trigger] fewer[i],
        ) by {
            assert(fewer[i] == params[i + 1]);
        }
        sequence_ends_with_its_final_byte(fewer, last, rest);
        assert(!text::final_byte(params[0]));
        assert(s[0] == params[0]);
        assert(s.skip(1) =~= fewer.push(last) + rest);
    }
}

/// A control sequence without a final byte has no end.
proof fn sequence_without_final_byte_has_no_end(params: Seq<char>)
    requires
        no_final_byte(params),
    ensures
        after_sequence(params).len() == 0,
    decreases params.len(),
{
    if params.len() > 0 {
        let fewer = params.skip(1);
        assert forall|i: int| 0 <= i < fewer.len() implies !text::final_byte(
            #[trigger] fewer[i],
        ) by {
            assert(fewer[i] == params[i + 1]);
        }
        sequence_without_final_byte_has_no_end(fewer);
        assert(!text::final_byte(params[0]));
    }
}

/// What is left of a line that begins with a control sequence.
proof fn opened_leaves_what_follows(rest: Seq<char>)
    ensures
        plain(opened(rest)) == plain(after_sequence(rest)),
{
    let s = opened(rest);
    assert(s[0] == ESCAPE && s[1] == '[');
    assert(s.skip(2) =~= rest);
    assert(printed(ESCAPE) + plain(after_sequence(rest)) =~= plain(after_sequence(rest)));
}

/// A control sequence leaves nothing behind: a line with one between `a` and `b`
/// comes to what `a` and `b` alone come to, where it is the first of the line.
pub proof fn control_sequence_leaves_nothing(
    a: Seq<char>,
    params: Seq<char>,
    last: char,
    b: Seq<char>,
)
    requires
        no_escape(a),
        no_final_byte(params),
        text::final_byte(last),
    ensures
        plain(a + opened(params.push(last) + b)) == plain(a + b),
        sanitized(a + opened(params.push(last) + b)) == sanitized(a + b),
{
    plain_splits(a, opened(params.push(last) + b));
    plain_splits(a, b);
    opened_leaves_what_follows(params.push(last) + b);
    sequence_ends_with_its_final_byte(params, last, b);
}

/// A control sequence that the line breaks off leaves nothing behind either.
pub proof fn unfinished_sequence_leaves_nothing(a: Seq<char>, params: Seq<char>)
    requires
        no_escape(a),
        no_final_byte(params),
    ensures
        plain(a + opened(params)) == plain(a),
        sanitized(a + opened(params)) == sanitized(a),
{
    plain_splits(a, opened(params));
    opened_leaves_what_follows(params);
    sequence_without_final_byte_has_no_end(params);
    assert(plain(a) + plain(after_sequence(params)) =~= plain(a));
}

/// A line that is printable and has no white ends is kept as it is.
pub proof fn clean_line_is_kept(s: Seq<char>)
    requires
        printable(s),
        s.len() > 0 ==> !text::white_space(s[0]) && !text::white_space(s.last()),
    ensures
        sanitized(s) == s,
{
    printable_is_plain(s);
}


/// What follows a character that begins no control sequence is made plain by
/// itself.
proof fn plain_goes_on(a: Seq<char>, c: char, b: Seq<char>)
    requires
        no_escape(a),
        c == ESCAPE ==> b.len() == 0 || b[0] != '[',
    ensures
        plain(a + seq![c] + b) == plain(a) + printed(c) + plain(b),
{
    let rest = seq![c] + b;
    assert(a + seq![c] + b =~= a + rest);
    plain_splits(a, rest);
    assert(rest[0] == c);
    assert(rest.len() >= 2 ==> rest[1] == b[0]);
    assert(rest.skip(1) =~= b);
    assert(plain(a) + (printed(c) + plain(b)) =~= plain(a) + printed(c) + plain(b));
}

/// A tab counts as two blanks.
pub proof fn tab_is_two_blanks(a: Seq<char>, b: Seq<char>)
    requires
        no_escape(a),
    ensures
        plain(a + seq!['\t'] + b) == plain(a) + seq![' ', ' '] + plain(b),
        sanitized(a + seq!['\t'] + b) == sanitized(a + seq![' ', ' '] + b),
{
    plain_goes_on(a, '\t', b);
    let blanks = seq![' ', ' '];
    assert(a + blanks + b =~= a + (blanks + b));
    plain_splits(a, blanks + b);
    plain_splits(blanks, b);
    printable_is_plain(blanks);
    assert(plain(a) + (blanks + plain(b)) =~= plain(a) + blanks + plain(b));
}

/// Any other control code leaves nothing behind, a line break neither; nor does
/// an escape character that opens no control sequence.
pub proof fn control_code_leaves_nothing(a: Seq<char>, code: char, b: Seq<char>)
    requires
        no_escape(a),
        text::control(code),
        code != '\t',
        code == ESCAPE ==> b.len() == 0 || b[0] != '[',
    ensures
        plain(a + seq![code] + b) == plain(a) + plain(b),
        sanitized(a + seq![code] + b) == sanitized(a + b),
{
    plain_goes_on(a, code, b);
    plain_splits(a, b);
    assert(plain(a) + printed(code) + plain(b) =~= plain(a) + plain(b));
}

/// A character that can be printed is kept where it stands.
pub proof fn printable_character_is_kept(a: Seq<char>, c: char, b: Seq<char>)
    requires
        no_escape(a),
        !text::control(c),
    ensures
        plain(a + seq![c] + b) == plain(a) + seq![c] + plain(b),
{
    plain_goes_on(a, c, b);
}

/// Of a printable line, the blanks around it go, and everything else stays.
pub proof fn printable_line_is_only_trimmed(
    before: Seq<char>,
    s: Seq<char>,
    behind: Seq<char>,
)
    requires
        printable(before + s + behind),
        text::blank(before),
        text::blank(behind),
        text::no_white_ends(s),
    ensures
        sanitized(before + s + behind) == s,
{
    printable_is_plain(before + s + behind);
    text::trimming_removes_the_blanks_around(before, s, behind);
}

} // verus!
