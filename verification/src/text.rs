//! Text primitives shared by the rest of the crate: decimal numerals and the
//! division of a text into lines.
//!
//! Everything is specified over `Seq<char>`, the view of `str` and `String`.

use vstd::prelude::*;

verus! {

broadcast use vstd::string::group_string_axioms;

/// Appends one character to `text`.
///
/// Trusted: calls `String::push`, which std documents as appending the given
/// character to the end of the string.
#[verifier::external_body]
pub(crate) fn push_char(text: &mut String, c: char)
    ensures
        final(text)@ == old(text)@.push(c),
{
    text.push(c)
}

/// The views of a sequence of strings, element by element.
pub open spec fn views(strings: Seq<String>) -> Seq<Seq<char>> {
    Seq::new(strings.len(), |i: int| strings[i]@)
}

/// The characters of `text`, in order.
pub fn to_chars(text: &str) -> (chars: Vec<char>)
    ensures
        chars@ == text@,
{
    let mut chars: Vec<char> = Vec::new();
    for c in it: text.chars()
        invariant
            it.seq() == text@,
            chars@ == it.seq().take(it.index()),
    {
        chars.push(c);
    }
    assert(text@.take(text@.len() as int) =~= text@);
    chars
}

// ---------------------------------------------------------------------------
// Decimal numerals
// ---------------------------------------------------------------------------

/// Whether `c` is one of the ASCII digits `0` to `9`.
pub open spec fn is_digit(c: char) -> bool {
    48 <= c as u32 <= 57
}

/// The value of the ASCII digit `c`.
pub open spec fn digit_value(c: char) -> nat
    recommends
        is_digit(c),
{
    (c as u32 - 48) as nat
}

/// The ASCII digit that stands for `d`.
pub open spec fn digit_char(d: nat) -> char
    recommends
        d < 10,
{
    ((48 + d) as u8) as char
}

/// Whether every character of `s` is an ASCII digit.
pub open spec fn all_digits(s: Seq<char>) -> bool {
    forall|i: int| 0 <= i < s.len() ==> is_digit(#[trigger] s[i])
}

/// The number that the digit string `s` denotes in base ten. The empty
/// string denotes zero; leading zeros do not change the value.
pub open spec fn decimal_value(s: Seq<char>) -> nat
    recommends
        all_digits(s),
    decreases s.len(),
{
    if s.len() == 0 {
        0
    } else {
        10 * decimal_value(s.drop_last()) + digit_value(s.last())
    }
}

/// The shortest base-ten numeral of `n`: no sign, no leading zeros, and `"0"`
/// for zero.
pub open spec fn decimal_digits(n: nat) -> Seq<char>
    decreases n,
{
    if n < 10 {
        seq![digit_char(n)]
    } else {
        decimal_digits(n / 10).push(digit_char(n % 10))
    }
}

/// A numeral written by `decimal_digits` consists of digits only.
pub proof fn lemma_decimal_digits_are_digits(n: nat)
    ensures
        decimal_digits(n).len() >= 1,
        all_digits(decimal_digits(n)),
    decreases n,
{
    if n >= 10 {
        lemma_decimal_digits_are_digits(n / 10);
    }
}

/// Reading back a numeral written by `decimal_digits` gives the number it
/// was written from.
pub proof fn lemma_decimal_round_trip(n: nat)
    ensures
        decimal_value(decimal_digits(n)) == n,
    decreases n,
{
    if n < 10 {
        let s = decimal_digits(n);
        assert(s.drop_last() =~= Seq::<char>::empty());
        assert(decimal_value(s.drop_last()) == 0);
    } else {
        lemma_decimal_round_trip(n / 10);
        let s = decimal_digits(n);
        assert(s.drop_last() =~= decimal_digits(n / 10));
    }
}

/// The decimal digit of `d` as a character.
fn digit_of(d: u8) -> (c: char)
    requires
        d < 10,
    ensures
        c == digit_char(d as nat),
{
    (48u8 + d) as char
}

/// Appends the base-ten numeral of `n` to `text`.
pub fn append_decimal(text: &mut String, n: u64)
    ensures
        final(text)@ == old(text)@ + decimal_digits(n as nat),
    decreases n,
{
    if n >= 10 {
        append_decimal(text, n / 10);
    }
    push_char(text, digit_of((n % 10) as u8));
    proof {
        let before = old(text)@;
        if n >= 10 {
            assert(text@ =~= before + decimal_digits(n as nat));
        } else {
            assert(text@ =~= before + decimal_digits(n as nat));
        }
    }
}

/// The base-ten numeral of `n`.
pub fn format_decimal(n: u64) -> (text: String)
    ensures
        text@ == decimal_digits(n as nat),
{
    let mut text = String::new();
    append_decimal(&mut text, n);
    assert(text@ =~= decimal_digits(n as nat));
    text
}

// ---------------------------------------------------------------------------
// Lines
// ---------------------------------------------------------------------------

/// The characters of `text` that follow its last line feed: the line that no
/// line feed has closed yet.
pub open spec fn open_line(text: Seq<char>) -> Seq<char>
    decreases text.len(),
{
    if text.len() == 0 || text.last() == '\n' {
        Seq::empty()
    } else {
        open_line(text.drop_last()).push(text.last())
    }
}

/// `line` without the carriage return at its end, if it has one.
pub open spec fn without_carriage_return(line: Seq<char>) -> Seq<char> {
    if line.len() > 0 && line.last() == '\r' {
        line.drop_last()
    } else {
        line
    }
}

/// The lines of `text` that a line feed closes, in order, each without its
/// line feed and without the carriage return that may precede it.
pub open spec fn closed_lines(text: Seq<char>) -> Seq<Seq<char>>
    decreases text.len(),
{
    if text.len() == 0 {
        Seq::empty()
    } else if text.last() == '\n' {
        closed_lines(text.drop_last()).push(
            without_carriage_return(open_line(text.drop_last())),
        )
    } else {
        closed_lines(text.drop_last())
    }
}

/// The lines of `text`. A line ends at a line feed or at a carriage return
/// directly followed by a line feed; neither belongs to the line. The last
/// line needs no line ending, and is then kept as it stands, a trailing
/// carriage return included. An empty text has no lines.
pub open spec fn lines_of(text: Seq<char>) -> Seq<Seq<char>> {
    if open_line(text).len() > 0 {
        closed_lines(text).push(open_line(text))
    } else {
        closed_lines(text)
    }
}

/// A text without a line feed is one line, unless it is empty.
pub proof fn lemma_single_line(text: Seq<char>)
    requires
        forall|i: int| 0 <= i < text.len() ==> text[i] != '\n',
    ensures
        open_line(text) == text,
        closed_lines(text).len() == 0,
        lines_of(text) == if text.len() == 0 {
            Seq::<Seq<char>>::empty()
        } else {
            seq![text]
        },
    decreases text.len(),
{
    if text.len() > 0 {
        lemma_single_line(text.drop_last());
        assert(text.drop_last().push(text.last()) =~= text);
    }
    assert(closed_lines(text) =~= Seq::<Seq<char>>::empty());
    if text.len() > 0 {
        assert(Seq::<Seq<char>>::empty().push(text) =~= seq![text]);
    }
}

/// The lines of a text that goes on after a line feed are the lines up to
/// that line feed, followed by the lines of the rest.
pub proof fn lemma_lines_after_line_feed(head: Seq<char>, rest: Seq<char>)
    ensures
        open_line(head.push('\n') + rest) == open_line(rest),
        closed_lines(head.push('\n') + rest) == closed_lines(head.push('\n')) + closed_lines(rest),
        lines_of(head.push('\n') + rest) == lines_of(head.push('\n')) + lines_of(rest),
        lines_of(head.push('\n')) == closed_lines(head).push(
            without_carriage_return(open_line(head)),
        ),
    decreases rest.len(),
{
    let first = head.push('\n');
    let whole = first + rest;
    assert(first.drop_last() =~= head);
    if rest.len() == 0 {
        assert(whole =~= first);
        assert(closed_lines(first) + closed_lines(rest) =~= closed_lines(first));
    } else {
        lemma_lines_after_line_feed(head, rest.drop_last());
        assert(whole.drop_last() =~= first + rest.drop_last());
        assert(whole.last() == rest.last());
        let shorter = first + rest.drop_last();
        if rest.last() == '\n' {
            assert(closed_lines(whole) =~= closed_lines(first) + closed_lines(rest));
        } else {
            assert(closed_lines(whole) =~= closed_lines(first) + closed_lines(rest));
        }
    }
    assert(lines_of(whole) =~= lines_of(first) + lines_of(rest));
}

/// Splits `text` into its lines.
pub fn split_lines(text: &str) -> (lines: Vec<String>)
    ensures
        views(lines@) == lines_of(text@),
{
    let mut lines: Vec<String> = Vec::new();
    let mut current = String::new();
    let mut pending_cr = false;
    for c in it: text.chars()
        invariant
            it.seq() == text@,
            views(lines@) == closed_lines(it.seq().take(it.index())),
            open_line(it.seq().take(it.index())) == if pending_cr {
                current@.push('\r')
            } else {
                current@
            },
            !pending_cr ==> current@.len() == 0 || current@.last() != '\r',
    {
        proof {
            let done = it.seq().take(it.index());
            let next = it.seq().take(it.index() + 1);
            assert(next.drop_last() =~= done);
            assert(next.last() == c);
        }
        if c == '\n' {
            let ghost before = lines@;
            let ghost line = current@;
            assert(without_carriage_return(open_line(it.seq().take(it.index()))) == line) by {
                if pending_cr {
                    assert(line.push('\r').drop_last() =~= line);
                }
            }
            lines.push(current);
            current = String::new();
            pending_cr = false;
            assert(views(lines@) =~= views(before).push(line));
        } else {
            if pending_cr {
                push_char(&mut current, '\r');
            }
            if c == '\r' {
                pending_cr = true;
            } else {
                pending_cr = false;
                push_char(&mut current, c);
            }
        }
    }
    assert(text@.take(text@.len() as int) =~= text@);
    if pending_cr {
        push_char(&mut current, '\r');
    }
    if !current.as_str().is_empty() {
        let ghost before = lines@;
        lines.push(current);
        assert(views(lines@) =~= views(before).push(lines@.last()@));
    }
    lines
}

} // verus!
