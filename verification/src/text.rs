//! Text that notifications are made of: quoted words and decimal numbers.

use vstd::prelude::*;
use vstd::string::*;
use crate::platform::strings_view;

verus! {

/// What Rust's `Debug` formatting makes of a string: the text between double
/// quotes, with the characters escaped that cannot stand there as they are.
pub uninterp spec fn debug_quoted(text: Seq<char>) -> Seq<char>;

/// Formats `text` with `{:?}`, as `<str as Debug>::fmt` of the standard
/// library writes it. The contract only names that result; it claims that the
/// result depends on the characters of `text` alone.
#[verifier::external_body]
pub(crate) fn quote(text: &str) -> (quoted: String)
    ensures
        quoted@ == debug_quoted(text@),
{
    format!("{:?}", text)
}

/// The character of one decimal digit.
pub open spec fn digit(d: int) -> char
    recommends
        0 <= d < 10,
{
    if d == 0 {
        '0'
    } else if d == 1 {
        '1'
    } else if d == 2 {
        '2'
    } else if d == 3 {
        '3'
    } else if d == 4 {
        '4'
    } else if d == 5 {
        '5'
    } else if d == 6 {
        '6'
    } else if d == 7 {
        '7'
    } else if d == 8 {
        '8'
    } else {
        '9'
    }
}

/// The decimal digits of `n`, most significant first, without leading zeros.
pub open spec fn decimal(n: nat) -> Seq<char>
    decreases n,
{
    if n < 10 {
        seq![digit(n as int)]
    } else {
        decimal(n / 10).push(digit((n % 10) as int))
    }
}

/// The decimal notation of `n`, with a minus sign before a negative number.
pub open spec fn signed_decimal(n: int) -> Seq<char> {
    if n < 0 {
        seq!['-'] + decimal((-n) as nat)
    } else {
        decimal(n as nat)
    }
}

/// The words of a command line after the first, each preceded by one space.
pub open spec fn spaced_tail(words: Seq<Seq<char>>) -> Seq<char>
    decreases words.len(),
{
    if words.len() == 0 {
        Seq::empty()
    } else {
        spaced_tail(words.drop_last()) + seq![' '] + words.last()
    }
}

/// A command line: the first word, then each further word after one space.
pub open spec fn joined(first: Seq<char>, rest: Seq<Seq<char>>) -> Seq<char> {
    first + spaced_tail(rest)
}

/// Each of `words` as `Debug` formatting quotes it, in order.
pub open spec fn quoted_words(words: Seq<Seq<char>>) -> Seq<Seq<char>> {
    Seq::new(words.len(), |i: int| debug_quoted(words[i]))
}

/// Joins the words of a command line with single spaces. The words are
/// taken as they are: nothing is quoted, trimmed or left out.
pub fn join_words(first: &str, rest: &Vec<String>) -> (line: String)
    ensures
        line@ == joined(first@, strings_view(rest@)),
{
    let ghost words = strings_view(rest@);
    let mut line = String::from_str(first);
    let mut i: usize = 0;
    while i < rest.len()
        invariant
            i <= rest.len(),
            words == strings_view(rest@),
            line@ == first@ + spaced_tail(words.take(i as int)),
        decreases rest.len() - i,
    {
        proof {
            let before = words.take(i as int);
            let after = words.take(i + 1);
            assert(after.drop_last() =~= before);
            assert(after.last() == rest[i as int]@);
            reveal_strlit(" ");
            assert(" "@ =~= seq![' ']);
            assert(first@ + spaced_tail(after) =~= line@ + seq![' '] + rest[i as int]@);
        }
        line.append(" ");
        line.append(rest[i].as_str());
        i += 1;
    }
    assert(words.take(i as int) =~= words);
    line
}

fn digit_str(d: u32) -> (s: &'static str)
    requires
        d < 10,
    ensures
        s@ == seq![digit(d as int)],
{
    proof {
        reveal_strlit("0");
        reveal_strlit("1");
        reveal_strlit("2");
        reveal_strlit("3");
        reveal_strlit("4");
        reveal_strlit("5");
        reveal_strlit("6");
        reveal_strlit("7");
        reveal_strlit("8");
        reveal_strlit("9");
    }
    let s = if d == 0 {
        "0"
    } else if d == 1 {
        "1"
    } else if d == 2 {
        "2"
    } else if d == 3 {
        "3"
    } else if d == 4 {
        "4"
    } else if d == 5 {
        "5"
    } else if d == 6 {
        "6"
    } else if d == 7 {
        "7"
    } else if d == 8 {
        "8"
    } else {
        "9"
    };
    assert(s@ =~= seq![digit(d as int)]);
    s
}

/// Appends the decimal digits of `n` to `text`.
pub fn push_decimal(text: &mut String, n: u32)
    ensures
        final(text)@ == old(text)@ + decimal(n as nat),
    decreases n,
{
    if n >= 10 {
        push_decimal(text, n / 10);
    }
    text.append(digit_str(n % 10));
    assert(final(text)@ =~= old(text)@ + decimal(n as nat));
}

/// Appends the decimal notation of `n` to `text`.
pub fn push_signed_decimal(text: &mut String, n: i32)
    ensures
        final(text)@ == old(text)@ + signed_decimal(n as int),
{
    if n < 0 {
        proof {
            reveal_strlit("-");
        }
        text.append("-");
        assert("-"@ =~= seq!['-']);
        let below: i32 = -(n + 1);
        let magnitude: u32 = below as u32 + 1;
        push_decimal(text, magnitude);
        assert(final(text)@ =~= old(text)@ + signed_decimal(n as int));
    } else {
        push_decimal(text, n as u32);
    }
}

} // verus!
