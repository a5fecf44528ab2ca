//! Text building blocks shared by the whole crate: joining, decimal numbers
//! and prefix tests, each with its mathematical meaning over `Seq<char>`.

use vstd::prelude::*;
use vstd::string::*;

verus! {

/// The parts in order, with `sep` between each two neighbours.
pub open spec fn join(parts: Seq<Seq<char>>, sep: Seq<char>) -> Seq<char>
    decreases parts.len(),
{
    if parts.len() == 0 {
        Seq::empty()
    } else if parts.len() == 1 {
        parts[0]
    } else {
        parts[0] + sep + join(parts.skip(1), sep)
    }
}

/// The views of a vector of strings.
pub open spec fn views(parts: Seq<String>) -> Seq<Seq<char>> {
    Seq::new(parts.len(), |i: int| parts[i]@)
}

/// Joining grows at the end: one more part costs one more separator, unless
/// it is the first.
pub proof fn lemma_join_push(parts: Seq<Seq<char>>, sep: Seq<char>, last: Seq<char>)
    ensures
        join(parts.push(last), sep) == if parts.len() == 0 {
            last
        } else {
            join(parts, sep) + sep + last
        },
    decreases parts.len(),
{
    let grown = parts.push(last);
    if parts.len() == 0 {
        assert(grown[0] == last);
    } else if parts.len() == 1 {
        assert(grown.skip(1) =~= seq![last]);
        assert(join(grown.skip(1), sep) == last);
    } else {
        lemma_join_push(parts.skip(1), sep, last);
        assert(grown.skip(1) =~= parts.skip(1).push(last));
        assert(parts[0] + sep + (join(parts.skip(1), sep) + sep + last) =~= (parts[0] + sep + join(
            parts.skip(1),
            sep,
        )) + sep + last);
    }
}

/// Joins `parts` with `sep` between them.
pub fn join_strings(parts: &Vec<String>, sep: &str) -> (joined: String)
    ensures
        joined@ == join(views(parts@), sep@),
{
    let mut joined = String::new();
    let mut i: usize = 0;
    while i < parts.len()
        invariant
            i <= parts.len(),
            joined@ == join(views(parts@).take(i as int), sep@),
        decreases parts.len() - i,
    {
        proof {
            let done = views(parts@).take(i as int);
            lemma_join_push(done, sep@, parts[i as int]@);
            assert(done.push(parts[i as int]@) =~= views(parts@).take(i + 1));
        }
        if i > 0 {
            joined.append(sep);
        }
        joined.append(parts[i].as_str());
        i += 1;
    }
    proof {
        assert(views(parts@).take(parts.len() as int) =~= views(parts@));
    }
    joined
}

/// Appends a copy of `text` to a vector of strings.
pub fn push_text(list: &mut Vec<String>, text: &str)
    ensures
        views(final(list)@) == views(old(list)@).push(text@),
{
    list.push(String::from_str(text));
    assert(views(list@) =~= views(old(list)@).push(text@));
}

/// The view of a text that may be absent.
pub open spec fn text_of(text: Option<String>) -> Option<Seq<char>> {
    match text {
        Some(t) => Some(t@),
        None => None,
    }
}

/// The view of a borrowed text that may be absent.
pub open spec fn str_of(text: Option<&str>) -> Option<Seq<char>> {
    match text {
        Some(t) => Some(t@),
        None => None,
    }
}

/// The views of a vector of borrowed strings.
pub open spec fn str_views(parts: Seq<&str>) -> Seq<Seq<char>> {
    Seq::new(parts.len(), |i: int| parts[i]@)
}

/// Whether two texts hold the same characters.
pub fn same_text(a: &str, b: &str) -> (same: bool)
    ensures
        same == (a@ == b@),
{
    String::from_str(a) == String::from_str(b)
}

/// Whether `text` begins with `prefix`.
pub open spec fn begins_with(text: Seq<char>, prefix: Seq<char>) -> bool {
    prefix.len() <= text.len() && text.take(prefix.len() as int) == prefix
}

/// Whether `text` begins with `prefix`.
pub fn starts_with(text: &str, prefix: &str) -> (begins: bool)
    ensures
        begins == begins_with(text@, prefix@),
{
    let n = prefix.unicode_len();
    if n <= text.unicode_len() {
        let head = text.substring_char(0, n);
        assert(head@ =~= text@.take(n as int));
        same_text(head, prefix)
    } else {
        false
    }
}

/// The character of one decimal digit.
pub open spec fn digit(d: int) -> char {
    if d == 0 {
        '0'
    } else if d == 1 {
        '1'
    } else if d == 2 {
        '2'
    } else if d == 3 {
        '3'
    } else if d == 4 {
        '4'
    } else if d == 5 {
        '5'
    } else if d == 6 {
        '6'
    } else if d == 7 {
        '7'
    } else if d == 8 {
        '8'
    } else {
        '9'
    }
}

/// A natural number in decimal, without leading zeros.
pub open spec fn decimal(n: nat) -> Seq<char>
    decreases n,
{
    if n < 10 {
        seq![digit(n as int)]
    } else {
        decimal(n / 10).push(digit((n % 10) as int))
    }
}

/// An integer in decimal, with a minus sign where it is negative.
pub open spec fn signed_decimal(i: int) -> Seq<char> {
    if i < 0 {
        seq!['-'] + decimal((-i) as nat)
    } else {
        decimal(i as nat)
    }
}

/// A number below one hundred in exactly two digits.
pub open spec fn two_digits(n: int) -> Seq<char> {
    seq![digit(n / 10), digit(n % 10)]
}

/// A number below ten thousand in exactly four digits.
pub open spec fn four_digits(n: int) -> Seq<char> {
    two_digits(n / 100) + two_digits(n % 100)
}

/// One decimal digit as text.
pub(crate) fn digit_str(d: u8) -> (text: &'static str)
    requires
        d < 10,
    ensures
        text@ == seq![digit(d as int)],
{
    proof {
        reveal_strlit("0");
        reveal_strlit("1");
        reveal_strlit("2");
        reveal_strlit("3");
        reveal_strlit("4");
        reveal_strlit("5");
        reveal_strlit("6");
        reveal_strlit("7");
        reveal_strlit("8");
        reveal_strlit("9");
    }
    let text = if d == 0 {
        "0"
    } else if d == 1 {
        "1"
    } else if d == 2 {
        "2"
    } else if d == 3 {
        "3"
    } else if d == 4 {
        "4"
    } else if d == 5 {
        "5"
    } else if d == 6 {
        "6"
    } else if d == 7 {
        "7"
    } else if d == 8 {
        "8"
    } else {
        "9"
    };
    assert(text@ =~= seq![digit(d as int)]);
    text
}

/// Writes `n` in decimal.
pub fn decimal_string(n: u64) -> (text: String)
    ensures
        text@ == decimal(n as nat),
    decreases n,
{
    if n < 10 {
        String::from_str(digit_str(n as u8))
    } else {
        let mut text = decimal_string(n / 10);
        text.append(digit_str((n % 10) as u8));
        text
    }
}

/// Writes `i` in decimal, with its sign.
pub fn signed_decimal_string(i: i64) -> (text: String)
    ensures
        text@ == signed_decimal(i as int),
{
    if i < 0 {
        let magnitude: u64 = if i == i64::MIN {
            9223372036854775808u64
        } else {
            (-i) as u64
        };
        let mut text = String::from_str("-");
        proof {
            reveal_strlit("-");
        }
        let digits = decimal_string(magnitude);
        text.append(digits.as_str());
        assert(text@ =~= seq!['-'] + decimal((-i) as nat));
        text
    } else {
        decimal_string(i as u64)
    }
}

/// Appends `n`, which is below one hundred, in two digits.
pub(crate) fn push_two_digits(text: &mut String, n: u8)
    requires
        n < 100,
    ensures
        final(text)@ == old(text)@ + two_digits(n as int),
{
    text.append(digit_str(n / 10));
    text.append(digit_str(n % 10));
    assert(text@ =~= old(text)@ + two_digits(n as int));
}

/// Appends `n`, which is below ten thousand, in four digits.
pub(crate) fn push_four_digits(text: &mut String, n: u16)
    requires
        n < 10000,
    ensures
        final(text)@ == old(text)@ + four_digits(n as int),
{
    push_two_digits(text, (n / 100) as u8);
    push_two_digits(text, (n % 100) as u8);
    assert(text@ =~= old(text)@ + four_digits(n as int));
}

} // verus!
