//! Text the statements are assembled from: decimal numbers, placeholders and
//! joined lists.

use vstd::prelude::*;

verus! {

/// The decimal digit `d`, for `d < 10`.
pub open spec fn digit(d: nat) -> Seq<char> {
    seq![(('0' as nat) + d) as char]
}

/// The decimal spelling of `n`, without leading zeros.
pub open spec fn decimal_text(n: nat) -> Seq<char>
    decreases n,
{
    if n < 10 {
        digit(n)
    } else {
        decimal_text(n / 10) + digit(n % 10)
    }
}

/// `$n`: the positional placeholder of the `n`-th bound value.
pub open spec fn placeholder(n: nat) -> Seq<char> {
    "$"@ + decimal_text(n)
}

/// The parts one after the other, with `separator` between two neighbours.
pub open spec fn joined(parts: Seq<Seq<char>>, separator: Seq<char>) -> Seq<char>
    decreases parts.len(),
{
    if parts.len() == 0 {
        Seq::empty()
    } else if parts.len() == 1 {
        parts[0]
    } else {
        joined(parts.drop_last(), separator) + separator + parts.last()
    }
}

/// The contents of each string.
pub open spec fn views(parts: Seq<String>) -> Seq<Seq<char>> {
    Seq::new(parts.len(), |i: int| parts[i]@)
}

fn digit_literal(d: u128) -> (text: &'static str)
    requires
        d < 10,
    ensures
        text@ == digit(d as nat),
{
    proof {
        reveal_strlit("0");
        reveal_strlit("1");
        reveal_strlit("2");
        reveal_strlit("3");
        reveal_strlit("4");
        reveal_strlit("5");
        reveal_strlit("6");
        reveal_strlit("7");
        reveal_strlit("8");
        reveal_strlit("9");
    }
    if d == 0 {
        "0"
    } else if d == 1 {
        "1"
    } else if d == 2 {
        "2"
    } else if d == 3 {
        "3"
    } else if d == 4 {
        "4"
    } else if d == 5 {
        "5"
    } else if d == 6 {
        "6"
    } else if d == 7 {
        "7"
    } else if d == 8 {
        "8"
    } else {
        "9"
    }
}

/// `n` in decimal.
pub fn decimal(n: u128) -> (text: String)
    ensures
        text@ == decimal_text(n as nat),
    decreases n,
{
    if n < 10 {
        digit_literal(n).to_owned()
    } else {
        let mut text = decimal(n / 10);
        text.append(digit_literal(n % 10));
        text
    }
}

/// Appends `$n` to a statement.
pub fn push_placeholder(sql: &mut String, n: u128)
    ensures
        final(sql)@ == old(sql)@ + placeholder(n as nat),
{
    let number = decimal(n);
    sql.append("$");
    sql.append(number.as_str());
    assert(sql@ =~= old(sql)@ + placeholder(n as nat));
}

/// Joins the parts with `separator` between neighbours.
pub fn join(parts: &Vec<String>, separator: &str) -> (text: String)
    ensures
        text@ == joined(views(parts@), separator@),
{
    let mut text = String::new();
    let mut i: usize = 0;
    assert(views(parts@).take(0) =~= Seq::empty());
    while i < parts.len()
        invariant
            0 <= i <= parts.len(),
            text@ == joined(views(parts@).take(i as int), separator@),
        decreases parts.len() - i,
    {
        let ghost seen = views(parts@).take(i + 1);
        assert(seen.drop_last() =~= views(parts@).take(i as int));
        if i > 0 {
            text.append(separator);
        }
        text.append(parts[i].as_str());
        assert(seen.last() == parts@[i as int]@);
        if i == 0 {
            assert(text@ =~= seen[0]);
        }
        i += 1;
    }
    assert(views(parts@).take(parts.len() as int) =~= views(parts@));
    text
}

/// Unicode's `White_Space` property.
pub open spec fn is_white_space(c: char) -> bool {
    ||| '\u{0009}' <= c <= '\u{000D}'
    ||| c == '\u{0020}'
    ||| c == '\u{0085}'
    ||| c == '\u{00A0}'
    ||| c == '\u{1680}'
    ||| '\u{2000}' <= c <= '\u{200A}'
    ||| c == '\u{2028}'
    ||| c == '\u{2029}'
    ||| c == '\u{202F}'
    ||| c == '\u{205F}'
    ||| c == '\u{3000}'
}

/// A text without its leading and trailing white space.
pub open spec fn trimmed(text: Seq<char>) -> Seq<char>
    decreases text.len(),
{
    if text.len() == 0 {
        text
    } else if is_white_space(text[0]) {
        trimmed(text.drop_first())
    } else if is_white_space(text.last()) {
        trimmed(text.drop_last())
    } else {
        text
    }
}

/// `str::trim`: the text without its leading and trailing white space, as
/// Unicode defines it.
#[verifier::external_body]
pub(crate) fn trim(text: &str) -> (bare: &str)
    ensures
        bare@ == trimmed(text@),
{
    text.trim()
}

} // verus!
