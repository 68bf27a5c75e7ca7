//! Keys as text: the hyphenated form a uuid is shown in, and the forms one is
//! read from.

use vstd::arithmetic::power::pow;
use vstd::prelude::*;

use crate::page::Uuid;

verus! {

/// The `i`th of the 32 hexadecimal digits of a uuid, from the left.
pub open spec fn nibble(bits: u128, i: int) -> int {
    (bits as int / pow(16, (31 - i) as nat)) % 16
}

/// A hexadecimal digit, in lower case.
pub open spec fn hex_digit(d: int) -> char {
    if d < 10 {
        (('0' as int) + d) as char
    } else {
        (('a' as int) + (d - 10)) as char
    }
}

/// The value of a hexadecimal digit, in either case.
pub open spec fn hex_value(c: char) -> Option<int> {
    if '0' <= c <= '9' {
        Some(c as int - '0' as int)
    } else if 'a' <= c <= 'f' {
        Some(c as int - 'a' as int + 10)
    } else if 'A' <= c <= 'F' {
        Some(c as int - 'A' as int + 10)
    } else {
        None
    }
}

/// Whether a hyphen stands at a place of the hyphenated form.
pub open spec fn hyphen_at(i: int) -> bool {
    i == 8 || i == 13 || i == 18 || i == 23
}

/// Which digit stands at a place of the hyphenated form.
pub open spec fn digit_at(i: int) -> int {
    if i < 8 {
        i
    } else if i < 13 {
        i - 1
    } else if i < 18 {
        i - 2
    } else if i < 23 {
        i - 3
    } else {
        i - 4
    }
}

/// `xxxxxxxx-xxxx-xxxx-xxxx-xxxxxxxxxxxx`, in lower case.
pub open spec fn hyphenated_text(bits: u128) -> Seq<char> {
    Seq::new(
        36,
        |i: int|
            if hyphen_at(i) {
                '-'
            } else {
                hex_digit(nibble(bits, digit_at(i)))
            },
    )
}

/// Whether a text is the 32 digits of a uuid.
pub open spec fn is_simple(text: Seq<char>, bits: u128) -> bool {
    &&& text.len() == 32
    &&& forall|i: int| 0 <= i < 32 ==> hex_value(#[trigger] text[i]) == Some(nibble(bits, i))
}

/// Whether a text is the hyphenated form of a uuid, in either case.
pub open spec fn is_hyphenated(text: Seq<char>, bits: u128) -> bool {
    &&& text.len() == 36
    &&& forall|i: int|
        0 <= i < 36 ==> if hyphen_at(i) {
            #[trigger] text[i] == '-'
        } else {
            hex_value(text[i]) == Some(nibble(bits, digit_at(i)))
        }
}

/// Whether a text starts with `urn:uuid:`, in either case.
pub open spec fn is_urn(text: Seq<char>) -> bool {
    &&& text.len() == 45
    &&& text[0] == 'u' || text[0] == 'U'
    &&& text[1] == 'r' || text[1] == 'R'
    &&& text[2] == 'n' || text[2] == 'N'
    &&& text[3] == ':'
    &&& text[4] == 'u' || text[4] == 'U'
    &&& text[5] == 'u' || text[5] == 'U'
    &&& text[6] == 'i' || text[6] == 'I'
    &&& text[7] == 'd' || text[7] == 'D'
    &&& text[8] == ':'
}

/// Whether a text spells a uuid: its 32 digits, or its hyphenated form, bare,
/// in braces or behind `urn:uuid:`.
pub open spec fn spells(text: Seq<char>, bits: u128) -> bool {
    ||| is_simple(text, bits)
    ||| is_hyphenated(text, bits)
    ||| text.len() == 38 && text[0] == '{' && text[37] == '}' && is_hyphenated(
        text.subrange(1, 37),
        bits,
    )
    ||| is_urn(text) && is_hyphenated(text.subrange(9, 45), bits)
}

/// `uuid::Uuid`'s `Display`: the hyphenated form in lower case.
#[verifier::external_body]
pub(crate) fn hyphenated(id: Uuid) -> (text: String)
    ensures
        text@ == hyphenated_text(id.0),
{
    uuid::Uuid::from_u128(id.0).to_string()
}

/// `uuid::Uuid::parse_str`: the uuid a text spells, and none where it spells
/// none.
#[verifier::external_body]
pub(crate) fn parse(text: &str) -> (id: Option<Uuid>)
    ensures
        id is Some ==> spells(text@, (id->0).0),
        id is None ==> forall|bits: u128| !spells(text@, bits),
{
    match uuid::Uuid::parse_str(text) {
        Ok(id) => Some(Uuid(id.as_u128())),
        Err(_) => None,
    }
}

proof fn lemma_nibbles(a: u128, b: u128, n: nat)
    requires
        n <= 32,
        forall|i: int| 0 <= i < n ==> nibble(a, i) == nibble(b, i),
    ensures
        a as int / pow(16, (32 - n) as nat) == b as int / pow(16, (32 - n) as nat),
    decreases n,
{
    if n == 0 {
        assert(pow(16, 32) == 0x1_0000_0000_0000_0000_0000_0000_0000_0000) by {
            assert(pow(16, 8) == 0x1_0000_0000) by {
                reveal_with_fuel(pow, 9);
            }
            vstd::arithmetic::power::lemma_pow_adds(16, 8, 8);
            assert(0x1_0000_0000int * 0x1_0000_0000int == 0x1_0000_0000_0000_0000int);
            assert(pow(16, 16) == 0x1_0000_0000_0000_0000);
            vstd::arithmetic::power::lemma_pow_adds(16, 16, 16);
            assert(0x1_0000_0000_0000_0000int * 0x1_0000_0000_0000_0000int
                == 0x1_0000_0000_0000_0000_0000_0000_0000_0000int);
        }
        vstd::arithmetic::div_mod::lemma_basic_div(a as int, pow(16, 32));
        vstd::arithmetic::div_mod::lemma_basic_div(b as int, pow(16, 32));
    } else {
        lemma_nibbles(a, b, (n - 1) as nat);
        let unit = pow(16, (32 - n) as nat);
        vstd::arithmetic::power::lemma_pow_positive(16, (32 - n) as nat);
        assert(pow(16, (33 - n) as nat) == unit * 16) by {
            vstd::arithmetic::power::lemma_pow_adds(16, (32 - n) as nat, 1);
            vstd::arithmetic::power::lemma_pow1(16);
        }
        vstd::arithmetic::div_mod::lemma_div_denominator(a as int, unit, 16);
        vstd::arithmetic::div_mod::lemma_div_denominator(b as int, unit, 16);
        assert(nibble(a, n - 1) == nibble(b, n - 1));
        assert(a as int / unit == 16 * ((a as int / unit) / 16) + (a as int / unit) % 16);
        assert(b as int / unit == 16 * ((b as int / unit) / 16) + (b as int / unit) % 16);
    }
}

/// Two uuids with the same digits are the same.
proof fn lemma_same_digits(a: u128, b: u128)
    requires
        forall|i: int| 0 <= i < 32 ==> nibble(a, i) == nibble(b, i),
    ensures
        a == b,
{
    lemma_nibbles(a, b, 32);
    assert(pow(16, 0) == 1) by {
        vstd::arithmetic::power::lemma_pow0(16);
    }
    assert(a as int / 1 == a as int);
    assert(b as int / 1 == b as int);
}

proof fn lemma_hyphenated_unique(text: Seq<char>, a: u128, b: u128)
    requires
        is_hyphenated(text, a),
        is_hyphenated(text, b),
    ensures
        a == b,
{
    assert forall|i: int| 0 <= i < 32 implies nibble(a, i) == nibble(b, i) by {
        let at = if i < 8 {
            i
        } else if i < 12 {
            i + 1
        } else if i < 16 {
            i + 2
        } else if i < 20 {
            i + 3
        } else {
            i + 4
        };
        assert(digit_at(at) == i);
        assert(hex_value(text[at]) == Some(nibble(a, i)));
    }
    lemma_same_digits(a, b);
}

proof fn lemma_simple_unique(text: Seq<char>, a: u128, b: u128)
    requires
        is_simple(text, a),
        is_simple(text, b),
    ensures
        a == b,
{
    assert forall|i: int| 0 <= i < 32 implies nibble(a, i) == nibble(b, i) by {
        assert(hex_value(text[i]) == Some(nibble(a, i)));
    }
    lemma_same_digits(a, b);
}

/// A text spells one uuid at the most.
pub proof fn lemma_spells_one(text: Seq<char>, a: u128, b: u128)
    requires
        spells(text, a),
        spells(text, b),
    ensures
        a == b,
{
    if text.len() == 32 {
        lemma_simple_unique(text, a, b);
    } else if text.len() == 36 {
        lemma_hyphenated_unique(text, a, b);
    } else if text.len() == 38 {
        lemma_hyphenated_unique(text.subrange(1, 37), a, b);
    } else {
        lemma_hyphenated_unique(text.subrange(9, 45), a, b);
    }
}

/// The uuid a text spells, if it spells one.
pub open spec fn spelled(text: Seq<char>) -> Option<Uuid> {
    if exists|bits: u128| spells(text, bits) {
        Some(Uuid(choose|bits: u128| spells(text, bits)))
    } else {
        None
    }
}

/// The uuid a text spells, if it spells one.
pub fn read_key(text: &str) -> (id: Option<Uuid>)
    ensures
        id == spelled(text@),
{
    let id = parse(text);
    proof {
        if id is Some {
            let bits = choose|bits: u128| spells(text@, bits);
            lemma_spells_one(text@, (id->0).0, bits);
        }
    }
    id
}

/// A key shown as text reads back as the same key, and as no other.
pub proof fn law_key_reads_back(bits: u128, other: u128)
    ensures
        spells(hyphenated_text(bits), bits),
        spells(hyphenated_text(bits), other) ==> other == bits,
        spelled(hyphenated_text(bits)) == Some(Uuid(bits)),
{
    let text = hyphenated_text(bits);
    assert forall|i: int| 0 <= i < 36 implies if hyphen_at(i) {
        #[trigger] text[i] == '-'
    } else {
        hex_value(text[i]) == Some(nibble(bits, digit_at(i)))
    } by {
        let d = nibble(bits, digit_at(i));
        assert(0 <= d < 16);
    }
    if spells(text, other) {
        lemma_hyphenated_unique(text, bits, other);
    }
    assert(spells(text, bits));
    let found = choose|found: u128| spells(text, found);
    lemma_hyphenated_unique(text, bits, found);
}

} // verus!
