//! Identifiers that are derived from others.
use crate::text::{concat3, text_range};
use vstd::prelude::*;
use vstd::string::*;

verus! {

/// The lowest `count` digits of a number in a base, the highest first.
pub open spec fn digits(value: nat, base: nat, count: nat) -> Seq<nat>
    decreases count,
{
    if count == 0 {
        Seq::empty()
    } else {
        digits(value / base, base, (count - 1) as nat).push(value % base)
    }
}

/// The character for a hexadecimal digit.
pub open spec fn hex_char(digit: nat) -> char {
    if digit < 10 {
        (48 + digit) as char
    } else {
        (87 + digit) as char
    }
}

/// The thirty-two hexadecimal digits of a number of 128 bits.
pub open spec fn hex_text(value: u128) -> Seq<char> {
    digits(value as nat, 16, 32).map_values(|digit: nat| hex_char(digit))
}

/// The sixteen bytes of a number of 128 bits, the highest first.
pub open spec fn big_endian(value: u128) -> Seq<u8> {
    digits(value as nat, 256, 16).map_values(|digit: nat| digit as u8)
}

/// The hexadecimal digits with hyphens behind the eighth, the twelfth, the
/// sixteenth and the twentieth.
pub open spec fn hyphenated(value: u128) -> Seq<char> {
    let hex = hex_text(value);
    hex.subrange(0, 8) + "-"@ + hex.subrange(8, 12) + "-"@ + hex.subrange(12, 16) + "-"@ + hex.subrange(16, 20)
        + "-"@ + hex.subrange(20, 32)
}

/// There are as many digits as asked for, each below the base.
pub proof fn lemma_digits(value: nat, base: nat, count: nat)
    requires
        base > 0,
    ensures
        digits(value, base, count).len() == count,
        forall|i: int| 0 <= i < count ==> #[trigger] digits(value, base, count)[i] < base,
    decreases count,
{
    if count > 0 {
        lemma_digits(value / base, base, (count - 1) as nat);
        assert(value % base < base) by (nonlinear_arith)
            requires
                base > 0,
        ;
    }
}

fn hex_digit(digit: u128) -> (letter: char)
    requires
        digit < 16,
    ensures
        letter == hex_char(digit as nat),
{
    if digit < 10 {
        (48u8 + digit as u8) as char
    } else {
        (87u8 + digit as u8) as char
    }
}

fn hex_chars(value: u128, count: usize) -> (chars: Vec<char>)
    ensures
        chars@ == digits(value as nat, 16, count as nat).map_values(|digit: nat| hex_char(digit)),
    decreases count,
{
    if count == 0 {
        let chars: Vec<char> = Vec::new();
        assert(chars@ =~= digits(value as nat, 16, 0).map_values(|digit: nat| hex_char(digit)));
        chars
    } else {
        let mut chars = hex_chars(value / 16, count - 1);
        chars.push(hex_digit(value % 16));
        assert(chars@ =~= digits(value as nat, 16, count as nat).map_values(|digit: nat| hex_char(digit)));
        chars
    }
}

fn byte_digits(value: u128, count: usize) -> (bytes: Vec<u8>)
    ensures
        bytes@ == digits(value as nat, 256, count as nat).map_values(|digit: nat| digit as u8),
    decreases count,
{
    if count == 0 {
        let bytes: Vec<u8> = Vec::new();
        assert(bytes@ =~= digits(value as nat, 256, 0).map_values(|digit: nat| digit as u8));
        bytes
    } else {
        let mut bytes = byte_digits(value / 256, count - 1);
        bytes.push((value % 256) as u8);
        assert(bytes@ =~= digits(value as nat, 256, count as nat).map_values(|digit: nat| digit as u8));
        bytes
    }
}

/// The thirty-two hexadecimal digits of a number of 128 bits.
pub fn hex(value: u128) -> (text: String)
    ensures
        text@ == hex_text(value),
        text@.len() == 32,
{
    let chars = hex_chars(value, 32);
    proof {
        lemma_digits(value as nat, 16, 32);
        assert(chars@.subrange(0, 32) =~= chars@);
    }
    text_range(&chars, 0, 32)
}

/// The lowest hexadecimal digits of a number.
pub fn hex_digits(value: u128, count: usize) -> (text: String)
    ensures
        text@ == digits(value as nat, 16, count as nat).map_values(|digit: nat| hex_char(digit)),
{
    let chars = hex_chars(value, count);
    assert(chars@.subrange(0, chars@.len() as int) =~= chars@);
    text_range(&chars, 0, chars.len())
}

/// The sixteen bytes of a number of 128 bits, the highest first.
pub fn to_bytes(value: u128) -> (bytes: Vec<u8>)
    ensures
        bytes@ == big_endian(value),
{
    byte_digits(value, 16)
}

/// The hexadecimal digits with hyphens between their groups.
pub fn hyphenate(value: u128) -> (text: String)
    ensures
        text@ == hyphenated(value),
{
    let chars = hex_chars(value, 32);
    proof {
        lemma_digits(value as nat, 16, 32);
    }
    let mut text = concat3(&text_range(&chars, 0, 8), "-", &text_range(&chars, 8, 12));
    text.append("-");
    text.append(&text_range(&chars, 12, 16));
    text.append("-");
    text.append(&text_range(&chars, 16, 20));
    text.append("-");
    text.append(&text_range(&chars, 20, 32));
    text
}

/// The number that `uuid::Uuid::parse_str` reads from a text.
pub uninterp spec fn uuid_read(text: Seq<char>) -> Option<u128>;

/// The number that `uuid::Uuid::new_v5` derives from a namespace and a name.
pub uninterp spec fn uuid_derived(namespace: u128, name: Seq<u8>) -> u128;

/// `uuid::Uuid::parse_str`: the number of a UUID in any of its forms, or
/// nothing where the text is no UUID; a function of the text alone.
#[verifier::external_body]
pub(crate) fn read_uuid(text: &str) -> (value: Option<u128>)
    ensures
        value == uuid_read(text@),
{
    uuid::Uuid::parse_str(text).ok().map(|id| id.as_u128())
}

/// `uuid::Uuid::new_v5`: the number of the name-based UUID of a name in a
/// namespace, a function of the two.
#[verifier::external_body]
pub(crate) fn derive_uuid(namespace: u128, name: &[u8]) -> (value: u128)
    ensures
        value == uuid_derived(namespace, name@),
{
    uuid::Uuid::new_v5(&uuid::Uuid::from_u128(namespace), name).as_u128()
}

/// The number that digits stand for.
pub open spec fn number_of(digits: Seq<nat>, base: nat) -> nat
    decreases digits.len(),
{
    if digits.len() == 0 {
        0
    } else {
        number_of(digits.drop_last(), base) * base + digits.last()
    }
}

/// A number that has room in its digits is the number that they stand for.
pub proof fn law_digits_stand_for_their_number(value: nat, base: nat, count: nat)
    requires
        base > 1,
        value < vstd::arithmetic::power::pow(base as int, count),
    ensures
        digits(value, base, count).len() == count,
        number_of(digits(value, base, count), base) == value,
        forall|i: int| 0 <= i < count ==> #[trigger] digits(value, base, count)[i] < base,
    decreases count,
{
    if count == 0 {
        vstd::arithmetic::power::lemma_pow0(base as int);
    } else {
        let rest = (count - 1) as nat;
        vstd::arithmetic::power::lemma_pow_positive(base as int, rest);
        assert(vstd::arithmetic::power::pow(base as int, count) == base * vstd::arithmetic::power::pow(
            base as int,
            rest,
        )) by {
            reveal(vstd::arithmetic::power::pow);
        }
        let room = vstd::arithmetic::power::pow(base as int, rest);
        assert(value / base < room) by (nonlinear_arith)
            requires
                value < base * room,
                base > 1,
        ;
        law_digits_stand_for_their_number(value / base, base, rest);
        let all = digits(value, base, count);
        assert(all.drop_last() =~= digits(value / base, base, rest));
        assert(all.last() == value % base);
        assert(value == (value / base) * base + value % base) by (nonlinear_arith)
            requires
                base > 1,
        ;
        assert(value % base < base) by (nonlinear_arith)
            requires
                base > 1,
        ;
        assert forall|i: int| 0 <= i < count implies #[trigger] all[i] < base by {
            if i < count - 1 {
                assert(all[i] == digits(value / base, base, rest)[i]);
            }
        }
    }
}

/// A UUID is written as the digits of its number with four hyphens between them.
pub proof fn law_hyphens_part_the_digits(value: u128)
    ensures
        ({
            let text = hyphenated(value);
            let hex = hex_text(value);
            &&& hex.len() == 32
            &&& text.len() == 36
            &&& text[8] == '-' && text[13] == '-' && text[18] == '-' && text[23] == '-'
            &&& text.subrange(0, 8) + text.subrange(9, 13) + text.subrange(14, 18) + text.subrange(19, 23)
                + text.subrange(24, 36) == hex
        }),
{
    reveal_strlit("-");
    lemma_digit_count(value as nat, 16, 32);
    let text = hyphenated(value);
    let hex = hex_text(value);
    assert(text.subrange(0, 8) + text.subrange(9, 13) + text.subrange(14, 18) + text.subrange(19, 23)
        + text.subrange(24, 36) =~= hex);
}

proof fn lemma_digit_count(value: nat, base: nat, count: nat)
    requires
        base > 0,
    ensures
        digits(value, base, count).len() == count,
    decreases count,
{
    if count > 0 {
        lemma_digit_count(value / base, base, (count - 1) as nat);
    }
}

} // verus!
