//! Numbers as JSON text: how the page that a book was left at is written
//! and read.

use vstd::prelude::*;

verus! {

/// The error of serde_json.
#[verifier::external_type_specification]
#[verifier::external_body]
pub struct ExJsonError(serde_json::Error);

/// Whether the byte is white space in JSON: a space, a line feed, a
/// carriage return or a tab.
pub open spec fn is_json_space(byte: u8) -> bool {
    byte == 0x20 || byte == 0x0A || byte == 0x0D || byte == 0x09
}

/// How many bytes of white space stand at the front of `json`.
pub open spec fn leading_space(json: Seq<u8>) -> nat
    decreases json.len(),
{
    if json.len() > 0 && is_json_space(json[0]) {
        1 + leading_space(json.drop_first())
    } else {
        0
    }
}

/// How many bytes of white space stand at the end of `json`.
pub open spec fn trailing_space(json: Seq<u8>) -> nat
    decreases json.len(),
{
    if json.len() > 0 && is_json_space(json.last()) {
        1 + trailing_space(json.drop_last())
    } else {
        0
    }
}

/// Whether `digits` is a number as JSON writes a whole number that is not
/// negative: decimal digits, at least one, and no `0` before another
/// digit.
pub open spec fn is_json_digits(digits: Seq<u8>) -> bool {
    &&& digits.len() > 0
    &&& forall|i: int| 0 <= i < digits.len() ==> 0x30 <= #[trigger] digits[i] <= 0x39
    &&& digits.len() == 1 || digits[0] != 0x30
}

/// The number that the decimal digits make.
pub open spec fn digits_value(digits: Seq<u8>) -> nat
    decreases digits.len(),
{
    if digits.len() == 0 {
        0
    } else {
        digits_value(digits.drop_last()) * 10 + (digits.last() - 0x30) as nat
    }
}

/// The number that `serde_json::from_slice::<u64>` reads from the JSON text
/// `json`: the number whose digits stand between the white space at the
/// front and at the end, where it fits 64 bits. `None` for every other
/// text.
pub open spec fn json_number(json: Seq<u8>) -> Option<u64> {
    let from = leading_space(json) as int;
    let to = json.len() - trailing_space(json);
    if from < to && is_json_digits(json.subrange(from, to)) && digits_value(
        json.subrange(from, to),
    ) <= u64::MAX {
        Some(digits_value(json.subrange(from, to)) as u64)
    } else {
        None
    }
}

/// Calls `serde_json::from_slice` for a `u64`. serde_json skips the white
/// space of JSON, reads a whole number that is not negative and fits 64
/// bits, and takes nothing but white space after it; a sign, a fraction, an
/// exponent, a `0` before another digit or any other byte is an error.
#[verifier::external_body]
pub(crate) fn number_from_json(json: &[u8]) -> (number: Result<u64, serde_json::Error>)
    ensures
        match number {
            Ok(n) => json_number(json@) == Some(n),
            Err(_) => json_number(json@) is None,
        },
{
    serde_json::from_slice::<u64>(json)
}

/// The character of the digit `d`.
pub open spec fn digit_char(d: nat) -> char {
    if d == 0 {
        '0'
    } else if d == 1 {
        '1'
    } else if d == 2 {
        '2'
    } else if d == 3 {
        '3'
    } else if d == 4 {
        '4'
    } else if d == 5 {
        '5'
    } else if d == 6 {
        '6'
    } else if d == 7 {
        '7'
    } else if d == 8 {
        '8'
    } else {
        '9'
    }
}

/// The decimal digits of `n`, which are also its JSON text.
pub open spec fn decimal_digits(n: nat) -> Seq<char>
    decreases n,
{
    if n < 10 {
        seq![digit_char(n)]
    } else {
        decimal_digits(n / 10).push(digit_char(n % 10))
    }
}

/// The character of the digit `d`.
fn digit(d: u64) -> (c: char)
    requires
        d < 10,
    ensures
        c == digit_char(d as nat),
{
    match d {
        0 => '0',
        1 => '1',
        2 => '2',
        3 => '3',
        4 => '4',
        5 => '5',
        6 => '6',
        7 => '7',
        8 => '8',
        _ => '9',
    }
}

/// The JSON text of the number `n`: its decimal digits.
pub fn json_of_number(n: u64) -> (json: String)
    ensures
        json@ == decimal_digits(n as nat),
    decreases n,
{
    if n < 10 {
        let mut json = String::new();
        json.push(digit(n));
        assert(json@ =~= seq![digit_char(n as nat)]);
        json
    } else {
        let mut json = json_of_number(n / 10);
        json.push(digit(n % 10));
        json
    }
}

/// The bytes of the decimal digits of `n`.
pub open spec fn digit_bytes(n: nat) -> Seq<u8> {
    decimal_digits(n).map_values(|c: char| c as u8)
}

/// The decimal digits of a number are digits, begin with no `0` unless the
/// number has one digit, and make the number.
pub proof fn lemma_digit_bytes(n: nat)
    ensures
        is_json_digits(digit_bytes(n)),
        digits_value(digit_bytes(n)) == n,
        n > 0 ==> digit_bytes(n)[0] != 0x30,
    decreases n,
{
    if n < 10 {
        assert(digit_bytes(n) =~= seq![digit_char(n) as u8]);
        assert(digit_bytes(n).drop_last() =~= Seq::<u8>::empty());
        assert(digits_value(digit_bytes(n).drop_last()) == 0);
    } else {
        lemma_digit_bytes(n / 10);
        let shorter = digit_bytes(n / 10);
        let last = digit_char(n % 10) as u8;
        assert(digit_bytes(n) =~= shorter.push(last));
        assert(digit_bytes(n).drop_last() =~= shorter);
        assert(digit_bytes(n)[0] == shorter[0]);
        assert forall|i: int| 0 <= i < digit_bytes(n).len() implies 0x30 <= #[trigger] digit_bytes(
            n,
        )[i] <= 0x39 by {
            if i < shorter.len() {
                assert(digit_bytes(n)[i] == shorter[i]);
            }
        }
    }
}

/// What is written as the JSON of a number reads back as that number.
pub proof fn written_number_reads_back(n: u64)
    ensures
        json_number(digit_bytes(n as nat)) == Some(n),
{
    lemma_digit_bytes(n as nat);
    let json = digit_bytes(n as nat);
    assert(!is_json_space(json[0]));
    assert(!is_json_space(json.last()));
    assert(json.subrange(0, json.len() as int) =~= json);
}

} // verus!
