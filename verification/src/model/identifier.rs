//! Reading and writing 128-bit identifiers as UUID text.
use vstd::prelude::*;

verus! {

/// The value that `uuid::Uuid::parse_str` reads from a text, or `None`
/// where it rejects the text.
pub uninterp spec fn uuid_parsed(text: Seq<char>) -> Option<u128>;

/// The hexadecimal digit of a number below 16, in lower case.
pub open spec fn hex_digit(d: nat) -> char {
    seq!['0', '1', '2', '3', '4', '5', '6', '7', '8', '9', 'a', 'b', 'c', 'd', 'e', 'f'][d as int]
}

/// The last `digits` hexadecimal digits of a number, the most significant
/// of them first.
pub open spec fn hex_text(value: nat, digits: nat) -> Seq<char>
    decreases digits,
{
    if digits == 0 {
        Seq::empty()
    } else {
        hex_text(value / 16, (digits - 1) as nat).push(hex_digit(value % 16))
    }
}

/// A value in the simple format of UUIDs: its 32 hexadecimal digits, in
/// lower case, the most significant first.
pub open spec fn uuid_simple_text(value: u128) -> Seq<char> {
    hex_text(value as nat, 32)
}

/// A value in the hyphenated format of UUIDs: its 32 hexadecimal digits
/// in groups of 8, 4, 4, 4 and 12, with a hyphen between the groups.
pub open spec fn uuid_hyphenated_text(value: u128) -> Seq<char> {
    let digits = uuid_simple_text(value);
    digits.subrange(0, 8) + seq!['-'] + digits.subrange(8, 12) + seq!['-'] + digits.subrange(
        12,
        16,
    ) + seq!['-'] + digits.subrange(16, 20) + seq!['-'] + digits.subrange(20, 32)
}

/// A number has as many digits as were asked for.
pub proof fn lemma_hex_text_len(value: nat, digits: nat)
    ensures
        hex_text(value, digits).len() == digits,
    decreases digits,
{
    if digits > 0 {
        lemma_hex_text_len(value / 16, (digits - 1) as nat);
    }
}

/// The simple format has 32 characters and the hyphenated one 36, with
/// its hyphens at the places 8, 13, 18 and 23.
pub proof fn lemma_uuid_text_shape(value: u128)
    ensures
        uuid_simple_text(value).len() == 32,
        uuid_hyphenated_text(value).len() == 36,
        uuid_hyphenated_text(value)[8] == '-',
        uuid_hyphenated_text(value)[13] == '-',
        uuid_hyphenated_text(value)[18] == '-',
        uuid_hyphenated_text(value)[23] == '-',
{
    lemma_hex_text_len(value as nat, 32);
}

#[verifier::external_type_specification]
#[verifier::external_body]
pub struct ExUuidError(uuid::Error);

/// `uuid::Uuid::parse_str`, followed by `Uuid::as_u128`. The contract names
/// the outcome: the same text always parses to the same value or is
/// always rejected.
#[verifier::external_body]
pub(crate) fn parse_uuid(text: &str) -> (r: Result<u128, uuid::Error>)
    ensures
        r.is_ok() == uuid_parsed(text@).is_some(),
        r matches Ok(v) ==> uuid_parsed(text@) == Some(v),
{
    uuid::Uuid::parse_str(text).map(|u| u.as_u128())
}

/// `Uuid::from_u128` followed by the simple formatter's `to_string`: the
/// 32 digits of the value, big end first, in lower case. The parser of the
/// same crate accepts every text its formatters write and reads the value
/// back.
#[verifier::external_body]
pub(crate) fn format_uuid_simple(value: u128) -> (r: String)
    ensures
        r@ == uuid_simple_text(value),
        uuid_parsed(r@) == Some(value),
{
    uuid::Uuid::from_u128(value).simple().to_string()
}

/// `Uuid::from_u128` followed by `to_string`, which writes the hyphenated
/// format: the same digits, in groups of 8, 4, 4, 4 and 12.
#[verifier::external_body]
pub(crate) fn format_uuid_hyphenated(value: u128) -> (r: String)
    ensures
        r@ == uuid_hyphenated_text(value),
        uuid_parsed(r@) == Some(value),
{
    uuid::Uuid::from_u128(value).to_string()
}

/// The text of an error of the `uuid` parser, as its `Display` writes it.
#[verifier::external_body]
pub(crate) fn uuid_error_text(error: &uuid::Error) -> (r: String)
{
    error.to_string()
}

/// `Uuid::new_v4`, then `Uuid::as_u128`. The value is drawn at random, so
/// nothing is said of it.
#[verifier::external_body]
pub(crate) fn fresh_uuid() -> (r: u128)
{
    uuid::Uuid::new_v4().as_u128()
}

} // verus!
