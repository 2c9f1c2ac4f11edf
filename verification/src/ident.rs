//! Identifiers of resources and their text form.
//!
//! An identifier is a 128-bit token. Its text form is the one the `uuid`
//! crate prints: 32 lower-case hexadecimal digits in groups of 8, 4, 4, 4
//! and 12, joined by hyphens.

use vstd::arithmetic::div_mod::{lemma_breakdown, lemma_mod_bound, lemma_small_mod};
use vstd::arithmetic::power::{lemma_pow0, lemma_pow1, lemma_pow_adds, lemma_pow_positive, pow};
use vstd::prelude::*;

verus! {

/// The lower-case hexadecimal digit for a value below 16.
pub open spec fn hex_digit(nibble: int) -> char {
    if nibble < 10 {
        (48 + nibble) as char
    } else {
        (87 + nibble) as char
    }
}

/// How many hexadecimal digits stand before position `at` of the text form.
pub open spec fn digits_before(at: int) -> int {
    if at < 8 {
        at
    } else if at < 13 {
        at - 1
    } else if at < 18 {
        at - 2
    } else if at < 23 {
        at - 3
    } else {
        at - 4
    }
}

/// The hexadecimal digit of `id` that counts sixteen to the power `place`.
pub open spec fn nibble(id: u128, place: nat) -> int {
    (id as int / pow(16, place)) % 16
}

/// The character at position `at` of the text form of `id`.
pub open spec fn id_text_char(id: u128, at: int) -> char {
    if at == 8 || at == 13 || at == 18 || at == 23 {
        '-'
    } else {
        hex_digit(nibble(id, (31 - digits_before(at)) as nat))
    }
}

/// Where the digit for sixteen to the power `place` stands in the text.
pub open spec fn digit_position(place: nat) -> int {
    let nth = 31 - place;
    if nth < 8 {
        nth
    } else if nth < 12 {
        nth + 1
    } else if nth < 16 {
        nth + 2
    } else if nth < 20 {
        nth + 3
    } else {
        nth + 4
    }
}

/// The text form of an identifier: 36 characters, most significant digit
/// first.
pub open spec fn id_text_spec(id: u128) -> Seq<char> {
    Seq::new(36, |at: int| id_text_char(id, at))
}

/// What `uuid::Uuid::parse_str` makes of a text: the identifier it reads,
/// or `None` where it rejects the text.
pub uninterp spec fn parsed_id(text: Seq<char>) -> Option<u128>;

/// Calls `uuid::Uuid::from_u128` and prints the value with the crate's
/// `Display`, which writes the hyphenated lower-case form. Believed, not
/// proved: that the text is exactly [`id_text_spec`].
#[verifier::external_body]
pub(crate) fn uuid_to_text(id: u128) -> (text: String)
    ensures
        text@ == id_text_spec(id),
{
    uuid::Uuid::from_u128(id).to_string()
}

/// Calls `uuid::Uuid::parse_str` and hands back the 128-bit value of what
/// it read (`uuid::Uuid::as_u128`). Believed, not proved: that the outcome
/// depends on the text alone.
#[verifier::external_body]
pub(crate) fn uuid_from_text(text: &str) -> (id: Option<u128>)
    ensures
        id == parsed_id(text@),
{
    match uuid::Uuid::parse_str(text) {
        Ok(value) => Some(value.as_u128()),
        Err(_) => None,
    }
}

/// The text form of `id`.
pub fn id_text(id: u128) -> (text: String)
    ensures
        text@ == id_text_spec(id),
        text@.len() == 36,
{
    uuid_to_text(id)
}

/// The identifier a parameter stands for: the parsed value, or the nil
/// identifier where nothing was parsed.
pub fn id_or_nil(parsed: Option<u128>) -> (id: u128)
    ensures
        id == match parsed {
            Some(value) => value,
            None => 0u128,
        },
{
    match parsed {
        Some(value) => value,
        None => 0,
    }
}

/// Reads an identifier from a route parameter. An absent parameter and a
/// text that is no identifier both give the nil identifier.
pub fn id_from_param(raw: Option<&str>) -> (id: u128)
    ensures
        id == match raw {
            Some(text) => match parsed_id(text@) {
                Some(value) => value,
                None => 0u128,
            },
            None => 0u128,
        },
{
    match raw {
        Some(text) => id_or_nil(uuid_from_text(text)),
        None => 0,
    }
}

/// The text form has a hyphen at each of its four joints and nowhere a
/// character that is not a lower-case hexadecimal digit or a hyphen.
pub proof fn lemma_id_text_shape(id: u128, at: int)
    requires
        0 <= at < 36,
    ensures
        id_text_spec(id).len() == 36,
        (at == 8 || at == 13 || at == 18 || at == 23) ==> id_text_spec(id)[at] == '-',
        !(at == 8 || at == 13 || at == 18 || at == 23) ==> {
            let c = id_text_spec(id)[at];
            ('0' <= c <= '9') || ('a' <= c <= 'f')
        },
{
    lemma_nibble_is_a_digit(id, (31 - digits_before(at)) as nat);
}

proof fn lemma_nibble_is_a_digit(id: u128, place: nat)
    ensures
        0 <= nibble(id, place) < 16,
{
    lemma_pow_positive(16, place);
    lemma_mod_bound(id as int / pow(16, place), 16);
}

proof fn lemma_sixteen_to_the_32()
    ensures
        pow(16, 32) == 0x1_0000_0000_0000_0000_0000_0000_0000_0000,
{
    lemma_pow1(16);
    lemma_pow_adds(16, 1, 1);
    assert(pow(16, 2) == 0x100);
    lemma_pow_adds(16, 2, 2);
    assert(pow(16, 4) == 0x1_0000);
    lemma_pow_adds(16, 4, 4);
    assert(pow(16, 8) == 0x1_0000_0000);
    lemma_pow_adds(16, 8, 8);
    assert(pow(16, 16) == 0x1_0000_0000_0000_0000);
    lemma_pow_adds(16, 16, 16);
}

proof fn lemma_low_digits_agree(a: u128, b: u128, places: nat)
    requires
        forall|place: nat| place < places ==> nibble(a, place) == nibble(b, place),
    ensures
        (a as int) % pow(16, places) == (b as int) % pow(16, places),
    decreases places,
{
    if places == 0 {
        lemma_pow0(16);
    } else {
        let below = (places - 1) as nat;
        lemma_low_digits_agree(a, b, below);
        lemma_pow_positive(16, below);
        lemma_pow_adds(16, below, 1);
        lemma_pow1(16);
        lemma_breakdown(a as int, pow(16, below), 16);
        lemma_breakdown(b as int, pow(16, below), 16);
        assert(nibble(a, below) == nibble(b, below));
    }
}

/// Two identifiers with the same text form are the same identifier: the
/// text of a row's identifier names that row and no other.
pub proof fn lemma_id_text_is_injective(a: u128, b: u128)
    requires
        id_text_spec(a) == id_text_spec(b),
    ensures
        a == b,
{
    assert forall|place: nat| place < 32 implies nibble(a, place) == nibble(b, place) by {
        let at = digit_position(place);
        assert(id_text_spec(a)[at] == id_text_char(a, at));
        assert(id_text_spec(b)[at] == id_text_char(b, at));
        assert(digits_before(at) == 31 - place);
        lemma_nibble_is_a_digit(a, place);
        lemma_nibble_is_a_digit(b, place);
        assert(hex_digit(nibble(a, place)) == hex_digit(nibble(b, place)));
    }
    lemma_low_digits_agree(a, b, 32);
    lemma_sixteen_to_the_32();
    lemma_small_mod(a as nat, pow(16, 32) as nat);
    lemma_small_mod(b as nat, pow(16, 32) as nat);
}

} // verus!
