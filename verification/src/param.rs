//! Reading the parameters of a request.
//!
//! A request carries its parameters as pairs of name and text. A list
//! reads four of them: `search` and `order`, which default to the empty
//! text, and `page` and `size`, which are positive integers written in
//! decimal digits. A `page` or `size` that is absent, or that is no such
//! number, falls back to its default, and `size` is capped.

use crate::list::ListQuery;
use vstd::prelude::*;
use vstd::string::*;

verus! {

/// The page shown when the request names none.
pub const DEFAULT_PAGE: i64 = 1;

/// The rows per page when the request names no size.
pub const DEFAULT_SIZE: i64 = 20;

/// The most rows per page that a request can ask for.
pub const MAX_SIZE: i64 = 100;

/// The parameters of a request, in the order in which they were given.
pub type Params = Vec<(String, String)>;

/// The text given for `name`: that of the first pair with this name.
pub open spec fn lookup_spec(params: Seq<(String, String)>, name: Seq<char>) -> Option<Seq<char>>
    decreases params.len(),
{
    if params.len() == 0 {
        None
    } else if params[0].0@ == name {
        Some(params[0].1@)
    } else {
        lookup_spec(params.drop_first(), name)
    }
}

/// Whether `c` is one of the ten decimal digits.
pub open spec fn is_digit(c: char) -> bool {
    '0' <= c <= '9'
}

/// The number that a sequence of decimal digits writes.
pub open spec fn digits_value(digits: Seq<char>) -> nat
    decreases digits.len(),
{
    if digits.len() == 0 {
        0
    } else {
        digits_value(digits.drop_last()) * 10 + (digits.last() as nat - '0' as nat) as nat
    }
}

/// The positive integer that `text` writes: `text` is one or more decimal
/// digits and nothing else, and its value is above zero and fits.
pub open spec fn positive_spec(text: Seq<char>) -> Option<i64> {
    if text.len() > 0 && (forall|i: int| 0 <= i < text.len() ==> is_digit(#[trigger] text[i])) && 0
        < digits_value(text) <= i64::MAX {
        Some(digits_value(text) as i64)
    } else {
        None
    }
}

/// The page a request asks for.
pub open spec fn page_spec(params: Seq<(String, String)>) -> i64 {
    match lookup_spec(params, "page"@) {
        Some(text) => match positive_spec(text) {
            Some(page) => page,
            None => DEFAULT_PAGE,
        },
        None => DEFAULT_PAGE,
    }
}

/// The page size a request asks for, capped at [`MAX_SIZE`].
pub open spec fn size_spec(params: Seq<(String, String)>) -> i64 {
    match lookup_spec(params, "size"@) {
        Some(text) => match positive_spec(text) {
            Some(size) => if size > MAX_SIZE {
                MAX_SIZE
            } else {
                size
            },
            None => DEFAULT_SIZE,
        },
        None => DEFAULT_SIZE,
    }
}

/// The text a request gives for `name`, or the empty text.
pub open spec fn param_spec(params: Seq<(String, String)>, name: Seq<char>) -> Seq<char> {
    match lookup_spec(params, name) {
        Some(text) => text,
        None => Seq::empty(),
    }
}

proof fn lemma_digits_value_grows(digits: Seq<char>, upto: int)
    requires
        0 <= upto <= digits.len(),
        forall|i: int| 0 <= i < digits.len() ==> is_digit(#[trigger] digits[i]),
    ensures
        digits_value(digits.take(upto)) <= digits_value(digits),
    decreases digits.len() - upto,
{
    if upto < digits.len() {
        let longer = digits.take(upto + 1);
        assert(longer.drop_last() =~= digits.take(upto));
        assert(is_digit(longer.last()));
        lemma_digits_value_grows(digits, upto + 1);
    } else {
        assert(digits.take(upto) =~= digits);
    }
}

/// Looks up the text given for `name`.
pub fn lookup<'a>(params: &'a Params, name: &str) -> (found: Option<&'a String>)
    ensures
        match found {
            Some(text) => lookup_spec(params@, name@) == Some(text@),
            None => lookup_spec(params@, name@) is None,
        },
{
    let wanted = String::from_str(name);
    let mut at: usize = 0;
    assert(params@.skip(0) =~= params@);
    while at < params.len()
        invariant
            at <= params.len(),
            wanted@ == name@,
            lookup_spec(params@, name@) == lookup_spec(params@.skip(at as int), name@),
        decreases params.len() - at,
    {
        let ghost rest = params@.skip(at as int);
        assert(rest[0] == params@[at as int]);
        assert(rest.drop_first() =~= params@.skip(at + 1));
        if params[at].0 == wanted {
            return Some(&params[at].1);
        }
        at += 1;
    }
    assert(params@.skip(at as int).len() == 0);
    None
}

/// Reads a positive integer written in decimal digits.
pub fn parse_positive(text: &str) -> (number: Option<i64>)
    ensures
        number == positive_spec(text@),
{
    let len = text.unicode_len();
    if len == 0 {
        return None;
    }
    let mut value: i64 = 0;
    let mut at: usize = 0;
    while at < len
        invariant
            at <= len,
            len == text@.len(),
            forall|i: int| 0 <= i < at ==> is_digit(#[trigger] text@[i]),
            0 <= value,
            value == digits_value(text@.take(at as int)),
        decreases len - at,
    {
        let c = text.get_char(at);
        if c < '0' || c > '9' {
            return None;
        }
        let digit: i64 = (c as u32 - '0' as u32) as i64;
        proof {
            let longer = text@.take(at + 1);
            assert(longer.drop_last() =~= text@.take(at as int));
            assert(longer.last() == c);
            assert(digits_value(longer) == value * 10 + digit);
        }
        if value > (i64::MAX - digit) / 10 {
            proof {
                if forall|i: int| 0 <= i < text@.len() ==> is_digit(#[trigger] text@[i]) {
                    lemma_digits_value_grows(text@, at + 1);
                }
            }
            return None;
        }
        value = value * 10 + digit;
        at += 1;
    }
    assert(text@.take(at as int) =~= text@);
    if value == 0 {
        None
    } else {
        Some(value)
    }
}

/// The text a request gives for `name`, or the empty text where it gives
/// none.
pub fn extract_param(params: &Params, name: &str) -> (text: String)
    ensures
        text@ == param_spec(params@, name@),
{
    match lookup(params, name) {
        Some(found) => found.clone(),
        None => String::new(),
    }
}

/// The page a request asks for: its `page` where that is a positive
/// integer, and else the first page.
pub fn extract_page(params: &Params) -> (page: i64)
    ensures
        page == page_spec(params@),
        page >= 1,
{
    match lookup(params, "page") {
        Some(found) => match parse_positive(found.as_str()) {
            Some(page) => page,
            None => DEFAULT_PAGE,
        },
        None => DEFAULT_PAGE,
    }
}

/// The page size a request asks for: its `size` where that is a positive
/// integer, capped at [`MAX_SIZE`], and else [`DEFAULT_SIZE`].
pub fn extract_size(params: &Params) -> (size: i64)
    ensures
        size == size_spec(params@),
        1 <= size <= MAX_SIZE,
{
    match lookup(params, "size") {
        Some(found) => match parse_positive(found.as_str()) {
            Some(size) => if size > MAX_SIZE {
                MAX_SIZE
            } else {
                size
            },
            None => DEFAULT_SIZE,
        },
        None => DEFAULT_SIZE,
    }
}

/// The slug in the address of a detail page, or the empty text.
pub fn get_slug(params: &Params) -> (slug: String)
    ensures
        slug@ == param_spec(params@, "slug"@),
{
    extract_param(params, "slug")
}

/// What a list page asks for, read from the parameters of its request.
pub fn list_query(params: &Params) -> (query: ListQuery)
    ensures
        query.search@ == param_spec(params@, "search"@),
        query.order@ == param_spec(params@, "order"@),
        query.size == size_spec(params@),
        query.page == page_spec(params@),
        1 <= query.size <= MAX_SIZE,
        1 <= query.page,
{
    ListQuery {
        search: extract_param(params, "search"),
        order: extract_param(params, "order"),
        size: extract_size(params),
        page: extract_page(params),
    }
}

} // verus!
