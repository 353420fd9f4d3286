//! Message identifiers: 128-bit UUIDs, drawn and written by the uuid crate.
use vstd::prelude::*;

verus! {

/// The lower-case hexadecimal digit of a value below 16.
pub open spec fn hex_digit(n: int) -> char {
    if n == 0 {
        '0'
    } else if n == 1 {
        '1'
    } else if n == 2 {
        '2'
    } else if n == 3 {
        '3'
    } else if n == 4 {
        '4'
    } else if n == 5 {
        '5'
    } else if n == 6 {
        '6'
    } else if n == 7 {
        '7'
    } else if n == 8 {
        '8'
    } else if n == 9 {
        '9'
    } else if n == 10 {
        'a'
    } else if n == 11 {
        'b'
    } else if n == 12 {
        'c'
    } else if n == 13 {
        'd'
    } else if n == 14 {
        'e'
    } else {
        'f'
    }
}

/// The `k`-th four-bit digit of `v`, counting from the most significant one.
pub open spec fn nibble(v: u128, k: int) -> int {
    ((v >> ((124 - 4 * k) as u128)) & 0xf) as int
}

/// The digit of the UUID written at position `p` of its hyphenated text.
pub open spec fn nibble_at(p: int) -> int {
    if p < 8 {
        p
    } else if p < 13 {
        p - 1
    } else if p < 18 {
        p - 2
    } else if p < 23 {
        p - 3
    } else {
        p - 4
    }
}

/// The hyphenated lower-case text of a UUID, such as
/// `67e55044-10b1-426f-9247-bb680e5fe0c8`: 32 hexadecimal digits, most significant
/// first, with hyphens after the 8th, 12th, 16th and 20th digit.
pub open spec fn uuid_text(v: u128) -> Seq<char> {
    Seq::new(
        36,
        |p: int|
            if p == 8 || p == 13 || p == 18 || p == 23 {
                '-'
            } else {
                hex_digit(nibble(v, nibble_at(p)))
            },
    )
}

/// The UUID that uuid's `Uuid::parse_str` reads from the text, if it reads one.
pub uninterp spec fn spec_parse_uuid(text: Seq<char>) -> Option<u128>;

/// A fresh random identifier (see `random_uuid`). Nothing is stated of its value:
/// it is random.
pub fn new_message_id() -> (id: u128) {
    random_uuid()
}

/// The hyphenated lower-case text of the identifier (see `uuid_text`).
pub fn id_text(id: u128) -> (s: String)
    ensures
        s@ == uuid_text(id),
{
    hyphenated(id)
}

/// The identifier that text names, in any of the forms uuid reads (see
/// `spec_parse_uuid`); the hyphenated text of an identifier always names it.
pub fn parse_id(text: &str) -> (r: Option<u128>)
    ensures
        r == spec_parse_uuid(text@),
        forall|v: u128| text@ == uuid_text(v) ==> r == Some(v),
{
    read_uuid(text)
}

/// A random version-4 UUID drawn by uuid's `Uuid::new_v4`, as its 128 bits.
#[verifier::external_body]
fn random_uuid() -> u128 {
    uuid::Uuid::new_v4().as_u128()
}

/// The text that uuid's `Display` writes for the UUID with these 128 bits: its
/// hyphenated lower-case form.
#[verifier::external_body]
fn hyphenated(id: u128) -> (s: String)
    ensures
        s@ == uuid_text(id),
{
    uuid::Uuid::from_u128(id).to_string()
}

/// The UUID that uuid's `Uuid::parse_str` reads from the text, as its 128 bits. The
/// parser takes the hyphenated form (among others) and reads it back as the UUID
/// it was written for.
#[verifier::external_body]
fn read_uuid(text: &str) -> (r: Option<u128>)
    ensures
        r == spec_parse_uuid(text@),
        forall|v: u128| text@ == uuid_text(v) ==> r == Some(v),
{
    match uuid::Uuid::parse_str(text) {
        Ok(u) => Some(u.as_u128()),
        Err(_) => None,
    }
}

} // verus!
