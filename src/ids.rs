use vstd::prelude::*;
use vstd::arithmetic::power2::pow2;

verus! {

/// What `Uuid::parse_str` yields on a string: the identifier's 128-bit value,
/// or the text of the parse error.
pub uninterp spec fn uuid_parse(s: Seq<char>) -> Result<u128, Seq<char>>;

/// The lower-case hexadecimal digit for `n` in `0..16`.
pub open spec fn hex_digit(n: int) -> char {
    seq!['0', '1', '2', '3', '4', '5', '6', '7', '8', '9', 'a', 'b', 'c', 'd', 'e', 'f'][n]
}

/// Number of hyphens that precede position `i` of the hyphenated form.
pub open spec fn hyphens_before(i: int) -> int {
    if i <= 8 {
        0
    } else if i <= 13 {
        1
    } else if i <= 18 {
        2
    } else if i <= 23 {
        3
    } else {
        4
    }
}

/// The `k`-th hexadecimal digit of `u`, most significant first.
pub open spec fn nibble(u: u128, k: int) -> int {
    (u as int / pow2((4 * (31 - k)) as nat) as int) % 16
}

/// The hyphenated lower-case text of an identifier,
/// `xxxxxxxx-xxxx-xxxx-xxxx-xxxxxxxxxxxx`.
pub open spec fn hyphenated(u: u128) -> Seq<char> {
    Seq::new(
        36,
        |i: int|
            if i == 8 || i == 13 || i == 18 || i == 23 {
                '-'
            } else {
                hex_digit(nibble(u, i - hyphens_before(i)))
            },
    )
}

/// Relies on `Uuid::parse_str` (uuid, re-exported by sqlx) to read an
/// identifier, and on the error's `to_string` for the message.
#[verifier::external_body]
pub(crate) fn parse_uuid(s: &str) -> (r: Result<u128, String>)
    ensures
        r is Ok <==> uuid_parse(s@) is Ok,
        r is Ok ==> uuid_parse(s@)->Ok_0 == r->Ok_0,
        r is Err ==> uuid_parse(s@)->Err_0 == r->Err_0@,
{
    match sqlx::types::Uuid::parse_str(s) {
        Ok(u) => Ok(u.as_u128()),
        Err(e) => Err(e.to_string()),
    }
}

/// Relies on `Uuid::from_u128` and uuid's `Display`, which writes the
/// hyphenated lower-case form that `Uuid::parse_str` reads back.
#[verifier::external_body]
pub(crate) fn uuid_text(u: u128) -> (r: String)
    ensures
        r@ == hyphenated(u),
        uuid_parse(r@) is Ok && uuid_parse(r@)->Ok_0 == u,
{
    sqlx::types::Uuid::from_u128(u).to_string()
}

} // verus!
