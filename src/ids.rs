//! Identifiers: 32 upper-case hexadecimal digits drawn from a random UUID.

use uuid::Uuid;
use vstd::prelude::*;

verus! {

/// Number of characters in an identifier.
pub const ID_LEN: usize = 32;

/// An upper-case hexadecimal digit: `0`-`9` or `A`-`F`.
pub open spec fn is_upper_hex_digit(c: char) -> bool {
    ('0' <= c && c <= '9') || ('A' <= c && c <= 'F')
}

/// The shape of every identifier this library hands out.
pub open spec fn is_id(s: Seq<char>) -> bool {
    &&& s.len() == ID_LEN
    &&& forall|i: int| 0 <= i < s.len() ==> is_upper_hex_digit(#[trigger] s[i])
}

#[verifier::external_type_specification]
#[verifier::external_body]
pub struct ExUuid(Uuid);

/// Relies on `uuid::Uuid::new_v4`: sixteen bytes from the system's random
/// source (it panics when that source fails). Nothing is promised of the value.
pub assume_specification[ Uuid::new_v4 ]() -> Uuid;

/// Relies on `uuid::adapter::Simple::encode_upper` (reached through
/// `Uuid::to_simple`): it writes the sixteen bytes as 32 digits taken from
/// `0123456789ABCDEF` and returns that part of the buffer.
#[verifier::external_body]
fn encode_simple_upper(u: &Uuid) -> (r: String)
    ensures
        is_id(r@),
{
    let mut buf = [b'!'; 36];
    u.to_simple().encode_upper(&mut buf).to_string()
}

/// A fresh identifier for a new entity, made from a random (version 4) UUID.
pub fn get_id() -> (r: String)
    ensures
        is_id(r@),
{
    let u = Uuid::new_v4();
    encode_simple_upper(&u)
}

} // verus!
