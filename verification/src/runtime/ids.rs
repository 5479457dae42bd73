//! The identifiers of modules and functions: short strings of URL-safe
//! characters, drawn at random.

use vstd::prelude::*;

verus! {

/// How many characters a module id has.
pub const MODULE_ID_LEN: usize = 20;

/// How many characters a function id has.
pub const FUNCTION_ID_LEN: usize = 10;

/// Whether `c` is one of the 64 characters that identifiers are drawn from:
/// `_`, `-`, a digit or an ASCII letter.
pub open spec fn is_url_safe(c: char) -> bool {
    c == '_' || c == '-' || ('0' <= c && c <= '9') || ('a' <= c && c <= 'z') || ('A' <= c && c
        <= 'Z')
}

/// Says whether `c` is one of the 64 characters that identifiers are drawn
/// from.
pub fn is_url_safe_char(c: char) -> (safe: bool)
    ensures
        safe == is_url_safe(c),
{
    c == '_' || c == '-' || ('0' <= c && c <= '9') || ('a' <= c && c <= 'z') || ('A' <= c && c
        <= 'Z')
}

/// Whether `id` is made of `len` URL-safe characters.
pub open spec fn is_id(id: Seq<char>, len: nat) -> bool {
    id.len() == len && forall|i: int| 0 <= i < id.len() ==> is_url_safe(#[trigger] id[i])
}

/// `nanoid::format`, with `nanoid::rngs::default` as the source of random
/// bytes and `nanoid::alphabet::SAFE` as the alphabet, returns a string of
/// `size` characters, each drawn from that alphabet. For a `size` of 0 it
/// does not return, and it multiplies `size` by 8. Which characters come
/// out is left open: they depend on the random bytes, which come from the
/// operating system. Not proved.
#[verifier::external_body]
pub(crate) fn random_id(size: usize) -> (id: String)
    requires
        0 < size <= usize::MAX / 8,
    ensures
        is_id(id@, size as nat),
{
    nanoid::format(nanoid::rngs::default, &nanoid::alphabet::SAFE, size)
}

} // verus!
