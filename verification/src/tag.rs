//! Package tags. A tag is held as its 32-bit hash.

use crate::text::hex_fixed_text;
use vstd::prelude::*;

verus! {

/// The hash that stands for no tag.
pub const NO_TAG: u32 = 0xffff_ffff;

/// A hash names a package entry.
pub open spec fn is_tag(hash: u32) -> bool {
    hash != NO_TAG && 0x8080_0000 < hash <= 0x81ff_ffff
}

/// The text of a hash: eight upper-case hexadecimal digits.
pub open spec fn tag_label(hash: u32) -> Seq<char> {
    hex_fixed_text(hash as nat, 8, true)
}

/// Calls `tiger_pkg::TagHash::is_some`: true of every hash above 0x80800000 and
/// up to 0x81ffffff, and of no other.
#[verifier::external_body]
pub(crate) fn tag_is_some(hash: u32) -> (present: bool)
    ensures
        present == is_tag(hash),
{
    tiger_pkg::TagHash(hash).is_some()
}

/// Calls `tiger_pkg::TagHash::is_none`: true of the hash with all bits set and
/// of no other.
#[verifier::external_body]
pub(crate) fn tag_is_none(hash: u32) -> (absent: bool)
    ensures
        absent == (hash == NO_TAG),
{
    tiger_pkg::TagHash(hash).is_none()
}

/// Calls the `Display` of `tiger_pkg::TagHash`, which in its default
/// configuration writes the hash as eight upper-case hexadecimal digits.
#[verifier::external_body]
pub(crate) fn tag_text(hash: u32) -> (text: String)
    ensures
        text@ == tag_label(hash),
{
    tiger_pkg::TagHash(hash).to_string()
}

} // verus!
