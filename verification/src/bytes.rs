//! Little-endian integers in byte strings.

use vstd::prelude::*;

verus! {

/// The 16-bit value stored little-endian at `at`.
pub open spec fn le_u16(s: Seq<u8>, at: int) -> u16 {
    (s[at] + 0x100 * s[at + 1]) as u16
}

/// The 32-bit value stored little-endian at `at`.
pub open spec fn le_u32(s: Seq<u8>, at: int) -> u32 {
    (s[at] + 0x100 * s[at + 1] + 0x1_0000 * s[at + 2] + 0x100_0000 * s[at + 3]) as u32
}

/// The 64-bit value stored little-endian at `at`.
pub open spec fn le_u64(s: Seq<u8>, at: int) -> u64 {
    (le_u32(s, at) + 0x1_0000_0000 * le_u32(s, at + 4)) as u64
}

pub fn get_le_u16(bytes: &[u8], at: usize) -> (value: u16)
    requires
        at + 2 <= bytes@.len(),
    ensures
        value == le_u16(bytes@, at as int),
{
    bytes[at] as u16 + 0x100 * bytes[at + 1] as u16
}

pub fn get_le_u32(bytes: &[u8], at: usize) -> (value: u32)
    requires
        at + 4 <= bytes@.len(),
    ensures
        value == le_u32(bytes@, at as int),
{
    bytes[at] as u32 + 0x100 * bytes[at + 1] as u32 + 0x1_0000 * bytes[at + 2] as u32
        + 0x100_0000 * bytes[at + 3] as u32
}

pub fn get_le_u64(bytes: &[u8], at: usize) -> (value: u64)
    requires
        at + 8 <= bytes@.len(),
    ensures
        value == le_u64(bytes@, at as int),
{
    let low: u32 = get_le_u32(bytes, at);
    let length: usize = bytes.len();
    assert(at + 8 <= length);
    low as u64 + 0x1_0000_0000 * get_le_u32(bytes, at + 4) as u64
}


/// The four bytes of a word, lowest first.
#[verifier::opaque]
pub open spec fn u32_bytes(word: u32) -> Seq<u8> {
    seq![
        (word % 0x100) as u8,
        (word / 0x100 % 0x100) as u8,
        (word / 0x1_0000 % 0x100) as u8,
        (word / 0x100_0000) as u8,
    ]
}

/// The eight bytes of a double word, lowest first.
#[verifier::opaque]
pub open spec fn u64_bytes(word: u64) -> Seq<u8> {
    u32_bytes((word % 0x1_0000_0000) as u32) + u32_bytes((word / 0x1_0000_0000) as u32)
}

pub proof fn lemma_byte_lengths()
    ensures
        forall|word: u32| #[trigger] u32_bytes(word).len() == 4,
        forall|word: u64| #[trigger] u64_bytes(word).len() == 8,
{
    reveal(u32_bytes);
    reveal(u64_bytes);
}

/// Reading back the bytes of a word gives the word.
pub proof fn law_u32_bytes_read_back(s: Seq<u8>, at: int, word: u32)
    requires
        0 <= at,
        at + 4 <= s.len(),
        s.subrange(at, at + 4) == u32_bytes(word),
    ensures
        le_u32(s, at) == word,
{
    reveal(u32_bytes);
    let part = s.subrange(at, at + 4);
    assert(s[at] == part[0] && s[at + 1] == part[1] && s[at + 2] == part[2] && s[at + 3]
        == part[3]);
}

/// Reading back the bytes of a double word gives the double word.
pub proof fn law_u64_bytes_read_back(s: Seq<u8>, at: int, word: u64)
    requires
        0 <= at,
        at + 8 <= s.len(),
        s.subrange(at, at + 8) == u64_bytes(word),
    ensures
        le_u64(s, at) == word,
{
    reveal(u32_bytes);
    reveal(u64_bytes);
    let low = (word % 0x1_0000_0000) as u32;
    let high = (word / 0x1_0000_0000) as u32;
    let part = s.subrange(at, at + 8);
    assert(s.subrange(at, at + 4) =~= part.subrange(0, 4));
    assert(part.subrange(0, 4) =~= u32_bytes(low));
    assert(s.subrange(at + 4, at + 8) =~= part.subrange(4, 8));
    assert(part.subrange(4, 8) =~= u32_bytes(high));
    law_u32_bytes_read_back(s, at, low);
    law_u32_bytes_read_back(s, at + 4, high);
}

} // verus!
