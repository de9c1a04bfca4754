//! Channel defaults: the positional vector table that a renderer starts from.
//!
//! A channel-default payload holds three vectors after its file-size field:
//! channel hashes, positional values and an auxiliary array. Each descriptor is
//! a 64-bit count and a signed pointer relative to the pointer field itself.
//! Each target repeats the count and carries an eight-byte element header
//! before its elements.

use crate::bytes::{
    get_le_u32, get_le_u64, lemma_byte_lengths, law_u32_bytes_read_back, law_u64_bytes_read_back, le_u32, le_u64,
    u32_bytes, u64_bytes,
};
use crate::text::{decimal, decimal_text, hex, hex_text, outcome, Error};
use vstd::prelude::*;

verus! {

/// Four single-precision floats, held as their IEEE 754 bit patterns.
#[derive(Clone, Copy, Debug, PartialEq, Eq, Structural)]
pub struct Vec4Bits {
    pub x: u32,
    pub y: u32,
    pub z: u32,
    pub w: u32,
}

/// The bit pattern of 1.0.
pub const ONE_BITS: u32 = 0x3f80_0000;

/// The bit pattern of 0.5.
pub const HALF_BITS: u32 = 0x3f00_0000;

/// The bit pattern of 0.3.
pub const THREE_TENTHS_BITS: u32 = 0x3e99_999a;

/// The bit pattern of 50.0.
pub const FIFTY_BITS: u32 = 0x4248_0000;

/// Bytes before the first vector of a channel-default payload.
pub const ROOT_HEADER_SIZE: usize = 0x38;

pub const HASH_COUNT_OFFSET: usize = 0x08;

pub const HASH_POINTER_OFFSET: usize = 0x10;

pub const VALUE_COUNT_OFFSET: usize = 0x18;

pub const VALUE_POINTER_OFFSET: usize = 0x20;

pub const AUXILIARY_COUNT_OFFSET: usize = 0x28;

pub const AUXILIARY_POINTER_OFFSET: usize = 0x30;

/// Bytes between a vector's target and its first element.
pub const TARGET_HEADER_SIZE: usize = 0x10;

impl Vec4Bits {
    pub open spec fn of(x: u32, y: u32, z: u32, w: u32) -> Vec4Bits {
        Vec4Bits { x, y, z, w }
    }

    pub fn new(x: u32, y: u32, z: u32, w: u32) -> (value: Vec4Bits)
        ensures
            value == Vec4Bits::of(x, y, z, w),
    {
        Vec4Bits { x, y, z, w }
    }
}

/// The default of one positional channel where the package gives none.
pub open spec fn global_channel(index: int) -> Vec4Bits {
    if index == 10 || index == 82 || index == 83 || index == 97 || index == 98 || index == 100
        || index == 127 {
        Vec4Bits::of(0, 0, 0, 0)
    } else if index == 27 || index == 32 || index == 34 || index == 93 {
        Vec4Bits::of(ONE_BITS, 0, 0, 0)
    } else if index == 37 || index == 41 {
        Vec4Bits::of(FIFTY_BITS, 0, 0, 0)
    } else if index == 131 {
        Vec4Bits::of(HALF_BITS, HALF_BITS, THREE_TENTHS_BITS, 0)
    } else {
        Vec4Bits::of(ONE_BITS, ONE_BITS, ONE_BITS, ONE_BITS)
    }
}

/// The table of 256 positional defaults.
pub open spec fn global_channels() -> Seq<Vec4Bits> {
    Seq::new(256, |i: int| global_channel(i))
}

/// Documented positional defaults. They are positions, not hashes.
pub fn global_channel_defaults() -> (channels: [Vec4Bits; 256])
    ensures
        channels@ == global_channels(),
{
    let one = Vec4Bits::new(ONE_BITS, ONE_BITS, ONE_BITS, ONE_BITS);
    let zero = Vec4Bits::new(0, 0, 0, 0);
    let unit_x = Vec4Bits::new(ONE_BITS, 0, 0, 0);
    let fifty_x = Vec4Bits::new(FIFTY_BITS, 0, 0, 0);
    let mut channels: [Vec4Bits; 256] = [one; 256];
    channels[10] = zero;
    channels[82] = zero;
    channels[83] = zero;
    channels[97] = zero;
    channels[98] = zero;
    channels[100] = zero;
    channels[127] = zero;
    channels[27] = unit_x;
    channels[32] = unit_x;
    channels[34] = unit_x;
    channels[93] = unit_x;
    channels[37] = fifty_x;
    channels[41] = fifty_x;
    channels[131] = Vec4Bits::new(HALF_BITS, HALF_BITS, THREE_TENTHS_BITS, 0);
    assert(channels@ =~= global_channels());
    channels
}


/// Where a vector of a payload lies: its count, its target, the end of its
/// elements and its element header.
pub struct VectorSpan {
    pub count: int,
    pub target: int,
    pub end: int,
    pub element_header: Seq<u8>,
}

/// A 64-bit field, or the message of its absence.
pub open spec fn field_u64(bytes: Seq<u8>, offset: int, label: Seq<char>) -> Result<
    u64,
    Seq<char>,
> {
    if offset + 8 > usize::MAX {
        Err(label + " offset overflow"@)
    } else if offset + 8 > bytes.len() {
        Err("truncated "@ + label + " at 0x"@ + hex_text(offset as nat))
    } else {
        Ok(le_u64(bytes, offset))
    }
}

/// The two's complement reading of a 64-bit word.
pub open spec fn signed(word: u64) -> i64 {
    (if word <= i64::MAX {
        word as int
    } else {
        word - 0x1_0000_0000_0000_0000
    }) as i64
}

pub open spec fn field_i64(bytes: Seq<u8>, offset: int, label: Seq<char>) -> Result<
    i64,
    Seq<char>,
> {
    match field_u64(bytes, offset, label) {
        Ok(word) => Ok(signed(word)),
        Err(message) => Err(message),
    }
}

/// `offset` bytes from `base`, if that is an address.
pub open spec fn relative(base: int, offset: int, label: Seq<char>) -> Result<usize, Seq<char>> {
    if 0 <= base + offset <= usize::MAX {
        Ok((base + offset) as usize)
    } else {
        Err(label + " points outside addressable range"@)
    }
}

/// Where the vector described at `count_offset` and `pointer_offset` lies, or
/// the message of the first thing wrong with it.
pub open spec fn vector_span(
    bytes: Seq<u8>,
    count_offset: int,
    pointer_offset: int,
    element_size: int,
    label: Seq<char>,
) -> Result<VectorSpan, Seq<char>> {
    match field_u64(bytes, count_offset, label + " count"@) {
        Err(message) => Err(message),
        Ok(count) => if count == 0 {
            Err(label + " count must be positive"@)
        } else if count > usize::MAX {
            Err(label + " count is too large"@)
        } else {
            match field_i64(bytes, pointer_offset, label + " pointer"@) {
                Err(message) => Err(message),
                Ok(offset) => match relative(pointer_offset, offset as int, label) {
                    Err(message) => Err(message),
                    Ok(target) => vector_span_at(
                        bytes,
                        count,
                        target as int,
                        element_size,
                        label,
                    ),
                },
            }
        },
    }
}

/// The checks that follow once the count and the target are known.
pub open spec fn vector_span_at(
    bytes: Seq<u8>,
    count: u64,
    target: int,
    element_size: int,
    label: Seq<char>,
) -> Result<VectorSpan, Seq<char>> {
    let start = target + TARGET_HEADER_SIZE;
    let length = count * element_size;
    if start > usize::MAX {
        Err(label + " target header overflows"@)
    } else if start > bytes.len() {
        Err(label + " target header at 0x"@ + hex_text(target as nat) + " is truncated"@)
    } else if le_u64(bytes, target) != count {
        Err(
            label + " descriptor count "@ + decimal_text(count as nat)
                + " disagrees with target count "@ + decimal_text(le_u64(bytes, target) as nat),
        )
    } else if length > usize::MAX {
        Err(label + " payload size overflows"@)
    } else if start + length > usize::MAX {
        Err(label + " payload end overflows"@)
    } else if start + length > bytes.len() {
        Err(
            label + " payload is truncated: need "@ + decimal_text(length as nat)
                + " bytes at 0x"@ + hex_text(start as nat),
        )
    } else {
        Ok(
            VectorSpan {
                count: count as int,
                target,
                end: start + length,
                element_header: bytes.subrange(target + 8, start),
            },
        )
    }
}

/// `label` followed by `rest`.
fn labelled(label: &str, rest: &str) -> (text: String)
    ensures
        text@ == label@ + rest@,
{
    let mut text = label.to_owned();
    text.append(rest);
    text
}

fn failure(label: &str, rest: &str) -> (error: Error)
    ensures
        error@ == label@ + rest@,
{
    Error { message: labelled(label, rest) }
}

/// Read a 64-bit field.
pub fn read_u64(bytes: &[u8], offset: usize, label: &str) -> (result: Result<u64, Error>)
    ensures
        match result {
            Ok(value) => field_u64(bytes@, offset as int, label@) == Ok::<u64, Seq<char>>(value),
            Err(error) => field_u64(bytes@, offset as int, label@) == Err::<u64, Seq<char>>(error@),
        },
{
    if offset > usize::MAX - 8 {
        return Err(failure(label, " offset overflow"));
    }
    if offset + 8 > bytes.len() {
        let mut message = "truncated ".to_owned();
        message.append(label);
        message.append(" at 0x");
        message.append(hex(offset as u64).as_str());
        return Err(Error { message });
    }
    Ok(get_le_u64(bytes, offset))
}

/// Read a signed 64-bit field.
pub fn read_i64(bytes: &[u8], offset: usize, label: &str) -> (result: Result<i64, Error>)
    ensures
        match result {
            Ok(value) => field_i64(bytes@, offset as int, label@) == Ok::<i64, Seq<char>>(value),
            Err(error) => field_i64(bytes@, offset as int, label@) == Err::<i64, Seq<char>>(error@),
        },
{
    match read_u64(bytes, offset, label) {
        Ok(word) => {
            if word <= i64::MAX as u64 {
                Ok(word as i64)
            } else {
                let distance: u64 = u64::MAX - word;
                Ok(-1 - (distance as i64))
            }
        },
        Err(error) => Err(error),
    }
}

/// The address `offset` bytes from `base`.
pub fn relative_offset(base: usize, offset: i64, label: &str) -> (result: Result<usize, Error>)
    ensures
        match result {
            Ok(value) => relative(base as int, offset as int, label@) == Ok::<usize, Seq<char>>(
                value,
            ),
            Err(error) => relative(base as int, offset as int, label@) == Err::<usize, Seq<char>>(
                error@,
            ),
        },
{
    if offset >= 0 {
        if offset as u64 <= (usize::MAX - base) as u64 {
            return Ok(base + offset as usize);
        }
    } else {
        let back: u64 = (-1 - offset) as u64;
        if back < base as u64 {
            return Ok(base - 1 - back as usize);
        }
    }
    Err(failure(label, " points outside addressable range"))
}

/// Locate a vector: its count, its target, the end of its elements and its
/// element header.
pub fn parse_vector_layout(
    bytes: &[u8],
    count_offset: usize,
    pointer_offset: usize,
    element_size: usize,
    label: &str,
) -> (result: Result<(usize, usize, usize, [u8; 8]), Error>)
    ensures
        match result {
            Ok(found) => vector_span(
                bytes@,
                count_offset as int,
                pointer_offset as int,
                element_size as int,
                label@,
            ) == Ok::<VectorSpan, Seq<char>>(
                (VectorSpan {
                    count: found.0 as int,
                    target: found.1 as int,
                    end: found.2 as int,
                    element_header: found.3@,
                }),
            ) && found.2 == found.1 + TARGET_HEADER_SIZE + found.0 * element_size && found.2
                <= bytes@.len(),
            Err(error) => vector_span(
                bytes@,
                count_offset as int,
                pointer_offset as int,
                element_size as int,
                label@,
            ) == Err::<VectorSpan, Seq<char>>(error@),
        },
{
    let count_word: u64 = match read_u64(bytes, count_offset, labelled(label, " count").as_str()) {
        Ok(value) => value,
        Err(error) => return Err(error),
    };
    if count_word == 0 {
        return Err(failure(label, " count must be positive"));
    }
    if count_word > usize::MAX as u64 {
        return Err(failure(label, " count is too large"));
    }
    let count: usize = count_word as usize;
    let offset: i64 = match read_i64(bytes, pointer_offset, labelled(label, " pointer").as_str()) {
        Ok(value) => value,
        Err(error) => return Err(error),
    };
    let target: usize = match relative_offset(pointer_offset, offset, label) {
        Ok(value) => value,
        Err(error) => return Err(error),
    };
    let start: usize = match target.checked_add(TARGET_HEADER_SIZE) {
        Some(value) => value,
        None => return Err(failure(label, " target header overflows")),
    };
    if start > bytes.len() {
        let mut message = labelled(label, " target header at 0x");
        message.append(hex(target as u64).as_str());
        message.append(" is truncated");
        return Err(Error { message });
    }
    let target_count: u64 = get_le_u64(bytes, target);
    if target_count != count_word {
        let mut message = labelled(label, " descriptor count ");
        message.append(decimal(count_word).as_str());
        message.append(" disagrees with target count ");
        message.append(decimal(target_count).as_str());
        return Err(Error { message });
    }
    let length: usize = match count.checked_mul(element_size) {
        Some(value) => value,
        None => return Err(failure(label, " payload size overflows")),
    };
    let end: usize = match start.checked_add(length) {
        Some(value) => value,
        None => return Err(failure(label, " payload end overflows")),
    };
    if end > bytes.len() {
        let mut message = labelled(label, " payload is truncated: need ");
        message.append(decimal(length as u64).as_str());
        message.append(" bytes at 0x");
        message.append(hex(start as u64).as_str());
        return Err(Error { message });
    }
    let header: [u8; 8] = [
        bytes[target + 8],
        bytes[target + 9],
        bytes[target + 10],
        bytes[target + 11],
        bytes[target + 12],
        bytes[target + 13],
        bytes[target + 14],
        bytes[target + 15],
    ];
    assert(header@ =~= bytes@.subrange(target + 8, start as int));
    Ok((count, target, end, header))
}


/// A decoded channel-default payload.
#[derive(Debug)]
pub struct ShadowkeepChannelDefaults {
    pub declared_file_size: u64,
    pub header_size: usize,
    pub hash_descriptor_offset: usize,
    pub value_descriptor_offset: usize,
    pub auxiliary_descriptor_offset: usize,
    pub hash_array_offset: usize,
    pub value_array_offset: usize,
    pub auxiliary_array_offset: usize,
    pub array_count: usize,
    pub auxiliary_count: usize,
    pub hash_element_header: [u8; 8],
    pub value_element_header: [u8; 8],
    pub auxiliary_element_header: [u8; 8],
    pub channel_hashes: Vec<u32>,
    pub values: Vec<Vec4Bits>,
    pub auxiliary_fields: Vec<u32>,
    pub interstitial_bytes: Vec<u8>,
    pub trailing_bytes: Vec<u8>,
}

/// What a decoded channel-default payload says.
#[verifier::ext_equal]
pub struct ChannelDefaultsView {
    pub declared_file_size: u64,
    pub header_size: usize,
    pub hash_descriptor_offset: usize,
    pub value_descriptor_offset: usize,
    pub auxiliary_descriptor_offset: usize,
    pub hash_array_offset: usize,
    pub value_array_offset: usize,
    pub auxiliary_array_offset: usize,
    pub array_count: usize,
    pub auxiliary_count: usize,
    pub hash_element_header: Seq<u8>,
    pub value_element_header: Seq<u8>,
    pub auxiliary_element_header: Seq<u8>,
    pub channel_hashes: Seq<u32>,
    pub values: Seq<Vec4Bits>,
    pub auxiliary_fields: Seq<u32>,
    pub interstitial_bytes: Seq<u8>,
    pub trailing_bytes: Seq<u8>,
}

impl View for ShadowkeepChannelDefaults {
    type V = ChannelDefaultsView;

    open spec fn view(&self) -> ChannelDefaultsView {
        ChannelDefaultsView {
            declared_file_size: self.declared_file_size,
            header_size: self.header_size,
            hash_descriptor_offset: self.hash_descriptor_offset,
            value_descriptor_offset: self.value_descriptor_offset,
            auxiliary_descriptor_offset: self.auxiliary_descriptor_offset,
            hash_array_offset: self.hash_array_offset,
            value_array_offset: self.value_array_offset,
            auxiliary_array_offset: self.auxiliary_array_offset,
            array_count: self.array_count,
            auxiliary_count: self.auxiliary_count,
            hash_element_header: self.hash_element_header@,
            value_element_header: self.value_element_header@,
            auxiliary_element_header: self.auxiliary_element_header@,
            channel_hashes: self.channel_hashes@,
            values: self.values@,
            auxiliary_fields: self.auxiliary_fields@,
            interstitial_bytes: self.interstitial_bytes@,
            trailing_bytes: self.trailing_bytes@,
        }
    }
}

/// The vector stored at `at`.
pub open spec fn vec4_at(bytes: Seq<u8>, at: int) -> Vec4Bits {
    Vec4Bits::of(
        le_u32(bytes, at),
        le_u32(bytes, at + 4),
        le_u32(bytes, at + 8),
        le_u32(bytes, at + 12),
    )
}

/// `count` words stored one after the other from `at`.
pub open spec fn words_at(bytes: Seq<u8>, at: int, count: int) -> Seq<u32> {
    Seq::new(count as nat, |i: int| le_u32(bytes, at + 4 * i))
}

/// `count` vectors stored one after the other from `at`.
pub open spec fn vectors_at(bytes: Seq<u8>, at: int, count: int) -> Seq<Vec4Bits> {
    Seq::new(count as nat, |i: int| vec4_at(bytes, at + 16 * i))
}

/// The three vectors of a payload, before they are held against each other.
pub open spec fn three_spans(bytes: Seq<u8>) -> Result<
    (VectorSpan, VectorSpan, VectorSpan),
    Seq<char>,
> {
    match vector_span(
        bytes,
        HASH_COUNT_OFFSET as int,
        HASH_POINTER_OFFSET as int,
        4,
        "channel hash vector"@,
    ) {
        Err(message) => Err(message),
        Ok(hashes) => match vector_span(
            bytes,
            VALUE_COUNT_OFFSET as int,
            VALUE_POINTER_OFFSET as int,
            16,
            "channel value vector"@,
        ) {
            Err(message) => Err(message),
            Ok(values) => match vector_span(
                bytes,
                AUXILIARY_COUNT_OFFSET as int,
                AUXILIARY_POINTER_OFFSET as int,
                4,
                "channel auxiliary vector"@,
            ) {
                Err(message) => Err(message),
                Ok(auxiliary) => Ok((hashes, values, auxiliary)),
            },
        },
    }
}

/// What three vectors in order say.
pub open spec fn defaults_of(
    bytes: Seq<u8>,
    hashes: VectorSpan,
    values: VectorSpan,
    auxiliary: VectorSpan,
) -> ChannelDefaultsView {
    ChannelDefaultsView {
        declared_file_size: bytes.len() as u64,
        header_size: ROOT_HEADER_SIZE,
        hash_descriptor_offset: HASH_COUNT_OFFSET,
        value_descriptor_offset: VALUE_COUNT_OFFSET,
        auxiliary_descriptor_offset: AUXILIARY_COUNT_OFFSET,
        hash_array_offset: hashes.target as usize,
        value_array_offset: values.target as usize,
        auxiliary_array_offset: auxiliary.target as usize,
        array_count: values.count as usize,
        auxiliary_count: auxiliary.count as usize,
        hash_element_header: hashes.element_header,
        value_element_header: values.element_header,
        auxiliary_element_header: auxiliary.element_header,
        channel_hashes: words_at(bytes, hashes.target + TARGET_HEADER_SIZE, hashes.count),
        values: vectors_at(bytes, values.target + TARGET_HEADER_SIZE, values.count),
        auxiliary_fields: words_at(
            bytes,
            auxiliary.target + TARGET_HEADER_SIZE,
            auxiliary.count,
        ),
        interstitial_bytes: bytes.subrange(ROOT_HEADER_SIZE as int, hashes.target)
            + bytes.subrange(hashes.end, values.target) + bytes.subrange(
            values.end,
            auxiliary.target,
        ),
        trailing_bytes: bytes.subrange(auxiliary.end, bytes.len() as int),
    }
}

/// The vectors follow the header and each other without overlap.
pub open spec fn in_package_order(
    hashes: VectorSpan,
    values: VectorSpan,
    auxiliary: VectorSpan,
) -> bool {
    ROOT_HEADER_SIZE <= hashes.target && hashes.end <= values.target && values.end
        <= auxiliary.target
}

/// What a channel-default payload says, or the message of the first thing
/// wrong with it.
pub open spec fn channel_defaults(bytes: Seq<u8>) -> Result<ChannelDefaultsView, Seq<char>> {
    if bytes.len() < ROOT_HEADER_SIZE {
        Err("channel-default resource is truncated before its three vector descriptors"@)
    } else if le_u64(bytes, 0) != bytes.len() {
        Err(
            "channel-default file-size header declares "@ + decimal_text(le_u64(bytes, 0) as nat)
                + " bytes, payload has "@ + decimal_text(bytes.len()),
        )
    } else {
        match three_spans(bytes) {
            Err(message) => Err(message),
            Ok((hashes, values, auxiliary)) => if hashes.count != values.count {
                Err(
                    "channel hash count "@ + decimal_text(hashes.count as nat)
                        + " disagrees with positional value count "@ + decimal_text(
                        values.count as nat,
                    ),
                )
            } else if !in_package_order(hashes, values, auxiliary) {
                Err("channel-default vectors overlap or are out of package order"@)
            } else {
                Ok(defaults_of(bytes, hashes, values, auxiliary))
            },
        }
    }
}

fn collect_words(bytes: &[u8], start: usize, count: usize) -> (words: Vec<u32>)
    requires
        start + 4 * count <= bytes@.len(),
    ensures
        words@ == words_at(bytes@, start as int, count as int),
{
    let length: usize = bytes.len();
    let mut words: Vec<u32> = Vec::new();
    let mut i: usize = 0;
    while i < count
        invariant
            i <= count,
            length == bytes@.len(),
            start + 4 * count <= length,
            words@ == words_at(bytes@, start as int, i as int),
        decreases count - i,
    {
        words.push(get_le_u32(bytes, start + 4 * i));
        i = i + 1;
        assert(words@ =~= words_at(bytes@, start as int, i as int));
    }
    words
}

pub(crate) fn collect_vectors(bytes: &[u8], start: usize, count: usize) -> (vectors: Vec<Vec4Bits>)
    requires
        start + 16 * count <= bytes@.len(),
    ensures
        vectors@ == vectors_at(bytes@, start as int, count as int),
{
    let length: usize = bytes.len();
    let mut vectors: Vec<Vec4Bits> = Vec::new();
    let mut i: usize = 0;
    while i < count
        invariant
            i <= count,
            length == bytes@.len(),
            start + 16 * count <= length,
            vectors@ == vectors_at(bytes@, start as int, i as int),
        decreases count - i,
    {
        let at: usize = start + 16 * i;
        vectors.push(
            Vec4Bits::new(
                get_le_u32(bytes, at),
                get_le_u32(bytes, at + 4),
                get_le_u32(bytes, at + 8),
                get_le_u32(bytes, at + 12),
            ),
        );
        i = i + 1;
        assert(vectors@ =~= vectors_at(bytes@, start as int, i as int));
    }
    vectors
}

fn push_bytes(out: &mut Vec<u8>, bytes: &[u8], from: usize, to: usize)
    requires
        from <= to <= bytes@.len(),
    ensures
        final(out)@ == old(out)@ + bytes@.subrange(from as int, to as int),
{
    let ghost before = out@;
    let mut i: usize = from;
    assert(out@ =~= before + bytes@.subrange(from as int, from as int));
    while i < to
        invariant
            from <= i <= to <= bytes@.len(),
            out@ == before + bytes@.subrange(from as int, i as int),
        decreases to - i,
    {
        out.push(bytes[i]);
        i = i + 1;
        assert(out@ =~= before + bytes@.subrange(from as int, i as int));
    }
}

/// Decode a channel-default payload.
pub fn parse_shadowkeep_channel_defaults(bytes: &[u8]) -> (result: Result<
    ShadowkeepChannelDefaults,
    Error,
>)
    ensures
        outcome(result) == channel_defaults(bytes@),
{
    let length: usize = bytes.len();
    if length < ROOT_HEADER_SIZE {
        return Err(
            Error {
                message:
                    "channel-default resource is truncated before its three vector descriptors".to_owned(),
            },
        );
    }
    let declared_file_size: u64 = get_le_u64(bytes, 0);
    if declared_file_size != length as u64 {
        let mut message = "channel-default file-size header declares ".to_owned();
        message.append(decimal(declared_file_size).as_str());
        message.append(" bytes, payload has ");
        message.append(decimal(length as u64).as_str());
        return Err(Error { message });
    }
    let (hash_count, hash_target, hash_end, hash_header) = match parse_vector_layout(
        bytes,
        HASH_COUNT_OFFSET,
        HASH_POINTER_OFFSET,
        4,
        "channel hash vector",
    ) {
        Ok(found) => found,
        Err(error) => return Err(error),
    };
    let (value_count, value_target, value_end, value_header) = match parse_vector_layout(
        bytes,
        VALUE_COUNT_OFFSET,
        VALUE_POINTER_OFFSET,
        16,
        "channel value vector",
    ) {
        Ok(found) => found,
        Err(error) => return Err(error),
    };
    let (auxiliary_count, auxiliary_target, auxiliary_end, auxiliary_header) =
        match parse_vector_layout(
        bytes,
        AUXILIARY_COUNT_OFFSET,
        AUXILIARY_POINTER_OFFSET,
        4,
        "channel auxiliary vector",
    ) {
        Ok(found) => found,
        Err(error) => return Err(error),
    };
    if hash_count != value_count {
        let mut message = "channel hash count ".to_owned();
        message.append(decimal(hash_count as u64).as_str());
        message.append(" disagrees with positional value count ");
        message.append(decimal(value_count as u64).as_str());
        return Err(Error { message });
    }
    if hash_target < ROOT_HEADER_SIZE || value_target < hash_end || auxiliary_target < value_end {
        return Err(
            Error {
                message: "channel-default vectors overlap or are out of package order".to_owned(),
            },
        );
    }
    let channel_hashes = collect_words(bytes, hash_target + TARGET_HEADER_SIZE, hash_count);
    let values = collect_vectors(bytes, value_target + TARGET_HEADER_SIZE, value_count);
    let auxiliary_fields = collect_words(
        bytes,
        auxiliary_target + TARGET_HEADER_SIZE,
        auxiliary_count,
    );
    let mut interstitial_bytes: Vec<u8> = Vec::new();
    push_bytes(&mut interstitial_bytes, bytes, ROOT_HEADER_SIZE, hash_target);
    push_bytes(&mut interstitial_bytes, bytes, hash_end, value_target);
    push_bytes(&mut interstitial_bytes, bytes, value_end, auxiliary_target);
    let mut trailing_bytes: Vec<u8> = Vec::new();
    push_bytes(&mut trailing_bytes, bytes, auxiliary_end, length);
    let parsed = ShadowkeepChannelDefaults {
        declared_file_size,
        header_size: ROOT_HEADER_SIZE,
        hash_descriptor_offset: HASH_COUNT_OFFSET,
        value_descriptor_offset: VALUE_COUNT_OFFSET,
        auxiliary_descriptor_offset: AUXILIARY_COUNT_OFFSET,
        hash_array_offset: hash_target,
        value_array_offset: value_target,
        auxiliary_array_offset: auxiliary_target,
        array_count: value_count,
        auxiliary_count,
        hash_element_header: hash_header,
        value_element_header: value_header,
        auxiliary_element_header: auxiliary_header,
        channel_hashes,
        values,
        auxiliary_fields,
        interstitial_bytes,
        trailing_bytes,
    };
    proof {
        let spans = three_spans(bytes@)->Ok_0;
        assert(parsed@ =~= defaults_of(bytes@, spans.0, spans.1, spans.2));
    }
    Ok(parsed)
}

/// Where the channel table came from.
#[derive(Debug)]
pub enum ShadowkeepChannelDefaultsLoad {
    Package(ShadowkeepChannelDefaults),
    Fallback { reason: String },
}

impl View for ShadowkeepChannelDefaultsLoad {
    type V = Result<ChannelDefaultsView, Seq<char>>;

    open spec fn view(&self) -> Result<ChannelDefaultsView, Seq<char>> {
        match self {
            ShadowkeepChannelDefaultsLoad::Package(parsed) => Ok(parsed@),
            ShadowkeepChannelDefaultsLoad::Fallback { reason } => Err(reason@),
        }
    }
}

/// The values of the payload where it decodes, else the documented table,
/// together with which of the two it was.
pub fn shadowkeep_channel_defaults_with_fallback(bytes: &[u8]) -> (loaded: (
    Vec<Vec4Bits>,
    ShadowkeepChannelDefaultsLoad,
))
    ensures
        loaded.1@ == channel_defaults(bytes@),
        loaded.0@ == match channel_defaults(bytes@) {
            Ok(parsed) => parsed.values,
            Err(_) => global_channels(),
        },
{
    match parse_shadowkeep_channel_defaults(bytes) {
        Ok(parsed) => {
            let values = copy_vectors(parsed.values.as_slice());
            (values, ShadowkeepChannelDefaultsLoad::Package(parsed))
        },
        Err(error) => {
            let table = global_channel_defaults();
            let values = copy_vectors(table.as_slice());
            (values, ShadowkeepChannelDefaultsLoad::Fallback { reason: error.message })
        },
    }
}

pub(crate) fn copy_vectors(vectors: &[Vec4Bits]) -> (copied: Vec<Vec4Bits>)
    ensures
        copied@ == vectors@,
{
    let mut copied: Vec<Vec4Bits> = Vec::new();
    let mut i: usize = 0;
    while i < vectors.len()
        invariant
            i <= vectors@.len(),
            copied@ == vectors@.take(i as int),
        decreases vectors@.len() - i,
    {
        copied.push(vectors[i]);
        i = i + 1;
        assert(copied@ =~= vectors@.take(i as int));
    }
    assert(vectors@.take(vectors@.len() as int) =~= vectors@);
    copied
}


/// The bytes of words one after the other.
pub open spec fn word_bytes(words: Seq<u32>) -> Seq<u8> {
    Seq::new(4 * words.len(), |i: int| u32_bytes(words[i / 4])[i % 4])
}

/// The components of vectors one after the other.
pub open spec fn components(vectors: Seq<Vec4Bits>) -> Seq<u32> {
    Seq::new(
        4 * vectors.len(),
        |i: int|
            {
                let vector = vectors[i / 4];
                if i % 4 == 0 {
                    vector.x
                } else if i % 4 == 1 {
                    vector.y
                } else if i % 4 == 2 {
                    vector.z
                } else {
                    vector.w
                }
            },
    )
}

/// A vector target: the count, the element header and the elements.
pub open spec fn target_bytes(count: nat, element_header: Seq<u8>, elements: Seq<u8>) -> Seq<u8> {
    u64_bytes(count as u64) + element_header + elements
}

/// The content of a channel-default payload that holds nothing between its
/// vectors.
pub struct ChannelTable {
    pub hash_element_header: Seq<u8>,
    pub value_element_header: Seq<u8>,
    pub auxiliary_element_header: Seq<u8>,
    pub channel_hashes: Seq<u32>,
    pub values: Seq<Vec4Bits>,
    pub auxiliary_fields: Seq<u32>,
    pub trailing_bytes: Seq<u8>,
}

impl ChannelTable {
    pub open spec fn hash_target(self) -> int {
        ROOT_HEADER_SIZE as int
    }

    pub open spec fn value_target(self) -> int {
        self.hash_target() + TARGET_HEADER_SIZE + 4 * self.channel_hashes.len()
    }

    pub open spec fn auxiliary_target(self) -> int {
        self.value_target() + TARGET_HEADER_SIZE + 16 * self.values.len()
    }

    pub open spec fn payload_end(self) -> int {
        self.auxiliary_target() + TARGET_HEADER_SIZE + 4 * self.auxiliary_fields.len()
    }

    pub open spec fn file_size(self) -> int {
        self.payload_end() + self.trailing_bytes.len()
    }

    /// The table has a channel and an auxiliary field, as many hashes as
    /// values, and its file can be addressed.
    pub open spec fn wf(self) -> bool {
        &&& self.hash_element_header.len() == 8
        &&& self.value_element_header.len() == 8
        &&& self.auxiliary_element_header.len() == 8
        &&& self.channel_hashes.len() == self.values.len()
        &&& self.values.len() > 0
        &&& self.auxiliary_fields.len() > 0
        &&& self.file_size() <= isize::MAX
    }

    pub open spec fn descriptors(self) -> Seq<u8> {
        u64_bytes(self.file_size() as u64) + u64_bytes(self.channel_hashes.len() as u64)
            + u64_bytes((self.hash_target() - HASH_POINTER_OFFSET) as u64) + u64_bytes(
            self.values.len() as u64,
        ) + u64_bytes((self.value_target() - VALUE_POINTER_OFFSET) as u64) + u64_bytes(
            self.auxiliary_fields.len() as u64,
        ) + u64_bytes((self.auxiliary_target() - AUXILIARY_POINTER_OFFSET) as u64)
    }

    /// The payload that holds the table.
    pub open spec fn encoded(self) -> Seq<u8> {
        self.descriptors() + target_bytes(
            self.channel_hashes.len(),
            self.hash_element_header,
            word_bytes(self.channel_hashes),
        ) + target_bytes(
            self.values.len(),
            self.value_element_header,
            word_bytes(components(self.values)),
        ) + target_bytes(
            self.auxiliary_fields.len(),
            self.auxiliary_element_header,
            word_bytes(self.auxiliary_fields),
        ) + self.trailing_bytes
    }
}

proof fn lemma_words_read_back(bytes: Seq<u8>, at: int, words: Seq<u32>)
    requires
        0 <= at,
        at + 4 * words.len() <= bytes.len(),
        bytes.subrange(at, at + 4 * words.len()) == word_bytes(words),
    ensures
        words_at(bytes, at, words.len() as int) == words,
{
    lemma_byte_lengths();
    assert forall|i: int| 0 <= i < words.len() implies le_u32(bytes, at + 4 * i) == words[i] by {
        let here = at + 4 * i;
        let all = bytes.subrange(at, at + 4 * words.len());
        assert forall|j: int| 0 <= j < 4 implies bytes.subrange(here, here + 4)[j] == u32_bytes(
            words[i],
        )[j] by {
            assert(bytes[here + j] == all[4 * i + j]);
            assert((4 * i + j) / 4 == i);
            assert((4 * i + j) % 4 == j);
        }
        assert(bytes.subrange(here, here + 4) =~= u32_bytes(words[i]));
        law_u32_bytes_read_back(bytes, here, words[i]);
    }
    assert(words_at(bytes, at, words.len() as int) =~= words);
}

proof fn lemma_vectors_read_back(bytes: Seq<u8>, at: int, vectors: Seq<Vec4Bits>)
    requires
        0 <= at,
        at + 16 * vectors.len() <= bytes.len(),
        bytes.subrange(at, at + 16 * vectors.len()) == word_bytes(components(vectors)),
    ensures
        vectors_at(bytes, at, vectors.len() as int) == vectors,
{
    let words = components(vectors);
    assert(4 * words.len() == 16 * vectors.len());
    lemma_words_read_back(bytes, at, words);
    let read = words_at(bytes, at, words.len() as int);
    assert forall|i: int| 0 <= i < vectors.len() implies vec4_at(bytes, at + 16 * i)
        == vectors[i] by {
        assert(read[4 * i] == words[4 * i]);
        assert(read[4 * i + 1] == words[4 * i + 1]);
        assert(read[4 * i + 2] == words[4 * i + 2]);
        assert(read[4 * i + 3] == words[4 * i + 3]);
    }
    assert(vectors_at(bytes, at, vectors.len() as int) =~= vectors);
}

proof fn lemma_span_of_target(
    bytes: Seq<u8>,
    count_offset: int,
    pointer_offset: int,
    element_size: int,
    label: Seq<char>,
    count: nat,
    target: int,
    element_header: Seq<u8>,
    elements: Seq<u8>,
)
    requires
        bytes.len() <= isize::MAX,
        0 <= count_offset <= bytes.len() - 8,
        0 <= pointer_offset <= bytes.len() - 8,
        pointer_offset <= target,
        0 < count,
        element_size > 0,
        elements.len() == count * element_size,
        count <= elements.len(),
        element_header.len() == 8,
        target + 16 + elements.len() <= bytes.len(),
        bytes.subrange(count_offset, count_offset + 8) == u64_bytes(count as u64),
        bytes.subrange(pointer_offset, pointer_offset + 8) == u64_bytes(
            (target - pointer_offset) as u64,
        ),
        bytes.subrange(target, target + 16 + elements.len()) == target_bytes(
            count,
            element_header,
            elements,
        ),
    ensures
        vector_span(bytes, count_offset, pointer_offset, element_size, label) == Ok::<
            VectorSpan,
            Seq<char>,
        >(
            (VectorSpan { count: count as int, target, end: target + 16 + elements.len(), element_header }),
        ),
        bytes.subrange(target + 16, target + 16 + elements.len()) == elements,
{
    lemma_byte_lengths();
    let block = bytes.subrange(target, target + 16 + elements.len());
    law_u64_bytes_read_back(bytes, count_offset, count as u64);
    law_u64_bytes_read_back(bytes, pointer_offset, (target - pointer_offset) as u64);
    assert(bytes.subrange(target, target + 8) =~= block.subrange(0, 8));
    assert(block.subrange(0, 8) =~= u64_bytes(count as u64));
    law_u64_bytes_read_back(bytes, target, count as u64);
    assert(bytes.subrange(target + 8, target + 16) =~= block.subrange(8, 16));
    assert(block.subrange(8, 16) =~= element_header);
    assert(bytes.subrange(target + 16, target + 16 + elements.len()) =~= block.subrange(
        16,
        16 + elements.len() as int,
    ));
    assert(block.subrange(16, 16 + elements.len() as int) =~= elements);
}

proof fn lemma_seven_fields(a: u64, b: u64, c: u64, d: u64, e: u64, f: u64, g: u64)
    ensures
        ({
            let head = u64_bytes(a) + u64_bytes(b) + u64_bytes(c) + u64_bytes(d) + u64_bytes(e)
                + u64_bytes(f) + u64_bytes(g);
            &&& head.len() == 56
            &&& head.subrange(0, 8) == u64_bytes(a)
            &&& head.subrange(8, 16) == u64_bytes(b)
            &&& head.subrange(16, 24) == u64_bytes(c)
            &&& head.subrange(24, 32) == u64_bytes(d)
            &&& head.subrange(32, 40) == u64_bytes(e)
            &&& head.subrange(40, 48) == u64_bytes(f)
            &&& head.subrange(48, 56) == u64_bytes(g)
        }),
{
    lemma_byte_lengths();
    let a2 = u64_bytes(a) + u64_bytes(b);
    let a3 = a2 + u64_bytes(c);
    let a4 = a3 + u64_bytes(d);
    let a5 = a4 + u64_bytes(e);
    let a6 = a5 + u64_bytes(f);
    let head = a6 + u64_bytes(g);
    assert(a2.len() == 16 && a3.len() == 24 && a4.len() == 32 && a5.len() == 40 && a6.len() == 48);
    assert(head.subrange(0, 8) =~= u64_bytes(a));
    assert(head.subrange(8, 16) =~= u64_bytes(b));
    assert(head.subrange(16, 24) =~= u64_bytes(c));
    assert(head.subrange(24, 32) =~= u64_bytes(d));
    assert(head.subrange(32, 40) =~= u64_bytes(e));
    assert(head.subrange(40, 48) =~= u64_bytes(f));
    assert(head.subrange(48, 56) =~= u64_bytes(g));
}

proof fn lemma_five_parts(a: Seq<u8>, b: Seq<u8>, c: Seq<u8>, d: Seq<u8>, e: Seq<u8>)
    ensures
        ({
            let whole = a + b + c + d + e;
            let ab = (a.len() + b.len()) as int;
            let abc = ab + c.len();
            let abcd = abc + d.len();
            &&& whole.len() == abcd + e.len()
            &&& whole.subrange(0, a.len() as int) == a
            &&& whole.subrange(a.len() as int, ab) == b
            &&& whole.subrange(ab, abc) == c
            &&& whole.subrange(abc, abcd) == d
            &&& whole.subrange(abcd, whole.len() as int) == e
        }),
{
    let whole = a + b + c + d + e;
    let ab = (a.len() + b.len()) as int;
    let abc = ab + c.len();
    let abcd = abc + d.len();
    assert(whole.subrange(0, a.len() as int) =~= a);
    assert(whole.subrange(a.len() as int, ab) =~= b);
    assert(whole.subrange(ab, abc) =~= c);
    assert(whole.subrange(abc, abcd) =~= d);
    assert(whole.subrange(abcd, whole.len() as int) =~= e);
}

/// `bytes` holds the fields and vectors of `table` where they belong.
spec fn laid_out(table: ChannelTable, bytes: Seq<u8>) -> bool {
    &&& bytes.len() == table.file_size()
    &&& bytes.subrange(0, 8) == u64_bytes(table.file_size() as u64)
    &&& bytes.subrange(8, 16) == u64_bytes(table.channel_hashes.len() as u64)
    &&& bytes.subrange(16, 24) == u64_bytes((table.hash_target() - 16) as u64)
    &&& bytes.subrange(24, 32) == u64_bytes(table.values.len() as u64)
    &&& bytes.subrange(32, 40) == u64_bytes((table.value_target() - 32) as u64)
    &&& bytes.subrange(40, 48) == u64_bytes(table.auxiliary_fields.len() as u64)
    &&& bytes.subrange(48, 56) == u64_bytes((table.auxiliary_target() - 48) as u64)
    &&& bytes.subrange(table.hash_target(), table.value_target()) == target_bytes(
        table.channel_hashes.len(),
        table.hash_element_header,
        word_bytes(table.channel_hashes),
    )
    &&& bytes.subrange(table.value_target(), table.auxiliary_target()) == target_bytes(
        table.values.len(),
        table.value_element_header,
        word_bytes(components(table.values)),
    )
    &&& bytes.subrange(table.auxiliary_target(), table.payload_end()) == target_bytes(
        table.auxiliary_fields.len(),
        table.auxiliary_element_header,
        word_bytes(table.auxiliary_fields),
    )
    &&& bytes.subrange(table.payload_end(), bytes.len() as int) == table.trailing_bytes
}

proof fn lemma_encoded_is_laid_out(table: ChannelTable)
    requires
        table.wf(),
    ensures
        laid_out(table, table.encoded()),
{
    let bytes = table.encoded();
    let head = table.descriptors();
    lemma_byte_lengths();
    lemma_seven_fields(
        table.file_size() as u64,
        table.channel_hashes.len() as u64,
        (table.hash_target() - HASH_POINTER_OFFSET) as u64,
        table.values.len() as u64,
        (table.value_target() - VALUE_POINTER_OFFSET) as u64,
        table.auxiliary_fields.len() as u64,
        (table.auxiliary_target() - AUXILIARY_POINTER_OFFSET) as u64,
    );
    lemma_five_parts(
        head,
        target_bytes(
            table.channel_hashes.len(),
            table.hash_element_header,
            word_bytes(table.channel_hashes),
        ),
        target_bytes(
            table.values.len(),
            table.value_element_header,
            word_bytes(components(table.values)),
        ),
        target_bytes(
            table.auxiliary_fields.len(),
            table.auxiliary_element_header,
            word_bytes(table.auxiliary_fields),
        ),
        table.trailing_bytes,
    );
    assert(bytes.subrange(0, 8) =~= bytes.subrange(0, 56).subrange(0, 8));
    assert(bytes.subrange(8, 16) =~= bytes.subrange(0, 56).subrange(8, 16));
    assert(bytes.subrange(16, 24) =~= bytes.subrange(0, 56).subrange(16, 24));
    assert(bytes.subrange(24, 32) =~= bytes.subrange(0, 56).subrange(24, 32));
    assert(bytes.subrange(32, 40) =~= bytes.subrange(0, 56).subrange(32, 40));
    assert(bytes.subrange(40, 48) =~= bytes.subrange(0, 56).subrange(40, 48));
    assert(bytes.subrange(48, 56) =~= bytes.subrange(0, 56).subrange(48, 56));
}

proof fn lemma_laid_out_spans(table: ChannelTable, bytes: Seq<u8>)
    requires
        table.wf(),
        laid_out(table, bytes),
    ensures
        le_u64(bytes, 0) == bytes.len(),
        three_spans(bytes) == Ok::<(VectorSpan, VectorSpan, VectorSpan), Seq<char>>(
            (
                VectorSpan {
                    count: table.channel_hashes.len() as int,
                    target: table.hash_target(),
                    end: table.value_target(),
                    element_header: table.hash_element_header,
                },
                VectorSpan {
                    count: table.values.len() as int,
                    target: table.value_target(),
                    end: table.auxiliary_target(),
                    element_header: table.value_element_header,
                },
                VectorSpan {
                    count: table.auxiliary_fields.len() as int,
                    target: table.auxiliary_target(),
                    end: table.payload_end(),
                    element_header: table.auxiliary_element_header,
                },
            ),
        ),
        words_at(bytes, table.hash_target() + 16, table.channel_hashes.len() as int)
            == table.channel_hashes,
        vectors_at(bytes, table.value_target() + 16, table.values.len() as int) == table.values,
        words_at(bytes, table.auxiliary_target() + 16, table.auxiliary_fields.len() as int)
            == table.auxiliary_fields,
{
    let hash_target = table.hash_target();
    let value_target = table.value_target();
    let auxiliary_target = table.auxiliary_target();
    law_u64_bytes_read_back(bytes, 0, table.file_size() as u64);
    lemma_span_of_target(
        bytes,
        0x08,
        0x10,
        4,
        "channel hash vector"@,
        table.channel_hashes.len(),
        hash_target,
        table.hash_element_header,
        word_bytes(table.channel_hashes),
    );
    lemma_span_of_target(
        bytes,
        0x18,
        0x20,
        16,
        "channel value vector"@,
        table.values.len(),
        value_target,
        table.value_element_header,
        word_bytes(components(table.values)),
    );
    lemma_span_of_target(
        bytes,
        0x28,
        0x30,
        4,
        "channel auxiliary vector"@,
        table.auxiliary_fields.len(),
        auxiliary_target,
        table.auxiliary_element_header,
        word_bytes(table.auxiliary_fields),
    );
    lemma_words_read_back(bytes, hash_target + 16, table.channel_hashes);
    lemma_vectors_read_back(bytes, value_target + 16, table.values);
    lemma_words_read_back(bytes, auxiliary_target + 16, table.auxiliary_fields);
}

impl ChannelTable {
    /// `decoded` holds this table and nothing besides.
    pub open spec fn is_held_by(self, decoded: ChannelDefaultsView) -> bool {
        let table = self;
        &&& decoded.channel_hashes == table.channel_hashes
        &&& decoded.values == table.values
        &&& decoded.auxiliary_fields == table.auxiliary_fields
        &&& decoded.hash_element_header == table.hash_element_header
        &&& decoded.value_element_header == table.value_element_header
        &&& decoded.auxiliary_element_header == table.auxiliary_element_header
        &&& decoded.trailing_bytes == table.trailing_bytes
        &&& decoded.interstitial_bytes == Seq::<u8>::empty()
        &&& decoded.array_count == table.values.len()
        &&& decoded.auxiliary_count == table.auxiliary_fields.len()
        &&& decoded.hash_array_offset == table.hash_target()
        &&& decoded.value_array_offset == table.value_target()
        &&& decoded.auxiliary_array_offset == table.auxiliary_target()
        &&& decoded.declared_file_size == table.file_size()
    }
}

proof fn lemma_laid_out_decodes(table: ChannelTable, bytes: Seq<u8>)
    requires
        table.wf(),
        laid_out(table, bytes),
    ensures
        channel_defaults(bytes) is Ok,
        table.is_held_by(channel_defaults(bytes)->Ok_0),
{
    lemma_laid_out_spans(table, bytes);
    let decoded = channel_defaults(bytes)->Ok_0;
    assert(decoded.interstitial_bytes =~= Seq::<u8>::empty());
}

/// Decoding an encoded table gives the table back: every hash, value and
/// auxiliary field at its own position, the element headers and the trailing
/// bytes.
pub proof fn law_encoded_table_decodes(table: ChannelTable)
    requires
        table.wf(),
    ensures
        channel_defaults(table.encoded()) is Ok,
        table.is_held_by(channel_defaults(table.encoded())->Ok_0),
{
    lemma_encoded_is_laid_out(table);
    lemma_laid_out_decodes(table, table.encoded());
}

/// The header, the bytes between the vectors, the vectors and the trailing
/// bytes account for every byte of a payload that decodes.
pub proof fn law_decoded_parts_cover_the_payload(bytes: Seq<u8>)
    requires
        channel_defaults(bytes) is Ok,
        bytes.len() <= usize::MAX,
    ensures
        ({
            let decoded = channel_defaults(bytes)->Ok_0;
            &&& decoded.channel_hashes.len() == decoded.array_count
            &&& decoded.values.len() == decoded.array_count
            &&& decoded.auxiliary_fields.len() == decoded.auxiliary_count
            &&& decoded.declared_file_size == bytes.len()
            &&& bytes.len() == ROOT_HEADER_SIZE + decoded.interstitial_bytes.len() + 3
                * TARGET_HEADER_SIZE + 4 * decoded.channel_hashes.len() + 16
                * decoded.values.len() + 4 * decoded.auxiliary_fields.len()
                + decoded.trailing_bytes.len()
        }),
{
}

/// The default of a channel is one in every lane, but for a few: some are zero, some are one or
/// fifty in the first lane alone, and one is a color.
pub proof fn law_few_channels_do_not_default_to_one(index: int)
    requires
        0 <= index < 256,
    ensures
        ({
            let value = global_channels()[index];
            &&& value.x != 0x3f80_0000 || value.y != 0x3f80_0000 ==> {
                let x: nat = if index == 27 || index == 32 || index == 34 || index == 93 {
                    0x3f80_0000
                } else if index == 37 || index == 41 {
                    0x4248_0000
                } else if index == 131 {
                    0x3f00_0000
                } else {
                    0
                };
                &&& value.x == x
                &&& index == 10 || index == 27 || index == 32 || index == 34 || index == 37
                    || index == 41 || index == 82 || index == 83 || index == 93 || index == 97
                    || index == 98 || index == 100 || index == 127 || index == 131
                &&& index != 131 ==> value.y == 0 && value.z == 0
                &&& index == 131 ==> value.y == 0x3f00_0000 && value.z == 0x3e99_999a
                &&& value.w == 0
            }
            &&& index == 10 || index == 27 || index == 32 || index == 34 || index == 37 || index
                == 41 || index == 82 || index == 83 || index == 93 || index == 97 || index == 98
                || index == 100 || index == 127 || index == 131 ==> value.w == 0
            &&& value.x == 0x3f80_0000 && value.y == 0x3f80_0000 ==> value.z == 0x3f80_0000
                && value.w == 0x3f80_0000
        }),
{
}

/// A vector is read as four words of four bytes, and the vectors of a list follow one another.
pub proof fn law_vectors_are_read_lane_by_lane(bytes: Seq<u8>, at: int, count: int, i: int)
    requires
        0 <= i < count,
    ensures
        vectors_at(bytes, at, count).len() == count,
        vectors_at(bytes, at, count)[i].x == le_u32(bytes, at + 16 * i),
        vectors_at(bytes, at, count)[i].y == le_u32(bytes, at + 16 * i + 4),
        vectors_at(bytes, at, count)[i].z == le_u32(bytes, at + 16 * i + 8),
        vectors_at(bytes, at, count)[i].w == le_u32(bytes, at + 16 * i + 12),
        words_at(bytes, at, count).len() == count,
        words_at(bytes, at, count)[i] == le_u32(bytes, at + 4 * i),
{
}

} // verus!
