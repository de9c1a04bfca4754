//! Records of fixed size as the packages store them, read from bytes.

use vstd::prelude::*;

use crate::bytes::{get_le_u16, get_le_u32, get_le_u64, le_u16, le_u32, le_u64};
use crate::channels::Vec4Bits;
use crate::bootstrap::{
    SShadowkeepLookupTextures, SShadowkeepVertexInputElement, SShadowkeepVertexLayout,
};
use crate::geometry::{
    Mat4Bits, SShadowkeepDynamicMaterialVariant, SShadowkeepDynamicMeshPart,
    SShadowkeepStaticInstanceTransform, SShadowkeepStaticMeshGroup,
    SShadowkeepStaticMeshInstanceGroup, SShadowkeepStaticMeshPart, SShadowkeepStaticSpecialMesh,
    SShadowkeepTerrainMeshGroup, SShadowkeepTerrainMeshPart, Vec3Bits,
};
use crate::map::{
    SShadowkeepBubbleParentRecord, SShadowkeepCubemapPlacement, SShadowkeepLight,
    SShadowkeepRotationTranslation, SShadowkeepShadowingLight, SShadowkeepTerrainPlacement,
};
use crate::sequencer::{SSequenceNodeBase, SUnk80806920};
use crate::technique::{SShadowkeepMaterialTextureAssignment, SShadowkeepSamplerReference};
use crate::texture::SShadowkeepTextureHeader;

verus! {

/// A record of fixed size.
pub trait Stored: Sized {
    /// How many bytes a record takes.
    spec fn stored_size() -> nat;

    /// The record is the one that the bytes hold from `at` on.
    spec fn is_stored(self, bytes: Seq<u8>, at: int) -> bool;

    fn size() -> (size: usize)
        ensures
            size == Self::stored_size(),
            0 < size <= 0x1000,
    ;

    fn read_at(bytes: &[u8], at: usize) -> (value: Self)
        requires
            at + Self::stored_size() <= bytes@.len(),
        ensures
            value.is_stored(bytes@, at as int),
    ;
}

/// Reads a record, where it fits in the bytes.
pub fn read_record<T: Stored>(bytes: &[u8], at: usize) -> (record: Option<T>)
    ensures
        match record {
            Some(record) => at + T::stored_size() <= bytes@.len() && record.is_stored(
                bytes@,
                at as int,
            ),
            None => at + T::stored_size() > bytes@.len(),
        },
{
    let size: usize = T::size();
    if at > bytes.len() || bytes.len() - at < size {
        return None;
    }
    Some(T::read_at(bytes, at))
}

/// Reads records that follow each other, where all of them fit in the bytes.
pub fn read_records<T: Stored>(bytes: &[u8], start: usize, count: usize) -> (records: Option<Vec<T>>)
    ensures
        match records {
            Some(records) => {
                &&& start + count * T::stored_size() <= bytes@.len()
                &&& records@.len() == count
                &&& forall|i: int|
                    0 <= i < count ==> (#[trigger] records@[i]).is_stored(
                        bytes@,
                        start + i * T::stored_size(),
                    )
            },
            None => start + count * T::stored_size() > bytes@.len(),
        },
{
    let size: usize = T::size();
    if start > bytes.len() {
        assert(start + count * T::stored_size() >= start) by (nonlinear_arith);
        return None;
    }
    let fitting: usize = (bytes.len() - start) / size;
    if count > fitting {
        assert(count * size > bytes@.len() - start) by (nonlinear_arith)
            requires
                count > fitting,
                fitting == (bytes@.len() - start) / size as int,
                size > 0,
        ;
        return None;
    }
    assert(count * size <= bytes@.len() - start) by (nonlinear_arith)
        requires
            count <= fitting,
            fitting == (bytes@.len() - start) / size as int,
            size > 0,
    ;
    let mut records: Vec<T> = Vec::new();
    let mut i: usize = 0;
    while i < count
        invariant
            i <= count,
            size == T::stored_size(),
            start + count * size <= bytes@.len(),
            records@.len() == i,
            forall|k: int|
                0 <= k < i ==> (#[trigger] records@[k]).is_stored(
                    bytes@,
                    start + k * T::stored_size(),
                ),
        decreases count - i,
    {
        assert(i * size + size <= count * size) by (nonlinear_arith)
            requires
                i < count,
        ;
        let length: usize = bytes.len();
        assert(start + i * size + size <= length);
        records.push(T::read_at(bytes, start + i * size));
        i += 1;
    }
    Some(records)
}

/// The vector that begins at `at`.
pub open spec fn vec4_at(bytes: Seq<u8>, at: int) -> Vec4Bits {
    Vec4Bits {
        x: le_u32(bytes, at),
        y: le_u32(bytes, at + 4),
        z: le_u32(bytes, at + 8),
        w: le_u32(bytes, at + 12),
    }
}

fn get_vec4(bytes: &[u8], at: usize) -> (value: Vec4Bits)
    requires
        at + 16 <= bytes@.len(),
    ensures
        value == vec4_at(bytes@, at as int),
{
    let length: usize = bytes.len();
    assert(at + 16 <= length);
    Vec4Bits {
        x: get_le_u32(bytes, at),
        y: get_le_u32(bytes, at + 4),
        z: get_le_u32(bytes, at + 8),
        w: get_le_u32(bytes, at + 12),
    }
}

pub open spec fn vec3_at(bytes: Seq<u8>, at: int) -> Vec3Bits {
    Vec3Bits { x: le_u32(bytes, at), y: le_u32(bytes, at + 4), z: le_u32(bytes, at + 8) }
}

fn get_vec3(bytes: &[u8], at: usize) -> (value: Vec3Bits)
    requires
        at + 12 <= bytes@.len(),
    ensures
        value == vec3_at(bytes@, at as int),
{
    let length: usize = bytes.len();
    assert(at + 12 <= length);
    Vec3Bits {
        x: get_le_u32(bytes, at),
        y: get_le_u32(bytes, at + 4),
        z: get_le_u32(bytes, at + 8),
    }
}

pub open spec fn mat4_at(bytes: Seq<u8>, at: int) -> Mat4Bits {
    Mat4Bits {
        x_axis: vec4_at(bytes, at),
        y_axis: vec4_at(bytes, at + 16),
        z_axis: vec4_at(bytes, at + 32),
        w_axis: vec4_at(bytes, at + 48),
    }
}

fn get_mat4(bytes: &[u8], at: usize) -> (value: Mat4Bits)
    requires
        at + 64 <= bytes@.len(),
    ensures
        value == mat4_at(bytes@, at as int),
{
    let length: usize = bytes.len();
    assert(at + 64 <= length);
    Mat4Bits {
        x_axis: get_vec4(bytes, at),
        y_axis: get_vec4(bytes, at + 16),
        z_axis: get_vec4(bytes, at + 32),
        w_axis: get_vec4(bytes, at + 48),
    }
}

/// The words that begin at `at`.
pub open spec fn words_at(bytes: Seq<u8>, at: int, count: nat) -> Seq<u32> {
    Seq::new(count, |i: int| le_u32(bytes, at + 4 * i))
}

fn get_words<const N: usize>(bytes: &[u8], at: usize) -> (words: [u32; N])
    requires
        N <= 64,
        at + 4 * N <= bytes@.len(),
    ensures
        words@ == words_at(bytes@, at as int, N as nat),
{
    let mut words: [u32; N] = [0; N];
    let mut i: usize = 0;
    while i < N
        invariant
            i <= N <= 64,
            at + 4 * N <= bytes@.len(),
            forall|k: int| 0 <= k < i ==> #[trigger] words@[k] == le_u32(bytes@, at + 4 * k),
        decreases N - i,
    {
        let length: usize = bytes.len();
        assert(at + 4 * i + 4 <= length);
        words[i] = get_le_u32(bytes, at + 4 * i);
        i += 1;
    }
    assert(words@ =~= words_at(bytes@, at as int, N as nat));
    words
}

fn get_bytes<const N: usize>(bytes: &[u8], at: usize) -> (part: [u8; N])
    requires
        at + N <= bytes@.len(),
    ensures
        part@ == bytes@.subrange(at as int, at + N),
{
    let mut part: [u8; N] = [0; N];
    let mut i: usize = 0;
    while i < N
        invariant
            i <= N,
            at + N <= bytes@.len(),
            forall|k: int| 0 <= k < i ==> #[trigger] part@[k] == bytes@[at + k],
        decreases N - i,
    {
        let length: usize = bytes.len();
        assert(at + i < length);
        part[i] = bytes[at + i];
        i += 1;
    }
    assert(part@ =~= bytes@.subrange(at as int, at + N));
    part
}

/// The two's complement reading of a byte.
pub open spec fn signed_byte(byte: u8) -> i8 {
    if byte < 0x80 {
        byte as i8
    } else {
        (byte - 0x100) as i8
    }
}

fn get_signed(byte: u8) -> (value: i8)
    ensures
        value == signed_byte(byte),
{
    if byte < 0x80 {
        byte as i8
    } else {
        (byte as i16 - 0x100) as i8
    }
}

impl Stored for SShadowkeepTextureHeader {
    open spec fn stored_size() -> nat {
        0x28
    }

    open spec fn is_stored(self, bytes: Seq<u8>, at: int) -> bool {
        &&& self.data_size == le_u32(bytes, at)
        &&& self.format == le_u32(bytes, at + 4)
        &&& self.unk8 == le_u32(bytes, at + 8)
        &&& self.cafe == le_u16(bytes, at + 0xc)
        &&& self.width == le_u16(bytes, at + 0xe)
        &&& self.height == le_u16(bytes, at + 0x10)
        &&& self.depth == le_u16(bytes, at + 0x12)
        &&& self.array_size == le_u16(bytes, at + 0x14)
        &&& self.unk16 == bytes[at + 0x16]
        &&& self.mip_count == bytes[at + 0x17]
        &&& self.unk18@ == bytes.subrange(at + 0x18, at + 0x24)
        &&& self.large_buffer == le_u32(bytes, at + 0x24)
    }

    fn size() -> (size: usize) {
        0x28
    }

    fn read_at(bytes: &[u8], at: usize) -> (value: Self) {
        let length: usize = bytes.len();
        assert(at + 0x28 <= length);
        SShadowkeepTextureHeader {
            data_size: get_le_u32(bytes, at),
            format: get_le_u32(bytes, at + 4),
            unk8: get_le_u32(bytes, at + 8),
            cafe: get_le_u16(bytes, at + 0xc),
            width: get_le_u16(bytes, at + 0xe),
            height: get_le_u16(bytes, at + 0x10),
            depth: get_le_u16(bytes, at + 0x12),
            array_size: get_le_u16(bytes, at + 0x14),
            unk16: bytes[at + 0x16],
            mip_count: bytes[at + 0x17],
            unk18: get_bytes(bytes, at + 0x18),
            large_buffer: get_le_u32(bytes, at + 0x24),
        }
    }
}

impl Stored for SShadowkeepStaticMeshPart {
    open spec fn stored_size() -> nat {
        0xc
    }

    open spec fn is_stored(self, bytes: Seq<u8>, at: int) -> bool {
        &&& self.index_start == le_u32(bytes, at)
        &&& self.index_count == le_u32(bytes, at + 4)
        &&& self.buffer_index == bytes[at + 8]
        &&& self.unk9 == bytes[at + 9]
        &&& self.lod_category == bytes[at + 0xa]
        &&& self.primitive_type == bytes[at + 0xb]
    }

    fn size() -> (size: usize) {
        0xc
    }

    fn read_at(bytes: &[u8], at: usize) -> (value: Self) {
        let length: usize = bytes.len();
        assert(at + 0xc <= length);
        SShadowkeepStaticMeshPart {
            index_start: get_le_u32(bytes, at),
            index_count: get_le_u32(bytes, at + 4),
            buffer_index: bytes[at + 8],
            unk9: bytes[at + 9],
            lod_category: bytes[at + 0xa],
            primitive_type: bytes[at + 0xb],
        }
    }
}

impl Stored for SShadowkeepStaticMeshGroup {
    open spec fn stored_size() -> nat {
        8
    }

    open spec fn is_stored(self, bytes: Seq<u8>, at: int) -> bool {
        &&& self.part_index == le_u16(bytes, at)
        &&& self.render_stage == bytes[at + 2]
        &&& self.unk3 == bytes[at + 3]
        &&& self.input_layout_index == bytes[at + 4]
        &&& self.unk5 == bytes[at + 5]
        &&& self.unk6 == le_u16(bytes, at + 6)
    }

    fn size() -> (size: usize) {
        8
    }

    fn read_at(bytes: &[u8], at: usize) -> (value: Self) {
        let length: usize = bytes.len();
        assert(at + 8 <= length);
        SShadowkeepStaticMeshGroup {
            part_index: get_le_u16(bytes, at),
            render_stage: bytes[at + 2],
            unk3: bytes[at + 3],
            input_layout_index: bytes[at + 4],
            unk5: bytes[at + 5],
            unk6: get_le_u16(bytes, at + 6),
        }
    }
}

impl Stored for SShadowkeepStaticMeshInstanceGroup {
    open spec fn stored_size() -> nat {
        8
    }

    open spec fn is_stored(self, bytes: Seq<u8>, at: int) -> bool {
        &&& self.instance_count == le_u16(bytes, at)
        &&& self.instance_start == le_u16(bytes, at + 2)
        &&& self.static_index == le_u16(bytes, at + 4)
        &&& self.unk6 == le_u16(bytes, at + 6)
    }

    fn size() -> (size: usize) {
        8
    }

    fn read_at(bytes: &[u8], at: usize) -> (value: Self) {
        let length: usize = bytes.len();
        assert(at + 8 <= length);
        SShadowkeepStaticMeshInstanceGroup {
            instance_count: get_le_u16(bytes, at),
            instance_start: get_le_u16(bytes, at + 2),
            static_index: get_le_u16(bytes, at + 4),
            unk6: get_le_u16(bytes, at + 6),
        }
    }
}

impl Stored for SShadowkeepStaticInstanceTransform {
    open spec fn stored_size() -> nat {
        0x30
    }

    open spec fn is_stored(self, bytes: Seq<u8>, at: int) -> bool {
        &&& self.rotation == vec4_at(bytes, at)
        &&& self.translation == vec3_at(bytes, at + 0x10)
        &&& self.scale == vec3_at(bytes, at + 0x1c)
        &&& self.unk28 == le_u32(bytes, at + 0x28)
        &&& self.unk2c == le_u32(bytes, at + 0x2c)
    }

    fn size() -> (size: usize) {
        0x30
    }

    fn read_at(bytes: &[u8], at: usize) -> (value: Self) {
        let length: usize = bytes.len();
        assert(at + 0x30 <= length);
        SShadowkeepStaticInstanceTransform {
            rotation: get_vec4(bytes, at),
            translation: get_vec3(bytes, at + 0x10),
            scale: get_vec3(bytes, at + 0x1c),
            unk28: get_le_u32(bytes, at + 0x28),
            unk2c: get_le_u32(bytes, at + 0x2c),
        }
    }
}

impl Stored for SShadowkeepStaticSpecialMesh {
    open spec fn stored_size() -> nat {
        0x20
    }

    open spec fn is_stored(self, bytes: Seq<u8>, at: int) -> bool {
        &&& self.render_stage == bytes[at]
        &&& self.input_layout_index == bytes[at + 1]
        &&& self.unk2 == le_u16(bytes, at + 2)
        &&& self.lod_category == bytes[at + 4]
        &&& self.unk5 == signed_byte(bytes[at + 5])
        &&& self.primitive_type == bytes[at + 6]
        &&& self.unk7 == bytes[at + 7]
        &&& self.index_buffer == le_u32(bytes, at + 8)
        &&& self.vertex0_buffer == le_u32(bytes, at + 0xc)
        &&& self.vertex1_buffer == le_u32(bytes, at + 0x10)
        &&& self.index_start == le_u32(bytes, at + 0x14)
        &&& self.index_count == le_u32(bytes, at + 0x18)
        &&& self.technique == le_u32(bytes, at + 0x1c)
    }

    fn size() -> (size: usize) {
        0x20
    }

    fn read_at(bytes: &[u8], at: usize) -> (value: Self) {
        let length: usize = bytes.len();
        assert(at + 0x20 <= length);
        SShadowkeepStaticSpecialMesh {
            render_stage: bytes[at],
            input_layout_index: bytes[at + 1],
            unk2: get_le_u16(bytes, at + 2),
            lod_category: bytes[at + 4],
            unk5: get_signed(bytes[at + 5]),
            primitive_type: bytes[at + 6],
            unk7: bytes[at + 7],
            index_buffer: get_le_u32(bytes, at + 8),
            vertex0_buffer: get_le_u32(bytes, at + 0xc),
            vertex1_buffer: get_le_u32(bytes, at + 0x10),
            index_start: get_le_u32(bytes, at + 0x14),
            index_count: get_le_u32(bytes, at + 0x18),
            technique: get_le_u32(bytes, at + 0x1c),
        }
    }
}

impl Stored for SShadowkeepTerrainMeshGroup {
    open spec fn stored_size() -> nat {
        0x60
    }

    open spec fn is_stored(self, bytes: Seq<u8>, at: int) -> bool {
        &&& self.unk0 == vec4_at(bytes, at)
        &&& self.unk10 == le_u32(bytes, at + 0x10)
        &&& self.unk14 == le_u32(bytes, at + 0x14)
        &&& self.unk18 == le_u32(bytes, at + 0x18)
        &&& self.unk1c == le_u32(bytes, at + 0x1c)
        &&& self.texcoord_transform == vec4_at(bytes, at + 0x20)
        &&& self.unk30@ == words_at(bytes, at + 0x30, 8)
        &&& self.dyemap == le_u32(bytes, at + 0x50)
        &&& self.unk54@ == words_at(bytes, at + 0x54, 3)
    }

    fn size() -> (size: usize) {
        0x60
    }

    fn read_at(bytes: &[u8], at: usize) -> (value: Self) {
        let length: usize = bytes.len();
        assert(at + 0x60 <= length);
        SShadowkeepTerrainMeshGroup {
            unk0: get_vec4(bytes, at),
            unk10: get_le_u32(bytes, at + 0x10),
            unk14: get_le_u32(bytes, at + 0x14),
            unk18: get_le_u32(bytes, at + 0x18),
            unk1c: get_le_u32(bytes, at + 0x1c),
            texcoord_transform: get_vec4(bytes, at + 0x20),
            unk30: get_words(bytes, at + 0x30),
            dyemap: get_le_u32(bytes, at + 0x50),
            unk54: get_words(bytes, at + 0x54),
        }
    }
}

impl Stored for SShadowkeepTerrainMeshPart {
    open spec fn stored_size() -> nat {
        0xc
    }

    open spec fn is_stored(self, bytes: Seq<u8>, at: int) -> bool {
        &&& self.technique == le_u32(bytes, at)
        &&& self.index_start == le_u32(bytes, at + 4)
        &&& self.index_count == le_u16(bytes, at + 8)
        &&& self.group_index == bytes[at + 0xa]
        &&& self.detail_level == bytes[at + 0xb]
    }

    fn size() -> (size: usize) {
        0xc
    }

    fn read_at(bytes: &[u8], at: usize) -> (value: Self) {
        let length: usize = bytes.len();
        assert(at + 0xc <= length);
        SShadowkeepTerrainMeshPart {
            technique: get_le_u32(bytes, at),
            index_start: get_le_u32(bytes, at + 4),
            index_count: get_le_u16(bytes, at + 8),
            group_index: bytes[at + 0xa],
            detail_level: bytes[at + 0xb],
        }
    }
}

impl Stored for SShadowkeepDynamicMeshPart {
    open spec fn stored_size() -> nat {
        0x20
    }

    open spec fn is_stored(self, bytes: Seq<u8>, at: int) -> bool {
        &&& self.technique == le_u32(bytes, at)
        &&& self.variant_shader_index == le_u16(bytes, at + 4)
        &&& self.primitive_type == bytes[at + 6]
        &&& self.unk7 == bytes[at + 7]
        &&& self.index_start == le_u32(bytes, at + 8)
        &&& self.index_count == le_u32(bytes, at + 0xc)
        &&& self.unk10 == le_u32(bytes, at + 0x10)
        &&& self.external_identifier == le_u16(bytes, at + 0x14)
        &&& self.unk16 == le_u16(bytes, at + 0x16)
        &&& self.unk18 == bytes[at + 0x18]
        &&& self.unk19 == bytes[at + 0x19]
        &&& self.unk1a == bytes[at + 0x1a]
        &&& self.lod_category == bytes[at + 0x1b]
        &&& self.unk1c == le_u32(bytes, at + 0x1c)
    }

    fn size() -> (size: usize) {
        0x20
    }

    fn read_at(bytes: &[u8], at: usize) -> (value: Self) {
        let length: usize = bytes.len();
        assert(at + 0x20 <= length);
        SShadowkeepDynamicMeshPart {
            technique: get_le_u32(bytes, at),
            variant_shader_index: get_le_u16(bytes, at + 4),
            primitive_type: bytes[at + 6],
            unk7: bytes[at + 7],
            index_start: get_le_u32(bytes, at + 8),
            index_count: get_le_u32(bytes, at + 0xc),
            unk10: get_le_u32(bytes, at + 0x10),
            external_identifier: get_le_u16(bytes, at + 0x14),
            unk16: get_le_u16(bytes, at + 0x16),
            unk18: bytes[at + 0x18],
            unk19: bytes[at + 0x19],
            unk1a: bytes[at + 0x1a],
            lod_category: bytes[at + 0x1b],
            unk1c: get_le_u32(bytes, at + 0x1c),
        }
    }
}

impl Stored for SShadowkeepDynamicMaterialVariant {
    open spec fn stored_size() -> nat {
        0xc
    }

    open spec fn is_stored(self, bytes: Seq<u8>, at: int) -> bool {
        &&& self.technique_count == le_u32(bytes, at)
        &&& self.technique_start == le_u32(bytes, at + 4)
        &&& self.unk8 == le_u32(bytes, at + 8)
    }

    fn size() -> (size: usize) {
        0xc
    }

    fn read_at(bytes: &[u8], at: usize) -> (value: Self) {
        let length: usize = bytes.len();
        assert(at + 0xc <= length);
        SShadowkeepDynamicMaterialVariant {
            technique_count: get_le_u32(bytes, at),
            technique_start: get_le_u32(bytes, at + 4),
            unk8: get_le_u32(bytes, at + 8),
        }
    }
}

impl Stored for SShadowkeepSamplerReference {
    open spec fn stored_size() -> nat {
        0x10
    }

    open spec fn is_stored(self, bytes: Seq<u8>, at: int) -> bool {
        &&& self.sampler == le_u32(bytes, at)
        &&& self.unk4 == le_u32(bytes, at + 4)
        &&& self.unk8 == le_u32(bytes, at + 8)
        &&& self.unkc == le_u32(bytes, at + 0xc)
    }

    fn size() -> (size: usize) {
        0x10
    }

    fn read_at(bytes: &[u8], at: usize) -> (value: Self) {
        let length: usize = bytes.len();
        assert(at + 0x10 <= length);
        SShadowkeepSamplerReference {
            sampler: get_le_u32(bytes, at),
            unk4: get_le_u32(bytes, at + 4),
            unk8: get_le_u32(bytes, at + 8),
            unkc: get_le_u32(bytes, at + 0xc),
        }
    }
}

impl Stored for SShadowkeepMaterialTextureAssignment {
    open spec fn stored_size() -> nat {
        8
    }

    open spec fn is_stored(self, bytes: Seq<u8>, at: int) -> bool {
        &&& self.slot == le_u32(bytes, at)
        &&& self.texture == le_u32(bytes, at + 4)
    }

    fn size() -> (size: usize) {
        8
    }

    fn read_at(bytes: &[u8], at: usize) -> (value: Self) {
        let length: usize = bytes.len();
        assert(at + 8 <= length);
        SShadowkeepMaterialTextureAssignment {
            slot: get_le_u32(bytes, at),
            texture: get_le_u32(bytes, at + 4),
        }
    }
}

impl Stored for SShadowkeepLookupTextures {
    open spec fn stored_size() -> nat {
        0x18
    }

    open spec fn is_stored(self, bytes: Seq<u8>, at: int) -> bool {
        &&& self.file_size == le_u64(bytes, at)
        &&& self.specular_tint_lookup_texture == le_u32(bytes, at + 8)
        &&& self.specular_lobe_lookup_texture == le_u32(bytes, at + 0xc)
        &&& self.specular_lobe_3d_lookup_texture == le_u32(bytes, at + 0x10)
        &&& self.iridescence_lookup_texture == le_u32(bytes, at + 0x14)
    }

    fn size() -> (size: usize) {
        0x18
    }

    fn read_at(bytes: &[u8], at: usize) -> (value: Self) {
        let length: usize = bytes.len();
        assert(at + 0x18 <= length);
        SShadowkeepLookupTextures {
            file_size: get_le_u64(bytes, at),
            specular_tint_lookup_texture: get_le_u32(bytes, at + 8),
            specular_lobe_lookup_texture: get_le_u32(bytes, at + 0xc),
            specular_lobe_3d_lookup_texture: get_le_u32(bytes, at + 0x10),
            iridescence_lookup_texture: get_le_u32(bytes, at + 0x14),
        }
    }
}

impl Stored for SShadowkeepVertexLayout {
    open spec fn stored_size() -> nat {
        0x1c
    }

    open spec fn is_stored(self, bytes: Seq<u8>, at: int) -> bool {
        &&& self.index == bytes[at]
        &&& self.element_0 == le_u32(bytes, at + 8)
        &&& self.element_1 == le_u32(bytes, at + 0xc)
        &&& self.element_2 == le_u32(bytes, at + 0x10)
        &&& self.element_3 == le_u32(bytes, at + 0x14)
        &&& self.unk18 == bytes[at + 0x18]
        &&& self.unk19 == bytes[at + 0x19]
        &&& self.unk1a == bytes[at + 0x1a]
        &&& self.unk1b == bytes[at + 0x1b]
    }

    fn size() -> (size: usize) {
        0x1c
    }

    fn read_at(bytes: &[u8], at: usize) -> (value: Self) {
        let length: usize = bytes.len();
        assert(at + 0x1c <= length);
        SShadowkeepVertexLayout {
            index: bytes[at],
            element_0: get_le_u32(bytes, at + 8),
            element_1: get_le_u32(bytes, at + 0xc),
            element_2: get_le_u32(bytes, at + 0x10),
            element_3: get_le_u32(bytes, at + 0x14),
            unk18: bytes[at + 0x18],
            unk19: bytes[at + 0x19],
            unk1a: bytes[at + 0x1a],
            unk1b: bytes[at + 0x1b],
        }
    }
}

impl Stored for SShadowkeepVertexInputElement {
    open spec fn stored_size() -> nat {
        3
    }

    open spec fn is_stored(self, bytes: Seq<u8>, at: int) -> bool {
        &&& self.semantic == bytes[at]
        &&& self.semantic_index == bytes[at + 1]
        &&& self.format == bytes[at + 2]
    }

    fn size() -> (size: usize) {
        3
    }

    fn read_at(bytes: &[u8], at: usize) -> (value: Self) {
        let length: usize = bytes.len();
        assert(at + 3 <= length);
        SShadowkeepVertexInputElement {
            semantic: bytes[at],
            semantic_index: bytes[at + 1],
            format: bytes[at + 2],
        }
    }
}

impl Stored for SShadowkeepBubbleParentRecord {
    open spec fn stored_size() -> nat {
        0x10
    }

    open spec fn is_stored(self, bytes: Seq<u8>, at: int) -> bool {
        self.unk0@ == words_at(bytes, at, 4)
    }

    fn size() -> (size: usize) {
        0x10
    }

    fn read_at(bytes: &[u8], at: usize) -> (value: Self) {
        let length: usize = bytes.len();
        assert(at + 0x10 <= length);
        SShadowkeepBubbleParentRecord {
            unk0: get_words(bytes, at),
        }
    }
}

impl Stored for SShadowkeepTerrainPlacement {
    open spec fn stored_size() -> nat {
        0x20
    }

    open spec fn is_stored(self, bytes: Seq<u8>, at: int) -> bool {
        &&& self.unk10 == le_u16(bytes, at + 0x10)
        &&& self.unk12 == le_u16(bytes, at + 0x12)
        &&& self.identifier == le_u32(bytes, at + 0x14)
        &&& self.terrain == le_u32(bytes, at + 0x18)
        &&& self.terrain_bounds == le_u32(bytes, at + 0x1c)
    }

    fn size() -> (size: usize) {
        0x20
    }

    fn read_at(bytes: &[u8], at: usize) -> (value: Self) {
        let length: usize = bytes.len();
        assert(at + 0x20 <= length);
        SShadowkeepTerrainPlacement {
            unk10: get_le_u16(bytes, at + 0x10),
            unk12: get_le_u16(bytes, at + 0x12),
            identifier: get_le_u32(bytes, at + 0x14),
            terrain: get_le_u32(bytes, at + 0x18),
            terrain_bounds: get_le_u32(bytes, at + 0x1c),
        }
    }
}

impl Stored for SShadowkeepCubemapPlacement {
    open spec fn stored_size() -> nat {
        0x1a4
    }

    open spec fn is_stored(self, bytes: Seq<u8>, at: int) -> bool {
        &&& self.volume_extents == vec4_at(bytes, at + 0x20)
        &&& self.volume_center == vec4_at(bytes, at + 0x30)
        &&& self.unk40 == le_u32(bytes, at + 0x40)
        &&& self.unk44@ == words_at(bytes, at + 0x44, 3)
        &&& self.fade_near == vec4_at(bytes, at + 0x50)
        &&& self.fade_far == vec4_at(bytes, at + 0x60)
        &&& self.shape == vec4_at(bytes, at + 0x70)
        &&& self.fade_power == le_u32(bytes, at + 0x80)
        &&& self.volume_to_world == mat4_at(bytes, at + 0xc0)
        &&& self.cubemap_to_world == mat4_at(bytes, at + 0x100)
        &&& self.probes_resolution@ == words_at(bytes, at + 0x140, 3)
        &&& self.unk14c == le_u32(bytes, at + 0x14c)
        &&& self.intensity == vec4_at(bytes, at + 0x150)
        &&& self.relighting == vec4_at(bytes, at + 0x160)
        &&& self.unk170 == vec4_at(bytes, at + 0x170)
        &&& self.texture_cube_specular_ibl == le_u32(bytes, at + 0x198)
        &&& self.texture_cube_alpha == le_u32(bytes, at + 0x19c)
        &&& self.texture_voxel_diffuse == le_u32(bytes, at + 0x1a0)
    }

    fn size() -> (size: usize) {
        0x1a4
    }

    fn read_at(bytes: &[u8], at: usize) -> (value: Self) {
        let length: usize = bytes.len();
        assert(at + 0x1a4 <= length);
        SShadowkeepCubemapPlacement {
            volume_extents: get_vec4(bytes, at + 0x20),
            volume_center: get_vec4(bytes, at + 0x30),
            unk40: get_le_u32(bytes, at + 0x40),
            unk44: get_words(bytes, at + 0x44),
            fade_near: get_vec4(bytes, at + 0x50),
            fade_far: get_vec4(bytes, at + 0x60),
            shape: get_vec4(bytes, at + 0x70),
            fade_power: get_le_u32(bytes, at + 0x80),
            volume_to_world: get_mat4(bytes, at + 0xc0),
            cubemap_to_world: get_mat4(bytes, at + 0x100),
            probes_resolution: get_words(bytes, at + 0x140),
            unk14c: get_le_u32(bytes, at + 0x14c),
            intensity: get_vec4(bytes, at + 0x150),
            relighting: get_vec4(bytes, at + 0x160),
            unk170: get_vec4(bytes, at + 0x170),
            texture_cube_specular_ibl: get_le_u32(bytes, at + 0x198),
            texture_cube_alpha: get_le_u32(bytes, at + 0x19c),
            texture_voxel_diffuse: get_le_u32(bytes, at + 0x1a0),
        }
    }
}

impl Stored for SShadowkeepRotationTranslation {
    open spec fn stored_size() -> nat {
        0x20
    }

    open spec fn is_stored(self, bytes: Seq<u8>, at: int) -> bool {
        &&& self.rotation == vec4_at(bytes, at)
        &&& self.translation == vec4_at(bytes, at + 0x10)
    }

    fn size() -> (size: usize) {
        0x20
    }

    fn read_at(bytes: &[u8], at: usize) -> (value: Self) {
        let length: usize = bytes.len();
        assert(at + 0x20 <= length);
        SShadowkeepRotationTranslation {
            rotation: get_vec4(bytes, at),
            translation: get_vec4(bytes, at + 0x10),
        }
    }
}

impl Stored for SShadowkeepLight {
    open spec fn stored_size() -> nat {
        0xa0
    }

    open spec fn is_stored(self, bytes: Seq<u8>, at: int) -> bool {
        &&& self.unk0 == vec4_at(bytes, at)
        &&& self.unk10 == vec4_at(bytes, at + 0x10)
        &&& self.light_to_world == mat4_at(bytes, at + 0x20)
        &&& self.unk60@ == words_at(bytes, at + 0x60, 8)
        &&& self.technique_shading == le_u32(bytes, at + 0x80)
        &&& self.unk84 == le_u32(bytes, at + 0x84)
        &&& self.unk88 == le_u32(bytes, at + 0x88)
        &&& self.unk8c == le_u32(bytes, at + 0x8c)
        &&& self.unk90@ == words_at(bytes, at + 0x90, 4)
    }

    fn size() -> (size: usize) {
        0xa0
    }

    fn read_at(bytes: &[u8], at: usize) -> (value: Self) {
        let length: usize = bytes.len();
        assert(at + 0xa0 <= length);
        SShadowkeepLight {
            unk0: get_vec4(bytes, at),
            unk10: get_vec4(bytes, at + 0x10),
            light_to_world: get_mat4(bytes, at + 0x20),
            unk60: get_words(bytes, at + 0x60),
            technique_shading: get_le_u32(bytes, at + 0x80),
            unk84: get_le_u32(bytes, at + 0x84),
            unk88: get_le_u32(bytes, at + 0x88),
            unk8c: get_le_u32(bytes, at + 0x8c),
            unk90: get_words(bytes, at + 0x90),
        }
    }
}

impl Stored for SShadowkeepShadowingLight {
    open spec fn stored_size() -> nat {
        0xa8
    }

    open spec fn is_stored(self, bytes: Seq<u8>, at: int) -> bool {
        &&& self.unk0 == vec4_at(bytes, at)
        &&& self.unk10 == vec4_at(bytes, at + 0x10)
        &&& self.light_to_world == mat4_at(bytes, at + 0x20)
        &&& self.unk60@ == words_at(bytes, at + 0x60, 8)
        &&& self.far_plane == le_u32(bytes, at + 0x80)
        &&& self.half_fov == le_u32(bytes, at + 0x84)
        &&& self.unkc8 == le_u32(bytes, at + 0x88)
        &&& self.unkcc == le_u32(bytes, at + 0x8c)
        &&& self.technique_shading == le_u32(bytes, at + 0x90)
        &&& self.technique_shading_shadowing == le_u32(bytes, at + 0x94)
        &&& self.technique_volumetrics == le_u32(bytes, at + 0x98)
        &&& self.technique_volumetrics_shadowing == le_u32(bytes, at + 0x9c)
        &&& self.unka0 == le_u32(bytes, at + 0xa0)
        &&& self.unka4 == le_u32(bytes, at + 0xa4)
    }

    fn size() -> (size: usize) {
        0xa8
    }

    fn read_at(bytes: &[u8], at: usize) -> (value: Self) {
        let length: usize = bytes.len();
        assert(at + 0xa8 <= length);
        SShadowkeepShadowingLight {
            unk0: get_vec4(bytes, at),
            unk10: get_vec4(bytes, at + 0x10),
            light_to_world: get_mat4(bytes, at + 0x20),
            unk60: get_words(bytes, at + 0x60),
            far_plane: get_le_u32(bytes, at + 0x80),
            half_fov: get_le_u32(bytes, at + 0x84),
            unkc8: get_le_u32(bytes, at + 0x88),
            unkcc: get_le_u32(bytes, at + 0x8c),
            technique_shading: get_le_u32(bytes, at + 0x90),
            technique_shading_shadowing: get_le_u32(bytes, at + 0x94),
            technique_volumetrics: get_le_u32(bytes, at + 0x98),
            technique_volumetrics_shadowing: get_le_u32(bytes, at + 0x9c),
            unka0: get_le_u32(bytes, at + 0xa0),
            unka4: get_le_u32(bytes, at + 0xa4),
        }
    }
}

impl Stored for SSequenceNodeBase {
    open spec fn stored_size() -> nat {
        0x20
    }

    open spec fn is_stored(self, bytes: Seq<u8>, at: int) -> bool {
        &&& self.name == le_u32(bytes, at)
        &&& self.unk4 == le_u16(bytes, at + 4)
        &&& self.parent_index == le_u16(bytes, at + 6)
        &&& self.unk8 == le_u32(bytes, at + 8)
        &&& self.unkc == le_u32(bytes, at + 0xc)
        &&& self.start_time == le_u32(bytes, at + 0x10)
        &&& self.unk14 == le_u32(bytes, at + 0x14)
        &&& self.duration == le_u32(bytes, at + 0x18)
        &&& self.unk1c == le_u32(bytes, at + 0x1c)
    }

    fn size() -> (size: usize) {
        0x20
    }

    fn read_at(bytes: &[u8], at: usize) -> (value: Self) {
        let length: usize = bytes.len();
        assert(at + 0x20 <= length);
        SSequenceNodeBase {
            name: get_le_u32(bytes, at),
            unk4: get_le_u16(bytes, at + 4),
            parent_index: get_le_u16(bytes, at + 6),
            unk8: get_le_u32(bytes, at + 8),
            unkc: get_le_u32(bytes, at + 0xc),
            start_time: get_le_u32(bytes, at + 0x10),
            unk14: get_le_u32(bytes, at + 0x14),
            duration: get_le_u32(bytes, at + 0x18),
            unk1c: get_le_u32(bytes, at + 0x1c),
        }
    }
}

impl Stored for SUnk80806920 {
    open spec fn stored_size() -> nat {
        0x48
    }

    open spec fn is_stored(self, bytes: Seq<u8>, at: int) -> bool {
        &&& self.unk0 == le_u32(bytes, at)
        &&& self.unk4 == le_u32(bytes, at + 4)
        &&& self.unk8_compute_technique == le_u32(bytes, at + 8)
        &&& self.unkc_compute_technique == le_u32(bytes, at + 0xc)
        &&& self.unk10 == le_u32(bytes, at + 0x10)
        &&& self.unk14_compute_technique == le_u32(bytes, at + 0x14)
        &&& self.unk18_raster_technique == le_u32(bytes, at + 0x18)
    }

    fn size() -> (size: usize) {
        0x48
    }

    fn read_at(bytes: &[u8], at: usize) -> (value: Self) {
        let length: usize = bytes.len();
        assert(at + 0x48 <= length);
        SUnk80806920 {
            unk0: get_le_u32(bytes, at),
            unk4: get_le_u32(bytes, at + 4),
            unk8_compute_technique: get_le_u32(bytes, at + 8),
            unkc_compute_technique: get_le_u32(bytes, at + 0xc),
            unk10: get_le_u32(bytes, at + 0x10),
            unk14_compute_technique: get_le_u32(bytes, at + 0x14),
            unk18_raster_technique: get_le_u32(bytes, at + 0x18),
        }
    }
}

/// The fields of a stored texture header stand at these places.
pub proof fn law_texture_header_fields_stand_in_place(
    record: SShadowkeepTextureHeader,
    bytes: Seq<u8>,
    at: int,
)
    requires
        record.is_stored(bytes, at),
    ensures
        <SShadowkeepTextureHeader as Stored>::stored_size() == 0x28,
        record.data_size == le_u32(bytes, at),
        record.format == le_u32(bytes, at + 4),
        record.unk8 == le_u32(bytes, at + 8),
        record.cafe == le_u16(bytes, at + 0xc),
        record.width == le_u16(bytes, at + 0xe),
        record.height == le_u16(bytes, at + 0x10),
        record.depth == le_u16(bytes, at + 0x12),
        record.array_size == le_u16(bytes, at + 0x14),
        record.unk16 == bytes[at + 0x16],
        record.mip_count == bytes[at + 0x17],
        record.unk18@ == bytes.subrange(at + 0x18, at + 0x24),
        record.large_buffer == le_u32(bytes, at + 0x24),
{
}

/// The fields of a stored static mesh part stand at these places.
pub proof fn law_static_mesh_part_fields_stand_in_place(
    record: SShadowkeepStaticMeshPart,
    bytes: Seq<u8>,
    at: int,
)
    requires
        record.is_stored(bytes, at),
    ensures
        <SShadowkeepStaticMeshPart as Stored>::stored_size() == 0xc,
        record.index_start == le_u32(bytes, at),
        record.index_count == le_u32(bytes, at + 4),
        record.buffer_index == bytes[at + 8],
        record.unk9 == bytes[at + 9],
        record.lod_category == bytes[at + 0xa],
        record.primitive_type == bytes[at + 0xb],
{
}

/// The fields of a stored static mesh group stand at these places.
pub proof fn law_static_mesh_group_fields_stand_in_place(
    record: SShadowkeepStaticMeshGroup,
    bytes: Seq<u8>,
    at: int,
)
    requires
        record.is_stored(bytes, at),
    ensures
        <SShadowkeepStaticMeshGroup as Stored>::stored_size() == 8,
        record.part_index == le_u16(bytes, at),
        record.render_stage == bytes[at + 2],
        record.unk3 == bytes[at + 3],
        record.input_layout_index == bytes[at + 4],
        record.unk5 == bytes[at + 5],
        record.unk6 == le_u16(bytes, at + 6),
{
}

/// The fields of a stored static mesh instance group stand at these places.
pub proof fn law_static_mesh_instance_group_fields_stand_in_place(
    record: SShadowkeepStaticMeshInstanceGroup,
    bytes: Seq<u8>,
    at: int,
)
    requires
        record.is_stored(bytes, at),
    ensures
        <SShadowkeepStaticMeshInstanceGroup as Stored>::stored_size() == 8,
        record.instance_count == le_u16(bytes, at),
        record.instance_start == le_u16(bytes, at + 2),
        record.static_index == le_u16(bytes, at + 4),
        record.unk6 == le_u16(bytes, at + 6),
{
}

/// The fields of a stored static instance transform stand at these places.
pub proof fn law_static_instance_transform_fields_stand_in_place(
    record: SShadowkeepStaticInstanceTransform,
    bytes: Seq<u8>,
    at: int,
)
    requires
        record.is_stored(bytes, at),
    ensures
        <SShadowkeepStaticInstanceTransform as Stored>::stored_size() == 0x30,
        record.rotation == vec4_at(bytes, at),
        record.translation == vec3_at(bytes, at + 0x10),
        record.scale == vec3_at(bytes, at + 0x1c),
        record.unk28 == le_u32(bytes, at + 0x28),
        record.unk2c == le_u32(bytes, at + 0x2c),
{
}

/// The fields of a stored static special mesh stand at these places.
pub proof fn law_static_special_mesh_fields_stand_in_place(
    record: SShadowkeepStaticSpecialMesh,
    bytes: Seq<u8>,
    at: int,
)
    requires
        record.is_stored(bytes, at),
    ensures
        <SShadowkeepStaticSpecialMesh as Stored>::stored_size() == 0x20,
        record.render_stage == bytes[at],
        record.input_layout_index == bytes[at + 1],
        record.unk2 == le_u16(bytes, at + 2),
        record.lod_category == bytes[at + 4],
        record.unk5 == signed_byte(bytes[at + 5]),
        record.primitive_type == bytes[at + 6],
        record.unk7 == bytes[at + 7],
        record.index_buffer == le_u32(bytes, at + 8),
        record.vertex0_buffer == le_u32(bytes, at + 0xc),
        record.vertex1_buffer == le_u32(bytes, at + 0x10),
        record.index_start == le_u32(bytes, at + 0x14),
        record.index_count == le_u32(bytes, at + 0x18),
        record.technique == le_u32(bytes, at + 0x1c),
{
}

/// The fields of a stored terrain mesh group stand at these places.
pub proof fn law_terrain_mesh_group_fields_stand_in_place(
    record: SShadowkeepTerrainMeshGroup,
    bytes: Seq<u8>,
    at: int,
)
    requires
        record.is_stored(bytes, at),
    ensures
        <SShadowkeepTerrainMeshGroup as Stored>::stored_size() == 0x60,
        record.unk0 == vec4_at(bytes, at),
        record.unk10 == le_u32(bytes, at + 0x10),
        record.unk14 == le_u32(bytes, at + 0x14),
        record.unk18 == le_u32(bytes, at + 0x18),
        record.unk1c == le_u32(bytes, at + 0x1c),
        record.texcoord_transform == vec4_at(bytes, at + 0x20),
        record.unk30@ == words_at(bytes, at + 0x30, 8),
        record.dyemap == le_u32(bytes, at + 0x50),
        record.unk54@ == words_at(bytes, at + 0x54, 3),
{
}

/// The fields of a stored terrain mesh part stand at these places.
pub proof fn law_terrain_mesh_part_fields_stand_in_place(
    record: SShadowkeepTerrainMeshPart,
    bytes: Seq<u8>,
    at: int,
)
    requires
        record.is_stored(bytes, at),
    ensures
        <SShadowkeepTerrainMeshPart as Stored>::stored_size() == 0xc,
        record.technique == le_u32(bytes, at),
        record.index_start == le_u32(bytes, at + 4),
        record.index_count == le_u16(bytes, at + 8),
        record.group_index == bytes[at + 0xa],
        record.detail_level == bytes[at + 0xb],
{
}

/// The fields of a stored dynamic mesh part stand at these places.
pub proof fn law_dynamic_mesh_part_fields_stand_in_place(
    record: SShadowkeepDynamicMeshPart,
    bytes: Seq<u8>,
    at: int,
)
    requires
        record.is_stored(bytes, at),
    ensures
        <SShadowkeepDynamicMeshPart as Stored>::stored_size() == 0x20,
        record.technique == le_u32(bytes, at),
        record.variant_shader_index == le_u16(bytes, at + 4),
        record.primitive_type == bytes[at + 6],
        record.unk7 == bytes[at + 7],
        record.index_start == le_u32(bytes, at + 8),
        record.index_count == le_u32(bytes, at + 0xc),
        record.unk10 == le_u32(bytes, at + 0x10),
        record.external_identifier == le_u16(bytes, at + 0x14),
        record.unk16 == le_u16(bytes, at + 0x16),
        record.unk18 == bytes[at + 0x18],
        record.unk19 == bytes[at + 0x19],
        record.unk1a == bytes[at + 0x1a],
        record.lod_category == bytes[at + 0x1b],
        record.unk1c == le_u32(bytes, at + 0x1c),
{
}

/// The fields of a stored dynamic material variant stand at these places.
pub proof fn law_dynamic_material_variant_fields_stand_in_place(
    record: SShadowkeepDynamicMaterialVariant,
    bytes: Seq<u8>,
    at: int,
)
    requires
        record.is_stored(bytes, at),
    ensures
        <SShadowkeepDynamicMaterialVariant as Stored>::stored_size() == 0xc,
        record.technique_count == le_u32(bytes, at),
        record.technique_start == le_u32(bytes, at + 4),
        record.unk8 == le_u32(bytes, at + 8),
{
}

/// The fields of a stored sampler reference stand at these places.
pub proof fn law_sampler_reference_fields_stand_in_place(
    record: SShadowkeepSamplerReference,
    bytes: Seq<u8>,
    at: int,
)
    requires
        record.is_stored(bytes, at),
    ensures
        <SShadowkeepSamplerReference as Stored>::stored_size() == 0x10,
        record.sampler == le_u32(bytes, at),
        record.unk4 == le_u32(bytes, at + 4),
        record.unk8 == le_u32(bytes, at + 8),
        record.unkc == le_u32(bytes, at + 0xc),
{
}

/// The fields of a stored material texture assignment stand at these places.
pub proof fn law_material_texture_assignment_fields_stand_in_place(
    record: SShadowkeepMaterialTextureAssignment,
    bytes: Seq<u8>,
    at: int,
)
    requires
        record.is_stored(bytes, at),
    ensures
        <SShadowkeepMaterialTextureAssignment as Stored>::stored_size() == 8,
        record.slot == le_u32(bytes, at),
        record.texture == le_u32(bytes, at + 4),
{
}

/// The fields of a stored lookup textures stand at these places.
pub proof fn law_lookup_textures_fields_stand_in_place(
    record: SShadowkeepLookupTextures,
    bytes: Seq<u8>,
    at: int,
)
    requires
        record.is_stored(bytes, at),
    ensures
        <SShadowkeepLookupTextures as Stored>::stored_size() == 0x18,
        record.file_size == le_u64(bytes, at),
        record.specular_tint_lookup_texture == le_u32(bytes, at + 8),
        record.specular_lobe_lookup_texture == le_u32(bytes, at + 0xc),
        record.specular_lobe_3d_lookup_texture == le_u32(bytes, at + 0x10),
        record.iridescence_lookup_texture == le_u32(bytes, at + 0x14),
{
}

/// The fields of a stored vertex layout stand at these places.
pub proof fn law_vertex_layout_fields_stand_in_place(
    record: SShadowkeepVertexLayout,
    bytes: Seq<u8>,
    at: int,
)
    requires
        record.is_stored(bytes, at),
    ensures
        <SShadowkeepVertexLayout as Stored>::stored_size() == 0x1c,
        record.index == bytes[at],
        record.element_0 == le_u32(bytes, at + 8),
        record.element_1 == le_u32(bytes, at + 0xc),
        record.element_2 == le_u32(bytes, at + 0x10),
        record.element_3 == le_u32(bytes, at + 0x14),
        record.unk18 == bytes[at + 0x18],
        record.unk19 == bytes[at + 0x19],
        record.unk1a == bytes[at + 0x1a],
        record.unk1b == bytes[at + 0x1b],
{
}

/// The fields of a stored vertex input element stand at these places.
pub proof fn law_vertex_input_element_fields_stand_in_place(
    record: SShadowkeepVertexInputElement,
    bytes: Seq<u8>,
    at: int,
)
    requires
        record.is_stored(bytes, at),
    ensures
        <SShadowkeepVertexInputElement as Stored>::stored_size() == 3,
        record.semantic == bytes[at],
        record.semantic_index == bytes[at + 1],
        record.format == bytes[at + 2],
{
}

/// The fields of a stored terrain placement stand at these places.
pub proof fn law_terrain_placement_fields_stand_in_place(
    record: SShadowkeepTerrainPlacement,
    bytes: Seq<u8>,
    at: int,
)
    requires
        record.is_stored(bytes, at),
    ensures
        <SShadowkeepTerrainPlacement as Stored>::stored_size() == 0x20,
        record.unk10 == le_u16(bytes, at + 0x10),
        record.unk12 == le_u16(bytes, at + 0x12),
        record.identifier == le_u32(bytes, at + 0x14),
        record.terrain == le_u32(bytes, at + 0x18),
        record.terrain_bounds == le_u32(bytes, at + 0x1c),
{
}

/// The fields of a stored cubemap placement stand at these places.
pub proof fn law_cubemap_placement_fields_stand_in_place(
    record: SShadowkeepCubemapPlacement,
    bytes: Seq<u8>,
    at: int,
)
    requires
        record.is_stored(bytes, at),
    ensures
        <SShadowkeepCubemapPlacement as Stored>::stored_size() == 0x1a4,
        record.volume_extents == vec4_at(bytes, at + 0x20),
        record.volume_center == vec4_at(bytes, at + 0x30),
        record.unk40 == le_u32(bytes, at + 0x40),
        record.unk44@ == words_at(bytes, at + 0x44, 3),
        record.fade_near == vec4_at(bytes, at + 0x50),
        record.fade_far == vec4_at(bytes, at + 0x60),
        record.shape == vec4_at(bytes, at + 0x70),
        record.fade_power == le_u32(bytes, at + 0x80),
        record.volume_to_world == mat4_at(bytes, at + 0xc0),
        record.cubemap_to_world == mat4_at(bytes, at + 0x100),
        record.probes_resolution@ == words_at(bytes, at + 0x140, 3),
        record.unk14c == le_u32(bytes, at + 0x14c),
        record.intensity == vec4_at(bytes, at + 0x150),
        record.relighting == vec4_at(bytes, at + 0x160),
        record.unk170 == vec4_at(bytes, at + 0x170),
        record.texture_cube_specular_ibl == le_u32(bytes, at + 0x198),
        record.texture_cube_alpha == le_u32(bytes, at + 0x19c),
        record.texture_voxel_diffuse == le_u32(bytes, at + 0x1a0),
{
}

/// The fields of a stored rotation translation stand at these places.
pub proof fn law_rotation_translation_fields_stand_in_place(
    record: SShadowkeepRotationTranslation,
    bytes: Seq<u8>,
    at: int,
)
    requires
        record.is_stored(bytes, at),
    ensures
        <SShadowkeepRotationTranslation as Stored>::stored_size() == 0x20,
        record.rotation == vec4_at(bytes, at),
        record.translation == vec4_at(bytes, at + 0x10),
{
}

/// The fields of a stored light stand at these places.
pub proof fn law_light_fields_stand_in_place(record: SShadowkeepLight, bytes: Seq<u8>, at: int)
    requires
        record.is_stored(bytes, at),
    ensures
        <SShadowkeepLight as Stored>::stored_size() == 0xa0,
        record.unk0 == vec4_at(bytes, at),
        record.unk10 == vec4_at(bytes, at + 0x10),
        record.light_to_world == mat4_at(bytes, at + 0x20),
        record.unk60@ == words_at(bytes, at + 0x60, 8),
        record.technique_shading == le_u32(bytes, at + 0x80),
        record.unk84 == le_u32(bytes, at + 0x84),
        record.unk88 == le_u32(bytes, at + 0x88),
        record.unk8c == le_u32(bytes, at + 0x8c),
        record.unk90@ == words_at(bytes, at + 0x90, 4),
{
}

/// The fields of a stored shadowing light stand at these places.
pub proof fn law_shadowing_light_fields_stand_in_place(
    record: SShadowkeepShadowingLight,
    bytes: Seq<u8>,
    at: int,
)
    requires
        record.is_stored(bytes, at),
    ensures
        <SShadowkeepShadowingLight as Stored>::stored_size() == 0xa8,
        record.unk0 == vec4_at(bytes, at),
        record.unk10 == vec4_at(bytes, at + 0x10),
        record.light_to_world == mat4_at(bytes, at + 0x20),
        record.unk60@ == words_at(bytes, at + 0x60, 8),
        record.far_plane == le_u32(bytes, at + 0x80),
        record.half_fov == le_u32(bytes, at + 0x84),
        record.unkc8 == le_u32(bytes, at + 0x88),
        record.unkcc == le_u32(bytes, at + 0x8c),
        record.technique_shading == le_u32(bytes, at + 0x90),
        record.technique_shading_shadowing == le_u32(bytes, at + 0x94),
        record.technique_volumetrics == le_u32(bytes, at + 0x98),
        record.technique_volumetrics_shadowing == le_u32(bytes, at + 0x9c),
        record.unka0 == le_u32(bytes, at + 0xa0),
        record.unka4 == le_u32(bytes, at + 0xa4),
{
}

/// The fields of a stored sequence node base stand at these places.
pub proof fn law_sequence_node_base_fields_stand_in_place(
    record: SSequenceNodeBase,
    bytes: Seq<u8>,
    at: int,
)
    requires
        record.is_stored(bytes, at),
    ensures
        <SSequenceNodeBase as Stored>::stored_size() == 0x20,
        record.name == le_u32(bytes, at),
        record.unk4 == le_u16(bytes, at + 4),
        record.parent_index == le_u16(bytes, at + 6),
        record.unk8 == le_u32(bytes, at + 8),
        record.unkc == le_u32(bytes, at + 0xc),
        record.start_time == le_u32(bytes, at + 0x10),
        record.unk14 == le_u32(bytes, at + 0x14),
        record.duration == le_u32(bytes, at + 0x18),
        record.unk1c == le_u32(bytes, at + 0x1c),
{
}

/// The fields of a stored unk80806920 stand at these places.
pub proof fn law_unk80806920_fields_stand_in_place(record: SUnk80806920, bytes: Seq<u8>, at: int)
    requires
        record.is_stored(bytes, at),
    ensures
        <SUnk80806920 as Stored>::stored_size() == 0x48,
        record.unk0 == le_u32(bytes, at),
        record.unk4 == le_u32(bytes, at + 4),
        record.unk8_compute_technique == le_u32(bytes, at + 8),
        record.unkc_compute_technique == le_u32(bytes, at + 0xc),
        record.unk10 == le_u32(bytes, at + 0x10),
        record.unk14_compute_technique == le_u32(bytes, at + 0x14),
        record.unk18_raster_technique == le_u32(bytes, at + 0x18),
{
}

/// A stored vector has its lanes in order, four bytes each, and a stored matrix its four axes.
pub proof fn law_lanes_and_axes_stand_in_order(bytes: Seq<u8>, at: int)
    ensures
        vec3_at(bytes, at).x == le_u32(bytes, at),
        vec3_at(bytes, at).y == le_u32(bytes, at + 4),
        vec3_at(bytes, at).z == le_u32(bytes, at + 8),
        mat4_at(bytes, at).x_axis == vec4_at(bytes, at),
        mat4_at(bytes, at).y_axis == vec4_at(bytes, at + 0x10),
        mat4_at(bytes, at).z_axis == vec4_at(bytes, at + 0x20),
        mat4_at(bytes, at).w_axis == vec4_at(bytes, at + 0x30),
{
}

/// A byte with its highest bit set stands for a negative number.
pub proof fn law_signed_bytes_wrap(byte: u8)
    ensures
        byte < 0x80 ==> signed_byte(byte) == byte,
        byte >= 0x80 ==> signed_byte(byte) + 0x100 == byte,
{
}

} // verus!
