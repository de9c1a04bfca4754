//! Geometry as the packages store it: stages, levels of detail, meshes and
//! instances.

use crate::channels::{Vec4Bits, ONE_BITS};
use core::ops::Range;
use vstd::prelude::*;

verus! {

/// How many render stages the packages know.
pub const SHADOWKEEP_RENDER_STAGE_COUNT: usize = 23;

/// The render stages, in the renderer's numbering.
#[derive(Clone, Copy, Debug, PartialEq, Eq, Structural)]
pub enum RenderStage {
    GenerateGbuffer,
    Decals,
    InvestmentDecals,
    ShadowGenerate,
    LightingApply,
    LightProbeApply,
    DecalsAdditive,
    Transparents,
    Distortion,
    LightShaftOcclusion,
    SkinPrepass,
    LensFlares,
    DepthPrepass,
    WaterReflection,
    PostprocessTransparentStencil,
    Impulse,
    Reticle,
    WaterRipples,
    MaskSunLight,
    Volumetrics,
    Cubemaps,
    PostprocessScreen,
    WorldForces,
    ComputeSkinning,
}

/// How many render stages the renderer knows.
pub const RENDER_STAGE_COUNT: usize = 24;

impl RenderStage {
    /// The number of a stage.
    pub open spec fn number(self) -> u8 {
        match self {
            RenderStage::GenerateGbuffer => 0,
            RenderStage::Decals => 1,
            RenderStage::InvestmentDecals => 2,
            RenderStage::ShadowGenerate => 3,
            RenderStage::LightingApply => 4,
            RenderStage::LightProbeApply => 5,
            RenderStage::DecalsAdditive => 6,
            RenderStage::Transparents => 7,
            RenderStage::Distortion => 8,
            RenderStage::LightShaftOcclusion => 9,
            RenderStage::SkinPrepass => 10,
            RenderStage::LensFlares => 11,
            RenderStage::DepthPrepass => 12,
            RenderStage::WaterReflection => 13,
            RenderStage::PostprocessTransparentStencil => 14,
            RenderStage::Impulse => 15,
            RenderStage::Reticle => 16,
            RenderStage::WaterRipples => 17,
            RenderStage::MaskSunLight => 18,
            RenderStage::Volumetrics => 19,
            RenderStage::Cubemaps => 20,
            RenderStage::PostprocessScreen => 21,
            RenderStage::WorldForces => 22,
            RenderStage::ComputeSkinning => 23,
        }
    }

    pub fn index(self) -> (number: u8)
        ensures
            number == self.number(),
            number < RENDER_STAGE_COUNT,
    {
        match self {
            RenderStage::GenerateGbuffer => 0,
            RenderStage::Decals => 1,
            RenderStage::InvestmentDecals => 2,
            RenderStage::ShadowGenerate => 3,
            RenderStage::LightingApply => 4,
            RenderStage::LightProbeApply => 5,
            RenderStage::DecalsAdditive => 6,
            RenderStage::Transparents => 7,
            RenderStage::Distortion => 8,
            RenderStage::LightShaftOcclusion => 9,
            RenderStage::SkinPrepass => 10,
            RenderStage::LensFlares => 11,
            RenderStage::DepthPrepass => 12,
            RenderStage::WaterReflection => 13,
            RenderStage::PostprocessTransparentStencil => 14,
            RenderStage::Impulse => 15,
            RenderStage::Reticle => 16,
            RenderStage::WaterRipples => 17,
            RenderStage::MaskSunLight => 18,
            RenderStage::Volumetrics => 19,
            RenderStage::Cubemaps => 20,
            RenderStage::PostprocessScreen => 21,
            RenderStage::WorldForces => 22,
            RenderStage::ComputeSkinning => 23,
        }
    }

    /// The stage with the given number.
    pub fn from_number(number: u8) -> (stage: Option<RenderStage>)
        ensures
            match stage {
                Some(found) => found.number() == number,
                None => number >= RENDER_STAGE_COUNT,
            },
    {
        Some(match number {
            0 => RenderStage::GenerateGbuffer,
            1 => RenderStage::Decals,
            2 => RenderStage::InvestmentDecals,
            3 => RenderStage::ShadowGenerate,
            4 => RenderStage::LightingApply,
            5 => RenderStage::LightProbeApply,
            6 => RenderStage::DecalsAdditive,
            7 => RenderStage::Transparents,
            8 => RenderStage::Distortion,
            9 => RenderStage::LightShaftOcclusion,
            10 => RenderStage::SkinPrepass,
            11 => RenderStage::LensFlares,
            12 => RenderStage::DepthPrepass,
            13 => RenderStage::WaterReflection,
            14 => RenderStage::PostprocessTransparentStencil,
            15 => RenderStage::Impulse,
            16 => RenderStage::Reticle,
            17 => RenderStage::WaterRipples,
            18 => RenderStage::MaskSunLight,
            19 => RenderStage::Volumetrics,
            20 => RenderStage::Cubemaps,
            21 => RenderStage::PostprocessScreen,
            22 => RenderStage::WorldForces,
            23 => RenderStage::ComputeSkinning,
            _ => return None,
        })
    }
}

/// No two stages share a number.
pub proof fn law_stage_numbers_are_distinct(a: RenderStage, b: RenderStage)
    requires
        a.number() == b.number(),
    ensures
        a == b,
{
}

/// The stage with a number below 23, which the packages know.
pub open spec fn legacy_stage(value: u8) -> Option<RenderStage> {
    match value {
        0 => Some(RenderStage::GenerateGbuffer),
        1 => Some(RenderStage::Decals),
        2 => Some(RenderStage::InvestmentDecals),
        3 => Some(RenderStage::ShadowGenerate),
        4 => Some(RenderStage::LightingApply),
        5 => Some(RenderStage::LightProbeApply),
        6 => Some(RenderStage::DecalsAdditive),
        7 => Some(RenderStage::Transparents),
        8 => Some(RenderStage::Distortion),
        9 => Some(RenderStage::LightShaftOcclusion),
        10 => Some(RenderStage::SkinPrepass),
        11 => Some(RenderStage::LensFlares),
        12 => Some(RenderStage::DepthPrepass),
        13 => Some(RenderStage::WaterReflection),
        14 => Some(RenderStage::PostprocessTransparentStencil),
        15 => Some(RenderStage::Impulse),
        16 => Some(RenderStage::Reticle),
        17 => Some(RenderStage::WaterRipples),
        18 => Some(RenderStage::MaskSunLight),
        19 => Some(RenderStage::Volumetrics),
        20 => Some(RenderStage::Cubemaps),
        21 => Some(RenderStage::PostprocessScreen),
        22 => Some(RenderStage::WorldForces),
        _ => None,
    }
}

/// The stage that the packages number `value`. Skinning by compute shader came
/// later, so its number names no stage there.
pub fn render_stage_from_legacy(value: u8) -> (stage: Option<RenderStage>)
    ensures
        match stage {
            Some(found) => value < SHADOWKEEP_RENDER_STAGE_COUNT && found.number() == value
                && found != RenderStage::ComputeSkinning,
            None => value >= SHADOWKEEP_RENDER_STAGE_COUNT,
        },
        stage == legacy_stage(value),
{
    if value < 23 {
        RenderStage::from_number(value)
    } else {
        None
    }
}

/// How indices make up primitives.
#[derive(Clone, Copy, Debug, PartialEq, Eq, Structural)]
pub enum PrimitiveType {
    Triangles,
    TriangleStrip,
}

impl PrimitiveType {
    /// The stored value of a primitive type.
    pub open spec fn stored(self) -> u8 {
        match self {
            PrimitiveType::Triangles => 3,
            PrimitiveType::TriangleStrip => 5,
        }
    }
}

pub open spec fn legacy_primitive(value: u8) -> Option<PrimitiveType> {
    match value {
        3 => Some(PrimitiveType::Triangles),
        5 => Some(PrimitiveType::TriangleStrip),
        _ => None,
    }
}

/// The primitive type with the given stored value.
pub fn primitive_type_from_legacy(value: u8) -> (primitive: Option<PrimitiveType>)
    ensures
        match primitive {
            Some(found) => found.stored() == value,
            None => value != 3 && value != 5,
        },
        primitive == legacy_primitive(value),
{
    match value {
        3 => Some(PrimitiveType::Triangles),
        5 => Some(PrimitiveType::TriangleStrip),
        _ => None,
    }
}

/// Levels of detail.
#[derive(Clone, Copy, Debug, PartialEq, Eq, Structural)]
#[allow(non_camel_case_types)]
pub enum LodCategory {
    Lod_0_0,
    Lod_0_1,
    Lod_0_2,
    Lod_0_3,
    Lod_1_0,
    Lod_2_0,
    Lod_2_1,
    Lod_3_0,
    Lod_Detail,
}

impl LodCategory {
    /// The stored value of a level of detail.
    pub open spec fn stored(self) -> u8 {
        match self {
            LodCategory::Lod_0_0 => 0,
            LodCategory::Lod_0_1 => 1,
            LodCategory::Lod_0_2 => 2,
            LodCategory::Lod_0_3 => 3,
            LodCategory::Lod_1_0 => 4,
            LodCategory::Lod_2_0 => 7,
            LodCategory::Lod_2_1 => 8,
            LodCategory::Lod_3_0 => 9,
            LodCategory::Lod_Detail => 10,
        }
    }
}

pub open spec fn legacy_lod(value: u8) -> Option<LodCategory> {
    match value {
        0 => Some(LodCategory::Lod_0_0),
        1 => Some(LodCategory::Lod_0_1),
        2 => Some(LodCategory::Lod_0_2),
        3 => Some(LodCategory::Lod_0_3),
        4 => Some(LodCategory::Lod_1_0),
        7 => Some(LodCategory::Lod_2_0),
        8 => Some(LodCategory::Lod_2_1),
        9 => Some(LodCategory::Lod_3_0),
        10 => Some(LodCategory::Lod_Detail),
        _ => None,
    }
}

/// The level of detail with the given stored value. The values 5 and 6 are not
/// in use.
pub fn lod_category_from_legacy(value: u8) -> (lod: Option<LodCategory>)
    ensures
        match lod {
            Some(found) => found.stored() == value,
            None => value == 5 || value == 6 || value > 10,
        },
        lod == legacy_lod(value),
{
    match value {
        0 => Some(LodCategory::Lod_0_0),
        1 => Some(LodCategory::Lod_0_1),
        2 => Some(LodCategory::Lod_0_2),
        3 => Some(LodCategory::Lod_0_3),
        4 => Some(LodCategory::Lod_1_0),
        7 => Some(LodCategory::Lod_2_0),
        8 => Some(LodCategory::Lod_2_1),
        9 => Some(LodCategory::Lod_3_0),
        10 => Some(LodCategory::Lod_Detail),
        _ => None,
    }
}

/// Three single-precision floats, held as their bit patterns.
#[derive(Clone, Copy, Debug, PartialEq, Eq, Structural)]
pub struct Vec3Bits {
    pub x: u32,
    pub y: u32,
    pub z: u32,
}

/// Two single-precision floats, held as their bit patterns.
#[derive(Clone, Copy, Debug, PartialEq, Eq, Structural)]
pub struct Vec2Bits {
    pub x: u32,
    pub y: u32,
}

/// A matrix by its columns, as single-precision patterns.
#[derive(Clone, Copy, Debug, PartialEq, Eq, Structural)]
pub struct Mat4Bits {
    pub x_axis: Vec4Bits,
    pub y_axis: Vec4Bits,
    pub z_axis: Vec4Bits,
    pub w_axis: Vec4Bits,
}

impl Mat4Bits {
    pub open spec fn unit() -> Mat4Bits {
        Mat4Bits {
            x_axis: Vec4Bits { x: ONE_BITS, y: 0, z: 0, w: 0 },
            y_axis: Vec4Bits { x: 0, y: ONE_BITS, z: 0, w: 0 },
            z_axis: Vec4Bits { x: 0, y: 0, z: ONE_BITS, w: 0 },
            w_axis: Vec4Bits { x: 0, y: 0, z: 0, w: ONE_BITS },
        }
    }

    /// The matrix that changes nothing.
    pub fn identity() -> (matrix: Mat4Bits)
        ensures
            matrix == Mat4Bits::unit(),
    {
        Mat4Bits {
            x_axis: Vec4Bits { x: ONE_BITS, y: 0, z: 0, w: 0 },
            y_axis: Vec4Bits { x: 0, y: ONE_BITS, z: 0, w: 0 },
            z_axis: Vec4Bits { x: 0, y: 0, z: ONE_BITS, w: 0 },
            w_axis: Vec4Bits { x: 0, y: 0, z: 0, w: ONE_BITS },
        }
    }
}

/// A static mesh. Its opaque part lies under a tag of its own.
#[derive(Debug)]
pub struct SShadowkeepStaticMesh {
    pub file_size: u64,
    pub opaque_meshes: SShadowkeepStaticMeshData,
    pub unkc: u32,
    pub techniques: Vec<u32>,
    pub special_meshes: Vec<SShadowkeepStaticSpecialMesh>,
    pub unk30: [u32; 2],
    pub unk38: [u32; 6],
    pub unk50: Vec3Bits,
    pub unk5c: u32,
    pub mesh_offset: Vec3Bits,
    pub mesh_scale: u32,
    pub texture_coordinate_scale: Vec2Bits,
    pub texture_coordinate_offset: Vec2Bits,
}

#[derive(Debug)]
pub struct SShadowkeepStaticMeshData {
    pub file_size: u64,
    pub mesh_groups: Vec<SShadowkeepStaticMeshGroup>,
    pub parts: Vec<SShadowkeepStaticMeshPart>,
    pub buffers: Vec<(u32, u32, u32, u32)>,
}

#[derive(Clone, Copy, Debug, PartialEq, Eq, Structural)]
pub struct SShadowkeepStaticMeshPart {
    pub index_start: u32,
    pub index_count: u32,
    pub buffer_index: u8,
    pub unk9: u8,
    pub lod_category: u8,
    pub primitive_type: u8,
}

#[derive(Clone, Copy, Debug, PartialEq, Eq, Structural)]
pub struct SShadowkeepStaticMeshGroup {
    pub part_index: u16,
    pub render_stage: u8,
    pub unk3: u8,
    pub input_layout_index: u8,
    pub unk5: u8,
    pub unk6: u16,
}

#[derive(Debug)]
pub struct SShadowkeepStaticMeshInstances {
    pub transforms: Vec<SShadowkeepStaticInstanceTransform>,
    pub unk50: [u32; 2],
    pub statics: Vec<u32>,
    pub instance_groups: Vec<SShadowkeepStaticMeshInstanceGroup>,
}

/// The instances of one mesh: a range of the transforms.
#[derive(Clone, Copy, Debug, PartialEq, Eq, Structural)]
pub struct SShadowkeepStaticMeshInstanceGroup {
    pub instance_count: u16,
    pub instance_start: u16,
    pub static_index: u16,
    pub unk6: u16,
}

impl SShadowkeepStaticMeshInstanceGroup {
    /// The transforms of the group.
    pub fn transform_range(&self) -> (range: Range<usize>)
        ensures
            range.start == self.instance_start,
            range.end == self.instance_start + self.instance_count,
    {
        let start: usize = self.instance_start as usize;
        start..start + self.instance_count as usize
    }
}

#[derive(Clone, Copy, Debug, PartialEq, Eq, Structural)]
pub struct SShadowkeepStaticInstanceTransform {
    pub rotation: Vec4Bits,
    pub translation: Vec3Bits,
    pub scale: Vec3Bits,
    pub unk28: u32,
    pub unk2c: u32,
}

#[derive(Clone, Copy, Debug, PartialEq, Eq, Structural)]
pub struct SShadowkeepStaticSpecialMesh {
    pub render_stage: u8,
    pub input_layout_index: u8,
    pub unk2: u16,
    pub lod_category: u8,
    pub unk5: i8,
    pub primitive_type: u8,
    pub unk7: u8,
    pub index_buffer: u32,
    pub vertex0_buffer: u32,
    pub vertex1_buffer: u32,
    pub index_start: u32,
    pub index_count: u32,
    pub technique: u32,
}

#[derive(Debug)]
pub struct SShadowkeepTerrain {
    pub file_size: u64,
    pub unk8: u64,
    pub unk10: Vec4Bits,
    pub unk20: Vec4Bits,
    pub position_offset: Vec4Bits,
    pub mesh_groups: Vec<SShadowkeepTerrainMeshGroup>,
    pub vertex0_buffer: u32,
    pub vertex1_buffer: u32,
    pub index_buffer: u32,
    pub unk_technique1: u32,
    pub unk_technique2: u32,
    pub mesh_parts: Vec<SShadowkeepTerrainMeshPart>,
}

#[derive(Debug)]
pub struct SShadowkeepTerrainMeshGroup {
    pub unk0: Vec4Bits,
    pub unk10: u32,
    pub unk14: u32,
    pub unk18: u32,
    pub unk1c: u32,
    pub texcoord_transform: Vec4Bits,
    pub unk30: [u32; 8],
    pub dyemap: u32,
    pub unk54: [u32; 3],
}

#[derive(Clone, Copy, Debug, PartialEq, Eq, Structural)]
pub struct SShadowkeepTerrainMeshPart {
    pub technique: u32,
    pub index_start: u32,
    pub index_count: u16,
    pub group_index: u8,
    pub detail_level: u8,
}

#[derive(Debug)]
pub struct SShadowkeepDynamicModel {
    pub file_size: u64,
    pub unk8: u64,
    pub meshes: Vec<SShadowkeepDynamicMesh>,
    pub unk20: Vec4Bits,
    pub model_scale: Vec4Bits,
    pub model_offset: Vec4Bits,
    pub texcoord_scale: Vec2Bits,
    pub texcoord_offset: Vec2Bits,
}

/// A mesh of a dynamic model. The parts of stage `s` are those from entry `s`
/// of the ranges up to entry `s + 1`.
#[derive(Debug)]
pub struct SShadowkeepDynamicMesh {
    pub vertex0_buffer: u32,
    pub vertex1_buffer: u32,
    pub buffer2: u32,
    pub buffer3: u32,
    pub index_buffer: u32,
    pub unk14: u32,
    pub parts: Vec<SShadowkeepDynamicMeshPart>,
    pub part_range_per_render_stage: [u16; 24],
    pub input_layout_per_render_stage: [u16; 23],
    pub pad86: [u8; 2],
}

impl SShadowkeepDynamicMesh {
    /// The parts of a stage.
    pub fn range_for_stage(&self, stage: u8) -> (range: Option<Range<usize>>)
        ensures
            match range {
                Some(found) => stage < SHADOWKEEP_RENDER_STAGE_COUNT && found.start
                    == self.part_range_per_render_stage[stage as int] && found.end
                    == self.part_range_per_render_stage[stage + 1],
                None => stage >= SHADOWKEEP_RENDER_STAGE_COUNT,
            },
    {
        let index: usize = stage as usize;
        if index < SHADOWKEEP_RENDER_STAGE_COUNT {
            let start: usize = self.part_range_per_render_stage[index] as usize;
            let end: usize = self.part_range_per_render_stage[index + 1] as usize;
            Some(start..end)
        } else {
            None
        }
    }
}

#[derive(Clone, Copy, Debug, PartialEq, Eq, Structural)]
pub struct SShadowkeepDynamicMeshPart {
    pub technique: u32,
    pub variant_shader_index: u16,
    pub primitive_type: u8,
    pub unk7: u8,
    pub index_start: u32,
    pub index_count: u32,
    pub unk10: u32,
    pub external_identifier: u16,
    pub unk16: u16,
    pub unk18: u8,
    pub unk19: u8,
    pub unk1a: u8,
    pub lod_category: u8,
    pub unk1c: u32,
}

/// The techniques of one material variant: a range of the component's list.
#[derive(Clone, Copy, Debug, PartialEq, Eq, Structural)]
pub struct SShadowkeepDynamicMaterialVariant {
    pub technique_count: u32,
    pub technique_start: u32,
    pub unk8: u32,
}

/// The stages in the order of their numbers.
pub open spec fn numbered_stages() -> Seq<RenderStage> {
    seq![
        RenderStage::GenerateGbuffer,
        RenderStage::Decals,
        RenderStage::InvestmentDecals,
        RenderStage::ShadowGenerate,
        RenderStage::LightingApply,
        RenderStage::LightProbeApply,
        RenderStage::DecalsAdditive,
        RenderStage::Transparents,
        RenderStage::Distortion,
        RenderStage::LightShaftOcclusion,
        RenderStage::SkinPrepass,
        RenderStage::LensFlares,
        RenderStage::DepthPrepass,
        RenderStage::WaterReflection,
        RenderStage::PostprocessTransparentStencil,
        RenderStage::Impulse,
        RenderStage::Reticle,
        RenderStage::WaterRipples,
        RenderStage::MaskSunLight,
        RenderStage::Volumetrics,
        RenderStage::Cubemaps,
        RenderStage::PostprocessScreen,
        RenderStage::WorldForces,
        RenderStage::ComputeSkinning,
    ]
}

/// A stage stands in the order at its number. The packages number all stages but the last, and
/// number them alike.
pub proof fn law_stages_are_numbered_in_order(value: u8)
    ensures
        value < 24 ==> numbered_stages()[value as int].number() == value,
        value < 23 ==> legacy_stage(value) == Some(numbered_stages()[value as int]),
        value >= 23 ==> legacy_stage(value) is None,
{
}

/// The packages store triangles as three and strips as five, and no other topology.
pub proof fn law_primitives_are_stored_by_number(value: u8)
    ensures
        legacy_primitive(3) == Some(PrimitiveType::Triangles),
        legacy_primitive(5) == Some(PrimitiveType::TriangleStrip),
        value != 3 && value != 5 ==> legacy_primitive(value) is None,
        legacy_primitive(value) matches Some(primitive) ==> primitive.stored() == value,
{
}

/// The packages store the levels of detail by number, and know no level for five and six or above
/// ten.
pub proof fn law_details_are_stored_by_number(value: u8)
    ensures
        legacy_lod(0) == Some(LodCategory::Lod_0_0),
        legacy_lod(1) == Some(LodCategory::Lod_0_1),
        legacy_lod(2) == Some(LodCategory::Lod_0_2),
        legacy_lod(3) == Some(LodCategory::Lod_0_3),
        legacy_lod(4) == Some(LodCategory::Lod_1_0),
        legacy_lod(7) == Some(LodCategory::Lod_2_0),
        legacy_lod(8) == Some(LodCategory::Lod_2_1),
        legacy_lod(9) == Some(LodCategory::Lod_3_0),
        legacy_lod(10) == Some(LodCategory::Lod_Detail),
        value == 5 || value == 6 || value > 10 ==> legacy_lod(value) is None,
        legacy_lod(value) matches Some(detail) ==> detail.stored() == value,
{
}

/// The unit matrix has ones on its diagonal and zeros elsewhere.
pub proof fn law_the_unit_has_a_diagonal_of_ones()
    ensures
        Mat4Bits::unit().x_axis == (Vec4Bits { x: 0x3f80_0000, y: 0, z: 0, w: 0 }),
        Mat4Bits::unit().y_axis == (Vec4Bits { x: 0, y: 0x3f80_0000, z: 0, w: 0 }),
        Mat4Bits::unit().z_axis == (Vec4Bits { x: 0, y: 0, z: 0x3f80_0000, w: 0 }),
        Mat4Bits::unit().w_axis == (Vec4Bits { x: 0, y: 0, z: 0, w: 0x3f80_0000 }),
{
}

} // verus!
