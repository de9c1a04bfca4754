//! Techniques, scopes and shader stages as the packages store them.

use crate::channels::Vec4Bits;
use vstd::prelude::*;

verus! {

/// How a technique uses its shaders.
#[derive(Clone, Copy, Debug, PartialEq, Eq, Structural)]
pub enum ShadowkeepTechniqueBindMode {
    VertexPixel,
    VertexOnly,
    VertexGeometryPixel,
    VertexPixelTessellated,
    VertexOnlyTessellated,
    Compute,
}

/// A stored value that no variant stands for.
#[derive(Clone, Copy, Debug, PartialEq, Eq, Structural)]
pub struct VariantOutOfRange {
    pub value: u32,
}

impl ShadowkeepTechniqueBindMode {
    /// The stored value of a mode.
    pub open spec fn stored(self) -> u32 {
        match self {
            ShadowkeepTechniqueBindMode::VertexPixel => 1,
            ShadowkeepTechniqueBindMode::VertexOnly => 2,
            ShadowkeepTechniqueBindMode::VertexGeometryPixel => 3,
            ShadowkeepTechniqueBindMode::VertexPixelTessellated => 4,
            ShadowkeepTechniqueBindMode::VertexOnlyTessellated => 5,
            ShadowkeepTechniqueBindMode::Compute => 6,
        }
    }

    /// The mode with the given stored value.
    pub fn from_stored(value: u32) -> (mode: Result<Self, VariantOutOfRange>)
        ensures
            match mode {
                Ok(found) => found.stored() == value,
                Err(error) => error.value == value && !(1 <= value <= 6),
            },
    {
        match value {
            1 => Ok(ShadowkeepTechniqueBindMode::VertexPixel),
            2 => Ok(ShadowkeepTechniqueBindMode::VertexOnly),
            3 => Ok(ShadowkeepTechniqueBindMode::VertexGeometryPixel),
            4 => Ok(ShadowkeepTechniqueBindMode::VertexPixelTessellated),
            5 => Ok(ShadowkeepTechniqueBindMode::VertexOnlyTessellated),
            6 => Ok(ShadowkeepTechniqueBindMode::Compute),
            _ => Err(VariantOutOfRange { value }),
        }
    }
}

/// The scopes of a technique, one bit each.
#[derive(Clone, Copy, Debug, PartialEq, Eq, Structural)]
pub struct ShadowkeepScopeBits(pub u32);

/// Four packed fixed-function state selections.
#[derive(Clone, Copy, Debug, PartialEq, Eq, Structural)]
pub struct ShadowkeepPipelineState(pub u32);

/// The state that one packed byte selects: none below 0x80.
pub open spec fn selected_state(byte: int) -> Option<usize> {
    if byte >= 0x80 {
        Some((byte - 0x80) as usize)
    } else {
        None
    }
}

fn select_state(byte: u32) -> (state: Option<usize>)
    requires
        byte < 0x100,
    ensures
        state == selected_state(byte as int),
{
    if byte >= 0x80 {
        Some((byte - 0x80) as usize)
    } else {
        None
    }
}

impl ShadowkeepPipelineState {
    /// The selected blend, depth-stencil, rasterizer and depth-bias states, from
    /// the lowest byte up.
    pub fn state_indices(self) -> (states: [Option<usize>; 4])
        ensures
            states[0] == selected_state(self.0 as int % 0x100),
            states[1] == selected_state(self.0 as int / 0x100 % 0x100),
            states[2] == selected_state(self.0 as int / 0x1_0000 % 0x100),
            states[3] == selected_state(self.0 as int / 0x100_0000),
    {
        let raw: u32 = self.0;
        [
            select_state(raw % 0x100),
            select_state(raw / 0x100 % 0x100),
            select_state(raw / 0x1_0000 % 0x100),
            select_state(raw / 0x100_0000),
        ]
    }
}

/// The programmable stages.
#[derive(Clone, Copy, Debug, PartialEq, Eq, Structural)]
pub enum ShadowkeepShaderStage {
    Pixel,
    Vertex,
    Geometry,
    Hull,
    Compute,
    Domain,
}

/// A sampler that a stage binds.
#[derive(Clone, Copy, Debug, PartialEq, Eq, Structural)]
pub struct SShadowkeepSamplerReference {
    pub sampler: u32,
    pub unk4: u32,
    pub unk8: u32,
    pub unkc: u32,
}

/// A texture that a material binds.
#[derive(Clone, Copy, Debug, PartialEq, Eq, Structural)]
pub struct SShadowkeepMaterialTextureAssignment {
    pub slot: u32,
    pub texture: u32,
}

/// The expression program and the constants of one stage.
#[derive(Debug)]
pub struct SShadowkeepDynamicConstants {
    pub bytecode: Vec<u8>,
    pub bytecode_constants: Vec<Vec4Bits>,
    pub samplers: Vec<SShadowkeepSamplerReference>,
    pub inline_constants: Vec<Vec4Bits>,
    pub unk40: [u32; 8],
    pub constant_buffer_slot: i32,
    pub constant_buffer: u32,
}

/// One stage of a scope.
#[derive(Debug)]
pub struct SShadowkeepScopeStage {
    pub unk0: [u32; 4],
    pub unk10: u64,
    pub constants: SShadowkeepDynamicConstants,
    pub unk80: [u32; 6],
}

/// A scope: constants shared by the techniques that use it.
#[derive(Debug)]
pub struct SShadowkeepScope {
    pub file_size: u64,
    pub name: String,
    pub stage_pixel: SShadowkeepScopeStage,
    pub stage_vertex: SShadowkeepScopeStage,
    pub stage_geometry: SShadowkeepScopeStage,
    pub stage_hull: SShadowkeepScopeStage,
    pub stage_compute: SShadowkeepScopeStage,
    pub stage_domain: SShadowkeepScopeStage,
}

impl SShadowkeepScope {
    /// The stages in stored order.
    pub fn stages(&self) -> (stages: [(&SShadowkeepScopeStage, ShadowkeepShaderStage); 6])
        ensures
            stages[0] == (&self.stage_pixel, ShadowkeepShaderStage::Pixel),
            stages[1] == (&self.stage_vertex, ShadowkeepShaderStage::Vertex),
            stages[2] == (&self.stage_geometry, ShadowkeepShaderStage::Geometry),
            stages[3] == (&self.stage_hull, ShadowkeepShaderStage::Hull),
            stages[4] == (&self.stage_compute, ShadowkeepShaderStage::Compute),
            stages[5] == (&self.stage_domain, ShadowkeepShaderStage::Domain),
    {
        [
            (&self.stage_pixel, ShadowkeepShaderStage::Pixel),
            (&self.stage_vertex, ShadowkeepShaderStage::Vertex),
            (&self.stage_geometry, ShadowkeepShaderStage::Geometry),
            (&self.stage_hull, ShadowkeepShaderStage::Hull),
            (&self.stage_compute, ShadowkeepShaderStage::Compute),
            (&self.stage_domain, ShadowkeepShaderStage::Domain),
        ]
    }
}

/// One shader of a technique.
#[derive(Debug)]
pub struct SShadowkeepTechniqueShader {
    pub shader: u32,
    pub unk4: u32,
    pub textures: Vec<SShadowkeepMaterialTextureAssignment>,
    pub unk18: u64,
    pub constants: SShadowkeepDynamicConstants,
    pub unk78: [u32; 6],
}

/// A technique: the shaders and states of a material.
#[derive(Debug)]
pub struct SShadowkeepTechnique {
    pub file_size: u64,
    pub bind_mode: ShadowkeepTechniqueBindMode,
    pub unkc: u32,
    pub unk10: u32,
    pub unk14: u32,
    pub used_scopes: ShadowkeepScopeBits,
    pub compatible_scopes: ShadowkeepScopeBits,
    pub states: ShadowkeepPipelineState,
    pub unk24: u32,
    pub unk28: [u32; 8],
    pub shader_vertex: SShadowkeepTechniqueShader,
    pub shader_unk1: SShadowkeepTechniqueShader,
    pub shader_unk2: SShadowkeepTechniqueShader,
    pub shader_geometry: SShadowkeepTechniqueShader,
    pub shader_pixel: SShadowkeepTechniqueShader,
    pub shader_compute: SShadowkeepTechniqueShader,
}

impl SShadowkeepTechnique {
    /// The shaders that the renderer binds, in binding order.
    pub fn shaders(&self) -> (shaders: [(&SShadowkeepTechniqueShader, ShadowkeepShaderStage); 4])
        ensures
            shaders[0] == (&self.shader_vertex, ShadowkeepShaderStage::Vertex),
            shaders[1] == (&self.shader_geometry, ShadowkeepShaderStage::Geometry),
            shaders[2] == (&self.shader_pixel, ShadowkeepShaderStage::Pixel),
            shaders[3] == (&self.shader_compute, ShadowkeepShaderStage::Compute),
    {
        [
            (&self.shader_vertex, ShadowkeepShaderStage::Vertex),
            (&self.shader_geometry, ShadowkeepShaderStage::Geometry),
            (&self.shader_pixel, ShadowkeepShaderStage::Pixel),
            (&self.shader_compute, ShadowkeepShaderStage::Compute),
        ]
    }
}

/// The ways to bind a technique are stored by these numbers.
pub proof fn law_bind_modes_are_stored_by_number()
    ensures
        ShadowkeepTechniqueBindMode::VertexPixel.stored() == 1,
        ShadowkeepTechniqueBindMode::VertexOnly.stored() == 2,
        ShadowkeepTechniqueBindMode::VertexGeometryPixel.stored() == 3,
        ShadowkeepTechniqueBindMode::VertexPixelTessellated.stored() == 4,
        ShadowkeepTechniqueBindMode::VertexOnlyTessellated.stored() == 5,
        ShadowkeepTechniqueBindMode::Compute.stored() == 6,
{
}

/// A byte selects a state where its highest bit is set, by its other bits.
pub proof fn law_states_are_selected_by_the_low_bits(byte: int)
    requires
        0 <= byte < 0x100,
    ensures
        byte < 0x80 ==> selected_state(byte) is None,
        byte >= 0x80 ==> selected_state(byte) is Some && selected_state(byte)->Some_0 + 0x80
            == byte,
{
}

} // verus!
