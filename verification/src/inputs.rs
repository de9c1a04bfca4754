//! What the shader inputs of a frame are filled with: textures, constants and channels.

use vstd::prelude::*;

use crate::channels::Vec4Bits;
use crate::externs::ExternIndex;
use crate::records::{atmosphere_channel_list, AtmosphereChannel};
use crate::steps::{RendererEra, Surface};
use crate::submit::Renderer;

verus! {

/// Where a texture input comes from.
#[derive(Clone, Copy, Debug, PartialEq, Eq, Structural)]
pub enum InputSource {
    Surface { surface: Surface },
    White,
    Grey,
    LightGrey,
    Black,
    Absent,
    SpecularTintLookup,
    SpecularLobeLookup,
    SpecularLobe3dLookup,
    IridescenceLookup,
    WaterDisplacement00,
    WaterDisplacement08,
    SkyHemisphere,
    AtmosphereLookupVertical,
    DefaultLut,
    TemporaryBloom,
    TemporaryVignette,
    DepthAngleLookup,
}

/// A texture for a field of an input block.
#[derive(Clone, Copy, Debug)]
pub struct TextureInput {
    pub block: ExternIndex,
    pub field: &'static str,
    pub source: InputSource,
}

/// Single-precision patterns for a field of an input block; a scalar stands in the first lane.
#[derive(Clone, Copy, Debug)]
pub struct ConstantInput {
    pub block: ExternIndex,
    pub field: &'static str,
    pub value: Vec4Bits,
}

/// A named channel for a field of an input block: the whole vector or its first lane, scaled by
/// the first lane of another channel where one is named.
#[derive(Clone, Copy, Debug)]
pub struct ChannelInput {
    pub block: ExternIndex,
    pub field: &'static str,
    pub channel: &'static str,
    pub scale: Option<&'static str>,
    pub whole: bool,
}

pub open spec fn texture(
    block: ExternIndex,
    field: &'static str,
    source: InputSource,
) -> TextureInput {
    TextureInput { block, field, source }
}

fn texture_input(block: ExternIndex, field: &'static str, source: InputSource) -> (input:
    TextureInput)
    ensures
        input == texture(block, field, source),
{
    TextureInput { block, field, source }
}

pub open spec fn constant(
    block: ExternIndex,
    field: &'static str,
    x: u32,
    y: u32,
    z: u32,
    w: u32,
) -> ConstantInput {
    ConstantInput { block, field, value: Vec4Bits { x, y, z, w } }
}

fn constant_input(
    block: ExternIndex,
    field: &'static str,
    x: u32,
    y: u32,
    z: u32,
    w: u32,
) -> (input: ConstantInput)
    ensures
        input == constant(block, field, x, y, z, w),
{
    ConstantInput { block, field, value: Vec4Bits { x, y, z, w } }
}

pub open spec fn channel(
    block: ExternIndex,
    field: &'static str,
    name: &'static str,
    scale: Option<&'static str>,
    whole: bool,
) -> ChannelInput {
    ChannelInput { block, field, channel: name, scale, whole }
}

fn channel_input(
    block: ExternIndex,
    field: &'static str,
    name: &'static str,
    scale: Option<&'static str>,
    whole: bool,
) -> (input: ChannelInput)
    ensures
        input == channel(block, field, name, scale, whole),
{
    ChannelInput { block, field, channel: name, scale, whole }
}

/// The textures of every view.
pub open spec fn shared_textures_table() -> Seq<TextureInput> {
    seq![
        texture(ExternIndex::Frame, "specular_tint_lookup", InputSource::SpecularTintLookup),
        texture(ExternIndex::Frame, "specular_lobe_lookup", InputSource::SpecularLobeLookup),
        texture(ExternIndex::Frame, "specular_lobe_3d_lookup", InputSource::SpecularLobe3dLookup),
        texture(ExternIndex::Frame, "iridescence_lookup", InputSource::IridescenceLookup),
        texture(ExternIndex::WaterDisplacement, "unk00", InputSource::WaterDisplacement00),
        texture(ExternIndex::WaterDisplacement, "unk08", InputSource::WaterDisplacement08),
        texture(ExternIndex::GlobalLighting, "unk08", InputSource::White),
    ]
}

fn shared_textures() -> (inputs: Vec<TextureInput>)
    ensures
        inputs@ == shared_textures_table(),
{
    let inputs: Vec<TextureInput> = vec![
        texture_input(ExternIndex::Frame, "specular_tint_lookup", InputSource::SpecularTintLookup),
        texture_input(ExternIndex::Frame, "specular_lobe_lookup", InputSource::SpecularLobeLookup),
        texture_input(
            ExternIndex::Frame,
            "specular_lobe_3d_lookup",
            InputSource::SpecularLobe3dLookup,
        ),
        texture_input(ExternIndex::Frame, "iridescence_lookup", InputSource::IridescenceLookup),
        texture_input(ExternIndex::WaterDisplacement, "unk00", InputSource::WaterDisplacement00),
        texture_input(ExternIndex::WaterDisplacement, "unk08", InputSource::WaterDisplacement08),
        texture_input(ExternIndex::GlobalLighting, "unk08", InputSource::White),
    ];
    assert(inputs@ =~= shared_textures_table());
    inputs
}

/// The constants of every view.
pub open spec fn shared_constants_table() -> Seq<ConstantInput> {
    seq![
        constant(ExternIndex::Frame, "exposure_time", 0x3c88_8889, 0, 0, 0),
        constant(ExternIndex::WaterDisplacement, "unk10", 0x3d38_51ec, 0, 0, 0),
        constant(ExternIndex::WaterDisplacement, "unk14", 0x3f80_0000, 0, 0, 0),
        constant(ExternIndex::WaterDisplacement, "unk18", 0, 0, 0, 0),
        constant(ExternIndex::WaterDisplacement, "unk1c", 0x41a0_0000, 0, 0, 0),
        constant(ExternIndex::WaterDisplacement, "unk20", 0x4416_0000, 0, 0, 0),
        constant(ExternIndex::WaterDisplacement, "unk24", 0x3f00_0000, 0, 0, 0),
        constant(ExternIndex::WaterDisplacement, "unk28", 0x4000_0000, 0, 0, 0),
        constant(ExternIndex::WaterDisplacement, "unk2c", 0, 0, 0, 0),
        constant(ExternIndex::WaterDisplacement, "unk30", 0x40f6_6666, 0, 0, 0),
    ]
}

fn shared_constants() -> (inputs: Vec<ConstantInput>)
    ensures
        inputs@ == shared_constants_table(),
{
    let inputs: Vec<ConstantInput> = vec![
        constant_input(ExternIndex::Frame, "exposure_time", 0x3c88_8889, 0, 0, 0),
        constant_input(ExternIndex::WaterDisplacement, "unk10", 0x3d38_51ec, 0, 0, 0),
        constant_input(ExternIndex::WaterDisplacement, "unk14", 0x3f80_0000, 0, 0, 0),
        constant_input(ExternIndex::WaterDisplacement, "unk18", 0, 0, 0, 0),
        constant_input(ExternIndex::WaterDisplacement, "unk1c", 0x41a0_0000, 0, 0, 0),
        constant_input(ExternIndex::WaterDisplacement, "unk20", 0x4416_0000, 0, 0, 0),
        constant_input(ExternIndex::WaterDisplacement, "unk24", 0x3f00_0000, 0, 0, 0),
        constant_input(ExternIndex::WaterDisplacement, "unk28", 0x4000_0000, 0, 0, 0),
        constant_input(ExternIndex::WaterDisplacement, "unk2c", 0, 0, 0, 0),
        constant_input(ExternIndex::WaterDisplacement, "unk30", 0x40f6_6666, 0, 0, 0),
    ];
    assert(inputs@ =~= shared_constants_table());
    inputs
}

/// The shadow inputs of the preserved renderer: white until something casts shadows.
pub open spec fn preserved_textures_table() -> Seq<TextureInput> {
    seq![
        texture(ExternIndex::ShadowMask, "unk00", InputSource::White),
        texture(ExternIndex::ShadowMask, "unk08", InputSource::White),
        texture(ExternIndex::ShadowMask, "unk10", InputSource::White),
    ]
}

fn preserved_textures() -> (inputs: Vec<TextureInput>)
    ensures
        inputs@ == preserved_textures_table(),
{
    let inputs: Vec<TextureInput> = vec![
        texture_input(ExternIndex::ShadowMask, "unk00", InputSource::White),
        texture_input(ExternIndex::ShadowMask, "unk08", InputSource::White),
        texture_input(ExternIndex::ShadowMask, "unk10", InputSource::White),
    ];
    assert(inputs@ =~= preserved_textures_table());
    inputs
}

/// The neutral lighting of the preserved renderer.
pub open spec fn preserved_constants_table() -> Seq<ConstantInput> {
    seq![
        constant(
            ExternIndex::GlobalLighting,
            "unk10",
            0x3f80_0000,
            0x3f80_0000,
            0x3f80_0000,
            0x3f80_0000,
        ),
        constant(ExternIndex::GlobalLighting, "unk30", 0, 0, 0xbf80_0000, 0),
        constant(ExternIndex::GlobalLighting, "unk50", 0, 0, 0, 0),
        constant(
            ExternIndex::GlobalLighting,
            "unk70",
            0x3f80_0000,
            0x3f80_0000,
            0x3f80_0000,
            0x3f80_0000,
        ),
        constant(
            ExternIndex::GlobalLighting,
            "unk80",
            0x3f80_0000,
            0x3f80_0000,
            0x3f80_0000,
            0x3f80_0000,
        ),
        constant(ExternIndex::GlobalLighting, "unk94", 0xbf00_0000, 0, 0, 0),
        constant(ExternIndex::Atmosphere, "unk110", 0, 0, 0xbf80_0000, 0),
    ]
}

fn preserved_constants() -> (inputs: Vec<ConstantInput>)
    ensures
        inputs@ == preserved_constants_table(),
{
    let inputs: Vec<ConstantInput> = vec![
        constant_input(
            ExternIndex::GlobalLighting,
            "unk10",
            0x3f80_0000,
            0x3f80_0000,
            0x3f80_0000,
            0x3f80_0000,
        ),
        constant_input(ExternIndex::GlobalLighting, "unk30", 0, 0, 0xbf80_0000, 0),
        constant_input(ExternIndex::GlobalLighting, "unk50", 0, 0, 0, 0),
        constant_input(
            ExternIndex::GlobalLighting,
            "unk70",
            0x3f80_0000,
            0x3f80_0000,
            0x3f80_0000,
            0x3f80_0000,
        ),
        constant_input(
            ExternIndex::GlobalLighting,
            "unk80",
            0x3f80_0000,
            0x3f80_0000,
            0x3f80_0000,
            0x3f80_0000,
        ),
        constant_input(ExternIndex::GlobalLighting, "unk94", 0xbf00_0000, 0, 0, 0),
        constant_input(ExternIndex::Atmosphere, "unk110", 0, 0, 0xbf80_0000, 0),
    ];
    assert(inputs@ =~= preserved_constants_table());
    inputs
}

/// The lighting constants of the current era.
pub open spec fn current_constants_table() -> Seq<ConstantInput> {
    seq![
        constant(ExternIndex::GlobalLighting, "unka0", 0x3e4c_cccd, 0, 0, 0),
        constant(
            ExternIndex::GlobalLighting,
            "unkb0",
            0x3c23_d70a,
            0x3c23_d70a,
            0xbf00_0000,
            0xbf00_0000,
        ),
        constant(ExternIndex::GlobalLighting, "unkc0", 0x3ca3_d70a, 0xc000_0000, 0, 0),
        constant(ExternIndex::GlobalLighting, "unkd0", 0x3b5a_3c21, 0xc015_5547, 0, 0),
    ]
}

fn current_constants() -> (inputs: Vec<ConstantInput>)
    ensures
        inputs@ == current_constants_table(),
{
    let inputs: Vec<ConstantInput> = vec![
        constant_input(ExternIndex::GlobalLighting, "unka0", 0x3e4c_cccd, 0, 0, 0),
        constant_input(
            ExternIndex::GlobalLighting,
            "unkb0",
            0x3c23_d70a,
            0x3c23_d70a,
            0xbf00_0000,
            0xbf00_0000,
        ),
        constant_input(ExternIndex::GlobalLighting, "unkc0", 0x3ca3_d70a, 0xc000_0000, 0, 0),
        constant_input(ExternIndex::GlobalLighting, "unkd0", 0x3b5a_3c21, 0xc015_5547, 0, 0),
    ];
    assert(inputs@ =~= current_constants_table());
    inputs
}

/// The lighting channels of the current era.
pub open spec fn current_channels_table() -> Seq<ChannelInput> {
    seq![
        channel(ExternIndex::GlobalLighting, "unk10", "sun_color", Some("sun_intensity"), true),
        channel(ExternIndex::GlobalLighting, "unk30", "sun_light_direction", None, true),
        channel(ExternIndex::GlobalLighting, "unk50", "sun_ambient_direction", None, true),
        channel(
            ExternIndex::GlobalLighting,
            "unk70",
            "up_ambient_color",
            Some("up_ambient_intensity"),
            true,
        ),
        channel(
            ExternIndex::GlobalLighting,
            "unk80",
            "down_ambient_color",
            Some("down_ambient_intensity"),
            true,
        ),
        channel(ExternIndex::GlobalLighting, "unk90", "up_ambient_sharpness", None, false),
        channel(ExternIndex::GlobalLighting, "unk94", "down_ambient_sharpness", None, false),
        channel(ExternIndex::Atmosphere, "unk110", "sun_light_direction", None, true),
    ]
}

fn current_channels() -> (inputs: Vec<ChannelInput>)
    ensures
        inputs@ == current_channels_table(),
{
    let inputs: Vec<ChannelInput> = vec![
        channel_input(
            ExternIndex::GlobalLighting,
            "unk10",
            "sun_color",
            Some("sun_intensity"),
            true,
        ),
        channel_input(ExternIndex::GlobalLighting, "unk30", "sun_light_direction", None, true),
        channel_input(ExternIndex::GlobalLighting, "unk50", "sun_ambient_direction", None, true),
        channel_input(
            ExternIndex::GlobalLighting,
            "unk70",
            "up_ambient_color",
            Some("up_ambient_intensity"),
            true,
        ),
        channel_input(
            ExternIndex::GlobalLighting,
            "unk80",
            "down_ambient_color",
            Some("down_ambient_intensity"),
            true,
        ),
        channel_input(ExternIndex::GlobalLighting, "unk90", "up_ambient_sharpness", None, false),
        channel_input(ExternIndex::GlobalLighting, "unk94", "down_ambient_sharpness", None, false),
        channel_input(ExternIndex::Atmosphere, "unk110", "sun_light_direction", None, true),
    ];
    assert(inputs@ =~= current_channels_table());
    inputs
}

/// The geometry and light buffers of a main view.
pub open spec fn geometry_textures_table() -> Seq<TextureInput> {
    seq![
        texture(
            ExternIndex::Deferred,
            "deferred_depth",
            InputSource::Surface { surface: Surface::DepthProxy },
        ),
        texture(
            ExternIndex::Deferred,
            "deferred_rt0",
            InputSource::Surface { surface: Surface::Albedo },
        ),
        texture(
            ExternIndex::Deferred,
            "deferred_rt1",
            InputSource::Surface { surface: Surface::Normal },
        ),
        texture(
            ExternIndex::Deferred,
            "deferred_rt2",
            InputSource::Surface { surface: Surface::Third },
        ),
        texture(
            ExternIndex::Deferred,
            "light_diffuse",
            InputSource::Surface { surface: Surface::LightDiffuse },
        ),
        texture(
            ExternIndex::Deferred,
            "light_specular",
            InputSource::Surface { surface: Surface::LightSpecular },
        ),
        texture(
            ExternIndex::Deferred,
            "light_specular_ibl",
            InputSource::Surface { surface: Surface::LightSpecularIbl },
        ),
        texture(ExternIndex::Deferred, "sky_hemisphere_mips", InputSource::SkyHemisphere),
        texture(
            ExternIndex::Decal,
            "depth_read",
            InputSource::Surface { surface: Surface::DepthProxy },
        ),
        texture(
            ExternIndex::Decal,
            "normals_read",
            InputSource::Surface { surface: Surface::NormalRead },
        ),
    ]
}

fn geometry_textures() -> (inputs: Vec<TextureInput>)
    ensures
        inputs@ == geometry_textures_table(),
{
    let inputs: Vec<TextureInput> = vec![
        texture_input(
            ExternIndex::Deferred,
            "deferred_depth",
            InputSource::Surface { surface: Surface::DepthProxy },
        ),
        texture_input(
            ExternIndex::Deferred,
            "deferred_rt0",
            InputSource::Surface { surface: Surface::Albedo },
        ),
        texture_input(
            ExternIndex::Deferred,
            "deferred_rt1",
            InputSource::Surface { surface: Surface::Normal },
        ),
        texture_input(
            ExternIndex::Deferred,
            "deferred_rt2",
            InputSource::Surface { surface: Surface::Third },
        ),
        texture_input(
            ExternIndex::Deferred,
            "light_diffuse",
            InputSource::Surface { surface: Surface::LightDiffuse },
        ),
        texture_input(
            ExternIndex::Deferred,
            "light_specular",
            InputSource::Surface { surface: Surface::LightSpecular },
        ),
        texture_input(
            ExternIndex::Deferred,
            "light_specular_ibl",
            InputSource::Surface { surface: Surface::LightSpecularIbl },
        ),
        texture_input(ExternIndex::Deferred, "sky_hemisphere_mips", InputSource::SkyHemisphere),
        texture_input(
            ExternIndex::Decal,
            "depth_read",
            InputSource::Surface { surface: Surface::DepthProxy },
        ),
        texture_input(
            ExternIndex::Decal,
            "normals_read",
            InputSource::Surface { surface: Surface::NormalRead },
        ),
    ];
    assert(inputs@ =~= geometry_textures_table());
    inputs
}

/// The shadow inputs of the current era.
pub open spec fn current_shadow_textures_table() -> Seq<TextureInput> {
    seq![
        texture(
            ExternIndex::ShadowMask,
            "unk00",
            InputSource::Surface { surface: Surface::ShadowMask },
        ),
        texture(
            ExternIndex::ShadowMask,
            "unk10",
            InputSource::Surface { surface: Surface::UberDepthHalf },
        ),
    ]
}

fn current_shadow_textures() -> (inputs: Vec<TextureInput>)
    ensures
        inputs@ == current_shadow_textures_table(),
{
    let inputs: Vec<TextureInput> = vec![
        texture_input(
            ExternIndex::ShadowMask,
            "unk00",
            InputSource::Surface { surface: Surface::ShadowMask },
        ),
        texture_input(
            ExternIndex::ShadowMask,
            "unk10",
            InputSource::Surface { surface: Surface::UberDepthHalf },
        ),
    ];
    assert(inputs@ =~= current_shadow_textures_table());
    inputs
}

/// The sky, picture and depth textures of a main view.
pub open spec fn screen_textures_table(bloom: InputSource) -> Seq<TextureInput> {
    seq![
        texture(ExternIndex::Atmosphere, "unk80", InputSource::AtmosphereLookupVertical),
        texture(
            ExternIndex::Atmosphere,
            "unke0",
            InputSource::Surface { surface: Surface::SkyLookupNear },
        ),
        texture(
            ExternIndex::Atmosphere,
            "unkf0",
            InputSource::Surface { surface: Surface::SkyLookupFar },
        ),
        texture(
            ExternIndex::ScreenArea,
            "unk00",
            InputSource::Surface { surface: Surface::ShadingResultRead },
        ),
        texture(ExternIndex::ScreenArea, "unk30", InputSource::Absent),
        texture(ExternIndex::ScreenArea, "unk38", InputSource::DefaultLut),
        texture(ExternIndex::ScreenArea, "unk40", bloom),
        texture(
            ExternIndex::ScreenArea,
            "unk48",
            InputSource::Surface { surface: Surface::Distortion },
        ),
        texture(ExternIndex::ScreenArea, "unk58", InputSource::TemporaryVignette),
        texture(
            ExternIndex::UberDepth,
            "original_depth",
            InputSource::Surface { surface: Surface::DepthProxy },
        ),
        texture(
            ExternIndex::UberDepth,
            "unk30",
            InputSource::Surface { surface: Surface::UberDepthHalf },
        ),
        texture(
            ExternIndex::UberDepth,
            "unk40",
            InputSource::Surface { surface: Surface::UberDepthQuarter },
        ),
        texture(
            ExternIndex::Cubemaps,
            "unk00",
            InputSource::Surface { surface: Surface::VertexAo },
        ),
        texture(
            ExternIndex::Transparent,
            "unk00",
            InputSource::Surface { surface: Surface::SkyLookupNear },
        ),
        texture(
            ExternIndex::Transparent,
            "unk10",
            InputSource::Surface { surface: Surface::SkyLookupFar },
        ),
        texture(ExternIndex::Transparent, "unk20", InputSource::DepthAngleLookup),
    ]
}

fn screen_textures(bloom: InputSource) -> (inputs: Vec<TextureInput>)
    ensures
        inputs@ == screen_textures_table(bloom),
{
    let inputs: Vec<TextureInput> = vec![
        texture_input(ExternIndex::Atmosphere, "unk80", InputSource::AtmosphereLookupVertical),
        texture_input(
            ExternIndex::Atmosphere,
            "unke0",
            InputSource::Surface { surface: Surface::SkyLookupNear },
        ),
        texture_input(
            ExternIndex::Atmosphere,
            "unkf0",
            InputSource::Surface { surface: Surface::SkyLookupFar },
        ),
        texture_input(
            ExternIndex::ScreenArea,
            "unk00",
            InputSource::Surface { surface: Surface::ShadingResultRead },
        ),
        texture_input(ExternIndex::ScreenArea, "unk30", InputSource::Absent),
        texture_input(ExternIndex::ScreenArea, "unk38", InputSource::DefaultLut),
        texture_input(ExternIndex::ScreenArea, "unk40", bloom),
        texture_input(
            ExternIndex::ScreenArea,
            "unk48",
            InputSource::Surface { surface: Surface::Distortion },
        ),
        texture_input(ExternIndex::ScreenArea, "unk58", InputSource::TemporaryVignette),
        texture_input(
            ExternIndex::UberDepth,
            "original_depth",
            InputSource::Surface { surface: Surface::DepthProxy },
        ),
        texture_input(
            ExternIndex::UberDepth,
            "unk30",
            InputSource::Surface { surface: Surface::UberDepthHalf },
        ),
        texture_input(
            ExternIndex::UberDepth,
            "unk40",
            InputSource::Surface { surface: Surface::UberDepthQuarter },
        ),
        texture_input(
            ExternIndex::Cubemaps,
            "unk00",
            InputSource::Surface { surface: Surface::VertexAo },
        ),
        texture_input(
            ExternIndex::Transparent,
            "unk00",
            InputSource::Surface { surface: Surface::SkyLookupNear },
        ),
        texture_input(
            ExternIndex::Transparent,
            "unk10",
            InputSource::Surface { surface: Surface::SkyLookupFar },
        ),
        texture_input(ExternIndex::Transparent, "unk20", InputSource::DepthAngleLookup),
    ];
    assert(inputs@ =~= screen_textures_table(bloom));
    inputs
}

/// The atmosphere constants of a main view.
pub open spec fn atmosphere_constants_table() -> Seq<ConstantInput> {
    seq![
        constant(ExternIndex::Atmosphere, "unk1ec", 0x4316_0000, 0, 0, 0),
        constant(ExternIndex::Atmosphere, "unk1c4", 0x4416_0000, 0, 0, 0),
        constant(ExternIndex::Atmosphere, "unk150", 0xbf79_c2e3, 0, 0, 0),
        constant(ExternIndex::Atmosphere, "unk154", 0x3b7c_f80e, 0, 0, 0),
        constant(ExternIndex::Atmosphere, "unk1b4", 0x3f71_c6d2, 0, 0, 0),
        constant(ExternIndex::Atmosphere, "unk1b8", 0x3f80_0000, 0, 0, 0),
        constant(ExternIndex::Atmosphere, "unk1bc", 0x3b8b_eb5b, 0, 0, 0),
        constant(ExternIndex::Atmosphere, "unk110", 0x3f7e_fd22, 0x3cfd_debe, 0xbdaa_64c3, 0),
        constant(ExternIndex::Atmosphere, "unk1d0", 0, 0, 0, 0),
        constant(ExternIndex::Atmosphere, "unk1e0", 0, 0, 0, 0),
        constant(ExternIndex::Atmosphere, "unk1e4", 0x3b7c_f80e, 0, 0, 0),
        constant(ExternIndex::Atmosphere, "unk1e8", 0x3b8b_eb5b, 0, 0, 0),
    ]
}

fn atmosphere_constants() -> (inputs: Vec<ConstantInput>)
    ensures
        inputs@ == atmosphere_constants_table(),
{
    let inputs: Vec<ConstantInput> = vec![
        constant_input(ExternIndex::Atmosphere, "unk1ec", 0x4316_0000, 0, 0, 0),
        constant_input(ExternIndex::Atmosphere, "unk1c4", 0x4416_0000, 0, 0, 0),
        constant_input(ExternIndex::Atmosphere, "unk150", 0xbf79_c2e3, 0, 0, 0),
        constant_input(ExternIndex::Atmosphere, "unk154", 0x3b7c_f80e, 0, 0, 0),
        constant_input(ExternIndex::Atmosphere, "unk1b4", 0x3f71_c6d2, 0, 0, 0),
        constant_input(ExternIndex::Atmosphere, "unk1b8", 0x3f80_0000, 0, 0, 0),
        constant_input(ExternIndex::Atmosphere, "unk1bc", 0x3b8b_eb5b, 0, 0, 0),
        constant_input(ExternIndex::Atmosphere, "unk110", 0x3f7e_fd22, 0x3cfd_debe, 0xbdaa_64c3, 0),
        constant_input(ExternIndex::Atmosphere, "unk1d0", 0, 0, 0, 0),
        constant_input(ExternIndex::Atmosphere, "unk1e0", 0, 0, 0, 0),
        constant_input(ExternIndex::Atmosphere, "unk1e4", 0x3b7c_f80e, 0, 0, 0),
        constant_input(ExternIndex::Atmosphere, "unk1e8", 0x3b8b_eb5b, 0, 0, 0),
    ];
    assert(inputs@ =~= atmosphere_constants_table());
    inputs
}

/// The picture constants of a main view.
pub open spec fn screen_constants_table() -> Seq<ConstantInput> {
    seq![
        constant(ExternIndex::ScreenArea, "unk7c", 0x3f7f_2e49, 0, 0, 0),
        constant(ExternIndex::ScreenArea, "unk80", 0x3dcc_cccd, 0, 0, 0),
        constant(ExternIndex::ScreenArea, "unk90", 0x4200_0000, 0x4480_0000, 0, 0),
        constant(
            ExternIndex::ScreenArea,
            "unka0",
            0x3d00_0000,
            0xc0a0_0000,
            0x4160_0000,
            0x4020_0000,
        ),
        constant(ExternIndex::ScreenArea, "unkb0", 0x3f00_0000, 0, 0, 0),
        constant(ExternIndex::ScreenArea, "unkb4", 0x4000_0000, 0, 0, 0),
        constant(
            ExternIndex::ScreenArea,
            "unke0",
            0x3e80_0000,
            0xbe66_6666,
            0x3ecc_cccd,
            0x3f75_c28f,
        ),
        constant(ExternIndex::ScreenArea, "unkf0", 0x3e07_ff58, 0x3e71_c6d2, 0, 0),
        constant(ExternIndex::ScreenArea, "unk140", 0x3d4c_cccd, 0, 0, 0),
        constant(ExternIndex::ScreenArea, "unk150", 0x3e99_999a, 0x3f00_0000, 0, 0x3ca3_d70a),
        constant(ExternIndex::ScreenArea, "unk160", 0x3e99_999a, 0x3f00_0000, 0, 0x3f00_0000),
    ]
}

fn screen_constants() -> (inputs: Vec<ConstantInput>)
    ensures
        inputs@ == screen_constants_table(),
{
    let inputs: Vec<ConstantInput> = vec![
        constant_input(ExternIndex::ScreenArea, "unk7c", 0x3f7f_2e49, 0, 0, 0),
        constant_input(ExternIndex::ScreenArea, "unk80", 0x3dcc_cccd, 0, 0, 0),
        constant_input(ExternIndex::ScreenArea, "unk90", 0x4200_0000, 0x4480_0000, 0, 0),
        constant_input(
            ExternIndex::ScreenArea,
            "unka0",
            0x3d00_0000,
            0xc0a0_0000,
            0x4160_0000,
            0x4020_0000,
        ),
        constant_input(ExternIndex::ScreenArea, "unkb0", 0x3f00_0000, 0, 0, 0),
        constant_input(ExternIndex::ScreenArea, "unkb4", 0x4000_0000, 0, 0, 0),
        constant_input(
            ExternIndex::ScreenArea,
            "unke0",
            0x3e80_0000,
            0xbe66_6666,
            0x3ecc_cccd,
            0x3f75_c28f,
        ),
        constant_input(ExternIndex::ScreenArea, "unkf0", 0x3e07_ff58, 0x3e71_c6d2, 0, 0),
        constant_input(ExternIndex::ScreenArea, "unk140", 0x3d4c_cccd, 0, 0, 0),
        constant_input(ExternIndex::ScreenArea, "unk150", 0x3e99_999a, 0x3f00_0000, 0, 0x3ca3_d70a),
        constant_input(ExternIndex::ScreenArea, "unk160", 0x3e99_999a, 0x3f00_0000, 0, 0x3f00_0000),
    ];
    assert(inputs@ =~= screen_constants_table());
    inputs
}

/// The transparent constants of a main view.
pub open spec fn transparent_defaults_table() -> Seq<ConstantInput> {
    seq![
        constant(ExternIndex::Transparent, "unk70", 0x3e6a_4fca, 0, 0x3f80_0000, 0x4234_0000),
        constant(ExternIndex::Transparent, "unk80", 0, 0, 0x3f96_617c, 0x4037_63b2),
        constant(ExternIndex::Transparent, "unk90", 0, 0, 0x4006_fbfc, 0x40a4_7e7c),
        constant(ExternIndex::Transparent, "unka0", 0, 0, 0x405d_ed7c, 0x4106_aaae),
        constant(ExternIndex::Transparent, "unkb0", 0, 0, 0, 0),
    ]
}

fn transparent_defaults() -> (inputs: Vec<ConstantInput>)
    ensures
        inputs@ == transparent_defaults_table(),
{
    let inputs: Vec<ConstantInput> = vec![
        constant_input(ExternIndex::Transparent, "unk70", 0x3e6a_4fca, 0, 0x3f80_0000, 0x4234_0000),
        constant_input(ExternIndex::Transparent, "unk80", 0, 0, 0x3f96_617c, 0x4037_63b2),
        constant_input(ExternIndex::Transparent, "unk90", 0, 0, 0x4006_fbfc, 0x40a4_7e7c),
        constant_input(ExternIndex::Transparent, "unka0", 0, 0, 0x405d_ed7c, 0x4106_aaae),
        constant_input(ExternIndex::Transparent, "unkb0", 0, 0, 0, 0),
    ];
    assert(inputs@ =~= transparent_defaults_table());
    inputs
}

/// The textures of the preserved transparent passes.
pub open spec fn preserved_transparent_textures_table() -> Seq<TextureInput> {
    seq![
        texture(
            ExternIndex::Transparent,
            "unk00",
            InputSource::Surface { surface: Surface::SkyLookupFar },
        ),
        texture(
            ExternIndex::Transparent,
            "unk08",
            InputSource::Surface { surface: Surface::SkyLookupFar },
        ),
        texture(
            ExternIndex::Transparent,
            "unk10",
            InputSource::Surface { surface: Surface::SkyLookupNear },
        ),
        texture(
            ExternIndex::Transparent,
            "unk18",
            InputSource::Surface { surface: Surface::SkyLookupNear },
        ),
        texture(ExternIndex::Transparent, "unk20", InputSource::Grey),
        texture(ExternIndex::Transparent, "unk28", InputSource::LightGrey),
        texture(ExternIndex::Transparent, "unk30", InputSource::LightGrey),
        texture(ExternIndex::Transparent, "unk38", InputSource::LightGrey),
        texture(ExternIndex::Transparent, "unk40", InputSource::LightGrey),
        texture(
            ExternIndex::Transparent,
            "unk48",
            InputSource::Surface { surface: Surface::ShadingResultRead },
        ),
        texture(ExternIndex::Transparent, "unk50", InputSource::Black),
        texture(ExternIndex::Transparent, "unk58", InputSource::LightGrey),
        texture(
            ExternIndex::Transparent,
            "unk60",
            InputSource::Surface { surface: Surface::ShadingResultRead },
        ),
    ]
}

fn preserved_transparent_textures() -> (inputs: Vec<TextureInput>)
    ensures
        inputs@ == preserved_transparent_textures_table(),
{
    let inputs: Vec<TextureInput> = vec![
        texture_input(
            ExternIndex::Transparent,
            "unk00",
            InputSource::Surface { surface: Surface::SkyLookupFar },
        ),
        texture_input(
            ExternIndex::Transparent,
            "unk08",
            InputSource::Surface { surface: Surface::SkyLookupFar },
        ),
        texture_input(
            ExternIndex::Transparent,
            "unk10",
            InputSource::Surface { surface: Surface::SkyLookupNear },
        ),
        texture_input(
            ExternIndex::Transparent,
            "unk18",
            InputSource::Surface { surface: Surface::SkyLookupNear },
        ),
        texture_input(ExternIndex::Transparent, "unk20", InputSource::Grey),
        texture_input(ExternIndex::Transparent, "unk28", InputSource::LightGrey),
        texture_input(ExternIndex::Transparent, "unk30", InputSource::LightGrey),
        texture_input(ExternIndex::Transparent, "unk38", InputSource::LightGrey),
        texture_input(ExternIndex::Transparent, "unk40", InputSource::LightGrey),
        texture_input(
            ExternIndex::Transparent,
            "unk48",
            InputSource::Surface { surface: Surface::ShadingResultRead },
        ),
        texture_input(ExternIndex::Transparent, "unk50", InputSource::Black),
        texture_input(ExternIndex::Transparent, "unk58", InputSource::LightGrey),
        texture_input(
            ExternIndex::Transparent,
            "unk60",
            InputSource::Surface { surface: Surface::ShadingResultRead },
        ),
    ];
    assert(inputs@ =~= preserved_transparent_textures_table());
    inputs
}

/// The constants of the preserved transparent passes: neutral, since zeros would be divided by.
pub open spec fn preserved_transparent_constants_table() -> Seq<ConstantInput> {
    seq![
        constant(
            ExternIndex::Transparent,
            "unk70",
            0x3f80_0000,
            0x3f80_0000,
            0x3f80_0000,
            0x3f80_0000,
        ),
        constant(
            ExternIndex::Transparent,
            "unk80",
            0x3f80_0000,
            0x3f80_0000,
            0x3f80_0000,
            0x3f80_0000,
        ),
        constant(
            ExternIndex::Transparent,
            "unk90",
            0x3f80_0000,
            0x3f80_0000,
            0x3f80_0000,
            0x3f80_0000,
        ),
        constant(
            ExternIndex::Transparent,
            "unka0",
            0x3f80_0000,
            0x3f80_0000,
            0x3f80_0000,
            0x3f80_0000,
        ),
        constant(
            ExternIndex::Transparent,
            "unkb0",
            0x3f80_0000,
            0x3f80_0000,
            0x3f80_0000,
            0x3f80_0000,
        ),
    ]
}

fn preserved_transparent_constants() -> (inputs: Vec<ConstantInput>)
    ensures
        inputs@ == preserved_transparent_constants_table(),
{
    let inputs: Vec<ConstantInput> = vec![
        constant_input(
            ExternIndex::Transparent,
            "unk70",
            0x3f80_0000,
            0x3f80_0000,
            0x3f80_0000,
            0x3f80_0000,
        ),
        constant_input(
            ExternIndex::Transparent,
            "unk80",
            0x3f80_0000,
            0x3f80_0000,
            0x3f80_0000,
            0x3f80_0000,
        ),
        constant_input(
            ExternIndex::Transparent,
            "unk90",
            0x3f80_0000,
            0x3f80_0000,
            0x3f80_0000,
            0x3f80_0000,
        ),
        constant_input(
            ExternIndex::Transparent,
            "unka0",
            0x3f80_0000,
            0x3f80_0000,
            0x3f80_0000,
            0x3f80_0000,
        ),
        constant_input(
            ExternIndex::Transparent,
            "unkb0",
            0x3f80_0000,
            0x3f80_0000,
            0x3f80_0000,
            0x3f80_0000,
        ),
    ];
    assert(inputs@ =~= preserved_transparent_constants_table());
    inputs
}

/// The textures of a main view. The preserved renderer keeps its white shadow inputs; the bloom is
/// the view's own where it is on.
pub open spec fn main_textures_of(era: RendererEra, bloom: bool) -> Seq<TextureInput> {
    geometry_textures_table() + match era {
        RendererEra::Shadowkeep => preserved_textures_table(),
        RendererEra::Current => current_shadow_textures_table(),
    } + screen_textures_table(
        if bloom {
            InputSource::Surface { surface: Surface::BloomFinal }
        } else {
            InputSource::TemporaryBloom
        },
    )
}

/// Lists the textures of a main view.
fn main_textures(era: RendererEra, bloom: bool) -> (inputs: Vec<TextureInput>)
    ensures
        inputs@ == main_textures_of(era, bloom),
{
    let mut inputs = geometry_textures();
    let mut shadow = match era {
        RendererEra::Shadowkeep => preserved_textures(),
        RendererEra::Current => current_shadow_textures(),
    };
    inputs.append(&mut shadow);
    let mut screen = screen_textures(
        if bloom {
            InputSource::Surface { surface: Surface::BloomFinal }
        } else {
            InputSource::TemporaryBloom
        },
    );
    inputs.append(&mut screen);
    inputs
}

/// The registers that the transparent scope of the current era begins with.
pub open spec fn transparent_registers_table() -> Seq<Vec4Bits> {
    seq![
        Vec4Bits { x: 0x3b14_c448, y: 0x3c12_ccf7, z: 0x3ea7_d806, w: 0x3f24_538f },
        Vec4Bits { x: 0x3b2a_64c3, y: 0x409b_8e8a, z: 0x3b01_c2e3, w: 0x37a7_c5ac },
        Vec4Bits { x: 0x3f6a_71de, y: 0x4369_ee3e, z: 0x3f02_d235, w: 0x3db6_5fd9 },
        Vec4Bits { x: 0x4313_195e, y: 0x3f0e_0f3d, z: 0x3f06_22e6, w: 0 },
        Vec4Bits { x: 0, y: 0x3f25_df65, z: 0x3e10_0150, w: 0x3c80_0a7c },
        Vec4Bits { x: 0, y: 0, z: 0, w: 0 },
        Vec4Bits { x: 0x3fb0_d0bb, y: 0x4005_3483, z: 0x3f5a_c12b, w: 0x3ed5_3f7d },
        Vec4Bits { x: 0x3f68_c9da, y: 0x3f68_c9da, z: 0x3f68_c9da, w: 0x3f68_c9da },
        Vec4Bits { x: 0x4304_edc9, y: 0x4284_cf13, z: 0x4263_69e7, w: 0 },
        Vec4Bits { x: 0x4304_edc9, y: 0x4284_cf13, z: 0x447a_0000, w: 0x38d1_b717 },
        Vec4Bits { x: 0x4303_edc9, y: 0x4282_cf13, z: 0x425f_69e7, w: 0x3f2d_ad97 },
        Vec4Bits { x: 0x4303_edc9, y: 0x4282_cf13, z: 0x4479_c000, w: 0x40b0_0000 },
        Vec4Bits { x: 0, y: 0x3f00_0000, z: 0x41cc_9ba1, w: 0 },
        Vec4Bits { x: 0, y: 0, z: 0, w: 0 },
        Vec4Bits { x: 0x3ccc_cccd, y: 0x461c_4000, z: 0xc61c_3c00, w: 0x3f80_0000 },
        Vec4Bits { x: 0x3f80_0000, y: 0x3f80_0000, z: 0x3f80_0000, w: 0 },
        Vec4Bits { x: 0, y: 0, z: 0, w: 0 },
        Vec4Bits { x: 0x412e_d90c, y: 0x40e3_3e57, z: 0x40c8_2642, w: 0 },
        Vec4Bits { x: 0x3b76_6a55, y: 0, z: 0, w: 0 },
        Vec4Bits { x: 0, y: 0x3bf6_be38, z: 0, w: 0 },
        Vec4Bits { x: 0, y: 0, z: 0x3c90_18e7, w: 0 },
        Vec4Bits { x: 0xbf91_42c4, y: 0x40db_efdd, z: 0xbeac_9eed, w: 0x3f80_0000 },
        Vec4Bits { x: 0, y: 0, z: 0, w: 0 },
        Vec4Bits { x: 0, y: 0, z: 0, w: 0 },
        Vec4Bits { x: 0, y: 0, z: 0, w: 0 },
        Vec4Bits { x: 0, y: 0, z: 0, w: 0 },
        Vec4Bits { x: 0, y: 0, z: 0, w: 0 },
        Vec4Bits { x: 0, y: 0, z: 0, w: 0 },
        Vec4Bits { x: 0, y: 0, z: 0, w: 0 },
        Vec4Bits { x: 0, y: 0, z: 0, w: 0 },
        Vec4Bits { x: 0, y: 0, z: 0, w: 0 },
        Vec4Bits { x: 0, y: 0, z: 0, w: 0 },
        Vec4Bits { x: 0, y: 0, z: 0, w: 0 },
        Vec4Bits { x: 0, y: 0, z: 0, w: 0 },
        Vec4Bits { x: 0, y: 0, z: 0, w: 0 },
        Vec4Bits { x: 0, y: 0, z: 0, w: 0 },
        Vec4Bits { x: 0x3f80_0000, y: 0, z: 0, w: 0 },
    ]
}

fn transparent_registers() -> (registers: Vec<Vec4Bits>)
    ensures
        registers@ == transparent_registers_table(),
{
    let registers: Vec<Vec4Bits> = vec![
        Vec4Bits { x: 0x3b14_c448, y: 0x3c12_ccf7, z: 0x3ea7_d806, w: 0x3f24_538f },
        Vec4Bits { x: 0x3b2a_64c3, y: 0x409b_8e8a, z: 0x3b01_c2e3, w: 0x37a7_c5ac },
        Vec4Bits { x: 0x3f6a_71de, y: 0x4369_ee3e, z: 0x3f02_d235, w: 0x3db6_5fd9 },
        Vec4Bits { x: 0x4313_195e, y: 0x3f0e_0f3d, z: 0x3f06_22e6, w: 0 },
        Vec4Bits { x: 0, y: 0x3f25_df65, z: 0x3e10_0150, w: 0x3c80_0a7c },
        Vec4Bits { x: 0, y: 0, z: 0, w: 0 },
        Vec4Bits { x: 0x3fb0_d0bb, y: 0x4005_3483, z: 0x3f5a_c12b, w: 0x3ed5_3f7d },
        Vec4Bits { x: 0x3f68_c9da, y: 0x3f68_c9da, z: 0x3f68_c9da, w: 0x3f68_c9da },
        Vec4Bits { x: 0x4304_edc9, y: 0x4284_cf13, z: 0x4263_69e7, w: 0 },
        Vec4Bits { x: 0x4304_edc9, y: 0x4284_cf13, z: 0x447a_0000, w: 0x38d1_b717 },
        Vec4Bits { x: 0x4303_edc9, y: 0x4282_cf13, z: 0x425f_69e7, w: 0x3f2d_ad97 },
        Vec4Bits { x: 0x4303_edc9, y: 0x4282_cf13, z: 0x4479_c000, w: 0x40b0_0000 },
        Vec4Bits { x: 0, y: 0x3f00_0000, z: 0x41cc_9ba1, w: 0 },
        Vec4Bits { x: 0, y: 0, z: 0, w: 0 },
        Vec4Bits { x: 0x3ccc_cccd, y: 0x461c_4000, z: 0xc61c_3c00, w: 0x3f80_0000 },
        Vec4Bits { x: 0x3f80_0000, y: 0x3f80_0000, z: 0x3f80_0000, w: 0 },
        Vec4Bits { x: 0, y: 0, z: 0, w: 0 },
        Vec4Bits { x: 0x412e_d90c, y: 0x40e3_3e57, z: 0x40c8_2642, w: 0 },
        Vec4Bits { x: 0x3b76_6a55, y: 0, z: 0, w: 0 },
        Vec4Bits { x: 0, y: 0x3bf6_be38, z: 0, w: 0 },
        Vec4Bits { x: 0, y: 0, z: 0x3c90_18e7, w: 0 },
        Vec4Bits { x: 0xbf91_42c4, y: 0x40db_efdd, z: 0xbeac_9eed, w: 0x3f80_0000 },
        Vec4Bits { x: 0, y: 0, z: 0, w: 0 },
        Vec4Bits { x: 0, y: 0, z: 0, w: 0 },
        Vec4Bits { x: 0, y: 0, z: 0, w: 0 },
        Vec4Bits { x: 0, y: 0, z: 0, w: 0 },
        Vec4Bits { x: 0, y: 0, z: 0, w: 0 },
        Vec4Bits { x: 0, y: 0, z: 0, w: 0 },
        Vec4Bits { x: 0, y: 0, z: 0, w: 0 },
        Vec4Bits { x: 0, y: 0, z: 0, w: 0 },
        Vec4Bits { x: 0, y: 0, z: 0, w: 0 },
        Vec4Bits { x: 0, y: 0, z: 0, w: 0 },
        Vec4Bits { x: 0, y: 0, z: 0, w: 0 },
        Vec4Bits { x: 0, y: 0, z: 0, w: 0 },
        Vec4Bits { x: 0, y: 0, z: 0, w: 0 },
        Vec4Bits { x: 0, y: 0, z: 0, w: 0 },
        Vec4Bits { x: 0x3f80_0000, y: 0, z: 0, w: 0 },
    ];
    assert(registers@ =~= transparent_registers_table());
    registers
}

/// What a view is prepared with.
#[derive(Clone, Debug)]
pub struct ViewInputs {
    pub textures: Vec<TextureInput>,
    pub constants: Vec<ConstantInput>,
    pub channels: Vec<ChannelInput>,
    pub atmosphere: Vec<AtmosphereChannel>,
    /// The registers of the transparent scope; none leaves the stored ones as they are.
    pub registers: Vec<Vec4Bits>,
}

/// The textures of any view of an era.
pub open spec fn view_textures_of(era: RendererEra) -> Seq<TextureInput> {
    shared_textures_table() + match era {
        RendererEra::Shadowkeep => preserved_textures_table(),
        RendererEra::Current => Seq::empty(),
    }
}

/// The constants of any view of an era.
pub open spec fn view_constants_of(era: RendererEra) -> Seq<ConstantInput> {
    shared_constants_table() + match era {
        RendererEra::Shadowkeep => preserved_constants_table(),
        RendererEra::Current => current_constants_table(),
    }
}

/// The named channels of any view of an era: the preserved renderer has none.
pub open spec fn view_channels_of(era: RendererEra) -> Seq<ChannelInput> {
    match era {
        RendererEra::Shadowkeep => Seq::empty(),
        RendererEra::Current => current_channels_table(),
    }
}

/// The transparent registers of any view of an era: the preserved renderer keeps the stored ones.
pub open spec fn view_registers_of(era: RendererEra) -> Seq<Vec4Bits> {
    match era {
        RendererEra::Shadowkeep => Seq::empty(),
        RendererEra::Current => transparent_registers_table(),
    }
}

/// The constants of a main view. They replace the atmosphere that every view starts with.
pub open spec fn main_constants_of() -> Seq<ConstantInput> {
    atmosphere_constants_table() + screen_constants_table() + transparent_defaults_table()
}

impl Renderer {
    /// What any view is prepared with. Times, matrices and resolutions come with the view.
    pub fn prepare_externs(&self) -> (inputs: ViewInputs)
        ensures
            inputs.textures@ == view_textures_of(self.era),
            inputs.constants@ == view_constants_of(self.era),
            inputs.channels@ == view_channels_of(self.era),
            inputs.atmosphere@ == crate::records::atmosphere_channels(),
            inputs.registers@ == view_registers_of(self.era),
    {
        let mut textures = shared_textures();
        let mut constants = shared_constants();
        let atmosphere = atmosphere_channel_list();
        match self.era {
            RendererEra::Shadowkeep => {
                textures.append(&mut preserved_textures());
                constants.append(&mut preserved_constants());
                ViewInputs {
                    textures,
                    constants,
                    channels: Vec::new(),
                    atmosphere,
                    registers: Vec::new(),
                }
            },
            RendererEra::Current => {
                constants.append(&mut current_constants());
                ViewInputs {
                    textures,
                    constants,
                    channels: current_channels(),
                    atmosphere,
                    registers: transparent_registers(),
                }
            },
        }
    }

    /// What a main view is prepared with in addition. The atmosphere, picture, depth and
    /// transparent blocks begin anew with it.
    pub fn prepare_main_view_externs(&self, bloom: bool) -> (inputs: ViewInputs)
        ensures
            inputs.textures@ == main_textures_of(self.era, bloom),
            inputs.constants@ == main_constants_of(),
            inputs.channels@.len() == 0,
            inputs.atmosphere@.len() == 0,
            inputs.registers@.len() == 0,
    {
        let mut constants = atmosphere_constants();
        constants.append(&mut screen_constants());
        constants.append(&mut transparent_defaults());
        ViewInputs {
            textures: main_textures(self.era, bloom),
            constants,
            channels: Vec::new(),
            atmosphere: Vec::new(),
            registers: Vec::new(),
        }
    }
}

/// What the preserved transparent passes are prepared with.
pub fn prepare_preserved_transparents() -> (inputs: ViewInputs)
    ensures
        inputs.textures@ == preserved_transparent_textures_table(),
        inputs.constants@ == preserved_transparent_constants_table(),
        inputs.channels@.len() == 0,
        inputs.atmosphere@.len() == 0,
        inputs.registers@.len() == 0,
{
    ViewInputs {
        textures: preserved_transparent_textures(),
        constants: preserved_transparent_constants(),
        channels: Vec::new(),
        atmosphere: Vec::new(),
        registers: Vec::new(),
    }
}

/// The textures that a preserved main view is prepared with, in all.
pub open spec fn preserved_frame_textures(bloom: bool) -> Seq<TextureInput> {
    view_textures_of(RendererEra::Shadowkeep) + main_textures_of(RendererEra::Shadowkeep, bloom)
}

/// A preserved frame never reads a shadow surface of the current era, which would look like a
/// valid but empty light buffer.
pub proof fn law_preserved_shadow_inputs_are_white(bloom: bool, at: int)
    requires
        0 <= at < preserved_frame_textures(bloom).len(),
        preserved_frame_textures(bloom)[at].block == ExternIndex::ShadowMask,
    ensures
        preserved_frame_textures(bloom)[at].source == InputSource::White,
{
}

/// Every lane of the preserved transparent constants is one, so nothing divides by a zero there.
pub proof fn law_preserved_transparent_constants_are_one(at: int)
    requires
        0 <= at < preserved_transparent_constants_table().len(),
    ensures
        preserved_transparent_constants_table()[at].value.x == 0x3f80_0000,
        preserved_transparent_constants_table()[at].value.y == 0x3f80_0000,
        preserved_transparent_constants_table()[at].value.z == 0x3f80_0000,
        preserved_transparent_constants_table()[at].value.w == 0x3f80_0000,
{
}

/// The lookups that every frame shares are bound to their fields of the frame and water blocks,
/// and the shadow input of the global lighting is white.
pub proof fn law_shared_textures_are_looked_up()
    ensures
        shared_textures_table().len() == 7,
        shared_textures_table()[0] == (TextureInput {
            block: ExternIndex::Frame,
            field: "specular_tint_lookup",
            source: InputSource::SpecularTintLookup,
        }),
        shared_textures_table()[1] == (TextureInput {
            block: ExternIndex::Frame,
            field: "specular_lobe_lookup",
            source: InputSource::SpecularLobeLookup,
        }),
        shared_textures_table()[2] == (TextureInput {
            block: ExternIndex::Frame,
            field: "specular_lobe_3d_lookup",
            source: InputSource::SpecularLobe3dLookup,
        }),
        shared_textures_table()[3] == (TextureInput {
            block: ExternIndex::Frame,
            field: "iridescence_lookup",
            source: InputSource::IridescenceLookup,
        }),
        shared_textures_table()[4] == (TextureInput {
            block: ExternIndex::WaterDisplacement,
            field: "unk00",
            source: InputSource::WaterDisplacement00,
        }),
        shared_textures_table()[5] == (TextureInput {
            block: ExternIndex::WaterDisplacement,
            field: "unk08",
            source: InputSource::WaterDisplacement08,
        }),
        shared_textures_table()[6] == (TextureInput {
            block: ExternIndex::GlobalLighting,
            field: "unk08",
            source: InputSource::White,
        }),
{
}

/// The exposure time is a sixtieth of a second, and the water has its fixed shape.
pub proof fn law_shared_constants_are_fixed()
    ensures
        shared_constants_table().len() == 10,
        shared_constants_table()[0] == (ConstantInput {
            block: ExternIndex::Frame,
            field: "exposure_time",
            value: Vec4Bits { x: 0x3c88_8889, y: 0, z: 0, w: 0 },
        }),
        shared_constants_table()[1] == (ConstantInput {
            block: ExternIndex::WaterDisplacement,
            field: "unk10",
            value: Vec4Bits { x: 0x3d38_51ec, y: 0, z: 0, w: 0 },
        }),
        shared_constants_table()[2] == (ConstantInput {
            block: ExternIndex::WaterDisplacement,
            field: "unk14",
            value: Vec4Bits { x: 0x3f80_0000, y: 0, z: 0, w: 0 },
        }),
        shared_constants_table()[3] == (ConstantInput {
            block: ExternIndex::WaterDisplacement,
            field: "unk18",
            value: Vec4Bits { x: 0, y: 0, z: 0, w: 0 },
        }),
        shared_constants_table()[4] == (ConstantInput {
            block: ExternIndex::WaterDisplacement,
            field: "unk1c",
            value: Vec4Bits { x: 0x41a0_0000, y: 0, z: 0, w: 0 },
        }),
        shared_constants_table()[5] == (ConstantInput {
            block: ExternIndex::WaterDisplacement,
            field: "unk20",
            value: Vec4Bits { x: 0x4416_0000, y: 0, z: 0, w: 0 },
        }),
        shared_constants_table()[6] == (ConstantInput {
            block: ExternIndex::WaterDisplacement,
            field: "unk24",
            value: Vec4Bits { x: 0x3f00_0000, y: 0, z: 0, w: 0 },
        }),
        shared_constants_table()[7] == (ConstantInput {
            block: ExternIndex::WaterDisplacement,
            field: "unk28",
            value: Vec4Bits { x: 0x4000_0000, y: 0, z: 0, w: 0 },
        }),
        shared_constants_table()[8] == (ConstantInput {
            block: ExternIndex::WaterDisplacement,
            field: "unk2c",
            value: Vec4Bits { x: 0, y: 0, z: 0, w: 0 },
        }),
        shared_constants_table()[9] == (ConstantInput {
            block: ExternIndex::WaterDisplacement,
            field: "unk30",
            value: Vec4Bits { x: 0x40f6_6666, y: 0, z: 0, w: 0 },
        }),
{
}

/// The preserved sun and both ambient lights are white, and the sun shines straight down.
pub proof fn law_preserved_lighting_is_white_from_above()
    ensures
        preserved_constants_table().len() == 7,
        preserved_constants_table()[0] == (ConstantInput {
            block: ExternIndex::GlobalLighting,
            field: "unk10",
            value: Vec4Bits { x: 0x3f80_0000, y: 0x3f80_0000, z: 0x3f80_0000, w: 0x3f80_0000 },
        }),
        preserved_constants_table()[1] == (ConstantInput {
            block: ExternIndex::GlobalLighting,
            field: "unk30",
            value: Vec4Bits { x: 0, y: 0, z: 0xbf80_0000, w: 0 },
        }),
        preserved_constants_table()[2] == (ConstantInput {
            block: ExternIndex::GlobalLighting,
            field: "unk50",
            value: Vec4Bits { x: 0, y: 0, z: 0, w: 0 },
        }),
        preserved_constants_table()[3] == (ConstantInput {
            block: ExternIndex::GlobalLighting,
            field: "unk70",
            value: Vec4Bits { x: 0x3f80_0000, y: 0x3f80_0000, z: 0x3f80_0000, w: 0x3f80_0000 },
        }),
        preserved_constants_table()[4] == (ConstantInput {
            block: ExternIndex::GlobalLighting,
            field: "unk80",
            value: Vec4Bits { x: 0x3f80_0000, y: 0x3f80_0000, z: 0x3f80_0000, w: 0x3f80_0000 },
        }),
        preserved_constants_table()[5] == (ConstantInput {
            block: ExternIndex::GlobalLighting,
            field: "unk94",
            value: Vec4Bits { x: 0xbf00_0000, y: 0, z: 0, w: 0 },
        }),
        preserved_constants_table()[6] == (ConstantInput {
            block: ExternIndex::Atmosphere,
            field: "unk110",
            value: Vec4Bits { x: 0, y: 0, z: 0xbf80_0000, w: 0 },
        }),
{
}

/// What no channel gives the current global lighting has fixed values.
pub proof fn law_current_lighting_has_fixed_ranges()
    ensures
        current_constants_table().len() == 4,
        current_constants_table()[0] == (ConstantInput {
            block: ExternIndex::GlobalLighting,
            field: "unka0",
            value: Vec4Bits { x: 0x3e4c_cccd, y: 0, z: 0, w: 0 },
        }),
        current_constants_table()[1] == (ConstantInput {
            block: ExternIndex::GlobalLighting,
            field: "unkb0",
            value: Vec4Bits { x: 0x3c23_d70a, y: 0x3c23_d70a, z: 0xbf00_0000, w: 0xbf00_0000 },
        }),
        current_constants_table()[2] == (ConstantInput {
            block: ExternIndex::GlobalLighting,
            field: "unkc0",
            value: Vec4Bits { x: 0x3ca3_d70a, y: 0xc000_0000, z: 0, w: 0 },
        }),
        current_constants_table()[3] == (ConstantInput {
            block: ExternIndex::GlobalLighting,
            field: "unkd0",
            value: Vec4Bits { x: 0x3b5a_3c21, y: 0xc015_5547, z: 0, w: 0 },
        }),
{
}

/// The current global lighting takes each of its inputs from the channel of that name, and the
/// colors scaled by their intensity.
pub proof fn law_current_lighting_follows_its_channels()
    ensures
        current_channels_table().len() == 8,
        current_channels_table()[0] == (ChannelInput {
            block: ExternIndex::GlobalLighting,
            field: "unk10",
            channel: "sun_color",
            scale: Some("sun_intensity"),
            whole: true,
        }),
        current_channels_table()[1] == (ChannelInput {
            block: ExternIndex::GlobalLighting,
            field: "unk30",
            channel: "sun_light_direction",
            scale: None,
            whole: true,
        }),
        current_channels_table()[2] == (ChannelInput {
            block: ExternIndex::GlobalLighting,
            field: "unk50",
            channel: "sun_ambient_direction",
            scale: None,
            whole: true,
        }),
        current_channels_table()[3] == (ChannelInput {
            block: ExternIndex::GlobalLighting,
            field: "unk70",
            channel: "up_ambient_color",
            scale: Some("up_ambient_intensity"),
            whole: true,
        }),
        current_channels_table()[4] == (ChannelInput {
            block: ExternIndex::GlobalLighting,
            field: "unk80",
            channel: "down_ambient_color",
            scale: Some("down_ambient_intensity"),
            whole: true,
        }),
        current_channels_table()[5] == (ChannelInput {
            block: ExternIndex::GlobalLighting,
            field: "unk90",
            channel: "up_ambient_sharpness",
            scale: None,
            whole: false,
        }),
        current_channels_table()[6] == (ChannelInput {
            block: ExternIndex::GlobalLighting,
            field: "unk94",
            channel: "down_ambient_sharpness",
            scale: None,
            whole: false,
        }),
        current_channels_table()[7] == (ChannelInput {
            block: ExternIndex::Atmosphere,
            field: "unk110",
            channel: "sun_light_direction",
            scale: None,
            whole: true,
        }),
{
}

/// The deferred block reads the depth, the three geometry buffers and the light buffers, each
/// under its own name, and decals read depth and normals.
pub proof fn law_deferred_inputs_read_their_surface()
    ensures
        geometry_textures_table().len() == 10,
        geometry_textures_table()[0] == (TextureInput {
            block: ExternIndex::Deferred,
            field: "deferred_depth",
            source: InputSource::Surface { surface: Surface::DepthProxy },
        }),
        geometry_textures_table()[1] == (TextureInput {
            block: ExternIndex::Deferred,
            field: "deferred_rt0",
            source: InputSource::Surface { surface: Surface::Albedo },
        }),
        geometry_textures_table()[2] == (TextureInput {
            block: ExternIndex::Deferred,
            field: "deferred_rt1",
            source: InputSource::Surface { surface: Surface::Normal },
        }),
        geometry_textures_table()[3] == (TextureInput {
            block: ExternIndex::Deferred,
            field: "deferred_rt2",
            source: InputSource::Surface { surface: Surface::Third },
        }),
        geometry_textures_table()[4] == (TextureInput {
            block: ExternIndex::Deferred,
            field: "light_diffuse",
            source: InputSource::Surface { surface: Surface::LightDiffuse },
        }),
        geometry_textures_table()[5] == (TextureInput {
            block: ExternIndex::Deferred,
            field: "light_specular",
            source: InputSource::Surface { surface: Surface::LightSpecular },
        }),
        geometry_textures_table()[6] == (TextureInput {
            block: ExternIndex::Deferred,
            field: "light_specular_ibl",
            source: InputSource::Surface { surface: Surface::LightSpecularIbl },
        }),
        geometry_textures_table()[7] == (TextureInput {
            block: ExternIndex::Deferred,
            field: "sky_hemisphere_mips",
            source: InputSource::SkyHemisphere,
        }),
        geometry_textures_table()[8] == (TextureInput {
            block: ExternIndex::Decal,
            field: "depth_read",
            source: InputSource::Surface { surface: Surface::DepthProxy },
        }),
        geometry_textures_table()[9] == (TextureInput {
            block: ExternIndex::Decal,
            field: "normals_read",
            source: InputSource::Surface { surface: Surface::NormalRead },
        }),
{
}

/// The current shadow mask is read from its surface, with the half depth beside it.
pub proof fn law_current_shadows_are_masked()
    ensures
        current_shadow_textures_table().len() == 2,
        current_shadow_textures_table()[0] == (TextureInput {
            block: ExternIndex::ShadowMask,
            field: "unk00",
            source: InputSource::Surface { surface: Surface::ShadowMask },
        }),
        current_shadow_textures_table()[1] == (TextureInput {
            block: ExternIndex::ShadowMask,
            field: "unk10",
            source: InputSource::Surface { surface: Surface::UberDepthHalf },
        }),
{
}

/// The constants of the atmosphere have these single-precision patterns.
pub proof fn law_the_atmosphere_has_fixed_constants()
    ensures
        atmosphere_constants_table().len() == 12,
        atmosphere_constants_table()[0] == (ConstantInput {
            block: ExternIndex::Atmosphere,
            field: "unk1ec",
            value: Vec4Bits { x: 0x4316_0000, y: 0, z: 0, w: 0 },
        }),
        atmosphere_constants_table()[1] == (ConstantInput {
            block: ExternIndex::Atmosphere,
            field: "unk1c4",
            value: Vec4Bits { x: 0x4416_0000, y: 0, z: 0, w: 0 },
        }),
        atmosphere_constants_table()[2] == (ConstantInput {
            block: ExternIndex::Atmosphere,
            field: "unk150",
            value: Vec4Bits { x: 0xbf79_c2e3, y: 0, z: 0, w: 0 },
        }),
        atmosphere_constants_table()[3] == (ConstantInput {
            block: ExternIndex::Atmosphere,
            field: "unk154",
            value: Vec4Bits { x: 0x3b7c_f80e, y: 0, z: 0, w: 0 },
        }),
        atmosphere_constants_table()[4] == (ConstantInput {
            block: ExternIndex::Atmosphere,
            field: "unk1b4",
            value: Vec4Bits { x: 0x3f71_c6d2, y: 0, z: 0, w: 0 },
        }),
        atmosphere_constants_table()[5] == (ConstantInput {
            block: ExternIndex::Atmosphere,
            field: "unk1b8",
            value: Vec4Bits { x: 0x3f80_0000, y: 0, z: 0, w: 0 },
        }),
        atmosphere_constants_table()[6] == (ConstantInput {
            block: ExternIndex::Atmosphere,
            field: "unk1bc",
            value: Vec4Bits { x: 0x3b8b_eb5b, y: 0, z: 0, w: 0 },
        }),
        atmosphere_constants_table()[7] == (ConstantInput {
            block: ExternIndex::Atmosphere,
            field: "unk110",
            value: Vec4Bits { x: 0x3f7e_fd22, y: 0x3cfd_debe, z: 0xbdaa_64c3, w: 0 },
        }),
        atmosphere_constants_table()[8] == (ConstantInput {
            block: ExternIndex::Atmosphere,
            field: "unk1d0",
            value: Vec4Bits { x: 0, y: 0, z: 0, w: 0 },
        }),
        atmosphere_constants_table()[9] == (ConstantInput {
            block: ExternIndex::Atmosphere,
            field: "unk1e0",
            value: Vec4Bits { x: 0, y: 0, z: 0, w: 0 },
        }),
        atmosphere_constants_table()[10] == (ConstantInput {
            block: ExternIndex::Atmosphere,
            field: "unk1e4",
            value: Vec4Bits { x: 0x3b7c_f80e, y: 0, z: 0, w: 0 },
        }),
        atmosphere_constants_table()[11] == (ConstantInput {
            block: ExternIndex::Atmosphere,
            field: "unk1e8",
            value: Vec4Bits { x: 0x3b8b_eb5b, y: 0, z: 0, w: 0 },
        }),
{
}

/// The constants of the screen area have these single-precision patterns.
pub proof fn law_the_screen_has_fixed_constants()
    ensures
        screen_constants_table().len() == 11,
        screen_constants_table()[0] == (ConstantInput {
            block: ExternIndex::ScreenArea,
            field: "unk7c",
            value: Vec4Bits { x: 0x3f7f_2e49, y: 0, z: 0, w: 0 },
        }),
        screen_constants_table()[1] == (ConstantInput {
            block: ExternIndex::ScreenArea,
            field: "unk80",
            value: Vec4Bits { x: 0x3dcc_cccd, y: 0, z: 0, w: 0 },
        }),
        screen_constants_table()[2] == (ConstantInput {
            block: ExternIndex::ScreenArea,
            field: "unk90",
            value: Vec4Bits { x: 0x4200_0000, y: 0x4480_0000, z: 0, w: 0 },
        }),
        screen_constants_table()[3] == (ConstantInput {
            block: ExternIndex::ScreenArea,
            field: "unka0",
            value: Vec4Bits { x: 0x3d00_0000, y: 0xc0a0_0000, z: 0x4160_0000, w: 0x4020_0000 },
        }),
        screen_constants_table()[4] == (ConstantInput {
            block: ExternIndex::ScreenArea,
            field: "unkb0",
            value: Vec4Bits { x: 0x3f00_0000, y: 0, z: 0, w: 0 },
        }),
        screen_constants_table()[5] == (ConstantInput {
            block: ExternIndex::ScreenArea,
            field: "unkb4",
            value: Vec4Bits { x: 0x4000_0000, y: 0, z: 0, w: 0 },
        }),
        screen_constants_table()[6] == (ConstantInput {
            block: ExternIndex::ScreenArea,
            field: "unke0",
            value: Vec4Bits { x: 0x3e80_0000, y: 0xbe66_6666, z: 0x3ecc_cccd, w: 0x3f75_c28f },
        }),
        screen_constants_table()[7] == (ConstantInput {
            block: ExternIndex::ScreenArea,
            field: "unkf0",
            value: Vec4Bits { x: 0x3e07_ff58, y: 0x3e71_c6d2, z: 0, w: 0 },
        }),
        screen_constants_table()[8] == (ConstantInput {
            block: ExternIndex::ScreenArea,
            field: "unk140",
            value: Vec4Bits { x: 0x3d4c_cccd, y: 0, z: 0, w: 0 },
        }),
        screen_constants_table()[9] == (ConstantInput {
            block: ExternIndex::ScreenArea,
            field: "unk150",
            value: Vec4Bits { x: 0x3e99_999a, y: 0x3f00_0000, z: 0, w: 0x3ca3_d70a },
        }),
        screen_constants_table()[10] == (ConstantInput {
            block: ExternIndex::ScreenArea,
            field: "unk160",
            value: Vec4Bits { x: 0x3e99_999a, y: 0x3f00_0000, z: 0, w: 0x3f00_0000 },
        }),
{
}

/// The constants of transparent objects have these single-precision patterns.
pub proof fn law_transparents_have_fixed_defaults()
    ensures
        transparent_defaults_table().len() == 5,
        transparent_defaults_table()[0] == (ConstantInput {
            block: ExternIndex::Transparent,
            field: "unk70",
            value: Vec4Bits { x: 0x3e6a_4fca, y: 0, z: 0x3f80_0000, w: 0x4234_0000 },
        }),
        transparent_defaults_table()[1] == (ConstantInput {
            block: ExternIndex::Transparent,
            field: "unk80",
            value: Vec4Bits { x: 0, y: 0, z: 0x3f96_617c, w: 0x4037_63b2 },
        }),
        transparent_defaults_table()[2] == (ConstantInput {
            block: ExternIndex::Transparent,
            field: "unk90",
            value: Vec4Bits { x: 0, y: 0, z: 0x4006_fbfc, w: 0x40a4_7e7c },
        }),
        transparent_defaults_table()[3] == (ConstantInput {
            block: ExternIndex::Transparent,
            field: "unka0",
            value: Vec4Bits { x: 0, y: 0, z: 0x405d_ed7c, w: 0x4106_aaae },
        }),
        transparent_defaults_table()[4] == (ConstantInput {
            block: ExternIndex::Transparent,
            field: "unkb0",
            value: Vec4Bits { x: 0, y: 0, z: 0, w: 0 },
        }),
{
}

/// Preserved transparent objects read the far sky lookup in the first two slots, the near one in
/// the next two, the readable shading result in two later ones, and plain colors in all others.
pub proof fn law_preserved_transparents_read_the_sky()
    ensures
        preserved_transparent_textures_table().len() == 13,
        preserved_transparent_textures_table()[0] == (TextureInput {
            block: ExternIndex::Transparent,
            field: "unk00",
            source: InputSource::Surface { surface: Surface::SkyLookupFar },
        }),
        preserved_transparent_textures_table()[1] == (TextureInput {
            block: ExternIndex::Transparent,
            field: "unk08",
            source: InputSource::Surface { surface: Surface::SkyLookupFar },
        }),
        preserved_transparent_textures_table()[2] == (TextureInput {
            block: ExternIndex::Transparent,
            field: "unk10",
            source: InputSource::Surface { surface: Surface::SkyLookupNear },
        }),
        preserved_transparent_textures_table()[3] == (TextureInput {
            block: ExternIndex::Transparent,
            field: "unk18",
            source: InputSource::Surface { surface: Surface::SkyLookupNear },
        }),
        preserved_transparent_textures_table()[4] == (TextureInput {
            block: ExternIndex::Transparent,
            field: "unk20",
            source: InputSource::Grey,
        }),
        preserved_transparent_textures_table()[5] == (TextureInput {
            block: ExternIndex::Transparent,
            field: "unk28",
            source: InputSource::LightGrey,
        }),
        preserved_transparent_textures_table()[6] == (TextureInput {
            block: ExternIndex::Transparent,
            field: "unk30",
            source: InputSource::LightGrey,
        }),
        preserved_transparent_textures_table()[7] == (TextureInput {
            block: ExternIndex::Transparent,
            field: "unk38",
            source: InputSource::LightGrey,
        }),
        preserved_transparent_textures_table()[8] == (TextureInput {
            block: ExternIndex::Transparent,
            field: "unk40",
            source: InputSource::LightGrey,
        }),
        preserved_transparent_textures_table()[9] == (TextureInput {
            block: ExternIndex::Transparent,
            field: "unk48",
            source: InputSource::Surface { surface: Surface::ShadingResultRead },
        }),
        preserved_transparent_textures_table()[10] == (TextureInput {
            block: ExternIndex::Transparent,
            field: "unk50",
            source: InputSource::Black,
        }),
        preserved_transparent_textures_table()[11] == (TextureInput {
            block: ExternIndex::Transparent,
            field: "unk58",
            source: InputSource::LightGrey,
        }),
        preserved_transparent_textures_table()[12] == (TextureInput {
            block: ExternIndex::Transparent,
            field: "unk60",
            source: InputSource::Surface { surface: Surface::ShadingResultRead },
        }),
{
}

/// The registers of the transparent scope have these single-precision patterns.
pub proof fn law_transparent_registers_are_fixed()
    ensures
        transparent_registers_table().len() == 37,
        transparent_registers_table()[0] == (Vec4Bits {
            x: 0x3b14_c448,
            y: 0x3c12_ccf7,
            z: 0x3ea7_d806,
            w: 0x3f24_538f,
        }),
        transparent_registers_table()[1] == (Vec4Bits {
            x: 0x3b2a_64c3,
            y: 0x409b_8e8a,
            z: 0x3b01_c2e3,
            w: 0x37a7_c5ac,
        }),
        transparent_registers_table()[2] == (Vec4Bits {
            x: 0x3f6a_71de,
            y: 0x4369_ee3e,
            z: 0x3f02_d235,
            w: 0x3db6_5fd9,
        }),
        transparent_registers_table()[3] == (Vec4Bits {
            x: 0x4313_195e,
            y: 0x3f0e_0f3d,
            z: 0x3f06_22e6,
            w: 0,
        }),
        transparent_registers_table()[4] == (Vec4Bits {
            x: 0,
            y: 0x3f25_df65,
            z: 0x3e10_0150,
            w: 0x3c80_0a7c,
        }),
        transparent_registers_table()[5] == (Vec4Bits { x: 0, y: 0, z: 0, w: 0 }),
        transparent_registers_table()[6] == (Vec4Bits {
            x: 0x3fb0_d0bb,
            y: 0x4005_3483,
            z: 0x3f5a_c12b,
            w: 0x3ed5_3f7d,
        }),
        transparent_registers_table()[7] == (Vec4Bits {
            x: 0x3f68_c9da,
            y: 0x3f68_c9da,
            z: 0x3f68_c9da,
            w: 0x3f68_c9da,
        }),
        transparent_registers_table()[8] == (Vec4Bits {
            x: 0x4304_edc9,
            y: 0x4284_cf13,
            z: 0x4263_69e7,
            w: 0,
        }),
        transparent_registers_table()[9] == (Vec4Bits {
            x: 0x4304_edc9,
            y: 0x4284_cf13,
            z: 0x447a_0000,
            w: 0x38d1_b717,
        }),
        transparent_registers_table()[10] == (Vec4Bits {
            x: 0x4303_edc9,
            y: 0x4282_cf13,
            z: 0x425f_69e7,
            w: 0x3f2d_ad97,
        }),
        transparent_registers_table()[11] == (Vec4Bits {
            x: 0x4303_edc9,
            y: 0x4282_cf13,
            z: 0x4479_c000,
            w: 0x40b0_0000,
        }),
        transparent_registers_table()[12] == (Vec4Bits {
            x: 0,
            y: 0x3f00_0000,
            z: 0x41cc_9ba1,
            w: 0,
        }),
        transparent_registers_table()[13] == (Vec4Bits { x: 0, y: 0, z: 0, w: 0 }),
        transparent_registers_table()[14] == (Vec4Bits {
            x: 0x3ccc_cccd,
            y: 0x461c_4000,
            z: 0xc61c_3c00,
            w: 0x3f80_0000,
        }),
        transparent_registers_table()[15] == (Vec4Bits {
            x: 0x3f80_0000,
            y: 0x3f80_0000,
            z: 0x3f80_0000,
            w: 0,
        }),
        transparent_registers_table()[16] == (Vec4Bits { x: 0, y: 0, z: 0, w: 0 }),
        transparent_registers_table()[17] == (Vec4Bits {
            x: 0x412e_d90c,
            y: 0x40e3_3e57,
            z: 0x40c8_2642,
            w: 0,
        }),
        transparent_registers_table()[18] == (Vec4Bits { x: 0x3b76_6a55, y: 0, z: 0, w: 0 }),
        transparent_registers_table()[19] == (Vec4Bits { x: 0, y: 0x3bf6_be38, z: 0, w: 0 }),
        transparent_registers_table()[20] == (Vec4Bits { x: 0, y: 0, z: 0x3c90_18e7, w: 0 }),
        transparent_registers_table()[21] == (Vec4Bits {
            x: 0xbf91_42c4,
            y: 0x40db_efdd,
            z: 0xbeac_9eed,
            w: 0x3f80_0000,
        }),
        transparent_registers_table()[22] == (Vec4Bits { x: 0, y: 0, z: 0, w: 0 }),
        transparent_registers_table()[23] == (Vec4Bits { x: 0, y: 0, z: 0, w: 0 }),
        transparent_registers_table()[24] == (Vec4Bits { x: 0, y: 0, z: 0, w: 0 }),
        transparent_registers_table()[25] == (Vec4Bits { x: 0, y: 0, z: 0, w: 0 }),
        transparent_registers_table()[26] == (Vec4Bits { x: 0, y: 0, z: 0, w: 0 }),
        transparent_registers_table()[27] == (Vec4Bits { x: 0, y: 0, z: 0, w: 0 }),
        transparent_registers_table()[28] == (Vec4Bits { x: 0, y: 0, z: 0, w: 0 }),
        transparent_registers_table()[29] == (Vec4Bits { x: 0, y: 0, z: 0, w: 0 }),
        transparent_registers_table()[30] == (Vec4Bits { x: 0, y: 0, z: 0, w: 0 }),
        transparent_registers_table()[31] == (Vec4Bits { x: 0, y: 0, z: 0, w: 0 }),
        transparent_registers_table()[32] == (Vec4Bits { x: 0, y: 0, z: 0, w: 0 }),
        transparent_registers_table()[33] == (Vec4Bits { x: 0, y: 0, z: 0, w: 0 }),
        transparent_registers_table()[34] == (Vec4Bits { x: 0, y: 0, z: 0, w: 0 }),
        transparent_registers_table()[35] == (Vec4Bits { x: 0, y: 0, z: 0, w: 0 }),
        transparent_registers_table()[36] == (Vec4Bits { x: 0x3f80_0000, y: 0, z: 0, w: 0 }),
{
}

/// The screen reads the sky lookups, the readable shading result, the bloom that is asked for, the
/// distortion and the depth surfaces, each in its own slot.
pub proof fn law_the_screen_reads_its_surfaces(bloom: InputSource)
    ensures
        ({
            let table = screen_textures_table(bloom);
            &&& table.len() == 16
            &&& table[1].source == (InputSource::Surface { surface: Surface::SkyLookupNear })
            &&& table[2].source == (InputSource::Surface { surface: Surface::SkyLookupFar })
            &&& table[3].source == (InputSource::Surface { surface: Surface::ShadingResultRead })
            &&& table[4].source == InputSource::Absent
            &&& table[5].source == InputSource::DefaultLut
            &&& table[6].source == bloom
            &&& table[6].field == "unk40"
            &&& table[7].source == (InputSource::Surface { surface: Surface::Distortion })
            &&& table[8].source == InputSource::TemporaryVignette
            &&& table[9].source == (InputSource::Surface { surface: Surface::DepthProxy })
            &&& table[10].source == (InputSource::Surface { surface: Surface::UberDepthHalf })
            &&& table[11].source == (InputSource::Surface { surface: Surface::UberDepthQuarter })
            &&& table[12].source == (InputSource::Surface { surface: Surface::VertexAo })
            &&& table[13].source == (InputSource::Surface { surface: Surface::SkyLookupNear })
            &&& table[14].source == (InputSource::Surface { surface: Surface::SkyLookupFar })
            &&& table[15].source == InputSource::DepthAngleLookup
            &&& table[0].source == InputSource::AtmosphereLookupVertical
            &&& forall|i: int| 0 <= i < 3 ==> #[trigger] table[i].block == ExternIndex::Atmosphere
            &&& forall|i: int| 3 <= i < 9 ==> #[trigger] table[i].block == ExternIndex::ScreenArea
            &&& forall|i: int| 9 <= i < 12 ==> #[trigger] table[i].block == ExternIndex::UberDepth
            &&& table[12].block == ExternIndex::Cubemaps
            &&& forall|i: int|
                13 <= i < 16 ==> #[trigger] table[i].block == ExternIndex::Transparent
        }),
{
}

} // verus!
