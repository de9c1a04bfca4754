//! The steps that a frame is drawn in, and the debug views that choose between them.

use vstd::prelude::*;

use crate::channels::{Vec4Bits, ONE_BITS};
use crate::geometry::RenderStage;
use crate::pipelines::{GlobalScope, Pipeline};

verus! {

#[derive(Clone, Copy, Debug, PartialEq, Eq, Structural)]
pub enum RendererEra {
    Current,
    Shadowkeep,
}

/// A view of a frame that shows one of its parts.
#[derive(Clone, Copy, Debug, PartialEq, Eq, Structural)]
pub enum DebugPipeline {
    Shaded,
    ShadedNoAtm,
    ShadedNoSun,
    ShadingOnly,
    Albedo,
    Smoothness,
    Metalness,
    AmbientOcclusion,
    Emission,
    EmissionIntensity,
    Transmission,
    Overcoat,
    DepthEdges,
    WorldNormal,
    Overdraw,
    LightDiffuse,
    LightSpecular,
}

impl DebugPipeline {
    /// The view runs the shading passes.
    pub open spec fn shaded(self) -> bool {
        self == DebugPipeline::Shaded || self == DebugPipeline::ShadedNoAtm || self
            == DebugPipeline::ShadedNoSun || self == DebugPipeline::ShadingOnly
    }

    pub open spec fn atmospheric(self) -> bool {
        self == DebugPipeline::Shaded || self == DebugPipeline::ShadedNoSun
    }

    pub open spec fn sunny(self) -> bool {
        self == DebugPipeline::Shaded || self == DebugPipeline::ShadedNoAtm
    }

    pub open spec fn smoothed(self) -> bool {
        self.shaded() || self == DebugPipeline::DepthEdges || self == DebugPipeline::WorldNormal
    }

    /// The view shows a light buffer.
    pub open spec fn shows_light(self) -> bool {
        self == DebugPipeline::LightDiffuse || self == DebugPipeline::LightSpecular
    }

    pub fn is_shaded(&self) -> (result: bool)
        ensures
            result == self.shaded(),
    {
        match self {
            DebugPipeline::Shaded | DebugPipeline::ShadedNoAtm | DebugPipeline::ShadedNoSun
            | DebugPipeline::ShadingOnly => true,
            _ => false,
        }
    }

    pub fn has_atmosphere(&self) -> (result: bool)
        ensures
            result == self.atmospheric(),
    {
        match self {
            DebugPipeline::Shaded | DebugPipeline::ShadedNoSun => true,
            _ => false,
        }
    }

    pub fn has_sun(&self) -> (result: bool)
        ensures
            result == self.sunny(),
    {
        match self {
            DebugPipeline::Shaded | DebugPipeline::ShadedNoAtm => true,
            _ => false,
        }
    }

    pub fn aa_enabled(&self) -> (result: bool)
        ensures
            result == self.smoothed(),
    {
        match self {
            DebugPipeline::DepthEdges | DebugPipeline::WorldNormal => true,
            _ => self.is_shaded(),
        }
    }

    /// The pipeline that draws the view.
    pub open spec fn pipeline(self) -> Pipeline {
        match self {
            DebugPipeline::Shaded => Pipeline::DeferredShading,
            DebugPipeline::ShadedNoAtm => Pipeline::DeferredShadingNoAtm,
            DebugPipeline::ShadedNoSun => Pipeline::DeferredShading,
            DebugPipeline::ShadingOnly => Pipeline::DeferredShadingNoAtm,
            DebugPipeline::Albedo => Pipeline::DebugSourceColor,
            DebugPipeline::Smoothness => Pipeline::DebugSpecularSmoothness,
            DebugPipeline::Metalness => Pipeline::DebugMetalness,
            DebugPipeline::AmbientOcclusion => Pipeline::DebugAmbientOcclusion,
            DebugPipeline::Emission => Pipeline::DebugEmissive,
            DebugPipeline::EmissionIntensity => Pipeline::DebugEmissiveIntensity,
            DebugPipeline::Transmission => Pipeline::DebugTransmission,
            DebugPipeline::Overcoat => Pipeline::DebugColoredOvercoatId,
            DebugPipeline::DepthEdges => Pipeline::DebugDepthEdges,
            DebugPipeline::WorldNormal => Pipeline::DebugWorldNormal,
            DebugPipeline::Overdraw => Pipeline::DeferredShading,
            DebugPipeline::LightDiffuse => Pipeline::DebugDiffuseLight,
            DebugPipeline::LightSpecular => Pipeline::DebugSpecularLight,
        }
    }

    pub fn technique(&self) -> (pipeline: Pipeline)
        ensures
            pipeline == self.pipeline(),
    {
        match self {
            DebugPipeline::Shaded => Pipeline::DeferredShading,
            DebugPipeline::ShadedNoAtm => Pipeline::DeferredShadingNoAtm,
            DebugPipeline::ShadedNoSun => Pipeline::DeferredShading,
            DebugPipeline::ShadingOnly => Pipeline::DeferredShadingNoAtm,
            DebugPipeline::Albedo => Pipeline::DebugSourceColor,
            DebugPipeline::Smoothness => Pipeline::DebugSpecularSmoothness,
            DebugPipeline::Metalness => Pipeline::DebugMetalness,
            DebugPipeline::AmbientOcclusion => Pipeline::DebugAmbientOcclusion,
            DebugPipeline::Emission => Pipeline::DebugEmissive,
            DebugPipeline::EmissionIntensity => Pipeline::DebugEmissiveIntensity,
            DebugPipeline::Transmission => Pipeline::DebugTransmission,
            DebugPipeline::Overcoat => Pipeline::DebugColoredOvercoatId,
            DebugPipeline::DepthEdges => Pipeline::DebugDepthEdges,
            DebugPipeline::WorldNormal => Pipeline::DebugWorldNormal,
            DebugPipeline::Overdraw => Pipeline::DeferredShading,
            DebugPipeline::LightDiffuse => Pipeline::DebugDiffuseLight,
            DebugPipeline::LightSpecular => Pipeline::DebugSpecularLight,
        }
    }
}

/// A surface of a main view.
#[derive(Clone, Copy, Debug, PartialEq, Eq, Structural)]
pub enum Surface {
    Albedo,
    Normal,
    /// The readable copy of the normals.
    NormalRead,
    Third,
    Depth,
    DepthHalf,
    /// The readable copy of the depth surface.
    DepthProxy,
    UberDepthHalf,
    UberDepthQuarter,
    VertexAo,
    LightDiffuse,
    LightSpecular,
    LightSpecularIbl,
    ShadowMask,
    ShadingResult,
    /// The readable copy of the shading result.
    ShadingResultRead,
    Postprocess,
    Output,
    SkyMaskInitial,
    SkyMask,
    SkyLookupNear,
    SkyLookupFar,
    Distortion,
    BloomFinal,
}

/// A color that a surface is cleared to.
#[derive(Clone, Copy, Debug, PartialEq, Eq, Structural)]
pub enum Fill {
    /// Opaque black.
    Black,
    Zero,
    One,
    /// The small diffuse light that every surface receives.
    LightFloor,
}

/// The single-precision pattern of one thousandth.
pub const LIGHT_FLOOR_BITS: u32 = 0x3a83_126f;

impl Fill {
    pub open spec fn bits(self) -> Vec4Bits {
        match self {
            Fill::Black => Vec4Bits { x: 0, y: 0, z: 0, w: ONE_BITS },
            Fill::Zero => Vec4Bits { x: 0, y: 0, z: 0, w: 0 },
            Fill::One => Vec4Bits { x: ONE_BITS, y: ONE_BITS, z: ONE_BITS, w: ONE_BITS },
            Fill::LightFloor => Vec4Bits {
                x: LIGHT_FLOOR_BITS,
                y: LIGHT_FLOOR_BITS,
                z: LIGHT_FLOOR_BITS,
                w: 0,
            },
        }
    }

    /// The color as single-precision patterns.
    pub fn color(self) -> (color: Vec4Bits)
        ensures
            color == self.bits(),
    {
        match self {
            Fill::Black => Vec4Bits { x: 0, y: 0, z: 0, w: ONE_BITS },
            Fill::Zero => Vec4Bits { x: 0, y: 0, z: 0, w: 0 },
            Fill::One => Vec4Bits { x: ONE_BITS, y: ONE_BITS, z: ONE_BITS, w: ONE_BITS },
            Fill::LightFloor => Vec4Bits {
                x: LIGHT_FLOOR_BITS,
                y: LIGHT_FLOOR_BITS,
                z: LIGHT_FLOOR_BITS,
                w: 0,
            },
        }
    }
}

/// How the objects of a stage are submitted.
#[derive(Clone, Copy, Debug, PartialEq, Eq, Structural)]
pub enum SubmitOrder {
    Serial,
    ParallelApply,
    ParallelLinear,
    /// In the order in which the map lists them.
    Authored,
}

/// The feature renderers that take part in a stage.
#[derive(Clone, Copy, Debug, PartialEq, Eq, Structural)]
pub enum Features {
    All,
    AllButWater,
    SkyTransparent,
    AllButSkyAndWater,
}

/// The output-merger and rasterizer states of a draw.
#[derive(Clone, Copy, Debug, PartialEq, Eq, Structural)]
pub struct DrawState {
    pub blend: u8,
    pub depth_stencil: u8,
    pub rasterizer: u8,
    pub depth_bias: u8,
}

/// A fullscreen strip of four vertices with shaders of its own.
#[derive(Clone, Copy, Debug, PartialEq, Eq, Structural)]
pub enum Fullscreen {
    /// Lights the geometry buffers directly.
    GeometryPreview,
    /// Draws the sky where nothing else is.
    Background,
    /// Colors the overdraw counts.
    Overdraw,
}

impl Fullscreen {
    pub open spec fn inputs(self) -> Seq<Surface> {
        match self {
            Fullscreen::GeometryPreview => seq![
                Surface::Albedo,
                Surface::Normal,
                Surface::Third,
                Surface::DepthProxy,
            ],
            Fullscreen::Background => seq![Surface::DepthProxy, Surface::SkyLookupNear],
            Fullscreen::Overdraw => seq![Surface::Postprocess],
        }
    }

    /// The surfaces that the shaders read, by slot.
    pub fn sources(self) -> (surfaces: Vec<Surface>)
        ensures
            surfaces@ == self.inputs(),
    {
        let surfaces: Vec<Surface> = match self {
            Fullscreen::GeometryPreview => vec![
                Surface::Albedo,
                Surface::Normal,
                Surface::Third,
                Surface::DepthProxy,
            ],
            Fullscreen::Background => vec![Surface::DepthProxy, Surface::SkyLookupNear],
            Fullscreen::Overdraw => vec![Surface::Postprocess],
        };
        assert(surfaces@ =~= self.inputs());
        surfaces
    }
}

/// What a fullscreen strip reads from the debug constant buffer.
#[derive(Clone, Copy, Debug, PartialEq, Eq, Structural)]
pub enum DebugConstant {
    SunLightDirection,
    SkySnapshotIntensity,
}

/// The sky lookup that an atmosphere pass generates.
#[derive(Clone, Copy, Debug, PartialEq, Eq, Structural)]
pub enum SkyLookup {
    Near,
    Far,
}

/// The pipelines of the preserved atmosphere.
#[derive(Clone, Copy, Debug, PartialEq, Eq, Structural)]
pub enum AtmospherePipeline {
    SkyDirectionLookupGenerate,
    SkyLookupGenerate,
}

/// The set of captures that a surface capture belongs to.
#[derive(Clone, Copy, Debug, PartialEq, Eq, Structural)]
pub enum CaptureSet {
    BufferProvenance,
    BeforeGlobalLighting,
    AfterGlobalLighting,
    AfterFinalShading,
    /// Under the lower of the compared exposures.
    LowExposure,
    /// Under the full exposure.
    FullExposure,
    FinalCombine,
}

/// A switch that asks for something once.
#[derive(Clone, Copy, Debug, PartialEq, Eq, Structural)]
pub enum OneShot {
    BufferProvenance,
    GlobalLightingAb,
    ExposureAb,
    FinalCombineNoFilmCurve,
}

/// A pass that could not run.
#[derive(Clone, Copy, Debug, PartialEq, Eq, Structural)]
pub enum Refusal {
    ShadowViewIndex,
    ShadedPassUnavailable,
    ExposureNeedsGlobalLightingOff,
    FinalCombineNeedsGlobalLightingOff,
    FinalCombineUnavailable,
}

/// The view that a stage is submitted for.
#[derive(Clone, Copy, Debug, PartialEq, Eq, Structural)]
pub enum ViewSlot {
    Main,
    Shadow { index: u32 },
}

/// One step of a frame.
#[derive(Clone, Copy, Debug, PartialEq, Eq, Structural)]
pub enum Step {
    StoreSettings,
    StoreFeatures,
    UpdateViewInputs,
    UpdateFrameInputs,
    UpdateDepthConstants,
    UpdateWaterDisplacement,
    GlobalLightingInputs { era: RendererEra },
    AtmosphereInputs { era: RendererEra },
    WriteTransparentConstants,
    WriteFrameScope,
    MainViewInputs { era: RendererEra, bloom: bool },
    BindScope { scope: GlobalScope },
    StoreSurfaces,
    ResizeSurfaces,
    SetState { state: DrawState },
    OverrideState { state: DrawState },
    FlushStates,
    ClearDepthStencilState,
    SetStencilReference { value: u8 },
    Clear { surface: Surface, fill: Fill },
    Bind { surface: Surface, depth: Option<Surface> },
    BindLighting,
    LightViewport,
    BindLightTargets,
    BindShadowTexture,
    ClearShadowMap { depth_bits: u32 },
    BindShadowMap,
    GeometryCommandLists,
    GenerateGbuffer { recorded: bool },
    Lighting,
    Submit { view: ViewSlot, stage: RenderStage, order: SubmitOrder, features: Features },
    /// Runs a global pipeline on a strip of four vertices.
    Run { pipeline: Pipeline },
    /// Runs a preserved pipeline on a strip of six vertices.
    RunPreserved { pipeline: Pipeline },
    /// Runs a pipeline of the preserved atmosphere on a strip of six vertices.
    RunAtmosphere { atmosphere: AtmospherePipeline },
    Draw { fullscreen: Fullscreen },
    OverdrawShader { enabled: bool },
    WriteDebugConstant { constant: DebugConstant },
    PostprocessInput { source: Surface, target: Surface },
    ReplacePostprocessInput { source: Surface, target: Surface },
    SkyLookupInput { lookup: SkyLookup },
    AtmosphereBasis,
    DeferredDepth { source: Surface },
    DeriveMatrices { surface: Surface },
    TransparentInputs,
    RefreshTransparentInputs,
    UpdateShadingRead,
    Water,
    VolumeFog,
    Bloom,
    ImmediateGeometry,
    FxaaInputs,
    /// Copies a surface; `color` tells color from plain data.
    Blit { source: Surface, target: Surface, color: bool },
    Reset { switch: OneShot },
    Refuse { refusal: Refusal },
    BeginLightCapture,
    FinishLightCapture,
    Capture { set: CaptureSet, surface: Surface, clear: Option<Fill> },
    EmitLightingDependencies,
    ExposureVariants,
    WriteManifest { set: CaptureSet },
    RecordSkySubmission { stage: RenderStage },
}

/// Each view is drawn by the pipeline of its name. The four shaded views differ in their sun and
/// their atmosphere alone.
pub proof fn law_views_are_drawn_by_their_pipeline()
    ensures
        DebugPipeline::Shaded.pipeline() == Pipeline::DeferredShading,
        DebugPipeline::ShadedNoAtm.pipeline() == Pipeline::DeferredShadingNoAtm,
        DebugPipeline::ShadedNoSun.pipeline() == Pipeline::DeferredShading,
        DebugPipeline::ShadingOnly.pipeline() == Pipeline::DeferredShadingNoAtm,
        DebugPipeline::Albedo.pipeline() == Pipeline::DebugSourceColor,
        DebugPipeline::Smoothness.pipeline() == Pipeline::DebugSpecularSmoothness,
        DebugPipeline::Metalness.pipeline() == Pipeline::DebugMetalness,
        DebugPipeline::AmbientOcclusion.pipeline() == Pipeline::DebugAmbientOcclusion,
        DebugPipeline::Emission.pipeline() == Pipeline::DebugEmissive,
        DebugPipeline::EmissionIntensity.pipeline() == Pipeline::DebugEmissiveIntensity,
        DebugPipeline::Transmission.pipeline() == Pipeline::DebugTransmission,
        DebugPipeline::Overcoat.pipeline() == Pipeline::DebugColoredOvercoatId,
        DebugPipeline::DepthEdges.pipeline() == Pipeline::DebugDepthEdges,
        DebugPipeline::WorldNormal.pipeline() == Pipeline::DebugWorldNormal,
        DebugPipeline::Overdraw.pipeline() == Pipeline::DeferredShading,
        DebugPipeline::LightDiffuse.pipeline() == Pipeline::DebugDiffuseLight,
        DebugPipeline::LightSpecular.pipeline() == Pipeline::DebugSpecularLight,
        DebugPipeline::Shaded.shaded(),
        DebugPipeline::Shaded.atmospheric(),
        DebugPipeline::Shaded.sunny(),
        DebugPipeline::Shaded.smoothed(),
        !DebugPipeline::Shaded.shows_light(),
        DebugPipeline::ShadedNoAtm.shaded(),
        !DebugPipeline::ShadedNoAtm.atmospheric(),
        DebugPipeline::ShadedNoAtm.sunny(),
        DebugPipeline::ShadedNoAtm.smoothed(),
        !DebugPipeline::ShadedNoAtm.shows_light(),
        DebugPipeline::ShadedNoSun.shaded(),
        DebugPipeline::ShadedNoSun.atmospheric(),
        !DebugPipeline::ShadedNoSun.sunny(),
        DebugPipeline::ShadedNoSun.smoothed(),
        !DebugPipeline::ShadedNoSun.shows_light(),
        DebugPipeline::ShadingOnly.shaded(),
        !DebugPipeline::ShadingOnly.atmospheric(),
        !DebugPipeline::ShadingOnly.sunny(),
        DebugPipeline::ShadingOnly.smoothed(),
        !DebugPipeline::ShadingOnly.shows_light(),
        !DebugPipeline::Albedo.shaded(),
        !DebugPipeline::Albedo.atmospheric(),
        !DebugPipeline::Albedo.sunny(),
        !DebugPipeline::Albedo.smoothed(),
        !DebugPipeline::Albedo.shows_light(),
        !DebugPipeline::Smoothness.shaded(),
        !DebugPipeline::Smoothness.atmospheric(),
        !DebugPipeline::Smoothness.sunny(),
        !DebugPipeline::Smoothness.smoothed(),
        !DebugPipeline::Smoothness.shows_light(),
        !DebugPipeline::Metalness.shaded(),
        !DebugPipeline::Metalness.atmospheric(),
        !DebugPipeline::Metalness.sunny(),
        !DebugPipeline::Metalness.smoothed(),
        !DebugPipeline::Metalness.shows_light(),
        !DebugPipeline::AmbientOcclusion.shaded(),
        !DebugPipeline::AmbientOcclusion.atmospheric(),
        !DebugPipeline::AmbientOcclusion.sunny(),
        !DebugPipeline::AmbientOcclusion.smoothed(),
        !DebugPipeline::AmbientOcclusion.shows_light(),
        !DebugPipeline::Emission.shaded(),
        !DebugPipeline::Emission.atmospheric(),
        !DebugPipeline::Emission.sunny(),
        !DebugPipeline::Emission.smoothed(),
        !DebugPipeline::Emission.shows_light(),
        !DebugPipeline::EmissionIntensity.shaded(),
        !DebugPipeline::EmissionIntensity.atmospheric(),
        !DebugPipeline::EmissionIntensity.sunny(),
        !DebugPipeline::EmissionIntensity.smoothed(),
        !DebugPipeline::EmissionIntensity.shows_light(),
        !DebugPipeline::Transmission.shaded(),
        !DebugPipeline::Transmission.atmospheric(),
        !DebugPipeline::Transmission.sunny(),
        !DebugPipeline::Transmission.smoothed(),
        !DebugPipeline::Transmission.shows_light(),
        !DebugPipeline::Overcoat.shaded(),
        !DebugPipeline::Overcoat.atmospheric(),
        !DebugPipeline::Overcoat.sunny(),
        !DebugPipeline::Overcoat.smoothed(),
        !DebugPipeline::Overcoat.shows_light(),
        !DebugPipeline::DepthEdges.shaded(),
        !DebugPipeline::DepthEdges.atmospheric(),
        !DebugPipeline::DepthEdges.sunny(),
        DebugPipeline::DepthEdges.smoothed(),
        !DebugPipeline::DepthEdges.shows_light(),
        !DebugPipeline::WorldNormal.shaded(),
        !DebugPipeline::WorldNormal.atmospheric(),
        !DebugPipeline::WorldNormal.sunny(),
        DebugPipeline::WorldNormal.smoothed(),
        !DebugPipeline::WorldNormal.shows_light(),
        !DebugPipeline::Overdraw.shaded(),
        !DebugPipeline::Overdraw.atmospheric(),
        !DebugPipeline::Overdraw.sunny(),
        !DebugPipeline::Overdraw.smoothed(),
        !DebugPipeline::Overdraw.shows_light(),
        !DebugPipeline::LightDiffuse.shaded(),
        !DebugPipeline::LightDiffuse.atmospheric(),
        !DebugPipeline::LightDiffuse.sunny(),
        !DebugPipeline::LightDiffuse.smoothed(),
        DebugPipeline::LightDiffuse.shows_light(),
        !DebugPipeline::LightSpecular.shaded(),
        !DebugPipeline::LightSpecular.atmospheric(),
        !DebugPipeline::LightSpecular.sunny(),
        !DebugPipeline::LightSpecular.smoothed(),
        DebugPipeline::LightSpecular.shows_light(),
{
}

/// Black is opaque, zero is not, one is white, and the floor of the light is the same small amount
/// in all three colors.
pub proof fn law_fills_have_their_color()
    ensures
        Fill::Black.bits() == (Vec4Bits { x: 0, y: 0, z: 0, w: 0x3f80_0000 }),
        Fill::Zero.bits() == (Vec4Bits { x: 0, y: 0, z: 0, w: 0 }),
        Fill::One.bits() == (Vec4Bits {
            x: 0x3f80_0000,
            y: 0x3f80_0000,
            z: 0x3f80_0000,
            w: 0x3f80_0000,
        }),
        Fill::LightFloor.bits() == (Vec4Bits {
            x: 0x3a83_126f,
            y: 0x3a83_126f,
            z: 0x3a83_126f,
            w: 0,
        }),
{
}

/// The preview reads the three geometry buffers and the depth, the background reads the depth and
/// the near sky, and the overdraw reads the counts, slot by slot.
pub proof fn law_strips_read_their_surfaces()
    ensures
        Fullscreen::GeometryPreview.inputs().len() == 4,
        Fullscreen::GeometryPreview.inputs()[0] == Surface::Albedo,
        Fullscreen::GeometryPreview.inputs()[1] == Surface::Normal,
        Fullscreen::GeometryPreview.inputs()[2] == Surface::Third,
        Fullscreen::GeometryPreview.inputs()[3] == Surface::DepthProxy,
        Fullscreen::Background.inputs().len() == 2,
        Fullscreen::Background.inputs()[0] == Surface::DepthProxy,
        Fullscreen::Background.inputs()[1] == Surface::SkyLookupNear,
        Fullscreen::Overdraw.inputs().len() == 1,
        Fullscreen::Overdraw.inputs()[0] == Surface::Postprocess,
{
}

} // verus!
