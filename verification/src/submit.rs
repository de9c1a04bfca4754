//! The plan of a frame: which steps draw a view, in which order.

use vstd::prelude::*;

use crate::channels::ONE_BITS;
use crate::geometry::RenderStage;
use crate::globals::GlobalPipelines;
use crate::manager::AssetDiagnosticSummary;
use crate::pipelines::{GlobalScope, Pipeline};
use crate::records::capture_directory;
use crate::steps::{
    CaptureSet, DebugConstant, DebugPipeline, DrawState, Features, Fill, Fullscreen, OneShot,
    Refusal, RendererEra, SkyLookup, Step, SubmitOrder, Surface, ViewSlot,
};

verus! {

/// The switches that a frame reads.
#[derive(Clone, Copy, Debug, PartialEq, Eq, Structural)]
pub struct RenderFlags {
    pub global_lighting: bool,
    pub buffer_provenance: bool,
    pub global_lighting_ab: bool,
    pub exposure_ab: bool,
    pub final_combine_no_film_curve: bool,
    pub sky_diagnostics: bool,
    pub sky_objects_ab: bool,
}

/// The settings of a view that change its steps.
#[derive(Clone, Copy, Debug, PartialEq, Eq, Structural)]
pub struct ViewSettings {
    pub multithreading: bool,
    pub anti_aliasing: bool,
    pub bloom: bool,
}

/// A view to draw.
#[derive(Clone, Copy, Debug, PartialEq, Eq, Structural)]
pub enum ViewKind {
    Main { settings: ViewSettings },
    Shadow { index: u32, forward_depth: bool },
}

/// What the renderer knows when it plans a frame.
pub struct Renderer {
    pub era: RendererEra,
    pub flags: RenderFlags,
    pub pipelines: GlobalPipelines,
    pub assets: AssetDiagnosticSummary,
}

/// `steps` on a condition.
pub open spec fn steps_if(condition: bool, steps: Seq<Step>) -> Seq<Step> {
    if condition {
        steps
    } else {
        Seq::empty()
    }
}

pub(crate) fn extend(steps: &mut Vec<Step>, part: Vec<Step>)
    ensures
        final(steps)@ == old(steps)@ + part@,
{
    let mut i: usize = 0;
    while i < part.len()
        invariant
            i <= part@.len(),
            steps@ == old(steps)@ + part@.take(i as int),
        decreases part@.len() - i,
    {
        steps.push(part[i]);
        assert(part@.take(i + 1) =~= part@.take(i as int).push(part@[i as int]));
        i += 1;
    }
    assert(part@.take(i as int) =~= part@);
}

pub(crate) fn extend_when(steps: &mut Vec<Step>, condition: bool, part: Vec<Step>)
    ensures
        final(steps)@ == old(steps)@ + steps_if(condition, part@),
{
    if condition {
        extend(steps, part);
    } else {
        assert(steps@ =~= old(steps)@ + Seq::empty());
    }
}

pub open spec fn state(blend: u8, depth_stencil: u8, rasterizer: u8, depth_bias: u8) -> Step {
    Step::SetState { state: DrawState { blend, depth_stencil, rasterizer, depth_bias } }
}

pub(crate) fn set_state(blend: u8, depth_stencil: u8, rasterizer: u8, depth_bias: u8) -> (step: Step)
    ensures
        step == state(blend, depth_stencil, rasterizer, depth_bias),
{
    Step::SetState { state: DrawState { blend, depth_stencil, rasterizer, depth_bias } }
}

pub open spec fn submission(stage: RenderStage, order: SubmitOrder, features: Features) -> Step {
    Step::Submit { view: ViewSlot::Main, stage, order, features }
}

pub(crate) fn submit(stage: RenderStage, order: SubmitOrder, features: Features) -> (step: Step)
    ensures
        step == submission(stage, order, features),
{
    Step::Submit { view: ViewSlot::Main, stage, order, features }
}

/// Taking over the view's settings.
pub open spec fn entry_steps() -> Seq<Step> {
    seq![
        Step::StoreSettings,
        Step::StoreFeatures,
    ]
}

fn entry() -> (steps: Vec<Step>)
    ensures
        steps@ == entry_steps(),
{
    let steps: Vec<Step> = vec![
        Step::StoreSettings,
        Step::StoreFeatures,
    ];
    assert(steps@ =~= entry_steps());
    steps
}

/// The shader inputs that every view fills.
pub open spec fn shared_inputs_steps(era: RendererEra) -> Seq<Step> {
    seq![
        Step::UpdateViewInputs,
        Step::UpdateFrameInputs,
        Step::UpdateDepthConstants,
        Step::UpdateWaterDisplacement,
        Step::GlobalLightingInputs { era },
        Step::AtmosphereInputs { era },
    ]
}

fn shared_inputs(era: RendererEra) -> (steps: Vec<Step>)
    ensures
        steps@ == shared_inputs_steps(era),
{
    let steps: Vec<Step> = vec![
        Step::UpdateViewInputs,
        Step::UpdateFrameInputs,
        Step::UpdateDepthConstants,
        Step::UpdateWaterDisplacement,
        Step::GlobalLightingInputs { era },
        Step::AtmosphereInputs { era },
    ];
    assert(steps@ =~= shared_inputs_steps(era));
    steps
}

/// The fixed constants of the current era's transparent scope.
pub open spec fn transparent_constants_steps() -> Seq<Step> {
    seq![
        Step::WriteTransparentConstants,
    ]
}

fn transparent_constants() -> (steps: Vec<Step>)
    ensures
        steps@ == transparent_constants_steps(),
{
    let steps: Vec<Step> = vec![
        Step::WriteTransparentConstants,
    ];
    assert(steps@ =~= transparent_constants_steps());
    steps
}

/// The constants of the frame scope.
pub open spec fn frame_scope_steps() -> Seq<Step> {
    seq![
        Step::WriteFrameScope,
    ]
}

fn frame_scope() -> (steps: Vec<Step>)
    ensures
        steps@ == frame_scope_steps(),
{
    let steps: Vec<Step> = vec![
        Step::WriteFrameScope,
    ];
    assert(steps@ =~= frame_scope_steps());
    steps
}

/// The shader inputs of a main view.
pub open spec fn main_inputs_steps(era: RendererEra, bloom: bool) -> Seq<Step> {
    seq![
        Step::MainViewInputs { era, bloom },
    ]
}

fn main_inputs(era: RendererEra, bloom: bool) -> (steps: Vec<Step>)
    ensures
        steps@ == main_inputs_steps(era, bloom),
{
    let steps: Vec<Step> = vec![
        Step::MainViewInputs { era, bloom },
    ];
    assert(steps@ =~= main_inputs_steps(era, bloom));
    steps
}

/// The scope of the view.
pub open spec fn view_scope_steps() -> Seq<Step> {
    seq![
        Step::BindScope { scope: GlobalScope::View },
    ]
}

fn view_scope() -> (steps: Vec<Step>)
    ensures
        steps@ == view_scope_steps(),
{
    let steps: Vec<Step> = vec![
        Step::BindScope { scope: GlobalScope::View },
    ];
    assert(steps@ =~= view_scope_steps());
    steps
}

/// Taking over the surfaces of a main view.
pub open spec fn surfaces_steps() -> Seq<Step> {
    seq![
        Step::StoreSurfaces,
        Step::ResizeSurfaces,
    ]
}

fn surfaces() -> (steps: Vec<Step>)
    ensures
        steps@ == surfaces_steps(),
{
    let steps: Vec<Step> = vec![
        Step::StoreSurfaces,
        Step::ResizeSurfaces,
    ];
    assert(steps@ =~= surfaces_steps());
    steps
}

/// Reporting a pass that cannot run.
pub open spec fn refused_steps(refusal: Refusal) -> Seq<Step> {
    seq![
        Step::Refuse { refusal },
    ]
}

fn refused(refusal: Refusal) -> (steps: Vec<Step>)
    ensures
        steps@ == refused_steps(refusal),
{
    let steps: Vec<Step> = vec![
        Step::Refuse { refusal },
    ];
    assert(steps@ =~= refused_steps(refusal));
    steps
}

/// Drawing a shadow map.
pub open spec fn shadow_map_steps(index: u32, depth_bits: u32) -> Seq<Step> {
    seq![
        state(0, 2, 0, 6),
        Step::FlushStates,
        Step::BindShadowTexture,
        Step::ClearShadowMap { depth_bits },
        Step::BindShadowMap,
        Step::Submit {
            view: ViewSlot::Shadow { index },
            stage: RenderStage::ShadowGenerate,
            order: SubmitOrder::ParallelApply,
            features: Features::All,
        },
    ]
}

fn shadow_map(index: u32, depth_bits: u32) -> (steps: Vec<Step>)
    ensures
        steps@ == shadow_map_steps(index, depth_bits),
{
    let steps: Vec<Step> = vec![
        set_state(0, 2, 0, 6),
        Step::FlushStates,
        Step::BindShadowTexture,
        Step::ClearShadowMap { depth_bits },
        Step::BindShadowMap,
        Step::Submit {
            view: ViewSlot::Shadow { index },
            stage: RenderStage::ShadowGenerate,
            order: SubmitOrder::ParallelApply,
            features: Features::All,
        },
    ];
    assert(steps@ =~= shadow_map_steps(index, depth_bits));
    steps
}

/// Counting how often each pixel is drawn, and coloring the counts.
pub open spec fn overdraw_steps() -> Seq<Step> {
    seq![
        Step::GenerateGbuffer { recorded: false },
        Step::Clear { surface: Surface::Postprocess, fill: Fill::Black },
        Step::Bind { surface: Surface::Postprocess, depth: None },
        state(2, 0, 0, 0),
        Step::OverrideState {
            state: DrawState { blend: 2, depth_stencil: 0, rasterizer: 0, depth_bias: 0 },
        },
        Step::OverdrawShader { enabled: true },
        submission(RenderStage::GenerateGbuffer, SubmitOrder::ParallelLinear, Features::All),
        Step::OverdrawShader { enabled: false },
        Step::Bind { surface: Surface::Output, depth: None },
        state(0, 0, 0, 0),
        Step::FlushStates,
        Step::Draw { fullscreen: Fullscreen::Overdraw },
    ]
}

fn overdraw() -> (steps: Vec<Step>)
    ensures
        steps@ == overdraw_steps(),
{
    let steps: Vec<Step> = vec![
        Step::GenerateGbuffer { recorded: false },
        Step::Clear { surface: Surface::Postprocess, fill: Fill::Black },
        Step::Bind { surface: Surface::Postprocess, depth: None },
        set_state(2, 0, 0, 0),
        Step::OverrideState {
            state: DrawState { blend: 2, depth_stencil: 0, rasterizer: 0, depth_bias: 0 },
        },
        Step::OverdrawShader { enabled: true },
        submit(RenderStage::GenerateGbuffer, SubmitOrder::ParallelLinear, Features::All),
        Step::OverdrawShader { enabled: false },
        Step::Bind { surface: Surface::Output, depth: None },
        set_state(0, 0, 0, 0),
        Step::FlushStates,
        Step::Draw { fullscreen: Fullscreen::Overdraw },
    ];
    assert(steps@ =~= overdraw_steps());
    steps
}

/// Recording the geometry on worker threads.
pub open spec fn command_lists_steps() -> Seq<Step> {
    seq![
        Step::GeometryCommandLists,
    ]
}

fn command_lists() -> (steps: Vec<Step>)
    ensures
        steps@ == command_lists_steps(),
{
    let steps: Vec<Step> = vec![
        Step::GeometryCommandLists,
    ];
    assert(steps@ =~= command_lists_steps());
    steps
}

/// Drawing the geometry buffers.
pub open spec fn gbuffer_steps(recorded: bool) -> Seq<Step> {
    seq![
        Step::GenerateGbuffer { recorded },
    ]
}

fn gbuffer(recorded: bool) -> (steps: Vec<Step>)
    ensures
        steps@ == gbuffer_steps(recorded),
{
    let steps: Vec<Step> = vec![
        Step::GenerateGbuffer { recorded },
    ];
    assert(steps@ =~= gbuffer_steps(recorded));
    steps
}

/// Applying the lights.
pub open spec fn lighting_steps() -> Seq<Step> {
    seq![
        Step::Lighting,
    ]
}

fn lighting() -> (steps: Vec<Step>)
    ensures
        steps@ == lighting_steps(),
{
    let steps: Vec<Step> = vec![
        Step::Lighting,
    ];
    assert(steps@ =~= lighting_steps());
    steps
}

/// Masking the sky, and halving the mask.
pub open spec fn sky_mask_steps() -> Seq<Step> {
    seq![
        Step::Bind { surface: Surface::SkyMaskInitial, depth: None },
        Step::PostprocessInput { source: Surface::UberDepthHalf, target: Surface::SkyMaskInitial },
        state(0, 0, 0, 0),
        Step::Run { pipeline: Pipeline::SkyGenerateSkyMask },
        Step::Bind { surface: Surface::SkyMask, depth: None },
        Step::ReplacePostprocessInput { source: Surface::SkyMaskInitial, target: Surface::SkyMask },
        state(0, 0, 0, 0),
        Step::Run { pipeline: Pipeline::DownsampleBlock2x2 },
    ]
}

fn sky_mask() -> (steps: Vec<Step>)
    ensures
        steps@ == sky_mask_steps(),
{
    let steps: Vec<Step> = vec![
        Step::Bind { surface: Surface::SkyMaskInitial, depth: None },
        Step::PostprocessInput { source: Surface::UberDepthHalf, target: Surface::SkyMaskInitial },
        set_state(0, 0, 0, 0),
        Step::Run { pipeline: Pipeline::SkyGenerateSkyMask },
        Step::Bind { surface: Surface::SkyMask, depth: None },
        Step::ReplacePostprocessInput { source: Surface::SkyMaskInitial, target: Surface::SkyMask },
        set_state(0, 0, 0, 0),
        Step::Run { pipeline: Pipeline::DownsampleBlock2x2 },
    ];
    assert(steps@ =~= sky_mask_steps());
    steps
}

/// Generating the near and the far sky lookup.
pub open spec fn sky_lookup_steps() -> Seq<Step> {
    seq![
        Step::SkyLookupInput { lookup: SkyLookup::Near },
        Step::AtmosphereBasis,
        Step::Bind { surface: Surface::SkyLookupNear, depth: None },
        state(0, 0, 0, 0),
        Step::Run { pipeline: Pipeline::SkyLookupGenerateNear },
        Step::SkyLookupInput { lookup: SkyLookup::Far },
        Step::Bind { surface: Surface::SkyLookupFar, depth: None },
        state(0, 0, 0, 0),
        Step::Run { pipeline: Pipeline::SkyLookupGenerateFar },
    ]
}

fn sky_lookup() -> (steps: Vec<Step>)
    ensures
        steps@ == sky_lookup_steps(),
{
    let steps: Vec<Step> = vec![
        Step::SkyLookupInput { lookup: SkyLookup::Near },
        Step::AtmosphereBasis,
        Step::Bind { surface: Surface::SkyLookupNear, depth: None },
        set_state(0, 0, 0, 0),
        Step::Run { pipeline: Pipeline::SkyLookupGenerateNear },
        Step::SkyLookupInput { lookup: SkyLookup::Far },
        Step::Bind { surface: Surface::SkyLookupFar, depth: None },
        set_state(0, 0, 0, 0),
        Step::Run { pipeline: Pipeline::SkyLookupGenerateFar },
    ];
    assert(steps@ =~= sky_lookup_steps());
    steps
}

/// Shading the geometry buffers.
pub open spec fn shading_steps(pipeline: Pipeline) -> Seq<Step> {
    seq![
        Step::Clear { surface: Surface::ShadingResult, fill: Fill::Black },
        Step::Bind { surface: Surface::ShadingResult, depth: None },
        Step::ClearDepthStencilState,
        state(0, 0, 0, 0),
        Step::Run { pipeline },
    ]
}

fn shading(pipeline: Pipeline) -> (steps: Vec<Step>)
    ensures
        steps@ == shading_steps(pipeline),
{
    let steps: Vec<Step> = vec![
        Step::Clear { surface: Surface::ShadingResult, fill: Fill::Black },
        Step::Bind { surface: Surface::ShadingResult, depth: None },
        Step::ClearDepthStencilState,
        set_state(0, 0, 0, 0),
        Step::Run { pipeline },
    ];
    assert(steps@ =~= shading_steps(pipeline));
    steps
}

/// Starting the shading result anew.
pub open spec fn fresh_shading_steps() -> Seq<Step> {
    seq![
        Step::Clear { surface: Surface::ShadingResult, fill: Fill::Black },
        Step::Bind { surface: Surface::ShadingResult, depth: None },
    ]
}

fn fresh_shading() -> (steps: Vec<Step>)
    ensures
        steps@ == fresh_shading_steps(),
{
    let steps: Vec<Step> = vec![
        Step::Clear { surface: Surface::ShadingResult, fill: Fill::Black },
        Step::Bind { surface: Surface::ShadingResult, depth: None },
    ];
    assert(steps@ =~= fresh_shading_steps());
    steps
}

/// Drawing a debug view.
pub open spec fn debug_pipeline_steps(pipeline: Pipeline) -> Seq<Step> {
    seq![
        Step::Run { pipeline },
    ]
}

fn debug_pipeline(pipeline: Pipeline) -> (steps: Vec<Step>)
    ensures
        steps@ == debug_pipeline_steps(pipeline),
{
    let steps: Vec<Step> = vec![
        Step::Run { pipeline },
    ];
    assert(steps@ =~= debug_pipeline_steps(pipeline));
    steps
}

/// Lighting the geometry buffers directly.
pub open spec fn composite_steps() -> Seq<Step> {
    seq![
        Step::WriteDebugConstant { constant: DebugConstant::SunLightDirection },
        state(0, 0, 0, 0),
        Step::FlushStates,
        Step::Draw { fullscreen: Fullscreen::GeometryPreview },
    ]
}

fn composite() -> (steps: Vec<Step>)
    ensures
        steps@ == composite_steps(),
{
    let steps: Vec<Step> = vec![
        Step::WriteDebugConstant { constant: DebugConstant::SunLightDirection },
        set_state(0, 0, 0, 0),
        Step::FlushStates,
        Step::Draw { fullscreen: Fullscreen::GeometryPreview },
    ];
    assert(steps@ =~= composite_steps());
    steps
}

/// Drawing the sky behind everything.
pub open spec fn background_steps() -> Seq<Step> {
    seq![
        Step::WriteDebugConstant { constant: DebugConstant::SkySnapshotIntensity },
        state(0, 0, 0, 0),
        Step::FlushStates,
        Step::Draw { fullscreen: Fullscreen::Background },
    ]
}

fn background() -> (steps: Vec<Step>)
    ensures
        steps@ == background_steps(),
{
    let steps: Vec<Step> = vec![
        Step::WriteDebugConstant { constant: DebugConstant::SkySnapshotIntensity },
        set_state(0, 0, 0, 0),
        Step::FlushStates,
        Step::Draw { fullscreen: Fullscreen::Background },
    ];
    assert(steps@ =~= background_steps());
    steps
}

/// Drawing the additive decals, the transparents and the distortion.
pub open spec fn transparents_steps(order: SubmitOrder) -> Seq<Step> {
    seq![
        Step::DeferredDepth { source: Surface::DepthProxy },
        Step::DeriveMatrices { surface: Surface::ShadingResult },
        Step::BindScope { scope: GlobalScope::View },
        Step::BindScope { scope: GlobalScope::Transparent },
        Step::BindScope { scope: GlobalScope::TransparentAdvanced },
        Step::Bind { surface: Surface::ShadingResult, depth: Some(Surface::Depth) },
        state(8, 15, 2, 1),
        Step::FlushStates,
        submission(RenderStage::DecalsAdditive, SubmitOrder::ParallelApply, Features::All),
        state(8, 15, 2, 1),
        submission(RenderStage::Transparents, order, Features::AllButWater),
    ]
}

fn transparents(order: SubmitOrder) -> (steps: Vec<Step>)
    ensures
        steps@ == transparents_steps(order),
{
    let steps: Vec<Step> = vec![
        Step::DeferredDepth { source: Surface::DepthProxy },
        Step::DeriveMatrices { surface: Surface::ShadingResult },
        Step::BindScope { scope: GlobalScope::View },
        Step::BindScope { scope: GlobalScope::Transparent },
        Step::BindScope { scope: GlobalScope::TransparentAdvanced },
        Step::Bind { surface: Surface::ShadingResult, depth: Some(Surface::Depth) },
        set_state(8, 15, 2, 1),
        Step::FlushStates,
        submit(RenderStage::DecalsAdditive, SubmitOrder::ParallelApply, Features::All),
        set_state(8, 15, 2, 1),
        submit(RenderStage::Transparents, order, Features::AllButWater),
    ];
    assert(steps@ =~= transparents_steps(order));
    steps
}

/// Drawing the distortion, and returning to full resolution.
pub open spec fn distortion_steps() -> Seq<Step> {
    seq![
        Step::DeriveMatrices { surface: Surface::Distortion },
        Step::DeferredDepth { source: Surface::UberDepthHalf },
        Step::BindScope { scope: GlobalScope::View },
        Step::Clear { surface: Surface::Distortion, fill: Fill::Zero },
        Step::Bind { surface: Surface::Distortion, depth: Some(Surface::DepthHalf) },
        state(8, 15, 2, 1),
        Step::FlushStates,
        submission(RenderStage::Distortion, SubmitOrder::Serial, Features::All),
        Step::DeriveMatrices { surface: Surface::Output },
        Step::DeferredDepth { source: Surface::Depth },
        Step::BindScope { scope: GlobalScope::View },
    ]
}

fn distortion() -> (steps: Vec<Step>)
    ensures
        steps@ == distortion_steps(),
{
    let steps: Vec<Step> = vec![
        Step::DeriveMatrices { surface: Surface::Distortion },
        Step::DeferredDepth { source: Surface::UberDepthHalf },
        Step::BindScope { scope: GlobalScope::View },
        Step::Clear { surface: Surface::Distortion, fill: Fill::Zero },
        Step::Bind { surface: Surface::Distortion, depth: Some(Surface::DepthHalf) },
        set_state(8, 15, 2, 1),
        Step::FlushStates,
        submit(RenderStage::Distortion, SubmitOrder::Serial, Features::All),
        Step::DeriveMatrices { surface: Surface::Output },
        Step::DeferredDepth { source: Surface::Depth },
        Step::BindScope { scope: GlobalScope::View },
    ];
    assert(steps@ =~= distortion_steps());
    steps
}

/// Drawing the water over what was shaded.
pub open spec fn water_steps() -> Seq<Step> {
    seq![
        Step::UpdateShadingRead,
        Step::Water,
    ]
}

fn water() -> (steps: Vec<Step>)
    ensures
        steps@ == water_steps(),
{
    let steps: Vec<Step> = vec![
        Step::UpdateShadingRead,
        Step::Water,
    ];
    assert(steps@ =~= water_steps());
    steps
}

/// Adding volume fog.
pub open spec fn volume_fog_steps() -> Seq<Step> {
    seq![
        Step::VolumeFog,
    ]
}

fn volume_fog() -> (steps: Vec<Step>)
    ensures
        steps@ == volume_fog_steps(),
{
    let steps: Vec<Step> = vec![
        Step::VolumeFog,
    ];
    assert(steps@ =~= volume_fog_steps());
    steps
}

/// Blooming and grading the picture.
pub open spec fn grading_steps() -> Seq<Step> {
    seq![
        Step::Bloom,
        Step::SetStencilReference { value: 0 },
        Step::UpdateShadingRead,
        Step::Bind { surface: Surface::Postprocess, depth: None },
        state(0, 0, 0, 0),
        Step::Run {
            pipeline: Pipeline::ScreenAreaGlobalLut3d { distort: true, noise: false, hdr: false },
        },
    ]
}

fn grading() -> (steps: Vec<Step>)
    ensures
        steps@ == grading_steps(),
{
    let steps: Vec<Step> = vec![
        Step::Bloom,
        Step::SetStencilReference { value: 0 },
        Step::UpdateShadingRead,
        Step::Bind { surface: Surface::Postprocess, depth: None },
        set_state(0, 0, 0, 0),
        Step::Run {
            pipeline: Pipeline::ScreenAreaGlobalLut3d { distort: true, noise: false, hdr: false },
        },
    ];
    assert(steps@ =~= grading_steps());
    steps
}

/// Showing the debug view as it is.
pub open spec fn unshaded_copy_steps() -> Seq<Step> {
    seq![
        Step::UpdateShadingRead,
        Step::Bind { surface: Surface::Postprocess, depth: None },
        Step::Blit { source: Surface::ShadingResultRead, target: Surface::Postprocess, color: true },
    ]
}

fn unshaded_copy() -> (steps: Vec<Step>)
    ensures
        steps@ == unshaded_copy_steps(),
{
    let steps: Vec<Step> = vec![
        Step::UpdateShadingRead,
        Step::Bind { surface: Surface::Postprocess, depth: None },
        Step::Blit { source: Surface::ShadingResultRead, target: Surface::Postprocess, color: true },
    ];
    assert(steps@ =~= unshaded_copy_steps());
    steps
}

/// Drawing the immediate geometry.
pub open spec fn immediate_geometry_steps() -> Seq<Step> {
    seq![
        Step::Bind { surface: Surface::Postprocess, depth: Some(Surface::Depth) },
        state(0, 2, 2, 0),
        Step::FlushStates,
        Step::ImmediateGeometry,
        state(0, 0, 0, 0),
    ]
}

fn immediate_geometry() -> (steps: Vec<Step>)
    ensures
        steps@ == immediate_geometry_steps(),
{
    let steps: Vec<Step> = vec![
        Step::Bind { surface: Surface::Postprocess, depth: Some(Surface::Depth) },
        set_state(0, 2, 2, 0),
        Step::FlushStates,
        Step::ImmediateGeometry,
        set_state(0, 0, 0, 0),
    ];
    assert(steps@ =~= immediate_geometry_steps());
    steps
}

/// Smoothing the edges of the picture.
pub open spec fn fxaa_steps() -> Seq<Step> {
    seq![
        Step::Bind { surface: Surface::Output, depth: None },
        Step::FxaaInputs,
        Step::Run { pipeline: Pipeline::Fxaa },
    ]
}

fn fxaa() -> (steps: Vec<Step>)
    ensures
        steps@ == fxaa_steps(),
{
    let steps: Vec<Step> = vec![
        Step::Bind { surface: Surface::Output, depth: None },
        Step::FxaaInputs,
        Step::Run { pipeline: Pipeline::Fxaa },
    ];
    assert(steps@ =~= fxaa_steps());
    steps
}

/// Copying to the output.
pub open spec fn output_copy_steps(source: Surface) -> Seq<Step> {
    seq![
        Step::Bind { surface: Surface::Output, depth: None },
        Step::Blit { source, target: Surface::Output, color: true },
    ]
}

fn output_copy(source: Surface) -> (steps: Vec<Step>)
    ensures
        steps@ == output_copy_steps(source),
{
    let steps: Vec<Step> = vec![
        Step::Bind { surface: Surface::Output, depth: None },
        Step::Blit { source, target: Surface::Output, color: true },
    ];
    assert(steps@ =~= output_copy_steps(source));
    steps
}

/// Showing a buffer in the output.
pub open spec fn buffer_view_steps(source: Surface, color: bool) -> Seq<Step> {
    seq![
        Step::Blit { source, target: Surface::Output, color },
    ]
}

fn buffer_view(source: Surface, color: bool) -> (steps: Vec<Step>)
    ensures
        steps@ == buffer_view_steps(source, color),
{
    let steps: Vec<Step> = vec![
        Step::Blit { source, target: Surface::Output, color },
    ];
    assert(steps@ =~= buffer_view_steps(source, color));
    steps
}

/// Showing the geometry buffers lit directly.
pub open spec fn preview_steps() -> Seq<Step> {
    seq![
        Step::Clear { surface: Surface::Output, fill: Fill::Black },
        Step::Bind { surface: Surface::Output, depth: None },
        Step::ClearDepthStencilState,
        state(0, 0, 0, 0),
        Step::FlushStates,
        Step::Draw { fullscreen: Fullscreen::GeometryPreview },
    ]
}

fn preview() -> (steps: Vec<Step>)
    ensures
        steps@ == preview_steps(),
{
    let steps: Vec<Step> = vec![
        Step::Clear { surface: Surface::Output, fill: Fill::Black },
        Step::Bind { surface: Surface::Output, depth: None },
        Step::ClearDepthStencilState,
        set_state(0, 0, 0, 0),
        Step::FlushStates,
        Step::Draw { fullscreen: Fullscreen::GeometryPreview },
    ];
    assert(steps@ =~= preview_steps());
    steps
}

/// Taking back a switch.
pub open spec fn reset_steps(switch: OneShot) -> Seq<Step> {
    seq![
        Step::Reset { switch },
    ]
}

fn reset(switch: OneShot) -> (steps: Vec<Step>)
    ensures
        steps@ == reset_steps(switch),
{
    let steps: Vec<Step> = vec![
        Step::Reset { switch },
    ];
    assert(steps@ =~= reset_steps(switch));
    steps
}

/// Starting the light buffers anew.
pub open spec fn light_clears_steps() -> Seq<Step> {
    seq![
        Step::Clear { surface: Surface::LightDiffuse, fill: Fill::LightFloor },
        Step::Clear { surface: Surface::LightSpecular, fill: Fill::Zero },
        Step::Clear { surface: Surface::LightSpecularIbl, fill: Fill::Zero },
        Step::Clear { surface: Surface::ShadowMask, fill: Fill::One },
    ]
}

fn light_clears() -> (steps: Vec<Step>)
    ensures
        steps@ == light_clears_steps(),
{
    let steps: Vec<Step> = vec![
        Step::Clear { surface: Surface::LightDiffuse, fill: Fill::LightFloor },
        Step::Clear { surface: Surface::LightSpecular, fill: Fill::Zero },
        Step::Clear { surface: Surface::LightSpecularIbl, fill: Fill::Zero },
        Step::Clear { surface: Surface::ShadowMask, fill: Fill::One },
    ];
    assert(steps@ =~= light_clears_steps());
    steps
}

/// Counting the light draws from here on.
pub open spec fn light_capture_begin_steps() -> Seq<Step> {
    seq![
        Step::BeginLightCapture,
    ]
}

fn light_capture_begin() -> (steps: Vec<Step>)
    ensures
        steps@ == light_capture_begin_steps(),
{
    let steps: Vec<Step> = vec![
        Step::BeginLightCapture,
    ];
    assert(steps@ =~= light_capture_begin_steps());
    steps
}

/// Counting the light draws up to here.
pub open spec fn light_capture_finish_steps() -> Seq<Step> {
    seq![
        Step::FinishLightCapture,
    ]
}

fn light_capture_finish() -> (steps: Vec<Step>)
    ensures
        steps@ == light_capture_finish_steps(),
{
    let steps: Vec<Step> = vec![
        Step::FinishLightCapture,
    ];
    assert(steps@ =~= light_capture_finish_steps());
    steps
}

/// Applying the lights of the map.
pub open spec fn local_lights_steps() -> Seq<Step> {
    seq![
        Step::BindLighting,
        Step::LightViewport,
        Step::BindLightTargets,
        state(8, 0, 2, 2),
        Step::FlushStates,
        submission(RenderStage::LightingApply, SubmitOrder::Serial, Features::All),
    ]
}

fn local_lights() -> (steps: Vec<Step>)
    ensures
        steps@ == local_lights_steps(),
{
    let steps: Vec<Step> = vec![
        Step::BindLighting,
        Step::LightViewport,
        Step::BindLightTargets,
        set_state(8, 0, 2, 2),
        Step::FlushStates,
        submit(RenderStage::LightingApply, SubmitOrder::Serial, Features::All),
    ];
    assert(steps@ =~= local_lights_steps());
    steps
}

/// Shading the geometry buffers with the preserved pipeline.
pub open spec fn deferred_steps() -> Seq<Step> {
    seq![
        Step::Clear { surface: Surface::ShadingResult, fill: Fill::Black },
        Step::Bind { surface: Surface::ShadingResult, depth: None },
        Step::ClearDepthStencilState,
        state(0, 0, 0, 0),
        Step::RunPreserved { pipeline: Pipeline::DeferredShadingNoAtm },
    ]
}

fn deferred() -> (steps: Vec<Step>)
    ensures
        steps@ == deferred_steps(),
{
    let steps: Vec<Step> = vec![
        Step::Clear { surface: Surface::ShadingResult, fill: Fill::Black },
        Step::Bind { surface: Surface::ShadingResult, depth: None },
        Step::ClearDepthStencilState,
        set_state(0, 0, 0, 0),
        Step::RunPreserved { pipeline: Pipeline::DeferredShadingNoAtm },
    ];
    assert(steps@ =~= deferred_steps());
    steps
}

/// Capturing what global lighting changes.
pub open spec fn lighting_captures_steps(set: CaptureSet) -> Seq<Step> {
    seq![
        Step::Capture { set: set, surface: Surface::LightDiffuse, clear: Some(Fill::LightFloor) },
        Step::Capture { set: set, surface: Surface::LightSpecular, clear: Some(Fill::Zero) },
        Step::Capture { set: set, surface: Surface::LightSpecularIbl, clear: Some(Fill::Zero) },
        Step::Capture { set: set, surface: Surface::ShadingResult, clear: Some(Fill::Black) },
        Step::Capture { set: set, surface: Surface::Output, clear: None },
    ]
}

fn lighting_captures(set: CaptureSet) -> (steps: Vec<Step>)
    ensures
        steps@ == lighting_captures_steps(set),
{
    let steps: Vec<Step> = vec![
        Step::Capture { set: set, surface: Surface::LightDiffuse, clear: Some(Fill::LightFloor) },
        Step::Capture { set: set, surface: Surface::LightSpecular, clear: Some(Fill::Zero) },
        Step::Capture { set: set, surface: Surface::LightSpecularIbl, clear: Some(Fill::Zero) },
        Step::Capture { set: set, surface: Surface::ShadingResult, clear: Some(Fill::Black) },
        Step::Capture { set: set, surface: Surface::Output, clear: None },
    ];
    assert(steps@ =~= lighting_captures_steps(set));
    steps
}

/// Returning to the light buffers.
pub open spec fn light_targets_steps() -> Seq<Step> {
    seq![
        Step::BindLightTargets,
    ]
}

fn light_targets() -> (steps: Vec<Step>)
    ensures
        steps@ == light_targets_steps(),
{
    let steps: Vec<Step> = vec![
        Step::BindLightTargets,
    ];
    assert(steps@ =~= light_targets_steps());
    steps
}

/// Applying the global light.
pub open spec fn global_lighting_steps() -> Seq<Step> {
    seq![
        state(8, 0, 0, 0),
        Step::RunPreserved { pipeline: Pipeline::GlobalLighting },
        Step::EmitLightingDependencies,
    ]
}

fn global_lighting() -> (steps: Vec<Step>)
    ensures
        steps@ == global_lighting_steps(),
{
    let steps: Vec<Step> = vec![
        set_state(8, 0, 0, 0),
        Step::RunPreserved { pipeline: Pipeline::GlobalLighting },
        Step::EmitLightingDependencies,
    ];
    assert(steps@ =~= global_lighting_steps());
    steps
}

/// Capturing what shading reads.
pub open spec fn input_captures_steps() -> Seq<Step> {
    seq![
        Step::Capture { set: CaptureSet::BufferProvenance, surface: Surface::Albedo, clear: None },
        Step::Capture { set: CaptureSet::BufferProvenance, surface: Surface::Normal, clear: None },
        Step::Capture { set: CaptureSet::BufferProvenance, surface: Surface::Third, clear: None },
        Step::Capture { set: CaptureSet::BufferProvenance, surface: Surface::Depth, clear: None },
        Step::Capture {
            set: CaptureSet::BufferProvenance,
            surface: Surface::LightDiffuse,
            clear: Some(Fill::LightFloor),
        },
        Step::Capture {
            set: CaptureSet::BufferProvenance,
            surface: Surface::LightSpecular,
            clear: Some(Fill::Zero),
        },
    ]
}

fn input_captures() -> (steps: Vec<Step>)
    ensures
        steps@ == input_captures_steps(),
{
    let steps: Vec<Step> = vec![
        Step::Capture { set: CaptureSet::BufferProvenance, surface: Surface::Albedo, clear: None },
        Step::Capture { set: CaptureSet::BufferProvenance, surface: Surface::Normal, clear: None },
        Step::Capture { set: CaptureSet::BufferProvenance, surface: Surface::Third, clear: None },
        Step::Capture { set: CaptureSet::BufferProvenance, surface: Surface::Depth, clear: None },
        Step::Capture {
            set: CaptureSet::BufferProvenance,
            surface: Surface::LightDiffuse,
            clear: Some(Fill::LightFloor),
        },
        Step::Capture {
            set: CaptureSet::BufferProvenance,
            surface: Surface::LightSpecular,
            clear: Some(Fill::Zero),
        },
    ];
    assert(steps@ =~= input_captures_steps());
    steps
}

/// Capturing what shading wrote.
pub open spec fn output_captures_steps(set: CaptureSet) -> Seq<Step> {
    seq![
        Step::Capture { set: set, surface: Surface::ShadingResult, clear: None },
        Step::Capture { set: set, surface: Surface::Output, clear: None },
    ]
}

fn output_captures(set: CaptureSet) -> (steps: Vec<Step>)
    ensures
        steps@ == output_captures_steps(set),
{
    let steps: Vec<Step> = vec![
        Step::Capture { set: set, surface: Surface::ShadingResult, clear: None },
        Step::Capture { set: set, surface: Surface::Output, clear: None },
    ];
    assert(steps@ =~= output_captures_steps(set));
    steps
}

/// Writing down a set of captures.
pub open spec fn manifest_steps(set: CaptureSet) -> Seq<Step> {
    seq![
        Step::WriteManifest { set },
    ]
}

fn manifest(set: CaptureSet) -> (steps: Vec<Step>)
    ensures
        steps@ == manifest_steps(set),
{
    let steps: Vec<Step> = vec![
        Step::WriteManifest { set },
    ];
    assert(steps@ =~= manifest_steps(set));
    steps
}

/// Shading the frame under other exposures, and returning to its own.
pub open spec fn exposure_variants_steps() -> Seq<Step> {
    seq![
        Step::ExposureVariants,
        Step::WriteFrameScope,
        Step::WriteManifest { set: CaptureSet::FullExposure },
    ]
}

fn exposure_variants() -> (steps: Vec<Step>)
    ensures
        steps@ == exposure_variants_steps(),
{
    let steps: Vec<Step> = vec![
        Step::ExposureVariants,
        Step::WriteFrameScope,
        Step::WriteManifest { set: CaptureSet::FullExposure },
    ];
    assert(steps@ =~= exposure_variants_steps());
    steps
}

/// Combining the picture without a film curve.
pub open spec fn final_combine_steps() -> Seq<Step> {
    seq![
        Step::UpdateShadingRead,
        Step::PostprocessInput { source: Surface::ShadingResultRead, target: Surface::Postprocess },
        Step::Clear { surface: Surface::Postprocess, fill: Fill::Black },
        Step::Bind { surface: Surface::Postprocess, depth: None },
        Step::ClearDepthStencilState,
        state(0, 0, 0, 0),
        Step::RunPreserved { pipeline: Pipeline::FinalCombineNoFilmCurve },
        Step::Capture { set: CaptureSet::FinalCombine, surface: Surface::Postprocess, clear: None },
        Step::WriteManifest { set: CaptureSet::FinalCombine },
    ]
}

fn final_combine() -> (steps: Vec<Step>)
    ensures
        steps@ == final_combine_steps(),
{
    let steps: Vec<Step> = vec![
        Step::UpdateShadingRead,
        Step::PostprocessInput { source: Surface::ShadingResultRead, target: Surface::Postprocess },
        Step::Clear { surface: Surface::Postprocess, fill: Fill::Black },
        Step::Bind { surface: Surface::Postprocess, depth: None },
        Step::ClearDepthStencilState,
        set_state(0, 0, 0, 0),
        Step::RunPreserved { pipeline: Pipeline::FinalCombineNoFilmCurve },
        Step::Capture { set: CaptureSet::FinalCombine, surface: Surface::Postprocess, clear: None },
        Step::WriteManifest { set: CaptureSet::FinalCombine },
    ];
    assert(steps@ =~= final_combine_steps());
    steps
}

/// The steps that fill the shader inputs of a view.
pub open spec fn input_steps(era: RendererEra, view: ViewKind) -> Seq<Step> {
    shared_inputs_steps(era) + steps_if(era == RendererEra::Current, transparent_constants_steps())
        + frame_scope_steps() + match view {
        ViewKind::Main { settings } => main_inputs_steps(era, settings.bloom),
        ViewKind::Shadow { .. } => Seq::empty(),
    }
}

fn inputs(era: RendererEra, view: ViewKind) -> (steps: Vec<Step>)
    ensures
        steps@ == input_steps(era, view),
{
    let mut steps = shared_inputs(era);
    extend_when(&mut steps, era == RendererEra::Current, transparent_constants());
    extend(&mut steps, frame_scope());
    match view {
        ViewKind::Main { settings } => {
            extend(&mut steps, main_inputs(era, settings.bloom));
        },
        ViewKind::Shadow { .. } => {
            assert(steps@ =~= input_steps(era, view));
        },
    }
    steps
}

/// How many shadow views there can be.
pub const SHADOW_VIEWS: u32 = 32;

/// A shadow view is drawn from the far end of its depth range on.
pub open spec fn shadow_steps(index: u32, forward_depth: bool) -> Seq<Step> {
    if index >= SHADOW_VIEWS {
        refused_steps(Refusal::ShadowViewIndex)
    } else {
        shadow_map_steps(index, if forward_depth { ONE_BITS } else { 0 })
    }
}

fn submit_shadow_view(index: u32, forward_depth: bool) -> (steps: Vec<Step>)
    ensures
        steps@ == shadow_steps(index, forward_depth),
{
    if index >= SHADOW_VIEWS {
        return refused(Refusal::ShadowViewIndex);
    }
    shadow_map(index, if forward_depth { ONE_BITS } else { 0 })
}

/// Without a debug view, or with one that has a property.
pub open spec fn none_or(debug: Option<DebugPipeline>, property: bool) -> bool {
    debug is None || property
}

/// A debug view asks for the lighting pass.
pub open spec fn lit_by_request(debug: Option<DebugPipeline>) -> bool {
    debug is Some && (debug->Some_0.shows_light() || debug->Some_0.shaded())
}

/// Drawing what is asked for into the shading result.
pub open spec fn debug_view_steps(debug: Option<DebugPipeline>) -> Seq<Step> {
    fresh_shading_steps() + match debug {
        Some(view) => debug_pipeline_steps(view.pipeline()),
        None => composite_steps(),
    }
}

fn debug_view(debug: Option<DebugPipeline>) -> (steps: Vec<Step>)
    ensures
        steps@ == debug_view_steps(debug),
{
    let mut steps = fresh_shading();
    match debug {
        Some(view) => {
            extend(&mut steps, debug_pipeline(view.technique()));
        },
        None => {
            extend(&mut steps, composite());
        },
    }
    steps
}

/// Finishing a shaded picture.
pub open spec fn finished_steps(multithreading: bool, fog: bool) -> Seq<Step> {
    transparents_steps(
        if multithreading {
            SubmitOrder::ParallelLinear
        } else {
            SubmitOrder::Serial
        },
    ) + distortion_steps() + water_steps() + steps_if(fog, volume_fog_steps()) + grading_steps()
}

fn finished(multithreading: bool, fog: bool) -> (steps: Vec<Step>)
    ensures
        steps@ == finished_steps(multithreading, fog),
{
    let mut steps = transparents(
        if multithreading {
            SubmitOrder::ParallelLinear
        } else {
            SubmitOrder::Serial
        },
    );
    extend(&mut steps, distortion());
    extend(&mut steps, water());
    extend_when(&mut steps, fog, volume_fog());
    extend(&mut steps, grading());
    steps
}

/// Bringing the picture to the output.
pub open spec fn presented_steps(smoothed: bool, anti_aliasing: bool) -> Seq<Step> {
    if smoothed {
        if anti_aliasing {
            fxaa_steps()
        } else {
            output_copy_steps(Surface::Postprocess)
        }
    } else {
        output_copy_steps(Surface::ShadingResultRead)
    }
}

fn presented(smoothed: bool, anti_aliasing: bool) -> (steps: Vec<Step>)
    ensures
        steps@ == presented_steps(smoothed, anti_aliasing),
{
    if smoothed {
        if anti_aliasing {
            fxaa()
        } else {
            output_copy(Surface::Postprocess)
        }
    } else {
        output_copy(Surface::ShadingResultRead)
    }
}

/// The current era's passes after the geometry buffers.
pub open spec fn current_steps(
    global_lighting: bool,
    settings: ViewSettings,
    debug: Option<DebugPipeline>,
) -> Seq<Step> {
    steps_if(lit_by_request(debug), lighting_steps()) + sky_mask_steps() + sky_lookup_steps()
        + shading_steps(
        if global_lighting {
            Pipeline::GlobalLightingAndShadingGel
        } else {
            Pipeline::DeferredShading
        },
    ) + debug_view_steps(debug) + steps_if(
        none_or(debug, debug is Some && debug->Some_0.atmospheric()),
        background_steps(),
    ) + (if none_or(debug, debug is Some && debug->Some_0.shaded()) {
        finished_steps(settings.multithreading, debug is Some)
    } else {
        unshaded_copy_steps()
    }) + immediate_geometry_steps() + presented_steps(
        none_or(debug, debug is Some && debug->Some_0.smoothed()),
        settings.anti_aliasing,
    )
}

fn submit_current(global_lighting: bool, settings: ViewSettings, debug: Option<DebugPipeline>) -> (steps:
    Vec<Step>)
    ensures
        steps@ == current_steps(global_lighting, settings, debug),
{
    let mut lit = false;
    let mut atmospheric = true;
    let mut shaded = true;
    let mut smoothed = true;
    match debug {
        Some(view) => {
            shaded = view.is_shaded();
            lit = shaded || view == DebugPipeline::LightDiffuse || view
                == DebugPipeline::LightSpecular;
            atmospheric = view.has_atmosphere();
            smoothed = view.aa_enabled();
        },
        None => {},
    }
    let pipeline = if global_lighting {
        Pipeline::GlobalLightingAndShadingGel
    } else {
        Pipeline::DeferredShading
    };
    let mut steps: Vec<Step> = Vec::new();
    extend_when(&mut steps, lit, lighting());
    assert(steps@ =~= steps_if(lit, lighting_steps()));
    extend(&mut steps, sky_mask());
    extend(&mut steps, sky_lookup());
    extend(&mut steps, shading(pipeline));
    extend(&mut steps, debug_view(debug));
    extend_when(&mut steps, atmospheric, background());
    if shaded {
        extend(&mut steps, finished(settings.multithreading, debug.is_some()));
    } else {
        extend(&mut steps, unshaded_copy());
    }
    extend(&mut steps, immediate_geometry());
    extend(&mut steps, presented(smoothed, settings.anti_aliasing));
    steps
}

/// What a debug view of the preserved renderer shows without any lighting.
pub enum BufferView {
    Buffer { source: Surface, color: bool },
    Preview,
}

/// The views that show the geometry buffers depend on no later pass.
pub open spec fn shown_buffer(debug: Option<DebugPipeline>) -> Option<BufferView> {
    match debug {
        Some(DebugPipeline::Albedo) => Some(
            BufferView::Buffer { source: Surface::Albedo, color: true },
        ),
        Some(DebugPipeline::WorldNormal) => Some(
            BufferView::Buffer { source: Surface::Normal, color: false },
        ),
        Some(DebugPipeline::Smoothness)
        | Some(DebugPipeline::Metalness)
        | Some(DebugPipeline::AmbientOcclusion)
        | Some(DebugPipeline::Emission)
        | Some(DebugPipeline::EmissionIntensity)
        | Some(DebugPipeline::Transmission)
        | Some(DebugPipeline::Overcoat) => Some(
            BufferView::Buffer { source: Surface::Third, color: false },
        ),
        Some(DebugPipeline::DepthEdges) => Some(
            BufferView::Buffer { source: Surface::DepthProxy, color: false },
        ),
        Some(DebugPipeline::Overdraw) => Some(BufferView::Preview),
        _ => None,
    }
}

fn buffer_to_show(debug: Option<DebugPipeline>) -> (view: Option<BufferView>)
    ensures
        view == shown_buffer(debug),
{
    match debug {
        Some(DebugPipeline::Albedo) => Some(
            BufferView::Buffer { source: Surface::Albedo, color: true },
        ),
        Some(DebugPipeline::WorldNormal) => Some(
            BufferView::Buffer { source: Surface::Normal, color: false },
        ),
        Some(DebugPipeline::Smoothness)
        | Some(DebugPipeline::Metalness)
        | Some(DebugPipeline::AmbientOcclusion)
        | Some(DebugPipeline::Emission)
        | Some(DebugPipeline::EmissionIntensity)
        | Some(DebugPipeline::Transmission)
        | Some(DebugPipeline::Overcoat) => Some(
            BufferView::Buffer { source: Surface::Third, color: false },
        ),
        Some(DebugPipeline::DepthEdges) => Some(
            BufferView::Buffer { source: Surface::DepthProxy, color: false },
        ),
        Some(DebugPipeline::Overdraw) => Some(BufferView::Preview),
        _ => None,
    }
}

/// Comparing exposures on request, while global lighting is off.
pub open spec fn exposure_steps(flags: RenderFlags) -> Seq<Step> {
    steps_if(
        flags.exposure_ab,
        reset_steps(OneShot::ExposureAb) + (if flags.global_lighting {
            refused_steps(Refusal::ExposureNeedsGlobalLightingOff)
        } else {
            exposure_variants_steps()
        }),
    )
}

fn exposure(flags: RenderFlags) -> (steps: Vec<Step>)
    ensures
        steps@ == exposure_steps(flags),
{
    if !flags.exposure_ab {
        return Vec::new();
    }
    let mut steps = reset(OneShot::ExposureAb);
    if flags.global_lighting {
        extend(&mut steps, refused(Refusal::ExposureNeedsGlobalLightingOff));
    } else {
        extend(&mut steps, exposure_variants());
    }
    steps
}

/// An exposure to compare, and the set that its captures belong to.
#[derive(Clone, Copy, Debug, PartialEq, Eq, Structural)]
pub struct ExposureVariant {
    pub scale_bits: u32,
    pub set: CaptureSet,
}

/// The steps of one exposure variant, once its exposure is set.
pub open spec fn exposure_variant_steps(variant: ExposureVariant) -> Seq<Step> {
    deferred_steps() + buffer_view_steps(Surface::ShadingResult, true) + output_captures_steps(
        variant.set,
    )
}

/// Plans one exposure variant.
pub fn plan_exposure_variant(variant: ExposureVariant) -> (steps: Vec<Step>)
    ensures
        steps@ == exposure_variant_steps(variant),
{
    let mut steps = deferred();
    extend(&mut steps, buffer_view(Surface::ShadingResult, true));
    extend(&mut steps, output_captures(variant.set));
    steps
}

/// The single-precision pattern of one twentieth.
pub const LOW_EXPOSURE_BITS: u32 = 0x3d4c_cccd;

/// The exposures to compare, in turn.
pub open spec fn compared_exposures() -> Seq<ExposureVariant> {
    seq![
        ExposureVariant { scale_bits: LOW_EXPOSURE_BITS, set: CaptureSet::LowExposure },
        ExposureVariant { scale_bits: ONE_BITS, set: CaptureSet::FullExposure },
    ]
}

/// The exposure to set after `done` variants: none after the last one, nor after one whose
/// exposure could not be set.
pub fn next_exposure(done: usize, written: bool) -> (exposure: Option<ExposureVariant>)
    ensures
        exposure == if written && done < compared_exposures().len() {
            Some(compared_exposures()[done as int])
        } else {
            None
        },
{
    if !written {
        None
    } else if done == 0 {
        Some(ExposureVariant { scale_bits: LOW_EXPOSURE_BITS, set: CaptureSet::LowExposure })
    } else if done == 1 {
        Some(ExposureVariant { scale_bits: ONE_BITS, set: CaptureSet::FullExposure })
    } else {
        None
    }
}

/// The directory that the captures after `done` variants are written to.
pub fn exposure_directory(done: usize) -> (directory: Option<&'static str>)
    ensures
        match directory {
            Some(path) => done < compared_exposures().len() && path@ == crate::records::directory_of(
                compared_exposures()[done as int].set,
            ),
            None => done >= compared_exposures().len(),
        },
{
    match next_exposure(done, true) {
        Some(variant) => Some(capture_directory(variant.set)),
        None => None,
    }
}

/// The compared exposures differ, and each keeps its captures in a directory of its own.
pub proof fn law_exposures_stay_apart(first: int, second: int)
    requires
        0 <= first < second < compared_exposures().len(),
    ensures
        compared_exposures()[first].scale_bits != compared_exposures()[second].scale_bits,
        crate::records::directory_of(compared_exposures()[first].set) != crate::records::directory_of(
            compared_exposures()[second].set,
        ),
{
    reveal_strlit("artifacts/shadowkeep-exposure-ab/exposure-0.05");
    reveal_strlit("artifacts/shadowkeep-exposure-ab/exposure-1.0");
    assert(crate::records::directory_of(compared_exposures()[first].set).len() == 46);
    assert(crate::records::directory_of(compared_exposures()[second].set).len() == 45);
}

/// Tells whether the manifest of a set is written, from how many of its surfaces were captured.
/// Only combining without a film curve writes none where its one capture failed.
pub fn writes_manifest(set: CaptureSet, captured: usize) -> (written: bool)
    ensures
        written == (set == CaptureSet::FinalCombine ==> captured > 0),
{
    set != CaptureSet::FinalCombine || captured > 0
}

impl Renderer {
    pub open spec fn wf(self) -> bool {
        self.pipelines.wf()
    }

    pub open spec fn has(self, pipeline: Pipeline) -> bool {
        self.pipelines.slot(pipeline).0 is Some
    }

    /// No asset is waiting to be read or being read.
    pub open spec fn settled(self) -> bool {
        self.assets.queued == 0 && self.assets.loading == 0
    }

    pub open spec fn wants_global_lighting(self, debug: Option<DebugPipeline>) -> bool {
        self.flags.global_lighting && none_or(debug, debug is Some && debug->Some_0.sunny())
    }

    /// The preserved pipelines that a shaded frame needs are there.
    pub open spec fn can_shade(self, debug: Option<DebugPipeline>) -> bool {
        self.has(Pipeline::DeferredShadingNoAtm) && (self.wants_global_lighting(debug) ==> self.has(
            Pipeline::GlobalLighting,
        ))
    }

    pub open spec fn captures_buffers(self) -> bool {
        self.flags.buffer_provenance && self.settled()
    }

    pub open spec fn compares_global_lighting(self) -> bool {
        self.flags.global_lighting_ab && self.settled()
    }

    /// Combining without a film curve on request, while global lighting is off.
    pub open spec fn combine_steps(self) -> Seq<Step> {
        steps_if(
            self.flags.final_combine_no_film_curve,
            reset_steps(OneShot::FinalCombineNoFilmCurve) + (if self.flags.global_lighting {
                refused_steps(Refusal::FinalCombineNeedsGlobalLightingOff)
            } else if !self.has(Pipeline::FinalCombineNoFilmCurve) {
                refused_steps(Refusal::FinalCombineUnavailable)
            } else {
                final_combine_steps()
            }),
        )
    }

    fn combine(&self) -> (steps: Vec<Step>)
        requires
            self.wf(),
        ensures
            steps@ == self.combine_steps(),
    {
        if !self.flags.final_combine_no_film_curve {
            return Vec::new();
        }
        let mut steps = reset(OneShot::FinalCombineNoFilmCurve);
        if self.flags.global_lighting {
            extend(&mut steps, refused(Refusal::FinalCombineNeedsGlobalLightingOff));
        } else if !self.pipelines.get(Pipeline::FinalCombineNoFilmCurve).is_available() {
            extend(&mut steps, refused(Refusal::FinalCombineUnavailable));
        } else {
            extend(&mut steps, final_combine());
        }
        steps
    }

    /// Filling the light buffers from the lights of the map.
    pub open spec fn light_steps(self) -> Seq<Step> {
        steps_if(self.captures_buffers(), reset_steps(OneShot::BufferProvenance)) + steps_if(
            self.compares_global_lighting(),
            reset_steps(OneShot::GlobalLightingAb),
        ) + light_clears_steps() + steps_if(self.captures_buffers(), light_capture_begin_steps())
            + local_lights_steps() + steps_if(self.captures_buffers(), light_capture_finish_steps())
    }

    fn light(&self) -> (steps: Vec<Step>)
        ensures
            steps@ == self.light_steps(),
    {
        let captures = self.flags.buffer_provenance && self.assets.queued == 0
            && self.assets.loading == 0;
        let compares = self.flags.global_lighting_ab && self.assets.queued == 0
            && self.assets.loading == 0;
        let mut steps: Vec<Step> = Vec::new();
        extend_when(&mut steps, captures, reset(OneShot::BufferProvenance));
        assert(steps@ =~= steps_if(captures, reset_steps(OneShot::BufferProvenance)));
        extend_when(&mut steps, compares, reset(OneShot::GlobalLightingAb));
        extend(&mut steps, light_clears());
        extend_when(&mut steps, captures, light_capture_begin());
        extend(&mut steps, local_lights());
        extend_when(&mut steps, captures, light_capture_finish());
        steps
    }

    /// The frame as it is without global lighting, captured from the same lights.
    pub open spec fn baseline_steps(self) -> Seq<Step> {
        deferred_steps() + buffer_view_steps(Surface::ShadingResult, true) + lighting_captures_steps(
            CaptureSet::BeforeGlobalLighting,
        )
    }

    fn baseline(&self) -> (steps: Vec<Step>)
        ensures
            steps@ == self.baseline_steps(),
    {
        let mut steps = deferred();
        extend(&mut steps, buffer_view(Surface::ShadingResult, true));
        extend(&mut steps, lighting_captures(CaptureSet::BeforeGlobalLighting));
        steps
    }

    /// Adding the global light.
    pub open spec fn global_light_steps(self, debug: Option<DebugPipeline>) -> Seq<Step> {
        steps_if(self.compares_global_lighting(), self.baseline_steps()) + light_targets_steps() + steps_if(
            self.wants_global_lighting(debug),
            global_lighting_steps(),
        ) + steps_if(
            self.compares_global_lighting(),
            lighting_captures_steps(CaptureSet::AfterGlobalLighting),
        )
    }

    fn global_light(&self, wanted: bool) -> (steps: Vec<Step>)
        ensures
            forall|debug: Option<DebugPipeline>|
                wanted == self.wants_global_lighting(debug) ==> steps@
                    == #[trigger] self.global_light_steps(debug),
    {
        let compares = self.flags.global_lighting_ab && self.assets.queued == 0
            && self.assets.loading == 0;
        let mut steps: Vec<Step> = Vec::new();
        extend_when(&mut steps, compares, self.baseline());
        assert(steps@ =~= steps_if(compares, self.baseline_steps()));
        extend(&mut steps, light_targets());
        extend_when(&mut steps, wanted, global_lighting());
        extend_when(&mut steps, compares, lighting_captures(CaptureSet::AfterGlobalLighting));
        steps
    }

    /// Shading the lit frame, with what was asked to be captured of it.
    pub open spec fn final_steps(self) -> Seq<Step> {
        steps_if(self.captures_buffers(), input_captures_steps()) + exposure_steps(self.flags)
            + deferred_steps() + self.combine_steps() + buffer_view_steps(
            Surface::ShadingResult,
            true,
        ) + steps_if(
            self.compares_global_lighting(),
            lighting_captures_steps(CaptureSet::AfterFinalShading) + manifest_steps(
                CaptureSet::AfterFinalShading,
            ),
        ) + steps_if(
            self.captures_buffers(),
            output_captures_steps(CaptureSet::BufferProvenance) + manifest_steps(
                CaptureSet::BufferProvenance,
            ),
        )
    }

    fn finish(&self) -> (steps: Vec<Step>)
        requires
            self.wf(),
        ensures
            steps@ == self.final_steps(),
    {
        let captures = self.flags.buffer_provenance && self.assets.queued == 0
            && self.assets.loading == 0;
        let compares = self.flags.global_lighting_ab && self.assets.queued == 0
            && self.assets.loading == 0;
        let mut compared = lighting_captures(CaptureSet::AfterFinalShading);
        extend(&mut compared, manifest(CaptureSet::AfterFinalShading));
        let mut captured = output_captures(CaptureSet::BufferProvenance);
        extend(&mut captured, manifest(CaptureSet::BufferProvenance));
        let mut steps: Vec<Step> = Vec::new();
        extend_when(&mut steps, captures, input_captures());
        assert(steps@ =~= steps_if(captures, input_captures_steps()));
        extend(&mut steps, exposure(self.flags));
        extend(&mut steps, deferred());
        extend(&mut steps, self.combine());
        extend(&mut steps, buffer_view(Surface::ShadingResult, true));
        extend_when(&mut steps, compares, compared);
        extend_when(&mut steps, captures, captured);
        steps
    }

    /// Showing a light buffer, or going on to shade the frame.
    pub open spec fn shown_steps(self, debug: Option<DebugPipeline>) -> Seq<Step> {
        if debug == Some(DebugPipeline::LightDiffuse) {
            buffer_view_steps(Surface::LightDiffuse, true)
        } else if debug == Some(DebugPipeline::LightSpecular) {
            buffer_view_steps(Surface::LightSpecular, true)
        } else {
            self.final_steps()
        }
    }

    /// The preserved passes after the geometry buffers.
    pub open spec fn preserved_steps(self, debug: Option<DebugPipeline>) -> Seq<Step> {
        match shown_buffer(debug) {
            Some(BufferView::Buffer { source, color }) => buffer_view_steps(source, color),
            Some(BufferView::Preview) => preview_steps(),
            None => if !self.can_shade(debug) {
                refused_steps(Refusal::ShadedPassUnavailable) + preview_steps()
            } else {
                self.light_steps() + self.global_light_steps(debug) + self.shown_steps(debug)
            },
        }
    }

    /// Plans the preserved passes after the geometry buffers.
    pub fn submit_shadowkeep_shaded(&self, debug: Option<DebugPipeline>) -> (steps: Vec<Step>)
        requires
            self.wf(),
        ensures
            steps@ == self.preserved_steps(debug),
    {
        match buffer_to_show(debug) {
            Some(BufferView::Buffer { source, color }) => {
                return buffer_view(source, color);
            },
            Some(BufferView::Preview) => {
                return preview();
            },
            None => {},
        }
        let sunny = match debug {
            Some(view) => view.has_sun(),
            None => true,
        };
        let wanted = self.flags.global_lighting && sunny;
        if !self.pipelines.get(Pipeline::DeferredShadingNoAtm).is_available() || (wanted
            && !self.pipelines.get(Pipeline::GlobalLighting).is_available()) {
            let mut steps = refused(Refusal::ShadedPassUnavailable);
            extend(&mut steps, preview());
            return steps;
        }
        let mut steps = self.light();
        extend(&mut steps, self.global_light(wanted));
        match debug {
            Some(DebugPipeline::LightDiffuse) => {
                extend(&mut steps, buffer_view(Surface::LightDiffuse, true));
            },
            Some(DebugPipeline::LightSpecular) => {
                extend(&mut steps, buffer_view(Surface::LightSpecular, true));
            },
            _ => {
                extend(&mut steps, self.finish());
            },
        }
        steps
    }

    /// The geometry buffers are recorded on worker threads in the current era alone.
    pub open spec fn records_geometry(self, settings: ViewSettings) -> bool {
        self.era == RendererEra::Current && settings.multithreading
    }

    /// The passes of a main view.
    pub open spec fn shaded_steps(self, settings: ViewSettings, debug: Option<DebugPipeline>) -> Seq<
        Step,
    > {
        steps_if(self.records_geometry(settings), command_lists_steps()) + gbuffer_steps(
            self.records_geometry(settings),
        ) + match self.era {
            RendererEra::Shadowkeep => self.preserved_steps(debug),
            RendererEra::Current => current_steps(self.flags.global_lighting, settings, debug),
        }
    }

    fn submit_view_shaded(&self, settings: ViewSettings, debug: Option<DebugPipeline>) -> (steps: Vec<
        Step,
    >)
        requires
            self.wf(),
        ensures
            steps@ == self.shaded_steps(settings, debug),
    {
        let recorded = self.era == RendererEra::Current && settings.multithreading;
        let mut steps: Vec<Step> = Vec::new();
        extend_when(&mut steps, recorded, command_lists());
        assert(steps@ =~= steps_if(recorded, command_lists_steps()));
        extend(&mut steps, gbuffer(recorded));
        match self.era {
            RendererEra::Shadowkeep => {
                extend(&mut steps, self.submit_shadowkeep_shaded(debug));
            },
            RendererEra::Current => {
                extend(&mut steps, submit_current(self.flags.global_lighting, settings, debug));
            },
        }
        steps
    }

    /// All steps that draw a view.
    pub open spec fn view_steps(self, view: ViewKind, debug: Option<DebugPipeline>) -> Seq<Step> {
        entry_steps() + input_steps(self.era, view) + view_scope_steps() + match view {
            ViewKind::Main { settings } => surfaces_steps() + (if debug == Some(
                DebugPipeline::Overdraw,
            ) {
                overdraw_steps()
            } else {
                self.shaded_steps(settings, debug)
            }),
            ViewKind::Shadow { index, forward_depth } => shadow_steps(index, forward_depth),
        }
    }

    /// Plans the steps that draw a view.
    pub fn submit_view(&self, view: ViewKind, debug_pipeline: Option<DebugPipeline>) -> (steps: Vec<
        Step,
    >)
        requires
            self.wf(),
        ensures
            steps@ == self.view_steps(view, debug_pipeline),
    {
        let mut steps = entry();
        extend(&mut steps, inputs(self.era, view));
        extend(&mut steps, view_scope());
        match view {
            ViewKind::Main { settings } => {
                let mut passes = surfaces();
                match debug_pipeline {
                    Some(DebugPipeline::Overdraw) => {
                        extend(&mut passes, overdraw());
                    },
                    _ => {
                        extend(&mut passes, self.submit_view_shaded(settings, debug_pipeline));
                    },
                }
                extend(&mut steps, passes);
            },
            ViewKind::Shadow { index, forward_depth } => {
                extend(&mut steps, submit_shadow_view(index, forward_depth));
            },
        }
        steps
    }
}

/// A step that belongs to lighting, shading or anything after them.
pub open spec fn is_later_pass(step: Step) -> bool {
    step is RunPreserved || step is Submit || step is Capture || step is Lighting
}

/// A debug view of a geometry buffer needs no lighting and no later pass: its steps are the
/// same for every renderer, and hold none of those passes.
pub proof fn law_buffer_views_need_no_later_pass(a: Renderer, b: Renderer, view: DebugPipeline)
    requires
        !view.shaded(),
        !view.shows_light(),
    ensures
        a.preserved_steps(Some(view)) == b.preserved_steps(Some(view)),
        forall|i: int|
            0 <= i < a.preserved_steps(Some(view)).len() ==> !is_later_pass(
                #[trigger] a.preserved_steps(Some(view))[i],
            ),
{
}

/// The step that applies the lights of the map.
pub open spec fn local_lighting() -> Step {
    submission(RenderStage::LightingApply, SubmitOrder::Serial, Features::All)
}

proof fn lemma_lights_are_applied(renderer: Renderer) -> (at: int)
    ensures
        0 <= at < renderer.light_steps().len(),
        renderer.light_steps()[at] == local_lighting(),
        forall|i: int|
            0 <= i < renderer.light_steps().len() ==> !(#[trigger] renderer.light_steps()[i] is RunPreserved),
{
    let captures = renderer.captures_buffers();
    let before = steps_if(captures, reset_steps(OneShot::BufferProvenance)) + steps_if(
        renderer.compares_global_lighting(),
        reset_steps(OneShot::GlobalLightingAb),
    ) + light_clears_steps() + steps_if(captures, light_capture_begin_steps());
    let at = before.len() + local_lights_steps().len() - 1;
    assert((before + local_lights_steps())[at] == local_lights_steps()[5]);
    at
}

/// Whatever a preserved pipeline draws, it draws after the lights of the map were applied.
pub proof fn law_lights_come_before_shading(
    renderer: Renderer,
    debug: Option<DebugPipeline>,
    run: int,
)
    requires
        0 <= run < renderer.preserved_steps(debug).len(),
        renderer.preserved_steps(debug)[run] is RunPreserved,
    ensures
        exists|light: int|
            0 <= light < run && #[trigger] renderer.preserved_steps(debug)[light]
                == local_lighting(),
{
    let at = lemma_lights_are_applied(renderer);
    assert(shown_buffer(debug) is None && renderer.can_shade(debug));
    let steps = renderer.preserved_steps(debug);
    assert(steps =~= renderer.light_steps() + (renderer.global_light_steps(debug)
        + renderer.shown_steps(debug)));
    assert(steps[at] == renderer.light_steps()[at]);
    assert(run >= renderer.light_steps().len()) by {
        if run < renderer.light_steps().len() {
            assert(steps[run] == renderer.light_steps()[run]);
        }
    }
}

/// A set of the diagnostics that do not wait for assets.
pub open spec fn captured_at_once(set: CaptureSet) -> bool {
    set == CaptureSet::LowExposure || set == CaptureSet::FullExposure || set
        == CaptureSet::FinalCombine
}

/// A step of the two diagnostics that wait until every asset is there.
pub open spec fn waits_for_assets(step: Step) -> bool {
    match step {
        Step::BeginLightCapture | Step::FinishLightCapture => true,
        Step::Reset { switch } => switch == OneShot::BufferProvenance || switch
            == OneShot::GlobalLightingAb,
        Step::Capture { set, .. } => !captured_at_once(set),
        Step::WriteManifest { set } => !captured_at_once(set),
        _ => false,
    }
}

/// While an asset is waiting to be read or being read, nothing is captured for the buffer and
/// global-lighting diagnostics, and their switches stay as they are.
pub proof fn law_captures_wait_for_assets(
    renderer: Renderer,
    debug: Option<DebugPipeline>,
    at: int,
)
    requires
        !renderer.settled(),
        0 <= at < renderer.preserved_steps(debug).len(),
    ensures
        !waits_for_assets(renderer.preserved_steps(debug)[at]),
{
    let steps = renderer.preserved_steps(debug);
    if shown_buffer(debug) is None && renderer.can_shade(debug) {
        let lights = renderer.light_steps();
        let global = renderer.global_light_steps(debug);
        let shown = renderer.shown_steps(debug);
        if at < lights.len() {
            assert(steps[at] == lights[at]);
        } else if at < lights.len() + global.len() {
            assert(steps[at] == global[at - lights.len()]);
        } else {
            assert(steps[at] == shown[at - lights.len() - global.len()]);
            lemma_final_steps_wait(renderer, at - lights.len() - global.len());
        }
    }
}

proof fn lemma_final_steps_wait(renderer: Renderer, at: int)
    requires
        !renderer.settled(),
    ensures
        0 <= at < renderer.final_steps().len() ==> !waits_for_assets(renderer.final_steps()[at]),
{
    let exposures = exposure_steps(renderer.flags);
    let combine = renderer.combine_steps();
    let rest = buffer_view_steps(Surface::ShadingResult, true);
    assert(renderer.final_steps() =~= exposures + deferred_steps() + combine + rest);
}

/// The preserved renderer previews its geometry buffers only on request, or where a pipeline
/// that the frame needs is missing.
pub proof fn law_preview_is_the_fallback(
    renderer: Renderer,
    debug: Option<DebugPipeline>,
    at: int,
)
    requires
        0 <= at < renderer.preserved_steps(debug).len(),
        renderer.preserved_steps(debug)[at] == (Step::Draw { fullscreen: Fullscreen::GeometryPreview }),
    ensures
        debug == Some(DebugPipeline::Overdraw) || !renderer.can_shade(debug),
{
    let steps = renderer.preserved_steps(debug);
    if shown_buffer(debug) is None && renderer.can_shade(debug) {
        let lights = renderer.light_steps();
        let global = renderer.global_light_steps(debug);
        let shown = renderer.shown_steps(debug);
        if at < lights.len() {
            assert(steps[at] == lights[at]);
        } else if at < lights.len() + global.len() {
            assert(steps[at] == global[at - lights.len()]);
            lemma_global_light_draws_nothing(renderer, debug, at - lights.len());
        } else {
            assert(steps[at] == shown[at - lights.len() - global.len()]);
            lemma_final_steps_draw_nothing(renderer, at - lights.len() - global.len());
        }
    }
}

proof fn lemma_global_light_draws_nothing(renderer: Renderer, debug: Option<DebugPipeline>, at: int)
    ensures
        0 <= at < renderer.global_light_steps(debug).len() ==> !(renderer.global_light_steps(
            debug,
        )[at] is Draw),
{
    let baseline = renderer.baseline_steps();
    assert(forall|i: int| 0 <= i < baseline.len() ==> !(#[trigger] baseline[i] is Draw));
}

proof fn lemma_final_steps_draw_nothing(renderer: Renderer, at: int)
    ensures
        0 <= at < renderer.final_steps().len() ==> !(renderer.final_steps()[at] is Draw),
{
    let exposures = exposure_steps(renderer.flags);
    let combine = renderer.combine_steps();
    assert(forall|i: int| 0 <= i < exposures.len() ==> !(#[trigger] exposures[i] is Draw));
    assert(forall|i: int| 0 <= i < combine.len() ==> !(#[trigger] combine[i] is Draw));
    let compared = lighting_captures_steps(CaptureSet::AfterFinalShading) + manifest_steps(
        CaptureSet::AfterFinalShading,
    );
    assert(forall|i: int| 0 <= i < compared.len() ==> !(#[trigger] compared[i] is Draw));
    let captured = output_captures_steps(CaptureSet::BufferProvenance) + manifest_steps(
        CaptureSet::BufferProvenance,
    );
    assert(forall|i: int| 0 <= i < captured.len() ==> !(#[trigger] captured[i] is Draw));
}

/// A step of the current era's graph.
pub open spec fn is_current_pass(step: Step) -> bool {
    step is Run || step is Lighting || step is Water || step is VolumeFog || step is Bloom || step
        is ImmediateGeometry || step is GeometryCommandLists || step is SkyLookupInput || step
        is FxaaInputs || step is WriteTransparentConstants
}

/// A frame of the preserved renderer never enters the current era's graph, whatever its debug
/// view and settings.
pub proof fn law_preserved_frames_stay_out_of_the_current_graph(
    renderer: Renderer,
    settings: ViewSettings,
    debug: Option<DebugPipeline>,
    at: int,
)
    requires
        renderer.era == RendererEra::Shadowkeep,
        0 <= at < renderer.shaded_steps(settings, debug).len(),
    ensures
        !is_current_pass(renderer.shaded_steps(settings, debug)[at]),
{
    let before = steps_if(renderer.records_geometry(settings), command_lists_steps())
        + gbuffer_steps(renderer.records_geometry(settings));
    let preserved = renderer.preserved_steps(debug);
    assert(renderer.shaded_steps(settings, debug) =~= before + preserved);
    if at >= before.len() {
        let rest = at - before.len();
        assert(renderer.shaded_steps(settings, debug)[at] == preserved[rest]);
        lemma_preserved_steps_are_preserved(renderer, debug, rest);
    }
}

proof fn lemma_preserved_steps_are_preserved(
    renderer: Renderer,
    debug: Option<DebugPipeline>,
    at: int,
)
    requires
        0 <= at < renderer.preserved_steps(debug).len(),
    ensures
        !is_current_pass(renderer.preserved_steps(debug)[at]),
{
    let steps = renderer.preserved_steps(debug);
    if shown_buffer(debug) is None && renderer.can_shade(debug) {
        let lights = renderer.light_steps();
        let global = renderer.global_light_steps(debug);
        let shown = renderer.shown_steps(debug);
        if at < lights.len() {
            assert(steps[at] == lights[at]);
            lemma_light_steps_are_preserved(renderer, at);
        } else if at < lights.len() + global.len() {
            assert(steps[at] == global[at - lights.len()]);
            lemma_global_light_is_preserved(renderer, debug, at - lights.len());
        } else {
            assert(steps[at] == shown[at - lights.len() - global.len()]);
            lemma_final_steps_are_preserved(renderer, at - lights.len() - global.len());
        }
    }
}

proof fn lemma_light_steps_are_preserved(renderer: Renderer, at: int)
    ensures
        0 <= at < renderer.light_steps().len() ==> !is_current_pass(renderer.light_steps()[at]),
{
}

proof fn lemma_global_light_is_preserved(renderer: Renderer, debug: Option<DebugPipeline>, at: int)
    ensures
        0 <= at < renderer.global_light_steps(debug).len() ==> !is_current_pass(
            renderer.global_light_steps(debug)[at],
        ),
{
    let baseline = renderer.baseline_steps();
    assert(forall|i: int| 0 <= i < baseline.len() ==> !is_current_pass(#[trigger] baseline[i]));
}

proof fn lemma_final_steps_are_preserved(renderer: Renderer, at: int)
    ensures
        0 <= at < renderer.final_steps().len() ==> !is_current_pass(renderer.final_steps()[at]),
{
    let exposures = exposure_steps(renderer.flags);
    let combine = renderer.combine_steps();
    assert(forall|i: int| 0 <= i < exposures.len() ==> !is_current_pass(#[trigger] exposures[i]));
    assert(forall|i: int| 0 <= i < combine.len() ==> !is_current_pass(#[trigger] combine[i]));
    let compared = lighting_captures_steps(CaptureSet::AfterFinalShading) + manifest_steps(
        CaptureSet::AfterFinalShading,
    );
    assert(forall|i: int| 0 <= i < compared.len() ==> !is_current_pass(#[trigger] compared[i]));
    let captured = output_captures_steps(CaptureSet::BufferProvenance) + manifest_steps(
        CaptureSet::BufferProvenance,
    );
    assert(forall|i: int| 0 <= i < captured.len() ==> !is_current_pass(#[trigger] captured[i]));
}

/// The captures of the geometry and light buffers, of the shading result and of the output are all
/// made where they are asked for and every asset is settled, and so is their manifest.
pub proof fn law_requested_buffers_are_captured(renderer: Renderer, debug: Option<DebugPipeline>)
    requires
        debug is None || debug->Some_0.shaded(),
        renderer.can_shade(debug),
        renderer.flags.buffer_provenance,
        renderer.assets.queued == 0,
        renderer.assets.loading == 0,
    ensures
        ({
            let steps = renderer.final_steps();
            let set = CaptureSet::BufferProvenance;
            &&& steps.contains(Step::Capture { set, surface: Surface::Albedo, clear: None })
            &&& steps.contains(Step::Capture { set, surface: Surface::Normal, clear: None })
            &&& steps.contains(Step::Capture { set, surface: Surface::Third, clear: None })
            &&& steps.contains(Step::Capture { set, surface: Surface::Depth, clear: None })
            &&& steps.contains(
                Step::Capture {
                    set,
                    surface: Surface::LightDiffuse,
                    clear: Some(Fill::LightFloor),
                },
            )
            &&& steps.contains(
                Step::Capture { set, surface: Surface::LightSpecular, clear: Some(Fill::Zero) },
            )
            &&& steps.contains(Step::Capture { set, surface: Surface::ShadingResult, clear: None })
            &&& steps.contains(Step::Capture { set, surface: Surface::Output, clear: None })
            &&& steps.last() == (Step::WriteManifest { set })
        }),
{
    let steps = renderer.final_steps();
    let inputs = input_captures_steps();
    assert(steps[0] == inputs[0]);
    assert(steps[1] == inputs[1]);
    assert(steps[2] == inputs[2]);
    assert(steps[3] == inputs[3]);
    assert(steps[4] == inputs[4]);
    assert(steps[5] == inputs[5]);
    let outputs = output_captures_steps(CaptureSet::BufferProvenance) + manifest_steps(
        CaptureSet::BufferProvenance,
    );
    let n = steps.len() as int;
    assert(outputs.len() == 3);
    assert(steps[n - 3] == outputs[0]);
    assert(steps[n - 2] == outputs[1]);
    assert(steps[n - 1] == outputs[2]);
}

/// The comparison of global lighting captures the light buffers, the shading result and the output
/// three times: before the global lighting, after it, and after the final shading.
pub proof fn law_the_comparison_captures_three_times(set: CaptureSet)
    ensures
        ({
            let steps = lighting_captures_steps(set);
            &&& steps.len() == 5
            &&& steps[0] == (Step::Capture {
                set,
                surface: Surface::LightDiffuse,
                clear: Some(Fill::LightFloor),
            })
            &&& steps[1] == (Step::Capture {
                set,
                surface: Surface::LightSpecular,
                clear: Some(Fill::Zero),
            })
            &&& steps[2] == (Step::Capture {
                set,
                surface: Surface::LightSpecularIbl,
                clear: Some(Fill::Zero),
            })
            &&& steps[3] == (Step::Capture {
                set,
                surface: Surface::ShadingResult,
                clear: Some(Fill::Black),
            })
            &&& steps[4] == (Step::Capture { set, surface: Surface::Output, clear: None })
        }),
{
}

/// A shadow view clears its map to the far depth, which is one where depth grows with distance and
/// zero where it shrinks, before it binds the map and draws what casts shadows. A view that is not
/// there is refused.
pub proof fn law_shadow_maps_are_cleared_to_the_far_depth(index: u32, forward_depth: bool)
    ensures
        index >= 32 ==> shadow_steps(index, forward_depth).len() == 1 && shadow_steps(
            index,
            forward_depth,
        )[0] == (Step::Refuse { refusal: Refusal::ShadowViewIndex }),
        index < 32 ==> {
            let steps = shadow_steps(index, forward_depth);
            &&& steps.len() == 6
            &&& steps[0] == (Step::SetState {
                state: DrawState { blend: 0, depth_stencil: 2, rasterizer: 0, depth_bias: 6 },
            })
            &&& steps[1] == Step::FlushStates
            &&& steps[2] == Step::BindShadowTexture
            &&& steps[3] == (Step::ClearShadowMap {
                depth_bits: if forward_depth {
                    0x3f80_0000
                } else {
                    0
                },
            })
            &&& steps[4] == Step::BindShadowMap
            &&& steps[5] == (Step::Submit {
                view: ViewSlot::Shadow { index },
                stage: RenderStage::ShadowGenerate,
                order: SubmitOrder::ParallelApply,
                features: Features::All,
            })
        },
{
}

/// Exposures are compared at a twentieth first and in full then, each under a set of its own, and
/// only while global lighting is off. The request is reset either way.
pub proof fn law_exposures_are_compared_once(flags: RenderFlags)
    ensures
        compared_exposures().len() == 2,
        compared_exposures()[0].scale_bits == 0x3d4c_cccd,
        compared_exposures()[0].set == CaptureSet::LowExposure,
        compared_exposures()[1].scale_bits == 0x3f80_0000,
        compared_exposures()[1].set == CaptureSet::FullExposure,
        !flags.exposure_ab ==> exposure_steps(flags).len() == 0,
        flags.exposure_ab ==> exposure_steps(flags)[0] == (Step::Reset {
            switch: OneShot::ExposureAb,
        }),
        flags.exposure_ab && flags.global_lighting ==> exposure_steps(flags).len() == 2
            && exposure_steps(flags)[1] == (Step::Refuse {
            refusal: Refusal::ExposureNeedsGlobalLightingOff,
        }),
        flags.exposure_ab && !flags.global_lighting ==> {
            &&& exposure_steps(flags).len() == 4
            &&& exposure_steps(flags)[1] == Step::ExposureVariants
            &&& exposure_steps(flags)[2] == Step::WriteFrameScope
            &&& exposure_steps(flags)[3] == (Step::WriteManifest { set: CaptureSet::FullExposure })
        },
{
}

/// The final combination is asked for once, refused while global lighting is on or its pipeline is
/// missing, and made otherwise.
pub proof fn law_the_final_combination_is_made_once(renderer: Renderer)
    ensures
        ({
            let steps = renderer.combine_steps();
            let asked = renderer.flags.final_combine_no_film_curve;
            &&& !asked ==> steps.len() == 0
            &&& asked ==> steps[0] == (Step::Reset { switch: OneShot::FinalCombineNoFilmCurve })
            &&& asked && renderer.flags.global_lighting ==> steps.len() == 2 && steps[1] == (
            Step::Refuse { refusal: Refusal::FinalCombineNeedsGlobalLightingOff })
            &&& asked && !renderer.flags.global_lighting && !renderer.has(
                Pipeline::FinalCombineNoFilmCurve,
            ) ==> steps.len() == 2 && steps[1] == (Step::Refuse {
                refusal: Refusal::FinalCombineUnavailable,
            })
            &&& asked && !renderer.flags.global_lighting && renderer.has(
                Pipeline::FinalCombineNoFilmCurve,
            ) ==> steps.len() == 10 && steps[1] == Step::UpdateShadingRead && steps[2] == (
            Step::PostprocessInput {
                source: Surface::ShadingResultRead,
                target: Surface::Postprocess,
            }) && steps[9] == (Step::WriteManifest { set: CaptureSet::FinalCombine })
        }),
{
}

/// Every view begins by keeping its settings and features, then updates its inputs, and writes the
/// frame's scope before the view's scope is bound. Only a current frame writes the constants of
/// transparent objects, and only a main view takes inputs from its surfaces.
pub proof fn law_views_update_their_inputs_first(
    renderer: Renderer,
    view: ViewKind,
    debug: Option<DebugPipeline>,
)
    ensures
        ({
            let steps = renderer.view_steps(view, debug);
            let current = renderer.era == RendererEra::Current;
            let after_shared: int = if current {
                9
            } else {
                8
            };
            &&& steps.len() > after_shared + 1
            &&& steps[0] == Step::StoreSettings
            &&& steps[1] == Step::StoreFeatures
            &&& steps[2] == Step::UpdateViewInputs
            &&& steps[3] == Step::UpdateFrameInputs
            &&& steps[4] == Step::UpdateDepthConstants
            &&& steps[5] == Step::UpdateWaterDisplacement
            &&& steps[6] == (Step::GlobalLightingInputs { era: renderer.era })
            &&& steps[7] == (Step::AtmosphereInputs { era: renderer.era })
            &&& current ==> steps[8] == Step::WriteTransparentConstants
            &&& steps[after_shared] == Step::WriteFrameScope
            &&& view is Shadow ==> steps[after_shared + 1] == (Step::BindScope {
                scope: GlobalScope::View,
            })
            &&& view matches ViewKind::Main { settings } ==> {
                &&& steps[after_shared + 1] == (Step::MainViewInputs {
                    era: renderer.era,
                    bloom: settings.bloom,
                })
                &&& steps[after_shared + 2] == (Step::BindScope { scope: GlobalScope::View })
                &&& steps[after_shared + 3] == Step::StoreSurfaces
                &&& steps[after_shared + 4] == Step::ResizeSurfaces
            }
        }),
{
}

/// The sky mask is made from the half depth, and then made smaller from its first form; each pass
/// reads what the one before it wrote.
pub proof fn law_the_sky_mask_is_made_from_the_half_depth()
    ensures
        sky_mask_steps().len() == 8,
        sky_mask_steps()[0] == (Step::Bind { surface: Surface::SkyMaskInitial, depth: None }),
        sky_mask_steps()[1] == (Step::PostprocessInput { source: Surface::UberDepthHalf, target: Surface::SkyMaskInitial }),
        sky_mask_steps()[2] == (Step::SetState {
            state: DrawState { blend: 0, depth_stencil: 0, rasterizer: 0, depth_bias: 0 },
        }),
        sky_mask_steps()[3] == (Step::Run { pipeline: Pipeline::SkyGenerateSkyMask }),
        sky_mask_steps()[4] == (Step::Bind { surface: Surface::SkyMask, depth: None }),
        sky_mask_steps()[5] == (Step::ReplacePostprocessInput {
            source: Surface::SkyMaskInitial,
            target: Surface::SkyMask,
        }),
        sky_mask_steps()[6] == (Step::SetState {
            state: DrawState { blend: 0, depth_stencil: 0, rasterizer: 0, depth_bias: 0 },
        }),
        sky_mask_steps()[7] == (Step::Run { pipeline: Pipeline::DownsampleBlock2x2 }),
{
}

/// Each sky lookup takes its own input before its pipeline runs, the near one first.
pub proof fn law_sky_lookups_take_their_own_input()
    ensures
        sky_lookup_steps().len() == 9,
        sky_lookup_steps()[0] == (Step::SkyLookupInput { lookup: SkyLookup::Near }),
        sky_lookup_steps()[1] == Step::AtmosphereBasis,
        sky_lookup_steps()[2] == (Step::Bind { surface: Surface::SkyLookupNear, depth: None }),
        sky_lookup_steps()[3] == (Step::SetState {
            state: DrawState { blend: 0, depth_stencil: 0, rasterizer: 0, depth_bias: 0 },
        }),
        sky_lookup_steps()[4] == (Step::Run { pipeline: Pipeline::SkyLookupGenerateNear }),
        sky_lookup_steps()[5] == (Step::SkyLookupInput { lookup: SkyLookup::Far }),
        sky_lookup_steps()[6] == (Step::Bind { surface: Surface::SkyLookupFar, depth: None }),
        sky_lookup_steps()[7] == (Step::SetState {
            state: DrawState { blend: 0, depth_stencil: 0, rasterizer: 0, depth_bias: 0 },
        }),
        sky_lookup_steps()[8] == (Step::Run { pipeline: Pipeline::SkyLookupGenerateFar }),
{
}

/// Transparent objects are drawn over the shading result with their scopes bound, reading the
/// readable depth, the additive decals first.
pub proof fn law_transparents_are_drawn_against_the_depth(order: SubmitOrder)
    ensures
        transparents_steps(order).len() == 11,
        transparents_steps(order)[0] == (Step::DeferredDepth { source: Surface::DepthProxy }),
        transparents_steps(order)[1] == (Step::DeriveMatrices { surface: Surface::ShadingResult }),
        transparents_steps(order)[2] == (Step::BindScope { scope: GlobalScope::View }),
        transparents_steps(order)[3] == (Step::BindScope { scope: GlobalScope::Transparent }),
        transparents_steps(order)[4] == (Step::BindScope { scope: GlobalScope::TransparentAdvanced }),
        transparents_steps(order)[5] == (Step::Bind { surface: Surface::ShadingResult, depth: Some(Surface::Depth) }),
        transparents_steps(order)[6] == (Step::SetState {
            state: DrawState { blend: 8, depth_stencil: 15, rasterizer: 2, depth_bias: 1 },
        }),
        transparents_steps(order)[7] == Step::FlushStates,
        transparents_steps(order)[8] == (Step::Submit {
            view: ViewSlot::Main,
            stage: RenderStage::DecalsAdditive,
            order: SubmitOrder::ParallelApply,
            features: Features::All,
        }),
        transparents_steps(order)[9] == (Step::SetState {
            state: DrawState { blend: 8, depth_stencil: 15, rasterizer: 2, depth_bias: 1 },
        }),
        transparents_steps(order)[10] == (Step::Submit {
            view: ViewSlot::Main,
            stage: RenderStage::Transparents,
            order: order,
            features: Features::AllButWater,
        }),
{
}

/// Distortion is drawn at half size against the half depth, and afterwards the matrices and the
/// depth are those of the whole output again.
pub proof fn law_distortion_is_drawn_at_half_size()
    ensures
        distortion_steps().len() == 11,
        distortion_steps()[0] == (Step::DeriveMatrices { surface: Surface::Distortion }),
        distortion_steps()[1] == (Step::DeferredDepth { source: Surface::UberDepthHalf }),
        distortion_steps()[2] == (Step::BindScope { scope: GlobalScope::View }),
        distortion_steps()[3] == (Step::Clear { surface: Surface::Distortion, fill: Fill::Zero }),
        distortion_steps()[4] == (Step::Bind { surface: Surface::Distortion, depth: Some(Surface::DepthHalf) }),
        distortion_steps()[5] == (Step::SetState {
            state: DrawState { blend: 8, depth_stencil: 15, rasterizer: 2, depth_bias: 1 },
        }),
        distortion_steps()[6] == Step::FlushStates,
        distortion_steps()[7] == (Step::Submit {
            view: ViewSlot::Main,
            stage: RenderStage::Distortion,
            order: SubmitOrder::Serial,
            features: Features::All,
        }),
        distortion_steps()[8] == (Step::DeriveMatrices { surface: Surface::Output }),
        distortion_steps()[9] == (Step::DeferredDepth { source: Surface::Depth }),
        distortion_steps()[10] == (Step::BindScope { scope: GlobalScope::View }),
{
}

/// Water reads the shading result as it was before.
pub proof fn law_water_reads_the_shading()
    ensures
        water_steps().len() == 2,
        water_steps()[0] == Step::UpdateShadingRead,
        water_steps()[1] == Step::Water,
{
}

/// The bloom is made first, and the grading reads the shading result as it was then.
pub proof fn law_grading_follows_the_bloom()
    ensures
        grading_steps().len() == 6,
        grading_steps()[0] == Step::Bloom,
        grading_steps()[1] == (Step::SetStencilReference { value: 0 }),
        grading_steps()[2] == Step::UpdateShadingRead,
        grading_steps()[3] == (Step::Bind { surface: Surface::Postprocess, depth: None }),
        grading_steps()[4] == (Step::SetState {
            state: DrawState { blend: 0, depth_stencil: 0, rasterizer: 0, depth_bias: 0 },
        }),
        grading_steps()[5] == (Step::Run {
            pipeline: Pipeline::ScreenAreaGlobalLut3d { distort: true, noise: false, hdr: false },
        }),
{
}

/// A view that is not shaded is copied as it was read.
pub proof fn law_plain_views_are_copied()
    ensures
        unshaded_copy_steps().len() == 3,
        unshaded_copy_steps()[0] == Step::UpdateShadingRead,
        unshaded_copy_steps()[1] == (Step::Bind { surface: Surface::Postprocess, depth: None }),
        unshaded_copy_steps()[2] == (Step::Blit {
            source: Surface::ShadingResultRead,
            target: Surface::Postprocess,
            color: true,
        }),
{
}

/// Immediate geometry is tested against the depth buffer, and the state is plain again
/// afterwards.
pub proof fn law_immediate_geometry_is_tested()
    ensures
        immediate_geometry_steps().len() == 5,
        immediate_geometry_steps()[0] == (Step::Bind { surface: Surface::Postprocess, depth: Some(Surface::Depth) }),
        immediate_geometry_steps()[1] == (Step::SetState {
            state: DrawState { blend: 0, depth_stencil: 2, rasterizer: 2, depth_bias: 0 },
        }),
        immediate_geometry_steps()[2] == Step::FlushStates,
        immediate_geometry_steps()[3] == Step::ImmediateGeometry,
        immediate_geometry_steps()[4] == (Step::SetState {
            state: DrawState { blend: 0, depth_stencil: 0, rasterizer: 0, depth_bias: 0 },
        }),
{
}

/// Smoothing takes its inputs with the output bound.
pub proof fn law_smoothing_takes_its_inputs()
    ensures
        fxaa_steps().len() == 3,
        fxaa_steps()[0] == (Step::Bind { surface: Surface::Output, depth: None }),
        fxaa_steps()[1] == Step::FxaaInputs,
        fxaa_steps()[2] == (Step::Run { pipeline: Pipeline::Fxaa }),
{
}

/// The composite is drawn plainly once the direction of the sun is written.
pub proof fn law_the_composite_knows_the_sun()
    ensures
        composite_steps().len() == 4,
        composite_steps()[0] == (Step::WriteDebugConstant { constant: DebugConstant::SunLightDirection }),
        composite_steps()[1] == (Step::SetState {
            state: DrawState { blend: 0, depth_stencil: 0, rasterizer: 0, depth_bias: 0 },
        }),
        composite_steps()[2] == Step::FlushStates,
        composite_steps()[3] == (Step::Draw { fullscreen: Fullscreen::GeometryPreview }),
{
}

/// The background is drawn plainly once the intensity of the sky is written.
pub proof fn law_the_background_knows_the_sky()
    ensures
        background_steps().len() == 4,
        background_steps()[0] == (Step::WriteDebugConstant { constant: DebugConstant::SkySnapshotIntensity }),
        background_steps()[1] == (Step::SetState {
            state: DrawState { blend: 0, depth_stencil: 0, rasterizer: 0, depth_bias: 0 },
        }),
        background_steps()[2] == Step::FlushStates,
        background_steps()[3] == (Step::Draw { fullscreen: Fullscreen::Background }),
{
}

/// Shading starts from black and tests neither depth nor stencil.
pub proof fn law_shading_tests_no_stencil(pipeline: Pipeline)
    ensures
        shading_steps(pipeline).len() == 5,
        shading_steps(pipeline)[0] == (Step::Clear { surface: Surface::ShadingResult, fill: Fill::Black }),
        shading_steps(pipeline)[1] == (Step::Bind { surface: Surface::ShadingResult, depth: None }),
        shading_steps(pipeline)[2] == Step::ClearDepthStencilState,
        shading_steps(pipeline)[3] == (Step::SetState {
            state: DrawState { blend: 0, depth_stencil: 0, rasterizer: 0, depth_bias: 0 },
        }),
        shading_steps(pipeline)[4] == (Step::Run { pipeline }),
{
}

/// Deferred shading starts from black and tests neither depth nor stencil.
pub proof fn law_deferred_shading_tests_no_stencil()
    ensures
        deferred_steps().len() == 5,
        deferred_steps()[0] == (Step::Clear { surface: Surface::ShadingResult, fill: Fill::Black }),
        deferred_steps()[1] == (Step::Bind { surface: Surface::ShadingResult, depth: None }),
        deferred_steps()[2] == Step::ClearDepthStencilState,
        deferred_steps()[3] == (Step::SetState {
            state: DrawState { blend: 0, depth_stencil: 0, rasterizer: 0, depth_bias: 0 },
        }),
        deferred_steps()[4] == (Step::RunPreserved { pipeline: Pipeline::DeferredShadingNoAtm }),
{
}

/// The preview starts from black and tests neither depth nor stencil.
pub proof fn law_the_preview_tests_no_stencil()
    ensures
        preview_steps().len() == 6,
        preview_steps()[0] == (Step::Clear { surface: Surface::Output, fill: Fill::Black }),
        preview_steps()[1] == (Step::Bind { surface: Surface::Output, depth: None }),
        preview_steps()[2] == Step::ClearDepthStencilState,
        preview_steps()[3] == (Step::SetState {
            state: DrawState { blend: 0, depth_stencil: 0, rasterizer: 0, depth_bias: 0 },
        }),
        preview_steps()[4] == Step::FlushStates,
        preview_steps()[5] == (Step::Draw { fullscreen: Fullscreen::GeometryPreview }),
{
}

/// Overdraw is counted with a shader and a state of its own, which only the count itself uses.
pub proof fn law_overdraw_counts_every_fragment()
    ensures
        overdraw_steps().len() == 12,
        overdraw_steps()[0] == (Step::GenerateGbuffer { recorded: false }),
        overdraw_steps()[1] == (Step::Clear { surface: Surface::Postprocess, fill: Fill::Black }),
        overdraw_steps()[2] == (Step::Bind { surface: Surface::Postprocess, depth: None }),
        overdraw_steps()[3] == (Step::SetState {
            state: DrawState { blend: 2, depth_stencil: 0, rasterizer: 0, depth_bias: 0 },
        }),
        overdraw_steps()[4] == (Step::OverrideState {
            state: DrawState { blend: 2, depth_stencil: 0, rasterizer: 0, depth_bias: 0 },
        }),
        overdraw_steps()[5] == (Step::OverdrawShader { enabled: true }),
        overdraw_steps()[6] == (Step::Submit {
            view: ViewSlot::Main,
            stage: RenderStage::GenerateGbuffer,
            order: SubmitOrder::ParallelLinear,
            features: Features::All,
        }),
        overdraw_steps()[7] == (Step::OverdrawShader { enabled: false }),
        overdraw_steps()[8] == (Step::Bind { surface: Surface::Output, depth: None }),
        overdraw_steps()[9] == (Step::SetState {
            state: DrawState { blend: 0, depth_stencil: 0, rasterizer: 0, depth_bias: 0 },
        }),
        overdraw_steps()[10] == Step::FlushStates,
        overdraw_steps()[11] == (Step::Draw { fullscreen: Fullscreen::Overdraw }),
{
}

/// The lights of the map are drawn with the lighting scope, viewport and targets bound, and add
/// up.
pub proof fn law_local_lights_are_added_up()
    ensures
        local_lights_steps().len() == 6,
        local_lights_steps()[0] == Step::BindLighting,
        local_lights_steps()[1] == Step::LightViewport,
        local_lights_steps()[2] == Step::BindLightTargets,
        local_lights_steps()[3] == (Step::SetState {
            state: DrawState { blend: 8, depth_stencil: 0, rasterizer: 2, depth_bias: 2 },
        }),
        local_lights_steps()[4] == Step::FlushStates,
        local_lights_steps()[5] == (Step::Submit {
            view: ViewSlot::Main,
            stage: RenderStage::LightingApply,
            order: SubmitOrder::Serial,
            features: Features::All,
        }),
{
}

/// The light buffers start from their floor or from nothing, and the shadow mask from full light.
pub proof fn law_light_buffers_start_from_their_floor()
    ensures
        light_clears_steps().len() == 4,
        light_clears_steps()[0] == (Step::Clear { surface: Surface::LightDiffuse, fill: Fill::LightFloor }),
        light_clears_steps()[1] == (Step::Clear { surface: Surface::LightSpecular, fill: Fill::Zero }),
        light_clears_steps()[2] == (Step::Clear { surface: Surface::LightSpecularIbl, fill: Fill::Zero }),
        light_clears_steps()[3] == (Step::Clear { surface: Surface::ShadowMask, fill: Fill::One }),
{
}

/// Global lighting adds to the light buffers, and its dependencies are reported after it ran.
pub proof fn law_global_lighting_is_added()
    ensures
        global_lighting_steps().len() == 3,
        global_lighting_steps()[0] == (Step::SetState {
            state: DrawState { blend: 8, depth_stencil: 0, rasterizer: 0, depth_bias: 0 },
        }),
        global_lighting_steps()[1] == (Step::RunPreserved { pipeline: Pipeline::GlobalLighting }),
        global_lighting_steps()[2] == Step::EmitLightingDependencies,
{
}

/// The final combination reads the shading result as it is, starts from black, tests neither
/// depth nor stencil, and is captured before its manifest is written.
pub proof fn law_the_final_combination_tests_no_stencil()
    ensures
        final_combine_steps().len() == 9,
        final_combine_steps()[0] == Step::UpdateShadingRead,
        final_combine_steps()[1] == (Step::PostprocessInput {
            source: Surface::ShadingResultRead,
            target: Surface::Postprocess,
        }),
        final_combine_steps()[2] == (Step::Clear { surface: Surface::Postprocess, fill: Fill::Black }),
        final_combine_steps()[3] == (Step::Bind { surface: Surface::Postprocess, depth: None }),
        final_combine_steps()[4] == Step::ClearDepthStencilState,
        final_combine_steps()[5] == (Step::SetState {
            state: DrawState { blend: 0, depth_stencil: 0, rasterizer: 0, depth_bias: 0 },
        }),
        final_combine_steps()[6] == (Step::RunPreserved { pipeline: Pipeline::FinalCombineNoFilmCurve }),
        final_combine_steps()[7] == (Step::Capture {
            set: CaptureSet::FinalCombine,
            surface: Surface::Postprocess,
            clear: None,
        }),
        final_combine_steps()[8] == (Step::WriteManifest { set: CaptureSet::FinalCombine }),
{
}

/// What a frame does follows from its switches, its assets and its pipelines alone. Captures wait
/// until no asset is queued or loading. Shading needs its own pipeline, and that of the global
/// lighting where the frame is to be lit by it, which a view without a sun is not. Geometry is
/// recorded ahead only by a current frame on several threads, and then before it is drawn.
pub proof fn law_frames_follow_their_switches(
    renderer: Renderer,
    settings: ViewSettings,
    debug: Option<DebugPipeline>,
)
    ensures
        ({
            let settled = renderer.assets.queued == 0 && renderer.assets.loading == 0;
            let sunny = debug is None || debug == Some(DebugPipeline::Shaded) || debug == Some(
                DebugPipeline::ShadedNoAtm,
            );
            let recorded = renderer.era == RendererEra::Current && settings.multithreading;
            let steps = renderer.shaded_steps(settings, debug);
            &&& renderer.captures_buffers() <==> renderer.flags.buffer_provenance && settled
            &&& renderer.compares_global_lighting() <==> renderer.flags.global_lighting_ab
                && settled
            &&& renderer.wants_global_lighting(debug) <==> renderer.flags.global_lighting && sunny
            &&& renderer.can_shade(debug) <==> renderer.pipelines.slots@[(
            Pipeline::DeferredShadingNoAtm).number()].0 is Some && (renderer.flags.global_lighting
                && sunny ==> renderer.pipelines.slots@[(
            Pipeline::GlobalLighting).number()].0 is Some)
            &&& recorded ==> steps[0] == Step::GeometryCommandLists && steps[1] == (
            Step::GenerateGbuffer { recorded: true })
            &&& !recorded ==> steps[0] == (Step::GenerateGbuffer { recorded: false })
        }),
{
}

} // verus!
