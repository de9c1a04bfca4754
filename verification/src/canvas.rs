//! What the steps of a frame leave on the surfaces: a step clears, draws or copies, and a capture
//! sees what was last left on a surface.

use vstd::prelude::*;

use crate::geometry::RenderStage;
use crate::pipelines::Pipeline;
use crate::steps::{
    CaptureSet, DebugPipeline, DrawState, Features, Fill, Fullscreen, OneShot, Refusal, Step,
    SubmitOrder, Surface, ViewSlot,
};
use crate::submit::{
    buffer_view_steps, deferred_steps, exposure_steps, exposure_variant_steps,
    final_combine_steps, global_lighting_steps, input_captures_steps, light_capture_begin_steps,
    light_capture_finish_steps, light_clears_steps, light_targets_steps,
    lighting_captures_steps, local_lights_steps, manifest_steps, output_captures_steps,
    refused_steps, reset_steps, steps_if, ExposureVariant, Renderer,
};

verus! {

/// How a picture on a surface came about.
pub enum Picture {
    /// It was there before the frame.
    Earlier,
    /// The surface was cleared.
    Filled { fill: Fill },
    /// A step drew in a state over what was there.
    Drawn { step: Step, state: DrawState, depth: Option<Surface>, over: Box<Picture> },
    /// It is a copy.
    Copied { color: bool, of: Box<Picture> },
}

/// The surfaces that a step draws into.
pub enum Target {
    Unbound,
    Single { surface: Surface, depth: Option<Surface> },
    /// The diffuse and the specular light.
    Lights,
}

/// What a capture saw.
pub struct Sight {
    pub set: CaptureSet,
    pub surface: Surface,
    pub picture: Picture,
}

/// The surfaces with what they show, the bound surfaces, the state to draw in, and what the
/// captures saw so far.
pub struct Canvas {
    pub shown: Map<Surface, Picture>,
    pub target: Target,
    pub state: DrawState,
    pub seen: Seq<Sight>,
}

/// A draw over what a surface shows.
pub open spec fn over(canvas: Canvas, step: Step, depth: Option<Surface>, surface: Surface) -> Picture {
    Picture::Drawn {
        step,
        state: canvas.state,
        depth,
        over: Box::new(canvas.shown[surface]),
    }
}

/// A draw into the bound surfaces.
pub open spec fn drawn(canvas: Canvas, step: Step) -> Canvas {
    match canvas.target {
        Target::Unbound => canvas,
        Target::Single { surface, depth } => Canvas {
            shown: canvas.shown.insert(surface, over(canvas, step, depth, surface)),
            ..canvas
        },
        Target::Lights => Canvas {
            shown: canvas.shown.insert(
                Surface::LightDiffuse,
                over(canvas, step, None, Surface::LightDiffuse),
            ).insert(
                Surface::LightSpecular,
                over(canvas, step, None, Surface::LightSpecular),
            ),
            ..canvas
        },
    }
}

/// What one step does. A copy leaves its target bound. The geometry pass fills the geometry
/// buffers, and water and fog are drawn over the shading result.
pub open spec fn after_step(step: Step, canvas: Canvas) -> Canvas {
    match step {
        Step::SetState { state } => Canvas { state, ..canvas },
        Step::Clear { surface, fill } => Canvas {
            shown: canvas.shown.insert(surface, Picture::Filled { fill }),
            ..canvas
        },
        Step::Bind { surface, depth } => Canvas {
            target: Target::Single { surface, depth },
            ..canvas
        },
        Step::BindLightTargets => Canvas { target: Target::Lights, ..canvas },
        Step::Submit { .. }
        | Step::Run { .. }
        | Step::RunPreserved { .. }
        | Step::RunAtmosphere { .. }
        | Step::Draw { .. }
        | Step::ImmediateGeometry => drawn(canvas, step),
        Step::GenerateGbuffer { .. } => Canvas {
            shown: canvas.shown.insert(
                Surface::Albedo,
                over(canvas, step, None, Surface::Albedo),
            ).insert(Surface::Normal, over(canvas, step, None, Surface::Normal)).insert(
                Surface::Third,
                over(canvas, step, None, Surface::Third),
            ).insert(Surface::Depth, over(canvas, step, None, Surface::Depth)).insert(
                Surface::DepthProxy,
                over(canvas, step, None, Surface::DepthProxy),
            ),
            target: Target::Unbound,
            ..canvas
        },
        Step::Water | Step::VolumeFog => Canvas {
            shown: canvas.shown.insert(
                Surface::ShadingResult,
                over(canvas, step, None, Surface::ShadingResult),
            ),
            target: Target::Unbound,
            ..canvas
        },
        Step::Lighting => Canvas {
            shown: canvas.shown.insert(
                Surface::LightDiffuse,
                over(canvas, step, None, Surface::LightDiffuse),
            ).insert(
                Surface::LightSpecular,
                over(canvas, step, None, Surface::LightSpecular),
            ),
            target: Target::Unbound,
            ..canvas
        },
        Step::Bloom => Canvas { target: Target::Unbound, ..canvas },
        Step::ExposureVariants => Canvas {
            shown: canvas.shown.insert(Surface::ShadingResult, Picture::Earlier).insert(
                Surface::Output,
                Picture::Earlier,
            ),
            target: Target::Unbound,
            ..canvas
        },
        Step::UpdateShadingRead => Canvas {
            shown: canvas.shown.insert(
                Surface::ShadingResultRead,
                Picture::Copied {
                    color: true,
                    of: Box::new(canvas.shown[Surface::ShadingResult]),
                },
            ),
            ..canvas
        },
        Step::Blit { source, target, color } => Canvas {
            shown: canvas.shown.insert(
                target,
                Picture::Copied { color, of: Box::new(canvas.shown[source]) },
            ),
            target: Target::Single { surface: target, depth: None },
            ..canvas
        },
        Step::Capture { set, surface, .. } => Canvas {
            seen: canvas.seen.push(Sight { set, surface, picture: canvas.shown[surface] }),
            ..canvas
        },
        _ => canvas,
    }
}

/// What the first `count` steps do in turn.
pub open spec fn after_first(steps: Seq<Step>, canvas: Canvas, count: nat) -> Canvas
    decreases count,
{
    if count == 0 {
        canvas
    } else {
        after_step(steps[count - 1], after_first(steps, canvas, (count - 1) as nat))
    }
}

/// What the steps do in turn.
#[verifier::opaque]
pub open spec fn after(steps: Seq<Step>, canvas: Canvas) -> Canvas {
    after_first(steps, canvas, steps.len())
}

proof fn lemma_after_first(before: Seq<Step>, more: Seq<Step>, canvas: Canvas, count: nat)
    requires
        count <= more.len(),
    ensures
        after_first(before + more, canvas, before.len() + count) == after_first(
            more,
            after(before, canvas),
            count,
        ),
    decreases count,
{
    reveal(after);
    if count == 0 {
        lemma_after_same(before + more, before, canvas, before.len());
    } else {
        lemma_after_first(before, more, canvas, (count - 1) as nat);
    }
}

proof fn lemma_after_same(steps: Seq<Step>, others: Seq<Step>, canvas: Canvas, count: nat)
    requires
        forall|i: int| 0 <= i < count ==> steps[i] == others[i],
    ensures
        after_first(steps, canvas, count) == after_first(others, canvas, count),
    decreases count,
{
    if count > 0 {
        lemma_after_same(steps, others, canvas, (count - 1) as nat);
    }
}

pub(crate) proof fn lemma_after()
    ensures
        forall|before: Seq<Step>, more: Seq<Step>, canvas: Canvas| #[trigger]
            after(before + more, canvas) == after(more, after(before, canvas)),
        forall|canvas: Canvas| #[trigger] after(Seq::<Step>::empty(), canvas) == canvas,
{
    assert forall|canvas: Canvas| #[trigger] after(Seq::<Step>::empty(), canvas) == canvas by {
        reveal(after);
    }
    assert forall|before: Seq<Step>, more: Seq<Step>, canvas: Canvas| #[trigger]
        after(before + more, canvas) == after(more, after(before, canvas)) by {
        reveal(after);
        lemma_after_first(before, more, canvas, more.len());
    }
}

pub open spec fn plain_state() -> DrawState {
    DrawState { blend: 0, depth_stencil: 0, rasterizer: 0, depth_bias: 0 }
}

/// The picture of the preserved shading pass: it is drawn without blending over black.
pub open spec fn shaded_picture() -> Picture {
    Picture::Drawn {
        step: Step::RunPreserved { pipeline: Pipeline::DeferredShadingNoAtm },
        state: plain_state(),
        depth: None,
        over: Box::new(Picture::Filled { fill: Fill::Black }),
    }
}

/// The lights of the map, drawn over what the light buffer was cleared to.
pub open spec fn lit_picture(fill: Fill) -> Picture {
    Picture::Drawn {
        step: Step::Submit {
            view: ViewSlot::Main,
            stage: RenderStage::LightingApply,
            order: SubmitOrder::Serial,
            features: Features::All,
        },
        state: DrawState { blend: 8, depth_stencil: 0, rasterizer: 2, depth_bias: 2 },
        depth: None,
        over: Box::new(Picture::Filled { fill }),
    }
}

/// The light of the sun and the sky, drawn over the lights of the map where it is wanted.
pub open spec fn sunlit_picture(fill: Fill, sunny: bool) -> Picture {
    if sunny {
        Picture::Drawn {
            step: Step::RunPreserved { pipeline: Pipeline::GlobalLighting },
            state: DrawState { blend: 8, depth_stencil: 0, rasterizer: 0, depth_bias: 0 },
            depth: None,
            over: Box::new(lit_picture(fill)),
        }
    } else {
        lit_picture(fill)
    }
}

proof fn lemma_deferred(canvas: Canvas)
    ensures
        ({
            let done = after(deferred_steps(), canvas);
            &&& done.shown[Surface::ShadingResult] == shaded_picture()
            &&& forall|surface: Surface|
                surface != Surface::ShadingResult ==> #[trigger] done.shown[surface]
                    == canvas.shown[surface]
            &&& done.seen == canvas.seen
        }),
{
    reveal(after);
    reveal_with_fuel(after_first, 8);
}

proof fn lemma_shown(canvas: Canvas, source: Surface, color: bool)
    ensures
        ({
            let done = after(buffer_view_steps(source, color), canvas);
            &&& done.shown[Surface::Output] == (Picture::Copied {
                color,
                of: Box::new(canvas.shown[source]),
            })
            &&& forall|surface: Surface|
                surface != Surface::Output ==> #[trigger] done.shown[surface]
                    == canvas.shown[surface]
            &&& done.seen == canvas.seen
        }),
{
    reveal(after);
    reveal_with_fuel(after_first, 8);
}

proof fn lemma_lighting_captures(canvas: Canvas, set: CaptureSet)
    ensures
        ({
            let done = after(lighting_captures_steps(set), canvas);
            &&& done.shown == canvas.shown
            &&& done.target == canvas.target
            &&& done.seen.len() == canvas.seen.len() + 5
            &&& forall|i: int|
                0 <= i < canvas.seen.len() ==> #[trigger] done.seen[i] == canvas.seen[i]
            &&& forall|i: int|
                canvas.seen.len() <= i < done.seen.len() ==> {
                    let sight = #[trigger] done.seen[i];
                    &&& sight.set == set
                    &&& sight.picture == canvas.shown[sight.surface]
                    &&& sight.surface == Surface::LightDiffuse || sight.surface
                        == Surface::LightSpecular || sight.surface == Surface::LightSpecularIbl
                        || sight.surface == Surface::ShadingResult || sight.surface
                        == Surface::Output
                }
        }),
{
    reveal(after);
    reveal_with_fuel(after_first, 8);
}

proof fn lemma_light_steps(renderer: Renderer, canvas: Canvas)
    ensures
        ({
            let done = after(renderer.light_steps(), canvas);
            &&& done.shown[Surface::LightDiffuse] == lit_picture(Fill::LightFloor)
            &&& done.shown[Surface::LightSpecular] == lit_picture(Fill::Zero)
            &&& done.shown[Surface::LightSpecularIbl] == (Picture::Filled { fill: Fill::Zero })
            &&& done.shown[Surface::ShadowMask] == (Picture::Filled { fill: Fill::One })
            &&& forall|surface: Surface|
                surface != Surface::LightDiffuse && surface != Surface::LightSpecular && surface
                    != Surface::LightSpecularIbl && surface != Surface::ShadowMask
                    ==> #[trigger] done.shown[surface] == canvas.shown[surface]
            &&& done.seen == canvas.seen
        }),
{
    lemma_after();
    reveal(after);
    reveal_with_fuel(after_first, 8);
    let captures = renderer.captures_buffers();
    let first = steps_if(captures, reset_steps(OneShot::BufferProvenance));
    let second = steps_if(
        renderer.compares_global_lighting(),
        reset_steps(OneShot::GlobalLightingAb),
    );
    let begin = steps_if(captures, light_capture_begin_steps());
    let finish = steps_if(captures, light_capture_finish_steps());
    assert(after(first, canvas) == canvas);
    assert(after(second, canvas) == canvas);
    let cleared = after(light_clears_steps(), canvas);
    assert(after(begin, cleared) == cleared);
    let lit = after(local_lights_steps(), cleared);
    assert(after(finish, lit) == lit);
    assert(after(renderer.light_steps(), canvas) == lit);
}

/// What a capture of the preserved frame must show: the light buffers as the set's name says, the
/// shading result as it was shaded, the output as a copy of it, and the geometry buffers as they
/// were before the lights.
pub open spec fn sight_is_right(sight: Sight, before: Canvas, sunny: bool) -> bool {
    let sun = sunny && sight.set != CaptureSet::BeforeGlobalLighting;
    match sight.surface {
        Surface::LightDiffuse => sight.picture == sunlit_picture(Fill::LightFloor, sun),
        Surface::LightSpecular => sight.picture == sunlit_picture(Fill::Zero, sun),
        Surface::LightSpecularIbl => sight.picture == (Picture::Filled { fill: Fill::Zero }),
        Surface::ShadingResult => sight.picture == shaded_picture(),
        Surface::Output => sight.picture == (Picture::Copied {
            color: true,
            of: Box::new(shaded_picture()),
        }),
        Surface::Albedo | Surface::Normal | Surface::Third | Surface::Depth => sight.picture
            == before.shown[sight.surface],
        Surface::Postprocess => sight.picture == (Picture::Drawn {
            step: Step::RunPreserved { pipeline: Pipeline::FinalCombineNoFilmCurve },
            state: plain_state(),
            depth: None,
            over: Box::new(Picture::Filled { fill: Fill::Black }),
        }),
        _ => false,
    }
}

/// What the captures saw since `start` is right.
pub open spec fn sights_are_right(seen: Seq<Sight>, start: int, before: Canvas, sunny: bool) -> bool {
    forall|i: int|
        start <= i < seen.len() ==> sight_is_right(#[trigger] seen[i], before, sunny)
}

#[verifier::rlimit(40)]
proof fn lemma_global_light_steps(
    renderer: Renderer,
    debug: Option<DebugPipeline>,
    before: Canvas,
    canvas: Canvas,
)
    requires
        canvas == after(renderer.light_steps(), before),
    ensures
        ({
            let done = after(renderer.global_light_steps(debug), canvas);
            let sunny = renderer.wants_global_lighting(debug);
            &&& done.shown[Surface::LightDiffuse] == sunlit_picture(Fill::LightFloor, sunny)
            &&& done.shown[Surface::LightSpecular] == sunlit_picture(Fill::Zero, sunny)
            &&& forall|surface: Surface|
                surface != Surface::LightDiffuse && surface != Surface::LightSpecular && surface
                    != Surface::ShadingResult && surface != Surface::Output
                    ==> #[trigger] done.shown[surface] == canvas.shown[surface]
            &&& done.seen.len() >= canvas.seen.len()
            &&& forall|i: int|
                0 <= i < canvas.seen.len() ==> #[trigger] done.seen[i] == canvas.seen[i]
            &&& sights_are_right(done.seen, canvas.seen.len() as int, before, sunny)
        }),
{
    lemma_after();
    lemma_light_steps(renderer, before);
    let compares = renderer.compares_global_lighting();
    let sunny = renderer.wants_global_lighting(debug);
    lemma_baseline(renderer, before, canvas, sunny);
    let base = after(steps_if(compares, renderer.baseline_steps()), canvas);
    assert(base == if compares {
        after(renderer.baseline_steps(), canvas)
    } else {
        canvas
    });
    let bound = after(light_targets_steps(), base);
    lemma_light_targets(base);
    let lit = after(steps_if(sunny, global_lighting_steps()), bound);
    lemma_sun(bound, sunny);
    lemma_lighting_captures(lit, CaptureSet::AfterGlobalLighting);
    let done = after(
        steps_if(compares, lighting_captures_steps(CaptureSet::AfterGlobalLighting)),
        lit,
    );
    assert(after(renderer.global_light_steps(debug), canvas) == done);
    assert(sights_are_right(done.seen, canvas.seen.len() as int, before, sunny));
}

proof fn lemma_baseline(renderer: Renderer, before: Canvas, canvas: Canvas, sunny: bool)
    requires
        canvas.shown[Surface::LightDiffuse] == lit_picture(Fill::LightFloor),
        canvas.shown[Surface::LightSpecular] == lit_picture(Fill::Zero),
        canvas.shown[Surface::LightSpecularIbl] == (Picture::Filled { fill: Fill::Zero }),
    ensures
        ({
            let done = after(renderer.baseline_steps(), canvas);
            &&& done.shown[Surface::ShadingResult] == shaded_picture()
            &&& done.shown[Surface::Output] == (Picture::Copied {
                color: true,
                of: Box::new(shaded_picture()),
            })
            &&& forall|surface: Surface|
                surface != Surface::ShadingResult && surface != Surface::Output
                    ==> #[trigger] done.shown[surface] == canvas.shown[surface]
            &&& done.seen.len() >= canvas.seen.len()
            &&& forall|i: int|
                0 <= i < canvas.seen.len() ==> #[trigger] done.seen[i] == canvas.seen[i]
            &&& sights_are_right(done.seen, canvas.seen.len() as int, before, sunny)
        }),
{
    lemma_after();
    let shaded = after(deferred_steps(), canvas);
    lemma_deferred(canvas);
    let copied = after(buffer_view_steps(Surface::ShadingResult, true), shaded);
    lemma_shown(shaded, Surface::ShadingResult, true);
    lemma_lighting_captures(copied, CaptureSet::BeforeGlobalLighting);
}

proof fn lemma_light_targets(canvas: Canvas)
    ensures
        after(light_targets_steps(), canvas) == (Canvas { target: Target::Lights, ..canvas }),
{
    reveal(after);
    reveal_with_fuel(after_first, 3);
}

proof fn lemma_sun(canvas: Canvas, sunny: bool)
    requires
        canvas.target is Lights,
        canvas.shown[Surface::LightDiffuse] == lit_picture(Fill::LightFloor),
        canvas.shown[Surface::LightSpecular] == lit_picture(Fill::Zero),
    ensures
        ({
            let done = after(steps_if(sunny, global_lighting_steps()), canvas);
            &&& done.seen == canvas.seen
            &&& done.shown[Surface::LightDiffuse] == sunlit_picture(Fill::LightFloor, sunny)
            &&& done.shown[Surface::LightSpecular] == sunlit_picture(Fill::Zero, sunny)
            &&& forall|surface: Surface|
                surface != Surface::LightDiffuse && surface != Surface::LightSpecular
                    ==> #[trigger] done.shown[surface] == canvas.shown[surface]
        }),
{
    reveal(after);
    reveal_with_fuel(after_first, 5);
}

proof fn lemma_captures_keep(canvas: Canvas, set: CaptureSet)
    ensures
        ({
            let done = after(output_captures_steps(set), canvas);
            &&& done.shown == canvas.shown
            &&& done.seen == canvas.seen.push(
                Sight {
                    set,
                    surface: Surface::ShadingResult,
                    picture: canvas.shown[Surface::ShadingResult],
                },
            ).push(
                Sight { set, surface: Surface::Output, picture: canvas.shown[Surface::Output] },
            )
        }),
        ({
            let done = after(input_captures_steps(), canvas);
            &&& done.shown == canvas.shown
            &&& done.seen.len() == canvas.seen.len() + 6
            &&& forall|i: int|
                0 <= i < canvas.seen.len() ==> #[trigger] done.seen[i] == canvas.seen[i]
            &&& forall|i: int|
                canvas.seen.len() <= i < done.seen.len() ==> {
                    let sight = #[trigger] done.seen[i];
                    &&& sight.set == CaptureSet::BufferProvenance
                    &&& sight.picture == canvas.shown[sight.surface]
                    &&& sight.surface == Surface::LightDiffuse || sight.surface
                        == Surface::LightSpecular || sight.surface == Surface::Albedo
                        || sight.surface == Surface::Normal || sight.surface == Surface::Third
                        || sight.surface == Surface::Depth
                }
        }),
        after(manifest_steps(set), canvas) == canvas,
{
    reveal(after);
    reveal_with_fuel(after_first, 8);
}

proof fn lemma_combine(renderer: Renderer, canvas: Canvas)
    ensures
        ({
            let done = after(renderer.combine_steps(), canvas);
            &&& forall|surface: Surface|
                surface != Surface::Postprocess && surface != Surface::ShadingResultRead
                    ==> #[trigger] done.shown[surface] == canvas.shown[surface]
            &&& done.seen.len() >= canvas.seen.len()
            &&& forall|i: int|
                0 <= i < canvas.seen.len() ==> #[trigger] done.seen[i] == canvas.seen[i]
            &&& forall|i: int|
                canvas.seen.len() <= i < done.seen.len() ==> {
                    let sight = #[trigger] done.seen[i];
                    &&& sight.surface == Surface::Postprocess
                    &&& sight.picture == (Picture::Drawn {
                        step: Step::RunPreserved { pipeline: Pipeline::FinalCombineNoFilmCurve },
                        state: plain_state(),
                        depth: None,
                        over: Box::new(Picture::Filled { fill: Fill::Black }),
                    })
                }
        }),
{
    lemma_after();
    reveal(after);
    reveal_with_fuel(after_first, 11);
    assert(after(reset_steps(OneShot::FinalCombineNoFilmCurve), canvas) == canvas);
}

proof fn lemma_exposures(renderer: Renderer, canvas: Canvas)
    ensures
        ({
            let done = after(exposure_steps(renderer.flags), canvas);
            &&& forall|surface: Surface|
                surface != Surface::ShadingResult && surface != Surface::Output
                    ==> #[trigger] done.shown[surface] == canvas.shown[surface]
            &&& done.seen == canvas.seen
        }),
{
    lemma_after();
    reveal(after);
    reveal_with_fuel(after_first, 5);
    assert(after(reset_steps(OneShot::ExposureAb), canvas) == canvas);
}

#[verifier::rlimit(40)]
proof fn lemma_final_steps(renderer: Renderer, before: Canvas, canvas: Canvas, sunny: bool)
    requires
        canvas.shown[Surface::LightDiffuse] == sunlit_picture(Fill::LightFloor, sunny),
        canvas.shown[Surface::LightSpecular] == sunlit_picture(Fill::Zero, sunny),
        canvas.shown[Surface::LightSpecularIbl] == (Picture::Filled { fill: Fill::Zero }),
        canvas.shown[Surface::Albedo] == before.shown[Surface::Albedo],
        canvas.shown[Surface::Normal] == before.shown[Surface::Normal],
        canvas.shown[Surface::Third] == before.shown[Surface::Third],
        canvas.shown[Surface::Depth] == before.shown[Surface::Depth],
    ensures
        ({
            let done = after(renderer.final_steps(), canvas);
            &&& done.shown[Surface::ShadingResult] == shaded_picture()
            &&& done.shown[Surface::Output] == (Picture::Copied {
                color: true,
                of: Box::new(shaded_picture()),
            })
            &&& done.shown[Surface::LightDiffuse] == canvas.shown[Surface::LightDiffuse]
            &&& done.shown[Surface::LightSpecular] == canvas.shown[Surface::LightSpecular]
            &&& done.seen.len() >= canvas.seen.len()
            &&& forall|i: int|
                0 <= i < canvas.seen.len() ==> #[trigger] done.seen[i] == canvas.seen[i]
            &&& sights_are_right(done.seen, canvas.seen.len() as int, before, sunny)
        }),
{
    lemma_after();
    let start = canvas.seen.len() as int;
    let first = after(steps_if(renderer.captures_buffers(), input_captures_steps()), canvas);
    lemma_captures_keep(canvas, CaptureSet::BufferProvenance);
    assert(sights_are_right(first.seen, start, before, sunny));
    let second = after(exposure_steps(renderer.flags), first);
    lemma_exposures(renderer, first);
    let third = after(deferred_steps(), second);
    lemma_deferred(second);
    let fourth = after(renderer.combine_steps(), third);
    lemma_combine(renderer, third);
    assert(sights_are_right(fourth.seen, start, before, sunny));
    let fifth = after(buffer_view_steps(Surface::ShadingResult, true), fourth);
    lemma_shown(fourth, Surface::ShadingResult, true);
    let captures = lighting_captures_steps(CaptureSet::AfterFinalShading);
    let sixth = after(
        steps_if(
            renderer.compares_global_lighting(),
            captures + manifest_steps(CaptureSet::AfterFinalShading),
        ),
        fifth,
    );
    lemma_lighting_captures(fifth, CaptureSet::AfterFinalShading);
    lemma_captures_keep(after(captures, fifth), CaptureSet::AfterFinalShading);
    assert(sights_are_right(sixth.seen, start, before, sunny));
    let outputs = output_captures_steps(CaptureSet::BufferProvenance);
    let seventh = after(
        steps_if(
            renderer.captures_buffers(),
            outputs + manifest_steps(CaptureSet::BufferProvenance),
        ),
        sixth,
    );
    lemma_captures_keep(sixth, CaptureSet::BufferProvenance);
    lemma_captures_keep(after(outputs, sixth), CaptureSet::BufferProvenance);
    assert(sights_are_right(seventh.seen, start, before, sunny));
    assert(after(renderer.final_steps(), canvas) == seventh);
}

/// A preserved frame that shades shows in the output a copy of the shading result, which the
/// shading pass drew over black and nothing touched since. The light buffers hold the lights of
/// the map over what they were cleared to, and over these the light of the sun and the sky where
/// it is wanted.
pub proof fn law_shaded_frames_show_what_was_shaded(
    renderer: Renderer,
    debug: Option<DebugPipeline>,
    canvas: Canvas,
)
    requires
        debug is None || debug->Some_0.shaded(),
        renderer.can_shade(debug),
    ensures
        ({
            let done = after(renderer.preserved_steps(debug), canvas);
            let sunny = renderer.flags.global_lighting && (debug is None || debug == Some(
                DebugPipeline::Shaded,
            ) || debug == Some(DebugPipeline::ShadedNoAtm));
            &&& done.shown[Surface::Output] == (Picture::Copied {
                color: true,
                of: Box::new(done.shown[Surface::ShadingResult]),
            })
            &&& done.shown[Surface::ShadingResult] == (Picture::Drawn {
                step: Step::RunPreserved { pipeline: Pipeline::DeferredShadingNoAtm },
                state: DrawState { blend: 0, depth_stencil: 0, rasterizer: 0, depth_bias: 0 },
                depth: None,
                over: Box::new(Picture::Filled { fill: Fill::Black }),
            })
            &&& done.shown[Surface::LightDiffuse] == sunlit_picture(Fill::LightFloor, sunny)
            &&& done.shown[Surface::LightSpecular] == sunlit_picture(Fill::Zero, sunny)
        }),
{
    lemma_after();
    let lit = after(renderer.light_steps(), canvas);
    let sunlit = after(renderer.global_light_steps(debug), lit);
    lemma_light_steps(renderer, canvas);
    lemma_global_light_steps(renderer, debug, canvas, lit);
    lemma_final_steps(renderer, canvas, sunlit, renderer.wants_global_lighting(debug));
}

/// Every capture of a preserved frame that shades sees what it is named for: the shading result
/// and the output as the shading pass left them, the light buffers before or after the light of
/// the sun and the sky, and the geometry buffers as they were filled. No capture sees a surface
/// that was cleared and not drawn again, but for the one light buffer that nothing draws into.
pub proof fn law_captures_see_finished_surfaces(
    renderer: Renderer,
    debug: Option<DebugPipeline>,
    canvas: Canvas,
    at: int,
)
    requires
        debug is None || debug->Some_0.shaded(),
        renderer.can_shade(debug),
        canvas.seen.len() <= at < after(renderer.preserved_steps(debug), canvas).seen.len(),
    ensures
        ({
            let sight = after(renderer.preserved_steps(debug), canvas).seen[at];
            &&& sight_is_right(sight, canvas, renderer.wants_global_lighting(debug))
            &&& sight.picture is Filled ==> sight.surface == Surface::LightSpecularIbl || sight.picture
                == canvas.shown[sight.surface]
        }),
{
    lemma_after();
    let lit = after(renderer.light_steps(), canvas);
    let sunlit = after(renderer.global_light_steps(debug), lit);
    lemma_light_steps(renderer, canvas);
    lemma_global_light_steps(renderer, debug, canvas, lit);
    lemma_final_steps(renderer, canvas, sunlit, renderer.wants_global_lighting(debug));
}

/// A view of a light buffer shows it as it stands once all lights are applied.
pub proof fn law_light_views_show_the_lights(
    renderer: Renderer,
    view: DebugPipeline,
    canvas: Canvas,
)
    requires
        view == DebugPipeline::LightDiffuse || view == DebugPipeline::LightSpecular,
        renderer.can_shade(Some(view)),
    ensures
        after(renderer.preserved_steps(Some(view)), canvas).shown[Surface::Output] == (
        Picture::Copied {
            color: true,
            of: Box::new(
                lit_picture(
                    if view == DebugPipeline::LightDiffuse {
                        Fill::LightFloor
                    } else {
                        Fill::Zero
                    },
                ),
            ),
        }),
{
    lemma_after();
    let lit = after(renderer.light_steps(), canvas);
    let sunlit = after(renderer.global_light_steps(Some(view)), lit);
    lemma_light_steps(renderer, canvas);
    lemma_global_light_steps(renderer, Some(view), canvas, lit);
    lemma_shown(sunlit, Surface::LightDiffuse, true);
    lemma_shown(sunlit, Surface::LightSpecular, true);
}

/// A view of a geometry buffer shows that buffer as it was filled. Only the albedo is a color.
pub proof fn law_buffer_views_show_their_buffer(
    renderer: Renderer,
    view: DebugPipeline,
    canvas: Canvas,
)
    requires
        !view.shaded(),
        !view.shows_light(),
        view != DebugPipeline::Overdraw,
    ensures
        ({
            let shown = after(renderer.preserved_steps(Some(view)), canvas).shown[Surface::Output];
            &&& view == DebugPipeline::Albedo ==> shown == (Picture::Copied {
                color: true,
                of: Box::new(canvas.shown[Surface::Albedo]),
            })
            &&& view == DebugPipeline::WorldNormal ==> shown == (Picture::Copied {
                color: false,
                of: Box::new(canvas.shown[Surface::Normal]),
            })
            &&& view == DebugPipeline::DepthEdges ==> shown == (Picture::Copied {
                color: false,
                of: Box::new(canvas.shown[Surface::DepthProxy]),
            })
            &&& view != DebugPipeline::Albedo && view != DebugPipeline::WorldNormal && view
                != DebugPipeline::DepthEdges ==> shown == (Picture::Copied {
                color: false,
                of: Box::new(canvas.shown[Surface::Third]),
            })
        }),
{
    lemma_shown(canvas, Surface::Albedo, true);
    lemma_shown(canvas, Surface::Normal, false);
    lemma_shown(canvas, Surface::DepthProxy, false);
    lemma_shown(canvas, Surface::Third, false);
}

/// Where a preserved frame cannot shade, and where overdraw is asked for, the output shows the
/// geometry preview, drawn over black.
pub proof fn law_the_preview_is_drawn_over_black(
    renderer: Renderer,
    debug: Option<DebugPipeline>,
    canvas: Canvas,
)
    requires
        debug == Some(DebugPipeline::Overdraw) || (debug is None || debug->Some_0.shaded()
            || debug->Some_0.shows_light()) && !renderer.can_shade(debug),
    ensures
        after(renderer.preserved_steps(debug), canvas).shown[Surface::Output] == (Picture::Drawn {
            step: Step::Draw { fullscreen: Fullscreen::GeometryPreview },
            state: plain_state(),
            depth: None,
            over: Box::new(Picture::Filled { fill: Fill::Black }),
        }),
{
    lemma_after();
    reveal(after);
    reveal_with_fuel(after_first, 8);
    let refused = after(refused_steps(Refusal::ShadedPassUnavailable), canvas);
    assert(refused == canvas);
}

/// Each compared exposure shades anew, shows the result, and then captures both, under its own
/// set.
pub proof fn law_exposures_capture_what_they_shade(variant: ExposureVariant, canvas: Canvas)
    ensures
        ({
            let done = after(exposure_variant_steps(variant), canvas);
            let copy = Picture::Copied { color: true, of: Box::new(shaded_picture()) };
            &&& done.shown[Surface::ShadingResult] == shaded_picture()
            &&& done.shown[Surface::Output] == copy
            &&& done.seen == canvas.seen.push(
                Sight {
                    set: variant.set,
                    surface: Surface::ShadingResult,
                    picture: shaded_picture(),
                },
            ).push(Sight { set: variant.set, surface: Surface::Output, picture: copy })
        }),
{
    lemma_after();
    let shaded = after(deferred_steps(), canvas);
    lemma_deferred(canvas);
    let copied = after(buffer_view_steps(Surface::ShadingResult, true), shaded);
    lemma_shown(shaded, Surface::ShadingResult, true);
    lemma_captures_keep(copied, variant.set);
}

/// The final combination is drawn over black and captured as it was drawn, and the shading result
/// that it reads is the one that stands on the readable copy.
pub proof fn law_the_final_combination_reads_the_shading(canvas: Canvas)
    ensures
        ({
            let done = after(final_combine_steps(), canvas);
            let combined = Picture::Drawn {
                step: Step::RunPreserved { pipeline: Pipeline::FinalCombineNoFilmCurve },
                state: plain_state(),
                depth: None,
                over: Box::new(Picture::Filled { fill: Fill::Black }),
            };
            &&& done.shown[Surface::ShadingResultRead] == (Picture::Copied {
                color: true,
                of: Box::new(canvas.shown[Surface::ShadingResult]),
            })
            &&& done.shown[Surface::Postprocess] == combined
            &&& done.seen == canvas.seen.push(
                Sight {
                    set: CaptureSet::FinalCombine,
                    surface: Surface::Postprocess,
                    picture: combined,
                },
            )
        }),
{
    reveal(after);
    reveal_with_fuel(after_first, 11);
}

} // verus!
