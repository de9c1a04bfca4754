//! What a view shows: the pictures that the steps of a current frame leave on its surfaces.

use vstd::prelude::*;

use crate::canvas::{
    after, after_first, after_step, lemma_after, plain_state, Canvas, Picture, Target,
};
use crate::geometry::RenderStage;
use crate::overlays::{
    decal_steps, lookup_steps, preserved_transparent_steps, refresh_steps, sky_object_steps,
};
use crate::pipelines::Pipeline;
use crate::steps::{
    AtmospherePipeline, DebugPipeline, DrawState, Features, Fill, Fullscreen, RendererEra, Step,
    SubmitOrder, Surface, ViewSlot,
};
use crate::submit::{
    background_steps, current_steps, debug_view_steps, distortion_steps, entry_steps,
    finished_steps, frame_scope_steps, fresh_shading_steps, gbuffer_steps, grading_steps,
    immediate_geometry_steps, input_steps, lighting_steps, lit_by_request, main_inputs_steps,
    none_or, overdraw_steps, presented_steps, shading_steps, shared_inputs_steps,
    sky_lookup_steps, sky_mask_steps, steps_if, surfaces_steps, transparents_steps,
    unshaded_copy_steps, view_scope_steps, volume_fog_steps, water_steps, Renderer, ViewKind,
    ViewSettings,
};

verus! {

/// What a current frame shows in the shading result once its view is drawn: the pipeline of the
/// view, or the composite where no view is chosen, over black, and over that the background where
/// the view has an atmosphere.
pub open spec fn viewed_picture(debug: Option<DebugPipeline>) -> Picture {
    let viewed = Picture::Drawn {
        step: match debug {
            Some(view) => Step::Run { pipeline: view.pipeline() },
            None => Step::Draw { fullscreen: Fullscreen::GeometryPreview },
        },
        state: plain_state(),
        depth: None,
        over: Box::new(Picture::Filled { fill: Fill::Black }),
    };
    if debug is None || debug->Some_0.atmospheric() {
        Picture::Drawn {
            step: Step::Draw { fullscreen: Fullscreen::Background },
            state: plain_state(),
            depth: None,
            over: Box::new(viewed),
        }
    } else {
        viewed
    }
}

/// The transparent objects over a picture, in the order of their stages, behind the depth buffer.
pub open spec fn with_transparents(picture: Picture, parallel: bool) -> Picture {
    let state = DrawState { blend: 8, depth_stencil: 15, rasterizer: 2, depth_bias: 1 };
    Picture::Drawn {
        step: Step::Submit {
            view: ViewSlot::Main,
            stage: RenderStage::Transparents,
            order: if parallel {
                SubmitOrder::ParallelLinear
            } else {
                SubmitOrder::Serial
            },
            features: Features::AllButWater,
        },
        state,
        depth: Some(Surface::Depth),
        over: Box::new(
            Picture::Drawn {
                step: Step::Submit {
                    view: ViewSlot::Main,
                    stage: RenderStage::DecalsAdditive,
                    order: SubmitOrder::ParallelApply,
                    features: Features::All,
                },
                state,
                depth: Some(Surface::Depth),
                over: Box::new(picture),
            },
        ),
    }
}

proof fn lemma_current_head(
    global_lighting: bool,
    debug: Option<DebugPipeline>,
    canvas: Canvas,
)
    ensures
        ({
            let head = steps_if(lit_by_request(debug), lighting_steps()) + sky_mask_steps()
                + sky_lookup_steps() + shading_steps(
                if global_lighting {
                    Pipeline::GlobalLightingAndShadingGel
                } else {
                    Pipeline::DeferredShading
                },
            );
            let done = after(head, canvas);
            &&& done.state == plain_state()
            &&& done.seen == canvas.seen
            &&& done.shown[Surface::ShadingResult] == (Picture::Drawn {
                step: Step::Run {
                    pipeline: if global_lighting {
                        Pipeline::GlobalLightingAndShadingGel
                    } else {
                        Pipeline::DeferredShading
                    },
                },
                state: plain_state(),
                depth: None,
                over: Box::new(Picture::Filled { fill: Fill::Black }),
            })
            &&& done.shown[Surface::Postprocess] == canvas.shown[Surface::Postprocess]
            &&& done.shown[Surface::Output] == canvas.shown[Surface::Output]
            &&& done.shown[Surface::SkyMask] is Drawn
            &&& done.shown[Surface::SkyMask]->step == (Step::Run {
                pipeline: Pipeline::DownsampleBlock2x2,
            })
            &&& done.shown[Surface::SkyMaskInitial] is Drawn
            &&& done.shown[Surface::SkyMaskInitial]->step == (Step::Run {
                pipeline: Pipeline::SkyGenerateSkyMask,
            })
            &&& done.shown[Surface::SkyLookupNear] is Drawn
            &&& done.shown[Surface::SkyLookupNear]->step == (Step::Run {
                pipeline: Pipeline::SkyLookupGenerateNear,
            })
            &&& done.shown[Surface::SkyLookupFar] is Drawn
            &&& done.shown[Surface::SkyLookupFar]->step == (Step::Run {
                pipeline: Pipeline::SkyLookupGenerateFar,
            })
        }),
{
    lemma_after();
    let lit = after(steps_if(lit_by_request(debug), lighting_steps()), canvas);
    lemma_requested_lighting(debug, canvas);
    let masked = after(sky_mask_steps(), lit);
    lemma_sky_mask(lit);
    let looked = after(sky_lookup_steps(), masked);
    lemma_sky_lookup(masked);
    lemma_shading(
        if global_lighting {
            Pipeline::GlobalLightingAndShadingGel
        } else {
            Pipeline::DeferredShading
        },
        looked,
    );
}

proof fn lemma_shading(pipeline: Pipeline, canvas: Canvas)
    ensures
        ({
            let done = after(shading_steps(pipeline), canvas);
            &&& done.shown[Surface::ShadingResult] == (Picture::Drawn {
                step: Step::Run { pipeline },
                state: plain_state(),
                depth: None,
                over: Box::new(Picture::Filled { fill: Fill::Black }),
            })
            &&& forall|surface: Surface|
                surface != Surface::ShadingResult ==> #[trigger] done.shown[surface]
                    == canvas.shown[surface]
            &&& done.state == plain_state()
            &&& done.seen == canvas.seen
        }),
{
    reveal(after);
    reveal_with_fuel(after_first, 7);
}

proof fn lemma_requested_lighting(debug: Option<DebugPipeline>, canvas: Canvas)
    ensures
        ({
            let lit = after(steps_if(lit_by_request(debug), lighting_steps()), canvas);
            &&& lit.seen == canvas.seen
            &&& forall|surface: Surface|
                surface != Surface::LightDiffuse && surface != Surface::LightSpecular
                    ==> #[trigger] lit.shown[surface] == canvas.shown[surface]
        }),
{
    reveal(after);
    reveal_with_fuel(after_first, 3);
}

proof fn lemma_sky_mask(canvas: Canvas)
    ensures
        ({
            let done = after(sky_mask_steps(), canvas);
            &&& done.shown[Surface::SkyMaskInitial] == (Picture::Drawn {
                step: Step::Run { pipeline: Pipeline::SkyGenerateSkyMask },
                state: plain_state(),
                depth: None,
                over: Box::new(canvas.shown[Surface::SkyMaskInitial]),
            })
            &&& done.shown[Surface::SkyMask] == (Picture::Drawn {
                step: Step::Run { pipeline: Pipeline::DownsampleBlock2x2 },
                state: plain_state(),
                depth: None,
                over: Box::new(canvas.shown[Surface::SkyMask]),
            })
            &&& forall|surface: Surface|
                surface != Surface::SkyMaskInitial && surface != Surface::SkyMask
                    ==> #[trigger] done.shown[surface] == canvas.shown[surface]
            &&& done.seen == canvas.seen
        }),
{
    reveal(after);
    reveal_with_fuel(after_first, 10);
}

proof fn lemma_sky_lookup(canvas: Canvas)
    ensures
        ({
            let done = after(sky_lookup_steps(), canvas);
            &&& done.shown[Surface::SkyLookupNear] == (Picture::Drawn {
                step: Step::Run { pipeline: Pipeline::SkyLookupGenerateNear },
                state: plain_state(),
                depth: None,
                over: Box::new(canvas.shown[Surface::SkyLookupNear]),
            })
            &&& done.shown[Surface::SkyLookupFar] == (Picture::Drawn {
                step: Step::Run { pipeline: Pipeline::SkyLookupGenerateFar },
                state: plain_state(),
                depth: None,
                over: Box::new(canvas.shown[Surface::SkyLookupFar]),
            })
            &&& forall|surface: Surface|
                surface != Surface::SkyLookupNear && surface != Surface::SkyLookupFar
                    ==> #[trigger] done.shown[surface] == canvas.shown[surface]
            &&& done.seen == canvas.seen
        }),
{
    reveal(after);
    reveal_with_fuel(after_first, 11);
}

proof fn lemma_debug_view(debug: Option<DebugPipeline>, canvas: Canvas)
    requires
        canvas.state == plain_state(),
    ensures
        ({
            let done = after(
                debug_view_steps(debug) + steps_if(
                    none_or(debug, debug is Some && debug->Some_0.atmospheric()),
                    background_steps(),
                ),
                canvas,
            );
            &&& done.shown[Surface::ShadingResult] == viewed_picture(debug)
            &&& done.shown[Surface::Postprocess] == canvas.shown[Surface::Postprocess]
            &&& done.shown[Surface::Output] == canvas.shown[Surface::Output]
            &&& done.seen == canvas.seen
        }),
{
    lemma_after();
    reveal(after);
    reveal_with_fuel(after_first, 6);
    let fresh = after(fresh_shading_steps(), canvas);
    assert(fresh.target == (Target::Single { surface: Surface::ShadingResult, depth: None }));
    let viewed = after(debug_view_steps(debug), canvas);
    assert(viewed.state == plain_state());
    assert(viewed.target == fresh.target);
}

/// The shading result of a finished current frame: over the view the transparent objects, the
/// water, and the fog where a view is chosen.
pub open spec fn finished_picture(picture: Picture, parallel: bool, fog: bool, state: DrawState) -> Picture {
    let wet = Picture::Drawn {
        step: Step::Water,
        state,
        depth: None,
        over: Box::new(with_transparents(picture, parallel)),
    };
    if fog {
        Picture::Drawn { step: Step::VolumeFog, state, depth: None, over: Box::new(wet) }
    } else {
        wet
    }
}

pub open spec fn graded_picture(under: Picture) -> Picture {
    Picture::Drawn {
        step: Step::Run {
            pipeline: Pipeline::ScreenAreaGlobalLut3d { distort: true, noise: false, hdr: false },
        },
        state: plain_state(),
        depth: None,
        over: Box::new(under),
    }
}

proof fn lemma_transparents(order: SubmitOrder, canvas: Canvas)
    requires
        order == SubmitOrder::ParallelLinear || order == SubmitOrder::Serial,
    ensures
        ({
            let done = after(transparents_steps(order), canvas);
            &&& done.shown[Surface::ShadingResult] == with_transparents(
                canvas.shown[Surface::ShadingResult],
                order == SubmitOrder::ParallelLinear,
            )
            &&& forall|surface: Surface|
                surface != Surface::ShadingResult ==> #[trigger] done.shown[surface]
                    == canvas.shown[surface]
            &&& done.seen == canvas.seen
        }),
{
    reveal(after);
    reveal_with_fuel(after_first, 13);
}

proof fn lemma_distortion(canvas: Canvas)
    ensures
        ({
            let done = after(distortion_steps(), canvas);
            &&& done.shown[Surface::Distortion] == (Picture::Drawn {
                step: Step::Submit {
                    view: ViewSlot::Main,
                    stage: RenderStage::Distortion,
                    order: SubmitOrder::Serial,
                    features: Features::All,
                },
                state: DrawState { blend: 8, depth_stencil: 15, rasterizer: 2, depth_bias: 1 },
                depth: Some(Surface::DepthHalf),
                over: Box::new(Picture::Filled { fill: Fill::Zero }),
            })
            &&& forall|surface: Surface|
                surface != Surface::Distortion ==> #[trigger] done.shown[surface]
                    == canvas.shown[surface]
            &&& done.state == (DrawState {
                blend: 8,
                depth_stencil: 15,
                rasterizer: 2,
                depth_bias: 1,
            })
            &&& done.seen == canvas.seen
        }),
{
    reveal(after);
    reveal_with_fuel(after_first, 13);
}

proof fn lemma_finished(parallel: bool, fog: bool, canvas: Canvas)
    ensures
        ({
            let done = after(finished_steps(parallel, fog), canvas);
            let state = DrawState { blend: 8, depth_stencil: 15, rasterizer: 2, depth_bias: 1 };
            let shading = finished_picture(
                canvas.shown[Surface::ShadingResult],
                parallel,
                fog,
                state,
            );
            &&& done.shown[Surface::ShadingResult] == shading
            &&& done.shown[Surface::ShadingResultRead] == (Picture::Copied {
                color: true,
                of: Box::new(shading),
            })
            &&& done.shown[Surface::Postprocess] == graded_picture(
                canvas.shown[Surface::Postprocess],
            )
            &&& done.shown[Surface::Output] == canvas.shown[Surface::Output]
            &&& done.seen == canvas.seen
        }),
{
    lemma_after();
    let order = if parallel {
        SubmitOrder::ParallelLinear
    } else {
        SubmitOrder::Serial
    };
    let first = after(transparents_steps(order), canvas);
    lemma_transparents(order, canvas);
    let second = after(distortion_steps(), first);
    lemma_distortion(first);
    let third = after(water_steps(), second);
    let fourth = after(steps_if(fog, volume_fog_steps()), third);
    lemma_water_and_fog(fog, second);
    let fifth = after(grading_steps(), fourth);
    lemma_grading(fourth);
    assert(after(finished_steps(parallel, fog), canvas) == fifth);
}

proof fn lemma_water_and_fog(fog: bool, canvas: Canvas)
    ensures
        ({
            let wet = Picture::Drawn {
                step: Step::Water,
                state: canvas.state,
                depth: None,
                over: Box::new(canvas.shown[Surface::ShadingResult]),
            };
            let done = after(steps_if(fog, volume_fog_steps()), after(water_steps(), canvas));
            &&& done.shown[Surface::ShadingResult] == if fog {
                Picture::Drawn {
                    step: Step::VolumeFog,
                    state: canvas.state,
                    depth: None,
                    over: Box::new(wet),
                }
            } else {
                wet
            }
            &&& done.shown[Surface::Postprocess] == canvas.shown[Surface::Postprocess]
            &&& done.shown[Surface::Output] == canvas.shown[Surface::Output]
            &&& done.seen == canvas.seen
        }),
{
    reveal(after);
    reveal_with_fuel(after_first, 4);
}

proof fn lemma_grading(canvas: Canvas)
    ensures
        ({
            let done = after(grading_steps(), canvas);
            &&& done.shown[Surface::ShadingResult] == canvas.shown[Surface::ShadingResult]
            &&& done.shown[Surface::ShadingResultRead] == (Picture::Copied {
                color: true,
                of: Box::new(canvas.shown[Surface::ShadingResult]),
            })
            &&& done.shown[Surface::Postprocess] == graded_picture(
                canvas.shown[Surface::Postprocess],
            )
            &&& done.shown[Surface::Output] == canvas.shown[Surface::Output]
            &&& done.seen == canvas.seen
        }),
{
    reveal(after);
    reveal_with_fuel(after_first, 8);
}

/// The immediate geometry over a picture, tested against the depth buffer.
pub open spec fn with_immediate_geometry(picture: Picture) -> Picture {
    Picture::Drawn {
        step: Step::ImmediateGeometry,
        state: DrawState { blend: 0, depth_stencil: 2, rasterizer: 2, depth_bias: 0 },
        depth: Some(Surface::Depth),
        over: Box::new(picture),
    }
}

proof fn lemma_presented(smoothed: bool, anti_aliasing: bool, canvas: Canvas)
    ensures
        ({
            let done = after(
                immediate_geometry_steps() + presented_steps(smoothed, anti_aliasing),
                canvas,
            );
            let posted = with_immediate_geometry(canvas.shown[Surface::Postprocess]);
            &&& done.shown[Surface::Postprocess] == posted
            &&& done.shown[Surface::ShadingResult] == canvas.shown[Surface::ShadingResult]
            &&& smoothed && anti_aliasing ==> done.shown[Surface::Output] == (Picture::Drawn {
                step: Step::Run { pipeline: Pipeline::Fxaa },
                state: plain_state(),
                depth: None,
                over: Box::new(canvas.shown[Surface::Output]),
            })
            &&& smoothed && !anti_aliasing ==> done.shown[Surface::Output] == (Picture::Copied {
                color: true,
                of: Box::new(posted),
            })
            &&& !smoothed ==> done.shown[Surface::Output] == (Picture::Copied {
                color: true,
                of: Box::new(canvas.shown[Surface::ShadingResultRead]),
            })
            &&& done.seen == canvas.seen
        }),
{
    lemma_after();
    reveal(after);
    reveal_with_fuel(after_first, 7);
}

/// A current frame draws its view over black, and the background where the view has an
/// atmosphere. A shaded view gets the transparent objects, the water and the fog over that, and is
/// graded into the postprocess surface; any other view is copied there. Over this the immediate
/// geometry is drawn. The output is the postprocess surface, smoothed on request, or, for a view
/// that is not to be smoothed, the shading result as it was read.
#[verifier::rlimit(40)]
pub proof fn law_current_frames_show_their_view(
    global_lighting: bool,
    settings: ViewSettings,
    debug: Option<DebugPipeline>,
    canvas: Canvas,
)
    ensures
        ({
            let done = after(current_steps(global_lighting, settings, debug), canvas);
            let finished = debug is None || debug->Some_0.shaded();
            let smoothed = debug is None || debug->Some_0.smoothed();
            let shading = if finished {
                finished_picture(
                    viewed_picture(debug),
                    settings.multithreading,
                    debug is Some,
                    DrawState { blend: 8, depth_stencil: 15, rasterizer: 2, depth_bias: 1 },
                )
            } else {
                viewed_picture(debug)
            };
            let read = Picture::Copied { color: true, of: Box::new(shading) };
            let posted = with_immediate_geometry(
                if finished {
                    graded_picture(canvas.shown[Surface::Postprocess])
                } else {
                    Picture::Copied { color: true, of: Box::new(read) }
                },
            );
            &&& done.shown[Surface::ShadingResult] == shading
            &&& done.shown[Surface::Postprocess] == posted
            &&& smoothed && settings.anti_aliasing ==> done.shown[Surface::Output] == (
            Picture::Drawn {
                step: Step::Run { pipeline: Pipeline::Fxaa },
                state: plain_state(),
                depth: None,
                over: Box::new(canvas.shown[Surface::Output]),
            })
            &&& smoothed && !settings.anti_aliasing ==> done.shown[Surface::Output] == (
            Picture::Copied { color: true, of: Box::new(posted) })
            &&& !smoothed ==> done.shown[Surface::Output] == (Picture::Copied {
                color: true,
                of: Box::new(read),
            })
            &&& done.seen == canvas.seen
        }),
{
    lemma_after();
    let pipeline = if global_lighting {
        Pipeline::GlobalLightingAndShadingGel
    } else {
        Pipeline::DeferredShading
    };
    let head = steps_if(lit_by_request(debug), lighting_steps()) + sky_mask_steps()
        + sky_lookup_steps() + shading_steps(pipeline);
    let background = steps_if(
        none_or(debug, debug is Some && debug->Some_0.atmospheric()),
        background_steps(),
    );
    let finished = debug is None || debug->Some_0.shaded();
    let smoothed = debug is None || debug->Some_0.smoothed();
    let middle = if finished {
        finished_steps(settings.multithreading, debug is Some)
    } else {
        unshaded_copy_steps()
    };
    let tail = presented_steps(smoothed, settings.anti_aliasing);
    assert(current_steps(global_lighting, settings, debug) == head + debug_view_steps(debug)
        + background + middle + immediate_geometry_steps() + tail);
    let first = after(head, canvas);
    lemma_current_head(global_lighting, debug, canvas);
    assert(first.shown[Surface::Output] == canvas.shown[Surface::Output]);
    let second = after(debug_view_steps(debug) + background, first);
    lemma_debug_view(debug, first);
    assert(second == after(background, after(debug_view_steps(debug), first)));
    let third = after(middle, second);
    if finished {
        lemma_finished(settings.multithreading, debug is Some, second);
    } else {
        lemma_unshaded_copy(second);
    }
    lemma_presented(smoothed, settings.anti_aliasing, third);
    let done = after(immediate_geometry_steps() + tail, third);
    assert(done == after(tail, after(immediate_geometry_steps(), third)));
    assert(after(current_steps(global_lighting, settings, debug), canvas) == done);
    assert(second.shown[Surface::Postprocess] == canvas.shown[Surface::Postprocess]);
    assert(second.shown[Surface::Output] == canvas.shown[Surface::Output]);
    assert(third.shown[Surface::Output] == canvas.shown[Surface::Output]);
}

proof fn lemma_unshaded_copy(canvas: Canvas)
    ensures
        ({
            let done = after(unshaded_copy_steps(), canvas);
            let read = Picture::Copied {
                color: true,
                of: Box::new(canvas.shown[Surface::ShadingResult]),
            };
            &&& done.shown[Surface::ShadingResult] == canvas.shown[Surface::ShadingResult]
            &&& done.shown[Surface::ShadingResultRead] == read
            &&& done.shown[Surface::Postprocess] == (Picture::Copied {
                color: true,
                of: Box::new(read),
            })
            &&& done.shown[Surface::Output] == canvas.shown[Surface::Output]
            &&& done.seen == canvas.seen
        }),
{
    reveal(after);
    reveal_with_fuel(after_first, 5);
}

/// The overdraw view draws the geometry once more, adding up on a black surface, and colors the
/// sums in the output.
pub proof fn law_overdraw_is_counted_over_black(canvas: Canvas)
    ensures
        ({
            let done = after(overdraw_steps(), canvas);
            &&& done.shown[Surface::Postprocess] == (Picture::Drawn {
                step: Step::Submit {
                    view: ViewSlot::Main,
                    stage: RenderStage::GenerateGbuffer,
                    order: SubmitOrder::ParallelLinear,
                    features: Features::All,
                },
                state: DrawState { blend: 2, depth_stencil: 0, rasterizer: 0, depth_bias: 0 },
                depth: None,
                over: Box::new(Picture::Filled { fill: Fill::Black }),
            })
            &&& done.shown[Surface::Output] == (Picture::Drawn {
                step: Step::Draw { fullscreen: Fullscreen::Overdraw },
                state: plain_state(),
                depth: None,
                over: Box::new(canvas.shown[Surface::Output]),
            })
        }),
{
    reveal(after);
    reveal_with_fuel(after_first, 14);
}

/// Before anything else is drawn in a main view of the preserved renderer, its geometry buffers
/// are filled; what follows are the steps of the preserved frame, and no capture comes before
/// them.
pub proof fn law_main_views_fill_their_geometry_first(
    renderer: Renderer,
    settings: ViewSettings,
    debug: Option<DebugPipeline>,
    canvas: Canvas,
) -> (filled: Canvas)
    requires
        renderer.era == RendererEra::Shadowkeep,
        debug != Some(DebugPipeline::Overdraw),
    ensures
        after(renderer.view_steps(ViewKind::Main { settings }, debug), canvas) == after(
            renderer.preserved_steps(debug),
            filled,
        ),
        filled.seen == canvas.seen,
        filled.shown[Surface::Albedo] is Drawn,
        filled.shown[Surface::Albedo]->step == (Step::GenerateGbuffer { recorded: false }),
        filled.shown[Surface::Normal]->step == (Step::GenerateGbuffer { recorded: false }),
        filled.shown[Surface::Third]->step == (Step::GenerateGbuffer { recorded: false }),
        filled.shown[Surface::Depth]->step == (Step::GenerateGbuffer { recorded: false }),
{
    lemma_after();
    let view = ViewKind::Main { settings };
    lemma_preparations(renderer.era, settings.bloom, canvas);
    assert(after(input_steps(renderer.era, view), canvas) == canvas);
    let filled = after(gbuffer_steps(false), canvas);
    lemma_gbuffer(canvas);
    assert(!renderer.records_geometry(settings));
    assert(after(renderer.shaded_steps(settings, debug), canvas) == after(
        renderer.preserved_steps(debug),
        filled,
    ));
    filled
}

proof fn lemma_preparations(era: RendererEra, bloom: bool, canvas: Canvas)
    ensures
        after(entry_steps(), canvas) == canvas,
        after(shared_inputs_steps(era), canvas) == canvas,
        after(frame_scope_steps(), canvas) == canvas,
        after(main_inputs_steps(era, bloom), canvas) == canvas,
        after(view_scope_steps(), canvas) == canvas,
        after(surfaces_steps(), canvas) == canvas,
{
    reveal(after);
    reveal_with_fuel(after_first, 8);
}

proof fn lemma_gbuffer(canvas: Canvas)
    ensures
        ({
            let filled = after(gbuffer_steps(false), canvas);
            let step = Step::GenerateGbuffer { recorded: false };
            &&& filled.seen == canvas.seen
            &&& filled.shown[Surface::Albedo] is Drawn && filled.shown[Surface::Albedo]->step
                == step
            &&& filled.shown[Surface::Normal] is Drawn && filled.shown[Surface::Normal]->step
                == step
            &&& filled.shown[Surface::Third] is Drawn && filled.shown[Surface::Third]->step == step
            &&& filled.shown[Surface::Depth] is Drawn && filled.shown[Surface::Depth]->step == step
        }),
{
    reveal(after);
    reveal_with_fuel(after_first, 2);
}

/// The sky lookups are generated over zero: the far one by the pipeline of directions, and the
/// near one by the pipeline of the atmosphere.
pub proof fn law_sky_lookups_are_generated_over_zero(canvas: Canvas)
    ensures
        ({
            let done = after(lookup_steps(), canvas);
            &&& done.shown[Surface::SkyLookupFar] == (Picture::Drawn {
                step: Step::RunAtmosphere {
                    atmosphere: AtmospherePipeline::SkyDirectionLookupGenerate,
                },
                state: plain_state(),
                depth: None,
                over: Box::new(Picture::Filled { fill: Fill::Zero }),
            })
            &&& done.shown[Surface::SkyLookupNear] == (Picture::Drawn {
                step: Step::RunAtmosphere { atmosphere: AtmospherePipeline::SkyLookupGenerate },
                state: plain_state(),
                depth: None,
                over: Box::new(Picture::Filled { fill: Fill::Zero }),
            })
            &&& forall|surface: Surface|
                surface != Surface::SkyLookupFar && surface != Surface::SkyLookupNear
                    ==> #[trigger] done.shown[surface] == canvas.shown[surface]
        }),
{
    reveal(after);
    reveal_with_fuel(after_first, 13);
}

/// A stage of transparent objects over a picture, blended and tested against the depth buffer.
pub open spec fn with_stage(
    picture: Picture,
    stage: RenderStage,
    order: SubmitOrder,
    features: Features,
) -> Picture {
    Picture::Drawn {
        step: Step::Submit { view: ViewSlot::Main, stage, order, features },
        state: DrawState { blend: 8, depth_stencil: 15, rasterizer: 2, depth_bias: 1 },
        depth: Some(Surface::Depth),
        over: Box::new(picture),
    }
}

proof fn lemma_decals(order: SubmitOrder, features: Features, canvas: Canvas)
    ensures
        ({
            let done = after(decal_steps(order, features), canvas);
            &&& done.shown[Surface::ShadingResult] == with_stage(
                canvas.shown[Surface::ShadingResult],
                RenderStage::DecalsAdditive,
                order,
                features,
            )
            &&& done.target == (Target::Single {
                surface: Surface::ShadingResult,
                depth: Some(Surface::Depth),
            })
            &&& forall|surface: Surface|
                surface != Surface::ShadingResult && surface != Surface::ShadingResultRead
                    ==> #[trigger] done.shown[surface] == canvas.shown[surface]
        }),
{
    reveal(after);
    reveal_with_fuel(after_first, 12);
}

proof fn lemma_refresh(canvas: Canvas)
    ensures
        ({
            let done = after(refresh_steps(), canvas);
            &&& done.shown[Surface::ShadingResultRead] == (Picture::Copied {
                color: true,
                of: Box::new(canvas.shown[Surface::ShadingResult]),
            })
            &&& done.target == canvas.target
            &&& done.state == (DrawState {
                blend: 8,
                depth_stencil: 15,
                rasterizer: 2,
                depth_bias: 1,
            })
            &&& forall|surface: Surface|
                surface != Surface::ShadingResultRead ==> #[trigger] done.shown[surface]
                    == canvas.shown[surface]
        }),
{
    reveal(after);
    reveal_with_fuel(after_first, 6);
}

proof fn lemma_single(step: Step, canvas: Canvas)
    ensures
        after(seq![step], canvas) == after_step(step, canvas),
{
    reveal(after);
    reveal_with_fuel(after_first, 3);
}

/// The objects of the sky are drawn over the shading result in the order of the map: the additive
/// decals first, and the transparent objects over them, which read the picture with the decals.
pub proof fn law_sky_objects_are_drawn_over_the_shading(
    decals: bool,
    transparents: bool,
    recorded: bool,
    canvas: Canvas,
)
    requires
        decals || transparents,
    ensures
        ({
            let done = after(sky_object_steps(decals, transparents, recorded), canvas);
            let with_decals = with_stage(
                canvas.shown[Surface::ShadingResult],
                RenderStage::DecalsAdditive,
                SubmitOrder::Authored,
                Features::SkyTransparent,
            );
            &&& done.shown[Surface::ShadingResultRead] == (Picture::Copied {
                color: true,
                of: Box::new(with_decals),
            })
            &&& done.shown[Surface::ShadingResult] == if transparents {
                with_stage(
                    with_decals,
                    RenderStage::Transparents,
                    SubmitOrder::Authored,
                    Features::SkyTransparent,
                )
            } else {
                with_decals
            }
        }),
{
    lemma_after();
    let first = after(decal_steps(SubmitOrder::Authored, Features::SkyTransparent), canvas);
    lemma_decals(SubmitOrder::Authored, Features::SkyTransparent, canvas);
    lemma_single(Step::RecordSkySubmission { stage: RenderStage::DecalsAdditive }, first);
    let second = after(refresh_steps(), first);
    lemma_refresh(first);
    let objects = Step::Submit {
        view: ViewSlot::Main,
        stage: RenderStage::Transparents,
        order: SubmitOrder::Authored,
        features: Features::SkyTransparent,
    };
    lemma_single(objects, second);
    lemma_single(
        Step::RecordSkySubmission { stage: RenderStage::Transparents },
        after(seq![objects], second),
    );
}

/// The other preserved transparent objects are drawn over the shading result in turn: the additive
/// decals first, and the transparent objects over them, which read the picture with the decals.
pub proof fn law_preserved_transparents_are_drawn_over_the_shading(
    decals: bool,
    transparents: bool,
    canvas: Canvas,
)
    requires
        decals || transparents,
    ensures
        ({
            let done = after(preserved_transparent_steps(decals, transparents), canvas);
            let with_decals = with_stage(
                canvas.shown[Surface::ShadingResult],
                RenderStage::DecalsAdditive,
                SubmitOrder::Serial,
                Features::AllButSkyAndWater,
            );
            &&& done.shown[Surface::ShadingResultRead] == (Picture::Copied {
                color: true,
                of: Box::new(with_decals),
            })
            &&& done.shown[Surface::ShadingResult] == with_stage(
                with_decals,
                RenderStage::Transparents,
                SubmitOrder::Serial,
                Features::AllButSkyAndWater,
            )
        }),
{
    lemma_after();
    let first = after(decal_steps(SubmitOrder::Serial, Features::AllButSkyAndWater), canvas);
    lemma_decals(SubmitOrder::Serial, Features::AllButSkyAndWater, canvas);
    let second = after(refresh_steps(), first);
    lemma_refresh(first);
    lemma_single(
        Step::Submit {
            view: ViewSlot::Main,
            stage: RenderStage::Transparents,
            order: SubmitOrder::Serial,
            features: Features::AllButSkyAndWater,
        },
        second,
    );
}

} // verus!
