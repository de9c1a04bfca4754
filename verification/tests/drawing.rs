use alkahest_shadowkeep::geometry::{Mat4Bits, PrimitiveType, RenderStage, Vec3Bits};
use alkahest_shadowkeep::globals::{GlobalPipelines, NamedTag};
use alkahest_shadowkeep::light::{
    begin_shadowkeep_light_capture, camera_in_fog, finish_shadowkeep_light_capture,
    record_shadowkeep_light_draw, BoundingBox, LightCaptureState, LightRenderer,
};
use alkahest_shadowkeep::manager::AssetDiagnosticSummary;
use alkahest_shadowkeep::overlays::{
    atmosphere_basis, lookups_generated, submit_shadowkeep_atmosphere_lookups, submit_shadowkeep_sky_objects,
    submit_shadowkeep_transparents, AtmosphereTextures, LookupTexture,
};
use alkahest_shadowkeep::pipelines::Pipeline;
use alkahest_shadowkeep::pool::{CommandListPool, CommandListSetId, LeaseState, NUM_SETS};
use alkahest_shadowkeep::sky::{
    begin_shadowkeep_sky_objects_capture, finish_shadowkeep_sky_objects_capture,
    record_shadowkeep_sky_object_draw, record_shadowkeep_sky_objects_submission,
    SkyObjectsCaptureState,
};
use alkahest_shadowkeep::steps::{
    CaptureSet, DebugPipeline, DrawState, Features, Fill, Fullscreen, OneShot, Refusal, RendererEra, Step,
    SubmitOrder, Surface, ViewSlot,
};
use alkahest_shadowkeep::records::manifest_directory;
use alkahest_shadowkeep::submit::{
    exposure_directory, next_exposure, plan_exposure_variant, writes_manifest, RenderFlags, Renderer, ViewKind, ViewSettings,
};
use alkahest_shadowkeep::swapchain::{PresentOutcome, Swapchain};

fn flags() -> RenderFlags {
    RenderFlags {
        global_lighting: false,
        buffer_provenance: false,
        global_lighting_ab: false,
        exposure_ab: false,
        final_combine_no_film_curve: false,
        sky_diagnostics: false,
        sky_objects_ab: false,
    }
}

fn renderer(era: RendererEra, names: &[Pipeline]) -> Renderer {
    let entries: Vec<NamedTag> = names
        .iter()
        .map(|pipeline| NamedTag {
            name: pipeline.name(),
            tag: 0x8080_0011,
        })
        .collect();
    Renderer {
        era,
        flags: flags(),
        pipelines: GlobalPipelines::load_shadowkeep(&entries),
        assets: AssetDiagnosticSummary {
            queued: 0,
            loading: 0,
            ready: 0,
            failed: 0,
            fallback: 0,
        },
    }
}

fn main_view(multithreading: bool) -> ViewKind {
    ViewKind::Main {
        settings: ViewSettings {
            multithreading,
            anti_aliasing: true,
            bloom: false,
        },
    }
}

fn place(steps: &[Step], step: Step) -> Option<usize> {
    steps.iter().position(|candidate| *candidate == step)
}

fn lights() -> Step {
    Step::Submit {
        view: ViewSlot::Main,
        stage: RenderStage::LightingApply,
        order: SubmitOrder::Serial,
        features: Features::All,
    }
}

fn shading() -> Step {
    Step::RunPreserved {
        pipeline: Pipeline::DeferredShadingNoAtm,
    }
}

fn preview() -> Step {
    Step::Draw {
        fullscreen: Fullscreen::GeometryPreview,
    }
}

#[test]
fn a_failed_combination_writes_no_manifest() {
    assert!(!writes_manifest(CaptureSet::FinalCombine, 0));
    assert!(writes_manifest(CaptureSet::FinalCombine, 1));
    assert!(writes_manifest(CaptureSet::BufferProvenance, 0));
    assert!(writes_manifest(CaptureSet::FullExposure, 0));
}

#[test]
fn debug_views_know_what_they_need() {
    assert!(DebugPipeline::ShadingOnly.is_shaded());
    assert!(!DebugPipeline::LightDiffuse.is_shaded());
    assert!(DebugPipeline::ShadedNoSun.has_atmosphere());
    assert!(!DebugPipeline::ShadedNoSun.has_sun());
    assert!(DebugPipeline::ShadedNoAtm.has_sun());
    assert!(DebugPipeline::WorldNormal.aa_enabled());
    assert!(!DebugPipeline::Albedo.aa_enabled());
    assert_eq!(DebugPipeline::Albedo.technique(), Pipeline::DebugSourceColor);
    assert_eq!(Fill::LightFloor.color().x, 0.001f32.to_bits());
    assert_eq!(Fullscreen::Background.sources(), vec![Surface::DepthProxy, Surface::SkyLookupNear]);
}

#[test]
fn lights_are_applied_before_shading() {
    let renderer = renderer(RendererEra::Shadowkeep, &[Pipeline::DeferredShadingNoAtm]);
    let steps = renderer.submit_view(main_view(true), None);
    assert!(place(&steps, lights()).unwrap() < place(&steps, shading()).unwrap());
    assert_eq!(place(&steps, Step::GeometryCommandLists), None);
    assert_eq!(
        steps.last(),
        Some(&Step::Blit {
            source: Surface::ShadingResult,
            target: Surface::Output,
            color: true
        })
    );
}

#[test]
fn missing_pipelines_leave_the_preview() {
    let steps = renderer(RendererEra::Shadowkeep, &[]).submit_view(main_view(true), None);
    assert!(place(
        &steps,
        Step::Refuse {
            refusal: Refusal::ShadedPassUnavailable
        }
    )
    .is_some());
    assert!(place(&steps, preview()).is_some());
    assert_eq!(place(&steps, lights()), None);
    let mut lit = renderer(RendererEra::Shadowkeep, &[Pipeline::DeferredShadingNoAtm]);
    lit.flags.global_lighting = true;
    assert!(place(&lit.submit_view(main_view(true), None), preview()).is_some());
    let unlit = lit.submit_view(main_view(true), Some(DebugPipeline::ShadedNoSun));
    assert_eq!(place(&unlit, preview()), None);
}

#[test]
fn buffer_views_stop_after_the_geometry() {
    let renderer = renderer(RendererEra::Shadowkeep, &[Pipeline::DeferredShadingNoAtm]);
    for (view, source, color) in [
        (DebugPipeline::Albedo, Surface::Albedo, true),
        (DebugPipeline::WorldNormal, Surface::Normal, false),
        (DebugPipeline::Overcoat, Surface::Third, false),
        (DebugPipeline::DepthEdges, Surface::DepthProxy, false),
    ] {
        let steps = renderer.submit_shadowkeep_shaded(Some(view));
        assert_eq!(
            steps,
            vec![Step::Blit {
                source,
                target: Surface::Output,
                color
            }]
        );
    }
    let light = renderer.submit_shadowkeep_shaded(Some(DebugPipeline::LightSpecular));
    assert!(place(&light, lights()).is_some());
    assert_eq!(place(&light, shading()), None);
}

#[test]
fn captures_wait_until_assets_are_there() {
    let mut renderer = renderer(
        RendererEra::Shadowkeep,
        &[Pipeline::DeferredShadingNoAtm, Pipeline::GlobalLighting],
    );
    renderer.flags.buffer_provenance = true;
    renderer.flags.global_lighting_ab = true;
    renderer.flags.global_lighting = true;
    renderer.assets.loading = 1;
    let waiting = renderer.submit_shadowkeep_shaded(None);
    assert_eq!(place(&waiting, Step::BeginLightCapture), None);
    assert_eq!(
        place(
            &waiting,
            Step::Reset {
                switch: OneShot::BufferProvenance
            }
        ),
        None
    );
    renderer.assets.loading = 0;
    let settled = renderer.submit_shadowkeep_shaded(None);
    let begin = place(&settled, Step::BeginLightCapture).unwrap();
    let finish = place(&settled, Step::FinishLightCapture).unwrap();
    let applied = place(&settled, lights()).unwrap();
    assert!(begin < applied && applied < finish);
    assert!(place(
        &settled,
        Step::WriteManifest {
            set: CaptureSet::BufferProvenance
        }
    )
    .is_some());
    let captured = settled
        .iter()
        .filter(|step| {
            matches!(
                step,
                Step::Capture {
                    set: CaptureSet::BufferProvenance,
                    ..
                }
            )
        })
        .count();
    assert_eq!(captured, 8);
}

#[test]
fn diagnostics_need_global_lighting_off() {
    let mut renderer = renderer(
        RendererEra::Shadowkeep,
        &[
            Pipeline::DeferredShadingNoAtm,
            Pipeline::GlobalLighting,
            Pipeline::FinalCombineNoFilmCurve,
        ],
    );
    renderer.flags.exposure_ab = true;
    renderer.flags.final_combine_no_film_curve = true;
    let steps = renderer.submit_shadowkeep_shaded(None);
    assert!(place(&steps, Step::ExposureVariants).is_some());
    assert!(place(
        &steps,
        Step::RunPreserved {
            pipeline: Pipeline::FinalCombineNoFilmCurve
        }
    )
    .is_some());
    renderer.flags.global_lighting = true;
    let refused = renderer.submit_shadowkeep_shaded(None);
    assert_eq!(place(&refused, Step::ExposureVariants), None);
    for refusal in [
        Refusal::ExposureNeedsGlobalLightingOff,
        Refusal::FinalCombineNeedsGlobalLightingOff,
    ] {
        assert!(place(&refused, Step::Refuse { refusal }).is_some());
    }
    let low = next_exposure(0, true).unwrap();
    let full = next_exposure(1, true).unwrap();
    assert_eq!(low.scale_bits, 0.05f32.to_bits());
    assert_eq!(full.scale_bits, 1.0f32.to_bits());
    assert_eq!(next_exposure(2, true), None);
    assert_eq!(next_exposure(1, false), None);
    assert_eq!(
        exposure_directory(0),
        Some("artifacts/shadowkeep-exposure-ab/exposure-0.05")
    );
    assert_eq!(
        exposure_directory(1),
        Some("artifacts/shadowkeep-exposure-ab/exposure-1.0")
    );
    assert_eq!(exposure_directory(2), None);
    for variant in [low, full] {
        let steps = plan_exposure_variant(variant);
        assert_eq!(steps.len(), 8);
        let captured: Vec<Surface> = steps
            .iter()
            .filter_map(|step| match step {
                Step::Capture { set, surface, .. } if *set == variant.set => Some(*surface),
                _ => None,
            })
            .collect();
        assert_eq!(captured, vec![Surface::ShadingResult, Surface::Output]);
    }
    assert_eq!(
        manifest_directory(CaptureSet::FullExposure),
        "artifacts/shadowkeep-exposure-ab"
    );
}

#[test]
fn current_frames_record_geometry_and_grade_the_picture() {
    let renderer = renderer(RendererEra::Current, &[]);
    let steps = renderer.submit_view(main_view(true), None);
    assert!(place(&steps, Step::GeometryCommandLists).is_some());
    assert!(place(&steps, Step::GenerateGbuffer { recorded: true }).is_some());
    assert_eq!(place(&steps, Step::Lighting), None);
    assert_eq!(place(&steps, Step::VolumeFog), None);
    assert!(place(
        &steps,
        Step::Run {
            pipeline: Pipeline::Fxaa
        }
    )
    .is_some());
    let shaded = renderer.submit_view(main_view(false), Some(DebugPipeline::Shaded));
    assert!(place(&shaded, Step::Lighting).is_some());
    assert!(place(&shaded, Step::VolumeFog).is_some());
    let albedo = renderer.submit_view(main_view(false), Some(DebugPipeline::Albedo));
    assert_eq!(place(&albedo, Step::Water), None);
    assert_eq!(
        albedo.last(),
        Some(&Step::Blit {
            source: Surface::ShadingResultRead,
            target: Surface::Output,
            color: true
        })
    );
    let overdraw = renderer.submit_view(main_view(true), Some(DebugPipeline::Overdraw));
    assert!(place(&overdraw, Step::OverdrawShader { enabled: true }).is_some());
}

#[test]
fn shadow_views_start_at_the_far_end() {
    let renderer = renderer(RendererEra::Current, &[]);
    let shadow = |index, forward_depth| {
        renderer.submit_view(
            ViewKind::Shadow {
                index,
                forward_depth,
            },
            None,
        )
    };
    assert!(place(
        &shadow(31, true),
        Step::ClearShadowMap {
            depth_bits: 1.0f32.to_bits()
        }
    )
    .is_some());
    assert!(place(&shadow(0, false), Step::ClearShadowMap { depth_bits: 0 }).is_some());
    let refused = shadow(32, true);
    assert_eq!(
        refused.last(),
        Some(&Step::Refuse {
            refusal: Refusal::ShadowViewIndex
        })
    );
}

#[test]
fn sky_objects_keep_their_order() {
    assert!(submit_shadowkeep_sky_objects(false, false, true, true).is_empty());
    let decals = submit_shadowkeep_sky_objects(true, false, false, true);
    assert_eq!(
        place(
            &decals,
            Step::RecordSkySubmission {
                stage: RenderStage::DecalsAdditive
            }
        ),
        Some(10)
    );
    assert_eq!(
        place(
            &decals,
            Step::RecordSkySubmission {
                stage: RenderStage::Transparents
            }
        ),
        None
    );
    let both = submit_shadowkeep_sky_objects(false, true, false, false);
    assert_eq!(both.len(), 15);
    assert!(both.iter().all(|step| !matches!(
        step,
        Step::Submit { features, .. } if *features != Features::SkyTransparent
    )));
    assert!(submit_shadowkeep_transparents(false, false).is_empty());
    let others = submit_shadowkeep_transparents(true, false);
    assert_eq!(others.len(), 15);
    assert!(others.iter().all(|step| !matches!(
        step,
        Step::Submit { features, .. } if *features != Features::AllButSkyAndWater
    )));
}

#[test]
fn atmosphere_lookups_wait_for_their_textures() {
    let loaded = LookupTexture {
        loaded: true,
        null: false,
    };
    let mut textures = AtmosphereTextures {
        table: true,
        volume_0: loaded,
        volume_1: loaded,
        vertical: loaded,
    };
    assert_eq!(
        submit_shadowkeep_atmosphere_lookups(true, &textures).unwrap().len(),
        11
    );
    assert!(submit_shadowkeep_atmosphere_lookups(false, &textures).is_none());
    textures.vertical.null = true;
    assert!(submit_shadowkeep_atmosphere_lookups(true, &textures).is_none());
    assert!(lookups_generated(true, true, true));
    assert!(!lookups_generated(true, true, false));
}

fn point(x: f32, y: f32, z: f32) -> Vec3Bits {
    Vec3Bits {
        x: x.to_bits(),
        y: y.to_bits(),
        z: z.to_bits(),
    }
}

#[test]
fn lights_choose_their_technique() {
    let mut light = LightRenderer::new_shadowkeep_shadowing(
        1,
        0x8080_0002,
        0xffff_ffff,
        0x8080_0004,
        Mat4Bits::identity(),
        Mat4Bits::identity(),
    );
    assert!(light.loads_preserved_techniques());
    assert!(light.visibility_test(false));
    let plain = light.submit(RenderStage::LightingApply, true, false).unwrap();
    assert_eq!(plain.technique, Some(1));
    assert!(plain.preserved && plain.camera_translation);
    light.shadow_view = true;
    let shadowed = light.submit(RenderStage::LightingApply, true, false).unwrap();
    assert_eq!(shadowed.technique, Some(0x8080_0002));
    assert_eq!(shadowed.shadow_filter_bits, Some(2.0f32.to_bits()));
    let off = light.submit(RenderStage::LightingApply, false, false).unwrap();
    assert_eq!(off.technique, Some(1));
    let volume = light.submit(RenderStage::Volumetrics, true, true).unwrap();
    assert_eq!(volume.technique, Some(0x8080_0004));
    assert!(volume.fog_inputs && volume.mirrored);
    assert_eq!(
        light.submit(RenderStage::Volumetrics, false, true).unwrap().technique,
        None
    );
    assert_eq!(light.submit(RenderStage::ShadowGenerate, true, true), None);
    assert_eq!(light.submit(RenderStage::LightProbeApply, true, true), None);
    assert!(!light.submit_parallel(RenderStage::Volumetrics, true, true).fog_inputs);
}

#[test]
fn lights_turn_inside_out_around_the_camera() {
    let bounds = BoundingBox {
        min: point(0.0, 0.0, 0.0),
        max: point(1.0, 1.0, 1.0),
    };
    let light = LightRenderer::new(1, 0x8080_0002, Mat4Bits::identity(), bounds);
    assert!(!light.visibility_test(false));
    let outside = light.submit(RenderStage::LightingApply, true, false).unwrap();
    assert_eq!((outside.state.depth_stencil, outside.mirrored), (Some(30), false));
    let inside = light.submit(RenderStage::LightingApply, true, true).unwrap();
    assert_eq!((inside.state.depth_stencil, inside.mirrored), (Some(0), true));
    assert_eq!(light.subscribed_stages().len(), 3);
    let before = DrawState {
        blend: 1,
        depth_stencil: 1,
        rasterizer: 1,
        depth_bias: 1,
    };
    assert_eq!(
        outside.state.select(before),
        DrawState {
            depth_stencil: 30,
            ..before
        }
    );
    assert_eq!(outside.input_layout, 1);
    let unbounded = LightRenderer::new_shadowkeep(1, 0x8080_0002, Mat4Bits::identity(), None);
    let preserved = unbounded.submit(RenderStage::LightingApply, true, true).unwrap();
    assert_eq!(
        preserved.state.select(before),
        DrawState {
            blend: 8,
            depth_stencil: 0,
            rasterizer: 2,
            depth_bias: 2
        }
    );
    assert_eq!(preserved.primitive_type, PrimitiveType::Triangles);
    assert_eq!(unbounded.techniques.volumetrics, Some(0x8080_0002));
    let current = LightRenderer::new_shadowing(
        1,
        2,
        3,
        4,
        Mat4Bits::identity(),
        Mat4Bits::identity(),
    );
    assert_eq!(current.techniques.lighting_apply_shadowing, None);
    assert!(current.visibility_test(false));
}

#[test]
fn fog_surrounds_the_camera_with_a_margin() {
    assert!(camera_in_fog(point(0.5, 0.5, 0.5)));
    assert!(camera_in_fog(point(-0.2, 1.2, 0.0)));
    assert!(!camera_in_fog(point(-0.21, 0.5, 0.5)));
    assert!(!camera_in_fog(point(0.5, 0.5, 1.21)));
    assert!(camera_in_fog(point(f32::NAN, 0.5, 0.5)));
}

#[test]
fn light_draws_count_during_a_capture() {
    let mut state = LightCaptureState::new();
    record_shadowkeep_light_draw(&mut state, 0x8080_0011);
    begin_shadowkeep_light_capture(&mut state);
    record_shadowkeep_light_draw(&mut state, 0x8080_0022);
    record_shadowkeep_light_draw(&mut state, 0x8080_0011);
    record_shadowkeep_light_draw(&mut state, 0x8080_0022);
    let capture = finish_shadowkeep_light_capture(&mut state);
    assert_eq!(capture.draw_indexed_calls, 3);
    assert_eq!(capture.technique_hashes, vec!["80800011", "80800022"]);
}

#[test]
fn sky_draws_count_during_a_capture() {
    let mut state = SkyObjectsCaptureState::new();
    begin_shadowkeep_sky_objects_capture(&mut state);
    record_shadowkeep_sky_objects_submission(&mut state, RenderStage::Transparents);
    record_shadowkeep_sky_object_draw(&mut state, RenderStage::Transparents, 1, 2, 0x8080_0011);
    let stats = finish_shadowkeep_sky_objects_capture(&mut state);
    assert!(stats.transparents_submission_reached);
    assert!(!stats.decals_additive_submission_reached);
    assert_eq!(stats.transparents_draw_indexed_calls, 1);
    assert_eq!(stats.models, vec!["80800011"]);
    record_shadowkeep_sky_object_draw(&mut state, RenderStage::Transparents, 1, 2, 3);
    assert_eq!(finish_shadowkeep_sky_objects_capture(&mut state).draw_indexed_calls, 1);
}

#[test]
fn leases_take_turns() {
    let mut pool = CommandListPool::new(0);
    assert_eq!(pool.command_lists, 1);
    let mut leases = Vec::new();
    for expected in 0..NUM_SETS {
        let lease = pool.begin();
        assert_eq!(lease.id(), CommandListSetId(expected));
        leases.push(lease);
    }
    assert_eq!(pool.find_free(), None);
    let mut fifth = leases.remove(5);
    fifth.finish(&mut pool);
    assert_eq!(fifth.state, LeaseState::Released);
    assert_eq!(pool.find_free(), Some(5));
    fifth.abandon(&mut pool);
    assert_eq!(pool.begin().id(), CommandListSetId(5));
    leases.remove(0).abandon(&mut pool);
    assert_eq!(pool.begin().id(), CommandListSetId(0));
    assert_eq!(pool.get_command_list_manual(CommandListSetId(3), 1), None);
    assert_eq!(CommandListPool::new(4).get_command_list(6), 2);
}

#[test]
fn the_search_for_a_set_survives_its_counter() {
    let mut pool = CommandListPool::new(2);
    pool.next_set = usize::MAX;
    let last = usize::MAX % NUM_SETS;
    assert_eq!(pool.begin().id(), CommandListSetId(last));
    assert_eq!(pool.begin().id(), CommandListSetId(0));
}

#[test]
fn swap_chains_resize_only_when_needed() {
    let mut chain = Swapchain::new(800, 600);
    assert!(!chain.begin_resize(0, 600));
    assert!(!chain.begin_resize(800, 600));
    assert!(chain.begin_resize(1024, 768));
    assert!(!chain.has_target);
    assert!(!chain.finish_resize(1024, 768, true, false));
    assert_eq!((chain.width, chain.has_target), (800, false));
    assert!(chain.finish_resize(1024, 768, true, true));
    assert_eq!((chain.width, chain.height), (1024, 768));
    assert_eq!(chain.present(true), PresentOutcome::Occluded);
    assert!(chain.test_only);
    assert_eq!(chain.present(false), PresentOutcome::Presented);
    assert!(!chain.test_only);
}

#[test]
fn sky_lookups_have_a_fixed_basis() {
    let basis: Vec<[f32; 4]> = atmosphere_basis()
        .iter()
        .map(|bits| [bits.x, bits.y, bits.z, bits.w].map(f32::from_bits))
        .collect();
    assert_eq!(
        basis,
        [
            [-0.08323, 0.0, -0.99653, 1.0],
            [-0.03088, 0.99952, 0.00258, 1.0],
            [0.99605, 0.03098, -0.08319, 1.0],
        ]
    );
}

#[test]
fn a_sky_capture_reports_what_came_between_begin_and_finish() {
    let mut state = SkyObjectsCaptureState::new();
    record_shadowkeep_sky_object_draw(&mut state, RenderStage::Transparents, 9, 9, 9);
    begin_shadowkeep_sky_objects_capture(&mut state);
    for (stage, model) in [
        (RenderStage::Transparents, 0x8080_0033),
        (RenderStage::DecalsAdditive, 0x8080_0011),
        (RenderStage::Transparents, 0x8080_0033),
        (RenderStage::Decals, 0x8080_0022),
    ] {
        record_shadowkeep_sky_object_draw(&mut state, stage, 0x8080_0001, 0x8080_0002, model);
    }
    record_shadowkeep_sky_objects_submission(&mut state, RenderStage::Transparents);
    let first = finish_shadowkeep_sky_objects_capture(&mut state);
    assert_eq!(first.draw_indexed_calls, 4);
    assert_eq!(first.decals_additive_draw_indexed_calls, 1);
    assert_eq!(first.transparents_draw_indexed_calls, 2);
    assert!(first.transparents_submission_reached);
    assert!(!first.decals_additive_submission_reached);
    assert_eq!(first.models, ["80800011", "80800022", "80800033"]);
    assert_eq!(first.maps, ["80800001"]);
    record_shadowkeep_sky_object_draw(&mut state, RenderStage::Transparents, 9, 9, 9);
    record_shadowkeep_sky_objects_submission(&mut state, RenderStage::DecalsAdditive);
    let second = finish_shadowkeep_sky_objects_capture(&mut state);
    assert_eq!(second.draw_indexed_calls, first.draw_indexed_calls);
    assert_eq!(second.models, first.models);
    assert!(!second.decals_additive_submission_reached);
    begin_shadowkeep_sky_objects_capture(&mut state);
    let empty = finish_shadowkeep_sky_objects_capture(&mut state);
    assert_eq!(empty.draw_indexed_calls, 0);
    assert!(empty.maps.is_empty() && empty.collections.is_empty() && empty.models.is_empty());
}
