use alkahest_shadowkeep::globals::{GlobalPipelines, NamedTag, PipelineSlot};
use alkahest_shadowkeep::layouts::{
    InputElement, InputFormat, LayoutPlan, ShadowkeepInputLayouts,
};
use alkahest_shadowkeep::manager::{AssetLoadState, AssetManager, TextureFallback};
use alkahest_shadowkeep::pipelines::{CubemapShape, GlobalScope, Pipeline};
use alkahest_shadowkeep::render_globals::{
    neutral_name, neutral_texel, LookupReads, LookupSource, RenderGlobals,
    ShadowkeepRendererBootstrap,
};
use alkahest_shadowkeep::bootstrap::{
    load_renderer_bootstrap, validate_renderer_bootstrap, SClientBootstrapPatchable,
    SShadowkeepLookupTextures,
    SShadowkeepRenderGlobalPipeline, SShadowkeepRenderGlobalScope, SShadowkeepRenderGlobals,
    SShadowkeepVertexInputElement, SShadowkeepVertexInputElementSet,
    SShadowkeepVertexInputElementSets, SShadowkeepVertexInputLayoutMapping,
    SShadowkeepVertexInputLayouts, SShadowkeepVertexLayout, ShadowkeepEraProfile,
    ShadowkeepTechniqueRegistry, Tagged, CLIENT_BOOTSTRAP_CLASS, RENDER_GLOBALS_CLASS, SCOPE_CLASS,
    TECHNIQUE_CLASS,
};
use alkahest_shadowkeep::externs::{decode_extern_index, ExternIndex};
use alkahest_shadowkeep::geometry::{
    lod_category_from_legacy, primitive_type_from_legacy, render_stage_from_legacy, LodCategory,
    PrimitiveType, RenderStage, SShadowkeepStaticMeshInstanceGroup,
};

#[test]
fn legacy_stages_stop_before_compute_skinning() {
    assert_eq!(
        render_stage_from_legacy(0),
        Some(RenderStage::GenerateGbuffer)
    );
    assert_eq!(render_stage_from_legacy(22), Some(RenderStage::WorldForces));
    assert_eq!(render_stage_from_legacy(23), None);
}

#[test]
fn legacy_lod_values_do_not_invent_missing_variants() {
    assert_eq!(lod_category_from_legacy(0), Some(LodCategory::Lod_0_0));
    assert_eq!(lod_category_from_legacy(5), None);
    assert_eq!(lod_category_from_legacy(10), Some(LodCategory::Lod_Detail));
}

#[test]
fn static_instance_ranges_use_the_legacy_count_and_start() {
    let group = SShadowkeepStaticMeshInstanceGroup {
        instance_count: 3,
        instance_start: 7,
        static_index: 0,
        unk6: 0,
    };
    assert_eq!(group.transform_range(), 7..10);
}

#[test]
fn stored_topologies_are_lists_and_strips() {
    assert_eq!(primitive_type_from_legacy(3), Some(PrimitiveType::Triangles));
    assert_eq!(
        primitive_type_from_legacy(5),
        Some(PrimitiveType::TriangleStrip)
    );
    assert_eq!(primitive_type_from_legacy(4), None);
}

#[test]
fn legacy_extern_index_skips_only_the_post_bl_insertion() {
    assert_eq!(
        decode_extern_index(23),
        Some(ExternIndex::CuiScreenspaceBoxes)
    );
    assert_eq!(
        decode_extern_index(24),
        Some(ExternIndex::TextureVisualizer)
    );
    assert_eq!(decode_extern_index(96), Some(ExternIndex::SoftDeform));
    assert_eq!(decode_extern_index(97), None);
}

#[test]
fn profile_exposes_only_shadowkeep_renderer_ids() {
    let classes = ShadowkeepEraProfile.renderer_classes();
    assert_eq!(classes.client_bootstrap, CLIENT_BOOTSTRAP_CLASS);
    assert_eq!(classes.render_globals, RENDER_GLOBALS_CLASS);
    assert_eq!(classes.scope, SCOPE_CLASS);
    assert_eq!(classes.technique, TECHNIQUE_CLASS);
}

#[test]
fn profile_exposes_shadowkeep_core_geometry_ids() {
    let classes = ShadowkeepEraProfile.geometry_classes();
    assert_eq!(classes.bubble_parent, 0x8080_7DAE);
    assert_eq!(classes.map_table, 0x8080_99D6);
    assert_eq!(classes.rigid_model_component, 0x8080_72B8);
    assert_eq!(classes.dynamic_model, 0x8080_73A5);
}

fn layouts(mapping: Vec<SShadowkeepVertexLayout>) -> SShadowkeepVertexInputLayouts {
    SShadowkeepVertexInputLayouts {
        file_size: 0,
        unk8: 0,
        element_sets: SShadowkeepVertexInputElementSets {
            file_size: 0,
            sets: vec![SShadowkeepVertexInputElementSet {
                elements: vec![SShadowkeepVertexInputElement {
                    semantic: 1,
                    semantic_index: 2,
                    format: 0,
                }],
            }],
        },
        elements_10: 0,
        elements_14: 0,
        elements_18: 0,
        elements_1c: 0,
        elements_20: 0,
        elements_24: 0,
        mapping: SShadowkeepVertexInputLayoutMapping {
            file_size: 0,
            layouts: mapping,
        },
    }
}

fn layout(index: u8, element_0: u32) -> SShadowkeepVertexLayout {
    SShadowkeepVertexLayout {
        index,
        element_0,
        element_1: u32::MAX,
        element_2: u32::MAX,
        element_3: u32::MAX,
        unk18: 0,
        unk19: 0,
        unk1a: 0,
        unk1b: 0,
    }
}

fn bootstrap(scopes: &[(&str, u32)], pipelines: &[(&str, u32)]) -> SClientBootstrapPatchable {
    SClientBootstrapPatchable {
        render_globals: SShadowkeepRenderGlobals {
            file_size: 0,
            input_layouts: Tagged {
                tag: 0x8080_0101,
                value: layouts(vec![layout(9, 0)]),
            },
            scopes: scopes
                .iter()
                .map(|&(name, scope)| SShadowkeepRenderGlobalScope {
                    name: name.to_string(),
                    unk8: 0,
                    scope,
                })
                .collect(),
            pipelines: pipelines
                .iter()
                .map(|&(name, technique)| SShadowkeepRenderGlobalPipeline {
                    name: name.to_string(),
                    unk8: 0,
                    technique,
                })
                .collect(),
            lookup_textures: Tagged {
                tag: 0x8080_0202,
                value: SShadowkeepLookupTextures {
                    file_size: 0,
                    specular_tint_lookup_texture: 0x8080_1001,
                    specular_lobe_lookup_texture: 0x8080_1002,
                    specular_lobe_3d_lookup_texture: 0x8080_1003,
                    iridescence_lookup_texture: 0x8080_1004,
                },
            },
            channel_defaults: 0x8080_0303,
            trailing_resource: 0,
        },
    }
}

#[test]
fn bootstrap_keeps_names_and_tags() {
    let stored = bootstrap(
        &[("frame", 0x8080_0011), ("view", 0x8080_0012)],
        &[("fxaa", 0x8080_0021)],
    );
    let loaded = load_renderer_bootstrap(Some(&stored)).unwrap();
    assert_eq!(loaded.input_layouts, 0x8080_0101);
    assert_eq!(loaded.input_layout_count, 1);
    assert_eq!(loaded.lookup_textures, 0x8080_0202);
    assert_eq!(loaded.channel_defaults, 0x8080_0303);
    assert_eq!(loaded.scopes[1].name, "view");
    assert_eq!(loaded.scopes[1].tag, 0x8080_0012);
    assert_eq!(loaded.pipelines[0].name, "fxaa");
}

#[test]
fn the_profile_names_its_era() {
    assert_eq!(ShadowkeepEraProfile.package_version_name(), "Destiny2Shadowkeep");
    let stored = bootstrap(&[("view", 1)], &[("fxaa", 1)]);
    assert!(ShadowkeepEraProfile.load_bootstrap(Some(&stored)).is_ok());
    assert!(validate_renderer_bootstrap(Some(&stored)).is_ok());
    assert!(validate_renderer_bootstrap(None).is_err());
}

#[test]
fn incomplete_bootstraps_are_refused() {
    assert_eq!(
        load_renderer_bootstrap(None).unwrap_err().message,
        "Shadowkeep bootstrap client_bootstrap_patchable (0x80B9E57D, class 0x80809780) is unavailable"
    );
    assert_eq!(
        load_renderer_bootstrap(Some(&bootstrap(&[], &[("fxaa", 1)])))
            .unwrap_err()
            .message,
        "Shadowkeep render globals class 0x80806CB1 contains no scopes"
    );
    assert_eq!(
        load_renderer_bootstrap(Some(&bootstrap(&[("view", 1)], &[])))
            .unwrap_err()
            .message,
        "Shadowkeep render globals class 0x80806CB1 contains no techniques"
    );
    let mut empty = bootstrap(&[("view", 1)], &[("fxaa", 1)]);
    empty.render_globals.input_layouts.value.mapping.layouts = vec![];
    assert_eq!(
        load_renderer_bootstrap(Some(&empty)).unwrap_err().message,
        "Shadowkeep input layout mapping class 0x808072A9 contains no layouts"
    );
}

#[test]
fn the_registry_loads_what_it_has() {
    let stored = bootstrap(
        &[("view", 0x8080_0012), ("frame", 0xffff_ffff)],
        &[("fxaa", 0x8080_0021)],
    );
    let registry = ShadowkeepTechniqueRegistry::new(&load_renderer_bootstrap(Some(&stored)).unwrap());
    assert!(registry.has_scope("view"));
    assert_eq!(registry.load_scope("view").unwrap(), 0x8080_0012);
    assert!(!registry.has_scope("frame"));
    assert_eq!(
        registry.load_scope("frame").unwrap_err().message,
        "Shadowkeep scope frame is explicitly null"
    );
    assert!(!registry.has_technique("sky"));
    assert_eq!(
        registry.load_technique("sky").unwrap_err().message,
        "Shadowkeep render globals has no technique named sky"
    );
    assert_eq!(registry.load_technique("fxaa").unwrap(), 0x8080_0021);
}

#[test]
fn input_layouts_name_their_semantics_and_formats() {
    let formats = [
        InputFormat {
            hlsl_type: "float4".to_string(),
            format: 2,
            stride: 16,
        },
        InputFormat {
            hlsl_type: String::new(),
            format: 0,
            stride: 0,
        },
    ];
    let planned =
        ShadowkeepInputLayouts::load(&layouts(vec![layout(9, 0)]), 2, &formats).unwrap();
    match planned.get(9).unwrap() {
        LayoutPlan::Dynamic { elements } => {
            assert_eq!(
                elements,
                &vec![InputElement {
                    semantic: 1,
                    semantic_index: 2,
                    format: 0,
                    buffer_index: 0,
                    is_instance_data: false,
                }]
            );
        }
        LayoutPlan::BuiltIn { .. } => panic!("layout 9 is not built in"),
    }
    assert!(matches!(
        planned.get(3).unwrap(),
        LayoutPlan::BuiltIn { index: 3 }
    ));
    assert_eq!(
        planned.get(8).unwrap_err().message,
        "Shadowkeep input layout 8 is unavailable"
    );
    assert_eq!(
        ShadowkeepInputLayouts::load(&layouts(vec![layout(9, 4)]), 2, &formats)
            .unwrap_err()
            .message,
        "input layout 9 references missing element set 4"
    );
    assert_eq!(
        ShadowkeepInputLayouts::load(&layouts(vec![layout(9, 0)]), 1, &formats)
            .unwrap_err()
            .message,
        "input layout 9 has invalid semantic 1"
    );
    assert_eq!(
        ShadowkeepInputLayouts::load(&layouts(vec![layout(9, 0)]), 2, &[])
            .unwrap_err()
            .message,
        "input layout 9 has invalid format 0"
    );
    assert_eq!(
        ShadowkeepInputLayouts::load(&layouts(vec![layout(9, 0)]), 2, &formats[1..])
            .unwrap_err()
            .message,
        "input layout 9 uses unsupported format 0"
    );
}

#[test]
fn the_first_stage_takes_layouts_and_techniques() {
    let stored = bootstrap(&[("view", 0x8080_0012)], &[("fxaa", 0x8080_0021)]);
    let formats = [InputFormat {
        hlsl_type: "float4".to_string(),
        format: 2,
        stride: 16,
    }];
    let mapping = layouts(vec![layout(9, 0)]);
    let stage =
        ShadowkeepRendererBootstrap::load(Some(&stored), Some(&mapping), 2, &formats).unwrap();
    assert!(stage.input_layouts.get(9).is_ok());
    assert!(stage.techniques.has_technique("fxaa"));
    assert_eq!(stage.capability_ledger().len(), 16);
    let unread = ShadowkeepRendererBootstrap::load(Some(&stored), None, 2, &formats);
    assert_eq!(
        unread.err().unwrap().message,
        "Failed to read Shadowkeep input-layout resource"
    );
}

#[test]
fn globals_take_what_the_package_offers() {
    let stored = bootstrap(
        &[("view", 0x8080_0012)],
        &[("fxaa", 0x8080_0021), ("global_lighting", 0xffff_ffff)],
    );
    let loaded = load_renderer_bootstrap(Some(&stored)).unwrap();
    let mut manager = AssetManager::new_shadowkeep();
    let globals = RenderGlobals::load_shadowkeep(
        &mut manager,
        &loaded,
        None,
        &stored.render_globals.lookup_textures.value,
        &LookupReads {
            specular_tint: None,
            specular_lobe: Some("short".to_string()),
            specular_lobe_3d: None,
            iridescence: None,
        },
    );
    assert!(globals.scopes.get(GlobalScope::View).is_available());
    assert!(!globals.scopes.get(GlobalScope::Frame).is_available());
    assert!(globals.pipelines.get(Pipeline::Fxaa).is_available());
    assert!(!globals
        .pipelines
        .get(Pipeline::GlobalLighting)
        .is_available());
    assert_eq!(
        globals.textures.specular_tint_lookup,
        LookupSource::Package { tag: 0x8080_1001 }
    );
    assert_eq!(globals.textures.specular_lobe_lookup, LookupSource::Neutral);
    assert_eq!(
        globals.textures.water_displacement_unk00,
        LookupSource::Neutral
    );
    assert_eq!(globals.channels.default_values.len(), 256);
    assert!(globals.channels.channel_ids.is_empty());
    let known = manager.diagnostics();
    assert_eq!(known.len(), 1);
    assert_eq!(known[0].tag, 0x8080_1002);
    match &known[0].state {
        AssetLoadState::Fallback { fallback, error } => {
            assert_eq!(*fallback, TextureFallback::NeutralLookup);
            assert_eq!(error, "specular_lobe_lookup: short");
        }
        other => panic!("unexpected state {:?}", other),
    }
    assert_eq!(neutral_texel(), [128, 128, 128, 255]);
    assert_eq!(neutral_name("a"), "Shadowkeep neutral lookup a");
}

#[test]
fn specialized_pipelines_are_found_by_their_parts() {
    let mut names = Vec::new();
    for bits in 0..8u32 {
        names.push(NamedTag {
            name: format!(
                "screen_area_global_lut3d{}{}{}",
                if bits & 1 != 0 { "_distort" } else { "" },
                if bits & 2 != 0 { "_noise" } else { "" },
                if bits & 4 != 0 { "_hdr" } else { "" },
            ),
            tag: 0x8080_0440 + bits,
        });
    }
    let cubemap = Pipeline::CubemapApply {
        parallax: true,
        shape: CubemapShape::Cube,
        alpha: true,
        probes: false,
        relighting: false,
    };
    names.push(NamedTag {
        name: cubemap.name(),
        tag: 0x8080_0555,
    });
    let pipelines = GlobalPipelines::load_shadowkeep(&names);
    for bits in 0..8u32 {
        let technique = pipelines.get_specialized_lut3d_pipeline(
            bits & 1 != 0,
            bits & 4 != 0,
            bits & 2 != 0,
        );
        assert_eq!(technique, 0x8080_0440 + bits);
    }
    assert_eq!(
        pipelines.get_specialized_cubemap_pipeline(CubemapShape::Cube, true, false, false, true),
        0x8080_0555
    );
    let missing = GlobalPipelines::load_shadowkeep(&names[..1]).get(cubemap);
    assert_eq!(missing, PipelineSlot(None));
}

#[test]
fn every_pipeline_has_a_number_of_its_own() {
    for number in 0..115usize {
        assert_eq!(Pipeline::from_number(number).index(), number);
    }
}
