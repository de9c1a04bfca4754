use alkahest_shadowkeep::channels::Vec4Bits;
use alkahest_shadowkeep::geometry::{
    Mat4Bits, PrimitiveType, RenderStage, SShadowkeepDynamicMaterialVariant,
    SShadowkeepDynamicMesh, SShadowkeepDynamicMeshPart, SShadowkeepDynamicModel,
    SShadowkeepStaticInstanceTransform, SShadowkeepStaticMesh, SShadowkeepStaticMeshData,
    SShadowkeepStaticMeshGroup, SShadowkeepStaticMeshInstanceGroup,
    SShadowkeepStaticMeshInstances, SShadowkeepStaticMeshPart, SShadowkeepStaticSpecialMesh,
    Vec2Bits, Vec3Bits,
};
use alkahest_shadowkeep::instances::{
    constants_size, follow_run, instance_bounds, params_of_instance, quantization, single_instance,
    vertex_ao_place, visibility_test, GroupSight, InstanceDraw, InstanceRows, RunStep, SStaticMeshInstanceGroup, SStaticMeshInstances,
    StaticInstancesRenderer, StaticJob,
};
use alkahest_shadowkeep::map::SShadowkeepCubemapPlacement;
use alkahest_shadowkeep::handle::{null_handle, Handle, TechniqueStatus, UntypedHandle};
use alkahest_shadowkeep::rigid::{is_loaded, part_scopes, DynamicModel};
use alkahest_shadowkeep::statics::{
    draw_outcome, DrawBuffers, DrawReadiness, MeshDetail, StaticMesh,
};

fn zero3() -> Vec3Bits {
    Vec3Bits { x: 0, y: 0, z: 0 }
}

fn zero4() -> Vec4Bits {
    Vec4Bits::new(0, 0, 0, 0)
}

fn part(lod_category: u8, primitive_type: u8) -> SShadowkeepStaticMeshPart {
    SShadowkeepStaticMeshPart {
        index_start: 6,
        index_count: 9,
        buffer_index: 0,
        unk9: 0,
        lod_category,
        primitive_type,
    }
}

fn group(part_index: u16, render_stage: u8) -> SShadowkeepStaticMeshGroup {
    SShadowkeepStaticMeshGroup {
        part_index,
        render_stage,
        unk3: 0,
        input_layout_index: 9,
        unk5: 0,
        unk6: 0x1234,
    }
}

fn special(render_stage: u8) -> SShadowkeepStaticSpecialMesh {
    SShadowkeepStaticSpecialMesh {
        render_stage,
        input_layout_index: 4,
        unk2: 1,
        lod_category: 0,
        unk5: 0,
        primitive_type: 5,
        unk7: 0,
        index_buffer: 1,
        vertex0_buffer: 2,
        vertex1_buffer: 3,
        index_start: 0,
        index_count: 3,
        technique: 0x8080_0077,
    }
}

fn mesh(
    groups: Vec<SShadowkeepStaticMeshGroup>,
    parts: Vec<SShadowkeepStaticMeshPart>,
    techniques: Vec<u32>,
    special_meshes: Vec<SShadowkeepStaticSpecialMesh>,
) -> SShadowkeepStaticMesh {
    SShadowkeepStaticMesh {
        file_size: 0,
        opaque_meshes: SShadowkeepStaticMeshData {
            file_size: 0,
            mesh_groups: groups,
            parts,
            buffers: vec![(1, 2, 3, 4)],
        },
        unkc: 0,
        techniques,
        special_meshes,
        unk30: [0; 2],
        unk38: [0; 6],
        unk50: zero3(),
        unk5c: 0,
        mesh_offset: Vec3Bits { x: 1, y: 2, z: 3 },
        mesh_scale: 4,
        texture_coordinate_scale: Vec2Bits { x: 5, y: 55 },
        texture_coordinate_offset: Vec2Bits { x: 6, y: 7 },
    }
}

#[test]
fn static_meshes_are_brought_into_one_form() {
    let loaded = StaticMesh::load_shadowkeep(&mesh(
        vec![group(0, 0)],
        vec![part(0, 3)],
        vec![0x8080_0011],
        vec![special(7)],
    ))
    .unwrap();
    assert_eq!(loaded.mesh_groups[0].unk6, 0x34);
    assert_eq!(loaded.texture_coordinate_scale, 5);
    assert_eq!(loaded.special_meshes[0].color_buffer, 0xffff_ffff);
    assert!(loaded.subscribed_stages.is_subscribed(RenderStage::GenerateGbuffer));
    assert!(loaded.subscribed_stages.is_subscribed(RenderStage::Transparents));
    assert!(!loaded.subscribed_stages.is_subscribed(RenderStage::Decals));
}

#[test]
fn unknown_stages_and_topologies_are_refused() {
    let refused = |stored: &SShadowkeepStaticMesh| {
        StaticMesh::load_shadowkeep(stored).unwrap_err().message
    };
    assert_eq!(
        refused(&mesh(vec![group(0, 23)], vec![part(5, 3)], vec![], vec![])),
        "Shadowkeep static group has a stage outside the 23-stage graph"
    );
    assert_eq!(
        refused(&mesh(vec![], vec![part(5, 9)], vec![], vec![])),
        "Shadowkeep static part has an unsupported LOD category"
    );
    assert_eq!(
        refused(&mesh(vec![], vec![part(0, 9)], vec![], vec![])),
        "Shadowkeep static part has an unsupported primitive topology"
    );
    assert_eq!(
        refused(&mesh(vec![], vec![], vec![], vec![special(23)])),
        "Shadowkeep static special mesh has a stage outside the 23-stage graph"
    );
    let mut lod = special(7);
    lod.lod_category = 6;
    assert_eq!(
        refused(&mesh(vec![], vec![], vec![], vec![lod])),
        "Shadowkeep static special mesh has an unsupported LOD category"
    );
    let mut topology = special(7);
    topology.primitive_type = 0;
    assert_eq!(
        refused(&mesh(vec![], vec![], vec![], vec![topology])),
        "Shadowkeep static special mesh has an unsupported primitive topology"
    );
}

#[test]
fn opaque_stages_draw_groups_and_others_special_meshes() {
    let loaded = StaticMesh::load_shadowkeep(&mesh(
        vec![group(0, 0), group(1, 0), group(0, 3), group(0, 0)],
        vec![part(0, 3), part(9, 5)],
        vec![0x8080_0011, 0x8080_0022, 0x8080_0033],
        vec![special(7)],
    ))
    .unwrap();
    let detail = MeshDetail {
        parts: vec![true, false],
        special_meshes: vec![true],
    };
    let draws = loaded.render_all(&detail, RenderStage::GenerateGbuffer, 4);
    assert_eq!(draws.len(), 1);
    assert_eq!(draws[0].draw.technique, 0x8080_0011);
    assert_eq!(draws[0].instances, 4);
    assert_eq!(draws[0].draw.buffers, DrawBuffers::Opaque { index: 0 });
    assert_eq!((draws[0].draw.index_count, draws[0].draw.index_start), (9, 6));
    assert_eq!(loaded.render_all(&detail, RenderStage::ShadowGenerate, 1)[0].draw.technique, 0x8080_0033);
    let transparent = loaded.render_all(&detail, RenderStage::Transparents, 1);
    assert_eq!(transparent[0].draw.buffers, DrawBuffers::Special { place: 0 });
    assert_eq!(transparent[0].draw.primitive_type, PrimitiveType::TriangleStrip);
    assert!(loaded.render_all(&detail, RenderStage::Decals, 1).is_empty());
    assert!(loaded.render_group(&detail, RenderStage::GenerateGbuffer, 1).is_none());
    assert!(loaded.render_group(&detail, RenderStage::GenerateGbuffer, 3).is_none());
}

fn transform(scale: u32) -> SShadowkeepStaticInstanceTransform {
    SShadowkeepStaticInstanceTransform {
        rotation: zero4(),
        translation: zero3(),
        scale: Vec3Bits { x: scale, y: 0, z: 0 },
        unk28: 8,
        unk2c: 9,
    }
}

fn placed(instance_start: u16, instance_count: u16, static_index: u16) -> SShadowkeepStaticMeshInstanceGroup {
    SShadowkeepStaticMeshInstanceGroup {
        instance_count,
        instance_start,
        static_index,
        unk6: 0,
    }
}

fn collection(groups: Vec<SShadowkeepStaticMeshInstanceGroup>) -> SShadowkeepStaticMeshInstances {
    SShadowkeepStaticMeshInstances {
        transforms: vec![transform(1), transform(2), transform(3)],
        unk50: [0; 2],
        statics: vec![],
        instance_groups: groups,
    }
}

fn details() -> Vec<MeshDetail> {
    vec![
        MeshDetail {
            parts: vec![true],
            special_meshes: vec![],
        },
        MeshDetail {
            parts: vec![true],
            special_meshes: vec![],
        },
    ]
}

fn two_meshes() -> Vec<SShadowkeepStaticMesh> {
    vec![
        mesh(
            vec![group(0, 0), group(0, 0)],
            vec![part(0, 3)],
            vec![0x8080_0022, 0x8080_0011],
            vec![],
        ),
        mesh(vec![group(0, 0)], vec![part(0, 3)], vec![0x8080_0022], vec![]),
    ]
}

/// The techniques that are bound and the draws that are made, with what is there for each entry.
fn follow(steps: &[RunStep], ready: &[DrawReadiness]) -> (Vec<u32>, Vec<InstanceDraw>) {
    let mut entry = None;
    let mut ready = ready.iter();
    let mut there = DrawReadiness {
        buffers: false,
        technique: false,
        layout: false,
    };
    let mut techniques = Vec::new();
    let mut draws = Vec::new();
    for step in steps {
        if matches!(step, RunStep::SetUp { .. }) {
            there = *ready.next().unwrap();
        }
        let progress = follow_run(entry, *step, there);
        entry = progress.entry;
        techniques.extend(progress.technique);
        draws.extend(progress.draw);
    }
    (techniques, draws)
}

#[test]
fn constants_are_written_once() {
    let mut loaded = StaticInstancesRenderer::load_shadowkeep(
        &two_meshes(),
        &details(),
        &collection(vec![placed(0, 1, 0), placed(1, 2, 1)]),
    )
    .unwrap();
    assert!(loaded.constants_dirty);
    assert_eq!(loaded.prepare(), vec![0, 1]);
    assert!(!loaded.constants_dirty);
    assert!(loaded.prepare().is_empty());
}

#[test]
fn runs_share_a_technique() {
    let loaded = StaticInstancesRenderer::load_shadowkeep(
        &two_meshes(),
        &details(),
        &collection(vec![placed(0, 1, 0), placed(1, 2, 1)]),
    )
    .unwrap();
    assert_eq!(loaded.groups[1].transforms[0].scale, 2);
    assert_eq!(loaded.groups[1].transforms[0].unk20, (8, 9));
    let stage = RenderStage::GenerateGbuffer;
    let jobs = loaded.submit_parallel(&vec![true, true], stage);
    assert_eq!(
        jobs,
        vec![
            StaticJob::Run { start: 0, end: 1 },
            StaticJob::Run { start: 1, end: 3 }
        ]
    );
    let hidden = loaded.submit_parallel(&vec![false, true], stage);
    assert_eq!(hidden, vec![StaticJob::Run { start: 1, end: 3 }]);
    let ready = DrawReadiness {
        buffers: true,
        technique: true,
        layout: true,
    };
    let steps = loaded.draw_run(&details(), &vec![true, true], stage, 1, 3);
    assert_eq!(steps.len(), 4);
    let (techniques, draws) = follow(&steps, &[ready, ready]);
    assert_eq!(techniques, vec![0x8080_0022]);
    assert_eq!(draws.len(), 2);
    assert!(draws.iter().all(|draw| draw.draw.technique == 0x8080_0022));
    assert_eq!(draws.iter().map(|draw| draw.instances).sum::<usize>(), 3);
    for visible in [vec![false, true], vec![true, false]] {
        let steps = loaded.draw_run(&details(), &visible, stage, 1, 3);
        assert_eq!(steps.len(), 4);
        let (techniques, draws) = follow(&steps, &[ready, ready]);
        assert_eq!(techniques, vec![0x8080_0022]);
        assert_eq!(draws.len(), 1);
        assert!(visible[draws[0].instance_group]);
        let unbound = DrawReadiness {
            buffers: false,
            ..ready
        };
        let (techniques, draws) = follow(&steps, &[unbound, ready]);
        assert!(techniques.is_empty());
        assert_eq!(draws.len(), usize::from(visible[1]));
    }
    let whole = loaded.draw_group(&details(), stage, 1);
    assert_eq!(whole.len(), 1);
    assert_eq!(whole[0].instances, 2);
    assert_eq!(loaded.submit(&vec![true, true], stage), vec![0, 1]);
    assert!(loaded.submit(&vec![true, true], RenderStage::Decals).is_empty());
}

#[test]
fn unsorted_stages_are_split_by_group() {
    let meshes = vec![mesh(vec![], vec![], vec![], vec![special(7)])];
    let detail = vec![MeshDetail {
        parts: vec![],
        special_meshes: vec![true],
    }];
    let loaded =
        StaticInstancesRenderer::load_shadowkeep(&meshes, &detail, &collection(vec![placed(0, 1, 0)]))
            .unwrap();
    assert_eq!(
        loaded.submit_parallel(&vec![true], RenderStage::Transparents),
        vec![StaticJob::Group { group: 0 }]
    );
}

#[test]
fn placements_outside_the_transforms_are_refused() {
    let refused = StaticInstancesRenderer::load_shadowkeep(
        &two_meshes(),
        &details(),
        &collection(vec![placed(2, 2, 0)]),
    );
    assert_eq!(
        refused.err().unwrap().message,
        "Invalid Shadowkeep static instance transform range"
    );
}

#[test]
fn instances_find_their_bounds() {
    assert_eq!(instance_bounds(1, 2, 3, &[], 3).unwrap(), vec![1, 2]);
    assert_eq!(instance_bounds(1, 2, 3, &[5, 2, 0], 3).unwrap(), vec![2, 0]);
    assert_eq!(
        instance_bounds(2, 2, 3, &[], 3).unwrap_err().message,
        "Invalid instance transform range"
    );
    assert_eq!(
        instance_bounds(1, 2, 3, &[0, 0], 3).unwrap_err().message,
        "Invalid transform to bounds index"
    );
    assert_eq!(
        instance_bounds(0, 1, 3, &[3], 3).unwrap_err().message,
        "Invalid occlusion bounds index"
    );
}

#[test]
fn current_collections_keep_their_bounds() {
    let models: Vec<StaticMesh> = two_meshes()
        .iter()
        .map(|stored| StaticMesh::load(StaticMesh::load_shadowkeep(stored).unwrap()))
        .collect();
    let (loaded, bounds) = StaticInstancesRenderer::load(
        models,
        &details(),
        &SStaticMeshInstances {
            transforms: single_instance().transforms,
            instance_groups: vec![SStaticMeshInstanceGroup {
                instance_start: 0,
                instance_count: 1,
                static_index: 1,
            }],
            transform_to_bounds_index: vec![4],
            occlusion_bounds: 5,
            vertex_ao_identifier: 99,
        },
    )
    .unwrap();
    assert_eq!(bounds, vec![vec![4]]);
    assert_eq!(loaded.vao_identifier, 99);
    assert!(!loaded.shadowkeep_layout);
    assert_eq!(
        loaded.submit_parallel(&vec![true], RenderStage::GenerateGbuffer),
        vec![StaticJob::Run { start: 1, end: 3 }]
    );
}

#[test]
fn groups_are_seen_with_their_instances() {
    let sights = vec![
        GroupSight {
            group: true,
            instances: vec![false, true],
        },
        GroupSight {
            group: false,
            instances: vec![true],
        },
        GroupSight {
            group: true,
            instances: vec![],
        },
    ];
    let mut visible = vec![false, true, true];
    assert!(!visibility_test(&mut visible, false, &sights));
    assert_eq!(visible, vec![false, true, true]);
    assert!(visibility_test(&mut visible, true, &sights));
    assert_eq!(visible, vec![true, false, false]);
}

#[test]
fn instance_constants_follow_the_layout() {
    let loaded = StaticMesh::load_shadowkeep(&mesh(vec![], vec![], vec![], vec![])).unwrap();
    assert_eq!(constants_size(3, true), 192);
    assert_eq!(constants_size(3, false), 224);
    assert_eq!(vertex_ao_place(9, Some(7)), 4);
    assert_eq!(vertex_ao_place(9, None), 0xffff_ffff);
    assert_eq!(params_of_instance(&loaded, 4, true), Vec4Bits::new(5, 6, 7, 0));
    assert_eq!(
        params_of_instance(&loaded, 4, false),
        Vec4Bits::new(0x3f80_0000, 0x3f80_0000, 0x3f80_0000, 4)
    );
    assert_eq!(quantization(&loaded).0, Vec4Bits::new(1, 2, 3, 4));
    let mut group = single_instance();
    group.transforms[0].vertex_ao_offset = 9;
    let row = |x: u32| Vec4Bits::new(x, 0, 0, 0);
    let rows = vec![InstanceRows {
        x: row(10),
        y: row(20),
        z: row(30),
    }];
    assert_eq!(
        group.update_constants(&loaded, &rows, Some(7), false),
        vec![
            Vec4Bits::new(1, 2, 3, 4),
            Vec4Bits::new(5, 6, 7, 0),
            row(10),
            row(20),
            row(30),
            Vec4Bits::new(0x3f80_0000, 0x3f80_0000, 0x3f80_0000, 4),
        ]
    );
    for layout in [false, true] {
        let data = group.update_constants(&loaded, &rows, None, layout);
        assert_eq!(16 * data.len(), constants_size(1, layout));
    }
    assert_eq!(
        group.update_constants(&loaded, &rows, None, true),
        vec![row(10), row(20), row(30), Vec4Bits::new(5, 6, 7, 0)]
    );
}

#[test]
fn draws_are_given_up_where_something_is_missing() {
    let outcome = |buffers, technique, layout| {
        let outcome = draw_outcome(
            true,
            DrawReadiness {
                buffers,
                technique,
                layout,
            },
        );
        (outcome.binds_technique, outcome.draws)
    };
    assert_eq!(outcome(true, true, true), (true, true));
    assert_eq!(outcome(true, true, false), (true, false));
    assert_eq!(outcome(true, false, true), (false, false));
    assert_eq!(outcome(false, true, true), (false, false));
}

#[test]
fn refused_meshes_need_no_details() {
    let broken = vec![mesh(vec![group(0, 23)], vec![part(0, 3)], vec![1], vec![])];
    assert!(
        StaticInstancesRenderer::load_shadowkeep(&broken, &vec![], &collection(vec![])).is_err()
    );
    let spare = mesh(vec![group(0, 0), group(9, 0)], vec![part(0, 3)], vec![1], vec![]);
    let detail = vec![MeshDetail {
        parts: vec![true],
        special_meshes: vec![],
    }];
    let loaded =
        StaticInstancesRenderer::load_shadowkeep(&vec![spare], &detail, &collection(vec![]));
    assert_eq!(loaded.unwrap().sorted[usize::from(RenderStage::GenerateGbuffer.index())].len(), 1);
}

fn dynamic_part(identifier: u16, variant: u16) -> SShadowkeepDynamicMeshPart {
    SShadowkeepDynamicMeshPart {
        technique: 0x8080_0011,
        variant_shader_index: variant,
        primitive_type: 3,
        unk7: 0,
        index_start: 0,
        index_count: 3,
        unk10: 0,
        external_identifier: identifier,
        unk16: 0,
        unk18: 0,
        unk19: 0,
        unk1a: 0,
        lod_category: 0,
        unk1c: 0,
    }
}

fn dynamic_model(parts: Vec<SShadowkeepDynamicMeshPart>, layout: u16) -> SShadowkeepDynamicModel {
    let count = parts.len() as u16;
    let mut ranges = [count; 24];
    ranges[0] = 0;
    SShadowkeepDynamicModel {
        file_size: 0,
        unk8: 0,
        meshes: vec![SShadowkeepDynamicMesh {
            vertex0_buffer: 1,
            vertex1_buffer: 2,
            buffer2: 3,
            buffer3: 4,
            index_buffer: 5,
            unk14: 6,
            parts,
            part_range_per_render_stage: ranges,
            input_layout_per_render_stage: [layout; 23],
            pad86: [0; 2],
        }],
        unk20: zero4(),
        model_scale: zero4(),
        model_offset: zero4(),
        texcoord_scale: Vec2Bits { x: 1, y: 2 },
        texcoord_offset: Vec2Bits { x: 3, y: 4 },
    }
}

fn variant(start: u32, count: u32, unk8: u32) -> SShadowkeepDynamicMaterialVariant {
    SShadowkeepDynamicMaterialVariant {
        technique_count: count,
        technique_start: start,
        unk8,
    }
}

#[test]
fn rigid_models_draw_the_selected_parts() {
    let stored = dynamic_model(
        vec![
            dynamic_part(0, 0xffff),
            dynamic_part(3, 0),
            dynamic_part(200, 0xffff),
        ],
        7,
    );
    let mut model = DynamicModel::load_shadowkeep(
        0x8080_0099,
        &stored,
        vec![variant(1, 2, 0)],
        vec![10, 20, 30],
    )
    .unwrap();
    assert_eq!(model.mesh_count(), 1);
    assert_eq!(model.variant_count(), 2);
    assert_eq!(model.identifier_count(), 201);
    assert_eq!(model.permutation, 1);
    let detail = vec![vec![true, true, true]];
    let draws = model.draw_wrapped(&detail, RenderStage::GenerateGbuffer, u128::MAX);
    assert_eq!(draws.len(), 2);
    assert_eq!(draws[0].variant_technique, None);
    assert_eq!(draws[1].variant_technique, Some(30));
    assert_eq!(draws[1].input_layout, 7);
    let only = model.draw_wrapped(&detail, RenderStage::GenerateGbuffer, 1 << 3);
    assert_eq!(only.len(), 1);
    assert_eq!(only[0].part, 1);
    assert!(model.draw_wrapped(&detail, RenderStage::ComputeSkinning, u128::MAX).is_empty());
    assert!(!model.subscribed_stages.is_subscribed(RenderStage::Decals));
    assert_eq!(model.get_permutation_technique(0, 0), Some(20));
    assert_eq!(model.get_permutation_technique(0, 2), Some(20));
    assert_eq!(model.get_permutation_technique(0xffff, 0), None);
    assert_eq!(model.get_permutation_technique(5, 0), None);
    assert_eq!(model.constants().texcoord0_scale_offset, Vec4Bits::new(1, 2, 3, 4));
    assert_eq!(model.constants().dynamic_sh_ao_values.w, 0.8f32.to_bits());
    assert_eq!(model.submit(&detail, RenderStage::GenerateGbuffer).1, None);
    model.set_sky_owner(1, 2);
    assert_eq!(model.constants().dynamic_sh_ao_values.w, 1.0f32.to_bits());
    model.identifier_mask = 1 << 3;
    let constants = model.prepare(0);
    assert_eq!(constants.dynamic_sh_ao_values.w, 1.0f32.to_bits());
    let (submitted, record) = model.submit(&detail, RenderStage::GenerateGbuffer);
    assert_eq!(submitted.len(), 1);
    assert_eq!(submitted[0].variant_technique, Some(20));
    assert_eq!(record, Some((1, 2, 0x8080_0099)));
}

#[test]
fn rigid_models_wait_for_their_techniques() {
    let null = || null_handle::<TechniqueStatus>();
    let pending = |tag: u32| Handle::<TechniqueStatus> {
        asset: UntypedHandle::new(tag),
    };
    assert!(is_loaded(&vec![vec![null()], vec![]], &vec![null()]));
    assert!(!is_loaded(&vec![vec![null()], vec![pending(7)]], &vec![]));
    assert!(!is_loaded(&vec![vec![]], &vec![null(), pending(7)]));
}

#[test]
fn broken_rigid_models_are_refused() {
    let load = |stored: &SShadowkeepDynamicModel| {
        DynamicModel::load_shadowkeep(0, stored, vec![], vec![])
            .unwrap_err()
            .message
    };
    assert_eq!(
        load(&dynamic_model(vec![], 256)),
        "Shadowkeep dynamic input-layout index exceeds u8"
    );
    let mut topology = dynamic_part(0, 0xffff);
    topology.primitive_type = 1;
    assert_eq!(
        load(&dynamic_model(vec![topology], 0)),
        "Shadowkeep dynamic part has an unsupported primitive topology"
    );
    let mut lod = dynamic_part(0, 0xffff);
    lod.lod_category = 5;
    assert_eq!(
        load(&dynamic_model(vec![lod], 0)),
        "Shadowkeep dynamic part has an unsupported LOD category"
    );
    let empty =
        DynamicModel::load_shadowkeep(0, &dynamic_model(vec![], 0), vec![variant(0, 0, 0)], vec![])
            .unwrap();
    assert_eq!(empty.variant_count(), 1);
    assert_eq!(empty.identifier_count(), 1);
}

#[test]
fn parts_without_scopes_are_not_drawn() {
    assert_eq!(part_scopes(0, 4), None);
    assert_eq!(part_scopes(6, 4), Some(true));
    assert_eq!(part_scopes(2, 4), Some(false));
}

#[test]
fn cubemap_volumes_keep_their_fields() {
    let placement = SShadowkeepCubemapPlacement {
        volume_extents: Vec4Bits::new(1, 0, 0, 0),
        volume_center: Vec4Bits::new(2, 0, 0, 0),
        unk40: 3,
        unk44: [4, 5, 6],
        fade_near: Vec4Bits::new(7, 0, 0, 0),
        fade_far: Vec4Bits::new(8, 0, 0, 0),
        shape: Vec4Bits::new(9, 0, 0, 0),
        fade_power: 10,
        volume_to_world: Mat4Bits::identity(),
        cubemap_to_world: Mat4Bits::identity(),
        probes_resolution: [11, 12, 13],
        unk14c: 14,
        intensity: Vec4Bits::new(15, 0, 0, 0),
        relighting: Vec4Bits::new(16, 0, 0, 0),
        unk170: Vec4Bits::new(17, 0, 0, 0),
        texture_cube_specular_ibl: 18,
        texture_cube_alpha: 19,
        texture_voxel_diffuse: 20,
    };
    let component = placement.normalized();
    assert_eq!(component.unk34, [4, 5, 6]);
    assert_eq!(component.unk60.x, 9);
    assert_eq!(component.unk180.x, 17);
    assert_eq!(component.unk1a8, 0xffff_ffff);
}
