use alkahest_shadowkeep::bytecode::translate_shadowkeep_bytecode;
use alkahest_shadowkeep::channels::Vec4Bits;
use alkahest_shadowkeep::constants::{
    bind_steps, constant_source, constants_from_payload, disable_expression,
    plan_shadowkeep_constants, BindStep, ConstantSource, TextureBinding,
};
use alkahest_shadowkeep::dependency::{
    global_lighting_manifest, shadowkeep_global_lighting_stage_status, sky_technique_dependency,
    DependencyStore, StageProgram,
};
use alkahest_shadowkeep::externs::ExternIndex;
use alkahest_shadowkeep::manager::AssetDiagnosticSummary;
use alkahest_shadowkeep::reads::{
    distinct_input_reads, sorted_input_reads, writes_cbuffer, Instruction, Opcode,
};
use alkahest_shadowkeep::records::{
    atmosphere_channel_list, capture_directory, manifest_schema, shadowkeep_deferred_provenance,
    shadowkeep_final_combine_provenance, shadowkeep_global_lighting_channel_values,
    shadowkeep_lighting_provenance, DeferredSurfaces, GlobalLightingInputs, RenderSettings,
};
use alkahest_shadowkeep::steps::CaptureSet;
use alkahest_shadowkeep::technique::{
    SShadowkeepDynamicConstants, SShadowkeepSamplerReference,
};

#[test]
fn shadowkeep_bytecode_relocates_sampler_and_extern_opcodes() {
    assert_eq!(
        translate_shadowkeep_bytecode(&[0x4c, 0x00, 0x49, 0x21, 0x3e, 0x02, 0x03]).unwrap(),
        vec![0x5b, 0x00, 0x58, 0x21, 0x4c, 0x02, 0x03],
    );
}

#[test]
fn shadowkeep_bytecode_relocates_legacy_extern_abi_offsets() {
    let deferred = ExternIndex::Deferred.index();
    let view = ExternIndex::View.index();
    assert_eq!(
        translate_shadowkeep_bytecode(&[0x3f, deferred, 0x0e]).unwrap(),
        vec![0x4d, deferred, 0x16],
    );
    assert_eq!(
        translate_shadowkeep_bytecode(&[0x3f, 43, 0x02]).unwrap(),
        vec![0x4d, 43, 0x02],
    );
    assert_eq!(
        translate_shadowkeep_bytecode(&[0x3e, view, 0x06]).unwrap(),
        vec![0x4c, view, 0x08],
    );
    assert_eq!(
        translate_shadowkeep_bytecode(&[0x3e, view, 0x0e]).unwrap(),
        vec![0x4c, view, 0x10],
    );
}

#[test]
fn broken_programs_are_refused() {
    assert_eq!(
        translate_shadowkeep_bytecode(&[0x01, 0xff]).unwrap_err().message,
        "unsupported Shadowkeep expression opcode 0xFF at 0x1"
    );
    assert_eq!(
        translate_shadowkeep_bytecode(&[0x3e, 0x02]).unwrap_err().message,
        "truncated Shadowkeep expression opcode 0x3E at 0x0"
    );
    assert_eq!(
        translate_shadowkeep_bytecode(&[0x3e, 97, 0x00]).unwrap_err().message,
        "invalid Shadowkeep extern index 97 at 0x0"
    );
    assert_eq!(
        translate_shadowkeep_bytecode(&[0x3f, ExternIndex::Deferred.index(), 0xff])
            .unwrap_err()
            .message,
        "Shadowkeep Deferred texture offset overflow"
    );
}

#[test]
fn programs_can_be_translated_in_parts() {
    let first = [0x4c, 0x00];
    let second = [0x49, 0x21];
    let mut joined = translate_shadowkeep_bytecode(&first).unwrap();
    joined.extend(translate_shadowkeep_bytecode(&second).unwrap());
    assert_eq!(
        translate_shadowkeep_bytecode(&[0x4c, 0x00, 0x49, 0x21]).unwrap(),
        joined
    );
    assert_eq!(joined.len(), 4);
}

fn instruction(opcode: Opcode, operands: &[u8]) -> Instruction {
    Instruction {
        opcode,
        operands: operands.to_vec(),
    }
}

fn stage(program: Vec<Instruction>) -> StageProgram {
    StageProgram {
        stage: "ps".to_string(),
        shader: 0x8080_0abc,
        disassembly: "listing".to_string(),
        program,
        constant_buffer_slot: 3,
        constant_buffer_len: 2,
        samplers: vec![],
        textures: vec![],
        evaluation: "Ok".to_string(),
    }
}

#[test]
fn reads_are_sorted_and_listed_once() {
    let program = [
        instruction(Opcode::PushExternInputVec4, &[ExternIndex::View.index(), 2]),
        instruction(Opcode::PushExternInputFloat, &[ExternIndex::Deferred.index(), 1]),
        instruction(Opcode::PushExternInputFloat, &[ExternIndex::Deferred.index(), 1]),
    ];
    let all = sorted_input_reads(&program);
    assert_eq!(all.len(), 3);
    assert_eq!(all[0].extern_index, "Deferred");
    assert_eq!(all[0].byte_offset, 4);
    assert_eq!(all[2].extern_index, "View");
    assert_eq!(all[2].value_type, "vec4");
    assert_eq!(all[2].byte_offset, 32);
    assert_eq!(distinct_input_reads(&program).len(), 2);
    assert!(!writes_cbuffer(&program));
    assert!(writes_cbuffer(&[instruction(Opcode::PopOutput, &[0])]));
}

#[test]
fn the_dependency_manifest_is_written_once() {
    let globals = vec![Vec4Bits::new(0, 0, 0, 0), Vec4Bits::new(7, 0, 0, 0)];
    let programs = [stage(vec![
        instruction(Opcode::PushGlobalChannelVector, &[1]),
        instruction(Opcode::PushGlobalChannelVector, &[9]),
        instruction(Opcode::PopSamplerState, &[0x41]),
    ])];
    let mut emitted = false;
    let manifest =
        global_lighting_manifest(&mut emitted, 0x8080_0011, true, &programs, &globals).unwrap();
    assert!(emitted);
    assert_eq!(manifest.technique, "80800011");
    assert_eq!(manifest.stages[0].shader, "80800ABC");
    assert_eq!(manifest.stages[0].push_global_channel_vector_indices, vec![1, 9]);
    assert_eq!(manifest.stages[0].push_global_channel_vector_values.len(), 1);
    assert_eq!(manifest.stages[0].sampler_slots, vec![1]);
    assert!(global_lighting_manifest(&mut emitted, 0x8080_0011, true, &programs, &globals).is_none());
    assert_eq!(
        shadowkeep_global_lighting_stage_status(&programs),
        vec!["stage=ps shader=80800ABC expression=Ok".to_string()]
    );
}

#[test]
fn channels_of_all_stages_are_listed_once() {
    let globals = vec![Vec4Bits::new(5, 0, 0, 0), Vec4Bits::new(7, 0, 0, 0)];
    let programs = [
        stage(vec![instruction(Opcode::PushGlobalChannelVector, &[1])]),
        stage(vec![
            instruction(Opcode::PushGlobalChannelVector, &[1]),
            instruction(Opcode::PushGlobalChannelVector, &[0]),
        ]),
    ];
    let values = shadowkeep_global_lighting_channel_values(&programs, &globals);
    assert_eq!(values.len(), 2);
    assert_eq!((values[0].index, values[0].value.x), (0, 5));
    assert_eq!((values[1].index, values[1].value.x), (1, 7));
}

#[test]
fn dependencies_are_recorded_until_they_change() {
    let mut store = DependencyStore::new();
    let programs = [stage(vec![instruction(Opcode::PushGlobalChannelVector, &[1])])];
    let changed = [stage(vec![])];
    let describe = |programs: &[StageProgram]| {
        sky_technique_dependency(0x8080_0001, 0x8080_0002, 0x8080_0003, None, programs, &[], &[], &[])
    };
    let mut record = |diagnostics: bool, dependency| {
        store.record_shadowkeep_sky_technique_dependency(
            diagnostics,
            1,
            0x8080_0001,
            0x8080_0002,
            0x8080_0003,
            dependency,
        )
    };
    assert!(!record(false, describe(&programs)));
    assert!(record(true, describe(&programs)));
    assert!(!record(true, describe(&programs)));
    assert!(record(true, describe(&changed)));
    assert_eq!(store.group(1, 0x8080_0001).unwrap().len(), 1);
    assert!(store.group(2, 0x8080_0001).is_none());
}

#[test]
fn values_that_are_no_number_are_the_same_on_record() {
    let mut store = DependencyStore::new();
    let programs = [stage(vec![instruction(Opcode::PushGlobalChannelVector, &[0])])];
    let mut record = |x: u32| {
        let values = [Vec4Bits::new(x, 0, 0, 0)];
        let dependency =
            sky_technique_dependency(1, 2, 3, None, &programs, &[], &values, &[]);
        store.record_shadowkeep_sky_technique_dependency(true, 9, 1, 2, 3, dependency)
    };
    assert!(record(0x7fc0_0000));
    assert!(!record(0xffc0_0001));
    assert!(record(0));
    assert!(record(0x8000_0000));
}

fn surfaces() -> DeferredSurfaces {
    DeferredSurfaces {
        depth: "gbuffer_depth".to_string(),
        albedo: "gbuffer_albedo".to_string(),
        normal: "gbuffer_normal".to_string(),
        third: "gbuffer_third".to_string(),
        light_diffuse: "diffuse".to_string(),
        light_specular: "specular".to_string(),
        light_specular_ibl: "ibl".to_string(),
    }
}

#[test]
fn shading_is_recorded_with_its_bindings() {
    let pixel = stage(vec![]);
    let record = shadowkeep_deferred_provenance(
        0x8080_0011,
        None,
        Some(&pixel),
        true,
        &surfaces(),
        "R11g11b10Float",
    );
    assert_eq!(record.technique, "80800011");
    assert_eq!(record.vertex_shader, None);
    assert_eq!(record.pixel_shader.as_deref(), Some("80800ABC"));
    assert_eq!(record.pixel_constant_buffer_slot, Some(3));
    assert_eq!(record.bound_deferred_srvs[0], "deferred_depth -> gbuffer_depth proxy");
    assert_eq!(record.bound_deferred_srvs[6], "light_specular_ibl -> ibl");
    let combined = shadowkeep_final_combine_provenance(
        0x8080_0012,
        Some(&pixel),
        None,
        false,
        "shading_result_read -> shading_result proxy",
        "R8g8b8a8Unorm",
    );
    assert_eq!(combined.vertex_expression.as_deref(), Some("Ok"));
    assert_eq!(combined.pixel_expression, None);
    assert!(!combined.draw_6_reached);
}

#[test]
fn lighting_is_recorded_with_its_settings() {
    let text = |value: &str| value.to_string();
    let record = shadowkeep_lighting_provenance(
        "ALL",
        "SKY",
        &RenderSettings {
            exposure_scale: text("0.05"),
            exposure_illum_relative: text("2"),
            vertex_ao: text("true"),
            bloom: text("false"),
            volumetrics: text("true"),
            shadows: text("true"),
            autoexposure: text("false"),
            sun_shadows: text("true"),
            anti_aliasing: text("true"),
            multithreading: text("false"),
            hzb_culling: text("true"),
        },
        &AssetDiagnosticSummary {
            queued: 1,
            loading: 2,
            ready: 3,
            failed: 4,
            fallback: 5,
        },
        6,
        vec![text("80800011")],
    );
    assert_eq!(
        record.render_settings,
        "exposure_scale=0.05, exposure_illum_relative=2, vertex_ao=true, bloom=false, volumetrics=true, shadows=true, autoexposure=false, sun_shadows=true, anti_aliasing=true, multithreading=false, hzb_culling=true"
    );
    assert_eq!((record.assets_ready, record.assets_using_fallback), (3, 5));
    assert!(record.lighting_apply_stage_submitted);
    assert_eq!(record.deferred_light_draw_indexed_calls, 6);
}

#[test]
fn lighting_inputs_are_listed_by_offset() {
    let zero = Vec4Bits::new(0, 0, 0, 0);
    let values = GlobalLightingInputs {
        unk10: Vec4Bits::new(1, 2, 3, 4),
        unk30: zero,
        unk50: zero,
        unk70: zero,
        unk80: zero,
        unk90: 0,
        unk94: 5,
        unk98: 0,
        unk9c: 0,
        unka0: 0,
        unkb0: zero,
        unkc0: zero,
        unkd0: zero,
    }
    .listing();
    assert_eq!(values.len(), 13);
    assert_eq!((values[0].byte_offset, values[0].value.w), (0x10, 4));
    assert_eq!((values[6].byte_offset, values[6].value), (0x94, Vec4Bits::new(5, 0, 0, 0)));
}

#[test]
fn capture_sets_have_directories_and_schemas() {
    assert_eq!(
        capture_directory(CaptureSet::BeforeGlobalLighting),
        "artifacts/shadowkeep-global-lighting-ab/before_global_lighting"
    );
    assert_eq!(
        manifest_schema(CaptureSet::AfterFinalShading),
        "alkahest-shadowkeep-global-lighting-ab/v1"
    );
    let channels = atmosphere_channel_list();
    assert_eq!(channels.len(), 22);
    assert_eq!(channels[0].channel, 0x0560_07c7);
}

#[test]
fn constants_come_from_the_package_first() {
    assert_eq!(
        constant_source(0x8080_0011, 4),
        ConstantSource::Package { tag: 0x8080_0011 }
    );
    assert_eq!(constant_source(0xffff_ffff, 4), ConstantSource::Inline);
    assert_eq!(constant_source(0xffff_ffff, 0), ConstantSource::Absent);
    let payload: Vec<u8> = (0..32).collect();
    let vectors = constants_from_payload(&payload);
    assert_eq!(vectors.len(), 2);
    assert_eq!(vectors[1].x, 0x1312_1110);
}

#[test]
fn stages_plan_their_samplers_and_slot() {
    let plan = plan_shadowkeep_constants(&SShadowkeepDynamicConstants {
        bytecode: vec![0x49, 0x21],
        bytecode_constants: vec![],
        samplers: vec![
            SShadowkeepSamplerReference {
                sampler: 0xffff_ffff,
                unk4: 0,
                unk8: 0,
                unkc: 0,
            },
            SShadowkeepSamplerReference {
                sampler: 0x8080_0011,
                unk4: 0,
                unk8: 0,
                unkc: 0,
            },
        ],
        inline_constants: vec![],
        unk40: [0; 8],
        constant_buffer_slot: -1,
        constant_buffer: 0xffff_ffff,
    })
    .unwrap();
    assert_eq!(plan.samplers, vec![None, Some(0x8080_0011)]);
    assert_eq!(plan.cbuffer_slot, u32::MAX);
    assert_eq!(plan.bytecode, vec![0x58, 0x21]);
}

#[test]
fn every_texture_slot_is_bound() {
    let steps = bind_steps(
        true,
        true,
        true,
        2,
        &[
            TextureBinding {
                slot: 4,
                ready: true,
            },
            TextureBinding {
                slot: 5,
                ready: false,
            },
        ],
    );
    assert_eq!(
        steps,
        vec![
            BindStep::EvaluateIntoBuffer,
            BindStep::BindBuffer { slot: 2 },
            BindStep::BindTexture {
                assignment: 0,
                slot: 4
            },
            BindStep::BindFallback { slot: 5 },
        ]
    );
    assert!(bind_steps(false, false, false, u32::MAX, &[]).is_empty());
}

#[test]
fn failing_programs_are_stopped_where_they_failed() {
    let mut program = vec![1, 2, 3];
    disable_expression(&mut program, 1, 0x99);
    assert_eq!(program, vec![1, 0x99, 3]);
    disable_expression(&mut program, 3, 0x99);
    assert_eq!(program, vec![1, 0x99, 3]);
}
