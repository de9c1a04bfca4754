use alkahest_shadowkeep::bytecode::relocate_opcode;
use alkahest_shadowkeep::dependency::{sky_technique_dependency, DependencyStore, StageProgram};
use alkahest_shadowkeep::externs::{decode_extern_index, ExternIndex};
use alkahest_shadowkeep::geometry::RenderStage;
use alkahest_shadowkeep::globals::GlobalPipelines;
use alkahest_shadowkeep::manager::{
    AssetDiagnosticSummary, AssetKind, AssetLoadState, AssetManager,
};
use alkahest_shadowkeep::order::{compare_texts, Order};
use alkahest_shadowkeep::pipelines::{GlobalScope, Pipeline};
use alkahest_shadowkeep::pixels::{compute_stats, SurfaceFormat};
use alkahest_shadowkeep::reads::{operand_listing, Instruction, Opcode};
use alkahest_shadowkeep::single::decode_f16;
use alkahest_shadowkeep::steps::{DebugPipeline, RendererEra, Step};
use alkahest_shadowkeep::submit::{RenderFlags, Renderer, ViewKind, ViewSettings};
use alkahest_shadowkeep::texture::{
    mip_side, plan_upload, upload_requirement, Pitch, TextureInfo, TexturePlan,
};

#[test]
fn input_blocks_are_found_by_their_number() {
    let mut names = Vec::new();
    for number in 0..98u8 {
        let block = ExternIndex::from_number(number).unwrap();
        assert_eq!(block.index(), number);
        names.push(block.name());
    }
    assert_eq!(ExternIndex::from_number(98), None);
    names.sort_unstable();
    names.dedup();
    assert_eq!(names.len(), 98);
}

#[test]
fn decoding_skips_one_number() {
    let decoded: Vec<u8> = (0..=96u8)
        .map(|encoded| decode_extern_index(encoded).unwrap().index())
        .collect();
    let expected: Vec<u8> = (0..98u8).filter(|number| *number != 24).collect();
    assert_eq!(decoded, expected);
}

#[test]
fn relocated_opcodes_stay_distinct() {
    let mut current: Vec<u8> = (0..=255u8)
        .filter_map(|legacy| relocate_opcode(legacy))
        .map(|(opcode, _)| opcode)
        .collect();
    let count = current.len();
    current.sort_unstable();
    current.dedup();
    assert_eq!(current.len(), count);
    assert_eq!(count, 15 + 31 + 27);
}

#[test]
fn stages_and_scopes_are_found_by_their_number() {
    for number in 0..24u8 {
        assert_eq!(RenderStage::from_number(number).unwrap().index(), number);
    }
    assert_eq!(RenderStage::from_number(24), None);
    for number in 0..27usize {
        assert_eq!(GlobalScope::from_number(number).index(), number);
    }
}

#[test]
fn every_pixel_is_finite_or_not() {
    let bytes: Vec<u8> = (0..64u32)
        .flat_map(|index| (index * 0x0411).to_le_bytes())
        .flat_map(|byte| [byte, 0x7c ^ byte])
        .collect();
    let stats = compute_stats(SurfaceFormat::R16g16b16a16Float, &bytes, None).unwrap();
    assert_eq!(
        stats.finite_pixel_count + stats.non_finite_pixel_count,
        bytes.len() as u64 / 8
    );
    assert!(stats.clipped_or_saturated_pixel_count >= stats.non_finite_pixel_count);
}

#[test]
fn slices_lie_in_the_payload() {
    let texture = TextureInfo {
        format: 28,
        width: 16,
        height: 2,
        depth: 1,
        array_size: 6,
        mip_count: 5,
        large_buffer: 0xffff_ffff,
    };
    let area = |width: u32, height: u32| Pitch {
        row: width * 4,
        slice: width * height * 4,
    };
    let clamped: Vec<Pitch> = (0..5u16)
        .map(|mip| area(mip_side(16, mip) as u32, mip_side(2, mip) as u32))
        .collect();
    let halved: Vec<Pitch> = (0..5u16)
        .map(|mip| area(16u32 >> mip, 2u32 >> mip))
        .collect();
    let needed = upload_requirement(texture, &clamped).unwrap().required_bytes as u64;
    match plan_upload("t", texture, &clamped, &halved, needed as usize, false).unwrap() {
        TexturePlan::TextureCube { subresources, .. } => {
            assert_eq!(subresources.len(), 30);
            for (index, part) in subresources.iter().enumerate() {
                assert!(part.offset + halved[index % 5].slice as u64 <= needed);
            }
        }
        other => panic!("unexpected plan {:?}", other),
    }
}

fn preserved(flags: RenderFlags) -> Renderer {
    let entries: Vec<alkahest_shadowkeep::globals::NamedTag> = [
        Pipeline::DeferredShadingNoAtm,
        Pipeline::GlobalLighting,
        Pipeline::FinalCombineNoFilmCurve,
    ]
    .iter()
    .map(|pipeline| alkahest_shadowkeep::globals::NamedTag {
        name: pipeline.name(),
        tag: 0x8080_0011,
    })
    .collect();
    Renderer {
        era: RendererEra::Shadowkeep,
        flags,
        pipelines: GlobalPipelines::load_shadowkeep(&entries),
        assets: AssetDiagnosticSummary {
            queued: 0,
            loading: 0,
            ready: 0,
            failed: 0,
            fallback: 0,
        },
    }
}

#[test]
fn preserved_frames_stay_out_of_the_current_graph() {
    for bits in 0..32u32 {
        let renderer = preserved(RenderFlags {
            global_lighting: bits & 1 != 0,
            buffer_provenance: bits & 2 != 0,
            global_lighting_ab: bits & 4 != 0,
            exposure_ab: bits & 8 != 0,
            final_combine_no_film_curve: bits & 16 != 0,
            sky_diagnostics: false,
            sky_objects_ab: false,
        });
        for debug in [
            None,
            Some(DebugPipeline::Shaded),
            Some(DebugPipeline::LightDiffuse),
            Some(DebugPipeline::Albedo),
        ] {
            let view = ViewKind::Main {
                settings: ViewSettings {
                    multithreading: true,
                    anti_aliasing: true,
                    bloom: true,
                },
            };
            assert!(renderer.submit_view(view, debug).iter().all(|step| !matches!(
                step,
                Step::Run { .. }
                    | Step::Lighting
                    | Step::Water
                    | Step::VolumeFog
                    | Step::Bloom
                    | Step::GeometryCommandLists
                    | Step::WriteTransparentConstants
            )));
        }
    }
}

#[test]
fn the_summary_counts_every_asset() {
    let mut manager = AssetManager::new();
    for tag in 0..5u32 {
        let place = manager.load(AssetKind::Texture, 0x8080_0100 + tag).unwrap();
        if tag > 1 {
            manager.start_loading(place);
        }
        if tag > 2 {
            manager.finish_loading(place, if tag > 3 { Err("no".to_string()) } else { Ok(()) });
        }
    }
    let summary = manager.diagnostic_summary();
    assert_eq!(
        summary.queued + summary.loading + summary.ready + summary.failed + summary.fallback,
        manager.diagnostics().len()
    );
    assert_eq!((summary.queued, summary.loading), (2, 1));
    let listed = manager.diagnostics();
    let count = |wanted: fn(&AssetLoadState) -> bool| {
        listed.iter().filter(|known| wanted(&known.state)).count()
    };
    assert_eq!(summary.queued, count(|state| matches!(state, AssetLoadState::Queued)));
    assert_eq!(summary.loading, count(|state| matches!(state, AssetLoadState::Loading)));
    assert_eq!(summary.ready, count(|state| matches!(state, AssetLoadState::Ready)));
    assert_eq!(summary.failed, count(|state| matches!(state, AssetLoadState::Failed { .. })));
    assert_eq!(summary.fallback, 0);
    assert!(listed.windows(2).all(|pair| pair[0].tag < pair[1].tag));
}

#[test]
fn listings_are_sorted_and_distinct() {
    let read = |operand: u8| Instruction {
        opcode: Opcode::PopTextureView,
        operands: vec![operand],
    };
    let program = [read(9), read(2), read(9 + 32), read(5)];
    assert_eq!(
        operand_listing(&program, Opcode::PopTextureView, 32, &[7, 2]),
        vec![2, 5, 7, 9]
    );
}

#[test]
fn texts_are_totally_ordered() {
    let texts = ["", "a", "ab", "b", "Z"];
    for a in texts {
        for b in texts {
            let order = compare_texts(a, b);
            let expected = match a.cmp(b) {
                std::cmp::Ordering::Less => Order::Less,
                std::cmp::Ordering::Equal => Order::Same,
                std::cmp::Ordering::Greater => Order::Greater,
            };
            assert_eq!(order, expected);
        }
    }
}

#[test]
fn groups_are_kept_in_the_order_of_their_tags() {
    let mut store = DependencyStore::new();
    let none: [StageProgram; 0] = [];
    for (map, collection) in [(2u32, 1u32), (1, 9), (1, 3)] {
        let record = sky_technique_dependency(collection, 5, 6, None, &none, &[], &[], &[]);
        assert!(store.record_shadowkeep_sky_technique_dependency(
            true, map, collection, 5, 6, record
        ));
    }
    let keys: Vec<u64> = store.groups.keys().copied().collect();
    assert_eq!(keys, vec![(1 << 32) + 3, (1 << 32) + 9, (2 << 32) + 1]);
}

#[test]
fn halves_keep_their_value() {
    for half in 0..0x7c00u16 {
        let exponent = (half >> 10) as i32;
        let mantissa = (half & 0x3ff) as f64;
        let expected = if exponent == 0 {
            mantissa * 2f64.powi(-24)
        } else {
            (1024.0 + mantissa) * 2f64.powi(exponent - 25)
        };
        assert_eq!(f32::from_bits(decode_f16(half)) as f64, expected);
    }
}
