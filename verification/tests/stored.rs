use alkahest_shadowkeep::bytes::{get_le_u16, get_le_u32, get_le_u64};
use alkahest_shadowkeep::cui::VecPointer;
use alkahest_shadowkeep::geometry::{
    SShadowkeepDynamicMesh, SShadowkeepStaticMeshGroup, SShadowkeepStaticSpecialMesh,
};
use alkahest_shadowkeep::map::SShadowkeepCubemapPlacement;
use alkahest_shadowkeep::order::{compare_texts, Order};
use alkahest_shadowkeep::sequencer::{
    NodeKind, SSequenceDelay, SSequenceNodeBase, SUnk80806920, SUnk808091f1Variant,
};
use alkahest_shadowkeep::stored::{read_record, read_records};
use alkahest_shadowkeep::technique::{ShadowkeepPipelineState, ShadowkeepTechniqueBindMode};
use alkahest_shadowkeep::texture::SShadowkeepTextureHeader;
use alkahest_shadowkeep::text::{decimal, hex, hex_byte, hex_dump, hex_word, same_text};

#[test]
fn lists_know_where_they_are_stored() {
    let mut bytes = [0u8; 40];
    bytes[16] = 3;
    bytes[24] = 0x30;
    let list = VecPointer::read(&bytes, 16, vec![1u32, 2, 3]).unwrap();
    assert_eq!(list.addr(), 16 + 8 + 0x30);
    assert_eq!(list.len(), 3);
    assert!(!list.is_empty());
    assert!(VecPointer::read(&bytes, 25, vec![0u8]).is_none());
    bytes[24..32].copy_from_slice(&u64::MAX.to_le_bytes());
    assert!(VecPointer::read(&bytes, 16, vec![0u8]).is_none());
}

fn base(parent_index: u16) -> SSequenceNodeBase {
    SSequenceNodeBase {
        name: 1,
        unk4: 2,
        parent_index,
        unk8: 0,
        unkc: 0,
        start_time: 0,
        unk14: 0,
        duration: 0,
        unk1c: 0,
    }
}

#[test]
fn known_nodes_have_a_base() {
    let delay = SUnk808091f1Variant::SSequenceDelay(SSequenceDelay { base: base(7) });
    assert_eq!(delay.base().unwrap().parent_index, 7);
    let unknown = SUnk808091f1Variant::Unknown { class: 0x8080_0001 };
    assert!(unknown.base().is_none());
}

#[test]
fn nodes_are_flow_or_work() {
    assert_eq!(NodeKind::from_stored(0).unwrap(), NodeKind::Flow);
    assert_eq!(NodeKind::from_stored(1).unwrap(), NodeKind::Work);
    assert_eq!(NodeKind::from_stored(2).unwrap_err().value, 2);
}

#[test]
fn particles_run_on_the_gpu_with_a_compute_technique() {
    let mut system = SUnk80806920 {
        unk0: 0xffff_ffff,
        unk4: 0xffff_ffff,
        unk8_compute_technique: 0xffff_ffff,
        unkc_compute_technique: 0xffff_ffff,
        unk10: 0,
        unk14_compute_technique: 0xffff_ffff,
        unk18_raster_technique: 0x8080_0011,
    };
    assert!(!system.is_gpu());
    system.unk14_compute_technique = 0x8080_0022;
    assert!(system.is_gpu());
}

#[test]
fn numerals_are_spelled_out() {
    assert_eq!(decimal(0), "0");
    assert_eq!(decimal(u64::MAX), "18446744073709551615");
    assert_eq!(hex(0x1ab), "1AB");
    assert_eq!(hex_word(0xab), "000000AB");
    assert_eq!(hex_byte(7), "07");
    assert_eq!(hex_dump(&[0xab, 1]), "ab01");
    assert!(same_text("abc", "abc"));
    assert!(!same_text("abc", "abd"));
}

#[test]
fn bytes_are_read_little_endian() {
    let bytes = [1, 2, 3, 4, 5, 6, 7, 8];
    assert_eq!(get_le_u16(&bytes, 1), 0x0302);
    assert_eq!(get_le_u32(&bytes, 0), 0x0403_0201);
    assert_eq!(get_le_u64(&bytes, 0), 0x0807_0605_0403_0201);
}

#[test]
fn texts_are_ordered_by_their_characters() {
    assert_eq!(compare_texts("abc", "abd"), Order::Less);
    assert_eq!(compare_texts("b", "abd"), Order::Greater);
    assert_eq!(compare_texts("ab", "abd"), Order::Less);
    assert_eq!(compare_texts("", ""), Order::Same);
}

#[test]
fn techniques_bind_in_known_modes() {
    assert_eq!(
        ShadowkeepTechniqueBindMode::from_stored(6).unwrap(),
        ShadowkeepTechniqueBindMode::Compute
    );
    assert!(ShadowkeepTechniqueBindMode::from_stored(0).is_err());
    assert!(ShadowkeepTechniqueBindMode::from_stored(7).is_err());
}

#[test]
fn pipeline_states_have_an_index_where_their_top_bit_is_set() {
    let states = ShadowkeepPipelineState(0x0000_0082).state_indices();
    assert_eq!(states[0], Some(2));
    assert_eq!(states[1], None);
}

#[test]
fn texture_headers_are_read_from_bytes() {
    let mut bytes = vec![0u8; 0x28];
    bytes[0..4].copy_from_slice(&9u32.to_le_bytes());
    bytes[14..16].copy_from_slice(&128u16.to_le_bytes());
    bytes[16..18].copy_from_slice(&64u16.to_le_bytes());
    bytes[23] = 5;
    bytes[24] = 77;
    bytes[0x24..0x28].copy_from_slice(&0x8080_0011u32.to_le_bytes());
    let header: SShadowkeepTextureHeader = read_record(&bytes, 0).unwrap();
    assert_eq!(header.data_size, 9);
    assert_eq!((header.width, header.height), (128, 64));
    assert_eq!(header.mip_count, 5);
    assert_eq!(header.unk18[0], 77);
    assert_eq!(header.large_buffer, 0x8080_0011);
    assert!(read_record::<SShadowkeepTextureHeader>(&bytes, 1).is_none());
}

#[test]
fn records_follow_each_other() {
    let bytes: Vec<u8> = (0..17).collect();
    let groups: Vec<SShadowkeepStaticMeshGroup> = read_records(&bytes, 1, 2).unwrap();
    assert_eq!(groups.len(), 2);
    assert_eq!(groups[1].part_index, 0x0a09);
    assert_eq!(groups[1].unk6, 0x100f);
    assert!(read_records::<SShadowkeepStaticMeshGroup>(&bytes, 1, 3).is_none());
    assert!(read_records::<SShadowkeepStaticMeshGroup>(&bytes, 18, 0).is_none());
    assert!(read_records::<SShadowkeepStaticMeshGroup>(&bytes, 17, 0).unwrap().is_empty());
    assert!(read_records::<SShadowkeepStaticMeshGroup>(&bytes, 1, usize::MAX).is_none());
}

#[test]
fn signed_bytes_and_late_fields_are_read() {
    let mut special = vec![0u8; 0x20];
    special[5] = 0xfe;
    let mesh: SShadowkeepStaticSpecialMesh = read_record(&special, 0).unwrap();
    assert_eq!(mesh.unk5, -2);
    let mut volume = vec![0u8; 0x1a4];
    volume[0xc0] = 3;
    volume[0x140] = 4;
    volume[0x198] = 5;
    let placement: SShadowkeepCubemapPlacement = read_record(&volume, 0).unwrap();
    assert_eq!(placement.volume_to_world.x_axis.x, 3);
    assert_eq!(placement.probes_resolution, [4, 0, 0]);
    assert_eq!(placement.texture_cube_specular_ibl, 5);
}

#[test]
fn stages_have_ranges_of_parts() {
    let mut ranges = [0u16; 24];
    for (index, range) in ranges.iter_mut().enumerate() {
        *range = index as u16 * 2;
    }
    let mesh = SShadowkeepDynamicMesh {
        vertex0_buffer: 0,
        vertex1_buffer: 0,
        buffer2: 0,
        buffer3: 0,
        index_buffer: 0,
        unk14: 0,
        parts: vec![],
        part_range_per_render_stage: ranges,
        input_layout_per_render_stage: [0; 23],
        pad86: [0; 2],
    };
    assert_eq!(mesh.range_for_stage(22), Some(44..46));
    assert_eq!(mesh.range_for_stage(23), None);
}
