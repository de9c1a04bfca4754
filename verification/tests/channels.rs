use alkahest_shadowkeep::channel_table::GlobalChannelTable;
use alkahest_shadowkeep::channels::{
    global_channel_defaults, parse_shadowkeep_channel_defaults,
    shadowkeep_channel_defaults_with_fallback, ShadowkeepChannelDefaultsLoad, Vec4Bits,
};
use alkahest_shadowkeep::globals::GlobalChannels;
use glam::Vec4;

fn bits(value: Vec4) -> Vec4Bits {
    Vec4Bits::new(
        value.x.to_bits(),
        value.y.to_bits(),
        value.z.to_bits(),
        value.w.to_bits(),
    )
}

#[test]
fn legacy_global_channels_are_positional_and_deterministic() {
    let channels = global_channel_defaults();
    assert_eq!(channels.len(), 256);
    assert_eq!(channels[10], bits(Vec4::ZERO));
    assert_eq!(channels[27], bits(Vec4::X));
    assert_eq!(channels[37], bits(Vec4::X * 50.0));
    assert_eq!(channels[131], bits(Vec4::new(0.5, 0.5, 0.3, 0.0)));
}

fn write_descriptor(
    bytes: &mut [u8],
    count_offset: usize,
    pointer_offset: usize,
    count: usize,
    target: usize,
) {
    bytes[count_offset..count_offset + 8].copy_from_slice(&(count as u64).to_le_bytes());
    bytes[pointer_offset..pointer_offset + 8]
        .copy_from_slice(&((target - pointer_offset) as i64).to_le_bytes());
}

fn encoded_channel_defaults(values: &[Vec4], trailing: &[u8]) -> Vec<u8> {
    let auxiliary: [u32; 5] = [0, 0, 0, 0x74, 0];
    let hash_target = 0x38;
    let value_target = hash_target + 0x10 + values.len() * 4;
    let auxiliary_target = value_target + 0x10 + values.len() * 16;
    let payload_end = auxiliary_target + 0x10 + auxiliary.len() * 4;
    let mut bytes = vec![0; payload_end + trailing.len()];
    let byte_len = bytes.len() as u64;
    bytes[0..8].copy_from_slice(&byte_len.to_le_bytes());
    write_descriptor(&mut bytes, 0x08, 0x10, values.len(), hash_target);
    write_descriptor(&mut bytes, 0x18, 0x20, values.len(), value_target);
    write_descriptor(&mut bytes, 0x28, 0x30, auxiliary.len(), auxiliary_target);

    for (target, count, header) in [
        (
            hash_target,
            values.len(),
            [0x70, 0x00, 0x80, 0x80, 0, 0, 0, 0],
        ),
        (
            value_target,
            values.len(),
            [0x90, 0x00, 0x80, 0x80, 0, 0, 0, 0],
        ),
        (
            auxiliary_target,
            auxiliary.len(),
            [0x0b, 0x00, 0x80, 0x80, 0, 0, 0, 0],
        ),
    ] {
        bytes[target..target + 8].copy_from_slice(&(count as u64).to_le_bytes());
        bytes[target + 8..target + 0x10].copy_from_slice(&header);
    }
    for index in 0..values.len() {
        let start = hash_target + 0x10 + index * 4;
        bytes[start..start + 4].copy_from_slice(&(index as u32).to_le_bytes());
    }
    for (index, value) in values.iter().enumerate() {
        let start = value_target + 0x10 + index * 16;
        for (component, scalar) in value.to_array().iter().enumerate() {
            bytes[start + component * 4..start + component * 4 + 4]
                .copy_from_slice(&scalar.to_le_bytes());
        }
    }
    for (index, value) in auxiliary.iter().enumerate() {
        let start = auxiliary_target + 0x10 + index * 4;
        bytes[start..start + 4].copy_from_slice(&value.to_le_bytes());
    }
    bytes[payload_end..].copy_from_slice(trailing);
    bytes
}

#[test]
fn channel_defaults_report_the_encoded_array_count() {
    let values = [Vec4::X, Vec4::Y, Vec4::Z];
    let parsed =
        parse_shadowkeep_channel_defaults(&encoded_channel_defaults(&values, &[])).unwrap();
    assert_eq!(parsed.array_count, values.len());
    assert_eq!(parsed.channel_hashes, [0, 1, 2]);
    assert_eq!(parsed.values, values.map(bits));
    assert_eq!(parsed.auxiliary_fields, [0, 0, 0, 0x74, 0]);
    assert_eq!(
        parsed.value_element_header,
        [0x90, 0x00, 0x80, 0x80, 0, 0, 0, 0]
    );
}

#[test]
fn truncated_channel_defaults_are_rejected() {
    let mut bytes = encoded_channel_defaults(&[Vec4::ONE], &[]);
    bytes.pop();
    let error = parse_shadowkeep_channel_defaults(&bytes).unwrap_err();
    assert!(error.message.contains("declares"));
}

#[test]
fn channel_default_values_remain_positional() {
    let values = [
        Vec4::new(2.0, 3.0, 5.0, 7.0),
        Vec4::new(11.0, 13.0, 17.0, 19.0),
    ];
    let parsed =
        parse_shadowkeep_channel_defaults(&encoded_channel_defaults(&values, &[])).unwrap();
    assert_eq!(parsed.values[0], bits(values[0]));
    assert_eq!(parsed.values[1], bits(values[1]));
}

#[test]
fn malformed_channel_defaults_expose_the_degraded_fallback() {
    let (values, source) = shadowkeep_channel_defaults_with_fallback(&[0; 7]);
    assert_eq!(values, global_channel_defaults().to_vec());
    match source {
        ShadowkeepChannelDefaultsLoad::Fallback { reason } => {
            assert!(reason.contains("channel-default resource"));
        }
        ShadowkeepChannelDefaultsLoad::Package(_) => panic!("malformed data decoded"),
    }
}

#[test]
fn bytes_behind_the_vectors_are_kept() {
    let parsed =
        parse_shadowkeep_channel_defaults(&encoded_channel_defaults(&[Vec4::ONE], &[7, 8, 9]))
            .unwrap();
    assert_eq!(parsed.trailing_bytes, [7, 8, 9]);
    assert!(parsed.interstitial_bytes.is_empty());
    assert_eq!(parsed.hash_array_offset, 0x38);
    assert_eq!(parsed.value_array_offset, 0x4c);
}

#[test]
fn broken_vectors_are_named() {
    let mut counts = encoded_channel_defaults(&[Vec4::ONE, Vec4::X], &[]);
    counts[0x38] = 3;
    assert_eq!(
        parse_shadowkeep_channel_defaults(&counts).unwrap_err().message,
        "channel hash vector descriptor count 2 disagrees with target count 3"
    );
    let mut empty = encoded_channel_defaults(&[Vec4::ONE, Vec4::X], &[]);
    empty[0x08] = 0;
    assert_eq!(
        parse_shadowkeep_channel_defaults(&empty).unwrap_err().message,
        "channel hash vector count must be positive"
    );
    let mut far = encoded_channel_defaults(&[Vec4::ONE, Vec4::X], &[]);
    far[0x20..0x28].copy_from_slice(&i64::MIN.to_le_bytes());
    assert_eq!(
        parse_shadowkeep_channel_defaults(&far).unwrap_err().message,
        "channel value vector points outside addressable range"
    );
}

#[test]
fn too_many_channels_fall_back_to_the_documented_table() {
    let values = vec![Vec4::ONE; 257];
    let channels = GlobalChannels::load_shadowkeep(Some(&encoded_channel_defaults(&values, &[])));
    assert!(channels.channel_ids.is_empty());
    assert_eq!(channels.default_values, global_channel_defaults().to_vec());
    let values = vec![Vec4::Y; 256];
    let channels = GlobalChannels::load_shadowkeep(Some(&encoded_channel_defaults(&values, &[])));
    assert_eq!(channels.channel_ids.len(), 256);
    assert_eq!(channels.default_values[255], bits(Vec4::Y));
}

#[test]
fn channels_are_set_by_number_and_by_position() {
    let mut table = GlobalChannelTable::new(&[bits(Vec4::X), bits(Vec4::Y)], vec![0x10, 0x2c53_8179]);
    assert_eq!(table.get_global_channel_by_index(0), Some(bits(Vec4::X)));
    assert_eq!(
        table.get_global_channel_by_index(1),
        Some(bits(Vec4::splat(0.1)))
    );
    assert_eq!(
        table.get_global_channel_by_index(2),
        Some(bits(Vec4::ONE))
    );
    assert_eq!(table.default_globals[1], bits(Vec4::splat(0.1)));
    table.set_global_channel_by_id(0x10, bits(Vec4::Z));
    assert_eq!(table.globals[0], bits(Vec4::Z));
    assert_eq!(
        table.set_global_channel_by_index(0, bits(Vec4::W)),
        Some(bits(Vec4::Z))
    );
    assert_eq!(table.set_global_channel_by_index(256, bits(Vec4::W)), None);
    assert_eq!(table.get_global_channel_by_index(256), None);
}

#[test]
fn later_writes_to_a_number_win() {
    let table = GlobalChannelTable::new(&[], vec![0xcf70_ac7c]);
    assert_eq!(table.globals[0], bits(Vec4::ZERO));
}

#[test]
fn preserved_channels_have_no_numbers() {
    let mut table = GlobalChannelTable::new_shadowkeep();
    let before = table.globals;
    table.set_global_channel_by_id(0, bits(Vec4::splat(3.0)));
    assert_eq!(table.globals, before);
    assert_eq!(table.globals[37], bits(Vec4::X * 50.0));
}
