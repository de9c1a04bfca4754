use alkahest_shadowkeep::dds::{
    convert_dds_texture_format, open_dds, plan_2d_dds, plan_3d_dds, DdsFailure, DdsImage,
};
use alkahest_shadowkeep::texture::{
    check_sampler, mip_side, payload_tags, plan_upload, upload_requirement, Pitch,
    SShadowkeepTextureHeader, Subresource, TextureDimension, TextureInfo, TexturePlan,
};

const R8G8B8A8_UNORM: u32 = 28;
const NO_TAG: u32 = 0xffff_ffff;

fn info(width: u16, height: u16, depth: u16, array_size: u16, mip_count: u8) -> TextureInfo {
    TextureInfo {
        format: R8G8B8A8_UNORM,
        width,
        height,
        depth,
        array_size,
        mip_count,
        large_buffer: NO_TAG,
    }
}

fn pitches(texture: TextureInfo) -> Vec<Pitch> {
    (0..16u16)
        .map(|mip| {
            let width = mip_side(texture.width, mip) as u32;
            let height = mip_side(texture.height, mip) as u32;
            Pitch {
                row: width * 4,
                slice: width * height * 4,
            }
        })
        .collect()
}

fn halved(texture: TextureInfo) -> Vec<Pitch> {
    (0..16u16)
        .map(|mip| {
            let width = (texture.width >> mip) as u32;
            let height = (texture.height >> mip) as u32;
            Pitch {
                row: width * 4,
                slice: width * height * 4,
            }
        })
        .collect()
}

#[test]
fn header_keeps_the_preserved_shadowkeep_size() {
    assert_eq!(std::mem::size_of::<SShadowkeepTextureHeader>(), 0x28);
}

#[test]
fn headers_become_upload_descriptions() {
    let header = SShadowkeepTextureHeader {
        data_size: 1,
        format: R8G8B8A8_UNORM,
        unk8: 2,
        cafe: 0xcafe,
        width: 8,
        height: 4,
        depth: 1,
        array_size: 6,
        unk16: 0,
        mip_count: 3,
        unk18: [0; 12],
        large_buffer: 0x8080_0011,
    };
    let described = TextureInfo::from(header);
    assert_eq!((described.width, described.height), (8, 4));
    assert_eq!(described.array_size, 6);
    assert_eq!(described.large_buffer, 0x8080_0011);
}

#[test]
fn shadowkeep_upload_classifies_2d_cube_and_3d() {
    let flat = info(8, 8, 1, 1, 4);
    let cube = info(8, 8, 1, 6, 4);
    let volume = info(8, 8, 4, 1, 4);
    assert_eq!(
        upload_requirement(flat, &pitches(flat)).unwrap().dimension,
        TextureDimension::Texture2D
    );
    assert_eq!(
        upload_requirement(cube, &pitches(cube)).unwrap().dimension,
        TextureDimension::TextureCube
    );
    assert_eq!(
        upload_requirement(volume, &pitches(volume)).unwrap().dimension,
        TextureDimension::Texture3D
    );
}

#[test]
fn package_local_2d_uses_only_the_resident_mip() {
    let texture = info(8, 8, 1, 1, 4);
    let requirement = upload_requirement(texture, &pitches(texture)).unwrap();
    assert_eq!(requirement.mip_count, 1);
    assert_eq!(requirement.required_bytes, 8 * 8 * 4);
}

#[test]
fn cube_upload_accounts_for_every_face_and_mip() {
    let texture = info(4, 4, 1, 6, 3);
    let requirement = upload_requirement(texture, &pitches(texture)).unwrap();
    assert_eq!(requirement.subresources, 18);
    assert_eq!(requirement.required_bytes, (4 * 4 + 2 * 2 + 1) * 4 * 6);
}

#[test]
fn impossible_uploads_are_refused() {
    let pitch = [Pitch { row: 1, slice: 1 }];
    assert_eq!(
        upload_requirement(info(0, 8, 1, 1, 1), &pitch).unwrap_err().message,
        "texture has zero dimensions"
    );
    assert_eq!(
        upload_requirement(info(8, 8, 1, 1, 0), &pitch).unwrap_err().message,
        "texture has zero mips"
    );
    assert_eq!(
        upload_requirement(info(8, 8, 1, 1, 1), &[Pitch { row: 1, slice: 0 }])
            .unwrap_err()
            .message,
        "texture mip 0 has zero slice pitch"
    );
}

#[test]
fn a_short_payload_is_refused() {
    let texture = info(4, 4, 1, 6, 3);
    let refused = plan_upload("80800011", texture, &pitches(texture), &halved(texture), 503, false);
    assert_eq!(
        refused.unwrap_err().message,
        "Texture 80800011 TextureCube upload requires 504 bytes for 18 subresources but package data contains 503"
    );
    let invalid = plan_upload("80800011", info(8, 8, 1, 1, 0), &pitches(texture), &halved(texture), 9, false);
    assert_eq!(
        invalid.unwrap_err().message,
        "Texture 80800011 has an invalid upload layout: texture has zero mips"
    );
}

#[test]
fn cube_faces_follow_each_other_within_a_mip() {
    let texture = info(4, 4, 1, 2, 2);
    match plan_upload("t", texture, &pitches(texture), &halved(texture), 160, false).unwrap() {
        TexturePlan::TextureCube {
            mip_levels,
            array_size,
            subresources,
            ..
        } => {
            assert_eq!((mip_levels, array_size), (2, 2));
            let offsets: Vec<u64> = subresources.iter().map(|part| part.offset).collect();
            assert_eq!(offsets, vec![0, 128, 64, 144]);
            assert_eq!(subresources[1].pitch, 8);
        }
        other => panic!("unexpected plan {:?}", other),
    }
}

#[test]
fn volumes_upload_one_mip_whole() {
    let texture = info(4, 4, 3, 1, 2);
    match plan_upload("t", texture, &pitches(texture), &halved(texture), 192, false).unwrap() {
        TexturePlan::Texture3D {
            depth, subresource, ..
        } => {
            assert_eq!(depth, 3);
            assert_eq!(
                subresource,
                Subresource {
                    offset: 0,
                    pitch: 16,
                    slice_pitch: 64
                }
            );
        }
        other => panic!("unexpected plan {:?}", other),
    }
}

#[test]
fn low_resolution_keeps_the_small_mips() {
    let mut texture = info(32, 32, 1, 1, 6);
    texture.large_buffer = 0x8080_0011;
    let needed = upload_requirement(texture, &pitches(texture)).unwrap();
    assert_eq!(needed.mip_count, 6);
    match plan_upload("t", texture, &pitches(texture), &halved(texture), needed.required_bytes, false).unwrap() {
        TexturePlan::Texture2D {
            width, subresources, ..
        } => {
            assert_eq!(width, 32);
            assert_eq!(subresources.len(), 6);
            assert_eq!(subresources[2].offset, (32 * 32 + 16 * 16) * 4);
        }
        other => panic!("unexpected plan {:?}", other),
    }
    match plan_upload("t", texture, &pitches(texture), &halved(texture), needed.required_bytes, true).unwrap() {
        TexturePlan::Texture2D {
            width,
            height,
            subresources,
        } => {
            assert_eq!((width, height), (8, 8));
            assert_eq!(subresources.len(), 4);
            assert_eq!(subresources[0].pitch, 32);
        }
        other => panic!("unexpected plan {:?}", other),
    }
}

#[test]
fn mips_without_a_row_end_the_upload() {
    let mut texture = info(4, 1, 1, 1, 4);
    texture.large_buffer = 0x8080_0011;
    let rows = [
        Pitch { row: 16, slice: 16 },
        Pitch { row: 8, slice: 8 },
        Pitch { row: 0, slice: 0 },
        Pitch { row: 4, slice: 4 },
    ];
    match plan_upload("t", texture, &pitches(texture), &rows, 1000, false).unwrap() {
        TexturePlan::Texture2D { subresources, .. } => assert_eq!(subresources.len(), 2),
        other => panic!("unexpected plan {:?}", other),
    }
}

#[test]
fn payloads_join_the_large_buffer_and_the_resident_mips() {
    assert_eq!(payload_tags(0x8080_0011, 0x8080_0022, true), vec![0x8080_0011, 0x8080_0022]);
    assert_eq!(payload_tags(0x8080_0011, 0x8080_0022, false), vec![0x8080_0011]);
    assert_eq!(payload_tags(NO_TAG, 0x8080_0022, true), vec![0x8080_0022]);
    assert_eq!(payload_tags(0x8080_0000, 0x8080_0022, true), vec![0x8080_0022]);
    assert_eq!(payload_tags(0x81ff_ffff, 0x8080_0022, false), vec![0x81ff_ffff]);
    assert_eq!(payload_tags(0x8200_0000, 0x8080_0022, false), vec![0x8080_0022]);
}

#[test]
fn samplers_have_their_own_entry_type() {
    assert!(check_sampler(34, 1, 52, 52).is_ok());
    assert_eq!(
        check_sampler(34, 2, 52, 52).unwrap_err().message,
        "Sampler header type mismatch"
    );
    assert_eq!(
        check_sampler(34, 1, 51, 52).unwrap_err().message,
        "Sampler data size mismatch"
    );
}

fn dds_file(format: ddsfile::D3DFormat, mips: u32) -> Vec<u8> {
    let mut dds = ddsfile::Dds::new_d3d(ddsfile::NewD3dParams {
        height: 4,
        width: 8,
        depth: None,
        format,
        mipmap_levels: Some(mips),
        caps2: None,
    })
    .unwrap();
    dds.data[0] = 77;
    let mut bytes = Vec::new();
    dds.write(&mut bytes).unwrap();
    bytes
}

#[test]
fn dds_files_give_their_measures_and_format() {
    let (image, format) = open_dds(&dds_file(ddsfile::D3DFormat::A8R8G8B8, 2)).unwrap();
    assert_eq!((image.width, image.height, image.depth), (8, 4, 1));
    assert_eq!((image.mip_levels, image.array_layers), (2, 1));
    assert_eq!(image.data[0], 77);
    assert_eq!(format, 87);
    let (_, format) = open_dds(&dds_file(ddsfile::D3DFormat::DXT5, 1)).unwrap();
    assert_eq!(format, 78);
}

#[test]
fn dds_formats_without_a_counterpart_are_refused() {
    assert!(matches!(
        open_dds(&dds_file(ddsfile::D3DFormat::R8G8B8, 1)),
        Err(DdsFailure::InvalidFormat)
    ));
    assert!(matches!(
        open_dds(b"not a file"),
        Err(DdsFailure::Unreadable(_))
    ));
}

fn image(dxgi_format: Option<u32>, d3d_format: Option<&str>) -> DdsImage {
    DdsImage {
        dxgi_format,
        d3d_format: d3d_format.map(|name| name.to_string()),
        width: 8,
        height: 4,
        depth: 2,
        mip_levels: 2,
        array_layers: 1,
        data: vec![],
    }
}

#[test]
fn dxgi_formats_win_over_older_names() {
    assert_eq!(
        convert_dds_texture_format(&image(Some(98), Some("DXT1"))),
        Some(98)
    );
    assert_eq!(convert_dds_texture_format(&image(None, Some("DXT1"))), Some(71));
    assert_eq!(
        convert_dds_texture_format(&image(None, Some("R8G8_B8G8"))),
        Some(69)
    );
    assert_eq!(convert_dds_texture_format(&image(None, Some("UYVY"))), None);
    assert_eq!(convert_dds_texture_format(&image(None, None)), None);
}

#[test]
fn dds_mips_follow_each_other() {
    let rows = [
        Pitch { row: 32, slice: 128 },
        Pitch { row: 16, slice: 32 },
    ];
    let flat = plan_2d_dds(&image(None, None), &rows);
    assert_eq!(flat.subresources[1].offset, 128);
    assert_eq!((flat.depth, flat.mip_levels), (1, 2));
    let volume = plan_3d_dds(&image(None, None), rows[0]);
    assert_eq!(volume.depth, 2);
    assert_eq!(
        volume.subresources,
        vec![Subresource {
            offset: 0,
            pitch: 32,
            slice_pitch: 128
        }]
    );
}
