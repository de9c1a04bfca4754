//! Textures in DDS files.

use vstd::prelude::*;

use crate::text::same_text;
use crate::texture::{flat_levels, flat_subresources, Pitch, Subresource};

verus! {

pub const DXGI_R32G32B32A32_FLOAT: u32 = 2;

pub const DXGI_R16G16B16A16_FLOAT: u32 = 10;

pub const DXGI_R16G16B16A16_UNORM: u32 = 11;

pub const DXGI_R16G16B16A16_SNORM: u32 = 13;

pub const DXGI_R32G32_FLOAT: u32 = 16;

pub const DXGI_R10G10B10A2_UNORM: u32 = 24;

pub const DXGI_R8G8B8A8_UNORM: u32 = 28;

pub const DXGI_R16G16_FLOAT: u32 = 34;

pub const DXGI_R16G16_UNORM: u32 = 35;

pub const DXGI_R32_FLOAT: u32 = 41;

pub const DXGI_R8G8_UNORM: u32 = 49;

pub const DXGI_R16_FLOAT: u32 = 54;

pub const DXGI_R16_UNORM: u32 = 56;

pub const DXGI_R8_UNORM: u32 = 61;

pub const DXGI_A8_UNORM: u32 = 65;

pub const DXGI_R8G8_B8G8_UNORM: u32 = 68;

pub const DXGI_G8R8_G8B8_UNORM: u32 = 69;

pub const DXGI_BC1_UNORM: u32 = 71;

pub const DXGI_BC2_UNORM: u32 = 74;

pub const DXGI_BC3_UNORM: u32 = 77;

pub const DXGI_B5G6R5_UNORM: u32 = 85;

pub const DXGI_B5G5R5A1_UNORM: u32 = 86;

pub const DXGI_B8G8R8A8_UNORM: u32 = 87;

pub const DXGI_B8G8R8X8_UNORM: u32 = 88;

pub const DXGI_YUY2: u32 = 107;

pub const DXGI_B4G4R4A4_UNORM: u32 = 115;

/// What a DDS file holds: its format by DXGI number or by Direct3D 9 name, its measures, and
/// the pixel data behind the headers.
#[derive(Debug)]
pub struct DdsImage {
    pub dxgi_format: Option<u32>,
    pub d3d_format: Option<String>,
    pub width: u32,
    pub height: u32,
    pub depth: u32,
    pub mip_levels: u32,
    pub array_layers: u32,
    pub data: Vec<u8>,
}

pub struct DdsImageView {
    pub dxgi_format: Option<u32>,
    pub d3d_format: Option<Seq<char>>,
    pub width: u32,
    pub height: u32,
    pub depth: u32,
    pub mip_levels: u32,
    pub array_layers: u32,
    pub data: Seq<u8>,
}

impl View for DdsImage {
    type V = DdsImageView;

    open spec fn view(&self) -> DdsImageView {
        DdsImageView {
            dxgi_format: self.dxgi_format,
            d3d_format: match self.d3d_format {
                None => None,
                Some(name) => Some(name@),
            },
            width: self.width,
            height: self.height,
            depth: self.depth,
            mip_levels: self.mip_levels,
            array_layers: self.array_layers,
            data: self.data@,
        }
    }
}

/// The image that `ddsfile::Dds::read` finds in a file, if it accepts the file.
pub uninterp spec fn dds_image(bytes: Seq<u8>) -> Option<DdsImageView>;

/// Calls `ddsfile::Dds::read` on the bytes of a file and takes the fields of the image through
/// its getters. Reading is a function of the bytes: it yields the one image named for them, or,
/// where there is none, the text of the `ddsfile::Error`, of whose wording nothing is claimed.
#[verifier::external_body]
fn read_dds(bytes: &[u8]) -> (result: Result<DdsImage, String>)
    ensures
        match result {
            Ok(image) => dds_image(bytes@) == Some(image@),
            Err(_) => dds_image(bytes@) is None,
        },
{
    let dds = ddsfile::Dds::read(bytes).map_err(|error| error.to_string())?;
    Ok(DdsImage {
        dxgi_format: dds.get_dxgi_format().map(|format| format as u32),
        d3d_format: dds.get_d3d_format().map(|format| format!("{:?}", format)),
        width: dds.get_width(),
        height: dds.get_height(),
        depth: dds.get_depth(),
        mip_levels: dds.get_num_mipmap_levels(),
        array_layers: dds.get_num_array_layers(),
        data: dds.data,
    })
}

/// The DXGI format that stands for a Direct3D 9 format.
pub open spec fn dxgi_of_d3d(name: Seq<char>) -> Option<u32> {
    if name == "A8B8G8R8"@ {
        Some(DXGI_R8G8B8A8_UNORM)
    } else if name == "G16R16"@ {
        Some(DXGI_R16G16_UNORM)
    } else if name == "A2B10G10R10"@ {
        Some(DXGI_R10G10B10A2_UNORM)
    } else if name == "A1R5G5B5"@ {
        Some(DXGI_B5G5R5A1_UNORM)
    } else if name == "R5G6B5"@ {
        Some(DXGI_B5G6R5_UNORM)
    } else if name == "A8"@ {
        Some(DXGI_A8_UNORM)
    } else if name == "A8R8G8B8"@ {
        Some(DXGI_B8G8R8A8_UNORM)
    } else if name == "X8R8G8B8"@ {
        Some(DXGI_B8G8R8X8_UNORM)
    } else if name == "A2R10G10B10"@ {
        Some(DXGI_R10G10B10A2_UNORM)
    } else if name == "A4R4G4B4"@ {
        Some(DXGI_B4G4R4A4_UNORM)
    } else if name == "A8L8"@ {
        Some(DXGI_R8G8_UNORM)
    } else if name == "L16"@ {
        Some(DXGI_R16_UNORM)
    } else if name == "L8"@ {
        Some(DXGI_R8_UNORM)
    } else if name == "DXT1"@ {
        Some(DXGI_BC1_UNORM)
    } else if name == "DXT3"@ {
        Some(DXGI_BC2_UNORM)
    } else if name == "DXT5"@ {
        Some(DXGI_BC3_UNORM)
    } else if name == "R8G8_B8G8"@ {
        Some(DXGI_G8R8_G8B8_UNORM)
    } else if name == "G8R8_G8B8"@ {
        Some(DXGI_R8G8_B8G8_UNORM)
    } else if name == "A16B16G16R16"@ {
        Some(DXGI_R16G16B16A16_UNORM)
    } else if name == "Q16W16V16U16"@ {
        Some(DXGI_R16G16B16A16_SNORM)
    } else if name == "R16F"@ {
        Some(DXGI_R16_FLOAT)
    } else if name == "G16R16F"@ {
        Some(DXGI_R16G16_FLOAT)
    } else if name == "A16B16G16R16F"@ {
        Some(DXGI_R16G16B16A16_FLOAT)
    } else if name == "R32F"@ {
        Some(DXGI_R32_FLOAT)
    } else if name == "G32R32F"@ {
        Some(DXGI_R32G32_FLOAT)
    } else if name == "A32B32G32R32F"@ {
        Some(DXGI_R32G32B32A32_FLOAT)
    } else if name == "DXT2"@ {
        Some(DXGI_BC2_UNORM)
    } else if name == "DXT4"@ {
        Some(DXGI_BC3_UNORM)
    } else if name == "YUY2"@ {
        Some(DXGI_YUY2)
    } else {
        None
    }
}

/// The DXGI format of an image: its own where it names one, else that of its Direct3D 9 format.
pub open spec fn image_format(image: DdsImageView) -> Option<u32> {
    match image.dxgi_format {
        Some(number) => Some(number),
        None => match image.d3d_format {
            Some(name) => dxgi_of_d3d(name),
            None => None,
        },
    }
}

fn dxgi_from_d3d(name: &str) -> (format: Option<u32>)
    ensures
        format == dxgi_of_d3d(name@),
{
    if same_text(name, "A8B8G8R8") {
        Some(DXGI_R8G8B8A8_UNORM)
    } else if same_text(name, "G16R16") {
        Some(DXGI_R16G16_UNORM)
    } else if same_text(name, "A2B10G10R10") {
        Some(DXGI_R10G10B10A2_UNORM)
    } else if same_text(name, "A1R5G5B5") {
        Some(DXGI_B5G5R5A1_UNORM)
    } else if same_text(name, "R5G6B5") {
        Some(DXGI_B5G6R5_UNORM)
    } else if same_text(name, "A8") {
        Some(DXGI_A8_UNORM)
    } else if same_text(name, "A8R8G8B8") {
        Some(DXGI_B8G8R8A8_UNORM)
    } else if same_text(name, "X8R8G8B8") {
        Some(DXGI_B8G8R8X8_UNORM)
    } else if same_text(name, "A2R10G10B10") {
        Some(DXGI_R10G10B10A2_UNORM)
    } else if same_text(name, "A4R4G4B4") {
        Some(DXGI_B4G4R4A4_UNORM)
    } else if same_text(name, "A8L8") {
        Some(DXGI_R8G8_UNORM)
    } else if same_text(name, "L16") {
        Some(DXGI_R16_UNORM)
    } else if same_text(name, "L8") {
        Some(DXGI_R8_UNORM)
    } else if same_text(name, "DXT1") {
        Some(DXGI_BC1_UNORM)
    } else if same_text(name, "DXT3") {
        Some(DXGI_BC2_UNORM)
    } else if same_text(name, "DXT5") {
        Some(DXGI_BC3_UNORM)
    } else if same_text(name, "R8G8_B8G8") {
        Some(DXGI_G8R8_G8B8_UNORM)
    } else if same_text(name, "G8R8_G8B8") {
        Some(DXGI_R8G8_B8G8_UNORM)
    } else if same_text(name, "A16B16G16R16") {
        Some(DXGI_R16G16B16A16_UNORM)
    } else if same_text(name, "Q16W16V16U16") {
        Some(DXGI_R16G16B16A16_SNORM)
    } else if same_text(name, "R16F") {
        Some(DXGI_R16_FLOAT)
    } else if same_text(name, "G16R16F") {
        Some(DXGI_R16G16_FLOAT)
    } else if same_text(name, "A16B16G16R16F") {
        Some(DXGI_R16G16B16A16_FLOAT)
    } else if same_text(name, "R32F") {
        Some(DXGI_R32_FLOAT)
    } else if same_text(name, "G32R32F") {
        Some(DXGI_R32G32_FLOAT)
    } else if same_text(name, "A32B32G32R32F") {
        Some(DXGI_R32G32B32A32_FLOAT)
    } else if same_text(name, "DXT2") {
        Some(DXGI_BC2_UNORM)
    } else if same_text(name, "DXT4") {
        Some(DXGI_BC3_UNORM)
    } else if same_text(name, "YUY2") {
        Some(DXGI_YUY2)
    } else {
        None
    }
}

/// Finds the DXGI number of an image's format.
pub fn convert_dds_texture_format(image: &DdsImage) -> (format: Option<u32>)
    ensures
        format == image_format(image@),
{
    match image.dxgi_format {
        Some(number) => Some(number),
        None => match &image.d3d_format {
            Some(name) => dxgi_from_d3d(name.as_str()),
            None => None,
        },
    }
}

/// Why a DDS file is refused.
#[derive(Debug)]
pub enum DdsFailure {
    Unreadable(String),
    InvalidFormat,
}

/// Reads a DDS file and finds its format.
pub fn open_dds(bytes: &[u8]) -> (result: Result<(DdsImage, u32), DdsFailure>)
    ensures
        match dds_image(bytes@) {
            None => result is Err && result->Err_0 is Unreadable,
            Some(image) => match image_format(image) {
                None => result == Err::<(DdsImage, u32), DdsFailure>(DdsFailure::InvalidFormat),
                Some(format) => result is Ok && result->Ok_0.0@ == image && result->Ok_0.1
                    == format,
            },
        },
{
    match read_dds(bytes) {
        Err(message) => Err(DdsFailure::Unreadable(message)),
        Ok(image) => match convert_dds_texture_format(&image) {
            None => Err(DdsFailure::InvalidFormat),
            Some(format) => Ok((image, format)),
        },
    }
}

/// A texture to create from a DDS file.
#[derive(Debug)]
pub struct DdsPlan {
    pub width: u32,
    pub height: u32,
    pub depth: u32,
    pub mip_levels: u32,
    pub array_layers: u32,
    pub subresources: Vec<Subresource>,
}

/// Plans a flat texture: its mips lie one after the other in the pixel data. `pitches` holds
/// the pitches of the halved sides.
pub fn plan_2d_dds(image: &DdsImage, pitches: &[Pitch]) -> (plan: DdsPlan)
    requires
        image.mip_levels <= 32,
        pitches@.len() >= image.mip_levels,
    ensures
        plan.width == image.width,
        plan.height == image.height,
        plan.depth == 1,
        plan.mip_levels == image.mip_levels,
        plan.array_layers == image.array_layers,
        plan.subresources@ == flat_subresources(pitches@, image.mip_levels as nat),
{
    DdsPlan {
        width: image.width,
        height: image.height,
        depth: 1,
        mip_levels: image.mip_levels,
        array_layers: image.array_layers,
        subresources: flat_levels(pitches, image.mip_levels as u8),
    }
}

/// Plans a volume from its first mip alone.
pub fn plan_3d_dds(image: &DdsImage, pitch: Pitch) -> (plan: DdsPlan)
    ensures
        plan.width == image.width,
        plan.height == image.height,
        plan.depth == image.depth,
        plan.mip_levels == image.mip_levels,
        plan.array_layers == 1,
        plan.subresources@ == seq![
            Subresource { offset: 0, pitch: pitch.row, slice_pitch: pitch.slice },
        ],
{
    let mut subresources: Vec<Subresource> = Vec::new();
    subresources.push(Subresource { offset: 0, pitch: pitch.row, slice_pitch: pitch.slice });
    assert(subresources@ =~= seq![
        Subresource { offset: 0, pitch: pitch.row, slice_pitch: pitch.slice },
    ]);
    DdsPlan {
        width: image.width,
        height: image.height,
        depth: image.depth,
        mip_levels: image.mip_levels,
        array_layers: 1,
        subresources,
    }
}

/// An image without a number of its own goes by the number that its older name stands for.
#[verifier::spinoff_prover]
#[verifier::rlimit(100)]
pub proof fn law_older_names_stand_for_numbers()
    ensures
        dxgi_of_d3d("A8B8G8R8"@) == Some(28u32),
        dxgi_of_d3d("G16R16"@) == Some(35u32),
        dxgi_of_d3d("A2B10G10R10"@) == Some(24u32),
        dxgi_of_d3d("A1R5G5B5"@) == Some(86u32),
        dxgi_of_d3d("R5G6B5"@) == Some(85u32),
        dxgi_of_d3d("A8"@) == Some(65u32),
        dxgi_of_d3d("A8R8G8B8"@) == Some(87u32),
        dxgi_of_d3d("X8R8G8B8"@) == Some(88u32),
        dxgi_of_d3d("A2R10G10B10"@) == Some(24u32),
        dxgi_of_d3d("A4R4G4B4"@) == Some(115u32),
        dxgi_of_d3d("A8L8"@) == Some(49u32),
        dxgi_of_d3d("L16"@) == Some(56u32),
        dxgi_of_d3d("L8"@) == Some(61u32),
        dxgi_of_d3d("DXT1"@) == Some(71u32),
        dxgi_of_d3d("DXT3"@) == Some(74u32),
        dxgi_of_d3d("DXT5"@) == Some(77u32),
        dxgi_of_d3d("R8G8_B8G8"@) == Some(69u32),
        dxgi_of_d3d("G8R8_G8B8"@) == Some(68u32),
        dxgi_of_d3d("A16B16G16R16"@) == Some(11u32),
        dxgi_of_d3d("Q16W16V16U16"@) == Some(13u32),
        dxgi_of_d3d("R16F"@) == Some(54u32),
        dxgi_of_d3d("G16R16F"@) == Some(34u32),
        dxgi_of_d3d("A16B16G16R16F"@) == Some(10u32),
        dxgi_of_d3d("R32F"@) == Some(41u32),
        dxgi_of_d3d("G32R32F"@) == Some(16u32),
        dxgi_of_d3d("A32B32G32R32F"@) == Some(2u32),
        dxgi_of_d3d("DXT2"@) == Some(74u32),
        dxgi_of_d3d("DXT4"@) == Some(77u32),
        dxgi_of_d3d("YUY2"@) == Some(107u32),
{
    reveal_strlit("A8B8G8R8");
    reveal_strlit("G16R16");
    reveal_strlit("A2B10G10R10");
    reveal_strlit("A1R5G5B5");
    reveal_strlit("R5G6B5");
    reveal_strlit("A8");
    reveal_strlit("A8R8G8B8");
    reveal_strlit("X8R8G8B8");
    reveal_strlit("A2R10G10B10");
    reveal_strlit("A4R4G4B4");
    reveal_strlit("A8L8");
    reveal_strlit("L16");
    reveal_strlit("L8");
    reveal_strlit("DXT1");
    reveal_strlit("DXT3");
    reveal_strlit("DXT5");
    reveal_strlit("R8G8_B8G8");
    reveal_strlit("G8R8_G8B8");
    reveal_strlit("A16B16G16R16");
    reveal_strlit("Q16W16V16U16");
    reveal_strlit("R16F");
    reveal_strlit("G16R16F");
    reveal_strlit("A16B16G16R16F");
    reveal_strlit("R32F");
    reveal_strlit("G32R32F");
    reveal_strlit("A32B32G32R32F");
    reveal_strlit("DXT2");
    reveal_strlit("DXT4");
    reveal_strlit("YUY2");
    assert("A8B8G8R8"@.len() == 8);
    assert("G16R16"@.len() == 6);
    assert("A2B10G10R10"@.len() == 11);
    assert("A1R5G5B5"@.len() == 8);
    assert("R5G6B5"@.len() == 6);
    assert("A8"@.len() == 2);
    assert("A8R8G8B8"@.len() == 8);
    assert("X8R8G8B8"@.len() == 8);
    assert("A2R10G10B10"@.len() == 11);
    assert("A4R4G4B4"@.len() == 8);
    assert("A8L8"@.len() == 4);
    assert("L16"@.len() == 3);
    assert("L8"@.len() == 2);
    assert("DXT1"@.len() == 4);
    assert("DXT3"@.len() == 4);
    assert("DXT5"@.len() == 4);
    assert("R8G8_B8G8"@.len() == 9);
    assert("G8R8_G8B8"@.len() == 9);
    assert("A16B16G16R16"@.len() == 12);
    assert("Q16W16V16U16"@.len() == 12);
    assert("R16F"@.len() == 4);
    assert("G16R16F"@.len() == 7);
    assert("A16B16G16R16F"@.len() == 13);
    assert("R32F"@.len() == 4);
    assert("G32R32F"@.len() == 7);
    assert("A32B32G32R32F"@.len() == 13);
    assert("DXT2"@.len() == 4);
    assert("DXT4"@.len() == 4);
    assert("YUY2"@.len() == 4);
    assert("A1R5G5B5"@[1] == '1');
    assert("A8B8G8R8"@[1] == '8');
    assert("A8R8G8B8"@[2] == 'R');
    assert("A8B8G8R8"@[2] == 'B');
    assert("A8R8G8B8"@[1] == '8');
    assert("X8R8G8B8"@[0] == 'X');
    assert("A8B8G8R8"@[0] == 'A');
    assert("A1R5G5B5"@[0] == 'A');
    assert("A8R8G8B8"@[0] == 'A');
    assert("A4R4G4B4"@[1] == '4');
    assert("A4R4G4B4"@[0] == 'A');
    assert("R5G6B5"@[0] == 'R');
    assert("G16R16"@[0] == 'G');
    assert("A2R10G10B10"@[2] == 'R');
    assert("A2B10G10R10"@[2] == 'B');
    assert("L8"@[0] == 'L');
    assert("A8"@[0] == 'A');
    assert("DXT1"@[0] == 'D');
    assert("A8L8"@[0] == 'A');
    assert("DXT3"@[0] == 'D');
    assert("DXT3"@[3] == '3');
    assert("DXT1"@[3] == '1');
    assert("DXT5"@[0] == 'D');
    assert("DXT5"@[3] == '5');
    assert("R16F"@[0] == 'R');
    assert("R32F"@[0] == 'R');
    assert("R32F"@[1] == '3');
    assert("R16F"@[1] == '1');
    assert("DXT2"@[0] == 'D');
    assert("DXT2"@[3] == '2');
    assert("DXT4"@[0] == 'D');
    assert("DXT4"@[3] == '4');
    assert("YUY2"@[0] == 'Y');
    assert("G8R8_G8B8"@[0] == 'G');
    assert("R8G8_B8G8"@[0] == 'R');
    assert("Q16W16V16U16"@[0] == 'Q');
    assert("A16B16G16R16"@[0] == 'A');
    assert("G32R32F"@[1] == '3');
    assert("G16R16F"@[1] == '1');
    assert("A32B32G32R32F"@[1] == '3');
    assert("A16B16G16R16F"@[1] == '1');
}

} // verus!
