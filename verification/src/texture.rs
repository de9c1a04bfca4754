//! Texture uploads: how many bytes a header asks for, and where in the payload each
//! subresource begins.

use vstd::arithmetic::power2::pow2;
use vstd::prelude::*;

use crate::tag::is_tag;
use crate::text::{decimal, decimal_text, outcome, Error};

verus! {

/// The stored texture header: tags and the format by their numbers.
#[derive(Clone, Copy, Debug)]
pub struct SShadowkeepTextureHeader {
    pub data_size: u32,
    pub format: u32,
    pub unk8: u32,
    pub cafe: u16,
    pub width: u16,
    pub height: u16,
    pub depth: u16,
    pub array_size: u16,
    pub unk16: u8,
    pub mip_count: u8,
    pub unk18: [u8; 12],
    pub large_buffer: u32,
}

/// What an upload needs to know of a texture.
#[derive(Clone, Copy, Debug, PartialEq, Eq, Structural)]
pub struct TextureInfo {
    pub format: u32,
    pub width: u16,
    pub height: u16,
    pub depth: u16,
    pub array_size: u16,
    pub mip_count: u8,
    pub large_buffer: u32,
}

impl vstd::std_specs::convert::FromSpecImpl<SShadowkeepTextureHeader> for TextureInfo {
    open spec fn obeys_from_spec() -> bool {
        true
    }

    open spec fn from_spec(header: SShadowkeepTextureHeader) -> TextureInfo {
        TextureInfo {
            format: header.format,
            width: header.width,
            height: header.height,
            depth: header.depth,
            array_size: header.array_size,
            mip_count: header.mip_count,
            large_buffer: header.large_buffer,
        }
    }
}

impl From<SShadowkeepTextureHeader> for TextureInfo {
    fn from(header: SShadowkeepTextureHeader) -> (info: TextureInfo) {
        TextureInfo {
            format: header.format,
            width: header.width,
            height: header.height,
            depth: header.depth,
            array_size: header.array_size,
            mip_count: header.mip_count,
            large_buffer: header.large_buffer,
        }
    }
}

#[derive(Clone, Copy, Debug, PartialEq, Eq, Structural)]
pub enum TextureDimension {
    Texture2D,
    TextureCube,
    Texture3D,
}

/// The bytes of one row and of one whole surface of a mip in some pixel format.
#[derive(Clone, Copy, Debug, PartialEq, Eq, Structural)]
pub struct Pitch {
    pub row: u32,
    pub slice: u32,
}

#[derive(Clone, Copy, Debug, PartialEq, Eq, Structural)]
pub struct TextureUploadRequirement {
    pub dimension: TextureDimension,
    pub mip_count: u8,
    pub subresources: usize,
    pub required_bytes: usize,
}

impl View for TextureUploadRequirement {
    type V = TextureUploadRequirement;

    open spec fn view(&self) -> TextureUploadRequirement {
        *self
    }
}

impl TextureDimension {
    pub open spec fn label(self) -> Seq<char> {
        match self {
            TextureDimension::Texture2D => "Texture2D"@,
            TextureDimension::TextureCube => "TextureCube"@,
            TextureDimension::Texture3D => "Texture3D"@,
        }
    }

    pub fn name(self) -> (name: &'static str)
        ensures
            name@ == self.label(),
    {
        match self {
            TextureDimension::Texture2D => "Texture2D",
            TextureDimension::TextureCube => "TextureCube",
            TextureDimension::Texture3D => "Texture3D",
        }
    }
}

impl TextureInfo {
    /// Depth makes a volume, several layers make a cube, and everything else is flat.
    pub open spec fn dimension(self) -> TextureDimension {
        if self.depth > 1 {
            TextureDimension::Texture3D
        } else if self.array_size > 1 {
            TextureDimension::TextureCube
        } else {
            TextureDimension::Texture2D
        }
    }

    /// A volume uploads one mip, and so does a flat texture without a large buffer.
    pub open spec fn uploaded_mips(self) -> u8 {
        match self.dimension() {
            TextureDimension::Texture3D => 1,
            TextureDimension::TextureCube => self.mip_count,
            TextureDimension::Texture2D => if is_tag(self.large_buffer) {
                self.mip_count
            } else {
                1
            },
        }
    }

    pub open spec fn layers(self) -> nat {
        if self.dimension() == TextureDimension::TextureCube {
            self.array_size as nat
        } else {
            1
        }
    }

    /// How often the slice of a mip is stored: once per depth step and once per layer.
    pub open spec fn slices(self) -> nat {
        if self.dimension() == TextureDimension::Texture3D {
            self.depth as nat
        } else {
            self.layers()
        }
    }

    pub fn classify(self) -> (dimension: TextureDimension)
        ensures
            dimension == self.dimension(),
    {
        if self.depth > 1 {
            TextureDimension::Texture3D
        } else if self.array_size > 1 {
            TextureDimension::TextureCube
        } else {
            TextureDimension::Texture2D
        }
    }

    pub fn resident_mips(self) -> (mips: u8)
        ensures
            mips == self.uploaded_mips(),
    {
        match self.classify() {
            TextureDimension::Texture3D => 1,
            TextureDimension::TextureCube => self.mip_count,
            TextureDimension::Texture2D => if crate::tag::tag_is_some(self.large_buffer) {
                self.mip_count
            } else {
                1
            },
        }
    }
}

/// One side of a mip, at least one texel long.
pub open spec fn clamped_side(side: u16, mip: u16) -> u16 {
    if side >> mip == 0 {
        1
    } else {
        side >> mip
    }
}

/// The side of the mip that `upload_requirement` measures.
pub fn mip_side(side: u16, mip: u16) -> (result: u16)
    requires
        mip < 16,
    ensures
        result == clamped_side(side, mip),
{
    let shifted: u16 = side >> mip;
    if shifted == 0 {
        1
    } else {
        shifted
    }
}

/// The bytes of a mip over all its slices.
pub open spec fn stored_bytes(texture: TextureInfo, pitch: Pitch) -> nat {
    pitch.slice as nat * texture.slices()
}

/// The bytes stored for the mips from `mip` on, after `total` bytes of earlier mips; or why
/// they cannot be counted.
pub open spec fn mip_bytes(
    texture: TextureInfo,
    pitches: Seq<Pitch>,
    mip: nat,
    total: nat,
) -> Result<nat, Seq<char>>
    decreases texture.uploaded_mips() - mip,
{
    if mip >= texture.uploaded_mips() {
        Ok(total)
    } else if pitches[mip as int].slice == 0 {
        Err("texture mip "@ + decimal_text(mip) + " has zero slice pitch"@)
    } else if total + stored_bytes(texture, pitches[mip as int]) > usize::MAX {
        Err("texture upload byte count overflow"@)
    } else {
        mip_bytes(texture, pitches, mip + 1, total + stored_bytes(texture, pitches[mip as int]))
    }
}

/// What an upload of `texture` asks for, with the pitches of its mips.
pub open spec fn requirement(
    texture: TextureInfo,
    pitches: Seq<Pitch>,
) -> Result<TextureUploadRequirement, Seq<char>> {
    if texture.width == 0 || texture.height == 0 {
        Err("texture has zero dimensions"@)
    } else if texture.mip_count == 0 {
        Err("texture has zero mips"@)
    } else {
        match mip_bytes(texture, pitches, 0, 0) {
            Err(message) => Err(message),
            Ok(bytes) => Ok(
                TextureUploadRequirement {
                    dimension: texture.dimension(),
                    mip_count: texture.uploaded_mips(),
                    subresources: (texture.uploaded_mips() * texture.layers()) as usize,
                    required_bytes: bytes as usize,
                },
            ),
        }
    }
}

fn zero_pitch(mip: u8) -> (error: Error)
    ensures
        error@ == "texture mip "@ + decimal_text(mip as nat) + " has zero slice pitch"@,
{
    let mut message = String::from_str("texture mip ");
    let number = decimal(mip as u64);
    message.append(number.as_str());
    message.append(" has zero slice pitch");
    Error { message }
}

/// Counts what an upload of `texture` asks for. `pitches` holds, for each mip, the pitch of
/// a surface with the sides that `mip_side` gives.
pub fn upload_requirement(texture: TextureInfo, pitches: &[Pitch]) -> (result: Result<
    TextureUploadRequirement,
    Error,
>)
    requires
        pitches@.len() >= texture.uploaded_mips(),
    ensures
        outcome(result) == requirement(texture, pitches@),
{
    if texture.width == 0 || texture.height == 0 {
        return Err(Error { message: String::from_str("texture has zero dimensions") });
    }
    if texture.mip_count == 0 {
        return Err(Error { message: String::from_str("texture has zero mips") });
    }
    let dimension = texture.classify();
    let mip_count: u8 = texture.resident_mips();
    let array_size: usize = match dimension {
        TextureDimension::TextureCube => texture.array_size as usize,
        _ => 1,
    };
    let depth: usize = match dimension {
        TextureDimension::Texture3D => texture.depth as usize,
        _ => 1,
    };
    let mut required_bytes: usize = 0;
    let mut mip: u8 = 0;
    while mip < mip_count
        invariant
            mip <= mip_count,
            mip_count == texture.uploaded_mips(),
            pitches@.len() >= mip_count,
            dimension == texture.dimension(),
            array_size == texture.layers(),
            depth == (if dimension == TextureDimension::Texture3D { texture.depth as int } else { 1 }),
            texture.width != 0,
            texture.height != 0,
            texture.mip_count != 0,
            mip_bytes(texture, pitches@, 0, 0) == mip_bytes(
                texture,
                pitches@,
                mip as nat,
                required_bytes as nat,
            ),
        decreases mip_count - mip,
    {
        let slice: u32 = pitches[mip as usize].slice;
        if slice == 0 {
            return Err(zero_pitch(mip));
        }
        assert(depth * array_size == texture.slices()) by (nonlinear_arith)
            requires
                depth == 1 || array_size == 1,
                depth == 1 ==> array_size == texture.slices(),
                array_size == 1 ==> depth == texture.slices(),
        ;
        assert(slice * depth * array_size == slice * texture.slices()) by (nonlinear_arith)
            requires
                depth * array_size == texture.slices(),
        ;
        assert(slice * depth <= slice * depth * array_size) by (nonlinear_arith)
            requires
                array_size >= 1,
        ;
        assert(slice * texture.slices() == stored_bytes(texture, pitches[mip as int]));
        let bytes: usize = match (slice as usize).checked_mul(depth) {
            None => {
                return Err(Error { message: String::from_str("texture upload byte count overflow") });
            },
            Some(volume) => match volume.checked_mul(array_size) {
                None => {
                    return Err(
                        Error { message: String::from_str("texture upload byte count overflow") },
                    );
                },
                Some(bytes) => bytes,
            },
        };
        match required_bytes.checked_add(bytes) {
            None => {
                return Err(Error { message: String::from_str("texture upload byte count overflow") });
            },
            Some(total) => {
                required_bytes = total;
            },
        }
        mip += 1;
    }
    assert(mip_count * array_size <= 255 * 65535) by (nonlinear_arith)
        requires
            mip_count <= 255,
            array_size <= 65535,
    ;
    Ok(
        TextureUploadRequirement {
            dimension,
            mip_count,
            subresources: mip_count as usize * array_size,
            required_bytes,
        },
    )
}

/// Where the data of one subresource begins in the payload, and its pitches.
#[derive(Clone, Copy, Debug, PartialEq, Eq, Structural)]
pub struct Subresource {
    pub offset: u64,
    pub pitch: u32,
    pub slice_pitch: u32,
}

/// A texture to create, with its initial data in subresource order.
#[derive(Debug)]
pub enum TexturePlan {
    Texture3D { width: u16, height: u16, depth: u16, subresource: Subresource },
    TextureCube {
        width: u16,
        height: u16,
        array_size: u16,
        mip_levels: u8,
        subresources: Vec<Subresource>,
    },
    Texture2D { width: u16, height: u16, subresources: Vec<Subresource> },
}

pub enum TexturePlanView {
    Texture3D { width: u16, height: u16, depth: u16, subresource: Subresource },
    TextureCube {
        width: u16,
        height: u16,
        array_size: u16,
        mip_levels: u8,
        subresources: Seq<Subresource>,
    },
    Texture2D { width: u16, height: u16, subresources: Seq<Subresource> },
}

impl View for TexturePlan {
    type V = TexturePlanView;

    open spec fn view(&self) -> TexturePlanView {
        match self {
            TexturePlan::Texture3D { width, height, depth, subresource } => {
                TexturePlanView::Texture3D {
                    width: *width,
                    height: *height,
                    depth: *depth,
                    subresource: *subresource,
                }
            },
            TexturePlan::TextureCube { width, height, array_size, mip_levels, subresources } => {
                TexturePlanView::TextureCube {
                    width: *width,
                    height: *height,
                    array_size: *array_size,
                    mip_levels: *mip_levels,
                    subresources: subresources@,
                }
            },
            TexturePlan::Texture2D { width, height, subresources } => {
                TexturePlanView::Texture2D {
                    width: *width,
                    height: *height,
                    subresources: subresources@,
                }
            },
        }
    }
}

/// The bytes of one slice of each of the first `count` mips.
pub open spec fn bytes_before(pitches: Seq<Pitch>, count: nat) -> nat
    decreases count,
{
    if count == 0 {
        0
    } else {
        bytes_before(pitches, (count - 1) as nat) + pitches[count - 1].slice as nat
    }
}

/// The payload holds every layer of a mip before the next mip.
pub open spec fn cube_subresource(
    pitches: Seq<Pitch>,
    layers: nat,
    mip: nat,
    layer: nat,
) -> Subresource {
    Subresource {
        offset: (bytes_before(pitches, mip) * layers + layer * pitches[mip as int].slice) as u64,
        pitch: pitches[mip as int].row,
        slice_pitch: 0,
    }
}

/// The place of a mip of a layer in subresource order.
pub open spec fn dx_subresource(mip: nat, layer: nat, mips: nat) -> nat {
    mip + layer * mips
}

/// The first `count` of `layers` layers in subresource order: layer after layer, each with
/// all its mips.
pub open spec fn cube_subresources(
    pitches: Seq<Pitch>,
    mips: nat,
    layers: nat,
    count: nat,
) -> Seq<Subresource>
    decreases count,
{
    if count == 0 {
        Seq::empty()
    } else {
        cube_subresources(pitches, mips, layers, (count - 1) as nat) + Seq::new(
            mips,
            |mip: int| cube_subresource(pitches, layers, mip as nat, (count - 1) as nat),
        )
    }
}

/// How many of the first `count` mips come before one without a row.
pub open spec fn stored_levels(pitches: Seq<Pitch>, count: nat) -> nat
    decreases count,
{
    if count == 0 {
        0
    } else if stored_levels(pitches, (count - 1) as nat) == count - 1 && pitches[count - 1].row != 0 {
        count
    } else {
        stored_levels(pitches, (count - 1) as nat)
    }
}

pub open spec fn flat_subresource(pitches: Seq<Pitch>, mip: nat) -> Subresource {
    Subresource {
        offset: bytes_before(pitches, mip) as u64,
        pitch: pitches[mip as int].row,
        slice_pitch: 0,
    }
}

pub open spec fn flat_subresources(pitches: Seq<Pitch>, levels: nat) -> Seq<Subresource> {
    Seq::new(levels, |mip: int| flat_subresource(pitches, mip as nat))
}

/// A mip with a side of at most eight texels.
pub open spec fn is_small_mip(texture: TextureInfo, mip: u16) -> bool {
    texture.width >> mip <= 8 || texture.height >> mip <= 8
}

/// The subresources of the small mips among the first `count`.
pub open spec fn small_subresources(
    texture: TextureInfo,
    pitches: Seq<Pitch>,
    count: nat,
) -> Seq<Subresource>
    decreases count,
{
    if count == 0 {
        Seq::empty()
    } else if is_small_mip(texture, (count - 1) as u16) {
        small_subresources(texture, pitches, (count - 1) as nat).push(
            flat_subresource(pitches, (count - 1) as nat),
        )
    } else {
        small_subresources(texture, pitches, (count - 1) as nat)
    }
}

/// The first small mip after mip zero among the first `count`, or zero.
pub open spec fn small_base(texture: TextureInfo, count: nat) -> u16
    decreases count,
{
    if count == 0 {
        0
    } else if small_base(texture, (count - 1) as nat) == 0 && is_small_mip(
        texture,
        (count - 1) as u16,
    ) {
        (count - 1) as u16
    } else {
        small_base(texture, (count - 1) as nat)
    }
}

/// The flat texture, reduced to its small mips on request where it has any.
pub open spec fn flat_plan(texture: TextureInfo, pitches: Seq<Pitch>, low_res: bool) -> TexturePlanView {
    let levels = stored_levels(pitches, texture.uploaded_mips() as nat);
    let small = small_subresources(texture, pitches, levels);
    let base: u16 = if low_res { small_base(texture, levels) } else { 0 };
    TexturePlanView::Texture2D {
        width: texture.width >> base,
        height: texture.height >> base,
        subresources: if low_res && small.len() > 0 {
            small
        } else {
            flat_subresources(pitches, levels)
        },
    }
}

/// What is created of a texture whose payload is large enough.
pub open spec fn texture_plan(
    texture: TextureInfo,
    pitches: Seq<Pitch>,
    low_res: bool,
) -> TexturePlanView {
    match texture.dimension() {
        TextureDimension::Texture3D => TexturePlanView::Texture3D {
            width: texture.width,
            height: texture.height,
            depth: texture.depth,
            subresource: Subresource {
                offset: 0,
                pitch: pitches[0].row,
                slice_pitch: pitches[0].slice,
            },
        },
        TextureDimension::TextureCube => TexturePlanView::TextureCube {
            width: texture.width,
            height: texture.height,
            array_size: texture.array_size,
            mip_levels: texture.mip_count,
            subresources: cube_subresources(
                pitches,
                texture.mip_count as nat,
                texture.array_size as nat,
                texture.array_size as nat,
            ),
        },
        TextureDimension::Texture2D => flat_plan(texture, pitches, low_res),
    }
}

/// The plan of an upload of `length` payload bytes, or why it is refused.
pub open spec fn upload_outcome(
    label: Seq<char>,
    texture: TextureInfo,
    clamped: Seq<Pitch>,
    pitches: Seq<Pitch>,
    length: nat,
    low_res: bool,
) -> Result<TexturePlanView, Seq<char>> {
    match requirement(texture, clamped) {
        Err(cause) => Err("Texture "@ + label + " has an invalid upload layout: "@ + cause),
        Ok(needed) => if length < needed.required_bytes {
            Err(
                "Texture "@ + label + " "@ + needed.dimension.label() + " upload requires "@
                    + decimal_text(needed.required_bytes as nat) + " bytes for "@ + decimal_text(
                    needed.subresources as nat,
                ) + " subresources but package data contains "@ + decimal_text(length),
            )
        } else {
            Ok(texture_plan(texture, pitches, low_res))
        },
    }
}

proof fn lemma_bytes_before_is_bounded(pitches: Seq<Pitch>, count: nat)
    ensures
        bytes_before(pitches, count) <= count * 0xffff_ffff,
    decreases count,
{
    if count > 0 {
        lemma_bytes_before_is_bounded(pitches, (count - 1) as nat);
    }
}

fn volume_plan(texture: TextureInfo, pitches: &[Pitch]) -> (plan: TexturePlan)
    requires
        texture.dimension() == TextureDimension::Texture3D,
        pitches@.len() >= 1,
    ensures
        plan@ == texture_plan(texture, pitches@, false),
        plan@ == texture_plan(texture, pitches@, true),
{
    TexturePlan::Texture3D {
        width: texture.width,
        height: texture.height,
        depth: texture.depth,
        subresource: Subresource { offset: 0, pitch: pitches[0].row, slice_pitch: pitches[0].slice },
    }
}

/// The bytes of one slice of each mip before each mip.
fn slice_starts(pitches: &[Pitch], count: u8) -> (starts: Vec<u64>)
    requires
        pitches@.len() >= count,
    ensures
        starts@.len() == count,
        forall|mip: int| 0 <= mip < count ==> starts@[mip] == bytes_before(pitches@, mip as nat),
{
    let mut starts: Vec<u64> = Vec::new();
    let mut offset: u64 = 0;
    let mut mip: u8 = 0;
    while mip < count
        invariant
            mip <= count,
            pitches@.len() >= count,
            starts@.len() == mip,
            offset == bytes_before(pitches@, mip as nat),
            forall|m: int| 0 <= m < mip ==> starts@[m] == bytes_before(pitches@, m as nat),
        decreases count - mip,
    {
        proof {
            lemma_bytes_before_is_bounded(pitches@, mip as nat);
        }
        starts.push(offset);
        offset += pitches[mip as usize].slice as u64;
        mip += 1;
    }
    starts
}

fn push_layer(
    subresources: &mut Vec<Subresource>,
    pitches: &[Pitch],
    starts: &Vec<u64>,
    layers: u16,
    layer: u16,
)
    requires
        starts@.len() <= 255,
        pitches@.len() >= starts@.len(),
        layer < layers,
        forall|mip: int|
            0 <= mip < starts@.len() ==> starts@[mip] == bytes_before(pitches@, mip as nat),
    ensures
        final(subresources)@ == old(subresources)@ + Seq::new(
            starts@.len(),
            |mip: int| cube_subresource(pitches@, layers as nat, mip as nat, layer as nat),
        ),
{
    let ghost whole = Seq::new(
        starts@.len(),
        |mip: int| cube_subresource(pitches@, layers as nat, mip as nat, layer as nat),
    );
    let mut mip: usize = 0;
    while mip < starts.len()
        invariant
            mip <= starts@.len(),
            starts@.len() <= 255,
            pitches@.len() >= starts@.len(),
            layer < layers,
            forall|m: int|
                0 <= m < starts@.len() ==> starts@[m] == bytes_before(pitches@, m as nat),
            whole == Seq::new(
                starts@.len(),
                |m: int| cube_subresource(pitches@, layers as nat, m as nat, layer as nat),
            ),
            subresources@ == old(subresources)@ + whole.take(mip as int),
        decreases starts@.len() - mip,
    {
        let start: u64 = starts[mip];
        let pitch = pitches[mip];
        proof {
            lemma_bytes_before_is_bounded(pitches@, mip as nat);
        }
        assert(start * layers <= 255 * 0xffff_ffff * 0xffff) by (nonlinear_arith)
            requires
                start <= mip * 0xffff_ffff,
                mip <= 255,
                layers <= 0xffff,
        ;
        assert(layer * pitch.slice <= 0xffff * 0xffff_ffff) by (nonlinear_arith)
            requires
                layer <= 0xffff,
                pitch.slice <= 0xffff_ffff,
        ;
        let offset: u64 = start * layers as u64 + layer as u64 * pitch.slice as u64;
        subresources.push(Subresource { offset, pitch: pitch.row, slice_pitch: 0 });
        assert(whole.take(mip + 1) =~= whole.take(mip as int).push(whole[mip as int]));
        mip += 1;
    }
    assert(whole.take(mip as int) =~= whole);
}

fn cube_plan(texture: TextureInfo, pitches: &[Pitch]) -> (plan: TexturePlan)
    requires
        texture.dimension() == TextureDimension::TextureCube,
        pitches@.len() >= texture.mip_count,
    ensures
        plan@ == texture_plan(texture, pitches@, false),
        plan@ == texture_plan(texture, pitches@, true),
{
    let starts = slice_starts(pitches, texture.mip_count);
    let mut subresources: Vec<Subresource> = Vec::new();
    let mut layer: u16 = 0;
    while layer < texture.array_size
        invariant
            layer <= texture.array_size,
            starts@.len() == texture.mip_count,
            pitches@.len() >= texture.mip_count,
            forall|mip: int|
                0 <= mip < starts@.len() ==> starts@[mip] == bytes_before(pitches@, mip as nat),
            subresources@ == cube_subresources(
                pitches@,
                texture.mip_count as nat,
                texture.array_size as nat,
                layer as nat,
            ),
        decreases texture.array_size - layer,
    {
        push_layer(&mut subresources, pitches, &starts, texture.array_size, layer);
        layer += 1;
    }
    TexturePlan::TextureCube {
        width: texture.width,
        height: texture.height,
        array_size: texture.array_size,
        mip_levels: texture.mip_count,
        subresources,
    }
}

fn levels_with_rows(pitches: &[Pitch], count: u8) -> (levels: u8)
    requires
        pitches@.len() >= count,
    ensures
        levels == stored_levels(pitches@, count as nat),
        levels <= count,
{
    let mut levels: u8 = 0;
    let mut mip: u8 = 0;
    while mip < count
        invariant
            mip <= count,
            pitches@.len() >= count,
            levels == stored_levels(pitches@, mip as nat),
            levels <= mip,
        decreases count - mip,
    {
        if levels == mip && pitches[mip as usize].row != 0 {
            levels = mip + 1;
        }
        mip += 1;
    }
    levels
}

pub(crate) fn flat_levels(pitches: &[Pitch], levels: u8) -> (subresources: Vec<Subresource>)
    requires
        pitches@.len() >= levels,
    ensures
        subresources@ == flat_subresources(pitches@, levels as nat),
{
    let starts = slice_starts(pitches, levels);
    let mut subresources: Vec<Subresource> = Vec::new();
    let mut mip: usize = 0;
    while mip < starts.len()
        invariant
            mip <= starts@.len(),
            starts@.len() == levels,
            pitches@.len() >= levels,
            forall|m: int| 0 <= m < levels ==> starts@[m] == bytes_before(pitches@, m as nat),
            subresources@ =~= flat_subresources(pitches@, mip as nat),
        decreases starts@.len() - mip,
    {
        subresources.push(
            Subresource { offset: starts[mip], pitch: pitches[mip].row, slice_pitch: 0 },
        );
        mip += 1;
    }
    subresources
}

fn flat_texture_plan(texture: TextureInfo, pitches: &[Pitch], low_res: bool) -> (plan: TexturePlan)
    requires
        texture.dimension() == TextureDimension::Texture2D,
        pitches@.len() >= texture.uploaded_mips(),
        texture.uploaded_mips() <= 16,
    ensures
        plan@ == flat_plan(texture, pitches@, low_res),
{
    let levels: u8 = levels_with_rows(pitches, texture.resident_mips());
    let mut subresources = flat_levels(pitches, levels);
    let mut base: u16 = 0;
    if low_res {
        let mut small: Vec<Subresource> = Vec::new();
        let mut mip: u8 = 0;
        while mip < levels
            invariant
                mip <= levels <= 16,
                subresources@ == flat_subresources(pitches@, levels as nat),
                small@ == small_subresources(texture, pitches@, mip as nat),
                base == small_base(texture, mip as nat),
                base < 16,
            decreases levels - mip,
        {
            let step: u16 = mip as u16;
            if texture.width >> step <= 8 || texture.height >> step <= 8 {
                if base == 0 {
                    base = step;
                }
                small.push(subresources[mip as usize]);
            }
            mip += 1;
        }
        if small.len() > 0 {
            subresources = small;
        }
    }
    TexturePlan::Texture2D {
        width: texture.width >> base,
        height: texture.height >> base,
        subresources,
    }
}

fn invalid_layout(label: &str, cause: &Error) -> (error: Error)
    ensures
        error@ == "Texture "@ + label@ + " has an invalid upload layout: "@ + cause@,
{
    let mut message = String::from_str("Texture ");
    message.append(label);
    message.append(" has an invalid upload layout: ");
    message.append(cause.message.as_str());
    Error { message }
}

fn short_payload(label: &str, needed: TextureUploadRequirement, length: usize) -> (error: Error)
    ensures
        error@ == "Texture "@ + label@ + " "@ + needed.dimension.label() + " upload requires "@
            + decimal_text(needed.required_bytes as nat) + " bytes for "@ + decimal_text(
            needed.subresources as nat,
        ) + " subresources but package data contains "@ + decimal_text(length as nat),
{
    let mut message = String::from_str("Texture ");
    message.append(label);
    message.append(" ");
    message.append(needed.dimension.name());
    message.append(" upload requires ");
    let required = decimal(needed.required_bytes as u64);
    message.append(required.as_str());
    message.append(" bytes for ");
    let subresources = decimal(needed.subresources as u64);
    message.append(subresources.as_str());
    message.append(" subresources but package data contains ");
    let contained = decimal(length as u64);
    message.append(contained.as_str());
    Error { message }
}

/// Plans the upload of a payload of `length` bytes. `clamped` holds the pitches of the mips
/// with the sides that `mip_side` gives, `pitches` those of the mips with plainly halved sides.
pub fn plan_upload(
    label: &str,
    texture: TextureInfo,
    clamped: &[Pitch],
    pitches: &[Pitch],
    length: usize,
    low_res: bool,
) -> (result: Result<TexturePlan, Error>)
    requires
        clamped@.len() >= texture.uploaded_mips(),
        pitches@.len() >= texture.uploaded_mips(),
        texture.uploaded_mips() <= 16,
    ensures
        outcome(result) == upload_outcome(
            label@,
            texture,
            clamped@,
            pitches@,
            length as nat,
            low_res,
        ),
{
    let needed = match upload_requirement(texture, clamped) {
        Err(cause) => {
            return Err(invalid_layout(label, &cause));
        },
        Ok(needed) => needed,
    };
    if length < needed.required_bytes {
        return Err(short_payload(label, needed, length));
    }
    let plan = match needed.dimension {
        TextureDimension::Texture3D => volume_plan(texture, pitches),
        TextureDimension::TextureCube => cube_plan(texture, pitches),
        TextureDimension::Texture2D => flat_texture_plan(texture, pitches, low_res),
    };
    Ok(plan)
}

/// In subresource order each layer holds its mips in turn, so the mip of a layer stands at
/// its direct place.
pub proof fn law_cube_mips_stand_in_subresource_order(
    pitches: Seq<Pitch>,
    mips: nat,
    layers: nat,
    count: nat,
    mip: nat,
    layer: nat,
)
    requires
        mip < mips,
        layer < count,
    ensures
        cube_subresources(pitches, mips, layers, count).len() == mips * count,
        dx_subresource(mip, layer, mips) < mips * count,
        cube_subresources(pitches, mips, layers, count)[dx_subresource(mip, layer, mips) as int]
            == cube_subresource(pitches, layers, mip, layer),
    decreases count,
{
    let before = (count - 1) as nat;
    assert(mips * count == mips * before + mips) by (nonlinear_arith)
        requires
            count == before + 1,
    ;
    if layer < before {
        law_cube_mips_stand_in_subresource_order(pitches, mips, layers, before, mip, layer);
    } else {
        lemma_cube_length(pitches, mips, layers, before);
        assert(layer * mips == mips * before) by (nonlinear_arith)
            requires
                layer == before,
        ;
    }
}

proof fn lemma_cube_length(pitches: Seq<Pitch>, mips: nat, layers: nat, count: nat)
    ensures
        cube_subresources(pitches, mips, layers, count).len() == mips * count,
    decreases count,
{
    if count > 0 {
        lemma_cube_length(pitches, mips, layers, (count - 1) as nat);
        assert(mips * count == mips * (count - 1) + mips) by (nonlinear_arith);
    } else {
        assert(mips * 0 == 0);
    }
}

proof fn lemma_mip_bytes(texture: TextureInfo, pitches: Seq<Pitch>, mip: nat, total: nat)
    requires
        mip <= texture.uploaded_mips(),
        total == bytes_before(pitches, mip) * texture.slices(),
        mip_bytes(texture, pitches, mip, total) is Ok,
    ensures
        mip_bytes(texture, pitches, mip, total)->Ok_0 == bytes_before(
            pitches,
            texture.uploaded_mips() as nat,
        ) * texture.slices(),
        mip_bytes(texture, pitches, mip, total)->Ok_0 <= usize::MAX || mip
            == texture.uploaded_mips(),
    decreases texture.uploaded_mips() - mip,
{
    if mip < texture.uploaded_mips() {
        let next = total + stored_bytes(texture, pitches[mip as int]);
        assert(bytes_before(pitches, mip + 1) * texture.slices() == next) by (nonlinear_arith)
            requires
                next == bytes_before(pitches, mip) * texture.slices()
                    + pitches[mip as int].slice as nat * texture.slices(),
                bytes_before(pitches, mip + 1) == bytes_before(pitches, mip)
                    + pitches[mip as int].slice as nat,
        ;
        lemma_mip_bytes(texture, pitches, mip + 1, next);
    }
}

proof fn lemma_bytes_before_is_monotone(
    small: Seq<Pitch>,
    large: Seq<Pitch>,
    count: nat,
    more: nat,
)
    requires
        count <= more,
        forall|mip: int| 0 <= mip < more ==> #[trigger] small[mip].slice <= large[mip].slice,
    ensures
        bytes_before(small, count) <= bytes_before(large, more),
    decreases more,
{
    if count < more {
        lemma_bytes_before_is_monotone(small, large, count, (more - 1) as nat);
    } else if count > 0 {
        lemma_bytes_before_is_monotone(small, large, (count - 1) as nat, (more - 1) as nat);
    }
}

/// Where halving a side never gives more bytes than the counted mip, every slice that an
/// upload reads lies within the bytes that the upload asks for.
pub proof fn law_slices_lie_in_the_payload(
    texture: TextureInfo,
    clamped: Seq<Pitch>,
    pitches: Seq<Pitch>,
    mip: nat,
    layer: nat,
)
    requires
        requirement(texture, clamped) is Ok,
        forall|m: int|
            0 <= m < texture.uploaded_mips() ==> #[trigger] pitches[m].slice <= clamped[m].slice,
        mip < texture.uploaded_mips(),
        layer < texture.slices(),
    ensures
        bytes_before(pitches, mip) * texture.slices() + layer * pitches[mip as int].slice
            + pitches[mip as int].slice <= requirement(texture, clamped)->Ok_0.required_bytes,
        cube_subresource(pitches, texture.slices(), mip, layer).offset + pitches[mip as int].slice
            <= requirement(texture, clamped)->Ok_0.required_bytes,
        texture.slices() == 1 ==> flat_subresource(pitches, mip).offset
            + pitches[mip as int].slice <= requirement(texture, clamped)->Ok_0.required_bytes,
{
    let mips = texture.uploaded_mips() as nat;
    let slices = texture.slices();
    assert(bytes_before(clamped, 0) == 0);
    assert(0 * slices == 0) by (nonlinear_arith);
    lemma_mip_bytes(texture, clamped, 0, 0);
    lemma_bytes_before_is_monotone(pitches, clamped, mip + 1, mips);
    let slice = pitches[mip as int].slice as nat;
    let before = bytes_before(pitches, mip);
    let all = bytes_before(clamped, mips);
    assert(before * slices + layer * slice + slice <= all * slices) by (nonlinear_arith)
        requires
            before + slice <= all,
            layer + 1 <= slices,
    ;
    assert(0 <= before * slices + layer * slice) by (nonlinear_arith);
}

/// A reduced texture holds small mips alone, each with the data that the whole texture has for
/// it.
pub proof fn law_reduced_textures_hold_small_mips(
    texture: TextureInfo,
    pitches: Seq<Pitch>,
    count: nat,
    at: int,
)
    requires
        count <= 16,
        0 <= at < small_subresources(texture, pitches, count).len(),
    ensures
        exists|mip: int|
            0 <= mip < count && is_small_mip(texture, mip as u16) && #[trigger] flat_subresource(
                pitches,
                mip as nat,
            ) == small_subresources(texture, pitches, count)[at],
    decreases count,
{
    let before = small_subresources(texture, pitches, (count - 1) as nat);
    if at < before.len() {
        law_reduced_textures_hold_small_mips(texture, pitches, (count - 1) as nat, at);
        let mip = choose|mip: int|
            0 <= mip < count - 1 && is_small_mip(texture, mip as u16) && #[trigger] flat_subresource(
                pitches,
                mip as nat,
            ) == before[at];
        assert(flat_subresource(pitches, mip as nat) == small_subresources(
            texture,
            pitches,
            count,
        )[at]);
    } else {
        assert(flat_subresource(pitches, (count - 1) as nat) == small_subresources(
            texture,
            pitches,
            count,
        )[at]);
    }
}

/// The tags whose contents, one after the other, are the payload of a texture: its large
/// buffer where it has one, with the resident mips behind it on request, and otherwise the
/// entry that the header refers to.
pub open spec fn payload_parts(large_buffer: u32, reference: u32, full_mips: bool) -> Seq<u32> {
    if !is_tag(large_buffer) {
        seq![reference]
    } else if full_mips {
        seq![large_buffer, reference]
    } else {
        seq![large_buffer]
    }
}

/// Lists the tags to read for the payload of a texture.
pub fn payload_tags(large_buffer: u32, reference: u32, full_mips: bool) -> (tags: Vec<u32>)
    ensures
        tags@ == payload_parts(large_buffer, reference, full_mips),
{
    let large: bool = crate::tag::tag_is_some(large_buffer);
    let mut tags: Vec<u32> = Vec::new();
    if large {
        tags.push(large_buffer);
    } else {
        tags.push(reference);
    }
    if full_mips && large {
        tags.push(reference);
    }
    assert(tags@ =~= payload_parts(large_buffer, reference, full_mips));
    tags
}

/// Whether a package entry with this type and this many bytes of data holds a sampler whose
/// description takes `description` bytes.
pub open spec fn sampler_outcome(
    file_type: u8,
    file_subtype: u8,
    length: nat,
    description: nat,
) -> Result<(), Seq<char>> {
    if file_type != 34 || file_subtype != 1 {
        Err("Sampler header type mismatch"@)
    } else if length < description {
        Err("Sampler data size mismatch"@)
    } else {
        Ok(())
    }
}

/// Checks a sampler's entry and data before a sampler is made of them.
pub fn check_sampler(file_type: u8, file_subtype: u8, length: usize, description: usize) -> (result:
    Result<(), Error>)
    ensures
        outcome(result) == sampler_outcome(
            file_type,
            file_subtype,
            length as nat,
            description as nat,
        ),
{
    if file_type != 34 || file_subtype != 1 {
        return Err(Error { message: String::from_str("Sampler header type mismatch") });
    }
    if length < description {
        return Err(Error { message: String::from_str("Sampler data size mismatch") });
    }
    Ok(())
}

/// A flat texture is created with its own sides. On request it is reduced, and then both sides are
/// halved equally often: as often as those of its first small mip, where that is not mip zero.
pub proof fn law_flat_textures_keep_their_proportions(
    texture: TextureInfo,
    pitches: Seq<Pitch>,
    low_res: bool,
) -> (base: nat)
    requires
        texture.dimension() == TextureDimension::Texture2D,
        texture.uploaded_mips() <= 16,
    ensures
        texture_plan(texture, pitches, low_res) matches TexturePlanView::Texture2D {
            width,
            height,
            subresources,
        } && {
            &&& width == texture.width as nat / pow2(base)
            &&& height == texture.height as nat / pow2(base)
            &&& !low_res ==> width == texture.width && height == texture.height
            &&& low_res && texture.width > 8 && texture.height > 8 && base > 0 ==> {
                &&& subresources.len() > 0
                &&& subresources[0].offset == bytes_before(pitches, base)
                &&& subresources[0].pitch == pitches[base as int].row
                &&& width <= 8 || height <= 8
                &&& forall|m: nat|
                    m < base ==> texture.width as nat / #[trigger] pow2(m) > 8
                        && texture.height as nat / pow2(m) > 8
            }
        },
        base < 16,
{
    let levels = stored_levels(pitches, texture.uploaded_mips() as nat);
    lemma_stored_levels(pitches, texture.uploaded_mips() as nat);
    let base: u16 = if low_res {
        small_base(texture, levels)
    } else {
        0
    };
    lemma_small_base(texture, pitches, levels);
    vstd::bits::lemma_u16_shr_is_div(texture.width, base);
    vstd::bits::lemma_u16_shr_is_div(texture.height, base);
    vstd::arithmetic::power2::lemma2_to64();
    assert(texture.width as nat / 1 == texture.width);
    assert(texture.height as nat / 1 == texture.height);
    vstd::bits::lemma_u16_shr_is_div(texture.width, 0);
    vstd::bits::lemma_u16_shr_is_div(texture.height, 0);
    if low_res && texture.width > 8 && texture.height > 8 && base > 0 {
        assert(!is_small_mip(texture, 0));
        lemma_bytes_before_is_bounded(pitches, base as nat);
        assert forall|m: nat| m < base implies texture.width as nat / #[trigger] pow2(m) > 8
            && texture.height as nat / pow2(m) > 8 by {
            vstd::bits::lemma_u16_shr_is_div(texture.width, m as u16);
            vstd::bits::lemma_u16_shr_is_div(texture.height, m as u16);
            assert(!is_small_mip(texture, m as u16));
        }
    }
    base as nat
}

proof fn lemma_stored_levels(pitches: Seq<Pitch>, count: nat)
    ensures
        stored_levels(pitches, count) <= count,
        forall|m: int|
            0 <= m < stored_levels(pitches, count) ==> (#[trigger] pitches[m]).row != 0,
        stored_levels(pitches, count) < count ==> pitches[stored_levels(
            pitches,
            count,
        ) as int].row == 0,
    decreases count,
{
    if count > 0 {
        lemma_stored_levels(pitches, (count - 1) as nat);
    }
}

proof fn lemma_small_base(texture: TextureInfo, pitches: Seq<Pitch>, count: nat)
    requires
        count <= 16,
    ensures
        small_base(texture, count) < 16,
        small_base(texture, count) > 0 ==> small_base(texture, count) < count && is_small_mip(
            texture,
            small_base(texture, count),
        ),
        !is_small_mip(texture, 0) ==> forall|m: u16|
            m < small_base(texture, count) || small_base(texture, count) == 0 && m < count
                ==> !#[trigger] is_small_mip(texture, m),
        !is_small_mip(texture, 0) && small_base(texture, count) == 0 ==> small_subresources(
            texture,
            pitches,
            count,
        ).len() == 0,
        !is_small_mip(texture, 0) && small_base(texture, count) > 0 ==> {
            let small = small_subresources(texture, pitches, count);
            &&& small.len() > 0
            &&& small[0] == flat_subresource(pitches, small_base(texture, count) as nat)
        },
    decreases count,
{
    if count > 0 {
        lemma_small_base(texture, pitches, (count - 1) as nat);
    }
}

/// The mips of a flat texture that is not reduced follow one another in the payload without a
/// gap, from its first byte on, up to the first mip without a row.
pub proof fn law_flat_mips_follow_one_another(
    texture: TextureInfo,
    pitches: Seq<Pitch>,
    mip: int,
)
    requires
        texture.dimension() == TextureDimension::Texture2D,
        texture.uploaded_mips() <= 16,
    ensures
        texture_plan(texture, pitches, false) matches TexturePlanView::Texture2D {
            subresources,
            ..
        } && {
            &&& subresources.len() <= texture.uploaded_mips()
            &&& subresources.len() < texture.uploaded_mips()
                ==> pitches[subresources.len() as int].row == 0
            &&& subresources.len() > 0 ==> subresources[0].offset == 0
            &&& 0 <= mip < subresources.len() ==> {
                &&& subresources[mip].pitch == pitches[mip].row
                &&& subresources[mip].pitch != 0
                &&& subresources[mip].slice_pitch == 0
            }
            &&& 0 <= mip < subresources.len() - 1 ==> subresources[mip + 1].offset
                == subresources[mip].offset + pitches[mip].slice
        },
{
    lemma_stored_levels(pitches, texture.uploaded_mips() as nat);
    if 0 <= mip < 16 {
        lemma_bytes_before_is_bounded(pitches, mip as nat);
        lemma_bytes_before_is_bounded(pitches, (mip + 1) as nat);
    }
}

/// A volume is created with its own sides and depth, from the first byte of the payload.
pub proof fn law_volumes_keep_their_sides(
    texture: TextureInfo,
    pitches: Seq<Pitch>,
    low_res: bool,
)
    requires
        texture.depth > 1,
    ensures
        texture_plan(texture, pitches, low_res) matches TexturePlanView::Texture3D {
            width,
            height,
            depth,
            subresource,
        } && {
            &&& width == texture.width
            &&& height == texture.height
            &&& depth == texture.depth
            &&& subresource.offset == 0
            &&& subresource.pitch == pitches[0].row
            &&& subresource.slice_pitch == pitches[0].slice
        },
{
}

/// A cube is created with its own sides, layers and mips. In the payload every layer of a mip
/// follows the one before it, and the next mip follows the last layer, without a gap.
pub proof fn law_cube_layers_follow_one_another(
    texture: TextureInfo,
    pitches: Seq<Pitch>,
    low_res: bool,
    mip: nat,
    layer: nat,
)
    requires
        texture.depth <= 1,
        texture.array_size > 1,
        mip < texture.mip_count,
        layer < texture.array_size,
    ensures
        texture_plan(texture, pitches, low_res) matches TexturePlanView::TextureCube {
            width,
            height,
            array_size,
            mip_levels,
            subresources,
        } && {
            let mips = texture.mip_count as int;
            let here = subresources[mip + layer * mips];
            &&& width == texture.width
            &&& height == texture.height
            &&& array_size == texture.array_size
            &&& mip_levels == texture.mip_count
            &&& subresources.len() == texture.mip_count * texture.array_size
            &&& here.pitch == pitches[mip as int].row
            &&& here.slice_pitch == 0
            &&& subresources[0].offset == 0
            &&& layer + 1 < texture.array_size ==> subresources[mip + (layer + 1) * mips].offset
                == here.offset + pitches[mip as int].slice
            &&& layer + 1 == texture.array_size && mip + 1 < mips ==> subresources[mip as int
                + 1].offset == here.offset + pitches[mip as int].slice
        },
{
    let mips = texture.mip_count as nat;
    let layers = texture.array_size as nat;
    law_cube_mips_stand_in_subresource_order(pitches, mips, layers, layers, mip, layer);
    law_cube_mips_stand_in_subresource_order(pitches, mips, layers, layers, 0, 0);
    lemma_cube_offset_fits(pitches, mips, layers, mip, layer);
    lemma_cube_offset_fits(pitches, mips, layers, 0, 0);
    assert(0 * layers == 0 && 0 * mips == 0 && 0 * pitches[0].slice == 0) by (nonlinear_arith);
    assert(bytes_before(pitches, 0) == 0);
    if layer + 1 < layers {
        law_cube_mips_stand_in_subresource_order(pitches, mips, layers, layers, mip, layer + 1);
        lemma_cube_offset_fits(pitches, mips, layers, mip, layer + 1);
        assert((layer + 1) * pitches[mip as int].slice == layer * pitches[mip as int].slice
            + pitches[mip as int].slice) by (nonlinear_arith);
    }
    if layer + 1 == layers && mip + 1 < mips {
        law_cube_mips_stand_in_subresource_order(pitches, mips, layers, layers, mip + 1, 0);
        lemma_cube_offset_fits(pitches, mips, layers, mip + 1, 0);
        let slice = pitches[mip as int].slice as nat;
        let before = bytes_before(pitches, mip);
        assert(bytes_before(pitches, mip + 1) == before + slice);
        assert((before + slice) * layers == before * layers + layer * slice + slice)
            by (nonlinear_arith)
            requires
                layers == layer + 1,
        ;
        assert(0 * pitches[mip as int + 1].slice == 0) by (nonlinear_arith);
    }
}

proof fn lemma_cube_offset_fits(
    pitches: Seq<Pitch>,
    mips: nat,
    layers: nat,
    mip: nat,
    layer: nat,
)
    requires
        mip < mips <= 255,
        layer < layers <= 0xffff,
    ensures
        cube_subresource(pitches, layers, mip, layer).offset == bytes_before(pitches, mip) * layers
            + layer * pitches[mip as int].slice,
{
    lemma_bytes_before_is_bounded(pitches, mip);
    let before = bytes_before(pitches, mip);
    let slice = pitches[mip as int].slice as nat;
    assert(0 <= before * layers <= 255 * 0xffff_ffff * 0xffff) by (nonlinear_arith)
        requires
            before <= mip * 0xffff_ffff,
            mip <= 255,
            layers <= 0xffff,
    ;
    assert(0 <= layer * slice <= 0xffff * 0xffff_ffff) by (nonlinear_arith)
        requires
            layer <= 0xffff,
            slice <= 0xffff_ffff,
    ;
}

/// What an upload asks for follows from the texture alone. A volume has one mip of as many slices
/// as it is deep, a cube has every mip once for each layer, and a flat texture has its mips once,
/// or only the first where it has no large buffer. All bytes of all of these are asked for.
pub proof fn law_uploads_ask_for_every_slice(texture: TextureInfo, pitches: Seq<Pitch>)
    requires
        requirement(texture, pitches) is Ok,
    ensures
        ({
            let needed = requirement(texture, pitches)->Ok_0;
            let volume = texture.depth > 1;
            let cube = texture.depth <= 1 && texture.array_size > 1;
            &&& volume ==> {
                &&& needed.dimension == TextureDimension::Texture3D
                &&& needed.mip_count == 1
                &&& needed.subresources == 1
                &&& needed.required_bytes == pitches[0].slice * texture.depth
            }
            &&& cube ==> {
                &&& needed.dimension == TextureDimension::TextureCube
                &&& needed.mip_count == texture.mip_count
                &&& needed.subresources == texture.mip_count * texture.array_size
                &&& needed.required_bytes == bytes_before(pitches, texture.mip_count as nat)
                    * texture.array_size
            }
            &&& !volume && !cube ==> {
                &&& needed.dimension == TextureDimension::Texture2D
                &&& needed.mip_count == if is_tag(texture.large_buffer) {
                    texture.mip_count
                } else {
                    1
                }
                &&& needed.subresources == needed.mip_count
                &&& needed.required_bytes == bytes_before(pitches, needed.mip_count as nat)
            }
        }),
{
    let mips = texture.uploaded_mips() as nat;
    let slices = texture.slices();
    assert(bytes_before(pitches, 0) == 0);
    assert(0 * slices == 0) by (nonlinear_arith);
    lemma_mip_bytes(texture, pitches, 0, 0);
    lemma_mip_bytes_fit(texture, pitches, 0, 0);
    assert(texture.mip_count * texture.array_size <= 255 * 65535) by (nonlinear_arith)
        requires
            texture.mip_count <= 255,
            texture.array_size <= 65535,
    ;
    reveal_with_fuel(bytes_before, 2);
    assert(bytes_before(pitches, 1) == pitches[0].slice);
    assert(bytes_before(pitches, mips) * 1 == bytes_before(pitches, mips));
}

proof fn lemma_mip_bytes_fit(texture: TextureInfo, pitches: Seq<Pitch>, mip: nat, total: nat)
    requires
        total <= usize::MAX,
        mip_bytes(texture, pitches, mip, total) is Ok,
    ensures
        mip_bytes(texture, pitches, mip, total)->Ok_0 <= usize::MAX,
    decreases texture.uploaded_mips() - mip,
{
    if mip < texture.uploaded_mips() {
        lemma_mip_bytes_fit(
            texture,
            pitches,
            mip + 1,
            total + stored_bytes(texture, pitches[mip as int]),
        );
    }
}

/// A measured mip has the halved side, and never less than one texel.
pub proof fn law_measured_sides_are_halved(side: u16, mip: u16)
    requires
        mip < 16,
    ensures
        clamped_side(side, mip) >= 1,
        side as nat / pow2(mip as nat) >= 1 ==> clamped_side(side, mip) == side as nat / pow2(
            mip as nat,
        ),
        side as nat / pow2(mip as nat) == 0 ==> clamped_side(side, mip) == 1,
{
    vstd::bits::lemma_u16_shr_is_div(side, mip);
}

/// The header's own numbers are those that the upload goes by.
pub proof fn law_headers_keep_their_numbers(header: SShadowkeepTextureHeader)
    ensures
        ({
            let info = <TextureInfo as vstd::std_specs::convert::FromSpec<
                SShadowkeepTextureHeader,
            >>::from_spec(header);
            &&& info.format == header.format
            &&& info.width == header.width
            &&& info.height == header.height
            &&& info.depth == header.depth
            &&& info.array_size == header.array_size
            &&& info.mip_count == header.mip_count
            &&& info.large_buffer == header.large_buffer
        }),
{
}

} // verus!
