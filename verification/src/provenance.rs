//! Capture records: what was read back from a surface, and how two captures of
//! a frame differ.

use crate::pixels::{
    bytes_per_pixel, capture_format, clear_of, compute_stats, decode_surface, format_named,
    provenance_format, statistics, statistics_failure, surface_pixels, Pixel, PixelStats, Sample,
    SurfaceFormat,
};
use crate::single::{is_finite, magnitude, magnitude_of};
use crate::text::{hex_dump, hex_dump_text, same_text, Error};
use vstd::prelude::*;

verus! {

/// The SHA-256 digest of a byte string.
pub uninterp spec fn sha256(bytes: Seq<u8>) -> Seq<u8>;

/// Calls `sha2::Sha256::digest`, which returns the 32-byte SHA-256 digest of
/// its argument. What the digest of given bytes is, is not stated.
#[verifier::external_body]
fn digest(bytes: &[u8]) -> (result: [u8; 32])
    ensures
        result@ == sha256(bytes@),
{
    <sha2::Sha256 as sha2::Digest>::digest(bytes).into()
}

/// The digest of a capture in lower-case hexadecimal.
pub fn capture_digest(bytes: &[u8]) -> (text: String)
    ensures
        text@ == hex_dump_text(sha256(bytes@)),
{
    let result = digest(bytes);
    hex_dump(result.as_slice())
}

/// The rows of a mapped surface without the padding between them.
pub open spec fn packed_rows(mapped: Seq<u8>, pitch: nat, width: nat, rows: nat) -> Seq<u8>
    decreases rows,
{
    if rows == 0 {
        seq![]
    } else {
        packed_rows(mapped, pitch, width, (rows - 1) as nat) + mapped.subrange(
            ((rows - 1) * pitch) as int,
            ((rows - 1) * pitch + width) as int,
        )
    }
}

/// Copy the rows of a mapped surface without the padding between them.
pub fn pack_rows(mapped: &[u8], row_pitch: usize, tight_row_pitch: usize, rows: usize) -> (packed:
    Vec<u8>)
    requires
        rows > 0 ==> (rows - 1) * row_pitch + tight_row_pitch <= mapped@.len(),
    ensures
        packed@ == packed_rows(mapped@, row_pitch as nat, tight_row_pitch as nat, rows as nat),
{
    let length: usize = mapped.len();
    let mut packed: Vec<u8> = Vec::new();
    let mut y: usize = 0;
    while y < rows
        invariant
            y <= rows,
            length == mapped@.len(),
            rows > 0 ==> (rows - 1) * row_pitch + tight_row_pitch <= mapped@.len(),
            packed@ == packed_rows(mapped@, row_pitch as nat, tight_row_pitch as nat, y as nat),
        decreases rows - y,
    {
        assert(0 <= y * row_pitch <= (rows - 1) * row_pitch) by (nonlinear_arith)
            requires
                0 <= y <= rows - 1,
                0 <= row_pitch,
        ;
        let start: usize = y * row_pitch;
        let ghost before = packed@;
        let mut x: usize = 0;
        assert(packed@ =~= before + mapped@.subrange(start as int, start as int));
        while x < tight_row_pitch
            invariant
                x <= tight_row_pitch,
                start + tight_row_pitch <= length,
                length == mapped@.len(),
                packed@ == before + mapped@.subrange(start as int, start + x),
            decreases tight_row_pitch - x,
        {
            packed.push(mapped[start + x]);
            x = x + 1;
            assert(packed@ =~= before + mapped@.subrange(start as int, start + x));
        }
        y = y + 1;
    }
    packed
}

/// A captured surface.
#[derive(Debug)]
pub struct SurfaceProvenance {
    pub surface: String,
    pub file: String,
    pub format: String,
    pub resource_format: String,
    pub width: u32,
    pub height: u32,
    pub statistics_encoding: String,
    pub statistics: PixelStats,
    pub sha256: String,
}

/// How the statistics of a surface are to be read, unless the caller says.
pub open spec fn default_encoding(view_format: Seq<char>) -> Seq<char> {
    if view_format == "R8g8b8a8UnormSrgb"@ {
        "srgb_encoded_raw"@
    } else {
        "linear"@
    }
}

/// What is known of a surface before its pixels are looked at.
#[derive(Debug)]
pub struct CaptureRequest {
    pub name: String,
    /// The depth format, or the view format where there is none.
    pub shown_format: String,
    pub view_format: String,
    pub resource_format: String,
    pub width: u32,
    pub height: u32,
    pub clear_value: Option<[u32; 4]>,
    pub statistics_encoding: Option<String>,
}

/// Why a capture has no record.
pub open spec fn capture_failure(request: CaptureRequest, length: nat) -> Option<Seq<char>> {
    match format_named(request.resource_format@) {
        None => Some("Unsupported provenance format "@ + request.resource_format@),
        Some(format) => statistics_failure(format, length, request.clear_value),
    }
}

/// The record of a capture.
pub fn record_capture(request: &CaptureRequest, bytes: &[u8]) -> (result: Result<
    SurfaceProvenance,
    Error,
>)
    ensures
        match result {
            Err(error) => capture_failure(*request, bytes@.len()) == Some(error@),
            Ok(record) => {
                let format = format_named(request.resource_format@)->Some_0;
                &&& capture_failure(*request, bytes@.len()) is None
                &&& record.surface@ == request.name@
                &&& record.file@ == request.name@ + ".bin"@
                &&& record.format@ == request.shown_format@
                &&& record.resource_format@ == request.resource_format@
                &&& record.width == request.width
                &&& record.height == request.height
                &&& record.statistics_encoding@ == match request.statistics_encoding {
                    Some(encoding) => encoding@,
                    None => default_encoding(request.view_format@),
                }
                &&& record.statistics == statistics(
                    surface_pixels(format, bytes@),
                    format.has_alpha(),
                    clear_of(format, request.clear_value),
                )
                &&& record.sha256@ == hex_dump_text(sha256(bytes@))
            },
        },
{
    let format = match capture_format(request.resource_format.as_str()) {
        Ok(found) => found,
        Err(error) => return Err(error),
    };
    let statistics = match compute_stats(format, bytes, request.clear_value) {
        Ok(stats) => stats,
        Err(error) => return Err(error),
    };
    let mut file = request.name.clone();
    file.append(".bin");
    let statistics_encoding = match &request.statistics_encoding {
        Some(encoding) => encoding.clone(),
        None => if same_text(request.view_format.as_str(), "R8g8b8a8UnormSrgb") {
            "srgb_encoded_raw".to_owned()
        } else {
            "linear".to_owned()
        },
    };
    Ok(
        SurfaceProvenance {
            surface: request.name.clone(),
            file,
            format: request.shown_format.clone(),
            resource_format: request.resource_format.clone(),
            width: request.width,
            height: request.height,
            statistics_encoding,
            statistics,
            sha256: capture_digest(bytes),
        },
    )
}

/// The first capture of the given name, from `from` on.
pub open spec fn first_named(captures: Seq<SurfaceProvenance>, name: Seq<char>, from: int) -> Option<
    int,
>
    decreases captures.len() - from,
{
    if from >= captures.len() {
        None
    } else if captures[from].surface@ == name {
        Some(from)
    } else {
        first_named(captures, name, from + 1)
    }
}

fn find_capture(captures: &[SurfaceProvenance], name: &str) -> (result: Result<usize, Error>)
    ensures
        match result {
            Ok(index) => index < captures@.len() && first_named(captures@, name@, 0) == Some(
                index as int,
            ),
            Err(error) => first_named(captures@, name@, 0) is None && error@
                == "sky-object A/B capture omitted "@ + name@,
        },
{
    let mut i: usize = 0;
    while i < captures.len()
        invariant
            i <= captures@.len(),
            first_named(captures@, name@, 0) == first_named(captures@, name@, i as int),
        decreases captures@.len() - i,
    {
        if same_text(captures[i].surface.as_str(), name) {
            return Ok(i);
        }
        i = i + 1;
    }
    let mut message = "sky-object A/B capture omitted ".to_owned();
    message.append(name);
    Err(Error { message })
}

/// The captures that a comparison reads: colour and depth, before and after.
#[derive(Clone, Copy, Debug, PartialEq, Eq, Structural)]
pub struct ComparedCaptures {
    pub before_color: usize,
    pub after_color: usize,
    pub before_depth: usize,
    pub after_depth: usize,
}

pub open spec fn same_size(a: SurfaceProvenance, b: SurfaceProvenance) -> bool {
    a.width == b.width && a.height == b.height
}

/// Which captures a comparison reads, or why it cannot be made.
pub open spec fn captures_to_compare(
    before: Seq<SurfaceProvenance>,
    after: Seq<SurfaceProvenance>,
) -> Result<ComparedCaptures, Seq<char>> {
    let color = "shading_result"@;
    let depth = "gbuffer_depth"@;
    let omitted = "sky-object A/B capture omitted "@;
    match (first_named(before, color, 0), first_named(after, color, 0)) {
        (None, _) => Err(omitted + color),
        (_, None) => Err(omitted + color),
        (Some(before_color), Some(after_color)) => match (
            first_named(before, depth, 0),
            first_named(after, depth, 0),
        ) {
            (None, _) => Err(omitted + depth),
            (_, None) => Err(omitted + depth),
            (Some(before_depth), Some(after_depth)) => if !same_size(
                before[before_color],
                after[after_color],
            ) {
                Err("sky-object color capture dimensions changed during A/B"@)
            } else if !same_size(before[before_depth], after[after_depth]) {
                Err("sky-object depth capture dimensions changed during A/B"@)
            } else if !same_size(before[before_color], before[before_depth]) {
                Err("sky-object color and depth captures have different dimensions"@)
            } else {
                Ok(
                    ComparedCaptures {
                        before_color: before_color as usize,
                        after_color: after_color as usize,
                        before_depth: before_depth as usize,
                        after_depth: after_depth as usize,
                    },
                )
            },
        },
    }
}

fn sizes_match(a: &SurfaceProvenance, b: &SurfaceProvenance) -> (result: bool)
    ensures
        result == same_size(*a, *b),
{
    a.width == b.width && a.height == b.height
}

/// Find the captures that a comparison reads.
pub fn compared_captures(before: &[SurfaceProvenance], after: &[SurfaceProvenance]) -> (result:
    Result<ComparedCaptures, Error>)
    ensures
        match result {
            Ok(found) => captures_to_compare(before@, after@) == Ok::<ComparedCaptures, Seq<char>>(
                found,
            ) && found.before_color < before@.len() && found.before_depth < before@.len()
                && found.after_color < after@.len() && found.after_depth < after@.len(),
            Err(error) => captures_to_compare(before@, after@) == Err::<
                ComparedCaptures,
                Seq<char>,
            >(error@),
        },
{
    let before_color: usize = match find_capture(before, "shading_result") {
        Ok(index) => index,
        Err(error) => return Err(error),
    };
    let after_color: usize = match find_capture(after, "shading_result") {
        Ok(index) => index,
        Err(error) => return Err(error),
    };
    let before_depth: usize = match find_capture(before, "gbuffer_depth") {
        Ok(index) => index,
        Err(error) => return Err(error),
    };
    let after_depth: usize = match find_capture(after, "gbuffer_depth") {
        Ok(index) => index,
        Err(error) => return Err(error),
    };
    if !sizes_match(&before[before_color], &after[after_color]) {
        return Err(
            Error { message: "sky-object color capture dimensions changed during A/B".to_owned() },
        );
    }
    if !sizes_match(&before[before_depth], &after[after_depth]) {
        return Err(
            Error { message: "sky-object depth capture dimensions changed during A/B".to_owned() },
        );
    }
    if !sizes_match(&before[before_color], &before[before_depth]) {
        return Err(
            Error {
                message: "sky-object color and depth captures have different dimensions".to_owned(),
            },
        );
    }
    Ok(ComparedCaptures { before_color, after_color, before_depth, after_depth })
}


/// A depth is within one single-precision step of the clear depth, which is one
/// or zero.
pub open spec fn is_clear_depth(depth: Sample, clear_is_one: bool) -> bool {
    match depth {
        Sample::Unorm { value, max } => if clear_is_one {
            value == max
        } else {
            value == 0
        },
        Sample::Float { bits } => if clear_is_one {
            0x3f7f_fffe <= bits <= 0x3f80_0001
        } else {
            magnitude(bits) <= 0x3400_0000
        },
    }
}

/// Whether a depth is the clear depth.
pub fn clear_depth(depth: Sample, clear_is_one: bool) -> (result: bool)
    ensures
        result == is_clear_depth(depth, clear_is_one),
{
    match depth {
        Sample::Unorm { value, max } => if clear_is_one {
            value == max
        } else {
            value == 0
        },
        Sample::Float { bits } => if clear_is_one {
            bits >= 0x3f7f_fffe && bits <= 0x3f80_0001
        } else {
            magnitude_of(bits) <= 0x3400_0000
        },
    }
}

/// A sample changed: the difference of the two is not zero. Infinities and NaN
/// always count as changed.
pub open spec fn sample_changed(before: Sample, after: Sample) -> bool {
    !(before.is_finite_sample() && after.is_finite_sample() && before.equals(after))
}

/// A colour channel of a pixel changed.
pub open spec fn pixel_changed(before: Pixel, after: Pixel) -> bool {
    sample_changed(before.r, after.r) || sample_changed(before.g, after.g) || sample_changed(
        before.b,
        after.b,
    )
}

fn changed_sample(before: Sample, after: Sample) -> (result: bool)
    ensures
        result == sample_changed(before, after),
{
    !(before.finite() && after.finite() && before.same(after))
}

/// Whether a colour channel of a pixel changed.
pub fn changed_pixel(before: Pixel, after: Pixel) -> (result: bool)
    ensures
        result == pixel_changed(before, after),
{
    changed_sample(before.r, after.r) || changed_sample(before.g, after.g) || changed_sample(
        before.b,
        after.b,
    )
}

/// How many of the first `n` positions have a property.
pub open spec fn count_below(n: nat, property: spec_fn(int) -> bool) -> nat
    decreases n,
{
    if n == 0 {
        0
    } else {
        count_below((n - 1) as nat, property) + if property(n - 1) {
            1nat
        } else {
            0
        }
    }
}

/// How many depths are the clear depth.
pub open spec fn depth_count(depths: Seq<Pixel>, clear_is_one: bool) -> nat {
    count_below(depths.len(), |i: int| is_clear_depth(depths[i].r, clear_is_one))
}

/// Where two frames differ: in the pixels that no geometry covers, and in the
/// others.
#[derive(Clone, Copy, Debug, PartialEq, Eq, Structural)]
pub struct SkyObjectDomainDelta {
    /// The clear depth is one rather than zero.
    pub clear_is_one: bool,
    pub clear_depth_pixels: usize,
    pub geometry_pixels: usize,
    pub changed_clear_depth_pixels: usize,
    pub changed_geometry_pixels: usize,
    pub gbuffer_depth_byte_identical: bool,
}

/// The clear depth is the one of zero and one that more pixels hold; zero if
/// equally many do.
pub open spec fn clear_depth_is_one(depths: Seq<Pixel>) -> bool {
    depth_count(depths, false) < depth_count(depths, true)
}

/// The difference of two frames over the depth of the first.
pub open spec fn domain_delta(
    depths: Seq<Pixel>,
    before: Seq<Pixel>,
    after: Seq<Pixel>,
    depth_unchanged: bool,
) -> SkyObjectDomainDelta {
    let one = clear_depth_is_one(depths);
    let n = depths.len();
    SkyObjectDomainDelta {
        clear_is_one: one,
        clear_depth_pixels: count_below(n, |i: int| is_clear_depth(depths[i].r, one)) as usize,
        geometry_pixels: count_below(n, |i: int| !is_clear_depth(depths[i].r, one)) as usize,
        changed_clear_depth_pixels: count_below(
            n,
            |i: int| is_clear_depth(depths[i].r, one) && pixel_changed(before[i], after[i]),
        ) as usize,
        changed_geometry_pixels: count_below(
            n,
            |i: int| !is_clear_depth(depths[i].r, one) && pixel_changed(before[i], after[i]),
        ) as usize,
        gbuffer_depth_byte_identical: depth_unchanged,
    }
}

fn depth_pixel_count(depths: &Vec<Pixel>, clear_is_one: bool) -> (total: usize)
    ensures
        total == depth_count(depths@, clear_is_one),
{
    let ghost property = |i: int| is_clear_depth(depths@[i].r, clear_is_one);
    let mut total: usize = 0;
    let mut i: usize = 0;
    while i < depths.len()
        invariant
            i <= depths@.len(),
            total <= i,
            property == (|i: int| is_clear_depth(depths@[i].r, clear_is_one)),
            total == count_below(i as nat, property),
        decreases depths@.len() - i,
    {
        if clear_depth(depths[i].r, clear_is_one) {
            total = total + 1;
        }
        i = i + 1;
    }
    total
}

/// The difference of two decoded frames over the depth of the first.
pub fn pixel_domain_delta(
    depths: &Vec<Pixel>,
    before: &Vec<Pixel>,
    after: &Vec<Pixel>,
    depth_unchanged: bool,
) -> (delta: SkyObjectDomainDelta)
    requires
        before@.len() == depths@.len(),
        after@.len() == depths@.len(),
    ensures
        delta == domain_delta(depths@, before@, after@, depth_unchanged),
{
    let one: bool = depth_pixel_count(depths, false) < depth_pixel_count(depths, true);
    let ghost clear_property = |i: int| is_clear_depth(depths@[i].r, one);
    let ghost geometry_property = |i: int| !is_clear_depth(depths@[i].r, one);
    let ghost changed_clear_property = |i: int|
        is_clear_depth(depths@[i].r, one) && pixel_changed(before@[i], after@[i]);
    let ghost changed_geometry_property = |i: int|
        !is_clear_depth(depths@[i].r, one) && pixel_changed(before@[i], after@[i]);
    let mut clear_pixels: usize = 0;
    let mut geometry_pixels: usize = 0;
    let mut changed_clear: usize = 0;
    let mut changed_geometry: usize = 0;
    let mut i: usize = 0;
    while i < depths.len()
        invariant
            i <= depths@.len(),
            before@.len() == depths@.len(),
            after@.len() == depths@.len(),
            clear_property == (|i: int| is_clear_depth(depths@[i].r, one)),
            geometry_property == (|i: int| !is_clear_depth(depths@[i].r, one)),
            changed_clear_property == (|i: int|
                is_clear_depth(depths@[i].r, one) && pixel_changed(before@[i], after@[i])),
            changed_geometry_property == (|i: int|
                !is_clear_depth(depths@[i].r, one) && pixel_changed(before@[i], after@[i])),
            clear_pixels <= i,
            geometry_pixels <= i,
            changed_clear <= i,
            changed_geometry <= i,
            clear_pixels == count_below(i as nat, clear_property),
            geometry_pixels == count_below(i as nat, geometry_property),
            changed_clear == count_below(i as nat, changed_clear_property),
            changed_geometry == count_below(i as nat, changed_geometry_property),
        decreases depths@.len() - i,
    {
        let changed: bool = changed_pixel(before[i], after[i]);
        if clear_depth(depths[i].r, one) {
            clear_pixels = clear_pixels + 1;
            if changed {
                changed_clear = changed_clear + 1;
            }
        } else {
            geometry_pixels = geometry_pixels + 1;
            if changed {
                changed_geometry = changed_geometry + 1;
            }
        }
        i = i + 1;
    }
    SkyObjectDomainDelta {
        clear_is_one: one,
        clear_depth_pixels: clear_pixels,
        geometry_pixels,
        changed_clear_depth_pixels: changed_clear,
        changed_geometry_pixels: changed_geometry,
        gbuffer_depth_byte_identical: depth_unchanged,
    }
}

fn equal_bytes(a: &[u8], b: &[u8]) -> (result: bool)
    ensures
        result == (a@ == b@),
{
    if a.len() != b.len() {
        return false;
    }
    let mut i: usize = 0;
    while i < a.len()
        invariant
            i <= a@.len(),
            a@.len() == b@.len(),
            forall|j: int| 0 <= j < i ==> a@[j] == b@[j],
        decreases a@.len() - i,
    {
        if a[i] != b[i] {
            return false;
        }
        i = i + 1;
    }
    assert(a@ =~= b@);
    true
}

/// The raw bytes of the four captures that a comparison reads.
pub struct CapturedBytes<'a> {
    pub before_color: &'a [u8],
    pub after_color: &'a [u8],
    pub before_depth: &'a [u8],
    pub after_depth: &'a [u8],
}

/// The size of a capture in bytes.
pub open spec fn capture_size(record: SurfaceProvenance, format: SurfaceFormat) -> int {
    record.width * record.height * format.pixel_size()
}

pub open spec fn unsupported(name: Seq<char>) -> Seq<char> {
    "unsupported sky-object A/B provenance format "@ + name
}

/// Why four captures cannot be compared.
pub open spec fn comparison_failure(
    before_color: SurfaceProvenance,
    after_color: SurfaceProvenance,
    before_depth: SurfaceProvenance,
    after_depth: SurfaceProvenance,
    bytes: CapturedBytes,
) -> Option<Seq<char>> {
    match (
        format_named(before_color.resource_format@),
        format_named(before_depth.resource_format@),
    ) {
        (None, _) => Some(unsupported(before_color.resource_format@)),
        (_, None) => Some(unsupported(before_depth.resource_format@)),
        (Some(color), Some(depth)) => if format_named(after_color.resource_format@) is None {
            Some(unsupported(after_color.resource_format@))
        } else if format_named(after_color.resource_format@) != Some(color) {
            Some("sky-object color capture format changed during A/B"@)
        } else if format_named(after_depth.resource_format@) is None {
            Some(unsupported(after_depth.resource_format@))
        } else if format_named(after_depth.resource_format@) != Some(depth) {
            Some("sky-object depth capture format changed during A/B"@)
        } else if bytes.before_color@.len() != capture_size(before_color, color)
            || bytes.after_color@.len() != capture_size(before_color, color)
            || bytes.before_depth@.len() != capture_size(before_color, depth)
            || bytes.after_depth@.len() != capture_size(before_color, depth) {
            Some("sky-object A/B capture byte count does not match its dimensions"@)
        } else {
            None
        },
    }
}

/// The difference of two frames, from their colour and depth captures.
pub fn sky_object_domain_delta(
    before_color: &SurfaceProvenance,
    after_color: &SurfaceProvenance,
    before_depth: &SurfaceProvenance,
    after_depth: &SurfaceProvenance,
    bytes: &CapturedBytes,
) -> (result: Result<SkyObjectDomainDelta, Error>)
    ensures
        match result {
            Err(error) => comparison_failure(
                *before_color,
                *after_color,
                *before_depth,
                *after_depth,
                *bytes,
            ) == Some(error@),
            Ok(delta) => {
                let color = format_named(before_color.resource_format@)->Some_0;
                let depth = format_named(before_depth.resource_format@)->Some_0;
                &&& comparison_failure(
                    *before_color,
                    *after_color,
                    *before_depth,
                    *after_depth,
                    *bytes,
                ) is None
                &&& delta == domain_delta(
                    surface_pixels(depth, bytes.before_depth@),
                    surface_pixels(color, bytes.before_color@),
                    surface_pixels(color, bytes.after_color@),
                    bytes.before_depth@ == bytes.after_depth@,
                )
            },
        },
{
    let color = match provenance_format(before_color.resource_format.as_str()) {
        Ok(format) => format,
        Err(error) => return Err(error),
    };
    let depth = match provenance_format(before_depth.resource_format.as_str()) {
        Ok(format) => format,
        Err(error) => return Err(error),
    };
    let later_color = match provenance_format(after_color.resource_format.as_str()) {
        Ok(format) => format,
        Err(error) => return Err(error),
    };
    if color != later_color {
        return Err(
            Error { message: "sky-object color capture format changed during A/B".to_owned() },
        );
    }
    let later_depth = match provenance_format(after_depth.resource_format.as_str()) {
        Ok(format) => format,
        Err(error) => return Err(error),
    };
    if depth != later_depth {
        return Err(
            Error { message: "sky-object depth capture format changed during A/B".to_owned() },
        );
    }
    let color_size: usize = bytes_per_pixel(color);
    let depth_size: usize = bytes_per_pixel(depth);
    assert(before_color.width * before_color.height <= 0xffff_fffe_0000_0001)
        by (nonlinear_arith)
        requires
            before_color.width <= 0xffff_ffff,
            before_color.height <= 0xffff_ffff,
    ;
    let pixel_count: u128 = before_color.width as u128 * before_color.height as u128;
    assert(0 <= pixel_count * color_size <= 8 * 0xffff_fffe_0000_0001 && 0 <= pixel_count
        * depth_size <= 8 * 0xffff_fffe_0000_0001) by (nonlinear_arith)
        requires
            0 <= pixel_count <= 0xffff_fffe_0000_0001,
            0 <= color_size <= 8,
            0 <= depth_size <= 8,
    ;
    let color_bytes: u128 = pixel_count * color_size as u128;
    let depth_bytes: u128 = pixel_count * depth_size as u128;
    if bytes.before_color.len() as u128 != color_bytes || bytes.after_color.len() as u128
        != color_bytes || bytes.before_depth.len() as u128 != depth_bytes
        || bytes.after_depth.len() as u128 != depth_bytes {
        return Err(
            Error {
                message:
                    "sky-object A/B capture byte count does not match its dimensions".to_owned(),
            },
        );
    }
    proof {
        lemma_exact_quotient(pixel_count as int, color_size as int);
        lemma_exact_quotient(pixel_count as int, depth_size as int);
    }
    let depths = decode_surface(depth, bytes.before_depth);
    let before = decode_surface(color, bytes.before_color);
    let after = decode_surface(color, bytes.after_color);
    let unchanged: bool = equal_bytes(bytes.before_depth, bytes.after_depth);
    Ok(pixel_domain_delta(&depths, &before, &after, unchanged))
}

proof fn lemma_exact_quotient(n: int, d: int)
    by (nonlinear_arith)
    requires
        n >= 0,
        d > 0,
    ensures
        (n * d) / d == n,
{
}

/// Every pixel lies in one of the two domains, and no domain has more changed
/// pixels than pixels.
pub proof fn law_domains_partition(
    depths: Seq<Pixel>,
    before: Seq<Pixel>,
    after: Seq<Pixel>,
    one: bool,
    n: nat,
)
    ensures
        count_below(n, |i: int| is_clear_depth(depths[i].r, one)) + count_below(
            n,
            |i: int| !is_clear_depth(depths[i].r, one),
        ) == n,
        count_below(
            n,
            |i: int| is_clear_depth(depths[i].r, one) && pixel_changed(before[i], after[i]),
        ) <= count_below(n, |i: int| is_clear_depth(depths[i].r, one)),
        count_below(
            n,
            |i: int| !is_clear_depth(depths[i].r, one) && pixel_changed(before[i], after[i]),
        ) <= count_below(n, |i: int| !is_clear_depth(depths[i].r, one)),
    decreases n,
{
    if n > 0 {
        law_domains_partition(depths, before, after, one, (n - 1) as nat);
    }
}

proof fn lemma_no_change(pixels: Seq<Pixel>, depths: Seq<Pixel>, one: bool, n: nat)
    requires
        n <= pixels.len(),
        forall|i: int| 0 <= i < pixels.len() ==> (#[trigger] pixels[i]).rgb_finite(),
    ensures
        count_below(
            n,
            |i: int| is_clear_depth(depths[i].r, one) && pixel_changed(pixels[i], pixels[i]),
        ) == 0,
        count_below(
            n,
            |i: int| !is_clear_depth(depths[i].r, one) && pixel_changed(pixels[i], pixels[i]),
        ) == 0,
    decreases n,
{
    if n > 0 {
        lemma_no_change(pixels, depths, one, (n - 1) as nat);
        assert(pixels[n - 1].rgb_finite());
    }
}

/// A finite frame does not differ from itself in either domain.
pub proof fn law_a_frame_does_not_differ_from_itself(pixels: Seq<Pixel>, depths: Seq<Pixel>)
    requires
        depths.len() == pixels.len(),
        forall|i: int| 0 <= i < pixels.len() ==> (#[trigger] pixels[i]).rgb_finite(),
    ensures
        domain_delta(depths, pixels, pixels, true).changed_clear_depth_pixels == 0,
        domain_delta(depths, pixels, pixels, true).changed_geometry_pixels == 0,
{
    lemma_no_change(pixels, depths, clear_depth_is_one(depths), depths.len());
}

/// Packing keeps every byte of every row and drops what lies between the rows.
pub proof fn law_packing_keeps_every_row(
    mapped: Seq<u8>,
    pitch: nat,
    width: nat,
    rows: nat,
    row: nat,
    column: nat,
)
    requires
        row < rows,
        column < width <= pitch,
        (rows - 1) * pitch + width <= mapped.len(),
    ensures
        packed_rows(mapped, pitch, width, rows).len() == rows * width,
        row * width + column < rows * width,
        packed_rows(mapped, pitch, width, rows)[(row * width + column) as int] == mapped[(row * pitch
            + column) as int],
    decreases rows,
{
    let last = (rows - 1) as nat;
    assert((last - 1) * pitch + pitch == last * pitch) by (nonlinear_arith);
    lemma_packed_length(mapped, pitch, width, rows);
    lemma_packed_length(mapped, pitch, width, last);
    assert(row * width + column < rows * width) by (nonlinear_arith)
        requires
            row < rows,
            column < width,
    ;
    if row < last {
        law_packing_keeps_every_row(mapped, pitch, width, last, row, column);
    } else {
        assert(row * width == last * width);
        assert(row * pitch == last * pitch);
    }
}

proof fn lemma_packed_length(mapped: Seq<u8>, pitch: nat, width: nat, rows: nat)
    requires
        rows > 0 ==> (rows - 1) * pitch + width <= mapped.len(),
        width <= pitch,
    ensures
        packed_rows(mapped, pitch, width, rows).len() == rows * width,
    decreases rows,
{
    if rows > 0 {
        let last = (rows - 1) as nat;
        assert(last * width + width == rows * width) by (nonlinear_arith)
            requires
                rows == last + 1,
        ;
        assert(0 <= last * pitch) by (nonlinear_arith);
        if last > 0 {
            assert((last - 1) * pitch + pitch == last * pitch) by (nonlinear_arith);
        }
        lemma_packed_length(mapped, pitch, width, last);
    } else {
        assert(0 * width == 0);
    }
}

proof fn lemma_count_below(n: nat, property: spec_fn(int) -> bool)
    ensures
        count_below(n, property) <= n,
    decreases n,
{
    if n > 0 {
        lemma_count_below((n - 1) as nat, property);
    }
}

/// The depth that a frame was cleared to is the one of zero and one that more pixels have, and
/// zero where neither has more. The pixels of that depth are the clear ones, and all others show
/// geometry.
pub proof fn law_the_clear_depth_is_the_common_one(
    depths: Seq<Pixel>,
    before: Seq<Pixel>,
    after: Seq<Pixel>,
    depth_unchanged: bool,
)
    requires
        depths.len() <= usize::MAX,
    ensures
        ({
            let delta = domain_delta(depths, before, after, depth_unchanged);
            let zeros = depth_count(depths, false);
            let ones = depth_count(depths, true);
            &&& delta.clear_is_one <==> ones > zeros
            &&& delta.clear_depth_pixels == if ones > zeros {
                ones
            } else {
                zeros
            }
            &&& delta.clear_depth_pixels + delta.geometry_pixels == depths.len()
            &&& delta.changed_clear_depth_pixels <= delta.clear_depth_pixels
            &&& delta.changed_geometry_pixels <= delta.geometry_pixels
            &&& delta.changed_clear_depth_pixels + delta.changed_geometry_pixels == count_below(
                depths.len(),
                |i: int| pixel_changed(before[i], after[i]),
            )
            &&& delta.gbuffer_depth_byte_identical == depth_unchanged
        }),
{
    let one = clear_depth_is_one(depths);
    let n = depths.len();
    law_domains_partition(depths, before, after, one, n);
    lemma_changes_partition(depths, before, after, one, n);
    lemma_count_below(n, |i: int| is_clear_depth(depths[i].r, one));
    lemma_count_below(n, |i: int| !is_clear_depth(depths[i].r, one));
}

proof fn lemma_changes_partition(
    depths: Seq<Pixel>,
    before: Seq<Pixel>,
    after: Seq<Pixel>,
    one: bool,
    n: nat,
)
    ensures
        count_below(
            n,
            |i: int| is_clear_depth(depths[i].r, one) && pixel_changed(before[i], after[i]),
        ) + count_below(
            n,
            |i: int| !is_clear_depth(depths[i].r, one) && pixel_changed(before[i], after[i]),
        ) == count_below(n, |i: int| pixel_changed(before[i], after[i])),
    decreases n,
{
    if n > 0 {
        lemma_changes_partition(depths, before, after, one, (n - 1) as nat);
    }
}

/// The captures that are compared are the first of their names, shading result with shading result
/// and depth with depth, and all four are of one size.
pub proof fn law_compared_captures_are_alike(
    before: Seq<SurfaceProvenance>,
    after: Seq<SurfaceProvenance>,
)
    requires
        before.len() <= usize::MAX,
        after.len() <= usize::MAX,
        captures_to_compare(before, after) is Ok,
    ensures
        ({
            let chosen = captures_to_compare(before, after)->Ok_0;
            let old_color = before[chosen.before_color as int];
            let new_color = after[chosen.after_color as int];
            let old_depth = before[chosen.before_depth as int];
            let new_depth = after[chosen.after_depth as int];
            &&& old_color.surface@ == "shading_result"@
            &&& new_color.surface@ == "shading_result"@
            &&& old_depth.surface@ == "gbuffer_depth"@
            &&& new_depth.surface@ == "gbuffer_depth"@
            &&& forall|i: int|
                0 <= i < chosen.before_color ==> (#[trigger] before[i]).surface@
                    != "shading_result"@
            &&& forall|i: int|
                0 <= i < chosen.after_depth ==> (#[trigger] after[i]).surface@ != "gbuffer_depth"@
            &&& old_color.width == new_color.width && old_color.height == new_color.height
            &&& old_depth.width == new_depth.width && old_depth.height == new_depth.height
            &&& old_color.width == old_depth.width && old_color.height == old_depth.height
        }),
{
    lemma_first_named(before, "shading_result"@, 0);
    lemma_first_named(after, "shading_result"@, 0);
    lemma_first_named(before, "gbuffer_depth"@, 0);
    lemma_first_named(after, "gbuffer_depth"@, 0);
}

proof fn lemma_first_named(captures: Seq<SurfaceProvenance>, name: Seq<char>, from: int)
    requires
        0 <= from,
    ensures
        first_named(captures, name, from) matches Some(at) ==> {
            &&& from <= at < captures.len()
            &&& captures[at].surface@ == name
            &&& forall|i: int| from <= i < at ==> (#[trigger] captures[i]).surface@ != name
        },
    decreases captures.len() - from,
{
    if from < captures.len() && captures[from].surface@ != name {
        lemma_first_named(captures, name, from + 1);
    }
}

} // verus!
