//! Captured surfaces: pixel decoding and exact statistics.

use crate::bytes::{get_le_u16, get_le_u32, le_u16, le_u32};
use crate::single::{
    decode_f16, decode_unsigned_float, encode_unsigned_float, equal_floats, finite, half_to_single,
    is_finite, is_nan, key_of, magnitude, mantissa_scale, nan, order_key, same_float,
    small_float_bits, small_float_code, ONE, SIGN,
};
use crate::text::{same_text, Error};
use vstd::arithmetic::power2::{lemma2_to64, lemma_pow2_strictly_increases, lemma_pow2_unfold, pow2};
use vstd::prelude::*;

verus! {

/// The formats whose pixels can be decoded.
#[derive(Clone, Copy, Debug, PartialEq, Eq, Structural)]
pub enum SurfaceFormat {
    R8g8Typeless,
    R8g8Unorm,
    R8g8b8a8Typeless,
    R8g8b8a8Unorm,
    R8g8b8a8UnormSrgb,
    R10g10b10a2Typeless,
    R10g10b10a2Unorm,
    R11g11b10Float,
    R16g16b16a16Typeless,
    R16g16b16a16Float,
    R32Typeless,
    R32g8x24Typeless,
}

/// How the pixels of a format are laid out.
#[derive(Clone, Copy, Debug, PartialEq, Eq, Structural)]
pub enum PixelLayout {
    TwoBytes,
    FourBytes,
    TenTenTenTwo,
    ElevenElevenTen,
    FourHalves,
    Depth,
    DepthStencil,
}

impl SurfaceFormat {
    /// The format's name.
    pub open spec fn label(self) -> Seq<char> {
        match self {
            SurfaceFormat::R8g8Typeless => "R8g8Typeless"@,
            SurfaceFormat::R8g8Unorm => "R8g8Unorm"@,
            SurfaceFormat::R8g8b8a8Typeless => "R8g8b8a8Typeless"@,
            SurfaceFormat::R8g8b8a8Unorm => "R8g8b8a8Unorm"@,
            SurfaceFormat::R8g8b8a8UnormSrgb => "R8g8b8a8UnormSrgb"@,
            SurfaceFormat::R10g10b10a2Typeless => "R10g10b10a2Typeless"@,
            SurfaceFormat::R10g10b10a2Unorm => "R10g10b10a2Unorm"@,
            SurfaceFormat::R11g11b10Float => "R11g11b10Float"@,
            SurfaceFormat::R16g16b16a16Typeless => "R16g16b16a16Typeless"@,
            SurfaceFormat::R16g16b16a16Float => "R16g16b16a16Float"@,
            SurfaceFormat::R32Typeless => "R32Typeless"@,
            SurfaceFormat::R32g8x24Typeless => "R32g8x24Typeless"@,
        }
    }

    pub open spec fn layout(self) -> PixelLayout {
        match self {
            SurfaceFormat::R8g8Typeless | SurfaceFormat::R8g8Unorm => PixelLayout::TwoBytes,
            SurfaceFormat::R8g8b8a8Typeless
            | SurfaceFormat::R8g8b8a8Unorm
            | SurfaceFormat::R8g8b8a8UnormSrgb => PixelLayout::FourBytes,
            SurfaceFormat::R10g10b10a2Typeless
            | SurfaceFormat::R10g10b10a2Unorm => PixelLayout::TenTenTenTwo,
            SurfaceFormat::R11g11b10Float => PixelLayout::ElevenElevenTen,
            SurfaceFormat::R16g16b16a16Typeless
            | SurfaceFormat::R16g16b16a16Float => PixelLayout::FourHalves,
            SurfaceFormat::R32Typeless => PixelLayout::Depth,
            SurfaceFormat::R32g8x24Typeless => PixelLayout::DepthStencil,
        }
    }

    /// Bytes of one pixel.
    pub open spec fn pixel_size(self) -> usize {
        match self.layout() {
            PixelLayout::TwoBytes => 2,
            PixelLayout::FourHalves | PixelLayout::DepthStencil => 8,
            _ => 4,
        }
    }

    pub open spec fn has_alpha(self) -> bool {
        match self.layout() {
            PixelLayout::FourBytes | PixelLayout::TenTenTenTwo | PixelLayout::FourHalves => true,
            _ => false,
        }
    }

    pub fn name(self) -> (text: &'static str)
        ensures
            text@ == self.label(),
    {
        match self {
            SurfaceFormat::R8g8Typeless => "R8g8Typeless",
            SurfaceFormat::R8g8Unorm => "R8g8Unorm",
            SurfaceFormat::R8g8b8a8Typeless => "R8g8b8a8Typeless",
            SurfaceFormat::R8g8b8a8Unorm => "R8g8b8a8Unorm",
            SurfaceFormat::R8g8b8a8UnormSrgb => "R8g8b8a8UnormSrgb",
            SurfaceFormat::R10g10b10a2Typeless => "R10g10b10a2Typeless",
            SurfaceFormat::R10g10b10a2Unorm => "R10g10b10a2Unorm",
            SurfaceFormat::R11g11b10Float => "R11g11b10Float",
            SurfaceFormat::R16g16b16a16Typeless => "R16g16b16a16Typeless",
            SurfaceFormat::R16g16b16a16Float => "R16g16b16a16Float",
            SurfaceFormat::R32Typeless => "R32Typeless",
            SurfaceFormat::R32g8x24Typeless => "R32g8x24Typeless",
        }
    }
}

/// The format of the given name.
pub open spec fn format_named(name: Seq<char>) -> Option<SurfaceFormat> {
    if name == "R8g8Typeless"@ {
        Some(SurfaceFormat::R8g8Typeless)
    } else if name == "R8g8Unorm"@ {
        Some(SurfaceFormat::R8g8Unorm)
    } else if name == "R8g8b8a8Typeless"@ {
        Some(SurfaceFormat::R8g8b8a8Typeless)
    } else if name == "R8g8b8a8Unorm"@ {
        Some(SurfaceFormat::R8g8b8a8Unorm)
    } else if name == "R8g8b8a8UnormSrgb"@ {
        Some(SurfaceFormat::R8g8b8a8UnormSrgb)
    } else if name == "R10g10b10a2Typeless"@ {
        Some(SurfaceFormat::R10g10b10a2Typeless)
    } else if name == "R10g10b10a2Unorm"@ {
        Some(SurfaceFormat::R10g10b10a2Unorm)
    } else if name == "R11g11b10Float"@ {
        Some(SurfaceFormat::R11g11b10Float)
    } else if name == "R16g16b16a16Typeless"@ {
        Some(SurfaceFormat::R16g16b16a16Typeless)
    } else if name == "R16g16b16a16Float"@ {
        Some(SurfaceFormat::R16g16b16a16Float)
    } else if name == "R32Typeless"@ {
        Some(SurfaceFormat::R32Typeless)
    } else if name == "R32g8x24Typeless"@ {
        Some(SurfaceFormat::R32g8x24Typeless)
    } else {
        None
    }
}

fn find_format(name: &str) -> (format: Option<SurfaceFormat>)
    ensures
        format == format_named(name@),
{
    if same_text(name, "R8g8Typeless") {
        Some(SurfaceFormat::R8g8Typeless)
    } else if same_text(name, "R8g8Unorm") {
        Some(SurfaceFormat::R8g8Unorm)
    } else if same_text(name, "R8g8b8a8Typeless") {
        Some(SurfaceFormat::R8g8b8a8Typeless)
    } else if same_text(name, "R8g8b8a8Unorm") {
        Some(SurfaceFormat::R8g8b8a8Unorm)
    } else if same_text(name, "R8g8b8a8UnormSrgb") {
        Some(SurfaceFormat::R8g8b8a8UnormSrgb)
    } else if same_text(name, "R10g10b10a2Typeless") {
        Some(SurfaceFormat::R10g10b10a2Typeless)
    } else if same_text(name, "R10g10b10a2Unorm") {
        Some(SurfaceFormat::R10g10b10a2Unorm)
    } else if same_text(name, "R11g11b10Float") {
        Some(SurfaceFormat::R11g11b10Float)
    } else if same_text(name, "R16g16b16a16Typeless") {
        Some(SurfaceFormat::R16g16b16a16Typeless)
    } else if same_text(name, "R16g16b16a16Float") {
        Some(SurfaceFormat::R16g16b16a16Float)
    } else if same_text(name, "R32Typeless") {
        Some(SurfaceFormat::R32Typeless)
    } else if same_text(name, "R32g8x24Typeless") {
        Some(SurfaceFormat::R32g8x24Typeless)
    } else {
        None
    }
}

/// The format that a captured surface records by name.
pub fn provenance_format(name: &str) -> (result: Result<SurfaceFormat, Error>)
    ensures
        match result {
            Ok(format) => format_named(name@) == Some(format),
            Err(error) => format_named(name@) is None && error@
                == "unsupported sky-object A/B provenance format "@ + name@,
        },
{
    match find_format(name) {
        Some(format) => Ok(format),
        None => {
            let mut message = "unsupported sky-object A/B provenance format ".to_owned();
            message.append(name);
            Err(Error { message })
        },
    }
}

/// The format of a surface that is about to be captured.
pub fn capture_format(name: &str) -> (result: Result<SurfaceFormat, Error>)
    ensures
        match result {
            Ok(format) => format_named(name@) == Some(format),
            Err(error) => format_named(name@) is None && error@ == "Unsupported provenance format "@
                + name@,
        },
{
    match find_format(name) {
        Some(format) => Ok(format),
        None => {
            let mut message = "Unsupported provenance format ".to_owned();
            message.append(name);
            Err(Error { message })
        },
    }
}

fn layout_of(format: SurfaceFormat) -> (layout: PixelLayout)
    ensures
        layout == format.layout(),
{
    match format {
        SurfaceFormat::R8g8Typeless | SurfaceFormat::R8g8Unorm => PixelLayout::TwoBytes,
        SurfaceFormat::R8g8b8a8Typeless
        | SurfaceFormat::R8g8b8a8Unorm
        | SurfaceFormat::R8g8b8a8UnormSrgb => PixelLayout::FourBytes,
        SurfaceFormat::R10g10b10a2Typeless
        | SurfaceFormat::R10g10b10a2Unorm => PixelLayout::TenTenTenTwo,
        SurfaceFormat::R11g11b10Float => PixelLayout::ElevenElevenTen,
        SurfaceFormat::R16g16b16a16Typeless
        | SurfaceFormat::R16g16b16a16Float => PixelLayout::FourHalves,
        SurfaceFormat::R32Typeless => PixelLayout::Depth,
        SurfaceFormat::R32g8x24Typeless => PixelLayout::DepthStencil,
    }
}

/// Bytes of one pixel.
pub fn bytes_per_pixel(format: SurfaceFormat) -> (size: usize)
    ensures
        size == format.pixel_size(),
{
    match layout_of(format) {
        PixelLayout::TwoBytes => 2,
        PixelLayout::FourHalves | PixelLayout::DepthStencil => 8,
        _ => 4,
    }
}

/// Whether the fourth channel of a format is an alpha channel.
pub fn format_has_alpha(format: SurfaceFormat) -> (result: bool)
    ensures
        result == format.has_alpha(),
{
    match layout_of(format) {
        PixelLayout::FourBytes | PixelLayout::TenTenTenTwo | PixelLayout::FourHalves => true,
        _ => false,
    }
}

/// One channel of a pixel: a fraction of `max`, or a float pattern.
#[derive(Clone, Copy, Debug, PartialEq, Eq, Structural)]
pub enum Sample {
    Unorm { value: u32, max: u32 },
    Float { bits: u32 },
}

impl Sample {
    pub open spec fn is_finite_sample(self) -> bool {
        match self {
            Sample::Unorm { .. } => true,
            Sample::Float { bits } => is_finite(bits),
        }
    }

    /// The sample is not zero.
    pub open spec fn is_nonzero(self) -> bool {
        match self {
            Sample::Unorm { value, .. } => value != 0,
            Sample::Float { bits } => magnitude(bits) != 0,
        }
    }

    /// The sample is one or more.
    pub open spec fn is_saturated(self) -> bool {
        match self {
            Sample::Unorm { value, max } => value >= max,
            Sample::Float { bits } => ONE <= bits <= 0x7f80_0000,
        }
    }

    /// An integer that orders the finite samples of one channel.
    pub open spec fn key(self) -> int {
        match self {
            Sample::Unorm { value, .. } => value as int,
            Sample::Float { bits } => order_key(bits),
        }
    }

    /// The samples compare equal. A fraction never equals a float pattern: a
    /// channel only holds both where one of them is NaN.
    pub open spec fn equals(self, other: Sample) -> bool {
        match (self, other) {
            (
                Sample::Unorm { value, .. },
                Sample::Unorm { value: other_value, .. },
            ) => value == other_value,
            (Sample::Float { bits }, Sample::Float { bits: other_bits }) => same_float(
                bits,
                other_bits,
            ),
            _ => false,
        }
    }

    pub fn finite(self) -> (result: bool)
        ensures
            result == self.is_finite_sample(),
    {
        match self {
            Sample::Unorm { .. } => true,
            Sample::Float { bits } => finite(bits),
        }
    }

    pub fn nonzero(self) -> (result: bool)
        ensures
            result == self.is_nonzero(),
    {
        match self {
            Sample::Unorm { value, .. } => value != 0,
            Sample::Float { bits } => bits != 0 && bits != SIGN,
        }
    }

    pub fn saturated(self) -> (result: bool)
        ensures
            result == self.is_saturated(),
    {
        match self {
            Sample::Unorm { value, max } => value >= max,
            Sample::Float { bits } => bits >= ONE && bits <= 0x7f80_0000,
        }
    }

    pub fn order(self) -> (key: i64)
        ensures
            key == self.key(),
    {
        match self {
            Sample::Unorm { value, .. } => value as i64,
            Sample::Float { bits } => key_of(bits),
        }
    }

    pub fn same(self, other: Sample) -> (result: bool)
        ensures
            result == self.equals(other),
    {
        match self {
            Sample::Unorm { value, .. } => match other {
                Sample::Unorm { value: other_value, .. } => value == other_value,
                Sample::Float { .. } => false,
            },
            Sample::Float { bits } => match other {
                Sample::Unorm { .. } => false,
                Sample::Float { bits: other_bits } => equal_floats(bits, other_bits),
            },
        }
    }
}

/// A decoded pixel.
#[derive(Clone, Copy, Debug, PartialEq, Eq, Structural)]
pub struct Pixel {
    pub r: Sample,
    pub g: Sample,
    pub b: Sample,
    pub a: Sample,
}

pub open spec fn unorm(value: int, max: u32) -> Sample {
    Sample::Unorm { value: value as u32, max }
}

pub open spec fn float(bits: u32) -> Sample {
    Sample::Float { bits }
}

/// The pixel stored at `at`.
pub open spec fn pixel_at(format: SurfaceFormat, bytes: Seq<u8>, at: int) -> Pixel {
    let packed = le_u32(bytes, at) as int;
    match format.layout() {
        PixelLayout::TwoBytes => Pixel {
            r: unorm(bytes[at] as int, 255),
            g: unorm(bytes[at + 1] as int, 255),
            b: float(0),
            a: float(0),
        },
        PixelLayout::FourBytes => Pixel {
            r: unorm(bytes[at] as int, 255),
            g: unorm(bytes[at + 1] as int, 255),
            b: unorm(bytes[at + 2] as int, 255),
            a: unorm(bytes[at + 3] as int, 255),
        },
        PixelLayout::TenTenTenTwo => Pixel {
            r: unorm(packed % 0x400, 1023),
            g: unorm(packed / 0x400 % 0x400, 1023),
            b: unorm(packed / 0x10_0000 % 0x400, 1023),
            a: unorm(packed / 0x4000_0000, 3),
        },
        PixelLayout::ElevenElevenTen => Pixel {
            r: float(small_float_bits((packed % 0x800) as nat, 64)),
            g: float(small_float_bits((packed / 0x800 % 0x800) as nat, 64)),
            b: float(small_float_bits((packed / 0x40_0000) as nat, 32)),
            a: float(0),
        },
        PixelLayout::FourHalves => Pixel {
            r: float(half_to_single(le_u16(bytes, at))),
            g: float(half_to_single(le_u16(bytes, at + 2))),
            b: float(half_to_single(le_u16(bytes, at + 4))),
            a: float(half_to_single(le_u16(bytes, at + 6))),
        },
        PixelLayout::Depth | PixelLayout::DepthStencil => Pixel {
            r: float(le_u32(bytes, at)),
            g: float(le_u32(bytes, at)),
            b: float(le_u32(bytes, at)),
            a: float(0),
        },
    }
}

fn pixel_from(format: SurfaceFormat, bytes: &[u8], at: usize) -> (pixel: Pixel)
    requires
        at + format.pixel_size() <= bytes@.len(),
    ensures
        pixel == pixel_at(format, bytes@, at as int),
{
    let length: usize = bytes.len();
    match layout_of(format) {
        PixelLayout::TwoBytes => Pixel {
            r: Sample::Unorm { value: bytes[at] as u32, max: 255 },
            g: Sample::Unorm { value: bytes[at + 1] as u32, max: 255 },
            b: Sample::Float { bits: 0 },
            a: Sample::Float { bits: 0 },
        },
        PixelLayout::FourBytes => Pixel {
            r: Sample::Unorm { value: bytes[at] as u32, max: 255 },
            g: Sample::Unorm { value: bytes[at + 1] as u32, max: 255 },
            b: Sample::Unorm { value: bytes[at + 2] as u32, max: 255 },
            a: Sample::Unorm { value: bytes[at + 3] as u32, max: 255 },
        },
        PixelLayout::TenTenTenTwo => {
            let packed: u32 = get_le_u32(bytes, at);
            Pixel {
                r: Sample::Unorm { value: packed % 0x400, max: 1023 },
                g: Sample::Unorm { value: packed / 0x400 % 0x400, max: 1023 },
                b: Sample::Unorm { value: packed / 0x10_0000 % 0x400, max: 1023 },
                a: Sample::Unorm { value: packed / 0x4000_0000, max: 3 },
            }
        },
        PixelLayout::ElevenElevenTen => {
            let packed: u32 = get_le_u32(bytes, at);
            Pixel {
                r: Sample::Float { bits: decode_unsigned_float(packed % 0x800, 6) },
                g: Sample::Float { bits: decode_unsigned_float(packed / 0x800 % 0x800, 6) },
                b: Sample::Float { bits: decode_unsigned_float(packed / 0x40_0000, 5) },
                a: Sample::Float { bits: 0 },
            }
        },
        PixelLayout::FourHalves => Pixel {
            r: Sample::Float { bits: decode_f16(get_le_u16(bytes, at)) },
            g: Sample::Float { bits: decode_f16(get_le_u16(bytes, at + 2)) },
            b: Sample::Float { bits: decode_f16(get_le_u16(bytes, at + 4)) },
            a: Sample::Float { bits: decode_f16(get_le_u16(bytes, at + 6)) },
        },
        PixelLayout::Depth | PixelLayout::DepthStencil => {
            let depth = Sample::Float { bits: get_le_u32(bytes, at) };
            Pixel { r: depth, g: depth, b: depth, a: Sample::Float { bits: 0 } }
        },
    }
}

/// Decode one pixel.
pub fn decode_pixel(format: SurfaceFormat, bytes: &[u8]) -> (pixel: Pixel)
    requires
        bytes@.len() >= format.pixel_size(),
    ensures
        pixel == pixel_at(format, bytes@, 0),
{
    pixel_from(format, bytes, 0)
}


/// All pixels of a tightly packed surface.
pub open spec fn surface_pixels(format: SurfaceFormat, bytes: Seq<u8>) -> Seq<Pixel> {
    Seq::new(
        bytes.len() / format.pixel_size() as nat,
        |i: int| pixel_at(format, bytes, i * format.pixel_size()),
    )
}

/// Decode all pixels of a tightly packed surface.
pub fn decode_surface(format: SurfaceFormat, bytes: &[u8]) -> (pixels: Vec<Pixel>)
    ensures
        pixels@ == surface_pixels(format, bytes@),
{
    let size: usize = bytes_per_pixel(format);
    let count: usize = bytes.len() / size;
    let mut pixels: Vec<Pixel> = Vec::new();
    let mut i: usize = 0;
    while i < count
        invariant
            i <= count,
            size == format.pixel_size(),
            count == bytes@.len() / size as nat,
            pixels@ == surface_pixels(format, bytes@).take(i as int),
        decreases count - i,
    {
        proof {
            lemma_pixel_inside(i as int, count as int, size as int, bytes@.len() as int);
        }
        let length: usize = bytes.len();
        pixels.push(pixel_from(format, bytes, i * size));
        i = i + 1;
        assert(pixels@ =~= surface_pixels(format, bytes@).take(i as int));
    }
    assert(pixels@ =~= surface_pixels(format, bytes@));
    pixels
}

proof fn lemma_pixel_inside(i: int, count: int, size: int, length: int)
    by (nonlinear_arith)
    requires
        0 <= i < count,
        size > 0,
        length >= 0,
        count == length / size,
    ensures
        0 <= i * size,
        i * size + size <= length,
{
}

/// How many pixels have a property.
pub open spec fn count(pixels: Seq<Pixel>, property: spec_fn(Pixel) -> bool) -> nat
    decreases pixels.len(),
{
    if pixels.len() == 0 {
        0
    } else {
        count(pixels.drop_last(), property) + if property(pixels.last()) {
            1nat
        } else {
            0
        }
    }
}

impl Pixel {
    pub open spec fn rgb_finite(self) -> bool {
        self.r.is_finite_sample() && self.g.is_finite_sample() && self.b.is_finite_sample()
    }

    /// A colour channel is finite and not zero.
    pub open spec fn rgb_nonzero(self) -> bool {
        (self.r.is_finite_sample() && self.r.is_nonzero()) || (self.g.is_finite_sample()
            && self.g.is_nonzero()) || (self.b.is_finite_sample() && self.b.is_nonzero())
    }

    /// A colour channel is not finite, or is one or more.
    pub open spec fn rgb_clipped(self) -> bool {
        !self.rgb_finite() || self.r.is_saturated() || self.g.is_saturated()
            || self.b.is_saturated()
    }

    pub open spec fn alpha_nonzero(self) -> bool {
        self.a.is_finite_sample() && self.a.is_nonzero()
    }

    /// A colour channel differs from the cleared one.
    pub open spec fn differs_from(self, clear: ClearColor) -> bool {
        !(self.r.equals(clear.r) && self.g.equals(clear.g) && self.b.equals(clear.b))
    }

    pub open spec fn channel(self, index: int) -> Sample {
        if index == 0 {
            self.r
        } else if index == 1 {
            self.g
        } else {
            self.b
        }
    }
}

/// A cleared pixel as a format stores it.
#[derive(Clone, Copy, Debug, PartialEq, Eq, Structural)]
pub struct ClearColor {
    pub r: Sample,
    pub g: Sample,
    pub b: Sample,
}

/// `n / d` to the nearest integer, ties to even.
pub open spec fn nearest_even(n: nat, d: nat) -> nat {
    let quotient = n / d;
    let twice = 2 * (n % d);
    if twice > d || (twice == d && quotient % 2 == 1) {
        quotient + 1
    } else {
        quotient
    }
}

/// The product of a float below one, with exponent field `exponent > 0`, and
/// 255, rounded to single precision, in units of `2^(exponent - 150)`.
pub open spec fn times_255(significand: nat) -> nat {
    let product = 255 * significand;
    let unit: nat = if product < 0x8000_0000 {
        0x80
    } else {
        0x100
    };
    nearest_even(product, unit) * unit
}

/// The level of 255 that a clear value is stored as: clamped to one,
/// multiplied by 255 in single precision and rounded, halves up.
pub open spec fn clear_level(bits: u32) -> nat {
    let exponent = bits as nat / 0x80_0000;
    let significand = 0x80_0000 + bits as nat % 0x80_0000;
    if bits >= SIGN || exponent < 117 {
        0
    } else if exponent >= 127 {
        255
    } else {
        let one = pow2((150 - exponent) as nat);
        (2 * times_255(significand) + one) / (2 * one)
    }
}

/// A clear value as an eight-bit channel stores it.
pub open spec fn clear_unorm(bits: u32) -> Sample {
    if is_nan(bits) {
        float(bits)
    } else {
        unorm(clear_level(bits) as int, 255)
    }
}

/// A clear value as a format stores it. Only two layouts are supported.
pub open spec fn quantized_clear(format: SurfaceFormat, clear: [u32; 4]) -> Option<ClearColor> {
    match format.layout() {
        PixelLayout::ElevenElevenTen => Some(
            ClearColor {
                r: float(small_float_bits(small_float_code(clear[0], 64), 64)),
                g: float(small_float_bits(small_float_code(clear[1], 64), 64)),
                b: float(small_float_bits(small_float_code(clear[2], 32), 32)),
            },
        ),
        PixelLayout::TwoBytes => Some(
            ClearColor { r: clear_unorm(clear[0]), g: clear_unorm(clear[1]), b: float(0) },
        ),
        _ => None,
    }
}

fn level_of(bits: u32) -> (level: u32)
    ensures
        level == clear_level(bits),
        level <= 255,
{
    let exponent: u32 = bits / 0x80_0000;
    if bits >= SIGN || exponent < 117 {
        return 0;
    }
    if exponent >= 127 {
        return 255;
    }
    let significand: u64 = 0x80_0000 + (bits % 0x80_0000) as u64;
    let product: u64 = 255 * significand;
    let unit: u64 = if product < 0x8000_0000 {
        0x80
    } else {
        0x100
    };
    let quotient: u64 = product / unit;
    let twice: u64 = 2 * (product % unit);
    let rounded: u64 = if twice > unit || (twice == unit && quotient % 2 == 1) {
        quotient + 1
    } else {
        quotient
    };
    let shift: u32 = 150 - exponent;
    let mut one: u64 = 1;
    let mut i: u32 = 0;
    proof {
        lemma2_to64();
    }
    while i < shift
        invariant
            i <= shift <= 33,
            one == pow2(i as nat),
            one <= 0x2_0000_0000,
        decreases shift - i,
    {
        proof {
            lemma2_to64();
            lemma_pow2_unfold((i + 1) as nat);
            lemma_pow2_unfold(33);
            if i + 1 < 33 {
                lemma_pow2_strictly_increases((i + 1) as nat, 33);
            }
        }
        one = one * 2;
        i = i + 1;
    }
    proof {
        lemma2_to64();
        if shift > 24 {
            lemma_pow2_strictly_increases(24, shift as nat);
        }
        assert(rounded * unit <= 0xff00_0000);
        assert((2 * (rounded * unit) + one) / (2 * one) <= 255) by (nonlinear_arith)
            requires
                rounded * unit <= 0xff00_0000,
                one >= 0x100_0000,
        ;
    }
    ((2 * (rounded * unit) + one) / (2 * one)) as u32
}

fn stored_level(bits: u32) -> (sample: Sample)
    ensures
        sample == clear_unorm(bits),
{
    if nan(bits) {
        Sample::Float { bits }
    } else {
        Sample::Unorm { value: level_of(bits), max: 255 }
    }
}

/// The clear value as the format stores it.
pub fn quantize_clear_rgb(format: SurfaceFormat, clear: [u32; 4]) -> (result: Result<
    ClearColor,
    Error,
>)
    ensures
        match result {
            Ok(color) => quantized_clear(format, clear) == Some(color),
            Err(error) => quantized_clear(format, clear) is None && error@
                == "Clear-value statistics are unsupported for format "@ + format.label(),
        },
{
    match layout_of(format) {
        PixelLayout::ElevenElevenTen => Ok(
            ClearColor {
                r: Sample::Float {
                    bits: decode_unsigned_float(encode_unsigned_float(clear[0], 6), 6),
                },
                g: Sample::Float {
                    bits: decode_unsigned_float(encode_unsigned_float(clear[1], 6), 6),
                },
                b: Sample::Float {
                    bits: decode_unsigned_float(encode_unsigned_float(clear[2], 5), 5),
                },
            },
        ),
        PixelLayout::TwoBytes => Ok(
            ClearColor {
                r: stored_level(clear[0]),
                g: stored_level(clear[1]),
                b: Sample::Float { bits: 0 },
            },
        ),
        _ => {
            let mut message = "Clear-value statistics are unsupported for format ".to_owned();
            message.append(format.name());
            Err(Error { message })
        },
    }
}

/// The least or the greatest sample of a channel over the pixels whose colour
/// is finite, the first of equals.
pub open spec fn extreme(pixels: Seq<Pixel>, channel: int, greatest: bool) -> Option<Sample>
    decreases pixels.len(),
{
    if pixels.len() == 0 {
        None
    } else {
        let before = extreme(pixels.drop_last(), channel, greatest);
        let pixel = pixels.last();
        let sample = pixel.channel(channel);
        if !pixel.rgb_finite() {
            before
        } else {
            match before {
                None => Some(sample),
                Some(best) => if (greatest && sample.key() > best.key()) || (!greatest
                    && sample.key() < best.key()) {
                    Some(sample)
                } else {
                    Some(best)
                },
            }
        }
    }
}

fn more_extreme(best: Option<Sample>, sample: Sample, greatest: bool) -> (chosen: Option<Sample>)
    ensures
        chosen == match best {
            None => Some(sample),
            Some(kept) => if (greatest && sample.key() > kept.key()) || (!greatest && sample.key()
                < kept.key()) {
                Some(sample)
            } else {
                Some(kept)
            },
        },
{
    match best {
        None => Some(sample),
        Some(kept) => {
            if (greatest && sample.order() > kept.order()) || (!greatest && sample.order()
                < kept.order()) {
                Some(sample)
            } else {
                Some(kept)
            }
        },
    }
}

/// Exact statistics of a captured surface.
#[derive(Clone, Copy, Debug, PartialEq, Eq, Structural)]
pub struct PixelStats {
    pub finite_pixel_count: u64,
    pub non_finite_pixel_count: u64,
    pub clipped_or_saturated_pixel_count: u64,
    pub nonzero_rgb_pixel_count: u64,
    pub minimum_r: Option<Sample>,
    pub minimum_g: Option<Sample>,
    pub minimum_b: Option<Sample>,
    pub maximum_r: Option<Sample>,
    pub maximum_g: Option<Sample>,
    pub maximum_b: Option<Sample>,
    pub nonzero_alpha_count: Option<u64>,
    pub pixels_different_from_clear_value: Option<u64>,
}

/// The statistics of pixels.
pub open spec fn statistics(
    pixels: Seq<Pixel>,
    has_alpha: bool,
    clear: Option<ClearColor>,
) -> PixelStats {
    PixelStats {
        finite_pixel_count: count(pixels, |pixel: Pixel| pixel.rgb_finite()) as u64,
        non_finite_pixel_count: count(pixels, |pixel: Pixel| !pixel.rgb_finite()) as u64,
        clipped_or_saturated_pixel_count: count(pixels, |pixel: Pixel| pixel.rgb_clipped()) as u64,
        nonzero_rgb_pixel_count: count(pixels, |pixel: Pixel| pixel.rgb_nonzero()) as u64,
        minimum_r: extreme(pixels, 0, false),
        minimum_g: extreme(pixels, 1, false),
        minimum_b: extreme(pixels, 2, false),
        maximum_r: extreme(pixels, 0, true),
        maximum_g: extreme(pixels, 1, true),
        maximum_b: extreme(pixels, 2, true),
        nonzero_alpha_count: if has_alpha {
            Some(count(pixels, |pixel: Pixel| pixel.alpha_nonzero()) as u64)
        } else {
            None
        },
        pixels_different_from_clear_value: match clear {
            Some(color) => Some(count(pixels, |pixel: Pixel| pixel.differs_from(color)) as u64),
            None => None,
        },
    }
}

/// Why a surface has no statistics.
pub open spec fn statistics_failure(
    format: SurfaceFormat,
    length: nat,
    clear: Option<[u32; 4]>,
) -> Option<Seq<char>> {
    if length % format.pixel_size() as nat != 0 {
        Some("Capture byte length is not aligned to format "@ + format.label())
    } else if clear is Some && quantized_clear(format, clear->Some_0) is None {
        Some("Clear-value statistics are unsupported for format "@ + format.label())
    } else {
        None
    }
}

pub open spec fn clear_of(format: SurfaceFormat, clear: Option<[u32; 4]>) -> Option<ClearColor> {
    match clear {
        Some(value) => quantized_clear(format, value),
        None => None,
    }
}

/// Statistics of a tightly packed surface.
pub fn compute_stats(format: SurfaceFormat, bytes: &[u8], clear_value: Option<[u32; 4]>) -> (result:
    Result<PixelStats, Error>)
    ensures
        match result {
            Ok(stats) => statistics_failure(format, bytes@.len(), clear_value) is None && stats
                == statistics(
                surface_pixels(format, bytes@),
                format.has_alpha(),
                clear_of(format, clear_value),
            ),
            Err(error) => statistics_failure(format, bytes@.len(), clear_value) == Some(error@),
        },
{
    let size: usize = bytes_per_pixel(format);
    if bytes.len() % size != 0 {
        let mut message = "Capture byte length is not aligned to format ".to_owned();
        message.append(format.name());
        return Err(Error { message });
    }
    let clear: Option<ClearColor> = match clear_value {
        Some(value) => match quantize_clear_rgb(format, value) {
            Ok(color) => Some(color),
            Err(error) => return Err(error),
        },
        None => None,
    };
    let pixels = decode_surface(format, bytes);
    Ok(pixel_statistics(&pixels, format_has_alpha(format), clear))
}

proof fn lemma_count_step(pixels: Seq<Pixel>, i: int, property: spec_fn(Pixel) -> bool)
    requires
        0 <= i < pixels.len(),
    ensures
        count(pixels.take(i + 1), property) == count(pixels.take(i), property) + if property(
            pixels[i],
        ) {
            1nat
        } else {
            0
        },
{
    assert(pixels.take(i + 1).drop_last() =~= pixels.take(i));
}

/// Statistics of decoded pixels.
pub fn pixel_statistics(pixels: &Vec<Pixel>, has_alpha: bool, clear: Option<ClearColor>) -> (stats:
    PixelStats)
    ensures
        stats == statistics(pixels@, has_alpha, clear),
{
    let ghost finite_property = |pixel: Pixel| pixel.rgb_finite();
    let ghost infinite_property = |pixel: Pixel| !pixel.rgb_finite();
    let ghost clipped_property = |pixel: Pixel| pixel.rgb_clipped();
    let ghost nonzero_property = |pixel: Pixel| pixel.rgb_nonzero();
    let ghost alpha_property = |pixel: Pixel| pixel.alpha_nonzero();
    let ghost differs_property = |pixel: Pixel| pixel.differs_from(clear->Some_0);
    let mut finite_pixel_count: u64 = 0;
    let mut non_finite_pixel_count: u64 = 0;
    let mut clipped_count: u64 = 0;
    let mut nonzero_count: u64 = 0;
    let mut alpha_count: u64 = 0;
    let mut different_count: u64 = 0;
    let mut minimum_r: Option<Sample> = None;
    let mut minimum_g: Option<Sample> = None;
    let mut minimum_b: Option<Sample> = None;
    let mut maximum_r: Option<Sample> = None;
    let mut maximum_g: Option<Sample> = None;
    let mut maximum_b: Option<Sample> = None;
    let mut i: usize = 0;
    while i < pixels.len()
        invariant
            i <= pixels@.len(),
            finite_pixel_count <= i,
            non_finite_pixel_count <= i,
            clipped_count <= i,
            nonzero_count <= i,
            alpha_count <= i,
            different_count <= i,
            finite_property == (|pixel: Pixel| pixel.rgb_finite()),
            infinite_property == (|pixel: Pixel| !pixel.rgb_finite()),
            clipped_property == (|pixel: Pixel| pixel.rgb_clipped()),
            nonzero_property == (|pixel: Pixel| pixel.rgb_nonzero()),
            alpha_property == (|pixel: Pixel| pixel.alpha_nonzero()),
            differs_property == (|pixel: Pixel| pixel.differs_from(clear->Some_0)),
            finite_pixel_count == count(pixels@.take(i as int), finite_property),
            non_finite_pixel_count == count(pixels@.take(i as int), infinite_property),
            clipped_count == count(pixels@.take(i as int), clipped_property),
            nonzero_count == count(pixels@.take(i as int), nonzero_property),
            has_alpha ==> alpha_count == count(pixels@.take(i as int), alpha_property),
            clear is Some ==> different_count == count(pixels@.take(i as int), differs_property),
            minimum_r == extreme(pixels@.take(i as int), 0, false),
            minimum_g == extreme(pixels@.take(i as int), 1, false),
            minimum_b == extreme(pixels@.take(i as int), 2, false),
            maximum_r == extreme(pixels@.take(i as int), 0, true),
            maximum_g == extreme(pixels@.take(i as int), 1, true),
            maximum_b == extreme(pixels@.take(i as int), 2, true),
        decreases pixels@.len() - i,
    {
        let pixel: Pixel = pixels[i];
        proof {
            lemma_count_step(pixels@, i as int, finite_property);
            lemma_count_step(pixels@, i as int, infinite_property);
            lemma_count_step(pixels@, i as int, clipped_property);
            lemma_count_step(pixels@, i as int, nonzero_property);
            lemma_count_step(pixels@, i as int, alpha_property);
            lemma_count_step(pixels@, i as int, differs_property);
            assert(pixels@.take(i + 1).drop_last() =~= pixels@.take(i as int));
        }
        match clear {
            Some(color) => {
                if !(pixel.r.same(color.r) && pixel.g.same(color.g) && pixel.b.same(color.b)) {
                    different_count = different_count + 1;
                }
            },
            None => {},
        }
        if (pixel.r.finite() && pixel.r.nonzero()) || (pixel.g.finite() && pixel.g.nonzero()) || (
        pixel.b.finite() && pixel.b.nonzero()) {
            nonzero_count = nonzero_count + 1;
        }
        if has_alpha && pixel.a.finite() && pixel.a.nonzero() {
            alpha_count = alpha_count + 1;
        }
        let all_finite: bool = pixel.r.finite() && pixel.g.finite() && pixel.b.finite();
        if !all_finite || pixel.r.saturated() || pixel.g.saturated() || pixel.b.saturated() {
            clipped_count = clipped_count + 1;
        }
        if all_finite {
            finite_pixel_count = finite_pixel_count + 1;
            minimum_r = more_extreme(minimum_r, pixel.r, false);
            minimum_g = more_extreme(minimum_g, pixel.g, false);
            minimum_b = more_extreme(minimum_b, pixel.b, false);
            maximum_r = more_extreme(maximum_r, pixel.r, true);
            maximum_g = more_extreme(maximum_g, pixel.g, true);
            maximum_b = more_extreme(maximum_b, pixel.b, true);
        } else {
            non_finite_pixel_count = non_finite_pixel_count + 1;
        }
        i = i + 1;
    }
    assert(pixels@.take(pixels@.len() as int) =~= pixels@);
    PixelStats {
        finite_pixel_count,
        non_finite_pixel_count,
        clipped_or_saturated_pixel_count: clipped_count,
        nonzero_rgb_pixel_count: nonzero_count,
        minimum_r,
        minimum_g,
        minimum_b,
        maximum_r,
        maximum_g,
        maximum_b,
        nonzero_alpha_count: if has_alpha {
            Some(alpha_count)
        } else {
            None
        },
        pixels_different_from_clear_value: if clear.is_some() {
            Some(different_count)
        } else {
            None
        },
    }
}


/// Every pixel is either finite or not, and every pixel that is not finite is
/// counted as clipped.
pub proof fn law_pixel_counts_partition(pixels: Seq<Pixel>)
    ensures
        count(pixels, |pixel: Pixel| pixel.rgb_finite()) + count(
            pixels,
            |pixel: Pixel| !pixel.rgb_finite(),
        ) == pixels.len(),
        count(pixels, |pixel: Pixel| !pixel.rgb_finite()) <= count(
            pixels,
            |pixel: Pixel| pixel.rgb_clipped(),
        ) <= pixels.len(),
    decreases pixels.len(),
{
    if pixels.len() > 0 {
        law_pixel_counts_partition(pixels.drop_last());
    }
}

/// The least sample of a channel is one of the finite pixels' samples and none
/// of theirs is less; likewise for the greatest. There is none exactly where no
/// pixel is finite.
pub proof fn law_extremes_bound_the_finite_pixels(pixels: Seq<Pixel>, channel: int, greatest: bool)
    ensures
        match extreme(pixels, channel, greatest) {
            Some(best) => {
                &&& exists|i: int|
                    0 <= i < pixels.len() && pixels[i].rgb_finite() && #[trigger] pixels[i].channel(
                        channel,
                    ) == best
                &&& forall|i: int|
                    0 <= i < pixels.len() && pixels[i].rgb_finite() ==> if greatest {
                        (#[trigger] pixels[i].channel(channel)).key() <= best.key()
                    } else {
                        pixels[i].channel(channel).key() >= best.key()
                    }
            },
            None => forall|i: int| 0 <= i < pixels.len() ==> !(#[trigger] pixels[i].rgb_finite()),
        },
    decreases pixels.len(),
{
    if pixels.len() > 0 {
        let rest = pixels.drop_last();
        law_extremes_bound_the_finite_pixels(rest, channel, greatest);
        assert(forall|i: int| 0 <= i < rest.len() ==> rest[i] == pixels[i]);
        match extreme(rest, channel, greatest) {
            Some(best) => {
                let i = choose|i: int|
                    0 <= i < rest.len() && rest[i].rgb_finite() && #[trigger] rest[i].channel(
                        channel,
                    ) == best;
                assert(pixels[i].channel(channel) == best);
            },
            None => {},
        }
        let last = pixels.len() - 1;
        assert(pixels[last].channel(channel) == pixels.last().channel(channel));
        assert(pixels[last].rgb_finite() == pixels.last().rgb_finite());
        assert(forall|i: int|
            0 <= i < pixels.len() ==> (#[trigger] pixels[i].channel(channel)) == if i < last {
                rest[i].channel(channel)
            } else {
                pixels.last().channel(channel)
            });
        assert(forall|i: int|
            0 <= i < pixels.len() ==> (#[trigger] pixels[i].rgb_finite()) == if i < last {
                rest[i].rgb_finite()
            } else {
                pixels.last().rgb_finite()
            });
    }
}

/// A pixel of ten, ten, ten and two bits gives back its word, lowest channel first.
pub proof fn law_ten_bit_channels_make_up_their_word(bytes: Seq<u8>, at: int)
    ensures
        ({
            let pixel = pixel_at(SurfaceFormat::R10g10b10a2Unorm, bytes, at);
            &&& pixel.r is Unorm && pixel.g is Unorm && pixel.b is Unorm && pixel.a is Unorm
            &&& pixel.r->max == 1023 && pixel.g->max == 1023 && pixel.b->max == 1023
                && pixel.a->max == 3
            &&& pixel.r->value <= 1023 && pixel.g->value <= 1023 && pixel.b->value <= 1023
                && pixel.a->value <= 3
            &&& pixel.r->value + 0x400 * pixel.g->value + 0x10_0000 * pixel.b->value + 0x4000_0000
                * pixel.a->value == le_u32(bytes, at)
        }),
{
    lemma_ten_bits(le_u32(bytes, at) as int);
}

#[verifier::spinoff_prover]
proof fn lemma_ten_bits(packed: int)
    requires
        0 <= packed < 0x1_0000_0000,
    ensures
        packed % 0x400 + 0x400 * (packed / 0x400 % 0x400) + 0x10_0000 * (packed / 0x10_0000 % 0x400)
            + 0x4000_0000 * (packed / 0x4000_0000) == packed,
        0 <= packed / 0x4000_0000 <= 3,
{
    let upper = packed / 0x400;
    let top = packed / 0x10_0000;
    assert(top == upper / 0x400);
    assert(packed / 0x4000_0000 == top / 0x400);
}

/// A pixel of bytes has them in the order red, green, blue, alpha, each out of 255. A pixel of
/// halves has four of two bytes each, in the same order. A depth pixel is one float, shown in all
/// three colors.
pub proof fn law_channels_stand_in_order(bytes: Seq<u8>, at: int)
    ensures
        ({
            let pixel = pixel_at(SurfaceFormat::R8g8b8a8Unorm, bytes, at);
            &&& pixel.r == (Sample::Unorm { value: bytes[at] as u32, max: 255 })
            &&& pixel.g == (Sample::Unorm { value: bytes[at + 1] as u32, max: 255 })
            &&& pixel.b == (Sample::Unorm { value: bytes[at + 2] as u32, max: 255 })
            &&& pixel.a == (Sample::Unorm { value: bytes[at + 3] as u32, max: 255 })
        }),
        pixel_at(SurfaceFormat::R8g8b8a8Typeless, bytes, at) == pixel_at(
            SurfaceFormat::R8g8b8a8Unorm,
            bytes,
            at,
        ),
        pixel_at(SurfaceFormat::R8g8b8a8UnormSrgb, bytes, at) == pixel_at(
            SurfaceFormat::R8g8b8a8Unorm,
            bytes,
            at,
        ),
        pixel_at(SurfaceFormat::R8g8Unorm, bytes, at).r == (Sample::Unorm {
            value: bytes[at] as u32,
            max: 255,
        }),
        pixel_at(SurfaceFormat::R8g8Unorm, bytes, at).g == (Sample::Unorm {
            value: bytes[at + 1] as u32,
            max: 255,
        }),
        pixel_at(SurfaceFormat::R8g8Unorm, bytes, at).b == (Sample::Float { bits: 0 }),
        pixel_at(SurfaceFormat::R8g8Typeless, bytes, at) == pixel_at(
            SurfaceFormat::R8g8Unorm,
            bytes,
            at,
        ),
        pixel_at(SurfaceFormat::R10g10b10a2Typeless, bytes, at) == pixel_at(
            SurfaceFormat::R10g10b10a2Unorm,
            bytes,
            at,
        ),
        pixel_at(SurfaceFormat::R16g16b16a16Typeless, bytes, at) == pixel_at(
            SurfaceFormat::R16g16b16a16Float,
            bytes,
            at,
        ),
        ({
            let pixel = pixel_at(SurfaceFormat::R16g16b16a16Float, bytes, at);
            &&& pixel.r == (Sample::Float { bits: half_to_single(le_u16(bytes, at)) })
            &&& pixel.g == (Sample::Float { bits: half_to_single(le_u16(bytes, at + 2)) })
            &&& pixel.b == (Sample::Float { bits: half_to_single(le_u16(bytes, at + 4)) })
            &&& pixel.a == (Sample::Float { bits: half_to_single(le_u16(bytes, at + 6)) })
        }),
        ({
            let pixel = pixel_at(SurfaceFormat::R32Typeless, bytes, at);
            &&& pixel.r == (Sample::Float { bits: le_u32(bytes, at) })
            &&& pixel.g == pixel.r
            &&& pixel.b == pixel.r
        }),
        pixel_at(SurfaceFormat::R32g8x24Typeless, bytes, at) == pixel_at(
            SurfaceFormat::R32Typeless,
            bytes,
            at,
        ),
{
}

/// A pixel of eleven, eleven and ten bits is made of three small floats whose codes give back its
/// word, lowest channel first.
pub proof fn law_small_floats_make_up_their_word(bytes: Seq<u8>, at: int) -> (codes: (
    nat,
    nat,
    nat,
))
    ensures
        codes.0 < 0x800 && codes.1 < 0x800 && codes.2 < 0x400,
        codes.0 + 0x800 * codes.1 + 0x40_0000 * codes.2 == le_u32(bytes, at),
        ({
            let pixel = pixel_at(SurfaceFormat::R11g11b10Float, bytes, at);
            &&& pixel.r == (Sample::Float { bits: small_float_bits(codes.0, 64) })
            &&& pixel.g == (Sample::Float { bits: small_float_bits(codes.1, 64) })
            &&& pixel.b == (Sample::Float { bits: small_float_bits(codes.2, 32) })
        }),
{
    let packed = le_u32(bytes, at) as int;
    lemma_eleven_bits(packed);
    (
        (packed % 0x800) as nat,
        (packed / 0x800 % 0x800) as nat,
        (packed / 0x40_0000) as nat,
    )
}

#[verifier::spinoff_prover]
proof fn lemma_eleven_bits(packed: int)
    requires
        0 <= packed < 0x1_0000_0000,
    ensures
        packed % 0x800 + 0x800 * (packed / 0x800 % 0x800) + 0x40_0000 * (packed / 0x40_0000)
            == packed,
        0 <= packed / 0x40_0000 < 0x400,
{
    let upper = packed / 0x800;
    assert(packed == 0x800 * upper + packed % 0x800);
    assert(packed / 0x40_0000 == upper / 0x800);
    assert(upper == 0x800 * (upper / 0x800) + upper % 0x800);
}

/// A pixel takes as many bytes as the bits of its format's name make up, and has an alpha channel
/// where the name has one.
pub proof fn law_formats_have_the_size_of_their_name()
    ensures
        SurfaceFormat::R8g8Typeless.pixel_size() == 2,
        SurfaceFormat::R8g8Unorm.pixel_size() == 2,
        SurfaceFormat::R8g8b8a8Typeless.pixel_size() == 4,
        SurfaceFormat::R8g8b8a8Unorm.pixel_size() == 4,
        SurfaceFormat::R8g8b8a8UnormSrgb.pixel_size() == 4,
        SurfaceFormat::R10g10b10a2Typeless.pixel_size() == 4,
        SurfaceFormat::R10g10b10a2Unorm.pixel_size() == 4,
        SurfaceFormat::R11g11b10Float.pixel_size() == 4,
        SurfaceFormat::R16g16b16a16Typeless.pixel_size() == 8,
        SurfaceFormat::R16g16b16a16Float.pixel_size() == 8,
        SurfaceFormat::R32Typeless.pixel_size() == 4,
        SurfaceFormat::R32g8x24Typeless.pixel_size() == 8,
        SurfaceFormat::R8g8b8a8Typeless.has_alpha(),
        SurfaceFormat::R8g8b8a8Unorm.has_alpha(),
        SurfaceFormat::R8g8b8a8UnormSrgb.has_alpha(),
        SurfaceFormat::R10g10b10a2Typeless.has_alpha(),
        SurfaceFormat::R10g10b10a2Unorm.has_alpha(),
        SurfaceFormat::R16g16b16a16Typeless.has_alpha(),
        SurfaceFormat::R16g16b16a16Float.has_alpha(),
        !SurfaceFormat::R8g8Typeless.has_alpha(),
        !SurfaceFormat::R8g8Unorm.has_alpha(),
        !SurfaceFormat::R11g11b10Float.has_alpha(),
        !SurfaceFormat::R32Typeless.has_alpha(),
        !SurfaceFormat::R32g8x24Typeless.has_alpha(),
{
}

/// A format is found by its own name.
pub proof fn law_formats_are_found_by_name(format: SurfaceFormat)
    ensures
        format_named(format.label()) == Some(format),
{
    reveal_strlit("R8g8Typeless");
    reveal_strlit("R8g8Unorm");
    reveal_strlit("R8g8b8a8Typeless");
    reveal_strlit("R8g8b8a8Unorm");
    reveal_strlit("R8g8b8a8UnormSrgb");
    reveal_strlit("R10g10b10a2Typeless");
    reveal_strlit("R10g10b10a2Unorm");
    reveal_strlit("R11g11b10Float");
    reveal_strlit("R16g16b16a16Typeless");
    reveal_strlit("R16g16b16a16Float");
    reveal_strlit("R32Typeless");
    reveal_strlit("R32g8x24Typeless");
    assert("R8g8Typeless"@.len() == 12);
    assert("R8g8Unorm"@.len() == 9);
    assert("R8g8b8a8Typeless"@.len() == 16);
    assert("R8g8b8a8Unorm"@.len() == 13);
    assert("R8g8b8a8UnormSrgb"@.len() == 17);
    assert("R10g10b10a2Typeless"@.len() == 19);
    assert("R10g10b10a2Unorm"@.len() == 16);
    assert("R11g11b10Float"@.len() == 14);
    assert("R16g16b16a16Typeless"@.len() == 20);
    assert("R16g16b16a16Float"@.len() == 17);
    assert("R32Typeless"@.len() == 11);
    assert("R32g8x24Typeless"@.len() == 16);
    assert("R8g8b8a8Typeless"@[1] == '8');
    assert("R10g10b10a2Unorm"@[1] == '1');
    assert("R32g8x24Typeless"@[1] == '3');
    assert("R8g8b8a8UnormSrgb"@[1] == '8');
    assert("R16g16b16a16Float"@[1] == '1');
}

/// The extremes of each color bound that color of every finite pixel.
pub proof fn law_statistics_bound_their_own_channel(
    pixels: Seq<Pixel>,
    has_alpha: bool,
    clear: Option<ClearColor>,
    at: int,
)
    requires
        0 <= at < pixels.len(),
        pixels[at].r.is_finite_sample(),
        pixels[at].g.is_finite_sample(),
        pixels[at].b.is_finite_sample(),
    ensures
        ({
            let stats = statistics(pixels, has_alpha, clear);
            let pixel = pixels[at];
            &&& stats.minimum_r matches Some(least) && least.key() <= pixel.r.key()
            &&& stats.minimum_g matches Some(least) && least.key() <= pixel.g.key()
            &&& stats.minimum_b matches Some(least) && least.key() <= pixel.b.key()
            &&& stats.maximum_r matches Some(most) && most.key() >= pixel.r.key()
            &&& stats.maximum_g matches Some(most) && most.key() >= pixel.g.key()
            &&& stats.maximum_b matches Some(most) && most.key() >= pixel.b.key()
        }),
{
    lemma_extreme_bounds(pixels, 0, false, at);
    lemma_extreme_bounds(pixels, 1, false, at);
    lemma_extreme_bounds(pixels, 2, false, at);
    lemma_extreme_bounds(pixels, 0, true, at);
    lemma_extreme_bounds(pixels, 1, true, at);
    lemma_extreme_bounds(pixels, 2, true, at);
}

proof fn lemma_extreme_bounds(pixels: Seq<Pixel>, channel: int, greatest: bool, at: int)
    requires
        0 <= at < pixels.len(),
        pixels[at].rgb_finite(),
    ensures
        extreme(pixels, channel, greatest) matches Some(best) && if greatest {
            pixels[at].channel(channel).key() <= best.key()
        } else {
            pixels[at].channel(channel).key() >= best.key()
        },
{
    law_extremes_bound_the_finite_pixels(pixels, channel, greatest);
}

proof fn lemma_count(pixels: Seq<Pixel>, property: spec_fn(Pixel) -> bool, more: Pixel)
    ensures
        count(pixels.push(more), property) == count(pixels, property) + (if property(more) {
            1int
        } else {
            0
        }),
        count(pixels, property) <= pixels.len(),
    decreases pixels.len(),
{
    assert(pixels.push(more).drop_last() =~= pixels);
    if pixels.len() > 0 {
        lemma_count(pixels.drop_last(), property, more);
    }
}

/// One more pixel counts once where it belongs: as finite where all of its colors are, as clipped
/// where one of them is not finite or saturated, as lit where a finite color is not zero, as opaque
/// by its alpha, and as changed where a color is not that of the clear value.
pub proof fn law_each_pixel_counts_where_it_belongs(
    pixels: Seq<Pixel>,
    more: Pixel,
    has_alpha: bool,
    clear: Option<ClearColor>,
)
    requires
        pixels.len() < u64::MAX,
    ensures
        ({
            let before = statistics(pixels, has_alpha, clear);
            let now = statistics(pixels.push(more), has_alpha, clear);
            let (r, g, b) = (more.r, more.g, more.b);
            let finite = r.is_finite_sample() && g.is_finite_sample() && b.is_finite_sample();
            let clipped = !finite || r.is_saturated() || g.is_saturated() || b.is_saturated();
            let lit = r.is_finite_sample() && r.is_nonzero() || g.is_finite_sample()
                && g.is_nonzero() || b.is_finite_sample() && b.is_nonzero();
            let opaque = more.a.is_finite_sample() && more.a.is_nonzero();
            &&& now.finite_pixel_count - before.finite_pixel_count == if finite {
                1int
            } else {
                0
            }
            &&& now.non_finite_pixel_count - before.non_finite_pixel_count == if finite {
                0int
            } else {
                1
            }
            &&& now.clipped_or_saturated_pixel_count - before.clipped_or_saturated_pixel_count
                == if clipped {
                1int
            } else {
                0
            }
            &&& now.nonzero_rgb_pixel_count - before.nonzero_rgb_pixel_count == if lit {
                1int
            } else {
                0
            }
            &&& has_alpha ==> now.nonzero_alpha_count is Some && before.nonzero_alpha_count is Some
                && now.nonzero_alpha_count->Some_0 - before.nonzero_alpha_count->Some_0
                == if opaque {
                1int
            } else {
                0
            }
            &&& !has_alpha ==> now.nonzero_alpha_count is None
            &&& clear is None ==> now.pixels_different_from_clear_value is None
            &&& clear matches Some(color) ==> now.pixels_different_from_clear_value is Some
                && before.pixels_different_from_clear_value is Some
                && now.pixels_different_from_clear_value->Some_0
                - before.pixels_different_from_clear_value->Some_0 == if r.equals(color.r)
                && g.equals(color.g) && b.equals(color.b) {
                0int
            } else {
                1
            }
        }),
{
    lemma_count(pixels, |pixel: Pixel| pixel.rgb_finite(), more);
    lemma_count(pixels, |pixel: Pixel| !pixel.rgb_finite(), more);
    lemma_count(pixels, |pixel: Pixel| pixel.rgb_clipped(), more);
    lemma_count(pixels, |pixel: Pixel| pixel.rgb_nonzero(), more);
    lemma_count(pixels, |pixel: Pixel| pixel.alpha_nonzero(), more);
    if clear is Some {
        let color = clear->Some_0;
        lemma_count(pixels, |pixel: Pixel| pixel.differs_from(color), more);
    }
}

} // verus!
