//! Global pipelines and scopes: which there are and which a package offers.

use vstd::prelude::*;

verus! {

/// The shapes of a cubemap volume.
#[derive(Clone, Copy, Debug, PartialEq, Eq, Structural)]
pub enum CubemapShape {
    Cube,
    Sphere,
    CubeSphere,
}

/// The global pipelines.
#[derive(Clone, Copy, Debug, PartialEq, Eq, Structural)]
pub enum Pipeline {
    ClearColor2Mrt,
    DeferredShading,
    DeferredShadingNoAtm,
    GlobalLighting,
    GlobalLightingAndShading,
    GlobalLightingAndShadingGel,
    FinalCombineNoFilmCurve,
    FinalCombine,
    Hdao,
    ApplySsaoToLightBuffers,
    SsaoBilateralFilter,
    Fxaa,
    FxaaNoise,
    AutoexposureSampleColumns,
    CopyTextureBilinear,
    CopyTextureBilinearTiled,
    CubemapApplySkyCopyAo,
    SkyGenerateSkyMask,
    SkyLookupGenerateNear,
    SkyLookupGenerateFar,
    Sky,
    DebugCubemapDiffuseProbes,
    DebugSourceColor,
    DebugSpecularSmoothness,
    DebugMetalness,
    DebugTextureAo,
    DebugAmbientOcclusion,
    DebugEmissive,
    DebugEmissiveIntensity,
    DebugTransmission,
    DebugColoredOvercoatId,
    DebugDepthEdges,
    DebugWorldNormal,
    DebugDiffuseLight,
    DebugSpecularLight,
    OverdrawVisualizer,
    ScreenAreaGlobalLut3dNoTonemap,
    DownsampleDepthBuffer,
    UberDepthDefault,
    DownsampleMaxMinAvgNoSwizzle,
    BloomInitialDownsampleBlock2x2,
    DownsampleBlock2x2WithNanKill,
    DownsampleBlock2x2,
    DownsampleGaussian1x8,
    DownsampleGaussian8x1,
    DownsampleGaussian1x16,
    DownsampleGaussian16x1,
    Gaussian10Horz,
    Gaussian10Vert,
    Weighted6Horz,
    Weighted6Vert,
    CombinedBloomLineBlur,
    RadialBlur8,
    WeightedAdd,
    VolumetricsUpres1,
    WaterSkyColorGenerate,
    WaterReflectionHealing,
    WaterReflectionResolve,
    WaterReflectionUvHealing,
    /// Apply a cubemap volume.
    CubemapApply {
        parallax: bool,
        shape: CubemapShape,
        alpha: bool,
        probes: bool,
        relighting: bool,
    },
    /// Grade the picture by a lookup table.
    ScreenAreaGlobalLut3d { distort: bool, noise: bool, hdr: bool },
}

/// How many global pipelines there are.
pub const PIPELINE_COUNT: usize = 115;

/// The first number of a cubemap pipeline.
pub const CUBEMAP_BASE: usize = 59;

/// The first number of a lookup-table pipeline.
pub const LUT3D_BASE: usize = 107;

pub open spec fn flag(value: bool) -> int {
    if value {
        1
    } else {
        0
    }
}

impl CubemapShape {
    pub open spec fn number(self) -> int {
        match self {
            CubemapShape::Cube => 0,
            CubemapShape::Sphere => 1,
            CubemapShape::CubeSphere => 2,
        }
    }

    pub open spec fn label(self) -> Seq<char> {
        match self {
            CubemapShape::Cube => "cube"@,
            CubemapShape::Sphere => "sphere"@,
            CubemapShape::CubeSphere => "cube_sphere"@,
        }
    }
}

pub open spec fn on_off(value: bool) -> Seq<char> {
    if value {
        "on"@
    } else {
        "off"@
    }
}

pub open spec fn text_if(value: bool, text: Seq<char>) -> Seq<char> {
    if value {
        text
    } else {
        seq![]
    }
}

impl Pipeline {
    /// The number of a pipeline. The variants of a family follow each other:
    /// cubemaps by parallax, shape, alpha, probes and relighting, lookup tables
    /// by distortion, noise and dynamic range.
    pub open spec fn number(self) -> int {
        match self {
            Pipeline::ClearColor2Mrt => 0,
            Pipeline::DeferredShading => 1,
            Pipeline::DeferredShadingNoAtm => 2,
            Pipeline::GlobalLighting => 3,
            Pipeline::GlobalLightingAndShading => 4,
            Pipeline::GlobalLightingAndShadingGel => 5,
            Pipeline::FinalCombineNoFilmCurve => 6,
            Pipeline::FinalCombine => 7,
            Pipeline::Hdao => 8,
            Pipeline::ApplySsaoToLightBuffers => 9,
            Pipeline::SsaoBilateralFilter => 10,
            Pipeline::Fxaa => 11,
            Pipeline::FxaaNoise => 12,
            Pipeline::AutoexposureSampleColumns => 13,
            Pipeline::CopyTextureBilinear => 14,
            Pipeline::CopyTextureBilinearTiled => 15,
            Pipeline::CubemapApplySkyCopyAo => 16,
            Pipeline::SkyGenerateSkyMask => 17,
            Pipeline::SkyLookupGenerateNear => 18,
            Pipeline::SkyLookupGenerateFar => 19,
            Pipeline::Sky => 20,
            Pipeline::DebugCubemapDiffuseProbes => 21,
            Pipeline::DebugSourceColor => 22,
            Pipeline::DebugSpecularSmoothness => 23,
            Pipeline::DebugMetalness => 24,
            Pipeline::DebugTextureAo => 25,
            Pipeline::DebugAmbientOcclusion => 26,
            Pipeline::DebugEmissive => 27,
            Pipeline::DebugEmissiveIntensity => 28,
            Pipeline::DebugTransmission => 29,
            Pipeline::DebugColoredOvercoatId => 30,
            Pipeline::DebugDepthEdges => 31,
            Pipeline::DebugWorldNormal => 32,
            Pipeline::DebugDiffuseLight => 33,
            Pipeline::DebugSpecularLight => 34,
            Pipeline::OverdrawVisualizer => 35,
            Pipeline::ScreenAreaGlobalLut3dNoTonemap => 36,
            Pipeline::DownsampleDepthBuffer => 37,
            Pipeline::UberDepthDefault => 38,
            Pipeline::DownsampleMaxMinAvgNoSwizzle => 39,
            Pipeline::BloomInitialDownsampleBlock2x2 => 40,
            Pipeline::DownsampleBlock2x2WithNanKill => 41,
            Pipeline::DownsampleBlock2x2 => 42,
            Pipeline::DownsampleGaussian1x8 => 43,
            Pipeline::DownsampleGaussian8x1 => 44,
            Pipeline::DownsampleGaussian1x16 => 45,
            Pipeline::DownsampleGaussian16x1 => 46,
            Pipeline::Gaussian10Horz => 47,
            Pipeline::Gaussian10Vert => 48,
            Pipeline::Weighted6Horz => 49,
            Pipeline::Weighted6Vert => 50,
            Pipeline::CombinedBloomLineBlur => 51,
            Pipeline::RadialBlur8 => 52,
            Pipeline::WeightedAdd => 53,
            Pipeline::VolumetricsUpres1 => 54,
            Pipeline::WaterSkyColorGenerate => 55,
            Pipeline::WaterReflectionHealing => 56,
            Pipeline::WaterReflectionResolve => 57,
            Pipeline::WaterReflectionUvHealing => 58,
            Pipeline::CubemapApply { parallax, shape, alpha, probes, relighting } => CUBEMAP_BASE
                + 24 * flag(parallax) + 8 * shape.number() + 4 * flag(alpha) + 2 * flag(probes)
                + flag(relighting),
            Pipeline::ScreenAreaGlobalLut3d { distort, noise, hdr } => LUT3D_BASE + 4 * flag(
                distort,
            ) + 2 * flag(noise) + flag(hdr),
        }
    }

    /// The name under which packages list a pipeline.
    pub open spec fn label(self) -> Seq<char> {
        match self {
            Pipeline::ClearColor2Mrt => "clear_color_2_mrt"@,
            Pipeline::DeferredShading => "deferred_shading"@,
            Pipeline::DeferredShadingNoAtm => "deferred_shading_no_atm"@,
            Pipeline::GlobalLighting => "global_lighting"@,
            Pipeline::GlobalLightingAndShading => "global_lighting_and_shading"@,
            Pipeline::GlobalLightingAndShadingGel => "global_lighting_and_shading_gel"@,
            Pipeline::FinalCombineNoFilmCurve => "final_combine_no_film_curve"@,
            Pipeline::FinalCombine => "final_combine"@,
            Pipeline::Hdao => "hdao"@,
            Pipeline::ApplySsaoToLightBuffers => "apply_ssao_to_light_buffers"@,
            Pipeline::SsaoBilateralFilter => "ssao_bilateral_filter"@,
            Pipeline::Fxaa => "fxaa"@,
            Pipeline::FxaaNoise => "fxaa_noise"@,
            Pipeline::AutoexposureSampleColumns => "autoexposure_sample_columns"@,
            Pipeline::CopyTextureBilinear => "copy_texture_bilinear"@,
            Pipeline::CopyTextureBilinearTiled => "copy_texture_bilinear_tiled"@,
            Pipeline::CubemapApplySkyCopyAo => "cubemap_apply_sky_copy_ao"@,
            Pipeline::SkyGenerateSkyMask => "sky_generate_sky_mask"@,
            Pipeline::SkyLookupGenerateNear => "sky_lookup_generate_near"@,
            Pipeline::SkyLookupGenerateFar => "sky_lookup_generate_far"@,
            Pipeline::Sky => "sky"@,
            Pipeline::DebugCubemapDiffuseProbes => "debug_cubemap_diffuse_probes"@,
            Pipeline::DebugSourceColor => "debug_source_color"@,
            Pipeline::DebugSpecularSmoothness => "debug_specular_smoothness"@,
            Pipeline::DebugMetalness => "debug_metalness"@,
            Pipeline::DebugTextureAo => "debug_texture_ao"@,
            Pipeline::DebugAmbientOcclusion => "debug_ambient_occlusion"@,
            Pipeline::DebugEmissive => "debug_emissive"@,
            Pipeline::DebugEmissiveIntensity => "debug_emissive_intensity"@,
            Pipeline::DebugTransmission => "debug_transmission"@,
            Pipeline::DebugColoredOvercoatId => "debug_colored_overcoat_id"@,
            Pipeline::DebugDepthEdges => "debug_depth_edges"@,
            Pipeline::DebugWorldNormal => "debug_world_normal"@,
            Pipeline::DebugDiffuseLight => "debug_diffuse_light"@,
            Pipeline::DebugSpecularLight => "debug_specular_light"@,
            Pipeline::OverdrawVisualizer => "overdraw_visualizer"@,
            Pipeline::ScreenAreaGlobalLut3dNoTonemap => "screen_area_global_lut3d_no_tonemap"@,
            Pipeline::DownsampleDepthBuffer => "downsample_depth_buffer"@,
            Pipeline::UberDepthDefault => "uber_depth_default"@,
            Pipeline::DownsampleMaxMinAvgNoSwizzle => "downsample_max_min_avg_no_swizzle"@,
            Pipeline::BloomInitialDownsampleBlock2x2 => "bloom_initial_downsample_block_2x2"@,
            Pipeline::DownsampleBlock2x2WithNanKill => "downsample_block_2x2_with_nan_kill"@,
            Pipeline::DownsampleBlock2x2 => "downsample_block_2x2"@,
            Pipeline::DownsampleGaussian1x8 => "downsample_gaussian_1x8"@,
            Pipeline::DownsampleGaussian8x1 => "downsample_gaussian_8x1"@,
            Pipeline::DownsampleGaussian1x16 => "downsample_gaussian_1x16"@,
            Pipeline::DownsampleGaussian16x1 => "downsample_gaussian_16x1"@,
            Pipeline::Gaussian10Horz => "gaussian_10_horz"@,
            Pipeline::Gaussian10Vert => "gaussian_10_vert"@,
            Pipeline::Weighted6Horz => "weighted_6_horz"@,
            Pipeline::Weighted6Vert => "weighted_6_vert"@,
            Pipeline::CombinedBloomLineBlur => "combined_bloom_line_blur"@,
            Pipeline::RadialBlur8 => "radial_blur_8"@,
            Pipeline::WeightedAdd => "weighted_add"@,
            Pipeline::VolumetricsUpres1 => "volumetrics_upres_1"@,
            Pipeline::WaterSkyColorGenerate => "water_sky_color_generate"@,
            Pipeline::WaterReflectionHealing => "water_reflection_healing"@,
            Pipeline::WaterReflectionResolve => "water_reflection_resolve"@,
            Pipeline::WaterReflectionUvHealing => "water_reflection_uv_healing"@,
            Pipeline::CubemapApply { parallax, shape, alpha, probes, relighting } =>
                "cubemap_apply_"@ + text_if(parallax, "parall_"@) + shape.label() + "_alpha_"@
                    + on_off(alpha) + "_probes_"@ + on_off(probes) + "_relighting_"@ + on_off(
                    relighting,
                ),
            Pipeline::ScreenAreaGlobalLut3d { distort, noise, hdr } =>
                "screen_area_global_lut3d"@ + text_if(distort, "_distort"@) + text_if(
                    noise,
                    "_noise"@,
                ) + text_if(hdr, "_hdr"@),
        }
    }

    /// The pipeline with the given number.
    pub open spec fn numbered(number: int) -> Pipeline {
        if number >= LUT3D_BASE {
            let rest = number - LUT3D_BASE;
            Pipeline::ScreenAreaGlobalLut3d {
                distort: rest / 4 == 1,
                noise: rest / 2 % 2 == 1,
                hdr: rest % 2 == 1,
            }
        } else if number >= CUBEMAP_BASE {
            let rest = number - CUBEMAP_BASE;
            Pipeline::CubemapApply {
                parallax: rest / 24 == 1,
                shape: if rest % 24 < 8 {
                    CubemapShape::Cube
                } else if rest % 24 < 16 {
                    CubemapShape::Sphere
                } else {
                    CubemapShape::CubeSphere
                },
                alpha: rest % 8 / 4 == 1,
                probes: rest % 4 / 2 == 1,
                relighting: rest % 2 == 1,
            }
        } else {
            Pipeline::plain(number)
        }
    }

    /// The pipelines that belong to no family.
    pub open spec fn plain(number: int) -> Pipeline {
        if number == 0 {
            Pipeline::ClearColor2Mrt
        } else if number == 1 {
            Pipeline::DeferredShading
        } else if number == 2 {
            Pipeline::DeferredShadingNoAtm
        } else if number == 3 {
            Pipeline::GlobalLighting
        } else if number == 4 {
            Pipeline::GlobalLightingAndShading
        } else if number == 5 {
            Pipeline::GlobalLightingAndShadingGel
        } else if number == 6 {
            Pipeline::FinalCombineNoFilmCurve
        } else if number == 7 {
            Pipeline::FinalCombine
        } else if number == 8 {
            Pipeline::Hdao
        } else if number == 9 {
            Pipeline::ApplySsaoToLightBuffers
        } else if number == 10 {
            Pipeline::SsaoBilateralFilter
        } else if number == 11 {
            Pipeline::Fxaa
        } else if number == 12 {
            Pipeline::FxaaNoise
        } else if number == 13 {
            Pipeline::AutoexposureSampleColumns
        } else if number == 14 {
            Pipeline::CopyTextureBilinear
        } else if number == 15 {
            Pipeline::CopyTextureBilinearTiled
        } else if number == 16 {
            Pipeline::CubemapApplySkyCopyAo
        } else if number == 17 {
            Pipeline::SkyGenerateSkyMask
        } else if number == 18 {
            Pipeline::SkyLookupGenerateNear
        } else if number == 19 {
            Pipeline::SkyLookupGenerateFar
        } else if number == 20 {
            Pipeline::Sky
        } else if number == 21 {
            Pipeline::DebugCubemapDiffuseProbes
        } else if number == 22 {
            Pipeline::DebugSourceColor
        } else if number == 23 {
            Pipeline::DebugSpecularSmoothness
        } else if number == 24 {
            Pipeline::DebugMetalness
        } else if number == 25 {
            Pipeline::DebugTextureAo
        } else if number == 26 {
            Pipeline::DebugAmbientOcclusion
        } else if number == 27 {
            Pipeline::DebugEmissive
        } else if number == 28 {
            Pipeline::DebugEmissiveIntensity
        } else if number == 29 {
            Pipeline::DebugTransmission
        } else if number == 30 {
            Pipeline::DebugColoredOvercoatId
        } else if number == 31 {
            Pipeline::DebugDepthEdges
        } else if number == 32 {
            Pipeline::DebugWorldNormal
        } else if number == 33 {
            Pipeline::DebugDiffuseLight
        } else if number == 34 {
            Pipeline::DebugSpecularLight
        } else if number == 35 {
            Pipeline::OverdrawVisualizer
        } else if number == 36 {
            Pipeline::ScreenAreaGlobalLut3dNoTonemap
        } else if number == 37 {
            Pipeline::DownsampleDepthBuffer
        } else if number == 38 {
            Pipeline::UberDepthDefault
        } else if number == 39 {
            Pipeline::DownsampleMaxMinAvgNoSwizzle
        } else if number == 40 {
            Pipeline::BloomInitialDownsampleBlock2x2
        } else if number == 41 {
            Pipeline::DownsampleBlock2x2WithNanKill
        } else if number == 42 {
            Pipeline::DownsampleBlock2x2
        } else if number == 43 {
            Pipeline::DownsampleGaussian1x8
        } else if number == 44 {
            Pipeline::DownsampleGaussian8x1
        } else if number == 45 {
            Pipeline::DownsampleGaussian1x16
        } else if number == 46 {
            Pipeline::DownsampleGaussian16x1
        } else if number == 47 {
            Pipeline::Gaussian10Horz
        } else if number == 48 {
            Pipeline::Gaussian10Vert
        } else if number == 49 {
            Pipeline::Weighted6Horz
        } else if number == 50 {
            Pipeline::Weighted6Vert
        } else if number == 51 {
            Pipeline::CombinedBloomLineBlur
        } else if number == 52 {
            Pipeline::RadialBlur8
        } else if number == 53 {
            Pipeline::WeightedAdd
        } else if number == 54 {
            Pipeline::VolumetricsUpres1
        } else if number == 55 {
            Pipeline::WaterSkyColorGenerate
        } else if number == 56 {
            Pipeline::WaterReflectionHealing
        } else if number == 57 {
            Pipeline::WaterReflectionResolve
        } else {
            Pipeline::WaterReflectionUvHealing
        }
    }

    /// The pipeline with the given number.
    pub fn from_number(number: usize) -> (pipeline: Pipeline)
        requires
            number < PIPELINE_COUNT,
        ensures
            pipeline.number() == number,
    {
        if number >= LUT3D_BASE {
            let rest: usize = number - LUT3D_BASE;
            return Pipeline::ScreenAreaGlobalLut3d {
                distort: rest / 4 == 1,
                noise: rest / 2 % 2 == 1,
                hdr: rest % 2 == 1,
            };
        }
        if number >= CUBEMAP_BASE {
            let rest: usize = number - CUBEMAP_BASE;
            let in_shape: usize = rest % 24;
            return Pipeline::CubemapApply {
                parallax: rest / 24 == 1,
                shape: if in_shape < 8 {
                    CubemapShape::Cube
                } else if in_shape < 16 {
                    CubemapShape::Sphere
                } else {
                    CubemapShape::CubeSphere
                },
                alpha: rest % 8 / 4 == 1,
                probes: rest % 4 / 2 == 1,
                relighting: rest % 2 == 1,
            };
        }
        match number {
            0 => Pipeline::ClearColor2Mrt,
            1 => Pipeline::DeferredShading,
            2 => Pipeline::DeferredShadingNoAtm,
            3 => Pipeline::GlobalLighting,
            4 => Pipeline::GlobalLightingAndShading,
            5 => Pipeline::GlobalLightingAndShadingGel,
            6 => Pipeline::FinalCombineNoFilmCurve,
            7 => Pipeline::FinalCombine,
            8 => Pipeline::Hdao,
            9 => Pipeline::ApplySsaoToLightBuffers,
            10 => Pipeline::SsaoBilateralFilter,
            11 => Pipeline::Fxaa,
            12 => Pipeline::FxaaNoise,
            13 => Pipeline::AutoexposureSampleColumns,
            14 => Pipeline::CopyTextureBilinear,
            15 => Pipeline::CopyTextureBilinearTiled,
            16 => Pipeline::CubemapApplySkyCopyAo,
            17 => Pipeline::SkyGenerateSkyMask,
            18 => Pipeline::SkyLookupGenerateNear,
            19 => Pipeline::SkyLookupGenerateFar,
            20 => Pipeline::Sky,
            21 => Pipeline::DebugCubemapDiffuseProbes,
            22 => Pipeline::DebugSourceColor,
            23 => Pipeline::DebugSpecularSmoothness,
            24 => Pipeline::DebugMetalness,
            25 => Pipeline::DebugTextureAo,
            26 => Pipeline::DebugAmbientOcclusion,
            27 => Pipeline::DebugEmissive,
            28 => Pipeline::DebugEmissiveIntensity,
            29 => Pipeline::DebugTransmission,
            30 => Pipeline::DebugColoredOvercoatId,
            31 => Pipeline::DebugDepthEdges,
            32 => Pipeline::DebugWorldNormal,
            33 => Pipeline::DebugDiffuseLight,
            34 => Pipeline::DebugSpecularLight,
            35 => Pipeline::OverdrawVisualizer,
            36 => Pipeline::ScreenAreaGlobalLut3dNoTonemap,
            37 => Pipeline::DownsampleDepthBuffer,
            38 => Pipeline::UberDepthDefault,
            39 => Pipeline::DownsampleMaxMinAvgNoSwizzle,
            40 => Pipeline::BloomInitialDownsampleBlock2x2,
            41 => Pipeline::DownsampleBlock2x2WithNanKill,
            42 => Pipeline::DownsampleBlock2x2,
            43 => Pipeline::DownsampleGaussian1x8,
            44 => Pipeline::DownsampleGaussian8x1,
            45 => Pipeline::DownsampleGaussian1x16,
            46 => Pipeline::DownsampleGaussian16x1,
            47 => Pipeline::Gaussian10Horz,
            48 => Pipeline::Gaussian10Vert,
            49 => Pipeline::Weighted6Horz,
            50 => Pipeline::Weighted6Vert,
            51 => Pipeline::CombinedBloomLineBlur,
            52 => Pipeline::RadialBlur8,
            53 => Pipeline::WeightedAdd,
            54 => Pipeline::VolumetricsUpres1,
            55 => Pipeline::WaterSkyColorGenerate,
            56 => Pipeline::WaterReflectionHealing,
            57 => Pipeline::WaterReflectionResolve,
            _ => Pipeline::WaterReflectionUvHealing,
        }
    }

    pub fn index(self) -> (number: usize)
        ensures
            number == self.number(),
            number < PIPELINE_COUNT,
    {
        match self {
            Pipeline::ClearColor2Mrt => 0,
            Pipeline::DeferredShading => 1,
            Pipeline::DeferredShadingNoAtm => 2,
            Pipeline::GlobalLighting => 3,
            Pipeline::GlobalLightingAndShading => 4,
            Pipeline::GlobalLightingAndShadingGel => 5,
            Pipeline::FinalCombineNoFilmCurve => 6,
            Pipeline::FinalCombine => 7,
            Pipeline::Hdao => 8,
            Pipeline::ApplySsaoToLightBuffers => 9,
            Pipeline::SsaoBilateralFilter => 10,
            Pipeline::Fxaa => 11,
            Pipeline::FxaaNoise => 12,
            Pipeline::AutoexposureSampleColumns => 13,
            Pipeline::CopyTextureBilinear => 14,
            Pipeline::CopyTextureBilinearTiled => 15,
            Pipeline::CubemapApplySkyCopyAo => 16,
            Pipeline::SkyGenerateSkyMask => 17,
            Pipeline::SkyLookupGenerateNear => 18,
            Pipeline::SkyLookupGenerateFar => 19,
            Pipeline::Sky => 20,
            Pipeline::DebugCubemapDiffuseProbes => 21,
            Pipeline::DebugSourceColor => 22,
            Pipeline::DebugSpecularSmoothness => 23,
            Pipeline::DebugMetalness => 24,
            Pipeline::DebugTextureAo => 25,
            Pipeline::DebugAmbientOcclusion => 26,
            Pipeline::DebugEmissive => 27,
            Pipeline::DebugEmissiveIntensity => 28,
            Pipeline::DebugTransmission => 29,
            Pipeline::DebugColoredOvercoatId => 30,
            Pipeline::DebugDepthEdges => 31,
            Pipeline::DebugWorldNormal => 32,
            Pipeline::DebugDiffuseLight => 33,
            Pipeline::DebugSpecularLight => 34,
            Pipeline::OverdrawVisualizer => 35,
            Pipeline::ScreenAreaGlobalLut3dNoTonemap => 36,
            Pipeline::DownsampleDepthBuffer => 37,
            Pipeline::UberDepthDefault => 38,
            Pipeline::DownsampleMaxMinAvgNoSwizzle => 39,
            Pipeline::BloomInitialDownsampleBlock2x2 => 40,
            Pipeline::DownsampleBlock2x2WithNanKill => 41,
            Pipeline::DownsampleBlock2x2 => 42,
            Pipeline::DownsampleGaussian1x8 => 43,
            Pipeline::DownsampleGaussian8x1 => 44,
            Pipeline::DownsampleGaussian1x16 => 45,
            Pipeline::DownsampleGaussian16x1 => 46,
            Pipeline::Gaussian10Horz => 47,
            Pipeline::Gaussian10Vert => 48,
            Pipeline::Weighted6Horz => 49,
            Pipeline::Weighted6Vert => 50,
            Pipeline::CombinedBloomLineBlur => 51,
            Pipeline::RadialBlur8 => 52,
            Pipeline::WeightedAdd => 53,
            Pipeline::VolumetricsUpres1 => 54,
            Pipeline::WaterSkyColorGenerate => 55,
            Pipeline::WaterReflectionHealing => 56,
            Pipeline::WaterReflectionResolve => 57,
            Pipeline::WaterReflectionUvHealing => 58,
            Pipeline::CubemapApply { parallax, shape, alpha, probes, relighting } => {
                let shape_number: usize = match shape {
                    CubemapShape::Cube => 0,
                    CubemapShape::Sphere => 1,
                    CubemapShape::CubeSphere => 2,
                };
                CUBEMAP_BASE + 24 * number_of(parallax) + 8 * shape_number + 4 * number_of(alpha)
                    + 2 * number_of(probes) + number_of(relighting)
            },
            Pipeline::ScreenAreaGlobalLut3d { distort, noise, hdr } => LUT3D_BASE + 4 * number_of(
                distort,
            ) + 2 * number_of(noise) + number_of(hdr),
        }
    }

    /// The name under which packages list a pipeline.
    pub fn name(self) -> (text: String)
        ensures
            text@ == self.label(),
    {
        match self {
            Pipeline::ClearColor2Mrt => "clear_color_2_mrt".to_owned(),
            Pipeline::DeferredShading => "deferred_shading".to_owned(),
            Pipeline::DeferredShadingNoAtm => "deferred_shading_no_atm".to_owned(),
            Pipeline::GlobalLighting => "global_lighting".to_owned(),
            Pipeline::GlobalLightingAndShading => "global_lighting_and_shading".to_owned(),
            Pipeline::GlobalLightingAndShadingGel => "global_lighting_and_shading_gel".to_owned(),
            Pipeline::FinalCombineNoFilmCurve => "final_combine_no_film_curve".to_owned(),
            Pipeline::FinalCombine => "final_combine".to_owned(),
            Pipeline::Hdao => "hdao".to_owned(),
            Pipeline::ApplySsaoToLightBuffers => "apply_ssao_to_light_buffers".to_owned(),
            Pipeline::SsaoBilateralFilter => "ssao_bilateral_filter".to_owned(),
            Pipeline::Fxaa => "fxaa".to_owned(),
            Pipeline::FxaaNoise => "fxaa_noise".to_owned(),
            Pipeline::AutoexposureSampleColumns => "autoexposure_sample_columns".to_owned(),
            Pipeline::CopyTextureBilinear => "copy_texture_bilinear".to_owned(),
            Pipeline::CopyTextureBilinearTiled => "copy_texture_bilinear_tiled".to_owned(),
            Pipeline::CubemapApplySkyCopyAo => "cubemap_apply_sky_copy_ao".to_owned(),
            Pipeline::SkyGenerateSkyMask => "sky_generate_sky_mask".to_owned(),
            Pipeline::SkyLookupGenerateNear => "sky_lookup_generate_near".to_owned(),
            Pipeline::SkyLookupGenerateFar => "sky_lookup_generate_far".to_owned(),
            Pipeline::Sky => "sky".to_owned(),
            Pipeline::DebugCubemapDiffuseProbes => "debug_cubemap_diffuse_probes".to_owned(),
            Pipeline::DebugSourceColor => "debug_source_color".to_owned(),
            Pipeline::DebugSpecularSmoothness => "debug_specular_smoothness".to_owned(),
            Pipeline::DebugMetalness => "debug_metalness".to_owned(),
            Pipeline::DebugTextureAo => "debug_texture_ao".to_owned(),
            Pipeline::DebugAmbientOcclusion => "debug_ambient_occlusion".to_owned(),
            Pipeline::DebugEmissive => "debug_emissive".to_owned(),
            Pipeline::DebugEmissiveIntensity => "debug_emissive_intensity".to_owned(),
            Pipeline::DebugTransmission => "debug_transmission".to_owned(),
            Pipeline::DebugColoredOvercoatId => "debug_colored_overcoat_id".to_owned(),
            Pipeline::DebugDepthEdges => "debug_depth_edges".to_owned(),
            Pipeline::DebugWorldNormal => "debug_world_normal".to_owned(),
            Pipeline::DebugDiffuseLight => "debug_diffuse_light".to_owned(),
            Pipeline::DebugSpecularLight => "debug_specular_light".to_owned(),
            Pipeline::OverdrawVisualizer => "overdraw_visualizer".to_owned(),
            Pipeline::ScreenAreaGlobalLut3dNoTonemap => "screen_area_global_lut3d_no_tonemap".to_owned(),
            Pipeline::DownsampleDepthBuffer => "downsample_depth_buffer".to_owned(),
            Pipeline::UberDepthDefault => "uber_depth_default".to_owned(),
            Pipeline::DownsampleMaxMinAvgNoSwizzle => "downsample_max_min_avg_no_swizzle".to_owned(),
            Pipeline::BloomInitialDownsampleBlock2x2 => "bloom_initial_downsample_block_2x2".to_owned(),
            Pipeline::DownsampleBlock2x2WithNanKill => "downsample_block_2x2_with_nan_kill".to_owned(),
            Pipeline::DownsampleBlock2x2 => "downsample_block_2x2".to_owned(),
            Pipeline::DownsampleGaussian1x8 => "downsample_gaussian_1x8".to_owned(),
            Pipeline::DownsampleGaussian8x1 => "downsample_gaussian_8x1".to_owned(),
            Pipeline::DownsampleGaussian1x16 => "downsample_gaussian_1x16".to_owned(),
            Pipeline::DownsampleGaussian16x1 => "downsample_gaussian_16x1".to_owned(),
            Pipeline::Gaussian10Horz => "gaussian_10_horz".to_owned(),
            Pipeline::Gaussian10Vert => "gaussian_10_vert".to_owned(),
            Pipeline::Weighted6Horz => "weighted_6_horz".to_owned(),
            Pipeline::Weighted6Vert => "weighted_6_vert".to_owned(),
            Pipeline::CombinedBloomLineBlur => "combined_bloom_line_blur".to_owned(),
            Pipeline::RadialBlur8 => "radial_blur_8".to_owned(),
            Pipeline::WeightedAdd => "weighted_add".to_owned(),
            Pipeline::VolumetricsUpres1 => "volumetrics_upres_1".to_owned(),
            Pipeline::WaterSkyColorGenerate => "water_sky_color_generate".to_owned(),
            Pipeline::WaterReflectionHealing => "water_reflection_healing".to_owned(),
            Pipeline::WaterReflectionResolve => "water_reflection_resolve".to_owned(),
            Pipeline::WaterReflectionUvHealing => "water_reflection_uv_healing".to_owned(),
            Pipeline::CubemapApply { parallax, shape, alpha, probes, relighting } => {
                let mut text = "cubemap_apply_".to_owned();
                append_if(&mut text, parallax, "parall_");
                match shape {
                    CubemapShape::Cube => text.append("cube"),
                    CubemapShape::Sphere => text.append("sphere"),
                    CubemapShape::CubeSphere => text.append("cube_sphere"),
                }
                text.append("_alpha_");
                append_on_off(&mut text, alpha);
                text.append("_probes_");
                append_on_off(&mut text, probes);
                text.append("_relighting_");
                append_on_off(&mut text, relighting);
                text
            },
            Pipeline::ScreenAreaGlobalLut3d { distort, noise, hdr } => {
                let mut text = "screen_area_global_lut3d".to_owned();
                append_if(&mut text, distort, "_distort");
                append_if(&mut text, noise, "_noise");
                append_if(&mut text, hdr, "_hdr");
                text
            },
        }
    }
}

/// Every pipeline is the one with its number, so no two share a number.
pub proof fn law_pipelines_are_found_by_their_number(pipeline: Pipeline)
    ensures
        0 <= pipeline.number() < PIPELINE_COUNT,
        Pipeline::numbered(pipeline.number()) == pipeline,
{
}

fn number_of(value: bool) -> (number: usize)
    ensures
        number == flag(value),
{
    if value {
        1
    } else {
        0
    }
}

fn append_if(text: &mut String, value: bool, part: &str)
    ensures
        final(text)@ == old(text)@ + text_if(value, part@),
{
    if value {
        text.append(part);
    } else {
        assert(text@ + Seq::<char>::empty() =~= text@);
    }
}

fn append_on_off(text: &mut String, value: bool)
    ensures
        final(text)@ == old(text)@ + on_off(value),
{
    if value {
        text.append("on");
    } else {
        text.append("off");
    }
}

/// The global scopes.
#[derive(Clone, Copy, Debug, PartialEq, Eq, Structural)]
pub enum GlobalScope {
    Frame,
    View,
    RigidModel,
    EditorMesh,
    EditorTerrain,
    CuiView,
    CuiObject,
    Skinning,
    Speedtree,
    ChunkModel,
    Decal,
    Instances,
    SpeedtreeLodDrawcallData,
    Transparent,
    TransparentAdvanced,
    SdsmBiasAndScaleTextures,
    Terrain,
    Postprocess,
    CuiBitmap,
    CuiStandard,
    UiFont,
    CuiHud,
    ParticleTransforms,
    ParticleLocationMetadata,
    CubemapVolume,
    GearPlatedTextures,
    GenericArray,
}

/// How many global scopes there are.
pub const SCOPE_COUNT: usize = 27;

impl GlobalScope {
    pub open spec fn number(self) -> int {
        match self {
            GlobalScope::Frame => 0,
            GlobalScope::View => 1,
            GlobalScope::RigidModel => 2,
            GlobalScope::EditorMesh => 3,
            GlobalScope::EditorTerrain => 4,
            GlobalScope::CuiView => 5,
            GlobalScope::CuiObject => 6,
            GlobalScope::Skinning => 7,
            GlobalScope::Speedtree => 8,
            GlobalScope::ChunkModel => 9,
            GlobalScope::Decal => 10,
            GlobalScope::Instances => 11,
            GlobalScope::SpeedtreeLodDrawcallData => 12,
            GlobalScope::Transparent => 13,
            GlobalScope::TransparentAdvanced => 14,
            GlobalScope::SdsmBiasAndScaleTextures => 15,
            GlobalScope::Terrain => 16,
            GlobalScope::Postprocess => 17,
            GlobalScope::CuiBitmap => 18,
            GlobalScope::CuiStandard => 19,
            GlobalScope::UiFont => 20,
            GlobalScope::CuiHud => 21,
            GlobalScope::ParticleTransforms => 22,
            GlobalScope::ParticleLocationMetadata => 23,
            GlobalScope::CubemapVolume => 24,
            GlobalScope::GearPlatedTextures => 25,
            GlobalScope::GenericArray => 26,
        }
    }

    /// The name under which packages list a scope.
    pub open spec fn label(self) -> Seq<char> {
        match self {
            GlobalScope::Frame => "frame"@,
            GlobalScope::View => "view"@,
            GlobalScope::RigidModel => "rigid_model"@,
            GlobalScope::EditorMesh => "editor_mesh"@,
            GlobalScope::EditorTerrain => "editor_terrain"@,
            GlobalScope::CuiView => "cui_view"@,
            GlobalScope::CuiObject => "cui_object"@,
            GlobalScope::Skinning => "skinning"@,
            GlobalScope::Speedtree => "speedtree"@,
            GlobalScope::ChunkModel => "chunk_model"@,
            GlobalScope::Decal => "decal"@,
            GlobalScope::Instances => "instances"@,
            GlobalScope::SpeedtreeLodDrawcallData => "speedtree_lod_drawcall_data"@,
            GlobalScope::Transparent => "transparent"@,
            GlobalScope::TransparentAdvanced => "transparent_advanced"@,
            GlobalScope::SdsmBiasAndScaleTextures => "sdsm_bias_and_scale_textures"@,
            GlobalScope::Terrain => "terrain"@,
            GlobalScope::Postprocess => "postprocess"@,
            GlobalScope::CuiBitmap => "cui_bitmap"@,
            GlobalScope::CuiStandard => "cui_standard"@,
            GlobalScope::UiFont => "ui_font"@,
            GlobalScope::CuiHud => "cui_hud"@,
            GlobalScope::ParticleTransforms => "particle_transforms"@,
            GlobalScope::ParticleLocationMetadata => "particle_location_metadata"@,
            GlobalScope::CubemapVolume => "cubemap_volume"@,
            GlobalScope::GearPlatedTextures => "gear_plated_textures"@,
            GlobalScope::GenericArray => "generic_array"@,
        }
    }

    pub fn from_number(number: usize) -> (scope: GlobalScope)
        requires
            number < SCOPE_COUNT,
        ensures
            scope.number() == number,
    {
        match number {
            0 => GlobalScope::Frame,
            1 => GlobalScope::View,
            2 => GlobalScope::RigidModel,
            3 => GlobalScope::EditorMesh,
            4 => GlobalScope::EditorTerrain,
            5 => GlobalScope::CuiView,
            6 => GlobalScope::CuiObject,
            7 => GlobalScope::Skinning,
            8 => GlobalScope::Speedtree,
            9 => GlobalScope::ChunkModel,
            10 => GlobalScope::Decal,
            11 => GlobalScope::Instances,
            12 => GlobalScope::SpeedtreeLodDrawcallData,
            13 => GlobalScope::Transparent,
            14 => GlobalScope::TransparentAdvanced,
            15 => GlobalScope::SdsmBiasAndScaleTextures,
            16 => GlobalScope::Terrain,
            17 => GlobalScope::Postprocess,
            18 => GlobalScope::CuiBitmap,
            19 => GlobalScope::CuiStandard,
            20 => GlobalScope::UiFont,
            21 => GlobalScope::CuiHud,
            22 => GlobalScope::ParticleTransforms,
            23 => GlobalScope::ParticleLocationMetadata,
            24 => GlobalScope::CubemapVolume,
            25 => GlobalScope::GearPlatedTextures,
            _ => GlobalScope::GenericArray,
        }
    }

    pub fn index(self) -> (number: usize)
        ensures
            number == self.number(),
            number < SCOPE_COUNT,
    {
        match self {
            GlobalScope::Frame => 0,
            GlobalScope::View => 1,
            GlobalScope::RigidModel => 2,
            GlobalScope::EditorMesh => 3,
            GlobalScope::EditorTerrain => 4,
            GlobalScope::CuiView => 5,
            GlobalScope::CuiObject => 6,
            GlobalScope::Skinning => 7,
            GlobalScope::Speedtree => 8,
            GlobalScope::ChunkModel => 9,
            GlobalScope::Decal => 10,
            GlobalScope::Instances => 11,
            GlobalScope::SpeedtreeLodDrawcallData => 12,
            GlobalScope::Transparent => 13,
            GlobalScope::TransparentAdvanced => 14,
            GlobalScope::SdsmBiasAndScaleTextures => 15,
            GlobalScope::Terrain => 16,
            GlobalScope::Postprocess => 17,
            GlobalScope::CuiBitmap => 18,
            GlobalScope::CuiStandard => 19,
            GlobalScope::UiFont => 20,
            GlobalScope::CuiHud => 21,
            GlobalScope::ParticleTransforms => 22,
            GlobalScope::ParticleLocationMetadata => 23,
            GlobalScope::CubemapVolume => 24,
            GlobalScope::GearPlatedTextures => 25,
            GlobalScope::GenericArray => 26,
        }
    }

    /// The name under which packages list a scope.
    pub fn name(self) -> (text: &'static str)
        ensures
            text@ == self.label(),
    {
        match self {
            GlobalScope::Frame => "frame",
            GlobalScope::View => "view",
            GlobalScope::RigidModel => "rigid_model",
            GlobalScope::EditorMesh => "editor_mesh",
            GlobalScope::EditorTerrain => "editor_terrain",
            GlobalScope::CuiView => "cui_view",
            GlobalScope::CuiObject => "cui_object",
            GlobalScope::Skinning => "skinning",
            GlobalScope::Speedtree => "speedtree",
            GlobalScope::ChunkModel => "chunk_model",
            GlobalScope::Decal => "decal",
            GlobalScope::Instances => "instances",
            GlobalScope::SpeedtreeLodDrawcallData => "speedtree_lod_drawcall_data",
            GlobalScope::Transparent => "transparent",
            GlobalScope::TransparentAdvanced => "transparent_advanced",
            GlobalScope::SdsmBiasAndScaleTextures => "sdsm_bias_and_scale_textures",
            GlobalScope::Terrain => "terrain",
            GlobalScope::Postprocess => "postprocess",
            GlobalScope::CuiBitmap => "cui_bitmap",
            GlobalScope::CuiStandard => "cui_standard",
            GlobalScope::UiFont => "ui_font",
            GlobalScope::CuiHud => "cui_hud",
            GlobalScope::ParticleTransforms => "particle_transforms",
            GlobalScope::ParticleLocationMetadata => "particle_location_metadata",
            GlobalScope::CubemapVolume => "cubemap_volume",
            GlobalScope::GearPlatedTextures => "gear_plated_textures",
            GlobalScope::GenericArray => "generic_array",
        }
    }
}

/// No two scopes share a number.
pub proof fn law_scope_numbers_are_distinct(a: GlobalScope, b: GlobalScope)
    ensures
        0 <= a.number() < SCOPE_COUNT,
        a.number() == b.number() ==> a == b,
{
}

/// Each pipeline goes by this name in the packages.
pub proof fn law_pipelines_are_named()
    ensures
        Pipeline::ClearColor2Mrt.label() == "clear_color_2_mrt"@,
        Pipeline::DeferredShading.label() == "deferred_shading"@,
        Pipeline::DeferredShadingNoAtm.label() == "deferred_shading_no_atm"@,
        Pipeline::GlobalLighting.label() == "global_lighting"@,
        Pipeline::GlobalLightingAndShading.label() == "global_lighting_and_shading"@,
        Pipeline::GlobalLightingAndShadingGel.label() == "global_lighting_and_shading_gel"@,
        Pipeline::FinalCombineNoFilmCurve.label() == "final_combine_no_film_curve"@,
        Pipeline::FinalCombine.label() == "final_combine"@,
        Pipeline::Hdao.label() == "hdao"@,
        Pipeline::ApplySsaoToLightBuffers.label() == "apply_ssao_to_light_buffers"@,
        Pipeline::SsaoBilateralFilter.label() == "ssao_bilateral_filter"@,
        Pipeline::Fxaa.label() == "fxaa"@,
        Pipeline::FxaaNoise.label() == "fxaa_noise"@,
        Pipeline::AutoexposureSampleColumns.label() == "autoexposure_sample_columns"@,
        Pipeline::CopyTextureBilinear.label() == "copy_texture_bilinear"@,
        Pipeline::CopyTextureBilinearTiled.label() == "copy_texture_bilinear_tiled"@,
        Pipeline::CubemapApplySkyCopyAo.label() == "cubemap_apply_sky_copy_ao"@,
        Pipeline::SkyGenerateSkyMask.label() == "sky_generate_sky_mask"@,
        Pipeline::SkyLookupGenerateNear.label() == "sky_lookup_generate_near"@,
        Pipeline::SkyLookupGenerateFar.label() == "sky_lookup_generate_far"@,
        Pipeline::Sky.label() == "sky"@,
        Pipeline::DebugCubemapDiffuseProbes.label() == "debug_cubemap_diffuse_probes"@,
        Pipeline::DebugSourceColor.label() == "debug_source_color"@,
        Pipeline::DebugSpecularSmoothness.label() == "debug_specular_smoothness"@,
        Pipeline::DebugMetalness.label() == "debug_metalness"@,
        Pipeline::DebugTextureAo.label() == "debug_texture_ao"@,
        Pipeline::DebugAmbientOcclusion.label() == "debug_ambient_occlusion"@,
        Pipeline::DebugEmissive.label() == "debug_emissive"@,
        Pipeline::DebugEmissiveIntensity.label() == "debug_emissive_intensity"@,
        Pipeline::DebugTransmission.label() == "debug_transmission"@,
        Pipeline::DebugColoredOvercoatId.label() == "debug_colored_overcoat_id"@,
        Pipeline::DebugDepthEdges.label() == "debug_depth_edges"@,
        Pipeline::DebugWorldNormal.label() == "debug_world_normal"@,
        Pipeline::DebugDiffuseLight.label() == "debug_diffuse_light"@,
        Pipeline::DebugSpecularLight.label() == "debug_specular_light"@,
        Pipeline::OverdrawVisualizer.label() == "overdraw_visualizer"@,
        Pipeline::ScreenAreaGlobalLut3dNoTonemap.label() == "screen_area_global_lut3d_no_tonemap"@,
        Pipeline::DownsampleDepthBuffer.label() == "downsample_depth_buffer"@,
        Pipeline::UberDepthDefault.label() == "uber_depth_default"@,
        Pipeline::DownsampleMaxMinAvgNoSwizzle.label() == "downsample_max_min_avg_no_swizzle"@,
        Pipeline::BloomInitialDownsampleBlock2x2.label() == "bloom_initial_downsample_block_2x2"@,
        Pipeline::DownsampleBlock2x2WithNanKill.label() == "downsample_block_2x2_with_nan_kill"@,
        Pipeline::DownsampleBlock2x2.label() == "downsample_block_2x2"@,
        Pipeline::DownsampleGaussian1x8.label() == "downsample_gaussian_1x8"@,
        Pipeline::DownsampleGaussian8x1.label() == "downsample_gaussian_8x1"@,
        Pipeline::DownsampleGaussian1x16.label() == "downsample_gaussian_1x16"@,
        Pipeline::DownsampleGaussian16x1.label() == "downsample_gaussian_16x1"@,
        Pipeline::Gaussian10Horz.label() == "gaussian_10_horz"@,
        Pipeline::Gaussian10Vert.label() == "gaussian_10_vert"@,
        Pipeline::Weighted6Horz.label() == "weighted_6_horz"@,
        Pipeline::Weighted6Vert.label() == "weighted_6_vert"@,
        Pipeline::CombinedBloomLineBlur.label() == "combined_bloom_line_blur"@,
        Pipeline::RadialBlur8.label() == "radial_blur_8"@,
        Pipeline::WeightedAdd.label() == "weighted_add"@,
        Pipeline::VolumetricsUpres1.label() == "volumetrics_upres_1"@,
        Pipeline::WaterSkyColorGenerate.label() == "water_sky_color_generate"@,
        Pipeline::WaterReflectionHealing.label() == "water_reflection_healing"@,
        Pipeline::WaterReflectionResolve.label() == "water_reflection_resolve"@,
        Pipeline::WaterReflectionUvHealing.label() == "water_reflection_uv_healing"@,
{
}

/// Each shape of a cubemap goes by this name.
pub proof fn law_shapes_are_named()
    ensures
        CubemapShape::Cube.label() == "cube"@,
        CubemapShape::Sphere.label() == "sphere"@,
        CubemapShape::CubeSphere.label() == "cube_sphere"@,
{
}

/// Each scope goes by this name in the packages.
pub proof fn law_scopes_are_named()
    ensures
        GlobalScope::Frame.label() == "frame"@,
        GlobalScope::View.label() == "view"@,
        GlobalScope::RigidModel.label() == "rigid_model"@,
        GlobalScope::EditorMesh.label() == "editor_mesh"@,
        GlobalScope::EditorTerrain.label() == "editor_terrain"@,
        GlobalScope::CuiView.label() == "cui_view"@,
        GlobalScope::CuiObject.label() == "cui_object"@,
        GlobalScope::Skinning.label() == "skinning"@,
        GlobalScope::Speedtree.label() == "speedtree"@,
        GlobalScope::ChunkModel.label() == "chunk_model"@,
        GlobalScope::Decal.label() == "decal"@,
        GlobalScope::Instances.label() == "instances"@,
        GlobalScope::SpeedtreeLodDrawcallData.label() == "speedtree_lod_drawcall_data"@,
        GlobalScope::Transparent.label() == "transparent"@,
        GlobalScope::TransparentAdvanced.label() == "transparent_advanced"@,
        GlobalScope::SdsmBiasAndScaleTextures.label() == "sdsm_bias_and_scale_textures"@,
        GlobalScope::Terrain.label() == "terrain"@,
        GlobalScope::Postprocess.label() == "postprocess"@,
        GlobalScope::CuiBitmap.label() == "cui_bitmap"@,
        GlobalScope::CuiStandard.label() == "cui_standard"@,
        GlobalScope::UiFont.label() == "ui_font"@,
        GlobalScope::CuiHud.label() == "cui_hud"@,
        GlobalScope::ParticleTransforms.label() == "particle_transforms"@,
        GlobalScope::ParticleLocationMetadata.label() == "particle_location_metadata"@,
        GlobalScope::CubemapVolume.label() == "cubemap_volume"@,
        GlobalScope::GearPlatedTextures.label() == "gear_plated_textures"@,
        GlobalScope::GenericArray.label() == "generic_array"@,
{
}

/// The name of a specialized pipeline lists what it is specialized for, in a fixed order.
pub proof fn law_specialized_pipelines_list_what_they_do(
    parallax: bool,
    shape: CubemapShape,
    alpha: bool,
    probes: bool,
    relighting: bool,
    distort: bool,
    noise: bool,
    hdr: bool,
)
    ensures
        ({
            let none = Seq::<char>::empty();
            let parallax_part = if parallax {
                "parall_"@
            } else {
                none
            };
            let alpha_part = if alpha {
                "on"@
            } else {
                "off"@
            };
            let probes_part = if probes {
                "on"@
            } else {
                "off"@
            };
            let relighting_part = if relighting {
                "on"@
            } else {
                "off"@
            };
            (Pipeline::CubemapApply { parallax, shape, alpha, probes, relighting }).label()
                == "cubemap_apply_"@ + parallax_part + shape.label() + "_alpha_"@ + alpha_part
                + "_probes_"@ + probes_part + "_relighting_"@ + relighting_part
        }),
        ({
            let none = Seq::<char>::empty();
            let distort_part = if distort {
                "_distort"@
            } else {
                none
            };
            let noise_part = if noise {
                "_noise"@
            } else {
                none
            };
            let hdr_part = if hdr {
                "_hdr"@
            } else {
                none
            };
            (Pipeline::ScreenAreaGlobalLut3d { distort, noise, hdr }).label()
                == "screen_area_global_lut3d"@ + distort_part + noise_part + hdr_part
        }),
{
}

} // verus!
