//! Shader input blocks ("externs") and how expressions number them.

use vstd::prelude::*;

verus! {

/// The input blocks that an expression can read, in the renderer's numbering.
#[derive(Clone, Copy, Debug, PartialEq, Eq, Structural)]
pub enum ExternIndex {
    Null,
    Frame,
    View,
    Deferred,
    DeferredLight,
    DeferredUberLight,
    DeferredShadow,
    Atmosphere,
    RigidModel,
    EditorMesh,
    EditorMeshMaterial,
    EditorDecal,
    EditorTerrain,
    EditorTerrainPatch,
    EditorTerrainDebug,
    SimpleGeometry,
    UiFont,
    CuiView,
    CuiObject,
    CuiBitmap,
    CuiVideo,
    CuiStandard,
    CuiHud,
    CuiScreenspaceBoxes,
    CuiDrawingShader,
    TextureVisualizer,
    Generic,
    Particle,
    ParticleDebug,
    GearDyeVisualizationMode,
    ScreenArea,
    Mlaa,
    Msaa,
    Hdao,
    DownsampleTextureGeneric,
    DownsampleDepth,
    Ssao,
    VolumetricObscurance,
    Postprocess,
    TextureSet,
    Transparent,
    Vignette,
    GlobalLighting,
    ShadowMask,
    ObjectEffect,
    Decal,
    DecalSetTransform,
    DynamicDecal,
    DecoratorWind,
    TextureCameraLighting,
    VolumeFog,
    Fxaa,
    Smaa,
    Letterbox,
    DepthOfField,
    PostprocessInitialDownsample,
    CopyDepth,
    DisplacementMotionBlur,
    DebugShader,
    MinmaxDepth,
    SdsmBiasAndScale,
    SdsmBiasAndScaleTextures,
    ComputeShadowMapData,
    ComputeLocalLightShadowMapData,
    BilateralUpsample,
    HealthOverlay,
    LightProbeDominantLight,
    LightProbeLightInstance,
    Water,
    LensFlare,
    ScreenShader,
    Scaler,
    GammaControl,
    SpeedtreePlacements,
    Reticle,
    Distortion,
    WaterDebug,
    ScreenAreaInput,
    WaterDepthPrepass,
    OverheadVisibilityMap,
    ParticleCompute,
    CubemapFiltering,
    ParticleFastpath,
    VolumetricsPass,
    TemporalReprojection,
    FxaaCompute,
    VbCopyCompute,
    UberDepth,
    GearDye,
    Cubemaps,
    ShadowBlendWithPrevious,
    DebugShadingOutput,
    Ssao3d,
    WaterDisplacement,
    PatternBlending,
    UiHdrTransform,
    PlayerCenteredCascadedGrid,
    SoftDeform,
}

impl ExternIndex {
    /// The number of a block.
    pub open spec fn number(self) -> u8 {
        match self {
            ExternIndex::Null => 0,
            ExternIndex::Frame => 1,
            ExternIndex::View => 2,
            ExternIndex::Deferred => 3,
            ExternIndex::DeferredLight => 4,
            ExternIndex::DeferredUberLight => 5,
            ExternIndex::DeferredShadow => 6,
            ExternIndex::Atmosphere => 7,
            ExternIndex::RigidModel => 8,
            ExternIndex::EditorMesh => 9,
            ExternIndex::EditorMeshMaterial => 10,
            ExternIndex::EditorDecal => 11,
            ExternIndex::EditorTerrain => 12,
            ExternIndex::EditorTerrainPatch => 13,
            ExternIndex::EditorTerrainDebug => 14,
            ExternIndex::SimpleGeometry => 15,
            ExternIndex::UiFont => 16,
            ExternIndex::CuiView => 17,
            ExternIndex::CuiObject => 18,
            ExternIndex::CuiBitmap => 19,
            ExternIndex::CuiVideo => 20,
            ExternIndex::CuiStandard => 21,
            ExternIndex::CuiHud => 22,
            ExternIndex::CuiScreenspaceBoxes => 23,
            ExternIndex::CuiDrawingShader => 24,
            ExternIndex::TextureVisualizer => 25,
            ExternIndex::Generic => 26,
            ExternIndex::Particle => 27,
            ExternIndex::ParticleDebug => 28,
            ExternIndex::GearDyeVisualizationMode => 29,
            ExternIndex::ScreenArea => 30,
            ExternIndex::Mlaa => 31,
            ExternIndex::Msaa => 32,
            ExternIndex::Hdao => 33,
            ExternIndex::DownsampleTextureGeneric => 34,
            ExternIndex::DownsampleDepth => 35,
            ExternIndex::Ssao => 36,
            ExternIndex::VolumetricObscurance => 37,
            ExternIndex::Postprocess => 38,
            ExternIndex::TextureSet => 39,
            ExternIndex::Transparent => 40,
            ExternIndex::Vignette => 41,
            ExternIndex::GlobalLighting => 42,
            ExternIndex::ShadowMask => 43,
            ExternIndex::ObjectEffect => 44,
            ExternIndex::Decal => 45,
            ExternIndex::DecalSetTransform => 46,
            ExternIndex::DynamicDecal => 47,
            ExternIndex::DecoratorWind => 48,
            ExternIndex::TextureCameraLighting => 49,
            ExternIndex::VolumeFog => 50,
            ExternIndex::Fxaa => 51,
            ExternIndex::Smaa => 52,
            ExternIndex::Letterbox => 53,
            ExternIndex::DepthOfField => 54,
            ExternIndex::PostprocessInitialDownsample => 55,
            ExternIndex::CopyDepth => 56,
            ExternIndex::DisplacementMotionBlur => 57,
            ExternIndex::DebugShader => 58,
            ExternIndex::MinmaxDepth => 59,
            ExternIndex::SdsmBiasAndScale => 60,
            ExternIndex::SdsmBiasAndScaleTextures => 61,
            ExternIndex::ComputeShadowMapData => 62,
            ExternIndex::ComputeLocalLightShadowMapData => 63,
            ExternIndex::BilateralUpsample => 64,
            ExternIndex::HealthOverlay => 65,
            ExternIndex::LightProbeDominantLight => 66,
            ExternIndex::LightProbeLightInstance => 67,
            ExternIndex::Water => 68,
            ExternIndex::LensFlare => 69,
            ExternIndex::ScreenShader => 70,
            ExternIndex::Scaler => 71,
            ExternIndex::GammaControl => 72,
            ExternIndex::SpeedtreePlacements => 73,
            ExternIndex::Reticle => 74,
            ExternIndex::Distortion => 75,
            ExternIndex::WaterDebug => 76,
            ExternIndex::ScreenAreaInput => 77,
            ExternIndex::WaterDepthPrepass => 78,
            ExternIndex::OverheadVisibilityMap => 79,
            ExternIndex::ParticleCompute => 80,
            ExternIndex::CubemapFiltering => 81,
            ExternIndex::ParticleFastpath => 82,
            ExternIndex::VolumetricsPass => 83,
            ExternIndex::TemporalReprojection => 84,
            ExternIndex::FxaaCompute => 85,
            ExternIndex::VbCopyCompute => 86,
            ExternIndex::UberDepth => 87,
            ExternIndex::GearDye => 88,
            ExternIndex::Cubemaps => 89,
            ExternIndex::ShadowBlendWithPrevious => 90,
            ExternIndex::DebugShadingOutput => 91,
            ExternIndex::Ssao3d => 92,
            ExternIndex::WaterDisplacement => 93,
            ExternIndex::PatternBlending => 94,
            ExternIndex::UiHdrTransform => 95,
            ExternIndex::PlayerCenteredCascadedGrid => 96,
            ExternIndex::SoftDeform => 97,
        }
    }

    /// The block's name.
    pub open spec fn label(self) -> Seq<char> {
        match self {
            ExternIndex::Null => "Null"@,
            ExternIndex::Frame => "Frame"@,
            ExternIndex::View => "View"@,
            ExternIndex::Deferred => "Deferred"@,
            ExternIndex::DeferredLight => "DeferredLight"@,
            ExternIndex::DeferredUberLight => "DeferredUberLight"@,
            ExternIndex::DeferredShadow => "DeferredShadow"@,
            ExternIndex::Atmosphere => "Atmosphere"@,
            ExternIndex::RigidModel => "RigidModel"@,
            ExternIndex::EditorMesh => "EditorMesh"@,
            ExternIndex::EditorMeshMaterial => "EditorMeshMaterial"@,
            ExternIndex::EditorDecal => "EditorDecal"@,
            ExternIndex::EditorTerrain => "EditorTerrain"@,
            ExternIndex::EditorTerrainPatch => "EditorTerrainPatch"@,
            ExternIndex::EditorTerrainDebug => "EditorTerrainDebug"@,
            ExternIndex::SimpleGeometry => "SimpleGeometry"@,
            ExternIndex::UiFont => "UiFont"@,
            ExternIndex::CuiView => "CuiView"@,
            ExternIndex::CuiObject => "CuiObject"@,
            ExternIndex::CuiBitmap => "CuiBitmap"@,
            ExternIndex::CuiVideo => "CuiVideo"@,
            ExternIndex::CuiStandard => "CuiStandard"@,
            ExternIndex::CuiHud => "CuiHud"@,
            ExternIndex::CuiScreenspaceBoxes => "CuiScreenspaceBoxes"@,
            ExternIndex::CuiDrawingShader => "CuiDrawingShader"@,
            ExternIndex::TextureVisualizer => "TextureVisualizer"@,
            ExternIndex::Generic => "Generic"@,
            ExternIndex::Particle => "Particle"@,
            ExternIndex::ParticleDebug => "ParticleDebug"@,
            ExternIndex::GearDyeVisualizationMode => "GearDyeVisualizationMode"@,
            ExternIndex::ScreenArea => "ScreenArea"@,
            ExternIndex::Mlaa => "Mlaa"@,
            ExternIndex::Msaa => "Msaa"@,
            ExternIndex::Hdao => "Hdao"@,
            ExternIndex::DownsampleTextureGeneric => "DownsampleTextureGeneric"@,
            ExternIndex::DownsampleDepth => "DownsampleDepth"@,
            ExternIndex::Ssao => "Ssao"@,
            ExternIndex::VolumetricObscurance => "VolumetricObscurance"@,
            ExternIndex::Postprocess => "Postprocess"@,
            ExternIndex::TextureSet => "TextureSet"@,
            ExternIndex::Transparent => "Transparent"@,
            ExternIndex::Vignette => "Vignette"@,
            ExternIndex::GlobalLighting => "GlobalLighting"@,
            ExternIndex::ShadowMask => "ShadowMask"@,
            ExternIndex::ObjectEffect => "ObjectEffect"@,
            ExternIndex::Decal => "Decal"@,
            ExternIndex::DecalSetTransform => "DecalSetTransform"@,
            ExternIndex::DynamicDecal => "DynamicDecal"@,
            ExternIndex::DecoratorWind => "DecoratorWind"@,
            ExternIndex::TextureCameraLighting => "TextureCameraLighting"@,
            ExternIndex::VolumeFog => "VolumeFog"@,
            ExternIndex::Fxaa => "Fxaa"@,
            ExternIndex::Smaa => "Smaa"@,
            ExternIndex::Letterbox => "Letterbox"@,
            ExternIndex::DepthOfField => "DepthOfField"@,
            ExternIndex::PostprocessInitialDownsample => "PostprocessInitialDownsample"@,
            ExternIndex::CopyDepth => "CopyDepth"@,
            ExternIndex::DisplacementMotionBlur => "DisplacementMotionBlur"@,
            ExternIndex::DebugShader => "DebugShader"@,
            ExternIndex::MinmaxDepth => "MinmaxDepth"@,
            ExternIndex::SdsmBiasAndScale => "SdsmBiasAndScale"@,
            ExternIndex::SdsmBiasAndScaleTextures => "SdsmBiasAndScaleTextures"@,
            ExternIndex::ComputeShadowMapData => "ComputeShadowMapData"@,
            ExternIndex::ComputeLocalLightShadowMapData => "ComputeLocalLightShadowMapData"@,
            ExternIndex::BilateralUpsample => "BilateralUpsample"@,
            ExternIndex::HealthOverlay => "HealthOverlay"@,
            ExternIndex::LightProbeDominantLight => "LightProbeDominantLight"@,
            ExternIndex::LightProbeLightInstance => "LightProbeLightInstance"@,
            ExternIndex::Water => "Water"@,
            ExternIndex::LensFlare => "LensFlare"@,
            ExternIndex::ScreenShader => "ScreenShader"@,
            ExternIndex::Scaler => "Scaler"@,
            ExternIndex::GammaControl => "GammaControl"@,
            ExternIndex::SpeedtreePlacements => "SpeedtreePlacements"@,
            ExternIndex::Reticle => "Reticle"@,
            ExternIndex::Distortion => "Distortion"@,
            ExternIndex::WaterDebug => "WaterDebug"@,
            ExternIndex::ScreenAreaInput => "ScreenAreaInput"@,
            ExternIndex::WaterDepthPrepass => "WaterDepthPrepass"@,
            ExternIndex::OverheadVisibilityMap => "OverheadVisibilityMap"@,
            ExternIndex::ParticleCompute => "ParticleCompute"@,
            ExternIndex::CubemapFiltering => "CubemapFiltering"@,
            ExternIndex::ParticleFastpath => "ParticleFastpath"@,
            ExternIndex::VolumetricsPass => "VolumetricsPass"@,
            ExternIndex::TemporalReprojection => "TemporalReprojection"@,
            ExternIndex::FxaaCompute => "FxaaCompute"@,
            ExternIndex::VbCopyCompute => "VbCopyCompute"@,
            ExternIndex::UberDepth => "UberDepth"@,
            ExternIndex::GearDye => "GearDye"@,
            ExternIndex::Cubemaps => "Cubemaps"@,
            ExternIndex::ShadowBlendWithPrevious => "ShadowBlendWithPrevious"@,
            ExternIndex::DebugShadingOutput => "DebugShadingOutput"@,
            ExternIndex::Ssao3d => "Ssao3d"@,
            ExternIndex::WaterDisplacement => "WaterDisplacement"@,
            ExternIndex::PatternBlending => "PatternBlending"@,
            ExternIndex::UiHdrTransform => "UiHdrTransform"@,
            ExternIndex::PlayerCenteredCascadedGrid => "PlayerCenteredCascadedGrid"@,
            ExternIndex::SoftDeform => "SoftDeform"@,
        }
    }

    pub fn name(self) -> (text: &'static str)
        ensures
            text@ == self.label(),
    {
        match self {
            ExternIndex::Null => "Null",
            ExternIndex::Frame => "Frame",
            ExternIndex::View => "View",
            ExternIndex::Deferred => "Deferred",
            ExternIndex::DeferredLight => "DeferredLight",
            ExternIndex::DeferredUberLight => "DeferredUberLight",
            ExternIndex::DeferredShadow => "DeferredShadow",
            ExternIndex::Atmosphere => "Atmosphere",
            ExternIndex::RigidModel => "RigidModel",
            ExternIndex::EditorMesh => "EditorMesh",
            ExternIndex::EditorMeshMaterial => "EditorMeshMaterial",
            ExternIndex::EditorDecal => "EditorDecal",
            ExternIndex::EditorTerrain => "EditorTerrain",
            ExternIndex::EditorTerrainPatch => "EditorTerrainPatch",
            ExternIndex::EditorTerrainDebug => "EditorTerrainDebug",
            ExternIndex::SimpleGeometry => "SimpleGeometry",
            ExternIndex::UiFont => "UiFont",
            ExternIndex::CuiView => "CuiView",
            ExternIndex::CuiObject => "CuiObject",
            ExternIndex::CuiBitmap => "CuiBitmap",
            ExternIndex::CuiVideo => "CuiVideo",
            ExternIndex::CuiStandard => "CuiStandard",
            ExternIndex::CuiHud => "CuiHud",
            ExternIndex::CuiScreenspaceBoxes => "CuiScreenspaceBoxes",
            ExternIndex::CuiDrawingShader => "CuiDrawingShader",
            ExternIndex::TextureVisualizer => "TextureVisualizer",
            ExternIndex::Generic => "Generic",
            ExternIndex::Particle => "Particle",
            ExternIndex::ParticleDebug => "ParticleDebug",
            ExternIndex::GearDyeVisualizationMode => "GearDyeVisualizationMode",
            ExternIndex::ScreenArea => "ScreenArea",
            ExternIndex::Mlaa => "Mlaa",
            ExternIndex::Msaa => "Msaa",
            ExternIndex::Hdao => "Hdao",
            ExternIndex::DownsampleTextureGeneric => "DownsampleTextureGeneric",
            ExternIndex::DownsampleDepth => "DownsampleDepth",
            ExternIndex::Ssao => "Ssao",
            ExternIndex::VolumetricObscurance => "VolumetricObscurance",
            ExternIndex::Postprocess => "Postprocess",
            ExternIndex::TextureSet => "TextureSet",
            ExternIndex::Transparent => "Transparent",
            ExternIndex::Vignette => "Vignette",
            ExternIndex::GlobalLighting => "GlobalLighting",
            ExternIndex::ShadowMask => "ShadowMask",
            ExternIndex::ObjectEffect => "ObjectEffect",
            ExternIndex::Decal => "Decal",
            ExternIndex::DecalSetTransform => "DecalSetTransform",
            ExternIndex::DynamicDecal => "DynamicDecal",
            ExternIndex::DecoratorWind => "DecoratorWind",
            ExternIndex::TextureCameraLighting => "TextureCameraLighting",
            ExternIndex::VolumeFog => "VolumeFog",
            ExternIndex::Fxaa => "Fxaa",
            ExternIndex::Smaa => "Smaa",
            ExternIndex::Letterbox => "Letterbox",
            ExternIndex::DepthOfField => "DepthOfField",
            ExternIndex::PostprocessInitialDownsample => "PostprocessInitialDownsample",
            ExternIndex::CopyDepth => "CopyDepth",
            ExternIndex::DisplacementMotionBlur => "DisplacementMotionBlur",
            ExternIndex::DebugShader => "DebugShader",
            ExternIndex::MinmaxDepth => "MinmaxDepth",
            ExternIndex::SdsmBiasAndScale => "SdsmBiasAndScale",
            ExternIndex::SdsmBiasAndScaleTextures => "SdsmBiasAndScaleTextures",
            ExternIndex::ComputeShadowMapData => "ComputeShadowMapData",
            ExternIndex::ComputeLocalLightShadowMapData => "ComputeLocalLightShadowMapData",
            ExternIndex::BilateralUpsample => "BilateralUpsample",
            ExternIndex::HealthOverlay => "HealthOverlay",
            ExternIndex::LightProbeDominantLight => "LightProbeDominantLight",
            ExternIndex::LightProbeLightInstance => "LightProbeLightInstance",
            ExternIndex::Water => "Water",
            ExternIndex::LensFlare => "LensFlare",
            ExternIndex::ScreenShader => "ScreenShader",
            ExternIndex::Scaler => "Scaler",
            ExternIndex::GammaControl => "GammaControl",
            ExternIndex::SpeedtreePlacements => "SpeedtreePlacements",
            ExternIndex::Reticle => "Reticle",
            ExternIndex::Distortion => "Distortion",
            ExternIndex::WaterDebug => "WaterDebug",
            ExternIndex::ScreenAreaInput => "ScreenAreaInput",
            ExternIndex::WaterDepthPrepass => "WaterDepthPrepass",
            ExternIndex::OverheadVisibilityMap => "OverheadVisibilityMap",
            ExternIndex::ParticleCompute => "ParticleCompute",
            ExternIndex::CubemapFiltering => "CubemapFiltering",
            ExternIndex::ParticleFastpath => "ParticleFastpath",
            ExternIndex::VolumetricsPass => "VolumetricsPass",
            ExternIndex::TemporalReprojection => "TemporalReprojection",
            ExternIndex::FxaaCompute => "FxaaCompute",
            ExternIndex::VbCopyCompute => "VbCopyCompute",
            ExternIndex::UberDepth => "UberDepth",
            ExternIndex::GearDye => "GearDye",
            ExternIndex::Cubemaps => "Cubemaps",
            ExternIndex::ShadowBlendWithPrevious => "ShadowBlendWithPrevious",
            ExternIndex::DebugShadingOutput => "DebugShadingOutput",
            ExternIndex::Ssao3d => "Ssao3d",
            ExternIndex::WaterDisplacement => "WaterDisplacement",
            ExternIndex::PatternBlending => "PatternBlending",
            ExternIndex::UiHdrTransform => "UiHdrTransform",
            ExternIndex::PlayerCenteredCascadedGrid => "PlayerCenteredCascadedGrid",
            ExternIndex::SoftDeform => "SoftDeform",
        }
    }

    pub fn index(self) -> (number: u8)
        ensures
            number == self.number(),
    {
        match self {
            ExternIndex::Null => 0,
            ExternIndex::Frame => 1,
            ExternIndex::View => 2,
            ExternIndex::Deferred => 3,
            ExternIndex::DeferredLight => 4,
            ExternIndex::DeferredUberLight => 5,
            ExternIndex::DeferredShadow => 6,
            ExternIndex::Atmosphere => 7,
            ExternIndex::RigidModel => 8,
            ExternIndex::EditorMesh => 9,
            ExternIndex::EditorMeshMaterial => 10,
            ExternIndex::EditorDecal => 11,
            ExternIndex::EditorTerrain => 12,
            ExternIndex::EditorTerrainPatch => 13,
            ExternIndex::EditorTerrainDebug => 14,
            ExternIndex::SimpleGeometry => 15,
            ExternIndex::UiFont => 16,
            ExternIndex::CuiView => 17,
            ExternIndex::CuiObject => 18,
            ExternIndex::CuiBitmap => 19,
            ExternIndex::CuiVideo => 20,
            ExternIndex::CuiStandard => 21,
            ExternIndex::CuiHud => 22,
            ExternIndex::CuiScreenspaceBoxes => 23,
            ExternIndex::CuiDrawingShader => 24,
            ExternIndex::TextureVisualizer => 25,
            ExternIndex::Generic => 26,
            ExternIndex::Particle => 27,
            ExternIndex::ParticleDebug => 28,
            ExternIndex::GearDyeVisualizationMode => 29,
            ExternIndex::ScreenArea => 30,
            ExternIndex::Mlaa => 31,
            ExternIndex::Msaa => 32,
            ExternIndex::Hdao => 33,
            ExternIndex::DownsampleTextureGeneric => 34,
            ExternIndex::DownsampleDepth => 35,
            ExternIndex::Ssao => 36,
            ExternIndex::VolumetricObscurance => 37,
            ExternIndex::Postprocess => 38,
            ExternIndex::TextureSet => 39,
            ExternIndex::Transparent => 40,
            ExternIndex::Vignette => 41,
            ExternIndex::GlobalLighting => 42,
            ExternIndex::ShadowMask => 43,
            ExternIndex::ObjectEffect => 44,
            ExternIndex::Decal => 45,
            ExternIndex::DecalSetTransform => 46,
            ExternIndex::DynamicDecal => 47,
            ExternIndex::DecoratorWind => 48,
            ExternIndex::TextureCameraLighting => 49,
            ExternIndex::VolumeFog => 50,
            ExternIndex::Fxaa => 51,
            ExternIndex::Smaa => 52,
            ExternIndex::Letterbox => 53,
            ExternIndex::DepthOfField => 54,
            ExternIndex::PostprocessInitialDownsample => 55,
            ExternIndex::CopyDepth => 56,
            ExternIndex::DisplacementMotionBlur => 57,
            ExternIndex::DebugShader => 58,
            ExternIndex::MinmaxDepth => 59,
            ExternIndex::SdsmBiasAndScale => 60,
            ExternIndex::SdsmBiasAndScaleTextures => 61,
            ExternIndex::ComputeShadowMapData => 62,
            ExternIndex::ComputeLocalLightShadowMapData => 63,
            ExternIndex::BilateralUpsample => 64,
            ExternIndex::HealthOverlay => 65,
            ExternIndex::LightProbeDominantLight => 66,
            ExternIndex::LightProbeLightInstance => 67,
            ExternIndex::Water => 68,
            ExternIndex::LensFlare => 69,
            ExternIndex::ScreenShader => 70,
            ExternIndex::Scaler => 71,
            ExternIndex::GammaControl => 72,
            ExternIndex::SpeedtreePlacements => 73,
            ExternIndex::Reticle => 74,
            ExternIndex::Distortion => 75,
            ExternIndex::WaterDebug => 76,
            ExternIndex::ScreenAreaInput => 77,
            ExternIndex::WaterDepthPrepass => 78,
            ExternIndex::OverheadVisibilityMap => 79,
            ExternIndex::ParticleCompute => 80,
            ExternIndex::CubemapFiltering => 81,
            ExternIndex::ParticleFastpath => 82,
            ExternIndex::VolumetricsPass => 83,
            ExternIndex::TemporalReprojection => 84,
            ExternIndex::FxaaCompute => 85,
            ExternIndex::VbCopyCompute => 86,
            ExternIndex::UberDepth => 87,
            ExternIndex::GearDye => 88,
            ExternIndex::Cubemaps => 89,
            ExternIndex::ShadowBlendWithPrevious => 90,
            ExternIndex::DebugShadingOutput => 91,
            ExternIndex::Ssao3d => 92,
            ExternIndex::WaterDisplacement => 93,
            ExternIndex::PatternBlending => 94,
            ExternIndex::UiHdrTransform => 95,
            ExternIndex::PlayerCenteredCascadedGrid => 96,
            ExternIndex::SoftDeform => 97,
        }
    }

    /// The block with the given number.
    pub open spec fn numbered(number: u8) -> Option<ExternIndex> {
        match number {
            0 => Some(ExternIndex::Null),
            1 => Some(ExternIndex::Frame),
            2 => Some(ExternIndex::View),
            3 => Some(ExternIndex::Deferred),
            4 => Some(ExternIndex::DeferredLight),
            5 => Some(ExternIndex::DeferredUberLight),
            6 => Some(ExternIndex::DeferredShadow),
            7 => Some(ExternIndex::Atmosphere),
            8 => Some(ExternIndex::RigidModel),
            9 => Some(ExternIndex::EditorMesh),
            10 => Some(ExternIndex::EditorMeshMaterial),
            11 => Some(ExternIndex::EditorDecal),
            12 => Some(ExternIndex::EditorTerrain),
            13 => Some(ExternIndex::EditorTerrainPatch),
            14 => Some(ExternIndex::EditorTerrainDebug),
            15 => Some(ExternIndex::SimpleGeometry),
            16 => Some(ExternIndex::UiFont),
            17 => Some(ExternIndex::CuiView),
            18 => Some(ExternIndex::CuiObject),
            19 => Some(ExternIndex::CuiBitmap),
            20 => Some(ExternIndex::CuiVideo),
            21 => Some(ExternIndex::CuiStandard),
            22 => Some(ExternIndex::CuiHud),
            23 => Some(ExternIndex::CuiScreenspaceBoxes),
            24 => Some(ExternIndex::CuiDrawingShader),
            25 => Some(ExternIndex::TextureVisualizer),
            26 => Some(ExternIndex::Generic),
            27 => Some(ExternIndex::Particle),
            28 => Some(ExternIndex::ParticleDebug),
            29 => Some(ExternIndex::GearDyeVisualizationMode),
            30 => Some(ExternIndex::ScreenArea),
            31 => Some(ExternIndex::Mlaa),
            32 => Some(ExternIndex::Msaa),
            33 => Some(ExternIndex::Hdao),
            34 => Some(ExternIndex::DownsampleTextureGeneric),
            35 => Some(ExternIndex::DownsampleDepth),
            36 => Some(ExternIndex::Ssao),
            37 => Some(ExternIndex::VolumetricObscurance),
            38 => Some(ExternIndex::Postprocess),
            39 => Some(ExternIndex::TextureSet),
            40 => Some(ExternIndex::Transparent),
            41 => Some(ExternIndex::Vignette),
            42 => Some(ExternIndex::GlobalLighting),
            43 => Some(ExternIndex::ShadowMask),
            44 => Some(ExternIndex::ObjectEffect),
            45 => Some(ExternIndex::Decal),
            46 => Some(ExternIndex::DecalSetTransform),
            47 => Some(ExternIndex::DynamicDecal),
            48 => Some(ExternIndex::DecoratorWind),
            49 => Some(ExternIndex::TextureCameraLighting),
            50 => Some(ExternIndex::VolumeFog),
            51 => Some(ExternIndex::Fxaa),
            52 => Some(ExternIndex::Smaa),
            53 => Some(ExternIndex::Letterbox),
            54 => Some(ExternIndex::DepthOfField),
            55 => Some(ExternIndex::PostprocessInitialDownsample),
            56 => Some(ExternIndex::CopyDepth),
            57 => Some(ExternIndex::DisplacementMotionBlur),
            58 => Some(ExternIndex::DebugShader),
            59 => Some(ExternIndex::MinmaxDepth),
            60 => Some(ExternIndex::SdsmBiasAndScale),
            61 => Some(ExternIndex::SdsmBiasAndScaleTextures),
            62 => Some(ExternIndex::ComputeShadowMapData),
            63 => Some(ExternIndex::ComputeLocalLightShadowMapData),
            64 => Some(ExternIndex::BilateralUpsample),
            65 => Some(ExternIndex::HealthOverlay),
            66 => Some(ExternIndex::LightProbeDominantLight),
            67 => Some(ExternIndex::LightProbeLightInstance),
            68 => Some(ExternIndex::Water),
            69 => Some(ExternIndex::LensFlare),
            70 => Some(ExternIndex::ScreenShader),
            71 => Some(ExternIndex::Scaler),
            72 => Some(ExternIndex::GammaControl),
            73 => Some(ExternIndex::SpeedtreePlacements),
            74 => Some(ExternIndex::Reticle),
            75 => Some(ExternIndex::Distortion),
            76 => Some(ExternIndex::WaterDebug),
            77 => Some(ExternIndex::ScreenAreaInput),
            78 => Some(ExternIndex::WaterDepthPrepass),
            79 => Some(ExternIndex::OverheadVisibilityMap),
            80 => Some(ExternIndex::ParticleCompute),
            81 => Some(ExternIndex::CubemapFiltering),
            82 => Some(ExternIndex::ParticleFastpath),
            83 => Some(ExternIndex::VolumetricsPass),
            84 => Some(ExternIndex::TemporalReprojection),
            85 => Some(ExternIndex::FxaaCompute),
            86 => Some(ExternIndex::VbCopyCompute),
            87 => Some(ExternIndex::UberDepth),
            88 => Some(ExternIndex::GearDye),
            89 => Some(ExternIndex::Cubemaps),
            90 => Some(ExternIndex::ShadowBlendWithPrevious),
            91 => Some(ExternIndex::DebugShadingOutput),
            92 => Some(ExternIndex::Ssao3d),
            93 => Some(ExternIndex::WaterDisplacement),
            94 => Some(ExternIndex::PatternBlending),
            95 => Some(ExternIndex::UiHdrTransform),
            96 => Some(ExternIndex::PlayerCenteredCascadedGrid),
            97 => Some(ExternIndex::SoftDeform),
            _ => None,
        }
    }

    /// The block with the given number.
    pub fn from_number(number: u8) -> (block: Option<ExternIndex>)
        ensures
            block == ExternIndex::numbered(number),
            match block {
                Some(found) => found.number() == number,
                None => number > 97,
            },
    {
        Some(match number {
            0 => ExternIndex::Null,
            1 => ExternIndex::Frame,
            2 => ExternIndex::View,
            3 => ExternIndex::Deferred,
            4 => ExternIndex::DeferredLight,
            5 => ExternIndex::DeferredUberLight,
            6 => ExternIndex::DeferredShadow,
            7 => ExternIndex::Atmosphere,
            8 => ExternIndex::RigidModel,
            9 => ExternIndex::EditorMesh,
            10 => ExternIndex::EditorMeshMaterial,
            11 => ExternIndex::EditorDecal,
            12 => ExternIndex::EditorTerrain,
            13 => ExternIndex::EditorTerrainPatch,
            14 => ExternIndex::EditorTerrainDebug,
            15 => ExternIndex::SimpleGeometry,
            16 => ExternIndex::UiFont,
            17 => ExternIndex::CuiView,
            18 => ExternIndex::CuiObject,
            19 => ExternIndex::CuiBitmap,
            20 => ExternIndex::CuiVideo,
            21 => ExternIndex::CuiStandard,
            22 => ExternIndex::CuiHud,
            23 => ExternIndex::CuiScreenspaceBoxes,
            24 => ExternIndex::CuiDrawingShader,
            25 => ExternIndex::TextureVisualizer,
            26 => ExternIndex::Generic,
            27 => ExternIndex::Particle,
            28 => ExternIndex::ParticleDebug,
            29 => ExternIndex::GearDyeVisualizationMode,
            30 => ExternIndex::ScreenArea,
            31 => ExternIndex::Mlaa,
            32 => ExternIndex::Msaa,
            33 => ExternIndex::Hdao,
            34 => ExternIndex::DownsampleTextureGeneric,
            35 => ExternIndex::DownsampleDepth,
            36 => ExternIndex::Ssao,
            37 => ExternIndex::VolumetricObscurance,
            38 => ExternIndex::Postprocess,
            39 => ExternIndex::TextureSet,
            40 => ExternIndex::Transparent,
            41 => ExternIndex::Vignette,
            42 => ExternIndex::GlobalLighting,
            43 => ExternIndex::ShadowMask,
            44 => ExternIndex::ObjectEffect,
            45 => ExternIndex::Decal,
            46 => ExternIndex::DecalSetTransform,
            47 => ExternIndex::DynamicDecal,
            48 => ExternIndex::DecoratorWind,
            49 => ExternIndex::TextureCameraLighting,
            50 => ExternIndex::VolumeFog,
            51 => ExternIndex::Fxaa,
            52 => ExternIndex::Smaa,
            53 => ExternIndex::Letterbox,
            54 => ExternIndex::DepthOfField,
            55 => ExternIndex::PostprocessInitialDownsample,
            56 => ExternIndex::CopyDepth,
            57 => ExternIndex::DisplacementMotionBlur,
            58 => ExternIndex::DebugShader,
            59 => ExternIndex::MinmaxDepth,
            60 => ExternIndex::SdsmBiasAndScale,
            61 => ExternIndex::SdsmBiasAndScaleTextures,
            62 => ExternIndex::ComputeShadowMapData,
            63 => ExternIndex::ComputeLocalLightShadowMapData,
            64 => ExternIndex::BilateralUpsample,
            65 => ExternIndex::HealthOverlay,
            66 => ExternIndex::LightProbeDominantLight,
            67 => ExternIndex::LightProbeLightInstance,
            68 => ExternIndex::Water,
            69 => ExternIndex::LensFlare,
            70 => ExternIndex::ScreenShader,
            71 => ExternIndex::Scaler,
            72 => ExternIndex::GammaControl,
            73 => ExternIndex::SpeedtreePlacements,
            74 => ExternIndex::Reticle,
            75 => ExternIndex::Distortion,
            76 => ExternIndex::WaterDebug,
            77 => ExternIndex::ScreenAreaInput,
            78 => ExternIndex::WaterDepthPrepass,
            79 => ExternIndex::OverheadVisibilityMap,
            80 => ExternIndex::ParticleCompute,
            81 => ExternIndex::CubemapFiltering,
            82 => ExternIndex::ParticleFastpath,
            83 => ExternIndex::VolumetricsPass,
            84 => ExternIndex::TemporalReprojection,
            85 => ExternIndex::FxaaCompute,
            86 => ExternIndex::VbCopyCompute,
            87 => ExternIndex::UberDepth,
            88 => ExternIndex::GearDye,
            89 => ExternIndex::Cubemaps,
            90 => ExternIndex::ShadowBlendWithPrevious,
            91 => ExternIndex::DebugShadingOutput,
            92 => ExternIndex::Ssao3d,
            93 => ExternIndex::WaterDisplacement,
            94 => ExternIndex::PatternBlending,
            95 => ExternIndex::UiHdrTransform,
            96 => ExternIndex::PlayerCenteredCascadedGrid,
            97 => ExternIndex::SoftDeform,
            _ => return None,
        })
    }
}

/// Every block is the one with its number, so no two blocks share a number.
pub proof fn law_blocks_are_found_by_their_number(block: ExternIndex)
    ensures
        ExternIndex::numbered(block.number()) == Some(block),
{
}

/// The renderer's number of a block that an expression names `encoded`. The
/// expressions do not know `CuiDrawingShader`, so what follows it is one less.
pub open spec fn extern_number(encoded: u8) -> u8 {
    if encoded < 24 {
        encoded
    } else {
        (encoded + 1) as u8
    }
}

/// The block that an expression names `encoded`.
pub fn decode_extern_index(encoded: u8) -> (block: Option<ExternIndex>)
    ensures
        match block {
            Some(found) => encoded <= 96 && found.number() == extern_number(encoded),
            None => encoded > 96,
        },
{
    if encoded <= 23 {
        ExternIndex::from_number(encoded)
    } else if encoded <= 96 {
        ExternIndex::from_number(encoded + 1)
    } else {
        None
    }
}

/// Decoding reaches every block but the inserted one, each from one encoding.
pub proof fn law_decoding_skips_only_the_insertion(a: u8, b: u8)
    requires
        a <= 96,
        b <= 96,
    ensures
        extern_number(a) != ExternIndex::CuiDrawingShader.number(),
        extern_number(a) <= 97,
        extern_number(a) == extern_number(b) ==> a == b,
{
}

/// Each block of inputs goes by this name.
pub proof fn law_blocks_are_named()
    ensures
        ExternIndex::Null.label() == "Null"@,
        ExternIndex::Frame.label() == "Frame"@,
        ExternIndex::View.label() == "View"@,
        ExternIndex::Deferred.label() == "Deferred"@,
        ExternIndex::DeferredLight.label() == "DeferredLight"@,
        ExternIndex::DeferredUberLight.label() == "DeferredUberLight"@,
        ExternIndex::DeferredShadow.label() == "DeferredShadow"@,
        ExternIndex::Atmosphere.label() == "Atmosphere"@,
        ExternIndex::RigidModel.label() == "RigidModel"@,
        ExternIndex::EditorMesh.label() == "EditorMesh"@,
        ExternIndex::EditorMeshMaterial.label() == "EditorMeshMaterial"@,
        ExternIndex::EditorDecal.label() == "EditorDecal"@,
        ExternIndex::EditorTerrain.label() == "EditorTerrain"@,
        ExternIndex::EditorTerrainPatch.label() == "EditorTerrainPatch"@,
        ExternIndex::EditorTerrainDebug.label() == "EditorTerrainDebug"@,
        ExternIndex::SimpleGeometry.label() == "SimpleGeometry"@,
        ExternIndex::UiFont.label() == "UiFont"@,
        ExternIndex::CuiView.label() == "CuiView"@,
        ExternIndex::CuiObject.label() == "CuiObject"@,
        ExternIndex::CuiBitmap.label() == "CuiBitmap"@,
        ExternIndex::CuiVideo.label() == "CuiVideo"@,
        ExternIndex::CuiStandard.label() == "CuiStandard"@,
        ExternIndex::CuiHud.label() == "CuiHud"@,
        ExternIndex::CuiScreenspaceBoxes.label() == "CuiScreenspaceBoxes"@,
        ExternIndex::CuiDrawingShader.label() == "CuiDrawingShader"@,
        ExternIndex::TextureVisualizer.label() == "TextureVisualizer"@,
        ExternIndex::Generic.label() == "Generic"@,
        ExternIndex::Particle.label() == "Particle"@,
        ExternIndex::ParticleDebug.label() == "ParticleDebug"@,
        ExternIndex::GearDyeVisualizationMode.label() == "GearDyeVisualizationMode"@,
        ExternIndex::ScreenArea.label() == "ScreenArea"@,
        ExternIndex::Mlaa.label() == "Mlaa"@,
        ExternIndex::Msaa.label() == "Msaa"@,
        ExternIndex::Hdao.label() == "Hdao"@,
        ExternIndex::DownsampleTextureGeneric.label() == "DownsampleTextureGeneric"@,
        ExternIndex::DownsampleDepth.label() == "DownsampleDepth"@,
        ExternIndex::Ssao.label() == "Ssao"@,
        ExternIndex::VolumetricObscurance.label() == "VolumetricObscurance"@,
        ExternIndex::Postprocess.label() == "Postprocess"@,
        ExternIndex::TextureSet.label() == "TextureSet"@,
        ExternIndex::Transparent.label() == "Transparent"@,
        ExternIndex::Vignette.label() == "Vignette"@,
        ExternIndex::GlobalLighting.label() == "GlobalLighting"@,
        ExternIndex::ShadowMask.label() == "ShadowMask"@,
        ExternIndex::ObjectEffect.label() == "ObjectEffect"@,
        ExternIndex::Decal.label() == "Decal"@,
        ExternIndex::DecalSetTransform.label() == "DecalSetTransform"@,
        ExternIndex::DynamicDecal.label() == "DynamicDecal"@,
        ExternIndex::DecoratorWind.label() == "DecoratorWind"@,
        ExternIndex::TextureCameraLighting.label() == "TextureCameraLighting"@,
        ExternIndex::VolumeFog.label() == "VolumeFog"@,
        ExternIndex::Fxaa.label() == "Fxaa"@,
        ExternIndex::Smaa.label() == "Smaa"@,
        ExternIndex::Letterbox.label() == "Letterbox"@,
        ExternIndex::DepthOfField.label() == "DepthOfField"@,
        ExternIndex::PostprocessInitialDownsample.label() == "PostprocessInitialDownsample"@,
        ExternIndex::CopyDepth.label() == "CopyDepth"@,
        ExternIndex::DisplacementMotionBlur.label() == "DisplacementMotionBlur"@,
        ExternIndex::DebugShader.label() == "DebugShader"@,
        ExternIndex::MinmaxDepth.label() == "MinmaxDepth"@,
        ExternIndex::SdsmBiasAndScale.label() == "SdsmBiasAndScale"@,
        ExternIndex::SdsmBiasAndScaleTextures.label() == "SdsmBiasAndScaleTextures"@,
        ExternIndex::ComputeShadowMapData.label() == "ComputeShadowMapData"@,
        ExternIndex::ComputeLocalLightShadowMapData.label() == "ComputeLocalLightShadowMapData"@,
        ExternIndex::BilateralUpsample.label() == "BilateralUpsample"@,
        ExternIndex::HealthOverlay.label() == "HealthOverlay"@,
        ExternIndex::LightProbeDominantLight.label() == "LightProbeDominantLight"@,
        ExternIndex::LightProbeLightInstance.label() == "LightProbeLightInstance"@,
        ExternIndex::Water.label() == "Water"@,
        ExternIndex::LensFlare.label() == "LensFlare"@,
        ExternIndex::ScreenShader.label() == "ScreenShader"@,
        ExternIndex::Scaler.label() == "Scaler"@,
        ExternIndex::GammaControl.label() == "GammaControl"@,
        ExternIndex::SpeedtreePlacements.label() == "SpeedtreePlacements"@,
        ExternIndex::Reticle.label() == "Reticle"@,
        ExternIndex::Distortion.label() == "Distortion"@,
        ExternIndex::WaterDebug.label() == "WaterDebug"@,
        ExternIndex::ScreenAreaInput.label() == "ScreenAreaInput"@,
        ExternIndex::WaterDepthPrepass.label() == "WaterDepthPrepass"@,
        ExternIndex::OverheadVisibilityMap.label() == "OverheadVisibilityMap"@,
        ExternIndex::ParticleCompute.label() == "ParticleCompute"@,
        ExternIndex::CubemapFiltering.label() == "CubemapFiltering"@,
        ExternIndex::ParticleFastpath.label() == "ParticleFastpath"@,
        ExternIndex::VolumetricsPass.label() == "VolumetricsPass"@,
        ExternIndex::TemporalReprojection.label() == "TemporalReprojection"@,
        ExternIndex::FxaaCompute.label() == "FxaaCompute"@,
        ExternIndex::VbCopyCompute.label() == "VbCopyCompute"@,
        ExternIndex::UberDepth.label() == "UberDepth"@,
        ExternIndex::GearDye.label() == "GearDye"@,
        ExternIndex::Cubemaps.label() == "Cubemaps"@,
        ExternIndex::ShadowBlendWithPrevious.label() == "ShadowBlendWithPrevious"@,
        ExternIndex::DebugShadingOutput.label() == "DebugShadingOutput"@,
        ExternIndex::Ssao3d.label() == "Ssao3d"@,
        ExternIndex::WaterDisplacement.label() == "WaterDisplacement"@,
        ExternIndex::PatternBlending.label() == "PatternBlending"@,
        ExternIndex::UiHdrTransform.label() == "UiHdrTransform"@,
        ExternIndex::PlayerCenteredCascadedGrid.label() == "PlayerCenteredCascadedGrid"@,
        ExternIndex::SoftDeform.label() == "SoftDeform"@,
{
}

/// Each block of inputs has this number in the programs.
pub proof fn law_blocks_are_numbered()
    ensures
        ExternIndex::Null.number() == 0,
        ExternIndex::Frame.number() == 1,
        ExternIndex::View.number() == 2,
        ExternIndex::Deferred.number() == 3,
        ExternIndex::DeferredLight.number() == 4,
        ExternIndex::DeferredUberLight.number() == 5,
        ExternIndex::DeferredShadow.number() == 6,
        ExternIndex::Atmosphere.number() == 7,
        ExternIndex::RigidModel.number() == 8,
        ExternIndex::EditorMesh.number() == 9,
        ExternIndex::EditorMeshMaterial.number() == 10,
        ExternIndex::EditorDecal.number() == 11,
        ExternIndex::EditorTerrain.number() == 12,
        ExternIndex::EditorTerrainPatch.number() == 13,
        ExternIndex::EditorTerrainDebug.number() == 14,
        ExternIndex::SimpleGeometry.number() == 15,
        ExternIndex::UiFont.number() == 16,
        ExternIndex::CuiView.number() == 17,
        ExternIndex::CuiObject.number() == 18,
        ExternIndex::CuiBitmap.number() == 19,
        ExternIndex::CuiVideo.number() == 20,
        ExternIndex::CuiStandard.number() == 21,
        ExternIndex::CuiHud.number() == 22,
        ExternIndex::CuiScreenspaceBoxes.number() == 23,
        ExternIndex::CuiDrawingShader.number() == 24,
        ExternIndex::TextureVisualizer.number() == 25,
        ExternIndex::Generic.number() == 26,
        ExternIndex::Particle.number() == 27,
        ExternIndex::ParticleDebug.number() == 28,
        ExternIndex::GearDyeVisualizationMode.number() == 29,
        ExternIndex::ScreenArea.number() == 30,
        ExternIndex::Mlaa.number() == 31,
        ExternIndex::Msaa.number() == 32,
        ExternIndex::Hdao.number() == 33,
        ExternIndex::DownsampleTextureGeneric.number() == 34,
        ExternIndex::DownsampleDepth.number() == 35,
        ExternIndex::Ssao.number() == 36,
        ExternIndex::VolumetricObscurance.number() == 37,
        ExternIndex::Postprocess.number() == 38,
        ExternIndex::TextureSet.number() == 39,
        ExternIndex::Transparent.number() == 40,
        ExternIndex::Vignette.number() == 41,
        ExternIndex::GlobalLighting.number() == 42,
        ExternIndex::ShadowMask.number() == 43,
        ExternIndex::ObjectEffect.number() == 44,
        ExternIndex::Decal.number() == 45,
        ExternIndex::DecalSetTransform.number() == 46,
        ExternIndex::DynamicDecal.number() == 47,
        ExternIndex::DecoratorWind.number() == 48,
        ExternIndex::TextureCameraLighting.number() == 49,
        ExternIndex::VolumeFog.number() == 50,
        ExternIndex::Fxaa.number() == 51,
        ExternIndex::Smaa.number() == 52,
        ExternIndex::Letterbox.number() == 53,
        ExternIndex::DepthOfField.number() == 54,
        ExternIndex::PostprocessInitialDownsample.number() == 55,
        ExternIndex::CopyDepth.number() == 56,
        ExternIndex::DisplacementMotionBlur.number() == 57,
        ExternIndex::DebugShader.number() == 58,
        ExternIndex::MinmaxDepth.number() == 59,
        ExternIndex::SdsmBiasAndScale.number() == 60,
        ExternIndex::SdsmBiasAndScaleTextures.number() == 61,
        ExternIndex::ComputeShadowMapData.number() == 62,
        ExternIndex::ComputeLocalLightShadowMapData.number() == 63,
        ExternIndex::BilateralUpsample.number() == 64,
        ExternIndex::HealthOverlay.number() == 65,
        ExternIndex::LightProbeDominantLight.number() == 66,
        ExternIndex::LightProbeLightInstance.number() == 67,
        ExternIndex::Water.number() == 68,
        ExternIndex::LensFlare.number() == 69,
        ExternIndex::ScreenShader.number() == 70,
        ExternIndex::Scaler.number() == 71,
        ExternIndex::GammaControl.number() == 72,
        ExternIndex::SpeedtreePlacements.number() == 73,
        ExternIndex::Reticle.number() == 74,
        ExternIndex::Distortion.number() == 75,
        ExternIndex::WaterDebug.number() == 76,
        ExternIndex::ScreenAreaInput.number() == 77,
        ExternIndex::WaterDepthPrepass.number() == 78,
        ExternIndex::OverheadVisibilityMap.number() == 79,
        ExternIndex::ParticleCompute.number() == 80,
        ExternIndex::CubemapFiltering.number() == 81,
        ExternIndex::ParticleFastpath.number() == 82,
        ExternIndex::VolumetricsPass.number() == 83,
        ExternIndex::TemporalReprojection.number() == 84,
        ExternIndex::FxaaCompute.number() == 85,
        ExternIndex::VbCopyCompute.number() == 86,
        ExternIndex::UberDepth.number() == 87,
        ExternIndex::GearDye.number() == 88,
        ExternIndex::Cubemaps.number() == 89,
        ExternIndex::ShadowBlendWithPrevious.number() == 90,
        ExternIndex::DebugShadingOutput.number() == 91,
        ExternIndex::Ssao3d.number() == 92,
        ExternIndex::WaterDisplacement.number() == 93,
        ExternIndex::PatternBlending.number() == 94,
        ExternIndex::UiHdrTransform.number() == 95,
        ExternIndex::PlayerCenteredCascadedGrid.number() == 96,
        ExternIndex::SoftDeform.number() == 97,
{
}

} // verus!
