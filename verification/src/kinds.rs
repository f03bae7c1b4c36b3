//! The enumerated tags that identify which Extern block a query addresses.
//!
//! Only a handful of tags have a registered block layout; the rest are kept
//! so that bytecode referring to them decodes, and resolve to a distinct
//! `ExternNotFound` failure rather than a guessed default.

use vstd::prelude::*;

verus! {

/// Tag of an Extern block, as carried in bytecode and queries.
#[derive(Clone, Copy, Debug, PartialEq, Eq, Hash, Structural)]
pub enum TfxExtern {
    Unassigned,
    Frame,
    View,
    Deferred,
    DeferredLight,
    DeferredUberLight,
    DeferredShadow,
    Atmosphere,
    RigidModel,
    EditorMesh,
    EditorMeshMaterial,
    EditorDecal,
    EditorTerrain,
    EditorTerrainPatch,
    EditorTerrainDebug,
    SimpleGeometry,
    UiFont,
    CuiView,
    CuiObject,
    CuiBitmap,
    CuiVideo,
    CuiStandard,
    CuiHud,
    CuiScreenspaceBoxes,
    TextureVisualizer,
    Generic,
    Particle,
    ParticleDebug,
    GearDyeVisualizationMode,
    ScreenArea,
    Mlaa,
    Msaa,
    Hdao,
    DownsampleTextureGeneric,
    DownsampleDepth,
    Ssao,
    VolumetricObscurance,
    Postprocess,
    TextureSet,
    Transparent,
    Vignette,
    GlobalLighting,
    ShadowMask,
    ObjectEffect,
    Decal,
    DecalSetTransform,
    DynamicDecal,
    DecoratorWind,
    TextureCameraLighting,
    VolumeFog,
    Fxaa,
    Smaa,
    Letterbox,
    DepthOfField,
    PostprocessInitialDownsample,
    CopyDepth,
    DisplacementMotionBlur,
    DebugShader,
    MinmaxDepth,
    SdsmBiasAndScale,
    SdsmBiasAndScaleTextures,
    ComputeShadowMapData,
    ComputeLocalLightShadowMapData,
    BilateralUpsample,
    HealthOverlay,
    LightProbeDominantLight,
    LightProbeLightInstance,
    Water,
    LensFlare,
    ScreenShader,
    Scaler,
    GammaControl,
    SpeedtreePlacements,
    Reticle,
    Distortion,
    WaterDebug,
    ScreenAreaInput,
    WaterDepthPrepass,
    OverheadVisibilityMap,
    ParticleCompute,
    CubemapFiltering,
    ParticleFastpath,
    VolumetricsPass,
    TemporalReprojection,
    FxaaCompute,
    VbCopyCompute,
    UberDepth,
    GearDye,
    Cubemaps,
    ShadowBlendWithPrevious,
    DebugShadingOutput,
    Ssao3d,
    WaterDisplacement,
    PatternBlending,
    UiHdrTransform,
    PlayerCenteredCascadedGrid,
    SoftDeform,
}

/// The code under which a tag travels in the bytecode stream.
pub open spec fn spec_kind_code(k: TfxExtern) -> u8 {
    match k {
        TfxExtern::Unassigned => 0u8,
        TfxExtern::Frame => 1u8,
        TfxExtern::View => 2u8,
        TfxExtern::Deferred => 3u8,
        TfxExtern::DeferredLight => 4u8,
        TfxExtern::DeferredUberLight => 5u8,
        TfxExtern::DeferredShadow => 6u8,
        TfxExtern::Atmosphere => 7u8,
        TfxExtern::RigidModel => 8u8,
        TfxExtern::EditorMesh => 9u8,
        TfxExtern::EditorMeshMaterial => 10u8,
        TfxExtern::EditorDecal => 11u8,
        TfxExtern::EditorTerrain => 12u8,
        TfxExtern::EditorTerrainPatch => 13u8,
        TfxExtern::EditorTerrainDebug => 14u8,
        TfxExtern::SimpleGeometry => 15u8,
        TfxExtern::UiFont => 16u8,
        TfxExtern::CuiView => 17u8,
        TfxExtern::CuiObject => 18u8,
        TfxExtern::CuiBitmap => 19u8,
        TfxExtern::CuiVideo => 20u8,
        TfxExtern::CuiStandard => 21u8,
        TfxExtern::CuiHud => 22u8,
        TfxExtern::CuiScreenspaceBoxes => 23u8,
        TfxExtern::TextureVisualizer => 24u8,
        TfxExtern::Generic => 25u8,
        TfxExtern::Particle => 26u8,
        TfxExtern::ParticleDebug => 27u8,
        TfxExtern::GearDyeVisualizationMode => 28u8,
        TfxExtern::ScreenArea => 29u8,
        TfxExtern::Mlaa => 30u8,
        TfxExtern::Msaa => 31u8,
        TfxExtern::Hdao => 32u8,
        TfxExtern::DownsampleTextureGeneric => 33u8,
        TfxExtern::DownsampleDepth => 34u8,
        TfxExtern::Ssao => 35u8,
        TfxExtern::VolumetricObscurance => 36u8,
        TfxExtern::Postprocess => 37u8,
        TfxExtern::TextureSet => 38u8,
        TfxExtern::Transparent => 39u8,
        TfxExtern::Vignette => 40u8,
        TfxExtern::GlobalLighting => 41u8,
        TfxExtern::ShadowMask => 42u8,
        TfxExtern::ObjectEffect => 43u8,
        TfxExtern::Decal => 44u8,
        TfxExtern::DecalSetTransform => 45u8,
        TfxExtern::DynamicDecal => 46u8,
        TfxExtern::DecoratorWind => 47u8,
        TfxExtern::TextureCameraLighting => 48u8,
        TfxExtern::VolumeFog => 49u8,
        TfxExtern::Fxaa => 50u8,
        TfxExtern::Smaa => 51u8,
        TfxExtern::Letterbox => 52u8,
        TfxExtern::DepthOfField => 53u8,
        TfxExtern::PostprocessInitialDownsample => 54u8,
        TfxExtern::CopyDepth => 55u8,
        TfxExtern::DisplacementMotionBlur => 56u8,
        TfxExtern::DebugShader => 57u8,
        TfxExtern::MinmaxDepth => 58u8,
        TfxExtern::SdsmBiasAndScale => 59u8,
        TfxExtern::SdsmBiasAndScaleTextures => 60u8,
        TfxExtern::ComputeShadowMapData => 61u8,
        TfxExtern::ComputeLocalLightShadowMapData => 62u8,
        TfxExtern::BilateralUpsample => 63u8,
        TfxExtern::HealthOverlay => 64u8,
        TfxExtern::LightProbeDominantLight => 65u8,
        TfxExtern::LightProbeLightInstance => 66u8,
        TfxExtern::Water => 67u8,
        TfxExtern::LensFlare => 68u8,
        TfxExtern::ScreenShader => 69u8,
        TfxExtern::Scaler => 70u8,
        TfxExtern::GammaControl => 71u8,
        TfxExtern::SpeedtreePlacements => 72u8,
        TfxExtern::Reticle => 73u8,
        TfxExtern::Distortion => 74u8,
        TfxExtern::WaterDebug => 75u8,
        TfxExtern::ScreenAreaInput => 76u8,
        TfxExtern::WaterDepthPrepass => 77u8,
        TfxExtern::OverheadVisibilityMap => 78u8,
        TfxExtern::ParticleCompute => 79u8,
        TfxExtern::CubemapFiltering => 80u8,
        TfxExtern::ParticleFastpath => 81u8,
        TfxExtern::VolumetricsPass => 82u8,
        TfxExtern::TemporalReprojection => 83u8,
        TfxExtern::FxaaCompute => 84u8,
        TfxExtern::VbCopyCompute => 85u8,
        TfxExtern::UberDepth => 86u8,
        TfxExtern::GearDye => 87u8,
        TfxExtern::Cubemaps => 88u8,
        TfxExtern::ShadowBlendWithPrevious => 89u8,
        TfxExtern::DebugShadingOutput => 90u8,
        TfxExtern::Ssao3d => 91u8,
        TfxExtern::WaterDisplacement => 92u8,
        TfxExtern::PatternBlending => 93u8,
        TfxExtern::UiHdrTransform => 94u8,
        TfxExtern::PlayerCenteredCascadedGrid => 95u8,
        TfxExtern::SoftDeform => 96u8,
    }
}

/// The tag a bytecode stream means by the given code, if any.
pub open spec fn spec_kind_from_code(code: u8) -> Option<TfxExtern> {
    match code {
        0u8 => Some(TfxExtern::Unassigned),
        1u8 => Some(TfxExtern::Frame),
        2u8 => Some(TfxExtern::View),
        3u8 => Some(TfxExtern::Deferred),
        4u8 => Some(TfxExtern::DeferredLight),
        5u8 => Some(TfxExtern::DeferredUberLight),
        6u8 => Some(TfxExtern::DeferredShadow),
        7u8 => Some(TfxExtern::Atmosphere),
        8u8 => Some(TfxExtern::RigidModel),
        9u8 => Some(TfxExtern::EditorMesh),
        10u8 => Some(TfxExtern::EditorMeshMaterial),
        11u8 => Some(TfxExtern::EditorDecal),
        12u8 => Some(TfxExtern::EditorTerrain),
        13u8 => Some(TfxExtern::EditorTerrainPatch),
        14u8 => Some(TfxExtern::EditorTerrainDebug),
        15u8 => Some(TfxExtern::SimpleGeometry),
        16u8 => Some(TfxExtern::UiFont),
        17u8 => Some(TfxExtern::CuiView),
        18u8 => Some(TfxExtern::CuiObject),
        19u8 => Some(TfxExtern::CuiBitmap),
        20u8 => Some(TfxExtern::CuiVideo),
        21u8 => Some(TfxExtern::CuiStandard),
        22u8 => Some(TfxExtern::CuiHud),
        23u8 => Some(TfxExtern::CuiScreenspaceBoxes),
        24u8 => Some(TfxExtern::TextureVisualizer),
        25u8 => Some(TfxExtern::Generic),
        26u8 => Some(TfxExtern::Particle),
        27u8 => Some(TfxExtern::ParticleDebug),
        28u8 => Some(TfxExtern::GearDyeVisualizationMode),
        29u8 => Some(TfxExtern::ScreenArea),
        30u8 => Some(TfxExtern::Mlaa),
        31u8 => Some(TfxExtern::Msaa),
        32u8 => Some(TfxExtern::Hdao),
        33u8 => Some(TfxExtern::DownsampleTextureGeneric),
        34u8 => Some(TfxExtern::DownsampleDepth),
        35u8 => Some(TfxExtern::Ssao),
        36u8 => Some(TfxExtern::VolumetricObscurance),
        37u8 => Some(TfxExtern::Postprocess),
        38u8 => Some(TfxExtern::TextureSet),
        39u8 => Some(TfxExtern::Transparent),
        40u8 => Some(TfxExtern::Vignette),
        41u8 => Some(TfxExtern::GlobalLighting),
        42u8 => Some(TfxExtern::ShadowMask),
        43u8 => Some(TfxExtern::ObjectEffect),
        44u8 => Some(TfxExtern::Decal),
        45u8 => Some(TfxExtern::DecalSetTransform),
        46u8 => Some(TfxExtern::DynamicDecal),
        47u8 => Some(TfxExtern::DecoratorWind),
        48u8 => Some(TfxExtern::TextureCameraLighting),
        49u8 => Some(TfxExtern::VolumeFog),
        50u8 => Some(TfxExtern::Fxaa),
        51u8 => Some(TfxExtern::Smaa),
        52u8 => Some(TfxExtern::Letterbox),
        53u8 => Some(TfxExtern::DepthOfField),
        54u8 => Some(TfxExtern::PostprocessInitialDownsample),
        55u8 => Some(TfxExtern::CopyDepth),
        56u8 => Some(TfxExtern::DisplacementMotionBlur),
        57u8 => Some(TfxExtern::DebugShader),
        58u8 => Some(TfxExtern::MinmaxDepth),
        59u8 => Some(TfxExtern::SdsmBiasAndScale),
        60u8 => Some(TfxExtern::SdsmBiasAndScaleTextures),
        61u8 => Some(TfxExtern::ComputeShadowMapData),
        62u8 => Some(TfxExtern::ComputeLocalLightShadowMapData),
        63u8 => Some(TfxExtern::BilateralUpsample),
        64u8 => Some(TfxExtern::HealthOverlay),
        65u8 => Some(TfxExtern::LightProbeDominantLight),
        66u8 => Some(TfxExtern::LightProbeLightInstance),
        67u8 => Some(TfxExtern::Water),
        68u8 => Some(TfxExtern::LensFlare),
        69u8 => Some(TfxExtern::ScreenShader),
        70u8 => Some(TfxExtern::Scaler),
        71u8 => Some(TfxExtern::GammaControl),
        72u8 => Some(TfxExtern::SpeedtreePlacements),
        73u8 => Some(TfxExtern::Reticle),
        74u8 => Some(TfxExtern::Distortion),
        75u8 => Some(TfxExtern::WaterDebug),
        76u8 => Some(TfxExtern::ScreenAreaInput),
        77u8 => Some(TfxExtern::WaterDepthPrepass),
        78u8 => Some(TfxExtern::OverheadVisibilityMap),
        79u8 => Some(TfxExtern::ParticleCompute),
        80u8 => Some(TfxExtern::CubemapFiltering),
        81u8 => Some(TfxExtern::ParticleFastpath),
        82u8 => Some(TfxExtern::VolumetricsPass),
        83u8 => Some(TfxExtern::TemporalReprojection),
        84u8 => Some(TfxExtern::FxaaCompute),
        85u8 => Some(TfxExtern::VbCopyCompute),
        86u8 => Some(TfxExtern::UberDepth),
        87u8 => Some(TfxExtern::GearDye),
        88u8 => Some(TfxExtern::Cubemaps),
        89u8 => Some(TfxExtern::ShadowBlendWithPrevious),
        90u8 => Some(TfxExtern::DebugShadingOutput),
        91u8 => Some(TfxExtern::Ssao3d),
        92u8 => Some(TfxExtern::WaterDisplacement),
        93u8 => Some(TfxExtern::PatternBlending),
        94u8 => Some(TfxExtern::UiHdrTransform),
        95u8 => Some(TfxExtern::PlayerCenteredCascadedGrid),
        96u8 => Some(TfxExtern::SoftDeform),
        _ => None,
    }
}

impl TfxExtern {
    /// Encodes the tag as its bytecode code.
    pub fn to_code(self) -> (r: u8)
        ensures
            r == spec_kind_code(self),
    {
        match self {
            TfxExtern::Unassigned => 0,
            TfxExtern::Frame => 1,
            TfxExtern::View => 2,
            TfxExtern::Deferred => 3,
            TfxExtern::DeferredLight => 4,
            TfxExtern::DeferredUberLight => 5,
            TfxExtern::DeferredShadow => 6,
            TfxExtern::Atmosphere => 7,
            TfxExtern::RigidModel => 8,
            TfxExtern::EditorMesh => 9,
            TfxExtern::EditorMeshMaterial => 10,
            TfxExtern::EditorDecal => 11,
            TfxExtern::EditorTerrain => 12,
            TfxExtern::EditorTerrainPatch => 13,
            TfxExtern::EditorTerrainDebug => 14,
            TfxExtern::SimpleGeometry => 15,
            TfxExtern::UiFont => 16,
            TfxExtern::CuiView => 17,
            TfxExtern::CuiObject => 18,
            TfxExtern::CuiBitmap => 19,
            TfxExtern::CuiVideo => 20,
            TfxExtern::CuiStandard => 21,
            TfxExtern::CuiHud => 22,
            TfxExtern::CuiScreenspaceBoxes => 23,
            TfxExtern::TextureVisualizer => 24,
            TfxExtern::Generic => 25,
            TfxExtern::Particle => 26,
            TfxExtern::ParticleDebug => 27,
            TfxExtern::GearDyeVisualizationMode => 28,
            TfxExtern::ScreenArea => 29,
            TfxExtern::Mlaa => 30,
            TfxExtern::Msaa => 31,
            TfxExtern::Hdao => 32,
            TfxExtern::DownsampleTextureGeneric => 33,
            TfxExtern::DownsampleDepth => 34,
            TfxExtern::Ssao => 35,
            TfxExtern::VolumetricObscurance => 36,
            TfxExtern::Postprocess => 37,
            TfxExtern::TextureSet => 38,
            TfxExtern::Transparent => 39,
            TfxExtern::Vignette => 40,
            TfxExtern::GlobalLighting => 41,
            TfxExtern::ShadowMask => 42,
            TfxExtern::ObjectEffect => 43,
            TfxExtern::Decal => 44,
            TfxExtern::DecalSetTransform => 45,
            TfxExtern::DynamicDecal => 46,
            TfxExtern::DecoratorWind => 47,
            TfxExtern::TextureCameraLighting => 48,
            TfxExtern::VolumeFog => 49,
            TfxExtern::Fxaa => 50,
            TfxExtern::Smaa => 51,
            TfxExtern::Letterbox => 52,
            TfxExtern::DepthOfField => 53,
            TfxExtern::PostprocessInitialDownsample => 54,
            TfxExtern::CopyDepth => 55,
            TfxExtern::DisplacementMotionBlur => 56,
            TfxExtern::DebugShader => 57,
            TfxExtern::MinmaxDepth => 58,
            TfxExtern::SdsmBiasAndScale => 59,
            TfxExtern::SdsmBiasAndScaleTextures => 60,
            TfxExtern::ComputeShadowMapData => 61,
            TfxExtern::ComputeLocalLightShadowMapData => 62,
            TfxExtern::BilateralUpsample => 63,
            TfxExtern::HealthOverlay => 64,
            TfxExtern::LightProbeDominantLight => 65,
            TfxExtern::LightProbeLightInstance => 66,
            TfxExtern::Water => 67,
            TfxExtern::LensFlare => 68,
            TfxExtern::ScreenShader => 69,
            TfxExtern::Scaler => 70,
            TfxExtern::GammaControl => 71,
            TfxExtern::SpeedtreePlacements => 72,
            TfxExtern::Reticle => 73,
            TfxExtern::Distortion => 74,
            TfxExtern::WaterDebug => 75,
            TfxExtern::ScreenAreaInput => 76,
            TfxExtern::WaterDepthPrepass => 77,
            TfxExtern::OverheadVisibilityMap => 78,
            TfxExtern::ParticleCompute => 79,
            TfxExtern::CubemapFiltering => 80,
            TfxExtern::ParticleFastpath => 81,
            TfxExtern::VolumetricsPass => 82,
            TfxExtern::TemporalReprojection => 83,
            TfxExtern::FxaaCompute => 84,
            TfxExtern::VbCopyCompute => 85,
            TfxExtern::UberDepth => 86,
            TfxExtern::GearDye => 87,
            TfxExtern::Cubemaps => 88,
            TfxExtern::ShadowBlendWithPrevious => 89,
            TfxExtern::DebugShadingOutput => 90,
            TfxExtern::Ssao3d => 91,
            TfxExtern::WaterDisplacement => 92,
            TfxExtern::PatternBlending => 93,
            TfxExtern::UiHdrTransform => 94,
            TfxExtern::PlayerCenteredCascadedGrid => 95,
            TfxExtern::SoftDeform => 96,
        }
    }

    /// Decodes a bytecode code back into a tag.
    pub fn from_code(code: u8) -> (r: Option<TfxExtern>)
        ensures
            r == spec_kind_from_code(code),
    {
        match code {
            0 => Some(TfxExtern::Unassigned),
            1 => Some(TfxExtern::Frame),
            2 => Some(TfxExtern::View),
            3 => Some(TfxExtern::Deferred),
            4 => Some(TfxExtern::DeferredLight),
            5 => Some(TfxExtern::DeferredUberLight),
            6 => Some(TfxExtern::DeferredShadow),
            7 => Some(TfxExtern::Atmosphere),
            8 => Some(TfxExtern::RigidModel),
            9 => Some(TfxExtern::EditorMesh),
            10 => Some(TfxExtern::EditorMeshMaterial),
            11 => Some(TfxExtern::EditorDecal),
            12 => Some(TfxExtern::EditorTerrain),
            13 => Some(TfxExtern::EditorTerrainPatch),
            14 => Some(TfxExtern::EditorTerrainDebug),
            15 => Some(TfxExtern::SimpleGeometry),
            16 => Some(TfxExtern::UiFont),
            17 => Some(TfxExtern::CuiView),
            18 => Some(TfxExtern::CuiObject),
            19 => Some(TfxExtern::CuiBitmap),
            20 => Some(TfxExtern::CuiVideo),
            21 => Some(TfxExtern::CuiStandard),
            22 => Some(TfxExtern::CuiHud),
            23 => Some(TfxExtern::CuiScreenspaceBoxes),
            24 => Some(TfxExtern::TextureVisualizer),
            25 => Some(TfxExtern::Generic),
            26 => Some(TfxExtern::Particle),
            27 => Some(TfxExtern::ParticleDebug),
            28 => Some(TfxExtern::GearDyeVisualizationMode),
            29 => Some(TfxExtern::ScreenArea),
            30 => Some(TfxExtern::Mlaa),
            31 => Some(TfxExtern::Msaa),
            32 => Some(TfxExtern::Hdao),
            33 => Some(TfxExtern::DownsampleTextureGeneric),
            34 => Some(TfxExtern::DownsampleDepth),
            35 => Some(TfxExtern::Ssao),
            36 => Some(TfxExtern::VolumetricObscurance),
            37 => Some(TfxExtern::Postprocess),
            38 => Some(TfxExtern::TextureSet),
            39 => Some(TfxExtern::Transparent),
            40 => Some(TfxExtern::Vignette),
            41 => Some(TfxExtern::GlobalLighting),
            42 => Some(TfxExtern::ShadowMask),
            43 => Some(TfxExtern::ObjectEffect),
            44 => Some(TfxExtern::Decal),
            45 => Some(TfxExtern::DecalSetTransform),
            46 => Some(TfxExtern::DynamicDecal),
            47 => Some(TfxExtern::DecoratorWind),
            48 => Some(TfxExtern::TextureCameraLighting),
            49 => Some(TfxExtern::VolumeFog),
            50 => Some(TfxExtern::Fxaa),
            51 => Some(TfxExtern::Smaa),
            52 => Some(TfxExtern::Letterbox),
            53 => Some(TfxExtern::DepthOfField),
            54 => Some(TfxExtern::PostprocessInitialDownsample),
            55 => Some(TfxExtern::CopyDepth),
            56 => Some(TfxExtern::DisplacementMotionBlur),
            57 => Some(TfxExtern::DebugShader),
            58 => Some(TfxExtern::MinmaxDepth),
            59 => Some(TfxExtern::SdsmBiasAndScale),
            60 => Some(TfxExtern::SdsmBiasAndScaleTextures),
            61 => Some(TfxExtern::ComputeShadowMapData),
            62 => Some(TfxExtern::ComputeLocalLightShadowMapData),
            63 => Some(TfxExtern::BilateralUpsample),
            64 => Some(TfxExtern::HealthOverlay),
            65 => Some(TfxExtern::LightProbeDominantLight),
            66 => Some(TfxExtern::LightProbeLightInstance),
            67 => Some(TfxExtern::Water),
            68 => Some(TfxExtern::LensFlare),
            69 => Some(TfxExtern::ScreenShader),
            70 => Some(TfxExtern::Scaler),
            71 => Some(TfxExtern::GammaControl),
            72 => Some(TfxExtern::SpeedtreePlacements),
            73 => Some(TfxExtern::Reticle),
            74 => Some(TfxExtern::Distortion),
            75 => Some(TfxExtern::WaterDebug),
            76 => Some(TfxExtern::ScreenAreaInput),
            77 => Some(TfxExtern::WaterDepthPrepass),
            78 => Some(TfxExtern::OverheadVisibilityMap),
            79 => Some(TfxExtern::ParticleCompute),
            80 => Some(TfxExtern::CubemapFiltering),
            81 => Some(TfxExtern::ParticleFastpath),
            82 => Some(TfxExtern::VolumetricsPass),
            83 => Some(TfxExtern::TemporalReprojection),
            84 => Some(TfxExtern::FxaaCompute),
            85 => Some(TfxExtern::VbCopyCompute),
            86 => Some(TfxExtern::UberDepth),
            87 => Some(TfxExtern::GearDye),
            88 => Some(TfxExtern::Cubemaps),
            89 => Some(TfxExtern::ShadowBlendWithPrevious),
            90 => Some(TfxExtern::DebugShadingOutput),
            91 => Some(TfxExtern::Ssao3d),
            92 => Some(TfxExtern::WaterDisplacement),
            93 => Some(TfxExtern::PatternBlending),
            94 => Some(TfxExtern::UiHdrTransform),
            95 => Some(TfxExtern::PlayerCenteredCascadedGrid),
            96 => Some(TfxExtern::SoftDeform),
            _ => None,
        }
    }
}

/// True for the tags that have a registered block layout.
pub open spec fn spec_is_registered(k: TfxExtern) -> bool {
    ||| k == TfxExtern::Frame
    ||| k == TfxExtern::View
    ||| k == TfxExtern::Deferred
    ||| k == TfxExtern::DeferredLight
    ||| k == TfxExtern::Transparent
    ||| k == TfxExtern::RigidModel
    ||| k == TfxExtern::Decal
    ||| k == TfxExtern::SimpleGeometry
}

/// Tells whether a tag has a registered block layout.
pub fn is_registered(k: TfxExtern) -> (r: bool)
    ensures
        r == spec_is_registered(k),
{
    match k {
        TfxExtern::Frame => true,
        TfxExtern::View => true,
        TfxExtern::Deferred => true,
        TfxExtern::DeferredLight => true,
        TfxExtern::Transparent => true,
        TfxExtern::RigidModel => true,
        TfxExtern::Decal => true,
        TfxExtern::SimpleGeometry => true,
        _ => false,
    }
}

/// A tag's code always decodes back to the same tag.
pub proof fn lemma_kind_code_round_trip(k: TfxExtern)
    ensures
        spec_kind_from_code(spec_kind_code(k)) == Some(k),
{
    match k {
        TfxExtern::Unassigned => {},
        TfxExtern::Frame => {},
        TfxExtern::View => {},
        TfxExtern::Deferred => {},
        TfxExtern::DeferredLight => {},
        TfxExtern::DeferredUberLight => {},
        TfxExtern::DeferredShadow => {},
        TfxExtern::Atmosphere => {},
        TfxExtern::RigidModel => {},
        TfxExtern::EditorMesh => {},
        TfxExtern::EditorMeshMaterial => {},
        TfxExtern::EditorDecal => {},
        TfxExtern::EditorTerrain => {},
        TfxExtern::EditorTerrainPatch => {},
        TfxExtern::EditorTerrainDebug => {},
        TfxExtern::SimpleGeometry => {},
        TfxExtern::UiFont => {},
        TfxExtern::CuiView => {},
        TfxExtern::CuiObject => {},
        TfxExtern::CuiBitmap => {},
        TfxExtern::CuiVideo => {},
        TfxExtern::CuiStandard => {},
        TfxExtern::CuiHud => {},
        TfxExtern::CuiScreenspaceBoxes => {},
        TfxExtern::TextureVisualizer => {},
        TfxExtern::Generic => {},
        TfxExtern::Particle => {},
        TfxExtern::ParticleDebug => {},
        TfxExtern::GearDyeVisualizationMode => {},
        TfxExtern::ScreenArea => {},
        TfxExtern::Mlaa => {},
        TfxExtern::Msaa => {},
        TfxExtern::Hdao => {},
        TfxExtern::DownsampleTextureGeneric => {},
        TfxExtern::DownsampleDepth => {},
        TfxExtern::Ssao => {},
        TfxExtern::VolumetricObscurance => {},
        TfxExtern::Postprocess => {},
        TfxExtern::TextureSet => {},
        TfxExtern::Transparent => {},
        TfxExtern::Vignette => {},
        TfxExtern::GlobalLighting => {},
        TfxExtern::ShadowMask => {},
        TfxExtern::ObjectEffect => {},
        TfxExtern::Decal => {},
        TfxExtern::DecalSetTransform => {},
        TfxExtern::DynamicDecal => {},
        TfxExtern::DecoratorWind => {},
        TfxExtern::TextureCameraLighting => {},
        TfxExtern::VolumeFog => {},
        TfxExtern::Fxaa => {},
        TfxExtern::Smaa => {},
        TfxExtern::Letterbox => {},
        TfxExtern::DepthOfField => {},
        TfxExtern::PostprocessInitialDownsample => {},
        TfxExtern::CopyDepth => {},
        TfxExtern::DisplacementMotionBlur => {},
        TfxExtern::DebugShader => {},
        TfxExtern::MinmaxDepth => {},
        TfxExtern::SdsmBiasAndScale => {},
        TfxExtern::SdsmBiasAndScaleTextures => {},
        TfxExtern::ComputeShadowMapData => {},
        TfxExtern::ComputeLocalLightShadowMapData => {},
        TfxExtern::BilateralUpsample => {},
        TfxExtern::HealthOverlay => {},
        TfxExtern::LightProbeDominantLight => {},
        TfxExtern::LightProbeLightInstance => {},
        TfxExtern::Water => {},
        TfxExtern::LensFlare => {},
        TfxExtern::ScreenShader => {},
        TfxExtern::Scaler => {},
        TfxExtern::GammaControl => {},
        TfxExtern::SpeedtreePlacements => {},
        TfxExtern::Reticle => {},
        TfxExtern::Distortion => {},
        TfxExtern::WaterDebug => {},
        TfxExtern::ScreenAreaInput => {},
        TfxExtern::WaterDepthPrepass => {},
        TfxExtern::OverheadVisibilityMap => {},
        TfxExtern::ParticleCompute => {},
        TfxExtern::CubemapFiltering => {},
        TfxExtern::ParticleFastpath => {},
        TfxExtern::VolumetricsPass => {},
        TfxExtern::TemporalReprojection => {},
        TfxExtern::FxaaCompute => {},
        TfxExtern::VbCopyCompute => {},
        TfxExtern::UberDepth => {},
        TfxExtern::GearDye => {},
        TfxExtern::Cubemaps => {},
        TfxExtern::ShadowBlendWithPrevious => {},
        TfxExtern::DebugShadingOutput => {},
        TfxExtern::Ssao3d => {},
        TfxExtern::WaterDisplacement => {},
        TfxExtern::PatternBlending => {},
        TfxExtern::UiHdrTransform => {},
        TfxExtern::PlayerCenteredCascadedGrid => {},
        TfxExtern::SoftDeform => {},
    }
}

} // verus!
