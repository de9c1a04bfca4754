//! Ledgers: what the renderer supports, which passes are connected and what was
//! observed of them.

use crate::globals::GlobalPipelines;
use crate::pipelines::Pipeline;
use crate::single::{is_finite, finite, key_of, order_key};
use crate::text::views;
use vstd::prelude::*;

verus! {

/// The capabilities of the renderer.
#[derive(Clone, Copy, Debug, PartialEq, Eq, PartialOrd, Ord, Structural)]
pub enum CapabilityId {
    Bootstrap,
    Tfx,
    CoreGeometry,
    LocalLighting,
    Presentation,
    CubemapIbl,
    GlobalLighting,
    Atmosphere,
    SkyObjects,
    SkyEnvironment,
    LightShaftOcclusion,
    MaterialAo,
    Solar,
    Transparent,
    DecalWaterVolumetrics,
    ActivityLayers,
}

impl CapabilityId {
    /// The name of a capability.
    pub open spec fn label(self) -> Seq<char> {
        match self {
            CapabilityId::Bootstrap => "Shadowkeep bootstrap and input layouts"@,
            CapabilityId::Tfx => "TFX scopes, techniques, and positional channels"@,
            CapabilityId::CoreGeometry => "Core geometry submission"@,
            CapabilityId::LocalLighting => "Local lighting and deferred shading"@,
            CapabilityId::Presentation => "Direct presentation"@,
            CapabilityId::CubemapIbl => "Cubemap specular IBL"@,
            CapabilityId::GlobalLighting => "Global directional lighting and cascaded sun shadows"@,
            CapabilityId::Atmosphere => "Package atmosphere lookup/background"@,
            CapabilityId::SkyObjects => "Map-authored sky-object models"@,
            CapabilityId::SkyEnvironment => "Phase-specific sky-object environment selection"@,
            CapabilityId::LightShaftOcclusion => "Sky-object LightShaftOcclusion"@,
            CapabilityId::MaterialAo => "Shadowkeep material AO compatibility finalizer"@,
            CapabilityId::Solar => "Shadowkeep solar path"@,
            CapabilityId::Transparent => "General transparent/additive geometry"@,
            CapabilityId::DecalWaterVolumetrics => "Authored decals, water, and volumetrics"@,
            CapabilityId::ActivityLayers => "Activity and ambient scene layers"@,
        }
    }

    pub fn display_name(self) -> (text: &'static str)
        ensures
            text@ == self.label(),
    {
        match self {
            CapabilityId::Bootstrap => "Shadowkeep bootstrap and input layouts",
            CapabilityId::Tfx => "TFX scopes, techniques, and positional channels",
            CapabilityId::CoreGeometry => "Core geometry submission",
            CapabilityId::LocalLighting => "Local lighting and deferred shading",
            CapabilityId::Presentation => "Direct presentation",
            CapabilityId::CubemapIbl => "Cubemap specular IBL",
            CapabilityId::GlobalLighting => "Global directional lighting and cascaded sun shadows",
            CapabilityId::Atmosphere => "Package atmosphere lookup/background",
            CapabilityId::SkyObjects => "Map-authored sky-object models",
            CapabilityId::SkyEnvironment => "Phase-specific sky-object environment selection",
            CapabilityId::LightShaftOcclusion => "Sky-object LightShaftOcclusion",
            CapabilityId::MaterialAo => "Shadowkeep material AO compatibility finalizer",
            CapabilityId::Solar => "Shadowkeep solar path",
            CapabilityId::Transparent => "General transparent/additive geometry",
            CapabilityId::DecalWaterVolumetrics => "Authored decals, water, and volumetrics",
            CapabilityId::ActivityLayers => "Activity and ambient scene layers",
        }
    }

    /// The identifier of a capability in reports.
    pub open spec fn report_name(self) -> Seq<char> {
        match self {
            CapabilityId::Bootstrap => "bootstrap"@,
            CapabilityId::Tfx => "tfx"@,
            CapabilityId::CoreGeometry => "core_geometry"@,
            CapabilityId::LocalLighting => "local_lighting"@,
            CapabilityId::Presentation => "presentation"@,
            CapabilityId::CubemapIbl => "cubemap_ibl"@,
            CapabilityId::GlobalLighting => "global_lighting"@,
            CapabilityId::Atmosphere => "atmosphere"@,
            CapabilityId::SkyObjects => "sky_objects"@,
            CapabilityId::SkyEnvironment => "sky_environment"@,
            CapabilityId::LightShaftOcclusion => "light_shaft_occlusion"@,
            CapabilityId::MaterialAo => "material_ao"@,
            CapabilityId::Solar => "solar"@,
            CapabilityId::Transparent => "transparent"@,
            CapabilityId::DecalWaterVolumetrics => "decal_water_volumetrics"@,
            CapabilityId::ActivityLayers => "activity_layers"@,
        }
    }

    pub fn identifier(self) -> (text: &'static str)
        ensures
            text@ == self.report_name(),
    {
        match self {
            CapabilityId::Bootstrap => "bootstrap",
            CapabilityId::Tfx => "tfx",
            CapabilityId::CoreGeometry => "core_geometry",
            CapabilityId::LocalLighting => "local_lighting",
            CapabilityId::Presentation => "presentation",
            CapabilityId::CubemapIbl => "cubemap_ibl",
            CapabilityId::GlobalLighting => "global_lighting",
            CapabilityId::Atmosphere => "atmosphere",
            CapabilityId::SkyObjects => "sky_objects",
            CapabilityId::SkyEnvironment => "sky_environment",
            CapabilityId::LightShaftOcclusion => "light_shaft_occlusion",
            CapabilityId::MaterialAo => "material_ao",
            CapabilityId::Solar => "solar",
            CapabilityId::Transparent => "transparent",
            CapabilityId::DecalWaterVolumetrics => "decal_water_volumetrics",
            CapabilityId::ActivityLayers => "activity_layers",
        }
    }
}

/// How far a capability is supported.
#[derive(Debug)]
pub enum CapabilitySupport {
    Supported,
    Degraded { reason: String },
    Unsupported { reason: String },
}

/// What a statement of support says.
pub enum SupportView {
    Supported,
    Degraded(Seq<char>),
    Unsupported(Seq<char>),
}

impl View for CapabilitySupport {
    type V = SupportView;

    open spec fn view(&self) -> SupportView {
        match self {
            CapabilitySupport::Supported => SupportView::Supported,
            CapabilitySupport::Degraded { reason } => SupportView::Degraded(reason@),
            CapabilitySupport::Unsupported { reason } => SupportView::Unsupported(reason@),
        }
    }
}

/// A capability, how far it is supported and why that is believed.
#[derive(Debug)]
pub struct CapabilityRecord {
    pub id: CapabilityId,
    pub support: CapabilitySupport,
    pub evidence: String,
}

pub struct CapabilityView {
    pub id: CapabilityId,
    pub support: SupportView,
    pub evidence: Seq<char>,
}

impl View for CapabilityRecord {
    type V = CapabilityView;

    open spec fn view(&self) -> CapabilityView {
        CapabilityView { id: self.id, support: self.support@, evidence: self.evidence@ }
    }
}

pub open spec fn supported_record(id: CapabilityId) -> CapabilityView {
    CapabilityView {
        id,
        support: SupportView::Supported,
        evidence: "Supported by the loaded renderer; runtime evidence not yet observed"@,
    }
}

/// The capabilities of a renderer that has been loaded.
pub open spec fn capability_ledger() -> Seq<CapabilityView> {
    seq![
        supported_record(CapabilityId::Bootstrap),
        supported_record(CapabilityId::Tfx),
        supported_record(CapabilityId::CoreGeometry),
        supported_record(CapabilityId::LocalLighting),
        supported_record(CapabilityId::Presentation),
        supported_record(CapabilityId::CubemapIbl),
        supported_record(CapabilityId::GlobalLighting),
        supported_record(CapabilityId::Atmosphere),
        supported_record(CapabilityId::SkyObjects),
        supported_record(CapabilityId::MaterialAo),
        CapabilityView {
            id: CapabilityId::SkyEnvironment,
            support: SupportView::Degraded("activity-owned overlays are not proven for every active phase"@),
            evidence: "Exact collection and package-name selection is deterministic"@,
        },
        CapabilityView {
            id: CapabilityId::LightShaftOcclusion,
            support: SupportView::Unsupported("legacy light-shaft occlusion target/pass is not restored"@),
            evidence: "Authored 0x200 subscriptions are reported but not submitted"@,
        },
        CapabilityView {
            id: CapabilityId::Solar,
            support: SupportView::Degraded("admitted maps have no decoded authored solar track"@),
            evidence: "A scene-clock fallback drives sun direction and daylight"@,
        },
        CapabilityView {
            id: CapabilityId::Transparent,
            support: SupportView::Unsupported("general transparent/additive producers remain disconnected"@),
            evidence: "Only the isolated legacy SkyTransparent path is admitted"@,
        },
        CapabilityView {
            id: CapabilityId::DecalWaterVolumetrics,
            support: SupportView::Unsupported("era-specific producers and pass ordering are not connected"@),
            evidence: "No runtime submission path is scheduled"@,
        },
        CapabilityView {
            id: CapabilityId::ActivityLayers,
            support: SupportView::Degraded("no compatible package global-channel producer was found"@),
            evidence: "Base bubble and discovered freeroam scenario tables are admitted"@,
        },
    ]
}

fn supported(id: CapabilityId) -> (record: CapabilityRecord)
    ensures
        record@ == supported_record(id),
{
    CapabilityRecord {
        id,
        support: CapabilitySupport::Supported,
        evidence: "Supported by the loaded renderer; runtime evidence not yet observed".to_owned(),
    }
}

fn degraded(id: CapabilityId, reason: &str, evidence: &str) -> (record: CapabilityRecord)
    ensures
        record@ == (CapabilityView {
            id,
            support: SupportView::Degraded(reason@),
            evidence: evidence@,
        }),
{
    CapabilityRecord {
        id,
        support: CapabilitySupport::Degraded { reason: reason.to_owned() },
        evidence: evidence.to_owned(),
    }
}

fn unsupported(id: CapabilityId, reason: &str, evidence: &str) -> (record: CapabilityRecord)
    ensures
        record@ == (CapabilityView {
            id,
            support: SupportView::Unsupported(reason@),
            evidence: evidence@,
        }),
{
    CapabilityRecord {
        id,
        support: CapabilitySupport::Unsupported { reason: reason.to_owned() },
        evidence: evidence.to_owned(),
    }
}

/// The capabilities of a renderer that has been loaded.
pub fn bootstrap_capability_ledger() -> (records: Vec<CapabilityRecord>)
    ensures
        views(records@) == capability_ledger(),
{
    let mut records: Vec<CapabilityRecord> = Vec::new();
    records.push(supported(CapabilityId::Bootstrap));
    records.push(supported(CapabilityId::Tfx));
    records.push(supported(CapabilityId::CoreGeometry));
    records.push(supported(CapabilityId::LocalLighting));
    records.push(supported(CapabilityId::Presentation));
    records.push(supported(CapabilityId::CubemapIbl));
    records.push(supported(CapabilityId::GlobalLighting));
    records.push(supported(CapabilityId::Atmosphere));
    records.push(supported(CapabilityId::SkyObjects));
    records.push(supported(CapabilityId::MaterialAo));
    records.push(
        degraded(
            CapabilityId::SkyEnvironment,
            "activity-owned overlays are not proven for every active phase",
            "Exact collection and package-name selection is deterministic",
        ),
    );
    records.push(
        unsupported(
            CapabilityId::LightShaftOcclusion,
            "legacy light-shaft occlusion target/pass is not restored",
            "Authored 0x200 subscriptions are reported but not submitted",
        ),
    );
    records.push(
        degraded(
            CapabilityId::Solar,
            "admitted maps have no decoded authored solar track",
            "A scene-clock fallback drives sun direction and daylight",
        ),
    );
    records.push(
        unsupported(
            CapabilityId::Transparent,
            "general transparent/additive producers remain disconnected",
            "Only the isolated legacy SkyTransparent path is admitted",
        ),
    );
    records.push(
        unsupported(
            CapabilityId::DecalWaterVolumetrics,
            "era-specific producers and pass ordering are not connected",
            "No runtime submission path is scheduled",
        ),
    );
    records.push(
        degraded(
            CapabilityId::ActivityLayers,
            "no compatible package global-channel producer was found",
            "Base bubble and discovered freeroam scenario tables are admitted",
        ),
    );
    assert(views(records@) =~= capability_ledger());
    records
}

/// Where a capability stands in the ledger.
pub open spec fn ledger_place(id: CapabilityId) -> int {
    match id {
        CapabilityId::Bootstrap => 0,
        CapabilityId::Tfx => 1,
        CapabilityId::CoreGeometry => 2,
        CapabilityId::LocalLighting => 3,
        CapabilityId::Presentation => 4,
        CapabilityId::CubemapIbl => 5,
        CapabilityId::GlobalLighting => 6,
        CapabilityId::Atmosphere => 7,
        CapabilityId::SkyObjects => 8,
        CapabilityId::SkyEnvironment => 10,
        CapabilityId::LightShaftOcclusion => 11,
        CapabilityId::MaterialAo => 9,
        CapabilityId::Solar => 12,
        CapabilityId::Transparent => 13,
        CapabilityId::DecalWaterVolumetrics => 14,
        CapabilityId::ActivityLayers => 15,
    }
}

/// Every capability is in the ledger exactly once.
pub proof fn law_every_capability_is_listed_once(id: CapabilityId)
    ensures
        0 <= ledger_place(id) < capability_ledger().len(),
        capability_ledger()[ledger_place(id)].id == id,
        forall|i: int|
            0 <= i < capability_ledger().len() && (#[trigger] capability_ledger()[i]).id == id
                ==> i == ledger_place(id),
{
    let ledger = capability_ledger();
    assert(ledger.len() == 16);
    assert forall|i: int| 0 <= i < ledger.len() && (#[trigger] ledger[i]).id == id implies i
        == ledger_place(id) by {
        assert(i == 0 ==> ledger[i].id == CapabilityId::Bootstrap);
        assert(i == 1 ==> ledger[i].id == CapabilityId::Tfx);
        assert(i == 2 ==> ledger[i].id == CapabilityId::CoreGeometry);
        assert(i == 3 ==> ledger[i].id == CapabilityId::LocalLighting);
        assert(i == 4 ==> ledger[i].id == CapabilityId::Presentation);
        assert(i == 5 ==> ledger[i].id == CapabilityId::CubemapIbl);
        assert(i == 6 ==> ledger[i].id == CapabilityId::GlobalLighting);
        assert(i == 7 ==> ledger[i].id == CapabilityId::Atmosphere);
        assert(i == 8 ==> ledger[i].id == CapabilityId::SkyObjects);
        assert(i == 9 ==> ledger[i].id == CapabilityId::MaterialAo);
        assert(i == 10 ==> ledger[i].id == CapabilityId::SkyEnvironment);
        assert(i == 11 ==> ledger[i].id == CapabilityId::LightShaftOcclusion);
        assert(i == 12 ==> ledger[i].id == CapabilityId::Solar);
        assert(i == 13 ==> ledger[i].id == CapabilityId::Transparent);
        assert(i == 14 ==> ledger[i].id == CapabilityId::DecalWaterVolumetrics);
        assert(i == 15 ==> ledger[i].id == CapabilityId::ActivityLayers);
    }
}

/// The states of a pass.
#[derive(Clone, Copy, Debug, PartialEq, Eq, Structural)]
pub enum ShadowkeepPassState {
    Ready,
    Degraded,
    DisabledAsAbsent,
    Failed,
}

/// A pass of the frame and its state.
#[derive(Clone, Copy, Debug)]
pub struct ShadowkeepPassRecord {
    pub name: &'static str,
    pub state: ShadowkeepPassState,
    pub evidence: &'static str,
}

pub struct PassView {
    pub name: Seq<char>,
    pub state: ShadowkeepPassState,
    pub evidence: Seq<char>,
}

impl View for ShadowkeepPassRecord {
    type V = PassView;

    open spec fn view(&self) -> PassView {
        PassView { name: self.name@, state: self.state, evidence: self.evidence@ }
    }
}

/// Global lighting runs where its pipeline is there.
pub open spec fn global_lighting_state(available: bool) -> ShadowkeepPassState {
    if available {
        ShadowkeepPassState::Ready
    } else {
        ShadowkeepPassState::DisabledAsAbsent
    }
}

/// The passes of the frame in order.
pub open spec fn pass_ledger(global_lighting_available: bool) -> Seq<PassView> {
    seq![
        PassView {
            name: "opaque / G-buffer"@,
            state: ShadowkeepPassState::Ready,
            evidence: "Shadowkeep static, terrain, and rigid submissions produce non-empty depth and material targets"@,
        },
        PassView {
            name: "local diffuse / specular lighting"@,
            state: ShadowkeepPassState::Ready,
            evidence: "local-light volume draws produce non-zero diffuse and specular MRT captures"@,
        },
        PassView {
            name: "cubemap specular IBL"@,
            state: ShadowkeepPassState::Ready,
            evidence: "authored cubemap volumes populate light_specular_ibl before deferred shading"@,
        },
        PassView {
            name: "deferred shading"@,
            state: ShadowkeepPassState::Ready,
            evidence: "deferred_shading_no_atm consumes local and cubemap lighting into shading_result"@,
        },
        PassView {
            name: "global directional lighting"@,
            state: global_lighting_state(global_lighting_available),
            evidence: "the legacy global-lighting pass is connected and enabled by default for Shadowkeep"@,
        },
        PassView {
            name: "cascaded directional shadows"@,
            state: ShadowkeepPassState::Ready,
            evidence: "sun cascades produce a screen-space mask consumed through ShadowMask.unk00"@,
        },
        PassView {
            name: "authentic atmosphere lookup and sky"@,
            state: ShadowkeepPassState::Ready,
            evidence: "package-authored atmosphere inputs populate both lookup targets; the preserved atmosphere-aware deferred and sky techniques produce finite output"@,
        },
        PassView {
            name: "procedural solar fallback"@,
            state: ShadowkeepPassState::Degraded,
            evidence: "the synthetic scene-clock solar path remains explicit because the admitted target maps contain no decodable authored sun-angle track"@,
        },
        PassView {
            name: "direct presentation"@,
            state: ShadowkeepPassState::Ready,
            evidence: "the authentic sky is composited only into clear-depth pixels before shading_result is copied to the sRGB output target"@,
        },
        PassView {
            name: "transparent / decal / water / volumetrics"@,
            state: ShadowkeepPassState::DisabledAsAbsent,
            evidence: "not admitted until an era-specific producer and pass-order capture is available"@,
        },
    ]
}

/// The passes of the frame, given whether global lighting can run.
pub fn pass_status_ledger_with_global_lighting(global_lighting_available: bool) -> (records: Vec<
    ShadowkeepPassRecord,
>)
    ensures
        views(records@) == pass_ledger(global_lighting_available),
{
    let global_lighting_state = if global_lighting_available {
        ShadowkeepPassState::Ready
    } else {
        ShadowkeepPassState::DisabledAsAbsent
    };
    let mut records: Vec<ShadowkeepPassRecord> = Vec::new();
    records.push(
        ShadowkeepPassRecord {
            name: "opaque / G-buffer",
            state: ShadowkeepPassState::Ready,
            evidence: "Shadowkeep static, terrain, and rigid submissions produce non-empty depth and material targets",
        },
    );
    records.push(
        ShadowkeepPassRecord {
            name: "local diffuse / specular lighting",
            state: ShadowkeepPassState::Ready,
            evidence: "local-light volume draws produce non-zero diffuse and specular MRT captures",
        },
    );
    records.push(
        ShadowkeepPassRecord {
            name: "cubemap specular IBL",
            state: ShadowkeepPassState::Ready,
            evidence: "authored cubemap volumes populate light_specular_ibl before deferred shading",
        },
    );
    records.push(
        ShadowkeepPassRecord {
            name: "deferred shading",
            state: ShadowkeepPassState::Ready,
            evidence: "deferred_shading_no_atm consumes local and cubemap lighting into shading_result",
        },
    );
    records.push(
        ShadowkeepPassRecord {
            name: "global directional lighting",
            state: global_lighting_state,
            evidence: "the legacy global-lighting pass is connected and enabled by default for Shadowkeep",
        },
    );
    records.push(
        ShadowkeepPassRecord {
            name: "cascaded directional shadows",
            state: ShadowkeepPassState::Ready,
            evidence: "sun cascades produce a screen-space mask consumed through ShadowMask.unk00",
        },
    );
    records.push(
        ShadowkeepPassRecord {
            name: "authentic atmosphere lookup and sky",
            state: ShadowkeepPassState::Ready,
            evidence: "package-authored atmosphere inputs populate both lookup targets; the preserved atmosphere-aware deferred and sky techniques produce finite output",
        },
    );
    records.push(
        ShadowkeepPassRecord {
            name: "procedural solar fallback",
            state: ShadowkeepPassState::Degraded,
            evidence: "the synthetic scene-clock solar path remains explicit because the admitted target maps contain no decodable authored sun-angle track",
        },
    );
    records.push(
        ShadowkeepPassRecord {
            name: "direct presentation",
            state: ShadowkeepPassState::Ready,
            evidence: "the authentic sky is composited only into clear-depth pixels before shading_result is copied to the sRGB output target",
        },
    );
    records.push(
        ShadowkeepPassRecord {
            name: "transparent / decal / water / volumetrics",
            state: ShadowkeepPassState::DisabledAsAbsent,
            evidence: "not admitted until an era-specific producer and pass-order capture is available",
        },
    );
    assert(views(records@) =~= pass_ledger(global_lighting_available));
    records
}

/// The passes of the frame, given the pipelines of a package.
pub fn pass_status_ledger(pipelines: &GlobalPipelines) -> (records: Vec<ShadowkeepPassRecord>)
    requires
        pipelines.wf(),
    ensures
        views(records@) == pass_ledger(pipelines.slot(Pipeline::GlobalLighting).0 is Some),
{
    pass_status_ledger_with_global_lighting(
        pipelines.get(Pipeline::GlobalLighting).is_available(),
    )
}

/// Why a draw was skipped.
#[derive(Clone, Copy, Debug, PartialEq, Eq, PartialOrd, Ord, Structural)]
pub enum SkipReason {
    MissingAsset,
    UnsupportedTechnique,
    InvalidInput,
    NotVisible,
}

/// What was decided of a pass.
#[derive(Debug)]
pub enum PassDecision {
    Scheduled,
    Skipped(SkipReason),
    Blocked(String),
}

/// Measurements of a pass's output, as single-precision patterns.
#[derive(Clone, Copy, Debug, PartialEq, Eq, Structural)]
pub struct OutputMetrics {
    pub depth_coverage: u32,
    pub albedo_variance: u32,
    pub material_entropy: u32,
    pub final_luminance_p95: u32,
    pub non_finite_count: u64,
}

/// The pattern of 0.001.
pub const THOUSANDTH: u32 = 0x3a83_126f;

/// The pattern of 0.0001.
pub const TEN_THOUSANDTH: u32 = 0x38d1_b717;

/// The pattern of 0.01.
pub const HUNDREDTH: u32 = 0x3c23_d70a;

/// A finite value of at least the given positive one.
pub open spec fn reaches(bits: u32, least: u32) -> bool {
    is_finite(bits) && order_key(bits) >= least
}

fn reached(bits: u32, least: u32) -> (result: bool)
    ensures
        result == reaches(bits, least),
{
    finite(bits) && key_of(bits) >= least as i64
}

impl OutputMetrics {
    /// The output is finite, covered, varied and lit.
    pub open spec fn is_sound(self) -> bool {
        &&& self.non_finite_count == 0
        &&& reaches(self.depth_coverage, THOUSANDTH)
        &&& reaches(self.albedo_variance, TEN_THOUSANDTH)
        &&& reaches(self.material_entropy, HUNDREDTH)
        &&& reaches(self.final_luminance_p95, THOUSANDTH)
    }

    pub fn passes_invariants(&self) -> (result: bool)
        ensures
            result == self.is_sound(),
    {
        self.non_finite_count == 0 && reached(self.depth_coverage, THOUSANDTH) && reached(
            self.albedo_variance,
            TEN_THOUSANDTH,
        ) && reached(self.material_entropy, HUNDREDTH) && reached(
            self.final_luminance_p95,
            THOUSANDTH,
        )
    }
}

/// How many draws were skipped for a reason.
#[derive(Clone, Copy, Debug, PartialEq, Eq, Structural)]
pub struct SkippedDraws {
    pub reason: SkipReason,
    pub count: u32,
}

/// What was observed of a pass.
#[derive(Debug)]
pub struct PassObservation {
    pub capability: CapabilityId,
    pub decision: PassDecision,
    pub draws_requested: u32,
    pub draws_submitted: u32,
    pub draws_skipped: Vec<SkippedDraws>,
    pub gpu_completed: bool,
    pub output_metrics: Option<OutputMetrics>,
    pub evidence_frame: u64,
}

/// The state of a capability after a pass was observed.
#[derive(Clone, Copy, Debug, PartialEq, Eq, Structural)]
pub enum CapabilityState {
    Ready,
    Degraded,
    Unavailable,
    Failed,
    NotExercised,
}

impl PassObservation {
    /// The pass ran: draws were submitted, completed and gave a sound output.
    pub open spec fn has_run(self) -> bool {
        &&& self.draws_submitted > 0
        &&& self.gpu_completed
        &&& self.output_metrics matches Some(metrics) && metrics.is_sound()
    }

    /// The state that the observation shows.
    pub open spec fn shown_state(self, support: SupportView) -> CapabilityState {
        match support {
            SupportView::Unsupported(_) => CapabilityState::Unavailable,
            SupportView::Degraded(_) => CapabilityState::Degraded,
            SupportView::Supported => match self.decision {
                PassDecision::Skipped(_) => CapabilityState::NotExercised,
                PassDecision::Blocked(_) => CapabilityState::Failed,
                PassDecision::Scheduled => if self.draws_requested == 0 && self.draws_submitted
                    == 0 {
                    CapabilityState::NotExercised
                } else if self.has_run() {
                    CapabilityState::Ready
                } else {
                    CapabilityState::Failed
                },
            },
        }
    }

    pub fn state(&self, support: &CapabilitySupport) -> (state: CapabilityState)
        ensures
            state == self.shown_state(support@),
    {
        match support {
            CapabilitySupport::Unsupported { .. } => CapabilityState::Unavailable,
            CapabilitySupport::Degraded { .. } => CapabilityState::Degraded,
            CapabilitySupport::Supported => match &self.decision {
                PassDecision::Skipped(_) => CapabilityState::NotExercised,
                PassDecision::Blocked(_) => CapabilityState::Failed,
                PassDecision::Scheduled => {
                    if self.draws_requested == 0 && self.draws_submitted == 0 {
                        return CapabilityState::NotExercised;
                    }
                    let sound: bool = match &self.output_metrics {
                        Some(metrics) => metrics.passes_invariants(),
                        None => false,
                    };
                    if self.draws_submitted == 0 || !self.gpu_completed || !sound {
                        CapabilityState::Failed
                    } else {
                        CapabilityState::Ready
                    }
                },
            },
        }
    }
}

/// A capability is ready only on evidence: it is supported, its pass was
/// scheduled, and draws were submitted, completed and gave a sound output.
pub proof fn law_readiness_needs_evidence(observation: PassObservation, support: SupportView)
    ensures
        observation.shown_state(support) == CapabilityState::Ready <==> support is Supported
            && observation.decision is Scheduled && observation.has_run(),
{
}

/// The version of the report's layout.
pub const GRAPHICS_REPORT_SCHEMA_VERSION: u32 = 1;

/// What a run showed of the renderer.
#[derive(Debug)]
pub struct GraphicsReport {
    pub schema_version: u32,
    pub build: String,
    pub corpus_fingerprint: String,
    pub map: String,
    pub observations: Vec<PassObservation>,
}

impl GraphicsReport {
    pub fn new(
        build: String,
        corpus_fingerprint: String,
        map: String,
        observations: Vec<PassObservation>,
    ) -> (report: GraphicsReport)
        ensures
            report == (GraphicsReport {
                schema_version: GRAPHICS_REPORT_SCHEMA_VERSION,
                build,
                corpus_fingerprint,
                map,
                observations,
            }),
    {
        GraphicsReport {
            schema_version: GRAPHICS_REPORT_SCHEMA_VERSION,
            build,
            corpus_fingerprint,
            map,
            observations,
        }
    }
}

/// Each capability is shown and reported under these names.
pub proof fn law_capabilities_are_named()
    ensures
        CapabilityId::Bootstrap.label() == "Shadowkeep bootstrap and input layouts"@,
        CapabilityId::Tfx.label() == "TFX scopes, techniques, and positional channels"@,
        CapabilityId::CoreGeometry.label() == "Core geometry submission"@,
        CapabilityId::LocalLighting.label() == "Local lighting and deferred shading"@,
        CapabilityId::Presentation.label() == "Direct presentation"@,
        CapabilityId::CubemapIbl.label() == "Cubemap specular IBL"@,
        CapabilityId::GlobalLighting.label() == "Global directional lighting and cascaded sun shadows"@,
        CapabilityId::Atmosphere.label() == "Package atmosphere lookup/background"@,
        CapabilityId::SkyObjects.label() == "Map-authored sky-object models"@,
        CapabilityId::SkyEnvironment.label() == "Phase-specific sky-object environment selection"@,
        CapabilityId::LightShaftOcclusion.label() == "Sky-object LightShaftOcclusion"@,
        CapabilityId::MaterialAo.label() == "Shadowkeep material AO compatibility finalizer"@,
        CapabilityId::Solar.label() == "Shadowkeep solar path"@,
        CapabilityId::Transparent.label() == "General transparent/additive geometry"@,
        CapabilityId::DecalWaterVolumetrics.label() == "Authored decals, water, and volumetrics"@,
        CapabilityId::ActivityLayers.label() == "Activity and ambient scene layers"@,
        CapabilityId::Bootstrap.report_name() == "bootstrap"@,
        CapabilityId::Tfx.report_name() == "tfx"@,
        CapabilityId::CoreGeometry.report_name() == "core_geometry"@,
        CapabilityId::LocalLighting.report_name() == "local_lighting"@,
        CapabilityId::Presentation.report_name() == "presentation"@,
        CapabilityId::CubemapIbl.report_name() == "cubemap_ibl"@,
        CapabilityId::GlobalLighting.report_name() == "global_lighting"@,
        CapabilityId::Atmosphere.report_name() == "atmosphere"@,
        CapabilityId::SkyObjects.report_name() == "sky_objects"@,
        CapabilityId::SkyEnvironment.report_name() == "sky_environment"@,
        CapabilityId::LightShaftOcclusion.report_name() == "light_shaft_occlusion"@,
        CapabilityId::MaterialAo.report_name() == "material_ao"@,
        CapabilityId::Solar.report_name() == "solar"@,
        CapabilityId::Transparent.report_name() == "transparent"@,
        CapabilityId::DecalWaterVolumetrics.report_name() == "decal_water_volumetrics"@,
        CapabilityId::ActivityLayers.report_name() == "activity_layers"@,
{
}

/// Light shafts, general transparents and the group of decals, water and volumetrics are not
/// supported. The environment of the sky, the sun and the layers of activities are supported in
/// part, and everything else in full.
pub proof fn law_capabilities_are_supported_as_listed(id: CapabilityId)
    ensures
        ({
            let support = capability_ledger()[ledger_place(id)].support;
            let missing = id == CapabilityId::LightShaftOcclusion || id == CapabilityId::Transparent
                || id == CapabilityId::DecalWaterVolumetrics;
            let partial = id == CapabilityId::SkyEnvironment || id == CapabilityId::Solar || id
                == CapabilityId::ActivityLayers;
            &&& support is Unsupported <==> missing
            &&& support is Degraded <==> partial
            &&& support is Supported <==> !missing && !partial
        }),
{
}

/// What a pass is shown as follows from its support first, and then from what was decided and
/// what was seen of it.
pub proof fn law_passes_are_shown_as_observed(observation: PassObservation, support: SupportView)
    ensures
        support is Unsupported ==> observation.shown_state(support) == CapabilityState::Unavailable,
        support is Degraded ==> observation.shown_state(support) == CapabilityState::Degraded,
        support is Supported && observation.decision is Skipped ==> observation.shown_state(support)
            == CapabilityState::NotExercised,
        support is Supported && observation.decision is Blocked ==> observation.shown_state(support)
            == CapabilityState::Failed,
        support is Supported && observation.decision is Scheduled && observation.draws_requested
            == 0 && observation.draws_submitted == 0 ==> observation.shown_state(support)
            == CapabilityState::NotExercised,
        support is Supported && observation.decision is Scheduled && observation.draws_submitted
            == 0 && observation.draws_requested > 0 ==> observation.shown_state(support)
            == CapabilityState::Failed,
        support is Supported && observation.decision is Scheduled && observation.draws_submitted
            > 0 && !observation.gpu_completed ==> observation.shown_state(support)
            == CapabilityState::Failed,
        support is Supported && observation.decision is Scheduled && observation.draws_submitted
            > 0 && observation.output_metrics is None ==> observation.shown_state(support)
            == CapabilityState::Failed,
{
}

/// Every pass of the preserved renderer is ready, but for the solar fallback, which is degraded,
/// for the global lighting where its pipeline is absent, and for the passes that are not
/// connected.
pub proof fn law_passes_are_listed_with_their_state(available: bool)
    ensures
        ({
            let ledger = pass_ledger(available);
            &&& ledger.len() == 10
            &&& ledger[0].name == "opaque / G-buffer"@
            &&& ledger[1].name == "local diffuse / specular lighting"@
            &&& ledger[2].name == "cubemap specular IBL"@
            &&& ledger[3].name == "deferred shading"@
            &&& ledger[4].name == "global directional lighting"@
            &&& ledger[5].name == "cascaded directional shadows"@
            &&& ledger[6].name == "authentic atmosphere lookup and sky"@
            &&& ledger[7].name == "procedural solar fallback"@
            &&& ledger[8].name == "direct presentation"@
            &&& ledger[9].name == "transparent / decal / water / volumetrics"@
            &&& forall|i: int|
                0 <= i < 10 && i != 4 && i != 7 && i != 9 ==> (#[trigger] ledger[i]).state
                    == ShadowkeepPassState::Ready
            &&& available ==> ledger[4].state == ShadowkeepPassState::Ready
            &&& !available ==> ledger[4].state == ShadowkeepPassState::DisabledAsAbsent
            &&& ledger[7].state == ShadowkeepPassState::Degraded
            &&& ledger[9].state == ShadowkeepPassState::DisabledAsAbsent
        }),
{
}

/// A sound output has no value that is not finite, and its depth, its albedo, its materials and
/// its brightness reach these single-precision patterns.
pub proof fn law_sound_outputs_reach_their_floors(metrics: OutputMetrics)
    ensures
        metrics.is_sound() <==> {
            &&& metrics.non_finite_count == 0
            &&& is_finite(metrics.depth_coverage) && order_key(metrics.depth_coverage)
                >= 0x3a83_126f
            &&& is_finite(metrics.albedo_variance) && order_key(metrics.albedo_variance)
                >= 0x38d1_b717
            &&& is_finite(metrics.material_entropy) && order_key(metrics.material_entropy)
                >= 0x3c23_d70a
            &&& is_finite(metrics.final_luminance_p95) && order_key(metrics.final_luminance_p95)
                >= 0x3a83_126f
        },
{
}

} // verus!
