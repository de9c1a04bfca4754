//! What is written down about a captured frame: its techniques, its inputs and its settings.

use vstd::prelude::*;

use crate::channels::Vec4Bits;
use crate::dependency::{channel_values, GlobalLightingChannelValue, StageProgram};
use crate::manager::AssetDiagnosticSummary;
use crate::order::{lemma_is_listing, lists, listing_of};
use crate::reads::{operand_listing, operands_of, Opcode};
use crate::steps::CaptureSet;
use crate::tag::{tag_label, tag_text};
use crate::text::views;

verus! {

/// What is known of the technique that shaded a frame.
#[derive(Debug)]
pub struct DeferredShadingProvenance {
    pub technique: String,
    pub vertex_shader: Option<String>,
    pub pixel_shader: Option<String>,
    pub draw_6_reached: bool,
    pub vertex_expression: Option<String>,
    pub pixel_expression: Option<String>,
    pub vertex_constant_buffer_slot: Option<u32>,
    pub vertex_constant_buffer_len: Option<usize>,
    pub pixel_constant_buffer_slot: Option<u32>,
    pub pixel_constant_buffer_len: Option<usize>,
    pub bound_deferred_srvs: Vec<String>,
    pub output_rtv_format: String,
}

/// What is known of the technique that combined a frame.
#[derive(Debug)]
pub struct FinalCombineProvenance {
    pub technique: String,
    pub vertex_shader: Option<String>,
    pub pixel_shader: Option<String>,
    pub draw_6_reached: bool,
    pub vertex_expression: Option<String>,
    pub pixel_expression: Option<String>,
    pub vertex_constant_buffer_slot: Option<u32>,
    pub vertex_constant_buffer_len: Option<usize>,
    pub pixel_constant_buffer_slot: Option<u32>,
    pub pixel_constant_buffer_len: Option<usize>,
    pub bound_input_srv: String,
    pub output_rtv_format: String,
}

/// What is known of the lighting of a frame.
#[derive(Debug)]
pub struct ShadowkeepLightingProvenance {
    pub requested_feature_subscriptions: String,
    pub active_feature_subscriptions: String,
    pub render_settings: String,
    pub assets_ready: usize,
    pub assets_queued: usize,
    pub assets_loading: usize,
    pub assets_failed: usize,
    pub assets_using_fallback: usize,
    pub lighting_apply_stage_submitted: bool,
    pub deferred_light_draw_indexed_calls: usize,
    pub local_light_technique_hashes: Vec<String>,
}

/// The facts of a stage that a record keeps.
#[derive(Debug)]
pub struct StageRecord {
    pub shader: Option<String>,
    pub expression: Option<String>,
    pub constant_buffer_slot: Option<u32>,
    pub constant_buffer_len: Option<usize>,
}

pub open spec fn optional_text(text: Option<String>) -> Option<Seq<char>> {
    match text {
        None => None,
        Some(text) => Some(text@),
    }
}

impl StageRecord {
    /// The record holds the facts of the stage, or none where there is no stage.
    pub open spec fn describes(self, stage: Option<&StageProgram>) -> bool {
        match stage {
            None => self.shader is None && self.expression is None && self.constant_buffer_slot
                is None && self.constant_buffer_len is None,
            Some(stage) => {
                &&& optional_text(self.shader) == Some(tag_label(stage.shader))
                &&& optional_text(self.expression) == Some(stage.evaluation@)
                &&& self.constant_buffer_slot == Some(stage.constant_buffer_slot)
                &&& self.constant_buffer_len == Some(stage.constant_buffer_len)
            },
        }
    }

    fn of(stage: Option<&StageProgram>) -> (record: StageRecord)
        ensures
            record.describes(stage),
    {
        match stage {
            None => StageRecord {
                shader: None,
                expression: None,
                constant_buffer_slot: None,
                constant_buffer_len: None,
            },
            Some(stage) => StageRecord {
                shader: Some(tag_text(stage.shader)),
                expression: Some(stage.evaluation.clone()),
                constant_buffer_slot: Some(stage.constant_buffer_slot),
                constant_buffer_len: Some(stage.constant_buffer_len),
            },
        }
    }
}

impl DeferredShadingProvenance {
    pub open spec fn vertex(self) -> StageRecord {
        StageRecord {
            shader: self.vertex_shader,
            expression: self.vertex_expression,
            constant_buffer_slot: self.vertex_constant_buffer_slot,
            constant_buffer_len: self.vertex_constant_buffer_len,
        }
    }

    pub open spec fn pixel(self) -> StageRecord {
        StageRecord {
            shader: self.pixel_shader,
            expression: self.pixel_expression,
            constant_buffer_slot: self.pixel_constant_buffer_slot,
            constant_buffer_len: self.pixel_constant_buffer_len,
        }
    }
}

impl FinalCombineProvenance {
    pub open spec fn vertex(self) -> StageRecord {
        StageRecord {
            shader: self.vertex_shader,
            expression: self.vertex_expression,
            constant_buffer_slot: self.vertex_constant_buffer_slot,
            constant_buffer_len: self.vertex_constant_buffer_len,
        }
    }

    pub open spec fn pixel(self) -> StageRecord {
        StageRecord {
            shader: self.pixel_shader,
            expression: self.pixel_expression,
            constant_buffer_slot: self.pixel_constant_buffer_slot,
            constant_buffer_len: self.pixel_constant_buffer_len,
        }
    }
}

/// The names of the surfaces that shading reads.
#[derive(Debug)]
pub struct DeferredSurfaces {
    pub depth: String,
    pub albedo: String,
    pub normal: String,
    pub third: String,
    pub light_diffuse: String,
    pub light_specular: String,
    pub light_specular_ibl: String,
}

impl DeferredSurfaces {
    /// What is bound to each input of shading.
    pub open spec fn bindings(self) -> Seq<Seq<char>> {
        seq![
            "deferred_depth -> "@ + self.depth@ + " proxy"@,
            "deferred_rt0 -> "@ + self.albedo@,
            "deferred_rt1 -> "@ + self.normal@,
            "deferred_rt2 -> "@ + self.third@,
            "light_diffuse -> "@ + self.light_diffuse@,
            "light_specular -> "@ + self.light_specular@,
            "light_specular_ibl -> "@ + self.light_specular_ibl@,
        ]
    }
}

fn binding(input: &str, surface: &str) -> (text: String)
    ensures
        text@ == input@ + surface@,
{
    let mut text = String::from_str(input);
    text.append(surface);
    text
}

fn deferred_bindings(surfaces: &DeferredSurfaces) -> (bindings: Vec<String>)
    ensures
        views(bindings@) == surfaces.bindings(),
{
    let mut depth = binding("deferred_depth -> ", surfaces.depth.as_str());
    depth.append(" proxy");
    let bindings: Vec<String> = vec![
        depth,
        binding("deferred_rt0 -> ", surfaces.albedo.as_str()),
        binding("deferred_rt1 -> ", surfaces.normal.as_str()),
        binding("deferred_rt2 -> ", surfaces.third.as_str()),
        binding("light_diffuse -> ", surfaces.light_diffuse.as_str()),
        binding("light_specular -> ", surfaces.light_specular.as_str()),
        binding("light_specular_ibl -> ", surfaces.light_specular_ibl.as_str()),
    ];
    assert(views(bindings@) =~= surfaces.bindings());
    bindings
}

/// Records the technique that shaded a frame.
pub fn shadowkeep_deferred_provenance(
    technique: u32,
    vertex: Option<&StageProgram>,
    pixel: Option<&StageProgram>,
    draw_6_reached: bool,
    surfaces: &DeferredSurfaces,
    output_format: &str,
) -> (record: DeferredShadingProvenance)
    ensures
        record.technique@ == tag_label(technique),
        record.vertex().describes(vertex),
        record.pixel().describes(pixel),
        record.draw_6_reached == draw_6_reached,
        views(record.bound_deferred_srvs@) == surfaces.bindings(),
        record.output_rtv_format@ == output_format@,
{
    let vertex_record = StageRecord::of(vertex);
    let pixel_record = StageRecord::of(pixel);
    DeferredShadingProvenance {
        technique: tag_text(technique),
        vertex_shader: vertex_record.shader,
        pixel_shader: pixel_record.shader,
        draw_6_reached,
        vertex_expression: vertex_record.expression,
        pixel_expression: pixel_record.expression,
        vertex_constant_buffer_slot: vertex_record.constant_buffer_slot,
        vertex_constant_buffer_len: vertex_record.constant_buffer_len,
        pixel_constant_buffer_slot: pixel_record.constant_buffer_slot,
        pixel_constant_buffer_len: pixel_record.constant_buffer_len,
        bound_deferred_srvs: deferred_bindings(surfaces),
        output_rtv_format: String::from_str(output_format),
    }
}

/// Records the technique that combined a frame.
pub fn shadowkeep_final_combine_provenance(
    technique: u32,
    vertex: Option<&StageProgram>,
    pixel: Option<&StageProgram>,
    draw_6_reached: bool,
    bound_input: &str,
    output_format: &str,
) -> (record: FinalCombineProvenance)
    ensures
        record.technique@ == tag_label(technique),
        record.vertex().describes(vertex),
        record.pixel().describes(pixel),
        record.draw_6_reached == draw_6_reached,
        record.bound_input_srv@ == bound_input@,
        record.output_rtv_format@ == output_format@,
{
    let vertex_record = StageRecord::of(vertex);
    let pixel_record = StageRecord::of(pixel);
    FinalCombineProvenance {
        technique: tag_text(technique),
        vertex_shader: vertex_record.shader,
        pixel_shader: pixel_record.shader,
        draw_6_reached,
        vertex_expression: vertex_record.expression,
        pixel_expression: pixel_record.expression,
        vertex_constant_buffer_slot: vertex_record.constant_buffer_slot,
        vertex_constant_buffer_len: vertex_record.constant_buffer_len,
        pixel_constant_buffer_slot: pixel_record.constant_buffer_slot,
        pixel_constant_buffer_len: pixel_record.constant_buffer_len,
        bound_input_srv: String::from_str(bound_input),
        output_rtv_format: String::from_str(output_format),
    }
}

/// The settings of a view as texts.
#[derive(Debug)]
pub struct RenderSettings {
    pub exposure_scale: String,
    pub exposure_illum_relative: String,
    pub vertex_ao: String,
    pub bloom: String,
    pub volumetrics: String,
    pub shadows: String,
    pub autoexposure: String,
    pub sun_shadows: String,
    pub anti_aliasing: String,
    pub multithreading: String,
    pub hzb_culling: String,
}

impl RenderSettings {
    /// All settings in one line.
    pub open spec fn line(self) -> Seq<char> {
        "exposure_scale="@ + self.exposure_scale@
            + ", exposure_illum_relative="@ + self.exposure_illum_relative@
            + ", vertex_ao="@ + self.vertex_ao@
            + ", bloom="@ + self.bloom@
            + ", volumetrics="@ + self.volumetrics@
            + ", shadows="@ + self.shadows@
            + ", autoexposure="@ + self.autoexposure@
            + ", sun_shadows="@ + self.sun_shadows@
            + ", anti_aliasing="@ + self.anti_aliasing@
            + ", multithreading="@ + self.multithreading@
            + ", hzb_culling="@ + self.hzb_culling@
    }

    pub fn summary(&self) -> (text: String)
        ensures
            text@ == self.line(),
    {
        let mut text = String::from_str("exposure_scale=");
        text.append(self.exposure_scale.as_str());
        text.append(", exposure_illum_relative=");
        text.append(self.exposure_illum_relative.as_str());
        text.append(", vertex_ao=");
        text.append(self.vertex_ao.as_str());
        text.append(", bloom=");
        text.append(self.bloom.as_str());
        text.append(", volumetrics=");
        text.append(self.volumetrics.as_str());
        text.append(", shadows=");
        text.append(self.shadows.as_str());
        text.append(", autoexposure=");
        text.append(self.autoexposure.as_str());
        text.append(", sun_shadows=");
        text.append(self.sun_shadows.as_str());
        text.append(", anti_aliasing=");
        text.append(self.anti_aliasing.as_str());
        text.append(", multithreading=");
        text.append(self.multithreading.as_str());
        text.append(", hzb_culling=");
        text.append(self.hzb_culling.as_str());
        text
    }
}

/// Records the lighting of a frame.
pub fn shadowkeep_lighting_provenance(
    requested_features: &str,
    active_features: &str,
    settings: &RenderSettings,
    assets: &AssetDiagnosticSummary,
    draw_calls: usize,
    technique_hashes: Vec<String>,
) -> (record: ShadowkeepLightingProvenance)
    ensures
        record.requested_feature_subscriptions@ == requested_features@,
        record.active_feature_subscriptions@ == active_features@,
        record.render_settings@ == settings.line(),
        record.assets_ready == assets.ready,
        record.assets_queued == assets.queued,
        record.assets_loading == assets.loading,
        record.assets_failed == assets.failed,
        record.assets_using_fallback == assets.fallback,
        record.lighting_apply_stage_submitted,
        record.deferred_light_draw_indexed_calls == draw_calls,
        record.local_light_technique_hashes@ == technique_hashes@,
{
    ShadowkeepLightingProvenance {
        requested_feature_subscriptions: String::from_str(requested_features),
        active_feature_subscriptions: String::from_str(active_features),
        render_settings: settings.summary(),
        assets_ready: assets.ready,
        assets_queued: assets.queued,
        assets_loading: assets.loading,
        assets_failed: assets.failed,
        assets_using_fallback: assets.fallback,
        lighting_apply_stage_submitted: true,
        deferred_light_draw_indexed_calls: draw_calls,
        local_light_technique_hashes: technique_hashes,
    }
}

/// The channels that the programs of all stages read, in program order.
pub open spec fn channels_of_stages(stages: Seq<StageProgram>) -> Seq<usize>
    decreases stages.len(),
{
    if stages.len() == 0 {
        seq![]
    } else {
        operands_of(stages.last().program@, Opcode::PushGlobalChannelVector, 256)
            + channels_of_stages(stages.drop_last())
    }
}

proof fn lemma_lists_after_listing(
    listing: Seq<usize>,
    first: Seq<usize>,
    before: Seq<usize>,
    rest: Seq<usize>,
)
    requires
        lists(before, rest),
        lists(listing, first + before),
    ensures
        lists(listing, first + rest),
{
    assert forall|x: usize| listing.contains(x) <==> (first + rest).contains(x) by {
        lemma_contains_in_either(first, before, x);
        lemma_contains_in_either(first, rest, x);
    }
}

proof fn lemma_contains_in_either(a: Seq<usize>, b: Seq<usize>, x: usize)
    ensures
        (a + b).contains(x) <==> a.contains(x) || b.contains(x),
{
    let both = a + b;
    if a.contains(x) {
        let k = choose|k: int| 0 <= k < a.len() && a[k] == x;
        assert(both[k] == x);
    }
    if b.contains(x) {
        let k = choose|k: int| 0 <= k < b.len() && b[k] == x;
        assert(both[a.len() + k] == x);
    }
    if both.contains(x) {
        let k = choose|k: int| 0 <= k < both.len() && both[k] == x;
        if k < a.len() {
            assert(a[k] == x);
        } else {
            assert(b[k - a.len()] == x);
        }
    }
}

fn channel_list(indices: &Vec<usize>, globals: &[Vec4Bits]) -> (values: Vec<GlobalLightingChannelValue>)
    ensures
        values@ == channel_values(indices@, globals@),
{
    let mut values: Vec<GlobalLightingChannelValue> = Vec::new();
    let mut i: usize = 0;
    while i < indices.len()
        invariant
            i <= indices@.len(),
            values@ == channel_values(indices@.take(i as int), globals@),
        decreases indices@.len() - i,
    {
        let index: usize = indices[i];
        assert(indices@.take(i + 1).drop_last() =~= indices@.take(i as int));
        if index < globals.len() {
            #[verifier::truncate]
            let number: u8 = index as u8;
            values.push(GlobalLightingChannelValue { index: number, value: globals[index] });
        }
        i = i + 1;
    }
    assert(indices@.take(indices@.len() as int) =~= indices@);
    values
}

/// The values of the channels that the stages of a technique read, each channel once, in
/// ascending order.
pub fn shadowkeep_global_lighting_channel_values(
    stages: &[StageProgram],
    globals: &[Vec4Bits],
) -> (values: Vec<GlobalLightingChannelValue>)
    ensures
        values@ == channel_values(listing_of(channels_of_stages(stages@)), globals@),
{
    let mut listing: Vec<usize> = Vec::new();
    let mut i: usize = 0;
    while i < stages.len()
        invariant
            i <= stages@.len(),
            lists(listing@, channels_of_stages(stages@.take(i as int))),
        decreases stages@.len() - i,
    {
        let next = operand_listing(
            stages[i].program.as_slice(),
            Opcode::PushGlobalChannelVector,
            256,
            listing.as_slice(),
        );
        proof {
            assert(stages@.take(i + 1).drop_last() =~= stages@.take(i as int));
            lemma_lists_after_listing(
                next@,
                operands_of(stages@[i as int].program@, Opcode::PushGlobalChannelVector, 256),
                listing@,
                channels_of_stages(stages@.take(i as int)),
            );
        }
        listing = next;
        i = i + 1;
    }
    proof {
        assert(stages@.take(stages@.len() as int) =~= stages@);
        lemma_is_listing(listing@, channels_of_stages(stages@));
    }
    channel_list(&listing, globals)
}

/// The inputs of the global-lighting technique, as single-precision patterns.
#[derive(Clone, Copy, Debug, PartialEq, Eq, Structural)]
pub struct GlobalLightingInputs {
    pub unk10: Vec4Bits,
    pub unk30: Vec4Bits,
    pub unk50: Vec4Bits,
    pub unk70: Vec4Bits,
    pub unk80: Vec4Bits,
    pub unk90: u32,
    pub unk94: u32,
    pub unk98: u32,
    pub unk9c: u32,
    pub unka0: u32,
    pub unkb0: Vec4Bits,
    pub unkc0: Vec4Bits,
    pub unkd0: Vec4Bits,
}

/// An input by its byte offset.
#[derive(Clone, Copy, Debug, PartialEq, Eq, Structural)]
pub struct GlobalLightingExternValue {
    pub byte_offset: u32,
    pub value: Vec4Bits,
}

impl GlobalLightingInputs {
    pub open spec fn values(self) -> Seq<GlobalLightingExternValue> {
        seq![
            GlobalLightingExternValue { byte_offset: 0x10, value: self.unk10 },
            GlobalLightingExternValue { byte_offset: 0x30, value: self.unk30 },
            GlobalLightingExternValue { byte_offset: 0x50, value: self.unk50 },
            GlobalLightingExternValue { byte_offset: 0x70, value: self.unk70 },
            GlobalLightingExternValue { byte_offset: 0x80, value: self.unk80 },
            GlobalLightingExternValue { byte_offset: 0x90, value: scalar_bits(self.unk90) },
            GlobalLightingExternValue { byte_offset: 0x94, value: scalar_bits(self.unk94) },
            GlobalLightingExternValue { byte_offset: 0x98, value: scalar_bits(self.unk98) },
            GlobalLightingExternValue { byte_offset: 0x9C, value: scalar_bits(self.unk9c) },
            GlobalLightingExternValue { byte_offset: 0xA0, value: scalar_bits(self.unka0) },
            GlobalLightingExternValue { byte_offset: 0xB0, value: self.unkb0 },
            GlobalLightingExternValue { byte_offset: 0xC0, value: self.unkc0 },
            GlobalLightingExternValue { byte_offset: 0xD0, value: self.unkd0 },
        ]
    }

    /// The inputs with their byte offsets.
    pub fn listing(&self) -> (values: Vec<GlobalLightingExternValue>)
        ensures
            values@ == self.values(),
    {
        let values: Vec<GlobalLightingExternValue> = vec![
            GlobalLightingExternValue { byte_offset: 0x10, value: self.unk10 },
            GlobalLightingExternValue { byte_offset: 0x30, value: self.unk30 },
            GlobalLightingExternValue { byte_offset: 0x50, value: self.unk50 },
            GlobalLightingExternValue { byte_offset: 0x70, value: self.unk70 },
            GlobalLightingExternValue { byte_offset: 0x80, value: self.unk80 },
            GlobalLightingExternValue { byte_offset: 0x90, value: scalar(self.unk90) },
            GlobalLightingExternValue { byte_offset: 0x94, value: scalar(self.unk94) },
            GlobalLightingExternValue { byte_offset: 0x98, value: scalar(self.unk98) },
            GlobalLightingExternValue { byte_offset: 0x9C, value: scalar(self.unk9c) },
            GlobalLightingExternValue { byte_offset: 0xA0, value: scalar(self.unka0) },
            GlobalLightingExternValue { byte_offset: 0xB0, value: self.unkb0 },
            GlobalLightingExternValue { byte_offset: 0xC0, value: self.unkc0 },
            GlobalLightingExternValue { byte_offset: 0xD0, value: self.unkd0 },
        ];
        assert(values@ =~= self.values());
        values
    }
}

/// A scalar in the first lane.
pub open spec fn scalar_bits(bits: u32) -> Vec4Bits {
    Vec4Bits { x: bits, y: 0, z: 0, w: 0 }
}

fn scalar(bits: u32) -> (value: Vec4Bits)
    ensures
        value == scalar_bits(bits),
{
    Vec4Bits { x: bits, y: 0, z: 0, w: 0 }
}

/// An atmosphere input that is read from a global channel, whole or by its first lane.
#[derive(Clone, Copy, Debug, PartialEq, Eq, Structural)]
pub struct AtmosphereChannel {
    pub byte_offset: u32,
    pub channel: u32,
    pub whole: bool,
}

/// The atmosphere inputs that are read from global channels.
pub open spec fn atmosphere_channels() -> Seq<AtmosphereChannel> {
    seq![
        AtmosphereChannel { byte_offset: 0x140, channel: 0x0560_07c7, whole: true },
        AtmosphereChannel { byte_offset: 0x150, channel: 0x4aa1_bef5, whole: false },
        AtmosphereChannel { byte_offset: 0x154, channel: 0x9859_daf1, whole: false },
        AtmosphereChannel { byte_offset: 0x160, channel: 0xf853_533c, whole: false },
        AtmosphereChannel { byte_offset: 0x164, channel: 0xed4b_b08a, whole: false },
        AtmosphereChannel { byte_offset: 0x168, channel: 0x9e76_9ed2, whole: false },
        AtmosphereChannel { byte_offset: 0x16c, channel: 0x49fb_bce1, whole: false },
        AtmosphereChannel { byte_offset: 0x170, channel: 0x94d8_ecdc, whole: false },
        AtmosphereChannel { byte_offset: 0x180, channel: 0x9ec7_a5e8, whole: true },
        AtmosphereChannel { byte_offset: 0x190, channel: 0xb630_810b, whole: false },
        AtmosphereChannel { byte_offset: 0x194, channel: 0x3eea_cb23, whole: false },
        AtmosphereChannel { byte_offset: 0x198, channel: 0x7e92_eb31, whole: false },
        AtmosphereChannel { byte_offset: 0x1b4, channel: 0xe283_fbe0, whole: false },
        AtmosphereChannel { byte_offset: 0x1b8, channel: 0x5f3b_8491, whole: false },
        AtmosphereChannel { byte_offset: 0x1bc, channel: 0x79f2_e305, whole: false },
        AtmosphereChannel { byte_offset: 0x1c0, channel: 0x62e4_542e, whole: false },
        AtmosphereChannel { byte_offset: 0x1c4, channel: 0x9497_68cf, whole: false },
        AtmosphereChannel { byte_offset: 0x1d0, channel: 0xd9a2_d8a3, whole: true },
        AtmosphereChannel { byte_offset: 0x1e0, channel: 0xd828_1393, whole: false },
        AtmosphereChannel { byte_offset: 0x1e4, channel: 0x4da7_3ca7, whole: false },
        AtmosphereChannel { byte_offset: 0x1e8, channel: 0xe685_c537, whole: false },
        AtmosphereChannel { byte_offset: 0x1ec, channel: 0xe4a1_bf60, whole: false },
    ]
}

/// Lists the atmosphere inputs that are read from global channels.
pub fn atmosphere_channel_list() -> (channels: Vec<AtmosphereChannel>)
    ensures
        channels@ == atmosphere_channels(),
{
    let channels: Vec<AtmosphereChannel> = vec![
        AtmosphereChannel { byte_offset: 0x140, channel: 0x0560_07c7, whole: true },
        AtmosphereChannel { byte_offset: 0x150, channel: 0x4aa1_bef5, whole: false },
        AtmosphereChannel { byte_offset: 0x154, channel: 0x9859_daf1, whole: false },
        AtmosphereChannel { byte_offset: 0x160, channel: 0xf853_533c, whole: false },
        AtmosphereChannel { byte_offset: 0x164, channel: 0xed4b_b08a, whole: false },
        AtmosphereChannel { byte_offset: 0x168, channel: 0x9e76_9ed2, whole: false },
        AtmosphereChannel { byte_offset: 0x16c, channel: 0x49fb_bce1, whole: false },
        AtmosphereChannel { byte_offset: 0x170, channel: 0x94d8_ecdc, whole: false },
        AtmosphereChannel { byte_offset: 0x180, channel: 0x9ec7_a5e8, whole: true },
        AtmosphereChannel { byte_offset: 0x190, channel: 0xb630_810b, whole: false },
        AtmosphereChannel { byte_offset: 0x194, channel: 0x3eea_cb23, whole: false },
        AtmosphereChannel { byte_offset: 0x198, channel: 0x7e92_eb31, whole: false },
        AtmosphereChannel { byte_offset: 0x1b4, channel: 0xe283_fbe0, whole: false },
        AtmosphereChannel { byte_offset: 0x1b8, channel: 0x5f3b_8491, whole: false },
        AtmosphereChannel { byte_offset: 0x1bc, channel: 0x79f2_e305, whole: false },
        AtmosphereChannel { byte_offset: 0x1c0, channel: 0x62e4_542e, whole: false },
        AtmosphereChannel { byte_offset: 0x1c4, channel: 0x9497_68cf, whole: false },
        AtmosphereChannel { byte_offset: 0x1d0, channel: 0xd9a2_d8a3, whole: true },
        AtmosphereChannel { byte_offset: 0x1e0, channel: 0xd828_1393, whole: false },
        AtmosphereChannel { byte_offset: 0x1e4, channel: 0x4da7_3ca7, whole: false },
        AtmosphereChannel { byte_offset: 0x1e8, channel: 0xe685_c537, whole: false },
        AtmosphereChannel { byte_offset: 0x1ec, channel: 0xe4a1_bf60, whole: false },
    ];
    assert(channels@ =~= atmosphere_channels());
    channels
}

/// The directory that a set of captures is written to.
pub open spec fn directory_of(set: CaptureSet) -> Seq<char> {
    match set {
        CaptureSet::BufferProvenance => "artifacts/shadowkeep-buffer-provenance"@,
        CaptureSet::BeforeGlobalLighting => {
            "artifacts/shadowkeep-global-lighting-ab/before_global_lighting"@
        },
        CaptureSet::AfterGlobalLighting => {
            "artifacts/shadowkeep-global-lighting-ab/after_global_lighting"@
        },
        CaptureSet::AfterFinalShading => {
            "artifacts/shadowkeep-global-lighting-ab/after_final_shading"@
        },
        CaptureSet::LowExposure => "artifacts/shadowkeep-exposure-ab/exposure-0.05"@,
        CaptureSet::FullExposure => "artifacts/shadowkeep-exposure-ab/exposure-1.0"@,
        CaptureSet::FinalCombine => "artifacts/shadowkeep-final-combine-no-film-curve"@,
    }
}

pub fn capture_directory(set: CaptureSet) -> (directory: &'static str)
    ensures
        directory@ == directory_of(set),
{
    match set {
        CaptureSet::BufferProvenance => "artifacts/shadowkeep-buffer-provenance",
        CaptureSet::BeforeGlobalLighting => {
            "artifacts/shadowkeep-global-lighting-ab/before_global_lighting"
        },
        CaptureSet::AfterGlobalLighting => {
            "artifacts/shadowkeep-global-lighting-ab/after_global_lighting"
        },
        CaptureSet::AfterFinalShading => {
            "artifacts/shadowkeep-global-lighting-ab/after_final_shading"
        },
        CaptureSet::LowExposure => "artifacts/shadowkeep-exposure-ab/exposure-0.05",
        CaptureSet::FullExposure => "artifacts/shadowkeep-exposure-ab/exposure-1.0",
        CaptureSet::FinalCombine => "artifacts/shadowkeep-final-combine-no-film-curve",
    }
}

/// The directory that the manifest of a set of captures is written to: above those of the sets
/// that share it.
pub open spec fn manifest_place(set: CaptureSet) -> Seq<char> {
    match set {
        CaptureSet::BufferProvenance => "artifacts/shadowkeep-buffer-provenance"@,
        CaptureSet::LowExposure | CaptureSet::FullExposure => "artifacts/shadowkeep-exposure-ab"@,
        CaptureSet::FinalCombine => "artifacts/shadowkeep-final-combine-no-film-curve"@,
        _ => "artifacts/shadowkeep-global-lighting-ab"@,
    }
}

pub fn manifest_directory(set: CaptureSet) -> (directory: &'static str)
    ensures
        directory@ == manifest_place(set),
{
    match set {
        CaptureSet::BufferProvenance => "artifacts/shadowkeep-buffer-provenance",
        CaptureSet::LowExposure | CaptureSet::FullExposure => "artifacts/shadowkeep-exposure-ab",
        CaptureSet::FinalCombine => "artifacts/shadowkeep-final-combine-no-film-curve",
        _ => "artifacts/shadowkeep-global-lighting-ab",
    }
}

/// The schema of the manifest of a set of captures. The three sets around global lighting
/// share one manifest, and so do the two exposures.
pub open spec fn schema_of(set: CaptureSet) -> Seq<char> {
    match set {
        CaptureSet::BufferProvenance => "alkahest-shadowkeep-buffer-provenance/v1"@,
        CaptureSet::LowExposure | CaptureSet::FullExposure => {
            "alkahest-shadowkeep-exposure-ab/v1"@
        },
        CaptureSet::FinalCombine => "alkahest-shadowkeep-final-combine-no-film-curve/v1"@,
        _ => "alkahest-shadowkeep-global-lighting-ab/v1"@,
    }
}

pub fn manifest_schema(set: CaptureSet) -> (schema: &'static str)
    ensures
        schema@ == schema_of(set),
{
    match set {
        CaptureSet::BufferProvenance => "alkahest-shadowkeep-buffer-provenance/v1",
        CaptureSet::LowExposure | CaptureSet::FullExposure => "alkahest-shadowkeep-exposure-ab/v1",
        CaptureSet::FinalCombine => "alkahest-shadowkeep-final-combine-no-film-curve/v1",
        _ => "alkahest-shadowkeep-global-lighting-ab/v1",
    }
}

/// The atmosphere reads these channels into these places. Those that are read whole have a vector
/// of sixteen bytes to themselves.
pub proof fn law_the_atmosphere_reads_its_channels()
    ensures
        atmosphere_channels().len() == 22,
        atmosphere_channels()[0] == (AtmosphereChannel { byte_offset: 0x140, channel: 0x0560_07c7, whole: true }),
        atmosphere_channels()[1] == (AtmosphereChannel { byte_offset: 0x150, channel: 0x4aa1_bef5, whole: false }),
        atmosphere_channels()[2] == (AtmosphereChannel { byte_offset: 0x154, channel: 0x9859_daf1, whole: false }),
        atmosphere_channels()[3] == (AtmosphereChannel { byte_offset: 0x160, channel: 0xf853_533c, whole: false }),
        atmosphere_channels()[4] == (AtmosphereChannel { byte_offset: 0x164, channel: 0xed4b_b08a, whole: false }),
        atmosphere_channels()[5] == (AtmosphereChannel { byte_offset: 0x168, channel: 0x9e76_9ed2, whole: false }),
        atmosphere_channels()[6] == (AtmosphereChannel { byte_offset: 0x16c, channel: 0x49fb_bce1, whole: false }),
        atmosphere_channels()[7] == (AtmosphereChannel { byte_offset: 0x170, channel: 0x94d8_ecdc, whole: false }),
        atmosphere_channels()[8] == (AtmosphereChannel { byte_offset: 0x180, channel: 0x9ec7_a5e8, whole: true }),
        atmosphere_channels()[9] == (AtmosphereChannel { byte_offset: 0x190, channel: 0xb630_810b, whole: false }),
        atmosphere_channels()[10] == (AtmosphereChannel { byte_offset: 0x194, channel: 0x3eea_cb23, whole: false }),
        atmosphere_channels()[11] == (AtmosphereChannel { byte_offset: 0x198, channel: 0x7e92_eb31, whole: false }),
        atmosphere_channels()[12] == (AtmosphereChannel { byte_offset: 0x1b4, channel: 0xe283_fbe0, whole: false }),
        atmosphere_channels()[13] == (AtmosphereChannel { byte_offset: 0x1b8, channel: 0x5f3b_8491, whole: false }),
        atmosphere_channels()[14] == (AtmosphereChannel { byte_offset: 0x1bc, channel: 0x79f2_e305, whole: false }),
        atmosphere_channels()[15] == (AtmosphereChannel { byte_offset: 0x1c0, channel: 0x62e4_542e, whole: false }),
        atmosphere_channels()[16] == (AtmosphereChannel { byte_offset: 0x1c4, channel: 0x9497_68cf, whole: false }),
        atmosphere_channels()[17] == (AtmosphereChannel { byte_offset: 0x1d0, channel: 0xd9a2_d8a3, whole: true }),
        atmosphere_channels()[18] == (AtmosphereChannel { byte_offset: 0x1e0, channel: 0xd828_1393, whole: false }),
        atmosphere_channels()[19] == (AtmosphereChannel { byte_offset: 0x1e4, channel: 0x4da7_3ca7, whole: false }),
        atmosphere_channels()[20] == (AtmosphereChannel { byte_offset: 0x1e8, channel: 0xe685_c537, whole: false }),
        atmosphere_channels()[21] == (AtmosphereChannel { byte_offset: 0x1ec, channel: 0xe4a1_bf60, whole: false }),
{
}

/// What the global lighting is given is listed at the offset that its field is named for.
pub proof fn law_lighting_inputs_are_listed_by_offset(inputs: GlobalLightingInputs)
    ensures
        ({
            let values = inputs.values();
            &&& values.len() == 13
            &&& values[0].byte_offset == 0x10
            &&& values[0].value == inputs.unk10
            &&& values[1].byte_offset == 0x30
            &&& values[1].value == inputs.unk30
            &&& values[2].byte_offset == 0x50
            &&& values[2].value == inputs.unk50
            &&& values[3].byte_offset == 0x70
            &&& values[3].value == inputs.unk70
            &&& values[4].byte_offset == 0x80
            &&& values[4].value == inputs.unk80
            &&& values[5].byte_offset == 0x90
            &&& values[5].value == (Vec4Bits { x: inputs.unk90, y: 0, z: 0, w: 0 })
            &&& values[6].byte_offset == 0x94
            &&& values[6].value == (Vec4Bits { x: inputs.unk94, y: 0, z: 0, w: 0 })
            &&& values[7].byte_offset == 0x98
            &&& values[7].value == (Vec4Bits { x: inputs.unk98, y: 0, z: 0, w: 0 })
            &&& values[8].byte_offset == 0x9C
            &&& values[8].value == (Vec4Bits { x: inputs.unk9c, y: 0, z: 0, w: 0 })
            &&& values[9].byte_offset == 0xA0
            &&& values[9].value == (Vec4Bits { x: inputs.unka0, y: 0, z: 0, w: 0 })
            &&& values[10].byte_offset == 0xB0
            &&& values[10].value == inputs.unkb0
            &&& values[11].byte_offset == 0xC0
            &&& values[11].value == inputs.unkc0
            &&& values[12].byte_offset == 0xD0
            &&& values[12].value == inputs.unkd0
        }),
{
}

/// Each set of captures has a directory of its own, and the sets of one comparison share their
/// manifest and its schema.
pub proof fn law_captures_are_kept_by_set()
    ensures
        directory_of(CaptureSet::BufferProvenance) == "artifacts/shadowkeep-buffer-provenance"@,
        manifest_place(CaptureSet::BufferProvenance) == "artifacts/shadowkeep-buffer-provenance"@,
        schema_of(CaptureSet::BufferProvenance) == "alkahest-shadowkeep-buffer-provenance/v1"@,
        directory_of(CaptureSet::BeforeGlobalLighting) == "artifacts/shadowkeep-global-lighting-ab/before_global_lighting"@,
        manifest_place(CaptureSet::BeforeGlobalLighting) == "artifacts/shadowkeep-global-lighting-ab"@,
        schema_of(CaptureSet::BeforeGlobalLighting) == "alkahest-shadowkeep-global-lighting-ab/v1"@,
        directory_of(CaptureSet::AfterGlobalLighting) == "artifacts/shadowkeep-global-lighting-ab/after_global_lighting"@,
        manifest_place(CaptureSet::AfterGlobalLighting) == "artifacts/shadowkeep-global-lighting-ab"@,
        schema_of(CaptureSet::AfterGlobalLighting) == "alkahest-shadowkeep-global-lighting-ab/v1"@,
        directory_of(CaptureSet::AfterFinalShading) == "artifacts/shadowkeep-global-lighting-ab/after_final_shading"@,
        manifest_place(CaptureSet::AfterFinalShading) == "artifacts/shadowkeep-global-lighting-ab"@,
        schema_of(CaptureSet::AfterFinalShading) == "alkahest-shadowkeep-global-lighting-ab/v1"@,
        directory_of(CaptureSet::LowExposure) == "artifacts/shadowkeep-exposure-ab/exposure-0.05"@,
        manifest_place(CaptureSet::LowExposure) == "artifacts/shadowkeep-exposure-ab"@,
        schema_of(CaptureSet::LowExposure) == "alkahest-shadowkeep-exposure-ab/v1"@,
        directory_of(CaptureSet::FullExposure) == "artifacts/shadowkeep-exposure-ab/exposure-1.0"@,
        manifest_place(CaptureSet::FullExposure) == "artifacts/shadowkeep-exposure-ab"@,
        schema_of(CaptureSet::FullExposure) == "alkahest-shadowkeep-exposure-ab/v1"@,
        directory_of(CaptureSet::FinalCombine) == "artifacts/shadowkeep-final-combine-no-film-curve"@,
        manifest_place(CaptureSet::FinalCombine) == "artifacts/shadowkeep-final-combine-no-film-curve"@,
        schema_of(CaptureSet::FinalCombine) == "alkahest-shadowkeep-final-combine-no-film-curve/v1"@,
{
}

} // verus!
