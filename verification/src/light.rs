//! Lights: which technique draws a light in a stage, with which inputs, and what a capture of
//! the light draws records.

use vstd::prelude::*;

use crate::geometry::{Mat4Bits, PrimitiveType, RenderStage, Vec3Bits};
use crate::single::{is_nan, key_of, nan, order_key};
use crate::sky::{add_tag, tag_added, tag_labels, tag_listing, tag_texts};
use crate::steps::DrawState;
use crate::tag::{is_tag, tag_is_some, NO_TAG};
use crate::text::views;

verus! {

/// The light draws since a capture began.
#[derive(Debug)]
pub struct LightCaptureState {
    pub active: bool,
    pub draw_indexed_calls: usize,
    pub techniques: Vec<usize>,
}

/// What a capture of the light draws recorded.
#[derive(Debug)]
pub struct ShadowkeepLightCapture {
    pub draw_indexed_calls: usize,
    pub technique_hashes: Vec<String>,
}

impl LightCaptureState {
    /// The techniques are listed in order, each once.
    pub open spec fn wf(self) -> bool {
        tag_listing(self.techniques@)
    }

    /// A capture that has not begun.
    pub fn new() -> (state: Self)
        ensures
            state.wf(),
            !state.active,
            state.draw_indexed_calls == 0,
            state.techniques@.len() == 0,
    {
        LightCaptureState { active: false, draw_indexed_calls: 0, techniques: Vec::new() }
    }
}

/// Begin a capture: forget earlier draws and record those to come.
pub fn begin_shadowkeep_light_capture(state: &mut LightCaptureState)
    ensures
        final(state).wf(),
        final(state).active,
        final(state).draw_indexed_calls == 0,
        final(state).techniques@.len() == 0,
{
    *state = LightCaptureState { active: true, draw_indexed_calls: 0, techniques: Vec::new() };
}

/// Record a draw with a technique. Nothing is recorded outside a capture. The count starts over
/// after its greatest value.
pub fn record_shadowkeep_light_draw(state: &mut LightCaptureState, technique: u32)
    requires
        old(state).wf(),
    ensures
        final(state).wf(),
        !old(state).active ==> *final(state) == *old(state),
        old(state).active ==> {
            &&& final(state).active
            &&& final(state).draw_indexed_calls == if old(state).draw_indexed_calls == usize::MAX {
                0
            } else {
                old(state).draw_indexed_calls + 1
            }
            &&& tag_added(old(state).techniques@, final(state).techniques@, technique)
        },
{
    if !state.active {
        return;
    }
    state.draw_indexed_calls = state.draw_indexed_calls.wrapping_add(1);
    add_tag(&mut state.techniques, technique);
}

/// End a capture and report what it recorded.
pub fn finish_shadowkeep_light_capture(state: &mut LightCaptureState) -> (capture:
    ShadowkeepLightCapture)
    requires
        old(state).wf(),
    ensures
        *final(state) == (LightCaptureState { active: false, ..*old(state) }),
        capture.draw_indexed_calls == old(state).draw_indexed_calls,
        views(capture.technique_hashes@) == tag_labels(old(state).techniques@),
{
    state.active = false;
    ShadowkeepLightCapture {
        draw_indexed_calls: state.draw_indexed_calls,
        technique_hashes: tag_texts(&state.techniques),
    }
}

/// The way in which a light is submitted.
#[derive(Clone, Copy, Debug, PartialEq, Eq, Structural)]
pub enum LightSubmissionPath {
    Current,
    Shadowkeep { shadowing: bool },
}

/// The techniques of a light; all but the first may be missing.
#[derive(Clone, Copy, Debug, PartialEq, Eq, Structural)]
pub struct LightTechniques {
    pub lighting_apply: u32,
    pub lighting_apply_shadowing: Option<u32>,
    pub volumetrics: Option<u32>,
    pub volumetrics_shadowing: Option<u32>,
}

/// A box along the axes.
#[derive(Clone, Copy, Debug, PartialEq, Eq, Structural)]
pub struct BoundingBox {
    pub min: Vec3Bits,
    pub max: Vec3Bits,
}

/// A light to draw.
#[derive(Clone, Copy, Debug, PartialEq, Eq, Structural)]
pub struct LightRenderer {
    pub techniques: LightTechniques,
    pub submission_path: LightSubmissionPath,
    pub light_space_transform: Mat4Bits,
    pub shadowmap_projection: Mat4Bits,
    pub bounds: Option<BoundingBox>,
    /// A shadow map is attached.
    pub shadow_view: bool,
}

pub open spec fn named(hash: u32) -> Option<u32> {
    if is_tag(hash) {
        Some(hash)
    } else {
        None
    }
}

fn if_named(hash: u32) -> (tag: Option<u32>)
    ensures
        tag == named(hash),
{
    if tag_is_some(hash) {
        Some(hash)
    } else {
        None
    }
}

/// The states that a draw chooses; the others stay as they are.
#[derive(Clone, Copy, Debug, PartialEq, Eq, Structural)]
pub struct StateChange {
    pub blend: Option<u8>,
    pub depth_stencil: Option<u8>,
    pub rasterizer: Option<u8>,
    pub depth_bias: Option<u8>,
}

pub open spec fn chosen_or(choice: Option<u8>, current: u8) -> u8 {
    match choice {
        Some(state) => state,
        None => current,
    }
}

fn choose_or(choice: Option<u8>, current: u8) -> (state: u8)
    ensures
        state == chosen_or(choice, current),
{
    match choice {
        Some(state) => state,
        None => current,
    }
}

impl StateChange {
    /// The states after the change.
    pub open spec fn applied(self, current: DrawState) -> DrawState {
        DrawState {
            blend: chosen_or(self.blend, current.blend),
            depth_stencil: chosen_or(self.depth_stencil, current.depth_stencil),
            rasterizer: chosen_or(self.rasterizer, current.rasterizer),
            depth_bias: chosen_or(self.depth_bias, current.depth_bias),
        }
    }

    /// Changes the current states.
    pub fn select(self, current: DrawState) -> (state: DrawState)
        ensures
            state == self.applied(current),
    {
        DrawState {
            blend: choose_or(self.blend, current.blend),
            depth_stencil: choose_or(self.depth_stencil, current.depth_stencil),
            rasterizer: choose_or(self.rasterizer, current.rasterizer),
            depth_bias: choose_or(self.depth_bias, current.depth_bias),
        }
    }
}

/// The input layout of a light volume.
pub const LIGHT_INPUT_LAYOUT: usize = 1;

/// What a draw of a light sets up. The technique is missing where the light has none for the
/// stage: the inputs are then set, and nothing is drawn.
#[derive(Clone, Copy, Debug, PartialEq, Eq, Structural)]
pub struct LightDraw {
    pub technique: Option<u32>,
    /// The inputs follow the preserved layout.
    pub preserved: bool,
    /// The light matrix is moved by the camera position.
    pub camera_translation: bool,
    /// The volume is turned inside out, for a camera inside of it.
    pub mirrored: bool,
    pub state: StateChange,
    pub input_layout: usize,
    pub primitive_type: PrimitiveType,
    pub fog_inputs: bool,
    /// The shadow inputs are set, with this filter size.
    pub shadow_filter_bits: Option<u32>,
}

/// The single-precision pattern of two.
pub const TWO_BITS: u32 = 0x4000_0000;

impl LightRenderer {
    /// The light's map is there and shadows are on.
    pub open spec fn shadowed(self, shadows: bool) -> bool {
        shadows && self.shadow_view
    }

    /// The technique for a stage.
    pub open spec fn technique_for(self, stage: RenderStage, shadows: bool) -> Option<u32> {
        if stage == RenderStage::Volumetrics {
            if self.shadowed(shadows) && self.techniques.volumetrics_shadowing is Some {
                self.techniques.volumetrics_shadowing
            } else {
                self.techniques.volumetrics
            }
        } else if self.shadowed(shadows) && self.techniques.lighting_apply_shadowing is Some {
            self.techniques.lighting_apply_shadowing
        } else {
            Some(self.techniques.lighting_apply)
        }
    }

    pub open spec fn is_preserved(self) -> bool {
        self.submission_path is Shadowkeep
    }

    /// The draw in the current era. The camera is inside a light without bounds.
    pub open spec fn current_draw(
        self,
        stage: RenderStage,
        shadows: bool,
        holds_camera: bool,
        fog: bool,
    ) -> LightDraw {
        let inside = self.bounds is None || holds_camera;
        LightDraw {
            technique: self.technique_for(stage, shadows),
            preserved: false,
            camera_translation: false,
            mirrored: inside,
            state: StateChange {
                blend: None,
                depth_stencil: Some(if inside { 0u8 } else { 30u8 }),
                rasterizer: None,
                depth_bias: None,
            },
            input_layout: LIGHT_INPUT_LAYOUT,
            primitive_type: PrimitiveType::Triangles,
            fog_inputs: fog && stage == RenderStage::Volumetrics,
            shadow_filter_bits: if self.shadowed(shadows) {
                Some(crate::channels::ONE_BITS)
            } else {
                None
            },
        }
    }

    /// The draw of a preserved light.
    pub open spec fn preserved_draw(self, shadows: bool) -> LightDraw {
        LightDraw {
            technique: self.technique_for(RenderStage::LightingApply, shadows),
            preserved: true,
            camera_translation: self.submission_path == (LightSubmissionPath::Shadowkeep {
                shadowing: true,
            }),
            mirrored: false,
            state: StateChange {
                blend: Some(8u8),
                depth_stencil: Some(0u8),
                rasterizer: Some(2u8),
                depth_bias: Some(2u8),
            },
            input_layout: LIGHT_INPUT_LAYOUT,
            primitive_type: PrimitiveType::Triangles,
            fog_inputs: false,
            shadow_filter_bits: if self.shadowed(shadows) {
                Some(TWO_BITS)
            } else {
                None
            },
        }
    }

    fn new_impl(
        shading: u32,
        shading_shadowing: u32,
        volumetrics: u32,
        volumetrics_shadowing: u32,
        light_space_transform: Mat4Bits,
        shadowmap_projection: Mat4Bits,
        bounds: Option<BoundingBox>,
        submission_path: LightSubmissionPath,
    ) -> (light: LightRenderer)
        ensures
            light == (LightRenderer {
                techniques: LightTechniques {
                    lighting_apply: shading,
                    lighting_apply_shadowing: named(shading_shadowing),
                    volumetrics: named(volumetrics),
                    volumetrics_shadowing: named(volumetrics_shadowing),
                },
                submission_path,
                light_space_transform,
                shadowmap_projection,
                bounds,
                shadow_view: false,
            }),
    {
        LightRenderer {
            techniques: LightTechniques {
                lighting_apply: shading,
                lighting_apply_shadowing: if_named(shading_shadowing),
                volumetrics: if_named(volumetrics),
                volumetrics_shadowing: if_named(volumetrics_shadowing),
            },
            submission_path,
            light_space_transform,
            shadowmap_projection,
            bounds,
            shadow_view: false,
        }
    }

    /// A preserved light without shadows.
    pub fn new_shadowkeep(
        technique_shading: u32,
        technique_volumetrics: u32,
        light_space_transform: Mat4Bits,
        bounds: Option<BoundingBox>,
    ) -> (light: LightRenderer)
        ensures
            light == (LightRenderer {
                techniques: LightTechniques {
                    lighting_apply: technique_shading,
                    lighting_apply_shadowing: None,
                    volumetrics: named(technique_volumetrics),
                    volumetrics_shadowing: None,
                },
                submission_path: LightSubmissionPath::Shadowkeep { shadowing: false },
                light_space_transform,
                shadowmap_projection: Mat4Bits::unit(),
                bounds,
                shadow_view: false,
            }),
    {
        LightRenderer::new_impl(
            technique_shading,
            NO_TAG,
            technique_volumetrics,
            NO_TAG,
            light_space_transform,
            Mat4Bits::identity(),
            bounds,
            LightSubmissionPath::Shadowkeep { shadowing: false },
        )
    }

    /// A preserved light with shadows. Its map is attached when there is one.
    pub fn new_shadowkeep_shadowing(
        technique_shading: u32,
        technique_shading_shadowing: u32,
        technique_volumetrics: u32,
        technique_volumetrics_shadowing: u32,
        light_space_transform: Mat4Bits,
        shadowmap_projection: Mat4Bits,
    ) -> (light: LightRenderer)
        ensures
            light == (LightRenderer {
                techniques: LightTechniques {
                    lighting_apply: technique_shading,
                    lighting_apply_shadowing: named(technique_shading_shadowing),
                    volumetrics: named(technique_volumetrics),
                    volumetrics_shadowing: named(technique_volumetrics_shadowing),
                },
                submission_path: LightSubmissionPath::Shadowkeep { shadowing: true },
                light_space_transform,
                shadowmap_projection,
                bounds: None,
                shadow_view: false,
            }),
    {
        LightRenderer::new_impl(
            technique_shading,
            technique_shading_shadowing,
            technique_volumetrics,
            technique_volumetrics_shadowing,
            light_space_transform,
            shadowmap_projection,
            None,
            LightSubmissionPath::Shadowkeep { shadowing: true },
        )
    }

    /// A light of the current era without shadows.
    pub fn new(
        technique_shading: u32,
        technique_volumetrics: u32,
        light_space_transform: Mat4Bits,
        bounds: BoundingBox,
    ) -> (light: LightRenderer)
        ensures
            light == (LightRenderer {
                techniques: LightTechniques {
                    lighting_apply: technique_shading,
                    lighting_apply_shadowing: None,
                    volumetrics: named(technique_volumetrics),
                    volumetrics_shadowing: None,
                },
                submission_path: LightSubmissionPath::Current,
                light_space_transform,
                shadowmap_projection: Mat4Bits::unit(),
                bounds: Some(bounds),
                shadow_view: false,
            }),
    {
        LightRenderer::new_impl(
            technique_shading,
            NO_TAG,
            technique_volumetrics,
            NO_TAG,
            light_space_transform,
            Mat4Bits::identity(),
            Some(bounds),
            LightSubmissionPath::Current,
        )
    }

    /// A light of the current era with shadows.
    pub fn new_shadowing(
        technique_shading: u32,
        technique_shading_shadowing: u32,
        technique_volumetrics: u32,
        technique_volumetrics_shadowing: u32,
        light_space_transform: Mat4Bits,
        shadowmap_projection: Mat4Bits,
    ) -> (light: LightRenderer)
        ensures
            light == (LightRenderer {
                techniques: LightTechniques {
                    lighting_apply: technique_shading,
                    lighting_apply_shadowing: named(technique_shading_shadowing),
                    volumetrics: named(technique_volumetrics),
                    volumetrics_shadowing: named(technique_volumetrics_shadowing),
                },
                submission_path: LightSubmissionPath::Current,
                light_space_transform,
                shadowmap_projection,
                bounds: None,
                shadow_view: false,
            }),
    {
        LightRenderer::new_impl(
            technique_shading,
            technique_shading_shadowing,
            technique_volumetrics,
            technique_volumetrics_shadowing,
            light_space_transform,
            shadowmap_projection,
            None,
            LightSubmissionPath::Current,
        )
    }

    /// The techniques are read in the preserved layout.
    pub fn loads_preserved_techniques(&self) -> (preserved: bool)
        ensures
            preserved == self.is_preserved(),
    {
        match self.submission_path {
            LightSubmissionPath::Shadowkeep { .. } => true,
            LightSubmissionPath::Current => false,
        }
    }

    /// A preserved light is always visible, another where its bounds are, if it has any.
    pub fn visibility_test(&self, bounds_visible: bool) -> (visible: bool)
        ensures
            visible == (self.is_preserved() || self.bounds is None || bounds_visible),
    {
        match self.submission_path {
            LightSubmissionPath::Shadowkeep { .. } => true,
            LightSubmissionPath::Current => self.bounds.is_none() || bounds_visible,
        }
    }

    fn choose_technique(&self, stage: RenderStage, shadows: bool) -> (technique: Option<u32>)
        ensures
            technique == self.technique_for(stage, shadows),
    {
        let shadowed = shadows && self.shadow_view;
        if stage == RenderStage::Volumetrics {
            if shadowed && self.techniques.volumetrics_shadowing.is_some() {
                self.techniques.volumetrics_shadowing
            } else {
                self.techniques.volumetrics
            }
        } else if shadowed && self.techniques.lighting_apply_shadowing.is_some() {
            self.techniques.lighting_apply_shadowing
        } else {
            Some(self.techniques.lighting_apply)
        }
    }

    fn draw_current(&self, stage: RenderStage, shadows: bool, holds_camera: bool, fog: bool) -> (draw:
        LightDraw)
        ensures
            draw == self.current_draw(stage, shadows, holds_camera, fog),
    {
        let inside = self.bounds.is_none() || holds_camera;
        LightDraw {
            technique: self.choose_technique(stage, shadows),
            preserved: false,
            camera_translation: false,
            mirrored: inside,
            state: StateChange {
                blend: None,
                depth_stencil: Some(if inside { 0u8 } else { 30u8 }),
                rasterizer: None,
                depth_bias: None,
            },
            input_layout: LIGHT_INPUT_LAYOUT,
            primitive_type: PrimitiveType::Triangles,
            fog_inputs: fog && stage == RenderStage::Volumetrics,
            shadow_filter_bits: if shadows && self.shadow_view {
                Some(crate::channels::ONE_BITS)
            } else {
                None
            },
        }
    }

    fn submit_shadowkeep_lighting(&self, shadows: bool) -> (draw: LightDraw)
        ensures
            draw == self.preserved_draw(shadows),
    {
        let camera_translation = match self.submission_path {
            LightSubmissionPath::Shadowkeep { shadowing } => shadowing,
            LightSubmissionPath::Current => false,
        };
        LightDraw {
            technique: self.choose_technique(RenderStage::LightingApply, shadows),
            preserved: true,
            camera_translation,
            mirrored: false,
            state: StateChange {
                blend: Some(8u8),
                depth_stencil: Some(0u8),
                rasterizer: Some(2u8),
                depth_bias: Some(2u8),
            },
            input_layout: LIGHT_INPUT_LAYOUT,
            primitive_type: PrimitiveType::Triangles,
            fog_inputs: false,
            shadow_filter_bits: if shadows && self.shadow_view {
                Some(TWO_BITS)
            } else {
                None
            },
        }
    }

    /// Decides how a light takes part in a stage. It casts no shadow of its own, and does not
    /// apply light probes.
    pub fn submit(&self, stage: RenderStage, shadows: bool, holds_camera: bool) -> (draw: Option<
        LightDraw,
    >)
        ensures
            draw == if stage == RenderStage::LightProbeApply || stage
                == RenderStage::ShadowGenerate {
                None
            } else if stage == RenderStage::LightingApply && self.is_preserved() {
                Some(self.preserved_draw(shadows))
            } else {
                Some(self.current_draw(stage, shadows, holds_camera, true))
            },
    {
        if stage == RenderStage::LightProbeApply || stage == RenderStage::ShadowGenerate {
            return None;
        }
        if stage == RenderStage::LightingApply && self.loads_preserved_techniques() {
            return Some(self.submit_shadowkeep_lighting(shadows));
        }
        Some(self.draw_current(stage, shadows, holds_camera, true))
    }

    /// Decides how a light is drawn by a worker, which takes any stage and sets no fog inputs.
    pub fn submit_parallel(&self, stage: RenderStage, shadows: bool, holds_camera: bool) -> (draw:
        LightDraw)
        ensures
            draw == self.current_draw(stage, shadows, holds_camera, false),
    {
        self.draw_current(stage, shadows, holds_camera, false)
    }

    /// The stages that a light takes part in.
    pub open spec fn stages() -> Seq<RenderStage> {
        seq![RenderStage::LightingApply, RenderStage::LightProbeApply, RenderStage::Volumetrics]
    }

    pub fn subscribed_stages(&self) -> (stages: Vec<RenderStage>)
        ensures
            stages@ == LightRenderer::stages(),
    {
        let stages: Vec<RenderStage> = vec![
            RenderStage::LightingApply,
            RenderStage::LightProbeApply,
            RenderStage::Volumetrics,
        ];
        assert(stages@ =~= LightRenderer::stages());
        stages
    }
}

/// The single-precision pattern of minus one fifth.
pub const FOG_LOW_BITS: u32 = 0xbe4c_cccd;

/// The single-precision pattern of six fifths.
pub const FOG_HIGH_BITS: u32 = 0x3f99_999a;

/// The order of single-precision floats; a pattern that is no number has none.
pub open spec fn float_less(a: u32, b: u32) -> bool {
    !is_nan(a) && !is_nan(b) && order_key(a) < order_key(b)
}

fn less_float(a: u32, b: u32) -> (result: bool)
    ensures
        result == float_less(a, b),
{
    !nan(a) && !nan(b) && key_of(a) < key_of(b)
}

/// A coordinate lies outside the fog volume, with a margin.
pub open spec fn outside_fog(coordinate: u32) -> bool {
    float_less(coordinate, FOG_LOW_BITS) || float_less(FOG_HIGH_BITS, coordinate)
}

/// Tells whether a camera at a position in the volume's space sees the fog from inside.
pub fn camera_in_fog(position: Vec3Bits) -> (inside: bool)
    ensures
        inside == !(outside_fog(position.x) || outside_fog(position.y) || outside_fog(position.z)),
{
    !(less_float(position.x, FOG_LOW_BITS) || less_float(FOG_HIGH_BITS, position.x) || less_float(
        position.y,
        FOG_LOW_BITS,
    ) || less_float(FOG_HIGH_BITS, position.y) || less_float(position.z, FOG_LOW_BITS)
        || less_float(FOG_HIGH_BITS, position.z))
}

/// Without shadows a light never draws with a shadow technique, whichever map it has.
pub proof fn law_shadow_techniques_need_shadows(light: LightRenderer, stage: RenderStage)
    ensures
        stage == RenderStage::Volumetrics ==> light.technique_for(stage, false)
            == light.techniques.volumetrics,
        stage != RenderStage::Volumetrics ==> light.technique_for(stage, false) == Some(
            light.techniques.lighting_apply,
        ),
        light.current_draw(stage, false, true, true).shadow_filter_bits is None,
        light.preserved_draw(false).shadow_filter_bits is None,
{
}

/// A preserved light is lit with its own state, in the preserved layout, and never turned inside
/// out. With shadows on and a map at hand it takes its shadowing technique where it has one and a
/// filter of two; otherwise its plain technique and no filter. Only a shadowing light is moved by
/// the camera.
pub proof fn law_preserved_lights_are_drawn_as_stored(light: LightRenderer, shadows: bool)
    ensures
        ({
            let draw = light.preserved_draw(shadows);
            let shadowed = shadows && light.shadow_view;
            &&& draw.preserved
            &&& !draw.mirrored
            &&& !draw.fog_inputs
            &&& draw.camera_translation == (light.submission_path is Shadowkeep
                && light.submission_path->shadowing)
            &&& draw.state.blend == Some(8u8)
            &&& draw.state.depth_stencil == Some(0u8)
            &&& draw.state.rasterizer == Some(2u8)
            &&& draw.state.depth_bias == Some(2u8)
            &&& draw.input_layout == 1
            &&& draw.primitive_type == PrimitiveType::Triangles
            &&& shadowed ==> draw.shadow_filter_bits == Some(0x4000_0000u32)
            &&& !shadowed ==> draw.shadow_filter_bits is None
            &&& shadowed && light.techniques.lighting_apply_shadowing is Some ==> draw.technique
                == light.techniques.lighting_apply_shadowing
            &&& !shadowed || light.techniques.lighting_apply_shadowing is None ==> draw.technique
                == Some(light.techniques.lighting_apply)
        }),
{
}

/// A current light is drawn inside out, without a stencil test, where the camera is within its
/// bounds or it has none, and with the stencil test otherwise. It changes no other state. Volumes
/// of fog take the volumetric techniques, and everything else the lighting techniques.
pub proof fn law_current_lights_are_turned_around_the_camera(
    light: LightRenderer,
    stage: RenderStage,
    shadows: bool,
    holds_camera: bool,
    fog: bool,
)
    ensures
        ({
            let draw = light.current_draw(stage, shadows, holds_camera, fog);
            let shadowed = shadows && light.shadow_view;
            let inside = light.bounds is None || holds_camera;
            &&& !draw.preserved
            &&& !draw.camera_translation
            &&& draw.mirrored == inside
            &&& inside ==> draw.state.depth_stencil == Some(0u8)
            &&& !inside ==> draw.state.depth_stencil == Some(30u8)
            &&& draw.state.blend is None
            &&& draw.state.rasterizer is None
            &&& draw.state.depth_bias is None
            &&& draw.input_layout == 1
            &&& draw.primitive_type == PrimitiveType::Triangles
            &&& draw.fog_inputs == (fog && stage.number() == 19)
            &&& shadowed ==> draw.shadow_filter_bits == Some(0x3f80_0000u32)
            &&& !shadowed ==> draw.shadow_filter_bits is None
            &&& stage.number() != 19 ==> draw.technique == if shadowed
                && light.techniques.lighting_apply_shadowing is Some {
                light.techniques.lighting_apply_shadowing
            } else {
                Some(light.techniques.lighting_apply)
            }
            &&& stage.number() == 19 ==> draw.technique == if shadowed
                && light.techniques.volumetrics_shadowing is Some {
                light.techniques.volumetrics_shadowing
            } else {
                light.techniques.volumetrics
            }
        }),
{
}

/// A change of state replaces what it names and leaves the rest as it is.
pub proof fn law_state_changes_leave_the_rest(change: StateChange, current: DrawState)
    ensures
        change.blend is None ==> change.applied(current).blend == current.blend,
        change.blend matches Some(value) ==> change.applied(current).blend == value,
        change.depth_stencil is None ==> change.applied(current).depth_stencil
            == current.depth_stencil,
        change.depth_stencil matches Some(value) ==> change.applied(current).depth_stencil == value,
        change.rasterizer is None ==> change.applied(current).rasterizer == current.rasterizer,
        change.rasterizer matches Some(value) ==> change.applied(current).rasterizer == value,
        change.depth_bias is None ==> change.applied(current).depth_bias == current.depth_bias,
        change.depth_bias matches Some(value) ==> change.applied(current).depth_bias == value,
{
}

} // verus!
