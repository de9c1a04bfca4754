//! The passes of the preserved renderer around the shaded frame: the objects of the sky, the
//! transparents and the atmosphere lookups.

use vstd::prelude::*;

use crate::channels::Vec4Bits;
use crate::geometry::RenderStage;
use crate::pipelines::GlobalScope;
use crate::steps::{
    AtmospherePipeline, DrawState, Features, Fill, Step, SubmitOrder, Surface, ViewSlot,
};
use crate::submit::{extend, extend_when, set_state, state, steps_if, submission, submit};

verus! {

/// Reading the shaded frame, and drawing the additive decals over it.
pub open spec fn decal_steps(order: SubmitOrder, features: Features) -> Seq<Step> {
    seq![
        Step::UpdateShadingRead,
        Step::DeferredDepth { source: Surface::DepthProxy },
        Step::DeriveMatrices { surface: Surface::ShadingResult },
        Step::TransparentInputs,
        Step::BindScope { scope: GlobalScope::View },
        Step::BindScope { scope: GlobalScope::Transparent },
        Step::Bind { surface: Surface::ShadingResult, depth: Some(Surface::Depth) },
        state(8, 15, 2, 1),
        Step::FlushStates,
        submission(RenderStage::DecalsAdditive, order, features),
    ]
}

fn decals(order: SubmitOrder, features: Features) -> (steps: Vec<Step>)
    ensures
        steps@ == decal_steps(order, features),
{
    let steps: Vec<Step> = vec![
        Step::UpdateShadingRead,
        Step::DeferredDepth { source: Surface::DepthProxy },
        Step::DeriveMatrices { surface: Surface::ShadingResult },
        Step::TransparentInputs,
        Step::BindScope { scope: GlobalScope::View },
        Step::BindScope { scope: GlobalScope::Transparent },
        Step::Bind { surface: Surface::ShadingResult, depth: Some(Surface::Depth) },
        set_state(8, 15, 2, 1),
        Step::FlushStates,
        submit(RenderStage::DecalsAdditive, order, features),
    ];
    assert(steps@ =~= decal_steps(order, features));
    steps
}

/// Reading the frame again, with the decals in it.
pub open spec fn refresh_steps() -> Seq<Step> {
    seq![
        Step::UpdateShadingRead,
        Step::RefreshTransparentInputs,
        state(8, 15, 2, 1),
        Step::FlushStates,
    ]
}

fn refresh() -> (steps: Vec<Step>)
    ensures
        steps@ == refresh_steps(),
{
    let steps: Vec<Step> = vec![
        Step::UpdateShadingRead,
        Step::RefreshTransparentInputs,
        set_state(8, 15, 2, 1),
        Step::FlushStates,
    ];
    assert(steps@ =~= refresh_steps());
    steps
}

fn one(step: Step) -> (steps: Vec<Step>)
    ensures
        steps@ == seq![step],
{
    let steps: Vec<Step> = vec![step];
    assert(steps@ =~= seq![step]);
    steps
}

/// The objects of the sky, in the order of the map. The decals have their place even where the
/// sky has none; the transparents only where it has some.
pub open spec fn sky_object_steps(decals: bool, transparents: bool, recorded: bool) -> Seq<Step> {
    if !decals && !transparents {
        Seq::empty()
    } else {
        decal_steps(SubmitOrder::Authored, Features::SkyTransparent) + steps_if(
            recorded,
            seq![Step::RecordSkySubmission { stage: RenderStage::DecalsAdditive }],
        ) + refresh_steps() + steps_if(
            transparents,
            seq![
                submission(
                    RenderStage::Transparents,
                    SubmitOrder::Authored,
                    Features::SkyTransparent,
                ),
            ],
        ) + steps_if(
            transparents && recorded,
            seq![Step::RecordSkySubmission { stage: RenderStage::Transparents }],
        )
    }
}

/// Plans the objects of the sky. `decals_present` and `transparents` tell whether the sky has
/// objects in those stages; the submissions are recorded for either of the two sky diagnostics.
pub fn submit_shadowkeep_sky_objects(
    decals_present: bool,
    transparents: bool,
    sky_diagnostics: bool,
    sky_objects_ab: bool,
) -> (steps: Vec<Step>)
    ensures
        steps@ == sky_object_steps(decals_present, transparents, sky_diagnostics || sky_objects_ab),
{
    if !decals_present && !transparents {
        return Vec::new();
    }
    let recorded = sky_diagnostics || sky_objects_ab;
    let mut steps = decals(SubmitOrder::Authored, Features::SkyTransparent);
    extend_when(
        &mut steps,
        recorded,
        one(Step::RecordSkySubmission { stage: RenderStage::DecalsAdditive }),
    );
    extend(&mut steps, refresh());
    extend_when(
        &mut steps,
        transparents,
        one(submit(RenderStage::Transparents, SubmitOrder::Authored, Features::SkyTransparent)),
    );
    extend_when(
        &mut steps,
        transparents && recorded,
        one(Step::RecordSkySubmission { stage: RenderStage::Transparents }),
    );
    steps
}

/// The transparents but for the sky, which has an order of its own, and the water, which needs
/// its reflections.
pub open spec fn preserved_transparent_steps(decals: bool, transparents: bool) -> Seq<Step> {
    if !decals && !transparents {
        Seq::empty()
    } else {
        decal_steps(SubmitOrder::Serial, Features::AllButSkyAndWater) + refresh_steps() + seq![
            submission(RenderStage::Transparents, SubmitOrder::Serial, Features::AllButSkyAndWater),
        ]
    }
}

/// Plans the transparents. `decals_present` and `transparents` tell whether there are objects
/// in those stages.
pub fn submit_shadowkeep_transparents(decals_present: bool, transparents: bool) -> (steps: Vec<Step>)
    ensures
        steps@ == preserved_transparent_steps(decals_present, transparents),
{
    if !decals_present && !transparents {
        return Vec::new();
    }
    let mut steps = decals(SubmitOrder::Serial, Features::AllButSkyAndWater);
    extend(&mut steps, refresh());
    extend(
        &mut steps,
        one(submit(RenderStage::Transparents, SubmitOrder::Serial, Features::AllButSkyAndWater)),
    );
    steps
}

/// Whether a texture handle has its texture.
#[derive(Clone, Copy, Debug, PartialEq, Eq, Structural)]
pub struct LookupTexture {
    pub loaded: bool,
    pub null: bool,
}

/// The authored textures of the atmosphere.
#[derive(Clone, Copy, Debug, PartialEq, Eq, Structural)]
pub struct AtmosphereTextures {
    pub table: bool,
    pub volume_0: LookupTexture,
    pub volume_1: LookupTexture,
    pub vertical: LookupTexture,
}

impl AtmosphereTextures {
    pub open spec fn ready(self) -> bool {
        &&& self.table
        &&& self.volume_0.loaded && !self.volume_0.null
        &&& self.volume_1.loaded && !self.volume_1.null
        &&& self.vertical.loaded && !self.vertical.null
    }

    pub fn is_ready(&self) -> (ready: bool)
        ensures
            ready == self.ready(),
    {
        self.table && self.volume_0.loaded && !self.volume_0.null && self.volume_1.loaded
            && !self.volume_1.null && self.vertical.loaded && !self.vertical.null
    }
}

/// Generating the sky directions and then, in the fixed basis, the sky.
pub open spec fn lookup_steps() -> Seq<Step> {
    seq![
        Step::Clear { surface: Surface::SkyLookupFar, fill: Fill::Zero },
        Step::Bind { surface: Surface::SkyLookupFar, depth: None },
        Step::ClearDepthStencilState,
        state(0, 0, 0, 0),
        Step::RunAtmosphere { atmosphere: AtmospherePipeline::SkyDirectionLookupGenerate },
        Step::AtmosphereBasis,
        Step::Clear { surface: Surface::SkyLookupNear, fill: Fill::Zero },
        Step::Bind { surface: Surface::SkyLookupNear, depth: None },
        Step::ClearDepthStencilState,
        state(0, 0, 0, 0),
        Step::RunAtmosphere { atmosphere: AtmospherePipeline::SkyLookupGenerate },
    ]
}

/// The basis that the sky lookups are generated in.
pub open spec fn atmosphere_basis_vectors() -> Seq<Vec4Bits> {
    seq![
        Vec4Bits { x: 0xbdaa_747e, y: 0, z: 0xbf7f_1c97, w: 0x3f80_0000 },
        Vec4Bits { x: 0xbcfc_f80e, y: 0x3f7f_e08b, z: 0x3b29_1538, w: 0x3f80_0000 },
        Vec4Bits { x: 0x3f7e_fd22, y: 0x3cfd_c9c5, z: 0xbdaa_5f85, w: 0x3f80_0000 },
    ]
}

/// The basis vectors for the step that sets them.
pub fn atmosphere_basis() -> (basis: Vec<Vec4Bits>)
    ensures
        basis@ == atmosphere_basis_vectors(),
{
    let basis: Vec<Vec4Bits> = vec![
        Vec4Bits { x: 0xbdaa_747e, y: 0, z: 0xbf7f_1c97, w: 0x3f80_0000 },
        Vec4Bits { x: 0xbcfc_f80e, y: 0x3f7f_e08b, z: 0x3b29_1538, w: 0x3f80_0000 },
        Vec4Bits { x: 0x3f7e_fd22, y: 0x3cfd_c9c5, z: 0xbdaa_5f85, w: 0x3f80_0000 },
    ];
    assert(basis@ =~= atmosphere_basis_vectors());
    basis
}

/// Plans the two lookups that shading and the sky read, once the pipelines and the authored
/// textures are there.
pub fn submit_shadowkeep_atmosphere_lookups(pipelines: bool, textures: &AtmosphereTextures) -> (steps:
    Option<Vec<Step>>)
    ensures
        steps is Some <==> pipelines && textures.ready(),
        steps is Some ==> steps->Some_0@ == lookup_steps(),
{
    if !pipelines || !textures.is_ready() {
        return None;
    }
    let steps: Vec<Step> = vec![
        Step::Clear { surface: Surface::SkyLookupFar, fill: Fill::Zero },
        Step::Bind { surface: Surface::SkyLookupFar, depth: None },
        Step::ClearDepthStencilState,
        set_state(0, 0, 0, 0),
        Step::RunAtmosphere { atmosphere: AtmospherePipeline::SkyDirectionLookupGenerate },
        Step::AtmosphereBasis,
        Step::Clear { surface: Surface::SkyLookupNear, fill: Fill::Zero },
        Step::Bind { surface: Surface::SkyLookupNear, depth: None },
        Step::ClearDepthStencilState,
        set_state(0, 0, 0, 0),
        Step::RunAtmosphere { atmosphere: AtmospherePipeline::SkyLookupGenerate },
    ];
    assert(steps@ =~= lookup_steps());
    Some(steps)
}

/// The lookups can be used: they were planned, and both pipelines reached their draw.
pub fn lookups_generated(planned: bool, direction: bool, atmosphere: bool) -> (generated: bool)
    ensures
        generated == (planned && direction && atmosphere),
{
    planned && direction && atmosphere
}

/// The sky and the other transparents share the decal and transparent stages, but neither draws
/// what belongs to the other.
pub proof fn law_sky_and_transparents_are_disjoint(
    decals: bool,
    transparents: bool,
    recorded: bool,
    at: int,
)
    ensures
        0 <= at < sky_object_steps(decals, transparents, recorded).len() ==> (sky_object_steps(
            decals,
            transparents,
            recorded,
        )[at] is Submit ==> sky_object_steps(decals, transparents, recorded)[at]->features
            == Features::SkyTransparent),
        0 <= at < preserved_transparent_steps(decals, transparents).len() ==> (
        preserved_transparent_steps(decals, transparents)[at] is Submit
            ==> preserved_transparent_steps(decals, transparents)[at]->features
            == Features::AllButSkyAndWater),
{
}

/// Additive decals read the shading result as it was before, with their inputs, matrices and
/// scopes set, and are tested against the depth.
pub proof fn law_decals_read_the_shading(order: SubmitOrder, features: Features)
    ensures
        decal_steps(order, features).len() == 10,
        decal_steps(order, features)[0] == Step::UpdateShadingRead,
        decal_steps(order, features)[1] == (Step::DeferredDepth { source: Surface::DepthProxy }),
        decal_steps(order, features)[2] == (Step::DeriveMatrices { surface: Surface::ShadingResult }),
        decal_steps(order, features)[3] == Step::TransparentInputs,
        decal_steps(order, features)[4] == (Step::BindScope { scope: GlobalScope::View }),
        decal_steps(order, features)[5] == (Step::BindScope { scope: GlobalScope::Transparent }),
        decal_steps(order, features)[6] == (Step::Bind { surface: Surface::ShadingResult, depth: Some(Surface::Depth) }),
        decal_steps(order, features)[7] == (Step::SetState {
            state: DrawState { blend: 8, depth_stencil: 15, rasterizer: 2, depth_bias: 1 },
        }),
        decal_steps(order, features)[8] == Step::FlushStates,
        decal_steps(order, features)[9] == (Step::Submit {
            view: ViewSlot::Main,
            stage: RenderStage::DecalsAdditive,
            order: order,
            features: features,
        }),
{
}

/// Before the transparent objects the readable shading result and the inputs that read it are
/// renewed.
pub proof fn law_transparents_read_the_decals()
    ensures
        refresh_steps().len() == 4,
        refresh_steps()[0] == Step::UpdateShadingRead,
        refresh_steps()[1] == Step::RefreshTransparentInputs,
        refresh_steps()[2] == (Step::SetState {
            state: DrawState { blend: 8, depth_stencil: 15, rasterizer: 2, depth_bias: 1 },
        }),
        refresh_steps()[3] == Step::FlushStates,
{
}

/// The far lookup is generated first, and the near one once the basis of the atmosphere is
/// written.
pub proof fn law_lookups_are_generated_in_turn()
    ensures
        lookup_steps().len() == 11,
        lookup_steps()[0] == (Step::Clear { surface: Surface::SkyLookupFar, fill: Fill::Zero }),
        lookup_steps()[1] == (Step::Bind { surface: Surface::SkyLookupFar, depth: None }),
        lookup_steps()[2] == Step::ClearDepthStencilState,
        lookup_steps()[3] == (Step::SetState {
            state: DrawState { blend: 0, depth_stencil: 0, rasterizer: 0, depth_bias: 0 },
        }),
        lookup_steps()[4] == (Step::RunAtmosphere { atmosphere: AtmospherePipeline::SkyDirectionLookupGenerate }),
        lookup_steps()[5] == Step::AtmosphereBasis,
        lookup_steps()[6] == (Step::Clear { surface: Surface::SkyLookupNear, fill: Fill::Zero }),
        lookup_steps()[7] == (Step::Bind { surface: Surface::SkyLookupNear, depth: None }),
        lookup_steps()[8] == Step::ClearDepthStencilState,
        lookup_steps()[9] == (Step::SetState {
            state: DrawState { blend: 0, depth_stencil: 0, rasterizer: 0, depth_bias: 0 },
        }),
        lookup_steps()[10] == (Step::RunAtmosphere { atmosphere: AtmospherePipeline::SkyLookupGenerate }),
{
}

/// The basis of the atmosphere has these single-precision patterns.
pub proof fn law_the_atmosphere_has_a_fixed_basis()
    ensures
        atmosphere_basis_vectors().len() == 3,
        atmosphere_basis_vectors()[0] == (Vec4Bits {
            x: 0xbdaa_747e,
            y: 0,
            z: 0xbf7f_1c97,
            w: 0x3f80_0000,
        }),
        atmosphere_basis_vectors()[1] == (Vec4Bits {
            x: 0xbcfc_f80e,
            y: 0x3f7f_e08b,
            z: 0x3b29_1538,
            w: 0x3f80_0000,
        }),
        atmosphere_basis_vectors()[2] == (Vec4Bits {
            x: 0x3f7e_fd22,
            y: 0x3cfd_c9c5,
            z: 0xbdaa_5f85,
            w: 0x3f80_0000,
        }),
{
}

/// The atmosphere is ready once its table is there and all three of its textures are loaded and
/// not null.
pub proof fn law_the_atmosphere_needs_every_texture(textures: AtmosphereTextures)
    ensures
        !textures.table ==> !textures.ready(),
        !textures.volume_0.loaded || textures.volume_0.null ==> !textures.ready(),
        !textures.volume_1.loaded || textures.volume_1.null ==> !textures.ready(),
        !textures.vertical.loaded || textures.vertical.null ==> !textures.ready(),
        textures.table && textures.volume_0.loaded && !textures.volume_0.null
            && textures.volume_1.loaded && !textures.volume_1.null && textures.vertical.loaded
            && !textures.vertical.null ==> textures.ready(),
{
}

} // verus!
