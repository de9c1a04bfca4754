//! What the renderer takes from the packages before it draws: scopes, pipelines, lookup
//! textures, channels and input layouts.

use vstd::prelude::*;

use crate::bootstrap::{
    bootstrap_failure, load_renderer_bootstrap, SClientBootstrapPatchable,
    SShadowkeepLookupTextures, SShadowkeepVertexInputLayouts, ShadowkeepRenderBootstrap,
    ShadowkeepTechniqueRegistry,
};
use crate::globals::{
    offered, package_channels, payload_view, tag_named, GlobalChannels, GlobalPipelines,
    GlobalScopes, PipelineSlot, ScopeSlot,
};
use crate::layouts::{mapped_layouts, InputFormat, LayoutView, ShadowkeepInputLayouts};
use crate::ledger::{bootstrap_capability_ledger, capability_ledger, CapabilityRecord};
use crate::manager::{AssetKind, AssetManager, DiagnosticView, LoadStateView, TextureFallback};
use crate::pipelines::{GlobalScope, Pipeline};
use crate::text::{views, Error};

verus! {

/// Where a lookup texture comes from.
#[derive(Clone, Copy, Debug, PartialEq, Eq, Structural)]
pub enum LookupSource {
    /// The texture under this tag.
    Package { tag: u32 },
    /// One grey texel.
    Neutral,
}

/// The grey texel of a neutral lookup.
pub fn neutral_texel() -> (texel: [u8; 4])
    ensures
        texel@ =~= seq![128u8, 128, 128, 255],
{
    [128, 128, 128, 255]
}

/// The name of a neutral lookup.
pub fn neutral_name(name: &str) -> (text: String)
    ensures
        text@ == "Shadowkeep neutral lookup "@ + name@,
{
    let mut text = String::from_str("Shadowkeep neutral lookup ");
    text.append(name);
    text
}

/// How reading a texture went: the text of what failed, if anything did.
pub type ReadFailure = Option<String>;

/// The lookup textures of a frame. The water lookups came later, so they are always neutral.
#[derive(Clone, Copy, Debug, PartialEq, Eq, Structural)]
pub struct GlobalTextures {
    pub specular_tint_lookup: LookupSource,
    pub specular_lobe_lookup: LookupSource,
    pub specular_lobe_3d_lookup: LookupSource,
    pub iridescence_lookup: LookupSource,
    pub water_displacement_unk00: LookupSource,
    pub water_displacement_unk08: LookupSource,
}

/// How reading each of the four lookup textures went.
#[derive(Debug)]
pub struct LookupReads {
    pub specular_tint: ReadFailure,
    pub specular_lobe: ReadFailure,
    pub specular_lobe_3d: ReadFailure,
    pub iridescence: ReadFailure,
}

pub open spec fn source_of_lookup(tag: u32, failure: ReadFailure) -> LookupSource {
    if failure is None {
        LookupSource::Package { tag }
    } else {
        LookupSource::Neutral
    }
}

/// What is known of a lookup texture that could not be read.
pub open spec fn fallback_record(tag: u32, name: Seq<char>, failure: String) -> DiagnosticView {
    DiagnosticView {
        tag,
        kind: AssetKind::Texture,
        state: LoadStateView::Fallback(TextureFallback::NeutralLookup, name + ": "@ + failure@),
    }
}

/// What is known of a tag after a lookup texture was read.
pub open spec fn known_after_read(
    before: Option<DiagnosticView>,
    lookup: u32,
    name: Seq<char>,
    failure: ReadFailure,
    tag: u32,
) -> Option<DiagnosticView> {
    match failure {
        Some(text) => if tag == lookup {
            Some(fallback_record(lookup, name, text))
        } else {
            before
        },
        None => before,
    }
}

/// What is known of a tag after the four lookup textures were read in turn.
pub open spec fn known_after_reads(
    before: Option<DiagnosticView>,
    tags: SShadowkeepLookupTextures,
    reads: LookupReads,
    tag: u32,
) -> Option<DiagnosticView> {
    let tint = known_after_read(
        before,
        tags.specular_tint_lookup_texture,
        "specular_tint_lookup"@,
        reads.specular_tint,
        tag,
    );
    let lobe = known_after_read(
        tint,
        tags.specular_lobe_lookup_texture,
        "specular_lobe_lookup"@,
        reads.specular_lobe,
        tag,
    );
    let lobe_3d = known_after_read(
        lobe,
        tags.specular_lobe_3d_lookup_texture,
        "specular_lobe_3d_lookup"@,
        reads.specular_lobe_3d,
        tag,
    );
    known_after_read(
        lobe_3d,
        tags.iridescence_lookup_texture,
        "iridescence_lookup"@,
        reads.iridescence,
        tag,
    )
}

fn load_shadowkeep_lookup(manager: &mut AssetManager, tag: u32, name: &str, failure: &ReadFailure) -> (source:
    LookupSource)
    requires
        old(manager).wf(),
    ensures
        source == source_of_lookup(tag, *failure),
        final(manager).wf(),
        forall|other: u32| #[trigger]
            final(manager).known(other) == known_after_read(
                old(manager).known(other),
                tag,
                name@,
                *failure,
                other,
            ),
        final(manager).entries == old(manager).entries,
        final(manager).num_loading == old(manager).num_loading,
{
    match failure {
        None => LookupSource::Package { tag },
        Some(text) => {
            let mut message = String::from_str(name);
            message.append(": ");
            message.append(text.as_str());
            manager.record_fallback(tag, TextureFallback::NeutralLookup, message);
            LookupSource::Neutral
        },
    }
}

impl GlobalTextures {
    /// Takes the lookup textures of a package. One that cannot be read is recorded and replaced
    /// by a neutral one.
    pub fn load_shadowkeep(
        manager: &mut AssetManager,
        tags: &SShadowkeepLookupTextures,
        reads: &LookupReads,
    ) -> (textures: GlobalTextures)
        requires
            old(manager).wf(),
        ensures
            textures == (GlobalTextures {
                specular_tint_lookup: source_of_lookup(
                    tags.specular_tint_lookup_texture,
                    reads.specular_tint,
                ),
                specular_lobe_lookup: source_of_lookup(
                    tags.specular_lobe_lookup_texture,
                    reads.specular_lobe,
                ),
                specular_lobe_3d_lookup: source_of_lookup(
                    tags.specular_lobe_3d_lookup_texture,
                    reads.specular_lobe_3d,
                ),
                iridescence_lookup: source_of_lookup(
                    tags.iridescence_lookup_texture,
                    reads.iridescence,
                ),
                water_displacement_unk00: LookupSource::Neutral,
                water_displacement_unk08: LookupSource::Neutral,
            }),
            final(manager).wf(),
            forall|tag: u32| #[trigger]
                final(manager).known(tag) == known_after_reads(
                    old(manager).known(tag),
                    *tags,
                    *reads,
                    tag,
                ),
            final(manager).entries == old(manager).entries,
            final(manager).num_loading == old(manager).num_loading,
    {
        let specular_tint_lookup = load_shadowkeep_lookup(
            manager,
            tags.specular_tint_lookup_texture,
            "specular_tint_lookup",
            &reads.specular_tint,
        );
        let specular_lobe_lookup = load_shadowkeep_lookup(
            manager,
            tags.specular_lobe_lookup_texture,
            "specular_lobe_lookup",
            &reads.specular_lobe,
        );
        let specular_lobe_3d_lookup = load_shadowkeep_lookup(
            manager,
            tags.specular_lobe_3d_lookup_texture,
            "specular_lobe_3d_lookup",
            &reads.specular_lobe_3d,
        );
        let iridescence_lookup = load_shadowkeep_lookup(
            manager,
            tags.iridescence_lookup_texture,
            "iridescence_lookup",
            &reads.iridescence,
        );
        GlobalTextures {
            specular_tint_lookup,
            specular_lobe_lookup,
            specular_lobe_3d_lookup,
            iridescence_lookup,
            water_displacement_unk00: LookupSource::Neutral,
            water_displacement_unk08: LookupSource::Neutral,
        }
    }
}

/// The shared resources of the renderer.
#[derive(Debug)]
pub struct RenderGlobals {
    pub scopes: GlobalScopes,
    pub pipelines: GlobalPipelines,
    pub textures: GlobalTextures,
    pub channels: GlobalChannels,
}

impl RenderGlobals {
    /// Takes the shared resources that a bootstrap names. `payload` is the payload of its
    /// channel defaults, if it could be read.
    pub fn load_shadowkeep(
        manager: &mut AssetManager,
        bootstrap: &ShadowkeepRenderBootstrap,
        payload: Option<&[u8]>,
        tags: &SShadowkeepLookupTextures,
        reads: &LookupReads,
    ) -> (globals: RenderGlobals)
        requires
            old(manager).wf(),
        ensures
            final(manager).wf(),
            forall|tag: u32| #[trigger]
                final(manager).known(tag) == known_after_reads(
                    old(manager).known(tag),
                    *tags,
                    *reads,
                    tag,
                ),
            globals.scopes.wf(),
            forall|scope: GlobalScope| #[trigger]
                globals.scopes.slot(scope) == ScopeSlot(offered(bootstrap.scopes@, scope.label())),
            globals.pipelines.wf(),
            forall|pipeline: Pipeline| #[trigger]
                globals.pipelines.slot(pipeline) == PipelineSlot(
                    offered(bootstrap.pipelines@, pipeline.label()),
                ),
            match package_channels(payload_view(payload)) {
                Some(decoded) => globals.channels.channel_ids@ == decoded.channel_hashes
                    && globals.channels.default_values@ == decoded.values,
                None => globals.channels.channel_ids@.len() == 0
                    && globals.channels.default_values@ == crate::channels::global_channels(),
            },
            globals.textures == (GlobalTextures {
                specular_tint_lookup: source_of_lookup(
                    tags.specular_tint_lookup_texture,
                    reads.specular_tint,
                ),
                specular_lobe_lookup: source_of_lookup(
                    tags.specular_lobe_lookup_texture,
                    reads.specular_lobe,
                ),
                specular_lobe_3d_lookup: source_of_lookup(
                    tags.specular_lobe_3d_lookup_texture,
                    reads.specular_lobe_3d,
                ),
                iridescence_lookup: source_of_lookup(
                    tags.iridescence_lookup_texture,
                    reads.iridescence,
                ),
                water_displacement_unk00: LookupSource::Neutral,
                water_displacement_unk08: LookupSource::Neutral,
            }),
            final(manager).entries == old(manager).entries,
            final(manager).num_loading == old(manager).num_loading,
    {
        let channels = GlobalChannels::load_shadowkeep(payload);
        RenderGlobals {
            scopes: GlobalScopes::load_shadowkeep(bootstrap.scopes.as_slice()),
            pipelines: GlobalPipelines::load_shadowkeep(bootstrap.pipelines.as_slice()),
            textures: GlobalTextures::load_shadowkeep(manager, tags, reads),
            channels,
        }
    }
}

/// The first stage of making a renderer: what is read before any shared resource.
pub struct ShadowkeepRendererBootstrap {
    pub bootstrap: ShadowkeepRenderBootstrap,
    pub input_layouts: ShadowkeepInputLayouts,
    pub techniques: ShadowkeepTechniqueRegistry,
}

/// Why the first stage fails: for the bootstrap, for layouts that cannot be read, or for a
/// layout that cannot be made.
pub open spec fn first_stage_failure(
    found: Option<&SClientBootstrapPatchable>,
    layouts: Option<&SShadowkeepVertexInputLayouts>,
    semantics: nat,
    formats: Seq<InputFormat>,
) -> Option<Seq<char>> {
    match bootstrap_failure(found) {
        Some(message) => Some(message),
        None => match layouts {
            None => Some("Failed to read Shadowkeep input-layout resource"@),
            Some(stored) => match mapped_layouts(
                stored.mapping.layouts@,
                stored.element_sets.sets@,
                semantics,
                formats,
            ) {
                Err(message) => Some(message),
                Ok(_) => None,
            },
        },
    }
}

impl ShadowkeepRendererBootstrap {
    /// Runs the first stage on what was read. `layouts` is the resource that the bootstrap
    /// names, if it could be read.
    pub fn load(
        found: Option<&SClientBootstrapPatchable>,
        layouts: Option<&SShadowkeepVertexInputLayouts>,
        semantics: usize,
        formats: &[InputFormat],
    ) -> (result: Result<ShadowkeepRendererBootstrap, Error>)
        ensures
            match result {
                Err(error) => first_stage_failure(found, layouts, semantics as nat, formats@)
                    == Some(error@),
                Ok(stage) => {
                    &&& first_stage_failure(found, layouts, semantics as nat, formats@) is None
                    &&& found is Some && stage.bootstrap.describes(*found->Some_0)
                    &&& layouts is Some && mapped_layouts(
                        layouts->Some_0.mapping.layouts@,
                        layouts->Some_0.element_sets.sets@,
                        semantics as nat,
                        formats@,
                    ) == Ok::<Seq<Option<LayoutView>>, Seq<char>>(stage.input_layouts@)
                    &&& forall|name: Seq<char>| #[trigger]
                        tag_named(stage.techniques.scopes@, name) == tag_named(
                            stage.bootstrap.scopes@,
                            name,
                        )
                    &&& forall|name: Seq<char>| #[trigger]
                        tag_named(stage.techniques.techniques@, name) == tag_named(
                            stage.bootstrap.pipelines@,
                            name,
                        )
                },
            },
    {
        let bootstrap = match load_renderer_bootstrap(found) {
            Err(error) => {
                return Err(error);
            },
            Ok(bootstrap) => bootstrap,
        };
        let stored = match layouts {
            None => {
                return Err(
                    Error {
                        message: String::from_str(
                            "Failed to read Shadowkeep input-layout resource",
                        ),
                    },
                );
            },
            Some(stored) => stored,
        };
        let input_layouts = match ShadowkeepInputLayouts::load(stored, semantics, formats) {
            Err(error) => {
                return Err(error);
            },
            Ok(layouts) => layouts,
        };
        let techniques = ShadowkeepTechniqueRegistry::new(&bootstrap);
        Ok(ShadowkeepRendererBootstrap { bootstrap, input_layouts, techniques })
    }

    pub fn capability_ledger(&self) -> (records: Vec<CapabilityRecord>)
        ensures
            views(records@) == capability_ledger(),
    {
        bootstrap_capability_ledger()
    }
}

} // verus!
