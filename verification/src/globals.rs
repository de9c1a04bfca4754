//! Render globals: the scopes, pipelines and channels that a package offers.

use crate::channels::{
    channel_defaults, copy_vectors, global_channel_defaults, global_channels,
    parse_shadowkeep_channel_defaults, ChannelDefaultsView, ShadowkeepChannelDefaults, Vec4Bits,
};
use crate::pipelines::{
    CubemapShape, GlobalScope, Pipeline, law_pipelines_are_found_by_their_number,
    law_scope_numbers_are_distinct, PIPELINE_COUNT, SCOPE_COUNT,
};
use crate::tag::{is_tag, tag_is_some};
use crate::text::same_text;
use vstd::prelude::*;

verus! {

/// A name that a package gives a tag.
#[derive(Debug)]
pub struct NamedTag {
    pub name: String,
    pub tag: u32,
}

/// The tag of a name: that of the last entry which has it.
pub open spec fn tag_named(entries: Seq<NamedTag>, name: Seq<char>) -> Option<u32>
    decreases entries.len(),
{
    if entries.len() == 0 {
        None
    } else if entries.last().name@ == name {
        Some(entries.last().tag)
    } else {
        tag_named(entries.drop_last(), name)
    }
}

/// Look up the tag of a name.
pub fn find_tag(entries: &[NamedTag], name: &str) -> (tag: Option<u32>)
    ensures
        tag == tag_named(entries@, name@),
{
    let mut i: usize = entries.len();
    assert(entries@.take(i as int) =~= entries@);
    while i > 0
        invariant
            i <= entries@.len(),
            tag_named(entries@, name@) == tag_named(entries@.take(i as int), name@),
        decreases i,
    {
        i = i - 1;
        assert(entries@.take(i + 1).drop_last() =~= entries@.take(i as int));
        if same_text(entries[i].name.as_str(), name) {
            return Some(entries[i].tag);
        }
    }
    None
}

/// The slot of a scope. Packages list some scopes without a tag; those are
/// unavailable.
#[derive(Clone, Copy, Debug, PartialEq, Eq, Structural)]
pub struct ScopeSlot(pub Option<u32>);

impl ScopeSlot {
    pub fn present(tag: u32) -> (slot: ScopeSlot)
        ensures
            slot == ScopeSlot(Some(tag)),
    {
        ScopeSlot(Some(tag))
    }

    pub fn absent() -> (slot: ScopeSlot)
        ensures
            slot == ScopeSlot(None),
    {
        ScopeSlot(None)
    }

    pub fn is_available(&self) -> (available: bool)
        ensures
            available == (self.0 is Some),
    {
        self.0.is_some()
    }
}

/// The slot of a pipeline. Packages list some pipelines without a tag; those
/// are unavailable.
#[derive(Clone, Copy, Debug, PartialEq, Eq, Structural)]
pub struct PipelineSlot(pub Option<u32>);

impl PipelineSlot {
    pub fn present(tag: u32) -> (slot: PipelineSlot)
        ensures
            slot == PipelineSlot(Some(tag)),
    {
        PipelineSlot(Some(tag))
    }

    pub fn absent() -> (slot: PipelineSlot)
        ensures
            slot == PipelineSlot(None),
    {
        PipelineSlot(None)
    }

    pub fn is_available(&self) -> (available: bool)
        ensures
            available == (self.0 is Some),
    {
        self.0.is_some()
    }
}

/// The tag that a package offers under a name, if it names an entry.
pub open spec fn offered(entries: Seq<NamedTag>, name: Seq<char>) -> Option<u32> {
    match tag_named(entries, name) {
        Some(tag) => if is_tag(tag) {
            Some(tag)
        } else {
            None
        },
        None => None,
    }
}

fn find_offered(entries: &[NamedTag], name: &str) -> (tag: Option<u32>)
    ensures
        tag == offered(entries@, name@),
{
    match find_tag(entries, name) {
        Some(tag) => if tag_is_some(tag) {
            Some(tag)
        } else {
            None
        },
        None => None,
    }
}

/// The global pipelines of a package, by number.
#[derive(Debug)]
pub struct GlobalPipelines {
    pub slots: Vec<PipelineSlot>,
}

impl GlobalPipelines {
    /// Every pipeline has a slot.
    pub open spec fn wf(self) -> bool {
        self.slots@.len() == PIPELINE_COUNT
    }

    /// The slot of a pipeline.
    pub open spec fn slot(self, pipeline: Pipeline) -> PipelineSlot {
        self.slots@[pipeline.number()]
    }

    /// Take the pipelines that a package offers.
    pub fn load_shadowkeep(entries: &[NamedTag]) -> (pipelines: GlobalPipelines)
        ensures
            pipelines.wf(),
            forall|pipeline: Pipeline|
                #[trigger] pipelines.slot(pipeline) == PipelineSlot(
                    offered(entries@, pipeline.label()),
                ),
    {
        let mut slots: Vec<PipelineSlot> = Vec::new();
        let mut i: usize = 0;
        while i < PIPELINE_COUNT
            invariant
                i <= PIPELINE_COUNT,
                slots@.len() == i,
                forall|pipeline: Pipeline|
                    0 <= pipeline.number() < i ==> slots@[#[trigger] pipeline.number()]
                        == PipelineSlot(offered(entries@, pipeline.label())),
            decreases PIPELINE_COUNT - i,
        {
            let pipeline = Pipeline::from_number(i);
            let name = pipeline.name();
            let slot = match find_offered(entries, name.as_str()) {
                Some(tag) => PipelineSlot::present(tag),
                None => PipelineSlot::absent(),
            };
            slots.push(slot);
            proof {
                assert forall|other: Pipeline| 0 <= other.number() < i + 1 implies slots@[
                #[trigger] other.number()] == PipelineSlot(offered(entries@, other.label())) by {
                    law_pipelines_are_found_by_their_number(other);
                    law_pipelines_are_found_by_their_number(pipeline);
                }
            }
            i = i + 1;
        }
        let pipelines = GlobalPipelines { slots };
        proof {
            assert forall|pipeline: Pipeline| #[trigger] pipelines.slot(pipeline)
                == PipelineSlot(offered(entries@, pipeline.label())) by {
                law_pipelines_are_found_by_their_number(pipeline);
            }
        }
        pipelines
    }

    pub fn get(&self, pipeline: Pipeline) -> (slot: PipelineSlot)
        requires
            self.wf(),
        ensures
            slot == self.slot(pipeline),
    {
        self.slots[pipeline.index()]
    }

    fn take(&self, pipeline: Pipeline) -> (technique: u32)
        requires
            self.wf(),
            self.slot(pipeline).0 is Some,
        ensures
            self.slot(pipeline).0 == Some(technique),
    {
        self.get(pipeline).0.unwrap()
    }

    /// The technique that applies a cubemap volume of the given kind, which must be available.
    pub fn get_specialized_cubemap_pipeline(
        &self,
        shape: CubemapShape,
        alpha: bool,
        probes: bool,
        relighting: bool,
        parallax: bool,
    ) -> (technique: u32)
        requires
            self.wf(),
            self.slot(
                Pipeline::CubemapApply { parallax, shape, alpha, probes, relighting },
            ).0 is Some,
        ensures
            self.slot(Pipeline::CubemapApply { parallax, shape, alpha, probes, relighting }).0
                == Some(technique),
    {
        self.take(Pipeline::CubemapApply { parallax, shape, alpha, probes, relighting })
    }

    /// The technique that grades the picture in the given way, which must be available.
    pub fn get_specialized_lut3d_pipeline(&self, distort: bool, hdr: bool, noise: bool) -> (technique:
        u32)
        requires
            self.wf(),
            self.slot(Pipeline::ScreenAreaGlobalLut3d { distort, noise, hdr }).0 is Some,
        ensures
            self.slot(Pipeline::ScreenAreaGlobalLut3d { distort, noise, hdr }).0 == Some(technique),
    {
        self.take(Pipeline::ScreenAreaGlobalLut3d { distort, noise, hdr })
    }
}

/// The global scopes of a package, by number.
#[derive(Debug)]
pub struct GlobalScopes {
    pub slots: Vec<ScopeSlot>,
}

impl GlobalScopes {
    /// Every scope has a slot.
    pub open spec fn wf(self) -> bool {
        self.slots@.len() == SCOPE_COUNT
    }

    pub open spec fn slot(self, scope: GlobalScope) -> ScopeSlot {
        self.slots@[scope.number()]
    }

    /// Take the scopes that a package offers.
    pub fn load_shadowkeep(entries: &[NamedTag]) -> (scopes: GlobalScopes)
        ensures
            scopes.wf(),
            forall|scope: GlobalScope|
                #[trigger] scopes.slot(scope) == ScopeSlot(offered(entries@, scope.label())),
    {
        let mut slots: Vec<ScopeSlot> = Vec::new();
        let mut i: usize = 0;
        while i < SCOPE_COUNT
            invariant
                i <= SCOPE_COUNT,
                slots@.len() == i,
                forall|scope: GlobalScope|
                    0 <= scope.number() < i ==> slots@[#[trigger] scope.number()] == ScopeSlot(
                        offered(entries@, scope.label()),
                    ),
            decreases SCOPE_COUNT - i,
        {
            let scope = GlobalScope::from_number(i);
            let slot = match find_offered(entries, scope.name()) {
                Some(tag) => ScopeSlot::present(tag),
                None => ScopeSlot::absent(),
            };
            slots.push(slot);
            proof {
                assert forall|other: GlobalScope| 0 <= other.number() < i + 1 implies slots@[
                #[trigger] other.number()] == ScopeSlot(offered(entries@, other.label())) by {
                    law_scope_numbers_are_distinct(other, scope);
                }
            }
            i = i + 1;
        }
        let scopes = GlobalScopes { slots };
        proof {
            assert forall|scope: GlobalScope| #[trigger] scopes.slot(scope) == ScopeSlot(
                offered(entries@, scope.label()),
            ) by {
                law_scope_numbers_are_distinct(scope, scope);
            }
        }
        scopes
    }

    pub fn get(&self, scope: GlobalScope) -> (slot: ScopeSlot)
        requires
            self.wf(),
        ensures
            slot == self.slot(scope),
    {
        self.slots[scope.index()]
    }
}

/// The positional channels: their hashes, where known, and their defaults.
#[derive(Debug)]
pub struct GlobalChannels {
    pub channel_ids: Vec<u32>,
    pub default_values: Vec<Vec4Bits>,
}

/// The channels that a payload gives: none where there is no payload, where it
/// does not decode, or where it has more channels than there are positions.
pub open spec fn package_channels(payload: Option<Seq<u8>>) -> Option<ChannelDefaultsView> {
    match payload {
        Some(bytes) => match channel_defaults(bytes) {
            Ok(decoded) => if decoded.array_count <= 256 {
                Some(decoded)
            } else {
                None
            },
            Err(_) => None,
        },
        None => None,
    }
}

pub open spec fn payload_view(payload: Option<&[u8]>) -> Option<Seq<u8>> {
    match payload {
        Some(bytes) => Some(bytes@),
        None => None,
    }
}

impl GlobalChannels {
    /// Take the channels of a payload, or the documented table, without hashes,
    /// where it gives none.
    pub fn load_shadowkeep(payload: Option<&[u8]>) -> (channels: GlobalChannels)
        ensures
            match package_channels(payload_view(payload)) {
                Some(decoded) => channels.channel_ids@ == decoded.channel_hashes
                    && channels.default_values@ == decoded.values,
                None => channels.channel_ids@.len() == 0 && channels.default_values@
                    == global_channels(),
            },
            channels.default_values@.len() <= 256,
    {
        match payload {
            Some(bytes) => match parse_shadowkeep_channel_defaults(bytes) {
                Ok(parsed) => {
                    if parsed.array_count <= 256 {
                        return GlobalChannels {
                            channel_ids: parsed.channel_hashes,
                            default_values: parsed.values,
                        };
                    }
                },
                Err(_) => {},
            },
            None => {},
        }
        let table = global_channel_defaults();
        GlobalChannels {
            channel_ids: Vec::new(),
            default_values: copy_vectors(table.as_slice()),
        }
    }
}

/// Of the entries with a name the last one counts.
pub proof fn law_the_last_of_a_name_counts(entries: Seq<NamedTag>, name: Seq<char>, at: int)
    requires
        0 <= at < entries.len(),
        entries[at].name@ == name,
        forall|i: int| at < i < entries.len() ==> (#[trigger] entries[i]).name@ != name,
    ensures
        tag_named(entries, name) == Some(entries[at].tag),
        is_tag(entries[at].tag) ==> offered(entries, name) == Some(entries[at].tag),
        !is_tag(entries[at].tag) ==> offered(entries, name) is None,
    decreases entries.len(),
{
    if at < entries.len() - 1 {
        assert(entries.last() == entries[entries.len() - 1]);
        law_the_last_of_a_name_counts(entries.drop_last(), name, at);
    }
}

/// A name that no entry has is not found.
pub proof fn law_missing_names_are_not_found(entries: Seq<NamedTag>, name: Seq<char>)
    requires
        forall|i: int| 0 <= i < entries.len() ==> (#[trigger] entries[i]).name@ != name,
    ensures
        tag_named(entries, name) is None,
        offered(entries, name) is None,
    decreases entries.len(),
{
    if entries.len() > 0 {
        assert(entries.last() == entries[entries.len() - 1]);
        law_missing_names_are_not_found(entries.drop_last(), name);
    }
}

} // verus!
