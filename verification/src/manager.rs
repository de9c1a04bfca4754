//! The asset cache: which assets were asked for, what became of them, and who
//! still holds them.

use crate::tag::{tag_is_none, NO_TAG};
use crate::tag_map::{new_tag_map, place_of, places, put_place, remove_place, TagMap};
use crate::text::views;
use vstd::prelude::*;

verus! {

#[derive(Clone, Copy, Debug, PartialEq, Eq, Hash, Structural)]
pub enum AssetKind {
    Texture,
    Technique,
    VertexBuffer,
    IndexBuffer,
}

/// What stands in for a texture that could not be had.
#[derive(Clone, Copy, Debug, PartialEq, Eq, Structural)]
pub enum TextureFallback {
    GenericWhite,
    NeutralLookup,
}

/// What became of a request for an asset.
#[derive(Debug)]
pub enum AssetLoadState {
    Queued,
    Loading,
    Ready,
    Failed { error: String },
    Fallback { fallback: TextureFallback, error: String },
}

pub enum LoadStateView {
    Queued,
    Loading,
    Ready,
    Failed(Seq<char>),
    Fallback(TextureFallback, Seq<char>),
}

impl View for AssetLoadState {
    type V = LoadStateView;

    open spec fn view(&self) -> LoadStateView {
        match self {
            AssetLoadState::Queued => LoadStateView::Queued,
            AssetLoadState::Loading => LoadStateView::Loading,
            AssetLoadState::Ready => LoadStateView::Ready,
            AssetLoadState::Failed { error } => LoadStateView::Failed(error@),
            AssetLoadState::Fallback { fallback, error } => LoadStateView::Fallback(
                *fallback,
                error@,
            ),
        }
    }
}

/// What is known of an asset that was asked for.
#[derive(Debug)]
pub struct AssetDiagnostic {
    pub tag: u32,
    pub kind: AssetKind,
    pub state: AssetLoadState,
}

pub struct DiagnosticView {
    pub tag: u32,
    pub kind: AssetKind,
    pub state: LoadStateView,
}

impl View for AssetDiagnostic {
    type V = DiagnosticView;

    open spec fn view(&self) -> DiagnosticView {
        DiagnosticView { tag: self.tag, kind: self.kind, state: self.state@ }
    }
}

/// How many assets are in each state.
#[derive(Clone, Copy, Debug, PartialEq, Eq, Structural)]
pub struct AssetDiagnosticSummary {
    pub queued: usize,
    pub loading: usize,
    pub ready: usize,
    pub failed: usize,
    pub fallback: usize,
}

#[derive(Clone, Copy, Debug, PartialEq, Eq, Structural)]
pub enum AssetEra {
    Current,
    Shadowkeep,
}

/// A request for an asset. The cache holds it while it is cached, and the
/// loader while it is pending.
#[derive(Clone, Copy, Debug, PartialEq, Eq, Structural)]
pub struct AssetEntry {
    pub tag: u32,
    pub kind: AssetKind,
    pub references: usize,
    pub pending: bool,
    pub published: bool,
}

/// The asset cache.
pub struct AssetManager {
    pub assets: TagMap,
    pub entries: Vec<AssetEntry>,
    pub num_loading: usize,
    pub era: AssetEra,
    pub diagnostic_places: TagMap,
    pub diagnostic_list: Vec<AssetDiagnostic>,
}

/// Half a second in nanoseconds.
pub const HALF_SECOND: u128 = 500_000_000;

/// How many requests are pending.
pub open spec fn pending_count(entries: Seq<AssetEntry>) -> nat
    decreases entries.len(),
{
    if entries.len() == 0 {
        0
    } else {
        pending_count(entries.drop_last()) + if entries.last().pending {
            1nat
        } else {
            0
        }
    }
}

proof fn lemma_pending_update(entries: Seq<AssetEntry>, i: int, entry: AssetEntry)
    requires
        0 <= i < entries.len(),
    ensures
        pending_count(entries.update(i, entry)) + (if entries[i].pending {
            1int
        } else {
            0
        }) == pending_count(entries) + (if entry.pending {
            1int
        } else {
            0
        }),
    decreases entries.len(),
{
    let changed = entries.update(i, entry);
    if i == entries.len() - 1 {
        assert(changed.drop_last() =~= entries.drop_last());
    } else {
        assert(changed.drop_last() =~= entries.drop_last().update(i, entry));
        lemma_pending_update(entries.drop_last(), i, entry);
    }
}

proof fn lemma_pending_bound(entries: Seq<AssetEntry>)
    ensures
        pending_count(entries) <= entries.len(),
    decreases entries.len(),
{
    if entries.len() > 0 {
        lemma_pending_bound(entries.drop_last());
    }
}

impl AssetManager {
    /// The cache holds the request at place `i`.
    pub open spec fn is_cached(self, i: int) -> bool {
        &&& 0 <= i < self.entries@.len()
        &&& places(self.assets).contains_key(self.entries@[i].tag)
        &&& places(self.assets)[self.entries@[i].tag] == i
    }

    /// How often the cache and the loader hold the request at place `i`.
    pub open spec fn internal_references(self, i: int) -> int {
        (if self.is_cached(i) {
            1int
        } else {
            0
        }) + (if self.entries@[i].pending {
            1int
        } else {
            0
        })
    }

    /// Cached tags lead to their requests, the holders are counted, and every
    /// diagnostic is found under its own tag.
    pub open spec fn wf(self) -> bool {
        &&& forall|tag: u32|
            #![trigger places(self.assets)[tag]]
            places(self.assets).contains_key(tag) ==> places(self.assets)[tag]
                < self.entries@.len() && self.entries@[places(self.assets)[tag] as int].tag == tag
        &&& forall|i: int|
            0 <= i < self.entries@.len() ==> (#[trigger] self.entries@[i]).references
                >= self.internal_references(i)
        &&& self.num_loading == pending_count(self.entries@)
        &&& self.diagnostics_wf()
    }

    pub open spec fn diagnostics_wf(self) -> bool {
        &&& forall|tag: u32|
            #![trigger places(self.diagnostic_places)[tag]]
            places(self.diagnostic_places).contains_key(tag) ==> places(
                self.diagnostic_places,
            )[tag] < self.diagnostic_list@.len() && self.diagnostic_list@[places(
                self.diagnostic_places,
            )[tag] as int].tag == tag
        &&& forall|i: int|
            0 <= i < self.diagnostic_list@.len() ==> places(
                self.diagnostic_places,
            ).contains_key((#[trigger] self.diagnostic_list@[i]).tag) && places(
                self.diagnostic_places,
            )[self.diagnostic_list@[i].tag] == i
    }

    /// No holder count is at the limit.
    pub open spec fn references_fit(self) -> bool {
        forall|i: int|
            0 <= i < self.entries@.len() ==> (#[trigger] self.entries@[i]).references < usize::MAX
    }

    /// What is known of a tag.
    pub open spec fn known(self, tag: u32) -> Option<DiagnosticView> {
        if places(self.diagnostic_places).contains_key(tag) {
            Some(self.diagnostic_list@[places(self.diagnostic_places)[tag] as int]@)
        } else {
            None
        }
    }

    /// The cached request for a tag.
    pub open spec fn cached(self, tag: u32) -> Option<AssetEntry> {
        if places(self.assets).contains_key(tag) {
            Some(self.entries@[places(self.assets)[tag] as int])
        } else {
            None
        }
    }

    pub fn new_for_era(era: AssetEra) -> (manager: Self)
        ensures
            manager.wf(),
            manager.references_fit(),
            manager.era == era,
            manager.num_loading == 0,
            manager.entries@.len() == 0,
            forall|tag: u32| #[trigger] manager.known(tag) is None,
            forall|tag: u32| #[trigger] manager.cached(tag) is None,
    {
        AssetManager {
            assets: new_tag_map(),
            entries: Vec::new(),
            num_loading: 0,
            era,
            diagnostic_places: new_tag_map(),
            diagnostic_list: Vec::new(),
        }
    }

    pub fn new() -> (manager: Self)
        ensures
            manager.wf(),
            manager.references_fit(),
            manager.era == AssetEra::Current,
            manager.num_loading == 0,
            manager.entries@.len() == 0,
            forall|tag: u32| #[trigger] manager.known(tag) is None,
            forall|tag: u32| #[trigger] manager.cached(tag) is None,
    {
        AssetManager::new_for_era(AssetEra::Current)
    }

    pub fn new_shadowkeep() -> (manager: Self)
        ensures
            manager.wf(),
            manager.references_fit(),
            manager.era == AssetEra::Shadowkeep,
            manager.num_loading == 0,
            manager.entries@.len() == 0,
            forall|tag: u32| #[trigger] manager.known(tag) is None,
            forall|tag: u32| #[trigger] manager.cached(tag) is None,
    {
        AssetManager::new_for_era(AssetEra::Shadowkeep)
    }

    pub fn era(&self) -> (era: AssetEra)
        ensures
            era == self.era,
    {
        self.era
    }

    /// How many requests have not finished.
    pub fn count_loading(&self) -> (count: usize)
        requires
            self.wf(),
        ensures
            count == pending_count(self.entries@),
    {
        self.num_loading
    }

    /// Nothing is being loaded and nothing was asked for during the last half
    /// second.
    pub fn is_idle(&self, nanoseconds_since_last_load: u128) -> (idle: bool)
        requires
            self.wf(),
        ensures
            idle == (pending_count(self.entries@) == 0 && nanoseconds_since_last_load > HALF_SECOND),
    {
        self.num_loading == 0 && nanoseconds_since_last_load > HALF_SECOND
    }

    /// Record what became of an asset, in place of what was known of it.
    fn set_diagnostic(&mut self, tag: u32, kind: AssetKind, state: AssetLoadState)
        requires
            old(self).diagnostics_wf(),
        ensures
            final(self).diagnostics_wf(),
            final(self).assets == old(self).assets,
            final(self).entries == old(self).entries,
            final(self).num_loading == old(self).num_loading,
            final(self).era == old(self).era,
            final(self).known(tag) == Some(DiagnosticView { tag, kind, state: state@ }),
            forall|other: u32| other != tag ==> #[trigger] final(self).known(other) == old(
                self,
            ).known(other),
    {
        let diagnostic = AssetDiagnostic { tag, kind, state };
        match place_of(&self.diagnostic_places, tag) {
            Some(place) => {
                self.diagnostic_list.set(place, diagnostic);
            },
            None => {
                let place: usize = self.diagnostic_list.len();
                put_place(&mut self.diagnostic_places, tag, place);
                self.diagnostic_list.push(diagnostic);
            },
        }
    }

    /// Record that something stands in for a texture.
    pub fn record_fallback(&mut self, tag: u32, fallback: TextureFallback, error: String)
        requires
            old(self).wf(),
        ensures
            final(self).wf(),
            final(self).assets == old(self).assets,
            final(self).entries == old(self).entries,
            final(self).num_loading == old(self).num_loading,
            final(self).era == old(self).era,
            final(self).known(tag) == Some(
                DiagnosticView {
                    tag,
                    kind: AssetKind::Texture,
                    state: LoadStateView::Fallback(fallback, error@),
                },
            ),
            forall|other: u32| other != tag ==> #[trigger] final(self).known(other) == old(
                self,
            ).known(other),
    {
        self.set_diagnostic(tag, AssetKind::Texture, AssetLoadState::Fallback { fallback, error });
        assert(forall|i: int| self.internal_references(i) == old(self).internal_references(i));
    }

    /// One more holds the request at `place`.
    pub fn acquire(&mut self, place: usize)
        requires
            old(self).wf(),
            place < old(self).entries@.len(),
            old(self).entries@[place as int].references < usize::MAX,
        ensures
            final(self).wf(),
            final(self).entries@ == old(self).entries@.update(
                place as int,
                (AssetEntry {
                    references: (old(self).entries@[place as int].references + 1) as usize,
                    ..old(self).entries@[place as int]
                }),
            ),
            final(self).same_but_entries(*old(self)),
    {
        let entry = self.entries[place];
        let changed = AssetEntry { references: entry.references + 1, ..entry };
        proof {
            lemma_pending_update(self.entries@, place as int, changed);
        }
        self.entries.set(place, changed);
    }

    /// One fewer holds the request at `place`. The cache and the loader keep
    /// theirs.
    pub fn release(&mut self, place: usize)
        requires
            old(self).wf(),
            place < old(self).entries@.len(),
            old(self).entries@[place as int].references > old(self).internal_references(
                place as int,
            ),
        ensures
            final(self).wf(),
            final(self).entries@ == old(self).entries@.update(
                place as int,
                (AssetEntry {
                    references: (old(self).entries@[place as int].references - 1) as usize,
                    ..old(self).entries@[place as int]
                }),
            ),
            final(self).same_but_entries(*old(self)),
    {
        let entry = self.entries[place];
        let changed = AssetEntry { references: entry.references - 1, ..entry };
        proof {
            lemma_pending_update(self.entries@, place as int, changed);
        }
        self.entries.set(place, changed);
    }

    /// Everything but the requests is the same.
    pub open spec fn same_but_entries(self, other: AssetManager) -> bool {
        &&& self.assets == other.assets
        &&& self.num_loading == other.num_loading
        &&& self.era == other.era
        &&& self.diagnostic_places == other.diagnostic_places
        &&& self.diagnostic_list == other.diagnostic_list
    }

    /// The cached request for an asset of the given kind, with one more holder.
    pub fn get(&mut self, kind: AssetKind, tag: u32) -> (found: Option<usize>)
        requires
            old(self).wf(),
            old(self).references_fit(),
        ensures
            final(self).wf(),
            match found {
                Some(place) => {
                    &&& places(old(self).assets).contains_key(tag)
                    &&& place == places(old(self).assets)[tag]
                    &&& old(self).entries@[place as int].kind == kind
                    &&& final(self).entries@ == old(self).entries@.update(
                        place as int,
                        (AssetEntry {
                            references: (old(self).entries@[place as int].references + 1) as usize,
                            ..old(self).entries@[place as int]
                        }),
                    )
                    &&& final(self).same_but_entries(*old(self))
                },
                None => {
                    &&& !(old(self).cached(tag) matches Some(entry) && entry.kind == kind)
                    &&& *final(self) == *old(self)
                },
            },
    {
        match place_of(&self.assets, tag) {
            Some(place) => {
                if self.entries[place].kind == kind {
                    self.acquire(place);
                    Some(place)
                } else {
                    None
                }
            },
            None => None,
        }
    }

    /// The cached request for a tag has one more holder than before.
    pub open spec fn shares(self, before: AssetManager, tag: u32, place: usize) -> bool {
        &&& place == places(before.assets)[tag]
        &&& self.entries@ == before.entries@.update(
            place as int,
            (AssetEntry {
                references: (before.entries@[place as int].references + 1) as usize,
                ..before.entries@[place as int]
            }),
        )
        &&& self.same_but_entries(before)
    }

    /// A new request is cached behind those from before, and held by the cache, the loader and
    /// the caller.
    pub open spec fn queues(
        self,
        before: AssetManager,
        kind: AssetKind,
        tag: u32,
        place: usize,
    ) -> bool {
        &&& place == before.entries@.len()
        &&& self.entries@ == before.entries@.push(
            (AssetEntry { tag, kind, references: 3, pending: true, published: false }),
        )
        &&& places(self.assets) == places(before.assets).insert(tag, place)
        &&& self.num_loading == before.num_loading + 1
        &&& self.era == before.era
        &&& self.known(tag) == Some(DiagnosticView { tag, kind, state: LoadStateView::Queued })
        &&& forall|other: u32|
            other != tag ==> #[trigger] self.known(other) == before.known(other)
    }

    /// Ask for an asset. A null tag gives nothing. A cached asset of the same
    /// kind is shared, one of another kind refused. Anything else is queued: it
    /// is cached, and held by the cache, the loader and the caller.
    pub fn try_load(&mut self, kind: AssetKind, tag: u32) -> (outcome: LoadOutcome)
        requires
            old(self).wf(),
            old(self).references_fit(),
            old(self).entries@.len() < usize::MAX,
        ensures
            final(self).wf(),
            outcome == LoadOutcome::Null <==> tag == NO_TAG,
            outcome == LoadOutcome::WrongKind <==> tag != NO_TAG && (old(self).cached(
                tag,
            ) matches Some(entry) && entry.kind != kind),
            outcome is Cached <==> tag != NO_TAG && (old(self).cached(tag) matches Some(entry)
                && entry.kind == kind),
            outcome is Queued <==> tag != NO_TAG && old(self).cached(tag) is None,
            match outcome {
                LoadOutcome::Null => *final(self) == *old(self),
                LoadOutcome::WrongKind => *final(self) == *old(self),
                LoadOutcome::Cached { place } => final(self).shares(*old(self), tag, place),
                LoadOutcome::Queued { place } => final(self).queues(*old(self), kind, tag, place),
            },
    {
        if tag_is_none(tag) {
            return LoadOutcome::Null;
        }
        match place_of(&self.assets, tag) {
            Some(place) => {
                if self.entries[place].kind == kind {
                    self.acquire(place);
                    LoadOutcome::Cached { place }
                } else {
                    LoadOutcome::WrongKind
                }
            },
            None => {
                let place: usize = self.entries.len();
                let entry = AssetEntry {
                    tag,
                    kind,
                    references: 3,
                    pending: true,
                    published: false,
                };
                let ghost before = *self;
                proof {
                    lemma_pending_bound(self.entries@);
                    assert(self.entries@.push(entry).drop_last() =~= self.entries@);
                }
                self.entries.push(entry);
                put_place(&mut self.assets, tag, place);
                self.num_loading = self.num_loading + 1;
                self.set_diagnostic(tag, kind, AssetLoadState::Queued);
                proof {
                    assert forall|i: int| 0 <= i < self.entries@.len() implies (
                    #[trigger] self.entries@[i]).references >= self.internal_references(i) by {
                        if i < place {
                            assert(before.entries@[i] == self.entries@[i]);
                            assert(self.internal_references(i) <= before.internal_references(i));
                        }
                    }
                }
                LoadOutcome::Queued { place }
            },
        }
    }

    /// Ask for an asset. `None` stands for the null asset.
    pub fn load(&mut self, kind: AssetKind, tag: u32) -> (place: Option<usize>)
        requires
            old(self).wf(),
            old(self).references_fit(),
            old(self).entries@.len() < usize::MAX,
        ensures
            final(self).wf(),
            place is None <==> tag == NO_TAG || (old(self).cached(tag) matches Some(entry)
                && entry.kind != kind),
            match place {
                None => *final(self) == *old(self),
                Some(at) => if old(self).cached(tag) is Some {
                    final(self).shares(*old(self), tag, at)
                } else {
                    final(self).queues(*old(self), kind, tag, at)
                },
            },
    {
        match self.try_load(kind, tag) {
            LoadOutcome::Cached { place } => Some(place),
            LoadOutcome::Queued { place } => Some(place),
            _ => None,
        }
    }

    /// The loader takes up the request at `place`.
    pub fn start_loading(&mut self, place: usize)
        requires
            old(self).wf(),
            place < old(self).entries@.len(),
        ensures
            final(self).wf(),
            final(self).assets == old(self).assets,
            final(self).entries == old(self).entries,
            final(self).num_loading == old(self).num_loading,
            final(self).era == old(self).era,
            final(self).known(old(self).entries@[place as int].tag) == Some(
                DiagnosticView {
                    tag: old(self).entries@[place as int].tag,
                    kind: old(self).entries@[place as int].kind,
                    state: LoadStateView::Loading,
                },
            ),
            forall|other: u32|
                other != old(self).entries@[place as int].tag ==> #[trigger] final(self).known(
                    other,
                ) == old(self).known(other),
    {
        let entry = self.entries[place];
        self.set_diagnostic(entry.tag, entry.kind, AssetLoadState::Loading);
        assert(forall|i: int| self.internal_references(i) == old(self).internal_references(i));
    }

    /// The loader is done with the request at `place`. A loaded asset is
    /// published. Of a failure, the message is kept, and the asset is neither
    /// published nor replaced.
    pub fn finish_loading(&mut self, place: usize, result: Result<(), String>)
        requires
            old(self).wf(),
            place < old(self).entries@.len(),
            old(self).entries@[place as int].pending,
        ensures
            final(self).wf(),
            final(self).assets == old(self).assets,
            final(self).era == old(self).era,
            final(self).num_loading == old(self).num_loading - 1,
            final(self).entries@ == old(self).entries@.update(
                place as int,
                (AssetEntry {
                    references: (old(self).entries@[place as int].references - 1) as usize,
                    pending: false,
                    published: old(self).entries@[place as int].published || result is Ok,
                    ..old(self).entries@[place as int]
                }),
            ),
            final(self).known(old(self).entries@[place as int].tag) == Some(
                DiagnosticView {
                    tag: old(self).entries@[place as int].tag,
                    kind: old(self).entries@[place as int].kind,
                    state: match result {
                        Ok(_) => LoadStateView::Ready,
                        Err(error) => LoadStateView::Failed(error@),
                    },
                },
            ),
            forall|other: u32|
                other != old(self).entries@[place as int].tag ==> #[trigger] final(self).known(
                    other,
                ) == old(self).known(other),
    {
        let entry = self.entries[place];
        let mut published: bool = entry.published;
        match result {
            Ok(_) => {
                published = true;
                self.set_diagnostic(entry.tag, entry.kind, AssetLoadState::Ready);
            },
            Err(error) => {
                self.set_diagnostic(entry.tag, entry.kind, AssetLoadState::Failed { error });
            },
        }
        let ghost noted = *self;
        proof {
            assert(old(self).internal_references(place as int) >= 1);
        }
        let changed = AssetEntry {
            tag: entry.tag,
            kind: entry.kind,
            references: entry.references - 1,
            pending: false,
            published,
        };
        proof {
            lemma_pending_update(self.entries@, place as int, changed);
        }
        self.entries.set(place, changed);
        self.num_loading = self.num_loading - 1;
        proof {
            assert forall|i: int| 0 <= i < self.entries@.len() implies (
            #[trigger] self.entries@[i]).references >= self.internal_references(i) by {
                assert(old(self).entries@[i].references >= old(self).internal_references(i));
            }
            assert forall|other: u32| other != entry.tag implies #[trigger] self.known(other)
                == old(self).known(other) by {
                assert(self.known(other) == noted.known(other));
            }
        }
    }

    /// Drop from the cache what nobody else holds.
    pub fn remove_unreferenced(&mut self)
        requires
            old(self).wf(),
        ensures
            final(self).wf(),
            final(self).entries == old(self).entries,
            final(self).num_loading == old(self).num_loading,
            final(self).era == old(self).era,
            final(self).diagnostic_places == old(self).diagnostic_places,
            final(self).diagnostic_list == old(self).diagnostic_list,
            forall|tag: u32| #[trigger]
                final(self).cached(tag) == match old(self).cached(tag) {
                    Some(entry) => if entry.references > 1 {
                        Some(entry)
                    } else {
                        None
                    },
                    None => None,
                },
    {
        let ghost before = *self;
        let mut i: usize = 0;
        while i < self.entries.len()
            invariant
                before.wf(),
                i <= before.entries@.len(),
                self.entries == before.entries,
                self.num_loading == before.num_loading,
                self.era == before.era,
                self.diagnostic_places == before.diagnostic_places,
                self.diagnostic_list == before.diagnostic_list,
                forall|tag: u32|
                    #![trigger places(self.assets).contains_key(tag)]
                    places(self.assets).contains_key(tag) <==> places(before.assets).contains_key(
                        tag,
                    ) && (places(before.assets)[tag] >= i || before.entries@[places(
                        before.assets,
                    )[tag] as int].references > 1),
                forall|tag: u32|
                    #![trigger places(self.assets)[tag]]
                    places(self.assets).contains_key(tag) ==> places(self.assets)[tag] == places(
                        before.assets,
                    )[tag],
            decreases before.entries@.len() - i,
        {
            if self.entries[i].references <= 1 {
                let tag: u32 = self.entries[i].tag;
                match place_of(&self.assets, tag) {
                    Some(place) => {
                        if place == i {
                            let ghost held = places(self.assets);
                            remove_place(&mut self.assets, tag);
                            assert forall|other: u32|
                                #![trigger places(self.assets).contains_key(other)]
                                places(self.assets).contains_key(other) <==> places(
                                    before.assets,
                                ).contains_key(other) && (places(before.assets)[other] >= i + 1
                                    || before.entries@[places(
                                    before.assets,
                                )[other] as int].references > 1) by {
                                assert(held.contains_key(other) || !held.contains_key(other));
                                if places(before.assets).contains_key(other) && places(
                                    before.assets,
                                )[other] == i {
                                    assert(before.entries@[i as int].tag == other);
                                }
                            }
                            assert forall|other: u32|
                                #![trigger places(self.assets)[other]]
                                places(self.assets).contains_key(other) implies places(
                                self.assets,
                            )[other] == places(before.assets)[other] by {
                                assert(held[other] == places(before.assets)[other]);
                            }
                        }
                    },
                    None => {},
                }
            }
            i = i + 1;
            proof {
                assert forall|other: u32|
                    #![trigger places(self.assets).contains_key(other)]
                    places(self.assets).contains_key(other) <==> places(
                        before.assets,
                    ).contains_key(other) && (places(before.assets)[other] >= i
                        || before.entries@[places(before.assets)[other] as int].references > 1) by {
                    if places(before.assets).contains_key(other) && places(before.assets)[other]
                        == i - 1 {
                        assert(before.entries@[i - 1].tag == other);
                    }
                }
            }
        }
        proof {
            assert forall|k: int| 0 <= k < self.entries@.len() implies (
            #[trigger] self.entries@[k]).references >= self.internal_references(k) by {
                assert(before.entries@[k].references >= before.internal_references(k));
            }
            assert forall|tag: u32| #[trigger] self.cached(tag) == match before.cached(tag) {
                Some(entry) => if entry.references > 1 {
                    Some(entry)
                } else {
                    None
                },
                None => None,
            } by {
                assert(places(self.assets).contains_key(tag) <==> places(
                    before.assets,
                ).contains_key(tag) && (places(before.assets)[tag] >= i || before.entries@[places(
                    before.assets,
                )[tag] as int].references > 1));
                if places(self.assets).contains_key(tag) {
                    assert(places(self.assets)[tag] == places(before.assets)[tag]);
                }
            }
        }
    }
}

/// How many diagnostics have a property.
pub open spec fn diagnostic_count(
    diagnostics: Seq<AssetDiagnostic>,
    property: spec_fn(LoadStateView) -> bool,
) -> nat
    decreases diagnostics.len(),
{
    if diagnostics.len() == 0 {
        0
    } else {
        diagnostic_count(diagnostics.drop_last(), property) + if property(
            diagnostics.last().state@,
        ) {
            1nat
        } else {
            0
        }
    }
}

/// How many diagnostics are in each state.
pub open spec fn summary_of(diagnostics: Seq<AssetDiagnostic>) -> AssetDiagnosticSummary {
    AssetDiagnosticSummary {
        queued: diagnostic_count(diagnostics, |state: LoadStateView| state is Queued) as usize,
        loading: diagnostic_count(diagnostics, |state: LoadStateView| state is Loading) as usize,
        ready: diagnostic_count(diagnostics, |state: LoadStateView| state is Ready) as usize,
        failed: diagnostic_count(diagnostics, |state: LoadStateView| state is Failed) as usize,
        fallback: diagnostic_count(diagnostics, |state: LoadStateView| state is Fallback) as usize,
    }
}

/// Every diagnostic is counted in exactly one state.
pub proof fn law_summary_counts_every_diagnostic(diagnostics: Seq<AssetDiagnostic>)
    ensures
        diagnostic_count(diagnostics, |state: LoadStateView| state is Queued) + diagnostic_count(
            diagnostics,
            |state: LoadStateView| state is Loading,
        ) + diagnostic_count(diagnostics, |state: LoadStateView| state is Ready)
            + diagnostic_count(diagnostics, |state: LoadStateView| state is Failed)
            + diagnostic_count(diagnostics, |state: LoadStateView| state is Fallback)
            == diagnostics.len(),
    decreases diagnostics.len(),
{
    if diagnostics.len() > 0 {
        law_summary_counts_every_diagnostic(diagnostics.drop_last());
    }
}

fn copy_state(state: &AssetLoadState) -> (copied: AssetLoadState)
    ensures
        copied@ == state@,
{
    match state {
        AssetLoadState::Queued => AssetLoadState::Queued,
        AssetLoadState::Loading => AssetLoadState::Loading,
        AssetLoadState::Ready => AssetLoadState::Ready,
        AssetLoadState::Failed { error } => AssetLoadState::Failed { error: error.clone() },
        AssetLoadState::Fallback { fallback, error } => AssetLoadState::Fallback {
            fallback: *fallback,
            error: error.clone(),
        },
    }
}

/// The diagnostics rise by tag.
pub open spec fn sorted_by_tag(diagnostics: Seq<DiagnosticView>) -> bool {
    forall|i: int, j: int|
        0 <= i < j < diagnostics.len() ==> (#[trigger] diagnostics[i]).tag < (
        #[trigger] diagnostics[j]).tag
}

impl AssetManager {
    /// How many assets are in each state.
    pub fn diagnostic_summary(&self) -> (summary: AssetDiagnosticSummary)
        ensures
            summary == summary_of(self.diagnostic_list@),
    {
        let ghost is_queued = |state: LoadStateView| state is Queued;
        let ghost is_loading = |state: LoadStateView| state is Loading;
        let ghost is_ready = |state: LoadStateView| state is Ready;
        let ghost is_failed = |state: LoadStateView| state is Failed;
        let ghost is_fallback = |state: LoadStateView| state is Fallback;
        let mut summary = AssetDiagnosticSummary {
            queued: 0,
            loading: 0,
            ready: 0,
            failed: 0,
            fallback: 0,
        };
        let list = &self.diagnostic_list;
        let mut i: usize = 0;
        while i < list.len()
            invariant
                i <= list@.len(),
                is_queued == (|state: LoadStateView| state is Queued),
                is_loading == (|state: LoadStateView| state is Loading),
                is_ready == (|state: LoadStateView| state is Ready),
                is_failed == (|state: LoadStateView| state is Failed),
                is_fallback == (|state: LoadStateView| state is Fallback),
                summary.queued == diagnostic_count(list@.take(i as int), is_queued),
                summary.loading == diagnostic_count(list@.take(i as int), is_loading),
                summary.ready == diagnostic_count(list@.take(i as int), is_ready),
                summary.failed == diagnostic_count(list@.take(i as int), is_failed),
                summary.fallback == diagnostic_count(list@.take(i as int), is_fallback),
                summary.queued <= i,
                summary.loading <= i,
                summary.ready <= i,
                summary.failed <= i,
                summary.fallback <= i,
            decreases list@.len() - i,
        {
            assert(list@.take(i + 1).drop_last() =~= list@.take(i as int));
            match &list[i].state {
                AssetLoadState::Queued => {
                    summary.queued = summary.queued + 1;
                },
                AssetLoadState::Loading => {
                    summary.loading = summary.loading + 1;
                },
                AssetLoadState::Ready => {
                    summary.ready = summary.ready + 1;
                },
                AssetLoadState::Failed { .. } => {
                    summary.failed = summary.failed + 1;
                },
                AssetLoadState::Fallback { .. } => {
                    summary.fallback = summary.fallback + 1;
                },
            }
            i = i + 1;
        }
        assert(list@.take(list@.len() as int) =~= list@);
        summary
    }

    /// What is known of every asset that was asked for, in order of tags.
    pub fn diagnostics(&self) -> (listed: Vec<AssetDiagnostic>)
        requires
            self.wf(),
        ensures
            lists_known(*self, views(listed@)),
    {
        let list = &self.diagnostic_list;
        let mut listed: Vec<AssetDiagnostic> = Vec::new();
        let mut i: usize = 0;
        while i < list.len()
            invariant
                i <= list@.len(),
                self.diagnostics_wf(),
                list == self.diagnostic_list,
                sorted_by_tag(views(listed@)),
                forall|view: DiagnosticView| #[trigger]
                    views(listed@).contains(view) <==> exists|j: int|
                        0 <= j < i && (#[trigger] list@[j])@ == view,
            decreases list@.len() - i,
        {
            let tag: u32 = list[i].tag;
            let ghost before = views(listed@);
            let mut at: usize = 0;
            while at < listed.len() && listed[at].tag < tag
                invariant
                    at <= listed@.len(),
                    before == views(listed@),
                    forall|k: int| 0 <= k < at ==> (#[trigger] before[k]).tag < tag,
                decreases listed@.len() - at,
            {
                assert(before[at as int] == listed@[at as int]@);
                at = at + 1;
            }
            proof {
                assert forall|k: int| 0 <= k < before.len() implies (#[trigger] before[k]).tag
                    != tag by {
                    assert(before.contains(before[k]));
                    let j = choose|j: int| 0 <= j < i && (#[trigger] list@[j])@ == before[k];
                    assert(list@[i as int].tag == tag);
                    assert(places(self.diagnostic_places)[list@[j].tag] == j);
                    assert(places(self.diagnostic_places)[list@[i as int].tag] == i);
                }
                if at < before.len() {
                    assert(before[at as int] == listed@[at as int]@);
                }
            }
            let diagnostic = AssetDiagnostic {
                tag,
                kind: list[i].kind,
                state: copy_state(&list[i].state),
            };
            listed.insert(at, diagnostic);
            proof {
                let after = views(listed@);
                let view = list@[i as int]@;
                assert(after =~= before.insert(at as int, view));
                assert forall|a: int, b: int| 0 <= a < b < after.len() implies (
                #[trigger] after[a]).tag < (#[trigger] after[b]).tag by {
                    let x = if a < at {
                        before[a]
                    } else if a == at {
                        view
                    } else {
                        before[a - 1]
                    };
                    let y = if b < at {
                        before[b]
                    } else if b == at {
                        view
                    } else {
                        before[b - 1]
                    };
                    assert(after[a] == x && after[b] == y);
                    if a == at && b > at + 1 {
                        assert(before[at as int].tag < before[b - 1].tag);
                    }
                }
                assert forall|other: DiagnosticView| #[trigger] after.contains(other) <==> exists|
                    j: int,
                | 0 <= j < i + 1 && (#[trigger] list@[j])@ == other by {
                    if after.contains(other) {
                        let k = choose|k: int| 0 <= k < after.len() && after[k] == other;
                        if k == at {
                            assert(list@[i as int]@ == other);
                        } else {
                            let k2 = if k < at {
                                k
                            } else {
                                k - 1
                            };
                            assert(before[k2] == other);
                            assert(before.contains(other));
                            let j = choose|j: int| 0 <= j < i && (#[trigger] list@[j])@ == other;
                            assert(list@[j]@ == other);
                        }
                    }
                    if exists|j: int| 0 <= j < i + 1 && (#[trigger] list@[j])@ == other {
                        let j = choose|j: int| 0 <= j < i + 1 && (#[trigger] list@[j])@ == other;
                        if j == i {
                            assert(after[at as int] == other);
                        } else {
                            assert(before.contains(other));
                            let k = choose|k: int| 0 <= k < before.len() && before[k] == other;
                            if k < at {
                                assert(after[k] == other);
                            } else {
                                assert(after[k + 1] == other);
                            }
                        }
                    }
                }
            }
            i = i + 1;
        }
        proof {
            assert forall|view: DiagnosticView| #[trigger] views(listed@).contains(view)
                <==> self.known(view.tag) == Some(view) by {
                if views(listed@).contains(view) {
                    let j = choose|j: int| 0 <= j < list@.len() && (#[trigger] list@[j])@ == view;
                    assert(places(self.diagnostic_places)[list@[j].tag] == j);
                }
                if self.known(view.tag) == Some(view) {
                    let j = places(self.diagnostic_places)[view.tag] as int;
                    assert(list@[j]@ == view);
                }
            }
        }
        listed
    }
}

/// How many of the listed diagnostics have a property.
pub open spec fn listed_count(
    listed: Seq<DiagnosticView>,
    property: spec_fn(LoadStateView) -> bool,
) -> nat
    decreases listed.len(),
{
    if listed.len() == 0 {
        0
    } else {
        listed_count(listed.drop_last(), property) + if property(listed.last().state) {
            1nat
        } else {
            0
        }
    }
}

proof fn lemma_count_of_views(
    diagnostics: Seq<AssetDiagnostic>,
    property: spec_fn(LoadStateView) -> bool,
)
    ensures
        listed_count(views(diagnostics), property) == diagnostic_count(diagnostics, property),
    decreases diagnostics.len(),
{
    if diagnostics.len() > 0 {
        lemma_count_of_views(diagnostics.drop_last(), property);
        assert(views(diagnostics).drop_last() =~= views(diagnostics.drop_last()));
    }
}

proof fn lemma_count_without(
    listed: Seq<DiagnosticView>,
    property: spec_fn(LoadStateView) -> bool,
    at: int,
)
    requires
        0 <= at < listed.len(),
    ensures
        listed_count(listed, property) == listed_count(listed.remove(at), property) + (if property(
            listed[at].state,
        ) {
            1nat
        } else {
            0
        }),
    decreases listed.len(),
{
    if at == listed.len() - 1 {
        assert(listed.remove(at) =~= listed.drop_last());
    } else {
        lemma_count_without(listed.drop_last(), property, at);
        assert(listed.remove(at).drop_last() =~= listed.drop_last().remove(at));
    }
}

proof fn lemma_same_items_same_count(
    first: Seq<DiagnosticView>,
    second: Seq<DiagnosticView>,
    property: spec_fn(LoadStateView) -> bool,
)
    requires
        first.no_duplicates(),
        second.no_duplicates(),
        forall|view: DiagnosticView| #[trigger] first.contains(view) <==> second.contains(view),
    ensures
        listed_count(first, property) == listed_count(second, property),
        first.len() == second.len(),
    decreases first.len(),
{
    if first.len() == 0 {
        if second.len() > 0 {
            assert(second.contains(second[0]));
            assert(first.contains(second[0]));
        }
    } else {
        let last = first.last();
        assert(first.contains(last));
        let at = choose|at: int| 0 <= at < second.len() && second[at] == last;
        let shorter = first.drop_last();
        let rest = second.remove(at);
        assert(second.contains(last));
        assert forall|view: DiagnosticView| #[trigger] shorter.contains(view) <==> rest.contains(
            view,
        ) by {
            if shorter.contains(view) {
                let k = choose|k: int| 0 <= k < shorter.len() && shorter[k] == view;
                assert(first[k] == view && view != last);
                assert(first.contains(view));
                let j = choose|j: int| 0 <= j < second.len() && second[j] == view;
                assert(rest[if j < at {
                    j
                } else {
                    j - 1
                }] == view);
            }
            if rest.contains(view) {
                let j = choose|j: int| 0 <= j < rest.len() && rest[j] == view;
                let old_place = if j < at {
                    j
                } else {
                    j + 1
                };
                assert(second[old_place] == view && view != last);
                assert(second.contains(view));
                assert(first.contains(view));
                let k = choose|k: int| 0 <= k < first.len() && first[k] == view;
                assert(shorter[k] == view);
            }
        }
        lemma_same_items_same_count(shorter, rest, property);
        lemma_count_without(second, property, at);
    }
}

/// The listing of a manager: what is known of each tag, in order of tags.
pub open spec fn lists_known(manager: AssetManager, listed: Seq<DiagnosticView>) -> bool {
    &&& sorted_by_tag(listed)
    &&& forall|view: DiagnosticView| #[trigger]
        listed.contains(view) <==> manager.known(view.tag) == Some(view)
}

proof fn lemma_listing_holds_the_list(
    manager: AssetManager,
    listed: Seq<DiagnosticView>,
    property: spec_fn(LoadStateView) -> bool,
)
    requires
        manager.wf(),
        lists_known(manager, listed),
    ensures
        listed_count(listed, property) == diagnostic_count(manager.diagnostic_list@, property),
        listed.len() == manager.diagnostic_list@.len(),
{
    let list = manager.diagnostic_list@;
    let stored = views(list);
    assert(listed.no_duplicates()) by {
        assert forall|i: int, j: int| 0 <= i < j < listed.len() implies listed[i] != listed[j] by {
            assert(listed[i].tag < listed[j].tag);
        }
    }
    assert(stored.no_duplicates()) by {
        assert forall|i: int, j: int| 0 <= i < j < stored.len() implies stored[i] != stored[j] by {
            assert(places(manager.diagnostic_places)[list[i].tag] == i);
            assert(places(manager.diagnostic_places)[list[j].tag] == j);
        }
    }
    assert forall|view: DiagnosticView| #[trigger] listed.contains(view) <==> stored.contains(
        view,
    ) by {
        if manager.known(view.tag) == Some(view) {
            let j = places(manager.diagnostic_places)[view.tag] as int;
            assert(stored[j] == view);
        }
        if stored.contains(view) {
            let j = choose|j: int| 0 <= j < stored.len() && stored[j] == view;
            assert(places(manager.diagnostic_places)[list[j].tag] == j);
        }
    }
    lemma_same_items_same_count(listed, stored, property);
    lemma_count_of_views(list, property);
}

/// The summary counts the listing: each of its fields is the number of listed assets in that
/// state, and together they are all that is listed.
pub proof fn law_summary_counts_the_listing(manager: AssetManager, listed: Seq<DiagnosticView>)
    requires
        manager.wf(),
        manager.diagnostic_list@.len() <= usize::MAX,
        lists_known(manager, listed),
    ensures
        ({
            let summary = summary_of(manager.diagnostic_list@);
            &&& summary.queued == listed_count(listed, |state: LoadStateView| state is Queued)
            &&& summary.loading == listed_count(listed, |state: LoadStateView| state is Loading)
            &&& summary.ready == listed_count(listed, |state: LoadStateView| state is Ready)
            &&& summary.failed == listed_count(listed, |state: LoadStateView| state is Failed)
            &&& summary.fallback == listed_count(listed, |state: LoadStateView| state is Fallback)
            &&& summary.queued + summary.loading + summary.ready + summary.failed
                + summary.fallback == listed.len()
        }),
{
    lemma_listing_holds_the_list(manager, listed, |state: LoadStateView| state is Queued);
    lemma_listing_holds_the_list(manager, listed, |state: LoadStateView| state is Loading);
    lemma_listing_holds_the_list(manager, listed, |state: LoadStateView| state is Ready);
    lemma_listing_holds_the_list(manager, listed, |state: LoadStateView| state is Failed);
    lemma_listing_holds_the_list(manager, listed, |state: LoadStateView| state is Fallback);
    law_summary_counts_every_diagnostic(manager.diagnostic_list@);
}

/// What came of asking for an asset.
#[derive(Clone, Copy, Debug, PartialEq, Eq, Structural)]
pub enum LoadOutcome {
    Null,
    WrongKind,
    Cached { place: usize },
    Queued { place: usize },
}

/// An asset that was queued is shared from then on: asking for it again finds the same request.
pub proof fn law_a_queued_asset_is_shared(
    before: AssetManager,
    after: AssetManager,
    kind: AssetKind,
    tag: u32,
    place: usize,
)
    requires
        before.wf(),
        after.wf(),
        after.queues(before, kind, tag, place),
    ensures
        places(after.assets)[tag] == place,
        after.cached(tag) matches Some(entry) && entry.kind == kind && entry.tag == tag
            && entry.pending,
{
}

/// An asset that is still being loaded stays in the cache.
pub proof fn law_pending_assets_are_not_culled(manager: AssetManager, place: int)
    requires
        manager.wf(),
        manager.is_cached(place),
        manager.entries@[place].pending,
    ensures
        manager.entries@[place].references > 1,
{
    assert(manager.entries@[place].references >= manager.internal_references(place));
}

} // verus!
