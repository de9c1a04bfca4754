//! Sky objects: what a capture of their draws records.

use crate::geometry::RenderStage;
use crate::order::{ascending, insert_number};
use crate::tag::{tag_label, tag_text};
use crate::text::views;
use vstd::prelude::*;

verus! {

/// The draws of sky objects since a capture began.
#[derive(Debug)]
pub struct SkyObjectsCaptureState {
    pub active: bool,
    pub draw_indexed_calls: usize,
    pub decals_additive_submission_reached: bool,
    pub decals_additive_draw_indexed_calls: usize,
    pub transparents_submission_reached: bool,
    pub transparents_draw_indexed_calls: usize,
    pub maps: Vec<usize>,
    pub collections: Vec<usize>,
    pub models: Vec<usize>,
}

/// A set of tags, listed in ascending order.
pub open spec fn tag_listing(tags: Seq<usize>) -> bool {
    ascending(tags) && forall|i: int| 0 <= i < tags.len() ==> tags[i] <= u32::MAX
}

/// `after` lists the tags of `before` and `tag`.
pub open spec fn tag_added(before: Seq<usize>, after: Seq<usize>, tag: u32) -> bool {
    &&& ascending(after)
    &&& forall|x: usize| after.contains(x) <==> before.contains(x) || x == tag
}

/// What is recorded of the sky objects: that a stage was submitted, or a draw.
pub enum SkyRecord {
    Submission { stage: RenderStage },
    Draw { stage: RenderStage, map: u32, collection: u32, model: u32 },
}

impl SkyObjectsCaptureState {
    /// The tags are listed in order, and the draws of the two stages are among
    /// all draws.
    pub open spec fn wf(self) -> bool {
        &&& tag_listing(self.maps@)
        &&& tag_listing(self.collections@)
        &&& tag_listing(self.models@)
        &&& self.decals_additive_draw_indexed_calls + self.transparents_draw_indexed_calls
            <= self.draw_indexed_calls
    }

    /// Nothing was drawn yet.
    pub open spec fn is_empty(self) -> bool {
        &&& self.draw_indexed_calls == 0
        &&& !self.decals_additive_submission_reached
        &&& self.decals_additive_draw_indexed_calls == 0
        &&& !self.transparents_submission_reached
        &&& self.transparents_draw_indexed_calls == 0
        &&& self.maps@.len() == 0
        &&& self.collections@.len() == 0
        &&& self.models@.len() == 0
    }

    /// A record turns the state into `after`. Outside a capture nothing changes.
    pub open spec fn becomes(self, record: SkyRecord, after: Self) -> bool {
        if !self.active {
            after == self
        } else {
            match record {
                SkyRecord::Submission { stage } => after == (SkyObjectsCaptureState {
                    decals_additive_submission_reached: self.decals_additive_submission_reached
                        || stage == RenderStage::DecalsAdditive,
                    transparents_submission_reached: self.transparents_submission_reached || stage
                        == RenderStage::Transparents,
                    ..self
                }),
                SkyRecord::Draw { stage, map, collection, model } => {
                    &&& after.active
                    &&& after.draw_indexed_calls == self.draw_indexed_calls + 1
                    &&& after.decals_additive_draw_indexed_calls
                        == self.decals_additive_draw_indexed_calls + (if stage
                        == RenderStage::DecalsAdditive {
                        1int
                    } else {
                        0
                    })
                    &&& after.transparents_draw_indexed_calls
                        == self.transparents_draw_indexed_calls + (if stage
                        == RenderStage::Transparents {
                        1int
                    } else {
                        0
                    })
                    &&& after.decals_additive_submission_reached
                        == self.decals_additive_submission_reached
                    &&& after.transparents_submission_reached
                        == self.transparents_submission_reached
                    &&& tag_added(self.maps@, after.maps@, map)
                    &&& tag_added(self.collections@, after.collections@, collection)
                    &&& tag_added(self.models@, after.models@, model)
                },
            }
        }
    }

    /// The report of the state.
    pub open spec fn reported(self, stats: SkyObjectsCaptureStats) -> bool {
        &&& stats.draw_indexed_calls == self.draw_indexed_calls
        &&& stats.decals_additive_submission_reached == self.decals_additive_submission_reached
        &&& stats.decals_additive_draw_indexed_calls == self.decals_additive_draw_indexed_calls
        &&& stats.transparents_submission_reached == self.transparents_submission_reached
        &&& stats.transparents_draw_indexed_calls == self.transparents_draw_indexed_calls
        &&& views(stats.maps@) == tag_labels(self.maps@)
        &&& views(stats.collections@) == tag_labels(self.collections@)
        &&& views(stats.models@) == tag_labels(self.models@)
    }

    /// A capture that has not begun.
    pub fn new() -> (state: Self)
        ensures
            state.wf(),
            !state.active,
            state.is_empty(),
    {
        SkyObjectsCaptureState {
            active: false,
            draw_indexed_calls: 0,
            decals_additive_submission_reached: false,
            decals_additive_draw_indexed_calls: 0,
            transparents_submission_reached: false,
            transparents_draw_indexed_calls: 0,
            maps: Vec::new(),
            collections: Vec::new(),
            models: Vec::new(),
        }
    }
}

/// Begin a capture: forget earlier draws and record those to come.
pub fn begin_shadowkeep_sky_objects_capture(state: &mut SkyObjectsCaptureState)
    ensures
        final(state).wf(),
        final(state).active,
        final(state).is_empty(),
{
    *state = SkyObjectsCaptureState::new();
    state.active = true;
}

/// Record that a stage was submitted. Only the two stages that draw sky objects
/// count, and only during a capture.
pub fn record_shadowkeep_sky_objects_submission(
    state: &mut SkyObjectsCaptureState,
    stage: RenderStage,
)
    requires
        old(state).wf(),
    ensures
        final(state).wf(),
        old(state).becomes(SkyRecord::Submission { stage }, *final(state)),
{
    if !state.active {
        return ;
    }
    match stage {
        RenderStage::DecalsAdditive => {
            state.decals_additive_submission_reached = true;
        },
        RenderStage::Transparents => {
            state.transparents_submission_reached = true;
        },
        _ => {},
    }
}

pub(crate) fn add_tag(tags: &mut Vec<usize>, tag: u32)
    requires
        tag_listing(old(tags)@),
    ensures
        tag_listing(final(tags)@),
        tag_added(old(tags)@, final(tags)@, tag),
{
    let ghost before = tags@;
    insert_number(tags, tag as usize);
    assert forall|i: int| 0 <= i < tags@.len() implies tags@[i] <= u32::MAX by {
        assert(tags@.contains(tags@[i]));
        if before.contains(tags@[i]) {
            let k = choose|k: int| 0 <= k < before.len() && before[k] == tags@[i];
            assert(before[k] <= u32::MAX);
        }
    }
}

/// Record a draw of a sky object. Nothing is recorded outside a capture.
pub fn record_shadowkeep_sky_object_draw(
    state: &mut SkyObjectsCaptureState,
    stage: RenderStage,
    map: u32,
    collection: u32,
    model: u32,
)
    requires
        old(state).wf(),
        old(state).active ==> old(state).draw_indexed_calls < usize::MAX,
    ensures
        final(state).wf(),
        old(state).becomes(SkyRecord::Draw { stage, map, collection, model }, *final(state)),
{
    if !state.active {
        return ;
    }
    state.draw_indexed_calls = state.draw_indexed_calls + 1;
    match stage {
        RenderStage::DecalsAdditive => {
            state.decals_additive_draw_indexed_calls = state.decals_additive_draw_indexed_calls
                + 1;
        },
        RenderStage::Transparents => {
            state.transparents_draw_indexed_calls = state.transparents_draw_indexed_calls + 1;
        },
        _ => {},
    }
    add_tag(&mut state.maps, map);
    add_tag(&mut state.collections, collection);
    add_tag(&mut state.models, model);
}

/// What a capture recorded.
#[derive(Debug)]
pub struct SkyObjectsCaptureStats {
    pub draw_indexed_calls: usize,
    pub decals_additive_submission_reached: bool,
    pub decals_additive_draw_indexed_calls: usize,
    pub transparents_submission_reached: bool,
    pub transparents_draw_indexed_calls: usize,
    pub maps: Vec<String>,
    pub collections: Vec<String>,
    pub models: Vec<String>,
}

/// The texts of tags.
pub open spec fn tag_labels(tags: Seq<usize>) -> Seq<Seq<char>> {
    tags.map_values(|tag: usize| tag_label(tag as u32))
}

pub(crate) fn tag_texts(tags: &Vec<usize>) -> (texts: Vec<String>)
    requires
        tag_listing(tags@),
    ensures
        views(texts@) == tag_labels(tags@),
{
    let mut texts: Vec<String> = Vec::new();
    let mut i: usize = 0;
    while i < tags.len()
        invariant
            i <= tags@.len(),
            tag_listing(tags@),
            views(texts@) == tag_labels(tags@.take(i as int)),
        decreases tags@.len() - i,
    {
        let ghost before = texts@;
        texts.push(tag_text(tags[i] as u32));
        i = i + 1;
        assert(views(texts@) =~= views(before).push(tag_label(tags@[i - 1] as u32)));
        assert(tag_labels(tags@.take(i as int)) =~= tag_labels(tags@.take(i - 1)).push(
            tag_label(tags@[i - 1] as u32),
        ));
    }
    assert(tags@.take(tags@.len() as int) =~= tags@);
    assert(views(texts@) =~= tag_labels(tags@));
    texts
}

/// End a capture and report what it recorded.
pub fn finish_shadowkeep_sky_objects_capture(state: &mut SkyObjectsCaptureState) -> (stats:
    SkyObjectsCaptureStats)
    requires
        old(state).wf(),
    ensures
        *final(state) == (SkyObjectsCaptureState { active: false, ..*old(state) }),
        final(state).wf(),
        old(state).reported(stats),
{
    state.active = false;
    SkyObjectsCaptureStats {
        draw_indexed_calls: state.draw_indexed_calls,
        decals_additive_submission_reached: state.decals_additive_submission_reached,
        decals_additive_draw_indexed_calls: state.decals_additive_draw_indexed_calls,
        transparents_submission_reached: state.transparents_submission_reached,
        transparents_draw_indexed_calls: state.transparents_draw_indexed_calls,
        maps: tag_texts(&state.maps),
        collections: tag_texts(&state.collections),
        models: tag_texts(&state.models),
    }
}

/// How many of the records are draws, in `stage` where one is given.
pub open spec fn draws_recorded(records: Seq<SkyRecord>, stage: Option<RenderStage>) -> nat
    decreases records.len(),
{
    if records.len() == 0 {
        0
    } else {
        draws_recorded(records.drop_last(), stage) + match records.last() {
            SkyRecord::Draw { stage: drawn, .. } => if stage is None || stage == Some(drawn) {
                1nat
            } else {
                0
            },
            SkyRecord::Submission { .. } => 0,
        }
    }
}

/// The stage was recorded as submitted.
pub open spec fn submission_recorded(records: Seq<SkyRecord>, stage: RenderStage) -> bool {
    records.contains(SkyRecord::Submission { stage })
}

/// The three tags of a draw.
#[derive(Clone, Copy, Debug, PartialEq, Eq, Structural)]
pub enum SkyTag {
    OfMap,
    OfCollection,
    OfModel,
}

/// The tag of a draw.
pub open spec fn tag_of(record: SkyRecord, which: SkyTag) -> Option<u32> {
    match record {
        SkyRecord::Draw { map, collection, model, .. } => match which {
            SkyTag::OfMap => Some(map),
            SkyTag::OfCollection => Some(collection),
            SkyTag::OfModel => Some(model),
        },
        SkyRecord::Submission { .. } => None,
    }
}

/// A draw with the tag was recorded.
pub open spec fn tag_recorded(records: Seq<SkyRecord>, which: SkyTag, tag: usize) -> bool {
    exists|i: int|
        0 <= i < records.len() && (tag_of(#[trigger] records[i], which) matches Some(drawn)
            && drawn == tag)
}

/// `tags` lists each tag of the recorded draws once, in ascending order.
pub open spec fn lists_tags(tags: Seq<usize>, records: Seq<SkyRecord>, which: SkyTag) -> bool {
    &&& ascending(tags)
    &&& forall|tag: usize| #[trigger] tags.contains(tag) <==> tag_recorded(records, which, tag)
}

/// The states of a capture from its beginning through its records.
pub open spec fn is_capture(
    states: Seq<SkyObjectsCaptureState>,
    records: Seq<SkyRecord>,
) -> bool {
    &&& states.len() == records.len() + 1
    &&& states[0].wf() && states[0].active && states[0].is_empty()
    &&& forall|i: int|
        0 <= i < records.len() ==> states[i].becomes(#[trigger] records[i], states[i + 1])
}

proof fn lemma_tags_listed(
    before: Seq<usize>,
    after: Seq<usize>,
    records: Seq<SkyRecord>,
    which: SkyTag,
)
    requires
        records.len() > 0,
        lists_tags(before, records.drop_last(), which),
        match tag_of(records.last(), which) {
            Some(tag) => tag_added(before, after, tag),
            None => after == before,
        },
    ensures
        lists_tags(after, records, which),
{
    let earlier = records.drop_last();
    assert forall|tag: usize| #[trigger] after.contains(tag) <==> tag_recorded(
        records,
        which,
        tag,
    ) by {
        assert(before.contains(tag) <==> tag_recorded(earlier, which, tag));
        if tag_recorded(earlier, which, tag) {
            let i = choose|i: int|
                0 <= i < earlier.len() && (tag_of(#[trigger] earlier[i], which) matches Some(drawn)
                    && drawn == tag);
            assert(records[i] == earlier[i]);
        }
        if tag_recorded(records, which, tag) {
            let i = choose|i: int|
                0 <= i < records.len() && (tag_of(#[trigger] records[i], which) matches Some(drawn)
                    && drawn == tag);
            if i < earlier.len() {
                assert(earlier[i] == records[i]);
            }
        }
        assert(records[records.len() - 1] == records.last());
    }
}

proof fn lemma_capture(states: Seq<SkyObjectsCaptureState>, records: Seq<SkyRecord>)
    requires
        is_capture(states, records),
    ensures
        states.last().active,
        states.last().draw_indexed_calls == draws_recorded(records, None),
        states.last().decals_additive_draw_indexed_calls == draws_recorded(
            records,
            Some(RenderStage::DecalsAdditive),
        ),
        states.last().transparents_draw_indexed_calls == draws_recorded(
            records,
            Some(RenderStage::Transparents),
        ),
        states.last().decals_additive_submission_reached == submission_recorded(
            records,
            RenderStage::DecalsAdditive,
        ),
        states.last().transparents_submission_reached == submission_recorded(
            records,
            RenderStage::Transparents,
        ),
        lists_tags(states.last().maps@, records, SkyTag::OfMap),
        lists_tags(states.last().collections@, records, SkyTag::OfCollection),
        lists_tags(states.last().models@, records, SkyTag::OfModel),
    decreases records.len(),
{
    if records.len() > 0 {
        let earlier = records.drop_last();
        let passed = states.drop_last();
        assert forall|i: int| 0 <= i < earlier.len() implies passed[i].becomes(
            #[trigger] earlier[i],
            passed[i + 1],
        ) by {
            assert(earlier[i] == records[i]);
        }
        lemma_capture(passed, earlier);
        let last = records.last();
        let before = passed.last();
        let after = states.last();
        assert(records[records.len() - 1] == last);
        assert(before.becomes(last, after));
        lemma_tags_listed(before.maps@, after.maps@, records, SkyTag::OfMap);
        lemma_tags_listed(before.collections@, after.collections@, records, SkyTag::OfCollection);
        lemma_tags_listed(before.models@, after.models@, records, SkyTag::OfModel);
        lemma_submissions(records, RenderStage::DecalsAdditive);
        lemma_submissions(records, RenderStage::Transparents);
    }
}

proof fn lemma_submissions(records: Seq<SkyRecord>, stage: RenderStage)
    requires
        records.len() > 0,
    ensures
        submission_recorded(records, stage) == (submission_recorded(records.drop_last(), stage)
            || records.last() == (SkyRecord::Submission { stage })),
{
    let wanted = SkyRecord::Submission { stage };
    let earlier = records.drop_last();
    if records.contains(wanted) {
        let i = choose|i: int| 0 <= i < records.len() && records[i] == wanted;
        if i < earlier.len() {
            assert(earlier[i] == wanted);
        }
    }
    if earlier.contains(wanted) {
        let i = choose|i: int| 0 <= i < earlier.len() && earlier[i] == wanted;
        assert(records[i] == wanted);
    }
    assert(records[records.len() - 1] == records.last());
}

/// The report of a whole capture: all draws are counted, and those of the two stages by
/// themselves; a stage was reached exactly where it was submitted; and each map, collection and
/// model that was drawn is listed once, in ascending order of tags.
pub proof fn law_a_capture_reports_its_records(
    states: Seq<SkyObjectsCaptureState>,
    records: Seq<SkyRecord>,
    stats: SkyObjectsCaptureStats,
)
    requires
        is_capture(states, records),
        states.last().reported(stats),
    ensures
        stats.draw_indexed_calls == draws_recorded(records, None),
        stats.decals_additive_draw_indexed_calls == draws_recorded(
            records,
            Some(RenderStage::DecalsAdditive),
        ),
        stats.transparents_draw_indexed_calls == draws_recorded(
            records,
            Some(RenderStage::Transparents),
        ),
        stats.decals_additive_submission_reached == submission_recorded(
            records,
            RenderStage::DecalsAdditive,
        ),
        stats.transparents_submission_reached == submission_recorded(
            records,
            RenderStage::Transparents,
        ),
        exists|tags: Seq<usize>|
            lists_tags(tags, records, SkyTag::OfMap) && views(stats.maps@) == #[trigger] tag_labels(
                tags,
            ),
        exists|tags: Seq<usize>|
            lists_tags(tags, records, SkyTag::OfCollection) && views(stats.collections@)
                == #[trigger] tag_labels(tags),
        exists|tags: Seq<usize>|
            lists_tags(tags, records, SkyTag::OfModel) && views(stats.models@)
                == #[trigger] tag_labels(tags),
{
    lemma_capture(states, records);
}

/// What is recorded after the end of a capture does not count: however much it is, the next
/// report is the same.
pub proof fn law_records_after_the_end_do_not_count(
    states: Seq<SkyObjectsCaptureState>,
    records: Seq<SkyRecord>,
    first: SkyObjectsCaptureStats,
    second: SkyObjectsCaptureStats,
)
    requires
        states.len() == records.len() + 1,
        !states[0].active,
        forall|i: int|
            0 <= i < records.len() ==> states[i].becomes(#[trigger] records[i], states[i + 1]),
        states[0].reported(first),
        states.last().reported(second),
    ensures
        states.last() == states[0],
        first.draw_indexed_calls == second.draw_indexed_calls,
        first.decals_additive_submission_reached == second.decals_additive_submission_reached,
        first.decals_additive_draw_indexed_calls == second.decals_additive_draw_indexed_calls,
        first.transparents_submission_reached == second.transparents_submission_reached,
        first.transparents_draw_indexed_calls == second.transparents_draw_indexed_calls,
        views(first.maps@) == views(second.maps@),
        views(first.collections@) == views(second.collections@),
        views(first.models@) == views(second.models@),
{
    lemma_inactive(states, records);
}

proof fn lemma_inactive(states: Seq<SkyObjectsCaptureState>, records: Seq<SkyRecord>)
    requires
        states.len() == records.len() + 1,
        !states[0].active,
        forall|i: int|
            0 <= i < records.len() ==> states[i].becomes(#[trigger] records[i], states[i + 1]),
    ensures
        states.last() == states[0],
    decreases records.len(),
{
    if records.len() > 0 {
        let at = records.len() - 1;
        let earlier = records.drop_last();
        let passed = states.drop_last();
        assert forall|i: int| 0 <= i < earlier.len() implies passed[i].becomes(
            #[trigger] earlier[i],
            passed[i + 1],
        ) by {
            assert(earlier[i] == records[i]);
        }
        lemma_inactive(passed, earlier);
        assert(states[at].becomes(records[at], states[at + 1]));
    }
}

} // verus!
