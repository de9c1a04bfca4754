//! Placed static meshes: the groups of their instances, the order in which they are drawn, and
//! the parts of that order that one worker draws.

use vstd::prelude::*;

use crate::channels::{Vec4Bits, ONE_BITS};
use crate::geometry::{
    RenderStage, SShadowkeepStaticInstanceTransform, SShadowkeepStaticMesh,
    SShadowkeepStaticMeshInstanceGroup, SShadowkeepStaticMeshInstances, Vec3Bits,
};
use crate::handle::{is_technique_loaded, AssetState, Handle, TechniqueStatus};
use crate::index_list::{index_at, index_count, listed, new_index_list, push_index, IndexList};
use crate::order::lemma_insertion_adds_one;
use crate::statics::{
    converted, draw_outcome, mesh_refusal, DrawReadiness, InstancedDraw, MeshDetail, StageSet, StaticDraw, StaticMesh,
};
use crate::tag::NO_TAG;
use crate::text::{views, Error};

verus! {

/// The place of an instance. Instances are scaled evenly.
#[derive(Clone, Copy, Debug, PartialEq, Eq)]
pub struct SStaticInstanceTransform {
    pub rotation: Vec4Bits,
    pub translation: Vec3Bits,
    pub scale: u32,
    pub unk20: (u32, u32),
    pub vertex_ao_offset: u32,
}

pub open spec fn placed(transform: SShadowkeepStaticInstanceTransform) -> SStaticInstanceTransform {
    SStaticInstanceTransform {
        rotation: transform.rotation,
        translation: transform.translation,
        scale: transform.scale.x,
        unk20: (transform.unk28, transform.unk2c),
        vertex_ao_offset: 0,
    }
}

fn place(transform: &SShadowkeepStaticInstanceTransform) -> (result: SStaticInstanceTransform)
    ensures
        result == placed(*transform),
{
    SStaticInstanceTransform {
        rotation: transform.rotation,
        translation: transform.translation,
        scale: transform.scale.x,
        unk20: (transform.unk28, transform.unk2c),
        vertex_ao_offset: 0,
    }
}

/// The instances of one mesh.
#[derive(Debug)]
pub struct StaticInstanceGroup {
    pub transforms: Vec<SStaticInstanceTransform>,
    pub static_index: u16,
}

pub struct InstanceGroupView {
    pub transforms: Seq<SStaticInstanceTransform>,
    pub static_index: u16,
}

impl View for StaticInstanceGroup {
    type V = InstanceGroupView;

    open spec fn view(&self) -> InstanceGroupView {
        InstanceGroupView { transforms: self.transforms@, static_index: self.static_index }
    }
}

/// A group takes its range of the transforms, which must have it.
pub open spec fn instance_outcome(
    group: SShadowkeepStaticMeshInstanceGroup,
    transforms: Seq<SShadowkeepStaticInstanceTransform>,
) -> Result<InstanceGroupView, Seq<char>> {
    if group.instance_start + group.instance_count > transforms.len() {
        Err("Invalid Shadowkeep static instance transform range"@)
    } else {
        Ok(
            InstanceGroupView {
                transforms: transforms.subrange(
                    group.instance_start as int,
                    group.instance_start + group.instance_count,
                ).map_values(|transform: SShadowkeepStaticInstanceTransform| placed(transform)),
                static_index: group.static_index,
            },
        )
    }
}

fn load_group(
    group: &SShadowkeepStaticMeshInstanceGroup,
    transforms: &Vec<SShadowkeepStaticInstanceTransform>,
) -> (result: Result<StaticInstanceGroup, Error>)
    ensures
        match result {
            Ok(loaded) => instance_outcome(*group, transforms@) == Ok::<
                InstanceGroupView,
                Seq<char>,
            >(loaded@),
            Err(error) => instance_outcome(*group, transforms@) == Err::<
                InstanceGroupView,
                Seq<char>,
            >(error@),
        },
{
    let range = group.transform_range();
    if range.end > transforms.len() {
        return Err(
            Error {
                message: String::from_str("Invalid Shadowkeep static instance transform range"),
            },
        );
    }
    let ghost whole = transforms@.subrange(range.start as int, range.end as int).map_values(
        |transform: SShadowkeepStaticInstanceTransform| placed(transform),
    );
    let start: usize = range.start;
    let mut chosen: Vec<SStaticInstanceTransform> = Vec::new();
    let mut i: usize = start;
    while i < range.end
        invariant
            start <= i <= range.end <= transforms@.len(),
            start == range.start,
            whole == transforms@.subrange(start as int, range.end as int).map_values(
                |transform: SShadowkeepStaticInstanceTransform| placed(transform),
            ),
            chosen@ =~= whole.take(i - start),
        decreases range.end - i,
    {
        chosen.push(place(&transforms[i]));
        i += 1;
    }
    assert(chosen@ =~= whole);
    Ok(StaticInstanceGroup { transforms: chosen, static_index: group.static_index })
}

fn load_groups(instances: &SShadowkeepStaticMeshInstances) -> (result: Result<
    Vec<StaticInstanceGroup>,
    Error,
>)
    ensures
        match result {
            Ok(groups) => converted(
                instances.instance_groups@,
                |g: SShadowkeepStaticMeshInstanceGroup| instance_outcome(g, instances.transforms@),
            ) == Ok::<Seq<InstanceGroupView>, Seq<char>>(views(groups@)),
            Err(error) => converted(
                instances.instance_groups@,
                |g: SShadowkeepStaticMeshInstanceGroup| instance_outcome(g, instances.transforms@),
            ) == Err::<Seq<InstanceGroupView>, Seq<char>>(error@),
        },
{
    let ghost convert = |g: SShadowkeepStaticMeshInstanceGroup|
        instance_outcome(g, instances.transforms@);
    let mut groups: Vec<StaticInstanceGroup> = Vec::new();
    let mut i: usize = 0;
    assert(instances.instance_groups@.take(0) =~= Seq::empty());
    assert(views(groups@) =~= Seq::empty());
    while i < instances.instance_groups.len()
        invariant
            i <= instances.instance_groups@.len(),
            convert == (|g: SShadowkeepStaticMeshInstanceGroup|
                instance_outcome(g, instances.transforms@)),
            converted(instances.instance_groups@.take(i as int), convert) == Ok::<
                Seq<InstanceGroupView>,
                Seq<char>,
            >(views(groups@)),
        decreases instances.instance_groups@.len() - i,
    {
        proof {
            crate::statics::lemma_conversion_step(instances.instance_groups@, convert, i as int);
        }
        match load_group(&instances.instance_groups[i], &instances.transforms) {
            Err(error) => {
                return Err(error);
            },
            Ok(group) => {
                let ghost before = groups@;
                groups.push(group);
                assert(views(groups@) =~= views(before).push(group@));
            },
        }
        i += 1;
    }
    assert(instances.instance_groups@.take(i as int) =~= instances.instance_groups@);
    Ok(groups)
}

/// A group of a mesh with the instance groups that draw it.
pub struct SortedModel {
    pub technique: u32,
    pub model_index: usize,
    pub group_index: usize,
    pub instance_groups: IndexList,
}

pub struct SortedModelView {
    pub technique: u32,
    pub model_index: int,
    pub group_index: int,
    pub instance_groups: Seq<usize>,
}

impl View for SortedModel {
    type V = SortedModelView;

    open spec fn view(&self) -> SortedModelView {
        SortedModelView {
            technique: self.technique,
            model_index: self.model_index as int,
            group_index: self.group_index as int,
            instance_groups: listed(self.instance_groups),
        }
    }
}

/// The numbers of the groups among the first `count` that place a mesh.
pub open spec fn groups_placing(groups: Seq<StaticInstanceGroup>, mesh: u16, count: nat) -> Seq<usize>
    decreases count,
{
    if count == 0 {
        Seq::empty()
    } else {
        let before = groups_placing(groups, mesh, (count - 1) as nat);
        if groups[count - 1].static_index == mesh {
            before.push((count - 1) as usize)
        } else {
            before
        }
    }
}

fn list_groups_placing(groups: &Vec<StaticInstanceGroup>, mesh: u16) -> (list: IndexList)
    ensures
        listed(list) == groups_placing(groups@, mesh, groups@.len()),
{
    let mut list = new_index_list();
    assert(listed(list) =~= Seq::empty());
    let mut i: usize = 0;
    while i < groups.len()
        invariant
            i <= groups@.len(),
            listed(list) == groups_placing(groups@, mesh, i as nat),
        decreases groups@.len() - i,
    {
        if groups[i].static_index == mesh {
            push_index(&mut list, i);
        }
        i += 1;
    }
    list
}

/// How many groups of a mesh have a technique.
pub open spec fn drawable_groups(mesh: StaticMesh) -> nat {
    if mesh.mesh_groups@.len() <= mesh.techniques@.len() {
        mesh.mesh_groups@.len()
    } else {
        mesh.techniques@.len()
    }
}

/// The groups of a mesh that have a technique name parts.
pub open spec fn drawable_groups_name_parts(mesh: StaticMesh) -> bool {
    forall|i: int|
        0 <= i < drawable_groups(mesh) ==> (#[trigger] mesh.mesh_groups@[i]).part_index
            < mesh.parts@.len()
}

/// The entries of the first `count` groups of one mesh in a stage, at the highest detail.
pub open spec fn mesh_entries(
    mesh: StaticMesh,
    detail: MeshDetail,
    groups: Seq<StaticInstanceGroup>,
    model_index: int,
    stage: RenderStage,
    count: nat,
) -> Seq<SortedModelView>
    decreases count,
{
    if count == 0 {
        Seq::empty()
    } else {
        let before = mesh_entries(mesh, detail, groups, model_index, stage, (count - 1) as nat);
        let group = mesh.mesh_groups@[count - 1];
        if group.render_stage == stage && detail.parts@[group.part_index as int] {
            before.push(
                SortedModelView {
                    technique: mesh.techniques@[count - 1],
                    model_index,
                    group_index: count - 1,
                    instance_groups: groups_placing(
                        groups,
                        (model_index % 0x1_0000) as u16,
                        groups.len(),
                    ),
                },
            )
        } else {
            before
        }
    }
}

/// The entries of the first `count` meshes in a stage.
pub open spec fn stage_entries(
    models: Seq<StaticMesh>,
    details: Seq<MeshDetail>,
    groups: Seq<StaticInstanceGroup>,
    stage: RenderStage,
    count: nat,
) -> Seq<SortedModelView>
    decreases count,
{
    if count == 0 {
        Seq::empty()
    } else {
        stage_entries(models, details, groups, stage, (count - 1) as nat) + mesh_entries(
            models[count - 1],
            details[count - 1],
            groups,
            count - 1,
            stage,
            drawable_groups(models[count - 1]),
        )
    }
}

/// Entries with the same technique stand together.
pub open spec fn by_technique(entries: Seq<SortedModelView>) -> bool {
    forall|i: int, j: int|
        0 <= i < j < entries.len() ==> (#[trigger] entries[i]).technique <= (
        #[trigger] entries[j]).technique
}

fn insert_entry(entries: &mut Vec<SortedModel>, entry: SortedModel)
    requires
        by_technique(views(old(entries)@)),
    ensures
        by_technique(views(final(entries)@)),
        views(final(entries)@).to_multiset() == views(old(entries)@).to_multiset().insert(entry@),
{
    let ghost before = entries@;
    let ghost viewed = views(before);
    let mut at: usize = entries.len();
    while at > 0 && entries[at - 1].technique > entry.technique
        invariant
            entries@ == before,
            viewed == views(before),
            by_technique(viewed),
            at <= before.len(),
            forall|k: int| at <= k < before.len() ==> (#[trigger] viewed[k]).technique
                > entry.technique,
        decreases at,
    {
        assert(viewed[at - 1].technique == before[at - 1].technique);
        at -= 1;
    }
    assert(forall|k: int|
        0 <= k < at ==> (#[trigger] viewed[k]).technique <= entry.technique) by {
        if at > 0 {
            assert(viewed[at - 1].technique == before[at - 1].technique);
        }
    }
    entries.insert(at, entry);
    proof {
        let after = views(entries@);
        assert(after =~= viewed.insert(at as int, entry@));
        lemma_insertion_adds_one(viewed, at as int, entry@);
        assert forall|i: int, j: int| 0 <= i < j < after.len() implies (
        #[trigger] after[i]).technique <= (#[trigger] after[j]).technique by {
            let x = if i < at {
                viewed[i]
            } else if i == at {
                entry@
            } else {
                viewed[i - 1]
            };
            let y = if j < at {
                viewed[j]
            } else if j == at {
                entry@
            } else {
                viewed[j - 1]
            };
            assert(after[i] == x && after[j] == y);
        }
    }
}

fn insert_mesh_entries(
    entries: &mut Vec<SortedModel>,
    mesh: &StaticMesh,
    detail: &MeshDetail,
    groups: &Vec<StaticInstanceGroup>,
    model_index: usize,
    stage: RenderStage,
)
    requires
        by_technique(views(old(entries)@)),
        drawable_groups_name_parts(*mesh),
        mesh.fits(*detail),
    ensures
        by_technique(views(final(entries)@)),
        views(final(entries)@).to_multiset() == views(old(entries)@).to_multiset().add(
            mesh_entries(
                *mesh,
                *detail,
                groups@,
                model_index as int,
                stage,
                drawable_groups(*mesh),
            ).to_multiset(),
        ),
{
    let ghost before = views(entries@).to_multiset();
    let mut i: usize = 0;
    proof {
        broadcast use vstd::seq_lib::group_to_multiset_ensures;

        assert(before.add(Seq::<SortedModelView>::empty().to_multiset()) =~= before);
    }
    while i < mesh.mesh_groups.len() && i < mesh.techniques.len()
        invariant
            i <= drawable_groups(*mesh),
            by_technique(views(entries@)),
            drawable_groups_name_parts(*mesh),
            mesh.fits(*detail),
            views(entries@).to_multiset() == before.add(
                mesh_entries(
                    *mesh,
                    *detail,
                    groups@,
                    model_index as int,
                    stage,
                    i as nat,
                ).to_multiset(),
            ),
        decreases mesh.mesh_groups@.len() - i,
    {
        let group = mesh.mesh_groups[i];
        let ghost listed_before = mesh_entries(
            *mesh,
            *detail,
            groups@,
            model_index as int,
            stage,
            i as nat,
        );
        if group.render_stage == stage && detail.parts[group.part_index as usize] {
            let number: u16 = (model_index % 0x1_0000) as u16;
            let entry = SortedModel {
                technique: mesh.techniques[i],
                model_index,
                group_index: i,
                instance_groups: list_groups_placing(groups, number),
            };
            let ghost view = entry@;
            insert_entry(entries, entry);
            proof {
                broadcast use vstd::seq_lib::group_to_multiset_ensures;

                assert(listed_before.push(view).to_multiset() =~= listed_before.to_multiset().insert(
                    view,
                ));
                assert(before.add(listed_before.to_multiset()).insert(view) =~= before.add(
                    listed_before.push(view).to_multiset(),
                ));
            }
        }
        i += 1;
    }
}

/// The meshes have the details, and their groups that have a technique name parts.
pub open spec fn sortable(models: Seq<StaticMesh>, details: Seq<MeshDetail>) -> bool {
    &&& models.len() == details.len()
    &&& forall|i: int|
        0 <= i < models.len() ==> drawable_groups_name_parts(#[trigger] models[i])
            && models[i].fits(details[i])
}

/// Lists the groups that draw in a stage, sorted by technique.
pub fn sort_models(
    models: &Vec<StaticMesh>,
    details: &Vec<MeshDetail>,
    groups: &Vec<StaticInstanceGroup>,
    stage: RenderStage,
) -> (entries: Vec<SortedModel>)
    requires
        sortable(models@, details@),
    ensures
        by_technique(views(entries@)),
        views(entries@).to_multiset() == stage_entries(
            models@,
            details@,
            groups@,
            stage,
            models@.len(),
        ).to_multiset(),
{
    let mut entries: Vec<SortedModel> = Vec::new();
    let mut i: usize = 0;
    assert(views(entries@) =~= Seq::empty());
    while i < models.len()
        invariant
            i <= models@.len(),
            sortable(models@, details@),
            by_technique(views(entries@)),
            views(entries@).to_multiset() == stage_entries(
                models@,
                details@,
                groups@,
                stage,
                i as nat,
            ).to_multiset(),
        decreases models@.len() - i,
    {
        assert(drawable_groups_name_parts(models@[i as int]));
        insert_mesh_entries(&mut entries, &models[i], &details[i], groups, i, stage);
        proof {
            let earlier = stage_entries(models@, details@, groups@, stage, i as nat);
            let added = mesh_entries(
                models@[i as int],
                details@[i as int],
                groups@,
                i as int,
                stage,
                drawable_groups(models@[i as int]),
            );
            vstd::seq_lib::lemma_multiset_commutative(earlier, added);
        }
        i += 1;
    }
    entries
}

/// Why the first of the stored meshes that is refused is refused.
pub open spec fn first_refusal(meshes: Seq<SShadowkeepStaticMesh>) -> Option<Seq<char>>
    decreases meshes.len(),
{
    if meshes.len() == 0 {
        None
    } else {
        match first_refusal(meshes.drop_last()) {
            Some(message) => Some(message),
            None => mesh_refusal(meshes.last()),
        }
    }
}

proof fn lemma_first_refusal_stays(meshes: Seq<SShadowkeepStaticMesh>, count: int)
    requires
        0 <= count <= meshes.len(),
        first_refusal(meshes.take(count)) is Some,
    ensures
        first_refusal(meshes) == first_refusal(meshes.take(count)),
    decreases meshes.len() - count,
{
    if count < meshes.len() {
        assert(meshes.take(count + 1).drop_last() =~= meshes.take(count));
        lemma_first_refusal_stays(meshes, count + 1);
    } else {
        assert(meshes.take(count) =~= meshes);
    }
}

fn load_models(statics: &Vec<SShadowkeepStaticMesh>) -> (result: Result<Vec<StaticMesh>, Error>)
    ensures
        match result {
            Ok(models) => {
                &&& first_refusal(statics@) is None
                &&& models@.len() == statics@.len()
                &&& forall|i: int|
                    0 <= i < models@.len() ==> (#[trigger] models@[i]).is_form_of(statics@[i])
            },
            Err(error) => first_refusal(statics@) == Some(error@),
        },
{
    let mut models: Vec<StaticMesh> = Vec::new();
    let mut i: usize = 0;
    assert(statics@.take(0) =~= Seq::empty());
    while i < statics.len()
        invariant
            i <= statics@.len(),
            models@.len() == i,
            first_refusal(statics@.take(i as int)) is None,
            forall|k: int| 0 <= k < i ==> (#[trigger] models@[k]).is_form_of(statics@[k]),
        decreases statics@.len() - i,
    {
        assert(statics@.take(i + 1).drop_last() =~= statics@.take(i as int));
        match StaticMesh::load_shadowkeep(&statics[i]) {
            Err(error) => {
                proof {
                    lemma_first_refusal_stays(statics@, i + 1);
                }
                return Err(error);
            },
            Ok(model) => {
                models.push(model);
            },
        }
        i += 1;
    }
    assert(statics@.take(i as int) =~= statics@);
    Ok(models)
}

/// A collection of placed static meshes.
pub struct StaticInstancesRenderer {
    pub static_models: Vec<StaticMesh>,
    pub groups: Vec<StaticInstanceGroup>,
    /// For each stage the groups that draw in it, sorted by technique.
    pub sorted: Vec<Vec<SortedModel>>,
    pub subscribed_stages: StageSet,
    pub constants_dirty: bool,
    pub shadowkeep_layout: bool,
    pub vao_identifier: u64,
}

/// The list holds the groups that draw in the stage.
pub open spec fn sorted_for(
    entries: Seq<SortedModel>,
    models: Seq<StaticMesh>,
    details: Seq<MeshDetail>,
    groups: Seq<StaticInstanceGroup>,
    stage: RenderStage,
) -> bool {
    &&& by_technique(views(entries))
    &&& views(entries).to_multiset() == stage_entries(
        models,
        details,
        groups,
        stage,
        models.len(),
    ).to_multiset()
}

/// A mesh of the collection draws in the stage.
pub open spec fn any_subscribed(models: Seq<StaticMesh>, stage: RenderStage) -> bool {
    exists|i: int| 0 <= i < models.len() && (#[trigger] models[i]).subscribed_stages.has(stage)
}

fn join_stages(models: &Vec<StaticMesh>) -> (stages: StageSet)
    ensures
        forall|stage: RenderStage| #[trigger] stages.has(stage) == any_subscribed(models@, stage),
{
    let mut stages = StageSet::empty();
    let mut i: usize = 0;
    while i < models.len()
        invariant
            i <= models@.len(),
            forall|stage: RenderStage| #[trigger]
                stages.has(stage) == any_subscribed(models@.take(i as int), stage),
        decreases models@.len() - i,
    {
        let ghost before = stages;
        stages.join(&models[i].subscribed_stages);
        assert forall|stage: RenderStage| #[trigger] stages.has(stage) == any_subscribed(
            models@.take(i + 1),
            stage,
        ) by {
            let longer = models@.take(i + 1);
            let shorter = models@.take(i as int);
            assert(before.has(stage) == any_subscribed(shorter, stage));
            if any_subscribed(shorter, stage) {
                let k = choose|k: int|
                    0 <= k < shorter.len() && (#[trigger] shorter[k]).subscribed_stages.has(stage);
                assert(longer[k].subscribed_stages.has(stage));
            }
            assert(longer[i as int] == models@[i as int]);
            if any_subscribed(longer, stage) {
                let k = choose|k: int|
                    0 <= k < longer.len() && (#[trigger] longer[k]).subscribed_stages.has(stage);
                if k < i {
                    assert(shorter[k].subscribed_stages.has(stage));
                }
            }
        }
        i += 1;
    }
    assert(models@.take(i as int) =~= models@);
    stages
}

/// The groups of a stored mesh that have a technique name parts, and the detail covers the mesh.
pub open spec fn detailed(mesh: SShadowkeepStaticMesh, detail: MeshDetail) -> bool {
    &&& forall|i: int|
        0 <= i < mesh.opaque_meshes.mesh_groups@.len() && i < mesh.techniques@.len() ==> (
        #[trigger] mesh.opaque_meshes.mesh_groups@[i]).part_index < mesh.opaque_meshes.parts@.len()
    &&& detail.parts@.len() == mesh.opaque_meshes.parts@.len()
    &&& detail.special_meshes@.len() == mesh.special_meshes@.len()
}

proof fn lemma_form_is_detailed(mesh: StaticMesh, stored: SShadowkeepStaticMesh, detail: MeshDetail)
    requires
        mesh.is_form_of(stored),
        detailed(stored, detail),
    ensures
        drawable_groups_name_parts(mesh),
        mesh.fits(detail),
{
    crate::statics::lemma_converted_items(
        stored.opaque_meshes.parts@,
        |p: crate::geometry::SShadowkeepStaticMeshPart| crate::statics::part_outcome(p),
        0,
    );
    crate::statics::lemma_converted_items(
        stored.special_meshes@,
        |m: crate::geometry::SShadowkeepStaticSpecialMesh| crate::statics::special_outcome(m),
        0,
    );
    assert forall|i: int| 0 <= i < drawable_groups(mesh) implies (
    #[trigger] mesh.mesh_groups@[i]).part_index < mesh.parts@.len() by {
        crate::statics::law_groups_keep_their_stages(stored, mesh, i);
        assert(stored.opaque_meshes.mesh_groups@[i].part_index < stored.opaque_meshes.parts@.len());
    }
}

proof fn lemma_groups_placing_below(groups: Seq<StaticInstanceGroup>, mesh: u16, count: nat, k: int)
    requires
        count <= groups.len() <= usize::MAX,
    ensures
        0 <= k < groups_placing(groups, mesh, count).len() ==> groups_placing(groups, mesh, count)[k]
            < count,
    decreases count,
{
    if count > 0 {
        lemma_groups_placing_below(groups, mesh, (count - 1) as nat, k);
    }
}

proof fn lemma_mesh_entries_place(
    mesh: StaticMesh,
    detail: MeshDetail,
    groups: Seq<StaticInstanceGroup>,
    model_index: int,
    stage: RenderStage,
    count: nat,
    i: int,
)
    requires
        0 <= i < mesh_entries(mesh, detail, groups, model_index, stage, count).len(),
    ensures
        mesh_entries(mesh, detail, groups, model_index, stage, count)[i].instance_groups
            == groups_placing(groups, (model_index % 0x1_0000) as u16, groups.len()),
    decreases count,
{
    if count > 0 {
        let before = mesh_entries(mesh, detail, groups, model_index, stage, (count - 1) as nat);
        if i < before.len() {
            lemma_mesh_entries_place(
                mesh,
                detail,
                groups,
                model_index,
                stage,
                (count - 1) as nat,
                i,
            );
        }
    }
}

proof fn lemma_stage_entries_below(
    models: Seq<StaticMesh>,
    details: Seq<MeshDetail>,
    groups: Seq<StaticInstanceGroup>,
    stage: RenderStage,
    count: nat,
    i: int,
    k: int,
)
    requires
        groups.len() <= usize::MAX,
        0 <= i < stage_entries(models, details, groups, stage, count).len(),
        0 <= k < stage_entries(models, details, groups, stage, count)[i].instance_groups.len(),
    ensures
        stage_entries(models, details, groups, stage, count)[i].instance_groups[k] < groups.len(),
    decreases count,
{
    if count > 0 {
        let before = stage_entries(models, details, groups, stage, (count - 1) as nat);
        if i < before.len() {
            lemma_stage_entries_below(
                models,
                details,
                groups,
                stage,
                (count - 1) as nat,
                i,
                k,
            );
        } else {
            lemma_mesh_entries_place(
                models[count - 1],
                details[count - 1],
                groups,
                count - 1,
                stage,
                drawable_groups(models[count - 1]),
                i - before.len(),
            );
            lemma_groups_placing_below(
                groups,
                ((count - 1) % 0x1_0000) as u16,
                groups.len(),
                k,
            );
        }
    }
}

/// The entries name groups of the meshes that have a technique.
pub open spec fn entries_name_groups(entries: Seq<SortedModel>, models: Seq<StaticMesh>) -> bool {
    forall|i: int|
        0 <= i < entries.len() ==> (#[trigger] entries[i]).model_index < models.len()
            && entries[i].group_index < drawable_groups(models[entries[i].model_index as int])
}

proof fn lemma_mesh_entries_name(
    mesh: StaticMesh,
    detail: MeshDetail,
    groups: Seq<StaticInstanceGroup>,
    model_index: int,
    stage: RenderStage,
    count: nat,
    i: int,
)
    requires
        count <= drawable_groups(mesh),
        0 <= i < mesh_entries(mesh, detail, groups, model_index, stage, count).len(),
    ensures
        mesh_entries(mesh, detail, groups, model_index, stage, count)[i].model_index == model_index,
        0 <= mesh_entries(mesh, detail, groups, model_index, stage, count)[i].group_index < count,
        mesh.group_draw(
            detail,
            stage,
            mesh_entries(mesh, detail, groups, model_index, stage, count)[i].group_index,
        ) matches Some(draw) && draw.technique == mesh_entries(
            mesh,
            detail,
            groups,
            model_index,
            stage,
            count,
        )[i].technique,
    decreases count,
{
    if count > 0 {
        let before = mesh_entries(mesh, detail, groups, model_index, stage, (count - 1) as nat);
        if i < before.len() {
            lemma_mesh_entries_name(
                mesh,
                detail,
                groups,
                model_index,
                stage,
                (count - 1) as nat,
                i,
            );
        }
    }
}

proof fn lemma_stage_entries_name(
    models: Seq<StaticMesh>,
    details: Seq<MeshDetail>,
    groups: Seq<StaticInstanceGroup>,
    stage: RenderStage,
    count: nat,
    i: int,
)
    requires
        count <= models.len(),
        0 <= i < stage_entries(models, details, groups, stage, count).len(),
    ensures
        0 <= stage_entries(models, details, groups, stage, count)[i].model_index < models.len(),
        0 <= stage_entries(models, details, groups, stage, count)[i].group_index < drawable_groups(
            models[stage_entries(models, details, groups, stage, count)[i].model_index],
        ),
        models[stage_entries(models, details, groups, stage, count)[i].model_index].group_draw(
            details[stage_entries(models, details, groups, stage, count)[i].model_index],
            stage,
            stage_entries(models, details, groups, stage, count)[i].group_index,
        ) matches Some(draw) && draw.technique == stage_entries(
            models,
            details,
            groups,
            stage,
            count,
        )[i].technique,
    decreases count,
{
    if count > 0 {
        let before = stage_entries(models, details, groups, stage, (count - 1) as nat);
        if i < before.len() {
            lemma_stage_entries_name(models, details, groups, stage, (count - 1) as nat, i);
        } else {
            lemma_mesh_entries_name(
                models[count - 1],
                details[count - 1],
                groups,
                count - 1,
                stage,
                drawable_groups(models[count - 1]),
                i - before.len(),
            );
        }
    }
}

proof fn lemma_sorted_entries_below(
    entries: Seq<SortedModel>,
    models: Seq<StaticMesh>,
    details: Seq<MeshDetail>,
    groups: Seq<StaticInstanceGroup>,
    stage: RenderStage,
)
    requires
        groups.len() <= usize::MAX,
        sorted_for(entries, models, details, groups, stage),
    ensures
        entries_below(entries, groups.len()),
        entries_name_groups(entries, models),
{
    broadcast use vstd::seq_lib::group_to_multiset_ensures;

    let all = stage_entries(models, details, groups, stage, models.len());
    assert forall|i: int, k: int|
        0 <= i < entries.len() && 0 <= k < listed(
            entries[i].instance_groups,
        ).len() implies #[trigger] listed(entries[i].instance_groups)[k] < groups.len() by {
        let entry = views(entries)[i];
        assert(views(entries).contains(entry));
        assert(views(entries).to_multiset().count(entry) > 0);
        assert(all.to_multiset().count(entry) > 0);
        assert(all.contains(entry));
        let at = choose|at: int| 0 <= at < all.len() && all[at] == entry;
        lemma_stage_entries_below(models, details, groups, stage, models.len(), at, k);
    }
    assert forall|i: int| 0 <= i < entries.len() implies (#[trigger] entries[i]).model_index
        < models.len() && entries[i].group_index < drawable_groups(
        models[entries[i].model_index as int],
    ) by {
        let entry = views(entries)[i];
        assert(views(entries).contains(entry));
        assert(views(entries).to_multiset().count(entry) > 0);
        assert(all.to_multiset().count(entry) > 0);
        assert(all.contains(entry));
        let at = choose|at: int| 0 <= at < all.len() && all[at] == entry;
        lemma_stage_entries_name(models, details, groups, stage, models.len(), at);
    }
}

impl StaticInstancesRenderer {
    /// The collection is made of its meshes and groups: it knows their stages, and has them
    /// sorted for each stage.
    pub open spec fn is_made_of(
        self,
        models: Seq<StaticMesh>,
        details: Seq<MeshDetail>,
        groups: Seq<InstanceGroupView>,
    ) -> bool {
        &&& self.static_models@ == models
        &&& views(self.groups@) == groups
        &&& self.sorted_wf()
        &&& forall|stage: RenderStage|
            sorted_for(
                #[trigger] self.sorted@[stage.number() as int]@,
                models,
                details,
                self.groups@,
                stage,
            )
        &&& forall|stage: RenderStage| #[trigger]
            self.subscribed_stages.has(stage) == any_subscribed(models, stage)
        &&& self.constants_dirty
    }

    /// The collection holds the stored meshes and the groups.
    pub open spec fn holds(
        self,
        statics: Seq<SShadowkeepStaticMesh>,
        details: Seq<MeshDetail>,
        groups: Seq<InstanceGroupView>,
    ) -> bool {
        &&& self.static_models@.len() == statics.len()
        &&& forall|i: int|
            0 <= i < statics.len() ==> (#[trigger] self.static_models@[i]).is_form_of(statics[i])
        &&& self.is_made_of(self.static_models@, details, groups)
        &&& self.shadowkeep_layout
        &&& self.vao_identifier == 0
    }

    /// The sorted lists name meshes, groups and instance groups of the collection.
    pub open spec fn sorted_wf(self) -> bool {
        &&& self.sorted@.len() == 24
        &&& forall|i: int|
            0 <= i < 24 ==> entries_below((#[trigger] self.sorted@[i])@, self.groups@.len())
                && entries_name_groups(self.sorted@[i]@, self.static_models@)
    }

    /// Places the stored meshes. `details` tells which of their parts are of the highest detail.
    pub fn load_shadowkeep(
        statics: &Vec<SShadowkeepStaticMesh>,
        details: &Vec<MeshDetail>,
        instances: &SShadowkeepStaticMeshInstances,
    ) -> (result: Result<StaticInstancesRenderer, Error>)
        requires
            first_refusal(statics@) is None ==> details@.len() == statics@.len(),
            first_refusal(statics@) is None ==> forall|i: int|
                0 <= i < statics@.len() ==> detailed(#[trigger] statics@[i], details@[i]),
        ensures
            match first_refusal(statics@) {
                Some(message) => result matches Err(error) && error@ == message,
                None => match converted(
                    instances.instance_groups@,
                    |g: SShadowkeepStaticMeshInstanceGroup|
                        instance_outcome(g, instances.transforms@),
                ) {
                    Err(message) => result matches Err(error) && error@ == message,
                    Ok(groups) => result matches Ok(collection) && collection.holds(
                        statics@,
                        details@,
                        groups,
                    ),
                },
            },
            result matches Ok(collection) ==> {
                &&& collection.groups@.len() == instances.instance_groups@.len()
                &&& forall|g: int|
                    0 <= g < collection.groups@.len() ==> {
                        let group = #[trigger] collection.groups@[g];
                        let stored = instances.instance_groups@[g];
                        &&& group.static_index == stored.static_index
                        &&& group.transforms@.len() == stored.instance_count
                        &&& stored.instance_start + stored.instance_count
                            <= instances.transforms@.len()
                    }
                &&& forall|g: int, k: int|
                    0 <= g < collection.groups@.len() && 0 <= k
                        < collection.groups@[g].transforms@.len() ==> {
                        let instance = #[trigger] collection.groups@[g].transforms@[k];
                        let stored =
                            instances.transforms@[instances.instance_groups@[g].instance_start + k];
                        &&& instance.translation == stored.translation
                        &&& instance.rotation == stored.rotation
                        &&& instance.scale == stored.scale.x
                        &&& instance.unk20.0 == stored.unk28
                        &&& instance.unk20.1 == stored.unk2c
                        &&& instance.vertex_ao_offset == 0
                    }
            },
    {
        let static_models = match load_models(statics) {
            Err(error) => {
                return Err(error);
            },
            Ok(models) => models,
        };
        let groups = match load_groups(instances) {
            Err(error) => {
                return Err(error);
            },
            Ok(groups) => groups,
        };
        proof {
            assert forall|i: int| 0 <= i < static_models@.len() implies drawable_groups_name_parts(
                #[trigger] static_models@[i],
            ) && static_models@[i].fits(details@[i]) by {
                assert(detailed(statics@[i], details@[i]));
                lemma_form_is_detailed(static_models@[i], statics@[i], details@[i]);
            }
        }
        let collection = StaticInstancesRenderer::assemble(static_models, details, groups, true, 0);
        proof {
            assert forall|g: int| 0 <= g < collection.groups@.len() implies {
                let group = #[trigger] collection.groups@[g];
                let stored = instances.instance_groups@[g];
                &&& group.static_index == stored.static_index
                &&& group.transforms@.len() == stored.instance_count
                &&& stored.instance_start + stored.instance_count <= instances.transforms@.len()
            } by {
                law_groups_take_their_range(collection, statics@, details@, *instances, g);
            }
            law_groups_are_kept_in_order(collection, statics@, details@, *instances);
            assert forall|g: int, k: int|
                0 <= g < collection.groups@.len() && 0 <= k
                    < collection.groups@[g].transforms@.len() implies {
                let instance = #[trigger] collection.groups@[g].transforms@[k];
                let stored = instances.transforms@[instances.instance_groups@[g].instance_start + k];
                &&& instance.translation == stored.translation
                &&& instance.rotation == stored.rotation
                &&& instance.scale == stored.scale.x
                &&& instance.unk20.0 == stored.unk28
                &&& instance.unk20.1 == stored.unk2c
                &&& instance.vertex_ao_offset == 0
            } by {
                law_instances_stand_where_they_are_stored(
                    collection,
                    statics@,
                    details@,
                    *instances,
                    g,
                    k,
                );
            }
        }
        Ok(collection)
    }

    fn assemble(
        static_models: Vec<StaticMesh>,
        details: &Vec<MeshDetail>,
        groups: Vec<StaticInstanceGroup>,
        shadowkeep_layout: bool,
        vao_identifier: u64,
    ) -> (collection: StaticInstancesRenderer)
        requires
            sortable(static_models@, details@),
        ensures
            collection.is_made_of(static_models@, details@, views(groups@)),
            collection.shadowkeep_layout == shadowkeep_layout,
            collection.vao_identifier == vao_identifier,
    {
        let mut sorted: Vec<Vec<SortedModel>> = Vec::new();
        let mut i: u8 = 0;
        while i < 24
            invariant
                i <= 24,
                sorted@.len() == i,
                sortable(static_models@, details@),
                forall|stage: RenderStage|
                    stage.number() < i ==> sorted_for(
                        #[trigger] sorted@[stage.number() as int]@,
                        static_models@,
                        details@,
                        groups@,
                        stage,
                    ),
                forall|k: int|
                    0 <= k < i ==> entries_below((#[trigger] sorted@[k])@, groups@.len())
                        && entries_name_groups(sorted@[k]@, static_models@),
            decreases 24 - i,
        {
            match RenderStage::from_number(i) {
                Some(stage) => {
                    let ghost before = sorted@;
                    let entries = sort_models(&static_models, details, &groups, stage);
                    proof {
                        assert(groups.len() == groups@.len());
                        lemma_sorted_entries_below(
                            entries@,
                            static_models@,
                            details@,
                            groups@,
                            stage,
                        );
                    }
                    sorted.push(entries);
                    assert forall|other: RenderStage| other.number() < i + 1 implies sorted_for(
                        #[trigger] sorted@[other.number() as int]@,
                        static_models@,
                        details@,
                        groups@,
                        other,
                    ) by {
                        if other.number() == i {
                            crate::geometry::law_stage_numbers_are_distinct(other, stage);
                        } else {
                            assert(sorted@[other.number() as int] == before[other.number() as int]);
                        }
                    }
                },
                None => {},
            }
            i += 1;
        }
        let subscribed_stages = join_stages(&static_models);
        StaticInstancesRenderer {
            static_models,
            groups,
            sorted,
            subscribed_stages,
            constants_dirty: true,
            shadowkeep_layout,
            vao_identifier,
        }
    }

    /// Places meshes of the current era. Beside the collection it gives, for each instance
    /// group, the places of the bounds of its instances.
    pub fn load(
        static_models: Vec<StaticMesh>,
        details: &Vec<MeshDetail>,
        instances: &SStaticMeshInstances,
    ) -> (result: Result<(StaticInstancesRenderer, Vec<Vec<usize>>), Error>)
        requires
            converted(
                instances.instance_groups@,
                |g: SStaticMeshInstanceGroup| bounded_outcome(g, *instances),
            ) is Ok ==> sortable(static_models@, details@),
            forall|i: int|
                0 <= i < instances.instance_groups@.len() ==> (
                #[trigger] instances.instance_groups@[i]).instance_start
                    + instances.instance_groups@[i].instance_count <= u32::MAX,
        ensures
            match converted(
                instances.instance_groups@,
                |g: SStaticMeshInstanceGroup| bounded_outcome(g, *instances),
            ) {
                Err(message) => result matches Err(error) && error@ == message,
                Ok(groups) => result matches Ok((collection, bounds)) && {
                    &&& collection.is_made_of(
                        static_models@,
                        details@,
                        groups.map_values(|g: BoundedGroupView| g.group),
                    )
                    &&& views(bounds@) == groups.map_values(|g: BoundedGroupView| g.bounds)
                    &&& !collection.shadowkeep_layout
                    &&& collection.vao_identifier == instances.vertex_ao_identifier
                },
            },
    {
        let (groups, bounds) = match load_bounded_groups(instances) {
            Err(error) => {
                return Err(error);
            },
            Ok(loaded) => loaded,
        };
        assert(views(groups@) =~= joined(groups@, bounds@).map_values(
            |g: BoundedGroupView| g.group,
        ));
        assert(views(bounds@) =~= joined(groups@, bounds@).map_values(
            |g: BoundedGroupView| g.bounds,
        ));
        Ok(
            (
                StaticInstancesRenderer::assemble(
                    static_models,
                    details,
                    groups,
                    false,
                    instances.vertex_ao_identifier,
                ),
                bounds,
            ),
        )
    }
}

/// A step of a worker on a run.
#[derive(Clone, Copy, Debug, PartialEq, Eq, Structural)]
pub enum RunStep {
    /// Sets an entry up, whether or not it can be seen: its buffers, on request the technique,
    /// and the layout.
    SetUp { draw: StaticDraw, bind_technique: bool },
    /// Binds the constants of an instance group of the entry, and draws it where it can be seen.
    Instances { group: usize, instances: usize, seen: bool },
}

/// A draw that a worker makes of one instance group.
#[derive(Clone, Copy, Debug, PartialEq, Eq, Structural)]
pub struct InstanceDraw {
    pub draw: StaticDraw,
    pub instance_group: usize,
    pub instances: usize,
}

/// What a worker does in a step.
#[derive(Clone, Copy, Debug, PartialEq, Eq, Structural)]
pub struct RunProgress {
    /// The entry that is set up after the step.
    pub entry: Option<StaticDraw>,
    /// The technique to bind.
    pub technique: Option<u32>,
    /// The instance group whose constants to bind.
    pub constants: Option<usize>,
    pub draw: Option<InstanceDraw>,
}

/// What becomes of a step. `entry` is what the last set-up left, `ready` is what is there for the
/// draw that a set-up is for.
pub open spec fn followed(entry: Option<StaticDraw>, step: RunStep, ready: DrawReadiness) -> RunProgress {
    match step {
        RunStep::SetUp { draw, bind_technique } => RunProgress {
            entry: if ready.buffers && ready.technique && ready.layout {
                Some(draw)
            } else {
                None
            },
            technique: if bind_technique && ready.buffers && ready.technique {
                Some(draw.technique)
            } else {
                None
            },
            constants: None,
            draw: None,
        },
        RunStep::Instances { group, instances, seen } => RunProgress {
            entry,
            technique: None,
            constants: if entry is Some {
                Some(group)
            } else {
                None
            },
            draw: match entry {
                Some(draw) => if seen {
                    Some(InstanceDraw { draw, instance_group: group, instances })
                } else {
                    None
                },
                None => None,
            },
        },
    }
}

/// Decides what a worker does in a step. The instance groups of an entry whose set-up was given
/// up are passed over.
pub fn follow_run(entry: Option<StaticDraw>, step: RunStep, ready: DrawReadiness) -> (progress:
    RunProgress)
    ensures
        progress == followed(entry, step, ready),
{
    match step {
        RunStep::SetUp { draw, bind_technique } => {
            let outcome = draw_outcome(bind_technique, ready);
            RunProgress {
                entry: if outcome.draws {
                    Some(draw)
                } else {
                    None
                },
                technique: if outcome.binds_technique {
                    Some(draw.technique)
                } else {
                    None
                },
                constants: None,
                draw: None,
            }
        },
        RunStep::Instances { group, instances, seen } => match entry {
            Some(draw) => RunProgress {
                entry,
                technique: None,
                constants: Some(group),
                draw: if seen {
                    Some(InstanceDraw { draw, instance_group: group, instances })
                } else {
                    None
                },
            },
            None => RunProgress { entry: None, technique: None, constants: None, draw: None },
        },
    }
}

/// What a worker draws.
#[derive(Clone, Copy, Debug, PartialEq, Eq, Structural)]
pub enum StaticJob {
    /// All of one instance group.
    Group { group: usize },
    /// The sorted entries from `start` up to `end`, which share a technique.
    Run { start: usize, end: usize },
}

/// Where the run of entries with the technique of entry `start` ends.
pub open spec fn run_end(entries: Seq<SortedModelView>, start: int) -> int
    decreases entries.len() - start,
{
    if start + 1 >= entries.len() {
        entries.len() as int
    } else if entries[start + 1].technique != entries[start].technique {
        start + 1
    } else {
        run_end(entries, start + 1)
    }
}

/// An instance group of the entry can be seen.
pub open spec fn entry_visible(entry: SortedModelView, visible: Seq<bool>) -> bool {
    exists|k: int|
        0 <= k < entry.instance_groups.len() && visible[(#[trigger] entry.instance_groups[k]) as int]
}

/// An entry from `start` up to `end` can be seen.
pub open spec fn run_visible(
    entries: Seq<SortedModelView>,
    visible: Seq<bool>,
    start: int,
    end: int,
) -> bool {
    exists|i: int| start <= i < end && entry_visible(#[trigger] entries[i], visible)
}

/// The runs from entry `start` on that can be seen.
pub open spec fn visible_runs(entries: Seq<SortedModelView>, visible: Seq<bool>, start: int) -> Seq<
    StaticJob,
>
    decreases entries.len() - start,
{
    let end = run_end(entries, start);
    if start >= entries.len() || end <= start || end > entries.len() {
        Seq::empty()
    } else {
        (if run_visible(entries, visible, start, end) {
            seq![StaticJob::Run { start: start as usize, end: end as usize }]
        } else {
            Seq::empty()
        }) + visible_runs(entries, visible, end)
    }
}

proof fn lemma_run_end(entries: Seq<SortedModelView>, start: int)
    requires
        0 <= start < entries.len(),
    ensures
        start < run_end(entries, start) <= entries.len(),
        forall|i: int|
            start <= i < run_end(entries, start) ==> (#[trigger] entries[i]).technique
                == entries[start].technique,
        run_end(entries, start) < entries.len() ==> entries[run_end(entries, start)].technique
            != entries[start].technique,
    decreases entries.len() - start,
{
    if start + 1 < entries.len() && entries[start + 1].technique == entries[start].technique {
        lemma_run_end(entries, start + 1);
    }
}

/// In entries that are sorted by technique, a run takes all entries of its technique: no two
/// workers bind the same one.
pub proof fn law_a_run_takes_its_technique_whole(
    entries: Seq<SortedModelView>,
    start: int,
    other: int,
)
    requires
        by_technique(entries),
        0 <= start < entries.len(),
        start <= other < entries.len(),
        entries[other].technique == entries[start].technique,
    ensures
        other < run_end(entries, start),
{
    lemma_run_end(entries, start);
    let end = run_end(entries, start);
    if other >= end {
        assert(entries[start].technique <= entries[end].technique);
        if other > end {
            assert(entries[end].technique <= entries[other].technique);
        }
    }
}

/// Every entry that can be seen is drawn: it lies in a run of the jobs.
pub proof fn law_visible_entries_are_drawn(
    entries: Seq<SortedModelView>,
    visible: Seq<bool>,
    start: int,
    entry: int,
)
    requires
        entries.len() <= usize::MAX,
        0 <= start <= entry < entries.len(),
        entry_visible(entries[entry], visible),
    ensures
        exists|job: int|
            0 <= job < visible_runs(entries, visible, start).len() && {
                let it = #[trigger] visible_runs(entries, visible, start)[job];
                it is Run && it->start <= entry < it->end
            },
    decreases entries.len() - start,
{
    lemma_run_end(entries, start);
    let end = run_end(entries, start);
    let jobs = visible_runs(entries, visible, start);
    let rest = visible_runs(entries, visible, end);
    if entry < end {
        assert(run_visible(entries, visible, start, end));
        assert(jobs[0] == (StaticJob::Run { start: start as usize, end: end as usize }));
    } else {
        law_visible_entries_are_drawn(entries, visible, end, entry);
        let k = choose|job: int|
            0 <= job < rest.len() && {
                let it = #[trigger] rest[job];
                it is Run && it->start <= entry < it->end
            };
        let shift = jobs.len() - rest.len();
        assert(jobs[shift + k] == rest[k]);
    }
}

fn sees_entry(entry: &SortedModel, visible: &Vec<bool>) -> (seen: bool)
    requires
        forall|k: int|
            0 <= k < listed(entry.instance_groups).len() ==> (#[trigger] listed(
                entry.instance_groups,
            )[k]) < visible@.len(),
    ensures
        seen == entry_visible(entry@, visible@),
{
    let count: usize = index_count(&entry.instance_groups);
    let mut k: usize = 0;
    while k < count
        invariant
            k <= count,
            count == listed(entry.instance_groups).len(),
            forall|k: int|
                0 <= k < listed(entry.instance_groups).len() ==> (#[trigger] listed(
                    entry.instance_groups,
                )[k]) < visible@.len(),
            forall|j: int|
                0 <= j < k ==> !visible@[(#[trigger] entry@.instance_groups[j]) as int],
        decreases count - k,
    {
        let group: usize = index_at(&entry.instance_groups, k);
        if visible[group] {
            assert(visible@[entry@.instance_groups[k as int] as int]);
            return true;
        }
        k += 1;
    }
    false
}

/// The entries name groups below `count`.
pub open spec fn entries_below(entries: Seq<SortedModel>, count: nat) -> bool {
    forall|i: int, k: int|
        0 <= i < entries.len() && 0 <= k < listed(entries[i].instance_groups).len()
            ==> #[trigger] listed(entries[i].instance_groups)[k] < count
}

fn sees_run(entries: &Vec<SortedModel>, visible: &Vec<bool>, start: usize, end: usize) -> (seen: bool)
    requires
        start <= end <= entries@.len(),
        entries_below(entries@, visible@.len()),
    ensures
        seen == run_visible(views(entries@), visible@, start as int, end as int),
{
    let mut i: usize = start;
    while i < end
        invariant
            start <= i <= end <= entries@.len(),
            entries_below(entries@, visible@.len()),
            forall|j: int|
                start <= j < i ==> !entry_visible(#[trigger] views(entries@)[j], visible@),
        decreases end - i,
    {
        assert(views(entries@)[i as int] == entries@[i as int]@);
        if sees_entry(&entries[i], visible) {
            return true;
        }
        i += 1;
    }
    false
}

fn find_run_end(entries: &Vec<SortedModel>, start: usize) -> (end: usize)
    requires
        start < entries@.len(),
    ensures
        end == run_end(views(entries@), start as int),
        start < end <= entries@.len(),
{
    let ghost viewed = views(entries@);
    let mut at: usize = start;
    while entries.len() - at > 1 && entries[at + 1].technique == entries[at].technique
        invariant
            start <= at < entries@.len(),
            viewed == views(entries@),
            run_end(viewed, at as int) == run_end(viewed, start as int),
        decreases entries@.len() - at,
    {
        assert(viewed[at + 1].technique == entries@[at + 1].technique);
        assert(viewed[at as int].technique == entries@[at as int].technique);
        at += 1;
    }
    proof {
        if at + 1 < entries@.len() {
            assert(viewed[at + 1].technique == entries@[at + 1].technique);
            assert(viewed[at as int].technique == entries@[at as int].technique);
        }
    }
    at + 1
}

fn plan_runs(entries: &Vec<SortedModel>, visible: &Vec<bool>) -> (jobs: Vec<StaticJob>)
    requires
        entries_below(entries@, visible@.len()),
    ensures
        jobs@ == visible_runs(views(entries@), visible@, 0),
{
    let ghost viewed = views(entries@);
    let mut jobs: Vec<StaticJob> = Vec::new();
    let mut start: usize = 0;
    while start < entries.len()
        invariant
            start <= entries@.len(),
            viewed == views(entries@),
            entries_below(entries@, visible@.len()),
            jobs@ + visible_runs(viewed, visible@, start as int) =~= visible_runs(
                viewed,
                visible@,
                0,
            ),
        decreases entries@.len() - start,
    {
        let end: usize = find_run_end(entries, start);
        if sees_run(entries, visible, start, end) {
            jobs.push(StaticJob::Run { start, end });
        }
        start = end;
    }
    assert(visible_runs(viewed, visible@, start as int) =~= Seq::empty());
    jobs
}

impl StaticInstancesRenderer {
    /// Every instance group names a mesh.
    pub open spec fn names_models(self) -> bool {
        forall|i: int|
            0 <= i < self.groups@.len() ==> (#[trigger] self.groups@[i]).static_index
                < self.static_models@.len()
    }

    /// A group that can be seen draws in the stage.
    pub open spec fn group_submits(self, visible: Seq<bool>, stage: RenderStage, group: int) -> bool {
        visible[group] && self.static_models@[self.groups@[group].static_index as int].subscribed_stages.has(
            stage,
        )
    }

    /// The groups among the first `count` that draw in the stage.
    pub open spec fn submitted(self, visible: Seq<bool>, stage: RenderStage, count: nat) -> Seq<usize>
        decreases count,
    {
        if count == 0 {
            Seq::empty()
        } else {
            let before = self.submitted(visible, stage, (count - 1) as nat);
            if self.group_submits(visible, stage, count - 1) {
                before.push((count - 1) as usize)
            } else {
                before
            }
        }
    }

    /// Lists the instance groups to draw in a stage, in turn.
    pub fn submit(&self, visible: &Vec<bool>, stage: RenderStage) -> (groups: Vec<usize>)
        requires
            self.names_models(),
            visible@.len() == self.groups@.len(),
        ensures
            groups@ == self.submitted(visible@, stage, self.groups@.len()),
    {
        let mut groups: Vec<usize> = Vec::new();
        let mut i: usize = 0;
        while i < self.groups.len()
            invariant
                i <= self.groups@.len(),
                self.names_models(),
                visible@.len() == self.groups@.len(),
                groups@ == self.submitted(visible@, stage, i as nat),
            decreases self.groups@.len() - i,
        {
            assert(self.groups@[i as int].static_index < self.static_models@.len());
            let mesh: usize = self.groups[i].static_index as usize;
            if visible[i] && self.static_models[mesh].subscribed_stages.is_subscribed(stage) {
                groups.push(i);
            }
            i += 1;
        }
        groups
    }

    /// The jobs of a stage: a run for each technique, or, where nothing is sorted for the
    /// stage, one job for each instance group.
    pub open spec fn jobs(self, visible: Seq<bool>, stage: RenderStage) -> Seq<StaticJob> {
        let entries = self.sorted@[stage.number() as int]@;
        if entries.len() == 0 {
            self.submitted(visible, stage, self.groups@.len()).map_values(
                |group: usize| StaticJob::Group { group },
            )
        } else {
            visible_runs(views(entries), visible, 0)
        }
    }

    /// Splits a stage into jobs.
    pub fn submit_parallel(&self, visible: &Vec<bool>, stage: RenderStage) -> (jobs: Vec<StaticJob>)
        requires
            self.names_models(),
            self.sorted_wf(),
            visible@.len() == self.groups@.len(),
        ensures
            jobs@ == self.jobs(visible@, stage),
    {
        let number: usize = stage.index() as usize;
        assert(entries_below(self.sorted@[number as int]@, self.groups@.len()));
        if self.sorted[number].len() > 0 {
            return plan_runs(&self.sorted[number], visible);
        }
        let groups = self.submit(visible, stage);
        let mut jobs: Vec<StaticJob> = Vec::new();
        let ghost whole = groups@.map_values(|group: usize| StaticJob::Group { group });
        let mut i: usize = 0;
        while i < groups.len()
            invariant
                i <= groups@.len(),
                whole == groups@.map_values(|group: usize| StaticJob::Group { group }),
                jobs@ =~= whole.take(i as int),
            decreases groups@.len() - i,
        {
            jobs.push(StaticJob::Group { group: groups[i] });
            i += 1;
        }
        assert(whole.take(i as int) =~= whole);
        jobs
    }
}

/// The step of one instance group.
pub open spec fn group_step(groups: Seq<StaticInstanceGroup>, visible: Seq<bool>, group: usize) -> RunStep {
    RunStep::Instances {
        group,
        instances: groups[group as int].transforms@.len() as usize,
        seen: visible[group as int],
    }
}

/// The steps of the instance groups of an entry, seen or not.
pub open spec fn group_steps(
    groups: Seq<StaticInstanceGroup>,
    visible: Seq<bool>,
    entry: SortedModelView,
) -> Seq<RunStep> {
    entry.instance_groups.map_values(|group: usize| group_step(groups, visible, group))
}

impl StaticInstancesRenderer {
    /// The steps of one entry, if it has a draw in the stage.
    pub open spec fn entry_steps(
        self,
        details: Seq<MeshDetail>,
        visible: Seq<bool>,
        stage: RenderStage,
        entry: SortedModelView,
        bind_technique: bool,
    ) -> Seq<RunStep> {
        match self.static_models@[entry.model_index].group_draw(
            details[entry.model_index],
            stage,
            entry.group_index,
        ) {
            Some(draw) => seq![RunStep::SetUp { draw, bind_technique }] + group_steps(
                self.groups@,
                visible,
                entry,
            ),
            None => Seq::empty(),
        }
    }

    /// The steps of the entries from `start` up to `end`. Only the set-up of the first entry asks
    /// for the technique that they share.
    pub open spec fn run_steps(
        self,
        details: Seq<MeshDetail>,
        visible: Seq<bool>,
        stage: RenderStage,
        start: int,
        end: int,
    ) -> Seq<RunStep>
        decreases end - start,
    {
        if end <= start {
            Seq::empty()
        } else {
            self.run_steps(details, visible, stage, start, end - 1) + self.entry_steps(
                details,
                visible,
                stage,
                self.sorted@[stage.number() as int]@[end - 1]@,
                end - 1 == start,
            )
        }
    }

    fn push_groups(&self, steps: &mut Vec<RunStep>, entry: &SortedModel, visible: &Vec<bool>)
        requires
            visible@.len() == self.groups@.len(),
            forall|k: int|
                0 <= k < listed(entry.instance_groups).len() ==> (#[trigger] listed(
                    entry.instance_groups,
                )[k]) < self.groups@.len(),
        ensures
            final(steps)@ == old(steps)@ + group_steps(self.groups@, visible@, entry@),
    {
        let ghost whole = group_steps(self.groups@, visible@, entry@);
        let count: usize = index_count(&entry.instance_groups);
        let mut k: usize = 0;
        while k < count
            invariant
                k <= count,
                count == listed(entry.instance_groups).len(),
                visible@.len() == self.groups@.len(),
                whole == group_steps(self.groups@, visible@, entry@),
                forall|k: int|
                    0 <= k < listed(entry.instance_groups).len() ==> (#[trigger] listed(
                        entry.instance_groups,
                    )[k]) < self.groups@.len(),
                steps@ =~= old(steps)@ + whole.take(k as int),
            decreases count - k,
        {
            let group: usize = index_at(&entry.instance_groups, k);
            steps.push(
                RunStep::Instances {
                    group,
                    instances: self.groups[group].transforms.len(),
                    seen: visible[group],
                },
            );
            k += 1;
        }
        assert(whole.take(k as int) =~= whole);
    }

    /// Plans one run of the sorted entries.
    pub fn draw_run(
        &self,
        details: &Vec<MeshDetail>,
        visible: &Vec<bool>,
        stage: RenderStage,
        start: usize,
        end: usize,
    ) -> (steps: Vec<RunStep>)
        requires
            self.sorted_wf(),
            visible@.len() == self.groups@.len(),
            sortable(self.static_models@, details@),
            start <= end <= self.sorted@[stage.number() as int]@.len(),
        ensures
            steps@ == self.run_steps(details@, visible@, stage, start as int, end as int),
    {
        let number: usize = stage.index() as usize;
        let mut steps: Vec<RunStep> = Vec::new();
        let mut i: usize = start;
        while i < end
            invariant
                start <= i <= end <= self.sorted@[stage.number() as int]@.len(),
                number == stage.number(),
                self.sorted_wf(),
                visible@.len() == self.groups@.len(),
                sortable(self.static_models@, details@),
                steps@ =~= self.run_steps(details@, visible@, stage, start as int, i as int),
            decreases end - i,
        {
            assert(entries_below(self.sorted@[number as int]@, self.groups@.len()));
            assert(entries_name_groups(self.sorted@[number as int]@, self.static_models@));
            let entry: &SortedModel = &self.sorted[number][i];
            let model: usize = entry.model_index;
            assert(drawable_groups_name_parts(self.static_models@[model as int]));
            match self.static_models[model].render_group(&details[model], stage, entry.group_index) {
                Some(draw) => {
                    steps.push(RunStep::SetUp { draw, bind_technique: i == start });
                    self.push_groups(&mut steps, entry, visible);
                },
                None => {},
            }
            i += 1;
        }
        steps
    }

    /// Lists the instance groups whose constants are to be written: all of them once, after the
    /// collection was made.
    pub fn prepare(&mut self) -> (groups: Vec<usize>)
        ensures
            groups@ == if old(self).constants_dirty {
                Seq::new(old(self).groups@.len(), |group: int| group as usize)
            } else {
                Seq::empty()
            },
            *final(self) == (StaticInstancesRenderer { constants_dirty: false, ..*old(self) }),
    {
        let mut groups: Vec<usize> = Vec::new();
        if self.constants_dirty {
            let mut i: usize = 0;
            while i < self.groups.len()
                invariant
                    *self == *old(self),
                    i <= self.groups@.len(),
                    groups@ =~= Seq::new(i as nat, |group: int| group as usize),
                decreases self.groups@.len() - i,
            {
                groups.push(i);
                i += 1;
            }
            self.constants_dirty = false;
        }
        groups
    }

    /// Plans the draws of one instance group by itself.
    pub fn draw_group(&self, details: &Vec<MeshDetail>, stage: RenderStage, group: usize) -> (draws:
        Vec<InstancedDraw>)
        requires
            self.names_models(),
            group < self.groups@.len(),
            details@.len() == self.static_models@.len(),
            self.static_models@[self.groups@[group as int].static_index as int].renders(stage),
            self.static_models@[self.groups@[group as int].static_index as int].fits(
                details@[self.groups@[group as int].static_index as int],
            ),
        ensures
            draws@ == self.static_models@[self.groups@[group as int].static_index as int].draws(
                details@[self.groups@[group as int].static_index as int],
                stage,
                self.groups@[group as int].transforms@.len() as usize,
            ),
    {
        let mesh: usize = self.groups[group].static_index as usize;
        self.static_models[mesh].render_all(&details[mesh], stage, self.groups[group].transforms.len())
    }

    /// The entries from `start` up to `end` are set up with their technique, which the first step
    /// asks for, and something is drawn where one of them can be seen.
    proof fn lemma_run_steps(
        self,
        details: Seq<MeshDetail>,
        visible: Seq<bool>,
        stage: RenderStage,
        start: int,
        end: int,
    )
        requires
            0 <= start <= end <= self.sorted@[stage.number() as int]@.len(),
            forall|i: int|
                start <= i < end ==> self.draws_entry(
                    details,
                    stage,
                    #[trigger] self.sorted@[stage.number() as int]@[i]@,
                ),
            forall|i: int|
                start <= i < end ==> (#[trigger] self.sorted@[stage.number() as int]@[i]).technique
                    == self.sorted@[stage.number() as int]@[start].technique,
        ensures
            start < end ==> self.run_steps(details, visible, stage, start, end).len() > 0 && (
            self.run_steps(details, visible, stage, start, end)[0] is SetUp),
            binds_once(
                self.run_steps(details, visible, stage, start, end),
                self.sorted@[stage.number() as int]@[start].technique,
            ),
            run_visible(views(self.sorted@[stage.number() as int]@), visible, start, end)
                ==> draws_something(self.run_steps(details, visible, stage, start, end)),
        decreases end - start,
    {
        if end > start {
            let entries = self.sorted@[stage.number() as int]@;
            self.lemma_run_steps(details, visible, stage, start, end - 1);
            let entry = entries[end - 1]@;
            let before = self.run_steps(details, visible, stage, start, end - 1);
            let added = self.entry_steps(details, visible, stage, entry, end - 1 == start);
            let steps = self.run_steps(details, visible, stage, start, end);
            assert(self.draws_entry(details, stage, entry));
            assert(entries[end - 1].technique == entries[start].technique);
            assert forall|k: int| 0 <= k < steps.len() implies (#[trigger] steps[k] is SetUp
                ==> steps[k]->SetUp_draw.technique == entries[start].technique
                && steps[k]->bind_technique == (k == 0)) by {
                if k < before.len() {
                    assert(steps[k] == before[k]);
                } else {
                    assert(steps[k] == added[k - before.len()]);
                }
            }
            if run_visible(views(entries), visible, start, end) {
                let i = choose|i: int|
                    start <= i < end && entry_visible(#[trigger] views(entries)[i], visible);
                assert(views(entries)[i] == entries[i]@);
                if i < end - 1 {
                    assert(run_visible(views(entries), visible, start, end - 1));
                    let k = choose|k: int|
                        0 <= k < before.len() && #[trigger] before[k] is Instances
                            && before[k]->seen;
                    assert(steps[k] == before[k]);
                } else {
                    let k = choose|k: int|
                        0 <= k < entry.instance_groups.len() && visible[(
                        #[trigger] entry.instance_groups[k]) as int];
                    let place = before.len() + 1 + k;
                    assert(added[1 + k] == group_step(
                        self.groups@,
                        visible,
                        entry.instance_groups[k],
                    ));
                    assert(steps[place] == added[1 + k]);
                }
            }
        }
    }

    /// The entry has a draw in the stage, with its technique.
    pub open spec fn draws_entry(
        self,
        details: Seq<MeshDetail>,
        stage: RenderStage,
        entry: SortedModelView,
    ) -> bool {
        self.static_models@[entry.model_index].group_draw(
            details[entry.model_index],
            stage,
            entry.group_index,
        ) matches Some(draw) && draw.technique == entry.technique
    }
}

/// Every set-up is for the technique, and the first step alone asks to bind it.
pub open spec fn binds_once(steps: Seq<RunStep>, technique: u32) -> bool {
    forall|k: int|
        0 <= k < steps.len() && #[trigger] steps[k] is SetUp ==> steps[k]->SetUp_draw.technique
            == technique && steps[k]->bind_technique == (k == 0)
}

/// An instance group of the steps is drawn, if its entry was set up.
pub open spec fn draws_something(steps: Seq<RunStep>) -> bool {
    exists|k: int| 0 <= k < steps.len() && #[trigger] steps[k] is Instances && steps[k]->seen
}

proof fn lemma_visible_run(entries: Seq<SortedModelView>, visible: Seq<bool>, start: int, job: int)
    requires
        entries.len() <= usize::MAX,
        0 <= start,
        0 <= job < visible_runs(entries, visible, start).len(),
    ensures
        visible_runs(entries, visible, start)[job] matches StaticJob::Run { start: from, end } && {
            &&& from < entries.len()
            &&& end == run_end(entries, from as int)
            &&& run_visible(entries, visible, from as int, end as int)
        },
    decreases entries.len() - start,
{
    let end = run_end(entries, start);
    let rest = visible_runs(entries, visible, end);
    let shift = visible_runs(entries, visible, start).len() - rest.len();
    if job >= shift {
        lemma_visible_run(entries, visible, end, job - shift);
    }
}

/// Every run that is handed out to a worker begins with the set-up that asks for the technique of
/// the run, whichever of its entries are hidden. No other set-up asks for one, all are for that
/// technique, and there is something to draw.
pub proof fn law_runs_bind_their_technique_first(
    collection: StaticInstancesRenderer,
    details: Seq<MeshDetail>,
    groups: Seq<InstanceGroupView>,
    visible: Seq<bool>,
    stage: RenderStage,
    job: int,
)
    requires
        collection.is_made_of(collection.static_models@, details, groups),
        collection.sorted@[stage.number() as int]@.len() <= usize::MAX,
        0 <= job < collection.jobs(visible, stage).len(),
        collection.jobs(visible, stage)[job] is Run,
    ensures
        collection.jobs(visible, stage)[job] matches StaticJob::Run { start, end } && {
            let steps = collection.run_steps(details, visible, stage, start as int, end as int);
            &&& steps.len() > 0
            &&& steps[0] is SetUp
            &&& binds_once(
                steps,
                collection.sorted@[stage.number() as int]@[start as int].technique,
            )
            &&& draws_something(steps)
        },
{
    let entries = collection.sorted@[stage.number() as int]@;
    let viewed = views(entries);
    if entries.len() == 0 {
        assert(collection.jobs(visible, stage)[job] is Group);
    }
    lemma_visible_run(viewed, visible, 0, job);
    let start = collection.jobs(visible, stage)[job]->start as int;
    let end = collection.jobs(visible, stage)[job]->end as int;
    lemma_run_end(viewed, start);
    assert(sorted_for(
        entries,
        collection.static_models@,
        details,
        collection.groups@,
        stage,
    ));
    assert forall|i: int| start <= i < end implies collection.draws_entry(
        details,
        stage,
        #[trigger] entries[i]@,
    ) by {
        lemma_sorted_entry_draws(
            entries,
            collection.static_models@,
            details,
            collection.groups@,
            stage,
            i,
        );
    }
    assert forall|i: int| start <= i < end implies (#[trigger] entries[i]).technique
        == entries[start].technique by {
        assert(viewed[i].technique == viewed[start].technique);
    }
    collection.lemma_run_steps(details, visible, stage, start, end);
}

proof fn lemma_sorted_entry_draws(
    entries: Seq<SortedModel>,
    models: Seq<StaticMesh>,
    details: Seq<MeshDetail>,
    groups: Seq<StaticInstanceGroup>,
    stage: RenderStage,
    i: int,
)
    requires
        sorted_for(entries, models, details, groups, stage),
        0 <= i < entries.len(),
    ensures
        models[entries[i]@.model_index].group_draw(
            details[entries[i]@.model_index],
            stage,
            entries[i]@.group_index,
        ) matches Some(draw) && draw.technique == entries[i]@.technique,
{
    broadcast use vstd::seq_lib::group_to_multiset_ensures;

    let all = stage_entries(models, details, groups, stage, models.len());
    let entry = views(entries)[i];
    assert(views(entries).contains(entry));
    assert(views(entries).to_multiset().count(entry) > 0);
    assert(all.contains(entry));
    let at = choose|at: int| 0 <= at < all.len() && all[at] == entry;
    lemma_stage_entries_name(models, details, groups, stage, models.len(), at);
}

/// What a view sees of an instance group: the group's bounds, and those of its instances.
#[derive(Debug)]
pub struct GroupSight {
    pub group: bool,
    pub instances: Vec<bool>,
}

impl GroupSight {
    /// The group is seen where its bounds are and those of an instance are.
    pub open spec fn seen(self) -> bool {
        self.group && self.instances@.contains(true)
    }

    fn is_seen(&self) -> (seen: bool)
        ensures
            seen == self.seen(),
    {
        if !self.group {
            return false;
        }
        let mut i: usize = 0;
        while i < self.instances.len()
            invariant
                self.group,
                i <= self.instances@.len(),
                forall|k: int| 0 <= k < i ==> !#[trigger] self.instances@[k],
            decreases self.instances@.len() - i,
        {
            if self.instances[i] {
                assert(self.instances@[i as int] == true);
                return true;
            }
            i += 1;
        }
        false
    }
}

/// Updates which instance groups a view sees. Where it does not see the collection, the groups
/// stay as they are.
pub fn visibility_test(visible: &mut Vec<bool>, collection: bool, sights: &Vec<GroupSight>) -> (seen:
    bool)
    requires
        old(visible)@.len() == sights@.len(),
    ensures
        !collection ==> !seen && final(visible)@ == old(visible)@,
        collection ==> {
            &&& final(visible)@ == sights@.map_values(|sight: GroupSight| sight.seen())
            &&& seen == final(visible)@.contains(true)
        },
{
    if !collection {
        return false;
    }
    let mut seen: bool = false;
    let mut i: usize = 0;
    while i < sights.len()
        invariant
            i <= sights@.len(),
            visible@.len() == sights@.len(),
            forall|k: int| 0 <= k < i ==> #[trigger] visible@[k] == sights@[k].seen(),
            seen == exists|k: int| 0 <= k < i && #[trigger] visible@[k],
        decreases sights@.len() - i,
    {
        let now: bool = sights[i].is_seen();
        let ghost before = visible@;
        visible.set(i, now);
        proof {
            assert forall|k: int| 0 <= k < i implies #[trigger] visible@[k] == before[k] by {}
            assert(visible@[i as int] == now);
            if seen {
                let k = choose|k: int| 0 <= k < i && #[trigger] before[k];
                assert(visible@[k]);
            }
        }
        seen = seen || now;
        i += 1;
    }
    assert(visible@ =~= sights@.map_values(|sight: GroupSight| sight.seen()));
    assert(seen == visible@.contains(true)) by {
        if seen {
            let k = choose|k: int| 0 <= k < i && #[trigger] visible@[k];
            assert(visible@[k] == true);
        }
        if visible@.contains(true) {
            let k = choose|k: int| 0 <= k < visible@.len() && visible@[k] == true;
            assert(visible@[k]);
        }
    }
    seen
}

/// A technique can be drawn with.
pub open spec fn technique_ready(handle: Handle<TechniqueStatus>) -> bool {
    handle.asset.tag == NO_TAG || (handle.asset.state matches AssetState::Ready(technique)
        && technique.loaded)
}

/// Tells whether all techniques of the groups and of the special meshes can be drawn with.
pub fn is_loaded(
    materials: &Vec<Handle<TechniqueStatus>>,
    specials: &Vec<Handle<TechniqueStatus>>,
) -> (loaded: bool)
    ensures
        loaded == ((forall|i: int|
            0 <= i < materials@.len() ==> technique_ready(#[trigger] materials@[i])) && (forall|i: int|
            0 <= i < specials@.len() ==> technique_ready(#[trigger] specials@[i]))),
{
    let mut i: usize = 0;
    while i < materials.len()
        invariant
            i <= materials@.len(),
            forall|k: int| 0 <= k < i ==> technique_ready(#[trigger] materials@[k]),
        decreases materials@.len() - i,
    {
        if !is_technique_loaded(&materials[i]) {
            assert(!technique_ready(materials@[i as int]));
            return false;
        }
        i += 1;
    }
    let mut j: usize = 0;
    while j < specials.len()
        invariant
            j <= specials@.len(),
            forall|k: int| 0 <= k < j ==> technique_ready(#[trigger] specials@[k]),
        decreases specials@.len() - j,
    {
        if !is_technique_loaded(&specials[j]) {
            assert(!technique_ready(specials@[j as int]));
            return false;
        }
        j += 1;
    }
    true
}

/// The place of the bounds of a transform: by the table where there is one.
pub open spec fn bounds_place(table: Seq<u32>, transform: int) -> Option<int> {
    if table.len() == 0 {
        Some(transform)
    } else if transform < table.len() {
        Some(table[transform] as int)
    } else {
        None
    }
}

/// The places of the bounds of the transforms from `start` up to `end`, or the first refusal.
pub open spec fn bounds_outcome(table: Seq<u32>, bounds: nat, start: int, end: int) -> Result<
    Seq<usize>,
    Seq<char>,
>
    decreases end - start,
{
    if end <= start {
        Ok(Seq::empty())
    } else {
        match bounds_outcome(table, bounds, start, end - 1) {
            Err(message) => Err(message),
            Ok(places) => match bounds_place(table, end - 1) {
                None => Err("Invalid transform to bounds index"@),
                Some(place) => if place < bounds {
                    Ok(places.push(place as usize))
                } else {
                    Err("Invalid occlusion bounds index"@)
                },
            },
        }
    }
}

proof fn lemma_bounds_refusal_stays(table: Seq<u32>, bounds: nat, start: int, at: int, end: int)
    requires
        start <= at <= end,
        bounds_outcome(table, bounds, start, at) is Err,
    ensures
        bounds_outcome(table, bounds, start, end) == bounds_outcome(table, bounds, start, at),
    decreases end - at,
{
    if at < end {
        lemma_bounds_refusal_stays(table, bounds, start, at, end - 1);
    }
}

/// Finds the bounds of the instances of a group, which takes `count` of the transforms.
pub fn instance_bounds(
    start: u32,
    count: u32,
    transforms: usize,
    table: &[u32],
    bounds: usize,
) -> (result: Result<Vec<usize>, Error>)
    requires
        start + count <= u32::MAX,
    ensures
        start + count > transforms ==> (result matches Err(error) && error@
            == "Invalid instance transform range"@),
        start + count <= transforms ==> match result {
            Ok(places) => bounds_outcome(table@, bounds as nat, start as int, start + count) == Ok::<
                Seq<usize>,
                Seq<char>,
            >(places@),
            Err(error) => bounds_outcome(table@, bounds as nat, start as int, start + count)
                == Err::<Seq<usize>, Seq<char>>(error@),
        },
{
    let end: u32 = start + count;
    if end as usize > transforms {
        return Err(Error { message: String::from_str("Invalid instance transform range") });
    }
    let mut places: Vec<usize> = Vec::new();
    let mut i: u32 = start;
    while i < end
        invariant
            start <= i <= end,
            bounds_outcome(table@, bounds as nat, start as int, i as int) == Ok::<
                Seq<usize>,
                Seq<char>,
            >(places@),
            start + count == end,
            end <= transforms,
        decreases end - i,
    {
        let place: usize = if table.len() == 0 {
            i as usize
        } else if (i as usize) < table.len() {
            table[i as usize] as usize
        } else {
            proof {
                lemma_bounds_refusal_stays(
                    table@,
                    bounds as nat,
                    start as int,
                    i + 1,
                    end as int,
                );
            }
            return Err(Error { message: String::from_str("Invalid transform to bounds index") });
        };
        if place >= bounds {
            proof {
                lemma_bounds_refusal_stays(
                    table@,
                    bounds as nat,
                    start as int,
                    i + 1,
                    end as int,
                );
            }
            return Err(Error { message: String::from_str("Invalid occlusion bounds index") });
        }
        places.push(place);
        i += 1;
    }
    Ok(places)
}

/// The bytes of the constants of one instance.
pub const INSTANCE_BLOCK_SIZE: usize = 64;

/// The bytes of the two quantization vectors before the instances.
pub const QUANTIZATION_SIZE: usize = 32;

/// The size of the constant buffer of a group. The preserved layout has no quantization
/// vectors.
pub fn constants_size(instances: usize, shadowkeep_layout: bool) -> (size: usize)
    requires
        QUANTIZATION_SIZE + instances * INSTANCE_BLOCK_SIZE <= usize::MAX,
    ensures
        size == instances * INSTANCE_BLOCK_SIZE + if shadowkeep_layout {
            0
        } else {
            QUANTIZATION_SIZE as int
        },
{
    let blocks: usize = instances * INSTANCE_BLOCK_SIZE;
    if shadowkeep_layout {
        blocks
    } else {
        QUANTIZATION_SIZE + blocks
    }
}

/// The value that stands for no vertex occlusion.
pub const NO_VERTEX_AO: u32 = 0xffff_ffff;

/// Where the vertex occlusion of an instance begins, in words, if the mesh has any.
pub fn vertex_ao_place(offset: u32, base: Option<u32>) -> (place: u32)
    requires
        base is Some ==> offset + base->Some_0 <= u32::MAX,
    ensures
        place == vertex_ao_of(offset, base),
{
    match base {
        Some(start) => (offset + start) / 4,
        None => NO_VERTEX_AO,
    }
}

/// The last vector of an instance's constants: the texture coordinates of the mesh in the
/// preserved layout, and otherwise the place of its vertex occlusion.
pub open spec fn instance_params(mesh: StaticMesh, vertex_ao: u32, shadowkeep_layout: bool) -> Vec4Bits {
    if shadowkeep_layout {
        Vec4Bits {
            x: mesh.texture_coordinate_scale,
            y: mesh.texture_coordinate_offset.x,
            z: mesh.texture_coordinate_offset.y,
            w: mesh.max_color_index,
        }
    } else {
        Vec4Bits { x: ONE_BITS, y: ONE_BITS, z: ONE_BITS, w: vertex_ao }
    }
}

pub fn params_of_instance(mesh: &StaticMesh, vertex_ao: u32, shadowkeep_layout: bool) -> (params:
    Vec4Bits)
    ensures
        params == instance_params(*mesh, vertex_ao, shadowkeep_layout),
{
    if shadowkeep_layout {
        Vec4Bits {
            x: mesh.texture_coordinate_scale,
            y: mesh.texture_coordinate_offset.x,
            z: mesh.texture_coordinate_offset.y,
            w: mesh.max_color_index,
        }
    } else {
        Vec4Bits { x: ONE_BITS, y: ONE_BITS, z: ONE_BITS, w: vertex_ao }
    }
}

/// The two quantization vectors of a mesh.
pub fn quantization(mesh: &StaticMesh) -> (vectors: (Vec4Bits, Vec4Bits))
    ensures
        vectors.0 == (Vec4Bits {
            x: mesh.mesh_offset.x,
            y: mesh.mesh_offset.y,
            z: mesh.mesh_offset.z,
            w: mesh.mesh_scale,
        }),
        vectors.1 == (Vec4Bits {
            x: mesh.texture_coordinate_scale,
            y: mesh.texture_coordinate_offset.x,
            z: mesh.texture_coordinate_offset.y,
            w: mesh.max_color_index,
        }),
{
    (
        Vec4Bits {
            x: mesh.mesh_offset.x,
            y: mesh.mesh_offset.y,
            z: mesh.mesh_offset.z,
            w: mesh.mesh_scale,
        },
        Vec4Bits {
            x: mesh.texture_coordinate_scale,
            y: mesh.texture_coordinate_offset.x,
            z: mesh.texture_coordinate_offset.y,
            w: mesh.max_color_index,
        },
    )
}

/// The first three rows of the matrix of an instance.
#[derive(Clone, Copy, Debug, PartialEq, Eq, Structural)]
pub struct InstanceRows {
    pub x: Vec4Bits,
    pub y: Vec4Bits,
    pub z: Vec4Bits,
}

/// Where the vertex occlusion of an instance begins, in words.
pub open spec fn vertex_ao_of(offset: u32, base: Option<u32>) -> u32 {
    match base {
        Some(start) => ((offset + start) / 4) as u32,
        None => NO_VERTEX_AO,
    }
}

/// The vectors before the instances.
pub open spec fn constants_header(mesh: StaticMesh, shadowkeep_layout: bool) -> Seq<Vec4Bits> {
    if shadowkeep_layout {
        Seq::empty()
    } else {
        seq![
            Vec4Bits {
                x: mesh.mesh_offset.x,
                y: mesh.mesh_offset.y,
                z: mesh.mesh_offset.z,
                w: mesh.mesh_scale,
            },
            Vec4Bits {
                x: mesh.texture_coordinate_scale,
                y: mesh.texture_coordinate_offset.x,
                z: mesh.texture_coordinate_offset.y,
                w: mesh.max_color_index,
            },
        ]
    }
}

impl StaticInstanceGroup {
    /// The constants of the header and the first `count` instances: of each its rows and its last
    /// vector.
    pub open spec fn constants_of(
        self,
        mesh: StaticMesh,
        rows: Seq<InstanceRows>,
        base: Option<u32>,
        shadowkeep_layout: bool,
        count: nat,
    ) -> Seq<Vec4Bits>
        decreases count,
    {
        if count == 0 {
            constants_header(mesh, shadowkeep_layout)
        } else {
            let at = count - 1;
            self.constants_of(mesh, rows, base, shadowkeep_layout, at as nat) + seq![
                rows[at].x,
                rows[at].y,
                rows[at].z,
                instance_params(
                    mesh,
                    vertex_ao_of(self.transforms@[at].vertex_ao_offset, base),
                    shadowkeep_layout,
                ),
            ]
        }
    }

    /// Lays out the constants of the group. `rows` are the matrices of its instances, `base` is
    /// where the vertex occlusion of the collection begins.
    pub fn update_constants(
        &self,
        mesh: &StaticMesh,
        rows: &Vec<InstanceRows>,
        base: Option<u32>,
        shadowkeep_layout: bool,
    ) -> (data: Vec<Vec4Bits>)
        requires
            rows@.len() == self.transforms@.len(),
            base matches Some(start) ==> forall|i: int|
                0 <= i < self.transforms@.len() ==> (#[trigger] self.transforms@[i]).vertex_ao_offset
                    + start <= u32::MAX,
        ensures
            data@ == self.constants_of(
                *mesh,
                rows@,
                base,
                shadowkeep_layout,
                self.transforms@.len(),
            ),
    {
        let mut data: Vec<Vec4Bits> = Vec::new();
        if !shadowkeep_layout {
            let (first, second) = quantization(mesh);
            data.push(first);
            data.push(second);
        }
        assert(data@ =~= constants_header(*mesh, shadowkeep_layout));
        let mut i: usize = 0;
        while i < self.transforms.len()
            invariant
                i <= self.transforms@.len(),
                rows@.len() == self.transforms@.len(),
                base matches Some(start) ==> forall|i: int|
                    0 <= i < self.transforms@.len() ==> (
                    #[trigger] self.transforms@[i]).vertex_ao_offset + start <= u32::MAX,
                data@ == self.constants_of(*mesh, rows@, base, shadowkeep_layout, i as nat),
            decreases self.transforms@.len() - i,
        {
            let ghost before = data@;
            assert(base matches Some(start) ==> self.transforms@[i as int].vertex_ao_offset + start
                <= u32::MAX);
            let vertex_ao: u32 = vertex_ao_place(self.transforms[i].vertex_ao_offset, base);
            let params = params_of_instance(mesh, vertex_ao, shadowkeep_layout);
            data.push(rows[i].x);
            data.push(rows[i].y);
            data.push(rows[i].z);
            data.push(params);
            assert(data@ =~= before + seq![
                rows@[i as int].x,
                rows@[i as int].y,
                rows@[i as int].z,
                params,
            ]);
            i += 1;
        }
        data
    }

    proof fn lemma_constants_length(
        self,
        mesh: StaticMesh,
        rows: Seq<InstanceRows>,
        base: Option<u32>,
        shadowkeep_layout: bool,
        count: nat,
    )
        ensures
            self.constants_of(mesh, rows, base, shadowkeep_layout, count).len() == 4 * count + (
            if shadowkeep_layout {
                0int
            } else {
                2
            }),
        decreases count,
    {
        if count > 0 {
            self.lemma_constants_length(mesh, rows, base, shadowkeep_layout, (count - 1) as nat);
        }
    }
}

/// The constants of a group fill the buffer that is made for them: sixteen bytes for each vector.
pub proof fn law_constants_fill_their_buffer(
    group: StaticInstanceGroup,
    mesh: StaticMesh,
    rows: Seq<InstanceRows>,
    base: Option<u32>,
    shadowkeep_layout: bool,
)
    ensures
        16 * group.constants_of(
            mesh,
            rows,
            base,
            shadowkeep_layout,
            group.transforms@.len(),
        ).len() == group.transforms@.len() * INSTANCE_BLOCK_SIZE + (if shadowkeep_layout {
            0int
        } else {
            QUANTIZATION_SIZE as int
        }),
{
    group.lemma_constants_length(mesh, rows, base, shadowkeep_layout, group.transforms@.len());
}

/// The instances of one mesh in the current era: a range of the transforms.
#[derive(Clone, Copy, Debug, PartialEq, Eq, Structural)]
pub struct SStaticMeshInstanceGroup {
    pub instance_start: u32,
    pub instance_count: u32,
    pub static_index: u16,
}

/// A collection of the current era, whose instances have bounds of their own.
#[derive(Debug)]
pub struct SStaticMeshInstances {
    pub transforms: Vec<SStaticInstanceTransform>,
    pub instance_groups: Vec<SStaticMeshInstanceGroup>,
    pub transform_to_bounds_index: Vec<u32>,
    /// How many bounds there are.
    pub occlusion_bounds: usize,
    pub vertex_ao_identifier: u64,
}

/// An instance group, and the places of the bounds of its instances.
pub struct BoundedGroupView {
    pub group: InstanceGroupView,
    pub bounds: Seq<usize>,
}

/// The groups with their bounds.
pub open spec fn joined(groups: Seq<StaticInstanceGroup>, bounds: Seq<Vec<usize>>) -> Seq<
    BoundedGroupView,
> {
    Seq::new(
        groups.len(),
        |i: int| BoundedGroupView { group: groups[i]@, bounds: bounds[i]@ },
    )
}

/// A group takes its range of the transforms, and bounds for each of them.
pub open spec fn bounded_outcome(
    group: SStaticMeshInstanceGroup,
    instances: SStaticMeshInstances,
) -> Result<BoundedGroupView, Seq<char>> {
    let start = group.instance_start as int;
    let end = group.instance_start + group.instance_count;
    if end > instances.transforms@.len() {
        Err("Invalid instance transform range"@)
    } else {
        match bounds_outcome(
            instances.transform_to_bounds_index@,
            instances.occlusion_bounds as nat,
            start,
            end,
        ) {
            Err(message) => Err(message),
            Ok(bounds) => Ok(
                BoundedGroupView {
                    group: InstanceGroupView {
                        transforms: instances.transforms@.subrange(start, end),
                        static_index: group.static_index,
                    },
                    bounds,
                },
            ),
        }
    }
}

fn load_bounded_group(group: &SStaticMeshInstanceGroup, instances: &SStaticMeshInstances) -> (result:
    Result<(StaticInstanceGroup, Vec<usize>), Error>)
    requires
        group.instance_start + group.instance_count <= u32::MAX,
    ensures
        match result {
            Ok(loaded) => bounded_outcome(*group, *instances) == Ok::<BoundedGroupView, Seq<char>>(
                BoundedGroupView { group: loaded.0@, bounds: loaded.1@ },
            ),
            Err(error) => bounded_outcome(*group, *instances) == Err::<
                BoundedGroupView,
                Seq<char>,
            >(error@),
        },
{
    let bounds = match instance_bounds(
        group.instance_start,
        group.instance_count,
        instances.transforms.len(),
        instances.transform_to_bounds_index.as_slice(),
        instances.occlusion_bounds,
    ) {
        Err(error) => {
            return Err(error);
        },
        Ok(bounds) => bounds,
    };
    let start: usize = group.instance_start as usize;
    let end: usize = (group.instance_start + group.instance_count) as usize;
    let mut transforms: Vec<SStaticInstanceTransform> = Vec::new();
    let ghost whole = instances.transforms@.subrange(start as int, end as int);
    let mut i: usize = start;
    while i < end
        invariant
            start <= i <= end <= instances.transforms@.len(),
            whole == instances.transforms@.subrange(start as int, end as int),
            transforms@ =~= whole.take(i - start),
        decreases end - i,
    {
        transforms.push(instances.transforms[i]);
        i += 1;
    }
    assert(transforms@ =~= whole);
    Ok((StaticInstanceGroup { transforms, static_index: group.static_index }, bounds))
}

/// Takes the instance groups of a collection of the current era, or the first refusal.
fn load_bounded_groups(instances: &SStaticMeshInstances) -> (result: Result<
    (Vec<StaticInstanceGroup>, Vec<Vec<usize>>),
    Error,
>)
    requires
        forall|i: int|
            0 <= i < instances.instance_groups@.len() ==> (
            #[trigger] instances.instance_groups@[i]).instance_start
                + instances.instance_groups@[i].instance_count <= u32::MAX,
    ensures
        match result {
            Ok(loaded) => loaded.0@.len() == loaded.1@.len() && converted(
                instances.instance_groups@,
                |g: SStaticMeshInstanceGroup| bounded_outcome(g, *instances),
            ) == Ok::<Seq<BoundedGroupView>, Seq<char>>(joined(loaded.0@, loaded.1@)),
            Err(error) => converted(
                instances.instance_groups@,
                |g: SStaticMeshInstanceGroup| bounded_outcome(g, *instances),
            ) == Err::<Seq<BoundedGroupView>, Seq<char>>(error@),
        },
{
    let ghost convert = |g: SStaticMeshInstanceGroup| bounded_outcome(g, *instances);
    let mut groups: Vec<StaticInstanceGroup> = Vec::new();
    let mut bounds: Vec<Vec<usize>> = Vec::new();
    let mut i: usize = 0;
    assert(instances.instance_groups@.take(0) =~= Seq::empty());
    assert(joined(groups@, bounds@) =~= Seq::empty());
    while i < instances.instance_groups.len()
        invariant
            i <= instances.instance_groups@.len(),
            convert == (|g: SStaticMeshInstanceGroup| bounded_outcome(g, *instances)),
            forall|i: int|
                0 <= i < instances.instance_groups@.len() ==> (
                #[trigger] instances.instance_groups@[i]).instance_start
                    + instances.instance_groups@[i].instance_count <= u32::MAX,
            converted(instances.instance_groups@.take(i as int), convert) == Ok::<
                Seq<BoundedGroupView>,
                Seq<char>,
            >(joined(groups@, bounds@)),
            groups@.len() == bounds@.len(),
        decreases instances.instance_groups@.len() - i,
    {
        proof {
            crate::statics::lemma_conversion_step(instances.instance_groups@, convert, i as int);
        }
        assert(instances.instance_groups@[i as int].instance_start
            + instances.instance_groups@[i as int].instance_count <= u32::MAX);
        match load_bounded_group(&instances.instance_groups[i], instances) {
            Err(error) => {
                return Err(error);
            },
            Ok((group, places)) => {
                let ghost before = joined(groups@, bounds@);
                groups.push(group);
                bounds.push(places);
                assert(joined(groups@, bounds@) =~= before.push(
                    BoundedGroupView { group: group@, bounds: places@ },
                ));
            },
        }
        i += 1;
    }
    assert(instances.instance_groups@.take(i as int) =~= instances.instance_groups@);
    Ok((groups, bounds))
}

/// The place of a mesh that is drawn on its own: where it was modelled, at its own size.
pub fn single_instance() -> (group: StaticInstanceGroup)
    ensures
        group.static_index == 0,
        group.transforms@ == seq![
            SStaticInstanceTransform {
                rotation: Vec4Bits { x: 0, y: 0, z: 0, w: ONE_BITS },
                translation: Vec3Bits { x: 0, y: 0, z: 0 },
                scale: ONE_BITS,
                unk20: (0, 0),
                vertex_ao_offset: 0,
            },
        ],
{
    let mut transforms: Vec<SStaticInstanceTransform> = Vec::new();
    transforms.push(
        SStaticInstanceTransform {
            rotation: Vec4Bits { x: 0, y: 0, z: 0, w: ONE_BITS },
            translation: Vec3Bits { x: 0, y: 0, z: 0 },
            scale: ONE_BITS,
            unk20: (0, 0),
            vertex_ao_offset: 0,
        },
    );
    let group = StaticInstanceGroup { transforms, static_index: 0 };
    assert(group.transforms@ =~= seq![
        SStaticInstanceTransform {
            rotation: Vec4Bits { x: 0, y: 0, z: 0, w: ONE_BITS },
            translation: Vec3Bits { x: 0, y: 0, z: 0 },
            scale: ONE_BITS,
            unk20: (0, 0),
            vertex_ao_offset: 0,
        },
    ]);
    group
}

/// A loaded collection has one group for each stored group.
pub proof fn law_groups_are_kept_in_order(
    collection: StaticInstancesRenderer,
    statics: Seq<SShadowkeepStaticMesh>,
    details: Seq<MeshDetail>,
    instances: SShadowkeepStaticMeshInstances,
)
    requires
        loads_as(collection, statics, details, instances),
    ensures
        collection.groups@.len() == instances.instance_groups@.len(),
{
    let convert = |g: SShadowkeepStaticMeshInstanceGroup| instance_outcome(g, instances.transforms@);
    crate::statics::lemma_converted_items(instances.instance_groups@, convert, 0);
    assert(views(collection.groups@).len() == collection.groups@.len());
}

/// A group places the mesh that the stored group names, once for each transform of the stored
/// range, which lies within the transforms.
pub proof fn law_groups_take_their_range(
    collection: StaticInstancesRenderer,
    statics: Seq<SShadowkeepStaticMesh>,
    details: Seq<MeshDetail>,
    instances: SShadowkeepStaticMeshInstances,
    g: int,
)
    requires
        loads_as(collection, statics, details, instances),
        0 <= g < collection.groups@.len(),
    ensures
        collection.groups@[g].static_index == instances.instance_groups@[g].static_index,
        collection.groups@[g].transforms@.len() == instances.instance_groups@[g].instance_count,
        instances.instance_groups@[g].instance_start + instances.instance_groups@[g].instance_count
            <= instances.transforms@.len(),
{
    let convert = |g: SShadowkeepStaticMeshInstanceGroup| instance_outcome(g, instances.transforms@);
    crate::statics::lemma_converted_items(instances.instance_groups@, convert, g);
    assert(views(collection.groups@)[g] == collection.groups@[g]@);
}

/// Each instance stands where the stored transform of its number puts it: in the stored place,
/// turned as stored, and scaled evenly by the first of the stored scales.
pub proof fn law_instances_stand_where_they_are_stored(
    collection: StaticInstancesRenderer,
    statics: Seq<SShadowkeepStaticMesh>,
    details: Seq<MeshDetail>,
    instances: SShadowkeepStaticMeshInstances,
    g: int,
    k: int,
)
    requires
        loads_as(collection, statics, details, instances),
        0 <= g < collection.groups@.len(),
        0 <= k < collection.groups@[g].transforms@.len(),
    ensures
        ({
            let instance = collection.groups@[g].transforms@[k];
            let stored = instances.transforms@[instances.instance_groups@[g].instance_start + k];
            &&& instance.translation == stored.translation
            &&& instance.rotation == stored.rotation
            &&& instance.scale == stored.scale.x
            &&& instance.unk20.0 == stored.unk28
            &&& instance.unk20.1 == stored.unk2c
            &&& instance.vertex_ao_offset == 0
        }),
{
    law_groups_take_their_range(collection, statics, details, instances, g);
    let convert = |g: SShadowkeepStaticMeshInstanceGroup| instance_outcome(g, instances.transforms@);
    crate::statics::lemma_converted_items(instances.instance_groups@, convert, g);
    assert(views(collection.groups@)[g] == collection.groups@[g]@);
}

/// The collection is what loading the stored meshes and instances gives.
pub open spec fn loads_as(
    collection: StaticInstancesRenderer,
    statics: Seq<SShadowkeepStaticMesh>,
    details: Seq<MeshDetail>,
    instances: SShadowkeepStaticMeshInstances,
) -> bool {
    match converted(
        instances.instance_groups@,
        |g: SShadowkeepStaticMeshInstanceGroup| instance_outcome(g, instances.transforms@),
    ) {
        Err(_) => false,
        Ok(groups) => collection.holds(statics, details, groups),
    }
}

/// Each instance of a group has four vectors among the constants: the three rows of its matrix
/// and its parameters, in this order, behind those of the instances before it and behind the two
/// vectors of the mesh where the layout has them.
pub proof fn law_constants_keep_their_rows(
    group: StaticInstanceGroup,
    mesh: StaticMesh,
    rows: Seq<InstanceRows>,
    base: Option<u32>,
    shadowkeep_layout: bool,
    count: nat,
    k: int,
)
    requires
        0 <= k < count,
    ensures
        ({
            let data = group.constants_of(mesh, rows, base, shadowkeep_layout, count);
            let start: int = if shadowkeep_layout {
                0
            } else {
                2
            };
            &&& data.len() == start + 4 * count
            &&& data[start + 4 * k] == rows[k].x
            &&& data[start + 4 * k + 1] == rows[k].y
            &&& data[start + 4 * k + 2] == rows[k].z
            &&& shadowkeep_layout ==> {
                &&& data[start + 4 * k + 3].x == mesh.texture_coordinate_scale
                &&& data[start + 4 * k + 3].y == mesh.texture_coordinate_offset.x
                &&& data[start + 4 * k + 3].z == mesh.texture_coordinate_offset.y
                &&& data[start + 4 * k + 3].w == mesh.max_color_index
            }
            &&& !shadowkeep_layout ==> {
                &&& data[0].x == mesh.mesh_offset.x
                &&& data[0].y == mesh.mesh_offset.y
                &&& data[0].z == mesh.mesh_offset.z
                &&& data[0].w == mesh.mesh_scale
                &&& data[1].x == mesh.texture_coordinate_scale
                &&& data[1].y == mesh.texture_coordinate_offset.x
                &&& data[1].z == mesh.texture_coordinate_offset.y
                &&& data[1].w == mesh.max_color_index
                &&& data[start + 4 * k + 3].x == 0x3f80_0000
                &&& data[start + 4 * k + 3].y == 0x3f80_0000
                &&& data[start + 4 * k + 3].z == 0x3f80_0000
                &&& base is None ==> data[start + 4 * k + 3].w == 0xffff_ffff
                &&& base is Some && group.transforms@[k].vertex_ao_offset + base->Some_0
                    <= u32::MAX ==> data[start + 4 * k + 3].w as int == (
                group.transforms@[k].vertex_ao_offset + base->Some_0) / 4
            }
        }),
    decreases count,
{
    let before = (count - 1) as nat;
    group.lemma_constants_length(mesh, rows, base, shadowkeep_layout, count);
    group.lemma_constants_length(mesh, rows, base, shadowkeep_layout, before);
    if k < before {
        law_constants_keep_their_rows(group, mesh, rows, base, shadowkeep_layout, before, k);
    } else {
        lemma_constants_begin(group, mesh, rows, base, shadowkeep_layout, before);
    }
}

proof fn lemma_constants_begin(
    group: StaticInstanceGroup,
    mesh: StaticMesh,
    rows: Seq<InstanceRows>,
    base: Option<u32>,
    shadowkeep_layout: bool,
    count: nat,
)
    ensures
        !shadowkeep_layout ==> {
            let data = group.constants_of(mesh, rows, base, shadowkeep_layout, count);
            &&& data.len() >= 2
            &&& data[0] == constants_header(mesh, false)[0]
            &&& data[1] == constants_header(mesh, false)[1]
        },
    decreases count,
{
    if count > 0 {
        lemma_constants_begin(group, mesh, rows, base, shadowkeep_layout, (count - 1) as nat);
    }
}

/// A group of the current era takes the transforms of its range as they are. The bounds of its
/// `k`th instance are those that the table names for that transform, or those of the transform's
/// own number where there is no table.
pub proof fn law_current_groups_take_their_range(
    group: SStaticMeshInstanceGroup,
    instances: SStaticMeshInstances,
    k: int,
)
    requires
        bounded_outcome(group, instances) is Ok,
        instances.occlusion_bounds <= usize::MAX,
        0 <= k < group.instance_count,
    ensures
        ({
            let loaded = bounded_outcome(group, instances)->Ok_0;
            let transform = group.instance_start + k;
            &&& loaded.group.static_index == group.static_index
            &&& loaded.group.transforms.len() == group.instance_count
            &&& transform < instances.transforms@.len()
            &&& loaded.group.transforms[k] == instances.transforms@[transform]
            &&& loaded.bounds.len() == group.instance_count
            &&& loaded.bounds[k] < instances.occlusion_bounds
            &&& instances.transform_to_bounds_index@.len() == 0 ==> loaded.bounds[k] == transform
            &&& instances.transform_to_bounds_index@.len() > 0 ==> {
                &&& transform < instances.transform_to_bounds_index@.len()
                &&& loaded.bounds[k] == instances.transform_to_bounds_index@[transform]
            }
        }),
{
    lemma_bounds_are_named(
        instances.transform_to_bounds_index@,
        instances.occlusion_bounds as nat,
        group.instance_start as int,
        group.instance_start + group.instance_count,
        k,
    );
}

proof fn lemma_bounds_are_named(table: Seq<u32>, bounds: nat, start: int, end: int, k: int)
    requires
        bounds_outcome(table, bounds, start, end) is Ok,
        bounds <= usize::MAX,
        0 <= start <= end,
    ensures
        ({
            let places = bounds_outcome(table, bounds, start, end)->Ok_0;
            &&& places.len() == end - start
            &&& 0 <= k < end - start ==> {
                &&& places[k] < bounds
                &&& table.len() == 0 ==> places[k] == start + k
                &&& table.len() > 0 ==> start + k < table.len() && places[k] == table[start + k]
            }
        }),
    decreases end - start,
{
    if start < end {
        lemma_bounds_are_named(table, bounds, start, end - 1, k);
    }
}

/// The groups that place a mesh are those that name it, each once, in turn.
pub proof fn law_groups_place_the_mesh_they_name(
    groups: Seq<StaticInstanceGroup>,
    mesh: u16,
    count: nat,
    group: usize,
)
    requires
        count <= groups.len() <= usize::MAX,
    ensures
        groups_placing(groups, mesh, count).contains(group) <==> group < count
            && groups[group as int].static_index == mesh,
        forall|i: int, j: int|
            0 <= i < j < groups_placing(groups, mesh, count).len() ==> groups_placing(
                groups,
                mesh,
                count,
            )[i] < groups_placing(groups, mesh, count)[j],
    decreases count,
{
    if count > 0 {
        let before = groups_placing(groups, mesh, (count - 1) as nat);
        let now = groups_placing(groups, mesh, count);
        law_groups_place_the_mesh_they_name(groups, mesh, (count - 1) as nat, group);
        assert forall|i: int| 0 <= i < before.len() implies #[trigger] before[i] < count - 1 by {
            law_groups_place_the_mesh_they_name(groups, mesh, (count - 1) as nat, before[i]);
            assert(before.contains(before[i]));
        }
        if groups[count - 1].static_index == mesh {
            assert(now[before.len() as int] == (count - 1) as usize);
            if before.contains(group) {
                let place = choose|i: int| 0 <= i < before.len() && before[i] == group;
                assert(now[place] == group);
            }
            if now.contains(group) && group != (count - 1) as usize {
                let place = choose|i: int| 0 <= i < now.len() && now[i] == group;
                assert(before[place] == group);
            }
        }
    }
}

/// The entries hold one of the group of the mesh.
pub open spec fn has_entry(
    entries: Seq<SortedModelView>,
    technique: u32,
    model_index: int,
    group: int,
    instance_groups: Seq<usize>,
) -> bool {
    exists|i: int|
        0 <= i < entries.len() && (#[trigger] entries[i]).group_index == group
            && entries[i].technique == technique && entries[i].model_index == model_index
            && entries[i].instance_groups == instance_groups
}

/// Every group of a mesh that draws in a stage at the highest detail, and has a technique, has an
/// entry in the stage, with its own technique and the instance groups that place its mesh.
pub proof fn law_drawn_groups_have_an_entry(
    mesh: StaticMesh,
    detail: MeshDetail,
    groups: Seq<StaticInstanceGroup>,
    model_index: int,
    stage: RenderStage,
    count: nat,
    group: int,
)
    requires
        0 <= group < count,
        count <= mesh.mesh_groups@.len(),
        mesh.mesh_groups@[group].render_stage == stage,
        detail.parts@[mesh.mesh_groups@[group].part_index as int],
    ensures
        has_entry(
            mesh_entries(mesh, detail, groups, model_index, stage, count),
            mesh.techniques@[group],
            model_index,
            group,
            groups_placing(groups, (model_index % 0x1_0000) as u16, groups.len()),
        ),
    decreases count,
{
    let before = mesh_entries(mesh, detail, groups, model_index, stage, (count - 1) as nat);
    let now = mesh_entries(mesh, detail, groups, model_index, stage, count);
    if group < count - 1 {
        law_drawn_groups_have_an_entry(
            mesh,
            detail,
            groups,
            model_index,
            stage,
            (count - 1) as nat,
            group,
        );
        let i = choose|i: int|
            0 <= i < before.len() && (#[trigger] before[i]).group_index == group
                && before[i].technique == mesh.techniques@[group] && before[i].model_index
                == model_index && before[i].instance_groups == groups_placing(
                groups,
                (model_index % 0x1_0000) as u16,
                groups.len(),
            );
        assert(now[i] == before[i]);
    } else {
        assert(now[before.len() as int].group_index == group);
    }
}

/// An instance group is submitted in a stage exactly where it is visible and its mesh is
/// subscribed to the stage.
pub proof fn law_visible_groups_are_submitted(
    collection: StaticInstancesRenderer,
    visible: Seq<bool>,
    stage: RenderStage,
    count: nat,
    group: usize,
)
    requires
        count <= collection.groups@.len() <= usize::MAX,
    ensures
        collection.submitted(visible, stage, count).contains(group) <==> group < count
            && visible[group as int]
            && collection.static_models@[collection.groups@[group as int].static_index as int].subscribed_stages.has(
        stage),
    decreases count,
{
    if count > 0 {
        let before = collection.submitted(visible, stage, (count - 1) as nat);
        let now = collection.submitted(visible, stage, count);
        law_visible_groups_are_submitted(collection, visible, stage, (count - 1) as nat, group);
        if collection.group_submits(visible, stage, count - 1) {
            assert(now[before.len() as int] == (count - 1) as usize);
            if before.contains(group) {
                let place = choose|i: int| 0 <= i < before.len() && before[i] == group;
                assert(now[place] == group);
            }
            if now.contains(group) && group != (count - 1) as usize {
                let place = choose|i: int| 0 <= i < now.len() && now[i] == group;
                assert(before[place] == group);
            }
        }
    }
}

/// A worker draws an instance group with the draw of the last entry that could be set up whole,
/// and only where the group is seen. A technique is bound for the entry that asks for it, once
/// its buffers and the technique are there, and the constants of every group that follows a set-up
/// are bound.
pub proof fn law_workers_draw_what_is_set_up(
    entry: Option<StaticDraw>,
    draw: StaticDraw,
    bind_technique: bool,
    group: usize,
    instances: usize,
    seen: bool,
    ready: DrawReadiness,
)
    ensures
        ({
            let set_up = followed(entry, RunStep::SetUp { draw, bind_technique }, ready);
            let drawn = followed(entry, RunStep::Instances { group, instances, seen }, ready);
            &&& set_up.entry is Some <==> ready.buffers && ready.technique && ready.layout
            &&& set_up.entry is Some ==> set_up.entry == Some(draw)
            &&& set_up.technique is Some <==> bind_technique && ready.buffers && ready.technique
            &&& set_up.technique is Some ==> set_up.technique == Some(draw.technique)
            &&& set_up.draw is None
            &&& set_up.constants is None
            &&& drawn.entry == entry
            &&& drawn.technique is None
            &&& drawn.constants is Some <==> entry is Some
            &&& entry is Some ==> drawn.constants == Some(group)
            &&& drawn.draw is Some <==> entry is Some && seen
            &&& drawn.draw matches Some(made) ==> {
                &&& made.draw == entry->Some_0
                &&& made.instance_group == group
                &&& made.instances == instances
            }
        }),
{
}

} // verus!
