//! Static meshes: their common form, and the draws of a mesh in a stage.

use vstd::prelude::*;

use crate::geometry::{
    legacy_lod, legacy_primitive, legacy_stage, lod_category_from_legacy,
    primitive_type_from_legacy, render_stage_from_legacy, LodCategory, PrimitiveType, RenderStage,
    SShadowkeepStaticMesh, SShadowkeepStaticMeshGroup, SShadowkeepStaticMeshPart,
    SShadowkeepStaticSpecialMesh, Vec2Bits, Vec3Bits,
};
use crate::tag::NO_TAG;
use crate::text::Error;

verus! {

/// A set of stages.
#[derive(Clone, Copy, Debug)]
pub struct StageSet {
    pub subscribed: [bool; 24],
}

impl StageSet {
    pub open spec fn has(self, stage: RenderStage) -> bool {
        self.subscribed@[stage.number() as int]
    }

    pub fn empty() -> (set: StageSet)
        ensures
            forall|stage: RenderStage| !#[trigger] set.has(stage),
    {
        StageSet { subscribed: [false; 24] }
    }

    pub fn is_subscribed(&self, stage: RenderStage) -> (subscribed: bool)
        ensures
            subscribed == self.has(stage),
    {
        self.subscribed[stage.index() as usize]
    }

    /// Adds a stage.
    pub fn subscribe(&mut self, stage: RenderStage)
        ensures
            forall|other: RenderStage| #[trigger]
                final(self).has(other) == (old(self).has(other) || other == stage),
    {
        let number: usize = stage.index() as usize;
        self.subscribed[number] = true;
        assert forall|other: RenderStage| #[trigger] self.has(other) == (old(self).has(other)
            || other == stage) by {
            if other.number() == stage.number() {
                crate::geometry::law_stage_numbers_are_distinct(other, stage);
            }
        }
    }

    /// Adds the stages of another set.
    pub fn join(&mut self, other: &StageSet)
        ensures
            forall|stage: RenderStage| #[trigger]
                final(self).has(stage) == (old(self).has(stage) || other.has(stage)),
    {
        let mut i: usize = 0;
        while i < 24
            invariant
                i <= 24,
                forall|k: int|
                    0 <= k < i ==> #[trigger] self.subscribed@[k] == (old(self).subscribed@[k]
                        || other.subscribed@[k]),
                forall|k: int|
                    i <= k < 24 ==> #[trigger] self.subscribed@[k] == old(self).subscribed@[k],
            decreases 24 - i,
        {
            let joined: bool = self.subscribed[i] || other.subscribed[i];
            self.subscribed[i] = joined;
            i += 1;
        }
    }
}

/// A group of a mesh: one of its parts in a stage.
#[derive(Clone, Copy, Debug, PartialEq, Eq, Structural)]
pub struct SStaticMeshGroup {
    pub part_index: u16,
    pub render_stage: RenderStage,
    pub input_layout_index: u8,
    pub unk5: u8,
    pub unk6: u8,
}

/// A range of a mesh's indices.
#[derive(Clone, Copy, Debug, PartialEq, Eq, Structural)]
pub struct SStaticMeshPart {
    pub index_start: u32,
    pub index_count: u32,
    pub buffer_index: u8,
    pub unk9: u8,
    pub lod_category: LodCategory,
    pub primitive_type: PrimitiveType,
}

/// A mesh with buffers and a technique of its own.
#[derive(Clone, Copy, Debug, PartialEq, Eq, Structural)]
pub struct SStaticSpecialMesh {
    pub render_stage: RenderStage,
    pub input_layout_index: u8,
    pub lod: LodCategory,
    pub unk3: i8,
    pub primitive_type: PrimitiveType,
    pub unk5: u8,
    pub unk6: u16,
    pub index_buffer: u32,
    pub vertex0_buffer: u32,
    pub vertex1_buffer: u32,
    pub color_buffer: u32,
    pub index_start: u32,
    pub index_count: u32,
    pub technique: u32,
}

/// The items converted in turn, or the first refusal.
pub open spec fn converted<A, B>(
    items: Seq<A>,
    convert: spec_fn(A) -> Result<B, Seq<char>>,
) -> Result<Seq<B>, Seq<char>>
    decreases items.len(),
{
    if items.len() == 0 {
        Ok(Seq::empty())
    } else {
        match converted(items.drop_last(), convert) {
            Err(message) => Err(message),
            Ok(done) => match convert(items.last()) {
                Err(message) => Err(message),
                Ok(item) => Ok(done.push(item)),
            },
        }
    }
}

pub(crate) proof fn lemma_conversion_step<A, B>(
    items: Seq<A>,
    convert: spec_fn(A) -> Result<B, Seq<char>>,
    count: int,
)
    requires
        0 <= count < items.len(),
        converted(items.take(count), convert) is Ok,
    ensures
        convert(items[count]) is Ok ==> converted(items.take(count + 1), convert) == Ok::<
            Seq<B>,
            Seq<char>,
        >(converted(items.take(count), convert)->Ok_0.push(convert(items[count])->Ok_0)),
        convert(items[count]) is Err ==> converted(items, convert) == Err::<Seq<B>, Seq<char>>(
            convert(items[count])->Err_0,
        ),
{
    assert(items.take(count + 1).drop_last() =~= items.take(count));
    if convert(items[count]) is Err {
        lemma_refusal_stays(items, convert, count + 1);
    }
}

proof fn lemma_refusal_stays<A, B>(
    items: Seq<A>,
    convert: spec_fn(A) -> Result<B, Seq<char>>,
    count: int,
)
    requires
        0 <= count <= items.len(),
        converted(items.take(count), convert) is Err,
    ensures
        converted(items, convert) == converted(items.take(count), convert),
    decreases items.len() - count,
{
    if count < items.len() {
        assert(items.take(count + 1).drop_last() =~= items.take(count));
        lemma_refusal_stays(items, convert, count + 1);
    } else {
        assert(items.take(count) =~= items);
    }
}

pub open spec fn group_outcome(group: SShadowkeepStaticMeshGroup) -> Result<
    SStaticMeshGroup,
    Seq<char>,
> {
    match legacy_stage(group.render_stage) {
        None => Err("Shadowkeep static group has a stage outside the 23-stage graph"@),
        Some(render_stage) => Ok(
            SStaticMeshGroup {
                part_index: group.part_index,
                render_stage,
                input_layout_index: group.input_layout_index,
                unk5: group.unk5,
                unk6: (group.unk6 % 256) as u8,
            },
        ),
    }
}

fn convert_group(group: &SShadowkeepStaticMeshGroup) -> (result: Result<SStaticMeshGroup, Error>)
    ensures
        match result {
            Ok(converted) => group_outcome(*group) == Ok::<SStaticMeshGroup, Seq<char>>(converted),
            Err(error) => group_outcome(*group) == Err::<SStaticMeshGroup, Seq<char>>(error@),
        },
{
    match render_stage_from_legacy(group.render_stage) {
        None => Err(
            Error {
                message: String::from_str(
                    "Shadowkeep static group has a stage outside the 23-stage graph",
                ),
            },
        ),
        Some(render_stage) => Ok(
            SStaticMeshGroup {
                part_index: group.part_index,
                render_stage,
                input_layout_index: group.input_layout_index,
                unk5: group.unk5,
                unk6: (group.unk6 % 256) as u8,
            },
        ),
    }
}

pub open spec fn part_outcome(part: SShadowkeepStaticMeshPart) -> Result<
    SStaticMeshPart,
    Seq<char>,
> {
    match legacy_lod(part.lod_category) {
        None => Err("Shadowkeep static part has an unsupported LOD category"@),
        Some(lod_category) => match legacy_primitive(part.primitive_type) {
            None => Err("Shadowkeep static part has an unsupported primitive topology"@),
            Some(primitive_type) => Ok(
                SStaticMeshPart {
                    index_start: part.index_start,
                    index_count: part.index_count,
                    buffer_index: part.buffer_index,
                    unk9: part.unk9,
                    lod_category,
                    primitive_type,
                },
            ),
        },
    }
}

fn convert_part(part: &SShadowkeepStaticMeshPart) -> (result: Result<SStaticMeshPart, Error>)
    ensures
        match result {
            Ok(converted) => part_outcome(*part) == Ok::<SStaticMeshPart, Seq<char>>(converted),
            Err(error) => part_outcome(*part) == Err::<SStaticMeshPart, Seq<char>>(error@),
        },
{
    let lod_category = match lod_category_from_legacy(part.lod_category) {
        None => {
            return Err(
                Error {
                    message: String::from_str(
                        "Shadowkeep static part has an unsupported LOD category",
                    ),
                },
            );
        },
        Some(lod_category) => lod_category,
    };
    match primitive_type_from_legacy(part.primitive_type) {
        None => Err(
            Error {
                message: String::from_str(
                    "Shadowkeep static part has an unsupported primitive topology",
                ),
            },
        ),
        Some(primitive_type) => Ok(
            SStaticMeshPart {
                index_start: part.index_start,
                index_count: part.index_count,
                buffer_index: part.buffer_index,
                unk9: part.unk9,
                lod_category,
                primitive_type,
            },
        ),
    }
}

/// Special meshes have no color buffer in the packages.
pub open spec fn special_outcome(mesh: SShadowkeepStaticSpecialMesh) -> Result<
    SStaticSpecialMesh,
    Seq<char>,
> {
    match legacy_stage(mesh.render_stage) {
        None => Err("Shadowkeep static special mesh has a stage outside the 23-stage graph"@),
        Some(render_stage) => match legacy_lod(mesh.lod_category) {
            None => Err("Shadowkeep static special mesh has an unsupported LOD category"@),
            Some(lod) => match legacy_primitive(mesh.primitive_type) {
                None => Err(
                    "Shadowkeep static special mesh has an unsupported primitive topology"@,
                ),
                Some(primitive_type) => Ok(
                    SStaticSpecialMesh {
                        render_stage,
                        input_layout_index: mesh.input_layout_index,
                        lod,
                        unk3: mesh.unk5,
                        primitive_type,
                        unk5: mesh.unk7,
                        unk6: mesh.unk2,
                        index_buffer: mesh.index_buffer,
                        vertex0_buffer: mesh.vertex0_buffer,
                        vertex1_buffer: mesh.vertex1_buffer,
                        color_buffer: NO_TAG,
                        index_start: mesh.index_start,
                        index_count: mesh.index_count,
                        technique: mesh.technique,
                    },
                ),
            },
        },
    }
}

fn convert_special(mesh: &SShadowkeepStaticSpecialMesh) -> (result: Result<
    SStaticSpecialMesh,
    Error,
>)
    ensures
        match result {
            Ok(converted) => special_outcome(*mesh) == Ok::<SStaticSpecialMesh, Seq<char>>(
                converted,
            ),
            Err(error) => special_outcome(*mesh) == Err::<SStaticSpecialMesh, Seq<char>>(error@),
        },
{
    let render_stage = match render_stage_from_legacy(mesh.render_stage) {
        None => {
            return Err(
                Error {
                    message: String::from_str(
                        "Shadowkeep static special mesh has a stage outside the 23-stage graph",
                    ),
                },
            );
        },
        Some(render_stage) => render_stage,
    };
    let lod = match lod_category_from_legacy(mesh.lod_category) {
        None => {
            return Err(
                Error {
                    message: String::from_str(
                        "Shadowkeep static special mesh has an unsupported LOD category",
                    ),
                },
            );
        },
        Some(lod) => lod,
    };
    match primitive_type_from_legacy(mesh.primitive_type) {
        None => Err(
            Error {
                message: String::from_str(
                    "Shadowkeep static special mesh has an unsupported primitive topology",
                ),
            },
        ),
        Some(primitive_type) => Ok(
            SStaticSpecialMesh {
                render_stage,
                input_layout_index: mesh.input_layout_index,
                lod,
                unk3: mesh.unk5,
                primitive_type,
                unk5: mesh.unk7,
                unk6: mesh.unk2,
                index_buffer: mesh.index_buffer,
                vertex0_buffer: mesh.vertex0_buffer,
                vertex1_buffer: mesh.vertex1_buffer,
                color_buffer: NO_TAG,
                index_start: mesh.index_start,
                index_count: mesh.index_count,
                technique: mesh.technique,
            },
        ),
    }
}

fn convert_groups(groups: &Vec<SShadowkeepStaticMeshGroup>) -> (result: Result<
    Vec<SStaticMeshGroup>,
    Error,
>)
    ensures
        match result {
            Ok(done) => converted(groups@, |g: SShadowkeepStaticMeshGroup| group_outcome(g)) == Ok::<
                Seq<SStaticMeshGroup>,
                Seq<char>,
            >(done@),
            Err(error) => converted(groups@, |g: SShadowkeepStaticMeshGroup| group_outcome(g))
                == Err::<Seq<SStaticMeshGroup>, Seq<char>>(error@),
        },
{
    let ghost convert = |g: SShadowkeepStaticMeshGroup| group_outcome(g);
    let mut done: Vec<SStaticMeshGroup> = Vec::new();
    let mut i: usize = 0;
    assert(groups@.take(0) =~= Seq::empty());
    while i < groups.len()
        invariant
            i <= groups@.len(),
            convert == (|g: SShadowkeepStaticMeshGroup| group_outcome(g)),
            converted(groups@.take(i as int), convert) == Ok::<Seq<SStaticMeshGroup>, Seq<char>>(
                done@,
            ),
        decreases groups@.len() - i,
    {
        proof {
            lemma_conversion_step(groups@, convert, i as int);
        }
        match convert_group(&groups[i]) {
            Err(error) => {
                return Err(error);
            },
            Ok(group) => {
                done.push(group);
            },
        }
        i += 1;
    }
    assert(groups@.take(i as int) =~= groups@);
    Ok(done)
}

fn convert_parts(parts: &Vec<SShadowkeepStaticMeshPart>) -> (result: Result<
    Vec<SStaticMeshPart>,
    Error,
>)
    ensures
        match result {
            Ok(done) => converted(parts@, |p: SShadowkeepStaticMeshPart| part_outcome(p)) == Ok::<
                Seq<SStaticMeshPart>,
                Seq<char>,
            >(done@),
            Err(error) => converted(parts@, |p: SShadowkeepStaticMeshPart| part_outcome(p))
                == Err::<Seq<SStaticMeshPart>, Seq<char>>(error@),
        },
{
    let ghost convert = |p: SShadowkeepStaticMeshPart| part_outcome(p);
    let mut done: Vec<SStaticMeshPart> = Vec::new();
    let mut i: usize = 0;
    assert(parts@.take(0) =~= Seq::empty());
    while i < parts.len()
        invariant
            i <= parts@.len(),
            convert == (|p: SShadowkeepStaticMeshPart| part_outcome(p)),
            converted(parts@.take(i as int), convert) == Ok::<Seq<SStaticMeshPart>, Seq<char>>(
                done@,
            ),
        decreases parts@.len() - i,
    {
        proof {
            lemma_conversion_step(parts@, convert, i as int);
        }
        match convert_part(&parts[i]) {
            Err(error) => {
                return Err(error);
            },
            Ok(part) => {
                done.push(part);
            },
        }
        i += 1;
    }
    assert(parts@.take(i as int) =~= parts@);
    Ok(done)
}

fn convert_specials(meshes: &Vec<SShadowkeepStaticSpecialMesh>) -> (result: Result<
    Vec<SStaticSpecialMesh>,
    Error,
>)
    ensures
        match result {
            Ok(done) => converted(
                meshes@,
                |m: SShadowkeepStaticSpecialMesh| special_outcome(m),
            ) == Ok::<Seq<SStaticSpecialMesh>, Seq<char>>(done@),
            Err(error) => converted(
                meshes@,
                |m: SShadowkeepStaticSpecialMesh| special_outcome(m),
            ) == Err::<Seq<SStaticSpecialMesh>, Seq<char>>(error@),
        },
{
    let ghost convert = |m: SShadowkeepStaticSpecialMesh| special_outcome(m);
    let mut done: Vec<SStaticSpecialMesh> = Vec::new();
    let mut i: usize = 0;
    assert(meshes@.take(0) =~= Seq::empty());
    while i < meshes.len()
        invariant
            i <= meshes@.len(),
            convert == (|m: SShadowkeepStaticSpecialMesh| special_outcome(m)),
            converted(meshes@.take(i as int), convert) == Ok::<
                Seq<SStaticSpecialMesh>,
                Seq<char>,
            >(done@),
        decreases meshes@.len() - i,
    {
        proof {
            lemma_conversion_step(meshes@, convert, i as int);
        }
        match convert_special(&meshes[i]) {
            Err(error) => {
                return Err(error);
            },
            Ok(mesh) => {
                done.push(mesh);
            },
        }
        i += 1;
    }
    assert(meshes@.take(i as int) =~= meshes@);
    Ok(done)
}

/// A static mesh in its common form.
#[derive(Debug)]
pub struct StaticMesh {
    pub mesh_groups: Vec<SStaticMeshGroup>,
    pub parts: Vec<SStaticMeshPart>,
    /// The index, vertex, second vertex and color buffers.
    pub buffers: Vec<(u32, u32, u32, u32)>,
    pub mesh_offset: Vec3Bits,
    pub mesh_scale: u32,
    pub texture_coordinate_scale: u32,
    pub texture_coordinate_offset: Vec2Bits,
    pub max_color_index: u32,
    pub techniques: Vec<u32>,
    pub special_meshes: Vec<SStaticSpecialMesh>,
    pub subscribed_stages: StageSet,
}

pub(crate) fn copied<T: Copy>(items: &Vec<T>) -> (copy: Vec<T>)
    ensures
        copy@ == items@,
{
    let mut copy: Vec<T> = Vec::new();
    let mut i: usize = 0;
    while i < items.len()
        invariant
            i <= items@.len(),
            copy@ == items@.take(i as int),
        decreases items@.len() - i,
    {
        copy.push(items[i]);
        assert(items@.take(i + 1) =~= items@.take(i as int).push(items@[i as int]));
        i += 1;
    }
    assert(items@.take(i as int) =~= items@);
    copy
}

/// A group or a special mesh draws in the stage.
pub open spec fn draws_in(
    groups: Seq<SStaticMeshGroup>,
    specials: Seq<SStaticSpecialMesh>,
    stage: RenderStage,
) -> bool {
    ||| exists|i: int| 0 <= i < groups.len() && (#[trigger] groups[i]).render_stage == stage
    ||| exists|i: int| 0 <= i < specials.len() && (#[trigger] specials[i]).render_stage == stage
}

fn collect_stages(groups: &Vec<SStaticMeshGroup>, specials: &Vec<SStaticSpecialMesh>) -> (stages:
    StageSet)
    ensures
        forall|stage: RenderStage| #[trigger]
            stages.has(stage) == draws_in(groups@, specials@, stage),
{
    let mut stages = StageSet::empty();
    let mut i: usize = 0;
    let ghost none: Seq<SStaticSpecialMesh> = Seq::empty();
    while i < groups.len()
        invariant
            i <= groups@.len(),
            none == Seq::<SStaticSpecialMesh>::empty(),
            forall|stage: RenderStage| #[trigger]
                stages.has(stage) == draws_in(groups@.take(i as int), none, stage),
        decreases groups@.len() - i,
    {
        let ghost before = stages;
        stages.subscribe(groups[i].render_stage);
        assert forall|stage: RenderStage| #[trigger] stages.has(stage) == draws_in(
            groups@.take(i + 1),
            none,
            stage,
        ) by {
            let longer = groups@.take(i + 1);
            let shorter = groups@.take(i as int);
            if before.has(stage) {
                let k = choose|k: int|
                    0 <= k < shorter.len() && (#[trigger] shorter[k]).render_stage == stage;
                assert(longer[k].render_stage == stage);
            }
            assert(longer[i as int] == groups@[i as int]);
            if draws_in(longer, none, stage) && stage != groups@[i as int].render_stage {
                let k = choose|k: int|
                    0 <= k < longer.len() && (#[trigger] longer[k]).render_stage == stage;
                assert(shorter[k].render_stage == stage);
            }
        }
        i += 1;
    }
    assert(groups@.take(i as int) =~= groups@);
    let mut j: usize = 0;
    assert(specials@.take(0) =~= none);
    while j < specials.len()
        invariant
            j <= specials@.len(),
            forall|stage: RenderStage| #[trigger]
                stages.has(stage) == draws_in(groups@, specials@.take(j as int), stage),
        decreases specials@.len() - j,
    {
        let ghost before = stages;
        stages.subscribe(specials[j].render_stage);
        assert forall|stage: RenderStage| #[trigger] stages.has(stage) == draws_in(
            groups@,
            specials@.take(j + 1),
            stage,
        ) by {
            let longer = specials@.take(j + 1);
            let shorter = specials@.take(j as int);
            assert(before.has(stage) == draws_in(groups@, shorter, stage));
            if exists|k: int|
                0 <= k < shorter.len() && (#[trigger] shorter[k]).render_stage == stage {
                let k = choose|k: int|
                    0 <= k < shorter.len() && (#[trigger] shorter[k]).render_stage == stage;
                assert(longer[k].render_stage == stage);
            }
            assert(longer[j as int] == specials@[j as int]);
            if exists|k: int|
                0 <= k < longer.len() && (#[trigger] longer[k]).render_stage == stage {
                let k = choose|k: int|
                    0 <= k < longer.len() && (#[trigger] longer[k]).render_stage == stage;
                if k < j {
                    assert(shorter[k].render_stage == stage);
                }
            }
        }
        j += 1;
    }
    assert(specials@.take(j as int) =~= specials@);
    stages
}

/// Why a stored mesh is refused, if it is: first for its groups, then for its parts, then for
/// its special meshes.
pub open spec fn mesh_refusal(mesh: SShadowkeepStaticMesh) -> Option<Seq<char>> {
    match converted(
        mesh.opaque_meshes.mesh_groups@,
        |g: SShadowkeepStaticMeshGroup| group_outcome(g),
    ) {
        Err(message) => Some(message),
        Ok(_) => match converted(
            mesh.opaque_meshes.parts@,
            |p: SShadowkeepStaticMeshPart| part_outcome(p),
        ) {
            Err(message) => Some(message),
            Ok(_) => match converted(
                mesh.special_meshes@,
                |m: SShadowkeepStaticSpecialMesh| special_outcome(m),
            ) {
                Err(message) => Some(message),
                Ok(_) => None,
            },
        },
    }
}

impl StaticMesh {
    /// The group names a part.
    pub open spec fn names_part(self, group: int) -> bool {
        self.mesh_groups@[group].part_index < self.parts@.len()
    }

    /// Every group names a part.
    pub open spec fn names_parts(self) -> bool {
        forall|i: int|
            0 <= i < self.mesh_groups@.len() ==> (#[trigger] self.mesh_groups@[i]).part_index
                < self.parts@.len()
    }

    /// The mesh is the common form of a stored mesh. Of the two texture coordinate scales only
    /// the first is used.
    pub open spec fn is_form_of(self, mesh: SShadowkeepStaticMesh) -> bool {
        &&& converted(
            mesh.opaque_meshes.mesh_groups@,
            |g: SShadowkeepStaticMeshGroup| group_outcome(g),
        ) == Ok::<Seq<SStaticMeshGroup>, Seq<char>>(self.mesh_groups@)
        &&& converted(
            mesh.opaque_meshes.parts@,
            |p: SShadowkeepStaticMeshPart| part_outcome(p),
        ) == Ok::<Seq<SStaticMeshPart>, Seq<char>>(self.parts@)
        &&& converted(
            mesh.special_meshes@,
            |m: SShadowkeepStaticSpecialMesh| special_outcome(m),
        ) == Ok::<Seq<SStaticSpecialMesh>, Seq<char>>(self.special_meshes@)
        &&& self.buffers@ == mesh.opaque_meshes.buffers@
        &&& self.mesh_offset == mesh.mesh_offset
        &&& self.mesh_scale == mesh.mesh_scale
        &&& self.texture_coordinate_scale == mesh.texture_coordinate_scale.x
        &&& self.texture_coordinate_offset == mesh.texture_coordinate_offset
        &&& self.max_color_index == 0
        &&& self.techniques@ == mesh.techniques@
        &&& forall|stage: RenderStage| #[trigger]
            self.subscribed_stages.has(stage) == draws_in(
                self.mesh_groups@,
                self.special_meshes@,
                stage,
            )
    }

    /// Brings a stored mesh into its common form.
    pub fn load_shadowkeep(legacy: &SShadowkeepStaticMesh) -> (result: Result<StaticMesh, Error>)
        ensures
            match result {
                Ok(mesh) => mesh_refusal(*legacy) is None && mesh.is_form_of(*legacy),
                Err(error) => mesh_refusal(*legacy) == Some(error@),
            },
    {
        let mesh_groups = match convert_groups(&legacy.opaque_meshes.mesh_groups) {
            Err(error) => {
                return Err(error);
            },
            Ok(groups) => groups,
        };
        let parts = match convert_parts(&legacy.opaque_meshes.parts) {
            Err(error) => {
                return Err(error);
            },
            Ok(parts) => parts,
        };
        let special_meshes = match convert_specials(&legacy.special_meshes) {
            Err(error) => {
                return Err(error);
            },
            Ok(meshes) => meshes,
        };
        let subscribed_stages = collect_stages(&mesh_groups, &special_meshes);
        Ok(
            StaticMesh {
                mesh_groups,
                parts,
                buffers: copied(&legacy.opaque_meshes.buffers),
                mesh_offset: legacy.mesh_offset,
                mesh_scale: legacy.mesh_scale,
                texture_coordinate_scale: legacy.texture_coordinate_scale.x,
                texture_coordinate_offset: legacy.texture_coordinate_offset,
                max_color_index: 0,
                techniques: copied(&legacy.techniques),
                special_meshes,
                subscribed_stages,
            },
        )
    }
}

impl StaticMesh {
    /// Makes a mesh of the current era, which is stored in its common form: it is subscribed to
    /// the stages of its groups and of its special meshes.
    pub fn load(stored: StaticMesh) -> (mesh: StaticMesh)
        ensures
            mesh == (StaticMesh { subscribed_stages: mesh.subscribed_stages, ..stored }),
            forall|stage: RenderStage| #[trigger]
                mesh.subscribed_stages.has(stage) == draws_in(
                    stored.mesh_groups@,
                    stored.special_meshes@,
                    stage,
                ),
    {
        let subscribed_stages = collect_stages(&stored.mesh_groups, &stored.special_meshes);
        StaticMesh { subscribed_stages, ..stored }
    }
}

/// The buffers of a draw: those of the mesh by number, or those of a special mesh.
#[derive(Clone, Copy, Debug, PartialEq, Eq, Structural)]
pub enum DrawBuffers {
    Opaque { index: u8 },
    Special { place: usize },
}

/// A draw of a static mesh.
#[derive(Clone, Copy, Debug, PartialEq, Eq, Structural)]
pub struct StaticDraw {
    pub buffers: DrawBuffers,
    pub technique: u32,
    pub input_layout_index: u8,
    pub primitive_type: PrimitiveType,
    pub index_count: u32,
    pub index_start: u32,
}

/// A draw of a static mesh in a number of instances.
#[derive(Clone, Copy, Debug, PartialEq, Eq, Structural)]
pub struct InstancedDraw {
    pub draw: StaticDraw,
    pub instances: usize,
}

/// What is there at the moment of a draw.
#[derive(Clone, Copy, Debug, PartialEq, Eq, Structural)]
pub struct DrawReadiness {
    /// The buffers can be bound.
    pub buffers: bool,
    /// The technique was published.
    pub technique: bool,
    /// The input layout is available.
    pub layout: bool,
}

/// What becomes of a planned draw.
#[derive(Clone, Copy, Debug, PartialEq, Eq, Structural)]
pub struct DrawOutcome {
    pub binds_technique: bool,
    pub draws: bool,
}

/// Decides what becomes of a planned draw. It is given up at the first thing that is missing:
/// the buffers, the technique, then the layout, which is asked for once the technique is bound.
pub fn draw_outcome(bind_technique: bool, ready: DrawReadiness) -> (outcome: DrawOutcome)
    ensures
        outcome == (DrawOutcome {
            binds_technique: bind_technique && ready.buffers && ready.technique,
            draws: ready.buffers && ready.technique && ready.layout,
        }),
{
    if !ready.buffers || !ready.technique {
        return DrawOutcome { binds_technique: false, draws: false };
    }
    DrawOutcome { binds_technique: bind_technique, draws: ready.layout }
}

/// Which parts and special meshes are of the highest detail.
#[derive(Debug)]
pub struct MeshDetail {
    pub parts: Vec<bool>,
    pub special_meshes: Vec<bool>,
}

/// A stage that draws the opaque groups.
pub open spec fn opaque_stage(stage: RenderStage) -> bool {
    stage == RenderStage::ShadowGenerate || stage == RenderStage::DepthPrepass || stage
        == RenderStage::GenerateGbuffer
}

fn is_opaque_stage(stage: RenderStage) -> (opaque: bool)
    ensures
        opaque == opaque_stage(stage),
{
    stage == RenderStage::ShadowGenerate || stage == RenderStage::DepthPrepass || stage
        == RenderStage::GenerateGbuffer
}

impl StaticMesh {
    pub open spec fn fits(self, detail: MeshDetail) -> bool {
        detail.parts@.len() == self.parts@.len() && detail.special_meshes@.len()
            == self.special_meshes@.len()
    }

    /// The draw of a group, if it has one in the stage: at the highest detail, with a technique.
    pub open spec fn group_draw(self, detail: MeshDetail, stage: RenderStage, group: int) -> Option<
        StaticDraw,
    > {
        let it = self.mesh_groups@[group];
        let part = self.parts@[it.part_index as int];
        if it.render_stage == stage && detail.parts@[it.part_index as int] && group
            < self.techniques@.len() {
            Some(
                StaticDraw {
                    buffers: DrawBuffers::Opaque { index: part.buffer_index },
                    technique: self.techniques@[group],
                    input_layout_index: it.input_layout_index,
                    primitive_type: part.primitive_type,
                    index_count: part.index_count,
                    index_start: part.index_start,
                },
            )
        } else {
            None
        }
    }

    /// The draws of the first `count` groups.
    pub open spec fn group_draws(
        self,
        detail: MeshDetail,
        stage: RenderStage,
        instances: usize,
        count: nat,
    ) -> Seq<InstancedDraw>
        decreases count,
    {
        if count == 0 {
            Seq::empty()
        } else {
            let before = self.group_draws(detail, stage, instances, (count - 1) as nat);
            match self.group_draw(detail, stage, count - 1) {
                Some(draw) => before.push(InstancedDraw { draw, instances }),
                None => before,
            }
        }
    }

    /// The draws of the first `count` special meshes.
    pub open spec fn special_draws(
        self,
        detail: MeshDetail,
        stage: RenderStage,
        instances: usize,
        count: nat,
    ) -> Seq<InstancedDraw>
        decreases count,
    {
        if count == 0 {
            Seq::empty()
        } else {
            let before = self.special_draws(detail, stage, instances, (count - 1) as nat);
            let mesh = self.special_meshes@[count - 1];
            if mesh.render_stage == stage && detail.special_meshes@[count - 1] {
                before.push(
                    InstancedDraw {
                        draw: StaticDraw {
                            buffers: DrawBuffers::Special { place: (count - 1) as usize },
                            technique: mesh.technique,
                            input_layout_index: mesh.input_layout_index,
                            primitive_type: mesh.primitive_type,
                            index_count: mesh.index_count,
                            index_start: mesh.index_start,
                        },
                        instances,
                    },
                )
            } else {
                before
            }
        }
    }

    /// The draws of the mesh in a stage. Opaque stages draw groups, all others special meshes.
    pub open spec fn draws(self, detail: MeshDetail, stage: RenderStage, instances: usize) -> Seq<
        InstancedDraw,
    > {
        if !self.subscribed_stages.has(stage) {
            Seq::empty()
        } else if opaque_stage(stage) {
            self.group_draws(detail, stage, instances, self.mesh_groups@.len())
        } else {
            self.special_draws(detail, stage, instances, self.special_meshes@.len())
        }
    }

    /// The mesh can be drawn in the stage: the groups of an opaque stage that it takes part in
    /// name parts.
    pub open spec fn renders(self, stage: RenderStage) -> bool {
        self.subscribed_stages.has(stage) && opaque_stage(stage) ==> self.names_parts()
    }

    /// Plans the draw of one group.
    pub fn render_group(&self, detail: &MeshDetail, stage: RenderStage, group: usize) -> (draw: Option<
        StaticDraw,
    >)
        requires
            self.fits(*detail),
            group < self.mesh_groups@.len(),
            self.mesh_groups@[group as int].render_stage == stage ==> self.names_part(group as int),
        ensures
            draw == self.group_draw(*detail, stage, group as int),
    {
        let it = self.mesh_groups[group];
        if it.render_stage != stage {
            return None;
        }
        let part_index: usize = it.part_index as usize;
        if !detail.parts[part_index] {
            return None;
        }
        if group >= self.techniques.len() {
            return None;
        }
        let part = self.parts[part_index];
        Some(
            StaticDraw {
                buffers: DrawBuffers::Opaque { index: part.buffer_index },
                technique: self.techniques[group],
                input_layout_index: it.input_layout_index,
                primitive_type: part.primitive_type,
                index_count: part.index_count,
                index_start: part.index_start,
            },
        )
    }

    fn render_groups(&self, detail: &MeshDetail, stage: RenderStage, instances: usize) -> (draws: Vec<
        InstancedDraw,
    >)
        requires
            self.names_parts(),
            self.fits(*detail),
        ensures
            draws@ == self.group_draws(*detail, stage, instances, self.mesh_groups@.len()),
    {
        let mut draws: Vec<InstancedDraw> = Vec::new();
        let mut i: usize = 0;
        while i < self.mesh_groups.len()
            invariant
                i <= self.mesh_groups@.len(),
                self.names_parts(),
                self.fits(*detail),
                draws@ == self.group_draws(*detail, stage, instances, i as nat),
            decreases self.mesh_groups@.len() - i,
        {
            match self.render_group(detail, stage, i) {
                Some(draw) => {
                    draws.push(InstancedDraw { draw, instances });
                },
                None => {},
            }
            i += 1;
        }
        draws
    }

    fn render_specials(&self, detail: &MeshDetail, stage: RenderStage, instances: usize) -> (draws: Vec<
        InstancedDraw,
    >)
        requires
            self.fits(*detail),
        ensures
            draws@ == self.special_draws(*detail, stage, instances, self.special_meshes@.len()),
    {
        let mut draws: Vec<InstancedDraw> = Vec::new();
        let mut i: usize = 0;
        while i < self.special_meshes.len()
            invariant
                i <= self.special_meshes@.len(),
                self.fits(*detail),
                draws@ == self.special_draws(*detail, stage, instances, i as nat),
            decreases self.special_meshes@.len() - i,
        {
            let mesh = self.special_meshes[i];
            if mesh.render_stage == stage && detail.special_meshes[i] {
                draws.push(
                    InstancedDraw {
                        draw: StaticDraw {
                            buffers: DrawBuffers::Special { place: i },
                            technique: mesh.technique,
                            input_layout_index: mesh.input_layout_index,
                            primitive_type: mesh.primitive_type,
                            index_count: mesh.index_count,
                            index_start: mesh.index_start,
                        },
                        instances,
                    },
                );
            }
            i += 1;
        }
        draws
    }

    /// Plans the draws of the mesh in a stage, each in `instances` instances.
    pub fn render_all(&self, detail: &MeshDetail, stage: RenderStage, instances: usize) -> (draws: Vec<
        InstancedDraw,
    >)
        requires
            self.renders(stage),
            self.fits(*detail),
        ensures
            draws@ == self.draws(*detail, stage, instances),
    {
        if !self.subscribed_stages.is_subscribed(stage) {
            return Vec::new();
        }
        if is_opaque_stage(stage) {
            self.render_groups(detail, stage, instances)
        } else {
            self.render_specials(detail, stage, instances)
        }
    }
}

/// A mesh in its common form has the stored groups and parts one for one, each in the stage
/// that its stored number names.
pub proof fn law_groups_keep_their_stages(
    stored: SShadowkeepStaticMesh,
    mesh: StaticMesh,
    group: int,
)
    requires
        mesh.is_form_of(stored),
        0 <= group < mesh.mesh_groups@.len(),
    ensures
        mesh.mesh_groups@.len() == stored.opaque_meshes.mesh_groups@.len(),
        mesh.mesh_groups@[group].part_index
            == stored.opaque_meshes.mesh_groups@[group].part_index,
        mesh.mesh_groups@[group].render_stage.number()
            == stored.opaque_meshes.mesh_groups@[group].render_stage,
        mesh.subscribed_stages.has(mesh.mesh_groups@[group].render_stage),
{
    lemma_converted_items(
        stored.opaque_meshes.mesh_groups@,
        |g: SShadowkeepStaticMeshGroup| group_outcome(g),
        group,
    );
    assert(draws_in(
        mesh.mesh_groups@,
        mesh.special_meshes@,
        mesh.mesh_groups@[group].render_stage,
    ));
}

pub(crate) proof fn lemma_converted_items<A, B>(
    items: Seq<A>,
    convert: spec_fn(A) -> Result<B, Seq<char>>,
    at: int,
)
    requires
        converted(items, convert) is Ok,
    ensures
        converted(items, convert)->Ok_0.len() == items.len(),
        0 <= at < items.len() ==> convert(items[at]) == Ok::<B, Seq<char>>(
            converted(items, convert)->Ok_0[at],
        ),
    decreases items.len(),
{
    if items.len() > 0 {
        lemma_converted_items(items.drop_last(), convert, at);
    }
}

/// A loaded mesh keeps the numbers of its groups, but for the last field, of which it keeps the
/// low byte.
pub proof fn law_groups_keep_their_numbers(
    stored: SShadowkeepStaticMesh,
    mesh: StaticMesh,
    group: int,
)
    requires
        mesh.is_form_of(stored),
        0 <= group < stored.opaque_meshes.mesh_groups@.len(),
    ensures
        ({
            let loaded = mesh.mesh_groups@[group];
            let from = stored.opaque_meshes.mesh_groups@[group];
            &&& mesh.mesh_groups@.len() == stored.opaque_meshes.mesh_groups@.len()
            &&& loaded.part_index == from.part_index
            &&& loaded.render_stage.number() == from.render_stage
            &&& loaded.input_layout_index == from.input_layout_index
            &&& loaded.unk5 == from.unk5
            &&& loaded.unk6 == from.unk6 % 256
        }),
{
    lemma_converted_items(
        stored.opaque_meshes.mesh_groups@,
        |g: SShadowkeepStaticMeshGroup| group_outcome(g),
        group,
    );
    crate::geometry::law_stages_are_numbered_in_order(
        stored.opaque_meshes.mesh_groups@[group].render_stage,
    );
}

/// A loaded mesh keeps the ranges, the buffers, the detail and the topology of its parts.
pub proof fn law_parts_keep_their_ranges(
    stored: SShadowkeepStaticMesh,
    mesh: StaticMesh,
    part: int,
)
    requires
        mesh.is_form_of(stored),
        0 <= part < stored.opaque_meshes.parts@.len(),
    ensures
        ({
            let loaded = mesh.parts@[part];
            let from = stored.opaque_meshes.parts@[part];
            &&& mesh.parts@.len() == stored.opaque_meshes.parts@.len()
            &&& loaded.index_start == from.index_start
            &&& loaded.index_count == from.index_count
            &&& loaded.buffer_index == from.buffer_index
            &&& loaded.unk9 == from.unk9
            &&& loaded.lod_category.stored() == from.lod_category
            &&& loaded.primitive_type.stored() == from.primitive_type
        }),
{
    lemma_converted_items(
        stored.opaque_meshes.parts@,
        |p: SShadowkeepStaticMeshPart| part_outcome(p),
        part,
    );
}

/// A loaded mesh keeps what its special meshes are drawn from. They have no color buffer.
pub proof fn law_special_meshes_keep_their_buffers(
    stored: SShadowkeepStaticMesh,
    mesh: StaticMesh,
    special: int,
)
    requires
        mesh.is_form_of(stored),
        0 <= special < stored.special_meshes@.len(),
    ensures
        ({
            let loaded = mesh.special_meshes@[special];
            let from = stored.special_meshes@[special];
            &&& mesh.special_meshes@.len() == stored.special_meshes@.len()
            &&& loaded.index_buffer == from.index_buffer
            &&& loaded.vertex0_buffer == from.vertex0_buffer
            &&& loaded.vertex1_buffer == from.vertex1_buffer
            &&& loaded.color_buffer == 0xffff_ffff
            &&& loaded.index_start == from.index_start
            &&& loaded.index_count == from.index_count
            &&& loaded.technique == from.technique
            &&& loaded.input_layout_index == from.input_layout_index
            &&& loaded.render_stage.number() == from.render_stage
            &&& loaded.lod.stored() == from.lod_category
            &&& loaded.primitive_type.stored() == from.primitive_type
            &&& loaded.unk3 == from.unk5
            &&& loaded.unk5 == from.unk7
            &&& loaded.unk6 == from.unk2
            &&& mesh.subscribed_stages.has(loaded.render_stage)
        }),
{
    lemma_converted_items(
        stored.special_meshes@,
        |m: SShadowkeepStaticSpecialMesh| special_outcome(m),
        special,
    );
    crate::geometry::law_stages_are_numbered_in_order(
        stored.special_meshes@[special].render_stage,
    );
    assert(draws_in(
        mesh.mesh_groups@,
        mesh.special_meshes@,
        mesh.special_meshes@[special].render_stage,
    ));
}

/// A loaded mesh keeps its place, its scale, its texture coordinates, its buffers and its
/// techniques, and is subscribed to no stage but those of its groups and special meshes.
pub proof fn law_meshes_keep_their_place(stored: SShadowkeepStaticMesh, mesh: StaticMesh)
    requires
        mesh.is_form_of(stored),
    ensures
        mesh.mesh_offset == stored.mesh_offset,
        mesh.mesh_scale == stored.mesh_scale,
        mesh.texture_coordinate_scale == stored.texture_coordinate_scale.x,
        mesh.texture_coordinate_offset == stored.texture_coordinate_offset,
        mesh.max_color_index == 0,
        mesh.buffers@ == stored.opaque_meshes.buffers@,
        mesh.techniques@ == stored.techniques@,
        forall|stage: RenderStage|
            mesh.subscribed_stages.has(stage) ==> (exists|i: int|
                0 <= i < mesh.mesh_groups@.len() && (#[trigger] mesh.mesh_groups@[i]).render_stage
                    == stage) || (exists|i: int|
                0 <= i < mesh.special_meshes@.len() && (
                #[trigger] mesh.special_meshes@[i]).render_stage == stage),
{
}

/// The draw of a group goes by the group's technique, which stands at the group's own number, and
/// by the range, the buffers and the topology of the part that the group names.
pub proof fn law_groups_draw_their_part(
    mesh: StaticMesh,
    detail: MeshDetail,
    stage: RenderStage,
    group: int,
)
    requires
        0 <= group < mesh.mesh_groups@.len(),
    ensures
        ({
            let it = mesh.mesh_groups@[group];
            let part = mesh.parts@[it.part_index as int];
            &&& mesh.group_draw(detail, stage, group) is Some <==> it.render_stage == stage
                && detail.parts@[it.part_index as int] && group < mesh.techniques@.len()
            &&& mesh.group_draw(detail, stage, group) matches Some(draw) ==> {
                &&& draw.technique == mesh.techniques@[group]
                &&& draw.index_start == part.index_start
                &&& draw.index_count == part.index_count
                &&& draw.primitive_type == part.primitive_type
                &&& draw.buffers == (DrawBuffers::Opaque { index: part.buffer_index })
                &&& draw.input_layout_index == it.input_layout_index
            }
        }),
{
}

/// Every draw of a stage that is not opaque is that of a special mesh of the stage at the highest
/// detail, with that mesh's own buffers, technique and range.
pub proof fn law_special_meshes_draw_themselves(
    mesh: StaticMesh,
    detail: MeshDetail,
    stage: RenderStage,
    instances: usize,
    count: nat,
    at: int,
)
    requires
        count <= mesh.special_meshes@.len() <= usize::MAX,
        0 <= at < mesh.special_draws(detail, stage, instances, count).len(),
    ensures
        ({
            let drawn = mesh.special_draws(detail, stage, instances, count)[at];
            exists|i: int| {
                &&& 0 <= i < count
                &&& (#[trigger] mesh.special_meshes@[i]).render_stage == stage
                &&& detail.special_meshes@[i]
                &&& drawn.instances == instances
                &&& drawn.draw.buffers == (DrawBuffers::Special { place: i as usize })
                &&& drawn.draw.technique == mesh.special_meshes@[i].technique
                &&& drawn.draw.index_start == mesh.special_meshes@[i].index_start
                &&& drawn.draw.index_count == mesh.special_meshes@[i].index_count
                &&& drawn.draw.primitive_type == mesh.special_meshes@[i].primitive_type
                &&& drawn.draw.input_layout_index == mesh.special_meshes@[i].input_layout_index
            }
        }),
    decreases count,
{
    let before = mesh.special_draws(detail, stage, instances, (count - 1) as nat);
    if at < before.len() {
        law_special_meshes_draw_themselves(
            mesh,
            detail,
            stage,
            instances,
            (count - 1) as nat,
            at,
        );
    } else {
        assert(mesh.special_meshes@[count - 1].render_stage == stage);
    }
}

/// Groups are drawn while shadows, depth and the geometry buffers are made, and special meshes in
/// every other stage. In a stage that a mesh is not subscribed to it draws nothing.
pub proof fn law_opaque_stages_draw_groups(
    mesh: StaticMesh,
    detail: MeshDetail,
    stage: RenderStage,
    instances: usize,
)
    ensures
        !mesh.subscribed_stages.has(stage) ==> mesh.draws(detail, stage, instances).len() == 0,
        mesh.subscribed_stages.has(stage) && (stage.number() == 0 || stage.number() == 3
            || stage.number() == 12) ==> mesh.draws(detail, stage, instances) == mesh.group_draws(
            detail,
            stage,
            instances,
            mesh.mesh_groups@.len(),
        ),
        mesh.subscribed_stages.has(stage) && stage.number() != 0 && stage.number() != 3
            && stage.number() != 12 ==> mesh.draws(detail, stage, instances)
            == mesh.special_draws(detail, stage, instances, mesh.special_meshes@.len()),
{
}

} // verus!
