//! Rigid models: their common form, the techniques of their parts, and the draws of a model in
//! a stage.

use vstd::prelude::*;

use crate::channels::{Vec4Bits, ONE_BITS};
use crate::geometry::{
    legacy_lod, legacy_primitive, lod_category_from_legacy, primitive_type_from_legacy,
    LodCategory, PrimitiveType, RenderStage, SShadowkeepDynamicMaterialVariant,
    SShadowkeepDynamicMesh, SShadowkeepDynamicMeshPart, SShadowkeepDynamicModel, Vec2Bits,
};
use crate::handle::{is_technique_loaded, Handle, TechniqueStatus};
use crate::instances::technique_ready;
use crate::statics::{converted, lemma_conversion_step, lemma_converted_items, StageSet};
use crate::tag::NO_TAG;
use crate::text::{views, Error};

verus! {

/// A part of a mesh.
#[derive(Clone, Copy, Debug, PartialEq, Eq, Structural)]
pub struct SDynamicMeshPart {
    pub technique: u32,
    pub variant_shader_index: u16,
    pub primitive_type: PrimitiveType,
    pub unk7: u8,
    pub index_start: u32,
    pub index_count: u32,
    pub unk10: u32,
    pub external_identifier: u16,
    pub unk16: u16,
    pub flags: u32,
    pub gear_dye_change_color_index: u8,
    pub lod_category: LodCategory,
    pub unk1e: u8,
    pub lod_run: u8,
    pub unk20: u32,
}

/// A mesh of a rigid model. The parts of stage `s` are those from entry `s` of the ranges up to
/// entry `s + 1`.
#[derive(Debug)]
pub struct SDynamicMesh {
    pub vertex0_buffer: u32,
    pub vertex1_buffer: u32,
    pub buffer2: u32,
    pub buffer3: u32,
    pub index_buffer: u32,
    pub color_buffer: u32,
    pub skinning_buffer: u32,
    pub unk1c: u32,
    pub parts: Vec<SDynamicMeshPart>,
    pub part_range_per_render_stage: [u16; 25],
    pub input_layout_per_render_stage: [u8; 24],
}

pub struct DynamicMeshView {
    pub vertex0_buffer: u32,
    pub vertex1_buffer: u32,
    pub buffer2: u32,
    pub buffer3: u32,
    pub index_buffer: u32,
    pub color_buffer: u32,
    pub skinning_buffer: u32,
    pub unk1c: u32,
    pub parts: Seq<SDynamicMeshPart>,
    pub ranges: Seq<u16>,
    pub layouts: Seq<u8>,
}

impl View for SDynamicMesh {
    type V = DynamicMeshView;

    open spec fn view(&self) -> DynamicMeshView {
        DynamicMeshView {
            vertex0_buffer: self.vertex0_buffer,
            vertex1_buffer: self.vertex1_buffer,
            buffer2: self.buffer2,
            buffer3: self.buffer3,
            index_buffer: self.index_buffer,
            color_buffer: self.color_buffer,
            skinning_buffer: self.skinning_buffer,
            unk1c: self.unk1c,
            parts: self.parts@,
            ranges: self.part_range_per_render_stage@,
            layouts: self.input_layout_per_render_stage@,
        }
    }
}

pub open spec fn dynamic_part_outcome(part: SShadowkeepDynamicMeshPart) -> Result<
    SDynamicMeshPart,
    Seq<char>,
> {
    match legacy_primitive(part.primitive_type) {
        None => Err("Shadowkeep dynamic part has an unsupported primitive topology"@),
        Some(primitive_type) => match legacy_lod(part.lod_category) {
            None => Err("Shadowkeep dynamic part has an unsupported LOD category"@),
            Some(lod_category) => Ok(
                SDynamicMeshPart {
                    technique: part.technique,
                    variant_shader_index: part.variant_shader_index,
                    primitive_type,
                    unk7: part.unk7,
                    index_start: part.index_start,
                    index_count: part.index_count,
                    unk10: part.unk10,
                    external_identifier: part.external_identifier,
                    unk16: part.unk16,
                    flags: 0,
                    gear_dye_change_color_index: 0,
                    lod_category,
                    unk1e: 0,
                    lod_run: 0,
                    unk20: part.unk1c,
                },
            ),
        },
    }
}

fn convert_part(part: &SShadowkeepDynamicMeshPart) -> (result: Result<SDynamicMeshPart, Error>)
    ensures
        match result {
            Ok(done) => dynamic_part_outcome(*part) == Ok::<SDynamicMeshPart, Seq<char>>(done),
            Err(error) => dynamic_part_outcome(*part) == Err::<SDynamicMeshPart, Seq<char>>(error@),
        },
{
    let primitive_type = match primitive_type_from_legacy(part.primitive_type) {
        None => {
            return Err(
                Error {
                    message: String::from_str(
                        "Shadowkeep dynamic part has an unsupported primitive topology",
                    ),
                },
            );
        },
        Some(primitive_type) => primitive_type,
    };
    match lod_category_from_legacy(part.lod_category) {
        None => Err(
            Error {
                message: String::from_str("Shadowkeep dynamic part has an unsupported LOD category"),
            },
        ),
        Some(lod_category) => Ok(
            SDynamicMeshPart {
                technique: part.technique,
                variant_shader_index: part.variant_shader_index,
                primitive_type,
                unk7: part.unk7,
                index_start: part.index_start,
                index_count: part.index_count,
                unk10: part.unk10,
                external_identifier: part.external_identifier,
                unk16: part.unk16,
                flags: 0,
                gear_dye_change_color_index: 0,
                lod_category,
                unk1e: 0,
                lod_run: 0,
                unk20: part.unk1c,
            },
        ),
    }
}

fn convert_parts(parts: &Vec<SShadowkeepDynamicMeshPart>) -> (result: Result<
    Vec<SDynamicMeshPart>,
    Error,
>)
    ensures
        match result {
            Ok(done) => converted(
                parts@,
                |p: SShadowkeepDynamicMeshPart| dynamic_part_outcome(p),
            ) == Ok::<Seq<SDynamicMeshPart>, Seq<char>>(done@),
            Err(error) => converted(
                parts@,
                |p: SShadowkeepDynamicMeshPart| dynamic_part_outcome(p),
            ) == Err::<Seq<SDynamicMeshPart>, Seq<char>>(error@),
        },
{
    let ghost convert = |p: SShadowkeepDynamicMeshPart| dynamic_part_outcome(p);
    let mut done: Vec<SDynamicMeshPart> = Vec::new();
    let mut i: usize = 0;
    assert(parts@.take(0) =~= Seq::empty());
    while i < parts.len()
        invariant
            i <= parts@.len(),
            convert == (|p: SShadowkeepDynamicMeshPart| dynamic_part_outcome(p)),
            converted(parts@.take(i as int), convert) == Ok::<Seq<SDynamicMeshPart>, Seq<char>>(
                done@,
            ),
        decreases parts@.len() - i,
    {
        proof {
            lemma_conversion_step(parts@, convert, i as int);
        }
        match convert_part(&parts[i]) {
            Err(error) => {
                return Err(error);
            },
            Ok(part) => {
                done.push(part);
            },
        }
        i += 1;
    }
    assert(parts@.take(i as int) =~= parts@);
    Ok(done)
}

/// All layout numbers fit in a byte.
pub open spec fn layouts_fit(layouts: Seq<u16>) -> bool {
    forall|i: int| 0 <= i < layouts.len() ==> #[trigger] layouts[i] <= 0xff
}

/// The ranges with one more entry, so that the last stage, which the packages do not know, has
/// no parts.
pub open spec fn extended_ranges(ranges: Seq<u16>) -> Seq<u16> {
    ranges.push(ranges[23])
}

/// The layouts as bytes, with an unused one for the last stage.
pub open spec fn extended_layouts(layouts: Seq<u16>) -> Seq<u8> {
    layouts.map_values(|layout: u16| layout as u8).push(0)
}

/// The common form of a stored mesh, which has no color and no skinning buffer.
pub open spec fn mesh_outcome(mesh: SShadowkeepDynamicMesh) -> Result<DynamicMeshView, Seq<char>> {
    if !layouts_fit(mesh.input_layout_per_render_stage@) {
        Err("Shadowkeep dynamic input-layout index exceeds u8"@)
    } else {
        match converted(
            mesh.parts@,
            |p: SShadowkeepDynamicMeshPart| dynamic_part_outcome(p),
        ) {
            Err(message) => Err(message),
            Ok(parts) => Ok(
                DynamicMeshView {
                    vertex0_buffer: mesh.vertex0_buffer,
                    vertex1_buffer: mesh.vertex1_buffer,
                    buffer2: mesh.buffer2,
                    buffer3: mesh.buffer3,
                    index_buffer: mesh.index_buffer,
                    color_buffer: NO_TAG,
                    skinning_buffer: NO_TAG,
                    unk1c: mesh.unk14,
                    parts,
                    ranges: extended_ranges(mesh.part_range_per_render_stage@),
                    layouts: extended_layouts(mesh.input_layout_per_render_stage@),
                },
            ),
        }
    }
}

fn extend_ranges(ranges: &[u16; 24]) -> (extended: [u16; 25])
    ensures
        extended@ == extended_ranges(ranges@),
{
    let mut extended: [u16; 25] = [0; 25];
    let mut i: usize = 0;
    while i < 24
        invariant
            i <= 24,
            forall|k: int| 0 <= k < i ==> #[trigger] extended@[k] == ranges@[k],
        decreases 24 - i,
    {
        extended[i] = ranges[i];
        i += 1;
    }
    extended[24] = ranges[23];
    assert(extended@ =~= extended_ranges(ranges@));
    extended
}

fn narrow_layouts(layouts: &[u16; 23]) -> (narrow: Option<[u8; 24]>)
    ensures
        narrow is Some <==> layouts_fit(layouts@),
        narrow is Some ==> narrow->Some_0@ == extended_layouts(layouts@),
{
    let mut narrow: [u8; 24] = [0; 24];
    let mut i: usize = 0;
    while i < 23
        invariant
            i <= 23,
            forall|k: int| 0 <= k < i ==> #[trigger] layouts@[k] <= 0xff,
            forall|k: int| 0 <= k < i ==> #[trigger] narrow@[k] == layouts@[k] as u8,
            forall|k: int| i <= k < 24 ==> #[trigger] narrow@[k] == 0,
        decreases 23 - i,
    {
        if layouts[i] > 0xff {
            assert(layouts@[i as int] > 0xff);
            return None;
        }
        narrow[i] = layouts[i] as u8;
        i += 1;
    }
    assert(narrow@ =~= extended_layouts(layouts@));
    Some(narrow)
}

fn convert_mesh(mesh: &SShadowkeepDynamicMesh) -> (result: Result<SDynamicMesh, Error>)
    ensures
        match result {
            Ok(done) => mesh_outcome(*mesh) == Ok::<DynamicMeshView, Seq<char>>(done@),
            Err(error) => mesh_outcome(*mesh) == Err::<DynamicMeshView, Seq<char>>(error@),
        },
{
    let layouts: [u8; 24] = match narrow_layouts(&mesh.input_layout_per_render_stage) {
        None => {
            return Err(
                Error {
                    message: String::from_str("Shadowkeep dynamic input-layout index exceeds u8"),
                },
            );
        },
        Some(layouts) => layouts,
    };
    let parts = match convert_parts(&mesh.parts) {
        Err(error) => {
            return Err(error);
        },
        Ok(parts) => parts,
    };
    Ok(
        SDynamicMesh {
            vertex0_buffer: mesh.vertex0_buffer,
            vertex1_buffer: mesh.vertex1_buffer,
            buffer2: mesh.buffer2,
            buffer3: mesh.buffer3,
            index_buffer: mesh.index_buffer,
            color_buffer: NO_TAG,
            skinning_buffer: NO_TAG,
            unk1c: mesh.unk14,
            parts,
            part_range_per_render_stage: extend_ranges(&mesh.part_range_per_render_stage),
            input_layout_per_render_stage: layouts,
        },
    )
}

fn convert_meshes(meshes: &Vec<SShadowkeepDynamicMesh>) -> (result: Result<Vec<SDynamicMesh>, Error>)
    ensures
        match result {
            Ok(done) => converted(meshes@, |m: SShadowkeepDynamicMesh| mesh_outcome(m)) == Ok::<
                Seq<DynamicMeshView>,
                Seq<char>,
            >(views(done@)),
            Err(error) => converted(meshes@, |m: SShadowkeepDynamicMesh| mesh_outcome(m)) == Err::<
                Seq<DynamicMeshView>,
                Seq<char>,
            >(error@),
        },
{
    let ghost convert = |m: SShadowkeepDynamicMesh| mesh_outcome(m);
    let mut done: Vec<SDynamicMesh> = Vec::new();
    let mut i: usize = 0;
    assert(meshes@.take(0) =~= Seq::empty());
    assert(views(done@) =~= Seq::empty());
    while i < meshes.len()
        invariant
            i <= meshes@.len(),
            convert == (|m: SShadowkeepDynamicMesh| mesh_outcome(m)),
            converted(meshes@.take(i as int), convert) == Ok::<Seq<DynamicMeshView>, Seq<char>>(
                views(done@),
            ),
        decreases meshes@.len() - i,
    {
        proof {
            lemma_conversion_step(meshes@, convert, i as int);
        }
        match convert_mesh(&meshes[i]) {
            Err(error) => {
                return Err(error);
            },
            Ok(mesh) => {
                let ghost before = done@;
                done.push(mesh);
                assert(views(done@) =~= views(before).push(mesh@));
            },
        }
        i += 1;
    }
    assert(meshes@.take(i as int) =~= meshes@);
    Ok(done)
}

impl DynamicMeshView {
    /// The stage has parts.
    pub open spec fn draws_in(self, stage: RenderStage) -> bool {
        self.ranges[stage.number() as int] < self.ranges[stage.number() + 1]
    }
}

fn stages_of_mesh(mesh: &SDynamicMesh) -> (stages: StageSet)
    ensures
        forall|stage: RenderStage| #[trigger] stages.has(stage) == mesh@.draws_in(stage),
{
    let mut subscribed: [bool; 24] = [false; 24];
    let mut i: usize = 0;
    while i < 24
        invariant
            i <= 24,
            forall|k: int|
                0 <= k < i ==> #[trigger] subscribed@[k] == (mesh@.ranges[k] < mesh@.ranges[k + 1]),
        decreases 24 - i,
    {
        subscribed[i] = mesh.part_range_per_render_stage[i] < mesh.part_range_per_render_stage[i
            + 1];
        i += 1;
    }
    StageSet { subscribed }
}

/// A rigid model.
#[derive(Debug)]
pub struct DynamicModel {
    pub hash: u32,
    pub meshes: Vec<SDynamicMesh>,
    pub mesh_stages: Vec<StageSet>,
    pub subscribed_stages: StageSet,
    pub technique_map: Vec<SShadowkeepDynamicMaterialVariant>,
    pub techniques: Vec<u32>,
    pub permutation: usize,
    pub permutation_count: usize,
    pub identifier_count: usize,
    pub identifier_mask: u128,
    pub model_scale: Vec4Bits,
    pub model_offset: Vec4Bits,
    pub texcoord_scale: Vec2Bits,
    pub texcoord_offset: Vec2Bits,
    /// The map and the collection of a model in the sky.
    pub sky_owner: Option<(u32, u32)>,
}

/// The number of techniques of the first variant that every part takes, or one.
pub open spec fn permutations(variants: Seq<SShadowkeepDynamicMaterialVariant>) -> nat
    decreases variants.len(),
{
    if variants.len() == 0 {
        1
    } else if variants[0].unk8 == 0 {
        if variants[0].technique_count == 0 {
            1
        } else {
            variants[0].technique_count as nat
        }
    } else {
        permutations(variants.drop_first())
    }
}

/// The variant that every part takes has no technique.
pub open spec fn lacks_techniques(variants: Seq<SShadowkeepDynamicMaterialVariant>) -> bool
    decreases variants.len(),
{
    if variants.len() == 0 {
        false
    } else if variants[0].unk8 == 0 {
        variants[0].technique_count == 0
    } else {
        lacks_techniques(variants.drop_first())
    }
}

fn count_permutations(variants: &Vec<SShadowkeepDynamicMaterialVariant>) -> (count: usize)
    ensures
        count == permutations(variants@),
        count >= 1,
{
    let mut i: usize = 0;
    assert(variants@.skip(0) =~= variants@);
    while i < variants.len()
        invariant
            i <= variants@.len(),
            permutations(variants@) == permutations(variants@.skip(i as int)),
        decreases variants@.len() - i,
    {
        assert(variants@.skip(i as int).drop_first() =~= variants@.skip(i + 1));
        if variants[i].unk8 == 0 {
            let count: usize = variants[i].technique_count as usize;
            if count == 0 {
                return 1;
            }
            return count;
        }
        i += 1;
    }
    1
}

/// The greatest identifier of the parts, or zero.
pub open spec fn greatest_identifier(parts: Seq<SDynamicMeshPart>) -> u16
    decreases parts.len(),
{
    if parts.len() == 0 {
        0
    } else {
        let before = greatest_identifier(parts.drop_last());
        let last = parts.last().external_identifier;
        if before < last {
            last
        } else {
            before
        }
    }
}

/// The greatest identifier of all meshes, or zero.
pub open spec fn greatest_of_meshes(meshes: Seq<DynamicMeshView>) -> u16
    decreases meshes.len(),
{
    if meshes.len() == 0 {
        0
    } else {
        let before = greatest_of_meshes(meshes.drop_last());
        let last = greatest_identifier(meshes.last().parts);
        if before < last {
            last
        } else {
            before
        }
    }
}

fn find_greatest_identifier(parts: &Vec<SDynamicMeshPart>) -> (greatest: u16)
    ensures
        greatest == greatest_identifier(parts@),
{
    let mut greatest: u16 = 0;
    let mut i: usize = 0;
    while i < parts.len()
        invariant
            i <= parts@.len(),
            greatest == greatest_identifier(parts@.take(i as int)),
        decreases parts@.len() - i,
    {
        assert(parts@.take(i + 1).drop_last() =~= parts@.take(i as int));
        if greatest < parts[i].external_identifier {
            greatest = parts[i].external_identifier;
        }
        i += 1;
    }
    assert(parts@.take(i as int) =~= parts@);
    greatest
}

fn count_identifiers(meshes: &Vec<SDynamicMesh>) -> (count: usize)
    ensures
        count == greatest_of_meshes(views(meshes@)) + 1,
{
    let mut greatest: u16 = 0;
    let mut i: usize = 0;
    let ghost viewed = views(meshes@);
    while i < meshes.len()
        invariant
            i <= meshes@.len(),
            viewed == views(meshes@),
            greatest == greatest_of_meshes(viewed.take(i as int)),
        decreases meshes@.len() - i,
    {
        assert(viewed.take(i + 1).drop_last() =~= viewed.take(i as int));
        assert(viewed[i as int].parts == meshes@[i as int].parts@);
        let next: u16 = find_greatest_identifier(&meshes[i].parts);
        if greatest < next {
            greatest = next;
        }
        i += 1;
    }
    assert(viewed.take(i as int) =~= viewed);
    greatest as usize + 1
}

/// A mesh has parts in the stage.
pub open spec fn any_draws_in(meshes: Seq<SDynamicMesh>, stage: RenderStage) -> bool {
    exists|i: int| 0 <= i < meshes.len() && (#[trigger] meshes[i])@.draws_in(stage)
}

fn collect_stages(meshes: &Vec<SDynamicMesh>) -> (stages: (Vec<StageSet>, StageSet))
    ensures
        stages.0@.len() == meshes@.len(),
        forall|i: int, stage: RenderStage|
            0 <= i < meshes@.len() ==> #[trigger] stages.0@[i].has(stage)
                == meshes@[i]@.draws_in(stage),
        forall|stage: RenderStage| #[trigger] stages.1.has(stage) == any_draws_in(meshes@, stage),
{
    let mut each: Vec<StageSet> = Vec::new();
    let mut all = StageSet::empty();
    let mut i: usize = 0;
    while i < meshes.len()
        invariant
            i <= meshes@.len(),
            each@.len() == i,
            forall|k: int, stage: RenderStage|
                0 <= k < i ==> #[trigger] each@[k].has(stage) == meshes@[k]@.draws_in(stage),
            forall|stage: RenderStage| #[trigger]
                all.has(stage) == any_draws_in(meshes@.take(i as int), stage),
        decreases meshes@.len() - i,
    {
        let stages = stages_of_mesh(&meshes[i]);
        let ghost before = all;
        all.join(&stages);
        each.push(stages);
        assert forall|stage: RenderStage| #[trigger] all.has(stage) == any_draws_in(
            meshes@.take(i + 1),
            stage,
        ) by {
            let longer = meshes@.take(i + 1);
            let shorter = meshes@.take(i as int);
            assert(before.has(stage) == any_draws_in(shorter, stage));
            if any_draws_in(shorter, stage) {
                let k = choose|k: int|
                    0 <= k < shorter.len() && (#[trigger] shorter[k])@.draws_in(stage);
                assert(longer[k]@.draws_in(stage));
            }
            assert(longer[i as int] == meshes@[i as int]);
            if any_draws_in(longer, stage) {
                let k = choose|k: int|
                    0 <= k < longer.len() && (#[trigger] longer[k])@.draws_in(stage);
                if k < i {
                    assert(shorter[k]@.draws_in(stage));
                }
            }
        }
        i += 1;
    }
    assert(meshes@.take(i as int) =~= meshes@);
    (each, all)
}

/// The single-precision pattern of four fifths.
pub const AMBIENT_BITS: u32 = 0x3f4c_cccd;

/// The constants of a model beside its place.
#[derive(Clone, Copy, Debug, PartialEq, Eq, Structural)]
pub struct RigidModelConstants {
    pub position_scale: Vec4Bits,
    pub position_offset: Vec4Bits,
    pub texcoord0_scale_offset: Vec4Bits,
    pub dynamic_sh_ao_values: Vec4Bits,
}

/// A draw of a part of a model.
#[derive(Clone, Copy, Debug, PartialEq, Eq, Structural)]
pub struct PartDraw {
    pub mesh: usize,
    pub part: usize,
    pub input_layout: u8,
    pub technique: u32,
    /// The technique of the chosen permutation, bound after the part's own.
    pub variant_technique: Option<u32>,
    pub primitive_type: PrimitiveType,
    pub index_count: u32,
    pub index_start: u32,
}

impl DynamicModel {
    /// The model is the common form of a stored model.
    pub open spec fn is_form_of(
        self,
        hash: u32,
        stored: SShadowkeepDynamicModel,
        variants: Seq<SShadowkeepDynamicMaterialVariant>,
        techniques: Seq<u32>,
    ) -> bool {
        &&& converted(stored.meshes@, |m: SShadowkeepDynamicMesh| mesh_outcome(m)) == Ok::<
            Seq<DynamicMeshView>,
            Seq<char>,
        >(views(self.meshes@))
        &&& self.is_made_of(hash, self.meshes@, variants, techniques)
        &&& self.model_scale == stored.model_scale
        &&& self.model_offset == stored.model_offset
        &&& self.texcoord_scale == stored.texcoord_scale
        &&& self.texcoord_offset == stored.texcoord_offset
    }

    /// Each mesh is listed with the stages in which it has parts.
    pub open spec fn stages_wf(self) -> bool {
        &&& self.mesh_stages@.len() == self.meshes@.len()
        &&& forall|i: int, stage: RenderStage|
            0 <= i < self.meshes@.len() ==> #[trigger] self.mesh_stages@[i].has(stage)
                == self.meshes@[i]@.draws_in(stage)
    }

    /// Brings a stored model into its common form.
    pub fn load_shadowkeep(
        hash: u32,
        stored: &SShadowkeepDynamicModel,
        technique_map: Vec<SShadowkeepDynamicMaterialVariant>,
        techniques: Vec<u32>,
    ) -> (result: Result<DynamicModel, Error>)
        ensures
            match converted(stored.meshes@, |m: SShadowkeepDynamicMesh| mesh_outcome(m)) {
                Err(message) => result matches Err(error) && error@ == message,
                Ok(_) => result matches Ok(model) && model.is_form_of(
                    hash,
                    *stored,
                    technique_map@,
                    techniques@,
                ),
            },
    {
        let meshes = match convert_meshes(&stored.meshes) {
            Err(error) => {
                return Err(error);
            },
            Ok(meshes) => meshes,
        };
        Ok(
            DynamicModel::assemble(
                hash,
                meshes,
                technique_map,
                techniques,
                stored.model_scale,
                stored.model_offset,
                stored.texcoord_scale,
                stored.texcoord_offset,
            ),
        )
    }

    /// The model is made of its meshes: it knows their stages, its permutations and its
    /// identifiers.
    pub open spec fn is_made_of(
        self,
        hash: u32,
        meshes: Seq<SDynamicMesh>,
        variants: Seq<SShadowkeepDynamicMaterialVariant>,
        techniques: Seq<u32>,
    ) -> bool {
        &&& self.hash == hash
        &&& self.meshes@ == meshes
        &&& self.stages_wf()
        &&& forall|stage: RenderStage| #[trigger]
            self.subscribed_stages.has(stage) == any_draws_in(self.meshes@, stage)
        &&& self.technique_map@ == variants
        &&& self.techniques@ == techniques
        &&& self.permutation_count == permutations(variants)
        &&& self.permutation == self.permutation_count - 1
        &&& self.identifier_count == greatest_of_meshes(views(self.meshes@)) + 1
        &&& self.identifier_mask == u128::MAX
        &&& self.sky_owner is None
    }

    fn assemble(
        hash: u32,
        meshes: Vec<SDynamicMesh>,
        technique_map: Vec<SShadowkeepDynamicMaterialVariant>,
        techniques: Vec<u32>,
        model_scale: Vec4Bits,
        model_offset: Vec4Bits,
        texcoord_scale: Vec2Bits,
        texcoord_offset: Vec2Bits,
    ) -> (model: DynamicModel)
        ensures
            model.is_made_of(hash, meshes@, technique_map@, techniques@),
            model.model_scale == model_scale,
            model.model_offset == model_offset,
            model.texcoord_scale == texcoord_scale,
            model.texcoord_offset == texcoord_offset,
    {
        let (mesh_stages, subscribed_stages) = collect_stages(&meshes);
        let permutation_count: usize = count_permutations(&technique_map);
        let identifier_count: usize = count_identifiers(&meshes);
        DynamicModel {
            hash,
            meshes,
            mesh_stages,
            subscribed_stages,
            technique_map,
            techniques,
            permutation: permutation_count - 1,
            permutation_count,
            identifier_count,
            identifier_mask: u128::MAX,
            model_scale,
            model_offset,
            texcoord_scale,
            texcoord_offset,
            sky_owner: None,
        }
    }

    /// Makes a model of the current era, whose meshes are stored in their common form. The
    /// variant that every part takes must have a technique.
    pub fn load(
        hash: u32,
        meshes: Vec<SDynamicMesh>,
        technique_map: Vec<SShadowkeepDynamicMaterialVariant>,
        techniques: Vec<u32>,
        model_scale: Vec4Bits,
        model_offset: Vec4Bits,
        texcoord_scale: Vec2Bits,
        texcoord_offset: Vec2Bits,
    ) -> (model: DynamicModel)
        requires
            !lacks_techniques(technique_map@),
        ensures
            model.is_made_of(hash, meshes@, technique_map@, techniques@),
            model.model_scale == model_scale,
            model.model_offset == model_offset,
            model.texcoord_scale == texcoord_scale,
            model.texcoord_offset == texcoord_offset,
    {
        DynamicModel::assemble(
            hash,
            meshes,
            technique_map,
            techniques,
            model_scale,
            model_offset,
            texcoord_scale,
            texcoord_offset,
        )
    }

    /// Places the model in the sky of a map.
    pub fn set_sky_owner(&mut self, map: u32, collection: u32)
        ensures
            *final(self) == (DynamicModel { sky_owner: Some((map, collection)), ..*old(self) }),
    {
        self.sky_owner = Some((map, collection));
    }

    pub fn mesh_count(&self) -> (count: usize)
        ensures
            count == self.meshes@.len(),
    {
        self.meshes.len()
    }

    pub fn variant_count(&self) -> (count: usize)
        ensures
            count == self.permutation_count,
    {
        self.permutation_count
    }

    pub fn identifier_count(&self) -> (count: usize)
        ensures
            count == self.identifier_count,
    {
        self.identifier_count
    }

    /// The technique of a variant in a permutation. Permutations beyond the last begin anew.
    pub open spec fn permuted(self, index: u16, permutation: usize) -> Option<u32> {
        if index == 0xffff || index >= self.technique_map@.len() {
            None
        } else {
            let variant = self.technique_map@[index as int];
            Some(
                self.techniques@[variant.technique_start + (permutation as int
                    % variant.technique_count as int)],
            )
        }
    }

    /// The techniques hold the one of a variant in a permutation.
    pub open spec fn has_permuted(self, index: u16, permutation: usize) -> bool {
        index != 0xffff && index < self.technique_map@.len() ==> {
            let variant = self.technique_map@[index as int];
            &&& variant.technique_count > 0
            &&& variant.technique_start + (permutation as int % variant.technique_count as int)
                < self.techniques@.len()
        }
    }

    /// Finds the technique of a variant in a permutation.
    pub fn get_permutation_technique(&self, index: u16, permutation: usize) -> (technique: Option<u32>)
        requires
            self.has_permuted(index, permutation),
        ensures
            technique == self.permuted(index, permutation),
    {
        if index == 0xffff || index as usize >= self.technique_map.len() {
            return None;
        }
        let variant = self.technique_map[index as usize];
        let within: usize = permutation % variant.technique_count as usize;
        assert(within + variant.technique_start < self.techniques.len());
        let place: usize = variant.technique_start as usize + within;
        Some(self.techniques[place])
    }

    /// The identifier is among those to draw. The mask has no bit for the greatest ones.
    pub open spec fn selected(mask: u128, identifier: u16) -> bool {
        identifier < 128 && (mask >> identifier) & 1 == 1
    }

    fn is_selected(mask: u128, identifier: u16) -> (selected: bool)
        ensures
            selected == DynamicModel::selected(mask, identifier),
    {
        identifier < 128 && (mask >> identifier) & 1 == 1
    }

    /// The draws of the parts from `start` up to `end` of a mesh. `detail` tells which parts are
    /// of the highest detail.
    pub open spec fn part_draws(
        self,
        detail: Seq<bool>,
        stage: RenderStage,
        mask: u128,
        mesh: int,
        start: int,
        end: int,
    ) -> Seq<PartDraw>
        decreases end - start,
    {
        if end <= start {
            Seq::empty()
        } else {
            let before = self.part_draws(detail, stage, mask, mesh, start, end - 1);
            let it = self.meshes@[mesh];
            let part = it.parts@[end - 1];
            if DynamicModel::selected(mask, part.external_identifier) && detail[end - 1] {
                before.push(
                    PartDraw {
                        mesh: mesh as usize,
                        part: (end - 1) as usize,
                        input_layout: it.input_layout_per_render_stage@[stage.number() as int],
                        technique: part.technique,
                        variant_technique: self.permuted(
                            part.variant_shader_index,
                            self.permutation,
                        ),
                        primitive_type: part.primitive_type,
                        index_count: part.index_count,
                        index_start: part.index_start,
                    },
                )
            } else {
                before
            }
        }
    }

    /// The draws of the first `count` meshes.
    pub open spec fn draws(
        self,
        details: Seq<Vec<bool>>,
        stage: RenderStage,
        mask: u128,
        count: nat,
    ) -> Seq<PartDraw>
        decreases count,
    {
        if count == 0 {
            Seq::empty()
        } else {
            let mesh = self.meshes@[count - 1]@;
            self.draws(details, stage, mask, (count - 1) as nat) + self.part_draws(
                details[count - 1]@,
                stage,
                mask,
                count - 1,
                mesh.ranges[stage.number() as int] as int,
                mesh.ranges[stage.number() + 1] as int,
            )
        }
    }

    /// The model can be drawn in the stage: the parts of the stage exist, and those that are
    /// selected, at the highest detail, have the techniques of their variants.
    pub open spec fn drawable(self, details: Seq<Vec<bool>>, stage: RenderStage, mask: u128) -> bool {
        &&& self.stages_wf()
        &&& details.len() == self.meshes@.len()
        &&& forall|i: int|
            0 <= i < self.meshes@.len() && self.meshes@[i]@.draws_in(stage) ==> self.mesh_drawable(
                #[trigger] details[i]@,
                stage,
                mask,
                i,
            )
    }

    pub open spec fn mesh_drawable(
        self,
        detail: Seq<bool>,
        stage: RenderStage,
        mask: u128,
        mesh: int,
    ) -> bool {
        let it = self.meshes@[mesh];
        &&& detail.len() == it.parts@.len()
        &&& it@.ranges[stage.number() + 1] <= it.parts@.len()
        &&& forall|part: int|
            it@.ranges[stage.number() as int] <= part < it@.ranges[stage.number() + 1]
                && DynamicModel::selected(mask, (#[trigger] it.parts@[part]).external_identifier)
                && detail[part] ==> self.has_permuted(
                it.parts@[part].variant_shader_index,
                self.permutation,
            )
    }

    fn draw_mesh(
        &self,
        draws: &mut Vec<PartDraw>,
        detail: &Vec<bool>,
        stage: RenderStage,
        mask: u128,
        mesh: usize,
    )
        requires
            mesh < self.meshes@.len(),
            self.mesh_drawable(detail@, stage, mask, mesh as int),
            self.meshes@[mesh as int]@.draws_in(stage),
        ensures
            final(draws)@ == old(draws)@ + self.part_draws(
                detail@,
                stage,
                mask,
                mesh as int,
                self.meshes@[mesh as int]@.ranges[stage.number() as int] as int,
                self.meshes@[mesh as int]@.ranges[stage.number() + 1] as int,
            ),
    {
        let it: &SDynamicMesh = &self.meshes[mesh];
        let number: usize = stage.index() as usize;
        let start: usize = it.part_range_per_render_stage[number] as usize;
        let end: usize = it.part_range_per_render_stage[number + 1] as usize;
        let layout: u8 = it.input_layout_per_render_stage[number];
        let mut part: usize = start;
        assert(it@.ranges[number as int] < it@.ranges[number + 1]);
        while part < end
            invariant
                start <= part <= end <= it.parts@.len(),
                mesh < self.meshes@.len(),
                *it == self.meshes@[mesh as int],
                start == it@.ranges[stage.number() as int],
                end == it@.ranges[stage.number() + 1],
                self.mesh_drawable(detail@, stage, mask, mesh as int),
                layout == it.input_layout_per_render_stage@[stage.number() as int],
                draws@ =~= old(draws)@ + self.part_draws(
                    detail@,
                    stage,
                    mask,
                    mesh as int,
                    start as int,
                    part as int,
                ),
            decreases end - part,
        {
            let candidate = it.parts[part];
            if DynamicModel::is_selected(mask, candidate.external_identifier) && detail[part] {
                assert(self.has_permuted(
                    it.parts@[part as int].variant_shader_index,
                    self.permutation,
                ));
                draws.push(
                    PartDraw {
                        mesh,
                        part,
                        input_layout: layout,
                        technique: candidate.technique,
                        variant_technique: self.get_permutation_technique(
                            candidate.variant_shader_index,
                            self.permutation,
                        ),
                        primitive_type: candidate.primitive_type,
                        index_count: candidate.index_count,
                        index_start: candidate.index_start,
                    },
                );
            }
            part += 1;
        }
    }

    /// Plans the draws of the model in a stage.
    pub fn draw_wrapped(&self, details: &Vec<Vec<bool>>, stage: RenderStage, mask: u128) -> (draws: Vec<
        PartDraw,
    >)
        requires
            self.drawable(details@, stage, mask),
        ensures
            draws@ == self.draws(details@, stage, mask, self.meshes@.len()),
    {
        let mut draws: Vec<PartDraw> = Vec::new();
        let mut i: usize = 0;
        while i < self.meshes.len()
            invariant
                i <= self.meshes@.len(),
                self.drawable(details@, stage, mask),
                draws@ =~= self.draws(details@, stage, mask, i as nat),
            decreases self.meshes@.len() - i,
        {
            assert(self.mesh_stages@[i as int].has(stage) == self.meshes@[i as int]@.draws_in(stage));
            if self.mesh_stages[i].is_subscribed(stage) {
                assert(self.mesh_drawable(details@[i as int]@, stage, mask, i as int));
                self.draw_mesh(&mut draws, &details[i], stage, mask, i);
            }
            i += 1;
        }
        draws
    }

    /// What is to be recorded with each draw of a model in the sky: the map, the collection and the
    /// model.
    pub open spec fn sky_record(self) -> Option<(u32, u32, u32)> {
        match self.sky_owner {
            Some((map, collection)) => Some((map, collection, self.hash)),
            None => None,
        }
    }

    /// Plans the draws of the selected parts in a stage, with what each of them records.
    pub fn submit(&self, details: &Vec<Vec<bool>>, stage: RenderStage) -> (submitted: (
        Vec<PartDraw>,
        Option<(u32, u32, u32)>,
    ))
        requires
            self.drawable(details@, stage, self.identifier_mask),
        ensures
            submitted.0@ == self.draws(details@, stage, self.identifier_mask, self.meshes@.len()),
            submitted.1 == self.sky_record(),
    {
        let draws = self.draw_wrapped(details, stage, self.identifier_mask);
        let record = match self.sky_owner {
            Some((map, collection)) => Some((map, collection, self.hash)),
            None => None,
        };
        (draws, record)
    }

    /// Chooses the permutation that is drawn, and gives the constants of the model.
    pub fn prepare(&mut self, permutation: usize) -> (constants: RigidModelConstants)
        ensures
            *final(self) == (DynamicModel { permutation, ..*old(self) }),
            constants == final(self).constants_of(),
            constants.position_scale == old(self).model_scale,
            constants.position_offset == old(self).model_offset,
            constants.texcoord0_scale_offset.x == old(self).texcoord_scale.x,
            constants.texcoord0_scale_offset.y == old(self).texcoord_scale.y,
            constants.texcoord0_scale_offset.z == old(self).texcoord_offset.x,
            constants.texcoord0_scale_offset.w == old(self).texcoord_offset.y,
            constants.dynamic_sh_ao_values.x == 0,
            constants.dynamic_sh_ao_values.y == 0,
            constants.dynamic_sh_ao_values.z == 0,
            constants.dynamic_sh_ao_values.w == if old(self).sky_owner is Some {
                0x3f80_0000u32
            } else {
                0x3f4c_cccdu32
            },
    {
        self.permutation = permutation;
        self.constants()
    }

    /// The constants of the model beside its place. Models of the sky are fully lit.
    pub open spec fn constants_of(self) -> RigidModelConstants {
        RigidModelConstants {
            position_scale: self.model_scale,
            position_offset: self.model_offset,
            texcoord0_scale_offset: Vec4Bits {
                x: self.texcoord_scale.x,
                y: self.texcoord_scale.y,
                z: self.texcoord_offset.x,
                w: self.texcoord_offset.y,
            },
            dynamic_sh_ao_values: Vec4Bits {
                x: 0,
                y: 0,
                z: 0,
                w: if self.sky_owner is Some { ONE_BITS } else { AMBIENT_BITS },
            },
        }
    }

    /// Gives the constants of the model beside its place.
    pub fn constants(&self) -> (constants: RigidModelConstants)
        ensures
            constants == self.constants_of(),
            constants.position_scale == self.model_scale,
            constants.position_offset == self.model_offset,
            constants.texcoord0_scale_offset.x == self.texcoord_scale.x,
            constants.texcoord0_scale_offset.y == self.texcoord_scale.y,
            constants.texcoord0_scale_offset.z == self.texcoord_offset.x,
            constants.texcoord0_scale_offset.w == self.texcoord_offset.y,
            constants.dynamic_sh_ao_values.x == 0,
            constants.dynamic_sh_ao_values.y == 0,
            constants.dynamic_sh_ao_values.z == 0,
            constants.dynamic_sh_ao_values.w == if self.sky_owner is Some {
                0x3f80_0000u32
            } else {
                0x3f4c_cccdu32
            },
    {
        RigidModelConstants {
            position_scale: self.model_scale,
            position_offset: self.model_offset,
            texcoord0_scale_offset: Vec4Bits {
                x: self.texcoord_scale.x,
                y: self.texcoord_scale.y,
                z: self.texcoord_offset.x,
                w: self.texcoord_offset.y,
            },
            dynamic_sh_ao_values: Vec4Bits {
                x: 0,
                y: 0,
                z: 0,
                w: if self.sky_owner.is_some() { ONE_BITS } else { AMBIENT_BITS },
            },
        }
    }
}

/// Tells whether all techniques of the parts, mesh by mesh, and of the variants can be drawn with.
pub fn is_loaded(
    parts: &Vec<Vec<Handle<TechniqueStatus>>>,
    variants: &Vec<Handle<TechniqueStatus>>,
) -> (loaded: bool)
    ensures
        loaded == ((forall|i: int, j: int|
            0 <= i < parts@.len() && 0 <= j < parts@[i]@.len() ==> technique_ready(
                #[trigger] parts@[i]@[j],
            )) && (forall|i: int|
            0 <= i < variants@.len() ==> technique_ready(#[trigger] variants@[i]))),
{
    let mut mesh: usize = 0;
    while mesh < parts.len()
        invariant
            mesh <= parts@.len(),
            forall|i: int, j: int|
                0 <= i < mesh && 0 <= j < parts@[i]@.len() ==> technique_ready(
                    #[trigger] parts@[i]@[j],
                ),
        decreases parts@.len() - mesh,
    {
        let techniques: &Vec<Handle<TechniqueStatus>> = &parts[mesh];
        let mut part: usize = 0;
        while part < techniques.len()
            invariant
                mesh < parts@.len(),
                *techniques == parts@[mesh as int],
                part <= techniques@.len(),
                forall|j: int|
                    0 <= j < part ==> technique_ready(#[trigger] parts@[mesh as int]@[j]),
            decreases techniques@.len() - part,
        {
            if !is_technique_loaded(&techniques[part]) {
                assert(!technique_ready(parts@[mesh as int]@[part as int]));
                return false;
            }
            part += 1;
        }
        mesh += 1;
    }
    let mut i: usize = 0;
    while i < variants.len()
        invariant
            i <= variants@.len(),
            forall|k: int| 0 <= k < i ==> technique_ready(#[trigger] variants@[k]),
        decreases variants@.len() - i,
    {
        if !is_technique_loaded(&variants[i]) {
            assert(!technique_ready(variants@[i as int]));
            return false;
        }
        i += 1;
    }
    true
}

/// Decides, from the scopes of the techniques that were bound, whether a part is drawn, and
/// whether skinning is turned off for it.
pub fn part_scopes(scopes: u64, skinning: u64) -> (draw: Option<bool>)
    ensures
        draw == if scopes == 0 {
            None
        } else {
            Some(scopes & skinning == skinning)
        },
{
    if scopes == 0 {
        None
    } else {
        Some(scopes & skinning == skinning)
    }
}

/// A model from the packages draws nothing in the stage that they do not know.
pub proof fn law_compute_skinning_draws_no_part(stored: SShadowkeepDynamicMesh)
    requires
        mesh_outcome(stored) is Ok,
    ensures
        !mesh_outcome(stored)->Ok_0.draws_in(RenderStage::ComputeSkinning),
        forall|stage: RenderStage|
            stage != RenderStage::ComputeSkinning ==> (
            #[trigger] mesh_outcome(stored)->Ok_0.draws_in(stage)
                == (stored.part_range_per_render_stage@[stage.number() as int]
                < stored.part_range_per_render_stage@[stage.number() + 1])),
{
}

/// Permutations repeat: adding the number of techniques of a variant changes nothing.
pub proof fn law_permutations_repeat(
    model: DynamicModel,
    index: u16,
    permutation: usize,
    more: usize,
)
    requires
        model.has_permuted(index, permutation),
        index != 0xffff,
        index < model.technique_map@.len(),
        more == permutation + model.technique_map@[index as int].technique_count,
    ensures
        model.permuted(index, more) == model.permuted(index, permutation),
{
    let count = model.technique_map@[index as int].technique_count as int;
    vstd::arithmetic::div_mod::lemma_mod_add_multiples_vanish(permutation as int, count);
}

/// The constants scale positions by the model's scale and move them by its offset. The texture
/// coordinates have their scale in the first two lanes and their offset in the last two. A model
/// of the sky is lit in full, and any other by four fifths.
pub proof fn law_constants_scale_and_then_move(model: DynamicModel)
    ensures
        model.constants_of().position_scale == model.model_scale,
        model.constants_of().position_offset == model.model_offset,
        model.constants_of().texcoord0_scale_offset.x == model.texcoord_scale.x,
        model.constants_of().texcoord0_scale_offset.y == model.texcoord_scale.y,
        model.constants_of().texcoord0_scale_offset.z == model.texcoord_offset.x,
        model.constants_of().texcoord0_scale_offset.w == model.texcoord_offset.y,
        model.constants_of().dynamic_sh_ao_values.x == 0,
        model.constants_of().dynamic_sh_ao_values.y == 0,
        model.constants_of().dynamic_sh_ao_values.z == 0,
        model.sky_owner is Some ==> model.constants_of().dynamic_sh_ao_values.w == 0x3f80_0000,
        model.sky_owner is None ==> model.constants_of().dynamic_sh_ao_values.w == 0x3f4c_cccd,
{
}

/// The constants of a loaded model are the stored ones.
pub proof fn law_loaded_constants_are_the_stored_ones(
    model: DynamicModel,
    hash: u32,
    stored: SShadowkeepDynamicModel,
    variants: Seq<SShadowkeepDynamicMaterialVariant>,
    techniques: Seq<u32>,
)
    requires
        model.is_form_of(hash, stored, variants, techniques),
    ensures
        model.constants_of().position_scale == stored.model_scale,
        model.constants_of().position_offset == stored.model_offset,
        model.constants_of().texcoord0_scale_offset.x == stored.texcoord_scale.x,
        model.constants_of().texcoord0_scale_offset.y == stored.texcoord_scale.y,
        model.constants_of().texcoord0_scale_offset.z == stored.texcoord_offset.x,
        model.constants_of().texcoord0_scale_offset.w == stored.texcoord_offset.y,
        model.constants_of().dynamic_sh_ao_values.w == 0x3f4c_cccd,
        model.hash == hash,
        model.technique_map@ == variants,
        model.techniques@ == techniques,
        model.identifier_mask == u128::MAX,
{
}

/// A loaded model has the stored meshes one for one, each with its own buffers and without the
/// color and the skinning buffer, which the packages do not have.
pub proof fn law_models_keep_their_buffers(
    model: DynamicModel,
    hash: u32,
    stored: SShadowkeepDynamicModel,
    variants: Seq<SShadowkeepDynamicMaterialVariant>,
    techniques: Seq<u32>,
    mesh: int,
)
    requires
        model.is_form_of(hash, stored, variants, techniques),
        0 <= mesh < stored.meshes@.len(),
    ensures
        model.meshes@.len() == stored.meshes@.len(),
        model.meshes@[mesh].vertex0_buffer == stored.meshes@[mesh].vertex0_buffer,
        model.meshes@[mesh].vertex1_buffer == stored.meshes@[mesh].vertex1_buffer,
        model.meshes@[mesh].buffer2 == stored.meshes@[mesh].buffer2,
        model.meshes@[mesh].buffer3 == stored.meshes@[mesh].buffer3,
        model.meshes@[mesh].index_buffer == stored.meshes@[mesh].index_buffer,
        model.meshes@[mesh].color_buffer == 0xffff_ffff,
        model.meshes@[mesh].skinning_buffer == 0xffff_ffff,
        model.meshes@[mesh].unk1c == stored.meshes@[mesh].unk14,
        model.meshes@[mesh].parts@.len() == stored.meshes@[mesh].parts@.len(),
{
    lemma_converted_items(
        stored.meshes@,
        |m: SShadowkeepDynamicMesh| mesh_outcome(m),
        mesh,
    );
    assert(views(model.meshes@)[mesh] == model.meshes@[mesh]@);
    lemma_converted_items(
        stored.meshes@[mesh].parts@,
        |p: SShadowkeepDynamicMeshPart| dynamic_part_outcome(p),
        0,
    );
}

/// In each of the stages that the packages know, a loaded mesh has the stored range of parts and
/// the stored layout.
pub proof fn law_models_keep_their_stages(
    model: DynamicModel,
    hash: u32,
    stored: SShadowkeepDynamicModel,
    variants: Seq<SShadowkeepDynamicMaterialVariant>,
    techniques: Seq<u32>,
    mesh: int,
    stage: int,
)
    requires
        model.is_form_of(hash, stored, variants, techniques),
        0 <= mesh < stored.meshes@.len(),
        0 <= stage < 23,
    ensures
        model.meshes@[mesh].part_range_per_render_stage@[stage]
            == stored.meshes@[mesh].part_range_per_render_stage@[stage],
        model.meshes@[mesh].part_range_per_render_stage@[stage + 1]
            == stored.meshes@[mesh].part_range_per_render_stage@[stage + 1],
        model.meshes@[mesh].input_layout_per_render_stage@[stage] as int
            == stored.meshes@[mesh].input_layout_per_render_stage@[stage] as int,
        model.meshes@[mesh].part_range_per_render_stage@[24]
            == model.meshes@[mesh].part_range_per_render_stage@[23],
        model.meshes@[mesh].input_layout_per_render_stage@[23] == 0,
{
    lemma_converted_items(
        stored.meshes@,
        |m: SShadowkeepDynamicMesh| mesh_outcome(m),
        mesh,
    );
    assert(views(model.meshes@)[mesh] == model.meshes@[mesh]@);
    assert(stored.meshes@[mesh].input_layout_per_render_stage@[stage] <= 0xff);
    assert(views(model.meshes@)[mesh].layouts[stage]
        == stored.meshes@[mesh].input_layout_per_render_stage@[stage] as u8);
}

/// A loaded mesh has the stored parts one for one. What later eras added to a part is zero.
pub proof fn law_models_keep_their_parts(
    model: DynamicModel,
    hash: u32,
    stored: SShadowkeepDynamicModel,
    variants: Seq<SShadowkeepDynamicMaterialVariant>,
    techniques: Seq<u32>,
    mesh: int,
    part: int,
)
    requires
        model.is_form_of(hash, stored, variants, techniques),
        0 <= mesh < stored.meshes@.len(),
        0 <= part < stored.meshes@[mesh].parts@.len(),
    ensures
        ({
            let loaded = model.meshes@[mesh].parts@[part];
            let from = stored.meshes@[mesh].parts@[part];
            &&& loaded.technique == from.technique
            &&& loaded.variant_shader_index == from.variant_shader_index
            &&& loaded.index_start == from.index_start
            &&& loaded.index_count == from.index_count
            &&& loaded.external_identifier == from.external_identifier
            &&& loaded.unk7 == from.unk7
            &&& loaded.unk10 == from.unk10
            &&& loaded.unk16 == from.unk16
            &&& loaded.unk20 == from.unk1c
            &&& loaded.flags == 0
            &&& loaded.gear_dye_change_color_index == 0
            &&& loaded.unk1e == 0
            &&& loaded.lod_run == 0
            &&& crate::geometry::legacy_primitive(from.primitive_type) == Some(
                loaded.primitive_type,
            )
            &&& crate::geometry::legacy_lod(from.lod_category) == Some(loaded.lod_category)
        }),
{
    law_models_keep_their_buffers(model, hash, stored, variants, techniques, mesh);
    lemma_converted_items(
        stored.meshes@,
        |m: SShadowkeepDynamicMesh| mesh_outcome(m),
        mesh,
    );
    assert(views(model.meshes@)[mesh] == model.meshes@[mesh]@);
    lemma_converted_items(
        stored.meshes@[mesh].parts@,
        |p: SShadowkeepDynamicMeshPart| dynamic_part_outcome(p),
        part,
    );
}

/// The identifier of every part lies below the count of identifiers.
pub proof fn law_identifiers_lie_below_their_count(
    model: DynamicModel,
    hash: u32,
    meshes: Seq<SDynamicMesh>,
    variants: Seq<SShadowkeepDynamicMaterialVariant>,
    techniques: Seq<u32>,
    mesh: int,
    part: int,
)
    requires
        model.is_made_of(hash, meshes, variants, techniques),
        0 <= mesh < meshes.len(),
        0 <= part < meshes[mesh].parts@.len(),
    ensures
        meshes[mesh].parts@[part].external_identifier < model.identifier_count,
{
    lemma_greatest_of_meshes(views(meshes), mesh);
    assert(views(meshes)[mesh] == meshes[mesh]@);
    lemma_greatest_identifier(meshes[mesh].parts@, part);
}

/// The count of identifiers is the least that has every identifier below it: the greatest
/// identifier is that of a part, unless it is zero.
pub proof fn law_the_greatest_identifier_is_used(
    model: DynamicModel,
    hash: u32,
    meshes: Seq<SDynamicMesh>,
    variants: Seq<SShadowkeepDynamicMaterialVariant>,
    techniques: Seq<u32>,
)
    requires
        model.is_made_of(hash, meshes, variants, techniques),
        model.identifier_count > 1,
    ensures
        exists|mesh: int, part: int|
            0 <= mesh < meshes.len() && 0 <= part < meshes[mesh].parts@.len() && (
            #[trigger] meshes[mesh].parts@[part]).external_identifier + 1
                == model.identifier_count,
{
    let mesh = lemma_greatest_mesh_is_used(views(meshes));
    assert(views(meshes)[mesh] == meshes[mesh]@);
    let part = lemma_greatest_part_is_used(meshes[mesh].parts@);
    assert(meshes[mesh].parts@[part].external_identifier + 1 == model.identifier_count);
}

proof fn lemma_greatest_part_is_used(parts: Seq<SDynamicMeshPart>) -> (part: int)
    requires
        greatest_identifier(parts) > 0,
    ensures
        0 <= part < parts.len(),
        parts[part].external_identifier == greatest_identifier(parts),
    decreases parts.len(),
{
    if greatest_identifier(parts.drop_last()) < parts.last().external_identifier {
        parts.len() - 1
    } else {
        lemma_greatest_part_is_used(parts.drop_last())
    }
}

proof fn lemma_greatest_mesh_is_used(meshes: Seq<DynamicMeshView>) -> (mesh: int)
    requires
        greatest_of_meshes(meshes) > 0,
    ensures
        0 <= mesh < meshes.len(),
        greatest_identifier(meshes[mesh].parts) == greatest_of_meshes(meshes),
    decreases meshes.len(),
{
    if greatest_of_meshes(meshes.drop_last()) < greatest_identifier(meshes.last().parts) {
        meshes.len() - 1
    } else {
        lemma_greatest_mesh_is_used(meshes.drop_last())
    }
}

proof fn lemma_greatest_identifier(parts: Seq<SDynamicMeshPart>, part: int)
    requires
        0 <= part < parts.len(),
    ensures
        parts[part].external_identifier <= greatest_identifier(parts),
    decreases parts.len(),
{
    if part < parts.len() - 1 {
        lemma_greatest_identifier(parts.drop_last(), part);
    }
}

proof fn lemma_greatest_of_meshes(meshes: Seq<DynamicMeshView>, mesh: int)
    requires
        0 <= mesh < meshes.len(),
    ensures
        greatest_identifier(meshes[mesh].parts) <= greatest_of_meshes(meshes),
    decreases meshes.len(),
{
    if mesh < meshes.len() - 1 {
        lemma_greatest_of_meshes(meshes.drop_last(), mesh);
    }
}

/// Every draw of a model is that of one of its parts that is selected and of the highest detail,
/// in the range of the stage, with the part's own technique, range and topology, the layout of the
/// stage, and the technique of the chosen permutation.
pub proof fn law_models_draw_their_parts(
    model: DynamicModel,
    detail: Seq<bool>,
    stage: RenderStage,
    mask: u128,
    mesh: int,
    start: int,
    end: int,
    at: int,
)
    requires
        0 <= mesh < model.meshes@.len() <= usize::MAX,
        0 <= start <= end <= model.meshes@[mesh].parts@.len() <= usize::MAX,
        0 <= at < model.part_draws(detail, stage, mask, mesh, start, end).len(),
    ensures
        ({
            let draw = model.part_draws(detail, stage, mask, mesh, start, end)[at];
            let it = model.meshes@[mesh];
            let part = it.parts@[draw.part as int];
            &&& draw.mesh == mesh
            &&& start <= draw.part < end
            &&& detail[draw.part as int]
            &&& part.external_identifier < 128
            &&& (mask >> part.external_identifier) & 1 == 1
            &&& draw.technique == part.technique
            &&& draw.index_start == part.index_start
            &&& draw.index_count == part.index_count
            &&& draw.primitive_type == part.primitive_type
            &&& draw.input_layout == it.input_layout_per_render_stage@[stage.number() as int]
            &&& part.variant_shader_index == 0xffff ==> draw.variant_technique is None
            &&& part.variant_shader_index < model.technique_map@.len()
                && part.variant_shader_index != 0xffff ==> {
                let variant = model.technique_map@[part.variant_shader_index as int];
                draw.variant_technique == Some(
                    model.techniques@[variant.technique_start + model.permutation as int
                        % variant.technique_count as int],
                )
            }
        }),
    decreases end - start,
{
    let before = model.part_draws(detail, stage, mask, mesh, start, end - 1);
    if at < before.len() {
        law_models_draw_their_parts(model, detail, stage, mask, mesh, start, end - 1, at);
    }
}

/// A model has as many permutations as the first variant that every part takes has techniques, or
/// one; and the last of them is chosen at first.
pub proof fn law_permutations_are_those_of_the_common_variant(
    model: DynamicModel,
    hash: u32,
    meshes: Seq<SDynamicMesh>,
    variants: Seq<SShadowkeepDynamicMaterialVariant>,
    techniques: Seq<u32>,
    at: int,
)
    requires
        model.is_made_of(hash, meshes, variants, techniques),
        0 <= at < variants.len(),
        variants[at].unk8 == 0,
        variants[at].technique_count > 0,
        forall|i: int| 0 <= i < at ==> (#[trigger] variants[i]).unk8 != 0,
    ensures
        model.permutation_count == variants[at].technique_count,
        model.permutation + 1 == model.permutation_count,
{
    lemma_permutations(variants, at);
}

proof fn lemma_permutations(variants: Seq<SShadowkeepDynamicMaterialVariant>, at: int)
    requires
        0 <= at < variants.len(),
        variants[at].unk8 == 0,
        variants[at].technique_count > 0,
        forall|i: int| 0 <= i < at ==> (#[trigger] variants[i]).unk8 != 0,
    ensures
        permutations(variants) == variants[at].technique_count,
    decreases variants.len(),
{
    if at > 0 {
        assert(variants[0].unk8 != 0);
        assert forall|i: int| 0 <= i < at - 1 implies (
        #[trigger] variants.drop_first()[i]).unk8 != 0 by {
            assert(variants[i + 1].unk8 != 0);
        }
        lemma_permutations(variants.drop_first(), at - 1);
    }
}

} // verus!
