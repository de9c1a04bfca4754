//! What techniques depend on: the channels, input blocks, samplers and textures
//! that their programs read and bind.

use crate::channels::Vec4Bits;
use crate::order::{as_words, lemma_is_listing, lists, listing_of, to_words};
use crate::reads::{
    distinct_input_reads, input_reads, object_channel_listing, object_channels_of,
    operand_listing, operands_of, read_views, reads_sorted, sorted_input_reads, ExternReadView,
    GlobalLightingExternRead, Instruction, Opcode,
};
use crate::single::{is_nan, nan};
use crate::tag::{tag_label, tag_text};
use crate::technique::{SShadowkeepMaterialTextureAssignment, SShadowkeepTechnique};
use crate::text::{hex_fixed_text, hex_word, same_items, same_text, views, SameView};
use std::collections::BTreeMap;
use vstd::prelude::*;

verus! {

/// A texture slot of a stage and whether its texture is loaded.
#[derive(Clone, Copy, Debug, PartialEq, Eq, Structural)]
pub struct TextureState {
    pub slot: u32,
    pub loaded: bool,
}

/// A bound stage of a technique.
#[derive(Debug)]
pub struct StageProgram {
    pub stage: String,
    pub shader: u32,
    pub disassembly: String,
    pub program: Vec<Instruction>,
    pub constant_buffer_slot: u32,
    pub constant_buffer_len: usize,
    /// Whether each sampler slot holds a sampler.
    pub samplers: Vec<bool>,
    pub textures: Vec<TextureState>,
    pub evaluation: String,
}

/// A channel that a program reads by position.
#[derive(Debug)]
pub struct SkyTechniqueGlobalChannelRead {
    pub index: u8,
    pub resolved_hash: Option<String>,
    pub value: Option<Vec4Bits>,
}

/// An object channel that a program reads.
#[derive(Debug)]
pub struct SkyTechniqueObjectChannelRead {
    pub hash: String,
    pub supplied_by_model: bool,
}

/// A texture that a material assigns.
#[derive(Debug)]
pub struct SkyTechniqueTextureRead {
    pub slot: u32,
    pub texture: String,
    pub loaded: bool,
}

/// What one stage of a technique depends on.
#[derive(Debug)]
pub struct SkyTechniqueDependencyStage {
    pub stage: String,
    pub shader: String,
    pub translated_expression_disassembly: String,
    pub global_channel_reads: Vec<SkyTechniqueGlobalChannelRead>,
    pub object_channel_reads: Vec<SkyTechniqueObjectChannelRead>,
    pub extern_reads: Vec<GlobalLightingExternRead>,
    pub constant_buffer_slot: u32,
    pub constant_buffer_len: usize,
    pub sampler_slots: Vec<usize>,
    pub texture_slots: Vec<u32>,
    pub expression_evaluation_result: String,
    pub textures: Vec<SkyTechniqueTextureRead>,
}

/// What a technique depends on.
#[derive(Debug)]
pub struct SkyTechniqueDependency {
    pub collection: String,
    pub model: String,
    pub technique: String,
    pub stages: Vec<SkyTechniqueDependencyStage>,
}

/// The pattern that stands for every one that is no number.
pub const QUIET_NAN_BITS: u32 = 0x7fc0_0000;

pub struct ChannelReadView {
    pub index: u8,
    pub resolved_hash: Option<Seq<char>>,
    pub value: Option<Vec4Bits>,
}

pub struct ObjectReadView {
    pub hash: Seq<char>,
    pub supplied_by_model: bool,
}

pub struct TextureReadView {
    pub slot: u32,
    pub texture: Seq<char>,
    pub loaded: bool,
}

/// What a stage record says.
#[verifier::ext_equal]
pub struct StageView {
    pub stage: Seq<char>,
    pub shader: Seq<char>,
    pub disassembly: Seq<char>,
    pub global_channel_reads: Seq<ChannelReadView>,
    pub object_channel_reads: Seq<ObjectReadView>,
    pub extern_reads: Seq<ExternReadView>,
    pub constant_buffer_slot: u32,
    pub constant_buffer_len: usize,
    pub sampler_slots: Seq<usize>,
    pub texture_slots: Seq<u32>,
    pub evaluation: Seq<char>,
    pub textures: Seq<TextureReadView>,
}

/// What a technique record says.
#[verifier::ext_equal]
pub struct DependencyView {
    pub collection: Seq<char>,
    pub model: Seq<char>,
    pub technique: Seq<char>,
    pub stages: Seq<StageView>,
}

pub open spec fn text_of(text: Option<String>) -> Option<Seq<char>> {
    match text {
        Some(string) => Some(string@),
        None => None,
    }
}

/// A lane as it is shown: all patterns that are no number look alike.
pub open spec fn shown_lane(bits: u32) -> u32 {
    if is_nan(bits) {
        QUIET_NAN_BITS
    } else {
        bits
    }
}

/// A channel value as it is shown.
pub open spec fn shown_value(value: Option<Vec4Bits>) -> Option<Vec4Bits> {
    match value {
        Some(vector) => Some(
            Vec4Bits {
                x: shown_lane(vector.x),
                y: shown_lane(vector.y),
                z: shown_lane(vector.z),
                w: shown_lane(vector.w),
            },
        ),
        None => None,
    }
}

impl View for SkyTechniqueGlobalChannelRead {
    type V = ChannelReadView;

    open spec fn view(&self) -> ChannelReadView {
        ChannelReadView {
            index: self.index,
            resolved_hash: text_of(self.resolved_hash),
            value: shown_value(self.value),
        }
    }
}

impl View for SkyTechniqueObjectChannelRead {
    type V = ObjectReadView;

    open spec fn view(&self) -> ObjectReadView {
        ObjectReadView { hash: self.hash@, supplied_by_model: self.supplied_by_model }
    }
}

impl View for SkyTechniqueTextureRead {
    type V = TextureReadView;

    open spec fn view(&self) -> TextureReadView {
        TextureReadView { slot: self.slot, texture: self.texture@, loaded: self.loaded }
    }
}

impl View for SkyTechniqueDependencyStage {
    type V = StageView;

    open spec fn view(&self) -> StageView {
        StageView {
            stage: self.stage@,
            shader: self.shader@,
            disassembly: self.translated_expression_disassembly@,
            global_channel_reads: views(self.global_channel_reads@),
            object_channel_reads: views(self.object_channel_reads@),
            extern_reads: read_views(self.extern_reads@),
            constant_buffer_slot: self.constant_buffer_slot,
            constant_buffer_len: self.constant_buffer_len,
            sampler_slots: self.sampler_slots@,
            texture_slots: self.texture_slots@,
            evaluation: self.expression_evaluation_result@,
            textures: views(self.textures@),
        }
    }
}

impl View for SkyTechniqueDependency {
    type V = DependencyView;

    open spec fn view(&self) -> DependencyView {
        DependencyView {
            collection: self.collection@,
            model: self.model@,
            technique: self.technique@,
            stages: views(self.stages@),
        }
    }
}

fn same_optional_text(a: &Option<String>, b: &Option<String>) -> (result: bool)
    ensures
        result == (text_of(*a) == text_of(*b)),
{
    match (a, b) {
        (Some(x), Some(y)) => same_text(x.as_str(), y.as_str()),
        (None, None) => true,
        _ => false,
    }
}

fn same_lane(a: u32, b: u32) -> (result: bool)
    ensures
        result == (shown_lane(a) == shown_lane(b)),
{
    a == b || (nan(a) && nan(b))
}

fn same_optional_value(a: &Option<Vec4Bits>, b: &Option<Vec4Bits>) -> (result: bool)
    ensures
        result == (shown_value(*a) == shown_value(*b)),
{
    match (a, b) {
        (Some(x), Some(y)) => same_lane(x.x, y.x) && same_lane(x.y, y.y) && same_lane(x.z, y.z)
            && same_lane(x.w, y.w),
        (None, None) => true,
        _ => false,
    }
}

impl SameView for SkyTechniqueGlobalChannelRead {
    fn same_view(&self, other: &Self) -> (result: bool) {
        self.index == other.index && same_optional_text(&self.resolved_hash, &other.resolved_hash)
            && same_optional_value(&self.value, &other.value)
    }
}

impl SameView for SkyTechniqueObjectChannelRead {
    fn same_view(&self, other: &Self) -> (result: bool) {
        same_text(self.hash.as_str(), other.hash.as_str()) && self.supplied_by_model
            == other.supplied_by_model
    }
}

impl SameView for SkyTechniqueTextureRead {
    fn same_view(&self, other: &Self) -> (result: bool) {
        self.slot == other.slot && same_text(self.texture.as_str(), other.texture.as_str())
            && self.loaded == other.loaded
    }
}

impl SameView for SkyTechniqueDependencyStage {
    fn same_view(&self, other: &Self) -> (result: bool) {
        proof {
            assert(views(self.sampler_slots@) =~= self.sampler_slots@);
            assert(views(other.sampler_slots@) =~= other.sampler_slots@);
            assert(views(self.texture_slots@) =~= self.texture_slots@);
            assert(views(other.texture_slots@) =~= other.texture_slots@);
        }
        same_text(self.stage.as_str(), other.stage.as_str()) && same_text(
            self.shader.as_str(),
            other.shader.as_str(),
        ) && same_text(
            self.translated_expression_disassembly.as_str(),
            other.translated_expression_disassembly.as_str(),
        ) && same_items(&self.global_channel_reads, &other.global_channel_reads) && same_items(
            &self.object_channel_reads,
            &other.object_channel_reads,
        ) && same_items(&self.extern_reads, &other.extern_reads) && self.constant_buffer_slot
            == other.constant_buffer_slot && self.constant_buffer_len == other.constant_buffer_len
            && same_items(&self.sampler_slots, &other.sampler_slots) && same_items(
            &self.texture_slots,
            &other.texture_slots,
        ) && same_text(
            self.expression_evaluation_result.as_str(),
            other.expression_evaluation_result.as_str(),
        ) && same_items(&self.textures, &other.textures)
    }
}

impl SameView for SkyTechniqueDependency {
    fn same_view(&self, other: &Self) -> (result: bool) {
        same_text(self.collection.as_str(), other.collection.as_str()) && same_text(
            self.model.as_str(),
            other.model.as_str(),
        ) && same_text(self.technique.as_str(), other.technique.as_str()) && same_items(
            &self.stages,
            &other.stages,
        )
    }
}


/// A word as a hexadecimal literal.
pub open spec fn word_label(word: u32) -> Seq<char> {
    "0x"@ + hex_fixed_text(word as nat, 8, true)
}

fn word_text(word: u32) -> (text: String)
    ensures
        text@ == word_label(word),
{
    let mut text = "0x".to_owned();
    text.append(hex_word(word).as_str());
    text
}

/// The read of the channel at `index`: its hash and its value where there is
/// one.
pub open spec fn channel_read(index: usize, hashes: Seq<u32>, values: Seq<Vec4Bits>) -> ChannelReadView {
    ChannelReadView {
        index: index as u8,
        resolved_hash: if index < hashes.len() {
            Some(word_label(hashes[index as int]))
        } else {
            None
        },
        value: if index < values.len() {
            shown_value(Some(values[index as int]))
        } else {
            None
        },
    }
}

/// The read of an object channel: whether the model supplies it.
pub open spec fn object_read(hash: usize, supplied: Seq<u32>) -> ObjectReadView {
    ObjectReadView {
        hash: word_label(hash as u32),
        supplied_by_model: supplied.contains(hash as u32),
    }
}

/// Whether the first texture at a slot is loaded.
pub open spec fn slot_loaded(textures: Seq<TextureState>, slot: u32, from: int) -> bool
    decreases textures.len() - from,
{
    if from >= textures.len() {
        false
    } else if textures[from].slot == slot {
        textures[from].loaded
    } else {
        slot_loaded(textures, slot, from + 1)
    }
}

/// The texture that a material assigns to a slot.
pub open spec fn texture_read(
    assignment: SShadowkeepMaterialTextureAssignment,
    textures: Seq<TextureState>,
) -> TextureReadView {
    TextureReadView {
        slot: assignment.slot,
        texture: tag_label(assignment.texture),
        loaded: slot_loaded(textures, assignment.slot, 0),
    }
}

/// The slots that hold a sampler.
pub open spec fn present_slots(samplers: Seq<bool>) -> Seq<usize>
    decreases samplers.len(),
{
    if samplers.len() == 0 {
        seq![]
    } else if samplers.last() {
        present_slots(samplers.drop_last()).push((samplers.len() - 1) as usize)
    } else {
        present_slots(samplers.drop_last())
    }
}

/// The slots that a texture is assigned to.
pub open spec fn assigned_slots(textures: Seq<TextureState>) -> Seq<usize> {
    textures.map_values(|texture: TextureState| texture.slot as usize)
}

proof fn lemma_operands_below(program: Seq<Instruction>, opcode: Opcode, modulus: usize)
    requires
        modulus > 0,
    ensures
        operands_bounded(operands_of(program, opcode, modulus)),
    decreases program.len(),
{
    if program.len() > 0 {
        lemma_operands_below(program.drop_last(), opcode, modulus);
        let last = program.last();
        if last.operands@.len() > 0 {
            let operand = last.operands@[0] as int;
            let m = modulus as int;
            assert(0 <= operand % m <= operand) by (nonlinear_arith)
                requires
                    operand >= 0,
                    m > 0,
            ;
        }
    }
}

spec fn operands_bounded(operands: Seq<usize>) -> bool {
    forall|i: int| 0 <= i < operands.len() ==> (#[trigger] operands[i]) < 256
}

proof fn lemma_listing_below(values: Seq<usize>, source: Seq<usize>, bound: int)
    requires
        lists(values, source),
        forall|i: int| 0 <= i < source.len() ==> (#[trigger] source[i]) < bound,
    ensures
        forall|i: int| 0 <= i < values.len() ==> (#[trigger] values[i]) < bound,
{
    assert forall|i: int| 0 <= i < values.len() implies (#[trigger] values[i]) < bound by {
        assert(values.contains(values[i]));
        assert(source.contains(values[i]));
    }
}

fn global_channel_reads(program: &[Instruction], hashes: &[u32], values: &[Vec4Bits]) -> (reads: Vec<
    SkyTechniqueGlobalChannelRead,
>)
    ensures
        views(reads@) == listing_of(
            operands_of(program@, Opcode::PushGlobalChannelVector, 256),
        ).map_values(|index: usize| channel_read(index, hashes@, values@)),
{
    let none: Vec<usize> = Vec::new();
    let listing = operand_listing(program, Opcode::PushGlobalChannelVector, 256, none.as_slice());
    let ghost source = operands_of(program@, Opcode::PushGlobalChannelVector, 256);
    proof {
        assert(source + none@ =~= source);
        lemma_is_listing(listing@, source);
        lemma_operands_below(program@, Opcode::PushGlobalChannelVector, 256);
        lemma_listing_below(listing@, source, 256);
    }
    let ghost read = |index: usize| channel_read(index, hashes@, values@);
    let mut reads: Vec<SkyTechniqueGlobalChannelRead> = Vec::new();
    let mut i: usize = 0;
    while i < listing.len()
        invariant
            i <= listing@.len(),
            read == (|index: usize| channel_read(index, hashes@, values@)),
            forall|i: int| 0 <= i < listing@.len() ==> (#[trigger] listing@[i]) < 256,
            views(reads@) == listing@.take(i as int).map_values(read),
        decreases listing@.len() - i,
    {
        let index: usize = listing[i];
        let ghost before = reads@;
        reads.push(
            SkyTechniqueGlobalChannelRead {
                index: index as u8,
                resolved_hash: if index < hashes.len() {
                    Some(word_text(hashes[index]))
                } else {
                    None
                },
                value: if index < values.len() {
                    Some(values[index])
                } else {
                    None
                },
            },
        );
        i = i + 1;
        assert(views(reads@) =~= views(before).push(read(index)));
        assert(listing@.take(i as int).map_values(read) =~= listing@.take(i - 1).map_values(
            read,
        ).push(read(index)));
    }
    assert(listing@.take(listing@.len() as int) =~= listing@);
    reads
}

fn contains_word(words: &[u32], word: u32) -> (found: bool)
    ensures
        found == words@.contains(word),
{
    let mut i: usize = 0;
    while i < words.len()
        invariant
            i <= words@.len(),
            forall|j: int| 0 <= j < i ==> words@[j] != word,
        decreases words@.len() - i,
    {
        if words[i] == word {
            return true;
        }
        i = i + 1;
    }
    false
}

fn object_channel_reads(program: &[Instruction], supplied: &[u32]) -> (reads: Vec<
    SkyTechniqueObjectChannelRead,
>)
    ensures
        views(reads@) == listing_of(object_channels_of(program@)).map_values(
            |hash: usize| object_read(hash, supplied@),
        ),
{
    let listing = object_channel_listing(program);
    proof {
        lemma_is_listing(listing@, object_channels_of(program@));
    }
    let ghost read = |hash: usize| object_read(hash, supplied@);
    let mut reads: Vec<SkyTechniqueObjectChannelRead> = Vec::new();
    let mut i: usize = 0;
    while i < listing.len()
        invariant
            i <= listing@.len(),
            read == (|hash: usize| object_read(hash, supplied@)),
            forall|i: int| 0 <= i < listing@.len() ==> listing@[i] <= u32::MAX,
            views(reads@) == listing@.take(i as int).map_values(read),
        decreases listing@.len() - i,
    {
        let hash: u32 = listing[i] as u32;
        let ghost before = reads@;
        reads.push(
            SkyTechniqueObjectChannelRead {
                hash: word_text(hash),
                supplied_by_model: contains_word(supplied, hash),
            },
        );
        i = i + 1;
        assert(views(reads@) =~= views(before).push(read(hash as usize)));
        assert(listing@.take(i as int).map_values(read) =~= listing@.take(i - 1).map_values(
            read,
        ).push(read(hash as usize)));
    }
    assert(listing@.take(listing@.len() as int) =~= listing@);
    reads
}

fn is_slot_loaded(textures: &[TextureState], slot: u32) -> (loaded: bool)
    ensures
        loaded == slot_loaded(textures@, slot, 0),
{
    let mut i: usize = 0;
    while i < textures.len()
        invariant
            i <= textures@.len(),
            slot_loaded(textures@, slot, 0) == slot_loaded(textures@, slot, i as int),
        decreases textures@.len() - i,
    {
        if textures[i].slot == slot {
            return textures[i].loaded;
        }
        i = i + 1;
    }
    false
}

fn texture_reads(
    assignments: &[SShadowkeepMaterialTextureAssignment],
    textures: &[TextureState],
) -> (reads: Vec<SkyTechniqueTextureRead>)
    ensures
        views(reads@) == assignments@.map_values(
            |assignment: SShadowkeepMaterialTextureAssignment| texture_read(assignment, textures@),
        ),
{
    let ghost read = |assignment: SShadowkeepMaterialTextureAssignment|
        texture_read(assignment, textures@);
    let mut reads: Vec<SkyTechniqueTextureRead> = Vec::new();
    let mut i: usize = 0;
    while i < assignments.len()
        invariant
            i <= assignments@.len(),
            read == (|assignment: SShadowkeepMaterialTextureAssignment|
                texture_read(assignment, textures@)),
            views(reads@) == assignments@.take(i as int).map_values(read),
        decreases assignments@.len() - i,
    {
        let assignment = assignments[i];
        let ghost before = reads@;
        reads.push(
            SkyTechniqueTextureRead {
                slot: assignment.slot,
                texture: tag_text(assignment.texture),
                loaded: is_slot_loaded(textures, assignment.slot),
            },
        );
        i = i + 1;
        assert(views(reads@) =~= views(before).push(read(assignment)));
        assert(assignments@.take(i as int).map_values(read) =~= assignments@.take(
            i - 1,
        ).map_values(read).push(read(assignment)));
    }
    assert(assignments@.take(assignments@.len() as int) =~= assignments@);
    reads
}

fn slots_with_sampler(samplers: &[bool]) -> (slots: Vec<usize>)
    ensures
        slots@ == present_slots(samplers@),
{
    let mut slots: Vec<usize> = Vec::new();
    let mut i: usize = 0;
    while i < samplers.len()
        invariant
            i <= samplers@.len(),
            slots@ == present_slots(samplers@.take(i as int)),
        decreases samplers@.len() - i,
    {
        assert(samplers@.take(i + 1).drop_last() =~= samplers@.take(i as int));
        if samplers[i] {
            slots.push(i);
        }
        i = i + 1;
    }
    assert(samplers@.take(samplers@.len() as int) =~= samplers@);
    slots
}

fn slots_with_texture(textures: &[TextureState]) -> (slots: Vec<usize>)
    ensures
        slots@ == assigned_slots(textures@),
{
    let mut slots: Vec<usize> = Vec::new();
    let mut i: usize = 0;
    while i < textures.len()
        invariant
            i <= textures@.len(),
            slots@ == assigned_slots(textures@.take(i as int)),
        decreases textures@.len() - i,
    {
        slots.push(textures[i].slot as usize);
        i = i + 1;
        assert(slots@ =~= assigned_slots(textures@.take(i as int)));
    }
    assert(textures@.take(textures@.len() as int) =~= textures@);
    slots
}

/// `reads` are the input-block reads of a program, each once, in order.
pub open spec fn lists_reads(reads: Seq<ExternReadView>, program: Seq<Instruction>) -> bool {
    &&& reads_sorted(reads)
    &&& reads.no_duplicates()
    &&& forall|read: ExternReadView| reads.contains(read) <==> input_reads(program).contains(read)
}

/// What a stage of a sky technique depends on. `hashes` and `values` are the
/// positional channels, `supplied` the channels that the model brings.
pub fn sky_technique_stage(
    stage: &StageProgram,
    assignments: &[SShadowkeepMaterialTextureAssignment],
    hashes: &[u32],
    values: &[Vec4Bits],
    supplied: &[u32],
) -> (record: SkyTechniqueDependencyStage)
    ensures
        record@.stage == stage.stage@,
        record@.shader == tag_label(stage.shader),
        record@.disassembly == stage.disassembly@,
        record@.constant_buffer_slot == stage.constant_buffer_slot,
        record@.constant_buffer_len == stage.constant_buffer_len,
        record@.evaluation == stage.evaluation@,
        record@.global_channel_reads == listing_of(
            operands_of(stage.program@, Opcode::PushGlobalChannelVector, 256),
        ).map_values(|index: usize| channel_read(index, hashes@, values@)),
        record@.object_channel_reads == listing_of(object_channels_of(stage.program@)).map_values(
            |hash: usize| object_read(hash, supplied@),
        ),
        lists_reads(record@.extern_reads, stage.program@),
        record@.sampler_slots == listing_of(
            operands_of(stage.program@, Opcode::PopSamplerState, 32) + present_slots(
                stage.samplers@,
            ),
        ),
        record@.texture_slots == as_words(
            listing_of(
                operands_of(stage.program@, Opcode::PopTextureView, 32) + assigned_slots(
                    stage.textures@,
                ),
            ),
        ),
        record@.textures == assignments@.map_values(
            |assignment: SShadowkeepMaterialTextureAssignment|
                texture_read(assignment, stage.textures@),
        ),
{
    let program = stage.program.as_slice();
    let present = slots_with_sampler(stage.samplers.as_slice());
    let sampler_slots = operand_listing(program, Opcode::PopSamplerState, 32, present.as_slice());
    let assigned = slots_with_texture(stage.textures.as_slice());
    let texture_listing = operand_listing(program, Opcode::PopTextureView, 32, assigned.as_slice());
    proof {
        lemma_is_listing(
            sampler_slots@,
            operands_of(program@, Opcode::PopSamplerState, 32) + present@,
        );
        let source = operands_of(program@, Opcode::PopTextureView, 32) + assigned@;
        lemma_is_listing(texture_listing@, source);
        lemma_operands_below(program@, Opcode::PopTextureView, 32);
        lemma_listing_below(texture_listing@, source, u32::MAX + 1);
    }
    SkyTechniqueDependencyStage {
        stage: stage.stage.clone(),
        shader: tag_text(stage.shader),
        translated_expression_disassembly: stage.disassembly.clone(),
        global_channel_reads: global_channel_reads(program, hashes, values),
        object_channel_reads: object_channel_reads(program, supplied),
        extern_reads: distinct_input_reads(program),
        constant_buffer_slot: stage.constant_buffer_slot,
        constant_buffer_len: stage.constant_buffer_len,
        sampler_slots,
        texture_slots: to_words(&texture_listing),
        expression_evaluation_result: stage.evaluation.clone(),
        textures: texture_reads(assignments, stage.textures.as_slice()),
    }
}


/// Which shader of a technique is the given one: its place in binding order.
pub open spec fn shader_place(technique: SShadowkeepTechnique, shader: u32) -> Option<int> {
    if technique.shader_vertex.shader == shader {
        Some(0)
    } else if technique.shader_geometry.shader == shader {
        Some(1)
    } else if technique.shader_pixel.shader == shader {
        Some(2)
    } else if technique.shader_compute.shader == shader {
        Some(3)
    } else {
        None
    }
}

/// The texture assignments that a technique makes for a shader.
pub open spec fn assignments_for(technique: SShadowkeepTechnique, shader: u32) -> Seq<
    SShadowkeepMaterialTextureAssignment,
> {
    match shader_place(technique, shader) {
        Some(place) => if place == 0 {
            technique.shader_vertex.textures@
        } else if place == 1 {
            technique.shader_geometry.textures@
        } else if place == 2 {
            technique.shader_pixel.textures@
        } else {
            technique.shader_compute.textures@
        },
        None => seq![],
    }
}

/// What a sky technique depends on: its stages in order. The textures of a
/// stage are those that the stored technique, where it could be read, assigns to
/// the stage's shader.
pub fn sky_technique_dependency(
    collection: u32,
    model: u32,
    technique_tag: u32,
    technique: Option<&SShadowkeepTechnique>,
    programs: &[StageProgram],
    hashes: &[u32],
    values: &[Vec4Bits],
    supplied: &[u32],
) -> (record: SkyTechniqueDependency)
    ensures
        record@.collection == tag_label(collection),
        record@.model == tag_label(model),
        record@.technique == tag_label(technique_tag),
        record@.stages.len() == programs@.len(),
        forall|i: int|
            0 <= i < programs@.len() ==> stage_follows(
                #[trigger] programs@[i],
                technique,
                hashes@,
                values@,
                supplied@,
                record@.stages[i],
            ),
{
    let empty: Vec<SShadowkeepMaterialTextureAssignment> = Vec::new();
    let mut stages: Vec<SkyTechniqueDependencyStage> = Vec::new();
    let mut i: usize = 0;
    while i < programs.len()
        invariant
            i <= programs@.len(),
            stages@.len() == i,
            empty@.len() == 0,
            forall|j: int|
                0 <= j < i ==> stage_follows(
                    #[trigger] programs@[j],
                    technique,
                    hashes@,
                    values@,
                    supplied@,
                    stages@[j]@,
                ),
        decreases programs@.len() - i,
    {
        let shader: u32 = programs[i].shader;
        let assignments: &[SShadowkeepMaterialTextureAssignment] = match technique {
            Some(stored) => {
                if stored.shader_vertex.shader == shader {
                    stored.shader_vertex.textures.as_slice()
                } else if stored.shader_geometry.shader == shader {
                    stored.shader_geometry.textures.as_slice()
                } else if stored.shader_pixel.shader == shader {
                    stored.shader_pixel.textures.as_slice()
                } else if stored.shader_compute.shader == shader {
                    stored.shader_compute.textures.as_slice()
                } else {
                    empty.as_slice()
                }
            },
            None => empty.as_slice(),
        };
        proof {
            let expected = match technique {
                Some(stored) => assignments_for(*stored, shader),
                None => seq![],
            };
            assert(assignments@ =~= expected);
        }
        let stage = sky_technique_stage(&programs[i], assignments, hashes, values, supplied);
        stages.push(stage);
        i = i + 1;
    }
    let record = SkyTechniqueDependency {
        collection: tag_text(collection),
        model: tag_text(model),
        technique: tag_text(technique_tag),
        stages,
    };
    assert forall|j: int| 0 <= j < programs@.len() implies stage_follows(
        #[trigger] programs@[j],
        technique,
        hashes@,
        values@,
        supplied@,
        record@.stages[j],
    ) by {
        assert(record@.stages[j] == record.stages@[j]@);
    }
    record
}

/// `record` is what a stage depends on.
pub open spec fn stage_follows(
    stage: StageProgram,
    technique: Option<&SShadowkeepTechnique>,
    hashes: Seq<u32>,
    values: Seq<Vec4Bits>,
    supplied: Seq<u32>,
    record: StageView,
) -> bool {
    &&& record.stage == stage.stage@
    &&& record.shader == tag_label(stage.shader)
    &&& record.disassembly == stage.disassembly@
    &&& record.constant_buffer_slot == stage.constant_buffer_slot
    &&& record.constant_buffer_len == stage.constant_buffer_len
    &&& record.evaluation == stage.evaluation@
    &&& record.global_channel_reads == listing_of(
        operands_of(stage.program@, Opcode::PushGlobalChannelVector, 256),
    ).map_values(|index: usize| channel_read(index, hashes, values))
    &&& record.object_channel_reads == listing_of(object_channels_of(stage.program@)).map_values(
        |hash: usize| object_read(hash, supplied),
    )
    &&& lists_reads(record.extern_reads, stage.program@)
    &&& record.sampler_slots == listing_of(
        operands_of(stage.program@, Opcode::PopSamplerState, 32) + present_slots(stage.samplers@),
    )
    &&& record.texture_slots == as_words(
        listing_of(
            operands_of(stage.program@, Opcode::PopTextureView, 32) + assigned_slots(
                stage.textures@,
            ),
        ),
    )
    &&& record.textures == (match technique {
        Some(stored) => assignments_for(*stored, stage.shader),
        None => seq![],
    }).map_values(
        |assignment: SShadowkeepMaterialTextureAssignment| texture_read(assignment, stage.textures@),
    )
}

/// The records of one collection on one map, by model and technique.
pub type DependencyGroup = BTreeMap<u64, SkyTechniqueDependency>;

/// All records, by map and collection.
#[derive(Debug)]
pub struct DependencyStore {
    pub groups: BTreeMap<u64, DependencyGroup>,
}

/// Two tags as one key that orders as the pair does.
pub open spec fn pair_key(first: u32, second: u32) -> u64 {
    (first * 0x1_0000_0000 + second) as u64
}

/// Different pairs have different keys, and the keys are ordered as the pairs
/// are.
pub proof fn law_pair_keys_order_as_pairs(a: u32, b: u32, c: u32, d: u32)
    ensures
        pair_key(a, b) < pair_key(c, d) <==> a < c || (a == c && b < d),
        pair_key(a, b) == pair_key(c, d) <==> a == c && b == d,
{
}

fn key_of_pair(first: u32, second: u32) -> (key: u64)
    ensures
        key == pair_key(first, second),
{
    first as u64 * 0x1_0000_0000 + second as u64
}

impl DependencyStore {
    /// What the recorded dependency of a technique says.
    pub open spec fn on_record(self, group: u64, key: u64) -> Option<DependencyView> {
        if self.groups@.contains_key(group) && self.groups@[group]@.contains_key(key) {
            Some(self.groups@[group]@[key]@)
        } else {
            None
        }
    }

    pub fn new() -> (store: Self)
        ensures
            store.groups@ == Map::<u64, DependencyGroup>::empty(),
    {
        DependencyStore { groups: BTreeMap::new() }
    }

    /// The records of a collection on a map.
    pub fn group(&self, map: u32, collection: u32) -> (group: Option<&DependencyGroup>)
        ensures
            match group {
                Some(records) => self.groups@.contains_key(pair_key(map, collection)) && *records
                    == self.groups@[pair_key(map, collection)],
                None => !self.groups@.contains_key(pair_key(map, collection)),
            },
    {
        broadcast use vstd::std_specs::btree::group_btree_axioms;

        let key: u64 = key_of_pair(map, collection);
        self.groups.get(&key)
    }

    /// Records what a technique depends on, while diagnostics are on. Returns whether the group
    /// has to be written out: it does not where the same was on record.
    pub fn record_shadowkeep_sky_technique_dependency(
        &mut self,
        diagnostics: bool,
        map: u32,
        collection: u32,
        model: u32,
        technique: u32,
        dependency: SkyTechniqueDependency,
    ) -> (changed: bool)
        ensures
            !diagnostics ==> *final(self) == *old(self),
            diagnostics ==> final(self).on_record(
                pair_key(map, collection),
                pair_key(model, technique),
            ) == Some(dependency@),
            changed == (diagnostics && old(self).on_record(
                pair_key(map, collection),
                pair_key(model, technique),
            ) != Some(dependency@)),
            forall|group: u64, key: u64|
                !(group == pair_key(map, collection) && key == pair_key(model, technique))
                    ==> #[trigger] final(self).on_record(group, key) == old(self).on_record(
                    group,
                    key,
                ),
    {
        broadcast use vstd::std_specs::btree::group_btree_axioms;

        if !diagnostics {
            return false;
        }
        let group: u64 = key_of_pair(map, collection);
        let key: u64 = key_of_pair(model, technique);
        let mut records: DependencyGroup = match self.groups.remove(&group) {
            Some(found) => found,
            None => BTreeMap::new(),
        };
        let same: bool = match records.get(&key) {
            Some(found) => found.same_view(&dependency),
            None => false,
        };
        if !same {
            records.insert(key, dependency);
        }
        self.groups.insert(group, records);
        !same
    }
}

/// A channel value that a program reads.
#[derive(Clone, Copy, Debug, PartialEq, Eq, Structural)]
pub struct GlobalLightingChannelValue {
    pub index: u8,
    pub value: Vec4Bits,
}

/// What one stage of the global-lighting technique depends on.
#[derive(Debug)]
pub struct GlobalLightingDependencyStage {
    pub stage: String,
    pub shader: String,
    pub translated_expression_disassembly: String,
    pub push_global_channel_vector_values: Vec<GlobalLightingChannelValue>,
    pub push_global_channel_vector_indices: Vec<u8>,
    pub extern_reads: Vec<GlobalLightingExternRead>,
    pub constant_buffer_slot: u32,
    pub constant_buffer_len: usize,
    pub sampler_slots: Vec<usize>,
    pub texture_slots: Vec<u32>,
    pub expression_evaluation_result: String,
}

/// The numbers as bytes.
pub open spec fn as_bytes(values: Seq<usize>) -> Seq<u8> {
    values.map_values(|x: usize| x as u8)
}

/// The values of the channels that there are.
pub open spec fn channel_values(indices: Seq<usize>, globals: Seq<Vec4Bits>) -> Seq<
    GlobalLightingChannelValue,
>
    decreases indices.len(),
{
    if indices.len() == 0 {
        seq![]
    } else {
        let before = channel_values(indices.drop_last(), globals);
        let index = indices.last();
        if index < globals.len() {
            before.push(
                GlobalLightingChannelValue { index: index as u8, value: globals[index as int] },
            )
        } else {
            before
        }
    }
}

/// The channels that a program reads, each once, in ascending order.
pub open spec fn channels_read(program: Seq<Instruction>) -> Seq<usize> {
    listing_of(operands_of(program, Opcode::PushGlobalChannelVector, 256))
}

/// `record` is what a stage of the global-lighting technique depends on.
pub open spec fn lighting_stage_follows(
    stage: StageProgram,
    globals: Seq<Vec4Bits>,
    record: GlobalLightingDependencyStage,
) -> bool {
    &&& record.stage@ == stage.stage@
    &&& record.shader@ == tag_label(stage.shader)
    &&& record.translated_expression_disassembly@ == stage.disassembly@
    &&& record.push_global_channel_vector_indices@ == as_bytes(channels_read(stage.program@))
    &&& record.push_global_channel_vector_values@ == channel_values(
        channels_read(stage.program@),
        globals,
    )
    &&& reads_sorted(read_views(record.extern_reads@))
    &&& read_views(record.extern_reads@).to_multiset() == input_reads(
        stage.program@,
    ).to_multiset()
    &&& record.constant_buffer_slot == stage.constant_buffer_slot
    &&& record.constant_buffer_len == stage.constant_buffer_len
    &&& record.sampler_slots@ == listing_of(
        operands_of(stage.program@, Opcode::PopSamplerState, 32),
    )
    &&& record.texture_slots@ == as_words(
        listing_of(operands_of(stage.program@, Opcode::PopTextureView, 32)),
    )
    &&& record.expression_evaluation_result@ == stage.evaluation@
}

fn program_listing(program: &[Instruction], opcode: Opcode, modulus: usize) -> (listing: Vec<usize>)
    requires
        modulus > 0,
    ensures
        listing@ == listing_of(operands_of(program@, opcode, modulus)),
        forall|i: int| 0 <= i < listing@.len() ==> (#[trigger] listing@[i]) < 256,
{
    let none: Vec<usize> = Vec::new();
    let listing = operand_listing(program, opcode, modulus, none.as_slice());
    proof {
        let source = operands_of(program@, opcode, modulus);
        assert(source + none@ =~= source);
        lemma_is_listing(listing@, source);
        lemma_operands_below(program@, opcode, modulus);
        lemma_listing_below(listing@, source, 256);
    }
    listing
}

/// What one stage of the global-lighting technique depends on.
pub fn global_lighting_stage(stage: &StageProgram, globals: &[Vec4Bits]) -> (record:
    GlobalLightingDependencyStage)
    ensures
        lighting_stage_follows(*stage, globals@, record),
{
    let program = stage.program.as_slice();
    let channels = program_listing(program, Opcode::PushGlobalChannelVector, 256);
    let mut indices: Vec<u8> = Vec::new();
    let mut values: Vec<GlobalLightingChannelValue> = Vec::new();
    let mut i: usize = 0;
    while i < channels.len()
        invariant
            i <= channels@.len(),
            forall|i: int| 0 <= i < channels@.len() ==> (#[trigger] channels@[i]) < 256,
            indices@ == as_bytes(channels@.take(i as int)),
            values@ == channel_values(channels@.take(i as int), globals@),
        decreases channels@.len() - i,
    {
        let index: usize = channels[i];
        assert(channels@.take(i + 1).drop_last() =~= channels@.take(i as int));
        indices.push(index as u8);
        if index < globals.len() {
            values.push(GlobalLightingChannelValue { index: index as u8, value: globals[index] });
        }
        i = i + 1;
        assert(indices@ =~= as_bytes(channels@.take(i as int)));
    }
    assert(channels@.take(channels@.len() as int) =~= channels@);
    let texture_listing = program_listing(program, Opcode::PopTextureView, 32);
    GlobalLightingDependencyStage {
        stage: stage.stage.clone(),
        shader: tag_text(stage.shader),
        translated_expression_disassembly: stage.disassembly.clone(),
        push_global_channel_vector_values: values,
        push_global_channel_vector_indices: indices,
        extern_reads: sorted_input_reads(program),
        constant_buffer_slot: stage.constant_buffer_slot,
        constant_buffer_len: stage.constant_buffer_len,
        sampler_slots: program_listing(program, Opcode::PopSamplerState, 32),
        texture_slots: to_words(&texture_listing),
        expression_evaluation_result: stage.evaluation.clone(),
    }
}

/// What the global-lighting technique depends on.
#[derive(Debug)]
pub struct GlobalLightingDependencyManifest {
    pub schema: String,
    pub technique: String,
    pub draw_6_reached: bool,
    pub stages: Vec<GlobalLightingDependencyStage>,
}

/// The manifest of the global-lighting technique, the first time it is asked
/// for, and nothing from then on.
pub fn global_lighting_manifest(
    emitted: &mut bool,
    technique: u32,
    draw_6_reached: bool,
    programs: &[StageProgram],
    globals: &[Vec4Bits],
) -> (manifest: Option<GlobalLightingDependencyManifest>)
    ensures
        *final(emitted),
        match manifest {
            None => *old(emitted),
            Some(found) => {
                &&& !*old(emitted)
                &&& found.schema@ == "alkahest-shadowkeep-global-lighting-dependencies/v1"@
                &&& found.technique@ == tag_label(technique)
                &&& found.draw_6_reached == draw_6_reached
                &&& found.stages@.len() == programs@.len()
                &&& forall|i: int|
                    0 <= i < programs@.len() ==> lighting_stage_follows(
                        #[trigger] programs@[i],
                        globals@,
                        found.stages@[i],
                    )
            },
        },
{
    if *emitted {
        return None;
    }
    *emitted = true;
    let mut stages: Vec<GlobalLightingDependencyStage> = Vec::new();
    let mut i: usize = 0;
    while i < programs.len()
        invariant
            i <= programs@.len(),
            stages@.len() == i,
            forall|j: int|
                0 <= j < i ==> lighting_stage_follows(
                    #[trigger] programs@[j],
                    globals@,
                    stages@[j],
                ),
        decreases programs@.len() - i,
    {
        stages.push(global_lighting_stage(&programs[i], globals));
        i = i + 1;
    }
    Some(
        GlobalLightingDependencyManifest {
            schema: "alkahest-shadowkeep-global-lighting-dependencies/v1".to_owned(),
            technique: tag_text(technique),
            draw_6_reached,
            stages,
        },
    )
}

/// The status line of a stage.
pub open spec fn stage_status_text(stage: StageProgram) -> Seq<char> {
    "stage="@ + stage.stage@ + " shader="@ + tag_label(stage.shader) + " expression="@
        + stage.evaluation@
}

/// The status lines of the stages of the global-lighting technique, in order.
pub fn shadowkeep_global_lighting_stage_status(programs: &[StageProgram]) -> (lines: Vec<String>)
    ensures
        lines@.len() == programs@.len(),
        forall|i: int|
            0 <= i < programs@.len() ==> (#[trigger] lines@[i])@ == stage_status_text(programs@[i]),
{
    let mut lines: Vec<String> = Vec::new();
    let mut i: usize = 0;
    while i < programs.len()
        invariant
            i <= programs@.len(),
            lines@.len() == i,
            forall|j: int|
                0 <= j < i ==> (#[trigger] lines@[j])@ == stage_status_text(programs@[j]),
        decreases programs@.len() - i,
    {
        let mut line = "stage=".to_owned();
        line.append(programs[i].stage.as_str());
        line.append(" shader=");
        line.append(tag_text(programs[i].shader).as_str());
        line.append(" expression=");
        line.append(programs[i].evaluation.as_str());
        lines.push(line);
        i = i + 1;
    }
    lines
}

/// A recorded read of a channel shows the hash and the value that stand at the channel's number.
pub proof fn law_channel_reads_show_their_channel(
    index: usize,
    hashes: Seq<u32>,
    values: Seq<Vec4Bits>,
)
    requires
        index < 256,
    ensures
        channel_read(index, hashes, values).index == index,
        index < hashes.len() ==> channel_read(index, hashes, values).resolved_hash == Some(
            word_label(hashes[index as int]),
        ),
        index >= hashes.len() ==> channel_read(index, hashes, values).resolved_hash is None,
        index >= values.len() ==> channel_read(index, hashes, values).value is None,
        index < values.len() && !is_nan(values[index as int].x) && !is_nan(values[index as int].y)
            && !is_nan(values[index as int].z) && !is_nan(values[index as int].w) ==> channel_read(
            index,
            hashes,
            values,
        ).value == Some(values[index as int]),
{
}

/// A shader's textures are those assigned to it where the technique names it, looked for among the
/// vertex, the geometry, the pixel and the compute shader in turn.
pub proof fn law_shaders_keep_their_textures(technique: SShadowkeepTechnique, shader: u32)
    ensures
        technique.shader_vertex.shader == shader ==> assignments_for(technique, shader)
            == technique.shader_vertex.textures@,
        technique.shader_vertex.shader != shader && technique.shader_geometry.shader == shader
            ==> assignments_for(technique, shader) == technique.shader_geometry.textures@,
        technique.shader_vertex.shader != shader && technique.shader_geometry.shader != shader
            && technique.shader_pixel.shader == shader ==> assignments_for(technique, shader)
            == technique.shader_pixel.textures@,
        technique.shader_vertex.shader != shader && technique.shader_geometry.shader != shader
            && technique.shader_pixel.shader != shader && technique.shader_compute.shader == shader
            ==> assignments_for(technique, shader) == technique.shader_compute.textures@,
        technique.shader_vertex.shader != shader && technique.shader_geometry.shader != shader
            && technique.shader_pixel.shader != shader && technique.shader_compute.shader != shader
            ==> assignments_for(technique, shader).len() == 0,
{
}

/// A recorded texture shows its slot and its tag, and counts as loaded as the first texture of the
/// slot is.
pub proof fn law_texture_reads_show_their_slot(
    assignment: SShadowkeepMaterialTextureAssignment,
    textures: Seq<TextureState>,
    at: int,
)
    requires
        0 <= at < textures.len(),
        textures[at].slot == assignment.slot,
        forall|i: int| 0 <= i < at ==> (#[trigger] textures[i]).slot != assignment.slot,
    ensures
        texture_read(assignment, textures).slot == assignment.slot,
        texture_read(assignment, textures).texture == tag_label(assignment.texture),
        texture_read(assignment, textures).loaded == textures[at].loaded,
{
    lemma_slot_loaded(textures, assignment.slot, 0, at);
}

proof fn lemma_slot_loaded(textures: Seq<TextureState>, slot: u32, from: int, at: int)
    requires
        0 <= from <= at < textures.len(),
        textures[at].slot == slot,
        forall|i: int| 0 <= i < at ==> (#[trigger] textures[i]).slot != slot,
    ensures
        slot_loaded(textures, slot, from) == textures[at].loaded,
    decreases at - from,
{
    if from < at {
        lemma_slot_loaded(textures, slot, from + 1, at);
    }
}

/// A sampler slot is present where there is a sampler, and only there.
pub proof fn law_present_slots_have_samplers(samplers: Seq<bool>, slot: usize)
    requires
        samplers.len() <= usize::MAX,
    ensures
        present_slots(samplers).contains(slot) <==> slot < samplers.len() && samplers[slot as int],
    decreases samplers.len(),
{
    if samplers.len() > 0 {
        let before = present_slots(samplers.drop_last());
        law_present_slots_have_samplers(samplers.drop_last(), slot);
        if samplers.last() {
            let now = present_slots(samplers);
            assert(now[before.len() as int] == (samplers.len() - 1) as usize);
            if before.contains(slot) {
                let place = choose|i: int| 0 <= i < before.len() && before[i] == slot;
                assert(now[place] == slot);
            }
            if now.contains(slot) && slot != (samplers.len() - 1) as usize {
                let place = choose|i: int| 0 <= i < now.len() && now[i] == slot;
                assert(before[place] == slot);
            }
        }
    }
}

/// Every recorded channel value is the one that stands at the recorded number.
pub proof fn law_channel_values_stand_at_their_number(
    indices: Seq<usize>,
    globals: Seq<Vec4Bits>,
    at: int,
)
    requires
        0 <= at < channel_values(indices, globals).len(),
        globals.len() <= 256,
    ensures
        ({
            let recorded = channel_values(indices, globals)[at];
            &&& recorded.index < globals.len()
            &&& recorded.value == globals[recorded.index as int]
            &&& indices.contains(recorded.index as usize)
        }),
    decreases indices.len(),
{
    let before = channel_values(indices.drop_last(), globals);
    if at < before.len() {
        law_channel_values_stand_at_their_number(indices.drop_last(), globals, at);
        let index = before[at].index as usize;
        let place = choose|i: int|
            0 <= i < indices.drop_last().len() && indices.drop_last()[i] == index;
        assert(indices[place] == index);
    } else {
        assert(indices[indices.len() - 1] == indices.last());
    }
}

} // verus!
