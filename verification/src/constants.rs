//! Dynamic constants: what a shader stage loads and binds.

use crate::bytecode::{relocated, translate_shadowkeep_bytecode};
use crate::channels::{collect_vectors, vectors_at, Vec4Bits};
use crate::tag::{is_tag, tag_is_none, tag_is_some, NO_TAG};
use crate::technique::{SShadowkeepDynamicConstants, SShadowkeepSamplerReference};
use crate::text::Error;
use vstd::prelude::*;

verus! {

/// Where the initial constants of a stage come from.
#[derive(Clone, Copy, Debug, PartialEq, Eq, Structural)]
pub enum ConstantSource {
    /// The payload that this constant-buffer tag refers to.
    Package { tag: u32 },
    /// The constants stored beside the program.
    Inline,
    /// There are none, and no constant buffer is made.
    Absent,
}

/// A constant-buffer tag wins over inline constants.
pub open spec fn source_of_constants(tag: u32, inline: nat) -> ConstantSource {
    if is_tag(tag) {
        ConstantSource::Package { tag }
    } else if inline == 0 {
        ConstantSource::Absent
    } else {
        ConstantSource::Inline
    }
}

pub fn constant_source(tag: u32, inline: usize) -> (source: ConstantSource)
    ensures
        source == source_of_constants(tag, inline as nat),
{
    if tag_is_some(tag) {
        ConstantSource::Package { tag }
    } else if inline == 0 {
        ConstantSource::Absent
    } else {
        ConstantSource::Inline
    }
}

/// The vectors of a constant-buffer payload.
pub fn constants_from_payload(payload: &[u8]) -> (vectors: Vec<Vec4Bits>)
    requires
        payload@.len() % 16 == 0,
    ensures
        vectors@ == vectors_at(payload@, 0, payload@.len() as int / 16),
{
    collect_vectors(payload, 0, payload.len() / 16)
}

/// The samplers to load, in slot order: none where the reference is empty.
pub open spec fn sampler_tags(references: Seq<SShadowkeepSamplerReference>) -> Seq<Option<u32>> {
    references.map_values(
        |reference: SShadowkeepSamplerReference|
            if reference.sampler == NO_TAG {
                None
            } else {
                Some(reference.sampler)
            },
    )
}

fn samplers_to_load(references: &Vec<SShadowkeepSamplerReference>) -> (tags: Vec<Option<u32>>)
    ensures
        tags@ == sampler_tags(references@),
{
    let mut tags: Vec<Option<u32>> = Vec::new();
    let mut i: usize = 0;
    while i < references.len()
        invariant
            i <= references@.len(),
            tags@ == sampler_tags(references@.take(i as int)),
        decreases references@.len() - i,
    {
        let sampler: u32 = references[i].sampler;
        tags.push(
            if tag_is_none(sampler) {
                None
            } else {
                Some(sampler)
            },
        );
        i = i + 1;
        assert(tags@ =~= sampler_tags(references@.take(i as int)));
    }
    assert(references@.take(references@.len() as int) =~= references@);
    tags
}

/// The two's complement reading of a slot.
pub open spec fn slot_number(slot: i32) -> u32 {
    if slot < 0 {
        (slot + 0x1_0000_0000) as u32
    } else {
        slot as u32
    }
}

fn slot_from_signed(slot: i32) -> (number: u32)
    ensures
        number == slot_number(slot),
{
    if slot < 0 {
        u32::MAX - (-1 - slot) as u32
    } else {
        slot as u32
    }
}

/// What a stage needs before it can be bound.
#[derive(Debug)]
pub struct ConstantsPlan {
    pub source: ConstantSource,
    pub samplers: Vec<Option<u32>>,
    pub cbuffer_slot: u32,
    pub bytecode: Vec<u8>,
}

/// Plan the loading of a stage: relocate its program, and pick its constants,
/// samplers and slot.
pub fn plan_shadowkeep_constants(constants: &SShadowkeepDynamicConstants) -> (result: Result<
    ConstantsPlan,
    Error,
>)
    ensures
        match result {
            Ok(plan) => {
                &&& relocated(constants.bytecode@, 0) == Ok::<Seq<u8>, Seq<char>>(plan.bytecode@)
                &&& plan.source == source_of_constants(
                    constants.constant_buffer,
                    constants.inline_constants@.len(),
                )
                &&& plan.samplers@ == sampler_tags(constants.samplers@)
                &&& plan.cbuffer_slot == slot_number(constants.constant_buffer_slot)
            },
            Err(error) => relocated(constants.bytecode@, 0) == Err::<Seq<u8>, Seq<char>>(error@),
        },
{
    let source = constant_source(constants.constant_buffer, constants.inline_constants.len());
    let bytecode = match translate_shadowkeep_bytecode(constants.bytecode.as_slice()) {
        Ok(translated) => translated,
        Err(error) => return Err(error),
    };
    Ok(
        ConstantsPlan {
            source,
            samplers: samplers_to_load(&constants.samplers),
            cbuffer_slot: slot_from_signed(constants.constant_buffer_slot),
            bytecode,
        },
    )
}

/// One action of binding a stage.
#[derive(Clone, Copy, Debug, PartialEq, Eq, Structural)]
pub enum BindStep {
    /// Map the constant buffer, copy the initial constants and run the program
    /// into it.
    EvaluateIntoBuffer,
    /// Run the program without an output.
    Evaluate,
    /// Bind the constant buffer to the slot.
    BindBuffer { slot: u32 },
    /// Clear the slot.
    ClearBuffer { slot: u32 },
    /// Bind the texture of the n-th assignment to its slot.
    BindTexture { assignment: usize, slot: u32 },
    /// Bind the white fallback to the slot.
    BindFallback { slot: u32 },
}

/// A texture assignment: its slot, and whether its texture is there.
#[derive(Clone, Copy, Debug, PartialEq, Eq, Structural)]
pub struct TextureBinding {
    pub slot: u32,
    pub ready: bool,
}

/// Running the program of a stage.
pub open spec fn evaluation_steps(has_program: bool, writes: bool, has_buffer: bool) -> Seq<
    BindStep,
> {
    if !has_program {
        seq![]
    } else if !writes {
        seq![BindStep::Evaluate]
    } else if has_buffer {
        seq![BindStep::EvaluateIntoBuffer]
    } else {
        seq![]
    }
}

/// Binding the constant buffer of a stage.
pub open spec fn buffer_steps(slot: u32, has_buffer: bool) -> Seq<BindStep> {
    if slot == u32::MAX {
        seq![]
    } else if has_buffer {
        seq![BindStep::BindBuffer { slot }]
    } else {
        seq![BindStep::ClearBuffer { slot }]
    }
}

/// Binding the textures of a stage: one step each, in order.
pub open spec fn texture_steps(textures: Seq<TextureBinding>) -> Seq<BindStep> {
    Seq::new(
        textures.len(),
        |i: int|
            if textures[i].ready {
                BindStep::BindTexture { assignment: i as usize, slot: textures[i].slot }
            } else {
                BindStep::BindFallback { slot: textures[i].slot }
            },
    )
}

/// What to do to bind a stage.
pub fn bind_steps(
    has_program: bool,
    writes: bool,
    has_buffer: bool,
    slot: u32,
    textures: &[TextureBinding],
) -> (steps: Vec<BindStep>)
    ensures
        steps@ == evaluation_steps(has_program, writes, has_buffer) + buffer_steps(
            slot,
            has_buffer,
        ) + texture_steps(textures@),
{
    let mut steps: Vec<BindStep> = Vec::new();
    if has_program {
        if writes {
            if has_buffer {
                steps.push(BindStep::EvaluateIntoBuffer);
            }
        } else {
            steps.push(BindStep::Evaluate);
        }
    }
    if slot != u32::MAX {
        if has_buffer {
            steps.push(BindStep::BindBuffer { slot });
        } else {
            steps.push(BindStep::ClearBuffer { slot });
        }
    }
    let ghost before = steps@;
    assert(before =~= evaluation_steps(has_program, writes, has_buffer) + buffer_steps(
        slot,
        has_buffer,
    ));
    let mut i: usize = 0;
    assert(steps@ =~= before + texture_steps(textures@.take(0)));
    while i < textures.len()
        invariant
            i <= textures@.len(),
            steps@ == before + texture_steps(textures@.take(i as int)),
        decreases textures@.len() - i,
    {
        let texture = textures[i];
        if texture.ready {
            steps.push(BindStep::BindTexture { assignment: i, slot: texture.slot });
        } else {
            steps.push(BindStep::BindFallback { slot: texture.slot });
        }
        i = i + 1;
        assert(steps@ =~= before + texture_steps(textures@.take(i as int)));
    }
    assert(textures@.take(textures@.len() as int) =~= textures@);
    steps
}

/// No texture slot of a stage is left unbound: each assignment has exactly one
/// step for its slot, the last steps of the binding.
pub proof fn law_every_texture_slot_is_bound(textures: Seq<TextureBinding>, i: int)
    requires
        0 <= i < textures.len() <= usize::MAX,
    ensures
        texture_steps(textures).len() == textures.len(),
        textures[i].ready ==> texture_steps(textures)[i] == (BindStep::BindTexture {
            assignment: i as usize,
            slot: textures[i].slot,
        }),
        !textures[i].ready ==> texture_steps(textures)[i] == (BindStep::BindFallback {
            slot: textures[i].slot,
        }),
{
}

/// Stop a program whose evaluation failed at `ip`: the instruction there
/// becomes a return.
pub fn disable_expression(bytecode: &mut Vec<u8>, ip: usize, return_opcode: u8)
    ensures
        final(bytecode)@ == if ip < old(bytecode)@.len() {
            old(bytecode)@.update(ip as int, return_opcode)
        } else {
            old(bytecode)@
        },
{
    if ip < bytecode.len() {
        bytecode[ip] = return_opcode;
    }
}

/// Constants come from a package where a tag names one, and from the record itself otherwise,
/// unless it holds none.
pub proof fn law_package_constants_come_first(tag: u32, inline: nat)
    ensures
        is_tag(tag) ==> source_of_constants(tag, inline) == (ConstantSource::Package { tag }),
        !is_tag(tag) && inline > 0 ==> source_of_constants(tag, inline) == ConstantSource::Inline,
        !is_tag(tag) && inline == 0 ==> source_of_constants(tag, inline) == ConstantSource::Absent,
{
}

/// A sampler is bound where it is referred to, and nowhere else; the numbers of the references do
/// not change.
pub proof fn law_samplers_keep_their_place(
    references: Seq<SShadowkeepSamplerReference>,
    at: int,
)
    requires
        0 <= at < references.len(),
    ensures
        sampler_tags(references).len() == references.len(),
        references[at].sampler == 0xffff_ffff ==> sampler_tags(references)[at] is None,
        references[at].sampler != 0xffff_ffff ==> sampler_tags(references)[at] == Some(
            references[at].sampler,
        ),
{
}

/// A slot is taken by its bits: what is not negative stands for itself, and minus one for the
/// greatest number, which is no slot.
pub proof fn law_slots_keep_their_bits(slot: i32)
    ensures
        slot >= 0 ==> slot_number(slot) == slot,
        slot < 0 ==> slot_number(slot) - 0x1_0000_0000 == slot,
        slot == -1 ==> slot_number(slot) == 0xffff_ffff,
        buffer_steps(0xffff_ffff, true).len() == 0,
        buffer_steps(0xffff_ffff, false).len() == 0,
{
}

/// A program runs before its buffer is bound: into the buffer where it writes and there is one,
/// for its other effects where it writes nothing, and not at all where it would write into a
/// buffer that is missing.
pub proof fn law_programs_run_before_their_buffer_is_bound(
    has_program: bool,
    writes: bool,
    has_buffer: bool,
    slot: u32,
)
    ensures
        ({
            let steps = evaluation_steps(has_program, writes, has_buffer) + buffer_steps(
                slot,
                has_buffer,
            );
            let evaluates = has_program && (!writes || has_buffer);
            let binds = slot != 0xffff_ffff;
            let at: int = if evaluates {
                1
            } else {
                0
            };
            &&& steps.len() == at + if binds {
                1int
            } else {
                0
            }
            &&& evaluates && !writes ==> steps[0] == BindStep::Evaluate
            &&& evaluates && writes ==> steps[0] == BindStep::EvaluateIntoBuffer
            &&& binds && has_buffer ==> steps[at] == (BindStep::BindBuffer { slot })
            &&& binds && !has_buffer ==> steps[at] == (BindStep::ClearBuffer { slot })
        }),
{
}

} // verus!
