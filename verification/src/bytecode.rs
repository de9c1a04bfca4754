//! Expression bytecode: relocation of the legacy dialect.
//!
//! The legacy and the current interpreter share the meaning of their
//! operations, but the current one inserted opcode values around the constant
//! and input-block groups.

use crate::externs::{decode_extern_index, extern_number, ExternIndex};
use crate::text::{decimal, decimal_text, hex, hex_byte, hex_fixed_text, hex_text, outcome, Error};
use vstd::prelude::*;

verus! {

/// The current opcode and the instruction size of a legacy opcode.
pub open spec fn relocated_opcode(legacy: u8) -> Option<(u8, int)> {
    if 0x01 <= legacy <= 0x0f {
        Some((legacy, 1))
    } else if 0x10 <= legacy <= 0x20 {
        Some(((legacy + 3) as u8, 1))
    } else if legacy == 0x22 {
        Some((0x29, 2))
    } else if 0x21 <= legacy <= 0x2e {
        Some(((legacy + 7) as u8, 1))
    } else if 0x34 <= legacy <= 0x3b {
        Some(((legacy + 0x0e) as u8, 2))
    } else if 0x3c <= legacy <= 0x41 {
        Some(((legacy + 0x0e) as u8, 3))
    } else if 0x42 <= legacy <= 0x4e {
        Some(((legacy + 0x0f) as u8, 2))
    } else {
        None
    }
}

/// The size of an instruction by its legacy opcode.
pub open spec fn instruction_size(legacy: u8) -> int {
    match relocated_opcode(legacy) {
        Some((_, size)) => size,
        None => 1,
    }
}

/// The opcodes that read an input block: their operands are a block and an
/// offset in it.
pub open spec fn reads_input_block(legacy: u8) -> bool {
    0x3c <= legacy <= 0x41
}

/// The offset of a block field in the current layout. Deferred textures moved
/// by eight slots, its scalar at 0x0c to 0x1c, and the matrices of the view
/// block by two vectors.
pub open spec fn relocated_offset(legacy: u8, block: u8, offset: u8) -> int {
    if block == ExternIndex::Deferred.number() && (legacy == 0x3f || legacy == 0x41) {
        offset + 8
    } else if block == ExternIndex::Deferred.number() && legacy == 0x3c && offset == 0x0c {
        0x1c
    } else if block == ExternIndex::View.number() && legacy == 0x3e && (offset == 0x06 || offset
        == 0x0a || offset == 0x0e || offset == 0x12 || offset == 0x1e || offset == 0x26) {
        offset + 2
    } else {
        offset as int
    }
}

/// The relocated form of the instruction at `at`, or the message of what is
/// wrong with it.
pub open spec fn relocated_instruction(source: Seq<u8>, at: int) -> Result<Seq<u8>, Seq<char>> {
    let legacy = source[at];
    match relocated_opcode(legacy) {
        None => Err(
            "unsupported Shadowkeep expression opcode 0x"@ + hex_fixed_text(legacy as nat, 2, true)
                + " at 0x"@ + hex_text(at as nat),
        ),
        Some((current, size)) => if at + size > source.len() {
            Err(
                "truncated Shadowkeep expression opcode 0x"@ + hex_fixed_text(
                    legacy as nat,
                    2,
                    true,
                ) + " at 0x"@ + hex_text(at as nat),
            )
        } else if !reads_input_block(legacy) {
            Ok(seq![current] + source.subrange(at + 1, at + size))
        } else if source[at + 1] > 96 {
            Err(
                "invalid Shadowkeep extern index "@ + decimal_text(source[at + 1] as nat)
                    + " at 0x"@ + hex_text(at as nat),
            )
        } else if relocated_offset(legacy, extern_number(source[at + 1]), source[at + 2])
            > u8::MAX {
            Err("Shadowkeep Deferred texture offset overflow"@)
        } else {
            Ok(
                seq![
                    current,
                    source[at + 1],
                    relocated_offset(
                        legacy,
                        extern_number(source[at + 1]),
                        source[at + 2],
                    ) as u8,
                ],
            )
        },
    }
}

/// The relocated form of all instructions from `at` on, or the message of the
/// first that has none.
pub open spec fn relocated(source: Seq<u8>, at: int) -> Result<Seq<u8>, Seq<char>>
    decreases source.len() - at,
{
    if at >= source.len() {
        Ok(seq![])
    } else {
        match relocated_instruction(source, at) {
            Err(message) => Err(message),
            Ok(instruction) => match relocated(source, at + instruction_size(source[at])) {
                Err(message) => Err(message),
                Ok(rest) => Ok(instruction + rest),
            },
        }
    }
}

/// `prefix` before what follows, if that is well.
pub open spec fn after_prefix(prefix: Seq<u8>, rest: Result<Seq<u8>, Seq<char>>) -> Result<
    Seq<u8>,
    Seq<char>,
> {
    match rest {
        Ok(bytes) => Ok(prefix + bytes),
        Err(message) => Err(message),
    }
}

/// The current opcode and instruction size of a legacy opcode.
pub fn relocate_opcode(legacy: u8) -> (relocated: Option<(u8, usize)>)
    ensures
        match relocated {
            Some(found) => relocated_opcode(legacy) == Some((found.0, found.1 as int)),
            None => relocated_opcode(legacy) is None,
        },
{
    match legacy {
        0x01..=0x0f => Some((legacy, 1)),
        0x10..=0x20 => Some((legacy + 3, 1)),
        0x22 => Some((0x29, 2)),
        0x21..=0x2e => Some((legacy + 7, 1)),
        0x34..=0x3b => Some((legacy + 0x0e, 2)),
        0x3c..=0x41 => Some((legacy + 0x0e, 3)),
        0x42..=0x4e => Some((legacy + 0x0f, 2)),
        _ => None,
    }
}

/// The offset of a block field in the current layout.
pub fn relocate_offset(legacy: u8, block: ExternIndex, offset: u8) -> (relocated: Option<u8>)
    ensures
        match relocated {
            Some(found) => relocated_offset(legacy, block.number(), offset) == found,
            None => relocated_offset(legacy, block.number(), offset) > u8::MAX,
        },
{
    match block {
        ExternIndex::Deferred => {
            if legacy == 0x3f || legacy == 0x41 {
                offset.checked_add(8)
            } else if legacy == 0x3c && offset == 0x0c {
                Some(0x1c)
            } else {
                Some(offset)
            }
        },
        ExternIndex::View => {
            if legacy == 0x3e && (offset == 0x06 || offset == 0x0a || offset == 0x0e || offset
                == 0x12 || offset == 0x1e || offset == 0x26) {
                offset.checked_add(2)
            } else {
                Some(offset)
            }
        },
        _ => Some(offset),
    }
}

fn opcode_failure(kind: &str, opcode: u8, at: usize) -> (error: Error)
    ensures
        error@ == kind@ + hex_fixed_text(opcode as nat, 2, true) + " at 0x"@ + hex_text(at as nat),
{
    let mut message = kind.to_owned();
    message.append(hex_byte(opcode).as_str());
    message.append(" at 0x");
    message.append(hex(at as u64).as_str());
    Error { message }
}

/// Relocate a legacy expression program to the current opcodes and layouts.
pub fn translate_shadowkeep_bytecode(source: &[u8]) -> (result: Result<Vec<u8>, Error>)
    ensures
        outcome(result) == relocated(source@, 0),
{
    let mut translated: Vec<u8> = Vec::new();
    let mut cursor: usize = 0;
    while cursor < source.len()
        invariant
            cursor <= source@.len(),
            relocated(source@, 0) == after_prefix(translated@, relocated(source@, cursor as int)),
        decreases source@.len() - cursor,
    {
        let legacy: u8 = source[cursor];
        let ghost before = translated@;
        let (current, size) = match relocate_opcode(legacy) {
            Some(found) => found,
            None => {
                return Err(
                    opcode_failure("unsupported Shadowkeep expression opcode 0x", legacy, cursor),
                );
            },
        };
        if size > source.len() - cursor {
            return Err(opcode_failure("truncated Shadowkeep expression opcode 0x", legacy, cursor));
        }
        let end: usize = cursor + size;
        translated.push(current);
        if legacy >= 0x3c && legacy <= 0x41 {
            let block = match decode_extern_index(source[cursor + 1]) {
                Some(found) => found,
                None => {
                    let mut message = "invalid Shadowkeep extern index ".to_owned();
                    message.append(decimal(source[cursor + 1] as u64).as_str());
                    message.append(" at 0x");
                    message.append(hex(cursor as u64).as_str());
                    return Err(Error { message });
                },
            };
            let offset: u8 = match relocate_offset(legacy, block, source[cursor + 2]) {
                Some(found) => found,
                None => {
                    return Err(
                        Error { message: "Shadowkeep Deferred texture offset overflow".to_owned() },
                    );
                },
            };
            translated.push(source[cursor + 1]);
            translated.push(offset);
        } else if size == 2 {
            translated.push(source[cursor + 1]);
        }
        proof {
            let instruction = relocated_instruction(source@, cursor as int)->Ok_0;
            assert(translated@ =~= before + instruction);
            match relocated(source@, end as int) {
                Ok(rest) => {
                    assert(before + (instruction + rest) =~= before + instruction + rest);
                },
                Err(_) => {},
            }
        }
        cursor = end;
    }
    assert(translated@ + Seq::<u8>::empty() =~= translated@);
    Ok(translated)
}

proof fn lemma_instruction_size(source: Seq<u8>, at: int)
    requires
        0 <= at < source.len(),
        relocated_instruction(source, at) is Ok,
    ensures
        relocated_instruction(source, at)->Ok_0.len() == instruction_size(source[at]),
        1 <= instruction_size(source[at]) <= source.len() - at,
{
}

proof fn lemma_relocated_length(source: Seq<u8>, at: int)
    requires
        0 <= at <= source.len(),
        relocated(source, at) is Ok,
    ensures
        relocated(source, at)->Ok_0.len() == source.len() - at,
    decreases source.len() - at,
{
    if at < source.len() {
        lemma_instruction_size(source, at);
        lemma_relocated_length(source, at + instruction_size(source[at]));
    }
}

/// Relocation keeps the size of a program.
pub proof fn law_relocation_keeps_the_length(source: Seq<u8>)
    requires
        relocated(source, 0) is Ok,
    ensures
        relocated(source, 0)->Ok_0.len() == source.len(),
{
    lemma_relocated_length(source, 0);
}

/// Different legacy opcodes stay different.
pub proof fn law_relocated_opcodes_are_distinct(a: u8, b: u8)
    requires
        relocated_opcode(a) is Some,
        relocated_opcode(b) is Some,
        relocated_opcode(a)->Some_0.0 == relocated_opcode(b)->Some_0.0,
    ensures
        a == b,
{
}

proof fn lemma_relocated_concatenation(first: Seq<u8>, second: Seq<u8>, at: int)
    requires
        0 <= at <= first.len(),
        relocated(first, at) is Ok,
        relocated(second, 0) is Ok,
    ensures
        relocated(first + second, at) == Ok::<Seq<u8>, Seq<char>>(
            relocated(first, at)->Ok_0 + relocated(second, 0)->Ok_0,
        ),
    decreases first.len() - at,
{
    let both = first + second;
    if at < first.len() {
        lemma_instruction_size(first, at);
        let size = instruction_size(first[at]);
        lemma_relocated_concatenation(first, second, at + size);
        assert(both.subrange(at + 1, at + size) =~= first.subrange(at + 1, at + size));
        let instruction = relocated_instruction(first, at)->Ok_0;
        assert(relocated_instruction(both, at) == Ok::<Seq<u8>, Seq<char>>(instruction));
        let rest = relocated(first, at + size)->Ok_0;
        let tail = relocated(second, 0)->Ok_0;
        assert(instruction + (rest + tail) =~= instruction + rest + tail);
    } else {
        lemma_relocated_shift(first, second, 0);
        assert(relocated(first, at)->Ok_0 + relocated(second, 0)->Ok_0 =~= relocated(
            second,
            0,
        )->Ok_0);
    }
}

proof fn lemma_relocated_shift(first: Seq<u8>, second: Seq<u8>, at: int)
    requires
        0 <= at <= second.len(),
        relocated(second, at) is Ok,
    ensures
        relocated(first + second, first.len() + at) == relocated(second, at),
    decreases second.len() - at,
{
    let both = first + second;
    let here = first.len() + at;
    if at < second.len() {
        lemma_instruction_size(second, at);
        let size = instruction_size(second[at]);
        lemma_relocated_shift(first, second, at + size);
        assert(both[here] == second[at]);
        assert(both.subrange(here + 1, here + size) =~= second.subrange(at + 1, at + size));
        if reads_input_block(second[at]) {
            assert(both[here + 1] == second[at + 1]);
            assert(both[here + 2] == second[at + 2]);
        }
        assert(relocated_instruction(both, here) == relocated_instruction(second, at));
        assert(first.len() + (at + size) == here + size);
    }
}

/// Relocation works instruction by instruction: the relocated form of two
/// programs one after the other is that of the first followed by that of the
/// second.
pub proof fn law_relocation_of_a_concatenation(first: Seq<u8>, second: Seq<u8>)
    requires
        relocated(first, 0) is Ok,
        relocated(second, 0) is Ok,
    ensures
        relocated(first + second, 0) == Ok::<Seq<u8>, Seq<char>>(
            relocated(first, 0)->Ok_0 + relocated(second, 0)->Ok_0,
        ),
{
    lemma_relocated_concatenation(first, second, 0);
}

/// An operation in the two instruction sets, and the size of its instruction.
pub struct Correspondence {
    pub legacy: u8,
    pub current: u8,
    pub size: int,
}

/// The operations that both instruction sets have.
pub open spec fn shared_operations() -> Seq<Correspondence> {
    seq![
        Correspondence { legacy: 0x01, current: 0x01, size: 1 },
        Correspondence { legacy: 0x02, current: 0x02, size: 1 },
        Correspondence { legacy: 0x03, current: 0x03, size: 1 },
        Correspondence { legacy: 0x04, current: 0x04, size: 1 },
        Correspondence { legacy: 0x05, current: 0x05, size: 1 },
        Correspondence { legacy: 0x06, current: 0x06, size: 1 },
        Correspondence { legacy: 0x07, current: 0x07, size: 1 },
        Correspondence { legacy: 0x08, current: 0x08, size: 1 },
        Correspondence { legacy: 0x09, current: 0x09, size: 1 },
        Correspondence { legacy: 0x0a, current: 0x0a, size: 1 },
        Correspondence { legacy: 0x0b, current: 0x0b, size: 1 },
        Correspondence { legacy: 0x0c, current: 0x0c, size: 1 },
        Correspondence { legacy: 0x0d, current: 0x0d, size: 1 },
        Correspondence { legacy: 0x0e, current: 0x0e, size: 1 },
        Correspondence { legacy: 0x0f, current: 0x0f, size: 1 },
        Correspondence { legacy: 0x10, current: 0x13, size: 1 },
        Correspondence { legacy: 0x11, current: 0x14, size: 1 },
        Correspondence { legacy: 0x12, current: 0x15, size: 1 },
        Correspondence { legacy: 0x13, current: 0x16, size: 1 },
        Correspondence { legacy: 0x14, current: 0x17, size: 1 },
        Correspondence { legacy: 0x15, current: 0x18, size: 1 },
        Correspondence { legacy: 0x16, current: 0x19, size: 1 },
        Correspondence { legacy: 0x17, current: 0x1a, size: 1 },
        Correspondence { legacy: 0x18, current: 0x1b, size: 1 },
        Correspondence { legacy: 0x19, current: 0x1c, size: 1 },
        Correspondence { legacy: 0x1a, current: 0x1d, size: 1 },
        Correspondence { legacy: 0x1b, current: 0x1e, size: 1 },
        Correspondence { legacy: 0x1c, current: 0x1f, size: 1 },
        Correspondence { legacy: 0x1d, current: 0x20, size: 1 },
        Correspondence { legacy: 0x1e, current: 0x21, size: 1 },
        Correspondence { legacy: 0x1f, current: 0x22, size: 1 },
        Correspondence { legacy: 0x20, current: 0x23, size: 1 },
        Correspondence { legacy: 0x21, current: 0x28, size: 1 },
        Correspondence { legacy: 0x22, current: 0x29, size: 2 },
        Correspondence { legacy: 0x23, current: 0x2a, size: 1 },
        Correspondence { legacy: 0x24, current: 0x2b, size: 1 },
        Correspondence { legacy: 0x25, current: 0x2c, size: 1 },
        Correspondence { legacy: 0x26, current: 0x2d, size: 1 },
        Correspondence { legacy: 0x27, current: 0x2e, size: 1 },
        Correspondence { legacy: 0x28, current: 0x2f, size: 1 },
        Correspondence { legacy: 0x29, current: 0x30, size: 1 },
        Correspondence { legacy: 0x2a, current: 0x31, size: 1 },
        Correspondence { legacy: 0x2b, current: 0x32, size: 1 },
        Correspondence { legacy: 0x2c, current: 0x33, size: 1 },
        Correspondence { legacy: 0x2d, current: 0x34, size: 1 },
        Correspondence { legacy: 0x2e, current: 0x35, size: 1 },
        Correspondence { legacy: 0x34, current: 0x42, size: 2 },
        Correspondence { legacy: 0x35, current: 0x43, size: 2 },
        Correspondence { legacy: 0x36, current: 0x44, size: 2 },
        Correspondence { legacy: 0x37, current: 0x45, size: 2 },
        Correspondence { legacy: 0x38, current: 0x46, size: 2 },
        Correspondence { legacy: 0x39, current: 0x47, size: 2 },
        Correspondence { legacy: 0x3a, current: 0x48, size: 2 },
        Correspondence { legacy: 0x3b, current: 0x49, size: 2 },
        Correspondence { legacy: 0x3c, current: 0x4a, size: 3 },
        Correspondence { legacy: 0x3d, current: 0x4b, size: 3 },
        Correspondence { legacy: 0x3e, current: 0x4c, size: 3 },
        Correspondence { legacy: 0x3f, current: 0x4d, size: 3 },
        Correspondence { legacy: 0x40, current: 0x4e, size: 3 },
        Correspondence { legacy: 0x41, current: 0x4f, size: 3 },
        Correspondence { legacy: 0x42, current: 0x51, size: 2 },
        Correspondence { legacy: 0x43, current: 0x52, size: 2 },
        Correspondence { legacy: 0x44, current: 0x53, size: 2 },
        Correspondence { legacy: 0x45, current: 0x54, size: 2 },
        Correspondence { legacy: 0x46, current: 0x55, size: 2 },
        Correspondence { legacy: 0x47, current: 0x56, size: 2 },
        Correspondence { legacy: 0x48, current: 0x57, size: 2 },
        Correspondence { legacy: 0x49, current: 0x58, size: 2 },
        Correspondence { legacy: 0x4a, current: 0x59, size: 2 },
        Correspondence { legacy: 0x4b, current: 0x5a, size: 2 },
        Correspondence { legacy: 0x4c, current: 0x5b, size: 2 },
        Correspondence { legacy: 0x4d, current: 0x5c, size: 2 },
        Correspondence { legacy: 0x4e, current: 0x5d, size: 2 },
    ]
}

/// An opcode is relocated exactly as the two instruction sets number its operation, and refused
/// where they do not share it.
pub proof fn law_opcodes_are_numbered_as_in_the_two_sets(at: int, legacy: u8)
    ensures
        0 <= at < shared_operations().len() ==> relocated_opcode(shared_operations()[at].legacy)
            == Some((shared_operations()[at].current, shared_operations()[at].size)),
        (forall|i: int|
            0 <= i < shared_operations().len() ==> (#[trigger] shared_operations()[i]).legacy
                != legacy) <==> relocated_opcode(legacy) is None,
{
    let all = shared_operations();
    if relocated_opcode(legacy) is Some {
        let place = if legacy <= 0x2e {
            legacy - 1
        } else {
            legacy - 6
        };
        assert(all[place].legacy == legacy);
    } else {
        assert forall|i: int| 0 <= i < all.len() implies (#[trigger] all[i]).legacy != legacy by {}
    }
}

/// A program is relocated operation by operation: the first becomes its own counterpart with its
/// operand, and the rest follows as if it stood alone.
pub proof fn law_operations_keep_their_operand(at: int, operand: u8, rest: Seq<u8>)
    requires
        0 <= at < shared_operations().len(),
        shared_operations()[at].size <= 2,
        relocated(rest, 0) is Ok,
    ensures
        shared_operations()[at].size == 1 ==> relocated(
            seq![shared_operations()[at].legacy] + rest,
            0,
        ) == Ok::<Seq<u8>, Seq<char>>(
            seq![shared_operations()[at].current] + relocated(rest, 0)->Ok_0,
        ),
        shared_operations()[at].size == 2 ==> relocated(
            seq![shared_operations()[at].legacy, operand] + rest,
            0,
        ) == Ok::<Seq<u8>, Seq<char>>(
            seq![shared_operations()[at].current, operand] + relocated(rest, 0)->Ok_0,
        ),
{
    let row = shared_operations()[at];
    law_opcodes_are_numbered_as_in_the_two_sets(at, row.legacy);
    let first = if row.size == 1 {
        seq![row.legacy]
    } else {
        seq![row.legacy, operand]
    };
    assert(!reads_input_block(row.legacy));
    assert(first.subrange(1, row.size) =~= first.skip(1));
    assert(relocated_instruction(first, 0)->Ok_0 =~= seq![row.current] + first.skip(1));
    assert(relocated(first, row.size) == Ok::<Seq<u8>, Seq<char>>(seq![]));
    assert(relocated(first, 0)->Ok_0 =~= seq![row.current] + first.skip(1));
    law_relocation_of_a_concatenation(first, rest);
    if row.size == 1 {
        assert(seq![row.current] + first.skip(1) =~= seq![row.current]);
    } else {
        assert(seq![row.current] + first.skip(1) =~= seq![row.current, operand]);
    }
}

/// A read of an input block stays a read of the same kind and of the same block: only the place of
/// the field may move.
pub proof fn law_input_reads_keep_their_block(at: int, block: u8, offset: u8, rest: Seq<u8>)
    requires
        0 <= at < shared_operations().len(),
        shared_operations()[at].size == 3,
        block <= 96,
        0 <= relocated_offset(shared_operations()[at].legacy, extern_number(block), offset) <= 255,
        relocated(rest, 0) is Ok,
    ensures
        relocated(seq![shared_operations()[at].legacy, block, offset] + rest, 0) == Ok::<
            Seq<u8>,
            Seq<char>,
        >(
            seq![
                shared_operations()[at].current,
                block,
                relocated_offset(shared_operations()[at].legacy, extern_number(block), offset) as u8,
            ] + relocated(rest, 0)->Ok_0,
        ),
{
    let row = shared_operations()[at];
    let first = seq![row.legacy, block, offset];
    law_opcodes_are_numbered_as_in_the_two_sets(at, row.legacy);
    assert(0x3c <= row.legacy <= 0x41);
    let moved = relocated_offset(row.legacy, extern_number(block), offset) as u8;
    assert(relocated_instruction(first, 0) == Ok::<Seq<u8>, Seq<char>>(
        seq![row.current, block, moved],
    ));
    assert(relocated(first, 3) == Ok::<Seq<u8>, Seq<char>>(seq![]));
    assert(relocated(first, 0)->Ok_0 =~= seq![row.current, block, moved]);
    law_relocation_of_a_concatenation(first, rest);
}

/// The addresses of input-block fields. The textures of the deferred block, eight bytes each,
/// moved with its start from 0x38 to 0x78, and its scalar at 0x30, four bytes, to 0x70. In the
/// view block one vector of sixteen bytes was inserted before each matrix and one after it. All
/// other fields, and all other blocks, stay where they are.
pub proof fn law_block_fields_keep_their_meaning(legacy: u8, block: u8, offset: u8)
    ensures
        block == 3 && (legacy == 0x3f || legacy == 0x41) ==> 8 * relocated_offset(
            legacy,
            block,
            offset,
        ) - 0x78 == 8 * offset - 0x38,
        block == 3 && legacy == 0x3c && 4 * offset == 0x30 ==> 4 * relocated_offset(
            legacy,
            block,
            offset,
        ) == 0x70,
        block == 2 && legacy == 0x3e && seq![0x60int, 0xa0, 0xe0, 0x120, 0x1e0, 0x260].contains(
            16 * offset,
        ) ==> 16 * relocated_offset(legacy, block, offset) == 16 * offset + 0x20,
        block != 3 && block != 2 ==> relocated_offset(legacy, block, offset) == offset,
        block == 3 && legacy != 0x3f && legacy != 0x41 && !(legacy == 0x3c && offset == 0x0c)
            ==> relocated_offset(legacy, block, offset) == offset,
        block == 2 && (legacy != 0x3e || !seq![
            0x60int,
            0xa0,
            0xe0,
            0x120,
            0x1e0,
            0x260,
        ].contains(16 * offset)) ==> relocated_offset(legacy, block, offset) == offset,
{
    let matrices = seq![0x60int, 0xa0, 0xe0, 0x120, 0x1e0, 0x260];
    assert(matrices[0] == 0x60 && matrices[1] == 0xa0 && matrices[2] == 0xe0 && matrices[3] == 0x120
        && matrices[4] == 0x1e0 && matrices[5] == 0x260);
    if matrices.contains(16 * offset) {
        let k = choose|k: int| 0 <= k < matrices.len() && matrices[k] == 16 * offset;
        assert(k == 0 || k == 1 || k == 2 || k == 3 || k == 4 || k == 5);
    }
}

} // verus!
