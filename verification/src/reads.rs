//! What an expression program reads and binds.

use crate::externs::ExternIndex;
use crate::order::{
    compare_texts, insert_number, law_text_order_is_total,
    law_text_order_is_transitive, lemma_lists_push, lists, text_less, Order,
};
use crate::text::{hex_byte, hex_fixed_text, same_text, views, SameView};
use vstd::prelude::*;

verus! {

/// The operations that matter to what a program reads and binds.
#[derive(Clone, Copy, Debug, PartialEq, Eq, Structural)]
pub enum Opcode {
    PopOutput,
    PopOutputMat4,
    PushFromOutput,
    PushGlobalChannelVector,
    PushObjectChannelVector,
    PushExternInputFloat,
    PushExternInputVec4,
    PushExternInputMat4,
    PushExternInputTextureView,
    PushExternInputU32,
    PushExternInputUav,
    PopTextureView,
    PopSamplerState,
    Other,
}

/// An instruction of a program.
#[derive(Debug)]
pub struct Instruction {
    pub opcode: Opcode,
    pub operands: Vec<u8>,
}

impl Opcode {
    /// The operation touches the constant buffer.
    pub open spec fn touches_output(self) -> bool {
        self is PopOutput || self is PopOutputMat4 || self is PushFromOutput
    }
}

/// Whether a program touches its constant buffer, so that the buffer has to be
/// mapped before the program runs.
pub fn writes_cbuffer(program: &[Instruction]) -> (writes: bool)
    ensures
        writes == (exists|i: int|
            0 <= i < program@.len() && (#[trigger] program@[i]).opcode.touches_output()),
{
    let mut i: usize = 0;
    while i < program.len()
        invariant
            i <= program@.len(),
            forall|j: int| 0 <= j < i ==> !(#[trigger] program@[j]).opcode.touches_output(),
        decreases program@.len() - i,
    {
        match program[i].opcode {
            Opcode::PopOutput | Opcode::PopOutputMat4 | Opcode::PushFromOutput => {
                assert(program@[i as int].opcode.touches_output());
                return true;
            },
            _ => {},
        }
        i = i + 1;
    }
    false
}

/// The first operands of all instructions with the given operation, each modulo
/// `modulus`.
pub open spec fn operands_of(program: Seq<Instruction>, opcode: Opcode, modulus: usize) -> Seq<
    usize,
>
    decreases program.len(),
{
    if program.len() == 0 {
        seq![]
    } else {
        let before = operands_of(program.drop_last(), opcode, modulus);
        let last = program.last();
        if last.opcode == opcode && last.operands@.len() > 0 {
            before.push((last.operands@[0] as int % modulus as int) as usize)
        } else {
            before
        }
    }
}

/// List the first operands of the instructions with the given operation, and
/// further numbers, each once, in ascending order.
pub fn operand_listing(
    program: &[Instruction],
    opcode: Opcode,
    modulus: usize,
    further: &[usize],
) -> (listing: Vec<usize>)
    requires
        modulus > 0,
    ensures
        lists(listing@, operands_of(program@, opcode, modulus) + further@),
{
    let mut listing: Vec<usize> = Vec::new();
    let mut i: usize = 0;
    while i < program.len()
        invariant
            i <= program@.len(),
            modulus > 0,
            lists(listing@, operands_of(program@.take(i as int), opcode, modulus)),
        decreases program@.len() - i,
    {
        let ghost before = listing@;
        let ghost source = operands_of(program@.take(i as int), opcode, modulus);
        assert(program@.take(i + 1).drop_last() =~= program@.take(i as int));
        if program[i].opcode == opcode && program[i].operands.len() > 0 {
            let x: usize = program[i].operands[0] as usize % modulus;
            insert_number(&mut listing, x);
            proof {
                lemma_lists_push(before, listing@, source, x);
            }
        }
        i = i + 1;
    }
    assert(program@.take(program@.len() as int) =~= program@);
    let ghost source = operands_of(program@, opcode, modulus);
    let mut j: usize = 0;
    assert(source + further@.take(0) =~= source);
    while j < further.len()
        invariant
            j <= further@.len(),
            lists(listing@, source + further@.take(j as int)),
        decreases further@.len() - j,
    {
        let ghost before = listing@;
        insert_number(&mut listing, further[j]);
        proof {
            lemma_lists_push(
                before,
                listing@,
                source + further@.take(j as int),
                further@[j as int],
            );
            assert((source + further@.take(j as int)).push(further@[j as int]) =~= source
                + further@.take(j + 1));
        }
        j = j + 1;
    }
    assert(further@.take(further@.len() as int) =~= further@);
    listing
}

/// The object channel that an instruction reads.
pub open spec fn object_channel(instruction: Instruction) -> Option<u32> {
    let operands = instruction.operands@;
    if instruction.opcode == Opcode::PushObjectChannelVector && operands.len() >= 4 {
        Some(
            (0x100_0000 * operands[0] + 0x1_0000 * operands[1] + 0x100 * operands[2]
                + operands[3]) as u32,
        )
    } else {
        None
    }
}

/// The object channels that a program reads.
pub open spec fn object_channels_of(program: Seq<Instruction>) -> Seq<usize>
    decreases program.len(),
{
    if program.len() == 0 {
        seq![]
    } else {
        let before = object_channels_of(program.drop_last());
        match object_channel(program.last()) {
            Some(hash) => before.push(hash as usize),
            None => before,
        }
    }
}

/// List the object channels that a program reads, each once, in ascending
/// order.
pub fn object_channel_listing(program: &[Instruction]) -> (listing: Vec<usize>)
    ensures
        lists(listing@, object_channels_of(program@)),
        forall|i: int| 0 <= i < listing@.len() ==> listing@[i] <= u32::MAX,
{
    let mut listing: Vec<usize> = Vec::new();
    let mut i: usize = 0;
    while i < program.len()
        invariant
            i <= program@.len(),
            lists(listing@, object_channels_of(program@.take(i as int))),
            forall|x: usize| listing@.contains(x) ==> x <= u32::MAX,
        decreases program@.len() - i,
    {
        let ghost before = listing@;
        let ghost source = object_channels_of(program@.take(i as int));
        assert(program@.take(i + 1).drop_last() =~= program@.take(i as int));
        let operands: &Vec<u8> = &program[i].operands;
        if program[i].opcode == Opcode::PushObjectChannelVector && operands.len() >= 4 {
            let hash: u32 = 0x100_0000 * operands[0] as u32 + 0x1_0000 * operands[1] as u32 + 0x100
                * operands[2] as u32 + operands[3] as u32;
            insert_number(&mut listing, hash as usize);
            proof {
                lemma_lists_push(before, listing@, source, hash as usize);
            }
        }
        i = i + 1;
    }
    assert(program@.take(program@.len() as int) =~= program@);
    assert forall|k: int| 0 <= k < listing@.len() implies listing@[k] <= u32::MAX by {
        assert(listing@.contains(listing@[k]));
    }
    listing
}

/// A read of an input block.
#[derive(Debug)]
pub struct GlobalLightingExternRead {
    pub extern_index: String,
    pub value_type: String,
    pub byte_offset: u32,
}

/// What a read of an input block says.
#[verifier::ext_equal]
pub struct ExternReadView {
    pub block: Seq<char>,
    pub byte_offset: u32,
    pub value_type: Seq<char>,
}

impl View for GlobalLightingExternRead {
    type V = ExternReadView;

    open spec fn view(&self) -> ExternReadView {
        ExternReadView {
            block: self.extern_index@,
            byte_offset: self.byte_offset,
            value_type: self.value_type@,
        }
    }
}

impl SameView for GlobalLightingExternRead {
    fn same_view(&self, other: &Self) -> (result: bool) {
        same_text(self.extern_index.as_str(), other.extern_index.as_str()) && same_text(
            self.value_type.as_str(),
            other.value_type.as_str(),
        ) && self.byte_offset == other.byte_offset
    }
}

/// The type and the width of a value that an operation reads from an input
/// block.
pub open spec fn input_kind(opcode: Opcode) -> Option<(Seq<char>, u32)> {
    match opcode {
        Opcode::PushExternInputFloat => Some(("float"@, 4)),
        Opcode::PushExternInputVec4 => Some(("vec4"@, 16)),
        Opcode::PushExternInputMat4 => Some(("mat4"@, 16)),
        Opcode::PushExternInputTextureView => Some(("texture_view"@, 8)),
        Opcode::PushExternInputU32 => Some(("u32"@, 4)),
        Opcode::PushExternInputUav => Some(("uav"@, 8)),
        _ => None,
    }
}

fn kind_of_input(opcode: Opcode) -> (kind: Option<(&'static str, u32)>)
    ensures
        match kind {
            Some(found) => input_kind(opcode) == Some((found.0@, found.1)) && found.1 <= 16,
            None => input_kind(opcode) is None,
        },
{
    match opcode {
        Opcode::PushExternInputFloat => Some(("float", 4)),
        Opcode::PushExternInputVec4 => Some(("vec4", 16)),
        Opcode::PushExternInputMat4 => Some(("mat4", 16)),
        Opcode::PushExternInputTextureView => Some(("texture_view", 8)),
        Opcode::PushExternInputU32 => Some(("u32", 4)),
        Opcode::PushExternInputUav => Some(("uav", 8)),
        _ => None,
    }
}

/// The name of the block with the given number, or the number in hexadecimal
/// where it names none.
pub open spec fn block_label(number: u8) -> Seq<char> {
    match ExternIndex::numbered(number) {
        Some(block) => block.label(),
        None => "0x"@ + hex_fixed_text(number as nat, 2, true),
    }
}

/// What an instruction reads from an input block.
pub open spec fn input_read(instruction: Instruction) -> Option<ExternReadView> {
    let operands = instruction.operands@;
    match input_kind(instruction.opcode) {
        Some((value_type, width)) => if operands.len() == 0 {
            None
        } else {
            Some(
                ExternReadView {
                    block: block_label(operands[0]),
                    byte_offset: (width * (if operands.len() > 1 {
                        operands[1] as int
                    } else {
                        0
                    })) as u32,
                    value_type,
                },
            )
        },
        None => None,
    }
}

/// What a program reads from input blocks, in program order.
pub open spec fn input_reads(program: Seq<Instruction>) -> Seq<ExternReadView>
    decreases program.len(),
{
    if program.len() == 0 {
        seq![]
    } else {
        let before = input_reads(program.drop_last());
        match input_read(program.last()) {
            Some(read) => before.push(read),
            None => before,
        }
    }
}

fn block_name(number: u8) -> (name: String)
    ensures
        name@ == block_label(number),
{
    match ExternIndex::from_number(number) {
        Some(block) => block.name().to_owned(),
        None => {
            let mut text = "0x".to_owned();
            text.append(hex_byte(number).as_str());
            text
        },
    }
}

fn read_of(instruction: &Instruction) -> (read: Option<GlobalLightingExternRead>)
    ensures
        match read {
            Some(found) => input_read(*instruction) == Some(found@),
            None => input_read(*instruction) is None,
        },
{
    let (value_type, width) = match kind_of_input(instruction.opcode) {
        Some(kind) => kind,
        None => return None,
    };
    if instruction.operands.len() == 0 {
        return None;
    }
    let step: u32 = if instruction.operands.len() > 1 {
        instruction.operands[1] as u32
    } else {
        0
    };
    assert(0 <= width * step <= 16 * 255) by (nonlinear_arith)
        requires
            0 <= width <= 16,
            0 <= step <= 255,
    ;
    Some(
        GlobalLightingExternRead {
            extern_index: block_name(instruction.operands[0]),
            value_type: value_type.to_owned(),
            byte_offset: width * step,
        },
    )
}

impl ExternReadView {
    /// Reads are ordered by block name, then by offset, then by type.
    pub open spec fn before(self, other: ExternReadView) -> bool {
        if self.block != other.block {
            text_less(self.block, other.block, 0)
        } else if self.byte_offset != other.byte_offset {
            self.byte_offset < other.byte_offset
        } else {
            text_less(self.value_type, other.value_type, 0)
        }
    }
}

/// The views of a list of reads.
pub open spec fn read_views(reads: Seq<GlobalLightingExternRead>) -> Seq<ExternReadView> {
    views(reads)
}

/// No read comes before an earlier one.
pub open spec fn reads_sorted(reads: Seq<ExternReadView>) -> bool {
    forall|i: int, j: int| 0 <= i < j < reads.len() ==> !(#[trigger] reads[j]).before(
        #[trigger] reads[i],
    )
}

proof fn lemma_read_order(a: ExternReadView, b: ExternReadView)
    ensures
        !(a.before(b) && b.before(a)),
        !a.before(b) && !b.before(a) <==> a == b,
{
    law_text_order_is_total(a.block, b.block);
    law_text_order_is_total(b.block, a.block);
    law_text_order_is_total(a.value_type, b.value_type);
    law_text_order_is_total(b.value_type, a.value_type);
}

proof fn lemma_read_order_transitive(a: ExternReadView, b: ExternReadView, c: ExternReadView)
    requires
        a.before(b),
        b.before(c),
    ensures
        a.before(c),
{
    lemma_read_order(a, b);
    lemma_read_order(b, c);
    law_text_order_is_total(a.block, c.block);
    law_text_order_is_total(a.block, b.block);
    law_text_order_is_total(b.block, c.block);
    if text_less(a.block, b.block, 0) && text_less(b.block, c.block, 0) {
        law_text_order_is_transitive(a.block, b.block, c.block);
    }
    if text_less(a.value_type, b.value_type, 0) && text_less(b.value_type, c.value_type, 0) {
        law_text_order_is_transitive(a.value_type, b.value_type, c.value_type);
    }
}

fn compare_reads(a: &GlobalLightingExternRead, b: &GlobalLightingExternRead) -> (order: Order)
    ensures
        order == Order::Less <==> a@.before(b@),
        order == Order::Greater <==> b@.before(a@),
        order == Order::Same <==> a@ == b@,
{
    proof {
        lemma_read_order(a@, b@);
    }
    let by_block = compare_texts(a.extern_index.as_str(), b.extern_index.as_str());
    proof {
        law_text_order_is_total(a@.block, b@.block);
        law_text_order_is_total(a@.value_type, b@.value_type);
    }
    match by_block {
        Order::Same => {
            if a.byte_offset < b.byte_offset {
                Order::Less
            } else if a.byte_offset > b.byte_offset {
                Order::Greater
            } else {
                compare_texts(a.value_type.as_str(), b.value_type.as_str())
            }
        },
        _ => by_block,
    }
}

/// Insert a read behind those that do not come after it. With `once`, a read
/// that is there already is dropped.
fn insert_read(reads: &mut Vec<GlobalLightingExternRead>, read: GlobalLightingExternRead, once: bool)
    requires
        reads_sorted(read_views(old(reads)@)),
        once ==> read_views(old(reads)@).no_duplicates(),
    ensures
        reads_sorted(read_views(final(reads)@)),
        once && read_views(old(reads)@).contains(read@) ==> final(reads)@ == old(reads)@,
        !(once && read_views(old(reads)@).contains(read@)) ==> exists|at: int|
            0 <= at <= old(reads)@.len() && read_views(final(reads)@) == #[trigger] read_views(
                old(reads)@,
            ).insert(at, read@),
        once ==> read_views(final(reads)@).no_duplicates(),
{
    let ghost before = reads@;
    let ghost viewed = read_views(before);
    let mut i: usize = 0;
    while i < reads.len()
        invariant
            reads@ == before,
            viewed == read_views(before),
            i <= before.len(),
            reads_sorted(viewed),
            once ==> viewed.no_duplicates(),
            forall|j: int| 0 <= j < i ==> !read@.before(#[trigger] viewed[j]),
            once ==> forall|j: int| 0 <= j < i ==> #[trigger] viewed[j] != read@,
        ensures
            reads@ == before,
            i <= before.len(),
            forall|j: int| 0 <= j < i ==> !read@.before(#[trigger] viewed[j]),
            once ==> forall|j: int| 0 <= j < i ==> #[trigger] viewed[j] != read@,
            i < before.len() ==> read@.before(viewed[i as int]),
        decreases before.len() - i,
    {
        assert(viewed[i as int] == before[i as int]@);
        match compare_reads(&read, &reads[i]) {
            Order::Less => {
                break ;
            },
            Order::Same => {
                if once {
                    assert(viewed.contains(read@));
                    return ;
                }
            },
            Order::Greater => {},
        }
        i = i + 1;
    }
    proof {
        assert forall|j: int| i <= j < viewed.len() implies read@.before(#[trigger] viewed[j]) by {
            if j > i {
                lemma_read_order(viewed[i as int], viewed[j]);
                if viewed[i as int] != viewed[j] {
                    lemma_read_order_transitive(read@, viewed[i as int], viewed[j]);
                }
            }
        }
        assert forall|j: int| 0 <= j < viewed.len() && once implies #[trigger] viewed[j]
            != read@ by {
            lemma_read_order(read@, viewed[j]);
        }
    }
    reads.insert(i, read);
    proof {
        let after = read_views(reads@);
        assert(after =~= viewed.insert(i as int, read@));
        assert forall|j: int, k: int| 0 <= j < k < after.len() implies !(
        #[trigger] after[k]).before(#[trigger] after[j]) by {
            let x = if k < i {
                viewed[k]
            } else if k == i {
                read@
            } else {
                viewed[k - 1]
            };
            let y = if j < i {
                viewed[j]
            } else if j == i {
                read@
            } else {
                viewed[j - 1]
            };
            assert(after[k] == x && after[j] == y);
            lemma_read_order(x, y);
        }
        if once {
            assert forall|j: int, k: int| 0 <= j < after.len() && 0 <= k < after.len() && j != k
                implies after[j] != after[k] by {
                let j2 = if j > i {
                    j - 1
                } else {
                    j
                };
                let k2 = if k > i {
                    k - 1
                } else {
                    k
                };
                if j == i {
                    assert(after[k] == viewed[k2]);
                } else if k == i {
                    assert(after[j] == viewed[j2]);
                } else {
                    assert(after[j] == viewed[j2] && after[k] == viewed[k2]);
                }
            }
        }
    }
}

/// The reads of a program, sorted.
pub fn sorted_input_reads(program: &[Instruction]) -> (reads: Vec<GlobalLightingExternRead>)
    ensures
        reads_sorted(read_views(reads@)),
        read_views(reads@).to_multiset() == input_reads(program@).to_multiset(),
{
    let mut reads: Vec<GlobalLightingExternRead> = Vec::new();
    let mut i: usize = 0;
    assert(read_views(reads@) =~= Seq::<ExternReadView>::empty());
    while i < program.len()
        invariant
            i <= program@.len(),
            reads_sorted(read_views(reads@)),
            read_views(reads@).to_multiset() == input_reads(
                program@.take(i as int),
            ).to_multiset(),
        decreases program@.len() - i,
    {
        assert(program@.take(i + 1).drop_last() =~= program@.take(i as int));
        let ghost before = read_views(reads@);
        let ghost source = input_reads(program@.take(i as int));
        match read_of(&program[i]) {
            Some(read) => {
                let ghost view = read@;
                insert_read(&mut reads, read, false);
                proof {
                    broadcast use vstd::seq_lib::group_to_multiset_ensures;

                    let at = choose|at: int|
                        0 <= at <= before.len() && read_views(reads@) == #[trigger] before.insert(
                            at,
                            view,
                        );
                    crate::order::lemma_insertion_adds_one(before, at, view);
                    assert(source.push(view).to_multiset() =~= source.to_multiset().insert(view));
                }
            },
            None => {},
        }
        i = i + 1;
    }
    assert(program@.take(program@.len() as int) =~= program@);
    reads
}

/// The reads of a program, each once, sorted.
pub fn distinct_input_reads(program: &[Instruction]) -> (reads: Vec<GlobalLightingExternRead>)
    ensures
        reads_sorted(read_views(reads@)),
        read_views(reads@).no_duplicates(),
        forall|read: ExternReadView|
            read_views(reads@).contains(read) <==> input_reads(program@).contains(read),
{
    let mut reads: Vec<GlobalLightingExternRead> = Vec::new();
    let mut i: usize = 0;
    assert(read_views(reads@) =~= Seq::<ExternReadView>::empty());
    while i < program.len()
        invariant
            i <= program@.len(),
            reads_sorted(read_views(reads@)),
            read_views(reads@).no_duplicates(),
            forall|read: ExternReadView|
                read_views(reads@).contains(read) <==> input_reads(
                    program@.take(i as int),
                ).contains(read),
        decreases program@.len() - i,
    {
        assert(program@.take(i + 1).drop_last() =~= program@.take(i as int));
        let ghost before = read_views(reads@);
        let ghost source = input_reads(program@.take(i as int));
        match read_of(&program[i]) {
            Some(read) => {
                let ghost view = read@;
                insert_read(&mut reads, read, true);
                proof {
                    let after = read_views(reads@);
                    let longer = source.push(view);
                    assert forall|other: ExternReadView| after.contains(other)
                        <==> longer.contains(other) by {
                        lemma_contains_push(source, view, other);
                        if !before.contains(view) {
                            let at = choose|at: int|
                                0 <= at <= before.len() && after == #[trigger] before.insert(
                                    at,
                                    view,
                                );
                            lemma_contains_insert(before, at, view, other);
                        }
                    }
                }
            },
            None => {},
        }
        i = i + 1;
    }
    assert(program@.take(program@.len() as int) =~= program@);
    reads
}

proof fn lemma_contains_push(s: Seq<ExternReadView>, x: ExternReadView, y: ExternReadView)
    ensures
        s.push(x).contains(y) <==> s.contains(y) || x == y,
{
    let longer = s.push(x);
    if s.contains(y) {
        let k = choose|k: int| 0 <= k < s.len() && s[k] == y;
        assert(longer[k] == y);
    }
    assert(longer[s.len() as int] == x);
    if longer.contains(y) {
        let k = choose|k: int| 0 <= k < longer.len() && longer[k] == y;
        if k < s.len() {
            assert(s[k] == y);
        }
    }
}

proof fn lemma_contains_insert(
    s: Seq<ExternReadView>,
    at: int,
    x: ExternReadView,
    y: ExternReadView,
)
    requires
        0 <= at <= s.len(),
    ensures
        s.insert(at, x).contains(y) <==> s.contains(y) || x == y,
{
    let longer = s.insert(at, x);
    if s.contains(y) {
        let k = choose|k: int| 0 <= k < s.len() && s[k] == y;
        if k < at {
            assert(longer[k] == y);
        } else {
            assert(longer[k + 1] == y);
        }
    }
    assert(longer[at] == x);
    if longer.contains(y) {
        let k = choose|k: int| 0 <= k < longer.len() && longer[k] == y;
        if k < at {
            assert(s[k] == y);
        } else if k > at {
            assert(s[k - 1] == y);
        }
    }
}

/// A read of an input names its block by the first operand. The second counts the values of its
/// kind before it: floats and words of four bytes, textures and views of eight, and vectors of
/// sixteen, which matrices are made of. Without a second operand the read is from the beginning.
pub proof fn law_reads_are_addressed_by_their_operands(instruction: Instruction)
    requires
        instruction.operands@.len() > 0,
    ensures
        ({
            let count: int = if instruction.operands@.len() > 1 {
                instruction.operands@[1] as int
            } else {
                0
            };
            let read = input_read(instruction);
            &&& instruction.opcode == Opcode::PushExternInputFloat ==> read is Some
                && read->Some_0.byte_offset == 4 * count && read->Some_0.value_type == "float"@
            &&& instruction.opcode == Opcode::PushExternInputVec4 ==> read is Some
                && read->Some_0.byte_offset == 16 * count && read->Some_0.value_type == "vec4"@
            &&& instruction.opcode == Opcode::PushExternInputMat4 ==> read is Some
                && read->Some_0.byte_offset == 16 * count && read->Some_0.value_type == "mat4"@
            &&& instruction.opcode == Opcode::PushExternInputTextureView ==> read is Some
                && read->Some_0.byte_offset == 8 * count && read->Some_0.value_type
                == "texture_view"@
            &&& instruction.opcode == Opcode::PushExternInputU32 ==> read is Some
                && read->Some_0.byte_offset == 4 * count && read->Some_0.value_type == "u32"@
            &&& instruction.opcode == Opcode::PushExternInputUav ==> read is Some
                && read->Some_0.byte_offset == 8 * count && read->Some_0.value_type == "uav"@
            &&& read is Some ==> (ExternIndex::numbered(
                instruction.operands@[0],
            ) matches Some(block) ==> read->Some_0.block == block.label())
        }),
{
}

/// The hash of an object channel has the operands as its bytes, highest first.
pub proof fn law_object_channels_are_read_highest_byte_first(instruction: Instruction)
    requires
        instruction.opcode == Opcode::PushObjectChannelVector,
        instruction.operands@.len() >= 4,
    ensures
        object_channel(instruction) matches Some(hash) && {
            &&& hash as int / 0x100_0000 == instruction.operands@[0]
            &&& hash as int / 0x1_0000 % 0x100 == instruction.operands@[1]
            &&& hash as int / 0x100 % 0x100 == instruction.operands@[2]
            &&& hash as int % 0x100 == instruction.operands@[3]
        },
{
    let operands = instruction.operands@;
    lemma_word_bytes(
        operands[0] as int,
        operands[1] as int,
        operands[2] as int,
        operands[3] as int,
    );
}

#[verifier::spinoff_prover]
proof fn lemma_word_bytes(a: int, b: int, c: int, d: int)
    requires
        0 <= a < 0x100,
        0 <= b < 0x100,
        0 <= c < 0x100,
        0 <= d < 0x100,
    ensures
        ({
            let word = 0x100_0000 * a + 0x1_0000 * b + 0x100 * c + d;
            &&& 0 <= word < 0x1_0000_0000
            &&& word / 0x100_0000 == a
            &&& word / 0x1_0000 % 0x100 == b
            &&& word / 0x100 % 0x100 == c
            &&& word % 0x100 == d
        }),
{
    let word = 0x100_0000 * a + 0x1_0000 * b + 0x100 * c + d;
    assert(word / 0x100 == 0x1_0000 * a + 0x100 * b + c);
    assert(word / 0x1_0000 == 0x100 * a + b);
}

/// Every instruction of an opcode with an operand has it among the operands of the opcode.
pub proof fn law_operands_are_collected(
    program: Seq<Instruction>,
    opcode: Opcode,
    modulus: usize,
    at: int,
)
    requires
        0 <= at < program.len(),
        modulus > 0,
        program[at].opcode == opcode,
        program[at].operands@.len() > 0,
    ensures
        operands_of(program, opcode, modulus).contains(
            (program[at].operands@[0] as int % modulus as int) as usize,
        ),
    decreases program.len(),
{
    let before = operands_of(program.drop_last(), opcode, modulus);
    let value = (program[at].operands@[0] as int % modulus as int) as usize;
    if at < program.len() - 1 {
        law_operands_are_collected(program.drop_last(), opcode, modulus, at);
        let place = choose|i: int| 0 <= i < before.len() && before[i] == value;
        assert(operands_of(program, opcode, modulus)[place] == value);
    } else {
        assert(operands_of(program, opcode, modulus)[before.len() as int] == value);
    }
}

} // verus!
