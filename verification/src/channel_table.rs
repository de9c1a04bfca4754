//! The table of global channels that shaders read, by position and by number.

use vstd::prelude::*;

use crate::channels::{global_channel_defaults, global_channels, Vec4Bits, ONE_BITS};

verus! {

/// How many channels there are.
pub const CHANNEL_COUNT: usize = 256;

/// The bit pattern of 0.1.
pub const TENTH_BITS: u32 = 0x3dcc_cccd;

/// The bit pattern of 1.5.
pub const ONE_AND_A_HALF_BITS: u32 = 0x3fc0_0000;

/// The channels with their defaults, and the numbers by which the first of them are known.
pub struct GlobalChannelTable {
    pub default_globals: [Vec4Bits; 256],
    pub globals: [Vec4Bits; 256],
    pub global_ids: Vec<u32>,
    pub unk_sequencer_values: [Vec4Bits; 256],
}

/// A channel to set by its number.
#[derive(Clone, Copy, Debug, PartialEq, Eq, Structural)]
pub struct ChannelWrite {
    pub id: u32,
    pub value: Vec4Bits,
}

/// One pattern in all four lanes.
pub open spec fn spread(bits: u32) -> Vec4Bits {
    Vec4Bits { x: bits, y: bits, z: bits, w: bits }
}

fn spread_over(bits: u32) -> (value: Vec4Bits)
    ensures
        value == spread(bits),
{
    Vec4Bits { x: bits, y: bits, z: bits, w: bits }
}

/// The first place of a number among those from `from` on.
pub open spec fn place_of_id(ids: Seq<u32>, id: u32, from: int) -> Option<int>
    decreases ids.len() - from,
{
    if from >= ids.len() {
        None
    } else if ids[from] == id {
        Some(from)
    } else {
        place_of_id(ids, id, from + 1)
    }
}

/// The channels after one is set by its number. A number that is not known, or that stands
/// beyond the table, sets nothing.
pub open spec fn written(channels: Seq<Vec4Bits>, ids: Seq<u32>, write: ChannelWrite) -> Seq<Vec4Bits> {
    match place_of_id(ids, write.id, 0) {
        Some(place) => if place < channels.len() {
            channels.update(place, write.value)
        } else {
            channels
        },
        None => channels,
    }
}

/// The channels after the first `count` writes.
pub open spec fn all_written(
    channels: Seq<Vec4Bits>,
    ids: Seq<u32>,
    writes: Seq<ChannelWrite>,
    count: nat,
) -> Seq<Vec4Bits>
    decreases count,
{
    if count == 0 {
        channels
    } else {
        written(all_written(channels, ids, writes, (count - 1) as nat), ids, writes[count - 1])
    }
}

/// The channels that the current era sets before anything else does.
pub open spec fn initial_writes() -> Seq<ChannelWrite> {
    seq![
        ChannelWrite { id: 0x2c53_8179, value: spread(TENTH_BITS) },
        ChannelWrite { id: 0x2e53_8442, value: spread(ONE_BITS) },
        ChannelWrite { id: 0x2e53_8443, value: spread(ONE_BITS) },
        ChannelWrite { id: 0x2e53_8440, value: spread(ONE_BITS) },
        ChannelWrite { id: 0x2e53_8441, value: spread(ONE_BITS) },
        ChannelWrite { id: 0x2e53_8446, value: spread(ONE_BITS) },
        ChannelWrite { id: 0x2e53_8447, value: spread(ONE_BITS) },
        ChannelWrite { id: 0x2e53_8444, value: spread(ONE_BITS) },
        ChannelWrite { id: 0x2e53_8445, value: spread(ONE_BITS) },
        ChannelWrite { id: 0x2e53_844a, value: spread(ONE_BITS) },
        ChannelWrite { id: 0x2e53_844b, value: spread(ONE_BITS) },
        ChannelWrite { id: 0x2e53_8441, value: spread(0) },
        ChannelWrite { id: 0x2c53_817d, value: spread(ONE_BITS) },
        ChannelWrite { id: 0x2c53_817e, value: spread(ONE_BITS) },
        ChannelWrite { id: 0xcf70_ac7c, value: Vec4Bits { x: ONE_AND_A_HALF_BITS, y: 0, z: 0, w: 0 } },
        ChannelWrite { id: 0xcf70_ac7c, value: spread(0) },
        ChannelWrite { id: 0xeca8_687f, value: spread(ONE_BITS) },
        ChannelWrite { id: 0x8f55_2b79, value: spread(TENTH_BITS) },
    ]
}

fn list_initial_writes() -> (writes: Vec<ChannelWrite>)
    ensures
        writes@ == initial_writes(),
{
    let writes: Vec<ChannelWrite> = vec![
        ChannelWrite { id: 0x2c53_8179, value: spread_over(TENTH_BITS) },
        ChannelWrite { id: 0x2e53_8442, value: spread_over(ONE_BITS) },
        ChannelWrite { id: 0x2e53_8443, value: spread_over(ONE_BITS) },
        ChannelWrite { id: 0x2e53_8440, value: spread_over(ONE_BITS) },
        ChannelWrite { id: 0x2e53_8441, value: spread_over(ONE_BITS) },
        ChannelWrite { id: 0x2e53_8446, value: spread_over(ONE_BITS) },
        ChannelWrite { id: 0x2e53_8447, value: spread_over(ONE_BITS) },
        ChannelWrite { id: 0x2e53_8444, value: spread_over(ONE_BITS) },
        ChannelWrite { id: 0x2e53_8445, value: spread_over(ONE_BITS) },
        ChannelWrite { id: 0x2e53_844a, value: spread_over(ONE_BITS) },
        ChannelWrite { id: 0x2e53_844b, value: spread_over(ONE_BITS) },
        ChannelWrite { id: 0x2e53_8441, value: spread_over(0) },
        ChannelWrite { id: 0x2c53_817d, value: spread_over(ONE_BITS) },
        ChannelWrite { id: 0x2c53_817e, value: spread_over(ONE_BITS) },
        ChannelWrite { id: 0xcf70_ac7c, value: Vec4Bits { x: ONE_AND_A_HALF_BITS, y: 0, z: 0, w: 0 } },
        ChannelWrite { id: 0xcf70_ac7c, value: spread_over(0) },
        ChannelWrite { id: 0xeca8_687f, value: spread_over(ONE_BITS) },
        ChannelWrite { id: 0x8f55_2b79, value: spread_over(TENTH_BITS) },
    ];
    assert(writes@ =~= initial_writes());
    writes
}

/// The defaults of a package, and ones where it gives none.
pub open spec fn filled(defaults: Seq<Vec4Bits>) -> Seq<Vec4Bits> {
    Seq::new(
        CHANNEL_COUNT as nat,
        |i: int|
            if i < defaults.len() {
                defaults[i]
            } else {
                spread(ONE_BITS)
            },
    )
}

fn fill(defaults: &[Vec4Bits]) -> (channels: [Vec4Bits; 256])
    requires
        defaults@.len() <= CHANNEL_COUNT,
    ensures
        channels@ == filled(defaults@),
{
    let mut channels: [Vec4Bits; 256] = [spread_over(ONE_BITS); 256];
    let mut i: usize = 0;
    while i < defaults.len()
        invariant
            i <= defaults@.len() <= CHANNEL_COUNT,
            forall|k: int| 0 <= k < i ==> #[trigger] channels@[k] == defaults@[k],
            forall|k: int| i <= k < CHANNEL_COUNT ==> #[trigger] channels@[k] == spread(ONE_BITS),
        decreases defaults@.len() - i,
    {
        channels[i] = defaults[i];
        i += 1;
    }
    assert(channels@ =~= filled(defaults@));
    channels
}

impl GlobalChannelTable {
    /// The sequencer values are all zero.
    pub open spec fn sequencer_is_clear(self) -> bool {
        self.unk_sequencer_values@ == Seq::new(CHANNEL_COUNT as nat, |i: int| spread(0))
    }

    fn from_global_channels(default_globals: [Vec4Bits; 256], global_ids: Vec<u32>) -> (table:
        GlobalChannelTable)
        ensures
            table.globals@ == default_globals@,
            table.default_globals@ == default_globals@,
            table.global_ids@ == global_ids@,
            table.sequencer_is_clear(),
    {
        let table = GlobalChannelTable {
            globals: default_globals,
            default_globals,
            global_ids,
            unk_sequencer_values: [spread_over(0); 256],
        };
        assert(table.unk_sequencer_values@ =~= Seq::new(
            CHANNEL_COUNT as nat,
            |i: int| spread(0),
        ));
        table
    }

    /// The table of the current era.
    pub fn new(default_values: &[Vec4Bits], channel_ids: Vec<u32>) -> (table: GlobalChannelTable)
        requires
            default_values@.len() <= CHANNEL_COUNT,
        ensures
            table.globals@ == all_written(
                filled(default_values@),
                channel_ids@,
                initial_writes(),
                initial_writes().len(),
            ),
            table.default_globals@ == table.globals@,
            table.global_ids@ == channel_ids@,
            table.sequencer_is_clear(),
    {
        let mut table = GlobalChannelTable::from_global_channels(fill(default_values), channel_ids);
        let writes = list_initial_writes();
        let mut i: usize = 0;
        while i < writes.len()
            invariant
                i <= writes@.len(),
                writes@ == initial_writes(),
                table.globals@ == all_written(
                    filled(default_values@),
                    channel_ids@,
                    initial_writes(),
                    i as nat,
                ),
                table.global_ids@ == channel_ids@,
                table.sequencer_is_clear(),
            decreases writes@.len() - i,
        {
            table.set_global_channel_by_id(writes[i].id, writes[i].value);
            i += 1;
        }
        table.default_globals = table.globals;
        table
    }

    /// The table of the preserved era: its channels are known by position alone.
    pub fn new_shadowkeep() -> (table: GlobalChannelTable)
        ensures
            table.globals@ == global_channels(),
            table.default_globals@ == global_channels(),
            table.global_ids@.len() == 0,
            table.sequencer_is_clear(),
    {
        GlobalChannelTable::from_global_channels(global_channel_defaults(), Vec::new())
    }

    /// Sets a channel by its number.
    pub fn set_global_channel_by_id(&mut self, id: u32, value: Vec4Bits)
        ensures
            final(self).globals@ == written(
                old(self).globals@,
                old(self).global_ids@,
                (ChannelWrite { id, value }),
            ),
            final(self).default_globals == old(self).default_globals,
            final(self).global_ids == old(self).global_ids,
            final(self).unk_sequencer_values == old(self).unk_sequencer_values,
    {
        let mut i: usize = 0;
        while i < self.global_ids.len()
            invariant
                *self == *old(self),
                i <= self.global_ids@.len(),
                place_of_id(self.global_ids@, id, 0) == place_of_id(self.global_ids@, id, i as int),
            decreases self.global_ids@.len() - i,
        {
            if self.global_ids[i] == id {
                if i < CHANNEL_COUNT {
                    self.globals[i] = value;
                }
                return;
            }
            i += 1;
        }
    }

    /// The channel at a position.
    pub fn get_global_channel_by_index(&self, index: usize) -> (value: Option<Vec4Bits>)
        ensures
            value == if index < CHANNEL_COUNT {
                Some(self.globals@[index as int])
            } else {
                None
            },
    {
        if index < CHANNEL_COUNT {
            Some(self.globals[index])
        } else {
            None
        }
    }

    /// Sets the channel at a position, and gives back what it was.
    pub fn set_global_channel_by_index(&mut self, index: usize, value: Vec4Bits) -> (previous: Option<
        Vec4Bits,
    >)
        ensures
            previous == if index < CHANNEL_COUNT {
                Some(old(self).globals@[index as int])
            } else {
                None
            },
            final(self).globals@ == if index < CHANNEL_COUNT {
                old(self).globals@.update(index as int, value)
            } else {
                old(self).globals@
            },
            final(self).default_globals == old(self).default_globals,
            final(self).global_ids == old(self).global_ids,
            final(self).unk_sequencer_values == old(self).unk_sequencer_values,
    {
        if index < CHANNEL_COUNT {
            let previous = self.globals[index];
            self.globals[index] = value;
            assert(self.globals@ =~= old(self).globals@.update(index as int, value));
            Some(previous)
        } else {
            None
        }
    }
}

/// The preserved table knows no numbers, so none of them sets a channel.
pub proof fn law_preserved_channels_have_no_numbers(channels: Seq<Vec4Bits>, write: ChannelWrite)
    ensures
        written(channels, Seq::empty(), write) == channels,
{
}

/// A channel that is written by its id reads back what was written, and no other channel changes.
/// Where two channels have the id, the first is written.
pub proof fn law_written_channels_read_back(
    channels: Seq<Vec4Bits>,
    ids: Seq<u32>,
    write: ChannelWrite,
    at: int,
)
    requires
        0 <= at < channels.len(),
    ensures
        written(channels, ids, write).len() == channels.len(),
        at < ids.len() && ids[at] == write.id && (forall|i: int|
            0 <= i < at ==> #[trigger] ids[i] != write.id) ==> written(channels, ids, write)[at]
            == write.value,
        at >= ids.len() || ids[at] != write.id ==> written(channels, ids, write)[at]
            == channels[at],
{
    lemma_place_of_id(ids, write.id, 0);
}

proof fn lemma_place_of_id(ids: Seq<u32>, id: u32, from: int)
    requires
        0 <= from,
    ensures
        match place_of_id(ids, id, from) {
            Some(at) => {
                &&& from <= at < ids.len()
                &&& ids[at] == id
                &&& forall|i: int| from <= i < at ==> #[trigger] ids[i] != id
            },
            None => forall|i: int| from <= i < ids.len() ==> #[trigger] ids[i] != id,
        },
    decreases ids.len() - from,
{
    if from < ids.len() && ids[from] != id {
        lemma_place_of_id(ids, id, from + 1);
    }
}

/// A channel starts from its default, or from one where the defaults end.
pub proof fn law_channels_start_from_their_default(defaults: Seq<Vec4Bits>, at: int)
    requires
        0 <= at < CHANNEL_COUNT,
    ensures
        filled(defaults).len() == CHANNEL_COUNT,
        at < defaults.len() ==> filled(defaults)[at] == defaults[at],
        at >= defaults.len() ==> filled(defaults)[at] == (Vec4Bits {
            x: 0x3f80_0000,
            y: 0x3f80_0000,
            z: 0x3f80_0000,
            w: 0x3f80_0000,
        }),
{
}

/// The channels that are set from the start, in the order in which they are set: a later write to
/// the same channel counts.
pub proof fn law_channels_are_set_from_the_start()
    ensures
        initial_writes().len() == 18,
        initial_writes()[0].id == 0x2c53_8179,
        initial_writes()[0].value == (Vec4Bits { x: 0x3dcc_cccd, y: 0x3dcc_cccd, z: 0x3dcc_cccd, w: 0x3dcc_cccd }),
        initial_writes()[1].id == 0x2e53_8442,
        initial_writes()[1].value == (Vec4Bits { x: 0x3f80_0000, y: 0x3f80_0000, z: 0x3f80_0000, w: 0x3f80_0000 }),
        initial_writes()[2].id == 0x2e53_8443,
        initial_writes()[2].value == (Vec4Bits { x: 0x3f80_0000, y: 0x3f80_0000, z: 0x3f80_0000, w: 0x3f80_0000 }),
        initial_writes()[3].id == 0x2e53_8440,
        initial_writes()[3].value == (Vec4Bits { x: 0x3f80_0000, y: 0x3f80_0000, z: 0x3f80_0000, w: 0x3f80_0000 }),
        initial_writes()[4].id == 0x2e53_8441,
        initial_writes()[4].value == (Vec4Bits { x: 0x3f80_0000, y: 0x3f80_0000, z: 0x3f80_0000, w: 0x3f80_0000 }),
        initial_writes()[5].id == 0x2e53_8446,
        initial_writes()[5].value == (Vec4Bits { x: 0x3f80_0000, y: 0x3f80_0000, z: 0x3f80_0000, w: 0x3f80_0000 }),
        initial_writes()[6].id == 0x2e53_8447,
        initial_writes()[6].value == (Vec4Bits { x: 0x3f80_0000, y: 0x3f80_0000, z: 0x3f80_0000, w: 0x3f80_0000 }),
        initial_writes()[7].id == 0x2e53_8444,
        initial_writes()[7].value == (Vec4Bits { x: 0x3f80_0000, y: 0x3f80_0000, z: 0x3f80_0000, w: 0x3f80_0000 }),
        initial_writes()[8].id == 0x2e53_8445,
        initial_writes()[8].value == (Vec4Bits { x: 0x3f80_0000, y: 0x3f80_0000, z: 0x3f80_0000, w: 0x3f80_0000 }),
        initial_writes()[9].id == 0x2e53_844a,
        initial_writes()[9].value == (Vec4Bits { x: 0x3f80_0000, y: 0x3f80_0000, z: 0x3f80_0000, w: 0x3f80_0000 }),
        initial_writes()[10].id == 0x2e53_844b,
        initial_writes()[10].value == (Vec4Bits { x: 0x3f80_0000, y: 0x3f80_0000, z: 0x3f80_0000, w: 0x3f80_0000 }),
        initial_writes()[11].id == 0x2e53_8441,
        initial_writes()[11].value == (Vec4Bits { x: 0, y: 0, z: 0, w: 0 }),
        initial_writes()[12].id == 0x2c53_817d,
        initial_writes()[12].value == (Vec4Bits { x: 0x3f80_0000, y: 0x3f80_0000, z: 0x3f80_0000, w: 0x3f80_0000 }),
        initial_writes()[13].id == 0x2c53_817e,
        initial_writes()[13].value == (Vec4Bits { x: 0x3f80_0000, y: 0x3f80_0000, z: 0x3f80_0000, w: 0x3f80_0000 }),
        initial_writes()[14].id == 0xcf70_ac7c,
        initial_writes()[14].value == (Vec4Bits { x: 0x3fc0_0000, y: 0, z: 0, w: 0 }),
        initial_writes()[15].id == 0xcf70_ac7c,
        initial_writes()[15].value == (Vec4Bits { x: 0, y: 0, z: 0, w: 0 }),
        initial_writes()[16].id == 0xeca8_687f,
        initial_writes()[16].value == (Vec4Bits { x: 0x3f80_0000, y: 0x3f80_0000, z: 0x3f80_0000, w: 0x3f80_0000 }),
        initial_writes()[17].id == 0x8f55_2b79,
        initial_writes()[17].value == (Vec4Bits { x: 0x3dcc_cccd, y: 0x3dcc_cccd, z: 0x3dcc_cccd, w: 0x3dcc_cccd }),
{
}

} // verus!
