//! A bus that is nothing but memory.

use vstd::prelude::*;
use crate::m68000::registers::{OpSize, SizedValue};
use crate::m68000::traits::{BusAccess, BusInterface};

verus! {

/// The number of bytes that the 68000's 24 address lines reach.
pub const ADDRESS_SPACE: usize = 0x100_0000;

/// The cell that `address` plus `offset` selects; addresses wrap at 24 bits.
pub open spec fn cell(address: u32, offset: int) -> int {
    (address + offset) % 0x100_0000
}

/// The big-endian value of the `width` bytes of `memory` from `address` on.
pub open spec fn stored(memory: Seq<u8>, address: u32, width: nat) -> int
    decreases width,
{
    if width == 0 {
        0
    } else {
        stored(memory, address, (width - 1) as nat) * 0x100 + memory[cell(address, width - 1)]
    }
}

/// `memory` with the `width` low bytes of `value` placed big-endian from
/// `address` on.
pub open spec fn placed(memory: Seq<u8>, address: u32, width: nat, value: int) -> Seq<u8>
    decreases width,
{
    if width == 0 {
        memory
    } else {
        placed(memory, address, (width - 1) as nat, value / 0x100).update(
            cell(address, width - 1),
            (value % 0x100) as u8,
        )
    }
}

/// The memory of a bus that is nothing but 16 MiB of RAM, zero at first,
/// after everything on record was done to it.
pub open spec fn replayed(accesses: Seq<BusAccess>) -> Seq<u8>
    decreases accesses.len(),
{
    if accesses.len() == 0 {
        Seq::new(0x100_0000, |i: int| 0u8)
    } else {
        match accesses.last() {
            BusAccess::Write { address, value } => placed(
                replayed(accesses.drop_last()),
                address,
                value.size().bytes() as nat,
                value.raw() as int,
            ),
            _ => replayed(accesses.drop_last()),
        }
    }
}

/// `value` is what `memory` holds at `address`, at the value's own width.
pub open spec fn holds(memory: Seq<u8>, address: u32, value: SizedValue) -> bool {
    value.raw() == stored(memory, address, value.size().bytes() as nat)
}

/// Every read on record was answered with what the memory held at the time.
pub open spec fn answered_from_memory(accesses: Seq<BusAccess>) -> bool {
    forall|i: int|
        0 <= i < accesses.len() ==> (#[trigger] accesses[i] matches BusAccess::Read {
            address,
            value,
        } ==> holds(replayed(accesses.take(i)), address, value))
}

/// One more entry on a faithful record leaves it faithful, if the entry is a
/// read that was answered from memory or a write.
proof fn lemma_record_grows(accesses: Seq<BusAccess>, access: BusAccess)
    requires
        answered_from_memory(accesses),
        access matches BusAccess::Read { address, value } ==> holds(
            replayed(accesses),
            address,
            value,
        ),
    ensures
        answered_from_memory(accesses.push(access)),
        replayed(accesses.push(access)) == (match access {
            BusAccess::Write { address, value } => placed(
                replayed(accesses),
                address,
                value.size().bytes() as nat,
                value.raw() as int,
            ),
            _ => replayed(accesses),
        }),
{
    let grown = accesses.push(access);
    assert(grown.drop_last() =~= accesses);
    assert forall|i: int| 0 <= i < grown.len() implies (#[trigger] grown[i] matches BusAccess::Read {
        address,
        value,
    } ==> holds(replayed(grown.take(i)), address, value)) by {
        if i < accesses.len() {
            assert(grown.take(i) =~= accesses.take(i));
            assert(grown[i] == accesses[i]);
        } else {
            assert(grown.take(i) =~= accesses);
        }
    }
}

/// Memory together with the record of what was done to it.
struct RecordedMemory {
    cells: Vec<u8>,
    accesses: Ghost<Seq<BusAccess>>,
}

impl RecordedMemory {
    spec fn wf(self) -> bool {
        &&& self.cells@.len() == 0x100_0000
        &&& self.cells@ == replayed(self.accesses@)
        &&& answered_from_memory(self.accesses@)
    }

    fn cell_at(&self, address: u32, offset: u32) -> (value: u8)
        requires
            self.cells@.len() == 0x100_0000,
            offset < 4,
        ensures
            value == self.cells@[cell(address, offset as int)],
        no_unwind
    {
        self.cells[((address as u64 + offset as u64) % 0x100_0000) as usize]
    }

    fn set_cell(&mut self, address: u32, offset: u32, value: u8)
        requires
            old(self).cells@.len() == 0x100_0000,
            offset < 4,
        ensures
            final(self).cells@ == old(self).cells@.update(cell(address, offset as int), value),
            final(self).accesses == old(self).accesses,
        no_unwind
    {
        let index = ((address as u64 + offset as u64) % 0x100_0000) as usize;
        self.cells[index] = value;
    }

    fn read(&mut self, address: u32, size: OpSize) -> (value: SizedValue)
        requires
            old(self).wf(),
        ensures
            final(self).wf(),
            value.size() == size,
            holds(old(self).cells@, address, value),
            final(self).cells@ == old(self).cells@,
            final(self).accesses@ == old(self).accesses@.push(BusAccess::Read { address, value }),
        no_unwind
    {
        let value = match size {
            OpSize::Byte => {
                proof {
                    reveal_with_fuel(stored, 2);
                }
                SizedValue::Byte(self.cell_at(address, 0))
            },
            OpSize::Word => {
                proof {
                    reveal_with_fuel(stored, 3);
                }
                let high = self.cell_at(address, 0);
                let low = self.cell_at(address, 1);
                SizedValue::Word(high as u16 * 0x100 + low as u16)
            },
            OpSize::LongWord => {
                proof {
                    reveal_with_fuel(stored, 5);
                }
                let b0 = self.cell_at(address, 0);
                let b1 = self.cell_at(address, 1);
                let b2 = self.cell_at(address, 2);
                let b3 = self.cell_at(address, 3);
                SizedValue::LongWord(
                    ((b0 as u32 * 0x100 + b1 as u32) * 0x100 + b2 as u32) * 0x100 + b3 as u32,
                )
            },
        };
        proof {
            lemma_record_grows(self.accesses@, BusAccess::Read { address, value });
            self.accesses@ = self.accesses@.push(BusAccess::Read { address, value });
        }
        value
    }

    fn write(&mut self, address: u32, value: SizedValue)
        requires
            old(self).wf(),
        ensures
            final(self).wf(),
            final(self).cells@ == placed(
                old(self).cells@,
                address,
                value.size().bytes() as nat,
                value.raw() as int,
            ),
            final(self).accesses@ == old(self).accesses@.push(BusAccess::Write { address, value }),
        no_unwind
    {
        match value {
            SizedValue::Byte(byte) => {
                proof {
                    reveal_with_fuel(placed, 2);
                }
                self.set_cell(address, 0, byte);
            },
            SizedValue::Word(word) => {
                proof {
                    reveal_with_fuel(placed, 3);
                }
                self.set_cell(address, 0, (word / 0x100) as u8);
                self.set_cell(address, 1, (word % 0x100) as u8);
            },
            SizedValue::LongWord(long) => {
                proof {
                    reveal_with_fuel(placed, 5);
                }
                self.set_cell(address, 0, (long / 0x100_0000) as u8);
                self.set_cell(address, 1, ((long / 0x1_0000) % 0x100) as u8);
                self.set_cell(address, 2, ((long / 0x100) % 0x100) as u8);
                self.set_cell(address, 3, (long % 0x100) as u8);
            },
        }
        proof {
            lemma_record_grows(self.accesses@, BusAccess::Write { address, value });
            self.accesses@ = self.accesses@.push(BusAccess::Write { address, value });
        }
    }
}

/// 16 MiB of zero-initialised RAM. Addresses wrap at 24 bits, and so do the
/// bytes of a word or long word that starts at the top of memory.
pub struct InMemoryBus {
    memory: RecordedMemory,
}

impl InMemoryBus {
    #[verifier::type_invariant]
    spec fn wf(self) -> bool {
        self.memory.wf()
    }

    /// The 16 MiB of memory, by cell.
    pub closed spec fn memory(&self) -> Seq<u8> {
        self.memory.cells@
    }

    pub fn new() -> (bus: Self)
        ensures
            bus.accesses() == Seq::<BusAccess>::empty(),
            bus.memory() == Seq::new(0x100_0000, |i: int| 0u8),
    {
        let cells: Vec<u8> = vec![0u8; ADDRESS_SPACE];
        proof {
            assert(cells@ =~= replayed(Seq::<BusAccess>::empty()));
        }
        InMemoryBus { memory: RecordedMemory { cells, accesses: Ghost(Seq::empty()) } }
    }

    /// Does nothing when it runs. To a verified caller it shows that the
    /// memory is what the record makes of 16 MiB of zeros and that every read
    /// on record was answered from it.
    pub fn faithful(&self)
        ensures
            self.memory() == replayed(self.accesses()),
            answered_from_memory(self.accesses()),
            self.memory().len() == 0x100_0000,
    {
        proof {
            use_type_invariant(self);
        }
    }
}

impl BusInterface for InMemoryBus {
    closed spec fn accesses(&self) -> Seq<BusAccess> {
        self.memory.accesses@
    }

    fn read_memory(&mut self, address: u32) -> (value: u8)
        ensures
            value == stored(old(self).memory(), address, 1),
            final(self).memory() == old(self).memory(),
    {
        proof {
            use_type_invariant(&*self);
        }
        match self.memory.read(address, OpSize::Byte) {
            SizedValue::Byte(value) => value,
            _ => 0,
        }
    }

    fn read_word(&mut self, address: u32) -> (value: u16)
        ensures
            value == stored(old(self).memory(), address, 2),
            final(self).memory() == old(self).memory(),
    {
        proof {
            use_type_invariant(&*self);
        }
        match self.memory.read(address, OpSize::Word) {
            SizedValue::Word(value) => value,
            _ => 0,
        }
    }

    fn read_long_word(&mut self, address: u32) -> (value: u32)
        ensures
            value == stored(old(self).memory(), address, 4),
            final(self).memory() == old(self).memory(),
    {
        proof {
            use_type_invariant(&*self);
        }
        match self.memory.read(address, OpSize::LongWord) {
            SizedValue::LongWord(value) => value,
            _ => 0,
        }
    }

    fn write_memory(&mut self, address: u32, value: u8)
        ensures
            final(self).memory() == placed(old(self).memory(), address, 1, value as int),
    {
        proof {
            use_type_invariant(&*self);
        }
        self.memory.write(address, SizedValue::Byte(value));
    }

    fn write_word(&mut self, address: u32, value: u16)
        ensures
            final(self).memory() == placed(old(self).memory(), address, 2, value as int),
    {
        proof {
            use_type_invariant(&*self);
        }
        self.memory.write(address, SizedValue::Word(value));
    }

    fn write_long_word(&mut self, address: u32, value: u32)
        ensures
            final(self).memory() == placed(old(self).memory(), address, 4, value as int),
    {
        proof {
            use_type_invariant(&*self);
        }
        self.memory.write(address, SizedValue::LongWord(value));
    }
}

} // verus!
