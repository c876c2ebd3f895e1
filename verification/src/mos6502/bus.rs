//! The bus capability through which the 6502 core reaches the rest of the
//! machine.

use vstd::prelude::*;

verus! {

/// One thing done to a bus: a read with the value that the bus answered with,
/// a write with the value that it was given, or the acknowledgement of a
/// non-maskable interrupt.
#[derive(Debug, Clone, Copy, PartialEq, Eq, Structural)]
pub enum BusAccess {
    Read { address: u16, value: u8 },
    Write { address: u16, value: u8 },
    AcknowledgeNmi,
}

impl BusAccess {
    /// The byte that the access carried; 0 for an acknowledgement.
    pub open spec fn value(self) -> u8 {
        match self {
            BusAccess::Read { value, .. } => value,
            BusAccess::Write { value, .. } => value,
            BusAccess::AcknowledgeNmi => 0,
        }
    }
}

/// Byte access at a 16-bit address, and the two interrupt lines.
///
/// A bus may do anything at all in answer to an access. What an implementation
/// owes is a faithful record, to which each read, each write and each
/// acknowledgement appends exactly one entry, and a non-maskable interrupt line
/// that is low right after it was acknowledged. The record and the levels of
/// the lines are ghosts: an implementation in unverified code leaves them as
/// they are declared here and is trusted to behave as if it kept them.
pub trait BusInterface {
    /// Everything done to the bus so far, oldest first.
    open spec fn accesses(&self) -> Seq<BusAccess> {
        arbitrary()
    }

    /// The level of the non-maskable interrupt line.
    open spec fn nmi_line(&self) -> bool {
        arbitrary()
    }

    /// The level of the interrupt request line.
    open spec fn irq_line(&self) -> bool {
        arbitrary()
    }

    fn read(&mut self, address: u16) -> (value: u8)
        ensures
            final(self).accesses() == old(self).accesses().push(BusAccess::Read { address, value }),
    ;

    fn write(&mut self, address: u16, value: u8)
        ensures
            final(self).accesses() == old(self).accesses().push(BusAccess::Write { address, value }),
    ;

    fn nmi(&self) -> (asserted: bool)
        ensures
            asserted == self.nmi_line(),
    ;

    fn acknowledge_nmi(&mut self)
        ensures
            final(self).accesses() == old(self).accesses().push(BusAccess::AcknowledgeNmi),
            !final(self).nmi_line(),
    ;

    fn irq(&self) -> (asserted: bool)
        ensures
            asserted == self.irq_line(),
    ;
}

/// The memory of a bus that is nothing but 64 KiB of RAM, zero at first,
/// after everything on record was done to it.
pub open spec fn replayed(accesses: Seq<BusAccess>) -> Seq<u8>
    decreases accesses.len(),
{
    if accesses.len() == 0 {
        Seq::new(0x1_0000, |i: int| 0u8)
    } else {
        match accesses.last() {
            BusAccess::Write { address, value } => replayed(accesses.drop_last()).update(
                address as int,
                value,
            ),
            _ => replayed(accesses.drop_last()),
        }
    }
}

/// Every read on record was answered with what the memory held at the time.
pub open spec fn answered_from_memory(accesses: Seq<BusAccess>) -> bool {
    forall|i: int|
        0 <= i < accesses.len() ==> (#[trigger] accesses[i] matches BusAccess::Read {
            address,
            value,
        } ==> value == replayed(accesses.take(i))[address as int])
}

/// Memory together with the record of what was done to it.
struct RecordedMemory {
    cells: Vec<u8>,
    accesses: Ghost<Seq<BusAccess>>,
}

impl RecordedMemory {
    spec fn wf(self) -> bool {
        &&& self.cells@.len() == 0x1_0000
        &&& self.cells@ == replayed(self.accesses@)
        &&& answered_from_memory(self.accesses@)
    }

    fn load(&mut self, address: u16) -> (value: u8)
        requires
            old(self).wf(),
        ensures
            final(self).wf(),
            value == old(self).cells@[address as int],
            final(self).cells@ == old(self).cells@,
            final(self).accesses@ == old(self).accesses@.push(BusAccess::Read { address, value }),
        no_unwind
    {
        let value = self.cells[address as usize];
        proof {
            lemma_record_grows(self.accesses@, BusAccess::Read { address, value });
            self.accesses@ = self.accesses@.push(BusAccess::Read { address, value });
        }
        value
    }

    fn store(&mut self, address: u16, value: u8)
        requires
            old(self).wf(),
        ensures
            final(self).wf(),
            final(self).cells@ == old(self).cells@.update(address as int, value),
            final(self).accesses@ == old(self).accesses@.push(BusAccess::Write { address, value }),
        no_unwind
    {
        self.cells[address as usize] = value;
        proof {
            lemma_record_grows(self.accesses@, BusAccess::Write { address, value });
            self.accesses@ = self.accesses@.push(BusAccess::Write { address, value });
        }
    }

    fn acknowledge(&mut self)
        requires
            old(self).wf(),
        ensures
            final(self).wf(),
            final(self).cells@ == old(self).cells@,
            final(self).accesses@ == old(self).accesses@.push(BusAccess::AcknowledgeNmi),
        no_unwind
    {
        proof {
            lemma_record_grows(self.accesses@, BusAccess::AcknowledgeNmi);
            self.accesses@ = self.accesses@.push(BusAccess::AcknowledgeNmi);
        }
    }
}

/// 64 KiB of zero-initialised RAM with two interrupt lines that the host sets.
pub struct RamBus {
    memory: RecordedMemory,
    nmi: bool,
    irq: bool,
}

/// One more entry on a faithful record leaves it faithful, if the entry is a
/// read that was answered from memory or no read at all.
proof fn lemma_record_grows(accesses: Seq<BusAccess>, access: BusAccess)
    requires
        answered_from_memory(accesses),
        access matches BusAccess::Read { address, value } ==> value == replayed(
            accesses,
        )[address as int],
    ensures
        answered_from_memory(accesses.push(access)),
        replayed(accesses.push(access)) == (match access {
            BusAccess::Write { address, value } => replayed(accesses).update(address as int, value),
            _ => replayed(accesses),
        }),
{
    let grown = accesses.push(access);
    assert(grown.drop_last() =~= accesses);
    assert forall|i: int| 0 <= i < grown.len() implies (#[trigger] grown[i] matches BusAccess::Read {
        address,
        value,
    } ==> value == replayed(grown.take(i))[address as int]) by {
        if i < accesses.len() {
            assert(grown.take(i) =~= accesses.take(i));
            assert(grown[i] == accesses[i]);
        } else {
            assert(grown.take(i) =~= accesses);
        }
    }
}

impl RamBus {
    #[verifier::type_invariant]
    spec fn wf(self) -> bool {
        self.memory.wf()
    }

    /// The 64 KiB of memory, by address.
    pub closed spec fn memory(&self) -> Seq<u8> {
        self.memory.cells@
    }

    /// Does nothing when it runs. To a verified caller it shows that the
    /// memory is what the record makes of 64 KiB of zeros and that every read
    /// on record was answered from it.
    pub fn faithful(&self)
        ensures
            self.memory() == replayed(self.accesses()),
            answered_from_memory(self.accesses()),
            self.memory().len() == 0x1_0000,
    {
        proof {
            use_type_invariant(self);
        }
    }

    pub fn new() -> (bus: Self)
        ensures
            bus.accesses() == Seq::<BusAccess>::empty(),
            bus.memory() == Seq::new(0x1_0000, |i: int| 0u8),
            !bus.nmi_line(),
            !bus.irq_line(),
    {
        let cells: Vec<u8> = vec![0u8; 0x1_0000];
        proof {
            assert(cells@ =~= replayed(Seq::<BusAccess>::empty()));
        }
        RamBus {
            memory: RecordedMemory { cells, accesses: Ghost(Seq::empty()) },
            nmi: false,
            irq: false,
        }
    }

    /// Sets the level of the non-maskable interrupt line.
    pub fn set_nmi(&mut self, asserted: bool)
        ensures
            final(self).nmi_line() == asserted,
            final(self).irq_line() == old(self).irq_line(),
            final(self).memory() == old(self).memory(),
            final(self).accesses() == old(self).accesses(),
    {
        proof {
            use_type_invariant(&*self);
        }
        self.nmi = asserted;
    }

    /// Sets the level of the interrupt request line.
    pub fn set_irq(&mut self, asserted: bool)
        ensures
            final(self).irq_line() == asserted,
            final(self).nmi_line() == old(self).nmi_line(),
            final(self).memory() == old(self).memory(),
            final(self).accesses() == old(self).accesses(),
    {
        proof {
            use_type_invariant(&*self);
        }
        self.irq = asserted;
    }
}

impl BusInterface for RamBus {
    closed spec fn accesses(&self) -> Seq<BusAccess> {
        self.memory.accesses@
    }

    closed spec fn nmi_line(&self) -> bool {
        self.nmi
    }

    closed spec fn irq_line(&self) -> bool {
        self.irq
    }

    fn read(&mut self, address: u16) -> (value: u8)
        ensures
            value == old(self).memory()[address as int],
            final(self).memory() == old(self).memory(),
            final(self).nmi_line() == old(self).nmi_line(),
            final(self).irq_line() == old(self).irq_line(),
    {
        proof {
            use_type_invariant(&*self);
        }
        self.memory.load(address)
    }

    fn write(&mut self, address: u16, value: u8)
        ensures
            final(self).memory() == old(self).memory().update(address as int, value),
            final(self).nmi_line() == old(self).nmi_line(),
            final(self).irq_line() == old(self).irq_line(),
    {
        proof {
            use_type_invariant(&*self);
        }
        self.memory.store(address, value);
    }

    fn nmi(&self) -> (asserted: bool) {
        self.nmi
    }

    fn acknowledge_nmi(&mut self)
        ensures
            final(self).memory() == old(self).memory(),
            final(self).irq_line() == old(self).irq_line(),
    {
        proof {
            use_type_invariant(&*self);
        }
        self.nmi = false;
        self.memory.acknowledge();
    }

    fn irq(&self) -> (asserted: bool) {
        self.irq
    }
}

} // verus!
