//! The register bus: two-byte `(register, value)` writes to one fixed
//! peripheral address, queued in the order they were issued.

use vstd::prelude::*;

verus! {

/// Seven-bit address of the expansion board that holds every register.
pub const I2C_ADDR: u8 = 0x30;

/// One write of `value` into register `reg` of the expansion board.
#[derive(Clone, Copy, Debug, PartialEq, Eq, Structural)]
pub struct RegisterWrite {
    pub reg: u8,
    pub value: u8,
}

/// One transaction on the wire: the peripheral it addresses and the two
/// bytes it carries.
#[derive(Clone, Copy, Debug, PartialEq, Eq)]
pub struct Transaction {
    pub address: u8,
    pub payload: [u8; 2],
}

impl RegisterWrite {
    /// The bytes that go over the wire for this write: register first, then value.
    pub open spec fn wire(self) -> Seq<u8> {
        seq![self.reg, self.value]
    }

    /// Serializes the write. Every write goes to the same peripheral, as a
    /// payload of exactly two bytes.
    pub fn transaction(&self) -> (t: Transaction)
        ensures
            t.address == I2C_ADDR,
            t.payload@ == self.wire(),
    {
        let payload: [u8; 2] = [self.reg, self.value];
        assert(payload@ =~= self.wire());
        Transaction { address: I2C_ADDR, payload }
    }
}

/// The value most recently written to `reg` by `writes`, or `None` when no
/// write in the sequence addresses that register.
pub open spec fn last_write(writes: Seq<RegisterWrite>, reg: u8) -> Option<u8>
    decreases writes.len(),
{
    if writes.len() == 0 {
        None
    } else if writes.last().reg == reg {
        Some(writes.last().value)
    } else {
        last_write(writes.drop_last(), reg)
    }
}

/// Appending one write decides its own register and leaves every other
/// register as it was.
pub proof fn lemma_last_write_push(writes: Seq<RegisterWrite>, w: RegisterWrite, reg: u8)
    ensures
        last_write(writes.push(w), reg) == if w.reg == reg {
            Some(w.value)
        } else {
            last_write(writes, reg)
        },
{
    assert(writes.push(w).last() == w);
    assert(writes.push(w).drop_last() =~= writes);
}

/// Handle to the serial bus. It owns the queue of writes that have been issued
/// and not yet handed to the transport; the view is that queue, oldest first.
pub struct CarI2c {
    pending: Vec<RegisterWrite>,
}

impl View for CarI2c {
    type V = Seq<RegisterWrite>;

    closed spec fn view(&self) -> Seq<RegisterWrite> {
        self.pending@
    }
}

impl CarI2c {
    /// A bus with nothing queued.
    pub fn new() -> (bus: Self)
        ensures
            bus@ == Seq::<RegisterWrite>::empty(),
    {
        CarI2c { pending: Vec::new() }
    }

    /// The queued writes, oldest first.
    pub fn pending(&self) -> (writes: &Vec<RegisterWrite>)
        ensures
            writes@ == self@,
    {
        &self.pending
    }

    /// Hands the queued writes to the caller for transmission and empties the queue.
    pub fn take_pending(&mut self) -> (writes: Vec<RegisterWrite>)
        ensures
            writes@ == old(self)@,
            final(self)@ == Seq::<RegisterWrite>::empty(),
    {
        let mut writes: Vec<RegisterWrite> = Vec::new();
        std::mem::swap(&mut self.pending, &mut writes);
        writes
    }

    /// The value the queue leaves in `reg`, if any queued write addresses it.
    pub fn last_written(&self, reg: u8) -> (value: Option<u8>)
        ensures
            value == last_write(self@, reg),
    {
        let mut i: usize = self.pending.len();
        assert(self@.take(i as int) =~= self@);
        while i > 0
            invariant
                i <= self.pending.len(),
                last_write(self@, reg) == last_write(self@.take(i as int), reg),
            decreases i,
        {
            let w = self.pending[i - 1];
            proof {
                let prefix = self@.take(i as int);
                assert(prefix.last() == w);
                assert(prefix.drop_last() =~= self@.take(i - 1));
            }
            if w.reg == reg {
                return Some(w.value);
            }
            i = i - 1;
        }
        proof {
            assert(self@.take(0).len() == 0);
        }
        None
    }
}

/// Queues one register write. The call has no failure channel: a write that
/// the transport later drops is simply re-asserted by the next command.
pub fn write_reg(i2c: &mut CarI2c, reg: u8, value: u8)
    ensures
        final(i2c)@ == old(i2c)@.push(RegisterWrite { reg, value }),
{
    i2c.pending.push(RegisterWrite { reg, value });
}

} // verus!
