use vstd::prelude::*;
use crate::addressing::{addressable, ACCUMULATOR};
use crate::alu::{modified, modifies};
use crate::bus::Bus;
use crate::bytes::{high, low, word};
use crate::cpu::Cpu;
use crate::model::{Cycle, State};

verus! {

impl State {
    /// Resolves the address of an instruction that writes, and writes `value` there.
    pub open spec fn store(self, mode: u8, value: u8, log: Seq<Cycle>) -> State {
        let (resolved, address) = self.resolve(mode, true, log);
        resolved.write(address, value, log)
    }

    /// The number of bus cycles that `store` and `store_high` run.
    pub open spec fn store_cycles(self, mode: u8, log: Seq<Cycle>) -> nat {
        self.resolve_cycles(mode, true, log) + 1
    }

    /// The store of the unstable instructions: `value` is first ANDed with the high byte of
    /// the address plus one, and the result is both the byte written and the high byte of
    /// the address it is written to.
    pub open spec fn store_high(self, mode: u8, value: u8, log: Seq<Cycle>) -> State {
        let (resolved, address) = self.resolve(mode, true, log);
        let masked = value & high(address).wrapping_add(1);
        resolved.write(word(low(address), masked), masked, log)
    }

    /// Reads a byte, writes it back as it is, modifies it in the way of `kind` and writes
    /// the result; in accumulator mode, modifies A after an idle read at the program
    /// counter. Returns the state after and the result.
    #[verifier::opaque]
    pub open spec fn read_modify_write(self, mode: u8, kind: u8, log: Seq<Cycle>) -> (State, u8) {
        if mode == ACCUMULATOR {
            let idle = self.read(self.pc, log);
            let result = modified(kind, idle.a, idle.p.c);
            (State { a: result, ..idle.modify(kind, idle.a) }, result)
        } else {
            let (resolved, address) = self.resolve(mode, true, log);
            let read = resolved.read(address, log);
            let value = read.data();
            let unchanged = read.write(address, value, log);
            let result = modified(kind, value, unchanged.p.c);
            (unchanged.modify(kind, value).write(address, result, log), result)
        }
    }

    /// The number of bus cycles that `read_modify_write` runs.
    pub open spec fn read_modify_write_cycles(self, mode: u8, log: Seq<Cycle>) -> nat {
        if mode == ACCUMULATOR {
            1
        } else {
            self.resolve_cycles(mode, true, log) + 3
        }
    }
}

impl<B: Bus> Cpu<B> {
    /// Resolves the address of an instruction in mode `M` that writes, and writes `value`
    /// there.
    pub(crate) fn store<const M: u8>(&mut self, value: u8)
        requires
            addressable(M),
            old(self).cycles + 5 <= u64::MAX,
        ensures
            final(self)@ == old(self)@.store(M, value, final(self)@.trace),
            old(self)@.advances(final(self)@, old(self)@.store_cycles(M, final(self)@.trace)),
    {
        let effective_address = self.effective_address::<M, true>();
        let ghost resolved = self@;
        self.write_byte(effective_address, value);
        proof {
            old(self)@.lemma_resolve_reads(M, true, resolved.trace, self@.trace);
        }
    }

    /// The store of the unstable instructions, in mode `M`.
    pub(crate) fn store_high<const M: u8>(&mut self, value: u8)
        requires
            addressable(M),
            old(self).cycles + 5 <= u64::MAX,
        ensures
            final(self)@ == old(self)@.store_high(M, value, final(self)@.trace),
            old(self)@.advances(final(self)@, old(self)@.store_cycles(M, final(self)@.trace)),
    {
        let effective_address = self.effective_address::<M, true>();
        let ghost resolved = self@;

        let value = value & high(effective_address).wrapping_add(1);

        self.write_byte(word(low(effective_address), value), value);
        proof {
            old(self)@.lemma_resolve_reads(M, true, resolved.trace, self@.trace);
        }
    }

    /// Reads a byte, modifies it in the way of `I` and writes it back, in mode `M`.
    /// Returns the result.
    pub(crate) fn read_modify_write<const M: u8, const I: u8>(&mut self) -> (result: u8)
        requires
            M == ACCUMULATOR || addressable(M),
            modifies(I),
            old(self).cycles + 7 <= u64::MAX,
        ensures
            final(self)@ == old(self)@.read_modify_write(M, I, final(self)@.trace).0,
            result == old(self)@.read_modify_write(M, I, final(self)@.trace).1,
            old(self)@.advances(final(self)@, old(self)@.read_modify_write_cycles(M, final(self)@.trace)),
    {
        proof {
            reveal(State::read_modify_write);
        }
        if M == ACCUMULATOR {
            self.read_byte(self.pc);
            self.a = self.modify::<I>(self.a);
            self.a
        } else {
            // The address is resolved as for a write, which has the right cycle count.
            let effective_address = self.effective_address::<M, true>();
            let ghost resolved = self@;
            let value = self.read_byte(effective_address);
            let ghost read = self@;

            // It takes a cycle to modify the value, and in that cycle the value is
            // written back as it was.
            self.write_byte(effective_address, value);
            let ghost unchanged = self@;

            let result = self.modify::<I>(value);

            self.write_byte(effective_address, result);
            proof {
                let log = self@.trace;
                old(self)@.lemma_resolve_reads(M, true, resolved.trace, log);
                assert(read == resolved.read(effective_address, log));
                assert(unchanged == read.write(effective_address, value, log));
            }

            result
        }
    }
}

} // verus!
