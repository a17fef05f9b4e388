use vstd::prelude::*;
use crate::bus::Tick;
use crate::bytes::{high, low, stack, word};
use crate::interrupts::Latches;
use crate::pins::Pins;
use crate::status::Flags;

verus! {

/// One bus cycle as the processor ran it.
pub struct Cycle {
    /// The pins as the processor drove them.
    pub sent: Pins,
    /// The pins as the host left them.
    pub back: Pins,
    /// The latches as they stood when the cycle began.
    pub latch: Latches,
    /// Whether interrupt requests were disabled when the lines were sampled.
    pub masked: bool,
}

impl Cycle {
    /// The latches after the interrupt lines were sampled at the end of the cycle.
    pub open spec fn sampled(self) -> Latches {
        self.latch.poll(self.back, self.masked)
    }
}

/// The processor as a mathematical value: its registers, its pins, its interrupt latches,
/// every bus cycle that it has run, and every call that its host has taken.
///
/// What an operation does depends on what the host answers. The operations below
/// therefore take a `log` of bus cycles and read from it, at the position of each cycle
/// they run, what the host left on the pins: the answer to cycle number `k` is
/// `log[k].back`. Nothing else of the log is read.
pub struct State {
    /// The accumulator.
    pub a: u8,
    /// The X index register.
    pub x: u8,
    /// The Y index register.
    pub y: u8,
    /// The program counter.
    pub pc: u16,
    /// The stack pointer, an offset into page one.
    pub s: u8,
    /// The status register.
    pub p: Flags,
    /// The pins as the host left them at the last bus cycle.
    pub pins: Pins,
    /// The number of bus cycles counted.
    pub cycles: nat,
    /// What the processor remembers of its interrupt lines.
    pub latch: Latches,
    /// Every bus cycle run so far, the first one first.
    pub trace: Seq<Cycle>,
    /// Every call that the host has taken, the first one first.
    pub ticks: Seq<Tick>,
}

impl State {
    /// The processor at power-up, on a host that has taken the calls `ticks`.
    pub open spec fn power_up(ticks: Seq<Tick>) -> State {
        State {
            a: 0,
            x: 0,
            y: 0,
            pc: 0,
            s: 0xfd,
            p: Flags::power_up(),
            pins: Pins::idle(),
            cycles: 0,
            latch: Latches::power_up(),
            trace: Seq::empty(),
            ticks,
        }
    }

    /// The number of the next bus cycle.
    pub open spec fn now(self) -> int {
        self.trace.len() as int
    }

    /// The byte on the data bus, which after a read is the byte read.
    pub open spec fn data(self) -> u8 {
        self.pins.data
    }

    /// One bus cycle: the processor drives `sent` and calls the host, once, which leaves
    /// `back`; the cycle is counted and the interrupt lines are sampled.
    pub open spec fn cycle(self, sent: Pins, back: Pins) -> State {
        let cycle = Cycle { sent, back, latch: self.latch, masked: self.p.i };
        State {
            pins: back,
            cycles: self.cycles + 1,
            latch: cycle.sampled(),
            trace: self.trace.push(cycle),
            ticks: self.ticks.push(Tick { sent, back }),
            ..self
        }
    }

    /// A read cycle at `address`.
    pub open spec fn read(self, address: u16, log: Seq<Cycle>) -> State {
        self.cycle(Pins { address, rw: true, ..self.pins }, log[self.now()].back)
    }

    /// A write cycle of `data` to `address`.
    pub open spec fn write(self, address: u16, data: u8, log: Seq<Cycle>) -> State {
        self.cycle(Pins { address, data, rw: false, ..self.pins }, log[self.now()].back)
    }

    /// Reads the low byte at `address` and the high byte at the address after it.
    pub open spec fn read_word(self, address: u16, log: Seq<Cycle>) -> (State, u16) {
        let first = self.read(address, log);
        let second = first.read(address.wrapping_add(1), log);
        (second, word(first.data(), second.data()))
    }

    /// Reads the low byte at `address` and the high byte at the next address in the same
    /// page: the address after the last byte of a page is the page's first.
    pub open spec fn read_word_bugged(self, address: u16, log: Seq<Cycle>) -> (State, u16) {
        let first = self.read(address, log);
        let second = first.read(word(low(address).wrapping_add(1), high(address)), log);
        (second, word(first.data(), second.data()))
    }

    /// Reads the byte at the program counter and steps over it.
    pub open spec fn consume_byte(self, log: Seq<Cycle>) -> State {
        State { pc: self.pc.wrapping_add(1), ..self.read(self.pc, log) }
    }

    /// Reads the word at the program counter and steps over it.
    pub open spec fn consume_word(self, log: Seq<Cycle>) -> (State, u16) {
        let (read, value) = self.read_word(self.pc, log);
        (State { pc: self.pc.wrapping_add(2), ..read }, value)
    }

    /// Reads the byte above the top of the stack and leaves the stack pointer alone.
    pub open spec fn peek(self, log: Seq<Cycle>) -> State {
        self.read(stack(self.s.wrapping_add(1)), log)
    }

    /// Writes `data` at the stack pointer, then moves the pointer down.
    pub open spec fn push(self, data: u8, log: Seq<Cycle>) -> State {
        State { s: self.s.wrapping_sub(1), ..self.write(stack(self.s), data, log) }
    }

    /// Moves the stack pointer up, then reads the byte there.
    pub open spec fn pop(self, log: Seq<Cycle>) -> State {
        State { s: self.s.wrapping_add(1), ..self }.read(stack(self.s.wrapping_add(1)), log)
    }

    /// `after` is `self` exactly `n` bus cycles later, and what holds across every
    /// operation of the processor holds between the two: the cycles that `self` had run are
    /// still there, and so are the calls that the host had taken; each new cycle was counted
    /// and was one call of the host, with the pins of the cycle; and each began
    /// with the latches that the one before it left, so that nothing but the sampling at
    /// the end of each cycle touched the latches.
    pub open spec fn advances(self, after: State, n: nat) -> bool {
        &&& after.now() == self.now() + n
        &&& after.ticks.len() == self.ticks.len() + n
        &&& forall|k: int| 0 <= k < self.ticks.len() ==> #[trigger] after.ticks[k] == self.ticks[k]
        &&& forall|k: int|
            self.now() <= k < after.now() ==> after.ticks[self.ticks.len() + k - self.now()] == (Tick {
                sent: (#[trigger] after.trace[k]).sent,
                back: after.trace[k].back,
            })
        &&& after.cycles == self.cycles + n
        &&& forall|k: int| 0 <= k < self.now() ==> #[trigger] after.trace[k] == self.trace[k]
        &&& n > 0 ==> after.trace[self.now()].latch == self.latch
        &&& forall|j: int, k: int|
            self.now() <= j && k == j + 1 && k < after.now() ==> (#[trigger] after.trace[k]).latch == (
            #[trigger] after.trace[j]).sampled()
        &&& after.latch == if n == 0 {
            self.latch
        } else {
            after.trace[after.now() - 1].sampled()
        }
    }

    /// Cycles add up: if `middle` is `self` some cycles later, and `after` is `middle` some
    /// cycles later, then `after` is `self` as many cycles later as both together.
    pub proof fn lemma_advances_twice(self, middle: State, after: State, n: nat, m: nat)
        requires
            self.advances(middle, n),
            middle.advances(after, m),
        ensures
            self.advances(after, n + m),
    {
        assert forall|j: int, k: int| self.now() <= j && k == j + 1 && k < after.now() implies (
        #[trigger] after.trace[k]).latch == (#[trigger] after.trace[j]).sampled() by {
            if k < middle.now() {
                assert(after.trace[k] == middle.trace[k]);
                assert(after.trace[j] == middle.trace[j]);
            } else if k == middle.now() {
                assert(after.trace[j] == middle.trace[j]);
            }
        }
    }
}

/// Whether `first` and `second` hold the same answers for the bus cycles from `from` up to,
/// not including, `to`.
pub open spec fn same_answers(first: Seq<Cycle>, second: Seq<Cycle>, from: int, to: int) -> bool {
    forall|k: int| from <= k < to ==> (#[trigger] first[k]).back == (#[trigger] second[k]).back
}

} // verus!
