use vstd::prelude::*;
use crate::bus::Bus;
use crate::bytes::{high, low, stack, word};
use crate::interrupts::Interrupts;
use crate::model::{Cycle, State};
use crate::pins::Pins;
use crate::status::Status;

verus! {

/// A MOS 6502 processor on the bus `B`.
pub struct Cpu<B> {
    /// The accumulator.
    pub a: u8,
    /// The X index register.
    pub x: u8,
    /// The Y index register.
    pub y: u8,
    /// The program counter.
    pub pc: u16,
    /// The stack pointer, an offset into page one.
    pub s: u8,
    /// The status register.
    pub p: Status,
    /// The processor's pins, handed to the host at every bus cycle.
    pub pins: Pins,
    /// The number of bus cycles run.
    pub cycles: u64,
    /// What the processor remembers of its interrupt lines.
    pub interrupts: Interrupts,
    /// Every bus cycle run so far.
    pub trace: Ghost<Seq<Cycle>>,
    /// The host.
    pub bus: B,
}

impl<B: Bus> Cpu<B> {
    /// The processor as a mathematical value. Of the host it holds the calls taken.
    pub open spec fn view(&self) -> State {
        State {
            a: self.a,
            x: self.x,
            y: self.y,
            pc: self.pc,
            s: self.s,
            p: self.p@,
            pins: self.pins,
            cycles: self.cycles as nat,
            latch: self.interrupts@,
            trace: self.trace@,
            ticks: self.bus.ticks(),
        }
    }

    /// Constructs a processor in its power-up state, with a reset due.
    pub fn new(bus: B) -> (cpu: Cpu<B>)
        ensures
            cpu@ == State::power_up(bus.ticks()),
            cpu.bus == bus,
    {
        Cpu {
            a: 0,
            x: 0,
            y: 0,
            pc: 0,
            s: 0xfd,
            p: Status::default(),
            pins: Pins::default(),
            cycles: 0,
            interrupts: Interrupts::power_up(),
            trace: Ghost(Seq::empty()),
            bus,
        }
    }

    /// Samples the interrupt lines as the host left them.
    pub(crate) fn poll_interrupts(&mut self)
        ensures
            final(self)@ == (State { latch: old(self)@.latch.poll(old(self).pins, old(self)@.p.i), ..old(self)@ }),
    {
        let masked = self.p.contains(Status::I);
        self.interrupts.poll(&self.pins, masked);
    }

    /// Runs a read cycle at `address` and returns the byte that the host put on the bus.
    pub(crate) fn read_byte(&mut self, address: u16) -> (data: u8)
        requires
            old(self).cycles < u64::MAX,
        ensures
            final(self)@ == old(self)@.read(address, final(self)@.trace),
            old(self)@.advances(final(self)@, 1),
            data == final(self)@.data(),
    {
        self.cycles += 1;

        self.pins.address = address;
        self.pins.rw = true;
        let ghost sent = self.pins;
        let ghost latch = self.interrupts@;
        self.bus.tick(&mut self.pins);

        self.poll_interrupts();
        proof {
            self.trace@ = self.trace@.push(Cycle { sent, back: self.pins, latch, masked: self.p@.i });
        }

        self.pins.data
    }

    /// Runs a write cycle of `data` to `address`.
    pub(crate) fn write_byte(&mut self, address: u16, data: u8)
        requires
            old(self).cycles < u64::MAX,
        ensures
            final(self)@ == old(self)@.write(address, data, final(self)@.trace),
            old(self)@.advances(final(self)@, 1),
    {
        self.cycles += 1;

        self.pins.address = address;
        self.pins.data = data;
        self.pins.rw = false;
        let ghost sent = self.pins;
        let ghost latch = self.interrupts@;
        self.bus.tick(&mut self.pins);

        self.poll_interrupts();
        proof {
            self.trace@ = self.trace@.push(Cycle { sent, back: self.pins, latch, masked: self.p@.i });
        }
    }

    /// Reads the low byte at `address` and the high byte at the address after it.
    pub(crate) fn read_word(&mut self, address: u16) -> (value: u16)
        requires
            old(self).cycles + 2 <= u64::MAX,
        ensures
            final(self)@ == old(self)@.read_word(address, final(self)@.trace).0,
            value == old(self)@.read_word(address, final(self)@.trace).1,
            old(self)@.advances(final(self)@, 2),
    {
        let low = self.read_byte(address);
        let high = self.read_byte(address.wrapping_add(1));
        word(low, high)
    }

    /// Reads the low byte at `address` and the high byte at the next address in the same
    /// page.
    pub(crate) fn read_word_bugged(&mut self, address: u16) -> (value: u16)
        requires
            old(self).cycles + 2 <= u64::MAX,
        ensures
            final(self)@ == old(self)@.read_word_bugged(address, final(self)@.trace).0,
            value == old(self)@.read_word_bugged(address, final(self)@.trace).1,
            old(self)@.advances(final(self)@, 2),
    {
        let first = self.read_byte(address);
        // Reads that would cross a page wrap around in the same page instead.
        let second = self.read_byte(word(low(address).wrapping_add(1), high(address)));
        word(first, second)
    }

    /// Reads the byte at the program counter and steps over it.
    pub(crate) fn consume_byte(&mut self) -> (data: u8)
        requires
            old(self).cycles < u64::MAX,
        ensures
            final(self)@ == old(self)@.consume_byte(final(self)@.trace),
            old(self)@.advances(final(self)@, 1),
            data == final(self)@.data(),
    {
        let data = self.read_byte(self.pc);
        self.pc = self.pc.wrapping_add(1);
        data
    }

    /// Reads the word at the program counter and steps over it.
    pub(crate) fn consume_word(&mut self) -> (value: u16)
        requires
            old(self).cycles + 2 <= u64::MAX,
        ensures
            final(self)@ == old(self)@.consume_word(final(self)@.trace).0,
            value == old(self)@.consume_word(final(self)@.trace).1,
            old(self)@.advances(final(self)@, 2),
    {
        let value = self.read_word(self.pc);
        self.pc = self.pc.wrapping_add(2);
        value
    }

    /// Reads the byte above the top of the stack and leaves the stack pointer alone.
    pub(crate) fn peek(&mut self) -> (data: u8)
        requires
            old(self).cycles < u64::MAX,
        ensures
            final(self)@ == old(self)@.peek(final(self)@.trace),
            old(self)@.advances(final(self)@, 1),
            data == final(self)@.data(),
    {
        self.read_byte(stack(self.s.wrapping_add(1)))
    }

    /// Writes `data` at the stack pointer, then moves the pointer down.
    pub(crate) fn push(&mut self, data: u8)
        requires
            old(self).cycles < u64::MAX,
        ensures
            final(self)@ == old(self)@.push(data, final(self)@.trace),
            old(self)@.advances(final(self)@, 1),
    {
        self.write_byte(stack(self.s), data);
        self.s = self.s.wrapping_sub(1);
    }

    /// Moves the stack pointer up, then reads the byte there.
    pub(crate) fn pop(&mut self) -> (data: u8)
        requires
            old(self).cycles < u64::MAX,
        ensures
            final(self)@ == old(self)@.pop(final(self)@.trace),
            old(self)@.advances(final(self)@, 1),
            data == final(self)@.data(),
    {
        self.s = self.s.wrapping_add(1);
        self.read_byte(stack(self.s))
    }
}

} // verus!
