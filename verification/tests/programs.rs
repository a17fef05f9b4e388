use bog::{Bus, Cpu, Pins};

/// The address that writes to drive the interrupt lines in `Feedback`.
const FEEDBACK_REGISTER: u16 = 0xbffc;
const IRQ_MASK: u8 = 0x01;
const NMI_MASK: u8 = 0x02;

/// A host that is 64 KiB of memory.
struct Memory {
    memory: Vec<u8>,
}

impl Bus for Memory {
    fn tick(&mut self, pins: &mut Pins) {
        match pins.rw {
            true => pins.data = self.memory[pins.address as usize],
            false => self.memory[pins.address as usize] = pins.data,
        }
    }
}

/// A host that is 64 KiB of memory, in which a write to the feedback register drives the
/// interrupt lines: bit 0 is the level of the IRQ line, and a rise of bit 1 raises the NMI
/// line.
struct Feedback {
    memory: Vec<u8>,
}

impl Bus for Feedback {
    fn tick(&mut self, pins: &mut Pins) {
        match pins.rw {
            true => pins.data = self.memory[pins.address as usize],
            false => {
                if pins.address == FEEDBACK_REGISTER {
                    let old_data = self.memory[pins.address as usize];
                    let prev_nmi = old_data & NMI_MASK != 0;
                    let new_nmi = pins.data & NMI_MASK != 0;

                    pins.irq = pins.data & IRQ_MASK != 0;
                    pins.nmi = !prev_nmi && new_nmi;
                }

                self.memory[pins.address as usize] = pins.data;
            }
        }
    }
}

/// A host that is 64 KiB of memory and leaves the address and direction pins changed
/// after every cycle.
struct Scribbler {
    memory: Vec<u8>,
}

impl Bus for Scribbler {
    fn tick(&mut self, pins: &mut Pins) {
        match pins.rw {
            true => pins.data = self.memory[pins.address as usize],
            false => self.memory[pins.address as usize] = pins.data,
        }
        pins.address = !pins.address;
        pins.rw = !pins.rw;
    }
}

/// A memory image with `parts` at their addresses and the reset vector at 0x0400.
fn image(parts: &[(u16, &[u8])]) -> Vec<u8> {
    let mut memory = vec![0; 0x10000];
    for (origin, bytes) in parts {
        for (offset, byte) in bytes.iter().enumerate() {
            memory[*origin as usize + offset] = *byte;
        }
    }
    memory[0xfffc] = 0x00;
    memory[0xfffd] = 0x04;
    memory
}

/// Steps the processor until an instruction leaves the program counter where it was, and
/// returns that address.
fn run_to_trap<B: Bus>(cpu: &mut Cpu<B>) -> u16 {
    cpu.step();
    assert_eq!(cpu.pc, 0x0400);
    let mut prev_pc = cpu.pc;
    for _ in 0..10_000 {
        cpu.step();
        if prev_pc == cpu.pc {
            return cpu.pc;
        }
        prev_pc = cpu.pc;
    }
    panic!("the program did not come to an end");
}

#[test]
fn self_checking_program_reaches_its_end() {
    let memory = image(&[
        (
            0x0400,
            &[
                0xa2, 0x0a, // LDX #$0A
                0xa9, 0x00, // LDA #$00
                0x18, // CLC
                0x86, 0x10, // STX $10
                0x65, 0x10, // ADC $10
                0xca, // DEX
                0xd0, 0xf9, // BNE $0405
                0x8d, 0x00, 0x30, // STA $3000
                0x20, 0x20, 0x04, // JSR $0420
                0xc9, 0x6e, // CMP #$6E
                0xd0, 0xfe, // BNE *
                0x4c, 0x6d, 0x33, // JMP $336D
            ],
        ),
        (0x0420, &[0x0a, 0x60]),
        (0x336d, &[0x4c, 0x6d, 0x33]),
    ]);
    let mut cpu = Cpu::new(Memory { memory });
    cpu.pc = 0x0400;
    assert_eq!(run_to_trap(&mut cpu), 0x336d);
    assert_eq!(cpu.bus.memory[0x3000], 0x37);
    assert_eq!(cpu.a, 0x6e);
    assert_eq!(cpu.x, 0x00);
    assert_eq!(cpu.s, 0xfa);
}

#[test]
fn failing_check_traps_where_it_fails() {
    let memory = image(&[(0x0400, &[0xa9, 0x01, 0xc9, 0x02, 0xd0, 0xfe, 0x4c, 0x6d, 0x33]), (0x336d, &[0x4c, 0x6d, 0x33])]);
    let mut cpu = Cpu::new(Memory { memory });
    assert_eq!(run_to_trap(&mut cpu), 0x0404);
}

#[test]
fn feedback_register_drives_the_interrupt_lines() {
    let mut memory = image(&[
        (
            0x0400,
            &[
                0x58, // CLI
                0xa9, 0x01, // LDA #$01
                0x8d, 0xfc, 0xbf, // STA $BFFC
                0xea, // NOP
                0xa5, 0x20, // LDA $20
                0xc9, 0x01, // CMP #$01
                0xd0, 0xfe, // BNE *
                0xa9, 0x02, // LDA #$02
                0x8d, 0xfc, 0xbf, // STA $BFFC
                0xea, // NOP
                0xa5, 0x21, // LDA $21
                0xc9, 0x01, // CMP #$01
                0xd0, 0xfe, // BNE *
                0x4c, 0xf5, 0x06, // JMP $06F5
            ],
        ),
        (0x0500, &[0xe6, 0x20, 0xa9, 0x00, 0x8d, 0xfc, 0xbf, 0x40]),
        (0x0600, &[0xe6, 0x21, 0x40]),
        (0x06f5, &[0x4c, 0xf5, 0x06]),
    ]);
    memory[0xfffa] = 0x00;
    memory[0xfffb] = 0x06;
    memory[0xfffe] = 0x00;
    memory[0xffff] = 0x05;
    let mut cpu = Cpu::new(Feedback { memory });
    cpu.pc = 0x0400;
    assert_eq!(run_to_trap(&mut cpu), 0x06f5);
    assert_eq!(cpu.bus.memory[0x0020], 0x01);
    assert_eq!(cpu.bus.memory[0x0021], 0x01);
    assert_eq!(cpu.s, 0xfa);
}

#[test]
fn host_may_leave_the_address_and_direction_pins_changed() {
    let memory = image(&[
        (0x0400, &[0xa9, 0x12, 0x8d, 0x00, 0x30, 0xee, 0x00, 0x30, 0x48, 0x68, 0x4c, 0x6d, 0x33]),
        (0x336d, &[0x4c, 0x6d, 0x33]),
    ]);
    let mut cpu = Cpu::new(Scribbler { memory });
    assert_eq!(run_to_trap(&mut cpu), 0x336d);
    assert_eq!(cpu.bus.memory[0x3000], 0x13);
    assert_eq!(cpu.a, 0x12);
    assert_eq!(cpu.cycles, 7 + 2 + 4 + 6 + 3 + 4 + 3 + 3);
}
