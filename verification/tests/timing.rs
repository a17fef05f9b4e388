use bog::{Bus, Cpu, Flag, Pins, Status};

/// A host that is 64 KiB of memory and keeps a record of every bus cycle: the address,
/// the byte on the data bus at the end of the cycle, and whether the cycle was a read.
struct Ram {
    memory: Vec<u8>,
    cycles: Vec<(u16, u8, bool)>,
}

impl Ram {
    fn new() -> Ram {
        Ram { memory: vec![0; 0x10000], cycles: Vec::new() }
    }
}

impl Bus for Ram {
    fn tick(&mut self, pins: &mut Pins) {
        if pins.rw {
            pins.data = self.memory[pins.address as usize];
        } else {
            self.memory[pins.address as usize] = pins.data;
        }
        self.cycles.push((pins.address, pins.data, pins.rw));
    }
}

/// A processor that has gone through its reset and stands at `origin`, where `program` is.
fn start(origin: u16, program: &[u8]) -> Cpu<Ram> {
    let mut ram = Ram::new();
    for (offset, byte) in program.iter().enumerate() {
        ram.memory[(origin as usize + offset) & 0xffff] = *byte;
    }
    ram.memory[0xfffc] = origin as u8;
    ram.memory[0xfffd] = (origin >> 8) as u8;
    let mut cpu = Cpu::new(ram);
    cpu.step();
    assert_eq!(cpu.pc, origin);
    cpu.s = 0xfd;
    cpu.bus.cycles.clear();
    cpu
}

/// Runs one step and returns the number of bus cycles it took.
fn run(cpu: &mut Cpu<Ram>) -> u64 {
    let before = cpu.cycles;
    cpu.bus.cycles.clear();
    cpu.step();
    assert_eq!(cpu.cycles - before, cpu.bus.cycles.len() as u64);
    cpu.cycles - before
}



/// The cycle counts of the 6502 by opcode, without the cycles that a page crossing or a
/// taken branch adds. The opcodes that halt the chip count as the two cycles of the
/// one-byte instruction that stands for them here.
const CYCLES: [u64; 256] = [
    7, 6, 2, 8, 3, 3, 5, 5, 3, 2, 2, 2, 4, 4, 6, 6,
    2, 5, 2, 8, 4, 4, 6, 6, 2, 4, 2, 7, 4, 4, 7, 7,
    6, 6, 2, 8, 3, 3, 5, 5, 4, 2, 2, 2, 4, 4, 6, 6,
    2, 5, 2, 8, 4, 4, 6, 6, 2, 4, 2, 7, 4, 4, 7, 7,
    6, 6, 2, 8, 3, 3, 5, 5, 3, 2, 2, 2, 3, 4, 6, 6,
    2, 5, 2, 8, 4, 4, 6, 6, 2, 4, 2, 7, 4, 4, 7, 7,
    6, 6, 2, 8, 3, 3, 5, 5, 4, 2, 2, 2, 5, 4, 6, 6,
    2, 5, 2, 8, 4, 4, 6, 6, 2, 4, 2, 7, 4, 4, 7, 7,
    2, 6, 2, 6, 3, 3, 3, 3, 2, 2, 2, 2, 4, 4, 4, 4,
    2, 6, 2, 6, 4, 4, 4, 4, 2, 5, 2, 5, 5, 5, 5, 5,
    2, 6, 2, 6, 3, 3, 3, 3, 2, 2, 2, 2, 4, 4, 4, 4,
    2, 5, 2, 5, 4, 4, 4, 4, 2, 4, 2, 4, 4, 4, 4, 4,
    2, 6, 2, 8, 3, 3, 5, 5, 2, 2, 2, 2, 4, 4, 6, 6,
    2, 5, 2, 8, 4, 4, 6, 6, 2, 4, 2, 7, 4, 4, 7, 7,
    2, 6, 2, 8, 3, 3, 5, 5, 2, 2, 2, 2, 4, 4, 6, 6,
    2, 5, 2, 8, 4, 4, 6, 6, 2, 4, 2, 7, 4, 4, 7, 7,
];

/// The opcodes that take one cycle more where adding the index crosses a page.
const PAYS_FOR_CROSSING: [u8; 32] = [
    0x11, 0x19, 0x1c, 0x1d, 0x31, 0x39, 0x3c, 0x3d, 0x51, 0x59, 0x5c, 0x5d, 0x71, 0x79, 0x7c, 0x7d, 0xb1, 0xb3,
    0xb9, 0xbb, 0xbc, 0xbd, 0xbe, 0xbf, 0xd1, 0xd9, 0xdc, 0xdd, 0xf1, 0xf9, 0xfc, 0xfd,
];

/// The flags under which the branch `opcode` is not taken; for any other opcode, the
/// flags at power-up.
fn quiet_flags(opcode: u8) -> u8 {
    match opcode {
        0x10 => 0xa4,
        0x50 => 0x64,
        0x90 => 0x25,
        0xd0 => 0x26,
        _ => 0x24,
    }
}

#[test]
fn every_opcode_takes_the_cycles_of_the_timing_table() {
    for opcode in 0..=255u8 {
        let mut cpu = start(0x0200, &[opcode, 0x10, 0x30]);
        cpu.p = Status::from_bits_truncate(quiet_flags(opcode));
        assert_eq!(run(&mut cpu), CYCLES[opcode as usize], "opcode {:02x}", opcode);
    }
}

#[test]
fn page_crossing_costs_a_cycle_where_the_table_says_so() {
    for opcode in 0..=255u8 {
        if opcode & 0x1f == 0x10 {
            continue;
        }
        let mut cpu = start(0x0200, &[opcode, 0xf0, 0x30]);
        cpu.p = Status::from_bits_truncate(0x24);
        cpu.x = 0x20;
        cpu.y = 0x20;
        cpu.bus.memory[0x00f0] = 0xf0;
        cpu.bus.memory[0x00f1] = 0x30;
        let crossing = if PAYS_FOR_CROSSING.contains(&opcode) { 1 } else { 0 };
        assert_eq!(run(&mut cpu), CYCLES[opcode as usize] + crossing, "opcode {:02x}", opcode);
    }
}

#[test]
fn the_counter_counts_every_bus_cycle() {
    let mut cpu = start(0x0200, &[0xa9, 0x01, 0x8d, 0x00, 0x30, 0xee, 0x00, 0x30, 0x4c, 0x00, 0x02]);
    let before = cpu.cycles;
    for _ in 0..40 {
        cpu.step();
    }
    assert_eq!(cpu.cycles - before, cpu.bus.cycles.len() as u64);
    assert_eq!(cpu.cycles - before, 10 * (2 + 4 + 6 + 3));
    assert_eq!(cpu.bus.memory[0x3000], 0x02);
}

#[test]
fn a_step_takes_between_two_and_eight_cycles() {
    for opcode in 0..=255u8 {
        for status in [0x24u8, 0xe7] {
            let mut cpu = start(0x02f0, &[opcode, 0xf8, 0x30]);
            cpu.p = Status::from_bits_truncate(status);
            cpu.x = 0xff;
            cpu.y = 0xff;
            let cycles = run(&mut cpu);
            assert!(2 <= cycles && cycles <= 8, "opcode {:02x}", opcode);
        }
    }
}

#[test]
fn the_unused_flag_stays_set_after_every_opcode() {
    for opcode in 0..=255u8 {
        for (status, pulled) in [(0x20u8, 0x00u8), (0xef, 0xff), (0x00, 0x10), (0xff, 0xdf), (0x10, 0xef)] {
            let mut cpu = start(0x0200, &[opcode, 0x10, 0x30]);
            cpu.p = Status::from_bits_truncate(status);
            cpu.bus.memory[0x01fe] = pulled;
            cpu.step();
            assert_eq!(cpu.p.bits() & 0x30, 0x20, "opcode {:02x}", opcode);
            assert!(cpu.p.contains(Flag::U), "opcode {:02x}", opcode);
            assert!(!cpu.p.contains(Flag::B), "opcode {:02x}", opcode);
        }
    }
}

#[test]
fn a_register_written_without_the_unused_flag_reads_it_set() {
    let mut cpu = start(0x0200, &[0xea, 0x28, 0x28]);
    cpu.s = 0xfc;
    cpu.p = Status::from_bits(0x14).unwrap();
    assert_eq!(cpu.p.bits(), 0x24);
    cpu.bus.memory[0x01fd] = 0xff;
    cpu.bus.memory[0x01fe] = 0x00;
    cpu.step();
    assert_eq!(cpu.p.bits(), 0x24);
    cpu.step();
    assert_eq!(cpu.p.bits(), 0xef);
    cpu.step();
    assert_eq!(cpu.p.bits(), 0x20);
}
