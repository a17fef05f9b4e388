use bog::{Bus, Cpu, Flag, Pins};

/// A host that is 64 KiB of memory and keeps a record of every bus cycle: the address,
/// the byte on the data bus at the end of the cycle, and whether the cycle was a read.
struct Ram {
    memory: Vec<u8>,
    cycles: Vec<(u16, u8, bool)>,
}

impl Ram {
    fn new() -> Ram {
        Ram { memory: vec![0; 0x10000], cycles: Vec::new() }
    }
}

impl Bus for Ram {
    fn tick(&mut self, pins: &mut Pins) {
        if pins.rw {
            pins.data = self.memory[pins.address as usize];
        } else {
            self.memory[pins.address as usize] = pins.data;
        }
        self.cycles.push((pins.address, pins.data, pins.rw));
    }
}

/// A processor that has gone through its reset and stands at `origin`, where `program` is.
fn start(origin: u16, program: &[u8]) -> Cpu<Ram> {
    let mut ram = Ram::new();
    for (offset, byte) in program.iter().enumerate() {
        ram.memory[(origin as usize + offset) & 0xffff] = *byte;
    }
    ram.memory[0xfffc] = origin as u8;
    ram.memory[0xfffd] = (origin >> 8) as u8;
    let mut cpu = Cpu::new(ram);
    cpu.step();
    assert_eq!(cpu.pc, origin);
    cpu.s = 0xfd;
    cpu.bus.cycles.clear();
    cpu
}

/// Runs one step and returns the number of bus cycles it took.
fn run(cpu: &mut Cpu<Ram>) -> u64 {
    let before = cpu.cycles;
    cpu.bus.cycles.clear();
    cpu.step();
    assert_eq!(cpu.cycles - before, cpu.bus.cycles.len() as u64);
    cpu.cycles - before
}

fn read(address: u16, data: u8) -> (u16, u8, bool) {
    (address, data, true)
}

fn write(address: u16, data: u8) -> (u16, u8, bool) {
    (address, data, false)
}

fn flags(cpu: &Cpu<Ram>) -> (bool, bool, bool, bool) {
    (cpu.p.contains(Flag::C), cpu.p.contains(Flag::Z), cpu.p.contains(Flag::V), cpu.p.contains(Flag::N))
}

#[test]
fn lax_loads_a_and_x() {
    let mut cpu = start(0x0200, &[0xa7, 0x10, 0xb7, 0x10, 0xaf, 0x00, 0x30, 0xbf, 0xf0, 0x30, 0xa3, 0x20, 0xb3, 0x22]);
    cpu.y = 0x10;
    cpu.bus.memory[0x0010] = 0x80;
    cpu.bus.memory[0x0020] = 0x00;
    cpu.bus.memory[0x0022] = 0x00;
    cpu.bus.memory[0x0023] = 0x40;
    cpu.bus.memory[0x3000] = 0x33;
    cpu.bus.memory[0x3100] = 0x44;
    cpu.bus.memory[0x4000] = 0x66;
    cpu.bus.memory[0x4010] = 0x55;
    assert_eq!(run(&mut cpu), 3);
    assert_eq!((cpu.a, cpu.x), (0x80, 0x80));
    assert!(cpu.p.contains(Flag::N));
    assert_eq!(run(&mut cpu), 4);
    assert_eq!((cpu.a, cpu.x), (0x00, 0x00));
    assert!(cpu.p.contains(Flag::Z));
    assert_eq!(run(&mut cpu), 4);
    assert_eq!((cpu.a, cpu.x), (0x33, 0x33));
    assert_eq!(run(&mut cpu), 5);
    assert_eq!((cpu.a, cpu.x), (0x44, 0x44));
    cpu.x = 0x02;
    assert_eq!(run(&mut cpu), 6);
    assert_eq!((cpu.a, cpu.x), (0x66, 0x66));
    assert_eq!(run(&mut cpu), 5);
    assert_eq!((cpu.a, cpu.x), (0x55, 0x55));
}

#[test]
fn sax_stores_a_and_x_and_leaves_the_flags() {
    let mut cpu = start(0x0200, &[0x87, 0x10, 0x97, 0x10, 0x8f, 0x00, 0x30, 0x83, 0x20]);
    cpu.a = 0xf0;
    cpu.x = 0x3c;
    cpu.y = 0x01;
    cpu.bus.memory[0x005c] = 0x00;
    cpu.bus.memory[0x005d] = 0x50;
    let before = cpu.p.bits();
    assert_eq!(run(&mut cpu), 3);
    assert_eq!(cpu.bus.memory[0x0010], 0x30);
    assert_eq!(run(&mut cpu), 4);
    assert_eq!(cpu.bus.memory[0x0011], 0x30);
    assert_eq!(run(&mut cpu), 4);
    assert_eq!(cpu.bus.memory[0x3000], 0x30);
    assert_eq!(run(&mut cpu), 6);
    assert_eq!(cpu.bus.memory[0x5000], 0x30);
    assert_eq!(cpu.p.bits(), before);
}

#[test]
fn dcp_decrements_and_compares() {
    let mut cpu = start(0x0200, &[0xc7, 0x10]);
    cpu.a = 0x40;
    cpu.bus.memory[0x0010] = 0x41;
    assert_eq!(run(&mut cpu), 5);
    assert_eq!(cpu.bus.memory[0x0010], 0x40);
    assert_eq!(cpu.a, 0x40);
    assert_eq!((flags(&cpu).0, flags(&cpu).1, flags(&cpu).3), (true, true, false));
    assert_eq!(
        cpu.bus.cycles,
        vec![read(0x0200, 0xc7), read(0x0201, 0x10), read(0x0010, 0x41), write(0x0010, 0x41), write(0x0010, 0x40)]
    );
}

#[test]
fn isb_increments_and_subtracts() {
    let mut cpu = start(0x0200, &[0xe7, 0x10]);
    cpu.a = 0x50;
    cpu.p.insert(Flag::C);
    cpu.bus.memory[0x0010] = 0x0f;
    assert_eq!(run(&mut cpu), 5);
    assert_eq!(cpu.bus.memory[0x0010], 0x10);
    assert_eq!(cpu.a, 0x40);
    assert_eq!(flags(&cpu), (true, false, false, false));
}

#[test]
fn slo_shifts_and_ors() {
    let mut cpu = start(0x0200, &[0x07, 0x10]);
    cpu.a = 0x01;
    cpu.bus.memory[0x0010] = 0xc0;
    assert_eq!(run(&mut cpu), 5);
    assert_eq!(cpu.bus.memory[0x0010], 0x80);
    assert_eq!(cpu.a, 0x81);
    assert_eq!((flags(&cpu).0, flags(&cpu).1, flags(&cpu).3), (true, false, true));
}

#[test]
fn rla_rotates_and_ands() {
    let mut cpu = start(0x0200, &[0x27, 0x10]);
    cpu.a = 0x03;
    cpu.p.insert(Flag::C);
    cpu.bus.memory[0x0010] = 0x80;
    assert_eq!(run(&mut cpu), 5);
    assert_eq!(cpu.bus.memory[0x0010], 0x01);
    assert_eq!(cpu.a, 0x01);
    assert_eq!((flags(&cpu).0, flags(&cpu).1, flags(&cpu).3), (true, false, false));
}

#[test]
fn sre_shifts_and_exclusive_ors() {
    let mut cpu = start(0x0200, &[0x47, 0x10]);
    cpu.a = 0x01;
    cpu.bus.memory[0x0010] = 0x03;
    assert_eq!(run(&mut cpu), 5);
    assert_eq!(cpu.bus.memory[0x0010], 0x01);
    assert_eq!(cpu.a, 0x00);
    assert_eq!((flags(&cpu).0, flags(&cpu).1, flags(&cpu).3), (true, true, false));
}

#[test]
fn rra_rotates_and_adds_with_the_carry_it_shifted_out() {
    let mut cpu = start(0x0200, &[0x67, 0x10]);
    cpu.a = 0x10;
    cpu.p.remove(Flag::C);
    cpu.bus.memory[0x0010] = 0x03;
    assert_eq!(run(&mut cpu), 5);
    assert_eq!(cpu.bus.memory[0x0010], 0x01);
    assert_eq!(cpu.a, 0x12);
    assert_eq!(flags(&cpu), (false, false, false, false));
}

#[test]
fn combined_instructions_take_the_cycles_of_a_read_modify_write() {
    let mut cpu = start(
        0x0200,
        &[0x03, 0x10, 0x13, 0x10, 0x1b, 0x00, 0x30, 0x1f, 0x00, 0x30, 0x17, 0x10, 0x0f, 0x00, 0x30],
    );
    cpu.bus.memory[0x0010] = 0x00;
    cpu.bus.memory[0x0011] = 0x40;
    let counts: Vec<u64> = (0..6).map(|_| run(&mut cpu)).collect();
    assert_eq!(counts, vec![8, 8, 7, 7, 6, 6]);
}

#[test]
fn anc_copies_the_sign_into_the_carry() {
    let mut cpu = start(0x0200, &[0x0b, 0xf0, 0x2b, 0x0f]);
    cpu.a = 0x81;
    assert_eq!(run(&mut cpu), 2);
    assert_eq!(cpu.a, 0x80);
    assert_eq!((flags(&cpu).0, flags(&cpu).1, flags(&cpu).3), (true, false, true));
    run(&mut cpu);
    assert_eq!(cpu.a, 0x00);
    assert_eq!((flags(&cpu).0, flags(&cpu).1, flags(&cpu).3), (false, true, false));
}

#[test]
fn alr_ands_and_shifts_right() {
    let mut cpu = start(0x0200, &[0x4b, 0x0f]);
    cpu.a = 0xf3;
    assert_eq!(run(&mut cpu), 2);
    assert_eq!(cpu.a, 0x01);
    assert_eq!((flags(&cpu).0, flags(&cpu).1, flags(&cpu).3), (true, false, false));
}

#[test]
fn arr_ands_and_rotates_right() {
    let mut cpu = start(0x0200, &[0x6b, 0xff, 0x6b, 0xff, 0x6b, 0x00]);
    cpu.a = 0xc0;
    cpu.p.insert(Flag::C);
    assert_eq!(run(&mut cpu), 2);
    assert_eq!(cpu.a, 0xe0);
    assert_eq!(flags(&cpu), (true, false, false, true));
    cpu.a = 0x80;
    cpu.p.remove(Flag::C);
    run(&mut cpu);
    assert_eq!(cpu.a, 0x40);
    assert_eq!(flags(&cpu), (true, false, true, false));
    cpu.a = 0xff;
    cpu.p.remove(Flag::C);
    run(&mut cpu);
    assert_eq!(cpu.a, 0x00);
    assert_eq!(flags(&cpu), (false, true, false, false));
}

#[test]
fn sbx_subtracts_from_a_and_x() {
    let mut cpu = start(0x0200, &[0xcb, 0x10, 0xcb, 0x01]);
    cpu.a = 0xf0;
    cpu.x = 0x3c;
    assert_eq!(run(&mut cpu), 2);
    assert_eq!(cpu.x, 0x20);
    assert_eq!(cpu.a, 0xf0);
    assert_eq!((flags(&cpu).0, flags(&cpu).1, flags(&cpu).3), (true, false, false));
    cpu.a = 0x00;
    run(&mut cpu);
    assert_eq!(cpu.x, 0xff);
    assert_eq!((flags(&cpu).0, flags(&cpu).1, flags(&cpu).3), (false, false, true));
}

#[test]
fn sbc_has_an_alias() {
    let mut cpu = start(0x0200, &[0xeb, 0x10]);
    cpu.a = 0x50;
    cpu.p.insert(Flag::C);
    assert_eq!(run(&mut cpu), 2);
    assert_eq!(cpu.a, 0x40);
    assert_eq!(flags(&cpu), (true, false, false, false));
}

#[test]
fn lxa_loads_a_and_x_with_the_operand() {
    let mut cpu = start(0x0200, &[0xab, 0x9c]);
    cpu.a = 0x01;
    cpu.x = 0x02;
    assert_eq!(run(&mut cpu), 2);
    assert_eq!((cpu.a, cpu.x), (0x9c, 0x9c));
    assert!(cpu.p.contains(Flag::N));
}

#[test]
fn ane_loads_a_with_x_and_the_operand() {
    let mut cpu = start(0x0200, &[0x8b, 0x3c, 0x8b, 0xf0, 0x8b, 0x8f]);
    cpu.a = 0xf0;
    cpu.x = 0x0f;
    assert_eq!(run(&mut cpu), 2);
    assert_eq!((cpu.a, cpu.x, cpu.pc), (0x0c, 0x0f, 0x0202));
    assert!(!cpu.p.contains(Flag::Z));
    assert!(!cpu.p.contains(Flag::N));
    assert_eq!(cpu.bus.cycles, vec![read(0x0200, 0x8b), read(0x0201, 0x3c)]);
    cpu.a = 0xff;
    run(&mut cpu);
    assert_eq!((cpu.a, cpu.x), (0x00, 0x0f));
    assert!(cpu.p.contains(Flag::Z));
    cpu.a = 0x00;
    cpu.x = 0xf0;
    run(&mut cpu);
    assert_eq!((cpu.a, cpu.x), (0x80, 0xf0));
    assert!(cpu.p.contains(Flag::N));
    assert!(!cpu.p.contains(Flag::Z));
}

#[test]
fn las_ands_the_operand_with_the_stack_pointer() {
    let mut cpu = start(0x0200, &[0xbb, 0x00, 0x30]);
    cpu.s = 0xf0;
    cpu.y = 0x01;
    cpu.bus.memory[0x3001] = 0x9f;
    assert_eq!(run(&mut cpu), 4);
    assert_eq!((cpu.a, cpu.x, cpu.s), (0x90, 0x90, 0x90));
    assert!(cpu.p.contains(Flag::N));
}

#[test]
fn sha_stores_a_and_x_and_the_high_byte_plus_one() {
    let mut cpu = start(0x0200, &[0x9f, 0x10, 0x32]);
    cpu.a = 0xff;
    cpu.x = 0x7f;
    cpu.y = 0x02;
    assert_eq!(run(&mut cpu), 5);
    assert_eq!(
        cpu.bus.cycles,
        vec![
            read(0x0200, 0x9f),
            read(0x0201, 0x10),
            read(0x0202, 0x32),
            read(0x3212, 0x00),
            write(0x3312, 0x33)
        ]
    );
}

#[test]
fn sha_indirect_indexed() {
    let mut cpu = start(0x0200, &[0x93, 0x40]);
    cpu.a = 0x0f;
    cpu.x = 0xff;
    cpu.y = 0x01;
    cpu.bus.memory[0x0040] = 0x00;
    cpu.bus.memory[0x0041] = 0x44;
    assert_eq!(run(&mut cpu), 6);
    assert_eq!(cpu.bus.cycles[4], read(0x4401, 0x00));
    assert_eq!(cpu.bus.cycles[5], write(0x0501, 0x05));
}

#[test]
fn shx_and_shy_store_the_register_and_the_high_byte_plus_one() {
    let mut cpu = start(0x0200, &[0x9e, 0x00, 0x1f, 0x9c, 0x00, 0xff]);
    cpu.x = 0xf0;
    cpu.y = 0x55;
    assert_eq!(run(&mut cpu), 5);
    assert_eq!(cpu.bus.cycles[3], read(0x1f55, 0x00));
    assert_eq!(cpu.bus.cycles[4], write(0x2055, 0x20));
    assert_eq!(run(&mut cpu), 5);
    assert_eq!(cpu.bus.cycles[3], read(0xfff0, 0x00));
    assert_eq!(cpu.bus.cycles[4], write(0x00f0, 0x00));
}

#[test]
fn tas_loads_the_stack_pointer_and_stores() {
    let mut cpu = start(0x0200, &[0x9b, 0x00, 0x30]);
    cpu.a = 0x73;
    cpu.x = 0x3f;
    cpu.y = 0x04;
    assert_eq!(run(&mut cpu), 5);
    assert_eq!(cpu.s, 0x33);
    assert_eq!(cpu.bus.cycles[3], read(0x3004, 0x00));
    assert_eq!(cpu.bus.cycles[4], write(0x3104, 0x31));
}

#[test]
fn nops_read_their_operands() {
    let mut cpu = start(
        0x0200,
        &[0x1a, 0x80, 0x55, 0x04, 0x10, 0x14, 0x10, 0x0c, 0x00, 0x30, 0x1c, 0x00, 0x30, 0x1c, 0xff, 0x30],
    );
    cpu.x = 0x01;
    let before = (cpu.a, cpu.x, cpu.y, cpu.s, cpu.p.bits());
    assert_eq!(run(&mut cpu), 2);
    assert_eq!(run(&mut cpu), 2);
    assert_eq!(cpu.pc, 0x0203);
    assert_eq!(run(&mut cpu), 3);
    assert_eq!(cpu.bus.cycles[2], read(0x0010, 0x00));
    assert_eq!(run(&mut cpu), 4);
    assert_eq!(cpu.bus.cycles[3], read(0x0011, 0x00));
    assert_eq!(run(&mut cpu), 4);
    assert_eq!(cpu.bus.cycles[3], read(0x3000, 0x00));
    assert_eq!(run(&mut cpu), 4);
    assert_eq!(cpu.bus.cycles[3], read(0x3001, 0x00));
    assert_eq!(run(&mut cpu), 5);
    assert_eq!(cpu.bus.cycles[3], read(0x3000, 0x00));
    assert_eq!(cpu.bus.cycles[4], read(0x3100, 0x00));
    assert_eq!((cpu.a, cpu.x, cpu.y, cpu.s, cpu.p.bits()), before);
    assert_eq!(cpu.pc, 0x0210);
}

#[test]
fn jam_is_a_one_byte_instruction_that_does_nothing() {
    for opcode in [0x02u8, 0x12, 0x22, 0x32, 0x42, 0x52, 0x62, 0x72, 0x92, 0xb2, 0xd2, 0xf2] {
        let mut cpu = start(0x0200, &[opcode, 0xea]);
        let before = (cpu.a, cpu.x, cpu.y, cpu.s, cpu.p.bits());
        assert_eq!(run(&mut cpu), 2);
        assert_eq!(cpu.pc, 0x0201);
        assert_eq!((cpu.a, cpu.x, cpu.y, cpu.s, cpu.p.bits()), before);
        assert_eq!(cpu.bus.cycles, vec![read(0x0200, opcode), read(0x0201, 0xea)]);
        assert_eq!(run(&mut cpu), 2);
        assert_eq!(cpu.pc, 0x0202);
    }
}
