use bog::{Bus, Cpu, Flag, Pins, Status};

/// A host that is 64 KiB of memory and keeps a record of every bus cycle: the address,
/// the byte on the data bus at the end of the cycle, and whether the cycle was a read.
struct Ram {
    memory: Vec<u8>,
    cycles: Vec<(u16, u8, bool)>,
}

impl Ram {
    fn new() -> Ram {
        Ram { memory: vec![0; 0x10000], cycles: Vec::new() }
    }
}

impl Bus for Ram {
    fn tick(&mut self, pins: &mut Pins) {
        if pins.rw {
            pins.data = self.memory[pins.address as usize];
        } else {
            self.memory[pins.address as usize] = pins.data;
        }
        self.cycles.push((pins.address, pins.data, pins.rw));
    }
}

/// A processor that has gone through its reset and stands at `origin`, where `program` is.
fn start(origin: u16, program: &[u8]) -> Cpu<Ram> {
    let mut ram = Ram::new();
    for (offset, byte) in program.iter().enumerate() {
        ram.memory[(origin as usize + offset) & 0xffff] = *byte;
    }
    ram.memory[0xfffc] = origin as u8;
    ram.memory[0xfffd] = (origin >> 8) as u8;
    let mut cpu = Cpu::new(ram);
    cpu.step();
    assert_eq!(cpu.pc, origin);
    cpu.s = 0xfd;
    cpu.bus.cycles.clear();
    cpu
}

/// Runs one step and returns the number of bus cycles it took.
fn run(cpu: &mut Cpu<Ram>) -> u64 {
    let before = cpu.cycles;
    cpu.bus.cycles.clear();
    cpu.step();
    assert_eq!(cpu.cycles - before, cpu.bus.cycles.len() as u64);
    cpu.cycles - before
}

fn read(address: u16, data: u8) -> (u16, u8, bool) {
    (address, data, true)
}

fn write(address: u16, data: u8) -> (u16, u8, bool) {
    (address, data, false)
}

fn flags(cpu: &Cpu<Ram>) -> (bool, bool, bool, bool) {
    (cpu.p.contains(Flag::C), cpu.p.contains(Flag::Z), cpu.p.contains(Flag::V), cpu.p.contains(Flag::N))
}

#[test]
fn power_up_state() {
    let cpu = Cpu::new(Ram::new());
    assert_eq!((cpu.a, cpu.x, cpu.y, cpu.pc, cpu.s, cpu.cycles), (0, 0, 0, 0, 0xfd, 0));
    assert_eq!(cpu.p.bits(), 0x24);
    assert_eq!(
        (cpu.pins.address, cpu.pins.data, cpu.pins.rw, cpu.pins.irq, cpu.pins.nmi, cpu.pins.rst),
        (0, 0, true, false, false, false)
    );
    assert!(cpu.bus.cycles.is_empty());
}

#[test]
fn lda_immediate_zero() {
    let mut cpu = start(0x0200, &[0xa9, 0x00]);
    cpu.a = 0x5a;
    assert_eq!(run(&mut cpu), 2);
    assert_eq!(cpu.a, 0);
    assert!(cpu.p.contains(Flag::Z));
    assert!(!cpu.p.contains(Flag::N));
    assert_eq!(cpu.pc, 0x0202);
    assert_eq!(cpu.bus.cycles, vec![read(0x0200, 0xa9), read(0x0201, 0x00)]);
}

#[test]
fn lda_zero_page_sets_negative() {
    let mut cpu = start(0x0200, &[0xa5, 0x10]);
    cpu.bus.memory[0x0010] = 0x80;
    assert_eq!(run(&mut cpu), 3);
    assert_eq!(cpu.a, 0x80);
    assert!(cpu.p.contains(Flag::N));
    assert!(!cpu.p.contains(Flag::Z));
    assert_eq!(cpu.bus.cycles, vec![read(0x0200, 0xa5), read(0x0201, 0x10), read(0x0010, 0x80)]);
}

#[test]
fn lda_zero_page_x_wraps_in_page_zero() {
    let mut cpu = start(0x0200, &[0xb5, 0xf0]);
    cpu.x = 0x20;
    cpu.bus.memory[0x0010] = 0x42;
    cpu.bus.memory[0x0110] = 0x99;
    cpu.bus.memory[0x00f0] = 0x07;
    assert_eq!(run(&mut cpu), 4);
    assert_eq!(cpu.a, 0x42);
    assert_eq!(
        cpu.bus.cycles,
        vec![read(0x0200, 0xb5), read(0x0201, 0xf0), read(0x00f0, 0x07), read(0x0010, 0x42)]
    );
}

#[test]
fn ldx_zero_page_y_adds_y() {
    let mut cpu = start(0x0200, &[0xb6, 0x10]);
    cpu.x = 0x40;
    cpu.y = 0x02;
    cpu.bus.memory[0x0012] = 0x33;
    assert_eq!(run(&mut cpu), 4);
    assert_eq!(cpu.x, 0x33);
    assert_eq!(cpu.bus.cycles[3], read(0x0012, 0x33));
}

#[test]
fn lda_absolute() {
    let mut cpu = start(0x0200, &[0xad, 0x34, 0x12]);
    cpu.bus.memory[0x1234] = 0x01;
    assert_eq!(run(&mut cpu), 4);
    assert_eq!(cpu.a, 0x01);
    assert_eq!(cpu.pc, 0x0203);
    assert_eq!(
        cpu.bus.cycles,
        vec![read(0x0200, 0xad), read(0x0201, 0x34), read(0x0202, 0x12), read(0x1234, 0x01)]
    );
}

#[test]
fn lda_absolute_x_within_the_page() {
    let mut cpu = start(0x0200, &[0xbd, 0x00, 0x12]);
    cpu.x = 0x05;
    cpu.bus.memory[0x1205] = 0x44;
    assert_eq!(run(&mut cpu), 4);
    assert_eq!(cpu.a, 0x44);
    assert_eq!(cpu.bus.cycles[3], read(0x1205, 0x44));
}

#[test]
fn lda_absolute_x_page_cross_reads_the_uncorrected_address() {
    let mut cpu = start(0x0200, &[0xbd, 0xf0, 0x12]);
    cpu.x = 0x20;
    cpu.bus.memory[0x1210] = 0x11;
    cpu.bus.memory[0x1310] = 0x22;
    assert_eq!(run(&mut cpu), 5);
    assert_eq!(cpu.a, 0x22);
    assert_eq!(
        cpu.bus.cycles,
        vec![
            read(0x0200, 0xbd),
            read(0x0201, 0xf0),
            read(0x0202, 0x12),
            read(0x1210, 0x11),
            read(0x1310, 0x22)
        ]
    );
}

#[test]
fn lda_absolute_y_page_cross_wraps_the_high_byte() {
    let mut cpu = start(0x0200, &[0xb9, 0xff, 0xff]);
    cpu.y = 0x02;
    cpu.bus.memory[0x0001] = 0x66;
    assert_eq!(run(&mut cpu), 5);
    assert_eq!(cpu.a, 0x66);
    assert_eq!(cpu.bus.cycles[3].0, 0xff01);
    assert_eq!(cpu.bus.cycles[4], read(0x0001, 0x66));
}

#[test]
fn lda_indexed_indirect_wraps_the_pointer_in_page_zero() {
    let mut cpu = start(0x0200, &[0xa1, 0xf0]);
    cpu.x = 0x0f;
    cpu.bus.memory[0x00ff] = 0x34;
    cpu.bus.memory[0x0000] = 0x12;
    cpu.bus.memory[0x0100] = 0x77;
    cpu.bus.memory[0x1234] = 0x5a;
    cpu.bus.memory[0x00f0] = 0x01;
    assert_eq!(run(&mut cpu), 6);
    assert_eq!(cpu.a, 0x5a);
    assert_eq!(
        cpu.bus.cycles,
        vec![
            read(0x0200, 0xa1),
            read(0x0201, 0xf0),
            read(0x00f0, 0x01),
            read(0x00ff, 0x34),
            read(0x0000, 0x12),
            read(0x1234, 0x5a)
        ]
    );
}

#[test]
fn lda_indirect_indexed_page_cross() {
    let mut cpu = start(0x0200, &[0xb1, 0xff]);
    cpu.y = 0x10;
    cpu.bus.memory[0x00ff] = 0xf8;
    cpu.bus.memory[0x0000] = 0x12;
    cpu.bus.memory[0x1208] = 0x01;
    cpu.bus.memory[0x1308] = 0x02;
    assert_eq!(run(&mut cpu), 6);
    assert_eq!(cpu.a, 0x02);
    assert_eq!(
        cpu.bus.cycles,
        vec![
            read(0x0200, 0xb1),
            read(0x0201, 0xff),
            read(0x00ff, 0xf8),
            read(0x0000, 0x12),
            read(0x1208, 0x01),
            read(0x1308, 0x02)
        ]
    );
}

#[test]
fn lda_indirect_indexed_within_the_page() {
    let mut cpu = start(0x0200, &[0xb1, 0x40]);
    cpu.y = 0x04;
    cpu.bus.memory[0x0040] = 0x00;
    cpu.bus.memory[0x0041] = 0x20;
    cpu.bus.memory[0x2004] = 0x09;
    assert_eq!(run(&mut cpu), 5);
    assert_eq!(cpu.a, 0x09);
    assert_eq!(cpu.bus.cycles[4], read(0x2004, 0x09));
}

#[test]
fn ldy_and_ldx_immediate() {
    let mut cpu = start(0x0200, &[0xa0, 0x00, 0xa2, 0xff]);
    cpu.y = 1;
    assert_eq!(run(&mut cpu), 2);
    assert_eq!(cpu.y, 0);
    assert!(cpu.p.contains(Flag::Z));
    assert_eq!(run(&mut cpu), 2);
    assert_eq!(cpu.x, 0xff);
    assert!(cpu.p.contains(Flag::N));
    assert!(!cpu.p.contains(Flag::Z));
}

#[test]
fn sta_absolute_x_always_reads_before_it_writes() {
    let mut cpu = start(0x0200, &[0x9d, 0x00, 0x12]);
    cpu.a = 0x77;
    cpu.x = 0x05;
    cpu.bus.memory[0x1205] = 0x13;
    assert_eq!(run(&mut cpu), 5);
    assert_eq!(cpu.bus.memory[0x1205], 0x77);
    assert_eq!(
        cpu.bus.cycles,
        vec![
            read(0x0200, 0x9d),
            read(0x0201, 0x00),
            read(0x0202, 0x12),
            read(0x1205, 0x13),
            write(0x1205, 0x77)
        ]
    );
}

#[test]
fn sta_absolute_x_page_cross_writes_once_at_the_corrected_address() {
    let mut cpu = start(0x0200, &[0x9d, 0xf0, 0x12]);
    cpu.a = 0x77;
    cpu.x = 0x20;
    assert_eq!(run(&mut cpu), 5);
    assert_eq!(cpu.bus.memory[0x1310], 0x77);
    assert_eq!(cpu.bus.memory[0x1210], 0x00);
    assert_eq!(cpu.bus.cycles[3], read(0x1210, 0x00));
    assert_eq!(cpu.bus.cycles[4], write(0x1310, 0x77));
    assert_eq!(cpu.bus.cycles.iter().filter(|cycle| !cycle.2).count(), 1);
}

#[test]
fn sta_indirect_indexed_always_reads_before_it_writes() {
    let mut cpu = start(0x0200, &[0x91, 0x40]);
    cpu.a = 0x55;
    cpu.y = 0x04;
    cpu.bus.memory[0x0040] = 0x00;
    cpu.bus.memory[0x0041] = 0x20;
    assert_eq!(run(&mut cpu), 6);
    assert_eq!(cpu.bus.memory[0x2004], 0x55);
    assert_eq!(cpu.bus.cycles[4], read(0x2004, 0x00));
    assert_eq!(cpu.bus.cycles[5], write(0x2004, 0x55));
}

#[test]
fn stores_in_every_mode() {
    let mut cpu = start(
        0x0200,
        &[0x85, 0x10, 0x95, 0x10, 0x8d, 0x00, 0x30, 0x99, 0x00, 0x30, 0x81, 0x20, 0x86, 0x11, 0x96, 0x10, 0x8e,
          0x01, 0x30, 0x84, 0x12, 0x94, 0x10, 0x8c, 0x02, 0x30],
    );
    cpu.a = 0xaa;
    cpu.x = 0x03;
    cpu.y = 0x04;
    cpu.bus.memory[0x0023] = 0x00;
    cpu.bus.memory[0x0024] = 0x40;
    let counts: Vec<u64> = (0..11).map(|_| run(&mut cpu)).collect();
    assert_eq!(counts, vec![3, 4, 4, 5, 6, 3, 4, 4, 3, 4, 4]);
    assert_eq!(cpu.bus.memory[0x0010], 0xaa);
    assert_eq!(cpu.bus.memory[0x0013], 0x04);
    assert_eq!(cpu.bus.memory[0x3000], 0xaa);
    assert_eq!(cpu.bus.memory[0x3004], 0xaa);
    assert_eq!(cpu.bus.memory[0x4000], 0xaa);
    assert_eq!(cpu.bus.memory[0x0011], 0x03);
    assert_eq!(cpu.bus.memory[0x0014], 0x03);
    assert_eq!(cpu.bus.memory[0x3001], 0x03);
    assert_eq!(cpu.bus.memory[0x0012], 0x04);
    assert_eq!(cpu.bus.memory[0x3002], 0x04);
    assert_eq!(cpu.pc, 0x021a);
}

#[test]
fn adc_signed_overflow() {
    let mut cpu = start(0x0200, &[0x69, 0x50]);
    cpu.a = 0x50;
    cpu.p.remove(Flag::C);
    assert_eq!(run(&mut cpu), 2);
    assert_eq!(cpu.a, 0xa0);
    assert_eq!(flags(&cpu), (false, false, true, true));
}

#[test]
fn adc_carries_out() {
    let mut cpu = start(0x0200, &[0x69, 0x01]);
    cpu.a = 0xff;
    cpu.p.remove(Flag::C);
    run(&mut cpu);
    assert_eq!(cpu.a, 0x00);
    assert_eq!(flags(&cpu), (true, true, false, false));
}

#[test]
fn adc_adds_the_carry_in() {
    let mut cpu = start(0x0200, &[0x69, 0x01]);
    cpu.a = 0x01;
    cpu.p.insert(Flag::C);
    run(&mut cpu);
    assert_eq!(cpu.a, 0x03);
    assert_eq!(flags(&cpu), (false, false, false, false));
}

#[test]
fn adc_negative_operands_overflow() {
    let mut cpu = start(0x0200, &[0x69, 0x80]);
    cpu.a = 0x80;
    cpu.p.remove(Flag::C);
    run(&mut cpu);
    assert_eq!(cpu.a, 0x00);
    assert_eq!(flags(&cpu), (true, true, true, false));
}

#[test]
fn adc_ignores_the_decimal_flag() {
    let mut cpu = start(0x0200, &[0x69, 0x01]);
    cpu.a = 0x09;
    cpu.p.insert(Flag::D);
    cpu.p.remove(Flag::C);
    run(&mut cpu);
    assert_eq!(cpu.a, 0x0a);
    assert!(cpu.p.contains(Flag::D));
}

#[test]
fn sbc_without_borrow() {
    let mut cpu = start(0x0200, &[0xe9, 0x10]);
    cpu.a = 0x50;
    cpu.p.insert(Flag::C);
    run(&mut cpu);
    assert_eq!(cpu.a, 0x40);
    assert_eq!(flags(&cpu), (true, false, false, false));
}

#[test]
fn sbc_borrows() {
    let mut cpu = start(0x0200, &[0xe9, 0xf0]);
    cpu.a = 0x50;
    cpu.p.insert(Flag::C);
    run(&mut cpu);
    assert_eq!(cpu.a, 0x60);
    assert_eq!(flags(&cpu), (false, false, false, false));
}

#[test]
fn sbc_signed_overflow() {
    let mut cpu = start(0x0200, &[0xe9, 0xb0]);
    cpu.a = 0x50;
    cpu.p.insert(Flag::C);
    run(&mut cpu);
    assert_eq!(cpu.a, 0xa0);
    assert_eq!(flags(&cpu), (false, false, true, true));
}

#[test]
fn sbc_takes_the_borrow_in() {
    let mut cpu = start(0x0200, &[0xe9, 0x01]);
    cpu.a = 0x03;
    cpu.p.remove(Flag::C);
    run(&mut cpu);
    assert_eq!(cpu.a, 0x01);
    assert_eq!(flags(&cpu), (true, false, false, false));
}

#[test]
fn sbc_ignores_the_decimal_flag() {
    let mut cpu = start(0x0200, &[0xe9, 0x01]);
    cpu.a = 0x10;
    cpu.p.insert(Flag::D);
    cpu.p.insert(Flag::C);
    run(&mut cpu);
    assert_eq!(cpu.a, 0x0f);
}

#[test]
fn compare_instructions() {
    let mut cpu = start(0x0200, &[0xc9, 0x40, 0xc9, 0x41, 0xc9, 0x3f, 0xe0, 0x10, 0xc0, 0xff]);
    cpu.a = 0x40;
    cpu.x = 0x10;
    cpu.y = 0x00;
    assert_eq!(run(&mut cpu), 2);
    assert_eq!(flags(&cpu).0, true);
    assert_eq!(flags(&cpu).1, true);
    assert_eq!(flags(&cpu).3, false);
    run(&mut cpu);
    assert_eq!((flags(&cpu).0, flags(&cpu).1, flags(&cpu).3), (false, false, true));
    run(&mut cpu);
    assert_eq!((flags(&cpu).0, flags(&cpu).1, flags(&cpu).3), (true, false, false));
    run(&mut cpu);
    assert_eq!((flags(&cpu).0, flags(&cpu).1, flags(&cpu).3), (true, true, false));
    run(&mut cpu);
    assert_eq!((flags(&cpu).0, flags(&cpu).1, flags(&cpu).3), (false, false, false));
    assert_eq!((cpu.a, cpu.x, cpu.y), (0x40, 0x10, 0x00));
}

#[test]
fn bit_copies_the_top_bits_and_leaves_a() {
    let mut cpu = start(0x0200, &[0x24, 0x10, 0x2c, 0x00, 0x30]);
    cpu.a = 0x0f;
    cpu.bus.memory[0x0010] = 0xc0;
    cpu.bus.memory[0x3000] = 0x01;
    assert_eq!(run(&mut cpu), 3);
    assert_eq!(cpu.a, 0x0f);
    assert_eq!((flags(&cpu).1, flags(&cpu).2, flags(&cpu).3), (true, true, true));
    assert_eq!(run(&mut cpu), 4);
    assert_eq!((flags(&cpu).1, flags(&cpu).2, flags(&cpu).3), (false, false, false));
}

#[test]
fn logic_instructions() {
    let mut cpu = start(0x0200, &[0x29, 0x0f, 0x09, 0x80, 0x49, 0xff, 0x29, 0x00]);
    cpu.a = 0x3c;
    run(&mut cpu);
    assert_eq!(cpu.a, 0x0c);
    run(&mut cpu);
    assert_eq!(cpu.a, 0x8c);
    assert!(cpu.p.contains(Flag::N));
    run(&mut cpu);
    assert_eq!(cpu.a, 0x73);
    assert!(!cpu.p.contains(Flag::N));
    run(&mut cpu);
    assert_eq!(cpu.a, 0x00);
    assert!(cpu.p.contains(Flag::Z));
}

#[test]
fn shifts_and_rotates_of_the_accumulator() {
    let mut cpu = start(0x0200, &[0x0a, 0x4a, 0x2a, 0x6a]);
    cpu.a = 0x81;
    cpu.p.remove(Flag::C);
    assert_eq!(run(&mut cpu), 2);
    assert_eq!(cpu.a, 0x02);
    assert!(cpu.p.contains(Flag::C));
    assert_eq!(cpu.bus.cycles, vec![read(0x0200, 0x0a), read(0x0201, 0x4a)]);
    cpu.a = 0x01;
    run(&mut cpu);
    assert_eq!(cpu.a, 0x00);
    assert_eq!((flags(&cpu).0, flags(&cpu).1), (true, true));
    cpu.a = 0x80;
    run(&mut cpu);
    assert_eq!(cpu.a, 0x01);
    assert!(cpu.p.contains(Flag::C));
    cpu.a = 0x02;
    run(&mut cpu);
    assert_eq!(cpu.a, 0x81);
    assert_eq!((flags(&cpu).0, flags(&cpu).3), (false, true));
}

#[test]
fn inc_absolute_x_writes_the_old_value_and_then_the_new() {
    let mut cpu = start(0x0200, &[0xfe, 0x00, 0x30]);
    cpu.x = 0x01;
    cpu.p.insert(Flag::C);
    cpu.bus.memory[0x3001] = 0xff;
    assert_eq!(run(&mut cpu), 7);
    assert_eq!(cpu.bus.memory[0x3001], 0x00);
    assert!(cpu.p.contains(Flag::Z));
    assert!(cpu.p.contains(Flag::C));
    assert_eq!(
        cpu.bus.cycles,
        vec![
            read(0x0200, 0xfe),
            read(0x0201, 0x00),
            read(0x0202, 0x30),
            read(0x3001, 0xff),
            read(0x3001, 0xff),
            write(0x3001, 0xff),
            write(0x3001, 0x00)
        ]
    );
}

#[test]
fn read_modify_write_in_memory() {
    let mut cpu = start(0x0200, &[0x06, 0x10, 0x46, 0x11, 0x26, 0x12, 0x66, 0x13, 0xc6, 0x14, 0xe6, 0x15]);
    cpu.bus.memory[0x0010] = 0xc0;
    cpu.bus.memory[0x0011] = 0x01;
    cpu.bus.memory[0x0012] = 0x80;
    cpu.bus.memory[0x0013] = 0x01;
    cpu.bus.memory[0x0014] = 0x00;
    cpu.bus.memory[0x0015] = 0x7f;
    cpu.p.remove(Flag::C);
    assert_eq!(run(&mut cpu), 5);
    assert_eq!(cpu.bus.memory[0x0010], 0x80);
    assert_eq!((flags(&cpu).0, flags(&cpu).1, flags(&cpu).3), (true, false, true));
    assert_eq!(
        cpu.bus.cycles,
        vec![read(0x0200, 0x06), read(0x0201, 0x10), read(0x0010, 0xc0), write(0x0010, 0xc0), write(0x0010, 0x80)]
    );
    run(&mut cpu);
    assert_eq!(cpu.bus.memory[0x0011], 0x00);
    assert_eq!((flags(&cpu).0, flags(&cpu).1, flags(&cpu).3), (true, true, false));
    run(&mut cpu);
    assert_eq!(cpu.bus.memory[0x0012], 0x01);
    assert_eq!((flags(&cpu).0, flags(&cpu).1, flags(&cpu).3), (true, false, false));
    run(&mut cpu);
    assert_eq!(cpu.bus.memory[0x0013], 0x80);
    assert_eq!((flags(&cpu).0, flags(&cpu).1, flags(&cpu).3), (true, false, true));
    run(&mut cpu);
    assert_eq!(cpu.bus.memory[0x0014], 0xff);
    assert_eq!((flags(&cpu).0, flags(&cpu).1, flags(&cpu).3), (true, false, true));
    run(&mut cpu);
    assert_eq!(cpu.bus.memory[0x0015], 0x80);
    assert_eq!((flags(&cpu).0, flags(&cpu).1, flags(&cpu).3), (true, false, true));
}

#[test]
fn read_modify_write_cycle_counts() {
    let mut cpu = start(0x0200, &[0xe6, 0x10, 0xf6, 0x10, 0xee, 0x00, 0x30, 0xfe, 0x00, 0x30, 0xfe, 0xff, 0x30]);
    cpu.x = 0x01;
    let counts: Vec<u64> = (0..5).map(|_| run(&mut cpu)).collect();
    assert_eq!(counts, vec![5, 6, 6, 7, 7]);
    assert_eq!(cpu.bus.memory[0x3100], 0x01);
}

#[test]
fn register_transfers_and_steps() {
    let mut cpu = start(0x0200, &[0xaa, 0xa8, 0x8a, 0x98, 0xba, 0x9a, 0xe8, 0xc8, 0xca, 0x88]);
    cpu.a = 0x80;
    assert_eq!(run(&mut cpu), 2);
    assert_eq!(cpu.x, 0x80);
    assert!(cpu.p.contains(Flag::N));
    run(&mut cpu);
    assert_eq!(cpu.y, 0x80);
    cpu.x = 0x00;
    run(&mut cpu);
    assert_eq!(cpu.a, 0x00);
    assert!(cpu.p.contains(Flag::Z));
    cpu.y = 0x01;
    run(&mut cpu);
    assert_eq!(cpu.a, 0x01);
    assert!(!cpu.p.contains(Flag::Z));
    cpu.s = 0xf0;
    run(&mut cpu);
    assert_eq!(cpu.x, 0xf0);
    assert!(cpu.p.contains(Flag::N));
    cpu.x = 0x00;
    run(&mut cpu);
    assert_eq!(cpu.s, 0x00);
    assert!(cpu.p.contains(Flag::N));
    cpu.x = 0xff;
    run(&mut cpu);
    assert_eq!(cpu.x, 0x00);
    assert!(cpu.p.contains(Flag::Z));
    cpu.y = 0x7f;
    run(&mut cpu);
    assert_eq!(cpu.y, 0x80);
    assert!(cpu.p.contains(Flag::N));
    cpu.x = 0x00;
    run(&mut cpu);
    assert_eq!(cpu.x, 0xff);
    cpu.y = 0x01;
    run(&mut cpu);
    assert_eq!(cpu.y, 0x00);
    assert!(cpu.p.contains(Flag::Z));
}

#[test]
fn flag_instructions() {
    let mut cpu = start(0x0200, &[0x38, 0xf8, 0x78, 0x18, 0xd8, 0x58, 0xb8]);
    cpu.p = Status::from_bits_truncate(0x20);
    assert_eq!(run(&mut cpu), 2);
    assert_eq!(cpu.p.bits(), 0x21);
    run(&mut cpu);
    assert_eq!(cpu.p.bits(), 0x29);
    run(&mut cpu);
    assert_eq!(cpu.p.bits(), 0x2d);
    run(&mut cpu);
    assert_eq!(cpu.p.bits(), 0x2c);
    run(&mut cpu);
    assert_eq!(cpu.p.bits(), 0x24);
    run(&mut cpu);
    assert_eq!(cpu.p.bits(), 0x20);
    cpu.p = Status::from_bits_truncate(0xe0);
    run(&mut cpu);
    assert_eq!(cpu.p.bits(), 0xa0);
}

#[test]
fn jmp_absolute() {
    let mut cpu = start(0x0200, &[0x4c, 0x34, 0x12]);
    assert_eq!(run(&mut cpu), 3);
    assert_eq!(cpu.pc, 0x1234);
}

#[test]
fn jmp_indirect_reads_the_high_byte_from_the_same_page() {
    let mut cpu = start(0x0200, &[0x6c, 0xff, 0x12]);
    cpu.bus.memory[0x12ff] = 0x78;
    cpu.bus.memory[0x1200] = 0x56;
    cpu.bus.memory[0x1300] = 0x99;
    assert_eq!(run(&mut cpu), 5);
    assert_eq!(cpu.pc, 0x5678);
    assert_eq!(cpu.bus.cycles[3], read(0x12ff, 0x78));
    assert_eq!(cpu.bus.cycles[4], read(0x1200, 0x56));
}

#[test]
fn jsr_pushes_the_address_of_its_last_byte() {
    let mut cpu = start(0x0200, &[0x20, 0x34, 0x12]);
    cpu.bus.memory[0x01fe] = 0xee;
    assert_eq!(run(&mut cpu), 6);
    assert_eq!(cpu.pc, 0x1234);
    assert_eq!(cpu.s, 0xfb);
    assert_eq!(
        cpu.bus.cycles,
        vec![
            read(0x0200, 0x20),
            read(0x0201, 0x34),
            read(0x01fe, 0xee),
            write(0x01fd, 0x02),
            write(0x01fc, 0x02),
            read(0x0202, 0x12)
        ]
    );
}

#[test]
fn jsr_then_rts_returns_to_the_next_instruction() {
    let mut cpu = start(0x0200, &[0x20, 0x00, 0x30, 0xea]);
    cpu.bus.memory[0x3000] = 0x60;
    assert_eq!(run(&mut cpu), 6);
    assert_eq!(cpu.pc, 0x3000);
    assert_eq!(run(&mut cpu), 6);
    assert_eq!(cpu.pc, 0x0203);
    assert_eq!(cpu.s, 0xfd);
    assert_eq!(
        cpu.bus.cycles,
        vec![
            read(0x3000, 0x60),
            read(0x3001, 0x00),
            read(0x01fc, 0x02),
            read(0x01fc, 0x02),
            read(0x01fd, 0x02),
            read(0x0202, 0x30)
        ]
    );
}

#[test]
fn brk_pushes_the_break_flag_and_takes_the_irq_vector() {
    let mut cpu = start(0x0200, &[0x00, 0xff]);
    cpu.bus.memory[0xfffe] = 0x00;
    cpu.bus.memory[0xffff] = 0x40;
    cpu.p = Status::from_bits_truncate(0x23);
    assert_eq!(run(&mut cpu), 7);
    assert_eq!(cpu.pc, 0x4000);
    assert_eq!(cpu.s, 0xfa);
    assert_eq!(cpu.p.bits(), 0x27);
    assert_eq!(
        cpu.bus.cycles,
        vec![
            read(0x0200, 0x00),
            read(0x0201, 0xff),
            write(0x01fd, 0x02),
            write(0x01fc, 0x02),
            write(0x01fb, 0x33),
            read(0xfffe, 0x00),
            read(0xffff, 0x40)
        ]
    );
}

#[test]
fn rti_pulls_the_flags_and_the_program_counter() {
    let mut cpu = start(0x0200, &[0x40]);
    cpu.s = 0xfa;
    cpu.bus.memory[0x01fb] = 0xdb;
    cpu.bus.memory[0x01fc] = 0x34;
    cpu.bus.memory[0x01fd] = 0x12;
    cpu.p = Status::from_bits_truncate(0x24);
    assert_eq!(run(&mut cpu), 6);
    assert_eq!(cpu.pc, 0x1234);
    assert_eq!(cpu.s, 0xfd);
    assert_eq!(cpu.p.bits(), 0xeb);
    assert_eq!(
        cpu.bus.cycles,
        vec![
            read(0x0200, 0x40),
            read(0x0201, 0x00),
            read(0x01fb, 0xdb),
            read(0x01fb, 0xdb),
            read(0x01fc, 0x34),
            read(0x01fd, 0x12)
        ]
    );
}

#[test]
fn brk_then_rti_returns_past_the_padding_byte() {
    let mut cpu = start(0x0200, &[0x00, 0xff, 0xea]);
    cpu.bus.memory[0xfffe] = 0x00;
    cpu.bus.memory[0xffff] = 0x40;
    cpu.bus.memory[0x4000] = 0x40;
    cpu.p = Status::from_bits_truncate(0xe1);
    run(&mut cpu);
    assert_eq!(cpu.p.bits(), 0xe5);
    run(&mut cpu);
    assert_eq!(cpu.pc, 0x0202);
    assert_eq!(cpu.p.bits(), 0xe1);
    assert_eq!(cpu.s, 0xfd);
}

#[test]
fn pha_then_pla_restores_a() {
    let mut cpu = start(0x0200, &[0x48, 0xa9, 0x00, 0x68]);
    cpu.a = 0x80;
    assert_eq!(run(&mut cpu), 3);
    assert_eq!(cpu.s, 0xfc);
    assert_eq!(cpu.bus.cycles, vec![read(0x0200, 0x48), read(0x0201, 0xa9), write(0x01fd, 0x80)]);
    run(&mut cpu);
    assert_eq!(cpu.a, 0x00);
    assert!(cpu.p.contains(Flag::Z));
    assert_eq!(run(&mut cpu), 4);
    assert_eq!(cpu.a, 0x80);
    assert_eq!(cpu.s, 0xfd);
    assert!(cpu.p.contains(Flag::N));
    assert!(!cpu.p.contains(Flag::Z));
    assert_eq!(
        cpu.bus.cycles,
        vec![read(0x0203, 0x68), read(0x0204, 0x00), read(0x01fd, 0x80), read(0x01fd, 0x80)]
    );
}

#[test]
fn pla_of_zero_sets_the_zero_flag() {
    let mut cpu = start(0x0200, &[0x68]);
    cpu.a = 0x55;
    cpu.s = 0x10;
    cpu.bus.memory[0x0111] = 0x00;
    run(&mut cpu);
    assert_eq!(cpu.a, 0x00);
    assert!(cpu.p.contains(Flag::Z));
    assert!(!cpu.p.contains(Flag::N));
}

#[test]
fn php_pushes_with_the_break_and_unused_bits() {
    let mut cpu = start(0x0200, &[0x08]);
    cpu.p = Status::from_bits_truncate(0xc3);
    assert_eq!(run(&mut cpu), 3);
    assert_eq!(cpu.bus.memory[0x01fd], 0xf3);
    assert_eq!(cpu.p.bits(), 0xe3);
    assert_eq!(cpu.s, 0xfc);
}

#[test]
fn plp_keeps_the_break_and_unused_bits() {
    let mut cpu = start(0x0200, &[0x28, 0x28]);
    cpu.s = 0xfb;
    cpu.bus.memory[0x01fc] = 0xff;
    cpu.bus.memory[0x01fd] = 0x00;
    cpu.p = Status::from_bits_truncate(0x20);
    assert_eq!(run(&mut cpu), 4);
    assert_eq!(cpu.p.bits(), 0xef);
    run(&mut cpu);
    assert_eq!(cpu.p.bits(), 0x20);
    assert_eq!(cpu.s, 0xfd);
}

#[test]
fn php_then_plp_restores_the_flags() {
    let mut cpu = start(0x0200, &[0x08, 0x28]);
    cpu.p = Status::from_bits_truncate(0xaf);
    run(&mut cpu);
    cpu.p = Status::from_bits_truncate(0x20);
    run(&mut cpu);
    assert_eq!(cpu.p.bits(), 0xaf);
    assert_eq!(cpu.s, 0xfd);
}

#[test]
fn branch_not_taken() {
    let mut cpu = start(0x0200, &[0xf0, 0x20]);
    cpu.p.remove(Flag::Z);
    assert_eq!(run(&mut cpu), 2);
    assert_eq!(cpu.pc, 0x0202);
}

#[test]
fn branch_taken_within_the_page() {
    let mut cpu = start(0x0200, &[0xd0, 0x20]);
    cpu.p.remove(Flag::Z);
    assert_eq!(run(&mut cpu), 3);
    assert_eq!(cpu.pc, 0x0222);
    assert_eq!(cpu.bus.cycles, vec![read(0x0200, 0xd0), read(0x0201, 0x20), read(0x0202, 0x00)]);
}

#[test]
fn beq_taken_with_page_cross() {
    let mut cpu = start(0x10f0, &[0xf0, 0x20]);
    cpu.p.insert(Flag::Z);
    assert_eq!(run(&mut cpu), 4);
    assert_eq!(cpu.pc, 0x1112);
    let addresses: Vec<u16> = cpu.bus.cycles.iter().map(|cycle| cycle.0).collect();
    assert_eq!(addresses, vec![0x10f0, 0x10f1, 0x10f2, 0x1012]);
}

#[test]
fn branch_backwards_across_a_page() {
    let mut cpu = start(0x0200, &[0x90, 0xfc]);
    cpu.p.remove(Flag::C);
    assert_eq!(run(&mut cpu), 4);
    assert_eq!(cpu.pc, 0x01fe);
    let addresses: Vec<u16> = cpu.bus.cycles.iter().map(|cycle| cycle.0).collect();
    assert_eq!(addresses, vec![0x0200, 0x0201, 0x0202, 0x02fe]);
}

#[test]
fn every_branch_goes_by_its_flag() {
    let cases: [(u8, u8, bool); 16] = [
        (0x10, 0x00, true),
        (0x10, 0x80, false),
        (0x30, 0x80, true),
        (0x30, 0x00, false),
        (0x50, 0x00, true),
        (0x50, 0x40, false),
        (0x70, 0x40, true),
        (0x70, 0x00, false),
        (0x90, 0x00, true),
        (0x90, 0x01, false),
        (0xb0, 0x01, true),
        (0xb0, 0x00, false),
        (0xd0, 0x00, true),
        (0xd0, 0x02, false),
        (0xf0, 0x02, true),
        (0xf0, 0x00, false),
    ];
    for (opcode, status, taken) in cases {
        let mut cpu = start(0x0200, &[opcode, 0x10]);
        cpu.p = Status::from_bits_truncate(status | 0x20);
        let cycles = run(&mut cpu);
        if taken {
            assert_eq!((cpu.pc, cycles), (0x0212, 3));
        } else {
            assert_eq!((cpu.pc, cycles), (0x0202, 2));
        }
        assert_eq!(cpu.p.bits(), status | 0x20);
    }
}

#[test]
fn program_counter_wraps() {
    let mut cpu = start(0xffff, &[0xa9, 0x42]);
    assert_eq!(run(&mut cpu), 2);
    assert_eq!(cpu.a, 0x42);
    assert_eq!(cpu.pc, 0x0001);
    assert_eq!(cpu.bus.cycles, vec![read(0xffff, 0xa9), read(0x0000, 0x42)]);
}

#[test]
fn brk_at_the_top_of_memory_wraps_the_program_counter() {
    let mut cpu = start(0xfffe, &[0x00]);
    cpu.bus.memory[0xfffe] = 0x00;
    cpu.bus.memory[0xffff] = 0x40;
    assert_eq!(run(&mut cpu), 7);
    assert_eq!(cpu.bus.cycles[2], write(0x01fd, 0x00));
    assert_eq!(cpu.bus.cycles[3], write(0x01fc, 0x00));
    assert_eq!(cpu.pc, 0x4000);
}

#[test]
fn stack_pointer_wraps() {
    let mut cpu = start(0x0200, &[0x48, 0x48, 0x68, 0x68]);
    cpu.s = 0x00;
    cpu.a = 0x11;
    run(&mut cpu);
    assert_eq!(cpu.s, 0xff);
    assert_eq!(cpu.bus.memory[0x0100], 0x11);
    cpu.a = 0x22;
    run(&mut cpu);
    assert_eq!(cpu.s, 0xfe);
    assert_eq!(cpu.bus.memory[0x01ff], 0x22);
    run(&mut cpu);
    assert_eq!((cpu.a, cpu.s), (0x22, 0xff));
    run(&mut cpu);
    assert_eq!((cpu.a, cpu.s), (0x11, 0x00));
}

#[test]
fn nop_takes_two_cycles() {
    let mut cpu = start(0x0200, &[0xea]);
    let before = (cpu.a, cpu.x, cpu.y, cpu.s, cpu.p.bits());
    assert_eq!(run(&mut cpu), 2);
    assert_eq!((cpu.a, cpu.x, cpu.y, cpu.s, cpu.p.bits()), before);
    assert_eq!(cpu.pc, 0x0201);
    assert_eq!(cpu.bus.cycles, vec![read(0x0200, 0xea), read(0x0201, 0x00)]);
}
