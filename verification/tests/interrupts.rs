use bog::interrupts::{Interrupts, IRQ, NMI, RST};
use bog::{Bus, Cpu, Flag, Pins, Status};

/// A host that is 64 KiB of memory, keeps a record of every bus cycle, and drives the
/// interrupt lines by a script: each line is high during the cycles whose numbers are
/// listed for it, counted from zero, and low during the others.
struct Board {
    memory: Vec<u8>,
    cycles: Vec<(u16, u8, bool)>,
    irq: Vec<usize>,
    nmi: Vec<usize>,
    rst: Vec<usize>,
}

impl Board {
    fn new() -> Board {
        Board { memory: vec![0; 0x10000], cycles: Vec::new(), irq: Vec::new(), nmi: Vec::new(), rst: Vec::new() }
    }
}

impl Bus for Board {
    fn tick(&mut self, pins: &mut Pins) {
        if pins.rw {
            pins.data = self.memory[pins.address as usize];
        } else {
            self.memory[pins.address as usize] = pins.data;
        }
        let number = self.cycles.len();
        pins.irq = self.irq.contains(&number);
        pins.nmi = self.nmi.contains(&number);
        pins.rst = self.rst.contains(&number);
        self.cycles.push((pins.address, pins.data, pins.rw));
    }
}

/// A processor past its reset at 0x0200, which holds `program`, with the vectors of the
/// non-maskable interrupt at 0x4000 and of the interrupt request at 0x5000, and the
/// record of bus cycles empty.
fn start(program: &[u8]) -> Cpu<Board> {
    let mut board = Board::new();
    for (offset, byte) in program.iter().enumerate() {
        board.memory[0x0200 + offset] = *byte;
    }
    board.memory[0xfffa] = 0x00;
    board.memory[0xfffb] = 0x40;
    board.memory[0xfffc] = 0x00;
    board.memory[0xfffd] = 0x02;
    board.memory[0xfffe] = 0x00;
    board.memory[0xffff] = 0x50;
    let mut cpu = Cpu::new(board);
    cpu.step();
    assert_eq!(cpu.pc, 0x0200);
    cpu.s = 0xfd;
    cpu.bus.cycles.clear();
    cpu
}

fn addresses(cpu: &Cpu<Board>, from: usize) -> Vec<u16> {
    cpu.bus.cycles[from..].iter().map(|cycle| cycle.0).collect()
}

#[test]
fn first_step_is_the_reset() {
    let mut board = Board::new();
    board.memory[0xfffc] = 0x34;
    board.memory[0xfffd] = 0x12;
    let mut cpu = Cpu::new(board);
    cpu.a = 0x11;
    cpu.x = 0x22;
    cpu.y = 0x33;
    cpu.pc = 0x4000;
    cpu.p = Status::from_bits(0xc3).unwrap();
    cpu.step();
    assert_eq!(cpu.pc, 0x1234);
    assert_eq!((cpu.a, cpu.x, cpu.y), (0x11, 0x22, 0x33));
    assert_eq!(cpu.p.bits(), 0xe7);
    assert_eq!(cpu.s, 0xfa);
    assert_eq!(cpu.cycles, 7);
    assert_eq!(addresses(&cpu, 0), vec![0x4000, 0x4000, 0x01fe, 0x01fd, 0x01fc, 0xfffc, 0xfffd]);
    assert!(cpu.bus.cycles.iter().all(|cycle| cycle.2));
}

#[test]
fn reset_runs_once() {
    let mut cpu = start(&[0xea, 0xea]);
    cpu.step();
    cpu.step();
    assert_eq!(cpu.pc, 0x0202);
    assert_eq!(cpu.cycles, 11);
}

#[test]
fn reset_line_is_latched_and_goes_first() {
    let mut cpu = start(&[0xea, 0xea]);
    cpu.bus.rst = vec![0];
    cpu.bus.nmi = vec![0, 1];
    cpu.bus.irq = vec![0, 1];
    cpu.p.remove(Flag::I);
    cpu.a = 0x77;
    cpu.step();
    assert_eq!(cpu.pc, 0x0201);
    cpu.step();
    assert_eq!(cpu.pc, 0x0200);
    assert_eq!(cpu.a, 0x77);
    assert_eq!(cpu.s, 0xfa);
    assert!(cpu.p.contains(Flag::I));
    assert_eq!(addresses(&cpu, 2), vec![0x0201, 0x0201, 0x01fe, 0x01fd, 0x01fc, 0xfffc, 0xfffd]);
    assert!(cpu.bus.cycles.iter().all(|cycle| cycle.2));
    cpu.step();
    assert_eq!(cpu.pc, 0x4000);
}

#[test]
fn nmi_edge_in_the_first_cycle_is_served_next() {
    let mut cpu = start(&[0xea, 0xea]);
    cpu.bus.nmi = vec![0];
    cpu.p = Status::from_bits_truncate(0x21);
    cpu.step();
    assert_eq!(cpu.pc, 0x0201);
    cpu.step();
    assert_eq!(cpu.pc, 0x4000);
    assert_eq!(cpu.s, 0xfa);
    assert_eq!(cpu.p.bits(), 0x25);
    assert_eq!(cpu.cycles, 7 + 2 + 7);
    assert_eq!(
        cpu.bus.cycles[2..].to_vec(),
        vec![
            (0x0201, 0xea, true),
            (0x0201, 0xea, true),
            (0x01fd, 0x02, false),
            (0x01fc, 0x01, false),
            (0x01fb, 0x21, false),
            (0xfffa, 0x00, true),
            (0xfffb, 0x40, true)
        ]
    );
}

#[test]
fn nmi_edge_in_the_last_cycle_waits_one_instruction() {
    let mut cpu = start(&[0xea, 0xea, 0xea]);
    cpu.bus.nmi = vec![1];
    cpu.step();
    cpu.step();
    assert_eq!(cpu.pc, 0x0202);
    cpu.step();
    assert_eq!(cpu.pc, 0x4000);
    assert_eq!(cpu.bus.memory[0x01fd], 0x02);
    assert_eq!(cpu.bus.memory[0x01fc], 0x02);
}

#[test]
fn nmi_edge_in_the_middle_of_a_long_instruction() {
    for cycle in 0..6 {
        let mut cpu = start(&[0xfe, 0x00, 0x30, 0xea]);
        cpu.bus.nmi = vec![cycle];
        cpu.step();
        assert_eq!(cpu.pc, 0x0203);
        cpu.step();
        assert_eq!(cpu.pc, 0x4000);
    }
}

#[test]
fn nmi_held_high_is_served_once() {
    let mut cpu = start(&[0xea, 0xea]);
    for address in 0x4000..0x4100 {
        cpu.bus.memory[address] = 0xea;
    }
    cpu.bus.nmi = (0..1000).collect();
    cpu.step();
    cpu.step();
    assert_eq!(cpu.pc, 0x4000);
    cpu.step();
    cpu.step();
    cpu.step();
    assert_eq!(cpu.pc, 0x4003);
    assert_eq!(cpu.s, 0xfa);
    for _ in 0..40 {
        cpu.step();
    }
    assert_eq!(cpu.s, 0xfa);
    assert_eq!(cpu.bus.cycles.iter().filter(|cycle| cycle.0 == 0xfffa).count(), 1);
    assert_eq!(cpu.bus.cycles.iter().filter(|cycle| cycle.0 == 0xfffb).count(), 1);
}

#[test]
fn nmi_that_falls_and_rises_again_is_served_again() {
    let mut cpu = start(&[0xea, 0xea]);
    cpu.bus.memory[0x4000] = 0xea;
    cpu.bus.memory[0x4001] = 0xea;
    cpu.bus.nmi = vec![0, 1, 2, 9];
    cpu.step();
    cpu.step();
    assert_eq!(cpu.pc, 0x4000);
    cpu.step();
    assert_eq!(cpu.pc, 0x4001);
    cpu.step();
    assert_eq!(cpu.pc, 0x4000);
    assert_eq!(cpu.s, 0xf7);
}

#[test]
fn nmi_edge_during_its_own_entry_is_served_again() {
    let mut cpu = start(&[0xea, 0xea]);
    cpu.bus.nmi = vec![0, 5];
    cpu.step();
    cpu.step();
    assert_eq!(cpu.pc, 0x4000);
    cpu.step();
    assert_eq!(cpu.pc, 0x4000);
    assert_eq!(cpu.s, 0xf7);
}

#[test]
fn irq_held_high_is_served_when_enabled() {
    let mut cpu = start(&[0xea, 0xea]);
    cpu.bus.irq = (0..100).collect();
    cpu.p = Status::from_bits_truncate(0x20);
    cpu.step();
    assert_eq!(cpu.pc, 0x0201);
    cpu.step();
    assert_eq!(cpu.pc, 0x5000);
    assert_eq!(cpu.p.bits(), 0x24);
    assert_eq!(cpu.s, 0xfa);
    assert_eq!(
        cpu.bus.cycles[2..].to_vec(),
        vec![
            (0x0201, 0xea, true),
            (0x0201, 0xea, true),
            (0x01fd, 0x02, false),
            (0x01fc, 0x01, false),
            (0x01fb, 0x20, false),
            (0xfffe, 0x00, true),
            (0xffff, 0x50, true)
        ]
    );
}

#[test]
fn irq_is_not_served_while_disabled() {
    let mut cpu = start(&[0xea, 0xea, 0xea]);
    cpu.bus.irq = (0..100).collect();
    cpu.p = Status::from_bits_truncate(0x24);
    cpu.step();
    cpu.step();
    cpu.step();
    assert_eq!(cpu.pc, 0x0203);
}

#[test]
fn irq_that_falls_before_the_second_to_last_cycle_is_not_served() {
    let mut cpu = start(&[0xad, 0x00, 0x30, 0xea]);
    cpu.bus.irq = vec![0, 1];
    cpu.p = Status::from_bits_truncate(0x20);
    cpu.step();
    cpu.step();
    assert_eq!(cpu.pc, 0x0204);
}

#[test]
fn irq_in_the_second_to_last_cycle_is_served() {
    let mut cpu = start(&[0xad, 0x00, 0x30, 0xea]);
    cpu.bus.irq = vec![2];
    cpu.p = Status::from_bits_truncate(0x20);
    cpu.step();
    cpu.step();
    assert_eq!(cpu.pc, 0x5000);
}

#[test]
fn irq_held_high_comes_back_after_cli() {
    let mut cpu = start(&[0xea]);
    cpu.bus.memory[0x5000] = 0x58;
    cpu.bus.memory[0x5001] = 0xea;
    cpu.bus.irq = (0..100).collect();
    cpu.p = Status::from_bits_truncate(0x20);
    cpu.step();
    cpu.step();
    assert_eq!(cpu.pc, 0x5000);
    assert!(cpu.p.contains(Flag::I));
    cpu.step();
    assert_eq!(cpu.pc, 0x5001);
    assert!(!cpu.p.contains(Flag::I));
    cpu.step();
    assert_eq!(cpu.pc, 0x5002);
    cpu.step();
    assert_eq!(cpu.pc, 0x5000);
    assert_eq!(cpu.s, 0xf7);
}

#[test]
fn sei_takes_effect_one_instruction_late() {
    let mut cpu = start(&[0x78, 0xea]);
    cpu.bus.irq = (0..100).collect();
    cpu.p = Status::from_bits_truncate(0x20);
    cpu.step();
    assert!(cpu.p.contains(Flag::I));
    cpu.step();
    assert_eq!(cpu.pc, 0x5000);
    assert_eq!(cpu.bus.memory[0x01fb], 0x24);
}

#[test]
fn nmi_goes_before_irq() {
    let mut cpu = start(&[0xea]);
    cpu.bus.irq = (0..100).collect();
    cpu.bus.nmi = vec![0];
    cpu.p = Status::from_bits_truncate(0x20);
    cpu.step();
    cpu.step();
    assert_eq!(cpu.pc, 0x4000);
}

#[test]
fn latches_at_power_up_hold_a_reset() {
    let mut latches = Interrupts::power_up();
    assert_eq!(latches.acknowledge(), Some(RST));
    assert_eq!(latches.acknowledge(), None);
}

#[test]
fn latches_go_by_the_lines_of_one_cycle_earlier() {
    let mut latches = Interrupts::power_up();
    latches.acknowledge();
    let mut pins = Pins::default();
    pins.irq = true;
    latches.poll(&pins, false);
    assert_eq!(latches.acknowledge(), None);
    latches.poll(&pins, true);
    assert_eq!(latches.acknowledge(), Some(IRQ));
    latches.poll(&pins, true);
    assert_eq!(latches.acknowledge(), None);
    pins.irq = false;
    pins.nmi = true;
    latches.poll(&pins, false);
    assert_eq!(latches.acknowledge(), None);
    latches.poll(&pins, false);
    assert_eq!(latches.acknowledge(), Some(NMI));
    latches.poll(&pins, false);
    assert_eq!(latches.acknowledge(), None);
    latches.poll(&pins, false);
    assert_eq!(latches.acknowledge(), None);
    pins.rst = true;
    latches.poll(&pins, false);
    assert_eq!(latches.acknowledge(), Some(RST));
    pins.rst = false;
    latches.poll(&pins, false);
    assert_eq!(latches.acknowledge(), None);
}
