use p65::bus::{Memory, MemoryArray};
use p65::cpu::{CpuError, P65};
use p65::flags::P65Flags;

fn boot(program: &[(u16, u8)], start: u16) -> (P65, MemoryArray) {
    let mut mem = MemoryArray::new(65536).unwrap();
    for &(a, v) in program {
        mem.ram[a as usize] = v;
    }
    mem.ram[0xFFFC] = (start & 0xFF) as u8;
    mem.ram[0xFFFD] = (start >> 8) as u8;
    let mut cpu = P65::new();
    cpu.reset(&mut mem);
    (cpu, mem)
}

struct CountingBus {
    ram: Vec<u8>,
    watched: u16,
    writes: Vec<u8>,
}

impl Memory for CountingBus {
    fn read(&mut self, addr: u16) -> u8 {
        self.ram[addr as usize]
    }
    fn write(&mut self, addr: u16, value: u8) {
        if addr == self.watched {
            self.writes.push(value);
        }
        self.ram[addr as usize] = value;
    }
}

#[test]
fn adc_carry_chain() {
    let (mut cpu, mut mem) = boot(&[(0x0200, 0x69), (0x0201, 0x50)], 0x0200);
    cpu.a = 0x50;
    cpu.p.c = false;
    let pc0 = cpu.pc;
    let c0 = cpu.cycle;
    cpu.step(&mut mem, 1).unwrap();
    assert_eq!(cpu.a, 0xA0);
    assert!(cpu.p.n);
    assert!(cpu.p.v);
    assert!(!cpu.p.c);
    assert!(!cpu.p.z);
    assert_eq!(cpu.pc, pc0 + 2);
    assert_eq!(cpu.cycle - c0, 2);
}

#[test]
fn jmp_indirect_page_wrap() {
    let (mut cpu, mut mem) = boot(
        &[(0x0100, 0x6C), (0x0101, 0xFF), (0x0102, 0x30), (0x30FF, 0x80), (0x3000, 0x40), (0x3100, 0x00)],
        0x0100,
    );
    let c0 = cpu.cycle;
    cpu.step(&mut mem, 1).unwrap();
    // low byte from $30FF, high byte from $3000 (not $3100): target $4080;
    // the next opcode was fetched there, so PC is one past it
    assert_eq!(cpu.pc, 0x4081);
    assert_ne!(cpu.pc, 0x0081);
    assert_eq!(cpu.cycle - c0, 5);
}

#[test]
fn branch_page_cross() {
    // the page is judged from the address after the operand, 0x0100, which
    // is on the target's page
    let (mut cpu, mut mem) = boot(&[(0x00FE, 0xF0), (0x00FF, 0x10)], 0x00FE);
    cpu.p.z = true;
    let c0 = cpu.cycle;
    cpu.step(&mut mem, 1).unwrap();
    assert_eq!(cpu.pc, 0x0111);
    assert_eq!(cpu.cycle - c0, 3);
    // from 0x00F2 to 0x0102 the page changes
    let (mut cpu, mut mem) = boot(&[(0x00F0, 0xF0), (0x00F1, 0x10)], 0x00F0);
    cpu.p.z = true;
    let c0 = cpu.cycle;
    cpu.step(&mut mem, 1).unwrap();
    assert_eq!(cpu.pc, 0x0103);
    assert_eq!(cpu.cycle - c0, 4);
}

#[test]
fn nmi_hijacks_brk() {
    let (mut cpu, mut mem) = boot(&[(0x0200, 0x00), (0xFFFA, 0x00), (0xFFFB, 0x90), (0xFFFE, 0x00), (0xFFFF, 0xA0)], 0x0200);
    cpu.run(&mut mem, 2).unwrap();
    assert_eq!(cpu.ts, 3);
    cpu.nmi_set();
    cpu.run(&mut mem, 5).unwrap();
    assert_eq!(cpu.ts, 1);
    assert_eq!(cpu.pc, 0x9001);
    assert_eq!(mem.ram[0x01FD], 0x02);
    assert_eq!(mem.ram[0x01FC], 0x02);
    assert_eq!(mem.ram[0x01FB] & 0x10, 0x10);
    assert_eq!(cpu.s, 0xFA);
}

#[test]
fn rmw_wasted_write() {
    let mut bus = CountingBus { ram: vec![0u8; 65536], watched: 0x0040, writes: Vec::new() };
    bus.ram[0x0200] = 0xE6;
    bus.ram[0x0201] = 0x40;
    bus.ram[0xFFFC] = 0x00;
    bus.ram[0xFFFD] = 0x02;
    let mut cpu = P65::new();
    cpu.reset(&mut bus);
    let c0 = cpu.cycle;
    cpu.step(&mut bus, 1).unwrap();
    assert_eq!(bus.writes, vec![0x00, 0x01]);
    assert_eq!(bus.ram[0x0040], 0x01);
    assert_eq!(cpu.cycle - c0, 5);
}

#[test]
fn reset_entry() {
    let (cpu, _mem) = boot(&[(0x8000, 0xEA)], 0x8000);
    assert_eq!(cpu.pc, 0x8001);
    assert_eq!(cpu.s, 0xFD);
    assert!(cpu.p.i);
    assert_eq!(cpu.op, 0xEA);
    assert_eq!(cpu.cycle, 8);
    assert_eq!(cpu.ts, 1);
}

#[test]
fn power_up_state() {
    let cpu = P65::new();
    assert_eq!(cpu.a, 0xAA);
    assert_eq!(cpu.s, 0xFD);
    assert!(cpu.p.i && cpu.p.z && cpu.p.b);
    assert_eq!(cpu.p.pack(), 0x36);
}

#[test]
fn flags_round_trip() {
    let mut f = P65Flags { n: false, v: false, bit5: true, b: false, d: false, i: false, z: false, c: false };
    for x in 0..=255u8 {
        f.unpack_including_b(x);
        assert_eq!(f.pack(), x | 0x20);
    }
}

#[test]
fn flags_unpack_keeps_b() {
    let mut f = P65Flags { n: false, v: false, bit5: true, b: true, d: false, i: false, z: false, c: false };
    f.unpack(0x00);
    assert!(f.b);
    assert_eq!(f.pack(), 0x30);
    f.unpack_including_b(0x00);
    assert!(!f.b);
    assert_eq!(f.pack(), 0x20);
}

#[test]
fn register_op_takes_two_cycles() {
    let (mut cpu, mut mem) = boot(&[(0x0300, 0xAA), (0x0301, 0xE8), (0x0302, 0x0A)], 0x0300);
    cpu.a = 0x80;
    let c0 = cpu.cycle;
    cpu.step(&mut mem, 1).unwrap();
    assert_eq!(cpu.x, 0x80);
    assert!(cpu.p.n);
    assert_eq!(cpu.pc, 0x0302);
    assert_eq!(cpu.cycle - c0, 2);
    cpu.step(&mut mem, 1).unwrap();
    assert_eq!(cpu.x, 0x81);
    assert_eq!(cpu.cycle - c0, 4);
    cpu.step(&mut mem, 1).unwrap();
    assert_eq!(cpu.a, 0x00);
    assert!(cpu.p.c && cpu.p.z);
    assert_eq!(cpu.cycle - c0, 6);
}

#[test]
fn abs_indexed_page_cross_penalty() {
    // LDA $12F0,X with X = 0x0F (no cross), then with X = 0x10 (cross)
    let (mut cpu, mut mem) = boot(
        &[(0x0400, 0xBD), (0x0401, 0xF0), (0x0402, 0x12), (0x12FF, 0x11), (0x1300, 0x22)],
        0x0400,
    );
    cpu.x = 0x0F;
    let c0 = cpu.cycle;
    cpu.step(&mut mem, 1).unwrap();
    assert_eq!(cpu.a, 0x11);
    assert_eq!(cpu.cycle - c0, 4);

    let (mut cpu, mut mem) = boot(
        &[(0x0400, 0xBD), (0x0401, 0xF0), (0x0402, 0x12), (0x12FF, 0x11), (0x1300, 0x22)],
        0x0400,
    );
    cpu.x = 0x10;
    let c0 = cpu.cycle;
    cpu.step(&mut mem, 1).unwrap();
    assert_eq!(cpu.a, 0x22);
    assert_eq!(cpu.cycle - c0, 5);
}

#[test]
fn ind_y_page_cross_penalty() {
    // LDA ($20),Y with [$20] = $12F0
    let prog = [(0x0400, 0xB1), (0x0401, 0x20), (0x0020, 0xF0), (0x0021, 0x12), (0x12FF, 0x11), (0x1300, 0x22)];
    let (mut cpu, mut mem) = boot(&prog, 0x0400);
    cpu.y = 0x0F;
    let c0 = cpu.cycle;
    cpu.step(&mut mem, 1).unwrap();
    assert_eq!(cpu.a, 0x11);
    assert_eq!(cpu.cycle - c0, 5);
    let (mut cpu, mut mem) = boot(&prog, 0x0400);
    cpu.y = 0x10;
    let c0 = cpu.cycle;
    cpu.step(&mut mem, 1).unwrap();
    assert_eq!(cpu.a, 0x22);
    assert_eq!(cpu.cycle - c0, 6);
}

#[test]
fn branch_timings() {
    // BNE +4 at 0x0500 with Z set: not taken
    let (mut cpu, mut mem) = boot(&[(0x0500, 0xD0), (0x0501, 0x04)], 0x0500);
    cpu.p.z = true;
    let c0 = cpu.cycle;
    cpu.step(&mut mem, 1).unwrap();
    assert_eq!(cpu.pc, 0x0503);
    assert_eq!(cpu.cycle - c0, 2);
    // taken, same page
    let (mut cpu, mut mem) = boot(&[(0x0500, 0xD0), (0x0501, 0x04)], 0x0500);
    cpu.p.z = false;
    let c0 = cpu.cycle;
    cpu.step(&mut mem, 1).unwrap();
    assert_eq!(cpu.pc, 0x0507);
    assert_eq!(cpu.cycle - c0, 3);
    // taken backwards across a page
    let (mut cpu, mut mem) = boot(&[(0x0500, 0xD0), (0x0501, 0xF0)], 0x0500);
    cpu.p.z = false;
    let c0 = cpu.cycle;
    cpu.step(&mut mem, 1).unwrap();
    assert_eq!(cpu.pc, 0x04F3);
    assert_eq!(cpu.cycle - c0, 4);
}

#[test]
fn pha_pla_restores_a() {
    let (mut cpu, mut mem) = boot(&[(0x0600, 0x48), (0x0601, 0xA9), (0x0602, 0x00), (0x0603, 0x68)], 0x0600);
    cpu.a = 0x9C;
    cpu.p.n = true;
    cpu.p.z = false;
    cpu.step(&mut mem, 3).unwrap();
    assert_eq!(cpu.a, 0x9C);
    assert!(cpu.p.n && !cpu.p.z);
    assert_eq!(cpu.s, 0xFD);
    assert_eq!(mem.ram[0x01FD], 0x9C);
}

#[test]
fn php_plp_restores_flags() {
    let (mut cpu, mut mem) = boot(&[(0x0600, 0x08), (0x0601, 0x18), (0x0602, 0x28)], 0x0600);
    cpu.p.c = true;
    cpu.p.d = true;
    let before = cpu.p.pack();
    cpu.step(&mut mem, 3).unwrap();
    assert_eq!(mem.ram[0x01FD], before | 0x10);
    assert_eq!(cpu.p.pack(), before);
    assert!(cpu.p.c);
}

#[test]
fn sbc_binary() {
    // SEC; SBC #$01 on A = 0x00: 0xFF with borrow
    let (mut cpu, mut mem) = boot(&[(0x0700, 0x38), (0x0701, 0xE9), (0x0702, 0x01)], 0x0700);
    cpu.a = 0x00;
    cpu.step(&mut mem, 2).unwrap();
    assert_eq!(cpu.a, 0xFF);
    assert!(!cpu.p.c && cpu.p.n && !cpu.p.v);
    // 0x80 - 0x01 overflows to 0x7F
    let (mut cpu, mut mem) = boot(&[(0x0700, 0x38), (0x0701, 0xE9), (0x0702, 0x01)], 0x0700);
    cpu.a = 0x80;
    cpu.step(&mut mem, 2).unwrap();
    assert_eq!(cpu.a, 0x7F);
    assert!(cpu.p.c && cpu.p.v);
}

#[test]
fn decimal_adc_and_sbc() {
    // SED; CLC; LDA #$09; ADC #$01 -> $10
    let (mut cpu, mut mem) = boot(
        &[(0x0700, 0xF8), (0x0701, 0x18), (0x0702, 0xA9), (0x0703, 0x09), (0x0704, 0x69), (0x0705, 0x01)],
        0x0700,
    );
    cpu.step(&mut mem, 4).unwrap();
    assert_eq!(cpu.a, 0x10);
    assert!(!cpu.p.c);
    // 99 + 1 = 00 carry; Z follows the binary sum 0x9A, so it stays clear
    let (mut cpu, mut mem) = boot(
        &[(0x0700, 0xF8), (0x0701, 0x18), (0x0702, 0xA9), (0x0703, 0x99), (0x0704, 0x69), (0x0705, 0x01)],
        0x0700,
    );
    cpu.step(&mut mem, 4).unwrap();
    assert_eq!(cpu.a, 0x00);
    assert!(cpu.p.c);
    assert!(!cpu.p.z);
    assert!(cpu.p.n);
    // SED; SEC; LDA #$10; SBC #$01 -> $09
    let (mut cpu, mut mem) = boot(
        &[(0x0700, 0xF8), (0x0701, 0x38), (0x0702, 0xA9), (0x0703, 0x10), (0x0704, 0xE9), (0x0705, 0x01)],
        0x0700,
    );
    cpu.step(&mut mem, 4).unwrap();
    assert_eq!(cpu.a, 0x09);
    assert!(cpu.p.c);
}

#[test]
fn irq_service_pushes_b_clear() {
    let (mut cpu, mut mem) = boot(
        &[(0x0800, 0x58), (0x0801, 0xEA), (0x0802, 0xEA), (0xFFFE, 0x00), (0xFFFF, 0x90)],
        0x0800,
    );
    cpu.step(&mut mem, 1).unwrap();
    assert!(!cpu.p.i);
    cpu.irq_set();
    // the NOP at 0x0801, then the NOP at 0x0802 with the IRQ entered after it
    cpu.step(&mut mem, 2).unwrap();
    assert!(cpu.p.i);
    assert!(!cpu.irq_triggered);
    assert_eq!(cpu.pc, 0x9001);
    assert_eq!(cpu.s, 0xFA);
    let pushed = mem.ram[0x01FB];
    assert_eq!(pushed & 0x10, 0);
    assert_eq!(pushed & 0x04, 0);
    let ret = (mem.ram[0x01FD] as u16) << 8 | mem.ram[0x01FC] as u16;
    assert_eq!(ret, 0x0803);
}

#[test]
fn irq_masked_when_i_set() {
    let (mut cpu, mut mem) = boot(&[(0x0800, 0xEA), (0x0801, 0xEA), (0x0802, 0xEA)], 0x0800);
    cpu.irq_set();
    cpu.step(&mut mem, 3).unwrap();
    assert_eq!(cpu.pc, 0x0804);
    assert!(!cpu.irq_triggered);
}

#[test]
fn interrupt_lines_debounce() {
    let mut cpu = P65::new();
    cpu.cycle = 10;
    cpu.irq_set();
    assert!(cpu.irq);
    assert_eq!(cpu.irq_cycle, 10);
    cpu.cycle = 11;
    cpu.irq_clear();
    assert!(cpu.irq);
    cpu.cycle = 12;
    cpu.irq_clear();
    assert!(!cpu.irq);
    cpu.nmi_set();
    assert!(cpu.nmi);
    cpu.nmi_clear();
    assert!(cpu.nmi);
}

#[test]
fn jsr_rts_round_trip() {
    let (mut cpu, mut mem) = boot(
        &[(0x0900, 0x20), (0x0901, 0x00), (0x0902, 0x0A), (0x0A00, 0x60)],
        0x0900,
    );
    let c0 = cpu.cycle;
    cpu.step(&mut mem, 1).unwrap();
    assert_eq!(cpu.pc, 0x0A01);
    assert_eq!(mem.ram[0x01FD], 0x09);
    assert_eq!(mem.ram[0x01FC], 0x02);
    assert_eq!(cpu.cycle - c0, 6);
    cpu.step(&mut mem, 1).unwrap();
    assert_eq!(cpu.pc, 0x0904);
    assert_eq!(cpu.cycle - c0, 12);
}

#[test]
fn store_and_shift_memory() {
    // LDA #$81; STA $10; ASL $10
    let (mut cpu, mut mem) = boot(
        &[(0x0900, 0xA9), (0x0901, 0x81), (0x0902, 0x85), (0x0903, 0x10), (0x0904, 0x06), (0x0905, 0x10)],
        0x0900,
    );
    cpu.step(&mut mem, 3).unwrap();
    assert_eq!(mem.ram[0x0010], 0x02);
    assert!(cpu.p.c);
}

#[test]
fn illegal_opcode_stops_run() {
    let (mut cpu, mut mem) = boot(&[(0x0A00, 0xEA), (0x0A01, 0x02)], 0x0A00);
    let r = cpu.run(&mut mem, 10);
    assert_eq!(r, Err(CpuError::IllegalOpcode { op: 0x02, pc: 0x0A02 }));
    assert_eq!(cpu.ts, 1);
    assert_eq!(cpu.op, 0x02);
    let r = cpu.step(&mut mem, 1);
    assert_eq!(r, Err(CpuError::IllegalOpcode { op: 0x02, pc: 0x0A02 }));
}

#[test]
fn run_returns_cycle_count() {
    let (mut cpu, mut mem) = boot(&[(0x0B00, 0xEA)], 0x0B00);
    assert_eq!(cpu.run(&mut mem, 3), Ok(11));
}

#[test]
fn step_stops_at_cycle_limit() {
    let (mut cpu, mut mem) = boot(&[(0x0B00, 0xEA)], 0x0B00);
    cpu.cycle = u64::MAX - 1;
    assert_eq!(cpu.step(&mut mem, 5), Err(CpuError::CycleLimit));
    assert_eq!(cpu.cycle, u64::MAX);
}

#[test]
fn memory_array_limits() {
    assert!(MemoryArray::new(65537).is_err());
    let mut m = MemoryArray::new(16).unwrap();
    assert_eq!(m.ram.len(), 16);
    m.write(0x0020, 7);
    assert_eq!(m.read(0x0020), 0);
    m.write(0x0003, 9);
    assert_eq!(m.read(0x0003), 9);
}

#[test]
fn memory_array_console() {
    let mut m = MemoryArray::new(65536).unwrap();
    m.write(0xF001, b'A');
    assert_eq!(m.output, vec![b'A']);
    assert_eq!(m.ram[0xF001], 0);
    m.ram[0xF004] = b'k';
    assert_eq!(m.read(0xF004), b'k');
    assert_eq!(m.read(0xF004), 0);
}
