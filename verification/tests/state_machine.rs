use sm83::cpu::register_file::RegisterFile;
use sm83::cpu::{Cpu, Power, Signal, Step};
use sm83::hardware::ram::Ram;
use sm83::hardware::Interrupt;

const START: u16 = 0x0100;

fn machine(program: &[u8]) -> (Cpu, Ram) {
    let mut regs = RegisterFile::new();
    regs.pc = START;
    regs.sp = 0xFFFE;
    let mut ram = Ram::new();
    ram.load(START, program);
    (Cpu::new(regs, Power::Running, false), ram)
}

fn done(cycles: u8) -> Step {
    Step { cycles, signal: None }
}

#[test]
fn a_new_processor_has_nothing_outstanding() {
    let cpu = Cpu::new(RegisterFile::new(), Power::Halted, true);
    assert_eq!(cpu.power, Power::Halted);
    assert!(cpu.ime);
    assert!(!cpu.ime_pending);
    assert!(!cpu.halt_bug);
    assert_eq!(cpu.regs, RegisterFile::new());
}

#[test]
fn interrupt_vectors() {
    assert_eq!(Interrupt::VBlank.vector(), 0x0040);
    assert_eq!(Interrupt::LcdStat.vector(), 0x0048);
    assert_eq!(Interrupt::Timer.vector(), 0x0050);
    assert_eq!(Interrupt::Serial.vector(), 0x0058);
    assert_eq!(Interrupt::Joypad.vector(), 0x0060);
}

#[test]
fn enable_interrupts_takes_effect_after_the_next_instruction() {
    let (mut cpu, mut ram) = machine(&[0xFB, 0x3C, 0x3C]);
    ram.requested = Some(Interrupt::VBlank);

    assert_eq!(cpu.step(&mut ram), done(1));
    assert!(!cpu.ime);
    assert_eq!(cpu.regs.pc, START + 1);

    assert_eq!(cpu.step(&mut ram), done(1));
    assert_eq!(cpu.regs.a, 1);
    assert_eq!(cpu.regs.pc, START + 2);
    assert!(cpu.ime);

    assert_eq!(
        cpu.step(&mut ram),
        Step { cycles: 5, signal: Some(Signal::Interrupt(Interrupt::VBlank)) }
    );
    assert_eq!(cpu.regs.a, 1);
    assert_eq!(cpu.regs.pc, 0x0040);
    assert_eq!(cpu.regs.sp, 0xFFFC);
    assert_eq!(ram.peek(0xFFFC), 0x02);
    assert_eq!(ram.peek(0xFFFD), 0x01);
    assert!(!cpu.ime);
    assert!(!cpu.ime_pending);
}

#[test]
fn disable_interrupts_drops_a_pending_enable() {
    let (mut cpu, mut ram) = machine(&[0xFB, 0xF3, 0x00, 0x00]);
    ram.requested = Some(Interrupt::Joypad);
    for _ in 0..4 {
        assert_eq!(cpu.step(&mut ram), done(1));
        assert!(!cpu.ime);
    }
    assert_eq!(cpu.regs.pc, START + 4);
}

#[test]
fn disable_interrupts_acts_at_once() {
    let (mut cpu, mut ram) = machine(&[0xF3, 0x00]);
    cpu.ime = true;
    assert_eq!(cpu.step(&mut ram), done(1));
    assert!(!cpu.ime);
    ram.requested = Some(Interrupt::Serial);
    assert_eq!(cpu.step(&mut ram), done(1));
    assert_eq!(cpu.regs.pc, START + 2);
}

#[test]
fn enable_twice_enables_after_the_second() {
    let (mut cpu, mut ram) = machine(&[0xFB, 0xFB, 0x00]);
    assert_eq!(cpu.step(&mut ram), done(1));
    assert!(!cpu.ime);
    assert_eq!(cpu.step(&mut ram), done(1));
    assert!(cpu.ime);
}

#[test]
fn return_from_interrupt_enables_at_once() {
    let (mut cpu, mut ram) = machine(&[0xD9]);
    cpu.regs.sp = 0xC000;
    ram.poke(0xC000, 0x00);
    ram.poke(0xC001, 0x02);
    ram.poke(0x0200, 0x3C);
    ram.requested = Some(Interrupt::Timer);
    assert_eq!(cpu.step(&mut ram), done(4));
    assert!(cpu.ime);
    assert_eq!(cpu.regs.pc, 0x0200);
    assert_eq!(cpu.regs.sp, 0xC002);
    assert_eq!(
        cpu.step(&mut ram),
        Step { cycles: 5, signal: Some(Signal::Interrupt(Interrupt::Timer)) }
    );
    assert_eq!(cpu.regs.a, 0);
    assert_eq!(cpu.regs.pc, 0x0050);
}

#[test]
fn without_a_request_nothing_is_taken() {
    let (mut cpu, mut ram) = machine(&[0x3C, 0x3C]);
    cpu.ime = true;
    assert_eq!(cpu.step(&mut ram), done(1));
    assert_eq!(cpu.step(&mut ram), done(1));
    assert_eq!(cpu.regs.a, 2);
    assert!(cpu.ime);
}

#[test]
fn halt_with_interrupts_disabled_and_a_request_runs_the_next_byte_twice() {
    let (mut cpu, mut ram) = machine(&[0x76, 0x3C, 0x00]);
    ram.requested = Some(Interrupt::VBlank);

    assert_eq!(cpu.step(&mut ram), done(1));
    assert_eq!(cpu.power, Power::Running);
    assert_eq!(cpu.regs.pc, START + 1);

    assert_eq!(cpu.step(&mut ram), done(1));
    assert_eq!(cpu.regs.a, 1);
    assert_eq!(cpu.regs.pc, START + 1);

    assert_eq!(cpu.step(&mut ram), done(1));
    assert_eq!(cpu.regs.a, 2);
    assert_eq!(cpu.regs.pc, START + 2);

    assert_eq!(cpu.step(&mut ram), done(1));
    assert_eq!(cpu.regs.a, 2);
    assert_eq!(cpu.regs.pc, START + 3);
    assert_eq!(cpu.regs.sp, 0xFFFE);
    assert!(!cpu.ime);
}

#[test]
fn halt_sleeps_until_a_request_and_goes_on_if_interrupts_are_disabled() {
    let (mut cpu, mut ram) = machine(&[0x76, 0x3C]);
    assert_eq!(cpu.step(&mut ram), Step { cycles: 1, signal: Some(Signal::Halt) });
    assert_eq!(cpu.power, Power::Halted);
    assert_eq!(cpu.regs.pc, START + 1);
    for _ in 0..3 {
        let before = cpu;
        assert_eq!(cpu.step(&mut ram), done(1));
        assert_eq!(cpu, before);
    }
    assert_eq!(ram.accesses, 4);
    ram.requested = Some(Interrupt::Timer);
    assert_eq!(cpu.step(&mut ram), done(1));
    assert_eq!(cpu.power, Power::Running);
    assert_eq!(cpu.regs.a, 1);
    assert_eq!(cpu.regs.pc, START + 2);
}

#[test]
fn halt_sleeps_until_a_request_and_takes_it_if_interrupts_are_enabled() {
    let (mut cpu, mut ram) = machine(&[0x76, 0x3C]);
    cpu.ime = true;
    assert_eq!(cpu.step(&mut ram), Step { cycles: 1, signal: Some(Signal::Halt) });
    assert_eq!(cpu.step(&mut ram), done(1));
    assert_eq!(cpu.power, Power::Halted);
    ram.requested = Some(Interrupt::LcdStat);
    assert_eq!(
        cpu.step(&mut ram),
        Step { cycles: 5, signal: Some(Signal::Interrupt(Interrupt::LcdStat)) }
    );
    assert_eq!(cpu.power, Power::Running);
    assert_eq!(cpu.regs.pc, 0x0048);
    assert_eq!(ram.peek(0xFFFC), 0x01);
    assert_eq!(ram.peek(0xFFFD), 0x01);
    assert_eq!(cpu.regs.a, 0);
}

#[test]
fn stop_sleeps_until_woken() {
    let (mut cpu, mut ram) = machine(&[0x10, 0x3C]);
    cpu.ime = true;
    assert_eq!(cpu.step(&mut ram), Step { cycles: 1, signal: Some(Signal::Stop) });
    assert_eq!(cpu.power, Power::Stopped);
    ram.requested = Some(Interrupt::Joypad);
    for _ in 0..3 {
        let before = cpu;
        assert_eq!(cpu.step(&mut ram), done(1));
        assert_eq!(cpu, before);
    }
    ram.requested = None;
    cpu.wake();
    assert_eq!(cpu.power, Power::Running);
    assert_eq!(cpu.step(&mut ram), done(1));
    assert_eq!(cpu.regs.a, 1);
}

#[test]
fn wake_leaves_every_other_state_alone() {
    for power in [Power::Running, Power::Halted, Power::Locked] {
        let mut cpu = Cpu::new(RegisterFile::new(), power, false);
        let before = cpu;
        cpu.wake();
        assert_eq!(cpu, before);
    }
}

#[test]
fn an_undefined_opcode_locks_the_processor_up_for_good() {
    for op in [0xD3u8, 0xDB, 0xDD, 0xE3, 0xE4, 0xEB, 0xEC, 0xED, 0xF4, 0xFC, 0xFD] {
        let (mut cpu, mut ram) = machine(&[op, 0x3C]);
        cpu.ime = true;
        let registers = cpu.regs;
        assert_eq!(cpu.step(&mut ram), Step { cycles: 1, signal: Some(Signal::Undefined) });
        assert_eq!(cpu.power, Power::Locked);
        let mut expected = registers;
        expected.pc = START + 1;
        assert_eq!(cpu.regs, expected);
        ram.requested = Some(Interrupt::VBlank);
        for _ in 0..3 {
            let before = cpu;
            assert_eq!(cpu.step(&mut ram), done(1));
            assert_eq!(cpu, before);
        }
        cpu.wake();
        assert_eq!(cpu.power, Power::Locked);
    }
}

#[test]
fn an_interrupt_is_taken_before_the_next_fetch() {
    for irq in [Interrupt::VBlank, Interrupt::LcdStat, Interrupt::Timer, Interrupt::Serial, Interrupt::Joypad] {
        let (mut cpu, mut ram) = machine(&[0x3C]);
        cpu.ime = true;
        cpu.regs.sp = 0xD000;
        ram.requested = Some(irq);
        assert_eq!(cpu.step(&mut ram), Step { cycles: 5, signal: Some(Signal::Interrupt(irq)) });
        assert_eq!(ram.accesses, 5);
        assert_eq!(cpu.regs.a, 0);
        assert_eq!(cpu.regs.pc, irq.vector());
        assert_eq!(cpu.regs.sp, 0xCFFE);
        assert_eq!(ram.peek(0xCFFE), 0x00);
        assert_eq!(ram.peek(0xCFFF), 0x01);
        assert!(!cpu.ime);
        assert_eq!(ram.requested, Some(irq));
    }
}

#[test]
fn two_processors_do_not_share_state() {
    let (mut first, mut first_ram) = machine(&[0x3C]);
    let (mut second, mut second_ram) = machine(&[0x3D]);
    first.step(&mut first_ram);
    second.step(&mut second_ram);
    assert_eq!(first.regs.a, 0x01);
    assert_eq!(second.regs.a, 0xFF);
}
