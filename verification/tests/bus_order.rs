//! The accesses an instruction makes, in the order it makes them, seen from
//! a bus that writes every one of them down.

use sm83::cpu::register_file::RegisterFile;
use sm83::cpu::{Cpu, Power, Signal};
use sm83::hardware::{Bus, Interrupt};

#[derive(Clone, Copy, Debug, PartialEq, Eq)]
enum Access {
    Read(u16),
    Write(u16, u8),
    Tick,
}

struct Recorder {
    memory: Vec<u8>,
    log: Vec<Access>,
    requested: Option<Interrupt>,
}

impl Recorder {
    fn with_program(at: u16, program: &[u8]) -> Recorder {
        let mut memory = vec![0u8; 0x1_0000];
        for (i, byte) in program.iter().enumerate() {
            memory[at as usize + i] = *byte;
        }
        Recorder { memory, log: Vec::new(), requested: None }
    }
}

impl Bus for Recorder {
    type Model = ();

    fn read(&mut self, addr: u16) -> u8 {
        self.log.push(Access::Read(addr));
        self.memory[addr as usize]
    }

    fn write(&mut self, addr: u16, value: u8) {
        self.log.push(Access::Write(addr, value));
        self.memory[addr as usize] = value;
    }

    fn tick(&mut self) {
        self.log.push(Access::Tick);
    }

    fn pending_interrupt(&self) -> Option<Interrupt> {
        self.requested
    }
}

fn running_at(pc: u16, sp: u16) -> Cpu {
    let mut regs = RegisterFile::new();
    regs.pc = pc;
    regs.sp = sp;
    Cpu::new(regs, Power::Running, false)
}

#[test]
fn call_reads_target_then_pushes_high_byte_first() {
    let mut bus = Recorder::with_program(0x0100, &[0xCD, 0x34, 0x12]);
    let mut cpu = running_at(0x0100, 0xD000);
    let step = cpu.step(&mut bus);
    assert_eq!(step.cycles, 6);
    assert_eq!(step.signal, None);
    assert_eq!(
        bus.log,
        vec![
            Access::Read(0x0100),
            Access::Read(0x0101),
            Access::Read(0x0102),
            Access::Tick,
            Access::Write(0xCFFF, 0x01),
            Access::Write(0xCFFE, 0x03),
        ]
    );
    assert_eq!(cpu.regs.pc, 0x1234);
    assert_eq!(cpu.regs.sp, 0xCFFE);
}

#[test]
fn interrupt_dispatch_makes_five_accesses() {
    let mut bus = Recorder::with_program(0x0200, &[0x00]);
    bus.requested = Some(Interrupt::Timer);
    let mut cpu = running_at(0x0200, 0xFFFE);
    cpu.ime = true;
    let step = cpu.step(&mut bus);
    assert_eq!(step.cycles, 5);
    assert_eq!(step.signal, Some(Signal::Interrupt(Interrupt::Timer)));
    assert_eq!(
        bus.log,
        vec![
            Access::Tick,
            Access::Tick,
            Access::Write(0xFFFD, 0x02),
            Access::Write(0xFFFC, 0x00),
            Access::Tick,
        ]
    );
    assert_eq!(cpu.regs.pc, 0x0050);
    assert!(!cpu.ime);
}
