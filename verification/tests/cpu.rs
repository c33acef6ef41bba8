use jam1emu::cpu::{
    AddressBusRegister, AluBusRegister, AluOp, Condition, Control, Cpu, CpuError, Flags,
    IncrementRegister,
    InvalidBitPattern, MainBusAssertDevice, MainBusLoadDevice, Microcode, TransferBusRegister,
};
use jam1emu::device::{Audio, Controler, Lcd, Memory, Uart, Vga};
use jam1emu::types::{Byte, Word};

/// The registers and flags that a program can see.
#[derive(Debug, Clone, Copy, PartialEq, Eq)]
struct CpuState {
    program_counter: Word,
    stack_pointer: Word,
    source_index: Word,
    destination_index: Word,
    transfer: Word,
    a: Byte,
    b: Byte,
    c: Byte,
    d: Byte,
    overflow: bool,
    zero: bool,
    carry: bool,
    logical_carry: bool,
    sign: bool,
}

impl Default for CpuState {
    fn default() -> Self {
        CpuState {
            program_counter: Word::zero(),
            stack_pointer: Word::zero(),
            source_index: Word::zero(),
            destination_index: Word::zero(),
            transfer: Word::zero(),
            a: Byte::zero(),
            b: Byte::zero(),
            c: Byte::zero(),
            d: Byte::zero(),
            overflow: false,
            zero: false,
            carry: false,
            logical_carry: false,
            sign: false,
        }
    }
}

fn alu(op: AluOp, lhs: AluBusRegister, rhs: AluBusRegister, target: MainBusLoadDevice) -> impl Fn(Control) -> Control {
    move |c| Control {
        alu_op: op,
        lhs_bus_assert: lhs,
        rhs_bus_assert: rhs,
        main_bus_assert: MainBusAssertDevice::AluResult,
        main_bus_load: target,
        ..c
    }
}

fn main_bus(source: MainBusAssertDevice, target: MainBusLoadDevice) -> impl Fn(Control) -> Control {
    move |c| Control { main_bus_assert: source, main_bus_load: target, ..c }
}

fn transfer(source: TransferBusRegister, target: TransferBusRegister) -> impl Fn(Control) -> Control {
    move |c| Control { transfer_bus_assert: source, transfer_bus_load: target, ..c }
}

fn push(source: MainBusAssertDevice) -> impl Fn(Control) -> Control {
    move |c| Control {
        load_constant: true,
        transfer_bus_load: TransferBusRegister::Sp,
        address_bus_assert: AddressBusRegister::Sp,
        main_bus_assert: source,
        main_bus_load: MainBusLoadDevice::MemBridge,
        bus_request: true,
        ..c
    }
}

fn pop(target: MainBusLoadDevice) -> impl Fn(Control) -> Control {
    move |c| Control {
        address_bus_assert: AddressBusRegister::Sp,
        main_bus_assert: MainBusAssertDevice::MemBridge,
        main_bus_load: target,
        bus_request: true,
        increment_register: IncrementRegister::Sp,
        ..c
    }
}

/// Microcode for the instructions that the tests run. Every other opcode
/// behaves like NOP.
fn microcode() -> Microcode {
    let blank = || vec![0u8; 0x8000];
    let mut rom = Microcode::new(blank(), blank(), blank(), blank()).unwrap();
    let entries: Vec<(u8, Box<dyn Fn(Control) -> Control>)> = vec![
        (0x01, Box::new(|c| Control {
            no_fetch: true,
            load_constant: true,
            main_bus_assert: MainBusAssertDevice::Constant,
            main_bus_load: MainBusLoadDevice::A,
            ..c
        })),
        (0x07, Box::new(main_bus(MainBusAssertDevice::B, MainBusLoadDevice::A))),
        (0x13, Box::new(main_bus(MainBusAssertDevice::A, MainBusLoadDevice::Tl))),
        (0x18, Box::new(main_bus(MainBusAssertDevice::B, MainBusLoadDevice::Th))),
        (0x1B, Box::new(main_bus(MainBusAssertDevice::Tl, MainBusLoadDevice::A))),
        (0x20, Box::new(main_bus(MainBusAssertDevice::Th, MainBusLoadDevice::B))),
        (0x27, Box::new(transfer(TransferBusRegister::Tx, TransferBusRegister::Si))),
        (0x28, Box::new(transfer(TransferBusRegister::Si, TransferBusRegister::Tx))),
        (0x2C, Box::new(transfer(TransferBusRegister::Di, TransferBusRegister::Si))),
        (0x32, Box::new(|c| Control {
            load_constant: true,
            transfer_bus_load: TransferBusRegister::Si,
            ..c
        })),
        (0x35, Box::new(|c| Control { increment_register: IncrementRegister::Si, ..c })),
        (0x39, Box::new(main_bus(MainBusAssertDevice::A, MainBusLoadDevice::IoUartData))),
        (0x3F, Box::new(|c| Control { break_clock: true, ..c })),
        (0x72, Box::new(push(MainBusAssertDevice::A))),
        (0x73, Box::new(push(MainBusAssertDevice::B))),
        (0x7A, Box::new(pop(MainBusLoadDevice::C))),
        (0x7F, Box::new(|c| Control { alu_op: AluOp::Clc, ..c })),
        (0x80, Box::new(alu(AluOp::Shl, AluBusRegister::A, AluBusRegister::A, MainBusLoadDevice::A))),
        (0x88, Box::new(alu(AluOp::Add, AluBusRegister::A, AluBusRegister::B, MainBusLoadDevice::A))),
        (0x94, Box::new(alu(AluOp::AddC, AluBusRegister::A, AluBusRegister::B, MainBusLoadDevice::A))),
        (0xA0, Box::new(alu(AluOp::Inc, AluBusRegister::A, AluBusRegister::A, MainBusLoadDevice::A))),
        (0xA8, Box::new(alu(AluOp::Sub, AluBusRegister::A, AluBusRegister::B, MainBusLoadDevice::A))),
        (0xC0, Box::new(alu(AluOp::Dec, AluBusRegister::A, AluBusRegister::A, MainBusLoadDevice::A))),
        (0xF0, Box::new(alu(AluOp::Sub, AluBusRegister::A, AluBusRegister::B, MainBusLoadDevice::Nothing))),
    ];
    for flags in 0u8..64 {
        let flip = flags & 0x20 != 0;
        for opcode in 0u8..=255 {
            rom.set_entry(flags, opcode, Control::nop(flip));
        }
        for (opcode, build) in &entries {
            rom.set_entry(flags, *opcode, build(Control::nop(flip)));
        }
    }
    rom
}

struct Machine {
    cpu: Cpu,
    rom: Microcode,
    memory: Memory,
    lcd: Lcd,
    uart: Uart,
    audio: Audio,
    vga: Vga,
    controler: Controler,
}

impl Machine {
    fn new(memory: Memory) -> Self {
        Machine {
            cpu: Cpu::new(),
            rom: microcode(),
            memory,
            lcd: Lcd::new(),
            uart: Uart::new(),
            audio: Audio::new(),
            vga: Vga::new(),
            controler: Controler::new(),
        }
    }

    fn with_program(program: &[u8]) -> Self {
        let mut memory = Memory::new();
        memory.init_region(program, 0);
        Machine::new(memory)
    }

    fn tick(&mut self) -> Result<bool, CpuError> {
        self.cpu.clock(
            &self.rom,
            &mut self.memory,
            &mut self.lcd,
            &mut self.uart,
            &mut self.audio,
            &mut self.vga,
            &mut self.controler,
        )
    }

    fn run(&mut self, ticks: usize) {
        for _ in 0..ticks {
            self.tick().unwrap();
        }
    }

    fn load(&mut self, state: CpuState) {
        self.cpu.pc_ra_0 = state.program_counter.get();
        self.cpu.sp = state.stack_pointer.get();
        self.cpu.si = state.source_index.get();
        self.cpu.di = state.destination_index.get();
        self.cpu.tx = state.transfer.get();
        self.cpu.a = state.a.get();
        self.cpu.b = state.b.get();
        self.cpu.c = state.c.get();
        self.cpu.d = state.d.get();
        self.cpu.flags.overflow = state.overflow;
        self.cpu.flags.zero = state.zero;
        self.cpu.flags.carry = state.carry;
        self.cpu.flags.logical_carry = state.logical_carry;
        self.cpu.flags.sign = state.sign;
    }

    fn state(&self) -> CpuState {
        CpuState {
            program_counter: Word::new(self.cpu.pc()),
            stack_pointer: Word::new(self.cpu.sp),
            source_index: Word::new(self.cpu.si),
            destination_index: Word::new(self.cpu.di),
            transfer: Word::new(self.cpu.tx),
            a: Byte::new(self.cpu.a),
            b: Byte::new(self.cpu.b),
            c: Byte::new(self.cpu.c),
            d: Byte::new(self.cpu.d),
            overflow: self.cpu.flags.overflow,
            zero: self.cpu.flags.zero,
            carry: self.cpu.flags.carry,
            logical_carry: self.cpu.flags.logical_carry,
            sign: self.cpu.flags.sign,
        }
    }
}

/// Runs the program in `mem` for `ticks` ticks from the state `initial`
/// and holds the outcome against `expected`.
fn test_code(mem: &mut Memory, ticks: usize, initial: CpuState, expected: CpuState) {
    let memory = std::mem::replace(mem, Memory::new());
    let mut machine = Machine::new(memory);
    machine.load(initial);
    machine.run(ticks);
    assert_eq!(machine.state(), expected);
}

#[test]
fn test_inc_a_from_zero() {
    let mut mem = Memory::new();
    let mut vga = Vga::new();
    mem.write(&mut vga, 0x0000, 0xA0);

    let mut initial: CpuState = Default::default();
    initial.a = Byte::zero();

    let mut expected: CpuState = Default::default();
    expected.program_counter = Word::new(0x0003);
    expected.a = Byte::new(1);

    test_code(&mut mem, 3, initial, expected);
}

#[test]
fn test_inc_a_from_max() {
    let mut mem = Memory::new();
    let mut vga = Vga::new();
    mem.write(&mut vga, 0x0000, 0xA0);

    let mut initial: CpuState = Default::default();
    initial.a = Byte::max_value();
    initial.sign = true;

    let mut expected: CpuState = Default::default();
    expected.program_counter = Word::new(0x0003);
    expected.a = Byte::zero();
    expected.sign = false;
    expected.zero = true;
    expected.carry = true;

    test_code(&mut mem, 3, initial, expected);
}

#[test]
fn test_dec_a_from_zero() {
    let mut mem = Memory::new();
    let mut vga = Vga::new();
    mem.write(&mut vga, 0x0000, 0xC0);

    let mut initial: CpuState = Default::default();
    initial.a = Byte::zero();
    initial.zero = true;
    initial.sign = false;
    initial.carry = false;

    let mut expected: CpuState = Default::default();
    expected.program_counter = Word::new(0x0003);
    expected.a = Byte::max_value();
    expected.zero = false;
    expected.sign = true;
    expected.carry = false;

    test_code(&mut mem, 3, initial, expected);
}

#[test]
fn test_dec_a_from_one() {
    let mut mem = Memory::new();
    let mut vga = Vga::new();
    mem.write(&mut vga, 0x0000, 0xC0);

    let mut initial: CpuState = Default::default();
    initial.a = Byte::new(1);
    initial.zero = false;
    initial.carry = false;

    let mut expected: CpuState = Default::default();
    expected.program_counter = Word::new(0x0003);
    expected.a = Byte::zero();
    expected.zero = true;
    expected.carry = true;

    test_code(&mut mem, 3, initial, expected);
}

#[test]
fn test_inc_si_from_zero() {
    let mut mem = Memory::new();
    let mut vga = Vga::new();
    mem.write(&mut vga, 0x0000, 0x35);

    let mut initial: CpuState = Default::default();
    initial.source_index = Word::zero();

    let mut expected: CpuState = Default::default();
    expected.program_counter = Word::new(0x0003);
    expected.source_index = Word::new(1);

    test_code(&mut mem, 3, initial, expected);
}

#[test]
fn test_inc_si_from_max() {
    let mut mem = Memory::new();
    let mut vga = Vga::new();
    mem.write(&mut vga, 0x0000, 0x35);

    let mut initial: CpuState = Default::default();
    initial.source_index = Word::max_value();

    let mut expected: CpuState = Default::default();
    expected.program_counter = Word::new(0x0003);
    expected.source_index = Word::zero();

    test_code(&mut mem, 3, initial, expected);
}

#[test]
fn test_dec_si_from_zero() {
    let mut mem = Memory::new();
    let mut vga = Vga::new();
    mem.write(&mut vga, 0x0000, 0x32);

    let mut initial: CpuState = Default::default();
    initial.source_index = Word::zero();

    let mut expected: CpuState = Default::default();
    expected.program_counter = Word::new(0x0003);
    expected.source_index = Word::max_value();

    test_code(&mut mem, 3, initial, expected);
}

#[test]
fn test_dec_si_from_one() {
    let mut mem = Memory::new();
    let mut vga = Vga::new();
    mem.write(&mut vga, 0x0000, 0x32);

    let mut initial: CpuState = Default::default();
    initial.source_index = Word::new(1);

    let mut expected: CpuState = Default::default();
    expected.program_counter = Word::new(0x0003);
    expected.source_index = Word::zero();

    test_code(&mut mem, 3, initial, expected);
}

#[test]
fn test_mov_a_const_zero() {
    let mut mem = Memory::new();
    let mut vga = Vga::new();
    mem.write(&mut vga, 0x0000, 0x01);
    mem.write(&mut vga, 0x0001, 0x00);

    let mut initial: CpuState = Default::default();
    initial.a = Byte::max_value();
    initial.zero = false;
    initial.sign = true;

    let mut expected: CpuState = Default::default();
    expected.program_counter = Word::new(0x0004);
    expected.a = Byte::zero();
    expected.zero = false;
    expected.sign = true;

    test_code(&mut mem, 4, initial, expected);
}

#[test]
fn test_mov_a_const_max() {
    let mut mem = Memory::new();
    let mut vga = Vga::new();
    mem.write(&mut vga, 0x0000, 0x01);
    mem.write(&mut vga, 0x0001, 0xFF);

    let mut initial: CpuState = Default::default();
    initial.a = Byte::zero();
    initial.zero = true;
    initial.sign = false;

    let mut expected: CpuState = Default::default();
    expected.program_counter = Word::new(0x0004);
    expected.a = Byte::max_value();
    expected.zero = true;
    expected.sign = false;

    test_code(&mut mem, 4, initial, expected);
}

#[test]
fn test_mov_a_b() {
    let mut mem = Memory::new();
    let mut vga = Vga::new();
    mem.write(&mut vga, 0x0000, 0x07);

    let mut initial: CpuState = Default::default();
    initial.a = Byte::zero();
    initial.b = Byte::max_value();

    let mut expected: CpuState = Default::default();
    expected.program_counter = Word::new(0x0003);
    expected.a = Byte::max_value();
    expected.b = Byte::max_value();

    test_code(&mut mem, 3, initial, expected);
}

#[test]
fn test_mov_si_di() {
    let mut mem = Memory::new();
    let mut vga = Vga::new();
    mem.write(&mut vga, 0x0000, 0x2C);

    let mut initial: CpuState = Default::default();
    initial.source_index = Word::zero();
    initial.destination_index = Word::max_value();

    let mut expected: CpuState = Default::default();
    expected.program_counter = Word::new(0x0003);
    expected.source_index = Word::max_value();
    expected.destination_index = Word::max_value();

    test_code(&mut mem, 3, initial, expected);
}

#[test]
fn test_transfer_gpr_to_spr() {
    let mut mem = Memory::new();
    let mut vga = Vga::new();
    mem.write(&mut vga, 0x0000, 0x13);
    mem.write(&mut vga, 0x0001, 0x18);
    mem.write(&mut vga, 0x0002, 0x27);

    let mut initial: CpuState = Default::default();
    initial.transfer = Word::zero();
    initial.source_index = Word::zero();
    initial.a = Byte::new(0x01);
    initial.b = Byte::new(0x02);

    let mut expected: CpuState = Default::default();
    expected.program_counter = Word::new(0x0005);
    expected.transfer = Word::new(0x0201);
    expected.source_index = Word::new(0x0201);
    expected.a = Byte::new(0x01);
    expected.b = Byte::new(0x02);

    test_code(&mut mem, 5, initial, expected);
}

#[test]
fn test_transfer_spr_to_gpr() {
    let mut mem = Memory::new();
    let mut vga = Vga::new();
    mem.write(&mut vga, 0x0000, 0x28);
    mem.write(&mut vga, 0x0001, 0x1B);
    mem.write(&mut vga, 0x0002, 0x20);

    let mut initial: CpuState = Default::default();
    initial.transfer = Word::zero();
    initial.source_index = Word::new(0x0201);
    initial.a = Byte::zero();
    initial.b = Byte::zero();

    let mut expected: CpuState = Default::default();
    expected.program_counter = Word::new(0x0005);
    expected.transfer = Word::new(0x0201);
    expected.source_index = Word::new(0x0201);
    expected.a = Byte::new(0x01);
    expected.b = Byte::new(0x02);

    test_code(&mut mem, 5, initial, expected);
}

#[test]
fn test_stack() {
    let mut mem = Memory::new();
    let mut vga = Vga::new();
    mem.write(&mut vga, 0x0000, 0x72);
    mem.write(&mut vga, 0x0001, 0x73);
    mem.write(&mut vga, 0x0002, 0x7A);

    let mut initial: CpuState = Default::default();
    initial.stack_pointer = Word::zero();
    initial.a = Byte::new(1);
    initial.b = Byte::new(2);
    initial.c = Byte::zero();

    let mut expected: CpuState = Default::default();
    expected.program_counter = Word::new(0x0005);
    expected.stack_pointer = Word::new(0xFFFF);
    expected.a = Byte::new(1);
    expected.b = Byte::new(2);
    expected.c = Byte::new(2);

    test_code(&mut mem, 8, initial, expected);
}

#[test]
fn test_add_a_b() {
    let mut mem = Memory::new();
    let mut vga = Vga::new();
    mem.write(&mut vga, 0x0000, 0x88);

    let mut initial: CpuState = Default::default();
    initial.a = Byte::new(1);
    initial.b = Byte::new(2);

    let mut expected: CpuState = Default::default();
    expected.program_counter = Word::new(0x0003);
    expected.a = Byte::new(3);
    expected.b = Byte::new(2);

    test_code(&mut mem, 3, initial, expected);
}

#[test]
fn test_add_a_b_overflow() {
    let mut mem = Memory::new();
    let mut vga = Vga::new();
    mem.write(&mut vga, 0x0000, 0x88);

    let mut initial: CpuState = Default::default();
    initial.a = Byte::max_value();
    initial.b = Byte::new(1);
    initial.carry = false;
    initial.sign = true;
    initial.zero = false;

    let mut expected: CpuState = Default::default();
    expected.program_counter = Word::new(0x0003);
    expected.a = Byte::zero();
    expected.b = Byte::new(1);
    expected.carry = true;
    expected.sign = false;
    expected.zero = true;

    test_code(&mut mem, 3, initial, expected);
}

#[test]
fn test_addc_a_b() {
    let mut mem = Memory::new();
    let mut vga = Vga::new();
    mem.write(&mut vga, 0x0000, 0x94);

    let mut initial: CpuState = Default::default();
    initial.a = Byte::new(1);
    initial.b = Byte::new(1);
    initial.carry = true;

    let mut expected: CpuState = Default::default();
    expected.program_counter = Word::new(0x0003);
    expected.a = Byte::new(3);
    expected.b = Byte::new(1);
    expected.carry = false;

    test_code(&mut mem, 3, initial, expected);
}

#[test]
fn test_sub_a_b_pos() {
    let mut mem = Memory::new();
    let mut vga = Vga::new();
    mem.write(&mut vga, 0x0000, 0xA8);

    let mut initial: CpuState = Default::default();
    initial.a = Byte::new(2);
    initial.b = Byte::new(1);
    initial.sign = false;
    initial.zero = false;
    initial.carry = false;

    let mut expected: CpuState = Default::default();
    expected.program_counter = Word::new(0x0003);
    expected.a = Byte::new(1);
    expected.b = Byte::new(1);
    expected.sign = false;
    expected.zero = false;
    expected.carry = true;

    test_code(&mut mem, 3, initial, expected);
}

#[test]
fn test_sub_a_b_neg() {
    let mut mem = Memory::new();
    let mut vga = Vga::new();
    mem.write(&mut vga, 0x0000, 0xA8);

    let mut initial: CpuState = Default::default();
    initial.a = Byte::new(1);
    initial.b = Byte::new(2);
    initial.sign = false;
    initial.zero = false;
    initial.carry = false;

    let mut expected: CpuState = Default::default();
    expected.program_counter = Word::new(0x0003);
    expected.a = Byte::new(255);
    expected.b = Byte::new(2);
    expected.sign = true;
    expected.zero = false;
    expected.carry = false;

    test_code(&mut mem, 3, initial, expected);
}

#[test]
fn inc_a_from_0x7f_overflows_into_the_sign() {
    let mut machine = Machine::with_program(&[0xA0]);
    machine.cpu.a = 0x7F;
    machine.run(3);
    assert_eq!(machine.cpu.a, 0x80);
    assert!(machine.cpu.flags.overflow);
    assert!(machine.cpu.flags.sign);
    assert!(!machine.cpu.flags.zero);
    assert!(!machine.cpu.flags.carry);
}

#[test]
fn inc_a_from_0xff_carries() {
    let mut machine = Machine::with_program(&[0xA0]);
    machine.cpu.a = 0xFF;
    machine.run(3);
    assert_eq!(machine.cpu.a, 0x00);
    assert!(machine.cpu.flags.carry);
    assert!(machine.cpu.flags.zero);
    assert!(!machine.cpu.flags.sign);
    assert!(!machine.cpu.flags.overflow);
}

#[test]
fn dec_a_from_zero_wraps() {
    let mut machine = Machine::with_program(&[0xC0]);
    machine.cpu.a = 0;
    machine.run(3);
    assert_eq!(machine.cpu.a, 0xFF);
    assert!(machine.cpu.flags.sign);
    assert!(!machine.cpu.flags.zero);
    assert!(!machine.cpu.flags.carry);
}

#[test]
fn mov_a_immediate_takes_four_ticks() {
    let mut machine = Machine::with_program(&[0x01, 0xAA]);
    machine.run(4);
    assert_eq!(machine.cpu.pc(), 0x04);
    assert_eq!(machine.cpu.a, 0xAA);
}

#[test]
fn push_push_pop() {
    let mut machine = Machine::with_program(&[0x72, 0x73, 0x7A]);
    machine.cpu.a = 1;
    machine.cpu.b = 2;
    machine.cpu.c = 0;
    machine.cpu.sp = 0;
    machine.run(8);
    assert_eq!(machine.cpu.sp, 0xFFFF);
    assert_eq!(machine.cpu.c, 2);
    assert_eq!(machine.memory.read(&machine.vga, 0xFFFF), 1);
    assert_eq!(machine.memory.read(&machine.vga, 0xFFFE), 2);
}

#[test]
fn sub_a_b_without_borrow_sets_carry() {
    let mut machine = Machine::with_program(&[0xA8]);
    machine.cpu.a = 2;
    machine.cpu.b = 1;
    machine.run(3);
    assert_eq!(machine.cpu.a, 1);
    assert!(machine.cpu.flags.carry);
    assert!(!machine.cpu.flags.zero);
    assert!(!machine.cpu.flags.sign);
}

#[test]
fn flags_reach_the_microcode_one_tick_late() {
    // The flags that INC writes in its third tick address the ROMs from
    // the fourth tick on.
    let mut machine = Machine::with_program(&[0xA0]);
    machine.cpu.a = 0xFF;
    machine.run(2);
    assert!(!machine.cpu.flags.zero);
    machine.run(1);
    assert!(machine.cpu.flags.zero);
}

#[test]
fn bus_request_holds_the_program_counter() {
    let mut machine = Machine::with_program(&[0x72, 0x00, 0x00]);
    machine.run(2);
    assert_eq!(machine.cpu.pc(), 2);
    // PUSH is in stage 2 and uses the memory bus.
    machine.run(1);
    assert_eq!(machine.cpu.pc(), 2);
    assert_eq!(machine.cpu.stage0_instruction, 0x00);
    machine.run(1);
    assert_eq!(machine.cpu.pc(), 3);
}

#[test]
fn contention_feeds_the_instruction_in_again() {
    // PUSH A in stage 2 requests the bus while MOV A,#imm in stage 1
    // forbids the fetch: the MOV runs again.
    let mut machine = Machine::with_program(&[0x72, 0x01, 0x55, 0x00]);
    machine.cpu.a = 9;
    machine.run(2);
    assert_eq!(machine.cpu.stage0_instruction, 0x01);
    machine.run(1);
    assert_eq!(machine.cpu.stage1_instruction, 0x01);
    assert_eq!(machine.cpu.stage0_instruction, 0x01);
    machine.run(4);
    assert_eq!(machine.cpu.a, 0x55);
}

#[test]
fn clc_clears_the_four_flags() {
    let mut machine = Machine::with_program(&[0x7F]);
    machine.cpu.flags.carry = true;
    machine.cpu.flags.zero = true;
    machine.cpu.flags.sign = true;
    machine.cpu.flags.overflow = true;
    machine.run(3);
    assert!(!machine.cpu.flags.carry);
    assert!(!machine.cpu.flags.zero);
    assert!(!machine.cpu.flags.sign);
    assert!(!machine.cpu.flags.overflow);
}

#[test]
fn shift_writes_the_logical_carry_only() {
    let mut machine = Machine::with_program(&[0x80]);
    machine.cpu.a = 0x81;
    machine.cpu.flags.carry = true;
    machine.cpu.flags.zero = true;
    machine.run(3);
    assert_eq!(machine.cpu.a, 0x02);
    assert!(machine.cpu.flags.logical_carry);
    assert!(machine.cpu.flags.carry);
    assert!(machine.cpu.flags.zero);
}

#[test]
fn compare_writes_flags_and_no_register() {
    let mut machine = Machine::with_program(&[0xF0]);
    machine.cpu.a = 5;
    machine.cpu.b = 5;
    machine.run(3);
    assert_eq!(machine.cpu.a, 5);
    assert!(machine.cpu.flags.zero);
    assert!(machine.cpu.flags.carry);
}

#[test]
fn break_is_reported_from_stage_two() {
    let mut machine = Machine::with_program(&[0x3F]);
    assert_eq!(machine.tick(), Ok(false));
    assert_eq!(machine.tick(), Ok(false));
    assert_eq!(machine.tick(), Ok(true));
    assert_eq!(machine.tick(), Ok(false));
}

#[test]
fn invalid_microcode_is_an_error_and_changes_nothing() {
    let mut machine = Machine::with_program(&[0x00]);
    let blank = || vec![0u8; 0x8000];
    let mut pipe_1a = blank();
    // Operation 15 stands for nothing.
    pipe_1a[0x4000] = 0xF0;
    machine.rom = Microcode::new(pipe_1a, blank(), blank(), blank()).unwrap();
    let before = machine.cpu;
    assert_eq!(
        machine.tick(),
        Err(CpuError::InvalidBitPattern(InvalidBitPattern { invalid_bytes: 15 }))
    );
    assert_eq!(machine.cpu, before);
}

#[test]
fn memory_to_memory_is_a_bus_conflict() {
    let mut machine = Machine::with_program(&[0x00]);
    for flags in 0u8..64 {
        machine.rom.set_entry(
            flags,
            0x00,
            Control {
                main_bus_assert: MainBusAssertDevice::MemBridge,
                main_bus_load: MainBusLoadDevice::MemBridge,
                ..Control::nop(false)
            },
        );
    }
    assert_eq!(machine.tick(), Err(CpuError::MemoryBusConflict));
}

#[test]
fn uart_overflow_is_an_error() {
    let program = [0x39u8; 16];
    let mut machine = Machine::with_program(&program);
    machine.cpu.a = b'x';
    let mut outcome = Ok(false);
    for _ in 0..16 {
        outcome = machine.tick();
        if outcome.is_err() {
            break;
        }
    }
    assert_eq!(outcome, Err(CpuError::UartTransmitOverflow));
    assert_eq!(machine.uart.read_ctrl(), 0x80);
}

#[test]
fn microcode_needs_full_roms() {
    assert!(Microcode::new(vec![0; 0x8000], vec![0; 0x8000], vec![0; 0x8000], vec![0; 0x7FFF])
        .is_none());
}

#[test]
fn control_word_survives_the_roms() {
    let word = Control {
        lhs_bus_assert: AluBusRegister::C,
        rhs_bus_assert: AluBusRegister::D,
        alu_op: AluOp::Xor,
        transfer_bus_load: TransferBusRegister::Tx,
        load_constant: false,
        transfer_bus_assert: TransferBusRegister::Di,
        no_fetch: true,
        main_bus_assert: MainBusAssertDevice::IoUartCtrl,
        main_bus_load: MainBusLoadDevice::IoLcdData,
        increment_register: IncrementRegister::Di,
        address_bus_assert: AddressBusRegister::Tx,
        bus_request: true,
        flip_pc_ra: true,
        break_clock: false,
    };
    assert_eq!(word.pipe_1a(), 2 | (3 << 2) | (12 << 4));
    assert_eq!(word.pipe_1b(), 6 | (5 << 4) | 0x80);
    assert_eq!(word.pipe_2a(), 12 | (13 << 4));
    assert_eq!(word.pipe_2b(), 3 | (6 << 2) | 0x20 | 0x40);
    assert_eq!(
        Control::decode(word.pipe_1a(), word.pipe_1b(), word.pipe_2a(), word.pipe_2b()),
        Ok(word)
    );
}

#[test]
fn reset_starts_at_the_vector() {
    let mut cpu = Cpu::new();
    cpu.a = 7;
    cpu.sp = 9;
    cpu.flags.zero = true;
    cpu.stage1_instruction = 0x72;
    cpu.reset(0xE000);
    assert_eq!(cpu.pc(), 0xE000);
    assert_eq!(cpu.ra(), 0);
    assert_eq!(cpu.sp, 0);
    assert_eq!(cpu.a, 7);
    assert!(!cpu.flags.zero);
    assert_eq!(cpu.stage1_instruction, 0);
}

#[test]
fn conditions_follow_the_flags() {
    let flags = |overflow, sign, zero, carry, logical_carry| Flags {
        overflow,
        sign,
        zero,
        carry,
        logical_carry,
        pc_ra_flip: false,
    };
    let clear = flags(false, false, false, false, false);
    assert!(Condition::Above.holds(clear));
    assert!(!Condition::NotAbove.holds(clear));
    assert!(Condition::NotAbove.holds(flags(false, false, false, true, false)));
    assert!(Condition::NotAbove.holds(flags(false, false, true, false, false)));
    assert!(!Condition::Above.holds(flags(false, false, true, false, false)));
    assert!(Condition::Greater.holds(flags(true, true, false, false, false)));
    assert!(!Condition::Greater.holds(flags(true, true, true, false, false)));
    assert!(Condition::Less.holds(flags(true, false, false, false, false)));
    assert!(Condition::GreaterOrEqual.holds(clear));
    assert!(Condition::LessOrEqual.holds(flags(false, false, true, false, false)));
    assert!(Condition::LogicalCarry.holds(flags(false, false, false, false, true)));
    assert!(Condition::NotLogicalCarry.holds(clear));
    for opcode in 0x61u8..=0x70 {
        let condition = Condition::from_opcode(opcode).unwrap();
        assert_eq!(condition.opcode(), opcode);
        assert_eq!(condition.negated().negated(), condition);
        for bits in 0u8..64 {
            let flags = Flags::from_bits(bits);
            assert_eq!(flags.bits(), bits);
            assert_ne!(condition.holds(flags), condition.negated().holds(flags));
        }
    }
    assert_eq!(Condition::from_opcode(0x60), None);
    assert_eq!(Condition::from_opcode(0x71), None);
    assert_eq!(Condition::Zero.opcode(), 0x65);
    assert_eq!(Condition::NotAbove.opcode(), 0x69);
}

/// Microcode in which the conditional jump 0x65 (`JZ TX`) copies TX to the
/// program counter and keeps the fetch from happening while the zero flag
/// is set, and is a NOP while it is clear.
fn with_jump_on_zero(mut rom: Microcode) -> Microcode {
    let condition = Condition::from_opcode(0x65).unwrap();
    for bits in 0u8..64 {
        let flags = Flags::from_bits(bits);
        if condition.holds(flags) {
            let nop = Control::nop(flags.pc_ra_flip);
            rom.set_entry(
                bits,
                0x65,
                Control {
                    transfer_bus_assert: TransferBusRegister::Tx,
                    transfer_bus_load: if flags.pc_ra_flip {
                        TransferBusRegister::PcRa1
                    } else {
                        TransferBusRegister::PcRa0
                    },
                    no_fetch: true,
                    ..nop
                },
            );
        }
    }
    rom
}

#[test]
fn branch_sees_the_flags_of_the_tick_before() {
    // DEC A; JZ TX; with A = 1 the zero flag is set in the tick in which
    // the jump is in stage 1, and the jump is decoded without it.
    let mut machine = Machine::with_program(&[0xC0, 0x65, 0x00, 0x00]);
    machine.rom = with_jump_on_zero(microcode());
    machine.cpu.a = 1;
    machine.cpu.tx = 0x0100;
    machine.run(3);
    assert!(machine.cpu.flags.zero);
    assert_eq!(machine.cpu.stage1_instruction, 0x65);
    assert_eq!(machine.cpu.pc(), 3);
    // One NOP between them lets the jump see the flag.
    let mut machine = Machine::with_program(&[0xC0, 0x00, 0x65, 0x00]);
    machine.rom = with_jump_on_zero(microcode());
    machine.cpu.a = 1;
    machine.cpu.tx = 0x0100;
    machine.run(4);
    assert_eq!(machine.cpu.pc(), 0x0100);
    assert_eq!(machine.cpu.stage0_instruction, 0x00);
}
