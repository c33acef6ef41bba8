use jam1emu::cpu::{Control, CpuError, MainBusAssertDevice, MainBusLoadDevice, Microcode};
use jam1emu::device::{ChannelOutput, ControlerButton};
use jam1emu::system::{Key, ProgramTooLarge, System, SystemError};

/// Microcode that knows NOP, `MOV A,#imm` (0x01), `OUT uart_data,A`
/// (0x39), `IN A,uart_data` (0x3A), `OUT audio_data,A` (0x3C),
/// `IN A,cntrl_data` (0x3D), BREAK (0x3F) and `MOV [0],A` by way of the
/// idle address bus (0x4C).
fn microcode() -> Microcode {
    let blank = || vec![0u8; 0x8000];
    let mut rom = Microcode::new(blank(), blank(), blank(), blank()).unwrap();
    for flags in 0u8..64 {
        let nop = Control::nop(flags & 0x20 != 0);
        for opcode in 0u8..=255 {
            rom.set_entry(flags, opcode, nop);
        }
        rom.set_entry(
            flags,
            0x01,
            Control {
                no_fetch: true,
                load_constant: true,
                main_bus_assert: MainBusAssertDevice::Constant,
                main_bus_load: MainBusLoadDevice::A,
                ..nop
            },
        );
        let port = |source, target| Control { main_bus_assert: source, main_bus_load: target, ..nop };
        rom.set_entry(flags, 0x39, port(MainBusAssertDevice::A, MainBusLoadDevice::IoUartData));
        rom.set_entry(flags, 0x3A, port(MainBusAssertDevice::IoUartData, MainBusLoadDevice::A));
        rom.set_entry(flags, 0x3C, port(MainBusAssertDevice::A, MainBusLoadDevice::IoAudioData));
        rom.set_entry(flags, 0x3D, port(MainBusAssertDevice::IoCntrl, MainBusLoadDevice::A));
        rom.set_entry(flags, 0x3F, Control { break_clock: true, ..nop });
    }
    rom
}

#[test]
fn load_program_keeps_out_of_the_monitor() {
    let mut system = System::create(microcode());
    assert_eq!(system.load_program(0, &[1, 2, 3]), Ok(()));
    assert_eq!(system.load_program(0xDFFF, &[9]), Ok(()));
    assert_eq!(
        system.load_program(0xDFFF, &[9, 9]),
        Err(ProgramTooLarge { base: 0xDFFF, len: 2 })
    );
    assert_eq!(system.load_program(0xE001, &[]), Err(ProgramTooLarge { base: 0xE001, len: 0 }));
    system.update_memory_view();
    assert_eq!(system.memory_view().len(), 0x10000);
    assert_eq!(&system.memory_view()[0..3], &[1, 2, 3]);
    assert_eq!(system.memory_view()[0xDFFF], 9);
}

#[test]
fn reset_loads_the_monitor_and_starts_there() {
    let mut system = System::create(microcode());
    system.reset(&[0x01, b'>', 0x39]);
    assert_eq!(system.cpu().pc(), 0xE000);
    assert_eq!(&system.memory_view()[0xE000..0xE003], &[0x01, b'>', 0x39]);
}

#[test]
fn cycle_moves_bytes_between_uart_and_host() {
    let mut system = System::create(microcode());
    system.load_program(0, &[0x01, b'h', 0x39, 0x3A, 0x39]).unwrap();
    system.write_char('\u{e9}');
    // Two baud periods hand the two bytes of the character to the UART.
    assert_eq!(system.clock_cycle(2, 0, 0), Ok(false));
    for _ in 0..8 {
        assert_eq!(system.clock_cycle(0, 0, 0), Ok(false));
    }
    // Both OUTs have run: the bytes wait in the UART until baud periods pass.
    assert!(system.take_output().is_empty());
    assert_eq!(system.clock_cycle(1, 0, 0), Ok(false));
    assert_eq!(system.take_output(), vec![b'h']);
    assert_eq!(system.clock_cycle(1, 0, 0), Ok(false));
    assert_eq!(system.take_output(), vec![0xC3]);
}

#[test]
fn cycle_reports_a_breakpoint() {
    let mut system = System::create(microcode());
    system.load_program(0, &[0x3F]).unwrap();
    assert_eq!(system.clock_cycle(0, 0, 0), Ok(false));
    assert_eq!(system.clock_cycle(0, 0, 0), Ok(false));
    assert_eq!(system.clock_cycle(0, 0, 0), Ok(true));
}

#[test]
fn cycle_runs_audio_and_video() {
    let mut system = System::create(microcode());
    assert_eq!(system.clock_cycle(0, 3, 800), Ok(false));
    let frames = system.take_audio_frames();
    assert_eq!(frames.len(), 3);
    assert_eq!(frames[0].channel0, ChannelOutput { high: false, attenuation: 15 });
    assert_eq!(frames[1].channel0, ChannelOutput { high: true, attenuation: 15 });
    assert!(system.take_audio_frames().is_empty());
    assert_eq!(system.framebuffer().len(), 640 * 480 * 4);
}

#[test]
fn receive_overflow_stops_the_cycle() {
    let mut system = System::create(microcode());
    for c in "0123456789".chars() {
        system.write_char(c);
    }
    assert_eq!(system.clock_cycle(8, 0, 0), Ok(false));
    assert_eq!(system.clock_cycle(1, 0, 0), Err(SystemError::UartReceiveOverflow));
}

#[test]
fn cpu_errors_reach_the_driver() {
    let blank = || vec![0u8; 0x8000];
    let mut pipe_2a = blank();
    pipe_2a[0x4000] = 13;
    let rom = Microcode::new(blank(), blank(), pipe_2a, blank()).unwrap();
    let mut system = System::create(rom);
    match system.clock_cycle(1, 1, 1) {
        Err(SystemError::Cpu(CpuError::InvalidBitPattern(pattern))) => {
            assert_eq!(pattern.invalid_bytes, 13)
        }
        other => panic!("unexpected outcome {:?}", other),
    }
    assert!(system.take_audio_frames().is_empty());
}

#[test]
fn bootstrap_waits_for_the_prompt_and_types_the_jump() {
    let mut system = System::create(microcode());
    system.reset(&[0x01, b'>', 0x39]);
    let mut heard = false;
    let mut cycles = 0;
    while !heard {
        heard = system.bootstrap_cycle(1).unwrap();
        cycles += 1;
        assert!(cycles < 100);
    }
    assert_eq!(system.take_output(), vec![b'>']);
    assert!(system.send_jump_command());
    // The six bytes fill the queue but for two: a second command has no room.
    assert!(!system.send_jump_command());
    system.load_program(0, &[0x3A, 0x3A, 0x3A]).unwrap();
}

#[test]
fn keys_become_bytes() {
    let mut system = System::create(microcode());
    system.load_program(0, &[0x3A, 0x39, 0x3A, 0x39, 0x3A, 0x39, 0x3A, 0x39, 0x3A, 0x39, 0x3A, 0x39])
        .unwrap();
    system.write_key(Key::Up);
    system.write_key(Key::Enter);
    system.write_key(Key::Backspace);
    let mut output = Vec::new();
    for _ in 0..40 {
        system.clock_cycle(1, 0, 0).unwrap();
        output.extend(system.take_output());
    }
    assert_eq!(output, vec![0x1B, b'[', b'1', b'A', 0x0D, 0x7F]);
}

#[test]
fn arrow_keys_and_characters() {
    fn typed(key: Key) -> Vec<u8> {
        let mut system = System::create(microcode());
        system.load_program(0, &[0x3A, 0x39, 0x3A, 0x39, 0x3A, 0x39, 0x3A, 0x39]).unwrap();
        system.write_key(key);
        let mut output = Vec::new();
        for _ in 0..20 {
            system.clock_cycle(1, 0, 0).unwrap();
            output.extend(system.take_output());
        }
        output.retain(|&b| b != 0);
        output
    }
    assert_eq!(typed(Key::Left), b"\x1B[1D");
    assert_eq!(typed(Key::Right), b"\x1B[1C");
    assert_eq!(typed(Key::Down), b"\x1B[1B");
    assert_eq!(typed(Key::Char('\u{20ac}')), "\u{20ac}".as_bytes());
}

#[test]
fn buttons_reach_the_controller_port() {
    let mut system = System::create(microcode());
    system.load_program(0, &[0x3D, 0x39, 0x3D, 0x39]).unwrap();
    system.button_down(ControlerButton::Start);
    system.button_down(ControlerButton::X);
    system.button_down(ControlerButton::Y);
    system.button_up(ControlerButton::Y);
    let mut output = Vec::new();
    for _ in 0..12 {
        system.clock_cycle(1, 0, 0).unwrap();
        output.extend(system.take_output());
    }
    assert_eq!(output, vec![0x08, 0x82]);
}
