//! The machine as a whole: the CPU, the memory and the peripherals, and the
//! order in which one CPU cycle drives them.

use crate::cpu::{Cpu, CpuError, MainBusAssertDevice, MainBusLoadDevice};
use crate::cpu::{Microcode, MicrocodeModel};
use crate::device::{Audio, AudioFrame, Controler, ControlerButton, Lcd, Memory, MemoryModel};
use crate::device::{Uart, UartModel, Vga, VgaModel, MEMORY_SIZE, UART_FIFO_DEPTH};
use crate::utf8;
use std::collections::VecDeque;
use vstd::prelude::*;

verus! {

/// Where the CPU starts after a reset: the first byte of the monitor ROM.
pub const CPU_RESET_PC: u16 = 0xE000;

/// Size of the monitor ROM at the top of the address space.
pub const MONITOR_SIZE: usize = 0x2000;

/// The byte with which the monitor asks for a command.
pub const MONITOR_PROMPT: u8 = 0x3E;

/// Why a cycle of the machine stopped.
#[derive(Debug, Clone, Copy, PartialEq, Eq, Structural)]
pub enum SystemError {
    /// The CPU could not carry out its tick.
    Cpu(CpuError),
    /// A byte from the host found the UART receive queue full.
    UartReceiveOverflow,
}

/// A program does not fit below the monitor ROM.
#[derive(Debug, Clone, Copy, PartialEq, Eq, Structural)]
pub struct ProgramTooLarge {
    /// Where the program was to start.
    pub base: u16,
    /// How many bytes it has.
    pub len: usize,
}

/// A key that the host terminal reports.
#[derive(Debug, Clone, Copy, PartialEq, Eq, Structural)]
pub enum Key {
    Enter,
    Backspace,
    Left,
    Right,
    Up,
    Down,
    Char(char),
}

impl Key {
    /// The bytes that the key sends to the machine: carriage return for
    /// Enter, DEL for Backspace, `ESC [ 1` and a letter for the arrows,
    /// UTF-8 for a character.
    pub open spec fn bytes(self) -> Seq<u8> {
        match self {
            Key::Enter => seq![0x0Du8],
            Key::Backspace => seq![0x7Fu8],
            Key::Left => seq![0x1Bu8, 0x5Bu8, 0x31u8, 0x44u8],
            Key::Right => seq![0x1Bu8, 0x5Bu8, 0x31u8, 0x43u8],
            Key::Up => seq![0x1Bu8, 0x5Bu8, 0x31u8, 0x41u8],
            Key::Down => seq![0x1Bu8, 0x5Bu8, 0x31u8, 0x42u8],
            Key::Char(c) => utf8::spec_encode(c as u32),
        }
    }
}

/// The state of the whole machine.
pub struct SystemModel {
    pub cpu: Cpu,
    pub rom: MicrocodeModel,
    pub memory: MemoryModel,
    pub lcd: Lcd,
    pub uart: UartModel,
    pub audio: Audio,
    pub vga: VgaModel,
    pub controler: Controler,
    /// Bytes from the host that wait for the UART.
    pub input: Seq<u8>,
    /// Bytes that the UART has sent to the host.
    pub output: Seq<u8>,
    /// Audio frames that the host has not yet taken.
    pub frames: Seq<AudioFrame>,
    /// The memory as it was when the view was last refreshed.
    pub memory_view: Seq<u8>,
}

impl SystemModel {
    /// The machine after a CPU tick that meets no error.
    pub open spec fn after_cpu(self) -> SystemModel {
        let control = self.cpu.control(self.rom).unwrap();
        let address = self.cpu.bus_address(control.address_bus_assert);
        let mem_data = self.memory.read(self.vga.scroll, address);
        let main_bus = self.cpu.main_bus(control, mem_data, self.uart, self.vga, self.controler);
        let writes_memory = control.main_bus_load == MainBusLoadDevice::MemBridge;
        let read_uart = if control.main_bus_assert == MainBusAssertDevice::IoUartData {
            self.uart.after_read_data()
        } else {
            self.uart
        };
        SystemModel {
            cpu: self.cpu.step(control, mem_data, main_bus),
            memory: if writes_memory {
                self.memory.write(address, main_bus)
            } else {
                self.memory
            },
            vga: if writes_memory {
                VgaModel {
                    scroll: MemoryModel::write_scroll(self.vga.scroll, address, main_bus),
                    ..self.vga
                }
            } else {
                self.vga
            },
            uart: if control.main_bus_load == MainBusLoadDevice::IoUartData {
                read_uart.after_write_data(main_bus)
            } else {
                read_uart
            },
            audio: if control.main_bus_load == MainBusLoadDevice::IoAudioData {
                self.audio.spec_write_data(main_bus)
            } else {
                self.audio
            },
            controler: if control.main_bus_assert == MainBusAssertDevice::IoCntrl {
                self.controler.after_read()
            } else {
                self.controler
            },
            ..self
        }
    }

    /// Whether the instruction in stage 2 of the coming tick is a breakpoint.
    pub open spec fn breaks(self) -> bool {
        self.cpu.control(self.rom).unwrap().break_clock
    }

    /// The machine after the host has taken a byte from the UART, if one
    /// was waiting.
    pub open spec fn after_host_read(self) -> SystemModel {
        match self.uart.host_data() {
            Some(byte) => SystemModel {
                output: self.output.push(byte),
                uart: self.uart.after_host_read(),
                ..self
            },
            None => self,
        }
    }

    /// One baud period: the host takes a byte from the UART and hands it
    /// the next input byte. The flag says that the input byte found the
    /// receive queue full and stays where it is.
    pub open spec fn baud_cycle(self) -> (SystemModel, bool) {
        let read = self.after_host_read();
        if read.input.len() == 0 {
            (read, false)
        } else if read.uart.receive.len() >= UART_FIFO_DEPTH {
            (read, true)
        } else {
            (
                SystemModel {
                    uart: read.uart.after_host_write(read.input[0]),
                    input: read.input.subrange(1, read.input.len() as int),
                    ..read
                },
                false,
            )
        }
    }

    /// `n` baud periods, or as many as pass before the receive queue
    /// overflows.
    pub open spec fn baud_cycles(self, n: nat) -> (SystemModel, bool)
        decreases n,
    {
        if n == 0 {
            (self, false)
        } else {
            let (next, overflow) = self.baud_cycle();
            if overflow {
                (next, true)
            } else {
                next.baud_cycles((n - 1) as nat)
            }
        }
    }

    pub open spec fn audio_cycle(self) -> SystemModel {
        SystemModel {
            audio: self.audio.spec_clock(),
            frames: self.frames.push(self.audio.spec_clock().frame()),
            ..self
        }
    }

    /// `n` audio cycles, each of which leaves one frame for the host.
    pub open spec fn audio_cycles(self, n: nat) -> SystemModel
        decreases n,
    {
        if n == 0 {
            self
        } else {
            self.audio_cycle().audio_cycles((n - 1) as nat)
        }
    }

    /// `n` pixel clocks, after which the VGA may read what the CPU wrote.
    pub open spec fn video_cycles(self, n: nat) -> SystemModel {
        let (vga, memory) = self.vga.clock(self.memory, n);
        SystemModel { vga, memory: memory.after_conflict_reset(), ..self }
    }

    /// One cycle of the machine: the CPU tick, then the baud periods, the
    /// audio cycles and the pixel clocks that fall into it, then the end
    /// of the bus conflict. A CPU error leaves the machine untouched; a
    /// receive overflow stops the cycle where it happens.
    pub open spec fn cycle(self, baud_ticks: nat, audio_ticks: nat, vga_ticks: nat) -> (
        SystemModel,
        Result<bool, SystemError>,
    ) {
        match self.cpu.clock_error(self.rom, self.uart) {
            Some(error) => (self, Err(SystemError::Cpu(error))),
            None => {
                let (served, overflow) = self.after_cpu().baud_cycles(baud_ticks);
                if overflow {
                    (served, Err(SystemError::UartReceiveOverflow))
                } else {
                    (
                        served.audio_cycles(audio_ticks).video_cycles(vga_ticks),
                        Ok(self.breaks()),
                    )
                }
            },
        }
    }

    /// The 64 KiB that the CPU would read now.
    pub open spec fn snapshot(self) -> Seq<u8> {
        Seq::new(MEMORY_SIZE as nat, |a: int| self.memory.read(self.vga.scroll, a as u16))
    }
}

/// The machine: CPU, microcode, memory and peripherals, and the queues
/// between it and the host.
pub struct System {
    cpu: Cpu,
    rom: Microcode,
    memory: Memory,
    lcd: Lcd,
    uart: Uart,
    audio: Audio,
    vga: Vga,
    controler: Controler,
    input_queue: VecDeque<u8>,
    output_queue: Vec<u8>,
    frames: Vec<AudioFrame>,
    memory_view: Vec<u8>,
}

impl View for System {
    type V = SystemModel;

    closed spec fn view(&self) -> SystemModel {
        SystemModel {
            cpu: self.cpu,
            rom: self.rom@,
            memory: self.memory@,
            lcd: self.lcd,
            uart: self.uart@,
            audio: self.audio,
            vga: self.vga@,
            controler: self.controler,
            input: self.input_queue@,
            output: self.output_queue@,
            frames: self.frames@,
            memory_view: self.memory_view@,
        }
    }
}

impl System {
    /// Every part of the machine is consistent.
    pub closed spec fn wf(&self) -> bool {
        &&& self.rom.wf()
        &&& self.memory.wf()
        &&& self.uart.wf()
        &&& self.vga.wf()
    }

    /// A machine around the microcode `rom`, with empty memory and queues.
    pub fn create(rom: Microcode) -> (system: Self)
        requires
            rom.wf(),
        ensures
            system.wf(),
            system@.cpu == Cpu::spec_new(),
            system@.rom == rom@,
            system@.audio == Audio::spec_new(),
            system@.controler == Controler::spec_new(),
            system@.uart.receive.len() == 0,
            system@.uart.transmit.len() == 0,
            system@.input.len() == 0,
            system@.output.len() == 0,
            system@.frames.len() == 0,
            system@.memory_view.len() == 0,
            system@.memory == Memory::spec_new(),
            system@.vga == Vga::spec_new(),
    {
        System {
            cpu: Cpu::new(),
            rom,
            memory: Memory::new(),
            lcd: Lcd::new(),
            uart: Uart::new(),
            audio: Audio::new(),
            vga: Vga::new(),
            controler: Controler::new(),
            input_queue: VecDeque::new(),
            output_queue: Vec::new(),
            frames: Vec::new(),
            memory_view: Vec::new(),
        }
    }

    /// Loads the monitor ROM at the top of memory and starts the CPU and
    /// the VGA over; the memory view is refreshed.
    pub fn reset(&mut self, monitor: &[u8])
        requires
            old(self).wf(),
            monitor@.len() <= MONITOR_SIZE,
        ensures
            final(self).wf(),
            final(self)@ == ({
                let memory = old(self)@.memory.after_init(monitor@, CPU_RESET_PC);
                let vga = old(self)@.vga.after_reset();
                let reset = SystemModel {
                    memory,
                    vga,
                    cpu: old(self)@.cpu.spec_reset(CPU_RESET_PC),
                    ..old(self)@
                };
                SystemModel { memory_view: reset.snapshot(), ..reset }
            }),
    {
        self.memory.init_region(monitor, CPU_RESET_PC);
        self.cpu.reset(CPU_RESET_PC);
        self.vga.reset();
        self.update_memory_view();
    }

    /// The CPU.
    pub fn cpu(&self) -> (cpu: &Cpu)
        ensures
            *cpu == self@.cpu,
    {
        &self.cpu
    }

    /// The picture as RGBA bytes, 640 by 480 pixels row by row.
    pub fn framebuffer(&self) -> (data: Vec<u8>)
        requires
            self.wf(),
        ensures
            data@.len() == 4 * self@.vga.pixels.len(),
            forall|i: int|
                0 <= i < self@.vga.pixels.len() ==> {
                    &&& data@[4 * i] == (#[trigger] self@.vga.pixels[i]).r
                    &&& data@[4 * i + 1] == self@.vga.pixels[i].g
                    &&& data@[4 * i + 2] == self@.vga.pixels[i].b
                    &&& data@[4 * i + 3] == self@.vga.pixels[i].a
                },
    {
        self.vga.framebuffer().pixel_data()
    }

    /// The memory as it was when the view was last refreshed.
    pub fn memory_view(&self) -> (view: &Vec<u8>)
        ensures
            view@ == self@.memory_view,
    {
        &self.memory_view
    }

    /// Queues the UTF-8 bytes of `c` for the UART.
    pub fn write_char(&mut self, c: char)
        requires
            old(self).wf(),
        ensures
            final(self).wf(),
            final(self)@ == (SystemModel {
                input: old(self)@.input + utf8::spec_encode(c as u32),
                ..old(self)@
            }),
    {
        let mut bytes: Vec<u8> = Vec::new();
        utf8::encode(c as u32, &mut bytes);
        assert(bytes@ =~= utf8::spec_encode(c as u32));
        self.write_bytes(&bytes);
    }

    /// Queues the bytes that `key` stands for.
    pub fn write_key(&mut self, key: Key)
        requires
            old(self).wf(),
        ensures
            final(self).wf(),
            final(self)@ == (SystemModel { input: old(self)@.input + key.bytes(), ..old(self)@ }),
    {
        let mut bytes: Vec<u8> = Vec::new();
        match key {
            Key::Enter => {
                bytes.push(0x0D);
            },
            Key::Backspace => {
                bytes.push(0x7F);
            },
            Key::Left => {
                bytes.push(0x1B);
                bytes.push(0x5B);
                bytes.push(0x31);
                bytes.push(0x44);
            },
            Key::Right => {
                bytes.push(0x1B);
                bytes.push(0x5B);
                bytes.push(0x31);
                bytes.push(0x43);
            },
            Key::Up => {
                bytes.push(0x1B);
                bytes.push(0x5B);
                bytes.push(0x31);
                bytes.push(0x41);
            },
            Key::Down => {
                bytes.push(0x1B);
                bytes.push(0x5B);
                bytes.push(0x31);
                bytes.push(0x42);
            },
            Key::Char(c) => {
                utf8::encode(c as u32, &mut bytes);
            },
        }
        assert(bytes@ =~= key.bytes());
        self.write_bytes(&bytes);
    }

    fn write_bytes(&mut self, bytes: &Vec<u8>)
        requires
            old(self).wf(),
        ensures
            final(self).wf(),
            final(self)@ == (SystemModel { input: old(self)@.input + bytes@, ..old(self)@ }),
    {
        let mut i: usize = 0;
        while i < bytes.len()
            invariant
                i <= bytes@.len(),
                self.wf(),
                self@ == (SystemModel {
                    input: old(self)@.input + bytes@.take(i as int),
                    ..old(self)@
                }),
            decreases bytes@.len() - i,
        {
            self.input_queue.push_back(bytes[i]);
            i += 1;
            assert(self@.input =~= old(self)@.input + bytes@.take(i as int));
        }
        assert(bytes@.take(i as int) =~= bytes@);
    }

    /// The host reports that `button` went down.
    pub fn button_down(&mut self, button: ControlerButton)
        requires
            old(self).wf(),
        ensures
            final(self).wf(),
            final(self)@ == (SystemModel {
                controler: old(self)@.controler.spec_button_down(button),
                ..old(self)@
            }),
    {
        self.controler.host_button_down(button);
    }

    /// The host reports that `button` went up.
    pub fn button_up(&mut self, button: ControlerButton)
        requires
            old(self).wf(),
        ensures
            final(self).wf(),
            final(self)@ == (SystemModel {
                controler: old(self)@.controler.spec_button_up(button),
                ..old(self)@
            }),
    {
        self.controler.host_button_up(button);
    }

    /// Copies `data` into memory starting at `base`. A program that would
    /// reach into the monitor ROM is refused and nothing is copied.
    pub fn load_program(&mut self, base: u16, data: &[u8]) -> (r: Result<(), ProgramTooLarge>)
        requires
            old(self).wf(),
        ensures
            final(self).wf(),
            base + data@.len() <= CPU_RESET_PC ==> r.is_ok() && final(self)@ == (SystemModel {
                memory: old(self)@.memory.after_init(data@, base),
                ..old(self)@
            }),
            base + data@.len() > CPU_RESET_PC ==> r == Err::<(), ProgramTooLarge>(
                ProgramTooLarge { base, len: data@.len() as usize },
            ) && final(self)@ == old(self)@,
    {
        if base > CPU_RESET_PC || data.len() > (CPU_RESET_PC - base) as usize {
            Err(ProgramTooLarge { base, len: data.len() })
        } else {
            self.memory.init_region(data, base);
            Ok(())
        }
    }

    /// Takes a fresh copy of the memory as the CPU would read it.
    pub fn update_memory_view(&mut self)
        requires
            old(self).wf(),
        ensures
            final(self).wf(),
            final(self)@ == (SystemModel { memory_view: old(self)@.snapshot(), ..old(self)@ }),
    {
        self.memory_view = self.memory.snapshot(&self.vga);
    }

    /// Hands over the bytes that the UART has sent since the last call.
    pub fn take_output(&mut self) -> (bytes: Vec<u8>)
        requires
            old(self).wf(),
        ensures
            final(self).wf(),
            bytes@ == old(self)@.output,
            final(self)@ == (SystemModel { output: Seq::empty(), ..old(self)@ }),
    {
        let mut bytes: Vec<u8> = Vec::new();
        core::mem::swap(&mut bytes, &mut self.output_queue);
        bytes
    }

    /// Hands over the audio frames that were produced since the last call.
    pub fn take_audio_frames(&mut self) -> (frames: Vec<AudioFrame>)
        requires
            old(self).wf(),
        ensures
            final(self).wf(),
            frames@ == old(self)@.frames,
            final(self)@ == (SystemModel { frames: Seq::empty(), ..old(self)@ }),
    {
        let mut frames: Vec<AudioFrame> = Vec::new();
        core::mem::swap(&mut frames, &mut self.frames);
        frames
    }

    /// One baud period.
    fn baud_cycle(&mut self) -> (overflow: bool)
        requires
            old(self).wf(),
        ensures
            final(self).wf(),
            (final(self)@, overflow) == old(self)@.baud_cycle(),
    {
        match self.uart.host_read() {
            Some(byte) => {
                self.output_queue.push(byte);
            },
            None => {},
        }
        if self.input_queue.len() == 0 {
            false
        } else if self.uart.receive_len() >= UART_FIFO_DEPTH {
            true
        } else {
            let ghost before = self.input_queue@;
            match self.input_queue.pop_front() {
                Some(byte) => {
                    self.uart.host_write(byte);
                    assert(self.input_queue@ =~= before.subrange(1, before.len() as int));
                    false
                },
                None => false,
            }
        }
    }

    /// One cycle of the machine: a CPU tick, then `baud_ticks` baud
    /// periods, `audio_ticks` audio cycles and `vga_ticks` pixel clocks,
    /// then the end of the bus conflict. Says whether the CPU met a
    /// breakpoint.
    pub fn clock_cycle(&mut self, baud_ticks: u32, audio_ticks: u32, vga_ticks: u32) -> (r: Result<
        bool,
        SystemError,
    >)
        requires
            old(self).wf(),
        ensures
            final(self).wf(),
            (final(self)@, r) == old(self)@.cycle(
                baud_ticks as nat,
                audio_ticks as nat,
                vga_ticks as nat,
            ),
    {
        let break_point = match self.cpu.clock(
            &self.rom,
            &mut self.memory,
            &mut self.lcd,
            &mut self.uart,
            &mut self.audio,
            &mut self.vga,
            &mut self.controler,
        ) {
            Ok(break_point) => break_point,
            Err(error) => {
                return Err(SystemError::Cpu(error));
            },
        };
        assert(self@ == old(self)@.after_cpu());
        let ghost ticked = self@;

        let mut i: u32 = 0;
        while i < baud_ticks
            invariant
                i <= baud_ticks,
                self.wf(),
                ticked.baud_cycles(baud_ticks as nat) == self@.baud_cycles((baud_ticks - i) as nat),
                ticked == old(self)@.after_cpu(),
                old(self)@.cpu.clock_error(old(self)@.rom, old(self)@.uart).is_none(),
            decreases baud_ticks - i,
        {
            let ghost before = self@;
            let overflow = self.baud_cycle();
            assert(before.baud_cycles((baud_ticks - i) as nat) == if overflow {
                (self@, true)
            } else {
                self@.baud_cycles((baud_ticks - i - 1) as nat)
            });
            if overflow {
                return Err(SystemError::UartReceiveOverflow);
            }
            i += 1;
        }
        let ghost served = self@;

        let mut j: u32 = 0;
        while j < audio_ticks
            invariant
                j <= audio_ticks,
                self.wf(),
                served.audio_cycles(audio_ticks as nat) == self@.audio_cycles(
                    (audio_ticks - j) as nat,
                ),
            decreases audio_ticks - j,
        {
            let ghost before = self@;
            let frame = self.audio.clock();
            self.frames.push(frame);
            assert(self@ == before.audio_cycle());
            assert(before.audio_cycles((audio_ticks - j) as nat) == self@.audio_cycles(
                (audio_ticks - j - 1) as nat,
            ));
            j += 1;
        }
        self.vga.clock(&mut self.memory, vga_ticks);
        self.memory.reset_vga_conflict();
        Ok(break_point)
    }

    /// One cycle of the start-up: a CPU tick and `baud_ticks` baud periods
    /// in which the host only listens. Says whether the monitor's prompt
    /// was among the bytes it heard.
    pub fn bootstrap_cycle(&mut self, baud_ticks: u32) -> (r: Result<bool, SystemError>)
        requires
            old(self).wf(),
        ensures
            final(self).wf(),
            match old(self)@.cpu.clock_error(old(self)@.rom, old(self)@.uart) {
                Some(error) => r == Err::<bool, SystemError>(SystemError::Cpu(error)) && final(self)@ == old(self)@,
                None => {
                    let heard = old(self)@.after_cpu().listen(baud_ticks as nat);
                    &&& final(self)@ == heard
                    &&& r == Ok::<bool, SystemError>(
                        heard.output.subrange(
                            old(self)@.output.len() as int,
                            heard.output.len() as int,
                        ).contains(MONITOR_PROMPT),
                    )
                },
            },
    {
        match self.cpu.clock(
            &self.rom,
            &mut self.memory,
            &mut self.lcd,
            &mut self.uart,
            &mut self.audio,
            &mut self.vga,
            &mut self.controler,
        ) {
            Ok(_) => {},
            Err(error) => {
                return Err(SystemError::Cpu(error));
            },
        }
        let ghost ticked = self@;
        let ghost start = old(self)@.output.len() as int;
        let mut loader_finished = false;
        let mut i: u32 = 0;
        proof {
            assert(ticked.output.subrange(start, start) =~= Seq::<u8>::empty());
            ticked.lemma_listen_grows(baud_ticks as nat);
        }
        while i < baud_ticks
            invariant
                i <= baud_ticks,
                self.wf(),
                ticked.listen(baud_ticks as nat) == self@.listen((baud_ticks - i) as nat),
                start <= self@.output.len(),
                start == ticked.output.len(),
                loader_finished == self@.output.subrange(start, self@.output.len() as int).contains(
                    MONITOR_PROMPT,
                ),
            decreases baud_ticks - i,
        {
            let ghost before = self@.output;
            let ghost previous = self@;
            assert(previous.listen((baud_ticks - i) as nat) == previous.after_host_read().listen(
                (baud_ticks - i - 1) as nat,
            ));
            match self.uart.host_read() {
                Some(byte) => {
                    self.output_queue.push(byte);
                    if byte == MONITOR_PROMPT {
                        loader_finished = true;
                    }
                    proof {
                        let tail = before.subrange(start, before.len() as int);
                        let now = self@.output.subrange(start, self@.output.len() as int);
                        assert(now =~= tail.push(byte));
                        assert(now[now.len() - 1] == byte);
                        assert forall|k: int| 0 <= k < tail.len() implies tail[k] == now[k] by {}
                        if tail.contains(MONITOR_PROMPT) {
                            let k = choose|k: int| 0 <= k < tail.len() && tail[k] == MONITOR_PROMPT;
                            assert(now[k] == MONITOR_PROMPT);
                        }
                        if now.contains(MONITOR_PROMPT) && byte != MONITOR_PROMPT {
                            let k = choose|k: int| 0 <= k < now.len() && now[k] == MONITOR_PROMPT;
                            assert(tail[k] == MONITOR_PROMPT);
                        }
                    }
                },
                None => {},
            }
            i += 1;
        }
        Ok(loader_finished)
    }

    /// Types `jmp 0` and a carriage return into the UART, which makes the
    /// monitor start the program at address 0. `false` and no change if
    /// the receive queue has no room for the six bytes.
    pub fn send_jump_command(&mut self) -> (sent: bool)
        requires
            old(self).wf(),
        ensures
            final(self).wf(),
            sent == (old(self)@.uart.receive.len() + 6 <= UART_FIFO_DEPTH),
            sent ==> final(self)@ == (SystemModel {
                uart: UartModel {
                    receive: old(self)@.uart.receive + seq![
                        0x6Au8,
                        0x6Du8,
                        0x70u8,
                        0x20u8,
                        0x30u8,
                        0x0Du8,
                    ],
                    ..old(self)@.uart
                },
                ..old(self)@
            }),
            !sent ==> final(self)@ == old(self)@,
    {
        if self.uart.receive_len() + 6 > UART_FIFO_DEPTH {
            return false;
        }
        self.uart.host_write(0x6A);
        self.uart.host_write(0x6D);
        self.uart.host_write(0x70);
        self.uart.host_write(0x20);
        self.uart.host_write(0x30);
        self.uart.host_write(0x0D);
        assert(self@.uart.receive =~= old(self)@.uart.receive + seq![
            0x6Au8,
            0x6Du8,
            0x70u8,
            0x20u8,
            0x30u8,
            0x0Du8,
        ]);
        true
    }
}

impl SystemModel {
    /// `n` baud periods in which the host takes bytes and sends none.
    pub open spec fn listen(self, n: nat) -> SystemModel
        decreases n,
    {
        if n == 0 {
            self
        } else {
            self.after_host_read().listen((n - 1) as nat)
        }
    }

    /// Listening only ever appends to the output.
    pub proof fn lemma_listen_grows(self, n: nat)
        ensures
            self.listen(n).output.len() >= self.output.len(),
        decreases n,
    {
        if n > 0 {
            self.after_host_read().lemma_listen_grows((n - 1) as nat);
        }
    }
}

/// Within a cycle the VGA reads after the CPU has written, and the conflict
/// ends with the cycle: when the cycle is over no aperture is blocked.
pub proof fn lemma_cycle_ends_conflict(s: SystemModel, baud: nat, audio: nat, vga: nat)
    requires
        s.cycle(baud, audio, vga).1.is_ok(),
    ensures
        !s.cycle(baud, audio, vga).0.memory.framebuffer_conflict,
        !s.cycle(baud, audio, vga).0.memory.palette_conflict,
        !s.cycle(baud, audio, vga).0.memory.tile_data_conflict,
{
}

} // verus!
