use jam1emu::device::{
    Audio, AudioWriteCycleState, ChannelOutput, Color, Controler, ControlerButton, Lcd, Memory,
    PixelBuffer, Queue, SquareWaveChannel, Uart, Vga,
};
use jam1emu::terminal::{self, Attribute, ClearKind, TerminalColor, TerminalCommand};
use jam1emu::types::{Byte, Word};
use jam1emu::utf8;

#[test]
fn byte_arithmetic_wraps() {
    assert_eq!(Byte::new(200).wrapping_add(Byte::new(100)).get(), 44);
    assert_eq!(Byte::new(1).wrapping_sub(Byte::new(2)).get(), 255);
    assert_eq!(Byte::new(16).wrapping_mul(Byte::new(17)).get(), 16);
    assert_eq!(Byte::new(200).div(Byte::new(7)).get(), 28);
    assert_eq!(Byte::new(200).rem(Byte::new(7)).get(), 4);
    assert_eq!(Byte::new(0xF0).bitand(Byte::new(0x3C)).get(), 0x30);
    assert_eq!(Byte::new(0xF0).bitor(Byte::new(0x3C)).get(), 0xFC);
    assert_eq!(Byte::new(0xF0).bitxor(Byte::new(0x3C)).get(), 0xCC);
    assert_eq!(Byte::new(0xF0).not().get(), 0x0F);
    assert_eq!(Byte::new(0x81).shl(1).get(), 0x02);
    assert_eq!(Byte::new(0x81).shl(9).get(), 0x02);
    assert_eq!(Byte::new(0x81).shr(1).get(), 0x40);
    assert_eq!(Byte::max_value().get(), 0xFF);
    assert_eq!(Byte::min_value(), Byte::zero());
}

#[test]
fn word_arithmetic_wraps() {
    assert_eq!(Word::new(0xFFFF).wrapping_add(Word::new(2)).get(), 1);
    assert_eq!(Word::new(0).wrapping_sub(Word::new(1)).get(), 0xFFFF);
    assert_eq!(Word::new(0x8001).shl(17).get(), 0x0002);
    assert_eq!(Word::max_value().get(), 0xFFFF);
}

#[test]
fn word_halves() {
    let mut word = Word::new(0x1234);
    assert_eq!(word.low(), Byte::new(0x34));
    assert_eq!(word.high(), Byte::new(0x12));
    word.set_low(Byte::new(0xAB));
    assert_eq!(word.get(), 0x12AB);
    word.set_high(Byte::new(0xCD));
    assert_eq!(word.get(), 0xCDAB);
}

#[test]
fn utf8_encoding_of_each_width() {
    let mut out = Vec::new();
    utf8::encode(0x41, &mut out);
    utf8::encode(0xE9, &mut out);
    utf8::encode(0x20AC, &mut out);
    utf8::encode(0x1F600, &mut out);
    assert_eq!(out, "A\u{e9}\u{20ac}\u{1f600}".as_bytes());
    assert_eq!(utf8::char_len(&out, 0), 1);
    assert_eq!(utf8::char_len(&out, 1), 2);
    assert_eq!(utf8::char_len(&out, 3), 3);
    assert_eq!(utf8::char_len(&out, 6), 4);
    assert_eq!(utf8::decode(&out, 1), 0xE9);
    assert_eq!(utf8::decode(&out, 3), 0x20AC);
    assert_eq!(utf8::decode(&out, 6), 0x1F600);
    assert!(utf8::is_whitespace(0x3000));
    assert!(!utf8::is_whitespace(0x41));
    assert!(!utf8::is_scalar(0xD800));
    assert!(utf8::is_scalar(0xE000));
}

#[test]
fn memory_reads_what_was_written() {
    let mut mem = Memory::new();
    let mut vga = Vga::new();
    mem.write(&mut vga, 0x1234, 0x56);
    assert_eq!(mem.read(&vga, 0x1234), 0x56);
    assert_eq!(mem.read(&vga, 0x1235), 0);
}

#[test]
fn memory_init_region_copies() {
    let mut mem = Memory::new();
    let vga = Vga::new();
    mem.init_region(&[1, 2, 3], 0xFFFD);
    assert_eq!(mem.read(&vga, 0xFFFC), 0);
    assert_eq!(mem.read(&vga, 0xFFFD), 1);
    assert_eq!(mem.read(&vga, 0xFFFF), 3);
}

#[test]
fn mapped_io_reaches_the_scroll_registers() {
    let mut mem = Memory::new();
    let mut vga = Vga::new();
    mem.write(&mut vga, 0x8B80, 0x34);
    mem.write(&mut vga, 0x8B81, 0x12);
    mem.write(&mut vga, 0x8B82, 0x78);
    mem.write(&mut vga, 0x8B83, 0x56);
    assert_eq!(vga.read_mapped_io(0), 0x34);
    assert_eq!(vga.read_mapped_io(1), 0x12);
    assert_eq!(mem.read(&vga, 0x8B82), 0x78);
    assert_eq!(mem.read(&vga, 0x8B83), 0x56);
    // The rest of the window holds nothing.
    mem.write(&mut vga, 0x8B00, 0xFF);
    assert_eq!(mem.read(&vga, 0x8B00), 0);
    assert_eq!(mem.read(&vga, 0x8BFF), 0);
    assert_eq!(vga.read_mapped_io(4), 0);
}

#[test]
fn framebuffer_write_hides_the_new_byte_until_the_cycle_ends() {
    let mut mem = Memory::new();
    let mut vga = Vga::new();
    mem.init_region(&[0x11], 0xC005);
    assert_eq!(mem.framebuffer_read(5), 0x11);
    mem.write(&mut vga, 0xC005, 0x22);
    assert_eq!(mem.framebuffer_read(5), 0x11);
    assert_eq!(mem.framebuffer_read(6), 0x11);
    mem.reset_vga_conflict();
    assert_eq!(mem.framebuffer_read(5), 0x22);
    assert_eq!(mem.framebuffer_read(0x2005), 0x22);
}

#[test]
fn tile_data_write_hides_the_new_byte_until_the_cycle_ends() {
    let mut mem = Memory::new();
    let mut vga = Vga::new();
    mem.init_region(&[0x33], 0xA000);
    assert_eq!(mem.tile_data_read(0), 0x33);
    mem.write(&mut vga, 0xA000, 0x44);
    assert_eq!(mem.tile_data_read(0), 0x33);
    mem.reset_vga_conflict();
    assert_eq!(mem.tile_data_read(0), 0x44);
}

#[test]
fn palette_is_banked_and_latched() {
    let mut mem = Memory::new();
    let mut vga = Vga::new();
    assert_eq!(mem.palette_read(1), Color::black());
    mem.write(&mut vga, 0x8C04, 10);
    mem.write(&mut vga, 0x8C05, 20);
    mem.write(&mut vga, 0x8C06, 30);
    // The VGA keeps reading its last color while the CPU holds the bus.
    assert_eq!(mem.palette_read(1), Color::black());
    mem.reset_vga_conflict();
    assert_eq!(mem.palette_read(1), Color::from_rgb(10, 20, 30));
    // The fourth byte of an entry selects the bank.
    mem.write(&mut vga, 0x8C07, 0x21);
    mem.reset_vga_conflict();
    assert_eq!(mem.palette_read(1), Color::black());
    mem.write(&mut vga, 0x8C04, 1);
    mem.write(&mut vga, 0x8C07, 0);
    mem.reset_vga_conflict();
    assert_eq!(mem.palette_read(1), Color::from_rgb(10, 20, 30));
}

#[test]
fn color_channels() {
    assert_eq!(Color::from_rgb(1, 2, 3).channels(), [1, 2, 3, 255]);
    assert_eq!(Color::black().channels(), [0, 0, 0, 255]);
}

#[test]
fn lcd_reads_zero() {
    let mut lcd = Lcd::new();
    lcd.write_cmd(5);
    lcd.write_data(6);
    assert_eq!(lcd.read_cmd(), 0);
}

#[test]
fn queue_is_first_in_first_out_and_bounded() {
    let mut queue: Queue<u8, 3> = Queue::new();
    assert_eq!(queue.len(), 0);
    assert_eq!(queue.dequeue(), None);
    assert!(queue.enqueue(1));
    assert!(queue.enqueue(2));
    assert!(queue.enqueue(3));
    assert!(!queue.enqueue(4));
    assert_eq!(queue.len(), 3);
    assert_eq!(queue.dequeue(), Some(1));
    assert!(queue.enqueue(5));
    assert_eq!(queue.dequeue(), Some(2));
    assert_eq!(queue.dequeue(), Some(3));
    assert_eq!(queue.dequeue(), Some(5));
    assert_eq!(queue.dequeue(), None);
}

#[test]
fn uart_status_counts_both_queues() {
    let mut uart = Uart::new();
    assert_eq!(uart.read_ctrl(), 0x00);
    uart.host_write(b'a');
    uart.host_write(b'b');
    uart.write_data(b'x');
    assert_eq!(uart.read_ctrl(), 0x12);
    assert_eq!(uart.receive_len(), 2);
    assert_eq!(uart.transmit_len(), 1);
    assert_eq!(uart.read_data(), b'a');
    assert_eq!(uart.read_data(), b'b');
    assert_eq!(uart.read_data(), 0);
    assert_eq!(uart.host_read(), Some(b'x'));
    assert_eq!(uart.host_read(), None);
    for i in 0..8 {
        uart.write_data(i);
    }
    assert_eq!(uart.read_ctrl(), 0x80);
}

#[test]
fn audio_write_protocol() {
    let mut audio = Audio::new();
    audio.write_data(2);
    audio.write_data(0x34);
    audio.write_data(0xF2);
    assert_eq!(audio.channel2.attenuation, 15);
    assert_eq!(audio.channel2.frequency, 0x234);
    assert_eq!(audio.cycle_state, AudioWriteCycleState::ChannelSelect);
    // A channel that does not exist takes the bytes and changes nothing.
    audio.write_data(7);
    audio.write_data(1);
    audio.write_data(1);
    assert_eq!(audio.channel0, SquareWaveChannel::new());
    // A select byte with bit 7 set sends the following bytes back to select.
    audio.write_data(0x81);
    assert_eq!(audio.cycle_state, AudioWriteCycleState::LowData);
    audio.write_data(0x00);
    assert_eq!(audio.cycle_state, AudioWriteCycleState::ChannelSelect);
    assert_eq!(audio.channel_index, 0x81);
}

#[test]
fn square_wave_flips_when_the_counter_runs_out() {
    let mut channel = SquareWaveChannel::new();
    channel.write(0x3002);
    assert_eq!(channel.attenuation, 3);
    assert_eq!(channel.frequency, 2);
    let outputs: Vec<bool> = (0..6).map(|_| channel.clock().high).collect();
    assert_eq!(outputs, vec![false, false, true, true, false, false]);
    assert_eq!(channel.clock(), ChannelOutput { high: true, attenuation: 3 });
    // A period of 0 counts as 1.
    let mut fast = SquareWaveChannel::new();
    let outputs: Vec<bool> = (0..4).map(|_| fast.clock().high).collect();
    assert_eq!(outputs, vec![false, true, false, true]);
}

#[test]
fn audio_clock_reports_every_voice() {
    let mut audio = Audio::new();
    audio.write_data(1);
    audio.write_data(0x01);
    audio.write_data(0x50);
    let frame = audio.clock();
    assert_eq!(frame.channel0, ChannelOutput { high: false, attenuation: 15 });
    assert_eq!(frame.channel1, ChannelOutput { high: false, attenuation: 5 });
}

#[test]
fn pixel_buffer_sets_pixels() {
    let mut buffer = PixelBuffer::new(3, 2);
    buffer.set_pixel_at(2, 1, Color::from_rgb(9, 8, 7));
    let data = buffer.pixel_data();
    assert_eq!(data.len(), 24);
    assert_eq!(&data[20..24], &[9, 8, 7, 255]);
    assert_eq!(&data[0..4], &[0, 0, 0, 255]);
}

#[test]
fn vga_status_byte() {
    let mut mem = Memory::new();
    let mut vga = Vga::new();
    // Top left: only the reset signal is present, the syncs are absent.
    assert_eq!(vga.read_data(), 0x80 | 0x40);
    vga.clock(&mut mem, 1);
    assert_eq!(vga.read_data(), 0x80 | 0x40 | 0x04);
    vga.clock(&mut mem, 639);
    // Column 640: horizontal blanking.
    assert_eq!(vga.read_data(), 0x80 | 0x40 | 0x20 | 0x08 | 0x04);
    vga.clock(&mut mem, 16);
    // Column 656: horizontal sync.
    assert_eq!(vga.read_data(), 0x40 | 0x20 | 0x08 | 0x04);
    vga.clock(&mut mem, 96 + 32);
    // Column 784: line clock.
    assert_eq!(vga.read_data(), 0x80 | 0x40 | 0x20 | 0x08 | 0x04 | 0x02);
    vga.clock(&mut mem, 16 + 800 * 479);
    // Line 480: vertical blanking.
    assert_eq!(vga.read_data(), 0x80 | 0x40 | 0x10 | 0x08 | 0x04);
    vga.clock(&mut mem, 800 * 10);
    // Line 490: vertical sync.
    assert_eq!(vga.read_data(), 0x80 | 0x10 | 0x08 | 0x04);
    vga.clock(&mut mem, 800 * 35);
    assert_eq!(vga.read_data(), 0x80 | 0x40);
}

#[test]
fn vga_draws_tiles_through_the_palette() {
    let mut mem = Memory::new();
    let mut vga = Vga::new();
    // Cell 0 shows tile 2, whose first row starts with the entries 10, 5, 10.
    mem.init_region(&[2], 0xC000);
    mem.init_region(&[0x5A, 0x0A], 0xA000 + 2 * 32);
    mem.write(&mut vga, 0x8C00 + 5 * 4, 10);
    mem.write(&mut vga, 0x8C00 + 5 * 4 + 1, 20);
    mem.write(&mut vga, 0x8C00 + 5 * 4 + 2, 30);
    mem.write(&mut vga, 0x8C00 + 10 * 4, 40);
    mem.reset_vga_conflict();
    vga.clock(&mut mem, 2);
    let data = vga.framebuffer().pixel_data();
    assert_eq!(data.len(), 640 * 480 * 4);
    // Column 1 is odd: the high nibble.
    assert_eq!(&data[4..8], &[10, 20, 30, 255]);
    // Column 2 is even: the low nibble.
    assert_eq!(&data[8..12], &[40, 0, 0, 255]);
}

#[test]
fn vga_scroll_is_taken_over_at_the_end_of_the_line() {
    let mut mem = Memory::new();
    let mut vga = Vga::new();
    // Tile 1 in the cell of row 8, tile 0 elsewhere.
    mem.init_region(&[1], 0xC000 + 128);
    mem.init_region(&[0x11], 0xA000 + 32);
    mem.write(&mut vga, 0x8C04, 99);
    mem.write(&mut vga, 0x8B82, 64);
    mem.write(&mut vga, 0x8B83, 0);
    mem.reset_vga_conflict();
    // The first line is drawn from row 0.
    vga.clock(&mut mem, 800);
    // The second line starts at row 64, which is cell row 8.
    vga.clock(&mut mem, 48);
    let data = vga.framebuffer().pixel_data();
    let at = (640 + 1) * 4;
    assert_eq!(data[at], 0);
    vga.reset();
    assert_eq!(vga.read_data(), 0x80 | 0x40);
    assert_eq!(vga.read_mapped_io(2), 0);
}

#[test]
fn controller_reads_low_and_high_in_turn() {
    let mut pad = Controler::new();
    pad.host_button_down(ControlerButton::B);
    pad.host_button_down(ControlerButton::Right);
    pad.host_button_down(ControlerButton::A);
    pad.host_button_down(ControlerButton::L);
    assert_eq!(pad.read_data(), 0x81);
    assert_eq!(pad.read_data(), 0x85);
    pad.host_button_up(ControlerButton::Right);
    pad.host_button_up(ControlerButton::A);
    assert_eq!(pad.read_data(), 0x01);
    assert_eq!(pad.read_data(), 0x84);
}

#[test]
fn controller_button_bits() {
    let buttons = [
        (ControlerButton::A, true, 0x01),
        (ControlerButton::B, false, 0x01),
        (ControlerButton::X, true, 0x02),
        (ControlerButton::Y, false, 0x02),
        (ControlerButton::Up, false, 0x10),
        (ControlerButton::Down, false, 0x20),
        (ControlerButton::Left, false, 0x40),
        (ControlerButton::Right, false, 0x80),
        (ControlerButton::R, true, 0x08),
        (ControlerButton::L, true, 0x04),
        (ControlerButton::Start, false, 0x08),
        (ControlerButton::Select, false, 0x04),
    ];
    for (button, high, mask) in buttons {
        assert_eq!(button.in_high(), high);
        assert_eq!(button.mask(), mask);
    }
}

#[test]
fn terminal_commands_for_characters_and_controls() {
    assert_eq!(terminal::print('x'), vec![TerminalCommand::Print('x')]);
    assert_eq!(
        terminal::print('\x7F'),
        vec![TerminalCommand::MoveLeft(1), TerminalCommand::Clear(ClearKind::UntilNewLine)]
    );
    assert_eq!(terminal::execute(b'\r'), Some(TerminalCommand::MoveToColumn(0)));
    assert_eq!(terminal::execute(b'\n'), Some(TerminalCommand::MoveDown(1)));
    assert_eq!(terminal::execute(8), Some(TerminalCommand::MoveLeft(1)));
    assert_eq!(terminal::execute(7), None);
    assert_eq!(
        terminal::esc_dispatch(false, b'c'),
        vec![TerminalCommand::Clear(ClearKind::All), TerminalCommand::MoveTo { column: 0, row: 0 }]
    );
    assert!(terminal::esc_dispatch(true, b'c').is_empty());
    assert!(terminal::esc_dispatch(false, b'3').is_empty());
    assert_eq!(terminal::reset().len(), 4);
}

#[test]
fn terminal_commands_for_control_sequences() {
    let csi = |params: &[&[u16]], action: char| {
        let params: Vec<Vec<u16>> = params.iter().map(|p| p.to_vec()).collect();
        terminal::csi_dispatch(&params, false, action)
    };
    assert_eq!(csi(&[&[0]], 'A'), vec![TerminalCommand::MoveUp(1)]);
    assert_eq!(csi(&[&[3]], 'B'), vec![TerminalCommand::MoveDown(3)]);
    assert_eq!(csi(&[], 'C'), vec![TerminalCommand::MoveRight(1)]);
    assert_eq!(csi(&[&[2]], 'D'), vec![TerminalCommand::MoveLeft(2)]);
    assert_eq!(csi(&[&[2]], 'E'), vec![TerminalCommand::MoveToNextLine(2)]);
    assert_eq!(csi(&[&[2]], 'F'), vec![TerminalCommand::MoveToPreviousLine(2)]);
    assert_eq!(csi(&[&[0]], 'G'), vec![TerminalCommand::MoveToColumn(0)]);
    assert_eq!(csi(&[&[4], &[7]], 'H'), vec![TerminalCommand::MoveTo { column: 7, row: 4 }]);
    assert_eq!(csi(&[&[4]], 'f'), vec![TerminalCommand::MoveTo { column: 0, row: 4 }]);
    assert_eq!(csi(&[&[0]], 'J'), vec![TerminalCommand::Clear(ClearKind::FromCursorDown)]);
    assert_eq!(csi(&[&[1]], 'J'), vec![TerminalCommand::Clear(ClearKind::FromCursorUp)]);
    assert_eq!(csi(&[&[2]], 'J'), vec![TerminalCommand::Clear(ClearKind::All)]);
    assert_eq!(csi(&[&[3]], 'J'), vec![TerminalCommand::Clear(ClearKind::Purge)]);
    assert_eq!(csi(&[&[0]], 'K'), vec![TerminalCommand::Clear(ClearKind::UntilNewLine)]);
    assert_eq!(csi(&[&[1]], 'K'), vec![]);
    assert_eq!(csi(&[&[2]], 'K'), vec![TerminalCommand::Clear(ClearKind::CurrentLine)]);
    assert_eq!(csi(&[&[25]], 'h'), vec![TerminalCommand::ShowCursor]);
    assert_eq!(csi(&[&[25]], 'l'), vec![TerminalCommand::HideCursor]);
    assert_eq!(csi(&[&[7]], 'h'), vec![]);
    assert_eq!(csi(&[&[1]], 'z'), vec![]);
    let ignored = terminal::csi_dispatch(&vec![vec![1]], true, 'A');
    assert!(ignored.is_empty());
}

#[test]
fn terminal_commands_for_renditions() {
    let sgr = |params: &[&[u16]]| {
        let params: Vec<Vec<u16>> = params.iter().map(|p| p.to_vec()).collect();
        terminal::csi_dispatch(&params, false, 'm')
    };
    assert_eq!(
        sgr(&[&[1], &[31], &[44], &[0]]),
        vec![
            TerminalCommand::SetAttribute(Attribute::Bold),
            TerminalCommand::SetForeground(TerminalColor::DarkRed),
            TerminalCommand::SetBackground(TerminalColor::DarkBlue),
            TerminalCommand::SetAttribute(Attribute::Reset),
        ]
    );
    assert_eq!(
        sgr(&[&[21], &[22], &[39], &[49], &[97], &[100], &[60]]),
        vec![
            TerminalCommand::SetAttribute(Attribute::NormalIntensity),
            TerminalCommand::SetAttribute(Attribute::NormalIntensity),
            TerminalCommand::SetForeground(TerminalColor::Reset),
            TerminalCommand::SetBackground(TerminalColor::Reset),
            TerminalCommand::SetForeground(TerminalColor::White),
            TerminalCommand::SetBackground(TerminalColor::DarkGrey),
        ]
    );
    // A color from the palette, in parameters and in sub-parameters.
    assert_eq!(
        sgr(&[&[38], &[5], &[200], &[1]]),
        vec![
            TerminalCommand::SetForeground(TerminalColor::AnsiValue(200)),
            TerminalCommand::SetAttribute(Attribute::Bold),
        ]
    );
    assert_eq!(
        sgr(&[&[48, 5, 300]]),
        vec![TerminalCommand::SetBackground(TerminalColor::AnsiValue(44))]
    );
    // Red, green and blue.
    assert_eq!(
        sgr(&[&[48], &[2], &[1], &[2], &[3], &[4]]),
        vec![
            TerminalCommand::SetBackground(TerminalColor::Rgb { r: 1, g: 2, b: 3 }),
            TerminalCommand::SetAttribute(Attribute::Underlined),
        ]
    );
    assert_eq!(
        sgr(&[&[38, 2, 9, 8]]),
        vec![TerminalCommand::SetForeground(TerminalColor::Rgb { r: 9, g: 8, b: 0 })]
    );
    // Parameters that run out count as 0; a kind that is not known gives no color.
    assert_eq!(
        sgr(&[&[38], &[2], &[7]]),
        vec![TerminalCommand::SetForeground(TerminalColor::Rgb { r: 7, g: 0, b: 0 })]
    );
    assert_eq!(sgr(&[&[38], &[9], &[1]]), vec![TerminalCommand::SetAttribute(Attribute::Bold)]);
    assert_eq!(sgr(&[&[38]]), vec![]);
}
