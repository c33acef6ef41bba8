//! Memory and the peripherals on the bus: LCD, UART, audio, VGA and game controller.

use vstd::prelude::*;

verus! {

/// Width of the visible screen in pixels.
pub const SCREEN_WIDTH: u16 = 640;

/// Height of the visible screen in pixels.
pub const SCREEN_HEIGHT: u16 = 480;

/// Size of the address space in bytes.
pub const MEMORY_SIZE: usize = 0x10000;

/// Size of the banked palette RAM in bytes.
pub const PALETTE_SIZE: usize = 0x8000;

pub const MAP_RANGE_START: u16 = 0x8B00;

pub const MAP_RANGE_END: u16 = 0x8C00;

pub const VGA_RANGE_START: u16 = 0x8B80;

pub const VGA_RANGE_END: u16 = 0x8B84;

pub const FRAMEBUFFER_START: u16 = 0xC000;

pub const FRAMEBUFFER_END: u16 = 0xE000;

pub const PALETTE_START: u16 = 0x8C00;

pub const PALETTE_END: u16 = 0x9000;

pub const TILE_DATA_START: u16 = 0xA000;

pub const TILE_DATA_END: u16 = 0xC000;

/// An RGBA color, one byte per channel.
#[derive(PartialEq, Eq, Clone, Copy, Debug, Structural)]
pub struct Color {
    pub r: u8,
    pub g: u8,
    pub b: u8,
    pub a: u8,
}

impl Color {
    /// An opaque color.
    pub fn from_rgb(r: u8, g: u8, b: u8) -> (c: Self)
        ensures
            c == (Color { r, g, b, a: 0xFF }),
    {
        Color { r, g, b, a: 0xFF }
    }

    /// Opaque black.
    pub fn black() -> (c: Self)
        ensures
            c == Color::spec_black(),
    {
        Color { r: 0, g: 0, b: 0, a: 0xFF }
    }

    pub open spec fn spec_black() -> Color {
        Color { r: 0, g: 0, b: 0, a: 0xFF }
    }

    /// The four channels in memory order.
    pub fn channels(&self) -> (c: [u8; 4])
        ensures
            c@ == seq![self.r, self.g, self.b, self.a],
    {
        let c = [self.r, self.g, self.b, self.a];
        assert(c@ =~= seq![self.r, self.g, self.b, self.a]);
        c
    }
}

/// The state of the scroll registers that memory-mapped I/O reaches.
pub struct ScrollModel {
    pub h_offset: u16,
    pub v_offset: u16,
    pub update_vscroll: bool,
}

impl ScrollModel {
    /// The byte that a read of scroll register `addr` returns.
    pub open spec fn read(self, addr: u16) -> u8 {
        if addr == 0 {
            (self.h_offset % 256) as u8
        } else if addr == 1 {
            (self.h_offset / 256) as u8
        } else if addr == 2 {
            (self.v_offset % 256) as u8
        } else if addr == 3 {
            (self.v_offset / 256) as u8
        } else {
            0
        }
    }

    /// The registers after `value` is written to scroll register `addr`.
    pub open spec fn write(self, addr: u16, value: u8) -> ScrollModel {
        if addr == 0 {
            ScrollModel { h_offset: ((self.h_offset / 256) * 256 + value) as u16, ..self }
        } else if addr == 1 {
            ScrollModel { h_offset: (value * 256 + self.h_offset % 256) as u16, ..self }
        } else if addr == 2 {
            ScrollModel { v_offset: ((self.v_offset / 256) * 256 + value) as u16, ..self }
        } else if addr == 3 {
            ScrollModel {
                v_offset: (value * 256 + self.v_offset % 256) as u16,
                update_vscroll: true,
                ..self
            }
        } else {
            self
        }
    }
}

/// What the memory holds: RAM, palette RAM and the bus-contention latches.
pub struct MemoryModel {
    pub ram: Seq<u8>,
    pub palette: Seq<u8>,
    pub framebuffer_conflict: bool,
    pub last_framebuffer_data: u8,
    pub palette_conflict: bool,
    pub last_palette_data: Color,
    pub palette_high: u8,
    pub tile_data_conflict: bool,
    pub last_tile_data: u8,
}

pub open spec fn in_mapped_io(addr: u16) -> bool {
    MAP_RANGE_START <= addr < MAP_RANGE_END
}

pub open spec fn in_vga_registers(addr: u16) -> bool {
    VGA_RANGE_START <= addr < VGA_RANGE_END
}

pub open spec fn in_framebuffer(addr: u16) -> bool {
    FRAMEBUFFER_START <= addr < FRAMEBUFFER_END
}

pub open spec fn in_palette(addr: u16) -> bool {
    PALETTE_START <= addr < PALETTE_END
}

pub open spec fn in_tile_data(addr: u16) -> bool {
    TILE_DATA_START <= addr < TILE_DATA_END
}

impl MemoryModel {
    pub open spec fn wf(self) -> bool {
        &&& self.ram.len() == MEMORY_SIZE
        &&& self.palette.len() == PALETTE_SIZE
        &&& self.palette_high < 32
    }

    /// The byte the CPU reads at `addr`.
    pub open spec fn read(self, scroll: ScrollModel, addr: u16) -> u8 {
        if in_mapped_io(addr) {
            if in_vga_registers(addr) {
                scroll.read((addr - VGA_RANGE_START) as u16)
            } else {
                0
            }
        } else {
            self.ram[addr as int]
        }
    }

    /// The index into palette RAM that a CPU access to `addr` reaches.
    pub open spec fn palette_index(self, addr: u16) -> int {
        self.palette_high * 1024 + addr % 1024
    }

    /// The memory after the CPU writes `value` to `addr`.
    pub open spec fn write(self, addr: u16, value: u8) -> MemoryModel {
        if in_mapped_io(addr) {
            self
        } else if in_framebuffer(addr) {
            MemoryModel {
                ram: self.ram.update(addr as int, value),
                framebuffer_conflict: true,
                ..self
            }
        } else if in_palette(addr) {
            MemoryModel {
                ram: self.ram.update(addr as int, value),
                palette: self.palette.update(self.palette_index(addr), value),
                palette_conflict: true,
                palette_high: if addr % 4 == 3 {
                    (value % 32) as u8
                } else {
                    self.palette_high
                },
                ..self
            }
        } else if in_tile_data(addr) {
            MemoryModel {
                ram: self.ram.update(addr as int, value),
                tile_data_conflict: true,
                ..self
            }
        } else {
            MemoryModel { ram: self.ram.update(addr as int, value), ..self }
        }
    }

    /// The scroll registers after the CPU writes `value` to `addr`.
    pub open spec fn write_scroll(scroll: ScrollModel, addr: u16, value: u8) -> ScrollModel {
        if in_vga_registers(addr) {
            scroll.write((addr - VGA_RANGE_START) as u16, value)
        } else {
            scroll
        }
    }

    /// The byte the VGA sees when it reads the framebuffer at `addr`.
    pub open spec fn framebuffer_value(self, addr: u16) -> u8 {
        if self.framebuffer_conflict {
            self.last_framebuffer_data
        } else {
            self.ram[addr % 0x2000 + FRAMEBUFFER_START]
        }
    }

    pub open spec fn after_framebuffer_read(self, addr: u16) -> MemoryModel {
        MemoryModel { last_framebuffer_data: self.framebuffer_value(addr), ..self }
    }

    /// The byte the VGA sees when it reads the tile data at `addr`.
    pub open spec fn tile_data_value(self, addr: u16) -> u8 {
        if self.tile_data_conflict {
            self.last_tile_data
        } else {
            self.ram[addr % 0x2000 + TILE_DATA_START]
        }
    }

    pub open spec fn after_tile_data_read(self, addr: u16) -> MemoryModel {
        MemoryModel { last_tile_data: self.tile_data_value(addr), ..self }
    }

    /// The color the VGA sees when it looks up palette entry `index`.
    pub open spec fn palette_value(self, index: u8) -> Color {
        if self.palette_conflict {
            self.last_palette_data
        } else {
            let at = self.palette_high * 1024 + index * 4;
            Color { r: self.palette[at], g: self.palette[at + 1], b: self.palette[at + 2], a: 0xFF }
        }
    }

    pub open spec fn after_palette_read(self, index: u8) -> MemoryModel {
        MemoryModel { last_palette_data: self.palette_value(index), ..self }
    }

    pub open spec fn after_conflict_reset(self) -> MemoryModel {
        MemoryModel {
            framebuffer_conflict: false,
            palette_conflict: false,
            tile_data_conflict: false,
            ..self
        }
    }

    /// The memory after `data` is copied to `addr` and the addresses that follow.
    pub open spec fn after_init(self, data: Seq<u8>, addr: u16) -> MemoryModel {
        MemoryModel {
            ram: Seq::new(
                self.ram.len(),
                |i: int|
                    if addr <= i < addr + data.len() {
                        data[i - addr]
                    } else {
                        self.ram[i]
                    },
            ),
            ..self
        }
    }
}

/// 64 KiB of memory with the memory-mapped I/O window and the latches that
/// hold what the VGA read last from framebuffer, palette and tile data.
pub struct Memory {
    data: Vec<u8>,
    palette_data: Vec<u8>,
    framebuffer_conflict: bool,
    last_framebuffer_data: u8,
    palette_conflict: bool,
    last_palette_data: Color,
    palette_high: u8,
    tile_data_conflict: bool,
    last_tile_data: u8,
}

impl View for Memory {
    type V = MemoryModel;

    closed spec fn view(&self) -> MemoryModel {
        MemoryModel {
            ram: self.data@,
            palette: self.palette_data@,
            framebuffer_conflict: self.framebuffer_conflict,
            last_framebuffer_data: self.last_framebuffer_data,
            palette_conflict: self.palette_conflict,
            last_palette_data: self.last_palette_data,
            palette_high: self.palette_high,
            tile_data_conflict: self.tile_data_conflict,
            last_tile_data: self.last_tile_data,
        }
    }
}

fn zeroed(len: usize) -> (v: Vec<u8>)
    ensures
        v@ == Seq::new(len as nat, |i: int| 0u8),
{
    let mut v: Vec<u8> = Vec::new();
    let mut i: usize = 0;
    while i < len
        invariant
            i <= len,
            v@ == Seq::new(i as nat, |j: int| 0u8),
        decreases len - i,
    {
        v.push(0);
        i += 1;
        assert(v@ =~= Seq::new(i as nat, |j: int| 0u8));
    }
    v
}

impl Memory {
    /// The memory has its full size.
    pub open spec fn wf(&self) -> bool {
        self@.wf()
    }

    pub open spec fn spec_new() -> MemoryModel {
        MemoryModel {
            ram: Seq::new(MEMORY_SIZE as nat, |i: int| 0u8),
            palette: Seq::new(PALETTE_SIZE as nat, |i: int| 0u8),
            framebuffer_conflict: false,
            last_framebuffer_data: 0,
            palette_conflict: false,
            last_palette_data: Color::spec_black(),
            palette_high: 0,
            tile_data_conflict: false,
            last_tile_data: 0,
        }
    }

    /// Memory with every byte zero and no conflict pending.
    pub fn new() -> (m: Self)
        ensures
            m.wf(),
            m@ == Self::spec_new(),
    {
        Memory {
            data: zeroed(MEMORY_SIZE),
            palette_data: zeroed(PALETTE_SIZE),
            framebuffer_conflict: false,
            last_framebuffer_data: 0,
            palette_conflict: false,
            last_palette_data: Color::black(),
            palette_high: 0,
            tile_data_conflict: false,
            last_tile_data: 0,
        }
    }

    /// Copies `data` into RAM starting at `addr`, past the I/O window and the
    /// conflict latches.
    pub fn init_region(&mut self, data: &[u8], addr: u16)
        requires
            old(self).wf(),
            addr + data@.len() <= MEMORY_SIZE,
        ensures
            final(self).wf(),
            final(self)@ == old(self)@.after_init(data@, addr),
    {
        let start: usize = addr as usize;
        let mut i: usize = 0;
        assert(self@.ram =~= old(self)@.after_init(data@.take(0), addr).ram);
        while i < data.len()
            invariant
                i <= data@.len(),
                start == addr,
                start + data@.len() <= MEMORY_SIZE,
                self.wf(),
                self@ == old(self)@.after_init(data@.take(i as int), addr),
            decreases data@.len() - i,
        {
            self.data.set(start + i, data[i]);
            i += 1;
            assert(self@.ram =~= old(self)@.after_init(data@.take(i as int), addr).ram);
        }
        assert(data@.take(i as int) =~= data@);
    }

    /// Reads the byte at `addr` as the CPU sees it.
    pub fn read(&self, vga: &Vga, addr: u16) -> (value: u8)
        requires
            self.wf(),
        ensures
            value == self@.read(vga@.scroll, addr),
    {
        if addr >= MAP_RANGE_START && addr < MAP_RANGE_END {
            if addr >= VGA_RANGE_START && addr < VGA_RANGE_END {
                vga.read_mapped_io(addr - VGA_RANGE_START)
            } else {
                0
            }
        } else {
            self.data[addr as usize]
        }
    }

    /// Writes `value` to `addr` as the CPU does. A write to framebuffer,
    /// palette or tile data raises that aperture's conflict latch.
    pub fn write(&mut self, vga: &mut Vga, addr: u16, value: u8)
        requires
            old(self).wf(),
            old(vga).wf(),
        ensures
            final(self).wf(),
            final(vga).wf(),
            final(self)@ == old(self)@.write(addr, value),
            final(vga)@ == (VgaModel {
                scroll: MemoryModel::write_scroll(old(vga)@.scroll, addr, value),
                ..old(vga)@
            }),
    {
        if addr >= MAP_RANGE_START && addr < MAP_RANGE_END {
            if addr >= VGA_RANGE_START && addr < VGA_RANGE_END {
                vga.write_mapped_io(addr - VGA_RANGE_START, value);
            }
        } else {
            if addr >= FRAMEBUFFER_START && addr < FRAMEBUFFER_END {
                self.framebuffer_conflict = true;
            } else if addr >= PALETTE_START && addr < PALETTE_END {
                self.palette_conflict = true;
                let palette_addr: usize = (self.palette_high as usize) * 1024 + (addr as usize)
                    % 1024;
                self.palette_data.set(palette_addr, value);
                if addr % 4 == 3 {
                    self.palette_high = value % 32;
                }
            } else if addr >= TILE_DATA_START && addr < TILE_DATA_END {
                self.tile_data_conflict = true;
            }
            self.data.set(addr as usize, value);
        }
    }

    /// The framebuffer byte for the VGA: the last byte it read while the CPU
    /// holds the bus, the stored byte otherwise.
    pub fn framebuffer_read(&mut self, addr: u16) -> (value: u8)
        requires
            old(self).wf(),
        ensures
            value == old(self)@.framebuffer_value(addr),
            final(self)@ == old(self)@.after_framebuffer_read(addr),
            final(self).wf(),
    {
        if self.framebuffer_conflict {
            self.last_framebuffer_data
        } else {
            let at: usize = (addr % 0x2000) as usize + FRAMEBUFFER_START as usize;
            let data = self.data[at];
            self.last_framebuffer_data = data;
            data
        }
    }

    /// The palette color for the VGA: the last color it read while the CPU
    /// holds the bus, the stored color of the current bank otherwise.
    pub fn palette_read(&mut self, index: u8) -> (color: Color)
        requires
            old(self).wf(),
        ensures
            color == old(self)@.palette_value(index),
            final(self)@ == old(self)@.after_palette_read(index),
            final(self).wf(),
    {
        if self.palette_conflict {
            self.last_palette_data
        } else {
            let at: usize = (self.palette_high as usize) * 1024 + (index as usize) * 4;
            let color = Color::from_rgb(
                self.palette_data[at],
                self.palette_data[at + 1],
                self.palette_data[at + 2],
            );
            self.last_palette_data = color;
            color
        }
    }

    /// The tile data byte for the VGA: the last byte it read while the CPU
    /// holds the bus, the stored byte otherwise.
    pub fn tile_data_read(&mut self, addr: u16) -> (value: u8)
        requires
            old(self).wf(),
        ensures
            value == old(self)@.tile_data_value(addr),
            final(self)@ == old(self)@.after_tile_data_read(addr),
            final(self).wf(),
    {
        if self.tile_data_conflict {
            self.last_tile_data
        } else {
            let at: usize = (addr % 0x2000) as usize + TILE_DATA_START as usize;
            let data = self.data[at];
            self.last_tile_data = data;
            data
        }
    }

    /// Ends the cycle: the VGA may read all three apertures again.
    pub fn reset_vga_conflict(&mut self)
        requires
            old(self).wf(),
        ensures
            final(self)@ == old(self)@.after_conflict_reset(),
            final(self).wf(),
    {
        self.framebuffer_conflict = false;
        self.palette_conflict = false;
        self.tile_data_conflict = false;
    }

    /// A copy of the 64 KiB that the CPU would read, address by address.
    pub fn snapshot(&self, vga: &Vga) -> (view: Vec<u8>)
        requires
            self.wf(),
        ensures
            view@ == Seq::new(MEMORY_SIZE as nat, |a: int| self@.read(vga@.scroll, a as u16)),
    {
        let mut view: Vec<u8> = Vec::new();
        let mut addr: usize = 0;
        while addr < MEMORY_SIZE
            invariant
                addr <= MEMORY_SIZE,
                self.wf(),
                view@ == Seq::new(addr as nat, |a: int| self@.read(vga@.scroll, a as u16)),
            decreases MEMORY_SIZE - addr,
        {
            let data = self.read(vga, addr as u16);
            view.push(data);
            addr += 1;
            assert(view@ =~= Seq::new(addr as nat, |a: int| self@.read(vga@.scroll, a as u16)));
        }
        view
    }
}


/// The LCD port. Nothing is attached to it: writes are dropped and the
/// command register reads as zero.
#[derive(Debug, Clone, Copy, PartialEq, Eq, Structural)]
pub struct Lcd {}

impl Lcd {
    /// The port; it holds no state.
    pub fn new() -> (lcd: Self)
        ensures
            lcd == (Lcd {  }),
    {
        Lcd {  }
    }

    pub fn write_cmd(&mut self, _value: u8)
        ensures
            *final(self) == *old(self),
    {
    }

    pub fn read_cmd(&mut self) -> (value: u8)
        ensures
            value == 0,
            *final(self) == *old(self),
    {
        0
    }

    pub fn write_data(&mut self, _value: u8)
        ensures
            *final(self) == *old(self),
    {
    }
}

/// A bounded first-in first-out queue of at most `N` items, kept in a ring.
pub struct Queue<T: Copy, const N: usize> {
    items: Vec<Option<T>>,
    start: usize,
    end: usize,
    len: usize,
}

impl<T: Copy, const N: usize> View for Queue<T, N> {
    type V = Seq<T>;

    /// The queued items, oldest first.
    closed spec fn view(&self) -> Seq<T> {
        Seq::new(self.len as nat, |i: int| self.items@[self.slot(i)].unwrap())
    }
}

impl<T: Copy, const N: usize> Queue<T, N> {
    /// The position in the ring of the `i`-th oldest item.
    spec fn slot(&self, i: int) -> int {
        if self.start + i < N {
            self.start + i
        } else {
            self.start + i - N
        }
    }

    /// The ring is consistent.
    pub closed spec fn wf(&self) -> bool {
        &&& N > 0
        &&& self.items@.len() == N
        &&& self.start < N
        &&& self.end < N
        &&& self.len <= N
        &&& self.end == if self.len == N {
            self.start as int
        } else {
            self.slot(self.len as int)
        }
        &&& forall|i: int| 0 <= i < self.len ==> (#[trigger] self.items@[self.slot(i)]).is_some()
    }

    /// An empty queue.
    pub fn new() -> (q: Self)
        requires
            N > 1,
        ensures
            q.wf(),
            q@ == Seq::<T>::empty(),
    {
        let mut items: Vec<Option<T>> = Vec::new();
        let mut i: usize = 0;
        while i < N
            invariant
                i <= N,
                items@.len() == i,
            decreases N - i,
        {
            items.push(None);
            i += 1;
        }
        let q = Queue { items, start: 0, end: 0, len: 0 };
        assert(q@ =~= Seq::<T>::empty());
        q
    }

    /// A queue never holds more than `N` items.
    pub proof fn lemma_len_bound(&self)
        requires
            self.wf(),
        ensures
            self@.len() <= N,
    {
    }

    /// The number of queued items.
    pub fn len(&self) -> (n: usize)
        requires
            self.wf(),
        ensures
            n == self@.len(),
            n <= N,
    {
        self.len
    }

    /// Appends `item` unless the queue is full, and says whether it did.
    pub fn enqueue(&mut self, item: T) -> (accepted: bool)
        requires
            old(self).wf(),
        ensures
            final(self).wf(),
            accepted == (old(self)@.len() < N),
            accepted ==> final(self)@ == old(self)@.push(item),
            !accepted ==> final(self)@ == old(self)@,
    {
        if self.len == N {
            false
        } else {
            let ghost before = *self;
            self.items.set(self.end, Some(item));
            self.end = if self.end + 1 == N {
                0
            } else {
                self.end + 1
            };
            self.len += 1;
            proof {
                assert forall|i: int| 0 <= i < self.len implies (#[trigger] self.items@[self.slot(
                    i,
                )]).is_some() by {
                    if i < before.len {
                        assert(before.items@[before.slot(i)].is_some());
                    }
                }
                assert forall|i: int| 0 <= i < self.len implies self@[i] == before@.push(item)[i] by {
                    if i < before.len {
                        assert(self.slot(i) == before.slot(i));
                    }
                }
                assert(self@ =~= before@.push(item));
            }
            true
        }
    }

    /// Removes the oldest item, if there is one.
    pub fn dequeue(&mut self) -> (item: Option<T>)
        requires
            old(self).wf(),
        ensures
            final(self).wf(),
            old(self)@.len() == 0 ==> item.is_none() && final(self)@ == old(self)@,
            old(self)@.len() > 0 ==> item == Some(old(self)@[0]) && final(self)@ == old(
                self,
            )@.subrange(1, old(self)@.len() as int),
    {
        if self.len == 0 {
            None
        } else {
            let ghost before = *self;
            assert(before.items@[before.slot(0)].is_some());
            let item = self.items[self.start];
            self.items.set(self.start, None);
            self.start = if self.start + 1 == N {
                0
            } else {
                self.start + 1
            };
            self.len -= 1;
            proof {
                assert forall|i: int| 0 <= i < self.len implies (#[trigger] self.items@[self.slot(
                    i,
                )]).is_some() by {
                    assert(self.slot(i) == before.slot(i + 1));
                    assert(before.items@[before.slot(i + 1)].is_some());
                }
                assert forall|i: int| 0 <= i < self.len implies self@[i] == before@.subrange(
                    1,
                    before@.len() as int,
                )[i] by {
                    assert(self.slot(i) == before.slot(i + 1));
                }
                assert(self@ =~= before@.subrange(1, before@.len() as int));
            }
            item
        }
    }
}

/// Depth of each UART queue.
pub const UART_FIFO_DEPTH: usize = 8;

/// The bytes waiting in the two UART queues, oldest first.
pub struct UartModel {
    /// From the host to the CPU.
    pub receive: Seq<u8>,
    /// From the CPU to the host.
    pub transmit: Seq<u8>,
}

impl UartModel {
    pub open spec fn wf(self) -> bool {
        &&& self.receive.len() <= UART_FIFO_DEPTH
        &&& self.transmit.len() <= UART_FIFO_DEPTH
    }

    /// The status byte: received count in the low nibble, pending transmit
    /// count in the high nibble.
    pub open spec fn ctrl(self) -> u8 {
        (self.receive.len() + 16 * self.transmit.len()) as u8
    }

    /// The byte a CPU read of the data port returns.
    pub open spec fn data(self) -> u8 {
        if self.receive.len() > 0 {
            self.receive[0]
        } else {
            0
        }
    }

    pub open spec fn after_read_data(self) -> UartModel {
        if self.receive.len() > 0 {
            UartModel { receive: self.receive.subrange(1, self.receive.len() as int), ..self }
        } else {
            self
        }
    }

    pub open spec fn after_write_data(self, value: u8) -> UartModel {
        UartModel { transmit: self.transmit.push(value), ..self }
    }

    pub open spec fn host_data(self) -> Option<u8> {
        if self.transmit.len() > 0 {
            Some(self.transmit[0])
        } else {
            None
        }
    }

    pub open spec fn after_host_read(self) -> UartModel {
        if self.transmit.len() > 0 {
            UartModel { transmit: self.transmit.subrange(1, self.transmit.len() as int), ..self }
        } else {
            self
        }
    }

    pub open spec fn after_host_write(self, value: u8) -> UartModel {
        UartModel { receive: self.receive.push(value), ..self }
    }
}

/// The serial port: a receive and a transmit queue of eight bytes each.
pub struct Uart {
    receive_fifo: Queue<u8, 8>,
    transmit_fifo: Queue<u8, 8>,
}

impl View for Uart {
    type V = UartModel;

    closed spec fn view(&self) -> UartModel {
        UartModel { receive: self.receive_fifo@, transmit: self.transmit_fifo@ }
    }
}

impl Uart {
    /// Both queues are consistent.
    pub closed spec fn wf(&self) -> bool {
        self.receive_fifo.wf() && self.transmit_fifo.wf()
    }

    /// A port with both queues empty.
    pub fn new() -> (uart: Self)
        ensures
            uart.wf(),
            uart@.receive == Seq::<u8>::empty(),
            uart@.transmit == Seq::<u8>::empty(),
    {
        Uart { receive_fifo: Queue::new(), transmit_fifo: Queue::new() }
    }

    /// Neither queue of a consistent port holds more than eight bytes.
    pub proof fn lemma_wf(&self)
        requires
            self.wf(),
        ensures
            self@.wf(),
    {
        self.receive_fifo.lemma_len_bound();
        self.transmit_fifo.lemma_len_bound();
    }

    /// How many bytes wait for the CPU.
    pub fn receive_len(&self) -> (n: usize)
        requires
            self.wf(),
        ensures
            n == self@.receive.len(),
            self@.wf(),
    {
        proof {
            self.lemma_wf();
        }
        self.receive_fifo.len()
    }

    /// How many bytes wait for the host.
    pub fn transmit_len(&self) -> (n: usize)
        requires
            self.wf(),
        ensures
            n == self@.transmit.len(),
            self@.wf(),
    {
        proof {
            self.lemma_wf();
        }
        self.transmit_fifo.len()
    }

    /// The status byte `rx_len | (tx_len << 4)`.
    pub fn read_ctrl(&mut self) -> (value: u8)
        requires
            old(self).wf(),
        ensures
            final(self).wf(),
            value == old(self)@.ctrl(),
            value == (old(self)@.receive.len() as u8) | ((old(self)@.transmit.len() as u8) << 4),
            final(self)@ == old(self)@,
    {
        let receive_bytes: u8 = self.receive_fifo.len() as u8;
        let transmit_bytes: u8 = self.transmit_fifo.len() as u8;
        assert(receive_bytes + 16 * transmit_bytes == receive_bytes | (transmit_bytes << 4u8))
            by (bit_vector)
            requires
                receive_bytes <= 8,
                transmit_bytes <= 8,
        ;
        receive_bytes + 16 * transmit_bytes
    }

    /// Takes the oldest received byte; zero when none waits.
    pub fn read_data(&mut self) -> (value: u8)
        requires
            old(self).wf(),
        ensures
            final(self).wf(),
            value == old(self)@.data(),
            final(self)@ == old(self)@.after_read_data(),
    {
        match self.receive_fifo.dequeue() {
            Some(value) => value,
            None => 0,
        }
    }

    /// Queues `value` for the host. The transmit queue must have room.
    pub fn write_data(&mut self, value: u8)
        requires
            old(self).wf(),
            old(self)@.transmit.len() < UART_FIFO_DEPTH,
        ensures
            final(self).wf(),
            final(self)@ == old(self)@.after_write_data(value),
    {
        let _ = self.transmit_fifo.enqueue(value);
    }

    /// Takes the oldest byte the CPU sent, if any.
    pub fn host_read(&mut self) -> (value: Option<u8>)
        requires
            old(self).wf(),
        ensures
            final(self).wf(),
            value == old(self)@.host_data(),
            final(self)@ == old(self)@.after_host_read(),
    {
        self.transmit_fifo.dequeue()
    }

    /// Queues `value` for the CPU. The receive queue must have room.
    pub fn host_write(&mut self, value: u8)
        requires
            old(self).wf(),
            old(self)@.receive.len() < UART_FIFO_DEPTH,
        ensures
            final(self).wf(),
            final(self)@ == old(self)@.after_host_write(value),
    {
        let _ = self.receive_fifo.enqueue(value);
    }
}

/// What the host writes comes out of the CPU side in the same order, and
/// the other way round.
pub proof fn lemma_uart_fifo_order(u: UartModel, first: u8, second: u8)
    requires
        u.receive.len() == 0,
        u.transmit.len() == 0,
    ensures
        u.after_host_write(first).after_host_write(second).data() == first,
        u.after_host_write(first).after_host_write(second).after_read_data().data() == second,
        u.after_write_data(first).after_write_data(second).host_data() == Some(first),
        u.after_write_data(first).after_write_data(second).after_host_read().host_data() == Some(
            second,
        ),
{
}

/// One square-wave voice. The volume is kept as the attenuation step that
/// the CPU wrote: 0 is full volume, 15 is silence.
#[derive(Debug, Clone, Copy, PartialEq, Eq, Structural)]
pub struct SquareWaveChannel {
    pub attenuation: u8,
    pub frequency: u16,
    pub counter: u16,
    pub high: bool,
}

/// What one voice contributes to a sample: its sign and its attenuation
/// step. The sample value is `+-(1 - attenuation / 15)`.
#[derive(Debug, Clone, Copy, PartialEq, Eq, Structural)]
pub struct ChannelOutput {
    pub high: bool,
    pub attenuation: u8,
}

impl SquareWaveChannel {
    pub open spec fn spec_new() -> SquareWaveChannel {
        SquareWaveChannel { attenuation: 15, frequency: 0, counter: 0, high: true }
    }

    /// A silent voice.
    pub fn new() -> (c: Self)
        ensures
            c == Self::spec_new(),
    {
        SquareWaveChannel { attenuation: 15, frequency: 0, counter: 0, high: true }
    }

    pub open spec fn spec_write(self, data: u16) -> SquareWaveChannel {
        SquareWaveChannel {
            attenuation: (data / 4096) as u8,
            frequency: data % 4096,
            ..self
        }
    }

    /// Sets attenuation (top four bits) and period (low twelve bits).
    pub fn write(&mut self, data: u16)
        ensures
            *final(self) == old(self).spec_write(data),
    {
        self.attenuation = (data / 4096) as u8;
        self.frequency = data % 4096;
    }

    pub open spec fn spec_clock(self) -> SquareWaveChannel {
        if self.counter == 0 {
            SquareWaveChannel {
                counter: if self.frequency > 1 {
                    (self.frequency - 1) as u16
                } else {
                    0
                },
                high: !self.high,
                ..self
            }
        } else {
            SquareWaveChannel { counter: (self.counter - 1) as u16, ..self }
        }
    }

    pub open spec fn output(self) -> ChannelOutput {
        ChannelOutput { high: self.high, attenuation: self.attenuation }
    }

    /// Advances the voice by one audio cycle: when the counter has run out
    /// it is reloaded from the period (at least 1) and the wave flips.
    pub fn clock(&mut self) -> (out: ChannelOutput)
        ensures
            *final(self) == old(self).spec_clock(),
            out == final(self).output(),
    {
        if self.counter == 0 {
            self.counter = if self.frequency > 1 {
                self.frequency
            } else {
                1
            };
            self.high = !self.high;
        }
        self.counter -= 1;
        ChannelOutput { high: self.high, attenuation: self.attenuation }
    }
}

/// Where the three-byte write protocol of the audio port stands.
#[derive(Debug, Clone, Copy, PartialEq, Eq, Structural)]
pub enum AudioWriteCycleState {
    ChannelSelect,
    LowData,
    HighData,
}

/// The contributions of the four voices to one sample.
#[derive(Debug, Clone, Copy, PartialEq, Eq, Structural)]
pub struct AudioFrame {
    pub channel0: ChannelOutput,
    pub channel1: ChannelOutput,
    pub channel2: ChannelOutput,
    pub channel3: ChannelOutput,
}

/// The sound chip: four square-wave voices behind one data port.
#[derive(Debug, Clone, Copy, PartialEq, Eq, Structural)]
pub struct Audio {
    pub channel0: SquareWaveChannel,
    pub channel1: SquareWaveChannel,
    pub channel2: SquareWaveChannel,
    pub channel3: SquareWaveChannel,
    pub cycle_state: AudioWriteCycleState,
    pub channel_index: u8,
    pub low_data: u8,
}

impl Audio {
    pub open spec fn spec_new() -> Audio {
        Audio {
            channel0: SquareWaveChannel::spec_new(),
            channel1: SquareWaveChannel::spec_new(),
            channel2: SquareWaveChannel::spec_new(),
            channel3: SquareWaveChannel::spec_new(),
            cycle_state: AudioWriteCycleState::ChannelSelect,
            channel_index: 0,
            low_data: 0,
        }
    }

    /// Four silent voices, waiting for a channel select.
    pub fn new() -> (audio: Self)
        ensures
            audio == Self::spec_new(),
    {
        Audio {
            channel0: SquareWaveChannel::new(),
            channel1: SquareWaveChannel::new(),
            channel2: SquareWaveChannel::new(),
            channel3: SquareWaveChannel::new(),
            cycle_state: AudioWriteCycleState::ChannelSelect,
            channel_index: 0,
            low_data: 0,
        }
    }

    /// The chip after the third byte of a write, `high`, has arrived.
    pub open spec fn with_channel_data(self, high: u8) -> Audio {
        let data = (high * 256 + self.low_data) as u16;
        let index = self.channel_index % 128;
        if index == 0 {
            Audio { channel0: self.channel0.spec_write(data), ..self }
        } else if index == 1 {
            Audio { channel1: self.channel1.spec_write(data), ..self }
        } else if index == 2 {
            Audio { channel2: self.channel2.spec_write(data), ..self }
        } else if index == 3 {
            Audio { channel3: self.channel3.spec_write(data), ..self }
        } else {
            self
        }
    }

    /// The chip after the CPU writes `value` to the data port.
    pub open spec fn spec_write_data(self, value: u8) -> Audio {
        let reset_cycle = self.channel_index >= 128;
        let next = match self.cycle_state {
            AudioWriteCycleState::ChannelSelect => Audio {
                channel_index: value,
                cycle_state: AudioWriteCycleState::LowData,
                ..self
            },
            AudioWriteCycleState::LowData => Audio {
                low_data: value,
                cycle_state: AudioWriteCycleState::HighData,
                ..self
            },
            AudioWriteCycleState::HighData => Audio {
                cycle_state: AudioWriteCycleState::ChannelSelect,
                ..self.with_channel_data(value)
            },
        };
        if reset_cycle {
            Audio { cycle_state: AudioWriteCycleState::ChannelSelect, ..next }
        } else {
            next
        }
    }

    /// Takes one byte of the write protocol: channel select, low data byte,
    /// high data byte. A select byte with bit 7 set, once latched, sends
    /// every following byte back to channel select.
    pub fn write_data(&mut self, value: u8)
        ensures
            *final(self) == old(self).spec_write_data(value),
    {
        let reset_cycle = self.channel_index >= 128;
        match self.cycle_state {
            AudioWriteCycleState::ChannelSelect => {
                self.channel_index = value;
                self.cycle_state = AudioWriteCycleState::LowData;
            },
            AudioWriteCycleState::LowData => {
                self.low_data = value;
                self.cycle_state = AudioWriteCycleState::HighData;
            },
            AudioWriteCycleState::HighData => {
                let data: u16 = (value as u16) * 256 + (self.low_data as u16);
                let index: u8 = self.channel_index % 128;
                if index == 0 {
                    self.channel0.write(data);
                } else if index == 1 {
                    self.channel1.write(data);
                } else if index == 2 {
                    self.channel2.write(data);
                } else if index == 3 {
                    self.channel3.write(data);
                }
                self.cycle_state = AudioWriteCycleState::ChannelSelect;
            },
        }
        if reset_cycle {
            self.cycle_state = AudioWriteCycleState::ChannelSelect;
        }
    }

    pub open spec fn spec_clock(self) -> Audio {
        Audio {
            channel0: self.channel0.spec_clock(),
            channel1: self.channel1.spec_clock(),
            channel2: self.channel2.spec_clock(),
            channel3: self.channel3.spec_clock(),
            ..self
        }
    }

    pub open spec fn frame(self) -> AudioFrame {
        AudioFrame {
            channel0: self.channel0.output(),
            channel1: self.channel1.output(),
            channel2: self.channel2.output(),
            channel3: self.channel3.output(),
        }
    }

    /// Advances all four voices by one audio cycle.
    pub fn clock(&mut self) -> (frame: AudioFrame)
        ensures
            *final(self) == old(self).spec_clock(),
            frame == final(self).frame(),
    {
        let channel0 = self.channel0.clock();
        let channel1 = self.channel1.clock();
        let channel2 = self.channel2.clock();
        let channel3 = self.channel3.clock();
        AudioFrame { channel0, channel1, channel2, channel3 }
    }
}

/// A complete three-byte write sets attenuation and period of the selected
/// voice and leaves the port waiting for the next select byte.
pub proof fn lemma_audio_write_protocol(audio: Audio, select: u8, low: u8, high: u8)
    requires
        audio.cycle_state == AudioWriteCycleState::ChannelSelect,
        audio.channel_index < 128,
        select < 4,
    ensures
        ({
            let done = audio.spec_write_data(select).spec_write_data(low).spec_write_data(high);
            let voice = if select == 0 {
                done.channel0
            } else if select == 1 {
                done.channel1
            } else if select == 2 {
                done.channel2
            } else {
                done.channel3
            };
            &&& done.cycle_state == AudioWriteCycleState::ChannelSelect
            &&& voice.attenuation == high / 16
            &&& voice.frequency == (high % 16) * 256 + low
        }),
{
}

/// The pixels of a `width` by `height` image, row by row.
pub struct PixelBufferModel {
    pub pixels: Seq<Color>,
    pub width: usize,
    pub height: usize,
}

/// A `width` by `height` image.
pub struct PixelBuffer {
    pixels: Vec<Color>,
    width: usize,
    height: usize,
}

impl View for PixelBuffer {
    type V = PixelBufferModel;

    closed spec fn view(&self) -> PixelBufferModel {
        PixelBufferModel { pixels: self.pixels@, width: self.width, height: self.height }
    }
}

impl PixelBuffer {
    /// There is one pixel for each position.
    pub open spec fn wf(&self) -> bool {
        self@.pixels.len() == self@.width * self@.height
    }

    /// A black image.
    pub fn new(width: usize, height: usize) -> (buffer: Self)
        requires
            width * height <= usize::MAX,
        ensures
            buffer.wf(),
            buffer@.width == width,
            buffer@.height == height,
            buffer@.pixels == Seq::new((width * height) as nat, |i: int| Color::spec_black()),
    {
        let count: usize = width * height;
        let mut pixels: Vec<Color> = Vec::new();
        let mut i: usize = 0;
        while i < count
            invariant
                i <= count,
                pixels@ == Seq::new(i as nat, |j: int| Color::spec_black()),
            decreases count - i,
        {
            pixels.push(Color::black());
            i += 1;
            assert(pixels@ =~= Seq::new(i as nat, |j: int| Color::spec_black()));
        }
        PixelBuffer { pixels, width, height }
    }

    /// Colors the pixel in column `col` of row `row`.
    pub fn set_pixel_at(&mut self, col: usize, row: usize, color: Color)
        requires
            old(self).wf(),
            col < old(self)@.width,
            row < old(self)@.height,
        ensures
            final(self).wf(),
            final(self)@ == (PixelBufferModel {
                pixels: old(self)@.pixels.update(col + row * old(self)@.width, color),
                ..old(self)@
            }),
    {
        let count: usize = self.pixels.len();
        proof {
            assert(count == self.width * self.height);
            assert(row * self.width + self.width <= self.width * self.height)
                by (nonlinear_arith)
                requires
                    row < self.height,
            ;
        }
        let at: usize = col + row * self.width;
        self.pixels.set(at, color);
    }

    /// The image as bytes, four per pixel in the order red, green, blue, alpha.
    pub fn pixel_data(&self) -> (data: Vec<u8>)
        ensures
            data@.len() == 4 * self@.pixels.len(),
            forall|i: int|
                0 <= i < self@.pixels.len() ==> {
                    &&& data@[4 * i] == (#[trigger] self@.pixels[i]).r
                    &&& data@[4 * i + 1] == self@.pixels[i].g
                    &&& data@[4 * i + 2] == self@.pixels[i].b
                    &&& data@[4 * i + 3] == self@.pixels[i].a
                },
    {
        let mut data: Vec<u8> = Vec::new();
        let mut i: usize = 0;
        while i < self.pixels.len()
            invariant
                i <= self.pixels@.len(),
                data@.len() == 4 * i,
                forall|j: int|
                    0 <= j < i ==> {
                        &&& data@[4 * j] == (#[trigger] self.pixels@[j]).r
                        &&& data@[4 * j + 1] == self.pixels@[j].g
                        &&& data@[4 * j + 2] == self.pixels@[j].b
                        &&& data@[4 * j + 3] == self.pixels@[j].a
                    },
            decreases self.pixels@.len() - i,
        {
            let color = self.pixels[i];
            data.push(color.r);
            data.push(color.g);
            data.push(color.b);
            data.push(color.a);
            i += 1;
        }
        data
    }
}


/// Pixels per line, blanking included.
pub const H_PIXELS: u16 = 800;

/// Lines per frame, blanking included.
pub const V_PIXELS: u16 = 525;

/// The scroll offsets count from the start of the back porch.
pub const BASE_H_OFFSET: u16 = 47;

pub const BASE_V_OFFSET: u16 = 33;

pub const STATUS_H_SYNC: u8 = 0x80;

pub const STATUS_V_SYNC: u8 = 0x40;

pub const STATUS_H_BLANK: u8 = 0x20;

pub const STATUS_V_BLANK: u8 = 0x10;

pub const STATUS_BLANK: u8 = 0x08;

pub const STATUS_RESET: u8 = 0x04;

pub const STATUS_LINE_CLOCK: u8 = 0x02;

/// The state of the video generator.
pub struct VgaModel {
    /// The 640 by 480 picture, row by row.
    pub pixels: Seq<Color>,
    pub h_counter: u16,
    pub v_counter: u16,
    pub h_pixel: u16,
    pub v_pixel: u16,
    pub scroll: ScrollModel,
}

impl VgaModel {
    pub open spec fn wf(self) -> bool {
        &&& self.pixels.len() == SCREEN_WIDTH * SCREEN_HEIGHT
        &&& self.h_counter < H_PIXELS
        &&& self.v_counter < V_PIXELS
    }

    pub open spec fn h_sync(self) -> bool {
        SCREEN_WIDTH + 16 <= self.h_counter < SCREEN_WIDTH + 16 + 96
    }

    pub open spec fn v_sync(self) -> bool {
        SCREEN_HEIGHT + 10 <= self.v_counter < SCREEN_HEIGHT + 10 + 2
    }

    pub open spec fn line_clock(self) -> bool {
        SCREEN_WIDTH + 16 + 96 + 32 <= self.h_counter < SCREEN_WIDTH + 16 + 96 + 32 + 16
    }

    /// The status byte. The sync and reset bits are active low: they are set
    /// while the signal is absent.
    pub open spec fn status(self) -> u8 {
        let h_blank = self.h_counter >= SCREEN_WIDTH;
        let v_blank = self.v_counter >= SCREEN_HEIGHT;
        ((if !self.h_sync() {
            STATUS_H_SYNC as int
        } else {
            0
        }) + (if !self.v_sync() {
            STATUS_V_SYNC as int
        } else {
            0
        }) + (if h_blank {
            STATUS_H_BLANK as int
        } else {
            0
        }) + (if v_blank {
            STATUS_V_BLANK as int
        } else {
            0
        }) + (if h_blank || v_blank {
            STATUS_BLANK as int
        } else {
            0
        }) + (if !(self.h_counter == 0 && self.v_counter == 0) {
            STATUS_RESET as int
        } else {
            0
        }) + (if self.line_clock() {
            STATUS_LINE_CLOCK as int
        } else {
            0
        })) as u8
    }

    pub open spec fn after_reset(self) -> VgaModel {
        VgaModel {
            h_counter: 0,
            v_counter: 0,
            h_pixel: 0,
            v_pixel: 0,
            scroll: ScrollModel { h_offset: 0, v_offset: 0, update_vscroll: false },
            ..self
        }
    }

    /// The counters after one pixel clock. At the end of a line the
    /// horizontal pixel position is reloaded from the scroll register; the
    /// vertical one steps on, or takes a freshly written scroll value, which
    /// is then used up. At the end of a frame the vertical position is
    /// reloaded.
    pub open spec fn advance(self) -> VgaModel {
        if self.h_counter + 1 == H_PIXELS {
            let h_pixel = ((self.scroll.h_offset + BASE_H_OFFSET) % 0x10000) as u16;
            if self.v_counter + 1 == V_PIXELS {
                VgaModel {
                    h_counter: 0,
                    h_pixel,
                    v_counter: 0,
                    v_pixel: ((self.scroll.v_offset + BASE_V_OFFSET) % 0x10000) as u16,
                    scroll: ScrollModel { update_vscroll: false, ..self.scroll },
                    ..self
                }
            } else {
                VgaModel {
                    h_counter: 0,
                    h_pixel,
                    v_counter: (self.v_counter + 1) as u16,
                    v_pixel: if self.scroll.update_vscroll {
                        self.scroll.v_offset
                    } else {
                        ((self.v_pixel + 1) % 0x10000) as u16
                    },
                    scroll: ScrollModel { update_vscroll: false, ..self.scroll },
                    ..self
                }
            }
        } else {
            VgaModel {
                h_counter: (self.h_counter + 1) as u16,
                h_pixel: ((self.h_pixel + 1) % 0x10000) as u16,
                ..self
            }
        }
    }

    pub open spec fn visible(self) -> bool {
        self.h_counter < SCREEN_WIDTH && self.v_counter < SCREEN_HEIGHT
    }

    /// The framebuffer cell under the current pixel.
    pub open spec fn framebuffer_addr(self) -> u16 {
        ((self.h_pixel / 8) % 128 + ((self.v_pixel / 8) % 64) * 128) as u16
    }

    /// Where the current pixel's byte lies in the data of tile `tile_index`.
    pub open spec fn tile_addr(self, tile_index: u8) -> u16 {
        (tile_index * 32 + (self.v_pixel % 8) * 4 + (self.h_pixel % 8) / 2) as u16
    }

    /// The palette entry of the current pixel: the high nibble of the tile
    /// byte for odd columns, the low nibble for even ones.
    pub open spec fn palette_entry(self, tile_byte: u8) -> u8 {
        if self.h_pixel % 2 == 1 {
            tile_byte / 16
        } else {
            tile_byte % 16
        }
    }

    /// Generator and memory after one pixel clock.
    pub open spec fn tick(self, mem: MemoryModel) -> (VgaModel, MemoryModel) {
        let next = self.advance();
        if next.visible() {
            let tile_index = mem.framebuffer_value(next.framebuffer_addr());
            let mem1 = mem.after_framebuffer_read(next.framebuffer_addr());
            let tile_byte = mem1.tile_data_value(next.tile_addr(tile_index));
            let mem2 = mem1.after_tile_data_read(next.tile_addr(tile_index));
            let entry = next.palette_entry(tile_byte);
            let color = mem2.palette_value(entry);
            let mem3 = mem2.after_palette_read(entry);
            (
                VgaModel {
                    pixels: next.pixels.update(
                        next.h_counter + next.v_counter * SCREEN_WIDTH,
                        color,
                    ),
                    ..next
                },
                mem3,
            )
        } else {
            (next, mem)
        }
    }

    /// Generator and memory after `n` pixel clocks.
    pub open spec fn clock(self, mem: MemoryModel, n: nat) -> (VgaModel, MemoryModel)
        decreases n,
    {
        if n == 0 {
            (self, mem)
        } else {
            let (vga, mem1) = self.clock(mem, (n - 1) as nat);
            vga.tick(mem1)
        }
    }
}

/// The video generator: counters, scroll registers and the picture it has
/// drawn so far.
pub struct Vga {
    buffer: PixelBuffer,
    h_counter: u16,
    v_counter: u16,
    h_pixel: u16,
    v_pixel: u16,
    h_offset: u16,
    v_offset: u16,
    update_vscroll: bool,
}

impl View for Vga {
    type V = VgaModel;

    closed spec fn view(&self) -> VgaModel {
        VgaModel {
            pixels: self.buffer@.pixels,
            h_counter: self.h_counter,
            v_counter: self.v_counter,
            h_pixel: self.h_pixel,
            v_pixel: self.v_pixel,
            scroll: ScrollModel {
                h_offset: self.h_offset,
                v_offset: self.v_offset,
                update_vscroll: self.update_vscroll,
            },
        }
    }
}

impl Vga {
    /// The counters are within the frame and the picture has the screen's size.
    pub closed spec fn wf(&self) -> bool {
        &&& self@.wf()
        &&& self.buffer@.width == SCREEN_WIDTH
        &&& self.buffer@.height == SCREEN_HEIGHT
    }

    pub open spec fn spec_new() -> VgaModel {
        VgaModel {
            pixels: Seq::new((SCREEN_WIDTH * SCREEN_HEIGHT) as nat, |i: int| Color::spec_black()),
            h_counter: 0,
            v_counter: 0,
            h_pixel: 0,
            v_pixel: 0,
            scroll: ScrollModel { h_offset: 0, v_offset: 0, update_vscroll: false },
        }
    }

    /// In a consistent generator the counters are within the frame of 800
    /// by 525 and the picture has 640 by 480 pixels.
    pub proof fn lemma_wf(&self)
        requires
            self.wf(),
        ensures
            self@.wf(),
    {
    }

    /// A generator at the top left corner with a black picture.
    pub fn new() -> (vga: Self)
        ensures
            vga.wf(),
            vga@.wf(),
            vga@ == Self::spec_new(),
    {
        Vga {
            buffer: PixelBuffer::new(SCREEN_WIDTH as usize, SCREEN_HEIGHT as usize),
            h_counter: 0,
            v_counter: 0,
            h_pixel: 0,
            v_pixel: 0,
            h_offset: 0,
            v_offset: 0,
            update_vscroll: false,
        }
    }

    /// Clears counters and scroll registers; the picture stays.
    pub fn reset(&mut self)
        requires
            old(self).wf(),
        ensures
            final(self)@ == old(self)@.after_reset(),
            final(self).wf(),
            final(self)@.wf(),
    {
        self.h_counter = 0;
        self.v_counter = 0;
        self.h_pixel = 0;
        self.v_pixel = 0;
        self.h_offset = 0;
        self.v_offset = 0;
        self.update_vscroll = false;
    }

    /// The picture drawn so far.
    pub fn framebuffer(&self) -> (buffer: &PixelBuffer)
        requires
            self.wf(),
        ensures
            buffer.wf(),
            buffer@.pixels == self@.pixels,
            buffer@.width == SCREEN_WIDTH,
            buffer@.height == SCREEN_HEIGHT,
    {
        &self.buffer
    }

    /// The status byte that the CPU reads from the VGA port.
    pub fn read_data(&self) -> (value: u8)
        ensures
            value == self@.status(),
    {
        let h_sync_start: u16 = SCREEN_WIDTH + 16;
        let h_sync_end: u16 = h_sync_start + 96;
        let v_sync_start: u16 = SCREEN_HEIGHT + 10;
        let v_sync_end: u16 = v_sync_start + 2;
        let line_clock_start: u16 = h_sync_end + 32;
        let line_clock_end: u16 = line_clock_start + 16;

        let h_blank = self.h_counter >= SCREEN_WIDTH;
        let v_blank = self.v_counter >= SCREEN_HEIGHT;
        let mut result: u8 = 0;
        if !(self.h_counter >= h_sync_start && self.h_counter < h_sync_end) {
            result = result + STATUS_H_SYNC;
        }
        if !(self.v_counter >= v_sync_start && self.v_counter < v_sync_end) {
            result = result + STATUS_V_SYNC;
        }
        if h_blank {
            result = result + STATUS_H_BLANK;
        }
        if v_blank {
            result = result + STATUS_V_BLANK;
        }
        if h_blank || v_blank {
            result = result + STATUS_BLANK;
        }
        if !(self.h_counter == 0 && self.v_counter == 0) {
            result = result + STATUS_RESET;
        }
        if self.h_counter >= line_clock_start && self.h_counter < line_clock_end {
            result = result + STATUS_LINE_CLOCK;
        }
        result
    }

    /// Reads one byte of the scroll registers: 0 and 1 are the horizontal
    /// offset, 2 and 3 the vertical one, low byte first.
    pub fn read_mapped_io(&self, addr: u16) -> (value: u8)
        ensures
            value == self@.scroll.read(addr),
    {
        if addr == 0 {
            (self.h_offset % 256) as u8
        } else if addr == 1 {
            (self.h_offset / 256) as u8
        } else if addr == 2 {
            (self.v_offset % 256) as u8
        } else if addr == 3 {
            (self.v_offset / 256) as u8
        } else {
            0
        }
    }

    /// Writes one byte of the scroll registers. Writing the last byte asks
    /// for the vertical offset to be taken over at the end of the line.
    pub fn write_mapped_io(&mut self, addr: u16, value: u8)
        requires
            old(self).wf(),
        ensures
            final(self)@ == (VgaModel { scroll: old(self)@.scroll.write(addr, value), ..old(self)@ }),
            final(self).wf(),
            final(self)@.wf(),
    {
        if addr == 0 {
            self.h_offset = (self.h_offset / 256) * 256 + (value as u16);
        } else if addr == 1 {
            self.h_offset = (value as u16) * 256 + self.h_offset % 256;
        } else if addr == 2 {
            self.v_offset = (self.v_offset / 256) * 256 + (value as u16);
        } else if addr == 3 {
            self.v_offset = (value as u16) * 256 + self.v_offset % 256;
            self.update_vscroll = true;
        }
    }

    /// Steps the counters.
    fn advance(&mut self)
        requires
            old(self).wf(),
        ensures
            final(self).wf(),
            final(self)@ == old(self)@.advance(),
    {
        self.h_counter += 1;
        self.h_pixel = self.h_pixel.wrapping_add(1);
        if self.h_counter == H_PIXELS {
            self.h_counter = 0;
            self.h_pixel = self.h_offset.wrapping_add(BASE_H_OFFSET);
            self.v_counter += 1;
            if self.update_vscroll {
                self.v_pixel = self.v_offset;
                self.update_vscroll = false;
            } else {
                self.v_pixel = self.v_pixel.wrapping_add(1);
            }
            if self.v_counter == V_PIXELS {
                self.v_counter = 0;
                self.v_pixel = self.v_offset.wrapping_add(BASE_V_OFFSET);
                self.update_vscroll = false;
            }
        }
    }

    /// One pixel clock.
    fn tick(&mut self, mem: &mut Memory)
        requires
            old(self).wf(),
            old(mem).wf(),
        ensures
            (final(self)@, final(mem)@) == old(self)@.tick(old(mem)@),
            final(self).wf(),
            final(mem).wf(),
    {
        self.advance();
        let ghost next = self@;
        if self.h_counter < SCREEN_WIDTH && self.v_counter < SCREEN_HEIGHT {
            let h_addr: u16 = (self.h_pixel / 8) % 128;
            let v_addr: u16 = (self.v_pixel / 8) % 64;
            let tile_x: u16 = self.h_pixel % 8;
            let tile_y: u16 = self.v_pixel % 8;

            let framebuffer_addr: u16 = h_addr + v_addr * 128;
            assert(framebuffer_addr == next.framebuffer_addr());
            let tile_index = mem.framebuffer_read(framebuffer_addr);

            let tile_addr: u16 = (tile_index as u16) * 32 + tile_y * 4 + tile_x / 2;
            assert(tile_addr == next.tile_addr(tile_index));
            let tile_byte = mem.tile_data_read(tile_addr);
            let palette_index: u8 = if tile_x % 2 == 1 {
                tile_byte / 16
            } else {
                tile_byte % 16
            };
            assert(palette_index == next.palette_entry(tile_byte));
            let color = mem.palette_read(palette_index);
            self.buffer.set_pixel_at(self.h_counter as usize, self.v_counter as usize, color);
        }
    }

    /// Runs the generator for `n` pixel clocks, reading the picture from `mem`.
    pub fn clock(&mut self, mem: &mut Memory, n: u32)
        requires
            old(self).wf(),
            old(mem).wf(),
        ensures
            (final(self)@, final(mem)@) == old(self)@.clock(old(mem)@, n as nat),
            final(self).wf(),
            final(self)@.wf(),
            final(mem).wf(),
    {
        let mut i: u32 = 0;
        while i < n
            invariant
                i <= n,
                (self@, mem@) == old(self)@.clock(old(mem)@, i as nat),
                self.wf(),
                mem.wf(),
            decreases n - i,
        {
            self.tick(mem);
            i += 1;
        }
    }
}

/// A blanked pixel clock leaves both the picture and the memory latches alone.
pub proof fn lemma_blanking_reads_nothing(vga: VgaModel, mem: MemoryModel)
    requires
        !vga.advance().visible(),
    ensures
        vga.tick(mem).1 == mem,
        vga.tick(mem).0.pixels == vga.pixels,
{
}

/// A button of the game controller, in the SNES layout.
#[derive(Debug, Clone, Copy, PartialEq, Eq, Structural)]
pub enum ControlerButton {
    A,
    B,
    X,
    Y,
    Up,
    Down,
    Left,
    Right,
    R,
    L,
    Start,
    Select,
}

impl ControlerButton {
    /// Whether the button is reported in the high byte.
    pub open spec fn spec_in_high(self) -> bool {
        match self {
            ControlerButton::A | ControlerButton::X | ControlerButton::R | ControlerButton::L => true,
            _ => false,
        }
    }

    /// The button's bit within its byte.
    pub open spec fn spec_mask(self) -> u8 {
        match self {
            ControlerButton::A => 0x01,
            ControlerButton::B => 0x01,
            ControlerButton::X => 0x02,
            ControlerButton::Y => 0x02,
            ControlerButton::Up => 0x10,
            ControlerButton::Down => 0x20,
            ControlerButton::Left => 0x40,
            ControlerButton::Right => 0x80,
            ControlerButton::R => 0x08,
            ControlerButton::L => 0x04,
            ControlerButton::Start => 0x08,
            ControlerButton::Select => 0x04,
        }
    }

    #[verifier::when_used_as_spec(spec_in_high)]
    pub fn in_high(self) -> (high: bool)
        ensures
            high == self.spec_in_high(),
    {
        match self {
            ControlerButton::A | ControlerButton::X | ControlerButton::R | ControlerButton::L => true,
            _ => false,
        }
    }

    #[verifier::when_used_as_spec(spec_mask)]
    pub fn mask(self) -> (mask: u8)
        ensures
            mask == self.spec_mask(),
    {
        match self {
            ControlerButton::A => 0x01,
            ControlerButton::B => 0x01,
            ControlerButton::X => 0x02,
            ControlerButton::Y => 0x02,
            ControlerButton::Up => 0x10,
            ControlerButton::Down => 0x20,
            ControlerButton::Left => 0x40,
            ControlerButton::Right => 0x80,
            ControlerButton::R => 0x08,
            ControlerButton::L => 0x04,
            ControlerButton::Start => 0x08,
            ControlerButton::Select => 0x04,
        }
    }
}

/// The game controller port: two bytes of button bits, read in turn.
#[derive(Debug, Clone, Copy, PartialEq, Eq, Structural)]
pub struct Controler {
    pub low: u8,
    pub high: u8,
    /// Whether the next read returns the high byte.
    pub state: bool,
}

impl Controler {
    pub open spec fn spec_new() -> Controler {
        Controler { low: 0, high: 0, state: false }
    }

    /// A controller with no button held.
    pub fn new() -> (c: Self)
        ensures
            c == Self::spec_new(),
    {
        Controler { low: 0, high: 0, state: false }
    }

    pub open spec fn spec_button_down(self, button: ControlerButton) -> Controler {
        if button.spec_in_high() {
            Controler { high: self.high | button.spec_mask(), ..self }
        } else {
            Controler { low: self.low | button.spec_mask(), ..self }
        }
    }

    pub open spec fn spec_button_up(self, button: ControlerButton) -> Controler {
        if button.spec_in_high() {
            Controler { high: self.high & !button.spec_mask(), ..self }
        } else {
            Controler { low: self.low & !button.spec_mask(), ..self }
        }
    }

    /// Whether `button` is held.
    pub open spec fn held(self, button: ControlerButton) -> bool {
        if button.spec_in_high() {
            self.high & button.spec_mask() != 0
        } else {
            self.low & button.spec_mask() != 0
        }
    }

    /// The host reports that `button` went down.
    pub fn host_button_down(&mut self, button: ControlerButton)
        ensures
            *final(self) == old(self).spec_button_down(button),
    {
        if button.in_high() {
            self.high = self.high | button.mask();
        } else {
            self.low = self.low | button.mask();
        }
    }

    /// The host reports that `button` went up.
    pub fn host_button_up(&mut self, button: ControlerButton)
        ensures
            *final(self) == old(self).spec_button_up(button),
    {
        if button.in_high() {
            self.high = self.high & !button.mask();
        } else {
            self.low = self.low & !button.mask();
        }
    }

    /// The byte a CPU read returns: the low byte and the high byte in turn,
    /// the high byte marked by bit 7.
    pub open spec fn data(self) -> u8 {
        if self.state {
            self.high | 0x80
        } else {
            self.low
        }
    }

    pub open spec fn after_read(self) -> Controler {
        Controler { state: !self.state, ..self }
    }

    /// Reads the port and flips to the other byte.
    pub fn read_data(&mut self) -> (value: u8)
        ensures
            value == old(self).data(),
            *final(self) == old(self).after_read(),
    {
        let result = if self.state {
            self.high | 0x80
        } else {
            self.low
        };
        self.state = !self.state;
        result
    }
}

/// A button is held after it went down and released after it went up, and
/// neither event touches another button.
pub proof fn lemma_button_events(c: Controler, button: ControlerButton, other: ControlerButton)
    ensures
        c.spec_button_down(button).held(button),
        !c.spec_button_up(button).held(button),
        other != button ==> c.spec_button_down(button).held(other) == c.held(other),
        other != button ==> c.spec_button_up(button).held(other) == c.held(other),
{
    let m = button.spec_mask();
    let o = other.spec_mask();
    let l = c.low;
    let h = c.high;
    assert((l | m) & m != 0 && (h | m) & m != 0 && (l & !m) & m == 0 && (h & !m) & m == 0)
        by (bit_vector)
        requires
            m == 1 || m == 2 || m == 4 || m == 8 || m == 0x10 || m == 0x20 || m == 0x40 || m
                == 0x80,
    ;
    if other != button && other.spec_in_high() == button.spec_in_high() {
        assert(m != o);
        assert(((l | m) & o) == (l & o) && ((h | m) & o) == (h & o) && ((l & !m) & o) == (l & o)
            && ((h & !m) & o) == (h & o)) by (bit_vector)
            requires
                m != o,
                m == 1 || m == 2 || m == 4 || m == 8 || m == 0x10 || m == 0x20 || m == 0x40 || m
                    == 0x80,
                o == 1 || o == 2 || o == 4 || o == 8 || o == 0x10 || o == 0x20 || o == 0x40 || o
                    == 0x80,
        ;
    }
}

/// A CPU write into the framebuffer hides the new byte from the VGA for the
/// rest of the cycle: the VGA reads what it read last, at any address.
pub proof fn lemma_framebuffer_contention(m: MemoryModel, addr: u16, value: u8, read_addr: u16)
    requires
        in_framebuffer(addr),
    ensures
        m.write(addr, value).framebuffer_value(read_addr) == m.last_framebuffer_data,
        m.write(addr, value).after_framebuffer_read(read_addr).last_framebuffer_data
            == m.last_framebuffer_data,
{
}

/// The same holds of tile data and of the palette.
pub proof fn lemma_tile_and_palette_contention(
    m: MemoryModel,
    addr: u16,
    value: u8,
    read_addr: u16,
    index: u8,
)
    ensures
        in_tile_data(addr) ==> m.write(addr, value).tile_data_value(read_addr) == m.last_tile_data,
        in_palette(addr) ==> m.write(addr, value).palette_value(index) == m.last_palette_data,
{
}

/// Once the conflict latches are reset, the VGA sees what the CPU wrote.
pub proof fn lemma_write_visible_after_reset(m: MemoryModel, addr: u16, value: u8)
    requires
        m.wf(),
        in_framebuffer(addr),
    ensures
        m.write(addr, value).after_conflict_reset().framebuffer_value(
            (addr - FRAMEBUFFER_START) as u16,
        ) == value,
{
}

} // verus!
