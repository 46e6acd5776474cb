//! The memory bus: routes the 16-bit address space to the cartridge, the
//! video memory, the work RAM, the I/O registers and the high RAM.
use crate::gpu::GPUMode;
use crate::gpu::GpuView;
use crate::gpu::GPU;
use crate::input::build_input;
use crate::input::p14_of;
use crate::input::p15_of;
use crate::input::GameboyButton;
use crate::input::GameboyInput;
use crate::io;
use crate::io::IORegisters;
use crate::rom::GameROM;
use crate::rom::RomView;
use crate::sound::Sound;
use crate::sound::SoundView;
use vstd::prelude::*;

verus! {

/// The size of the work RAM.
pub const RAM_SIZE: usize = 8192;

/// The size of the high RAM; the byte after it is the interrupt enable
/// register.
pub const HIGH_RAM_SIZE: usize = 127;

/// The most bytes that the record of the serial port keeps.
pub const SERIAL_CAPACITY: usize = 4096;

/// The memory bus and all that hangs on it, as the contracts see it.
pub struct MemView {
    pub rom: RomView,
    pub ram: Seq<u8>,
    pub high_ram: Seq<u8>,
    pub gpu: GpuView,
    pub sound: SoundView,
    /// A hint that an interrupt was raised since power-on.
    pub dirty_interrupts: bool,
    /// The interrupt enable register at 0xFFFF.
    pub interrupt_reg: u8,
    pub ioregs: IORegisters,
    pub buttons: GameboyInput,
    /// The bytes that were sent over the serial port.
    pub serial: Seq<u8>,
}

impl MemView {
    /// Whether the bus is as it is at power-on around the cartridge `rom`:
    /// the RAM cleared, the registers at their power-on values, no button
    /// held and nothing sent.
    pub open spec fn is_power_on(self, rom: RomView) -> bool {
        &&& self.rom == rom
        &&& self.ram == Seq::new(RAM_SIZE as nat, |i: int| 0u8)
        &&& self.high_ram == Seq::new(HIGH_RAM_SIZE as nat, |i: int| 0u8)
        &&& self.gpu == GpuView::power_on()
        &&& self.sound == SoundView::power_on()
        &&& !self.dirty_interrupts
        &&& self.interrupt_reg == 0
        &&& self.ioregs.is_power_on()
        &&& self.buttons == (GameboyInput { p14: 0, p15: 0 })
        &&& self.serial == Seq::<u8>::empty()
    }

    /// What holds of every bus: its parts are well formed, its memories have
    /// their sizes, and the picture processor is on schedule.
    pub open spec fn wf(self) -> bool {
        &&& self.rom.wf()
        &&& self.ram.len() == RAM_SIZE
        &&& self.high_ram.len() == HIGH_RAM_SIZE
        &&& self.gpu.wf()
        &&& self.gpu.on_schedule()
        &&& self.sound.wf()
        &&& self.serial.len() <= SERIAL_CAPACITY
    }

    /// Whether the processor can reach the video memory: not while the
    /// picture processor reads it.
    pub open spec fn vram_open(self) -> bool {
        self.gpu.mode != GPUMode::VramScanline
    }

    /// Whether the processor can reach the sprite table: only during the
    /// blanking periods.
    pub open spec fn oam_open(self) -> bool {
        self.gpu.mode == GPUMode::Vblank || self.gpu.mode == GPUMode::Hblank
    }

    /// The byte that a read of `ptr` gives.
    pub open spec fn read(self, ptr: u16) -> u8 {
        if ptr == 0xFFFF {
            self.interrupt_reg
        } else if ptr >= 0xFF80 {
            self.high_ram[ptr - 0xFF80]
        } else if ptr >= 0xFF00 {
            self.io_read((ptr - 0xFF00) as u8)
        } else if ptr >= 0xFEA0 {
            0x00
        } else if ptr >= 0xFE00 {
            if self.oam_open() {
                self.gpu.oam[ptr - 0xFE00]
            } else {
                0xFF
            }
        } else if ptr >= 0xE000 {
            self.ram[ptr - 0xE000]
        } else if ptr >= 0xC000 {
            self.ram[ptr - 0xC000]
        } else if ptr >= 0xA000 {
            self.rom.read_ram((ptr - 0xA000) as u16)
        } else if ptr >= 0x8000 {
            if self.vram_open() {
                self.gpu.vram[ptr - 0x8000]
            } else {
                0xFF
            }
        } else {
            self.rom.read(ptr)
        }
    }

    /// The bus after a write to the sprite table, which is dropped while
    /// the table is closed.
    pub open spec fn oam_stored(self, index: int, val: u8) -> MemView {
        if self.oam_open() {
            MemView { gpu: GpuView { oam: self.gpu.oam.update(index, val), ..self.gpu }, ..self }
        } else {
            self
        }
    }

    /// The bus after `val` was written to `ptr`.
    pub open spec fn write(self, ptr: u16, val: u8) -> MemView {
        if ptr == 0xFFFF {
            MemView { interrupt_reg: val, ..self }
        } else if ptr >= 0xFF80 {
            MemView { high_ram: self.high_ram.update(ptr - 0xFF80, val), ..self }
        } else if ptr >= 0xFF00 {
            self.io_write((ptr - 0xFF00) as u8, val)
        } else if ptr >= 0xFEA0 {
            self
        } else if ptr >= 0xFE00 {
            self.oam_stored(ptr - 0xFE00, val)
        } else if ptr >= 0xE000 {
            MemView { ram: self.ram.update(ptr - 0xE000, val), ..self }
        } else if ptr >= 0xC000 {
            MemView { ram: self.ram.update(ptr - 0xC000, val), ..self }
        } else if ptr >= 0xA000 {
            MemView { rom: self.rom.write_ram((ptr - 0xA000) as u16, val), ..self }
        } else if ptr >= 0x8000 {
            if self.vram_open() {
                MemView {
                    gpu: GpuView { vram: self.gpu.vram.update(ptr - 0x8000, val), ..self.gpu },
                    ..self
                }
            } else {
                self
            }
        } else {
            MemView { rom: self.rom.write(ptr, val), ..self }
        }
    }

    /// The address that follows `ptr`; the address space wraps around.
    pub open spec fn next(ptr: u16) -> u16 {
        if ptr == 0xFFFF {
            0
        } else {
            (ptr + 1) as u16
        }
    }

    /// The 16-bit value at `ptr`, low byte first.
    pub open spec fn read_short(self, ptr: u16) -> u16 {
        crate::cpu::regs::pair(self.read(Self::next(ptr)), self.read(ptr))
    }

    /// The bus after the 16-bit value `val` was written to `ptr`, low byte
    /// first.
    pub open spec fn write_short(self, ptr: u16, val: u16) -> MemView {
        self.write(ptr, crate::cpu::regs::low_byte(val)).write(
            Self::next(ptr),
            crate::cpu::regs::high_byte(val),
        )
    }
}

pub struct GBMemory {
    pub rom: GameROM,
    pub ram: Vec<u8>,
    pub high_ram: Vec<u8>,
    pub gpu: GPU,
    pub sound: Sound,
    pub dirty_interrupts: bool,
    pub interrupt_reg: u8,
    pub ioregs: IORegisters,
    pub buttons: GameboyInput,
    pub serial: Vec<u8>,
}

impl View for GBMemory {
    type V = MemView;

    open spec fn view(&self) -> MemView {
        MemView {
            rom: self.rom@,
            ram: self.ram@,
            high_ram: self.high_ram@,
            gpu: self.gpu@,
            sound: self.sound@,
            dirty_interrupts: self.dirty_interrupts,
            interrupt_reg: self.interrupt_reg,
            ioregs: self.ioregs,
            buttons: self.buttons,
            serial: self.serial@,
        }
    }
}

impl GBMemory {
    /// What holds of every bus: its parts are well formed, its memories have
    /// their sizes, and the picture processor is on schedule.
    pub open spec fn wf(&self) -> bool {
        &&& self@.wf()
        &&& self.rom.wf()
    }

    /// Whether the bus and all that hangs on it are well formed.
    pub fn is_valid(&self) -> (valid: bool)
        ensures
            valid == self.wf(),
    {
        self.rom.is_valid() && self.ram.len() == RAM_SIZE && self.high_ram.len() == HIGH_RAM_SIZE
            && self.gpu.is_valid() && self.gpu.is_on_schedule() && self.sound.is_valid()
            && self.serial.len() <= SERIAL_CAPACITY
    }

    /// Reads a value from memory.
    pub fn read(&self, ptr: u16) -> (val: u8)
        requires
            self.wf(),
        ensures
            val == self@.read(ptr),
    {
        match ptr {
            0xFFFF => self.interrupt_reg,
            0xFF80..=0xFFFE => self.high_ram[(ptr - 0xFF80) as usize],
            0xFF00..=0xFF7F => io::read(self, (ptr - 0xFF00) as u8),
            0xFEA0..=0xFEFF => 0x00,
            0xFE00..=0xFE9F => {
                match self.gpu.mode {
                    GPUMode::Vblank | GPUMode::Hblank => self.gpu.oam[(ptr - 0xFE00) as usize],
                    _ => 0xFF,
                }
            },
            0xE000..=0xFDFF => self.ram[(ptr - 0xE000) as usize],
            0xC000..=0xDFFF => self.ram[(ptr - 0xC000) as usize],
            0xA000..=0xBFFF => self.rom.read_ram(ptr - 0xA000),
            0x8000..=0x9FFF => {
                match self.gpu.mode {
                    GPUMode::Vblank | GPUMode::Hblank | GPUMode::OamScanline => self.gpu.vram[(ptr
                        - 0x8000) as usize],
                    _ => 0xFF,
                }
            },
            0x0000..=0x7FFF => self.rom.read(ptr),
        }
    }

    /// Writes a value to a memory location if possible.
    pub fn write(&mut self, ptr: u16, val: u8)
        requires
            old(self).wf(),
        ensures
            final(self).wf(),
            final(self)@ == old(self)@.write(ptr, val),
    {
        match ptr {
            0xFFFF => {
                self.interrupt_reg = val;
            },
            0xFF80..=0xFFFE => {
                self.high_ram[(ptr - 0xFF80) as usize] = val;
            },
            0xFF00..=0xFF7F => {
                io::write(self, (ptr - 0xFF00) as u8, val);
            },
            0xFEA0..=0xFEFF => {},
            0xFE00..=0xFE9F => {
                self.store_oam((ptr - 0xFE00) as usize, val);
            },
            0xE000..=0xFDFF => {
                self.ram[(ptr - 0xE000) as usize] = val;
            },
            0xC000..=0xDFFF => {
                self.ram[(ptr - 0xC000) as usize] = val;
            },
            0xA000..=0xBFFF => {
                self.rom.write_ram(ptr - 0xA000, val);
            },
            0x8000..=0x9FFF => {
                match self.gpu.mode {
                    GPUMode::Vblank | GPUMode::Hblank | GPUMode::OamScanline => {
                        self.gpu.vram[(ptr - 0x8000) as usize] = val;
                    },
                    _ => {},
                };
            },
            0x0000..=0x7FFF => {
                self.rom.write(ptr, val);
            },
        }
    }

    /// Writes a value to the sprite table, unless the table is closed.
    pub fn store_oam(&mut self, index: usize, val: u8)
        requires
            old(self).wf(),
            index < 160,
        ensures
            final(self).wf(),
            final(self)@ == old(self)@.oam_stored(index as int, val),
    {
        match self.gpu.mode {
            GPUMode::Vblank | GPUMode::Hblank => {
                self.gpu.oam[index] = val;
            },
            _ => {},
        };
    }

    /// Reads a 16-bit value, low byte first.
    pub fn read_short(&self, ptr: u16) -> (val: u16)
        requires
            self.wf(),
        ensures
            val == self@.read_short(ptr),
    {
        let low: u8 = self.read(ptr);
        let high: u8 = self.read(ptr.wrapping_add(1));
        proof {
            crate::cpu::regs::lemma_pair_bits(high, low);
        }
        ((high as u16) << 8) | (low as u16)
    }

    /// Writes a 16-bit value, low byte first.
    pub fn write_short(&mut self, ptr: u16, val: u16)
        requires
            old(self).wf(),
        ensures
            final(self).wf(),
            final(self)@ == old(self)@.write_short(ptr, val),
    {
        proof {
            crate::cpu::regs::lemma_split_bits(val);
        }
        self.write(ptr, (val & 0xFF) as u8);
        self.write(ptr.wrapping_add(1), ((val >> 8) & 0xFF) as u8);
    }

    /// Sets the buttons that are held down.
    pub fn set_input(&mut self, input: &[GameboyButton])
        ensures
            final(self)@ == (MemView {
                buttons: GameboyInput { p14: p14_of(input@), p15: p15_of(input@) },
                ..old(self)@
            }),
            final(self).rom == old(self).rom,
    {
        self.buttons = build_input(input);
    }

    /// Builds the memory bus around a cartridge. Everything but the
    /// cartridge is as it is at power-on.
    pub fn build(rom: GameROM) -> (mem: GBMemory)
        requires
            rom.wf(),
        ensures
            mem.wf(),
            mem.rom == rom,
            mem@.is_power_on(rom@),
    {
        let mem = GBMemory {
            rom,
            ram: vec![0u8; RAM_SIZE],
            high_ram: vec![0u8; HIGH_RAM_SIZE],
            gpu: GPU::build(),
            sound: Sound::build(),
            dirty_interrupts: false,
            interrupt_reg: 0,
            ioregs: IORegisters::build(),
            buttons: GameboyInput { p14: 0, p15: 0 },
            serial: Vec::new(),
        };
        proof {
            assert(mem@.ram =~= Seq::new(RAM_SIZE as nat, |i: int| 0u8));
            assert(mem@.high_ram =~= Seq::new(HIGH_RAM_SIZE as nat, |i: int| 0u8));
            GPU::lemma_power_on();
        }
        mem
    }
}

/// While the picture processor scans the video memory, reads of the video
/// memory and of the sprite table give 0xFF and writes to them are dropped;
/// while it scans the sprite table, this holds of the sprite table.
pub proof fn lemma_closed_memory(mem: MemView, ptr: u16, val: u8)
    requires
        mem.gpu.mode == GPUMode::VramScanline || (mem.gpu.mode == GPUMode::OamScanline && 0xFE00
            <= ptr),
        0x8000 <= ptr <= 0x9FFF || 0xFE00 <= ptr <= 0xFE9F,
    ensures
        mem.read(ptr) == 0xFF,
        mem.write(ptr, val) == mem,
{
}

} // verus!
