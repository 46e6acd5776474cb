//! The I/O registers at 0xFF00 to 0xFF7F.
use crate::bits::bit;
use crate::bits::test_bit;
use crate::cpu::regs::high_byte;
use crate::gpu::GPUMode;
use crate::gpu::GpuView;
use crate::mem::GBMemory;
use crate::mem::MemView;
use crate::mem::SERIAL_CAPACITY;
use vstd::array::spec_array_update;
use vstd::prelude::*;

verus! {

/// Storage for the I/O registers that are not kept by the component that
/// they control.
#[derive(Debug, Clone, Copy)]
pub struct IORegisters {
    /// 0x00 - Joypad select lines
    pub p1: u8,
    /// 0x01 - Serial transfer data
    pub sb: u8,
    /// 0x04 - Divider; the register shows its high byte
    pub div: u16,
    /// 0x05 - Timer counter
    pub tima: u8,
    /// 0x06 - Timer modulo
    pub tma: u8,
    /// 0x07 - Timer control
    pub tac: u8,
    /// 0x0F - Interrupt flags
    pub iflag: u8,
    /// 0x10 - Channel 1 sweep
    pub nr10: u8,
    /// 0x11 - Channel 1 sound length and wave duty
    pub nr11: u8,
    /// 0x12 - Channel 1 volume envelope
    pub nr12: u8,
    /// 0x13 - Channel 1 frequency, low byte
    pub nr13: u8,
    /// 0x14 - Channel 1 frequency, high bits
    pub nr14: u8,
    /// 0x16 - Channel 2 sound length and wave duty
    pub nr21: u8,
    /// 0x17 - Channel 2 volume envelope
    pub nr22: u8,
    /// 0x18 - Channel 2 frequency, low byte
    pub nr23: u8,
    /// 0x19 - Channel 2 frequency, high bits
    pub nr24: u8,
    /// 0x1A - Channel 3 on or off
    pub nr30: u8,
    /// 0x1B - Channel 3 sound length
    pub nr31: u8,
    /// 0x1C - Channel 3 output level
    pub nr32: u8,
    /// 0x1D - Channel 3 frequency, low byte
    pub nr33: u8,
    /// 0x1E - Channel 3 frequency, high bits
    pub nr34: u8,
    /// 0x20 - Channel 4 sound length
    pub nr41: u8,
    /// 0x21 - Channel 4 volume envelope
    pub nr42: u8,
    /// 0x22 - Channel 4 polynomial counter
    pub nr43: u8,
    /// 0x23 - Channel 4 counter
    pub nr44: u8,
    /// 0x24 - Channel control and volume
    pub nr50: u8,
    /// 0x25 - Selection of the sound output terminals
    pub nr51: u8,
    /// 0x26 - Sound on or off
    pub nr52: u8,
    /// 0x30 to 0x3F - Wave pattern RAM
    pub wave: [u8; 16],
    /// 0x46 - DMA transfer start address
    pub dma: u8,
}

impl IORegisters {
    /// Whether the registers are as they are at power-on.
    pub open spec fn is_power_on(self) -> bool {
        &&& self.p1 == 0
        &&& self.sb == 0
        &&& self.div == 0xABCC
        &&& self.tima == 0
        &&& self.tma == 0
        &&& self.tac == 0xF8
        &&& self.nr10 == 0x80
        &&& self.nr11 == 0xBF
        &&& self.nr12 == 0xF3
        &&& self.nr13 == 0
        &&& self.nr14 == 0xBF
        &&& self.nr21 == 0x3F
        &&& self.nr22 == 0x00
        &&& self.nr23 == 0
        &&& self.nr24 == 0xBF
        &&& self.nr30 == 0x7F
        &&& self.nr31 == 0xFF
        &&& self.nr32 == 0x9F
        &&& self.nr33 == 0
        &&& self.nr34 == 0
        &&& self.nr41 == 0xFF
        &&& self.nr42 == 0x00
        &&& self.nr43 == 0x00
        &&& self.nr44 == 0
        &&& self.nr50 == 0x77
        &&& self.nr51 == 0xF3
        &&& self.nr52 == 0xF1
        &&& self.wave@ == Seq::new(16, |i: int| 0u8)
        &&& self.iflag == 0
        &&& self.dma == 0
    }

    pub fn build() -> (regs: IORegisters)
        ensures
            regs.is_power_on(),
    {
        let regs = IORegisters {
            p1: 0,
            sb: 0,
            div: 0xABCC,
            tima: 0,
            tma: 0,
            tac: 0xF8,
            nr10: 0x80,
            nr11: 0xBF,
            nr12: 0xF3,
            nr13: 0,
            nr14: 0xBF,
            nr21: 0x3F,
            nr22: 0x00,
            nr23: 0,
            nr24: 0xBF,
            nr30: 0x7F,
            nr31: 0xFF,
            nr32: 0x9F,
            nr33: 0,
            nr34: 0,
            nr41: 0xFF,
            nr42: 0x00,
            nr43: 0x00,
            nr44: 0,
            nr50: 0x77,
            nr51: 0xF3,
            nr52: 0xF1,
            wave: [0u8; 16],
            iflag: 0,
            dma: 0,
        };
        proof {
            assert(regs.wave@ =~= Seq::new(16, |i: int| 0u8));
        }
        regs
    }
}

/// What a read of the joypad register gives. Bits 5 and 4 show the select
/// lines. The low four bits show the buttons of the selected lines, where a
/// held button reads as 0.
pub open spec fn joypad_byte(p1: u8, p14: u8, p15: u8) -> u8 {
    ((!((if bit(p1, 5) {
        p14
    } else {
        0
    }) | (if bit(p1, 4) {
        p15
    } else {
        0
    }))) & 0b1111) | (if bit(p1, 5) {
        0x20u8
    } else {
        0
    }) | (if bit(p1, 4) {
        0x10u8
    } else {
        0
    })
}

/// What a read of the status register of the picture processor gives: the
/// interrupt enables that were written, the mode in bits 0 and 1, bit 2 set
/// while the line is the one that LYC asks for, and bit 7 set. While the
/// screen is disabled only bit 7 is set.
pub open spec fn stat_byte(gpu: GpuView) -> u8 {
    if !gpu.is_enabled() {
        0x80
    } else {
        (gpu.stat & 0b1111000) | gpu.mode.number() | (if gpu.lyc == gpu.current_line {
            0x04u8
        } else {
            0
        }) | 0x80
    }
}

impl MemView {
    /// The byte that a read of the I/O register `ptr` gives: 0xFF for a
    /// register that cannot be read or that does not exist.
    pub open spec fn io_read(self, ptr: u8) -> u8 {
        if ptr == 0x00 {
            joypad_byte(self.ioregs.p1, self.buttons.p14, self.buttons.p15)
        } else if ptr == 0x04 {
            high_byte(self.ioregs.div)
        } else if ptr == 0x0F {
            self.ioregs.iflag | 0xE0
        } else if 0x30 <= ptr <= 0x3F {
            self.ioregs.wave[ptr - 0x30]
        } else if ptr == 0x41 {
            stat_byte(self.gpu)
        } else if ptr == 0x01 {
            self.ioregs.sb
        } else if ptr == 0x05 {
            self.ioregs.tima
        } else if ptr == 0x06 {
            self.ioregs.tma
        } else if ptr == 0x07 {
            self.ioregs.tac
        } else if ptr == 0x10 {
            self.ioregs.nr10
        } else if ptr == 0x11 {
            self.ioregs.nr11
        } else if ptr == 0x12 {
            self.ioregs.nr12
        } else if ptr == 0x14 {
            self.ioregs.nr14
        } else if ptr == 0x16 {
            self.ioregs.nr21
        } else if ptr == 0x17 {
            self.ioregs.nr22
        } else if ptr == 0x19 {
            self.ioregs.nr24
        } else if ptr == 0x1A {
            self.ioregs.nr30
        } else if ptr == 0x1B {
            self.ioregs.nr31
        } else if ptr == 0x1C {
            self.ioregs.nr32
        } else if ptr == 0x1E {
            self.ioregs.nr34
        } else if ptr == 0x20 {
            self.ioregs.nr41
        } else if ptr == 0x21 {
            self.ioregs.nr42
        } else if ptr == 0x22 {
            self.ioregs.nr43
        } else if ptr == 0x23 {
            self.ioregs.nr44
        } else if ptr == 0x24 {
            self.ioregs.nr50
        } else if ptr == 0x25 {
            self.ioregs.nr51
        } else if ptr == 0x26 {
            self.ioregs.nr52
        } else if ptr == 0x40 {
            self.gpu.lcdc
        } else if ptr == 0x42 {
            self.gpu.scy
        } else if ptr == 0x43 {
            self.gpu.scx
        } else if ptr == 0x44 {
            self.gpu.current_line
        } else if ptr == 0x45 {
            self.gpu.lyc
        } else if ptr == 0x47 {
            self.gpu.bgp
        } else if ptr == 0x48 {
            self.gpu.obp0
        } else if ptr == 0x49 {
            self.gpu.obp1
        } else if ptr == 0x4A {
            self.gpu.wy
        } else if ptr == 0x4B {
            self.gpu.wx
        } else {
            0xFF
        }
    }

    /// The bus after a write to the control register of the picture
    /// processor. Switching the screen off puts the line to 0. Switching it
    /// on starts a horizontal blank, and raises the LCDC interrupt if the
    /// line is the one that LYC asks for and STAT enables that.
    pub open spec fn lcdc_written(self, val: u8) -> MemView {
        if bit(self.gpu.lcdc, 7) == bit(val, 7) {
            MemView { gpu: GpuView { lcdc: val, ..self.gpu }, ..self }
        } else if !bit(val, 7) {
            MemView { gpu: GpuView { lcdc: val, current_line: 0, ..self.gpu }, ..self }
        } else if self.gpu.lyc_hit() {
            MemView {
                gpu: GpuView { lcdc: val, mode: GPUMode::Hblank, internal_clock: 0, ..self.gpu },
                ioregs: IORegisters { iflag: self.ioregs.iflag | 0x02, ..self.ioregs },
                dirty_interrupts: true,
                ..self
            }
        } else {
            MemView {
                gpu: GpuView { lcdc: val, mode: GPUMode::Hblank, internal_clock: 0, ..self.gpu },
                ..self
            }
        }
    }

    /// The bus after the first `count` bytes from `base` on were copied to
    /// the sprite table, one after the other, as the bus reads and stores
    /// them.
    pub open spec fn dma_copied(self, base: u16, count: int) -> MemView
        decreases count,
    {
        if count <= 0 {
            self
        } else {
            self.dma_copied(base, count - 1).oam_stored(
                count - 1,
                self.dma_copied(base, count - 1).read((base + count - 1) as u16),
            )
        }
    }

    /// The bus after a write to the serial control register: a write with
    /// bit 7 set sends the byte in SB, which is recorded while the record
    /// has room.
    pub open spec fn serial_written(self, val: u8) -> MemView {
        if bit(val, 7) && self.serial.len() < SERIAL_CAPACITY {
            MemView { serial: self.serial.push(self.ioregs.sb), ..self }
        } else {
            self
        }
    }

    /// The bus after `val` was written to the I/O register `ptr`.
    pub open spec fn io_write(self, ptr: u8, val: u8) -> MemView {
        if ptr == 0x02 {
            self.serial_written(val)
        } else if ptr == 0x04 {
            MemView { ioregs: IORegisters { div: 0, ..self.ioregs }, ..self }
        } else if ptr == 0x07 {
            MemView { ioregs: IORegisters { tac: val & 0b111, ..self.ioregs }, ..self }
        } else if ptr == 0x0F {
            MemView {
                ioregs: IORegisters { iflag: val, ..self.ioregs },
                dirty_interrupts: true,
                ..self
            }
        } else if 0x30 <= ptr <= 0x3F {
            MemView {
                ioregs: IORegisters {
                    wave: spec_array_update(self.ioregs.wave, ptr - 0x30, val),
                    ..self.ioregs
                },
                ..self
            }
        } else if ptr == 0x40 {
            self.lcdc_written(val)
        } else if ptr == 0x46 {
            (MemView { ioregs: IORegisters { dma: val, ..self.ioregs }, ..self }).dma_copied(
                (val * 0x100) as u16,
                0xA0,
            )
        } else if ptr == 0x00 {
            MemView { ioregs: IORegisters { p1: val, ..self.ioregs }, ..self }
        } else if ptr == 0x01 {
            MemView { ioregs: IORegisters { sb: val, ..self.ioregs }, ..self }
        } else if ptr == 0x05 {
            MemView { ioregs: IORegisters { tima: val, ..self.ioregs }, ..self }
        } else if ptr == 0x06 {
            MemView { ioregs: IORegisters { tma: val, ..self.ioregs }, ..self }
        } else if ptr == 0x10 {
            MemView { ioregs: IORegisters { nr10: val, ..self.ioregs }, ..self }
        } else if ptr == 0x11 {
            MemView { ioregs: IORegisters { nr11: val, ..self.ioregs }, ..self }
        } else if ptr == 0x12 {
            MemView { ioregs: IORegisters { nr12: val, ..self.ioregs }, ..self }
        } else if ptr == 0x13 {
            MemView { ioregs: IORegisters { nr13: val, ..self.ioregs }, ..self }
        } else if ptr == 0x14 {
            MemView { ioregs: IORegisters { nr14: val, ..self.ioregs }, ..self }
        } else if ptr == 0x16 {
            MemView { ioregs: IORegisters { nr21: val, ..self.ioregs }, ..self }
        } else if ptr == 0x17 {
            MemView { ioregs: IORegisters { nr22: val, ..self.ioregs }, ..self }
        } else if ptr == 0x18 {
            MemView { ioregs: IORegisters { nr23: val, ..self.ioregs }, ..self }
        } else if ptr == 0x19 {
            MemView { ioregs: IORegisters { nr24: val, ..self.ioregs }, ..self }
        } else if ptr == 0x1A {
            MemView { ioregs: IORegisters { nr30: val, ..self.ioregs }, ..self }
        } else if ptr == 0x1B {
            MemView { ioregs: IORegisters { nr31: val, ..self.ioregs }, ..self }
        } else if ptr == 0x1C {
            MemView { ioregs: IORegisters { nr32: val, ..self.ioregs }, ..self }
        } else if ptr == 0x1D {
            MemView { ioregs: IORegisters { nr33: val, ..self.ioregs }, ..self }
        } else if ptr == 0x1E {
            MemView { ioregs: IORegisters { nr34: val, ..self.ioregs }, ..self }
        } else if ptr == 0x20 {
            MemView { ioregs: IORegisters { nr41: val, ..self.ioregs }, ..self }
        } else if ptr == 0x21 {
            MemView { ioregs: IORegisters { nr42: val, ..self.ioregs }, ..self }
        } else if ptr == 0x22 {
            MemView { ioregs: IORegisters { nr43: val, ..self.ioregs }, ..self }
        } else if ptr == 0x23 {
            MemView { ioregs: IORegisters { nr44: val, ..self.ioregs }, ..self }
        } else if ptr == 0x24 {
            MemView { ioregs: IORegisters { nr50: val, ..self.ioregs }, ..self }
        } else if ptr == 0x25 {
            MemView { ioregs: IORegisters { nr51: val, ..self.ioregs }, ..self }
        } else if ptr == 0x26 {
            MemView { ioregs: IORegisters { nr52: val, ..self.ioregs }, ..self }
        } else if ptr == 0x41 {
            MemView { gpu: GpuView { stat: val, ..self.gpu }, ..self }
        } else if ptr == 0x42 {
            MemView { gpu: GpuView { scy: val, ..self.gpu }, ..self }
        } else if ptr == 0x43 {
            MemView { gpu: GpuView { scx: val, ..self.gpu }, ..self }
        } else if ptr == 0x45 {
            MemView { gpu: GpuView { lyc: val, ..self.gpu }, ..self }
        } else if ptr == 0x47 {
            MemView { gpu: GpuView { bgp: val, ..self.gpu }, ..self }
        } else if ptr == 0x48 {
            MemView { gpu: GpuView { obp0: val, ..self.gpu }, ..self }
        } else if ptr == 0x49 {
            MemView { gpu: GpuView { obp1: val, ..self.gpu }, ..self }
        } else if ptr == 0x4A {
            MemView { gpu: GpuView { wy: val, ..self.gpu }, ..self }
        } else if ptr == 0x4B {
            MemView { gpu: GpuView { wx: val, ..self.gpu }, ..self }
        } else {
            self
        }
    }
}

/// Reads an I/O register.
pub fn read(mem: &GBMemory, ptr: u8) -> (val: u8)
    requires
        mem.wf(),
    ensures
        val == mem@.io_read(ptr),
{
    match ptr {
        0x00 => {
            let p14 = test_bit(mem.ioregs.p1, 5);
            let p15 = test_bit(mem.ioregs.p1, 4);
            let first: u8 = if p14 {
                mem.buttons.p14
            } else {
                0
            };
            let second: u8 = if p15 {
                mem.buttons.p15
            } else {
                0
            };
            ((!(first | second)) & 0b1111) | (if p14 {
                0x20u8
            } else {
                0
            }) | (if p15 {
                0x10u8
            } else {
                0
            })
        },
        0x04 => (mem.ioregs.div / 256) as u8,
        0x0F => mem.ioregs.iflag | 0xE0,
        0x30..=0x3F => mem.ioregs.wave[(ptr - 0x30) as usize],
        0x41 => {
            if !mem.gpu.is_enabled() {
                0x80
            } else {
                (mem.gpu.stat & 0b1111000) | mem.gpu.mode.get_number() | (if mem.gpu.lyc
                    == mem.gpu.current_line {
                    0x04u8
                } else {
                    0
                }) | 0x80
            }
        },
        0x01 => mem.ioregs.sb,
        0x05 => mem.ioregs.tima,
        0x06 => mem.ioregs.tma,
        0x07 => mem.ioregs.tac,
        0x10 => mem.ioregs.nr10,
        0x11 => mem.ioregs.nr11,
        0x12 => mem.ioregs.nr12,
        0x14 => mem.ioregs.nr14,
        0x16 => mem.ioregs.nr21,
        0x17 => mem.ioregs.nr22,
        0x19 => mem.ioregs.nr24,
        0x1A => mem.ioregs.nr30,
        0x1B => mem.ioregs.nr31,
        0x1C => mem.ioregs.nr32,
        0x1E => mem.ioregs.nr34,
        0x20 => mem.ioregs.nr41,
        0x21 => mem.ioregs.nr42,
        0x22 => mem.ioregs.nr43,
        0x23 => mem.ioregs.nr44,
        0x24 => mem.ioregs.nr50,
        0x25 => mem.ioregs.nr51,
        0x26 => mem.ioregs.nr52,
        0x40 => mem.gpu.lcdc,
        0x42 => mem.gpu.scy,
        0x43 => mem.gpu.scx,
        0x44 => mem.gpu.current_line,
        0x45 => mem.gpu.lyc,
        0x47 => mem.gpu.bgp,
        0x48 => mem.gpu.obp0,
        0x49 => mem.gpu.obp1,
        0x4A => mem.gpu.wy,
        0x4B => mem.gpu.wx,
        _ => 0xFF,
    }
}

/// Writes to an I/O register.
pub fn write(mem: &mut GBMemory, ptr: u8, val: u8)
    requires
        old(mem).wf(),
    ensures
        final(mem).wf(),
        final(mem)@ == old(mem)@.io_write(ptr, val),
{
    match ptr {
        0x02 => {
            if test_bit(val, 7) && mem.serial.len() < SERIAL_CAPACITY {
                mem.serial.push(mem.ioregs.sb);
            }
        },
        0x04 => {
            mem.ioregs.div = 0;
        },
        0x07 => {
            mem.ioregs.tac = val & 0b111;
        },
        0x0F => {
            mem.ioregs.iflag = val;
            mem.dirty_interrupts = true;
        },
        0x30..=0x3F => {
            mem.ioregs.wave[(ptr - 0x30) as usize] = val;
        },
        0x40 => {
            write_lcdc(mem, val);
        },
        0x46 => {
            mem.ioregs.dma = val;
            execute_dma(mem);
        },
        0x00 => {
            mem.ioregs.p1 = val;
        },
        0x01 => {
            mem.ioregs.sb = val;
        },
        0x05 => {
            mem.ioregs.tima = val;
        },
        0x06 => {
            mem.ioregs.tma = val;
        },
        0x10 => {
            mem.ioregs.nr10 = val;
        },
        0x11 => {
            mem.ioregs.nr11 = val;
        },
        0x12 => {
            mem.ioregs.nr12 = val;
        },
        0x13 => {
            mem.ioregs.nr13 = val;
        },
        0x14 => {
            mem.ioregs.nr14 = val;
        },
        0x16 => {
            mem.ioregs.nr21 = val;
        },
        0x17 => {
            mem.ioregs.nr22 = val;
        },
        0x18 => {
            mem.ioregs.nr23 = val;
        },
        0x19 => {
            mem.ioregs.nr24 = val;
        },
        0x1A => {
            mem.ioregs.nr30 = val;
        },
        0x1B => {
            mem.ioregs.nr31 = val;
        },
        0x1C => {
            mem.ioregs.nr32 = val;
        },
        0x1D => {
            mem.ioregs.nr33 = val;
        },
        0x1E => {
            mem.ioregs.nr34 = val;
        },
        0x20 => {
            mem.ioregs.nr41 = val;
        },
        0x21 => {
            mem.ioregs.nr42 = val;
        },
        0x22 => {
            mem.ioregs.nr43 = val;
        },
        0x23 => {
            mem.ioregs.nr44 = val;
        },
        0x24 => {
            mem.ioregs.nr50 = val;
        },
        0x25 => {
            mem.ioregs.nr51 = val;
        },
        0x26 => {
            mem.ioregs.nr52 = val;
        },
        0x41 => {
            mem.gpu.stat = val;
        },
        0x42 => {
            mem.gpu.scy = val;
        },
        0x43 => {
            mem.gpu.scx = val;
        },
        0x45 => {
            mem.gpu.lyc = val;
        },
        0x47 => {
            mem.gpu.bgp = val;
        },
        0x48 => {
            mem.gpu.obp0 = val;
        },
        0x49 => {
            mem.gpu.obp1 = val;
        },
        0x4A => {
            mem.gpu.wy = val;
        },
        0x4B => {
            mem.gpu.wx = val;
        },
        _ => {},
    }
}

/// Writes to the control register of the picture processor.
fn write_lcdc(mem: &mut GBMemory, val: u8)
    requires
        old(mem).wf(),
    ensures
        final(mem).wf(),
        final(mem)@ == old(mem)@.lcdc_written(val),
{
    let old_bit = test_bit(mem.gpu.lcdc, 7);
    let changed_bit = test_bit(val, 7);
    if old_bit != changed_bit {
        if !changed_bit {
            mem.gpu.current_line = 0;
        } else {
            mem.gpu.mode = GPUMode::Hblank;
            mem.gpu.internal_clock = 0;
            if test_bit(mem.gpu.stat, 6) && mem.gpu.lyc == mem.gpu.current_line {
                mem.ioregs.iflag |= 0x02;
                mem.dirty_interrupts = true;
            }
        }
    }
    mem.gpu.lcdc = val;
}

/// Copies the 160 bytes from the page that the DMA register names to the
/// sprite table.
fn execute_dma(mem: &mut GBMemory)
    requires
        old(mem).wf(),
    ensures
        final(mem).wf(),
        final(mem)@ == old(mem)@.dma_copied((old(mem).ioregs.dma * 0x100) as u16, 0xA0),
{
    let ghost before = mem@;
    let address: u16 = (mem.ioregs.dma as u16) * 0x100;
    let mut i: u16 = 0;
    while i < 0xA0
        invariant
            i <= 0xA0,
            address == before.ioregs.dma * 0x100,
            mem.wf(),
            mem@ == before.dma_copied(address, i as int),
        decreases 0xA0 - i,
    {
        let byte = mem.read(address + i);
        mem.store_oam(i as usize, byte);
        i += 1;
    }
}

/// A write of any value to the divider register puts the divider to zero,
/// so that the register, which shows the divider's high byte, reads zero.
pub proof fn lemma_div_write_resets(mem: MemView, val: u8)
    ensures
        mem.write(0xFF04, val).ioregs.div == 0,
        mem.write(0xFF04, val).read(0xFF04) == 0,
{
}

} // verus!
