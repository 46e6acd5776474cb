//! The picture processor: video memory, the sprite table, the mode and
//! scanline state machine, and the rasterizer that draws one line at a time
//! into an RGB framebuffer.
use crate::bits::bit;
use crate::bits::lemma_masked_range;
use crate::bits::test_bit;
use crate::cpu::interrupts::InterruptType;
use vstd::prelude::*;

verus! {

/// Bytes per pixel of the framebuffer.
pub const PITCH: usize = 3;

pub const SCREEN_WIDTH: usize = 160;

pub const SCREEN_HEIGHT: usize = 144;

/// The size of the framebuffer in bytes.
pub const FRAME_BYTES: usize = 160 * 144 * 3;

pub const VRAM_SIZE: usize = 8192;

pub const OAM_SIZE: usize = 160;

/// The number of the last line of a frame; lines 144 to 153 are blank.
pub const LAST_LINE: u8 = 153;

/// The cycles that one line takes.
pub const LINE_CYCLES: u32 = 456;

/// The cycles that one frame of 154 lines takes.
pub const FRAME_CYCLES: u32 = 70224;

/// What the picture processor is doing.
#[derive(PartialEq, Eq, Structural, Debug, Clone, Copy)]
pub enum GPUMode {
    Hblank,
    Vblank,
    OamScanline,
    VramScanline,
}

impl GPUMode {
    /// The number of the mode as the status register shows it.
    pub open spec fn number(self) -> u8 {
        match self {
            GPUMode::Hblank => 0,
            GPUMode::Vblank => 1,
            GPUMode::OamScanline => 2,
            GPUMode::VramScanline => 3,
        }
    }

    /// The cycles after which the mode ends; in the vertical blank, the
    /// cycles after which the line does.
    pub open spec fn duration(self) -> u32 {
        match self {
            GPUMode::Hblank => 204,
            GPUMode::Vblank => 456,
            GPUMode::OamScanline => 80,
            GPUMode::VramScanline => 172,
        }
    }

    /// The cycles of a visible line that have passed when the mode begins.
    pub open spec fn start(self) -> int {
        match self {
            GPUMode::OamScanline => 0,
            GPUMode::VramScanline => 80,
            GPUMode::Hblank => 252,
            GPUMode::Vblank => 0,
        }
    }

    pub fn get_number(self) -> (number: u8)
        ensures
            number == self.number(),
    {
        match self {
            GPUMode::Hblank => 0,
            GPUMode::Vblank => 1,
            GPUMode::OamScanline => 2,
            GPUMode::VramScanline => 3,
        }
    }

    pub fn get_duration(self) -> (cycles: u32)
        ensures
            cycles == self.duration(),
    {
        match self {
            GPUMode::Hblank => 204,
            GPUMode::Vblank => 456,
            GPUMode::OamScanline => 80,
            GPUMode::VramScanline => 172,
        }
    }
}

/// The framebuffer `pixels` with the pixel at `pos` painted in the colour
/// that `palette` gives to `shade`.
pub open spec fn put_pixel(pixels: Seq<u8>, palette: Seq<u8>, pos: int, shade: u8) -> Seq<u8> {
    pixels.update(pos * 3, palette[shade * 3]).update(pos * 3 + 1, palette[shade * 3 + 1]).update(
        pos * 3 + 2,
        palette[shade * 3 + 2],
    )
}

/// Whether the pixel at `pos` has the colour of shade 0.
pub open spec fn is_blank(pixels: Seq<u8>, palette: Seq<u8>, pos: int) -> bool {
    pixels[pos * 3] == palette[0] && pixels[pos * 3 + 1] == palette[1] && pixels[pos * 3 + 2]
        == palette[2]
}

/// The framebuffer in which every pixel has the colour of shade 0.
pub open spec fn blank_frame(palette: Seq<u8>) -> Seq<u8> {
    Seq::new(FRAME_BYTES as nat, |i: int| palette[i % 3])
}

/// The 2-bit colour number of one pixel of a tile row. The row is the two
/// bytes at `row`; `column` counts the pixels from the left.
pub open spec fn color_index(vram: Seq<u8>, row: int, column: u8) -> u8 {
    (((vram[row] >> ((7 - column) as u8)) & 0x1) + ((vram[row + 1] >> ((7 - column) as u8)) & 0x1)
        * 2) as u8
}

/// The shade that a palette register gives to a colour number.
pub open spec fn shade_of(palette: u8, index: u8) -> u8 {
    (palette >> ((index * 2) as u8)) & 0b11
}

/// Where the rows of a tile begin in video memory. Tiles are numbered from
/// the start of video memory, or as signed numbers around 0x1000.
pub open spec fn tile_address(unsigned: bool, tile: u8) -> int {
    if unsigned {
        tile * 16
    } else if tile < 128 {
        0x1000 + tile * 16
    } else {
        0x1000 + (tile - 256) * 16
    }
}

/// A picture processor as the contracts see it.
pub struct GpuView {
    pub pixel_data: Seq<u8>,
    pub mode: GPUMode,
    pub palette: Seq<u8>,
    pub vram: Seq<u8>,
    pub oam: Seq<u8>,
    pub lcdc: u8,
    pub stat: u8,
    pub lyc: u8,
    pub scx: u8,
    pub scy: u8,
    pub wx: u8,
    pub wy: u8,
    pub bgp: u8,
    pub obp0: u8,
    pub obp1: u8,
    pub internal_clock: u32,
    pub current_line: u8,
}

impl GpuView {
    /// The picture processor at power-on: in the vertical blank on line
    /// 0x94, with the frame all 0xFF, the memories cleared and the palette of
    /// four greens.
    pub open spec fn power_on() -> GpuView {
        GpuView {
            pixel_data: Seq::new(FRAME_BYTES as nat, |i: int| 0xFFu8),
            mode: GPUMode::Vblank,
            palette: seq![224u8, 248, 208, 136, 192, 112, 52, 104, 86, 8, 24, 32],
            vram: Seq::new(VRAM_SIZE as nat, |i: int| 0u8),
            oam: Seq::new(OAM_SIZE as nat, |i: int| 0u8),
            lcdc: 0x91,
            stat: 0x81,
            lyc: 0,
            scx: 0,
            scy: 0,
            wx: 0,
            wy: 0,
            bgp: 0xFC,
            obp0: 0xFF,
            obp1: 0xFF,
            internal_clock: 0,
            current_line: 0x94,
        }
    }

    /// What holds of every picture processor: its memories have their sizes,
    /// the line is one of the 154 of a frame, a visible mode is on only on a
    /// visible line, and a disabled screen rests on line 0.
    pub open spec fn wf(self) -> bool {
        &&& self.pixel_data.len() == FRAME_BYTES
        &&& self.palette.len() == 12
        &&& self.vram.len() == VRAM_SIZE
        &&& self.oam.len() == OAM_SIZE
        &&& self.current_line <= LAST_LINE
        &&& self.mode != GPUMode::Vblank ==> self.current_line < 144
        &&& !self.is_enabled() ==> self.current_line == 0
    }

    pub open spec fn is_enabled(self) -> bool {
        bit(self.lcdc, 7)
    }

    /// The clock has not run past the end of the mode, and while the screen
    /// is enabled the vertical blank is on only on the lines from 144.
    pub open spec fn on_schedule(self) -> bool {
        &&& self.internal_clock < self.mode.duration()
        &&& self.is_enabled() && self.mode == GPUMode::Vblank ==> self.current_line >= 144
    }

    /// The cycles of the frame that have passed.
    pub open spec fn position(self) -> int {
        self.current_line * 456 + self.mode.start() + self.internal_clock
    }

    /// Whether the line that has just begun is the one that LYC asks for,
    /// with the coincidence interrupt enabled.
    pub open spec fn lyc_hit(self) -> bool {
        bit(self.stat, 6) && self.lyc == self.current_line
    }

    /// Whether STAT enables the interrupt of the mode that has just begun.
    pub open spec fn mode_hit(self) -> bool {
        match self.mode {
            GPUMode::OamScanline => bit(self.stat, 5),
            GPUMode::Vblank => bit(self.stat, 4),
            GPUMode::Hblank => bit(self.stat, 3),
            GPUMode::VramScanline => false,
        }
    }

    /// The first row byte of the tile row that covers the point (`x`, `y`)
    /// of the tile map at `map`.
    pub open spec fn tile_row(self, map: int, x: int, y: int) -> int {
        tile_address(bit(self.lcdc, 4), self.vram[map + (y / 8) * 32 + x / 8]) + (y % 8) * 2
    }

    /// The shade of the point (`x`, `y`) of the tile map at `map`.
    #[verifier::opaque]
    pub open spec fn map_shade(self, map: int, x: int, y: int) -> u8 {
        shade_of(self.bgp, color_index(self.vram, self.tile_row(map, x, y), (x % 8) as u8))
    }

    pub open spec fn background_map(self) -> int {
        if bit(self.lcdc, 3) {
            0x1C00
        } else {
            0x1800
        }
    }

    pub open spec fn window_map(self) -> int {
        if bit(self.lcdc, 6) {
            0x1C00
        } else {
            0x1800
        }
    }

    /// The shade of the background in column `col` of the current line.
    pub open spec fn background_shade(self, col: int) -> u8 {
        self.map_shade(
            self.background_map(),
            (self.scx + col) % 256,
            (self.scy + self.current_line) % 256,
        )
    }

    /// Whether the window reaches the current line.
    pub open spec fn window_on_line(self) -> bool {
        bit(self.lcdc, 5) && self.current_line >= self.wy && self.wx < 167 && self.wy < 144
    }

    /// The shade of the window in column `col` of the current line, for a
    /// column that the window covers.
    pub open spec fn window_shade(self, col: int) -> u8 {
        self.map_shade(self.window_map(), col + 7 - self.wx, self.current_line - self.wy)
    }

    /// `pixels` with the background drawn into the first `cols` columns of
    /// the current line.
    pub open spec fn background_drawn(self, pixels: Seq<u8>, cols: int) -> Seq<u8>
        decreases cols,
    {
        if cols <= 0 {
            pixels
        } else {
            put_pixel(
                self.background_drawn(pixels, cols - 1),
                self.palette,
                self.current_line * 160 + cols - 1,
                self.background_shade(cols - 1),
            )
        }
    }

    /// `pixels` with the window drawn into those of the first `cols`
    /// columns of the current line that it covers.
    pub open spec fn window_drawn(self, pixels: Seq<u8>, cols: int) -> Seq<u8>
        decreases cols,
    {
        if cols <= 0 {
            pixels
        } else if cols - 1 + 7 >= self.wx {
            put_pixel(
                self.window_drawn(pixels, cols - 1),
                self.palette,
                self.current_line * 160 + cols - 1,
                self.window_shade(cols - 1),
            )
        } else {
            self.window_drawn(pixels, cols - 1)
        }
    }

    pub open spec fn sprite_height(self) -> int {
        if bit(self.lcdc, 2) {
            16
        } else {
            8
        }
    }

    /// Whether the sprite `index` of the table covers the current line.
    pub open spec fn sprite_on_line(self, index: int) -> bool {
        self.oam[index * 4] <= self.current_line + 16 < self.oam[index * 4] + self.sprite_height()
    }

    /// How many of the first `count` sprites of the table cover the
    /// current line.
    pub open spec fn sprites_on_line(self, count: int) -> int
        decreases count,
    {
        if count <= 0 {
            0
        } else if self.sprite_on_line(count - 1) {
            self.sprites_on_line(count - 1) + 1
        } else {
            self.sprites_on_line(count - 1)
        }
    }

    /// The first row byte of the row of sprite `index` that lies on the
    /// current line.
    pub open spec fn sprite_row(self, index: int) -> int {
        let row = self.current_line + 16 - self.oam[index * 4];
        let tile = if bit(self.lcdc, 2) {
            self.oam[index * 4 + 2] & 0xFE
        } else {
            self.oam[index * 4 + 2]
        };
        tile * 16 + (if bit(self.oam[index * 4 + 3], 6) {
            self.sprite_height() - 1 - row
        } else {
            row
        }) * 2
    }

    /// The screen column of the pixel `column` (from the left of the tile
    /// row) of sprite `index`.
    pub open spec fn sprite_column(self, index: int, column: int) -> int {
        self.oam[index * 4 + 1] - 8 + (if bit(self.oam[index * 4 + 3], 5) {
            7 - column
        } else {
            column
        })
    }

    /// `pixels` with one pixel of sprite `index` drawn, if it is to be
    /// seen: it lies on the screen, is not transparent, and is not hidden
    /// behind a background that is not blank.
    pub open spec fn sprite_pixel_drawn(self, pixels: Seq<u8>, index: int, column: int) -> Seq<u8> {
        let x = self.sprite_column(index, column);
        let color = color_index(self.vram, self.sprite_row(index), column as u8);
        let attributes = self.oam[index * 4 + 3];
        let pos = self.current_line * 160 + x;
        if 0 <= x < 160 && color != 0 && (!bit(attributes, 7) || is_blank(
            pixels,
            self.palette,
            pos,
        )) {
            put_pixel(
                pixels,
                self.palette,
                pos,
                shade_of(
                    if bit(attributes, 4) {
                        self.obp1
                    } else {
                        self.obp0
                    },
                    color,
                ),
            )
        } else {
            pixels
        }
    }

    /// `pixels` with the first `columns` pixels of sprite `index` drawn.
    pub open spec fn sprite_drawn(self, pixels: Seq<u8>, index: int, columns: int) -> Seq<u8>
        decreases columns,
    {
        if columns <= 0 {
            pixels
        } else {
            self.sprite_pixel_drawn(
                self.sprite_drawn(pixels, index, columns - 1),
                index,
                columns - 1,
            )
        }
    }

    /// `pixels` with the first `count` sprites of the table drawn in table
    /// order. Of the sprites that cover the line, only the first ten are
    /// drawn.
    pub open spec fn sprites_drawn(self, pixels: Seq<u8>, count: int) -> Seq<u8>
        decreases count,
    {
        if count <= 0 {
            pixels
        } else if self.sprite_on_line(count - 1) && self.sprites_on_line(count - 1) < 10 {
            self.sprite_drawn(self.sprites_drawn(pixels, count - 1), count - 1, 8)
        } else {
            self.sprites_drawn(pixels, count - 1)
        }
    }

    /// The framebuffer after the current line was drawn: the background,
    /// then the window, then the sprites, each where LCDC enables it.
    pub open spec fn render_line(self) -> Seq<u8> {
        if self.current_line >= 144 {
            self.pixel_data
        } else {
            let background = if bit(self.lcdc, 0) {
                self.background_drawn(self.pixel_data, 160)
            } else {
                self.pixel_data
            };
            let window = if self.window_on_line() {
                self.window_drawn(background, 160)
            } else {
                background
            };
            if bit(self.lcdc, 1) {
                self.sprites_drawn(window, 40)
            } else {
                window
            }
        }
    }

    /// The interrupt of a line that has just begun in the mode that has
    /// just begun.
    pub open spec fn line_interrupt(self) -> Option<InterruptType> {
        if self.lyc_hit() || self.mode_hit() {
            Some(InterruptType::LCDC)
        } else {
            None
        }
    }

    /// The state after the current mode has ended, with `clock` cycles
    /// already spent in what follows, and the interrupt that this raises.
    pub open spec fn advance(self, clock: u32) -> (GpuView, Option<InterruptType>) {
        match self.mode {
            GPUMode::OamScanline => (
                GpuView { mode: GPUMode::VramScanline, internal_clock: clock, ..self },
                None,
            ),
            GPUMode::VramScanline => {
                let next = GpuView {
                    mode: GPUMode::Hblank,
                    internal_clock: clock,
                    pixel_data: self.render_line(),
                    ..self
                };
                (
                    next,
                    if next.mode_hit() {
                        Some(InterruptType::LCDC)
                    } else {
                        None
                    },
                )
            },
            GPUMode::Hblank => {
                if self.current_line + 1 > 143 {
                    (
                        GpuView {
                            mode: GPUMode::Vblank,
                            internal_clock: clock,
                            current_line: (self.current_line + 1) as u8,
                            ..self
                        },
                        Some(InterruptType::VBLANK),
                    )
                } else {
                    let next = GpuView {
                        mode: GPUMode::OamScanline,
                        internal_clock: clock,
                        current_line: (self.current_line + 1) as u8,
                        ..self
                    };
                    (next, next.line_interrupt())
                }
            },
            GPUMode::Vblank => {
                if self.current_line >= LAST_LINE {
                    let next = GpuView {
                        mode: GPUMode::OamScanline,
                        internal_clock: clock,
                        current_line: 0,
                        pixel_data: blank_frame(self.palette),
                        ..self
                    };
                    (next, next.line_interrupt())
                } else {
                    let next = GpuView {
                        internal_clock: clock,
                        current_line: (self.current_line + 1) as u8,
                        ..self
                    };
                    (
                        next,
                        if next.lyc_hit() {
                            Some(InterruptType::LCDC)
                        } else {
                            None
                        },
                    )
                }
            },
        }
    }

    /// The state after `cycles` more cycles, and the interrupt that they
    /// raise. A disabled screen stands still. At most one mode ends.
    pub open spec fn step(self, cycles: u32) -> (GpuView, Option<InterruptType>) {
        if !self.is_enabled() {
            (self, None)
        } else if self.internal_clock + cycles < self.mode.duration() {
            (GpuView { internal_clock: (self.internal_clock + cycles) as u32, ..self }, None)
        } else {
            self.advance((self.internal_clock + cycles - self.mode.duration()) as u32)
        }
    }
}

pub struct GPU {
    pub pixel_data: Vec<u8>,
    pub mode: GPUMode,
    pub palette: [u8; 12],
    pub vram: Vec<u8>,
    pub oam: Vec<u8>,
    pub lcdc: u8,
    pub stat: u8,
    pub lyc: u8,
    pub scx: u8,
    pub scy: u8,
    pub wx: u8,
    pub wy: u8,
    pub bgp: u8,
    pub obp0: u8,
    pub obp1: u8,
    pub internal_clock: u32,
    pub current_line: u8,
}

impl View for GPU {
    type V = GpuView;

    open spec fn view(&self) -> GpuView {
        GpuView {
            pixel_data: self.pixel_data@,
            mode: self.mode,
            palette: self.palette@,
            vram: self.vram@,
            oam: self.oam@,
            lcdc: self.lcdc,
            stat: self.stat,
            lyc: self.lyc,
            scx: self.scx,
            scy: self.scy,
            wx: self.wx,
            wy: self.wy,
            bgp: self.bgp,
            obp0: self.obp0,
            obp1: self.obp1,
            internal_clock: self.internal_clock,
            current_line: self.current_line,
        }
    }
}

impl GPU {
    /// What holds of every picture processor: its memories have their sizes,
    /// the line is one of the 154 of a frame, a visible mode is on only on a
    /// visible line, and a disabled screen rests on line 0.
    pub open spec fn wf(&self) -> bool {
        self@.wf()
    }

    /// Steps the picture processor by `cycles` cycles. Returns the
    /// interrupt that is to be raised, if any.
    pub fn step(&mut self, cycles: u32) -> (raised: Option<InterruptType>)
        requires
            old(self).wf(),
            old(self)@.is_enabled() ==> old(self).internal_clock + cycles <= u32::MAX,
        ensures
            final(self).wf(),
            (final(self)@, raised) == old(self)@.step(cycles),
    {
        if !self.is_enabled() {
            return None;
        }
        let clock: u32 = self.internal_clock + cycles;
        if clock < self.mode.get_duration() {
            self.internal_clock = clock;
            return None;
        }
        let clock: u32 = clock - self.mode.get_duration();
        match self.mode {
            GPUMode::Vblank => {
                self.internal_clock = clock;
                if self.current_line >= LAST_LINE {
                    self.clear_frame();
                    self.current_line = 0;
                    self.mode = GPUMode::OamScanline;
                    self.check_lyc()
                } else {
                    self.current_line += 1;
                    if self.lyc_matches() {
                        Some(InterruptType::LCDC)
                    } else {
                        None
                    }
                }
            },
            GPUMode::Hblank => {
                self.internal_clock = clock;
                self.current_line += 1;
                if self.current_line > 143 {
                    self.mode = GPUMode::Vblank;
                    Some(InterruptType::VBLANK)
                } else {
                    self.mode = GPUMode::OamScanline;
                    self.check_lyc()
                }
            },
            GPUMode::OamScanline => {
                self.internal_clock = clock;
                self.mode = GPUMode::VramScanline;
                None
            },
            GPUMode::VramScanline => {
                if self.current_line < 144 {
                    let ghost before = self@;
                    self.draw_vram();
                    proof {
                        lemma_sprites_ignore_frame(self@, before, self@.pixel_data, 40);
                    }
                    self.draw_sprites();
                }
                self.internal_clock = clock;
                self.mode = GPUMode::Hblank;
                self.check_interrupt()
            },
        }
    }

    /// Whether the picture processor is well formed: its memories have
    /// their sizes, the line is one of the 154 of a frame, a visible mode is
    /// on only on a visible line, and a disabled screen rests on line 0.
    pub fn is_valid(&self) -> (valid: bool)
        ensures
            valid == self.wf(),
    {
        let visible: bool = match self.mode {
            GPUMode::Vblank => true,
            _ => self.current_line < 144,
        };
        self.pixel_data.len() == FRAME_BYTES && self.vram.len() == VRAM_SIZE && self.oam.len()
            == OAM_SIZE && self.current_line <= LAST_LINE && visible && (self.is_enabled()
            || self.current_line == 0)
    }

    /// Whether the picture processor is on schedule.
    pub fn is_on_schedule(&self) -> (on_schedule: bool)
        ensures
            on_schedule == self@.on_schedule(),
    {
        let blank_fits: bool = match self.mode {
            GPUMode::Vblank => !self.is_enabled() || self.current_line >= 144,
            _ => true,
        };
        self.internal_clock < self.mode.get_duration() && blank_fits
    }

    /// Returns if the screen is currently enabled.
    pub fn is_enabled(&self) -> (enabled: bool)
        ensures
            enabled == self@.is_enabled(),
    {
        test_bit(self.lcdc, 7)
    }

    fn lyc_matches(&self) -> (hit: bool)
        ensures
            hit == self@.lyc_hit(),
    {
        test_bit(self.stat, 6) && self.lyc == self.current_line
    }

    /// The interrupt of a line that has just begun.
    pub fn check_lyc(&self) -> (raised: Option<InterruptType>)
        ensures
            raised == self@.line_interrupt(),
    {
        if self.lyc_matches() {
            return Some(InterruptType::LCDC);
        }
        self.check_interrupt()
    }

    /// The interrupt of a mode that has just begun.
    fn check_interrupt(&self) -> (raised: Option<InterruptType>)
        ensures
            raised == (if self@.mode_hit() {
                Some(InterruptType::LCDC)
            } else {
                None
            }),
    {
        let enabled = match self.mode {
            GPUMode::OamScanline => test_bit(self.stat, 5),
            GPUMode::Vblank => test_bit(self.stat, 4),
            GPUMode::Hblank => test_bit(self.stat, 3),
            GPUMode::VramScanline => false,
        };
        if enabled {
            Some(InterruptType::LCDC)
        } else {
            None
        }
    }

    /// Paints the pixel at `pos` in the colour of `shade`.
    fn draw_pixel(&mut self, pos: usize, shade: u8)
        requires
            old(self).wf(),
            pos < 160 * 144,
            shade <= 3,
        ensures
            final(self)@ == (GpuView {
                pixel_data: put_pixel(old(self)@.pixel_data, old(self)@.palette, pos as int, shade),
                ..old(self)@
            }),
            final(self).wf(),
    {
        self.pixel_data[pos * PITCH] = self.palette[shade as usize * PITCH];
        self.pixel_data[pos * PITCH + 1] = self.palette[shade as usize * PITCH + 1];
        self.pixel_data[pos * PITCH + 2] = self.palette[shade as usize * PITCH + 2];
    }

    /// Paints every pixel in the colour of shade 0.
    fn clear_frame(&mut self)
        requires
            old(self).wf(),
        ensures
            final(self)@ == (GpuView {
                pixel_data: blank_frame(old(self)@.palette),
                ..old(self)@
            }),
            final(self).wf(),
    {
        let ghost before = self@;
        let mut pos: usize = 0;
        while pos < 160 * 144
            invariant
                pos <= 160 * 144,
                self.wf(),
                self@ == (GpuView { pixel_data: self@.pixel_data, ..before }),
                forall|i: int| 0 <= i < pos * 3 ==> self@.pixel_data[i] == before.palette[i % 3],
            decreases 160 * 144 - pos,
        {
            self.draw_pixel(pos, 0);
            pos += 1;
        }
        assert(self@.pixel_data =~= blank_frame(before.palette));
    }

    /// The shade of the point (`x`, `y`) of the tile map at `map`.
    fn shade_at(&self, map: usize, x: u8, y: u8) -> (shade: u8)
        requires
            self.wf(),
            map == 0x1800 || map == 0x1C00,
        ensures
            shade == self@.map_shade(map as int, x as int, y as int),
            shade <= 3,
    {
        proof {
            reveal(GpuView::map_shade);
        }
        let tile: u8 = self.vram[map + (y as usize / 8) * 32 + x as usize / 8];
        let address: usize = if test_bit(self.lcdc, 4) {
            tile as usize * 16
        } else if tile < 128 {
            0x1000 + tile as usize * 16
        } else {
            0x1000 - (256 - tile as usize) * 16
        };
        let row: usize = address + (y as usize % 8) * 2;
        let index: u8 = self.color_at(row, x % 8);
        proof {
            lemma_masked_range(self.bgp, (index * 2) as u8);
        }
        (self.bgp >> (index * 2)) & 0b11
    }

    /// The colour number of the pixel `column` of the tile row at `row`.
    fn color_at(&self, row: usize, column: u8) -> (index: u8)
        requires
            self.wf(),
            row + 1 < VRAM_SIZE,
            column < 8,
        ensures
            index == color_index(self@.vram, row as int, column),
            index <= 3,
    {
        let first_byte: u8 = self.vram[row];
        let second_byte: u8 = self.vram[row + 1];
        proof {
            lemma_masked_range(first_byte, (7 - column) as u8);
            lemma_masked_range(second_byte, (7 - column) as u8);
        }
        let first_bit: u8 = (first_byte >> (7 - column)) & 0x1;
        let second_bit: u8 = (second_byte >> (7 - column)) & 0x1;
        first_bit + second_bit * 2
    }

    /// Draws the background and the window of the current line.
    fn draw_vram(&mut self)
        requires
            old(self).wf(),
            old(self).current_line < 144,
        ensures
            final(self).wf(),
            final(self)@ == (GpuView {
                pixel_data: {
                    let background = if bit(old(self)@.lcdc, 0) {
                        old(self)@.background_drawn(old(self)@.pixel_data, 160)
                    } else {
                        old(self)@.pixel_data
                    };
                    if old(self)@.window_on_line() {
                        old(self)@.window_drawn(background, 160)
                    } else {
                        background
                    }
                },
                ..old(self)@
            }),
    {
        let ghost before = self@;
        let line: usize = self.current_line as usize;
        if test_bit(self.lcdc, 0) {
            let mut col: u8 = 0;
            while col < 160
                invariant
                    col <= 160,
                    line == before.current_line,
                    line < 144,
                    self.wf(),
                    self@ == (GpuView {
                        pixel_data: before.background_drawn(before.pixel_data, col as int),
                        ..before
                    }),
                decreases 160 - col,
            {
                proof {
                    lemma_shade_ignores_frame(self@, before, col as int);
                }
                let shade: u8 = self.background_shade_at(col);
                self.draw_pixel(line * 160 + col as usize, shade);
                col += 1;
            }
        }
        let ghost background = self@.pixel_data;
        if test_bit(self.lcdc, 5) && self.current_line >= self.wy && self.wx < 167 && self.wy
            < 144 {
            let mut col: u8 = 0;
            while col < 160
                invariant
                    col <= 160,
                    line == before.current_line,
                    line < 144,
                    before.window_on_line(),
                    self.wf(),
                    self@ == (GpuView {
                        pixel_data: before.window_drawn(background, col as int),
                        ..before
                    }),
                decreases 160 - col,
            {
                if col + 7 >= self.wx {
                    proof {
                        lemma_shade_ignores_frame(self@, before, col as int);
                    }
                    let shade: u8 = self.window_shade_at(col);
                    self.draw_pixel(line * 160 + col as usize, shade);
                }
                col += 1;
            }
        }
    }

    /// The shade of the background in column `col` of the current line.
    fn background_shade_at(&self, col: u8) -> (shade: u8)
        requires
            self.wf(),
            col < 160,
        ensures
            shade == self@.background_shade(col as int),
            shade <= 3,
    {
        let map: usize = if test_bit(self.lcdc, 3) {
            0x1C00
        } else {
            0x1800
        };
        let x: u8 = self.scx.wrapping_add(col);
        let y: u8 = self.scy.wrapping_add(self.current_line);
        assert(x as int == (self.scx + col) % 256);
        assert(y as int == (self.scy + self.current_line) % 256);
        self.shade_at(map, x, y)
    }

    /// The shade of the window in column `col` of the current line.
    fn window_shade_at(&self, col: u8) -> (shade: u8)
        requires
            self.wf(),
            col < 160,
            col + 7 >= self.wx,
            self@.window_on_line(),
        ensures
            shade == self@.window_shade(col as int),
            shade <= 3,
    {
        let map: usize = if test_bit(self.lcdc, 6) {
            0x1C00
        } else {
            0x1800
        };
        let x: u8 = col + 7 - self.wx;
        let y: u8 = self.current_line - self.wy;
        self.shade_at(map, x, y)
    }

    /// Draws the sprites of the current line.
    fn draw_sprites(&mut self)
        requires
            old(self).wf(),
            old(self).current_line < 144,
        ensures
            final(self).wf(),
            final(self)@ == (GpuView {
                pixel_data: if bit(old(self)@.lcdc, 1) {
                    old(self)@.sprites_drawn(old(self)@.pixel_data, 40)
                } else {
                    old(self)@.pixel_data
                },
                ..old(self)@
            }),
    {
        if !test_bit(self.lcdc, 1) {
            return ;
        }
        let ghost before = self@;
        let tall: bool = test_bit(self.lcdc, 2);
        let sprite_height: u8 = if tall {
            16
        } else {
            8
        };
        let line: u8 = self.current_line;
        let mut sprite_row_count: u8 = 0;
        let mut sprite_index: usize = 0;
        while sprite_index < 40
            invariant
                sprite_index <= 40,
                line == before.current_line,
                line < 144,
                tall == bit(before.lcdc, 2),
                sprite_height == before.sprite_height(),
                sprite_row_count == before.sprites_on_line(sprite_index as int),
                sprite_row_count <= sprite_index,
                self.wf(),
                self@ == (GpuView {
                    pixel_data: before.sprites_drawn(before.pixel_data, sprite_index as int),
                    ..before
                }),
            decreases 40 - sprite_index,
        {
            let info_ptr: usize = sprite_index * 4;
            let y_pos: u8 = self.oam[info_ptr];
            let on_line: bool = y_pos as u16 <= line as u16 + 16 && (line as u16 + 16) < y_pos as u16
                + sprite_height as u16;
            if on_line {
                if sprite_row_count < 10 {
                    proof {
                        lemma_sprite_ignores_frame(self@, before, self@.pixel_data, sprite_index as int, 8);
                    }
                    self.draw_sprite(sprite_index, sprite_height);
                }
                sprite_row_count += 1;
            }
            sprite_index += 1;
        }
    }

    /// Draws the row of the sprite `index` that lies on the current line.
    fn draw_sprite(&mut self, index: usize, sprite_height: u8)
        requires
            old(self).wf(),
            old(self).current_line < 144,
            index < 40,
            sprite_height == old(self)@.sprite_height(),
            old(self)@.sprite_on_line(index as int),
        ensures
            final(self).wf(),
            final(self)@ == (GpuView {
                pixel_data: old(self)@.sprite_drawn(old(self)@.pixel_data, index as int, 8),
                ..old(self)@
            }),
    {
        let ghost before = self@;
        let info_ptr: usize = index * 4;
        let y_pos: u8 = self.oam[info_ptr];
        let x_pos: u8 = self.oam[info_ptr + 1];
        let info: u8 = self.oam[info_ptr + 3];
        let behind: bool = test_bit(info, 7);
        let y_flip: bool = test_bit(info, 6);
        let x_flip: bool = test_bit(info, 5);
        let palette: u8 = if test_bit(info, 4) {
            self.obp1
        } else {
            self.obp0
        };
        let line: usize = self.current_line as usize;
        let y_tile: u8 = (self.current_line + 16 - y_pos) as u8;
        let tile: u8 = if sprite_height == 16 {
            self.oam[info_ptr + 2] & 0xFE
        } else {
            self.oam[info_ptr + 2]
        };
        proof {
            lemma_tile_bits(self.oam[info_ptr + 2 as int]);
        }
        let row: usize = tile as usize * 16 + (if y_flip {
            sprite_height - 1 - y_tile
        } else {
            y_tile
        }) as usize * 2;
        let mut column: u8 = 0;
        while column < 8
            invariant
                column <= 8,
                index < 40,
                line == before.current_line,
                line < 144,
                x_pos == before.oam[index * 4 + 1],
                info == before.oam[index * 4 + 3],
                behind == bit(info, 7),
                x_flip == bit(info, 5),
                palette == (if bit(info, 4) {
                    before.obp1
                } else {
                    before.obp0
                }),
                row == before.sprite_row(index as int),
                row + 1 < VRAM_SIZE,
                self.wf(),
                self@ == (GpuView {
                    pixel_data: before.sprite_drawn(before.pixel_data, index as int, column as int),
                    ..before
                }),
            decreases 8 - column,
        {
            let offset: u8 = if x_flip {
                7 - column
            } else {
                column
            };
            let x: u16 = x_pos as u16 + offset as u16;
            if x >= 8 && x < 168 {
                let pos: usize = line * 160 + (x - 8) as usize;
                let color: u8 = self.color_at(row, column);
                if color != 0 {
                    let blank: bool = self.pixel_data[pos * PITCH] == self.palette[0]
                        && self.pixel_data[pos * PITCH + 1] == self.palette[1]
                        && self.pixel_data[pos * PITCH + 2] == self.palette[2];
                    if !behind || blank {
                        proof {
                            lemma_masked_range(palette, (color * 2) as u8);
                        }
                        let shade: u8 = (palette >> (color * 2)) & 0b11;
                        self.draw_pixel(pos, shade);
                    }
                }
            }
            column += 1;
        }
    }

    /// Builds a new instance of the picture processor.
    pub fn build() -> (gpu: GPU)
        ensures
            gpu.wf(),
            gpu@ == GpuView::power_on(),
    {
        let gpu = GPU {
            pixel_data: vec![0xFFu8; FRAME_BYTES],
            mode: GPUMode::Vblank,
            palette: [224, 248, 208, 136, 192, 112, 52, 104, 86, 8, 24, 32],
            vram: vec![0u8; VRAM_SIZE],
            oam: vec![0u8; OAM_SIZE],
            lcdc: 0x91,
            stat: 0x81,
            scx: 0,
            scy: 0,
            lyc: 0,
            wx: 0,
            wy: 0,
            bgp: 0xFC,
            obp0: 0xFF,
            obp1: 0xFF,
            internal_clock: 0,
            current_line: 0x94,
        };
        proof {
            assert(gpu@.pixel_data =~= Seq::new(FRAME_BYTES as nat, |i: int| 0xFFu8));
            assert(gpu@.vram =~= Seq::new(VRAM_SIZE as nat, |i: int| 0u8));
            assert(gpu@.oam =~= Seq::new(OAM_SIZE as nat, |i: int| 0u8));
            assert(gpu@.palette =~= seq![224u8, 248, 208, 136, 192, 112, 52, 104, 86, 8, 24, 32]);
            assert(bit(0x91u8, 7)) by (bit_vector);
        }
        gpu
    }

    /// A picture processor at power-on is well formed and on schedule.
    pub proof fn lemma_power_on()
        ensures
            GpuView::power_on().wf(),
            GpuView::power_on().on_schedule(),
            GpuView::power_on().is_enabled(),
    {
        assert(bit(0x91u8, 7)) by (bit_vector);
    }
}

/// The shades of the background and of the window do not depend on the
/// framebuffer.
proof fn lemma_shade_ignores_frame(a: GpuView, b: GpuView, col: int)
    requires
        a == (GpuView { pixel_data: a.pixel_data, ..b }),
    ensures
        a.background_shade(col) == b.background_shade(col),
        a.window_shade(col) == b.window_shade(col),
        a.window_on_line() == b.window_on_line(),
{
    reveal(GpuView::map_shade);
}

/// What is drawn of a sprite depends on the framebuffer that is handed in,
/// not on the one that the picture processor holds.
proof fn lemma_sprite_ignores_frame(a: GpuView, b: GpuView, pixels: Seq<u8>, index: int, columns: int)
    requires
        a == (GpuView { pixel_data: a.pixel_data, ..b }),
    ensures
        a.sprite_drawn(pixels, index, columns) == b.sprite_drawn(pixels, index, columns),
    decreases columns,
{
    if columns > 0 {
        lemma_sprite_ignores_frame(a, b, pixels, index, columns - 1);
    }
}

proof fn lemma_sprites_ignore_frame(a: GpuView, b: GpuView, pixels: Seq<u8>, count: int)
    requires
        a == (GpuView { pixel_data: a.pixel_data, ..b }),
    ensures
        a.sprites_drawn(pixels, count) == b.sprites_drawn(pixels, count),
        a.sprites_on_line(count) == b.sprites_on_line(count),
    decreases count,
{
    if count > 0 {
        lemma_sprites_ignore_frame(a, b, pixels, count - 1);
        lemma_sprite_ignores_frame(a, b, a.sprites_drawn(pixels, count - 1), count - 1, 8);
    }
}

proof fn lemma_tile_bits(tile: u8)
    by (bit_vector)
    ensures
        tile & 0xFE <= 254,
{
}

/// The sum of a sequence of cycle counts.
pub open spec fn total_cycles(steps: Seq<u32>) -> int
    decreases steps.len(),
{
    if steps.len() == 0 {
        0
    } else {
        total_cycles(steps.drop_last()) + steps.last()
    }
}

/// How often a clock that stands at `position` within a frame passes the
/// start of the vertical blank during the next `cycles` cycles.
pub open spec fn blank_starts(position: int, cycles: int) -> int {
    (position + cycles + LINE_CYCLES * 10) / (FRAME_CYCLES as int) - (position + LINE_CYCLES * 10)
        / (FRAME_CYCLES as int)
}

impl GpuView {
    /// The state after the steps of `steps`, one after the other.
    pub open spec fn after(self, steps: Seq<u32>) -> GpuView
        decreases steps.len(),
    {
        if steps.len() == 0 {
            self
        } else {
            self.after(steps.drop_last()).step(steps.last()).0
        }
    }

    /// How many of the steps of `steps` raise the vertical blank interrupt.
    pub open spec fn blanks_raised(self, steps: Seq<u32>) -> int
        decreases steps.len(),
    {
        if steps.len() == 0 {
            0
        } else {
            self.blanks_raised(steps.drop_last()) + (if self.after(steps.drop_last()).step(
                steps.last(),
            ).1 == Some(InterruptType::VBLANK) {
                1int
            } else {
                0int
            })
        }
    }
}

/// Drawing keeps the size of the framebuffer.
proof fn lemma_background_keeps_size(gpu: GpuView, pixels: Seq<u8>, cols: int)
    requires
        gpu.current_line < 144,
        cols <= 160,
        pixels.len() == FRAME_BYTES,
    ensures
        gpu.background_drawn(pixels, cols).len() == FRAME_BYTES,
        gpu.window_drawn(pixels, cols).len() == FRAME_BYTES,
    decreases cols,
{
    if cols > 0 {
        lemma_background_keeps_size(gpu, pixels, cols - 1);
    }
}

proof fn lemma_sprite_keeps_size(gpu: GpuView, pixels: Seq<u8>, index: int, columns: int)
    requires
        gpu.current_line < 144,
        pixels.len() == FRAME_BYTES,
    ensures
        gpu.sprite_drawn(pixels, index, columns).len() == FRAME_BYTES,
    decreases columns,
{
    if columns > 0 {
        lemma_sprite_keeps_size(gpu, pixels, index, columns - 1);
    }
}

proof fn lemma_sprites_keep_size(gpu: GpuView, pixels: Seq<u8>, count: int)
    requires
        gpu.current_line < 144,
        pixels.len() == FRAME_BYTES,
    ensures
        gpu.sprites_drawn(pixels, count).len() == FRAME_BYTES,
    decreases count,
{
    if count > 0 {
        lemma_sprites_keep_size(gpu, pixels, count - 1);
        lemma_sprite_keeps_size(gpu, gpu.sprites_drawn(pixels, count - 1), count - 1, 8);
    }
}

/// After the background was drawn into the first `cols` columns of the
/// line, each of their pixels has the colour that the palette gives to the
/// background's shade in its column, and every other byte of the
/// framebuffer is as it was.
pub proof fn lemma_background_shows(gpu: GpuView, pixels: Seq<u8>, cols: int, i: int)
    requires
        gpu.current_line < 144,
        0 <= cols <= 160,
        pixels.len() == FRAME_BYTES,
        0 <= i < FRAME_BYTES,
    ensures
        gpu.background_drawn(pixels, cols)[i] == (if gpu.current_line * 160 <= i / 3
            < gpu.current_line * 160 + cols {
            gpu.palette[gpu.background_shade(i / 3 - gpu.current_line * 160) * 3 + i % 3]
        } else {
            pixels[i]
        }),
    decreases cols,
{
    if cols > 0 {
        lemma_background_shows(gpu, pixels, cols - 1, i);
        lemma_background_keeps_size(gpu, pixels, cols - 1);
    }
}

/// After the window was drawn into the first `cols` columns of the line,
/// each pixel of a column that the window covers has the colour that the
/// palette gives to the window's shade there, and every other byte of the
/// framebuffer is as it was.
pub proof fn lemma_window_shows(gpu: GpuView, pixels: Seq<u8>, cols: int, i: int)
    requires
        gpu.current_line < 144,
        0 <= cols <= 160,
        pixels.len() == FRAME_BYTES,
        0 <= i < FRAME_BYTES,
    ensures
        gpu.window_drawn(pixels, cols)[i] == (if gpu.current_line * 160 <= i / 3
            < gpu.current_line * 160 + cols && i / 3 - gpu.current_line * 160 + 7 >= gpu.wx {
            gpu.palette[gpu.window_shade(i / 3 - gpu.current_line * 160) * 3 + i % 3]
        } else {
            pixels[i]
        }),
    decreases cols,
{
    if cols > 0 {
        lemma_window_shows(gpu, pixels, cols - 1, i);
        lemma_background_keeps_size(gpu, pixels, cols - 1);
    }
}

impl GpuView {
    /// The pixel of sprite `index`, counted from the left of its tile row,
    /// that falls on the screen column `x`.
    pub open spec fn sprite_pixel_at(self, index: int, x: int) -> int {
        if bit(self.oam[index * 4 + 3], 5) {
            7 - (x - (self.oam[index * 4 + 1] - 8))
        } else {
            x - (self.oam[index * 4 + 1] - 8)
        }
    }

    /// Whether the pixel `column` of sprite `index` is to be seen over the
    /// framebuffer `pixels`.
    pub open spec fn sprite_pixel_seen(self, pixels: Seq<u8>, index: int, column: int) -> bool {
        &&& 0 <= self.sprite_column(index, column) < 160
        &&& color_index(self.vram, self.sprite_row(index), column as u8) != 0
        &&& !bit(self.oam[index * 4 + 3], 7) || is_blank(
            pixels,
            self.palette,
            self.current_line * 160 + self.sprite_column(index, column),
        )
    }
}

/// After the first `columns` pixels of a sprite were drawn, each byte of
/// the framebuffer on which one of them falls that is to be seen has the
/// colour that the sprite's palette gives to that pixel, and every other
/// byte is as it was. Whether a pixel is hidden behind the background is
/// told from the framebuffer as it was before the sprite was drawn.
pub proof fn lemma_sprite_shows(gpu: GpuView, pixels: Seq<u8>, index: int, columns: int, i: int)
    requires
        gpu.current_line < 144,
        0 <= columns <= 8,
        pixels.len() == FRAME_BYTES,
        0 <= i < FRAME_BYTES,
    ensures
        gpu.sprite_drawn(pixels, index, columns)[i] == ({
            let column = gpu.sprite_pixel_at(index, i / 3 - gpu.current_line * 160);
            if gpu.current_line * 160 <= i / 3 < gpu.current_line * 160 + 160 && 0 <= column
                < columns && gpu.sprite_pixel_seen(pixels, index, column) {
                gpu.palette[shade_of(
                    if bit(gpu.oam[index * 4 + 3], 4) {
                        gpu.obp1
                    } else {
                        gpu.obp0
                    },
                    color_index(gpu.vram, gpu.sprite_row(index), column as u8),
                ) * 3 + i % 3]
            } else {
                pixels[i]
            }
        }),
    decreases columns,
{
    if columns > 0 {
        let last = columns - 1;
        let before = gpu.sprite_drawn(pixels, index, last);
        lemma_sprite_keeps_size(gpu, pixels, index, last);
        lemma_sprite_shows(gpu, pixels, index, last, i);
        let x = gpu.sprite_column(index, last);
        let pos = gpu.current_line * 160 + x;
        if 0 <= x < 160 {
            // The pixels that were drawn before fall on other columns, so
            // that here the framebuffer is still as it was.
            lemma_sprite_shows(gpu, pixels, index, last, pos * 3);
            lemma_sprite_shows(gpu, pixels, index, last, pos * 3 + 1);
            lemma_sprite_shows(gpu, pixels, index, last, pos * 3 + 2);
            assert(gpu.sprite_pixel_at(index, x) == last);
            assert(is_blank(before, gpu.palette, pos) == is_blank(pixels, gpu.palette, pos));
        }
    }
}

/// A disabled screen stands still: whatever the cycles, a step raises no
/// interrupt and changes nothing.
pub proof fn lemma_disabled_screen_rests(gpu: GpuView, cycles: u32)
    requires
        !gpu.is_enabled(),
    ensures
        gpu.step(cycles) == (gpu, None::<InterruptType>),
{
}

/// A step keeps the picture processor well formed.
pub proof fn lemma_step_keeps_wf(gpu: GpuView, cycles: u32)
    requires
        gpu.wf(),
    ensures
        gpu.step(cycles).0.wf(),
        gpu.render_line().len() == FRAME_BYTES,
{
    if gpu.current_line < 144 {
        lemma_background_keeps_size(gpu, gpu.pixel_data, 160);
        let background = if bit(gpu.lcdc, 0) {
            gpu.background_drawn(gpu.pixel_data, 160)
        } else {
            gpu.pixel_data
        };
        lemma_background_keeps_size(gpu, background, 160);
        let window = if gpu.window_on_line() {
            gpu.window_drawn(background, 160)
        } else {
            background
        };
        lemma_sprites_keep_size(gpu, window, 40);
    }
}

/// While the screen is enabled, a step of at most 80 cycles moves the
/// picture processor along the frame by exactly those cycles: the line is
/// the number of whole line times that have passed, so the lines follow each
/// other from 0 to 153 and then start again, and the vertical blank interrupt
/// is raised by the step that reaches line 144, and by no other.
pub proof fn lemma_step_follows_frame(gpu: GpuView, cycles: u32)
    requires
        gpu.wf(),
        gpu.on_schedule(),
        gpu.is_enabled(),
        cycles <= 80,
    ensures
        gpu.step(cycles).0.wf(),
        gpu.step(cycles).0.on_schedule(),
        gpu.step(cycles).0.is_enabled(),
        gpu.current_line == gpu.position() / 456,
        0 <= gpu.position() < FRAME_CYCLES,
        gpu.step(cycles).0.position() == (gpu.position() + cycles) % (FRAME_CYCLES as int),
        gpu.step(cycles).1 == Some(InterruptType::VBLANK) <==> gpu.position() < 144 * 456
            <= gpu.position() + cycles,
{
    lemma_step_keeps_wf(gpu, cycles);
}

/// A step of at most 80 cycles keeps the picture processor on schedule,
/// whether the screen is enabled or not.
pub proof fn lemma_step_keeps_schedule(gpu: GpuView, cycles: u32)
    requires
        gpu.wf(),
        gpu.on_schedule(),
        cycles <= 80,
    ensures
        gpu.step(cycles).0.wf(),
        gpu.step(cycles).0.on_schedule(),
{
    if gpu.is_enabled() {
        lemma_step_follows_frame(gpu, cycles);
    }
}

/// How the count of blank starts grows with one more step.
proof fn lemma_blank_starts_grow(position: int, cycles: int, more: int)
    requires
        0 <= position < FRAME_CYCLES,
        0 <= cycles,
        0 <= more <= 80,
    ensures
        blank_starts(position, cycles + more) == blank_starts(position, cycles) + (if (position
            + cycles) % (FRAME_CYCLES as int) < 144 * 456 <= (position + cycles) % (
        FRAME_CYCLES as int) + more {
            1int
        } else {
            0int
        }),
        ((position + cycles) % (FRAME_CYCLES as int) + more) % (FRAME_CYCLES as int) == (position
            + cycles + more) % (FRAME_CYCLES as int),
{
    let frame: int = 70224;
    let blank: int = 4560;
    let whole = (position + cycles) / frame;
    let rest = (position + cycles) % frame;
    vstd::arithmetic::div_mod::lemma_fundamental_div_mod(position + cycles, frame);
    assert(position + cycles == whole * frame + rest) by (nonlinear_arith)
        requires
            position + cycles == frame * whole + rest,
    ;
    assert((whole + 1) * frame == whole * frame + frame) by (nonlinear_arith);
    assert(0 * frame == 0 && 1 * frame == frame);
    // The blank starts up to the step.
    if rest + blank < frame {
        vstd::arithmetic::div_mod::lemma_fundamental_div_mod_converse(
            position + cycles + blank,
            frame,
            whole,
            rest + blank,
        );
    } else {
        vstd::arithmetic::div_mod::lemma_fundamental_div_mod_converse(
            position + cycles + blank,
            frame,
            whole + 1,
            rest + blank - frame,
        );
    }
    // The blank starts up to the end of the step.
    if rest + more + blank < frame {
        vstd::arithmetic::div_mod::lemma_fundamental_div_mod_converse(
            position + cycles + more + blank,
            frame,
            whole,
            rest + more + blank,
        );
    } else {
        vstd::arithmetic::div_mod::lemma_fundamental_div_mod_converse(
            position + cycles + more + blank,
            frame,
            whole + 1,
            rest + more + blank - frame,
        );
    }
    // The place in the frame after the step.
    if rest + more < frame {
        vstd::arithmetic::div_mod::lemma_fundamental_div_mod_converse(
            position + cycles + more,
            frame,
            whole,
            rest + more,
        );
        vstd::arithmetic::div_mod::lemma_fundamental_div_mod_converse(
            rest + more,
            frame,
            0,
            rest + more,
        );
    } else {
        vstd::arithmetic::div_mod::lemma_fundamental_div_mod_converse(
            position + cycles + more,
            frame,
            whole + 1,
            rest + more - frame,
        );
        vstd::arithmetic::div_mod::lemma_fundamental_div_mod_converse(
            rest + more,
            frame,
            1,
            rest + more - frame,
        );
    }
}

/// Over any steps of at most 80 cycles each, the picture processor of an
/// enabled screen moves along the frame by their sum, and raises the
/// vertical blank interrupt once for each time that this passes line 144.
pub proof fn lemma_steps_follow_frame(gpu: GpuView, steps: Seq<u32>)
    requires
        gpu.wf(),
        gpu.on_schedule(),
        gpu.is_enabled(),
        forall|i: int| 0 <= i < steps.len() ==> steps[i] <= 80,
    ensures
        gpu.after(steps).wf(),
        gpu.after(steps).on_schedule(),
        gpu.after(steps).is_enabled(),
        total_cycles(steps) >= 0,
        gpu.after(steps).position() == (gpu.position() + total_cycles(steps)) % (
        FRAME_CYCLES as int),
        gpu.blanks_raised(steps) == blank_starts(gpu.position(), total_cycles(steps)),
    decreases steps.len(),
{
    lemma_step_follows_frame(gpu, 0);
    if steps.len() > 0 {
        let rest = steps.drop_last();
        lemma_steps_follow_frame(gpu, rest);
        lemma_step_follows_frame(gpu.after(rest), steps.last());
        lemma_blank_starts_grow(gpu.position(), total_cycles(rest), steps.last() as int);
    }
}

impl GpuView {
    /// Whether LCDC switches the background, the window and the sprites
    /// off, so that no line is drawn.
    pub open spec fn draws_nothing(self) -> bool {
        !bit(self.lcdc, 0) && !bit(self.lcdc, 1) && !bit(self.lcdc, 5)
    }
}

/// While the background, the window and the sprites are switched off, a
/// step leaves the frame as it is, but for the step that ends the vertical
/// blank, which clears the frame to shade 0.
pub proof fn lemma_step_draws_nothing(gpu: GpuView, cycles: u32)
    requires
        gpu.wf(),
        gpu.on_schedule(),
        gpu.is_enabled(),
        gpu.draws_nothing(),
        cycles <= 80,
    ensures
        gpu.step(cycles).0.pixel_data == (if gpu.position() + cycles >= FRAME_CYCLES {
            blank_frame(gpu.palette)
        } else {
            gpu.pixel_data
        }),
        gpu.step(cycles).0.palette == gpu.palette,
        gpu.step(cycles).0.lcdc == gpu.lcdc,
{
}

/// While the background, the window and the sprites are switched off, the
/// frame is all shade 0 once the end of the vertical blank has been passed,
/// and until then as it was.
pub proof fn lemma_steps_draw_nothing(gpu: GpuView, steps: Seq<u32>)
    requires
        gpu.wf(),
        gpu.on_schedule(),
        gpu.is_enabled(),
        gpu.draws_nothing(),
        forall|i: int| 0 <= i < steps.len() ==> steps[i] <= 80,
    ensures
        gpu.after(steps).pixel_data == (if gpu.position() + total_cycles(steps) >= FRAME_CYCLES {
            blank_frame(gpu.palette)
        } else {
            gpu.pixel_data
        }),
        gpu.after(steps).palette == gpu.palette,
        gpu.after(steps).lcdc == gpu.lcdc,
    decreases steps.len(),
{
    if steps.len() > 0 {
        let rest = steps.drop_last();
        lemma_steps_draw_nothing(gpu, rest);
        lemma_steps_follow_frame(gpu, rest);
        lemma_step_follows_frame(gpu, 0);
        lemma_step_draws_nothing(gpu.after(rest), steps.last());
        let place = gpu.position() + total_cycles(rest);
        if place < FRAME_CYCLES {
            vstd::arithmetic::div_mod::lemma_small_mod(place as nat, FRAME_CYCLES as nat);
        }
    }
}

/// Over one frame of 70224 cycles, taken in steps of at most 80 cycles, the
/// picture processor of an enabled screen enters the vertical blank exactly
/// once, and ends where it began.
pub proof fn lemma_one_blank_per_frame(gpu: GpuView, steps: Seq<u32>)
    requires
        gpu.wf(),
        gpu.on_schedule(),
        gpu.is_enabled(),
        forall|i: int| 0 <= i < steps.len() ==> steps[i] <= 80,
        total_cycles(steps) == FRAME_CYCLES,
    ensures
        gpu.blanks_raised(steps) == 1,
        gpu.after(steps).position() == gpu.position(),
        gpu.after(steps).current_line == gpu.current_line,
{
    lemma_steps_follow_frame(gpu, steps);
    lemma_step_follows_frame(gpu, 0);
    lemma_step_follows_frame(gpu.after(steps), 0);
}

} // verus!
