use oxidgb_core::cpu::interrupts::InterruptType;
use oxidgb_core::gpu::GPUMode;
use oxidgb_core::gpu::GPU;

const SHADES: [[u8; 3]; 4] = [[224, 248, 208], [136, 192, 112], [52, 104, 86], [8, 24, 32]];

fn pixel(gpu: &GPU, x: usize, y: usize) -> [u8; 3] {
    let pos = (y * 160 + x) * 3;
    [gpu.pixel_data[pos], gpu.pixel_data[pos + 1], gpu.pixel_data[pos + 2]]
}

/// A picture processor at the start of line `line`, with a blank frame.
fn at_line(line: u8) -> GPU {
    let mut gpu = GPU::build();
    gpu.mode = GPUMode::OamScanline;
    gpu.current_line = line;
    gpu.internal_clock = 0;
    for i in 0..160 * 144 {
        gpu.pixel_data[i * 3] = 224;
        gpu.pixel_data[i * 3 + 1] = 248;
        gpu.pixel_data[i * 3 + 2] = 208;
    }
    gpu
}

/// Runs the picture processor through the line that it is at the start of.
fn draw_line(gpu: &mut GPU) {
    assert_eq!(gpu.step(80), None);
    assert_eq!(gpu.mode, GPUMode::VramScanline);
    gpu.step(80);
    gpu.step(80);
    gpu.step(12);
    assert_eq!(gpu.mode, GPUMode::Hblank);
}

#[test]
fn power_on_state() {
    let gpu = GPU::build();
    assert_eq!(gpu.pixel_data.len(), 160 * 144 * 3);
    assert!(gpu.pixel_data.iter().all(|byte| *byte == 0xFF));
    assert_eq!(gpu.vram.len(), 8192);
    assert_eq!(gpu.oam.len(), 160);
    assert_eq!(gpu.palette, [224, 248, 208, 136, 192, 112, 52, 104, 86, 8, 24, 32]);
    assert_eq!(gpu.mode, GPUMode::Vblank);
    assert_eq!(gpu.lcdc, 0x91);
    assert_eq!(gpu.stat, 0x81);
    assert_eq!(gpu.bgp, 0xFC);
    assert_eq!(gpu.current_line, 0x94);
    assert!(gpu.is_enabled());
}

#[test]
fn a_disabled_screen_stands_still() {
    let mut gpu = GPU::build();
    gpu.lcdc = 0x11;
    gpu.current_line = 0;
    for _ in 0..1000 {
        assert_eq!(gpu.step(80), None);
    }
    assert!(!gpu.is_enabled());
    assert_eq!(gpu.mode, GPUMode::Vblank);
    assert_eq!(gpu.internal_clock, 0);
    assert_eq!(gpu.current_line, 0);
}

#[test]
fn modes_follow_each_other_within_a_line() {
    let mut gpu = at_line(0);
    assert_eq!(gpu.step(79), None);
    assert_eq!(gpu.mode, GPUMode::OamScanline);
    assert_eq!(gpu.step(1), None);
    assert_eq!(gpu.mode, GPUMode::VramScanline);
    assert_eq!(gpu.internal_clock, 0);
    for _ in 0..171 {
        gpu.step(1);
    }
    assert_eq!(gpu.mode, GPUMode::VramScanline);
    gpu.step(1);
    assert_eq!(gpu.mode, GPUMode::Hblank);
    for _ in 0..203 {
        gpu.step(1);
    }
    assert_eq!(gpu.mode, GPUMode::Hblank);
    assert_eq!(gpu.current_line, 0);
    gpu.step(1);
    assert_eq!(gpu.mode, GPUMode::OamScanline);
    assert_eq!(gpu.current_line, 1);
}

#[test]
fn what_is_left_of_a_step_carries_over() {
    let mut gpu = at_line(0);
    gpu.step(50);
    gpu.step(50);
    assert_eq!(gpu.mode, GPUMode::VramScanline);
    assert_eq!(gpu.internal_clock, 20);
}

#[test]
fn one_frame_has_one_vertical_blank_and_154_lines() {
    let mut gpu = at_line(0);
    let mut blanks = 0;
    let mut lines = vec![0u8];
    let mut cycles = 0u32;
    while cycles < 70224 {
        let raised = gpu.step(4);
        cycles += 4;
        if raised == Some(InterruptType::VBLANK) {
            blanks += 1;
            assert_eq!(cycles, 144 * 456);
            assert_eq!(gpu.current_line, 144);
            assert_eq!(gpu.mode, GPUMode::Vblank);
        }
        if *lines.last().unwrap() != gpu.current_line {
            lines.push(gpu.current_line);
        }
    }
    assert_eq!(blanks, 1);
    let mut wanted: Vec<u8> = (0..=153).collect();
    wanted.push(0);
    assert_eq!(lines, wanted);
    assert_eq!(gpu.current_line, 0);
    assert_eq!(gpu.mode, GPUMode::OamScanline);
    assert_eq!(gpu.internal_clock, 0);
}

#[test]
fn from_power_on_the_blank_ends_after_six_lines() {
    let mut gpu = GPU::build();
    let mut cycles = 0;
    while gpu.current_line != 0 {
        assert_eq!(gpu.step(8), None);
        cycles += 8;
    }
    assert_eq!(cycles, 6 * 456);
    assert_eq!(gpu.mode, GPUMode::OamScanline);
    // The frame was cleared to shade 0.
    for i in 0..160 * 144 {
        assert_eq!(gpu.pixel_data[i * 3..i * 3 + 3], SHADES[0]);
    }
}

#[test]
fn status_interrupts_of_the_modes() {
    // Entering the horizontal blank with bit 3.
    let mut gpu = at_line(5);
    gpu.stat = 0x08;
    assert_eq!(gpu.step(80), None);
    gpu.step(80);
    gpu.step(80);
    assert_eq!(gpu.step(12), Some(InterruptType::LCDC));
    assert_eq!(gpu.mode, GPUMode::Hblank);
    // Entering the sprite scan with bit 5.
    gpu.stat = 0x20;
    gpu.step(80);
    gpu.step(80);
    assert_eq!(gpu.step(44), Some(InterruptType::LCDC));
    assert_eq!(gpu.mode, GPUMode::OamScanline);
    assert_eq!(gpu.current_line, 6);
    // Without the bits nothing is raised.
    let mut gpu = at_line(5);
    gpu.stat = 0x00;
    let mut cycles = 0;
    while cycles < 456 {
        assert_eq!(gpu.step(4), None);
        cycles += 4;
    }
}

#[test]
fn the_coincidence_interrupt() {
    let mut gpu = at_line(9);
    gpu.stat = 0x40;
    gpu.lyc = 10;
    let mut raised = Vec::new();
    for _ in 0..(456 * 2 / 4) {
        if let Some(interrupt) = gpu.step(4) {
            raised.push((interrupt, gpu.current_line));
        }
    }
    assert_eq!(raised, vec![(InterruptType::LCDC, 10)]);
    // In the vertical blank too.
    let mut gpu = GPU::build();
    gpu.stat = 0x40;
    gpu.lyc = 150;
    let mut raised = Vec::new();
    for _ in 0..(456 * 4 / 4) {
        if let Some(interrupt) = gpu.step(4) {
            raised.push((interrupt, gpu.current_line));
        }
    }
    assert_eq!(raised, vec![(InterruptType::LCDC, 150)]);
}

#[test]
fn the_vertical_blank_is_raised_on_line_144() {
    let mut gpu = at_line(143);
    gpu.stat = 0x10;
    let mut raised = Vec::new();
    for _ in 0..(456 / 4) {
        if let Some(interrupt) = gpu.step(4) {
            raised.push(interrupt);
        }
    }
    assert_eq!(raised, vec![InterruptType::VBLANK]);
    assert_eq!(gpu.current_line, 144);
    assert_eq!(gpu.mode, GPUMode::Vblank);
}

#[test]
fn the_background_is_drawn_through_the_palette() {
    let mut gpu = at_line(0);
    gpu.lcdc = 0x91;
    gpu.bgp = 0xE4;
    // Tile 1: the first row holds the colours 0 1 2 3 0 1 2 3.
    gpu.vram[16] = 0b0101_0101;
    gpu.vram[17] = 0b0011_0011;
    // The second tile of the first map row is tile 1.
    gpu.vram[0x1800 + 1] = 1;
    draw_line(&mut gpu);
    for x in 0..8 {
        assert_eq!(pixel(&gpu, x, 0), SHADES[0]);
        assert_eq!(pixel(&gpu, 8 + x, 0), SHADES[x % 4]);
        assert_eq!(pixel(&gpu, 16 + x, 0), SHADES[0]);
    }
    // The line below was not touched.
    assert_eq!(pixel(&gpu, 9, 1), SHADES[0]);
}

#[test]
fn the_palette_maps_colours_to_shades() {
    let mut gpu = at_line(0);
    gpu.bgp = 0x1B;
    gpu.vram[0] = 0b0101_0101;
    gpu.vram[1] = 0b0011_0011;
    draw_line(&mut gpu);
    // With 0x1B colour 0 is shade 3, colour 1 shade 2, colour 2 shade 1, colour 3 shade 0.
    for x in 0..8 {
        assert_eq!(pixel(&gpu, x, 0), SHADES[3 - x % 4]);
    }
}

#[test]
fn the_background_scrolls() {
    let mut gpu = at_line(2);
    gpu.bgp = 0xE4;
    gpu.scx = 5;
    gpu.scy = 254;
    // Line 2 with SCY 254 shows row 0 of the map; tile 0, row 0.
    gpu.vram[0] = 0b1000_0001;
    gpu.vram[1] = 0b1000_0001;
    draw_line(&mut gpu);
    // The columns 0 and 7 of every tile are colour 3; with SCX 5 they
    // land on the screen columns 2 and 3, 10 and 11, and so on.
    for x in 0..160usize {
        let wanted = if (x + 5) % 8 == 0 || (x + 5) % 8 == 7 { SHADES[3] } else { SHADES[0] };
        assert_eq!(pixel(&gpu, x, 2), wanted);
    }
}

#[test]
fn signed_tile_numbers() {
    let mut gpu = at_line(0);
    gpu.lcdc = 0x81;
    gpu.bgp = 0xE4;
    // With LCDC bit 4 clear, tile 0 lies at 0x1000 and tile 0xFF at 0x0FF0.
    gpu.vram[0x1000] = 0xFF;
    gpu.vram[0x0FF0] = 0xFF;
    gpu.vram[0x0FF1] = 0xFF;
    gpu.vram[0x1800 + 1] = 0xFF;
    draw_line(&mut gpu);
    for x in 0..8 {
        assert_eq!(pixel(&gpu, x, 0), SHADES[1]);
        assert_eq!(pixel(&gpu, 8 + x, 0), SHADES[3]);
        assert_eq!(pixel(&gpu, 16 + x, 0), SHADES[1]);
    }
}

#[test]
fn the_second_tile_map() {
    let mut gpu = at_line(0);
    gpu.lcdc = 0x99;
    gpu.bgp = 0xE4;
    gpu.vram[16] = 0xFF;
    gpu.vram[0x1C00] = 1;
    draw_line(&mut gpu);
    for x in 0..8 {
        assert_eq!(pixel(&gpu, x, 0), SHADES[1]);
        assert_eq!(pixel(&gpu, 8 + x, 0), SHADES[0]);
    }
}

#[test]
fn the_window_covers_the_background() {
    let mut gpu = at_line(10);
    gpu.lcdc = 0xF1;
    gpu.bgp = 0xE4;
    gpu.wx = 87;
    gpu.wy = 10;
    // Tile 1 is all colour 2; the window map at 0x1C00 shows it.
    for row in 0..8 {
        gpu.vram[16 + row * 2 + 1] = 0xFF;
    }
    for i in 0..32 {
        gpu.vram[0x1C00 + i] = 1;
    }
    draw_line(&mut gpu);
    for x in 0..160 {
        let wanted = if x >= 80 { SHADES[2] } else { SHADES[0] };
        assert_eq!(pixel(&gpu, x, 10), wanted);
    }
}

#[test]
fn the_window_starts_at_its_line() {
    let mut gpu = at_line(9);
    gpu.lcdc = 0xF1;
    gpu.bgp = 0xE4;
    gpu.wx = 7;
    gpu.wy = 10;
    for row in 0..8 {
        gpu.vram[16 + row * 2] = 0xFF;
    }
    for i in 0..32 {
        gpu.vram[0x1C00 + i] = 1;
    }
    draw_line(&mut gpu);
    assert_eq!(pixel(&gpu, 0, 9), SHADES[0]);
    gpu.step(80);
    gpu.step(80);
    gpu.step(44);
    assert_eq!(gpu.current_line, 10);
    draw_line(&mut gpu);
    for x in 0..160 {
        assert_eq!(pixel(&gpu, x, 10), SHADES[1]);
    }
}

#[test]
fn a_window_off_the_screen_is_not_drawn() {
    let mut gpu = at_line(10);
    gpu.lcdc = 0xF1;
    gpu.bgp = 0xE4;
    gpu.wx = 167;
    gpu.wy = 0;
    for i in 0..16 {
        gpu.vram[16 + i] = 0xFF;
    }
    for i in 0..0x400 {
        gpu.vram[0x1C00 + i] = 1;
    }
    draw_line(&mut gpu);
    for x in 0..160 {
        assert_eq!(pixel(&gpu, x, 10), SHADES[0]);
    }
    // At WX 166 the window shows in the last column.
    let mut gpu = at_line(10);
    gpu.lcdc = 0xF1;
    gpu.bgp = 0xE4;
    gpu.wx = 166;
    for i in 0..16 {
        gpu.vram[16 + i] = 0xFF;
    }
    for i in 0..0x400 {
        gpu.vram[0x1C00 + i] = 1;
    }
    draw_line(&mut gpu);
    assert_eq!(pixel(&gpu, 158, 10), SHADES[0]);
    assert_eq!(pixel(&gpu, 159, 10), SHADES[3]);
}

/// A picture processor with sprites enabled and the background off, at
/// the start of line `line`. Tile 2 holds the colours 1 2 3 0 0 3 2 1 in
/// every row.
fn with_sprites(line: u8) -> GPU {
    let mut gpu = at_line(line);
    gpu.lcdc = 0x82;
    gpu.obp0 = 0xE4;
    gpu.obp1 = 0x1B;
    for row in 0..8 {
        gpu.vram[32 + row * 2] = 0b1010_0101;
        gpu.vram[32 + row * 2 + 1] = 0b0110_0110;
    }
    gpu
}

fn put_sprite(gpu: &mut GPU, index: usize, y: u8, x: u8, tile: u8, attributes: u8) {
    gpu.oam[index * 4] = y;
    gpu.oam[index * 4 + 1] = x;
    gpu.oam[index * 4 + 2] = tile;
    gpu.oam[index * 4 + 3] = attributes;
}

#[test]
fn a_sprite_is_drawn_at_its_place() {
    let mut gpu = with_sprites(20);
    put_sprite(&mut gpu, 0, 16 + 20, 8 + 40, 2, 0x00);
    draw_line(&mut gpu);
    let colours = [1, 2, 3, 0, 0, 3, 2, 1];
    for (i, colour) in colours.iter().enumerate() {
        assert_eq!(pixel(&gpu, 40 + i, 20), SHADES[*colour]);
    }
    assert_eq!(pixel(&gpu, 39, 20), SHADES[0]);
    assert_eq!(pixel(&gpu, 48, 20), SHADES[0]);
}

#[test]
fn a_sprite_covers_eight_lines() {
    for (line, shown) in [(19u8, false), (20, true), (27, true), (28, false)] {
        let mut gpu = with_sprites(line);
        put_sprite(&mut gpu, 0, 16 + 20, 8 + 40, 2, 0x00);
        draw_line(&mut gpu);
        let wanted = if shown { SHADES[1] } else { SHADES[0] };
        assert_eq!(pixel(&gpu, 40, line as usize), wanted);
    }
}

#[test]
fn a_sprite_can_be_flipped() {
    let mut gpu = with_sprites(20);
    // Row 0 of tile 3 is colour 1, row 7 is colour 3.
    gpu.vram[48] = 0xFF;
    gpu.vram[48 + 14] = 0xFF;
    gpu.vram[48 + 15] = 0xFF;
    put_sprite(&mut gpu, 0, 16 + 20, 8, 2, 0x20);
    put_sprite(&mut gpu, 1, 16 + 20, 8 + 40, 3, 0x40);
    put_sprite(&mut gpu, 2, 16 + 20, 8 + 80, 3, 0x00);
    draw_line(&mut gpu);
    // Flipped in x, the colours 1 2 3 0 0 3 2 1 read the same.
    let colours = [1, 2, 3, 0, 0, 3, 2, 1];
    for (i, colour) in colours.iter().enumerate() {
        assert_eq!(pixel(&gpu, i, 20), SHADES[colours[7 - i]]);
        assert_eq!(pixel(&gpu, i, 20), SHADES[*colour]);
    }
    assert_eq!(pixel(&gpu, 40, 20), SHADES[3]);
    assert_eq!(pixel(&gpu, 80, 20), SHADES[1]);
}

#[test]
fn x_flip_mirrors_the_row() {
    let mut gpu = with_sprites(0);
    // Tile 4, row 0: the colours 1 0 0 0 0 0 0 3.
    gpu.vram[64] = 0b1000_0001;
    gpu.vram[65] = 0b0000_0001;
    put_sprite(&mut gpu, 0, 16, 8, 4, 0x00);
    put_sprite(&mut gpu, 1, 16, 8 + 20, 4, 0x20);
    draw_line(&mut gpu);
    assert_eq!(pixel(&gpu, 0, 0), SHADES[1]);
    assert_eq!(pixel(&gpu, 7, 0), SHADES[3]);
    assert_eq!(pixel(&gpu, 20, 0), SHADES[3]);
    assert_eq!(pixel(&gpu, 27, 0), SHADES[1]);
}

#[test]
fn the_second_sprite_palette() {
    let mut gpu = with_sprites(20);
    put_sprite(&mut gpu, 0, 16 + 20, 8 + 40, 2, 0x10);
    draw_line(&mut gpu);
    // With OBP1 = 0x1B colour 1 is shade 2, colour 2 shade 1, colour 3 shade 0.
    assert_eq!(pixel(&gpu, 40, 20), SHADES[2]);
    assert_eq!(pixel(&gpu, 41, 20), SHADES[1]);
    assert_eq!(pixel(&gpu, 42, 20), SHADES[0]);
}

#[test]
fn a_sprite_behind_the_background_shows_only_over_shade_zero() {
    let mut gpu = with_sprites(0);
    gpu.lcdc = 0x93;
    gpu.bgp = 0xE4;
    // The background: tile 0 is blank and tile 1 is all colour 1; the second
    // tile of the first map row is tile 1.
    for row in 0..8 {
        gpu.vram[16 + row * 2] = 0xFF;
    }
    gpu.vram[0x1800 + 1] = 1;
    gpu.obp0 = 0xFF;
    put_sprite(&mut gpu, 0, 16, 8 + 4, 2, 0x80);
    draw_line(&mut gpu);
    // The sprite covers the columns 4 to 11; its colours are 1 2 3 0 0 3 2 1.
    // Over the blank tile it shows, over tile 1 it is hidden.
    assert_eq!(pixel(&gpu, 4, 0), SHADES[3]);
    assert_eq!(pixel(&gpu, 6, 0), SHADES[3]);
    assert_eq!(pixel(&gpu, 7, 0), SHADES[0]);
    assert_eq!(pixel(&gpu, 8, 0), SHADES[1]);
    assert_eq!(pixel(&gpu, 9, 0), SHADES[1]);
    assert_eq!(pixel(&gpu, 11, 0), SHADES[1]);
    // Without the attribute it lies on top.
    let mut gpu = with_sprites(0);
    gpu.lcdc = 0x93;
    gpu.bgp = 0xE4;
    for row in 0..8 {
        gpu.vram[16 + row * 2] = 0xFF;
    }
    gpu.vram[0x1800 + 1] = 1;
    gpu.obp0 = 0xFF;
    put_sprite(&mut gpu, 0, 16, 8 + 4, 2, 0x00);
    draw_line(&mut gpu);
    assert_eq!(pixel(&gpu, 9, 0), SHADES[3]);
    assert_eq!(pixel(&gpu, 8, 0), SHADES[1]);
}

#[test]
fn tall_sprites_use_two_tiles() {
    let mut gpu = with_sprites(28);
    gpu.lcdc = 0x86;
    // Tile 3, which is the lower half of the tall sprite 2: all colour 3.
    for row in 0..8 {
        gpu.vram[48 + row * 2] = 0xFF;
        gpu.vram[48 + row * 2 + 1] = 0xFF;
    }
    // The low bit of the tile number is dropped.
    put_sprite(&mut gpu, 0, 16 + 20, 8 + 40, 3, 0x00);
    draw_line(&mut gpu);
    assert_eq!(pixel(&gpu, 40, 28), SHADES[3]);
    assert_eq!(pixel(&gpu, 43, 28), SHADES[3]);
    let mut gpu = with_sprites(27);
    gpu.lcdc = 0x86;
    put_sprite(&mut gpu, 0, 16 + 20, 8 + 40, 3, 0x00);
    draw_line(&mut gpu);
    assert_eq!(pixel(&gpu, 40, 27), SHADES[1]);
    assert_eq!(pixel(&gpu, 43, 27), SHADES[0]);
}

#[test]
fn only_ten_sprites_are_drawn_on_a_line() {
    let mut gpu = with_sprites(20);
    for i in 0..12 {
        put_sprite(&mut gpu, i, 16 + 20, 8 + 10 * i as u8, 2, 0x00);
    }
    draw_line(&mut gpu);
    for i in 0..10 {
        assert_eq!(pixel(&gpu, 10 * i, 20), SHADES[1]);
    }
    assert_eq!(pixel(&gpu, 100, 20), SHADES[0]);
    assert_eq!(pixel(&gpu, 110, 20), SHADES[0]);
}

#[test]
fn sprites_partly_off_the_screen() {
    let mut gpu = with_sprites(0);
    put_sprite(&mut gpu, 0, 16, 4, 2, 0x00);
    put_sprite(&mut gpu, 1, 16, 164, 2, 0x00);
    put_sprite(&mut gpu, 2, 16, 0, 2, 0x00);
    put_sprite(&mut gpu, 3, 16, 168, 2, 0x00);
    draw_line(&mut gpu);
    // The colours are 1 2 3 0 0 3 2 1; the first sprite starts at column -4.
    assert_eq!(pixel(&gpu, 0, 0), SHADES[0]);
    assert_eq!(pixel(&gpu, 1, 0), SHADES[3]);
    assert_eq!(pixel(&gpu, 2, 0), SHADES[2]);
    assert_eq!(pixel(&gpu, 3, 0), SHADES[1]);
    assert_eq!(pixel(&gpu, 4, 0), SHADES[0]);
    // The second starts at column 156.
    assert_eq!(pixel(&gpu, 156, 0), SHADES[1]);
    assert_eq!(pixel(&gpu, 157, 0), SHADES[2]);
    assert_eq!(pixel(&gpu, 158, 0), SHADES[3]);
    assert_eq!(pixel(&gpu, 159, 0), SHADES[0]);
}

#[test]
fn nothing_is_drawn_with_everything_switched_off() {
    let mut gpu = at_line(0);
    gpu.lcdc = 0x80;
    gpu.vram[0] = 0xFF;
    put_sprite(&mut gpu, 0, 16, 8, 0, 0);
    draw_line(&mut gpu);
    for x in 0..160 {
        assert_eq!(pixel(&gpu, x, 0), SHADES[0]);
    }
}
