use emulator::gpu::{Mode, GPU, LCDC_REG, LCD_STATUS_REG};
use emulator::ram::RAM;

// Helper function to create a GPU with specific initial state
fn create_gpu_with_state(mode: Mode, current_scanline: u8, clock: u32, ram: &mut RAM) -> GPU<'_> {
    let mut gpu = GPU::new(ram);
    gpu.mode = mode;
    gpu.set_current_scanline(current_scanline);
    gpu.clock = clock;
    gpu
}

// Helper function to write a tile to VRAM
fn write_tile(gpu: &mut GPU, tile_number: u8, tile_data: &[u8; 16]) {
    let base_addr = 0x8000 + (tile_number as u16 * 16);
    for (i, &byte) in tile_data.iter().enumerate() {
        gpu.write_vram(base_addr + i as u16, byte);
    }
}

// Helper function to write a sprite to OAM
fn write_sprite(gpu: &mut GPU, sprite_index: usize, y: u8, x: u8, tile_number: u8, attributes: u8) {
    let base_addr = 0xFE00 + (sprite_index * 4) as u16;
    gpu.write_oam(base_addr, y);
    gpu.write_oam(base_addr + 1, x);
    gpu.write_oam(base_addr + 2, tile_number);
    gpu.write_oam(base_addr + 3, attributes);
}

fn lcdc(bg_enable: bool, obj_enable: bool) -> LCDC_REG {
    LCDC_REG {
        bg_enable,
        obj_enable,
        obj_size: false,
        bg_tile_map_display_select: false,
        bg_tile_data_select: true,
        window_enable: false,
        window_tile_map_display_select: false,
    }
}

#[test]
fn test_mode_transitions() {
    let mut ram = RAM::new();
    let mut gpu = create_gpu_with_state(Mode::OAM, 0, 0, &mut ram);

    // Test OAM -> VRAM transition
    gpu.step(80);
    assert_eq!(gpu.mode, Mode::VRAM, "Should transition to VRAM mode");
    assert_eq!(gpu.clock, 0, "Clock should reset");

    // Test VRAM -> HBLANK transition
    gpu.step(172);
    assert_eq!(gpu.mode, Mode::HBLANK, "Should transition to HBLANK mode");
    assert_eq!(gpu.clock, 0, "Clock should reset");

    // Test HBLANK -> OAM transition (for next scanline)
    gpu.step(204);
    assert_eq!(gpu.get_current_scanline(), 1, "Scanline should increment");
    assert_eq!(gpu.mode, Mode::OAM, "Should transition back to OAM mode");
    assert_eq!(gpu.clock, 0, "Clock should reset");
}

#[test]
fn test_vblank_transition() {
    let mut ram = RAM::new();
    let mut gpu = create_gpu_with_state(Mode::HBLANK, 153, 0, &mut ram);

    // Trigger VBLANK
    gpu.step(204);
    assert_eq!(gpu.mode, Mode::VBLANK, "Should transition to VBLANK mode");
    assert_eq!(gpu.get_current_scanline(), 154, "Should be at first VBLANK scanline");

    // Test VBLANK duration
    gpu.step(4560);
    assert_eq!(gpu.mode, Mode::OAM, "Should transition back to OAM mode");
    assert_eq!(gpu.get_current_scanline(), 0, "Should reset scanline counter");
}

#[test]
fn test_tile_rendering() {
    let mut ram = RAM::new();
    let mut gpu = create_gpu_with_state(Mode::HBLANK, 0, 0, &mut ram);

    // Create a simple tile pattern (checkerboard)
    let tile_data = [
        0x55, 0x55, // 01010101, 01010101
        0x55, 0x55, // 01010101, 01010101
        0x55, 0xAA, // 01010101, 10101010
        0x55, 0xAA, // 01010101, 10101010
        0x55, 0xAA, // 01010101, 10101010
        0x55, 0xAA, // 01010101, 10101010
        0x55, 0xAA, // 01010101, 10101010
        0x55, 0xAA, // 01010101, 10101010
    ];

    write_tile(&mut gpu, 0, &tile_data);

    // Set up tile map
    for i in 0..20 {
        gpu.write_vram(0x9C00 + i as u16, 0); // Place tile 0 at (0,0)
    }

    // Enable background rendering
    let lcdc = LCDC_REG {
        bg_enable: true,
        obj_enable: false,
        obj_size: false,
        bg_tile_map_display_select: false,
        bg_tile_data_select: true,
        window_enable: false,
        window_tile_map_display_select: false,
    };
    gpu.set_lcdc(lcdc.into());

    gpu.render_scanline();

    // Check rendered pixels
    for x in 0..8 {
        let pixel_index = x * 4;
        let expected_color = if x % 2 == 0 {
            [0xFF, 0xFF, 0xFF, 0xFF] // White
        } else {
            [0x00, 0x00, 0x00, 0xFF] // Black
        };
        assert_eq!(
            &gpu.screen_buffer[pixel_index..pixel_index + 4],
            &expected_color,
            "Pixel index {:?} at x={} has wrong color",
            pixel_index, x
        );
    }
}

#[test]
fn test_sprite_rendering() {
    let mut ram = RAM::new();
    let mut gpu = create_gpu_with_state(Mode::HBLANK, 0, 0, &mut ram);

    // Create a simple sprite pattern
    let sprite_data = [
        0x3C, 0x3C, // 00111100, 00111100
        0xFF, 0xFF, // 11111111, 11111111
        0xFF, 0xFF, // 11111111, 11111111
        0x76, 0x34, // 01110110, 00110100
        0x00, 0x00, // 00000000, 00000000
        0x00, 0x00, // 00000000, 00000000
        0x00, 0x00, // 00000000, 00000000
        0x00, 0x00, // 00000000, 00000000
    ];

    write_tile(&mut gpu, 0, &sprite_data);

    // Set up sprite in OAM
    write_sprite(&mut gpu, 0, 16, 8, 0, 0); // Y=16, X=8, Tile=0, Attributes=0

    // Enable sprite rendering
    let lcdc = LCDC_REG {
        bg_enable: false,
        obj_enable: true,
        obj_size: false,
        bg_tile_map_display_select: false,
        bg_tile_data_select: true,
        window_enable: false,
        window_tile_map_display_select: false,
    };
    gpu.set_lcdc(lcdc.into());

    gpu.render_scanline();

    // Check rendered sprite pixels
    for x in 0..8 {
        let pixel_index = ((x) * 4) as usize;
        let expected_color = if x < 2 || x > 5 {
            [0x00, 0x00, 0x00, 0x00] // Transparent
        } else {
            [0x00, 0x00, 0x00, 0xFF] // Black
        };
        println!("check x {:?}", x);
        println!("check screen buffer {:?} {:?} {:?} {:?}", gpu.screen_buffer[pixel_index], gpu.screen_buffer[pixel_index + 1], gpu.screen_buffer[pixel_index + 2], gpu.screen_buffer[pixel_index + 3]);
        assert_eq!(
            &gpu.screen_buffer[pixel_index..pixel_index + 4],
            &expected_color,
            "Sprite pixel at x={} has wrong color, pixel index {}",
            x, pixel_index
        );
    }
}

#[test]
fn test_sprite_priority() {
    let mut ram: RAM = RAM::new();
    let mut gpu = create_gpu_with_state(Mode::HBLANK, 0, 0, &mut ram);

    // Create two tiles: one for background, one for sprite
    let bg_tile = [0x00, 0xFF, 0x00, 0xFF, 0x00, 0xFF, 0x00, 0xFF, 0x00, 0xFF, 0x00, 0xFF, 0x00, 0xFF, 0x00, 0xFF]; // Dark grey
    let sprite_tile = [0xFF; 16]; // Solid black

    write_tile(&mut gpu, 0, &bg_tile);
    write_tile(&mut gpu, 1, &sprite_tile);
    gpu.write_vram(0x9800, 0);

    // Set up two sprites at the same position
    write_sprite(&mut gpu, 0, 16, 8, 1, 0x80); // Priority: below background
    write_sprite(&mut gpu, 1, 16, 8, 1, 0x00); // Priority: above background

    let lcdc = LCDC_REG {
        bg_enable: true,
        obj_enable: true,
        obj_size: false,
        bg_tile_map_display_select: false,
        bg_tile_data_select: true,
        window_enable: false,
        window_tile_map_display_select: false,
    };
    gpu.set_lcdc(lcdc.into());

    gpu.render_scanline();

    // Check that sprite with higher priority (0x00) is visible
    let pixel_index = (7 * 4) as usize;
    assert_eq!(
        &gpu.screen_buffer[pixel_index..pixel_index + 4],
        &[0x00, 0x00, 0x00, 0xFF], // Black (sprite color)
        "Higher priority sprite should be visible"
    );
}

#[test]
fn test_sprite_flipping() {
    let mut ram = RAM::new();
    let mut gpu = create_gpu_with_state(Mode::HBLANK, 0, 0, &mut ram);

    let sprite_data = [
        0xF0, 0x0F, // 11110000, 00001111 flipped -> 00001111, 11110000
        0x24, 0x18, // 00100100, 00011000
        0x18, 0x24, // 00011000, 00100100
        0x42, 0x81, // 01000010, 10000001
        0x00, 0x00, // 00000000, 00000000
        0x00, 0x00, // 00000000, 00000000
        0x00, 0x00, // 00000000, 00000000
        0x00, 0x00, // 00000000, 00000000
    ];

    write_tile(&mut gpu, 0, &sprite_data);

    // Set up sprite with X flip
    write_sprite(&mut gpu, 0, 16, 8, 0, 0x20); // X flip enabled

    let lcdc = LCDC_REG {
        bg_enable: false,
        obj_enable: true,
        obj_size: false,
        bg_tile_map_display_select: false,
        bg_tile_data_select: true,
        window_enable: false,
        window_tile_map_display_select: false,
    };
    gpu.set_lcdc(lcdc.into());

    gpu.render_scanline();

    // Check that sprite is flipped horizontally
    for x in 0..8 {
        let pixel_index = ((x) * 4) as usize;
        let expected_color = if x < 4 {
            [0x77, 0x77, 0x77, 0xFF] // Dark gray
        } else {
            [0xCC, 0xCC, 0xCC, 0xFF] // Light gray
        };
        assert_eq!(
            &gpu.screen_buffer[pixel_index..pixel_index + 4],
            &expected_color,
            "Flipped sprite pixel at x={} has wrong color",
            x
        );
    }
}

#[test]
fn test_vram_access_restrictions() {
    let mut ram = RAM::new();
    let mut gpu = create_gpu_with_state(Mode::OAM, 0, 0, &mut ram);

    // Try to write to VRAM during OAM mode
    gpu.write_vram(0x8000, 0x42);
    assert_eq!(gpu.read_vram(0x8000), 0xFF, "VRAM should be inaccessible during OAM mode");

    // Switch to HBLANK mode
    gpu.mode = Mode::HBLANK;

    // Try to write to VRAM during HBLANK
    gpu.write_vram(0x8000, 0x42);
    assert_eq!(gpu.read_vram(0x8000), 0x42, "VRAM should be accessible during HBLANK");
}

#[test]
fn test_oam_access_restrictions() {
    let mut ram = RAM::new();
    let mut gpu = create_gpu_with_state(Mode::VRAM, 0, 0, &mut ram);

    // Try to write to OAM during VRAM mode
    gpu.write_oam(0xFE00, 0x42);
    assert_eq!(gpu.read_oam(0xFE00), 0xFF, "OAM should be inaccessible during VRAM mode");

    // Switch to HBLANK mode
    gpu.mode = Mode::HBLANK;

    // Try to write to OAM during HBLANK
    gpu.write_oam(0xFE00, 0x42);
    assert_eq!(gpu.read_oam(0xFE00), 0x42, "OAM should be accessible during HBLANK");
}

#[test]
fn test_lcd_status_register() {
    let mut ram = RAM::new();
    let mut gpu = create_gpu_with_state(Mode::OAM, 0, 0, &mut ram);

    // Test mode bits
    let status = gpu.get_lcd_status();
    assert_eq!(status.mode as u8, Mode::OAM as u8, "LCD status mode should match current mode");

    // Test LY compare
    gpu.ram.write(0xFF45, 0x42); // Set LYC to 0x42
    gpu.set_current_scanline(0x42);
    gpu.step(1);
    let status = gpu.get_lcd_status();
    assert!(status.ly_compare, "LY compare flag should be set when LY equals LYC");

    // Test mode interrupts
    let status = LCD_STATUS_REG {
        mode: Mode::OAM,
        ly_compare: false,
        mode_0_set: true,
        mode_1_set: false,
        mode_2_set: false,
        lyc_int_select: false,
        empty_1: false,
    };
    gpu.set_lcd_status(status.into());
    let new_status = gpu.get_lcd_status();
    assert!(new_status.mode_0_set, "Mode 0 interrupt should be enabled");
}

// ---- further cases ----

#[test]
fn vblank_entry_raises_request() {
    let mut ram = RAM::new();
    let mut gpu = create_gpu_with_state(Mode::HBLANK, 143, 0, &mut ram);
    gpu.ram.write(0xFF0F, 0x04);
    gpu.step(204);
    assert_eq!(gpu.mode, Mode::VBLANK);
    assert_eq!(gpu.get_current_scanline(), 144);
    assert_eq!(gpu.ram.read(0xFF0F), 0x05);
    assert_eq!(gpu.ram.read(0xFF44), 144);
    assert_eq!(gpu.ram.read(0xFF41) & 0x03, 1);
}

#[test]
fn overshoot_is_not_carried_over() {
    let mut ram = RAM::new();
    let mut gpu = create_gpu_with_state(Mode::OAM, 0, 0, &mut ram);
    gpu.step(300);
    assert_eq!(gpu.mode, Mode::VRAM);
    assert_eq!(gpu.clock, 0);
    gpu.step(171);
    assert_eq!(gpu.mode, Mode::VRAM);
    assert_eq!(gpu.clock, 171);
}

#[test]
fn dropped_write_keeps_previous_value() {
    let mut ram = RAM::new();
    let mut gpu = create_gpu_with_state(Mode::HBLANK, 0, 0, &mut ram);
    gpu.write_vram(0x8100, 0x11);
    gpu.mode = Mode::VRAM;
    gpu.write_vram(0x8100, 0x22);
    gpu.mode = Mode::HBLANK;
    assert_eq!(gpu.read_vram(0x8100), 0x11);
}

#[test]
fn disabled_layers_leave_row_unchanged() {
    let mut ram = RAM::new();
    let mut gpu = create_gpu_with_state(Mode::HBLANK, 5, 0, &mut ram);
    let sprite_tile = [0xFF; 16];
    write_tile(&mut gpu, 1, &sprite_tile);
    write_sprite(&mut gpu, 0, 16 + 5, 8, 1, 0);
    for i in 0..gpu.screen_buffer.len() {
        gpu.screen_buffer[i] = (i % 251) as u8;
    }
    let before = gpu.screen_buffer.clone();
    gpu.set_lcdc(lcdc(false, false).into());
    gpu.render_scanline();
    assert_eq!(gpu.screen_buffer, before);
}

#[test]
fn at_most_ten_sprites_with_lowest_x() {
    let mut ram = RAM::new();
    let mut gpu = create_gpu_with_state(Mode::HBLANK, 0, 0, &mut ram);
    let sprite_tile = [0xFF; 16];
    write_tile(&mut gpu, 1, &sprite_tile);
    // Entries 0..10 sit eight columns apart, entry 0 rightmost (X=80) and
    // entry 9 leftmost (X=8); entry 10 shares X=8 and entry 11 is far right.
    for i in 0..10 {
        write_sprite(&mut gpu, i, 16, (8 + 8 * (9 - i)) as u8, 1, 0);
    }
    write_sprite(&mut gpu, 10, 16, 8, 1, 0);
    write_sprite(&mut gpu, 11, 16, 150, 1, 0);
    gpu.set_lcdc(lcdc(false, true).into());
    gpu.render_scanline();
    // By X then table order: 9, 10, 8, 7, ..., 1 are the first ten drawn.
    for x in 0..72 {
        assert_eq!(gpu.screen_buffer[x * 4 + 3], 0xFF, "column {} should be drawn", x);
    }
    // Entry 0 (columns 72..80) and entry 11 (column 142) come after them.
    for x in 72..80 {
        assert_eq!(gpu.screen_buffer[x * 4 + 3], 0x00, "column {} should be empty", x);
    }
    assert_eq!(gpu.screen_buffer[142 * 4 + 3], 0x00);
}

#[test]
fn signed_tile_addressing() {
    let mut ram = RAM::new();
    let mut gpu = create_gpu_with_state(Mode::HBLANK, 0, 0, &mut ram);
    // With signed addressing, tile number 0 lives at 0x9000.
    for i in 0..16u16 {
        gpu.write_vram(0x9000 + i, 0xFF);
    }
    let mut control = lcdc(true, false);
    control.bg_tile_data_select = false;
    gpu.set_lcdc(control.into());
    gpu.render_scanline();
    assert_eq!(&gpu.screen_buffer[0..4], &[0x00, 0x00, 0x00, 0xFF]);
}

#[test]
fn background_writes_its_own_row() {
    let mut ram = RAM::new();
    let mut gpu = create_gpu_with_state(Mode::HBLANK, 1, 0, &mut ram);
    gpu.set_lcdc(lcdc(true, false).into());
    gpu.render_scanline();
    assert_eq!(&gpu.screen_buffer[0..4], &[0, 0, 0, 0]);
    assert_eq!(&gpu.screen_buffer[640..644], &[0xFF, 0xFF, 0xFF, 0xFF]);
    assert_eq!(&gpu.screen_buffer[640 + 159 * 4..640 + 160 * 4], &[0xFF, 0xFF, 0xFF, 0xFF]);
    assert_eq!(&gpu.screen_buffer[1280..1284], &[0, 0, 0, 0]);
}

#[test]
fn register_conversions() {
    let control = LCDC_REG::from(0x13);
    assert!(control.bg_enable && control.obj_enable && !control.obj_size && control.bg_tile_data_select);
    assert_eq!(u8::from(control), 0x13);
    let status = LCD_STATUS_REG::from(0xCB);
    assert_eq!(status.mode, Mode::VRAM);
    assert!(status.mode_0_set && status.lyc_int_select && !status.ly_compare);
    assert_eq!(u8::from(status), 0x4B);
}

#[test]
fn new_sets_status_to_oam_search() {
    let mut ram = RAM::new();
    let gpu = GPU::new(&mut ram);
    assert_eq!(gpu.get_mode(), 2);
    assert_eq!(gpu.ram.read(0xFF41), 2);
    assert_eq!(gpu.screen_buffer.len(), 160 * 144 * 4);
}

#[test]
fn tall_sprite_with_vertical_flip() {
    let mut ram = RAM::new();
    let mut gpu = create_gpu_with_state(Mode::HBLANK, 0, 0, &mut ram);
    // Tiles 2 and 3 form one 8x16 object; only its last row (row 15) is set.
    gpu.write_vram(0x8000 + 3 * 16 + 14, 0xFF);
    write_sprite(&mut gpu, 0, 16, 8, 2, 0x40); // vertical flip: row 0 shows row 15
    let mut control = lcdc(false, true);
    control.obj_size = true;
    gpu.set_lcdc(control.into());
    gpu.render_scanline();
    assert_eq!(&gpu.screen_buffer[0..4], &[0xCC, 0xCC, 0xCC, 0xFF]);
    assert_eq!(&gpu.screen_buffer[7 * 4..8 * 4], &[0xCC, 0xCC, 0xCC, 0xFF]);
    assert_eq!(&gpu.screen_buffer[8 * 4..9 * 4], &[0, 0, 0, 0]);
}

#[test]
fn sprite_partly_off_the_left_edge() {
    let mut ram = RAM::new();
    let mut gpu = create_gpu_with_state(Mode::HBLANK, 0, 0, &mut ram);
    let sprite_tile = [0xFF; 16];
    write_tile(&mut gpu, 1, &sprite_tile);
    write_sprite(&mut gpu, 0, 16, 3, 1, 0); // columns -5..3
    gpu.set_lcdc(lcdc(false, true).into());
    gpu.render_scanline();
    for x in 0..3 {
        assert_eq!(gpu.screen_buffer[x * 4], 0x00, "column {} should be drawn", x);
        assert_eq!(gpu.screen_buffer[x * 4 + 3], 0xFF);
    }
    assert_eq!(gpu.screen_buffer[3 * 4 + 3], 0x00);
}
