use vstd::prelude::*;
use crate::ppu::{
    PpuState, bg_color, bg_pass, color_index, draw_all, draw_sprite, in_row, insert_pos, lcdc, on_line, oam_read,
    pixel_byte, ppu_step_spec, render_spec, row_start, selection, set_mode_spec, sprite_byte, sprite_color,
    sprite_height, status_spec, visible_upto, vram_read,
};
use crate::ram::{RAM, INTERRUPT_FLAGS_ADDRESS};

verus! {

pub const VRAM_SIZE: usize = 0x2000;
pub const VRAM_ADDRESS: u16 = 0x8000;
pub const OAM_SIZE: usize = 0xA0;
pub const OAM_ADDRESS: u16 = 0xFE00;

pub const LCDC_ADDRESS: u16 = 0xFF40;
pub const LCD_STATUS_ADDRESS: u16 = 0xFF41;
pub const LY_ADDRESS: u16 = 0xFF44;
pub const LYC_ADDRESS: u16 = 0xFF45;

pub const CYCLES_OAM: u32 = 80;
pub const CYCLES_VRAM: u32 = 172;
pub const CYCLES_HBLANK: u32 = 204;
pub const CYCLES_VBLANK: u32 = 4560;
pub const SCANLINES_DISPLAY: u8 = 144;
pub const MAX_SCANLINES: u8 = 154;
pub const SCANLINE_SIZE: u8 = 160;

/// Bytes in one framebuffer row: 160 RGBA pixels.
pub const ROW_BYTES: usize = 640;
/// Bytes in the framebuffer: 144 rows.
pub const SCREEN_BYTES: usize = 92160;

/// The PPU's mode, in the order of the two-bit code the status register holds.
#[derive(Debug, Clone, Copy, PartialEq, Eq, Structural)]
pub enum Mode {
    HBLANK,
    VBLANK,
    OAM,
    VRAM,
}

impl Mode {
    pub open spec fn code(self) -> u8 {
        match self {
            Mode::HBLANK => 0,
            Mode::VBLANK => 1,
            Mode::OAM => 2,
            Mode::VRAM => 3,
        }
    }

    /// The two-bit code of the mode.
    pub fn bits(self) -> (r: u8)
        ensures
            r == self.code(),
    {
        match self {
            Mode::HBLANK => 0,
            Mode::VBLANK => 1,
            Mode::OAM => 2,
            Mode::VRAM => 3,
        }
    }

    /// Whether video RAM and object attribute memory are open to access.
    pub open spec fn accessible(self) -> bool {
        self is HBLANK || self is VBLANK
    }
}

/// The LCD-control register, bit by bit (bit 7, display enable, is not modelled).
pub struct LCDC_REG {
    pub bg_enable: bool,
    pub obj_enable: bool,
    pub obj_size: bool,
    pub bg_tile_map_display_select: bool,
    pub bg_tile_data_select: bool,
    pub window_enable: bool,
    pub window_tile_map_display_select: bool,
}

pub open spec fn b2i(b: bool) -> int {
    if b { 1 } else { 0 }
}

impl LCDC_REG {
    pub open spec fn from_byte(v: u8) -> LCDC_REG {
        LCDC_REG {
            bg_enable: v % 2 == 1,
            obj_enable: (v / 2) % 2 == 1,
            obj_size: (v / 4) % 2 == 1,
            bg_tile_map_display_select: (v / 8) % 2 == 1,
            bg_tile_data_select: (v / 16) % 2 == 1,
            window_enable: (v / 32) % 2 == 1,
            window_tile_map_display_select: (v / 64) % 2 == 1,
        }
    }

    pub open spec fn to_byte(self) -> u8 {
        (b2i(self.bg_enable) + 2 * b2i(self.obj_enable) + 4 * b2i(self.obj_size) + 8 * b2i(
            self.bg_tile_map_display_select,
        ) + 16 * b2i(self.bg_tile_data_select) + 32 * b2i(self.window_enable) + 64 * b2i(
            self.window_tile_map_display_select,
        )) as u8
    }
}

impl From<u8> for LCDC_REG {
    fn from(value: u8) -> (r: LCDC_REG) {
        LCDC_REG {
            bg_enable: value % 2 == 1,
            obj_enable: (value / 2) % 2 == 1,
            obj_size: (value / 4) % 2 == 1,
            bg_tile_map_display_select: (value / 8) % 2 == 1,
            bg_tile_data_select: (value / 16) % 2 == 1,
            window_enable: (value / 32) % 2 == 1,
            window_tile_map_display_select: (value / 64) % 2 == 1,
        }
    }
}

impl vstd::std_specs::convert::FromSpecImpl<u8> for LCDC_REG {
    open spec fn obeys_from_spec() -> bool {
        true
    }

    open spec fn from_spec(v: u8) -> LCDC_REG {
        LCDC_REG::from_byte(v)
    }
}

impl From<LCDC_REG> for u8 {
    fn from(lcdc: LCDC_REG) -> (r: u8) {
        let mut value: u8 = 0;
        if lcdc.bg_enable {
            value = value + 1;
        }
        if lcdc.obj_enable {
            value = value + 2;
        }
        if lcdc.obj_size {
            value = value + 4;
        }
        if lcdc.bg_tile_map_display_select {
            value = value + 8;
        }
        if lcdc.bg_tile_data_select {
            value = value + 16;
        }
        if lcdc.window_enable {
            value = value + 32;
        }
        if lcdc.window_tile_map_display_select {
            value = value + 64;
        }
        value
    }
}

impl vstd::std_specs::convert::FromSpecImpl<LCDC_REG> for u8 {
    open spec fn obeys_from_spec() -> bool {
        true
    }

    open spec fn from_spec(v: LCDC_REG) -> u8 {
        v.to_byte()
    }
}

/// The LCD-status register: the mode, the LY-compare result and the
/// interrupt-select bits (bit 7 reads as unset).
pub struct LCD_STATUS_REG {
    pub mode: Mode,
    pub ly_compare: bool,
    pub mode_0_set: bool,
    pub mode_1_set: bool,
    pub mode_2_set: bool,
    pub lyc_int_select: bool,
    pub empty_1: bool,
}

/// The fields of the LCD-status register.
pub enum LCD_STATUS_MASKS {
    MODE,
    LY_COMPARE,
    MODE_0_SET,
    MODE_1_SET,
    MODE_2_SET,
    LYC_INT_SELECT,
}

impl LCD_STATUS_MASKS {
    /// The bits the field occupies.
    pub fn mask(&self) -> (r: u8)
        ensures
            r == match self {
                LCD_STATUS_MASKS::MODE => 0x03u8,
                LCD_STATUS_MASKS::LY_COMPARE => 0x04u8,
                LCD_STATUS_MASKS::MODE_0_SET => 0x08u8,
                LCD_STATUS_MASKS::MODE_1_SET => 0x10u8,
                LCD_STATUS_MASKS::MODE_2_SET => 0x20u8,
                LCD_STATUS_MASKS::LYC_INT_SELECT => 0x40u8,
            },
    {
        match self {
            LCD_STATUS_MASKS::MODE => 0x03,
            LCD_STATUS_MASKS::LY_COMPARE => 0x04,
            LCD_STATUS_MASKS::MODE_0_SET => 0x08,
            LCD_STATUS_MASKS::MODE_1_SET => 0x10,
            LCD_STATUS_MASKS::MODE_2_SET => 0x20,
            LCD_STATUS_MASKS::LYC_INT_SELECT => 0x40,
        }
    }
}

pub open spec fn mode_of_code(c: int) -> Mode {
    if c == 0 {
        Mode::HBLANK
    } else if c == 1 {
        Mode::VBLANK
    } else if c == 2 {
        Mode::OAM
    } else {
        Mode::VRAM
    }
}

impl LCD_STATUS_REG {
    pub open spec fn from_byte(v: u8) -> LCD_STATUS_REG {
        LCD_STATUS_REG {
            mode: mode_of_code(v as int % 4),
            ly_compare: (v / 4) % 2 == 1,
            mode_0_set: (v / 8) % 2 == 1,
            mode_1_set: (v / 16) % 2 == 1,
            mode_2_set: (v / 32) % 2 == 1,
            lyc_int_select: (v / 64) % 2 == 1,
            empty_1: false,
        }
    }

    pub open spec fn to_byte(self) -> u8 {
        (self.mode.code() + 4 * b2i(self.ly_compare) + 8 * b2i(self.mode_0_set) + 16 * b2i(self.mode_1_set) + 32
            * b2i(self.mode_2_set) + 64 * b2i(self.lyc_int_select)) as u8
    }
}

impl From<u8> for LCD_STATUS_REG {
    fn from(value: u8) -> (r: LCD_STATUS_REG) {
        let code = value % 4;
        let mode = if code == 0 {
            Mode::HBLANK
        } else if code == 1 {
            Mode::VBLANK
        } else if code == 2 {
            Mode::OAM
        } else {
            Mode::VRAM
        };
        LCD_STATUS_REG {
            mode,
            ly_compare: (value / 4) % 2 == 1,
            mode_0_set: (value / 8) % 2 == 1,
            mode_1_set: (value / 16) % 2 == 1,
            mode_2_set: (value / 32) % 2 == 1,
            lyc_int_select: (value / 64) % 2 == 1,
            empty_1: false,
        }
    }
}

impl vstd::std_specs::convert::FromSpecImpl<u8> for LCD_STATUS_REG {
    open spec fn obeys_from_spec() -> bool {
        true
    }

    open spec fn from_spec(v: u8) -> LCD_STATUS_REG {
        LCD_STATUS_REG::from_byte(v)
    }
}

impl From<LCD_STATUS_REG> for u8 {
    fn from(status: LCD_STATUS_REG) -> (r: u8) {
        let mut value: u8 = status.mode.bits();
        if status.ly_compare {
            value = value + 4;
        }
        if status.mode_0_set {
            value = value + 8;
        }
        if status.mode_1_set {
            value = value + 16;
        }
        if status.mode_2_set {
            value = value + 32;
        }
        if status.lyc_int_select {
            value = value + 64;
        }
        value
    }
}

impl vstd::std_specs::convert::FromSpecImpl<LCD_STATUS_REG> for u8 {
    open spec fn obeys_from_spec() -> bool {
        true
    }

    open spec fn from_spec(v: LCD_STATUS_REG) -> u8 {
        v.to_byte()
    }
}

/// Whether a scanline value can stand with a mode: below 154, or 154 just after
/// entering vertical blank.
pub open spec fn scanline_ok(mode: Mode, line: u8) -> bool {
    line < 154 || (mode is VBLANK && line == 154)
}

/// The colour index of bit `bit` of a tile row's two bitplane bytes.
fn color_at(lo: u8, hi: u8, bit: u8) -> (r: u8)
    requires
        bit < 8,
    ensures
        r == color_index(lo, hi, bit as int),
        r < 4,
{
    let d: u8 = match bit {
        0 => 1,
        1 => 2,
        2 => 4,
        3 => 8,
        4 => 16,
        5 => 32,
        6 => 64,
        _ => 128,
    };
    (hi / d) % 2 * 2 + (lo / d) % 2
}

/// The picture-processing unit: mode state machine, video RAM, object
/// attribute memory and framebuffer, working on a borrowed memory.
pub struct GPU<'a> {
    pub ram: &'a mut RAM,
    pub vram: Vec<u8>,
    pub oam: Vec<u8>,
    pub clock: u32,
    pub mode: Mode,
    pub current_scanline: u8,
    /// RGBA bytes, 160 pixels by 144 rows.
    pub screen_buffer: Vec<u8>,
}

impl<'a> GPU<'a> {
    pub open spec fn wf(&self) -> bool {
        &&& self.ram.wf()
        &&& self.vram@.len() == VRAM_SIZE
        &&& self.oam@.len() == OAM_SIZE
        &&& self.screen_buffer@.len() == SCREEN_BYTES
        &&& scanline_ok(self.mode, self.current_scanline)
    }

    pub open spec fn state(&self) -> PpuState {
        PpuState {
            mode: self.mode,
            clock: self.clock,
            line: self.current_scanline,
            mem: self.ram.bytes(),
            vram: self.vram@,
            oam: self.oam@,
            screen: self.screen_buffer@,
        }
    }

    /// Starts in OAM search at scanline 0 with cleared video memories and
    /// framebuffer, and writes the OAM-search mode into the status register.
    pub fn new(ram: &'a mut RAM) -> (r: Self)
        requires
            old(ram).wf(),
        ensures
            r.wf(),
            r.state() == (PpuState {
                mode: Mode::OAM,
                clock: 0,
                line: 0,
                mem: old(ram).bytes().update(LCD_STATUS_ADDRESS as int, 2),
                vram: Seq::new(VRAM_SIZE as nat, |i: int| 0u8),
                oam: Seq::new(OAM_SIZE as nat, |i: int| 0u8),
                screen: Seq::new(SCREEN_BYTES as nat, |i: int| 0u8),
            }),
    {
        let lcd_status = LCD_STATUS_REG {
            mode: Mode::OAM,
            ly_compare: false,
            mode_0_set: false,
            mode_1_set: false,
            mode_2_set: false,
            lyc_int_select: false,
            empty_1: false,
        };
        ram.write(LCD_STATUS_ADDRESS, lcd_status.into());
        let vram = vec![0u8; VRAM_SIZE];
        let oam = vec![0u8; OAM_SIZE];
        let screen_buffer = vec![0u8; SCREEN_BYTES];
        assert(vram@ =~= Seq::new(VRAM_SIZE as nat, |i: int| 0u8));
        assert(oam@ =~= Seq::new(OAM_SIZE as nat, |i: int| 0u8));
        assert(screen_buffer@ =~= Seq::new(SCREEN_BYTES as nat, |i: int| 0u8));
        GPU { ram, vram, oam, clock: 0, mode: Mode::OAM, current_scanline: 0, screen_buffer }
    }

    pub fn set_current_scanline(&mut self, value: u8)
        requires
            old(self).wf(),
            value < 154,
        ensures
            final(self).wf(),
            final(self).state() == (PpuState { line: value, ..old(self).state() }),
    {
        self.current_scanline = value;
    }

    pub fn get_current_scanline(&self) -> (r: u8)
        ensures
            r == self.current_scanline,
    {
        self.current_scanline
    }

    /// Advances by `cycles` elapsed cycles: at most one mode transition, then
    /// LY and the status register are refreshed.
    pub fn step(&mut self, cycles: u32)
        requires
            old(self).wf(),
            old(self).clock + cycles <= u32::MAX,
        ensures
            final(self).wf(),
            final(self).state() == ppu_step_spec(old(self).state(), cycles),
    {
        self.clock = self.clock + cycles;
        self.step_set_mode();
        self.step_lcd_status();
    }

    fn step_set_mode(&mut self)
        requires
            old(self).wf(),
        ensures
            final(self).wf(),
            final(self).state() == set_mode_spec(old(self).state()),
    {
        match self.mode {
            Mode::OAM => {
                if self.clock >= CYCLES_OAM {
                    self.mode = Mode::VRAM;
                    self.clock = 0;
                }
            },
            Mode::VRAM => {
                if self.clock >= CYCLES_VRAM {
                    self.mode = Mode::HBLANK;
                    self.clock = 0;
                }
            },
            Mode::HBLANK => {
                if self.clock >= CYCLES_HBLANK {
                    self.render_scanline();
                    self.current_scanline = self.current_scanline + 1;
                    self.clock = 0;
                    if self.current_scanline >= SCANLINES_DISPLAY {
                        self.mode = Mode::VBLANK;
                        let requested = self.ram.read(INTERRUPT_FLAGS_ADDRESS);
                        self.ram.write(INTERRUPT_FLAGS_ADDRESS, requested | 1);
                    } else {
                        self.mode = Mode::OAM;
                    }
                }
            },
            Mode::VBLANK => {
                if self.clock >= CYCLES_VBLANK {
                    self.current_scanline = self.current_scanline + 1;
                    self.clock = 0;
                    if self.current_scanline >= MAX_SCANLINES {
                        self.mode = Mode::OAM;
                        self.current_scanline = 0;
                    }
                }
            },
        }
    }

    fn step_lcd_status(&mut self)
        requires
            old(self).wf(),
        ensures
            final(self).wf(),
            final(self).state() == status_spec(old(self).state()),
    {
        let mut lcd_status = self.get_lcd_status();
        lcd_status.mode = self.mode;
        self.ram.write(LY_ADDRESS, self.current_scanline);
        lcd_status.ly_compare = self.current_scanline == self.ram.read(LYC_ADDRESS);
        self.ram.write(LCD_STATUS_ADDRESS, lcd_status.into());
    }

    /// Paints a colour index into the four bytes at `index`.
    fn put_pixel(&mut self, index: usize, ci: u8)
        requires
            old(self).wf(),
            index + 4 <= old(self).screen_buffer@.len(),
            ci < 4,
        ensures
            final(self).wf(),
            final(self).state() == (PpuState {
                screen: Seq::new(
                    old(self).screen_buffer@.len(),
                    |j: int| if index <= j < index + 4 { pixel_byte(ci as int, j - index) } else { old(self).screen_buffer@[j] },
                ),
                ..old(self).state()
            }),
    {
        let shade: u8 = match ci {
            0 => 0xFF,
            1 => 0xCC,
            2 => 0x77,
            _ => 0x00,
        };
        self.screen_buffer.set(index, shade);
        self.screen_buffer.set(index + 1, shade);
        self.screen_buffer.set(index + 2, shade);
        self.screen_buffer.set(index + 3, 0xFF);
        assert(self.screen_buffer@ =~= Seq::new(
            old(self).screen_buffer@.len(),
            |j: int| if index <= j < index + 4 { pixel_byte(ci as int, j - index) } else { old(self).screen_buffer@[j] },
        ));
    }

    /// Renders the current scanline into the framebuffer: the background when
    /// enabled, then the objects when enabled. A scanline past the visible
    /// area draws nothing.
    pub fn render_scanline(&mut self)
        requires
            old(self).wf(),
        ensures
            final(self).wf(),
            final(self).state() == (PpuState { screen: render_spec(old(self).state()), ..old(self).state() }),
            !lcdc(old(self).state()).bg_enable && !lcdc(old(self).state()).obj_enable ==> final(self).screen_buffer@
                == old(self).screen_buffer@,
    {
        if self.current_scanline < SCANLINES_DISPLAY {
            let control = self.get_lcdc();
            let ghost s0 = self.state();
            if control.bg_enable {
                self.render_background();
            }
            if control.obj_enable {
                self.render_sprites(Ghost(s0));
            }
        }
    }

    fn render_background(&mut self)
        requires
            old(self).wf(),
            old(self).current_scanline < 144,
        ensures
            final(self).wf(),
            final(self).state() == (PpuState { screen: bg_pass(old(self).state()), ..old(self).state() }),
    {
        let ghost s0 = self.state();
        let control = self.get_lcdc();
        let y = self.current_scanline;
        let tile_map_addr: u16 = if control.bg_tile_map_display_select { 0x9C00 } else { 0x9800 };
        let start: usize = y as usize * ROW_BYTES;
        let mut x: u8 = 0;
        while x < SCANLINE_SIZE
            invariant
                self.wf(),
                x <= 160,
                y == s0.line,
                y < 144,
                start == row_start(s0),
                control == lcdc(s0),
                tile_map_addr == (if lcdc(s0).bg_tile_map_display_select { 0x9C00int } else { 0x9800int }),
                self.state() == (PpuState { screen: self.screen_buffer@, ..s0 }),
                s0.screen.len() == SCREEN_BYTES,
                forall|j: int|
                    0 <= j < SCREEN_BYTES ==> #[trigger] self.screen_buffer@[j] == (if start <= j < start + x * 4 {
                        bg_pass(s0)[j]
                    } else {
                        s0.screen[j]
                    }),
            decreases 160 - x,
        {
            let tile_number = self.read_vram(tile_map_addr + (y / 8) as u16 * 32 + (x / 8) as u16);
            let tile_addr: u16 = if control.bg_tile_data_select {
                0x8000 + tile_number as u16 * 16
            } else {
                0x8800 + ((tile_number as u16 + 128) % 256) * 16
            };
            let row: u16 = (y % 8) as u16 * 2;
            let lo = self.read_vram(tile_addr + row);
            let hi = self.read_vram(tile_addr + row + 1);
            let ci = color_at(lo, hi, 7 - x % 8);
            assert(ci == bg_color(s0, x as int));
            let ghost before = self.screen_buffer@;
            self.put_pixel(start + x as usize * 4, ci);
            assert forall|j: int| 0 <= j < SCREEN_BYTES implies #[trigger] self.screen_buffer@[j] == (if start <= j
                < start + (x + 1) * 4 {
                bg_pass(s0)[j]
            } else {
                s0.screen[j]
            }) by {
                if start + x * 4 <= j < start + x * 4 + 4 {
                    assert((j - start) / 4 == x);
                    assert(in_row(s0, j));
                }
            }
            x = x + 1;
        }
        assert(self.screen_buffer@ =~= bg_pass(s0));
    }

    /// The objects to draw on the current scanline, in drawing order.
    fn select_sprites(&self, Ghost(s0): Ghost<PpuState>) -> (r: Vec<u8>)
        requires
            self.wf(),
            self.state() == (PpuState { screen: self.screen_buffer@, ..s0 }),
        ensures
            r@ == selection(s0),
            forall|k: int| 0 <= k < r@.len() ==> r@[k] < 40 && on_line(s0, r@[k] as int),
    {
        let control = self.get_lcdc();
        let height: u16 = if control.obj_size { 16 } else { 8 };
        let line16: u16 = self.current_scanline as u16 + 16;
        let mut visible: Vec<u8> = Vec::new();
        let mut i: u8 = 0;
        while i < 40
            invariant
                i <= 40,
                self.wf(),
                self.state() == (PpuState { screen: self.screen_buffer@, ..s0 }),
                height == sprite_height(s0),
                line16 == s0.line + 16,
                visible@ == visible_upto(s0, i as nat),
                forall|k: int| 0 <= k < visible@.len() ==> visible@[k] < i && on_line(s0, visible@[k] as int),
            decreases 40 - i,
        {
            let top = self.read_oam(OAM_ADDRESS + i as u16 * 4);
            if top as u16 <= line16 && line16 < top as u16 + height {
                let key = self.read_oam(OAM_ADDRESS + i as u16 * 4 + 1);
                let mut p: usize = 0;
                assert(visible@.subrange(0, visible@.len() as int) =~= visible@);
                while p < visible.len() && self.read_oam(OAM_ADDRESS + visible[p] as u16 * 4 + 1) <= key
                    invariant
                        p <= visible@.len(),
                        i < 40,
                        self.wf(),
                        self.state() == (PpuState { screen: self.screen_buffer@, ..s0 }),
                        key == sprite_byte(s0, i as int, 1),
                        forall|k: int| 0 <= k < visible@.len() ==> visible@[k] < i,
                        insert_pos(s0, visible@, i as int) == p + insert_pos(
                            s0,
                            visible@.subrange(p as int, visible@.len() as int),
                            i as int,
                        ),
                    decreases visible@.len() - p,
                {
                    assert(visible@.subrange(p as int, visible@.len() as int).drop_first() =~= visible@.subrange(
                        p as int + 1,
                        visible@.len() as int,
                    ));
                    p = p + 1;
                }
                assert(visible@ =~= visible@.subrange(0, visible@.len() as int));
                visible.insert(p, i);
            }
            i = i + 1;
        }
        if visible.len() > 10 {
            visible.truncate(10);
        }
        visible
    }

    /// Draws one object over the current row.
    fn draw_sprite(&mut self, sprite_index: u8, Ghost(s0): Ghost<PpuState>)
        requires
            old(self).wf(),
            sprite_index < 40,
            old(self).current_scanline < 144,
            old(self).state() == (PpuState { screen: old(self).screen_buffer@, ..s0 }),
            on_line(s0, sprite_index as int),
        ensures
            final(self).wf(),
            final(self).state() == (PpuState {
                screen: draw_sprite(s0, old(self).screen_buffer@, sprite_index as int),
                ..s0
            }),
    {
        let ghost b0 = self.screen_buffer@;
        let ghost i = sprite_index as int;
        let base = OAM_ADDRESS + sprite_index as u16 * 4;
        let top = self.read_oam(base);
        let left = self.read_oam(base + 1);
        let tile = self.read_oam(base + 2);
        let attributes = self.read_oam(base + 3);
        let control = self.get_lcdc();
        let height: u16 = if control.obj_size { 16 } else { 8 };
        let line = self.current_scanline;
        let behind = attributes >= 128;
        let y_flip = (attributes / 64) % 2 == 1;
        let x_flip = (attributes / 32) % 2 == 1;
        let py0: u16 = line as u16 + 16 - top as u16;
        let py: u16 = if y_flip { height - 1 - py0 } else { py0 };
        let tile_addr: u16 = 0x8000 + tile as u16 * 16 + py * 2;
        let lo = self.read_vram(tile_addr);
        let hi = self.read_vram(tile_addr + 1);
        let start: usize = line as usize * ROW_BYTES;
        assert forall|xx: int|
            0 <= xx < 8 implies color_index(lo, hi, 7 - (if x_flip { 7 - xx } else { xx })) == #[trigger] sprite_color(
            s0,
            i,
            xx + left - 8,
        ) by {
            assert(sprite_byte(s0, i, 0) == top);
            assert(sprite_byte(s0, i, 2) == tile);
            assert(sprite_height(s0) == height);
        }
        let mut x: u8 = 0;
        while x < 8
            invariant
                x <= 8,
                b0.len() == SCREEN_BYTES,
                self.wf(),
                self.state() == (PpuState { screen: self.screen_buffer@, ..s0 }),
                line == s0.line,
                line < 144,
                start == row_start(s0),
                left == sprite_byte(s0, i, 1),
                behind == (sprite_byte(s0, i, 3) >= 128),
                x_flip == ((sprite_byte(s0, i, 3) / 32) % 2 == 1),
                forall|xx: int|
                    0 <= xx < 8 ==> color_index(lo, hi, 7 - (if x_flip { 7 - xx } else { xx }))
                        == #[trigger] sprite_color(s0, i, xx + left - 8),
                forall|j: int|
                    0 <= j < SCREEN_BYTES ==> #[trigger] self.screen_buffer@[j] == (if in_row(s0, j) && 0 <= (j
                        - start) / 4 + 8 - left < x {
                        draw_sprite(s0, b0, i)[j]
                    } else {
                        b0[j]
                    }),
            decreases 8 - x,
        {
            let ghost before = self.screen_buffer@;
            let column: u16 = left as u16 + x as u16;
            if column >= 8 && column < 168 {
                let sx: usize = (column - 8) as usize;
                let px: u8 = if x_flip { 7 - x } else { x };
                let ci = color_at(lo, hi, 7 - px);
                let ghost xx = x as int;
                assert(0 <= xx < 8);
                assert(color_index(lo, hi, 7 - (if x_flip { 7 - xx } else { xx })) == sprite_color(s0, i, xx + left - 8));
                assert(sx as int == xx + left - 8);
                assert(ci == sprite_color(s0, i, sx as int));
                let idx = start + sx * 4;
                assert(before[idx as int] == b0[idx as int]);
                if ci != 0 && (!behind || self.screen_buffer[idx] == 0xFF) {
                    self.put_pixel(idx, ci);
                }
            }
            assert forall|j: int| 0 <= j < SCREEN_BYTES implies #[trigger] self.screen_buffer@[j] == (if in_row(s0, j)
                && 0 <= (j - start) / 4 + 8 - left < x + 1 {
                draw_sprite(s0, b0, i)[j]
            } else {
                b0[j]
            }) by {
                if in_row(s0, j) && (j - start) / 4 + 8 - left == x {
                    let sx = (j - start) / 4;
                    assert(start + sx * 4 <= j < start + sx * 4 + 4);
                    assert((j - start) % 4 == j - (start + sx * 4));
                    assert(before[start + sx * 4] == b0[start + sx * 4]);
                    assert(8 <= left + x < 168);
                } else {
                    assert(self.screen_buffer@[j] == before[j]);
                }
            }
            x = x + 1;
        }
        assert(self.screen_buffer@ =~= draw_sprite(s0, b0, i));
    }

    fn render_sprites(&mut self, Ghost(s0): Ghost<PpuState>)
        requires
            old(self).wf(),
            old(self).current_scanline < 144,
            old(self).state() == (PpuState { screen: old(self).screen_buffer@, ..s0 }),
        ensures
            final(self).wf(),
            final(self).state() == (PpuState {
                screen: draw_all(s0, old(self).screen_buffer@, selection(s0)),
                ..s0
            }),
    {
        let ghost b0 = self.screen_buffer@;
        let selected = self.select_sprites(Ghost(s0));
        let mut n: usize = 0;
        while n < selected.len()
            invariant
                n <= selected@.len(),
                self.wf(),
                self.current_scanline < 144,
                selected@ == selection(s0),
                forall|k: int| 0 <= k < selected@.len() ==> selected@[k] < 40 && on_line(s0, selected@[k] as int),
                self.state() == (PpuState { screen: self.screen_buffer@, ..s0 }),
                self.screen_buffer@ == draw_all(s0, b0, selected@.subrange(0, n as int)),
            decreases selected@.len() - n,
        {
            assert(selected@.subrange(0, n as int + 1).drop_last() =~= selected@.subrange(0, n as int));
            self.draw_sprite(selected[n], Ghost(s0));
            n = n + 1;
        }
        assert(selected@.subrange(0, n as int) =~= selected@);
    }

    /// A video-RAM byte, or 0xFF while the PPU holds video RAM (OAM search and
    /// pixel transfer).
    pub fn read_vram(&self, address: u16) -> (r: u8)
        requires
            self.wf(),
            VRAM_ADDRESS <= address < 0xA000,
        ensures
            r == vram_read(self.state(), address as int),
    {
        if self.mode == Mode::HBLANK || self.mode == Mode::VBLANK {
            self.vram[(address - VRAM_ADDRESS) as usize]
        } else {
            0xFF
        }
    }

    /// Writes a video-RAM byte; dropped while the PPU holds video RAM.
    pub fn write_vram(&mut self, address: u16, value: u8)
        requires
            old(self).wf(),
            VRAM_ADDRESS <= address < 0xA000,
        ensures
            final(self).wf(),
            final(self).state() == (if old(self).mode.accessible() {
                PpuState { vram: old(self).vram@.update(address - VRAM_ADDRESS, value), ..old(self).state() }
            } else {
                old(self).state()
            }),
    {
        if self.mode == Mode::HBLANK || self.mode == Mode::VBLANK {
            self.vram.set((address - VRAM_ADDRESS) as usize, value);
        }
    }

    /// An object-attribute byte, or 0xFF while the PPU holds object attribute
    /// memory (OAM search and pixel transfer).
    pub fn read_oam(&self, address: u16) -> (r: u8)
        requires
            self.wf(),
            OAM_ADDRESS <= address < 0xFEA0,
        ensures
            r == oam_read(self.state(), address as int),
    {
        if self.mode == Mode::HBLANK || self.mode == Mode::VBLANK {
            self.oam[(address - OAM_ADDRESS) as usize]
        } else {
            0xFF
        }
    }

    /// Writes an object-attribute byte; dropped while the PPU holds object
    /// attribute memory.
    pub fn write_oam(&mut self, address: u16, value: u8)
        requires
            old(self).wf(),
            OAM_ADDRESS <= address < 0xFEA0,
        ensures
            final(self).wf(),
            final(self).state() == (if old(self).mode.accessible() {
                PpuState { oam: old(self).oam@.update(address - OAM_ADDRESS, value), ..old(self).state() }
            } else {
                old(self).state()
            }),
    {
        if self.mode == Mode::HBLANK || self.mode == Mode::VBLANK {
            self.oam.set((address - OAM_ADDRESS) as usize, value);
        }
    }

    /// The mode's two-bit code.
    pub fn get_mode(&self) -> (r: u8)
        ensures
            r == self.mode.code(),
    {
        self.mode.bits()
    }

    pub fn get_lcdc(&self) -> (r: LCDC_REG)
        requires
            self.wf(),
        ensures
            r == lcdc(self.state()),
    {
        let value = self.ram.read(LCDC_ADDRESS);
        LCDC_REG::from(value)
    }

    pub fn get_lcd_status(&self) -> (r: LCD_STATUS_REG)
        requires
            self.wf(),
        ensures
            r == LCD_STATUS_REG::from_byte(self.state().mem[LCD_STATUS_ADDRESS as int]),
    {
        let value = self.ram.read(LCD_STATUS_ADDRESS);
        LCD_STATUS_REG::from(value)
    }

    pub fn set_lcdc(&mut self, value: u8)
        requires
            old(self).wf(),
        ensures
            final(self).wf(),
            final(self).state() == (PpuState { mem: old(self).ram.bytes().update(LCDC_ADDRESS as int, value), ..old(self).state() }),
    {
        self.ram.write(LCDC_ADDRESS, value);
    }

    pub fn set_lcd_status(&mut self, value: u8)
        requires
            old(self).wf(),
        ensures
            final(self).wf(),
            final(self).state() == (PpuState { mem: old(self).ram.bytes().update(LCD_STATUS_ADDRESS as int, value), ..old(self).state() }),
    {
        self.ram.write(LCD_STATUS_ADDRESS, value);
    }

    /// Requests the LCD-status interrupt (bit 1 of the interrupt flags).
    #[allow(dead_code)]
    fn trigger_lcd_stat_interrupt(&mut self)
        requires
            old(self).wf(),
        ensures
            final(self).wf(),
            final(self).state() == (PpuState {
                mem: old(self).ram.bytes().update(INTERRUPT_FLAGS_ADDRESS as int, old(self).ram.bytes()[INTERRUPT_FLAGS_ADDRESS as int] | 2),
                ..old(self).state()
            }),
    {
        let requested = self.ram.read(INTERRUPT_FLAGS_ADDRESS);
        self.ram.write(INTERRUPT_FLAGS_ADDRESS, requested | 2);
    }
}

} // verus!
