use vstd::prelude::*;
use crate::gpu::{LCDC_REG, LCD_STATUS_REG, Mode, LCDC_ADDRESS, LCD_STATUS_ADDRESS, LY_ADDRESS, LYC_ADDRESS, ROW_BYTES};
use crate::ram::INTERRUPT_FLAGS_ADDRESS;

verus! {

/// What the picture-processing unit reads and changes: its mode, cycle
/// accumulator and scanline, the shared memory, its video RAM and object
/// attribute memory, and the framebuffer.
pub struct PpuState {
    pub mode: Mode,
    pub clock: u32,
    pub line: u8,
    pub mem: Seq<u8>,
    pub vram: Seq<u8>,
    pub oam: Seq<u8>,
    pub screen: Seq<u8>,
}

/// A byte of video RAM as seen by a reader: the sentinel 0xFF while the PPU holds it.
pub open spec fn vram_read(s: PpuState, address: int) -> u8 {
    if s.mode.accessible() { s.vram[address - 0x8000] } else { 0xFF }
}

/// A byte of object attribute memory as seen by a reader: the sentinel 0xFF
/// while the PPU holds it.
pub open spec fn oam_read(s: PpuState, address: int) -> u8 {
    if s.mode.accessible() { s.oam[address - 0xFE00] } else { 0xFF }
}

pub open spec fn lcdc(s: PpuState) -> LCDC_REG {
    LCDC_REG::from_byte(s.mem[LCDC_ADDRESS as int])
}

/// 2 to the power `n`, for a bit position 0 to 7.
pub open spec fn place(n: int) -> int {
    if n == 0 {
        1
    } else if n == 1 {
        2
    } else if n == 2 {
        4
    } else if n == 3 {
        8
    } else if n == 4 {
        16
    } else if n == 5 {
        32
    } else if n == 6 {
        64
    } else {
        128
    }
}

/// The two-bit colour index in bit `bit` of a tile row's two bitplane bytes;
/// the high plane gives the upper bit. Column `x` of a tile is bit `7 - x`.
pub open spec fn color_index(lo: u8, hi: u8, bit: int) -> int {
    (hi as int / place(bit)) % 2 * 2 + (lo as int / place(bit)) % 2
}

/// The grey level of a colour index: white, light grey, dark grey, black.
pub open spec fn shade(ci: int) -> u8 {
    if ci == 0 {
        0xFF
    } else if ci == 1 {
        0xCC
    } else if ci == 2 {
        0x77
    } else {
        0x00
    }
}

/// Byte `k` of the RGBA quad of a colour index.
pub open spec fn pixel_byte(ci: int, k: int) -> u8 {
    if k == 3 { 0xFF } else { shade(ci) }
}

pub open spec fn row_start(s: PpuState) -> int {
    s.line * ROW_BYTES
}

/// Whether framebuffer byte `j` lies in the current scanline's row.
pub open spec fn in_row(s: PpuState, j: int) -> bool {
    row_start(s) <= j < row_start(s) + ROW_BYTES
}

/// The background colour index at column `x` of the current scanline.
pub open spec fn bg_color(s: PpuState, x: int) -> int {
    let control = lcdc(s);
    let y = s.line as int;
    let map_base: int = if control.bg_tile_map_display_select { 0x9C00 } else { 0x9800 };
    let tile = vram_read(s, map_base + (y / 8) * 32 + x / 8) as int;
    let tile_addr = if control.bg_tile_data_select {
        0x8000 + tile * 16
    } else {
        0x8800 + ((tile + 128) % 256) * 16
    };
    color_index(vram_read(s, tile_addr + (y % 8) * 2), vram_read(s, tile_addr + (y % 8) * 2 + 1), 7 - x % 8)
}

/// The framebuffer with the current scanline's row painted from the background.
pub open spec fn bg_pass(s: PpuState) -> Seq<u8> {
    Seq::new(
        s.screen.len(),
        |j: int|
            if in_row(s, j) {
                pixel_byte(bg_color(s, (j - row_start(s)) / 4), (j - row_start(s)) % 4)
            } else {
                s.screen[j]
            },
    )
}

/// Byte `field` of object `i`'s four-byte entry: Y+16, X+8, tile, attributes.
pub open spec fn sprite_byte(s: PpuState, i: int, field: int) -> u8 {
    oam_read(s, 0xFE00 + i * 4 + field)
}

pub open spec fn sprite_height(s: PpuState) -> int {
    if lcdc(s).obj_size { 16 } else { 8 }
}

/// Whether object `i` covers the current scanline.
pub open spec fn on_line(s: PpuState, i: int) -> bool {
    sprite_byte(s, i, 0) <= s.line + 16 < sprite_byte(s, i, 0) + sprite_height(s)
}

/// Drawing order: lower X first, table order among equal X.
pub open spec fn precedes(s: PpuState, i: int, j: int) -> bool {
    sprite_byte(s, i, 1) < sprite_byte(s, j, 1) || (sprite_byte(s, i, 1) == sprite_byte(s, j, 1) && i < j)
}

/// Where `i` goes in `v`: after every entry whose X does not exceed its own.
pub open spec fn insert_pos(s: PpuState, v: Seq<u8>, i: int) -> int
    decreases v.len(),
{
    if v.len() == 0 {
        0
    } else if sprite_byte(s, v[0] as int, 1) > sprite_byte(s, i, 1) {
        0
    } else {
        1 + insert_pos(s, v.drop_first(), i)
    }
}

/// The objects among the first `n` entries that cover the current scanline,
/// in drawing order.
pub open spec fn visible_upto(s: PpuState, n: nat) -> Seq<u8>
    decreases n,
{
    if n == 0 {
        Seq::empty()
    } else {
        let prev = visible_upto(s, (n - 1) as nat);
        if on_line(s, n - 1) {
            prev.insert(insert_pos(s, prev, n - 1), (n - 1) as u8)
        } else {
            prev
        }
    }
}

/// The objects drawn on the current scanline, in drawing order.
pub open spec fn selection(s: PpuState) -> Seq<u8> {
    let v = visible_upto(s, 40);
    if v.len() <= 10 { v } else { v.subrange(0, 10) }
}

/// The colour index object `i` gives screen column `sx`, flips applied.
pub open spec fn sprite_color(s: PpuState, i: int, sx: int) -> int {
    let attributes = sprite_byte(s, i, 3);
    let x = sx + 8 - sprite_byte(s, i, 1);
    let py0 = s.line + 16 - sprite_byte(s, i, 0);
    let py = if (attributes / 64) % 2 == 1 { sprite_height(s) - 1 - py0 } else { py0 };
    let px = if (attributes / 32) % 2 == 1 { 7 - x } else { x };
    let tile_addr = 0x8000 + sprite_byte(s, i, 2) * 16 + py * 2;
    color_index(vram_read(s, tile_addr), vram_read(s, tile_addr + 1), 7 - px)
}

/// Framebuffer `b` with object `i` drawn over the current row: opaque pixels
/// only, and behind an opaque (non-white) pixel not at all when the object's
/// priority bit asks for that.
pub open spec fn draw_sprite(s: PpuState, b: Seq<u8>, i: int) -> Seq<u8> {
    Seq::new(
        b.len(),
        |j: int|
            {
                let sx = (j - row_start(s)) / 4;
                let x = sx + 8 - sprite_byte(s, i, 1);
                let ci = sprite_color(s, i, sx);
                if in_row(s, j) && 0 <= x < 8 && ci != 0 && (sprite_byte(s, i, 3) < 128 || b[row_start(s) + sx
                    * 4] == 0xFF) {
                    pixel_byte(ci, (j - row_start(s)) % 4)
                } else {
                    b[j]
                }
            },
    )
}

/// The objects of `sel` drawn one after another, later ones over earlier ones.
pub open spec fn draw_all(s: PpuState, b: Seq<u8>, sel: Seq<u8>) -> Seq<u8>
    decreases sel.len(),
{
    if sel.len() == 0 {
        b
    } else {
        draw_sprite(s, draw_all(s, b, sel.drop_last()), sel.last() as int)
    }
}

/// The framebuffer after rendering the current scanline. A scanline past the
/// visible area has no row and draws nothing.
pub open spec fn render_spec(s: PpuState) -> Seq<u8> {
    if s.line >= 144 {
        s.screen
    } else {
        let b1 = if lcdc(s).bg_enable { bg_pass(s) } else { s.screen };
        if lcdc(s).obj_enable { draw_all(s, b1, selection(s)) } else { b1 }
    }
}

/// The mode transition an accumulated cycle count triggers, if any; each
/// transition resets the accumulator and the remainder is not carried over.
pub open spec fn set_mode_spec(s: PpuState) -> PpuState {
    match s.mode {
        Mode::OAM => if s.clock >= 80 { PpuState { mode: Mode::VRAM, clock: 0, ..s } } else { s },
        Mode::VRAM => if s.clock >= 172 { PpuState { mode: Mode::HBLANK, clock: 0, ..s } } else { s },
        Mode::HBLANK => if s.clock >= 204 {
            let rendered = PpuState { screen: render_spec(s), clock: 0, line: (s.line + 1) as u8, ..s };
            if s.line + 1 >= 144 {
                let requested = s.mem[INTERRUPT_FLAGS_ADDRESS as int];
                PpuState {
                    mode: Mode::VBLANK,
                    mem: s.mem.update(INTERRUPT_FLAGS_ADDRESS as int, requested | 1),
                    ..rendered
                }
            } else {
                PpuState { mode: Mode::OAM, ..rendered }
            }
        } else {
            s
        },
        Mode::VBLANK => if s.clock >= 4560 {
            if s.line + 1 >= 154 {
                PpuState { mode: Mode::OAM, clock: 0, line: 0, ..s }
            } else {
                PpuState { clock: 0, line: (s.line + 1) as u8, ..s }
            }
        } else {
            s
        },
    }
}

/// The status register value for the current mode and LY-compare result,
/// keeping the interrupt-select bits of `stat`.
pub open spec fn status_byte(stat: u8, mode: Mode, ly_equal: bool) -> u8 {
    (LCD_STATUS_REG { mode, ly_compare: ly_equal, ..LCD_STATUS_REG::from_byte(stat) }).to_byte()
}

/// LY gets the scanline; LCD status gets the mode and whether LY equals LYC.
pub open spec fn status_spec(s: PpuState) -> PpuState {
    let mem1 = s.mem.update(LY_ADDRESS as int, s.line);
    let stat = status_byte(s.mem[LCD_STATUS_ADDRESS as int], s.mode, s.line == mem1[LYC_ADDRESS as int]);
    PpuState { mem: mem1.update(LCD_STATUS_ADDRESS as int, stat), ..s }
}

/// One step of `cycles` elapsed cycles.
pub open spec fn ppu_step_spec(s: PpuState, cycles: u32) -> PpuState {
    status_spec(set_mode_spec(PpuState { clock: (s.clock + cycles) as u32, ..s }))
}

/// What a scanline's object selection must be: at most ten objects, each
/// covering the scanline, in drawing order (lower X first, table order among
/// equal X); an object that covers the scanline and is left out means ten
/// were chosen, all ahead of it in that order.
pub open spec fn is_sprite_selection(s: PpuState, sel: Seq<u8>) -> bool {
    &&& sel.len() <= 10
    &&& forall|k: int| 0 <= k < sel.len() ==> sel[k] < 40 && on_line(s, sel[k] as int)
    &&& forall|a: int, b: int| 0 <= a < b < sel.len() ==> precedes(s, sel[a] as int, sel[b] as int)
    &&& forall|j: int|
        0 <= j < 40 && on_line(s, j) && !sel.contains(j as u8) ==> sel.len() == 10 && forall|k: int|
            0 <= k < 10 ==> precedes(s, sel[k] as int, j)
}

proof fn lemma_insert_pos(s: PpuState, v: Seq<u8>, i: int)
    requires
        forall|a: int, b: int| 0 <= a < b < v.len() ==> sprite_byte(s, v[a] as int, 1) <= sprite_byte(s, v[b] as int, 1),
    ensures
        0 <= insert_pos(s, v, i) <= v.len(),
        forall|k: int| 0 <= k < insert_pos(s, v, i) ==> sprite_byte(s, v[k] as int, 1) <= sprite_byte(s, i, 1),
        forall|k: int| insert_pos(s, v, i) <= k < v.len() ==> sprite_byte(s, v[k] as int, 1) > sprite_byte(s, i, 1),
    decreases v.len(),
{
    if v.len() > 0 {
        if sprite_byte(s, v[0] as int, 1) > sprite_byte(s, i, 1) {
            assert forall|k: int| 0 <= k < v.len() implies sprite_byte(s, v[k] as int, 1) > sprite_byte(s, i, 1) by {
                if k > 0 {
                    assert(sprite_byte(s, v[0] as int, 1) <= sprite_byte(s, v[k] as int, 1));
                }
            }
        } else {
            let r = v.drop_first();
            assert forall|a: int, b: int| 0 <= a < b < r.len() implies sprite_byte(s, r[a] as int, 1) <= sprite_byte(
                s,
                r[b] as int,
                1,
            ) by {
                assert(r[a] == v[a + 1] && r[b] == v[b + 1]);
            }
            lemma_insert_pos(s, r, i);
            assert forall|k: int| 0 <= k < insert_pos(s, v, i) implies sprite_byte(s, v[k] as int, 1) <= sprite_byte(
                s,
                i,
                1,
            ) by {
                if k > 0 {
                    assert(v[k] == r[k - 1]);
                }
            }
            assert forall|k: int| insert_pos(s, v, i) <= k < v.len() implies sprite_byte(s, v[k] as int, 1) > sprite_byte(
                s,
                i,
                1,
            ) by {
                assert(v[k] == r[k - 1]);
            }
        }
    }
}

proof fn lemma_visible_upto(s: PpuState, n: nat)
    requires
        n <= 40,
    ensures
        forall|k: int|
            0 <= k < visible_upto(s, n).len() ==> visible_upto(s, n)[k] < n && on_line(s, visible_upto(s, n)[k] as int),
        forall|a: int, b: int|
            0 <= a < b < visible_upto(s, n).len() ==> precedes(s, visible_upto(s, n)[a] as int, visible_upto(s, n)[b] as int),
        forall|j: int| 0 <= j < n && on_line(s, j) ==> visible_upto(s, n).contains(j as u8),
    decreases n,
{
    if n > 0 {
        lemma_visible_upto(s, (n - 1) as nat);
        let prev = visible_upto(s, (n - 1) as nat);
        let i = n - 1;
        if on_line(s, i) {
            assert forall|a: int, b: int| 0 <= a < b < prev.len() implies sprite_byte(s, prev[a] as int, 1) <= sprite_byte(
                s,
                prev[b] as int,
                1,
            ) by {
                assert(precedes(s, prev[a] as int, prev[b] as int));
            }
            lemma_insert_pos(s, prev, i);
            let p = insert_pos(s, prev, i);
            let v = prev.insert(p, i as u8);
            assert(v == visible_upto(s, n));
            assert forall|k: int| 0 <= k < v.len() implies v[k] < n && on_line(s, v[k] as int) by {
                if k < p {
                    assert(v[k] == prev[k]);
                } else if k > p {
                    assert(v[k] == prev[k - 1]);
                }
            }
            assert forall|a: int, b: int| 0 <= a < b < v.len() implies precedes(s, v[a] as int, v[b] as int) by {
                if b < p {
                    assert(v[a] == prev[a] && v[b] == prev[b]);
                } else if b == p {
                    assert(v[a] == prev[a]);
                } else if a < p {
                    assert(v[a] == prev[a] && v[b] == prev[b - 1]);
                } else if a == p {
                    assert(v[b] == prev[b - 1]);
                } else {
                    assert(v[a] == prev[a - 1] && v[b] == prev[b - 1]);
                }
            }
            assert forall|j: int| 0 <= j < n && on_line(s, j) implies v.contains(j as u8) by {
                if j == i {
                    assert(v[p] == j as u8);
                } else {
                    assert(prev.contains(j as u8));
                    let k = choose|k: int| 0 <= k < prev.len() && prev[k] == j as u8;
                    if k < p {
                        assert(v[k] == prev[k]);
                    } else {
                        assert(v[k + 1] == prev[k]);
                    }
                }
            }
        }
    }
}

/// The objects drawn on a scanline are at most ten of those covering it: the
/// ones with the lowest X, table order breaking ties, drawn in that order.
pub proof fn lemma_selection_law(s: PpuState)
    ensures
        is_sprite_selection(s, selection(s)),
{
    lemma_visible_upto(s, 40);
    let v = visible_upto(s, 40);
    let sel = selection(s);
    if v.len() > 10 {
        assert forall|j: int| 0 <= j < 40 && on_line(s, j) && !sel.contains(j as u8) implies sel.len() == 10 && forall|
            k: int,
        |
            0 <= k < 10 ==> precedes(s, sel[k] as int, j) by {
            assert(v.contains(j as u8));
            let m = choose|m: int| 0 <= m < v.len() && v[m] == j as u8;
            if m < 10 {
                assert(sel[m] == j as u8);
            }
            assert forall|k: int| 0 <= k < 10 implies precedes(s, sel[k] as int, j) by {
                assert(sel[k] == v[k]);
            }
        }
    }
}

/// Finishing the horizontal blank of the last visible scanline enters vertical
/// blank and raises the VBlank request (bit 0 of the interrupt flags).
pub proof fn lemma_vblank_entry(s: PpuState, cycles: u32)
    requires
        s.mode is HBLANK,
        s.mem.len() == 0x10000,
        s.clock + cycles >= 204,
        s.clock + cycles <= u32::MAX,
        s.line + 1 >= 144,
        s.line < 154,
    ensures
        ppu_step_spec(s, cycles).mode is VBLANK,
        ppu_step_spec(s, cycles).line == s.line + 1,
        ppu_step_spec(s, cycles).mem[INTERRUPT_FLAGS_ADDRESS as int] % 2 == 1,
{
    let requested = s.mem[INTERRUPT_FLAGS_ADDRESS as int];
    assert((requested | 1) % 2 == 1) by (bit_vector);
}

} // verus!
