//! Framebuffer instructions: clear, the three extended-set scrolls, and the
//! XOR sprite draw with its collision flag. The framebuffer is a flat
//! sequence of pixel bytes with a stride of 128 columns; sprite drawing in
//! base mode wraps horizontally at the 64-column logical width and clips
//! vertically at 32 rows, while extended mode clips at the full 128 x 64
//! edges.

use vstd::prelude::*;
use crate::cpu::CPU;
use crate::exec::pc_plus;
use crate::exec::wrap_addr;
use crate::exec::wrapped_addr;
use crate::cpu::zero_bytes;

verus! {

/// The pixel byte at column `x`, row `y` of a framebuffer.
pub open spec fn pix(g: Seq<u8>, x: int, y: int) -> u8 {
    g[y * 128 + x]
}

/// All fields except the framebuffer and the program counter agree.
pub open spec fn eq_except_gfx_pc(a: CPU, b: CPU) -> bool {
    &&& b.memory == a.memory
    &&& b.v == a.v
    &&& b.i == a.i
    &&& b.delay_timer == a.delay_timer
    &&& b.sound_timer == a.sound_timer
    &&& b.stack == a.stack
    &&& b.sp == a.sp
    &&& b.key == a.key
    &&& b.draw_flag == a.draw_flag
    &&& b.rpl_user_flags == a.rpl_user_flags
    &&& b.is_extended == a.is_extended
    &&& b.awaiting_key == a.awaiting_key
}

/// All fields except the framebuffer, the registers, the dirty flag and the
/// program counter agree.
pub open spec fn eq_except_gfx_v_draw_pc(a: CPU, b: CPU) -> bool {
    &&& b.memory == a.memory
    &&& b.i == a.i
    &&& b.delay_timer == a.delay_timer
    &&& b.sound_timer == a.sound_timer
    &&& b.stack == a.stack
    &&& b.sp == a.sp
    &&& b.key == a.key
    &&& b.rpl_user_flags == a.rpl_user_flags
    &&& b.is_extended == a.is_extended
    &&& b.awaiting_key == a.awaiting_key
}

/// XOR-blit of one pixel at flat index `idx`, accumulating the collision
/// flag: the pixel flips, and a collision is recorded when it was already
/// set.
pub open spec fn blit_px(g: Seq<u8>, col: bool, idx: int) -> (Seq<u8>, bool) {
    (
        g.update(idx, if g[idx] == 1 { 0u8 } else { 1u8 }),
        col || g[idx] == 1,
    )
}

/// The place value of bit `c` (counted from the left) of a sprite row byte.
pub open spec fn bmask8(c: int) -> u8 {
    if c == 0 {
        128
    } else if c == 1 {
        64
    } else if c == 2 {
        32
    } else if c == 3 {
        16
    } else if c == 4 {
        8
    } else if c == 5 {
        4
    } else if c == 6 {
        2
    } else {
        1
    }
}

/// Whether bit `c` (counted from the left) of a sprite row byte is set.
pub open spec fn bit8(b: u8, c: int) -> bool {
    (b / bmask8(c)) % 2 == 1
}

/// The place value of bit `c` (counted from the left) of a 16-bit sprite
/// row word.
pub open spec fn bmask16(c: int) -> u16 {
    if c == 0 {
        32768
    } else if c == 1 {
        16384
    } else if c == 2 {
        8192
    } else if c == 3 {
        4096
    } else if c == 4 {
        2048
    } else if c == 5 {
        1024
    } else if c == 6 {
        512
    } else if c == 7 {
        256
    } else if c == 8 {
        128
    } else if c == 9 {
        64
    } else if c == 10 {
        32
    } else if c == 11 {
        16
    } else if c == 12 {
        8
    } else if c == 13 {
        4
    } else if c == 14 {
        2
    } else {
        1
    }
}

/// Whether bit `c` (counted from the left) of a 16-bit sprite row word is
/// set.
pub open spec fn bit16(w: u16, c: int) -> bool {
    (w / bmask16(c)) % 2 == 1
}

/// One 8-wide sprite row blitted from column `c` on: set bits flip the
/// pixels at row `gy`, wrapping horizontally at `width` when `wrap` holds
/// and otherwise dropping pixels at or beyond `width`.
pub open spec fn draw_row8_from(
    g: Seq<u8>,
    col: bool,
    bits: u8,
    px: int,
    gy: int,
    c: int,
    wrap: bool,
    width: int,
) -> (Seq<u8>, bool)
    decreases 8 - c,
{
    if c < 0 || c >= 8 {
        (g, col)
    } else {
        let r1 = if bit8(bits, c) {
            if wrap {
                blit_px(g, col, gy * 128 + ((px + c) % width))
            } else if px + c < width {
                blit_px(g, col, gy * 128 + px + c)
            } else {
                (g, col)
            }
        } else {
            (g, col)
        };
        draw_row8_from(r1.0, r1.1, bits, px, gy, c + 1, wrap, width)
    }
}

/// An 8-wide sprite of `h` rows blitted from row `r` on; the row bytes come
/// from memory at the index register, and rows at or beyond `height` are
/// dropped.
pub open spec fn draw8_from(
    mem: Seq<u8>,
    g: Seq<u8>,
    col: bool,
    i: u16,
    px: int,
    py: int,
    h: int,
    r: int,
    wrap: bool,
    width: int,
    height: int,
) -> (Seq<u8>, bool)
    decreases h - r,
{
    if r < 0 || r >= h {
        (g, col)
    } else {
        let gy = py + r;
        let bits = mem[wrap_addr(i, r)];
        let rr = if gy < height {
            draw_row8_from(g, col, bits, px, gy, 0, wrap, width)
        } else {
            (g, col)
        };
        draw8_from(mem, rr.0, rr.1, i, px, py, h, r + 1, wrap, width, height)
    }
}

/// One 16-wide sprite row blitted from column `c` on, clipping at the
/// 128-column edge.
pub open spec fn draw_row16_from(
    g: Seq<u8>,
    col: bool,
    w: u16,
    px: int,
    gy: int,
    c: int,
) -> (Seq<u8>, bool)
    decreases 16 - c,
{
    if c < 0 || c >= 16 {
        (g, col)
    } else {
        let r1 = if bit16(w, c) && px + c < 128 {
            blit_px(g, col, gy * 128 + px + c)
        } else {
            (g, col)
        };
        draw_row16_from(r1.0, r1.1, w, px, gy, c + 1)
    }
}

/// The 16-row, 16-wide extended-mode sprite blitted from row `r` on. Each
/// row reads one memory byte, which fills both halves of the row word; rows
/// at or beyond the 64-row edge are dropped.
pub open spec fn draw16_from(
    mem: Seq<u8>,
    g: Seq<u8>,
    col: bool,
    i: u16,
    px: int,
    py: int,
    r: int,
) -> (Seq<u8>, bool)
    decreases 16 - r,
{
    if r < 0 || r >= 16 {
        (g, col)
    } else {
        let gy = py + r;
        let w = ((mem[wrap_addr(i, r)] * 256 + mem[wrap_addr(i, r)]) as u16);
        let rr = if gy < 64 {
            draw_row16_from(g, col, w, px, gy, 0)
        } else {
            (g, col)
        };
        draw16_from(mem, rr.0, rr.1, i, px, py, r + 1)
    }
}

/// The framebuffer and collision flag produced by the draw instruction
/// DXYN on the pre-state `pre`.
pub open spec fn draw_result(pre: CPU, x: int, y: int, n: int) -> (Seq<u8>, bool) {
    let px = pre.v@[x] as int;
    let py = pre.v@[y] as int;
    if pre.is_extended && n == 0 {
        draw16_from(pre.memory@, pre.graphics@, false, pre.i, px, py, 0)
    } else if pre.is_extended {
        draw8_from(pre.memory@, pre.graphics@, false, pre.i, px, py, n, 0, false, 128, 64)
    } else {
        draw8_from(pre.memory@, pre.graphics@, false, pre.i, px, py, n, 0, true, 64, 32)
    }
}

/// The place value of sprite-row bit `c`, executable counterpart of
/// [`bmask8`].
pub fn mask8_of(c: usize) -> (m: u8)
    requires
        c < 8,
    ensures
        m == bmask8(c as int),
        m > 0,
{
    if c == 0 {
        128
    } else if c == 1 {
        64
    } else if c == 2 {
        32
    } else if c == 3 {
        16
    } else if c == 4 {
        8
    } else if c == 5 {
        4
    } else if c == 6 {
        2
    } else {
        1
    }
}

/// The place value of sprite-row bit `c`, executable counterpart of
/// [`bmask16`].
pub fn mask16_of(c: usize) -> (m: u16)
    requires
        c < 16,
    ensures
        m == bmask16(c as int),
        m > 0,
{
    if c == 0 {
        32768
    } else if c == 1 {
        16384
    } else if c == 2 {
        8192
    } else if c == 3 {
        4096
    } else if c == 4 {
        2048
    } else if c == 5 {
        1024
    } else if c == 6 {
        512
    } else if c == 7 {
        256
    } else if c == 8 {
        128
    } else if c == 9 {
        64
    } else if c == 10 {
        32
    } else if c == 11 {
        16
    } else if c == 12 {
        8
    } else if c == 13 {
        4
    } else if c == 14 {
        2
    } else {
        1
    }
}

/// Blits an 8-wide sprite of `h` rows read from `mem` at index `i` onto `g`
/// at `(px, py)`, returning the collision flag; the mode parameters are as
/// in [`draw8_from`].
pub fn blit_sprite8(
    g: &mut Vec<u8>,
    mem: &Vec<u8>,
    i: u16,
    px: u8,
    py: u8,
    h: usize,
    wrap: bool,
    width: usize,
    height: usize,
) -> (col: bool)
    requires
        old(g)@.len() == 8192,
        forall|k: int| 0 <= k < 8192 ==> old(g)@[k] <= 1,
        mem@.len() == 4096,
        h <= 15,
        wrap ==> width == 64 && height == 32,
        !wrap ==> width == 128 && height == 64,
    ensures
        final(g)@.len() == 8192,
        forall|k: int| 0 <= k < 8192 ==> final(g)@[k] <= 1,
        (final(g)@, col) == draw8_from(
            mem@,
            old(g)@,
            false,
            i,
            px as int,
            py as int,
            h as int,
            0,
            wrap,
            width as int,
            height as int,
        ),
{
    let ghost target = draw8_from(
        mem@,
        old(g)@,
        false,
        i,
        px as int,
        py as int,
        h as int,
        0,
        wrap,
        width as int,
        height as int,
    );
    let mut col = false;
    let mut r: usize = 0;
    while r < h
        invariant
            r <= h,
            g@.len() == 8192,
            forall|k: int| 0 <= k < 8192 ==> g@[k] <= 1,
            target == draw8_from(
                mem@,
                g@,
                col,
                i,
                px as int,
                py as int,
                h as int,
                r as int,
                wrap,
                width as int,
                height as int,
            ),
        decreases h - r,
    {
        let gy = py as usize + r;
        let addr = wrapped_addr(i, r);
        let bits = mem[addr];
        if gy < height {
            let mut c: usize = 0;
            while c < 8
                invariant
                    c <= 8,
                    gy < height,
                    gy == py + r,
                    r < h,
                    g@.len() == 8192,
                    forall|k: int| 0 <= k < 8192 ==> g@[k] <= 1,
                    bits == mem@[wrap_addr(i, r as int)],
                    target == ({
                        let rr = draw_row8_from(
                            g@,
                            col,
                            bits,
                            px as int,
                            gy as int,
                            c as int,
                            wrap,
                            width as int,
                        );
                        draw8_from(
                            mem@,
                            rr.0,
                            rr.1,
                            i,
                            px as int,
                            py as int,
                            h as int,
                            r + 1,
                            wrap,
                            width as int,
                            height as int,
                        )
                    }),
                decreases 8 - c,
            {
                let m = mask8_of(c);
                if (bits / m) % 2 == 1 {
                    let idx = if wrap {
                        gy * 128 + ((px as usize + c) % width)
                    } else if px as usize + c < width {
                        gy * 128 + px as usize + c
                    } else {
                        8192
                    };
                    if idx < 8192 {
                        let cur = g[idx];
                        if cur == 1 {
                            g[idx] = 0;
                            col = true;
                        } else {
                            g[idx] = 1;
                        }
                    }
                }
                c += 1;
            }
        }
        r += 1;
    }
    col
}

/// Blits the 16 x 16 extended-mode sprite read from `mem` at index `i` onto
/// `g` at `(px, py)`, returning the collision flag.
pub fn blit_sprite16(g: &mut Vec<u8>, mem: &Vec<u8>, i: u16, px: u8, py: u8) -> (col: bool)
    requires
        old(g)@.len() == 8192,
        forall|k: int| 0 <= k < 8192 ==> old(g)@[k] <= 1,
        mem@.len() == 4096,
    ensures
        final(g)@.len() == 8192,
        forall|k: int| 0 <= k < 8192 ==> final(g)@[k] <= 1,
        (final(g)@, col) == draw16_from(mem@, old(g)@, false, i, px as int, py as int, 0),
{
    let ghost target = draw16_from(mem@, old(g)@, false, i, px as int, py as int, 0);
    let mut col = false;
    let mut r: usize = 0;
    while r < 16
        invariant
            r <= 16,
            g@.len() == 8192,
            forall|k: int| 0 <= k < 8192 ==> g@[k] <= 1,
            target == draw16_from(mem@, g@, col, i, px as int, py as int, r as int),
        decreases 16 - r,
    {
        let gy = py as usize + r;
        let addr = wrapped_addr(i, r);
        let b = mem[addr];
        let w: u16 = (b as u16) * 256 + (b as u16);
        if gy < 64 {
            let mut c: usize = 0;
            while c < 16
                invariant
                    c <= 16,
                    gy < 64,
                    gy == py + r,
                    r < 16,
                    g@.len() == 8192,
                    forall|k: int| 0 <= k < 8192 ==> g@[k] <= 1,
                    w == ((mem@[wrap_addr(i, r as int)] * 256 + mem@[wrap_addr(i, r as int)]) as u16),
                    target == ({
                        let rr = draw_row16_from(g@, col, w, px as int, gy as int, c as int);
                        draw16_from(mem@, rr.0, rr.1, i, px as int, py as int, r + 1)
                    }),
                decreases 16 - c,
            {
                let m = mask16_of(c);
                if (w / m) % 2 == 1 && px as usize + c < 128 {
                    let idx = gy * 128 + px as usize + c;
                    let cur = g[idx];
                    if cur == 1 {
                        g[idx] = 0;
                        col = true;
                    } else {
                        g[idx] = 1;
                    }
                }
                c += 1;
            }
        }
        r += 1;
    }
    col
}

/// Writing one pixel changes exactly that pixel: the bridge between a flat
/// sequence update and the per-pixel view of the framebuffer.
pub proof fn lemma_pix_update(g: Seq<u8>, gx: int, gy: int, v: u8)
    requires
        g.len() == 8192,
        0 <= gx < 128,
        0 <= gy < 64,
    ensures
        pix(g.update(gy * 128 + gx, v), gx, gy) == v,
        forall|x: int, y: int|
            0 <= x < 128 && 0 <= y < 64 && !(x == gx && y == gy)
                ==> pix(g.update(gy * 128 + gx, v), x, y) == pix(g, x, y),
{
    assert forall|x: int, y: int|
        0 <= x < 128 && 0 <= y < 64 && !(x == gx && y == gy) implies pix(
        g.update(gy * 128 + gx, v),
        x,
        y,
    ) == pix(g, x, y) by {
        assert(y * 128 + x != gy * 128 + gx);
    }
}

/// Shifts the framebuffer 4 columns left; the 4 rightmost columns are
/// cleared.
pub fn scroll_left_buf(g: &mut Vec<u8>)
    requires
        old(g)@.len() == 8192,
        forall|k: int| 0 <= k < 8192 ==> old(g)@[k] <= 1,
    ensures
        final(g)@.len() == 8192,
        forall|k: int| 0 <= k < 8192 ==> final(g)@[k] <= 1,
        forall|x: int, y: int|
            0 <= x < 128 && 0 <= y < 64 ==> pix(final(g)@, x, y) == (if x < 124 {
                pix(old(g)@, x + 4, y)
            } else {
                0u8
            }),
{
    let mut gy: usize = 0;
    while gy < 64
        invariant
            gy <= 64,
            g@.len() == 8192,
            forall|k: int| 0 <= k < 8192 ==> g@[k] <= 1,
            forall|x: int, y: int|
                0 <= x < 128 && 0 <= y < gy ==> pix(g@, x, y) == (if x < 124 {
                    pix(old(g)@, x + 4, y)
                } else {
                    0u8
                }),
            forall|x: int, y: int|
                0 <= x < 128 && gy <= y < 64 ==> pix(g@, x, y) == pix(old(g)@, x, y),
        decreases 64 - gy,
    {
        let mut gx: usize = 0;
        while gx < 124
            invariant
                gx <= 124,
                gy < 64,
                g@.len() == 8192,
                forall|k: int| 0 <= k < 8192 ==> g@[k] <= 1,
                forall|x: int, y: int|
                    0 <= x < 128 && 0 <= y < gy ==> pix(g@, x, y) == (if x < 124 {
                        pix(old(g)@, x + 4, y)
                    } else {
                        0u8
                    }),
                forall|x: int| 0 <= x < gx ==> pix(g@, x, gy as int) == pix(old(g)@, x + 4, gy as int),
                forall|x: int| gx <= x < 128 ==> pix(g@, x, gy as int) == pix(old(g)@, x, gy as int),
                forall|x: int, y: int|
                    0 <= x < 128 && gy < y < 64 ==> pix(g@, x, y) == pix(old(g)@, x, y),
            decreases 124 - gx,
        {
            let ghost g0 = g@;
            let val = g[gy * 128 + gx + 4];
            proof {
                assert(val == pix(g0, gx + 4, gy as int));
            }
            g[gy * 128 + gx] = val;
            proof {
                lemma_pix_update(g0, gx as int, gy as int, val);
            }
            proof {
                assert forall|x: int, y: int|
                    0 <= x < 128 && 0 <= y < 64 && !(x == gx && y == gy as int) implies #[trigger] pix(g@, x, y) == pix(g0, x, y) by {}
            }
            gx += 1;
        }
        let mut gx2: usize = 124;
        while gx2 < 128
            invariant
                124 <= gx2 <= 128,
                gy < 64,
                g@.len() == 8192,
                forall|k: int| 0 <= k < 8192 ==> g@[k] <= 1,
                forall|x: int, y: int|
                    0 <= x < 128 && 0 <= y < gy ==> pix(g@, x, y) == (if x < 124 {
                        pix(old(g)@, x + 4, y)
                    } else {
                        0u8
                    }),
                forall|x: int| 0 <= x < 124 ==> pix(g@, x, gy as int) == pix(old(g)@, x + 4, gy as int),
                forall|x: int| 124 <= x < gx2 ==> pix(g@, x, gy as int) == 0,
                forall|x: int| gx2 <= x < 128 ==> pix(g@, x, gy as int) == pix(old(g)@, x, gy as int),
                forall|x: int, y: int|
                    0 <= x < 128 && gy < y < 64 ==> pix(g@, x, y) == pix(old(g)@, x, y),
            decreases 128 - gx2,
        {
            let ghost g0 = g@;
            g[gy * 128 + gx2] = 0;
            proof {
                lemma_pix_update(g0, gx2 as int, gy as int, 0u8);
            }
            proof {
                assert forall|x: int, y: int|
                    0 <= x < 128 && 0 <= y < 64 && !(x == gx2 && y == gy as int) implies #[trigger] pix(g@, x, y) == pix(g0, x, y) by {}
            }
            gx2 += 1;
        }
        gy += 1;
    }
}

/// Shifts the framebuffer 4 columns right; the 4 leftmost columns are
/// cleared.
pub fn scroll_right_buf(g: &mut Vec<u8>)
    requires
        old(g)@.len() == 8192,
        forall|k: int| 0 <= k < 8192 ==> old(g)@[k] <= 1,
    ensures
        final(g)@.len() == 8192,
        forall|k: int| 0 <= k < 8192 ==> final(g)@[k] <= 1,
        forall|x: int, y: int|
            0 <= x < 128 && 0 <= y < 64 ==> pix(final(g)@, x, y) == (if x >= 4 {
                pix(old(g)@, x - 4, y)
            } else {
                0u8
            }),
{
    let mut gy: usize = 0;
    while gy < 64
        invariant
            gy <= 64,
            g@.len() == 8192,
            forall|k: int| 0 <= k < 8192 ==> g@[k] <= 1,
            forall|x: int, y: int|
                0 <= x < 128 && 0 <= y < gy ==> pix(g@, x, y) == (if x >= 4 {
                    pix(old(g)@, x - 4, y)
                } else {
                    0u8
                }),
            forall|x: int, y: int|
                0 <= x < 128 && gy <= y < 64 ==> pix(g@, x, y) == pix(old(g)@, x, y),
        decreases 64 - gy,
    {
        let mut gx: usize = 128;
        while gx > 4
            invariant
                4 <= gx <= 128,
                gy < 64,
                g@.len() == 8192,
                forall|k: int| 0 <= k < 8192 ==> g@[k] <= 1,
                forall|x: int, y: int|
                    0 <= x < 128 && 0 <= y < gy ==> pix(g@, x, y) == (if x >= 4 {
                        pix(old(g)@, x - 4, y)
                    } else {
                        0u8
                    }),
                forall|x: int| gx <= x < 128 ==> pix(g@, x, gy as int) == pix(old(g)@, x - 4, gy as int),
                forall|x: int| 0 <= x < gx ==> pix(g@, x, gy as int) == pix(old(g)@, x, gy as int),
                forall|x: int, y: int|
                    0 <= x < 128 && gy < y < 64 ==> pix(g@, x, y) == pix(old(g)@, x, y),
            decreases gx,
        {
            gx -= 1;
            let ghost g0 = g@;
            let val = g[gy * 128 + gx - 4];
            proof {
                assert(val == pix(g0, gx - 4, gy as int));
            }
            g[gy * 128 + gx] = val;
            proof {
                lemma_pix_update(g0, gx as int, gy as int, val);
            }
            proof {
                assert forall|x: int, y: int|
                    0 <= x < 128 && 0 <= y < 64 && !(x == gx && y == gy as int) implies #[trigger] pix(g@, x, y) == pix(g0, x, y) by {}
            }
        }
        let mut gx2: usize = 0;
        while gx2 < 4
            invariant
                gx2 <= 4,
                gy < 64,
                g@.len() == 8192,
                forall|k: int| 0 <= k < 8192 ==> g@[k] <= 1,
                forall|x: int, y: int|
                    0 <= x < 128 && 0 <= y < gy ==> pix(g@, x, y) == (if x >= 4 {
                        pix(old(g)@, x - 4, y)
                    } else {
                        0u8
                    }),
                forall|x: int| 4 <= x < 128 ==> pix(g@, x, gy as int) == pix(old(g)@, x - 4, gy as int),
                forall|x: int| 0 <= x < gx2 ==> pix(g@, x, gy as int) == 0,
                forall|x: int| gx2 <= x < 4 ==> pix(g@, x, gy as int) == pix(old(g)@, x, gy as int),
                forall|x: int, y: int|
                    0 <= x < 128 && gy < y < 64 ==> pix(g@, x, y) == pix(old(g)@, x, y),
            decreases 4 - gx2,
        {
            let ghost g0 = g@;
            g[gy * 128 + gx2] = 0;
            proof {
                lemma_pix_update(g0, gx2 as int, gy as int, 0u8);
            }
            proof {
                assert forall|x: int, y: int|
                    0 <= x < 128 && 0 <= y < 64 && !(x == gx2 && y == gy as int) implies #[trigger] pix(g@, x, y) == pix(g0, x, y) by {}
            }
            gx2 += 1;
        }
        gy += 1;
    }
}

/// Shifts the framebuffer `n` rows down; the `n` topmost rows are cleared.
pub fn scroll_down_buf(g: &mut Vec<u8>, n: usize)
    requires
        old(g)@.len() == 8192,
        forall|k: int| 0 <= k < 8192 ==> old(g)@[k] <= 1,
        n < 16,
    ensures
        final(g)@.len() == 8192,
        forall|k: int| 0 <= k < 8192 ==> final(g)@[k] <= 1,
        forall|x: int, y: int|
            0 <= x < 128 && 0 <= y < 64 ==> pix(final(g)@, x, y) == (if y >= n {
                pix(old(g)@, x, y - n)
            } else {
                0u8
            }),
{
    let mut gy: usize = 64;
    while gy > n
        invariant
            n <= gy <= 64,
            g@.len() == 8192,
            forall|k: int| 0 <= k < 8192 ==> g@[k] <= 1,
            forall|x: int, y: int|
                0 <= x < 128 && gy <= y < 64 ==> pix(g@, x, y) == pix(old(g)@, x, y - n),
            forall|x: int, y: int|
                0 <= x < 128 && 0 <= y < gy ==> pix(g@, x, y) == pix(old(g)@, x, y),
        decreases gy,
    {
        gy -= 1;
        let mut gx: usize = 0;
        while gx < 128
            invariant
                gx <= 128,
                n <= gy < 64,
                g@.len() == 8192,
                forall|k: int| 0 <= k < 8192 ==> g@[k] <= 1,
                forall|x: int, y: int|
                    0 <= x < 128 && gy < y < 64 ==> pix(g@, x, y) == pix(old(g)@, x, y - n),
                forall|x: int| 0 <= x < gx ==> pix(g@, x, gy as int) == pix(old(g)@, x, gy - n),
                forall|x: int| gx <= x < 128 ==> pix(g@, x, gy as int) == pix(old(g)@, x, gy as int),
                forall|x: int, y: int|
                    0 <= x < 128 && 0 <= y < gy ==> pix(g@, x, y) == pix(old(g)@, x, y),
            decreases 128 - gx,
        {
            let ghost g0 = g@;
            let val = g[(gy - n) * 128 + gx];
            proof {
                assert(val == pix(g0, gx as int, gy - n));
            }
            g[gy * 128 + gx] = val;
            proof {
                lemma_pix_update(g0, gx as int, gy as int, val);
            }
            proof {
                assert forall|x: int, y: int|
                    0 <= x < 128 && 0 <= y < 64 && !(x == gx && y == gy as int) implies #[trigger] pix(g@, x, y) == pix(g0, x, y) by {}
            }
            gx += 1;
        }
    }
    let mut zy: usize = 0;
    while zy < n
        invariant
            zy <= n <= 16,
            g@.len() == 8192,
            forall|k: int| 0 <= k < 8192 ==> g@[k] <= 1,
            forall|x: int, y: int|
                0 <= x < 128 && n <= y < 64 ==> pix(g@, x, y) == pix(old(g)@, x, y - n),
            forall|x: int, y: int| 0 <= x < 128 && 0 <= y < zy ==> pix(g@, x, y) == 0,
            forall|x: int, y: int|
                0 <= x < 128 && zy <= y < n ==> pix(g@, x, y) == pix(old(g)@, x, y),
        decreases n - zy,
    {
        let mut gx: usize = 0;
        while gx < 128
            invariant
                gx <= 128,
                zy < n <= 16,
                g@.len() == 8192,
                forall|k: int| 0 <= k < 8192 ==> g@[k] <= 1,
                forall|x: int, y: int|
                    0 <= x < 128 && n <= y < 64 ==> pix(g@, x, y) == pix(old(g)@, x, y - n),
                forall|x: int, y: int| 0 <= x < 128 && 0 <= y < zy ==> pix(g@, x, y) == 0,
                forall|x: int| 0 <= x < gx ==> pix(g@, x, zy as int) == 0,
                forall|x: int| gx <= x < 128 ==> pix(g@, x, zy as int) == pix(old(g)@, x, zy as int),
                forall|x: int, y: int|
                    0 <= x < 128 && zy < y < n ==> pix(g@, x, y) == pix(old(g)@, x, y),
            decreases 128 - gx,
        {
            let ghost g0 = g@;
            g[zy * 128 + gx] = 0;
            proof {
                lemma_pix_update(g0, gx as int, zy as int, 0u8);
            }
            proof {
                assert forall|x: int, y: int|
                    0 <= x < 128 && 0 <= y < 64 && !(x == gx && y == zy as int) implies #[trigger] pix(g@, x, y) == pix(g0, x, y) by {}
            }
            gx += 1;
        }
        zy += 1;
    }
}

impl CPU {
    /// The pixel byte at column `x`, row `y`, for the renderer.
    pub fn pixel_at(&self, x: usize, y: usize) -> (p: u8)
        requires
            self.wf(),
            x < 128,
            y < 64,
        ensures
            p == pix(self.graphics@, x as int, y as int),
    {
        self.graphics[y * 128 + x]
    }

    /// Clear-screen instruction: every pixel cleared.
    pub fn op_cls(&mut self)
        requires
            old(self).wf(),
        ensures
            final(self).wf(),
            forall|k: int| 0 <= k < 8192 ==> final(self).graphics@[k] == 0,
            final(self).pc == pc_plus(old(self).pc, 2),
            eq_except_gfx_pc(*old(self), *final(self)),
    {
        self.graphics = zero_bytes(8192);
        self.pc = (self.pc + 2) % 4096;
    }

    /// Scroll-left instruction (extended set): 4 columns left, rightmost 4
    /// cleared.
    pub fn op_scroll_left(&mut self)
        requires
            old(self).wf(),
        ensures
            final(self).wf(),
            forall|x: int, y: int|
                0 <= x < 128 && 0 <= y < 64 ==> pix(final(self).graphics@, x, y) == (if x < 124 {
                    pix(old(self).graphics@, x + 4, y)
                } else {
                    0u8
                }),
            final(self).pc == pc_plus(old(self).pc, 2),
            eq_except_gfx_pc(*old(self), *final(self)),
    {
        scroll_left_buf(&mut self.graphics);
        self.pc = (self.pc + 2) % 4096;
    }

    /// Scroll-right instruction (extended set): 4 columns right, leftmost 4
    /// cleared.
    pub fn op_scroll_right(&mut self)
        requires
            old(self).wf(),
        ensures
            final(self).wf(),
            forall|x: int, y: int|
                0 <= x < 128 && 0 <= y < 64 ==> pix(final(self).graphics@, x, y) == (if x >= 4 {
                    pix(old(self).graphics@, x - 4, y)
                } else {
                    0u8
                }),
            final(self).pc == pc_plus(old(self).pc, 2),
            eq_except_gfx_pc(*old(self), *final(self)),
    {
        scroll_right_buf(&mut self.graphics);
        self.pc = (self.pc + 2) % 4096;
    }

    /// Scroll-down instruction (extended set): `n` rows down, topmost `n`
    /// cleared.
    pub fn op_scroll_down(&mut self, n: usize)
        requires
            old(self).wf(),
            n < 16,
        ensures
            final(self).wf(),
            forall|x: int, y: int|
                0 <= x < 128 && 0 <= y < 64 ==> pix(final(self).graphics@, x, y) == (if y >= n {
                    pix(old(self).graphics@, x, y - n)
                } else {
                    0u8
                }),
            final(self).pc == pc_plus(old(self).pc, 2),
            eq_except_gfx_pc(*old(self), *final(self)),
    {
        scroll_down_buf(&mut self.graphics, n);
        self.pc = (self.pc + 2) % 4096;
    }

    /// Sprite-draw instruction DXYN: XOR-blits the sprite addressed by the
    /// index register at (VX, VY), records the collision in VF (1 exactly
    /// when a set pixel was hit), marks the framebuffer dirty and advances.
    pub fn op_draw(&mut self, x: usize, y: usize, n: usize)
        requires
            old(self).wf(),
            x < 16,
            y < 16,
            n < 16,
        ensures
            final(self).wf(),
            final(self).graphics@ == draw_result(*old(self), x as int, y as int, n as int).0,
            final(self).v@ == old(self).v@.update(
                15,
                if draw_result(*old(self), x as int, y as int, n as int).1 {
                    1u8
                } else {
                    0u8
                },
            ),
            final(self).draw_flag == true,
            final(self).pc == pc_plus(old(self).pc, 2),
            eq_except_gfx_v_draw_pc(*old(self), *final(self)),
    {
        let px = self.v[x];
        let py = self.v[y];
        let col = if self.is_extended && n == 0 {
            blit_sprite16(&mut self.graphics, &self.memory, self.i, px, py)
        } else if self.is_extended {
            blit_sprite8(&mut self.graphics, &self.memory, self.i, px, py, n, false, 128, 64)
        } else {
            blit_sprite8(&mut self.graphics, &self.memory, self.i, px, py, n, true, 64, 32)
        };
        self.v[15] = if col {
            1
        } else {
            0
        };
        self.draw_flag = true;
        self.pc = (self.pc + 2) % 4096;
    }
}

} // verus!
