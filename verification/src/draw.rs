//! The sprite-blit instruction `Dxyn`: its mathematical description and the
//! verified implementation.
//!
//! A sprite is 8 pixels wide and `n` rows tall, read from memory at the
//! index register. Each sprite pixel is XOR-composited onto the framebuffer
//! at coordinates that wrap at the screen edges; VF reports whether any
//! drawn pixel collided with a pixel that was already set.

use vstd::prelude::*;
use crate::cpu::Cpu;
use crate::semantics::{lemma_op_parts, op_n, op_x, op_y};
use vstd::arithmetic::div_mod::{
    lemma_fundamental_div_mod,
    lemma_mod_multiples_vanish,
    lemma_small_mod,
};

verus! {

/// The sprite row byte for row `r`: memory at I + r, masked to the address
/// space.
pub open spec fn sprite_row(ram: [u8; 4096], i_reg: u16, r: int) -> u8 {
    ram[(i_reg + r) % 4096]
}

/// Bit `b` of a sprite row, most significant bit first.
pub open spec fn sprite_bit(row: u8, b: int) -> u8 {
    (row >> ((7 - b) as u8)) & 1
}

/// Whether sprite coordinate (r, b) lies before the point (rows, bits) in
/// row-major drawing order.
pub open spec fn drawn_before(rows: int, bits: int, r: int, b: int) -> bool {
    r < rows || (r == rows && b < bits)
}

/// The framebuffer pixel at (yy, xx) once every sprite pixel before
/// (rows, bits) in drawing order has been composited: each screen cell is
/// hit by at most one sprite pixel, the one at row (yy - oy) mod 32 and
/// bit (xx - ox) mod 64.
pub open spec fn draw_px(pre: Cpu, ox: u8, oy: u8, rows: int, bits: int, yy: int, xx: int) -> u8 {
    let r = (yy - oy) % 32;
    let b = (xx - ox) % 64;
    if drawn_before(rows, bits, r, b) && b < 8 {
        pre.video_ram[yy][xx] ^ sprite_bit(sprite_row(pre.ram, pre.reg_i, r), b)
    } else {
        pre.video_ram[yy][xx]
    }
}

/// Whether some sprite pixel before (rows, bits) in drawing order is set
/// and lands on a framebuffer pixel that was already set.
pub open spec fn draw_collides(pre: Cpu, ox: u8, oy: u8, rows: int, bits: int) -> bool {
    exists|r: int, b: int|
        0 <= r && 0 <= b < 8 && drawn_before(rows, bits, r, b)
            && #[trigger] sprite_bit(sprite_row(pre.ram, pre.reg_i, r), b) == 1
            && pre.video_ram[(oy + r) % 32][(ox + b) % 64] == 1
}

/// Whether some sprite pixel before (rows, bits) in drawing order is set
/// (and hence flips a framebuffer pixel).
pub open spec fn draw_flips(pre: Cpu, rows: int, bits: int) -> bool {
    exists|r: int, b: int|
        0 <= r && 0 <= b < 8 && drawn_before(rows, bits, r, b)
            && #[trigger] sprite_bit(sprite_row(pre.ram, pre.reg_i, r), b) == 1
}

/// `Dxyn`: the sprite at memory I..I+n is XOR-composited at (Vx, Vy) with
/// wraparound; VF = 1 exactly when some drawn pixel collided with an
/// already-set pixel, anywhere in the sprite; the dirty flag is set exactly
/// when some pixel changed.
pub open spec fn sem_dxyn(pre: Cpu, post: Cpu) -> bool {
    let ox = pre.reg_v[op_x(pre.opcode) as int];
    let oy = pre.reg_v[op_y(pre.opcode) as int];
    let n = op_n(pre.opcode) as int;
    &&& forall|yy: int, xx: int|
        0 <= yy < 32 && 0 <= xx < 64 ==> #[trigger] post.video_ram[yy][xx] == draw_px(
            pre,
            ox,
            oy,
            n,
            0,
            yy,
            xx,
        )
    &&& post.reg_v@ == pre.reg_v@.update(
        0xF,
        if draw_collides(pre, ox, oy, n, 0) { 1u8 } else { 0u8 },
    )
    &&& post.video_ram_changed == (pre.video_ram_changed || draw_flips(pre, n, 0))
    &&& post == Cpu {
        video_ram: post.video_ram,
        video_ram_changed: post.video_ram_changed,
        reg_v: post.reg_v,
        ..pre
    }
}

/// For a screen axis of length `m`, the wrapped offset `d` from `base`
/// lands on cell `c` exactly when unwrapping `c` against `base` gives `d`
/// back: the correspondence between sprite coordinates and screen cells is
/// one to one.
pub proof fn lemma_wrap_cell(base: int, d: int, m: int, c: int)
    requires
        m > 0,
        0 <= d < m,
        0 <= c < m,
    ensures
        ((c - base) % m == d) <==> (c == (base + d) % m),
{
    let t = (base + d) % m;
    lemma_fundamental_div_mod(base + d, m);
    let q = (base + d) / m;
    assert(t == base + d - m * q);
    assert(m * (-q) == -(m * q)) by (nonlinear_arith);
    assert((t - base) % m == (m * (-q) + d) % m);
    lemma_mod_multiples_vanish(-q, d, m);
    lemma_small_mod(d as nat, m as nat);
    assert((t - base) % m == d);
    if (c - base) % m == d {
        lemma_fundamental_div_mod(c - base, m);
        let q2 = (c - base) / m;
        assert(c == base + d + m * q2);
        assert(c % m == (d + base + m * q2) % m);
        lemma_mod_multiples_vanish(q2, d + base, m);
        lemma_small_mod(c as nat, m as nat);
        assert(c % m == (base + d) % m);
        assert(c == t);
    }
}

/// A sprite bit is a single bit.
proof fn lemma_bit_le_1(row: u8, sh: u8)
    ensures
        (row >> sh) & 1 <= 1,
{
    assert((row >> sh) & 1 <= 1) by (bit_vector);
}

/// XOR of two single bits is a single bit.
proof fn lemma_xor_bit(a: u8, b: u8)
    requires
        a <= 1,
        b <= 1,
    ensures
        (a ^ b) <= 1,
{
    assert(a <= 1 && b <= 1 ==> (a ^ b) <= 1) by (bit_vector);
}

impl Cpu {
    /// `Dxyn`: XOR-composite the n-row sprite at memory I onto the
    /// framebuffer at (Vx, Vy) with wraparound; VF reports whether any drawn
    /// pixel collided with an already-set pixel, and the dirty flag is set
    /// if any pixel changed.
    #[allow(non_snake_case)]
    pub fn op_0xDxyn(&mut self)
        ensures
            sem_dxyn(*old(self), *final(self)),
            old(self).wf() ==> final(self).wf(),
    {
        proof {
            lemma_op_parts(self.opcode);
        }
        let ghost pre = *old(self);
        let x = ((self.opcode >> 8) & 0xF) as usize;
        let y = ((self.opcode >> 4) & 0xF) as usize;
        let n = (self.opcode & 0xF) as usize;
        let ox = self.reg_v[x];
        let oy = self.reg_v[y];
        let mut vf: u8 = 0;
        let mut changed = false;

        for r in 0..n
            invariant
                x == op_x(pre.opcode) as usize,
                y == op_y(pre.opcode) as usize,
                n == op_n(pre.opcode) as usize,
                n < 16,
                ox == pre.reg_v[x as int],
                oy == pre.reg_v[y as int],
                (*self == Cpu { video_ram: self.video_ram, ..pre }),
                forall|cy: int, cx: int|
                    0 <= cy < 32 && 0 <= cx < 64 ==> #[trigger] self.video_ram[cy][cx]
                        == draw_px(pre, ox, oy, r as int, 0, cy, cx),
                vf == if draw_collides(pre, ox, oy, r as int, 0) { 1u8 } else { 0u8 },
                changed == draw_flips(pre, r as int, 0),
        {
            let row = self.ram[(self.reg_i as usize + r) % 4096];
            assert(row == sprite_row(pre.ram, pre.reg_i, r as int));
            for b in 0..8usize
                invariant
                    x == op_x(pre.opcode) as usize,
                    y == op_y(pre.opcode) as usize,
                    n == op_n(pre.opcode) as usize,
                    n < 16,
                    r < n,
                    ox == pre.reg_v[x as int],
                    oy == pre.reg_v[y as int],
                    row == sprite_row(pre.ram, pre.reg_i, r as int),
                    (*self == Cpu { video_ram: self.video_ram, ..pre }),
                    forall|cy: int, cx: int|
                        0 <= cy < 32 && 0 <= cx < 64 ==> #[trigger] self.video_ram[cy][cx]
                            == draw_px(pre, ox, oy, r as int, b as int, cy, cx),
                    vf == if draw_collides(pre, ox, oy, r as int, b as int) { 1u8 } else { 0u8 },
                    changed == draw_flips(pre, r as int, b as int),
            {
                let pixel = (row >> (7 - b) as u8) & 1;
                let xx = (ox as usize + b) % 64;
                let yy = (oy as usize + r) % 32;
                let ghost fb0 = self.video_ram;
                let ghost rn = r as int;
                let ghost bn = b as int;
                proof {
                    assert(pixel == sprite_bit(row, bn));
                    lemma_wrap_cell(oy as int, rn, 32, yy as int);
                    lemma_wrap_cell(ox as int, bn, 64, xx as int);
                    assert((yy as int - oy) % 32 == rn);
                    assert((xx as int - ox) % 64 == bn);
                    assert(!drawn_before(rn, bn, rn, bn));
                    assert(self.video_ram[yy as int][xx as int] == draw_px(
                        pre, ox, oy, rn, bn, yy as int, xx as int));
                    assert(self.video_ram[yy as int][xx as int]
                        == pre.video_ram[yy as int][xx as int]);
                }
                if pixel == 1 {
                    changed = true;
                    if self.video_ram[yy][xx] == 1 {
                        vf = 1;
                    }
                }
                self.video_ram[yy][xx] = self.video_ram[yy][xx] ^ pixel;
                proof {
                    assert(self.video_ram[yy as int][xx as int] == pre.video_ram[yy as int][xx
                        as int] ^ sprite_bit(row, bn));
                    assert forall|cy: int, cx: int|
                        0 <= cy < 32 && 0 <= cx < 64 implies #[trigger] self.video_ram[cy][cx]
                        == draw_px(pre, ox, oy, rn, bn + 1, cy, cx) by {
                        lemma_wrap_cell(oy as int, rn, 32, cy);
                        lemma_wrap_cell(ox as int, bn, 64, cx);
                        assert(fb0[cy][cx] == draw_px(pre, ox, oy, rn, bn, cy, cx));
                        if cy == yy as int && cx == xx as int {
                            assert(drawn_before(rn, bn + 1, rn, bn));
                        } else {
                            assert(self.video_ram[cy][cx] == fb0[cy][cx]);
                        }
                    }
                    assert(draw_collides(pre, ox, oy, rn, bn + 1) <==> (draw_collides(
                        pre, ox, oy, rn, bn,
                    ) || (sprite_bit(row, bn) == 1 && pre.video_ram[yy as int][xx as int] == 1)))
                        by {
                        if draw_collides(pre, ox, oy, rn, bn + 1) {
                            let (rr, bb): (int, int) = choose|rr: int, bb: int|
                                0 <= rr && 0 <= bb < 8 && drawn_before(rn, bn + 1, rr, bb)
                                    && #[trigger] sprite_bit(
                                    sprite_row(pre.ram, pre.reg_i, rr), bb,
                                ) == 1 && pre.video_ram[(oy + rr) % 32][(ox + bb) % 64] == 1;
                            if !drawn_before(rn, bn, rr, bb) {
                                assert(rr == rn && bb == bn);
                            } else {
                                assert(draw_collides(pre, ox, oy, rn, bn));
                            }
                        }
                        if draw_collides(pre, ox, oy, rn, bn) {
                            let (rr, bb): (int, int) = choose|rr: int, bb: int|
                                0 <= rr && 0 <= bb < 8 && drawn_before(rn, bn, rr, bb)
                                    && #[trigger] sprite_bit(
                                    sprite_row(pre.ram, pre.reg_i, rr), bb,
                                ) == 1 && pre.video_ram[(oy + rr) % 32][(ox + bb) % 64] == 1;
                            assert(drawn_before(rn, bn + 1, rr, bb));
                            assert(draw_collides(pre, ox, oy, rn, bn + 1));
                        }
                        if sprite_bit(row, bn) == 1 && pre.video_ram[yy as int][xx as int] == 1 {
                            assert(drawn_before(rn, bn + 1, rn, bn));
                            assert((oy + rn) % 32 == yy as int && (ox + bn) % 64 == xx as int);
                            assert(draw_collides(pre, ox, oy, rn, bn + 1));
                        }
                    }
                    assert(draw_flips(pre, rn, bn + 1) <==> (draw_flips(pre, rn, bn)
                        || sprite_bit(row, bn) == 1)) by {
                        if draw_flips(pre, rn, bn + 1) {
                            let (rr, bb): (int, int) = choose|rr: int, bb: int|
                                0 <= rr && 0 <= bb < 8 && drawn_before(rn, bn + 1, rr, bb)
                                    && #[trigger] sprite_bit(
                                    sprite_row(pre.ram, pre.reg_i, rr), bb,
                                ) == 1;
                            if !drawn_before(rn, bn, rr, bb) {
                                assert(rr == rn && bb == bn);
                            } else {
                                assert(draw_flips(pre, rn, bn));
                            }
                        }
                        if draw_flips(pre, rn, bn) {
                            let (rr, bb): (int, int) = choose|rr: int, bb: int|
                                0 <= rr && 0 <= bb < 8 && drawn_before(rn, bn, rr, bb)
                                    && #[trigger] sprite_bit(
                                    sprite_row(pre.ram, pre.reg_i, rr), bb,
                                ) == 1;
                            assert(drawn_before(rn, bn + 1, rr, bb));
                            assert(draw_flips(pre, rn, bn + 1));
                        }
                        if sprite_bit(row, bn) == 1 {
                            assert(drawn_before(rn, bn + 1, rn, bn));
                            assert(draw_flips(pre, rn, bn + 1));
                        }
                    }
                }
            }
            proof {
                let rn = r as int;
                assert forall|cy: int, cx: int|
                    0 <= cy < 32 && 0 <= cx < 64 implies #[trigger] self.video_ram[cy][cx]
                    == draw_px(pre, ox, oy, rn + 1, 0, cy, cx) by {
                    assert(self.video_ram[cy][cx] == draw_px(pre, ox, oy, rn, 8, cy, cx));
                }
                assert(draw_collides(pre, ox, oy, rn, 8) == draw_collides(pre, ox, oy, rn + 1, 0))
                    by {
                    if draw_collides(pre, ox, oy, rn, 8) {
                        let (rr, bb): (int, int) = choose|rr: int, bb: int|
                            0 <= rr && 0 <= bb < 8 && drawn_before(rn, 8, rr, bb)
                                && #[trigger] sprite_bit(sprite_row(pre.ram, pre.reg_i, rr), bb)
                                == 1 && pre.video_ram[(oy + rr) % 32][(ox + bb) % 64] == 1;
                        assert(drawn_before(rn + 1, 0, rr, bb));
                        assert(draw_collides(pre, ox, oy, rn + 1, 0));
                    }
                    if draw_collides(pre, ox, oy, rn + 1, 0) {
                        let (rr, bb): (int, int) = choose|rr: int, bb: int|
                            0 <= rr && 0 <= bb < 8 && drawn_before(rn + 1, 0, rr, bb)
                                && #[trigger] sprite_bit(sprite_row(pre.ram, pre.reg_i, rr), bb)
                                == 1 && pre.video_ram[(oy + rr) % 32][(ox + bb) % 64] == 1;
                        assert(drawn_before(rn, 8, rr, bb));
                        assert(draw_collides(pre, ox, oy, rn, 8));
                    }
                }
                assert(draw_flips(pre, rn, 8) == draw_flips(pre, rn + 1, 0)) by {
                    if draw_flips(pre, rn, 8) {
                        let (rr, bb): (int, int) = choose|rr: int, bb: int|
                            0 <= rr && 0 <= bb < 8 && drawn_before(rn, 8, rr, bb)
                                && #[trigger] sprite_bit(sprite_row(pre.ram, pre.reg_i, rr), bb)
                                == 1;
                        assert(drawn_before(rn + 1, 0, rr, bb));
                        assert(draw_flips(pre, rn + 1, 0));
                    }
                    if draw_flips(pre, rn + 1, 0) {
                        let (rr, bb): (int, int) = choose|rr: int, bb: int|
                            0 <= rr && 0 <= bb < 8 && drawn_before(rn + 1, 0, rr, bb)
                                && #[trigger] sprite_bit(sprite_row(pre.ram, pre.reg_i, rr), bb)
                                == 1;
                        assert(drawn_before(rn, 8, rr, bb));
                        assert(draw_flips(pre, rn, 8));
                    }
                }
            }
        }
        self.reg_v[0xF] = vf;
        if changed {
            self.video_ram_changed = true;
        }
        proof {
            assert(self.video_ram_changed == (pre.video_ram_changed || draw_flips(
                pre, n as int, 0,
            )));
            if pre.wf() {
                let ox2 = pre.reg_v[op_x(pre.opcode) as int];
                let oy2 = pre.reg_v[op_y(pre.opcode) as int];
                let rows = op_n(pre.opcode) as int;
                assert forall|cy: int, cx: int|
                    0 <= cy < 32 && 0 <= cx < 64 implies self.video_ram[cy][cx] <= 1 by {
                    assert(self.video_ram[cy][cx] == draw_px(pre, ox2, oy2, rows, 0, cy, cx));
                    let rr = (cy - oy2) % 32;
                    let bb = (cx - ox2) % 64;
                    if drawn_before(rows, 0, rr, bb) && bb < 8 {
                        lemma_bit_le_1(sprite_row(pre.ram, pre.reg_i, rr), (7 - bb) as u8);
                        lemma_xor_bit(
                            pre.video_ram[cy][cx],
                            sprite_bit(sprite_row(pre.ram, pre.reg_i, rr), bb),
                        );
                    }
                }
            }
        }
    }
}

} // verus!
