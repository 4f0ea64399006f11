//! The per-opcode handlers. Each one is proved to implement its `sem_*`
//! transition relation from [`crate::semantics`]; the handlers read their
//! operand fields out of the already-fetched `opcode` register.

use vstd::prelude::*;
use crate::cpu::{Cpu, CpuError};
use crate::semantics::{
    lemma_op_parts, last_pressed, op_x, sem_00e0, sem_00ee, sem_1nnn, sem_2nnn, sem_3xkk,
    sem_4xkk, sem_5xy0, sem_6xkk, sem_7xkk, sem_8xy0, sem_8xy1, sem_8xy2, sem_8xy3, sem_8xy4,
    sem_8xy5, sem_8xy6, sem_8xy7, sem_8xye, sem_9xy0, sem_annn, sem_bnnn, sem_cxkk, sem_ex9e,
    sem_exa1, sem_fx07, sem_fx0a, sem_fx15, sem_fx18, sem_fx1e, sem_fx29, sem_fx33, sem_fx55,
    sem_fx65, store_regs, load_regs,
};

verus! {

/// A register value masked to the 16-key range stays a valid key index.
proof fn lemma_key_index(v: u8)
    ensures
        v & 0xF < 16,
{
    assert(v & 0xF < 16) by (bit_vector);
}

impl Cpu {
    /// `00E0`: clear every framebuffer pixel and set the dirty flag.
    pub fn op_0x00e0(&mut self)
        ensures
            sem_00e0(*old(self), *final(self)),
    {
        for i in 0..64usize
            invariant
                forall|yy: int, xx: int|
                    0 <= yy < 32 && 0 <= xx < i ==> self.video_ram[yy][xx] == 0,
                (*self == Cpu { video_ram: self.video_ram, ..*old(self) }),
        {
            for j in 0..32usize
                invariant
                    forall|yy: int, xx: int|
                        0 <= yy < 32 && 0 <= xx < i ==> self.video_ram[yy][xx] == 0,
                    forall|yy: int| 0 <= yy < j ==> self.video_ram[yy][i as int] == 0,
                    i < 64,
                    (*self == Cpu { video_ram: self.video_ram, ..*old(self) }),
            {
                self.video_ram[j][i] = 0;
            }
        }
        self.video_ram_changed = true;
    }

    /// `00EE`: return from a subroutine by popping the call stack into the
    /// program counter; reports the empty-stack condition instead of
    /// corrupting state.
    pub fn op_0x00ee(&mut self) -> (r: Result<(), CpuError>)
        requires
            old(self).reg_sp <= 16,
        ensures
            old(self).reg_sp == 0 ==> r == Err::<(), CpuError>(CpuError::StackUnderflow)
                && *final(self) == *old(self),
            old(self).reg_sp >= 1 ==> r == Ok::<(), CpuError>(()) && sem_00ee(*old(self), *final(self)),
    {
        if self.reg_sp == 0 {
            return Err(CpuError::StackUnderflow);
        }
        self.reg_sp = self.reg_sp - 1;
        self.reg_pc = self.stack[self.reg_sp as usize];
        Ok(())
    }

    /// `1nnn`: jump to address nnn.
    pub fn op_0x1nnn(&mut self)
        ensures
            sem_1nnn(*old(self), *final(self)),
    {
        self.reg_pc = self.opcode & 0x0FFF;
    }

    /// `2nnn`: call the subroutine at nnn, pushing the return address;
    /// reports the full-stack condition instead of corrupting state.
    pub fn op_0x2nnn(&mut self) -> (r: Result<(), CpuError>)
        ensures
            old(self).reg_sp >= 16 ==> r == Err::<(), CpuError>(CpuError::StackOverflow)
                && *final(self) == *old(self),
            old(self).reg_sp < 16 ==> r == Ok::<(), CpuError>(()) && sem_2nnn(*old(self), *final(self)),
    {
        if self.reg_sp >= 16 {
            return Err(CpuError::StackOverflow);
        }
        self.stack[self.reg_sp as usize] = self.reg_pc;
        self.reg_sp = self.reg_sp + 1;
        self.reg_pc = self.opcode & 0x0FFF;
        Ok(())
    }

    /// `3xkk`: skip the next instruction if Vx == kk.
    pub fn op_0x3xkk(&mut self)
        requires
            old(self).reg_pc + 2 <= 0xFFFF,
        ensures
            sem_3xkk(*old(self), *final(self)),
    {
        proof {
            lemma_op_parts(self.opcode);
        }
        let x = ((self.opcode >> 8) & 0xF) as usize;
        if self.reg_v[x] == (self.opcode & 0xFF) as u8 {
            self.reg_pc = self.reg_pc + 2;
        }
    }

    /// `4xkk`: skip the next instruction if Vx != kk.
    pub fn op_0x4xkk(&mut self)
        requires
            old(self).reg_pc + 2 <= 0xFFFF,
        ensures
            sem_4xkk(*old(self), *final(self)),
    {
        proof {
            lemma_op_parts(self.opcode);
        }
        let x = ((self.opcode >> 8) & 0xF) as usize;
        if self.reg_v[x] != (self.opcode & 0xFF) as u8 {
            self.reg_pc = self.reg_pc + 2;
        }
    }

    /// `5xy0`: skip the next instruction if Vx == Vy.
    pub fn op_0x5xy0(&mut self)
        requires
            old(self).reg_pc + 2 <= 0xFFFF,
        ensures
            sem_5xy0(*old(self), *final(self)),
    {
        proof {
            lemma_op_parts(self.opcode);
        }
        let x = ((self.opcode >> 8) & 0xF) as usize;
        let y = ((self.opcode >> 4) & 0xF) as usize;
        if self.reg_v[x] == self.reg_v[y] {
            self.reg_pc = self.reg_pc + 2;
        }
    }

    /// `6xkk`: Vx = kk.
    pub fn op_0x6xkk(&mut self)
        ensures
            sem_6xkk(*old(self), *final(self)),
    {
        proof {
            lemma_op_parts(self.opcode);
        }
        let x = ((self.opcode >> 8) & 0xF) as usize;
        self.reg_v[x] = (self.opcode & 0xFF) as u8;
    }

    /// `7xkk`: Vx = Vx + kk, wrapping modulo 256.
    pub fn op_0x7xkk(&mut self)
        ensures
            sem_7xkk(*old(self), *final(self)),
    {
        proof {
            lemma_op_parts(self.opcode);
        }
        let x = ((self.opcode >> 8) & 0xF) as usize;
        let sum: u16 = self.reg_v[x] as u16 + ((self.opcode & 0xFF) as u8) as u16;
        self.reg_v[x] = (sum % 256) as u8;
    }

    /// `8xy0`: Vx = Vy.
    pub fn op_0x8xy0(&mut self)
        ensures
            sem_8xy0(*old(self), *final(self)),
    {
        proof {
            lemma_op_parts(self.opcode);
        }
        let x = ((self.opcode >> 8) & 0xF) as usize;
        let y = ((self.opcode >> 4) & 0xF) as usize;
        self.reg_v[x] = self.reg_v[y];
    }

    /// `8xy1`: Vx = Vx | Vy.
    pub fn op_0x8xy1(&mut self)
        ensures
            sem_8xy1(*old(self), *final(self)),
    {
        proof {
            lemma_op_parts(self.opcode);
        }
        let x = ((self.opcode >> 8) & 0xF) as usize;
        let y = ((self.opcode >> 4) & 0xF) as usize;
        self.reg_v[x] = self.reg_v[x] | self.reg_v[y];
    }

    /// `8xy2`: Vx = Vx & Vy.
    pub fn op_0x8xy2(&mut self)
        ensures
            sem_8xy2(*old(self), *final(self)),
    {
        proof {
            lemma_op_parts(self.opcode);
        }
        let x = ((self.opcode >> 8) & 0xF) as usize;
        let y = ((self.opcode >> 4) & 0xF) as usize;
        self.reg_v[x] = self.reg_v[x] & self.reg_v[y];
    }

    /// `8xy3`: Vx = Vx ^ Vy.
    pub fn op_0x8xy3(&mut self)
        ensures
            sem_8xy3(*old(self), *final(self)),
    {
        proof {
            lemma_op_parts(self.opcode);
        }
        let x = ((self.opcode >> 8) & 0xF) as usize;
        let y = ((self.opcode >> 4) & 0xF) as usize;
        self.reg_v[x] = self.reg_v[x] ^ self.reg_v[y];
    }

    /// `8xy4`: Vx = Vx + Vy wrapping; VF = 1 exactly when the unwrapped sum
    /// exceeds 255.
    pub fn op_0x8xy4(&mut self)
        ensures
            sem_8xy4(*old(self), *final(self)),
    {
        proof {
            lemma_op_parts(self.opcode);
        }
        let x = ((self.opcode >> 8) & 0xF) as usize;
        let y = ((self.opcode >> 4) & 0xF) as usize;
        let sum: u16 = self.reg_v[x] as u16 + self.reg_v[y] as u16;
        self.reg_v[x] = (sum % 256) as u8;
        self.reg_v[0xF] = if sum > 255 { 1 } else { 0 };
    }

    /// `8xy5`: Vx = Vx - Vy wrapping; VF = 1 exactly when no borrow
    /// occurred.
    pub fn op_0x8xy5(&mut self)
        ensures
            sem_8xy5(*old(self), *final(self)),
    {
        proof {
            lemma_op_parts(self.opcode);
        }
        let x = ((self.opcode >> 8) & 0xF) as usize;
        let y = ((self.opcode >> 4) & 0xF) as usize;
        let a = self.reg_v[x];
        let b = self.reg_v[y];
        if a >= b {
            self.reg_v[x] = a - b;
            self.reg_v[0xF] = 1;
        } else {
            self.reg_v[x] = ((a as u16 + 256 - b as u16) % 256) as u8;
            self.reg_v[0xF] = 0;
        }
    }

    /// `8xy6`: VF = the least-significant bit of Vx, then Vx >>= 1.
    pub fn op_0x8xy6(&mut self)
        ensures
            sem_8xy6(*old(self), *final(self)),
    {
        proof {
            lemma_op_parts(self.opcode);
        }
        let x = ((self.opcode >> 8) & 0xF) as usize;
        self.reg_v[0xF] = self.reg_v[x] & 0x1;
        self.reg_v[x] = self.reg_v[x] >> 1u8;
    }

    /// `8xy7`: Vx = Vy - Vx wrapping; VF = 1 exactly when no borrow
    /// occurred.
    pub fn op_0x8xy7(&mut self)
        ensures
            sem_8xy7(*old(self), *final(self)),
    {
        proof {
            lemma_op_parts(self.opcode);
        }
        let x = ((self.opcode >> 8) & 0xF) as usize;
        let y = ((self.opcode >> 4) & 0xF) as usize;
        let a = self.reg_v[x];
        let b = self.reg_v[y];
        if b >= a {
            self.reg_v[x] = b - a;
            self.reg_v[0xF] = 1;
        } else {
            self.reg_v[x] = ((b as u16 + 256 - a as u16) % 256) as u8;
            self.reg_v[0xF] = 0;
        }
    }

    /// `8xyE`: VF = the most-significant bit of Vx, then Vx <<= 1.
    #[allow(non_snake_case)]
    pub fn op_0x8xyE(&mut self)
        ensures
            sem_8xye(*old(self), *final(self)),
    {
        proof {
            lemma_op_parts(self.opcode);
        }
        let x = ((self.opcode >> 8) & 0xF) as usize;
        self.reg_v[0xF] = (self.reg_v[x] & 0x80) >> 7u8;
        self.reg_v[x] = self.reg_v[x] << 1u8;
    }

    /// `9xy0`: skip the next instruction if Vx != Vy.
    pub fn op_0x9xy0(&mut self)
        requires
            old(self).reg_pc + 2 <= 0xFFFF,
        ensures
            sem_9xy0(*old(self), *final(self)),
    {
        proof {
            lemma_op_parts(self.opcode);
        }
        let x = ((self.opcode >> 8) & 0xF) as usize;
        let y = ((self.opcode >> 4) & 0xF) as usize;
        if self.reg_v[x] != self.reg_v[y] {
            self.reg_pc = self.reg_pc + 2;
        }
    }

    /// `Annn`: I = nnn.
    #[allow(non_snake_case)]
    pub fn op_0xAnnn(&mut self)
        ensures
            sem_annn(*old(self), *final(self)),
    {
        self.reg_i = self.opcode & 0x0FFF;
    }

    /// `Bnnn`: jump to nnn + V0.
    #[allow(non_snake_case)]
    pub fn op_0xBnnn(&mut self)
        ensures
            sem_bnnn(*old(self), *final(self)),
    {
        proof {
            lemma_op_parts(self.opcode);
        }
        self.reg_pc = (self.opcode & 0x0FFF) + self.reg_v[0] as u16;
    }

    /// `Cxkk`: Vx = `byte` & kk. The byte comes from the random source; the
    /// engine draws it and hands it in, and this handler is verified for
    /// every value it may take.
    #[allow(non_snake_case)]
    pub fn op_0xCxkk(&mut self, byte: u8)
        ensures
            sem_cxkk(*old(self), *final(self), byte),
    {
        proof {
            lemma_op_parts(self.opcode);
        }
        let x = ((self.opcode >> 8) & 0xF) as usize;
        self.reg_v[x] = byte & (self.opcode & 0xFF) as u8;
    }

    /// `Ex9E`: skip the next instruction if the key numbered by Vx (masked
    /// to the key range) is pressed.
    #[allow(non_snake_case)]
    pub fn op_0xEx9E(&mut self)
        requires
            old(self).reg_pc + 2 <= 0xFFFF,
        ensures
            sem_ex9e(*old(self), *final(self)),
    {
        proof {
            lemma_op_parts(self.opcode);
        }
        let x = ((self.opcode >> 8) & 0xF) as usize;
        let key = self.reg_v[x] & 0xF;
        proof {
            lemma_key_index(self.reg_v[op_x(self.opcode) as int]);
        }
        if self.keyboard[key as usize] {
            self.reg_pc = self.reg_pc + 2;
        }
    }

    /// `ExA1`: skip the next instruction if the key numbered by Vx (masked
    /// to the key range) is not pressed.
    #[allow(non_snake_case)]
    pub fn op_0xExA1(&mut self)
        requires
            old(self).reg_pc + 2 <= 0xFFFF,
        ensures
            sem_exa1(*old(self), *final(self)),
    {
        proof {
            lemma_op_parts(self.opcode);
        }
        let x = ((self.opcode >> 8) & 0xF) as usize;
        let key = self.reg_v[x] & 0xF;
        proof {
            lemma_key_index(self.reg_v[op_x(self.opcode) as int]);
        }
        if !self.keyboard[key as usize] {
            self.reg_pc = self.reg_pc + 2;
        }
    }

    /// `Fx07`: Vx = the delay timer.
    #[allow(non_snake_case)]
    pub fn op_0xFx07(&mut self)
        ensures
            sem_fx07(*old(self), *final(self)),
    {
        proof {
            lemma_op_parts(self.opcode);
        }
        let x = ((self.opcode >> 8) & 0xF) as usize;
        self.reg_v[x] = self.reg_delay_timer;
    }

    /// `Fx0A`: scan the keys upward; if any is pressed, Vx = the highest
    /// pressed index, otherwise rewind the program counter to busy-wait for
    /// a key.
    #[allow(non_snake_case)]
    pub fn op_0xFx0A(&mut self)
        requires
            old(self).reg_pc >= 2,
        ensures
            sem_fx0a(*old(self), *final(self)),
    {
        proof {
            lemma_op_parts(self.opcode);
        }
        let x = ((self.opcode >> 8) & 0xF) as usize;
        let mut key_pressed = false;
        for i in 0..16usize
            invariant
                x == op_x(old(self).opcode) as usize,
                x < 16,
                ({
                    let lp = last_pressed(old(self).keyboard, i as int);
                    if lp >= 0 {
                        &&& key_pressed
                        &&& self.reg_v@ == old(self).reg_v@.update(x as int, lp as u8)
                        &&& (*self == Cpu { reg_v: self.reg_v, ..*old(self) })
                    } else {
                        !key_pressed && *self == *old(self)
                    }
                }),
        {
            if self.keyboard[i] {
                self.reg_v[x] = i as u8;
                key_pressed = true;
                proof {
                    assert(self.reg_v@ =~= old(self).reg_v@.update(x as int, i as u8));
                }
            }
        }
        if !key_pressed {
            self.reg_pc = self.reg_pc - 2;
        }
    }

    /// `Fx15`: delay timer = Vx.
    #[allow(non_snake_case)]
    pub fn op_0xFx15(&mut self)
        ensures
            sem_fx15(*old(self), *final(self)),
    {
        proof {
            lemma_op_parts(self.opcode);
        }
        let x = ((self.opcode >> 8) & 0xF) as usize;
        self.reg_delay_timer = self.reg_v[x];
    }

    /// `Fx18`: sound timer = Vx.
    #[allow(non_snake_case)]
    pub fn op_0xFx18(&mut self)
        ensures
            sem_fx18(*old(self), *final(self)),
    {
        proof {
            lemma_op_parts(self.opcode);
        }
        let x = ((self.opcode >> 8) & 0xF) as usize;
        self.reg_sound_timer = self.reg_v[x];
    }

    /// `Fx1E`: I = I + Vx, wrapping modulo 2^16.
    #[allow(non_snake_case)]
    pub fn op_0xFx1E(&mut self)
        ensures
            sem_fx1e(*old(self), *final(self)),
    {
        proof {
            lemma_op_parts(self.opcode);
        }
        let x = ((self.opcode >> 8) & 0xF) as usize;
        self.reg_i = self.reg_i.wrapping_add(self.reg_v[x] as u16);
    }

    /// `Fx29`: I = Vx * 5, the font glyph base address for digit Vx.
    #[allow(non_snake_case)]
    pub fn op_0xFx29(&mut self)
        ensures
            sem_fx29(*old(self), *final(self)),
    {
        proof {
            lemma_op_parts(self.opcode);
        }
        let x = ((self.opcode >> 8) & 0xF) as usize;
        self.reg_i = self.reg_v[x] as u16 * 5;
    }

    /// `Fx33`: store the decimal digits of Vx at memory I, I+1, I+2, each
    /// address masked to the address space.
    #[allow(non_snake_case)]
    pub fn op_0xFx33(&mut self)
        ensures
            sem_fx33(*old(self), *final(self)),
    {
        proof {
            lemma_op_parts(self.opcode);
        }
        let x = ((self.opcode >> 8) & 0xF) as usize;
        let vx = self.reg_v[x];
        let base = self.reg_i as usize;
        self.ram[base % 4096] = vx / 100;
        self.ram[(base + 1) % 4096] = (vx % 100) / 10;
        self.ram[(base + 2) % 4096] = vx % 10;
    }

    /// `Fx55`: store V0..=Vx into memory at I..=I+x, each address masked to
    /// the address space.
    #[allow(non_snake_case)]
    pub fn op_0xFx55(&mut self)
        ensures
            sem_fx55(*old(self), *final(self)),
    {
        proof {
            lemma_op_parts(self.opcode);
        }
        let x = ((self.opcode >> 8) & 0xF) as usize;
        let base = self.reg_i as usize;
        for i in 0..x + 1
            invariant
                x == op_x(old(self).opcode) as usize,
                x < 16,
                base == old(self).reg_i as usize,
                self.ram@ == store_regs(
                    old(self).ram@,
                    old(self).reg_v,
                    old(self).reg_i as int,
                    i as int - 1,
                ),
                (*self == Cpu { ram: self.ram, ..*old(self) }),
        {
            self.ram[(base + i) % 4096] = self.reg_v[i];
        }
    }

    /// `Fx65`: fill V0..=Vx from memory at I..=I+x, each address masked to
    /// the address space.
    #[allow(non_snake_case)]
    pub fn op_0xFx65(&mut self)
        ensures
            sem_fx65(*old(self), *final(self)),
    {
        proof {
            lemma_op_parts(self.opcode);
        }
        let x = ((self.opcode >> 8) & 0xF) as usize;
        let base = self.reg_i as usize;
        for i in 0..x + 1
            invariant
                x == op_x(old(self).opcode) as usize,
                x < 16,
                base == old(self).reg_i as usize,
                self.reg_v@ == load_regs(
                    old(self).reg_v@,
                    old(self).ram,
                    old(self).reg_i as int,
                    i as int - 1,
                ),
                (*self == Cpu { reg_v: self.reg_v, ..*old(self) }),
        {
            self.reg_v[i] = self.ram[(base + i) % 4096];
        }
    }
}

} // verus!
