//! The mathematical transition relation of the instruction set.
//!
//! `sem_*` states, for one opcode form each, exactly how the post-state
//! relates to the pre-state; [`step_sem`] dispatches on the fetched opcode
//! the way the engine decodes it, and is the contract of `Cpu::execute`.

use vstd::prelude::*;
use crate::cpu::{Cpu, CpuError, Step};
use crate::draw::sem_dxyn;

verus! {

/// The register index in the second-highest nibble (`x` in `_x__`).
pub open spec fn op_x(op: u16) -> usize {
    ((op >> 8) & 0xF) as usize
}

/// The register index in the second-lowest nibble (`y` in `__y_`).
pub open spec fn op_y(op: u16) -> usize {
    ((op >> 4) & 0xF) as usize
}

/// The low nibble (`n` in `___n`).
pub open spec fn op_n(op: u16) -> usize {
    (op & 0xF) as usize
}

/// The low byte (`kk` in `__kk`).
pub open spec fn op_kk(op: u16) -> u8 {
    (op & 0xFF) as u8
}

/// The low 12 bits (`nnn` in `_nnn`), an address.
pub open spec fn op_nnn(op: u16) -> u16 {
    op & 0xFFF
}

/// The opcode parts are small enough to index registers and memory.
pub proof fn lemma_op_parts(op: u16)
    ensures
        op_x(op) < 16,
        op_y(op) < 16,
        op_n(op) < 16,
        op_nnn(op) < 4096,
{
    assert((op >> 8) & 0xF < 16) by (bit_vector);
    assert((op >> 4) & 0xF < 16) by (bit_vector);
    assert(op & 0xF < 16) by (bit_vector);
    assert(op & 0xFFF < 4096) by (bit_vector);
}

/// `00E0`: clear the framebuffer and set the dirty flag.
pub open spec fn sem_00e0(pre: Cpu, post: Cpu) -> bool {
    &&& forall|y: int, x: int|
        0 <= y < 32 && 0 <= x < 64 ==> post.video_ram[y][x] == 0
    &&& post == Cpu { video_ram: post.video_ram, video_ram_changed: true, ..pre }
}

/// `00EE`: pop the call stack into the program counter.
pub open spec fn sem_00ee(pre: Cpu, post: Cpu) -> bool {
    &&& pre.reg_sp >= 1
    &&& post == Cpu {
        reg_sp: (pre.reg_sp - 1) as u8,
        reg_pc: pre.stack[pre.reg_sp - 1],
        ..pre
    }
}

/// `1nnn`: jump.
pub open spec fn sem_1nnn(pre: Cpu, post: Cpu) -> bool {
    post == Cpu { reg_pc: op_nnn(pre.opcode), ..pre }
}

/// `2nnn`: push the program counter, then jump to the subroutine.
pub open spec fn sem_2nnn(pre: Cpu, post: Cpu) -> bool {
    &&& pre.reg_sp < 16
    &&& post.stack@ == pre.stack@.update(pre.reg_sp as int, pre.reg_pc)
    &&& post == Cpu {
        stack: post.stack,
        reg_sp: (pre.reg_sp + 1) as u8,
        reg_pc: op_nnn(pre.opcode),
        ..pre
    }
}

/// `3xkk`: skip the next instruction if Vx == kk.
pub open spec fn sem_3xkk(pre: Cpu, post: Cpu) -> bool {
    post == Cpu {
        reg_pc: if pre.reg_v[op_x(pre.opcode) as int] == op_kk(pre.opcode) {
            (pre.reg_pc + 2) as u16
        } else {
            pre.reg_pc
        },
        ..pre
    }
}

/// `4xkk`: skip the next instruction if Vx != kk.
pub open spec fn sem_4xkk(pre: Cpu, post: Cpu) -> bool {
    post == Cpu {
        reg_pc: if pre.reg_v[op_x(pre.opcode) as int] != op_kk(pre.opcode) {
            (pre.reg_pc + 2) as u16
        } else {
            pre.reg_pc
        },
        ..pre
    }
}

/// `5xy0`: skip the next instruction if Vx == Vy.
pub open spec fn sem_5xy0(pre: Cpu, post: Cpu) -> bool {
    post == Cpu {
        reg_pc: if pre.reg_v[op_x(pre.opcode) as int] == pre.reg_v[op_y(pre.opcode) as int] {
            (pre.reg_pc + 2) as u16
        } else {
            pre.reg_pc
        },
        ..pre
    }
}

/// `6xkk`: Vx = kk.
pub open spec fn sem_6xkk(pre: Cpu, post: Cpu) -> bool {
    &&& post.reg_v@ == pre.reg_v@.update(op_x(pre.opcode) as int, op_kk(pre.opcode))
    &&& post == Cpu { reg_v: post.reg_v, ..pre }
}

/// `7xkk`: Vx = Vx + kk, wrapping modulo 256.
pub open spec fn sem_7xkk(pre: Cpu, post: Cpu) -> bool {
    &&& post.reg_v@ == pre.reg_v@.update(
        op_x(pre.opcode) as int,
        ((pre.reg_v[op_x(pre.opcode) as int] + op_kk(pre.opcode)) % 256) as u8,
    )
    &&& post == Cpu { reg_v: post.reg_v, ..pre }
}

/// `8xy0`: Vx = Vy.
pub open spec fn sem_8xy0(pre: Cpu, post: Cpu) -> bool {
    &&& post.reg_v@ == pre.reg_v@.update(
        op_x(pre.opcode) as int,
        pre.reg_v[op_y(pre.opcode) as int],
    )
    &&& post == Cpu { reg_v: post.reg_v, ..pre }
}

/// `8xy1`: Vx = Vx | Vy.
pub open spec fn sem_8xy1(pre: Cpu, post: Cpu) -> bool {
    &&& post.reg_v@ == pre.reg_v@.update(
        op_x(pre.opcode) as int,
        pre.reg_v[op_x(pre.opcode) as int] | pre.reg_v[op_y(pre.opcode) as int],
    )
    &&& post == Cpu { reg_v: post.reg_v, ..pre }
}

/// `8xy2`: Vx = Vx & Vy.
pub open spec fn sem_8xy2(pre: Cpu, post: Cpu) -> bool {
    &&& post.reg_v@ == pre.reg_v@.update(
        op_x(pre.opcode) as int,
        pre.reg_v[op_x(pre.opcode) as int] & pre.reg_v[op_y(pre.opcode) as int],
    )
    &&& post == Cpu { reg_v: post.reg_v, ..pre }
}

/// `8xy3`: Vx = Vx ^ Vy.
pub open spec fn sem_8xy3(pre: Cpu, post: Cpu) -> bool {
    &&& post.reg_v@ == pre.reg_v@.update(
        op_x(pre.opcode) as int,
        pre.reg_v[op_x(pre.opcode) as int] ^ pre.reg_v[op_y(pre.opcode) as int],
    )
    &&& post == Cpu { reg_v: post.reg_v, ..pre }
}

/// `8xy4`: Vx = Vx + Vy wrapping; VF = 1 exactly when the unwrapped sum
/// exceeds 255. VF is written after Vx, so it wins when x is F.
pub open spec fn sem_8xy4(pre: Cpu, post: Cpu) -> bool {
    let sum = pre.reg_v[op_x(pre.opcode) as int] + pre.reg_v[op_y(pre.opcode) as int];
    &&& post.reg_v@ == pre.reg_v@.update(op_x(pre.opcode) as int, (sum % 256) as u8).update(
        0xF,
        if sum > 255 { 1u8 } else { 0u8 },
    )
    &&& post == Cpu { reg_v: post.reg_v, ..pre }
}

/// `8xy5`: Vx = Vx - Vy wrapping; VF = 1 exactly when no borrow occurred
/// (Vx >= Vy before the operation).
pub open spec fn sem_8xy5(pre: Cpu, post: Cpu) -> bool {
    let a = pre.reg_v[op_x(pre.opcode) as int];
    let b = pre.reg_v[op_y(pre.opcode) as int];
    &&& post.reg_v@ == pre.reg_v@.update(op_x(pre.opcode) as int, ((a + 256 - b) % 256) as u8)
        .update(0xF, if a >= b { 1u8 } else { 0u8 })
    &&& post == Cpu { reg_v: post.reg_v, ..pre }
}

/// `8xy6`: VF = the least-significant bit of Vx, then Vx is shifted right
/// once. The flag is written first, so when x is F the shift reads the flag.
pub open spec fn sem_8xy6(pre: Cpu, post: Cpu) -> bool {
    let mid = pre.reg_v@.update(0xF, pre.reg_v[op_x(pre.opcode) as int] & 1);
    &&& post.reg_v@ == mid.update(op_x(pre.opcode) as int, mid[op_x(pre.opcode) as int] >> 1u8)
    &&& post == Cpu { reg_v: post.reg_v, ..pre }
}

/// `8xy7`: Vx = Vy - Vx wrapping; VF = 1 exactly when no borrow occurred
/// (Vy >= Vx before the operation).
pub open spec fn sem_8xy7(pre: Cpu, post: Cpu) -> bool {
    let a = pre.reg_v[op_x(pre.opcode) as int];
    let b = pre.reg_v[op_y(pre.opcode) as int];
    &&& post.reg_v@ == pre.reg_v@.update(op_x(pre.opcode) as int, ((b + 256 - a) % 256) as u8)
        .update(0xF, if b >= a { 1u8 } else { 0u8 })
    &&& post == Cpu { reg_v: post.reg_v, ..pre }
}

/// `8xyE`: VF = the most-significant bit of Vx, then Vx is shifted left
/// once. The flag is written first, so when x is F the shift reads the flag.
pub open spec fn sem_8xye(pre: Cpu, post: Cpu) -> bool {
    let mid = pre.reg_v@.update(0xF, (pre.reg_v[op_x(pre.opcode) as int] & 0x80) >> 7u8);
    &&& post.reg_v@ == mid.update(op_x(pre.opcode) as int, mid[op_x(pre.opcode) as int] << 1u8)
    &&& post == Cpu { reg_v: post.reg_v, ..pre }
}

/// `9xy0`: skip the next instruction if Vx != Vy.
pub open spec fn sem_9xy0(pre: Cpu, post: Cpu) -> bool {
    post == Cpu {
        reg_pc: if pre.reg_v[op_x(pre.opcode) as int] != pre.reg_v[op_y(pre.opcode) as int] {
            (pre.reg_pc + 2) as u16
        } else {
            pre.reg_pc
        },
        ..pre
    }
}

/// `Annn`: I = nnn.
pub open spec fn sem_annn(pre: Cpu, post: Cpu) -> bool {
    post == Cpu { reg_i: op_nnn(pre.opcode), ..pre }
}

/// `Bnnn`: jump to nnn + V0.
pub open spec fn sem_bnnn(pre: Cpu, post: Cpu) -> bool {
    post == Cpu { reg_pc: (op_nnn(pre.opcode) + pre.reg_v[0]) as u16, ..pre }
}

/// `Cxkk`: Vx = `byte` & kk, where `byte` came from the random source.
pub open spec fn sem_cxkk(pre: Cpu, post: Cpu, byte: u8) -> bool {
    &&& post.reg_v@ == pre.reg_v@.update(op_x(pre.opcode) as int, byte & op_kk(pre.opcode))
    &&& post == Cpu { reg_v: post.reg_v, ..pre }
}

/// `Ex9E`: skip the next instruction if the key numbered Vx & 0xF is
/// pressed (register values above 15 are masked to the key range).
pub open spec fn sem_ex9e(pre: Cpu, post: Cpu) -> bool {
    post == Cpu {
        reg_pc: if pre.keyboard[(pre.reg_v[op_x(pre.opcode) as int] & 0xF) as int] {
            (pre.reg_pc + 2) as u16
        } else {
            pre.reg_pc
        },
        ..pre
    }
}

/// `ExA1`: skip the next instruction if the key numbered Vx & 0xF is not
/// pressed.
pub open spec fn sem_exa1(pre: Cpu, post: Cpu) -> bool {
    post == Cpu {
        reg_pc: if !pre.keyboard[(pre.reg_v[op_x(pre.opcode) as int] & 0xF) as int] {
            (pre.reg_pc + 2) as u16
        } else {
            pre.reg_pc
        },
        ..pre
    }
}

/// `Fx07`: Vx = the delay timer.
pub open spec fn sem_fx07(pre: Cpu, post: Cpu) -> bool {
    &&& post.reg_v@ == pre.reg_v@.update(op_x(pre.opcode) as int, pre.reg_delay_timer)
    &&& post == Cpu { reg_v: post.reg_v, ..pre }
}

/// The highest key index below `n` that is pressed, or -1 if none is. The
/// scan runs upward and later finds overwrite earlier ones, so the highest
/// pressed key wins.
pub open spec fn last_pressed(kb: [bool; 16], n: int) -> int
    decreases n,
{
    if n <= 0 {
        -1
    } else if kb[n - 1] {
        n - 1
    } else {
        last_pressed(kb, n - 1)
    }
}

/// `Fx0A`: if any key is pressed, Vx = the highest pressed key index;
/// otherwise rewind the program counter so the same instruction is fetched
/// again next cycle (a busy wait for a key).
pub open spec fn sem_fx0a(pre: Cpu, post: Cpu) -> bool {
    let lp = last_pressed(pre.keyboard, 16);
    if lp >= 0 {
        &&& post.reg_v@ == pre.reg_v@.update(op_x(pre.opcode) as int, lp as u8)
        &&& post == Cpu { reg_v: post.reg_v, ..pre }
    } else {
        post == Cpu { reg_pc: (pre.reg_pc - 2) as u16, ..pre }
    }
}

/// `Fx15`: delay timer = Vx.
pub open spec fn sem_fx15(pre: Cpu, post: Cpu) -> bool {
    post == Cpu { reg_delay_timer: pre.reg_v[op_x(pre.opcode) as int], ..pre }
}

/// `Fx18`: sound timer = Vx.
pub open spec fn sem_fx18(pre: Cpu, post: Cpu) -> bool {
    post == Cpu { reg_sound_timer: pre.reg_v[op_x(pre.opcode) as int], ..pre }
}

/// `Fx1E`: I = I + Vx, wrapping modulo 2^16.
pub open spec fn sem_fx1e(pre: Cpu, post: Cpu) -> bool {
    post == Cpu {
        reg_i: ((pre.reg_i + pre.reg_v[op_x(pre.opcode) as int]) % 0x10000) as u16,
        ..pre
    }
}

/// `Fx29`: I = Vx * 5, the base address of the font glyph for digit Vx.
pub open spec fn sem_fx29(pre: Cpu, post: Cpu) -> bool {
    post == Cpu { reg_i: (pre.reg_v[op_x(pre.opcode) as int] * 5) as u16, ..pre }
}

/// `Fx33`: the decimal digits of Vx (hundreds, tens, ones) are stored at
/// addresses I, I+1, I+2, each masked to the address space.
pub open spec fn sem_fx33(pre: Cpu, post: Cpu) -> bool {
    let vx = pre.reg_v[op_x(pre.opcode) as int];
    &&& post.ram@ == pre.ram@.update(pre.reg_i as int % 4096, vx / 100).update(
        (pre.reg_i + 1) % 4096,
        (vx % 100) / 10,
    ).update((pre.reg_i + 2) % 4096, vx % 10)
    &&& post == Cpu { ram: post.ram, ..pre }
}

/// Memory after V0..=Vj have been stored in order at I..=I+j, each address
/// masked to the address space.
pub open spec fn store_regs(ram: Seq<u8>, v: [u8; 16], base: int, j: int) -> Seq<u8>
    decreases j + 1,
{
    if j < 0 {
        ram
    } else {
        store_regs(ram, v, base, j - 1).update((base + j) % 4096, v[j])
    }
}

/// `Fx55`: store V0..=Vx into memory at I..=I+x.
pub open spec fn sem_fx55(pre: Cpu, post: Cpu) -> bool {
    &&& post.ram@ == store_regs(pre.ram@, pre.reg_v, pre.reg_i as int, op_x(pre.opcode) as int)
    &&& post == Cpu { ram: post.ram, ..pre }
}

/// The register file after V0..=Vj have been filled in order from memory at
/// I..=I+j, each address masked to the address space.
pub open spec fn load_regs(v: Seq<u8>, ram: [u8; 4096], base: int, j: int) -> Seq<u8>
    decreases j + 1,
{
    if j < 0 {
        v
    } else {
        load_regs(v, ram, base, j - 1).update(j, ram[(base + j) % 4096])
    }
}

/// `Fx65`: fill V0..=Vx from memory at I..=I+x.
pub open spec fn sem_fx65(pre: Cpu, post: Cpu) -> bool {
    &&& post.reg_v@ == load_regs(pre.reg_v@, pre.ram, pre.reg_i as int, op_x(pre.opcode) as int)
    &&& post == Cpu { reg_v: post.reg_v, ..pre }
}

/// One decode-execute transition: given the pre-state (whose `opcode` field
/// holds the word just fetched), says which post-state and result the engine
/// must produce. Opcode groups 0, 8, E and F dispatch further on their low
/// nibble or low byte, exactly as the engine does; anything unrecognized
/// (including the legacy `0nnn` machine-call form) is reported as
/// `Step::Ignored` and changes nothing.
pub open spec fn step_sem(pre: Cpu, post: Cpu, r: Result<Step, CpuError>) -> bool {
    let op = pre.opcode;
    if op & 0xF000 == 0x0000 {
        if op & 0x0FFF == 0x00E0 {
            r == Ok::<Step, CpuError>(Step::Executed) && sem_00e0(pre, post)
        } else if op & 0x0FFF == 0x00EE {
            if pre.reg_sp == 0 {
                r == Err::<Step, CpuError>(CpuError::StackUnderflow) && post == pre
            } else {
                r == Ok::<Step, CpuError>(Step::Executed) && sem_00ee(pre, post)
            }
        } else {
            r == Ok::<Step, CpuError>(Step::Ignored) && post == pre
        }
    } else if op & 0xF000 == 0x1000 {
        r == Ok::<Step, CpuError>(Step::Executed) && sem_1nnn(pre, post)
    } else if op & 0xF000 == 0x2000 {
        if pre.reg_sp >= 16 {
            r == Err::<Step, CpuError>(CpuError::StackOverflow) && post == pre
        } else {
            r == Ok::<Step, CpuError>(Step::Executed) && sem_2nnn(pre, post)
        }
    } else if op & 0xF000 == 0x3000 {
        r == Ok::<Step, CpuError>(Step::Executed) && sem_3xkk(pre, post)
    } else if op & 0xF000 == 0x4000 {
        r == Ok::<Step, CpuError>(Step::Executed) && sem_4xkk(pre, post)
    } else if op & 0xF000 == 0x5000 {
        r == Ok::<Step, CpuError>(Step::Executed) && sem_5xy0(pre, post)
    } else if op & 0xF000 == 0x6000 {
        r == Ok::<Step, CpuError>(Step::Executed) && sem_6xkk(pre, post)
    } else if op & 0xF000 == 0x7000 {
        r == Ok::<Step, CpuError>(Step::Executed) && sem_7xkk(pre, post)
    } else if op & 0xF000 == 0x8000 {
        if op & 0x000F == 0x0000 {
            r == Ok::<Step, CpuError>(Step::Executed) && sem_8xy0(pre, post)
        } else if op & 0x000F == 0x0001 {
            r == Ok::<Step, CpuError>(Step::Executed) && sem_8xy1(pre, post)
        } else if op & 0x000F == 0x0002 {
            r == Ok::<Step, CpuError>(Step::Executed) && sem_8xy2(pre, post)
        } else if op & 0x000F == 0x0003 {
            r == Ok::<Step, CpuError>(Step::Executed) && sem_8xy3(pre, post)
        } else if op & 0x000F == 0x0004 {
            r == Ok::<Step, CpuError>(Step::Executed) && sem_8xy4(pre, post)
        } else if op & 0x000F == 0x0005 {
            r == Ok::<Step, CpuError>(Step::Executed) && sem_8xy5(pre, post)
        } else if op & 0x000F == 0x0006 {
            r == Ok::<Step, CpuError>(Step::Executed) && sem_8xy6(pre, post)
        } else if op & 0x000F == 0x0007 {
            r == Ok::<Step, CpuError>(Step::Executed) && sem_8xy7(pre, post)
        } else if op & 0x000F == 0x000E {
            r == Ok::<Step, CpuError>(Step::Executed) && sem_8xye(pre, post)
        } else {
            r == Ok::<Step, CpuError>(Step::Ignored) && post == pre
        }
    } else if op & 0xF000 == 0x9000 {
        r == Ok::<Step, CpuError>(Step::Executed) && sem_9xy0(pre, post)
    } else if op & 0xF000 == 0xA000 {
        r == Ok::<Step, CpuError>(Step::Executed) && sem_annn(pre, post)
    } else if op & 0xF000 == 0xB000 {
        r == Ok::<Step, CpuError>(Step::Executed) && sem_bnnn(pre, post)
    } else if op & 0xF000 == 0xC000 {
        r == Ok::<Step, CpuError>(Step::Executed) && exists|byte: u8|
            byte < 0xFF && #[trigger] sem_cxkk(pre, post, byte)
    } else if op & 0xF000 == 0xD000 {
        r == Ok::<Step, CpuError>(Step::Executed) && sem_dxyn(pre, post)
    } else if op & 0xF000 == 0xE000 {
        if op & 0x000F == 0x000E {
            r == Ok::<Step, CpuError>(Step::Executed) && sem_ex9e(pre, post)
        } else if op & 0x000F == 0x0001 {
            r == Ok::<Step, CpuError>(Step::Executed) && sem_exa1(pre, post)
        } else {
            r == Ok::<Step, CpuError>(Step::Ignored) && post == pre
        }
    } else {
        if op & 0x00FF == 0x0007 {
            r == Ok::<Step, CpuError>(Step::Executed) && sem_fx07(pre, post)
        } else if op & 0x00FF == 0x000A {
            r == Ok::<Step, CpuError>(Step::Executed) && sem_fx0a(pre, post)
        } else if op & 0x00FF == 0x0015 {
            r == Ok::<Step, CpuError>(Step::Executed) && sem_fx15(pre, post)
        } else if op & 0x00FF == 0x0018 {
            r == Ok::<Step, CpuError>(Step::Executed) && sem_fx18(pre, post)
        } else if op & 0x00FF == 0x001E {
            r == Ok::<Step, CpuError>(Step::Executed) && sem_fx1e(pre, post)
        } else if op & 0x00FF == 0x0029 {
            r == Ok::<Step, CpuError>(Step::Executed) && sem_fx29(pre, post)
        } else if op & 0x00FF == 0x0033 {
            r == Ok::<Step, CpuError>(Step::Executed) && sem_fx33(pre, post)
        } else if op & 0x00FF == 0x0055 {
            r == Ok::<Step, CpuError>(Step::Executed) && sem_fx55(pre, post)
        } else if op & 0x00FF == 0x0065 {
            r == Ok::<Step, CpuError>(Step::Executed) && sem_fx65(pre, post)
        } else {
            r == Ok::<Step, CpuError>(Step::Ignored) && post == pre
        }
    }
}

/// The instruction word at the program counter: two consecutive memory
/// bytes, big-endian.
pub open spec fn fetched(s: Cpu) -> u16 {
    ((s.ram[s.reg_pc as int] as u16) << 8u16) | s.ram[s.reg_pc as int + 1] as u16
}

/// The state after the fetch phase: the opcode register holds the fetched
/// word, the previous opcode is remembered, and the program counter has
/// advanced past the instruction.
pub open spec fn fetch_advanced(s: Cpu) -> Cpu {
    Cpu {
        opcode: fetched(s),
        opcode_last: s.opcode,
        reg_pc: (s.reg_pc + 2) as u16,
        ..s
    }
}

/// The post-execute timer policy: each timer is decremented once per cycle
/// while nonzero, never below zero.
pub open spec fn tick_timers(s: Cpu) -> Cpu {
    Cpu {
        reg_delay_timer: if s.reg_delay_timer > 0 {
            (s.reg_delay_timer - 1) as u8
        } else {
            0
        },
        reg_sound_timer: if s.reg_sound_timer > 0 {
            (s.reg_sound_timer - 1) as u8
        } else {
            0
        },
        ..s
    }
}

} // verus!
