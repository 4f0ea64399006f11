//! The machine state and the fetch-decode-execute engine.

use vstd::prelude::*;
use rand::Rng;
use crate::disk::Disk;
use crate::semantics::{fetch_advanced, step_sem, tick_timers};

verus! {

/// Relies on rand::Rng::gen_range over rand::thread_rng: returns a value
/// uniformly drawn from the given range, here [0, 0xFF), and panics only on
/// an empty range, which this one is not.
#[verifier::external_body]
fn random_byte() -> (r: u8)
    ensures
        r < 0xFF,
{
    let mut rng = rand::thread_rng();
    rng.gen_range(0..0xFFu8)
}

/// The builtin glyph font: 16 characters (hex digits 0-F), 5 bytes each,
/// preloaded at addresses 0x000..0x050 when the machine boots.
pub const FONT_SET: [u8; 80] = [
    0xF0, 0x90, 0x90, 0x90, 0xF0, // 0
    0x20, 0x60, 0x20, 0x20, 0x70, // 1
    0xF0, 0x10, 0xF0, 0x80, 0xF0, // 2
    0xF0, 0x10, 0xF0, 0x10, 0xF0, // 3
    0x90, 0x90, 0xF0, 0x10, 0x10, // 4
    0xF0, 0x80, 0xF0, 0x10, 0xF0, // 5
    0xF0, 0x80, 0xF0, 0x90, 0xF0, // 6
    0xF0, 0x10, 0x20, 0x40, 0x40, // 7
    0xF0, 0x90, 0xF0, 0x90, 0xF0, // 8
    0xF0, 0x90, 0xF0, 0x10, 0xF0, // 9
    0xF0, 0x90, 0xF0, 0x90, 0x90, // A
    0xE0, 0x90, 0xE0, 0x90, 0xE0, // B
    0xF0, 0x80, 0x80, 0x80, 0xF0, // C
    0xE0, 0x90, 0x90, 0x90, 0xE0, // D
    0xF0, 0x80, 0xF0, 0x80, 0xF0, // E
    0xF0, 0x80, 0xF0, 0x80, 0x80, // F
];

/// The fatal conditions the engine reports instead of corrupting state.
#[derive(Clone, Copy, Debug, PartialEq, Eq, Structural)]
pub enum CpuError {
    /// The program counter reached the top of the address space, so no
    /// further instruction can be fetched.
    AddressOverflow,
    /// A call was executed with all 16 stack slots already in use.
    StackOverflow,
    /// A return was executed with an empty call stack.
    StackUnderflow,
    /// A program image larger than the 3584 bytes of loadable memory.
    RomTooLarge,
}

/// What a successful cycle did: either one instruction was executed, or the
/// opcode was unknown (including the legacy machine-call form) and was
/// skipped with no state change beyond the already-performed fetch advance.
#[derive(Clone, Copy, Debug, PartialEq, Eq, Structural)]
pub enum Step {
    Executed,
    Ignored,
}

/// The complete machine state.
pub struct Cpu {
    /// 64x32 one-bit pixels, row-major: `video_ram[y][x]` is 0 or 1.
    pub video_ram: [[u8; 64]; 32],
    /// Set on any framebuffer mutation; cleared by the renderer.
    pub video_ram_changed: bool,
    /// 4096 bytes: font at 0x000..0x050, program from 0x200.
    pub ram: [u8; 4096],
    /// General registers V0-VF; VF doubles as the carry/borrow/collision flag.
    pub reg_v: [u8; 16],
    /// The index register I, a memory pointer masked to the address space
    /// wherever it is dereferenced.
    pub reg_i: u16,
    /// The program counter.
    pub reg_pc: u16,
    /// The stack pointer: number of call-stack slots in use, 0..=16.
    pub reg_sp: u8,
    /// Return addresses of the calls in progress.
    pub stack: [u16; 16],
    /// The instruction word most recently fetched.
    pub opcode: u16,
    /// The instruction word fetched by the cycle before that.
    pub opcode_last: u16,
    /// Delay timer: decremented once per cycle while nonzero.
    pub reg_delay_timer: u8,
    /// Sound timer: decremented once per cycle while nonzero.
    pub reg_sound_timer: u8,
    /// Pressed state of the 16 keys.
    pub keyboard: [bool; 16],
}

impl Cpu {
    /// The state invariant: pixels are single bits and the stack pointer
    /// never exceeds the 16 slots.
    pub open spec fn wf(self) -> bool {
        &&& self.reg_sp <= 16
        &&& forall|y: int, x: int|
            0 <= y < 32 && 0 <= x < 64 ==> self.video_ram[y][x] <= 1
    }

    /// A freshly booted machine: font preloaded, PC at the program start,
    /// everything else zeroed.
    pub fn new() -> (cpu: Cpu)
        ensures
            cpu.wf(),
            cpu.reg_pc == 0x200,
            forall|i: int| 0 <= i < 80 ==> cpu.ram[i] == FONT_SET[i],
            forall|i: int| 80 <= i < 4096 ==> cpu.ram[i] == 0,
            forall|i: int| 0 <= i < 16 ==> cpu.reg_v[i] == 0,
            forall|i: int| 0 <= i < 16 ==> cpu.stack[i] == 0,
            forall|i: int| 0 <= i < 16 ==> !cpu.keyboard[i],
            forall|y: int, x: int|
                0 <= y < 32 && 0 <= x < 64 ==> cpu.video_ram[y][x] == 0,
            cpu.video_ram_changed,
            cpu.reg_i == 0,
            cpu.reg_sp == 0,
            cpu.opcode == 0,
            cpu.opcode_last == 0,
            cpu.reg_delay_timer == 0,
            cpu.reg_sound_timer == 0,
    {
        let mut ram = [0u8; 4096];
        for i in 0..80usize
            invariant
                forall|j: int| 0 <= j < i ==> ram[j] == FONT_SET[j],
                forall|j: int| i <= j < 4096 ==> ram[j] == 0,
        {
            ram[i] = FONT_SET[i];
        }
        Cpu {
            video_ram: [[0; 64]; 32],
            video_ram_changed: true,
            ram,
            reg_v: [0; 16],
            reg_i: 0,
            reg_pc: 0x200,
            reg_sp: 0,
            stack: [0; 16],
            opcode: 0,
            opcode_last: 0,
            reg_delay_timer: 0,
            reg_sound_timer: 0,
            keyboard: [false; 16],
        }
    }

    /// Copies a program image into memory starting at 0x200, the program
    /// start; an image that would run past the end of memory is rejected
    /// whole, before anything is written, so the font and the address space
    /// are never overrun.
    pub fn load_disk_to_ram(&mut self, disk: &Disk) -> (r: Result<(), CpuError>)
        ensures
            disk.size > 3584 ==> r == Err::<(), CpuError>(CpuError::RomTooLarge) && *final(self)
                == *old(self),
            disk.size <= 3584 ==> {
                &&& r == Ok::<(), CpuError>(())
                &&& forall|j: int|
                    0 <= j < disk.size ==> final(self).ram[0x200 + j] == disk.rom[j]
                &&& forall|a: int|
                    0 <= a < 4096 && !(0x200 <= a < 0x200 + disk.size) ==> final(self).ram[a]
                        == old(self).ram[a]
                &&& (*final(self) == Cpu { ram: final(self).ram, ..*old(self) })
            },
    {
        if disk.size > 3584 {
            return Err(CpuError::RomTooLarge);
        }
        for i in 0..disk.size
            invariant
                disk.size <= 3584,
                forall|j: int| 0 <= j < i ==> self.ram[0x200 + j] == disk.rom[j],
                forall|a: int|
                    0 <= a < 4096 && !(0x200 <= a < 0x200 + i) ==> self.ram[a] == old(
                        self,
                    ).ram[a],
                (*self == Cpu { ram: self.ram, ..*old(self) }),
        {
            self.ram[i + 0x200] = disk.rom[i];
        }
        Ok(())
    }

    /// A key-down event from the driver: mark the key pressed.
    pub fn key_pressed(&mut self, key: u8)
        requires
            key < 16,
        ensures
            final(self).keyboard@ == old(self).keyboard@.update(key as int, true),
            (*final(self) == Cpu { keyboard: final(self).keyboard, ..*old(self) }),
    {
        self.keyboard[key as usize] = true;
    }

    /// A key-up event from the driver: mark the key released.
    pub fn key_released(&mut self, key: u8)
        requires
            key < 16,
        ensures
            final(self).keyboard@ == old(self).keyboard@.update(key as int, false),
            (*final(self) == Cpu { keyboard: final(self).keyboard, ..*old(self) }),
    {
        self.keyboard[key as usize] = false;
    }

    /// Decode and run the instruction word already in the opcode register:
    /// the execute phase of a cycle. The program counter has been advanced
    /// past the instruction, so it lies in [2, 0x1000].
    pub fn execute(&mut self) -> (r: Result<Step, CpuError>)
        requires
            old(self).wf(),
            2 <= old(self).reg_pc,
            old(self).reg_pc <= 0x1000,
        ensures
            step_sem(*old(self), *final(self), r),
            final(self).wf(),
    {
        match self.opcode & 0xF000 {
            0x0000 => match self.opcode & 0x0FFF {
                0x00E0 => {
                    self.op_0x00e0();
                    Ok(Step::Executed)
                },
                0x00EE => match self.op_0x00ee() {
                    Ok(_) => Ok(Step::Executed),
                    Err(e) => Err(e),
                },
                _ => Ok(Step::Ignored),
            },
            0x1000 => {
                self.op_0x1nnn();
                Ok(Step::Executed)
            },
            0x2000 => match self.op_0x2nnn() {
                Ok(_) => Ok(Step::Executed),
                Err(e) => Err(e),
            },
            0x3000 => {
                self.op_0x3xkk();
                Ok(Step::Executed)
            },
            0x4000 => {
                self.op_0x4xkk();
                Ok(Step::Executed)
            },
            0x5000 => {
                self.op_0x5xy0();
                Ok(Step::Executed)
            },
            0x6000 => {
                self.op_0x6xkk();
                Ok(Step::Executed)
            },
            0x7000 => {
                self.op_0x7xkk();
                Ok(Step::Executed)
            },
            0x8000 => match self.opcode & 0x000F {
                0x0000 => {
                    self.op_0x8xy0();
                    Ok(Step::Executed)
                },
                0x0001 => {
                    self.op_0x8xy1();
                    Ok(Step::Executed)
                },
                0x0002 => {
                    self.op_0x8xy2();
                    Ok(Step::Executed)
                },
                0x0003 => {
                    self.op_0x8xy3();
                    Ok(Step::Executed)
                },
                0x0004 => {
                    self.op_0x8xy4();
                    Ok(Step::Executed)
                },
                0x0005 => {
                    self.op_0x8xy5();
                    Ok(Step::Executed)
                },
                0x0006 => {
                    self.op_0x8xy6();
                    Ok(Step::Executed)
                },
                0x0007 => {
                    self.op_0x8xy7();
                    Ok(Step::Executed)
                },
                0x000E => {
                    self.op_0x8xyE();
                    Ok(Step::Executed)
                },
                _ => Ok(Step::Ignored),
            },
            0x9000 => {
                self.op_0x9xy0();
                Ok(Step::Executed)
            },
            0xA000 => {
                self.op_0xAnnn();
                Ok(Step::Executed)
            },
            0xB000 => {
                self.op_0xBnnn();
                Ok(Step::Executed)
            },
            0xC000 => {
                let byte = random_byte();
                self.op_0xCxkk(byte);
                Ok(Step::Executed)
            },
            0xD000 => {
                self.op_0xDxyn();
                Ok(Step::Executed)
            },
            0xE000 => match self.opcode & 0x000F {
                0x000E => {
                    self.op_0xEx9E();
                    Ok(Step::Executed)
                },
                0x0001 => {
                    self.op_0xExA1();
                    Ok(Step::Executed)
                },
                _ => Ok(Step::Ignored),
            },
            0xF000 => match self.opcode & 0x00FF {
                0x0007 => {
                    self.op_0xFx07();
                    Ok(Step::Executed)
                },
                0x000A => {
                    self.op_0xFx0A();
                    Ok(Step::Executed)
                },
                0x0015 => {
                    self.op_0xFx15();
                    Ok(Step::Executed)
                },
                0x0018 => {
                    self.op_0xFx18();
                    Ok(Step::Executed)
                },
                0x001E => {
                    self.op_0xFx1E();
                    Ok(Step::Executed)
                },
                0x0029 => {
                    self.op_0xFx29();
                    Ok(Step::Executed)
                },
                0x0033 => {
                    self.op_0xFx33();
                    Ok(Step::Executed)
                },
                0x0055 => {
                    self.op_0xFx55();
                    Ok(Step::Executed)
                },
                0x0065 => {
                    self.op_0xFx65();
                    Ok(Step::Executed)
                },
                _ => Ok(Step::Ignored),
            },
            _ => {
                proof {
                    let op = self.opcode;
                    assert(op & 0xF000 == 0x0000 || op & 0xF000 == 0x1000 || op & 0xF000 == 0x2000
                        || op & 0xF000 == 0x3000 || op & 0xF000 == 0x4000 || op & 0xF000 == 0x5000
                        || op & 0xF000 == 0x6000 || op & 0xF000 == 0x7000 || op & 0xF000 == 0x8000
                        || op & 0xF000 == 0x9000 || op & 0xF000 == 0xA000 || op & 0xF000 == 0xB000
                        || op & 0xF000 == 0xC000 || op & 0xF000 == 0xD000 || op & 0xF000 == 0xE000
                        || op & 0xF000 == 0xF000) by (bit_vector);
                }
                Ok(Step::Ignored)
            },
        }
    }

    /// One full cycle: fetch the instruction word at the program counter,
    /// remember the previous one, advance the program counter past it,
    /// execute, then decrement each running timer. When the next fetch
    /// would touch memory at or beyond the top of the address space, the
    /// cycle stops up front and reports `AddressOverflow` instead of
    /// freezing silently. On a fault from the instruction itself the state
    /// is left exactly as the faulting instruction found it, timers
    /// untouched.
    pub fn next(&mut self) -> (r: Result<Step, CpuError>)
        requires
            old(self).wf(),
        ensures
            final(self).wf(),
            old(self).reg_pc + 1 >= 4096 ==> r == Err::<Step, CpuError>(CpuError::AddressOverflow)
                && (*final(self) == Cpu { opcode_last: old(self).opcode, ..*old(self) }),
            old(self).reg_pc + 1 < 4096 ==> exists|mid: Cpu|
                #[trigger] step_sem(fetch_advanced(*old(self)), mid, r) && *final(self) == (
                if r is Ok {
                    tick_timers(mid)
                } else {
                    mid
                }),
    {
        self.opcode_last = self.opcode;

        if self.reg_pc >= 0x0FFF {
            return Err(CpuError::AddressOverflow);
        }

        self.opcode = (self.ram[self.reg_pc as usize] as u16) << 8u16 | self.ram[self.reg_pc
            as usize + 1] as u16;
        self.reg_pc = self.reg_pc + 2;
        proof {
            assert(*self == fetch_advanced(*old(self)));
        }
        let r = self.execute();
        let ghost mid = *self;

        if r.is_ok() {
            if self.reg_delay_timer > 0 {
                self.reg_delay_timer = self.reg_delay_timer - 1;
            }
            if self.reg_sound_timer > 0 {
                self.reg_sound_timer = self.reg_sound_timer - 1;
            }
            proof {
                assert(step_sem(fetch_advanced(*old(self)), mid, r));
                assert(*self == tick_timers(mid));
            }
        } else {
            proof {
                assert(step_sem(fetch_advanced(*old(self)), mid, r));
            }
        }
        r
    }
}

} // verus!
