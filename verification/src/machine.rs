//! The mathematical model of the machine: its state as sequences and
//! integers, and the transition that each instruction performs.
//!
//! Everything here is ghost code. The executable machine in
//! [`crate::chip8`] states its behaviour by referring to these functions.
use vstd::prelude::*;
use crate::font::glyph_table;
use crate::opcode::{decoded, Instruction};
use crate::ram::overwritten;

verus! {

/// The architectural state.
pub struct Machine {
    /// 4096 bytes of memory.
    pub memory: Seq<u8>,
    /// The sixteen general registers; register 15 doubles as the flag.
    pub v: Seq<u8>,
    /// The index register.
    pub i: u16,
    pub delay_timer: u8,
    pub sound_timer: u8,
    /// Address of the next instruction.
    pub pc: u16,
    /// Number of return addresses held; the newest is `stack[sp]`.
    pub sp: u8,
    /// Sixteen slots for return addresses; slot 0 is never used.
    pub stack: Seq<u16>,
    /// The display, row by row: pixel (`row`, `col`) is `screen[row * 64 + col]`,
    /// `true` when lit.
    pub screen: Seq<bool>,
    /// The keypad: `keys[k]` is `true` while key `k` is held down.
    pub keys: Seq<bool>,
}

/// Why an instruction cannot be executed.
#[derive(Clone, Copy, Debug, PartialEq, Eq, Structural)]
pub enum Fault {
    /// The two bytes at the program counter do not both lie in memory.
    FetchOutOfRange,
    /// A call with all fifteen usable stack slots taken.
    StackOverflow,
    /// A return with no return address on the stack.
    StackUnderflow,
    /// An access through the index register that leaves memory.
    MemoryOutOfRange,
    /// A key instruction whose register names no key of the keypad.
    KeyOutOfRange,
}

/// `true` as the flag value 1, `false` as 0.
pub open spec fn flag(b: bool) -> u8 {
    if b { 1u8 } else { 0u8 }
}

/// The least index of a pressed key is `k`.
pub open spec fn is_first_pressed(keys: Seq<bool>, k: int) -> bool {
    &&& 0 <= k < keys.len()
    &&& keys[k]
    &&& forall|j: int| 0 <= j < k ==> !keys[j]
}

/// Bit `c` of a sprite row, counted from the most significant bit.
pub open spec fn sprite_bit(byte: u8, c: int) -> bool {
    (byte >> ((7 - c) as u8)) & 1u8 == 1u8
}

/// Index of the pixel on which bit `c` of row `r` lands when the sprite
/// is placed at column `vx` and row `vy`: rows wrap modulo 32, columns
/// modulo 64.
pub open spec fn sprite_target(vx: u8, vy: u8, r: int, c: int) -> int {
    ((vy + r) % 32) * 64 + (vx + c) % 64
}

/// The pixel with index `p` lies on sprite row `r` and sprite column `c`
/// of a sprite placed at column `vx` and row `vy` exactly if it is the
/// pixel in row `(vy + r) mod 32` and column `(vx + c) mod 64`.
pub proof fn lemma_pixel_of_sprite_bit(vx: u8, vy: u8, r: int, c: int, p: int)
    requires
        0 <= p < 2048,
        0 <= r < 32,
        0 <= c < 64,
    ensures
        0 <= sprite_target(vx, vy, r, c) < 2048,
        ((p / 64 - vy) % 32 == r && (p % 64 - vx) % 64 == c) <==> p == sprite_target(vx, vy, r, c),
{
    let pr = p / 64;
    let pc = p % 64;
    let tr = (vy + r) % 32;
    let tc = (vx + c) % 64;
    assert(((pr - vy) % 32 == r) <==> pr == tr);
    assert(((pc - vx) % 64 == c) <==> pc == tc);
    assert((pr == tr && pc == tc) <==> p == tr * 64 + tc);
}

impl Machine {
    /// The fixed sizes of the containers, and a stack pointer that stays
    /// within the usable slots.
    pub open spec fn wf(self) -> bool {
        &&& self.memory.len() == 4096
        &&& self.v.len() == 16
        &&& self.stack.len() == 16
        &&& self.screen.len() == 2048
        &&& self.keys.len() == 16
        &&& self.sp <= 15
    }

    /// The state after power-on: everything zero, the glyph table at
    /// `0x050`, and the program counter at `0x200`.
    pub open spec fn initial() -> Machine {
        Machine {
            memory: overwritten(Seq::new(4096, |a: int| 0u8), 0x050, glyph_table()),
            v: Seq::new(16, |k: int| 0u8),
            i: 0,
            delay_timer: 0,
            sound_timer: 0,
            pc: 0x200,
            sp: 0,
            stack: Seq::new(16, |k: int| 0u16),
            screen: Seq::new(2048, |p: int| false),
            keys: Seq::new(16, |k: int| false),
        }
    }

    /// Memory with `bytes` copied to `0x200` onward.
    pub open spec fn loaded(self, bytes: Seq<u8>) -> Machine {
        Machine { memory: overwritten(self.memory, 0x200, bytes), ..self }
    }

    /// One tick of the 60 Hz clock: each timer that is not yet zero
    /// loses one.
    pub open spec fn ticked(self) -> Machine {
        Machine {
            delay_timer: if self.delay_timer > 0 { (self.delay_timer - 1) as u8 } else { 0 },
            sound_timer: if self.sound_timer > 0 { (self.sound_timer - 1) as u8 } else { 0 },
            ..self
        }
    }

    /// Key `k` set to `pressed`.
    pub open spec fn with_key(self, k: int, pressed: bool) -> Machine {
        Machine { keys: self.keys.update(k, pressed), ..self }
    }

    /// Whether the pixel in row `row` and column `col` is lit.
    pub open spec fn pixel(self, row: int, col: int) -> bool {
        self.screen[row * 64 + col]
    }

    /// Both bytes of the instruction at the program counter lie in memory.
    pub open spec fn fetchable(self) -> bool {
        self.pc + 1 < 4096
    }

    /// The instruction word at the program counter, high byte first.
    pub open spec fn opcode(self) -> u16 {
        (self.memory[self.pc as int] * 256 + self.memory[self.pc + 1]) as u16
    }

    /// The program counter moved forward by `by` bytes.
    pub open spec fn advanced(self, by: int) -> Machine {
        Machine { pc: (self.pc + by) as u16, ..self }
    }

    /// Moves past this instruction, and past the next one too if `cond` holds.
    pub open spec fn skip_if(self, cond: bool) -> Machine {
        self.advanced(if cond { 4 } else { 2 })
    }

    /// Register `x` set to `value`.
    pub open spec fn with_reg(self, x: int, value: u8) -> Machine {
        Machine { v: self.v.update(x, value), ..self }
    }

    /// `00E0`: every pixel unlit.
    pub open spec fn clear_screen(self) -> Machine {
        Machine { screen: Seq::new(2048, |p: int| false), ..self }.advanced(2)
    }

    /// `00EE`: continues at the newest return address and drops it.
    pub open spec fn ret(self) -> Machine {
        Machine { pc: self.stack[self.sp as int], sp: (self.sp - 1) as u8, ..self }
    }

    /// `1nnn`
    pub open spec fn jump(self, nnn: u16) -> Machine {
        Machine { pc: nnn, ..self }
    }

    /// `2nnn`: pushes the address of the call itself and continues at `nnn`.
    pub open spec fn call(self, nnn: u16) -> Machine {
        Machine {
            pc: nnn,
            sp: (self.sp + 1) as u8,
            stack: self.stack.update(self.sp + 1, self.pc),
            ..self
        }
    }

    /// `7xkk`: addition modulo 256, flag untouched.
    pub open spec fn add_imm(self, x: int, kk: u8) -> Machine {
        self.with_reg(x, ((self.v[x] + kk) % 256) as u8).advanced(2)
    }

    /// `8xy4`: the sum modulo 256 goes to register `x`, then the carry to
    /// the flag.
    pub open spec fn add_reg(self, x: int, y: int) -> Machine {
        let sum = self.v[x] + self.v[y];
        self.with_reg(x, (sum % 256) as u8).with_reg(15, flag(sum > 255)).advanced(2)
    }

    /// `8xy5`: the flag is written first, then register `x` becomes
    /// `v[x] - v[y]` modulo 256 over the registers as they then stand.
    pub open spec fn sub_reg(self, x: int, y: int) -> Machine {
        let m = self.with_reg(15, flag(self.v[x] > self.v[y]));
        m.with_reg(x, ((m.v[x] - m.v[y]) % 256) as u8).advanced(2)
    }

    /// `8xy7`: as `8xy5` with the operands exchanged.
    pub open spec fn sub_from_reg(self, x: int, y: int) -> Machine {
        let m = self.with_reg(15, flag(self.v[y] > self.v[x]));
        m.with_reg(x, ((m.v[y] - m.v[x]) % 256) as u8).advanced(2)
    }

    /// `8xy6`: the flag takes the lowest bit, then register `x` is halved.
    pub open spec fn shift_right(self, x: int) -> Machine {
        let m = self.with_reg(15, self.v[x] & 1u8);
        m.with_reg(x, m.v[x] >> 1u8).advanced(2)
    }

    /// `8xyE`: the flag takes the highest bit, then register `x` is doubled
    /// modulo 256.
    pub open spec fn shift_left(self, x: int) -> Machine {
        let m = self.with_reg(15, flag(self.v[x] & 0x80u8 == 0x80u8));
        m.with_reg(x, m.v[x] << 1u8).advanced(2)
    }

    /// `Bnnn`
    pub open spec fn jump_offset(self, nnn: u16) -> Machine {
        Machine { pc: (nnn + self.v[0]) as u16, ..self }
    }

    /// Bit `c` of row `r` of the sprite at the index register is set.
    pub open spec fn sprite_pixel(self, r: int, c: int) -> bool {
        sprite_bit(self.memory[self.i + r], c)
    }

    /// The sprite of height `n` at the index register has a set bit.
    pub open spec fn sprite_is_visible(self, n: u8) -> bool {
        exists|r: int, c: int| 0 <= r < n && 0 <= c < 8 && #[trigger] self.sprite_pixel(r, c)
    }

    /// The sprite of height `n` at the index register, placed with its
    /// top-left corner at column `vx` and row `vy`, has a set bit on the
    /// pixel with index `p`.
    ///
    /// Rows wrap modulo 32 and columns modulo 64, so the pixel lies on
    /// sprite row `(row - vy) mod 32` and sprite column `(col - vx) mod 64`.
    pub open spec fn sprite_hits(self, vx: u8, vy: u8, n: u8, p: int) -> bool {
        let r = (p / 64 - vy) % 32;
        let c = (p % 64 - vx) % 64;
        r < n && c < 8 && self.sprite_pixel(r, c)
    }

    /// The sprite has a set bit on a pixel that is lit.
    pub open spec fn sprite_collides(self, vx: u8, vy: u8, n: u8) -> bool {
        exists|p: int| 0 <= p < 2048 && self.screen[p] && #[trigger] self.sprite_hits(vx, vy, n, p)
    }

    /// `Dxyn`: every pixel under a set sprite bit is toggled; the flag
    /// reports whether any of them was lit before.
    ///
    /// The sprite is placed by the values that registers `x` and `y` hold
    /// when the instruction starts, also where one of them is the flag
    /// register.
    pub open spec fn draw(self, x: int, y: int, n: u8) -> Machine {
        let vx = self.v[x];
        let vy = self.v[y];
        Machine {
            v: self.v.update(15, flag(self.sprite_collides(vx, vy, n))),
            screen: Seq::new(2048, |p: int| self.screen[p] != self.sprite_hits(vx, vy, n, p)),
            ..self
        }.advanced(2)
    }

    /// `Ex9E`: a pressed key is consumed and the next instruction skipped.
    pub open spec fn skip_key_down(self, x: int) -> Machine {
        let k = self.v[x] as int;
        if self.keys[k] {
            self.with_key(k, false).advanced(4)
        } else {
            self.advanced(2)
        }
    }

    /// `ExA1`
    pub open spec fn skip_key_up(self, x: int) -> Machine {
        self.skip_if(!self.keys[self.v[x] as int])
    }

    /// `Fx0A`: with a key down, the lowest such key is consumed and its
    /// number stored; with none down nothing changes, so that the
    /// instruction is executed again.
    pub open spec fn wait_key(self, x: int) -> Machine {
        if exists|k: int| is_first_pressed(self.keys, k) {
            let k = choose|k: int| is_first_pressed(self.keys, k);
            self.with_key(k, false).with_reg(x, k as u8).advanced(2)
        } else {
            self
        }
    }

    /// `Fx1E`: addition modulo 65536.
    pub open spec fn add_index(self, x: int) -> Machine {
        Machine { i: ((self.i + self.v[x]) % 0x10000) as u16, ..self }.advanced(2)
    }

    /// `Fx29`: the address of the glyph for the digit in register `x`.
    pub open spec fn glyph(self, x: int) -> Machine {
        Machine { i: (0x050 + self.v[x] * 5) as u16, ..self }.advanced(2)
    }

    /// `Fx33`: hundreds, tens and ones of register `x` at the index
    /// register and the two bytes after it.
    pub open spec fn bcd(self, x: int) -> Machine {
        let value = self.v[x];
        Machine {
            memory: self.memory.update(self.i as int, value / 100).update(
                self.i + 1,
                (value % 100) / 10,
            ).update(self.i + 2, value % 10),
            ..self
        }.advanced(2)
    }

    /// `Fx55`: registers 0 to `x` copied to memory at the index register.
    pub open spec fn store_regs(self, x: int) -> Machine {
        Machine {
            memory: overwritten(self.memory, self.i as int, self.v.subrange(0, x + 1)),
            ..self
        }.advanced(2)
    }

    /// `Fx65`: registers 0 to `x` filled from memory at the index register.
    pub open spec fn load_regs(self, x: int) -> Machine {
        Machine {
            v: Seq::new(16, |k: int| if k <= x { self.memory[self.i + k] } else { self.v[k] }),
            ..self
        }.advanced(2)
    }

    /// What `ins` does to the state. `rnd` is the byte drawn from the
    /// random source; only `Cxkk` looks at it.
    pub open spec fn execute(self, ins: Instruction, rnd: u8) -> Machine {
        match ins {
            Instruction::ClearScreen => self.clear_screen(),
            Instruction::Return => self.ret(),
            Instruction::Jump { nnn } => self.jump(nnn),
            Instruction::Call { nnn } => self.call(nnn),
            Instruction::SkipEqImm { x, kk } => self.skip_if(self.v[x as int] == kk),
            Instruction::SkipNeImm { x, kk } => self.skip_if(self.v[x as int] != kk),
            Instruction::SkipEqReg { x, y } => self.skip_if(self.v[x as int] == self.v[y as int]),
            Instruction::LoadImm { x, kk } => self.with_reg(x as int, kk).advanced(2),
            Instruction::AddImm { x, kk } => self.add_imm(x as int, kk),
            Instruction::Move { x, y } => self.with_reg(x as int, self.v[y as int]).advanced(2),
            Instruction::Or { x, y } => self.with_reg(
                x as int,
                self.v[x as int] | self.v[y as int],
            ).advanced(2),
            Instruction::And { x, y } => self.with_reg(
                x as int,
                self.v[x as int] & self.v[y as int],
            ).advanced(2),
            Instruction::Xor { x, y } => self.with_reg(
                x as int,
                self.v[x as int] ^ self.v[y as int],
            ).advanced(2),
            Instruction::Add { x, y } => self.add_reg(x as int, y as int),
            Instruction::Sub { x, y } => self.sub_reg(x as int, y as int),
            Instruction::ShiftRight { x } => self.shift_right(x as int),
            Instruction::SubFrom { x, y } => self.sub_from_reg(x as int, y as int),
            Instruction::ShiftLeft { x } => self.shift_left(x as int),
            Instruction::SkipNeReg { x, y } => self.skip_if(self.v[x as int] != self.v[y as int]),
            Instruction::LoadIndex { nnn } => Machine { i: nnn, ..self }.advanced(2),
            Instruction::JumpOffset { nnn } => self.jump_offset(nnn),
            Instruction::Random { x, kk } => self.with_reg(x as int, rnd & kk).advanced(2),
            Instruction::Draw { x, y, n } => self.draw(x as int, y as int, n),
            Instruction::SkipKeyDown { x } => self.skip_key_down(x as int),
            Instruction::SkipKeyUp { x } => self.skip_key_up(x as int),
            Instruction::ReadDelay { x } => self.with_reg(x as int, self.delay_timer).advanced(2),
            Instruction::WaitKey { x } => self.wait_key(x as int),
            Instruction::SetDelay { x } => Machine {
                delay_timer: self.v[x as int],
                ..self
            }.advanced(2),
            Instruction::SetSound { x } => Machine {
                sound_timer: self.v[x as int],
                ..self
            }.advanced(2),
            Instruction::AddIndex { x } => self.add_index(x as int),
            Instruction::Glyph { x } => self.glyph(x as int),
            Instruction::Bcd { x } => self.bcd(x as int),
            Instruction::StoreRegs { x } => self.store_regs(x as int),
            Instruction::LoadRegs { x } => self.load_regs(x as int),
            Instruction::Unknown => self.advanced(2),
        }
    }

    /// The fault that executing `ins` in this state would raise, if any.
    pub open spec fn instruction_fault(self, ins: Instruction) -> Option<Fault> {
        match ins {
            Instruction::Return => if self.sp == 0 {
                Some(Fault::StackUnderflow)
            } else {
                None
            },
            Instruction::Call { nnn } => if self.sp >= 15 {
                Some(Fault::StackOverflow)
            } else {
                None
            },
            Instruction::Draw { x, y, n } => if n > 0 && self.i + n > 4096 {
                Some(Fault::MemoryOutOfRange)
            } else {
                None
            },
            Instruction::SkipKeyDown { x } | Instruction::SkipKeyUp { x } => if self.v[x as int]
                >= 16 {
                Some(Fault::KeyOutOfRange)
            } else {
                None
            },
            Instruction::Bcd { x } => if self.i + 2 >= 4096 {
                Some(Fault::MemoryOutOfRange)
            } else {
                None
            },
            Instruction::StoreRegs { x } | Instruction::LoadRegs { x } => if self.i + x >= 4096 {
                Some(Fault::MemoryOutOfRange)
            } else {
                None
            },
            _ => None,
        }
    }

    /// The fault that the next step would raise, if any.
    pub open spec fn fault(self) -> Option<Fault> {
        if !self.fetchable() {
            Some(Fault::FetchOutOfRange)
        } else {
            self.instruction_fault(decoded(self.opcode()))
        }
    }

    /// The state after one fetch-decode-execute cycle in which the random
    /// source yields `rnd`. Meaningful where `fault` is `None`.
    pub open spec fn step(self, rnd: u8) -> Machine {
        self.execute(decoded(self.opcode()), rnd)
    }
}

} // verus!
