//! The executable machine.
//!
//! [`Chip8`] holds the state in fixed-size arrays. Its view is a
//! [`Machine`], and every method states the transition of the model that
//! it performs.
use vstd::prelude::*;
use crate::font::font_set;
use crate::machine::{
    flag, is_first_pressed, lemma_pixel_of_sprite_bit, sprite_bit, sprite_target, Fault,
    Machine,
};
use crate::opcode::{decode, decoded, Instruction};
use crate::ram::{overwritten, Ram};
use crate::random::random_in_range;

verus! {

/// Number of general registers.
pub const NUM_REGS: usize = 16;

/// Number of stack slots.
pub const STACK_SIZE: usize = 16;

/// Pixels per row of the display.
pub const SCREEN_WIDTH: usize = 64;

/// Rows of the display.
pub const SCREEN_HEIGHT: usize = 32;

/// Pixels of the display.
pub const SCREEN_SIZE: usize = 2048;

/// Keys of the keypad.
pub const NUM_KEYS: usize = 16;

/// Address at which programs are loaded and execution starts.
pub const START_ADDR: u16 = 0x200;

/// Largest program that fits between [`START_ADDR`] and the end of memory.
pub const MAX_ROM_SIZE: usize = 3584;

/// Colour of a lit pixel in the frame buffer, as `0RGB`.
pub const PIXEL_ON: u32 = 0x00FF00;

/// Colour of an unlit pixel in the frame buffer.
pub const PIXEL_OFF: u32 = 0x000000;

/// A program image was rejected.
#[derive(Clone, Copy, Debug, PartialEq, Eq, Structural)]
pub enum LoadError {
    /// The image is longer than [`MAX_ROM_SIZE`] bytes.
    TooLarge,
}

/// The machine: memory, registers, timers, stack, display and keypad.
pub struct Chip8 {
    memory: Ram,
    v: [u8; NUM_REGS],
    i: u16,
    delay_timer: u8,
    sound_timer: u8,
    pc: u16,
    sp: u8,
    stack: [u16; STACK_SIZE],
    screen: [bool; SCREEN_SIZE],
    keys: [bool; NUM_KEYS],
}

impl View for Chip8 {
    type V = Machine;

    closed spec fn view(&self) -> Machine {
        Machine {
            memory: self.memory@,
            v: self.v@,
            i: self.i,
            delay_timer: self.delay_timer,
            sound_timer: self.sound_timer,
            pc: self.pc,
            sp: self.sp,
            stack: self.stack@,
            screen: self.screen@,
            keys: self.keys@,
        }
    }
}

impl Chip8 {
    /// A machine after power-on.
    pub fn new() -> (chip8: Self)
        ensures
            chip8@ == Machine::initial(),
            chip8@.wf(),
    {
        let mut chip8 = Chip8 {
            memory: Ram::default(),
            v: [0; NUM_REGS],
            i: 0,
            delay_timer: 0,
            sound_timer: 0,
            pc: 0x200,
            sp: 0,
            stack: [0; STACK_SIZE],
            screen: [false; SCREEN_SIZE],
            keys: [false; NUM_KEYS],
        };
        chip8.load_fontset();
        proof {
            let m = Machine::initial();
            assert(chip8@.v =~= m.v);
            assert(chip8@.stack =~= m.stack);
            assert(chip8@.screen =~= m.screen);
            assert(chip8@.keys =~= m.keys);
        }
        chip8
    }

    /// Copies the program image `rom` to [`START_ADDR`] onward.
    ///
    /// An image that does not fit is rejected and nothing is written.
    pub fn load_rom(&mut self, rom: &[u8]) -> (loaded: Result<(), LoadError>)
        requires
            old(self)@.wf(),
        ensures
            final(self)@.wf(),
            rom@.len() <= MAX_ROM_SIZE ==> loaded == Ok::<(), LoadError>(()) && final(self)@
                == old(self)@.loaded(rom@),
            rom@.len() > MAX_ROM_SIZE ==> loaded == Err::<(), LoadError>(LoadError::TooLarge)
                && final(self)@ == old(self)@,
    {
        if rom.len() > MAX_ROM_SIZE {
            return Err(LoadError::TooLarge);
        }
        self.memory.write_bytes(START_ADDR, rom);
        Ok(())
    }

    /// One tick of the 60 Hz clock.
    pub fn tick_timers(&mut self)
        ensures
            final(self)@ == old(self)@.ticked(),
            old(self)@.wf() ==> final(self)@.wf(),
    {
        if self.delay_timer > 0 {
            self.delay_timer -= 1;
        }
        if self.sound_timer > 0 {
            self.sound_timer -= 1;
        }
    }

    /// Records that key `key` is now held down (`pressed`) or released.
    pub fn set_key(&mut self, key: usize, pressed: bool)
        requires
            key < NUM_KEYS,
        ensures
            final(self)@ == old(self)@.with_key(key as int, pressed),
            old(self)@.wf() ==> final(self)@.wf(),
    {
        self.keys[key] = pressed;
    }

    /// The frame buffer, row by row: one colour per pixel, [`PIXEL_ON`]
    /// where the pixel is lit and [`PIXEL_OFF`] where it is not.
    pub fn screen_buffer(&self) -> (buffer: Vec<u32>)
        ensures
            buffer@ == Seq::new(
                SCREEN_SIZE as nat,
                |p: int| if self@.screen[p] { PIXEL_ON } else { PIXEL_OFF },
            ),
    {
        let mut buffer: Vec<u32> = Vec::with_capacity(SCREEN_SIZE);
        let mut p: usize = 0;
        while p < SCREEN_SIZE
            invariant
                p <= SCREEN_SIZE,
                buffer@.len() == p,
                forall|q: int|
                    0 <= q < p ==> buffer@[q] == if self@.screen[q] { PIXEL_ON } else { PIXEL_OFF },
            decreases SCREEN_SIZE - p,
        {
            buffer.push(if self.screen[p] { PIXEL_ON } else { PIXEL_OFF });
            p += 1;
        }
        assert(buffer@ =~= Seq::new(
            SCREEN_SIZE as nat,
            |p: int| if self@.screen[p] { PIXEL_ON } else { PIXEL_OFF },
        ));
        buffer
    }

    /// Whether the pixel in row `row` and column `col` is lit.
    pub fn pixel(&self, row: usize, col: usize) -> (lit: bool)
        requires
            row < SCREEN_HEIGHT,
            col < SCREEN_WIDTH,
        ensures
            lit == self@.pixel(row as int, col as int),
    {
        self.screen[row * SCREEN_WIDTH + col]
    }

    /// The value of register `x`.
    pub fn register(&self, x: usize) -> (value: u8)
        requires
            x < NUM_REGS,
        ensures
            value == self@.v[x as int],
    {
        self.v[x]
    }

    /// The index register.
    pub fn index_register(&self) -> (i: u16)
        ensures
            i == self@.i,
    {
        self.i
    }

    /// The address of the next instruction.
    pub fn program_counter(&self) -> (pc: u16)
        ensures
            pc == self@.pc,
    {
        self.pc
    }

    /// The number of return addresses on the stack.
    pub fn stack_pointer(&self) -> (sp: u8)
        ensures
            sp == self@.sp,
    {
        self.sp
    }

    /// The delay timer.
    pub fn delay_timer(&self) -> (t: u8)
        ensures
            t == self@.delay_timer,
    {
        self.delay_timer
    }

    /// The sound timer; a tone sounds while it is not zero.
    pub fn sound_timer(&self) -> (t: u8)
        ensures
            t == self@.sound_timer,
    {
        self.sound_timer
    }

    /// Whether key `key` is held down.
    pub fn key(&self, key: usize) -> (pressed: bool)
        requires
            key < NUM_KEYS,
        ensures
            pressed == self@.keys[key as int],
    {
        self.keys[key]
    }

    /// The byte of memory at `address`.
    pub fn memory_byte(&self, address: u16) -> (value: u8)
        requires
            address < 4096,
        ensures
            value == self@.memory[address as int],
    {
        self.memory.read_byte(address)
    }

    /// The instruction word at the program counter.
    pub fn fetch_opcode(&self) -> (op: u16)
        requires
            self@.fetchable(),
        ensures
            op == self@.opcode(),
    {
        let byte1 = self.memory.read_byte(self.pc) as u16;
        let byte2 = self.memory.read_byte(self.pc + 1) as u16;
        assert((byte1 << 8 | byte2) == byte1 * 256 + byte2) by (bit_vector)
            requires
                byte1 < 256,
                byte2 < 256,
        ;
        (byte1) << 8 | byte2
    }

    /// Writes the glyph table to its place in memory.
    fn load_fontset(&mut self)
        requires
            old(self)@.memory.len() == 4096,
        ensures
            final(self)@ == (Machine {
                memory: overwritten(old(self)@.memory, 0x050, crate::font::glyph_table()),
                ..old(self)@
            }),
    {
        let font = font_set();
        self.memory.write_bytes(0x050, font.as_slice());
    }

    /// A word that selects no instruction: only the program counter moves.
    fn no_op_code(&mut self)
        requires
            old(self)@.fetchable(),
        ensures
            final(self)@ == old(self)@.advanced(2),
    {
        self.pc += 2;
    }

    /// `00E0`: clears the display.
    fn _00e0(&mut self)
        requires
            old(self)@.fetchable(),
        ensures
            final(self)@ == old(self)@.clear_screen(),
    {
        self.screen = [false; SCREEN_SIZE];
        self.pc += 2;
        assert(self@.screen =~= old(self)@.clear_screen().screen);
    }

    /// `00EE`: returns from a subroutine.
    fn _00ee(&mut self)
        requires
            old(self)@.wf(),
            old(self)@.sp > 0,
        ensures
            final(self)@ == old(self)@.ret(),
    {
        self.pc = self.stack[self.sp as usize];
        self.sp -= 1;
    }

    /// `1nnn`: jumps to `nnn`.
    fn _1nnn(&mut self, nnn: u16)
        ensures
            final(self)@ == old(self)@.jump(nnn),
    {
        self.pc = nnn;
    }

    /// `2nnn`: calls the subroutine at `nnn`.
    fn _2nnn(&mut self, nnn: u16)
        requires
            old(self)@.sp < 15,
        ensures
            final(self)@ == old(self)@.call(nnn),
    {
        self.sp += 1;
        self.stack[self.sp as usize] = self.pc;
        self.pc = nnn;
    }

    /// `3xkk`: skips the next instruction if register `x` holds `kk`.
    fn _3xkk(&mut self, x: usize, kk: u8)
        requires
            old(self)@.fetchable(),
            x < 16,
        ensures
            final(self)@ == old(self)@.skip_if(old(self)@.v[x as int] == kk),
    {
        if self.v[x] == kk {
            self.pc += 4;
        } else {
            self.pc += 2;
        }
    }

    /// `4xkk`: skips the next instruction if register `x` does not hold `kk`.
    fn _4xkk(&mut self, x: usize, kk: u8)
        requires
            old(self)@.fetchable(),
            x < 16,
        ensures
            final(self)@ == old(self)@.skip_if(old(self)@.v[x as int] != kk),
    {
        if self.v[x] != kk {
            self.pc += 4;
        } else {
            self.pc += 2;
        }
    }

    /// `5xy0`: skips the next instruction if registers `x` and `y` are equal.
    fn _5xy0(&mut self, x: usize, y: usize)
        requires
            old(self)@.fetchable(),
            x < 16,
            y < 16,
        ensures
            final(self)@ == old(self)@.skip_if(old(self)@.v[x as int] == old(self)@.v[y as int]),
    {
        if self.v[x] == self.v[y] {
            self.pc += 4;
        } else {
            self.pc += 2;
        }
    }

    /// `6xkk`: loads `kk` into register `x`.
    fn _6xkk(&mut self, x: usize, kk: u8)
        requires
            old(self)@.fetchable(),
            x < 16,
        ensures
            final(self)@ == old(self)@.with_reg(x as int, kk).advanced(2),
    {
        self.v[x] = kk;
        self.pc += 2;
    }

    /// `7xkk`: adds `kk` to register `x`, wrapping, without touching the flag.
    fn _7kkk(&mut self, x: usize, kk: u8)
        requires
            old(self)@.fetchable(),
            x < 16,
        ensures
            final(self)@ == old(self)@.add_imm(x as int, kk),
    {
        self.v[x] = self.v[x].wrapping_add(kk);
        self.pc += 2;
    }

    /// `8xy0`: copies register `y` to register `x`.
    fn _8xy0(&mut self, x: usize, y: usize)
        requires
            old(self)@.fetchable(),
            x < 16,
            y < 16,
        ensures
            final(self)@ == old(self)@.with_reg(x as int, old(self)@.v[y as int]).advanced(2),
    {
        self.v[x] = self.v[y];
        self.pc += 2;
    }

    /// `8xy1`: bitwise or.
    fn _8xy1(&mut self, x: usize, y: usize)
        requires
            old(self)@.fetchable(),
            x < 16,
            y < 16,
        ensures
            final(self)@ == old(self)@.with_reg(
                x as int,
                old(self)@.v[x as int] | old(self)@.v[y as int],
            ).advanced(2),
    {
        self.v[x] = self.v[x] | self.v[y];
        self.pc += 2;
    }

    /// `8xy2`: bitwise and.
    fn _8xy2(&mut self, x: usize, y: usize)
        requires
            old(self)@.fetchable(),
            x < 16,
            y < 16,
        ensures
            final(self)@ == old(self)@.with_reg(
                x as int,
                old(self)@.v[x as int] & old(self)@.v[y as int],
            ).advanced(2),
    {
        self.v[x] = self.v[x] & self.v[y];
        self.pc += 2;
    }

    /// `8xy3`: bitwise exclusive or.
    fn _8xy3(&mut self, x: usize, y: usize)
        requires
            old(self)@.fetchable(),
            x < 16,
            y < 16,
        ensures
            final(self)@ == old(self)@.with_reg(
                x as int,
                old(self)@.v[x as int] ^ old(self)@.v[y as int],
            ).advanced(2),
    {
        self.v[x] = self.v[x] ^ self.v[y];
        self.pc += 2;
    }

    /// `8xy4`: adds register `y` to register `x`; the flag is the carry.
    fn _8xy4(&mut self, x: usize, y: usize)
        requires
            old(self)@.fetchable(),
            x < 16,
            y < 16,
        ensures
            final(self)@ == old(self)@.add_reg(x as int, y as int),
    {
        let sum: u16 = self.v[x] as u16 + self.v[y] as u16;
        self.v[x] = (sum % 256) as u8;
        self.v[0xF] = if sum > 255 { 1 } else { 0 };
        self.pc += 2;
    }

    /// `8xy5`: subtracts register `y` from register `x`; the flag is set
    /// beforehand, to 1 where register `x` is the greater.
    fn _8xy5(&mut self, x: usize, y: usize)
        requires
            old(self)@.fetchable(),
            x < 16,
            y < 16,
        ensures
            final(self)@ == old(self)@.sub_reg(x as int, y as int),
    {
        self.v[0xF] = if self.v[x] > self.v[y] { 1 } else { 0 };
        self.v[x] = self.v[x].wrapping_sub(self.v[y]);
        self.pc += 2;
    }

    /// `8xy6`: shifts register `x` right by one; the flag takes the bit
    /// shifted out.
    fn _8xy6(&mut self, x: usize)
        requires
            old(self)@.fetchable(),
            x < 16,
        ensures
            final(self)@ == old(self)@.shift_right(x as int),
    {
        self.v[0xF] = self.v[x] & 0x1;
        self.v[x] = self.v[x] >> 1;
        self.pc += 2;
    }

    /// `8xy7`: register `x` becomes register `y` minus register `x`; the
    /// flag is set beforehand, to 1 where register `y` is the greater.
    fn _8xy7(&mut self, x: usize, y: usize)
        requires
            old(self)@.fetchable(),
            x < 16,
            y < 16,
        ensures
            final(self)@ == old(self)@.sub_from_reg(x as int, y as int),
    {
        self.v[0xF] = if self.v[y] > self.v[x] { 1 } else { 0 };
        self.v[x] = self.v[y].wrapping_sub(self.v[x]);
        self.pc += 2;
    }

    /// `8xyE`: shifts register `x` left by one; the flag takes the bit
    /// shifted out.
    fn _8xy_e(&mut self, x: usize)
        requires
            old(self)@.fetchable(),
            x < 16,
        ensures
            final(self)@ == old(self)@.shift_left(x as int),
    {
        self.v[0xF] = if self.v[x] & 0x80 == 0x80 { 1 } else { 0 };
        self.v[x] = self.v[x] << 1;
        self.pc += 2;
    }

    /// `9xy0`: skips the next instruction if registers `x` and `y` differ.
    fn _9xy0(&mut self, x: usize, y: usize)
        requires
            old(self)@.fetchable(),
            x < 16,
            y < 16,
        ensures
            final(self)@ == old(self)@.skip_if(old(self)@.v[x as int] != old(self)@.v[y as int]),
    {
        if self.v[x] != self.v[y] {
            self.pc += 4;
        } else {
            self.pc += 2;
        }
    }

    /// `Annn`: loads `nnn` into the index register.
    fn _annn(&mut self, nnn: u16)
        requires
            old(self)@.fetchable(),
        ensures
            final(self)@ == (Machine { i: nnn, ..old(self)@ }).advanced(2),
    {
        self.i = nnn;
        self.pc += 2;
    }

    /// `Bnnn`: jumps to `nnn` plus register 0.
    fn _bnnn(&mut self, nnn: u16)
        requires
            nnn < 0x1000,
        ensures
            final(self)@ == old(self)@.jump_offset(nnn),
    {
        self.pc = nnn + self.v[0] as u16;
    }

    /// `Cxkk`: loads the random byte `rnd`, masked by `kk`, into register `x`.
    fn _cxkk(&mut self, x: usize, kk: u8, rnd: u8)
        requires
            old(self)@.fetchable(),
            x < 16,
        ensures
            final(self)@ == old(self)@.with_reg(x as int, rnd & kk).advanced(2),
    {
        self.v[x] = rnd & kk;
        self.pc += 2;
    }

    /// `Dxyn`: draws the sprite of `n` rows at the index register, with its
    /// corner at the column in register `x` and the row in register `y`.
    fn _dxyn(&mut self, x: usize, y: usize, n: u8)
        requires
            old(self)@.wf(),
            old(self)@.fetchable(),
            x < 16,
            y < 16,
            n < 16,
            n > 0 ==> old(self)@.i + n <= 4096,
        ensures
            final(self)@ == old(self)@.draw(x as int, y as int, n),
    {
        let ghost before = self@;
        let vx = self.v[x];
        let vy = self.v[y];
        let x_coord = vx as usize;
        let y_coord = vy as usize;
        self.v[0xF] = 0;

        let mut row: usize = 0;
        while row < n as usize
            invariant
                row <= n < 16,
                before.wf(),
                n > 0 ==> before.i + n <= 4096,
                x_coord == vx,
                y_coord == vy,
                self@ == (Machine { v: self@.v, screen: self@.screen, ..before }),
                self@.screen.len() == 2048,
                self@.v == before.v.update(15, flag(collides_before(before, vx, vy, n, row as int, 0))),
                forall|p: int|
                    0 <= p < 2048 ==> self@.screen[p] == (before.screen[p] != hits_before(
                        before,
                        vx,
                        vy,
                        n,
                        p,
                        row as int,
                        0,
                    )),
            decreases n - row,
        {
            let sprite_data = self.memory.read_byte(self.i + row as u16);
            let y_pos = (y_coord + row) % SCREEN_HEIGHT;

            let mut col: u8 = 0;
            while col < 8
                invariant
                    row < n < 16,
                    col <= 8,
                    before.wf(),
                    before.i + n <= 4096,
                    x_coord == vx,
                    y_coord == vy,
                    y_pos == (vy + row) % 32,
                    sprite_data == before.memory[before.i + row],
                    self@ == (Machine { v: self@.v, screen: self@.screen, ..before }),
                    self@.screen.len() == 2048,
                    self@.v == before.v.update(
                        15,
                        flag(collides_before(before, vx, vy, n, row as int, col as int)),
                    ),
                    forall|p: int|
                        0 <= p < 2048 ==> self@.screen[p] == (before.screen[p] != hits_before(
                            before,
                            vx,
                            vy,
                            n,
                            p,
                            row as int,
                            col as int,
                        )),
                decreases 8 - col,
            {
                let x_pos = (x_coord + col as usize) % SCREEN_WIDTH;
                let target = y_pos * SCREEN_WIDTH + x_pos;
                proof {
                    lemma_next_bit(before, vx, vy, n, row as int, col as int);
                }
                let sprite_bit = (sprite_data >> (7 - col)) & 0x1;
                assert(sprite_bit != 0 <==> sprite_bit == 1) by (bit_vector)
                    requires
                        sprite_bit == (sprite_data >> ((7 - col) as u8)) & 0x1,
                ;
                if sprite_bit != 0 {
                    if self.screen[target] {
                        self.v[0xF] = 1;
                    }
                    self.screen[target] = !self.screen[target];
                }
                col += 1;
            }
            proof {
                lemma_next_row(before, vx, vy, n, row as int);
            }
            row += 1;
        }

        self.pc += 2;
        proof {
            lemma_all_rows(before, vx, vy, n);
            assert(self@.screen =~= before.draw(x as int, y as int, n).screen);
        }
    }

    /// `Ex9E`: skips the next instruction if the key in register `x` is
    /// down, and consumes the key.
    fn _ex9e(&mut self, x: usize)
        requires
            old(self)@.fetchable(),
            x < 16,
            old(self)@.v[x as int] < 16,
        ensures
            final(self)@ == old(self)@.skip_key_down(x as int),
    {
        if self.keys[self.v[x] as usize] {
            self.keys[self.v[x] as usize] = false;
            self.pc += 2;
        }
        self.pc += 2;
    }

    /// `ExA1`: skips the next instruction if the key in register `x` is up.
    fn _exa1(&mut self, x: usize)
        requires
            old(self)@.fetchable(),
            x < 16,
            old(self)@.v[x as int] < 16,
        ensures
            final(self)@ == old(self)@.skip_key_up(x as int),
    {
        if !self.keys[self.v[x] as usize] {
            self.pc += 2;
        }
        self.pc += 2;
    }

    /// `Fx07`: reads the delay timer into register `x`.
    fn _fx07(&mut self, x: usize)
        requires
            old(self)@.fetchable(),
            x < 16,
        ensures
            final(self)@ == old(self)@.with_reg(x as int, old(self)@.delay_timer).advanced(2),
    {
        self.v[x] = self.delay_timer;
        self.pc += 2;
    }

    /// The lowest key that is held down, if any is.
    fn first_pressed_key(&self) -> (found: Option<usize>)
        ensures
            match found {
                Some(k) => is_first_pressed(self@.keys, k as int),
                None => forall|k: int| !is_first_pressed(self@.keys, k),
            },
    {
        let mut k: usize = 0;
        while k < NUM_KEYS
            invariant
                k <= NUM_KEYS,
                forall|j: int| 0 <= j < k ==> !self@.keys[j],
            decreases NUM_KEYS - k,
        {
            if self.keys[k] {
                return Some(k);
            }
            k += 1;
        }
        None
    }

    /// `Fx0A`: waits for a key and stores its number in register `x`.
    fn _fx0a(&mut self, x: usize)
        requires
            old(self)@.fetchable(),
            x < 16,
        ensures
            final(self)@ == old(self)@.wait_key(x as int),
    {
        if let Some(key) = self.first_pressed_key() {
            proof {
                let chosen = choose|k: int| is_first_pressed(self@.keys, k);
                assert(is_first_pressed(self@.keys, chosen));
                assert(chosen == key);
            }
            self.keys[key] = false;
            self.v[x] = key as u8;
            self.pc += 2;
        }
    }

    /// `Fx15`: sets the delay timer from register `x`.
    fn _fx15(&mut self, x: usize)
        requires
            old(self)@.fetchable(),
            x < 16,
        ensures
            final(self)@ == (Machine {
                delay_timer: old(self)@.v[x as int],
                ..old(self)@
            }).advanced(2),
    {
        self.delay_timer = self.v[x];
        self.pc += 2;
    }

    /// `Fx18`: sets the sound timer from register `x`.
    fn _fx18(&mut self, x: usize)
        requires
            old(self)@.fetchable(),
            x < 16,
        ensures
            final(self)@ == (Machine {
                sound_timer: old(self)@.v[x as int],
                ..old(self)@
            }).advanced(2),
    {
        self.sound_timer = self.v[x];
        self.pc += 2;
    }

    /// `Fx1E`: adds register `x` to the index register, wrapping.
    fn _fx1e(&mut self, x: usize)
        requires
            old(self)@.fetchable(),
            x < 16,
        ensures
            final(self)@ == old(self)@.add_index(x as int),
    {
        self.i = self.i.wrapping_add(self.v[x] as u16);
        self.pc += 2;
    }

    /// `Fx29`: points the index register at the glyph for the digit in
    /// register `x`.
    fn _fx29(&mut self, x: usize)
        requires
            old(self)@.fetchable(),
            x < 16,
        ensures
            final(self)@ == old(self)@.glyph(x as int),
    {
        self.i = 0x050 + (self.v[x] as u16 * 5);
        self.pc += 2;
    }

    /// `Fx33`: stores the decimal digits of register `x` at the index register.
    fn _fx33(&mut self, x: usize)
        requires
            old(self)@.wf(),
            old(self)@.fetchable(),
            x < 16,
            old(self)@.i + 2 < 4096,
        ensures
            final(self)@ == old(self)@.bcd(x as int),
    {
        self.memory.write_byte(self.i, self.v[x] / 100);
        self.memory.write_byte(self.i + 1, (self.v[x] % 100) / 10);
        self.memory.write_byte(self.i + 2, self.v[x] % 10);

        self.pc += 2;
    }

    /// `Fx55`: stores registers 0 to `x` at the index register.
    fn _fx55(&mut self, x: usize)
        requires
            old(self)@.wf(),
            old(self)@.fetchable(),
            x < 16,
            old(self)@.i + x < 4096,
        ensures
            final(self)@ == old(self)@.store_regs(x as int),
    {
        let ghost before = self@;
        let mut index: usize = 0;
        while index <= x
            invariant
                index <= x + 1,
                x < 16,
                before.wf(),
                before.i + x < 4096,
                self@ == (Machine { memory: self@.memory, ..before }),
                self@.memory.len() == 4096,
                forall|a: int|
                    0 <= a < 4096 ==> self@.memory[a] == if before.i <= a < before.i + index {
                        before.v[a - before.i]
                    } else {
                        before.memory[a]
                    },
            decreases x + 1 - index,
        {
            self.memory.write_byte(self.i + index as u16, self.v[index]);
            index += 1;
        }

        self.pc += 2;
        assert(self@.memory =~= before.store_regs(x as int).memory);
    }

    /// `Fx65`: loads registers 0 to `x` from the index register.
    fn _fx65(&mut self, x: usize)
        requires
            old(self)@.wf(),
            old(self)@.fetchable(),
            x < 16,
            old(self)@.i + x < 4096,
        ensures
            final(self)@ == old(self)@.load_regs(x as int),
    {
        let ghost before = self@;
        let mut index: usize = 0;
        while index <= x
            invariant
                index <= x + 1,
                x < 16,
                before.wf(),
                before.i + x < 4096,
                self@ == (Machine { v: self@.v, ..before }),
                self@.v.len() == 16,
                forall|k: int|
                    0 <= k < 16 ==> self@.v[k] == if k < index {
                        before.memory[before.i + k]
                    } else {
                        before.v[k]
                    },
            decreases x + 1 - index,
        {
            self.v[index] = self.memory.read_byte(self.i + index as u16);
            index += 1;
        }

        self.pc += 2;
        assert(self@.v =~= before.load_regs(x as int).v);
    }

    /// Executes `ins`, with `rnd` as the byte drawn from the random source.
    pub fn execute(&mut self, ins: Instruction, rnd: u8)
        requires
            old(self)@.wf(),
            old(self)@.fetchable(),
            ins.wf(),
            old(self)@.instruction_fault(ins) is None,
        ensures
            final(self)@ == old(self)@.execute(ins, rnd),
            final(self)@.wf(),
    {
        match ins {
            Instruction::ClearScreen => self._00e0(),
            Instruction::Return => self._00ee(),
            Instruction::Jump { nnn } => self._1nnn(nnn),
            Instruction::Call { nnn } => self._2nnn(nnn),
            Instruction::SkipEqImm { x, kk } => self._3xkk(x, kk),
            Instruction::SkipNeImm { x, kk } => self._4xkk(x, kk),
            Instruction::SkipEqReg { x, y } => self._5xy0(x, y),
            Instruction::LoadImm { x, kk } => self._6xkk(x, kk),
            Instruction::AddImm { x, kk } => self._7kkk(x, kk),
            Instruction::Move { x, y } => self._8xy0(x, y),
            Instruction::Or { x, y } => self._8xy1(x, y),
            Instruction::And { x, y } => self._8xy2(x, y),
            Instruction::Xor { x, y } => self._8xy3(x, y),
            Instruction::Add { x, y } => self._8xy4(x, y),
            Instruction::Sub { x, y } => self._8xy5(x, y),
            Instruction::ShiftRight { x } => self._8xy6(x),
            Instruction::SubFrom { x, y } => self._8xy7(x, y),
            Instruction::ShiftLeft { x } => self._8xy_e(x),
            Instruction::SkipNeReg { x, y } => self._9xy0(x, y),
            Instruction::LoadIndex { nnn } => self._annn(nnn),
            Instruction::JumpOffset { nnn } => self._bnnn(nnn),
            Instruction::Random { x, kk } => self._cxkk(x, kk, rnd),
            Instruction::Draw { x, y, n } => self._dxyn(x, y, n),
            Instruction::SkipKeyDown { x } => self._ex9e(x),
            Instruction::SkipKeyUp { x } => self._exa1(x),
            Instruction::ReadDelay { x } => self._fx07(x),
            Instruction::WaitKey { x } => self._fx0a(x),
            Instruction::SetDelay { x } => self._fx15(x),
            Instruction::SetSound { x } => self._fx18(x),
            Instruction::AddIndex { x } => self._fx1e(x),
            Instruction::Glyph { x } => self._fx29(x),
            Instruction::Bcd { x } => self._fx33(x),
            Instruction::StoreRegs { x } => self._fx55(x),
            Instruction::LoadRegs { x } => self._fx65(x),
            Instruction::Unknown => self.no_op_code(),
        }
    }

    /// The fault that executing `ins` now would raise, if any.
    pub fn instruction_fault(&self, ins: Instruction) -> (fault: Option<Fault>)
        requires
            ins.wf(),
        ensures
            fault == self@.instruction_fault(ins),
    {
        match ins {
            Instruction::Return => if self.sp == 0 {
                Some(Fault::StackUnderflow)
            } else {
                None
            },
            Instruction::Call { nnn: _ } => if self.sp >= 15 {
                Some(Fault::StackOverflow)
            } else {
                None
            },
            Instruction::Draw { x: _, y: _, n } => if n > 0 && self.i as u32 + n as u32 > 4096 {
                Some(Fault::MemoryOutOfRange)
            } else {
                None
            },
            Instruction::SkipKeyDown { x } | Instruction::SkipKeyUp { x } => if self.v[x] >= 16 {
                Some(Fault::KeyOutOfRange)
            } else {
                None
            },
            Instruction::Bcd { x: _ } => if self.i as u32 + 2 >= 4096 {
                Some(Fault::MemoryOutOfRange)
            } else {
                None
            },
            Instruction::StoreRegs { x } | Instruction::LoadRegs { x } => if self.i as usize + x
                >= 4096 {
                Some(Fault::MemoryOutOfRange)
            } else {
                None
            },
            _ => None,
        }
    }

    /// The fault that the next cycle would raise, if any.
    pub fn pending_fault(&self) -> (fault: Option<Fault>)
        ensures
            fault == self@.fault(),
    {
        if self.pc >= 4095 {
            Some(Fault::FetchOutOfRange)
        } else {
            self.instruction_fault(decode(self.fetch_opcode()))
        }
    }

    /// One fetch-decode-execute cycle.
    ///
    /// The new state is the model's step for some byte from the random
    /// source; for every instruction but `Cxkk` that byte plays no part.
    pub fn run_cycle(&mut self)
        requires
            old(self)@.wf(),
            old(self)@.fault() is None,
        ensures
            final(self)@.wf(),
            exists|rnd: u8| final(self)@ == old(self)@.step(rnd),
            !(decoded(old(self)@.opcode()) is Random) ==> forall|rnd: u8|
                final(self)@ == old(self)@.step(rnd),
    {
        let op_code = self.fetch_opcode();
        let ins = decode(op_code);
        let rnd = match ins {
            Instruction::Random { x: _, kk: _ } => random_in_range(0, 255),
            _ => 0,
        };
        self.execute(ins, rnd);
        assert(self@ == old(self)@.step(rnd));
    }

    /// One cycle, or the fault that prevents it.
    ///
    /// On success the instruction that was executed is handed back, so
    /// that a caller can report words that select no instruction. A fault
    /// leaves the machine exactly as it was.
    pub fn step(&mut self) -> (outcome: Result<Instruction, Fault>)
        requires
            old(self)@.wf(),
        ensures
            final(self)@.wf(),
            match outcome {
                Ok(ins) => {
                    &&& old(self)@.fault() is None
                    &&& ins == decoded(old(self)@.opcode())
                    &&& exists|rnd: u8| final(self)@ == old(self)@.step(rnd)
                    &&& !(ins is Random) ==> forall|rnd: u8| final(self)@ == old(self)@.step(rnd)
                },
                Err(fault) => old(self)@.fault() == Some(fault) && final(self)@ == old(self)@,
            },
    {
        match self.pending_fault() {
            Some(fault) => Err(fault),
            None => {
                let ins = decode(self.fetch_opcode());
                self.run_cycle();
                Ok(ins)
            },
        }
    }
}

/// The sprite hits pixel `p` with one of the bits that come before bit
/// `col` of row `row` in drawing order.
spec fn hits_before(m: Machine, vx: u8, vy: u8, n: u8, p: int, row: int, col: int) -> bool {
    let r = (p / 64 - vy) % 32;
    let c = (p % 64 - vx) % 64;
    m.sprite_hits(vx, vy, n, p) && (r < row || (r == row && c < col))
}

/// One of the bits before bit `col` of row `row` hits a pixel that is lit.
spec fn collides_before(m: Machine, vx: u8, vy: u8, n: u8, row: int, col: int) -> bool {
    exists|p: int| 0 <= p < 2048 && m.screen[p] && #[trigger] hits_before(m, vx, vy, n, p, row, col)
}

/// Taking bit `col` of row `row` into account adds exactly its own pixel,
/// and only if the bit is set.
proof fn lemma_next_bit(m: Machine, vx: u8, vy: u8, n: u8, row: int, col: int)
    requires
        m.wf(),
        0 <= row < n < 16,
        0 <= col < 8,
    ensures
        ({
            let target = sprite_target(vx, vy, row, col);
            let bit = sprite_bit(m.memory[m.i + row], col);
            &&& 0 <= target < 2048
            &&& !hits_before(m, vx, vy, n, target, row, col)
            &&& forall|p: int|
                0 <= p < 2048 ==> (#[trigger] hits_before(m, vx, vy, n, p, row, col + 1) <==> (
                hits_before(m, vx, vy, n, p, row, col) || (p == target && bit)))
            &&& collides_before(m, vx, vy, n, row, col + 1) <==> (collides_before(
                m,
                vx,
                vy,
                n,
                row,
                col,
            ) || (m.screen[target] && bit))
        }),
{
    let target = sprite_target(vx, vy, row, col);
    let bit = sprite_bit(m.memory[m.i + row], col);
    lemma_pixel_of_sprite_bit(vx, vy, row, col, target);
    assert forall|p: int| 0 <= p < 2048 implies (#[trigger] hits_before(
        m,
        vx,
        vy,
        n,
        p,
        row,
        col + 1,
    ) <==> (hits_before(m, vx, vy, n, p, row, col) || (p == target && bit))) by {
        lemma_pixel_of_sprite_bit(vx, vy, row, col, p);
    }
    if collides_before(m, vx, vy, n, row, col + 1) {
        let p = choose|p: int|
            0 <= p < 2048 && m.screen[p] && #[trigger] hits_before(m, vx, vy, n, p, row, col + 1);
        assert(hits_before(m, vx, vy, n, p, row, col) || (p == target && bit));
    }
    if collides_before(m, vx, vy, n, row, col) {
        let p = choose|p: int|
            0 <= p < 2048 && m.screen[p] && #[trigger] hits_before(m, vx, vy, n, p, row, col);
        assert(hits_before(m, vx, vy, n, p, row, col + 1));
    }
    if m.screen[target] && bit {
        assert(hits_before(m, vx, vy, n, target, row, col + 1));
    }
}

/// A finished row is the start of the next one.
proof fn lemma_next_row(m: Machine, vx: u8, vy: u8, n: u8, row: int)
    ensures
        forall|p: int| #[trigger]
            hits_before(m, vx, vy, n, p, row, 8) == hits_before(m, vx, vy, n, p, row + 1, 0),
        collides_before(m, vx, vy, n, row, 8) == collides_before(m, vx, vy, n, row + 1, 0),
{
    assert forall|p: int| #[trigger]
        hits_before(m, vx, vy, n, p, row, 8) == hits_before(m, vx, vy, n, p, row + 1, 0) by {}
    if collides_before(m, vx, vy, n, row, 8) {
        let p = choose|p: int|
            0 <= p < 2048 && m.screen[p] && #[trigger] hits_before(m, vx, vy, n, p, row, 8);
        assert(hits_before(m, vx, vy, n, p, row + 1, 0));
    }
    if collides_before(m, vx, vy, n, row + 1, 0) {
        let p = choose|p: int|
            0 <= p < 2048 && m.screen[p] && #[trigger] hits_before(m, vx, vy, n, p, row + 1, 0);
        assert(hits_before(m, vx, vy, n, p, row, 8));
    }
}

/// After the last row every bit of the sprite has been taken into account.
proof fn lemma_all_rows(m: Machine, vx: u8, vy: u8, n: u8)
    ensures
        forall|p: int| #[trigger]
            hits_before(m, vx, vy, n, p, n as int, 0) == m.sprite_hits(vx, vy, n, p),
        collides_before(m, vx, vy, n, n as int, 0) == m.sprite_collides(vx, vy, n),
{
    if collides_before(m, vx, vy, n, n as int, 0) {
        let p = choose|p: int|
            0 <= p < 2048 && m.screen[p] && #[trigger] hits_before(m, vx, vy, n, p, n as int, 0);
        assert(m.sprite_hits(vx, vy, n, p));
    }
    if m.sprite_collides(vx, vy, n) {
        let p = choose|p: int| 0 <= p < 2048 && m.screen[p] && #[trigger] m.sprite_hits(vx, vy, n, p);
        assert(hits_before(m, vx, vy, n, p, n as int, 0));
    }
}

} // verus!
