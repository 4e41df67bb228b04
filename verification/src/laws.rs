//! Properties of the instruction set, proved from the model.
//!
//! A law about one instruction speaks of a machine whose next
//! instruction word is given by its hexadecimal pattern, and of the state
//! after the step. The others hold of every step.
use vstd::prelude::*;
use crate::machine::{
    flag, is_first_pressed, lemma_pixel_of_sprite_bit, sprite_target, Machine,
};
use crate::opcode::{
    decoded, lemma_fields_of_address_word, lemma_fields_of_immediate_word, lemma_fields_of_word,
    Instruction,
};

verus! {

/// A step that raises no fault keeps the state well-formed: the
/// containers keep their sizes and the stack pointer stays within the
/// fifteen usable slots.
pub proof fn law_step_preserves_wf(s: Machine, rnd: u8)
    requires
        s.wf(),
        s.fault() is None,
    ensures
        s.step(rnd).wf(),
{
}

/// Only `Cxkk` consults the random source: for any other instruction the
/// step is the same whatever byte is drawn.
pub proof fn law_random_byte_matters_only_to_cxkk(s: Machine, rnd1: u8, rnd2: u8)
    requires
        !(decoded(s.opcode()) is Random),
    ensures
        s.step(rnd1) == s.step(rnd2),
{
}

/// Every instruction that does not decide the next program counter
/// itself moves it forward by exactly 2; words that select no
/// instruction are among them and change nothing else.
pub proof fn law_plain_instructions_advance_by_two(s: Machine, rnd: u8)
    requires
        s.wf(),
        s.fetchable(),
        !decoded(s.opcode()).sets_program_counter(),
    ensures
        s.step(rnd).pc == s.pc + 2,
        decoded(s.opcode()) == Instruction::Unknown ==> s.step(rnd) == (Machine {
            pc: (s.pc + 2) as u16,
            ..s
        }),
{
}

/// A conditional skip moves the program counter forward by 2 or by 4
/// and, but for the key that `Ex9E` consumes, changes nothing else.
pub proof fn law_skips_advance_by_two_or_four(s: Machine, rnd: u8)
    requires
        s.wf(),
        s.fetchable(),
        s.fault() is None,
        ({
            let ins = decoded(s.opcode());
            ins is SkipEqImm || ins is SkipNeImm || ins is SkipEqReg || ins is SkipNeReg
                || ins is SkipKeyDown || ins is SkipKeyUp
        }),
    ensures
        s.step(rnd).pc == s.pc + 2 || s.step(rnd).pc == s.pc + 4,
        s.step(rnd) == (Machine { pc: s.step(rnd).pc, keys: s.step(rnd).keys, ..s }),
        !(decoded(s.opcode()) is SkipKeyDown) ==> s.step(rnd).keys == s.keys,
{
}

/// The display changes only by `00E0` and `Dxyn`.
pub proof fn law_display_changes_only_by_clear_and_draw(s: Machine, rnd: u8)
    requires
        decoded(s.opcode()) != Instruction::ClearScreen,
        !(decoded(s.opcode()) is Draw),
    ensures
        s.step(rnd).screen == s.screen,
{
}

/// A step never counts the timers down: they change only where `Fx15`
/// or `Fx18` sets one.
pub proof fn law_step_leaves_timers(s: Machine, rnd: u8)
    ensures
        !(decoded(s.opcode()) is SetDelay) ==> s.step(rnd).delay_timer == s.delay_timer,
        !(decoded(s.opcode()) is SetSound) ==> s.step(rnd).sound_timer == s.sound_timer,
{
}

/// The keypad changes only where `Ex9E` or `Fx0A` consumes a key, and
/// then only by releasing keys.
pub proof fn law_step_only_releases_keys(s: Machine, rnd: u8, k: int)
    requires
        s.wf(),
        s.fault() is None,
        0 <= k < 16,
    ensures
        s.step(rnd).keys[k] ==> s.keys[k],
        !(decoded(s.opcode()) is SkipKeyDown) && !(decoded(s.opcode()) is WaitKey) ==> s.step(
            rnd,
        ).keys == s.keys,
{
}

/// `Fx0A` with no key down changes nothing, so that it is executed again
/// on the next step. With a key down, the lowest such key is released,
/// its number goes to register `x`, and the program counter moves on.
pub proof fn law_wait_for_key(s: Machine, x: int, k: int, rnd: u8)
    requires
        s.wf(),
        s.fetchable(),
        0 <= x < 16,
        s.opcode() == 0xF00A + x * 0x100,
    ensures
        s.fault() is None,
        (forall|j: int| 0 <= j < 16 ==> !s.keys[j]) ==> s.step(rnd) == s,
        is_first_pressed(s.keys, k) ==> s.step(rnd) == (Machine {
            v: s.v.update(x, k as u8),
            keys: s.keys.update(k, false),
            pc: (s.pc + 2) as u16,
            ..s
        }),
{
    lemma_fields_of_word(0xF, x, 0, 0xA);
    assert(decoded(s.opcode()) == Instruction::WaitKey { x: x as usize });
    if is_first_pressed(s.keys, k) {
        let chosen = choose|j: int| is_first_pressed(s.keys, j);
        assert(is_first_pressed(s.keys, chosen));
        assert(chosen == k);
    }
}

/// `Ex9E` on a key that is down releases that key and skips the next
/// instruction; on a key that is up it only moves on.
pub proof fn law_skip_if_key_down(s: Machine, x: int, rnd: u8)
    requires
        s.wf(),
        s.fetchable(),
        0 <= x < 16,
        s.v[x] < 16,
        s.opcode() == 0xE09E + x * 0x100,
    ensures
        s.fault() is None,
        s.keys[s.v[x] as int] ==> s.step(rnd) == (Machine {
            keys: s.keys.update(s.v[x] as int, false),
            pc: (s.pc + 4) as u16,
            ..s
        }),
        !s.keys[s.v[x] as int] ==> s.step(rnd) == (Machine { pc: (s.pc + 2) as u16, ..s }),
{
    lemma_fields_of_word(0xE, x, 9, 0xE);
    assert(decoded(s.opcode()) == Instruction::SkipKeyDown { x: x as usize });
}

/// A tick lowers each timer by one and stops at zero.
pub proof fn law_tick_floors_at_zero(s: Machine)
    ensures
        s.ticked().delay_timer == if s.delay_timer == 0 { 0 } else { s.delay_timer - 1 },
        s.ticked().sound_timer == if s.sound_timer == 0 { 0 } else { s.sound_timer - 1 },
        s.ticked() == (Machine {
            delay_timer: s.ticked().delay_timer,
            sound_timer: s.ticked().sound_timer,
            ..s
        }),
{
}

/// Loading a program and fetching at the load address yields the
/// program's first two bytes, high byte first.
pub proof fn law_loaded_program_is_fetched(s: Machine, bytes: Seq<u8>)
    requires
        s.wf(),
        2 <= bytes.len() <= 3584,
        s.pc == 0x200,
    ensures
        s.loaded(bytes).wf(),
        s.loaded(bytes).fetchable(),
        s.loaded(bytes).opcode() == bytes[0] * 256 + bytes[1],
{
}

/// `6xkk` leaves `kk` in register `x` and moves the program counter
/// forward by exactly 2.
pub proof fn law_load_immediate(s: Machine, x: int, kk: u8, rnd: u8)
    requires
        s.wf(),
        s.fetchable(),
        0 <= x < 16,
        s.opcode() == 0x6000 + x * 0x100 + kk,
    ensures
        s.fault() is None,
        s.step(rnd).v[x] == kk,
        s.step(rnd).pc == s.pc + 2,
{
    lemma_fields_of_immediate_word(6, x, kk);
    assert(decoded(s.opcode()) == Instruction::LoadImm { x: x as usize, kk });
}

/// `8xy4` sets the flag to 1 exactly when the sum of the two registers
/// exceeds 255, and to 0 otherwise. Unless `x` is the flag register
/// itself, register `x` holds the sum modulo 256.
pub proof fn law_add_carry(s: Machine, x: int, y: int, rnd: u8)
    requires
        s.wf(),
        s.fetchable(),
        0 <= x < 16,
        0 <= y < 16,
        s.opcode() == 0x8004 + x * 0x100 + y * 0x10,
    ensures
        s.fault() is None,
        s.step(rnd).v[15] == flag(s.v[x] + s.v[y] > 255),
        x != 15 ==> s.step(rnd).v[x] == (s.v[x] + s.v[y]) % 256,
        s.step(rnd).pc == s.pc + 2,
{
    lemma_fields_of_word(8, x, y, 4);
    assert(decoded(s.opcode()) == Instruction::Add { x: x as usize, y: y as usize });
}

/// `8xy6` puts into the flag the bit that the shift pushes out, not one
/// that remains: the old value is twice the new one plus the flag.
pub proof fn law_shift_right_flag(s: Machine, x: int, y: int, rnd: u8)
    requires
        s.wf(),
        s.fetchable(),
        0 <= x < 15,
        0 <= y < 16,
        s.opcode() == 0x8006 + x * 0x100 + y * 0x10,
    ensures
        s.fault() is None,
        s.step(rnd).v[15] == s.v[x] % 2,
        s.step(rnd).v[x] == s.v[x] / 2,
        s.v[x] == 2 * s.step(rnd).v[x] + s.step(rnd).v[15],
{
    lemma_fields_of_word(8, x, y, 6);
    assert(decoded(s.opcode()) == Instruction::ShiftRight { x: x as usize });
    let value = s.v[x];
    assert(value & 1u8 == value % 2 && value >> 1u8 == value / 2) by (bit_vector);
}

/// `8xyE` puts into the flag the bit that the shift pushes out: twice
/// the old value is the new one plus 256 times the flag.
pub proof fn law_shift_left_flag(s: Machine, x: int, y: int, rnd: u8)
    requires
        s.wf(),
        s.fetchable(),
        0 <= x < 15,
        0 <= y < 16,
        s.opcode() == 0x800E + x * 0x100 + y * 0x10,
    ensures
        s.fault() is None,
        s.step(rnd).v[15] == s.v[x] / 128,
        s.step(rnd).v[x] == (2 * s.v[x]) % 256,
        2 * s.v[x] == 256 * s.step(rnd).v[15] + s.step(rnd).v[x],
{
    lemma_fields_of_word(8, x, y, 0xE);
    assert(decoded(s.opcode()) == Instruction::ShiftLeft { x: x as usize });
    let value = s.v[x];
    assert((value & 0x80u8 == 0x80u8) == (value >= 128) && value << 1u8 == (2 * value) % 256)
        by (bit_vector);
}

/// `3xkk` moves the program counter forward by 4 where register `x`
/// holds `kk`, and by 2 where it does not.
pub proof fn law_skip_if_equal(s: Machine, x: int, kk: u8, rnd: u8)
    requires
        s.wf(),
        s.fetchable(),
        0 <= x < 16,
        s.opcode() == 0x3000 + x * 0x100 + kk,
    ensures
        s.fault() is None,
        s.v[x] == kk ==> s.step(rnd).pc == s.pc + 4,
        s.v[x] != kk ==> s.step(rnd).pc == s.pc + 2,
        s.step(rnd) == (Machine { pc: s.step(rnd).pc, ..s }),
{
    lemma_fields_of_immediate_word(3, x, kk);
    assert(decoded(s.opcode()) == Instruction::SkipEqImm { x: x as usize, kk });
}

/// A call followed at once by a return restores the stack pointer and
/// continues at the address that the call pushed, which is the address
/// of the call instruction itself.
pub proof fn law_call_then_return(s: Machine, target: u16, rnd1: u8, rnd2: u8)
    requires
        s.wf(),
        s.fault() is None,
        target < 0x1000,
        s.opcode() == 0x2000 + target,
        s.step(rnd1).fetchable(),
        s.step(rnd1).opcode() == 0x00EE,
    ensures
        s.step(rnd1).pc == target,
        s.step(rnd1).sp == s.sp + 1,
        s.step(rnd1).fault() is None,
        s.step(rnd1).step(rnd2).sp == s.sp,
        s.step(rnd1).step(rnd2).pc == s.pc,
{
    lemma_fields_of_address_word(2, target);
    assert(decoded(s.opcode()) == Instruction::Call { nnn: target });
    lemma_fields_of_word(0, 0, 0xE, 0xE);
    assert(decoded(s.step(rnd1).opcode()) == Instruction::Return);
}

/// Sprite bit `c` of row `r` lands on the pixel in row `(vy + r) mod 32`
/// and column `(vx + c) mod 64`, and no other bit of the sprite lands
/// there.
pub proof fn law_sprite_bit_position(s: Machine, vx: u8, vy: u8, n: u8, r: int, c: int)
    requires
        0 <= r < n < 16,
        0 <= c < 8,
    ensures
        0 <= sprite_target(vx, vy, r, c) < 2048,
        sprite_target(vx, vy, r, c) / 64 == (vy + r) % 32,
        sprite_target(vx, vy, r, c) % 64 == (vx + c) % 64,
        s.sprite_hits(vx, vy, n, sprite_target(vx, vy, r, c)) == s.sprite_pixel(r, c),
{
    lemma_pixel_of_sprite_bit(vx, vy, r, c, sprite_target(vx, vy, r, c));
}

/// A pixel is hit only where a set bit of the sprite lands on it.
pub proof fn law_sprite_hits_only_under_set_bits(s: Machine, vx: u8, vy: u8, n: u8, p: int)
    requires
        0 <= p < 2048,
        n < 16,
        s.sprite_hits(vx, vy, n, p),
    ensures
        exists|r: int, c: int|
            0 <= r < n && 0 <= c < 8 && s.sprite_pixel(r, c) && p == #[trigger] sprite_target(
                vx,
                vy,
                r,
                c,
            ),
{
    let r = (p / 64 - vy) % 32;
    let c = (p % 64 - vx) % 64;
    lemma_pixel_of_sprite_bit(vx, vy, r, c, p);
    assert(p == sprite_target(vx, vy, r, c));
}

/// Drawing the same sprite twice at the same place restores the display.
///
/// The place is the same where the first draw leaves both coordinate
/// registers as they were, which can fail only if one of them is the
/// flag register.
pub proof fn law_draw_twice_restores_screen(s: Machine, x: int, y: int, n: u8)
    requires
        s.wf(),
        0 <= x < 16,
        0 <= y < 16,
        s.draw(x, y, n).v[x] == s.v[x],
        s.draw(x, y, n).v[y] == s.v[y],
    ensures
        s.draw(x, y, n).draw(x, y, n).screen == s.screen,
{
    let once = s.draw(x, y, n);
    let twice = once.draw(x, y, n);
    assert forall|p: int| 0 <= p < 2048 implies twice.screen[p] == s.screen[p] by {
        assert(once.sprite_hits(s.v[x], s.v[y], n, p) == s.sprite_hits(s.v[x], s.v[y], n, p));
    }
    assert(twice.screen =~= s.screen);
}

/// Drawing a sprite that has a set bit onto pixels that are all unlit
/// reports no collision; drawing it again at the same place reports
/// one, and leaves every pixel under the sprite unlit.
pub proof fn law_draw_twice_collides(s: Machine, x: int, y: int, n: u8)
    requires
        s.wf(),
        0 <= x < 16,
        0 <= y < 16,
        n < 16,
        s.sprite_is_visible(n),
        !s.sprite_collides(s.v[x], s.v[y], n),
        x == 15 || y == 15 ==> s.v[15] == 0,
    ensures
        s.draw(x, y, n).v[15] == 0,
        s.draw(x, y, n).draw(x, y, n).v[15] == 1,
        forall|p: int|
            0 <= p < 2048 && s.sprite_hits(s.v[x], s.v[y], n, p) ==> !s.draw(x, y, n).draw(
                x,
                y,
                n,
            ).screen[p],
{
    let vx = s.v[x];
    let vy = s.v[y];
    let once = s.draw(x, y, n);
    let twice = once.draw(x, y, n);
    assert(once.v[x] == vx && once.v[y] == vy);
    assert forall|p: int| 0 <= p < 2048 implies once.sprite_hits(vx, vy, n, p) == s.sprite_hits(
        vx,
        vy,
        n,
        p,
    ) by {}
    let (r, c) = choose|r: int, c: int|
        0 <= r < n && 0 <= c < 8 && #[trigger] s.sprite_pixel(r, c);
    law_sprite_bit_position(s, vx, vy, n, r, c);
    let hit = sprite_target(vx, vy, r, c);
    assert(s.sprite_hits(vx, vy, n, hit));
    assert(!s.screen[hit]);
    assert(once.screen[hit] && once.sprite_hits(vx, vy, n, hit));
    assert(once.sprite_collides(vx, vy, n));
    law_draw_twice_restores_screen(s, x, y, n);
}

} // verus!
