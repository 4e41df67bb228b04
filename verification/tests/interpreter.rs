use chip8::chip8::{Chip8, LoadError, MAX_ROM_SIZE, PIXEL_OFF, PIXEL_ON, SCREEN_SIZE, START_ADDR};
use chip8::machine::Fault;
use chip8::opcode::{decode, Instruction};

fn boot(program: &[u8]) -> Chip8 {
    let mut machine = Chip8::new();
    assert_eq!(machine.load_rom(program), Ok(()));
    machine
}

fn run(machine: &mut Chip8, cycles: usize) {
    for _ in 0..cycles {
        let word = machine.fetch_opcode();
        assert_eq!(machine.step(), Ok(decode(word)));
    }
}

fn lit_pixels(machine: &Chip8) -> Vec<(usize, usize)> {
    let mut lit = Vec::new();
    for row in 0..32 {
        for col in 0..64 {
            if machine.pixel(row, col) {
                lit.push((row, col));
            }
        }
    }
    lit
}

#[test]
fn new_machine_is_zeroed_with_font_loaded() {
    let machine = Chip8::new();
    assert_eq!(machine.program_counter(), 0x200);
    assert_eq!(machine.stack_pointer(), 0);
    assert_eq!(machine.index_register(), 0);
    assert_eq!(machine.delay_timer(), 0);
    assert_eq!(machine.sound_timer(), 0);
    for x in 0..16 {
        assert_eq!(machine.register(x), 0);
        assert!(!machine.key(x));
    }
    assert!(lit_pixels(&machine).is_empty());
    assert_eq!(machine.memory_byte(0x04F), 0);
    assert_eq!(machine.memory_byte(0x050), 0xF0);
    assert_eq!(machine.memory_byte(0x051), 0x90);
    assert_eq!(machine.memory_byte(0x055), 0x20);
    assert_eq!(machine.memory_byte(0x09F), 0x80);
    assert_eq!(machine.memory_byte(0x0A0), 0);
    assert_eq!(machine.memory_byte(0x200), 0);
}

#[test]
fn load_rom_copies_to_start_address() {
    let mut machine = Chip8::new();
    assert_eq!(machine.load_rom(&[0x12, 0x34, 0x56]), Ok(()));
    assert_eq!(machine.memory_byte(START_ADDR - 1), 0);
    assert_eq!(machine.memory_byte(START_ADDR), 0x12);
    assert_eq!(machine.memory_byte(START_ADDR + 1), 0x34);
    assert_eq!(machine.memory_byte(START_ADDR + 2), 0x56);
    assert_eq!(machine.memory_byte(START_ADDR + 3), 0);
    assert_eq!(machine.fetch_opcode(), 0x1234);
    assert_eq!(machine.memory_byte(0x050), 0xF0);
}

#[test]
fn load_rom_accepts_the_largest_image() {
    let mut machine = Chip8::new();
    let image = vec![0xABu8; MAX_ROM_SIZE];
    assert_eq!(MAX_ROM_SIZE, 4096 - 0x200);
    assert_eq!(machine.load_rom(&image), Ok(()));
    assert_eq!(machine.memory_byte(0x200), 0xAB);
    assert_eq!(machine.memory_byte(0xFFF), 0xAB);
    assert_eq!(machine.memory_byte(0x1FF), 0);
}

#[test]
fn load_rom_rejects_an_oversized_image_untouched() {
    let mut machine = boot(&[0x11, 0x22]);
    let image = vec![0xABu8; MAX_ROM_SIZE + 1];
    assert_eq!(machine.load_rom(&image), Err(LoadError::TooLarge));
    assert_eq!(machine.memory_byte(0x200), 0x11);
    assert_eq!(machine.memory_byte(0x201), 0x22);
    assert_eq!(machine.memory_byte(0x202), 0);
    assert_eq!(machine.memory_byte(0xFFF), 0);
}

#[test]
fn load_rom_of_nothing_changes_nothing() {
    let mut machine = boot(&[0x11, 0x22]);
    assert_eq!(machine.load_rom(&[]), Ok(()));
    assert_eq!(machine.memory_byte(0x200), 0x11);
    assert_eq!(machine.memory_byte(0x201), 0x22);
}

#[test]
fn load_immediate_sets_each_register() {
    for x in 0..16u8 {
        let mut machine = boot(&[0x60 | x, 0xA0 + x]);
        run(&mut machine, 1);
        assert_eq!(machine.register(x as usize), 0xA0 + x);
        assert_eq!(machine.program_counter(), 0x202);
        for other in 0..16 {
            if other != x as usize {
                assert_eq!(machine.register(other), 0);
            }
        }
    }
}

#[test]
fn add_immediate_wraps_and_leaves_flag() {
    let mut machine = boot(&[0x61, 0xFF, 0x71, 0x02]);
    run(&mut machine, 2);
    assert_eq!(machine.register(1), 1);
    assert_eq!(machine.register(0xF), 0);
    assert_eq!(machine.program_counter(), 0x204);
}

#[test]
fn add_with_carry_boundary() {
    // 255 + 1
    let mut machine = boot(&[0x60, 0xFF, 0x61, 0x01, 0x80, 0x14]);
    run(&mut machine, 3);
    assert_eq!(machine.register(0), 0);
    assert_eq!(machine.register(0xF), 1);
    assert_eq!(machine.program_counter(), 0x206);
}

#[test]
fn add_without_carry() {
    // 10 + 20
    let mut machine = boot(&[0x60, 10, 0x61, 20, 0x80, 0x14]);
    run(&mut machine, 3);
    assert_eq!(machine.register(0), 30);
    assert_eq!(machine.register(1), 20);
    assert_eq!(machine.register(0xF), 0);
}

#[test]
fn add_at_exactly_255_has_no_carry() {
    let mut machine = boot(&[0x60, 200, 0x61, 55, 0x80, 0x14]);
    run(&mut machine, 3);
    assert_eq!(machine.register(0), 255);
    assert_eq!(machine.register(0xF), 0);
}

#[test]
fn add_into_flag_register_keeps_the_carry() {
    let mut machine = boot(&[0x6F, 200, 0x61, 100, 0x8F, 0x14]);
    run(&mut machine, 3);
    assert_eq!(machine.register(0xF), 1);
}

#[test]
fn move_or_and_xor() {
    let mut machine = boot(&[
        0x60, 0b1100, 0x61, 0b1010, 0x82, 0x00, 0x82, 0x11, 0x83, 0x00, 0x83, 0x12, 0x84, 0x00,
        0x84, 0x13,
    ]);
    run(&mut machine, 8);
    assert_eq!(machine.register(2), 0b1110);
    assert_eq!(machine.register(3), 0b1000);
    assert_eq!(machine.register(4), 0b0110);
    assert_eq!(machine.register(0), 0b1100);
    assert_eq!(machine.register(1), 0b1010);
    assert_eq!(machine.register(0xF), 0);
}

#[test]
fn subtract_sets_flag_when_strictly_greater() {
    let mut machine = boot(&[0x60, 10, 0x61, 3, 0x80, 0x15]);
    run(&mut machine, 3);
    assert_eq!(machine.register(0), 7);
    assert_eq!(machine.register(0xF), 1);

    let mut machine = boot(&[0x60, 3, 0x61, 10, 0x80, 0x15]);
    run(&mut machine, 3);
    assert_eq!(machine.register(0), 249);
    assert_eq!(machine.register(0xF), 0);

    let mut machine = boot(&[0x60, 5, 0x61, 5, 0x80, 0x15]);
    run(&mut machine, 3);
    assert_eq!(machine.register(0), 0);
    assert_eq!(machine.register(0xF), 0);
}

#[test]
fn reverse_subtract_sets_flag_when_strictly_greater() {
    let mut machine = boot(&[0x60, 3, 0x61, 10, 0x80, 0x17]);
    run(&mut machine, 3);
    assert_eq!(machine.register(0), 7);
    assert_eq!(machine.register(0xF), 1);

    let mut machine = boot(&[0x60, 10, 0x61, 3, 0x80, 0x17]);
    run(&mut machine, 3);
    assert_eq!(machine.register(0), 249);
    assert_eq!(machine.register(0xF), 0);
}

#[test]
fn subtract_reads_the_flag_register_after_it_is_set() {
    // v0 = 10, vF = 7; v0 - vF: the flag becomes 1 first, then 10 - 1.
    let mut machine = boot(&[0x60, 10, 0x6F, 7, 0x80, 0xF5]);
    run(&mut machine, 3);
    assert_eq!(machine.register(0xF), 1);
    assert_eq!(machine.register(0), 9);
}

#[test]
fn shift_right_saves_the_low_bit() {
    let mut machine = boot(&[0x60, 0b0000_0011, 0x80, 0x06]);
    run(&mut machine, 2);
    assert_eq!(machine.register(0xF), 1);
    assert_eq!(machine.register(0), 0b0000_0001);
    assert_eq!(machine.program_counter(), 0x204);

    let mut machine = boot(&[0x60, 0b0000_0100, 0x80, 0x06]);
    run(&mut machine, 2);
    assert_eq!(machine.register(0xF), 0);
    assert_eq!(machine.register(0), 0b0000_0010);
}

#[test]
fn shift_left_saves_the_high_bit() {
    let mut machine = boot(&[0x60, 0b1100_0001, 0x80, 0x0E]);
    run(&mut machine, 2);
    assert_eq!(machine.register(0xF), 1);
    assert_eq!(machine.register(0), 0b1000_0010);

    let mut machine = boot(&[0x60, 0b0100_0001, 0x80, 0x0E]);
    run(&mut machine, 2);
    assert_eq!(machine.register(0xF), 0);
    assert_eq!(machine.register(0), 0b1000_0010);
}

#[test]
fn shift_of_the_flag_register_itself() {
    // The flag takes bit 0 (1), then the register is shifted: 1 >> 1.
    let mut machine = boot(&[0x6F, 3, 0x8F, 0x06]);
    run(&mut machine, 2);
    assert_eq!(machine.register(0xF), 0);
}

#[test]
fn skip_if_equal_immediate_both_branches() {
    let mut machine = boot(&[0x60, 0x42, 0x30, 0x42]);
    run(&mut machine, 2);
    assert_eq!(machine.program_counter(), 0x202 + 4);

    let mut machine = boot(&[0x60, 0x42, 0x30, 0x43]);
    run(&mut machine, 2);
    assert_eq!(machine.program_counter(), 0x202 + 2);
}

#[test]
fn skip_if_not_equal_immediate_both_branches() {
    let mut machine = boot(&[0x60, 0x42, 0x40, 0x43]);
    run(&mut machine, 2);
    assert_eq!(machine.program_counter(), 0x206);

    let mut machine = boot(&[0x60, 0x42, 0x40, 0x42]);
    run(&mut machine, 2);
    assert_eq!(machine.program_counter(), 0x204);
}

#[test]
fn skip_on_register_comparison() {
    let mut machine = boot(&[0x60, 9, 0x61, 9, 0x50, 0x10]);
    run(&mut machine, 3);
    assert_eq!(machine.program_counter(), 0x208);

    let mut machine = boot(&[0x60, 9, 0x61, 8, 0x50, 0x10]);
    run(&mut machine, 3);
    assert_eq!(machine.program_counter(), 0x206);

    let mut machine = boot(&[0x60, 9, 0x61, 8, 0x90, 0x10]);
    run(&mut machine, 3);
    assert_eq!(machine.program_counter(), 0x208);

    let mut machine = boot(&[0x60, 9, 0x61, 9, 0x90, 0x10]);
    run(&mut machine, 3);
    assert_eq!(machine.program_counter(), 0x206);
}

#[test]
fn jump_sets_program_counter() {
    let mut machine = boot(&[0x1A, 0xBC]);
    run(&mut machine, 1);
    assert_eq!(machine.program_counter(), 0xABC);
    assert_eq!(machine.stack_pointer(), 0);
}

#[test]
fn jump_with_offset_adds_register_zero() {
    let mut machine = boot(&[0x60, 0x10, 0xB3, 0x00]);
    run(&mut machine, 2);
    assert_eq!(machine.program_counter(), 0x310);

    let mut machine = boot(&[0x60, 0xFF, 0xBF, 0xFF]);
    run(&mut machine, 2);
    assert_eq!(machine.program_counter(), 0xFFF + 0xFF);
    assert_eq!(machine.step(), Err(Fault::FetchOutOfRange));
}

#[test]
fn call_then_return_round_trip() {
    let mut program = vec![0u8; 0x102];
    program[0] = 0x23; // 0x200: call 0x300
    program[1] = 0x00;
    program[0x100] = 0x00; // 0x300: return
    program[0x101] = 0xEE;
    let mut machine = boot(&program);
    run(&mut machine, 1);
    assert_eq!(machine.program_counter(), 0x300);
    assert_eq!(machine.stack_pointer(), 1);
    run(&mut machine, 1);
    assert_eq!(machine.stack_pointer(), 0);
    // The call pushed its own address, and the return continues there.
    assert_eq!(machine.program_counter(), 0x200);
}

#[test]
fn return_on_empty_stack_is_a_fault() {
    let mut machine = boot(&[0x00, 0xEE]);
    assert_eq!(machine.pending_fault(), Some(Fault::StackUnderflow));
    assert_eq!(machine.step(), Err(Fault::StackUnderflow));
    assert_eq!(machine.program_counter(), 0x200);
    assert_eq!(machine.stack_pointer(), 0);
}

#[test]
fn sixteenth_nested_call_is_a_fault() {
    // 0x200: call 0x200, over and over
    let mut machine = boot(&[0x22, 0x00]);
    for depth in 1..=15u8 {
        assert_eq!(machine.step(), Ok(Instruction::Call { nnn: 0x200 }));
        assert_eq!(machine.stack_pointer(), depth);
        assert_eq!(machine.program_counter(), 0x200);
    }
    assert_eq!(machine.step(), Err(Fault::StackOverflow));
    assert_eq!(machine.stack_pointer(), 15);
}

#[test]
fn fetch_past_the_end_of_memory_is_a_fault() {
    let mut machine = boot(&[0x1F, 0xFF]);
    run(&mut machine, 1);
    assert_eq!(machine.program_counter(), 0xFFF);
    assert_eq!(machine.step(), Err(Fault::FetchOutOfRange));
    assert_eq!(machine.program_counter(), 0xFFF);

    // The last instruction that can be fetched lies at 0xFFE.
    let mut machine = boot(&[0x1F, 0xFE]);
    run(&mut machine, 2);
    assert_eq!(machine.program_counter(), 0x1000);
    assert_eq!(machine.step(), Err(Fault::FetchOutOfRange));
}

#[test]
fn unknown_opcode_only_advances() {
    let mut machine = boot(&[0x60, 0x07, 0x81, 0x0F, 0xE0, 0x00, 0xF0, 0xFF, 0x01, 0x23]);
    run(&mut machine, 5);
    assert_eq!(machine.program_counter(), 0x20A);
    assert_eq!(machine.register(0), 7);
    assert_eq!(machine.register(1), 0);
    assert_eq!(machine.index_register(), 0);
    assert_eq!(machine.stack_pointer(), 0);
    assert!(lit_pixels(&machine).is_empty());
}

#[test]
fn three_instruction_program_end_to_end() {
    let mut machine = boot(&[0x60, 0x05, 0x70, 0x03, 0x00, 0xE0]);
    run(&mut machine, 3);
    assert_eq!(machine.register(0), 8);
    assert!(lit_pixels(&machine).is_empty());
    assert_eq!(machine.program_counter(), START_ADDR + 6);
    assert!(machine.screen_buffer().iter().all(|&colour| colour == PIXEL_OFF));
}

#[test]
fn step_reports_the_executed_instruction() {
    let mut machine = boot(&[0x60, 0x05, 0xFF, 0xFF, 0x00, 0xE0]);
    assert_eq!(machine.step(), Ok(Instruction::LoadImm { x: 0, kk: 5 }));
    assert_eq!(machine.step(), Ok(Instruction::Unknown));
    assert_eq!(machine.step(), Ok(Instruction::ClearScreen));
    assert_eq!(machine.program_counter(), 0x206);
}

#[test]
fn run_cycle_matches_step() {
    let mut machine = boot(&[0x60, 0x05, 0x70, 0x03]);
    assert_eq!(machine.pending_fault(), None);
    machine.run_cycle();
    assert_eq!(machine.pending_fault(), None);
    machine.run_cycle();
    assert_eq!(machine.register(0), 8);
    assert_eq!(machine.program_counter(), 0x204);
}

#[test]
fn load_index_and_add_index() {
    let mut machine = boot(&[0xA1, 0x23, 0x60, 0x10, 0xF0, 0x1E]);
    run(&mut machine, 3);
    assert_eq!(machine.index_register(), 0x133);
    assert_eq!(machine.register(0xF), 0);
    assert_eq!(machine.program_counter(), 0x206);
}

#[test]
fn glyph_address_is_base_plus_five_per_digit() {
    for digit in 0..16u8 {
        let mut machine = boot(&[0x60, digit, 0xF0, 0x29]);
        run(&mut machine, 2);
        assert_eq!(machine.index_register(), 0x050 + 5 * digit as u16);
    }
    let mut machine = boot(&[0x60, 0xFF, 0xF0, 0x29]);
    run(&mut machine, 2);
    assert_eq!(machine.index_register(), 0x050 + 5 * 255);
}

#[test]
fn decimal_digits_are_stored_at_index() {
    let mut machine = boot(&[0x63, 254, 0xA3, 0x00, 0xF3, 0x33]);
    run(&mut machine, 3);
    assert_eq!(machine.memory_byte(0x300), 2);
    assert_eq!(machine.memory_byte(0x301), 5);
    assert_eq!(machine.memory_byte(0x302), 4);
    assert_eq!(machine.memory_byte(0x303), 0);
    assert_eq!(machine.index_register(), 0x300);

    let mut machine = boot(&[0x63, 7, 0xA3, 0x00, 0xF3, 0x33]);
    run(&mut machine, 3);
    assert_eq!(machine.memory_byte(0x300), 0);
    assert_eq!(machine.memory_byte(0x301), 0);
    assert_eq!(machine.memory_byte(0x302), 7);
}

#[test]
fn store_registers_is_inclusive() {
    let mut machine = boot(&[0x60, 11, 0x61, 22, 0x62, 33, 0x63, 44, 0xA3, 0x00, 0xF2, 0x55]);
    run(&mut machine, 6);
    assert_eq!(machine.memory_byte(0x300), 11);
    assert_eq!(machine.memory_byte(0x301), 22);
    assert_eq!(machine.memory_byte(0x302), 33);
    assert_eq!(machine.memory_byte(0x303), 0);
    assert_eq!(machine.index_register(), 0x300);
    assert_eq!(machine.program_counter(), 0x20C);
}

#[test]
fn load_registers_is_inclusive() {
    // Read the first glyph rows back into v0..v2; v3 keeps its value.
    let mut machine = boot(&[0x63, 99, 0xA0, 0x50, 0xF2, 0x65]);
    run(&mut machine, 3);
    assert_eq!(machine.register(0), 0xF0);
    assert_eq!(machine.register(1), 0x90);
    assert_eq!(machine.register(2), 0x90);
    assert_eq!(machine.register(3), 99);
    assert_eq!(machine.index_register(), 0x050);
}

#[test]
fn memory_instructions_fault_past_the_end() {
    // I = 0xFFE: the third digit would land on 0x1000.
    let mut machine = boot(&[0xAF, 0xFE, 0xF0, 0x33]);
    run(&mut machine, 1);
    assert_eq!(machine.step(), Err(Fault::MemoryOutOfRange));
    assert_eq!(machine.program_counter(), 0x202);
    assert_eq!(machine.memory_byte(0xFFE), 0);

    // I = 0xFFD is the last place with room for three digits.
    let mut machine = boot(&[0xAF, 0xFD, 0x60, 123, 0xF0, 0x33]);
    run(&mut machine, 3);
    assert_eq!(machine.memory_byte(0xFFD), 1);
    assert_eq!(machine.memory_byte(0xFFE), 2);
    assert_eq!(machine.memory_byte(0xFFF), 3);

    let mut machine = boot(&[0xAF, 0xFF, 0xF1, 0x55]);
    run(&mut machine, 1);
    assert_eq!(machine.step(), Err(Fault::MemoryOutOfRange));

    let mut machine = boot(&[0xAF, 0xFF, 0xF1, 0x65]);
    run(&mut machine, 1);
    assert_eq!(machine.step(), Err(Fault::MemoryOutOfRange));

    let mut machine = boot(&[0xAF, 0xFF, 0x60, 0x77, 0xF0, 0x55]);
    run(&mut machine, 3);
    assert_eq!(machine.memory_byte(0xFFF), 0x77);
}

#[test]
fn timers_are_set_read_and_ticked() {
    let mut machine = boot(&[0x60, 2, 0xF0, 0x15, 0x61, 1, 0xF1, 0x18, 0xF2, 0x07]);
    run(&mut machine, 5);
    assert_eq!(machine.delay_timer(), 2);
    assert_eq!(machine.sound_timer(), 1);
    assert_eq!(machine.register(2), 2);
    machine.tick_timers();
    assert_eq!(machine.delay_timer(), 1);
    assert_eq!(machine.sound_timer(), 0);
    machine.tick_timers();
    assert_eq!(machine.delay_timer(), 0);
    assert_eq!(machine.sound_timer(), 0);
    machine.tick_timers();
    assert_eq!(machine.delay_timer(), 0);
    assert_eq!(machine.sound_timer(), 0);
    assert_eq!(machine.program_counter(), 0x20A);
}

#[test]
fn stepping_does_not_tick_timers() {
    let mut machine = boot(&[0x60, 9, 0xF0, 0x15, 0x00, 0x00, 0x00, 0x00]);
    run(&mut machine, 4);
    assert_eq!(machine.delay_timer(), 9);
}

#[test]
fn skip_if_key_down_consumes_the_key() {
    let mut machine = boot(&[0x60, 0x0A, 0xE0, 0x9E]);
    machine.set_key(0xA, true);
    machine.set_key(0xB, true);
    run(&mut machine, 2);
    assert_eq!(machine.program_counter(), 0x206);
    assert!(!machine.key(0xA));
    assert!(machine.key(0xB));

    let mut machine = boot(&[0x60, 0x0A, 0xE0, 0x9E]);
    machine.set_key(0xB, true);
    run(&mut machine, 2);
    assert_eq!(machine.program_counter(), 0x204);
    assert!(machine.key(0xB));
}

#[test]
fn skip_if_key_up_leaves_keys_alone() {
    let mut machine = boot(&[0x60, 0x0A, 0xE0, 0xA1]);
    run(&mut machine, 2);
    assert_eq!(machine.program_counter(), 0x206);

    let mut machine = boot(&[0x60, 0x0A, 0xE0, 0xA1]);
    machine.set_key(0xA, true);
    run(&mut machine, 2);
    assert_eq!(machine.program_counter(), 0x204);
    assert!(machine.key(0xA));
}

#[test]
fn key_instruction_on_a_missing_key_is_a_fault() {
    let mut machine = boot(&[0x60, 16, 0xE0, 0x9E]);
    run(&mut machine, 1);
    assert_eq!(machine.step(), Err(Fault::KeyOutOfRange));
    assert_eq!(machine.program_counter(), 0x202);

    let mut machine = boot(&[0x60, 0xFF, 0xE0, 0xA1]);
    run(&mut machine, 1);
    assert_eq!(machine.step(), Err(Fault::KeyOutOfRange));
}

#[test]
fn wait_for_key_blocks_until_a_key_is_down() {
    let mut machine = boot(&[0xF3, 0x0A]);
    run(&mut machine, 3);
    assert_eq!(machine.program_counter(), 0x200);
    assert_eq!(machine.register(3), 0);

    machine.set_key(0xC, true);
    machine.set_key(0x5, true);
    run(&mut machine, 1);
    assert_eq!(machine.program_counter(), 0x202);
    assert_eq!(machine.register(3), 0x5);
    assert!(!machine.key(0x5));
    assert!(machine.key(0xC));
}

#[test]
fn set_key_can_release() {
    let mut machine = Chip8::new();
    machine.set_key(0, true);
    machine.set_key(15, true);
    assert!(machine.key(0));
    assert!(machine.key(15));
    machine.set_key(0, false);
    assert!(!machine.key(0));
    assert!(machine.key(15));
}

#[test]
fn draw_twice_collides_and_erases() {
    // v0 = 10, v1 = 5, I = glyph 0, draw five rows at (10, 5), twice.
    let mut machine = boot(&[0x60, 10, 0x61, 5, 0xA0, 0x50, 0xD0, 0x15, 0xD0, 0x15]);
    run(&mut machine, 4);
    assert_eq!(machine.register(0xF), 0);
    assert_eq!(
        lit_pixels(&machine),
        vec![
            (5, 10), (5, 11), (5, 12), (5, 13),
            (6, 10), (6, 13),
            (7, 10), (7, 13),
            (8, 10), (8, 13),
            (9, 10), (9, 11), (9, 12), (9, 13),
        ]
    );
    assert_eq!(machine.program_counter(), 0x208);
    run(&mut machine, 1);
    assert_eq!(machine.register(0xF), 1);
    assert!(lit_pixels(&machine).is_empty());
    assert_eq!(machine.program_counter(), 0x20A);
}

#[test]
fn draw_resets_a_stale_flag() {
    let mut machine = boot(&[0x6F, 1, 0xA0, 0x50, 0xD0, 0x01]);
    run(&mut machine, 3);
    assert_eq!(machine.register(0xF), 0);
    assert_eq!(lit_pixels(&machine), vec![(0, 0), (0, 1), (0, 2), (0, 3)]);
}

#[test]
fn draw_wraps_around_both_edges() {
    // v0 = 62, v1 = 31, glyph 0, two rows: 1111 on row 31 and 1001 below
    // it, which is row 0.
    let mut machine = boot(&[0x60, 62, 0x61, 31, 0xA0, 0x50, 0xD0, 0x12]);
    run(&mut machine, 4);
    assert_eq!(
        lit_pixels(&machine),
        vec![(0, 1), (0, 62), (31, 0), (31, 1), (31, 62), (31, 63)]
    );
    assert_eq!(machine.register(0xF), 0);
}

#[test]
fn draw_reduces_large_coordinates() {
    // column 70 is column 6, row 33 is row 1
    let mut machine = boot(&[0x60, 70, 0x61, 33, 0xA0, 0x50, 0xD0, 0x11]);
    run(&mut machine, 4);
    assert_eq!(lit_pixels(&machine), vec![(1, 6), (1, 7), (1, 8), (1, 9)]);
}

#[test]
fn draw_of_height_zero_draws_nothing() {
    let mut machine = boot(&[0x6F, 1, 0xAF, 0xFF, 0xD0, 0x00]);
    run(&mut machine, 3);
    assert!(lit_pixels(&machine).is_empty());
    assert_eq!(machine.register(0xF), 0);
    assert_eq!(machine.program_counter(), 0x206);
}

#[test]
fn draw_partial_overlap_flags_and_xors() {
    // Row 0 of glyph 0 (1111) at column 0, then at column 2: columns 2
    // and 3 go dark, 4 and 5 light up.
    let mut machine = boot(&[0xA0, 0x50, 0xD0, 0x01, 0x62, 2, 0xD2, 0x01]);
    run(&mut machine, 4);
    assert_eq!(machine.register(0xF), 1);
    assert_eq!(lit_pixels(&machine), vec![(0, 0), (0, 1), (0, 4), (0, 5)]);
}

#[test]
fn draw_past_the_end_of_memory_is_a_fault() {
    let mut machine = boot(&[0xAF, 0xFF, 0xD0, 0x02]);
    run(&mut machine, 1);
    assert_eq!(machine.step(), Err(Fault::MemoryOutOfRange));
    assert!(lit_pixels(&machine).is_empty());
    assert_eq!(machine.program_counter(), 0x202);

    let mut machine = boot(&[0xAF, 0xFF, 0xD0, 0x01]);
    run(&mut machine, 2);
    assert_eq!(machine.program_counter(), 0x204);
}

#[test]
fn clear_screen_unlights_everything() {
    let mut machine = boot(&[0xA0, 0x50, 0xD0, 0x05, 0x00, 0xE0]);
    run(&mut machine, 2);
    assert!(!lit_pixels(&machine).is_empty());
    run(&mut machine, 1);
    assert!(lit_pixels(&machine).is_empty());
    assert_eq!(machine.program_counter(), 0x206);
}

#[test]
fn screen_buffer_has_one_colour_per_pixel() {
    let mut machine = boot(&[0x60, 3, 0x61, 2, 0xA0, 0x50, 0xD0, 0x11]);
    run(&mut machine, 4);
    let buffer = machine.screen_buffer();
    assert_eq!(buffer.len(), SCREEN_SIZE);
    assert_eq!(SCREEN_SIZE, 64 * 32);
    assert_eq!(PIXEL_ON, 0x00FF00);
    assert_eq!(PIXEL_OFF, 0);
    for row in 0..32 {
        for col in 0..64 {
            let expected = if row == 2 && (3..7).contains(&col) { PIXEL_ON } else { PIXEL_OFF };
            assert_eq!(buffer[row * 64 + col], expected);
            assert_eq!(machine.pixel(row, col), expected == PIXEL_ON);
        }
    }
}

#[test]
fn execute_random_masks_the_given_byte() {
    let mut machine = Chip8::new();
    machine.execute(Instruction::Random { x: 4, kk: 0x3C }, 0xFF);
    assert_eq!(machine.register(4), 0x3C);
    machine.execute(Instruction::Random { x: 4, kk: 0xF0 }, 0xA5);
    assert_eq!(machine.register(4), 0xA0);
    assert_eq!(machine.program_counter(), 0x204);
}

#[test]
fn execute_runs_a_decoded_instruction() {
    let mut machine = Chip8::new();
    assert_eq!(machine.instruction_fault(Instruction::Return), Some(Fault::StackUnderflow));
    assert_eq!(machine.instruction_fault(Instruction::Call { nnn: 0x400 }), None);
    machine.execute(Instruction::Call { nnn: 0x400 }, 0);
    assert_eq!(machine.program_counter(), 0x400);
    assert_eq!(machine.stack_pointer(), 1);
    assert_eq!(machine.instruction_fault(Instruction::Return), None);
    machine.execute(Instruction::Return, 0);
    assert_eq!(machine.program_counter(), 0x200);
    assert_eq!(machine.stack_pointer(), 0);
}

#[test]
fn random_instruction_respects_the_mask() {
    let mut program = Vec::new();
    for _ in 0..64 {
        program.push(0xC0);
        program.push(0x0F);
    }
    let mut machine = boot(&program);
    for cycle in 0..64u16 {
        run(&mut machine, 1);
        assert_eq!(machine.register(0) & 0xF0, 0);
        assert_eq!(machine.program_counter(), 0x202 + 2 * cycle);
    }
}

#[test]
fn random_instruction_draws_varying_bytes() {
    let mut program = Vec::new();
    for _ in 0..256 {
        program.push(0xC0);
        program.push(0xFF);
    }
    let mut machine = boot(&program);
    let mut seen = Vec::new();
    for _ in 0..256 {
        run(&mut machine, 1);
        seen.push(machine.register(0));
    }
    assert!(seen.iter().any(|&byte| byte != seen[0]));
    assert!(seen.iter().any(|&byte| byte != 0));
    assert!(seen.iter().any(|&byte| byte != 255));
}
