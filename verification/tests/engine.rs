use chip8::font::FONT;
use chip8::instruction::Instruction;
use chip8::interpreter::{RomTooLarge, VM};
use chip8::pixel::Pixel;

const NO_KEYS: [bool; 16] = [false; 16];

fn machine(rom: &[u8]) -> VM {
    VM::new(700).load(rom).unwrap()
}

fn run(vm: &mut VM, instruction: Instruction) {
    assert!(vm.can_execute(instruction, &NO_KEYS));
    vm.execute_with(instruction, &NO_KEYS, 0);
}

fn lit_pixels(vm: &VM) -> Vec<(usize, usize)> {
    let d = vm.display();
    let mut lit = Vec::new();
    for r in 0..32 {
        for c in 0..64 {
            if d[r][c] == Pixel::White {
                lit.push((r, c));
            }
        }
    }
    lit
}

// test that nop does nothing
#[test]
fn test_nop() {
    let mut vm = VM::new(100);
    vm.execute(Instruction::Nop, &[false; 16]);

    let vm_2 = VM::new(100);
    assert_eq!(vm, vm_2);
}

#[test]
fn new_machine_holds_only_the_font() {
    let vm = VM::new(700);
    for a in 0..4096usize {
        let expected = if (0x50..0x50 + 80).contains(&a) { FONT[a - 0x50] } else { 0 };
        assert_eq!(vm.memory_at(a), expected);
    }
    assert_eq!(vm.memory_at(0x50), 0xF0);
    assert_eq!(vm.memory_at(0x50 + 79), 0x80);
    assert_eq!(vm.pc(), 0);
    assert_eq!(vm.index(), 0);
    assert_eq!(vm.stack_depth(), 0);
    assert_eq!(vm.delay_timer(), 0);
    assert_eq!(vm.sound_timer(), 0);
    assert_eq!(vm.speed(), 700);
    assert!(!vm.buzzer_active());
    for r in 0..16 {
        assert_eq!(vm.register(r), 0);
    }
    assert!(lit_pixels(&vm).is_empty());
}

#[test]
fn load_copies_to_0x200_and_starts_there() {
    let vm = machine(&[0xAA, 0xBB, 0xCC]);
    assert_eq!(vm.pc(), 0x200);
    assert_eq!(vm.memory_at(0x1FF), 0);
    assert_eq!(vm.memory_at(0x200), 0xAA);
    assert_eq!(vm.memory_at(0x201), 0xBB);
    assert_eq!(vm.memory_at(0x202), 0xCC);
    assert_eq!(vm.memory_at(0x203), 0);
    assert_eq!(vm.memory_at(0x50), 0xF0);
}

#[test]
fn load_takes_a_program_that_just_fits() {
    let rom = vec![0x5Au8; 3584];
    let vm = VM::new(700).load(&rom).unwrap();
    assert_eq!(vm.memory_at(0x200), 0x5A);
    assert_eq!(vm.memory_at(0xFFF), 0x5A);
    assert_eq!(vm.pc(), 0x200);
}

#[test]
fn load_refuses_a_program_that_does_not_fit() {
    let rom = vec![0u8; 3585];
    assert_eq!(VM::new(700).load(&rom).unwrap_err(), RomTooLarge { len: 3585 });
    let rom = vec![0u8; 5000];
    assert_eq!(VM::new(700).load(&rom).unwrap_err(), RomTooLarge { len: 5000 });
}

#[test]
fn load_of_nothing_only_sets_the_program_counter() {
    let vm = machine(&[]);
    assert_eq!(vm.pc(), 0x200);
    assert_eq!(vm.memory_at(0x200), 0);
}

#[test]
fn fetch_is_big_endian_and_advances() {
    let mut vm = machine(&[0x12, 0x34, 0xAB, 0xCD]);
    assert_eq!(vm.fetch(), 0x1234);
    assert_eq!(vm.pc(), 0x202);
    assert_eq!(vm.fetch(), 0xABCD);
    assert_eq!(vm.pc(), 0x204);
}

#[test]
fn program_counter_wraps_to_twelve_bits() {
    let mut vm = VM::new(700);
    run(&mut vm, Instruction::Jmp(0xFFE));
    vm.inc_pc();
    assert_eq!(vm.pc(), 0);
    run(&mut vm, Instruction::Jmp(0xFFF));
    vm.inc_pc();
    assert_eq!(vm.pc(), 1);
}

#[test]
fn jump_call_and_return() {
    let mut vm = machine(&[]);
    run(&mut vm, Instruction::Jmp(0x345));
    assert_eq!(vm.pc(), 0x345);
    run(&mut vm, Instruction::Call(0x456));
    assert_eq!(vm.pc(), 0x456);
    assert_eq!(vm.stack_depth(), 1);
    run(&mut vm, Instruction::Call(0x567));
    assert_eq!(vm.stack_depth(), 2);
    run(&mut vm, Instruction::Ret);
    assert_eq!(vm.pc(), 0x456);
    run(&mut vm, Instruction::Ret);
    assert_eq!(vm.pc(), 0x345);
    assert_eq!(vm.stack_depth(), 0);
}

#[test]
fn call_then_ret_round_trips() {
    for address in [0x000u16, 0x200, 0x7FF, 0xFFF] {
        let mut vm = machine(&[]);
        run(&mut vm, Instruction::Jmp(0x2A4));
        let before = vm.clone();
        run(&mut vm, Instruction::Call(address));
        assert_eq!(vm.pc(), address);
        run(&mut vm, Instruction::Ret);
        assert_eq!(vm.pc(), 0x2A4);
        assert_eq!(vm, before);
    }
}

#[test]
fn ret_on_empty_stack_goes_to_zero() {
    let mut vm = machine(&[]);
    run(&mut vm, Instruction::Ret);
    assert_eq!(vm.pc(), 0);
    assert_eq!(vm.stack_depth(), 0);
}

#[test]
fn skips_on_byte_comparison() {
    let mut vm = machine(&[]);
    run(&mut vm, Instruction::Setr(3, 0x42));
    run(&mut vm, Instruction::Ske(3, 0x42));
    assert_eq!(vm.pc(), 0x202);
    run(&mut vm, Instruction::Ske(3, 0x43));
    assert_eq!(vm.pc(), 0x202);
    run(&mut vm, Instruction::Skne(3, 0x43));
    assert_eq!(vm.pc(), 0x204);
    run(&mut vm, Instruction::Skne(3, 0x42));
    assert_eq!(vm.pc(), 0x204);
}

#[test]
fn skips_on_register_comparison() {
    let mut vm = machine(&[]);
    run(&mut vm, Instruction::Setr(1, 9));
    run(&mut vm, Instruction::Setr(2, 9));
    run(&mut vm, Instruction::Setr(3, 8));
    run(&mut vm, Instruction::Skre(1, 2));
    assert_eq!(vm.pc(), 0x202);
    run(&mut vm, Instruction::Skre(1, 3));
    assert_eq!(vm.pc(), 0x202);
    run(&mut vm, Instruction::Skrne(1, 3));
    assert_eq!(vm.pc(), 0x204);
    run(&mut vm, Instruction::Skrne(1, 2));
    assert_eq!(vm.pc(), 0x204);
}

#[test]
fn add_byte_wraps_without_flag() {
    let mut vm = VM::new(700);
    run(&mut vm, Instruction::Setr(0xF, 7));
    run(&mut vm, Instruction::Setr(4, 250));
    run(&mut vm, Instruction::Addr(4, 10));
    assert_eq!(vm.register(4), 4);
    assert_eq!(vm.register(0xF), 7);
}

#[test]
fn move_and_bitwise() {
    let mut vm = VM::new(700);
    run(&mut vm, Instruction::Setr(1, 0b1100));
    run(&mut vm, Instruction::Setr(2, 0b1010));
    run(&mut vm, Instruction::Move(3, 1));
    assert_eq!(vm.register(3), 0b1100);
    run(&mut vm, Instruction::Or(3, 2));
    assert_eq!(vm.register(3), 0b1110);
    run(&mut vm, Instruction::Move(4, 1));
    run(&mut vm, Instruction::And(4, 2));
    assert_eq!(vm.register(4), 0b1000);
    run(&mut vm, Instruction::Move(5, 1));
    run(&mut vm, Instruction::Xor(5, 2));
    assert_eq!(vm.register(5), 0b0110);
    assert_eq!(vm.register(0xF), 0);
}

#[test]
fn add_registers_sets_carry() {
    let mut vm = VM::new(700);
    run(&mut vm, Instruction::Setr(1, 200));
    run(&mut vm, Instruction::Setr(2, 100));
    run(&mut vm, Instruction::Add(1, 2));
    assert_eq!(vm.register(1), 44);
    assert_eq!(vm.register(0xF), 1);
    run(&mut vm, Instruction::Add(1, 2));
    assert_eq!(vm.register(1), 144);
    assert_eq!(vm.register(0xF), 0);
}

#[test]
fn add_into_vf_leaves_the_flag() {
    let mut vm = VM::new(700);
    run(&mut vm, Instruction::Setr(0xF, 200));
    run(&mut vm, Instruction::Setr(2, 100));
    run(&mut vm, Instruction::Add(0xF, 2));
    assert_eq!(vm.register(0xF), 1);
}

#[test]
fn sub_flags_underflow() {
    let mut vm = VM::new(700);
    run(&mut vm, Instruction::Setr(1, 5));
    run(&mut vm, Instruction::Setr(2, 7));
    run(&mut vm, Instruction::Sub(1, 2));
    assert_eq!(vm.register(1), 254);
    assert_eq!(vm.register(0xF), 1);
    run(&mut vm, Instruction::Setr(1, 7));
    run(&mut vm, Instruction::Setr(2, 5));
    run(&mut vm, Instruction::Sub(1, 2));
    assert_eq!(vm.register(1), 2);
    assert_eq!(vm.register(0xF), 0);
    run(&mut vm, Instruction::Sub(2, 2));
    assert_eq!(vm.register(2), 0);
    assert_eq!(vm.register(0xF), 0);
}

#[test]
fn reverse_sub_flags_underflow() {
    let mut vm = VM::new(700);
    run(&mut vm, Instruction::Setr(1, 7));
    run(&mut vm, Instruction::Setr(2, 5));
    run(&mut vm, Instruction::Ssub(1, 2));
    assert_eq!(vm.register(1), 254);
    assert_eq!(vm.register(0xF), 1);
    run(&mut vm, Instruction::Setr(1, 5));
    run(&mut vm, Instruction::Setr(2, 7));
    run(&mut vm, Instruction::Ssub(1, 2));
    assert_eq!(vm.register(1), 2);
    assert_eq!(vm.register(2), 7);
    assert_eq!(vm.register(0xF), 0);
}

#[test]
fn shift_right_ignores_vy() {
    let mut vm = VM::new(700);
    run(&mut vm, Instruction::Setr(1, 0b0000_0101));
    run(&mut vm, Instruction::Setr(2, 0b1111_0000));
    run(&mut vm, Instruction::Shr(1, 2));
    assert_eq!(vm.register(1), 0b0000_0010);
    assert_eq!(vm.register(2), 0b1111_0000);
    assert_eq!(vm.register(0xF), 1);
    run(&mut vm, Instruction::Shr(1, 2));
    assert_eq!(vm.register(1), 1);
    assert_eq!(vm.register(0xF), 0);
}

#[test]
fn shift_left_leaves_the_mask_in_vf() {
    let mut vm = VM::new(700);
    run(&mut vm, Instruction::Setr(1, 0b1100_0001));
    run(&mut vm, Instruction::Setr(2, 0xFF));
    run(&mut vm, Instruction::Shl(1, 2));
    assert_eq!(vm.register(1), 0b1000_0010);
    assert_eq!(vm.register(2), 0xFF);
    assert_eq!(vm.register(0xF), 0x80);
    run(&mut vm, Instruction::Setr(1, 0b0100_0001));
    run(&mut vm, Instruction::Shl(1, 2));
    assert_eq!(vm.register(1), 0b1000_0010);
    assert_eq!(vm.register(0xF), 0);
}

#[test]
fn shifts_of_vf_itself() {
    let mut vm = VM::new(700);
    run(&mut vm, Instruction::Setr(0xF, 0b0000_0011));
    run(&mut vm, Instruction::Shr(0xF, 0));
    assert_eq!(vm.register(0xF), 0);
    run(&mut vm, Instruction::Setr(0xF, 0b1000_0001));
    run(&mut vm, Instruction::Shl(0xF, 0));
    assert_eq!(vm.register(0xF), 0);
    run(&mut vm, Instruction::Setr(0xF, 0b0100_0001));
    run(&mut vm, Instruction::Shl(0xF, 0));
    assert_eq!(vm.register(0xF), 0);
}

#[test]
fn index_and_jump_with_offset() {
    let mut vm = VM::new(700);
    run(&mut vm, Instruction::Seti(0x123));
    assert_eq!(vm.index(), 0x123);
    run(&mut vm, Instruction::Setr(0, 0x10));
    run(&mut vm, Instruction::Jumpi(0x300));
    assert_eq!(vm.pc(), 0x310);
    run(&mut vm, Instruction::Setr(0, 0xFF));
    run(&mut vm, Instruction::Jumpi(0xFFF));
    assert_eq!(vm.pc(), 0x0FE);
}

#[test]
fn add_to_index_wraps_to_twelve_bits() {
    let mut vm = VM::new(700);
    run(&mut vm, Instruction::Seti(0xFFE));
    run(&mut vm, Instruction::Setr(3, 5));
    run(&mut vm, Instruction::Addi(3));
    assert_eq!(vm.index(), 3);
    run(&mut vm, Instruction::Addi(3));
    assert_eq!(vm.index(), 8);
    assert_eq!(vm.register(0xF), 0);
}

#[test]
fn glyph_address() {
    let mut vm = VM::new(700);
    run(&mut vm, Instruction::Setr(2, 0));
    run(&mut vm, Instruction::Ldfnt(2));
    assert_eq!(vm.index(), 0x50);
    run(&mut vm, Instruction::Setr(2, 0xA));
    run(&mut vm, Instruction::Ldfnt(2));
    assert_eq!(vm.index(), 0x50 + 50);
    assert_eq!(vm.memory_at(vm.index() as usize), 0xF0);
    assert_eq!(vm.memory_at(vm.index() as usize + 4), 0x90);
    run(&mut vm, Instruction::Setr(2, 255));
    run(&mut vm, Instruction::Ldfnt(2));
    assert_eq!(vm.index(), 0x50 + 1275);
}

#[test]
fn random_byte_is_masked() {
    let mut vm = VM::new(700);
    vm.execute_with(Instruction::Rand(1, 0x0F), &NO_KEYS, 0xAB);
    assert_eq!(vm.register(1), 0x0B);
    vm.execute_with(Instruction::Rand(1, 0xF0), &NO_KEYS, 0xAB);
    assert_eq!(vm.register(1), 0xA0);
    vm.execute_with(Instruction::Rand(1, 0xFF), &NO_KEYS, 0x5C);
    assert_eq!(vm.register(1), 0x5C);
}

#[test]
fn drawn_random_byte_stays_under_the_mask() {
    let mut vm = VM::new(700);
    for _ in 0..200 {
        vm.execute(Instruction::Rand(1, 0x0F), &NO_KEYS);
        assert_eq!(vm.register(1) & 0xF0, 0);
    }
    vm.execute(Instruction::Setr(1, 9), &NO_KEYS);
    vm.execute(Instruction::Rand(1, 0), &NO_KEYS);
    assert_eq!(vm.register(1), 0);
}

#[test]
fn timers_are_set_and_read() {
    let mut vm = VM::new(700);
    run(&mut vm, Instruction::Setr(1, 33));
    run(&mut vm, Instruction::Setrd(1));
    assert_eq!(vm.delay_timer(), 33);
    run(&mut vm, Instruction::Moved(2));
    assert_eq!(vm.register(2), 33);
    assert!(!vm.buzzer_active());
    run(&mut vm, Instruction::Setrs(1));
    assert_eq!(vm.sound_timer(), 33);
    assert!(vm.buzzer_active());
}

#[test]
fn bcd_of_157() {
    let mut vm = VM::new(700);
    run(&mut vm, Instruction::Setr(6, 157));
    run(&mut vm, Instruction::Seti(0x300));
    run(&mut vm, Instruction::Bcd(6));
    assert_eq!(
        [vm.memory_at(0x300), vm.memory_at(0x301), vm.memory_at(0x302)],
        [1, 5, 7]
    );
    assert_eq!(vm.memory_at(0x2FF), 0);
    assert_eq!(vm.memory_at(0x303), 0);
    assert_eq!(vm.index(), 0x300);
}

#[test]
fn bcd_edge_values() {
    let mut vm = VM::new(700);
    run(&mut vm, Instruction::Seti(0xFFD));
    for (value, digits) in [(0u8, [0u8, 0, 0]), (9, [0, 0, 9]), (40, [0, 4, 0]), (255, [2, 5, 5])] {
        run(&mut vm, Instruction::Setr(0, value));
        run(&mut vm, Instruction::Bcd(0));
        assert_eq!(
            [vm.memory_at(0xFFD), vm.memory_at(0xFFE), vm.memory_at(0xFFF)],
            digits
        );
    }
    run(&mut vm, Instruction::Seti(0xFFE));
    assert!(!vm.can_execute(Instruction::Bcd(0), &NO_KEYS));
}

#[test]
fn store_and_load_registers() {
    let mut vm = VM::new(700);
    for r in 0..16u8 {
        run(&mut vm, Instruction::Setr(r, 0x10 + r));
    }
    run(&mut vm, Instruction::Seti(0x400));
    run(&mut vm, Instruction::Store(3));
    for r in 0..4usize {
        assert_eq!(vm.memory_at(0x400 + r), 0x10 + r as u8);
    }
    assert_eq!(vm.memory_at(0x404), 0);
    assert_eq!(vm.index(), 0x400);
    for r in 0..16u8 {
        run(&mut vm, Instruction::Setr(r, 0));
    }
    run(&mut vm, Instruction::Load(2));
    assert_eq!(vm.register(0), 0x10);
    assert_eq!(vm.register(1), 0x11);
    assert_eq!(vm.register(2), 0x12);
    assert_eq!(vm.register(3), 0);
    run(&mut vm, Instruction::Seti(0xFF0));
    assert!(vm.can_execute(Instruction::Store(15), &NO_KEYS));
    run(&mut vm, Instruction::Seti(0xFF1));
    assert!(!vm.can_execute(Instruction::Store(15), &NO_KEYS));
    assert!(!vm.can_execute(Instruction::Load(15), &NO_KEYS));
    assert!(vm.can_execute(Instruction::Load(14), &NO_KEYS));
}

#[test]
fn key_skips() {
    let mut keys = [false; 16];
    keys[0xA] = true;
    let mut vm = machine(&[]);
    vm.execute_with(Instruction::Setr(1, 0xA), &keys, 0);
    vm.execute_with(Instruction::Setr(2, 0xB), &keys, 0);
    vm.execute_with(Instruction::Skp(1), &keys, 0);
    assert_eq!(vm.pc(), 0x202);
    vm.execute_with(Instruction::Skp(2), &keys, 0);
    assert_eq!(vm.pc(), 0x202);
    vm.execute_with(Instruction::Sknp(2), &keys, 0);
    assert_eq!(vm.pc(), 0x204);
    vm.execute_with(Instruction::Sknp(1), &keys, 0);
    assert_eq!(vm.pc(), 0x204);
    vm.execute_with(Instruction::Setr(3, 16), &keys, 0);
    assert!(!vm.can_execute(Instruction::Skp(3), &keys));
    assert!(!vm.can_execute(Instruction::Sknp(3), &keys));
}

#[test]
fn wait_for_key_repeats_until_a_key_is_down() {
    // F50A at 0x200
    let mut vm = machine(&[0xF5, 0x0A]);
    vm.execute_with(Instruction::Setr(5, 0x77), &NO_KEYS, 0);
    for _ in 0..5 {
        assert!(vm.can_step(&NO_KEYS));
        assert_eq!(vm.step(&NO_KEYS), None);
        assert_eq!(vm.pc(), 0x200);
        assert_eq!(vm.register(5), 0x77);
    }
    let mut keys = [false; 16];
    keys[3] = true;
    keys[7] = true;
    assert!(vm.can_step(&keys));
    assert_eq!(vm.step(&keys), None);
    assert_eq!(vm.register(5), 3);
    assert_eq!(vm.pc(), 0x202);
}

#[test]
fn wait_for_key_takes_the_lowest() {
    for lowest in 0..16usize {
        let mut keys = [false; 16];
        for k in lowest..16 {
            keys[k] = k % 2 == lowest % 2;
        }
        let mut vm = machine(&[]);
        vm.execute_with(Instruction::Key(0), &keys, 0);
        assert_eq!(vm.register(0), lowest as u8);
        assert_eq!(vm.pc(), 0x200);
    }
}

#[test]
fn wait_for_key_goes_back_round_the_start() {
    let mut vm = VM::new(700);
    assert_eq!(vm.pc(), 0);
    assert!(vm.can_execute(Instruction::Key(0), &NO_KEYS));
    vm.execute(Instruction::Key(0), &NO_KEYS);
    assert_eq!(vm.pc(), 0xFFE);
    assert_eq!(vm.register(0), 0);
    run(&mut vm, Instruction::Jmp(1));
    vm.execute(Instruction::Key(0), &NO_KEYS);
    assert_eq!(vm.pc(), 0xFFF);
    run(&mut vm, Instruction::Jmp(2));
    vm.execute(Instruction::Key(0), &NO_KEYS);
    assert_eq!(vm.pc(), 0);
    let mut keys = [false; 16];
    keys[15] = true;
    vm.execute_with(Instruction::Key(0), &keys, 0);
    assert_eq!(vm.register(0), 15);
    assert_eq!(vm.pc(), 0);
}

#[test]
fn wait_for_key_at_the_end_of_memory() {
    // F40A in the last two bytes, 0xFFE and 0xFFF
    let mut rom = vec![0u8; 3584];
    rom[3582] = 0xF4;
    rom[3583] = 0x0A;
    let mut vm = VM::new(60).load(&rom).unwrap();
    run(&mut vm, Instruction::Setr(0, 9));
    run(&mut vm, Instruction::Setrd(0));
    run(&mut vm, Instruction::Jmp(0xFFE));
    for waited in 1..=4u8 {
        assert!(vm.can_step(&NO_KEYS));
        assert_eq!(vm.step(&NO_KEYS), None);
        assert_eq!(vm.pc(), 0xFFE);
        assert_eq!(vm.register(4), 0);
        assert_eq!(vm.delay_timer(), 9 - waited);
    }
    let mut keys = [false; 16];
    keys[3] = true;
    keys[7] = true;
    assert_eq!(vm.step(&keys), None);
    assert_eq!(vm.register(4), 3);
    assert_eq!(vm.pc(), 0);
}

#[test]
fn fetch_wraps_at_the_end_of_memory() {
    // 0x12 in the last byte, 0x34 put at address 0 through the index register
    let mut rom = vec![0u8; 3584];
    rom[3583] = 0x12;
    let mut vm = VM::new(700).load(&rom).unwrap();
    run(&mut vm, Instruction::Setr(0, 0x34));
    run(&mut vm, Instruction::Seti(0));
    run(&mut vm, Instruction::Store(0));
    assert_eq!(vm.memory_at(0), 0x34);
    run(&mut vm, Instruction::Jmp(0xFFF));
    assert_eq!(vm.fetch(), 0x1234);
    assert_eq!(vm.pc(), 1);
    run(&mut vm, Instruction::Jmp(0xFFE));
    assert_eq!(vm.fetch(), 0x0012);
    assert_eq!(vm.pc(), 0);
}

#[test]
fn step_over_an_opcode_at_the_last_byte() {
    // 00E0 with its first byte at 0xFFF and its second at 0x000
    let mut vm = VM::new(700);
    run(&mut vm, Instruction::Setr(0, 0xE0));
    run(&mut vm, Instruction::Seti(0));
    run(&mut vm, Instruction::Store(0));
    run(&mut vm, Instruction::Jmp(0xFFF));
    assert!(vm.can_step(&NO_KEYS));
    assert_eq!(vm.step(&NO_KEYS), Some([[Pixel::Black; 64]; 32]));
    assert_eq!(vm.pc(), 1);
}

#[test]
fn timers_decay_every_step_at_60_hz() {
    // 1200: jump to self
    let mut vm = VM::new(60).load(&[0x12, 0x00]).unwrap();
    run(&mut vm, Instruction::Setr(0, 3));
    run(&mut vm, Instruction::Setrd(0));
    run(&mut vm, Instruction::Setr(0, 2));
    run(&mut vm, Instruction::Setrs(0));
    let mut seen = Vec::new();
    for _ in 0..5 {
        assert_eq!(vm.step(&NO_KEYS), None);
        seen.push((vm.delay_timer(), vm.sound_timer(), vm.buzzer_active()));
    }
    assert_eq!(
        seen,
        vec![(2, 1, true), (1, 0, false), (0, 0, false), (0, 0, false), (0, 0, false)]
    );
}

#[test]
fn timers_decay_every_tenth_step_at_600_hz() {
    let mut vm = VM::new(600).load(&[0x12, 0x00]).unwrap();
    run(&mut vm, Instruction::Setr(0, 5));
    run(&mut vm, Instruction::Setrd(0));
    for step in 1..=35u32 {
        vm.step(&NO_KEYS);
        assert_eq!(vm.delay_timer() as u32, 5 - step / 10);
    }
}

#[test]
fn instructions_per_decay_round_to_nearest() {
    // speed, steps until the first decay
    for (speed, period) in [(60u32, 1u32), (89, 1), (90, 2), (700, 12), (30, 1), (149, 2), (150, 3)] {
        let mut vm = VM::new(speed).load(&[0x12, 0x00]).unwrap();
        run(&mut vm, Instruction::Setr(0, 9));
        run(&mut vm, Instruction::Setrd(0));
        for _ in 1..period {
            vm.step(&NO_KEYS);
            assert_eq!(vm.delay_timer(), 9);
        }
        vm.step(&NO_KEYS);
        assert_eq!(vm.delay_timer(), 8);
    }
}

#[test]
fn below_30_hz_the_timers_stand_still() {
    let mut vm = VM::new(29).load(&[0x12, 0x00]).unwrap();
    run(&mut vm, Instruction::Setr(0, 9));
    run(&mut vm, Instruction::Setrd(0));
    for _ in 0..500 {
        vm.step(&NO_KEYS);
    }
    assert_eq!(vm.delay_timer(), 9);
}

#[test]
fn nop_step_only_advances() {
    let mut vm = machine(&[0x01, 0x23]);
    let before = vm.clone();
    assert_eq!(vm.step(&NO_KEYS), None);
    assert_eq!(vm.pc(), 0x202);
    for r in 0..16 {
        assert_eq!(vm.register(r), before.register(r));
    }
    for a in 0..4096 {
        assert_eq!(vm.memory_at(a), before.memory_at(a));
    }
    assert_eq!(vm.display(), before.display());
    assert_eq!(vm.index(), before.index());
    assert_eq!(vm.stack_depth(), 0);
}

#[test]
fn cls_then_jump_to_self() {
    // CLS at 0x200, then a jump to its own address 0x202
    let mut vm = machine(&[0x00, 0xE0, 0x12, 0x02]);
    let update = vm.step(&NO_KEYS);
    assert_eq!(update, Some([[Pixel::Black; 64]; 32]));
    assert_eq!(vm.pc(), 0x202);
    for _ in 0..50 {
        assert!(vm.can_step(&NO_KEYS));
        assert_eq!(vm.step(&NO_KEYS), None);
        assert_eq!(vm.pc(), 0x202);
    }
}

#[test]
fn cls_then_jump_to_start() {
    // CLS at 0x200, then a jump back to 0x200: the display is cleared, and
    // handed out, at every second step
    let mut vm = machine(&[0x00, 0xE0, 0x12, 0x00]);
    let update = vm.step(&NO_KEYS);
    assert_eq!(update, Some([[Pixel::Black; 64]; 32]));
    assert_eq!(vm.pc(), 0x202);
    for _ in 0..25 {
        assert!(vm.can_step(&NO_KEYS));
        assert_eq!(vm.step(&NO_KEYS), None);
        assert_eq!(vm.pc(), 0x200);
        assert!(vm.can_step(&NO_KEYS));
        assert_eq!(vm.step(&NO_KEYS), Some([[Pixel::Black; 64]; 32]));
        assert_eq!(vm.pc(), 0x202);
    }
}

#[test]
fn cls_clears_what_was_drawn() {
    let mut vm = machine(&[0xFF]);
    run(&mut vm, Instruction::Seti(0x200));
    vm.execute_with(Instruction::Draw(0, 0, 1), &NO_KEYS, 0);
    assert_eq!(lit_pixels(&vm).len(), 8);
    let update = vm.execute_with(Instruction::Cls, &NO_KEYS, 0);
    assert_eq!(update, Some([[Pixel::Black; 64]; 32]));
    assert!(lit_pixels(&vm).is_empty());
}

#[test]
fn draw_twice_collides_the_second_time() {
    let mut vm = machine(&[0xFF]);
    run(&mut vm, Instruction::Seti(0x200));
    run(&mut vm, Instruction::Setr(0xF, 9));
    let first = vm.execute_with(Instruction::Draw(0, 0, 1), &NO_KEYS, 0);
    assert_eq!(vm.register(0xF), 0);
    let lit: Vec<(usize, usize)> = (0..8).map(|c| (0, c)).collect();
    assert_eq!(lit_pixels(&vm), lit);
    assert_eq!(first, Some(vm.display()));
    let second = vm.execute_with(Instruction::Draw(0, 0, 1), &NO_KEYS, 0);
    assert_eq!(vm.register(0xF), 1);
    assert!(lit_pixels(&vm).is_empty());
    assert_eq!(second, Some([[Pixel::Black; 64]; 32]));
}

#[test]
fn draw_hands_out_the_display_even_when_nothing_changes() {
    let mut vm = machine(&[0x00]);
    run(&mut vm, Instruction::Seti(0x200));
    let update = vm.execute_with(Instruction::Draw(0, 0, 1), &NO_KEYS, 0);
    assert_eq!(update, Some([[Pixel::Black; 64]; 32]));
    let update = vm.execute_with(Instruction::Draw(0, 0, 0), &NO_KEYS, 0);
    assert_eq!(update, Some([[Pixel::Black; 64]; 32]));
    assert_eq!(vm.register(0xF), 0);
}

#[test]
fn draw_clips_at_the_right_edge() {
    let mut vm = machine(&[0xFF, 0xFF]);
    run(&mut vm, Instruction::Seti(0x200));
    run(&mut vm, Instruction::Setr(1, 60));
    run(&mut vm, Instruction::Setr(2, 5));
    vm.execute_with(Instruction::Draw(1, 2, 2), &NO_KEYS, 0);
    let expected: Vec<(usize, usize)> =
        vec![(5, 60), (5, 61), (5, 62), (5, 63), (6, 60), (6, 61), (6, 62), (6, 63)];
    assert_eq!(lit_pixels(&vm), expected);
    let d = vm.display();
    for r in 0..32 {
        for c in 0..4 {
            assert_eq!(d[r][c], Pixel::Black);
        }
    }
    assert_eq!(vm.register(0xF), 0);
}

#[test]
fn draw_clips_at_the_bottom_edge() {
    let mut vm = machine(&[0x80, 0x80, 0x80, 0x80]);
    run(&mut vm, Instruction::Seti(0x200));
    run(&mut vm, Instruction::Setr(1, 10));
    run(&mut vm, Instruction::Setr(2, 30));
    vm.execute_with(Instruction::Draw(1, 2, 4), &NO_KEYS, 0);
    assert_eq!(lit_pixels(&vm), vec![(30, 10), (31, 10)]);
}

#[test]
fn draw_takes_the_start_modulo_the_display() {
    let mut vm = machine(&[0xC0]);
    run(&mut vm, Instruction::Seti(0x200));
    run(&mut vm, Instruction::Setr(1, 64 + 3));
    run(&mut vm, Instruction::Setr(2, 32 * 3 + 4));
    vm.execute_with(Instruction::Draw(1, 2, 1), &NO_KEYS, 0);
    assert_eq!(lit_pixels(&vm), vec![(4, 3), (4, 4)]);
}

#[test]
fn draw_is_exclusive_or_with_sticky_collision() {
    // rows: 1111_0000 then 0000_1111 over it, shifted so that they overlap in two columns
    let mut vm = machine(&[0xF0, 0x3C, 0xFF]);
    run(&mut vm, Instruction::Seti(0x200));
    vm.execute_with(Instruction::Draw(0, 0, 1), &NO_KEYS, 0);
    assert_eq!(lit_pixels(&vm), vec![(0, 0), (0, 1), (0, 2), (0, 3)]);
    run(&mut vm, Instruction::Seti(0x201));
    // 0011_1100 at column 0: hits columns 2 and 3, then sets 4 and 5
    vm.execute_with(Instruction::Draw(0, 0, 2), &NO_KEYS, 0);
    assert_eq!(vm.register(0xF), 1);
    let mut expected = vec![(0, 0), (0, 1), (0, 4), (0, 5)];
    expected.extend((0..8).map(|c| (1, c)));
    assert_eq!(lit_pixels(&vm), expected);
}

#[test]
fn draw_a_glyph() {
    let mut vm = VM::new(700);
    run(&mut vm, Instruction::Setr(0, 1));
    run(&mut vm, Instruction::Ldfnt(0));
    run(&mut vm, Instruction::Setr(1, 8));
    run(&mut vm, Instruction::Setr(2, 2));
    vm.execute_with(Instruction::Draw(1, 2, 5), &NO_KEYS, 0);
    // glyph 1: 0x20 0x60 0x20 0x20 0x70
    let expected = vec![(2, 10), (3, 9), (3, 10), (4, 10), (5, 10), (6, 9), (6, 10), (6, 11)];
    assert_eq!(lit_pixels(&vm), expected);
}

#[test]
fn draw_needs_its_sprite_within_memory() {
    let mut vm = VM::new(700);
    run(&mut vm, Instruction::Seti(0xFFF));
    assert!(vm.can_execute(Instruction::Draw(0, 0, 1), &NO_KEYS));
    assert!(!vm.can_execute(Instruction::Draw(0, 0, 2), &NO_KEYS));
    assert!(vm.can_execute(Instruction::Draw(0, 0, 0), &NO_KEYS));
}

#[test]
fn can_step_refuses_what_would_abort() {
    // unassigned opcode
    let vm = machine(&[0x51, 0x21]);
    assert!(!vm.can_step(&NO_KEYS));
    // a key that does not exist: V1 = 16, then skip if key V1 is down
    let mut vm = machine(&[0x61, 0x10, 0xE1, 0x9E]);
    assert!(vm.can_step(&NO_KEYS));
    vm.step(&NO_KEYS);
    assert!(!vm.can_step(&NO_KEYS));
    // a sprite that reaches beyond memory: I = 0xFFF, then draw two rows
    let mut vm = machine(&[0xAF, 0xFF, 0xD0, 0x02]);
    vm.step(&NO_KEYS);
    assert!(!vm.can_step(&NO_KEYS));
    // operands out of range
    assert!(!vm.can_execute(Instruction::Setr(16, 0), &NO_KEYS));
    assert!(!vm.can_execute(Instruction::Jmp(0x1000), &NO_KEYS));
}

#[test]
fn every_address_can_hold_the_next_opcode() {
    let mut vm = VM::new(700);
    for address in [0x000u16, 0x001, 0x1FF, 0xFFE, 0xFFF] {
        run(&mut vm, Instruction::Jmp(address));
        assert!(vm.can_step(&NO_KEYS));
        assert_eq!(vm.step(&NO_KEYS), None);
        assert_eq!(vm.pc(), (address + 2) & 0xFFF);
    }
}

#[test]
fn a_small_program() {
    // V0 = 5; V1 = 7; V0 += V1; I = 0x300; BCD V0; loop
    let rom = [0x60, 0x05, 0x61, 0x07, 0x80, 0x14, 0xA3, 0x00, 0xF0, 0x33, 0x12, 0x0A];
    let mut vm = machine(&rom);
    for _ in 0..8 {
        assert!(vm.can_step(&NO_KEYS));
        assert_eq!(vm.step(&NO_KEYS), None);
    }
    assert_eq!(vm.register(0), 12);
    assert_eq!(vm.register(1), 7);
    assert_eq!(vm.register(0xF), 0);
    assert_eq!(vm.index(), 0x300);
    assert_eq!(
        [vm.memory_at(0x300), vm.memory_at(0x301), vm.memory_at(0x302)],
        [0, 1, 2]
    );
    assert_eq!(vm.pc(), 0x20A);
}
