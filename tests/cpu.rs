use chip8_emu::cpu::Cpu;
use chip8_emu::cpu_model::{CycleReport, Fault};
use chip8_emu::keypad::KeyEvent;
use chip8_emu::memory::MEMORY_SIZE;

const TICK: u64 = 16_666_667;

fn with_program(words: &[u16]) -> Cpu {
    let mut bytes = Vec::new();
    for w in words {
        bytes.push((w >> 8) as u8);
        bytes.push((w & 0xFF) as u8);
    }
    let mut cpu = Cpu::new();
    cpu.load_program(&bytes).unwrap();
    cpu
}

fn run(cpu: &mut Cpu, cycles: usize) {
    for _ in 0..cycles {
        cpu.emulate_cycle_at(0, 0).unwrap();
    }
}

fn memory_bytes(cpu: &Cpu) -> Vec<u8> {
    cpu.memory().get_data(0, MEMORY_SIZE).unwrap().to_vec()
}

#[test]
fn reset_state() {
    let cpu = Cpu::new();
    assert_eq!(cpu.program_counter(), 0x200);
    assert_eq!(cpu.index_register(), 0);
    assert_eq!(cpu.stack_pointer(), 0);
    assert!(!cpu.is_waiting_for_key());
    assert!(!cpu.draw_needed());
    for r in 0..16 {
        assert_eq!(cpu.register(r), 0);
    }
    assert!(cpu.get_pixel_data().iter().all(|&p| p == 0));
    // Glyph of digit 0 at 0x50, of digit F at 0x50 + 15 * 5.
    assert_eq!(cpu.memory().get_data(0x50, 5).unwrap(), &[0xF0, 0x90, 0x90, 0x90, 0xF0][..]);
    assert_eq!(cpu.memory().get_data(0x9B, 5).unwrap(), &[0xF0, 0x80, 0xF0, 0x80, 0x80][..]);
    assert_eq!(cpu.memory().get_u8(0x4F).unwrap(), 0);
    assert_eq!(cpu.memory().get_u8(0xA0).unwrap(), 0);
}

#[test]
fn program_too_large_is_rejected() {
    let mut cpu = Cpu::new();
    let big = vec![1u8; (MEMORY_SIZE - 0x200 + 1) as usize];
    assert!(cpu.load_program(&big).is_err());
    assert_eq!(cpu.memory().get_u8(0x200).unwrap(), 0);
    let fits = vec![1u8; (MEMORY_SIZE - 0x200) as usize];
    assert!(cpu.load_program(&fits).is_ok());
    assert_eq!(cpu.memory().get_u8(MEMORY_SIZE - 1).unwrap(), 1);
}

#[test]
fn clear_and_jump_loop_is_steady() {
    let mut cpu = with_program(&[0x00E0, 0x1200]);
    cpu.emulate_cycle_at(0, 0).unwrap();
    assert!(cpu.get_pixel_data().iter().all(|&p| p == 0));
    assert!(cpu.draw_needed());
    assert_eq!(cpu.program_counter(), 0x202);
    cpu.emulate_cycle_at(0, 0).unwrap();
    assert_eq!(cpu.program_counter(), 0x200);
    let memory = memory_bytes(&cpu);
    for _ in 0..50 {
        run(&mut cpu, 2);
        assert_eq!(cpu.program_counter(), 0x200);
        assert!(cpu.get_pixel_data().iter().all(|&p| p == 0));
        assert_eq!(memory_bytes(&cpu), memory);
        for r in 0..16 {
            assert_eq!(cpu.register(r), 0);
        }
        assert_eq!(cpu.stack_pointer(), 0);
    }
}

#[test]
fn register_dump_writes_only_its_span() {
    let mut cpu = with_program(&[0x6011, 0x6122, 0x6233, 0x6344, 0x6455, 0xA300, 0xF355]);
    run(&mut cpu, 6);
    let before = memory_bytes(&cpu);
    run(&mut cpu, 1);
    let after = memory_bytes(&cpu);
    assert_eq!(&after[0x300..0x304], &[0x11, 0x22, 0x33, 0x44][..]);
    for a in 0..MEMORY_SIZE as usize {
        if !(0x300..0x304).contains(&a) {
            assert_eq!(after[a], before[a], "address {:X}", a);
        }
    }
}

#[test]
fn register_load_reads_span() {
    let mut cpu = with_program(&[0x6977, 0xA208, 0xF265, 0x0000, 0x0102, 0x0304]);
    run(&mut cpu, 3);
    assert_eq!(cpu.register(0), 0x01);
    assert_eq!(cpu.register(1), 0x02);
    assert_eq!(cpu.register(2), 0x03);
    assert_eq!(cpu.register(3), 0x00);
    assert_eq!(cpu.register(9), 0x77);
}

#[test]
fn add_sets_carry() {
    let mut cpu = with_program(&[0x60F0, 0x6120, 0x8014, 0x6205, 0x6306, 0x8234]);
    run(&mut cpu, 3);
    assert_eq!(cpu.register(0), 0x10);
    assert_eq!(cpu.register(0xF), 1);
    run(&mut cpu, 3);
    assert_eq!(cpu.register(2), 11);
    assert_eq!(cpu.register(0xF), 0);
}

#[test]
fn add_exactly_255_has_no_carry() {
    let mut cpu = with_program(&[0x60FF, 0x6100, 0x8014]);
    run(&mut cpu, 3);
    assert_eq!(cpu.register(0), 0xFF);
    assert_eq!(cpu.register(0xF), 0);
}

#[test]
fn subtract_sets_no_borrow() {
    let mut cpu = with_program(&[0x6005, 0x6103, 0x8015, 0x6203, 0x6305, 0x8235, 0x6407, 0x6507, 0x8455]);
    run(&mut cpu, 3);
    assert_eq!(cpu.register(0), 2);
    assert_eq!(cpu.register(0xF), 1);
    run(&mut cpu, 3);
    assert_eq!(cpu.register(2), 254);
    assert_eq!(cpu.register(0xF), 0);
    run(&mut cpu, 3);
    assert_eq!(cpu.register(4), 0);
    assert_eq!(cpu.register(0xF), 1);
}

#[test]
fn subtract_opposite_order() {
    let mut cpu = with_program(&[0x6003, 0x6105, 0x8017]);
    run(&mut cpu, 3);
    assert_eq!(cpu.register(0), 2);
    assert_eq!(cpu.register(0xF), 1);
}

#[test]
fn flag_register_as_destination_keeps_result() {
    let mut cpu = with_program(&[0x6FF0, 0x6120, 0x8F14]);
    run(&mut cpu, 3);
    assert_eq!(cpu.register(0xF), 0x10);
}

#[test]
fn shifts_move_bit_into_flag() {
    let mut cpu = with_program(&[0x6081, 0x8006, 0x6181, 0x811E, 0x6240, 0x822E]);
    run(&mut cpu, 2);
    assert_eq!(cpu.register(0), 0x40);
    assert_eq!(cpu.register(0xF), 1);
    run(&mut cpu, 2);
    assert_eq!(cpu.register(1), 0x02);
    assert_eq!(cpu.register(0xF), 1);
    run(&mut cpu, 2);
    assert_eq!(cpu.register(2), 0x80);
    assert_eq!(cpu.register(0xF), 0);
}

#[test]
fn bitwise_and_immediate_ops() {
    let mut cpu = with_program(&[0x60F0, 0x610F, 0x8011, 0x62F0, 0x8212, 0x63FF, 0x8303, 0x7302, 0x74FF, 0x7402]);
    run(&mut cpu, 3);
    assert_eq!(cpu.register(0), 0xFF);
    run(&mut cpu, 2);
    assert_eq!(cpu.register(2), 0x00);
    run(&mut cpu, 2);
    assert_eq!(cpu.register(3), 0x00);
    run(&mut cpu, 1);
    assert_eq!(cpu.register(3), 0x02);
    run(&mut cpu, 2);
    assert_eq!(cpu.register(4), 0x01);
    assert_eq!(cpu.register(0xF), 0);
}

#[test]
fn conditional_skips() {
    // 3XNN taken, 4XNN not taken, 5XY0 taken, 9XY0 taken.
    let mut cpu = with_program(&[0x6005, 0x3005, 0x0000, 0x4005, 0x5000, 0x0000, 0x9010]);
    run(&mut cpu, 2);
    assert_eq!(cpu.program_counter(), 0x206);
    run(&mut cpu, 1);
    assert_eq!(cpu.program_counter(), 0x208);
    run(&mut cpu, 1);
    assert_eq!(cpu.program_counter(), 0x20C);
    run(&mut cpu, 1);
    assert_eq!(cpu.program_counter(), 0x210);
}

#[test]
fn call_and_return() {
    let mut cpu = with_program(&[0x2206, 0x6101, 0x1204, 0x6202, 0x00EE]);
    run(&mut cpu, 1);
    assert_eq!(cpu.program_counter(), 0x206);
    assert_eq!(cpu.stack_pointer(), 1);
    run(&mut cpu, 2);
    assert_eq!(cpu.program_counter(), 0x202);
    assert_eq!(cpu.stack_pointer(), 0);
    run(&mut cpu, 1);
    assert_eq!(cpu.register(1), 1);
    assert_eq!(cpu.register(2), 2);
}

#[test]
fn stack_underflow_is_fatal() {
    let mut cpu = with_program(&[0x00EE]);
    assert_eq!(cpu.emulate_cycle_at(0, 0), Err(Fault::StackUnderflow { address: 0x200 }));
    assert_eq!(cpu.program_counter(), 0x200);
}

#[test]
fn stack_overflow_is_fatal() {
    let mut cpu = with_program(&[0x2200]);
    run(&mut cpu, 16);
    assert_eq!(cpu.stack_pointer(), 16);
    assert_eq!(cpu.emulate_cycle_at(0, 0), Err(Fault::StackOverflow { address: 0x200 }));
}

#[test]
fn fetch_past_memory_is_fatal() {
    let mut cpu = with_program(&[0x1FFF]);
    run(&mut cpu, 1);
    assert_eq!(cpu.program_counter(), 0xFFF);
    assert_eq!(cpu.emulate_cycle_at(0, 0), Err(Fault::FetchOutOfBounds { address: 0xFFF }));
}

#[test]
fn digit_write_past_memory_is_fatal() {
    let mut cpu = with_program(&[0xAFFE, 0xF033]);
    run(&mut cpu, 1);
    assert_eq!(cpu.emulate_cycle_at(0, 0), Err(Fault::MemoryOutOfBounds { address: 0x202 }));
}

#[test]
fn sprite_read_past_memory_is_fatal() {
    let mut cpu = with_program(&[0xAFFE, 0xD013]);
    run(&mut cpu, 1);
    assert_eq!(cpu.emulate_cycle_at(0, 0), Err(Fault::MemoryOutOfBounds { address: 0x202 }));
}

#[test]
fn register_transfer_past_memory_is_fatal() {
    let mut cpu = with_program(&[0xAFFE, 0xF255, 0xF265]);
    run(&mut cpu, 1);
    assert_eq!(cpu.emulate_cycle_at(0, 0), Err(Fault::MemoryOutOfBounds { address: 0x202 }));
    let mut cpu = with_program(&[0xAFFE, 0xF155]);
    run(&mut cpu, 2);
}

#[test]
fn unknown_opcode_is_reported_and_skipped() {
    let mut cpu = with_program(&[0x5121]);
    let report = cpu.emulate_cycle_at(0, 0).unwrap();
    assert_eq!(report, CycleReport { unknown_opcode: Some(0x5121), beep: false });
    assert_eq!(cpu.program_counter(), 0x202);
}

#[test]
fn binary_coded_decimal() {
    let mut cpu = with_program(&[0x60FE, 0xA300, 0xF033]);
    run(&mut cpu, 3);
    assert_eq!(cpu.memory().get_data(0x300, 3).unwrap(), &[2, 5, 4][..]);
}

#[test]
fn index_register_wraps() {
    let mut cpu = with_program(&[0xAFFF, 0x6002, 0xF01E]);
    run(&mut cpu, 3);
    assert_eq!(cpu.index_register(), 0x001);
}

#[test]
fn jump_indirect_adds_v0() {
    let mut cpu = with_program(&[0x6004, 0xB300]);
    run(&mut cpu, 2);
    assert_eq!(cpu.program_counter(), 0x304);
}

#[test]
fn program_counter_wraps() {
    let mut cpu = with_program(&[0x60FF, 0xBFFF]);
    run(&mut cpu, 2);
    assert_eq!(cpu.program_counter(), (0xFFF + 0xFF) % 0x1000);
}

#[test]
fn random_is_masked() {
    let mut cpu = with_program(&[0xC00F]);
    cpu.emulate_cycle_at(0, 0xAB).unwrap();
    assert_eq!(cpu.register(0), 0x0B);
}

#[test]
fn random_draw_through_clock_entry_point() {
    let mut cpu = with_program(&[0xC000, 0xC1F0]);
    cpu.emulate_cycle().unwrap();
    cpu.emulate_cycle().unwrap();
    assert_eq!(cpu.register(0), 0);
    assert_eq!(cpu.register(1) & 0x0F, 0);
}

#[test]
fn draw_glyph_then_collide() {
    let mut cpu = with_program(&[0x6000, 0xF029, 0xD005, 0xD005]);
    run(&mut cpu, 3);
    assert_eq!(cpu.index_register(), 0x50);
    assert!(cpu.draw_needed());
    assert_eq!(cpu.register(0xF), 0);
    let pixels = cpu.get_pixel_data();
    assert_eq!(&pixels[0..5], &[1, 1, 1, 1, 0][..]);
    assert_eq!(&pixels[64..69], &[1, 0, 0, 1, 0][..]);
    run(&mut cpu, 1);
    assert_eq!(cpu.register(0xF), 1);
    assert!(cpu.get_pixel_data().iter().all(|&p| p == 0));
}

#[test]
fn glyph_address_of_digit() {
    let mut cpu = with_program(&[0x600A, 0xF029, 0x611A, 0xF129]);
    run(&mut cpu, 2);
    assert_eq!(cpu.index_register(), 0x50 + 10 * 5);
    run(&mut cpu, 2);
    assert_eq!(cpu.index_register(), 0x50 + 10 * 5);
}

#[test]
fn draw_flag_is_per_cycle() {
    let mut cpu = with_program(&[0x00E0, 0x6000]);
    run(&mut cpu, 1);
    assert!(cpu.draw_needed());
    run(&mut cpu, 1);
    assert!(!cpu.draw_needed());
}

#[test]
fn key_skips() {
    let mut cpu = with_program(&[0x6007, 0xE09E, 0xE0A1, 0x0000, 0xE09E]);
    run(&mut cpu, 2);
    assert_eq!(cpu.program_counter(), 0x204);
    run(&mut cpu, 1);
    assert_eq!(cpu.program_counter(), 0x208);
    cpu.handle_input(KeyEvent::Pressed(7));
    run(&mut cpu, 1);
    assert_eq!(cpu.program_counter(), 0x20C);
}

#[test]
fn key_wait_blocks_until_press() {
    let mut cpu = with_program(&[0xF30A, 0x6101]);
    run(&mut cpu, 1);
    assert!(cpu.is_waiting_for_key());
    run(&mut cpu, 5);
    assert_eq!(cpu.program_counter(), 0x202);
    assert_eq!(cpu.register(1), 0);
    cpu.handle_input(KeyEvent::Released(4));
    assert!(cpu.is_waiting_for_key());
    cpu.handle_input(KeyEvent::Pressed(0xB));
    assert!(!cpu.is_waiting_for_key());
    assert_eq!(cpu.register(3), 0xB);
    run(&mut cpu, 1);
    assert_eq!(cpu.register(1), 1);
}

#[test]
fn delay_timer_follows_the_clock() {
    // V0 = 10; delay = V0; then spin.
    let mut cpu = with_program(&[0x600A, 0xF015, 0x1204]);
    cpu.emulate_cycle_at(0, 0).unwrap();
    cpu.emulate_cycle_at(0, 0).unwrap();
    assert_eq!(cpu.delay_timer(), 10);
    for _ in 0..100 {
        cpu.emulate_cycle_at(TICK - 1, 0).unwrap();
    }
    assert_eq!(cpu.delay_timer(), 10);
    cpu.emulate_cycle_at(TICK, 0).unwrap();
    assert_eq!(cpu.delay_timer(), 9);
    for _ in 0..100 {
        cpu.emulate_cycle_at(TICK, 0).unwrap();
    }
    assert_eq!(cpu.delay_timer(), 9);
    let mut now = TICK;
    while cpu.delay_timer() > 0 {
        now += TICK;
        cpu.emulate_cycle_at(now, 0).unwrap();
    }
    assert!(now >= 10 * TICK);
    assert_eq!(now, 10 * TICK);
    cpu.emulate_cycle_at(now + 100 * TICK, 0).unwrap();
    assert_eq!(cpu.delay_timer(), 0);
}

#[test]
fn delay_timer_is_readable() {
    let mut cpu = with_program(&[0x6003, 0xF015, 0xF207]);
    run(&mut cpu, 3);
    assert_eq!(cpu.register(2), 3);
}

#[test]
fn sound_timer_beeps_once() {
    let mut cpu = with_program(&[0x6002, 0xF018, 0x1204]);
    run(&mut cpu, 2);
    assert_eq!(cpu.sound_timer(), 2);
    let r = cpu.emulate_cycle_at(TICK, 0).unwrap();
    assert!(!r.beep);
    assert_eq!(cpu.sound_timer(), 1);
    let r = cpu.emulate_cycle_at(TICK + 1, 0).unwrap();
    assert!(!r.beep);
    let r = cpu.emulate_cycle_at(2 * TICK, 0).unwrap();
    assert!(r.beep);
    assert_eq!(cpu.sound_timer(), 0);
    let r = cpu.emulate_cycle_at(10 * TICK, 0).unwrap();
    assert!(!r.beep);
}
