#![allow(non_snake_case)]

use chip8::{Cpu, CpuError, Disk, Step};

fn cpu_with_opcode(opcode: u16) -> Cpu {
    let mut cpu = Cpu::new();
    cpu.opcode = opcode;
    cpu
}

#[test]
fn fresh_engine_state() {
    let cpu = Cpu::new();
    assert_eq!(cpu.reg_pc, 0x200);
    for i in 0..16 {
        assert_eq!(cpu.reg_v[i], 0);
        assert_eq!(cpu.stack[i], 0);
        assert!(!cpu.keyboard[i]);
    }
    assert_eq!(cpu.ram[0], 0xF0);
    assert_eq!(cpu.reg_i, 0);
    assert_eq!(cpu.reg_sp, 0);
    assert_eq!(cpu.reg_delay_timer, 0);
    assert_eq!(cpu.reg_sound_timer, 0);
}

#[test]
fn load_keeps_font_and_places_rom() {
    let mut disk = Disk {
        rom: [0; 4095],
        size: 3,
    };
    disk.rom[0] = 0x42;
    disk.rom[1] = 0x42;
    disk.rom[2] = 0x42;
    let mut cpu = Cpu::new();
    assert_eq!(cpu.load_disk_to_ram(&disk), Ok(()));
    assert_eq!(&cpu.ram[0x200..0x203], &[0x42, 0x42, 0x42]);
    assert_eq!(cpu.ram[0], 0xF0);
}

#[test]
fn load_rejects_oversized_rom() {
    let disk = Disk {
        rom: [0; 4095],
        size: 3585,
    };
    let mut cpu = Cpu::new();
    assert_eq!(cpu.load_disk_to_ram(&disk), Err(CpuError::RomTooLarge));
    // Nothing was written.
    assert_eq!(cpu.ram[0x200], 0);
    // The largest legal image is accepted.
    let full = Disk {
        rom: [7; 4095],
        size: 3584,
    };
    assert_eq!(cpu.load_disk_to_ram(&full), Ok(()));
    assert_eq!(cpu.ram[0xFFF], 7);
    assert_eq!(cpu.ram[0x1FF], 0);
}

#[test]
fn add_wraps_modulo_256() {
    let mut cpu = cpu_with_opcode(0x7101);
    cpu.reg_v[1] = 0xFF;
    cpu.execute().unwrap();
    assert_eq!(cpu.reg_v[1], 0x00);
    // 0x7xkk never touches VF.
    assert_eq!(cpu.reg_v[0xF], 0);
}

#[test]
fn add_with_carry_flag() {
    // 0x8124 with Vx = 0xFF, Vy = 1 gives Vx = 0x00 and VF = 1.
    let mut cpu = cpu_with_opcode(0x8124);
    cpu.reg_v[1] = 0xFF;
    cpu.reg_v[2] = 1;
    cpu.execute().unwrap();
    assert_eq!(cpu.reg_v[1], 0x00);
    assert_eq!(cpu.reg_v[0xF], 1);

    // No carry when the sum stays below 256.
    let mut cpu = cpu_with_opcode(0x8124);
    cpu.reg_v[1] = 0x10;
    cpu.reg_v[2] = 0x20;
    cpu.reg_v[0xF] = 1;
    cpu.execute().unwrap();
    assert_eq!(cpu.reg_v[1], 0x30);
    assert_eq!(cpu.reg_v[0xF], 0);
}

#[test]
fn sub_sets_not_borrow_flag() {
    // Vx >= Vy: no borrow, VF = 1.
    let mut cpu = cpu_with_opcode(0x8125);
    cpu.reg_v[1] = 10;
    cpu.reg_v[2] = 4;
    cpu.execute().unwrap();
    assert_eq!(cpu.reg_v[1], 6);
    assert_eq!(cpu.reg_v[0xF], 1);

    // Vx < Vy: borrow, VF = 0, wrapping result.
    let mut cpu = cpu_with_opcode(0x8125);
    cpu.reg_v[1] = 4;
    cpu.reg_v[2] = 10;
    cpu.execute().unwrap();
    assert_eq!(cpu.reg_v[1], 250);
    assert_eq!(cpu.reg_v[0xF], 0);
}

#[test]
fn subn_sets_not_borrow_flag() {
    // Vy >= Vx: no borrow, VF = 1.
    let mut cpu = cpu_with_opcode(0x8127);
    cpu.reg_v[1] = 4;
    cpu.reg_v[2] = 10;
    cpu.execute().unwrap();
    assert_eq!(cpu.reg_v[1], 6);
    assert_eq!(cpu.reg_v[0xF], 1);

    // Vy < Vx: borrow, VF = 0.
    let mut cpu = cpu_with_opcode(0x8127);
    cpu.reg_v[1] = 10;
    cpu.reg_v[2] = 4;
    cpu.execute().unwrap();
    assert_eq!(cpu.reg_v[1], 250);
    assert_eq!(cpu.reg_v[0xF], 0);
}

#[test]
fn shift_right_keeps_lsb_in_flag() {
    let mut cpu = cpu_with_opcode(0x8106);
    cpu.reg_v[1] = 3;
    cpu.execute().unwrap();
    assert_eq!(cpu.reg_v[1], 1);
    assert_eq!(cpu.reg_v[0xF], 1);
}

#[test]
fn shift_left_keeps_msb_in_flag() {
    let mut cpu = cpu_with_opcode(0x810E);
    cpu.reg_v[1] = 0x81;
    cpu.execute().unwrap();
    assert_eq!(cpu.reg_v[1], 0x02);
    assert_eq!(cpu.reg_v[0xF], 1);
}

#[test]
fn skip_if_registers_differ() {
    let mut cpu = cpu_with_opcode(0x9120);
    cpu.reg_v[1] = 1;
    cpu.reg_v[2] = 1;
    cpu.execute().unwrap();
    assert_eq!(cpu.reg_pc, 0x200);
    cpu.reg_v[2] = 2;
    cpu.execute().unwrap();
    assert_eq!(cpu.reg_pc, 0x202);
}

#[test]
fn jump_sets_pc() {
    // Opcode 0x1123 sets PC to 0x123.
    let mut cpu = cpu_with_opcode(0x1123);
    cpu.execute().unwrap();
    assert_eq!(cpu.reg_pc, 0x123);
}

#[test]
fn jump_with_offset() {
    let mut cpu = cpu_with_opcode(0xB100);
    cpu.reg_v[0] = 5;
    cpu.execute().unwrap();
    assert_eq!(cpu.reg_pc, 0x105);
}

#[test]
fn random_masked_with_zero_is_zero() {
    // Vx = random & 0x00 must be 0 whatever the random source returned.
    let mut cpu = cpu_with_opcode(0xC100);
    cpu.reg_v[1] = 0xAA;
    cpu.execute().unwrap();
    assert_eq!(cpu.reg_v[1], 0);
    // With mask 0x0F only the low nibble can survive.
    let mut cpu = cpu_with_opcode(0xC10F);
    cpu.execute().unwrap();
    assert!(cpu.reg_v[1] <= 0x0F);
}

#[test]
fn index_register_and_font_address() {
    // Opcode 0xA123 sets I to 0x123.
    let mut cpu = cpu_with_opcode(0xA123);
    cpu.execute().unwrap();
    assert_eq!(cpu.reg_i, 0x123);
    // A following 0xF129 with Vx = 1 sets I to 5 (glyph base of digit 1).
    cpu.opcode = 0xF129;
    cpu.reg_v[1] = 1;
    cpu.execute().unwrap();
    assert_eq!(cpu.reg_i, 5);
}

#[test]
fn add_to_index() {
    let mut cpu = cpu_with_opcode(0xF11E);
    cpu.reg_i = 0x100;
    cpu.reg_v[1] = 0x22;
    cpu.execute().unwrap();
    assert_eq!(cpu.reg_i, 0x122);
}

#[test]
fn timers_read_and_write() {
    let mut cpu = cpu_with_opcode(0xF115);
    cpu.reg_v[1] = 42;
    cpu.execute().unwrap();
    assert_eq!(cpu.reg_delay_timer, 42);

    cpu.opcode = 0xF218;
    cpu.reg_v[2] = 7;
    cpu.execute().unwrap();
    assert_eq!(cpu.reg_sound_timer, 7);

    cpu.opcode = 0xF307;
    cpu.execute().unwrap();
    assert_eq!(cpu.reg_v[3], 42);
}

#[test]
fn skip_on_key_state() {
    let mut cpu = cpu_with_opcode(0xE19E);
    cpu.reg_v[1] = 4;
    cpu.execute().unwrap();
    assert_eq!(cpu.reg_pc, 0x200); // key 4 not pressed: no skip
    cpu.key_pressed(4);
    cpu.execute().unwrap();
    assert_eq!(cpu.reg_pc, 0x202); // pressed: skip

    let mut cpu = cpu_with_opcode(0xE1A1);
    cpu.reg_v[1] = 4;
    cpu.execute().unwrap();
    assert_eq!(cpu.reg_pc, 0x202); // not pressed: skip
    cpu.key_pressed(4);
    cpu.execute().unwrap();
    assert_eq!(cpu.reg_pc, 0x202); // pressed: no skip
}

#[test]
fn key_release_is_observed() {
    let mut cpu = cpu_with_opcode(0xE19E);
    cpu.reg_v[1] = 9;
    cpu.key_pressed(9);
    cpu.key_released(9);
    cpu.execute().unwrap();
    assert_eq!(cpu.reg_pc, 0x200); // released again: no skip
}

#[test]
fn wait_for_key_rewinds_pc() {
    let mut cpu = cpu_with_opcode(0xF10A);
    cpu.execute().unwrap();
    // No key pressed: the engine backs up to refetch this instruction.
    assert_eq!(cpu.reg_pc, 0x1FE);
}

#[test]
fn wait_for_key_highest_index_wins() {
    let mut cpu = cpu_with_opcode(0xF10A);
    cpu.key_pressed(3);
    cpu.key_pressed(7);
    cpu.execute().unwrap();
    assert_eq!(cpu.reg_v[1], 7);
    assert_eq!(cpu.reg_pc, 0x200);
}

#[test]
fn bcd_of_register() {
    let mut cpu = cpu_with_opcode(0xF133);
    cpu.reg_v[1] = 255;
    cpu.reg_i = 0x300;
    cpu.execute().unwrap();
    assert_eq!(cpu.ram[0x300], 2);
    assert_eq!(cpu.ram[0x301], 5);
    assert_eq!(cpu.ram[0x302], 5);
}

#[test]
fn store_and_reload_registers() {
    let mut cpu = cpu_with_opcode(0xF355);
    cpu.reg_v[0] = 10;
    cpu.reg_v[1] = 11;
    cpu.reg_v[2] = 12;
    cpu.reg_v[3] = 13;
    cpu.reg_v[4] = 99; // beyond x: untouched
    cpu.reg_i = 0x400;
    cpu.execute().unwrap();
    assert_eq!(&cpu.ram[0x400..0x404], &[10, 11, 12, 13]);
    assert_eq!(cpu.ram[0x404], 0);

    let mut cpu2 = cpu_with_opcode(0xF365);
    cpu2.ram[0x400] = 20;
    cpu2.ram[0x401] = 21;
    cpu2.ram[0x402] = 22;
    cpu2.ram[0x403] = 23;
    cpu2.reg_i = 0x400;
    cpu2.execute().unwrap();
    assert_eq!(cpu2.reg_v[0], 20);
    assert_eq!(cpu2.reg_v[1], 21);
    assert_eq!(cpu2.reg_v[2], 22);
    assert_eq!(cpu2.reg_v[3], 23);
    assert_eq!(cpu2.reg_v[4], 0);
}

#[test]
fn clear_screen_sets_dirty_flag() {
    let mut cpu = cpu_with_opcode(0x00E0);
    cpu.video_ram[5][6] = 1;
    cpu.video_ram_changed = false;
    cpu.execute().unwrap();
    for y in 0..32 {
        for x in 0..64 {
            assert_eq!(cpu.video_ram[y][x], 0);
        }
    }
    assert!(cpu.video_ram_changed);
}

#[test]
fn draw_xor_and_collision() {
    // Draw one row of the font glyph 0 (0xF0 = 11110000) at (0, 0).
    let mut cpu = cpu_with_opcode(0xD001);
    cpu.reg_i = 0;
    cpu.video_ram_changed = false;
    cpu.execute().unwrap();
    for x in 0..4 {
        assert_eq!(cpu.video_ram[0][x], 1);
    }
    for x in 4..8 {
        assert_eq!(cpu.video_ram[0][x], 0);
    }
    assert_eq!(cpu.reg_v[0xF], 0); // nothing was set before: no collision
    assert!(cpu.video_ram_changed);

    // Drawing the same sprite again erases it and reports the collision.
    cpu.opcode = 0xD001;
    cpu.execute().unwrap();
    for x in 0..8 {
        assert_eq!(cpu.video_ram[0][x], 0);
    }
    assert_eq!(cpu.reg_v[0xF], 1);
}

#[test]
fn draw_wraps_at_edges() {
    // One row drawn at (62, 31): bits spill over both edges.
    let mut cpu = cpu_with_opcode(0xD121);
    cpu.reg_v[1] = 62;
    cpu.reg_v[2] = 31;
    cpu.reg_i = 0x300;
    cpu.ram[0x300] = 0xFF;
    cpu.execute().unwrap();
    assert_eq!(cpu.video_ram[31][62], 1);
    assert_eq!(cpu.video_ram[31][63], 1);
    assert_eq!(cpu.video_ram[31][0], 1);
    assert_eq!(cpu.video_ram[31][5], 1);
    assert_eq!(cpu.video_ram[31][6], 0);
    assert_eq!(cpu.video_ram[0][0], 0);
}

#[test]
fn draw_zero_rows_is_a_no_op() {
    let mut cpu = cpu_with_opcode(0xD120);
    cpu.reg_v[1] = 10;
    cpu.reg_v[2] = 10;
    cpu.video_ram[10][10] = 1;
    cpu.video_ram_changed = false;
    cpu.execute().unwrap();
    assert_eq!(cpu.video_ram[10][10], 1);
    assert_eq!(cpu.reg_v[0xF], 0);
    assert!(!cpu.video_ram_changed);
}

#[test]
fn store_single_register() {
    let mut cpu = cpu_with_opcode(0xF055);
    cpu.reg_v[0] = 77;
    cpu.reg_i = 0x500;
    cpu.execute().unwrap();
    assert_eq!(cpu.ram[0x500], 77);
    assert_eq!(cpu.ram[0x501], 0);
}

#[test]
fn call_then_return_round_trip() {
    // 0x200: call 0x204; 0x204: return. PC ends where it stood right after
    // the call instruction, the word following the call.
    let mut disk = Disk {
        rom: [0; 4095],
        size: 6,
    };
    disk.rom[0] = 0x22;
    disk.rom[1] = 0x04;
    disk.rom[4] = 0x00;
    disk.rom[5] = 0xEE;
    let mut cpu = Cpu::new();
    cpu.load_disk_to_ram(&disk).unwrap();
    assert_eq!(cpu.next(), Ok(Step::Executed)); // the call
    assert_eq!(cpu.reg_pc, 0x204);
    assert_eq!(cpu.reg_sp, 1);
    assert_eq!(cpu.stack[0], 0x202);
    assert_eq!(cpu.next(), Ok(Step::Executed)); // the return
    assert_eq!(cpu.reg_pc, 0x202);
    assert_eq!(cpu.reg_sp, 0);
}

#[test]
fn full_cycle_fetch_execute_tick() {
    let mut disk = Disk {
        rom: [0; 4095],
        size: 2,
    };
    disk.rom[0] = 0x61;
    disk.rom[1] = 0xAB;
    let mut cpu = Cpu::new();
    cpu.load_disk_to_ram(&disk).unwrap();
    cpu.reg_delay_timer = 5;
    cpu.reg_sound_timer = 1;
    assert_eq!(cpu.next(), Ok(Step::Executed));
    assert_eq!(cpu.reg_v[1], 0xAB);
    assert_eq!(cpu.reg_pc, 0x202);
    assert_eq!(cpu.opcode, 0x61AB);
    assert_eq!(cpu.reg_delay_timer, 4);
    assert_eq!(cpu.reg_sound_timer, 0);
    // Timers floor at zero.
    assert_eq!(cpu.next(), Ok(Step::Ignored)); // 0x0000 is the legacy no-op form
    assert_eq!(cpu.reg_sound_timer, 0);
}

#[test]
fn unknown_opcode_is_reported_and_skipped() {
    let mut cpu = cpu_with_opcode(0x8FF8); // no such 8-group variant
    cpu.reg_v[0xF] = 3;
    assert_eq!(cpu.execute(), Ok(Step::Ignored));
    assert_eq!(cpu.reg_v[0xF], 3);
    let mut cpu = cpu_with_opcode(0x0123); // legacy machine call: no-op
    assert_eq!(cpu.execute(), Ok(Step::Ignored));
    assert_eq!(cpu.reg_pc, 0x200);
}

#[test]
fn stack_underflow_is_reported() {
    let mut cpu = cpu_with_opcode(0x00EE);
    assert_eq!(cpu.execute(), Err(CpuError::StackUnderflow));
    assert_eq!(cpu.reg_pc, 0x200);
    assert_eq!(cpu.reg_sp, 0);
}

#[test]
fn stack_overflow_is_reported() {
    let mut cpu = cpu_with_opcode(0x2123);
    for _ in 0..16 {
        assert_eq!(cpu.execute(), Ok(Step::Executed));
    }
    assert_eq!(cpu.reg_sp, 16);
    assert_eq!(cpu.execute(), Err(CpuError::StackOverflow));
    assert_eq!(cpu.reg_sp, 16);
}

#[test]
fn address_overflow_is_reported() {
    let mut cpu = Cpu::new();
    cpu.reg_pc = 0x1000;
    assert_eq!(cpu.next(), Err(CpuError::AddressOverflow));
    assert_eq!(cpu.reg_pc, 0x1000);
    // A fetch that would read one byte past the end is refused too.
    let mut cpu = Cpu::new();
    cpu.reg_pc = 0xFFF;
    assert_eq!(cpu.next(), Err(CpuError::AddressOverflow));
}

#[test]
fn disk_from_bytes_packs_and_checks() {
    let bytes = vec![1u8, 2, 3];
    let disk = Disk::from_bytes(&bytes).unwrap();
    assert_eq!(disk.size, 3);
    assert_eq!(&disk.rom[0..3], &[1, 2, 3]);
    assert_eq!(disk.rom[3], 0);

    let too_big = vec![0u8; 3585];
    match Disk::from_bytes(&too_big) {
        Err(e) => assert_eq!(e, CpuError::RomTooLarge),
        Ok(_) => panic!("an oversized image was accepted"),
    }
}
