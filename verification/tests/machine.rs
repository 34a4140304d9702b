use chip_8::opcode::{DataRegister, Kk, Nnn, Opcode, N};
use chip_8::vm::cpu::{execute_with, wrap_pc, Parts};
use chip_8::vm::frame_buffer::{FrameBuffer, OFF, ON};
use chip_8::vm::memory::{Memory, MEMORY_LENGTH};
use chip_8::vm::{Key, Vm, HEIGHT, WIDTH};

#[test]
fn test_wrap_pc() {
    let memory_length: u16 = MEMORY_LENGTH as u16;

    assert_eq!(wrap_pc(0), 0);
    assert_eq!(wrap_pc(42), 42);
    // Any value is reduced modulo the memory length.
    assert_eq!(wrap_pc(memory_length), 0);
    assert_eq!(wrap_pc(memory_length + 1), 1);
    assert_eq!(wrap_pc(memory_length + 2), 2);

    let memory = Memory::new();

    // No panics
    memory.read(wrap_pc(0));
    memory.read(wrap_pc(42));
    memory.read(wrap_pc(memory_length));
    memory.read(wrap_pc(memory_length + 1));
    memory.read(wrap_pc(memory_length + 2));
}

#[test]
fn test_parts() {
    let parts = Parts::from(123);
    assert_eq!(parts.hundreds, 1);
    assert_eq!(parts.tens, 2);
    assert_eq!(parts.ones, 3);
}

#[test]
fn test_add_with_carry() {
    let mut vm = Vm::new();
    vm.registers.write(DataRegister::V0, 250);
    vm.registers.write(DataRegister::V1, 10);
    vm.execute(Opcode::ADD8(DataRegister::V0, DataRegister::V1))
        .unwrap();
    assert_eq!(vm.registers.read(DataRegister::V0), 4);
    assert_eq!(vm.registers.read(DataRegister::VF), 1);
    assert_eq!(vm.pc, 0x202);
}

#[test]
fn test_add_without_carry() {
    let mut vm = Vm::new();
    vm.registers.write(DataRegister::V0, 10);
    vm.registers.write(DataRegister::V1, 20);
    vm.execute(Opcode::ADD8(DataRegister::V0, DataRegister::V1))
        .unwrap();
    assert_eq!(vm.registers.read(DataRegister::V0), 30);
    assert_eq!(vm.registers.read(DataRegister::VF), 0);
}

#[test]
fn test_add_immediate_wraps_without_flag() {
    let mut vm = Vm::new();
    vm.registers.write(DataRegister::V0, 250);
    vm.registers.write(DataRegister::VF, 9);
    vm.execute(Opcode::ADD(DataRegister::V0, Kk(10))).unwrap();
    assert_eq!(vm.registers.read(DataRegister::V0), 4);
    // The immediate add has no flag effect.
    assert_eq!(vm.registers.read(DataRegister::VF), 9);
}

#[test]
fn test_subtract_with_borrow() {
    let mut vm = Vm::new();
    vm.registers.write(DataRegister::V0, 5);
    vm.registers.write(DataRegister::V1, 10);
    vm.execute(Opcode::SUB8(DataRegister::V0, DataRegister::V1))
        .unwrap();
    assert_eq!(vm.registers.read(DataRegister::V0), 251);
    assert_eq!(vm.registers.read(DataRegister::VF), 0);
}

#[test]
fn test_subtract_without_borrow() {
    let mut vm = Vm::new();
    vm.registers.write(DataRegister::V0, 10);
    vm.registers.write(DataRegister::V1, 5);
    vm.execute(Opcode::SUB8(DataRegister::V0, DataRegister::V1))
        .unwrap();
    assert_eq!(vm.registers.read(DataRegister::V0), 5);
    assert_eq!(vm.registers.read(DataRegister::VF), 1);
}

#[test]
fn test_subtract_reversed() {
    let mut vm = Vm::new();
    vm.registers.write(DataRegister::V0, 5);
    vm.registers.write(DataRegister::V1, 10);
    vm.execute(Opcode::SUBN8(DataRegister::V0, DataRegister::V1))
        .unwrap();
    assert_eq!(vm.registers.read(DataRegister::V0), 5);
    assert_eq!(vm.registers.read(DataRegister::VF), 1);
}

#[test]
fn test_bitwise_operations() {
    let mut vm = Vm::new();
    vm.registers.write(DataRegister::V0, 0b1100);
    vm.registers.write(DataRegister::V1, 0b1010);
    vm.execute(Opcode::AND8(DataRegister::V0, DataRegister::V1))
        .unwrap();
    assert_eq!(vm.registers.read(DataRegister::V0), 0b1000);

    vm.registers.write(DataRegister::V0, 0b1100);
    vm.execute(Opcode::OR8(DataRegister::V0, DataRegister::V1))
        .unwrap();
    assert_eq!(vm.registers.read(DataRegister::V0), 0b1110);

    vm.registers.write(DataRegister::V0, 0b1100);
    vm.execute(Opcode::XOR8(DataRegister::V0, DataRegister::V1))
        .unwrap();
    assert_eq!(vm.registers.read(DataRegister::V0), 0b0110);
}

#[test]
fn test_shifts() {
    let mut vm = Vm::new();
    vm.registers.write(DataRegister::V0, 7);
    vm.execute(Opcode::SHR8(DataRegister::V0, DataRegister::V1))
        .unwrap();
    assert_eq!(vm.registers.read(DataRegister::V0), 3);
    assert_eq!(vm.registers.read(DataRegister::VF), 1);

    vm.registers.write(DataRegister::V0, 0x81);
    vm.execute(Opcode::SHL8(DataRegister::V0, DataRegister::V1))
        .unwrap();
    assert_eq!(vm.registers.read(DataRegister::V0), 2);
    assert_eq!(vm.registers.read(DataRegister::VF), 1);
}

#[test]
fn test_bcd_store() {
    let mut vm = Vm::new();
    vm.registers.write(DataRegister::V2, 255);
    vm.registers.set_i(100);
    vm.execute(Opcode::LdB(DataRegister::V2)).unwrap();
    assert_eq!(vm.memory.read(100), 2);
    assert_eq!(vm.memory.read(101), 5);
    assert_eq!(vm.memory.read(102), 5);

    vm.registers.write(DataRegister::V3, 0);
    vm.registers.set_i(200);
    vm.execute(Opcode::LdB(DataRegister::V3)).unwrap();
    assert_eq!(vm.memory.read(200), 0);
    assert_eq!(vm.memory.read(201), 0);
    assert_eq!(vm.memory.read(202), 0);
}

#[test]
fn test_timers_decrement_and_floor() {
    let mut vm = Vm::new();
    vm.dt = 2;
    vm.st = 1;
    vm.execute(Opcode::SYS(Nnn(0))).unwrap();
    assert_eq!(vm.dt, 1);
    assert_eq!(vm.st, 0);
    vm.execute(Opcode::SYS(Nnn(0))).unwrap();
    assert_eq!(vm.dt, 0);
    assert_eq!(vm.st, 0);
    // Floored at zero: they never go below.
    vm.execute(Opcode::SYS(Nnn(0))).unwrap();
    assert_eq!(vm.dt, 0);
    assert_eq!(vm.st, 0);
}

#[test]
fn test_timer_transfers() {
    let mut vm = Vm::new();
    vm.registers.write(DataRegister::V0, 10);
    vm.execute(Opcode::LdDt(DataRegister::V0)).unwrap();
    assert_eq!(vm.dt, 10);
    vm.execute(Opcode::LdSt(DataRegister::V0)).unwrap();
    assert_eq!(vm.st, 10);
    // The copy into the register sees the already-decremented delay timer.
    vm.execute(Opcode::LdDtToReg(DataRegister::V1)).unwrap();
    assert_eq!(vm.registers.read(DataRegister::V1), 8);
}

#[test]
fn test_frame_buffer_toggle_and_clear() {
    let mut fb = FrameBuffer::new(WIDTH, HEIGHT);
    assert_eq!(fb.buffer()[5 * WIDTH + 3], OFF);

    // Toggling an off cell turns it on and reports no collision.
    assert!(!fb.toggle_pixel(3, 5));
    assert_eq!(fb.buffer()[5 * WIDTH + 3], ON);

    // Toggling it again turns it off and reports a collision.
    assert!(fb.toggle_pixel(3, 5));
    assert_eq!(fb.buffer()[5 * WIDTH + 3], OFF);

    fb.toggle_pixel(0, 0);
    fb.toggle_pixel(63, 31);
    fb.clear();
    for cell in fb.buffer() {
        assert_eq!(*cell, OFF);
    }
}

#[test]
fn test_draw_wraparound() {
    let mut vm = Vm::new();
    // An 8x1 sprite of all set bits, drawn at x = 63: columns 1-7 wrap back
    // to columns 0-6.
    vm.memory.write(0, 0xFF);
    vm.registers.set_i(0);
    vm.registers.write(DataRegister::V0, 63);
    vm.registers.write(DataRegister::V1, 0);
    vm.execute(Opcode::DRW(DataRegister::V0, DataRegister::V1, N(1)))
        .unwrap();

    assert_eq!(vm.frame_buffer.buffer()[63], ON);
    for column in 0usize..=6 {
        assert_eq!(vm.frame_buffer.buffer()[column], ON);
    }
    for column in 7usize..=62 {
        assert_eq!(vm.frame_buffer.buffer()[column], OFF);
    }
    assert_eq!(vm.registers.read(DataRegister::VF), 0);

    // Drawing the same sprite again toggles every cell back off and reports
    // the collision in the flag register.
    vm.execute(Opcode::DRW(DataRegister::V0, DataRegister::V1, N(1)))
        .unwrap();
    for column in 0usize..WIDTH {
        assert_eq!(vm.frame_buffer.buffer()[column], OFF);
    }
    assert_eq!(vm.registers.read(DataRegister::VF), 1);
}

#[test]
fn test_draw_rows_and_clear_opcode() {
    let mut vm = Vm::new();
    vm.memory.write(10, 0x80);
    vm.memory.write(11, 0x80);
    vm.registers.set_i(10);
    vm.registers.write(DataRegister::V0, 0);
    vm.registers.write(DataRegister::V1, 31);
    // Two rows drawn at y = 31: the second row wraps to y = 0.
    vm.execute(Opcode::DRW(DataRegister::V0, DataRegister::V1, N(2)))
        .unwrap();
    assert_eq!(vm.frame_buffer.buffer()[31 * WIDTH], ON);
    assert_eq!(vm.frame_buffer.buffer()[0], ON);

    vm.execute(Opcode::DisplayClear).unwrap();
    for cell in vm.frame_buffer.buffer() {
        assert_eq!(*cell, OFF);
    }
}

#[test]
fn test_random_masked() {
    let mut vm = Vm::new();
    let mut vm2 = Vm::new();
    // The drawn byte is ANDed with the immediate mask.
    execute_with(&mut vm, Opcode::RND(DataRegister::V0, Kk(0x0F)), 0xAB).unwrap();
    assert_eq!(vm.registers.read(DataRegister::V0), 0x0B);
    // A zero mask forces zero whatever byte the source supplies.
    vm2.registers.write(DataRegister::V0, 77);
    vm2.execute(Opcode::RND(DataRegister::V0, Kk(0x00))).unwrap();
    assert_eq!(vm2.registers.read(DataRegister::V0), 0);
}

#[test]
fn test_key_wait_polls() {
    let mut vm = Vm::new();
    vm.key = None;
    // With no key observed the program counter is forced back, so the same
    // instruction is re-presented on the following cycle.
    vm.execute(Opcode::LdKey(DataRegister::V0)).unwrap();
    assert_eq!(vm.pc, 0x200);

    vm.key = Some(Key::KeyA);
    vm.execute(Opcode::LdKey(DataRegister::V0)).unwrap();
    assert_eq!(vm.registers.read(DataRegister::V0), 0xA);
    assert_eq!(vm.pc, 0x202);
}

#[test]
fn test_skip_on_key() {
    let mut vm = Vm::new();
    vm.registers.write(DataRegister::V0, 0x5);

    vm.key = Some(Key::Key5);
    vm.execute(Opcode::SKP(DataRegister::V0)).unwrap();
    assert_eq!(vm.pc, 0x204);

    vm.key = None;
    vm.execute(Opcode::SKP(DataRegister::V0)).unwrap();
    assert_eq!(vm.pc, 0x206);

    vm.key = Some(Key::Key7);
    vm.execute(Opcode::SKNP(DataRegister::V0)).unwrap();
    assert_eq!(vm.pc, 0x20A);

    // No key pending: the register's key is certainly not pressed, so the
    // key-not-pressed skip fires.
    vm.key = None;
    vm.execute(Opcode::SKNP(DataRegister::V0)).unwrap();
    assert_eq!(vm.pc, 0x20E);

    // The pending key matches the register: the key-not-pressed skip does
    // not fire.
    vm.key = Some(Key::Key5);
    vm.execute(Opcode::SKNP(DataRegister::V0)).unwrap();
    assert_eq!(vm.pc, 0x210);
}

#[test]
fn test_conditional_skips() {
    let mut vm = Vm::new();
    vm.registers.write(DataRegister::V0, 7);
    vm.registers.write(DataRegister::V1, 7);
    vm.registers.write(DataRegister::V2, 9);

    vm.execute(Opcode::SE3(DataRegister::V0, Kk(7))).unwrap();
    assert_eq!(vm.pc, 0x204);
    vm.execute(Opcode::SE3(DataRegister::V0, Kk(8))).unwrap();
    assert_eq!(vm.pc, 0x206);
    vm.execute(Opcode::SNE4(DataRegister::V0, Kk(8))).unwrap();
    assert_eq!(vm.pc, 0x20A);
    vm.execute(Opcode::SE5(DataRegister::V0, DataRegister::V1))
        .unwrap();
    assert_eq!(vm.pc, 0x20E);
    vm.execute(Opcode::SNE(DataRegister::V0, DataRegister::V2))
        .unwrap();
    assert_eq!(vm.pc, 0x212);
    vm.execute(Opcode::SNE(DataRegister::V0, DataRegister::V1))
        .unwrap();
    assert_eq!(vm.pc, 0x214);
}

#[test]
fn test_jumps() {
    let mut vm = Vm::new();
    vm.execute(Opcode::JP(Nnn(0x300))).unwrap();
    assert_eq!(vm.pc, 0x300);

    // The indexed jump adds register 0, the sum reduced modulo the memory
    // length.
    vm.registers.write(DataRegister::V0, 255);
    vm.execute(Opcode::JPB(Nnn(0xFFF))).unwrap();
    assert_eq!(vm.pc, (255 + 0xFFF) % MEMORY_LENGTH as u16);
}

#[test]
fn test_call_and_return() {
    let mut vm = Vm::new();
    vm.execute(Opcode::CALL(Nnn(0x300))).unwrap();
    assert_eq!(vm.pc, 0x300);
    vm.execute(Opcode::RET).unwrap();
    assert_eq!(vm.pc, 0x202);
}

#[test]
fn test_call_overflow_and_return_underflow() {
    let mut vm = Vm::new();
    for _ in 0u32..12 {
        assert!(vm.execute(Opcode::CALL(Nnn(0x300))).is_ok());
    }
    assert_eq!(vm.execute(Opcode::CALL(Nnn(0x300))), Err("stack overflow"));

    let mut vm2 = Vm::new();
    assert_eq!(vm2.execute(Opcode::RET), Err("stack empty"));
}

#[test]
fn test_load_family() {
    let mut vm = Vm::new();
    vm.execute(Opcode::LD6(DataRegister::V4, Kk(0x42))).unwrap();
    assert_eq!(vm.registers.read(DataRegister::V4), 0x42);

    vm.execute(Opcode::LD8(DataRegister::V5, DataRegister::V4))
        .unwrap();
    assert_eq!(vm.registers.read(DataRegister::V5), 0x42);

    vm.execute(Opcode::LDI(Nnn(0x123))).unwrap();
    assert_eq!(vm.registers.i, 0x123);

    // Font-glyph addressing: the index register becomes value x 5.
    vm.registers.write(DataRegister::V6, 4);
    vm.execute(Opcode::LdF(DataRegister::V6)).unwrap();
    assert_eq!(vm.registers.i, 20);
}

#[test]
fn test_index_add_wraps() {
    let mut vm = Vm::new();
    vm.registers.set_i(0xFFFF);
    vm.registers.write(DataRegister::V0, 2);
    vm.execute(Opcode::AddI(DataRegister::V0)).unwrap();
    assert_eq!(vm.registers.i, 1);
}

#[test]
fn test_block_store_and_load() {
    let mut vm = Vm::new();
    vm.registers.write(DataRegister::V0, 11);
    vm.registers.write(DataRegister::V1, 22);
    vm.registers.write(DataRegister::V2, 33);
    vm.registers.set_i(50);
    vm.execute(Opcode::LdAllI(DataRegister::V2)).unwrap();
    assert_eq!(vm.memory.read(50), 11);
    assert_eq!(vm.memory.read(51), 22);
    assert_eq!(vm.memory.read(52), 33);

    vm.memory.write(51, 99);
    vm.execute(Opcode::LdAll(DataRegister::V2)).unwrap();
    assert_eq!(vm.registers.read(DataRegister::V0), 11);
    assert_eq!(vm.registers.read(DataRegister::V1), 99);
    assert_eq!(vm.registers.read(DataRegister::V2), 33);
}

#[test]
fn test_load_rom_and_fetch() {
    let mut vm = Vm::new();
    vm.load_rom(&[0x12, 0x34, 0xAB]);
    assert_eq!(vm.memory.read(0x200), 0x12);
    assert_eq!(vm.memory.read(0x201), 0x34);
    assert_eq!(vm.memory.read(0x202), 0xAB);
    // Fetch reads two bytes at the program counter, big-endian, without
    // advancing it.
    assert_eq!(vm.fetch(), 0x1234);
    assert_eq!(vm.pc, 0x200);
}

#[test]
fn test_fetch_wraps_at_end_of_memory() {
    let mut vm = Vm::new();
    vm.memory.write(MEMORY_LENGTH as u16 - 1, 0xAB);
    vm.memory.write(0, 0xCD);
    vm.pc = MEMORY_LENGTH as u16 - 1;
    assert_eq!(vm.fetch(), 0xABCD);
}

#[test]
fn test_try_key_reports_pending_key() {
    let mut vm = Vm::new();
    assert_eq!(vm.try_key(), None);
    vm.key = Some(Key::Key3);
    assert_eq!(vm.try_key(), Some(Key::Key3));
    // The host owns the pending key; reading does not consume it.
    assert_eq!(vm.try_key(), Some(Key::Key3));
}

#[test]
fn test_key_codes() {
    let keys = [
        Key::Key0,
        Key::Key1,
        Key::Key2,
        Key::Key3,
        Key::Key4,
        Key::Key5,
        Key::Key6,
        Key::Key7,
        Key::Key8,
        Key::Key9,
        Key::KeyA,
        Key::KeyB,
        Key::KeyC,
        Key::KeyD,
        Key::KeyE,
        Key::KeyF,
    ];
    for (code, key) in keys.iter().enumerate() {
        assert_eq!(key.code() as usize, code);
    }
}

#[test]
fn test_update_timers() {
    let mut vm = Vm::new();
    vm.dt = 1;
    vm.st = 0;
    vm.update_timers();
    assert_eq!(vm.dt, 0);
    assert_eq!(vm.st, 0);
    vm.update_timers();
    assert_eq!(vm.dt, 0);
    assert_eq!(vm.st, 0);
}

#[test]
fn test_rand_draws_a_byte() {
    let mut vm = Vm::new();
    // Nothing is promised of the value; drawing must leave the machine state
    // untouched.
    let _ = vm.rand();
    assert_eq!(vm.pc, 0x200);
    assert_eq!(vm.dt, 0);
    assert_eq!(vm.registers.read(DataRegister::V0), 0);
}

#[test]
fn test_sys_is_a_no_op() {
    let mut vm = Vm::new();
    vm.execute(Opcode::SYS(Nnn(0x123))).unwrap();
    assert_eq!(vm.pc, 0x202);
    assert_eq!(vm.registers.i, 0);
    for cell in vm.frame_buffer.buffer() {
        assert_eq!(*cell, OFF);
    }
}
