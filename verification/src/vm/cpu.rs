//! The executor: applies one decoded `Opcode` to the machine state as a
//! single atomic step. `step` is the mathematical transition function; the
//! executable `execute` is proved to implement it, for every machine state
//! and every opcode.

use vstd::prelude::*;
use vstd::arithmetic::div_mod::{
    lemma_mod_bound, lemma_mod_multiples_vanish, lemma_small_mod,
};
use crate::opcode::{DataRegister, Opcode};
use crate::vm::memory::MEMORY_LENGTH;
use crate::vm::stack::SIZE;
use crate::vm::{Vm, VmView, HEIGHT, WIDTH};

verus! {

/// Reduce a candidate program-counter value modulo the memory length.
pub fn wrap_pc(pc: u16) -> (r: u16)
    ensures
        r == pc as int % (MEMORY_LENGTH as int),
        r < MEMORY_LENGTH,
{
    pc % (MEMORY_LENGTH as u16)
}

/// The decimal digits of a byte, for the binary-coded-decimal store.
pub struct Parts {
    pub ones: u8,
    pub tens: u8,
    pub hundreds: u8,
}

impl Parts {
    pub fn from(x: u8) -> (r: Self)
        ensures
            r.ones == x as int % 10,
            r.tens == x as int / 10 % 10,
            r.hundreds == x as int / 100 % 10,
    {
        Parts { ones: x % 10, tens: x / 10 % 10, hundreds: x / 100 % 10 }
    }
}

/// Both countdown timers decremented by one, floored at zero; nothing else
/// changes. This happens on every executed instruction, before the opcode's
/// own effect.
pub open spec fn tick(v: VmView) -> VmView {
    VmView {
        dt: if v.dt > 0 { (v.dt - 1) as u8 } else { 0u8 },
        st: if v.st > 0 { (v.st - 1) as u8 } else { 0u8 },
        ..v
    }
}

/// Whether one step of `op` succeeds: only a call with a full stack or a
/// return with an empty stack fails, and both are fatal.
pub open spec fn step_ok(v: VmView, op: Opcode) -> bool {
    match op {
        Opcode::CALL(_) => v.stack.len() < SIZE,
        Opcode::RET => v.stack.len() > 0,
        _ => true,
    }
}

/// Memory after the block store: registers 0 through `k - 1` written to the
/// consecutive addresses starting at `i`, each reduced modulo the memory
/// length.
pub open spec fn store_block_spec(mem: Seq<u8>, i: u16, regs: Seq<u8>, k: nat) -> Seq<u8>
    decreases k,
{
    if k == 0 {
        mem
    } else {
        store_block_spec(mem, i, regs, (k - 1) as nat).update(
            (i + (k - 1)) % (MEMORY_LENGTH as int),
            regs[k - 1],
        )
    }
}

/// Registers after the block load: registers 0 through `k - 1` filled from
/// the consecutive addresses starting at `i`, each reduced modulo the memory
/// length.
pub open spec fn load_block_spec(regs: Seq<u8>, mem: Seq<u8>, i: u16, k: nat) -> Seq<u8>
    decreases k,
{
    if k == 0 {
        regs
    } else {
        load_block_spec(regs, mem, i, (k - 1) as nat).update(
            k - 1,
            mem[(i + (k - 1)) % (MEMORY_LENGTH as int)],
        )
    }
}

/// One sprite row blitted: the first `bits` bits of `line` (most significant
/// first), each set bit toggling the cell in row `py` at column
/// `(x0 + bit index) % width`, columns wrapping around the edge. Returns the
/// buffer and whether any toggle turned an on cell off.
pub open spec fn draw_row_spec(fb: Seq<bool>, line: u8, x0: u8, py: int, bits: nat) -> (
    Seq<bool>,
    bool,
)
    decreases bits,
{
    if bits == 0 {
        (fb, false)
    } else {
        let prev = draw_row_spec(fb, line, x0, py, (bits - 1) as nat);
        let j = (bits - 1) as u8;
        if line & (0x80u8 >> j) != 0 {
            let idx = py * (WIDTH as int) + (x0 + j) % (WIDTH as int);
            (prev.0.update(idx, !prev.0[idx]), prev.1 || prev.0[idx])
        } else {
            prev
        }
    }
}

/// The sprite blitted: `rows` bytes read at the index register (addresses
/// reduced modulo the memory length), row `r` drawn at screen row
/// `(y0 + r) % height`, rows wrapping around the edge. Returns the buffer and
/// whether any toggle anywhere turned an on cell off: a collision.
pub open spec fn draw_spec(fb: Seq<bool>, mem: Seq<u8>, i: u16, x0: u8, y0: u8, rows: nat) -> (
    Seq<bool>,
    bool,
)
    decreases rows,
{
    if rows == 0 {
        (fb, false)
    } else {
        let prev = draw_spec(fb, mem, i, x0, y0, (rows - 1) as nat);
        let line = mem[(i + (rows - 1)) % (MEMORY_LENGTH as int)];
        let py = (y0 + (rows - 1)) % (HEIGHT as int);
        let row = draw_row_spec(prev.0, line, x0, py, 8);
        (row.0, prev.1 || row.1)
    }
}

/// The opcode's own effect on the already-ticked state `v`, together with the
/// candidate next program counter (not yet reduced modulo the memory length).
/// Meaningful when `step_ok(v, op)` holds; `rnd` is the byte the random
/// source supplied, read only by the random opcode.
pub open spec fn step_inner(v: VmView, op: Opcode, rnd: u8) -> (VmView, int) {
    let next = v.pc + 2int;
    match op {
        Opcode::DisplayClear => (
            VmView { fb: Seq::new(v.fb.len(), |l: int| false), ..v },
            next,
        ),
        Opcode::RET => (VmView { stack: v.stack.drop_last(), ..v }, v.stack.last() as int),
        Opcode::SKP(x) => (
            v,
            if v.key == Some(v.regs[x.spec_num() as int]) {
                next + 2
            } else {
                next
            },
        ),
        Opcode::SKNP(x) => (
            v,
            // The complement of the key-pressed skip: with no key pending at
            // all, the register's key is certainly not pressed.
            if v.key != Some(v.regs[x.spec_num() as int]) {
                next + 2
            } else {
                next
            },
        ),
        Opcode::CALL(nnn) => (
            VmView { stack: v.stack.push((((v.pc + 2) % (MEMORY_LENGTH as int))) as u16), ..v },
            nnn.0 as int,
        ),
        Opcode::SYS(_) => (v, next),
        Opcode::LDI(nnn) => (VmView { i: nnn.0, ..v }, next),
        Opcode::LD6(x, kk) => (VmView { regs: v.regs.update(x.spec_num() as int, kk.0), ..v }, next),
        Opcode::LD8(x, y) => (
            VmView { regs: v.regs.update(x.spec_num() as int, v.regs[y.spec_num() as int]), ..v },
            next,
        ),
        Opcode::LdDtToReg(x) => (VmView { regs: v.regs.update(x.spec_num() as int, v.dt), ..v }, next),
        Opcode::LdDt(x) => (VmView { dt: v.regs[x.spec_num() as int], ..v }, next),
        Opcode::LdSt(x) => (VmView { st: v.regs[x.spec_num() as int], ..v }, next),
        Opcode::LdB(x) => {
            let val = v.regs[x.spec_num() as int];
            let mem = v.mem.update(v.i as int % (MEMORY_LENGTH as int), (val / 100 % 10) as u8)
                .update((v.i + 1) as int % (MEMORY_LENGTH as int), (val / 10 % 10) as u8)
                .update((v.i + 2) as int % (MEMORY_LENGTH as int), (val % 10) as u8);
            (VmView { mem, ..v }, next)
        },
        Opcode::LdF(x) => (VmView { i: (v.regs[x.spec_num() as int] * 5) as u16, ..v }, next),
        Opcode::LdAll(x) => (
            VmView {
                regs: load_block_spec(v.regs, v.mem, v.i, (x.spec_num() + 1) as nat),
                ..v
            },
            next,
        ),
        Opcode::LdAllI(x) => (
            VmView {
                mem: store_block_spec(v.mem, v.i, v.regs, (x.spec_num() + 1) as nat),
                ..v
            },
            next,
        ),
        Opcode::LdKey(x) => match v.key {
            Some(code) => (VmView { regs: v.regs.update(x.spec_num() as int, code), ..v }, next),
            None => (v, v.pc as int),
        },
        Opcode::OR8(x, y) => (
            VmView {
                regs: v.regs.update(
                    x.spec_num() as int,
                    v.regs[x.spec_num() as int] | v.regs[y.spec_num() as int],
                ),
                ..v
            },
            next,
        ),
        Opcode::AND8(x, y) => (
            VmView {
                regs: v.regs.update(
                    x.spec_num() as int,
                    v.regs[x.spec_num() as int] & v.regs[y.spec_num() as int],
                ),
                ..v
            },
            next,
        ),
        Opcode::XOR8(x, y) => (
            VmView {
                regs: v.regs.update(
                    x.spec_num() as int,
                    v.regs[x.spec_num() as int] ^ v.regs[y.spec_num() as int],
                ),
                ..v
            },
            next,
        ),
        Opcode::ADD8(x, y) => {
            let sum = v.regs[x.spec_num() as int] + v.regs[y.spec_num() as int];
            (
                VmView {
                    regs: v.regs.update(x.spec_num() as int, (sum % 256) as u8).update(
                        15,
                        if sum > 255 { 1u8 } else { 0u8 },
                    ),
                    ..v
                },
                next,
            )
        },
        Opcode::ADD(x, kk) => (
            VmView {
                regs: v.regs.update(
                    x.spec_num() as int,
                    ((v.regs[x.spec_num() as int] + kk.0) % 256) as u8,
                ),
                ..v
            },
            next,
        ),
        Opcode::AddI(x) => (
            VmView { i: ((v.i + v.regs[x.spec_num() as int]) % 0x10000) as u16, ..v },
            next,
        ),
        Opcode::SUB8(x, y) => {
            let a = v.regs[x.spec_num() as int];
            let b = v.regs[y.spec_num() as int];
            let diff = if a >= b { a - b } else { a - b + 256 };
            (
                VmView {
                    regs: v.regs.update(x.spec_num() as int, diff as u8).update(
                        15,
                        if a >= b { 1u8 } else { 0u8 },
                    ),
                    ..v
                },
                next,
            )
        },
        Opcode::SUBN8(x, y) => {
            let a = v.regs[x.spec_num() as int];
            let b = v.regs[y.spec_num() as int];
            let diff = if b >= a { b - a } else { b - a + 256 };
            (
                VmView {
                    regs: v.regs.update(x.spec_num() as int, diff as u8).update(
                        15,
                        if b >= a { 1u8 } else { 0u8 },
                    ),
                    ..v
                },
                next,
            )
        },
        Opcode::SHR8(x, _y) => {
            let a = v.regs[x.spec_num() as int];
            (
                VmView {
                    regs: v.regs.update(15, a & 1).update(x.spec_num() as int, (a / 2) as u8),
                    ..v
                },
                next,
            )
        },
        Opcode::SHL8(x, _y) => {
            let a = v.regs[x.spec_num() as int];
            (
                VmView {
                    regs: v.regs.update(15, (a >> 7) & 1).update(
                        x.spec_num() as int,
                        ((a * 2) % 256) as u8,
                    ),
                    ..v
                },
                next,
            )
        },
        Opcode::SNE4(x, kk) => (
            v,
            if v.regs[x.spec_num() as int] != kk.0 {
                next + 2
            } else {
                next
            },
        ),
        Opcode::SE5(x, y) => (
            v,
            if v.regs[x.spec_num() as int] == v.regs[y.spec_num() as int] {
                next + 2
            } else {
                next
            },
        ),
        Opcode::SNE(x, y) => (
            v,
            if v.regs[x.spec_num() as int] != v.regs[y.spec_num() as int] {
                next + 2
            } else {
                next
            },
        ),
        Opcode::SE3(x, kk) => (
            v,
            if v.regs[x.spec_num() as int] == kk.0 {
                next + 2
            } else {
                next
            },
        ),
        Opcode::JP(nnn) => (v, nnn.0 as int),
        Opcode::JPB(nnn) => (v, v.regs[0] + nnn.0),
        Opcode::DRW(x, y, n) => {
            let d = draw_spec(
                v.fb,
                v.mem,
                v.i,
                v.regs[x.spec_num() as int],
                v.regs[y.spec_num() as int],
                n.0 as nat,
            );
            (
                VmView {
                    fb: d.0,
                    regs: v.regs.update(15, if d.1 { 1u8 } else { 0u8 }),
                    ..v
                },
                next,
            )
        },
        Opcode::RND(x, kk) => (
            VmView { regs: v.regs.update(x.spec_num() as int, rnd & kk.0), ..v },
            next,
        ),
    }
}

/// One full step: timers tick, the opcode's effect applies, and the program
/// counter becomes the candidate next value reduced modulo the memory length.
pub open spec fn step(v: VmView, op: Opcode, rnd: u8) -> VmView
    recommends
        step_ok(v, op),
{
    let t = tick(v);
    let s = step_inner(t, op, rnd);
    VmView { pc: (s.1 % (MEMORY_LENGTH as int)) as u16, ..s.0 }
}

/// Law: after every step the program counter has been reduced modulo the
/// memory length, whatever candidate value the opcode produced, so the
/// following fetch is always in range.
pub proof fn lemma_step_pc_in_range(v: VmView, op: Opcode, rnd: u8)
    ensures
        step(v, op, rnd).pc < MEMORY_LENGTH,
        step(v, op, rnd).pc == step_inner(tick(v), op, rnd).1 % (MEMORY_LENGTH as int),
{
    lemma_mod_bound(step_inner(tick(v), op, rnd).1, MEMORY_LENGTH as int);
}

/// Law: each timer decrements by exactly one on every executed instruction,
/// floored at zero, except where the instruction itself sets that timer
/// afterwards.
pub proof fn lemma_timers_decrement(v: VmView, op: Opcode, rnd: u8)
    ensures
        !(op matches Opcode::LdDt(_)) ==> step(v, op, rnd).dt == (if v.dt > 0 {
            (v.dt - 1) as u8
        } else {
            0u8
        }),
        !(op matches Opcode::LdSt(_)) ==> step(v, op, rnd).st == (if v.st > 0 {
            (v.st - 1) as u8
        } else {
            0u8
        }),
{
}

/// A value reduced modulo 0x10000 and then modulo the memory length equals
/// the value reduced modulo the memory length directly, because the memory
/// length divides 0x10000.
proof fn lemma_mod_wrap16(s: int)
    requires
        0 <= s,
    ensures
        (if s > 0xffff { s - 0x10000 } else { s }) % (MEMORY_LENGTH as int) == s % (
        MEMORY_LENGTH as int),
{
    if s > 0xffff {
        lemma_mod_multiples_vanish(-16, s, MEMORY_LENGTH as int);
    }
}

/// The opcodes the arithmetic/logic helper handles: register-to-register and
/// immediate arithmetic, bitwise operations, shifts, and the random draw.
pub open spec fn is_alu(op: Opcode) -> bool {
    ||| op matches Opcode::ADD(_, _)
    ||| op matches Opcode::ADD8(_, _)
    ||| op matches Opcode::AddI(_)
    ||| op matches Opcode::SUB8(_, _)
    ||| op matches Opcode::SUBN8(_, _)
    ||| op matches Opcode::AND8(_, _)
    ||| op matches Opcode::OR8(_, _)
    ||| op matches Opcode::XOR8(_, _)
    ||| op matches Opcode::SHR8(_, _)
    ||| op matches Opcode::SHL8(_, _)
    ||| op matches Opcode::RND(_, _)
}

/// The opcodes the load/store helper handles: register, timer, index and
/// memory transfers.
pub open spec fn is_load(op: Opcode) -> bool {
    ||| op matches Opcode::LD6(_, _)
    ||| op matches Opcode::LD8(_, _)
    ||| op matches Opcode::LDI(_)
    ||| op matches Opcode::LdB(_)
    ||| op matches Opcode::LdF(_)
    ||| op matches Opcode::LdDtToReg(_)
    ||| op matches Opcode::LdDt(_)
    ||| op matches Opcode::LdSt(_)
    ||| op matches Opcode::LdAllI(_)
    ||| op matches Opcode::LdAll(_)
}

/// Apply one arithmetic/logic opcode's effect to the (already ticked) state.
fn exec_alu(vm: &mut Vm, opcode: Opcode, rnd: u8)
    requires
        old(vm).wf(),
        is_alu(opcode),
    ensures
        final(vm).wf(),
        final(vm)@ == step_inner(old(vm)@, opcode, rnd).0,
        step_inner(old(vm)@, opcode, rnd).1 == old(vm)@.pc + 2,
{
    match opcode {
        Opcode::ADD(x, kk) => {
            let sum: u16 = vm.registers.read(x) as u16 + kk.0 as u16;
            let result = (sum % 256) as u8;
            vm.registers.write(x, result);
        },

        Opcode::ADD8(x, y) => {
            let sum: u16 = vm.registers.read(x) as u16 + vm.registers.read(y) as u16;
            let result = (sum % 256) as u8;
            vm.registers.write(x, result);
            vm.registers.write(DataRegister::VF, if sum > 255 { 1 } else { 0 });
        },

        Opcode::AddI(x) => {
            let value = vm.registers.read(x);
            let sum: u32 = vm.registers.i as u32 + value as u32;
            vm.registers.set_i((sum % 0x10000) as u16);
        },

        Opcode::SUB8(x, y) => {
            let a = vm.registers.read(x);
            let b = vm.registers.read(y);
            let result = if a >= b {
                a - b
            } else {
                ((a as u16 + 256) - b as u16) as u8
            };
            vm.registers.write(x, result);
            vm.registers.write(DataRegister::VF, if a >= b { 1 } else { 0 });
        },

        Opcode::SUBN8(x, y) => {
            let a = vm.registers.read(x);
            let b = vm.registers.read(y);
            let result = if b >= a {
                b - a
            } else {
                ((b as u16 + 256) - a as u16) as u8
            };
            vm.registers.write(x, result);
            vm.registers.write(DataRegister::VF, if b >= a { 1 } else { 0 });
        },

        Opcode::AND8(x, y) => {
            let result = vm.registers.read(x) & vm.registers.read(y);
            vm.registers.write(x, result);
        },

        Opcode::XOR8(x, y) => {
            let result = vm.registers.read(x) ^ vm.registers.read(y);
            vm.registers.write(x, result);
        },

        Opcode::OR8(x, y) => {
            let result = vm.registers.read(x) | vm.registers.read(y);
            vm.registers.write(x, result);
        },

        Opcode::SHR8(x, _y) => {
            let value = vm.registers.read(x);
            vm.registers.write(DataRegister::VF, value & 1);
            vm.registers.write(x, value / 2);
        },

        Opcode::SHL8(x, _y) => {
            let value = vm.registers.read(x);
            vm.registers.write(DataRegister::VF, (value >> 7) & 1);
            vm.registers.write(x, ((value as u16 * 2) % 256) as u8);
        },

        Opcode::RND(x, kk) => {
            vm.registers.write(x, rnd & kk.0);
        },

        _ => {
            proof {
                assert(false);
            }
        },
    }
}

/// Apply one load/store opcode's effect to the (already ticked) state.
fn exec_load(vm: &mut Vm, opcode: Opcode, rnd: u8)
    requires
        old(vm).wf(),
        is_load(opcode),
    ensures
        final(vm).wf(),
        final(vm)@ == step_inner(old(vm)@, opcode, rnd).0,
        step_inner(old(vm)@, opcode, rnd).1 == old(vm)@.pc + 2,
{
    match opcode {
        Opcode::LD6(register, kk) => {
            vm.registers.write(register, kk.0);
        },

        Opcode::LD8(x, y) => {
            let value = vm.registers.read(y);
            vm.registers.write(x, value);
        },

        Opcode::LDI(nnn) => {
            vm.registers.set_i(nnn.0);
        },

        Opcode::LdB(x) => {
            let parts = Parts::from(vm.registers.read(x));
            let i = vm.registers.i;
            proof {
                lemma_mod_wrap16(i + 1);
                lemma_mod_wrap16(i + 2);
            }
            vm.memory.write(i, parts.hundreds);
            vm.memory.write(i.wrapping_add(1), parts.tens);
            vm.memory.write(i.wrapping_add(2), parts.ones);
        },

        Opcode::LdF(x) => {
            let value = vm.registers.read(x);
            vm.registers.set_i(value as u16 * 5);
        },

        Opcode::LdDtToReg(x) => {
            let dt = vm.dt;
            vm.registers.write(x, dt);
        },

        Opcode::LdDt(x) => {
            vm.dt = vm.registers.read(x);
        },

        Opcode::LdSt(x) => {
            vm.st = vm.registers.read(x);
        },

        Opcode::LdAllI(x) => {
            let count = x.num() + 1;
            let ghost vm0 = *vm;
            for r in 0..count
                invariant
                    count == x.spec_num() + 1,
                    count <= 16,
                    vm.memory.wf(),
                    vm.memory@ == store_block_spec(
                        vm0.memory@,
                        vm0.registers.i,
                        vm0.registers@,
                        r as nat,
                    ),
                    vm.pc == vm0.pc,
                    vm.stack == vm0.stack,
                    vm.registers == vm0.registers,
                    vm.st == vm0.st,
                    vm.dt == vm0.dt,
                    vm.frame_buffer == vm0.frame_buffer,
                    vm.key == vm0.key,
                    vm.rng == vm0.rng,
                    vm.registers.wf(),
            {
                let value = vm.registers.read(DataRegister::from(r as u8));
                proof {
                    lemma_mod_wrap16(vm.registers.i + r);
                }
                vm.memory.write(vm.registers.i.wrapping_add(r as u16), value);
            }
        },

        Opcode::LdAll(x) => {
            let count = x.num() + 1;
            let ghost vm0 = *vm;
            for r in 0..count
                invariant
                    count == x.spec_num() + 1,
                    count <= 16,
                    vm.registers.wf(),
                    vm.registers@ == load_block_spec(
                        vm0.registers@,
                        vm0.memory@,
                        vm0.registers.i,
                        r as nat,
                    ),
                    vm.registers.i == vm0.registers.i,
                    vm.pc == vm0.pc,
                    vm.stack == vm0.stack,
                    vm.memory == vm0.memory,
                    vm.st == vm0.st,
                    vm.dt == vm0.dt,
                    vm.frame_buffer == vm0.frame_buffer,
                    vm.key == vm0.key,
                    vm.rng == vm0.rng,
                    vm.memory.wf(),
            {
                proof {
                    lemma_mod_wrap16(vm.registers.i + r);
                }
                let value = vm.memory.read(vm.registers.i.wrapping_add(r as u16));
                vm.registers.write(DataRegister::from(r as u8), value);
            }
        },

        _ => {
            proof {
                assert(false);
            }
        },
    }
}

/// Blit one sprite: `n.0` rows of eight pixels each, read at the index
/// register, drawn at the offsets held by the two registers, coordinates
/// wrapping around the buffer's edges; the flag register is unconditionally
/// rewritten to 1 if any toggle turned an on cell off, else to 0.
fn exec_draw(vm: &mut Vm, x_register: DataRegister, y_register: DataRegister, height: u8)
    requires
        old(vm).wf(),
    ensures
        final(vm).wf(),
        final(vm)@ == step_inner(
            old(vm)@,
            Opcode::DRW(x_register, y_register, crate::opcode::N(height)),
            0,
        ).0,
{
    let x_offset = vm.registers.read(x_register);
    let y_offset = vm.registers.read(y_register);

    let mut vf: u8 = 0;
    let ghost vm0 = *vm;

    for row in 0..height
        invariant
            vm.frame_buffer.wf(),
            vm.frame_buffer.spec_width() == WIDTH,
            vm.frame_buffer.spec_height() == HEIGHT,
            x_offset == vm0.registers@[x_register.spec_num() as int],
            y_offset == vm0.registers@[y_register.spec_num() as int],
            vm.frame_buffer@ == draw_spec(
                vm0.frame_buffer@,
                vm0.memory@,
                vm0.registers.i,
                x_offset,
                y_offset,
                row as nat,
            ).0,
            vf == (if draw_spec(
                vm0.frame_buffer@,
                vm0.memory@,
                vm0.registers.i,
                x_offset,
                y_offset,
                row as nat,
            ).1 {
                1u8
            } else {
                0u8
            }),
            vm.pc == vm0.pc,
            vm.stack == vm0.stack,
            vm.memory == vm0.memory,
            vm.registers == vm0.registers,
            vm.st == vm0.st,
            vm.dt == vm0.dt,
            vm.key == vm0.key,
            vm.rng == vm0.rng,
            vm.memory.wf(),
            vm.registers.wf(),
    {
        proof {
            lemma_mod_wrap16(vm.registers.i + row);
        }
        let line = vm.memory.read(vm.registers.i.wrapping_add(row as u16));
        let ghost fb_row = vm.frame_buffer@;
        let ghost py = (y_offset + row) as int % (HEIGHT as int);
        let ghost prev_coll = draw_spec(
            vm0.frame_buffer@,
            vm0.memory@,
            vm0.registers.i,
            x_offset,
            y_offset,
            row as nat,
        ).1;

        for j in 0..8u8
            invariant
                vm.frame_buffer.wf(),
                vm.frame_buffer.spec_width() == WIDTH,
                vm.frame_buffer.spec_height() == HEIGHT,
                py == (y_offset + row) as int % (HEIGHT as int),
                vm.frame_buffer@ == draw_row_spec(fb_row, line, x_offset, py, j as nat).0,
                vf == (if (prev_coll || draw_row_spec(fb_row, line, x_offset, py, j as nat).1) {
                    1u8
                } else {
                    0u8
                }),
                vm.pc == vm0.pc,
                vm.stack == vm0.stack,
                vm.memory == vm0.memory,
                vm.registers == vm0.registers,
                vm.st == vm0.st,
                vm.dt == vm0.dt,
                vm.key == vm0.key,
                vm.rng == vm0.rng,
        {
            if line & (0x80u8 >> j) != 0 {
                proof {
                    lemma_mod_bound((x_offset + j) as int, WIDTH as int);
                    lemma_mod_bound((y_offset + row) as int, HEIGHT as int);
                }
                let xx = (x_offset as usize + j as usize) % WIDTH;
                let yy = (y_offset as usize + row as usize) % HEIGHT;
                let collision = vm.frame_buffer.toggle_pixel(xx, yy);
                if collision {
                    vf = 1;
                }
            }
        }
    }

    vm.registers.write(DataRegister::VF, vf);
}

/// Execute exactly one instruction against the machine state, the random
/// opcode consuming the given byte `rnd`. Fails exactly on a call with a full
/// stack or a return with an empty stack; a failed step has decremented the
/// timers and changed nothing else, and the caller must stop feeding cycles.
#[verifier::rlimit(100)]
#[verifier::spinoff_prover]
pub fn execute_with(vm: &mut Vm, opcode: Opcode, rnd: u8) -> (r: Result<(), &'static str>)
    requires
        old(vm).wf(),
    ensures
        final(vm).wf(),
        r is Ok <==> step_ok(old(vm)@, opcode),
        r is Ok ==> final(vm)@ == step(old(vm)@, opcode, rnd),
        r is Err ==> final(vm)@ == tick(old(vm)@),
        opcode matches Opcode::CALL(_) && old(vm)@.stack.len() >= SIZE ==> (r matches Err(m)
            && m@ == "stack overflow"@),
        opcode == Opcode::RET && old(vm)@.stack.len() == 0 ==> (r matches Err(m) && m@
            == "stack empty"@),
{
    let mut new_pc: u16 = vm.pc + 2;

    vm.update_timers();
    let ghost t = tick(old(vm)@);
    proof {
        assert(vm@ == t);
    }

    match opcode {
        Opcode::DisplayClear => {
            vm.frame_buffer.clear();
        },

        Opcode::JP(nnn) => {
            new_pc = nnn.0;
        },

        Opcode::JPB(nnn) => {
            let sum: u32 = vm.registers.read(DataRegister::V0) as u32 + nnn.0 as u32;
            proof {
                lemma_mod_bound(sum as int, MEMORY_LENGTH as int);
                lemma_small_mod((sum as int % (MEMORY_LENGTH as int)) as nat, MEMORY_LENGTH as nat);
            }
            new_pc = (sum % (MEMORY_LENGTH as u32)) as u16;
        },

        Opcode::CALL(nnn) => {
            match vm.stack.push(wrap_pc(vm.pc + 2)) {
                Ok(()) => {
                    new_pc = nnn.0;
                },
                Err(e) => {
                    return Err(e);
                },
            }
        },

        Opcode::RET => {
            match vm.stack.pop() {
                Ok(address) => {
                    new_pc = address;
                },
                Err(e) => {
                    return Err(e);
                },
            }
        },

        Opcode::SYS(_nnn) => {
            // The legacy system call: a no-op.
        },

        Opcode::SKP(x) => {
            match vm.key {
                Some(key) => {
                    if key.code() == vm.registers.read(x) {
                        new_pc = new_pc + 2;
                    }
                },
                None => {},
            }
        },

        Opcode::SKNP(x) => {
            match vm.key {
                Some(key) => {
                    if key.code() != vm.registers.read(x) {
                        new_pc = new_pc + 2;
                    }
                },
                None => {
                    // No key pending: the register's key is not pressed.
                    new_pc = new_pc + 2;
                },
            }
        },

        Opcode::SE3(register, kk) => {
            if vm.registers.read(register) == kk.0 {
                new_pc = new_pc + 2;
            }
        },

        Opcode::SNE4(register, kk) => {
            if vm.registers.read(register) != kk.0 {
                new_pc = new_pc + 2;
            }
        },

        Opcode::SE5(x, y) => {
            if vm.registers.read(x) == vm.registers.read(y) {
                new_pc = new_pc + 2;
            }
        },

        Opcode::SNE(x, y) => {
            if vm.registers.read(x) != vm.registers.read(y) {
                new_pc = new_pc + 2;
            }
        },

        Opcode::LdKey(x) => {
            // The blocking key wait is a polling re-execution: with no key
            // observed, the program counter is forced back so the same
            // instruction is re-presented on the following cycle.
            match vm.key {
                Some(key) => {
                    let code = key.code();
                    vm.registers.write(x, code);
                },
                None => {
                    new_pc = vm.pc;
                },
            }
        },

        Opcode::DRW(x_register, y_register, n) => {
            exec_draw(vm, x_register, y_register, n.0);
        },

        Opcode::ADD(_, _) | Opcode::ADD8(_, _) | Opcode::AddI(_) | Opcode::SUB8(_, _)
            | Opcode::SUBN8(_, _) | Opcode::AND8(_, _) | Opcode::OR8(_, _) | Opcode::XOR8(_, _)
            | Opcode::SHR8(_, _) | Opcode::SHL8(_, _) | Opcode::RND(_, _) => {
            exec_alu(vm, opcode, rnd);
        },

        Opcode::LD6(_, _) | Opcode::LD8(_, _) | Opcode::LDI(_) | Opcode::LdB(_) | Opcode::LdF(_)
            | Opcode::LdDtToReg(_) | Opcode::LdDt(_) | Opcode::LdSt(_) | Opcode::LdAllI(_)
            | Opcode::LdAll(_) => {
            exec_load(vm, opcode, rnd);
        },
    }

    proof {
        let s = step_inner(t, opcode, rnd);
        assert(vm@ == s.0);
        assert(new_pc as int % (MEMORY_LENGTH as int) == s.1 % (MEMORY_LENGTH as int));
    }
    vm.pc = wrap_pc(new_pc);
    Ok(())
}

/// Execute exactly one instruction, drawing from the machine's random source
/// where the opcode asks for it. For every other opcode the step is the
/// deterministic `step` with a zero random byte; for the random opcode some
/// byte was drawn, and the contract holds for every outcome.
pub fn execute(vm: &mut Vm, opcode: Opcode) -> (r: Result<(), &'static str>)
    requires
        old(vm).wf(),
    ensures
        final(vm).wf(),
        r is Ok <==> step_ok(old(vm)@, opcode),
        r is Ok ==> exists|b: u8| final(vm)@ == step(old(vm)@, opcode, b),
        !(opcode matches Opcode::RND(_, _)) && r is Ok ==> final(vm)@ == step(
            old(vm)@,
            opcode,
            0,
        ),
        r is Err ==> final(vm)@ == tick(old(vm)@),
        opcode matches Opcode::CALL(_) && old(vm)@.stack.len() >= SIZE ==> (r matches Err(m)
            && m@ == "stack overflow"@),
        opcode == Opcode::RET && old(vm)@.stack.len() == 0 ==> (r matches Err(m) && m@
            == "stack empty"@),
{
    let rnd = match opcode {
        Opcode::RND(_, _) => vm.rand(),
        _ => 0,
    };
    let r = execute_with(vm, opcode, rnd);
    proof {
        if r is Ok {
            assert(vm@ == step(old(vm)@, opcode, rnd));
            assert(exists|b: u8| vm@ == step(old(vm)@, opcode, b));
        }
    }
    r
}


} // verus!
