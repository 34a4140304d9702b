//! The machine aggregate: memory, registers, call stack, frame buffer,
//! program counter, the two countdown timers, the pending key, and the random
//! source, with the fetch and execute cycle operations.

pub mod cpu;
pub mod frame_buffer;
pub mod key;
pub mod memory;
pub mod registers;
pub mod stack;

use vstd::prelude::*;
use crate::opcode::Opcode;
use crate::vm::frame_buffer::FrameBuffer;
pub use crate::vm::key::Key;
use crate::vm::memory::{Memory, MEMORY_LENGTH};
use crate::vm::registers::Registers;
use crate::vm::stack::Stack;

verus! {

/// Width of the frame buffer, in cells.
pub const WIDTH: usize = 64;

/// Height of the frame buffer, in cells.
pub const HEIGHT: usize = 32;

#[verifier::external_type_specification]
#[verifier::external_body]
pub struct ExThreadRng(rand::rngs::ThreadRng);

/// Relies on rand::thread_rng: a fresh handle to the thread-local random
/// number generator.
#[verifier::external_body]
fn fresh_rng() -> rand::rngs::ThreadRng {
    rand::thread_rng()
}

/// Relies on rand::Rng::gen: one byte drawn from the given random source,
/// uniformly distributed; nothing can be promised of the value.
#[verifier::external_body]
fn draw_byte(rng: &mut rand::rngs::ThreadRng) -> u8 {
    rand::Rng::gen(rng)
}

/// The mathematical state of the machine: what every contract speaks of.
/// `fb` is the frame buffer's on/off grid, row-major with width 64; `key` is
/// the pending key's code, if one is pending.
pub ghost struct VmView {
    pub pc: u16,
    pub regs: Seq<u8>,
    pub i: u16,
    pub mem: Seq<u8>,
    pub stack: Seq<u16>,
    pub dt: u8,
    pub st: u8,
    pub fb: Seq<bool>,
    pub key: Option<u8>,
}

/// The machine. The pending key is a plain field so that any host design can
/// supply it: a single-threaded loop writes it before each cycle, a decoupled
/// host writes whatever its input channel last carried.
pub struct Vm {
    pub pc: u16,
    pub stack: Stack,
    pub memory: Memory,
    pub registers: Registers,
    pub st: u8,
    pub dt: u8,
    pub frame_buffer: FrameBuffer,
    pub key: Option<Key>,
    pub rng: rand::rngs::ThreadRng,
}

impl View for Vm {
    type V = VmView;

    open spec fn view(&self) -> VmView {
        VmView {
            pc: self.pc,
            regs: self.registers@,
            i: self.registers.i,
            mem: self.memory@,
            stack: self.stack@,
            dt: self.dt,
            st: self.st,
            fb: self.frame_buffer@,
            key: match self.key {
                Some(k) => Some(k.spec_code()),
                None => None,
            },
        }
    }
}

/// Memory written by copying `rom` verbatim starting at address 0x200, each
/// byte at its address reduced modulo the memory length: a ROM exceeding the
/// remaining memory silently wraps. `k` bytes have been copied.
pub open spec fn load_rom_spec(mem: Seq<u8>, rom: Seq<u8>, k: nat) -> Seq<u8>
    decreases k,
{
    if k == 0 {
        mem
    } else {
        load_rom_spec(mem, rom, (k - 1) as nat).update(
            (0x200 + (k - 1)) % (MEMORY_LENGTH as int),
            rom[k - 1],
        )
    }
}

/// The two bytes at the program counter, big-endian, the second address
/// reduced modulo the memory length.
pub open spec fn spec_fetch(v: VmView) -> u16
    recommends
        v.mem.len() == MEMORY_LENGTH,
        v.pc < MEMORY_LENGTH,
{
    ((v.mem[v.pc as int] as u16) << 8) | (v.mem[(v.pc + 1) as int % (MEMORY_LENGTH as int)] as u16)
}

impl Vm {
    pub open spec fn wf(&self) -> bool {
        &&& self.pc < MEMORY_LENGTH
        &&& self.memory.wf()
        &&& self.registers.wf()
        &&& self.stack.wf()
        &&& self.frame_buffer.wf()
        &&& self.frame_buffer.spec_width() == WIDTH
        &&& self.frame_buffer.spec_height() == HEIGHT
    }

    /// A fresh machine: program counter at 0x200, every register, timer,
    /// memory cell and frame-buffer cell zero, empty stack, no pending key.
    pub fn new() -> (r: Vm)
        ensures
            r.wf(),
            r@.pc == 0x200,
            r@.i == 0,
            r@.dt == 0,
            r@.st == 0,
            r@.key is None,
            r@.stack == Seq::<u16>::empty(),
            forall|a: int| 0 <= a < MEMORY_LENGTH ==> r@.mem[a] == 0u8,
            forall|n: int| 0 <= n < 16 ==> r@.regs[n] == 0u8,
            forall|l: int| 0 <= l < r@.fb.len() ==> !r@.fb[l],
    {
        Vm {
            pc: 0x200,
            stack: Stack::new(),
            memory: Memory::new(),
            registers: Registers::new(),
            st: 0,
            dt: 0,
            frame_buffer: FrameBuffer::new(WIDTH, HEIGHT),
            key: None,
            rng: fresh_rng(),
        }
    }

    /// Copy `rom` into memory starting at address 0x200, with no length
    /// validation: addresses wrap modulo the memory length.
    pub fn load_rom(&mut self, rom: &[u8])
        requires
            old(self).wf(),
        ensures
            final(self).wf(),
            final(self)@ == (VmView { mem: load_rom_spec(old(self)@.mem, rom@, rom@.len()), ..old(self)@ }),
    {
        let n = rom.len();
        let mut addr: u16 = 0x200;
        for j in 0..n
            invariant
                self.memory.wf(),
                addr == (0x200 + j) % (MEMORY_LENGTH as int),
                self.memory@ == load_rom_spec(old(self)@.mem, rom@, j as nat),
                rom@.len() == n,
                self.pc == old(self).pc,
                self.stack == old(self).stack,
                self.registers == old(self).registers,
                self.st == old(self).st,
                self.dt == old(self).dt,
                self.frame_buffer == old(self).frame_buffer,
                self.key == old(self).key,
        {
            proof {
                vstd::arithmetic::div_mod::lemma_mod_bound(0x200 + j as int, MEMORY_LENGTH as int);
            }
            self.memory.write(addr, rom[j]);
            proof {
                vstd::arithmetic::div_mod::lemma_small_mod(1nat, MEMORY_LENGTH as nat);
                vstd::arithmetic::div_mod::lemma_add_mod_noop(
                    0x200 + j as int,
                    1int,
                    MEMORY_LENGTH as int,
                );
                if addr == 4095 {
                    vstd::arithmetic::div_mod::lemma_mod_self_0(MEMORY_LENGTH as int);
                } else {
                    vstd::arithmetic::div_mod::lemma_small_mod(
                        (addr + 1) as nat,
                        MEMORY_LENGTH as nat,
                    );
                }
            }
            addr = if addr == 4095 {
                0
            } else {
                addr + 1
            };
        }
    }

    /// Read the two bytes at the program counter, big-endian, without
    /// advancing the counter.
    pub fn fetch(&self) -> (r: u16)
        requires
            self.wf(),
        ensures
            r == spec_fetch(self@),
    {
        let hi = self.memory.read(self.pc);
        let lo = self.memory.read(self.pc + 1);
        ((hi as u16) << 8) | (lo as u16)
    }

    /// Execute exactly one decoded opcode as a single atomic step: timers
    /// tick, the opcode's effect applies, and the program counter is reduced
    /// modulo the memory length. Fails exactly on a call with a full stack or
    /// a return with an empty stack; the caller must stop feeding cycles
    /// after an error.
    pub fn execute(&mut self, opcode: Opcode) -> (r: Result<(), &'static str>)
        requires
            old(self).wf(),
        ensures
            final(self).wf(),
            r is Ok <==> cpu::step_ok(old(self)@, opcode),
            r is Ok ==> exists|b: u8| final(self)@ == cpu::step(old(self)@, opcode, b),
            !(opcode matches Opcode::RND(_, _)) && r is Ok ==> final(self)@ == cpu::step(
                old(self)@,
                opcode,
                0,
            ),
            r is Err ==> final(self)@ == cpu::tick(old(self)@),
            opcode matches Opcode::CALL(_) && old(self)@.stack.len() >= crate::vm::stack::SIZE
                ==> (r matches Err(m) && m@ == "stack overflow"@),
            opcode == Opcode::RET && old(self)@.stack.len() == 0 ==> (r matches Err(m) && m@
                == "stack empty"@),
    {
        cpu::execute(self, opcode)
    }

    /// Draw one byte from the machine's random source. Uniformly distributed;
    /// no contract pins the value, so callers hold for every outcome.
    pub fn rand(&mut self) -> (r: u8)
        ensures
            final(self).pc == old(self).pc,
            final(self).stack == old(self).stack,
            final(self).memory == old(self).memory,
            final(self).registers == old(self).registers,
            final(self).st == old(self).st,
            final(self).dt == old(self).dt,
            final(self).frame_buffer == old(self).frame_buffer,
            final(self).key == old(self).key,
    {
        draw_byte(&mut self.rng)
    }

    /// The pending key, if the host has supplied one for this cycle.
    pub fn try_key(&mut self) -> (r: Option<Key>)
        ensures
            r == old(self).key,
            *final(self) == *old(self),
    {
        self.key
    }

    /// Decrement both countdown timers by one, floored at zero.
    pub fn update_timers(&mut self)
        ensures
            final(self).dt == (if old(self).dt > 0 { (old(self).dt - 1) as u8 } else { 0u8 }),
            final(self).st == (if old(self).st > 0 { (old(self).st - 1) as u8 } else { 0u8 }),
            final(self).pc == old(self).pc,
            final(self).stack == old(self).stack,
            final(self).memory == old(self).memory,
            final(self).registers == old(self).registers,
            final(self).frame_buffer == old(self).frame_buffer,
            final(self).key == old(self).key,
    {
        if self.st > 0 {
            self.st = self.st - 1;
        }
        if self.dt > 0 {
            self.dt = self.dt - 1;
        }
    }
}

} // verus!
