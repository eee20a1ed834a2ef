//! The CPU core: machine state, addressing-mode resolution, the status
//! register, the stack discipline and the single-step execution operation.
//!
//! All behaviour is stated against a ghost [`Machine`] model (the view of
//! [`CPU`]); `spec_step` is the instruction-set semantics, and
//! `emulate_cycle` is proved to implement it exactly.

use vstd::prelude::*;

use crate::utils::{get_high_byte, get_low_byte, make_word, spec_high_byte, spec_low_byte,
    spec_word};

verus! {

/// Size of the flat address space: every 16-bit address is valid, so memory
/// accesses wrap within the space rather than faulting.
pub const MEM_SIZE: usize = 0x10000;

/// Base address of the one-page stack region.
pub const STACK_BASE: u16 = 0x0100;

/// Number of bytes loaded at the upper program bank.
pub const BANK_SIZE: usize = 16384;

/// Carry flag bit of the status register.
pub const FLAG_CARRY: u8 = 0x01;

/// Zero flag bit of the status register.
pub const FLAG_ZERO: u8 = 0x02;

/// Interrupt-disable flag bit of the status register.
pub const FLAG_IRQ_DISABLE: u8 = 0x04;

/// Decimal flag bit; semantically inert, kept for bit accuracy.
pub const FLAG_DECIMAL: u8 = 0x08;

/// Break flag bit of the status register.
pub const FLAG_BREAK: u8 = 0x10;

/// Reserved bit of the status register; set high at reset.
pub const FLAG_RESERVED: u8 = 0x20;

/// Overflow flag bit of the status register.
pub const FLAG_OVERFLOW: u8 = 0x40;

/// Negative flag bit of the status register.
pub const FLAG_NEGATIVE: u8 = 0x80;

/// The largest cycle cost any single instruction can incur; callers keep
/// this much headroom in the cycle counter.
pub const MAX_STEP_CYCLES: u64 = 6;

/// Rule for locating an instruction's operand.
#[derive(Clone, Copy)]
pub enum AddressMode {
    Immediate,
    ZeroPage,
    ZeroPageX,
    ZeroPageY,
    Relative,
    Absolute,
    AbsoluteX,
    AbsoluteY,
    Indirect,
    IndexedIndirect,
    IndirectIndexed,
}

/// Ghost model of the whole machine state; the view of [`CPU`].
#[verifier::ext_equal]
pub struct Machine {
    pub memory: Seq<u8>,
    pub p: u8,
    pub a: u8,
    pub x: u8,
    pub y: u8,
    pub s: u8,
    pub pc: u16,
    pub addr: u16,
    pub val: u8,
    pub cycle_counter: u64,
}

impl Machine {
    /// The memory image always covers the full address space.
    pub open spec fn wf(self) -> bool {
        self.memory.len() == MEM_SIZE
    }
}

/// The CPU state aggregate: memory, registers, status flags, stack pointer,
/// program counter, decoded-operand scratch fields and the cycle counter.
pub struct CPU {
    pub memory: Vec<u8>,
    /// Status register.
    pub p: u8,
    /// Accumulator.
    pub a: u8,
    /// Index register X.
    pub x: u8,
    /// Index register Y.
    pub y: u8,
    /// Stack pointer: an offset into the stack page, wrapping modulo 256.
    pub s: u8,
    /// Program counter.
    pub pc: u16,
    /// Resolved effective address of the current operand.
    pub addr: u16,
    /// Resolved immediate/operand value of the current instruction.
    pub val: u8,
    /// Total elapsed cycles.
    pub cycle_counter: u64,
}

impl View for CPU {
    type V = Machine;

    open spec fn view(&self) -> Machine {
        Machine {
            memory: self.memory@,
            p: self.p,
            a: self.a,
            x: self.x,
            y: self.y,
            s: self.s,
            pc: self.pc,
            addr: self.addr,
            val: self.val,
            cycle_counter: self.cycle_counter,
        }
    }
}

impl CPU {
    pub open spec fn wf(&self) -> bool {
        self@.wf()
    }

    /// A fresh core with every register, flag and memory byte zeroed.
    pub fn new() -> (cpu: Self)
        ensures
            cpu.wf(),
            cpu@.p == 0 && cpu@.a == 0 && cpu@.x == 0 && cpu@.y == 0 && cpu@.s == 0,
            cpu@.pc == 0 && cpu@.addr == 0 && cpu@.val == 0 && cpu@.cycle_counter == 0,
            forall|j: int| 0 <= j < MEM_SIZE ==> cpu@.memory[j] == 0,
    {
        let mut memory: Vec<u8> = Vec::new();
        while memory.len() < MEM_SIZE
            invariant
                memory@.len() <= MEM_SIZE,
                forall|j: int| 0 <= j < memory@.len() ==> memory@[j] == 0,
            decreases MEM_SIZE - memory@.len(),
        {
            memory.push(0);
        }
        CPU {
            memory,
            p: 0,
            a: 0,
            x: 0,
            y: 0,
            s: 0,
            pc: 0,
            addr: 0,
            val: 0,
            cycle_counter: 0,
        }
    }

    /// Memory byte at an address; every 16-bit address is in range.
    fn mem_at(&self, address: u16) -> (b: u8)
        requires
            self.wf(),
        ensures
            b == self@.memory[address as int],
    {
        self.memory[address as usize]
    }

    /// Writes one memory byte.
    fn mem_set(&mut self, address: u16, b: u8)
        requires
            old(self).wf(),
        ensures
            final(self).wf(),
            final(self)@ == (Machine {
                memory: old(self)@.memory.update(address as int, b),
                ..old(self)@
            }),
    {
        self.memory[address as usize] = b;
    }

    /// Pushes one byte: writes it at the stack page offset by the stack
    /// pointer, then decrements the pointer, wrapping modulo 256.
    pub fn push_stack(&mut self, b: u8)
        requires
            old(self).wf(),
        ensures
            final(self).wf(),
            final(self)@ == spec_push_m(old(self)@, b),
    {
        let slot = STACK_BASE + (self.s as u16);
        self.mem_set(slot, b);
        self.s = self.s.wrapping_sub(1);
    }

    /// Pops one byte: increments the stack pointer, wrapping modulo 256,
    /// then reads the byte at the resulting stack page offset.
    pub fn pop_stack(&mut self) -> (b: u8)
        requires
            old(self).wf(),
        ensures
            final(self).wf(),
            final(self)@ == (Machine { s: old(self)@.s.wrapping_add(1), ..old(self)@ }),
            b == spec_pop(old(self)@.memory, old(self)@.s).0,
    {
        self.s = self.s.wrapping_add(1);
        self.mem_at(STACK_BASE + (self.s as u16))
    }

    /// Sets Zero if the operand value is 0 and clears it otherwise; sets
    /// Negative if bit 7 of the operand value is set and clears it
    /// otherwise.  No other status bit is disturbed.
    pub fn set_zero_negative_flags(&mut self)
        ensures
            final(self)@ == (Machine { p: spec_set_zn(old(self)@.p, old(self)@.val), ..old(self)@ }),
    {
        if self.val == 0 {
            self.p = self.p | FLAG_ZERO;
        } else {
            self.p = self.p & !FLAG_ZERO;
        }
        if self.val & 0x80 == 0x80 {
            self.p = self.p | FLAG_NEGATIVE;
        } else {
            self.p = self.p & !FLAG_NEGATIVE;
        }
    }

    /// Target of a relative branch: the signed 8-bit offset added to the
    /// program counter, which already points past the branch instruction.
    fn branch_target(pc: u16, offset: u8) -> (t: u16)
        ensures
            t == spec_branch_target(pc, offset),
    {
        let ext: u16 = if offset >= 0x80 {
            (offset as u16) | 0xFF00
        } else {
            offset as u16
        };
        proof {
            assert(((offset as u16) | 0xFF00) == (offset as u16) + 0xFF00) by (bit_vector);
            lemma_branch_wrap(pc, offset, ext);
        }
        pc.wrapping_add(ext)
    }
}

/// The stack page index a stack pointer value refers to.
pub open spec fn stack_slot(s: u8) -> int {
    STACK_BASE + s as int
}

/// Effect of one push on the stack region: the byte lands at the current
/// slot and the pointer moves down, wrapping modulo 256.
pub open spec fn spec_push(mem: Seq<u8>, s: u8, b: u8) -> (Seq<u8>, u8) {
    (mem.update(stack_slot(s), b), s.wrapping_sub(1))
}

/// Effect of one pop: the pointer moves up, wrapping modulo 256, and the
/// byte at the resulting slot is returned.  Memory is not changed.
pub open spec fn spec_pop(mem: Seq<u8>, s: u8) -> (u8, u8) {
    (mem[stack_slot(s.wrapping_add(1))], s.wrapping_add(1))
}

/// One push, on the whole machine state.
pub open spec fn spec_push_m(m: Machine, b: u8) -> Machine {
    Machine { memory: spec_push(m.memory, m.s, b).0, s: spec_push(m.memory, m.s, b).1, ..m }
}

/// Zero/Negative update for a result byte, leaving all other bits alone.
pub open spec fn spec_set_zn(p: u8, v: u8) -> u8 {
    let pz = if v == 0 {
        p | FLAG_ZERO
    } else {
        p & !FLAG_ZERO
    };
    if v & 0x80 == 0x80 {
        pz | FLAG_NEGATIVE
    } else {
        pz & !FLAG_NEGATIVE
    }
}

/// Whether every bit of `mask` is set in `p`.
pub open spec fn spec_flag_set(p: u8, mask: u8) -> bool {
    p & mask == mask
}

/// Whether every bit of `mask` is clear in `p`.
pub open spec fn spec_flag_clear(p: u8, mask: u8) -> bool {
    p & mask == 0
}

/// A branch offset byte read as a signed 8-bit value.
pub open spec fn spec_signed(offset: u8) -> int {
    if offset >= 0x80 {
        offset as int - 256
    } else {
        offset as int
    }
}

/// An integer reduced into the 16-bit address space.
pub open spec fn wrap16(x: int) -> u16 {
    (x % 0x10000) as u16
}

/// Where a taken branch lands: program counter plus the signed offset,
/// wrapping within the address space.
pub open spec fn spec_branch_target(pc: u16, offset: u8) -> u16 {
    wrap16(pc as int + spec_signed(offset))
}

/// Adding the unsigned 16-bit sign extension of the offset, modulo 2^16,
/// is the same as adding the signed offset.
proof fn lemma_branch_wrap(pc: u16, offset: u8, ext: u16)
    requires
        offset >= 0x80 ==> ext == offset + 0xFF00,
        offset < 0x80 ==> ext == offset,
    ensures
        pc.wrapping_add(ext) == spec_branch_target(pc, offset),
{
    let d = pc as int + spec_signed(offset);
    vstd::arithmetic::div_mod::lemma_mod_add_multiples_vanish(d, 0x10000);
    if 0 <= d < 0x10000 {
        vstd::arithmetic::div_mod::lemma_small_mod(d as nat, 0x10000);
    } else if d < 0 {
        vstd::arithmetic::div_mod::lemma_small_mod((d + 0x10000) as nat, 0x10000);
    } else {
        vstd::arithmetic::div_mod::lemma_small_mod((d - 0x10000) as nat, 0x10000);
        vstd::arithmetic::div_mod::lemma_mod_add_multiples_vanish(d - 0x10000, 0x10000);
    }
}

/// Total length in bytes of an instruction using a mode: opcode plus
/// operand bytes.
pub open spec fn spec_instr_len(mode: AddressMode) -> u16 {
    match mode {
        AddressMode::Absolute => 3,
        AddressMode::AbsoluteX => 3,
        AddressMode::AbsoluteY => 3,
        AddressMode::Indirect => 3,
        _ => 2,
    }
}

/// Program counter advanced past an instruction with an operand.
pub open spec fn spec_advance(m: Machine, mode: AddressMode) -> Machine {
    Machine { pc: m.pc.wrapping_add(spec_instr_len(mode)), ..m }
}

/// Program counter advanced past a one-byte (implied-mode) instruction.
pub open spec fn spec_advance_one(m: Machine) -> Machine {
    Machine { pc: m.pc.wrapping_add(1), ..m }
}

/// The operand byte, directly after the opcode.
pub open spec fn spec_operand_byte(m: Machine) -> u8 {
    m.memory[m.pc.wrapping_add(1) as int]
}

/// The little-endian 16-bit operand after the opcode.
pub open spec fn spec_operand_word(m: Machine) -> u16 {
    spec_word(m.memory[m.pc.wrapping_add(2) as int], m.memory[m.pc.wrapping_add(1) as int])
}

/// A little-endian word read from the zero page, the second byte wrapping
/// within the page.
pub open spec fn spec_zp_word(mem: Seq<u8>, zp: u8) -> u16 {
    spec_word(mem[zp.wrapping_add(1) as int], mem[zp as int])
}

/// The address one past `ptr` within the same 256-byte page: when the low
/// byte is 0xFF the increment wraps back to offset 0 of the page instead
/// of carrying into the next page.
pub open spec fn spec_same_page_next(ptr: u16) -> u16 {
    if ptr & 0x00FF == 0x00FF {
        ptr & 0xFF00
    } else {
        (ptr + 1) as u16
    }
}

/// Target of an indirect jump: the little-endian word at `ptr`, the high
/// byte fetched from the start of the same page when the pointer's low
/// byte is 0xFF (the hardware's page-wrap quirk).
pub open spec fn spec_indirect_target(mem: Seq<u8>, ptr: u16) -> u16 {
    spec_word(mem[spec_same_page_next(ptr) as int], mem[ptr as int])
}

/// The effective address and operand value a mode resolves to; for the
/// value-only modes (immediate, relative) the scratch address is kept.
pub open spec fn spec_resolve(m: Machine, mode: AddressMode) -> (u16, u8) {
    match mode {
        AddressMode::Immediate => (m.addr, spec_operand_byte(m)),
        AddressMode::Relative => (m.addr, spec_operand_byte(m)),
        AddressMode::ZeroPage => {
            let a = spec_operand_byte(m) as u16;
            (a, m.memory[a as int])
        },
        AddressMode::ZeroPageX => {
            let a = spec_operand_byte(m).wrapping_add(m.x) as u16;
            (a, m.memory[a as int])
        },
        AddressMode::ZeroPageY => {
            let a = spec_operand_byte(m).wrapping_add(m.y) as u16;
            (a, m.memory[a as int])
        },
        AddressMode::Absolute => {
            let a = spec_operand_word(m);
            (a, m.memory[a as int])
        },
        AddressMode::AbsoluteX => {
            let a = spec_operand_word(m).wrapping_add(m.x as u16);
            (a, m.memory[a as int])
        },
        AddressMode::AbsoluteY => {
            let a = spec_operand_word(m).wrapping_add(m.y as u16);
            (a, m.memory[a as int])
        },
        AddressMode::Indirect => {
            let a = spec_indirect_target(m.memory, spec_operand_word(m));
            (a, m.memory[a as int])
        },
        AddressMode::IndexedIndirect => {
            let a = spec_zp_word(m.memory, spec_operand_byte(m).wrapping_add(m.x));
            (a, m.memory[a as int])
        },
        AddressMode::IndirectIndexed => {
            let a = spec_zp_word(m.memory, spec_operand_byte(m)).wrapping_add(m.y as u16);
            (a, m.memory[a as int])
        },
    }
}

/// Scratch fields after resolution, everything else untouched.
pub open spec fn spec_with_operand(m: Machine, mode: AddressMode) -> Machine {
    Machine { addr: spec_resolve(m, mode).0, val: spec_resolve(m, mode).1, ..m }
}

/// Operand resolved, then the program counter advanced past the
/// instruction, as the hardware does before the handler runs.
pub open spec fn spec_fetch(m: Machine, mode: AddressMode) -> Machine {
    spec_advance(spec_with_operand(m, mode), mode)
}

/// Cycle counter after an instruction of cost `n`.
pub open spec fn spec_tick(m: Machine, n: u64) -> Machine {
    Machine { cycle_counter: (m.cycle_counter + n) as u64, ..m }
}

/// Memory after a program image is loaded: a full bank sits at the upper
/// bank alone; a shorter image is mirrored into both banks; every other
/// byte keeps its old value.
pub open spec fn spec_loaded_mem(mem: Seq<u8>, rom: Seq<u8>) -> Seq<u8> {
    Seq::new(
        mem.len(),
        |j: int|
            if 0xC000 <= j < 0xC000 + rom.len() {
                rom[j - 0xC000]
            } else if rom.len() < BANK_SIZE && 0x8000 <= j < 0x8000 + rom.len() {
                rom[j - 0x8000]
            } else {
                mem[j]
            },
    )
}

/// CLC: clear the carry flag.
pub open spec fn spec_clc(m: Machine) -> Machine {
    Machine { p: m.p & !FLAG_CARRY, ..m }
}

/// SEC: set the carry flag.
pub open spec fn spec_sec(m: Machine) -> Machine {
    Machine { p: m.p | FLAG_CARRY, ..m }
}

/// LDA: the resolved operand value into the accumulator, Zero/Negative
/// updated from it.
pub open spec fn spec_lda(m: Machine) -> Machine {
    Machine { a: m.val, p: spec_set_zn(m.p, m.val), ..m }
}

/// LDX: the resolved operand value into X, Zero/Negative updated from it.
pub open spec fn spec_ldx(m: Machine) -> Machine {
    Machine { x: m.val, p: spec_set_zn(m.p, m.val), ..m }
}

/// STA: the accumulator into memory at the effective address; no flags.
pub open spec fn spec_sta(m: Machine) -> Machine {
    Machine { memory: m.memory.update(m.addr as int, m.a), ..m }
}

/// STX: X into memory at the effective address; no flags.
pub open spec fn spec_stx(m: Machine) -> Machine {
    Machine { memory: m.memory.update(m.addr as int, m.x), ..m }
}

/// ADC: add the operand value and the carry flag into the accumulator.
/// Carry comes from the full 9-bit sum; overflow is set by the
/// sign-agreement rule: the operands' sign bits agree and differ from
/// the result's sign bit.  Zero/Negative come from the result.
pub open spec fn spec_adc(m: Machine) -> Machine {
    let sum = m.a + m.val + (if spec_flag_set(m.p, FLAG_CARRY) {
        1int
    } else {
        0int
    });
    let result = (sum % 256) as u8;
    let p1 = if sum > 0xFF {
        m.p | FLAG_CARRY
    } else {
        m.p & !FLAG_CARRY
    };
    let p2 = if m.a & 0x80 == m.val & 0x80 && m.a & 0x80 != result & 0x80 {
        p1 | FLAG_OVERFLOW
    } else {
        p1 & !FLAG_OVERFLOW
    };
    Machine { a: result, p: spec_set_zn(p2, result), ..m }
}

/// JMP: program counter set to the effective address.
pub open spec fn spec_jmp(m: Machine) -> Machine {
    Machine { pc: m.addr, ..m }
}

/// JSR: the address of the call instruction's last byte pushed high byte
/// first, then the jump; the return instruction compensates for the
/// off-by-one.
pub open spec fn spec_jsr(m: Machine) -> Machine {
    let ret = m.pc.wrapping_sub(1);
    let m1 = spec_push_m(m, spec_high_byte(ret));
    let m2 = spec_push_m(m1, spec_low_byte(ret));
    Machine { pc: m.addr, ..m2 }
}

/// RTS: low byte popped first, then high; the reconstructed address plus
/// one becomes the program counter.
pub open spec fn spec_rts(m: Machine) -> Machine {
    let lo = spec_pop(m.memory, m.s).0;
    let s1 = spec_pop(m.memory, m.s).1;
    let hi = spec_pop(m.memory, s1).0;
    let s2 = spec_pop(m.memory, s1).1;
    Machine { pc: spec_word(hi, lo).wrapping_add(1), s: s2, ..m }
}

/// A conditional branch: taken, the signed offset moves the program
/// counter; not taken, nothing changes.
pub open spec fn spec_branch(m: Machine, take: bool) -> Machine {
    if take {
        Machine { pc: spec_branch_target(m.pc, m.val), ..m }
    } else {
        m
    }
}

/// The opcodes this core implements; any other value is a fatal condition
/// the driver must stop on.
pub open spec fn spec_opcode_supported(op: u8) -> bool {
    match op {
        0x10 | 0x18 | 0x20 | 0x30 | 0x38 | 0x4C | 0x50 | 0x60 | 0x61 | 0x65 | 0x69 | 0x6C
            | 0x6D | 0x70 | 0x71 | 0x75 | 0x79 | 0x7D | 0x85 | 0x86 | 0x90 | 0xA1 | 0xA2
            | 0xA5 | 0xA6 | 0xA9 | 0xAD | 0xAE | 0xB0 | 0xB1 | 0xB5 | 0xB6 | 0xB9 | 0xBD
            | 0xBE | 0xD0 | 0xEA | 0xF0 => true,
        _ => false,
    }
}

/// One fetched, decoded and executed instruction and its cycle cost: the
/// instruction-set semantics that `emulate_cycle` implements.
pub open spec fn spec_step(m: Machine) -> (Machine, u64) {
    let op = m.memory[m.pc as int];
    match op {
        0x10 => spec_step_branch(m, spec_flag_clear(m.p, FLAG_NEGATIVE)),
        0x18 => (spec_tick(spec_clc(spec_advance_one(m)), 2), 2),
        0x20 => (spec_tick(spec_jsr(spec_fetch(m, AddressMode::Absolute)), 6), 6),
        0x30 => spec_step_branch(m, spec_flag_set(m.p, FLAG_NEGATIVE)),
        0x38 => (spec_tick(spec_sec(spec_advance_one(m)), 2), 2),
        0x4C => (spec_tick(spec_jmp(spec_fetch(m, AddressMode::Absolute)), 3), 3),
        0x50 => spec_step_branch(m, spec_flag_clear(m.p, FLAG_OVERFLOW)),
        0x60 => (spec_tick(spec_rts(spec_advance_one(m)), 6), 6),
        0x61 => (spec_tick(spec_adc(spec_fetch(m, AddressMode::IndexedIndirect)), 6), 6),
        0x65 => (spec_tick(spec_adc(spec_fetch(m, AddressMode::ZeroPage)), 3), 3),
        0x69 => (spec_tick(spec_adc(spec_fetch(m, AddressMode::Immediate)), 2), 2),
        0x6C => (spec_tick(spec_jmp(spec_fetch(m, AddressMode::Indirect)), 5), 5),
        0x6D => (spec_tick(spec_adc(spec_fetch(m, AddressMode::Absolute)), 4), 4),
        0x70 => spec_step_branch(m, spec_flag_set(m.p, FLAG_OVERFLOW)),
        0x71 => (spec_tick(spec_adc(spec_fetch(m, AddressMode::IndirectIndexed)), 5), 5),
        0x75 => (spec_tick(spec_adc(spec_fetch(m, AddressMode::ZeroPageX)), 4), 4),
        0x79 => (spec_tick(spec_adc(spec_fetch(m, AddressMode::AbsoluteY)), 4), 4),
        0x7D => (spec_tick(spec_adc(spec_fetch(m, AddressMode::AbsoluteX)), 4), 4),
        0x85 => (spec_tick(spec_sta(spec_fetch(m, AddressMode::ZeroPage)), 3), 3),
        0x86 => (spec_tick(spec_stx(spec_fetch(m, AddressMode::ZeroPage)), 3), 3),
        0x90 => spec_step_branch(m, spec_flag_clear(m.p, FLAG_CARRY)),
        0xA1 => (spec_tick(spec_lda(spec_fetch(m, AddressMode::IndexedIndirect)), 6), 6),
        0xA2 => (spec_tick(spec_ldx(spec_fetch(m, AddressMode::Immediate)), 2), 2),
        0xA5 => (spec_tick(spec_lda(spec_fetch(m, AddressMode::ZeroPage)), 3), 3),
        0xA6 => (spec_tick(spec_ldx(spec_fetch(m, AddressMode::ZeroPage)), 3), 3),
        0xA9 => (spec_tick(spec_lda(spec_fetch(m, AddressMode::Immediate)), 2), 2),
        0xAD => (spec_tick(spec_lda(spec_fetch(m, AddressMode::Absolute)), 4), 4),
        0xAE => (spec_tick(spec_ldx(spec_fetch(m, AddressMode::Absolute)), 4), 4),
        0xB0 => spec_step_branch(m, spec_flag_set(m.p, FLAG_CARRY)),
        0xB1 => (spec_tick(spec_lda(spec_fetch(m, AddressMode::IndirectIndexed)), 5), 5),
        0xB5 => (spec_tick(spec_lda(spec_fetch(m, AddressMode::ZeroPageX)), 4), 4),
        0xB6 => (spec_tick(spec_ldx(spec_fetch(m, AddressMode::ZeroPageY)), 4), 4),
        0xB9 => (spec_tick(spec_lda(spec_fetch(m, AddressMode::AbsoluteY)), 4), 4),
        0xBD => (spec_tick(spec_lda(spec_fetch(m, AddressMode::AbsoluteX)), 4), 4),
        0xBE => (spec_tick(spec_ldx(spec_fetch(m, AddressMode::AbsoluteY)), 4), 4),
        0xD0 => spec_step_branch(m, spec_flag_clear(m.p, FLAG_ZERO)),
        0xEA => (spec_tick(spec_advance_one(m), 2), 2),
        0xF0 => spec_step_branch(m, spec_flag_set(m.p, FLAG_ZERO)),
        _ => (m, 0),
    }
}

/// One branch instruction: two cycles, one more when the branch is taken.
pub open spec fn spec_step_branch(m: Machine, take: bool) -> (Machine, u64) {
    let m1 = spec_fetch(m, AddressMode::Relative);
    let cost: u64 = if take {
        3
    } else {
        2
    };
    (spec_tick(spec_branch(m1, take), cost), cost)
}

impl CPU {
    /// Computes the scratch operand fields for a mode, reading operand
    /// bytes after the opcode at the current (not yet advanced) program
    /// counter.  Resolution never mutates registers, memory or the
    /// program counter; every mode is handled, so there is no
    /// unsupported-mode condition left to signal.
    fn resolve_operand(&mut self, mode: AddressMode)
        requires
            old(self).wf(),
        ensures
            final(self).wf(),
            final(self)@ == spec_with_operand(old(self)@, mode),
    {
        match mode {
            AddressMode::Immediate | AddressMode::Relative => {
                self.val = self.mem_at(self.pc.wrapping_add(1));
            },
            AddressMode::ZeroPage => {
                self.addr = self.mem_at(self.pc.wrapping_add(1)) as u16;
                self.val = self.mem_at(self.addr);
            },
            AddressMode::ZeroPageX => {
                self.addr = self.mem_at(self.pc.wrapping_add(1)).wrapping_add(self.x) as u16;
                self.val = self.mem_at(self.addr);
            },
            AddressMode::ZeroPageY => {
                self.addr = self.mem_at(self.pc.wrapping_add(1)).wrapping_add(self.y) as u16;
                self.val = self.mem_at(self.addr);
            },
            AddressMode::Absolute => {
                let low = self.mem_at(self.pc.wrapping_add(1));
                let high = self.mem_at(self.pc.wrapping_add(2));
                self.addr = make_word(high, low);
                self.val = self.mem_at(self.addr);
            },
            AddressMode::AbsoluteX => {
                let low = self.mem_at(self.pc.wrapping_add(1));
                let high = self.mem_at(self.pc.wrapping_add(2));
                self.addr = make_word(high, low).wrapping_add(self.x as u16);
                self.val = self.mem_at(self.addr);
            },
            AddressMode::AbsoluteY => {
                let low = self.mem_at(self.pc.wrapping_add(1));
                let high = self.mem_at(self.pc.wrapping_add(2));
                self.addr = make_word(high, low).wrapping_add(self.y as u16);
                self.val = self.mem_at(self.addr);
            },
            AddressMode::Indirect => {
                let low_ptr = self.mem_at(self.pc.wrapping_add(1));
                let high_ptr = self.mem_at(self.pc.wrapping_add(2));
                let pointer = make_word(high_ptr, low_ptr);
                let next = if pointer & 0x00FF == 0x00FF {
                    pointer & 0xFF00
                } else {
                    proof {
                        assert(pointer & 0x00FF != 0x00FF ==> pointer < 0xFFFF) by (bit_vector);
                    }
                    pointer + 1
                };
                let low = self.mem_at(pointer);
                let high = self.mem_at(next);
                self.addr = make_word(high, low);
                self.val = self.mem_at(self.addr);
            },
            AddressMode::IndexedIndirect => {
                let zp = self.mem_at(self.pc.wrapping_add(1)).wrapping_add(self.x);
                let low = self.mem_at(zp as u16);
                let high = self.mem_at(zp.wrapping_add(1) as u16);
                self.addr = make_word(high, low);
                self.val = self.mem_at(self.addr);
            },
            AddressMode::IndirectIndexed => {
                let zp = self.mem_at(self.pc.wrapping_add(1));
                let low = self.mem_at(zp as u16);
                let high = self.mem_at(zp.wrapping_add(1) as u16);
                self.addr = make_word(high, low).wrapping_add(self.y as u16);
                self.val = self.mem_at(self.addr);
            },
        }
    }

    /// Advances the program counter past the whole instruction, before the
    /// opcode handler runs, matching the chip's pre-increment semantics.
    fn increment_pc(&mut self, mode: AddressMode)
        ensures
            final(self)@ == spec_advance(old(self)@, mode),
    {
        match mode {
            AddressMode::Immediate => self.pc = self.pc.wrapping_add(2),
            AddressMode::ZeroPage => self.pc = self.pc.wrapping_add(2),
            AddressMode::ZeroPageX => self.pc = self.pc.wrapping_add(2),
            AddressMode::ZeroPageY => self.pc = self.pc.wrapping_add(2),
            AddressMode::Relative => self.pc = self.pc.wrapping_add(2),
            AddressMode::Absolute => self.pc = self.pc.wrapping_add(3),
            AddressMode::AbsoluteX => self.pc = self.pc.wrapping_add(3),
            AddressMode::AbsoluteY => self.pc = self.pc.wrapping_add(3),
            AddressMode::Indirect => self.pc = self.pc.wrapping_add(3),
            AddressMode::IndexedIndirect => self.pc = self.pc.wrapping_add(2),
            AddressMode::IndirectIndexed => self.pc = self.pc.wrapping_add(2),
        }
    }

    /// Adds an instruction's cycle cost to the running counter and hands
    /// the cost back for the caller to return.
    fn tick(&mut self, n: usize) -> (elapsed: usize)
        requires
            old(self)@.cycle_counter + n <= u64::MAX,
        ensures
            final(self)@ == spec_tick(old(self)@, n as u64),
            elapsed == n,
    {
        self.cycle_counter = self.cycle_counter + (n as u64);
        n
    }

    /// Whether this core implements an opcode; a driver must stop on any
    /// other value rather than silently skip it.
    pub fn opcode_supported(op: u8) -> (r: bool)
        ensures
            r == spec_opcode_supported(op),
    {
        match op {
            0x10 | 0x18 | 0x20 | 0x30 | 0x38 | 0x4C | 0x50 | 0x60 | 0x61 | 0x65 | 0x69 | 0x6C
                | 0x6D | 0x70 | 0x71 | 0x75 | 0x79 | 0x7D | 0x85 | 0x86 | 0x90 | 0xA1 | 0xA2
                | 0xA5 | 0xA6 | 0xA9 | 0xAD | 0xAE | 0xB0 | 0xB1 | 0xB5 | 0xB6 | 0xB9 | 0xBD
                | 0xBE | 0xD0 | 0xEA | 0xF0 => true,
            _ => false,
        }
    }

    fn oc_clc(&mut self)
        ensures
            final(self)@ == spec_clc(old(self)@),
    {
        self.p = self.p & !FLAG_CARRY;
    }

    fn oc_sec(&mut self)
        ensures
            final(self)@ == spec_sec(old(self)@),
    {
        self.p = self.p | FLAG_CARRY;
    }

    fn oc_nop(&mut self)
        ensures
            final(self)@ == old(self)@,
    {
    }

    fn oc_lda(&mut self)
        ensures
            final(self)@ == spec_lda(old(self)@),
    {
        self.set_zero_negative_flags();
        self.a = self.val;
    }

    fn oc_ldx(&mut self)
        ensures
            final(self)@ == spec_ldx(old(self)@),
    {
        self.set_zero_negative_flags();
        self.x = self.val;
    }

    fn oc_adc(&mut self)
        ensures
            final(self)@ == spec_adc(old(self)@),
    {
        let carry_in: u16 = if self.p & FLAG_CARRY == FLAG_CARRY {
            1
        } else {
            0
        };
        let sum: u16 = (self.a as u16) + (self.val as u16) + carry_in;
        proof {
            assert(sum & 0x00FF == sum % 256) by (bit_vector);
        }
        let result: u8 = (sum & 0x00FF) as u8;
        if sum > 0xFF {
            self.p = self.p | FLAG_CARRY;
        } else {
            self.p = self.p & !FLAG_CARRY;
        }
        if (self.a & 0x80) == (self.val & 0x80) && (self.a & 0x80) != (result & 0x80) {
            self.p = self.p | FLAG_OVERFLOW;
        } else {
            self.p = self.p & !FLAG_OVERFLOW;
        }
        if result == 0 {
            self.p = self.p | FLAG_ZERO;
        } else {
            self.p = self.p & !FLAG_ZERO;
        }
        if result & 0x80 == 0x80 {
            self.p = self.p | FLAG_NEGATIVE;
        } else {
            self.p = self.p & !FLAG_NEGATIVE;
        }
        self.a = result;
    }

    fn oc_sta(&mut self)
        requires
            old(self).wf(),
        ensures
            final(self).wf(),
            final(self)@ == spec_sta(old(self)@),
    {
        let a = self.a;
        self.mem_set(self.addr, a);
    }

    fn oc_stx(&mut self)
        requires
            old(self).wf(),
        ensures
            final(self).wf(),
            final(self)@ == spec_stx(old(self)@),
    {
        let x = self.x;
        self.mem_set(self.addr, x);
    }

    fn oc_jmp(&mut self)
        ensures
            final(self)@ == spec_jmp(old(self)@),
    {
        self.pc = self.addr;
    }

    fn oc_jsr(&mut self)
        requires
            old(self).wf(),
        ensures
            final(self).wf(),
            final(self)@ == spec_jsr(old(self)@),
    {
        let ret = self.pc.wrapping_sub(1);
        let high = get_high_byte(ret);
        let low = get_low_byte(ret);
        self.push_stack(high);
        self.push_stack(low);
        self.pc = self.addr;
    }

    fn oc_rts(&mut self)
        requires
            old(self).wf(),
        ensures
            final(self).wf(),
            final(self)@ == spec_rts(old(self)@),
    {
        let low = self.pop_stack();
        let high = self.pop_stack();
        self.pc = make_word(high, low).wrapping_add(1);
    }

    fn oc_bcc(&mut self) -> (taken: bool)
        ensures
            taken == spec_flag_clear(old(self)@.p, FLAG_CARRY),
            final(self)@ == spec_branch(old(self)@, spec_flag_clear(old(self)@.p, FLAG_CARRY)),
    {
        if self.p & FLAG_CARRY == 0x00 {
            self.pc = Self::branch_target(self.pc, self.val);
            true
        } else {
            false
        }
    }

    fn oc_bcs(&mut self) -> (taken: bool)
        ensures
            taken == spec_flag_set(old(self)@.p, FLAG_CARRY),
            final(self)@ == spec_branch(old(self)@, spec_flag_set(old(self)@.p, FLAG_CARRY)),
    {
        if self.p & FLAG_CARRY == FLAG_CARRY {
            self.pc = Self::branch_target(self.pc, self.val);
            true
        } else {
            false
        }
    }

    fn oc_beq(&mut self) -> (taken: bool)
        ensures
            taken == spec_flag_set(old(self)@.p, FLAG_ZERO),
            final(self)@ == spec_branch(old(self)@, spec_flag_set(old(self)@.p, FLAG_ZERO)),
    {
        if self.p & FLAG_ZERO == FLAG_ZERO {
            self.pc = Self::branch_target(self.pc, self.val);
            true
        } else {
            false
        }
    }

    fn oc_bne(&mut self) -> (taken: bool)
        ensures
            taken == spec_flag_clear(old(self)@.p, FLAG_ZERO),
            final(self)@ == spec_branch(old(self)@, spec_flag_clear(old(self)@.p, FLAG_ZERO)),
    {
        if self.p & FLAG_ZERO == 0x00 {
            self.pc = Self::branch_target(self.pc, self.val);
            true
        } else {
            false
        }
    }

    fn oc_bpl(&mut self) -> (taken: bool)
        ensures
            taken == spec_flag_clear(old(self)@.p, FLAG_NEGATIVE),
            final(self)@ == spec_branch(old(self)@, spec_flag_clear(old(self)@.p, FLAG_NEGATIVE)),
    {
        if self.p & FLAG_NEGATIVE == 0x00 {
            self.pc = Self::branch_target(self.pc, self.val);
            true
        } else {
            false
        }
    }

    fn oc_bmi(&mut self) -> (taken: bool)
        ensures
            taken == spec_flag_set(old(self)@.p, FLAG_NEGATIVE),
            final(self)@ == spec_branch(old(self)@, spec_flag_set(old(self)@.p, FLAG_NEGATIVE)),
    {
        if self.p & FLAG_NEGATIVE == FLAG_NEGATIVE {
            self.pc = Self::branch_target(self.pc, self.val);
            true
        } else {
            false
        }
    }

    fn oc_bvc(&mut self) -> (taken: bool)
        ensures
            taken == spec_flag_clear(old(self)@.p, FLAG_OVERFLOW),
            final(self)@ == spec_branch(old(self)@, spec_flag_clear(old(self)@.p, FLAG_OVERFLOW)),
    {
        if self.p & FLAG_OVERFLOW == 0x00 {
            self.pc = Self::branch_target(self.pc, self.val);
            true
        } else {
            false
        }
    }

    /// Copies a program image into memory and establishes the reset
    /// state: a full bank lands at the upper bank alone; a shorter image
    /// is mirrored into both banks.  The program counter goes to the
    /// reset vector, the status register to its reset value (reserved and
    /// interrupt-disable bits set) and the stack pointer to its
    /// documented reset value.
    pub fn load_rom(&mut self, rom: &Vec<u8>)
        requires
            old(self).wf(),
            rom@.len() <= BANK_SIZE,
        ensures
            final(self).wf(),
            final(self)@ == (Machine {
                memory: spec_loaded_mem(old(self)@.memory, rom@),
                pc: 0xC000,
                p: 0x24,
                s: 0xFD,
                ..old(self)@
            }),
    {
        if rom.len() == BANK_SIZE {
            let mut i: usize = 0;
            while i < rom.len()
                invariant
                    self.wf(),
                    rom@.len() == BANK_SIZE,
                    i <= rom@.len(),
                    self@ == (Machine { memory: self@.memory, ..old(self)@ }),
                    forall|j: int| #![auto] 0 <= j < MEM_SIZE ==> self@.memory[j] == (
                        if 0xC000 <= j < 0xC000 + i {
                            rom@[j - 0xC000]
                        } else {
                            old(self)@.memory[j]
                        }),
                decreases rom@.len() - i,
            {
                self.mem_set(0xC000 + (i as u16), rom[i]);
                i = i + 1;
            }
        } else {
            let mut i: usize = 0;
            while i < rom.len()
                invariant
                    self.wf(),
                    rom@.len() < BANK_SIZE,
                    i <= rom@.len(),
                    self@ == (Machine { memory: self@.memory, ..old(self)@ }),
                    forall|j: int| #![auto] 0 <= j < MEM_SIZE ==> self@.memory[j] == (
                        if 0x8000 <= j < 0x8000 + i {
                            rom@[j - 0x8000]
                        } else {
                            old(self)@.memory[j]
                        }),
                decreases rom@.len() - i,
            {
                self.mem_set(0x8000 + (i as u16), rom[i]);
                i = i + 1;
            }
            let mut k: usize = 0;
            while k < rom.len()
                invariant
                    self.wf(),
                    rom@.len() < BANK_SIZE,
                    k <= rom@.len(),
                    self@ == (Machine { memory: self@.memory, ..old(self)@ }),
                    forall|j: int| #![auto] 0 <= j < MEM_SIZE ==> self@.memory[j] == (
                        if 0xC000 <= j < 0xC000 + k {
                            rom@[j - 0xC000]
                        } else if 0x8000 <= j < 0x8000 + rom@.len() {
                            rom@[j - 0x8000]
                        } else {
                            old(self)@.memory[j]
                        }),
                decreases rom@.len() - k,
            {
                self.mem_set(0xC000 + (k as u16), rom[k]);
                k = k + 1;
            }
        }
        proof {
            assert(self@.memory =~= spec_loaded_mem(old(self)@.memory, rom@));
        }
        self.pc = 0xC000;
        self.p = 0x24;
        self.s = 0xFD;
    }

    /// Executes one instruction: fetches the opcode at the program
    /// counter, resolves its addressing mode, advances the program
    /// counter past the instruction, runs the handler and adds the cycle
    /// cost — exactly `spec_step`.  Returns the cycles this step took.
    ///
    /// An opcode this core does not implement is a fatal condition:
    /// callers must test `opcode_supported` first and stop, since
    /// guessing semantics would desynchronize all subsequent state.
    pub fn emulate_cycle(&mut self) -> (elapsed: usize)
        requires
            old(self).wf(),
            spec_opcode_supported(old(self)@.memory[old(self)@.pc as int]),
            old(self)@.cycle_counter + MAX_STEP_CYCLES <= u64::MAX,
        ensures
            final(self).wf(),
            final(self)@ == spec_step(old(self)@).0,
            elapsed as u64 == spec_step(old(self)@).1,
    {
        let opcode = self.mem_at(self.pc);
        match opcode {
            0x10 => {
                self.resolve_operand(AddressMode::Relative);
                self.increment_pc(AddressMode::Relative);
                let taken = self.oc_bpl();
                self.tick(if taken { 3 } else { 2 })
            },
            0x18 => {
                self.pc = self.pc.wrapping_add(1);
                self.oc_clc();
                self.tick(2)
            },
            0x20 => {
                self.resolve_operand(AddressMode::Absolute);
                self.increment_pc(AddressMode::Absolute);
                self.oc_jsr();
                self.tick(6)
            },
            0x30 => {
                self.resolve_operand(AddressMode::Relative);
                self.increment_pc(AddressMode::Relative);
                let taken = self.oc_bmi();
                self.tick(if taken { 3 } else { 2 })
            },
            0x38 => {
                self.pc = self.pc.wrapping_add(1);
                self.oc_sec();
                self.tick(2)
            },
            0x4C => {
                self.resolve_operand(AddressMode::Absolute);
                self.increment_pc(AddressMode::Absolute);
                self.oc_jmp();
                self.tick(3)
            },
            0x50 => {
                self.resolve_operand(AddressMode::Relative);
                self.increment_pc(AddressMode::Relative);
                let taken = self.oc_bvc();
                self.tick(if taken { 3 } else { 2 })
            },
            0x60 => {
                self.pc = self.pc.wrapping_add(1);
                self.oc_rts();
                self.tick(6)
            },
            0x61 => {
                self.resolve_operand(AddressMode::IndexedIndirect);
                self.increment_pc(AddressMode::IndexedIndirect);
                self.oc_adc();
                self.tick(6)
            },
            0x65 => {
                self.resolve_operand(AddressMode::ZeroPage);
                self.increment_pc(AddressMode::ZeroPage);
                self.oc_adc();
                self.tick(3)
            },
            0x69 => {
                self.resolve_operand(AddressMode::Immediate);
                self.increment_pc(AddressMode::Immediate);
                self.oc_adc();
                self.tick(2)
            },
            0x6C => {
                self.resolve_operand(AddressMode::Indirect);
                self.increment_pc(AddressMode::Indirect);
                self.oc_jmp();
                self.tick(5)
            },
            0x6D => {
                self.resolve_operand(AddressMode::Absolute);
                self.increment_pc(AddressMode::Absolute);
                self.oc_adc();
                self.tick(4)
            },
            0x71 => {
                self.resolve_operand(AddressMode::IndirectIndexed);
                self.increment_pc(AddressMode::IndirectIndexed);
                self.oc_adc();
                self.tick(5)
            },
            0x75 => {
                self.resolve_operand(AddressMode::ZeroPageX);
                self.increment_pc(AddressMode::ZeroPageX);
                self.oc_adc();
                self.tick(4)
            },
            0x79 => {
                self.resolve_operand(AddressMode::AbsoluteY);
                self.increment_pc(AddressMode::AbsoluteY);
                self.oc_adc();
                self.tick(4)
            },
            0x7D => {
                self.resolve_operand(AddressMode::AbsoluteX);
                self.increment_pc(AddressMode::AbsoluteX);
                self.oc_adc();
                self.tick(4)
            },
            0x70 => {
                self.resolve_operand(AddressMode::Relative);
                self.increment_pc(AddressMode::Relative);
                let taken = self.oc_bvs();
                self.tick(if taken { 3 } else { 2 })
            },
            0x85 => {
                self.resolve_operand(AddressMode::ZeroPage);
                self.increment_pc(AddressMode::ZeroPage);
                self.oc_sta();
                self.tick(3)
            },
            0x86 => {
                self.resolve_operand(AddressMode::ZeroPage);
                self.increment_pc(AddressMode::ZeroPage);
                self.oc_stx();
                self.tick(3)
            },
            0x90 => {
                self.resolve_operand(AddressMode::Relative);
                self.increment_pc(AddressMode::Relative);
                let taken = self.oc_bcc();
                self.tick(if taken { 3 } else { 2 })
            },
            0xA1 => {
                self.resolve_operand(AddressMode::IndexedIndirect);
                self.increment_pc(AddressMode::IndexedIndirect);
                self.oc_lda();
                self.tick(6)
            },
            0xA2 => {
                self.resolve_operand(AddressMode::Immediate);
                self.increment_pc(AddressMode::Immediate);
                self.oc_ldx();
                self.tick(2)
            },
            0xA5 => {
                self.resolve_operand(AddressMode::ZeroPage);
                self.increment_pc(AddressMode::ZeroPage);
                self.oc_lda();
                self.tick(3)
            },
            0xA6 => {
                self.resolve_operand(AddressMode::ZeroPage);
                self.increment_pc(AddressMode::ZeroPage);
                self.oc_ldx();
                self.tick(3)
            },
            0xA9 => {
                self.resolve_operand(AddressMode::Immediate);
                self.increment_pc(AddressMode::Immediate);
                self.oc_lda();
                self.tick(2)
            },
            0xAD => {
                self.resolve_operand(AddressMode::Absolute);
                self.increment_pc(AddressMode::Absolute);
                self.oc_lda();
                self.tick(4)
            },
            0xAE => {
                self.resolve_operand(AddressMode::Absolute);
                self.increment_pc(AddressMode::Absolute);
                self.oc_ldx();
                self.tick(4)
            },
            0xB0 => {
                self.resolve_operand(AddressMode::Relative);
                self.increment_pc(AddressMode::Relative);
                let taken = self.oc_bcs();
                self.tick(if taken { 3 } else { 2 })
            },
            0xB1 => {
                self.resolve_operand(AddressMode::IndirectIndexed);
                self.increment_pc(AddressMode::IndirectIndexed);
                self.oc_lda();
                self.tick(5)
            },
            0xB5 => {
                self.resolve_operand(AddressMode::ZeroPageX);
                self.increment_pc(AddressMode::ZeroPageX);
                self.oc_lda();
                self.tick(4)
            },
            0xB6 => {
                self.resolve_operand(AddressMode::ZeroPageY);
                self.increment_pc(AddressMode::ZeroPageY);
                self.oc_ldx();
                self.tick(4)
            },
            0xB9 => {
                self.resolve_operand(AddressMode::AbsoluteY);
                self.increment_pc(AddressMode::AbsoluteY);
                self.oc_lda();
                self.tick(4)
            },
            0xBD => {
                self.resolve_operand(AddressMode::AbsoluteX);
                self.increment_pc(AddressMode::AbsoluteX);
                self.oc_lda();
                self.tick(4)
            },
            0xBE => {
                self.resolve_operand(AddressMode::AbsoluteY);
                self.increment_pc(AddressMode::AbsoluteY);
                self.oc_ldx();
                self.tick(4)
            },
            0xD0 => {
                self.resolve_operand(AddressMode::Relative);
                self.increment_pc(AddressMode::Relative);
                let taken = self.oc_bne();
                self.tick(if taken { 3 } else { 2 })
            },
            0xEA => {
                self.pc = self.pc.wrapping_add(1);
                self.oc_nop();
                self.tick(2)
            },
            0xF0 => {
                self.resolve_operand(AddressMode::Relative);
                self.increment_pc(AddressMode::Relative);
                let taken = self.oc_beq();
                self.tick(if taken { 3 } else { 2 })
            },
            _ => unreached(),
        }
    }

    fn oc_bvs(&mut self) -> (taken: bool)
        ensures
            taken == spec_flag_set(old(self)@.p, FLAG_OVERFLOW),
            final(self)@ == spec_branch(old(self)@, spec_flag_set(old(self)@.p, FLAG_OVERFLOW)),
    {
        if self.p & FLAG_OVERFLOW == FLAG_OVERFLOW {
            self.pc = Self::branch_target(self.pc, self.val);
            true
        } else {
            false
        }
    }
}

/// Memory and stack pointer after pushing a whole sequence of bytes, in
/// order.
pub open spec fn spec_push_seq(mem: Seq<u8>, s: u8, bs: Seq<u8>) -> (Seq<u8>, u8)
    decreases bs.len(),
{
    if bs.len() == 0 {
        (mem, s)
    } else {
        let prev = spec_push_seq(mem, s, bs.drop_last());
        spec_push(prev.0, prev.1, bs.last())
    }
}

/// The bytes `n` successive pops return, in pop order, and the stack
/// pointer afterwards.  Pops do not change memory.
pub open spec fn spec_pop_seq(mem: Seq<u8>, s: u8, n: nat) -> (Seq<u8>, u8)
    decreases n,
{
    if n == 0 {
        (Seq::<u8>::empty(), s)
    } else {
        let first = spec_pop(mem, s);
        let rest = spec_pop_seq(mem, first.1, (n - 1) as nat);
        (seq![first.0] + rest.0, rest.1)
    }
}

/// Pushes only update memory in place, so the image keeps its size.
proof fn lemma_push_seq_len(mem: Seq<u8>, s: u8, bs: Seq<u8>)
    requires
        mem.len() == MEM_SIZE,
    ensures
        spec_push_seq(mem, s, bs).0.len() == mem.len(),
    decreases bs.len(),
{
    if bs.len() > 0 {
        lemma_push_seq_len(mem, s, bs.drop_last());
        let prev = spec_push_seq(mem, s, bs.drop_last());
        assert(0 <= stack_slot(prev.1) < MEM_SIZE);
    }
}

/// Popping reads only the slots above the stack pointer: two memories
/// that agree on those slots pop the same bytes.
proof fn lemma_pop_seq_frame(m1: Seq<u8>, m2: Seq<u8>, s: u8, n: nat)
    requires
        n <= 255,
        forall|k: u8|
            1 <= k <= n ==> #[trigger] m1[stack_slot(s.wrapping_add(k))] == m2[stack_slot(
                s.wrapping_add(k),
            )],
    ensures
        spec_pop_seq(m1, s, n) == spec_pop_seq(m2, s, n),
    decreases n,
{
    if n > 0 {
        let s1 = s.wrapping_add(1);
        assert(m1[stack_slot(s.wrapping_add(1u8))] == m2[stack_slot(s.wrapping_add(1u8))]);
        assert forall|k: u8| 1 <= k <= n - 1 implies #[trigger] m1[stack_slot(s1.wrapping_add(k))]
            == m2[stack_slot(s1.wrapping_add(k))] by {
            let k1: u8 = (k + 1) as u8;
            assert(s1.wrapping_add(k) == s.wrapping_add(k1));
            assert(m1[stack_slot(s.wrapping_add(k1))] == m2[stack_slot(s.wrapping_add(k1))]);
        }
        lemma_pop_seq_frame(m1, m2, s1, (n - 1) as nat);
    }
}

/// The stack round-trip law: pushing any sequence of at most 256 bytes
/// and then popping that many returns exactly the pushed bytes, newest
/// first — so the original sequence is recovered in order by reading the
/// pops back to front — and leaves the stack pointer at its pre-push
/// value.  Past 256 bytes the one-page stack wraps onto itself and
/// overwrites, so the law is stated up to a full page.
pub proof fn lemma_stack_round_trip(mem: Seq<u8>, s: u8, bs: Seq<u8>)
    requires
        mem.len() == MEM_SIZE,
        bs.len() <= 256,
    ensures
        spec_pop_seq(spec_push_seq(mem, s, bs).0, spec_push_seq(mem, s, bs).1, bs.len()).0
            == bs.reverse(),
        spec_pop_seq(spec_push_seq(mem, s, bs).0, spec_push_seq(mem, s, bs).1, bs.len()).1 == s,
    decreases bs.len(),
{
    if bs.len() == 0 {
        assert(bs.reverse() =~= Seq::<u8>::empty());
    } else {
        let ys = bs.drop_last();
        let b = bs.last();
        let n = ys.len();
        lemma_stack_round_trip(mem, s, ys);
        lemma_push_seq_len(mem, s, ys);
        let m1 = spec_push_seq(mem, s, ys).0;
        let t1 = spec_push_seq(mem, s, ys).1;
        let m2 = m1.update(stack_slot(t1), b);
        assert(spec_push_seq(mem, s, bs).0 == m2);
        assert(spec_push_seq(mem, s, bs).1 == t1.wrapping_sub(1));
        assert(t1.wrapping_sub(1).wrapping_add(1) == t1);
        assert(m2[stack_slot(t1)] == b);
        assert forall|k: u8| 1 <= k <= n implies #[trigger] m1[stack_slot(t1.wrapping_add(k))]
            == m2[stack_slot(t1.wrapping_add(k))] by {
            assert(t1.wrapping_add(k) != t1);
        }
        lemma_pop_seq_frame(m1, m2, t1, n);
        assert(bs.reverse() =~= seq![b] + ys.reverse());
    }
}

/// The Zero/Negative flag law: a result byte of 0 always sets Zero and
/// clears Negative; a result byte of 0x80 always sets Negative and
/// clears Zero — whatever the status register held before.  The load
/// handlers leave the status register exactly at `spec_set_zn`, so this
/// covers every zero-flag-setting instruction.
pub proof fn lemma_zero_negative_flags(p: u8, v: u8)
    ensures
        v == 0 ==> spec_flag_set(spec_set_zn(p, v), FLAG_ZERO) && spec_flag_clear(
            spec_set_zn(p, v),
            FLAG_NEGATIVE,
        ),
        v == 0x80 ==> spec_flag_set(spec_set_zn(p, v), FLAG_NEGATIVE) && spec_flag_clear(
            spec_set_zn(p, v),
            FLAG_ZERO,
        ),
        v != 0 ==> spec_flag_clear(spec_set_zn(p, v), FLAG_ZERO),
        v & 0x80 == 0 ==> spec_flag_clear(spec_set_zn(p, v), FLAG_NEGATIVE),
    {
    assert(0u8 & 0x80u8 == 0) by (bit_vector);
    assert(0x80u8 & 0x80u8 == 0x80u8) by (bit_vector);
    assert(((p | 0x02u8) & !0x80u8) & 0x02 == 0x02) by (bit_vector);
    assert(((p | 0x02u8) & !0x80u8) & 0x80 == 0) by (bit_vector);
    assert(((p & !0x02u8) | 0x80u8) & 0x80 == 0x80) by (bit_vector);
    assert(((p & !0x02u8) | 0x80u8) & 0x02 == 0) by (bit_vector);
    assert(((p & !0x02u8) & !0x80u8) & 0x02 == 0) by (bit_vector);
    assert(((p & !0x02u8) & !0x80u8) & 0x80 == 0) by (bit_vector);
}

/// The page-wrap law for indirect addressing: with a pointer whose low
/// byte is 0xFF, the high byte of the resolved target is read from
/// offset 0 of the pointer's own page — never from the next page.
pub proof fn lemma_indirect_page_wrap(mem: Seq<u8>, ptr: u16)
    requires
        ptr & 0x00FF == 0x00FF,
    ensures
        spec_indirect_target(mem, ptr) == spec_word(mem[(ptr & 0xFF00) as int], mem[ptr as int]),
{
}

/// The call/return law: stepping a machine whose program counter
/// addresses a subroutine-call instruction, then stepping again when the
/// called address holds the return instruction, leaves the program
/// counter at the address immediately after the call and the stack
/// pointer at its value from before the call.
pub proof fn lemma_jsr_rts_round_trip(m: Machine)
    requires
        m.wf(),
        m.memory[m.pc as int] == 0x20,
        spec_step(m).0.memory[spec_step(m).0.pc as int] == 0x60,
    ensures
        spec_step(spec_step(m).0).0.pc == m.pc.wrapping_add(3),
        spec_step(spec_step(m).0).0.s == m.s,
{
    let ret = m.pc.wrapping_add(3).wrapping_sub(1);
    crate::utils::lemma_word_roundtrip(ret);
    assert(stack_slot(m.s.wrapping_sub(1)) != stack_slot(m.s));
    assert(ret.wrapping_add(1) == m.pc.wrapping_add(3));
    assert(m.s.wrapping_sub(1).wrapping_sub(1).wrapping_add(1) == m.s.wrapping_sub(1));
    assert(m.s.wrapping_sub(1).wrapping_add(1) == m.s);
}

} // verus!
