//! Decoding of LC-3 instruction words.

use vstd::arithmetic::power2::{lemma2_to64, pow2};
use vstd::prelude::*;

verus! {

/// The console services that a `TRAP` instruction can request.
#[derive(Debug, Copy, Clone, PartialEq, Eq, Structural)]
pub enum Trap {
    /// Read a character from the keyboard, without echo.
    GETC,
    /// Write a character.
    OUT,
    /// Write a string of one character per word.
    PUTS,
    /// Prompt, then read a character.
    IN,
    /// Write a string of two characters per word.
    PUTSP,
    /// Stop the machine.
    HALT,
}

/// The eight-bit vector that selects each trap.
pub open spec fn trap_vector(t: Trap) -> u16 {
    match t {
        Trap::GETC => 0x20,
        Trap::OUT => 0x21,
        Trap::PUTS => 0x22,
        Trap::IN => 0x23,
        Trap::PUTSP => 0x24,
        Trap::HALT => 0x25,
    }
}

/// The trap whose vector is `code`, if there is one.
pub open spec fn trap_of(code: u16) -> Option<Trap> {
    if code == 0x20 {
        Some(Trap::GETC)
    } else if code == 0x21 {
        Some(Trap::OUT)
    } else if code == 0x22 {
        Some(Trap::PUTS)
    } else if code == 0x23 {
        Some(Trap::IN)
    } else if code == 0x24 {
        Some(Trap::PUTSP)
    } else if code == 0x25 {
        Some(Trap::HALT)
    } else {
        None
    }
}

impl Trap {
    /// The trap with vector `code`, or `None` for a vector that names no trap.
    pub fn from_u16(code: u16) -> (r: Option<Trap>)
        ensures
            r == trap_of(code),
    {
        match code {
            0x20 => Some(Trap::GETC),
            0x21 => Some(Trap::OUT),
            0x22 => Some(Trap::PUTS),
            0x23 => Some(Trap::IN),
            0x24 => Some(Trap::PUTSP),
            0x25 => Some(Trap::HALT),
            _ => None,
        }
    }
}

/// The value of the `width`-bit field `value` as a 16-bit two's-complement
/// word: a field whose top bit is set stands for `value - 2^width`.
pub open spec fn sign_extended(value: u16, width: nat) -> u16 {
    if value >= pow2((width - 1) as nat) {
        (value + 0x10000 - pow2(width)) as u16
    } else {
        value
    }
}

proof fn lemma_sign_extend_bits(v: u16, l: u16)
    by (bit_vector)
    requires
        1 <= l <= 15,
        v < (1u16 << l),
    ensures
        (v >> ((l - 1) as u16)) == 1 <==> v >= (1u16 << ((l - 1) as u16)),
        (v >> ((l - 1) as u16)) == 1 || (v >> ((l - 1) as u16)) == 0,
        (v | (0xffffu16 << l)) == v + (0xffffu16 << l),
        (0xffffu16 << l) + (1u16 << l) == 0x10000,
{
}

/// Widens the `length`-bit field `value` to 16 bits, copying its top bit
/// into every bit above the field.
pub fn sign_extend(value: u16, length: usize) -> (r: u16)
    requires
        1 <= length <= 15,
        value < pow2(length as nat),
    ensures
        r == sign_extended(value, length as nat),
{
    let l = length as u16;
    proof {
        vstd::bits::lemma_u16_pow2_no_overflow(l as nat);
        vstd::bits::lemma_u16_pow2_no_overflow((l - 1) as nat);
        vstd::bits::lemma_u16_shl_is_mul(1, l);
        vstd::bits::lemma_u16_shl_is_mul(1, (l - 1) as u16);
        lemma_sign_extend_bits(value, l);
    }
    if (value >> (l - 1)) == 1 {
        value | (0xffffu16 << l)
    } else {
        value
    }
}

/// A decoded instruction. Register fields hold indices 0 to 7, and offsets
/// and immediates are already sign-extended to 16 bits.
#[derive(Debug, Copy, Clone, PartialEq, Eq, Structural)]
pub enum OpCode {
    AddReg { dest_reg: usize, src_reg1: usize, src_reg2: usize },
    AddImm { dest_reg: usize, src_reg: usize, imm_value: u16 },
    AndReg { dest_reg: usize, src_reg1: usize, src_reg2: usize },
    AndImm { dest_reg: usize, src_reg: usize, imm_value: u16 },
    Br { flags: u8, offset: u16 },
    Jmp { reg: usize },
    Jsr { offset: u16 },
    Jsrr { reg: usize },
    Ld { reg: usize, offset: u16 },
    Ldi { reg: usize, offset: u16 },
    Ldr { dest_reg: usize, src_reg: usize, offset: u16 },
    Lea { reg: usize, offset: u16 },
    Not { dest_reg: usize, src_reg: usize },
    St { reg: usize, offset: u16 },
    Sti { reg: usize, offset: u16 },
    Str { src_reg: usize, base_reg: usize, offset: u16 },
    /// Return from interrupt. This machine has no interrupts, so `parse`
    /// reports opcode 8 as `Invalid`; the variant is executed as a no-op.
    Rti,
    Trap(Trap),
    Invalid,
}

/// The three-bit register field whose lowest bit is bit `lo` of `w`.
pub open spec fn reg_field(w: u16, lo: u16) -> usize {
    ((w >> lo) & 7) as usize
}

/// The 9-bit PC-relative offset of `w`, sign-extended.
pub open spec fn offset9(w: u16) -> u16 {
    sign_extended(w & 0x1ff, 9)
}

/// The 6-bit base-relative offset of `w`, sign-extended.
pub open spec fn offset6(w: u16) -> u16 {
    sign_extended(w & 0x3f, 6)
}

/// The 11-bit offset of `JSR`, sign-extended.
pub open spec fn offset11(w: u16) -> u16 {
    sign_extended(w & 0x7ff, 11)
}

/// The 5-bit immediate operand of `ADD` and `AND`, sign-extended.
pub open spec fn imm5(w: u16) -> u16 {
    sign_extended(w & 0x1f, 5)
}

/// The instruction that the word `w` encodes in the LC-3 instruction set.
/// Bits 15 to 12 select the operation; opcodes 8 and 13 are reserved, and
/// a trap vector that names no trap makes the word invalid too.
pub open spec fn decode(w: u16) -> OpCode {
    let op = w >> 12;
    let immediate = (w >> 5) & 1 == 1;
    if op == 0 {
        OpCode::Br { flags: ((w >> 9) & 7) as u8, offset: offset9(w) }
    } else if op == 1 {
        if immediate {
            OpCode::AddImm { dest_reg: reg_field(w, 9), src_reg: reg_field(w, 6), imm_value: imm5(w) }
        } else {
            OpCode::AddReg { dest_reg: reg_field(w, 9), src_reg1: reg_field(w, 6), src_reg2: reg_field(w, 0) }
        }
    } else if op == 2 {
        OpCode::Ld { reg: reg_field(w, 9), offset: offset9(w) }
    } else if op == 3 {
        OpCode::St { reg: reg_field(w, 9), offset: offset9(w) }
    } else if op == 4 {
        if (w >> 11) & 1 == 1 {
            OpCode::Jsr { offset: offset11(w) }
        } else {
            OpCode::Jsrr { reg: reg_field(w, 6) }
        }
    } else if op == 5 {
        if immediate {
            OpCode::AndImm { dest_reg: reg_field(w, 9), src_reg: reg_field(w, 6), imm_value: imm5(w) }
        } else {
            OpCode::AndReg { dest_reg: reg_field(w, 9), src_reg1: reg_field(w, 6), src_reg2: reg_field(w, 0) }
        }
    } else if op == 6 {
        OpCode::Ldr { dest_reg: reg_field(w, 9), src_reg: reg_field(w, 6), offset: offset6(w) }
    } else if op == 7 {
        OpCode::Str { src_reg: reg_field(w, 9), base_reg: reg_field(w, 6), offset: offset6(w) }
    } else if op == 9 {
        OpCode::Not { dest_reg: reg_field(w, 9), src_reg: reg_field(w, 6) }
    } else if op == 10 {
        OpCode::Ldi { reg: reg_field(w, 9), offset: offset9(w) }
    } else if op == 11 {
        OpCode::Sti { reg: reg_field(w, 9), offset: offset9(w) }
    } else if op == 12 {
        OpCode::Jmp { reg: reg_field(w, 6) }
    } else if op == 14 {
        OpCode::Lea { reg: reg_field(w, 9), offset: offset9(w) }
    } else if op == 15 {
        match trap_of(w & 0xff) {
            Some(t) => OpCode::Trap(t),
            None => OpCode::Invalid,
        }
    } else {
        OpCode::Invalid
    }
}

proof fn lemma_field_bounds(w: u16)
    by (bit_vector)
    ensures
        w & 0x1ff < 512,
        w & 0x3f < 64,
        w & 0x7ff < 2048,
        w & 0x1f < 32,
        (w >> 9) & 7 < 8,
        (w >> 6) & 7 < 8,
        w & 7 < 8,
        (w >> 0u16) & 7 == w & 7,
        (w >> 5) & 1 == 0 || (w >> 5) & 1 == 1,
        (w >> 11) & 1 == 0 || (w >> 11) & 1 == 1,
        w >> 12 < 16,
{
}

impl OpCode {
    /// Decodes one instruction word. Every word decodes: one that names no
    /// instruction gives `Invalid`.
    pub fn parse(instr: u16) -> (r: OpCode)
        ensures
            r == decode(instr),
    {
        proof {
            lemma_field_bounds(instr);
            lemma2_to64();
        }
        let dest = ((instr >> 9) & 0x7) as usize;
        let src = ((instr >> 6) & 0x7) as usize;
        match instr >> 12 {
            0 => OpCode::Br { flags: ((instr >> 9) & 0x7) as u8, offset: sign_extend(instr & 0x1ff, 9) },
            1 => if ((instr >> 5) & 0x1) == 0 {
                OpCode::AddReg { dest_reg: dest, src_reg1: src, src_reg2: (instr & 0x7) as usize }
            } else {
                OpCode::AddImm { dest_reg: dest, src_reg: src, imm_value: sign_extend(instr & 0x1f, 5) }
            },
            2 => OpCode::Ld { reg: dest, offset: sign_extend(instr & 0x1ff, 9) },
            3 => OpCode::St { reg: dest, offset: sign_extend(instr & 0x1ff, 9) },
            4 => if ((instr >> 11) & 0x1) == 0 {
                OpCode::Jsrr { reg: src }
            } else {
                OpCode::Jsr { offset: sign_extend(instr & 0x7ff, 11) }
            },
            5 => if ((instr >> 5) & 0x1) == 0 {
                OpCode::AndReg { dest_reg: dest, src_reg1: src, src_reg2: (instr & 0x7) as usize }
            } else {
                OpCode::AndImm { dest_reg: dest, src_reg: src, imm_value: sign_extend(instr & 0x1f, 5) }
            },
            6 => OpCode::Ldr { dest_reg: dest, src_reg: src, offset: sign_extend(instr & 0x3f, 6) },
            7 => OpCode::Str { src_reg: dest, base_reg: src, offset: sign_extend(instr & 0x3f, 6) },
            9 => OpCode::Not { dest_reg: dest, src_reg: src },
            10 => OpCode::Ldi { reg: dest, offset: sign_extend(instr & 0x1ff, 9) },
            11 => OpCode::Sti { reg: dest, offset: sign_extend(instr & 0x1ff, 9) },
            12 => OpCode::Jmp { reg: src },
            14 => OpCode::Lea { reg: dest, offset: sign_extend(instr & 0x1ff, 9) },
            15 => match Trap::from_u16(instr & 0xff) {
                Some(trap) => OpCode::Trap(trap),
                None => OpCode::Invalid,
            },
            _ => OpCode::Invalid,
        }
    }
}

/// Whether `v` is the sign extension of some `width`-bit field.
pub open spec fn fits(v: u16, width: nat) -> bool {
    v < pow2((width - 1) as nat) || v >= 0x10000 - pow2((width - 1) as nat)
}

impl OpCode {
    /// Register fields name one of R0 to R7, branch flags are three bits,
    /// and each offset or immediate fits the field it is encoded in.
    pub open spec fn well_formed(self) -> bool {
        match self {
            OpCode::AddReg { dest_reg, src_reg1, src_reg2 } => dest_reg < 8 && src_reg1 < 8
                && src_reg2 < 8,
            OpCode::AddImm { dest_reg, src_reg, imm_value } => dest_reg < 8 && src_reg < 8 && fits(
                imm_value,
                5,
            ),
            OpCode::AndReg { dest_reg, src_reg1, src_reg2 } => dest_reg < 8 && src_reg1 < 8
                && src_reg2 < 8,
            OpCode::AndImm { dest_reg, src_reg, imm_value } => dest_reg < 8 && src_reg < 8 && fits(
                imm_value,
                5,
            ),
            OpCode::Br { flags, offset } => flags < 8 && fits(offset, 9),
            OpCode::Jmp { reg } => reg < 8,
            OpCode::Jsr { offset } => fits(offset, 11),
            OpCode::Jsrr { reg } => reg < 8,
            OpCode::Ld { reg, offset } => reg < 8 && fits(offset, 9),
            OpCode::Ldi { reg, offset } => reg < 8 && fits(offset, 9),
            OpCode::Ldr { dest_reg, src_reg, offset } => dest_reg < 8 && src_reg < 8 && fits(offset, 6),
            OpCode::Lea { reg, offset } => reg < 8 && fits(offset, 9),
            OpCode::Not { dest_reg, src_reg } => dest_reg < 8 && src_reg < 8,
            OpCode::St { reg, offset } => reg < 8 && fits(offset, 9),
            OpCode::Sti { reg, offset } => reg < 8 && fits(offset, 9),
            OpCode::Str { src_reg, base_reg, offset } => src_reg < 8 && base_reg < 8 && fits(offset, 6),
            OpCode::Rti => true,
            OpCode::Trap(_) => true,
            OpCode::Invalid => true,
        }
    }
}

/// Every word decodes to a well-formed instruction.
pub proof fn lemma_decode_well_formed(w: u16)
    ensures
        decode(w).well_formed(),
{
    lemma_field_bounds(w);
    lemma2_to64();
}

/// The instruction word for `op`, laid out as the LC-3 instruction set
/// lays out each format.
pub open spec fn encode(op: OpCode) -> u16 {
    match op {
        OpCode::AddReg { dest_reg, src_reg1, src_reg2 } => reg_form(1, dest_reg, src_reg1, src_reg2),
        OpCode::AddImm { dest_reg, src_reg, imm_value } => imm_form(1, dest_reg, src_reg, imm_value),
        OpCode::AndReg { dest_reg, src_reg1, src_reg2 } => reg_form(5, dest_reg, src_reg1, src_reg2),
        OpCode::AndImm { dest_reg, src_reg, imm_value } => imm_form(5, dest_reg, src_reg, imm_value),
        OpCode::Br { flags, offset } => pc_form(0, flags as usize, offset),
        OpCode::Jmp { reg } => base_form(12, 0, reg, 0),
        OpCode::Jsr { offset } => 0x4800 | (offset & 0x7ff),
        OpCode::Jsrr { reg } => base_form(4, 0, reg, 0),
        OpCode::Ld { reg, offset } => pc_form(2, reg, offset),
        OpCode::Ldi { reg, offset } => pc_form(10, reg, offset),
        OpCode::Ldr { dest_reg, src_reg, offset } => base_form(6, dest_reg, src_reg, offset),
        OpCode::Lea { reg, offset } => pc_form(14, reg, offset),
        OpCode::Not { dest_reg, src_reg } => base_form(9, dest_reg, src_reg, 0x3f),
        OpCode::St { reg, offset } => pc_form(3, reg, offset),
        OpCode::Sti { reg, offset } => pc_form(11, reg, offset),
        OpCode::Str { src_reg, base_reg, offset } => base_form(7, src_reg, base_reg, offset),
        OpCode::Rti => 0x8000,
        OpCode::Trap(t) => 0xf000 | trap_vector(t),
        OpCode::Invalid => 0xd000,
    }
}

/// Opcode, destination, first source, and a second source register.
pub open spec fn reg_form(op: u16, d: usize, s: usize, t: usize) -> u16 {
    (op << 12) | ((d as u16) << 9) | ((s as u16) << 6) | (t as u16)
}

/// Opcode, destination, source, the immediate bit and a 5-bit immediate.
pub open spec fn imm_form(op: u16, d: usize, s: usize, imm: u16) -> u16 {
    (op << 12) | ((d as u16) << 9) | ((s as u16) << 6) | 0x20 | (imm & 0x1f)
}

/// Opcode, a three-bit field at bit 9, and a 9-bit offset.
pub open spec fn pc_form(op: u16, r: usize, offset: u16) -> u16 {
    (op << 12) | ((r as u16) << 9) | (offset & 0x1ff)
}

/// Opcode, a register at bit 9, a register at bit 6, and a 6-bit field.
pub open spec fn base_form(op: u16, d: usize, s: usize, low: u16) -> u16 {
    (op << 12) | ((d as u16) << 9) | ((s as u16) << 6) | (low & 0x3f)
}

proof fn lemma_reg_form(op: u16, d: u16, s: u16, t: u16)
    by (bit_vector)
    requires
        op < 16,
        d < 8,
        s < 8,
        t < 8,
    ensures
        ((op << 12) | (d << 9) | (s << 6) | t) >> 12 == op,
        (((op << 12) | (d << 9) | (s << 6) | t) >> 9) & 7 == d,
        (((op << 12) | (d << 9) | (s << 6) | t) >> 6) & 7 == s,
        (((op << 12) | (d << 9) | (s << 6) | t) >> 0u16) & 7 == t,
        (((op << 12) | (d << 9) | (s << 6) | t) >> 5) & 1 == 0,
{
}

proof fn lemma_imm_form(op: u16, d: u16, s: u16, imm: u16)
    by (bit_vector)
    requires
        op < 16,
        d < 8,
        s < 8,
    ensures
        ((op << 12) | (d << 9) | (s << 6) | 0x20 | (imm & 0x1f)) >> 12 == op,
        (((op << 12) | (d << 9) | (s << 6) | 0x20 | (imm & 0x1f)) >> 9) & 7 == d,
        (((op << 12) | (d << 9) | (s << 6) | 0x20 | (imm & 0x1f)) >> 6) & 7 == s,
        (((op << 12) | (d << 9) | (s << 6) | 0x20 | (imm & 0x1f)) >> 5) & 1 == 1,
        ((op << 12) | (d << 9) | (s << 6) | 0x20 | (imm & 0x1f)) & 0x1f == imm % 32,
{
}

proof fn lemma_pc_form(op: u16, r: u16, offset: u16)
    by (bit_vector)
    requires
        op < 16,
        r < 8,
    ensures
        ((op << 12) | (r << 9) | (offset & 0x1ff)) >> 12 == op,
        (((op << 12) | (r << 9) | (offset & 0x1ff)) >> 9) & 7 == r,
        ((op << 12) | (r << 9) | (offset & 0x1ff)) & 0x1ff == offset % 512,
{
}

proof fn lemma_base_form(op: u16, d: u16, s: u16, low: u16)
    by (bit_vector)
    requires
        op < 16,
        d < 8,
        s < 8,
    ensures
        ((op << 12) | (d << 9) | (s << 6) | (low & 0x3f)) >> 12 == op,
        (((op << 12) | (d << 9) | (s << 6) | (low & 0x3f)) >> 9) & 7 == d,
        (((op << 12) | (d << 9) | (s << 6) | (low & 0x3f)) >> 6) & 7 == s,
        d == 0 ==> (((op << 12) | (d << 9) | (s << 6) | (low & 0x3f)) >> 11) & 1 == 0,
        ((op << 12) | (d << 9) | (s << 6) | (low & 0x3f)) & 0x3f == low % 64,
{
}

proof fn lemma_fixed_forms(offset: u16, v: u16)
    by (bit_vector)
    requires
        v < 256,
    ensures
        (0x4800u16 | (offset & 0x7ff)) >> 12 == 4,
        ((0x4800u16 | (offset & 0x7ff)) >> 11) & 1 == 1,
        (0x4800u16 | (offset & 0x7ff)) & 0x7ff == offset % 2048,
        (0xf000u16 | v) >> 12 == 15,
        (0xf000u16 | v) & 0xff == v,
        0xd000u16 >> 12 == 13,
{
}

/// Decoding recovers every instruction from its encoding, operand fields
/// included. Return from interrupt is left out: this machine decodes its
/// opcode as invalid.
pub proof fn lemma_decode_encode(op: OpCode)
    requires
        op.well_formed(),
        op != OpCode::Rti,
    ensures
        decode(encode(op)) == op,
{
    lemma2_to64();
    match op {
        OpCode::AddReg { dest_reg, src_reg1, src_reg2 } => {
            lemma_reg_form(1, dest_reg as u16, src_reg1 as u16, src_reg2 as u16);
        },
        OpCode::AndReg { dest_reg, src_reg1, src_reg2 } => {
            lemma_reg_form(5, dest_reg as u16, src_reg1 as u16, src_reg2 as u16);
        },
        OpCode::AddImm { dest_reg, src_reg, imm_value } => {
            lemma_imm_form(1, dest_reg as u16, src_reg as u16, imm_value);
        },
        OpCode::AndImm { dest_reg, src_reg, imm_value } => {
            lemma_imm_form(5, dest_reg as u16, src_reg as u16, imm_value);
        },
        OpCode::Br { flags, offset } => {
            lemma_pc_form(0, flags as u16, offset);
        },
        OpCode::Ld { reg, offset } => {
            lemma_pc_form(2, reg as u16, offset);
        },
        OpCode::St { reg, offset } => {
            lemma_pc_form(3, reg as u16, offset);
        },
        OpCode::Ldi { reg, offset } => {
            lemma_pc_form(10, reg as u16, offset);
        },
        OpCode::Sti { reg, offset } => {
            lemma_pc_form(11, reg as u16, offset);
        },
        OpCode::Lea { reg, offset } => {
            lemma_pc_form(14, reg as u16, offset);
        },
        OpCode::Jmp { reg } => {
            lemma_base_form(12, 0, reg as u16, 0);
        },
        OpCode::Jsrr { reg } => {
            lemma_base_form(4, 0, reg as u16, 0);
        },
        OpCode::Ldr { dest_reg, src_reg, offset } => {
            lemma_base_form(6, dest_reg as u16, src_reg as u16, offset);
        },
        OpCode::Str { src_reg, base_reg, offset } => {
            lemma_base_form(7, src_reg as u16, base_reg as u16, offset);
        },
        OpCode::Not { dest_reg, src_reg } => {
            lemma_base_form(9, dest_reg as u16, src_reg as u16, 0x3f);
        },
        OpCode::Jsr { offset } => {
            lemma_fixed_forms(offset, 0);
        },
        OpCode::Trap(t) => {
            lemma_fixed_forms(0, trap_vector(t));
        },
        OpCode::Invalid => {
            lemma_fixed_forms(0, 0);
        },
        OpCode::Rti => {},
    }
}

/// Decoding never fails: reserved opcodes 8 and 13, and a trap vector
/// that names no trap, decode to `Invalid`.
pub proof fn lemma_reserved_decode_invalid(w: u16)
    ensures
        w >> 12 == 8 ==> decode(w) == OpCode::Invalid,
        w >> 12 == 13 ==> decode(w) == OpCode::Invalid,
        w >> 12 == 15 && trap_of(w & 0xff) is None ==> decode(w) == OpCode::Invalid,
{
}

} // verus!
