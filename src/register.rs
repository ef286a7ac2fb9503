//! The register file: eight general registers, the program counter and the
//! condition flags.

use vstd::prelude::*;

verus! {

/// Index of the register that `JSR` and `JSRR` save the return address in.
pub const R7: usize = 7;
/// Index of the program counter.
pub const PC: usize = 8;
/// Index of the condition-flags register.
pub const COND: usize = 9;
/// Where the program counter starts.
pub const PC_START: u16 = 0x3000;

/// Condition flag: the last result was positive.
pub const FL_POS: u16 = 0b001;
/// Condition flag: the last result was zero.
pub const FL_ZRO: u16 = 0b010;
/// Condition flag: the last result was negative.
pub const FL_NEG: u16 = 0b100;

/// The flag that describes `v` read as a signed 16-bit number.
pub open spec fn flag_of(v: u16) -> u16 {
    if v == 0 {
        FL_ZRO
    } else if v >= 0x8000 {
        FL_NEG
    } else {
        FL_POS
    }
}

/// Whether `v` is exactly one of the three condition flags.
pub open spec fn is_flag(v: u16) -> bool {
    v == FL_POS || v == FL_ZRO || v == FL_NEG
}

/// The ten registers of the machine, indexed 0 to 9.
pub struct Registers([u16; 10]);

impl View for Registers {
    type V = Seq<u16>;

    closed spec fn view(&self) -> Seq<u16> {
        self.0@
    }
}

impl Registers {
    /// Ten cells, and the flags register holds one flag.
    pub open spec fn wf(&self) -> bool {
        self@.len() == 10 && is_flag(self@[COND as int])
    }

    /// General registers zero, the program counter at `PC_START`, and the
    /// flags saying zero, which is what the zero registers hold.
    pub fn new() -> (r: Registers)
        ensures
            r.wf(),
            forall|i: int| 0 <= i < 8 ==> r@[i] == 0,
            r@[PC as int] == PC_START,
            r@[COND as int] == FL_ZRO,
    {
        Registers([0, 0, 0, 0, 0, 0, 0, 0, PC_START, FL_ZRO])
    }

    /// The value of register `index`.
    pub fn get(&self, index: usize) -> (r: u16)
        requires
            index < 10,
        ensures
            r == self@[index as int],
            self@.len() == 10,
    {
        self.0[index]
    }

    /// Stores `value` in register `index`.
    pub fn set(&mut self, index: usize, value: u16)
        requires
            index < 10,
        ensures
            final(self)@ == old(self)@.update(index as int, value),
            final(self)@.len() == 10,
    {
        self.0[index] = value;
    }

    /// Sets the flags from the value of register `reg`: zero, negative when
    /// its top bit is set, positive otherwise.
    pub fn update_cond_flags(&mut self, reg: usize)
        requires
            reg < 10,
        ensures
            final(self)@ == old(self)@.update(COND as int, flag_of(old(self)@[reg as int])),
            final(self).wf(),
    {
        let v = self.0[reg];
        let flag = if v == 0 {
            FL_ZRO
        } else if (v >> 15) == 1 {
            FL_NEG
        } else {
            FL_POS
        };
        proof {
            assert((v >> 15) == 1 <==> v >= 0x8000) by (bit_vector);
        }
        self.0[COND] = flag;
    }

    /// The program counter, to be changed in place.
    pub fn pc_reg(&mut self) -> (r: &mut u16)
        ensures
            *r == old(self)@[PC as int],
            final(self)@ == old(self)@.update(PC as int, *final(r)),
            final(self)@.len() == 10,
            old(self).wf() ==> final(self).wf(),
    {
        &mut self.0[PC]
    }
}

} // verus!
