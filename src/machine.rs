//! The fetch-decode-execute engine. Each call of `Machine::step` runs one
//! instruction; the console lies outside: the caller hands in what polling
//! the keyboard gave and writes out what the step produced.

use crate::memory::{after_read, Memory, MEMORY_SIZE, MR_KBSR};
use crate::opcode::{decode, lemma_decode_well_formed, OpCode, Trap};
use crate::register::{flag_of, Registers, COND, FL_ZRO, PC, PC_START, R7};
use vstd::prelude::*;
use vstd::string::StringSliceAdditionalSpecFns;

verus! {

/// What the `IN` trap writes before it takes a key.
pub const IN_PROMPT: &'static str = "Enter a character: ";

/// What the `HALT` trap writes.
pub const HALT_NOTICE: &'static str = "HALT\n";

/// How a step ended, as far as the console is concerned.
#[derive(Debug, Copy, Clone, PartialEq, Eq, Structural)]
pub enum Event {
    /// The instruction ran.
    Ran,
    /// A `GETC` or `IN` trap needs a key and none was given. Registers and
    /// memory did not change (an `IN` wrote its prompt, once): the step is
    /// to be repeated once a key is there.
    WaitingForKey,
    /// The machine is halted, by this step's `HALT` or before it.
    Halted,
    /// The word `instr`, fetched from `pc`, is no instruction this machine
    /// runs. It was skipped.
    Invalid { instr: u16, pc: u16 },
}

/// What one step did besides changing the machine.
pub struct StepResult {
    pub event: Event,
    /// The bytes to write to the console, in order.
    pub output: Vec<u8>,
    /// Whether the step used the key it was given.
    pub key_taken: bool,
}

/// The whole machine: registers, memory, and whether it still runs.
pub struct Machine {
    pub registers: Registers,
    pub memory: Memory,
    pub running: bool,
    /// Whether the `IN` prompt was written by a step that then waited for
    /// a key, so that it is not written again.
    pub prompt_shown: bool,
}

/// The state of the machine and the console after a step, in terms of the
/// views of registers and memory.
pub struct Transition {
    pub regs: Seq<u16>,
    pub mem: Seq<u16>,
    pub running: bool,
    pub event: Event,
    pub output: Seq<u8>,
    /// The key that is still not used.
    pub key: Option<u16>,
    pub prompt_shown: bool,
}

/// `a + b`, wrapping at 16 bits: the sum of two signed 16-bit numbers in
/// two's complement.
pub open spec fn wrap_add(a: u16, b: u16) -> u16 {
    ((a as int + b as int) % 0x10000) as u16
}

/// Register `r` set to `v`, and the flags set from `v`.
pub open spec fn set_result(regs: Seq<u16>, r: usize, v: u16) -> Seq<u16> {
    regs.update(r as int, v).update(COND as int, flag_of(v))
}

/// The key that is left after reading `address`: a read of the keyboard
/// status register uses it.
pub open spec fn key_after(address: u16, key: Option<u16>) -> Option<u16> {
    if address == MR_KBSR {
        None
    } else {
        key
    }
}

/// The characters of the string at `a`, one per word, up to a zero word,
/// reading at most `left` words; addresses wrap past the last one.
pub open spec fn string_at(mem: Seq<u16>, a: u16, left: nat) -> Seq<u8>
    decreases left,
{
    if left == 0 || mem[a as int] == 0 {
        seq![]
    } else {
        seq![#[verifier::truncate] (mem[a as int] as u8)] + string_at(mem, wrap_add(a, 1), (left - 1) as nat)
    }
}

/// The characters of the string at `a`, two per word, low byte first and
/// the high byte only when it is not zero, up to a zero word, reading at
/// most `left` words; addresses wrap past the last one.
pub open spec fn packed_string_at(mem: Seq<u16>, a: u16, left: nat) -> Seq<u8>
    decreases left,
{
    if left == 0 || mem[a as int] == 0 {
        seq![]
    } else {
        let low = seq![#[verifier::truncate] ((mem[a as int] & 0xff) as u8)];
        let high = #[verifier::truncate] ((mem[a as int] >> 8) as u8);
        (if high != 0 {
            low.push(high)
        } else {
            low
        }) + packed_string_at(mem, wrap_add(a, 1), (left - 1) as nat)
    }
}

/// Whether `op` reads a key from the console.
pub open spec fn needs_key(op: OpCode) -> bool {
    op == OpCode::Trap(Trap::GETC) || op == OpCode::Trap(Trap::IN)
}

/// A step that ran and wrote nothing.
pub open spec fn ran(regs: Seq<u16>, mem: Seq<u16>, key: Option<u16>) -> Transition {
    Transition { regs, mem, running: true, event: Event::Ran, output: seq![], key, prompt_shown: false }
}

/// A step that ran and wrote `output`.
pub open spec fn wrote(regs: Seq<u16>, mem: Seq<u16>, key: Option<u16>, output: Seq<u8>) -> Transition {
    Transition { regs, mem, running: true, event: Event::Ran, output, key, prompt_shown: false }
}

/// Loading register `r` from `address`: the read's effect on memory and
/// on the key, and the word read.
pub open spec fn load_into(regs: Seq<u16>, mem: Seq<u16>, key: Option<u16>, r: usize, address: u16) -> Transition {
    let m = after_read(mem, address, key);
    ran(set_result(regs, r, m[address as int]), m, key_after(address, key))
}

/// What running `op`, the word `instr` fetched from `pc`, does. `regs`
/// already holds the incremented program counter; `prompted` says whether
/// the `IN` prompt was already written.
#[verifier::opaque]
pub open spec fn execute(
    op: OpCode,
    instr: u16,
    pc: u16,
    regs: Seq<u16>,
    mem: Seq<u16>,
    key: Option<u16>,
    prompted: bool,
) -> Transition {
    let next = regs[PC as int];
    match op {
        OpCode::AddReg { dest_reg, src_reg1, src_reg2 } => ran(
            set_result(regs, dest_reg, wrap_add(regs[src_reg1 as int], regs[src_reg2 as int])),
            mem,
            key,
        ),
        OpCode::AddImm { dest_reg, src_reg, imm_value } => ran(
            set_result(regs, dest_reg, wrap_add(regs[src_reg as int], imm_value)),
            mem,
            key,
        ),
        OpCode::AndReg { dest_reg, src_reg1, src_reg2 } => ran(
            set_result(regs, dest_reg, regs[src_reg1 as int] & regs[src_reg2 as int]),
            mem,
            key,
        ),
        OpCode::AndImm { dest_reg, src_reg, imm_value } => ran(
            set_result(regs, dest_reg, regs[src_reg as int] & imm_value),
            mem,
            key,
        ),
        OpCode::Not { dest_reg, src_reg } => ran(
            set_result(regs, dest_reg, !regs[src_reg as int]),
            mem,
            key,
        ),
        OpCode::Br { flags, offset } => ran(
            if (flags as u16) & regs[COND as int] != 0 {
                regs.update(PC as int, wrap_add(next, offset))
            } else {
                regs
            },
            mem,
            key,
        ),
        OpCode::Jmp { reg } => ran(regs.update(PC as int, regs[reg as int]), mem, key),
        OpCode::Jsr { offset } => ran(
            regs.update(R7 as int, next).update(PC as int, wrap_add(next, offset)),
            mem,
            key,
        ),
        OpCode::Jsrr { reg } => {
            let saved = regs.update(R7 as int, next);
            ran(saved.update(PC as int, saved[reg as int]), mem, key)
        },
        OpCode::Ld { reg, offset } => load_into(regs, mem, key, reg, wrap_add(next, offset)),
        OpCode::Ldr { dest_reg, src_reg, offset } => load_into(
            regs,
            mem,
            key,
            dest_reg,
            wrap_add(regs[src_reg as int], offset),
        ),
        OpCode::Ldi { reg, offset } => {
            let a = wrap_add(next, offset);
            let m = after_read(mem, a, key);
            load_into(regs, m, key_after(a, key), reg, m[a as int])
        },
        OpCode::Lea { reg, offset } => ran(set_result(regs, reg, wrap_add(next, offset)), mem, key),
        OpCode::St { reg, offset } => ran(
            regs,
            mem.update(wrap_add(next, offset) as int, regs[reg as int]),
            key,
        ),
        OpCode::Sti { reg, offset } => {
            let a = wrap_add(next, offset);
            let m = after_read(mem, a, key);
            ran(regs, m.update(m[a as int] as int, regs[reg as int]), key_after(a, key))
        },
        OpCode::Str { src_reg, base_reg, offset } => ran(
            regs,
            mem.update(wrap_add(regs[base_reg as int], offset) as int, regs[src_reg as int]),
            key,
        ),
        OpCode::Trap(t) => match t {
            Trap::GETC => ran(regs.update(0, key.unwrap()), mem, None),
            Trap::IN => wrote(
                regs.update(0, key.unwrap()),
                mem,
                None,
                if prompted {
                    seq![]
                } else {
                    IN_PROMPT.spec_bytes()
                },
            ),
            Trap::OUT => wrote(regs, mem, key, seq![#[verifier::truncate] (regs[0] as u8)]),
            Trap::PUTS => wrote(regs, mem, key, string_at(mem, regs[0], MEMORY_SIZE as nat)),
            Trap::PUTSP => wrote(regs, mem, key, packed_string_at(mem, regs[0], MEMORY_SIZE as nat)),
            Trap::HALT => Transition {
                regs,
                mem,
                running: false,
                event: Event::Halted,
                output: HALT_NOTICE.spec_bytes(),
                key,
                prompt_shown: false,
            },
        },
        OpCode::Rti | OpCode::Invalid => Transition {
            regs,
            mem,
            running: true,
            event: Event::Invalid { instr, pc },
            output: seq![],
            key,
            prompt_shown: false,
        },
    }
}

/// One cycle of the machine whose registers are `regs`, given `key` from
/// polling the keyboard: fetch the word at the program counter, advance the
/// counter by one (wrapping), decode the word and run it. A halted machine
/// stays as it is, and so does one whose next instruction needs a key when
/// there is none, but that an `IN` instruction writes its prompt the first
/// time it waits. `prompted` says whether that prompt was written.
pub open spec fn step_spec(
    regs: Seq<u16>,
    mem: Seq<u16>,
    running: bool,
    prompted: bool,
    key: Option<u16>,
) -> Transition {
    let pc = regs[PC as int];
    let fetched = after_read(mem, pc, key);
    let instr = fetched[pc as int];
    let op = decode(instr);
    if !running {
        Transition {
            regs,
            mem,
            running,
            event: Event::Halted,
            output: seq![],
            key,
            prompt_shown: prompted,
        }
    } else if needs_key(op) && key_after(pc, key) is None {
        let prompts = op == OpCode::Trap(Trap::IN) && !prompted;
        Transition {
            regs,
            mem,
            running,
            event: Event::WaitingForKey,
            output: if prompts {
                IN_PROMPT.spec_bytes()
            } else {
                seq![]
            },
            key,
            prompt_shown: prompted || op == OpCode::Trap(Trap::IN),
        }
    } else {
        execute(
            op,
            instr,
            pc,
            regs.update(PC as int, wrap_add(pc, 1)),
            fetched,
            key_after(pc, key),
            prompted,
        )
    }
}

/// `a + b`, wrapping at 16 bits.
pub fn signed_sum(a: u16, b: u16) -> (r: u16)
    ensures
        r == wrap_add(a, b),
{
    a.wrapping_add(b)
}

impl Machine {
    /// Registers and memory are well formed.
    pub open spec fn wf(&self) -> bool {
        self.registers.wf() && self.memory.wf()
    }

    /// Whether `next` and `r` are what a step of `self` gives with `key`.
    pub open spec fn steps_to(self, key: Option<u16>, next: Machine, r: StepResult) -> bool {
        let t = step_spec(self.registers@, self.memory@, self.running, self.prompt_shown, key);
        &&& next.registers@ == t.regs
        &&& next.memory@ == t.mem
        &&& next.running == t.running
        &&& r.event == t.event
        &&& r.output@ == t.output
        &&& next.prompt_shown == t.prompt_shown
        &&& r.key_taken == (key is Some && t.key is None)
    }

    /// A running machine with fresh registers and zeroed memory.
    pub fn new() -> (r: Machine)
        ensures
            r.wf(),
            r.running,
            !r.prompt_shown,
            forall|i: int| 0 <= i < 8 ==> r.registers@[i] == 0,
            r.registers@[PC as int] == PC_START,
            r.registers@[COND as int] == FL_ZRO,
            forall|a: int| 0 <= a < MEMORY_SIZE ==> r.memory@[a] == 0,
    {
        Machine {
            registers: Registers::new(),
            memory: Memory::new(),
            running: true,
            prompt_shown: false,
        }
    }

    /// Runs one instruction. `key` is what polling the keyboard gave: the
    /// code of a waiting key, or `None`.
    pub fn step(&mut self, key: Option<u16>) -> (r: StepResult)
        requires
            old(self).wf(),
        ensures
            final(self).wf(),
            old(self).steps_to(key, *final(self), r),
    {
        if !self.running {
            return StepResult { event: Event::Halted, output: Vec::new(), key_taken: false };
        }
        let ghost mem0 = self.memory@;
        let pc = self.registers.get(PC);
        let instr = self.memory.read(pc, key);
        let key_left = if pc == MR_KBSR {
            None
        } else {
            key
        };
        let op = OpCode::parse(instr);
        proof {
            lemma_decode_well_formed(instr);
        }
        let wants_key = match op {
            OpCode::Trap(Trap::GETC) | OpCode::Trap(Trap::IN) => true,
            _ => false,
        };
        if wants_key && key_left.is_none() {
            proof {
                if pc == MR_KBSR {
                    assert(0x8000u16 >> 12u16 == 8 && 0u16 >> 12u16 == 0) by (bit_vector);
                    assert(!needs_key(decode(instr)));
                }
                assert(self.memory@ =~= mem0);
            }
            let mut output = Vec::new();
            if let OpCode::Trap(Trap::IN) = op {
                if !self.prompt_shown {
                    output = vstd::slice::slice_to_vec(IN_PROMPT.as_bytes());
                    self.prompt_shown = true;
                }
            }
            return StepResult { event: Event::WaitingForKey, output, key_taken: false };
        }
        *self.registers.pc_reg() = pc.wrapping_add(1);
        let (output, key_rest, event) = self.execute(op, instr, pc, key_left);
        self.prompt_shown = false;
        StepResult { event, output, key_taken: key.is_some() && key_rest.is_none() }
    }

    /// Register `r` set to `v`, and the flags from `v`.
    fn set_result(&mut self, r: usize, v: u16)
        requires
            old(self).wf(),
            r < 8,
        ensures
            final(self).wf(),
            final(self).registers@ == set_result(old(self).registers@, r, v),
            final(self).memory@ == old(self).memory@,
            final(self).running == old(self).running,
            final(self).prompt_shown == old(self).prompt_shown,
    {
        self.registers.set(r, v);
        self.registers.update_cond_flags(r);
    }

    /// Reads `address` with `key` as the keyboard's state; gives the word
    /// and the key that is left.
    fn load(&mut self, address: u16, key: Option<u16>) -> (r: (u16, Option<u16>))
        requires
            old(self).wf(),
        ensures
            final(self).wf(),
            final(self).memory@ == after_read(old(self).memory@, address, key),
            r.0 == final(self).memory@[address as int],
            r.1 == key_after(address, key),
            final(self).registers@ == old(self).registers@,
            final(self).running == old(self).running,
            final(self).prompt_shown == old(self).prompt_shown,
    {
        let v = self.memory.read(address, key);
        if address == MR_KBSR {
            (v, None)
        } else {
            (v, key)
        }
    }

    /// Runs `op`, fetched as `instr` from `pc`, once the program counter
    /// has moved on.
    fn execute(&mut self, op: OpCode, instr: u16, pc: u16, key: Option<u16>) -> (r: (
        Vec<u8>,
        Option<u16>,
        Event,
    ))
        requires
            old(self).wf(),
            old(self).running,
            op == decode(instr),
            op.well_formed(),
            needs_key(op) ==> key is Some,
        ensures
            final(self).wf(),
            ({
                let t = execute(
                    op,
                    instr,
                    pc,
                    old(self).registers@,
                    old(self).memory@,
                    key,
                    old(self).prompt_shown,
                );
                &&& final(self).registers@ == t.regs
                &&& final(self).memory@ == t.mem
                &&& final(self).running == t.running
                &&& final(self).prompt_shown == old(self).prompt_shown
                &&& !t.prompt_shown
                &&& r.0@ == t.output
                &&& r.1 == t.key
                &&& r.2 == t.event
            }),
    {
        proof {
            reveal(execute);
        }
        let next = self.registers.get(PC);
        match op {
            OpCode::AddReg { dest_reg, src_reg1, src_reg2 } => {
                let v = signed_sum(self.registers.get(src_reg1), self.registers.get(src_reg2));
                self.set_result(dest_reg, v);
            },
            OpCode::AddImm { dest_reg, src_reg, imm_value } => {
                let v = signed_sum(self.registers.get(src_reg), imm_value);
                self.set_result(dest_reg, v);
            },
            OpCode::AndReg { dest_reg, src_reg1, src_reg2 } => {
                let v = self.registers.get(src_reg1) & self.registers.get(src_reg2);
                self.set_result(dest_reg, v);
            },
            OpCode::AndImm { dest_reg, src_reg, imm_value } => {
                let v = self.registers.get(src_reg) & imm_value;
                self.set_result(dest_reg, v);
            },
            OpCode::Not { dest_reg, src_reg } => {
                let v = !self.registers.get(src_reg);
                self.set_result(dest_reg, v);
            },
            OpCode::Br { flags, offset } => {
                if ((flags as u16) & self.registers.get(COND)) != 0 {
                    self.registers.set(PC, signed_sum(next, offset));
                }
            },
            OpCode::Jmp { reg } => {
                let target = self.registers.get(reg);
                self.registers.set(PC, target);
            },
            OpCode::Jsr { offset } => {
                self.registers.set(R7, next);
                self.registers.set(PC, signed_sum(next, offset));
            },
            OpCode::Jsrr { reg } => {
                self.registers.set(R7, next);
                let target = self.registers.get(reg);
                self.registers.set(PC, target);
            },
            OpCode::Ld { reg, offset } => {
                let (v, rest) = self.load(signed_sum(next, offset), key);
                self.set_result(reg, v);
                return (Vec::new(), rest, Event::Ran);
            },
            OpCode::Ldi { reg, offset } => {
                let (address, rest) = self.load(signed_sum(next, offset), key);
                let (v, rest) = self.load(address, rest);
                self.set_result(reg, v);
                return (Vec::new(), rest, Event::Ran);
            },
            OpCode::Ldr { dest_reg, src_reg, offset } => {
                let base = self.registers.get(src_reg);
                let (v, rest) = self.load(signed_sum(base, offset), key);
                self.set_result(dest_reg, v);
                return (Vec::new(), rest, Event::Ran);
            },
            OpCode::Lea { reg, offset } => {
                self.set_result(reg, signed_sum(next, offset));
            },
            OpCode::St { reg, offset } => {
                let v = self.registers.get(reg);
                self.memory.write(signed_sum(next, offset), v);
            },
            OpCode::Sti { reg, offset } => {
                let (address, rest) = self.load(signed_sum(next, offset), key);
                let v = self.registers.get(reg);
                self.memory.write(address, v);
                return (Vec::new(), rest, Event::Ran);
            },
            OpCode::Str { src_reg, base_reg, offset } => {
                let base = self.registers.get(base_reg);
                let v = self.registers.get(src_reg);
                self.memory.write(signed_sum(base, offset), v);
            },
            OpCode::Trap(trap) => {
                return self.run_trap(trap, key);
            },
            OpCode::Rti | OpCode::Invalid => {
                return (Vec::new(), key, Event::Invalid { instr, pc });
            },
        }
        (Vec::new(), key, Event::Ran)
    }

    /// Runs the trap routine `trap`; gives what it writes, the key that is
    /// left, and how the step ended.
    fn run_trap(&mut self, trap: Trap, key: Option<u16>) -> (r: (Vec<u8>, Option<u16>, Event))
        requires
            old(self).wf(),
            old(self).running,
            needs_key(OpCode::Trap(trap)) ==> key is Some,
        ensures
            final(self).wf(),
            ({
                let t = execute(
                    OpCode::Trap(trap),
                    0,
                    0,
                    old(self).registers@,
                    old(self).memory@,
                    key,
                    old(self).prompt_shown,
                );
                &&& final(self).registers@ == t.regs
                &&& final(self).memory@ == t.mem
                &&& final(self).running == t.running
                &&& final(self).prompt_shown == old(self).prompt_shown
                &&& !t.prompt_shown
                &&& r.0@ == t.output
                &&& r.1 == t.key
                &&& r.2 == t.event
            }),
    {
        proof {
            reveal(execute);
        }
        match trap {
            Trap::GETC => {
                self.registers.set(0, key.unwrap());
                (Vec::new(), None, Event::Ran)
            },
            Trap::IN => {
                self.registers.set(0, key.unwrap());
                let prompt = if self.prompt_shown {
                    Vec::new()
                } else {
                    vstd::slice::slice_to_vec(IN_PROMPT.as_bytes())
                };
                (prompt, None, Event::Ran)
            },
            Trap::OUT => {
                let mut out = Vec::new();
                out.push(#[verifier::truncate] (self.registers.get(0) as u8));
                (out, key, Event::Ran)
            },
            Trap::PUTS => (self.string_from(self.registers.get(0)), key, Event::Ran),
            Trap::PUTSP => (self.packed_string_from(self.registers.get(0)), key, Event::Ran),
            Trap::HALT => {
                self.running = false;
                (vstd::slice::slice_to_vec(HALT_NOTICE.as_bytes()), key, Event::Halted)
            },
        }
    }

    /// The string at `start`, one character per word, of at most one word
    /// per address.
    fn string_from(&self, start: u16) -> (out: Vec<u8>)
        requires
            self.wf(),
        ensures
            out@ == string_at(self.memory@, start, MEMORY_SIZE as nat),
    {
        let ghost mem = self.memory@;
        let mut out: Vec<u8> = Vec::new();
        let mut a: u16 = start;
        let mut left: usize = MEMORY_SIZE;
        while left > 0 && self.memory.get(a) != 0
            invariant
                self.wf(),
                mem == self.memory@,
                left <= MEMORY_SIZE,
                out@ + string_at(mem, a, left as nat) == string_at(mem, start, MEMORY_SIZE as nat),
            decreases left,
        {
            let w = self.memory.get(a);
            let c = #[verifier::truncate] (w as u8);
            let next = signed_sum(a, 1);
            assert(out@.push(c) + string_at(mem, next, (left - 1) as nat) =~= out@ + string_at(
                mem,
                a,
                left as nat,
            ));
            out.push(c);
            a = next;
            left = left - 1;
        }
        assert(out@ + string_at(mem, a, left as nat) =~= out@);
        out
    }

    /// The string at `start`, two characters per word, of at most one word
    /// per address.
    fn packed_string_from(&self, start: u16) -> (out: Vec<u8>)
        requires
            self.wf(),
        ensures
            out@ == packed_string_at(self.memory@, start, MEMORY_SIZE as nat),
    {
        let ghost mem = self.memory@;
        let mut out: Vec<u8> = Vec::new();
        let mut a: u16 = start;
        let mut left: usize = MEMORY_SIZE;
        while left > 0 && self.memory.get(a) != 0
            invariant
                self.wf(),
                mem == self.memory@,
                left <= MEMORY_SIZE,
                out@ + packed_string_at(mem, a, left as nat) == packed_string_at(
                    mem,
                    start,
                    MEMORY_SIZE as nat,
                ),
            decreases left,
        {
            let w = self.memory.get(a);
            let ghost before = out@;
            out.push(#[verifier::truncate] ((w & 0xff) as u8));
            let high = #[verifier::truncate] ((w >> 8) as u8);
            if high != 0 {
                out.push(high);
            }
            let next = signed_sum(a, 1);
            assert(out@ + packed_string_at(mem, next, (left - 1) as nat) =~= before
                + packed_string_at(mem, a, left as nat));
            a = next;
            left = left - 1;
        }
        assert(out@ + packed_string_at(mem, a, left as nat) =~= out@);
        out
    }
}

} // verus!
