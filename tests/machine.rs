use lc3_vm::machine::{signed_sum, Event, Machine, HALT_NOTICE, IN_PROMPT};
use lc3_vm::memory::{ImageError, Memory, MR_KBDR, MR_KBSR};
use lc3_vm::register::{Registers, COND, FL_NEG, FL_POS, FL_ZRO, PC, PC_START, R7};

fn machine_with(program: &[u16]) -> Machine {
    let mut m = Machine::new();
    for (i, w) in program.iter().enumerate() {
        m.memory.write(PC_START + i as u16, *w);
    }
    m
}

#[test]
fn new_registers() {
    let r = Registers::new();
    for i in 0..8 {
        assert_eq!(r.get(i), 0);
    }
    assert_eq!(r.get(PC), 0x3000);
    assert_eq!(r.get(COND), FL_ZRO);
}

#[test]
fn flag_update() {
    let mut r = Registers::new();
    r.set(1, 0x0000);
    r.update_cond_flags(1);
    assert_eq!(r.get(COND), FL_ZRO);
    r.set(1, 0x8000);
    r.update_cond_flags(1);
    assert_eq!(r.get(COND), FL_NEG);
    r.set(1, 0x0001);
    r.update_cond_flags(1);
    assert_eq!(r.get(COND), FL_POS);
    r.set(2, 0xFFFF);
    r.update_cond_flags(2);
    assert_eq!(r.get(COND), FL_NEG);
}

#[test]
fn pc_reg_changes_the_program_counter() {
    let mut r = Registers::new();
    *r.pc_reg() += 5;
    assert_eq!(r.get(PC), 0x3005);
}

#[test]
fn signed_sum_wraps() {
    assert_eq!(signed_sum(0xFFFF, 0x0001), 0);
    assert_eq!(signed_sum(0x3000, 0xFFFE), 0x2FFE);
    assert_eq!(signed_sum(2, 3), 5);
}

#[test]
fn add_wraps_to_zero() {
    // ADD R2, R0, R1
    let mut m = machine_with(&[0x1401]);
    m.registers.set(0, 0xFFFF);
    m.registers.set(1, 0x0001);
    let r = m.step(None);
    assert_eq!(r.event, Event::Ran);
    assert_eq!(m.registers.get(2), 0);
    assert_eq!(m.registers.get(COND), FL_ZRO);
    assert_eq!(m.registers.get(PC), 0x3001);
}

#[test]
fn add_immediate_negative() {
    // ADD R1, R1, #-1
    let mut m = machine_with(&[0x127F]);
    m.step(None);
    assert_eq!(m.registers.get(1), 0xFFFF);
    assert_eq!(m.registers.get(COND), FL_NEG);
}

#[test]
fn and_and_not() {
    // AND R3, R1, R2 ; AND R4, R1, #6 ; NOT R5, R1
    let mut m = machine_with(&[0x5642, 0x5866, 0x9A7F]);
    m.registers.set(1, 0b1100);
    m.registers.set(2, 0b1010);
    m.step(None);
    m.step(None);
    m.step(None);
    assert_eq!(m.registers.get(3), 0b1000);
    assert_eq!(m.registers.get(4), 0b0100);
    assert_eq!(m.registers.get(5), !0b1100u16);
    assert_eq!(m.registers.get(COND), FL_NEG);
}

#[test]
fn branch_taken_and_not_taken() {
    // BRz #4 with the zero flag set, then BRp #-1 with it still zero
    let mut m = machine_with(&[0x0404]);
    m.memory.write(0x3005, 0x03FF);
    m.step(None);
    assert_eq!(m.registers.get(PC), 0x3005);
    m.step(None);
    assert_eq!(m.registers.get(PC), 0x3006);
}

#[test]
fn jumps_and_subroutines() {
    // JSR #16 at 0x3000; JSRR R2 at 0x3011; JMP R7 at 0x4000
    let mut m = machine_with(&[0x4810]);
    m.memory.write(0x3011, 0x4080);
    m.memory.write(0x4000, 0xC1C0);
    m.registers.set(2, 0x4000);
    m.step(None);
    assert_eq!(m.registers.get(PC), 0x3011);
    assert_eq!(m.registers.get(R7), 0x3001);
    m.step(None);
    assert_eq!(m.registers.get(PC), 0x4000);
    assert_eq!(m.registers.get(R7), 0x3012);
    m.step(None);
    assert_eq!(m.registers.get(PC), 0x3012);
}

#[test]
fn loads_and_stores() {
    // LD R1, #2 ; LDI R2, #2 ; LDR R3, R1, #-1 ; (data) 0x3010 ; (data) 0x3011
    let mut m = machine_with(&[0x2202, 0xA402, 0x667F, 0x3010, 0x3011]);
    m.memory.write(0x3011, 0x8001);
    m.memory.write(0x300F, 7);
    m.step(None);
    assert_eq!(m.registers.get(1), 0x3010);
    assert_eq!(m.registers.get(COND), FL_POS);
    m.step(None);
    assert_eq!(m.registers.get(2), 0x8001);
    assert_eq!(m.registers.get(COND), FL_NEG);
    m.step(None);
    assert_eq!(m.registers.get(3), 7);

    // ST R3, #3 ; STI R3, #1 ; STR R3, R1, #2 ; (data) 0x5000
    let mut m = machine_with(&[0x3603, 0xB601, 0x7642, 0x5000]);
    m.registers.set(3, 42);
    m.registers.set(1, 0x6000);
    m.step(None);
    assert_eq!(m.memory.get(0x3004), 42);
    m.step(None);
    assert_eq!(m.memory.get(0x5000), 42);
    m.step(None);
    assert_eq!(m.memory.get(0x6002), 42);
}

#[test]
fn lea_then_halt() {
    // LEA R0, #0 ; TRAP x25
    let mut m = machine_with(&[0xE000, 0xF025]);
    let r = m.step(None);
    assert_eq!(r.event, Event::Ran);
    // the offset is added to the incremented program counter
    assert_eq!(m.registers.get(0), 0x3001);
    let r = m.step(None);
    assert_eq!(r.event, Event::Halted);
    assert!(!m.running);
    assert_eq!(r.output, HALT_NOTICE.as_bytes().to_vec());
    assert_eq!(r.output, b"HALT\n".to_vec());
    let r = m.step(None);
    assert_eq!(r.event, Event::Halted);
    assert!(r.output.is_empty());
    assert_eq!(m.registers.get(PC), 0x3002);
}

#[test]
fn program_counter_wraps() {
    let mut m = Machine::new();
    m.registers.set(PC, 0xFFFF);
    m.step(None);
    assert_eq!(m.registers.get(PC), 0);
}

#[test]
fn invalid_instruction_is_reported_and_skipped() {
    let mut m = machine_with(&[0xD000, 0x8000]);
    let r = m.step(None);
    assert_eq!(r.event, Event::Invalid { instr: 0xD000, pc: 0x3000 });
    let r = m.step(None);
    assert_eq!(r.event, Event::Invalid { instr: 0x8000, pc: 0x3001 });
    assert!(m.running);
    assert_eq!(m.registers.get(PC), 0x3002);
}

#[test]
fn out_puts_putsp() {
    // OUT ; PUTS ; PUTSP
    let mut m = machine_with(&[0xF021, 0xF022, 0xF024]);
    m.registers.set(0, 0x4000);
    m.memory.write(0x4000, 0x48);
    m.memory.write(0x4001, 0x69);
    let r = m.step(None);
    assert_eq!(r.output, vec![0x00]);
    let r = m.step(None);
    assert_eq!(r.output, b"Hi".to_vec());
    m.memory.write(0x4000, 0x6948);
    m.memory.write(0x4001, 0x0021);
    let r = m.step(None);
    assert_eq!(r.output, b"Hi!".to_vec());
}

#[test]
fn puts_wraps_past_the_last_address() {
    let mut m = machine_with(&[0xF022, 0xF024]);
    m.registers.set(0, 0xFFFE);
    m.memory.write(0xFFFE, 0x41);
    m.memory.write(0xFFFF, 0x42);
    m.memory.write(0x0000, 0x43);
    let r = m.step(None);
    assert_eq!(r.output, b"ABC".to_vec());
    m.memory.write(0xFFFF, 0x4544);
    let r = m.step(None);
    assert_eq!(r.output, b"ADEC".to_vec());
}

#[test]
fn puts_reads_at_most_every_word_once() {
    let mut m = Machine::new();
    for a in 0..=u16::MAX {
        m.memory.write(a, 0x41);
    }
    m.memory.write(0x3000, 0xF022);
    m.registers.set(0, 0x3001);
    let r = m.step(None);
    assert_eq!(r.output.len(), 0x10000);
}

#[test]
fn getc_waits_for_a_key() {
    let mut m = machine_with(&[0xF020, 0xF023]);
    let r = m.step(None);
    assert_eq!(r.event, Event::WaitingForKey);
    assert!(!r.key_taken);
    assert_eq!(m.registers.get(PC), 0x3000);
    let r = m.step(Some(0x61));
    assert_eq!(r.event, Event::Ran);
    assert!(r.key_taken);
    assert_eq!(m.registers.get(0), 0x61);
    let r = m.step(Some(0x62));
    assert_eq!(r.output, IN_PROMPT.as_bytes().to_vec());
    assert!(r.key_taken);
    assert_eq!(m.registers.get(0), 0x62);
}

#[test]
fn in_prompts_once_before_waiting() {
    let mut m = machine_with(&[0xF023]);
    let r = m.step(None);
    assert_eq!(r.event, Event::WaitingForKey);
    assert_eq!(r.output, IN_PROMPT.as_bytes().to_vec());
    assert!(m.prompt_shown);
    let r = m.step(None);
    assert_eq!(r.event, Event::WaitingForKey);
    assert!(r.output.is_empty());
    let r = m.step(Some(0x63));
    assert_eq!(r.event, Event::Ran);
    assert!(r.output.is_empty());
    assert!(r.key_taken);
    assert!(!m.prompt_shown);
    assert_eq!(m.registers.get(0), 0x63);
    assert_eq!(m.registers.get(PC), 0x3001);
}

#[test]
fn key_is_kept_when_unused() {
    let mut m = machine_with(&[0x1000]);
    let r = m.step(Some(0x41));
    assert!(!r.key_taken);
}

#[test]
fn keyboard_status_read() {
    let mut mem = Memory::new();
    mem.write(MR_KBSR, 0x1234);
    assert_eq!(mem.read(MR_KBSR, None), 0);
    assert_eq!(mem.get(MR_KBSR), 0);
    assert_eq!(mem.read(MR_KBSR, Some(0x41)), 0x8000);
    assert_eq!(mem.get(MR_KBDR), 0x41);
    assert_eq!(mem.read(MR_KBDR, None), 0x41);
    mem.write(0x1234, 9);
    assert_eq!(mem.read(0x1234, Some(0x41)), 9);
    assert_eq!(mem.get(MR_KBDR), 0x41);
}

#[test]
fn program_polls_the_keyboard() {
    // LDI R1, #0 ; (data) KBSR
    let mut m = machine_with(&[0xA200, MR_KBSR]);
    let r = m.step(Some(0x7A));
    assert!(r.key_taken);
    assert_eq!(m.registers.get(1), 0x8000);
    assert_eq!(m.memory.get(MR_KBDR), 0x7A);
}

#[test]
fn image_loading() {
    let mut mem = Memory::new();
    assert_eq!(mem.load_file(&[0x30, 0x00, 0x12, 0x34]), Ok(()));
    assert_eq!(mem.get(0x3000), 0x1234);
    for a in 0..=u16::MAX {
        if a != 0x3000 {
            assert_eq!(mem.get(a), 0);
        }
    }
}

#[test]
fn image_loading_later_overwrites_and_odd_byte() {
    let mut mem = Memory::new();
    assert_eq!(mem.load_file(&[0x30, 0x00, 0x00, 0x01, 0x00, 0x02]), Ok(()));
    assert_eq!(mem.load_file(&[0x30, 0x01, 0x00, 0x03, 0x07]), Ok(()));
    assert_eq!(mem.get(0x3000), 1);
    assert_eq!(mem.get(0x3001), 3);
    assert_eq!(mem.get(0x3002), 0);
    assert_eq!(mem.load_file(&[0xFF, 0xFF, 0xAB, 0xCD]), Ok(()));
    assert_eq!(mem.get(0xFFFF), 0xABCD);
}

#[test]
fn image_errors() {
    let mut mem = Memory::new();
    assert_eq!(mem.load_file(&[]), Err(ImageError::MissingOrigin));
    assert_eq!(mem.load_file(&[0x30]), Err(ImageError::MissingOrigin));
    assert_eq!(mem.get(0x3000), 0);
}

#[test]
fn image_loading_wraps_past_the_last_address() {
    let mut mem = Memory::new();
    assert_eq!(mem.load_file(&[0xFF, 0xFF, 0x00, 0x01, 0x00, 0x02]), Ok(()));
    assert_eq!(mem.get(0xFFFF), 1);
    assert_eq!(mem.get(0x0000), 2);
    assert_eq!(mem.get(0x0001), 0);
}

#[test]
fn image_loading_lea_halt_program() {
    let mut mem = Memory::new();
    assert_eq!(mem.load_file(&[0x30, 0x00, 0xE0, 0x00, 0xF0, 0x25]), Ok(()));
    assert_eq!(mem.get(0x3000), 0xE000);
    assert_eq!(mem.get(0x3001), 0xF025);
}
