use vstd::prelude::*;
use crate::cpu::{Cpu, CpuModel, Regs, Reg8, Reg16, FRAME_TCYCLES, TCYCLE_CEILING, wrap16, word, hi8, lo8};
use crate::instructions::{execute_main, main_next, main_supported, index_addr, offset_addr, Instruction, Di, Ei, Halt};
use crate::instructions::cb::{execute_cb, cb_next, cb_supported};
use crate::instructions::ed::{execute_ed, ed_next, ed_supported};
use crate::instructions::dd::{execute_dd, dd_next, dd_supported};
use crate::instructions::fd::{execute_fd, fd_next, fd_supported};
use crate::instructions::ddcb::{execute_ddcb, ddcb_next, ddcb_supported};
use crate::instructions::fdcb::{execute_fdcb, fdcb_next, fdcb_supported};

verus! {

/// Why an instruction could not be carried out.
#[derive(Clone, Copy, Debug, PartialEq, Eq, Structural)]
pub enum StepError {
    /// The decoding tables have no instruction for the opcode `opcode`,
    /// found at `addr`.
    Unsupported { opcode: u8, addr: u16 },
    /// The instruction wrote to read-only memory at `addr`.
    RomWrite { addr: u16 },
}

/// An instruction may start while the T-cycle counter is at most this.
pub const STEP_TCYCLE_LIMIT: u32 = 0xFFE0_0000;

/// Most T-cycles that one instruction takes, prefixes included.
pub const MAX_INSTRUCTION_TCYCLES: u32 = 0x9000;

/// The counter never passes this when the processor runs step after step
/// from a counter at most this: an interrupt check takes a frame off at the
/// end of each frame.
pub const RUN_TCYCLE_BOUND: u32 = 70908 + 0xA000;

/// The state after an opcode fetch at the PC (four T-cycles) and the byte
/// fetched.
pub open spec fn fetched(s: CpuModel) -> (u8, CpuModel) {
    (s.mem_at(s.regs.pc), s.after_read(s.regs.pc, 4))
}

/// The state after an instruction of one decoding table, and the address
/// `at` of its opcode when the table has no instruction for it.
pub open spec fn table_outcome(next: CpuModel, supported: bool, at: u16) -> (CpuModel, Option<u16>) {
    (next, if supported { None } else { Some(at) })
}

/// What follows DD CB (`ix`) or FD CB, the PC on the CB: the displacement,
/// the third opcode, two idle cycles, WZ set to the indexed address, and the
/// instruction.
pub open spec fn index_bit_outcome(s: CpuModel, ix: bool) -> (CpuModel, Option<u16>) {
    let s1 = s.set_regs(s.regs.advance_pc(1));
    let p = s1.regs.pc;
    let d = s1.mem_at(p);
    let s2 = s1.after_read(p, 3);
    let p1 = wrap16(p + 1);
    let op2 = s2.mem_at(p1);
    let s3 = s2.after_read(p1, 3).after_no_mreq(p1).after_no_mreq(p1);
    let base = if ix { s3.regs.ix } else { s3.regs.iy };
    let s4 = s3.set_regs(s3.regs.with_reg16(Reg16::WZ, index_addr(base, d)));
    if ix {
        table_outcome(ddcb_next(s4, op2), ddcb_supported(op2), p)
    } else {
        table_outcome(fdcb_next(s4, op2), fdcb_supported(op2), p)
    }
}

/// What follows a DD (`ix`) or FD prefix whose second opcode `op` has just
/// been fetched, the PC on it. A DD after FD, or an FD after DD, only
/// drops the first prefix.
pub open spec fn index_outcome(s: CpuModel, ix: bool, op: u8) -> (CpuModel, Option<u16>) {
    if op == 0xCB {
        index_bit_outcome(s, ix)
    } else if (ix && op == 0xFD) || (!ix && op == 0xDD) {
        (s.set_regs(s.regs.advance_pc(1)), None)
    } else if ix {
        table_outcome(dd_next(s, op), dd_supported(op), s.regs.pc)
    } else {
        table_outcome(fd_next(s, op), fd_supported(op), s.regs.pc)
    }
}

/// One instruction, prefixes included: the state after it, and the address
/// of the opcode when no table has an instruction for it.
pub open spec fn step_outcome(s: CpuModel) -> (CpuModel, Option<u16>) {
    let (op, s1) = fetched(s);
    if op == 0xCB || op == 0xED || op == 0xDD || op == 0xFD {
        let s2 = s1.set_regs(s1.regs.advance_pc(1));
        let (op1, s3) = fetched(s2);
        let s4 = s3.set_regs(s3.regs.bump_r(2));
        if op == 0xCB {
            table_outcome(cb_next(s4, op1), cb_supported(op1), s4.regs.pc)
        } else if op == 0xED {
            table_outcome(ed_next(s4, op1), ed_supported(op1), s4.regs.pc)
        } else {
            index_outcome(s4, op == 0xDD, op1)
        }
    } else {
        let s2 = s1.set_regs(s1.regs.bump_r(1));
        table_outcome(main_next(s2, op), main_supported(op), s2.regs.pc)
    }
}

/// `s` with no fault recorded: the state an instruction starts from.
pub open spec fn fresh(s: CpuModel) -> CpuModel {
    CpuModel { fault: None, ..s }
}

/// The processor after `run_instruction` from `s`.
pub open spec fn step_next(s: CpuModel) -> CpuModel {
    step_outcome(fresh(s)).0
}

/// What `run_instruction` from `s` returns: the missing opcode, else the
/// first write to read-only memory, else success.
pub open spec fn step_result(s: CpuModel) -> Result<(), StepError> {
    match step_outcome(fresh(s)).1 {
        Some(at) => Err(StepError::Unsupported { opcode: s.mem_at(at), addr: at }),
        None => match step_next(s).fault {
            Some(addr) => Err(StepError::RomWrite { addr }),
            None => Ok(()),
        },
    }
}

/// The maskable interrupt check at the end of a frame: the state after it,
/// and whether a frame had ended.
pub open spec fn interrupt_outcome(s: CpuModel) -> (CpuModel, bool) {
    if s.tcycles >= FRAME_TCYCLES {
        let s1 = s.advance(-(FRAME_TCYCLES as int));
        if s1.regs.iff1 {
            let s2 = s1.set_regs(Regs { iff1: false, iff2: false, ..s1.regs }.bump_r(1)).advance(7);
            let pc = s2.regs.pc;
            let sp = s2.regs.sp;
            let s3 = s2.after_write(wrap16(sp - 1), hi8(pc));
            let s4 = s3.after_write(wrap16(sp - 2), lo8(pc));
            let s5 = s4.set_regs(Regs { sp: wrap16(sp - 2), ..s4.regs });
            if s5.regs.im == 2 {
                let addr = wrap16(256 * s5.regs.i + 256);
                let low = s5.mem_at(addr);
                let s6 = s5.after_read(addr, 3);
                let addr1 = wrap16(addr + 1);
                let high = s6.mem_at(addr1);
                let s7 = s6.after_read(addr1, 3);
                (s7.set_regs(s7.regs.with_pc(word(high, low))), true)
            } else {
                (s5.set_regs(s5.regs.with_pc(0x0038)), true)
            }
        } else {
            (s1, true)
        }
    } else {
        (s, false)
    }
}

/// One step of the processor from `s`: the end-of-frame interrupt check,
/// then one instruction unless the interrupt wrote to read-only memory.
pub open spec fn cpu_step(s: CpuModel) -> (CpuModel, Result<(), StepError>) {
    let s1 = interrupt_outcome(fresh(s)).0;
    match s1.fault {
        Some(addr) => (s1, Err(StepError::RomWrite { addr })),
        None => (step_next(s1), step_result(s1)),
    }
}

/// `n` steps from `s`, stopping at the first that fails.
pub open spec fn run_outcome(s: CpuModel, n: nat) -> (CpuModel, Result<(), StepError>)
    decreases n,
{
    if n == 0 {
        (s, Ok(()))
    } else {
        let (s1, r) = cpu_step(s);
        match r {
            Ok(()) => run_outcome(s1, (n - 1) as nat),
            Err(e) => (s1, Err(e)),
        }
    }
}

impl Cpu {
    /// One step: the end-of-frame interrupt check, then one instruction.
    /// Fails when the interrupt or the instruction writes to read-only
    /// memory, or when no table knows the opcode.
    pub fn step(&mut self) -> (r: Result<(), StepError>)
        requires
            old(self).wf(),
            old(self)@.tcycles <= RUN_TCYCLE_BOUND,
        ensures
            final(self).wf(),
            (final(self)@, r) == cpu_step(old(self)@),
            final(self)@.tcycles <= RUN_TCYCLE_BOUND,
    {
        self.clear_fault();
        self.handle_interrupts();
        match self.fault() {
            Some(addr) => Err(StepError::RomWrite { addr }),
            None => self.run_instruction(),
        }
    }

    /// Runs up to `max_steps` steps, stopping at the first that fails.
    pub fn run(&mut self, max_steps: u64) -> (r: Result<(), StepError>)
        requires
            old(self).wf(),
            old(self)@.tcycles <= RUN_TCYCLE_BOUND,
        ensures
            final(self).wf(),
            (final(self)@, r) == run_outcome(old(self)@, max_steps as nat),
            final(self)@.tcycles <= RUN_TCYCLE_BOUND,
    {
        let mut i: u64 = 0;
        while i < max_steps
            invariant
                i <= max_steps,
                self.wf(),
                self@.tcycles <= RUN_TCYCLE_BOUND,
                run_outcome(self@, (max_steps - i) as nat) == run_outcome(old(self)@, max_steps as nat),
            decreases max_steps - i,
        {
            let r = self.step();
            if r.is_err() {
                return r;
            }
            i = i + 1;
        }
        Ok(())
    }

    /// Decodes and executes one instruction at the PC, prefixes included.
    /// The fault is cleared first. Returns an error when no table has an
    /// instruction for the opcode (the prefixes have then been consumed), or
    /// when the instruction wrote to read-only memory (the write was dropped).
    #[verifier::rlimit(80)]
    pub fn run_instruction(&mut self) -> (r: Result<(), StepError>)
        requires
            old(self).wf(),
            old(self)@.tcycles <= STEP_TCYCLE_LIMIT,
        ensures
            final(self).wf(),
            final(self)@ == step_next(old(self)@),
            r == step_result(old(self)@),
            final(self)@.tcycles <= old(self)@.tcycles + MAX_INSTRUCTION_TCYCLES,
    {
        self.clear_fault();
        let pc0: u16 = self.get_pc();
        let op: u8 = self.fetch_op();
        let mut missing: Option<u16> = None;
        if op == 0xCB || op == 0xED || op == 0xDD || op == 0xFD {
            self.inc_pc(1);
            let pc1: u16 = self.get_pc();
            let op1: u8 = self.fetch_op();
            self.inc_r(2);
            if op == 0xCB {
                if !execute_cb(self, op1) {
                    missing = Some(pc1);
                }
            } else if op == 0xED {
                if !execute_ed(self, op1) {
                    missing = Some(pc1);
                }
            } else {
                missing = self.run_indexed(op == 0xDD, op1);
            }
        } else {
            self.inc_r(1);
            if !execute_main(self, op) {
                missing = Some(pc0);
            }
        }
        proof {
            assert(fresh(old(self)@).mem_at(pc0) == op);
        }
        match missing {
            Some(at) => Err(StepError::Unsupported { opcode: self.opcode_at(at), addr: at }),
            None => match self.fault() {
                Some(addr) => Err(StepError::RomWrite { addr }),
                None => Ok(()),
            },
        }
    }

    /// The rest of an instruction after a DD (`ix`) or FD prefix and its
    /// second opcode `op`; the address of an opcode no table knows.
    fn run_indexed(&mut self, ix: bool, op: u8) -> (missing: Option<u16>)
        requires
            old(self).wf(),
            old(self)@.tcycles <= TCYCLE_CEILING - 0x1000,
        ensures
            final(self).wf(),
            (final(self)@, missing) == index_outcome(old(self)@, ix, op),
            missing is Some ==> final(self)@.bus.mem == old(self)@.bus.mem,
            final(self)@.tcycles <= old(self)@.tcycles + MAX_INSTRUCTION_TCYCLES - 0x300,
    {
        if op == 0xCB {
            self.run_indexed_bit(ix)
        } else if (ix && op == 0xFD) || (!ix && op == 0xDD) {
            self.inc_pc(1);
            None
        } else if ix {
            let p: u16 = self.get_pc();
            if execute_dd(self, op) { None } else { Some(p) }
        } else {
            let p: u16 = self.get_pc();
            if execute_fd(self, op) { None } else { Some(p) }
        }
    }

    /// DD CB d op or FD CB d op, the PC on the CB.
    #[verifier::rlimit(80)]
    fn run_indexed_bit(&mut self, ix: bool) -> (missing: Option<u16>)
        requires
            old(self).wf(),
            old(self)@.tcycles <= TCYCLE_CEILING - 0x1000,
        ensures
            final(self).wf(),
            (final(self)@, missing) == index_bit_outcome(old(self)@, ix),
            missing is Some ==> final(self)@.bus.mem == old(self)@.bus.mem,
            final(self)@.tcycles <= old(self)@.tcycles + MAX_INSTRUCTION_TCYCLES - 0x300,
    {
        self.inc_pc(1);
        let p: u16 = self.get_pc();
        let d: u8 = self.read_word(p);
        let p1: u16 = p.wrapping_add(1);
        let op2: u8 = self.read_word(p1);
        self.contend_read_no_mreq(p1);
        self.contend_read_no_mreq(p1);
        let base: u16 = if ix { self.read_reg16(Reg16::IX) } else { self.read_reg16(Reg16::IY) };
        self.write_reg16(Reg16::WZ, offset_addr(base, d));
        let supported: bool = if ix { execute_ddcb(self, op2) } else { execute_fdcb(self, op2) };
        if supported { None } else { Some(p) }
    }

    /// The byte at `addr`, read without taking time.
    fn opcode_at(&self, addr: u16) -> (op: u8)
        requires
            self.wf(),
        ensures
            op == self@.mem_at(addr),
    {
        self.zero_cycle_read_word(addr)
    }

    /// At the end of a frame (the counter past `FRAME_TCYCLES`), takes the
    /// frame off the counter and, when interrupts are enabled, accepts the
    /// maskable interrupt: pushes the PC and jumps to 0x0038, or in mode 2
    /// through the vector table at `I * 256 + 256`. Says whether a frame
    /// ended. A refused write is recorded as the fault.
    #[verifier::rlimit(80)]
    pub fn handle_interrupts(&mut self) -> (ended: bool)
        requires
            old(self).wf(),
        ensures
            final(self).wf(),
            (final(self)@, ended) == interrupt_outcome(old(self)@),
            old(self)@.tcycles >= FRAME_TCYCLES ==> final(self)@.tcycles <= old(self)@.tcycles - FRAME_TCYCLES + 0x500,
            old(self)@.tcycles < FRAME_TCYCLES ==> final(self)@.tcycles == old(self)@.tcycles,
    {
        if self.tcycles >= FRAME_TCYCLES {
            self.tcycles = self.tcycles - FRAME_TCYCLES;
            if self.get_iff1() {
                self.clear_iff1();
                self.clear_iff2();
                self.inc_r(1);
                self.tcycles = self.tcycles + 7;
                let pc: u16 = self.get_pc();
                let sp: u16 = self.read_reg16(Reg16::SP);
                self.write_word(sp.wrapping_sub(1), (pc / 256) as u8);
                self.write_word(sp.wrapping_sub(2), (pc % 256) as u8);
                self.write_reg16(Reg16::SP, sp.wrapping_sub(2));
                if self.get_im() == 2 {
                    let i: u8 = self.read_reg8(Reg8::I);
                    let addr: u16 = if i == 255 { 0 } else { (i as u16 + 1) * 256 };
                    let low: u8 = self.read_word(addr);
                    let high: u8 = self.read_word(addr.wrapping_add(1));
                    self.set_pc((high as u16) * 256 + low as u16);
                } else {
                    self.set_pc(0x0038);
                }
            }
            true
        } else {
            false
        }
    }
}

/// Before the frame ends, the interrupt check changes nothing.
pub proof fn lemma_no_interrupt_before_frame_end(s: CpuModel)
    requires
        s.tcycles < FRAME_TCYCLES,
    ensures
        interrupt_outcome(s) == (s, false),
{
}

/// At the end of a frame with interrupts disabled, only the counter changes:
/// it loses one frame.
pub proof fn lemma_interrupt_disabled(s: CpuModel)
    requires
        s.tcycles >= FRAME_TCYCLES,
        !s.regs.iff1,
    ensures
        interrupt_outcome(s) == (CpuModel { tcycles: s.tcycles - FRAME_TCYCLES, ..s }, true),
{
}

/// An accepted interrupt, in every mode, disables interrupts, takes a frame
/// off the counter's start and pushes the PC: its high byte at SP - 1, its
/// low byte at SP - 2. In modes 0 and 1 it then jumps to 0x0038; in mode 2
/// to the little-endian word at I * 256 + 256 (modulo 64K) of the vector
/// table.
#[verifier::spinoff_prover]
#[verifier::rlimit(80)]
pub proof fn lemma_interrupt_accepted(s: CpuModel)
    requires
        s.wf(),
        s.tcycles >= FRAME_TCYCLES,
        s.regs.iff1,
        s.bus.mem.writable(((s.regs.sp + 65535) % 65536) as u16),
        s.bus.mem.writable(((s.regs.sp + 65534) % 65536) as u16),
    ensures
        interrupt_outcome(s).1,
        interrupt_outcome(s).0.regs.sp == ((s.regs.sp + 65534) % 65536) as u16,
        !interrupt_outcome(s).0.regs.iff1,
        !interrupt_outcome(s).0.regs.iff2,
        interrupt_outcome(s).0.mem_at(((s.regs.sp + 65535) % 65536) as u16) == (s.regs.pc / 256) as u8,
        interrupt_outcome(s).0.mem_at(((s.regs.sp + 65534) % 65536) as u16) == (s.regs.pc % 256) as u8,
        s.regs.im != 2 ==> interrupt_outcome(s).0.regs.pc == 0x0038,
        s.regs.im == 2 ==> ({
            let t = interrupt_outcome(s).0;
            let v = ((s.regs.i * 256 + 256) % 65536) as u16;
            t.regs.pc == (t.mem_at(((v + 1) % 65536) as u16) * 256 + t.mem_at(v)) as u16
        }),
{
    let sp = s.regs.sp;
    let a1 = wrap16(sp - 1);
    let a2 = wrap16(sp - 2);
    assert(a1 == ((sp + 65535) % 65536) as u16);
    assert(a2 == ((sp + 65534) % 65536) as u16);
    let m0 = s.bus.mem;
    let m1 = m0.write(a1, hi8(s.regs.pc));
    crate::memory::lemma_write_then_read(m0, a1, hi8(s.regs.pc), a1);
    crate::memory::lemma_write_then_read(m1, a2, lo8(s.regs.pc), a2);
    crate::memory::lemma_write_then_read(m1, a2, lo8(s.regs.pc), a1);
    assert(!m1.same_cell(a2, a1));
}

/// Instructions run from memory that does not share the ULA's bus
/// (0x8000-0xBFFF) take the T-states of the Z80's timing tables: NOP,
/// LD B, C, INC B and ADD A, B four; LD A, n and ADD A, n seven; LD BC, nn
/// and JP nn ten; JR e twelve; JR NZ, e twelve when it jumps and seven when
/// it does not.
#[verifier::spinoff_prover]
#[verifier::rlimit(80)]
pub proof fn lemma_uncontended_timing(s: CpuModel)
    requires
        0x8000 <= s.regs.pc,
        s.regs.pc + 2 < 0xC000,
    ensures
        s.mem_at(s.regs.pc) == 0x00 ==> step_next(s).tcycles == s.tcycles + 4,
        s.mem_at(s.regs.pc) == 0x80 ==> step_next(s).tcycles == s.tcycles + 4,
        s.mem_at(s.regs.pc) == 0x3E ==> step_next(s).tcycles == s.tcycles + 7,
        s.mem_at(s.regs.pc) == 0xC6 ==> step_next(s).tcycles == s.tcycles + 7,
        s.mem_at(s.regs.pc) == 0xC3 ==> step_next(s).tcycles == s.tcycles + 10,
        s.mem_at(s.regs.pc) == 0x18 ==> step_next(s).tcycles == s.tcycles + 12,
        s.mem_at(s.regs.pc) == 0x41 ==> step_next(s).tcycles == s.tcycles + 4,
        s.mem_at(s.regs.pc) == 0x04 ==> step_next(s).tcycles == s.tcycles + 4,
        s.mem_at(s.regs.pc) == 0x01 ==> step_next(s).tcycles == s.tcycles + 10,
        s.mem_at(s.regs.pc) == 0x20 ==> step_next(s).tcycles == s.tcycles + if s.regs.flag(
            crate::cpu::ZERO_FLAG,
        ) {
            7int
        } else {
            12int
        },
{
    reveal(main_next);
    let b = s.bus;
    let pc = s.regs.pc;
    crate::interconnect::lemma_contended_windows(b, pc);
    crate::interconnect::lemma_contended_windows(b, wrap16(pc + 1));
    crate::interconnect::lemma_contended_windows(b, wrap16(pc + 2));
}

/// DI masks the interrupt: at the end of a frame after it, the check only
/// takes a frame off the counter. EI unmasks it: at the end of a frame after
/// it, the interrupt is taken and both flip-flops are cleared again. HALT
/// keeps the PC on itself, so that it runs again until an interrupt, and
/// marks the processor halted.
pub proof fn lemma_interrupt_masking(s: CpuModel)
    ensures
        Di.next_state(s).tcycles >= FRAME_TCYCLES ==> interrupt_outcome(Di.next_state(s)) == (CpuModel {
            tcycles: Di.next_state(s).tcycles - FRAME_TCYCLES,
            ..Di.next_state(s)
        }, true),
        Ei.next_state(s).tcycles >= FRAME_TCYCLES ==> ({
            &&& interrupt_outcome(Ei.next_state(s)).1
            &&& !interrupt_outcome(Ei.next_state(s)).0.regs.iff1
            &&& !interrupt_outcome(Ei.next_state(s)).0.regs.iff2
        }),
        Halt.next_state(s).regs.pc == s.regs.pc,
        Halt.next_state(s).regs.halted,
{
}

} // verus!
