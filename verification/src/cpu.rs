//! The executable CPU engine. Every method is proved to produce exactly the
//! state the model in `model` prescribes: handlers match their effect
//! functions, `do_inst` matches `step`, and `cycle` matches `cycle_spec`.
//!
//! Console work (printing TTY output, rendering diagnostics, pacing) is the
//! caller's: the engine records TTY bytes in `tty_out` and reports faults in
//! `fault` instead of touching any output stream.

use vstd::prelude::*;

use crate::model::{
    State, Fault, STACK_PTR, MAX_OPCODE,
    badd, bsub, bnot, mem, imm, dir, dind, with_a, store, with_pc, pc_inc, pc_dec,
    alu_sum, alu_add_eff,
    ldi_eff, ldr_eff, ldri_eff, addi_eff, addr_eff, subi_eff, subr_eff, str_eff,
    stri_eff, jmp_eff, jeq_eff, jcs_eff, jmpi_eff, jeqi_eff, ttyi_eff, ttyo_eff,
    halt_eff, rol_eff, inxr_eff, dexr_eff, asl_eff, nandi_eff, nandr_eff, nop_eff,
    ainc_eff, adec_eff, rinc_eff, rdec_eff, rsp_eff, pha_eff, pla_eff, jsr_eff,
    rts_eff, ldsa_eff, stsa_eff, sinc_eff, phi_eff,
    exec_op, step, cycle_spec, run_for_spec, initial_state, load_image,
};

verus! {

/// The emulated CPU: 256 bytes of RAM, the register and flag file, the
/// running bit, the optional cycle budget, the TTY output record and the
/// fault record. The fields are public so that a harness can inspect (or
/// set up) a machine state directly; every method requires only `wf()`.
pub struct CPU {
    /// The 256-byte RAM. The stack pointer is the cell at `STACK_PTR`.
    pub ram: Vec<u8>,
    /// Accumulator.
    pub reg_a: u8,
    /// Instruction register.
    pub reg_ir: u8,
    /// Program counter.
    pub reg_pc: u8,
    /// Carry flag.
    pub flag_cf: bool,
    /// Zero flag.
    pub flag_zf: bool,
    /// Cleared by HALT, by a fault, and by cycle-budget exhaustion.
    pub is_running: bool,
    /// Cycle budget; negative means unbounded.
    pub max_cycles: i64,
    /// Bytes TTYO has emitted, in order; the caller renders them.
    pub tty_out: Vec<u8>,
    /// Set by a decode fault or by TTYI; never cleared by the engine.
    pub fault: Option<Fault>,
}

impl View for CPU {
    type V = State;

    open spec fn view(&self) -> State {
        State {
            ram: self.ram@,
            a: self.reg_a,
            ir: self.reg_ir,
            pc: self.reg_pc,
            cf: self.flag_cf,
            zf: self.flag_zf,
            running: self.is_running,
            budget: self.max_cycles,
            out: self.tty_out@,
            fault: self.fault,
        }
    }
}

impl CPU {
    /// Well-formedness: RAM is exactly 256 bytes.
    pub open spec fn wf(&self) -> bool {
        self@.wf()
    }

    /// A fresh machine in the reset state: zeroed RAM and registers,
    /// CF clear, ZF set (A is zero), running, unbounded budget.
    pub fn new() -> (cpu: CPU)
        ensures
            cpu.wf(),
            cpu@ == initial_state(),
    {
        let mut ram: Vec<u8> = Vec::new();
        let mut i: usize = 0;
        while i < 256
            invariant
                i <= 256,
                ram@.len() == i,
                forall|j: int| 0 <= j < i ==> ram@[j] == 0u8,
            decreases 256 - i,
        {
            ram.push(0);
            i = i + 1;
        }
        let cpu = CPU {
            ram,
            reg_a: 0,
            reg_ir: 0,
            reg_pc: 0,
            flag_cf: false,
            flag_zf: true,
            is_running: true,
            max_cycles: -1,
            tty_out: Vec::new(),
            fault: None,
        };
        proof {
            assert(cpu@.ram =~= initial_state().ram);
            assert(cpu@.out =~= initial_state().out);
        }
        cpu
    }

    /// Return the registers and flags to the reset state. RAM, the running
    /// bit, the budget and the output record are left as they are.
    pub fn reset(&mut self)
        ensures
            final(self)@ == (State {
                a: 0,
                ir: 0,
                pc: 0,
                cf: false,
                zf: true,
                ..old(self)@
            }),
    {
        self.reg_a = 0;
        self.reg_ir = 0;
        self.reg_pc = 0;
        self.flag_cf = false;
        self.flag_zf = true;
    }

    /// Configure the cycle budget: a positive count, or negative for
    /// unbounded. Zero is a configuration fault and is rejected here,
    /// before any instruction runs.
    pub fn set_max_cycles(&mut self, num: i64)
        requires
            num != 0,
        ensures
            final(self)@ == (State { budget: num, ..old(self)@ }),
    {
        self.max_cycles = num;
    }

    /// Copy an image into RAM starting at address 0, left-aligned; the rest
    /// of RAM keeps its prior contents.
    pub fn copy_to_ram(&mut self, image: &[u8])
        requires
            old(self).wf(),
            image@.len() <= 256,
        ensures
            final(self).wf(),
            final(self)@ == load_image(old(self)@, image@),
    {
        let ghost s0 = self@;
        let length = image.len();
        let mut i: usize = 0;
        while i < length
            invariant
                self.wf(),
                i <= length,
                length == image@.len() <= 256,
                s0.ram.len() == 256,
                self@.ram =~= image@.take(i as int) + s0.ram.skip(i as int),
                self@ == (State { ram: self@.ram, ..s0 }),
            decreases length - i,
        {
            let b = image[i];
            self.ram.set(i, b);
            proof {
                assert(self@.ram =~= image@.take(i + 1) + s0.ram.skip(i + 1));
            }
            i = i + 1;
        }
        proof {
            assert(self@.ram =~= image@ + s0.ram.skip(image@.len() as int));
        }
    }

    /// Load the fixed bring-up program.
    pub fn load_debug_rom(&mut self)
        requires
            old(self).wf(),
        ensures
            final(self).wf(),
            final(self)@ == load_image(old(self)@, crate::debug_rom::debug_rom_seq()),
    {
        self.copy_to_ram(crate::debug_rom::DEBUG_ROM.as_slice());
    }

    /// The single accumulator-write path: every value committed to A passes
    /// through here, which is what keeps ZF the zero test of the last write.
    pub fn set_a(&mut self, val: u8)
        ensures
            final(self)@ == with_a(old(self)@, val),
    {
        self.reg_a = val;
        if val == 0 {
            self.flag_zf = true;
        } else {
            self.flag_zf = false;
        }
    }

    /// Immediate operand: the byte at PC.
    #[inline(always)]
    pub fn get_mem_imm(&self) -> (r: u8)
        requires
            self.wf(),
        ensures
            r == imm(self@),
    {
        self.ram[self.reg_pc as usize]
    }

    /// Direct operand: the byte at PC is an address; read the cell there.
    #[inline(always)]
    pub fn get_mem_ind(&self) -> (r: u8)
        requires
            self.wf(),
        ensures
            r == dir(self@),
    {
        self.ram[self.ram[self.reg_pc as usize] as usize]
    }

    /// Indirect operand: pointer-to-pointer dereference.
    #[inline(always)]
    pub fn get_mem_dind(&self) -> (r: u8)
        requires
            self.wf(),
        ensures
            r == dind(self@),
    {
        self.ram[self.get_mem_ind() as usize]
    }

    /// The ALU add primitive: A + value + carry-in at 16-bit width, CF set
    /// to the carry out of bit 7, the low byte committed to A.
    pub fn alu_add(&mut self, value: u8, carry_in: u16)
        ensures
            final(self)@ == alu_add_eff(old(self)@, value, carry_in),
    {
        let reg_a: u16 = self.reg_a as u16;
        let val: u16 = value as u16;
        let result: u16 = reg_a.wrapping_add(val);
        let result: u16 = result.wrapping_add(carry_in);
        proof {
            assert(result == alu_sum(old(self)@.a, value, carry_in));
        }
        if result > 0xFF {
            self.flag_cf = true;
        } else {
            self.flag_cf = false;
        }
        self.set_a((result % 256) as u8);
    }

    /// LDI: A <- immediate.
    pub fn inst_ldi(&mut self)
        requires
            old(self).wf(),
        ensures
            final(self).wf(),
            final(self)@ == ldi_eff(old(self)@),
    {
        let v = self.get_mem_imm();
        self.set_a(v);
    }

    /// LDR: A <- direct.
    pub fn inst_ldr(&mut self)
        requires
            old(self).wf(),
        ensures
            final(self).wf(),
            final(self)@ == ldr_eff(old(self)@),
    {
        let v = self.get_mem_ind();
        self.set_a(v);
    }

    /// LDRI: A <- indirect.
    pub fn inst_ldri(&mut self)
        requires
            old(self).wf(),
        ensures
            final(self).wf(),
            final(self)@ == ldri_eff(old(self)@),
    {
        let v = self.get_mem_dind();
        self.set_a(v);
    }

    /// ADDI: A <- A + immediate.
    pub fn inst_addi(&mut self)
        requires
            old(self).wf(),
        ensures
            final(self).wf(),
            final(self)@ == addi_eff(old(self)@),
    {
        let v = self.get_mem_imm();
        self.alu_add(v, 0);
    }

    /// ADDR: A <- A + direct.
    pub fn inst_addr(&mut self)
        requires
            old(self).wf(),
        ensures
            final(self).wf(),
            final(self)@ == addr_eff(old(self)@),
    {
        let v = self.get_mem_ind();
        self.alu_add(v, 0);
    }

    /// SUBI: A <- A - immediate, via NOT and carry-in 1, as the hardware
    /// adder/subtractor does it.
    pub fn inst_subi(&mut self)
        requires
            old(self).wf(),
        ensures
            final(self).wf(),
            final(self)@ == subi_eff(old(self)@),
    {
        let v = self.get_mem_imm();
        proof {
            assert(!v == bnot(v)) by (bit_vector);
        }
        self.alu_add(!v, 1);
    }

    /// SUBR: A <- A - direct.
    pub fn inst_subr(&mut self)
        requires
            old(self).wf(),
        ensures
            final(self).wf(),
            final(self)@ == subr_eff(old(self)@),
    {
        let v = self.get_mem_ind();
        proof {
            assert(!v == bnot(v)) by (bit_vector);
        }
        self.alu_add(!v, 1);
    }

    /// STR: mem[immediate] <- A.
    pub fn inst_str(&mut self)
        requires
            old(self).wf(),
        ensures
            final(self).wf(),
            final(self)@ == str_eff(old(self)@),
    {
        let addr = self.get_mem_imm();
        let a = self.reg_a;
        self.ram.set(addr as usize, a);
    }

    /// STRI: mem[direct] <- A; a 3-byte instruction, so one extra operand
    /// byte is consumed.
    pub fn inst_stri(&mut self)
        requires
            old(self).wf(),
        ensures
            final(self).wf(),
            final(self)@ == stri_eff(old(self)@),
    {
        let addr = self.get_mem_ind();
        let a = self.reg_a;
        self.ram.set(addr as usize, a);
        self.reg_pc = self.reg_pc.wrapping_add(1);
    }

    /// JMP: PC <- immediate - 1; the default advance then lands on the
    /// target.
    pub fn inst_jmp(&mut self)
        requires
            old(self).wf(),
        ensures
            final(self).wf(),
            final(self)@ == jmp_eff(old(self)@),
    {
        let target = self.get_mem_imm();
        self.reg_pc = target.wrapping_sub(1);
    }

    /// JEQ: jump iff ZF.
    pub fn inst_jeq(&mut self)
        requires
            old(self).wf(),
        ensures
            final(self).wf(),
            final(self)@ == jeq_eff(old(self)@),
    {
        if self.flag_zf {
            self.inst_jmp();
        }
    }

    /// JCS: jump iff CF.
    pub fn inst_jcs(&mut self)
        requires
            old(self).wf(),
        ensures
            final(self).wf(),
            final(self)@ == jcs_eff(old(self)@),
    {
        if self.flag_cf {
            self.inst_jmp();
        }
    }

    /// JMPI: PC <- mem[immediate] - 1.
    pub fn inst_jmpi(&mut self)
        requires
            old(self).wf(),
        ensures
            final(self).wf(),
            final(self)@ == jmpi_eff(old(self)@),
    {
        let target = self.get_mem_ind();
        self.reg_pc = target.wrapping_sub(1);
    }

    /// JEQI: indirect jump iff ZF; the not-taken path consumes one extra
    /// byte beyond the default, a quirk of the hardware encoding kept as-is.
    pub fn inst_jeqi(&mut self)
        requires
            old(self).wf(),
        ensures
            final(self).wf(),
            final(self)@ == jeqi_eff(old(self)@),
    {
        if self.flag_zf {
            self.inst_jmpi();
        } else {
            self.reg_pc = self.reg_pc.wrapping_add(1);
        }
    }

    /// TTYI was never implemented in the hardware bring-up: decoding it is
    /// an unconditional fatal fault.
    pub fn inst_ttyi(&mut self)
        ensures
            final(self)@ == ttyi_eff(old(self)@),
    {
        self.is_running = false;
        self.fault = Some(Fault::Unimplemented);
    }

    /// TTYO: emit A as one byte of console output.
    pub fn inst_ttyo(&mut self)
        ensures
            final(self)@ == ttyo_eff(old(self)@),
    {
        let a = self.reg_a;
        self.tty_out.push(a);
        self.reg_pc = self.reg_pc.wrapping_sub(1);
    }

    /// HALT: stop the cycle. The caller renders the diagnostic dump.
    pub fn inst_halt(&mut self)
        ensures
            final(self)@ == halt_eff(old(self)@),
    {
        self.is_running = false;
        self.reg_pc = self.reg_pc.wrapping_sub(1);
    }

    /// ROL: A <- A shifted left one bit, truncated to 8 bits.
    pub fn inst_rol(&mut self)
        ensures
            final(self)@ == rol_eff(old(self)@),
    {
        let doubled: u16 = 2 * (self.reg_a as u16);
        self.set_a((doubled % 256) as u8);
        self.reg_pc = self.reg_pc.wrapping_sub(1);
    }

    /// INXR: mem[b1] <- mem[b1] + b2.
    pub fn inst_inxr(&mut self)
        requires
            old(self).wf(),
        ensures
            final(self).wf(),
            final(self)@ == inxr_eff(old(self)@),
    {
        let ptr = self.get_mem_imm();
        let val = self.ram[self.reg_pc.wrapping_add(1) as usize];
        let cur = self.ram[ptr as usize];
        self.ram.set(ptr as usize, cur.wrapping_add(val));
        self.reg_pc = self.reg_pc.wrapping_add(1);
    }

    /// DEXR: mem[b1] <- mem[b1] - b2.
    pub fn inst_dexr(&mut self)
        requires
            old(self).wf(),
        ensures
            final(self).wf(),
            final(self)@ == dexr_eff(old(self)@),
    {
        let ptr = self.get_mem_imm();
        let val = self.ram[self.reg_pc.wrapping_add(1) as usize];
        let cur = self.ram[ptr as usize];
        self.ram.set(ptr as usize, cur.wrapping_sub(val));
        self.reg_pc = self.reg_pc.wrapping_add(1);
    }

    /// ASL: A shifted left one bit with the shifted-out bit reinserted at
    /// bit 0 (a rotate left).
    pub fn inst_asl(&mut self)
        ensures
            final(self)@ == asl_eff(old(self)@),
    {
        let a = self.reg_a;
        let doubled: u16 = 2 * (a as u16);
        let low: u8 = (doubled % 256) as u8;
        let r: u8 = if a >= 128 { low + 1 } else { low };
        self.set_a(r);
    }

    /// NANDI: A <- NOT(A AND immediate). Writes A through the accumulator
    /// path (so ZF moves), but never touches CF.
    pub fn inst_nandi(&mut self)
        requires
            old(self).wf(),
        ensures
            final(self).wf(),
            final(self)@ == nandi_eff(old(self)@),
    {
        let v = self.get_mem_imm();
        let r = !(self.reg_a & v);
        self.set_a(r);
    }

    /// NANDR: A <- NOT(A AND direct).
    pub fn inst_nandr(&mut self)
        requires
            old(self).wf(),
        ensures
            final(self).wf(),
            final(self)@ == nandr_eff(old(self)@),
    {
        let v = self.get_mem_ind();
        let r = !(self.reg_a & v);
        self.set_a(r);
    }

    /// NOP: no effect.
    pub fn inst_nop(&mut self)
        ensures
            final(self)@ == nop_eff(old(self)@),
    {
        self.reg_pc = self.reg_pc.wrapping_sub(1);
    }

    /// AINC: A <- A + 1.
    pub fn inst_ainc(&mut self)
        ensures
            final(self)@ == ainc_eff(old(self)@),
    {
        let v = self.reg_a.wrapping_add(1);
        self.set_a(v);
        self.reg_pc = self.reg_pc.wrapping_sub(1);
    }

    /// ADEC: A <- A - 1.
    pub fn inst_adec(&mut self)
        ensures
            final(self)@ == adec_eff(old(self)@),
    {
        let v = self.reg_a.wrapping_sub(1);
        self.set_a(v);
        self.reg_pc = self.reg_pc.wrapping_sub(1);
    }

    /// RINC: mem[addr] <- mem[addr] + 1, then A <- the incremented cell.
    pub fn inst_rinc(&mut self)
        requires
            old(self).wf(),
        ensures
            final(self).wf(),
            final(self)@ == rinc_eff(old(self)@),
    {
        let ptr = self.get_mem_imm();
        let cur = self.ram[ptr as usize];
        self.ram.set(ptr as usize, cur.wrapping_add(1));
        let v = self.get_mem_ind();
        self.set_a(v);
    }

    /// RDEC: mem[addr] <- mem[addr] - 1, then A <- the decremented cell.
    pub fn inst_rdec(&mut self)
        requires
            old(self).wf(),
        ensures
            final(self).wf(),
            final(self)@ == rdec_eff(old(self)@),
    {
        let ptr = self.get_mem_imm();
        let cur = self.ram[ptr as usize];
        self.ram.set(ptr as usize, cur.wrapping_sub(1));
        let v = self.get_mem_ind();
        self.set_a(v);
    }

    /// RSP: reset the stack pointer to 0xFE.
    pub fn inst_rsp(&mut self)
        requires
            old(self).wf(),
        ensures
            final(self).wf(),
            final(self)@ == rsp_eff(old(self)@),
    {
        self.ram.set(STACK_PTR as usize, 0xFE);
        self.reg_pc = self.reg_pc.wrapping_sub(1);
    }

    /// PHA: push A: write at the stack pointer, then decrement it.
    pub fn inst_pha(&mut self)
        requires
            old(self).wf(),
        ensures
            final(self).wf(),
            final(self)@ == pha_eff(old(self)@),
    {
        let sp = self.ram[STACK_PTR as usize];
        let a = self.reg_a;
        self.ram.set(sp as usize, a);
        let sp2 = self.ram[STACK_PTR as usize];
        self.ram.set(STACK_PTR as usize, sp2.wrapping_sub(1));
    }

    /// PLA: pop into A: increment the stack pointer, then read there.
    pub fn inst_pla(&mut self)
        requires
            old(self).wf(),
        ensures
            final(self).wf(),
            final(self)@ == pla_eff(old(self)@),
    {
        let sp0 = self.ram[STACK_PTR as usize];
        self.ram.set(STACK_PTR as usize, sp0.wrapping_add(1));
        let sp = self.ram[STACK_PTR as usize];
        let v = self.ram[sp as usize];
        self.set_a(v);
        self.reg_pc = self.reg_pc.wrapping_sub(1);
    }

    /// JSR: push the literal return-address byte b1, then PC <- b2 - 1.
    pub fn inst_jsr(&mut self)
        requires
            old(self).wf(),
        ensures
            final(self).wf(),
            final(self)@ == jsr_eff(old(self)@),
    {
        let sp = self.ram[STACK_PTR as usize];
        let b1 = self.get_mem_imm();
        self.ram.set(sp as usize, b1);
        let sp2 = self.ram[STACK_PTR as usize];
        self.ram.set(STACK_PTR as usize, sp2.wrapping_sub(1));
        self.reg_pc = self.reg_pc.wrapping_add(1);
        let b2 = self.get_mem_imm();
        self.reg_pc = b2.wrapping_sub(1);
    }

    /// RTS: pop a return address into PC.
    pub fn inst_rts(&mut self)
        requires
            old(self).wf(),
        ensures
            final(self).wf(),
            final(self)@ == rts_eff(old(self)@),
    {
        let sp0 = self.ram[STACK_PTR as usize];
        self.ram.set(STACK_PTR as usize, sp0.wrapping_add(1));
        let sp = self.ram[STACK_PTR as usize];
        let v = self.ram[sp as usize];
        self.reg_pc = v.wrapping_sub(1);
    }

    /// LDSA: A <- mem[stack pointer + 2].
    pub fn inst_ldsa(&mut self)
        requires
            old(self).wf(),
        ensures
            final(self).wf(),
            final(self)@ == ldsa_eff(old(self)@),
    {
        let sp = self.ram[STACK_PTR as usize].wrapping_add(2);
        let v = self.ram[sp as usize];
        self.set_a(v);
        self.reg_pc = self.reg_pc.wrapping_sub(1);
    }

    /// STSA: mem[stack pointer + 2] <- A.
    pub fn inst_stsa(&mut self)
        requires
            old(self).wf(),
        ensures
            final(self).wf(),
            final(self)@ == stsa_eff(old(self)@),
    {
        let sp = self.ram[STACK_PTR as usize].wrapping_add(2);
        let a = self.reg_a;
        self.ram.set(sp as usize, a);
    }

    /// SINC: stack pointer <- stack pointer + 1.
    pub fn inst_sinc(&mut self)
        requires
            old(self).wf(),
        ensures
            final(self).wf(),
            final(self)@ == sinc_eff(old(self)@),
    {
        let sp0 = self.ram[STACK_PTR as usize];
        self.ram.set(STACK_PTR as usize, sp0.wrapping_add(1));
    }

    /// PHI: push the immediate byte.
    pub fn inst_phi(&mut self)
        requires
            old(self).wf(),
        ensures
            final(self).wf(),
            final(self)@ == phi_eff(old(self)@),
    {
        let sp = self.ram[STACK_PTR as usize];
        let b = self.get_mem_imm();
        self.ram.set(sp as usize, b);
        let sp2 = self.ram[STACK_PTR as usize];
        self.ram.set(STACK_PTR as usize, sp2.wrapping_sub(1));
    }

    /// Dispatch to the handler for `op`, exactly the model's `exec_op`.
    #[verifier::rlimit(100)]
    fn dispatch(&mut self, op: u8)
        requires
            old(self).wf(),
            op <= MAX_OPCODE,
        ensures
            final(self).wf(),
            final(self)@ == exec_op(op, old(self)@),
    {
        proof {
            reveal(crate::model::exec_op);
        }
        match op {
                0x00 => self.inst_ldi(),
                0x01 => self.inst_ldr(),
                0x02 => self.inst_ldri(),
                0x03 => self.inst_addi(),
                0x04 => self.inst_addr(),
                0x05 => self.inst_subi(),
                0x06 => self.inst_subr(),
                0x07 => self.inst_str(),
                0x08 => self.inst_stri(),
                0x09 => self.inst_jmp(),
                0x0A => self.inst_jeq(),
                0x0B => self.inst_jcs(),
                0x0C => self.inst_jmpi(),
                0x0D => self.inst_jeqi(),
                0x0E => self.inst_ttyi(),
                0x0F => self.inst_ttyo(),
                0x10 => self.inst_halt(),
                0x11 => self.inst_rol(),
                0x12 => self.inst_inxr(),
                0x13 => self.inst_dexr(),
                0x14 => self.inst_asl(),
                0x15 => self.inst_nandi(),
                0x16 => self.inst_nandr(),
                0x17 => self.inst_nop(),
                0x18 => self.inst_ainc(),
                0x19 => self.inst_adec(),
                0x1A => self.inst_rinc(),
                0x1B => self.inst_rdec(),
                0x1C => self.inst_rsp(),
                0x1D => self.inst_pha(),
                0x1E => self.inst_pla(),
                0x1F => self.inst_jsr(),
                0x20 => self.inst_rts(),
                0x21 => self.inst_ldsa(),
                0x22 => self.inst_stsa(),
                0x23 => self.inst_sinc(),
                0x24 => self.inst_phi(),
            _ => {
                proof {
                    assert(false);
                }
            },
        }
    }

    /// One fetch-decode-execute step, exactly the model's `step`: fetch IR
    /// at PC, advance PC, dispatch; an opcode above `MAX_OPCODE` is a fatal
    /// decode fault that leaves memory, A and the flags untouched; after a
    /// handler that did not fault, the default post-instruction advance
    /// fires (handlers for 1- and 3-byte instructions have already adjusted
    /// PC to make that land correctly).
    #[verifier::rlimit(100)]
    pub fn do_inst(&mut self)
        requires
            old(self).wf(),
        ensures
            final(self).wf(),
            final(self)@ == step(old(self)@),
    {
        let op = self.ram[self.reg_pc as usize];
        self.reg_ir = op;
        self.reg_pc = self.reg_pc.wrapping_add(1);
        if op > MAX_OPCODE {
            self.is_running = false;
            self.fault = Some(Fault::Decode);
        } else {
            self.dispatch(op);
            if self.fault.is_none() {
                self.reg_pc = self.reg_pc.wrapping_add(1);
            }
        }
    }

    /// One run-loop iteration: a step, then the cycle-budget bookkeeping
    /// (a budget of zero halts the machine before the decrement).
    pub fn cycle(&mut self)
        requires
            old(self).wf(),
        ensures
            final(self).wf(),
            final(self)@ == cycle_spec(old(self)@),
    {
        self.do_inst();
        if self.max_cycles >= 0 {
            if self.max_cycles == 0 {
                self.is_running = false;
            }
            self.max_cycles = self.max_cycles - 1;
        }
    }

    /// Run at most `fuel` iterations of the run loop, stopping early once
    /// the machine halts or faults. An unbounded driver loop (with pacing
    /// between instructions) belongs to the caller; this is the bounded,
    /// fully verified run.
    pub fn run_for(&mut self, fuel: u64)
        requires
            old(self).wf(),
        ensures
            final(self).wf(),
            final(self)@ == run_for_spec(old(self)@, fuel as nat),
    {
        let ghost s0 = self@;
        let mut remaining: u64 = fuel;
        while self.is_running && remaining > 0
            invariant
                self.wf(),
                run_for_spec(s0, fuel as nat) == run_for_spec(self@, remaining as nat),
            decreases remaining,
        {
            self.cycle();
            remaining = remaining - 1;
        }
    }

    /// Single-step debugging entry: execute exactly one instruction.
    pub fn test_cycle(&mut self)
        requires
            old(self).wf(),
        ensures
            final(self).wf(),
            final(self)@ == step(old(self)@),
    {
        self.do_inst();
    }
}

} // verus!
