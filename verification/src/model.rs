//! Spec-level model of the machine: the full state of the emulated
//! computer, the effect of every instruction, and the fetch-decode-execute
//! step. Every executable function of the engine is proved equal to one of
//! these functions.

use vstd::prelude::*;

verus! {

/// Address of the memory cell that holds the stack pointer.
pub const STACK_PTR: u8 = 0xFF;

/// Highest opcode the machine decodes; anything above is a decode fault.
pub const MAX_OPCODE: u8 = 0x24;

/// The two fatal fault kinds. Either one stops the run loop for good.
#[derive(Clone, Copy, Debug, PartialEq, Eq, Structural)]
pub enum Fault {
    /// A fetched opcode above `MAX_OPCODE` has no handler.
    Decode,
    /// TTYI (0x0E) was decoded; the instruction was never implemented.
    Unimplemented,
}

/// The whole machine state, at the specification level.
pub ghost struct State {
    /// The 256-byte RAM; the stack pointer lives at `STACK_PTR`.
    pub ram: Seq<u8>,
    /// Accumulator.
    pub a: u8,
    /// Instruction register: the most recently fetched opcode.
    pub ir: u8,
    /// Program counter; wraps modulo 256.
    pub pc: u8,
    /// Carry flag: set only by the ALU add path.
    pub cf: bool,
    /// Zero flag: the zero test of the last value committed to A.
    pub zf: bool,
    /// False once the machine has halted or faulted.
    pub running: bool,
    /// Cycle budget: negative means unbounded.
    pub budget: i64,
    /// Every byte TTYO has emitted, in order.
    pub out: Seq<u8>,
    /// The fatal fault, if one has occurred.
    pub fault: Option<Fault>,
}

impl State {
    /// The one structural invariant: memory is exactly 256 bytes.
    pub open spec fn wf(self) -> bool {
        self.ram.len() == 256
    }
}

/// Addition wrapping modulo 256.
pub open spec fn badd(a: u8, b: u8) -> u8 {
    (((a + b) % 256) as u8)
}

/// Subtraction wrapping modulo 256.
pub open spec fn bsub(a: u8, b: u8) -> u8 {
    (((a - b + 256) % 256) as u8)
}

/// Bitwise complement of a byte, stated arithmetically.
pub open spec fn bnot(b: u8) -> u8 {
    (255 - b) as u8
}

/// The memory cell at `addr`.
pub open spec fn mem(s: State, addr: u8) -> u8 {
    s.ram[addr as int]
}

/// Immediate operand: the byte at PC (which, at handler time, points at
/// the byte after the opcode).
pub open spec fn imm(s: State) -> u8 {
    mem(s, s.pc)
}

/// Direct operand: the byte at PC is an address; the operand is the cell there.
pub open spec fn dir(s: State) -> u8 {
    mem(s, imm(s))
}

/// Indirect operand: pointer-to-pointer dereference.
pub open spec fn dind(s: State) -> u8 {
    mem(s, dir(s))
}

/// The single accumulator-write path: stores `v` in A and sets ZF to the
/// zero test of `v`. Every instruction that writes A goes through this.
pub open spec fn with_a(s: State, v: u8) -> State {
    State { a: v, zf: v == 0, ..s }
}

/// Store `v` at `addr`.
pub open spec fn store(s: State, addr: u8, v: u8) -> State {
    State { ram: s.ram.update(addr as int, v), ..s }
}

pub open spec fn with_pc(s: State, p: u8) -> State {
    State { pc: p, ..s }
}

pub open spec fn pc_inc(s: State) -> State {
    with_pc(s, badd(s.pc, 1))
}

pub open spec fn pc_dec(s: State) -> State {
    with_pc(s, bsub(s.pc, 1))
}

/// The 16-bit sum the ALU computes: A + value + carry-in, wrapping at the
/// ALU's working width.
pub open spec fn alu_sum(a: u8, value: u8, carry_in: u16) -> int {
    (a + value + carry_in) % 0x10000
}

/// The ALU add primitive: CF is the carry out of bit 7, and the low byte is
/// committed to A through the accumulator-write path. This is the only
/// operation that changes CF.
pub open spec fn alu_add_eff(s: State, value: u8, carry_in: u16) -> State {
    let sum = alu_sum(s.a, value, carry_in);
    with_a(State { cf: sum > 0xFF, ..s }, (sum % 256) as u8)
}

// Instruction effects. Each takes the state as the handler sees it: PC
// already advanced past the opcode, pointing at the first operand byte.
// The default post-instruction advance is applied afterwards by `step`.

/// LDI: A <- immediate.
pub open spec fn ldi_eff(s: State) -> State {
    with_a(s, imm(s))
}

/// LDR: A <- direct.
pub open spec fn ldr_eff(s: State) -> State {
    with_a(s, dir(s))
}

/// LDRI: A <- indirect.
pub open spec fn ldri_eff(s: State) -> State {
    with_a(s, dind(s))
}

/// ADDI: A <- A + immediate.
pub open spec fn addi_eff(s: State) -> State {
    alu_add_eff(s, imm(s), 0)
}

/// ADDR: A <- A + direct.
pub open spec fn addr_eff(s: State) -> State {
    alu_add_eff(s, dir(s), 0)
}

/// SUBI: A <- A - immediate, as two's-complement NOT plus carry-in 1.
pub open spec fn subi_eff(s: State) -> State {
    alu_add_eff(s, bnot(imm(s)), 1)
}

/// SUBR: A <- A - direct.
pub open spec fn subr_eff(s: State) -> State {
    alu_add_eff(s, bnot(dir(s)), 1)
}

/// STR: mem[immediate] <- A.
pub open spec fn str_eff(s: State) -> State {
    store(s, imm(s), s.a)
}

/// STRI: mem[direct] <- A; consumes one extra operand byte.
pub open spec fn stri_eff(s: State) -> State {
    pc_inc(store(s, dir(s), s.a))
}

/// JMP: PC <- immediate - 1; the default advance then lands on the target.
pub open spec fn jmp_eff(s: State) -> State {
    with_pc(s, bsub(imm(s), 1))
}

/// JEQ: jump iff ZF.
pub open spec fn jeq_eff(s: State) -> State {
    if s.zf {
        jmp_eff(s)
    } else {
        s
    }
}

/// JCS: jump iff CF.
pub open spec fn jcs_eff(s: State) -> State {
    if s.cf {
        jmp_eff(s)
    } else {
        s
    }
}

/// JMPI: PC <- mem[immediate] - 1.
pub open spec fn jmpi_eff(s: State) -> State {
    with_pc(s, bsub(dir(s), 1))
}

/// JEQI: indirect jump iff ZF; the not-taken path consumes one extra byte
/// beyond the default, a quirk of the hardware encoding kept as-is.
pub open spec fn jeqi_eff(s: State) -> State {
    if s.zf {
        jmpi_eff(s)
    } else {
        pc_inc(s)
    }
}

/// TTYI was never implemented: decoding it is a fatal fault.
pub open spec fn ttyi_eff(s: State) -> State {
    State { running: false, fault: Some(Fault::Unimplemented), ..s }
}

/// TTYO: emit A to the console output.
pub open spec fn ttyo_eff(s: State) -> State {
    pc_dec(State { out: s.out.push(s.a), ..s })
}

/// HALT: stop the cycle.
pub open spec fn halt_eff(s: State) -> State {
    pc_dec(State { running: false, ..s })
}

/// ROL: A <- A shifted left one bit, truncated to 8 bits. A 1-byte
/// instruction: it cancels the default advance.
pub open spec fn rol_eff(s: State) -> State {
    pc_dec(with_a(s, ((2 * s.a) % 256) as u8))
}

/// INXR: mem[b1] <- mem[b1] + b2.
pub open spec fn inxr_eff(s: State) -> State {
    pc_inc(store(s, imm(s), badd(dir(s), mem(s, badd(s.pc, 1)))))
}

/// DEXR: mem[b1] <- mem[b1] - b2.
pub open spec fn dexr_eff(s: State) -> State {
    pc_inc(store(s, imm(s), bsub(dir(s), mem(s, badd(s.pc, 1)))))
}

/// ASL: A shifted left one bit with the shifted-out bit reinserted at bit 0
/// (a rotate left).
pub open spec fn asl_eff(s: State) -> State {
    with_a(s, ((2 * s.a) % 256 + s.a / 128) as u8)
}

/// NANDI: A <- NOT(A AND immediate).
pub open spec fn nandi_eff(s: State) -> State {
    with_a(s, !(s.a & imm(s)))
}

/// NANDR: A <- NOT(A AND direct).
pub open spec fn nandr_eff(s: State) -> State {
    with_a(s, !(s.a & dir(s)))
}

/// NOP: no effect.
pub open spec fn nop_eff(s: State) -> State {
    pc_dec(s)
}

/// AINC: A <- A + 1.
pub open spec fn ainc_eff(s: State) -> State {
    pc_dec(with_a(s, badd(s.a, 1)))
}

/// ADEC: A <- A - 1.
pub open spec fn adec_eff(s: State) -> State {
    pc_dec(with_a(s, bsub(s.a, 1)))
}

/// RINC: mem[addr] <- mem[addr] + 1, and A <- the incremented cell.
pub open spec fn rinc_eff(s: State) -> State {
    let s1 = store(s, imm(s), badd(dir(s), 1));
    with_a(s1, dir(s1))
}

/// RDEC: mem[addr] <- mem[addr] - 1, and A <- the decremented cell.
pub open spec fn rdec_eff(s: State) -> State {
    let s1 = store(s, imm(s), bsub(dir(s), 1));
    with_a(s1, dir(s1))
}

/// RSP: reset the stack pointer to 0xFE.
pub open spec fn rsp_eff(s: State) -> State {
    pc_dec(store(s, STACK_PTR, 0xFE))
}

/// PHA: push A (write at the stack pointer, then decrement it).
pub open spec fn pha_eff(s: State) -> State {
    let s1 = store(s, mem(s, STACK_PTR), s.a);
    store(s1, STACK_PTR, bsub(mem(s1, STACK_PTR), 1))
}

/// PLA: pop into A (increment the stack pointer, then read there).
pub open spec fn pla_eff(s: State) -> State {
    let s1 = store(s, STACK_PTR, badd(mem(s, STACK_PTR), 1));
    pc_dec(with_a(s1, mem(s1, mem(s1, STACK_PTR))))
}

/// JSR: push the literal return-address byte b1, then PC <- b2 - 1.
pub open spec fn jsr_eff(s: State) -> State {
    let s1 = store(s, mem(s, STACK_PTR), imm(s));
    let s2 = store(s1, STACK_PTR, bsub(mem(s1, STACK_PTR), 1));
    let s3 = pc_inc(s2);
    with_pc(s3, bsub(imm(s3), 1))
}

/// RTS: pop a return address into PC.
pub open spec fn rts_eff(s: State) -> State {
    let s1 = store(s, STACK_PTR, badd(mem(s, STACK_PTR), 1));
    with_pc(s1, bsub(mem(s1, mem(s1, STACK_PTR)), 1))
}

/// LDSA: A <- mem[stack pointer + 2].
pub open spec fn ldsa_eff(s: State) -> State {
    pc_dec(with_a(s, mem(s, badd(mem(s, STACK_PTR), 2))))
}

/// STSA: mem[stack pointer + 2] <- A.
pub open spec fn stsa_eff(s: State) -> State {
    store(s, badd(mem(s, STACK_PTR), 2), s.a)
}

/// SINC: stack pointer <- stack pointer + 1.
pub open spec fn sinc_eff(s: State) -> State {
    store(s, STACK_PTR, badd(mem(s, STACK_PTR), 1))
}

/// PHI: push the immediate byte.
pub open spec fn phi_eff(s: State) -> State {
    let s1 = store(s, mem(s, STACK_PTR), imm(s));
    store(s1, STACK_PTR, bsub(mem(s1, STACK_PTR), 1))
}

/// The dispatch table: the effect of the handler for `op`, on a state whose
/// PC already points past the opcode. Only defined for `op <= MAX_OPCODE`.
/// Opaque, so that reasoning about a symbolic opcode stays cheap; reveal it
/// to resolve a concrete one.
#[verifier::opaque]
pub open spec fn exec_op(op: u8, s: State) -> State {
    if op == 0x00 {
        ldi_eff(s)
    } else if op == 0x01 {
        ldr_eff(s)
    } else if op == 0x02 {
        ldri_eff(s)
    } else if op == 0x03 {
        addi_eff(s)
    } else if op == 0x04 {
        addr_eff(s)
    } else if op == 0x05 {
        subi_eff(s)
    } else if op == 0x06 {
        subr_eff(s)
    } else if op == 0x07 {
        str_eff(s)
    } else if op == 0x08 {
        stri_eff(s)
    } else if op == 0x09 {
        jmp_eff(s)
    } else if op == 0x0A {
        jeq_eff(s)
    } else if op == 0x0B {
        jcs_eff(s)
    } else if op == 0x0C {
        jmpi_eff(s)
    } else if op == 0x0D {
        jeqi_eff(s)
    } else if op == 0x0E {
        ttyi_eff(s)
    } else if op == 0x0F {
        ttyo_eff(s)
    } else if op == 0x10 {
        halt_eff(s)
    } else if op == 0x11 {
        rol_eff(s)
    } else if op == 0x12 {
        inxr_eff(s)
    } else if op == 0x13 {
        dexr_eff(s)
    } else if op == 0x14 {
        asl_eff(s)
    } else if op == 0x15 {
        nandi_eff(s)
    } else if op == 0x16 {
        nandr_eff(s)
    } else if op == 0x17 {
        nop_eff(s)
    } else if op == 0x18 {
        ainc_eff(s)
    } else if op == 0x19 {
        adec_eff(s)
    } else if op == 0x1A {
        rinc_eff(s)
    } else if op == 0x1B {
        rdec_eff(s)
    } else if op == 0x1C {
        rsp_eff(s)
    } else if op == 0x1D {
        pha_eff(s)
    } else if op == 0x1E {
        pla_eff(s)
    } else if op == 0x1F {
        jsr_eff(s)
    } else if op == 0x20 {
        rts_eff(s)
    } else if op == 0x21 {
        ldsa_eff(s)
    } else if op == 0x22 {
        stsa_eff(s)
    } else if op == 0x23 {
        sinc_eff(s)
    } else {
        phi_eff(s)
    }
}

/// The machine as construction leaves it: zeroed RAM and registers, CF
/// clear, ZF set (A is zero), running, no fault, unbounded budget.
pub open spec fn initial_state() -> State {
    State {
        ram: Seq::new(256, |i: int| 0u8),
        a: 0,
        ir: 0,
        pc: 0,
        cf: false,
        zf: true,
        running: true,
        budget: -1i64,
        out: Seq::empty(),
        fault: None,
    }
}

/// Copying an image into RAM, left-aligned at address 0; the rest of RAM
/// keeps its prior contents.
pub open spec fn load_image(s: State, image: Seq<u8>) -> State {
    State { ram: image + s.ram.skip(image.len() as int), ..s }
}

/// One full fetch-decode-execute step. Fetch IR at PC, advance PC; an
/// opcode above `MAX_OPCODE` is a fatal decode fault that changes nothing
/// but IR, PC, the running bit and the fault; otherwise the handler runs
/// and, unless it faulted, the default post-instruction advance fires.
pub open spec fn step(s: State) -> State {
    let op = mem(s, s.pc);
    let s1 = State { ir: op, pc: badd(s.pc, 1), ..s };
    if op > MAX_OPCODE {
        State { running: false, fault: Some(Fault::Decode), ..s1 }
    } else {
        let s2 = exec_op(op, s1);
        if s2.fault is Some {
            s2
        } else {
            pc_inc(s2)
        }
    }
}

/// One iteration of the run loop: a step, then the cycle-budget rule: a
/// non-negative budget is decremented once per instruction, and reaching
/// zero halts the machine before the decrement.
pub open spec fn cycle_spec(s: State) -> State {
    let s1 = step(s);
    if s1.budget >= 0 {
        let s2 = if s1.budget == 0 {
            State { running: false, ..s1 }
        } else {
            s1
        };
        State { budget: (s2.budget - 1) as i64, ..s2 }
    } else {
        s1
    }
}

/// At most `fuel` iterations of the run loop, stopping early once the
/// machine is no longer running.
pub open spec fn run_for_spec(s: State, fuel: nat) -> State
    decreases fuel,
{
    if fuel == 0 || !s.running {
        s
    } else {
        run_for_spec(cycle_spec(s), (fuel - 1) as nat)
    }
}

} // verus!
