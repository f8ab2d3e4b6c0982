//! The algebraic laws of the instruction set, stated over the model and
//! proved once and for all: they hold of the executable engine because every
//! engine method is proved equal to the model function it implements.

use vstd::prelude::*;

use crate::model::{
    State, Fault, STACK_PTR, MAX_OPCODE,
    badd, bsub, bnot, mem,
    alu_sum, alu_add_eff, subi_eff, pha_eff, pla_eff,
    exec_op, step,
};

verus! {

/// Wrapping increment and decrement of a byte undo one another.
proof fn lemma_wrap_cancel(x: u8)
    ensures
        bsub(badd(x, 1), 1) == x,
        badd(bsub(x, 1), 1) == x,
{
}

/// Two wrapping increments reach the same cell as one wrapping add of two.
proof fn lemma_wrap_two(x: u8)
    ensures
        badd(badd(x, 1), 1) == badd(x, 2),
{
}

/// AINC followed by ADEC leaves A unchanged, and leaves ZF the zero test
/// of the original A: incrementing and decrementing cancel, modulo 256.
pub proof fn ainc_then_adec_restores_a(s: State)
    requires
        s.wf(),
        s.fault is None,
        mem(s, s.pc) == 0x18,
        mem(s, badd(s.pc, 1)) == 0x19,
    ensures
        step(step(s)).a == s.a,
        step(step(s)).zf == (s.a == 0),
{
    reveal(exec_op);
    lemma_wrap_cancel(s.pc);
    lemma_wrap_cancel(s.a);
}

/// ADDI computing `a + b` sets CF exactly when the sum carries out of
/// bit 7 (`a + b > 255`), and commits the low byte `(a + b) mod 256` to A,
/// with ZF its zero test.
#[verifier::rlimit(100)]
pub proof fn addi_carry_and_sum(s: State, b: u8)
    requires
        s.wf(),
        s.fault is None,
        mem(s, s.pc) == 0x03,
        mem(s, badd(s.pc, 1)) == b,
    ensures
        step(s).a == (s.a + b) % 256,
        step(s).cf == (s.a + b > 255),
        step(s).zf == ((s.a + b) % 256 == 0),
{
    reveal(exec_op);
    assert(alu_sum(s.a, b, 0) == s.a + b) by {
        vstd::arithmetic::div_mod::lemma_small_mod((s.a + b) as nat, 0x10000);
    };
}

/// SUBI computing `a - b` goes through the adder as `a + NOT(b) + 1`
/// (two's-complement subtraction), so A ends at `(a - b) mod 256` and CF
/// reports "no borrow": it is set exactly when `a >= b`.
#[verifier::rlimit(100)]
pub proof fn subi_is_add_of_not(s: State, b: u8)
    requires
        s.wf(),
        s.fault is None,
        mem(s, s.pc) == 0x05,
        mem(s, badd(s.pc, 1)) == b,
    ensures
        step(s).a == bsub(s.a, b),
        step(s).a == (s.a + bnot(b) + 1) % 256,
        step(s).cf == (s.a >= b),
        subi_eff(State { ir: 0x05, pc: badd(s.pc, 1), ..s })
            == alu_add_eff(State { ir: 0x05, pc: badd(s.pc, 1), ..s }, bnot(b), 1),
{
    reveal(exec_op);
    assert(alu_sum(s.a, bnot(b), 1) == s.a - b + 256) by {
        vstd::arithmetic::div_mod::lemma_small_mod((s.a + bnot(b) + 1) as nat, 0x10000);
    };
}

/// PHA then PLA, with nothing in between, restores A to its pre-push value
/// (and ZF to its zero test) and leaves the stack pointer where it started.
/// The one excluded state is a stack pointer aimed at its own cell
/// (`mem[STACK_PTR] == STACK_PTR`), where the push overwrites the pointer
/// itself — a hazard of the modeled hardware.
pub proof fn pha_then_pla_restores(s: State)
    requires
        s.wf(),
        mem(s, STACK_PTR) != STACK_PTR,
    ensures
        pla_eff(pha_eff(s)).a == s.a,
        pla_eff(pha_eff(s)).zf == (s.a == 0),
        mem(pla_eff(pha_eff(s)), STACK_PTR) == mem(s, STACK_PTR),
{
    lemma_wrap_cancel(mem(s, STACK_PTR));
}

/// JSR to a target holding RTS, with return byte R, comes back with PC at
/// R and the stack pointer restored. Excluded are the aliased states where
/// the pushed byte or an operand lands on the stack-pointer cell or on the
/// bytes the two instructions are still to read.
pub proof fn jsr_then_rts_returns(s: State)
    requires
        s.wf(),
        s.fault is None,
        mem(s, s.pc) == 0x1F,
        mem(s, mem(s, badd(s.pc, 2))) == 0x20,
        mem(s, STACK_PTR) != STACK_PTR,
        mem(s, STACK_PTR) != badd(s.pc, 2),
        badd(s.pc, 2) != STACK_PTR,
        mem(s, badd(s.pc, 2)) != mem(s, STACK_PTR),
        mem(s, badd(s.pc, 2)) != STACK_PTR,
    ensures
        step(step(s)).pc == mem(s, badd(s.pc, 1)),
        mem(step(step(s)), STACK_PTR) == mem(s, STACK_PTR),
{
    reveal(exec_op);
    lemma_wrap_two(s.pc);
    lemma_wrap_cancel(mem(s, STACK_PTR));
    lemma_wrap_cancel(mem(s, badd(s.pc, 2)));
    lemma_wrap_cancel(mem(s, badd(s.pc, 1)));
}

/// Decoding any opcode above `MAX_OPCODE` aborts the run with a decode
/// fault and mutates nothing but the registers the fetch itself touched:
/// memory, A, the flags and the output are exactly as they were.
pub proof fn decode_fault_is_fatal_and_pure(s: State)
    requires
        s.wf(),
        mem(s, s.pc) > MAX_OPCODE,
    ensures
        step(s).fault == Some(Fault::Decode),
        !step(s).running,
        step(s).ram == s.ram,
        step(s).a == s.a,
        step(s).cf == s.cf,
        step(s).zf == s.zf,
        step(s).out == s.out,
        step(s).budget == s.budget,
        step(s).ir == mem(s, s.pc),
        step(s).pc == badd(s.pc, 1),
{
}

} // verus!
