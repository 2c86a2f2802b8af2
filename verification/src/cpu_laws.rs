//! Laws of the CPU step on a plain 64KB RAM bus.
//!
//! A trace is consistent with a RAM image when every read returns the byte
//! most recently stored at its address.  Over such buses a subroutine call
//! followed by a return resumes after the call, and a push followed by a
//! pull restores the accumulator.

use vstd::prelude::*;
use crate::alu_laws::{bcd_valid, bcd_value, carry_in, law_adc_binary, law_adc_decimal, law_compare, law_sbc_binary, law_sbc_decimal};
use crate::cpu::{
    is_read_op,
    add16, add8, decode_spec, ev_value, ext, nz, rmw_spec, with_carry, s_exec, s_fetch, s_step, sub16, sub8, word, BusEvent, Cpu,
    Instr, Mode, Op, FLAG_C, FLAG_D, FLAG_N, FLAG_Z,
};

verus! {

/// Memory behaviour between two consecutive steps: every read in `t2` of
/// an address that `t1` wrote returns the value that `t1` wrote there.
pub open spec fn reads_see_writes(t1: Seq<BusEvent>, t2: Seq<BusEvent>) -> bool {
    forall|i: int, j: int|
        0 <= i < t2.len() && 0 <= j < t1.len() ==> (#[trigger] t2[i] matches BusEvent::Read(a, v) ==> (
        #[trigger] t1[j] matches BusEvent::Write(b, w) ==> (a == b ==> v == w)))
}

/// `t` is the trace of the step from `c` (the CPU did exactly these accesses).
pub open spec fn is_step_trace(c: Cpu, t: Seq<BusEvent>) -> bool {
    s_step(c, t).0.trace@ == t
}

/// The trace of an executed instruction extends the trace before it.
proof fn lemma_exec_grows(c: Cpu, t: Seq<BusEvent>, ins: Instr)
    ensures
        ext(c.trace@, s_exec(c, t, ins).0.trace@),
{
    reveal(s_exec);
}

/// Without a pending interrupt, a step starts by fetching the opcode at PC.
proof fn lemma_step_fetch(c: Cpu, t: Seq<BusEvent>)
    requires
        !c.nmi_pending,
        !c.irq_pending,
        is_step_trace(c, t),
    ensures
        t.len() >= 1,
        t[0] == BusEvent::Read(c.pc, ev_value(t[0])),
        s_step(c, t) == ({
            let c1 = Cpu { pc: add16(c.pc, 1), trace: Ghost(seq![BusEvent::Read(c.pc, ev_value(t[0]))]), ..c };
            let r = s_exec(c1, t, decode_spec(ev_value(t[0])));
            (Cpu { cycles: crate::cpu::add64(c.cycles, r.1), ..r.0 }, r.1)
        }),
{
    let c0 = Cpu { trace: Ghost(Seq::<BusEvent>::empty()), ..c };
    let v = ev_value(t[0]);
    let c1 = Cpu { pc: add16(c.pc, 1), trace: Ghost(seq![BusEvent::Read(c.pc, v)]), ..c };
    assert(c0.trace@.push(BusEvent::Read(c.pc, v)) =~= seq![BusEvent::Read(c.pc, v)]);
    lemma_exec_grows(c1, t, decode_spec(v));
}

proof fn lemma_word_split(r: u16)
    ensures
        word((r & 0xFF) as u8, (r >> 8u16) as u8) == r,
{
    assert((((r >> 8u16) as u8 as u16) << 8u16) | ((r & 0xFF) as u8 as u16) == r) by (bit_vector);
}

/// A subroutine call followed, in the called routine, directly by a
/// return resumes at the instruction after the call with the stack pointer
/// restored, provided the return reads back what the call pushed.
#[verifier::rlimit(100)]
#[verifier::spinoff_prover]
pub proof fn law_jsr_then_rts(c: Cpu, t1: Seq<BusEvent>, t2: Seq<BusEvent>)
    requires
        !c.nmi_pending,
        !c.irq_pending,
        is_step_trace(c, t1),
        ev_value(t1[0]) == 0x20,
        !s_step(c, t1).0.nmi_pending,
        !s_step(c, t1).0.irq_pending,
        is_step_trace(s_step(c, t1).0, t2),
        ev_value(t2[0]) == 0x60,
        reads_see_writes(t1, t2),
    ensures
        s_step(s_step(c, t1).0, t2).0.pc == add16(c.pc, 3),
        s_step(s_step(c, t1).0, t2).0.sp == c.sp,
{
    lemma_step_fetch(c, t1);
    let c1 = s_step(c, t1).0;
    lemma_step_fetch(c1, t2);
    assert(decode_spec(0x20) == Instr { op: Op::Jsr, mode: Mode::Abs, cycles: 6 }) by {
        reveal(decode_spec);
    }
    assert(decode_spec(0x60) == Instr { op: Op::Rts, mode: Mode::Imp, cycles: 6 }) by {
        reveal(decode_spec);
    }
    reveal(s_exec);
    let pc3 = add16(add16(c.pc, 1), 2);
    let ret = sub16(pc3, 1);
    assert(t1.len() == 5);
    assert(t1[3] == BusEvent::Write(0x0100u16 | (c.sp as u16), (ret >> 8u16) as u8));
    assert(t1[4] == BusEvent::Write(0x0100u16 | (sub8(c.sp, 1) as u16), (ret & 0xFF) as u8));
    assert(c1.sp == sub8(sub8(c.sp, 1), 1));
    assert(c1.pc == word(ev_value(t1[1]), ev_value(t1[2])));
    assert(add8(c1.sp, 1) == sub8(c.sp, 1));
    assert(add8(add8(c1.sp, 1), 1) == c.sp);
    assert(t2.len() == 3);
    assert(t2[1] == BusEvent::Read(0x0100u16 | (sub8(c.sp, 1) as u16), ev_value(t2[1])));
    assert(t2[2] == BusEvent::Read(0x0100u16 | (c.sp as u16), ev_value(t2[2])));
    assert(ev_value(t2[1]) == (ret & 0xFF) as u8);
    assert(ev_value(t2[2]) == (ret >> 8u16) as u8);
    lemma_word_split(ret);
}

/// Pushing the accumulator and pulling it back restores it and the stack
/// pointer, provided the pull reads back what the push wrote.
#[verifier::rlimit(100)]
#[verifier::spinoff_prover]
pub proof fn law_pha_then_pla(c: Cpu, t1: Seq<BusEvent>, t2: Seq<BusEvent>)
    requires
        !c.nmi_pending,
        !c.irq_pending,
        is_step_trace(c, t1),
        ev_value(t1[0]) == 0x48,
        !s_step(c, t1).0.nmi_pending,
        !s_step(c, t1).0.irq_pending,
        is_step_trace(s_step(c, t1).0, t2),
        ev_value(t2[0]) == 0x68,
        reads_see_writes(t1, t2),
    ensures
        s_step(s_step(c, t1).0, t2).0.a == c.a,
        s_step(s_step(c, t1).0, t2).0.sp == c.sp,
        s_step(s_step(c, t1).0, t2).0.pc == add16(add16(c.pc, 1), 1),
{
    lemma_step_fetch(c, t1);
    let c1 = s_step(c, t1).0;
    lemma_step_fetch(c1, t2);
    assert(decode_spec(0x48) == Instr { op: Op::Pha, mode: Mode::Imp, cycles: 3 }) by {
        reveal(decode_spec);
    }
    assert(decode_spec(0x68) == Instr { op: Op::Pla, mode: Mode::Imp, cycles: 4 }) by {
        reveal(decode_spec);
    }
    reveal(s_exec);
    assert(t1.len() == 2);
    assert(t1[1] == BusEvent::Write(0x0100u16 | (c.sp as u16), c.a));
    assert(add8(sub8(c.sp, 1), 1) == c.sp);
    assert(t2.len() == 2);
    assert(t2[1] == BusEvent::Read(0x0100u16 | (c.sp as u16), ev_value(t2[1])));
    assert(ev_value(t2[1]) == c.a);
}

/// Every opcode takes two to seven base cycles.
proof fn lemma_decode_cycles(op: u8)
    ensures
        2 <= decode_spec(op).cycles <= 7,
        is_read_op(decode_spec(op).op) ==> decode_spec(op).cycles <= 6,
{
    reveal(decode_spec);
}

/// Every step takes between two and seven cycles.
pub proof fn lemma_step_cycles(c: Cpu, t: Seq<BusEvent>)
    ensures
        2 <= s_step(c, t).1 <= 7,
{
    reveal(s_exec);
    let c0 = Cpu { trace: Ghost(Seq::<BusEvent>::empty()), ..c };
    let (c2, opcode) = s_fetch(c0, t);
    lemma_decode_cycles(opcode);
}

/// Status byte `p` reports `v` in N and Z and keeps every other flag of `ps`.
pub open spec fn flags_report(p: u8, ps: u8, v: u8) -> bool {
    &&& (p & FLAG_Z != 0) == (v == 0)
    &&& (p & FLAG_N != 0) == (v >= 0x80)
    &&& p & 0x7D == ps & 0x7D
}

proof fn lemma_nz_reports(ps: u8, v: u8)
    ensures
        flags_report(nz(ps, v), ps, v),
{
    assert((((ps & !(0x80u8 | 0x02u8)) | (if v & 0x80 != 0 { 0x80u8 } else { 0u8 }) | (if v == 0 { 0x02u8 } else { 0u8 }))
        & 0x02 != 0) == (v == 0)
        && (((ps & !(0x80u8 | 0x02u8)) | (if v & 0x80 != 0 { 0x80u8 } else { 0u8 }) | (if v == 0 { 0x02u8 } else { 0u8 }))
        & 0x80 != 0) == (v >= 0x80)
        && ((ps & !(0x80u8 | 0x02u8)) | (if v & 0x80 != 0 { 0x80u8 } else { 0u8 }) | (if v == 0 { 0x02u8 } else { 0u8 }))
        & 0x7D == ps & 0x7D) by (bit_vector);
}

/// The one-byte register instructions: increments and decrements of X and
/// Y count modulo 256, transfers copy the source register, and all but TXS
/// report the new value in N and Z, keeping the other flags.  Each takes
/// two cycles, reads only its opcode and leaves PC at the next byte.
#[verifier::rlimit(100)]
#[verifier::spinoff_prover]
pub proof fn law_register_instructions(c: Cpu, t: Seq<BusEvent>)
    requires
        !c.nmi_pending,
        !c.irq_pending,
        is_step_trace(c, t),
    ensures
        ({
            let op = ev_value(t[0]);
            let (r, n) = s_step(c, t);
            &&& op == 0x88 ==> r.y == (c.y + 255) % 256 && r.x == c.x && r.a == c.a && r.sp == c.sp
                && flags_report(r.ps, c.ps, r.y)
            &&& op == 0xC8 ==> r.y == (c.y + 1) % 256 && r.x == c.x && r.a == c.a && r.sp == c.sp
                && flags_report(r.ps, c.ps, r.y)
            &&& op == 0xCA ==> r.x == (c.x + 255) % 256 && r.y == c.y && r.a == c.a && r.sp == c.sp
                && flags_report(r.ps, c.ps, r.x)
            &&& op == 0xE8 ==> r.x == (c.x + 1) % 256 && r.y == c.y && r.a == c.a && r.sp == c.sp
                && flags_report(r.ps, c.ps, r.x)
            &&& op == 0xAA ==> r.x == c.a && r.y == c.y && r.a == c.a && r.sp == c.sp && flags_report(r.ps, c.ps, c.a)
            &&& op == 0xA8 ==> r.y == c.a && r.x == c.x && r.a == c.a && r.sp == c.sp && flags_report(r.ps, c.ps, c.a)
            &&& op == 0x8A ==> r.a == c.x && r.x == c.x && r.y == c.y && r.sp == c.sp && flags_report(r.ps, c.ps, c.x)
            &&& op == 0x98 ==> r.a == c.y && r.x == c.x && r.y == c.y && r.sp == c.sp && flags_report(r.ps, c.ps, c.y)
            &&& op == 0xBA ==> r.x == c.sp && r.y == c.y && r.a == c.a && r.sp == c.sp && flags_report(r.ps, c.ps, c.sp)
            &&& op == 0x9A ==> r.sp == c.x && r.x == c.x && r.y == c.y && r.a == c.a && r.ps == c.ps
            &&& (op == 0x88 || op == 0xC8 || op == 0xCA || op == 0xE8 || op == 0xAA || op == 0xA8 || op == 0x8A
                || op == 0x98 || op == 0xBA || op == 0x9A) ==> r.pc == (c.pc + 1) % 0x10000 && n == 2 && t.len() == 1
        }),
{
    let op = ev_value(t[0]);
    if op == 0x88 {
        lemma_register_step(c, t, Op::Dey);
        lemma_nz_reports(c.ps, sub8(c.y, 1));
    } else if op == 0xC8 {
        lemma_register_step(c, t, Op::Iny);
        lemma_nz_reports(c.ps, add8(c.y, 1));
    } else if op == 0xCA {
        lemma_register_step(c, t, Op::Dex);
        lemma_nz_reports(c.ps, sub8(c.x, 1));
    } else if op == 0xE8 {
        lemma_register_step(c, t, Op::Inx);
        lemma_nz_reports(c.ps, add8(c.x, 1));
    } else if op == 0xAA {
        lemma_register_step(c, t, Op::Tax);
        lemma_nz_reports(c.ps, c.a);
    } else if op == 0xA8 {
        lemma_register_step(c, t, Op::Tay);
        lemma_nz_reports(c.ps, c.a);
    } else if op == 0x8A {
        lemma_register_step(c, t, Op::Txa);
        lemma_nz_reports(c.ps, c.x);
    } else if op == 0x98 {
        lemma_register_step(c, t, Op::Tya);
        lemma_nz_reports(c.ps, c.y);
    } else if op == 0xBA {
        lemma_register_step(c, t, Op::Tsx);
        lemma_nz_reports(c.ps, c.sp);
    } else if op == 0x9A {
        lemma_register_step(c, t, Op::Txs);
    }
}

/// The one-byte register and flag opcodes and the operation each performs.
spec fn implied_op(code: u8, op: Op) -> bool {
    ||| op == Op::Dey && code == 0x88
    ||| op == Op::Iny && code == 0xC8
    ||| op == Op::Dex && code == 0xCA
    ||| op == Op::Inx && code == 0xE8
    ||| op == Op::Tax && code == 0xAA
    ||| op == Op::Tay && code == 0xA8
    ||| op == Op::Txa && code == 0x8A
    ||| op == Op::Tya && code == 0x98
    ||| op == Op::Tsx && code == 0xBA
    ||| op == Op::Txs && code == 0x9A
    ||| op == Op::Clc && code == 0x18
    ||| op == Op::Sec && code == 0x38
    ||| op == Op::Cli && code == 0x58
    ||| op == Op::Sei && code == 0x78
    ||| op == Op::Clv && code == 0xB8
    ||| op == Op::Cld && code == 0xD8
    ||| op == Op::Sed && code == 0xF8
}

/// A step whose opcode is a one-byte register instruction applies it to
/// the CPU with PC past the opcode.
#[verifier::rlimit(100)]
#[verifier::spinoff_prover]
proof fn lemma_register_step(c: Cpu, t: Seq<BusEvent>, op: Op)
    requires
        !c.nmi_pending,
        !c.irq_pending,
        is_step_trace(c, t),
        implied_op(ev_value(t[0]), op),
    ensures
        t.len() == 1,
        s_step(c, t).1 == 2,
        s_step(c, t).0.pc == (c.pc + 1) % 0x10000,
        ({
            let r = s_step(c, t).0;
            let e = crate::cpu::s_implied(op, c);
            r.a == e.a && r.x == e.x && r.y == e.y && r.sp == e.sp && r.ps == e.ps
        }),
{
    lemma_step_fetch(c, t);
    let code = ev_value(t[0]);
    assert(decode_spec(code) == Instr { op, mode: Mode::Imp, cycles: 2 }) by {
        reveal(decode_spec);
    }
    reveal(s_exec);
}

/// The immediate-operand opcodes and the operation each performs.
spec fn immediate_op(code: u8, op: Op) -> bool {
    ||| op == Op::Adc && code == 0x69
    ||| op == Op::Sbc && code == 0xE9
    ||| op == Op::And && code == 0x29
    ||| op == Op::Ora && code == 0x09
    ||| op == Op::Eor && code == 0x49
    ||| op == Op::Cmp && code == 0xC9
    ||| op == Op::Cpx && code == 0xE0
    ||| op == Op::Cpy && code == 0xC0
    ||| op == Op::Lda && code == 0xA9
    ||| op == Op::Ldx && code == 0xA2
    ||| op == Op::Ldy && code == 0xA0
}

/// A step whose opcode takes an immediate operand reads the opcode and the
/// operand byte after it and applies the operation to that byte.
#[verifier::rlimit(100)]
#[verifier::spinoff_prover]
proof fn lemma_immediate_step(c: Cpu, t: Seq<BusEvent>, op: Op)
    requires
        !c.nmi_pending,
        !c.irq_pending,
        is_step_trace(c, t),
        immediate_op(ev_value(t[0]), op),
    ensures
        t.len() == 2,
        t[1] == BusEvent::Read(add16(c.pc, 1), ev_value(t[1])),
        s_step(c, t).1 == 2,
        s_step(c, t).0.pc == (c.pc + 2) % 0x10000,
        ({
            let r = s_step(c, t).0;
            let e = crate::cpu::s_alu(op, c, ev_value(t[1]));
            r.a == e.a && r.x == e.x && r.y == e.y && r.sp == e.sp && r.ps == e.ps
        }),
{
    lemma_step_fetch(c, t);
    let code = ev_value(t[0]);
    assert(decode_spec(code) == Instr { op, mode: Mode::Imm, cycles: 2 }) by {
        reveal(decode_spec);
    }
    reveal(s_exec);
}

/// Instructions with an immediate operand `m` (the byte after the opcode):
/// AND, ORA and EOR combine it bitwise with A; LDA, LDX and LDY load it;
/// binary ADC and SBC add it with the carry and subtract it with the
/// borrow modulo 256, carry reporting the unsigned overflow or the absence
/// of a borrow; in decimal mode they do the same on two-digit BCD numbers
/// modulo 100; CMP, CPX and CPY set carry when the register is at least
/// `m` and zero when they are equal, changing no register.  Loads and
/// logic operations report the result in N and Z and keep the other
/// flags.  Each takes two cycles and leaves PC past the operand.
#[verifier::rlimit(100)]
#[verifier::spinoff_prover]
pub proof fn law_immediate_instructions(c: Cpu, t: Seq<BusEvent>)
    requires
        !c.nmi_pending,
        !c.irq_pending,
        is_step_trace(c, t),
    ensures
        ({
            let code = ev_value(t[0]);
            let m = ev_value(t[1]);
            let (r, n) = s_step(c, t);
            let keeps_xy = r.x == c.x && r.y == c.y && r.sp == c.sp;
            &&& code == 0x29 ==> r.a == c.a & m && keeps_xy && flags_report(r.ps, c.ps, r.a)
            &&& code == 0x09 ==> r.a == c.a | m && keeps_xy && flags_report(r.ps, c.ps, r.a)
            &&& code == 0x49 ==> r.a == c.a ^ m && keeps_xy && flags_report(r.ps, c.ps, r.a)
            &&& code == 0xA9 ==> r.a == m && keeps_xy && flags_report(r.ps, c.ps, m)
            &&& code == 0xA2 ==> r.x == m && r.a == c.a && r.y == c.y && r.sp == c.sp && flags_report(r.ps, c.ps, m)
            &&& code == 0xA0 ==> r.y == m && r.a == c.a && r.x == c.x && r.sp == c.sp && flags_report(r.ps, c.ps, m)
            &&& code == 0x69 && c.ps & FLAG_D == 0 ==> r.a == (c.a + m + carry_in(c.ps)) % 256 && keeps_xy
                && (r.ps & FLAG_C != 0) == (c.a + m + carry_in(c.ps) > 255)
                && (r.ps & FLAG_Z != 0) == (r.a == 0) && (r.ps & FLAG_N != 0) == (r.a >= 0x80)
            &&& code == 0xE9 && c.ps & FLAG_D == 0 ==> r.a == (c.a - m - (1 - carry_in(c.ps)) + 256) % 256 && keeps_xy
                && (r.ps & FLAG_C != 0) == (c.a - m - (1 - carry_in(c.ps)) >= 0)
                && (r.ps & FLAG_Z != 0) == (r.a == 0) && (r.ps & FLAG_N != 0) == (r.a >= 0x80)
            &&& code == 0x69 && c.ps & FLAG_D != 0 && bcd_valid(c.a) && bcd_valid(m) ==> bcd_valid(r.a)
                && bcd_value(r.a) == (bcd_value(c.a) + bcd_value(m) + carry_in(c.ps)) % 100
                && (r.ps & FLAG_C != 0) == (bcd_value(c.a) + bcd_value(m) + carry_in(c.ps) >= 100) && keeps_xy
            &&& code == 0xE9 && c.ps & FLAG_D != 0 && bcd_valid(c.a) && bcd_valid(m) ==> bcd_valid(r.a)
                && bcd_value(r.a) == (bcd_value(c.a) - bcd_value(m) - (1 - carry_in(c.ps)) + 100) % 100
                && (r.ps & FLAG_C != 0) == (bcd_value(c.a) - bcd_value(m) - (1 - carry_in(c.ps)) >= 0) && keeps_xy
            &&& code == 0xC9 ==> r.a == c.a && keeps_xy && (r.ps & FLAG_C != 0) == (c.a >= m) && (r.ps & FLAG_Z != 0) == (c.a == m)
            &&& code == 0xE0 ==> r.a == c.a && keeps_xy && (r.ps & FLAG_C != 0) == (c.x >= m) && (r.ps & FLAG_Z != 0) == (c.x == m)
            &&& code == 0xC0 ==> r.a == c.a && keeps_xy && (r.ps & FLAG_C != 0) == (c.y >= m) && (r.ps & FLAG_Z != 0) == (c.y == m)
            &&& (code == 0x29 || code == 0x09 || code == 0x49 || code == 0xA9 || code == 0xA2 || code == 0xA0
                || code == 0x69 || code == 0xE9 || code == 0xC9 || code == 0xE0 || code == 0xC0) ==> r.pc == (c.pc + 2)
                % 0x10000 && n == 2 && t.len() == 2 && t[1] == BusEvent::Read(add16(c.pc, 1), m)
        }),
{
    let code = ev_value(t[0]);
    if code == 0x29 {
        lemma_immediate_step(c, t, Op::And);
        lemma_nz_reports(c.ps, c.a & ev_value(t[1]));
    } else if code == 0x09 {
        lemma_immediate_step(c, t, Op::Ora);
        lemma_nz_reports(c.ps, c.a | ev_value(t[1]));
    } else if code == 0x49 {
        lemma_immediate_step(c, t, Op::Eor);
        lemma_nz_reports(c.ps, c.a ^ ev_value(t[1]));
    } else if code == 0xA9 {
        lemma_immediate_step(c, t, Op::Lda);
        lemma_nz_reports(c.ps, ev_value(t[1]));
    } else if code == 0xA2 {
        lemma_immediate_step(c, t, Op::Ldx);
        lemma_nz_reports(c.ps, ev_value(t[1]));
    } else if code == 0xA0 {
        lemma_immediate_step(c, t, Op::Ldy);
        lemma_nz_reports(c.ps, ev_value(t[1]));
    } else if code == 0x69 {
        lemma_immediate_step(c, t, Op::Adc);
        if c.ps & FLAG_D == 0 {
            law_adc_binary(c.a, ev_value(t[1]), c.ps);
        } else if bcd_valid(c.a) && bcd_valid(ev_value(t[1])) {
            law_adc_decimal(c.a, ev_value(t[1]), c.ps);
        }
    } else if code == 0xE9 {
        lemma_immediate_step(c, t, Op::Sbc);
        if c.ps & FLAG_D == 0 {
            law_sbc_binary(c.a, ev_value(t[1]), c.ps);
        } else if bcd_valid(c.a) && bcd_valid(ev_value(t[1])) {
            law_sbc_decimal(c.a, ev_value(t[1]), c.ps);
        }
    } else if code == 0xC9 {
        lemma_immediate_step(c, t, Op::Cmp);
        law_compare(c.a, ev_value(t[1]), c.ps);
    } else if code == 0xE0 {
        lemma_immediate_step(c, t, Op::Cpx);
        law_compare(c.x, ev_value(t[1]), c.ps);
    } else if code == 0xC0 {
        lemma_immediate_step(c, t, Op::Cpy);
        law_compare(c.y, ev_value(t[1]), c.ps);
    }
}

proof fn lemma_flag_edits(ps: u8)
    by (bit_vector)
    ensures
        (ps & !0x01u8) & 0x01 == 0 && (ps & !0x01u8) & 0xFE == ps & 0xFE,
        (ps | 0x01u8) & 0x01 != 0 && (ps | 0x01u8) & 0xFE == ps & 0xFE,
        (ps & !0x04u8) & 0x04 == 0 && (ps & !0x04u8) & 0xFB == ps & 0xFB,
        (ps | 0x04u8) & 0x04 != 0 && (ps | 0x04u8) & 0xFB == ps & 0xFB,
        (ps & !0x08u8) & 0x08 == 0 && (ps & !0x08u8) & 0xF7 == ps & 0xF7,
        (ps | 0x08u8) & 0x08 != 0 && (ps | 0x08u8) & 0xF7 == ps & 0xF7,
        (ps & !0x40u8) & 0x40 == 0 && (ps & !0x40u8) & 0xBF == ps & 0xBF,
{
}

/// The flag instructions: CLC/SEC clear or set carry (bit 0), CLI/SEI the
/// interrupt mask (bit 2), CLD/SED decimal mode (bit 3) and CLV clears
/// overflow (bit 6); no other flag or register changes.  Each takes two
/// cycles and leaves PC at the next byte.
#[verifier::rlimit(100)]
#[verifier::spinoff_prover]
pub proof fn law_flag_instructions(c: Cpu, t: Seq<BusEvent>)
    requires
        !c.nmi_pending,
        !c.irq_pending,
        is_step_trace(c, t),
    ensures
        ({
            let code = ev_value(t[0]);
            let (r, n) = s_step(c, t);
            &&& code == 0x18 ==> r.ps & 0x01 == 0 && r.ps & 0xFE == c.ps & 0xFE
            &&& code == 0x38 ==> r.ps & 0x01 != 0 && r.ps & 0xFE == c.ps & 0xFE
            &&& code == 0x58 ==> r.ps & 0x04 == 0 && r.ps & 0xFB == c.ps & 0xFB
            &&& code == 0x78 ==> r.ps & 0x04 != 0 && r.ps & 0xFB == c.ps & 0xFB
            &&& code == 0xD8 ==> r.ps & 0x08 == 0 && r.ps & 0xF7 == c.ps & 0xF7
            &&& code == 0xF8 ==> r.ps & 0x08 != 0 && r.ps & 0xF7 == c.ps & 0xF7
            &&& code == 0xB8 ==> r.ps & 0x40 == 0 && r.ps & 0xBF == c.ps & 0xBF
            &&& (code == 0x18 || code == 0x38 || code == 0x58 || code == 0x78 || code == 0xD8 || code == 0xF8
                || code == 0xB8) ==> r.a == c.a && r.x == c.x && r.y == c.y && r.sp == c.sp
                && r.pc == (c.pc + 1) % 0x10000 && n == 2 && t.len() == 1
        }),
{
    let code = ev_value(t[0]);
    lemma_flag_edits(c.ps);
    if code == 0x18 {
        lemma_register_step(c, t, Op::Clc);
    } else if code == 0x38 {
        lemma_register_step(c, t, Op::Sec);
    } else if code == 0x58 {
        lemma_register_step(c, t, Op::Cli);
    } else if code == 0x78 {
        lemma_register_step(c, t, Op::Sei);
    } else if code == 0xD8 {
        lemma_register_step(c, t, Op::Cld);
    } else if code == 0xF8 {
        lemma_register_step(c, t, Op::Sed);
    } else if code == 0xB8 {
        lemma_register_step(c, t, Op::Clv);
    }
}

/// The conditional branch opcodes and the operation each performs.
spec fn branch_op(code: u8, op: Op) -> bool {
    ||| op == Op::Bpl && code == 0x10
    ||| op == Op::Bmi && code == 0x30
    ||| op == Op::Bvc && code == 0x50
    ||| op == Op::Bvs && code == 0x70
    ||| op == Op::Bcc && code == 0x90
    ||| op == Op::Bcs && code == 0xB0
    ||| op == Op::Bne && code == 0xD0
    ||| op == Op::Beq && code == 0xF0
}

#[verifier::rlimit(100)]
#[verifier::spinoff_prover]
proof fn lemma_branch_step(c: Cpu, t: Seq<BusEvent>, op: Op)
    requires
        !c.nmi_pending,
        !c.irq_pending,
        is_step_trace(c, t),
        branch_op(ev_value(t[0]), op),
    ensures
        t.len() == 2,
        t[1] == BusEvent::Read(add16(c.pc, 1), ev_value(t[1])),
        ({
            let (r, n) = s_step(c, t);
            let next = add16(add16(c.pc, 1), 1);
            &&& r.a == c.a && r.x == c.x && r.y == c.y && r.sp == c.sp && r.ps == c.ps
            &&& crate::cpu::branch_cond(op, c.ps) ==> r.pc == crate::cpu::rel_target(next, ev_value(t[1])) && (n == 3 || n == 4)
            &&& !crate::cpu::branch_cond(op, c.ps) ==> r.pc == next && n == 2
        }),
{
    lemma_step_fetch(c, t);
    let code = ev_value(t[0]);
    assert(decode_spec(code) == Instr { op, mode: Mode::Rel, cycles: 2 }) by {
        reveal(decode_spec);
    }
    reveal(s_exec);
}

proof fn lemma_sign_extend(off: u8)
    by (bit_vector)
    ensures
        (off as u16) | 0xFF00u16 == (off as u16) + 0xFF00u16,
{
}

/// The conditional branches: BPL/BMI test N (bit 7), BVC/BVS V (bit 6),
/// BCC/BCS C (bit 0), BNE/BEQ Z (bit 1).  A taken branch moves PC from
/// the next instruction by the signed offset byte after the opcode and
/// takes three or four cycles; an untaken one goes to the next
/// instruction in two.  No register or flag changes.
#[verifier::rlimit(100)]
#[verifier::spinoff_prover]
pub proof fn law_branches(c: Cpu, t: Seq<BusEvent>)
    requires
        !c.nmi_pending,
        !c.irq_pending,
        is_step_trace(c, t),
    ensures
        ({
            let code = ev_value(t[0]);
            let off = ev_value(t[1]) as int;
            let (r, n) = s_step(c, t);
            let taken = (code == 0x10 && c.ps & 0x80 == 0) || (code == 0x30 && c.ps & 0x80 != 0)
                || (code == 0x50 && c.ps & 0x40 == 0) || (code == 0x70 && c.ps & 0x40 != 0)
                || (code == 0x90 && c.ps & 0x01 == 0) || (code == 0xB0 && c.ps & 0x01 != 0)
                || (code == 0xD0 && c.ps & 0x02 == 0) || (code == 0xF0 && c.ps & 0x02 != 0);
            (code == 0x10 || code == 0x30 || code == 0x50 || code == 0x70 || code == 0x90 || code == 0xB0
                || code == 0xD0 || code == 0xF0) ==> {
                &&& r.a == c.a && r.x == c.x && r.y == c.y && r.sp == c.sp && r.ps == c.ps
                &&& taken ==> r.pc == (c.pc + 2 + (if off < 128 { off } else { off - 256 }) + 0x10000) % 0x10000
                    && (n == 3 || n == 4)
                &&& !taken ==> r.pc == (c.pc + 2) % 0x10000 && n == 2
            }
        }),
{
    let code = ev_value(t[0]);
    lemma_sign_extend(ev_value(t[1]));
    if code == 0x10 {
        lemma_branch_step(c, t, Op::Bpl);
    } else if code == 0x30 {
        lemma_branch_step(c, t, Op::Bmi);
    } else if code == 0x50 {
        lemma_branch_step(c, t, Op::Bvc);
    } else if code == 0x70 {
        lemma_branch_step(c, t, Op::Bvs);
    } else if code == 0x90 {
        lemma_branch_step(c, t, Op::Bcc);
    } else if code == 0xB0 {
        lemma_branch_step(c, t, Op::Bcs);
    } else if code == 0xD0 {
        lemma_branch_step(c, t, Op::Bne);
    } else if code == 0xF0 {
        lemma_branch_step(c, t, Op::Beq);
    }
}

proof fn lemma_asl_value(v: u8)
    by (bit_vector)
    ensures
        (v << 1u8) as int == (v as int * 2) % 256,
{
}

proof fn lemma_lsr_value(v: u8)
    by (bit_vector)
    ensures
        (v >> 1u8) as int == v as int / 2,
{
}

proof fn lemma_rol_value(v: u8, ps: u8)
    by (bit_vector)
    ensures
        ((v << 1u8) | (ps & 0x01u8)) as int == (v as int * 2 + (ps & 0x01u8) as int) % 256,
{
}

proof fn lemma_ror_value(v: u8, ps: u8)
    by (bit_vector)
    ensures
        ((v >> 1u8) | ((ps & 0x01u8) << 7u8)) as int == v as int / 2 + 128 * (ps & 0x01u8) as int,
{
}

proof fn lemma_end_bits(v: u8, ps: u8)
    by (bit_vector)
    ensures
        (v & 0x80u8 != 0u8) == (v >= 128u8),
        (v & 0x01u8 != 0u8) == (v % 2u8 == 1u8),
        ps & 0x01u8 <= 1u8,
{
}

proof fn lemma_shift_flags(ps: u8, cond: bool, r: u8)
    by (bit_vector)
    ensures
        (nz(with_carry(ps, cond), r) & 0x01 != 0) == cond,
        (nz(with_carry(ps, cond), r) & 0x02 != 0) == (r == 0),
        (nz(with_carry(ps, cond), r) & 0x80 != 0) == (r >= 0x80),
        nz(with_carry(ps, cond), r) & 0x7C == ps & 0x7C,
{
}

/// The accumulator shifts: ASL doubles A modulo 256 and LSR halves it,
/// ROL and ROR do the same bringing the old carry into bit 0 or bit 7;
/// the bit shifted out (bit 7 for ASL/ROL, bit 0 for LSR/ROR) becomes the
/// carry, N and Z report the result and the other flags are kept.  Each
/// takes two cycles and leaves PC at the next byte.
#[verifier::rlimit(100)]
#[verifier::spinoff_prover]
pub proof fn law_accumulator_shifts(c: Cpu, t: Seq<BusEvent>)
    requires
        !c.nmi_pending,
        !c.irq_pending,
        is_step_trace(c, t),
    ensures
        ({
            let code = ev_value(t[0]);
            let (r, n) = s_step(c, t);
            &&& code == 0x0A ==> r.a == (c.a * 2) % 256 && (r.ps & FLAG_C != 0) == (c.a >= 128)
            &&& code == 0x4A ==> r.a == c.a / 2 && (r.ps & FLAG_C != 0) == (c.a % 2 == 1)
            &&& code == 0x2A ==> r.a == (c.a * 2 + carry_in(c.ps)) % 256 && (r.ps & FLAG_C != 0) == (c.a >= 128)
            &&& code == 0x6A ==> r.a == c.a / 2 + 128 * carry_in(c.ps) && (r.ps & FLAG_C != 0) == (c.a % 2 == 1)
            &&& (code == 0x0A || code == 0x4A || code == 0x2A || code == 0x6A) ==> (r.ps & FLAG_Z != 0) == (r.a == 0)
                && (r.ps & FLAG_N != 0) == (r.a >= 0x80) && r.ps & 0x7C == c.ps & 0x7C && r.x == c.x && r.y == c.y
                && r.sp == c.sp && r.pc == (c.pc + 1) % 0x10000 && n == 2 && t.len() == 1
        }),
{
    let code = ev_value(t[0]);
    if code == 0x0A || code == 0x4A || code == 0x2A || code == 0x6A {
        lemma_step_fetch(c, t);
        reveal(decode_spec);
        reveal(s_exec);
        lemma_asl_value(c.a);
        lemma_lsr_value(c.a);
        lemma_rol_value(c.a, c.ps);
        lemma_ror_value(c.a, c.ps);
        lemma_end_bits(c.a, c.ps);
        assert(carry_in(c.ps) == (c.ps & 0x01u8) as int);
        let b7 = c.a & 0x80 != 0;
        let b0 = c.a & 0x01 != 0;
        lemma_shift_flags(c.ps, b7, c.a << 1u8);
        lemma_shift_flags(c.ps, b0, c.a >> 1u8);
        lemma_shift_flags(c.ps, b7, (c.a << 1u8) | (c.ps & FLAG_C));
        lemma_shift_flags(c.ps, b0, (c.a >> 1u8) | ((c.ps & FLAG_C) << 7u8));
    }
}

/// A bus event that reads address `a`.
pub open spec fn reads_at(e: BusEvent, a: int) -> bool {
    e matches BusEvent::Read(x, _) && x == a
}

/// Number of operand bytes after an LDA or STA opcode.
pub open spec fn operand_bytes(code: u8) -> int {
    let m = code % 32;
    if m == 0x0D || m == 0x1D || m == 0x19 { 2 } else { 1 }
}

/// The memory address an LDA or STA opcode (`code`) accesses, from the
/// operand bytes after it, the index registers and, for the indirect
/// modes, the two pointer bytes read from page zero.
pub open spec fn operand_location(code: u8, c: Cpu, t: Seq<BusEvent>) -> int {
    let m = code % 32;
    let b1 = ev_value(t[1]) as int;
    let b2 = ev_value(t[2]) as int;
    let ptr = ev_value(t[2]) + 256 * ev_value(t[3]);
    if m == 0x05 {
        b1
    } else if m == 0x15 {
        (b1 + c.x) % 256
    } else if m == 0x0D {
        b1 + 256 * b2
    } else if m == 0x1D {
        (b1 + 256 * b2 + c.x) % 0x10000
    } else if m == 0x19 {
        (b1 + 256 * b2 + c.y) % 0x10000
    } else if m == 0x01 {
        ptr
    } else {
        (ptr + c.y) % 0x10000
    }
}

/// Cycles an LDA or STA takes: the base count of its mode, and for loads
/// through an indexed 16-bit address one more when indexing crosses a page.
pub open spec fn access_cycles(code: u8, c: Cpu, t: Seq<BusEvent>) -> int {
    let m = code % 32;
    let load = code >= 0xA0;
    let b1 = ev_value(t[1]) as int;
    let p = ev_value(t[2]) as int;
    if m == 0x05 {
        3
    } else if m == 0x15 || m == 0x0D {
        4
    } else if m == 0x1D {
        if load { if b1 + c.x >= 256 { 5 } else { 4 } } else { 5 }
    } else if m == 0x19 {
        if load { if b1 + c.y >= 256 { 5 } else { 4 } } else { 5 }
    } else if m == 0x01 {
        6
    } else {
        if load { if p + c.y >= 256 { 6 } else { 5 } } else { 6 }
    }
}

/// What LDA and STA in every addressing mode do: the opcode is followed by
/// its operand bytes (read from the next PC addresses); the indirect modes
/// then read a pointer from page zero (wrapping within it); the last bus
/// access is at `operand_location`: LDA reads it into A, reporting it in
/// N and Z, and STA writes A there, changing no register or flag.  PC ends
/// past the operand.
pub open spec fn memory_access_law(c: Cpu, t: Seq<BusEvent>, r: Cpu, n: u64) -> bool {
    let code = ev_value(t[0]);
    let m = code % 32;
    let k = t.len() - 1;
    let loc = operand_location(code, c, t);
    let b1 = ev_value(t[1]) as int;
    &&& t.len() == 2 + operand_bytes(code) + (if m == 0x01 || m == 0x11 { 2int } else { 0int })
    &&& reads_at(t[1], (c.pc + 1) % 0x10000)
    &&& operand_bytes(code) == 2 ==> reads_at(t[2], (c.pc + 2) % 0x10000)
    &&& m == 0x01 ==> reads_at(t[2], (b1 + c.x) % 256) && reads_at(t[3], (b1 + c.x + 1) % 256)
    &&& m == 0x11 ==> reads_at(t[2], b1) && reads_at(t[3], (b1 + 1) % 256)
    &&& r.pc == (c.pc + 1 + operand_bytes(code)) % 0x10000
    &&& r.x == c.x && r.y == c.y && r.sp == c.sp
    &&& n == access_cycles(code, c, t)
    &&& code >= 0xA0 ==> reads_at(t[k], loc) && r.a == ev_value(t[k]) && flags_report(r.ps, c.ps, r.a)
    &&& code < 0xA0 ==> t[k] == BusEvent::Write(loc as u16, c.a) && r.a == c.a && r.ps == c.ps
}

proof fn lemma_word_value(lo: u8, hi: u8)
    by (bit_vector)
    ensures
        ((hi as u16) << 8u16) | (lo as u16) == (lo as u16) + (hi as u16) * 256u16,
{
}

proof fn lemma_page_masks(x: u16, y: u16)
    by (bit_vector)
    ensures
        ((x & 0xFF00u16) == (y & 0xFF00u16)) == (x / 256u16 == y / 256u16),
        x & 0xFFu16 == x % 256u16,
{
}

proof fn lemma_page_cross(b: u16, x: u8)
    ensures
        crate::cpu::page_crossed(b, add16(b, x as u16)) == (b % 256 + x >= 256),
{
    lemma_page_masks(b, add16(b, x as u16));
}

/// Arithmetic facts the addressing modes rest on, for the bytes of `t`.
proof fn lemma_access_arith(c: Cpu, t: Seq<BusEvent>)
    ensures
        word(ev_value(t[1]), ev_value(t[2])) as int == ev_value(t[1]) + 256 * ev_value(t[2]),
        word(ev_value(t[2]), ev_value(t[3])) as int == ev_value(t[2]) + 256 * ev_value(t[3]),
        crate::cpu::page_crossed(word(ev_value(t[1]), ev_value(t[2])), add16(word(ev_value(t[1]), ev_value(t[2])), c.x as u16))
            == (ev_value(t[1]) + c.x >= 256),
        crate::cpu::page_crossed(word(ev_value(t[1]), ev_value(t[2])), add16(word(ev_value(t[1]), ev_value(t[2])), c.y as u16))
            == (ev_value(t[1]) + c.y >= 256),
        crate::cpu::page_crossed(word(ev_value(t[2]), ev_value(t[3])), add16(word(ev_value(t[2]), ev_value(t[3])), c.y as u16))
            == (ev_value(t[2]) + c.y >= 256),
        add16(add8(ev_value(t[1]), c.x) as u16, 1) & 0xFF == (ev_value(t[1]) + c.x + 1) % 256,
        add16(ev_value(t[1]) as u16, 1) & 0xFF == (ev_value(t[1]) + 1) % 256,
{
    let b1 = ev_value(t[1]);
    let b2 = ev_value(t[2]);
    let b3 = ev_value(t[3]);
    lemma_word_value(b1, b2);
    lemma_word_value(b2, b3);
    lemma_page_cross(word(b1, b2), c.x);
    lemma_page_cross(word(b1, b2), c.y);
    lemma_page_cross(word(b2, b3), c.y);
    lemma_page_masks(add16(add8(b1, c.x) as u16, 1), 0);
    lemma_page_masks(add16(b1 as u16, 1), 0);
}

#[verifier::rlimit(100)]
#[verifier::spinoff_prover]
proof fn lemma_access_zp(c: Cpu, t: Seq<BusEvent>, op: Op)
    requires
        !c.nmi_pending,
        !c.irq_pending,
        is_step_trace(c, t),
        (op == Op::Lda && ev_value(t[0]) == 0xA5) || (op == Op::Sta && ev_value(t[0]) == 0x85),
    ensures
        memory_access_law(c, t, s_step(c, t).0, s_step(c, t).1),
{
    lemma_step_fetch(c, t);
    let code = ev_value(t[0]);
    lemma_access_arith(c, t);
    if op == Op::Lda {
        assert(decode_spec(code) == Instr { op: Op::Lda, mode: Mode::Zp, cycles: 3 }) by {
            reveal(decode_spec);
        }
        reveal(s_exec);
        lemma_nz_reports(c.ps, ev_value(t[t.len() - 1]));
    } else {
        assert(decode_spec(code) == Instr { op: Op::Sta, mode: Mode::Zp, cycles: 3 }) by {
            reveal(decode_spec);
        }
        reveal(s_exec);
    }
}

#[verifier::rlimit(100)]
#[verifier::spinoff_prover]
proof fn lemma_access_zpx(c: Cpu, t: Seq<BusEvent>, op: Op)
    requires
        !c.nmi_pending,
        !c.irq_pending,
        is_step_trace(c, t),
        (op == Op::Lda && ev_value(t[0]) == 0xB5) || (op == Op::Sta && ev_value(t[0]) == 0x95),
    ensures
        memory_access_law(c, t, s_step(c, t).0, s_step(c, t).1),
{
    lemma_step_fetch(c, t);
    let code = ev_value(t[0]);
    lemma_access_arith(c, t);
    if op == Op::Lda {
        assert(decode_spec(code) == Instr { op: Op::Lda, mode: Mode::Zpx, cycles: 4 }) by {
            reveal(decode_spec);
        }
        reveal(s_exec);
        lemma_nz_reports(c.ps, ev_value(t[t.len() - 1]));
    } else {
        assert(decode_spec(code) == Instr { op: Op::Sta, mode: Mode::Zpx, cycles: 4 }) by {
            reveal(decode_spec);
        }
        reveal(s_exec);
    }
}

#[verifier::rlimit(100)]
#[verifier::spinoff_prover]
proof fn lemma_access_abs(c: Cpu, t: Seq<BusEvent>, op: Op)
    requires
        !c.nmi_pending,
        !c.irq_pending,
        is_step_trace(c, t),
        (op == Op::Lda && ev_value(t[0]) == 0xAD) || (op == Op::Sta && ev_value(t[0]) == 0x8D),
    ensures
        memory_access_law(c, t, s_step(c, t).0, s_step(c, t).1),
{
    lemma_step_fetch(c, t);
    let code = ev_value(t[0]);
    lemma_access_arith(c, t);
    if op == Op::Lda {
        assert(decode_spec(code) == Instr { op: Op::Lda, mode: Mode::Abs, cycles: 4 }) by {
            reveal(decode_spec);
        }
        reveal(s_exec);
        lemma_nz_reports(c.ps, ev_value(t[t.len() - 1]));
    } else {
        assert(decode_spec(code) == Instr { op: Op::Sta, mode: Mode::Abs, cycles: 4 }) by {
            reveal(decode_spec);
        }
        reveal(s_exec);
    }
}

#[verifier::rlimit(100)]
#[verifier::spinoff_prover]
proof fn lemma_access_abx(c: Cpu, t: Seq<BusEvent>, op: Op)
    requires
        !c.nmi_pending,
        !c.irq_pending,
        is_step_trace(c, t),
        (op == Op::Lda && ev_value(t[0]) == 0xBD) || (op == Op::Sta && ev_value(t[0]) == 0x9D),
    ensures
        memory_access_law(c, t, s_step(c, t).0, s_step(c, t).1),
{
    lemma_step_fetch(c, t);
    let code = ev_value(t[0]);
    lemma_access_arith(c, t);
    if op == Op::Lda {
        assert(decode_spec(code) == Instr { op: Op::Lda, mode: Mode::Abx, cycles: 4 }) by {
            reveal(decode_spec);
        }
        reveal(s_exec);
        lemma_nz_reports(c.ps, ev_value(t[t.len() - 1]));
    } else {
        assert(decode_spec(code) == Instr { op: Op::Sta, mode: Mode::Abx, cycles: 5 }) by {
            reveal(decode_spec);
        }
        reveal(s_exec);
    }
}

#[verifier::rlimit(100)]
#[verifier::spinoff_prover]
proof fn lemma_access_aby(c: Cpu, t: Seq<BusEvent>, op: Op)
    requires
        !c.nmi_pending,
        !c.irq_pending,
        is_step_trace(c, t),
        (op == Op::Lda && ev_value(t[0]) == 0xB9) || (op == Op::Sta && ev_value(t[0]) == 0x99),
    ensures
        memory_access_law(c, t, s_step(c, t).0, s_step(c, t).1),
{
    lemma_step_fetch(c, t);
    let code = ev_value(t[0]);
    lemma_access_arith(c, t);
    if op == Op::Lda {
        assert(decode_spec(code) == Instr { op: Op::Lda, mode: Mode::Aby, cycles: 4 }) by {
            reveal(decode_spec);
        }
        reveal(s_exec);
        lemma_nz_reports(c.ps, ev_value(t[t.len() - 1]));
    } else {
        assert(decode_spec(code) == Instr { op: Op::Sta, mode: Mode::Aby, cycles: 5 }) by {
            reveal(decode_spec);
        }
        reveal(s_exec);
    }
}

#[verifier::rlimit(100)]
#[verifier::spinoff_prover]
proof fn lemma_access_izx(c: Cpu, t: Seq<BusEvent>, op: Op)
    requires
        !c.nmi_pending,
        !c.irq_pending,
        is_step_trace(c, t),
        (op == Op::Lda && ev_value(t[0]) == 0xA1) || (op == Op::Sta && ev_value(t[0]) == 0x81),
    ensures
        memory_access_law(c, t, s_step(c, t).0, s_step(c, t).1),
{
    lemma_step_fetch(c, t);
    let code = ev_value(t[0]);
    lemma_access_arith(c, t);
    if op == Op::Lda {
        assert(decode_spec(code) == Instr { op: Op::Lda, mode: Mode::Izx, cycles: 6 }) by {
            reveal(decode_spec);
        }
        reveal(s_exec);
        lemma_nz_reports(c.ps, ev_value(t[t.len() - 1]));
    } else {
        assert(decode_spec(code) == Instr { op: Op::Sta, mode: Mode::Izx, cycles: 6 }) by {
            reveal(decode_spec);
        }
        reveal(s_exec);
    }
}

#[verifier::rlimit(100)]
#[verifier::spinoff_prover]
proof fn lemma_access_izy(c: Cpu, t: Seq<BusEvent>, op: Op)
    requires
        !c.nmi_pending,
        !c.irq_pending,
        is_step_trace(c, t),
        (op == Op::Lda && ev_value(t[0]) == 0xB1) || (op == Op::Sta && ev_value(t[0]) == 0x91),
    ensures
        memory_access_law(c, t, s_step(c, t).0, s_step(c, t).1),
{
    lemma_step_fetch(c, t);
    let code = ev_value(t[0]);
    lemma_access_arith(c, t);
    if op == Op::Lda {
        assert(decode_spec(code) == Instr { op: Op::Lda, mode: Mode::Izy, cycles: 5 }) by {
            reveal(decode_spec);
        }
        reveal(s_exec);
        lemma_nz_reports(c.ps, ev_value(t[t.len() - 1]));
    } else {
        assert(decode_spec(code) == Instr { op: Op::Sta, mode: Mode::Izy, cycles: 6 }) by {
            reveal(decode_spec);
        }
        reveal(s_exec);
    }
}

/// LDA and STA in each addressing mode (zero page, zero page indexed by X,
/// absolute, absolute indexed by X or Y, indexed indirect through page
/// zero and indirect indexed by Y) access the address `operand_location`
/// gives, as `memory_access_law` states.
pub proof fn law_memory_access(c: Cpu, t: Seq<BusEvent>)
    requires
        !c.nmi_pending,
        !c.irq_pending,
        is_step_trace(c, t),
        ({
            let code = ev_value(t[0]);
            code == 0xA5 || code == 0xB5 || code == 0xAD || code == 0xBD || code == 0xB9 || code == 0xA1 || code == 0xB1
                || code == 0x85 || code == 0x95 || code == 0x8D || code == 0x9D || code == 0x99 || code == 0x81
                || code == 0x91
        }),
    ensures
        memory_access_law(c, t, s_step(c, t).0, s_step(c, t).1),
{
    let code = ev_value(t[0]);
    let op = if code >= 0xA0 { Op::Lda } else { Op::Sta };
    let m = code % 32;
    if m == 0x05 {
        lemma_access_zp(c, t, op);
    } else if m == 0x15 {
        lemma_access_zpx(c, t, op);
    } else if m == 0x0D {
        lemma_access_abs(c, t, op);
    } else if m == 0x1D {
        lemma_access_abx(c, t, op);
    } else if m == 0x19 {
        lemma_access_aby(c, t, op);
    } else if m == 0x01 {
        lemma_access_izx(c, t, op);
    } else {
        lemma_access_izy(c, t, op);
    }
}


proof fn lemma_push_fields(pc: u16, sp: u16)
    by (bit_vector)
    requires
        sp < 256u16,
    ensures
        (((pc >> 8u16) as u8) as u16) == pc / 256u16,
        (((pc & 0xFFu16) as u8) as u16) == pc % 256u16,
        0x0100u16 | sp == 0x0100u16 + sp,
{
}

/// Interrupt entry: a pending NMI, or else a pending IRQ while the I flag
/// is clear, pushes the PC high byte, the PC low byte and the status with
/// B clear onto the stack (descending from 0x100 + SP, wrapping in page
/// one), sets I, and jumps through the vector at 0xFFFA (NMI) or 0xFFFE
/// (IRQ), clearing the request it served.  It takes seven cycles and
/// executes no instruction.
#[verifier::rlimit(100)]
#[verifier::spinoff_prover]
pub proof fn law_interrupt_entry(c: Cpu, t: Seq<BusEvent>)
    requires
        c.nmi_pending || (c.irq_pending && c.ps & 0x04 == 0),
        is_step_trace(c, t),
    ensures
        ({
            let (r, n) = s_step(c, t);
            let vector: int = if c.nmi_pending { 0xFFFA } else { 0xFFFE };
            &&& t.len() == 5
            &&& t[0] == BusEvent::Write((0x100 + c.sp) as u16, (c.pc / 256) as u8)
            &&& t[1] == BusEvent::Write((0x100 + (c.sp + 255) % 256) as u16, (c.pc % 256) as u8)
            &&& t[2] == BusEvent::Write((0x100 + (c.sp + 254) % 256) as u16, c.ps & 0xEF)
            &&& reads_at(t[3], vector) && reads_at(t[4], vector + 1)
            &&& r.pc == ev_value(t[3]) + 256 * ev_value(t[4])
            &&& r.sp == (c.sp + 253) % 256
            &&& r.ps & 0x04 != 0 && r.ps & 0xFB == c.ps & 0xFB
            &&& r.a == c.a && r.x == c.x && r.y == c.y
            &&& c.nmi_pending ==> !r.nmi_pending && r.irq_pending == c.irq_pending
            &&& !c.nmi_pending ==> !r.irq_pending && r.nmi_pending == c.nmi_pending
            &&& n == 7
        }),
{
    lemma_push_fields(c.pc, c.sp as u16);
    lemma_push_fields(c.pc, sub8(c.sp, 1) as u16);
    lemma_push_fields(c.pc, sub8(sub8(c.sp, 1), 1) as u16);
    lemma_word_value(ev_value(t[3]), ev_value(t[4]));
    lemma_flag_edits(c.ps);
    assert(!0x10u8 == 0xEFu8) by (bit_vector);
}


/// The zero-page read-modify-write opcodes and the operation each performs.
spec fn rmw_zp_op(code: u8, op: Op) -> bool {
    ||| op == Op::Inc && code == 0xE6
    ||| op == Op::Dec && code == 0xC6
    ||| op == Op::Asl && code == 0x06
    ||| op == Op::Lsr && code == 0x46
    ||| op == Op::Rol && code == 0x26
    ||| op == Op::Ror && code == 0x66
}

#[verifier::rlimit(100)]
#[verifier::spinoff_prover]
proof fn lemma_rmw_zp_step(c: Cpu, t: Seq<BusEvent>, op: Op)
    requires
        !c.nmi_pending,
        !c.irq_pending,
        is_step_trace(c, t),
        rmw_zp_op(ev_value(t[0]), op),
    ensures
        t.len() == 4,
        t[1] == BusEvent::Read(add16(c.pc, 1), ev_value(t[1])),
        t[2] == BusEvent::Read(ev_value(t[1]) as u16, ev_value(t[2])),
        t[3] == BusEvent::Write(ev_value(t[1]) as u16, rmw_spec(op, ev_value(t[2]), c.ps).0),
        ({
            let (r, n) = s_step(c, t);
            &&& r.ps == rmw_spec(op, ev_value(t[2]), c.ps).1
            &&& r.a == c.a && r.x == c.x && r.y == c.y && r.sp == c.sp
            &&& r.pc == (c.pc + 2) % 0x10000 && n == 5
        }),
{
    lemma_step_fetch(c, t);
    let code = ev_value(t[0]);
    assert(decode_spec(code) == Instr { op, mode: Mode::Zp, cycles: 5 }) by {
        reveal(decode_spec);
    }
    reveal(s_exec);
}

/// Read-modify-write on a zero-page byte: the opcode's operand names the
/// address; the byte there is read and the new value written back.  INC
/// and DEC count it up or down modulo 256 reporting the result in N and
/// Z; ASL, LSR, ROL and ROR shift it as the accumulator shifts do, the
/// bit shifted out becoming the carry.  No register changes; five cycles.
pub proof fn law_zero_page_read_modify_write(c: Cpu, t: Seq<BusEvent>)
    requires
        !c.nmi_pending,
        !c.irq_pending,
        is_step_trace(c, t),
    ensures
        ({
            let code = ev_value(t[0]);
            let z = ev_value(t[1]);
            let v = ev_value(t[2]);
            let w = ev_value(t[3]);
            let (r, n) = s_step(c, t);
            (code == 0xE6 || code == 0xC6 || code == 0x06 || code == 0x46 || code == 0x26 || code == 0x66) ==> {
                &&& t.len() == 4
                &&& reads_at(t[1], (c.pc + 1) % 0x10000)
                &&& t[2] == BusEvent::Read(z as u16, v)
                &&& t[3] == BusEvent::Write(z as u16, w)
                &&& code == 0xE6 ==> w == (v + 1) % 256 && flags_report(r.ps, c.ps, w)
                &&& code == 0xC6 ==> w == (v + 255) % 256 && flags_report(r.ps, c.ps, w)
                &&& code == 0x06 ==> w == (v * 2) % 256 && (r.ps & FLAG_C != 0) == (v >= 128)
                &&& code == 0x46 ==> w == v / 2 && (r.ps & FLAG_C != 0) == (v % 2 == 1)
                &&& code == 0x26 ==> w == (v * 2 + carry_in(c.ps)) % 256 && (r.ps & FLAG_C != 0) == (v >= 128)
                &&& code == 0x66 ==> w == v / 2 + 128 * carry_in(c.ps) && (r.ps & FLAG_C != 0) == (v % 2 == 1)
                &&& (code == 0x06 || code == 0x46 || code == 0x26 || code == 0x66) ==> (r.ps & FLAG_Z != 0) == (w == 0)
                    && (r.ps & FLAG_N != 0) == (w >= 0x80) && r.ps & 0x7C == c.ps & 0x7C
                &&& r.a == c.a && r.x == c.x && r.y == c.y && r.sp == c.sp
                &&& r.pc == (c.pc + 2) % 0x10000 && n == 5
            }
        }),
{
    let code = ev_value(t[0]);
    let op = if code == 0xE6 { Op::Inc } else if code == 0xC6 { Op::Dec } else if code == 0x06 { Op::Asl }
        else if code == 0x46 { Op::Lsr } else if code == 0x26 { Op::Rol } else { Op::Ror };
    if code == 0xE6 || code == 0xC6 || code == 0x06 || code == 0x46 || code == 0x26 || code == 0x66 {
        lemma_rmw_zp_step(c, t, op);
        let v = ev_value(t[2]);
        lemma_nz_reports(c.ps, add8(v, 1));
        lemma_nz_reports(c.ps, sub8(v, 1));
        lemma_asl_value(v);
        lemma_lsr_value(v);
        lemma_rol_value(v, c.ps);
        lemma_ror_value(v, c.ps);
        lemma_end_bits(v, c.ps);
        assert(carry_in(c.ps) == (c.ps & 0x01u8) as int);
        let b7 = v & 0x80 != 0;
        let b0 = v & 0x01 != 0;
        lemma_shift_flags(c.ps, b7, v << 1u8);
        lemma_shift_flags(c.ps, b0, v >> 1u8);
        lemma_shift_flags(c.ps, b7, (v << 1u8) | (c.ps & FLAG_C));
        lemma_shift_flags(c.ps, b0, (v >> 1u8) | ((c.ps & FLAG_C) << 7u8));
    }
}

/// JMP: the absolute form continues at the 16-bit operand (low byte
/// first); the indirect form continues at the address stored at the
/// operand, whose high byte is read from the same page (the pointer's low
/// byte wraps).  Three and five cycles; no register or flag changes.
#[verifier::rlimit(100)]
#[verifier::spinoff_prover]
pub proof fn law_jump(c: Cpu, t: Seq<BusEvent>)
    requires
        !c.nmi_pending,
        !c.irq_pending,
        is_step_trace(c, t),
    ensures
        ({
            let code = ev_value(t[0]);
            let b1 = ev_value(t[1]) as int;
            let b2 = ev_value(t[2]) as int;
            let (r, n) = s_step(c, t);
            &&& code == 0x4C ==> t.len() == 3 && r.pc == b1 + 256 * b2 && n == 3
            &&& code == 0x6C ==> t.len() == 5 && reads_at(t[3], b1 + 256 * b2)
                && reads_at(t[4], (b1 + 1) % 256 + 256 * b2)
                && r.pc == ev_value(t[3]) + 256 * ev_value(t[4]) && n == 5
            &&& (code == 0x4C || code == 0x6C) ==> reads_at(t[1], (c.pc + 1) % 0x10000)
                && reads_at(t[2], (c.pc + 2) % 0x10000) && r.a == c.a && r.x == c.x && r.y == c.y && r.sp == c.sp
                && r.ps == c.ps
        }),
{
    let code = ev_value(t[0]);
    if code == 0x4C || code == 0x6C {
        lemma_step_fetch(c, t);
        reveal(decode_spec);
        reveal(s_exec);
        let b1 = ev_value(t[1]);
        let b2 = ev_value(t[2]);
        lemma_word_value(b1, b2);
        lemma_word_value(ev_value(t[3]), ev_value(t[4]));
        lemma_pointer_wrap(b1, b2);
        let y = (((b1 as u16) + 1u16) as u16) & 0xFFu16;
        lemma_page_masks(((b1 as u16) + 1u16) as u16, 0);
        lemma_word_value(y as u8, b2);
    }
}

proof fn lemma_pointer_wrap(lo: u8, hi: u8)
    by (bit_vector)
    ensures
        (((((hi as u16) << 8u16) | (lo as u16)) & 0xFF00u16) | (add16(((hi as u16) << 8u16) | (lo as u16), 1) & 0x00FFu16))
            == ((hi as u16) << 8u16) | ((((lo as u16) + 1u16) as u16) & 0xFFu16),
{
}


/// Operation selected by bits 5-7 of an opcode whose low two bits are 01.
pub open spec fn group_one_op(aaa: int) -> Op {
    if aaa == 0 { Op::Ora } else if aaa == 1 { Op::And } else if aaa == 2 { Op::Eor } else if aaa == 3 { Op::Adc }
    else if aaa == 4 { Op::Sta } else if aaa == 5 { Op::Lda } else if aaa == 6 { Op::Cmp } else { Op::Sbc }
}

/// Addressing mode selected by bits 2-4 of an opcode whose low two bits are 01.
pub open spec fn group_one_mode(bbb: int) -> Mode {
    if bbb == 0 { Mode::Izx } else if bbb == 1 { Mode::Zp } else if bbb == 2 { Mode::Imm } else if bbb == 3 { Mode::Abs }
    else if bbb == 4 { Mode::Izy } else if bbb == 5 { Mode::Zpx } else if bbb == 6 { Mode::Aby } else { Mode::Abx }
}

/// The accumulator instructions are laid out regularly: an opcode with low
/// bits 01 performs the operation its bits 5-7 select (ORA, AND, EOR,
/// ADC, STA, LDA, CMP, SBC) in the mode its bits 2-4 select ((zp,X), zp,
/// #imm, abs, (zp),Y, zp,X, abs,Y, abs,X), except 0x89 (no immediate
/// store).
#[verifier::rlimit(100)]
#[verifier::spinoff_prover]
pub proof fn law_accumulator_opcode_layout(code: u8)
    requires
        code % 4 == 1,
        code != 0x89,
    ensures
        decode_spec(code).op == group_one_op(code as int / 32),
        decode_spec(code).mode == group_one_mode((code as int / 4) % 8),
{
    reveal(decode_spec);
}


/// Operation selected by bits 5-7 of an opcode whose low two bits are 10.
pub open spec fn group_two_op(aaa: int) -> Op {
    if aaa == 0 { Op::Asl } else if aaa == 1 { Op::Rol } else if aaa == 2 { Op::Lsr } else if aaa == 3 { Op::Ror }
    else if aaa == 4 { Op::Stx } else if aaa == 5 { Op::Ldx } else if aaa == 6 { Op::Dec } else { Op::Inc }
}

/// The shift, increment and X-register memory instructions are laid out
/// regularly: an opcode with low bits 10 and bits 2-4 odd performs the
/// operation its bits 5-7 select (ASL, ROL, LSR, ROR, STX, LDX, DEC, INC)
/// on zp (001), abs (011), zp indexed (101) or abs indexed (111), the
/// index being Y for STX and LDX and X otherwise (0x9E, abs,Y store of X,
/// does not exist); bits 2-4 = 010 with an operation below STX is the
/// accumulator form of the shift.
#[verifier::rlimit(100)]
#[verifier::spinoff_prover]
pub proof fn law_shift_opcode_layout(code: u8)
    requires
        code % 4 == 2,
    ensures
        ({
            let aaa = code as int / 32;
            let bbb = (code as int / 4) % 8;
            &&& bbb % 2 == 1 && code != 0x9E ==> decode_spec(code).op == group_two_op(aaa)
            &&& bbb == 1 ==> decode_spec(code).mode == Mode::Zp
            &&& bbb == 3 ==> decode_spec(code).mode == Mode::Abs
            &&& bbb == 5 ==> decode_spec(code).mode == if aaa == 4 || aaa == 5 { Mode::Zpy } else { Mode::Zpx }
            &&& bbb == 7 && code != 0x9E ==> decode_spec(code).mode == if aaa == 5 { Mode::Aby } else { Mode::Abx }
            &&& bbb == 2 && aaa < 4 ==> decode_spec(code).op == group_two_op(aaa) && decode_spec(code).mode == Mode::Acc
        }),
{
    reveal(decode_spec);
}

/// The index-register instructions with low bits 00: bits 5-7 = 001 is
/// BIT, 100 STY, 101 LDY, 110 CPY, 111 CPX; bits 2-4 = 001 is zp and 011
/// abs for all of them, 000 immediate for LDY, CPY and CPX, 101 zp,X for
/// STY and LDY, and 111 abs,X for LDY.
#[verifier::rlimit(100)]
#[verifier::spinoff_prover]
pub proof fn law_index_opcode_layout(code: u8)
    requires
        code % 4 == 0,
    ensures
        ({
            let aaa = code as int / 32;
            let bbb = (code as int / 4) % 8;
            let op = if aaa == 1 { Op::Bit } else if aaa == 4 { Op::Sty } else if aaa == 5 { Op::Ldy }
                else if aaa == 6 { Op::Cpy } else { Op::Cpx };
            &&& (aaa == 1 || aaa >= 4) && bbb == 1 ==> decode_spec(code).op == op && decode_spec(code).mode == Mode::Zp
            &&& (aaa == 1 || aaa >= 4) && bbb == 3 ==> decode_spec(code).op == op && decode_spec(code).mode == Mode::Abs
            &&& aaa >= 5 && bbb == 0 ==> decode_spec(code).op == op && decode_spec(code).mode == Mode::Imm
            &&& (aaa == 4 || aaa == 5) && bbb == 5 ==> decode_spec(code).op == op && decode_spec(code).mode == Mode::Zpx
            &&& aaa == 5 && bbb == 7 ==> decode_spec(code).op == op && decode_spec(code).mode == Mode::Abx
        }),
{
    reveal(decode_spec);
}


/// STX and STY on page zero write X or Y at the operand address; no
/// register or flag changes; three cycles.
#[verifier::rlimit(100)]
#[verifier::spinoff_prover]
pub proof fn law_index_stores(c: Cpu, t: Seq<BusEvent>)
    requires
        !c.nmi_pending,
        !c.irq_pending,
        is_step_trace(c, t),
    ensures
        ({
            let code = ev_value(t[0]);
            let z = ev_value(t[1]);
            let (r, n) = s_step(c, t);
            &&& code == 0x86 ==> t.len() == 3 && t[2] == BusEvent::Write(z as u16, c.x)
            &&& code == 0x84 ==> t.len() == 3 && t[2] == BusEvent::Write(z as u16, c.y)
            &&& (code == 0x86 || code == 0x84) ==> reads_at(t[1], (c.pc + 1) % 0x10000) && r.a == c.a && r.x == c.x
                && r.y == c.y && r.sp == c.sp && r.ps == c.ps && r.pc == (c.pc + 2) % 0x10000 && n == 3
        }),
{
    let code = ev_value(t[0]);
    if code == 0x86 || code == 0x84 {
        lemma_step_fetch(c, t);
        reveal(decode_spec);
        reveal(s_exec);
    }
}

/// PHP pushes the status with B and bit 5 set at 0x100 + SP and
/// decrements SP; PLP increments SP and pulls the status from there,
/// clearing B and setting bit 5.  No other register changes.
#[verifier::rlimit(100)]
#[verifier::spinoff_prover]
pub proof fn law_status_stack(c: Cpu, t: Seq<BusEvent>)
    requires
        !c.nmi_pending,
        !c.irq_pending,
        is_step_trace(c, t),
    ensures
        ({
            let code = ev_value(t[0]);
            let (r, n) = s_step(c, t);
            &&& code == 0x08 ==> t.len() == 2 && t[1] == BusEvent::Write((0x100 + c.sp) as u16, c.ps | 0x30)
                && r.sp == (c.sp + 255) % 256 && r.ps == c.ps && n == 3
            &&& code == 0x28 ==> t.len() == 2 && reads_at(t[1], 0x100 + (c.sp + 1) % 256)
                && r.ps == (ev_value(t[1]) & 0xEF) | 0x20 && r.sp == (c.sp + 1) % 256 && n == 4
            &&& (code == 0x08 || code == 0x28) ==> r.a == c.a && r.x == c.x && r.y == c.y
                && r.pc == (c.pc + 1) % 0x10000
        }),
{
    let code = ev_value(t[0]);
    if code == 0x08 || code == 0x28 {
        lemma_step_fetch(c, t);
        reveal(decode_spec);
        reveal(s_exec);
        lemma_push_fields(c.pc, c.sp as u16);
        lemma_push_fields(c.pc, add8(c.sp, 1) as u16);
        lemma_status_bits(c.ps, ev_value(t[1]));
    }
}

proof fn lemma_status_bits(ps: u8, v: u8)
    by (bit_vector)
    ensures
        ps | 0x10u8 | 0x20u8 == ps | 0x30u8,
        (v & !0x10u8) | 0x20u8 == (v & 0xEFu8) | 0x20u8,
{
}


/// BRK pushes the address two past the opcode (high byte first) and the
/// status with B and bit 5 set, sets I and continues at the address in
/// 0xFFFE/0xFFFF.  Seven cycles; A, X and Y are kept.
#[verifier::rlimit(100)]
#[verifier::spinoff_prover]
pub proof fn law_break(c: Cpu, t: Seq<BusEvent>)
    requires
        !c.nmi_pending,
        !c.irq_pending,
        is_step_trace(c, t),
        ev_value(t[0]) == 0x00,
    ensures
        ({
            let (r, n) = s_step(c, t);
            let ret = (c.pc + 2) % 0x10000;
            &&& t.len() == 6
            &&& t[1] == BusEvent::Write((0x100 + c.sp) as u16, (ret / 256) as u8)
            &&& t[2] == BusEvent::Write((0x100 + (c.sp + 255) % 256) as u16, (ret % 256) as u8)
            &&& t[3] == BusEvent::Write((0x100 + (c.sp + 254) % 256) as u16, c.ps | 0x30)
            &&& reads_at(t[4], 0xFFFE) && reads_at(t[5], 0xFFFF)
            &&& r.pc == ev_value(t[4]) + 256 * ev_value(t[5]) && r.sp == (c.sp + 253) % 256
            &&& r.ps & 0x04 != 0 && r.ps & 0xFB == c.ps & 0xFB && n == 7
            &&& r.a == c.a && r.x == c.x && r.y == c.y
        }),
{
    lemma_step_fetch(c, t);
    assert(decode_spec(0x00) == Instr { op: Op::Brk, mode: Mode::Imp, cycles: 7 }) by {
        reveal(decode_spec);
    }
    reveal(s_exec);
    let ret = add16(c.pc, 2);
    assert(add16(add16(c.pc, 1), 1) == ret);
    lemma_push_fields(ret, c.sp as u16);
    lemma_push_fields(ret, sub8(c.sp, 1) as u16);
    lemma_push_fields(ret, sub8(sub8(c.sp, 1), 1) as u16);
    lemma_word_value(ev_value(t[4]), ev_value(t[5]));
    lemma_status_bits(c.ps, 0);
    lemma_flag_edits(c.ps);
}

/// RTI pulls the status (B cleared, bit 5 set) and then the return address
/// (low byte first) from the stack and continues there.  Six cycles; A, X
/// and Y are kept.
#[verifier::rlimit(100)]
#[verifier::spinoff_prover]
pub proof fn law_return_from_interrupt(c: Cpu, t: Seq<BusEvent>)
    requires
        !c.nmi_pending,
        !c.irq_pending,
        is_step_trace(c, t),
        ev_value(t[0]) == 0x40,
    ensures
        ({
            let (r, n) = s_step(c, t);
            &&& t.len() == 4
            &&& reads_at(t[1], 0x100 + (c.sp + 1) % 256)
            &&& reads_at(t[2], 0x100 + (c.sp + 2) % 256)
            &&& reads_at(t[3], 0x100 + (c.sp + 3) % 256)
            &&& r.ps == (ev_value(t[1]) & 0xEF) | 0x20 && r.pc == ev_value(t[2]) + 256 * ev_value(t[3])
            &&& r.sp == (c.sp + 3) % 256 && n == 6
            &&& r.a == c.a && r.x == c.x && r.y == c.y
        }),
{
    lemma_step_fetch(c, t);
    assert(decode_spec(0x40) == Instr { op: Op::Rti, mode: Mode::Imp, cycles: 6 }) by {
        reveal(decode_spec);
    }
    reveal(s_exec);
    lemma_push_fields(c.pc, add8(c.sp, 1) as u16);
    lemma_push_fields(c.pc, add8(add8(c.sp, 1), 1) as u16);
    lemma_push_fields(c.pc, add8(add8(add8(c.sp, 1), 1), 1) as u16);
    lemma_word_value(ev_value(t[2]), ev_value(t[3]));
    lemma_status_bits(c.ps, ev_value(t[1]));
}

} // verus!
