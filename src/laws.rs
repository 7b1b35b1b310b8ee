//! Laws of the CPU model, proved over the spec functions the CPU's
//! contracts use.
use vstd::prelude::*;
use crate::mappers::{nrom_read, nrom_write, NromView};
use crate::memory::BusOp;
use crate::model::{
    fetch, instr_run, is_implied_op, is_read_op, is_rmw_op, modify, operand_value, pull_prologue, read,
    step_run, adc, asl, branch, branch_target, flag, indexed, lsr, page_crossed, pull, push, read_op,
    resets_to, resolve, rol, ror, with_flag, with_zn, word, wrap16, wrap8,
    CpuState, Run, FLAG_CARRY, FLAG_DECIMAL, FLAG_INTERRUPT_DISABLE, FLAG_NEGATIVE, FLAG_OVERFLOW,
    FLAG_ZERO,
};
use crate::cpu_ops::{op_table, AddressingMode, Instr};

verus! {

proof fn lemma_flag_own_bit(p: u8)
    by (bit_vector)
    ensures
        (p | 0x01u8) & 0x01u8 != 0,
        (p & !0x01u8) & 0x01u8 == 0,
        (p | 0x02u8) & 0x02u8 != 0,
        (p & !0x02u8) & 0x02u8 == 0,
        (p | 0x04u8) & 0x04u8 != 0,
        (p & !0x04u8) & 0x04u8 == 0,
        (p | 0x08u8) & 0x08u8 != 0,
        (p & !0x08u8) & 0x08u8 == 0,
        (p | 0x40u8) & 0x40u8 != 0,
        (p & !0x40u8) & 0x40u8 == 0,
        (p | 0x80u8) & 0x80u8 != 0,
        (p & !0x80u8) & 0x80u8 == 0,
{
}

proof fn lemma_flag_other_bits(p: u8)
    by (bit_vector)
    ensures
        (p | 0x01u8) & 0x02u8 == p & 0x02u8,
        (p & !0x01u8) & 0x02u8 == p & 0x02u8,
        (p | 0x01u8) & 0x04u8 == p & 0x04u8,
        (p & !0x01u8) & 0x04u8 == p & 0x04u8,
        (p | 0x01u8) & 0x08u8 == p & 0x08u8,
        (p & !0x01u8) & 0x08u8 == p & 0x08u8,
        (p | 0x01u8) & 0x40u8 == p & 0x40u8,
        (p & !0x01u8) & 0x40u8 == p & 0x40u8,
        (p | 0x01u8) & 0x80u8 == p & 0x80u8,
        (p & !0x01u8) & 0x80u8 == p & 0x80u8,
        (p | 0x02u8) & 0x01u8 == p & 0x01u8,
        (p & !0x02u8) & 0x01u8 == p & 0x01u8,
        (p | 0x02u8) & 0x04u8 == p & 0x04u8,
        (p & !0x02u8) & 0x04u8 == p & 0x04u8,
        (p | 0x02u8) & 0x08u8 == p & 0x08u8,
        (p & !0x02u8) & 0x08u8 == p & 0x08u8,
        (p | 0x02u8) & 0x40u8 == p & 0x40u8,
        (p & !0x02u8) & 0x40u8 == p & 0x40u8,
        (p | 0x02u8) & 0x80u8 == p & 0x80u8,
        (p & !0x02u8) & 0x80u8 == p & 0x80u8,
        (p | 0x04u8) & 0x01u8 == p & 0x01u8,
        (p & !0x04u8) & 0x01u8 == p & 0x01u8,
        (p | 0x04u8) & 0x02u8 == p & 0x02u8,
        (p & !0x04u8) & 0x02u8 == p & 0x02u8,
        (p | 0x04u8) & 0x08u8 == p & 0x08u8,
        (p & !0x04u8) & 0x08u8 == p & 0x08u8,
        (p | 0x04u8) & 0x40u8 == p & 0x40u8,
        (p & !0x04u8) & 0x40u8 == p & 0x40u8,
        (p | 0x04u8) & 0x80u8 == p & 0x80u8,
        (p & !0x04u8) & 0x80u8 == p & 0x80u8,
        (p | 0x08u8) & 0x01u8 == p & 0x01u8,
        (p & !0x08u8) & 0x01u8 == p & 0x01u8,
        (p | 0x08u8) & 0x02u8 == p & 0x02u8,
        (p & !0x08u8) & 0x02u8 == p & 0x02u8,
        (p | 0x08u8) & 0x04u8 == p & 0x04u8,
        (p & !0x08u8) & 0x04u8 == p & 0x04u8,
        (p | 0x08u8) & 0x40u8 == p & 0x40u8,
        (p & !0x08u8) & 0x40u8 == p & 0x40u8,
        (p | 0x08u8) & 0x80u8 == p & 0x80u8,
        (p & !0x08u8) & 0x80u8 == p & 0x80u8,
        (p | 0x40u8) & 0x01u8 == p & 0x01u8,
        (p & !0x40u8) & 0x01u8 == p & 0x01u8,
        (p | 0x40u8) & 0x02u8 == p & 0x02u8,
        (p & !0x40u8) & 0x02u8 == p & 0x02u8,
        (p | 0x40u8) & 0x04u8 == p & 0x04u8,
        (p & !0x40u8) & 0x04u8 == p & 0x04u8,
        (p | 0x40u8) & 0x08u8 == p & 0x08u8,
        (p & !0x40u8) & 0x08u8 == p & 0x08u8,
        (p | 0x40u8) & 0x80u8 == p & 0x80u8,
        (p & !0x40u8) & 0x80u8 == p & 0x80u8,
        (p | 0x80u8) & 0x01u8 == p & 0x01u8,
        (p & !0x80u8) & 0x01u8 == p & 0x01u8,
        (p | 0x80u8) & 0x02u8 == p & 0x02u8,
        (p & !0x80u8) & 0x02u8 == p & 0x02u8,
        (p | 0x80u8) & 0x04u8 == p & 0x04u8,
        (p & !0x80u8) & 0x04u8 == p & 0x04u8,
        (p | 0x80u8) & 0x08u8 == p & 0x08u8,
        (p & !0x80u8) & 0x08u8 == p & 0x08u8,
        (p | 0x80u8) & 0x40u8 == p & 0x40u8,
        (p & !0x80u8) & 0x40u8 == p & 0x40u8,
{
}

/// Setting a flag makes it read back as set, and leaves the others.
proof fn lemma_with_flag(p: u8, f: u8, v: bool)
    requires
        f == FLAG_CARRY || f == FLAG_ZERO || f == FLAG_INTERRUPT_DISABLE || f == FLAG_DECIMAL
            || f == FLAG_OVERFLOW || f == FLAG_NEGATIVE,
    ensures
        flag(with_flag(p, f, v), f) == v,
        f != FLAG_CARRY ==> flag(with_flag(p, f, v), FLAG_CARRY) == flag(p, FLAG_CARRY),
        f != FLAG_ZERO ==> flag(with_flag(p, f, v), FLAG_ZERO) == flag(p, FLAG_ZERO),
        f != FLAG_INTERRUPT_DISABLE ==> flag(with_flag(p, f, v), FLAG_INTERRUPT_DISABLE) == flag(p, FLAG_INTERRUPT_DISABLE),
        f != FLAG_DECIMAL ==> flag(with_flag(p, f, v), FLAG_DECIMAL) == flag(p, FLAG_DECIMAL),
        f != FLAG_OVERFLOW ==> flag(with_flag(p, f, v), FLAG_OVERFLOW) == flag(p, FLAG_OVERFLOW),
        f != FLAG_NEGATIVE ==> flag(with_flag(p, f, v), FLAG_NEGATIVE) == flag(p, FLAG_NEGATIVE),
{
    lemma_flag_own_bit(p);
    lemma_flag_other_bits(p);
}

/// Z and N set from `r` describe `r`; the other flags stay.
proof fn lemma_with_zn(p: u8, r: u8)
    ensures
        zn_agrees(with_zn(p, r), r),
        flag(with_zn(p, r), FLAG_CARRY) == flag(p, FLAG_CARRY),
        flag(with_zn(p, r), FLAG_OVERFLOW) == flag(p, FLAG_OVERFLOW),
{
    lemma_with_flag(p, FLAG_ZERO, r == 0);
    lemma_with_flag(with_flag(p, FLAG_ZERO, r == 0), FLAG_NEGATIVE, r >= 0x80);
}

/// Z and N of `p` are those of the byte `r`.
pub open spec fn zn_agrees(p: u8, r: u8) -> bool {
    &&& flag(p, FLAG_ZERO) == (r == 0)
    &&& flag(p, FLAG_NEGATIVE) == (r >= 0x80)
}

/// ADC with the carry clear: A' is (A + M) mod 256, and C is set exactly
/// when A + M reaches 256.
pub proof fn lemma_adc_carry_clear(st: CpuState, m: u8)
    requires
        !flag(st.p, FLAG_CARRY),
    ensures
        adc(st, m).a == (st.a + m) % 256,
        flag(adc(st, m).p, FLAG_CARRY) == (st.a + m >= 256),
{
    lemma_adc_flags(st, m);
}

/// The flags ADC leaves: C is the ninth bit of the sum, Z and N describe A'.
proof fn lemma_adc_flags(st: CpuState, m: u8)
    ensures
        flag(adc(st, m).p, FLAG_CARRY) == (st.a + m + if flag(st.p, FLAG_CARRY) { 1int } else { 0int } >= 256),
        zn_agrees(adc(st, m).p, adc(st, m).a),
{
    let sum = st.a + m + if flag(st.p, FLAG_CARRY) { 1int } else { 0int };
    let res = wrap8(sum);
    let overflow = (!(st.a ^ m)) & (st.a ^ res) & 0x80 != 0;
    let with_carry = with_flag(st.p, FLAG_CARRY, sum >= 256);
    lemma_with_flag(st.p, FLAG_CARRY, sum >= 256);
    lemma_with_zn(with_carry, res);
    lemma_with_flag(with_zn(with_carry, res), FLAG_OVERFLOW, overflow);
}

/// SBC with the carry set subtracts exactly: A' is A - M when A >= M
/// (and A - M mod 256 otherwise), and C is set exactly when A >= M.
pub proof fn lemma_sbc_carry_set(st: CpuState, m: u8)
    requires
        flag(st.p, FLAG_CARRY),
    ensures
        read_op(Instr::Sbc, st, m).a == (st.a - m + 256) % 256,
        st.a >= m ==> read_op(Instr::Sbc, st, m).a == st.a - m,
        flag(read_op(Instr::Sbc, st, m).p, FLAG_CARRY) == (st.a >= m),
{
    assert(!m == 255u8 - m) by (bit_vector);
    lemma_adc_flags(st, !m);
}

/// ROL then ROR, the carry passed from one to the other, give back the
/// byte and the carry.
pub proof fn lemma_rol_ror(v: u8, c: bool)
    ensures
        ror(rol(v, c).0, rol(v, c).1) == (v, c),
{
}

/// ASL then LSR clears bit 7 of the byte; LSR then ASL clears bit 0.
pub proof fn lemma_shift_pairs(v: u8)
    ensures
        lsr(asl(v).0).0 == v & 0x7F,
        asl(lsr(v).0).0 == v & 0xFE,
{
    assert(v & 0x7F == v % 128) by (bit_vector);
    assert(v & 0xFE == v - v % 2) by (bit_vector);
}

/// Every push and every pull addresses the stack page 0x0100..=0x01FF.
pub proof fn lemma_stack_page(r: Run, log: Seq<BusOp>, v: u8)
    ensures
        push(r, log, v).ok ==> 0x100 <= log[r.pos].addr <= 0x1FF,
        pull(r, log).0.ok ==> 0x100 <= log[r.pos].addr <= 0x1FF,
{
}

/// A push of `v` then a pull use the same stack cell and leave S as it
/// was, whatever S was. On the NROM bus that cell is RAM, so the pull
/// reads back `v`.
pub proof fn lemma_push_then_pull(r: Run, log: Seq<BusOp>, v: u8, m: NromView)
    requires
        pull(push(r, log, v), log).0.ok,
        m.ram.len() == 0x800,
    ensures
        pull(push(r, log, v), log).0.st.s == r.st.s,
        log[r.pos].addr == log[r.pos + 1].addr,
        nrom_read(nrom_write(m, log[r.pos].addr, v), log[r.pos + 1].addr) == v,
{
}

/// Two resets in a row, where the bus gives the same reset vector both
/// times, leave the same registers.
pub proof fn lemma_reset_twice(
    st: CpuState,
    l0: Seq<BusOp>,
    l1: Seq<BusOp>,
    l2: Seq<BusOp>,
    st1: CpuState,
    st2: CpuState,
)
    requires
        resets_to(st, l0, l1, st1),
        resets_to(st1, l1, l2, st2),
        l2[l1.len() as int].val == l1[l0.len() as int].val,
        l2[l1.len() + 1int].val == l1[l0.len() + 1int].val,
    ensures
        st2 == (CpuState { cycles: st1.cycles + 7, ..st1 }),
{
}

/// JMP ($xxFF): the low byte of the target is read from $xxFF and the high
/// byte from $xx00, on the pointer's own page.
pub proof fn lemma_jmp_indirect_page_wrap(r: Run, log: Seq<BusOp>)
    requires
        resolve(AddressingMode::Indirect, false, r, log).0.ok,
        log[r.pos].val == 0xFF,
    ensures
        log[r.pos + 2].addr == word(0xFF, log[r.pos + 1].val),
        log[r.pos + 3].addr == word(0, log[r.pos + 1].val),
{
}

/// (zp),Y with zp = 0xFF: the pointer's low byte is read from $00FF and
/// its high byte from $0000.
pub proof fn lemma_indirect_indexed_zero_page_wrap(is_read: bool, r: Run, log: Seq<BusOp>)
    requires
        resolve(AddressingMode::IndirectIndexed, is_read, r, log).0.ok,
        log[r.pos].val == 0xFF,
    ensures
        log[r.pos + 1].addr == 0x00FF,
        log[r.pos + 2].addr == 0x0000,
{
}

/// Indexed addressing pays one read more than the bare address: reading
/// instructions only when the index crosses a page, the others always.
pub proof fn lemma_indexed_cost(is_read: bool, r: Run, log: Seq<BusOp>, base: u16, index: u8)
    ensures
        indexed(is_read, r, log, base, index).0.pos == r.pos + if !is_read || page_crossed(
            base,
            wrap16(base + index),
        ) {
            1int
        } else {
            0int
        },
        indexed(is_read, r, log, base, index).1 == wrap16(base + index),
{
}

/// A branch reads its offset; taken, it reads once more, and once more
/// again when the target is on another page than the next instruction.
pub proof fn lemma_branch_cost(taken: bool, r: Run, log: Seq<BusOp>)
    ensures
        ({
            let next = wrap16(r.st.pc + 1);
            let target = branch_target(next, log[r.pos].val);
            branch(taken, r, log).pos == r.pos + 1 + if !taken {
                0int
            } else if page_crossed(next, target) {
                2int
            } else {
                1int
            }
        }),
        branch(taken, r, log).st.pc == if taken {
            branch_target(wrap16(r.st.pc + 1), log[r.pos].val)
        } else {
            wrap16(r.st.pc + 1)
        },
{
}

/// The register an instruction leaves its result in, for those whose
/// result is a register: 0 for A, 1 for X, 2 for Y.
pub open spec fn result_register(instr: Instr) -> Option<int> {
    match instr {
        Instr::Adc | Instr::Sbc | Instr::And | Instr::Eor | Instr::Ora | Instr::Lda | Instr::Txa
        | Instr::Tya | Instr::Pla | Instr::AslA | Instr::LsrA | Instr::RolA | Instr::RorA => Some(0),
        Instr::Ldx | Instr::Tax | Instr::Tsx | Instr::Inx | Instr::Dex => Some(1),
        Instr::Ldy | Instr::Tay | Instr::Iny | Instr::Dey => Some(2),
        _ => None,
    }
}

pub open spec fn register(st: CpuState, which: int) -> u8 {
    if which == 0 {
        st.a
    } else if which == 1 {
        st.x
    } else {
        st.y
    }
}

/// After an instruction, Z and N are those of its documented result: the
/// register it loaded or computed, the byte a read-modify-write wrote
/// back, or the difference `reg - M` of a compare.
pub proof fn lemma_zn_after(instr: Instr, mode: AddressingMode, r: Run, log: Seq<BusOp>)
    requires
        instr_run(instr, mode, r, log).ok,
    ensures
        ({
            let r2 = instr_run(instr, mode, r, log);
            let last = log[r2.pos - 1].val;
            &&& result_register(instr) matches Some(w) ==> zn_agrees(r2.st.p, register(r2.st, w))
            &&& is_rmw_op(instr) ==> zn_agrees(r2.st.p, last)
            &&& instr == Instr::Cmp ==> zn_agrees(r2.st.p, wrap8(r.st.a - last + 256))
            &&& instr == Instr::Cpx ==> zn_agrees(r2.st.p, wrap8(r.st.x - last + 256))
            &&& instr == Instr::Cpy ==> zn_agrees(r2.st.p, wrap8(r.st.y - last + 256))
        }),
{
    if is_read_op(instr) {
        lemma_zn_after_read(instr, mode, r, log);
    } else if is_implied_op(instr) {
        lemma_zn_after_implied(instr, mode, r, log);
    } else if is_rmw_op(instr) {
        lemma_zn_after_rmw(instr, mode, r, log);
    } else if instr == Instr::Pla {
        lemma_zn_after_pla(instr, mode, r, log);
    }
}

/// `lemma_zn_after` for the instructions that read an operand.
#[verifier::rlimit(30)]
proof fn lemma_zn_after_read(instr: Instr, mode: AddressingMode, r: Run, log: Seq<BusOp>)
    requires
        instr_run(instr, mode, r, log).ok,
        is_read_op(instr),
    ensures
        ({
            let r2 = instr_run(instr, mode, r, log);
            let last = log[r2.pos - 1].val;
            &&& result_register(instr) matches Some(w) ==> zn_agrees(r2.st.p, register(r2.st, w))
            &&& is_rmw_op(instr) ==> zn_agrees(r2.st.p, last)
            &&& instr == Instr::Cmp ==> zn_agrees(r2.st.p, wrap8(r.st.a - last + 256))
            &&& instr == Instr::Cpx ==> zn_agrees(r2.st.p, wrap8(r.st.x - last + 256))
            &&& instr == Instr::Cpy ==> zn_agrees(r2.st.p, wrap8(r.st.y - last + 256))
        }),
{
    reveal(instr_run);
    let (r1, m) = operand_value(mode, r, log);
    let st = r1.st;
    assert(r1.st.a == r.st.a && r1.st.x == r.st.x && r1.st.y == r.st.y) by {
        lemma_resolve_keeps_registers(mode, true, r, log);
    }
    match instr {
        Instr::Adc => lemma_adc_flags(st, m),
        Instr::Sbc => lemma_adc_flags(st, !m),
        Instr::And => lemma_with_zn(st.p, st.a & m),
        Instr::Eor => lemma_with_zn(st.p, st.a ^ m),
        Instr::Ora => lemma_with_zn(st.p, st.a | m),
        Instr::Lda | Instr::Ldx | Instr::Ldy => lemma_with_zn(st.p, m),
        Instr::Cmp | Instr::Cpx | Instr::Cpy => {
            let reg = if instr == Instr::Cmp { st.a } else if instr == Instr::Cpx { st.x } else { st.y };
            lemma_with_flag(st.p, FLAG_CARRY, reg >= m);
            let with_carry = with_flag(st.p, FLAG_CARRY, reg >= m);
            lemma_with_flag(with_carry, FLAG_ZERO, reg == m);
            lemma_with_flag(with_flag(with_carry, FLAG_ZERO, reg == m), FLAG_NEGATIVE, wrap8(reg - m + 256) >= 0x80);
        },
        _ => {},
    }
}

/// `lemma_zn_after` for the one-byte register instructions.
#[verifier::rlimit(30)]
proof fn lemma_zn_after_implied(instr: Instr, mode: AddressingMode, r: Run, log: Seq<BusOp>)
    requires
        instr_run(instr, mode, r, log).ok,
        is_implied_op(instr),
    ensures
        ({
            let r2 = instr_run(instr, mode, r, log);
            let last = log[r2.pos - 1].val;
            &&& result_register(instr) matches Some(w) ==> zn_agrees(r2.st.p, register(r2.st, w))
            &&& is_rmw_op(instr) ==> zn_agrees(r2.st.p, last)
            &&& instr == Instr::Cmp ==> zn_agrees(r2.st.p, wrap8(r.st.a - last + 256))
            &&& instr == Instr::Cpx ==> zn_agrees(r2.st.p, wrap8(r.st.x - last + 256))
            &&& instr == Instr::Cpy ==> zn_agrees(r2.st.p, wrap8(r.st.y - last + 256))
        }),
{
    reveal(instr_run);
    let (r1, _) = resolve(AddressingMode::Implicit, false, r, log);
    let st = r1.st;
    match instr {
        Instr::AslA | Instr::LsrA | Instr::RolA | Instr::RorA => {
            let (res, c) = modify(instr, st.a, flag(st.p, FLAG_CARRY));
            lemma_with_zn(with_flag(st.p, FLAG_CARRY, c), res);
        },
        Instr::Tax | Instr::Tay => lemma_with_zn(st.p, st.a),
        Instr::Tsx => lemma_with_zn(st.p, st.s),
        Instr::Txa => lemma_with_zn(st.p, st.x),
        Instr::Tya => lemma_with_zn(st.p, st.y),
        Instr::Inx => lemma_with_zn(st.p, wrap8(st.x + 1)),
        Instr::Iny => lemma_with_zn(st.p, wrap8(st.y + 1)),
        Instr::Dex => lemma_with_zn(st.p, wrap8(st.x + 255)),
        Instr::Dey => lemma_with_zn(st.p, wrap8(st.y + 255)),
        _ => {},
    }
}

/// `lemma_zn_after` for the read-modify-write instructions.
#[verifier::rlimit(30)]
proof fn lemma_zn_after_rmw(instr: Instr, mode: AddressingMode, r: Run, log: Seq<BusOp>)
    requires
        instr_run(instr, mode, r, log).ok,
        is_rmw_op(instr),
    ensures
        ({
            let r2 = instr_run(instr, mode, r, log);
            let last = log[r2.pos - 1].val;
            &&& result_register(instr) matches Some(w) ==> zn_agrees(r2.st.p, register(r2.st, w))
            &&& is_rmw_op(instr) ==> zn_agrees(r2.st.p, last)
            &&& instr == Instr::Cmp ==> zn_agrees(r2.st.p, wrap8(r.st.a - last + 256))
            &&& instr == Instr::Cpx ==> zn_agrees(r2.st.p, wrap8(r.st.x - last + 256))
            &&& instr == Instr::Cpy ==> zn_agrees(r2.st.p, wrap8(r.st.y - last + 256))
        }),
{
    reveal(instr_run);
    let (r1, addr) = resolve(mode, false, r, log);
    let (r2, m) = read(r1, log, addr);
    let p = r2.st.p;
    let (res, c) = modify(instr, m, flag(p, FLAG_CARRY));
    if instr == Instr::Inc || instr == Instr::Dec {
        lemma_with_zn(p, res);
    } else {
        lemma_with_zn(with_flag(p, FLAG_CARRY, c), res);
    }
}

/// `lemma_zn_after` for PLA.
proof fn lemma_zn_after_pla(instr: Instr, mode: AddressingMode, r: Run, log: Seq<BusOp>)
    requires
        instr_run(instr, mode, r, log).ok,
        instr == Instr::Pla,
    ensures
        ({
            let r2 = instr_run(instr, mode, r, log);
            let last = log[r2.pos - 1].val;
            &&& result_register(instr) matches Some(w) ==> zn_agrees(r2.st.p, register(r2.st, w))
            &&& is_rmw_op(instr) ==> zn_agrees(r2.st.p, last)
            &&& instr == Instr::Cmp ==> zn_agrees(r2.st.p, wrap8(r.st.a - last + 256))
            &&& instr == Instr::Cpx ==> zn_agrees(r2.st.p, wrap8(r.st.x - last + 256))
            &&& instr == Instr::Cpy ==> zn_agrees(r2.st.p, wrap8(r.st.y - last + 256))
        }),
{
    reveal(instr_run);
    let (r1, v) = pull(pull_prologue(r, log), log);
    lemma_with_zn(r1.st.p, v);
}

/// Operand resolution moves PC and counts cycles; A, X, Y, S and P stay.
proof fn lemma_resolve_keeps_registers(mode: AddressingMode, is_read: bool, r: Run, log: Seq<BusOp>)
    ensures
        ({
            let r1 = resolve(mode, is_read, r, log).0;
            r1.st.a == r.st.a && r1.st.x == r.st.x && r1.st.y == r.st.y && r1.st.s == r.st.s && r1.st.p == r.st.p
        }),
{
}

/// Z and N after a whole instruction, as `lemma_zn_after` states them, for
/// the instruction the opcode table names.
pub proof fn lemma_zn_after_step(st: CpuState, log: Seq<BusOp>, pos: int)
    requires
        step_run(st, log, pos).ok,
    ensures
        ({
            let op = op_table(log[pos].val);
            let r2 = step_run(st, log, pos);
            let last = log[r2.pos - 1].val;
            &&& result_register(op.instr) matches Some(w) ==> zn_agrees(r2.st.p, register(r2.st, w))
            &&& is_rmw_op(op.instr) ==> zn_agrees(r2.st.p, last)
            &&& op.instr == Instr::Cmp ==> zn_agrees(r2.st.p, wrap8(st.a - last + 256))
            &&& op.instr == Instr::Cpx ==> zn_agrees(r2.st.p, wrap8(st.x - last + 256))
            &&& op.instr == Instr::Cpy ==> zn_agrees(r2.st.p, wrap8(st.y - last + 256))
        }),
{
    let (r1, opcode) = fetch(Run { st, pos, ok: true }, log);
    let op = op_table(opcode);
    lemma_zn_after(op.instr, op.mode, r1, log);
}

} // verus!
