//! The meaning of one CPU instruction, stated over the bus log.
//!
//! A step is checked against the transactions the bus recorded: a [`Run`]
//! walks the log from the position where the step began, and each read or
//! write the CPU must make has to be the next entry of the log. The value a
//! read returned is taken from the log, so the model fixes everything the CPU
//! does as a function of what the bus answered.
use vstd::prelude::*;
use crate::cpu_ops::{op_table, AddressingMode, Instr};
use crate::memory::BusOp;

verus! {

pub const FLAG_CARRY: u8 = 0x01;
pub const FLAG_ZERO: u8 = 0x02;
pub const FLAG_INTERRUPT_DISABLE: u8 = 0x04;
pub const FLAG_DECIMAL: u8 = 0x08;
pub const FLAG_OVERFLOW: u8 = 0x40;
pub const FLAG_NEGATIVE: u8 = 0x80;

/// The registers of the CPU and the number of cycles elapsed.
pub struct CpuState {
    pub a: u8,
    pub x: u8,
    pub y: u8,
    pub pc: u16,
    pub s: u8,
    pub p: u8,
    pub cycles: int,
}

/// A step in progress: the state reached, the log position of the next
/// transaction, and whether every transaction so far was the expected one.
pub struct Run {
    pub st: CpuState,
    pub pos: int,
    pub ok: bool,
}

pub open spec fn flag(p: u8, f: u8) -> bool {
    p & f != 0
}

pub open spec fn with_flag(p: u8, f: u8, v: bool) -> u8 {
    if v {
        p | f
    } else {
        p & !f
    }
}

/// Z and N set from a result byte.
pub open spec fn with_zn(p: u8, r: u8) -> u8 {
    with_flag(with_flag(p, FLAG_ZERO, r == 0), FLAG_NEGATIVE, r >= 0x80)
}

pub open spec fn wrap8(x: int) -> u8 {
    (x % 256) as u8
}

pub open spec fn wrap16(x: int) -> u16 {
    (x % 0x10000) as u16
}

/// The 16-bit value with low byte `lo` and high byte `hi`.
pub open spec fn word(lo: u8, hi: u8) -> u16 {
    (hi * 256 + lo) as u16
}

/// The stack is the page 0x0100..=0x01FF.
pub open spec fn stack_addr(s: u8) -> u16 {
    (0x100 + s) as u16
}

pub open spec fn page_crossed(a: u16, b: u16) -> bool {
    a / 256 != b / 256
}

/// The address read while the carry into the high byte of `base + index`
/// is still pending: `base`'s page with the low byte of `target`.
pub open spec fn unfixed(base: u16, target: u16) -> u16 {
    (base / 256 * 256 + target % 256) as u16
}

pub open spec fn with_st(r: Run, st: CpuState) -> Run {
    Run { st, ..r }
}

pub open spec fn with_pc(r: Run, pc: u16) -> Run {
    Run { st: CpuState { pc, ..r.st }, ..r }
}

/// A read of `addr`: one cycle; its value is the one the log recorded.
pub open spec fn read(r: Run, log: Seq<BusOp>, addr: u16) -> (Run, u8) {
    let v = log[r.pos].val;
    (
        Run {
            st: CpuState { cycles: r.st.cycles + 1, ..r.st },
            pos: r.pos + 1,
            ok: r.ok && 0 <= r.pos < log.len() && log[r.pos] == BusOp::read(addr, v),
        },
        v,
    )
}

/// A write of `val` to `addr`: one cycle.
pub open spec fn write(r: Run, log: Seq<BusOp>, addr: u16, val: u8) -> Run {
    Run {
        st: CpuState { cycles: r.st.cycles + 1, ..r.st },
        pos: r.pos + 1,
        ok: r.ok && 0 <= r.pos < log.len() && log[r.pos] == BusOp::store(addr, val),
    }
}

/// Reads the byte at PC and advances PC.
pub open spec fn fetch(r: Run, log: Seq<BusOp>) -> (Run, u8) {
    let (r1, v) = read(r, log, r.st.pc);
    (with_pc(r1, wrap16(r.st.pc + 1)), v)
}

/// `base + index` with 16-bit wrap; the read of the unfixed address is made
/// by writing instructions always and by reading ones on a page cross.
pub open spec fn indexed(is_read: bool, r: Run, log: Seq<BusOp>, base: u16, index: u8) -> (Run, u16) {
    let addr = wrap16(base + index);
    if !is_read || page_crossed(base, addr) {
        (read(r, log, unfixed(base, addr)).0, addr)
    } else {
        (r, addr)
    }
}

/// The effective address of an operand, with the transactions that find it.
pub open spec fn resolve(mode: AddressingMode, is_read: bool, r: Run, log: Seq<BusOp>) -> (Run, u16) {
    match mode {
        AddressingMode::Implicit => (read(r, log, r.st.pc).0, 0),
        AddressingMode::ZeroPage => {
            let (r1, zp) = fetch(r, log);
            (r1, zp as u16)
        },
        AddressingMode::ZeroPageX => {
            let (r1, zp) = fetch(r, log);
            (read(r1, log, zp as u16).0, wrap8(zp + r.st.x) as u16)
        },
        AddressingMode::ZeroPageY => {
            let (r1, zp) = fetch(r, log);
            (read(r1, log, zp as u16).0, wrap8(zp + r.st.y) as u16)
        },
        AddressingMode::Absolute => {
            let (r1, lo) = fetch(r, log);
            let (r2, hi) = fetch(r1, log);
            (r2, word(lo, hi))
        },
        AddressingMode::AbsoluteX => {
            let (r1, lo) = fetch(r, log);
            let (r2, hi) = fetch(r1, log);
            indexed(is_read, r2, log, word(lo, hi), r.st.x)
        },
        AddressingMode::AbsoluteY => {
            let (r1, lo) = fetch(r, log);
            let (r2, hi) = fetch(r1, log);
            indexed(is_read, r2, log, word(lo, hi), r.st.y)
        },
        AddressingMode::Immediate | AddressingMode::Relative => (
            with_pc(r, wrap16(r.st.pc + 1)),
            r.st.pc,
        ),
        AddressingMode::Indirect => {
            let (r1, lo) = fetch(r, log);
            let (r2, hi) = fetch(r1, log);
            // the high byte comes from the same page as the low byte
            let (r3, al) = read(r2, log, word(lo, hi));
            let (r4, ah) = read(r3, log, word(wrap8(lo + 1), hi));
            (r4, word(al, ah))
        },
        AddressingMode::IndexedIndirect => {
            let (r1, zp) = fetch(r, log);
            let (r2, _) = read(r1, log, zp as u16);
            let ptr = wrap8(zp + r.st.x);
            let (r3, al) = read(r2, log, ptr as u16);
            let (r4, ah) = read(r3, log, wrap8(ptr + 1) as u16);
            (r4, word(al, ah))
        },
        AddressingMode::IndirectIndexed => {
            let (r1, zp) = fetch(r, log);
            let (r2, lo) = read(r1, log, zp as u16);
            let (r3, hi) = read(r2, log, wrap8(zp + 1) as u16);
            indexed(is_read, r3, log, word(lo, hi), r.st.y)
        },
    }
}

/// Resolves the operand of a reading instruction and reads it.
pub open spec fn operand_value(mode: AddressingMode, r: Run, log: Seq<BusOp>) -> (Run, u8) {
    let (r1, addr) = resolve(mode, true, r, log);
    read(r1, log, addr)
}

/// `A + M + C` in nine bits.
pub open spec fn adc(st: CpuState, m: u8) -> CpuState {
    let sum = st.a + m + if flag(st.p, FLAG_CARRY) { 1int } else { 0int };
    let res = wrap8(sum);
    let overflow = (!(st.a ^ m)) & (st.a ^ res) & 0x80 != 0;
    CpuState {
        a: res,
        p: with_flag(with_zn(with_flag(st.p, FLAG_CARRY, sum >= 256), res), FLAG_OVERFLOW, overflow),
        ..st
    }
}

/// `reg - M` without storing it.
pub open spec fn compare(p: u8, reg: u8, m: u8) -> u8 {
    with_flag(
        with_flag(with_flag(p, FLAG_CARRY, reg >= m), FLAG_ZERO, reg == m),
        FLAG_NEGATIVE,
        wrap8(reg - m + 256) >= 0x80,
    )
}

/// The effect of an instruction that reads the operand `m`.
pub open spec fn read_op(instr: Instr, st: CpuState, m: u8) -> CpuState {
    match instr {
        Instr::Adc => adc(st, m),
        Instr::Sbc => adc(st, !m),
        Instr::And => CpuState { a: st.a & m, p: with_zn(st.p, st.a & m), ..st },
        Instr::Eor => CpuState { a: st.a ^ m, p: with_zn(st.p, st.a ^ m), ..st },
        Instr::Ora => CpuState { a: st.a | m, p: with_zn(st.p, st.a | m), ..st },
        Instr::Bit => CpuState {
            p: with_flag(
                with_flag(with_flag(st.p, FLAG_ZERO, st.a & m == 0), FLAG_OVERFLOW, m & 0x40 != 0),
                FLAG_NEGATIVE,
                m >= 0x80,
            ),
            ..st
        },
        Instr::Cmp => CpuState { p: compare(st.p, st.a, m), ..st },
        Instr::Cpx => CpuState { p: compare(st.p, st.x, m), ..st },
        Instr::Cpy => CpuState { p: compare(st.p, st.y, m), ..st },
        Instr::Lda => CpuState { a: m, p: with_zn(st.p, m), ..st },
        Instr::Ldx => CpuState { x: m, p: with_zn(st.p, m), ..st },
        Instr::Ldy => CpuState { y: m, p: with_zn(st.p, m), ..st },
        _ => st,
    }
}

pub open spec fn is_read_op(instr: Instr) -> bool {
    matches!(instr, Instr::Adc | Instr::Sbc | Instr::And | Instr::Eor | Instr::Ora | Instr::Bit
        | Instr::Cmp | Instr::Cpx | Instr::Cpy | Instr::Lda | Instr::Ldx | Instr::Ldy)
}

/// Shift left; the carry out is the old bit 7.
pub open spec fn asl(v: u8) -> (u8, bool) {
    (wrap8(v * 2), v >= 0x80)
}

/// Shift right; the carry out is the old bit 0.
pub open spec fn lsr(v: u8) -> (u8, bool) {
    (v / 2, v % 2 == 1)
}

/// Rotate left through the carry.
pub open spec fn rol(v: u8, c: bool) -> (u8, bool) {
    (wrap8(v * 2 + if c { 1int } else { 0int }), v >= 0x80)
}

/// Rotate right through the carry.
pub open spec fn ror(v: u8, c: bool) -> (u8, bool) {
    ((v / 2 + if c { 0x80int } else { 0int }) as u8, v % 2 == 1)
}

/// The result byte and carry out of a shift, rotate, increment or decrement.
pub open spec fn modify(instr: Instr, v: u8, c: bool) -> (u8, bool) {
    match instr {
        Instr::AslA | Instr::AslM => asl(v),
        Instr::LsrA | Instr::LsrM => lsr(v),
        Instr::RolA | Instr::RolM => rol(v, c),
        Instr::RorA | Instr::RorM => ror(v, c),
        Instr::Inc => (wrap8(v + 1), c),
        _ => (wrap8(v + 255), c),
    }
}

/// The flags after `modify`: increments and decrements keep the carry.
pub open spec fn modify_flags(instr: Instr, p: u8, v: u8) -> u8 {
    let (res, c) = modify(instr, v, flag(p, FLAG_CARRY));
    if instr == Instr::Inc || instr == Instr::Dec {
        with_zn(p, res)
    } else {
        with_zn(with_flag(p, FLAG_CARRY, c), res)
    }
}

pub open spec fn is_rmw_op(instr: Instr) -> bool {
    matches!(instr, Instr::AslM | Instr::LsrM | Instr::RolM | Instr::RorM | Instr::Inc | Instr::Dec)
}

/// The effect of a one-byte instruction that works on registers alone.
pub open spec fn implied_op(instr: Instr, st: CpuState) -> CpuState {
    match instr {
        Instr::AslA | Instr::LsrA | Instr::RolA | Instr::RorA => CpuState {
            a: modify(instr, st.a, flag(st.p, FLAG_CARRY)).0,
            p: modify_flags(instr, st.p, st.a),
            ..st
        },
        Instr::Tax => CpuState { x: st.a, p: with_zn(st.p, st.a), ..st },
        Instr::Tay => CpuState { y: st.a, p: with_zn(st.p, st.a), ..st },
        Instr::Tsx => CpuState { x: st.s, p: with_zn(st.p, st.s), ..st },
        Instr::Txa => CpuState { a: st.x, p: with_zn(st.p, st.x), ..st },
        Instr::Tya => CpuState { a: st.y, p: with_zn(st.p, st.y), ..st },
        Instr::Txs => CpuState { s: st.x, ..st },
        Instr::Inx => CpuState { x: wrap8(st.x + 1), p: with_zn(st.p, wrap8(st.x + 1)), ..st },
        Instr::Iny => CpuState { y: wrap8(st.y + 1), p: with_zn(st.p, wrap8(st.y + 1)), ..st },
        Instr::Dex => CpuState { x: wrap8(st.x + 255), p: with_zn(st.p, wrap8(st.x + 255)), ..st },
        Instr::Dey => CpuState { y: wrap8(st.y + 255), p: with_zn(st.p, wrap8(st.y + 255)), ..st },
        Instr::Clc => CpuState { p: with_flag(st.p, FLAG_CARRY, false), ..st },
        Instr::Sec => CpuState { p: with_flag(st.p, FLAG_CARRY, true), ..st },
        Instr::Cli => CpuState { p: with_flag(st.p, FLAG_INTERRUPT_DISABLE, false), ..st },
        Instr::Sei => CpuState { p: with_flag(st.p, FLAG_INTERRUPT_DISABLE, true), ..st },
        Instr::Cld => CpuState { p: with_flag(st.p, FLAG_DECIMAL, false), ..st },
        Instr::Sed => CpuState { p: with_flag(st.p, FLAG_DECIMAL, true), ..st },
        Instr::Clv => CpuState { p: with_flag(st.p, FLAG_OVERFLOW, false), ..st },
        _ => st,
    }
}

pub open spec fn is_implied_op(instr: Instr) -> bool {
    matches!(instr, Instr::AslA | Instr::LsrA | Instr::RolA | Instr::RorA | Instr::Tax | Instr::Tay
        | Instr::Tsx | Instr::Txa | Instr::Tya | Instr::Txs | Instr::Inx | Instr::Iny | Instr::Dex
        | Instr::Dey | Instr::Clc | Instr::Sec | Instr::Cli | Instr::Sei | Instr::Cld | Instr::Sed
        | Instr::Clv | Instr::Nop | Instr::Invalid)
}

/// The register a store instruction writes out.
pub open spec fn stored(instr: Instr, st: CpuState) -> u8 {
    match instr {
        Instr::Stx => st.x,
        Instr::Sty => st.y,
        _ => st.a,
    }
}

/// Whether a branch instruction takes its branch under the flags `p`.
pub open spec fn branch_taken(instr: Instr, p: u8) -> bool {
    match instr {
        Instr::Bcc => !flag(p, FLAG_CARRY),
        Instr::Bcs => flag(p, FLAG_CARRY),
        Instr::Bne => !flag(p, FLAG_ZERO),
        Instr::Beq => flag(p, FLAG_ZERO),
        Instr::Bpl => !flag(p, FLAG_NEGATIVE),
        Instr::Bmi => flag(p, FLAG_NEGATIVE),
        Instr::Bvc => !flag(p, FLAG_OVERFLOW),
        _ => flag(p, FLAG_OVERFLOW),
    }
}

pub open spec fn is_branch_op(instr: Instr) -> bool {
    matches!(instr, Instr::Bcc | Instr::Bcs | Instr::Bne | Instr::Beq | Instr::Bpl | Instr::Bmi
        | Instr::Bvc | Instr::Bvs)
}

/// `pc` plus the sign-extended offset, modulo 2^16.
pub open spec fn branch_target(pc: u16, offset: u8) -> u16 {
    wrap16(pc + 0x10000 + if offset >= 0x80 { offset - 256 } else { offset as int })
}

/// Reads the offset; a taken branch reads at PC once more, and once more
/// again at the unfixed target when it crosses a page.
pub open spec fn branch(taken: bool, r: Run, log: Seq<BusOp>) -> Run {
    let (r1, offset) = read(r, log, r.st.pc);
    let pc = wrap16(r.st.pc + 1);
    let r1 = with_pc(r1, pc);
    if !taken {
        r1
    } else {
        let target = branch_target(pc, offset);
        let (r2, _) = read(r1, log, pc);
        let r3 = if page_crossed(pc, target) {
            read(r2, log, unfixed(pc, target)).0
        } else {
            r2
        };
        with_pc(r3, target)
    }
}

/// Writes `v` at the stack pointer, then decrements it.
pub open spec fn push(r: Run, log: Seq<BusOp>, v: u8) -> Run {
    let r1 = write(r, log, stack_addr(r.st.s), v);
    Run { st: CpuState { s: wrap8(r.st.s + 255), ..r1.st }, ..r1 }
}

/// Increments the stack pointer, then reads at it.
pub open spec fn pull(r: Run, log: Seq<BusOp>) -> (Run, u8) {
    let s = wrap8(r.st.s + 1);
    read(Run { st: CpuState { s, ..r.st }, ..r }, log, stack_addr(s))
}

/// The one-cycle read at PC that implied instructions make, then the read
/// at the stack pointer that pulling instructions make before they pull.
pub open spec fn pull_prologue(r: Run, log: Seq<BusOp>) -> Run {
    let (r1, _) = resolve(AddressingMode::Implicit, false, r, log);
    read(r1, log, stack_addr(r1.st.s)).0
}

/// The run of one instruction, from the state just after its opcode fetch.
#[verifier::opaque]
pub open spec fn instr_run(instr: Instr, mode: AddressingMode, r: Run, log: Seq<BusOp>) -> Run {
    if is_read_op(instr) {
        let (r1, m) = operand_value(mode, r, log);
        with_st(r1, read_op(instr, r1.st, m))
    } else if is_implied_op(instr) {
        let (r1, _) = resolve(AddressingMode::Implicit, false, r, log);
        with_st(r1, implied_op(instr, r1.st))
    } else if is_rmw_op(instr) {
        let (r1, addr) = resolve(mode, false, r, log);
        let (r2, m) = read(r1, log, addr);
        let r3 = write(r2, log, addr, m);
        let (res, _) = modify(instr, m, flag(r3.st.p, FLAG_CARRY));
        let r4 = with_st(r3, CpuState { p: modify_flags(instr, r3.st.p, m), ..r3.st });
        write(r4, log, addr, res)
    } else if is_branch_op(instr) {
        branch(branch_taken(instr, r.st.p), r, log)
    } else {
        match instr {
            Instr::Sta | Instr::Stx | Instr::Sty => {
                let (r1, addr) = resolve(mode, false, r, log);
                write(r1, log, addr, stored(instr, r1.st))
            },
            Instr::Jmp => {
                let (r1, addr) = resolve(mode, false, r, log);
                with_pc(r1, addr)
            },
            Instr::Jsr => {
                let (r1, lo) = fetch(r, log);
                let (r2, _) = read(r1, log, stack_addr(r1.st.s));
                let ret = r1.st.pc;
                let r3 = push(r2, log, (ret / 256) as u8);
                let r4 = push(r3, log, (ret % 256) as u8);
                let (r5, hi) = read(r4, log, r4.st.pc);
                with_pc(r5, word(lo, hi))
            },
            Instr::Rts => {
                let r1 = pull_prologue(r, log);
                let (r2, lo) = pull(r1, log);
                let (r3, hi) = pull(r2, log);
                let ret = word(lo, hi);
                let r4 = with_pc(r3, wrap16(ret + 1));
                read(r4, log, ret).0
            },
            Instr::Rti => {
                let r1 = pull_prologue(r, log);
                let (r2, p) = pull(r1, log);
                let (r3, lo) = pull(r2, log);
                let (r4, hi) = pull(r3, log);
                with_st(r4, CpuState { p: p & 0xCF, pc: word(lo, hi), ..r4.st })
            },
            Instr::Brk => {
                let (r1, _) = fetch(r, log);
                let ret = r1.st.pc;
                let r2 = push(r1, log, (ret / 256) as u8);
                let r3 = push(r2, log, (ret % 256) as u8);
                let r4 = push(r3, log, r3.st.p | 0x30);
                let r5 = with_st(r4, CpuState { p: with_flag(r4.st.p, FLAG_INTERRUPT_DISABLE, true), ..r4.st });
                let (r6, lo) = read(r5, log, 0xFFFE);
                let (r7, hi) = read(r6, log, 0xFFFF);
                with_pc(r7, word(lo, hi))
            },
            Instr::Pha => {
                let (r1, _) = resolve(AddressingMode::Implicit, false, r, log);
                push(r1, log, r1.st.a)
            },
            Instr::Php => {
                let (r1, _) = resolve(AddressingMode::Implicit, false, r, log);
                push(r1, log, r1.st.p | 0x30)
            },
            Instr::Pla => {
                let (r1, v) = pull(pull_prologue(r, log), log);
                with_st(r1, CpuState { a: v, p: with_zn(r1.st.p, v), ..r1.st })
            },
            _ => {
                let (r1, v) = pull(pull_prologue(r, log), log);
                with_st(r1, CpuState { p: v & 0xCF, ..r1.st })
            },
        }
    }
}

/// The run of one whole instruction starting at log position `pos`:
/// the opcode fetch, then what the opcode table says.
pub open spec fn step_run(st: CpuState, log: Seq<BusOp>, pos: int) -> Run {
    let (r1, opcode) = fetch(Run { st, pos, ok: true }, log);
    let op = op_table(opcode);
    instr_run(op.instr, op.mode, r1, log)
}

/// `after` keeps `before` as its first entries.
pub open spec fn extends(after: Seq<BusOp>, before: Seq<BusOp>) -> bool {
    &&& before.len() <= after.len()
    &&& forall|i: int| 0 <= i < before.len() ==> #[trigger] after[i] == before[i]
}

/// From `st`, the bus transactions appended to `before` to give `after` are
/// exactly those of one instruction, and it ends in `st2`.
pub open spec fn steps_to(st: CpuState, before: Seq<BusOp>, after: Seq<BusOp>, st2: CpuState) -> bool {
    &&& extends(after, before)
    &&& step_run(st, after, before.len() as int) == (Run { st: st2, pos: after.len() as int, ok: true })
}

/// Like `steps_to`, for the part of an instruction after its opcode fetch.
pub open spec fn instr_done(
    instr: Instr,
    mode: AddressingMode,
    st: CpuState,
    before: Seq<BusOp>,
    after: Seq<BusOp>,
    st2: CpuState,
) -> bool {
    &&& extends(after, before)
    &&& instr_run(instr, mode, Run { st, pos: before.len() as int, ok: true }, after) == (Run {
        st: st2,
        pos: after.len() as int,
        ok: true,
    })
}

/// The state after a reset that read `lo` and `hi` from the reset vector.
pub open spec fn reset_state(st: CpuState, lo: u8, hi: u8) -> CpuState {
    CpuState {
        a: 0,
        x: 0,
        y: 0,
        pc: word(lo, hi),
        s: 0xFD,
        p: FLAG_INTERRUPT_DISABLE,
        cycles: st.cycles + 7,
    }
}

/// From `st`, a reset read the two bytes of the reset vector, appending
/// them to `before` to give `after`, and ended in `st2`.
pub open spec fn resets_to(st: CpuState, before: Seq<BusOp>, after: Seq<BusOp>, st2: CpuState) -> bool {
    let n = before.len() as int;
    &&& after.len() == n + 2
    &&& after == before.push(BusOp::read(0xFFFC, after[n].val)).push(BusOp::read(0xFFFD, after[n + 1].val))
    &&& st2 == reset_state(st, after[n].val, after[n + 1].val)
}

/// What `resolve` finds depends only on the log entries it consumed, so it
/// stays the same when more transactions are appended.
pub proof fn lemma_resolve_extends(mode: AddressingMode, is_read: bool, r: Run, l1: Seq<BusOp>, l2: Seq<BusOp>)
    requires
        extends(l2, l1),
        resolve(mode, is_read, r, l1).0.ok,
    ensures
        resolve(mode, is_read, r, l2) == resolve(mode, is_read, r, l1),
{
}

} // verus!
