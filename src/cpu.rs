//! The CPU interpreter: reset, instruction fetch and dispatch, operand
//! resolution and the instruction handlers.
use vstd::prelude::*;
use crate::cpu_ops::{decode, lemma_jmp_modes, op_table, AddressingMode, CpuOp, Instr};
use crate::memory::{BusOp, Memory};
use crate::model;
use crate::model::{
    adc, branch, branch_target, instr_run, compare, extends, indexed, instr_done, lemma_resolve_extends,
    operand_value, page_crossed, resets_to, resolve, stack_addr, steps_to, unfixed, with_flag, with_pc,
    with_zn, wrap16, wrap8, CpuState, Run, FLAG_CARRY, FLAG_DECIMAL, FLAG_INTERRUPT_DISABLE,
    FLAG_NEGATIVE, FLAG_OVERFLOW, FLAG_ZERO,
};

verus! {

/// The most cycles a caller may have counted before a step: a step adds at
/// most eight.
pub const CYCLE_LIMIT: u64 = 0xFFFF_FFFF_FFFF_FFF0;

pub struct Cpu {
    reg_a: u8,
    reg_x: u8,
    reg_y: u8,
    reg_pc: u16,
    reg_s: u8,
    reg_p: u8,
    opmap: Vec<CpuOp>,
    cycles: u64,
}

impl View for Cpu {
    type V = CpuState;

    closed spec fn view(&self) -> CpuState {
        CpuState {
            a: self.reg_a,
            x: self.reg_x,
            y: self.reg_y,
            pc: self.reg_pc,
            s: self.reg_s,
            p: self.reg_p,
            cycles: self.cycles as int,
        }
    }
}

impl Cpu {
    /// The opcode table holds one entry for each opcode byte, as decoded.
    pub closed spec fn wf(&self) -> bool {
        &&& self.opmap@.len() == 256
        &&& forall|i: int| 0 <= i < 256 ==> #[trigger] self.opmap@[i] == op_table(i as u8)
    }

    /// A run that starts in this state at the end of `log`.
    pub open spec fn start(&self, log: Seq<BusOp>) -> Run {
        Run { st: self@, pos: log.len() as int, ok: true }
    }

    /// `after` ran `instr` in `mode` from `before`, with the log growing from
    /// `l0` to `l1`, one cycle for each transaction.
    #[verifier::opaque]
    spec fn ran(
        instr: Instr,
        mode: AddressingMode,
        before: Cpu,
        after: Cpu,
        l0: Seq<BusOp>,
        l1: Seq<BusOp>,
    ) -> bool {
        &&& after.opmap == before.opmap
        &&& instr_done(instr, mode, before@, l0, l1, after@)
        &&& after@.cycles == before@.cycles + (l1.len() - l0.len())
        &&& l1.len() <= l0.len() + 7
        &&& (instr != Instr::Jmp ==> l0.len() + 1 <= l1.len())
        &&& (mode == AddressingMode::Absolute || mode == AddressingMode::Indirect ==> l0.len() + 1 <= l1.len())
    }

    pub fn new() -> (r: Cpu)
        ensures
            r.wf(),
            r@ == (CpuState { a: 0, x: 0, y: 0, pc: 0, s: 0, p: 0, cycles: 0 }),
    {
        let mut opmap: Vec<CpuOp> = Vec::new();
        let mut i: u16 = 0;
        while i < 256
            invariant
                i <= 256,
                opmap@.len() == i,
                forall|j: int| 0 <= j < i ==> #[trigger] opmap@[j] == op_table(j as u8),
            decreases 256 - i,
        {
            opmap.push(decode(i as u8));
            i = i + 1;
        }
        Cpu { reg_a: 0, reg_x: 0, reg_y: 0, reg_pc: 0, reg_s: 0, reg_p: 0, opmap, cycles: 0 }
    }

    /// Resets the CPU: P holds only InterruptDisable, A, X and Y are 0, S is
    /// 0xFD and PC is loaded from the reset vector at 0xFFFC. The reset
    /// counts 7 cycles.
    pub fn reset<M: Memory>(&mut self, memory: &mut M)
        requires
            old(self)@.cycles <= CYCLE_LIMIT,
        ensures
            resets_to(old(self)@, old(memory).log(), final(memory).log(), final(self)@),
            old(self).wf() ==> final(self).wf(),
    {
        self.cycles = self.cycles + 7;
        self.reg_p = FLAG_INTERRUPT_DISABLE;
        self.reg_a = 0;
        self.reg_x = 0;
        self.reg_y = 0;
        self.reg_s = 0xFD;
        let pc_low = memory.cpu_load8(0xFFFC);
        let pc_high = memory.cpu_load8(0xFFFD);
        self.reg_pc = pc_high as u16 * 256 + pc_low as u16;
    }

    /// Performs a single CPU instruction and returns its opcode.
    #[verifier::rlimit(30)]
    pub fn execute_single_instruction<M: Memory>(&mut self, memory: &mut M) -> (opcode: u8)
        requires
            old(self).wf(),
            old(self)@.cycles <= CYCLE_LIMIT,
        ensures
            final(self).wf(),
            steps_to(old(self)@, old(memory).log(), final(memory).log(), final(self)@),
            opcode == final(memory).log()[old(memory).log().len() as int].val,
            final(self)@.cycles == old(self)@.cycles + (final(memory).log().len() - old(memory).log().len()),
            old(memory).log().len() + 2 <= final(memory).log().len() <= old(memory).log().len() + 8,
    {
        let opcode = self.fetch(memory);
        let op = self.opmap[opcode as usize];
        proof {
            lemma_jmp_modes(opcode);
        }
        self.dispatch(op, memory);
        proof {
            reveal(Cpu::ran);
        }
        opcode
    }

    /// The accumulator.
    pub fn a(&self) -> (r: u8)
        ensures
            r == self@.a,
    {
        self.reg_a
    }

    /// The X index register.
    pub fn x(&self) -> (r: u8)
        ensures
            r == self@.x,
    {
        self.reg_x
    }

    /// The Y index register.
    pub fn y(&self) -> (r: u8)
        ensures
            r == self@.y,
    {
        self.reg_y
    }

    /// The program counter.
    pub fn pc(&self) -> (r: u16)
        ensures
            r == self@.pc,
    {
        self.reg_pc
    }

    /// The stack pointer.
    pub fn s(&self) -> (r: u8)
        ensures
            r == self@.s,
    {
        self.reg_s
    }

    /// The status flags.
    pub fn p(&self) -> (r: u8)
        ensures
            r == self@.p,
    {
        self.reg_p
    }

    /// The cycles counted since construction.
    pub fn cycles(&self) -> (r: u64)
        ensures
            r == self@.cycles,
    {
        self.cycles
    }

    /// Runs the handler of `op`. The handlers are reached through groups of
    /// a few, which keeps each proof small.
    fn dispatch<M: Memory>(&mut self, op: CpuOp, memory: &mut M)
        requires
            old(self)@.cycles + 7 <= u64::MAX,
        ensures
            Self::ran(op.instr, op.mode, *old(self), *final(self), old(memory).log(), final(memory).log()),
    {
        if op.instr == Instr::Adc || op.instr == Instr::And || op.instr == Instr::AslA
            || op.instr == Instr::AslM || op.instr == Instr::Bcc || op.instr == Instr::Bcs
            || op.instr == Instr::Beq || op.instr == Instr::Bit {
            self.dispatch_0(op, memory);
        } else if op.instr == Instr::Bmi || op.instr == Instr::Bne || op.instr == Instr::Bpl
            || op.instr == Instr::Brk || op.instr == Instr::Bvc || op.instr == Instr::Bvs
            || op.instr == Instr::Clc || op.instr == Instr::Cld {
            self.dispatch_1(op, memory);
        } else if op.instr == Instr::Cli || op.instr == Instr::Clv || op.instr == Instr::Cmp
            || op.instr == Instr::Cpx || op.instr == Instr::Cpy || op.instr == Instr::Dec
            || op.instr == Instr::Dex || op.instr == Instr::Dey {
            self.dispatch_2(op, memory);
        } else if op.instr == Instr::Eor || op.instr == Instr::Inc || op.instr == Instr::Inx
            || op.instr == Instr::Iny || op.instr == Instr::Jmp || op.instr == Instr::Jsr
            || op.instr == Instr::Lda || op.instr == Instr::Ldx {
            self.dispatch_3(op, memory);
        } else if op.instr == Instr::Ldy || op.instr == Instr::LsrA || op.instr == Instr::LsrM
            || op.instr == Instr::Nop || op.instr == Instr::Ora || op.instr == Instr::Pha
            || op.instr == Instr::Php || op.instr == Instr::Pla {
            self.dispatch_4(op, memory);
        } else if op.instr == Instr::Plp || op.instr == Instr::RolA || op.instr == Instr::RolM
            || op.instr == Instr::RorA || op.instr == Instr::RorM || op.instr == Instr::Rti
            || op.instr == Instr::Rts || op.instr == Instr::Sbc {
            self.dispatch_5(op, memory);
        } else if op.instr == Instr::Sec || op.instr == Instr::Sed || op.instr == Instr::Sei
            || op.instr == Instr::Sta || op.instr == Instr::Stx || op.instr == Instr::Sty
            || op.instr == Instr::Tax || op.instr == Instr::Tay {
            self.dispatch_6(op, memory);
        } else {
            self.dispatch_7(op, memory);
        }
    }

    #[verifier::rlimit(30)]
    fn dispatch_0<M: Memory>(&mut self, op: CpuOp, memory: &mut M)
        requires
            old(self)@.cycles + 7 <= u64::MAX,
            op.instr == Instr::Adc || op.instr == Instr::And || op.instr == Instr::AslA
                || op.instr == Instr::AslM || op.instr == Instr::Bcc || op.instr == Instr::Bcs
                || op.instr == Instr::Beq || op.instr == Instr::Bit,
        ensures
            Self::ran(op.instr, op.mode, *old(self), *final(self), old(memory).log(), final(memory).log()),
    {
        match op.instr {
            Instr::Adc => self.op_adc(op.mode, memory),
            Instr::And => self.op_and(op.mode, memory),
            Instr::AslA => self.op_asl_a(op.mode, memory),
            Instr::AslM => self.op_asl_m(op.mode, memory),
            Instr::Bcc => self.op_bcc(op.mode, memory),
            Instr::Bcs => self.op_bcs(op.mode, memory),
            Instr::Beq => self.op_beq(op.mode, memory),
            _ => self.op_bit(op.mode, memory),
        }
    }

    #[verifier::rlimit(30)]
    fn dispatch_1<M: Memory>(&mut self, op: CpuOp, memory: &mut M)
        requires
            old(self)@.cycles + 7 <= u64::MAX,
            op.instr == Instr::Bmi || op.instr == Instr::Bne || op.instr == Instr::Bpl
                || op.instr == Instr::Brk || op.instr == Instr::Bvc || op.instr == Instr::Bvs
                || op.instr == Instr::Clc || op.instr == Instr::Cld,
        ensures
            Self::ran(op.instr, op.mode, *old(self), *final(self), old(memory).log(), final(memory).log()),
    {
        match op.instr {
            Instr::Bmi => self.op_bmi(op.mode, memory),
            Instr::Bne => self.op_bne(op.mode, memory),
            Instr::Bpl => self.op_bpl(op.mode, memory),
            Instr::Brk => self.op_brk(op.mode, memory),
            Instr::Bvc => self.op_bvc(op.mode, memory),
            Instr::Bvs => self.op_bvs(op.mode, memory),
            Instr::Clc => self.op_clc(op.mode, memory),
            _ => self.op_cld(op.mode, memory),
        }
    }

    #[verifier::rlimit(30)]
    fn dispatch_2<M: Memory>(&mut self, op: CpuOp, memory: &mut M)
        requires
            old(self)@.cycles + 7 <= u64::MAX,
            op.instr == Instr::Cli || op.instr == Instr::Clv || op.instr == Instr::Cmp
                || op.instr == Instr::Cpx || op.instr == Instr::Cpy || op.instr == Instr::Dec
                || op.instr == Instr::Dex || op.instr == Instr::Dey,
        ensures
            Self::ran(op.instr, op.mode, *old(self), *final(self), old(memory).log(), final(memory).log()),
    {
        match op.instr {
            Instr::Cli => self.op_cli(op.mode, memory),
            Instr::Clv => self.op_clv(op.mode, memory),
            Instr::Cmp => self.op_cmp(op.mode, memory),
            Instr::Cpx => self.op_cpx(op.mode, memory),
            Instr::Cpy => self.op_cpy(op.mode, memory),
            Instr::Dec => self.op_dec(op.mode, memory),
            Instr::Dex => self.op_dex(op.mode, memory),
            _ => self.op_dey(op.mode, memory),
        }
    }

    #[verifier::rlimit(30)]
    fn dispatch_3<M: Memory>(&mut self, op: CpuOp, memory: &mut M)
        requires
            old(self)@.cycles + 7 <= u64::MAX,
            op.instr == Instr::Eor || op.instr == Instr::Inc || op.instr == Instr::Inx
                || op.instr == Instr::Iny || op.instr == Instr::Jmp || op.instr == Instr::Jsr
                || op.instr == Instr::Lda || op.instr == Instr::Ldx,
        ensures
            Self::ran(op.instr, op.mode, *old(self), *final(self), old(memory).log(), final(memory).log()),
    {
        match op.instr {
            Instr::Eor => self.op_eor(op.mode, memory),
            Instr::Inc => self.op_inc(op.mode, memory),
            Instr::Inx => self.op_inx(op.mode, memory),
            Instr::Iny => self.op_iny(op.mode, memory),
            Instr::Jmp => self.op_jmp(op.mode, memory),
            Instr::Jsr => self.op_jsr(op.mode, memory),
            Instr::Lda => self.op_lda(op.mode, memory),
            _ => self.op_ldx(op.mode, memory),
        }
    }

    #[verifier::rlimit(30)]
    fn dispatch_4<M: Memory>(&mut self, op: CpuOp, memory: &mut M)
        requires
            old(self)@.cycles + 7 <= u64::MAX,
            op.instr == Instr::Ldy || op.instr == Instr::LsrA || op.instr == Instr::LsrM
                || op.instr == Instr::Nop || op.instr == Instr::Ora || op.instr == Instr::Pha
                || op.instr == Instr::Php || op.instr == Instr::Pla,
        ensures
            Self::ran(op.instr, op.mode, *old(self), *final(self), old(memory).log(), final(memory).log()),
    {
        match op.instr {
            Instr::Ldy => self.op_ldy(op.mode, memory),
            Instr::LsrA => self.op_lsr_a(op.mode, memory),
            Instr::LsrM => self.op_lsr_m(op.mode, memory),
            Instr::Nop => self.op_nop(op.mode, memory),
            Instr::Ora => self.op_ora(op.mode, memory),
            Instr::Pha => self.op_pha(op.mode, memory),
            Instr::Php => self.op_php(op.mode, memory),
            _ => self.op_pla(op.mode, memory),
        }
    }

    #[verifier::rlimit(30)]
    fn dispatch_5<M: Memory>(&mut self, op: CpuOp, memory: &mut M)
        requires
            old(self)@.cycles + 7 <= u64::MAX,
            op.instr == Instr::Plp || op.instr == Instr::RolA || op.instr == Instr::RolM
                || op.instr == Instr::RorA || op.instr == Instr::RorM || op.instr == Instr::Rti
                || op.instr == Instr::Rts || op.instr == Instr::Sbc,
        ensures
            Self::ran(op.instr, op.mode, *old(self), *final(self), old(memory).log(), final(memory).log()),
    {
        match op.instr {
            Instr::Plp => self.op_plp(op.mode, memory),
            Instr::RolA => self.op_rol_a(op.mode, memory),
            Instr::RolM => self.op_rol_m(op.mode, memory),
            Instr::RorA => self.op_ror_a(op.mode, memory),
            Instr::RorM => self.op_ror_m(op.mode, memory),
            Instr::Rti => self.op_rti(op.mode, memory),
            Instr::Rts => self.op_rts(op.mode, memory),
            _ => self.op_sbc(op.mode, memory),
        }
    }

    #[verifier::rlimit(30)]
    fn dispatch_6<M: Memory>(&mut self, op: CpuOp, memory: &mut M)
        requires
            old(self)@.cycles + 7 <= u64::MAX,
            op.instr == Instr::Sec || op.instr == Instr::Sed || op.instr == Instr::Sei
                || op.instr == Instr::Sta || op.instr == Instr::Stx || op.instr == Instr::Sty
                || op.instr == Instr::Tax || op.instr == Instr::Tay,
        ensures
            Self::ran(op.instr, op.mode, *old(self), *final(self), old(memory).log(), final(memory).log()),
    {
        match op.instr {
            Instr::Sec => self.op_sec(op.mode, memory),
            Instr::Sed => self.op_sed(op.mode, memory),
            Instr::Sei => self.op_sei(op.mode, memory),
            Instr::Sta => self.op_sta(op.mode, memory),
            Instr::Stx => self.op_stx(op.mode, memory),
            Instr::Sty => self.op_sty(op.mode, memory),
            Instr::Tax => self.op_tax(op.mode, memory),
            _ => self.op_tay(op.mode, memory),
        }
    }

    #[verifier::rlimit(30)]
    fn dispatch_7<M: Memory>(&mut self, op: CpuOp, memory: &mut M)
        requires
            old(self)@.cycles + 7 <= u64::MAX,
            op.instr == Instr::Tsx || op.instr == Instr::Txa || op.instr == Instr::Txs
                || op.instr == Instr::Tya || op.instr == Instr::Invalid,
        ensures
            Self::ran(op.instr, op.mode, *old(self), *final(self), old(memory).log(), final(memory).log()),
    {
        match op.instr {
            Instr::Tsx => self.op_tsx(op.mode, memory),
            Instr::Txa => self.op_txa(op.mode, memory),
            Instr::Txs => self.op_txs(op.mode, memory),
            Instr::Tya => self.op_tya(op.mode, memory),
            _ => self.op_invalid(op.mode, memory),
        }
    }

    /// Reads a byte from the bus: one cycle.
    fn load<M: Memory>(&mut self, memory: &mut M, addr: u16) -> (r: u8)
        requires
            old(self).cycles < u64::MAX,
        ensures
            final(memory).log() == old(memory).log().push(BusOp::read(addr, r)),
            final(self)@ == (CpuState { cycles: old(self)@.cycles + 1, ..old(self)@ }),
            final(self).opmap == old(self).opmap,
    {
        let r = memory.cpu_load8(addr);
        self.cycles = self.cycles + 1;
        r
    }

    /// Writes a byte to the bus: one cycle.
    fn store<M: Memory>(&mut self, memory: &mut M, addr: u16, val: u8)
        requires
            old(self).cycles < u64::MAX,
        ensures
            final(memory).log() == old(memory).log().push(BusOp::store(addr, val)),
            final(self)@ == (CpuState { cycles: old(self)@.cycles + 1, ..old(self)@ }),
            final(self).opmap == old(self).opmap,
    {
        memory.cpu_store8(addr, val);
        self.cycles = self.cycles + 1;
    }

    /// Reads the byte at PC and advances PC.
    fn fetch<M: Memory>(&mut self, memory: &mut M) -> (r: u8)
        requires
            old(self).cycles < u64::MAX,
        ensures
            final(memory).log() == old(memory).log().push(BusOp::read(old(self)@.pc, r)),
            final(self)@ == (CpuState {
                pc: wrap16(old(self)@.pc + 1),
                cycles: old(self)@.cycles + 1,
                ..old(self)@
            }),
            final(self).opmap == old(self).opmap,
    {
        let r = self.load(memory, self.reg_pc);
        self.reg_pc = ((self.reg_pc as u32 + 1) % 0x10000) as u16;
        r
    }

    /// `base + index`, with the read of the unfixed address that writing
    /// instructions always make and reading ones make on a page cross.
    fn index_addr<M: Memory>(&mut self, memory: &mut M, base: u16, index: u8, is_read: bool) -> (r: u16)
        requires
            old(self).cycles < u64::MAX,
        ensures
            ({
                let (run, addr) = indexed(is_read, old(self).start(old(memory).log()), final(memory).log(), base, index);
                run == final(self).start(final(memory).log()) && addr == r
            }),
            extends(final(memory).log(), old(memory).log()),
            final(self)@.cycles == old(self)@.cycles + (final(memory).log().len() - old(memory).log().len()),
            final(memory).log().len() <= old(memory).log().len() + 1,
            final(self).opmap == old(self).opmap,
    {
        let real_addr = ((base as u32 + index as u32) % 0x10000) as u16;
        if !is_read || base / 256 != real_addr / 256 {
            self.load(memory, base / 256 * 256 + real_addr % 256);
        }
        real_addr
    }

    /// Resolves the operand address of `addr_mode`, making the transactions
    /// the hardware makes to find it. Implied modes give 0.
    #[verifier::rlimit(30)]
    fn get_operand_addr<M: Memory>(&mut self, addr_mode: AddressingMode, memory: &mut M, is_read: bool) -> (r: u16)
        requires
            old(self).cycles + 4 <= u64::MAX,
        ensures
            resolve(addr_mode, is_read, old(self).start(old(memory).log()), final(memory).log())
                == (final(self).start(final(memory).log()), r),
            extends(final(memory).log(), old(memory).log()),
            final(self)@.cycles == old(self)@.cycles + (final(memory).log().len() - old(memory).log().len()),
            final(memory).log().len() <= old(memory).log().len() + 4,
            addr_mode != AddressingMode::Immediate && addr_mode != AddressingMode::Relative
                ==> old(memory).log().len() + 1 <= final(memory).log().len(),
            final(self).opmap == old(self).opmap,
    {
        match addr_mode {
            AddressingMode::Implicit => {
                self.load(memory, self.reg_pc);
                0
            },
            AddressingMode::ZeroPage => {
                let zp = self.fetch(memory);
                zp as u16
            },
            AddressingMode::ZeroPageX => {
                let zp = self.fetch(memory);
                self.load(memory, zp as u16);
                ((zp as u16 + self.reg_x as u16) % 256) as u16
            },
            AddressingMode::ZeroPageY => {
                let zp = self.fetch(memory);
                self.load(memory, zp as u16);
                ((zp as u16 + self.reg_y as u16) % 256) as u16
            },
            AddressingMode::Absolute => {
                let lo = self.fetch(memory);
                let hi = self.fetch(memory);
                hi as u16 * 256 + lo as u16
            },
            AddressingMode::AbsoluteX => {
                let lo = self.fetch(memory);
                let hi = self.fetch(memory);
                let index = self.reg_x;
                self.index_addr(memory, hi as u16 * 256 + lo as u16, index, is_read)
            },
            AddressingMode::AbsoluteY => {
                let lo = self.fetch(memory);
                let hi = self.fetch(memory);
                let index = self.reg_y;
                self.index_addr(memory, hi as u16 * 256 + lo as u16, index, is_read)
            },
            AddressingMode::Immediate | AddressingMode::Relative => {
                // the handler reads the operand itself
                let addr = self.reg_pc;
                self.reg_pc = ((self.reg_pc as u32 + 1) % 0x10000) as u16;
                addr
            },
            AddressingMode::Indirect => {
                let lo = self.fetch(memory);
                let hi = self.fetch(memory);
                // the pointer's high byte is read from the same page as its low byte
                let addr_lo = self.load(memory, hi as u16 * 256 + lo as u16);
                let next = ((lo as u16 + 1) % 256) as u16;
                let addr_hi = self.load(memory, hi as u16 * 256 + next);
                addr_hi as u16 * 256 + addr_lo as u16
            },
            AddressingMode::IndexedIndirect => {
                let zp = self.fetch(memory);
                self.load(memory, zp as u16);
                let ptr = ((zp as u16 + self.reg_x as u16) % 256) as u16;
                let addr_lo = self.load(memory, ptr);
                let addr_hi = self.load(memory, (ptr + 1) % 256);
                addr_hi as u16 * 256 + addr_lo as u16
            },
            AddressingMode::IndirectIndexed => {
                let zp = self.fetch(memory);
                let lo = self.load(memory, zp as u16);
                let hi = self.load(memory, (zp as u16 + 1) % 256);
                let index = self.reg_y;
                self.index_addr(memory, hi as u16 * 256 + lo as u16, index, is_read)
            },
        }
    }
}

impl Cpu {
    /// Sets the flag `flag` of P to `value`.
    fn set_flag(&mut self, flag: u8, value: bool)
        ensures
            final(self)@ == (CpuState { p: with_flag(old(self)@.p, flag, value), ..old(self)@ }),
            final(self).opmap == old(self).opmap,
    {
        if value {
            self.reg_p = self.reg_p | flag;
        } else {
            self.reg_p = self.reg_p & !flag;
        }
    }

    /// Gets the flag `flag` of P.
    fn get_flag(&self, flag: u8) -> (r: bool)
        ensures
            r == model::flag(self@.p, flag),
    {
        (self.reg_p & flag) != 0
    }

    /// Sets Z and N from the result byte `res`.
    fn set_zn(&mut self, res: u8)
        ensures
            final(self)@ == (CpuState { p: with_zn(old(self)@.p, res), ..old(self)@ }),
            final(self).opmap == old(self).opmap,
    {
        self.set_flag(FLAG_ZERO, res == 0);
        self.set_flag(FLAG_NEGATIVE, res >= 0x80);
    }

    /// Resolves the operand of a reading instruction and reads it.
    fn read_operand<M: Memory>(&mut self, addr_mode: AddressingMode, memory: &mut M) -> (r: u8)
        requires
            old(self)@.cycles + 5 <= u64::MAX,
        ensures
            operand_value(addr_mode, old(self).start(old(memory).log()), final(memory).log())
                == (final(self).start(final(memory).log()), r),
            extends(final(memory).log(), old(memory).log()),
            final(self)@.cycles == old(self)@.cycles + (final(memory).log().len() - old(memory).log().len()),
            old(memory).log().len() + 1 <= final(memory).log().len() <= old(memory).log().len() + 5,
            final(self).opmap == old(self).opmap,
    {
        let ghost start = self.start(memory.log());
        let op_addr = self.get_operand_addr(addr_mode, memory, true);
        let ghost mid = memory.log();
        let op = self.load(memory, op_addr);
        proof {
            lemma_resolve_extends(addr_mode, true, start, mid, memory.log());
        }
        op
    }

    /// `A + op + C`, as ADC computes it.
    fn add_with_carry(&mut self, op: u8)
        ensures
            final(self)@ == adc(old(self)@, op),
            final(self).opmap == old(self).opmap,
    {
        let carry_in: u16 = if self.get_flag(FLAG_CARRY) { 1 } else { 0 };
        let res: u16 = op as u16 + self.reg_a as u16 + carry_in;
        let res8 = (res % 256) as u8;
        let overflow = (!(self.reg_a ^ op)) & (self.reg_a ^ res8) & 0x80;
        self.set_flag(FLAG_CARRY, res >= 256);
        self.set_zn(res8);
        self.set_flag(FLAG_OVERFLOW, overflow != 0);
        self.reg_a = res8;
    }

    /// Sets C, Z and N from `reg - op`.
    fn compare_with(&mut self, reg: u8, op: u8)
        ensures
            final(self)@ == (CpuState { p: compare(old(self)@.p, reg, op), ..old(self)@ }),
            final(self).opmap == old(self).opmap,
    {
        self.set_flag(FLAG_CARRY, reg >= op);
        self.set_flag(FLAG_ZERO, reg == op);
        let tmp = ((reg as u16 + 256 - op as u16) % 256) as u8;
        self.set_flag(FLAG_NEGATIVE, tmp >= 0x80);
    }

    /// Pushes a byte: writes it at the stack pointer, then decrements it.
    /// The stack pointer wraps within page 1.
    fn push<M: Memory>(&mut self, val: u8, memory: &mut M)
        requires
            old(self)@.cycles < u64::MAX,
        ensures
            final(memory).log() == old(memory).log().push(BusOp::store(stack_addr(old(self)@.s), val)),
            final(self)@ == (CpuState { s: wrap8(old(self)@.s + 255), cycles: old(self)@.cycles + 1, ..old(self)@ }),
            final(self).opmap == old(self).opmap,
    {
        let addr = 0x0100 + self.reg_s as u16;
        self.store(memory, addr, val);
        self.reg_s = ((self.reg_s as u16 + 255) % 256) as u8;
    }

    /// Pulls a byte: increments the stack pointer, then reads at it.
    fn pull<M: Memory>(&mut self, memory: &mut M) -> (r: u8)
        requires
            old(self)@.cycles < u64::MAX,
        ensures
            final(memory).log() == old(memory).log().push(BusOp::read(stack_addr(wrap8(old(self)@.s + 1)), r)),
            final(self)@ == (CpuState { s: wrap8(old(self)@.s + 1), cycles: old(self)@.cycles + 1, ..old(self)@ }),
            final(self).opmap == old(self).opmap,
    {
        self.reg_s = ((self.reg_s as u16 + 1) % 256) as u8;
        let addr = 0x0100 + self.reg_s as u16;
        self.load(memory, addr)
    }

    /// The read at the stack pointer that pulling instructions make before
    /// they pull.
    fn stack_dummy_read<M: Memory>(&mut self, memory: &mut M)
        requires
            old(self)@.cycles < u64::MAX,
        ensures
            final(memory).log() == old(memory).log().push(BusOp::read(stack_addr(old(self)@.s), final(memory).log().last().val)),
            final(self)@ == (CpuState { cycles: old(self)@.cycles + 1, ..old(self)@ }),
            final(self).opmap == old(self).opmap,
    {
        let addr = 0x0100 + self.reg_s as u16;
        self.load(memory, addr);
    }

    /// A taken branch by the signed offset `op`: one more read at PC, and a
    /// read at the unfixed target when the branch crosses a page.
    fn relative_branch<M: Memory>(&mut self, op: u8, memory: &mut M)
        requires
            old(self)@.cycles + 2 <= u64::MAX,
        ensures
            ({
                let pc = old(self)@.pc;
                let target = branch_target(pc, op);
                let (r1, _) = model::read(old(self).start(old(memory).log()), final(memory).log(), pc);
                let r2 = if page_crossed(pc, target) {
                    model::read(r1, final(memory).log(), unfixed(pc, target)).0
                } else {
                    r1
                };
                with_pc(r2, target) == final(self).start(final(memory).log())
            }),
            extends(final(memory).log(), old(memory).log()),
            final(self)@.cycles == old(self)@.cycles + (final(memory).log().len() - old(memory).log().len()),
            final(memory).log().len() <= old(memory).log().len() + 2,
            final(self).opmap == old(self).opmap,
    {
        self.load(memory, self.reg_pc);
        let pc = self.reg_pc;
        let new_pc: u16 = if op >= 0x80 {
            ((pc as u32 + 0x10000 + op as u32 - 256) % 0x10000) as u16
        } else {
            ((pc as u32 + 0x10000 + op as u32) % 0x10000) as u16
        };
        if pc / 256 != new_pc / 256 {
            self.load(memory, pc / 256 * 256 + new_pc % 256);
        }
        self.reg_pc = new_pc;
    }

    /// Reads the branch offset and branches when `taken`.
    fn branch_if<M: Memory>(&mut self, taken: bool, memory: &mut M)
        requires
            old(self)@.cycles + 4 <= u64::MAX,
        ensures
            branch(taken, old(self).start(old(memory).log()), final(memory).log()) == final(self).start(final(memory).log()),
            extends(final(memory).log(), old(memory).log()),
            final(self)@.cycles == old(self)@.cycles + (final(memory).log().len() - old(memory).log().len()),
            old(memory).log().len() + 1 <= final(memory).log().len() <= old(memory).log().len() + 3,
            final(self).opmap == old(self).opmap,
    {
        let op_addr = self.get_operand_addr(AddressingMode::Relative, memory, false);
        let op = self.load(memory, op_addr);
        if taken {
            self.relative_branch(op, memory);
        }
    }

    fn op_adc<M: Memory>(&mut self, addr_mode: AddressingMode, memory: &mut M)
        requires
            old(self)@.cycles + 7 <= u64::MAX,
        ensures
            Self::ran(Instr::Adc, addr_mode, *old(self), *final(self), old(memory).log(), final(memory).log()),
    {
        proof {
            reveal(instr_run);
            reveal(Cpu::ran);
        }
        let op = self.read_operand(addr_mode, memory);
        self.add_with_carry(op);
    }

    fn op_sbc<M: Memory>(&mut self, addr_mode: AddressingMode, memory: &mut M)
        requires
            old(self)@.cycles + 7 <= u64::MAX,
        ensures
            Self::ran(Instr::Sbc, addr_mode, *old(self), *final(self), old(memory).log(), final(memory).log()),
    {
        proof {
            reveal(instr_run);
            reveal(Cpu::ran);
        }
        let op = self.read_operand(addr_mode, memory);
        self.add_with_carry(!op);
    }

    fn op_and<M: Memory>(&mut self, addr_mode: AddressingMode, memory: &mut M)
        requires
            old(self)@.cycles + 7 <= u64::MAX,
        ensures
            Self::ran(Instr::And, addr_mode, *old(self), *final(self), old(memory).log(), final(memory).log()),
    {
        proof {
            reveal(instr_run);
            reveal(Cpu::ran);
        }
        let op = self.read_operand(addr_mode, memory);
        let res = self.reg_a & op;
        self.set_zn(res);
        self.reg_a = res;
    }

    fn op_eor<M: Memory>(&mut self, addr_mode: AddressingMode, memory: &mut M)
        requires
            old(self)@.cycles + 7 <= u64::MAX,
        ensures
            Self::ran(Instr::Eor, addr_mode, *old(self), *final(self), old(memory).log(), final(memory).log()),
    {
        proof {
            reveal(instr_run);
            reveal(Cpu::ran);
        }
        let op = self.read_operand(addr_mode, memory);
        let res = self.reg_a ^ op;
        self.set_zn(res);
        self.reg_a = res;
    }

    fn op_ora<M: Memory>(&mut self, addr_mode: AddressingMode, memory: &mut M)
        requires
            old(self)@.cycles + 7 <= u64::MAX,
        ensures
            Self::ran(Instr::Ora, addr_mode, *old(self), *final(self), old(memory).log(), final(memory).log()),
    {
        proof {
            reveal(instr_run);
            reveal(Cpu::ran);
        }
        let op = self.read_operand(addr_mode, memory);
        let res = self.reg_a | op;
        self.set_zn(res);
        self.reg_a = res;
    }

    fn op_bit<M: Memory>(&mut self, addr_mode: AddressingMode, memory: &mut M)
        requires
            old(self)@.cycles + 7 <= u64::MAX,
        ensures
            Self::ran(Instr::Bit, addr_mode, *old(self), *final(self), old(memory).log(), final(memory).log()),
    {
        proof {
            reveal(instr_run);
            reveal(Cpu::ran);
        }
        let op = self.read_operand(addr_mode, memory);
        let res = self.reg_a & op;
        self.set_flag(FLAG_ZERO, res == 0);
        self.set_flag(FLAG_OVERFLOW, (op & 0x40) != 0);
        self.set_flag(FLAG_NEGATIVE, op >= 0x80);
    }

    fn op_cmp<M: Memory>(&mut self, addr_mode: AddressingMode, memory: &mut M)
        requires
            old(self)@.cycles + 7 <= u64::MAX,
        ensures
            Self::ran(Instr::Cmp, addr_mode, *old(self), *final(self), old(memory).log(), final(memory).log()),
    {
        proof {
            reveal(instr_run);
            reveal(Cpu::ran);
        }
        let op = self.read_operand(addr_mode, memory);
        let reg = self.reg_a;
        self.compare_with(reg, op);
    }

    fn op_cpx<M: Memory>(&mut self, addr_mode: AddressingMode, memory: &mut M)
        requires
            old(self)@.cycles + 7 <= u64::MAX,
        ensures
            Self::ran(Instr::Cpx, addr_mode, *old(self), *final(self), old(memory).log(), final(memory).log()),
    {
        proof {
            reveal(instr_run);
            reveal(Cpu::ran);
        }
        let op = self.read_operand(addr_mode, memory);
        let reg = self.reg_x;
        self.compare_with(reg, op);
    }

    fn op_cpy<M: Memory>(&mut self, addr_mode: AddressingMode, memory: &mut M)
        requires
            old(self)@.cycles + 7 <= u64::MAX,
        ensures
            Self::ran(Instr::Cpy, addr_mode, *old(self), *final(self), old(memory).log(), final(memory).log()),
    {
        proof {
            reveal(instr_run);
            reveal(Cpu::ran);
        }
        let op = self.read_operand(addr_mode, memory);
        let reg = self.reg_y;
        self.compare_with(reg, op);
    }

    fn op_lda<M: Memory>(&mut self, addr_mode: AddressingMode, memory: &mut M)
        requires
            old(self)@.cycles + 7 <= u64::MAX,
        ensures
            Self::ran(Instr::Lda, addr_mode, *old(self), *final(self), old(memory).log(), final(memory).log()),
    {
        proof {
            reveal(instr_run);
            reveal(Cpu::ran);
        }
        let op = self.read_operand(addr_mode, memory);
        self.reg_a = op;
        self.set_zn(op);
    }

    fn op_ldx<M: Memory>(&mut self, addr_mode: AddressingMode, memory: &mut M)
        requires
            old(self)@.cycles + 7 <= u64::MAX,
        ensures
            Self::ran(Instr::Ldx, addr_mode, *old(self), *final(self), old(memory).log(), final(memory).log()),
    {
        proof {
            reveal(instr_run);
            reveal(Cpu::ran);
        }
        let op = self.read_operand(addr_mode, memory);
        self.reg_x = op;
        self.set_zn(op);
    }

    fn op_ldy<M: Memory>(&mut self, addr_mode: AddressingMode, memory: &mut M)
        requires
            old(self)@.cycles + 7 <= u64::MAX,
        ensures
            Self::ran(Instr::Ldy, addr_mode, *old(self), *final(self), old(memory).log(), final(memory).log()),
    {
        proof {
            reveal(instr_run);
            reveal(Cpu::ran);
        }
        let op = self.read_operand(addr_mode, memory);
        self.reg_y = op;
        self.set_zn(op);
    }

    fn op_asl_a<M: Memory>(&mut self, addr_mode: AddressingMode, memory: &mut M)
        requires
            old(self)@.cycles + 7 <= u64::MAX,
        ensures
            Self::ran(Instr::AslA, addr_mode, *old(self), *final(self), old(memory).log(), final(memory).log()),
    {
        proof {
            reveal(instr_run);
            reveal(Cpu::ran);
        }
        self.get_operand_addr(AddressingMode::Implicit, memory, false);
        let res = ((self.reg_a as u16 * 2) % 256) as u8;
        self.set_flag(FLAG_CARRY, self.reg_a >= 0x80);
        self.set_zn(res);
        self.reg_a = res;
    }

    fn op_lsr_a<M: Memory>(&mut self, addr_mode: AddressingMode, memory: &mut M)
        requires
            old(self)@.cycles + 7 <= u64::MAX,
        ensures
            Self::ran(Instr::LsrA, addr_mode, *old(self), *final(self), old(memory).log(), final(memory).log()),
    {
        proof {
            reveal(instr_run);
            reveal(Cpu::ran);
        }
        self.get_operand_addr(AddressingMode::Implicit, memory, false);
        let res = self.reg_a / 2;
        self.set_flag(FLAG_CARRY, self.reg_a % 2 == 1);
        self.set_zn(res);
        self.reg_a = res;
    }

    fn op_rol_a<M: Memory>(&mut self, addr_mode: AddressingMode, memory: &mut M)
        requires
            old(self)@.cycles + 7 <= u64::MAX,
        ensures
            Self::ran(Instr::RolA, addr_mode, *old(self), *final(self), old(memory).log(), final(memory).log()),
    {
        proof {
            reveal(instr_run);
            reveal(Cpu::ran);
        }
        self.get_operand_addr(AddressingMode::Implicit, memory, false);
        let carry_in: u16 = if self.get_flag(FLAG_CARRY) { 1 } else { 0 };
        let res = ((self.reg_a as u16 * 2 + carry_in) % 256) as u8;
        self.set_flag(FLAG_CARRY, self.reg_a >= 0x80);
        self.set_zn(res);
        self.reg_a = res;
    }

    fn op_ror_a<M: Memory>(&mut self, addr_mode: AddressingMode, memory: &mut M)
        requires
            old(self)@.cycles + 7 <= u64::MAX,
        ensures
            Self::ran(Instr::RorA, addr_mode, *old(self), *final(self), old(memory).log(), final(memory).log()),
    {
        proof {
            reveal(instr_run);
            reveal(Cpu::ran);
        }
        self.get_operand_addr(AddressingMode::Implicit, memory, false);
        let carry_in: u8 = if self.get_flag(FLAG_CARRY) { 0x80 } else { 0 };
        let res = self.reg_a / 2 + carry_in;
        self.set_flag(FLAG_CARRY, self.reg_a % 2 == 1);
        self.set_zn(res);
        self.reg_a = res;
    }

    fn op_tax<M: Memory>(&mut self, addr_mode: AddressingMode, memory: &mut M)
        requires
            old(self)@.cycles + 7 <= u64::MAX,
        ensures
            Self::ran(Instr::Tax, addr_mode, *old(self), *final(self), old(memory).log(), final(memory).log()),
    {
        proof {
            reveal(instr_run);
            reveal(Cpu::ran);
        }
        self.get_operand_addr(AddressingMode::Implicit, memory, false);
        self.reg_x = self.reg_a;
        self.set_zn(self.reg_x);
    }

    fn op_tay<M: Memory>(&mut self, addr_mode: AddressingMode, memory: &mut M)
        requires
            old(self)@.cycles + 7 <= u64::MAX,
        ensures
            Self::ran(Instr::Tay, addr_mode, *old(self), *final(self), old(memory).log(), final(memory).log()),
    {
        proof {
            reveal(instr_run);
            reveal(Cpu::ran);
        }
        self.get_operand_addr(AddressingMode::Implicit, memory, false);
        self.reg_y = self.reg_a;
        self.set_zn(self.reg_y);
    }

    fn op_tsx<M: Memory>(&mut self, addr_mode: AddressingMode, memory: &mut M)
        requires
            old(self)@.cycles + 7 <= u64::MAX,
        ensures
            Self::ran(Instr::Tsx, addr_mode, *old(self), *final(self), old(memory).log(), final(memory).log()),
    {
        proof {
            reveal(instr_run);
            reveal(Cpu::ran);
        }
        self.get_operand_addr(AddressingMode::Implicit, memory, false);
        self.reg_x = self.reg_s;
        self.set_zn(self.reg_x);
    }

    fn op_txa<M: Memory>(&mut self, addr_mode: AddressingMode, memory: &mut M)
        requires
            old(self)@.cycles + 7 <= u64::MAX,
        ensures
            Self::ran(Instr::Txa, addr_mode, *old(self), *final(self), old(memory).log(), final(memory).log()),
    {
        proof {
            reveal(instr_run);
            reveal(Cpu::ran);
        }
        self.get_operand_addr(AddressingMode::Implicit, memory, false);
        self.reg_a = self.reg_x;
        self.set_zn(self.reg_a);
    }

    fn op_tya<M: Memory>(&mut self, addr_mode: AddressingMode, memory: &mut M)
        requires
            old(self)@.cycles + 7 <= u64::MAX,
        ensures
            Self::ran(Instr::Tya, addr_mode, *old(self), *final(self), old(memory).log(), final(memory).log()),
    {
        proof {
            reveal(instr_run);
            reveal(Cpu::ran);
        }
        self.get_operand_addr(AddressingMode::Implicit, memory, false);
        self.reg_a = self.reg_y;
        self.set_zn(self.reg_a);
    }

    fn op_txs<M: Memory>(&mut self, addr_mode: AddressingMode, memory: &mut M)
        requires
            old(self)@.cycles + 7 <= u64::MAX,
        ensures
            Self::ran(Instr::Txs, addr_mode, *old(self), *final(self), old(memory).log(), final(memory).log()),
    {
        proof {
            reveal(instr_run);
            reveal(Cpu::ran);
        }
        self.get_operand_addr(AddressingMode::Implicit, memory, false);
        self.reg_s = self.reg_x;
    }

    fn op_inx<M: Memory>(&mut self, addr_mode: AddressingMode, memory: &mut M)
        requires
            old(self)@.cycles + 7 <= u64::MAX,
        ensures
            Self::ran(Instr::Inx, addr_mode, *old(self), *final(self), old(memory).log(), final(memory).log()),
    {
        proof {
            reveal(instr_run);
            reveal(Cpu::ran);
        }
        self.get_operand_addr(AddressingMode::Implicit, memory, false);
        self.reg_x = ((self.reg_x as u16 + 1) % 256) as u8;
        self.set_zn(self.reg_x);
    }

    fn op_iny<M: Memory>(&mut self, addr_mode: AddressingMode, memory: &mut M)
        requires
            old(self)@.cycles + 7 <= u64::MAX,
        ensures
            Self::ran(Instr::Iny, addr_mode, *old(self), *final(self), old(memory).log(), final(memory).log()),
    {
        proof {
            reveal(instr_run);
            reveal(Cpu::ran);
        }
        self.get_operand_addr(AddressingMode::Implicit, memory, false);
        self.reg_y = ((self.reg_y as u16 + 1) % 256) as u8;
        self.set_zn(self.reg_y);
    }

    fn op_dex<M: Memory>(&mut self, addr_mode: AddressingMode, memory: &mut M)
        requires
            old(self)@.cycles + 7 <= u64::MAX,
        ensures
            Self::ran(Instr::Dex, addr_mode, *old(self), *final(self), old(memory).log(), final(memory).log()),
    {
        proof {
            reveal(instr_run);
            reveal(Cpu::ran);
        }
        self.get_operand_addr(AddressingMode::Implicit, memory, false);
        self.reg_x = ((self.reg_x as u16 + 255) % 256) as u8;
        self.set_zn(self.reg_x);
    }

    fn op_dey<M: Memory>(&mut self, addr_mode: AddressingMode, memory: &mut M)
        requires
            old(self)@.cycles + 7 <= u64::MAX,
        ensures
            Self::ran(Instr::Dey, addr_mode, *old(self), *final(self), old(memory).log(), final(memory).log()),
    {
        proof {
            reveal(instr_run);
            reveal(Cpu::ran);
        }
        self.get_operand_addr(AddressingMode::Implicit, memory, false);
        self.reg_y = ((self.reg_y as u16 + 255) % 256) as u8;
        self.set_zn(self.reg_y);
    }

    fn op_clc<M: Memory>(&mut self, addr_mode: AddressingMode, memory: &mut M)
        requires
            old(self)@.cycles + 7 <= u64::MAX,
        ensures
            Self::ran(Instr::Clc, addr_mode, *old(self), *final(self), old(memory).log(), final(memory).log()),
    {
        proof {
            reveal(instr_run);
            reveal(Cpu::ran);
        }
        self.get_operand_addr(AddressingMode::Implicit, memory, false);
        self.set_flag(FLAG_CARRY, false);
    }

    fn op_sec<M: Memory>(&mut self, addr_mode: AddressingMode, memory: &mut M)
        requires
            old(self)@.cycles + 7 <= u64::MAX,
        ensures
            Self::ran(Instr::Sec, addr_mode, *old(self), *final(self), old(memory).log(), final(memory).log()),
    {
        proof {
            reveal(instr_run);
            reveal(Cpu::ran);
        }
        self.get_operand_addr(AddressingMode::Implicit, memory, false);
        self.set_flag(FLAG_CARRY, true);
    }

    fn op_cli<M: Memory>(&mut self, addr_mode: AddressingMode, memory: &mut M)
        requires
            old(self)@.cycles + 7 <= u64::MAX,
        ensures
            Self::ran(Instr::Cli, addr_mode, *old(self), *final(self), old(memory).log(), final(memory).log()),
    {
        proof {
            reveal(instr_run);
            reveal(Cpu::ran);
        }
        self.get_operand_addr(AddressingMode::Implicit, memory, false);
        self.set_flag(FLAG_INTERRUPT_DISABLE, false);
    }

    fn op_sei<M: Memory>(&mut self, addr_mode: AddressingMode, memory: &mut M)
        requires
            old(self)@.cycles + 7 <= u64::MAX,
        ensures
            Self::ran(Instr::Sei, addr_mode, *old(self), *final(self), old(memory).log(), final(memory).log()),
    {
        proof {
            reveal(instr_run);
            reveal(Cpu::ran);
        }
        self.get_operand_addr(AddressingMode::Implicit, memory, false);
        self.set_flag(FLAG_INTERRUPT_DISABLE, true);
    }

    fn op_cld<M: Memory>(&mut self, addr_mode: AddressingMode, memory: &mut M)
        requires
            old(self)@.cycles + 7 <= u64::MAX,
        ensures
            Self::ran(Instr::Cld, addr_mode, *old(self), *final(self), old(memory).log(), final(memory).log()),
    {
        proof {
            reveal(instr_run);
            reveal(Cpu::ran);
        }
        self.get_operand_addr(AddressingMode::Implicit, memory, false);
        self.set_flag(FLAG_DECIMAL, false);
    }

    fn op_sed<M: Memory>(&mut self, addr_mode: AddressingMode, memory: &mut M)
        requires
            old(self)@.cycles + 7 <= u64::MAX,
        ensures
            Self::ran(Instr::Sed, addr_mode, *old(self), *final(self), old(memory).log(), final(memory).log()),
    {
        proof {
            reveal(instr_run);
            reveal(Cpu::ran);
        }
        self.get_operand_addr(AddressingMode::Implicit, memory, false);
        self.set_flag(FLAG_DECIMAL, true);
    }

    fn op_clv<M: Memory>(&mut self, addr_mode: AddressingMode, memory: &mut M)
        requires
            old(self)@.cycles + 7 <= u64::MAX,
        ensures
            Self::ran(Instr::Clv, addr_mode, *old(self), *final(self), old(memory).log(), final(memory).log()),
    {
        proof {
            reveal(instr_run);
            reveal(Cpu::ran);
        }
        self.get_operand_addr(AddressingMode::Implicit, memory, false);
        self.set_flag(FLAG_OVERFLOW, false);
    }

    fn op_nop<M: Memory>(&mut self, addr_mode: AddressingMode, memory: &mut M)
        requires
            old(self)@.cycles + 7 <= u64::MAX,
        ensures
            Self::ran(Instr::Nop, addr_mode, *old(self), *final(self), old(memory).log(), final(memory).log()),
    {
        proof {
            reveal(instr_run);
            reveal(Cpu::ran);
        }
        self.get_operand_addr(AddressingMode::Implicit, memory, false);
    }

    /// Instruction that is executed when an unofficial opcode is encountered.
    fn op_invalid<M: Memory>(&mut self, addr_mode: AddressingMode, memory: &mut M)
        requires
            old(self)@.cycles + 7 <= u64::MAX,
        ensures
            Self::ran(Instr::Invalid, addr_mode, *old(self), *final(self), old(memory).log(), final(memory).log()),
    {
        proof {
            reveal(instr_run);
            reveal(Cpu::ran);
        }
        self.op_nop(addr_mode, memory);
    }

    fn op_asl_m<M: Memory>(&mut self, addr_mode: AddressingMode, memory: &mut M)
        requires
            old(self)@.cycles + 7 <= u64::MAX,
        ensures
            Self::ran(Instr::AslM, addr_mode, *old(self), *final(self), old(memory).log(), final(memory).log()),
    {
        proof {
            reveal(instr_run);
            reveal(Cpu::ran);
        }
        let ghost start = self.start(memory.log());
        let op_addr = self.get_operand_addr(addr_mode, memory, false);
        let ghost mid = memory.log();
        let op = self.load(memory, op_addr);
        // the unmodified value is written back first
        self.store(memory, op_addr, op);
        let res = ((op as u16 * 2) % 256) as u8;
        self.set_flag(FLAG_CARRY, op >= 0x80);
        self.set_zn(res);
        self.store(memory, op_addr, res);
        proof {
            lemma_resolve_extends(addr_mode, false, start, mid, memory.log());
        }
    }

    fn op_lsr_m<M: Memory>(&mut self, addr_mode: AddressingMode, memory: &mut M)
        requires
            old(self)@.cycles + 7 <= u64::MAX,
        ensures
            Self::ran(Instr::LsrM, addr_mode, *old(self), *final(self), old(memory).log(), final(memory).log()),
    {
        proof {
            reveal(instr_run);
            reveal(Cpu::ran);
        }
        let ghost start = self.start(memory.log());
        let op_addr = self.get_operand_addr(addr_mode, memory, false);
        let ghost mid = memory.log();
        let op = self.load(memory, op_addr);
        // the unmodified value is written back first
        self.store(memory, op_addr, op);
        let res = op / 2;
        self.set_flag(FLAG_CARRY, op % 2 == 1);
        self.set_zn(res);
        self.store(memory, op_addr, res);
        proof {
            lemma_resolve_extends(addr_mode, false, start, mid, memory.log());
        }
    }

    fn op_rol_m<M: Memory>(&mut self, addr_mode: AddressingMode, memory: &mut M)
        requires
            old(self)@.cycles + 7 <= u64::MAX,
        ensures
            Self::ran(Instr::RolM, addr_mode, *old(self), *final(self), old(memory).log(), final(memory).log()),
    {
        proof {
            reveal(instr_run);
            reveal(Cpu::ran);
        }
        let ghost start = self.start(memory.log());
        let op_addr = self.get_operand_addr(addr_mode, memory, false);
        let ghost mid = memory.log();
        let op = self.load(memory, op_addr);
        // the unmodified value is written back first
        self.store(memory, op_addr, op);
        let carry_in: u16 = if self.get_flag(FLAG_CARRY) { 1 } else { 0 };
        let res = ((op as u16 * 2 + carry_in) % 256) as u8;
        self.set_flag(FLAG_CARRY, op >= 0x80);
        self.set_zn(res);
        self.store(memory, op_addr, res);
        proof {
            lemma_resolve_extends(addr_mode, false, start, mid, memory.log());
        }
    }

    fn op_ror_m<M: Memory>(&mut self, addr_mode: AddressingMode, memory: &mut M)
        requires
            old(self)@.cycles + 7 <= u64::MAX,
        ensures
            Self::ran(Instr::RorM, addr_mode, *old(self), *final(self), old(memory).log(), final(memory).log()),
    {
        proof {
            reveal(instr_run);
            reveal(Cpu::ran);
        }
        let ghost start = self.start(memory.log());
        let op_addr = self.get_operand_addr(addr_mode, memory, false);
        let ghost mid = memory.log();
        let op = self.load(memory, op_addr);
        // the unmodified value is written back first
        self.store(memory, op_addr, op);
        let carry_in: u8 = if self.get_flag(FLAG_CARRY) { 0x80 } else { 0 };
        let res = op / 2 + carry_in;
        self.set_flag(FLAG_CARRY, op % 2 == 1);
        self.set_zn(res);
        self.store(memory, op_addr, res);
        proof {
            lemma_resolve_extends(addr_mode, false, start, mid, memory.log());
        }
    }

    fn op_inc<M: Memory>(&mut self, addr_mode: AddressingMode, memory: &mut M)
        requires
            old(self)@.cycles + 7 <= u64::MAX,
        ensures
            Self::ran(Instr::Inc, addr_mode, *old(self), *final(self), old(memory).log(), final(memory).log()),
    {
        proof {
            reveal(instr_run);
            reveal(Cpu::ran);
        }
        let ghost start = self.start(memory.log());
        let op_addr = self.get_operand_addr(addr_mode, memory, false);
        let ghost mid = memory.log();
        let op = self.load(memory, op_addr);
        // the unmodified value is written back first
        self.store(memory, op_addr, op);
        let res = ((op as u16 + 1) % 256) as u8;
        self.set_zn(res);
        self.store(memory, op_addr, res);
        proof {
            lemma_resolve_extends(addr_mode, false, start, mid, memory.log());
        }
    }

    fn op_dec<M: Memory>(&mut self, addr_mode: AddressingMode, memory: &mut M)
        requires
            old(self)@.cycles + 7 <= u64::MAX,
        ensures
            Self::ran(Instr::Dec, addr_mode, *old(self), *final(self), old(memory).log(), final(memory).log()),
    {
        proof {
            reveal(instr_run);
            reveal(Cpu::ran);
        }
        let ghost start = self.start(memory.log());
        let op_addr = self.get_operand_addr(addr_mode, memory, false);
        let ghost mid = memory.log();
        let op = self.load(memory, op_addr);
        // the unmodified value is written back first
        self.store(memory, op_addr, op);
        let res = ((op as u16 + 255) % 256) as u8;
        self.set_zn(res);
        self.store(memory, op_addr, res);
        proof {
            lemma_resolve_extends(addr_mode, false, start, mid, memory.log());
        }
    }

    fn op_sta<M: Memory>(&mut self, addr_mode: AddressingMode, memory: &mut M)
        requires
            old(self)@.cycles + 7 <= u64::MAX,
        ensures
            Self::ran(Instr::Sta, addr_mode, *old(self), *final(self), old(memory).log(), final(memory).log()),
    {
        proof {
            reveal(instr_run);
            reveal(Cpu::ran);
        }
        let ghost start = self.start(memory.log());
        let op_addr = self.get_operand_addr(addr_mode, memory, false);
        let ghost mid = memory.log();
        let val = self.reg_a;
        self.store(memory, op_addr, val);
        proof {
            lemma_resolve_extends(addr_mode, false, start, mid, memory.log());
        }
    }

    fn op_stx<M: Memory>(&mut self, addr_mode: AddressingMode, memory: &mut M)
        requires
            old(self)@.cycles + 7 <= u64::MAX,
        ensures
            Self::ran(Instr::Stx, addr_mode, *old(self), *final(self), old(memory).log(), final(memory).log()),
    {
        proof {
            reveal(instr_run);
            reveal(Cpu::ran);
        }
        let ghost start = self.start(memory.log());
        let op_addr = self.get_operand_addr(addr_mode, memory, false);
        let ghost mid = memory.log();
        let val = self.reg_x;
        self.store(memory, op_addr, val);
        proof {
            lemma_resolve_extends(addr_mode, false, start, mid, memory.log());
        }
    }

    fn op_sty<M: Memory>(&mut self, addr_mode: AddressingMode, memory: &mut M)
        requires
            old(self)@.cycles + 7 <= u64::MAX,
        ensures
            Self::ran(Instr::Sty, addr_mode, *old(self), *final(self), old(memory).log(), final(memory).log()),
    {
        proof {
            reveal(instr_run);
            reveal(Cpu::ran);
        }
        let ghost start = self.start(memory.log());
        let op_addr = self.get_operand_addr(addr_mode, memory, false);
        let ghost mid = memory.log();
        let val = self.reg_y;
        self.store(memory, op_addr, val);
        proof {
            lemma_resolve_extends(addr_mode, false, start, mid, memory.log());
        }
    }

    fn op_bcc<M: Memory>(&mut self, addr_mode: AddressingMode, memory: &mut M)
        requires
            old(self)@.cycles + 7 <= u64::MAX,
        ensures
            Self::ran(Instr::Bcc, addr_mode, *old(self), *final(self), old(memory).log(), final(memory).log()),
    {
        proof {
            reveal(instr_run);
            reveal(Cpu::ran);
        }
        let taken = !self.get_flag(FLAG_CARRY);
        self.branch_if(taken, memory);
    }

    fn op_bcs<M: Memory>(&mut self, addr_mode: AddressingMode, memory: &mut M)
        requires
            old(self)@.cycles + 7 <= u64::MAX,
        ensures
            Self::ran(Instr::Bcs, addr_mode, *old(self), *final(self), old(memory).log(), final(memory).log()),
    {
        proof {
            reveal(instr_run);
            reveal(Cpu::ran);
        }
        let taken = self.get_flag(FLAG_CARRY);
        self.branch_if(taken, memory);
    }

    fn op_bne<M: Memory>(&mut self, addr_mode: AddressingMode, memory: &mut M)
        requires
            old(self)@.cycles + 7 <= u64::MAX,
        ensures
            Self::ran(Instr::Bne, addr_mode, *old(self), *final(self), old(memory).log(), final(memory).log()),
    {
        proof {
            reveal(instr_run);
            reveal(Cpu::ran);
        }
        let taken = !self.get_flag(FLAG_ZERO);
        self.branch_if(taken, memory);
    }

    fn op_beq<M: Memory>(&mut self, addr_mode: AddressingMode, memory: &mut M)
        requires
            old(self)@.cycles + 7 <= u64::MAX,
        ensures
            Self::ran(Instr::Beq, addr_mode, *old(self), *final(self), old(memory).log(), final(memory).log()),
    {
        proof {
            reveal(instr_run);
            reveal(Cpu::ran);
        }
        let taken = self.get_flag(FLAG_ZERO);
        self.branch_if(taken, memory);
    }

    fn op_bpl<M: Memory>(&mut self, addr_mode: AddressingMode, memory: &mut M)
        requires
            old(self)@.cycles + 7 <= u64::MAX,
        ensures
            Self::ran(Instr::Bpl, addr_mode, *old(self), *final(self), old(memory).log(), final(memory).log()),
    {
        proof {
            reveal(instr_run);
            reveal(Cpu::ran);
        }
        let taken = !self.get_flag(FLAG_NEGATIVE);
        self.branch_if(taken, memory);
    }

    fn op_bmi<M: Memory>(&mut self, addr_mode: AddressingMode, memory: &mut M)
        requires
            old(self)@.cycles + 7 <= u64::MAX,
        ensures
            Self::ran(Instr::Bmi, addr_mode, *old(self), *final(self), old(memory).log(), final(memory).log()),
    {
        proof {
            reveal(instr_run);
            reveal(Cpu::ran);
        }
        let taken = self.get_flag(FLAG_NEGATIVE);
        self.branch_if(taken, memory);
    }

    fn op_bvc<M: Memory>(&mut self, addr_mode: AddressingMode, memory: &mut M)
        requires
            old(self)@.cycles + 7 <= u64::MAX,
        ensures
            Self::ran(Instr::Bvc, addr_mode, *old(self), *final(self), old(memory).log(), final(memory).log()),
    {
        proof {
            reveal(instr_run);
            reveal(Cpu::ran);
        }
        let taken = !self.get_flag(FLAG_OVERFLOW);
        self.branch_if(taken, memory);
    }

    fn op_bvs<M: Memory>(&mut self, addr_mode: AddressingMode, memory: &mut M)
        requires
            old(self)@.cycles + 7 <= u64::MAX,
        ensures
            Self::ran(Instr::Bvs, addr_mode, *old(self), *final(self), old(memory).log(), final(memory).log()),
    {
        proof {
            reveal(instr_run);
            reveal(Cpu::ran);
        }
        let taken = self.get_flag(FLAG_OVERFLOW);
        self.branch_if(taken, memory);
    }

    fn op_jmp<M: Memory>(&mut self, addr_mode: AddressingMode, memory: &mut M)
        requires
            old(self)@.cycles + 7 <= u64::MAX,
        ensures
            Self::ran(Instr::Jmp, addr_mode, *old(self), *final(self), old(memory).log(), final(memory).log()),
    {
        proof {
            reveal(instr_run);
            reveal(Cpu::ran);
        }
        let op_addr = self.get_operand_addr(addr_mode, memory, false);
        self.reg_pc = op_addr;
    }

    fn op_jsr<M: Memory>(&mut self, addr_mode: AddressingMode, memory: &mut M)
        requires
            old(self)@.cycles + 7 <= u64::MAX,
        ensures
            Self::ran(Instr::Jsr, addr_mode, *old(self), *final(self), old(memory).log(), final(memory).log()),
    {
        proof {
            reveal(instr_run);
            reveal(Cpu::ran);
        }
        // not the absolute mode: the high byte of the target is fetched last
        let addr_low = self.fetch(memory);
        self.stack_dummy_read(memory);
        let ret = self.reg_pc;
        self.push((ret / 256) as u8, memory);
        self.push((ret % 256) as u8, memory);
        let addr_high = self.load(memory, self.reg_pc);
        self.reg_pc = addr_high as u16 * 256 + addr_low as u16;
    }

    fn op_rts<M: Memory>(&mut self, addr_mode: AddressingMode, memory: &mut M)
        requires
            old(self)@.cycles + 7 <= u64::MAX,
        ensures
            Self::ran(Instr::Rts, addr_mode, *old(self), *final(self), old(memory).log(), final(memory).log()),
    {
        proof {
            reveal(instr_run);
            reveal(Cpu::ran);
        }
        self.get_operand_addr(AddressingMode::Implicit, memory, false);
        self.stack_dummy_read(memory);
        let ret_addr_low = self.pull(memory);
        let ret_addr_high = self.pull(memory);
        let ret_addr = ret_addr_high as u16 * 256 + ret_addr_low as u16;
        self.reg_pc = ((ret_addr as u32 + 1) % 0x10000) as u16;
        self.load(memory, ret_addr);
    }

    fn op_rti<M: Memory>(&mut self, addr_mode: AddressingMode, memory: &mut M)
        requires
            old(self)@.cycles + 7 <= u64::MAX,
        ensures
            Self::ran(Instr::Rti, addr_mode, *old(self), *final(self), old(memory).log(), final(memory).log()),
    {
        proof {
            reveal(instr_run);
            reveal(Cpu::ran);
        }
        self.get_operand_addr(AddressingMode::Implicit, memory, false);
        self.stack_dummy_read(memory);
        let p = self.pull(memory);
        let ret_addr_low = self.pull(memory);
        let ret_addr_high = self.pull(memory);
        self.reg_p = p & 0xCF;
        self.reg_pc = ret_addr_high as u16 * 256 + ret_addr_low as u16;
    }

    fn op_brk<M: Memory>(&mut self, addr_mode: AddressingMode, memory: &mut M)
        requires
            old(self)@.cycles + 7 <= u64::MAX,
        ensures
            Self::ran(Instr::Brk, addr_mode, *old(self), *final(self), old(memory).log(), final(memory).log()),
    {
        proof {
            reveal(instr_run);
            reveal(Cpu::ran);
        }
        // the byte after the opcode is read and skipped
        self.fetch(memory);
        let ret = self.reg_pc;
        self.push((ret / 256) as u8, memory);
        self.push((ret % 256) as u8, memory);
        let p = self.reg_p | 0x30;
        self.push(p, memory);
        self.set_flag(FLAG_INTERRUPT_DISABLE, true);
        let vect_low = self.load(memory, 0xFFFE);
        let vect_high = self.load(memory, 0xFFFF);
        self.reg_pc = vect_high as u16 * 256 + vect_low as u16;
    }

    fn op_pha<M: Memory>(&mut self, addr_mode: AddressingMode, memory: &mut M)
        requires
            old(self)@.cycles + 7 <= u64::MAX,
        ensures
            Self::ran(Instr::Pha, addr_mode, *old(self), *final(self), old(memory).log(), final(memory).log()),
    {
        proof {
            reveal(instr_run);
            reveal(Cpu::ran);
        }
        self.get_operand_addr(AddressingMode::Implicit, memory, false);
        let val = self.reg_a;
        self.push(val, memory);
    }

    fn op_php<M: Memory>(&mut self, addr_mode: AddressingMode, memory: &mut M)
        requires
            old(self)@.cycles + 7 <= u64::MAX,
        ensures
            Self::ran(Instr::Php, addr_mode, *old(self), *final(self), old(memory).log(), final(memory).log()),
    {
        proof {
            reveal(instr_run);
            reveal(Cpu::ran);
        }
        self.get_operand_addr(AddressingMode::Implicit, memory, false);
        let val = self.reg_p | 0x30;
        self.push(val, memory);
    }

    fn op_pla<M: Memory>(&mut self, addr_mode: AddressingMode, memory: &mut M)
        requires
            old(self)@.cycles + 7 <= u64::MAX,
        ensures
            Self::ran(Instr::Pla, addr_mode, *old(self), *final(self), old(memory).log(), final(memory).log()),
    {
        proof {
            reveal(instr_run);
            reveal(Cpu::ran);
        }
        self.get_operand_addr(AddressingMode::Implicit, memory, false);
        self.stack_dummy_read(memory);
        let val = self.pull(memory);
        self.reg_a = val;
        self.set_zn(val);
    }

    fn op_plp<M: Memory>(&mut self, addr_mode: AddressingMode, memory: &mut M)
        requires
            old(self)@.cycles + 7 <= u64::MAX,
        ensures
            Self::ran(Instr::Plp, addr_mode, *old(self), *final(self), old(memory).log(), final(memory).log()),
    {
        proof {
            reveal(instr_run);
            reveal(Cpu::ran);
        }
        self.get_operand_addr(AddressingMode::Implicit, memory, false);
        self.stack_dummy_read(memory);
        let val = self.pull(memory);
        self.reg_p = val & 0xCF;
    }
}

} // verus!
