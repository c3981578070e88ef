use vstd::prelude::*;
use crate::instruction::{
    decoded, branch_displacement, format_i, format_ii, format_v, format_vi, high_field, low_field, sext16,
    sext5, sext8, sext9, sign_extend_imm5, InstructionFormat, Opcode, SystemRegister,
    SYSTEM_REGISTER_PSW,
};
use crate::psw::{Psw, lemma_bit_values};

verus! {

/// The memory and peripheral bus the processor reads and writes, and which is
/// told how many cycles each instruction took.
/// Nothing is assumed of what a read returns: devices on the bus may answer
/// as they like, and the processor is verified for every answer.
pub trait Bus {
    /// Reads the byte at `addr`.
    fn read_byte(&mut self, addr: u32) -> u8;

    /// Reads the halfword at `addr`.
    fn read_halfword(&mut self, addr: u32) -> u16;

    /// Reads the word at `addr`.
    fn read_word(&mut self, addr: u32) -> u32;

    /// Writes a byte at `addr`.
    fn write_byte(&mut self, addr: u32, value: u8);

    /// Writes a halfword at `addr`.
    fn write_halfword(&mut self, addr: u32, value: u16);

    /// Writes a word at `addr`.
    fn write_word(&mut self, addr: u32, value: u32);

    /// Reports the cycles taken since the last report.
    fn cycles(&mut self, cycles: u32);
}

/// The address the processor starts from after reset.
pub const RESET_VECTOR: u32 = 0xffff_fff0;

/// The width of a data access on the bus.
#[derive(Clone, Copy, Debug, PartialEq, Eq, Structural)]
pub enum Width {
    Byte,
    Halfword,
    Word,
}

/// The data access an instruction makes on the bus, after its fetch.
#[derive(Clone, Copy, Debug, PartialEq, Eq, Structural)]
pub enum BusAccess {
    Idle,
    /// Read `width` bytes at `addr` into register `reg`, widened by sign.
    Load { width: Width, addr: u32, reg: usize },
    /// Write the low `width` bytes of `value` at `addr`.
    Store { width: Width, addr: u32, value: u32 },
}

/// What an executed instruction leaves for the bus to do.
#[derive(Clone, Copy, Debug, PartialEq, Eq, Structural)]
pub struct Outcome {
    pub access: BusAccess,
    pub cycles: u32,
}

/// Why an instruction could not be executed.
#[derive(Clone, Copy, Debug, PartialEq, Eq, Structural)]
pub enum Fault {
    /// No opcode is encoded by this first halfword.
    UnknownOpcode(u16),
    /// A system-register transfer selected a register other than the status word.
    UnimplementedSystemRegister(usize),
}

/// The processor's state: the program counter, registers 1 to 31 (register 0
/// always reads as zero) and the status word.
pub ghost struct NvcState {
    pub pc: u32,
    pub regs: Seq<u32>,
    pub psw: Psw,
}

/// Addition modulo 2^32.
pub open spec fn wadd(a: u32, b: u32) -> u32 {
    if a + b >= 0x1_0000_0000 { (a + b - 0x1_0000_0000) as u32 } else { (a + b) as u32 }
}

/// Subtraction modulo 2^32.
pub open spec fn wsub(a: u32, b: u32) -> u32 {
    if a < b { (a - b + 0x1_0000_0000) as u32 } else { (a - b) as u32 }
}

pub open spec fn msb(v: u32) -> bool {
    v >= 0x8000_0000
}

/// The low `width` bytes of `v`.
pub open spec fn truncated(width: Width, v: u32) -> u32 {
    match width {
        Width::Byte => v % 0x100,
        Width::Halfword => v % 0x1_0000,
        Width::Word => v,
    }
}

/// A value read with `width` bytes, widened to 32 bits by its sign.
pub open spec fn extended(width: Width, raw: u32) -> u32 {
    match width {
        Width::Byte => sext8(raw as int),
        Width::Halfword => sext16(raw as int),
        Width::Word => raw,
    }
}

pub open spec fn fits(width: Width, raw: u32) -> bool {
    match width {
        Width::Byte => raw < 0x100,
        Width::Halfword => raw < 0x1_0000,
        Width::Word => true,
    }
}

/// Whether the condition of a conditional branch holds on the flags.
pub open spec fn branch_condition(op: Opcode, psw: Psw) -> bool {
    match op {
        Opcode::Bv => psw.overflow,
        Opcode::Bc => psw.carry,
        Opcode::Bz => psw.zero,
        Opcode::Bnh => psw.carry || psw.zero,
        Opcode::Bn => psw.sign,
        Opcode::Br => true,
        Opcode::Blt => psw.sign != psw.overflow,
        Opcode::Ble => (psw.sign != psw.overflow) != psw.zero,
        Opcode::Bnv => !psw.overflow,
        Opcode::Bnc => !psw.carry,
        Opcode::Bnz => !psw.zero,
        Opcode::Bh => !(psw.carry || psw.zero),
        Opcode::Bp => !psw.sign,
        Opcode::Bge => psw.sign == psw.overflow,
        Opcode::Bgt => !((psw.sign != psw.overflow) || psw.zero),
        _ => false,
    }
}

impl NvcState {
    pub open spec fn wf(self) -> bool {
        self.regs.len() == 31 && self.psw.wf()
    }

    pub open spec fn gpr(self, index: int) -> u32 {
        if index == 0 { 0 } else { self.regs[index - 1] }
    }

    pub open spec fn with_gpr(self, index: int, value: u32) -> NvcState {
        if index == 0 { self } else { NvcState { regs: self.regs.update(index - 1, value), ..self } }
    }

    pub open spec fn with_pc(self, pc: u32) -> NvcState {
        NvcState { pc, ..self }
    }

    pub open spec fn with_psw(self, psw: Psw) -> NvcState {
        NvcState { psw, ..self }
    }

    /// The state after reset.
    pub open spec fn reset() -> NvcState {
        NvcState { pc: RESET_VECTOR, regs: Seq::new(31, |i: int| 0u32), psw: Psw::spec_reset() }
    }

    /// The flags after `lhs - rhs`: zero and sign of the result, carry on an
    /// unsigned borrow, overflow when the operands' signs differ and the
    /// result's sign differs from `lhs`'s.
    pub open spec fn sub_flags(psw: Psw, lhs: u32, rhs: u32) -> Psw {
        let res = wsub(lhs, rhs);
        Psw {
            zero: res == 0,
            sign: msb(res),
            overflow: msb(lhs) != msb(rhs) && msb(res) != msb(lhs),
            carry: lhs < rhs,
            ..psw
        }
    }

    /// The address of the next instruction in sequence.
    pub open spec fn next_pc(self, op: Opcode) -> u32 {
        wadd(self.pc, if op.spec_format().spec_has_second_halfword() { 4 } else { 2 })
    }

    /// Formats I and II: register moves, subtraction, jumps and status-word updates.
    pub open spec fn execute_register(self, op: Opcode, first: u16) -> Result<NvcState, Fault> {
        let next = self.with_pc(self.next_pc(op));
        let r1 = low_field(first) as int;
        let r2 = high_field(first) as int;
        match op {
            Opcode::MovReg => Ok(next.with_gpr(r2, self.gpr(r1))),
            Opcode::Sub => {
                let (lhs, rhs) = (self.gpr(r2), self.gpr(r1));
                Ok(next.with_gpr(r2, wsub(lhs, rhs)).with_psw(NvcState::sub_flags(self.psw, lhs, rhs)))
            },
            Opcode::Jmp => Ok(self.with_pc(self.gpr(r1))),
            Opcode::MovImm => Ok(next.with_gpr(r2, sext5(r1))),
            Opcode::Cli => Ok(next.with_psw(Psw { interrupt_disable: false, ..self.psw })),
            Opcode::Sei => Ok(next.with_psw(Psw { interrupt_disable: true, ..self.psw })),
            _ => if r1 == SYSTEM_REGISTER_PSW {
                Ok(next.with_psw(Psw::unpacked(self.gpr(r2))))
            } else {
                Err(Fault::UnimplementedSystemRegister(r1 as usize))
            },
        }
    }

    /// Format V: a base register plus a 16-bit immediate, sign-extended or
    /// shifted into the upper half.
    pub open spec fn execute_immediate(self, op: Opcode, first: u16, second: u16) -> NvcState {
        let next = self.with_pc(self.next_pc(op));
        let r1 = low_field(first) as int;
        let r2 = high_field(first) as int;
        match op {
            Opcode::Movea => next.with_gpr(r2, wadd(self.gpr(r1), sext16(second as int))),
            _ => next.with_gpr(r2, wadd(self.gpr(r1), (second as u32 * 0x1_0000) as u32)),
        }
    }

    /// The width of a format VI access.
    pub open spec fn access_width(op: Opcode) -> Width {
        match op {
            Opcode::Ldb | Opcode::Inb | Opcode::Stb | Opcode::Outb => Width::Byte,
            Opcode::Ldh | Opcode::Inh | Opcode::Sth | Opcode::Outh => Width::Halfword,
            _ => Width::Word,
        }
    }

    pub open spec fn is_load(op: Opcode) -> bool {
        match op {
            Opcode::Ldb | Opcode::Inb | Opcode::Ldh | Opcode::Inh | Opcode::Ldw | Opcode::Inw => true,
            _ => false,
        }
    }

    /// Format VI: the load or store at base register plus displacement.
    pub open spec fn memory_access(self, op: Opcode, first: u16, second: u16) -> BusAccess {
        let addr = wadd(self.gpr(low_field(first) as int), sext16(second as int));
        let width = NvcState::access_width(op);
        if NvcState::is_load(op) {
            BusAccess::Load { width, addr, reg: high_field(first) }
        } else {
            BusAccess::Store { width, addr, value: truncated(width, self.gpr(high_field(first) as int)) }
        }
    }

    /// One whole instruction: `first` and `second` are the halfwords fetched
    /// and `loaded` the raw value a load read; the state after it, or the fault.
    pub open spec fn step_result(self, first: u16, second: u16, loaded: u32) -> Result<NvcState, Fault> {
        match decoded(first) {
            None => Err(Fault::UnknownOpcode(first)),
            Some(op) => match self.execute(op, first, second) {
                Err(e) => Err(e),
                Ok((state, access, _)) => match access {
                    BusAccess::Load { width, reg, .. } => Ok(state.with_gpr(reg as int, extended(width, loaded))),
                    _ => Ok(state),
                },
            },
        }
    }

    /// The effect of one decoded instruction whose halfwords are `first` and
    /// `second`: the new state and the data access and cycles left to the bus.
    pub open spec fn execute(self, op: Opcode, first: u16, second: u16) -> Result<
        (NvcState, BusAccess, u32),
        Fault,
    > {
        let idle = op.spec_num_cycles(false);
        match op.spec_format() {
            InstructionFormat::III => if branch_condition(op, self.psw) {
                Ok((self.with_pc(wadd(self.pc, sext9((first & 0x1ffu16) as int))), BusAccess::Idle, op.spec_num_cycles(true)))
            } else {
                Ok((self.with_pc(self.next_pc(op)), BusAccess::Idle, idle))
            },
            InstructionFormat::V => Ok((self.execute_immediate(op, first, second), BusAccess::Idle, idle)),
            InstructionFormat::VI => Ok((self.with_pc(self.next_pc(op)), self.memory_access(op, first, second), idle)),
            _ => match self.execute_register(op, first) {
                Ok(state) => Ok((state, BusAccess::Idle, idle)),
                Err(e) => Err(e),
            },
        }
    }
}

/// The processor core: program counter, general registers and status word.
pub struct Nvc {
    reg_pc: u32,
    reg_gpr: [u32; 31],
    psw: Psw,
}

impl View for Nvc {
    type V = NvcState;

    closed spec fn view(&self) -> NvcState {
        NvcState { pc: self.reg_pc, regs: self.reg_gpr@, psw: self.psw }
    }
}

impl Nvc {
    pub open spec fn wf(&self) -> bool {
        self@.wf()
    }

    proof fn lemma_regs_len(&self)
        ensures
            self@.regs.len() == 31,
    {
        assert(self.reg_gpr@.len() == 31);
    }

    pub fn new() -> (r: Nvc)
        ensures
            r@ == NvcState::reset(),
            r.wf(),
    {
        let r = Nvc { reg_pc: RESET_VECTOR, reg_gpr: [0u32; 31], psw: Psw::reset() };
        assert(r@.regs =~= Seq::new(31, |i: int| 0u32));
        r
    }

    pub fn reg_pc(&self) -> (r: u32)
        ensures
            r == self@.pc,
    {
        self.reg_pc
    }

    pub fn reg_gpr(&self, index: usize) -> (r: u32)
        requires
            index < 32,
        ensures
            r == self@.gpr(index as int),
    {
        if index == 0 {
            0
        } else {
            self.reg_gpr[index - 1]
        }
    }

    pub fn set_reg_gpr(&mut self, index: usize, value: u32)
        requires
            index < 32,
        ensures
            final(self)@ == old(self)@.with_gpr(index as int, value),
    {
        proof {
            self.lemma_regs_len();
        }
        if index != 0 {
            self.reg_gpr[index - 1] = value;
        }
    }

    pub fn reg_psw(&self) -> (r: u32)
        requires
            self.wf(),
        ensures
            r == self@.psw.packed(),
            r & 0xfff0_0c00u32 == 0,
    {
        let r = self.psw.pack();
        proof {
            crate::psw::lemma_packed_unused_clear(self.psw);
        }
        r
    }

    pub fn set_reg_psw(&mut self, value: u32)
        ensures
            final(self)@ == old(self)@.with_psw(Psw::unpacked(value)),
            final(self)@.psw.wf(),
    {
        self.psw = Psw::unpack(value);
    }

    fn set_zero_sign_flags(&mut self, value: u32)
        ensures
            final(self)@ == old(self)@.with_psw(
                Psw { zero: value == 0, sign: msb(value), ..old(self)@.psw },
            ),
    {
        self.psw.zero = value == 0;
        self.psw.sign = value & 0x8000_0000 != 0;
        assert((value & 0x8000_0000u32 != 0) == (value >= 0x8000_0000u32)) by (bit_vector);
    }

    /// Whether a conditional branch `op` is taken on the flags `psw`.
    pub fn branch_taken(op: Opcode, psw: &Psw) -> (r: bool)
        ensures
            r == branch_condition(op, *psw),
    {
        match op {
            Opcode::Bv => psw.overflow,
            Opcode::Bc => psw.carry,
            Opcode::Bz => psw.zero,
            Opcode::Bnh => psw.carry || psw.zero,
            Opcode::Bn => psw.sign,
            Opcode::Br => true,
            Opcode::Blt => psw.sign != psw.overflow,
            Opcode::Ble => (psw.sign != psw.overflow) != psw.zero,
            Opcode::Bnv => !psw.overflow,
            Opcode::Bnc => !psw.carry,
            Opcode::Bnz => !psw.zero,
            Opcode::Bh => !(psw.carry || psw.zero),
            Opcode::Bp => !psw.sign,
            Opcode::Bge => !(psw.sign != psw.overflow),
            Opcode::Bgt => !((psw.sign != psw.overflow) || psw.zero),
            _ => false,
        }
    }

    fn subtract(&mut self, reg1: usize, reg2: usize)
        requires
            reg1 < 32,
            reg2 < 32,
        ensures
            ({
                let (lhs, rhs) = (old(self)@.gpr(reg2 as int), old(self)@.gpr(reg1 as int));
                final(self)@ == old(self)@.with_gpr(reg2 as int, wsub(lhs, rhs)).with_psw(
                    NvcState::sub_flags(old(self)@.psw, lhs, rhs),
                )
            }),
    {
        let lhs = self.reg_gpr(reg2);
        let rhs = self.reg_gpr(reg1);
        let res = lhs.wrapping_sub(rhs);
        assert(res == wsub(lhs, rhs));
        self.set_reg_gpr(reg2, res);
        self.set_zero_sign_flags(res);
        self.psw.overflow = ((lhs ^ rhs) & !(rhs ^ res)) & 0x8000_0000 != 0;
        self.psw.carry = lhs < rhs;
        assert((((lhs ^ rhs) & !(rhs ^ res)) & 0x8000_0000u32 != 0) == ((lhs >= 0x8000_0000u32)
            != (rhs >= 0x8000_0000u32) && (res >= 0x8000_0000u32) != (lhs >= 0x8000_0000u32)))
            by (bit_vector);
    }

    #[verifier::rlimit(100)]
    fn execute_register(&mut self, op: Opcode, first_halfword: u16) -> (r: Result<(), Fault>)
        requires
            old(self).wf(),
            op.spec_format() == InstructionFormat::I || op.spec_format() == InstructionFormat::II,
        ensures
            final(self).wf(),
            match old(self)@.execute_register(op, first_halfword) {
                Ok(state) => final(self)@ == state && r is Ok,
                Err(e) => final(self)@ == old(self)@ && r == Err::<(), Fault>(e),
            },
    {
        let next_pc = self.reg_pc.wrapping_add(2);
        let (low, reg2) = format_i(first_halfword);
        assert(next_pc == old(self)@.next_pc(op));
        proof {
            self.lemma_regs_len();
        }
        match op {
            Opcode::MovReg => {
                let value = self.reg_gpr(low);
                self.set_reg_gpr(reg2, value);
            },
            Opcode::Sub => {
                self.subtract(low, reg2);
            },
            Opcode::Jmp => {
                self.reg_pc = self.reg_gpr(low);
                return Ok(());
            },
            Opcode::MovImm => {
                self.set_reg_gpr(reg2, sign_extend_imm5(low));
            },
            Opcode::Cli => {
                self.psw.interrupt_disable = false;
            },
            Opcode::Sei => {
                self.psw.interrupt_disable = true;
            },
            _ => {
                match SystemRegister::from_index(low) {
                    Some(SystemRegister::Psw) => {
                        let value = self.reg_gpr(reg2);
                        self.set_reg_psw(value);
                    },
                    None => {
                        return Err(Fault::UnimplementedSystemRegister(low));
                    },
                }
            },
        }
        self.reg_pc = next_pc;
        Ok(())
    }

    fn execute_immediate(&mut self, op: Opcode, first_halfword: u16, second_halfword: u16)
        requires
            old(self).wf(),
            op.spec_format() == InstructionFormat::V,
        ensures
            final(self).wf(),
            final(self)@ == old(self)@.execute_immediate(op, first_halfword, second_halfword),
    {
        let next_pc = self.reg_pc.wrapping_add(4);
        let (reg1, reg2, imm16) = format_v(first_halfword, second_halfword);
        let base = self.reg_gpr(reg1);
        let value = match op {
            Opcode::Movea => {
                let (_, _, disp) = format_vi(first_halfword, second_halfword);
                base.wrapping_add(disp)
            },
            _ => base.wrapping_add((imm16 as u32) * 0x1_0000),
        };
        self.set_reg_gpr(reg2, value);
        self.reg_pc = next_pc;
    }

    /// The bus access of a load or store instruction.
    pub fn memory_access(&self, op: Opcode, first_halfword: u16, second_halfword: u16) -> (r: BusAccess)
        requires
            op.spec_format() == InstructionFormat::VI,
        ensures
            r == self@.memory_access(op, first_halfword, second_halfword),
    {
        let (reg1, reg2, disp) = format_vi(first_halfword, second_halfword);
        let addr = self.reg_gpr(reg1).wrapping_add(disp);
        match op {
            Opcode::Ldb | Opcode::Inb => BusAccess::Load { width: Width::Byte, addr, reg: reg2 },
            Opcode::Ldh | Opcode::Inh => BusAccess::Load { width: Width::Halfword, addr, reg: reg2 },
            Opcode::Ldw | Opcode::Inw => BusAccess::Load { width: Width::Word, addr, reg: reg2 },
            Opcode::Stb | Opcode::Outb => BusAccess::Store { width: Width::Byte, addr, value: self.reg_gpr(reg2) % 0x100 },
            Opcode::Sth | Opcode::Outh => BusAccess::Store { width: Width::Halfword, addr, value: self.reg_gpr(reg2) % 0x1_0000 },
            _ => BusAccess::Store { width: Width::Word, addr, value: self.reg_gpr(reg2) },
        }
    }

    /// Executes a decoded instruction on the registers and flags, commits the
    /// next program counter, and hands back the data access and cycle count
    /// that remain for the bus.  On a fault nothing changes.
    pub fn execute(&mut self, op: Opcode, first_halfword: u16, second_halfword: u16) -> (r: Result<Outcome, Fault>)
        requires
            old(self).wf(),
        ensures
            final(self).wf(),
            match old(self)@.execute(op, first_halfword, second_halfword) {
                Ok((state, access, cycles)) => final(self)@ == state && r == Ok::<Outcome, Fault>(Outcome { access, cycles }),
                Err(e) => final(self)@ == old(self)@ && r == Err::<Outcome, Fault>(e),
            },
    {
        match op.instruction_format() {
            InstructionFormat::III => {
                let take_branch = Self::branch_taken(op, &self.psw);
                self.reg_pc = if take_branch {
                    self.reg_pc.wrapping_add(branch_displacement(first_halfword))
                } else {
                    self.reg_pc.wrapping_add(2)
                };
                Ok(Outcome { access: BusAccess::Idle, cycles: op.num_cycles(take_branch) })
            },
            InstructionFormat::V => {
                self.execute_immediate(op, first_halfword, second_halfword);
                Ok(Outcome { access: BusAccess::Idle, cycles: op.num_cycles(false) })
            },
            InstructionFormat::VI => {
                let access = self.memory_access(op, first_halfword, second_halfword);
                self.reg_pc = self.reg_pc.wrapping_add(4);
                Ok(Outcome { access, cycles: op.num_cycles(false) })
            },
            _ => match self.execute_register(op, first_halfword) {
                Ok(()) => Ok(Outcome { access: BusAccess::Idle, cycles: op.num_cycles(false) }),
                Err(e) => Err(e),
            },
        }
    }

    /// Writes the value a load read, widened by its sign, to its register.
    pub fn complete_load(&mut self, width: Width, reg: usize, raw: u32)
        requires
            old(self).wf(),
            reg < 32,
            fits(width, raw),
        ensures
            final(self).wf(),
            final(self)@ == old(self)@.with_gpr(reg as int, extended(width, raw)),
    {
        proof {
            self.lemma_regs_len();
        }
        let value = match width {
            Width::Byte => if raw < 0x80 { raw } else { raw + 0xffff_ff00 },
            Width::Halfword => if raw < 0x8000 { raw } else { raw + 0xffff_0000 },
            Width::Word => raw,
        };
        self.set_reg_gpr(reg, value);
    }

    /// Fetches, decodes and executes one instruction: the first halfword at
    /// the program counter, the second (for formats V and VI) after it, then
    /// the data access, and finally the cycle count handed to the bus.  On a
    /// fault the state is unchanged and no cycles are reported.
    pub fn step<B: Bus>(&mut self, bus: &mut B) -> (r: Result<(), Fault>)
        requires
            old(self).wf(),
        ensures
            final(self).wf(),
            exists|first: u16, second: u16, loaded: u32|
                #[trigger] old(self)@.step_result(first, second, loaded) == match r {
                    Ok(()) => Ok::<NvcState, Fault>(final(self)@),
                    Err(e) => Err::<NvcState, Fault>(e),
                },
            r is Err ==> final(self)@ == old(self)@,
    {
        let first_halfword = bus.read_halfword(self.reg_pc);
        let op = match Opcode::from_halfword(first_halfword) {
            Some(op) => op,
            None => {
                assert(old(self)@.step_result(first_halfword, 0, 0) == Err::<NvcState, Fault>(Fault::UnknownOpcode(first_halfword)));
                return Err(Fault::UnknownOpcode(first_halfword));
            },
        };
        let second_halfword = if op.instruction_format().has_second_halfword() {
            bus.read_halfword(self.reg_pc.wrapping_add(2))
        } else {
            0
        };
        let ghost before = self@;
        proof {
            crate::instruction::lemma_fields(first_halfword);
        }
        let outcome = match self.execute(op, first_halfword, second_halfword) {
            Ok(outcome) => outcome,
            Err(e) => {
                assert(before.step_result(first_halfword, second_halfword, 0) == Err::<NvcState, Fault>(e));
                return Err(e);
            },
        };
        let mut loaded: u32 = 0;
        match outcome.access {
            BusAccess::Idle => {},
            BusAccess::Load { width, addr, reg } => {
                loaded = match width {
                    Width::Byte => bus.read_byte(addr) as u32,
                    Width::Halfword => bus.read_halfword(addr) as u32,
                    Width::Word => bus.read_word(addr),
                };
                self.complete_load(width, reg, loaded);
            },
            BusAccess::Store { width, addr, value } => {
                match width {
                    Width::Byte => bus.write_byte(addr, value as u8),
                    Width::Halfword => bus.write_halfword(addr, value as u16),
                    Width::Word => bus.write_word(addr, value),
                }
            },
        }
        assert(before.step_result(first_halfword, second_halfword, loaded) == Ok::<NvcState, Fault>(self@));
        bus.cycles(outcome.cycles);
        Ok(())
    }
}

/// Writing register `index` and reading it back gives the value written,
/// except for register 0, which always reads as zero.
pub proof fn lemma_gpr_write_read(s: NvcState, index: int, value: u32)
    requires
        s.wf(),
        0 <= index < 32,
    ensures
        s.with_gpr(index, value).gpr(index) == (if index == 0 { 0 } else { value }),
        forall|j: int| 0 <= j < 32 && j != index ==> s.with_gpr(index, value).gpr(j) == s.gpr(j),
{
}

/// After reset the status word reads as the pending non-maskable interrupt
/// alone, every register reads zero, and the program counter is the reset vector.
pub proof fn lemma_reset_state()
    ensures
        NvcState::reset().wf(),
        NvcState::reset().psw.packed() == 0x8000,
        NvcState::reset().pc == 0xffff_fff0,
        forall|i: int| 0 <= i < 32 ==> NvcState::reset().gpr(i) == 0,
{
    lemma_bit_values();
    assert((0u32 << 16u32) as u32 == 0) by (bit_vector);
    assert(0u32 | 0u32 | 0u32 | 0u32 | 0u32 | 0u32 | 0u32 | 0u32 | 0u32 | 0u32 | 0u32 | 0u32 | 0u32
        | 0x8000u32 | 0u32 == 0x8000u32) by (bit_vector);
}

/// A word store hands the bus the full value of its source register, and a
/// word load that gets that value back from the bus puts it, unchanged, in its
/// destination register.
pub proof fn lemma_word_store_load(s: NvcState, store: u16, store2: u16, t: NvcState, load: u16, load2: u16)
    requires
        s.wf(),
        t.wf(),
        decoded(store) == Some(Opcode::Stw),
        decoded(load) == Some(Opcode::Ldw),
        high_field(load) != 0,
    ensures
        ({
            let v = s.gpr(high_field(store) as int);
            &&& s.execute(Opcode::Stw, store, store2) matches Ok((_, BusAccess::Store { width, value, .. }, _))
            &&& width == Width::Word
            &&& value == v
            &&& t.step_result(load, load2, v) matches Ok(after)
            &&& after.gpr(high_field(load) as int) == v
        }),
{
    crate::instruction::lemma_fields(load);
}

/// A byte or halfword load whose value has its top bit set fills the upper
/// bits of the destination register with ones.
pub proof fn lemma_narrow_load_sign_extends(t: NvcState, load: u16, load2: u16, raw: u32)
    requires
        t.wf(),
        decoded(load) == Some(Opcode::Ldb) || decoded(load) == Some(Opcode::Ldh),
        high_field(load) != 0,
        decoded(load) == Some(Opcode::Ldb) ==> 0x80 <= raw < 0x100,
        decoded(load) == Some(Opcode::Ldh) ==> 0x8000 <= raw < 0x1_0000,
    ensures
        t.step_result(load, load2, raw) matches Ok(after)
            && after.gpr(high_field(load) as int) == (if decoded(load) == Some(Opcode::Ldb) {
                raw + 0xffff_ff00
            } else {
                raw + 0xffff_0000
            }),
{
    crate::instruction::lemma_fields(load);
}

/// A no-op advances the program counter by two and changes nothing else.
pub proof fn lemma_nop(s: NvcState, first: u16, second: u16, loaded: u32)
    requires
        s.wf(),
        decoded(first) == Some(Opcode::Nop),
    ensures
        s.step_result(first, second, loaded) == Ok::<NvcState, Fault>(s.with_pc(wadd(s.pc, 2))),
{
}

} // verus!
