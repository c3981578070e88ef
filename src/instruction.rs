use vstd::prelude::*;

verus! {

/// The operations this processor core executes.
#[derive(Clone, Copy, Debug, PartialEq, Eq, Structural)]
pub enum Opcode {
    MovReg,
    Sub,
    Jmp,
    MovImm,
    Cli,
    Ldsr,
    Sei,
    Bv,
    Bc,
    Bz,
    Bnh,
    Bn,
    Br,
    Blt,
    Ble,
    Bnv,
    Bnc,
    Bnz,
    Bh,
    Bp,
    Nop,
    Bge,
    Bgt,
    Movea,
    Movhi,
    Ldb,
    Ldh,
    Ldw,
    Stb,
    Sth,
    Stw,
    Inb,
    Inh,
    Inw,
    Outb,
    Outh,
    Outw,
}

/// Which operand fields an instruction carries, and whether a second halfword follows.
#[derive(Clone, Copy, Debug, PartialEq, Eq, Structural)]
pub enum InstructionFormat {
    I,
    II,
    III,
    V,
    VI,
}

/// The system registers that can be selected by a system-register transfer.
#[derive(Clone, Copy, Debug, PartialEq, Eq, Structural)]
pub enum SystemRegister {
    Psw,
}

/// The selector of the program status word among the system registers.
pub const SYSTEM_REGISTER_PSW: usize = 5;

impl InstructionFormat {
    pub open spec fn spec_has_second_halfword(self) -> bool {
        self == InstructionFormat::V || self == InstructionFormat::VI
    }

    pub fn has_second_halfword(&self) -> (r: bool)
        ensures
            r == self.spec_has_second_halfword(),
    {
        match self {
            InstructionFormat::V | InstructionFormat::VI => true,
            _ => false,
        }
    }
}

impl SystemRegister {
    pub fn from_index(index: usize) -> (r: Option<SystemRegister>)
        ensures
            r == (if index == SYSTEM_REGISTER_PSW { Some(SystemRegister::Psw) } else { None::<SystemRegister> }),
    {
        if index == SYSTEM_REGISTER_PSW {
            Some(SystemRegister::Psw)
        } else {
            None
        }
    }
}

/// The six high-order bits of an instruction's first halfword.
pub open spec fn opcode_bits(halfword: u16) -> u16 {
    halfword >> 10u16
}

/// The four condition bits of a conditional branch.
pub open spec fn condition_bits(halfword: u16) -> u16 {
    (halfword >> 9u16) & 0xfu16
}

/// Conditional branches are the halfwords whose top three bits are `100`.
pub open spec fn is_branch_word(halfword: u16) -> bool {
    opcode_bits(halfword) >> 3u16 == 0b100u16
}

/// The opcode that `halfword` encodes, if any.
pub open spec fn decoded(halfword: u16) -> Option<Opcode> {
    if exists|op: Opcode| op.encodes(halfword) {
        Some(choose|op: Opcode| op.encodes(halfword))
    } else {
        None
    }
}

/// No halfword encodes two opcodes.
pub proof fn lemma_encoding_unique(a: Opcode, b: Opcode, halfword: u16)
    requires
        a.encodes(halfword),
        b.encodes(halfword),
    ensures
        a == b,
{
}

impl Opcode {
    /// The condition code of a conditional branch (including the no-op), if it is one.
    pub open spec fn condition(self) -> Option<u16> {
        match self {
            Opcode::Bv => Some(0u16),
            Opcode::Bc => Some(1u16),
            Opcode::Bz => Some(2u16),
            Opcode::Bnh => Some(3u16),
            Opcode::Bn => Some(4u16),
            Opcode::Br => Some(5u16),
            Opcode::Blt => Some(6u16),
            Opcode::Ble => Some(7u16),
            Opcode::Bnv => Some(8u16),
            Opcode::Bnc => Some(9u16),
            Opcode::Bnz => Some(10u16),
            Opcode::Bh => Some(11u16),
            Opcode::Bp => Some(12u16),
            Opcode::Nop => Some(13u16),
            Opcode::Bge => Some(14u16),
            Opcode::Bgt => Some(15u16),
            _ => None,
        }
    }

    /// The six opcode bits of any other operation.
    pub open spec fn encoding(self) -> u16 {
        match self {
            Opcode::MovReg => 0b000000u16,
            Opcode::Sub => 0b000010u16,
            Opcode::Jmp => 0b000110u16,
            Opcode::MovImm => 0b010000u16,
            Opcode::Cli => 0b010110u16,
            Opcode::Ldsr => 0b011100u16,
            Opcode::Sei => 0b011110u16,
            Opcode::Movea => 0b101000u16,
            Opcode::Movhi => 0b101111u16,
            Opcode::Ldb => 0b110000u16,
            Opcode::Ldh => 0b110001u16,
            Opcode::Ldw => 0b110011u16,
            Opcode::Stb => 0b110100u16,
            Opcode::Sth => 0b110101u16,
            Opcode::Stw => 0b110111u16,
            Opcode::Inb => 0b111000u16,
            Opcode::Inh => 0b111001u16,
            Opcode::Inw => 0b111011u16,
            Opcode::Outb => 0b111100u16,
            Opcode::Outh => 0b111101u16,
            Opcode::Outw => 0b111111u16,
            _ => 0u16,
        }
    }

    /// Whether `halfword` is an encoding of this opcode.
    pub open spec fn encodes(self, halfword: u16) -> bool {
        match self.condition() {
            Some(c) => is_branch_word(halfword) && condition_bits(halfword) == c,
            None => !is_branch_word(halfword) && opcode_bits(halfword) == self.encoding(),
        }
    }

    /// Classifies the first halfword of an instruction; `None` when no opcode has that encoding.
    pub fn from_halfword(halfword: u16) -> (r: Option<Opcode>)
        ensures
            match r {
                Some(op) => op.encodes(halfword),
                None => forall|op: Opcode| !op.encodes(halfword),
            },
            r == decoded(halfword),
    {
        let r = Opcode::decode_table(halfword);
        proof {
            if let Some(op) = r {
                let c = choose|o: Opcode| o.encodes(halfword);
                lemma_encoding_unique(op, c, halfword);
            }
        }
        r
    }

    fn decode_table(halfword: u16) -> (r: Option<Opcode>)
        ensures
            match r {
                Some(op) => op.encodes(halfword),
                None => forall|op: Opcode| !op.encodes(halfword),
            },
    {
        let bits = halfword >> 10u16;
        if bits >> 3u16 == 0b100u16 {
            let condition = (halfword >> 9u16) & 0xfu16;
            assert(condition < 16) by (bit_vector)
                requires
                    condition == (halfword >> 9u16) & 0xfu16,
            ;
            let op = match condition {
                0 => Opcode::Bv,
                1 => Opcode::Bc,
                2 => Opcode::Bz,
                3 => Opcode::Bnh,
                4 => Opcode::Bn,
                5 => Opcode::Br,
                6 => Opcode::Blt,
                7 => Opcode::Ble,
                8 => Opcode::Bnv,
                9 => Opcode::Bnc,
                10 => Opcode::Bnz,
                11 => Opcode::Bh,
                12 => Opcode::Bp,
                13 => Opcode::Nop,
                14 => Opcode::Bge,
                _ => Opcode::Bgt,
            };
            Some(op)
        } else {
            match bits {
                0b000000 => Some(Opcode::MovReg),
                0b000010 => Some(Opcode::Sub),
                0b000110 => Some(Opcode::Jmp),
                0b010000 => Some(Opcode::MovImm),
                0b010110 => Some(Opcode::Cli),
                0b011100 => Some(Opcode::Ldsr),
                0b011110 => Some(Opcode::Sei),
                0b101000 => Some(Opcode::Movea),
                0b101111 => Some(Opcode::Movhi),
                0b110000 => Some(Opcode::Ldb),
                0b110001 => Some(Opcode::Ldh),
                0b110011 => Some(Opcode::Ldw),
                0b110100 => Some(Opcode::Stb),
                0b110101 => Some(Opcode::Sth),
                0b110111 => Some(Opcode::Stw),
                0b111000 => Some(Opcode::Inb),
                0b111001 => Some(Opcode::Inh),
                0b111011 => Some(Opcode::Inw),
                0b111100 => Some(Opcode::Outb),
                0b111101 => Some(Opcode::Outh),
                0b111111 => Some(Opcode::Outw),
                _ => None,
            }
        }
    }

    pub open spec fn spec_format(self) -> InstructionFormat {
        match self {
            Opcode::MovReg => InstructionFormat::I,
            Opcode::Sub => InstructionFormat::I,
            Opcode::Jmp => InstructionFormat::I,
            Opcode::MovImm => InstructionFormat::II,
            Opcode::Cli => InstructionFormat::II,
            Opcode::Ldsr => InstructionFormat::II,
            Opcode::Sei => InstructionFormat::II,
            Opcode::Movea => InstructionFormat::V,
            Opcode::Movhi => InstructionFormat::V,
            Opcode::Ldb => InstructionFormat::VI,
            Opcode::Ldh => InstructionFormat::VI,
            Opcode::Ldw => InstructionFormat::VI,
            Opcode::Stb => InstructionFormat::VI,
            Opcode::Sth => InstructionFormat::VI,
            Opcode::Stw => InstructionFormat::VI,
            Opcode::Inb => InstructionFormat::VI,
            Opcode::Inh => InstructionFormat::VI,
            Opcode::Inw => InstructionFormat::VI,
            Opcode::Outb => InstructionFormat::VI,
            Opcode::Outh => InstructionFormat::VI,
            Opcode::Outw => InstructionFormat::VI,
            _ => InstructionFormat::III,
        }
    }

    pub fn instruction_format(&self) -> (r: InstructionFormat)
        ensures
            r == self.spec_format(),
    {
        match self {
            Opcode::MovReg | Opcode::Sub | Opcode::Jmp => InstructionFormat::I,
            Opcode::MovImm | Opcode::Cli | Opcode::Ldsr | Opcode::Sei => InstructionFormat::II,
            Opcode::Movea | Opcode::Movhi => InstructionFormat::V,
            Opcode::Ldb | Opcode::Ldh | Opcode::Ldw | Opcode::Stb | Opcode::Sth | Opcode::Stw | Opcode::Inb | Opcode::Inh | Opcode::Inw | Opcode::Outb | Opcode::Outh | Opcode::Outw => InstructionFormat::VI,
            _ => InstructionFormat::III,
        }
    }

    /// Cycles the operation takes; a conditional branch takes more when it is taken.
    pub open spec fn spec_num_cycles(self, take_branch: bool) -> u32 {
        match self {
            Opcode::MovReg => 1,
            Opcode::Sub => 1,
            Opcode::Jmp => 3,
            Opcode::MovImm => 1,
            Opcode::Cli => 12,
            Opcode::Ldsr => 8,
            Opcode::Sei => 12,
            Opcode::Movea => 1,
            Opcode::Movhi => 1,
            Opcode::Ldb => 5,
            Opcode::Ldh => 5,
            Opcode::Ldw => 5,
            Opcode::Stb => 4,
            Opcode::Sth => 4,
            Opcode::Stw => 4,
            Opcode::Inb => 5,
            Opcode::Inh => 5,
            Opcode::Inw => 5,
            Opcode::Outb => 4,
            Opcode::Outh => 4,
            Opcode::Outw => 4,
            Opcode::Nop => 1,
            _ => if take_branch { 3 } else { 1 },
        }
    }

    pub fn num_cycles(&self, take_branch: bool) -> (r: u32)
        ensures
            r == self.spec_num_cycles(take_branch),
    {
        match self {
            Opcode::MovReg | Opcode::Sub | Opcode::MovImm | Opcode::Movea | Opcode::Movhi | Opcode::Nop => 1,
            Opcode::Jmp => 3,
            Opcode::Cli | Opcode::Sei => 12,
            Opcode::Ldsr => 8,
            Opcode::Ldb | Opcode::Ldh | Opcode::Ldw | Opcode::Inb | Opcode::Inh | Opcode::Inw => 5,
            Opcode::Stb | Opcode::Sth | Opcode::Stw | Opcode::Outb | Opcode::Outh | Opcode::Outw => 4,
            _ => if take_branch { 3 } else { 1 },
        }
    }
}

/// The register field in bits 0 to 4 (also the 5-bit immediate of format II).
pub open spec fn low_field(halfword: u16) -> usize {
    (halfword & 0x1fu16) as usize
}

/// The register field in bits 5 to 9.
pub open spec fn high_field(halfword: u16) -> usize {
    ((halfword >> 5u16) & 0x1fu16) as usize
}

/// A 5-bit value read as two's complement and widened to 32 bits.
pub open spec fn sext5(v: int) -> u32 {
    if v < 0x10 { v as u32 } else { (v + 0xffff_ffe0) as u32 }
}

/// An 8-bit value read as two's complement and widened to 32 bits.
pub open spec fn sext8(v: int) -> u32 {
    if v < 0x80 { v as u32 } else { (v + 0xffff_ff00) as u32 }
}

/// A 9-bit value read as two's complement and widened to 32 bits.
pub open spec fn sext9(v: int) -> u32 {
    if v < 0x100 { v as u32 } else { (v + 0xffff_fe00) as u32 }
}

/// A 16-bit value read as two's complement and widened to 32 bits.
pub open spec fn sext16(v: int) -> u32 {
    if v < 0x8000 { v as u32 } else { (v + 0xffff_0000) as u32 }
}

pub(crate) proof fn lemma_fields(halfword: u16)
    ensures
        halfword & 0x1fu16 < 32,
        (halfword >> 5u16) & 0x1fu16 < 32,
        halfword & 0x1ffu16 < 512,
{
    assert(halfword & 0x1fu16 < 32) by (bit_vector);
    assert((halfword >> 5u16) & 0x1fu16 < 32) by (bit_vector);
    assert(halfword & 0x1ffu16 < 512) by (bit_vector);
}

/// Register–register format: `(reg1, reg2)`.
pub fn format_i(first_halfword: u16) -> (r: (usize, usize))
    ensures
        r.0 == low_field(first_halfword),
        r.1 == high_field(first_halfword),
        r.0 < 32,
        r.1 < 32,
{
    proof {
        lemma_fields(first_halfword);
    }
    ((first_halfword & 0x1f) as usize, ((first_halfword >> 5u16) & 0x1f) as usize)
}

/// Register–immediate format: `(imm5, reg2)`.
pub fn format_ii(first_halfword: u16) -> (r: (usize, usize))
    ensures
        r.0 == low_field(first_halfword),
        r.1 == high_field(first_halfword),
        r.0 < 32,
        r.1 < 32,
{
    proof {
        lemma_fields(first_halfword);
    }
    ((first_halfword & 0x1f) as usize, ((first_halfword >> 5u16) & 0x1f) as usize)
}

/// Register and 16-bit immediate: `(reg1, reg2, imm16)`.
pub fn format_v(first_halfword: u16, second_halfword: u16) -> (r: (usize, usize, u16))
    ensures
        r.0 == low_field(first_halfword),
        r.1 == high_field(first_halfword),
        r.2 == second_halfword,
        r.0 < 32,
        r.1 < 32,
{
    let (reg1, reg2) = format_i(first_halfword);
    (reg1, reg2, second_halfword)
}

/// Register and 16-bit signed displacement: `(reg1, reg2, disp)`, the
/// displacement already widened to 32 bits.
pub fn format_vi(first_halfword: u16, second_halfword: u16) -> (r: (usize, usize, u32))
    ensures
        r.0 == low_field(first_halfword),
        r.1 == high_field(first_halfword),
        r.2 == sext16(second_halfword as int),
        r.0 < 32,
        r.1 < 32,
{
    let (reg1, reg2) = format_i(first_halfword);
    let disp: u32 = if second_halfword < 0x8000 {
        second_halfword as u32
    } else {
        second_halfword as u32 + 0xffff_0000
    };
    (reg1, reg2, disp)
}

/// Widens a 5-bit immediate, copying bit 4 into the upper bits.
pub fn sign_extend_imm5(imm5: usize) -> (r: u32)
    requires
        imm5 < 32,
    ensures
        r == sext5(imm5 as int),
{
    if imm5 < 0x10 {
        imm5 as u32
    } else {
        imm5 as u32 + 0xffff_ffe0
    }
}

/// The branch displacement: the low nine bits of the first halfword, widened
/// by copying bit 8 into the upper bits.
pub fn branch_displacement(first_halfword: u16) -> (r: u32)
    ensures
        r == sext9((first_halfword & 0x1ffu16) as int),
{
    proof {
        lemma_fields(first_halfword);
    }
    let disp9 = first_halfword & 0x1ff;
    if disp9 < 0x100 {
        disp9 as u32
    } else {
        disp9 as u32 + 0xffff_fe00
    }
}

} // verus!
