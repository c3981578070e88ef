use vstd::prelude::*;

verus! {

/// Program status word: the condition flags, the reserved floating-point
/// exception flags and the interrupt controls, as named fields.
#[derive(Clone, Copy, Debug, PartialEq, Eq, Structural)]
pub struct Psw {
    pub zero: bool,
    pub sign: bool,
    pub overflow: bool,
    pub carry: bool,
    pub fp_precision_degradation: bool,
    pub fp_underflow: bool,
    pub fp_overflow: bool,
    pub fp_zero_division: bool,
    pub fp_invalid_operation: bool,
    pub fp_reserved_operand: bool,
    pub interrupt_disable: bool,
    pub address_trap_enable: bool,
    pub exception_pending: bool,
    pub nmi_pending: bool,
    pub interrupt_mask_level: u32,
}

/// The bits of the packed word that no field occupies: 10, 11 and 20 upwards.
pub const PSW_UNUSED_BITS: u32 = 0xfff0_0c00;

pub open spec fn bit(b: bool, k: u32) -> u32 {
    if b { 1u32 << k } else { 0u32 }
}

pub open spec fn has_bit(v: u32, k: u32) -> bool {
    (v >> k) & 1u32 != 0
}

impl Psw {
    /// The field holds a level of 0 to 15.
    pub open spec fn wf(self) -> bool {
        self.interrupt_mask_level < 16
    }

    /// The packed 32-bit form: each flag at its bit, the mask level in bits 16 to 19.
    pub open spec fn packed(self) -> u32 {
        bit(self.zero, 0) | bit(self.sign, 1) | bit(self.overflow, 2) | bit(self.carry, 3)
            | bit(self.fp_precision_degradation, 4) | bit(self.fp_underflow, 5)
            | bit(self.fp_overflow, 6) | bit(self.fp_zero_division, 7)
            | bit(self.fp_invalid_operation, 8) | bit(self.fp_reserved_operand, 9)
            | bit(self.interrupt_disable, 12) | bit(self.address_trap_enable, 13)
            | bit(self.exception_pending, 14) | bit(self.nmi_pending, 15)
            | ((self.interrupt_mask_level << 16u32) as u32)
    }

    /// The fields read back from a packed word; bits 10, 11 and 20 upwards are ignored.
    pub open spec fn unpacked(v: u32) -> Psw {
        Psw {
            zero: has_bit(v, 0),
            sign: has_bit(v, 1),
            overflow: has_bit(v, 2),
            carry: has_bit(v, 3),
            fp_precision_degradation: has_bit(v, 4),
            fp_underflow: has_bit(v, 5),
            fp_overflow: has_bit(v, 6),
            fp_zero_division: has_bit(v, 7),
            fp_invalid_operation: has_bit(v, 8),
            fp_reserved_operand: has_bit(v, 9),
            interrupt_disable: has_bit(v, 12),
            address_trap_enable: has_bit(v, 13),
            exception_pending: has_bit(v, 14),
            nmi_pending: has_bit(v, 15),
            interrupt_mask_level: (v >> 16u32) & 0xfu32,
        }
    }

    /// The state after reset: every flag clear but a pending non-maskable interrupt.
    pub open spec fn spec_reset() -> Psw {
        Psw {
            zero: false,
            sign: false,
            overflow: false,
            carry: false,
            fp_precision_degradation: false,
            fp_underflow: false,
            fp_overflow: false,
            fp_zero_division: false,
            fp_invalid_operation: false,
            fp_reserved_operand: false,
            interrupt_disable: false,
            address_trap_enable: false,
            exception_pending: false,
            nmi_pending: true,
            interrupt_mask_level: 0,
        }
    }

    pub fn reset() -> (r: Psw)
        ensures
            r == Psw::spec_reset(),
            r.wf(),
    {
        Psw {
            zero: false,
            sign: false,
            overflow: false,
            carry: false,
            fp_precision_degradation: false,
            fp_underflow: false,
            fp_overflow: false,
            fp_zero_division: false,
            fp_invalid_operation: false,
            fp_reserved_operand: false,
            interrupt_disable: false,
            address_trap_enable: false,
            exception_pending: false,
            nmi_pending: true,
            interrupt_mask_level: 0,
        }
    }

    pub fn pack(&self) -> (r: u32)
        ensures
            r == self.packed(),
    {
        (if self.zero { 1u32 << 0u32 } else { 0u32 })
            | (if self.sign { 1u32 << 1u32 } else { 0u32 })
            | (if self.overflow { 1u32 << 2u32 } else { 0u32 })
            | (if self.carry { 1u32 << 3u32 } else { 0u32 })
            | (if self.fp_precision_degradation { 1u32 << 4u32 } else { 0u32 })
            | (if self.fp_underflow { 1u32 << 5u32 } else { 0u32 })
            | (if self.fp_overflow { 1u32 << 6u32 } else { 0u32 })
            | (if self.fp_zero_division { 1u32 << 7u32 } else { 0u32 })
            | (if self.fp_invalid_operation { 1u32 << 8u32 } else { 0u32 })
            | (if self.fp_reserved_operand { 1u32 << 9u32 } else { 0u32 })
            | (if self.interrupt_disable { 1u32 << 12u32 } else { 0u32 })
            | (if self.address_trap_enable { 1u32 << 13u32 } else { 0u32 })
            | (if self.exception_pending { 1u32 << 14u32 } else { 0u32 })
            | (if self.nmi_pending { 1u32 << 15u32 } else { 0u32 })
            | (self.interrupt_mask_level << 16u32)
    }

    pub fn unpack(v: u32) -> (r: Psw)
        ensures
            r == Psw::unpacked(v),
            r.wf(),
    {
        assert((v >> 16u32) & 0xfu32 < 16) by (bit_vector);
        Psw {
            zero: (v >> 0u32) & 1 != 0,
            sign: (v >> 1u32) & 1 != 0,
            overflow: (v >> 2u32) & 1 != 0,
            carry: (v >> 3u32) & 1 != 0,
            fp_precision_degradation: (v >> 4u32) & 1 != 0,
            fp_underflow: (v >> 5u32) & 1 != 0,
            fp_overflow: (v >> 6u32) & 1 != 0,
            fp_zero_division: (v >> 7u32) & 1 != 0,
            fp_invalid_operation: (v >> 8u32) & 1 != 0,
            fp_reserved_operand: (v >> 9u32) & 1 != 0,
            interrupt_disable: (v >> 12u32) & 1 != 0,
            address_trap_enable: (v >> 13u32) & 1 != 0,
            exception_pending: (v >> 14u32) & 1 != 0,
            nmi_pending: (v >> 15u32) & 1 != 0,
            interrupt_mask_level: (v >> 16u32) & 0xf,
        }
    }
}

/// A well-formed status word packs with bits 10, 11 and 20 upwards clear.
pub proof fn lemma_packed_unused_clear(p: Psw)
    requires
        p.wf(),
    ensures
        p.packed() & PSW_UNUSED_BITS == 0,
{
    let m = p.interrupt_mask_level;
    assert(m < 16 ==> ((m << 16u32) as u32) & 0xfff0_0c00u32 == 0) by (bit_vector);
    assert(forall|a: u32, b: u32| (a & 0xfff0_0c00u32 == 0 && b & 0xfff0_0c00u32 == 0) ==> (a | b) & 0xfff0_0c00u32 == 0) by (bit_vector);
    assert(forall|b: bool, k: u32| k < 10 || (12 <= k < 16) ==> #[trigger] bit(b, k) & 0xfff0_0c00u32 == 0) by {
        assert(forall|k: u32| k < 10 || (12 <= k < 16) ==> (1u32 << k) & 0xfff0_0c00u32 == 0) by (bit_vector);
        assert(0u32 & 0xfff0_0c00u32 == 0) by (bit_vector);
    };
}

/// The values of the single bits that the packed word uses.
pub proof fn lemma_bit_values()
    ensures
        1u32 << 0u32 == 0x1,
        1u32 << 1u32 == 0x2,
        1u32 << 2u32 == 0x4,
        1u32 << 3u32 == 0x8,
        1u32 << 4u32 == 0x10,
        1u32 << 5u32 == 0x20,
        1u32 << 6u32 == 0x40,
        1u32 << 7u32 == 0x80,
        1u32 << 8u32 == 0x100,
        1u32 << 9u32 == 0x200,
        1u32 << 12u32 == 0x1000,
        1u32 << 13u32 == 0x2000,
        1u32 << 14u32 == 0x4000,
        1u32 << 15u32 == 0x8000,
{
    assert(1u32 << 0u32 == 0x1) by (bit_vector);
    assert(1u32 << 1u32 == 0x2) by (bit_vector);
    assert(1u32 << 2u32 == 0x4) by (bit_vector);
    assert(1u32 << 3u32 == 0x8) by (bit_vector);
    assert(1u32 << 4u32 == 0x10) by (bit_vector);
    assert(1u32 << 5u32 == 0x20) by (bit_vector);
    assert(1u32 << 6u32 == 0x40) by (bit_vector);
    assert(1u32 << 7u32 == 0x80) by (bit_vector);
    assert(1u32 << 8u32 == 0x100) by (bit_vector);
    assert(1u32 << 9u32 == 0x200) by (bit_vector);
    assert(1u32 << 12u32 == 0x1000) by (bit_vector);
    assert(1u32 << 13u32 == 0x2000) by (bit_vector);
    assert(1u32 << 14u32 == 0x4000) by (bit_vector);
    assert(1u32 << 15u32 == 0x8000) by (bit_vector);
}

proof fn lemma_bit(v: u32, k: u32)
    requires
        k < 32,
    ensures
        bit(has_bit(v, k), k) == v & (1u32 << k),
{
    assert((v >> k) & 1u32 != 0 ==> v & (1u32 << k) == 1u32 << k) by (bit_vector)
        requires
            k < 32,
    ;
    assert((v >> k) & 1u32 == 0 ==> v & (1u32 << k) == 0) by (bit_vector)
        requires
            k < 32,
    ;
}

/// Writing a word whose unused bits are clear and reading it back gives the same word.
pub proof fn lemma_psw_round_trip(v: u32)
    requires
        v & PSW_UNUSED_BITS == 0,
    ensures
        Psw::unpacked(v).packed() == v,
{
    lemma_bit(v, 0);
    lemma_bit(v, 1);
    lemma_bit(v, 2);
    lemma_bit(v, 3);
    lemma_bit(v, 4);
    lemma_bit(v, 5);
    lemma_bit(v, 6);
    lemma_bit(v, 7);
    lemma_bit(v, 8);
    lemma_bit(v, 9);
    lemma_bit(v, 12);
    lemma_bit(v, 13);
    lemma_bit(v, 14);
    lemma_bit(v, 15);
    assert((((v >> 16u32) & 0xfu32) << 16u32) as u32 == v & 0xf0000) by (bit_vector);
    assert(v & 0xfff0_0c00 == 0 ==> v == (v & (1u32 << 0u32)) | (v & (1u32 << 1u32))
        | (v & (1u32 << 2u32)) | (v & (1u32 << 3u32)) | (v & (1u32 << 4u32))
        | (v & (1u32 << 5u32)) | (v & (1u32 << 6u32)) | (v & (1u32 << 7u32))
        | (v & (1u32 << 8u32)) | (v & (1u32 << 9u32)) | (v & (1u32 << 12u32))
        | (v & (1u32 << 13u32)) | (v & (1u32 << 14u32)) | (v & (1u32 << 15u32))
        | (v & 0xf0000)) by (bit_vector);
}

} // verus!
