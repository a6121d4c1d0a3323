//! The processor status register `P` and its condition flags.

use vstd::prelude::*;

verus! {

/// Carry flag.
pub const FLAG_C: u8 = 0x01;

/// Zero flag.
pub const FLAG_Z: u8 = 0x02;

/// Interrupt-disable flag.
pub const FLAG_I: u8 = 0x04;

/// Decimal-mode flag.
pub const FLAG_D: u8 = 0x08;

/// Break marker, only meaningful in a pushed copy of the register.
pub const FLAG_B: u8 = 0x10;

/// The bit that has no function.
pub const FLAG_UNUSED: u8 = 0x20;

/// Overflow flag.
pub const FLAG_V: u8 = 0x40;

/// Negative flag.
pub const FLAG_N: u8 = 0x80;

/// True when `mask` names exactly one of the eight bits.
pub open spec fn single_bit(mask: u8) -> bool {
    mask == 0x01 || mask == 0x02 || mask == 0x04 || mask == 0x08 || mask == 0x10 || mask == 0x20
        || mask == 0x40 || mask == 0x80
}

/// `bits` with the bits of `mask` switched on or off.
pub open spec fn assign_bits(bits: u8, mask: u8, on: bool) -> u8 {
    if on {
        bits | mask
    } else {
        bits & !mask
    }
}

/// Assigning one bit leaves that bit with the assigned state and every
/// other bit as it was.
pub proof fn lemma_assign_bits(bits: u8, mask: u8, probe: u8, on: bool)
    requires
        single_bit(mask),
        single_bit(probe),
    ensures
        (assign_bits(bits, mask, on) & probe != 0) == (if probe == mask {
            on
        } else {
            bits & probe != 0
        }),
{
    assert(((bits | mask) & probe != 0) == (if probe == mask {
        true
    } else {
        bits & probe != 0
    }) && ((bits & !mask) & probe != 0) == (if probe == mask {
        false
    } else {
        bits & probe != 0
    })) by (bit_vector)
        requires
            mask == 0x01 || mask == 0x02 || mask == 0x04 || mask == 0x08 || mask == 0x10 || mask
                == 0x20 || mask == 0x40 || mask == 0x80,
            probe == 0x01 || probe == 0x02 || probe == 0x04 || probe == 0x08 || probe == 0x10
                || probe == 0x20 || probe == 0x40 || probe == 0x80,
    ;
}

/// The sign bit of a byte is set exactly when the byte is 128 or more.
pub proof fn lemma_sign_bit(val: u8)
    ensures
        (val & 0x80 != 0) == (val >= 128),
        val & 0x80 == (if val >= 128 { 0x80u8 } else { 0u8 }),
{
    assert((val & 0x80 != 0) == (val >= 128) && val & 0x80 == (if val >= 128 {
        0x80u8
    } else {
        0u8
    })) by (bit_vector);
}

/// The eight-bit status register. Bit 7 to bit 0: N V - B D I Z C.
#[derive(Clone, Copy, Debug, PartialEq, Eq, Structural)]
pub struct StatusRegister {
    pub value: u8,
}

#[allow(non_snake_case)]
impl StatusRegister {
    /// State of the flag (or any of the flags) selected by `mask`.
    pub open spec fn flag(self, mask: u8) -> bool {
        self.value & mask != 0
    }

    /// The register with the flag selected by `mask` set to `on`.
    pub open spec fn with_flag(self, mask: u8, on: bool) -> StatusRegister {
        StatusRegister { value: assign_bits(self.value, mask, on) }
    }

    /// The register after a result byte has been examined: Negative is
    /// the sign of the byte, Zero tells whether it is zero.
    pub open spec fn with_nz(self, val: u8) -> StatusRegister {
        self.with_flag(FLAG_N, val >= 128).with_flag(FLAG_Z, val == 0)
    }

    pub open spec fn carry(self) -> bool {
        self.flag(FLAG_C)
    }

    pub open spec fn zero(self) -> bool {
        self.flag(FLAG_Z)
    }

    pub open spec fn interrupt_disable(self) -> bool {
        self.flag(FLAG_I)
    }

    pub open spec fn decimal(self) -> bool {
        self.flag(FLAG_D)
    }

    pub open spec fn overflow(self) -> bool {
        self.flag(FLAG_V)
    }

    pub open spec fn negative(self) -> bool {
        self.flag(FLAG_N)
    }

    /// Sets one flag and proves nothing else moved.
    fn assign(&mut self, mask: u8, on: bool)
        ensures
            *final(self) == old(self).with_flag(mask, on),
    {
        if on {
            self.value = self.value | mask;
        } else {
            self.value = self.value & !mask;
        }
    }

    pub fn set_NZ(&mut self, val: u8)
        ensures
            *final(self) == old(self).with_nz(val),
    {
        self.assign(FLAG_N, val >= 128);
        self.assign(FLAG_Z, val == 0);
    }

    pub fn set_Z(&mut self, val: bool)
        ensures
            *final(self) == old(self).with_flag(FLAG_Z, val),
    {
        self.assign(FLAG_Z, val);
    }

    pub fn set_C(&mut self, val: bool)
        ensures
            *final(self) == old(self).with_flag(FLAG_C, val),
    {
        self.assign(FLAG_C, val);
    }

    pub fn set_D(&mut self, val: bool)
        ensures
            *final(self) == old(self).with_flag(FLAG_D, val),
    {
        self.assign(FLAG_D, val);
    }

    pub fn set_V(&mut self, val: bool)
        ensures
            *final(self) == old(self).with_flag(FLAG_V, val),
    {
        self.assign(FLAG_V, val);
    }

    pub fn set_I(&mut self, val: bool)
        ensures
            *final(self) == old(self).with_flag(FLAG_I, val),
    {
        self.assign(FLAG_I, val);
    }

    pub fn get_Z(&self) -> (set: bool)
        ensures
            set == self.zero(),
    {
        self.value & FLAG_Z != 0
    }

    pub fn get_N(&self) -> (set: bool)
        ensures
            set == self.negative(),
    {
        self.value & FLAG_N != 0
    }

    pub fn get_C(&self) -> (set: bool)
        ensures
            set == self.carry(),
    {
        self.value & FLAG_C != 0
    }

    pub fn get_D(&self) -> (set: bool)
        ensures
            set == self.decimal(),
    {
        self.value & FLAG_D != 0
    }

    pub fn get_V(&self) -> (set: bool)
        ensures
            set == self.overflow(),
    {
        self.value & FLAG_V != 0
    }

    pub fn get_I(&self) -> (set: bool)
        ensures
            set == self.interrupt_disable(),
    {
        self.value & FLAG_I != 0
    }

    /// The register is the sum of the weights of its set bits, so the
    /// flags of a known byte, and the byte of known flags, follow by
    /// arithmetic.
    pub proof fn lemma_flags_as_number(self)
        ensures
            self.value == (if self.negative() { 128int } else { 0 }) + (if self.overflow() {
                64int
            } else {
                0
            }) + (if self.flag(FLAG_UNUSED) { 32int } else { 0 }) + (if self.flag(FLAG_B) {
                16int
            } else {
                0
            }) + (if self.decimal() { 8int } else { 0 }) + (if self.interrupt_disable() {
                4int
            } else {
                0
            }) + (if self.zero() { 2int } else { 0 }) + (if self.carry() { 1int } else { 0 }),
    {
        let v = self.value;
        assert(v == (if v & 0x80 != 0 { 128u8 } else { 0 }) + (if v & 0x40 != 0 {
            64u8
        } else {
            0
        }) + (if v & 0x20 != 0 { 32u8 } else { 0 }) + (if v & 0x10 != 0 { 16u8 } else { 0 }) + (if v
            & 0x08 != 0 { 8u8 } else { 0 }) + (if v & 0x04 != 0 { 4u8 } else { 0 }) + (if v & 0x02
            != 0 { 2u8 } else { 0 }) + (if v & 0x01 != 0 { 1u8 } else { 0 })) by (bit_vector);
    }

    /// A flag reads back as it was last set, and setting one flag does
    /// not disturb another.
    pub proof fn lemma_flag_after_set(self, mask: u8, probe: u8, on: bool)
        requires
            single_bit(mask),
            single_bit(probe),
        ensures
            self.with_flag(mask, on).flag(probe) == (if probe == mask {
                on
            } else {
                self.flag(probe)
            }),
    {
        lemma_assign_bits(self.value, mask, probe, on);
    }

    /// After a result byte has been examined, Negative is bit 7 of the
    /// byte, Zero tells whether the byte is zero, and the other flags
    /// are untouched.
    pub proof fn lemma_flags_after_nz(self, val: u8)
        ensures
            self.with_nz(val).negative() == (val & 0x80 != 0),
            self.with_nz(val).negative() == (val >= 128),
            self.with_nz(val).zero() == (val == 0),
            self.with_nz(val).carry() == self.carry(),
            self.with_nz(val).overflow() == self.overflow(),
            self.with_nz(val).decimal() == self.decimal(),
            self.with_nz(val).interrupt_disable() == self.interrupt_disable(),
    {
        let n = self.with_flag(FLAG_N, val >= 128);
        lemma_sign_bit(val);
        self.lemma_flag_after_set(FLAG_N, FLAG_N, val >= 128);
        self.lemma_flag_after_set(FLAG_N, FLAG_C, val >= 128);
        self.lemma_flag_after_set(FLAG_N, FLAG_V, val >= 128);
        self.lemma_flag_after_set(FLAG_N, FLAG_D, val >= 128);
        self.lemma_flag_after_set(FLAG_N, FLAG_I, val >= 128);
        n.lemma_flag_after_set(FLAG_Z, FLAG_N, val == 0);
        n.lemma_flag_after_set(FLAG_Z, FLAG_Z, val == 0);
        n.lemma_flag_after_set(FLAG_Z, FLAG_C, val == 0);
        n.lemma_flag_after_set(FLAG_Z, FLAG_V, val == 0);
        n.lemma_flag_after_set(FLAG_Z, FLAG_D, val == 0);
        n.lemma_flag_after_set(FLAG_Z, FLAG_I, val == 0);
    }
}

} // verus!
