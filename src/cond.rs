//! The 4-bit condition field in bits 31..28 of an instruction word.
use vstd::prelude::*;

verus! {

/// The condition under which an instruction executes. Code `0b1111` is
/// reserved and names no condition.
#[derive(Debug, Clone, Copy, PartialEq, Eq)]
pub enum Condition {
    /// Z set: equal.
    EQ,
    /// Z clear: not equal.
    NE,
    /// C set: unsigned greater or equal.
    CS,
    /// C clear: unsigned less.
    CC,
    /// N set: negative.
    MI,
    /// N clear: positive or zero.
    PL,
    /// V set: overflow.
    VS,
    /// V clear: no overflow.
    VC,
    /// C set and Z clear: unsigned greater.
    HI,
    /// C clear or Z set: unsigned less or equal.
    LS,
    /// N equals V: signed greater or equal.
    GE,
    /// N differs from V: signed less.
    LT,
    /// Z clear and N equals V: signed greater.
    GT,
    /// Z set or N differs from V: signed less or equal.
    LE,
    /// Always.
    AL,
}

/// The 4-bit code of each condition.
pub open spec fn cond_code(c: Condition) -> u8 {
    match c {
        Condition::EQ => 0b0000,
        Condition::NE => 0b0001,
        Condition::CS => 0b0010,
        Condition::CC => 0b0011,
        Condition::MI => 0b0100,
        Condition::PL => 0b0101,
        Condition::VS => 0b0110,
        Condition::VC => 0b0111,
        Condition::HI => 0b1000,
        Condition::LS => 0b1001,
        Condition::GE => 0b1010,
        Condition::LT => 0b1011,
        Condition::GT => 0b1100,
        Condition::LE => 0b1101,
        Condition::AL => 0b1110,
    }
}

/// The condition field of a word.
pub open spec fn cond_field(w: u32) -> u32 {
    w >> 28
}

/// `r` is what the condition field of `w` decodes to: the condition with that
/// code, or nothing for the reserved code.
pub open spec fn decodes_condition(w: u32, r: Option<Condition>) -> bool {
    match r {
        Some(c) => cond_code(c) as u32 == cond_field(w),
        None => cond_field(w) == 0b1111,
    }
}

/// `w` with its condition field replaced by the code of `c`.
pub open spec fn with_condition(c: Condition, w: u32) -> u32 {
    (w & 0x0fff_ffff) | ((cond_code(c) as u32) << 28)
}

impl Condition {
    /// Decodes the condition field (bits 31..28) of `instruction`; the
    /// reserved code `0b1111` gives `None`.
    pub fn decode(instruction: u32) -> (r: Option<Self>)
        ensures
            decodes_condition(instruction, r),
    {
        let cond: u32 = instruction >> 28;
        assert(cond < 16) by (bit_vector)
            requires cond == instruction >> 28;
        match cond {
            0b0000 => Some(Condition::EQ),
            0b0001 => Some(Condition::NE),
            0b0010 => Some(Condition::CS),
            0b0011 => Some(Condition::CC),
            0b0100 => Some(Condition::MI),
            0b0101 => Some(Condition::PL),
            0b0110 => Some(Condition::VS),
            0b0111 => Some(Condition::VC),
            0b1000 => Some(Condition::HI),
            0b1001 => Some(Condition::LS),
            0b1010 => Some(Condition::GE),
            0b1011 => Some(Condition::LT),
            0b1100 => Some(Condition::GT),
            0b1101 => Some(Condition::LE),
            0b1110 => Some(Condition::AL),
            _ => None,
        }
    }

    /// The 4-bit code of the condition.
    pub fn encode(self) -> (r: u8)
        ensures
            r == cond_code(self),
    {
        match self {
            Condition::EQ => 0b0000,
            Condition::NE => 0b0001,
            Condition::CS => 0b0010,
            Condition::CC => 0b0011,
            Condition::MI => 0b0100,
            Condition::PL => 0b0101,
            Condition::VS => 0b0110,
            Condition::VC => 0b0111,
            Condition::HI => 0b1000,
            Condition::LS => 0b1001,
            Condition::GE => 0b1010,
            Condition::LT => 0b1011,
            Condition::GT => 0b1100,
            Condition::LE => 0b1101,
            Condition::AL => 0b1110,
        }
    }

    /// Writes the code of the condition into bits 31..28 of `inst`, keeping
    /// every other bit.
    pub fn write_into(self, inst: u32) -> (r: u32)
        ensures
            r == with_condition(self, inst),
    {
        let code = self.encode() as u32;
        (inst & 0x0fff_ffff) | (code << 28)
    }
}

proof fn lemma_condition_field(c: Condition, w: u32)
    ensures
        cond_field(with_condition(c, w)) == cond_code(c) as u32,
        with_condition(c, w) & 0x0fff_ffff == w & 0x0fff_ffff,
{
    let code = cond_code(c) as u32;
    assert(code < 16);
    assert(((w & 0x0fff_ffff) | (code << 28)) >> 28 == code) by (bit_vector)
        requires code < 16;
    assert(((w & 0x0fff_ffff) | (code << 28)) & 0x0fff_ffff == w & 0x0fff_ffff) by (bit_vector)
        requires code < 16;
}

/// Writing the code of a condition into any word and decoding that word's
/// condition field gives the condition back.
pub proof fn lemma_condition_round_trip(c: Condition, w: u32, r: Option<Condition>)
    requires
        decodes_condition(with_condition(c, w), r),
    ensures
        r == Some(c),
{
    lemma_condition_field(c, w);
}

} // verus!
