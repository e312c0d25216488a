//! The top-level instruction class: bits 27..25, with bit 4 telling the two
//! classes apart that share code `0b011`.
use vstd::prelude::*;

use crate::bitfield::overlay;

verus! {

/// The top-level category of an instruction.
#[derive(Debug, Clone, Copy, PartialEq, Eq)]
pub enum InstructionClasses {
    DataProcessing,
    LoadStore,
    LoadStoreM,
    Media,
    Branch,
    SupervisorCall,
}

/// The class field, bits 27..25.
pub open spec fn class_field(w: u32) -> u32 {
    (w >> 25) & 0b111
}

/// The bit that splits class code `0b011`, bit 4.
pub open spec fn class_split_bit(w: u32) -> u32 {
    (w >> 4) & 1
}

/// The class of a word:
/// `000`, `001` data processing; `010` load/store; `011` with bit 4 clear
/// load/store multiple, with bit 4 set media; `100`, `101` branch; `110`,
/// `111` supervisor call.
pub open spec fn class_of(w: u32) -> InstructionClasses {
    let op = class_field(w);
    if op <= 0b001 {
        InstructionClasses::DataProcessing
    } else if op == 0b010 {
        InstructionClasses::LoadStore
    } else if op == 0b011 {
        if class_split_bit(w) == 0 {
            InstructionClasses::LoadStoreM
        } else {
            InstructionClasses::Media
        }
    } else if op <= 0b101 {
        InstructionClasses::Branch
    } else {
        InstructionClasses::SupervisorCall
    }
}

/// The bits that encoding a class writes.
pub open spec fn class_mask(c: InstructionClasses) -> u32 {
    match c {
        InstructionClasses::DataProcessing => 0x0c00_0000,
        InstructionClasses::LoadStore => 0x0e00_0000,
        InstructionClasses::LoadStoreM => 0x0e00_0010,
        InstructionClasses::Media => 0x0e00_0010,
        InstructionClasses::Branch => 0x0c00_0000,
        InstructionClasses::SupervisorCall => 0x0c00_0000,
    }
}

/// The values that encoding a class writes into its mask.
pub open spec fn class_pattern(c: InstructionClasses) -> u32 {
    match c {
        InstructionClasses::DataProcessing => 0,
        InstructionClasses::LoadStore => 0x0400_0000,
        InstructionClasses::LoadStoreM => 0x0600_0000,
        InstructionClasses::Media => 0x0600_0010,
        InstructionClasses::Branch => 0x0800_0000,
        InstructionClasses::SupervisorCall => 0x0c00_0000,
    }
}

impl InstructionClasses {
    /// Writes the class code into `inst`, keeping every bit outside the
    /// class's mask.
    pub fn encode(self, inst: u32) -> (r: u32)
        ensures
            r == overlay(inst, class_mask(self), class_pattern(self)),
    {
        let (mask, pattern): (u32, u32) = match self {
            InstructionClasses::DataProcessing => (0x0c00_0000, 0),
            InstructionClasses::LoadStore => (0x0e00_0000, 0x0400_0000),
            InstructionClasses::LoadStoreM => (0x0e00_0010, 0x0600_0000),
            InstructionClasses::Media => (0x0e00_0010, 0x0600_0010),
            InstructionClasses::Branch => (0x0c00_0000, 0x0800_0000),
            InstructionClasses::SupervisorCall => (0x0c00_0000, 0x0c00_0000),
        };
        (inst & !mask) | pattern
    }

    /// Decodes the class of `inst`. Every word has a class.
    pub fn decode(inst: u32) -> (r: Option<Self>)
        ensures
            r == Some(class_of(inst)),
    {
        let op: u32 = (inst >> 25) & 0b111;
        let op1: u32 = (inst >> 4) & 1;
        if op <= 0b001 {
            Some(InstructionClasses::DataProcessing)
        } else if op == 0b010 {
            Some(InstructionClasses::LoadStore)
        } else if op == 0b011 {
            if op1 == 0 {
                Some(InstructionClasses::LoadStoreM)
            } else {
                Some(InstructionClasses::Media)
            }
        } else if op <= 0b101 {
            Some(InstructionClasses::Branch)
        } else {
            Some(InstructionClasses::SupervisorCall)
        }
    }
}

/// Encoding a class into any word and decoding the result gives the class
/// back.
pub proof fn lemma_class_round_trip(c: InstructionClasses, w: u32)
    ensures
        class_of(overlay(w, class_mask(c), class_pattern(c))) == c,
{
    match c {
        InstructionClasses::DataProcessing => {
            assert((((w & !0x0c00_0000u32) | 0) >> 25) & 0b111 <= 1) by (bit_vector);
        },
        InstructionClasses::LoadStore => {
            assert((((w & !0x0e00_0000u32) | 0x0400_0000) >> 25) & 0b111 == 2) by (bit_vector);
        },
        InstructionClasses::LoadStoreM => {
            assert((((w & !0x0e00_0010u32) | 0x0600_0000) >> 25) & 0b111 == 3) by (bit_vector);
            assert((((w & !0x0e00_0010u32) | 0x0600_0000) >> 4) & 1 == 0) by (bit_vector);
        },
        InstructionClasses::Media => {
            assert((((w & !0x0e00_0010u32) | 0x0600_0010) >> 25) & 0b111 == 3) by (bit_vector);
            assert((((w & !0x0e00_0010u32) | 0x0600_0010) >> 4) & 1 == 1) by (bit_vector);
        },
        InstructionClasses::Branch => {
            let op = (((w & !0x0c00_0000u32) | 0x0800_0000) >> 25) & 0b111;
            assert(4 <= op <= 5) by (bit_vector)
                requires op == (((w & !0x0c00_0000u32) | 0x0800_0000) >> 25) & 0b111;
        },
        InstructionClasses::SupervisorCall => {
            assert((((w & !0x0c00_0000u32) | 0x0c00_0000) >> 25) & 0b111 >= 6) by (bit_vector);
        },
    }
}

} // verus!
