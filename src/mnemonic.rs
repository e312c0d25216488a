//! Mnemonic resolution: the condition, class and sub-form decoders combined
//! with the opcode, transfer and link bits into one named operation, and the
//! encoder that composes a word from a mnemonic and its operand bits.
use vstd::prelude::*;

use crate::bitfield::{bit, overlay};
use crate::class::{class_field, class_mask, class_of, class_pattern, InstructionClasses};
use crate::cond::{cond_field, Condition};
use crate::subform::{
    form_mask, form_matches, form_pattern, is_immediate, is_register, is_register_shifted,
    DataProcessing,
};

verus! {

/// A decoded instruction.
#[derive(Debug, Clone, Copy, PartialEq, Eq)]
pub enum InstructionSet {
    /// Logical AND: `Rd = Rn & Operand2`.
    And,
    /// Exclusive OR: `Rd = Rn ^ Operand2`.
    Eor,
    /// Subtract: `Rd = Rn - Operand2`.
    Sub,
    /// Reverse subtract: `Rd = Operand2 - Rn`.
    Rsb,
    /// Add: `Rd = Rn + Operand2`.
    Add,
    /// Add with carry.
    Adc,
    /// Subtract with carry.
    Sbc,
    /// Reverse subtract with carry.
    Rsc,
    /// Flags from `Rn & Operand2`.
    Tst,
    /// Flags from `Rn ^ Operand2`.
    Teq,
    /// Flags from `Rn - Operand2`.
    Cmp,
    /// Flags from `Rn + Operand2`.
    Cmn,
    /// Bitwise OR: `Rd = Rn | Operand2`.
    Orr,
    /// Move: `Rd = Operand2`.
    Mov,
    /// Bit clear: `Rd = Rn & !Operand2`.
    Bic,
    /// Move NOT: `Rd = !Operand2`.
    Mvn,
    /// Load word.
    Ldr,
    /// Store word.
    Str,
    /// Load byte.
    Ldrb,
    /// Store byte.
    Strb,
    /// Branch.
    B,
    /// Branch with link.
    Bl,
    /// Software interrupt; the low 24 bits are its immediate.
    Swi,
    /// A word that names none of the operations above, kept whole.
    Undefined(u32),
}

/// The arithmetic, logical, test and move mnemonic of each 4-bit opcode.
pub open spec fn alu_mnemonic(code: u32) -> InstructionSet {
    if code == 0 {
        InstructionSet::And
    } else if code == 1 {
        InstructionSet::Eor
    } else if code == 2 {
        InstructionSet::Sub
    } else if code == 3 {
        InstructionSet::Rsb
    } else if code == 4 {
        InstructionSet::Add
    } else if code == 5 {
        InstructionSet::Adc
    } else if code == 6 {
        InstructionSet::Sbc
    } else if code == 7 {
        InstructionSet::Rsc
    } else if code == 8 {
        InstructionSet::Tst
    } else if code == 9 {
        InstructionSet::Teq
    } else if code == 10 {
        InstructionSet::Cmp
    } else if code == 11 {
        InstructionSet::Cmn
    } else if code == 12 {
        InstructionSet::Orr
    } else if code == 13 {
        InstructionSet::Mov
    } else if code == 14 {
        InstructionSet::Bic
    } else {
        InstructionSet::Mvn
    }
}

/// The 4-bit opcode of each arithmetic, logical, test and move mnemonic.
pub open spec fn alu_opcode(m: InstructionSet) -> Option<u32> {
    match m {
        InstructionSet::And => Some(0),
        InstructionSet::Eor => Some(1),
        InstructionSet::Sub => Some(2),
        InstructionSet::Rsb => Some(3),
        InstructionSet::Add => Some(4),
        InstructionSet::Adc => Some(5),
        InstructionSet::Sbc => Some(6),
        InstructionSet::Rsc => Some(7),
        InstructionSet::Tst => Some(8),
        InstructionSet::Teq => Some(9),
        InstructionSet::Cmp => Some(10),
        InstructionSet::Cmn => Some(11),
        InstructionSet::Orr => Some(12),
        InstructionSet::Mov => Some(13),
        InstructionSet::Bic => Some(14),
        InstructionSet::Mvn => Some(15),
        _ => None,
    }
}

/// The opcode field, bits 24..21.
pub open spec fn opcode_field(w: u32) -> u32 {
    (w >> 21) & 0xf
}

/// The data-processing sub-forms that carry an opcode: register,
/// register-shifted register and immediate.
pub open spec fn has_opcode(w: u32) -> bool {
    ||| form_matches(DataProcessing::DataProcessingRegister, w)
    ||| form_matches(DataProcessing::DataProcessingRegisterShifted, w)
    ||| form_matches(DataProcessing::DataProcessingImmediate, w)
}

/// The load/store mnemonic for the load bit (20) and the byte bit (22).
pub open spec fn transfer_mnemonic(load: bool, byte: bool) -> InstructionSet {
    if load {
        if byte {
            InstructionSet::Ldrb
        } else {
            InstructionSet::Ldr
        }
    } else {
        if byte {
            InstructionSet::Strb
        } else {
            InstructionSet::Str
        }
    }
}

/// The mnemonic of a word. A word with the reserved condition, or whose class
/// or sub-form carries no mnemonic, is `Undefined` with the word itself.
pub open spec fn mnemonic_of(w: u32) -> InstructionSet {
    if cond_field(w) == 0b1111 {
        InstructionSet::Undefined(w)
    } else {
        match class_of(w) {
            InstructionClasses::DataProcessing => if has_opcode(w) {
                alu_mnemonic(opcode_field(w))
            } else {
                InstructionSet::Undefined(w)
            },
            InstructionClasses::LoadStore => transfer_mnemonic(bit(w, 20), bit(w, 22)),
            InstructionClasses::Branch => if bit(w, 24) {
                InstructionSet::Bl
            } else {
                InstructionSet::B
            },
            InstructionClasses::SupervisorCall => InstructionSet::Swi,
            _ => InstructionSet::Undefined(w),
        }
    }
}

/// Opcode field mask, bits 24..21.
pub const OPCODE_MASK: u32 = 0x01e0_0000;

/// The flag-update bit, bit 20; also the load bit of a load/store.
pub const S_BIT: u32 = 0x0010_0000;

/// The byte bit of a load/store, bit 22.
pub const BYTE_BIT: u32 = 0x0040_0000;

/// The link bit of a branch, bit 24.
pub const LINK_BIT: u32 = 0x0100_0000;

/// The sub-form an opcode is encoded in, by the operand bits: immediate when
/// bit 25 is set, else register-shifted register when bit 4 is set, else
/// register.
pub open spec fn alu_form(ops: u32) -> DataProcessing {
    if bit(ops, 25) {
        DataProcessing::DataProcessingImmediate
    } else if bit(ops, 4) {
        DataProcessing::DataProcessingRegisterShifted
    } else {
        DataProcessing::DataProcessingRegister
    }
}

/// `w` with opcode `code` in bits 24..21; the four test opcodes also set the
/// flag-update bit, as they have no destination.
pub open spec fn with_opcode(w: u32, code: u32) -> u32 {
    let v = overlay(w, OPCODE_MASK, code << 21);
    if 8 <= code <= 11 {
        overlay(v, S_BIT, S_BIT)
    } else {
        v
    }
}

/// The word for an opcode over operand bits `ops`: data-processing class,
/// the sub-form chosen by the operands, the opcode.
pub open spec fn alu_word(ops: u32, code: u32) -> u32 {
    let c = InstructionClasses::DataProcessing;
    let f = alu_form(ops);
    with_opcode(overlay(overlay(ops, class_mask(c), class_pattern(c)), form_mask(f), form_pattern(f)), code)
}

/// The word for a load/store over operand bits `ops`, with `bits` the load and
/// byte bits.
pub open spec fn transfer_word(ops: u32, bits: u32) -> u32 {
    let c = InstructionClasses::LoadStore;
    overlay(overlay(ops, class_mask(c), class_pattern(c)), S_BIT | BYTE_BIT, bits)
}

/// The word for a branch over operand bits `ops`, with `link` the link bit.
pub open spec fn branch_word(ops: u32, link: u32) -> u32 {
    let c = InstructionClasses::Branch;
    overlay(overlay(ops, class_mask(c), class_pattern(c)), LINK_BIT, link)
}

/// The word that encoding `m` over operand bits `ops` gives. `Undefined`
/// gives the word it holds.
pub open spec fn encoded(m: InstructionSet, ops: u32) -> u32 {
    match m {
        InstructionSet::Ldr => transfer_word(ops, S_BIT),
        InstructionSet::Str => transfer_word(ops, 0),
        InstructionSet::Ldrb => transfer_word(ops, S_BIT | BYTE_BIT),
        InstructionSet::Strb => transfer_word(ops, BYTE_BIT),
        InstructionSet::B => branch_word(ops, 0),
        InstructionSet::Bl => branch_word(ops, LINK_BIT),
        InstructionSet::Swi => {
            let c = InstructionClasses::SupervisorCall;
            overlay(ops, class_mask(c), class_pattern(c))
        },
        InstructionSet::Undefined(w) => w,
        _ => match alu_opcode(m) {
            Some(code) => alu_word(ops, code),
            None => ops,
        },
    }
}

fn alu_from_opcode(code: u32) -> (m: InstructionSet)
    requires
        code < 16,
    ensures
        m == alu_mnemonic(code),
{
    match code {
        0 => InstructionSet::And,
        1 => InstructionSet::Eor,
        2 => InstructionSet::Sub,
        3 => InstructionSet::Rsb,
        4 => InstructionSet::Add,
        5 => InstructionSet::Adc,
        6 => InstructionSet::Sbc,
        7 => InstructionSet::Rsc,
        8 => InstructionSet::Tst,
        9 => InstructionSet::Teq,
        10 => InstructionSet::Cmp,
        11 => InstructionSet::Cmn,
        12 => InstructionSet::Orr,
        13 => InstructionSet::Mov,
        14 => InstructionSet::Bic,
        _ => InstructionSet::Mvn,
    }
}

fn opcode_of(m: InstructionSet) -> (r: Option<u32>)
    ensures
        r == alu_opcode(m),
{
    match m {
        InstructionSet::And => Some(0),
        InstructionSet::Eor => Some(1),
        InstructionSet::Sub => Some(2),
        InstructionSet::Rsb => Some(3),
        InstructionSet::Add => Some(4),
        InstructionSet::Adc => Some(5),
        InstructionSet::Sbc => Some(6),
        InstructionSet::Rsc => Some(7),
        InstructionSet::Tst => Some(8),
        InstructionSet::Teq => Some(9),
        InstructionSet::Cmp => Some(10),
        InstructionSet::Cmn => Some(11),
        InstructionSet::Orr => Some(12),
        InstructionSet::Mov => Some(13),
        InstructionSet::Bic => Some(14),
        InstructionSet::Mvn => Some(15),
        _ => None,
    }
}

impl InstructionSet {
    /// Decodes `inst` into its mnemonic: condition, then class, then
    /// sub-form, then the opcode, load/store or link bits. Total: a word
    /// that no stage recognises gives `Undefined(inst)`.
    pub fn decode(inst: u32) -> (r: InstructionSet)
        ensures
            r == mnemonic_of(inst),
    {
        match Condition::decode(inst) {
            None => {
                return InstructionSet::Undefined(inst);
            },
            Some(_) => {},
        }
        match InstructionClasses::decode(inst) {
            Some(InstructionClasses::DataProcessing) => {
                let form = DataProcessing::decode(inst);
                proof {
                    assert(form_matches(DataProcessing::DataProcessingRegister, inst) <==> form
                        == Some(DataProcessing::DataProcessingRegister));
                    assert(form_matches(DataProcessing::DataProcessingRegisterShifted, inst)
                        <==> form == Some(DataProcessing::DataProcessingRegisterShifted));
                    assert(form_matches(DataProcessing::DataProcessingImmediate, inst) <==> form
                        == Some(DataProcessing::DataProcessingImmediate));
                }
                match form {
                    Some(DataProcessing::DataProcessingRegister)
                    | Some(DataProcessing::DataProcessingRegisterShifted)
                    | Some(DataProcessing::DataProcessingImmediate) => {
                        let code = (inst >> 21) & 0xf;
                        assert(code < 16) by (bit_vector)
                            requires code == (inst >> 21) & 0xf;
                        alu_from_opcode(code)
                    },
                    _ => InstructionSet::Undefined(inst),
                }
            },
            Some(InstructionClasses::LoadStore) => {
                let load = (inst >> 20) & 1 == 1;
                let byte = (inst >> 22) & 1 == 1;
                if load {
                    if byte {
                        InstructionSet::Ldrb
                    } else {
                        InstructionSet::Ldr
                    }
                } else {
                    if byte {
                        InstructionSet::Strb
                    } else {
                        InstructionSet::Str
                    }
                }
            },
            Some(InstructionClasses::Branch) => {
                if (inst >> 24) & 1 == 1 {
                    InstructionSet::Bl
                } else {
                    InstructionSet::B
                }
            },
            Some(InstructionClasses::SupervisorCall) => InstructionSet::Swi,
            _ => InstructionSet::Undefined(inst),
        }
    }

    /// Encodes the mnemonic over `operands`: writes its class, sub-form and
    /// opcode, load/store or link bits, and keeps every other bit of
    /// `operands` (condition, registers, immediates). `Undefined` gives the
    /// word it holds.
    pub fn encode(self, operands: u32) -> (r: u32)
        ensures
            r == encoded(self, operands),
    {
        match self {
            InstructionSet::Ldr => Self::transfer(operands, S_BIT),
            InstructionSet::Str => Self::transfer(operands, 0),
            InstructionSet::Ldrb => Self::transfer(operands, S_BIT | BYTE_BIT),
            InstructionSet::Strb => Self::transfer(operands, BYTE_BIT),
            InstructionSet::B => Self::branch(operands, 0),
            InstructionSet::Bl => Self::branch(operands, LINK_BIT),
            InstructionSet::Swi => InstructionClasses::SupervisorCall.encode(operands),
            InstructionSet::Undefined(w) => w,
            _ => match opcode_of(self) {
                Some(code) => {
                    let form = if (operands >> 25) & 1 == 1 {
                        DataProcessing::DataProcessingImmediate
                    } else if (operands >> 4) & 1 == 1 {
                        DataProcessing::DataProcessingRegisterShifted
                    } else {
                        DataProcessing::DataProcessingRegister
                    };
                    let w = InstructionClasses::DataProcessing.encode(operands);
                    let w = form.encode(w);
                    let w = (w & !OPCODE_MASK) | (code << 21);
                    if 8 <= code && code <= 11 {
                        (w & !S_BIT) | S_BIT
                    } else {
                        w
                    }
                },
                None => operands,
            },
        }
    }

    fn transfer(operands: u32, bits: u32) -> (r: u32)
        ensures
            r == transfer_word(operands, bits),
    {
        let w = InstructionClasses::LoadStore.encode(operands);
        (w & !(S_BIT | BYTE_BIT)) | bits
    }

    fn branch(operands: u32, link: u32) -> (r: u32)
        ensures
            r == branch_word(operands, link),
    {
        let w = InstructionClasses::Branch.encode(operands);
        (w & !LINK_BIT) | link
    }
}

/// The condition field of `w` is that of `ops`, its class field is a
/// data-processing code, and its opcode field holds `code`.
spec fn alu_fields(ops: u32, w: u32, code: u32) -> bool {
    cond_field(w) == cond_field(ops) && class_field(w) <= 1 && opcode_field(w) == code
}

proof fn lemma_alu_fields(ops: u32, code: u32)
    by (bit_vector)
    requires
        code < 16,
    ensures
        alu_fields(ops, with_opcode(overlay(overlay(ops, 0x0c00_0000, 0), 0x0200_0000, 0x0200_0000), code), code),
        is_immediate(with_opcode(overlay(overlay(ops, 0x0c00_0000, 0), 0x0200_0000, 0x0200_0000), code)),
        alu_fields(ops, with_opcode(overlay(overlay(ops, 0x0c00_0000, 0), 0x0200_0090, 0x10), code), code),
        is_register_shifted(with_opcode(overlay(overlay(ops, 0x0c00_0000, 0), 0x0200_0090, 0x10), code)),
        alu_fields(ops, with_opcode(overlay(overlay(ops, 0x0c00_0000, 0), 0x0200_0010, 0), code), code),
        is_register(with_opcode(overlay(overlay(ops, 0x0c00_0000, 0), 0x0200_0010, 0), code)),
{
}

/// The condition field of `w` is that of `ops`, its class field is the
/// load/store code, and its load and byte bits are `load` and `byte`.
spec fn transfer_fields(ops: u32, w: u32, load: bool, byte: bool) -> bool {
    cond_field(w) == cond_field(ops) && class_field(w) == 0b010 && bit(w, 20) == load && bit(w, 22) == byte
}

proof fn lemma_transfer_fields(ops: u32)
    by (bit_vector)
    ensures
        transfer_fields(ops, overlay(overlay(ops, 0x0e00_0000, 0x0400_0000), S_BIT | BYTE_BIT, S_BIT), true, false),
        transfer_fields(ops, overlay(overlay(ops, 0x0e00_0000, 0x0400_0000), S_BIT | BYTE_BIT, 0), false, false),
        transfer_fields(ops, overlay(overlay(ops, 0x0e00_0000, 0x0400_0000), S_BIT | BYTE_BIT, S_BIT | BYTE_BIT), true, true),
        transfer_fields(ops, overlay(overlay(ops, 0x0e00_0000, 0x0400_0000), S_BIT | BYTE_BIT, BYTE_BIT), false, true),
{
}

/// The condition field of `w` is that of `ops`, its class field is a branch
/// code, and its link bit is `link`.
spec fn branch_fields(ops: u32, w: u32, link: bool) -> bool {
    cond_field(w) == cond_field(ops) && 4 <= class_field(w) <= 5 && bit(w, 24) == link
}

proof fn lemma_branch_fields(ops: u32)
    by (bit_vector)
    ensures
        branch_fields(ops, overlay(overlay(ops, 0x0c00_0000, 0x0800_0000), LINK_BIT, 0), false),
        branch_fields(ops, overlay(overlay(ops, 0x0c00_0000, 0x0800_0000), LINK_BIT, LINK_BIT), true),
        cond_field(overlay(ops, 0x0c00_0000, 0x0c00_0000)) == cond_field(ops),
        class_field(overlay(ops, 0x0c00_0000, 0x0c00_0000)) >= 6,
{
}

/// Encoding any mnemonic but `Undefined` over operand bits whose condition
/// field is not the reserved code, then decoding the word, gives the
/// mnemonic back.
pub proof fn lemma_instruction_round_trip(m: InstructionSet, ops: u32)
    requires
        !(m is Undefined),
        cond_field(ops) != 0b1111,
    ensures
        mnemonic_of(encoded(m, ops)) == m,
{
    match alu_opcode(m) {
        Some(code) => {
            lemma_alu_fields(ops, code);
        },
        None => {
            lemma_transfer_fields(ops);
            lemma_branch_fields(ops);
        },
    }
}

} // verus!
