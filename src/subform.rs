//! The sub-forms of the data-processing class, told apart by three fields of
//! the word: `op` (bit 25), `op1` (bits 24..20) and `op2` (bits 7..4).
use vstd::prelude::*;

use crate::bitfield::overlay;

verus! {

/// The sub-forms of the data-processing class. The key of each is given as
/// `op op1 op2`, with `x` for a bit that does not matter.
#[derive(Debug, Clone, Copy, PartialEq, Eq)]
pub enum DataProcessing {
    /// `0`, op1 not `10xx0`, op2 `xxx0`.
    DataProcessingRegister,
    /// `0`, op1 not `10xx0`, op2 `0xx1`.
    DataProcessingRegisterShifted,
    /// `0`, op1 `10xx0`, op2 `0xxx`.
    MiscInstructions,
    /// `0`, op1 `10xx0`, op2 `1xx0`.
    HalfwordMultiply,
    /// `0`, op1 `0xxxx`, op2 `1001`.
    MultiplyAccumulate,
    /// `0`, op1 `1xxxx`, op2 `1001`.
    SyncPrimitives,
    /// `0`, op1 not `0xx1x`, op2 `1011` or `11x1`.
    ExtraLoadStore,
    /// `0`, op1 `0xx1x`, op2 `1011` or `11x1`.
    ExtraLoadStoreUnpriv,
    /// `1`, op1 not `10xx0`.
    DataProcessingImmediate,
    /// `1`, op1 `10000`.
    MovImmediate16,
    /// `1`, op1 `10100`.
    MovTImmediate16,
    /// `1`, op1 `10x10`.
    MSRImmediateHints,
}

/// Field `op`, bit 25.
pub open spec fn dp_op(w: u32) -> u32 {
    (w >> 25) & 1
}

/// Field `op1`, bits 24..20.
pub open spec fn dp_op1(w: u32) -> u32 {
    (w >> 20) & 0x1f
}

/// Field `op2`, bits 7..4.
pub open spec fn dp_op2(w: u32) -> u32 {
    (w >> 4) & 0xf
}

/// op1 is `10xx0`.
pub open spec fn op1_is_10xx0(w: u32) -> bool {
    dp_op1(w) & 0b11001 == 0b10000
}

/// op1 is `0xx1x`.
pub open spec fn op1_is_0xx1x(w: u32) -> bool {
    dp_op1(w) & 0b10010 == 0b00010
}

/// op2 is `1011` or `11x1`.
pub open spec fn op2_is_extra(w: u32) -> bool {
    dp_op2(w) == 0b1011 || dp_op2(w) & 0b1101 == 0b1101
}

pub open spec fn is_register(w: u32) -> bool {
    dp_op(w) == 0 && !op1_is_10xx0(w) && dp_op2(w) & 0b0001 == 0
}

pub open spec fn is_register_shifted(w: u32) -> bool {
    dp_op(w) == 0 && !op1_is_10xx0(w) && dp_op2(w) & 0b1001 == 0b0001
}

pub open spec fn is_misc(w: u32) -> bool {
    dp_op(w) == 0 && op1_is_10xx0(w) && dp_op2(w) & 0b1000 == 0
}

pub open spec fn is_halfword_multiply(w: u32) -> bool {
    dp_op(w) == 0 && op1_is_10xx0(w) && dp_op2(w) & 0b1001 == 0b1000
}

pub open spec fn is_multiply_accumulate(w: u32) -> bool {
    dp_op(w) == 0 && dp_op1(w) & 0b10000 == 0 && dp_op2(w) == 0b1001
}

pub open spec fn is_sync(w: u32) -> bool {
    dp_op(w) == 0 && dp_op1(w) & 0b10000 == 0b10000 && dp_op2(w) == 0b1001
}

pub open spec fn is_extra_load_store(w: u32) -> bool {
    dp_op(w) == 0 && !op1_is_0xx1x(w) && op2_is_extra(w)
}

pub open spec fn is_extra_load_store_unpriv(w: u32) -> bool {
    dp_op(w) == 0 && op1_is_0xx1x(w) && op2_is_extra(w)
}

pub open spec fn is_immediate(w: u32) -> bool {
    dp_op(w) == 1 && !op1_is_10xx0(w)
}

pub open spec fn is_mov_immediate(w: u32) -> bool {
    dp_op(w) == 1 && dp_op1(w) == 0b10000
}

pub open spec fn is_movt_immediate(w: u32) -> bool {
    dp_op(w) == 1 && dp_op1(w) == 0b10100
}

pub open spec fn is_msr_immediate_hints(w: u32) -> bool {
    dp_op(w) == 1 && dp_op1(w) & 0b11011 == 0b10010
}

/// The key of sub-form `f` holds in `w`.
pub open spec fn form_matches(f: DataProcessing, w: u32) -> bool {
    match f {
        DataProcessing::DataProcessingRegister => is_register(w),
        DataProcessing::DataProcessingRegisterShifted => is_register_shifted(w),
        DataProcessing::MiscInstructions => is_misc(w),
        DataProcessing::HalfwordMultiply => is_halfword_multiply(w),
        DataProcessing::MultiplyAccumulate => is_multiply_accumulate(w),
        DataProcessing::SyncPrimitives => is_sync(w),
        DataProcessing::ExtraLoadStore => is_extra_load_store(w),
        DataProcessing::ExtraLoadStoreUnpriv => is_extra_load_store_unpriv(w),
        DataProcessing::DataProcessingImmediate => is_immediate(w),
        DataProcessing::MovImmediate16 => is_mov_immediate(w),
        DataProcessing::MovTImmediate16 => is_movt_immediate(w),
        DataProcessing::MSRImmediateHints => is_msr_immediate_hints(w),
    }
}

/// The bits that encoding a sub-form writes: the fixed bits of its key.
pub open spec fn form_mask(f: DataProcessing) -> u32 {
    match f {
        DataProcessing::DataProcessingRegister => 0x0200_0010,
        DataProcessing::DataProcessingRegisterShifted => 0x0200_0090,
        DataProcessing::MiscInstructions => 0x0390_0080,
        DataProcessing::HalfwordMultiply => 0x0390_0090,
        DataProcessing::MultiplyAccumulate => 0x0300_00f0,
        DataProcessing::SyncPrimitives => 0x0300_00f0,
        DataProcessing::ExtraLoadStore => 0x0200_00f0,
        DataProcessing::ExtraLoadStoreUnpriv => 0x0320_00f0,
        DataProcessing::DataProcessingImmediate => 0x0200_0000,
        DataProcessing::MovImmediate16 => 0x03f0_0000,
        DataProcessing::MovTImmediate16 => 0x03f0_0000,
        DataProcessing::MSRImmediateHints => 0x03b0_0000,
    }
}

/// The values that encoding a sub-form writes into its mask.
pub open spec fn form_pattern(f: DataProcessing) -> u32 {
    match f {
        DataProcessing::DataProcessingRegister => 0,
        DataProcessing::DataProcessingRegisterShifted => 0x0000_0010,
        DataProcessing::MiscInstructions => 0x0100_0000,
        DataProcessing::HalfwordMultiply => 0x0100_0080,
        DataProcessing::MultiplyAccumulate => 0x0000_0090,
        DataProcessing::SyncPrimitives => 0x0100_0090,
        DataProcessing::ExtraLoadStore => 0x0000_00b0,
        DataProcessing::ExtraLoadStoreUnpriv => 0x0020_00b0,
        DataProcessing::DataProcessingImmediate => 0x0200_0000,
        DataProcessing::MovImmediate16 => 0x0300_0000,
        DataProcessing::MovTImmediate16 => 0x0340_0000,
        DataProcessing::MSRImmediateHints => 0x0320_0000,
    }
}

/// The bits of `w` outside the mask of `f` do not fall in the part of the
/// key that `f` excludes (op1 `10xx0` for the register, register-shifted and
/// immediate forms, op1 `0xx1x` for extra load/store).
pub open spec fn form_admits(f: DataProcessing, w: u32) -> bool {
    match f {
        DataProcessing::DataProcessingRegister => !op1_is_10xx0(w),
        DataProcessing::DataProcessingRegisterShifted => !op1_is_10xx0(w),
        DataProcessing::ExtraLoadStore => !op1_is_0xx1x(w),
        DataProcessing::DataProcessingImmediate => !op1_is_10xx0(w),
        _ => true,
    }
}

/// Every word matches the key of one sub-form at least, and of two at most
/// when they are the same.
proof fn lemma_keys_partition(w: u32)
    by (bit_vector)
    ensures
        is_register(w) || is_register_shifted(w) || is_misc(w) || is_halfword_multiply(w)
            || is_multiply_accumulate(w) || is_sync(w) || is_extra_load_store(w)
            || is_extra_load_store_unpriv(w) || is_immediate(w) || is_mov_immediate(w)
            || is_movt_immediate(w) || is_msr_immediate_hints(w),
        is_register(w) ==> !is_register_shifted(w) && !is_misc(w) && !is_halfword_multiply(w)
            && !is_multiply_accumulate(w) && !is_sync(w) && !is_extra_load_store(w)
            && !is_extra_load_store_unpriv(w) && !is_immediate(w) && !is_mov_immediate(w)
            && !is_movt_immediate(w) && !is_msr_immediate_hints(w),
        is_register_shifted(w) ==> !is_misc(w) && !is_halfword_multiply(w)
            && !is_multiply_accumulate(w) && !is_sync(w) && !is_extra_load_store(w)
            && !is_extra_load_store_unpriv(w) && !is_immediate(w) && !is_mov_immediate(w)
            && !is_movt_immediate(w) && !is_msr_immediate_hints(w),
        is_misc(w) ==> !is_halfword_multiply(w) && !is_multiply_accumulate(w) && !is_sync(w)
            && !is_extra_load_store(w) && !is_extra_load_store_unpriv(w) && !is_immediate(w)
            && !is_mov_immediate(w) && !is_movt_immediate(w) && !is_msr_immediate_hints(w),
        is_halfword_multiply(w) ==> !is_multiply_accumulate(w) && !is_sync(w)
            && !is_extra_load_store(w) && !is_extra_load_store_unpriv(w) && !is_immediate(w)
            && !is_mov_immediate(w) && !is_movt_immediate(w) && !is_msr_immediate_hints(w),
        is_multiply_accumulate(w) ==> !is_sync(w) && !is_extra_load_store(w)
            && !is_extra_load_store_unpriv(w) && !is_immediate(w) && !is_mov_immediate(w)
            && !is_movt_immediate(w) && !is_msr_immediate_hints(w),
        is_sync(w) ==> !is_extra_load_store(w) && !is_extra_load_store_unpriv(w)
            && !is_immediate(w) && !is_mov_immediate(w) && !is_movt_immediate(w)
            && !is_msr_immediate_hints(w),
        is_extra_load_store(w) ==> !is_extra_load_store_unpriv(w) && !is_immediate(w)
            && !is_mov_immediate(w) && !is_movt_immediate(w) && !is_msr_immediate_hints(w),
        is_extra_load_store_unpriv(w) ==> !is_immediate(w) && !is_mov_immediate(w)
            && !is_movt_immediate(w) && !is_msr_immediate_hints(w),
        is_immediate(w) ==> !is_mov_immediate(w) && !is_movt_immediate(w)
            && !is_msr_immediate_hints(w),
        is_mov_immediate(w) ==> !is_movt_immediate(w) && !is_msr_immediate_hints(w),
        is_movt_immediate(w) ==> !is_msr_immediate_hints(w),
{
}

/// No word matches the keys of two different sub-forms.
pub proof fn lemma_subforms_disjoint(w: u32, f: DataProcessing, g: DataProcessing)
    requires
        form_matches(f, w),
        form_matches(g, w),
    ensures
        f == g,
{
    lemma_keys_partition(w);
}

/// Every word matches the key of some sub-form.
pub proof fn lemma_subforms_cover(w: u32)
    ensures
        exists|f: DataProcessing| #[trigger] form_matches(f, w),
{
    lemma_keys_partition(w);
    if is_register(w) {
        assert(form_matches(DataProcessing::DataProcessingRegister, w));
    } else if is_register_shifted(w) {
        assert(form_matches(DataProcessing::DataProcessingRegisterShifted, w));
    } else if is_misc(w) {
        assert(form_matches(DataProcessing::MiscInstructions, w));
    } else if is_halfword_multiply(w) {
        assert(form_matches(DataProcessing::HalfwordMultiply, w));
    } else if is_multiply_accumulate(w) {
        assert(form_matches(DataProcessing::MultiplyAccumulate, w));
    } else if is_sync(w) {
        assert(form_matches(DataProcessing::SyncPrimitives, w));
    } else if is_extra_load_store(w) {
        assert(form_matches(DataProcessing::ExtraLoadStore, w));
    } else if is_extra_load_store_unpriv(w) {
        assert(form_matches(DataProcessing::ExtraLoadStoreUnpriv, w));
    } else if is_immediate(w) {
        assert(form_matches(DataProcessing::DataProcessingImmediate, w));
    } else if is_mov_immediate(w) {
        assert(form_matches(DataProcessing::MovImmediate16, w));
    } else if is_movt_immediate(w) {
        assert(form_matches(DataProcessing::MovTImmediate16, w));
    } else {
        assert(form_matches(DataProcessing::MSRImmediateHints, w));
    }
}

impl DataProcessing {
    /// Writes the fixed bits of the sub-form's key into `inst`, keeping every
    /// bit outside the sub-form's mask.
    pub fn encode(self, inst: u32) -> (r: u32)
        ensures
            r == overlay(inst, form_mask(self), form_pattern(self)),
    {
        let (mask, pattern): (u32, u32) = match self {
            DataProcessing::DataProcessingRegister => (0x0200_0010, 0),
            DataProcessing::DataProcessingRegisterShifted => (0x0200_0090, 0x0000_0010),
            DataProcessing::MiscInstructions => (0x0390_0080, 0x0100_0000),
            DataProcessing::HalfwordMultiply => (0x0390_0090, 0x0100_0080),
            DataProcessing::MultiplyAccumulate => (0x0300_00f0, 0x0000_0090),
            DataProcessing::SyncPrimitives => (0x0300_00f0, 0x0100_0090),
            DataProcessing::ExtraLoadStore => (0x0200_00f0, 0x0000_00b0),
            DataProcessing::ExtraLoadStoreUnpriv => (0x0320_00f0, 0x0020_00b0),
            DataProcessing::DataProcessingImmediate => (0x0200_0000, 0x0200_0000),
            DataProcessing::MovImmediate16 => (0x03f0_0000, 0x0300_0000),
            DataProcessing::MovTImmediate16 => (0x03f0_0000, 0x0340_0000),
            DataProcessing::MSRImmediateHints => (0x03b0_0000, 0x0320_0000),
        };
        (inst & !mask) | pattern
    }

    /// Decodes the sub-form of `inst` from its `op`, `op1` and `op2` fields:
    /// the one sub-form whose key the word matches.
    pub fn decode(inst: u32) -> (r: Option<Self>)
        ensures
            r is Some,
            forall|f: DataProcessing| #[trigger] form_matches(f, inst) <==> r == Some(f),
    {
        let op: u32 = (inst >> 25) & 1;
        let op1: u32 = (inst >> 20) & 0x1f;
        let op2: u32 = (inst >> 4) & 0xf;
        let op1_10xx0 = op1 & 0b11001 == 0b10000;
        let op1_0xx1x = op1 & 0b10010 == 0b00010;
        let op2_extra = op2 == 0b1011 || op2 & 0b1101 == 0b1101;
        proof {
            lemma_keys_partition(inst);
        }
        let r = if op == 0 {
            if !op1_10xx0 && op2 & 0b0001 == 0 {
                DataProcessing::DataProcessingRegister
            } else if !op1_10xx0 && op2 & 0b1001 == 0b0001 {
                DataProcessing::DataProcessingRegisterShifted
            } else if op1_10xx0 && op2 & 0b1000 == 0 {
                DataProcessing::MiscInstructions
            } else if op1_10xx0 && op2 & 0b1001 == 0b1000 {
                DataProcessing::HalfwordMultiply
            } else if op1 & 0b10000 == 0 && op2 == 0b1001 {
                DataProcessing::MultiplyAccumulate
            } else if op1 & 0b10000 == 0b10000 && op2 == 0b1001 {
                DataProcessing::SyncPrimitives
            } else if !op1_0xx1x && op2_extra {
                DataProcessing::ExtraLoadStore
            } else {
                DataProcessing::ExtraLoadStoreUnpriv
            }
        } else {
            if !op1_10xx0 {
                DataProcessing::DataProcessingImmediate
            } else if op1 == 0b10000 {
                DataProcessing::MovImmediate16
            } else if op1 == 0b10100 {
                DataProcessing::MovTImmediate16
            } else {
                DataProcessing::MSRImmediateHints
            }
        };
        proof {
            assert(op == 0 || op == 1) by (bit_vector)
                requires op == (inst >> 25) & 1;
            assert(form_matches(r, inst));
            assert forall|f: DataProcessing| #[trigger] form_matches(f, inst) implies r == f by {
                lemma_subforms_disjoint(inst, f, r);
            }
        }
        Some(r)
    }
}

/// Encoding a sub-form changes only the bits of its mask: every other bit of
/// the result is the bit of the input word.
pub proof fn lemma_subform_overlay(f: DataProcessing, w: u32)
    ensures
        overlay(w, form_mask(f), form_pattern(f)) & !form_mask(f) == w & !form_mask(f),
{
    let m = form_mask(f);
    let p = form_pattern(f);
    assert(p & !m == 0) by (bit_vector)
        requires
            (m == 0x0200_0010u32 && p == 0u32) || (m == 0x0200_0090u32 && p == 0x0000_0010u32)
                || (m == 0x0390_0080u32 && p == 0x0100_0000u32) || (m == 0x0390_0090u32 && p
                == 0x0100_0080u32) || (m == 0x0300_00f0u32 && p == 0x0000_0090u32) || (m
                == 0x0300_00f0u32 && p == 0x0100_0090u32) || (m == 0x0200_00f0u32 && p
                == 0x0000_00b0u32) || (m == 0x0320_00f0u32 && p == 0x0020_00b0u32) || (m
                == 0x0200_0000u32 && p == 0x0200_0000u32) || (m == 0x03f0_0000u32 && p
                == 0x0300_0000u32) || (m == 0x03f0_0000u32 && p == 0x0340_0000u32) || (m
                == 0x03b0_0000u32 && p == 0x0320_0000u32);
    assert(((w & !m) | p) & !m == w & !m) by (bit_vector)
        requires p & !m == 0;
}

proof fn lemma_patterns_match(w: u32)
    by (bit_vector)
    ensures
        !op1_is_10xx0(w) ==> is_register(overlay(w, 0x0200_0010, 0)),
        !op1_is_10xx0(w) ==> is_register_shifted(overlay(w, 0x0200_0090, 0x0000_0010)),
        is_misc(overlay(w, 0x0390_0080, 0x0100_0000)),
        is_halfword_multiply(overlay(w, 0x0390_0090, 0x0100_0080)),
        is_multiply_accumulate(overlay(w, 0x0300_00f0, 0x0000_0090)),
        is_sync(overlay(w, 0x0300_00f0, 0x0100_0090)),
        !op1_is_0xx1x(w) ==> is_extra_load_store(overlay(w, 0x0200_00f0, 0x0000_00b0)),
        is_extra_load_store_unpriv(overlay(w, 0x0320_00f0, 0x0020_00b0)),
        !op1_is_10xx0(w) ==> is_immediate(overlay(w, 0x0200_0000, 0x0200_0000)),
        is_mov_immediate(overlay(w, 0x03f0_0000, 0x0300_0000)),
        is_movt_immediate(overlay(w, 0x03f0_0000, 0x0340_0000)),
        is_msr_immediate_hints(overlay(w, 0x03b0_0000, 0x0320_0000)),
{
}

/// Encoding a sub-form into a word that the sub-form admits gives a word
/// that matches the sub-form's key, and so decodes to that sub-form.
pub proof fn lemma_subform_round_trip(f: DataProcessing, w: u32)
    requires
        form_admits(f, w),
    ensures
        form_matches(f, overlay(w, form_mask(f), form_pattern(f))),
{
    lemma_patterns_match(w);
}

} // verus!
