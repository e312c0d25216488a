use instructions::{Condition, CpuRegisters, DataProcessing, InstructionClasses, InstructionSet};

const CONDITIONS: [Condition; 15] = [
    Condition::EQ,
    Condition::NE,
    Condition::CS,
    Condition::CC,
    Condition::MI,
    Condition::PL,
    Condition::VS,
    Condition::VC,
    Condition::HI,
    Condition::LS,
    Condition::GE,
    Condition::LT,
    Condition::GT,
    Condition::LE,
    Condition::AL,
];

const CLASSES: [InstructionClasses; 6] = [
    InstructionClasses::DataProcessing,
    InstructionClasses::LoadStore,
    InstructionClasses::LoadStoreM,
    InstructionClasses::Media,
    InstructionClasses::Branch,
    InstructionClasses::SupervisorCall,
];

const FORMS: [DataProcessing; 12] = [
    DataProcessing::DataProcessingRegister,
    DataProcessing::DataProcessingRegisterShifted,
    DataProcessing::MiscInstructions,
    DataProcessing::HalfwordMultiply,
    DataProcessing::MultiplyAccumulate,
    DataProcessing::SyncPrimitives,
    DataProcessing::ExtraLoadStore,
    DataProcessing::ExtraLoadStoreUnpriv,
    DataProcessing::DataProcessingImmediate,
    DataProcessing::MovImmediate16,
    DataProcessing::MovTImmediate16,
    DataProcessing::MSRImmediateHints,
];

const MNEMONICS: [InstructionSet; 23] = [
    InstructionSet::And,
    InstructionSet::Eor,
    InstructionSet::Sub,
    InstructionSet::Rsb,
    InstructionSet::Add,
    InstructionSet::Adc,
    InstructionSet::Sbc,
    InstructionSet::Rsc,
    InstructionSet::Tst,
    InstructionSet::Teq,
    InstructionSet::Cmp,
    InstructionSet::Cmn,
    InstructionSet::Orr,
    InstructionSet::Mov,
    InstructionSet::Bic,
    InstructionSet::Mvn,
    InstructionSet::Ldr,
    InstructionSet::Str,
    InstructionSet::Ldrb,
    InstructionSet::Strb,
    InstructionSet::B,
    InstructionSet::Bl,
    InstructionSet::Swi,
];

const WORDS: [u32; 8] = [
    0,
    0xffff_ffff,
    0xe000_0000,
    0x1234_5678,
    0x0ff0_0ff0,
    0x5555_5555,
    0xaaaa_aaaa,
    0x0000_0010,
];

/// Words whose data-processing key (bit 25, bits 24..20, bits 7..4) runs
/// through all 1024 values, over a few backgrounds.
fn key_space() -> Vec<u32> {
    let mut out = Vec::new();
    for background in [0u32, 0xfc0f_ff0f] {
        for key in 0u32..1024 {
            let op = key >> 9;
            let op1 = (key >> 4) & 0x1f;
            let op2 = key & 0xf;
            out.push(background | (op << 25) | (op1 << 20) | (op2 << 4));
        }
    }
    out
}

#[test]
fn condition_always_decodes() {
    assert_eq!(Condition::decode(0xe000_0000), Some(Condition::AL));
    assert_eq!(Condition::decode(0xe123_4567), Some(Condition::AL));
}

#[test]
fn condition_reserved_code_is_rejected() {
    assert_eq!(Condition::decode(0xf000_0000), None);
    assert_eq!(Condition::decode(0xffff_ffff), None);
}

#[test]
fn condition_codes_are_fixed() {
    for (i, c) in CONDITIONS.iter().enumerate() {
        assert_eq!(c.encode(), i as u8);
        assert_eq!(Condition::decode((i as u32) << 28), Some(*c));
    }
}

#[test]
fn condition_round_trip_over_any_word() {
    for c in CONDITIONS {
        for w in WORDS {
            let placed = c.write_into(w);
            assert_eq!(placed & 0x0fff_ffff, w & 0x0fff_ffff);
            assert_eq!(placed >> 28, c.encode() as u32);
            assert_eq!(Condition::decode(placed), Some(c));
        }
    }
}

#[test]
fn class_load_store() {
    assert!(matches!(InstructionClasses::decode(0b010 << 25), Some(InstructionClasses::LoadStore)));
    assert!(matches!(InstructionClasses::decode(0xe5_9f_10_00), Some(InstructionClasses::LoadStore)));
}

#[test]
fn class_table() {
    let expect = |op: u32, bit4: u32| -> InstructionClasses {
        match (op, bit4) {
            (0, _) | (1, _) => InstructionClasses::DataProcessing,
            (2, _) => InstructionClasses::LoadStore,
            (3, 0) => InstructionClasses::LoadStoreM,
            (3, _) => InstructionClasses::Media,
            (4, _) | (5, _) => InstructionClasses::Branch,
            _ => InstructionClasses::SupervisorCall,
        }
    };
    for op in 0u32..8 {
        for bit4 in 0u32..2 {
            let w = (op << 25) | (bit4 << 4) | 0xe000_0000;
            assert_eq!(InstructionClasses::decode(w), Some(expect(op, bit4)));
        }
    }
}

#[test]
fn class_encode_exact() {
    assert_eq!(InstructionClasses::LoadStore.encode(0xe000_0000), 0xe400_0000);
    assert_eq!(InstructionClasses::Media.encode(0xffff_ffff), 0xf7ff_ffff);
    assert_eq!(InstructionClasses::LoadStoreM.encode(0xffff_ffff), 0xf7ff_ffef);
    assert_eq!(InstructionClasses::Branch.encode(0), 0x0800_0000);
    assert_eq!(InstructionClasses::SupervisorCall.encode(0), 0x0c00_0000);
    assert_eq!(InstructionClasses::DataProcessing.encode(0xffff_ffff), 0xf3ff_ffff);
}

#[test]
fn class_round_trip_over_any_word() {
    for c in CLASSES {
        for w in WORDS {
            assert_eq!(InstructionClasses::decode(c.encode(w)), Some(c));
        }
    }
}

#[test]
fn subform_register_scenario() {
    assert_eq!(DataProcessing::decode(0xe000_0000), Some(DataProcessing::DataProcessingRegister));
    assert_eq!(InstructionSet::decode(0xe000_0000), InstructionSet::And);
    assert_eq!(InstructionSet::decode(0), InstructionSet::And);
}

#[test]
fn subform_examples() {
    // op2 0xx1: register-shifted register
    assert_eq!(DataProcessing::decode(0x0000_0010), Some(DataProcessing::DataProcessingRegisterShifted));
    // op1 10xx0, op2 0xxx
    assert_eq!(DataProcessing::decode(0x0100_0000), Some(DataProcessing::MiscInstructions));
    // op1 10xx0, op2 1xx0
    assert_eq!(DataProcessing::decode(0x0100_0080), Some(DataProcessing::HalfwordMultiply));
    assert_eq!(DataProcessing::decode(0x0000_0090), Some(DataProcessing::MultiplyAccumulate));
    assert_eq!(DataProcessing::decode(0x0100_0090), Some(DataProcessing::SyncPrimitives));
    assert_eq!(DataProcessing::decode(0x0000_00b0), Some(DataProcessing::ExtraLoadStore));
    assert_eq!(DataProcessing::decode(0x0000_00d0), Some(DataProcessing::ExtraLoadStore));
    assert_eq!(DataProcessing::decode(0x0020_00b0), Some(DataProcessing::ExtraLoadStoreUnpriv));
    assert_eq!(DataProcessing::decode(0x0200_0000), Some(DataProcessing::DataProcessingImmediate));
    assert_eq!(DataProcessing::decode(0x0300_0000), Some(DataProcessing::MovImmediate16));
    assert_eq!(DataProcessing::decode(0x0340_0000), Some(DataProcessing::MovTImmediate16));
    assert_eq!(DataProcessing::decode(0x0320_0000), Some(DataProcessing::MSRImmediateHints));
    assert_eq!(DataProcessing::decode(0x0360_0000), Some(DataProcessing::MSRImmediateHints));
}

#[test]
fn subform_every_key_decodes() {
    for w in key_space() {
        assert!(DataProcessing::decode(w).is_some(), "{w:#010x}");
    }
}

#[test]
fn subform_matching_word_is_fixed_by_its_encoding() {
    // A word that already matches the key of its sub-form is left as it is by
    // encoding that sub-form. The extra load/store forms accept op2 `1011`
    // and `11x1` and write `1011`, so an op2 `11x1` word is rewritten.
    for w in key_space() {
        let f = DataProcessing::decode(w).unwrap();
        let extra = matches!(
            f,
            DataProcessing::ExtraLoadStore | DataProcessing::ExtraLoadStoreUnpriv
        );
        if extra && (w >> 4) & 0b1101 == 0b1101 {
            assert_eq!(f.clone().encode(w), (w & !0xf0) | 0xb0);
        } else {
            assert_eq!(f.clone().encode(w), w, "{w:#010x} {f:?}");
        }
    }
}

#[test]
fn subform_overlay_changes_only_key_bits() {
    for f in FORMS {
        let zero = f.clone().encode(0);
        let ones = f.clone().encode(0xffff_ffff);
        let mask = !(zero ^ ones);
        for w in WORDS {
            let e = f.clone().encode(w);
            assert_eq!(e & !mask, w & !mask);
            assert_eq!(e & mask, zero & mask);
        }
    }
}

#[test]
fn subform_encode_exact() {
    assert_eq!(DataProcessing::MovImmediate16.encode(0xe0ff_ffff), 0xe30f_ffff);
    assert_eq!(DataProcessing::MSRImmediateHints.encode(0), 0x0320_0000);
    assert_eq!(DataProcessing::DataProcessingRegisterShifted.encode(0xffff_ffff), 0xfdff_ff7f);
}

#[test]
fn subform_round_trip_for_admitted_words() {
    for f in FORMS {
        for w in WORDS {
            let e = f.clone().encode(w);
            let op1 = (w >> 20) & 0x1f;
            let admitted = match f {
                DataProcessing::DataProcessingRegister
                | DataProcessing::DataProcessingRegisterShifted
                | DataProcessing::DataProcessingImmediate => op1 & 0b11001 != 0b10000,
                DataProcessing::ExtraLoadStore => op1 & 0b10010 != 0b00010,
                _ => true,
            };
            if admitted {
                assert_eq!(DataProcessing::decode(e), Some(f.clone()));
            }
        }
    }
}

#[test]
fn decode_is_total() {
    let mut w: u32 = 0;
    loop {
        let _ = InstructionSet::decode(w);
        match w.checked_add(0x0001_0001) {
            Some(n) => w = n,
            None => break,
        }
    }
    let _ = InstructionSet::decode(u32::MAX);
}

#[test]
fn decode_reserved_condition_is_undefined() {
    assert_eq!(InstructionSet::decode(0xf000_0000), InstructionSet::Undefined(0xf000_0000));
    assert_eq!(InstructionSet::decode(0xfa00_0000), InstructionSet::Undefined(0xfa00_0000));
}

#[test]
fn decode_media_and_multiple_are_undefined() {
    assert_eq!(InstructionSet::decode(0xe600_0010), InstructionSet::Undefined(0xe600_0010));
    assert_eq!(InstructionSet::decode(0xe600_0000), InstructionSet::Undefined(0xe600_0000));
}

#[test]
fn decode_non_opcode_subform_is_undefined() {
    // multiply: data-processing class, sub-form without an opcode
    assert_eq!(InstructionSet::decode(0xe000_0090), InstructionSet::Undefined(0xe000_0090));
}

#[test]
fn decode_opcodes() {
    for (i, m) in MNEMONICS[..16].iter().enumerate() {
        let s = if (8..12).contains(&i) { 1u32 << 20 } else { 0 };
        let w = 0xe000_0000 | ((i as u32) << 21) | s;
        assert_eq!(InstructionSet::decode(w), *m);
        // immediate form
        assert_eq!(InstructionSet::decode(w | 0x0200_0000), *m);
    }
}

#[test]
fn decode_load_store() {
    assert_eq!(InstructionSet::decode(0xe591_0000), InstructionSet::Ldr);
    assert_eq!(InstructionSet::decode(0xe581_0000), InstructionSet::Str);
    assert_eq!(InstructionSet::decode(0xe5d1_0000), InstructionSet::Ldrb);
    assert_eq!(InstructionSet::decode(0xe5c1_0000), InstructionSet::Strb);
}

#[test]
fn decode_branch_and_call() {
    assert_eq!(InstructionSet::decode(0xea00_0010), InstructionSet::B);
    assert_eq!(InstructionSet::decode(0xeb00_0010), InstructionSet::Bl);
    assert_eq!(InstructionSet::decode(0xef00_0042), InstructionSet::Swi);
}

#[test]
fn encode_branch_with_link_scenario() {
    let w = InstructionSet::Bl.encode(0xe000_0000);
    assert_eq!(InstructionClasses::decode(w), Some(InstructionClasses::Branch));
    assert_eq!((w >> 24) & 1, 1);
    assert_eq!(InstructionSet::decode(w), InstructionSet::Bl);
    assert_eq!(w, 0xe900_0000);
}

#[test]
fn encode_exact_words() {
    assert_eq!(InstructionSet::Add.encode(0xe000_0000), 0xe080_0000);
    assert_eq!(InstructionSet::Tst.encode(0xe000_0000), 0xe110_0000);
    assert_eq!(InstructionSet::Ldr.encode(0xe000_0000), 0xe410_0000);
    assert_eq!(InstructionSet::Strb.encode(0xe000_0000), 0xe440_0000);
    assert_eq!(InstructionSet::B.encode(0xe200_0000), 0xea00_0000);
    assert_eq!(InstructionSet::Swi.encode(0xe000_0042), 0xec00_0042);
    assert_eq!(InstructionSet::Mov.encode(0xe200_0000), 0xe3a0_0000);
}

#[test]
fn encode_test_ops_set_flag_bit() {
    for m in [InstructionSet::Tst, InstructionSet::Teq, InstructionSet::Cmp, InstructionSet::Cmn] {
        assert_eq!((m.encode(0) >> 20) & 1, 1);
    }
    assert_eq!((InstructionSet::Add.encode(0) >> 20) & 1, 0);
}

#[test]
fn encode_undefined_gives_its_word() {
    assert_eq!(InstructionSet::Undefined(0x1234_5678).encode(0xffff_ffff), 0x1234_5678);
}

#[test]
fn encode_keeps_swi_immediate() {
    let w = InstructionSet::Swi.encode(0xe0ab_cdef);
    assert_eq!(w & 0x00ff_ffff, 0x00ab_cdef);
}

#[test]
fn instruction_round_trip() {
    for m in MNEMONICS {
        for ops in WORDS {
            if ops >> 28 == 0b1111 {
                continue;
            }
            let w = m.encode(ops);
            assert_eq!(InstructionSet::decode(w), m, "{m:?} over {ops:#010x}");
            assert_eq!(w >> 28, ops >> 28);
        }
    }
}

#[test]
fn registers_default_to_zero() {
    let r = CpuRegisters::default();
    assert_eq!(r.r, [0u32; 13]);
    assert_eq!((r.sp_main, r.sp_process, r.lr, r.pc, r.xpsr), (0, 0, 0, 0, 0));
}
