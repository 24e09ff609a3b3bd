use macho_unwind_info::opcodes::permutation::decode_permutation_6;
use macho_unwind_info::{
    decode_opcode, Architecture, DecodedOpcode, OpcodeArm64, OpcodeBitfield, OpcodeX86,
    OpcodeX86_64, RegisterNameX86, RegisterNameX86_64,
    SavedRegister, UnwindRule,
};

fn saved(dwarf_register: u16, cfa_offset: u16) -> SavedRegister {
    SavedRegister { dwarf_register, cfa_offset }
}

#[test]
fn x86_frame_based_rule_with_one_saved_register() {
    // Kind 1, stack offset field 2 (8 bytes), Ebx in the slot just below the frame pointer.
    let opcode = 0x0102_0008;
    let decoded = OpcodeX86::parse(opcode).unwrap();
    assert_eq!(
        decoded,
        OpcodeX86::FrameBased {
            stack_offset_in_bytes: 8,
            saved_regs: [None, None, None, Some(RegisterNameX86::Ebx), None],
        }
    );
    assert_eq!(
        decoded.unwind_rule(),
        UnwindRule::Cfa {
            register: 6,
            offset: 8,
            saved: vec![saved(6, 8), saved(16, 4), saved(3, 12)],
        }
    );
}

#[test]
fn x86_64_frame_based_rule() {
    // Stack offset field 3 (24 bytes): slots 4, 3, 2 are walked; 4 = R12, 2 = Rbx.
    let opcode = 0x0103_0000 | (1 << 6) | 2;
    let decoded = OpcodeX86_64::parse(opcode).unwrap();
    assert_eq!(
        decoded,
        OpcodeX86_64::FrameBased {
            stack_offset_in_bytes: 24,
            saved_regs: [None, None, Some(RegisterNameX86_64::Rbx), None, Some(RegisterNameX86_64::R12)],
        }
    );
    assert_eq!(
        decoded.unwind_rule(),
        UnwindRule::Cfa {
            register: 6,
            offset: 16,
            saved: vec![saved(6, 16), saved(16, 8), saved(12, 40), saved(3, 24)],
        }
    );
}

#[test]
fn x86_64_frameless_immediate() {
    // Stack size field 4 (32 bytes), two registers, permutation 0: slots 1 then 2.
    let opcode = 0x0204_0000 | (2 << 10);
    let decoded = OpcodeX86_64::parse(opcode).unwrap();
    assert_eq!(
        decoded,
        OpcodeX86_64::FramelessImmediate {
            stack_size_in_bytes: 32,
            saved_regs: [
                Some(RegisterNameX86_64::Rbx),
                Some(RegisterNameX86_64::R12),
                None,
                None,
                None,
                None
            ],
        }
    );
    assert_eq!(
        decoded.unwind_rule(),
        UnwindRule::Cfa { register: 7, offset: 32, saved: vec![saved(16, 8), saved(12, 16), saved(3, 24)] }
    );
    // Permutation 29 with two registers: digits 5 and 4, i.e. slot 6 then slot 5.
    let decoded = OpcodeX86::parse(0x0200_0000 | (2 << 10) | 29).unwrap();
    assert_eq!(
        decoded,
        OpcodeX86::FramelessImmediate {
            stack_size_in_bytes: 0,
            saved_regs: [Some(RegisterNameX86::Ebp), Some(RegisterNameX86::Esi), None, None, None, None],
        }
    );
    // 30 is past the 30 valid indices for two registers.
    assert_eq!(OpcodeX86::parse(0x0200_0000 | (2 << 10) | 30), None);
    assert_eq!(OpcodeX86_64::parse(0x0200_0000 | (7 << 10)), None);
}

#[test]
fn other_kinds() {
    assert_eq!(OpcodeX86::parse(0), Some(OpcodeX86::Null));
    assert_eq!(OpcodeX86::parse(0x0300_0000), Some(OpcodeX86::FramelessIndirect));
    assert_eq!(OpcodeX86::parse(0x0412_3456), Some(OpcodeX86::Dwarf { eh_frame_fde: 0x12_3456 }));
    assert_eq!(OpcodeX86_64::parse(0x0500_0000), None);
    assert_eq!(OpcodeX86::Null.unwind_rule(), UnwindRule::Uncovered);
    assert_eq!(
        OpcodeX86_64::Dwarf { eh_frame_fde: 5 }.unwind_rule(),
        UnwindRule::Dwarf { eh_frame_fde: 5 }
    );
    assert_eq!(OpcodeX86::FramelessIndirect.unwind_rule(), UnwindRule::FramelessIndirect);
}

#[test]
fn arm64_opcodes() {
    assert_eq!(OpcodeArm64::parse(0), Some(OpcodeArm64::Null));
    assert_eq!(
        OpcodeArm64::parse(0x0200_3000),
        Some(OpcodeArm64::Frameless { stack_size_in_bytes: 48 })
    );
    assert_eq!(OpcodeArm64::parse(0x0300_00ff), Some(OpcodeArm64::Dwarf { eh_frame_fde: 0xff }));
    assert_eq!(
        OpcodeArm64::parse(0x0400_0311),
        Some(OpcodeArm64::FrameBased { saved_reg_pairs: 0x11, saved_fp_reg_pairs: 3 })
    );
    assert_eq!(OpcodeArm64::parse(0x0100_0000), None);
}

#[test]
fn bitfield() {
    let b = OpcodeBitfield::new(0x7403_0000);
    assert_eq!(b.kind(), 4);
    assert!(b.has_lsda());
    assert_eq!(b.personality_index(), 3);
    assert!(!OpcodeBitfield::new(0x0400_0000).has_lsda());
}

#[test]
fn registers() {
    assert_eq!(RegisterNameX86::parse(0), None);
    assert_eq!(RegisterNameX86::parse(1), Some(RegisterNameX86::Ebx));
    assert_eq!(RegisterNameX86::parse(6), Some(RegisterNameX86::Ebp));
    assert_eq!(RegisterNameX86::parse(7), None);
    assert_eq!(RegisterNameX86::Esi.dwarf_name(), "reg6");
    assert_eq!(RegisterNameX86::Ebp.dwarf_name(), "reg5");
    assert_eq!(RegisterNameX86_64::parse(3), Some(RegisterNameX86_64::R13));
    assert_eq!(RegisterNameX86_64::Rbp.dwarf_name(), "reg6");
    assert_eq!(RegisterNameX86_64::R15.dwarf_register(), 15);
}

#[test]
fn permutation_decode_covers_every_valid_index() {
    let limits = [1u32, 6, 30, 120, 360, 720, 720];
    for count in 0..=6u32 {
        let limit = limits[count as usize];
        let mut seen = std::collections::HashSet::new();
        for index in 0..limit {
            let regs = decode_permutation_6(count, index).unwrap();
            for i in 0..6 {
                if i < count as usize {
                    assert!((1..=6).contains(&regs[i]));
                    assert!(!regs[..i].contains(&regs[i]));
                } else {
                    assert_eq!(regs[i], 0);
                }
            }
            assert!(seen.insert(regs), "index {} of count {} repeats a tuple", index, count);
        }
        assert_eq!(decode_permutation_6(count, limit), None);
        assert_eq!(decode_permutation_6(count, 1023), None);
    }
    assert_eq!(decode_permutation_6(7, 0), None);
    assert_eq!(decode_permutation_6(6, 719), Some([6, 5, 4, 3, 2, 1]));
    assert_eq!(decode_permutation_6(3, 0), Some([1, 2, 3, 0, 0, 0]));
}

#[test]
fn decode_dispatches_on_architecture() {
    assert_eq!(
        decode_opcode(Architecture::X86, 0x0102_0008),
        OpcodeX86::parse(0x0102_0008).map(DecodedOpcode::X86)
    );
    assert_eq!(
        decode_opcode(Architecture::X86_64, 0x0300_0000),
        Some(DecodedOpcode::X86_64(OpcodeX86_64::FramelessIndirect))
    );
    // Kind 3 is a DWARF reference on arm64.
    assert_eq!(
        decode_opcode(Architecture::Arm64, 0x0300_0010),
        Some(DecodedOpcode::Arm64(OpcodeArm64::Dwarf { eh_frame_fde: 0x10 }))
    );
    assert_eq!(decode_opcode(Architecture::Arm64, 0x0100_0000), None);
}
