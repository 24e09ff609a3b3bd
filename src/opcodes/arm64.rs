//! Opcodes of arm64.
use vstd::prelude::*;

use super::{
    opcode_kind, OpcodeBitfield, OPCODE_KIND_ARM64_DWARF, OPCODE_KIND_ARM64_FRAMEBASED,
    OPCODE_KIND_ARM64_FRAMELESS, OPCODE_KIND_NULL,
};

verus! {

/// A decoded arm64 opcode.
#[derive(Clone, Copy, Debug, PartialEq, Eq, Structural)]
pub enum OpcodeArm64 {
    Null,
    /// A leaf function that keeps its return address in `lr`.
    Frameless { stack_size_in_bytes: u16 },
    Dwarf { eh_frame_fde: u32 },
    /// A function with a frame pointer; the flags say which register pairs
    /// (x19/x20 up to x27/x28, and d8/d9 up to d14/d15) were saved.
    FrameBased { saved_reg_pairs: u8, saved_fp_reg_pairs: u8 },
}

/// Whether `r` is what `opcode` decodes to on arm64.
pub open spec fn decodes_arm64(opcode: u32, r: Option<OpcodeArm64>) -> bool {
    let kind = opcode_kind(opcode);
    if kind == OPCODE_KIND_NULL {
        r == Some(OpcodeArm64::Null)
    } else if kind == OPCODE_KIND_ARM64_FRAMELESS {
        r == Some(
            OpcodeArm64::Frameless {
                stack_size_in_bytes: (((opcode >> 12u32) & 0xfffu32) * 16) as u16,
            },
        )
    } else if kind == OPCODE_KIND_ARM64_DWARF {
        r == Some(OpcodeArm64::Dwarf { eh_frame_fde: opcode & 0xff_ffffu32 })
    } else if kind == OPCODE_KIND_ARM64_FRAMEBASED {
        r == Some(
            OpcodeArm64::FrameBased {
                saved_reg_pairs: (opcode & 0x1fu32) as u8,
                saved_fp_reg_pairs: ((opcode >> 8u32) & 0xfu32) as u8,
            },
        )
    } else {
        r == None::<OpcodeArm64>
    }
}

impl OpcodeArm64 {
    /// Decodes an arm64 opcode; `None` for an unknown kind.
    pub fn parse(opcode: u32) -> (r: Option<Self>)
        ensures
            decodes_arm64(opcode, r),
    {
        let kind = OpcodeBitfield::new(opcode).kind();
        if kind == OPCODE_KIND_NULL {
            Some(OpcodeArm64::Null)
        } else if kind == OPCODE_KIND_ARM64_FRAMELESS {
            let size = (opcode >> 12) & 0xfff;
            assert(size <= 0xfff) by (bit_vector)
                requires
                    size == (opcode >> 12u32) & 0xfffu32,
            ;
            Some(OpcodeArm64::Frameless { stack_size_in_bytes: (size * 16) as u16 })
        } else if kind == OPCODE_KIND_ARM64_DWARF {
            Some(OpcodeArm64::Dwarf { eh_frame_fde: opcode & 0xff_ffff })
        } else if kind == OPCODE_KIND_ARM64_FRAMEBASED {
            let pairs = opcode & 0x1f;
            let fp_pairs = (opcode >> 8) & 0xf;
            assert(pairs <= 0x1f && fp_pairs <= 0xf) by (bit_vector)
                requires
                    pairs == opcode & 0x1fu32,
                    fp_pairs == (opcode >> 8u32) & 0xfu32,
            ;
            Some(
                OpcodeArm64::FrameBased {
                    saved_reg_pairs: pairs as u8,
                    saved_fp_reg_pairs: fp_pairs as u8,
                },
            )
        } else {
            None
        }
    }
}

} // verus!
