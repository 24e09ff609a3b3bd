//! Opcodes of x86_64.
use vstd::prelude::*;

use super::x86::{permutation_field, register_count_field, stack_field};
use super::permutation::{decode_permutation_6, decoded_permutation, valid_permutation};
use super::{
    frame_based, frame_based_rule, frameless, frameless_rule, is_cfa_rule, opcode_kind, register_number,
    OpcodeBitfield, UnwindRule, OPCODE_KIND_NULL, OPCODE_KIND_X86_DWARF,
    OPCODE_KIND_X86_FRAMEBASED, OPCODE_KIND_X86_FRAMELESS_IMMEDIATE,
    OPCODE_KIND_X86_FRAMELESS_INDIRECT,
};

verus! {

/// A callee-saved register of x86_64.
#[derive(Clone, Copy, Debug, PartialEq, Eq, Structural)]
pub enum RegisterNameX86_64 {
    Rbx,
    R12,
    R13,
    R14,
    R15,
    Rbp,
}

/// The register that the 3-bit register number `n` names; 0 and 7 name none.
pub open spec fn register_x86_64(n: int) -> Option<RegisterNameX86_64> {
    if n == 1 {
        Some(RegisterNameX86_64::Rbx)
    } else if n == 2 {
        Some(RegisterNameX86_64::R12)
    } else if n == 3 {
        Some(RegisterNameX86_64::R13)
    } else if n == 4 {
        Some(RegisterNameX86_64::R14)
    } else if n == 5 {
        Some(RegisterNameX86_64::R15)
    } else if n == 6 {
        Some(RegisterNameX86_64::Rbp)
    } else {
        None
    }
}

impl RegisterNameX86_64 {
    /// The DWARF register number of this register.
    pub open spec fn dwarf_number(self) -> u16 {
        match self {
            RegisterNameX86_64::Rbx => 3,
            RegisterNameX86_64::R12 => 12,
            RegisterNameX86_64::R13 => 13,
            RegisterNameX86_64::R14 => 14,
            RegisterNameX86_64::R15 => 15,
            RegisterNameX86_64::Rbp => 6,
        }
    }

    pub fn parse(n: u8) -> (r: Option<Self>)
        ensures
            r == register_x86_64(n as int),
    {
        match n {
            1 => Some(RegisterNameX86_64::Rbx),
            2 => Some(RegisterNameX86_64::R12),
            3 => Some(RegisterNameX86_64::R13),
            4 => Some(RegisterNameX86_64::R14),
            5 => Some(RegisterNameX86_64::R15),
            6 => Some(RegisterNameX86_64::Rbp),
            _ => None,
        }
    }

    /// The DWARF register number of this register.
    pub fn dwarf_register(&self) -> (r: u16)
        ensures
            r == self.dwarf_number(),
    {
        match self {
            RegisterNameX86_64::Rbx => 3,
            RegisterNameX86_64::R12 => 12,
            RegisterNameX86_64::R13 => 13,
            RegisterNameX86_64::R14 => 14,
            RegisterNameX86_64::R15 => 15,
            RegisterNameX86_64::Rbp => 6,
        }
    }

    /// The DWARF name of this register.
    pub fn dwarf_name(&self) -> (r: &'static str)
        ensures
            r@ == match self {
                RegisterNameX86_64::Rbx => "reg3"@,
                RegisterNameX86_64::R12 => "reg12"@,
                RegisterNameX86_64::R13 => "reg13"@,
                RegisterNameX86_64::R14 => "reg14"@,
                RegisterNameX86_64::R15 => "reg15"@,
                RegisterNameX86_64::Rbp => "reg6"@,
            },
    {
        match self {
            RegisterNameX86_64::Rbx => "reg3",
            RegisterNameX86_64::R12 => "reg12",
            RegisterNameX86_64::R13 => "reg13",
            RegisterNameX86_64::R14 => "reg14",
            RegisterNameX86_64::R15 => "reg15",
            RegisterNameX86_64::Rbp => "reg6",
        }
    }
}

/// A decoded x86_64 opcode.
#[derive(Clone, Copy, Debug, PartialEq, Eq)]
pub enum OpcodeX86_64 {
    Null,
    FrameBased { stack_offset_in_bytes: u16, saved_regs: [Option<RegisterNameX86_64>; 5] },
    FramelessImmediate { stack_size_in_bytes: u16, saved_regs: [Option<RegisterNameX86_64>; 6] },
    FramelessIndirect,
    Dwarf { eh_frame_fde: u32 },
}

/// The register in the 3-bit field at `shift` of `opcode`.
pub open spec fn register_field_x86_64(opcode: u32, shift: u32) -> Option<RegisterNameX86_64> {
    register_x86_64(((opcode >> shift) & 7u32) as int)
}

/// Whether `r` is what `opcode` decodes to on x86_64.
pub open spec fn decodes_x86_64(opcode: u32, r: Option<OpcodeX86_64>) -> bool {
    let kind = opcode_kind(opcode);
    if kind == OPCODE_KIND_NULL {
        r == Some(OpcodeX86_64::Null)
    } else if kind == OPCODE_KIND_X86_FRAMEBASED {
        r matches Some(OpcodeX86_64::FrameBased { stack_offset_in_bytes, saved_regs })
            && stack_offset_in_bytes == stack_field(opcode) * 8 && saved_regs@ == seq![
            register_field_x86_64(opcode, 12),
            register_field_x86_64(opcode, 9),
            register_field_x86_64(opcode, 6),
            register_field_x86_64(opcode, 3),
            register_field_x86_64(opcode, 0),
        ]
    } else if kind == OPCODE_KIND_X86_FRAMELESS_IMMEDIATE {
        let count = register_count_field(opcode) as int;
        let perm = permutation_field(opcode) as int;
        if valid_permutation(count, perm) {
            r matches Some(OpcodeX86_64::FramelessImmediate { stack_size_in_bytes, saved_regs })
                && stack_size_in_bytes == stack_field(opcode) * 8 && saved_regs@
                == decoded_permutation(count, perm).map_values(|n: u8| register_x86_64(n as int))
        } else {
            r == None::<OpcodeX86_64>
        }
    } else if kind == OPCODE_KIND_X86_FRAMELESS_INDIRECT {
        r == Some(OpcodeX86_64::FramelessIndirect)
    } else if kind == OPCODE_KIND_X86_DWARF {
        r == Some(OpcodeX86_64::Dwarf { eh_frame_fde: opcode & 0xff_ffffu32 })
    } else {
        r == None::<OpcodeX86_64>
    }
}

/// The DWARF numbers of the registers in `regs`.
pub open spec fn dwarf_slots_x86_64(regs: Seq<Option<RegisterNameX86_64>>) -> Seq<Option<u16>> {
    regs.map_values(
        |r: Option<RegisterNameX86_64>|
            match r {
                Some(reg) => Some(reg.dwarf_number()),
                None => None,
            },
    )
}

fn dwarf_slots(regs: &[Option<RegisterNameX86_64>]) -> (r: Vec<Option<u16>>)
    ensures
        r@ == dwarf_slots_x86_64(regs@),
{
    let mut out: Vec<Option<u16>> = Vec::new();
    let mut i: usize = 0;
    while i < regs.len()
        invariant
            i <= regs@.len(),
            out@ == dwarf_slots_x86_64(regs@.take(i as int)),
        decreases regs@.len() - i,
    {
        let slot = match regs[i] {
            Some(reg) => Some(reg.dwarf_register()),
            None => None,
        };
        out.push(slot);
        i += 1;
        assert(regs@.take(i as int) =~= regs@.take(i - 1).push(regs@[i - 1]));
        assert(out@ =~= dwarf_slots_x86_64(regs@.take(i as int)));
    }
    assert(regs@.take(regs@.len() as int) =~= regs@);
    out
}

impl OpcodeX86_64 {
    /// Decodes an x86_64 opcode; `None` for an unknown kind or an invalid
    /// register permutation.
    pub fn parse(opcode: u32) -> (r: Option<Self>)
        ensures
            decodes_x86_64(opcode, r),
    {
        let kind = OpcodeBitfield::new(opcode).kind();
        let stack = (opcode >> 16) & 0xff;
        assert(stack <= 0xff) by (bit_vector)
            requires
                stack == (opcode >> 16u32) & 0xffu32,
        ;
        if kind == OPCODE_KIND_NULL {
            Some(OpcodeX86_64::Null)
        } else if kind == OPCODE_KIND_X86_FRAMEBASED {
            Some(
                OpcodeX86_64::FrameBased {
                    stack_offset_in_bytes: (stack as u16) * 8,
                    saved_regs: [
                        RegisterNameX86_64::parse(register_number(opcode, 12)),
                        RegisterNameX86_64::parse(register_number(opcode, 9)),
                        RegisterNameX86_64::parse(register_number(opcode, 6)),
                        RegisterNameX86_64::parse(register_number(opcode, 3)),
                        RegisterNameX86_64::parse(register_number(opcode, 0)),
                    ],
                },
            )
        } else if kind == OPCODE_KIND_X86_FRAMELESS_IMMEDIATE {
            let register_count = (opcode >> 10) & 7;
            let register_permutation = opcode & 0x3ff;
            let regs = match decode_permutation_6(register_count, register_permutation) {
                Some(regs) => regs,
                None => return None,
            };
            let saved_regs = [
                RegisterNameX86_64::parse(regs[0]),
                RegisterNameX86_64::parse(regs[1]),
                RegisterNameX86_64::parse(regs[2]),
                RegisterNameX86_64::parse(regs[3]),
                RegisterNameX86_64::parse(regs[4]),
                RegisterNameX86_64::parse(regs[5]),
            ];
            assert(saved_regs@ =~= regs@.map_values(|n: u8| register_x86_64(n as int)));
            Some(
                OpcodeX86_64::FramelessImmediate { stack_size_in_bytes: (stack as u16) * 8, saved_regs },
            )
        } else if kind == OPCODE_KIND_X86_FRAMELESS_INDIRECT {
            Some(OpcodeX86_64::FramelessIndirect)
        } else if kind == OPCODE_KIND_X86_DWARF {
            Some(OpcodeX86_64::Dwarf { eh_frame_fde: opcode & 0xff_ffff })
        } else {
            None
        }
    }

    /// The unwind rule this opcode stands for: where the call frame address is,
    /// and where the return address and the saved registers lie below it.
    pub fn unwind_rule(&self) -> (r: UnwindRule)
        requires
            self matches OpcodeX86_64::FrameBased { stack_offset_in_bytes, .. } ==> stack_offset_in_bytes
                + 16 <= u16::MAX,
        ensures
            match *self {
                OpcodeX86_64::Null => r == UnwindRule::Uncovered,
                OpcodeX86_64::FrameBased { stack_offset_in_bytes, saved_regs } => is_cfa_rule(
                    r,
                    frame_based_rule(dwarf_slots_x86_64(saved_regs@), stack_offset_in_bytes as int, 8),
                ),
                OpcodeX86_64::FramelessImmediate { stack_size_in_bytes, saved_regs } => is_cfa_rule(
                    r,
                    frameless_rule(dwarf_slots_x86_64(saved_regs@), stack_size_in_bytes as int, 8),
                ),
                OpcodeX86_64::FramelessIndirect => r == UnwindRule::FramelessIndirect,
                OpcodeX86_64::Dwarf { eh_frame_fde } => r == UnwindRule::Dwarf { eh_frame_fde },
            },
    {
        match self {
            OpcodeX86_64::Null => UnwindRule::Uncovered,
            OpcodeX86_64::FrameBased { stack_offset_in_bytes, saved_regs } => {
                let slots = dwarf_slots(saved_regs.as_slice());
                frame_based(slots.as_slice(), *stack_offset_in_bytes, 8)
            },
            OpcodeX86_64::FramelessImmediate { stack_size_in_bytes, saved_regs } => {
                let slots = dwarf_slots(saved_regs.as_slice());
                frameless(slots.as_slice(), *stack_size_in_bytes, 8)
            },
            OpcodeX86_64::FramelessIndirect => UnwindRule::FramelessIndirect,
            OpcodeX86_64::Dwarf { eh_frame_fde } => UnwindRule::Dwarf { eh_frame_fde: *eh_frame_fde },
        }
    }
}

} // verus!
