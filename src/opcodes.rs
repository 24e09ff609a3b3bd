//! Architecture-specific decoding of the 32-bit opcodes, and the unwind rule
//! each decoded opcode stands for.
use vstd::prelude::*;


pub mod arm64;
pub mod permutation;
pub mod x86;
pub mod x86_64;



use arm64::{decodes_arm64, OpcodeArm64};
use x86::{decodes_x86, OpcodeX86};
use x86_64::{decodes_x86_64, OpcodeX86_64};

verus! {

/// Opcode kind: no unwind information for the address range.
pub const OPCODE_KIND_NULL: u8 = 0;
/// x86 and x86_64 opcode kind: frame pointer based function.
pub const OPCODE_KIND_X86_FRAMEBASED: u8 = 1;
/// x86 and x86_64 opcode kind: frameless function with an immediate stack size.
pub const OPCODE_KIND_X86_FRAMELESS_IMMEDIATE: u8 = 2;
/// x86 and x86_64 opcode kind: frameless function whose stack size is found elsewhere.
pub const OPCODE_KIND_X86_FRAMELESS_INDIRECT: u8 = 3;
/// x86 and x86_64 opcode kind: see the function's FDE in `__eh_frame`.
pub const OPCODE_KIND_X86_DWARF: u8 = 4;
/// arm64 opcode kind: frameless leaf function.
pub const OPCODE_KIND_ARM64_FRAMELESS: u8 = 2;
/// arm64 opcode kind: see the function's FDE in `__eh_frame`.
pub const OPCODE_KIND_ARM64_DWARF: u8 = 3;
/// arm64 opcode kind: frame pointer based function.
pub const OPCODE_KIND_ARM64_FRAMEBASED: u8 = 4;

/// The kind field of an opcode: bits 24 to 27.
pub open spec fn opcode_kind(opcode: u32) -> u8 {
    ((opcode >> 24u32) & 0xfu32) as u8
}

/// The 3-bit register number at bit `shift` of `opcode`.
pub fn register_number(opcode: u32, shift: u32) -> (r: u8)
    requires
        shift < 32,
    ensures
        r as int == ((opcode >> shift) & 7u32) as int,
{
    let n = (opcode >> shift) & 7;
    assert(n <= 7) by (bit_vector)
        requires
            n == (opcode >> shift) & 7u32,
    ;
    n as u8
}

/// The architecture-independent fields of an opcode.
#[derive(Clone, Copy, Debug, PartialEq, Eq, Structural)]
pub struct OpcodeBitfield(pub u32);

impl OpcodeBitfield {
    pub fn new(value: u32) -> (r: Self)
        ensures
            r.0 == value,
    {
        OpcodeBitfield(value)
    }

    /// Whether the function has a language-specific data area: bit 30.
    pub fn has_lsda(&self) -> (r: bool)
        ensures
            r == ((self.0 >> 30u32) & 1u32 == 1u32),
    {
        (self.0 >> 30) & 1 == 1
    }

    /// The index of the function's personality routine: bits 28 and 29.
    pub fn personality_index(&self) -> (r: u8)
        ensures
            r == ((self.0 >> 28u32) & 3u32) as u8,
    {
        ((self.0 >> 28) & 3) as u8
    }

    /// The opcode kind, whose meaning depends on the architecture.
    pub fn kind(&self) -> (r: u8)
        ensures
            r == opcode_kind(self.0),
    {
        ((self.0 >> 24) & 0xf) as u8
    }
}

/// A register that was saved below the call frame address (CFA): the caller's
/// value is found at `CFA - cfa_offset`.
#[derive(Clone, Copy, Debug, PartialEq, Eq, Structural)]
pub struct SavedRegister {
    /// The DWARF number of the register; 16 stands for the return address.
    pub dwarf_register: u16,
    pub cfa_offset: u16,
}

/// How an opcode recovers the caller's frame.
#[derive(Clone, Debug, PartialEq, Eq)]
pub enum UnwindRule {
    /// No unwind information is recorded for the address range.
    Uncovered,
    /// The CFA is the value of DWARF register `register` plus `offset`; the
    /// registers of `saved` are found below it, in this order.
    Cfa { register: u16, offset: u16, saved: Vec<SavedRegister> },
    /// Frameless function whose stack size is stored in the function's code.
    FramelessIndirect,
    /// The rule is in the FDE at this offset of `__eh_frame`.
    Dwarf { eh_frame_fde: u32 },
}

/// DWARF number of the frame pointer register in the rules below.
pub const DWARF_FRAME_POINTER: u16 = 6;
/// DWARF number of the stack pointer register in the rules below.
pub const DWARF_STACK_POINTER: u16 = 7;
/// DWARF number that stands for the return address.
pub const DWARF_RETURN_ADDRESS: u16 = 16;

/// The saved registers that a frame pointer based function stores below the
/// saved frame pointer: the slots are walked from the last, which lies just
/// below the saved frame pointer, at most `stack_offset / width` of them, and
/// the `t`-th one walked lies at `CFA - (stack_offset + 2 * width - t * width)`.
pub open spec fn frame_slots(slots: Seq<Option<u16>>, stack_offset: int, width: int, t: int) -> Seq<
    SavedRegister,
>
    decreases t,
{
    if t <= 0 {
        seq![]
    } else {
        let prev = frame_slots(slots, stack_offset, width, t - 1);
        match slots[slots.len() - t] {
            Some(reg) => prev.push(
                SavedRegister {
                    dwarf_register: reg,
                    cfa_offset: (stack_offset + 2 * width - (t - 1) * width) as u16,
                },
            ),
            None => prev,
        }
    }
}

/// The number of slots that a frame pointer based rule walks.
pub open spec fn frame_slot_count(slots_len: int, stack_offset: int, width: int) -> int {
    if stack_offset / width < slots_len {
        stack_offset / width
    } else {
        slots_len
    }
}

/// The rule of a frame pointer based function: the CFA lies two words above
/// the frame pointer, which holds the saved frame pointer, and the return
/// address sits just below the CFA.
pub open spec fn frame_based_rule(slots: Seq<Option<u16>>, stack_offset: int, width: int) -> (
    u16,
    u16,
    Seq<SavedRegister>,
) {
    (
        DWARF_FRAME_POINTER,
        (2 * width) as u16,
        seq![
            SavedRegister { dwarf_register: DWARF_FRAME_POINTER, cfa_offset: (2 * width) as u16 },
            SavedRegister { dwarf_register: DWARF_RETURN_ADDRESS, cfa_offset: width as u16 },
        ] + frame_slots(
            slots,
            stack_offset,
            width,
            frame_slot_count(slots.len() as int, stack_offset, width),
        ),
    )
}

/// The saved registers of a frameless function: the slots are walked from the
/// last, empty slots skipped, and the `k`-th register found lies at
/// `CFA - (2 * width + k * width)`.
pub open spec fn frameless_slots(slots: Seq<Option<u16>>, width: int, t: int) -> Seq<SavedRegister>
    decreases t,
{
    if t <= 0 {
        seq![]
    } else {
        let prev = frameless_slots(slots, width, t - 1);
        match slots[slots.len() - t] {
            Some(reg) => prev.push(
                SavedRegister {
                    dwarf_register: reg,
                    cfa_offset: (2 * width + prev.len() * width) as u16,
                },
            ),
            None => prev,
        }
    }
}

/// The rule of a frameless function: the CFA is the stack pointer plus the
/// stack size, with the return address 8 bytes below it.
pub open spec fn frameless_rule(slots: Seq<Option<u16>>, stack_size: int, width: int) -> (
    u16,
    u16,
    Seq<SavedRegister>,
) {
    (
        DWARF_STACK_POINTER,
        stack_size as u16,
        seq![SavedRegister { dwarf_register: DWARF_RETURN_ADDRESS, cfa_offset: 8 }]
            + frameless_slots(slots, width, slots.len() as int),
    )
}

/// Whether `rule` is the CFA rule `(register, offset, saved)`.
pub open spec fn is_cfa_rule(rule: UnwindRule, spec_rule: (u16, u16, Seq<SavedRegister>)) -> bool {
    rule matches UnwindRule::Cfa { register, offset, saved } && register == spec_rule.0 && offset
        == spec_rule.1 && saved@ == spec_rule.2
}

proof fn lemma_frame_slots_len(slots: Seq<Option<u16>>, stack_offset: int, width: int, t: int)
    requires
        t >= 0,
    ensures
        frame_slots(slots, stack_offset, width, t).len() <= t,
    decreases t,
{
    if t > 0 {
        lemma_frame_slots_len(slots, stack_offset, width, t - 1);
    }
}

proof fn lemma_frameless_slots_len(slots: Seq<Option<u16>>, width: int, t: int)
    requires
        t >= 0,
    ensures
        frameless_slots(slots, width, t).len() <= t,
    decreases t,
{
    if t > 0 {
        lemma_frameless_slots_len(slots, width, t - 1);
    }
}

/// Builds the rule of a frame pointer based function whose saved registers
/// (as DWARF numbers) fill `slots`, for a pointer width of `width` bytes.
pub fn frame_based(slots: &[Option<u16>], stack_offset: u16, width: u16) -> (r: UnwindRule)
    requires
        width == 4 || width == 8,
        slots@.len() <= 6,
        stack_offset + 2 * width <= u16::MAX,
    ensures
        is_cfa_rule(r, frame_based_rule(slots@, stack_offset as int, width as int)),
{
    let mut saved: Vec<SavedRegister> = Vec::new();
    saved.push(SavedRegister { dwarf_register: DWARF_FRAME_POINTER, cfa_offset: 2 * width });
    saved.push(SavedRegister { dwarf_register: DWARF_RETURN_ADDRESS, cfa_offset: width });
    let ghost fixed = saved@;
    assert(fixed =~= seq![
        SavedRegister { dwarf_register: DWARF_FRAME_POINTER, cfa_offset: (2 * width) as u16 },
        SavedRegister { dwarf_register: DWARF_RETURN_ADDRESS, cfa_offset: width as u16 },
    ]);
    let n = slots.len();
    let walk: usize = if ((stack_offset / width) as usize) < n {
        (stack_offset / width) as usize
    } else {
        n
    };
    let mut t: usize = 0;
    while t < walk
        invariant
            width == 4 || width == 8,
            n == slots@.len() <= 6,
            stack_offset + 2 * width <= u16::MAX,
            walk == frame_slot_count(n as int, stack_offset as int, width as int),
            t <= walk,
            fixed.len() == 2,
            saved@ == fixed + frame_slots(slots@, stack_offset as int, width as int, t as int),
        decreases walk - t,
    {
        proof {
            lemma_frame_slots_len(slots@, stack_offset as int, width as int, t as int);
        }
        if let Some(reg) = slots[n - 1 - t] {
            assert(t * width <= stack_offset) by (nonlinear_arith)
                requires
                    t < stack_offset / width,
                    width > 0,
            ;
            saved.push(
                SavedRegister {
                    dwarf_register: reg,
                    cfa_offset: stack_offset + 2 * width - (t as u16) * width,
                },
            );
        }
        t += 1;
        proof {
            assert(saved@ =~= fixed + frame_slots(slots@, stack_offset as int, width as int, t as int));
        }
    }
    UnwindRule::Cfa { register: DWARF_FRAME_POINTER, offset: 2 * width, saved }
}

/// Builds the rule of a frameless function whose saved registers (as DWARF
/// numbers) fill `slots`, for a pointer width of `width` bytes.
pub fn frameless(slots: &[Option<u16>], stack_size: u16, width: u16) -> (r: UnwindRule)
    requires
        width == 4 || width == 8,
        slots@.len() <= 6,
    ensures
        is_cfa_rule(r, frameless_rule(slots@, stack_size as int, width as int)),
{
    let mut saved: Vec<SavedRegister> = Vec::new();
    saved.push(SavedRegister { dwarf_register: DWARF_RETURN_ADDRESS, cfa_offset: 8 });
    let ghost fixed = saved@;
    assert(fixed =~= seq![SavedRegister { dwarf_register: DWARF_RETURN_ADDRESS, cfa_offset: 8 }]);
    let n = slots.len();
    let mut found: u16 = 0;
    let mut t: usize = 0;
    while t < n
        invariant
            width == 4 || width == 8,
            n == slots@.len() <= 6,
            t <= n,
            fixed.len() == 1,
            found as int == frameless_slots(slots@, width as int, t as int).len(),
            saved@ == fixed + frameless_slots(slots@, width as int, t as int),
        decreases n - t,
    {
        proof {
            lemma_frameless_slots_len(slots@, width as int, t as int);
        }
        if let Some(reg) = slots[n - 1 - t] {
            assert(found * width <= 6 * 8) by (nonlinear_arith)
                requires
                    found <= 6,
                    width <= 8,
            ;
            saved.push(SavedRegister { dwarf_register: reg, cfa_offset: 2 * width + found * width });
            found += 1;
        }
        t += 1;
        proof {
            assert(saved@ =~= fixed + frameless_slots(slots@, width as int, t as int));
        }
    }
    UnwindRule::Cfa { register: DWARF_STACK_POINTER, offset: stack_size, saved }
}

/// The architectures whose opcodes can be decoded.
#[derive(Clone, Copy, Debug, PartialEq, Eq, Structural)]
pub enum Architecture {
    X86,
    X86_64,
    Arm64,
}

/// An opcode decoded for its architecture.
#[derive(Clone, Copy, Debug, PartialEq, Eq)]
pub enum DecodedOpcode {
    X86(OpcodeX86),
    X86_64(OpcodeX86_64),
    Arm64(OpcodeArm64),
}

/// Decodes `opcode` for `arch`; `None` where that architecture's decoder
/// gives no structured reading of it.
pub fn decode_opcode(arch: Architecture, opcode: u32) -> (r: Option<DecodedOpcode>)
    ensures
        match arch {
            Architecture::X86 => match r {
                Some(DecodedOpcode::X86(o)) => decodes_x86(opcode, Some(o)),
                None => decodes_x86(opcode, None),
                _ => false,
            },
            Architecture::X86_64 => match r {
                Some(DecodedOpcode::X86_64(o)) => decodes_x86_64(opcode, Some(o)),
                None => decodes_x86_64(opcode, None),
                _ => false,
            },
            Architecture::Arm64 => match r {
                Some(DecodedOpcode::Arm64(o)) => decodes_arm64(opcode, Some(o)),
                None => decodes_arm64(opcode, None),
                _ => false,
            },
        },
{
    match arch {
        Architecture::X86 => match OpcodeX86::parse(opcode) {
            Some(o) => Some(DecodedOpcode::X86(o)),
            None => None,
        },
        Architecture::X86_64 => match OpcodeX86_64::parse(opcode) {
            Some(o) => Some(DecodedOpcode::X86_64(o)),
            None => None,
        },
        Architecture::Arm64 => match OpcodeArm64::parse(opcode) {
            Some(o) => Some(DecodedOpcode::Arm64(o)),
            None => None,
        },
    }
}

} // verus!
