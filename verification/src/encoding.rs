//! The opcode map stated by the fields of the 8086 encoding: row by row, by
//! the width, direction and register fields, and by which opcodes take an
//! operand byte.

use vstd::prelude::*;

use crate::opcode::{opcode_kind, reads_operand, OpcodeKind};

verus! {

/// Row 0x0_ of the opcode map, column by column: add and the segment pushes and pops.
pub proof fn lemma_opcode_row_0(b: u8)
    requires
        b / 16 == 0,
    ensures
        0 <= b % 16 <= 3 ==> opcode_kind(b) == OpcodeKind::AddRegmemWRegToEither,
        4 <= b % 16 <= 5 ==> opcode_kind(b) == OpcodeKind::AddImmToAcc,
        b % 16 == 6 ==> opcode_kind(b) == OpcodeKind::PushSeg,
        b % 16 == 7 ==> opcode_kind(b) == OpcodeKind::PopSeg,
        8 <= b % 16 <= 13 ==> opcode_kind(b) == OpcodeKind::Unassigned,
        b % 16 == 14 ==> opcode_kind(b) == OpcodeKind::PushSeg,
        b % 16 == 15 ==> opcode_kind(b) == OpcodeKind::PopSeg,
{
}

/// Row 0x1_ of the opcode map, column by column: adc, sbb and the segment pushes and pops.
pub proof fn lemma_opcode_row_1(b: u8)
    requires
        b / 16 == 1,
    ensures
        0 <= b % 16 <= 3 ==> opcode_kind(b) == OpcodeKind::AdcRegmemWRegToEither,
        4 <= b % 16 <= 5 ==> opcode_kind(b) == OpcodeKind::AdcImmToAcc,
        b % 16 == 6 ==> opcode_kind(b) == OpcodeKind::PushSeg,
        b % 16 == 7 ==> opcode_kind(b) == OpcodeKind::PopSeg,
        8 <= b % 16 <= 11 ==> opcode_kind(b) == OpcodeKind::SbbRegmemFromRegToEither,
        12 <= b % 16 <= 13 ==> opcode_kind(b) == OpcodeKind::SbbImmFromAcc,
        b % 16 == 14 ==> opcode_kind(b) == OpcodeKind::PushSeg,
        b % 16 == 15 ==> opcode_kind(b) == OpcodeKind::PopSeg,
{
}

/// Row 0x2_ of the opcode map, column by column: and, sub and the decimal adjusts.
pub proof fn lemma_opcode_row_2(b: u8)
    requires
        b / 16 == 2,
    ensures
        0 <= b % 16 <= 3 ==> opcode_kind(b) == OpcodeKind::AndRegmemWithRegToEither,
        4 <= b % 16 <= 5 ==> opcode_kind(b) == OpcodeKind::AndImmToAcc,
        b % 16 == 6 ==> opcode_kind(b) == OpcodeKind::Unassigned,
        b % 16 == 7 ==> opcode_kind(b) == OpcodeKind::IncDaa,
        8 <= b % 16 <= 11 ==> opcode_kind(b) == OpcodeKind::SubRegmemAndRegToEither,
        12 <= b % 16 <= 13 ==> opcode_kind(b) == OpcodeKind::SubImmFromAcc,
        b % 16 == 14 ==> opcode_kind(b) == OpcodeKind::Unassigned,
        b % 16 == 15 ==> opcode_kind(b) == OpcodeKind::CmpDas,
{
}

/// Row 0x3_ of the opcode map, column by column: xor, cmp and the ASCII adjusts.
pub proof fn lemma_opcode_row_3(b: u8)
    requires
        b / 16 == 3,
    ensures
        0 <= b % 16 <= 3 ==> opcode_kind(b) == OpcodeKind::XorRegmemAndRegToEither,
        4 <= b % 16 <= 5 ==> opcode_kind(b) == OpcodeKind::XorImmToRegmemOrAcc,
        b % 16 == 6 ==> opcode_kind(b) == OpcodeKind::Unassigned,
        b % 16 == 7 ==> opcode_kind(b) == OpcodeKind::IncAaa,
        8 <= b % 16 <= 11 ==> opcode_kind(b) == OpcodeKind::CmpRegmemAndReg,
        12 <= b % 16 <= 13 ==> opcode_kind(b) == OpcodeKind::CmpImmAndAcc,
        b % 16 == 14 ==> opcode_kind(b) == OpcodeKind::Unassigned,
        b % 16 == 15 ==> opcode_kind(b) == OpcodeKind::CmpAas,
{
}

/// Row 0x4_ of the opcode map, column by column: inc and dec of a word register.
pub proof fn lemma_opcode_row_4(b: u8)
    requires
        b / 16 == 4,
    ensures
        0 <= b % 16 <= 7 ==> opcode_kind(b) == OpcodeKind::IncReg,
        8 <= b % 16 <= 15 ==> opcode_kind(b) == OpcodeKind::DecReg,
{
}

/// Row 0x5_ of the opcode map, column by column: push and pop of a word register.
pub proof fn lemma_opcode_row_5(b: u8)
    requires
        b / 16 == 5,
    ensures
        0 <= b % 16 <= 7 ==> opcode_kind(b) == OpcodeKind::PushReg,
        8 <= b % 16 <= 15 ==> opcode_kind(b) == OpcodeKind::PopReg,
{
}

/// Row 0x6_ of the opcode map, column by column: unassigned.
pub proof fn lemma_opcode_row_6(b: u8)
    requires
        b / 16 == 6,
    ensures
        0 <= b % 16 <= 15 ==> opcode_kind(b) == OpcodeKind::Unassigned,
{
}

/// Row 0x7_ of the opcode map, column by column: the conditional jumps.
pub proof fn lemma_opcode_row_7(b: u8)
    requires
        b / 16 == 7,
    ensures
        b % 16 == 0 ==> opcode_kind(b) == OpcodeKind::Jo,
        b % 16 == 1 ==> opcode_kind(b) == OpcodeKind::Jno,
        b % 16 == 2 ==> opcode_kind(b) == OpcodeKind::JbJnae,
        b % 16 == 3 ==> opcode_kind(b) == OpcodeKind::JnbJae,
        b % 16 == 4 ==> opcode_kind(b) == OpcodeKind::JeJz,
        b % 16 == 5 ==> opcode_kind(b) == OpcodeKind::JneJnz,
        b % 16 == 6 ==> opcode_kind(b) == OpcodeKind::JbeJna,
        b % 16 == 7 ==> opcode_kind(b) == OpcodeKind::JnbeJa,
        b % 16 == 8 ==> opcode_kind(b) == OpcodeKind::Js,
        b % 16 == 9 ==> opcode_kind(b) == OpcodeKind::Jns,
        b % 16 == 10 ==> opcode_kind(b) == OpcodeKind::JpJpe,
        b % 16 == 11 ==> opcode_kind(b) == OpcodeKind::JnpJpo,
        b % 16 == 12 ==> opcode_kind(b) == OpcodeKind::JlJnge,
        b % 16 == 13 ==> opcode_kind(b) == OpcodeKind::Unassigned,
        b % 16 == 14 ==> opcode_kind(b) == OpcodeKind::JleJng,
        b % 16 == 15 ==> opcode_kind(b) == OpcodeKind::JnleJg,
{
}

/// Row 0x8_ of the opcode map, column by column: immediate arithmetic, xchg, mov, lea and pop.
pub proof fn lemma_opcode_row_8(b: u8)
    requires
        b / 16 == 8,
    ensures
        0 <= b % 16 <= 3 ==> opcode_kind(b) == OpcodeKind::AddAdcSubSbbCmpAndOrImmToRegmem,
        4 <= b % 16 <= 5 ==> opcode_kind(b) == OpcodeKind::Unassigned,
        6 <= b % 16 <= 7 ==> opcode_kind(b) == OpcodeKind::XchgRegmemWReg,
        8 <= b % 16 <= 11 ==> opcode_kind(b) == OpcodeKind::MovRegmemTfReg,
        b % 16 == 12 ==> opcode_kind(b) == OpcodeKind::MovSegToRegmem,
        b % 16 == 13 ==> opcode_kind(b) == OpcodeKind::OutLea,
        b % 16 == 14 ==> opcode_kind(b) == OpcodeKind::MovRegmemToSeg,
        b % 16 == 15 ==> opcode_kind(b) == OpcodeKind::PopRegmem,
{
}

/// Row 0x9_ of the opcode map, column by column: xchg with the accumulator, conversions, far call, wait and the flag transfers.
pub proof fn lemma_opcode_row_9(b: u8)
    requires
        b / 16 == 9,
    ensures
        0 <= b % 16 <= 7 ==> opcode_kind(b) == OpcodeKind::XchgRegWAcc,
        b % 16 == 8 ==> opcode_kind(b) == OpcodeKind::CmpCbw,
        b % 16 == 9 ==> opcode_kind(b) == OpcodeKind::CmpCwd,
        b % 16 == 10 ==> opcode_kind(b) == OpcodeKind::CallDirectIntersegment,
        b % 16 == 11 ==> opcode_kind(b) == OpcodeKind::Wait,
        b % 16 == 12 ==> opcode_kind(b) == OpcodeKind::OutPushf,
        b % 16 == 13 ==> opcode_kind(b) == OpcodeKind::OutPopf,
        b % 16 == 14 ==> opcode_kind(b) == OpcodeKind::OutSahf,
        b % 16 == 15 ==> opcode_kind(b) == OpcodeKind::OutLahf,
{
}

/// Row 0xA_ of the opcode map, column by column: accumulator moves, string operations and test.
pub proof fn lemma_opcode_row_a(b: u8)
    requires
        b / 16 == 10,
    ensures
        0 <= b % 16 <= 1 ==> opcode_kind(b) == OpcodeKind::MovMemToAcc,
        2 <= b % 16 <= 3 ==> opcode_kind(b) == OpcodeKind::MovAccToMem,
        4 <= b % 16 <= 5 ==> opcode_kind(b) == OpcodeKind::StrMovs,
        6 <= b % 16 <= 7 ==> opcode_kind(b) == OpcodeKind::StrCmps,
        8 <= b % 16 <= 9 ==> opcode_kind(b) == OpcodeKind::TestImmAndAcc,
        10 <= b % 16 <= 11 ==> opcode_kind(b) == OpcodeKind::StrStds,
        12 <= b % 16 <= 13 ==> opcode_kind(b) == OpcodeKind::StrLods,
        14 <= b % 16 <= 15 ==> opcode_kind(b) == OpcodeKind::StrScas,
{
}

/// Row 0xB_ of the opcode map, column by column: mov of an immediate to a register.
pub proof fn lemma_opcode_row_b(b: u8)
    requires
        b / 16 == 11,
    ensures
        0 <= b % 16 <= 15 ==> opcode_kind(b) == OpcodeKind::MovImmToReg,
{
}

/// Row 0xC_ of the opcode map, column by column: returns, les, lds, mov of an immediate and interrupts.
pub proof fn lemma_opcode_row_c(b: u8)
    requires
        b / 16 == 12,
    ensures
        0 <= b % 16 <= 1 ==> opcode_kind(b) == OpcodeKind::Unassigned,
        b % 16 == 2 ==> opcode_kind(b) == OpcodeKind::RetWithinSegmentAddImmToSp,
        b % 16 == 3 ==> opcode_kind(b) == OpcodeKind::RetWithinSegment,
        b % 16 == 4 ==> opcode_kind(b) == OpcodeKind::OutLes,
        b % 16 == 5 ==> opcode_kind(b) == OpcodeKind::OutLds,
        6 <= b % 16 <= 7 ==> opcode_kind(b) == OpcodeKind::MovImmToRegmem,
        8 <= b % 16 <= 9 ==> opcode_kind(b) == OpcodeKind::Unassigned,
        b % 16 == 10 ==> opcode_kind(b) == OpcodeKind::RetIntersegmentAddImmToSp,
        b % 16 == 11 ==> opcode_kind(b) == OpcodeKind::RetIntersegment,
        b % 16 == 12 ==> opcode_kind(b) == OpcodeKind::InterruptType3,
        b % 16 == 13 ==> opcode_kind(b) == OpcodeKind::InterruptTyped,
        b % 16 == 14 ==> opcode_kind(b) == OpcodeKind::InterruptOnOverflow,
        b % 16 == 15 ==> opcode_kind(b) == OpcodeKind::InterruptReturn,
{
}

/// Row 0xD_ of the opcode map, column by column: shifts and rotates, aam, aad, xlat and esc.
pub proof fn lemma_opcode_row_d(b: u8)
    requires
        b / 16 == 13,
    ensures
        0 <= b % 16 <= 3 ==> opcode_kind(b) == OpcodeKind::ShlSalShrSarRolRorRclRcr,
        b % 16 == 4 ==> opcode_kind(b) == OpcodeKind::CmpAam,
        b % 16 == 5 ==> opcode_kind(b) == OpcodeKind::CmpAad,
        b % 16 == 6 ==> opcode_kind(b) == OpcodeKind::Unassigned,
        b % 16 == 7 ==> opcode_kind(b) == OpcodeKind::OutXlat,
        8 <= b % 16 <= 15 ==> opcode_kind(b) == OpcodeKind::Esc,
{
}

/// Row 0xE_ of the opcode map, column by column: loops, in, out, near and far call and jump.
pub proof fn lemma_opcode_row_e(b: u8)
    requires
        b / 16 == 14,
    ensures
        b % 16 == 0 ==> opcode_kind(b) == OpcodeKind::LoopnzLoopne,
        b % 16 == 1 ==> opcode_kind(b) == OpcodeKind::LoopzLoope,
        b % 16 == 2 ==> opcode_kind(b) == OpcodeKind::Loop,
        b % 16 == 3 ==> opcode_kind(b) == OpcodeKind::Jcxz,
        4 <= b % 16 <= 5 ==> opcode_kind(b) == OpcodeKind::InFixed,
        6 <= b % 16 <= 7 ==> opcode_kind(b) == OpcodeKind::OutFixed,
        b % 16 == 8 ==> opcode_kind(b) == OpcodeKind::CallDirectWithinSegment,
        b % 16 == 9 ==> opcode_kind(b) == OpcodeKind::JmpDirectWithinSegment,
        b % 16 == 10 ==> opcode_kind(b) == OpcodeKind::JmpDirectIntersegment,
        b % 16 == 11 ==> opcode_kind(b) == OpcodeKind::JmpDirectWithinSegmentShort,
        12 <= b % 16 <= 13 ==> opcode_kind(b) == OpcodeKind::InVariable,
        14 <= b % 16 <= 15 ==> opcode_kind(b) == OpcodeKind::OutVariable,
{
}

/// Row 0xF_ of the opcode map, column by column: lock, rep, hlt, cmc, the group-3 operations and the flag settings.
pub proof fn lemma_opcode_row_f(b: u8)
    requires
        b / 16 == 15,
    ensures
        b % 16 == 0 ==> opcode_kind(b) == OpcodeKind::Lock,
        1 <= b % 16 <= 2 ==> opcode_kind(b) == OpcodeKind::Unassigned,
        b % 16 == 3 ==> opcode_kind(b) == OpcodeKind::StrRep,
        b % 16 == 4 ==> opcode_kind(b) == OpcodeKind::Halt,
        b % 16 == 5 ==> opcode_kind(b) == OpcodeKind::ComplementCarry,
        6 <= b % 16 <= 7 ==> opcode_kind(b) == OpcodeKind::NegMulDivNotTest,
        b % 16 == 8 ==> opcode_kind(b) == OpcodeKind::ClearCarry,
        b % 16 == 9 ==> opcode_kind(b) == OpcodeKind::SetCarry,
        b % 16 == 10 ==> opcode_kind(b) == OpcodeKind::ClearInterrupt,
        b % 16 == 11 ==> opcode_kind(b) == OpcodeKind::SetInterrupt,
        b % 16 == 12 ==> opcode_kind(b) == OpcodeKind::ClearDirection,
        b % 16 == 13 ==> opcode_kind(b) == OpcodeKind::SetDirection,
        14 <= b % 16 <= 15 ==> opcode_kind(b) == OpcodeKind::PushIncDecCallJmpRegmem,
{
}
/// The moves between the accumulator and memory (0xA0..=0xA3) are told apart
/// by the direction bit (bit 1) alone: with it clear, memory is moved to the
/// accumulator; with it set, the accumulator is moved to memory.
pub proof fn lemma_accumulator_move_direction(b: u8)
    requires
        0xA0 <= b <= 0xA3,
    ensures
        opcode_kind(b) == OpcodeKind::MovMemToAcc <==> b & 2 == 0,
        opcode_kind(b) == OpcodeKind::MovAccToMem <==> b & 2 != 0,
{
    assert(0xA0 <= b <= 0xA3 ==> (b & 2 == 0 <==> (b == 0xA0 || b == 0xA1))) by (bit_vector);
}

/// The moves between a segment register and a register or memory (0x8C and
/// 0x8E) are told apart by the direction bit: with it set, the segment
/// register is the destination.
pub proof fn lemma_segment_move_direction(b: u8)
    requires
        b == 0x8C || b == 0x8E,
    ensures
        opcode_kind(b) == OpcodeKind::MovSegToRegmem <==> b & 2 == 0,
        opcode_kind(b) == OpcodeKind::MovRegmemToSeg <==> b & 2 != 0,
{
    assert((b == 0x8C || b == 0x8E) ==> (b & 2 == 0 <==> b == 0x8C)) by (bit_vector);
}

/// Where the lowest bit of the opcode is the width bit, the width does not
/// change the instruction form: an even opcode and the odd one after it
/// select the same handler.
pub proof fn lemma_width_bit(b: u8)
    requires
        b % 2 == 0,
        (b < 0x40 && b % 8 < 6) || (0x80 <= b <= 0x8B) || (0xA0 <= b <= 0xAF) || (0xC6 <= b <= 0xC7)
            || (0xD0 <= b <= 0xD3) || (0xE4 <= b <= 0xE7) || (0xEC <= b <= 0xEF) || (0xF6 <= b
            <= 0xF7) || (0xFE <= b),
    ensures
        opcode_kind(b) == opcode_kind((b + 1) as u8),
{
}

/// Where the low three bits of the opcode name a register (inc, dec, push,
/// pop, xchg with the accumulator, mov of an immediate), the register does
/// not change the instruction form: the opcode selects the same handler as
/// the one with those bits clear.
pub proof fn lemma_register_field(b: u8)
    requires
        (0x40 <= b <= 0x5F) || (0x90 <= b <= 0x97) || (0xB0 <= b <= 0xBF),
    ensures
        opcode_kind(b) == opcode_kind((b - b % 8) as u8),
{
}

/// The decoder reads an operand byte after exactly these opcodes: the
/// conditional jumps 0x70..=0x7F that it assigns (all but 0x7D), the loops
/// and `jcxz` (0xE0..=0xE3), and `int` with a type (0xCD).
pub proof fn lemma_operand_opcodes(b: u8)
    ensures
        reads_operand(opcode_kind(b)) <==> ((0x70 <= b <= 0x7F && b != 0x7D) || (0xE0 <= b <= 0xE3)
            || b == 0xCD),
{
}

} // verus!
