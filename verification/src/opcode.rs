//! The 8086 opcode map and its decoding by a binary search over the bits of
//! the opcode byte.

use vstd::prelude::*;

use crate::bits::{bit, get_bits, lemma_byte_bits};

verus! {

/// The handler that an opcode byte selects. Each variant is named after the
/// instruction form it decodes; `Unassigned` marks opcodes that the decoder
/// does not assign to any form.
#[derive(Clone, Copy, Debug, PartialEq, Eq, Structural)]
pub enum OpcodeKind {
    AddRegmemWRegToEither,
    AddImmToAcc,
    PushSeg,
    PopSeg,
    Unassigned,
    AdcRegmemWRegToEither,
    AdcImmToAcc,
    SbbRegmemFromRegToEither,
    SbbImmFromAcc,
    AndRegmemWithRegToEither,
    AndImmToAcc,
    IncDaa,
    SubRegmemAndRegToEither,
    SubImmFromAcc,
    CmpDas,
    XorRegmemAndRegToEither,
    XorImmToRegmemOrAcc,
    IncAaa,
    CmpRegmemAndReg,
    CmpImmAndAcc,
    CmpAas,
    IncReg,
    DecReg,
    PushReg,
    PopReg,
    Jo,
    Jno,
    JbJnae,
    JnbJae,
    JeJz,
    JneJnz,
    JbeJna,
    JnbeJa,
    Js,
    Jns,
    JpJpe,
    JnpJpo,
    JlJnge,
    JleJng,
    JnleJg,
    AddAdcSubSbbCmpAndOrImmToRegmem,
    XchgRegmemWReg,
    MovRegmemTfReg,
    MovSegToRegmem,
    OutLea,
    MovRegmemToSeg,
    PopRegmem,
    XchgRegWAcc,
    CmpCbw,
    CmpCwd,
    CallDirectIntersegment,
    Wait,
    OutPushf,
    OutPopf,
    OutSahf,
    OutLahf,
    MovMemToAcc,
    MovAccToMem,
    StrMovs,
    StrCmps,
    TestImmAndAcc,
    StrStds,
    StrLods,
    StrScas,
    MovImmToReg,
    RetWithinSegmentAddImmToSp,
    RetWithinSegment,
    OutLes,
    OutLds,
    MovImmToRegmem,
    RetIntersegmentAddImmToSp,
    RetIntersegment,
    InterruptType3,
    InterruptTyped,
    InterruptOnOverflow,
    InterruptReturn,
    ShlSalShrSarRolRorRclRcr,
    CmpAam,
    CmpAad,
    OutXlat,
    Esc,
    LoopnzLoopne,
    LoopzLoope,
    Loop,
    Jcxz,
    InFixed,
    OutFixed,
    CallDirectWithinSegment,
    JmpDirectWithinSegment,
    JmpDirectIntersegment,
    JmpDirectWithinSegmentShort,
    InVariable,
    OutVariable,
    Lock,
    StrRep,
    Halt,
    ComplementCarry,
    NegMulDivNotTest,
    ClearCarry,
    SetCarry,
    ClearInterrupt,
    SetInterrupt,
    ClearDirection,
    SetDirection,
    PushIncDecCallJmpRegmem,
}

/// The opcode map: the handler of each opcode byte, by ascending ranges of
/// the byte's value.
pub open spec fn opcode_kind(b: u8) -> OpcodeKind {
    if b <= 0x03 {
        OpcodeKind::AddRegmemWRegToEither
    } else if b <= 0x05 {
        OpcodeKind::AddImmToAcc
    } else if b == 0x06 {
        OpcodeKind::PushSeg
    } else if b == 0x07 {
        OpcodeKind::PopSeg
    } else if b <= 0x0D {
        OpcodeKind::Unassigned
    } else if b == 0x0E {
        OpcodeKind::PushSeg
    } else if b == 0x0F {
        OpcodeKind::PopSeg
    } else if b <= 0x13 {
        OpcodeKind::AdcRegmemWRegToEither
    } else if b <= 0x15 {
        OpcodeKind::AdcImmToAcc
    } else if b == 0x16 {
        OpcodeKind::PushSeg
    } else if b == 0x17 {
        OpcodeKind::PopSeg
    } else if b <= 0x1B {
        OpcodeKind::SbbRegmemFromRegToEither
    } else if b <= 0x1D {
        OpcodeKind::SbbImmFromAcc
    } else if b == 0x1E {
        OpcodeKind::PushSeg
    } else if b == 0x1F {
        OpcodeKind::PopSeg
    } else if b <= 0x23 {
        OpcodeKind::AndRegmemWithRegToEither
    } else if b <= 0x25 {
        OpcodeKind::AndImmToAcc
    } else if b == 0x26 {
        OpcodeKind::Unassigned
    } else if b == 0x27 {
        OpcodeKind::IncDaa
    } else if b <= 0x2B {
        OpcodeKind::SubRegmemAndRegToEither
    } else if b <= 0x2D {
        OpcodeKind::SubImmFromAcc
    } else if b == 0x2E {
        OpcodeKind::Unassigned
    } else if b == 0x2F {
        OpcodeKind::CmpDas
    } else if b <= 0x33 {
        OpcodeKind::XorRegmemAndRegToEither
    } else if b <= 0x35 {
        OpcodeKind::XorImmToRegmemOrAcc
    } else if b == 0x36 {
        OpcodeKind::Unassigned
    } else if b == 0x37 {
        OpcodeKind::IncAaa
    } else if b <= 0x3B {
        OpcodeKind::CmpRegmemAndReg
    } else if b <= 0x3D {
        OpcodeKind::CmpImmAndAcc
    } else if b == 0x3E {
        OpcodeKind::Unassigned
    } else if b == 0x3F {
        OpcodeKind::CmpAas
    } else if b <= 0x47 {
        OpcodeKind::IncReg
    } else if b <= 0x4F {
        OpcodeKind::DecReg
    } else if b <= 0x57 {
        OpcodeKind::PushReg
    } else if b <= 0x5F {
        OpcodeKind::PopReg
    } else if b <= 0x6F {
        OpcodeKind::Unassigned
    } else if b == 0x70 {
        OpcodeKind::Jo
    } else if b == 0x71 {
        OpcodeKind::Jno
    } else if b == 0x72 {
        OpcodeKind::JbJnae
    } else if b == 0x73 {
        OpcodeKind::JnbJae
    } else if b == 0x74 {
        OpcodeKind::JeJz
    } else if b == 0x75 {
        OpcodeKind::JneJnz
    } else if b == 0x76 {
        OpcodeKind::JbeJna
    } else if b == 0x77 {
        OpcodeKind::JnbeJa
    } else if b == 0x78 {
        OpcodeKind::Js
    } else if b == 0x79 {
        OpcodeKind::Jns
    } else if b == 0x7A {
        OpcodeKind::JpJpe
    } else if b == 0x7B {
        OpcodeKind::JnpJpo
    } else if b == 0x7C {
        OpcodeKind::JlJnge
    } else if b == 0x7D {
        OpcodeKind::Unassigned
    } else if b == 0x7E {
        OpcodeKind::JleJng
    } else if b == 0x7F {
        OpcodeKind::JnleJg
    } else if b <= 0x83 {
        OpcodeKind::AddAdcSubSbbCmpAndOrImmToRegmem
    } else if b <= 0x85 {
        OpcodeKind::Unassigned
    } else if b <= 0x87 {
        OpcodeKind::XchgRegmemWReg
    } else if b <= 0x8B {
        OpcodeKind::MovRegmemTfReg
    } else if b == 0x8C {
        OpcodeKind::MovSegToRegmem
    } else if b == 0x8D {
        OpcodeKind::OutLea
    } else if b == 0x8E {
        OpcodeKind::MovRegmemToSeg
    } else if b == 0x8F {
        OpcodeKind::PopRegmem
    } else if b <= 0x97 {
        OpcodeKind::XchgRegWAcc
    } else if b == 0x98 {
        OpcodeKind::CmpCbw
    } else if b == 0x99 {
        OpcodeKind::CmpCwd
    } else if b == 0x9A {
        OpcodeKind::CallDirectIntersegment
    } else if b == 0x9B {
        OpcodeKind::Wait
    } else if b == 0x9C {
        OpcodeKind::OutPushf
    } else if b == 0x9D {
        OpcodeKind::OutPopf
    } else if b == 0x9E {
        OpcodeKind::OutSahf
    } else if b == 0x9F {
        OpcodeKind::OutLahf
    } else if b <= 0xA1 {
        OpcodeKind::MovMemToAcc
    } else if b <= 0xA3 {
        OpcodeKind::MovAccToMem
    } else if b <= 0xA5 {
        OpcodeKind::StrMovs
    } else if b <= 0xA7 {
        OpcodeKind::StrCmps
    } else if b <= 0xA9 {
        OpcodeKind::TestImmAndAcc
    } else if b <= 0xAB {
        OpcodeKind::StrStds
    } else if b <= 0xAD {
        OpcodeKind::StrLods
    } else if b <= 0xAF {
        OpcodeKind::StrScas
    } else if b <= 0xBF {
        OpcodeKind::MovImmToReg
    } else if b <= 0xC1 {
        OpcodeKind::Unassigned
    } else if b == 0xC2 {
        OpcodeKind::RetWithinSegmentAddImmToSp
    } else if b == 0xC3 {
        OpcodeKind::RetWithinSegment
    } else if b == 0xC4 {
        OpcodeKind::OutLes
    } else if b == 0xC5 {
        OpcodeKind::OutLds
    } else if b <= 0xC7 {
        OpcodeKind::MovImmToRegmem
    } else if b <= 0xC9 {
        OpcodeKind::Unassigned
    } else if b == 0xCA {
        OpcodeKind::RetIntersegmentAddImmToSp
    } else if b == 0xCB {
        OpcodeKind::RetIntersegment
    } else if b == 0xCC {
        OpcodeKind::InterruptType3
    } else if b == 0xCD {
        OpcodeKind::InterruptTyped
    } else if b == 0xCE {
        OpcodeKind::InterruptOnOverflow
    } else if b == 0xCF {
        OpcodeKind::InterruptReturn
    } else if b <= 0xD3 {
        OpcodeKind::ShlSalShrSarRolRorRclRcr
    } else if b == 0xD4 {
        OpcodeKind::CmpAam
    } else if b == 0xD5 {
        OpcodeKind::CmpAad
    } else if b == 0xD6 {
        OpcodeKind::Unassigned
    } else if b == 0xD7 {
        OpcodeKind::OutXlat
    } else if b <= 0xDF {
        OpcodeKind::Esc
    } else if b == 0xE0 {
        OpcodeKind::LoopnzLoopne
    } else if b == 0xE1 {
        OpcodeKind::LoopzLoope
    } else if b == 0xE2 {
        OpcodeKind::Loop
    } else if b == 0xE3 {
        OpcodeKind::Jcxz
    } else if b <= 0xE5 {
        OpcodeKind::InFixed
    } else if b <= 0xE7 {
        OpcodeKind::OutFixed
    } else if b == 0xE8 {
        OpcodeKind::CallDirectWithinSegment
    } else if b == 0xE9 {
        OpcodeKind::JmpDirectWithinSegment
    } else if b == 0xEA {
        OpcodeKind::JmpDirectIntersegment
    } else if b == 0xEB {
        OpcodeKind::JmpDirectWithinSegmentShort
    } else if b <= 0xED {
        OpcodeKind::InVariable
    } else if b <= 0xEF {
        OpcodeKind::OutVariable
    } else if b == 0xF0 {
        OpcodeKind::Lock
    } else if b <= 0xF2 {
        OpcodeKind::Unassigned
    } else if b == 0xF3 {
        OpcodeKind::StrRep
    } else if b == 0xF4 {
        OpcodeKind::Halt
    } else if b == 0xF5 {
        OpcodeKind::ComplementCarry
    } else if b <= 0xF7 {
        OpcodeKind::NegMulDivNotTest
    } else if b == 0xF8 {
        OpcodeKind::ClearCarry
    } else if b == 0xF9 {
        OpcodeKind::SetCarry
    } else if b == 0xFA {
        OpcodeKind::ClearInterrupt
    } else if b == 0xFB {
        OpcodeKind::SetInterrupt
    } else if b == 0xFC {
        OpcodeKind::ClearDirection
    } else if b == 0xFD {
        OpcodeKind::SetDirection
    } else {
        OpcodeKind::PushIncDecCallJmpRegmem
    }
}

/// Whether the decoder reads the byte after the opcode itself, as the
/// operand of the instruction (the 8-bit displacement of a conditional jump,
/// of a loop or of `jcxz`, and the type of `int`).
pub open spec fn reads_operand(k: OpcodeKind) -> bool {
    match k {
        OpcodeKind::Jo | OpcodeKind::Jno | OpcodeKind::JbJnae | OpcodeKind::JnbJae
        | OpcodeKind::JeJz | OpcodeKind::JneJnz | OpcodeKind::JbeJna | OpcodeKind::JnbeJa
        | OpcodeKind::Js | OpcodeKind::Jns | OpcodeKind::JpJpe | OpcodeKind::JnpJpo
        | OpcodeKind::JlJnge | OpcodeKind::JleJng | OpcodeKind::JnleJg
        | OpcodeKind::LoopnzLoopne | OpcodeKind::LoopzLoope | OpcodeKind::Loop
        | OpcodeKind::Jcxz | OpcodeKind::InterruptTyped => true,
        _ => false,
    }
}

/// Whether the decoder reads an operand byte after an opcode of kind `k`.
pub fn takes_operand(k: OpcodeKind) -> (r: bool)
    ensures
        r == reads_operand(k),
{
    match k {
        OpcodeKind::Jo | OpcodeKind::Jno | OpcodeKind::JbJnae | OpcodeKind::JnbJae
        | OpcodeKind::JeJz | OpcodeKind::JneJnz | OpcodeKind::JbeJna | OpcodeKind::JnbeJa
        | OpcodeKind::Js | OpcodeKind::Jns | OpcodeKind::JpJpe | OpcodeKind::JnpJpo
        | OpcodeKind::JlJnge | OpcodeKind::JleJng | OpcodeKind::JnleJg
        | OpcodeKind::LoopnzLoopne | OpcodeKind::LoopzLoope | OpcodeKind::Loop
        | OpcodeKind::Jcxz | OpcodeKind::InterruptTyped => true,
        _ => false,
    }
}

/// Classifies an opcode byte by testing its bits from the most significant
/// down, so that at most eight tests select the handler.
pub fn decode_opcode(byte: u8) -> (k: OpcodeKind)
    ensures
        k == opcode_kind(byte),
{
    // counting from the left
    let b0 = (byte >> 7u8) & 1 == 1;
    let b1 = (byte >> 6u8) & 1 == 1;
    let b2 = (byte >> 5u8) & 1 == 1;
    let b3 = (byte >> 4u8) & 1 == 1;
    let b4 = (byte >> 3u8) & 1 == 1;
    let b5 = (byte >> 2u8) & 1 == 1;
    let b6 = (byte >> 1u8) & 1 == 1;
    let b7 = (byte >> 0u8) & 1 == 1;
    proof {
        lemma_byte_bits(byte);
        assert(b0 == bit(byte, 7) && b1 == bit(byte, 6) && b2 == bit(byte, 5) && b3 == bit(byte, 4));
        assert(b4 == bit(byte, 3) && b5 == bit(byte, 2) && b6 == bit(byte, 1) && b7 == bit(byte, 0));
    }
    if b0 {
        if b1 {
            if b2 {
                if b3 {
                    if b4 {
                        if b5 {
                            if b6 {
                                OpcodeKind::PushIncDecCallJmpRegmem
                            } else {
                                if b7 { OpcodeKind::SetDirection } else { OpcodeKind::ClearDirection }
                            }
                        } else {
                            if b6 {
                                if b7 { OpcodeKind::SetInterrupt } else { OpcodeKind::ClearInterrupt }
                            } else {
                                if b7 { OpcodeKind::SetCarry } else { OpcodeKind::ClearCarry }
                            }
                        }
                    } else {
                        if b5 {
                            if b6 {
                                OpcodeKind::NegMulDivNotTest
                            } else {
                                if b7 { OpcodeKind::ComplementCarry } else { OpcodeKind::Halt }
                            }
                        } else {
                            if b6 {
                                if b7 { OpcodeKind::StrRep } else { OpcodeKind::Unassigned }
                            } else {
                                if b7 { OpcodeKind::Unassigned } else { OpcodeKind::Lock }
                            }
                        }
                    }
                } else {
                    if b4 {
                        if b5 {
                            if b6 { OpcodeKind::OutVariable } else { OpcodeKind::InVariable }
                        } else {
                            if b6 {
                                if b7 {
                                    OpcodeKind::JmpDirectWithinSegmentShort
                                } else {
                                    OpcodeKind::JmpDirectIntersegment
                                }
                            } else {
                                if b7 {
                                    OpcodeKind::JmpDirectWithinSegment
                                } else {
                                    OpcodeKind::CallDirectWithinSegment
                                }
                            }
                        }
                    } else {
                        if b5 {
                            if b6 { OpcodeKind::OutFixed } else { OpcodeKind::InFixed }
                        } else {
                            if b6 {
                                if b7 { OpcodeKind::Jcxz } else { OpcodeKind::Loop }
                            } else {
                                if b7 { OpcodeKind::LoopzLoope } else { OpcodeKind::LoopnzLoopne }
                            }
                        }
                    }
                }
            } else {
                if b3 {
                    if b4 {
                        OpcodeKind::Esc
                    } else {
                        if b5 {
                            if b6 {
                                if b7 { OpcodeKind::OutXlat } else { OpcodeKind::Unassigned }
                            } else {
                                if b7 { OpcodeKind::CmpAad } else { OpcodeKind::CmpAam }
                            }
                        } else {
                            OpcodeKind::ShlSalShrSarRolRorRclRcr
                        }
                    }
                } else {
                    if b4 {
                        if b5 {
                            if b6 {
                                if b7 {
                                    OpcodeKind::InterruptReturn
                                } else {
                                    OpcodeKind::InterruptOnOverflow
                                }
                            } else {
                                if b7 { OpcodeKind::InterruptTyped } else { OpcodeKind::InterruptType3 }
                            }
                        } else {
                            if b6 {
                                if b7 {
                                    OpcodeKind::RetIntersegment
                                } else {
                                    OpcodeKind::RetIntersegmentAddImmToSp
                                }
                            } else {
                                OpcodeKind::Unassigned
                            }
                        }
                    } else {
                        if b5 {
                            if b6 {
                                OpcodeKind::MovImmToRegmem
                            } else {
                                if b7 { OpcodeKind::OutLds } else { OpcodeKind::OutLes }
                            }
                        } else {
                            if b6 {
                                if b7 {
                                    OpcodeKind::RetWithinSegment
                                } else {
                                    OpcodeKind::RetWithinSegmentAddImmToSp
                                }
                            } else {
                                OpcodeKind::Unassigned
                            }
                        }
                    }
                }
            }
        } else {
            if b2 {
                if b3 {
                    OpcodeKind::MovImmToReg
                } else {
                    if b4 {
                        if b5 {
                            if b6 { OpcodeKind::StrScas } else { OpcodeKind::StrLods }
                        } else {
                            if b6 { OpcodeKind::StrStds } else { OpcodeKind::TestImmAndAcc }
                        }
                    } else {
                        if b5 {
                            if b6 { OpcodeKind::StrCmps } else { OpcodeKind::StrMovs }
                        } else {
                            if b6 { OpcodeKind::MovAccToMem } else { OpcodeKind::MovMemToAcc }
                        }
                    }
                }
            } else {
                if b3 {
                    if b4 {
                        if b5 {
                            if b6 {
                                if b7 { OpcodeKind::OutLahf } else { OpcodeKind::OutSahf }
                            } else {
                                if b7 { OpcodeKind::OutPopf } else { OpcodeKind::OutPushf }
                            }
                        } else {
                            if b6 {
                                if b7 { OpcodeKind::Wait } else { OpcodeKind::CallDirectIntersegment }
                            } else {
                                if b7 { OpcodeKind::CmpCwd } else { OpcodeKind::CmpCbw }
                            }
                        }
                    } else {
                        OpcodeKind::XchgRegWAcc
                    }
                } else {
                    if b4 {
                        if b5 {
                            if b6 {
                                if b7 { OpcodeKind::PopRegmem } else { OpcodeKind::MovRegmemToSeg }
                            } else {
                                if b7 { OpcodeKind::OutLea } else { OpcodeKind::MovSegToRegmem }
                            }
                        } else {
                            OpcodeKind::MovRegmemTfReg
                        }
                    } else {
                        if b5 {
                            if b6 {
                                OpcodeKind::XchgRegmemWReg
                            } else {
                                OpcodeKind::Unassigned
                            }
                        } else {
                            OpcodeKind::AddAdcSubSbbCmpAndOrImmToRegmem
                        }
                    }
                }
            }
        }
    } else {
        if b1 {
            if b2 {
                if b3 {
                    if b4 {
                        if b5 {
                            if b6 {
                                if b7 { OpcodeKind::JnleJg } else { OpcodeKind::JleJng }
                            } else {
                                if b7 { OpcodeKind::Unassigned } else { OpcodeKind::JlJnge }
                            }
                        } else {
                            if b6 {
                                if b7 { OpcodeKind::JnpJpo } else { OpcodeKind::JpJpe }
                            } else {
                                if b7 { OpcodeKind::Jns } else { OpcodeKind::Js }
                            }
                        }
                    } else {
                        if b5 {
                            if b6 {
                                if b7 { OpcodeKind::JnbeJa } else { OpcodeKind::JbeJna }
                            } else {
                                if b7 { OpcodeKind::JneJnz } else { OpcodeKind::JeJz }
                            }
                        } else {
                            if b6 {
                                if b7 { OpcodeKind::JnbJae } else { OpcodeKind::JbJnae }
                            } else {
                                if b7 { OpcodeKind::Jno } else { OpcodeKind::Jo }
                            }
                        }
                    }
                } else {
                    OpcodeKind::Unassigned
                }
            } else {
                if b3 {
                    if b4 { OpcodeKind::PopReg } else { OpcodeKind::PushReg }
                } else {
                    if b4 { OpcodeKind::DecReg } else { OpcodeKind::IncReg }
                }
            }
        } else {
            if b2 {
                if b3 {
                    if b4 {
                        if b5 {
                            if b6 {
                                if b7 { OpcodeKind::CmpAas } else { OpcodeKind::Unassigned }
                            } else {
                                OpcodeKind::CmpImmAndAcc
                            }
                        } else {
                            OpcodeKind::CmpRegmemAndReg
                        }
                    } else {
                        if b5 {
                            if b6 {
                                if b7 { OpcodeKind::IncAaa } else { OpcodeKind::Unassigned }
                            } else {
                                OpcodeKind::XorImmToRegmemOrAcc
                            }
                        } else {
                            OpcodeKind::XorRegmemAndRegToEither
                        }
                    }
                } else {
                    if b4 {
                        if b5 {
                            if b6 {
                                if b7 { OpcodeKind::CmpDas } else { OpcodeKind::Unassigned }
                            } else {
                                OpcodeKind::SubImmFromAcc
                            }
                        } else {
                            OpcodeKind::SubRegmemAndRegToEither
                        }
                    } else {
                        if b5 {
                            if b6 {
                                if b7 { OpcodeKind::IncDaa } else { OpcodeKind::Unassigned }
                            } else {
                                OpcodeKind::AndImmToAcc
                            }
                        } else {
                            OpcodeKind::AndRegmemWithRegToEither
                        }
                    }
                }
            } else {
                // the low three bits single out the segment pushes and pops
                let low = get_bits(byte, 0b00000111);
                if low == 0b110 {
                    OpcodeKind::PushSeg
                } else if low == 0b111 {
                    OpcodeKind::PopSeg
                } else {
                    // the leaves under 0001x11x and 0000x11x are never reached
                    if b3 {
                        if b4 {
                            if b5 {
                                if b6 { OpcodeKind::Unassigned } else { OpcodeKind::SbbImmFromAcc }
                            } else {
                                OpcodeKind::SbbRegmemFromRegToEither
                            }
                        } else {
                            if b5 {
                                if b6 { OpcodeKind::Unassigned } else { OpcodeKind::AdcImmToAcc }
                            } else {
                                OpcodeKind::AdcRegmemWRegToEither
                            }
                        }
                    } else {
                        if b4 {
                            OpcodeKind::Unassigned
                        } else {
                            if b5 {
                                if b6 { OpcodeKind::Unassigned } else { OpcodeKind::AddImmToAcc }
                            } else {
                                OpcodeKind::AddRegmemWRegToEither
                            }
                        }
                    }
                }
            }
        }
    }
}

} // verus!
