use sim8086::bits::{get_bits, get_value, has_bits};
use sim8086::decode::{decode_all, decode_next, DecodeError, Instruction};
use sim8086::opcode::{decode_opcode, takes_operand, OpcodeKind};
use sim8086::regs::{rm_base, segment_name, Reg, RegTable};

fn inst(kind: OpcodeKind, opcode: u8, operand: Option<u8>) -> Instruction {
    Instruction { kind, opcode, operand }
}

#[test]
fn opcode_mov_forms() {
    assert_eq!(decode_opcode(0x88), OpcodeKind::MovRegmemTfReg);
    assert_eq!(decode_opcode(0x8B), OpcodeKind::MovRegmemTfReg);
    assert_eq!(decode_opcode(0xC6), OpcodeKind::MovImmToRegmem);
    assert_eq!(decode_opcode(0xC7), OpcodeKind::MovImmToRegmem);
    assert_eq!(decode_opcode(0xA0), OpcodeKind::MovMemToAcc);
    assert_eq!(decode_opcode(0xA3), OpcodeKind::MovAccToMem);
    assert_eq!(decode_opcode(0x8E), OpcodeKind::MovRegmemToSeg);
    assert_eq!(decode_opcode(0x8C), OpcodeKind::MovSegToRegmem);
    for b in 0xB0u8..=0xBF {
        assert_eq!(decode_opcode(b), OpcodeKind::MovImmToReg);
    }
}

#[test]
fn opcode_segment_push_pop() {
    for b in [0x06u8, 0x0E, 0x16, 0x1E] {
        assert_eq!(decode_opcode(b), OpcodeKind::PushSeg);
    }
    for b in [0x07u8, 0x0F, 0x17, 0x1F] {
        assert_eq!(decode_opcode(b), OpcodeKind::PopSeg);
    }
    // segment override prefixes are not assigned
    for b in [0x26u8, 0x2E, 0x36, 0x3E] {
        assert_eq!(decode_opcode(b), OpcodeKind::Unassigned);
    }
}

#[test]
fn opcode_unassigned_bytes() {
    for b in 0x60u8..=0x6F {
        assert_eq!(decode_opcode(b), OpcodeKind::Unassigned);
    }
    for b in [0x08u8, 0x09, 0x0A, 0x0B, 0x0C, 0x0D, 0x7D, 0x84, 0x85, 0xC0, 0xC1, 0xC8, 0xC9, 0xD6, 0xF1, 0xF2] {
        assert_eq!(decode_opcode(b), OpcodeKind::Unassigned);
    }
}

#[test]
fn opcode_register_ranges() {
    for b in 0x40u8..=0x47 {
        assert_eq!(decode_opcode(b), OpcodeKind::IncReg);
    }
    for b in 0x48u8..=0x4F {
        assert_eq!(decode_opcode(b), OpcodeKind::DecReg);
    }
    for b in 0x50u8..=0x57 {
        assert_eq!(decode_opcode(b), OpcodeKind::PushReg);
    }
    for b in 0x58u8..=0x5F {
        assert_eq!(decode_opcode(b), OpcodeKind::PopReg);
    }
    for b in 0x90u8..=0x97 {
        assert_eq!(decode_opcode(b), OpcodeKind::XchgRegWAcc);
    }
    for b in 0xD8u8..=0xDF {
        assert_eq!(decode_opcode(b), OpcodeKind::Esc);
    }
}

#[test]
fn opcode_flags_and_top_of_map() {
    assert_eq!(decode_opcode(0xF0), OpcodeKind::Lock);
    assert_eq!(decode_opcode(0xF3), OpcodeKind::StrRep);
    assert_eq!(decode_opcode(0xF4), OpcodeKind::Halt);
    assert_eq!(decode_opcode(0xF5), OpcodeKind::ComplementCarry);
    assert_eq!(decode_opcode(0xF8), OpcodeKind::ClearCarry);
    assert_eq!(decode_opcode(0xF9), OpcodeKind::SetCarry);
    assert_eq!(decode_opcode(0xFA), OpcodeKind::ClearInterrupt);
    assert_eq!(decode_opcode(0xFB), OpcodeKind::SetInterrupt);
    assert_eq!(decode_opcode(0xFC), OpcodeKind::ClearDirection);
    assert_eq!(decode_opcode(0xFD), OpcodeKind::SetDirection);
    assert_eq!(decode_opcode(0xFE), OpcodeKind::PushIncDecCallJmpRegmem);
    assert_eq!(decode_opcode(0xFF), OpcodeKind::PushIncDecCallJmpRegmem);
    assert_eq!(decode_opcode(0x00), OpcodeKind::AddRegmemWRegToEither);
    assert_eq!(decode_opcode(0x05), OpcodeKind::AddImmToAcc);
}

#[test]
fn opcode_jumps_read_an_operand() {
    let jumps = [
        (0x70u8, OpcodeKind::Jo),
        (0x71, OpcodeKind::Jno),
        (0x72, OpcodeKind::JbJnae),
        (0x73, OpcodeKind::JnbJae),
        (0x74, OpcodeKind::JeJz),
        (0x75, OpcodeKind::JneJnz),
        (0x76, OpcodeKind::JbeJna),
        (0x77, OpcodeKind::JnbeJa),
        (0x78, OpcodeKind::Js),
        (0x79, OpcodeKind::Jns),
        (0x7A, OpcodeKind::JpJpe),
        (0x7B, OpcodeKind::JnpJpo),
        (0x7C, OpcodeKind::JlJnge),
        (0x7E, OpcodeKind::JleJng),
        (0x7F, OpcodeKind::JnleJg),
        (0xE0, OpcodeKind::LoopnzLoopne),
        (0xE1, OpcodeKind::LoopzLoope),
        (0xE2, OpcodeKind::Loop),
        (0xE3, OpcodeKind::Jcxz),
        (0xCD, OpcodeKind::InterruptTyped),
    ];
    for (b, k) in jumps {
        assert_eq!(decode_opcode(b), k);
        assert!(takes_operand(k));
    }
    assert!(!takes_operand(OpcodeKind::MovImmToReg));
    assert!(!takes_operand(OpcodeKind::JmpDirectWithinSegmentShort));
    assert!(!takes_operand(OpcodeKind::Unassigned));
}

#[test]
fn opcode_operand_readers_are_exactly_twenty() {
    let n = (0u16..=255).filter(|b| takes_operand(decode_opcode(*b as u8))).count();
    assert_eq!(n, 20);
}

#[test]
fn decode_all_empty_stream() {
    assert_eq!(decode_all(&[]), Ok(vec![]));
}

#[test]
fn decode_all_jump_then_xchg() {
    let r = decode_all(&[0x74, 0x05, 0x90]);
    assert_eq!(
        r,
        Ok(vec![inst(OpcodeKind::JeJz, 0x74, Some(0x05)), inst(OpcodeKind::XchgRegWAcc, 0x90, None)])
    );
}

#[test]
fn decode_all_does_not_consume_operands_of_other_forms() {
    // only the opcode byte is consumed for a mov: the next byte is decoded as an opcode
    let r = decode_all(&[0x89, 0xD9]);
    assert_eq!(
        r,
        Ok(vec![inst(OpcodeKind::MovRegmemTfReg, 0x89, None), inst(OpcodeKind::Esc, 0xD9, None)])
    );
}

#[test]
fn decode_all_interrupt() {
    assert_eq!(decode_all(&[0xCD, 0x21]), Ok(vec![inst(OpcodeKind::InterruptTyped, 0xCD, Some(0x21))]));
}

#[test]
fn decode_all_missing_jump_operand() {
    let e = decode_all(&[0x90, 0x74]).unwrap_err();
    assert_eq!(e, DecodeError::MissingOperand(OpcodeKind::JeJz));
    assert_eq!(e.message(), "wanted next byte for jump");
}

#[test]
fn decode_all_missing_loop_operand() {
    let e = decode_all(&[0xE2]).unwrap_err();
    assert_eq!(e, DecodeError::MissingOperand(OpcodeKind::Loop));
    assert_eq!(e.message(), "wanted next byte for loop");
    let e = decode_all(&[0xE3]).unwrap_err();
    assert_eq!(e.message(), "wanted next byte for loop");
}

#[test]
fn decode_all_missing_interrupt_operand() {
    let e = decode_all(&[0xCD]).unwrap_err();
    assert_eq!(e, DecodeError::MissingOperand(OpcodeKind::InterruptTyped));
    assert_eq!(e.message(), "expected byte for interrupt.");
}

#[test]
fn decode_next_positions() {
    let bytes = [0x90u8, 0x75, 0xFE, 0x75];
    assert_eq!(decode_next(&bytes, 0), Ok((inst(OpcodeKind::XchgRegWAcc, 0x90, None), 1)));
    assert_eq!(decode_next(&bytes, 1), Ok((inst(OpcodeKind::JneJnz, 0x75, Some(0xFE)), 3)));
    assert_eq!(decode_next(&bytes, 3), Err(DecodeError::MissingOperand(OpcodeKind::JneJnz)));
}

#[test]
fn law_decode_concat_concrete() {
    let a = [0x74u8, 0x05, 0xB8];
    let b = [0xCDu8, 0x21, 0xF4];
    let mut ab = a.to_vec();
    ab.extend_from_slice(&b);
    let mut expected = decode_all(&a).unwrap();
    expected.extend(decode_all(&b).unwrap());
    assert_eq!(decode_all(&ab), Ok(expected));
}

#[test]
fn law_decode_keeps_bytes_concrete() {
    let bytes = [0x74u8, 0x05, 0xB8, 0x01, 0xCD, 0x21, 0x06];
    let xs = decode_all(&bytes).unwrap();
    let mut back = Vec::new();
    for i in &xs {
        back.push(i.opcode);
        if let Some(x) = i.operand {
            back.push(x);
        }
        assert_eq!(i.kind, decode_opcode(i.opcode));
        assert_eq!(i.operand.is_some(), takes_operand(i.kind));
    }
    assert_eq!(back, bytes.to_vec());
}

#[test]
fn law_decode_error_at_end_concrete() {
    let e = decode_all(&[0x01, 0x74, 0x00, 0x7F]).unwrap_err();
    assert_eq!(e, DecodeError::MissingOperand(decode_opcode(0x7F)));
    // an operand-reading opcode that is itself an operand does not fail
    assert!(decode_all(&[0x74, 0x74]).is_ok());
}

#[test]
fn get_value_word_is_little_endian() {
    assert_eq!(get_value(true, &[0x34, 0x12], 0), (0x1234, 2));
    assert_eq!(get_value(true, &[0x00, 0xFF, 0x80], 1), (0x80FF, 3));
}

#[test]
fn get_value_byte() {
    assert_eq!(get_value(false, &[0xFF], 0), (0x00FF, 1));
    assert_eq!(get_value(false, &[0x01, 0x02], 1), (0x0002, 2));
}

#[test]
fn bit_masks() {
    assert_eq!(get_bits(0xAB, 0b0000_0111), 0b011);
    assert!(has_bits(0b1011, 0b0011));
    assert!(!has_bits(0b1001, 0b0011));
    for b in 0u16..=255 {
        let b = b as u8;
        assert_eq!(has_bits(b, 0x81), get_bits(b, 0x81) == 0x81);
    }
}

#[test]
fn reg_table_rows() {
    let t = RegTable::new();
    let bytes = [Reg::Al, Reg::Cl, Reg::Dl, Reg::Bl, Reg::Ah, Reg::Ch, Reg::Dh, Reg::Bh];
    let words = [Reg::Ax, Reg::Cx, Reg::Dx, Reg::Bx, Reg::Sp, Reg::Bp, Reg::Si, Reg::Di];
    for r in 0u8..8 {
        assert_eq!(t.index((false, r)), bytes[r as usize]);
        assert_eq!(t.index((true, r)), words[r as usize]);
    }
}

#[test]
fn reg_table_width_and_distinct_names() {
    let t = RegTable::new();
    for w in [false, true] {
        let names: Vec<&str> = (0u8..8).map(|r| t.index((w, r)).name()).collect();
        for i in 0..8 {
            for j in 0..8 {
                if i != j {
                    assert_ne!(names[i], names[j]);
                }
            }
            let wide = names[i].ends_with('x') || ["sp", "bp", "si", "di"].contains(&names[i]);
            assert_eq!(wide, w);
        }
    }
}

#[test]
fn reg_names() {
    assert_eq!(Reg::Ax.name(), "ax");
    assert_eq!(Reg::Bh.name(), "bh");
    assert_eq!(Reg::Di.name(), "di");
}

#[test]
fn effective_address_and_segment_names() {
    assert_eq!(rm_base(0), "[bx + si");
    assert_eq!(rm_base(3), "[bp + di");
    assert_eq!(rm_base(6), "[bp");
    assert_eq!(rm_base(7), "[bx");
    assert_eq!(segment_name(0), "es");
    assert_eq!(segment_name(1), "cs");
    assert_eq!(segment_name(2), "ss");
    assert_eq!(segment_name(3), "ds");
}
