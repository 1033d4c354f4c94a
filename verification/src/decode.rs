//! Splitting a byte stream into instructions.

use vstd::prelude::*;

use crate::opcode::{decode_opcode, opcode_kind, reads_operand, takes_operand, OpcodeKind};

verus! {

/// One decoded instruction: the handler its opcode selects, the opcode byte,
/// and the operand byte that the decoder read after it, if any.
#[derive(Clone, Copy, Debug, PartialEq, Eq, Structural)]
pub struct Instruction {
    pub kind: OpcodeKind,
    pub opcode: u8,
    pub operand: Option<u8>,
}

/// Why a stream cannot be decoded.
#[derive(Clone, Copy, Debug, PartialEq, Eq, Structural)]
pub enum DecodeError {
    /// The stream ended right after an opcode whose operand byte the decoder reads.
    MissingOperand(OpcodeKind),
}

/// The text that reports a missing operand of an instruction of kind `k`.
pub open spec fn missing_operand_text(k: OpcodeKind) -> Seq<char> {
    match k {
        OpcodeKind::InterruptTyped => "expected byte for interrupt."@,
        OpcodeKind::LoopnzLoopne | OpcodeKind::LoopzLoope | OpcodeKind::Loop
        | OpcodeKind::Jcxz => "wanted next byte for loop"@,
        _ => "wanted next byte for jump"@,
    }
}

impl DecodeError {
    /// The text that reports this error.
    pub fn message(&self) -> (r: &'static str)
        ensures
            match *self {
                DecodeError::MissingOperand(k) => r@ == missing_operand_text(k),
            },
    {
        match *self {
            DecodeError::MissingOperand(k) => match k {
                OpcodeKind::InterruptTyped => "expected byte for interrupt.",
                OpcodeKind::LoopnzLoopne | OpcodeKind::LoopzLoope | OpcodeKind::Loop
                | OpcodeKind::Jcxz => "wanted next byte for loop",
                _ => "wanted next byte for jump",
            },
        }
    }
}

/// The texts that report a missing operand: one for the conditional jumps,
/// one for the loops and `jcxz`, one for `int`.
pub proof fn lemma_missing_operand_texts()
    ensures
        missing_operand_text(OpcodeKind::Jo) == "wanted next byte for jump"@,
        missing_operand_text(OpcodeKind::Jno) == "wanted next byte for jump"@,
        missing_operand_text(OpcodeKind::JbJnae) == "wanted next byte for jump"@,
        missing_operand_text(OpcodeKind::JnbJae) == "wanted next byte for jump"@,
        missing_operand_text(OpcodeKind::JeJz) == "wanted next byte for jump"@,
        missing_operand_text(OpcodeKind::JneJnz) == "wanted next byte for jump"@,
        missing_operand_text(OpcodeKind::JbeJna) == "wanted next byte for jump"@,
        missing_operand_text(OpcodeKind::JnbeJa) == "wanted next byte for jump"@,
        missing_operand_text(OpcodeKind::Js) == "wanted next byte for jump"@,
        missing_operand_text(OpcodeKind::Jns) == "wanted next byte for jump"@,
        missing_operand_text(OpcodeKind::JpJpe) == "wanted next byte for jump"@,
        missing_operand_text(OpcodeKind::JnpJpo) == "wanted next byte for jump"@,
        missing_operand_text(OpcodeKind::JlJnge) == "wanted next byte for jump"@,
        missing_operand_text(OpcodeKind::JleJng) == "wanted next byte for jump"@,
        missing_operand_text(OpcodeKind::JnleJg) == "wanted next byte for jump"@,
        missing_operand_text(OpcodeKind::LoopnzLoopne) == "wanted next byte for loop"@,
        missing_operand_text(OpcodeKind::LoopzLoope) == "wanted next byte for loop"@,
        missing_operand_text(OpcodeKind::Loop) == "wanted next byte for loop"@,
        missing_operand_text(OpcodeKind::Jcxz) == "wanted next byte for loop"@,
        missing_operand_text(OpcodeKind::InterruptTyped) == "expected byte for interrupt."@,
{
}

/// `xs` followed by the instructions of `r`, or the error of `r`.
pub open spec fn prepend_all(xs: Seq<Instruction>, r: Result<Seq<Instruction>, DecodeError>) -> Result<
    Seq<Instruction>,
    DecodeError,
> {
    match r {
        Ok(rest) => Ok(xs + rest),
        Err(e) => Err(e),
    }
}

/// The instructions of the stream `s`, decoded one after the other from its
/// first byte: each opcode byte, followed by its operand byte where the
/// decoder reads one.
pub open spec fn decode_stream(s: Seq<u8>) -> Result<Seq<Instruction>, DecodeError>
    decreases s.len(),
{
    if s.len() == 0 {
        Ok(Seq::empty())
    } else {
        let k = opcode_kind(s[0]);
        if reads_operand(k) {
            if s.len() < 2 {
                Err(DecodeError::MissingOperand(k))
            } else {
                prepend_all(
                    seq![Instruction { kind: k, opcode: s[0], operand: Some(s[1]) }],
                    decode_stream(s.skip(2)),
                )
            }
        } else {
            prepend_all(
                seq![Instruction { kind: k, opcode: s[0], operand: None }],
                decode_stream(s.skip(1)),
            )
        }
    }
}

/// The bytes that an instruction was decoded from.
pub open spec fn instruction_bytes(i: Instruction) -> Seq<u8> {
    match i.operand {
        Some(x) => seq![i.opcode, x],
        None => seq![i.opcode],
    }
}

/// The bytes that a sequence of instructions was decoded from.
pub open spec fn stream_bytes(xs: Seq<Instruction>) -> Seq<u8>
    decreases xs.len(),
{
    if xs.len() == 0 {
        Seq::empty()
    } else {
        instruction_bytes(xs[0]) + stream_bytes(xs.drop_first())
    }
}

/// An instruction as the decoder produces it: its kind is the one its opcode
/// selects, and it carries an operand exactly when that kind reads one.
pub open spec fn well_formed(i: Instruction) -> bool {
    &&& i.kind == opcode_kind(i.opcode)
    &&& (i.operand is Some <==> reads_operand(i.kind))
}

/// Decoding works instruction by instruction: when the stream `a` decodes,
/// `a` followed by `b` decodes to the instructions of `a` followed by those
/// of `b` (or fails as `b` does).
pub proof fn lemma_decode_concat(a: Seq<u8>, b: Seq<u8>)
    requires
        decode_stream(a) is Ok,
    ensures
        decode_stream(a + b) == prepend_all(decode_stream(a)->Ok_0, decode_stream(b)),
    decreases a.len(),
{
    if a.len() == 0 {
        assert(a + b =~= b);
        match decode_stream(b) {
            Ok(t) => assert(Seq::<Instruction>::empty() + t =~= t),
            Err(_) => {},
        }
    } else {
        let k = opcode_kind(a[0]);
        let n: int = if reads_operand(k) { 2 } else { 1 };
        let ab = a + b;
        assert(ab[0] == a[0]);
        let inst = if reads_operand(k) {
            assert(ab[1] == a[1]);
            Instruction { kind: k, opcode: a[0], operand: Some(a[1]) }
        } else {
            Instruction { kind: k, opcode: a[0], operand: None }
        };
        assert(ab.skip(n) =~= a.skip(n) + b);
        lemma_decode_concat(a.skip(n), b);
        let mid = decode_stream(a.skip(n))->Ok_0;
        assert(decode_stream(a) == Ok::<Seq<Instruction>, DecodeError>(seq![inst] + mid));
        assert(decode_stream(ab) == prepend_all(seq![inst], decode_stream(ab.skip(n))));
        match decode_stream(b) {
            Ok(t) => assert(seq![inst] + (mid + t) =~= (seq![inst] + mid) + t),
            Err(_) => {},
        }
    }
}

/// Decoding loses no byte: the instructions of a stream that decodes are made
/// of exactly its bytes, in order.
pub proof fn lemma_decode_keeps_bytes(s: Seq<u8>)
    requires
        decode_stream(s) is Ok,
    ensures
        stream_bytes(decode_stream(s)->Ok_0) == s,
        forall|j: int|
            0 <= j < decode_stream(s)->Ok_0.len() ==> well_formed(
                #[trigger] decode_stream(s)->Ok_0[j],
            ),
    decreases s.len(),
{
    if s.len() > 0 {
        let k = opcode_kind(s[0]);
        let n: int = if reads_operand(k) { 2 } else { 1 };
        lemma_decode_keeps_bytes(s.skip(n));
        let xs = decode_stream(s)->Ok_0;
        let tail = decode_stream(s.skip(n))->Ok_0;
        assert(xs.drop_first() =~= tail);
        assert(instruction_bytes(xs[0]) =~= s.take(n));
        assert(s =~= s.take(n) + s.skip(n));
        assert forall|j: int| 0 <= j < xs.len() implies well_formed(#[trigger] xs[j]) by {
            if j > 0 {
                assert(xs[j] == tail[j - 1]);
            }
        }
    } else {
        assert(decode_stream(s)->Ok_0 =~= Seq::<Instruction>::empty());
    }
}

/// Decoding gives back what it was decoded from: the bytes of well-formed
/// instructions decode to those instructions.
pub proof fn lemma_encode_decode(xs: Seq<Instruction>)
    requires
        forall|j: int| 0 <= j < xs.len() ==> well_formed(#[trigger] xs[j]),
    ensures
        decode_stream(stream_bytes(xs)) == Ok::<Seq<Instruction>, DecodeError>(xs),
    decreases xs.len(),
{
    if xs.len() > 0 {
        let i = xs[0];
        let rest = xs.drop_first();
        assert forall|j: int| 0 <= j < rest.len() implies well_formed(#[trigger] rest[j]) by {
            assert(rest[j] == xs[j + 1]);
        }
        lemma_encode_decode(rest);
        let s = stream_bytes(xs);
        let n: int = if reads_operand(i.kind) { 2 } else { 1 };
        assert(well_formed(xs[0]));
        assert(s[0] == i.opcode);
        if reads_operand(i.kind) {
            assert(s[1] == i.operand->0);
        }
        assert(s.skip(n) =~= stream_bytes(rest));
        assert(seq![i] + rest =~= xs);
    } else {
        assert(stream_bytes(xs) =~= Seq::<u8>::empty());
        assert(xs =~= Seq::<Instruction>::empty());
    }
}

/// A stream fails to decode only at its end: its last byte is an opcode whose
/// operand the decoder reads, and the error names that opcode's kind.
pub proof fn lemma_decode_error_at_end(s: Seq<u8>)
    requires
        decode_stream(s) is Err,
    ensures
        s.len() > 0,
        reads_operand(opcode_kind(s.last())),
        decode_stream(s) == Err::<Seq<Instruction>, DecodeError>(
            DecodeError::MissingOperand(opcode_kind(s.last())),
        ),
    decreases s.len(),
{
    let k = opcode_kind(s[0]);
    if reads_operand(k) && s.len() < 2 {
    } else {
        let n: int = if reads_operand(k) { 2 } else { 1 };
        lemma_decode_error_at_end(s.skip(n));
        assert(s.skip(n).last() == s.last());
    }
}

/// Decodes the instruction whose opcode is `bytes[pos]`. Returns it with the
/// position of the next opcode, or the error when its operand byte is
/// missing.
pub fn decode_next(bytes: &[u8], pos: usize) -> (r: Result<(Instruction, usize), DecodeError>)
    requires
        pos < bytes@.len(),
    ensures
        ({
            let k = opcode_kind(bytes@[pos as int]);
            match r {
                Ok((i, next)) => {
                    &&& i.kind == k
                    &&& i.opcode == bytes@[pos as int]
                    &&& reads_operand(k) ==> next == pos + 2 && next <= bytes@.len()
                        && i.operand == Some(bytes@[pos + 1])
                    &&& !reads_operand(k) ==> next == pos + 1 && i.operand is None
                },
                Err(e) => reads_operand(k) && pos + 1 == bytes@.len() && e
                    == DecodeError::MissingOperand(k),
            }
        }),
{
    let byte = bytes[pos];
    let kind = decode_opcode(byte);
    if takes_operand(kind) {
        if pos + 1 < bytes.len() {
            Ok((Instruction { kind, opcode: byte, operand: Some(bytes[pos + 1]) }, pos + 2))
        } else {
            Err(DecodeError::MissingOperand(kind))
        }
    } else {
        Ok((Instruction { kind, opcode: byte, operand: None }, pos + 1))
    }
}

/// Decodes the whole stream, in order, up to its end or the first error.
pub fn decode_all(bytes: &[u8]) -> (r: Result<Vec<Instruction>, DecodeError>)
    ensures
        match r {
            Ok(v) => decode_stream(bytes@) == Ok::<Seq<Instruction>, DecodeError>(v@),
            Err(e) => decode_stream(bytes@) == Err::<Seq<Instruction>, DecodeError>(e),
        },
{
    let mut out: Vec<Instruction> = Vec::new();
    let mut pos: usize = 0;
    assert(bytes@.skip(0) =~= bytes@);
    assert(out@ + Seq::<Instruction>::empty() =~= out@);
    while pos < bytes.len()
        invariant
            pos <= bytes@.len(),
            decode_stream(bytes@) == prepend_all(out@, decode_stream(bytes@.skip(pos as int))),
        decreases bytes@.len() - pos,
    {
        let ghost rest = bytes@.skip(pos as int);
        assert(rest[0] == bytes@[pos as int]);
        match decode_next(bytes, pos) {
            Ok((i, next)) => {
                assert(rest.skip(next - pos) =~= bytes@.skip(next as int));
                proof {
                    if i.operand is Some {
                        assert(rest[1] == bytes@[pos + 1]);
                    }
                }
                assert(decode_stream(rest) == prepend_all(seq![i], decode_stream(bytes@.skip(next as int))));
                let ghost old_out = out@;
                out.push(i);
                proof {
                    match decode_stream(bytes@.skip(next as int)) {
                        Ok(tail) => {
                            assert(old_out + (seq![i] + tail) =~= out@ + tail);
                        },
                        Err(_) => {},
                    }
                }
                pos = next;
            },
            Err(e) => {
                return Err(e);
            },
        }
    }
    assert(bytes@.skip(pos as int) =~= Seq::<u8>::empty());
    assert(out@ + Seq::<Instruction>::empty() =~= out@);
    Ok(out)
}

} // verus!
