//! Register names and the table that the `reg` and `w` fields of an
//! instruction select a register from.

use vstd::prelude::*;

verus! {

/// An 8086 register: the four word registers with byte halves, their high
/// and low bytes, and the pointer and index registers.
#[derive(Clone, Copy, Debug, PartialEq, Eq, Structural)]
pub enum Reg {
    Ax,
    Cx,
    Dx,
    Bx,
    Ah,
    Ch,
    Dh,
    Bh,
    Al,
    Cl,
    Dl,
    Bl,
    Sp,
    Bp,
    Si,
    Di,
}

/// The assembly name of a register.
pub open spec fn reg_name(r: Reg) -> Seq<char> {
    match r {
        Reg::Ax => "ax"@,
        Reg::Cx => "cx"@,
        Reg::Dx => "dx"@,
        Reg::Bx => "bx"@,
        Reg::Ah => "ah"@,
        Reg::Ch => "ch"@,
        Reg::Dh => "dh"@,
        Reg::Bh => "bh"@,
        Reg::Al => "al"@,
        Reg::Cl => "cl"@,
        Reg::Dl => "dl"@,
        Reg::Bl => "bl"@,
        Reg::Sp => "sp"@,
        Reg::Bp => "bp"@,
        Reg::Si => "si"@,
        Reg::Di => "di"@,
    }
}

/// Whether a register is a word (16-bit) register.
pub open spec fn is_wide(r: Reg) -> bool {
    match r {
        Reg::Ax | Reg::Cx | Reg::Dx | Reg::Bx | Reg::Sp | Reg::Bp | Reg::Si | Reg::Di => true,
        _ => false,
    }
}

impl Reg {
    /// The assembly name of this register.
    pub fn name(&self) -> (r: &'static str)
        ensures
            r@ == reg_name(*self),
    {
        match *self {
            Reg::Ax => "ax",
            Reg::Cx => "cx",
            Reg::Dx => "dx",
            Reg::Bx => "bx",
            Reg::Ah => "ah",
            Reg::Ch => "ch",
            Reg::Dh => "dh",
            Reg::Bh => "bh",
            Reg::Al => "al",
            Reg::Cl => "cl",
            Reg::Dl => "dl",
            Reg::Bl => "bl",
            Reg::Sp => "sp",
            Reg::Bp => "bp",
            Reg::Si => "si",
            Reg::Di => "di",
        }
    }
}

/// The register that a 3-bit `reg` field names: a byte register when `w` is
/// false, a word register when it is true.
pub open spec fn reg_code(w: bool, r: u8) -> Reg
    recommends
        r < 8,
{
    if !w {
        if r == 0 {
            Reg::Al
        } else if r == 1 {
            Reg::Cl
        } else if r == 2 {
            Reg::Dl
        } else if r == 3 {
            Reg::Bl
        } else if r == 4 {
            Reg::Ah
        } else if r == 5 {
            Reg::Ch
        } else if r == 6 {
            Reg::Dh
        } else {
            Reg::Bh
        }
    } else {
        if r == 0 {
            Reg::Ax
        } else if r == 1 {
            Reg::Cx
        } else if r == 2 {
            Reg::Dx
        } else if r == 3 {
            Reg::Bx
        } else if r == 4 {
            Reg::Sp
        } else if r == 5 {
            Reg::Bp
        } else if r == 6 {
            Reg::Si
        } else {
            Reg::Di
        }
    }
}

/// The register table: row 0 holds the byte registers, row 1 the word
/// registers, each in the order of their 3-bit codes.
pub struct RegTable {
    table: [[Reg; 8]; 2],
}

impl RegTable {
    /// Every entry of the table is the register its row and code name.
    #[verifier::type_invariant]
    spec fn is_reg_code_table(self) -> bool {
        forall|row: int, r: int|
            0 <= row < 2 && 0 <= r < 8 ==> #[trigger] self.table@[row]@[r] == reg_code(
                row == 1,
                r as u8,
            )
    }

    /// The register in row `w` (`true` for the word registers) at code `r`.
    pub closed spec fn entry(self, w: bool, r: u8) -> Reg {
        self.table@[if w { 1int } else { 0int }]@[r as int]
    }

    /// The register table of the 8086.
    pub fn new() -> (t: RegTable)
        ensures
            forall|w: bool, r: u8| r < 8 ==> #[trigger] t.entry(w, r) == reg_code(w, r),
    {
        let bytes = [Reg::Al, Reg::Cl, Reg::Dl, Reg::Bl, Reg::Ah, Reg::Ch, Reg::Dh, Reg::Bh];
        let words = [Reg::Ax, Reg::Cx, Reg::Dx, Reg::Bx, Reg::Sp, Reg::Bp, Reg::Si, Reg::Di];
        let table = [bytes, words];
        assert(bytes@ =~= seq![Reg::Al, Reg::Cl, Reg::Dl, Reg::Bl, Reg::Ah, Reg::Ch, Reg::Dh, Reg::Bh]);
        assert(words@ =~= seq![Reg::Ax, Reg::Cx, Reg::Dx, Reg::Bx, Reg::Sp, Reg::Bp, Reg::Si, Reg::Di]);
        let t = RegTable { table };
        assert forall|w: bool, r: u8| r < 8 implies #[trigger] t.entry(w, r) == reg_code(w, r) by {
            let row: int = if w { 1 } else { 0 };
            assert(t.table@[row]@[r as int] == reg_code(row == 1, r as int as u8));
        }
        t
    }

    /// The register that the `reg` field `idx.1` names at width `idx.0`
    /// (`true` for a word register).
    pub fn index(&self, idx: (bool, u8)) -> (r: Reg)
        requires
            idx.1 < 8,
        ensures
            r == reg_code(idx.0, idx.1),
            r == self.entry(idx.0, idx.1),
    {
        proof {
            use_type_invariant(self);
        }
        let row: usize = if idx.0 { 1 } else { 0 };
        let r = self.table[row][idx.1 as usize];
        assert(self.table@[row as int]@[idx.1 as int] == reg_code(row == 1, idx.1 as int as u8));
        r
    }
}

/// The register table selects a register of the width it is asked for.
pub proof fn lemma_reg_code_width(w: bool, r: u8)
    requires
        r < 8,
    ensures
        is_wide(reg_code(w, r)) == w,
{
}

/// Distinct codes name distinct registers at each width.
pub proof fn lemma_reg_code_injective(w: bool, r1: u8, r2: u8)
    requires
        r1 < 8,
        r2 < 8,
        r1 != r2,
    ensures
        reg_code(w, r1) != reg_code(w, r2),
{
}

/// Each register is named by the lower-case name of its variant.
pub proof fn lemma_reg_names()
    ensures
        reg_name(Reg::Ax) == "ax"@,
        reg_name(Reg::Cx) == "cx"@,
        reg_name(Reg::Dx) == "dx"@,
        reg_name(Reg::Bx) == "bx"@,
        reg_name(Reg::Ah) == "ah"@,
        reg_name(Reg::Ch) == "ch"@,
        reg_name(Reg::Dh) == "dh"@,
        reg_name(Reg::Bh) == "bh"@,
        reg_name(Reg::Al) == "al"@,
        reg_name(Reg::Cl) == "cl"@,
        reg_name(Reg::Dl) == "dl"@,
        reg_name(Reg::Bl) == "bl"@,
        reg_name(Reg::Sp) == "sp"@,
        reg_name(Reg::Bp) == "bp"@,
        reg_name(Reg::Si) == "si"@,
        reg_name(Reg::Di) == "di"@,
{
}

/// Distinct registers have distinct names, each of two letters.
pub proof fn lemma_reg_names_distinct(r1: Reg, r2: Reg)
    ensures
        reg_name(r1).len() == 2,
        r1 != r2 ==> reg_name(r1) != reg_name(r2),
{
    reveal_strlit("ax");
    reveal_strlit("cx");
    reveal_strlit("dx");
    reveal_strlit("bx");
    reveal_strlit("ah");
    reveal_strlit("ch");
    reveal_strlit("dh");
    reveal_strlit("bh");
    reveal_strlit("al");
    reveal_strlit("cl");
    reveal_strlit("dl");
    reveal_strlit("bl");
    reveal_strlit("sp");
    reveal_strlit("bp");
    reveal_strlit("si");
    reveal_strlit("di");
    if r1 != r2 {
        if reg_name(r1) == reg_name(r2) {
            assert(reg_name(r1)[0] == reg_name(r2)[0] && reg_name(r1)[1] == reg_name(r2)[1]);
        }
    }
}

/// A byte register is a half of the word register with the same code (codes
/// 0 to 3 the low half, codes 4 to 7 the high half of the register four
/// codes down): the names share their first letter, and end in `x` for the
/// word, `l` for the low half and `h` for the high half.
pub proof fn lemma_reg_halves(r: u8)
    requires
        r < 4,
    ensures
        reg_name(reg_code(true, r))[0] == reg_name(reg_code(false, r))[0],
        reg_name(reg_code(true, r))[0] == reg_name(reg_code(false, (r + 4) as u8))[0],
        reg_name(reg_code(true, r))[1] == 'x',
        reg_name(reg_code(false, r))[1] == 'l',
        reg_name(reg_code(false, (r + 4) as u8))[1] == 'h',
{
    reveal_strlit("ax");
    reveal_strlit("cx");
    reveal_strlit("dx");
    reveal_strlit("bx");
    reveal_strlit("ah");
    reveal_strlit("ch");
    reveal_strlit("dh");
    reveal_strlit("bh");
    reveal_strlit("al");
    reveal_strlit("cl");
    reveal_strlit("dl");
    reveal_strlit("bl");
    reveal_strlit("sp");
    reveal_strlit("bp");
    reveal_strlit("si");
    reveal_strlit("di");
}

/// The register table of the 8086, code by code: byte registers al, cl, dl,
/// bl, ah, ch, dh, bh and word registers ax, cx, dx, bx, sp, bp, si, di.
pub proof fn lemma_reg_code_table()
    ensures
        reg_code(false, 0) == Reg::Al,
        reg_code(true, 0) == Reg::Ax,
        reg_code(false, 1) == Reg::Cl,
        reg_code(true, 1) == Reg::Cx,
        reg_code(false, 2) == Reg::Dl,
        reg_code(true, 2) == Reg::Dx,
        reg_code(false, 3) == Reg::Bl,
        reg_code(true, 3) == Reg::Bx,
        reg_code(false, 4) == Reg::Ah,
        reg_code(true, 4) == Reg::Sp,
        reg_code(false, 5) == Reg::Ch,
        reg_code(true, 5) == Reg::Bp,
        reg_code(false, 6) == Reg::Dh,
        reg_code(true, 6) == Reg::Si,
        reg_code(false, 7) == Reg::Bh,
        reg_code(true, 7) == Reg::Di,
{
}

/// The base of the effective address that an `r/m` field names, as the
/// decoder prints it before the displacement and the closing bracket.
pub open spec fn rm_base_text(rm: u8) -> Seq<char>
    recommends
        rm < 8,
{
    if rm == 0 {
        "[bx + si"@
    } else if rm == 1 {
        "[bx + di"@
    } else if rm == 2 {
        "[bp + si"@
    } else if rm == 3 {
        "[bp + di"@
    } else if rm == 4 {
        "[si"@
    } else if rm == 5 {
        "[di"@
    } else if rm == 6 {
        "[bp"@
    } else {
        "[bx"@
    }
}

/// The text of the base of the effective address named by `rm`.
pub fn rm_base(rm: u8) -> (r: &'static str)
    requires
        rm < 8,
    ensures
        r@ == rm_base_text(rm),
{
    if rm == 0 {
        "[bx + si"
    } else if rm == 1 {
        "[bx + di"
    } else if rm == 2 {
        "[bp + si"
    } else if rm == 3 {
        "[bp + di"
    } else if rm == 4 {
        "[si"
    } else if rm == 5 {
        "[di"
    } else if rm == 6 {
        "[bp"
    } else {
        "[bx"
    }
}

/// The name of the segment register that a 2-bit `sr` field names.
pub open spec fn segment_text(sr: u8) -> Seq<char>
    recommends
        sr < 4,
{
    if sr == 0 {
        "es"@
    } else if sr == 1 {
        "cs"@
    } else if sr == 2 {
        "ss"@
    } else {
        "ds"@
    }
}

/// The name of the segment register named by `sr`.
pub fn segment_name(sr: u8) -> (r: &'static str)
    requires
        sr < 4,
    ensures
        r@ == segment_text(sr),
{
    if sr == 0 {
        "es"
    } else if sr == 1 {
        "cs"
    } else if sr == 2 {
        "ss"
    } else {
        "ds"
    }
}

/// The bases of the effective addresses, code by code.
pub proof fn lemma_rm_base_table(rm: u8)
    requires
        rm < 8,
    ensures
        rm == 0 ==> rm_base_text(rm) == "[bx + si"@,
        rm == 1 ==> rm_base_text(rm) == "[bx + di"@,
        rm == 2 ==> rm_base_text(rm) == "[bp + si"@,
        rm == 3 ==> rm_base_text(rm) == "[bp + di"@,
        rm == 4 ==> rm_base_text(rm) == "[si"@,
        rm == 5 ==> rm_base_text(rm) == "[di"@,
        rm == 6 ==> rm_base_text(rm) == "[bp"@,
        rm == 7 ==> rm_base_text(rm) == "[bx"@,
{
}

/// Codes 0 to 3 add an index register to a base register: bit 1 selects the
/// base (`bx` or `bp`) and bit 0 the index (`si` or `di`); codes 4 to 7 name
/// a single register.
pub proof fn lemma_rm_base_fields(rm: u8)
    requires
        rm < 8,
    ensures
        rm < 4 ==> rm_base_text(rm) == "["@ + (if rm / 2 == 0 { "bx"@ } else { "bp"@ }) + " + "@ + (
        if rm % 2 == 0 {
            "si"@
        } else {
            "di"@
        }),
        4 <= rm ==> rm_base_text(rm).len() == 3 && rm_base_text(rm)[0] == '[',
{
    reveal_strlit("[bx + si");
    reveal_strlit("[bx + di");
    reveal_strlit("[bp + si");
    reveal_strlit("[bp + di");
    reveal_strlit("[si");
    reveal_strlit("[di");
    reveal_strlit("[bp");
    reveal_strlit("[bx");
    reveal_strlit("[");
    reveal_strlit("bx");
    reveal_strlit("bp");
    reveal_strlit(" + ");
    reveal_strlit("si");
    reveal_strlit("di");
    if rm < 4 {
        let t = "["@ + (if rm / 2 == 0 { "bx"@ } else { "bp"@ }) + " + "@ + (if rm % 2 == 0 {
            "si"@
        } else {
            "di"@
        });
        assert(rm_base_text(rm) =~= t);
    }
}

/// The segment registers, code by code.
pub proof fn lemma_segment_table(sr: u8)
    requires
        sr < 4,
    ensures
        sr == 0 ==> segment_text(sr) == "es"@,
        sr == 1 ==> segment_text(sr) == "cs"@,
        sr == 2 ==> segment_text(sr) == "ss"@,
        sr == 3 ==> segment_text(sr) == "ds"@,
{
}

} // verus!
