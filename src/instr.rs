//! Decoding of 16-bit opcodes into instructions.
use vstd::prelude::*;
use vstd::string::StringExecFns;

verus! {

/// One decoded instruction. `usize` fields name registers (or, for
/// `DrwVxVyN`, the sprite height), `u8` fields are immediates and `u16`
/// fields are 12-bit addresses.
#[derive(Debug, Clone, Copy, PartialEq, Eq, Structural)]
pub enum Instr {
    Cls,
    Ret,
    Sys(u16),
    Jp(u16),
    Call(u16),
    SeVxKK(usize, u8),
    SneVxKK(usize, u8),
    SeVxVy(usize, usize),
    SneVxVy(usize, usize),
    LdVxKK(usize, u8),
    AddVxKK(usize, u8),
    LdVxVy(usize, usize),
    OrVxVy(usize, usize),
    AndVxVy(usize, usize),
    XorVxVy(usize, usize),
    AddVxVy(usize, usize),
    SubVxVy(usize, usize),
    SubnVxVy(usize, usize),
    ShrVx(usize),
    ShlVx(usize),
    LdI(u16),
    JpV0(u16),
    RndVxKK(usize, u8),
    DrwVxVyN(usize, usize, usize),
    SkpVx(usize),
    SknpVx(usize),
    LdVxDT(usize),
    LdVxK(usize),
    LdDTVx(usize),
    LdSTVx(usize),
    AddIVx(usize),
    LdFVx(usize),
    LdBVx(usize),
    LdIVx(usize),
    LdVxI(usize),
}

/// The top nibble: the instruction family.
pub open spec fn family_of(op: u16) -> u16 {
    op >> 12u16
}

/// The second nibble: register `x`.
pub open spec fn x_of(op: u16) -> u16 {
    (op >> 8u16) & 0xFu16
}

/// The third nibble: register `y`.
pub open spec fn y_of(op: u16) -> u16 {
    (op >> 4u16) & 0xFu16
}

/// The fourth nibble: `n`.
pub open spec fn n_of(op: u16) -> u16 {
    op & 0xFu16
}

/// The low twelve bits: address `nnn`.
pub open spec fn nnn_of(op: u16) -> u16 {
    op & 0x0FFFu16
}

/// The low byte: immediate `kk`.
pub open spec fn kk_of(op: u16) -> u8 {
    (op & 0xFFu16) as u8
}

/// The instruction that `op` encodes, or `None` where it matches no pattern.
pub open spec fn decode(op: u16) -> Option<Instr> {
    let (a, x, y, n) = (family_of(op), x_of(op) as usize, y_of(op) as usize, n_of(op));
    let (nnn, kk) = (nnn_of(op), kk_of(op));
    if a == 0 {
        if op == 0x00E0 {
            Some(Instr::Cls)
        } else if op == 0x00EE {
            Some(Instr::Ret)
        } else {
            Some(Instr::Sys(nnn))
        }
    } else if a == 1 {
        Some(Instr::Jp(nnn))
    } else if a == 2 {
        Some(Instr::Call(nnn))
    } else if a == 3 {
        Some(Instr::SeVxKK(x, kk))
    } else if a == 4 {
        Some(Instr::SneVxKK(x, kk))
    } else if a == 5 {
        if n == 0 {
            Some(Instr::SeVxVy(x, y))
        } else {
            None
        }
    } else if a == 6 {
        Some(Instr::LdVxKK(x, kk))
    } else if a == 7 {
        Some(Instr::AddVxKK(x, kk))
    } else if a == 8 {
        if n == 0 {
            Some(Instr::LdVxVy(x, y))
        } else if n == 1 {
            Some(Instr::OrVxVy(x, y))
        } else if n == 2 {
            Some(Instr::AndVxVy(x, y))
        } else if n == 3 {
            Some(Instr::XorVxVy(x, y))
        } else if n == 4 {
            Some(Instr::AddVxVy(x, y))
        } else if n == 5 {
            Some(Instr::SubVxVy(x, y))
        } else if n == 6 {
            Some(Instr::ShrVx(x))
        } else if n == 7 {
            Some(Instr::SubnVxVy(x, y))
        } else if n == 0xE {
            Some(Instr::ShlVx(x))
        } else {
            None
        }
    } else if a == 9 {
        if n == 0 {
            Some(Instr::SneVxVy(x, y))
        } else {
            None
        }
    } else if a == 0xA {
        Some(Instr::LdI(nnn))
    } else if a == 0xB {
        Some(Instr::JpV0(nnn))
    } else if a == 0xC {
        Some(Instr::RndVxKK(x, kk))
    } else if a == 0xD {
        Some(Instr::DrwVxVyN(x, y, n as usize))
    } else if a == 0xE {
        if kk == 0x9E {
            Some(Instr::SkpVx(x))
        } else if kk == 0xA1 {
            Some(Instr::SknpVx(x))
        } else {
            None
        }
    } else {
        if kk == 0x07 {
            Some(Instr::LdVxDT(x))
        } else if kk == 0x0A {
            Some(Instr::LdVxK(x))
        } else if kk == 0x15 {
            Some(Instr::LdDTVx(x))
        } else if kk == 0x18 {
            Some(Instr::LdSTVx(x))
        } else if kk == 0x1E {
            Some(Instr::AddIVx(x))
        } else if kk == 0x29 {
            Some(Instr::LdFVx(x))
        } else if kk == 0x33 {
            Some(Instr::LdBVx(x))
        } else if kk == 0x55 {
            Some(Instr::LdIVx(x))
        } else if kk == 0x65 {
            Some(Instr::LdVxI(x))
        } else {
            None
        }
    }
}

/// The opcode with family `a`, registers `x` and `y` and low nibble `n`.
pub open spec fn pack(a: u16, x: u16, y: u16, n: u16) -> u16 {
    (a << 12u16) | (x << 8u16) | (y << 4u16) | n
}

/// The opcode with family `a` and address `nnn`.
pub open spec fn pack_addr(a: u16, nnn: u16) -> u16 {
    (a << 12u16) | nnn
}

/// The opcode with family `a`, register `x` and immediate `kk`.
pub open spec fn pack_imm(a: u16, x: u16, kk: u8) -> u16 {
    (a << 12u16) | (x << 8u16) | (kk as u16)
}

/// The documented opcode pattern of each instruction.
pub open spec fn encode(i: Instr) -> u16 {
    match i {
        Instr::Cls => 0x00E0,
        Instr::Ret => 0x00EE,
        Instr::Sys(nnn) => pack_addr(0, nnn),
        Instr::Jp(nnn) => pack_addr(1, nnn),
        Instr::Call(nnn) => pack_addr(2, nnn),
        Instr::SeVxKK(x, kk) => pack_imm(3, x as u16, kk),
        Instr::SneVxKK(x, kk) => pack_imm(4, x as u16, kk),
        Instr::SeVxVy(x, y) => pack(5, x as u16, y as u16, 0),
        Instr::LdVxKK(x, kk) => pack_imm(6, x as u16, kk),
        Instr::AddVxKK(x, kk) => pack_imm(7, x as u16, kk),
        Instr::LdVxVy(x, y) => pack(8, x as u16, y as u16, 0),
        Instr::OrVxVy(x, y) => pack(8, x as u16, y as u16, 1),
        Instr::AndVxVy(x, y) => pack(8, x as u16, y as u16, 2),
        Instr::XorVxVy(x, y) => pack(8, x as u16, y as u16, 3),
        Instr::AddVxVy(x, y) => pack(8, x as u16, y as u16, 4),
        Instr::SubVxVy(x, y) => pack(8, x as u16, y as u16, 5),
        Instr::ShrVx(x) => pack(8, x as u16, 0, 6),
        Instr::SubnVxVy(x, y) => pack(8, x as u16, y as u16, 7),
        Instr::ShlVx(x) => pack(8, x as u16, 0, 0xE),
        Instr::SneVxVy(x, y) => pack(9, x as u16, y as u16, 0),
        Instr::LdI(nnn) => pack_addr(0xA, nnn),
        Instr::JpV0(nnn) => pack_addr(0xB, nnn),
        Instr::RndVxKK(x, kk) => pack_imm(0xC, x as u16, kk),
        Instr::DrwVxVyN(x, y, n) => pack(0xD, x as u16, y as u16, n as u16),
        Instr::SkpVx(x) => pack(0xE, x as u16, 9, 0xE),
        Instr::SknpVx(x) => pack(0xE, x as u16, 0xA, 1),
        Instr::LdVxDT(x) => pack(0xF, x as u16, 0, 7),
        Instr::LdVxK(x) => pack(0xF, x as u16, 0, 0xA),
        Instr::LdDTVx(x) => pack(0xF, x as u16, 1, 5),
        Instr::LdSTVx(x) => pack(0xF, x as u16, 1, 8),
        Instr::AddIVx(x) => pack(0xF, x as u16, 1, 0xE),
        Instr::LdFVx(x) => pack(0xF, x as u16, 2, 9),
        Instr::LdBVx(x) => pack(0xF, x as u16, 3, 3),
        Instr::LdIVx(x) => pack(0xF, x as u16, 5, 5),
        Instr::LdVxI(x) => pack(0xF, x as u16, 6, 5),
    }
}

/// The decimal text of digit `d`.
pub open spec fn digit_text(d: nat) -> Seq<char> {
    if d == 0 {
        "0"@
    } else if d == 1 {
        "1"@
    } else if d == 2 {
        "2"@
    } else if d == 3 {
        "3"@
    } else if d == 4 {
        "4"@
    } else if d == 5 {
        "5"@
    } else if d == 6 {
        "6"@
    } else if d == 7 {
        "7"@
    } else if d == 8 {
        "8"@
    } else {
        "9"@
    }
}

/// The decimal text of `n`, without leading zeros.
pub open spec fn decimal(n: nat) -> Seq<char>
    decreases n,
{
    if n < 10 {
        digit_text(n)
    } else {
        decimal(n / 10) + digit_text(n % 10)
    }
}

/// The assembly text of an instruction, numbers in decimal.
pub open spec fn mnemonic_spec(i: Instr) -> Seq<char> {
    match i {
        Instr::Cls => "CLS"@,
        Instr::Ret => "RET"@,
        Instr::Sys(nnn) => "SYS "@ + decimal(nnn as nat),
        Instr::Jp(nnn) => "JP "@ + decimal(nnn as nat),
        Instr::Call(nnn) => "CALL "@ + decimal(nnn as nat),
        Instr::SeVxKK(x, kk) => "SE V"@ + decimal(x as nat) + ", "@ + decimal(kk as nat),
        Instr::SneVxKK(x, kk) => "SNE V"@ + decimal(x as nat) + ", "@ + decimal(kk as nat),
        Instr::SeVxVy(x, y) => "SE V"@ + decimal(x as nat) + ", V"@ + decimal(y as nat),
        Instr::SneVxVy(x, y) => "SNE V"@ + decimal(x as nat) + ", V"@ + decimal(y as nat),
        Instr::LdVxKK(x, kk) => "LD V"@ + decimal(x as nat) + ", "@ + decimal(kk as nat),
        Instr::AddVxKK(x, kk) => "ADD V"@ + decimal(x as nat) + ", "@ + decimal(kk as nat),
        Instr::LdVxVy(x, y) => "LD V"@ + decimal(x as nat) + ", V"@ + decimal(y as nat),
        Instr::OrVxVy(x, y) => "OR V"@ + decimal(x as nat) + ", V"@ + decimal(y as nat),
        Instr::AndVxVy(x, y) => "AND V"@ + decimal(x as nat) + ", V"@ + decimal(y as nat),
        Instr::XorVxVy(x, y) => "XOR V"@ + decimal(x as nat) + ", V"@ + decimal(y as nat),
        Instr::AddVxVy(x, y) => "ADD V"@ + decimal(x as nat) + ", V"@ + decimal(y as nat),
        Instr::SubVxVy(x, y) => "SUB V"@ + decimal(x as nat) + ", V"@ + decimal(y as nat),
        Instr::SubnVxVy(x, y) => "SUBN V"@ + decimal(x as nat) + ", V"@ + decimal(y as nat),
        Instr::ShrVx(x) => "SHR V"@ + decimal(x as nat),
        Instr::ShlVx(x) => "SHL V"@ + decimal(x as nat),
        Instr::LdI(nnn) => "LD I, "@ + decimal(nnn as nat),
        Instr::JpV0(nnn) => "JP V0, "@ + decimal(nnn as nat),
        Instr::RndVxKK(x, kk) => "RND V"@ + decimal(x as nat) + ", "@ + decimal(kk as nat),
        Instr::DrwVxVyN(x, y, n) => "DRW V"@ + decimal(x as nat) + ", V"@ + decimal(y as nat) + ", "@ + decimal(n as nat),
        Instr::SkpVx(x) => "SKP V"@ + decimal(x as nat),
        Instr::SknpVx(x) => "SKNP V"@ + decimal(x as nat),
        Instr::LdVxDT(x) => "LD V"@ + decimal(x as nat) + ", DT"@,
        Instr::LdVxK(x) => "LD V"@ + decimal(x as nat) + ", K"@,
        Instr::LdDTVx(x) => "LD DT, V"@ + decimal(x as nat),
        Instr::LdSTVx(x) => "LD ST, V"@ + decimal(x as nat),
        Instr::AddIVx(x) => "ADD I, V"@ + decimal(x as nat),
        Instr::LdFVx(x) => "LD F, V"@ + decimal(x as nat),
        Instr::LdBVx(x) => "LD B, V"@ + decimal(x as nat),
        Instr::LdIVx(x) => "LD [I], V"@ + decimal(x as nat),
        Instr::LdVxI(x) => "LD V"@ + decimal(x as nat) + ", [I]"@,
    }
}

fn digit_str(d: u64) -> (r: &'static str)
    requires
        d < 10,
    ensures
        r@ == digit_text(d as nat),
{
    if d == 0 {
        "0"
    } else if d == 1 {
        "1"
    } else if d == 2 {
        "2"
    } else if d == 3 {
        "3"
    } else if d == 4 {
        "4"
    } else if d == 5 {
        "5"
    } else if d == 6 {
        "6"
    } else if d == 7 {
        "7"
    } else if d == 8 {
        "8"
    } else {
        "9"
    }
}

/// Appends the decimal text of `n` to `s`.
fn append_decimal(s: &mut String, n: u64)
    ensures
        final(s)@ == old(s)@ + decimal(n as nat),
    decreases n,
{
    if n < 10 {
        s.append(digit_str(n));
    } else {
        append_decimal(s, n / 10);
        s.append(digit_str(n % 10));
        assert(final(s)@ =~= old(s)@ + decimal(n as nat));
    }
}

impl Instr {
    /// Register indices and heights are below 16, addresses below 0x1000.
    pub open spec fn wf(&self) -> bool {
        match *self {
            Instr::Sys(nnn) | Instr::Jp(nnn) | Instr::Call(nnn) | Instr::LdI(nnn) | Instr::JpV0(
                nnn,
            ) => nnn < 0x1000,
            Instr::SeVxKK(x, _) | Instr::SneVxKK(x, _) | Instr::LdVxKK(x, _) | Instr::AddVxKK(
                x,
                _,
            ) | Instr::RndVxKK(x, _) => x < 16,
            Instr::SeVxVy(x, y) | Instr::SneVxVy(x, y) | Instr::LdVxVy(x, y) | Instr::OrVxVy(
                x,
                y,
            ) | Instr::AndVxVy(x, y) | Instr::XorVxVy(x, y) | Instr::AddVxVy(x, y)
            | Instr::SubVxVy(x, y) | Instr::SubnVxVy(x, y) => x < 16 && y < 16,
            Instr::DrwVxVyN(x, y, n) => x < 16 && y < 16 && n < 16,
            Instr::ShrVx(x) | Instr::ShlVx(x) | Instr::SkpVx(x) | Instr::SknpVx(x)
            | Instr::LdVxDT(x) | Instr::LdVxK(x) | Instr::LdDTVx(x) | Instr::LdSTVx(x)
            | Instr::AddIVx(x) | Instr::LdFVx(x) | Instr::LdBVx(x) | Instr::LdIVx(x)
            | Instr::LdVxI(x) => x < 16,
            Instr::Cls | Instr::Ret => true,
        }
    }
}

proof fn lemma_fields_small(op: u16)
    ensures
        x_of(op) < 16,
        y_of(op) < 16,
        n_of(op) < 16,
        nnn_of(op) < 0x1000,
        family_of(op) < 16,
{
    assert((op >> 8u16) & 0xFu16 < 16) by (bit_vector);
    assert((op >> 4u16) & 0xFu16 < 16) by (bit_vector);
    assert(op & 0xFu16 < 16) by (bit_vector);
    assert(op & 0x0FFFu16 < 0x1000) by (bit_vector);
    assert(op >> 12u16 < 16) by (bit_vector);
}

proof fn lemma_pack_addr(a: u16, nnn: u16)
    requires
        a < 16,
        nnn < 0x1000,
    ensures
        family_of(pack_addr(a, nnn)) == a,
        nnn_of(pack_addr(a, nnn)) == nnn,
        a == 0 ==> pack_addr(a, nnn) == nnn,
{
    assert(((a << 12u16) | nnn) >> 12u16 == a) by (bit_vector)
        requires
            a < 16,
            nnn < 0x1000,
    ;
    assert(((a << 12u16) | nnn) & 0x0FFFu16 == nnn) by (bit_vector)
        requires
            a < 16,
            nnn < 0x1000,
    ;
    assert(a == 0 ==> ((a << 12u16) | nnn) == nnn) by (bit_vector);
}

proof fn lemma_pack_imm(a: u16, x: u16, kk: u8)
    requires
        a < 16,
        x < 16,
    ensures
        family_of(pack_imm(a, x, kk)) == a,
        x_of(pack_imm(a, x, kk)) == x,
        kk_of(pack_imm(a, x, kk)) == kk,
{
    let k = kk as u16;
    assert(((a << 12u16) | (x << 8u16) | k) >> 12u16 == a) by (bit_vector)
        requires
            a < 16,
            x < 16,
            k < 256,
    ;
    assert((((a << 12u16) | (x << 8u16) | k) >> 8u16) & 0xFu16 == x) by (bit_vector)
        requires
            a < 16,
            x < 16,
            k < 256,
    ;
    assert(((a << 12u16) | (x << 8u16) | k) & 0xFFu16 == k) by (bit_vector)
        requires
            a < 16,
            x < 16,
            k < 256,
    ;
}

proof fn lemma_pack(a: u16, x: u16, y: u16, n: u16)
    requires
        a < 16,
        x < 16,
        y < 16,
        n < 16,
    ensures
        family_of(pack(a, x, y, n)) == a,
        x_of(pack(a, x, y, n)) == x,
        y_of(pack(a, x, y, n)) == y,
        n_of(pack(a, x, y, n)) == n,
        kk_of(pack(a, x, y, n)) == y * 16 + n,
        a == 0 ==> pack(a, x, y, n) == x * 256 + y * 16 + n,
{
    assert(((a << 12u16) | (x << 8u16) | (y << 4u16) | n) >> 12u16 == a) by (bit_vector)
        requires
            a < 16,
            x < 16,
            y < 16,
            n < 16,
    ;
    assert((((a << 12u16) | (x << 8u16) | (y << 4u16) | n) >> 8u16) & 0xFu16 == x)
        by (bit_vector)
        requires
            a < 16,
            x < 16,
            y < 16,
            n < 16,
    ;
    assert((((a << 12u16) | (x << 8u16) | (y << 4u16) | n) >> 4u16) & 0xFu16 == y)
        by (bit_vector)
        requires
            a < 16,
            x < 16,
            y < 16,
            n < 16,
    ;
    assert(((a << 12u16) | (x << 8u16) | (y << 4u16) | n) & 0xFu16 == n) by (bit_vector)
        requires
            a < 16,
            x < 16,
            y < 16,
            n < 16,
    ;
    assert(((a << 12u16) | (x << 8u16) | (y << 4u16) | n) & 0xFFu16 == y * 16 + n)
        by (bit_vector)
        requires
            a < 16,
            x < 16,
            y < 16,
            n < 16,
    ;
    assert(a == 0 ==> ((a << 12u16) | (x << 8u16) | (y << 4u16) | n) == x * 256 + y * 16 + n)
        by (bit_vector)
        requires
            a < 16,
            x < 16,
            y < 16,
            n < 16,
    ;
}

/// Every well-formed instruction decodes back from its documented opcode
/// pattern, fields included. The two `Sys` addresses whose patterns are those
/// of `Cls` and `Ret` are the exception.
pub proof fn lemma_decode_encode(i: Instr)
    requires
        i.wf(),
        i != Instr::Sys(0x00E0),
        i != Instr::Sys(0x00EE),
    ensures
        decode(encode(i)) == Some(i),
{
    match i {
        Instr::Cls | Instr::Ret => {
            assert(0x00E0u16 >> 12u16 == 0) by (bit_vector);
            assert(0x00EEu16 >> 12u16 == 0) by (bit_vector);
        },
        Instr::Sys(nnn) => lemma_pack_addr(0, nnn),
        Instr::Jp(nnn) => lemma_pack_addr(1, nnn),
        Instr::Call(nnn) => lemma_pack_addr(2, nnn),
        Instr::LdI(nnn) => lemma_pack_addr(0xA, nnn),
        Instr::JpV0(nnn) => lemma_pack_addr(0xB, nnn),
        Instr::SeVxKK(x, kk) => lemma_pack_imm(3, x as u16, kk),
        Instr::SneVxKK(x, kk) => lemma_pack_imm(4, x as u16, kk),
        Instr::LdVxKK(x, kk) => lemma_pack_imm(6, x as u16, kk),
        Instr::AddVxKK(x, kk) => lemma_pack_imm(7, x as u16, kk),
        Instr::RndVxKK(x, kk) => lemma_pack_imm(0xC, x as u16, kk),
        Instr::SeVxVy(x, y) => lemma_pack(5, x as u16, y as u16, 0),
        Instr::LdVxVy(x, y) => lemma_pack(8, x as u16, y as u16, 0),
        Instr::OrVxVy(x, y) => lemma_pack(8, x as u16, y as u16, 1),
        Instr::AndVxVy(x, y) => lemma_pack(8, x as u16, y as u16, 2),
        Instr::XorVxVy(x, y) => lemma_pack(8, x as u16, y as u16, 3),
        Instr::AddVxVy(x, y) => lemma_pack(8, x as u16, y as u16, 4),
        Instr::SubVxVy(x, y) => lemma_pack(8, x as u16, y as u16, 5),
        Instr::ShrVx(x) => lemma_pack(8, x as u16, 0, 6),
        Instr::SubnVxVy(x, y) => lemma_pack(8, x as u16, y as u16, 7),
        Instr::ShlVx(x) => lemma_pack(8, x as u16, 0, 0xE),
        Instr::SneVxVy(x, y) => lemma_pack(9, x as u16, y as u16, 0),
        Instr::DrwVxVyN(x, y, n) => lemma_pack(0xD, x as u16, y as u16, n as u16),
        Instr::SkpVx(x) => lemma_pack(0xE, x as u16, 9, 0xE),
        Instr::SknpVx(x) => lemma_pack(0xE, x as u16, 0xA, 1),
        Instr::LdVxDT(x) => lemma_pack(0xF, x as u16, 0, 7),
        Instr::LdVxK(x) => lemma_pack(0xF, x as u16, 0, 0xA),
        Instr::LdDTVx(x) => lemma_pack(0xF, x as u16, 1, 5),
        Instr::LdSTVx(x) => lemma_pack(0xF, x as u16, 1, 8),
        Instr::AddIVx(x) => lemma_pack(0xF, x as u16, 1, 0xE),
        Instr::LdFVx(x) => lemma_pack(0xF, x as u16, 2, 9),
        Instr::LdBVx(x) => lemma_pack(0xF, x as u16, 3, 3),
        Instr::LdIVx(x) => lemma_pack(0xF, x as u16, 5, 5),
        Instr::LdVxI(x) => lemma_pack(0xF, x as u16, 6, 5),
    }
}

impl Instr {
    /// Decodes `opcode`; `None` where it matches no documented pattern.
    pub fn from(opcode: u16) -> (r: Option<Instr>)
        ensures
            r == decode(opcode),
            r matches Some(i) ==> i.wf(),
    {
        proof {
            lemma_fields_small(opcode);
        }
        let a = opcode >> 12;
        let x = ((opcode >> 8) & 0xF) as usize;
        let y = ((opcode >> 4) & 0xF) as usize;
        let n = opcode & 0xF;
        let nnn = opcode & 0x0FFF;
        let kk = (opcode & 0xFF) as u8;
        if a == 0 {
            if opcode == 0x00E0 {
                Some(Instr::Cls)
            } else if opcode == 0x00EE {
                Some(Instr::Ret)
            } else {
                Some(Instr::Sys(nnn))
            }
        } else if a == 1 {
            Some(Instr::Jp(nnn))
        } else if a == 2 {
            Some(Instr::Call(nnn))
        } else if a == 3 {
            Some(Instr::SeVxKK(x, kk))
        } else if a == 4 {
            Some(Instr::SneVxKK(x, kk))
        } else if a == 5 {
            if n == 0 {
                Some(Instr::SeVxVy(x, y))
            } else {
                None
            }
        } else if a == 6 {
            Some(Instr::LdVxKK(x, kk))
        } else if a == 7 {
            Some(Instr::AddVxKK(x, kk))
        } else if a == 8 {
            if n == 0 {
                Some(Instr::LdVxVy(x, y))
            } else if n == 1 {
                Some(Instr::OrVxVy(x, y))
            } else if n == 2 {
                Some(Instr::AndVxVy(x, y))
            } else if n == 3 {
                Some(Instr::XorVxVy(x, y))
            } else if n == 4 {
                Some(Instr::AddVxVy(x, y))
            } else if n == 5 {
                Some(Instr::SubVxVy(x, y))
            } else if n == 6 {
                Some(Instr::ShrVx(x))
            } else if n == 7 {
                Some(Instr::SubnVxVy(x, y))
            } else if n == 0xE {
                Some(Instr::ShlVx(x))
            } else {
                None
            }
        } else if a == 9 {
            if n == 0 {
                Some(Instr::SneVxVy(x, y))
            } else {
                None
            }
        } else if a == 0xA {
            Some(Instr::LdI(nnn))
        } else if a == 0xB {
            Some(Instr::JpV0(nnn))
        } else if a == 0xC {
            Some(Instr::RndVxKK(x, kk))
        } else if a == 0xD {
            Some(Instr::DrwVxVyN(x, y, n as usize))
        } else if a == 0xE {
            if kk == 0x9E {
                Some(Instr::SkpVx(x))
            } else if kk == 0xA1 {
                Some(Instr::SknpVx(x))
            } else {
                None
            }
        } else {
            if kk == 0x07 {
                Some(Instr::LdVxDT(x))
            } else if kk == 0x0A {
                Some(Instr::LdVxK(x))
            } else if kk == 0x15 {
                Some(Instr::LdDTVx(x))
            } else if kk == 0x18 {
                Some(Instr::LdSTVx(x))
            } else if kk == 0x1E {
                Some(Instr::AddIVx(x))
            } else if kk == 0x29 {
                Some(Instr::LdFVx(x))
            } else if kk == 0x33 {
                Some(Instr::LdBVx(x))
            } else if kk == 0x55 {
                Some(Instr::LdIVx(x))
            } else if kk == 0x65 {
                Some(Instr::LdVxI(x))
            } else {
                None
            }
        }
    }

    /// The assembly text of this instruction, such as `DRW V1, V2, 3`.
    pub fn mnemonic(&self) -> (r: String)
        ensures
            r@ == mnemonic_spec(*self),
    {
        match *self {
            Instr::Cls => {
                let mut s = String::from_str("CLS");
                s
            },
            Instr::Ret => {
                let mut s = String::from_str("RET");
                s
            },
            Instr::Sys(nnn) => {
                let mut s = String::from_str("SYS ");
                append_decimal(&mut s, nnn as u64);
                s
            },
            Instr::Jp(nnn) => {
                let mut s = String::from_str("JP ");
                append_decimal(&mut s, nnn as u64);
                s
            },
            Instr::Call(nnn) => {
                let mut s = String::from_str("CALL ");
                append_decimal(&mut s, nnn as u64);
                s
            },
            Instr::SeVxKK(x, kk) => {
                let mut s = String::from_str("SE V");
                append_decimal(&mut s, x as u64);
                s.append(", ");
                append_decimal(&mut s, kk as u64);
                s
            },
            Instr::SneVxKK(x, kk) => {
                let mut s = String::from_str("SNE V");
                append_decimal(&mut s, x as u64);
                s.append(", ");
                append_decimal(&mut s, kk as u64);
                s
            },
            Instr::SeVxVy(x, y) => {
                let mut s = String::from_str("SE V");
                append_decimal(&mut s, x as u64);
                s.append(", V");
                append_decimal(&mut s, y as u64);
                s
            },
            Instr::SneVxVy(x, y) => {
                let mut s = String::from_str("SNE V");
                append_decimal(&mut s, x as u64);
                s.append(", V");
                append_decimal(&mut s, y as u64);
                s
            },
            Instr::LdVxKK(x, kk) => {
                let mut s = String::from_str("LD V");
                append_decimal(&mut s, x as u64);
                s.append(", ");
                append_decimal(&mut s, kk as u64);
                s
            },
            Instr::AddVxKK(x, kk) => {
                let mut s = String::from_str("ADD V");
                append_decimal(&mut s, x as u64);
                s.append(", ");
                append_decimal(&mut s, kk as u64);
                s
            },
            Instr::LdVxVy(x, y) => {
                let mut s = String::from_str("LD V");
                append_decimal(&mut s, x as u64);
                s.append(", V");
                append_decimal(&mut s, y as u64);
                s
            },
            Instr::OrVxVy(x, y) => {
                let mut s = String::from_str("OR V");
                append_decimal(&mut s, x as u64);
                s.append(", V");
                append_decimal(&mut s, y as u64);
                s
            },
            Instr::AndVxVy(x, y) => {
                let mut s = String::from_str("AND V");
                append_decimal(&mut s, x as u64);
                s.append(", V");
                append_decimal(&mut s, y as u64);
                s
            },
            Instr::XorVxVy(x, y) => {
                let mut s = String::from_str("XOR V");
                append_decimal(&mut s, x as u64);
                s.append(", V");
                append_decimal(&mut s, y as u64);
                s
            },
            Instr::AddVxVy(x, y) => {
                let mut s = String::from_str("ADD V");
                append_decimal(&mut s, x as u64);
                s.append(", V");
                append_decimal(&mut s, y as u64);
                s
            },
            Instr::SubVxVy(x, y) => {
                let mut s = String::from_str("SUB V");
                append_decimal(&mut s, x as u64);
                s.append(", V");
                append_decimal(&mut s, y as u64);
                s
            },
            Instr::SubnVxVy(x, y) => {
                let mut s = String::from_str("SUBN V");
                append_decimal(&mut s, x as u64);
                s.append(", V");
                append_decimal(&mut s, y as u64);
                s
            },
            Instr::ShrVx(x) => {
                let mut s = String::from_str("SHR V");
                append_decimal(&mut s, x as u64);
                s
            },
            Instr::ShlVx(x) => {
                let mut s = String::from_str("SHL V");
                append_decimal(&mut s, x as u64);
                s
            },
            Instr::LdI(nnn) => {
                let mut s = String::from_str("LD I, ");
                append_decimal(&mut s, nnn as u64);
                s
            },
            Instr::JpV0(nnn) => {
                let mut s = String::from_str("JP V0, ");
                append_decimal(&mut s, nnn as u64);
                s
            },
            Instr::RndVxKK(x, kk) => {
                let mut s = String::from_str("RND V");
                append_decimal(&mut s, x as u64);
                s.append(", ");
                append_decimal(&mut s, kk as u64);
                s
            },
            Instr::DrwVxVyN(x, y, n) => {
                let mut s = String::from_str("DRW V");
                append_decimal(&mut s, x as u64);
                s.append(", V");
                append_decimal(&mut s, y as u64);
                s.append(", ");
                append_decimal(&mut s, n as u64);
                s
            },
            Instr::SkpVx(x) => {
                let mut s = String::from_str("SKP V");
                append_decimal(&mut s, x as u64);
                s
            },
            Instr::SknpVx(x) => {
                let mut s = String::from_str("SKNP V");
                append_decimal(&mut s, x as u64);
                s
            },
            Instr::LdVxDT(x) => {
                let mut s = String::from_str("LD V");
                append_decimal(&mut s, x as u64);
                s.append(", DT");
                s
            },
            Instr::LdVxK(x) => {
                let mut s = String::from_str("LD V");
                append_decimal(&mut s, x as u64);
                s.append(", K");
                s
            },
            Instr::LdDTVx(x) => {
                let mut s = String::from_str("LD DT, V");
                append_decimal(&mut s, x as u64);
                s
            },
            Instr::LdSTVx(x) => {
                let mut s = String::from_str("LD ST, V");
                append_decimal(&mut s, x as u64);
                s
            },
            Instr::AddIVx(x) => {
                let mut s = String::from_str("ADD I, V");
                append_decimal(&mut s, x as u64);
                s
            },
            Instr::LdFVx(x) => {
                let mut s = String::from_str("LD F, V");
                append_decimal(&mut s, x as u64);
                s
            },
            Instr::LdBVx(x) => {
                let mut s = String::from_str("LD B, V");
                append_decimal(&mut s, x as u64);
                s
            },
            Instr::LdIVx(x) => {
                let mut s = String::from_str("LD [I], V");
                append_decimal(&mut s, x as u64);
                s
            },
            Instr::LdVxI(x) => {
                let mut s = String::from_str("LD V");
                append_decimal(&mut s, x as u64);
                s.append(", [I]");
                s
            },
        }
    }
}

} // verus!
