use vstd::prelude::*;

verus! {

/// One decoded instruction. Register operands are indices into the register
/// file, addresses are 12-bit, immediates are 8-bit.
#[derive(Clone, Copy, Debug, PartialEq, Eq, Structural)]
pub enum Opcode {
    Clear,
    Ret,
    Jump(usize),
    Call(usize),
    Skeq(usize, u8),
    Skne(usize, u8),
    Skreq(usize, usize),
    Ld(usize, u8),
    Add(usize, u8),
    Mov(usize, usize),
    Or(usize, usize),
    And(usize, usize),
    Xor(usize, usize),
    Addr(usize, usize),
    Sub(usize, usize),
    Shr(usize, usize),
    Skrne(usize, usize),
    Ldi(usize),
    Jmpi(usize),
    Rnd(usize, u8),
    Drw(usize, usize, usize),
    Skpr(usize),
    Skup(usize),
    Movdt(usize),
    Kwait(usize),
    Lddt(usize),
    Ldst(usize),
    Addi(usize),
    Lsdpr(usize),
    Bcd(usize),
    Stor(usize),
    Read(usize),
    Ignore,
}

/// Bits 8-11: the first register operand.
pub open spec fn field_x(w: u16) -> usize {
    ((w & 0x0F00u16) >> 8u16) as usize
}

/// Bits 4-7: the second register operand.
pub open spec fn field_y(w: u16) -> usize {
    ((w & 0x00F0u16) >> 4u16) as usize
}

/// Bits 0-11: an address.
pub open spec fn field_nnn(w: u16) -> usize {
    (w & 0x0FFFu16) as usize
}

/// Bits 0-7: an immediate byte.
pub open spec fn field_nn(w: u16) -> u8 {
    (w & 0x00FFu16) as u8
}

/// Bits 0-3: a count or sub-opcode.
pub open spec fn field_n(w: u16) -> usize {
    (w & 0x000Fu16) as usize
}

/// The operation that an instruction word stands for.
pub open spec fn decode(w: u16) -> Opcode {
    let x = field_x(w);
    let y = field_y(w);
    let nnn = field_nnn(w);
    let nn = field_nn(w);
    let n = field_n(w);
    let family = w & 0xF000u16;
    if family == 0x0000u16 {
        if nn == 0xE0u8 {
            Opcode::Clear
        } else if nn == 0xEEu8 {
            Opcode::Ret
        } else {
            Opcode::Ignore
        }
    } else if family == 0x1000u16 {
        Opcode::Jump(nnn)
    } else if family == 0x2000u16 {
        Opcode::Call(nnn)
    } else if family == 0x3000u16 {
        Opcode::Skeq(x, nn)
    } else if family == 0x4000u16 {
        Opcode::Skne(x, nn)
    } else if family == 0x5000u16 {
        Opcode::Skreq(x, y)
    } else if family == 0x6000u16 {
        Opcode::Ld(x, nn)
    } else if family == 0x7000u16 {
        Opcode::Add(x, nn)
    } else if family == 0x8000u16 {
        if n == 0 {
            Opcode::Mov(x, y)
        } else if n == 1 {
            Opcode::Or(x, y)
        } else if n == 2 {
            Opcode::And(x, y)
        } else if n == 3 {
            Opcode::Xor(x, y)
        } else if n == 4 {
            Opcode::Addr(x, y)
        } else if n == 5 {
            Opcode::Sub(x, y)
        } else if n == 6 {
            Opcode::Shr(x, y)
        } else {
            Opcode::Ignore
        }
    } else if family == 0x9000u16 {
        Opcode::Skrne(x, y)
    } else if family == 0xA000u16 {
        Opcode::Ldi(nnn)
    } else if family == 0xB000u16 {
        Opcode::Jmpi(nnn)
    } else if family == 0xC000u16 {
        Opcode::Rnd(x, nn)
    } else if family == 0xD000u16 {
        Opcode::Drw(x, y, n)
    } else if family == 0xE000u16 {
        if nn == 0x9Eu8 {
            Opcode::Skpr(x)
        } else if nn == 0xA1u8 {
            Opcode::Skup(x)
        } else {
            Opcode::Ignore
        }
    } else {
        if nn == 0x07u8 {
            Opcode::Movdt(x)
        } else if nn == 0x0Au8 {
            Opcode::Kwait(x)
        } else if nn == 0x15u8 {
            Opcode::Lddt(x)
        } else if nn == 0x18u8 {
            Opcode::Ldst(x)
        } else if nn == 0x1Eu8 {
            Opcode::Addi(x)
        } else if nn == 0x29u8 {
            Opcode::Lsdpr(x)
        } else if nn == 0x33u8 {
            Opcode::Bcd(x)
        } else if nn == 0x55u8 {
            Opcode::Stor(x)
        } else if nn == 0x65u8 {
            Opcode::Read(x)
        } else {
            Opcode::Ignore
        }
    }
}

/// Every operand of `op` is in range: registers below 16, addresses below
/// 0x1000, counts below 16.
pub open spec fn operands_in_range(op: Opcode) -> bool {
    match op {
        Opcode::Jump(a) | Opcode::Call(a) | Opcode::Ldi(a) | Opcode::Jmpi(a) => a < 0x1000,
        Opcode::Skeq(x, _) | Opcode::Skne(x, _) | Opcode::Ld(x, _) | Opcode::Add(x, _)
        | Opcode::Rnd(x, _) => x < 16,
        Opcode::Skreq(x, y) | Opcode::Mov(x, y) | Opcode::Or(x, y) | Opcode::And(x, y)
        | Opcode::Xor(x, y) | Opcode::Addr(x, y) | Opcode::Sub(x, y) | Opcode::Shr(x, y)
        | Opcode::Skrne(x, y) => x < 16 && y < 16,
        Opcode::Drw(x, y, n) => x < 16 && y < 16 && n < 16,
        Opcode::Skpr(x) | Opcode::Skup(x) | Opcode::Movdt(x) | Opcode::Kwait(x)
        | Opcode::Lddt(x) | Opcode::Ldst(x) | Opcode::Addi(x) | Opcode::Lsdpr(x)
        | Opcode::Bcd(x) | Opcode::Stor(x) | Opcode::Read(x) => x < 16,
        Opcode::Clear | Opcode::Ret | Opcode::Ignore => true,
    }
}

/// The fields of an instruction word are within their widths.
pub proof fn lemma_fields_in_range(w: u16)
    ensures
        field_x(w) < 16,
        field_y(w) < 16,
        field_nnn(w) < 0x1000,
        field_n(w) < 16,
{
    assert(((w & 0x0F00u16) >> 8u16) < 16u16) by (bit_vector);
    assert(((w & 0x00F0u16) >> 4u16) < 16u16) by (bit_vector);
    assert((w & 0x0FFFu16) < 0x1000u16) by (bit_vector);
    assert((w & 0x000Fu16) < 16u16) by (bit_vector);
}

/// Decoding is total: every word decodes to one operation, whose operands
/// are within range.
pub proof fn lemma_decode_total(w: u16)
    ensures
        operands_in_range(decode(w)),
{
    lemma_fields_in_range(w);
}

/// Decoding is a function of the word alone: equal words decode to equal
/// operations.
pub proof fn lemma_decode_deterministic(w1: u16, w2: u16)
    requires
        w1 == w2,
    ensures
        decode(w1) == decode(w2),
{
}

/// Decodes a 16-bit instruction word. Patterns outside the instruction set
/// decode to `Opcode::Ignore`.
pub fn parse_opcode(opcode: u16) -> (r: Opcode)
    ensures
        r == decode(opcode),
        operands_in_range(r),
{
    proof {
        lemma_decode_total(opcode);
    }
    let x = ((opcode & 0x0F00) >> 8u16) as usize;
    let y = ((opcode & 0x00F0) >> 4u16) as usize;
    let nnn = (opcode & 0x0FFF) as usize;
    let nn = (opcode & 0x00FF) as u8;
    let n = (opcode & 0x000F) as usize;
    match opcode & 0xF000 {
        0x0000 => match nn {
            0xE0 => Opcode::Clear,
            0xEE => Opcode::Ret,
            _ => Opcode::Ignore,
        },
        0x1000 => Opcode::Jump(nnn),
        0x2000 => Opcode::Call(nnn),
        0x3000 => Opcode::Skeq(x, nn),
        0x4000 => Opcode::Skne(x, nn),
        0x5000 => Opcode::Skreq(x, y),
        0x6000 => Opcode::Ld(x, nn),
        0x7000 => Opcode::Add(x, nn),
        0x8000 => match n {
            0x0 => Opcode::Mov(x, y),
            0x1 => Opcode::Or(x, y),
            0x2 => Opcode::And(x, y),
            0x3 => Opcode::Xor(x, y),
            0x4 => Opcode::Addr(x, y),
            0x5 => Opcode::Sub(x, y),
            0x6 => Opcode::Shr(x, y),
            _ => Opcode::Ignore,
        },
        0x9000 => Opcode::Skrne(x, y),
        0xA000 => Opcode::Ldi(nnn),
        0xB000 => Opcode::Jmpi(nnn),
        0xC000 => Opcode::Rnd(x, nn),
        0xD000 => Opcode::Drw(x, y, n),
        0xE000 => match nn {
            0x9E => Opcode::Skpr(x),
            0xA1 => Opcode::Skup(x),
            _ => Opcode::Ignore,
        },
        _ => match nn {
            0x07 => Opcode::Movdt(x),
            0x0A => Opcode::Kwait(x),
            0x15 => Opcode::Lddt(x),
            0x18 => Opcode::Ldst(x),
            0x1E => Opcode::Addi(x),
            0x29 => Opcode::Lsdpr(x),
            0x33 => Opcode::Bcd(x),
            0x55 => Opcode::Stor(x),
            0x65 => Opcode::Read(x),
            _ => Opcode::Ignore,
        },
    }
}

} // verus!
