//! The instruction set and the opcode decoder.

use vstd::prelude::*;

verus! {

/// Index of a general register, `0..=15` when it comes out of the decoder.
pub type Reg = u8;

/// An address operand, at most `0xFFF` when it comes out of the decoder.
pub type Addr = u16;

/// One decoded instruction.
#[derive(Clone, Copy, PartialEq, Eq, Structural, Debug)]
pub enum Instruction {
    /// `0nnn` other than `00E0` and `00EE`: does nothing.
    Nop,
    /// `00E0`: clear the display.
    Cls,
    /// `00EE`: return from a subroutine.
    Ret,
    /// `1nnn`: jump to `nnn`.
    Jmp(Addr),
    /// `2nnn`: call the subroutine at `nnn`.
    Call(Addr),
    /// `3xkk`: skip the next instruction if `Vx == kk`.
    Ske(Reg, u8),
    /// `4xkk`: skip the next instruction if `Vx != kk`.
    Skne(Reg, u8),
    /// `5xy0`: skip the next instruction if `Vx == Vy`.
    Skre(Reg, Reg),
    /// `6xkk`: `Vx = kk`.
    Setr(Reg, u8),
    /// `7xkk`: `Vx = Vx + kk`, wrapping, no flag.
    Addr(Reg, u8),
    /// `8xy0`: `Vx = Vy`.
    Move(Reg, Reg),
    /// `8xy1`: `Vx = Vx | Vy`.
    Or(Reg, Reg),
    /// `8xy2`: `Vx = Vx & Vy`.
    And(Reg, Reg),
    /// `8xy3`: `Vx = Vx ^ Vy`.
    Xor(Reg, Reg),
    /// `8xy4`: `Vx = Vx + Vy`, `VF` = carry.
    Add(Reg, Reg),
    /// `8xy5`: `Vx = Vx - Vy`, `VF` = 1 exactly when the subtraction underflowed.
    Sub(Reg, Reg),
    /// `8xy6`: `VF` = low bit of `Vx`, then `Vx >>= 1`; `Vy` is ignored.
    Shr(Reg, Reg),
    /// `8xy7`: `Vx = Vy - Vx`, `VF` = 1 exactly when the subtraction underflowed.
    Ssub(Reg, Reg),
    /// `8xyE`: `VF = Vx & 0x80`, then `Vx <<= 1`; `Vy` is ignored.
    Shl(Reg, Reg),
    /// `9xy0`: skip the next instruction if `Vx != Vy`.
    Skrne(Reg, Reg),
    /// `Annn`: `I = nnn`.
    Seti(Addr),
    /// `Bnnn`: jump to `nnn + V0`, wrapped to twelve bits.
    Jumpi(Addr),
    /// `Cxkk`: `Vx` = a random byte `& kk`.
    Rand(Reg, u8),
    /// `Dxyn`: draw the `n`-row sprite at `I` at `(Vx, Vy)`.
    Draw(Reg, Reg, u8),
    /// `Ex9E`: skip the next instruction if key `Vx` is pressed.
    Skp(Reg),
    /// `ExA1`: skip the next instruction if key `Vx` is not pressed.
    Sknp(Reg),
    /// `Fx07`: `Vx` = delay timer.
    Moved(Reg),
    /// `Fx0A`: wait for a key, then store its index in `Vx`.
    Key(Reg),
    /// `Fx15`: delay timer = `Vx`.
    Setrd(Reg),
    /// `Fx18`: sound timer = `Vx`.
    Setrs(Reg),
    /// `Fx1E`: `I = I + Vx`, wrapped to twelve bits.
    Addi(Reg),
    /// `Fx29`: `I` = address of the glyph for `Vx`.
    Ldfnt(Reg),
    /// `Fx33`: store the decimal digits of `Vx` at `I`, `I+1`, `I+2`.
    Bcd(Reg),
    /// `Fx55`: store `V0..=Vx` at `I..`.
    Store(Reg),
    /// `Fx65`: load `V0..=Vx` from `I..`.
    Load(Reg),
}

/// The hexadecimal digit of `n` at position `k`, counted from the least significant.
pub open spec fn nibble(n: u16, k: nat) -> u8 {
    if k == 0 {
        (n % 16) as u8
    } else if k == 1 {
        ((n / 16) % 16) as u8
    } else if k == 2 {
        ((n / 256) % 16) as u8
    } else {
        ((n / 4096) % 16) as u8
    }
}

/// The low twelve bits of an opcode: its address operand.
pub open spec fn low12(n: u16) -> u16 {
    (n % 4096) as u16
}

/// The low eight bits of an opcode: its byte operand.
pub open spec fn low8(n: u16) -> u8 {
    (n % 256) as u8
}

/// Splits an opcode into its four hexadecimal digits, most significant first.
pub fn nibbles(n: u16) -> (r: (u8, u8, u8, u8))
    ensures
        r.0 == nibble(n, 3),
        r.1 == nibble(n, 2),
        r.2 == nibble(n, 1),
        r.3 == nibble(n, 0),
        r.0 < 16 && r.1 < 16 && r.2 < 16 && r.3 < 16,
{
    assert((n >> 12) == (n / 4096) % 16 && (n >> 12) < 16) by (bit_vector);
    assert(((n >> 8) & 0b1111) == (n / 256) % 16 && ((n >> 8) & 0b1111) < 16) by (bit_vector);
    assert(((n >> 4) & 0b1111) == (n / 16) % 16 && ((n >> 4) & 0b1111) < 16) by (bit_vector);
    assert((n & 0b1111) == n % 16 && (n & 0b1111) < 16) by (bit_vector);
    let n3: u8 = (n >> 12) as u8;
    let n2: u8 = ((n >> 8) & 0b1111) as u8;
    let n1: u8 = ((n >> 4) & 0b1111) as u8;
    let n0: u8 = (n & 0b1111) as u8;
    (n3, n2, n1, n0)
}

/// The low twelve bits of `n`.
pub fn twelvebit(n: u16) -> (r: u16)
    ensures
        r == low12(n),
        r <= 0xfff,
{
    assert((n & 0xfff) == n % 4096) by (bit_vector);
    n & 0xfff
}

/// The low eight bits of `n`.
pub fn eightbit(n: u16) -> (r: u8)
    ensures
        r == low8(n),
{
    assert((n & 0xff) == n % 256) by (bit_vector);
    (n & 0xff) as u8
}

/// What an opcode means: the instruction it encodes, or `None` where the
/// opcode is unassigned.
pub open spec fn decoded(opcode: u16) -> Option<Instruction> {
    let n3 = nibble(opcode, 3);
    let x = nibble(opcode, 2);
    let y = nibble(opcode, 1);
    let n = nibble(opcode, 0);
    let nnn = low12(opcode);
    let kk = low8(opcode);
    if n3 == 0 {
        if x == 0 && y == 0xE && n == 0xE {
            Some(Instruction::Ret)
        } else if x == 0 && y == 0xE && n == 0 {
            Some(Instruction::Cls)
        } else {
            Some(Instruction::Nop)
        }
    } else if n3 == 1 {
        Some(Instruction::Jmp(nnn))
    } else if n3 == 2 {
        Some(Instruction::Call(nnn))
    } else if n3 == 3 {
        Some(Instruction::Ske(x, kk))
    } else if n3 == 4 {
        Some(Instruction::Skne(x, kk))
    } else if n3 == 5 {
        if n == 0 {
            Some(Instruction::Skre(x, y))
        } else {
            None
        }
    } else if n3 == 6 {
        Some(Instruction::Setr(x, kk))
    } else if n3 == 7 {
        Some(Instruction::Addr(x, kk))
    } else if n3 == 8 {
        if n == 0 {
            Some(Instruction::Move(x, y))
        } else if n == 1 {
            Some(Instruction::Or(x, y))
        } else if n == 2 {
            Some(Instruction::And(x, y))
        } else if n == 3 {
            Some(Instruction::Xor(x, y))
        } else if n == 4 {
            Some(Instruction::Add(x, y))
        } else if n == 5 {
            Some(Instruction::Sub(x, y))
        } else if n == 6 {
            Some(Instruction::Shr(x, y))
        } else if n == 7 {
            Some(Instruction::Ssub(x, y))
        } else if n == 0xE {
            Some(Instruction::Shl(x, y))
        } else {
            None
        }
    } else if n3 == 9 {
        if n == 0 {
            Some(Instruction::Skrne(x, y))
        } else {
            None
        }
    } else if n3 == 0xA {
        Some(Instruction::Seti(nnn))
    } else if n3 == 0xB {
        Some(Instruction::Jumpi(nnn))
    } else if n3 == 0xC {
        Some(Instruction::Rand(x, kk))
    } else if n3 == 0xD {
        Some(Instruction::Draw(x, y, n))
    } else if n3 == 0xE {
        if kk == 0x9E {
            Some(Instruction::Skp(x))
        } else if kk == 0xA1 {
            Some(Instruction::Sknp(x))
        } else {
            None
        }
    } else {
        if kk == 0x07 {
            Some(Instruction::Moved(x))
        } else if kk == 0x0A {
            Some(Instruction::Key(x))
        } else if kk == 0x15 {
            Some(Instruction::Setrd(x))
        } else if kk == 0x18 {
            Some(Instruction::Setrs(x))
        } else if kk == 0x1E {
            Some(Instruction::Addi(x))
        } else if kk == 0x29 {
            Some(Instruction::Ldfnt(x))
        } else if kk == 0x33 {
            Some(Instruction::Bcd(x))
        } else if kk == 0x55 {
            Some(Instruction::Store(x))
        } else if kk == 0x65 {
            Some(Instruction::Load(x))
        } else {
            None
        }
    }
}

/// Whether an opcode encodes an instruction.
pub open spec fn assigned(opcode: u16) -> bool {
    decoded(opcode) is Some
}

/// Decodes an opcode, or reports with `None` that it is unassigned.
pub fn try_decode(opcode: u16) -> (r: Option<Instruction>)
    ensures
        r == decoded(opcode),
{
    let nnn: u16 = twelvebit(opcode);
    let kk: u8 = eightbit(opcode);
    let (n3, x, y, n) = nibbles(opcode);
    assert(kk as int == 16 * (y as int) + (n as int));
    match (n3, x, y, n) {
        (0, 0, 0xE, 0xE) => Some(Instruction::Ret),
        (0, 0, 0xE, 0) => Some(Instruction::Cls),
        (0, _, _, _) => Some(Instruction::Nop),
        (1, _, _, _) => Some(Instruction::Jmp(nnn)),
        (2, _, _, _) => Some(Instruction::Call(nnn)),
        (3, x, _, _) => Some(Instruction::Ske(x, kk)),
        (4, x, _, _) => Some(Instruction::Skne(x, kk)),
        (5, x, y, 0) => Some(Instruction::Skre(x, y)),
        (6, x, _, _) => Some(Instruction::Setr(x, kk)),
        (7, x, _, _) => Some(Instruction::Addr(x, kk)),
        (8, x, y, 0) => Some(Instruction::Move(x, y)),
        (8, x, y, 1) => Some(Instruction::Or(x, y)),
        (8, x, y, 2) => Some(Instruction::And(x, y)),
        (8, x, y, 3) => Some(Instruction::Xor(x, y)),
        (8, x, y, 4) => Some(Instruction::Add(x, y)),
        (8, x, y, 5) => Some(Instruction::Sub(x, y)),
        (8, x, y, 6) => Some(Instruction::Shr(x, y)),
        (8, x, y, 7) => Some(Instruction::Ssub(x, y)),
        (8, x, y, 0xE) => Some(Instruction::Shl(x, y)),
        (9, x, y, 0) => Some(Instruction::Skrne(x, y)),
        (0xA, _, _, _) => Some(Instruction::Seti(nnn)),
        (0xB, _, _, _) => Some(Instruction::Jumpi(nnn)),
        (0xC, x, _, _) => Some(Instruction::Rand(x, kk)),
        (0xD, x, y, n) => Some(Instruction::Draw(x, y, n)),
        (0xE, x, 9, 0xE) => Some(Instruction::Skp(x)),
        (0xE, x, 0xA, 1) => Some(Instruction::Sknp(x)),
        (0xF, x, 0, 7) => Some(Instruction::Moved(x)),
        (0xF, x, 0, 0xA) => Some(Instruction::Key(x)),
        (0xF, x, 1, 5) => Some(Instruction::Setrd(x)),
        (0xF, x, 1, 8) => Some(Instruction::Setrs(x)),
        (0xF, x, 1, 0xE) => Some(Instruction::Addi(x)),
        (0xF, x, 2, 9) => Some(Instruction::Ldfnt(x)),
        (0xF, x, 3, 3) => Some(Instruction::Bcd(x)),
        (0xF, x, 5, 5) => Some(Instruction::Store(x)),
        (0xF, x, 6, 5) => Some(Instruction::Load(x)),
        _ => None,
    }
}

/// Decodes an assigned opcode.
pub fn decode(opcode: u16) -> (r: Instruction)
    requires
        assigned(opcode),
    ensures
        decoded(opcode) == Some(r),
{
    try_decode(opcode).unwrap()
}

} // verus!
