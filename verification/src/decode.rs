//! The instruction decoder: the two fetched bytes form a 16-bit opcode, whose
//! nibble fields select one of the ~35 instructions. Dispatch is on the top
//! nibble, with sub-dispatch inside the 0x0, 0x8, 0xE and 0xF families.

use vstd::prelude::*;

verus! {

/// A decoded instruction. Register indices are already extracted as `usize`
/// values below 16; `Unknown` carries the whole opcode of a word that matched
/// no pattern.
#[derive(Clone, Copy, PartialEq, Eq, Structural, Debug)]
pub enum Instr {
    /// 00E0: clear the screen.
    Cls,
    /// 00EE: return from subroutine.
    Ret,
    /// 00CN: scroll the display N rows down (extended set).
    ScrollDown(usize),
    /// 00FB: scroll the display 4 columns right (extended set).
    ScrollRight,
    /// 00FC: scroll the display 4 columns left (extended set).
    ScrollLeft,
    /// 00FD: exit the interpreter.
    Exit,
    /// 00FE: leave extended display mode.
    LoRes,
    /// 00FF: enter extended display mode.
    HiRes,
    /// 1NNN: jump to NNN.
    Jump(u16),
    /// 2NNN: call the subroutine at NNN.
    Call(u16),
    /// 3XNN: skip the next instruction if VX == NN.
    SkipEqImm(usize, u8),
    /// 4XNN: skip the next instruction if VX != NN.
    SkipNeImm(usize, u8),
    /// 5XYN: skip the next instruction if VX == VY.
    SkipEqReg(usize, usize),
    /// 6XNN: VX = NN.
    SetImm(usize, u8),
    /// 7XNN: VX = VX + NN wrapping, carry flag untouched, skipped for X = F.
    AddImm(usize, u8),
    /// 8XY0: VX = VY.
    Mov(usize, usize),
    /// 8XY1: VX = VX | VY.
    Or(usize, usize),
    /// 8XY2: VX = VX & VY.
    And(usize, usize),
    /// 8XY3: VX = VX ^ VY.
    Xor(usize, usize),
    /// 8XY4: VX = VX + VY wrapping, VF = carry.
    Add(usize, usize),
    /// 8XY5: VX = VX - VY wrapping, VF = 1 when no borrow.
    Sub(usize, usize),
    /// 8XY6: VF = VX & 1, then VX shifted right once (same register).
    Shr(usize),
    /// 8XY7: VX = VY - VX wrapping, VF = 1 when no borrow.
    SubN(usize, usize),
    /// 8XYE: VF = VX & 0x80, then VX shifted left once (same register).
    Shl(usize),
    /// 9XYN: skip the next instruction if VX != VY.
    SkipNeReg(usize, usize),
    /// ANNN: index = NNN.
    SetIndex(u16),
    /// BNNN: jump to NNN + V0.
    JumpV0(u16),
    /// CXNN: VX = random byte & NN.
    Rnd(usize, u8),
    /// DXYN: draw an 8-wide sprite of N rows at (VX, VY); N = 0 draws a
    /// 16x16 sprite in extended mode and nothing in base mode.
    Draw(usize, usize, usize),
    /// EX9E: skip the next instruction if the key named by VX is pressed;
    /// the low 4 bits of VX name the key.
    SkipKey(usize),
    /// EXA1: skip the next instruction if the key named by VX is not
    /// pressed; the low 4 bits of VX name the key.
    SkipNoKey(usize),
    /// FX07: VX = delay timer.
    GetDelay(usize),
    /// FX0A: suspend until a key is pressed, store its index in VX.
    WaitKey(usize),
    /// FX15: delay timer = VX.
    SetDelay(usize),
    /// FX18: sound timer = VX.
    SetSound(usize),
    /// FX1E: index = index + VX wrapping, skipped for X = F.
    AddIndex(usize),
    /// FX29: index = address of the 5-byte font glyph for VX.
    FontSmall(usize),
    /// FX30: index = address of the 10-byte font glyph for VX.
    FontLarge(usize),
    /// FX33: the decimal digits of VX stored at index, index+1, index+2.
    Bcd(usize),
    /// FX55: V0..=VX stored at memory starting at index.
    SaveRegs(usize),
    /// FX65: V0..=VX loaded from memory starting at index.
    LoadRegs(usize),
    /// FX75: V0..=VX stored into the auxiliary flag bytes.
    SaveRpl(usize),
    /// FX85: V0..=VX loaded from the auxiliary flag bytes.
    LoadRpl(usize),
    /// Anything else; reported and stepped over.
    Unknown(u16),
}

/// Second nibble: a register index.
pub open spec fn op_x(op: u16) -> usize {
    ((op / 256) % 16) as usize
}

/// Third nibble: a register index.
pub open spec fn op_y(op: u16) -> usize {
    ((op / 16) % 16) as usize
}

/// Bottom nibble.
pub open spec fn op_n(op: u16) -> usize {
    (op % 16) as usize
}

/// Bottom byte.
pub open spec fn op_nn(op: u16) -> u8 {
    (op % 256) as u8
}

/// Bottom 12 bits: an address.
pub open spec fn op_nnn(op: u16) -> u16 {
    (op % 4096) as u16
}

/// The meaning of an opcode word.
pub open spec fn decode_spec(op: u16) -> Instr {
    let x = op_x(op);
    let y = op_y(op);
    let n = op_n(op);
    let nn = op_nn(op);
    let nnn = op_nnn(op);
    let family = op / 4096;
    if family == 0x0 {
        if nn == 0xE0 {
            Instr::Cls
        } else if nn == 0xEE {
            Instr::Ret
        } else if nn == 0xFB {
            Instr::ScrollRight
        } else if nn == 0xFC {
            Instr::ScrollLeft
        } else if nn == 0xFD {
            Instr::Exit
        } else if nn == 0xFE {
            Instr::LoRes
        } else if nn == 0xFF {
            Instr::HiRes
        } else if nn / 16 == 0xC {
            Instr::ScrollDown(n)
        } else {
            Instr::Unknown(op)
        }
    } else if family == 0x1 {
        Instr::Jump(nnn)
    } else if family == 0x2 {
        Instr::Call(nnn)
    } else if family == 0x3 {
        Instr::SkipEqImm(x, nn)
    } else if family == 0x4 {
        Instr::SkipNeImm(x, nn)
    } else if family == 0x5 {
        Instr::SkipEqReg(x, y)
    } else if family == 0x6 {
        Instr::SetImm(x, nn)
    } else if family == 0x7 {
        Instr::AddImm(x, nn)
    } else if family == 0x8 {
        if n == 0x0 {
            Instr::Mov(x, y)
        } else if n == 0x1 {
            Instr::Or(x, y)
        } else if n == 0x2 {
            Instr::And(x, y)
        } else if n == 0x3 {
            Instr::Xor(x, y)
        } else if n == 0x4 {
            Instr::Add(x, y)
        } else if n == 0x5 {
            Instr::Sub(x, y)
        } else if n == 0x6 {
            Instr::Shr(x)
        } else if n == 0x7 {
            Instr::SubN(x, y)
        } else if n == 0xE {
            Instr::Shl(x)
        } else {
            Instr::Unknown(op)
        }
    } else if family == 0x9 {
        Instr::SkipNeReg(x, y)
    } else if family == 0xA {
        Instr::SetIndex(nnn)
    } else if family == 0xB {
        Instr::JumpV0(nnn)
    } else if family == 0xC {
        Instr::Rnd(x, nn)
    } else if family == 0xD {
        Instr::Draw(x, y, n)
    } else if family == 0xE {
        if nn == 0x9E {
            Instr::SkipKey(x)
        } else if nn == 0xA1 {
            Instr::SkipNoKey(x)
        } else {
            Instr::Unknown(op)
        }
    } else {
        if nn == 0x07 {
            Instr::GetDelay(x)
        } else if nn == 0x0A {
            Instr::WaitKey(x)
        } else if nn == 0x15 {
            Instr::SetDelay(x)
        } else if nn == 0x18 {
            Instr::SetSound(x)
        } else if nn == 0x1E {
            Instr::AddIndex(x)
        } else if nn == 0x29 {
            Instr::FontSmall(x)
        } else if nn == 0x30 {
            Instr::FontLarge(x)
        } else if nn == 0x33 {
            Instr::Bcd(x)
        } else if nn == 0x55 {
            Instr::SaveRegs(x)
        } else if nn == 0x65 {
            Instr::LoadRegs(x)
        } else if nn == 0x75 {
            Instr::SaveRpl(x)
        } else if nn == 0x85 {
            Instr::LoadRpl(x)
        } else {
            Instr::Unknown(op)
        }
    }
}

/// Decodes one opcode word.
pub fn decode(op: u16) -> (r: Instr)
    ensures
        r == decode_spec(op),
{
    let x = ((op / 256) % 16) as usize;
    let y = ((op / 16) % 16) as usize;
    let n = (op % 16) as usize;
    let nn = (op % 256) as u8;
    let nnn = op % 4096;
    let family = op / 4096;
    if family == 0x0 {
        if nn == 0xE0 {
            Instr::Cls
        } else if nn == 0xEE {
            Instr::Ret
        } else if nn == 0xFB {
            Instr::ScrollRight
        } else if nn == 0xFC {
            Instr::ScrollLeft
        } else if nn == 0xFD {
            Instr::Exit
        } else if nn == 0xFE {
            Instr::LoRes
        } else if nn == 0xFF {
            Instr::HiRes
        } else if nn / 16 == 0xC {
            Instr::ScrollDown(n)
        } else {
            Instr::Unknown(op)
        }
    } else if family == 0x1 {
        Instr::Jump(nnn)
    } else if family == 0x2 {
        Instr::Call(nnn)
    } else if family == 0x3 {
        Instr::SkipEqImm(x, nn)
    } else if family == 0x4 {
        Instr::SkipNeImm(x, nn)
    } else if family == 0x5 {
        Instr::SkipEqReg(x, y)
    } else if family == 0x6 {
        Instr::SetImm(x, nn)
    } else if family == 0x7 {
        Instr::AddImm(x, nn)
    } else if family == 0x8 {
        if n == 0x0 {
            Instr::Mov(x, y)
        } else if n == 0x1 {
            Instr::Or(x, y)
        } else if n == 0x2 {
            Instr::And(x, y)
        } else if n == 0x3 {
            Instr::Xor(x, y)
        } else if n == 0x4 {
            Instr::Add(x, y)
        } else if n == 0x5 {
            Instr::Sub(x, y)
        } else if n == 0x6 {
            Instr::Shr(x)
        } else if n == 0x7 {
            Instr::SubN(x, y)
        } else if n == 0xE {
            Instr::Shl(x)
        } else {
            Instr::Unknown(op)
        }
    } else if family == 0x9 {
        Instr::SkipNeReg(x, y)
    } else if family == 0xA {
        Instr::SetIndex(nnn)
    } else if family == 0xB {
        Instr::JumpV0(nnn)
    } else if family == 0xC {
        Instr::Rnd(x, nn)
    } else if family == 0xD {
        Instr::Draw(x, y, n)
    } else if family == 0xE {
        if nn == 0x9E {
            Instr::SkipKey(x)
        } else if nn == 0xA1 {
            Instr::SkipNoKey(x)
        } else {
            Instr::Unknown(op)
        }
    } else {
        if nn == 0x07 {
            Instr::GetDelay(x)
        } else if nn == 0x0A {
            Instr::WaitKey(x)
        } else if nn == 0x15 {
            Instr::SetDelay(x)
        } else if nn == 0x18 {
            Instr::SetSound(x)
        } else if nn == 0x1E {
            Instr::AddIndex(x)
        } else if nn == 0x29 {
            Instr::FontSmall(x)
        } else if nn == 0x30 {
            Instr::FontLarge(x)
        } else if nn == 0x33 {
            Instr::Bcd(x)
        } else if nn == 0x55 {
            Instr::SaveRegs(x)
        } else if nn == 0x65 {
            Instr::LoadRegs(x)
        } else if nn == 0x75 {
            Instr::SaveRpl(x)
        } else if nn == 0x85 {
            Instr::LoadRpl(x)
        } else {
            Instr::Unknown(op)
        }
    }
}

} // verus!
