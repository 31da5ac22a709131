//! Decoding of 16-bit instruction words.
use vstd::prelude::*;

verus! {

/// One decoded instruction. In the encodings noted on each variant, `X` and
/// `Y` are register indices, `NN` an 8-bit immediate, `NNN` a 12-bit address
/// and `N` a 4-bit height.
#[derive(Copy, Clone, Debug, PartialEq, Eq, Structural)]
pub enum Opcode {
    /// `0NNN`: call a host machine-code routine (ignored).
    CallAddress { address: u16 },
    /// `00E0`
    ClearScreen,
    /// `00EE`
    Return,
    /// `1NNN`
    Goto { address: u16 },
    /// `2NNN`
    CallSubroutine { address: u16 },
    /// `3XNN`: skip the next instruction if `VX == NN`.
    IfRegEqual { register: u8, immediate: u8 },
    /// `4XNN`: skip the next instruction if `VX != NN`.
    IfRegNotEqual { register: u8, immediate: u8 },
    /// `5XY0`: skip the next instruction if `VX == VY`.
    IfRegsEqual { register1: u8, register2: u8 },
    /// `6XNN`
    SetRegister { register: u8, immediate: u8 },
    /// `7XNN`: add without touching the flag.
    AddToRegister { register: u8, immediate: u8 },
    /// `8XY0`
    MoveRegToReg { register1: u8, register2: u8 },
    /// `8XY1`
    BitwiseOrRegs { register1: u8, register2: u8 },
    /// `8XY2`
    BitwiseAndRegs { register1: u8, register2: u8 },
    /// `8XY3`
    BitwiseXorRegs { register1: u8, register2: u8 },
    /// `8XY4`: `VX += VY`, `VF` = carry.
    AddRegs { register1: u8, register2: u8 },
    /// `8XY5`: `VX -= VY`, `VF` = no borrow.
    SubtractRegs { register1: u8, register2: u8 },
    /// `8XY6`: `VX >>= 1`, `VF` = the bit shifted out.
    RightShiftReg { register1: u8 },
    /// `8XY7`: `VX = VY - VX`, `VF` = no borrow.
    SubtractRegsOppositeOrder { register1: u8, register2: u8 },
    /// `8XYE`: `VX <<= 1`, `VF` = the bit shifted out.
    LeftShiftReg { register1: u8 },
    /// `9XY0`: skip the next instruction if `VX != VY`.
    IfRegsNotEqual { register1: u8, register2: u8 },
    /// `ANNN`
    SetIToAddress { address: u16 },
    /// `BNNN`: jump to `NNN + V0`.
    JumpIndirect { address: u16 },
    /// `CXNN`: `VX` = a random byte AND `NN`.
    Rand { register: u8, immediate: u8 },
    /// `DXYN`
    Draw { register1: u8, register2: u8, height: u8 },
    /// `EX9E`: skip the next instruction if key `VX` is held.
    IfKeyEqual { register: u8 },
    /// `EXA1`: skip the next instruction if key `VX` is not held.
    IfKeyNotEqual { register: u8 },
    /// `FX07`
    GetDelay { register: u8 },
    /// `FX0A`: wait for a key press and store the key in `VX`.
    GetKey { register: u8 },
    /// `FX15`
    SetDelay { register: u8 },
    /// `FX18`
    SetSound { register: u8 },
    /// `FX1E`
    AddRegToI { register: u8 },
    /// `FX29`: point `I` at the glyph of digit `VX`.
    GetSpriteAddr { register: u8 },
    /// `FX33`
    ToBinaryCodedDecimal { register: u8 },
    /// `FX55`
    DumpRegistersUntil { register: u8 },
    /// `FX65`
    LoadRegistersUntil { register: u8 },
    /// Any word that encodes none of the above.
    Unknown { opcode: u16 },
}

/// The top nibble, which selects the instruction family.
pub open spec fn family(w: u16) -> u16 {
    w >> 12u16
}

/// The `X` nibble.
pub open spec fn x_of(w: u16) -> u8 {
    ((w >> 8u16) & 0xFu16) as u8
}

/// The `Y` nibble.
pub open spec fn y_of(w: u16) -> u8 {
    ((w >> 4u16) & 0xFu16) as u8
}

/// The low nibble `N`.
pub open spec fn n_of(w: u16) -> u8 {
    (w & 0xFu16) as u8
}

/// The low byte `NN`.
pub open spec fn nn_of(w: u16) -> u8 {
    (w & 0xFFu16) as u8
}

/// The low twelve bits `NNN`.
pub open spec fn nnn_of(w: u16) -> u16 {
    w & 0xFFFu16
}

/// The instruction that word `w` encodes.
pub open spec fn decoded(w: u16) -> Opcode {
    let f = family(w);
    let x = x_of(w);
    let y = y_of(w);
    if f == 0x0 {
        if nnn_of(w) == 0x0E0 {
            Opcode::ClearScreen
        } else if nnn_of(w) == 0x0EE {
            Opcode::Return
        } else {
            Opcode::CallAddress { address: nnn_of(w) }
        }
    } else if f == 0x1 {
        Opcode::Goto { address: nnn_of(w) }
    } else if f == 0x2 {
        Opcode::CallSubroutine { address: nnn_of(w) }
    } else if f == 0x3 {
        Opcode::IfRegEqual { register: x, immediate: nn_of(w) }
    } else if f == 0x4 {
        Opcode::IfRegNotEqual { register: x, immediate: nn_of(w) }
    } else if f == 0x5 && n_of(w) == 0 {
        Opcode::IfRegsEqual { register1: x, register2: y }
    } else if f == 0x6 {
        Opcode::SetRegister { register: x, immediate: nn_of(w) }
    } else if f == 0x7 {
        Opcode::AddToRegister { register: x, immediate: nn_of(w) }
    } else if f == 0x8 && n_of(w) == 0x0 {
        Opcode::MoveRegToReg { register1: x, register2: y }
    } else if f == 0x8 && n_of(w) == 0x1 {
        Opcode::BitwiseOrRegs { register1: x, register2: y }
    } else if f == 0x8 && n_of(w) == 0x2 {
        Opcode::BitwiseAndRegs { register1: x, register2: y }
    } else if f == 0x8 && n_of(w) == 0x3 {
        Opcode::BitwiseXorRegs { register1: x, register2: y }
    } else if f == 0x8 && n_of(w) == 0x4 {
        Opcode::AddRegs { register1: x, register2: y }
    } else if f == 0x8 && n_of(w) == 0x5 {
        Opcode::SubtractRegs { register1: x, register2: y }
    } else if f == 0x8 && n_of(w) == 0x6 {
        Opcode::RightShiftReg { register1: x }
    } else if f == 0x8 && n_of(w) == 0x7 {
        Opcode::SubtractRegsOppositeOrder { register1: x, register2: y }
    } else if f == 0x8 && n_of(w) == 0xE {
        Opcode::LeftShiftReg { register1: x }
    } else if f == 0x9 && n_of(w) == 0 {
        Opcode::IfRegsNotEqual { register1: x, register2: y }
    } else if f == 0xA {
        Opcode::SetIToAddress { address: nnn_of(w) }
    } else if f == 0xB {
        Opcode::JumpIndirect { address: nnn_of(w) }
    } else if f == 0xC {
        Opcode::Rand { register: x, immediate: nn_of(w) }
    } else if f == 0xD {
        Opcode::Draw { register1: x, register2: y, height: n_of(w) }
    } else if f == 0xE && nn_of(w) == 0x9E {
        Opcode::IfKeyEqual { register: x }
    } else if f == 0xE && nn_of(w) == 0xA1 {
        Opcode::IfKeyNotEqual { register: x }
    } else if f == 0xF && nn_of(w) == 0x07 {
        Opcode::GetDelay { register: x }
    } else if f == 0xF && nn_of(w) == 0x0A {
        Opcode::GetKey { register: x }
    } else if f == 0xF && nn_of(w) == 0x15 {
        Opcode::SetDelay { register: x }
    } else if f == 0xF && nn_of(w) == 0x18 {
        Opcode::SetSound { register: x }
    } else if f == 0xF && nn_of(w) == 0x1E {
        Opcode::AddRegToI { register: x }
    } else if f == 0xF && nn_of(w) == 0x29 {
        Opcode::GetSpriteAddr { register: x }
    } else if f == 0xF && nn_of(w) == 0x33 {
        Opcode::ToBinaryCodedDecimal { register: x }
    } else if f == 0xF && nn_of(w) == 0x55 {
        Opcode::DumpRegistersUntil { register: x }
    } else if f == 0xF && nn_of(w) == 0x65 {
        Opcode::LoadRegistersUntil { register: x }
    } else {
        Opcode::Unknown { opcode: w }
    }
}

/// Every operand lies in the range that its field encodes: registers and
/// heights below 16, addresses below `0x1000`.
pub open spec fn operands_in_range(op: Opcode) -> bool {
    match op {
        Opcode::CallAddress { address } => address < 0x1000,
        Opcode::Goto { address } => address < 0x1000,
        Opcode::CallSubroutine { address } => address < 0x1000,
        Opcode::SetIToAddress { address } => address < 0x1000,
        Opcode::JumpIndirect { address } => address < 0x1000,
        Opcode::IfRegEqual { register, .. } => register < 16,
        Opcode::IfRegNotEqual { register, .. } => register < 16,
        Opcode::SetRegister { register, .. } => register < 16,
        Opcode::AddToRegister { register, .. } => register < 16,
        Opcode::Rand { register, .. } => register < 16,
        Opcode::IfRegsEqual { register1, register2 } => register1 < 16 && register2 < 16,
        Opcode::MoveRegToReg { register1, register2 } => register1 < 16 && register2 < 16,
        Opcode::BitwiseOrRegs { register1, register2 } => register1 < 16 && register2 < 16,
        Opcode::BitwiseAndRegs { register1, register2 } => register1 < 16 && register2 < 16,
        Opcode::BitwiseXorRegs { register1, register2 } => register1 < 16 && register2 < 16,
        Opcode::AddRegs { register1, register2 } => register1 < 16 && register2 < 16,
        Opcode::SubtractRegs { register1, register2 } => register1 < 16 && register2 < 16,
        Opcode::SubtractRegsOppositeOrder { register1, register2 } => register1 < 16 && register2 < 16,
        Opcode::IfRegsNotEqual { register1, register2 } => register1 < 16 && register2 < 16,
        Opcode::RightShiftReg { register1 } => register1 < 16,
        Opcode::LeftShiftReg { register1 } => register1 < 16,
        Opcode::Draw { register1, register2, height } => register1 < 16 && register2 < 16 && height < 16,
        Opcode::IfKeyEqual { register } => register < 16,
        Opcode::IfKeyNotEqual { register } => register < 16,
        Opcode::GetDelay { register } => register < 16,
        Opcode::GetKey { register } => register < 16,
        Opcode::SetDelay { register } => register < 16,
        Opcode::SetSound { register } => register < 16,
        Opcode::AddRegToI { register } => register < 16,
        Opcode::GetSpriteAddr { register } => register < 16,
        Opcode::ToBinaryCodedDecimal { register } => register < 16,
        Opcode::DumpRegistersUntil { register } => register < 16,
        Opcode::LoadRegistersUntil { register } => register < 16,
        Opcode::ClearScreen | Opcode::Return | Opcode::Unknown { .. } => true,
    }
}

/// Decoding is a total function of the word alone: every word decodes to
/// exactly one instruction, the same one every time, with its operands in
/// range; a word that encodes no instruction decodes to `Unknown` carrying
/// that very word.
pub proof fn lemma_decode_total(w: u16, v: u16)
    requires
        w == v,
    ensures
        decoded(w) == decoded(v),
        operands_in_range(decoded(w)),
        decoded(w) matches Opcode::Unknown { opcode } ==> opcode == w,
{
    assert(((w >> 8u16) & 0xFu16) < 16) by (bit_vector);
    assert(((w >> 4u16) & 0xFu16) < 16) by (bit_vector);
    assert((w & 0xFu16) < 16) by (bit_vector);
    assert((w & 0xFFFu16) < 0x1000) by (bit_vector);
}

impl From<u16> for Opcode {
    fn from(instruction: u16) -> (r: Opcode)
        ensures
            r == decoded(instruction),
    {
        let x = ((instruction >> 8) & 0xF) as u8;
        let y = ((instruction >> 4) & 0xF) as u8;
        let n = (instruction & 0xF) as u8;
        let nn = (instruction & 0xFF) as u8;
        let nnn = instruction & 0xFFF;
        match instruction >> 12 {
            0x0 => match nnn {
                0x0E0 => Opcode::ClearScreen,
                0x0EE => Opcode::Return,
                address => Opcode::CallAddress { address },
            },
            0x1 => Opcode::Goto { address: nnn },
            0x2 => Opcode::CallSubroutine { address: nnn },
            0x3 => Opcode::IfRegEqual { register: x, immediate: nn },
            0x4 => Opcode::IfRegNotEqual { register: x, immediate: nn },
            0x5 if n == 0 => Opcode::IfRegsEqual { register1: x, register2: y },
            0x6 => Opcode::SetRegister { register: x, immediate: nn },
            0x7 => Opcode::AddToRegister { register: x, immediate: nn },
            0x8 => match n {
                0x0 => Opcode::MoveRegToReg { register1: x, register2: y },
                0x1 => Opcode::BitwiseOrRegs { register1: x, register2: y },
                0x2 => Opcode::BitwiseAndRegs { register1: x, register2: y },
                0x3 => Opcode::BitwiseXorRegs { register1: x, register2: y },
                0x4 => Opcode::AddRegs { register1: x, register2: y },
                0x5 => Opcode::SubtractRegs { register1: x, register2: y },
                0x6 => Opcode::RightShiftReg { register1: x },
                0x7 => Opcode::SubtractRegsOppositeOrder { register1: x, register2: y },
                0xE => Opcode::LeftShiftReg { register1: x },
                _ => Opcode::Unknown { opcode: instruction },
            },
            0x9 if n == 0 => Opcode::IfRegsNotEqual { register1: x, register2: y },
            0xA => Opcode::SetIToAddress { address: nnn },
            0xB => Opcode::JumpIndirect { address: nnn },
            0xC => Opcode::Rand { register: x, immediate: nn },
            0xD => Opcode::Draw { register1: x, register2: y, height: n },
            0xE => match nn {
                0x9E => Opcode::IfKeyEqual { register: x },
                0xA1 => Opcode::IfKeyNotEqual { register: x },
                _ => Opcode::Unknown { opcode: instruction },
            },
            0xF => match nn {
                0x07 => Opcode::GetDelay { register: x },
                0x0A => Opcode::GetKey { register: x },
                0x15 => Opcode::SetDelay { register: x },
                0x18 => Opcode::SetSound { register: x },
                0x1E => Opcode::AddRegToI { register: x },
                0x29 => Opcode::GetSpriteAddr { register: x },
                0x33 => Opcode::ToBinaryCodedDecimal { register: x },
                0x55 => Opcode::DumpRegistersUntil { register: x },
                0x65 => Opcode::LoadRegistersUntil { register: x },
                _ => Opcode::Unknown { opcode: instruction },
            },
            _ => Opcode::Unknown { opcode: instruction },
        }
    }
}

impl vstd::std_specs::convert::FromSpecImpl<u16> for Opcode {
    open spec fn obeys_from_spec() -> bool {
        true
    }

    open spec fn from_spec(v: u16) -> Opcode {
        decoded(v)
    }
}

} // verus!
