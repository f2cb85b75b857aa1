use vstd::prelude::*;

verus! {

/// One decoded instruction. `x` and `y` select registers, `addr` is a 12-bit
/// address, `nn` an immediate byte and `n` a sprite height.
#[derive(Clone, Copy, Debug, PartialEq, Eq, Structural)]
pub enum Instruction {
    /// `00E0`
    ClearScreen,
    /// `00EE`
    Return,
    /// `1nnn`
    Jump { addr: u16 },
    /// `2nnn`
    Call { addr: u16 },
    /// `3xnn`
    SkipEqImm { x: u8, nn: u8 },
    /// `4xnn`
    SkipNeImm { x: u8, nn: u8 },
    /// `5xy0`
    SkipEqReg { x: u8, y: u8 },
    /// `6xnn`
    LoadImm { x: u8, nn: u8 },
    /// `7xnn`
    AddImm { x: u8, nn: u8 },
    /// `8xy0`
    Copy { x: u8, y: u8 },
    /// `8xy1`
    Or { x: u8, y: u8 },
    /// `8xy2`
    And { x: u8, y: u8 },
    /// `8xy3`
    Xor { x: u8, y: u8 },
    /// `8xy4`
    AddReg { x: u8, y: u8 },
    /// `8xy5`
    SubReg { x: u8, y: u8 },
    /// `8xy6`; the `y` field of the word is ignored.
    ShiftRight { x: u8 },
    /// `8xy7`
    SubReverse { x: u8, y: u8 },
    /// `8xyE`; the `y` field of the word is ignored.
    ShiftLeft { x: u8 },
    /// `9xy0`
    SkipNeReg { x: u8, y: u8 },
    /// `Annn`
    SetIndex { addr: u16 },
    /// `Bnnn`
    JumpOffset { addr: u16 },
    /// `Cxnn`
    Random { x: u8, nn: u8 },
    /// `Dxyn`
    Draw { x: u8, y: u8, n: u8 },
    /// `Ex9E`
    SkipKeyDown { x: u8 },
    /// `ExA1`
    SkipKeyUp { x: u8 },
    /// `Fx07`
    LoadDelay { x: u8 },
    /// `Fx0A`
    WaitKey { x: u8 },
    /// `Fx15`
    SetDelay { x: u8 },
    /// `Fx18`
    SetSound { x: u8 },
    /// `Fx1E`
    AddIndex { x: u8 },
    /// `Fx29`
    FontChar { x: u8 },
    /// `Fx33`
    StoreBcd { x: u8 },
    /// `Fx55`
    StoreRegs { x: u8 },
    /// `Fx65`
    LoadRegs { x: u8 },
}

impl Instruction {
    /// Register selectors name one of the sixteen registers, addresses fit in
    /// 12 bits and sprite heights in 4 bits.
    pub open spec fn wf(self) -> bool {
        match self {
            Instruction::ClearScreen | Instruction::Return => true,
            Instruction::Jump { addr } | Instruction::Call { addr } | Instruction::SetIndex {
                addr,
            } | Instruction::JumpOffset { addr } => addr < 0x1000,
            Instruction::SkipEqImm { x, nn } | Instruction::SkipNeImm { x, nn }
            | Instruction::LoadImm { x, nn } | Instruction::AddImm { x, nn }
            | Instruction::Random { x, nn } => x < 16,
            Instruction::SkipEqReg { x, y } | Instruction::Copy { x, y } | Instruction::Or {
                x,
                y,
            } | Instruction::And { x, y } | Instruction::Xor { x, y } | Instruction::AddReg { x, y }
            | Instruction::SubReg { x, y } | Instruction::SubReverse { x, y }
            | Instruction::SkipNeReg { x, y } => x < 16 && y < 16,
            Instruction::Draw { x, y, n } => x < 16 && y < 16 && n < 16,
            Instruction::ShiftRight { x } | Instruction::ShiftLeft { x }
            | Instruction::SkipKeyDown { x } | Instruction::SkipKeyUp { x }
            | Instruction::LoadDelay { x } | Instruction::WaitKey { x } | Instruction::SetDelay {
                x,
            } | Instruction::SetSound { x } | Instruction::AddIndex { x } | Instruction::FontChar {
                x,
            } | Instruction::StoreBcd { x } | Instruction::StoreRegs { x }
            | Instruction::LoadRegs { x } => x < 16,
        }
    }
}

/// The 16-bit instruction word formed by two consecutive memory bytes.
pub open spec fn word_of(hi: u8, lo: u8) -> u16 {
    (hi as int * 256 + lo as int) as u16
}

/// The instruction that the bytes `hi`, `lo` encode, by the nibble table
/// `n0 n1 n2 n3` (most significant first); `None` for a word that encodes
/// no instruction.
pub open spec fn decode_spec(hi: u8, lo: u8) -> Option<Instruction> {
    let n0 = hi / 16;
    let x = hi % 16;
    let y = lo / 16;
    let n = lo % 16;
    let addr = (x as int * 256 + lo as int) as u16;
    if n0 == 0 {
        if hi == 0x00 && lo == 0xE0 {
            Some(Instruction::ClearScreen)
        } else if hi == 0x00 && lo == 0xEE {
            Some(Instruction::Return)
        } else {
            None
        }
    } else if n0 == 1 {
        Some(Instruction::Jump { addr })
    } else if n0 == 2 {
        Some(Instruction::Call { addr })
    } else if n0 == 3 {
        Some(Instruction::SkipEqImm { x, nn: lo })
    } else if n0 == 4 {
        Some(Instruction::SkipNeImm { x, nn: lo })
    } else if n0 == 5 {
        if n == 0 {
            Some(Instruction::SkipEqReg { x, y })
        } else {
            None
        }
    } else if n0 == 6 {
        Some(Instruction::LoadImm { x, nn: lo })
    } else if n0 == 7 {
        Some(Instruction::AddImm { x, nn: lo })
    } else if n0 == 8 {
        if n == 0 {
            Some(Instruction::Copy { x, y })
        } else if n == 1 {
            Some(Instruction::Or { x, y })
        } else if n == 2 {
            Some(Instruction::And { x, y })
        } else if n == 3 {
            Some(Instruction::Xor { x, y })
        } else if n == 4 {
            Some(Instruction::AddReg { x, y })
        } else if n == 5 {
            Some(Instruction::SubReg { x, y })
        } else if n == 6 {
            Some(Instruction::ShiftRight { x })
        } else if n == 7 {
            Some(Instruction::SubReverse { x, y })
        } else if n == 0xE {
            Some(Instruction::ShiftLeft { x })
        } else {
            None
        }
    } else if n0 == 9 {
        if n == 0 {
            Some(Instruction::SkipNeReg { x, y })
        } else {
            None
        }
    } else if n0 == 0xA {
        Some(Instruction::SetIndex { addr })
    } else if n0 == 0xB {
        Some(Instruction::JumpOffset { addr })
    } else if n0 == 0xC {
        Some(Instruction::Random { x, nn: lo })
    } else if n0 == 0xD {
        Some(Instruction::Draw { x, y, n })
    } else if n0 == 0xE {
        if lo == 0x9E {
            Some(Instruction::SkipKeyDown { x })
        } else if lo == 0xA1 {
            Some(Instruction::SkipKeyUp { x })
        } else {
            None
        }
    } else {
        if lo == 0x07 {
            Some(Instruction::LoadDelay { x })
        } else if lo == 0x0A {
            Some(Instruction::WaitKey { x })
        } else if lo == 0x15 {
            Some(Instruction::SetDelay { x })
        } else if lo == 0x18 {
            Some(Instruction::SetSound { x })
        } else if lo == 0x1E {
            Some(Instruction::AddIndex { x })
        } else if lo == 0x29 {
            Some(Instruction::FontChar { x })
        } else if lo == 0x33 {
            Some(Instruction::StoreBcd { x })
        } else if lo == 0x55 {
            Some(Instruction::StoreRegs { x })
        } else if lo == 0x65 {
            Some(Instruction::LoadRegs { x })
        } else {
            None
        }
    }
}

/// Splits the two bytes of an instruction word into nibbles and decodes them.
pub fn decode(byte_a: u8, byte_b: u8) -> (r: Option<Instruction>)
    ensures
        r == decode_spec(byte_a, byte_b),
        r matches Some(i) ==> i.wf(),
{
    let nibble_0 = (byte_a & 0xF0) >> 4;
    let nibble_1 = byte_a & 0x0F;
    let nibble_2 = (byte_b & 0xF0) >> 4;
    let nibble_3 = byte_b & 0x0F;
    assert(nibble_0 == byte_a / 16 && nibble_1 == byte_a % 16) by (bit_vector)
        requires
            nibble_0 == (byte_a & 0xF0) >> 4,
            nibble_1 == byte_a & 0x0F,
    ;
    assert(nibble_2 == byte_b / 16 && nibble_3 == byte_b % 16) by (bit_vector)
        requires
            nibble_2 == (byte_b & 0xF0) >> 4,
            nibble_3 == byte_b & 0x0F,
    ;
    let address: u16 = (nibble_1 as u16) * 256 + byte_b as u16;
    let x = nibble_1;
    let y = nibble_2;
    let immediate_value = byte_b;
    match (nibble_0, nibble_1, nibble_2, nibble_3) {
        (0x0, 0x0, 0xE, 0x0) => Some(Instruction::ClearScreen),
        (0x0, 0x0, 0xE, 0xE) => Some(Instruction::Return),
        (0x1, _, _, _) => Some(Instruction::Jump { addr: address }),
        (0x2, _, _, _) => Some(Instruction::Call { addr: address }),
        (0x3, _, _, _) => Some(Instruction::SkipEqImm { x, nn: immediate_value }),
        (0x4, _, _, _) => Some(Instruction::SkipNeImm { x, nn: immediate_value }),
        (0x5, _, _, 0x0) => Some(Instruction::SkipEqReg { x, y }),
        (0x6, _, _, _) => Some(Instruction::LoadImm { x, nn: immediate_value }),
        (0x7, _, _, _) => Some(Instruction::AddImm { x, nn: immediate_value }),
        (0x8, _, _, 0x0) => Some(Instruction::Copy { x, y }),
        (0x8, _, _, 0x1) => Some(Instruction::Or { x, y }),
        (0x8, _, _, 0x2) => Some(Instruction::And { x, y }),
        (0x8, _, _, 0x3) => Some(Instruction::Xor { x, y }),
        (0x8, _, _, 0x4) => Some(Instruction::AddReg { x, y }),
        (0x8, _, _, 0x5) => Some(Instruction::SubReg { x, y }),
        (0x8, _, _, 0x6) => Some(Instruction::ShiftRight { x }),
        (0x8, _, _, 0x7) => Some(Instruction::SubReverse { x, y }),
        (0x8, _, _, 0xE) => Some(Instruction::ShiftLeft { x }),
        (0x9, _, _, 0x0) => Some(Instruction::SkipNeReg { x, y }),
        (0xA, _, _, _) => Some(Instruction::SetIndex { addr: address }),
        (0xB, _, _, _) => Some(Instruction::JumpOffset { addr: address }),
        (0xC, _, _, _) => Some(Instruction::Random { x, nn: immediate_value }),
        (0xD, _, _, _) => Some(Instruction::Draw { x, y, n: nibble_3 }),
        (0xE, _, 0x9, 0xE) => Some(Instruction::SkipKeyDown { x }),
        (0xE, _, 0xA, 0x1) => Some(Instruction::SkipKeyUp { x }),
        (0xF, _, 0x0, 0x7) => Some(Instruction::LoadDelay { x }),
        (0xF, _, 0x0, 0xA) => Some(Instruction::WaitKey { x }),
        (0xF, _, 0x1, 0x5) => Some(Instruction::SetDelay { x }),
        (0xF, _, 0x1, 0x8) => Some(Instruction::SetSound { x }),
        (0xF, _, 0x1, 0xE) => Some(Instruction::AddIndex { x }),
        (0xF, _, 0x2, 0x9) => Some(Instruction::FontChar { x }),
        (0xF, _, 0x3, 0x3) => Some(Instruction::StoreBcd { x }),
        (0xF, _, 0x5, 0x5) => Some(Instruction::StoreRegs { x }),
        (0xF, _, 0x6, 0x5) => Some(Instruction::LoadRegs { x }),
        _ => None,
    }
}

} // verus!
