//! The five interrupt lines of the machine.
use vstd::prelude::*;

verus! {

/// An interrupt line. The lines are numbered 0 to 4 in the order given here,
/// which is also the order of their priority (lowest number first).
#[derive(PartialEq, Eq, Structural, Debug, Clone, Copy)]
#[allow(non_camel_case_types)]
pub enum InterruptType {
    VBLANK,
    LCDC,
    TIMER,
    SERIAL,
    KEYPAD,
}

impl InterruptType {
    /// The number of the line: its bit in the enable and pending masks.
    pub open spec fn bit(self) -> u8 {
        match self {
            InterruptType::VBLANK => 0,
            InterruptType::LCDC => 1,
            InterruptType::TIMER => 2,
            InterruptType::SERIAL => 3,
            InterruptType::KEYPAD => 4,
        }
    }

    /// The mask with only this line's bit set.
    pub open spec fn mask(self) -> u8 {
        match self {
            InterruptType::VBLANK => 0x01,
            InterruptType::LCDC => 0x02,
            InterruptType::TIMER => 0x04,
            InterruptType::SERIAL => 0x08,
            InterruptType::KEYPAD => 0x10,
        }
    }

    /// The address of the line's service routine.
    pub open spec fn vector(self) -> u16 {
        match self {
            InterruptType::VBLANK => 0x0040,
            InterruptType::LCDC => 0x0048,
            InterruptType::TIMER => 0x0050,
            InterruptType::SERIAL => 0x0058,
            InterruptType::KEYPAD => 0x0060,
        }
    }

    /// The line with the given number, if there is one.
    pub open spec fn by_bit(bit: u8) -> Option<InterruptType> {
        if bit == 0 {
            Some(InterruptType::VBLANK)
        } else if bit == 1 {
            Some(InterruptType::LCDC)
        } else if bit == 2 {
            Some(InterruptType::TIMER)
        } else if bit == 3 {
            Some(InterruptType::SERIAL)
        } else if bit == 4 {
            Some(InterruptType::KEYPAD)
        } else {
            None
        }
    }

    pub fn get_by_bit(bit: u8) -> (found: Option<InterruptType>)
        ensures
            found == Self::by_bit(bit),
            found is Some <==> bit <= 4,
            found is Some ==> found->0.bit() == bit,
    {
        match bit {
            0 => Some(InterruptType::VBLANK),
            1 => Some(InterruptType::LCDC),
            2 => Some(InterruptType::TIMER),
            3 => Some(InterruptType::SERIAL),
            4 => Some(InterruptType::KEYPAD),
            _ => None,
        }
    }

    pub fn get_bit(self) -> (bit: u8)
        ensures
            bit == self.bit(),
    {
        match self {
            InterruptType::VBLANK => 0,
            InterruptType::LCDC => 1,
            InterruptType::TIMER => 2,
            InterruptType::SERIAL => 3,
            InterruptType::KEYPAD => 4,
        }
    }

    pub fn get_mask(self) -> (mask: u8)
        ensures
            mask == self.mask(),
    {
        match self {
            InterruptType::VBLANK => 0x01,
            InterruptType::LCDC => 0x02,
            InterruptType::TIMER => 0x04,
            InterruptType::SERIAL => 0x08,
            InterruptType::KEYPAD => 0x10,
        }
    }

    pub fn get_vector(self) -> (vector: u16)
        ensures
            vector == self.vector(),
    {
        match self {
            InterruptType::VBLANK => 0x0040,
            InterruptType::LCDC => 0x0048,
            InterruptType::TIMER => 0x0050,
            InterruptType::SERIAL => 0x0058,
            InterruptType::KEYPAD => 0x0060,
        }
    }
}

/// Every line's mask is its bit shifted into place, and its vector lies
/// eight bytes after that of the line before it.
pub proof fn lemma_line_numbering(line: InterruptType)
    ensures
        line.mask() == 1u8 << line.bit(),
        line.vector() == 0x40 + 8 * line.bit(),
        InterruptType::by_bit(line.bit()) == Some(line),
{
    assert(1u8 << 0u8 == 1 && 1u8 << 1u8 == 2 && 1u8 << 2u8 == 4 && 1u8 << 3u8 == 8 && 1u8 << 4u8
        == 16) by (bit_vector);
}

} // verus!
