//! The joypad: eight buttons wired to two select lines of four bits each.
use vstd::prelude::*;

verus! {

#[derive(PartialEq, Eq, Structural, Debug, Clone, Copy)]
#[allow(non_camel_case_types)]
pub enum GameboyButton {
    A,
    B,
    LEFT,
    RIGHT,
    UP,
    DOWN,
    START,
    SELECT,
}

/// The pressed buttons as the hardware sees them: one bit per button, set
/// while the button is held. `p14` carries the direction pad, `p15` the
/// action buttons.
#[derive(PartialEq, Eq, Structural, Debug, Clone, Copy)]
pub struct GameboyInput {
    pub p14: u8,
    pub p15: u8,
}

impl GameboyButton {
    /// Whether the button sits on the direction line.
    pub open spec fn on_p14(self) -> bool {
        match self {
            GameboyButton::DOWN | GameboyButton::UP | GameboyButton::LEFT | GameboyButton::RIGHT => true,
            _ => false,
        }
    }

    /// The button's bit within its line.
    pub open spec fn line_mask(self) -> u8 {
        match self {
            GameboyButton::DOWN | GameboyButton::START => 0x08,
            GameboyButton::UP | GameboyButton::SELECT => 0x04,
            GameboyButton::LEFT | GameboyButton::B => 0x02,
            GameboyButton::RIGHT | GameboyButton::A => 0x01,
        }
    }
}

/// The direction line for a sequence of pressed buttons.
pub open spec fn p14_of(buttons: Seq<GameboyButton>) -> u8
    decreases buttons.len(),
{
    if buttons.len() == 0 {
        0
    } else if buttons.last().on_p14() {
        p14_of(buttons.drop_last()) | buttons.last().line_mask()
    } else {
        p14_of(buttons.drop_last())
    }
}

/// The action line for a sequence of pressed buttons.
pub open spec fn p15_of(buttons: Seq<GameboyButton>) -> u8
    decreases buttons.len(),
{
    if buttons.len() == 0 {
        0
    } else if !buttons.last().on_p14() {
        p15_of(buttons.drop_last()) | buttons.last().line_mask()
    } else {
        p15_of(buttons.drop_last())
    }
}

/// Both lines hold only their low four bits, and a button's bit is set in
/// its line exactly when the button occurs in the sequence.
pub proof fn lemma_lines_hold_pressed(buttons: Seq<GameboyButton>, button: GameboyButton)
    ensures
        p14_of(buttons) & 0xF0 == 0,
        p15_of(buttons) & 0xF0 == 0,
        button.on_p14() ==> (p14_of(buttons) & button.line_mask() != 0 <==> buttons.contains(
            button,
        )),
        !button.on_p14() ==> (p15_of(buttons) & button.line_mask() != 0 <==> buttons.contains(
            button,
        )),
    decreases buttons.len(),
{
    if buttons.len() == 0 {
        assert(0u8 & 0xF0 == 0 && 0u8 & 1 == 0 && 0u8 & 2 == 0 && 0u8 & 4 == 0 && 0u8 & 8 == 0)
            by (bit_vector);
    } else {
        let rest = buttons.drop_last();
        let last = buttons.last();
        lemma_lines_hold_pressed(rest, button);
        let m = last.line_mask();
        let k = button.line_mask();
        let p = p14_of(rest);
        let q = p15_of(rest);
        assert((m == 1 || m == 2 || m == 4 || m == 8) && (k == 1 || k == 2 || k == 4 || k == 8));
        assert((p & 0xF0 == 0 ==> (p | m) & 0xF0 == 0) && (q & 0xF0 == 0 ==> (q | m) & 0xF0 == 0)
            && ((p | m) & k != 0 <==> (p & k != 0 || m == k)) && ((q | m) & k != 0 <==> (q & k
            != 0 || m == k))) by (bit_vector)
            requires
                (m == 1 || m == 2 || m == 4 || m == 8) && (k == 1 || k == 2 || k == 4 || k == 8),
        ;
        assert(buttons.contains(button) <==> (rest.contains(button) || last == button)) by {
            if buttons.contains(button) {
                let i = choose|i: int| 0 <= i < buttons.len() && buttons[i] == button;
                if i < buttons.len() - 1 {
                    assert(rest[i] == button);
                }
            }
            if rest.contains(button) {
                let i = choose|i: int| 0 <= i < rest.len() && rest[i] == button;
                assert(buttons[i] == button);
            }
            if last == button {
                assert(buttons[buttons.len() - 1] == button);
            }
        }
        assert(last.on_p14() == button.on_p14() && m == k ==> last == button);
    }
}

pub fn build_input(input: &[GameboyButton]) -> (lines: GameboyInput)
    ensures
        lines.p14 == p14_of(input@),
        lines.p15 == p15_of(input@),
{
    let mut p14: u8 = 0;
    let mut p15: u8 = 0;
    let mut i: usize = 0;
    while i < input.len()
        invariant
            i <= input.len(),
            p14 == p14_of(input@.take(i as int)),
            p15 == p15_of(input@.take(i as int)),
        decreases input.len() - i,
    {
        proof {
            assert(input@.take(i + 1).drop_last() =~= input@.take(i as int));
        }
        match input[i] {
            GameboyButton::DOWN => p14 |= 0x08,
            GameboyButton::UP => p14 |= 0x04,
            GameboyButton::LEFT => p14 |= 0x02,
            GameboyButton::RIGHT => p14 |= 0x01,
            GameboyButton::START => p15 |= 0x08,
            GameboyButton::SELECT => p15 |= 0x04,
            GameboyButton::B => p15 |= 0x02,
            GameboyButton::A => p15 |= 0x01,
        }
        i += 1;
    }
    proof {
        assert(input@.take(input.len() as int) =~= input@);
    }
    GameboyInput { p14, p15 }
}

} // verus!
