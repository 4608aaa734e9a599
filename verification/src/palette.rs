//! The palette register: four slots, each holding one color.

use crate::color::{lemma_color_round_trip, lemma_word_round_trip, Color};
use vstd::prelude::*;
use vstd::std_specs::convert::FromSpec;

verus! {

/// Names one of the four slots of the palette register.
#[derive(Debug, Clone, Copy, PartialEq, Eq, Structural)]
pub enum PaletteColor {
    Color1,
    Color2,
    Color3,
    Color4,
}

impl PaletteColor {
    /// The position of the slot in the register.
    pub open spec fn spec_index(self) -> int {
        match self {
            PaletteColor::Color1 => 0,
            PaletteColor::Color2 => 1,
            PaletteColor::Color3 => 2,
            PaletteColor::Color4 => 3,
        }
    }

    /// The position of the slot in the register, counted from zero.
    pub fn as_palette_index(self) -> (index: usize)
        ensures
            index == self.spec_index(),
            index < 4,
    {
        match self {
            PaletteColor::Color1 => 0,
            PaletteColor::Color2 => 1,
            PaletteColor::Color3 => 2,
            PaletteColor::Color4 => 3,
        }
    }
}

/// Distinct slots lie at distinct positions, and every position below four
/// belongs to a slot.
pub proof fn lemma_slots_and_positions(a: PaletteColor, b: PaletteColor, position: int)
    ensures
        0 <= a.spec_index() < 4,
        a.spec_index() == b.spec_index() <==> a == b,
        0 <= position < 4 ==> exists|slot: PaletteColor| slot.spec_index() == position,
{
    assert(PaletteColor::Color1.spec_index() == 0);
    assert(PaletteColor::Color2.spec_index() == 1);
    assert(PaletteColor::Color3.spec_index() == 2);
    assert(PaletteColor::Color4.spec_index() == 3);
}

/// The contents of the palette register.
///
/// The register is four packed words. The view of a palette is the sequence
/// of the four colors that these words are, in the order of their slots.
pub struct Palette {
    registers: [u32; 4],
}

impl View for Palette {
    type V = Seq<Color>;

    closed spec fn view(&self) -> Seq<Color> {
        Seq::new(4, |position: int| Color::from_spec(self.registers[position]))
    }
}

impl Palette {
    /// What the given slot holds.
    pub open spec fn spec_get(&self, slot: PaletteColor) -> Color {
        self@[slot.spec_index()]
    }

    /// A palette has four slots.
    pub proof fn lemma_four_slots(&self)
        ensures
            self@.len() == 4,
    {
    }

    /// The palette whose register holds the given words.
    pub fn new(registers: [u32; 4]) -> (palette: Palette)
        ensures
            palette@.len() == 4,
            forall|position: int| 0 <= position < 4 ==> palette@[position]@ == registers[position],
    {
        proof {
            assert forall|position: int| 0 <= position < 4 implies Color::from_spec(
                registers[position],
            )@ == registers[position] by {
                lemma_word_round_trip(registers[position]);
            }
        }
        Palette { registers }
    }

    /// The four words of the register.
    pub fn registers(&self) -> (words: [u32; 4])
        ensures
            forall|position: int| 0 <= position < 4 ==> words[position] == self@[position]@,
    {
        proof {
            assert forall|position: int| 0 <= position < 4 implies Color::from_spec(
                self.registers[position],
            )@ == self.registers[position] by {
                lemma_word_round_trip(self.registers[position]);
            }
        }
        self.registers
    }

    /// Reads one slot: the word at the slot's position, taken as a color.
    #[verifier::when_used_as_spec(spec_get)]
    pub fn get(&self, slot: PaletteColor) -> (color: Color)
        ensures
            color == self.spec_get(slot),
    {
        let index = slot.as_palette_index();
        Color::from(self.registers[index])
    }

    /// Writes one slot. The three other slots keep what they held.
    pub fn set(&mut self, slot: PaletteColor, color: Color)
        ensures
            final(self)@ == old(self)@.update(slot.spec_index(), color),
            final(self)@.len() == 4,
            final(self).get(slot) == color,
            forall|other: PaletteColor| other != slot ==> final(self).get(other) == old(self).get(other),
    {
        let index = slot.as_palette_index();
        self.registers[index] = u32::from(color);
        proof {
            lemma_color_round_trip(color);
        }
    }

    /// The text that describes this palette: its four slots, each with its
    /// color.
    pub open spec fn spec_debug_string(&self) -> Seq<char> {
        "Palette { Color1: "@ + self.get(PaletteColor::Color1).spec_debug_string()
            + ", Color2: "@ + self.get(PaletteColor::Color2).spec_debug_string()
            + ", Color3: "@ + self.get(PaletteColor::Color3).spec_debug_string()
            + ", Color4: "@ + self.get(PaletteColor::Color4).spec_debug_string() + " }"@
    }

    /// Describes this palette, as in
    /// `Palette { Color1: Color { R: 0, G: 0, B: 0 }, Color2: .. }`.
    pub fn debug_string(&self) -> (text: String)
        ensures
            text@ == self.spec_debug_string(),
    {
        let mut text = String::new();
        text.append("Palette { Color1: ");
        self.get(PaletteColor::Color1).push_debug(&mut text);
        text.append(", Color2: ");
        self.get(PaletteColor::Color2).push_debug(&mut text);
        text.append(", Color3: ");
        self.get(PaletteColor::Color3).push_debug(&mut text);
        text.append(", Color4: ");
        self.get(PaletteColor::Color4).push_debug(&mut text);
        text.append(" }");
        text
    }
}

} // verus!
