//! The color type: construction, channel access and conversion.

use crate::layout::{
    channel_of, compose, filler_of, lemma_compose_bytes, lemma_image_round_trip,
    lemma_replace_channel, memory_image, replace_channel, word_of_image, ByteOrder, ColorChannel,
};
use crate::text::{decimal, push_decimal};
use vstd::prelude::*;
use vstd::std_specs::convert::FromSpec;

verus! {

/// A color: one packed word. Every 32-bit value is a color.
///
/// The view of a color is its packed word.
#[derive(Clone, Copy, PartialEq, Eq, Structural)]
pub struct Color(u32);

impl View for Color {
    type V = u32;

    closed spec fn view(&self) -> u32 {
        self.0
    }
}

impl Color {
    /// The color with the given channels and a zero filler byte.
    pub closed spec fn spec_rgb(red: u8, green: u8, blue: u8) -> Color {
        Color(compose(0, red, green, blue))
    }

    /// What the given channel of this color holds.
    pub open spec fn spec_get(&self, channel: ColorChannel) -> u8 {
        channel_of(self@, channel)
    }

    /// Packs three channels into a color.
    #[verifier::when_used_as_spec(spec_rgb)]
    pub fn rgb(red: u8, green: u8, blue: u8) -> (color: Color)
        ensures
            color == Color::spec_rgb(red, green, blue),
            color@ == compose(0, red, green, blue),
            color.get(ColorChannel::Red) == red,
            color.get(ColorChannel::Green) == green,
            color.get(ColorChannel::Blue) == blue,
    {
        let red: u32 = red as u32;
        let green: u32 = green as u32;
        let blue: u32 = blue as u32;
        let word: u32 = (red << 16) | (green << 8) | blue;
        assert(word == red * 0x1_0000 + green * 0x100 + blue) by (bit_vector)
            requires
                red < 0x100,
                green < 0x100,
                blue < 0x100,
                word == (red << 16) | (green << 8) | blue,
        ;
        proof {
            lemma_compose_bytes(0, red as u8, green as u8, blue as u8);
        }
        Color(word)
    }

    /// The gray whose three channels all hold `value`.
    pub fn grayscale(value: u8) -> (color: Color)
        ensures
            color == Color::rgb(value, value, value),
    {
        Color::rgb(value, value, value)
    }

    /// Reads one channel.
    #[verifier::when_used_as_spec(spec_get)]
    pub fn get(&self, channel: ColorChannel) -> (value: u8)
        ensures
            value == self.spec_get(channel),
    {
        let word: u32 = self.0;
        let byte: u32 = match channel {
            ColorChannel::Red => (word >> 16) & 0xff,
            ColorChannel::Green => (word >> 8) & 0xff,
            ColorChannel::Blue => word & 0xff,
        };
        assert((word >> 16) & 0xff == (word / 0x1_0000) % 0x100) by (bit_vector);
        assert((word >> 8) & 0xff == (word / 0x100) % 0x100) by (bit_vector);
        assert(word & 0xff == word % 0x100) by (bit_vector);
        byte as u8
    }

    /// This color with its red channel replaced; the rest is kept bit for bit.
    pub fn with_red(self, red: u8) -> (color: Color)
        ensures
            color@ == replace_channel(self@, ColorChannel::Red, red),
            color.get(ColorChannel::Red) == red,
            color.get(ColorChannel::Green) == self.get(ColorChannel::Green),
            color.get(ColorChannel::Blue) == self.get(ColorChannel::Blue),
            filler_of(color@) == filler_of(self@),
    {
        let before: u32 = self.0;
        let red: u32 = red as u32;
        let word: u32 = (before & 0xff00ffff) | (red << 16);
        assert(word == (before / 0x100_0000) * 0x100_0000 + red * 0x1_0000 + ((before / 0x100)
            % 0x100) * 0x100 + before % 0x100) by (bit_vector)
            requires
                red < 0x100,
                word == (before & 0xff00ffff) | (red << 16),
        ;
        proof {
            lemma_replace_channel(before, ColorChannel::Red, red as u8);
        }
        Color(word)
    }

    /// This color with its green channel replaced; the rest is kept bit for bit.
    pub fn with_green(self, green: u8) -> (color: Color)
        ensures
            color@ == replace_channel(self@, ColorChannel::Green, green),
            color.get(ColorChannel::Red) == self.get(ColorChannel::Red),
            color.get(ColorChannel::Green) == green,
            color.get(ColorChannel::Blue) == self.get(ColorChannel::Blue),
            filler_of(color@) == filler_of(self@),
    {
        let before: u32 = self.0;
        let green: u32 = green as u32;
        let word: u32 = (before & 0xffff00ff) | (green << 8);
        assert(word == (before / 0x100_0000) * 0x100_0000 + ((before / 0x1_0000) % 0x100)
            * 0x1_0000 + green * 0x100 + before % 0x100) by (bit_vector)
            requires
                green < 0x100,
                word == (before & 0xffff00ff) | (green << 8),
        ;
        proof {
            lemma_replace_channel(before, ColorChannel::Green, green as u8);
        }
        Color(word)
    }

    /// This color with its blue channel replaced; the rest is kept bit for bit.
    pub fn with_blue(self, blue: u8) -> (color: Color)
        ensures
            color@ == replace_channel(self@, ColorChannel::Blue, blue),
            color.get(ColorChannel::Red) == self.get(ColorChannel::Red),
            color.get(ColorChannel::Green) == self.get(ColorChannel::Green),
            color.get(ColorChannel::Blue) == blue,
            filler_of(color@) == filler_of(self@),
    {
        let before: u32 = self.0;
        let blue: u32 = blue as u32;
        let word: u32 = (before & 0xffffff00) | blue;
        assert(word == (before / 0x100_0000) * 0x100_0000 + ((before / 0x1_0000) % 0x100)
            * 0x1_0000 + ((before / 0x100) % 0x100) * 0x100 + blue) by (bit_vector)
            requires
                blue < 0x100,
                word == (before & 0xffffff00) | blue,
        ;
        proof {
            lemma_replace_channel(before, ColorChannel::Blue, blue as u8);
        }
        Color(word)
    }

    /// Writes one channel. The two other channels and the filler byte keep
    /// what they held.
    pub fn set(&mut self, channel: ColorChannel, value: u8)
        ensures
            final(self)@ == replace_channel(old(self)@, channel, value),
            final(self).get(channel) == value,
            forall|other: ColorChannel|
                other != channel ==> final(self).get(other) == old(self).get(other),
            filler_of(final(self)@) == filler_of(old(self)@),
    {
        proof {
            lemma_replace_channel(self@, channel, value);
        }
        *self = match channel {
            ColorChannel::Red => self.with_red(value),
            ColorChannel::Green => self.with_green(value),
            ColorChannel::Blue => self.with_blue(value),
        };
    }

    /// The four bytes of this color as they lie in memory on a machine with
    /// the given byte order.
    pub fn to_bytes(self, order: ByteOrder) -> (bytes: [u8; 4])
        ensures
            bytes@ == memory_image(self@, order),
    {
        let word: u32 = self.0;
        let filler: u8 = (word >> 24) as u8;
        let red: u8 = self.get(ColorChannel::Red);
        let green: u8 = self.get(ColorChannel::Green);
        let blue: u8 = self.get(ColorChannel::Blue);
        assert(word >> 24 == word / 0x100_0000 && word >> 24 < 0x100) by (bit_vector);
        match order {
            ByteOrder::LittleEndian => [blue, green, red, filler],
            ByteOrder::BigEndian => [filler, red, green, blue],
        }
    }

    /// The color whose four bytes lie in memory as given on a machine with
    /// the given byte order.
    pub fn from_bytes(bytes: [u8; 4], order: ByteOrder) -> (color: Color)
        ensures
            color@ == word_of_image(bytes@, order),
            memory_image(color@, order) == bytes@,
    {
        let (filler, red, green, blue) = match order {
            ByteOrder::LittleEndian => (bytes[3], bytes[2], bytes[1], bytes[0]),
            ByteOrder::BigEndian => (bytes[0], bytes[1], bytes[2], bytes[3]),
        };
        let filler: u32 = filler as u32;
        let red: u32 = red as u32;
        let green: u32 = green as u32;
        let blue: u32 = blue as u32;
        let word: u32 = (filler << 24) | (red << 16) | (green << 8) | blue;
        assert(word == filler * 0x100_0000 + red * 0x1_0000 + green * 0x100 + blue) by (bit_vector)
            requires
                filler < 0x100,
                red < 0x100,
                green < 0x100,
                blue < 0x100,
                word == (filler << 24) | (red << 16) | (green << 8) | blue,
        ;
        proof {
            lemma_image_round_trip(0, bytes@, order);
        }
        Color(word)
    }

    /// The text that describes this color: its three channels, in decimal.
    pub open spec fn spec_debug_string(&self) -> Seq<char> {
        "Color { R: "@ + decimal(self.get(ColorChannel::Red)) + ", G: "@ + decimal(
            self.get(ColorChannel::Green),
        ) + ", B: "@ + decimal(self.get(ColorChannel::Blue)) + " }"@
    }

    /// Appends the description of this color to `text`.
    pub fn push_debug(&self, text: &mut String)
        ensures
            final(text)@ == old(text)@ + self.spec_debug_string(),
    {
        text.append("Color { R: ");
        push_decimal(text, self.get(ColorChannel::Red));
        text.append(", G: ");
        push_decimal(text, self.get(ColorChannel::Green));
        text.append(", B: ");
        push_decimal(text, self.get(ColorChannel::Blue));
        text.append(" }");
    }

    /// Describes this color, as in `Color { R: 255, G: 128, B: 0 }`.
    pub fn debug_string(&self) -> (text: String)
        ensures
            text@ == self.spec_debug_string(),
    {
        let mut text = String::new();
        self.push_debug(&mut text);
        text
    }
}

impl Default for Color {
    /// Black.
    fn default() -> (color: Color)
        ensures
            color == Color::rgb(0, 0, 0),
            color == Color::from_spec(Color::BLACK),
            color@ == 0,
            forall|channel: ColorChannel| color.get(channel) == 0,
    {
        Color(0)
    }
}

impl From<u32> for Color {
    /// The color whose packed word is `source`.
    fn from(source: u32) -> (color: Color)
        ensures
            color@ == source,
    {
        Color(source)
    }
}

impl vstd::std_specs::convert::FromSpecImpl<u32> for Color {
    open spec fn obeys_from_spec() -> bool {
        true
    }

    closed spec fn from_spec(source: u32) -> Color {
        Color(source)
    }
}

impl From<Color> for u32 {
    /// The packed word of `source`.
    fn from(source: Color) -> (word: u32)
        ensures
            word == source@,
    {
        source.0
    }
}

impl vstd::std_specs::convert::FromSpecImpl<Color> for u32 {
    open spec fn obeys_from_spec() -> bool {
        true
    }

    open spec fn from_spec(source: Color) -> u32 {
        source@
    }
}

/// Two colors with the same packed word are the same color.
pub proof fn lemma_same_word_same_color(a: Color, b: Color)
    ensures
        a@ == b@ <==> a == b,
{
}

/// The packed word of an `rgb` color holds the three channels below a zero
/// filler byte.
pub proof fn lemma_rgb_word(red: u8, green: u8, blue: u8)
    ensures
        Color::rgb(red, green, blue)@ == compose(0, red, green, blue),
        Color::rgb(red, green, blue).get(ColorChannel::Red) == red,
        Color::rgb(red, green, blue).get(ColorChannel::Green) == green,
        Color::rgb(red, green, blue).get(ColorChannel::Blue) == blue,
{
    lemma_compose_bytes(0, red, green, blue);
}

/// The color of the word that holds three channels below a zero filler byte
/// is the `rgb` color of these channels.
pub proof fn lemma_rgb_from_word(red: u8, green: u8, blue: u8)
    ensures
        Color::from_spec(compose(0, red, green, blue)) == Color::rgb(red, green, blue),
{
}

/// Turning a color into its packed word and the word back into a color
/// gives the color again.
pub proof fn lemma_color_round_trip(color: Color)
    ensures
        Color::from_spec(u32::from_spec(color)) == color,
{
}

/// Turning a word into a color and the color back into its packed word gives
/// the word again.
pub proof fn lemma_word_round_trip(word: u32)
    ensures
        Color::from_spec(word)@ == word,
        u32::from_spec(Color::from_spec(word)) == word,
{
}

} // verus!
