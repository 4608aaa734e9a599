//! The layout of a color in a 32-bit word, and of that word in memory.
//!
//! A packed word holds red in bits 16 to 23, green in bits 8 to 15 and blue
//! in bits 0 to 7. Bits 24 to 31 carry no color; they are kept as they are.
//! The contracts read a word as a number in base 256, so that a channel
//! is one of its digits. Which byte of the word in memory holds which digit
//! depends on the machine's byte order, and is decided here once.

use vstd::prelude::*;

verus! {

/// Selects one of the three channels of a color.
#[derive(Debug, Clone, Copy, PartialEq, Eq, Structural)]
pub enum ColorChannel {
    Red,
    Green,
    Blue,
}

/// The order in which the four bytes of a packed word lie in memory.
#[derive(Debug, Clone, Copy, PartialEq, Eq, Structural)]
pub enum ByteOrder {
    /// The lowest byte of the word comes first.
    LittleEndian,
    /// The highest byte of the word comes first.
    BigEndian,
}

/// The word made of the four given bytes, `filler` being the highest.
pub open spec fn compose(filler: u8, red: u8, green: u8, blue: u8) -> u32 {
    (filler * 0x100_0000 + red * 0x1_0000 + green * 0x100 + blue) as u32
}

/// The byte of `word` that holds `channel`.
pub open spec fn channel_of(word: u32, channel: ColorChannel) -> u8 {
    match channel {
        ColorChannel::Red => ((word / 0x1_0000) % 0x100) as u8,
        ColorChannel::Green => ((word / 0x100) % 0x100) as u8,
        ColorChannel::Blue => (word % 0x100) as u8,
    }
}

/// The highest byte of `word`, which holds no channel.
pub open spec fn filler_of(word: u32) -> u8 {
    (word / 0x100_0000) as u8
}

/// The word that differs from `word` in the byte of `channel` only, which is `value`.
pub open spec fn replace_channel(word: u32, channel: ColorChannel, value: u8) -> u32 {
    let filler = filler_of(word);
    let red = channel_of(word, ColorChannel::Red);
    let green = channel_of(word, ColorChannel::Green);
    let blue = channel_of(word, ColorChannel::Blue);
    match channel {
        ColorChannel::Red => compose(filler, value, green, blue),
        ColorChannel::Green => compose(filler, red, value, blue),
        ColorChannel::Blue => compose(filler, red, green, value),
    }
}

/// The four bytes of `word` as they lie in memory under `order`.
pub open spec fn memory_image(word: u32, order: ByteOrder) -> Seq<u8> {
    let filler = filler_of(word);
    let red = channel_of(word, ColorChannel::Red);
    let green = channel_of(word, ColorChannel::Green);
    let blue = channel_of(word, ColorChannel::Blue);
    match order {
        ByteOrder::LittleEndian => seq![blue, green, red, filler],
        ByteOrder::BigEndian => seq![filler, red, green, blue],
    }
}

/// The word whose four bytes lie in memory as `image` under `order`.
pub open spec fn word_of_image(image: Seq<u8>, order: ByteOrder) -> u32 {
    match order {
        ByteOrder::LittleEndian => compose(image[3], image[2], image[1], image[0]),
        ByteOrder::BigEndian => compose(image[0], image[1], image[2], image[3]),
    }
}

impl ColorChannel {
    /// Where the byte of this channel lies among the four bytes of a packed
    /// word in memory.
    pub open spec fn spec_byte_offset(self, order: ByteOrder) -> int {
        match order {
            ByteOrder::LittleEndian => match self {
                ColorChannel::Red => 2,
                ColorChannel::Green => 1,
                ColorChannel::Blue => 0,
            },
            ByteOrder::BigEndian => match self {
                ColorChannel::Red => 1,
                ColorChannel::Green => 2,
                ColorChannel::Blue => 3,
            },
        }
    }

    /// The offset, from the address of a packed word, of the byte that holds
    /// this channel on a machine with the given byte order.
    ///
    /// Code that reaches into a word in memory takes the offset from here and
    /// nowhere else; [`lemma_offset_selects_channel`] and
    /// [`lemma_write_changes_one_byte`] show that it is the right one.
    pub fn byte_offset(self, order: ByteOrder) -> (offset: usize)
        ensures
            offset == self.spec_byte_offset(order),
            offset < 4,
    {
        match order {
            ByteOrder::LittleEndian => match self {
                ColorChannel::Red => 2,
                ColorChannel::Green => 1,
                ColorChannel::Blue => 0,
            },
            ByteOrder::BigEndian => match self {
                ColorChannel::Red => 1,
                ColorChannel::Green => 2,
                ColorChannel::Blue => 3,
            },
        }
    }
}

/// A word is the composition of its four bytes.
pub proof fn lemma_word_is_composed(word: u32)
    ensures
        word == compose(
            filler_of(word),
            channel_of(word, ColorChannel::Red),
            channel_of(word, ColorChannel::Green),
            channel_of(word, ColorChannel::Blue),
        ),
{
}

/// The four bytes of a composed word are those it was composed of.
pub proof fn lemma_compose_bytes(filler: u8, red: u8, green: u8, blue: u8)
    ensures
        filler_of(compose(filler, red, green, blue)) == filler,
        channel_of(compose(filler, red, green, blue), ColorChannel::Red) == red,
        channel_of(compose(filler, red, green, blue), ColorChannel::Green) == green,
        channel_of(compose(filler, red, green, blue), ColorChannel::Blue) == blue,
{
    let word = compose(filler, red, green, blue);
    assert(word == filler * 0x100_0000 + red * 0x1_0000 + green * 0x100 + blue);
    assert(word / 0x100_0000 == filler && (word / 0x1_0000) % 0x100 == red && (word / 0x100)
        % 0x100 == green && word % 0x100 == blue) by (bit_vector)
        requires
            word == filler * 0x100_0000 + red * 0x1_0000 + green * 0x100 + blue,
    ;
}

/// Replacing a channel sets that channel and leaves the two others and the
/// filler byte as they were.
pub proof fn lemma_replace_channel(word: u32, channel: ColorChannel, value: u8)
    ensures
        channel_of(replace_channel(word, channel, value), channel) == value,
        forall|other: ColorChannel|
            other != channel ==> channel_of(replace_channel(word, channel, value), other)
                == channel_of(word, other),
        filler_of(replace_channel(word, channel, value)) == filler_of(word),
{
    let filler = filler_of(word);
    let red = channel_of(word, ColorChannel::Red);
    let green = channel_of(word, ColorChannel::Green);
    let blue = channel_of(word, ColorChannel::Blue);
    lemma_compose_bytes(filler, value, green, blue);
    lemma_compose_bytes(filler, red, value, blue);
    lemma_compose_bytes(filler, red, green, value);
}

/// A word and its memory image determine each other.
pub proof fn lemma_image_round_trip(word: u32, image: Seq<u8>, order: ByteOrder)
    ensures
        memory_image(word, order).len() == 4,
        word_of_image(memory_image(word, order), order) == word,
        image.len() == 4 ==> memory_image(word_of_image(image, order), order) == image,
{
    lemma_word_is_composed(word);
    if image.len() == 4 {
        lemma_compose_bytes(image[3], image[2], image[1], image[0]);
        lemma_compose_bytes(image[0], image[1], image[2], image[3]);
        assert(memory_image(word_of_image(image, order), order) =~= image);
    }
}

/// On either byte order, the byte of the memory image at the channel's
/// offset is the channel.
pub proof fn lemma_offset_selects_channel(word: u32, channel: ColorChannel, order: ByteOrder)
    ensures
        memory_image(word, order).len() == 4,
        0 <= channel.spec_byte_offset(order) < 4,
        memory_image(word, order)[channel.spec_byte_offset(order)] == channel_of(word, channel),
{
}

/// On either byte order, replacing a channel changes the byte of the memory
/// image at the channel's offset and no other.
pub proof fn lemma_write_changes_one_byte(
    word: u32,
    channel: ColorChannel,
    value: u8,
    order: ByteOrder,
)
    ensures
        memory_image(replace_channel(word, channel, value), order) == memory_image(
            word,
            order,
        ).update(channel.spec_byte_offset(order), value),
{
    lemma_replace_channel(word, channel, value);
}

} // verus!
