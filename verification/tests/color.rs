use w4_palette::color::Color;
use w4_palette::layout::{ByteOrder, ColorChannel};

const CHANNELS: [ColorChannel; 3] = [ColorChannel::Red, ColorChannel::Green, ColorChannel::Blue];

const SAMPLES: [u8; 9] = [0, 1, 2, 15, 16, 127, 128, 254, 255];

const WORDS: [u32; 8] = [
    0,
    1,
    0x0001_0203,
    0x00ff_ffff,
    0xff00_0000,
    0x1234_5678,
    0x80c0_e0f0,
    0xffff_ffff,
];

#[test]
fn rgb_packs_red_high_and_blue_low() {
    assert_eq!(u32::from(Color::rgb(0x12, 0x34, 0x56)), 0x0012_3456);
    assert_eq!(u32::from(Color::rgb(255, 0, 0)), 0x00ff_0000);
    assert_eq!(u32::from(Color::rgb(0, 255, 0)), 0x0000_ff00);
    assert_eq!(u32::from(Color::rgb(0, 0, 255)), 0x0000_00ff);
    assert_eq!(u32::from(Color::rgb(10, 20, 30)), 0x000a_141e);
}

#[test]
fn rgb_channels_read_back() {
    for &red in SAMPLES.iter() {
        for &green in SAMPLES.iter() {
            for &blue in SAMPLES.iter() {
                let color = Color::rgb(red, green, blue);
                assert_eq!(color.get(ColorChannel::Red), red);
                assert_eq!(color.get(ColorChannel::Green), green);
                assert_eq!(color.get(ColorChannel::Blue), blue);
            }
        }
    }
}

#[test]
fn get_reads_the_channel_bits() {
    let color = Color::from(0xab12_34cd);
    assert_eq!(color.get(ColorChannel::Red), 0x12);
    assert_eq!(color.get(ColorChannel::Green), 0x34);
    assert_eq!(color.get(ColorChannel::Blue), 0xcd);
}

#[test]
fn set_changes_one_channel_only() {
    for &word in WORDS.iter() {
        for &written in CHANNELS.iter() {
            for &value in SAMPLES.iter() {
                let before = Color::from(word);
                let mut after = before;
                after.set(written, value);
                assert_eq!(after.get(written), value);
                for &other in CHANNELS.iter() {
                    if other != written {
                        assert_eq!(after.get(other), before.get(other));
                    }
                }
                assert_eq!(u32::from(after) >> 24, word >> 24);
            }
        }
    }
}

#[test]
fn set_gives_the_expected_word() {
    let mut color = Color::from(0xff01_0203);
    color.set(ColorChannel::Green, 9);
    assert_eq!(u32::from(color), 0xff01_0903);
    color.set(ColorChannel::Red, 0xaa);
    assert_eq!(u32::from(color), 0xffaa_0903);
    color.set(ColorChannel::Blue, 0);
    assert_eq!(u32::from(color), 0xffaa_0900);
}

#[test]
fn with_channel_replaces_one_channel() {
    let color = Color::from(0x7f10_2030);
    assert_eq!(u32::from(color.with_red(0xee)), 0x7fee_2030);
    assert_eq!(u32::from(color.with_green(0xee)), 0x7f10_ee30);
    assert_eq!(u32::from(color.with_blue(0xee)), 0x7f10_20ee);
    assert_eq!(u32::from(color), 0x7f10_2030);
}

#[test]
fn with_channel_agrees_with_set() {
    for &word in WORDS.iter() {
        for &value in SAMPLES.iter() {
            let color = Color::from(word);
            let mut red = color;
            red.set(ColorChannel::Red, value);
            assert!(color.with_red(value) == red);
            let mut green = color;
            green.set(ColorChannel::Green, value);
            assert!(color.with_green(value) == green);
            let mut blue = color;
            blue.set(ColorChannel::Blue, value);
            assert!(color.with_blue(value) == blue);
        }
    }
}

#[test]
fn word_round_trip_is_lossless() {
    for &word in WORDS.iter() {
        let color = Color::from(word);
        let back: u32 = color.into();
        assert_eq!(back, word);
        assert!(Color::from(back) == color);
    }
}

#[test]
fn grayscale_is_rgb_of_one_value() {
    for value in 0..=255u8 {
        assert!(Color::grayscale(value) == Color::rgb(value, value, value));
    }
    assert_eq!(u32::from(Color::grayscale(0x80)), 0x0080_8080);
}

#[test]
fn default_is_black() {
    let color = Color::default();
    assert!(color == Color::rgb(0, 0, 0));
    assert_eq!(u32::from(color), 0);
    for &channel in CHANNELS.iter() {
        assert_eq!(color.get(channel), 0);
    }
}

#[test]
fn equality_is_equality_of_words() {
    assert!(Color::from(5) == Color::from(5));
    assert!(Color::from(5) != Color::from(6));
    assert!(Color::from(0x0100_0000) != Color::from(0));
}

#[test]
fn byte_offsets_follow_the_table() {
    assert_eq!(ColorChannel::Red.byte_offset(ByteOrder::LittleEndian), 2);
    assert_eq!(ColorChannel::Green.byte_offset(ByteOrder::LittleEndian), 1);
    assert_eq!(ColorChannel::Blue.byte_offset(ByteOrder::LittleEndian), 0);
    assert_eq!(ColorChannel::Red.byte_offset(ByteOrder::BigEndian), 1);
    assert_eq!(ColorChannel::Green.byte_offset(ByteOrder::BigEndian), 2);
    assert_eq!(ColorChannel::Blue.byte_offset(ByteOrder::BigEndian), 3);
}

#[test]
fn byte_offsets_select_the_channel_in_memory() {
    for &word in WORDS.iter() {
        let color = Color::from(word);
        for &channel in CHANNELS.iter() {
            let little = word.to_le_bytes();
            assert_eq!(little[channel.byte_offset(ByteOrder::LittleEndian)], color.get(channel));
            let big = word.to_be_bytes();
            assert_eq!(big[channel.byte_offset(ByteOrder::BigEndian)], color.get(channel));
        }
    }
}

#[test]
fn writing_a_channel_changes_one_byte_in_memory() {
    for &word in WORDS.iter() {
        for &channel in CHANNELS.iter() {
            let mut color = Color::from(word);
            color.set(channel, 0x5a);
            let mut little = word.to_le_bytes();
            little[channel.byte_offset(ByteOrder::LittleEndian)] = 0x5a;
            assert_eq!(u32::from(color), u32::from_le_bytes(little));
            let mut big = word.to_be_bytes();
            big[channel.byte_offset(ByteOrder::BigEndian)] = 0x5a;
            assert_eq!(u32::from(color), u32::from_be_bytes(big));
        }
    }
}

#[test]
fn byte_offsets_match_this_machine() {
    let order = if u32::from_ne_bytes([1, 0, 0, 0]) == 1 {
        ByteOrder::LittleEndian
    } else {
        ByteOrder::BigEndian
    };
    let word: u32 = 0x00a1_b2c3;
    let native = word.to_ne_bytes();
    assert_eq!(native[ColorChannel::Red.byte_offset(order)], 0xa1);
    assert_eq!(native[ColorChannel::Green.byte_offset(order)], 0xb2);
    assert_eq!(native[ColorChannel::Blue.byte_offset(order)], 0xc3);
}

#[test]
fn debug_string_shows_channels_in_decimal() {
    assert_eq!(Color::rgb(255, 128, 0).debug_string(), "Color { R: 255, G: 128, B: 0 }");
    assert_eq!(Color::rgb(0, 0, 0).debug_string(), "Color { R: 0, G: 0, B: 0 }");
    assert_eq!(Color::rgb(9, 10, 99).debug_string(), "Color { R: 9, G: 10, B: 99 }");
    assert_eq!(Color::rgb(100, 101, 200).debug_string(), "Color { R: 100, G: 101, B: 200 }");
    assert_eq!(Color::from(0xff01_0203).debug_string(), "Color { R: 1, G: 2, B: 3 }");
}

#[test]
fn debug_string_writes_every_byte_value() {
    for value in 0..=255u8 {
        let expected = format!("Color {{ R: {}, G: {}, B: {} }}", value, 255 - value, value / 2);
        assert_eq!(Color::rgb(value, 255 - value, value / 2).debug_string(), expected);
    }
}

#[test]
fn push_debug_appends_to_the_text() {
    let mut text = String::from("border = ");
    Color::rgb(1, 20, 255).push_debug(&mut text);
    assert_eq!(text, "border = Color { R: 1, G: 20, B: 255 }");
}

#[test]
fn push_decimal_writes_without_leading_zeros() {
    let mut text = String::new();
    for &value in [0u8, 7, 9, 10, 42, 99, 100, 101, 110, 200, 255].iter() {
        w4_palette::text::push_decimal(&mut text, value);
        text.push(' ');
    }
    assert_eq!(text, "0 7 9 10 42 99 100 101 110 200 255 ");
}

#[test]
fn to_bytes_lists_the_bytes_in_memory_order() {
    let color = Color::from(0xaa01_0203);
    assert_eq!(color.to_bytes(ByteOrder::LittleEndian), [3, 2, 1, 0xaa]);
    assert_eq!(color.to_bytes(ByteOrder::BigEndian), [0xaa, 1, 2, 3]);
}

#[test]
fn to_bytes_is_the_memory_image() {
    for &word in WORDS.iter() {
        let color = Color::from(word);
        assert_eq!(color.to_bytes(ByteOrder::LittleEndian), word.to_le_bytes());
        assert_eq!(color.to_bytes(ByteOrder::BigEndian), word.to_be_bytes());
    }
}

#[test]
fn from_bytes_reads_the_memory_image() {
    assert_eq!(u32::from(Color::from_bytes([3, 2, 1, 0xaa], ByteOrder::LittleEndian)), 0xaa01_0203);
    assert_eq!(u32::from(Color::from_bytes([0xaa, 1, 2, 3], ByteOrder::BigEndian)), 0xaa01_0203);
    for &word in WORDS.iter() {
        let little = Color::from_bytes(word.to_le_bytes(), ByteOrder::LittleEndian);
        assert_eq!(u32::from(little), word);
        let big = Color::from_bytes(word.to_be_bytes(), ByteOrder::BigEndian);
        assert_eq!(u32::from(big), word);
    }
}

#[test]
fn bytes_round_trip() {
    for &order in [ByteOrder::LittleEndian, ByteOrder::BigEndian].iter() {
        for &word in WORDS.iter() {
            let color = Color::from(word);
            assert!(Color::from_bytes(color.to_bytes(order), order) == color);
        }
        let bytes = [0x10, 0x20, 0x30, 0x40];
        assert_eq!(Color::from_bytes(bytes, order).to_bytes(order), bytes);
    }
}

#[test]
fn channel_lies_at_its_offset_in_the_image() {
    for &order in [ByteOrder::LittleEndian, ByteOrder::BigEndian].iter() {
        for &word in WORDS.iter() {
            let color = Color::from(word);
            for &channel in CHANNELS.iter() {
                assert_eq!(color.to_bytes(order)[channel.byte_offset(order)], color.get(channel));
                let mut bytes = color.to_bytes(order);
                bytes[channel.byte_offset(order)] = 0xc3;
                let mut written = color;
                written.set(channel, 0xc3);
                assert!(Color::from_bytes(bytes, order) == written);
            }
        }
    }
}
