//! The named colors.
//!
//! A name stands for the packed word of its color; `Color::from` makes the
//! color of it.

use crate::color::{lemma_rgb_from_word, Color};
use vstd::prelude::*;
use vstd::std_specs::convert::FromSpec;

verus! {

impl Color {
    pub const BLACK: u32 = 0x000000;
    pub const SILVER: u32 = 0xc0c0c0;
    pub const GRAY: u32 = 0x808080;
    pub const WHITE: u32 = 0xffffff;
    pub const MAROON: u32 = 0x800000;
    pub const RED: u32 = 0xff0000;
    pub const PURPLE: u32 = 0x800080;
    pub const FUCHSIA: u32 = 0xff00ff;
    pub const GREEN: u32 = 0x008000;
    pub const LIME: u32 = 0x00ff00;
    pub const OLIVE: u32 = 0x808000;
    pub const YELLOW: u32 = 0xffff00;
    pub const NAVY: u32 = 0x000080;
    pub const BLUE: u32 = 0x0000ff;
    pub const TEAL: u32 = 0x008080;
    pub const AQUA: u32 = 0x00ffff;
    pub const ALICE_BLUE: u32 = 0xf0f8ff;
    pub const ANTIQUE_WHITE: u32 = 0xfaebd7;
    pub const AQUAMARINE: u32 = 0x7fffd4;
    pub const AZURE: u32 = 0xf0ffff;
    pub const BEIGE: u32 = 0xf5f5dc;
    pub const BISQUE: u32 = 0xffe4c4;
    pub const BLANCHED_ALMOND: u32 = 0xffebcd;
    pub const BLUE_VIOLET: u32 = 0x802be2;
    pub const BROWN: u32 = 0xa52a2a;
    pub const BURLYWOOD: u32 = 0xdeb887;
    pub const CADET_BLUE: u32 = 0x5f9ea0;
    pub const CHARTREUSE: u32 = 0x7fff00;
    pub const CHOCOLATE: u32 = 0xd2691e;
    pub const CORAL: u32 = 0xff7f50;
    pub const CORNFLOWER_BLUE: u32 = 0x6495ed;
    pub const CORNSILK: u32 = 0xfff8dc;
    pub const CRIMSON: u32 = 0xdc143c;
    pub const DARK_CYAN: u32 = 0x008b8b;
    pub const DARK_GOLDENROD: u32 = 0xb8860b;
    pub const DARK_GRAY: u32 = 0xa9a9a9;
    pub const DARK_GREEN: u32 = 0x006400;
    pub const DARK_KHAKI: u32 = 0xbdb76b;
    pub const DARK_MAGENTA: u32 = 0x8b008b;
    pub const DARK_OLIVE_GREEN: u32 = 0x556b2f;
    pub const DARK_ORANGE: u32 = 0xff8c00;
    pub const DARK_ORCHID: u32 = 0x9932cc;
    pub const DARK_RED: u32 = 0x8b0000;
    pub const DARK_SALMON: u32 = 0xe9967a;
    pub const DARK_SEA_GREEN: u32 = 0x8fbc8f;
    pub const DARK_SLATE_BLUE: u32 = 0x483d8b;
    pub const DARK_SLATE_GRAY: u32 = 0x2f4f4f;
    pub const DARK_TURQUOISE: u32 = 0x00ced1;
    pub const DARK_VIOLET: u32 = 0x9400d3;
    pub const DEEP_PINK: u32 = 0xff1493;
    pub const DEEP_SKY_BLUE: u32 = 0x00bfff;
    pub const DIM_GRAY: u32 = 0x696969;
    pub const DODGER_BLUE: u32 = 0x1e90ff;
    pub const FIREBRICK: u32 = 0xb22222;
    pub const FLORAL_WHITE: u32 = 0xfffaf0;
    pub const FOREST_GREEN: u32 = 0x228b22;
    pub const GAINSBORO: u32 = 0xdcdcdc;
    pub const GHOST_WHITE: u32 = 0xf8f8ff;
    pub const GOLD: u32 = 0xffd700;
    pub const GOLDENROD: u32 = 0xdaa520;
    pub const GREEN_YELLOW: u32 = 0xadff2f;
    pub const HONEYDEW: u32 = 0xf0fff0;
    pub const HOT_PINK: u32 = 0xff69b4;
    pub const INDIAN_RED: u32 = 0xcd5c5c;
    pub const INDIGO: u32 = 0x4b0082;
    pub const IVORY: u32 = 0xfffff0;
    pub const KHAKI: u32 = 0xf0e68c;
    pub const LAVENDER: u32 = 0xe6e6fa;
    pub const LAVENDER_BUSH: u32 = 0xfff0f5;
    pub const LAWN_GREEN: u32 = 0x7cfc00;
    pub const LEMON_CHIFFON: u32 = 0xfffacd;
    pub const LIGHT_BLUE: u32 = 0xadd8e6;
    pub const LIGHT_CORAL: u32 = 0xf08080;
    pub const LIGHT_CYAN: u32 = 0xe0ffff;
    pub const LIGHT_GOLDENROD_YELLOW: u32 = 0xfafad2;
    pub const LIGHT_GRAY: u32 = 0xd3d3d3;
    pub const LIGHT_GREEN: u32 = 0x90ee90;
    pub const LIGHT_PINK: u32 = 0xffb6c1;
    pub const LIGHT_SALMON: u32 = 0xffa07a;
    pub const LIGHT_SEA_GREEN: u32 = 0x20b2aa;
    pub const LIGHT_SKY_BLUE: u32 = 0x87cefa;
    pub const LIGHT_SLATE_GRAY: u32 = 0x778899;
    pub const LIGHT_STEEL_BLUE: u32 = 0xb0c4de;
    pub const LIGHT_YELLOW: u32 = 0xffffe0;
    pub const LIME_GREEN: u32 = 0x32cd32;
    pub const LINEN: u32 = 0xfaf0e6;
    pub const MEDIUM_AQUAMARINE: u32 = 0x66cdaa;
    pub const MEDIUM_BLUE: u32 = 0x0000cd;
    pub const MEDIUM_ORCHID: u32 = 0xba55d3;
    pub const MEDIUM_PURPLE: u32 = 0x9370db;
    pub const MEDIUM_SEA_GREEN: u32 = 0x3cb371;
    pub const MEDIUM_SLATE_BLUE: u32 = 0x7b68ee;
    pub const MEDIUM_SPRING_GREEN: u32 = 0x00fa9a;
    pub const MEDIUM_TURQUOISE: u32 = 0x48d1cc;
    pub const MEDIUM_VIOLET_RED: u32 = 0xc71585;
    pub const MEDIUM_NIGHT_BLUE: u32 = 0x191970;
    pub const MINT_CREAM: u32 = 0xf5fffa;
    pub const MISTY_ROSE: u32 = 0xffe4e1;
    pub const MOCCASIN: u32 = 0xffe4b5;
    pub const NAVAJO_WHITE: u32 = 0xffdead;
    pub const OLD_LACE: u32 = 0xfdf5e6;
    pub const OLIVE_DRAB: u32 = 0x6b8e23;
    pub const ORANGE: u32 = 0xffa500;
    pub const ORANGE_RED: u32 = 0xff4500;
    pub const ORCHID: u32 = 0xda70d6;
    pub const PALE_GOLDENROD: u32 = 0xeee8aa;
    pub const PALE_GREEN: u32 = 0x98fb98;
    pub const PALE_TURQUOISE: u32 = 0xafeeee;
    pub const PALE_VIOLET_RED: u32 = 0xdb7093;
    pub const PAPAYA_WHIP: u32 = 0xffefd5;
    pub const PEACH_PUFF: u32 = 0xffdab9;
    pub const PERU: u32 = 0xcd853f;
    pub const PINK: u32 = 0xffc0cb;
    pub const PLUM: u32 = 0xdda0dd;
    pub const POWDER_BLUE: u32 = 0xb0e0e6;
    pub const ROSY_BROWN: u32 = 0xbc8f8f;
    pub const ROYAL_BLUE: u32 = 0x4169e1;
    pub const SADDLE_BROWN: u32 = 0x8b4513;
    pub const SALMON: u32 = 0xfa8072;
    pub const SANDY_BROWN: u32 = 0xf4a460;
    pub const SEA_GREEN: u32 = 0x2e8b57;
    pub const SEASHELL: u32 = 0xfff5ee;
    pub const SIENNA: u32 = 0xa0522d;
    pub const SKY_BLUE: u32 = 0x87ceeb;
    pub const SLATE_BLUE: u32 = 0x6a5acd;
    pub const SLATE_GRAY: u32 = 0x708090;
    pub const SNOW: u32 = 0xfffafa;
    pub const SPRING_GREEN: u32 = 0x00ff7f;
    pub const STEEL_BLUE: u32 = 0x4682b4;
    pub const TAN: u32 = 0xd2b48c;
    pub const THISTLE: u32 = 0xd8bfd8;
    pub const TOMATO: u32 = 0xff6347;
    pub const VIOLET: u32 = 0xee82ee;
    pub const WHEAT: u32 = 0xf5deb3;
    pub const WHITE_SMOKE: u32 = 0xf5f5f5;
    pub const YELLOW_GREEN: u32 = 0x9acd32;
}

/// Every name stands for the color that `rgb` makes of the channels listed
/// here with it.
pub proof fn lemma_named_colors()
    ensures
        Color::from_spec(Color::BLACK) == Color::rgb(0, 0, 0),
        Color::from_spec(Color::SILVER) == Color::rgb(192, 192, 192),
        Color::from_spec(Color::GRAY) == Color::rgb(128, 128, 128),
        Color::from_spec(Color::WHITE) == Color::rgb(255, 255, 255),
        Color::from_spec(Color::MAROON) == Color::rgb(128, 0, 0),
        Color::from_spec(Color::RED) == Color::rgb(255, 0, 0),
        Color::from_spec(Color::PURPLE) == Color::rgb(128, 0, 128),
        Color::from_spec(Color::FUCHSIA) == Color::rgb(255, 0, 255),
        Color::from_spec(Color::GREEN) == Color::rgb(0, 128, 0),
        Color::from_spec(Color::LIME) == Color::rgb(0, 255, 0),
        Color::from_spec(Color::OLIVE) == Color::rgb(128, 128, 0),
        Color::from_spec(Color::YELLOW) == Color::rgb(255, 255, 0),
        Color::from_spec(Color::NAVY) == Color::rgb(0, 0, 128),
        Color::from_spec(Color::BLUE) == Color::rgb(0, 0, 255),
        Color::from_spec(Color::TEAL) == Color::rgb(0, 128, 128),
        Color::from_spec(Color::AQUA) == Color::rgb(0, 255, 255),
        Color::from_spec(Color::ALICE_BLUE) == Color::rgb(240, 248, 255),
        Color::from_spec(Color::ANTIQUE_WHITE) == Color::rgb(250, 235, 215),
        Color::from_spec(Color::AQUAMARINE) == Color::rgb(127, 255, 212),
        Color::from_spec(Color::AZURE) == Color::rgb(240, 255, 255),
        Color::from_spec(Color::BEIGE) == Color::rgb(245, 245, 220),
        Color::from_spec(Color::BISQUE) == Color::rgb(255, 228, 196),
        Color::from_spec(Color::BLANCHED_ALMOND) == Color::rgb(255, 235, 205),
        Color::from_spec(Color::BLUE_VIOLET) == Color::rgb(128, 43, 226),
        Color::from_spec(Color::BROWN) == Color::rgb(165, 42, 42),
        Color::from_spec(Color::BURLYWOOD) == Color::rgb(222, 184, 135),
        Color::from_spec(Color::CADET_BLUE) == Color::rgb(95, 158, 160),
        Color::from_spec(Color::CHARTREUSE) == Color::rgb(127, 255, 0),
        Color::from_spec(Color::CHOCOLATE) == Color::rgb(210, 105, 30),
        Color::from_spec(Color::CORAL) == Color::rgb(255, 127, 80),
        Color::from_spec(Color::CORNFLOWER_BLUE) == Color::rgb(100, 149, 237),
        Color::from_spec(Color::CORNSILK) == Color::rgb(255, 248, 220),
        Color::from_spec(Color::CRIMSON) == Color::rgb(220, 20, 60),
        Color::from_spec(Color::DARK_CYAN) == Color::rgb(0, 139, 139),
        Color::from_spec(Color::DARK_GOLDENROD) == Color::rgb(184, 134, 11),
        Color::from_spec(Color::DARK_GRAY) == Color::rgb(169, 169, 169),
        Color::from_spec(Color::DARK_GREEN) == Color::rgb(0, 100, 0),
        Color::from_spec(Color::DARK_KHAKI) == Color::rgb(189, 183, 107),
        Color::from_spec(Color::DARK_MAGENTA) == Color::rgb(139, 0, 139),
        Color::from_spec(Color::DARK_OLIVE_GREEN) == Color::rgb(85, 107, 47),
        Color::from_spec(Color::DARK_ORANGE) == Color::rgb(255, 140, 0),
        Color::from_spec(Color::DARK_ORCHID) == Color::rgb(153, 50, 204),
        Color::from_spec(Color::DARK_RED) == Color::rgb(139, 0, 0),
        Color::from_spec(Color::DARK_SALMON) == Color::rgb(233, 150, 122),
        Color::from_spec(Color::DARK_SEA_GREEN) == Color::rgb(143, 188, 143),
        Color::from_spec(Color::DARK_SLATE_BLUE) == Color::rgb(72, 61, 139),
        Color::from_spec(Color::DARK_SLATE_GRAY) == Color::rgb(47, 79, 79),
        Color::from_spec(Color::DARK_TURQUOISE) == Color::rgb(0, 206, 209),
        Color::from_spec(Color::DARK_VIOLET) == Color::rgb(148, 0, 211),
        Color::from_spec(Color::DEEP_PINK) == Color::rgb(255, 20, 147),
        Color::from_spec(Color::DEEP_SKY_BLUE) == Color::rgb(0, 191, 255),
        Color::from_spec(Color::DIM_GRAY) == Color::rgb(105, 105, 105),
        Color::from_spec(Color::DODGER_BLUE) == Color::rgb(30, 144, 255),
        Color::from_spec(Color::FIREBRICK) == Color::rgb(178, 34, 34),
        Color::from_spec(Color::FLORAL_WHITE) == Color::rgb(255, 250, 240),
        Color::from_spec(Color::FOREST_GREEN) == Color::rgb(34, 139, 34),
        Color::from_spec(Color::GAINSBORO) == Color::rgb(220, 220, 220),
        Color::from_spec(Color::GHOST_WHITE) == Color::rgb(248, 248, 255),
        Color::from_spec(Color::GOLD) == Color::rgb(255, 215, 0),
        Color::from_spec(Color::GOLDENROD) == Color::rgb(218, 165, 32),
        Color::from_spec(Color::GREEN_YELLOW) == Color::rgb(173, 255, 47),
        Color::from_spec(Color::HONEYDEW) == Color::rgb(240, 255, 240),
        Color::from_spec(Color::HOT_PINK) == Color::rgb(255, 105, 180),
        Color::from_spec(Color::INDIAN_RED) == Color::rgb(205, 92, 92),
        Color::from_spec(Color::INDIGO) == Color::rgb(75, 0, 130),
        Color::from_spec(Color::IVORY) == Color::rgb(255, 255, 240),
        Color::from_spec(Color::KHAKI) == Color::rgb(240, 230, 140),
        Color::from_spec(Color::LAVENDER) == Color::rgb(230, 230, 250),
        Color::from_spec(Color::LAVENDER_BUSH) == Color::rgb(255, 240, 245),
        Color::from_spec(Color::LAWN_GREEN) == Color::rgb(124, 252, 0),
        Color::from_spec(Color::LEMON_CHIFFON) == Color::rgb(255, 250, 205),
        Color::from_spec(Color::LIGHT_BLUE) == Color::rgb(173, 216, 230),
        Color::from_spec(Color::LIGHT_CORAL) == Color::rgb(240, 128, 128),
        Color::from_spec(Color::LIGHT_CYAN) == Color::rgb(224, 255, 255),
        Color::from_spec(Color::LIGHT_GOLDENROD_YELLOW) == Color::rgb(250, 250, 210),
        Color::from_spec(Color::LIGHT_GRAY) == Color::rgb(211, 211, 211),
        Color::from_spec(Color::LIGHT_GREEN) == Color::rgb(144, 238, 144),
        Color::from_spec(Color::LIGHT_PINK) == Color::rgb(255, 182, 193),
        Color::from_spec(Color::LIGHT_SALMON) == Color::rgb(255, 160, 122),
        Color::from_spec(Color::LIGHT_SEA_GREEN) == Color::rgb(32, 178, 170),
        Color::from_spec(Color::LIGHT_SKY_BLUE) == Color::rgb(135, 206, 250),
        Color::from_spec(Color::LIGHT_SLATE_GRAY) == Color::rgb(119, 136, 153),
        Color::from_spec(Color::LIGHT_STEEL_BLUE) == Color::rgb(176, 196, 222),
        Color::from_spec(Color::LIGHT_YELLOW) == Color::rgb(255, 255, 224),
        Color::from_spec(Color::LIME_GREEN) == Color::rgb(50, 205, 50),
        Color::from_spec(Color::LINEN) == Color::rgb(250, 240, 230),
        Color::from_spec(Color::MEDIUM_AQUAMARINE) == Color::rgb(102, 205, 170),
        Color::from_spec(Color::MEDIUM_BLUE) == Color::rgb(0, 0, 205),
        Color::from_spec(Color::MEDIUM_ORCHID) == Color::rgb(186, 85, 211),
        Color::from_spec(Color::MEDIUM_PURPLE) == Color::rgb(147, 112, 219),
        Color::from_spec(Color::MEDIUM_SEA_GREEN) == Color::rgb(60, 179, 113),
        Color::from_spec(Color::MEDIUM_SLATE_BLUE) == Color::rgb(123, 104, 238),
        Color::from_spec(Color::MEDIUM_SPRING_GREEN) == Color::rgb(0, 250, 154),
        Color::from_spec(Color::MEDIUM_TURQUOISE) == Color::rgb(72, 209, 204),
        Color::from_spec(Color::MEDIUM_VIOLET_RED) == Color::rgb(199, 21, 133),
        Color::from_spec(Color::MEDIUM_NIGHT_BLUE) == Color::rgb(25, 25, 112),
        Color::from_spec(Color::MINT_CREAM) == Color::rgb(245, 255, 250),
        Color::from_spec(Color::MISTY_ROSE) == Color::rgb(255, 228, 225),
        Color::from_spec(Color::MOCCASIN) == Color::rgb(255, 228, 181),
        Color::from_spec(Color::NAVAJO_WHITE) == Color::rgb(255, 222, 173),
        Color::from_spec(Color::OLD_LACE) == Color::rgb(253, 245, 230),
        Color::from_spec(Color::OLIVE_DRAB) == Color::rgb(107, 142, 35),
        Color::from_spec(Color::ORANGE) == Color::rgb(255, 165, 0),
        Color::from_spec(Color::ORANGE_RED) == Color::rgb(255, 69, 0),
        Color::from_spec(Color::ORCHID) == Color::rgb(218, 112, 214),
        Color::from_spec(Color::PALE_GOLDENROD) == Color::rgb(238, 232, 170),
        Color::from_spec(Color::PALE_GREEN) == Color::rgb(152, 251, 152),
        Color::from_spec(Color::PALE_TURQUOISE) == Color::rgb(175, 238, 238),
        Color::from_spec(Color::PALE_VIOLET_RED) == Color::rgb(219, 112, 147),
        Color::from_spec(Color::PAPAYA_WHIP) == Color::rgb(255, 239, 213),
        Color::from_spec(Color::PEACH_PUFF) == Color::rgb(255, 218, 185),
        Color::from_spec(Color::PERU) == Color::rgb(205, 133, 63),
        Color::from_spec(Color::PINK) == Color::rgb(255, 192, 203),
        Color::from_spec(Color::PLUM) == Color::rgb(221, 160, 221),
        Color::from_spec(Color::POWDER_BLUE) == Color::rgb(176, 224, 230),
        Color::from_spec(Color::ROSY_BROWN) == Color::rgb(188, 143, 143),
        Color::from_spec(Color::ROYAL_BLUE) == Color::rgb(65, 105, 225),
        Color::from_spec(Color::SADDLE_BROWN) == Color::rgb(139, 69, 19),
        Color::from_spec(Color::SALMON) == Color::rgb(250, 128, 114),
        Color::from_spec(Color::SANDY_BROWN) == Color::rgb(244, 164, 96),
        Color::from_spec(Color::SEA_GREEN) == Color::rgb(46, 139, 87),
        Color::from_spec(Color::SEASHELL) == Color::rgb(255, 245, 238),
        Color::from_spec(Color::SIENNA) == Color::rgb(160, 82, 45),
        Color::from_spec(Color::SKY_BLUE) == Color::rgb(135, 206, 235),
        Color::from_spec(Color::SLATE_BLUE) == Color::rgb(106, 90, 205),
        Color::from_spec(Color::SLATE_GRAY) == Color::rgb(112, 128, 144),
        Color::from_spec(Color::SNOW) == Color::rgb(255, 250, 250),
        Color::from_spec(Color::SPRING_GREEN) == Color::rgb(0, 255, 127),
        Color::from_spec(Color::STEEL_BLUE) == Color::rgb(70, 130, 180),
        Color::from_spec(Color::TAN) == Color::rgb(210, 180, 140),
        Color::from_spec(Color::THISTLE) == Color::rgb(216, 191, 216),
        Color::from_spec(Color::TOMATO) == Color::rgb(255, 99, 71),
        Color::from_spec(Color::VIOLET) == Color::rgb(238, 130, 238),
        Color::from_spec(Color::WHEAT) == Color::rgb(245, 222, 179),
        Color::from_spec(Color::WHITE_SMOKE) == Color::rgb(245, 245, 245),
        Color::from_spec(Color::YELLOW_GREEN) == Color::rgb(154, 205, 50),
{
    lemma_rgb_from_word(0, 0, 0);
    lemma_rgb_from_word(192, 192, 192);
    lemma_rgb_from_word(128, 128, 128);
    lemma_rgb_from_word(255, 255, 255);
    lemma_rgb_from_word(128, 0, 0);
    lemma_rgb_from_word(255, 0, 0);
    lemma_rgb_from_word(128, 0, 128);
    lemma_rgb_from_word(255, 0, 255);
    lemma_rgb_from_word(0, 128, 0);
    lemma_rgb_from_word(0, 255, 0);
    lemma_rgb_from_word(128, 128, 0);
    lemma_rgb_from_word(255, 255, 0);
    lemma_rgb_from_word(0, 0, 128);
    lemma_rgb_from_word(0, 0, 255);
    lemma_rgb_from_word(0, 128, 128);
    lemma_rgb_from_word(0, 255, 255);
    lemma_rgb_from_word(240, 248, 255);
    lemma_rgb_from_word(250, 235, 215);
    lemma_rgb_from_word(127, 255, 212);
    lemma_rgb_from_word(240, 255, 255);
    lemma_rgb_from_word(245, 245, 220);
    lemma_rgb_from_word(255, 228, 196);
    lemma_rgb_from_word(255, 235, 205);
    lemma_rgb_from_word(128, 43, 226);
    lemma_rgb_from_word(165, 42, 42);
    lemma_rgb_from_word(222, 184, 135);
    lemma_rgb_from_word(95, 158, 160);
    lemma_rgb_from_word(127, 255, 0);
    lemma_rgb_from_word(210, 105, 30);
    lemma_rgb_from_word(255, 127, 80);
    lemma_rgb_from_word(100, 149, 237);
    lemma_rgb_from_word(255, 248, 220);
    lemma_rgb_from_word(220, 20, 60);
    lemma_rgb_from_word(0, 139, 139);
    lemma_rgb_from_word(184, 134, 11);
    lemma_rgb_from_word(169, 169, 169);
    lemma_rgb_from_word(0, 100, 0);
    lemma_rgb_from_word(189, 183, 107);
    lemma_rgb_from_word(139, 0, 139);
    lemma_rgb_from_word(85, 107, 47);
    lemma_rgb_from_word(255, 140, 0);
    lemma_rgb_from_word(153, 50, 204);
    lemma_rgb_from_word(139, 0, 0);
    lemma_rgb_from_word(233, 150, 122);
    lemma_rgb_from_word(143, 188, 143);
    lemma_rgb_from_word(72, 61, 139);
    lemma_rgb_from_word(47, 79, 79);
    lemma_rgb_from_word(0, 206, 209);
    lemma_rgb_from_word(148, 0, 211);
    lemma_rgb_from_word(255, 20, 147);
    lemma_rgb_from_word(0, 191, 255);
    lemma_rgb_from_word(105, 105, 105);
    lemma_rgb_from_word(30, 144, 255);
    lemma_rgb_from_word(178, 34, 34);
    lemma_rgb_from_word(255, 250, 240);
    lemma_rgb_from_word(34, 139, 34);
    lemma_rgb_from_word(220, 220, 220);
    lemma_rgb_from_word(248, 248, 255);
    lemma_rgb_from_word(255, 215, 0);
    lemma_rgb_from_word(218, 165, 32);
    lemma_rgb_from_word(173, 255, 47);
    lemma_rgb_from_word(240, 255, 240);
    lemma_rgb_from_word(255, 105, 180);
    lemma_rgb_from_word(205, 92, 92);
    lemma_rgb_from_word(75, 0, 130);
    lemma_rgb_from_word(255, 255, 240);
    lemma_rgb_from_word(240, 230, 140);
    lemma_rgb_from_word(230, 230, 250);
    lemma_rgb_from_word(255, 240, 245);
    lemma_rgb_from_word(124, 252, 0);
    lemma_rgb_from_word(255, 250, 205);
    lemma_rgb_from_word(173, 216, 230);
    lemma_rgb_from_word(240, 128, 128);
    lemma_rgb_from_word(224, 255, 255);
    lemma_rgb_from_word(250, 250, 210);
    lemma_rgb_from_word(211, 211, 211);
    lemma_rgb_from_word(144, 238, 144);
    lemma_rgb_from_word(255, 182, 193);
    lemma_rgb_from_word(255, 160, 122);
    lemma_rgb_from_word(32, 178, 170);
    lemma_rgb_from_word(135, 206, 250);
    lemma_rgb_from_word(119, 136, 153);
    lemma_rgb_from_word(176, 196, 222);
    lemma_rgb_from_word(255, 255, 224);
    lemma_rgb_from_word(50, 205, 50);
    lemma_rgb_from_word(250, 240, 230);
    lemma_rgb_from_word(102, 205, 170);
    lemma_rgb_from_word(0, 0, 205);
    lemma_rgb_from_word(186, 85, 211);
    lemma_rgb_from_word(147, 112, 219);
    lemma_rgb_from_word(60, 179, 113);
    lemma_rgb_from_word(123, 104, 238);
    lemma_rgb_from_word(0, 250, 154);
    lemma_rgb_from_word(72, 209, 204);
    lemma_rgb_from_word(199, 21, 133);
    lemma_rgb_from_word(25, 25, 112);
    lemma_rgb_from_word(245, 255, 250);
    lemma_rgb_from_word(255, 228, 225);
    lemma_rgb_from_word(255, 228, 181);
    lemma_rgb_from_word(255, 222, 173);
    lemma_rgb_from_word(253, 245, 230);
    lemma_rgb_from_word(107, 142, 35);
    lemma_rgb_from_word(255, 165, 0);
    lemma_rgb_from_word(255, 69, 0);
    lemma_rgb_from_word(218, 112, 214);
    lemma_rgb_from_word(238, 232, 170);
    lemma_rgb_from_word(152, 251, 152);
    lemma_rgb_from_word(175, 238, 238);
    lemma_rgb_from_word(219, 112, 147);
    lemma_rgb_from_word(255, 239, 213);
    lemma_rgb_from_word(255, 218, 185);
    lemma_rgb_from_word(205, 133, 63);
    lemma_rgb_from_word(255, 192, 203);
    lemma_rgb_from_word(221, 160, 221);
    lemma_rgb_from_word(176, 224, 230);
    lemma_rgb_from_word(188, 143, 143);
    lemma_rgb_from_word(65, 105, 225);
    lemma_rgb_from_word(139, 69, 19);
    lemma_rgb_from_word(250, 128, 114);
    lemma_rgb_from_word(244, 164, 96);
    lemma_rgb_from_word(46, 139, 87);
    lemma_rgb_from_word(255, 245, 238);
    lemma_rgb_from_word(160, 82, 45);
    lemma_rgb_from_word(135, 206, 235);
    lemma_rgb_from_word(106, 90, 205);
    lemma_rgb_from_word(112, 128, 144);
    lemma_rgb_from_word(255, 250, 250);
    lemma_rgb_from_word(0, 255, 127);
    lemma_rgb_from_word(70, 130, 180);
    lemma_rgb_from_word(210, 180, 140);
    lemma_rgb_from_word(216, 191, 216);
    lemma_rgb_from_word(255, 99, 71);
    lemma_rgb_from_word(238, 130, 238);
    lemma_rgb_from_word(245, 222, 179);
    lemma_rgb_from_word(245, 245, 245);
    lemma_rgb_from_word(154, 205, 50);
}

} // verus!
