use w4_palette::color::Color;

#[test]
fn named_colors_are_their_rgb_values() {
    assert!(Color::from(Color::RED) == Color::rgb(255, 0, 0));
    assert!(Color::from(Color::LIME) == Color::rgb(0, 255, 0));
    assert!(Color::from(Color::BLUE) == Color::rgb(0, 0, 255));
    assert!(Color::from(Color::WHITE) == Color::rgb(255, 255, 255));
    assert!(Color::from(Color::CRIMSON) == Color::rgb(220, 20, 60));
    assert!(Color::from(Color::CORNFLOWER_BLUE) == Color::rgb(100, 149, 237));
    assert!(Color::from(Color::YELLOW_GREEN) == Color::rgb(154, 205, 50));
    assert!(Color::from(Color::MEDIUM_NIGHT_BLUE) == Color::rgb(25, 25, 112));
}

#[test]
fn black_is_the_default_color() {
    assert!(Color::from(Color::BLACK) == Color::default());
    assert!(Color::from(Color::BLACK) == Color::rgb(0, 0, 0));
}

#[test]
fn grays_are_grayscale_values() {
    assert!(Color::from(Color::GRAY) == Color::grayscale(128));
    assert!(Color::from(Color::SILVER) == Color::grayscale(192));
    assert!(Color::from(Color::DIM_GRAY) == Color::grayscale(105));
}

#[test]
fn named_colors_have_no_filler() {
    let names = [
        Color::BLACK,
        Color::WHITE,
        Color::ALICE_BLUE,
        Color::TOMATO,
        Color::WHEAT,
        Color::YELLOW_GREEN,
    ];
    for &word in names.iter() {
        assert_eq!(word >> 24, 0);
    }
}
