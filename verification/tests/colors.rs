use shape_gallery::color::{Color, Pastel, PASTEL_BLEND};
use shape_gallery::fixed::Fixed;

fn fx(raw: i64) -> Fixed {
    Fixed { raw }
}

fn rgba(red: i64, green: i64, blue: i64, alpha: i64) -> Color {
    Color { red: fx(red), green: fx(green), blue: fx(blue), alpha: fx(alpha) }
}

#[test]
fn named_colours_have_their_channels() {
    assert_eq!(Color::white(), rgba(1_000_000, 1_000_000, 1_000_000, 1_000_000));
    assert_eq!(Color::yellow(), rgba(1_000_000, 1_000_000, 0, 1_000_000));
    assert_eq!(Color::midnight_blue(), rgba(100_000, 100_000, 440_000, 1_000_000));
    assert_eq!(Color::sea_green(), rgba(180_000, 550_000, 340_000, 1_000_000));
    assert_eq!(Color::orange(), rgba(1_000_000, 650_000, 0, 1_000_000));
    assert_eq!(Color::crimson(), rgba(860_000, 80_000, 240_000, 1_000_000));
    assert_eq!(Color::purple(), rgba(500_000, 0, 500_000, 1_000_000));
    assert_eq!(Color::rgb(1, 2, 3), rgba(1_000, 2_000, 3_000, 1_000_000));
}

#[test]
fn adding_colours_adds_alpha_too() {
    let sum = rgba(100_000, 200_000, 300_000, 400_000).plus(rgba(1, 2, 3, 4));
    assert_eq!(sum, rgba(100_001, 200_002, 300_003, 400_004));
}

#[test]
fn scaling_a_colour_keeps_alpha() {
    let c = rgba(100_000, 200_000, 300_000, 400_000).scaled(Fixed::from_millis(1500));
    assert_eq!(c, rgba(150_000, 300_000, 450_000, 400_000));
}

#[test]
fn colours_are_not_clamped() {
    let c = Color::white().scaled(Fixed::from_int(3)).plus(Color::white());
    assert_eq!(c, rgba(4_000_000, 4_000_000, 4_000_000, 2_000_000));
    let d = Color::white().scaled(Fixed::from_int(-1));
    assert_eq!(d, rgba(-1_000_000, -1_000_000, -1_000_000, 1_000_000));
}

#[test]
fn with_alpha_replaces_only_alpha() {
    assert_eq!(Color::purple().with_alpha(fx(7)), rgba(500_000, 0, 500_000, 7));
}

#[test]
fn pastel_adds_a_quarter_of_white() {
    assert_eq!(PASTEL_BLEND, 250);
    assert_eq!(Color::midnight_blue().pastel(), rgba(350_000, 350_000, 690_000, 2_000_000));
    assert_eq!(Color::purple().pastel(), rgba(750_000, 250_000, 750_000, 2_000_000));
    assert_eq!(rgba(0, 0, 0, 0).pastel(), rgba(250_000, 250_000, 250_000, 1_000_000));
}

#[test]
fn pastel_does_not_change_its_argument() {
    let c = Color::crimson();
    let _ = c.pastel();
    assert_eq!(c, Color::crimson());
}

#[test]
fn pastel_of_a_pastel_is_lighter_still() {
    for c in [Color::midnight_blue(), Color::orange(), rgba(-3_000_000, 0, 999_999, 5)] {
        let once = c.pastel();
        let twice = once.pastel();
        assert!(once.red.raw == c.red.raw + 250_000);
        assert!(twice.red.raw == once.red.raw + 250_000);
        assert!(twice.green.raw == once.green.raw + 250_000);
        assert!(twice.blue.raw == once.blue.raw + 250_000);
    }
}

#[test]
fn pastel_of_white_leaves_the_unit_range() {
    assert_eq!(Color::white().pastel(), rgba(1_250_000, 1_250_000, 1_250_000, 2_000_000));
}

#[test]
fn pastel_stops_at_the_largest_value() {
    let top = rgba(i64::MAX, i64::MAX - 1, 0, 0).pastel();
    assert_eq!(top.red, fx(i64::MAX));
    assert_eq!(top.green, fx(i64::MAX));
    assert_eq!(top.blue, fx(250_000));
}
