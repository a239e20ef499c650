use rusty_os::color::Color;
use rusty_os::color::pack;

fn all_colors() -> Vec<Color> {
    vec![
        Color::Black,
        Color::Blue,
        Color::Green,
        Color::Cyan,
        Color::Red,
        Color::Magenta,
        Color::Brown,
        Color::LightGray,
        Color::DarkGray,
        Color::LightBlue,
        Color::LightGreen,
        Color::LightCyan,
        Color::LightRed,
        Color::Pink,
        Color::Yellow,
        Color::White,
    ]
}

#[test]
fn color_codes_are_fixed() {
    let colors = all_colors();
    for (index, color) in colors.iter().enumerate() {
        assert_eq!(color.code() as usize, index);
    }
    assert_eq!(Color::Black.code(), 0x0);
    assert_eq!(Color::LightGray.code(), 0x7);
    assert_eq!(Color::White.code(), 0xF);
}

#[test]
fn pack_exact_values() {
    assert_eq!(pack(Color::Black, Color::White), 0x0F);
    assert_eq!(pack(Color::Blue, Color::Green), 0x12);
    assert_eq!(pack(Color::White, Color::Black), 0xF0);
    assert_eq!(pack(Color::Black, Color::Black), 0x00);
}

#[test]
fn pack_nibbles_recover_both_colors() {
    let colors = all_colors();
    for background in colors.iter() {
        for foreground in colors.iter() {
            let attribute = pack(*background, *foreground);
            assert_eq!(attribute & 0x0F, foreground.code());
            assert_eq!((attribute >> 4) & 0x0F, background.code());
        }
    }
}
