use capture::theme::color::Color;

#[test]
fn six_digits_are_an_opaque_colour() {
    assert_eq!(Color::from_hex("#ff00ff"), Some(Color::Rgb(0xff00ff)));
    assert_eq!(Color::from_hex("#000000"), Some(Color::Rgb(0)));
    assert_eq!(Color::from_hex("#123456"), Some(Color::Rgb(0x123456)));
    assert_eq!(Color::from_hex("#ffffff"), Some(Color::Rgb(0xffffff)));
}

#[test]
fn eight_digits_are_a_colour_with_alpha() {
    assert_eq!(Color::from_hex("#9bced63d"), Some(Color::Rgba(0x9bced63d)));
    assert_eq!(Color::from_hex("#00000000"), Some(Color::Rgba(0)));
    assert_eq!(Color::from_hex("#ffffffff"), Some(Color::Rgba(0xffffffff)));
    assert_eq!(Color::from_hex("#01020304"), Some(Color::Rgba(0x01020304)));
}

#[test]
fn digits_of_either_case_are_read() {
    assert_eq!(Color::from_hex("#ABCDEF"), Some(Color::Rgb(0xabcdef)));
    assert_eq!(Color::from_hex("#aBcDeF09"), Some(Color::Rgba(0xabcdef09)));
}

#[test]
fn anything_else_is_no_colour() {
    for text in [
        "", "#", "ff00ff", "#ff00f", "#ff00ff0", "#ff00ff000", "#gg0000", "#ff00fg", "#ff 0ff",
        "#+f00ff", "0xff00ff", "#ff00ffzz", "ff00ff00f", "\u{e9}ff00ff", "#\u{e9}f00ff",
        "#ff00f\u{e9}", "#ff00ff\u{20ac}", "#-1-1-1",
    ] {
        assert_eq!(Color::from_hex(text), None, "{:?}", text);
    }
}

#[test]
fn fixed_colours() {
    assert_eq!(Color::missing(), Color::Rgb(0xff00ff));
    assert_eq!(
        Color::transparent(),
        Color::Hsla { hue: 0, saturation: 0, lightness: 0, alpha: 0 }
    );
    assert_eq!(
        Color::white_overlay(12),
        Color::Hsla { hue: 0, saturation: 0, lightness: 10000, alpha: 12 }
    );
}
