use bevy::color::Color;
use orbital_escape::palette::Palette;

#[test]
fn palette_bytes() {
    assert_eq!(Palette::Void.rgb_bytes(), (0x12, 0x00, 0x21));
    assert_eq!(Palette::Mint.rgb_bytes(), (0xAE, 0xEF, 0xB9));
    assert_eq!(Palette::Slate.rgb_bytes(), (0x72, 0x72, 0x72));
    assert_eq!(Palette::Plum.rgb_bytes(), (0x34, 0x1E, 0x44));
    assert_eq!(Palette::Crimson.rgb_bytes(), (0xFF, 0x33, 0x33));
    assert_eq!(Palette::Crimson.rgba_bytes(7), [0xFF, 0x33, 0x33, 7]);
}

#[test]
fn palette_engine_colors() {
    assert_eq!(Palette::Mint.color(), Color::srgb_u8(0xAE, 0xEF, 0xB9));
    assert_eq!(Palette::Void.color(), Color::srgb_u8(0x12, 0x00, 0x21));
    assert_ne!(Palette::Mint.color(), Palette::Plum.color());
    assert_eq!(Palette::Void.srgba(230), Color::srgba_u8(0x12, 0x00, 0x21, 230));
    assert_eq!(Palette::Slate.srgba(255), Color::srgba_u8(0x72, 0x72, 0x72, 255));
    assert_ne!(Palette::Void.srgba(230), Palette::Void.srgba(235));
}

#[test]
fn opaque_alpha_gives_the_opaque_color() {
    for p in [Palette::Void, Palette::Mint, Palette::Slate, Palette::Plum, Palette::Crimson] {
        assert_eq!(p.srgba(255), p.color());
    }
    assert_eq!(Palette::Crimson.srgba(9), Color::srgba_u8(0xFF, 0x33, 0x33, 9));
}

#[test]
fn palette_bytes_survive_the_engine_round_trip() {
    for p in [Palette::Void, Palette::Mint, Palette::Slate, Palette::Plum, Palette::Crimson] {
        let s = p.color().to_srgba();
        let back = [
            (s.red * 255.0) as u8,
            (s.green * 255.0) as u8,
            (s.blue * 255.0) as u8,
            (s.alpha * 255.0) as u8,
        ];
        assert_eq!(back, p.rgba_bytes(255));
    }
}
