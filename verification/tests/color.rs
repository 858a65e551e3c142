use winkit::gfx::Color;

/// The channel as the drawing backend takes it.
fn normalized(channel: u8) -> f32 {
    channel as f32 / 255.0
}

#[test]
fn test_byte_color() {
    let color = Color::new(0x9A, 0xCD, 0x32, 0xFF);
    assert_eq!(normalized(color.red), 0x9A as f32 / 255.0);
    assert_eq!(normalized(color.green), 0xCD as f32 / 255.0);
    assert_eq!(normalized(color.blue), 0x32 as f32 / 255.0);
    assert_eq!(normalized(color.alpha), 0xFF as f32 / 255.0);

    assert_eq!(color, Color::yellow_green());
}

#[test]
fn test_rgba_color() {
    let color = Color::new_rgba(0x9ACD32FF);

    assert_eq!(normalized(color.red), 0x9A as f32 / 255.0);
    assert_eq!(normalized(color.green), 0xCD as f32 / 255.0);
    assert_eq!(normalized(color.blue), 0x32 as f32 / 255.0);
    assert_eq!(normalized(color.alpha), 0xFF as f32 / 255.0);

    assert_eq!(color, Color::yellow_green());
}

#[test]
fn test_argb_color() {
    let color = Color::new_argb(0xFF9ACD32);

    assert_eq!(normalized(color.red), 0x9A as f32 / 255.0);
    assert_eq!(normalized(color.green), 0xCD as f32 / 255.0);
    assert_eq!(normalized(color.blue), 0x32 as f32 / 255.0);
    assert_eq!(normalized(color.alpha), 0xFF as f32 / 255.0);

    assert_eq!(color, Color::yellow_green());
}

#[test]
fn packed_forms_give_exact_channels() {
    assert_eq!(
        Color::new_rgba(0x12345678),
        Color { red: 0x12, green: 0x34, blue: 0x56, alpha: 0x78 }
    );
    assert_eq!(
        Color::new_argb(0x12345678),
        Color { alpha: 0x12, red: 0x34, green: 0x56, blue: 0x78 }
    );
    assert_eq!(Color::new_argb(0), Color::new(0, 0, 0, 0));
    assert_eq!(Color::default(), Color::new(0, 0, 0, 0));
    assert_eq!(Color::new_rgba(u32::MAX), Color::new(255, 255, 255, 255));
    for val in [0u32, 1, 0xFF00_00FF, 0x00FF_FF00, 0x8000_0001, 0xDEAD_BEEF] {
        assert_eq!(Color::new_argb(val), Color::new_rgba(val.rotate_left(8)));
    }
}

#[test]
fn named_colors() {
    assert_eq!(Color::alice_blue(), Color::new(0xF0, 0xF8, 0xFF, 0xFF));
    assert_eq!(Color::black(), Color::new(0, 0, 0, 0xFF));
    assert_eq!(Color::white(), Color::new(0xFF, 0xFF, 0xFF, 0xFF));
    assert_eq!(Color::red(), Color::new(0xFF, 0, 0, 0xFF));
    assert_eq!(Color::green(), Color::new(0, 0x80, 0, 0xFF));
    assert_eq!(Color::blue(), Color::new(0, 0, 0xFF, 0xFF));
    assert_eq!(Color::transparent(), Color::new(0xFF, 0xFF, 0xFF, 0));
    assert_eq!(Color::light_goldenrod_yellow(), Color::new(0xFA, 0xFA, 0xD2, 0xFF));
    assert_eq!(Color::cornflower_blue(), Color::new(0x64, 0x95, 0xED, 0xFF));
    assert_eq!(Color::dark_slate_gray(), Color::new(0x2F, 0x4F, 0x4F, 0xFF));
}
