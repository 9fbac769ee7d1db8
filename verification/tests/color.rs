use wcolor::color::{Color, Format, HexCase, InvalidFormat};

#[test]
fn pack_then_split_gives_the_channels_back() {
    for &(r, g, b) in &[(0u8, 0u8, 0u8), (255, 255, 255), (1, 2, 3), (5, 200, 2), (255, 0, 128)] {
        assert_eq!(Color::pack(r, g, b).to_rgb(), (r, g, b));
    }
}

#[test]
fn pack_puts_red_on_top() {
    assert_eq!(Color::pack(0x12, 0x34, 0x56).0, 0x123456);
    assert_eq!(Color::pack(255, 0, 0).0, 0xFF0000);
    assert_eq!(Color::pack(0, 0, 255).0, 0x0000FF);
}

#[test]
fn to_rgb_splits_a_packed_word() {
    assert_eq!(Color(0x00FF00).to_rgb(), (0, 255, 0));
    assert_eq!(Color(0x123456).to_rgb(), (0x12, 0x34, 0x56));
}

#[test]
fn to_rgb_ignores_the_top_byte() {
    assert_eq!(Color(0xAB123456).to_rgb(), (0x12, 0x34, 0x56));
}

#[test]
fn colors_are_equal_channel_by_channel() {
    assert_eq!(Color(0x00FF00), Color(0x00FF00));
    assert_eq!(Color(0xFF00FF00), Color(0x0000FF00));
    assert_ne!(Color(0x00FF00), Color(0x00FF01));
    assert_ne!(Color(0x00FF00), Color(0x01FF00));
    assert_ne!(Color(0x00FF00), Color(0x00FE00));
}

#[test]
fn hex_of_small_channels_has_three_digits() {
    assert_eq!(Color::pack(5, 10, 2).to_hex(HexCase::Lower), "#5a2");
    assert_eq!(Color::pack(5, 10, 2).to_hex(HexCase::Upper), "#5A2");
    assert_eq!(Color::pack(0, 0, 0).to_hex(HexCase::Upper), "#000");
    assert_eq!(Color::pack(15, 15, 15).to_hex(HexCase::Lower), "#fff");
}

#[test]
fn hex_pads_small_channels_beside_a_large_one() {
    assert_eq!(Color::pack(5, 200, 2).to_hex(HexCase::Lower), "#05c802");
    assert_eq!(Color::pack(5, 200, 2).to_hex(HexCase::Upper), "#05C802");
    assert_eq!(Color::pack(16, 0, 0).to_hex(HexCase::Lower), "#100000");
    assert_eq!(Color::pack(0, 0, 16).to_hex(HexCase::Lower), "#000010");
}

#[test]
fn hex_of_white() {
    assert_eq!(Color::pack(255, 255, 255).to_hex(HexCase::Lower), "#ffffff");
    assert_eq!(Color::pack(255, 255, 255).to_hex(HexCase::Upper), "#FFFFFF");
}

#[test]
fn rgb_string_is_decimal() {
    assert_eq!(Color(0x00FF00).to_rgb_string(), "0, 255, 0");
    assert_eq!(Color::pack(1, 22, 133).to_rgb_string(), "1, 22, 133");
    assert_eq!(Color::pack(9, 10, 99).to_rgb_string(), "9, 10, 99");
    assert_eq!(Color::pack(100, 101, 200).to_rgb_string(), "100, 101, 200");
    assert_eq!(Color::pack(255, 255, 255).to_rgb_string(), "255, 255, 255");
}

#[test]
fn format_names_are_read_in_any_case() {
    assert_eq!(Format::parse("HEX"), Ok(Format::UpperHex));
    assert_eq!(Format::parse("hex"), Ok(Format::LowerHex));
    assert_eq!(Format::parse("Hex"), Ok(Format::UpperHex));
    assert_eq!(Format::parse("hEx"), Ok(Format::UpperHex));
    assert_eq!(Format::parse("RGB"), Ok(Format::Rgb));
    assert_eq!(Format::parse("rgb"), Ok(Format::Rgb));
    assert_eq!(Format::parse("rGb"), Ok(Format::Rgb));
}

#[test]
fn other_format_names_are_invalid() {
    assert_eq!(Format::parse(""), Err(InvalidFormat));
    assert_eq!(Format::parse("HEXX"), Err(InvalidFormat));
    assert_eq!(Format::parse("HE"), Err(InvalidFormat));
    assert_eq!(Format::parse("hsl"), Err(InvalidFormat));
    assert_eq!(Format::parse("h\u{e9}x"), Err(InvalidFormat));
    assert_eq!(Format::parse(" HEX"), Err(InvalidFormat));
    assert_eq!(Format::parse("RGBA"), Err(InvalidFormat));
}

#[test]
fn render_follows_the_format() {
    let green = Color(0x00FF00);
    assert_eq!(Format::UpperHex.render(green), "#00FF00");
    assert_eq!(Format::LowerHex.render(green), "#00ff00");
    assert_eq!(Format::Rgb.render(green), "0, 255, 0");
    assert_eq!(Format::LowerHex.render(Color::pack(5, 10, 2)), "#5a2");
}
