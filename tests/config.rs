use chip8::config::{from_u8_rgb, rgb_from_hex, ColorError, Config};

#[test]
fn reads_hex_colors() {
    assert_eq!(Ok((0xFF, 0x80, 0x00)), rgb_from_hex("#FF8000"));
    assert_eq!(Ok((0xFF, 0x80, 0x00)), rgb_from_hex("0xff8000"));
    assert_eq!(Ok((0x12, 0x34, 0x56)), rgb_from_hex("123456"));
    assert_eq!(Ok((0xAB, 0xCD, 0xEF)), rgb_from_hex("##0x0xabcdef99"));
}

#[test]
fn rejects_malformed_colors() {
    assert_eq!(Err(ColorError::TooShort), rgb_from_hex("#12345"));
    assert_eq!(Err(ColorError::TooShort), rgb_from_hex(""));
    assert_eq!(Err(ColorError::InvalidDigit), rgb_from_hex("#12G456"));
    assert_eq!(Err(ColorError::InvalidDigit), rgb_from_hex("+f0000"));
}

#[test]
fn packs_rgb() {
    assert_eq!(0x00FF8000, from_u8_rgb(0xFF, 0x80, 0x00));
    assert_eq!(0x00010203, from_u8_rgb(1, 2, 3));
}

#[test]
fn config_defaults_and_builders() {
    let config = Config::new(String::from("game.ch8"));
    assert_eq!("game.ch8", config.rom_file_path);
    assert_eq!(500, config.clock_hz);
    assert_eq!(60, config.refresh_hz);
    assert_eq!((0, 0, 0), config.color1);
    assert_eq!((0xFF, 0xFF, 0xFF), config.color2);
    let config = config
        .clock_hz(1000)
        .refresh_hz(30)
        .color1((1, 2, 3))
        .color2((4, 5, 6));
    assert_eq!(1000, config.clock_hz);
    assert_eq!(30, config.refresh_hz);
    assert_eq!((1, 2, 3), config.color1);
    assert_eq!((4, 5, 6), config.color2);
}
