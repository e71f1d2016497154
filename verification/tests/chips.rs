use xtask::chip::{chip_from_name, default_chips, Chip};

#[test]
fn parses_every_known_identifier() {
    assert_eq!(chip_from_name("esp32"), Some(Chip::Esp32));
    assert_eq!(chip_from_name("esp32s2"), Some(Chip::Esp32s2));
    assert_eq!(chip_from_name("esp32s3"), Some(Chip::Esp32s3));
    assert_eq!(chip_from_name("esp32c2"), Some(Chip::Esp32c2));
    assert_eq!(chip_from_name("esp32c3"), Some(Chip::Esp32c3));
    assert_eq!(chip_from_name("esp32c6"), Some(Chip::Esp32c6));
    assert_eq!(chip_from_name("esp32h2"), Some(Chip::Esp32h2));
}

#[test]
fn rejects_unknown_identifiers() {
    assert_eq!(chip_from_name(""), None);
    assert_eq!(chip_from_name("esp32c5"), None);
    assert_eq!(chip_from_name("esp8266"), None);
    assert_eq!(chip_from_name("ESP32"), None);
    assert_eq!(chip_from_name("esp32 "), None);
}

#[test]
fn names_round_trip() {
    for chip in default_chips() {
        assert_eq!(chip_from_name(chip.name()), Some(chip));
    }
}

#[test]
fn default_list_holds_the_seven_chips_in_order() {
    let chips = default_chips();
    let names: Vec<&str> = chips.iter().map(|c| c.name()).collect();
    assert_eq!(
        names,
        ["esp32", "esp32s2", "esp32s3", "esp32c2", "esp32c3", "esp32c6", "esp32h2"]
    );
}
