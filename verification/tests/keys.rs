use tool::keys::get_key_name;

#[test]
fn named_keys() {
    assert_eq!(get_key_name(0x21), "PGUP");
    assert_eq!(get_key_name(0x22), "PGDN");
    assert_eq!(get_key_name(0x26), "UP");
    assert_eq!(get_key_name(0x28), "DOWN");
    assert_eq!(get_key_name(0x25), "LEFT");
    assert_eq!(get_key_name(0x27), "RIGHT");
    assert_eq!(get_key_name(0x08), "BACKSPACE");
    assert_eq!(get_key_name(0x09), "TAB");
    assert_eq!(get_key_name(0x0D), "ENTER");
    assert_eq!(get_key_name(0x10), "SHIFT");
    assert_eq!(get_key_name(0x11), "CTRL");
    assert_eq!(get_key_name(0x12), "ALT");
    assert_eq!(get_key_name(0x1B), "ESC");
    assert_eq!(get_key_name(0x20), "SPACE");
}

#[test]
fn digits_and_letters_name_themselves() {
    assert_eq!(get_key_name(0x30), "0");
    assert_eq!(get_key_name(0x39), "9");
    assert_eq!(get_key_name(0x41), "A");
    assert_eq!(get_key_name(0x5A), "Z");
    assert_eq!(get_key_name(0x4D), "M");
}

#[test]
fn other_codes_use_their_number() {
    assert_eq!(get_key_name(0x70), "VK_112");
    assert_eq!(get_key_name(0xA1), "VK_161");
    assert_eq!(get_key_name(0), "VK_0");
    assert_eq!(get_key_name(0x2F), "VK_47");
    assert_eq!(get_key_name(0x3A), "VK_58");
    assert_eq!(get_key_name(0x40), "VK_64");
    assert_eq!(get_key_name(0x5B), "VK_91");
    assert_eq!(get_key_name(0x61), "VK_97");
    assert_eq!(get_key_name(-5), "VK_-5");
    assert_eq!(get_key_name(i32::MAX), "VK_2147483647");
    assert_eq!(get_key_name(i32::MIN), "VK_-2147483648");
}

#[test]
fn names_are_distinct_and_nonempty() {
    let mut seen = std::collections::HashSet::new();
    for vk in -300..600 {
        let name = get_key_name(vk);
        assert!(!name.is_empty());
        assert!(seen.insert(name), "duplicate name for {}", vk);
    }
}
