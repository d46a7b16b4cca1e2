use roku_ecp::Key;

#[test]
fn literal_key_token() {
    assert_eq!(Key::Lit('5').to_string(), "Lit_5");
}

#[test]
fn named_key_token() {
    assert_eq!(Key::VolumeMute.to_string(), "VolumeMute");
}

#[test]
fn every_named_key_is_its_own_name() {
    let keys = vec![
        (Key::Back, "Back"),
        (Key::Backspace, "Backspace"),
        (Key::ChannelDown, "ChannelDown"),
        (Key::ChannelUp, "ChannelUp"),
        (Key::Down, "Down"),
        (Key::Enter, "Enter"),
        (Key::FindRemote, "FindRemote"),
        (Key::Fwd, "Fwd"),
        (Key::Home, "Home"),
        (Key::Info, "Info"),
        (Key::InputAV1, "InputAV1"),
        (Key::InputHDMI1, "InputHDMI1"),
        (Key::InputHDMI2, "InputHDMI2"),
        (Key::InputHDMI3, "InputHDMI3"),
        (Key::InputHDMI4, "InputHDMI4"),
        (Key::InputTuner, "InputTuner"),
        (Key::InstantReplay, "InstantReplay"),
        (Key::Left, "Left"),
        (Key::Play, "Play"),
        (Key::PowerOff, "PowerOff"),
        (Key::Rev, "Rev"),
        (Key::Right, "Right"),
        (Key::Search, "Search"),
        (Key::Select, "Select"),
        (Key::Up, "Up"),
        (Key::VolumeDown, "VolumeDown"),
        (Key::VolumeMute, "VolumeMute"),
        (Key::VolumeUp, "VolumeUp"),
    ];
    assert_eq!(keys.len(), 28);
    for (key, name) in keys {
        assert_eq!(key.to_string(), name);
    }
}

#[test]
fn literal_key_keeps_the_character_as_it_is() {
    assert_eq!(Key::Lit('a').to_string(), "Lit_a");
    assert_eq!(Key::Lit('Z').to_string(), "Lit_Z");
    assert_eq!(Key::Lit(' ').to_string(), "Lit_ ");
    assert_eq!(Key::Lit('/').to_string(), "Lit_/");
    assert_eq!(Key::Lit('_').to_string(), "Lit__");
    assert_eq!(Key::Lit('é').to_string(), "Lit_é");
    assert_eq!(Key::Lit('語').to_string(), "Lit_語");
}

#[test]
fn tokens_of_different_keys_differ() {
    let keys = vec![
        Key::Back,
        Key::Backspace,
        Key::Left,
        Key::Lit('L'),
        Key::Lit('e'),
        Key::Enter,
        Key::Right,
        Key::Up,
        Key::VolumeUp,
    ];
    for (i, a) in keys.iter().enumerate() {
        for (j, b) in keys.iter().enumerate() {
            assert_eq!(a.to_string() == b.to_string(), i == j);
        }
    }
}
