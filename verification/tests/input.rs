use gb_emu::input::{init_key_states, parse_key, set_key, GameBoyKey};

fn pressed(states: &[(GameBoyKey, bool)], key: GameBoyKey) -> Option<bool> {
    states.iter().find(|(k, _)| *k == key).map(|(_, p)| *p)
}

const ALL_KEYS: [GameBoyKey; 8] = [
    GameBoyKey::Right,
    GameBoyKey::Left,
    GameBoyKey::Up,
    GameBoyKey::Down,
    GameBoyKey::A,
    GameBoyKey::B,
    GameBoyKey::Select,
    GameBoyKey::Start,
];

#[test]
fn key_names() {
    assert_eq!(parse_key("right"), Some(GameBoyKey::Right));
    assert_eq!(parse_key("left"), Some(GameBoyKey::Left));
    assert_eq!(parse_key("up"), Some(GameBoyKey::Up));
    assert_eq!(parse_key("down"), Some(GameBoyKey::Down));
    assert_eq!(parse_key("a"), Some(GameBoyKey::A));
    assert_eq!(parse_key("b"), Some(GameBoyKey::B));
    assert_eq!(parse_key("select"), Some(GameBoyKey::Select));
    assert_eq!(parse_key("start"), Some(GameBoyKey::Start));
}

#[test]
fn unknown_key_names() {
    assert_eq!(parse_key(""), None);
    assert_eq!(parse_key("Right"), None);
    assert_eq!(parse_key("st"), None);
    assert_eq!(parse_key("starts"), None);
    assert_eq!(parse_key(" a"), None);
    assert_eq!(parse_key("é"), None);
}

#[test]
fn all_keys_start_released() {
    let states = init_key_states();
    assert_eq!(states.len(), 8);
    for key in ALL_KEYS {
        assert_eq!(pressed(&states, key), Some(false));
    }
}

#[test]
fn set_key_records_one_key() {
    let mut states = init_key_states();
    set_key(&mut states, "a", true);
    assert_eq!(pressed(&states, GameBoyKey::A), Some(true));
    for key in ALL_KEYS {
        if key != GameBoyKey::A {
            assert_eq!(pressed(&states, key), Some(false));
        }
    }
    set_key(&mut states, "start", true);
    set_key(&mut states, "a", false);
    assert_eq!(pressed(&states, GameBoyKey::A), Some(false));
    assert_eq!(pressed(&states, GameBoyKey::Start), Some(true));
    assert_eq!(states.len(), 8);
}

#[test]
fn set_key_ignores_unknown_names() {
    let mut states = init_key_states();
    set_key(&mut states, "jump", true);
    assert_eq!(states, init_key_states());
}

#[test]
fn set_key_adds_a_missing_key() {
    let mut states = Vec::new();
    set_key(&mut states, "down", true);
    assert_eq!(states, vec![(GameBoyKey::Down, true)]);
}
