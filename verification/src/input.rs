//! The joypad keys, their names on the web front end, and the table of which
//! keys are held down.

use vstd::prelude::*;
use vstd::string::StringSliceAdditionalSpecFns;

verus! {

broadcast use vstd::utf8::encode_utf8_decode_utf8;

/// A button of the Game Boy.
#[derive(Clone, Copy, Debug, PartialEq, Eq, Hash, Structural)]
pub enum GameBoyKey {
    Right,
    Left,
    Up,
    Down,
    A,
    B,
    Select,
    Start,
}

/// The key a front end names with `name`, if any.
pub open spec fn key_named(name: Seq<char>) -> Option<GameBoyKey> {
    if name == "right"@ {
        Some(GameBoyKey::Right)
    } else if name == "left"@ {
        Some(GameBoyKey::Left)
    } else if name == "up"@ {
        Some(GameBoyKey::Up)
    } else if name == "down"@ {
        Some(GameBoyKey::Down)
    } else if name == "a"@ {
        Some(GameBoyKey::A)
    } else if name == "b"@ {
        Some(GameBoyKey::B)
    } else if name == "select"@ {
        Some(GameBoyKey::Select)
    } else if name == "start"@ {
        Some(GameBoyKey::Start)
    } else {
        None
    }
}

/// The names of the keys: "right", "left", "up", "down", "a", "b", "select"
/// and "start", each naming its own key.
pub proof fn lemma_key_names()
    ensures
        key_named("right"@) == Some(GameBoyKey::Right),
        key_named("left"@) == Some(GameBoyKey::Left),
        key_named("up"@) == Some(GameBoyKey::Up),
        key_named("down"@) == Some(GameBoyKey::Down),
        key_named("a"@) == Some(GameBoyKey::A),
        key_named("b"@) == Some(GameBoyKey::B),
        key_named("select"@) == Some(GameBoyKey::Select),
        key_named("start"@) == Some(GameBoyKey::Start),
{
    reveal_strlit("right");
    reveal_strlit("left");
    reveal_strlit("up");
    reveal_strlit("down");
    reveal_strlit("a");
    reveal_strlit("b");
    reveal_strlit("select");
    reveal_strlit("start");
    assert("right"@.len() == 5);
    assert("left"@.len() == 4);
    assert("up"@.len() == 2);
    assert("down"@.len() == 4);
    assert("a"@.len() == 1);
    assert("b"@.len() == 1);
    assert("select"@.len() == 6);
    assert("start"@.len() == 5);
    assert("down"@[0] != "left"@[0]);
    assert("b"@[0] != "a"@[0]);
    assert("start"@[0] != "right"@[0]);
}

/// Two names that name a key and name the same key are the same name.
pub proof fn lemma_key_names_distinct(name1: Seq<char>, name2: Seq<char>)
    requires
        key_named(name1) is Some,
        key_named(name1) == key_named(name2),
    ensures
        name1 == name2,
{
}

/// Whether two strings hold the same characters, compared by their UTF-8
/// bytes.
fn str_equals(a: &str, b: &str) -> (same: bool)
    ensures
        same == (a@ == b@),
{
    let a_bytes = a.as_bytes();
    let b_bytes = b.as_bytes();
    if a_bytes.len() != b_bytes.len() {
        return false;
    }
    let mut i: usize = 0;
    while i < a_bytes.len()
        invariant
            a_bytes@ == a.spec_bytes(),
            b_bytes@ == b.spec_bytes(),
            a_bytes@.len() == b_bytes@.len(),
            i <= a_bytes@.len(),
            forall|j: int| 0 <= j < i ==> a_bytes@[j] == b_bytes@[j],
        decreases a_bytes@.len() - i,
    {
        if a_bytes[i] != b_bytes[i] {
            return false;
        }
        i = i + 1;
    }
    assert(a_bytes@ =~= b_bytes@);
    assert(vstd::utf8::decode_utf8(a.spec_bytes()) == a@);
    assert(vstd::utf8::decode_utf8(b.spec_bytes()) == b@);
    true
}

pub fn parse_key(key: &str) -> (parsed: Option<GameBoyKey>)
    ensures
        parsed == key_named(key@),
{
    if str_equals(key, "right") {
        Some(GameBoyKey::Right)
    } else if str_equals(key, "left") {
        Some(GameBoyKey::Left)
    } else if str_equals(key, "up") {
        Some(GameBoyKey::Up)
    } else if str_equals(key, "down") {
        Some(GameBoyKey::Down)
    } else if str_equals(key, "a") {
        Some(GameBoyKey::A)
    } else if str_equals(key, "b") {
        Some(GameBoyKey::B)
    } else if str_equals(key, "select") {
        Some(GameBoyKey::Select)
    } else if str_equals(key, "start") {
        Some(GameBoyKey::Start)
    } else {
        None
    }
}

/// The pressed flag that a table of `(key, pressed)` pairs records for
/// `key`: the one of the first pair that names it.
pub open spec fn pressed_in(states: Seq<(GameBoyKey, bool)>, key: GameBoyKey) -> Option<bool>
    decreases states.len(),
{
    if states.len() == 0 {
        None
    } else if states[0].0 == key {
        Some(states[0].1)
    } else {
        pressed_in(states.drop_first(), key)
    }
}

/// Replacing the first pair that names `key` records the new flag for `key`
/// and changes no other key's.
proof fn lemma_pressed_in_update(
    states: Seq<(GameBoyKey, bool)>,
    i: int,
    key: GameBoyKey,
    pressed: bool,
    other: GameBoyKey,
)
    requires
        0 <= i < states.len(),
        states[i].0 == key,
        forall|j: int| 0 <= j < i ==> states[j].0 != key,
    ensures
        pressed_in(states.update(i, (key, pressed)), other) == if other == key {
            Some(pressed)
        } else {
            pressed_in(states, other)
        },
    decreases i,
{
    if i > 0 {
        lemma_pressed_in_update(states.drop_first(), i - 1, key, pressed, other);
        assert(states.update(i, (key, pressed)).drop_first() =~= states.drop_first().update(
            i - 1,
            (key, pressed),
        ));
    } else {
        assert(states.update(i, (key, pressed)).drop_first() =~= states.drop_first());
    }
}

/// Appending a pair for a key that no pair names records its flag and
/// changes no other key's.
proof fn lemma_pressed_in_push(
    states: Seq<(GameBoyKey, bool)>,
    key: GameBoyKey,
    pressed: bool,
    other: GameBoyKey,
)
    requires
        forall|j: int| 0 <= j < states.len() ==> states[j].0 != key,
    ensures
        pressed_in(states.push((key, pressed)), other) == if other == key {
            Some(pressed)
        } else {
            pressed_in(states, other)
        },
    decreases states.len(),
{
    if states.len() > 0 {
        lemma_pressed_in_push(states.drop_first(), key, pressed, other);
        assert(states.push((key, pressed)).drop_first() =~= states.drop_first().push(
            (key, pressed),
        ));
    } else {
        assert(states.push((key, pressed)).drop_first() =~= states);
    }
}

/// A table of `(key, pressed)` pairs names each key at most once, as a map
/// from keys to flags does.
pub open spec fn distinct_keys(states: Seq<(GameBoyKey, bool)>) -> bool {
    forall|i: int, j: int| 0 <= i < j < states.len() ==> states[i].0 != states[j].0
}

/// A table in which no pair names `key` records nothing for it.
proof fn lemma_pressed_in_absent(states: Seq<(GameBoyKey, bool)>, key: GameBoyKey)
    requires
        forall|j: int| 0 <= j < states.len() ==> states[j].0 != key,
    ensures
        pressed_in(states, key) is None,
    decreases states.len(),
{
    if states.len() > 0 {
        lemma_pressed_in_absent(states.drop_first(), key);
    }
}

/// Every key of the pad, released. The table is a vector of pairs that
/// names each key once (`distinct_keys`); `pressed_in` reads it as a map.
pub fn init_key_states() -> (states: Vec<(GameBoyKey, bool)>)
    ensures
        states@.len() == 8,
        distinct_keys(states@),
        forall|key: GameBoyKey| #[trigger] pressed_in(states@, key) == Some(false),
{
    let states = vec![
        (GameBoyKey::Right, false),
        (GameBoyKey::Left, false),
        (GameBoyKey::Up, false),
        (GameBoyKey::Down, false),
        (GameBoyKey::A, false),
        (GameBoyKey::B, false),
        (GameBoyKey::Select, false),
        (GameBoyKey::Start, false),
    ];
    assert forall|key: GameBoyKey| #[trigger] pressed_in(states@, key) == Some(false) by {
        reveal_with_fuel(pressed_in, 9);
    }
    states
}

/// Records whether the key the front end names `key` is held down; a name
/// that is no key changes nothing. A key the table already names keeps its
/// one pair; another key gets a new pair.
pub fn set_key(states: &mut Vec<(GameBoyKey, bool)>, key: &str, pressed: bool)
    requires
        distinct_keys(old(states)@),
    ensures
        distinct_keys(final(states)@),
        match key_named(key@) {
            Some(k) => final(states)@.len() == if pressed_in(old(states)@, k) is Some {
                old(states)@.len()
            } else {
                old(states)@.len() + 1
            },
            None => true,
        },
        match key_named(key@) {
            Some(k) => forall|other: GameBoyKey|
                #[trigger] pressed_in(final(states)@, other) == if other == k {
                    Some(pressed)
                } else {
                    pressed_in(old(states)@, other)
                },
            None => final(states)@ == old(states)@,
        },
{
    if let Some(k) = parse_key(key) {
        let mut i: usize = 0;
        while i < states.len() && states[i].0 != k
            invariant
                i <= states@.len(),
                forall|j: int| 0 <= j < i ==> states@[j].0 != k,
            decreases states@.len() - i,
        {
            i = i + 1;
        }
        let ghost before = states@;
        if i < states.len() {
            proof {
                let kept = before[i as int].1;
                lemma_pressed_in_update(before, i as int, k, kept, k);
                assert(before.update(i as int, (k, kept)) =~= before);
            }
            states.set(i, (k, pressed));
            assert forall|other: GameBoyKey|
                #[trigger] pressed_in(states@, other) == if other == k {
                    Some(pressed)
                } else {
                    pressed_in(before, other)
                } by {
                lemma_pressed_in_update(before, i as int, k, pressed, other);
            }
        } else {
            proof {
                lemma_pressed_in_absent(before, k);
            }
            states.push((k, pressed));
            assert forall|other: GameBoyKey|
                #[trigger] pressed_in(states@, other) == if other == k {
                    Some(pressed)
                } else {
                    pressed_in(before, other)
                } by {
                lemma_pressed_in_push(before, k, pressed, other);
            }
        }
    }
}

} // verus!
