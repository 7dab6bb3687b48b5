//! The key-state query that scripts may make.

use vstd::prelude::*;

verus! {

/// The keys a script can ask about.
#[derive(Clone, Copy, Debug, PartialEq, Eq, Structural)]
pub enum Key {
    Left,
    Right,
    Up,
    Down,
    Space,
}

/// Which of the keys are held down at one moment.
#[derive(Clone, Copy, Debug, PartialEq, Eq, Structural)]
pub struct KeyStates {
    pub left: bool,
    pub right: bool,
    pub up: bool,
    pub down: bool,
    pub space: bool,
}

impl KeyStates {
    /// Whether `key` is held down.
    pub open spec fn holds(self, key: Key) -> bool {
        match key {
            Key::Left => self.left,
            Key::Right => self.right,
            Key::Up => self.up,
            Key::Down => self.down,
            Key::Space => self.space,
        }
    }

    /// Whether `key` is held down.
    pub fn is_down(&self, key: Key) -> (down: bool)
        ensures
            down == self.holds(key),
    {
        match key {
            Key::Left => self.left,
            Key::Right => self.right,
            Key::Up => self.up,
            Key::Down => self.down,
            Key::Space => self.space,
        }
    }
}

/// The small form of a capital letter from A to Z; any other character is
/// left as it is.
pub open spec fn folded(c: char) -> char {
    if 'A' <= c && c <= 'Z' {
        ((c as u8) + 32) as char
    } else {
        c
    }
}

/// A name with each of its characters folded.
pub open spec fn folded_name(name: Seq<char>) -> Seq<char> {
    Seq::new(name.len(), |i: int| folded(name[i]))
}

/// The key that `name` stands for, letter case aside.
pub open spec fn key_named(name: Seq<char>) -> Option<Key> {
    let plain = folded_name(name);
    if plain == seq!['l', 'e', 'f', 't'] {
        Some(Key::Left)
    } else if plain == seq!['r', 'i', 'g', 'h', 't'] {
        Some(Key::Right)
    } else if plain == seq!['u', 'p'] {
        Some(Key::Up)
    } else if plain == seq!['d', 'o', 'w', 'n'] {
        Some(Key::Down)
    } else if plain == seq!['s', 'p', 'a', 'c', 'e'] {
        Some(Key::Space)
    } else {
        None
    }
}

/// Folds one character.
fn fold(c: char) -> (out: char)
    ensures
        out == folded(c),
{
    if 'A' <= c && c <= 'Z' {
        ((c as u8) + 32) as char
    } else {
        c
    }
}

/// Whether `name`, of `count` characters, reads as `word` once folded.
fn reads_as(name: &str, count: usize, word: &str) -> (same: bool)
    requires
        count == name@.len(),
    ensures
        same == (folded_name(name@) == word@),
{
    let length: usize = word.unicode_len();
    if count != length {
        return false;
    }
    let mut index: usize = 0;
    while index < count
        invariant
            index <= count,
            count == name@.len(),
            count == word@.len(),
            forall|i: int| 0 <= i < index ==> folded(name@[i]) == word@[i],
        decreases count - index,
    {
        if fold(name.get_char(index)) != word.get_char(index) {
            assert(folded_name(name@)[index as int] != word@[index as int]);
            return false;
        }
        index = index + 1;
    }
    assert(folded_name(name@) =~= word@);
    true
}

/// Looks a key up by name, letter case aside: `left`, `right`, `up`, `down`
/// and `space` name keys, and nothing else does.
pub fn key_from_name(name: &str) -> (key: Option<Key>)
    ensures
        key == key_named(name@),
{
    proof {
        reveal_strlit("left");
        reveal_strlit("right");
        reveal_strlit("up");
        reveal_strlit("down");
        reveal_strlit("space");
        assert("left"@ =~= seq!['l', 'e', 'f', 't']);
        assert("right"@ =~= seq!['r', 'i', 'g', 'h', 't']);
        assert("up"@ =~= seq!['u', 'p']);
        assert("down"@ =~= seq!['d', 'o', 'w', 'n']);
        assert("space"@ =~= seq!['s', 'p', 'a', 'c', 'e']);
    }
    let count: usize = name.unicode_len();
    if count < 2 || count > 5 {
        return None;
    }
    if reads_as(name, count, "left") {
        Some(Key::Left)
    } else if reads_as(name, count, "right") {
        Some(Key::Right)
    } else if reads_as(name, count, "up") {
        Some(Key::Up)
    } else if reads_as(name, count, "down") {
        Some(Key::Down)
    } else if reads_as(name, count, "space") {
        Some(Key::Space)
    } else {
        None
    }
}

/// Answers a script's question whether the key called `name` is held down,
/// given the state of the keys: the state of the key that `name` stands for,
/// and `false` for a name that stands for no key.
pub fn is_key_down(name: &str, keys: &KeyStates) -> (down: bool)
    ensures
        down == match key_named(name@) {
            Some(key) => keys.holds(key),
            None => false,
        },
        key_named(name@) is None ==> !down,
{
    match key_from_name(name) {
        Some(key) => keys.is_down(key),
        None => false,
    }
}

} // verus!
