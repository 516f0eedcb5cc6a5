use vstd::prelude::*;
use crate::configuration::Keybinds;
use crate::controls::SongControl;

verus! {

/// A key press as the terminal reports it.
#[derive(Debug, PartialEq, Eq)]
pub enum Key {
    /// Null byte.
    EOF,
    Backspace,
    Delete,
    Esc,
    Up,
    Down,
    Right,
    Left,
    End,
    Home,
    BackTab,
    Insert,
    PageUp,
    PageDown,
    /// A function key (1 to 12).
    F(u8),
    /// A plain character.
    Char(char),
    /// An Alt-modified character.
    Alt(char),
    /// A Ctrl-modified character.
    Ctrl(char),
    /// Any other key, by the bytes the terminal sent.
    Other(Vec<u8>),
}

/// The control that a typed character stands for: the bindings are tried in
/// the order volume up, volume down, seek backward, seek forward, toggle
/// loop, previous song, next song, pause and quit; an unbound character does
/// nothing.
pub open spec fn spec_control_for_char(c: char, kb: Keybinds) -> SongControl {
    if c == kb.increase_volume {
        SongControl::VolumeUp
    } else if c == kb.decrease_volume {
        SongControl::VolumeDown
    } else if c == kb.seek_backward {
        SongControl::SeekBackward
    } else if c == kb.seek_forward {
        SongControl::SeekForward
    } else if c == kb.toggle_loop {
        SongControl::ToggleLoop
    } else if c == kb.prev_song {
        SongControl::PrevSong
    } else if c == kb.next_song {
        SongControl::NextSong
    } else if c == kb.pause {
        SongControl::TogglePause
    } else if c == kb.quit {
        SongControl::DestroyAndExit
    } else {
        SongControl::No
    }
}

/// The control that a key press stands for: the arrow keys change the volume
/// (up, down) and seek (left, right), Ctrl-C exits, a character goes through
/// the key bindings, and any other key does nothing.
pub open spec fn spec_control_for_key(key: Key, kb: Keybinds) -> SongControl {
    match key {
        Key::Up => SongControl::VolumeUp,
        Key::Down => SongControl::VolumeDown,
        Key::Left => SongControl::SeekBackward,
        Key::Right => SongControl::SeekForward,
        Key::Char(c) => spec_control_for_char(c, kb),
        Key::Ctrl(c) => if c == 'c' {
            SongControl::DestroyAndExit
        } else {
            SongControl::No
        },
        _ => SongControl::No,
    }
}

/// The control that a key press stands for under the given key bindings.
pub fn control_for_key(key: &Key, keybinds: &Keybinds) -> (r: SongControl)
    ensures
        r == spec_control_for_key(*key, *keybinds),
{
    match key {
        Key::Up => SongControl::VolumeUp,
        Key::Down => SongControl::VolumeDown,
        Key::Left => SongControl::SeekBackward,
        Key::Right => SongControl::SeekForward,
        Key::Char(c) => {
            let c = *c;
            if c == keybinds.increase_volume {
                SongControl::VolumeUp
            } else if c == keybinds.decrease_volume {
                SongControl::VolumeDown
            } else if c == keybinds.seek_backward {
                SongControl::SeekBackward
            } else if c == keybinds.seek_forward {
                SongControl::SeekForward
            } else if c == keybinds.toggle_loop {
                SongControl::ToggleLoop
            } else if c == keybinds.prev_song {
                SongControl::PrevSong
            } else if c == keybinds.next_song {
                SongControl::NextSong
            } else if c == keybinds.pause {
                SongControl::TogglePause
            } else if c == keybinds.quit {
                SongControl::DestroyAndExit
            } else {
                SongControl::No
            }
        },
        Key::Ctrl(c) => {
            if *c == 'c' {
                SongControl::DestroyAndExit
            } else {
                SongControl::No
            }
        },
        _ => SongControl::No,
    }
}

/// The arrow keys and Ctrl-C do the same thing whatever the key bindings.
pub proof fn lemma_fixed_keys_ignore_bindings(kb1: Keybinds, kb2: Keybinds, key: Key)
    requires
        key is Up || key is Down || key is Left || key is Right || key is Ctrl,
    ensures
        spec_control_for_key(key, kb1) == spec_control_for_key(key, kb2),
{
}

/// Each typed character reaches the control of the first binding, in the
/// order volume up, volume down, seek backward, seek forward, toggle loop,
/// previous song, next song, pause, quit, that it equals; a character equal
/// to no binding does nothing.
pub proof fn lemma_char_bindings(c: char, kb: Keybinds)
    ensures
        c == kb.increase_volume ==> spec_control_for_key(Key::Char(c), kb) == SongControl::VolumeUp,
        c != kb.increase_volume && c == kb.decrease_volume ==> spec_control_for_key(Key::Char(c), kb)
            == SongControl::VolumeDown,
        c != kb.increase_volume && c != kb.decrease_volume && c == kb.seek_backward
            ==> spec_control_for_key(Key::Char(c), kb) == SongControl::SeekBackward,
        c != kb.increase_volume && c != kb.decrease_volume && c != kb.seek_backward && c
            == kb.seek_forward ==> spec_control_for_key(Key::Char(c), kb) == SongControl::SeekForward,
        c != kb.increase_volume && c != kb.decrease_volume && c != kb.seek_backward && c
            != kb.seek_forward && c == kb.toggle_loop ==> spec_control_for_key(Key::Char(c), kb)
            == SongControl::ToggleLoop,
        c != kb.increase_volume && c != kb.decrease_volume && c != kb.seek_backward && c
            != kb.seek_forward && c != kb.toggle_loop && c == kb.prev_song ==> spec_control_for_key(
            Key::Char(c),
            kb,
        ) == SongControl::PrevSong,
        c != kb.increase_volume && c != kb.decrease_volume && c != kb.seek_backward && c
            != kb.seek_forward && c != kb.toggle_loop && c != kb.prev_song && c == kb.next_song
            ==> spec_control_for_key(Key::Char(c), kb) == SongControl::NextSong,
        c != kb.increase_volume && c != kb.decrease_volume && c != kb.seek_backward && c
            != kb.seek_forward && c != kb.toggle_loop && c != kb.prev_song && c != kb.next_song && c
            == kb.pause ==> spec_control_for_key(Key::Char(c), kb) == SongControl::TogglePause,
        c != kb.increase_volume && c != kb.decrease_volume && c != kb.seek_backward && c
            != kb.seek_forward && c != kb.toggle_loop && c != kb.prev_song && c != kb.next_song && c
            != kb.pause && c == kb.quit ==> spec_control_for_key(Key::Char(c), kb)
            == SongControl::DestroyAndExit,
        c != kb.increase_volume && c != kb.decrease_volume && c != kb.seek_backward && c
            != kb.seek_forward && c != kb.toggle_loop && c != kb.prev_song && c != kb.next_song && c
            != kb.pause && c != kb.quit ==> spec_control_for_key(Key::Char(c), kb) == SongControl::No,
{
}

/// The keys that do not go through the bindings: the arrows change the
/// volume (up, down) and seek (left, right), Ctrl-C exits, and every other
/// key that is not a plain character does nothing.
pub proof fn lemma_fixed_keys(key: Key, kb: Keybinds)
    ensures
        key == Key::Up ==> spec_control_for_key(key, kb) == SongControl::VolumeUp,
        key == Key::Down ==> spec_control_for_key(key, kb) == SongControl::VolumeDown,
        key == Key::Left ==> spec_control_for_key(key, kb) == SongControl::SeekBackward,
        key == Key::Right ==> spec_control_for_key(key, kb) == SongControl::SeekForward,
        key == Key::Ctrl('c') ==> spec_control_for_key(key, kb) == SongControl::DestroyAndExit,
        (key is Ctrl && key->Ctrl_0 != 'c') ==> spec_control_for_key(key, kb) == SongControl::No,
        !(key is Up || key is Down || key is Left || key is Right || key is Char || key is Ctrl)
            ==> spec_control_for_key(key, kb) == SongControl::No,
{
}

} // verus!
