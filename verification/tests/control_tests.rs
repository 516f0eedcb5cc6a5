use encore::input::{control_for_key, Key};
use encore::media::{control_for_media_event, playback_state, MediaEvent, PlaybackState};
use encore::{Keybinds, SongControl};

#[test]
fn default_bindings_reach_their_controls() {
    let kb = Keybinds::default();
    let cases = [
        ('K', SongControl::VolumeUp),
        ('J', SongControl::VolumeDown),
        ('H', SongControl::SeekBackward),
        ('L', SongControl::SeekForward),
        ('r', SongControl::ToggleLoop),
        ('k', SongControl::PrevSong),
        ('j', SongControl::NextSong),
        (' ', SongControl::TogglePause),
        ('q', SongControl::DestroyAndExit),
        ('z', SongControl::No),
    ];
    for (c, expected) in cases {
        assert_eq!(control_for_key(&Key::Char(c), &kb), expected);
    }
}

#[test]
fn arrow_keys_and_ctrl_c() {
    let kb = Keybinds::default();
    assert_eq!(control_for_key(&Key::Up, &kb), SongControl::VolumeUp);
    assert_eq!(control_for_key(&Key::Down, &kb), SongControl::VolumeDown);
    assert_eq!(control_for_key(&Key::Left, &kb), SongControl::SeekBackward);
    assert_eq!(control_for_key(&Key::Right, &kb), SongControl::SeekForward);
    assert_eq!(control_for_key(&Key::Ctrl('c'), &kb), SongControl::DestroyAndExit);
    assert_eq!(control_for_key(&Key::Ctrl('x'), &kb), SongControl::No);
    assert_eq!(control_for_key(&Key::F(1), &kb), SongControl::No);
    assert_eq!(control_for_key(&Key::Other(vec![27, 91]), &kb), SongControl::No);
}

#[test]
fn fixed_keys_ignore_custom_bindings() {
    let mut kb = Keybinds::default();
    kb.increase_volume = 'x';
    kb.quit = 'c';
    assert_eq!(control_for_key(&Key::Up, &kb), SongControl::VolumeUp);
    assert_eq!(control_for_key(&Key::Ctrl('c'), &kb), SongControl::DestroyAndExit);
    assert_eq!(control_for_key(&Key::Char('x'), &kb), SongControl::VolumeUp);
    assert_eq!(control_for_key(&Key::Char('K'), &kb), SongControl::No);
}

#[test]
fn earlier_binding_wins_on_a_shared_character() {
    let mut kb = Keybinds::default();
    kb.next_song = 'K';
    assert_eq!(control_for_key(&Key::Char('K'), &kb), SongControl::VolumeUp);
}

#[test]
fn media_events() {
    assert_eq!(control_for_media_event(MediaEvent::Pause), Some(SongControl::Pause));
    assert_eq!(control_for_media_event(MediaEvent::Play), Some(SongControl::Resume));
    assert_eq!(control_for_media_event(MediaEvent::Toggle), Some(SongControl::TogglePause));
    assert_eq!(control_for_media_event(MediaEvent::Next), Some(SongControl::NextSong));
    assert_eq!(control_for_media_event(MediaEvent::Previous), Some(SongControl::PrevSong));
    assert_eq!(control_for_media_event(MediaEvent::Stop), Some(SongControl::DestroyAndExit));
    assert_eq!(control_for_media_event(MediaEvent::Unsupported), None);
}

#[test]
fn playback_states() {
    assert_eq!(playback_state(true, 12), PlaybackState::Paused { progress_secs: 12 });
    assert_eq!(playback_state(false, 0), PlaybackState::Playing { progress_secs: 0 });
}
