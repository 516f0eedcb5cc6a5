use vstd::prelude::*;
use crate::controls::SongControl;

verus! {

/// An event sent by the desktop's media controls.
#[derive(Debug, Clone, Copy, PartialEq, Eq, Structural)]
pub enum MediaEvent {
    Play,
    Pause,
    Toggle,
    Next,
    Previous,
    Stop,
    /// Any other event (seeking, volume, shuffle, opening a URI, raising or
    /// quitting the window): the player does not handle it.
    Unsupported,
}

/// The control that a media event stands for; `None` for an event that the
/// player does not handle.
pub open spec fn spec_control_for_media_event(ev: MediaEvent) -> Option<SongControl> {
    match ev {
        MediaEvent::Pause => Some(SongControl::Pause),
        MediaEvent::Play => Some(SongControl::Resume),
        MediaEvent::Toggle => Some(SongControl::TogglePause),
        MediaEvent::Next => Some(SongControl::NextSong),
        MediaEvent::Previous => Some(SongControl::PrevSong),
        MediaEvent::Stop => Some(SongControl::DestroyAndExit),
        MediaEvent::Unsupported => None,
    }
}

/// The control that a media event stands for; `None` for an event that the
/// player does not handle.
pub fn control_for_media_event(ev: MediaEvent) -> (r: Option<SongControl>)
    ensures
        r == spec_control_for_media_event(ev),
{
    match ev {
        MediaEvent::Pause => Some(SongControl::Pause),
        MediaEvent::Play => Some(SongControl::Resume),
        MediaEvent::Toggle => Some(SongControl::TogglePause),
        MediaEvent::Next => Some(SongControl::NextSong),
        MediaEvent::Previous => Some(SongControl::PrevSong),
        MediaEvent::Stop => Some(SongControl::DestroyAndExit),
        MediaEvent::Unsupported => None,
    }
}

/// What the desktop's media controls are told about playback.
#[derive(Debug, Clone, Copy, PartialEq, Eq, Structural)]
pub enum PlaybackState {
    Paused { progress_secs: u64 },
    Playing { progress_secs: u64 },
}

/// The playback state to publish: paused or playing, at the current position.
pub fn playback_state(paused: bool, position_secs: u64) -> (r: PlaybackState)
    ensures
        r == (if paused {
            PlaybackState::Paused { progress_secs: position_secs }
        } else {
            PlaybackState::Playing { progress_secs: position_secs }
        }),
{
    if paused {
        PlaybackState::Paused { progress_secs: position_secs }
    } else {
        PlaybackState::Playing { progress_secs: position_secs }
    }
}

/// The desktop's media events, event by event: pause pauses, play resumes,
/// toggle toggles pausing, next and previous move through the playlist, stop
/// exits, and the player handles no other event.
pub proof fn lemma_media_events(ev: MediaEvent)
    ensures
        ev == MediaEvent::Pause ==> spec_control_for_media_event(ev) == Some(SongControl::Pause),
        ev == MediaEvent::Play ==> spec_control_for_media_event(ev) == Some(SongControl::Resume),
        ev == MediaEvent::Toggle ==> spec_control_for_media_event(ev) == Some(
            SongControl::TogglePause,
        ),
        ev == MediaEvent::Next ==> spec_control_for_media_event(ev) == Some(SongControl::NextSong),
        ev == MediaEvent::Previous ==> spec_control_for_media_event(ev) == Some(
            SongControl::PrevSong,
        ),
        ev == MediaEvent::Stop ==> spec_control_for_media_event(ev) == Some(
            SongControl::DestroyAndExit,
        ),
        ev == MediaEvent::Unsupported ==> spec_control_for_media_event(ev) == None::<SongControl>,
{
}

} // verus!
