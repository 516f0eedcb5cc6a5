use vstd::prelude::*;

verus! {

/// A request that travels between the input, rendering and audio threads.
///
/// The value is `Copy`: it is passed around by value and never boxed.
#[derive(Debug, Clone, Copy, PartialEq, Eq, Structural)]
pub enum SongControl {
    VolumeUp,
    VolumeDown,
    SeekForward,
    SeekBackward,
    ToggleLoop,
    PrevSong,
    NextSong,
    TogglePause,
    /// Pause playback (sent by the desktop media controls).
    Pause,
    /// Resume playback (sent by the desktop media controls).
    Resume,
    /// Nothing to do.
    No,
    DestroyAndExit,
    Unset,
}

/// How much of the terminal user interface is drawn.
#[derive(Debug, Clone, Copy, PartialEq, Eq, Structural)]
pub enum RenderMode {
    /// Minimal drawing: the terminal is too small, resources are scarce, the
    /// user asked for it, or only one song is played.
    Safe,
    /// The entire user interface.
    Full,
    NoSpace,
}

impl Default for RenderMode {
    fn default() -> (r: RenderMode)
        ensures
            r == RenderMode::Full,
    {
        RenderMode::Full
    }
}

/// What a file holds, as far as the player cares.
#[derive(Debug, Clone, Copy, PartialEq, Eq, Structural)]
pub enum FileFormat {
    Audio,
    /// Anything that is not a recognised audio file.
    Other,
}

/// Where the configuration file is looked for, relative to the home directory.
#[derive(Debug, Clone, Copy)]
pub enum ConfigurationPath<'a> {
    /// The platform's usual configuration location.
    Default,
    /// A path given by the user.
    Custom(&'a str),
}

} // verus!
