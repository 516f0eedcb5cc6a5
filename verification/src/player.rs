use vstd::prelude::*;
use crate::controls::{FileFormat, RenderMode, SongControl};
use crate::normalize::{replace_first, replace_first_tilde, texts};

verus! {

// ---------------------------------------------------------------------------
// Building the playlist
// ---------------------------------------------------------------------------

/// Where the playlist comes from.
#[derive(Debug, Clone, Copy, PartialEq, Eq, Structural)]
pub enum PlaylistSource {
    /// The media files given on the command line.
    Arguments,
    /// The playlist file given as the only argument.
    PlaylistFile,
}

/// Why the player cannot start.
#[derive(Debug, Clone, Copy, PartialEq, Eq, Structural)]
pub enum StartupError {
    /// No media file or playlist was given.
    MissingArgument,
}

/// Chooses where the playlist comes from, given the number of command-line
/// arguments (the program's own name included) and, when there is exactly one
/// argument besides it, that argument's format.
pub fn playlist_source(arg_count: usize, first_arg_format: Option<FileFormat>) -> (r: Result<
    PlaylistSource,
    StartupError,
>)
    requires
        arg_count == 2 ==> first_arg_format is Some,
    ensures
        arg_count < 2 ==> r == Err::<PlaylistSource, StartupError>(StartupError::MissingArgument),
        arg_count == 2 ==> r == Ok::<PlaylistSource, StartupError>(
            if first_arg_format == Some(FileFormat::Audio) {
                PlaylistSource::Arguments
            } else {
                PlaylistSource::PlaylistFile
            },
        ),
        arg_count > 2 ==> r == Ok::<PlaylistSource, StartupError>(PlaylistSource::Arguments),
{
    if arg_count < 2 {
        Err(StartupError::MissingArgument)
    } else if arg_count == 2 {
        match first_arg_format {
            Some(FileFormat::Audio) => Ok(PlaylistSource::Arguments),
            _ => Ok(PlaylistSource::PlaylistFile),
        }
    } else {
        Ok(PlaylistSource::Arguments)
    }
}

/// The arguments after the program's name whose format is audio, in order;
/// `formats[i]` is the format of `args[i + 1]`.
pub open spec fn audio_arguments(args: Seq<Seq<char>>, formats: Seq<FileFormat>) -> Seq<Seq<char>> {
    Seq::new(formats.len(), |i: int| i).filter_map(
        |i: int|
            if formats[i] == FileFormat::Audio {
                Some(args[i + 1])
            } else {
                None
            },
    )
}

/// The render mode and playlist for media files given on the command line
/// (`args[0]` is the program itself).
///
/// With more than one file, the user interface is drawn in full and the
/// playlist holds the files whose format (`formats[i]` for `args[i + 1]`) is
/// audio. With a single file, the interface is drawn in safe mode and the
/// playlist holds that file.
pub fn parse_playlist_vec(args: &Vec<String>, formats: &Vec<FileFormat>) -> (r: (
    RenderMode,
    Vec<String>,
))
    requires
        args@.len() >= 2,
        args@.len() > 2 ==> formats@.len() == args@.len() - 1,
    ensures
        args@.len() > 2 ==> r.0 == RenderMode::Full && texts(r.1@) == audio_arguments(
            texts(args@),
            formats@,
        ),
        args@.len() == 2 ==> r.0 == RenderMode::Safe && texts(r.1@) == seq![args@[1]@],
{
    let mut out: Vec<String> = Vec::new();
    if args.len() > 2 {
        let ghost idx = Seq::new(formats@.len(), |i: int| i);
        let ghost f = |i: int|
            if formats@[i] == FileFormat::Audio {
                Some(texts(args@)[i + 1])
            } else {
                None
            };
        let mut i: usize = 0;
        while i < formats.len()
            invariant
                i <= formats@.len(),
                formats@.len() == args@.len() - 1,
                idx == Seq::new(formats@.len(), |i: int| i),
                f == (|i: int|
                    if formats@[i] == FileFormat::Audio {
                        Some(texts(args@)[i + 1])
                    } else {
                        None
                    }),
                texts(out@) == idx.take(i as int).filter_map(f),
            decreases formats.len() - i,
        {
            proof {
                idx.lemma_filter_map_take_succ(f, i as int);
            }
            if formats[i] == FileFormat::Audio {
                out.push(args[i + 1].clone());
                assert(texts(out@) =~= idx.take(i as int).filter_map(f) + seq![texts(args@)[i + 1]]);
            }
            i += 1;
        }
        assert(idx.take(formats@.len() as int) =~= idx);
        assert(audio_arguments(texts(args@), formats@) == idx.filter_map(f)) by {
            assert(f =~= (|i: int|
                if formats@[i] == FileFormat::Audio {
                    Some(texts(args@)[i + 1])
                } else {
                    None
                }));
        }
        (RenderMode::Full, out)
    } else {
        out.push(args[1].clone());
        assert(texts(out@) =~= seq![args@[1]@]);
        (RenderMode::Safe, out)
    }
}

/// `line` begins with `//`: it is a comment.
pub open spec fn is_comment(line: Seq<char>) -> bool {
    line.len() >= 2 && line[0] == '/' && line[1] == '/'
}

/// The playlist entry for one line of a playlist file: nothing for a line
/// that could not be read or a comment; otherwise the line with its first
/// `~` replaced by the home directory.
pub open spec fn spec_playlist_entry(line: Option<Seq<char>>, home: Seq<char>) -> Option<Seq<char>> {
    match line {
        None => None,
        Some(l) => if is_comment(l) {
            None
        } else {
            Some(replace_first(l, '~', home))
        },
    }
}

/// The text of each optional line.
pub open spec fn opt_texts(lines: Seq<Option<String>>) -> Seq<Option<Seq<char>>> {
    lines.map_values(
        |o: Option<String>|
            match o {
                Some(s) => Some(s@),
                None => None,
            },
    )
}

/// Whether a line begins with `//`.
fn starts_with_comment(line: &str) -> (r: bool)
    ensures
        r == is_comment(line@),
{
    let n = line.unicode_len();
    n >= 2 && line.get_char(0) == '/' && line.get_char(1) == '/'
}

/// The candidate entries of a playlist file, one per line, in order (`None`
/// stands for a line that could not be read): unreadable lines and comments
/// (lines that begin with `//`) are skipped, and the first `~` of every other
/// line is replaced by the home directory. Whether each candidate names a
/// file that exists is for the caller to check.
pub fn parse_playlist(lines: &Vec<Option<String>>, home: &str) -> (r: Vec<String>)
    ensures
        texts(r@) == opt_texts(lines@).filter_map(
            |l: Option<Seq<char>>| spec_playlist_entry(l, home@),
        ),
{
    let mut out: Vec<String> = Vec::new();
    let ghost f = |l: Option<Seq<char>>| spec_playlist_entry(l, home@);
    let mut i: usize = 0;
    while i < lines.len()
        invariant
            i <= lines.len(),
            f == (|l: Option<Seq<char>>| spec_playlist_entry(l, home@)),
            texts(out@) == opt_texts(lines@).take(i as int).filter_map(f),
        decreases lines.len() - i,
    {
        proof {
            opt_texts(lines@).lemma_filter_map_take_succ(f, i as int);
        }
        match &lines[i] {
            Some(line) => {
                if !starts_with_comment(line.as_str()) {
                    let entry = replace_first_tilde(line.as_str(), home);
                    out.push(entry);
                    assert(texts(out@) =~= opt_texts(lines@).take(i as int).filter_map(f)
                        + seq![f(opt_texts(lines@)[i as int]).unwrap()]);
                }
            },
            None => {},
        }
        i += 1;
    }
    assert(opt_texts(lines@).take(lines.len() as int) =~= opt_texts(lines@));
    out
}

// ---------------------------------------------------------------------------
// Removing the entries that are not audio
// ---------------------------------------------------------------------------

/// The playlist after the first `k` steps of the pruning pass: at step `j`,
/// when entry `j` of the playlist as it was before the pass is not audio (`!audio[j]`), the
/// element at position `j` of the playlist as it stands is removed. (Earlier
/// removals shift later entries, so position `j` need no longer hold the
/// entry that stood there before the pass.)
pub open spec fn prune_steps<T>(p: Seq<T>, audio: Seq<bool>, k: nat) -> Seq<T>
    decreases k,
{
    if k == 0 {
        p
    } else {
        let q = prune_steps(p, audio, (k - 1) as nat);
        if audio[k - 1] {
            q
        } else {
            q.remove(k - 1)
        }
    }
}

/// The length of the playlist after the first `k` steps of the pruning pass.
pub open spec fn pruned_len(len: int, audio: Seq<bool>, k: nat) -> int
    decreases k,
{
    if k == 0 {
        len
    } else {
        pruned_len(len, audio, (k - 1) as nat) - if audio[k - 1] {
            0int
        } else {
            1int
        }
    }
}

/// Every removal of the pruning pass falls inside the playlist as it stands
/// at that step.
pub open spec fn prune_in_bounds(len: int, audio: Seq<bool>) -> bool {
    forall|k: nat| k < audio.len() && !audio[k as int] ==> k < #[trigger] pruned_len(len, audio, k)
}

proof fn lemma_prune_steps_len<T>(p: Seq<T>, audio: Seq<bool>, k: nat)
    requires
        k <= audio.len(),
        prune_in_bounds(p.len() as int, audio),
    ensures
        prune_steps(p, audio, k).len() == pruned_len(p.len() as int, audio, k),
    decreases k,
{
    if k > 0 {
        lemma_prune_steps_len(p, audio, (k - 1) as nat);
        assert(!audio[k - 1] ==> (k - 1) < pruned_len(p.len() as int, audio, (k - 1) as nat));
    }
}

/// Whether the pruning pass on a playlist of `len` entries stays inside the
/// playlist at every removal.
pub fn pruning_in_bounds(len: usize, audio: &Vec<bool>) -> (r: bool)
    ensures
        r == prune_in_bounds(len as int, audio@),
{
    let mut cur: usize = len;
    let mut k: usize = 0;
    while k < audio.len()
        invariant
            k <= audio@.len(),
            cur as int == pruned_len(len as int, audio@, k as nat),
            forall|j: nat| j < k && !audio@[j as int] ==> j < #[trigger] pruned_len(len as int, audio@, j),
        decreases audio.len() - k,
    {
        if !audio[k] {
            if k >= cur {
                assert(!(k < pruned_len(len as int, audio@, k as nat)));
                return false;
            }
            cur -= 1;
        }
        k += 1;
    }
    true
}

/// Removes the entries that are not audio, as the pruning pass does: for
/// each position `j` of the playlist as it was before the pass, in order, when `audio[j]` is
/// false the element at position `j` of the playlist as it then stands is
/// removed. The caller checks [`pruning_in_bounds`] first.
pub fn prune_playlist(playlist: &mut Vec<String>, audio: &Vec<bool>)
    requires
        prune_in_bounds(old(playlist)@.len() as int, audio@),
    ensures
        final(playlist)@ == prune_steps(old(playlist)@, audio@, audio@.len()),
{
    let ghost p0 = playlist@;
    let mut k: usize = 0;
    while k < audio.len()
        invariant
            k <= audio@.len(),
            prune_in_bounds(p0.len() as int, audio@),
            playlist@ == prune_steps(p0, audio@, k as nat),
        decreases audio.len() - k,
    {
        proof {
            lemma_prune_steps_len(p0, audio@, k as nat);
        }
        if !audio[k] {
            assert(k < pruned_len(p0.len() as int, audio@, k as nat));
            playlist.remove(k);
        }
        k += 1;
    }
}

/// When every entry is audio, the pruning pass leaves the playlist as it is.
pub proof fn lemma_prune_all_audio<T>(p: Seq<T>, audio: Seq<bool>)
    requires
        forall|j: int| 0 <= j < audio.len() ==> #[trigger] audio[j],
    ensures
        prune_in_bounds(p.len() as int, audio),
        prune_steps(p, audio, audio.len()) == p,
{
    assert forall|k: nat| k <= audio.len() implies #[trigger] prune_steps(p, audio, k) == p
        && pruned_len(p.len() as int, audio, k) == p.len() by {
        lemma_prune_all_audio_upto(p, audio, k);
    }
}

proof fn lemma_prune_all_audio_upto<T>(p: Seq<T>, audio: Seq<bool>, k: nat)
    requires
        k <= audio.len(),
        forall|j: int| 0 <= j < audio.len() ==> #[trigger] audio[j],
    ensures
        prune_steps(p, audio, k) == p,
        pruned_len(p.len() as int, audio, k) == p.len(),
    decreases k,
{
    if k > 0 {
        lemma_prune_all_audio_upto(p, audio, (k - 1) as nat);
        assert(audio[k - 1]);
    }
}

// ---------------------------------------------------------------------------
// Moving through the playlist
// ---------------------------------------------------------------------------

/// The index after a request for the next song: none when the playlist has a
/// single song or the current song is the last one.
pub open spec fn spec_next_index(index: int, len: int) -> Option<int> {
    if len == 1 || index + 1 >= len {
        None
    } else {
        Some(index + 1)
    }
}

/// The index after a request for the previous song: none at the first song.
pub open spec fn spec_prev_index(index: int) -> Option<int> {
    if index == 0 {
        None
    } else {
        Some(index - 1)
    }
}

/// What the input thread does with a control read from the keyboard.
#[derive(Debug, Clone, Copy, PartialEq, Eq, Structural)]
pub enum InputStep {
    /// Tell the audio thread to shut down, and stop reading input.
    Exit,
    /// Nothing to do.
    Ignore,
    /// Store the new song index, if any, then send the control to the
    /// rendering and audio threads.
    Forward { control: SongControl, new_index: Option<usize> },
}

/// The input thread's reaction to `control` while song `index` of a playlist
/// of `len` songs is playing.
pub open spec fn spec_input_step(control: SongControl, index: usize, len: usize) -> InputStep {
    match control {
        SongControl::DestroyAndExit => InputStep::Exit,
        SongControl::NextSong => match spec_next_index(index as int, len as int) {
            Some(j) => InputStep::Forward { control, new_index: Some(j as usize) },
            None => InputStep::Ignore,
        },
        SongControl::PrevSong => match spec_prev_index(index as int) {
            Some(j) => InputStep::Forward { control, new_index: Some(j as usize) },
            None => InputStep::Ignore,
        },
        SongControl::No => InputStep::Ignore,
        _ => InputStep::Forward { control, new_index: None },
    }
}

/// The input thread's reaction to `control` while song `index` of a playlist
/// of `len` songs is playing.
pub fn input_step(control: SongControl, index: usize, len: usize) -> (r: InputStep)
    requires
        control == SongControl::NextSong ==> index < usize::MAX,
    ensures
        r == spec_input_step(control, index, len),
{
    match control {
        SongControl::DestroyAndExit => InputStep::Exit,
        SongControl::NextSong => {
            if len == 1 || index + 1 >= len {
                InputStep::Ignore
            } else {
                InputStep::Forward { control, new_index: Some(index + 1) }
            }
        },
        SongControl::PrevSong => match index.checked_sub(1) {
            Some(j) => InputStep::Forward { control, new_index: Some(j) },
            None => InputStep::Ignore,
        },
        SongControl::No => InputStep::Ignore,
        _ => InputStep::Forward { control, new_index: None },
    }
}

/// Moving to the next song and then back to the previous one returns to the
/// song that was playing.
pub proof fn lemma_next_then_prev(index: usize, len: usize)
    requires
        index < usize::MAX,
        spec_input_step(SongControl::NextSong, index, len) is Forward,
    ensures
        ({
            let j = spec_input_step(SongControl::NextSong, index, len)->new_index->0;
            &&& j < len
            &&& spec_input_step(SongControl::PrevSong, j, len) == (InputStep::Forward {
                control: SongControl::PrevSong,
                new_index: Some(index),
            })
        }),
{
}

/// Moving to the previous song and then to the next one returns to the song
/// that was playing, when that song lies in the playlist.
pub proof fn lemma_prev_then_next(index: usize, len: usize)
    requires
        index < len,
        spec_input_step(SongControl::PrevSong, index, len) is Forward,
    ensures
        ({
            let j = spec_input_step(SongControl::PrevSong, index, len)->new_index->0;
            &&& j < index
            &&& spec_input_step(SongControl::NextSong, j, len) == (InputStep::Forward {
                control: SongControl::NextSong,
                new_index: Some(index),
            })
        }),
{
}

/// A song index that lies in the playlist stays in it whatever the input
/// thread does with a control.
pub proof fn lemma_input_keeps_index_in_range(control: SongControl, index: usize, len: usize)
    requires
        index < len,
    ensures
        spec_input_step(control, index, len) matches InputStep::Forward { new_index: Some(j), .. }
            ==> j < len,
{
}

/// What the rendering thread does with a control.
#[derive(Debug, Clone, Copy, PartialEq, Eq, Structural)]
pub enum RenderStep {
    /// Stop rendering.
    Exit,
    /// Keep rendering, with looping set as given.
    Continue { looped: bool },
}

/// The rendering thread's reaction to `control` when looping is `looped`.
pub open spec fn spec_render_step(control: SongControl, looped: bool) -> RenderStep {
    match control {
        SongControl::DestroyAndExit => RenderStep::Exit,
        SongControl::ToggleLoop => RenderStep::Continue { looped: !looped },
        _ => RenderStep::Continue { looped },
    }
}

/// Toggling looping twice restores the setting.
pub proof fn lemma_toggle_loop_twice(looped: bool)
    ensures
        spec_render_step(SongControl::ToggleLoop, looped) matches RenderStep::Continue { looped: once }
            && spec_render_step(SongControl::ToggleLoop, once) == (RenderStep::Continue { looped }),
{
}

/// The rendering thread's reaction to `control` when looping is `looped`:
/// exit on `DestroyAndExit`, flip looping on `ToggleLoop`, and otherwise go
/// on as before.
pub fn render_step(control: SongControl, looped: bool) -> (r: RenderStep)
    ensures
        r == spec_render_step(control, looped),
{
    match control {
        SongControl::DestroyAndExit => RenderStep::Exit,
        SongControl::ToggleLoop => RenderStep::Continue { looped: !looped },
        _ => RenderStep::Continue { looped },
    }
}

/// What the audio thread does with a control.
#[derive(Debug, Clone, Copy, PartialEq, Eq, Structural)]
pub enum AudioCommand {
    /// Tell the rendering thread to exit, wait for it, and stop.
    Exit,
    /// Load the song at the (already updated) song index.
    ReloadSong,
    TogglePause,
    VolumeUp,
    VolumeDown,
    SeekForward,
    SeekBackward,
    /// The control does not concern audio.
    Ignore,
}

/// The audio thread's reaction to a control.
pub open spec fn spec_audio_command(control: SongControl) -> AudioCommand {
    match control {
        SongControl::DestroyAndExit => AudioCommand::Exit,
        SongControl::PrevSong => AudioCommand::ReloadSong,
        SongControl::NextSong => AudioCommand::ReloadSong,
        SongControl::TogglePause => AudioCommand::TogglePause,
        SongControl::VolumeUp => AudioCommand::VolumeUp,
        SongControl::VolumeDown => AudioCommand::VolumeDown,
        SongControl::SeekForward => AudioCommand::SeekForward,
        SongControl::SeekBackward => AudioCommand::SeekBackward,
        _ => AudioCommand::Ignore,
    }
}

/// The audio thread's reaction to a control.
pub fn audio_command(control: SongControl) -> (r: AudioCommand)
    ensures
        r == spec_audio_command(control),
{
    match control {
        SongControl::DestroyAndExit => AudioCommand::Exit,
        SongControl::PrevSong => AudioCommand::ReloadSong,
        SongControl::NextSong => AudioCommand::ReloadSong,
        SongControl::TogglePause => AudioCommand::TogglePause,
        SongControl::VolumeUp => AudioCommand::VolumeUp,
        SongControl::VolumeDown => AudioCommand::VolumeDown,
        SongControl::SeekForward => AudioCommand::SeekForward,
        SongControl::SeekBackward => AudioCommand::SeekBackward,
        _ => AudioCommand::Ignore,
    }
}

/// What the audio thread does when the current song has finished.
#[derive(Debug, Clone, Copy, PartialEq, Eq, Structural)]
pub enum SongEnd {
    /// Play the same song again.
    Replay,
    /// Move to `next_index` and load that song; when `playlist_over`, first
    /// ask the audio thread itself to exit.
    Advance { next_index: usize, playlist_over: bool },
}

/// The audio thread's reaction to the end of song `index` of a playlist of
/// `len` songs: replay it when looping; otherwise move on by one, and when
/// the song was the last one, also ask to exit.
pub fn song_end_step(index: usize, len: usize, looped: bool) -> (r: SongEnd)
    requires
        !looped ==> len >= 1 && index < usize::MAX,
    ensures
        r == (if looped {
            SongEnd::Replay
        } else {
            SongEnd::Advance { next_index: (index + 1) as usize, playlist_over: index >= len - 1 }
        }),
{
    if looped {
        SongEnd::Replay
    } else {
        SongEnd::Advance { next_index: index + 1, playlist_over: index >= len - 1 }
    }
}

// ---------------------------------------------------------------------------
// Laws
// ---------------------------------------------------------------------------

/// Reading a playlist file: every readable line that does not begin with
/// `//` gives exactly one entry, in order, equal to the line with its first
/// `~` replaced by `home`; unreadable lines and comments give none.
pub proof fn lemma_playlist_entries(lines: Seq<Option<Seq<char>>>, home: Seq<char>)
    ensures
        lines.filter_map(|l: Option<Seq<char>>| spec_playlist_entry(l, home)) == lines.filter(
            |l: Option<Seq<char>>|
                l is Some && !(l->0.len() >= 2 && l->0[0] == '/' && l->0[1] == '/'),
        ).map_values(|l: Option<Seq<char>>| replace_first(l->0, '~', home)),
        lines.filter_map(|l: Option<Seq<char>>| spec_playlist_entry(l, home)).len() == lines.filter(
            |l: Option<Seq<char>>|
                l is Some && !(l->0.len() >= 2 && l->0[0] == '/' && l->0[1] == '/'),
        ).len(),
{
    let f = |l: Option<Seq<char>>| spec_playlist_entry(l, home);
    let p = |l: Option<Seq<char>>|
        l is Some && !(l->0.len() >= 2 && l->0[0] == '/' && l->0[1] == '/');
    let g = |l: Option<Seq<char>>| replace_first(l->0, '~', home);
    assert forall|x: Option<Seq<char>>| #[trigger] f(x) == if p(x) {
        Some(g(x))
    } else {
        None::<Seq<char>>
    } by {}
    crate::seq_facts::lemma_filter_map_as_filter(lines, f, p, g);
}

/// The playlist built from several command-line files: the arguments
/// `args[i + 1]` whose format `formats[i]` is audio, in order, and nothing
/// else; as many entries as there are audio formats.
pub proof fn lemma_audio_arguments(args: Seq<Seq<char>>, formats: Seq<FileFormat>)
    ensures
        audio_arguments(args, formats) == Seq::new(formats.len(), |i: int| i).filter(
            |i: int| formats[i] == FileFormat::Audio,
        ).map_values(|i: int| args[i + 1]),
        audio_arguments(args, formats).len() == formats.filter(
            |x: FileFormat| x == FileFormat::Audio,
        ).len(),
        forall|k: int|
            0 <= k < audio_arguments(args, formats).len() ==> exists|i: int|
                0 <= i < formats.len() && formats[i] == FileFormat::Audio && (#[trigger] audio_arguments(
                    args,
                    formats,
                )[k]) == args[i + 1],
{
    let idx = Seq::new(formats.len(), |i: int| i);
    let f = |i: int|
        if formats[i] == FileFormat::Audio {
            Some(args[i + 1])
        } else {
            None
        };
    let p = |i: int| formats[i] == FileFormat::Audio;
    let g = |i: int| args[i + 1];
    assert forall|x: int| #[trigger] f(x) == if p(x) { Some(g(x)) } else { None::<Seq<char>> } by {}
    crate::seq_facts::lemma_filter_map_as_filter(idx, f, p, g);
    assert(audio_arguments(args, formats) == idx.filter_map(f));
    let h = |i: int| formats[i];
    let q = |x: FileFormat| x == FileFormat::Audio;
    assert forall|x: int| #[trigger] p(x) == q(h(x)) by {}
    crate::seq_facts::lemma_map_then_filter_len(idx, h, q, p);
    assert(idx.map_values(h) =~= formats);
    assert forall|k: int| 0 <= k < audio_arguments(args, formats).len() implies exists|i: int|
        0 <= i < formats.len() && formats[i] == FileFormat::Audio && (#[trigger] audio_arguments(
            args,
            formats,
        )[k]) == args[i + 1] by {
        let kept = idx.filter(p);
        let i = kept[k];
        idx.lemma_filter_pred(p, k);
        assert(kept.contains(i));
        idx.lemma_filter_contains_rev(p, i);
        let j = choose|j: int| 0 <= j < idx.len() && idx[j] == i;
        assert(0 <= i < formats.len());
    }
}

/// The input thread's reaction, control by control: `DestroyAndExit` exits,
/// `No` is ignored, the next song moves the index up by one unless the
/// playlist has a single song or the last song plays, the previous song moves
/// it down by one unless the first song plays, and every other control is
/// forwarded as it is, without touching the index.
pub proof fn lemma_input_step_by_control(control: SongControl, index: usize, len: usize)
    ensures
        control == SongControl::DestroyAndExit ==> spec_input_step(control, index, len)
            == InputStep::Exit,
        control == SongControl::No ==> spec_input_step(control, index, len) == InputStep::Ignore,
        control == SongControl::NextSong && len != 1 && index + 1 < len ==> spec_input_step(
            control,
            index,
            len,
        ) == (InputStep::Forward { control: SongControl::NextSong, new_index: Some((index + 1) as usize) }),
        control == SongControl::NextSong && (len == 1 || index + 1 >= len) ==> spec_input_step(
            control,
            index,
            len,
        ) == InputStep::Ignore,
        control == SongControl::PrevSong && index > 0 ==> spec_input_step(control, index, len) == (
        InputStep::Forward { control: SongControl::PrevSong, new_index: Some((index - 1) as usize) }),
        control == SongControl::PrevSong && index == 0 ==> spec_input_step(control, index, len)
            == InputStep::Ignore,
        control != SongControl::DestroyAndExit && control != SongControl::NextSong && control
            != SongControl::PrevSong && control != SongControl::No ==> spec_input_step(
            control,
            index,
            len,
        ) == (InputStep::Forward { control, new_index: None }),
{
}

/// The rendering thread stops on `DestroyAndExit`, flips looping on
/// `ToggleLoop`, and keeps looping as it is on every other control.
pub proof fn lemma_render_step_by_control(control: SongControl, looped: bool)
    ensures
        control == SongControl::DestroyAndExit ==> spec_render_step(control, looped)
            == RenderStep::Exit,
        control == SongControl::ToggleLoop ==> spec_render_step(control, looped) == (
        RenderStep::Continue { looped: !looped }),
        control != SongControl::DestroyAndExit && control != SongControl::ToggleLoop
            ==> spec_render_step(control, looped) == (RenderStep::Continue { looped }),
{
}

/// The audio thread's reaction, control by control: exit, reload the song on
/// a move through the playlist, act on pausing, volume and seeking, and
/// ignore the rest.
pub proof fn lemma_audio_command_by_control(control: SongControl)
    ensures
        control == SongControl::DestroyAndExit ==> spec_audio_command(control) == AudioCommand::Exit,
        control == SongControl::NextSong ==> spec_audio_command(control) == AudioCommand::ReloadSong,
        control == SongControl::PrevSong ==> spec_audio_command(control) == AudioCommand::ReloadSong,
        control == SongControl::TogglePause ==> spec_audio_command(control)
            == AudioCommand::TogglePause,
        control == SongControl::VolumeUp ==> spec_audio_command(control) == AudioCommand::VolumeUp,
        control == SongControl::VolumeDown ==> spec_audio_command(control)
            == AudioCommand::VolumeDown,
        control == SongControl::SeekForward ==> spec_audio_command(control)
            == AudioCommand::SeekForward,
        control == SongControl::SeekBackward ==> spec_audio_command(control)
            == AudioCommand::SeekBackward,
        control == SongControl::ToggleLoop || control == SongControl::Pause || control
            == SongControl::Resume || control == SongControl::No || control == SongControl::Unset
            ==> spec_audio_command(control) == AudioCommand::Ignore,
{
}

proof fn lemma_prune_single_upto<T>(p: Seq<T>, audio: Seq<bool>, j: int, k: nat)
    requires
        0 <= j < audio.len(),
        j < p.len(),
        k <= audio.len(),
        !audio[j],
        forall|i: int| 0 <= i < audio.len() && i != j ==> #[trigger] audio[i],
    ensures
        prune_steps(p, audio, k) == if k <= j {
            p
        } else {
            p.remove(j)
        },
    decreases k,
{
    if k > 0 {
        lemma_prune_single_upto(p, audio, j, (k - 1) as nat);
    }
}

/// When exactly one entry, at position `j`, is not audio, the pruning pass
/// stays in bounds and removes exactly that entry.
pub proof fn lemma_prune_single(p: Seq<String>, audio: Seq<bool>, j: int)
    requires
        audio.len() == p.len(),
        0 <= j < audio.len(),
        !audio[j],
        forall|i: int| 0 <= i < audio.len() && i != j ==> #[trigger] audio[i],
    ensures
        prune_in_bounds(p.len() as int, audio),
        prune_steps(p, audio, audio.len()) == p.remove(j),
{
    lemma_prune_single_upto(p, audio, j, audio.len());
    assert forall|k: nat| k < audio.len() && !audio[k as int] implies k < #[trigger] pruned_len(
        p.len() as int,
        audio,
        k,
    ) by {
        assert(k == j);
        lemma_pruned_len_all_audio_before(p.len() as int, audio, k);
    }
}

proof fn lemma_pruned_len_all_audio_before(len: int, audio: Seq<bool>, k: nat)
    requires
        k <= audio.len(),
        forall|i: int| 0 <= i < k ==> #[trigger] audio[i],
    ensures
        pruned_len(len, audio, k) == len,
    decreases k,
{
    if k > 0 {
        lemma_pruned_len_all_audio_before(len, audio, (k - 1) as nat);
    }
}

proof fn lemma_prune_two_upto<T>(p: Seq<T>, audio: Seq<bool>, j1: int, j2: int, k: nat)
    requires
        0 <= j1 < j2 < audio.len(),
        j2 < p.len() - 1,
        k <= audio.len(),
        !audio[j1],
        !audio[j2],
        forall|i: int| 0 <= i < audio.len() && i != j1 && i != j2 ==> #[trigger] audio[i],
    ensures
        prune_steps(p, audio, k) == if k <= j1 {
            p
        } else if k <= j2 {
            p.remove(j1)
        } else {
            p.remove(j1).remove(j2)
        },
        pruned_len(p.len() as int, audio, k) == if k <= j1 {
            p.len() as int
        } else if k <= j2 {
            p.len() - 1
        } else {
            p.len() - 2
        },
    decreases k,
{
    if k > 0 {
        lemma_prune_two_upto(p, audio, j1, j2, (k - 1) as nat);
    }
}

/// With exactly two entries that are not audio, at positions `j1 < j2`, the
/// pass removes position `j1` and then position `j2` of the shortened
/// playlist (the entry that followed the second one), which stays in bounds
/// exactly when the second one is not the last entry.
pub proof fn lemma_prune_two(p: Seq<String>, audio: Seq<bool>, j1: int, j2: int)
    requires
        audio.len() == p.len(),
        0 <= j1 < j2 < audio.len(),
        !audio[j1],
        !audio[j2],
        forall|i: int| 0 <= i < audio.len() && i != j1 && i != j2 ==> #[trigger] audio[i],
    ensures
        prune_in_bounds(p.len() as int, audio) <==> j2 < p.len() - 1,
        j2 < p.len() - 1 ==> prune_steps(p, audio, audio.len()) == p.remove(j1).remove(j2),
{
    if j2 < p.len() - 1 {
        lemma_prune_two_upto(p, audio, j1, j2, audio.len());
        assert forall|k: nat| k < audio.len() && !audio[k as int] implies k < #[trigger] pruned_len(
            p.len() as int,
            audio,
            k,
        ) by {
            lemma_prune_two_upto(p, audio, j1, j2, k);
        }
    } else {
        lemma_pruned_len_all_audio_before(p.len() as int, audio, j1 as nat);
        assert(pruned_len(p.len() as int, audio, (j1 + 1) as nat) == p.len() - 1);
        lemma_pruned_len_between(p.len() as int, audio, (j1 + 1) as nat, j2 as nat);
        assert(!(j2 < pruned_len(p.len() as int, audio, j2 as nat)));
        assert(!prune_in_bounds(p.len() as int, audio)) by {
            let k = j2 as nat;
            assert(k < audio.len() && !audio[k as int]);
        }
    }
}

proof fn lemma_pruned_len_between(len: int, audio: Seq<bool>, a: nat, k: nat)
    requires
        a <= k <= audio.len(),
        forall|i: int| a <= i < k ==> #[trigger] audio[i],
    ensures
        pruned_len(len, audio, k) == pruned_len(len, audio, a),
    decreases k,
{
    if k > a {
        lemma_pruned_len_between(len, audio, a, (k - 1) as nat);
    }
}

} // verus!
