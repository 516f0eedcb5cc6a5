use encore::player::{
    audio_command, input_step, parse_playlist, parse_playlist_vec, playlist_source,
    prune_playlist, pruning_in_bounds, render_step, song_end_step, AudioCommand, InputStep,
    PlaylistSource, RenderStep, SongEnd, StartupError,
};
use encore::{FileFormat, RenderMode, SongControl};

fn strings(v: &[&str]) -> Vec<String> {
    v.iter().map(|s| s.to_string()).collect()
}

#[test]
fn missing_argument() {
    assert_eq!(playlist_source(0, None), Err(StartupError::MissingArgument));
    assert_eq!(playlist_source(1, None), Err(StartupError::MissingArgument));
}

#[test]
fn single_argument_source_depends_on_format() {
    assert_eq!(playlist_source(2, Some(FileFormat::Audio)), Ok(PlaylistSource::Arguments));
    assert_eq!(playlist_source(2, Some(FileFormat::Other)), Ok(PlaylistSource::PlaylistFile));
    assert_eq!(playlist_source(3, None), Ok(PlaylistSource::Arguments));
}

#[test]
fn several_files_keep_the_audio_ones() {
    let args = strings(&["encore", "a.flac", "notes.txt", "b.ogg"]);
    let formats = vec![FileFormat::Audio, FileFormat::Other, FileFormat::Audio];
    let (mode, list) = parse_playlist_vec(&args, &formats);
    assert_eq!(mode, RenderMode::Full);
    assert_eq!(list, strings(&["a.flac", "b.ogg"]));
}

#[test]
fn single_file_is_safe_mode() {
    let args = strings(&["encore", "a.flac"]);
    let (mode, list) = parse_playlist_vec(&args, &Vec::new());
    assert_eq!(mode, RenderMode::Safe);
    assert_eq!(list, strings(&["a.flac"]));
}

#[test]
fn playlist_file_lines() {
    let lines = vec![
        Some("// my songs".to_string()),
        Some("~/a.flac".to_string()),
        None,
        Some("/b/~c.ogg".to_string()),
        Some("".to_string()),
        Some("/".to_string()),
    ];
    assert_eq!(parse_playlist(&lines, "/home/u"), strings(&["/home/u/a.flac", "/b//home/uc.ogg", "", "/"]));
}

#[test]
fn pruning_keeps_audio_entries() {
    let mut p = strings(&["a", "b", "c"]);
    let audio = vec![true, false, true];
    assert!(pruning_in_bounds(p.len(), &audio));
    prune_playlist(&mut p, &audio);
    assert_eq!(p, strings(&["a", "c"]));
}

#[test]
fn pruning_all_audio_changes_nothing() {
    let mut p = strings(&["a", "b"]);
    let audio = vec![true, true];
    assert!(pruning_in_bounds(p.len(), &audio));
    prune_playlist(&mut p, &audio);
    assert_eq!(p, strings(&["a", "b"]));
}

#[test]
fn pruning_removes_by_position_after_shifts() {
    // The first removal shifts the rest, so position 1 then holds "c".
    let mut p = strings(&["a", "b", "c"]);
    let audio = vec![false, false, true];
    assert!(pruning_in_bounds(p.len(), &audio));
    prune_playlist(&mut p, &audio);
    assert_eq!(p, strings(&["b"]));
}

#[test]
fn pruning_out_of_bounds_is_detected() {
    assert!(!pruning_in_bounds(2, &vec![false, false]));
    assert!(!pruning_in_bounds(3, &vec![true, false, false]));
}

#[test]
fn next_and_previous_song() {
    assert_eq!(
        input_step(SongControl::NextSong, 0, 3),
        InputStep::Forward { control: SongControl::NextSong, new_index: Some(1) }
    );
    assert_eq!(input_step(SongControl::NextSong, 2, 3), InputStep::Ignore);
    assert_eq!(input_step(SongControl::NextSong, 0, 1), InputStep::Ignore);
    assert_eq!(
        input_step(SongControl::PrevSong, 1, 3),
        InputStep::Forward { control: SongControl::PrevSong, new_index: Some(0) }
    );
    assert_eq!(input_step(SongControl::PrevSong, 0, 3), InputStep::Ignore);
}

#[test]
fn next_then_previous_returns() {
    let j = match input_step(SongControl::NextSong, 1, 4) {
        InputStep::Forward { new_index: Some(j), .. } => j,
        other => panic!("unexpected {other:?}"),
    };
    assert_eq!(
        input_step(SongControl::PrevSong, j, 4),
        InputStep::Forward { control: SongControl::PrevSong, new_index: Some(1) }
    );
}

#[test]
fn other_input_controls() {
    assert_eq!(input_step(SongControl::DestroyAndExit, 0, 3), InputStep::Exit);
    assert_eq!(input_step(SongControl::No, 0, 3), InputStep::Ignore);
    assert_eq!(
        input_step(SongControl::VolumeUp, 0, 3),
        InputStep::Forward { control: SongControl::VolumeUp, new_index: None }
    );
}

#[test]
fn render_steps() {
    assert_eq!(render_step(SongControl::DestroyAndExit, true), RenderStep::Exit);
    assert_eq!(render_step(SongControl::ToggleLoop, false), RenderStep::Continue { looped: true });
    assert_eq!(render_step(SongControl::VolumeUp, true), RenderStep::Continue { looped: true });
}

#[test]
fn toggling_loop_twice_restores() {
    let once = match render_step(SongControl::ToggleLoop, false) {
        RenderStep::Continue { looped } => looped,
        RenderStep::Exit => panic!("unexpected exit"),
    };
    assert_eq!(render_step(SongControl::ToggleLoop, once), RenderStep::Continue { looped: false });
}

#[test]
fn audio_commands() {
    assert_eq!(audio_command(SongControl::DestroyAndExit), AudioCommand::Exit);
    assert_eq!(audio_command(SongControl::NextSong), AudioCommand::ReloadSong);
    assert_eq!(audio_command(SongControl::PrevSong), AudioCommand::ReloadSong);
    assert_eq!(audio_command(SongControl::TogglePause), AudioCommand::TogglePause);
    assert_eq!(audio_command(SongControl::VolumeDown), AudioCommand::VolumeDown);
    assert_eq!(audio_command(SongControl::SeekBackward), AudioCommand::SeekBackward);
    assert_eq!(audio_command(SongControl::ToggleLoop), AudioCommand::Ignore);
    assert_eq!(audio_command(SongControl::Pause), AudioCommand::Ignore);
}

#[test]
fn song_end() {
    assert_eq!(song_end_step(0, 3, true), SongEnd::Replay);
    assert_eq!(song_end_step(0, 3, false), SongEnd::Advance { next_index: 1, playlist_over: false });
    assert_eq!(song_end_step(2, 3, false), SongEnd::Advance { next_index: 3, playlist_over: true });
}
