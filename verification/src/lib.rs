//! Encore: a lightweight terminal music player.
//!
//! This crate holds the player's decisions as verified functions: how
//! playlist lines are normalised, how a file is classified by its magic
//! number, which control a key press or a media event stands for, where the
//! configuration file lives, and how the playback threads react to each
//! control. Everything that touches the terminal, the disk, the sound card or
//! the desktop bus lives in the application around it.

pub mod controls;
pub mod normalize;
pub mod file_format;
pub mod configuration;
pub mod input;
pub mod media;
pub mod player;
pub mod seq_facts;

pub use controls::{ConfigurationPath, FileFormat, RenderMode, SongControl};
pub use normalize::{normalize, normalize_line, to_vec};
pub use configuration::{Config, Keybinds, TomlMain, TomlPlaylist};
