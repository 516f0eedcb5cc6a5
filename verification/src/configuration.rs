use vstd::prelude::*;
use crate::controls::ConfigurationPath;

verus! {

/// The player's configuration, as read from its TOML file.
#[derive(Debug)]
pub struct Config {
    pub main: TomlMain,
    pub playlist: TomlPlaylist,
    pub keybinds: Keybinds,
}

/// The `[main]` table.
#[derive(Debug)]
pub struct TomlMain {
    pub crash_on_execute: bool,
}

/// The `[playlist]` table.
#[derive(Debug)]
pub struct TomlPlaylist {
    pub never_use: bool,
    pub highlighted_color: String,
}

/// The `[keybinds]` table: the character that triggers each control.
#[derive(Debug, Clone, Copy)]
pub struct Keybinds {
    pub disable_default_arrow_keys: bool,
    pub disable_default_ctrlc_exit: bool,
    pub increase_volume: char,
    pub decrease_volume: char,
    pub seek_backward: char,
    pub seek_forward: char,
    pub toggle_loop: char,
    pub prev_song: char,
    pub next_song: char,
    pub pause: char,
    pub quit: char,
}

impl TomlMain {
    /// The `[main]` table when the file leaves it out.
    pub open spec fn spec_default() -> TomlMain {
        TomlMain { crash_on_execute: false }
    }
}

impl Keybinds {
    /// The vi-like bindings used when the file leaves them out: `K`/`J` for
    /// volume, `H`/`L` for seeking, `k`/`j` for the previous and next song,
    /// `r` to toggle looping, space to pause and `q` to quit.
    pub open spec fn spec_default() -> Keybinds {
        Keybinds {
            disable_default_arrow_keys: false,
            disable_default_ctrlc_exit: false,
            increase_volume: 'K',
            decrease_volume: 'J',
            seek_backward: 'H',
            seek_forward: 'L',
            toggle_loop: 'r',
            prev_song: 'k',
            next_song: 'j',
            pause: ' ',
            quit: 'q',
        }
    }
}

impl Default for TomlMain {
    fn default() -> (r: TomlMain)
        ensures
            r == TomlMain::spec_default(),
    {
        TomlMain { crash_on_execute: false }
    }
}

impl Default for TomlPlaylist {
    fn default() -> (r: TomlPlaylist)
        ensures
            !r.never_use,
            r.highlighted_color@ == "f5c2e7"@,
    {
        TomlPlaylist { never_use: false, highlighted_color: String::from_str("f5c2e7") }
    }
}

impl Default for Keybinds {
    fn default() -> (r: Keybinds)
        ensures
            r == Keybinds::spec_default(),
    {
        Keybinds {
            disable_default_arrow_keys: false,
            disable_default_ctrlc_exit: false,
            increase_volume: 'K',
            decrease_volume: 'J',
            seek_backward: 'H',
            seek_forward: 'L',
            toggle_loop: 'r',
            prev_song: 'k',
            next_song: 'j',
            pause: ' ',
            quit: 'q',
        }
    }
}

impl Default for Config {
    fn default() -> (r: Config)
        ensures
            r.main == TomlMain::spec_default(),
            !r.playlist.never_use,
            r.playlist.highlighted_color@ == "f5c2e7"@,
            r.keybinds == Keybinds::spec_default(),
    {
        Config { main: TomlMain::default(), playlist: TomlPlaylist::default(), keybinds: Keybinds::default() }
    }
}

/// The operating systems the player knows a configuration location for.
#[derive(Debug, Clone, Copy, PartialEq, Eq, Structural)]
pub enum Platform {
    Linux,
    Windows,
    MacOs,
}

/// The usual location of the configuration file, relative to the home
/// directory, on each platform.
pub open spec fn spec_default_config_path(platform: Platform) -> Seq<char> {
    match platform {
        Platform::Linux => ".config/echotune/echotune.toml"@,
        Platform::Windows => "AppData/Roaming/echotune/echotune.toml"@,
        Platform::MacOs => "Library/Preferences/echotune/echotune.toml"@,
    }
}

/// The usual location of the configuration file on `platform`, relative to
/// the home directory.
pub fn default_config_path(platform: Platform) -> (r: &'static str)
    ensures
        r@ == spec_default_config_path(platform),
{
    match platform {
        Platform::Linux => ".config/echotune/echotune.toml",
        Platform::Windows => "AppData/Roaming/echotune/echotune.toml",
        Platform::MacOs => "Library/Preferences/echotune/echotune.toml",
    }
}

/// The configuration file's location relative to the home directory.
pub open spec fn spec_relative_config_path(path: ConfigurationPath, platform: Platform) -> Seq<char> {
    match path {
        ConfigurationPath::Default => spec_default_config_path(platform),
        ConfigurationPath::Custom(s) => s@,
    }
}

/// The full path of the configuration file: the home directory, a `/`, and
/// the location relative to it.
pub fn config_file_path(home: &str, path: ConfigurationPath, platform: Platform) -> (r: String)
    ensures
        r@ == home@ + seq!['/'] + spec_relative_config_path(path, platform),
{
    let relative: &str = match path {
        ConfigurationPath::Default => default_config_path(platform),
        ConfigurationPath::Custom(s) => s,
    };
    let mut out = String::from_str(home);
    out.append("/");
    out.append(relative);
    proof {
        reveal_strlit("/");
    }
    out
}

/// The defaults, written out: no crash on start, the vi-like bindings `K`
/// and `J` for volume, `H` and `L` for seeking, `r` for looping, `k` and `j`
/// for the previous and next song, space to pause and `q` to quit, with the
/// arrow keys and Ctrl-C left enabled.
pub proof fn lemma_defaults()
    ensures
        !TomlMain::spec_default().crash_on_execute,
        !Keybinds::spec_default().disable_default_arrow_keys,
        !Keybinds::spec_default().disable_default_ctrlc_exit,
        Keybinds::spec_default().increase_volume == 'K',
        Keybinds::spec_default().decrease_volume == 'J',
        Keybinds::spec_default().seek_backward == 'H',
        Keybinds::spec_default().seek_forward == 'L',
        Keybinds::spec_default().toggle_loop == 'r',
        Keybinds::spec_default().prev_song == 'k',
        Keybinds::spec_default().next_song == 'j',
        Keybinds::spec_default().pause == ' ',
        Keybinds::spec_default().quit == 'q',
{
}

/// The configuration file's location, written out: on Linux
/// `~/.config/echotune/echotune.toml`, on Windows
/// `~/AppData/Roaming/echotune/echotune.toml`, on macOS
/// `~/Library/Preferences/echotune/echotune.toml`, and a custom path `p` is
/// `~/p` on every platform.
pub proof fn lemma_config_locations(path: ConfigurationPath, platform: Platform)
    ensures
        path is Default && platform == Platform::Linux ==> spec_relative_config_path(path, platform)
            == ".config/echotune/echotune.toml"@,
        path is Default && platform == Platform::Windows ==> spec_relative_config_path(
            path,
            platform,
        ) == "AppData/Roaming/echotune/echotune.toml"@,
        path is Default && platform == Platform::MacOs ==> spec_relative_config_path(path, platform)
            == "Library/Preferences/echotune/echotune.toml"@,
        path is Custom ==> spec_relative_config_path(path, platform) == path->Custom_0@,
{
}

} // verus!
