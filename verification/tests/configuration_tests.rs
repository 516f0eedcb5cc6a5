use encore::configuration::{config_file_path, default_config_path, Platform};
use encore::{Config, ConfigurationPath, Keybinds, RenderMode, TomlMain, TomlPlaylist};

#[test]
fn default_keybinds_are_vi_like() {
    let kb = Keybinds::default();
    assert!(!kb.disable_default_arrow_keys);
    assert!(!kb.disable_default_ctrlc_exit);
    assert_eq!(kb.increase_volume, 'K');
    assert_eq!(kb.decrease_volume, 'J');
    assert_eq!(kb.seek_backward, 'H');
    assert_eq!(kb.seek_forward, 'L');
    assert_eq!(kb.toggle_loop, 'r');
    assert_eq!(kb.prev_song, 'k');
    assert_eq!(kb.next_song, 'j');
    assert_eq!(kb.pause, ' ');
    assert_eq!(kb.quit, 'q');
}

#[test]
fn default_main_and_playlist() {
    assert!(!TomlMain::default().crash_on_execute);
    let p = TomlPlaylist::default();
    assert!(!p.never_use);
    assert_eq!(p.highlighted_color, "f5c2e7");
}

#[test]
fn default_config_is_made_of_defaults() {
    let c = Config::default();
    assert!(!c.main.crash_on_execute);
    assert_eq!(c.playlist.highlighted_color, "f5c2e7");
    assert_eq!(c.keybinds.quit, 'q');
}

#[test]
fn default_render_mode_is_full() {
    assert_eq!(RenderMode::default(), RenderMode::Full);
}

#[test]
fn default_paths_per_platform() {
    assert_eq!(default_config_path(Platform::Linux), ".config/echotune/echotune.toml");
    assert_eq!(default_config_path(Platform::Windows), "AppData/Roaming/echotune/echotune.toml");
    assert_eq!(default_config_path(Platform::MacOs), "Library/Preferences/echotune/echotune.toml");
}

#[test]
fn config_path_joins_home_and_relative_path() {
    assert_eq!(
        config_file_path("/home/u", ConfigurationPath::Default, Platform::Linux),
        "/home/u/.config/echotune/echotune.toml"
    );
    assert_eq!(
        config_file_path("/home/u", ConfigurationPath::Custom("my.toml"), Platform::Windows),
        "/home/u/my.toml"
    );
}
