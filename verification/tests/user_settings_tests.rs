// Tests for the settings: defaults, themes and the data directory in effect.
use pantryman_linux::config::{
    default_language, ConfigBase, Theme, UserSettings, SETTINGS_FILE,
};
use std::path::PathBuf;

#[test]
fn test_default_settings() {
    let s = UserSettings::default();
    assert_eq!(s.language, "en");
    assert_eq!(s.theme, Theme::System);
    assert!(s.data_dir.is_none());
}

#[test]
fn default_settings_are_system_theme() {
    let s = UserSettings::default();
    assert!(matches!(s.theme, Theme::System));
}

#[test]
fn effective_data_dir_falls_back_to_something() {
    let path = UserSettings::effective_data_dir(
        None,
        &UserSettings::default(),
        "example/data".to_string(),
    );
    assert!(!path.is_empty());
    assert_eq!(path, "example/data");
}

#[test]
fn effective_data_dir_prefers_environment_then_settings() {
    let mut s = UserSettings::default();
    s.data_dir = Some("/stored".to_string());
    let from_env =
        UserSettings::effective_data_dir(Some("/env".to_string()), &s, "/fallback".to_string());
    assert_eq!(from_env, "/env");
    let from_settings = UserSettings::effective_data_dir(None, &s, "/fallback".to_string());
    assert_eq!(from_settings, "/stored");
}

#[test]
fn default_language_is_english() {
    assert_eq!(default_language(), "en");
}

#[test]
fn theme_names_and_positions() {
    assert_eq!(Theme::from_name("Light"), Theme::Light);
    assert_eq!(Theme::from_name("Dark"), Theme::Dark);
    assert_eq!(Theme::from_name("System"), Theme::System);
    assert_eq!(Theme::from_name("light"), Theme::System);
    assert_eq!(Theme::from_name(""), Theme::System);
    for theme in [Theme::System, Theme::Light, Theme::Dark] {
        assert_eq!(Theme::from_name(theme.name()), theme);
        assert_eq!(Theme::from_index(theme.index()), theme);
    }
    assert_eq!(Theme::System.index(), 0);
    assert_eq!(Theme::Light.index(), 1);
    assert_eq!(Theme::Dark.index(), 2);
    assert_eq!(Theme::from_index(7), Theme::System);
}

#[test]
fn config_location_uses_platform_directory_or_fallback() {
    let at = UserSettings::config_location(Some(PathBuf::from("/home/u/.config")));
    assert_eq!(at.base, ConfigBase::Platform(PathBuf::from("/home/u/.config")));
    assert_eq!(at.relative, "cookbook-gtk/user_settings.toml");
    let fallback = UserSettings::config_location(None);
    assert_eq!(fallback.base, ConfigBase::Named(".".to_string()));
    assert_eq!(fallback.relative, SETTINGS_FILE);
}

#[test]
fn config_path_names_the_settings_file() {
    let at = UserSettings::config_path();
    assert_eq!(at.relative, "cookbook-gtk/user_settings.toml");
    match at.base {
        ConfigBase::Platform(dir) => assert!(!dir.as_os_str().is_empty()),
        ConfigBase::Named(name) => assert_eq!(name, "."),
    }
}

#[test]
fn settings_clone_keeps_every_field() {
    let s = UserSettings {
        data_dir: Some("/tmp/test".to_string()),
        language: "de".to_string(),
        theme: Theme::Dark,
    };
    let copy = s.clone();
    assert_eq!(copy.data_dir, s.data_dir);
    assert_eq!(copy.language, s.language);
    assert_eq!(copy.theme, s.theme);
}
