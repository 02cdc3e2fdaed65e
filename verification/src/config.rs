//! User settings: the data directory, the language and the colour theme.

use vstd::prelude::*;
use crate::text::same_text;

verus! {

/// Environment variable that overrides the stored data directory.
pub const DATA_DIR_ENV: &'static str = "COOKBOOK_DATA_DIR";

/// File that holds the settings, relative to the platform's configuration
/// directory.
pub const SETTINGS_FILE: &'static str = "cookbook-gtk/user_settings.toml";

/// Directory used in place of the platform's configuration directory when the
/// platform names none.
pub const FALLBACK_CONFIG_DIR: &'static str = ".";

/// Colour theme of the window.
#[derive(Debug, Clone, Copy, PartialEq, Eq, Structural)]
pub enum Theme {
    System,
    Light,
    Dark,
}

impl Default for Theme {
    fn default() -> (theme: Theme)
        ensures
            theme == Theme::System,
    {
        Theme::System
    }
}

impl Theme {
    /// The theme that a name stands for: `Light` and `Dark` for their own
    /// names, `System` for every other text.
    pub open spec fn named(name: Seq<char>) -> Theme {
        if name == "Light"@ {
            Theme::Light
        } else if name == "Dark"@ {
            Theme::Dark
        } else {
            Theme::System
        }
    }

    /// The name of the theme.
    pub open spec fn spelled(self) -> Seq<char> {
        match self {
            Theme::System => "System"@,
            Theme::Light => "Light"@,
            Theme::Dark => "Dark"@,
        }
    }

    /// Position of the theme in the chooser: `System`, `Light`, `Dark`.
    pub open spec fn position(self) -> int {
        match self {
            Theme::System => 0,
            Theme::Light => 1,
            Theme::Dark => 2,
        }
    }

    /// The theme at a position of the chooser; positions past the last one
    /// stand for `System`.
    pub open spec fn at_position(index: int) -> Theme {
        if index == 1 {
            Theme::Light
        } else if index == 2 {
            Theme::Dark
        } else {
            Theme::System
        }
    }

    /// Reads a theme from its name. Unknown names give `System`.
    pub fn from_name(name: &str) -> (theme: Theme)
        ensures
            theme == Theme::named(name@),
    {
        if same_text(name, "Light") {
            Theme::Light
        } else if same_text(name, "Dark") {
            Theme::Dark
        } else {
            Theme::System
        }
    }

    /// The name that `from_name` reads back as this theme.
    pub fn name(&self) -> (name: &'static str)
        ensures
            name@ == self.spelled(),
    {
        match self {
            Theme::System => "System",
            Theme::Light => "Light",
            Theme::Dark => "Dark",
        }
    }

    /// Position of the theme in the chooser.
    pub fn index(&self) -> (index: u32)
        ensures
            index == self.position(),
    {
        match self {
            Theme::System => 0,
            Theme::Light => 1,
            Theme::Dark => 2,
        }
    }

    /// The theme at a position of the chooser.
    pub fn from_index(index: u32) -> (theme: Theme)
        ensures
            theme == Theme::at_position(index as int),
    {
        if index == 1 {
            Theme::Light
        } else if index == 2 {
            Theme::Dark
        } else {
            Theme::System
        }
    }
}

/// The colour scheme that the window is forced into, or left to follow.
#[derive(Debug, Clone, Copy, PartialEq, Eq, Structural)]
pub enum ColorScheme {
    Default,
    ForceLight,
    ForceDark,
}

/// The colour scheme that a theme asks for.
pub open spec fn scheme_of(theme: Theme) -> ColorScheme {
    match theme {
        Theme::Light => ColorScheme::ForceLight,
        Theme::Dark => ColorScheme::ForceDark,
        Theme::System => ColorScheme::Default,
    }
}

/// The colour scheme that the style manager is set to for a theme.
pub fn apply_theme(theme: &Theme) -> (scheme: ColorScheme)
    ensures
        scheme == scheme_of(*theme),
{
    match theme {
        Theme::Light => ColorScheme::ForceLight,
        Theme::Dark => ColorScheme::ForceDark,
        Theme::System => ColorScheme::Default,
    }
}

/// Every theme is read back from its own name.
pub proof fn theme_name_round_trip(theme: Theme)
    ensures
        Theme::named(theme.spelled()) == theme,
{
    reveal_strlit("Light");
    reveal_strlit("Dark");
    reveal_strlit("System");
    assert("Dark"@.len() == 4);
    assert("Light"@.len() == 5);
    assert("System"@.len() == 6);
}

/// Every theme is found again at its own position in the chooser.
pub proof fn theme_position_round_trip(theme: Theme)
    ensures
        Theme::at_position(theme.position()) == theme,
        0 <= theme.position() <= 2,
{
}

/// The settings that the user keeps between runs.
#[derive(Debug, PartialEq)]
pub struct UserSettings {
    pub data_dir: Option<String>,
    pub language: String,
    pub theme: Theme,
}

/// Mathematical value of [`UserSettings`].
pub struct UserSettingsView {
    pub data_dir: Option<Seq<char>>,
    pub language: Seq<char>,
    pub theme: Theme,
}

impl View for UserSettings {
    type V = UserSettingsView;

    open spec fn view(&self) -> UserSettingsView {
        UserSettingsView {
            data_dir: self.data_dir.deep_view(),
            language: self.language@,
            theme: self.theme,
        }
    }
}

impl Clone for UserSettings {
    fn clone(&self) -> (copy: UserSettings)
        ensures
            copy@ == self@,
    {
        UserSettings {
            data_dir: self.data_dir.clone(),
            language: self.language.clone(),
            theme: self.theme,
        }
    }
}

/// The settings of a first run: no data directory, English, the system theme.
pub open spec fn default_settings() -> UserSettingsView {
    UserSettingsView { data_dir: None, language: "en"@, theme: Theme::System }
}

/// Language used when the stored settings name none.
pub fn default_language() -> (language: String)
    ensures
        language@ == "en"@,
{
    "en".to_owned()
}

impl Default for UserSettings {
    fn default() -> (settings: UserSettings)
        ensures
            settings@ == default_settings(),
    {
        UserSettings { data_dir: None, language: default_language(), theme: Theme::default() }
    }
}

/// A path of the file system, `std::path::PathBuf`. The library carries such
/// a path through as it is and never looks inside.
#[verifier::external_type_specification]
#[verifier::external_body]
pub struct ExPathBuf(std::path::PathBuf);

/// The directory below which the settings file lies.
#[derive(Debug, PartialEq)]
pub enum ConfigBase {
    /// The configuration directory of the platform, as the platform gave it.
    Platform(std::path::PathBuf),
    /// A directory given by its name.
    Named(String),
}

/// Mathematical value of [`ConfigBase`].
pub enum ConfigBaseView {
    Platform(std::path::PathBuf),
    Named(Seq<char>),
}

impl View for ConfigBase {
    type V = ConfigBaseView;

    open spec fn view(&self) -> ConfigBaseView {
        match *self {
            ConfigBase::Platform(dir) => ConfigBaseView::Platform(dir),
            ConfigBase::Named(name) => ConfigBaseView::Named(name@),
        }
    }
}

/// Where the settings file lies: a base directory and a path below it.
#[derive(Debug, PartialEq)]
pub struct ConfigLocation {
    pub base: ConfigBase,
    pub relative: String,
}

/// The data directory in effect: the override of the environment if there is
/// one, else the stored directory, else the fallback.
pub open spec fn data_dir_in_effect(
    env_override: Option<Seq<char>>,
    stored: Option<Seq<char>>,
    fallback: Seq<char>,
) -> Seq<char> {
    match env_override {
        Some(dir) => dir,
        None => match stored {
            Some(dir) => dir,
            None => fallback,
        },
    }
}

/// The base directory of the settings file: the platform's configuration
/// directory, or the fallback where the platform names none.
pub open spec fn config_base(platform_dir: Option<std::path::PathBuf>) -> ConfigBaseView {
    match platform_dir {
        Some(dir) => ConfigBaseView::Platform(dir),
        None => ConfigBaseView::Named(FALLBACK_CONFIG_DIR@),
    }
}

/// Asks `dirs::config_dir` for the configuration directory of the current
/// user. Trusted, not proved: the answer depends on the platform and on the
/// environment of the process, so nothing is claimed of it.
#[verifier::external_body]
fn platform_config_dir() -> (dir: Option<std::path::PathBuf>) {
    dirs::config_dir()
}

impl UserSettings {
    /// Location of the settings file for a given platform configuration
    /// directory.
    pub fn config_location(platform_dir: Option<std::path::PathBuf>) -> (at: ConfigLocation)
        ensures
            at.base@ == config_base(platform_dir),
            at.relative@ == SETTINGS_FILE@,
    {
        let base = match platform_dir {
            Some(dir) => ConfigBase::Platform(dir),
            None => ConfigBase::Named(FALLBACK_CONFIG_DIR.to_owned()),
        };
        ConfigLocation { base, relative: SETTINGS_FILE.to_owned() }
    }

    /// Location of the settings file on this machine.
    pub fn config_path() -> (at: ConfigLocation)
        ensures
            at.relative@ == SETTINGS_FILE@,
            at.base is Named ==> at.base@ == ConfigBaseView::Named(FALLBACK_CONFIG_DIR@),
    {
        UserSettings::config_location(platform_config_dir())
    }

    /// The data directory to open: the override of the environment comes
    /// first, then the directory stored in the settings, then the fallback.
    pub fn effective_data_dir(
        env_override: Option<String>,
        settings: &UserSettings,
        fallback: String,
    ) -> (dir: String)
        ensures
            dir@ == data_dir_in_effect(
                env_override.deep_view(),
                settings@.data_dir,
                fallback@,
            ),
    {
        match env_override {
            Some(dir) => dir,
            None => match &settings.data_dir {
                Some(dir) => dir.clone(),
                None => fallback,
            },
        }
    }
}

} // verus!
