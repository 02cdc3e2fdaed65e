//! The settings page: the data directory and the theme.

use vstd::prelude::*;
use crate::config::{Theme, UserSettings, UserSettingsView};
use crate::messages::{AppMsg, AppMsgView};

verus! {

/// What the settings page shows when it is built.
#[derive(Debug, PartialEq)]
pub struct SettingsPage {
    /// The data directory in effect, shown below the title of its row.
    pub data_dir: String,
    /// The choices of the theme row, in order.
    pub theme_labels: Vec<String>,
    /// Position of the choice that is marked.
    pub selected_theme: u32,
}

/// Mathematical value of [`SettingsPage`].
pub struct SettingsPageView {
    pub data_dir: Seq<char>,
    pub theme_labels: Seq<Seq<char>>,
    pub selected_theme: u32,
}

impl View for SettingsPage {
    type V = SettingsPageView;

    open spec fn view(&self) -> SettingsPageView {
        SettingsPageView {
            data_dir: self.data_dir@,
            theme_labels: self.theme_labels.deep_view(),
            selected_theme: self.selected_theme,
        }
    }
}

/// The page for a data directory and the stored settings.
pub open spec fn settings_page(data_dir: Seq<char>, settings: UserSettingsView) -> SettingsPageView {
    SettingsPageView {
        data_dir,
        theme_labels: seq!["System Default"@, "Light"@, "Dark"@],
        selected_theme: settings.theme.position() as u32,
    }
}

/// The event that follows from a choice in the theme row: the theme at that
/// position is asked for by its name.
pub open spec fn theme_choice(index: u32) -> AppMsgView {
    AppMsgView::SetTheme(Theme::at_position(index as int).spelled())
}

/// The event that follows from the answer of the folder chooser: the folder
/// becomes the data directory where the user accepted one, and nothing
/// happens where the user cancelled or the folder has no path.
pub open spec fn folder_choice(accepted: bool, path: Option<Seq<char>>) -> Option<AppMsgView> {
    if accepted {
        match path {
            Some(dir) => Some(AppMsgView::SetDataDir(dir)),
            None => None,
        }
    } else {
        None
    }
}

/// What the settings page shows: the data directory in effect and the theme
/// of the stored settings.
pub fn build_settings_page(data_dir: String, settings: &UserSettings) -> (page: SettingsPage)
    ensures
        page@ == settings_page(data_dir@, settings@),
{
    let mut theme_labels: Vec<String> = Vec::new();
    theme_labels.push("System Default".to_owned());
    theme_labels.push("Light".to_owned());
    theme_labels.push("Dark".to_owned());
    assert(theme_labels.deep_view() =~= seq!["System Default"@, "Light"@, "Dark"@]);
    SettingsPage { data_dir, theme_labels, selected_theme: settings.theme.index() }
}

/// The event that follows from a choice in the theme row.
pub fn theme_selected(index: u32) -> (msg: AppMsg)
    ensures
        msg@ == theme_choice(index),
{
    AppMsg::SetTheme(Theme::from_index(index).name().to_owned())
}

/// The event that follows from the answer of the folder chooser. The data
/// directory is completed before the event is sent.
pub fn folder_chosen(accepted: bool, path: Option<String>) -> (msg: Option<AppMsg>)
    ensures
        msg.deep_view() == folder_choice(accepted, path.deep_view()),
{
    if accepted {
        match path {
            Some(dir) => Some(AppMsg::SetDataDir(dir)),
            None => None,
        }
    } else {
        None
    }
}

} // verus!
