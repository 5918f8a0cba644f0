//! Settings of the file manager's panels and theme, with their defaults.

use crate::paths::{join_path, joined};
use crate::session::text_of;
use vstd::prelude::*;
use vstd::string::StringExecFns;

verus! {
/// Settings of one panel.
#[derive(Debug, Clone)]
pub struct PanelSettings {
    pub start_path: Option<String>,
    pub sort_by: String,
    pub sort_order: String,
}

/// Name of the colour theme.
#[derive(Debug, Clone)]
pub struct ThemeSettings {
    pub name: String,
}

/// Settings of the application.
#[derive(Debug, Clone)]
pub struct Settings {
    pub left_panel: PanelSettings,
    pub right_panel: PanelSettings,
    pub active_panel: String,
    pub theme: ThemeSettings,
    pub tar_path: Option<String>,
}

/// The order of a panel that has made no choice: by name.
pub fn default_sort_by() -> (s: String)
    ensures
        s@ == "name"@,
{
    String::from_str("name")
}

/// The direction of a panel that has made no choice: ascending.
pub fn default_sort_order() -> (s: String)
    ensures
        s@ == "asc"@,
{
    String::from_str("asc")
}

/// The theme where none is chosen.
pub fn default_theme_name() -> (s: String)
    ensures
        s@ == "light"@,
{
    String::from_str("light")
}

/// The panel that is active where none is chosen.
pub fn default_active_panel() -> (s: String)
    ensures
        s@ == "left"@,
{
    String::from_str("left")
}

impl PanelSettings {
    /// A panel that starts nowhere in particular, sorted by name, ascending.
    pub open spec fn is_default(self) -> bool {
        &&& self.start_path is None
        &&& self.sort_by@ == "name"@
        &&& self.sort_order@ == "asc"@
    }
}

impl Default for PanelSettings {
    fn default() -> (p: Self)
        ensures
            p.is_default(),
    {
        PanelSettings {
            start_path: None,
            sort_by: default_sort_by(),
            sort_order: default_sort_order(),
        }
    }
}

impl Default for ThemeSettings {
    fn default() -> (t: Self)
        ensures
            t.name@ == "light"@,
    {
        ThemeSettings { name: default_theme_name() }
    }
}

impl Settings {
    /// Two default panels, the left one active, the light theme, no archiver
    /// path.
    pub open spec fn is_default(self) -> bool {
        &&& self.left_panel.is_default()
        &&& self.right_panel.is_default()
        &&& self.active_panel@ == "left"@
        &&& self.theme.name@ == "light"@
        &&& self.tar_path is None
    }
}

impl Default for Settings {
    fn default() -> (s: Self)
        ensures
            s.is_default(),
    {
        Settings {
            left_panel: PanelSettings::default(),
            right_panel: PanelSettings::default(),
            active_panel: default_active_panel(),
            theme: ThemeSettings::default(),
            tar_path: None,
        }
    }
}

/// The directory of the file manager's configuration under a home
/// directory.
pub open spec fn config_dir_in(home: Seq<char>) -> Seq<char> {
    joined(home, ".cokacdir"@)
}

impl Settings {
    /// The directory of the configuration, where the home directory is
    /// known.
    pub fn config_dir(home: Option<&str>) -> (d: Option<String>)
        ensures
            text_of(d) == match home {
                Some(h) => Some(config_dir_in(h@)),
                None => None,
            },
    {
        match home {
            Some(h) => Some(join_path(h, ".cokacdir")),
            None => None,
        }
    }

    /// The directory of the themes.
    pub fn themes_dir(home: Option<&str>) -> (d: Option<String>)
        ensures
            text_of(d) == match home {
                Some(h) => Some(joined(config_dir_in(h@), "themes"@)),
                None => None,
            },
    {
        match Settings::config_dir(home) {
            Some(d) => Some(join_path(d.as_str(), "themes")),
            None => None,
        }
    }

    /// The file of the settings.
    pub fn config_path(home: Option<&str>) -> (p: Option<String>)
        ensures
            text_of(p) == match home {
                Some(h) => Some(joined(config_dir_in(h@), "settings.json"@)),
                None => None,
            },
    {
        match Settings::config_dir(home) {
            Some(d) => Some(join_path(d.as_str(), "settings.json")),
            None => None,
        }
    }
}

} // verus!
