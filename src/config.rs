//! The application configuration: compiled-in defaults that a user file
//! may override field by field. Colors stay text through the merge and are
//! resolved to renderer colors afterwards.
use crate::color::{names_color, parse_color};
use ratatui::style::Color;
use vstd::prelude::*;

verus! {

/// The colors of the interface, one field per role.
#[derive(Clone, Debug)]
pub struct ColorsConfigGeneric<T> {
    pub primary: T,
    pub secondary: T,
    pub bg: T,
    pub fg: T,
    pub active_fg: T,
    pub active_bg: T,
    pub border: T,
    pub border_insert: T,
    pub popup_bg: T,
    pub popup_border: T,
    pub keybind_key: T,
    pub keybind_fg: T,
    pub title_bar_bg: T,
    pub title_bar_fg: T,
    pub status_bar_bg: T,
    pub status_bar_fg: T,
    pub status_bar_navigation_mode_bg: T,
    pub status_bar_navigation_mode_fg: T,
    pub status_bar_insert_mode_bg: T,
    pub status_bar_insert_mode_fg: T,
    pub status_bar_popup_mode_bg: T,
    pub status_bar_popup_mode_fg: T,
    pub status_bar_popup_insert_mode_bg: T,
    pub status_bar_popup_insert_mode_fg: T,
    pub status_bar_delete_mode_bg: T,
    pub status_bar_delete_mode_fg: T,
    pub status_bar_command_mode_bg: T,
    pub status_bar_command_mode_fg: T,
    pub status_bar_command_insert_mode_bg: T,
    pub status_bar_command_insert_mode_fg: T,
}

/// Colors as a user file gives them: any of them may be missing.
pub type ColorsConfigFile = ColorsConfigGeneric<Option<String>>;

/// Colors resolved for the renderer.
pub type ColorsConfig = ColorsConfigGeneric<Color>;

/// A user configuration file.
#[derive(Clone, Debug)]
pub struct ConfigFile {
    pub log_level: Option<String>,
    pub colors: Option<ColorsConfigFile>,
}

/// The configuration with every field given; colors as text.
#[derive(Clone, Debug)]
pub struct Config {
    pub log_level: String,
    pub colors: ColorsConfigGeneric<String>,
}

/// The override when there is one, else the default.
pub open spec fn pick<T>(o: Option<T>, base: T) -> T {
    match o {
        Some(v) => v,
        None => base,
    }
}

pub fn or_base<T>(o: Option<T>, base: T) -> (r: T)
    ensures
        r == pick(o, base),
{
    match o {
        Some(v) => v,
        None => base,
    }
}

pub open spec fn merged_colors(
    user: ColorsConfigFile,
    base: ColorsConfigGeneric<String>,
) -> ColorsConfigGeneric<String> {
    ColorsConfigGeneric {
        primary: pick(user.primary, base.primary),
        secondary: pick(user.secondary, base.secondary),
        bg: pick(user.bg, base.bg),
        fg: pick(user.fg, base.fg),
        active_fg: pick(user.active_fg, base.active_fg),
        active_bg: pick(user.active_bg, base.active_bg),
        border: pick(user.border, base.border),
        border_insert: pick(user.border_insert, base.border_insert),
        popup_bg: pick(user.popup_bg, base.popup_bg),
        popup_border: pick(user.popup_border, base.popup_border),
        keybind_key: pick(user.keybind_key, base.keybind_key),
        keybind_fg: pick(user.keybind_fg, base.keybind_fg),
        title_bar_bg: pick(user.title_bar_bg, base.title_bar_bg),
        title_bar_fg: pick(user.title_bar_fg, base.title_bar_fg),
        status_bar_bg: pick(user.status_bar_bg, base.status_bar_bg),
        status_bar_fg: pick(user.status_bar_fg, base.status_bar_fg),
        status_bar_navigation_mode_bg: pick(user.status_bar_navigation_mode_bg, base.status_bar_navigation_mode_bg),
        status_bar_navigation_mode_fg: pick(user.status_bar_navigation_mode_fg, base.status_bar_navigation_mode_fg),
        status_bar_insert_mode_bg: pick(user.status_bar_insert_mode_bg, base.status_bar_insert_mode_bg),
        status_bar_insert_mode_fg: pick(user.status_bar_insert_mode_fg, base.status_bar_insert_mode_fg),
        status_bar_popup_mode_bg: pick(user.status_bar_popup_mode_bg, base.status_bar_popup_mode_bg),
        status_bar_popup_mode_fg: pick(user.status_bar_popup_mode_fg, base.status_bar_popup_mode_fg),
        status_bar_popup_insert_mode_bg: pick(user.status_bar_popup_insert_mode_bg, base.status_bar_popup_insert_mode_bg),
        status_bar_popup_insert_mode_fg: pick(user.status_bar_popup_insert_mode_fg, base.status_bar_popup_insert_mode_fg),
        status_bar_delete_mode_bg: pick(user.status_bar_delete_mode_bg, base.status_bar_delete_mode_bg),
        status_bar_delete_mode_fg: pick(user.status_bar_delete_mode_fg, base.status_bar_delete_mode_fg),
        status_bar_command_mode_bg: pick(user.status_bar_command_mode_bg, base.status_bar_command_mode_bg),
        status_bar_command_mode_fg: pick(user.status_bar_command_mode_fg, base.status_bar_command_mode_fg),
        status_bar_command_insert_mode_bg: pick(user.status_bar_command_insert_mode_bg, base.status_bar_command_insert_mode_bg),
        status_bar_command_insert_mode_fg: pick(user.status_bar_command_insert_mode_fg, base.status_bar_command_insert_mode_fg),
    }
}

/// The merge: a field of the file wins where it is given; without a colors
/// group the default colors pass through whole.
pub open spec fn merged_config(user: ConfigFile, base: Config) -> Config {
    Config {
        log_level: pick(user.log_level, base.log_level),
        colors: match user.colors {
            Some(c) => merged_colors(c, base.colors),
            None => base.colors,
        },
    }
}

/// A colors group that overrides nothing.
pub open spec fn no_colors() -> ColorsConfigFile {
    ColorsConfigGeneric {
        primary: None,
        secondary: None,
        bg: None,
        fg: None,
        active_fg: None,
        active_bg: None,
        border: None,
        border_insert: None,
        popup_bg: None,
        popup_border: None,
        keybind_key: None,
        keybind_fg: None,
        title_bar_bg: None,
        title_bar_fg: None,
        status_bar_bg: None,
        status_bar_fg: None,
        status_bar_navigation_mode_bg: None,
        status_bar_navigation_mode_fg: None,
        status_bar_insert_mode_bg: None,
        status_bar_insert_mode_fg: None,
        status_bar_popup_mode_bg: None,
        status_bar_popup_mode_fg: None,
        status_bar_popup_insert_mode_bg: None,
        status_bar_popup_insert_mode_fg: None,
        status_bar_delete_mode_bg: None,
        status_bar_delete_mode_fg: None,
        status_bar_command_mode_bg: None,
        status_bar_command_mode_fg: None,
        status_bar_command_insert_mode_bg: None,
        status_bar_command_insert_mode_fg: None,
    }
}

/// Every color of the group is text the renderer reads as a color.
pub open spec fn colors_resolve(c: ColorsConfigGeneric<String>) -> bool {
    names_color(c.primary@)
    && names_color(c.secondary@)
    && names_color(c.bg@)
    && names_color(c.fg@)
    && names_color(c.active_fg@)
    && names_color(c.active_bg@)
    && names_color(c.border@)
    && names_color(c.border_insert@)
    && names_color(c.popup_bg@)
    && names_color(c.popup_border@)
    && names_color(c.keybind_key@)
    && names_color(c.keybind_fg@)
    && names_color(c.title_bar_bg@)
    && names_color(c.title_bar_fg@)
    && names_color(c.status_bar_bg@)
    && names_color(c.status_bar_fg@)
    && names_color(c.status_bar_navigation_mode_bg@)
    && names_color(c.status_bar_navigation_mode_fg@)
    && names_color(c.status_bar_insert_mode_bg@)
    && names_color(c.status_bar_insert_mode_fg@)
    && names_color(c.status_bar_popup_mode_bg@)
    && names_color(c.status_bar_popup_mode_fg@)
    && names_color(c.status_bar_popup_insert_mode_bg@)
    && names_color(c.status_bar_popup_insert_mode_fg@)
    && names_color(c.status_bar_delete_mode_bg@)
    && names_color(c.status_bar_delete_mode_fg@)
    && names_color(c.status_bar_command_mode_bg@)
    && names_color(c.status_bar_command_mode_fg@)
    && names_color(c.status_bar_command_insert_mode_bg@)
    && names_color(c.status_bar_command_insert_mode_fg@)
}

fn merge_colors(user: ColorsConfigFile, base: ColorsConfigGeneric<String>) -> (r: ColorsConfigGeneric<
    String,
>)
    ensures
        r == merged_colors(user, base),
{
    ColorsConfigGeneric {
        primary: or_base(user.primary, base.primary),
        secondary: or_base(user.secondary, base.secondary),
        bg: or_base(user.bg, base.bg),
        fg: or_base(user.fg, base.fg),
        active_fg: or_base(user.active_fg, base.active_fg),
        active_bg: or_base(user.active_bg, base.active_bg),
        border: or_base(user.border, base.border),
        border_insert: or_base(user.border_insert, base.border_insert),
        popup_bg: or_base(user.popup_bg, base.popup_bg),
        popup_border: or_base(user.popup_border, base.popup_border),
        keybind_key: or_base(user.keybind_key, base.keybind_key),
        keybind_fg: or_base(user.keybind_fg, base.keybind_fg),
        title_bar_bg: or_base(user.title_bar_bg, base.title_bar_bg),
        title_bar_fg: or_base(user.title_bar_fg, base.title_bar_fg),
        status_bar_bg: or_base(user.status_bar_bg, base.status_bar_bg),
        status_bar_fg: or_base(user.status_bar_fg, base.status_bar_fg),
        status_bar_navigation_mode_bg: or_base(user.status_bar_navigation_mode_bg, base.status_bar_navigation_mode_bg),
        status_bar_navigation_mode_fg: or_base(user.status_bar_navigation_mode_fg, base.status_bar_navigation_mode_fg),
        status_bar_insert_mode_bg: or_base(user.status_bar_insert_mode_bg, base.status_bar_insert_mode_bg),
        status_bar_insert_mode_fg: or_base(user.status_bar_insert_mode_fg, base.status_bar_insert_mode_fg),
        status_bar_popup_mode_bg: or_base(user.status_bar_popup_mode_bg, base.status_bar_popup_mode_bg),
        status_bar_popup_mode_fg: or_base(user.status_bar_popup_mode_fg, base.status_bar_popup_mode_fg),
        status_bar_popup_insert_mode_bg: or_base(user.status_bar_popup_insert_mode_bg, base.status_bar_popup_insert_mode_bg),
        status_bar_popup_insert_mode_fg: or_base(user.status_bar_popup_insert_mode_fg, base.status_bar_popup_insert_mode_fg),
        status_bar_delete_mode_bg: or_base(user.status_bar_delete_mode_bg, base.status_bar_delete_mode_bg),
        status_bar_delete_mode_fg: or_base(user.status_bar_delete_mode_fg, base.status_bar_delete_mode_fg),
        status_bar_command_mode_bg: or_base(user.status_bar_command_mode_bg, base.status_bar_command_mode_bg),
        status_bar_command_mode_fg: or_base(user.status_bar_command_mode_fg, base.status_bar_command_mode_fg),
        status_bar_command_insert_mode_bg: or_base(user.status_bar_command_insert_mode_bg, base.status_bar_command_insert_mode_bg),
        status_bar_command_insert_mode_fg: or_base(user.status_bar_command_insert_mode_fg, base.status_bar_command_insert_mode_fg),
    }
}

/// Merges a user file over the defaults.
pub fn merge_config(user_config: ConfigFile, base_config: Config) -> (r: Config)
    ensures
        r == merged_config(user_config, base_config),
{
    let colors = match user_config.colors {
        Some(c) => merge_colors(c, base_config.colors),
        None => base_config.colors,
    };
    Config { log_level: or_base(user_config.log_level, base_config.log_level), colors }
}

/// The defaults, or the defaults with the user file merged over them.
pub fn get_config(user_config: Option<ConfigFile>) -> (r: Config)
    ensures
        exists|base: Config|
            is_base_config(base) && r == match user_config {
                Some(u) => merged_config(u, base),
                None => base,
            },
{
    let base = get_base_config();
    match user_config {
        Some(u) => merge_config(u, base),
        None => base,
    }
}

/// The compiled-in defaults, as text.
pub open spec fn is_base_config(c: Config) -> bool {
    &&& c.log_level@ == "info"@
    &&& c.colors.primary@ == "#AF5FFF"@
    &&& c.colors.secondary@ == "#AAAAAA"@
    &&& c.colors.bg@ == "#000000"@
    &&& c.colors.fg@ == "#FFFFFF"@
    &&& c.colors.active_fg@ == "#000000"@
    &&& c.colors.active_bg@ == "#00FFFF"@
    &&& c.colors.border@ == "#777777"@
    &&& c.colors.border_insert@ == "#00FFFF"@
    &&& c.colors.popup_bg@ == "#000000"@
    &&& c.colors.popup_border@ == "#AF5FFF"@
    &&& c.colors.keybind_key@ == "#AF5FFF"@
    &&& c.colors.keybind_fg@ == "#6698FF"@
    &&& c.colors.title_bar_bg@ == "#AF5FFF"@
    &&& c.colors.title_bar_fg@ == "#FFFFFF"@
    &&& c.colors.status_bar_bg@ == "#333333"@
    &&& c.colors.status_bar_fg@ == "#CCCCCC"@
    &&& c.colors.status_bar_navigation_mode_bg@ == "#99CE48"@
    &&& c.colors.status_bar_navigation_mode_fg@ == "#000000"@
    &&& c.colors.status_bar_insert_mode_bg@ == "#00ffff"@
    &&& c.colors.status_bar_insert_mode_fg@ == "#000000"@
    &&& c.colors.status_bar_popup_mode_bg@ == "#8D91FF"@
    &&& c.colors.status_bar_popup_mode_fg@ == "#000000"@
    &&& c.colors.status_bar_popup_insert_mode_bg@ == "#ff85ff"@
    &&& c.colors.status_bar_popup_insert_mode_fg@ == "#000000"@
    &&& c.colors.status_bar_delete_mode_bg@ == "#ff6069"@
    &&& c.colors.status_bar_delete_mode_fg@ == "#000000"@
    &&& c.colors.status_bar_command_mode_bg@ == "#ffff64"@
    &&& c.colors.status_bar_command_mode_fg@ == "#000000"@
    &&& c.colors.status_bar_command_insert_mode_bg@ == "#ffcb5f"@
    &&& c.colors.status_bar_command_insert_mode_fg@ == "#000000"@
}

/// The compiled-in defaults.
pub fn get_base_config() -> (r: Config)
    ensures
        is_base_config(r),
{
    Config {
        log_level: "info".to_owned(),
        colors: ColorsConfigGeneric {
            primary: "#AF5FFF".to_owned(),
            secondary: "#AAAAAA".to_owned(),
            bg: "#000000".to_owned(),
            fg: "#FFFFFF".to_owned(),
            active_fg: "#000000".to_owned(),
            active_bg: "#00FFFF".to_owned(),
            border: "#777777".to_owned(),
            border_insert: "#00FFFF".to_owned(),
            popup_bg: "#000000".to_owned(),
            popup_border: "#AF5FFF".to_owned(),
            keybind_key: "#AF5FFF".to_owned(),
            keybind_fg: "#6698FF".to_owned(),
            title_bar_bg: "#AF5FFF".to_owned(),
            title_bar_fg: "#FFFFFF".to_owned(),
            status_bar_bg: "#333333".to_owned(),
            status_bar_fg: "#CCCCCC".to_owned(),
            status_bar_navigation_mode_bg: "#99CE48".to_owned(),
            status_bar_navigation_mode_fg: "#000000".to_owned(),
            status_bar_insert_mode_bg: "#00ffff".to_owned(),
            status_bar_insert_mode_fg: "#000000".to_owned(),
            status_bar_popup_mode_bg: "#8D91FF".to_owned(),
            status_bar_popup_mode_fg: "#000000".to_owned(),
            status_bar_popup_insert_mode_bg: "#ff85ff".to_owned(),
            status_bar_popup_insert_mode_fg: "#000000".to_owned(),
            status_bar_delete_mode_bg: "#ff6069".to_owned(),
            status_bar_delete_mode_fg: "#000000".to_owned(),
            status_bar_command_mode_bg: "#ffff64".to_owned(),
            status_bar_command_mode_fg: "#000000".to_owned(),
            status_bar_command_insert_mode_bg: "#ffcb5f".to_owned(),
            status_bar_command_insert_mode_fg: "#000000".to_owned(),
        },
    }
}

impl Config {
    /// The colors resolved for the renderer; none when any of them is not a
    /// color.
    pub fn resolve_colors(&self) -> (r: Option<ColorsConfig>)
        ensures
            r.is_some() == colors_resolve(self.colors),
    {
        let c = &self.colors;
        let primary = match parse_color(c.primary.as_str()) {
            Some(v) => v,
            None => return None,
        };
        let secondary = match parse_color(c.secondary.as_str()) {
            Some(v) => v,
            None => return None,
        };
        let bg = match parse_color(c.bg.as_str()) {
            Some(v) => v,
            None => return None,
        };
        let fg = match parse_color(c.fg.as_str()) {
            Some(v) => v,
            None => return None,
        };
        let active_fg = match parse_color(c.active_fg.as_str()) {
            Some(v) => v,
            None => return None,
        };
        let active_bg = match parse_color(c.active_bg.as_str()) {
            Some(v) => v,
            None => return None,
        };
        let border = match parse_color(c.border.as_str()) {
            Some(v) => v,
            None => return None,
        };
        let border_insert = match parse_color(c.border_insert.as_str()) {
            Some(v) => v,
            None => return None,
        };
        let popup_bg = match parse_color(c.popup_bg.as_str()) {
            Some(v) => v,
            None => return None,
        };
        let popup_border = match parse_color(c.popup_border.as_str()) {
            Some(v) => v,
            None => return None,
        };
        let keybind_key = match parse_color(c.keybind_key.as_str()) {
            Some(v) => v,
            None => return None,
        };
        let keybind_fg = match parse_color(c.keybind_fg.as_str()) {
            Some(v) => v,
            None => return None,
        };
        let title_bar_bg = match parse_color(c.title_bar_bg.as_str()) {
            Some(v) => v,
            None => return None,
        };
        let title_bar_fg = match parse_color(c.title_bar_fg.as_str()) {
            Some(v) => v,
            None => return None,
        };
        let status_bar_bg = match parse_color(c.status_bar_bg.as_str()) {
            Some(v) => v,
            None => return None,
        };
        let status_bar_fg = match parse_color(c.status_bar_fg.as_str()) {
            Some(v) => v,
            None => return None,
        };
        let status_bar_navigation_mode_bg = match parse_color(c.status_bar_navigation_mode_bg.as_str()) {
            Some(v) => v,
            None => return None,
        };
        let status_bar_navigation_mode_fg = match parse_color(c.status_bar_navigation_mode_fg.as_str()) {
            Some(v) => v,
            None => return None,
        };
        let status_bar_insert_mode_bg = match parse_color(c.status_bar_insert_mode_bg.as_str()) {
            Some(v) => v,
            None => return None,
        };
        let status_bar_insert_mode_fg = match parse_color(c.status_bar_insert_mode_fg.as_str()) {
            Some(v) => v,
            None => return None,
        };
        let status_bar_popup_mode_bg = match parse_color(c.status_bar_popup_mode_bg.as_str()) {
            Some(v) => v,
            None => return None,
        };
        let status_bar_popup_mode_fg = match parse_color(c.status_bar_popup_mode_fg.as_str()) {
            Some(v) => v,
            None => return None,
        };
        let status_bar_popup_insert_mode_bg = match parse_color(c.status_bar_popup_insert_mode_bg.as_str()) {
            Some(v) => v,
            None => return None,
        };
        let status_bar_popup_insert_mode_fg = match parse_color(c.status_bar_popup_insert_mode_fg.as_str()) {
            Some(v) => v,
            None => return None,
        };
        let status_bar_delete_mode_bg = match parse_color(c.status_bar_delete_mode_bg.as_str()) {
            Some(v) => v,
            None => return None,
        };
        let status_bar_delete_mode_fg = match parse_color(c.status_bar_delete_mode_fg.as_str()) {
            Some(v) => v,
            None => return None,
        };
        let status_bar_command_mode_bg = match parse_color(c.status_bar_command_mode_bg.as_str()) {
            Some(v) => v,
            None => return None,
        };
        let status_bar_command_mode_fg = match parse_color(c.status_bar_command_mode_fg.as_str()) {
            Some(v) => v,
            None => return None,
        };
        let status_bar_command_insert_mode_bg = match parse_color(c.status_bar_command_insert_mode_bg.as_str()) {
            Some(v) => v,
            None => return None,
        };
        let status_bar_command_insert_mode_fg = match parse_color(c.status_bar_command_insert_mode_fg.as_str()) {
            Some(v) => v,
            None => return None,
        };
        Some(ColorsConfigGeneric {
            primary,
            secondary,
            bg,
            fg,
            active_fg,
            active_bg,
            border,
            border_insert,
            popup_bg,
            popup_border,
            keybind_key,
            keybind_fg,
            title_bar_bg,
            title_bar_fg,
            status_bar_bg,
            status_bar_fg,
            status_bar_navigation_mode_bg,
            status_bar_navigation_mode_fg,
            status_bar_insert_mode_bg,
            status_bar_insert_mode_fg,
            status_bar_popup_mode_bg,
            status_bar_popup_mode_fg,
            status_bar_popup_insert_mode_bg,
            status_bar_popup_insert_mode_fg,
            status_bar_delete_mode_bg,
            status_bar_delete_mode_fg,
            status_bar_command_mode_bg,
            status_bar_command_mode_fg,
            status_bar_command_insert_mode_bg,
            status_bar_command_insert_mode_fg,
        })
    }
}

/// A user file that sets only the foreground color leaves the log level and
/// every other color at their defaults and takes its foreground.
pub proof fn lemma_override_foreground(base: Config, fg: String)
    ensures
        ({
            let user = ConfigFile {
                log_level: None,
                colors: Some(ColorsConfigGeneric { fg: Some(fg), ..no_colors() }),
            };
            let r = merged_config(user, base);
            &&& r.log_level == base.log_level
            &&& r.colors.fg == fg
            &&& r.colors == (ColorsConfigGeneric { fg, ..base.colors })
        }),
{
}

} // verus!
