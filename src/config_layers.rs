//! The layered configuration: compiled-in defaults, a user file merged over
//! them at three levels (top-level fields, groups, fields of a group), and
//! named profiles that each bring their own files.
use crate::color::{names_color, parse_color};
use ratatui::style::Color;
use vstd::prelude::*;

verus! {

/// The only color preset there is.
pub const DEFAULT_PRESET: &'static str = "default";

/// The colors of the interface: a preset name and one color per role.
#[derive(Clone, Debug)]
pub struct ColorsConfig<S, C> {
    pub preset: S,
    pub fg: C,
    pub bg: C,
    pub secondary_fg: C,
    pub tertiary_fg: C,
    pub highlight_fg: C,
    pub primary: C,
    pub success: C,
    pub warning: C,
    pub danger: C,
    pub date_fg: C,
    pub time_fg: C,
    pub input_fg: C,
    pub input_bg: C,
    pub input_focus_fg: C,
    pub input_focus_bg: C,
    pub input_cursor_fg: C,
    pub input_cursor_bg: C,
    pub input_cursor_insert_fg: C,
    pub input_cursor_insert_bg: C,
    pub active_fg: C,
    pub active_bg: C,
    pub border: C,
    pub border_active: C,
    pub border_insert: C,
    pub popup_bg: C,
    pub popup_border: C,
    pub keybind_key: C,
    pub keybind_fg: C,
    pub title_bar_bg: C,
    pub title_bar_fg: C,
    pub tab_fg: C,
    pub tab_active_fg: C,
    pub tab_border: C,
    pub status_bar_bg: C,
    pub status_bar_fg: C,
    pub status_bar_normal_mode_bg: C,
    pub status_bar_normal_mode_fg: C,
    pub status_bar_insert_mode_bg: C,
    pub status_bar_insert_mode_fg: C,
    pub status_bar_interactive_mode_bg: C,
    pub status_bar_interactive_mode_fg: C,
    pub status_bar_delete_mode_bg: C,
    pub status_bar_delete_mode_fg: C,
}

/// The home module.
#[derive(Clone, Debug)]
pub struct HomeModule<S> {
    pub dashboard_title: S,
    pub dashboard_message: S,
}

/// The project-management module: how many lists a project holds, how many
/// days ahead a card counts as due soon, and the status characters.
#[derive(Clone, Debug)]
pub struct ProjectMangementModule<N, C> {
    pub max_lists: N,
    pub due_soon_days: N,
    pub completed_char: C,
    pub overdue_char: C,
    pub due_soon_char: C,
    pub in_progress_char: C,
    pub important_char: C,
    pub default_char: C,
}

#[derive(Clone, Debug)]
pub struct ModulesConfig {
    pub home: HomeModule<String>,
    pub project_management: ProjectMangementModule<i32, String>,
}

/// The modules as a user file gives them.
#[derive(Clone, Debug)]
pub struct ModulesConfigFile {
    pub home: Option<HomeModule<Option<String>>>,
    pub project_management: Option<ProjectMangementModule<Option<i32>, Option<String>>>,
}

/// A profile: its name and the files it keeps apart.
#[derive(Clone, Debug)]
pub struct ProfileConfig<S> {
    pub name: S,
    pub config_file: S,
    pub db_file: S,
    pub log_file: S,
}

/// A user configuration file.
#[derive(Clone, Debug)]
pub struct ConfigFile {
    pub log_level: Option<String>,
    pub default_profile: Option<String>,
    pub profiles: Option<Vec<ProfileConfig<Option<String>>>>,
    pub colors: Option<ColorsConfig<Option<String>, Option<String>>>,
    pub modules: Option<ModulesConfigFile>,
}

/// The configuration with every field given; colors as text.
#[derive(Clone, Debug)]
pub struct Config {
    pub log_level: String,
    pub default_profile: Option<String>,
    pub colors: ColorsConfig<String, String>,
    pub modules: ModulesConfig,
    pub profiles: Vec<ProfileConfig<String>>,
}

/// A field that a profile of a user file must give.
#[derive(Clone, Copy, Debug, PartialEq, Eq, Structural)]
pub enum ProfileField {
    Name,
    ConfigFile,
    DbFile,
    LogFile,
}

/// Why a user file cannot be merged.
#[derive(Clone, Copy, Debug, PartialEq, Eq, Structural)]
pub enum ConfigError {
    /// The profile at `index` lacks `field`.
    MissingProfileField { index: usize, field: ProfileField },
}

pub open spec fn pick<T>(o: Option<T>, base: T) -> T {
    match o {
        Some(v) => v,
        None => base,
    }
}

fn or_base<T>(o: Option<T>, base: T) -> (r: T)
    ensures
        r == pick(o, base),
{
    match o {
        Some(v) => v,
        None => base,
    }
}

/// A preset name is kept only when it is a known preset.
pub open spec fn merged_preset(user: Option<String>, base: String) -> String {
    match user {
        Some(p) => if p@ == DEFAULT_PRESET@ {
            p
        } else {
            base
        },
        None => base,
    }
}

pub open spec fn merged_colors(
    user: ColorsConfig<Option<String>, Option<String>>,
    base: ColorsConfig<String, String>,
) -> ColorsConfig<String, String> {
    ColorsConfig {
        preset: merged_preset(user.preset, base.preset),
        fg: pick(user.fg, base.fg),
        bg: pick(user.bg, base.bg),
        secondary_fg: pick(user.secondary_fg, base.secondary_fg),
        tertiary_fg: pick(user.tertiary_fg, base.tertiary_fg),
        highlight_fg: pick(user.highlight_fg, base.highlight_fg),
        primary: pick(user.primary, base.primary),
        success: pick(user.success, base.success),
        warning: pick(user.warning, base.warning),
        danger: pick(user.danger, base.danger),
        date_fg: pick(user.date_fg, base.date_fg),
        time_fg: pick(user.time_fg, base.time_fg),
        input_fg: pick(user.input_fg, base.input_fg),
        input_bg: pick(user.input_bg, base.input_bg),
        input_focus_fg: pick(user.input_focus_fg, base.input_focus_fg),
        input_focus_bg: pick(user.input_focus_bg, base.input_focus_bg),
        input_cursor_fg: pick(user.input_cursor_fg, base.input_cursor_fg),
        input_cursor_bg: pick(user.input_cursor_bg, base.input_cursor_bg),
        input_cursor_insert_fg: pick(user.input_cursor_insert_fg, base.input_cursor_insert_fg),
        input_cursor_insert_bg: pick(user.input_cursor_insert_bg, base.input_cursor_insert_bg),
        active_fg: pick(user.active_fg, base.active_fg),
        active_bg: pick(user.active_bg, base.active_bg),
        border: pick(user.border, base.border),
        border_active: pick(user.border_active, base.border_active),
        border_insert: pick(user.border_insert, base.border_insert),
        popup_bg: pick(user.popup_bg, base.popup_bg),
        popup_border: pick(user.popup_border, base.popup_border),
        keybind_key: pick(user.keybind_key, base.keybind_key),
        keybind_fg: pick(user.keybind_fg, base.keybind_fg),
        title_bar_bg: pick(user.title_bar_bg, base.title_bar_bg),
        title_bar_fg: pick(user.title_bar_fg, base.title_bar_fg),
        tab_fg: pick(user.tab_fg, base.tab_fg),
        tab_active_fg: pick(user.tab_active_fg, base.tab_active_fg),
        tab_border: pick(user.tab_border, base.tab_border),
        status_bar_bg: pick(user.status_bar_bg, base.status_bar_bg),
        status_bar_fg: pick(user.status_bar_fg, base.status_bar_fg),
        status_bar_normal_mode_bg: pick(user.status_bar_normal_mode_bg, base.status_bar_normal_mode_bg),
        status_bar_normal_mode_fg: pick(user.status_bar_normal_mode_fg, base.status_bar_normal_mode_fg),
        status_bar_insert_mode_bg: pick(user.status_bar_insert_mode_bg, base.status_bar_insert_mode_bg),
        status_bar_insert_mode_fg: pick(user.status_bar_insert_mode_fg, base.status_bar_insert_mode_fg),
        status_bar_interactive_mode_bg: pick(user.status_bar_interactive_mode_bg, base.status_bar_interactive_mode_bg),
        status_bar_interactive_mode_fg: pick(user.status_bar_interactive_mode_fg, base.status_bar_interactive_mode_fg),
        status_bar_delete_mode_bg: pick(user.status_bar_delete_mode_bg, base.status_bar_delete_mode_bg),
        status_bar_delete_mode_fg: pick(user.status_bar_delete_mode_fg, base.status_bar_delete_mode_fg),
    }
}

pub open spec fn merged_home(user: HomeModule<Option<String>>, base: HomeModule<String>) -> HomeModule<String> {
    HomeModule {
        dashboard_title: pick(user.dashboard_title, base.dashboard_title),
        dashboard_message: pick(user.dashboard_message, base.dashboard_message),
    }
}

pub open spec fn merged_project_management(
    user: ProjectMangementModule<Option<i32>, Option<String>>,
    base: ProjectMangementModule<i32, String>,
) -> ProjectMangementModule<i32, String> {
    ProjectMangementModule {
        max_lists: pick(user.max_lists, base.max_lists),
        due_soon_days: pick(user.due_soon_days, base.due_soon_days),
        completed_char: pick(user.completed_char, base.completed_char),
        overdue_char: pick(user.overdue_char, base.overdue_char),
        due_soon_char: pick(user.due_soon_char, base.due_soon_char),
        in_progress_char: pick(user.in_progress_char, base.in_progress_char),
        important_char: pick(user.important_char, base.important_char),
        default_char: pick(user.default_char, base.default_char),
    }
}

/// A group missing from the file passes its default through whole.
pub open spec fn merged_modules(user: ModulesConfigFile, base: ModulesConfig) -> ModulesConfig {
    ModulesConfig {
        home: match user.home {
            Some(h) => merged_home(h, base.home),
            None => base.home,
        },
        project_management: match user.project_management {
            Some(p) => merged_project_management(p, base.project_management),
            None => base.project_management,
        },
    }
}

/// The first field a profile of a user file lacks, if any.
pub open spec fn missing_field(p: ProfileConfig<Option<String>>) -> Option<ProfileField> {
    if p.name.is_none() {
        Some(ProfileField::Name)
    } else if p.config_file.is_none() {
        Some(ProfileField::ConfigFile)
    } else if p.db_file.is_none() {
        Some(ProfileField::DbFile)
    } else if p.log_file.is_none() {
        Some(ProfileField::LogFile)
    } else {
        None
    }
}

pub open spec fn filled(p: ProfileConfig<Option<String>>) -> ProfileConfig<String> {
    ProfileConfig {
        name: p.name.unwrap(),
        config_file: p.config_file.unwrap(),
        db_file: p.db_file.unwrap(),
        log_file: p.log_file.unwrap(),
    }
}

/// Every profile of the list gives all four fields.
pub open spec fn profiles_complete(ps: Seq<ProfileConfig<Option<String>>>) -> bool {
    forall|i: int| 0 <= i < ps.len() ==> (#[trigger] missing_field(ps[i])).is_none()
}

/// The merged configuration, for a file whose profiles are complete.
pub open spec fn merged_config(user: ConfigFile, base: Config) -> Config {
    Config {
        log_level: pick(user.log_level, base.log_level),
        default_profile: match user.default_profile {
            Some(p) => Some(p),
            None => base.default_profile,
        },
        colors: match user.colors {
            Some(c) => merged_colors(c, base.colors),
            None => base.colors,
        },
        modules: match user.modules {
            Some(m) => merged_modules(m, base.modules),
            None => base.modules,
        },
        profiles: base.profiles,
    }
}

fn merge_preset(user: Option<String>, base: String) -> (r: String)
    ensures
        r == merged_preset(user, base),
{
    match user {
        Some(p) => {
            let known = DEFAULT_PRESET.to_owned();
            if p == known {
                p
            } else {
                base
            }
        },
        None => base,
    }
}

fn merge_colors(
    user: ColorsConfig<Option<String>, Option<String>>,
    base: ColorsConfig<String, String>,
) -> (r: ColorsConfig<String, String>)
    ensures
        r == merged_colors(user, base),
{
    ColorsConfig {
        preset: merge_preset(user.preset, base.preset),
        fg: or_base(user.fg, base.fg),
        bg: or_base(user.bg, base.bg),
        secondary_fg: or_base(user.secondary_fg, base.secondary_fg),
        tertiary_fg: or_base(user.tertiary_fg, base.tertiary_fg),
        highlight_fg: or_base(user.highlight_fg, base.highlight_fg),
        primary: or_base(user.primary, base.primary),
        success: or_base(user.success, base.success),
        warning: or_base(user.warning, base.warning),
        danger: or_base(user.danger, base.danger),
        date_fg: or_base(user.date_fg, base.date_fg),
        time_fg: or_base(user.time_fg, base.time_fg),
        input_fg: or_base(user.input_fg, base.input_fg),
        input_bg: or_base(user.input_bg, base.input_bg),
        input_focus_fg: or_base(user.input_focus_fg, base.input_focus_fg),
        input_focus_bg: or_base(user.input_focus_bg, base.input_focus_bg),
        input_cursor_fg: or_base(user.input_cursor_fg, base.input_cursor_fg),
        input_cursor_bg: or_base(user.input_cursor_bg, base.input_cursor_bg),
        input_cursor_insert_fg: or_base(user.input_cursor_insert_fg, base.input_cursor_insert_fg),
        input_cursor_insert_bg: or_base(user.input_cursor_insert_bg, base.input_cursor_insert_bg),
        active_fg: or_base(user.active_fg, base.active_fg),
        active_bg: or_base(user.active_bg, base.active_bg),
        border: or_base(user.border, base.border),
        border_active: or_base(user.border_active, base.border_active),
        border_insert: or_base(user.border_insert, base.border_insert),
        popup_bg: or_base(user.popup_bg, base.popup_bg),
        popup_border: or_base(user.popup_border, base.popup_border),
        keybind_key: or_base(user.keybind_key, base.keybind_key),
        keybind_fg: or_base(user.keybind_fg, base.keybind_fg),
        title_bar_bg: or_base(user.title_bar_bg, base.title_bar_bg),
        title_bar_fg: or_base(user.title_bar_fg, base.title_bar_fg),
        tab_fg: or_base(user.tab_fg, base.tab_fg),
        tab_active_fg: or_base(user.tab_active_fg, base.tab_active_fg),
        tab_border: or_base(user.tab_border, base.tab_border),
        status_bar_bg: or_base(user.status_bar_bg, base.status_bar_bg),
        status_bar_fg: or_base(user.status_bar_fg, base.status_bar_fg),
        status_bar_normal_mode_bg: or_base(user.status_bar_normal_mode_bg, base.status_bar_normal_mode_bg),
        status_bar_normal_mode_fg: or_base(user.status_bar_normal_mode_fg, base.status_bar_normal_mode_fg),
        status_bar_insert_mode_bg: or_base(user.status_bar_insert_mode_bg, base.status_bar_insert_mode_bg),
        status_bar_insert_mode_fg: or_base(user.status_bar_insert_mode_fg, base.status_bar_insert_mode_fg),
        status_bar_interactive_mode_bg: or_base(user.status_bar_interactive_mode_bg, base.status_bar_interactive_mode_bg),
        status_bar_interactive_mode_fg: or_base(user.status_bar_interactive_mode_fg, base.status_bar_interactive_mode_fg),
        status_bar_delete_mode_bg: or_base(user.status_bar_delete_mode_bg, base.status_bar_delete_mode_bg),
        status_bar_delete_mode_fg: or_base(user.status_bar_delete_mode_fg, base.status_bar_delete_mode_fg),
    }
}

fn merge_modules(user: ModulesConfigFile, base: ModulesConfig) -> (r: ModulesConfig)
    ensures
        r == merged_modules(user, base),
{
    let home = match user.home {
        Some(a) => HomeModule {
            dashboard_title: or_base(a.dashboard_title, base.home.dashboard_title),
            dashboard_message: or_base(a.dashboard_message, base.home.dashboard_message),
        },
        None => base.home,
    };
    let project_management = match user.project_management {
        Some(a) => {
            let b = base.project_management;
            ProjectMangementModule {
                max_lists: or_base(a.max_lists, b.max_lists),
                due_soon_days: or_base(a.due_soon_days, b.due_soon_days),
                completed_char: or_base(a.completed_char, b.completed_char),
                overdue_char: or_base(a.overdue_char, b.overdue_char),
                due_soon_char: or_base(a.due_soon_char, b.due_soon_char),
                in_progress_char: or_base(a.in_progress_char, b.in_progress_char),
                important_char: or_base(a.important_char, b.important_char),
                default_char: or_base(a.default_char, b.default_char),
            }
        },
        None => base.project_management,
    };
    ModulesConfig { home, project_management }
}

fn fill_profile(p: &ProfileConfig<Option<String>>) -> (r: Result<ProfileConfig<String>, ProfileField>)
    ensures
        match r {
            Ok(f) => missing_field(*p).is_none() && f == filled(*p),
            Err(field) => missing_field(*p) == Some(field),
        },
{
    let name = match &p.name {
        Some(v) => v.clone(),
        None => return Err(ProfileField::Name),
    };
    let config_file = match &p.config_file {
        Some(v) => v.clone(),
        None => return Err(ProfileField::ConfigFile),
    };
    let db_file = match &p.db_file {
        Some(v) => v.clone(),
        None => return Err(ProfileField::DbFile),
    };
    let log_file = match &p.log_file {
        Some(v) => v.clone(),
        None => return Err(ProfileField::LogFile),
    };
    Ok(ProfileConfig { name, config_file, db_file, log_file })
}

/// The first profile of a user file that lacks a field, with that field;
/// none when every profile is complete. A file with such a profile is a
/// fatal configuration error: check it before merging.
pub fn missing_profile_field(user_config: &ConfigFile) -> (r: Option<ConfigError>)
    ensures
        r.is_none() <==> match user_config.profiles {
            Some(ps) => profiles_complete(ps@),
            None => true,
        },
        match (r, user_config.profiles) {
            (Some(ConfigError::MissingProfileField { index, field }), Some(ps)) => {
                &&& index < ps@.len()
                &&& missing_field(ps@[index as int]) == Some(field)
                &&& profiles_complete(ps@.subrange(0, index as int))
            },
            _ => true,
        },
{
    let profiles = match &user_config.profiles {
        Some(ps) => ps,
        None => return None,
    };
    let mut i: usize = 0;
    while i < profiles.len()
        invariant
            user_config.profiles == Some(*profiles),
            i <= profiles@.len(),
            forall|j: int| 0 <= j < i ==> (#[trigger] missing_field(profiles@[j])).is_none(),
        decreases profiles@.len() - i,
    {
        match fill_profile(&profiles[i]) {
            Ok(_) => {},
            Err(field) => {
                proof {
                    let sub = profiles@.subrange(0, i as int);
                    assert forall|j: int| 0 <= j < sub.len() implies (#[trigger] missing_field(sub[j])).is_none() by {
                        assert(sub[j] == profiles@[j]);
                    }
                }
                return Some(ConfigError::MissingProfileField { index: i, field });
            },
        }
        i += 1;
    }
    None
}

/// The complete profiles of a user file, each with its four fields.
pub fn fill_profiles(profiles: &Vec<ProfileConfig<Option<String>>>) -> (r: Vec<ProfileConfig<String>>)
    requires
        profiles_complete(profiles@),
    ensures
        r@.len() == profiles@.len(),
        forall|i: int| 0 <= i < r@.len() ==> #[trigger] r@[i] == filled(profiles@[i]),
{
    let mut out: Vec<ProfileConfig<String>> = Vec::new();
    let mut i: usize = 0;
    while i < profiles.len()
        invariant
            profiles_complete(profiles@),
            i <= profiles@.len(),
            out@.len() == i,
            forall|j: int| 0 <= j < i ==> #[trigger] out@[j] == filled(profiles@[j]),
        decreases profiles@.len() - i,
    {
        assert(missing_field(profiles@[i as int]).is_none());
        match fill_profile(&profiles[i]) {
            Ok(p) => out.push(p),
            Err(_) => {},
        }
        i += 1;
    }
    out
}

/// Merges a user file over the defaults: a field given by the file wins, a
/// group the file lacks passes through whole, and the file's profiles, when
/// it has any, replace the default ones. Every profile of the file must be
/// complete (see `missing_profile_field`).
pub fn merge_config(user_config: ConfigFile, base_config: Config) -> (r: Config)
    requires
        match user_config.profiles {
            Some(ps) => profiles_complete(ps@),
            None => true,
        },
    ensures
        match user_config.profiles {
            Some(ps) => r.profiles@.len() == ps@.len() && (forall|i: int|
                0 <= i < ps@.len() ==> #[trigger] r.profiles@[i] == filled(ps@[i])) && (Config {
                profiles: base_config.profiles,
                ..r
            }) == merged_config(user_config, base_config),
            None => r == merged_config(user_config, base_config),
        },
{
    let profiles = match &user_config.profiles {
        Some(ps) => fill_profiles(ps),
        None => base_config.profiles,
    };
    let colors = match user_config.colors {
        Some(c) => merge_colors(c, base_config.colors),
        None => base_config.colors,
    };
    let modules = match user_config.modules {
        Some(m) => merge_modules(m, base_config.modules),
        None => base_config.modules,
    };
    let default_profile = match user_config.default_profile {
        Some(p) => Some(p),
        None => base_config.default_profile,
    };
    Config {
        log_level: or_base(user_config.log_level, base_config.log_level),
        default_profile,
        colors,
        modules,
        profiles,
    }
}
/// The compiled-in defaults, as text.
pub open spec fn is_base_config(c: Config) -> bool {
    &&& c.log_level@ == "info"@
    &&& c.default_profile.is_none()
    &&& c.colors.preset@ == DEFAULT_PRESET@
    &&& c.colors.fg@ == "#c0caf5"@
    &&& c.colors.bg@ == "#11121D"@
    &&& c.colors.secondary_fg@ == "#7f87ac"@
    &&& c.colors.tertiary_fg@ == "#2c344d"@
    &&& c.colors.highlight_fg@ == "#61a4ff"@
    &&& c.colors.primary@ == "#9556f7"@
    &&& c.colors.success@ == "#85f67a"@
    &&& c.colors.warning@ == "#ff9382"@
    &&& c.colors.danger@ == "#ff4d66"@
    &&& c.colors.date_fg@ == "#9293b8"@
    &&& c.colors.time_fg@ == "#717299"@
    &&& c.colors.input_fg@ == "#c0caf5"@
    &&& c.colors.input_bg@ == "#232b44"@
    &&& c.colors.input_focus_fg@ == "#c0caf5"@
    &&& c.colors.input_focus_bg@ == "#373f58"@
    &&& c.colors.input_cursor_fg@ == "#000000"@
    &&& c.colors.input_cursor_bg@ == "#7f87ac"@
    &&& c.colors.input_cursor_insert_fg@ == "#000000"@
    &&& c.colors.input_cursor_insert_bg@ == "#c0caf5"@
    &&& c.colors.active_fg@ == "#232b44"@
    &&& c.colors.active_bg@ == "#00ffff"@
    &&& c.colors.border@ == "#232b44"@
    &&& c.colors.border_active@ == "#4d556e"@
    &&& c.colors.border_insert@ == "#00FFFF"@
    &&& c.colors.popup_bg@ == "#11121D"@
    &&& c.colors.popup_border@ == "#A485DD"@
    &&& c.colors.keybind_key@ == "#A485DD"@
    &&& c.colors.keybind_fg@ == "#6698FF"@
    &&& c.colors.title_bar_bg@ == "#373f58"@
    &&& c.colors.title_bar_fg@ == "#CCCCCC"@
    &&& c.colors.tab_fg@ == "#7f87ac"@
    &&& c.colors.tab_active_fg@ == "#c0caf5"@
    &&& c.colors.tab_border@ == "#373f58"@
    &&& c.colors.status_bar_bg@ == "#232b44"@
    &&& c.colors.status_bar_fg@ == "#7f87ac"@
    &&& c.colors.status_bar_normal_mode_bg@ == "#9bff46"@
    &&& c.colors.status_bar_normal_mode_fg@ == "#232b44"@
    &&& c.colors.status_bar_insert_mode_bg@ == "#00ffff"@
    &&& c.colors.status_bar_insert_mode_fg@ == "#232b44"@
    &&& c.colors.status_bar_interactive_mode_bg@ == "#ffff32"@
    &&& c.colors.status_bar_interactive_mode_fg@ == "#232b44"@
    &&& c.colors.status_bar_delete_mode_bg@ == "#ff4d66"@
    &&& c.colors.status_bar_delete_mode_fg@ == "#232b44"@
    &&& c.modules.home.dashboard_title@ == "Privacy Life Tracker X"@
    &&& c.modules.home.dashboard_message@ == "Manage your personal life privately and securely."@
    &&& c.modules.project_management.max_lists == 5
    &&& c.modules.project_management.due_soon_days == 3
    &&& c.modules.project_management.completed_char@ == "✅"@
    &&& c.modules.project_management.overdue_char@ == "🚫"@
    &&& c.modules.project_management.due_soon_char@ == "⏰"@
    &&& c.modules.project_management.in_progress_char@ == "🌐"@
    &&& c.modules.project_management.important_char@ == "⭐"@
    &&& c.modules.project_management.default_char@ == " "@
    &&& c.profiles@.len() == 1
    &&& c.profiles@[0].name@ == "dev"@
    &&& c.profiles@[0].config_file@ == "dev.toml"@
    &&& c.profiles@[0].db_file@ == "dev.db"@
    &&& c.profiles@[0].log_file@ == "dev.log"@
}

/// The compiled-in defaults.
pub fn base_config() -> (r: Config)
    ensures
        is_base_config(r),
{
    let colors = ColorsConfig {
        preset: DEFAULT_PRESET.to_owned(),
        fg: "#c0caf5".to_owned(),
        bg: "#11121D".to_owned(),
        secondary_fg: "#7f87ac".to_owned(),
        tertiary_fg: "#2c344d".to_owned(),
        highlight_fg: "#61a4ff".to_owned(),
        primary: "#9556f7".to_owned(),
        success: "#85f67a".to_owned(),
        warning: "#ff9382".to_owned(),
        danger: "#ff4d66".to_owned(),
        date_fg: "#9293b8".to_owned(),
        time_fg: "#717299".to_owned(),
        input_fg: "#c0caf5".to_owned(),
        input_bg: "#232b44".to_owned(),
        input_focus_fg: "#c0caf5".to_owned(),
        input_focus_bg: "#373f58".to_owned(),
        input_cursor_fg: "#000000".to_owned(),
        input_cursor_bg: "#7f87ac".to_owned(),
        input_cursor_insert_fg: "#000000".to_owned(),
        input_cursor_insert_bg: "#c0caf5".to_owned(),
        active_fg: "#232b44".to_owned(),
        active_bg: "#00ffff".to_owned(),
        border: "#232b44".to_owned(),
        border_active: "#4d556e".to_owned(),
        border_insert: "#00FFFF".to_owned(),
        popup_bg: "#11121D".to_owned(),
        popup_border: "#A485DD".to_owned(),
        keybind_key: "#A485DD".to_owned(),
        keybind_fg: "#6698FF".to_owned(),
        title_bar_bg: "#373f58".to_owned(),
        title_bar_fg: "#CCCCCC".to_owned(),
        tab_fg: "#7f87ac".to_owned(),
        tab_active_fg: "#c0caf5".to_owned(),
        tab_border: "#373f58".to_owned(),
        status_bar_bg: "#232b44".to_owned(),
        status_bar_fg: "#7f87ac".to_owned(),
        status_bar_normal_mode_bg: "#9bff46".to_owned(),
        status_bar_normal_mode_fg: "#232b44".to_owned(),
        status_bar_insert_mode_bg: "#00ffff".to_owned(),
        status_bar_insert_mode_fg: "#232b44".to_owned(),
        status_bar_interactive_mode_bg: "#ffff32".to_owned(),
        status_bar_interactive_mode_fg: "#232b44".to_owned(),
        status_bar_delete_mode_bg: "#ff4d66".to_owned(),
        status_bar_delete_mode_fg: "#232b44".to_owned(),
    };
    let modules = ModulesConfig {
        home: HomeModule {
            dashboard_title: "Privacy Life Tracker X".to_owned(),
            dashboard_message: "Manage your personal life privately and securely.".to_owned(),
        },
        project_management: ProjectMangementModule {
            max_lists: 5,
            due_soon_days: 3,
            completed_char: "✅".to_owned(),
            overdue_char: "🚫".to_owned(),
            due_soon_char: "⏰".to_owned(),
            in_progress_char: "🌐".to_owned(),
            important_char: "⭐".to_owned(),
            default_char: " ".to_owned(),
        },
    };
    let mut profiles: Vec<ProfileConfig<String>> = Vec::new();
    profiles.push(
        ProfileConfig {
            name: "dev".to_owned(),
            config_file: "dev.toml".to_owned(),
            db_file: "dev.db".to_owned(),
            log_file: "dev.log".to_owned(),
        },
    );
    Config { log_level: "info".to_owned(), default_profile: None, colors, modules, profiles }
}

/// The defaults of a developer profile: verbose logging and a dashboard that
/// says which data it shows.
pub fn base_dev_config(base_config: Config) -> (r: Config)
    ensures
        r.log_level@ == "debug"@,
        r.modules.home.dashboard_title@ == "DEVELOPER PROFILE ENABLED"@,
        r.modules.home.dashboard_message@ == "This profile's data is separate!"@,
        r.default_profile == base_config.default_profile,
        r.colors == base_config.colors,
        r.modules.project_management == base_config.modules.project_management,
        r.profiles == base_config.profiles,
{
    let mut dev_config = base_config;
    dev_config.log_level = "debug".to_owned();
    dev_config.modules.home.dashboard_title = "DEVELOPER PROFILE ENABLED".to_owned();
    dev_config.modules.home.dashboard_message = "This profile's data is separate!".to_owned();
    dev_config
}

/// The profile of the configuration with this name, the first if several.
pub fn find_profile(config: &Config, name: &String) -> (r: Option<ProfileConfig<String>>)
    ensures
        match r {
            Some(p) => exists|i: int|
                0 <= i < config.profiles@.len() && config.profiles@[i] == p && #[trigger] config.profiles@[i].name@ == name@,
            None => forall|i: int|
                0 <= i < config.profiles@.len() ==> #[trigger] config.profiles@[i].name@ != name@,
        },
{
    let mut i: usize = 0;
    while i < config.profiles.len()
        invariant
            i <= config.profiles@.len(),
            forall|j: int| 0 <= j < i ==> #[trigger] config.profiles@[j].name@ != name@,
        decreases config.profiles@.len() - i,
    {
        if config.profiles[i].name == *name {
            let p = &config.profiles[i];
            return Some(
                ProfileConfig {
                    name: p.name.clone(),
                    config_file: p.config_file.clone(),
                    db_file: p.db_file.clone(),
                    log_file: p.log_file.clone(),
                },
            );
        }
        i += 1;
    }
    None
}

/// Every color of the group is text the renderer reads as a color.
pub open spec fn colors_resolve(c: ColorsConfig<String, String>) -> bool {
    names_color(c.fg@)
    && names_color(c.bg@)
    && names_color(c.secondary_fg@)
    && names_color(c.tertiary_fg@)
    && names_color(c.highlight_fg@)
    && names_color(c.primary@)
    && names_color(c.success@)
    && names_color(c.warning@)
    && names_color(c.danger@)
    && names_color(c.date_fg@)
    && names_color(c.time_fg@)
    && names_color(c.input_fg@)
    && names_color(c.input_bg@)
    && names_color(c.input_focus_fg@)
    && names_color(c.input_focus_bg@)
    && names_color(c.input_cursor_fg@)
    && names_color(c.input_cursor_bg@)
    && names_color(c.input_cursor_insert_fg@)
    && names_color(c.input_cursor_insert_bg@)
    && names_color(c.active_fg@)
    && names_color(c.active_bg@)
    && names_color(c.border@)
    && names_color(c.border_active@)
    && names_color(c.border_insert@)
    && names_color(c.popup_bg@)
    && names_color(c.popup_border@)
    && names_color(c.keybind_key@)
    && names_color(c.keybind_fg@)
    && names_color(c.title_bar_bg@)
    && names_color(c.title_bar_fg@)
    && names_color(c.tab_fg@)
    && names_color(c.tab_active_fg@)
    && names_color(c.tab_border@)
    && names_color(c.status_bar_bg@)
    && names_color(c.status_bar_fg@)
    && names_color(c.status_bar_normal_mode_bg@)
    && names_color(c.status_bar_normal_mode_fg@)
    && names_color(c.status_bar_insert_mode_bg@)
    && names_color(c.status_bar_insert_mode_fg@)
    && names_color(c.status_bar_interactive_mode_bg@)
    && names_color(c.status_bar_interactive_mode_fg@)
    && names_color(c.status_bar_delete_mode_bg@)
    && names_color(c.status_bar_delete_mode_fg@)
}

impl Config {
    /// The colors resolved for the renderer; none when any is not a color.
    pub fn resolve_colors(&self) -> (r: Option<ColorsConfig<String, Color>>)
        ensures
            r.is_some() == colors_resolve(self.colors),
            r.is_some() ==> r.unwrap().preset == self.colors.preset,
    {
        let c = &self.colors;
        let fg = match parse_color(c.fg.as_str()) {
            Some(v) => v,
            None => return None,
        };
        let bg = match parse_color(c.bg.as_str()) {
            Some(v) => v,
            None => return None,
        };
        let secondary_fg = match parse_color(c.secondary_fg.as_str()) {
            Some(v) => v,
            None => return None,
        };
        let tertiary_fg = match parse_color(c.tertiary_fg.as_str()) {
            Some(v) => v,
            None => return None,
        };
        let highlight_fg = match parse_color(c.highlight_fg.as_str()) {
            Some(v) => v,
            None => return None,
        };
        let primary = match parse_color(c.primary.as_str()) {
            Some(v) => v,
            None => return None,
        };
        let success = match parse_color(c.success.as_str()) {
            Some(v) => v,
            None => return None,
        };
        let warning = match parse_color(c.warning.as_str()) {
            Some(v) => v,
            None => return None,
        };
        let danger = match parse_color(c.danger.as_str()) {
            Some(v) => v,
            None => return None,
        };
        let date_fg = match parse_color(c.date_fg.as_str()) {
            Some(v) => v,
            None => return None,
        };
        let time_fg = match parse_color(c.time_fg.as_str()) {
            Some(v) => v,
            None => return None,
        };
        let input_fg = match parse_color(c.input_fg.as_str()) {
            Some(v) => v,
            None => return None,
        };
        let input_bg = match parse_color(c.input_bg.as_str()) {
            Some(v) => v,
            None => return None,
        };
        let input_focus_fg = match parse_color(c.input_focus_fg.as_str()) {
            Some(v) => v,
            None => return None,
        };
        let input_focus_bg = match parse_color(c.input_focus_bg.as_str()) {
            Some(v) => v,
            None => return None,
        };
        let input_cursor_fg = match parse_color(c.input_cursor_fg.as_str()) {
            Some(v) => v,
            None => return None,
        };
        let input_cursor_bg = match parse_color(c.input_cursor_bg.as_str()) {
            Some(v) => v,
            None => return None,
        };
        let input_cursor_insert_fg = match parse_color(c.input_cursor_insert_fg.as_str()) {
            Some(v) => v,
            None => return None,
        };
        let input_cursor_insert_bg = match parse_color(c.input_cursor_insert_bg.as_str()) {
            Some(v) => v,
            None => return None,
        };
        let active_fg = match parse_color(c.active_fg.as_str()) {
            Some(v) => v,
            None => return None,
        };
        let active_bg = match parse_color(c.active_bg.as_str()) {
            Some(v) => v,
            None => return None,
        };
        let border = match parse_color(c.border.as_str()) {
            Some(v) => v,
            None => return None,
        };
        let border_active = match parse_color(c.border_active.as_str()) {
            Some(v) => v,
            None => return None,
        };
        let border_insert = match parse_color(c.border_insert.as_str()) {
            Some(v) => v,
            None => return None,
        };
        let popup_bg = match parse_color(c.popup_bg.as_str()) {
            Some(v) => v,
            None => return None,
        };
        let popup_border = match parse_color(c.popup_border.as_str()) {
            Some(v) => v,
            None => return None,
        };
        let keybind_key = match parse_color(c.keybind_key.as_str()) {
            Some(v) => v,
            None => return None,
        };
        let keybind_fg = match parse_color(c.keybind_fg.as_str()) {
            Some(v) => v,
            None => return None,
        };
        let title_bar_bg = match parse_color(c.title_bar_bg.as_str()) {
            Some(v) => v,
            None => return None,
        };
        let title_bar_fg = match parse_color(c.title_bar_fg.as_str()) {
            Some(v) => v,
            None => return None,
        };
        let tab_fg = match parse_color(c.tab_fg.as_str()) {
            Some(v) => v,
            None => return None,
        };
        let tab_active_fg = match parse_color(c.tab_active_fg.as_str()) {
            Some(v) => v,
            None => return None,
        };
        let tab_border = match parse_color(c.tab_border.as_str()) {
            Some(v) => v,
            None => return None,
        };
        let status_bar_bg = match parse_color(c.status_bar_bg.as_str()) {
            Some(v) => v,
            None => return None,
        };
        let status_bar_fg = match parse_color(c.status_bar_fg.as_str()) {
            Some(v) => v,
            None => return None,
        };
        let status_bar_normal_mode_bg = match parse_color(c.status_bar_normal_mode_bg.as_str()) {
            Some(v) => v,
            None => return None,
        };
        let status_bar_normal_mode_fg = match parse_color(c.status_bar_normal_mode_fg.as_str()) {
            Some(v) => v,
            None => return None,
        };
        let status_bar_insert_mode_bg = match parse_color(c.status_bar_insert_mode_bg.as_str()) {
            Some(v) => v,
            None => return None,
        };
        let status_bar_insert_mode_fg = match parse_color(c.status_bar_insert_mode_fg.as_str()) {
            Some(v) => v,
            None => return None,
        };
        let status_bar_interactive_mode_bg = match parse_color(c.status_bar_interactive_mode_bg.as_str()) {
            Some(v) => v,
            None => return None,
        };
        let status_bar_interactive_mode_fg = match parse_color(c.status_bar_interactive_mode_fg.as_str()) {
            Some(v) => v,
            None => return None,
        };
        let status_bar_delete_mode_bg = match parse_color(c.status_bar_delete_mode_bg.as_str()) {
            Some(v) => v,
            None => return None,
        };
        let status_bar_delete_mode_fg = match parse_color(c.status_bar_delete_mode_fg.as_str()) {
            Some(v) => v,
            None => return None,
        };
        Some(ColorsConfig {
            preset: c.preset.clone(),
            fg,
            bg,
            secondary_fg,
            tertiary_fg,
            highlight_fg,
            primary,
            success,
            warning,
            danger,
            date_fg,
            time_fg,
            input_fg,
            input_bg,
            input_focus_fg,
            input_focus_bg,
            input_cursor_fg,
            input_cursor_bg,
            input_cursor_insert_fg,
            input_cursor_insert_bg,
            active_fg,
            active_bg,
            border,
            border_active,
            border_insert,
            popup_bg,
            popup_border,
            keybind_key,
            keybind_fg,
            title_bar_bg,
            title_bar_fg,
            tab_fg,
            tab_active_fg,
            tab_border,
            status_bar_bg,
            status_bar_fg,
            status_bar_normal_mode_bg,
            status_bar_normal_mode_fg,
            status_bar_insert_mode_bg,
            status_bar_insert_mode_fg,
            status_bar_interactive_mode_bg,
            status_bar_interactive_mode_fg,
            status_bar_delete_mode_bg,
            status_bar_delete_mode_fg,
        })
    }
}

} // verus!
