use pltx::config::{get_base_config, get_config, merge_config, ColorsConfigGeneric, ConfigFile};
use pltx::config_layers::{
    self, base_config, base_dev_config, find_profile, missing_profile_field, ConfigError, ModulesConfigFile,
    ProfileConfig, ProfileField, ProjectMangementModule,
};

fn no_colors() -> ColorsConfigGeneric<Option<String>> {
    ColorsConfigGeneric {
        primary: None,
        secondary: None,
        bg: None,
        fg: None,
        active_fg: None,
        active_bg: None,
        border: None,
        border_insert: None,
        popup_bg: None,
        popup_border: None,
        keybind_key: None,
        keybind_fg: None,
        title_bar_bg: None,
        title_bar_fg: None,
        status_bar_bg: None,
        status_bar_fg: None,
        status_bar_navigation_mode_bg: None,
        status_bar_navigation_mode_fg: None,
        status_bar_insert_mode_bg: None,
        status_bar_insert_mode_fg: None,
        status_bar_popup_mode_bg: None,
        status_bar_popup_mode_fg: None,
        status_bar_popup_insert_mode_bg: None,
        status_bar_popup_insert_mode_fg: None,
        status_bar_delete_mode_bg: None,
        status_bar_delete_mode_fg: None,
        status_bar_command_mode_bg: None,
        status_bar_command_mode_fg: None,
        status_bar_command_insert_mode_bg: None,
        status_bar_command_insert_mode_fg: None,
    }
}

#[test]
fn overriding_the_foreground_keeps_everything_else() {
    let base = get_base_config();
    assert_eq!(base.log_level, "info");
    assert_eq!(base.colors.fg, "#FFFFFF");
    let user = ConfigFile {
        log_level: None,
        colors: Some(ColorsConfigGeneric { fg: Some(String::from("#000000")), ..no_colors() }),
    };
    let merged = merge_config(user, get_base_config());
    assert_eq!(merged.log_level, "info");
    assert_eq!(merged.colors.fg, "#000000");
    assert_eq!(merged.colors.bg, base.colors.bg);
    assert_eq!(merged.colors.primary, "#AF5FFF");
    assert_eq!(merged.colors.status_bar_command_insert_mode_fg, "#000000");
    assert_eq!(merged.colors.border, "#777777");
}

#[test]
fn no_colors_group_passes_the_defaults_through() {
    let user = ConfigFile { log_level: Some(String::from("debug")), colors: None };
    let merged = get_config(Some(user));
    assert_eq!(merged.log_level, "debug");
    assert_eq!(merged.colors.keybind_fg, "#6698FF");
    assert_eq!(get_config(None).log_level, "info");
}

#[test]
fn colors_resolve_only_when_all_are_colors() {
    let base = get_base_config();
    let resolved = base.resolve_colors().expect("the defaults are colors");
    assert_eq!(resolved.fg, ratatui::style::Color::Rgb(255, 255, 255));
    assert_eq!(resolved.primary, ratatui::style::Color::Rgb(0xAF, 0x5F, 0xFF));
    let user = ConfigFile {
        log_level: None,
        colors: Some(ColorsConfigGeneric { bg: Some(String::from("#12")), ..no_colors() }),
    };
    let merged = merge_config(user, get_base_config());
    assert!(merged.resolve_colors().is_none());
    let named = ConfigFile {
        log_level: None,
        colors: Some(ColorsConfigGeneric { bg: Some(String::from("red")), ..no_colors() }),
    };
    let merged = merge_config(named, get_base_config());
    assert_eq!(merged.resolve_colors().unwrap().bg, ratatui::style::Color::Red);
}

fn empty_file() -> config_layers::ConfigFile {
    config_layers::ConfigFile {
        log_level: None,
        default_profile: None,
        profiles: None,
        colors: None,
        modules: None,
    }
}

#[test]
fn layered_defaults() {
    let c = base_config();
    assert_eq!(c.log_level, "info");
    assert_eq!(c.colors.preset, "default");
    assert_eq!(c.colors.fg, "#c0caf5");
    assert_eq!(c.modules.project_management.due_soon_days, 3);
    assert_eq!(c.modules.project_management.max_lists, 5);
    assert_eq!(c.profiles.len(), 1);
    assert_eq!(c.profiles[0].db_file, "dev.db");
    let dev = base_dev_config(base_config());
    assert_eq!(dev.log_level, "debug");
    assert_eq!(dev.modules.home.dashboard_title, "DEVELOPER PROFILE ENABLED");
    assert_eq!(dev.colors.fg, "#c0caf5");
}

#[test]
fn layered_merge_digs_into_present_groups_only() {
    let mut user = empty_file();
    user.modules = Some(ModulesConfigFile {
        home: None,
        project_management: Some(ProjectMangementModule {
            max_lists: None,
            due_soon_days: Some(7),
            completed_char: Some(String::from("x")),
            overdue_char: None,
            due_soon_char: None,
            in_progress_char: None,
            important_char: None,
            default_char: None,
        }),
    });
    user.default_profile = Some(String::from("work"));
    let merged = config_layers::merge_config(user, base_config());
    assert_eq!(merged.modules.project_management.due_soon_days, 7);
    assert_eq!(merged.modules.project_management.max_lists, 5);
    assert_eq!(merged.modules.project_management.completed_char, "x");
    assert_eq!(merged.modules.project_management.overdue_char, "🚫");
    assert_eq!(merged.modules.home.dashboard_title, "Privacy Life Tracker X");
    assert_eq!(merged.default_profile, Some(String::from("work")));
    assert_eq!(merged.log_level, "info");
}

fn profile(name: Option<&str>, log: Option<&str>) -> ProfileConfig<Option<String>> {
    ProfileConfig {
        name: name.map(String::from),
        config_file: Some(String::from("p.toml")),
        db_file: Some(String::from("p.db")),
        log_file: log.map(String::from),
    }
}

#[test]
fn profiles_replace_the_defaults_whole() {
    let mut user = empty_file();
    user.profiles = Some(vec![profile(Some("a"), Some("a.log")), profile(Some("b"), Some("b.log"))]);
    let merged = config_layers::merge_config(user, base_config());
    assert_eq!(merged.profiles.len(), 2);
    assert_eq!(merged.profiles[1].name, "b");
    let found = find_profile(&merged, &String::from("b")).unwrap();
    assert_eq!(found.log_file, "b.log");
    assert!(find_profile(&merged, &String::from("dev")).is_none());
}

#[test]
fn a_profile_missing_a_field_is_an_error() {
    let mut user = empty_file();
    user.profiles = Some(vec![profile(Some("a"), Some("a.log")), profile(Some("b"), None)]);
    assert_eq!(
        missing_profile_field(&user),
        Some(ConfigError::MissingProfileField { index: 1, field: ProfileField::LogFile })
    );
    let mut user = empty_file();
    user.profiles = Some(vec![profile(None, None)]);
    assert_eq!(
        missing_profile_field(&user),
        Some(ConfigError::MissingProfileField { index: 0, field: ProfileField::Name })
    );
    assert_eq!(missing_profile_field(&empty_file()), None);
}

#[test]
fn unknown_presets_fall_back_to_the_default() {
    let base = base_config();
    let mut colors = config_layers::ColorsConfig {
        preset: Some(String::from("neon")),
        fg: Some(String::from("#000000")),
        ..base_colors_none(&base)
    };
    let mut user = empty_file();
    user.colors = Some(colors.clone());
    let merged = config_layers::merge_config(user, base_config());
    assert_eq!(merged.colors.preset, "default");
    assert_eq!(merged.colors.fg, "#000000");
    assert_eq!(merged.colors.bg, "#11121D");
    colors.preset = Some(String::from("default"));
    let mut user = empty_file();
    user.colors = Some(colors);
    let merged = config_layers::merge_config(user, base_config());
    assert_eq!(merged.colors.preset, "default");
}

fn base_colors_none(
    _base: &config_layers::Config,
) -> config_layers::ColorsConfig<Option<String>, Option<String>> {
    config_layers::ColorsConfig {
        preset: None,
        fg: None,
        bg: None,
        secondary_fg: None,
        tertiary_fg: None,
        highlight_fg: None,
        primary: None,
        success: None,
        warning: None,
        danger: None,
        date_fg: None,
        time_fg: None,
        input_fg: None,
        input_bg: None,
        input_focus_fg: None,
        input_focus_bg: None,
        input_cursor_fg: None,
        input_cursor_bg: None,
        input_cursor_insert_fg: None,
        input_cursor_insert_bg: None,
        active_fg: None,
        active_bg: None,
        border: None,
        border_active: None,
        border_insert: None,
        popup_bg: None,
        popup_border: None,
        keybind_key: None,
        keybind_fg: None,
        title_bar_bg: None,
        title_bar_fg: None,
        tab_fg: None,
        tab_active_fg: None,
        tab_border: None,
        status_bar_bg: None,
        status_bar_fg: None,
        status_bar_normal_mode_bg: None,
        status_bar_normal_mode_fg: None,
        status_bar_insert_mode_bg: None,
        status_bar_insert_mode_fg: None,
        status_bar_interactive_mode_bg: None,
        status_bar_interactive_mode_fg: None,
        status_bar_delete_mode_bg: None,
        status_bar_delete_mode_fg: None,
    }
}

#[test]
fn layered_colors_resolve() {
    let c = base_config();
    let r = c.resolve_colors().unwrap();
    assert_eq!(r.fg, ratatui::style::Color::Rgb(0xc0, 0xca, 0xf5));
    assert_eq!(r.preset, "default");
}
