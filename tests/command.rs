use pltx::command_handler::{command_data, command_strings, options_for, Command, CommandHandler, CommandPane};
use pltx::focus::{AppModule, AppPopup, AppState, Mode};
use pltx::key::Key;

fn type_text(h: &mut CommandHandler, app: &mut AppState, text: &str) {
    for c in text.chars() {
        h.key_event_handler(app, Key::Char(c));
    }
}

fn insert_mode_app() -> AppState {
    let mut app = AppState::init();
    app.set_mode(Mode::Insert);
    app
}

#[test]
fn the_table_in_order() {
    let data = command_data();
    assert_eq!(data.len(), 4);
    assert_eq!(data[0], (Command::Dashboard, "dashboard"));
    assert_eq!(data[2], (Command::ProjectManagement, "project management"));
    assert_eq!(command_strings(), vec!["dashboard", "help", "project management", "quit"]);
}

#[test]
fn empty_input_lists_every_command() {
    let h = CommandHandler::init();
    assert_eq!(h.command_options, vec!["dashboard", "help", "project management", "quit"]);
    assert_eq!(options_for("", vec![]), vec!["dashboard", "help", "project management", "quit"]);
}

#[test]
fn proj_matches_only_project_management() {
    let mut app = insert_mode_app();
    let mut h = CommandHandler::init();
    type_text(&mut h, &mut app, "proj");
    assert_eq!(h.command.input, "proj");
    assert_eq!(h.command_options, vec!["project management"]);
    assert_eq!(h.selected_option, 0);
}

#[test]
fn input_longer_than_every_command_lists_nothing() {
    let long = "x".repeat(51);
    assert!(options_for(&long, vec![String::from("quit")]).is_empty());
    let mut app = insert_mode_app();
    let mut h = CommandHandler::init();
    type_text(&mut h, &mut app, &"p".repeat(19));
    assert!(h.command_options.is_empty());
    assert_eq!(h.parse_command(), Command::NoCommand);
}

#[test]
fn a_non_matching_query_lists_nothing() {
    let mut app = insert_mode_app();
    let mut h = CommandHandler::init();
    type_text(&mut h, &mut app, "zzz");
    assert!(h.command_options.is_empty());
}

#[test]
fn enter_runs_the_selected_command_and_resets() {
    let mut app = insert_mode_app();
    let mut h = CommandHandler::init();
    type_text(&mut h, &mut app, "proj");
    h.key_event_handler(&mut app, Key::Enter);
    assert_eq!(app.module, AppModule::ProjectManagement);
    assert_eq!(app.display.mode, Mode::Navigation);
    assert_eq!(h.command.input, "");
    assert_eq!(h.command_options.len(), 4);
    assert_eq!(h.focused_pane, CommandPane::Input);
}

#[test]
fn help_and_quit() {
    let mut app = insert_mode_app();
    let mut h = CommandHandler::init();
    type_text(&mut h, &mut app, "help");
    h.key_event_handler(&mut app, Key::Enter);
    assert_eq!(app.popup, AppPopup::Help);
    let mut app = insert_mode_app();
    type_text(&mut h, &mut app, "quit");
    h.key_event_handler(&mut app, Key::Enter);
    assert!(!app.running);
}

#[test]
fn browsing_keys_move_between_panes() {
    let mut app = AppState::init();
    let mut h = CommandHandler::init();
    h.key_event_handler(&mut app, Key::Char('j'));
    assert_eq!(h.focused_pane, CommandPane::Options);
    h.key_event_handler(&mut app, Key::Char('k'));
    assert_eq!(h.focused_pane, CommandPane::Input);
    assert_eq!(h.parse_command(), Command::Dashboard);
}
