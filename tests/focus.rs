use pltx::focus::{AppModule, AppPopup, AppState, Display, Mode, PopupKind, Screen};
use pltx::help::Help;
use pltx::key::Key;
use pltx::keybinds::{handle_key_event, Navigator, Window};

#[test]
fn opening_an_editor_popup_sets_view_and_insert_mode() {
    let mut app = AppState::init();
    app.open_popup(PopupKind::Editor);
    assert_eq!(app.display, Display { view: Screen::Popup, mode: Mode::Insert });
    app.close_popup();
    assert_eq!(app.display, Display { view: Screen::Default, mode: Mode::Navigation });
    assert!(app.covered.is_empty());
}

#[test]
fn closing_restores_the_display_that_was_covered() {
    let mut app = AppState::init();
    app.set_mode(Mode::Delete);
    app.open_popup(PopupKind::Viewer);
    assert_eq!(app.display, Display { view: Screen::Popup, mode: Mode::Popup });
    app.open_popup(PopupKind::Editor);
    app.set_mode(Mode::Navigation);
    app.close_popup();
    assert_eq!(app.display, Display { view: Screen::Popup, mode: Mode::Popup });
    app.close_popup();
    assert_eq!(app.display, Display { view: Screen::Default, mode: Mode::Delete });
}

#[test]
fn closing_without_a_popup_returns_to_browsing() {
    let mut app = AppState::init();
    app.command_display();
    app.close_popup();
    assert_eq!(app.display, Display { view: Screen::Default, mode: Mode::Navigation });
}

#[test]
fn help_closes_on_question_mark() {
    let mut app = AppState::init();
    app.popup_display();
    app.popup = AppPopup::Help;
    let mut help = Help::init();
    assert_eq!(help.height_percent, 90);
    help.key_event_handler(&mut app, Key::Char('x'));
    assert_eq!(app.popup, AppPopup::Help);
    help.key_event_handler(&mut app, Key::Char('?'));
    assert_eq!(app.popup, AppPopup::NoPopup);
    assert_eq!(app.display.view, Screen::Default);
}

#[test]
fn global_keys_cycle_screens_and_windows() {
    let mut app = AppState::init();
    let mut nav = Navigator { screen: 0, screen_count: 3, window: Window::Navigation };
    handle_key_event(&mut app, &mut nav, Key::Char('k'));
    assert_eq!(nav.screen, 2);
    handle_key_event(&mut app, &mut nav, Key::Char('j'));
    assert_eq!(nav.screen, 0);
    handle_key_event(&mut app, &mut nav, Key::Char('l'));
    assert_eq!(nav.window, Window::Screen);
    handle_key_event(&mut app, &mut nav, Key::Char('?'));
    assert_eq!(app.popup, AppPopup::Help);
    assert_eq!(app.display.mode, Mode::Popup);
    handle_key_event(&mut app, &mut nav, Key::Esc);
    assert_eq!(app.popup, AppPopup::NoPopup);
    assert_eq!(app.module, AppModule::Dashboard);
    handle_key_event(&mut app, &mut nav, Key::Char('q'));
    assert!(!app.running);
}
