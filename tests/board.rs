use pltx::config_layers::base_config;
use pltx::focus::{AppState, Mode, PopupKind, Screen};
use pltx::key::Key;
use pltx::project_management::open_project::{
    status_char, AfterRefresh, BoardAction, CardStatus, DeleteSelection, Focus, OpenProject,
    OpenProjectCard, OpenProjectPopup, ProjectData, ProjectList,
};
use pltx::store::StoreOp;

fn card(id: i32, list_id: i32, position: i32) -> OpenProjectCard {
    OpenProjectCard {
        id,
        list_id,
        title: format!("card {id}"),
        description: None,
        important: false,
        start_date: None,
        due_date: None,
        completed: false,
        position,
        labels: vec![],
        subtasks: vec![],
    }
}

fn data() -> ProjectData {
    ProjectData {
        title: String::from("Home"),
        labels: vec![],
        lists: vec![
            ProjectList { id: 1, title: String::from("Todo"), cards: vec![card(11, 1, 0), card(12, 1, 1), card(13, 1, 2)] },
            ProjectList { id: 2, title: String::from("Doing"), cards: vec![card(21, 2, 0)] },
            ProjectList { id: 3, title: String::from("Done"), cards: vec![] },
        ],
    }
}

fn board() -> OpenProject {
    let mut b = OpenProject::init();
    b.set_project_id(7);
    b.refresh(data());
    b
}

#[test]
fn refresh_builds_one_cursor_per_list() {
    let b = board();
    assert_eq!(b.list_selections, vec![0, 0, 0]);
    assert_eq!(b.selected_list_index, 0);
    assert_eq!(b.project_id, Some(7));
}

#[test]
fn move_right_emits_the_move_and_follows_the_card() {
    let mut b = board();
    b.list_selections[0] = 1;
    let op = b.move_card_right();
    match op {
        Some(StoreOp::MoveCard { card_id, from_list, to_list, position, vacated }) => {
            assert_eq!((card_id, from_list, to_list, position, vacated), (12, 1, 2, 1, 1));
        }
        _ => panic!("expected a move"),
    }
    assert_eq!(b.selected_list_index, 1);
    assert_eq!(b.list_selections[0], 0);
    assert_eq!(b.after_refresh, AfterRefresh::FocusCard { list: 1, card: 1 });
    let mut fresh = data();
    let moved = fresh.lists[0].cards.remove(1);
    fresh.lists[1].cards.push(OpenProjectCard { list_id: 2, position: 1, ..moved });
    fresh.lists[0].cards[1].position = 1;
    b.refresh(fresh);
    assert_eq!(b.list_selections, vec![0, 1, 0]);
    assert_eq!(b.after_refresh, AfterRefresh::Keep);
}

#[test]
fn move_into_an_empty_list_takes_position_zero() {
    let mut b = board();
    b.selected_list_index = 1;
    match b.move_card_right() {
        Some(StoreOp::MoveCard { card_id, to_list, position, vacated, .. }) => {
            assert_eq!((card_id, to_list, position, vacated), (21, 3, 0, 0));
        }
        _ => panic!("expected a move"),
    }
}

#[test]
fn no_move_off_the_edges() {
    let mut b = board();
    assert!(b.move_card_left().is_none());
    b.selected_list_index = 2;
    assert!(b.move_card_right().is_none());
    assert!(b.move_card_left().is_none());
    assert_eq!(b.selected_list_index, 2);
}

#[test]
fn list_and_card_swaps() {
    let mut b = board();
    match b.increment_list_position() {
        Some(StoreOp::IncrementListPosition { id, next_id }) => assert_eq!((id, next_id), (1, 2)),
        _ => panic!("expected a swap"),
    }
    assert_eq!(b.selected_list_index, 1);
    match b.decrement_list_position() {
        Some(StoreOp::DecrementListPosition { id, prev_id }) => assert_eq!((id, prev_id), (2, 1)),
        _ => panic!("expected a swap"),
    }
    assert_eq!(b.selected_list_index, 0);
    match b.increment_card_position() {
        Some(StoreOp::IncrementCardPosition { id, next_id }) => assert_eq!((id, next_id), (11, 12)),
        _ => panic!("expected a swap"),
    }
    assert_eq!(b.list_selections[0], 1);
    match b.decrement_card_position() {
        Some(StoreOp::DecrementCardPosition { id, prev_id }) => assert_eq!((id, prev_id), (12, 11)),
        _ => panic!("expected a swap"),
    }
    assert!(b.decrement_card_position().is_none());
}

#[test]
fn deleting_the_last_card_moves_the_cursor_up() {
    let mut b = board();
    b.list_selections[0] = 2;
    match b.delete_card() {
        Some(StoreOp::DeleteCard { card_id, list_id }) => assert_eq!((card_id, list_id), (13, 1)),
        _ => panic!("expected a delete"),
    }
    assert_eq!(b.list_selections[0], 1);
}

#[test]
fn delete_needs_confirmation() {
    let mut app = AppState::init();
    let mut b = board();
    let r = b.key_event_handler(&mut app, Key::Char('d'));
    assert!(matches!(r, BoardAction::Stay));
    assert_eq!(b.delete_selection, DeleteSelection::Card);
    assert_eq!(app.display.mode, Mode::Delete);
    let r = b.key_event_handler(&mut app, Key::Char('n'));
    assert!(matches!(r, BoardAction::Stay));
    assert_eq!(app.display.mode, Mode::Navigation);
    assert_eq!(b.delete_selection, DeleteSelection::Nothing);
    b.key_event_handler(&mut app, Key::Char('d'));
    match b.key_event_handler(&mut app, Key::Char('y')) {
        BoardAction::Apply(StoreOp::DeleteCard { card_id, list_id }) => assert_eq!((card_id, list_id), (11, 1)),
        _ => panic!("expected a delete"),
    }
    assert_eq!(app.display.mode, Mode::Delete);
    assert_eq!(b.delete_selection, DeleteSelection::Nothing);
    assert!(matches!(b.key_event_handler(&mut app, Key::Char('y')), BoardAction::Stay));
    b.stored(&mut app);
    assert_eq!(app.display.mode, Mode::Navigation);
}

#[test]
fn deleting_a_list_selects_its_left_neighbour() {
    let mut app = AppState::init();
    let mut b = board();
    b.selected_list_index = 1;
    b.key_event_handler(&mut app, Key::Char('k'));
    assert_eq!(b.focus, Focus::List);
    b.key_event_handler(&mut app, Key::Char('d'));
    assert_eq!(b.delete_selection, DeleteSelection::List);
    match b.key_event_handler(&mut app, Key::Char('y')) {
        BoardAction::Apply(StoreOp::DeleteList { list_id }) => assert_eq!(list_id, 2),
        _ => panic!("expected a delete"),
    }
    assert_eq!(b.selected_list_index, 0);
}

#[test]
fn toggles_flip_the_focused_card() {
    let mut app = AppState::init();
    let mut b = board();
    match b.key_event_handler(&mut app, Key::Char('c')) {
        BoardAction::Apply(StoreOp::SetCardCompleted { card_id, completed }) => assert_eq!((card_id, completed), (11, true)),
        _ => panic!("expected a toggle"),
    }
    match b.key_event_handler(&mut app, Key::Char('i')) {
        BoardAction::Apply(StoreOp::SetCardImportant { card_id, important }) => assert_eq!((card_id, important), (11, true)),
        _ => panic!("expected a toggle"),
    }
}

#[test]
fn new_list_popup_round_trip() {
    let mut app = AppState::init();
    let mut b = board();
    b.key_event_handler(&mut app, Key::Char('k'));
    b.key_event_handler(&mut app, Key::Char('n'));
    assert_eq!(b.popup, OpenProjectPopup::NewList);
    assert_eq!(app.display.view, Screen::Popup);
    assert_eq!(app.display.mode, Mode::Insert);
    for c in "Later".chars() {
        b.key_event_handler(&mut app, Key::Char(c));
    }
    match b.key_event_handler(&mut app, Key::Enter) {
        BoardAction::Apply(StoreOp::InsertList { project_id, title }) => {
            assert_eq!(project_id, 7);
            assert_eq!(title, "Later");
        }
        _ => panic!("expected an insert"),
    }
    assert_eq!(app.display.view, Screen::Default);
    assert_eq!(app.display.mode, Mode::Navigation);
    let mut fresh = data();
    fresh.lists.push(ProjectList { id: 4, title: String::from("Later"), cards: vec![] });
    b.refresh(fresh);
    assert_eq!(b.selected_list_index, 3);
}

#[test]
fn enter_opens_the_card_viewer() {
    let mut app = AppState::init();
    let mut b = board();
    b.key_event_handler(&mut app, Key::Char('j'));
    match b.key_event_handler(&mut app, Key::Enter) {
        BoardAction::ViewCard { card_id } => assert_eq!(card_id, 12),
        _ => panic!("expected the viewer"),
    }
    assert_eq!(app.display.mode, Mode::Popup);
    assert!(matches!(b.key_event_handler(&mut app, Key::Char('x')), BoardAction::CardPopupKey));
    b.card_popup_closed();
    app.close_popup();
    assert_eq!(b.popup, OpenProjectPopup::NoPopup);
    assert_eq!(app.display.mode, Mode::Navigation);
}

#[test]
fn leave_on_bracket() {
    let mut app = AppState::init();
    let mut b = board();
    assert!(matches!(b.key_event_handler(&mut app, Key::Char('[')), BoardAction::Leave));
}

#[test]
fn refresh_clamps_cursors_after_cards_vanish() {
    let mut b = board();
    b.list_selections[0] = 2;
    b.selected_list_index = 2;
    let mut fresh = data();
    fresh.lists[0].cards.truncate(1);
    fresh.lists.truncate(2);
    b.refresh(fresh);
    assert_eq!(b.list_selections, vec![0, 0]);
    assert_eq!(b.selected_list_index, 1);
}

#[test]
fn completed_outranks_overdue() {
    let now = 1_000_000;
    let mut c = card(1, 1, 0);
    c.completed = true;
    c.due_date = Some(now - 2 * 86400);
    assert_eq!(c.status(3, now), CardStatus::Completed);
    c.completed = false;
    assert!(c.overdue(now));
    assert!(!c.due_soon(3, now));
    assert_eq!(c.status(3, now), CardStatus::Overdue);
}

#[test]
fn status_priority_below_overdue() {
    let now = 1_000_000;
    let mut c = card(1, 1, 0);
    c.due_date = Some(now + 2 * 86400);
    c.start_date = Some(now - 10);
    c.important = true;
    assert_eq!(c.status(3, now), CardStatus::DueSoon);
    assert_eq!(c.status(1, now), CardStatus::InProgress);
    c.start_date = None;
    assert_eq!(c.status(1, now), CardStatus::Important);
    c.important = false;
    assert_eq!(c.status(1, now), CardStatus::Plain);
    let config = base_config();
    assert_eq!(status_char(CardStatus::Completed, &config.modules.project_management), "✅");
    assert_eq!(status_char(CardStatus::Plain, &config.modules.project_management), " ");
    c.completed = true;
    assert_eq!(c.current_status(3), CardStatus::Completed);
}

#[test]
fn opening_a_popup_from_the_board_is_undone_by_closing() {
    let mut app = AppState::init();
    let before = app.display;
    app.open_popup(PopupKind::Editor);
    app.close_popup();
    assert_eq!(app.display, before);
}

#[test]
fn d_without_a_target_stays_browsing() {
    let mut app = AppState::init();
    let mut b = board();
    b.selected_list_index = 2;
    assert!(matches!(b.key_event_handler(&mut app, Key::Char('d')), BoardAction::Stay));
    assert_eq!(app.display.mode, Mode::Navigation);
    assert_eq!(b.delete_selection, DeleteSelection::Nothing);
}

#[test]
fn card_editors_open_as_editor_popups() {
    let mut app = AppState::init();
    let mut b = board();
    match b.key_event_handler(&mut app, Key::Char('n')) {
        BoardAction::NewCard { project_id, list_id } => assert_eq!((project_id, list_id), (7, 1)),
        _ => panic!("expected the card editor"),
    }
    assert_eq!((app.display.view, app.display.mode), (Screen::Popup, Mode::Insert));
    b.card_popup_closed();
    app.close_popup();
    assert_eq!(b.after_refresh, AfterRefresh::FocusLastCard);
    match b.key_event_handler(&mut app, Key::Char('e')) {
        BoardAction::EditCard { project_id, list_id, card_id } => assert_eq!((project_id, list_id, card_id), (7, 1, 11)),
        _ => panic!("expected the card editor"),
    }
    assert_eq!(b.popup, OpenProjectPopup::EditCard);
}
