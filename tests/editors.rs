use pltx::focus::{AppState, Mode, PopupKind, Screen};
use pltx::form::Form;
use pltx::key::Key;
use pltx::project_management::project_editor::{
    Action, EditorResult, FocusedPane, LabelOption, LabelWrite, ProjectEditor, ProjectLabel,
    ProjectRecord, ProjectWrite,
};
use pltx::project_management::projects::{Page, Projects, ProjectsAction};
use pltx::screens::list_editor::{ListData, ListEditor, ListEditorResult};
use pltx::screens::project_editor as screen_editor;
use pltx::settings::Settings;
use pltx::store::StoreOp;
use pltx::text_input::TextInput;

fn typing_app() -> AppState {
    let mut app = AppState::init();
    app.set_mode(Mode::Insert);
    app
}

#[test]
fn text_input_stops_at_its_limit() {
    let mut app = typing_app();
    let mut t = TextInput::new(3);
    for c in "héllo".chars() {
        t.key_event_handler(&mut app, Key::Char(c));
    }
    assert_eq!(t.input, "hél");
    t.key_event_handler(&mut app, Key::Backspace);
    assert_eq!(t.input, "hé");
    t.key_event_handler(&mut app, Key::Esc);
    assert_eq!(app.display.mode, Mode::Navigation);
    t.set_input(String::from("abcdef"));
    assert_eq!(t.input, "abc");
}

#[test]
fn color_fields_take_nothing_or_seven_characters() {
    let mut t = TextInput::new(7).required_len(7);
    assert!(t.is_valid());
    t.set_input(String::from("#12345"));
    assert!(!t.is_valid());
    t.set_input(String::from("#123456"));
    assert!(t.is_valid());
    let r = TextInput::new(15).required();
    assert!(!r.is_valid());
}

#[test]
fn focus_cycles_forward_and_back() {
    let mut e = ProjectEditor::init();
    let order = [FocusedPane::Description, FocusedPane::Labels, FocusedPane::Actions, FocusedPane::Title];
    for pane in order {
        e.focus_next();
        assert_eq!(e.focused_pane, pane);
    }
    assert_eq!(e.focused_label_option, LabelOption::AddLabel);
    e.focus_prev();
    assert_eq!(e.focused_pane, FocusedPane::Actions);
    e.focus_prev();
    assert_eq!(e.focused_pane, FocusedPane::Labels);
}

#[test]
fn label_cursor_wraps_through_add_label() {
    let mut e = ProjectEditor::init();
    e.add_label(String::from("#ffffff"));
    e.add_label(String::from("#000000"));
    assert_eq!(e.selected_label, 1);
    e.next_label();
    assert_eq!(e.focused_label_option, LabelOption::AddLabel);
    e.next_label();
    assert_eq!(e.focused_label_option, LabelOption::Labels);
    assert_eq!(e.selected_label, 0);
    e.prev_label();
    assert_eq!(e.focused_label_option, LabelOption::AddLabel);
    e.prev_label();
    assert_eq!(e.selected_label, 1);
    assert_eq!(e.labels[1].color.input, "#000000");
}

#[test]
fn saving_a_new_project_inserts_labels_at_their_index() {
    let mut app = AppState::init();
    let mut e = ProjectEditor::init().set_new();
    assert_eq!(e.save_button, "Create New Project");
    e.title.set_input(String::from("Garden"));
    e.add_label(String::from("#00ff00"));
    e.labels[0].title.set_input(String::from("green"));
    e.focused_pane = FocusedPane::Actions;
    match e.key_event_handler(&mut app, Key::Enter, String::from("#ffffff")) {
        EditorResult::Save(plan) => {
            match plan.project {
                ProjectWrite::New { title, description } => {
                    assert_eq!(title, "Garden");
                    assert_eq!(description, None);
                }
                _ => panic!("expected a new project"),
            }
            assert_eq!(plan.labels.len(), 1);
            match &plan.labels[0] {
                LabelWrite::Insert { title, color, position } => {
                    assert_eq!((title.as_str(), color.as_str(), *position), ("green", "#00ff00", 0));
                }
                _ => panic!("expected an insert"),
            }
        }
        _ => panic!("expected a save"),
    }
    assert_eq!(e.title.input, "Garden");
    e.reset();
    assert_eq!(e.title.input, "");
    assert_eq!(e.focused_pane, FocusedPane::Title);
}

#[test]
fn a_label_without_title_blocks_the_save() {
    let mut e = ProjectEditor::init().set_new();
    e.add_label(String::from("#00ff00"));
    e.focused_pane = FocusedPane::Actions;
    assert!(matches!(e.save_project(), EditorResult::Stay));
}

#[test]
fn editing_updates_stored_labels_and_inserts_new_ones() {
    let mut e = ProjectEditor::init();
    let project = ProjectRecord { id: 4, title: String::from("Work"), description: Some(String::from("paid")) };
    let labels = vec![ProjectLabel { project_id: 4, id: 9, title: String::from("urgent"), color: String::from("#ff0000") }];
    e.set_project(project, labels);
    assert_eq!(e.title.input, "Work");
    assert_eq!(e.description.input, "paid");
    assert_eq!(e.labels[0].id, Some(9));
    e.add_label(String::from("#0000ff"));
    e.labels[1].title.set_input(String::from("later"));
    e.focused_pane = FocusedPane::Actions;
    match e.save_project() {
        EditorResult::Save(plan) => {
            assert!(matches!(plan.project, ProjectWrite::Edit { id: 4, .. }));
            assert!(matches!(&plan.labels[0], LabelWrite::Update { id: 9, .. }));
            assert!(matches!(&plan.labels[1], LabelWrite::Insert { position: 1, .. }));
        }
        _ => panic!("expected a save"),
    }
    let again = vec![ProjectLabel { project_id: 4, id: 9, title: String::from("soon"), color: String::from("#ff0000") }];
    e.set_project(ProjectRecord { id: 4, title: String::from("Work"), description: None }, again);
    assert_eq!(e.labels.len(), 2);
    assert_eq!(e.labels[0].title.input, "soon");
    assert_eq!(e.description.input, "");
}

#[test]
fn cancel_resets_the_editor() {
    let mut app = AppState::init();
    let mut e = ProjectEditor::init().set_new();
    e.title.set_input(String::from("x"));
    e.focused_pane = FocusedPane::Actions;
    e.key_event_handler(&mut app, Key::Char('j'), String::new());
    assert_eq!(e.action, Action::Cancel);
    assert!(matches!(e.key_event_handler(&mut app, Key::Enter, String::new()), EditorResult::Cancel));
    assert_eq!(e.title.input, "");
    assert!(matches!(e.key_event_handler(&mut app, Key::Char('['), String::new()), EditorResult::Cancel));
}

#[test]
fn screen_editor_walks_every_stop() {
    let mut e = screen_editor::ProjectEditor::init();
    let mut app = AppState::init();
    e.add_label(&mut app, String::from("#ffffff"));
    assert_eq!(app.display.mode, Mode::Insert);
    e.focused_pane = FocusedPane::Title;
    let mut seen = vec![];
    for _ in 0..6 {
        seen.push(e.focused_pane);
        e.next_focus();
    }
    assert_eq!(seen, vec![FocusedPane::Title, FocusedPane::Description, FocusedPane::Labels, FocusedPane::Labels, FocusedPane::Actions, FocusedPane::Actions]);
    assert_eq!(e.focused_pane, FocusedPane::Title);
    e.prev_focus();
    assert_eq!((e.focused_pane, e.action), (FocusedPane::Actions, Action::Cancel));
}

#[test]
fn screen_editor_tabs_through_label_cells() {
    let mut e = screen_editor::ProjectEditor::init();
    let mut app = AppState::init();
    e.add_label(&mut app, String::from("#ffffff"));
    e.add_label(&mut app, String::from("#ffffff"));
    e.focused_pane = FocusedPane::Labels;
    e.selected_label = 0;
    e.next_label();
    e.next_label();
    assert_eq!(e.selected_label, 1);
    e.next_label();
    e.next_label();
    assert_eq!(e.selected_label, 0);
    e.prev_label();
    assert_eq!(e.selected_label, 1);
    let mut app = AppState::init();
    let mut f = screen_editor::ProjectEditor::init().set_new();
    f.focused_pane = FocusedPane::Actions;
    f.action = Action::Cancel;
    assert!(matches!(f.save_project(), EditorResult::Cancel));
    assert!(matches!(f.key_event_handler(&mut app, Key::Char('['), String::new()), EditorResult::Cancel));
}

#[test]
fn list_editor_inserts_or_renames() {
    let mut app = AppState::init();
    app.open_popup(PopupKind::Editor);
    let mut e = ListEditor::init().empty();
    e.project_id(3);
    for c in "Ideas".chars() {
        assert!(matches!(e.key_event_handler(&mut app, Key::Char(c)), ListEditorResult::Stay));
    }
    match e.key_event_handler(&mut app, Key::Enter) {
        ListEditorResult::Save(StoreOp::InsertList { project_id, title }) => {
            assert_eq!((project_id, title.as_str()), (3, "Ideas"));
        }
        _ => panic!("expected an insert"),
    }
    assert_eq!(app.display.view, Screen::Default);
    assert_eq!(e.title.input, "");
    let mut e = ListEditor::init();
    e.set(ListData { project_id: 3, id: 8, title: String::from("Old") });
    assert_eq!(e.title.input, "Old");
    let mut app = AppState::init();
    match e.key_event_handler(&mut app, Key::Enter) {
        ListEditorResult::Save(StoreOp::UpdateList { list_id, title }) => assert_eq!((list_id, title.as_str()), (8, "Old")),
        _ => panic!("expected a rename"),
    }
    let mut orphan = ListEditor::init().empty();
    assert!(matches!(orphan.key_event_handler(&mut app, Key::Enter), ListEditorResult::Close));
}

#[test]
fn projects_pages() {
    let mut app = AppState::init();
    let mut p = Projects::init();
    assert!(matches!(p.key_event_handler(&mut app, Key::Char('e'), String::new()), ProjectsAction::Stay));
    p.selected_id = Some(5);
    match p.key_event_handler(&mut app, Key::Char('e'), String::new()) {
        ProjectsAction::LoadEditProject { project_id } => assert_eq!(project_id, 5),
        _ => panic!("expected a load"),
    }
    p.open_edit_project(ProjectRecord { id: 5, title: String::from("P"), description: None }, vec![]);
    assert_eq!(p.page, Page::EditProject);
    assert!(matches!(p.key_event_handler(&mut app, Key::Char('['), String::new()), ProjectsAction::ReloadProjects));
    assert_eq!(p.page, Page::ListProjects);
    match p.key_event_handler(&mut app, Key::Enter, String::new()) {
        ProjectsAction::LoadOpenProject { project_id } => assert_eq!(project_id, 5),
        _ => panic!("expected the board"),
    }
    assert_eq!(p.open_project.project_id, Some(5));
    assert!(matches!(p.key_event_handler(&mut app, Key::Char('['), String::new()), ProjectsAction::ReloadProjects));
    p.key_event_handler(&mut app, Key::Char('n'), String::new());
    assert_eq!(p.page, Page::NewProject);
    p.saved();
    assert_eq!(p.page, Page::ListProjects);
}

#[test]
fn form_focus_does_not_wrap() {
    let mut f = Form::new(3).fixed_width(40);
    assert_eq!(f.fixed_width, Some(40));
    f.focus_prev();
    assert!(f.is_focus_first());
    f.focus_last();
    f.focus_next();
    assert!(f.is_focus_last());
    assert_eq!(f.focused_input, 2);
    f.focus_prev();
    assert_eq!(f.focused_input, 1);
    f.focus_first();
    assert_eq!(f.focused_input, 0);
}

#[test]
fn settings_shows_the_version() {
    assert_eq!(Settings::init().version_line("0.1.0"), "Version: 0.1.0");
}

#[test]
fn project_selection_moves_and_survives_reloads() {
    let mut app = AppState::init();
    let mut p = Projects::init();
    p.set_projects(vec![4, 8, 15]);
    assert_eq!(p.selected_id, Some(4));
    p.key_event_handler(&mut app, Key::Char('k'), String::new());
    assert_eq!(p.selected_id, Some(4));
    p.key_event_handler(&mut app, Key::Char('j'), String::new());
    p.key_event_handler(&mut app, Key::Char('j'), String::new());
    p.key_event_handler(&mut app, Key::Char('j'), String::new());
    assert_eq!(p.selected_id, Some(15));
    p.set_projects(vec![15, 16]);
    assert_eq!(p.selected_id, Some(15));
    p.set_projects(vec![23]);
    assert_eq!(p.selected_id, Some(23));
    p.set_projects(vec![]);
    assert_eq!(p.selected_id, None);
}

#[test]
fn editor_typing_goes_to_the_focused_field() {
    let mut app = typing_app();
    let mut e = ProjectEditor::init().set_new();
    e.key_event_handler(&mut app, Key::Char('a'), String::new());
    assert_eq!(e.title.input, "a");
    e.key_event_handler(&mut app, Key::Esc, String::new());
    e.key_event_handler(&mut app, Key::Char('J'), String::new());
    assert_eq!(e.focused_pane, FocusedPane::Description);
    e.key_event_handler(&mut app, Key::Char('i'), String::new());
    e.key_event_handler(&mut app, Key::Char('b'), String::new());
    assert_eq!(e.description.input, "b");
    assert_eq!(e.title.input, "a");
}

#[test]
fn loading_labels_fills_and_appends() {
    let mut e = ProjectEditor::init();
    e.add_label(String::from("#111111"));
    let stored = vec![
        ProjectLabel { project_id: 1, id: 3, title: String::from("a label title that is long"), color: String::from("#222222") },
        ProjectLabel { project_id: 1, id: 5, title: String::from("b"), color: String::from("#333333") },
    ];
    e.set_project(ProjectRecord { id: 1, title: String::from("T"), description: Some(String::from("D")) }, stored);
    assert_eq!(e.description.input, "D");
    assert_eq!(e.labels.len(), 3);
    assert_eq!(e.labels[0].id, None);
    assert_eq!(e.labels[1].id, Some(3));
    assert_eq!(e.labels[1].title.input, "a label title t");
    assert_eq!(e.labels[2].color.input, "#333333");
}
