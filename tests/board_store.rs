use pltx::focus::AppState;
use pltx::key::Key;
use pltx::ledger::PositionTable;
use pltx::project_management::open_project::{
    BoardAction, OpenProject, OpenProjectCard, ProjectData, ProjectList,
};

const LISTS: [i32; 3] = [1, 2, 3];

fn load(cards: &PositionTable) -> ProjectData {
    let mut lists = vec![];
    for list_id in LISTS {
        let mut rows: Vec<_> = cards.rows.iter().filter(|r| r.group == list_id).cloned().collect();
        rows.sort_by_key(|r| r.position);
        let cards = rows
            .iter()
            .map(|r| OpenProjectCard {
                id: r.id,
                list_id,
                title: format!("card {}", r.id),
                description: None,
                important: false,
                start_date: None,
                due_date: None,
                completed: false,
                position: r.position,
                labels: vec![],
                subtasks: vec![],
            })
            .collect();
        lists.push(ProjectList { id: list_id, title: format!("list {list_id}"), cards });
    }
    ProjectData { title: String::from("p"), labels: vec![], lists }
}

fn dense(cards: &PositionTable) -> bool {
    LISTS.iter().all(|l| {
        let mut p: Vec<i32> = cards.rows.iter().filter(|r| r.group == *l).map(|r| r.position).collect();
        p.sort();
        p == (0..p.len() as i32).collect::<Vec<_>>()
    })
}

fn titles(board: &OpenProject, list: usize) -> Vec<String> {
    board.data.lists[list].cards.iter().map(|c| c.title.clone()).collect()
}

fn press(board: &mut OpenProject, app: &mut AppState, cards: &mut PositionTable, key: Key) {
    if let BoardAction::Apply(op) = board.key_event_handler(app, key) {
        cards.apply_card_op(&op);
        board.stored(app);
        board.refresh(load(cards));
    }
}

fn setup() -> (OpenProject, AppState, PositionTable) {
    let mut cards = PositionTable::new();
    for (id, list) in [(11, 1), (12, 1), (13, 1), (21, 2), (22, 2)] {
        cards.insert(id, list);
    }
    let mut board = OpenProject::init();
    board.set_project_id(1);
    board.refresh(load(&cards));
    (board, AppState::init(), cards)
}

#[test]
fn board_operations_keep_every_list_dense() {
    let (mut board, mut app, mut cards) = setup();
    let keys = [
        Key::Char('j'),
        Key::Char('L'),
        Key::Char('J'),
        Key::Char('K'),
        Key::Char('L'),
        Key::Char('H'),
        Key::Char('d'),
        Key::Char('y'),
        Key::Char('h'),
        Key::Char('H'),
    ];
    for key in keys {
        press(&mut board, &mut app, &mut cards, key);
        assert!(dense(&cards));
    }
    assert_eq!(cards.rows.len(), 4);
}

#[test]
fn last_card_right_then_left_keeps_the_order() {
    let (mut board, mut app, mut cards) = setup();
    press(&mut board, &mut app, &mut cards, Key::Char('j'));
    press(&mut board, &mut app, &mut cards, Key::Char('j'));
    let before = titles(&board, 0);
    let right_before = titles(&board, 1);
    press(&mut board, &mut app, &mut cards, Key::Char('L'));
    assert_eq!(board.selected_list_index, 1);
    assert_eq!(titles(&board, 1), vec!["card 21", "card 22", "card 13"]);
    press(&mut board, &mut app, &mut cards, Key::Char('H'));
    assert_eq!(board.selected_list_index, 0);
    assert_eq!(titles(&board, 0), before);
    assert_eq!(titles(&board, 1), right_before);
    assert_eq!(board.list_selections[0], 2);
}

#[test]
fn first_card_right_then_left_lands_at_the_end() {
    let (mut board, mut app, mut cards) = setup();
    press(&mut board, &mut app, &mut cards, Key::Char('L'));
    press(&mut board, &mut app, &mut cards, Key::Char('H'));
    assert_eq!(titles(&board, 0), vec!["card 12", "card 13", "card 11"]);
    assert!(dense(&cards));
}
