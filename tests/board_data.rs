use pltx::project_management::board_data::{build_project_data, CardLabelRow, CardRow, ListRow};
use pltx::project_management::open_project::ProjectCardSubtask;

fn row(id: i32, list_id: i32, position: i32) -> CardRow {
    CardRow {
        id,
        list_id,
        title: format!("c{id}"),
        description: None,
        important: false,
        start_date: None,
        due_date: Some(10),
        completed: false,
        position,
    }
}

#[test]
fn rows_become_the_board_tree() {
    let lists = vec![ListRow { id: 1, title: String::from("a") }, ListRow { id: 2, title: String::from("b") }];
    let cards = vec![row(10, 2, 0), row(11, 1, 0), row(12, 2, 1), row(13, 9, 0)];
    let pairs = vec![CardLabelRow { card_id: 12, label_id: 4 }, CardLabelRow { card_id: 12, label_id: 6 }];
    let subtasks = vec![
        ProjectCardSubtask { card_id: 11, completed: true },
        ProjectCardSubtask { card_id: 11, completed: false },
    ];
    let data = build_project_data(String::from("P"), vec![], &lists, &cards, &pairs, &subtasks);
    assert_eq!(data.title, "P");
    assert_eq!(data.lists.len(), 2);
    let ids: Vec<i32> = data.lists[1].cards.iter().map(|c| c.id).collect();
    assert_eq!(ids, vec![10, 12]);
    assert_eq!(data.lists[0].cards[0].subtasks.len(), 2);
    assert_eq!(data.lists[1].cards[1].labels, vec![4, 6]);
    assert_eq!(data.lists[1].cards[0].due_date, Some(10));
}
