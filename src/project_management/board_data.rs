//! Assembling the board from the rows the store returns: cards grouped
//! under their lists in row order, each with its label ids and subtasks.
use crate::project_management::open_project::{
    OpenProjectCard, ProjectCardSubtask, ProjectData, ProjectLabel, ProjectList,
};
use vstd::prelude::*;

verus! {

/// A card row as the store returns it.
#[derive(Clone, Debug)]
pub struct CardRow {
    pub id: i32,
    pub list_id: i32,
    pub title: String,
    pub description: Option<String>,
    pub important: bool,
    pub start_date: Option<i64>,
    pub due_date: Option<i64>,
    pub completed: bool,
    pub position: i32,
}

/// A list row: its id and title.
#[derive(Clone, Debug)]
pub struct ListRow {
    pub id: i32,
    pub title: String,
}

/// A card-label association row: (card id, label id).
#[derive(Clone, Copy, Debug, PartialEq, Eq, Structural)]
pub struct CardLabelRow {
    pub card_id: i32,
    pub label_id: i32,
}

pub open spec fn labels_of(pairs: Seq<CardLabelRow>, card_id: i32) -> Seq<i32> {
    pairs.filter(|p: CardLabelRow| p.card_id == card_id).map_values(|p: CardLabelRow| p.label_id)
}

pub open spec fn subtasks_of(subtasks: Seq<ProjectCardSubtask>, card_id: i32) -> Seq<ProjectCardSubtask> {
    subtasks.filter(|s: ProjectCardSubtask| s.card_id == card_id)
}

pub open spec fn rows_of(cards: Seq<CardRow>, list_id: i32) -> Seq<CardRow> {
    cards.filter(|c: CardRow| c.list_id == list_id)
}

/// The card holds the row's fields, the label ids of its associations in
/// row order, and its subtasks in row order.
pub open spec fn card_matches(
    c: OpenProjectCard,
    r: CardRow,
    pairs: Seq<CardLabelRow>,
    subtasks: Seq<ProjectCardSubtask>,
) -> bool {
    &&& c.id == r.id
    &&& c.list_id == r.list_id
    &&& c.title == r.title
    &&& c.description == r.description
    &&& c.important == r.important
    &&& c.start_date == r.start_date
    &&& c.due_date == r.due_date
    &&& c.completed == r.completed
    &&& c.position == r.position
    &&& c.labels@ == labels_of(pairs, r.id)
    &&& c.subtasks@ == subtasks_of(subtasks, r.id)
}

proof fn lemma_filter_step<A>(s: Seq<A>, k: int, p: spec_fn(A) -> bool)
    requires
        0 <= k < s.len(),
    ensures
        s.subrange(0, k + 1).filter(p) == if p(s[k]) {
            s.subrange(0, k).filter(p).push(s[k])
        } else {
            s.subrange(0, k).filter(p)
        },
{
    reveal(Seq::filter);
    assert(s.subrange(0, k + 1).drop_last() =~= s.subrange(0, k));
}

fn card_from_row(r: &CardRow, pairs: &Vec<CardLabelRow>, subtasks: &Vec<ProjectCardSubtask>) -> (c: OpenProjectCard)
    ensures
        card_matches(c, *r, pairs@, subtasks@),
{
    let mut labels: Vec<i32> = Vec::new();
    let mut k: usize = 0;
    while k < pairs.len()
        invariant
            k <= pairs@.len(),
            labels@ == labels_of(pairs@.subrange(0, k as int), r.id),
        decreases pairs@.len() - k,
    {
        proof {
            lemma_filter_step(pairs@, k as int, |p: CardLabelRow| p.card_id == r.id);
        }
        if pairs[k].card_id == r.id {
            labels.push(pairs[k].label_id);
            proof {
                let f = pairs@.subrange(0, k as int).filter(|p: CardLabelRow| p.card_id == r.id);
                assert(f.push(pairs@[k as int]).map_values(|p: CardLabelRow| p.label_id) =~= f.map_values(
                    |p: CardLabelRow| p.label_id,
                ).push(pairs@[k as int].label_id));
            }
        }
        k += 1;
    }
    let mut subs: Vec<ProjectCardSubtask> = Vec::new();
    let mut k: usize = 0;
    while k < subtasks.len()
        invariant
            k <= subtasks@.len(),
            subs@ == subtasks_of(subtasks@.subrange(0, k as int), r.id),
        decreases subtasks@.len() - k,
    {
        proof {
            lemma_filter_step(subtasks@, k as int, |s: ProjectCardSubtask| s.card_id == r.id);
        }
        if subtasks[k].card_id == r.id {
            subs.push(subtasks[k]);
        }
        k += 1;
    }
    proof {
        assert(pairs@.subrange(0, pairs@.len() as int) =~= pairs@);
        assert(subtasks@.subrange(0, subtasks@.len() as int) =~= subtasks@);
    }
    let description = match &r.description {
        Some(d) => Some(d.clone()),
        None => None,
    };
    OpenProjectCard {
        id: r.id,
        list_id: r.list_id,
        title: r.title.clone(),
        description,
        important: r.important,
        start_date: r.start_date,
        due_date: r.due_date,
        completed: r.completed,
        position: r.position,
        labels,
        subtasks: subs,
    }
}

/// The board tree from the store's rows: the lists in row order, each
/// holding the cards whose list it is, in row order. A card of no listed
/// list is not shown.
pub fn build_project_data(
    title: String,
    labels: Vec<ProjectLabel>,
    lists: &Vec<ListRow>,
    cards: &Vec<CardRow>,
    pairs: &Vec<CardLabelRow>,
    subtasks: &Vec<ProjectCardSubtask>,
) -> (r: ProjectData)
    ensures
        r.title == title,
        r.labels == labels,
        r.lists@.len() == lists@.len(),
        forall|i: int|
            0 <= i < lists@.len() ==> {
                let l = #[trigger] r.lists@[i];
                &&& l.id == lists@[i].id
                &&& l.title == lists@[i].title
                &&& l.cards@.len() == rows_of(cards@, lists@[i].id).len()
                &&& forall|j: int|
                    0 <= j < l.cards@.len() ==> card_matches(
                        #[trigger] l.cards@[j],
                        rows_of(cards@, lists@[i].id)[j],
                        pairs@,
                        subtasks@,
                    )
            },
{
    let mut out: Vec<ProjectList> = Vec::new();
    let mut i: usize = 0;
    while i < lists.len()
        invariant
            i <= lists@.len(),
            out@.len() == i,
            forall|x: int|
                0 <= x < i ==> {
                    let l = #[trigger] out@[x];
                    &&& l.id == lists@[x].id
                    &&& l.title == lists@[x].title
                    &&& l.cards@.len() == rows_of(cards@, lists@[x].id).len()
                    &&& forall|j: int|
                        0 <= j < l.cards@.len() ==> card_matches(
                            #[trigger] l.cards@[j],
                            rows_of(cards@, lists@[x].id)[j],
                            pairs@,
                            subtasks@,
                        )
                },
        decreases lists@.len() - i,
    {
        let list_id = lists[i].id;
        let mut list_cards: Vec<OpenProjectCard> = Vec::new();
        let mut k: usize = 0;
        while k < cards.len()
            invariant
                k <= cards@.len(),
                list_cards@.len() == rows_of(cards@.subrange(0, k as int), list_id).len(),
                forall|j: int|
                    0 <= j < list_cards@.len() ==> card_matches(
                        #[trigger] list_cards@[j],
                        rows_of(cards@.subrange(0, k as int), list_id)[j],
                        pairs@,
                        subtasks@,
                    ),
            decreases cards@.len() - k,
        {
            proof {
                lemma_filter_step(cards@, k as int, |c: CardRow| c.list_id == list_id);
            }
            if cards[k].list_id == list_id {
                let c = card_from_row(&cards[k], pairs, subtasks);
                list_cards.push(c);
            }
            k += 1;
        }
        proof {
            assert(cards@.subrange(0, cards@.len() as int) =~= cards@);
        }
        out.push(ProjectList { id: list_id, title: lists[i].title.clone(), cards: list_cards });
        i += 1;
    }
    ProjectData { title, labels, lists: out }
}

} // verus!
