//! The writes that the screens ask the backing store to perform. The store
//! runs one, then the screen reloads what it shows from the store.
use vstd::prelude::*;

verus! {

#[derive(Clone, Debug)]
pub enum StoreOp {
    /// A new list at the end of the project's lists.
    InsertList { project_id: i32, title: String },
    UpdateList { list_id: i32, title: String },
    /// The list one place right, and its right neighbour one place left.
    IncrementListPosition { id: i32, next_id: i32 },
    /// The list one place left, and its left neighbour one place right.
    DecrementListPosition { id: i32, prev_id: i32 },
    IncrementCardPosition { id: i32, next_id: i32 },
    DecrementCardPosition { id: i32, prev_id: i32 },
    /// The card takes list `to_list` and `position` in one statement; then
    /// the cards of `from_list` after `vacated` move one place up.
    MoveCard { card_id: i32, from_list: i32, to_list: i32, position: i32, vacated: i32 },
    /// The list is deleted and the lists after it move one place up.
    DeleteList { list_id: i32 },
    /// The card is deleted and the cards after it in its list move up.
    DeleteCard { card_id: i32, list_id: i32 },
    SetCardCompleted { card_id: i32, completed: bool },
    SetCardImportant { card_id: i32, important: bool },
}

} // verus!
