//! The state that all handlers share, and the rules by which it changes.

use vstd::prelude::*;
use crate::signals::{items_view, list_of, TodoCommandView, TodoItem, TodoItemView, TodoListView};

verus! {

/// The shared state: the items in the order in which they were added, the id
/// that the next new item will get, and a counter that no handler uses yet.
pub struct AppState {
    pub counter: usize,
    pub todos: Vec<TodoItem>,
    pub next_id: u32,
}

/// What an `AppState` stands for. The id counter is a natural number here, so
/// that the rules below never run out of ids.
pub struct AppStateView {
    pub counter: nat,
    pub todos: Seq<TodoItemView>,
    pub next_id: nat,
}

impl View for AppState {
    type V = AppStateView;

    open spec fn view(&self) -> AppStateView {
        AppStateView {
            counter: self.counter as nat,
            todos: items_view(self.todos@),
            next_id: self.next_id as nat,
        }
    }
}

/// Some item of `items` has the id `id`.
pub open spec fn has_id(items: Seq<TodoItemView>, id: nat) -> bool {
    exists|i: int| 0 <= i < items.len() && (#[trigger] items[i]).id == id
}

/// `i` is the place of the first item of `items` with the id `id`.
pub open spec fn is_first_with_id(items: Seq<TodoItemView>, id: nat, i: int) -> bool {
    &&& 0 <= i < items.len()
    &&& items[i].id == id
    &&& forall|j: int| 0 <= j < i ==> (#[trigger] items[j]).id != id
}

/// The same item with its completion flipped.
pub open spec fn flipped(item: TodoItemView) -> TodoItemView {
    TodoItemView { completed: !item.completed, ..item }
}

/// `items` with the first item of id `id` flipped, and every other item as it
/// was. Where no item has that id, this is `items`.
pub open spec fn toggled(items: Seq<TodoItemView>, id: nat) -> Seq<TodoItemView> {
    Seq::new(
        items.len(),
        |i: int|
            if is_first_with_id(items, id, i) {
                flipped(items[i])
            } else {
                items[i]
            },
    )
}

/// Holds of the items whose id is not `id`.
pub open spec fn has_other_id(id: nat) -> spec_fn(TodoItemView) -> bool {
    |item: TodoItemView| item.id != id
}

/// `items` without the items of id `id`, the others in their old order.
pub open spec fn without_id(items: Seq<TodoItemView>, id: nat) -> Seq<TodoItemView> {
    items.filter(has_other_id(id))
}

/// The ids of `items` grow strictly along the sequence, and all of them are
/// below `bound`.
pub open spec fn ids_grow_below(items: Seq<TodoItemView>, bound: nat) -> bool {
    &&& forall|i: int| 0 <= i < items.len() ==> (#[trigger] items[i]).id < bound
    &&& forall|i: int, j: int|
        0 <= i < j < items.len() ==> (#[trigger] items[i]).id < (#[trigger] items[j]).id
}

impl AppStateView {
    /// The state before any command: no items, and 1 as the first id.
    pub open spec fn initial() -> AppStateView {
        AppStateView { counter: 0, todos: Seq::empty(), next_id: 1 }
    }

    /// Ids grow along the list and stay below the id counter. So no two items
    /// share an id, and the next id is new.
    pub open spec fn wf(self) -> bool {
        ids_grow_below(self.todos, self.next_id)
    }

    /// The command can be carried out with a 32-bit id counter: an `Add` needs
    /// a counter that can still move on, and every other command is always
    /// possible.
    pub open spec fn has_room_for(self, cmd: TodoCommandView) -> bool {
        cmd is Add ==> self.next_id < u32::MAX
    }

    /// The state after one command.
    pub open spec fn step(self, cmd: TodoCommandView) -> AppStateView {
        match cmd {
            TodoCommandView::Add { text } => AppStateView {
                todos: self.todos.push(TodoItemView { id: self.next_id, text, completed: false }),
                next_id: self.next_id + 1,
                ..self
            },
            TodoCommandView::Toggle { id } => AppStateView { todos: toggled(self.todos, id), ..self },
            TodoCommandView::Delete { id } => AppStateView {
                todos: without_id(self.todos, id),
                ..self
            },
            TodoCommandView::GetAll => self,
        }
    }

    /// The list that answers one command: the items after the command.
    pub open spec fn reply(self, cmd: TodoCommandView) -> TodoListView {
        list_of(self.step(cmd).todos)
    }

    /// The state after a sequence of commands, the first of them first.
    pub open spec fn run(self, cmds: Seq<TodoCommandView>) -> AppStateView
        decreases cmds.len(),
    {
        if cmds.len() == 0 {
            self
        } else {
            self.run(cmds.drop_last()).step(cmds.last())
        }
    }
}

impl AppState {
    /// The state that a hub starts with.
    pub fn new() -> (state: AppState)
        ensures
            state@ == AppStateView::initial(),
            state@.wf(),
    {
        let state = AppState { counter: 0, todos: Vec::new(), next_id: 1 };
        assert(items_view(state.todos@) =~= Seq::empty());
        state
    }
}

} // verus!
