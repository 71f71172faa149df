//! The signals that cross the boundary between the interface and the hub.
//!
//! Inbound signals come from the interface, outbound signals go to it. Every
//! executable signal has a view, and the contracts of the hub are stated over
//! those views.

use vstd::prelude::*;

verus! {

/// One entry of the list. Its identity is `id`.
pub struct TodoItem {
    pub id: u32,
    pub text: String,
    pub completed: bool,
}

/// What a `TodoItem` stands for.
pub struct TodoItemView {
    pub id: nat,
    pub text: Seq<char>,
    pub completed: bool,
}

impl View for TodoItem {
    type V = TodoItemView;

    open spec fn view(&self) -> TodoItemView {
        TodoItemView { id: self.id as nat, text: self.text@, completed: self.completed }
    }
}

impl Clone for TodoItem {
    fn clone(&self) -> (copy: Self)
        ensures
            copy == *self,
    {
        TodoItem { id: self.id, text: self.text.clone(), completed: self.completed }
    }
}

/// The views of a sequence of items, in the same order.
pub open spec fn items_view(items: Seq<TodoItem>) -> Seq<TodoItemView> {
    items.map_values(|item: TodoItem| item@)
}

/// Holds of the items that are still to be done.
pub open spec fn is_pending() -> spec_fn(TodoItemView) -> bool {
    |item: TodoItemView| !item.completed
}

/// The number of items that are not completed.
pub open spec fn pending_count(items: Seq<TodoItemView>) -> nat {
    items.filter(is_pending()).len()
}

/// Outbound: the whole list, with the number of items that are not completed.
pub struct TodoList {
    pub items: Vec<TodoItem>,
    pub pending_count: u32,
}

/// What a `TodoList` stands for.
pub struct TodoListView {
    pub items: Seq<TodoItemView>,
    pub pending_count: nat,
}

impl View for TodoList {
    type V = TodoListView;

    open spec fn view(&self) -> TodoListView {
        TodoListView {
            items: items_view(self.items@),
            pending_count: self.pending_count as nat,
        }
    }
}

/// The list that reports `items`: the items themselves and how many of them
/// are pending. The count is never stored anywhere else.
pub open spec fn list_of(items: Seq<TodoItemView>) -> TodoListView {
    TodoListView { items, pending_count: pending_count(items) }
}

/// Inbound: asks for a new item with the given text.
pub struct AddTodo {
    pub text: String,
}

/// Inbound: asks to flip the completion of the item with the given id.
pub struct ToggleTodo {
    pub id: u32,
}

/// Inbound: asks to remove the item with the given id.
pub struct DeleteTodo {
    pub id: u32,
}

/// Inbound: asks for the current list.
pub struct GetTodos;

/// Inbound: every request on the list, as one closed set of variants that a
/// single handler takes apart.
pub enum TodoCommand {
    Add { text: String },
    Toggle { id: u32 },
    Delete { id: u32 },
    GetAll,
}

/// What a `TodoCommand` stands for.
pub enum TodoCommandView {
    Add { text: Seq<char> },
    Toggle { id: nat },
    Delete { id: nat },
    GetAll,
}

impl View for TodoCommand {
    type V = TodoCommandView;

    open spec fn view(&self) -> TodoCommandView {
        match *self {
            TodoCommand::Add { text } => TodoCommandView::Add { text: text@ },
            TodoCommand::Toggle { id } => TodoCommandView::Toggle { id: id as nat },
            TodoCommand::Delete { id } => TodoCommandView::Delete { id: id as nat },
            TodoCommand::GetAll => TodoCommandView::GetAll,
        }
    }
}

/// Inbound: a line of free text.
pub struct SmallText {
    pub text: String,
}

/// Outbound: a number, sent as a sign of life.
pub struct SmallNumber {
    pub number: i32,
}

/// A boolean on its own, as a piece of a larger signal.
pub struct SmallBool(pub bool);

/// Outbound: two booleans, one of them nested.
pub struct BigBool {
    pub member: bool,
    pub nested: SmallBool,
}

} // verus!
