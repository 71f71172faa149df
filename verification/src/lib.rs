//! Message hub of a to-do application.
//!
//! The hub sits between a user interface and the application's logic. The
//! interface sends signals in, the hub decides how the shared state changes,
//! and the hub answers with signals of its own. Everything in this crate is a
//! pure decision: given a state and a signal, it says what the next state is
//! and what is sent back. Receiving, locking, spawning and sending are left
//! to the program that embeds the hub.

pub mod actors;
pub mod laws;
pub mod routes;
pub mod signals;
pub mod state;

pub use actors::FirstActor;
pub use routes::{can_handle, handle_todo_command};
pub use signals::{
    AddTodo, BigBool, DeleteTodo, GetTodos, SmallBool, SmallNumber, SmallText, TodoCommand, TodoItem,
    TodoList, ToggleTodo,
};
pub use state::AppState;
