//! The handler of the list commands.

use vstd::prelude::*;
use vstd::seq_lib::lemma_filter_view_commute;
use crate::signals::{
    is_pending, items_view, list_of, pending_count, TodoCommand, TodoItem, TodoList,
};
use crate::laws::{lemma_filter_keeps_all, lemma_growing_ids_bound_len, lemma_step_preserves_wf};
use crate::state::{has_id, has_other_id, is_first_with_id, toggled, without_id, AppState};

verus! {

/// Says whether `handle_todo_command` can carry out `cmd` in this state: an
/// `Add` cannot be handled once the id counter has reached the largest `u32`.
pub fn can_handle(app_state: &AppState, cmd: &TodoCommand) -> (ok: bool)
    ensures
        ok == app_state@.has_room_for(cmd@),
{
    match cmd {
        TodoCommand::Add { .. } => app_state.next_id < u32::MAX,
        _ => true,
    }
}

/// Handles one command on the list: changes the shared state as the command
/// asks, and answers with the list as it then is.
///
/// `Add` appends an item with the next id and the given text, not completed,
/// and moves the id counter on. `Toggle` flips the completion of the item with
/// the given id, `Delete` removes it; for an id that no item has, both leave
/// the state as it was and still answer. `GetAll` changes nothing.
///
/// An `Add` needs an id counter that can still move on: see `can_handle`.
pub fn handle_todo_command(app_state: &mut AppState, cmd: TodoCommand) -> (reply: TodoList)
    requires
        old(app_state)@.has_room_for(cmd@),
    ensures
        final(app_state)@ == old(app_state)@.step(cmd@),
        reply.items@ == final(app_state).todos@,
        reply.pending_count as nat == pending_count(final(app_state)@.todos) % 0x1_0000_0000,
        pending_count(final(app_state)@.todos) <= u32::MAX ==> reply@ == old(app_state)@.reply(
            cmd@,
        ),
        old(app_state)@.wf() ==> final(app_state)@.wf() && reply@ == old(app_state)@.reply(cmd@),
        cmd is GetAll ==> *final(app_state) == *old(app_state),
        (cmd matches TodoCommand::Toggle { id } && !has_id(old(app_state)@.todos, id as nat))
            ==> *final(app_state) == *old(app_state),
        (cmd matches TodoCommand::Delete { id } && !has_id(old(app_state)@.todos, id as nat)) ==> {
            &&& final(app_state).todos@ == old(app_state).todos@
            &&& final(app_state).next_id == old(app_state).next_id
            &&& final(app_state).counter == old(app_state).counter
        },
{
    let ghost command = cmd@;
    match cmd {
        TodoCommand::Add { text } => {
            let new_todo = TodoItem { id: app_state.next_id, text, completed: false };
            app_state.next_id = app_state.next_id + 1;
            app_state.todos.push(new_todo);
            proof {
                assert(items_view(app_state.todos@) =~= items_view(old(app_state).todos@).push(
                    new_todo@,
                ));
            }
        },
        TodoCommand::Toggle { id } => {
            toggle_todo(&mut app_state.todos, id);
        },
        TodoCommand::Delete { id } => {
            delete_todo(&mut app_state.todos, id);
        },
        TodoCommand::GetAll => {},
    }
    proof {
        if old(app_state)@.wf() {
            lemma_step_preserves_wf(old(app_state)@, command);
            lemma_growing_ids_bound_len(app_state@.todos, app_state@.next_id);
        }
    }
    todo_list(&app_state.todos)
}

/// The list that reports `todos`: a copy of the items, and the number of them
/// that are not completed, counted anew on every call.
///
/// The count is a `u32`. A list with more pending items than a `u32` can hold
/// is reported with the low 32 bits of the count.
pub fn todo_list(todos: &Vec<TodoItem>) -> (list: TodoList)
    ensures
        list.items@ == todos@,
        list.pending_count as nat == pending_count(items_view(todos@)) % 0x1_0000_0000,
        pending_count(items_view(todos@)) <= u32::MAX ==> list@ == list_of(items_view(todos@)),
{
    let ghost items = items_view(todos@);
    let mut pending: u64 = 0;
    let mut i: usize = 0;
    while i < todos.len()
        invariant
            i <= todos.len(),
            items == items_view(todos@),
            pending == pending_count(items.take(i as int)),
            pending <= i,
        decreases todos.len() - i,
    {
        proof {
            assert(items.take(i + 1) =~= items.take(i as int).push(todos[i as int]@));
            items.take(i as int).lemma_filter_push(todos[i as int]@, is_pending());
        }
        if !todos[i].completed {
            pending = pending + 1;
        }
        i = i + 1;
    }
    proof {
        assert(items.take(i as int) =~= items);
    }
    let count = #[verifier::truncate] (pending as u32);
    assert(count as u64 == pending % 0x1_0000_0000) by (bit_vector)
        requires
            count == #[verifier::truncate] (pending as u32),
    ;
    TodoList { items: todos.clone(), pending_count: count }
}

/// Flips the completion of the first item with the id `id`. Where no item has
/// that id, nothing changes.
pub fn toggle_todo(todos: &mut Vec<TodoItem>, id: u32)
    ensures
        items_view(final(todos)@) == toggled(items_view(old(todos)@), id as nat),
        !has_id(items_view(old(todos)@), id as nat) ==> *final(todos) == *old(todos),
{
    let ghost before = items_view(todos@);
    let mut i: usize = 0;
    while i < todos.len()
        invariant
            i <= todos.len(),
            *todos == *old(todos),
            before == items_view(todos@),
            forall|j: int| 0 <= j < i ==> (#[trigger] before[j]).id != id as nat,
        decreases todos.len() - i,
    {
        if todos[i].id == id {
            todos[i].completed = !todos[i].completed;
            proof {
                assert(is_first_with_id(before, id as nat, i as int));
                assert(items_view(todos@) =~= toggled(before, id as nat));
                assert(has_id(before, id as nat));
            }
            return ;
        }
        i = i + 1;
    }
    proof {
        assert(before =~= toggled(before, id as nat));
    }
}

/// Holds of the items whose id is not `id`.
pub open spec fn keeps(id: u32) -> spec_fn(TodoItem) -> bool {
    |item: TodoItem| item.id != id
}

/// Removes every item with the id `id` and keeps the others in their order.
/// Where no item has that id, nothing changes.
pub fn delete_todo(todos: &mut Vec<TodoItem>, id: u32)
    ensures
        final(todos)@ == old(todos)@.filter(keeps(id)),
        items_view(final(todos)@) == without_id(items_view(old(todos)@), id as nat),
        !has_id(items_view(old(todos)@), id as nat) ==> final(todos)@ == old(todos)@,
{
    let mut all: Vec<TodoItem> = Vec::new();
    core::mem::swap(todos, &mut all);
    let ghost before = all@;
    for item in it: all
        invariant
            it.seq() == before,
            todos@ == before.take(it.index() as int).filter(keeps(id)),
    {
        proof {
            assert(before.take(it.index() + 1) =~= before.take(it.index() as int).push(item));
            before.take(it.index() as int).lemma_filter_push(item, keeps(id));
        }
        if item.id != id {
            todos.push(item);
        }
    }
    proof {
        assert(before.take(before.len() as int) =~= before);
        lemma_filter_view_commute(before, keeps(id), has_other_id(id as nat));
        assert(items_view(before) =~= before.map_values(|item: TodoItem| item.view()));
        assert(items_view(todos@) =~= todos@.map_values(|item: TodoItem| item.view()));
        if !has_id(items_view(before), id as nat) {
            assert forall|i: int| 0 <= i < before.len() implies keeps(id)(#[trigger] before[i]) by {
                assert(items_view(before)[i].id != id as nat);
            }
            lemma_filter_keeps_all(before, keeps(id));
        }
    }
}

} // verus!
