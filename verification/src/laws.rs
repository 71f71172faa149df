//! What holds of the rules of the shared state, whatever commands arrive.

use vstd::prelude::*;
use crate::signals::{is_pending, list_of, pending_count, TodoCommandView, TodoItemView};
use crate::state::{has_id, has_other_id, ids_grow_below, toggled, AppStateView};

verus! {

/// A filter that every item passes changes nothing.
pub proof fn lemma_filter_keeps_all<A>(s: Seq<A>, pred: spec_fn(A) -> bool)
    requires
        forall|i: int| 0 <= i < s.len() ==> pred(#[trigger] s[i]),
    ensures
        s.filter(pred) == s,
    decreases s.len(),
{
    reveal(Seq::filter);
    if s.len() > 0 {
        lemma_filter_keeps_all(s.drop_last(), pred);
        assert(s.drop_last().push(s.last()) =~= s);
    }
}

/// Where ids grow strictly, the item at place `i` has an id of at least `i`.
pub proof fn lemma_growing_ids_are_large(items: Seq<TodoItemView>, bound: nat, i: int)
    requires
        ids_grow_below(items, bound),
        0 <= i < items.len(),
    ensures
        items[i].id >= i,
    decreases i,
{
    if i > 0 {
        lemma_growing_ids_are_large(items, bound, i - 1);
    }
}

/// A list whose ids grow below `bound` has at most `bound` items.
pub proof fn lemma_growing_ids_bound_len(items: Seq<TodoItemView>, bound: nat)
    requires
        ids_grow_below(items, bound),
    ensures
        items.len() <= bound,
        pending_count(items) <= bound,
{
    if items.len() > 0 {
        lemma_growing_ids_are_large(items, bound, items.len() - 1);
    }
    items.lemma_filter_len(is_pending());
}

/// Removing items keeps the ids of the others growing below the same bound.
pub proof fn lemma_filter_keeps_ids_growing(
    items: Seq<TodoItemView>,
    bound: nat,
    pred: spec_fn(TodoItemView) -> bool,
)
    requires
        ids_grow_below(items, bound),
    ensures
        ids_grow_below(items.filter(pred), bound),
    decreases items.len(),
{
    reveal(Seq::filter);
    if items.len() > 0 {
        let last = items.last();
        let rest = items.drop_last();
        assert forall|i: int| 0 <= i < rest.len() implies (#[trigger] rest[i]).id < last.id by {
            assert(rest[i] == items[i]);
        }
        assert(ids_grow_below(rest, last.id)) by {
            assert forall|i: int, j: int| 0 <= i < j < rest.len() implies (#[trigger] rest[i]).id < (
            #[trigger] rest[j]).id by {
                assert(rest[i] == items[i] && rest[j] == items[j]);
            }
        }
        lemma_filter_keeps_ids_growing(rest, last.id, pred);
    }
}

/// One command takes a well-formed state to a well-formed state.
pub proof fn lemma_step_preserves_wf(state: AppStateView, cmd: TodoCommandView)
    requires
        state.wf(),
    ensures
        state.step(cmd).wf(),
{
    match cmd {
        TodoCommandView::Add { text } => {},
        TodoCommandView::Toggle { id } => {},
        TodoCommandView::Delete { id } => {
            lemma_filter_keeps_ids_growing(state.todos, state.next_id, has_other_id(id));
        },
        TodoCommandView::GetAll => {},
    }
}

/// A sequence of commands takes a well-formed state to a well-formed state.
pub proof fn lemma_run_preserves_wf(state: AppStateView, cmds: Seq<TodoCommandView>)
    requires
        state.wf(),
    ensures
        state.run(cmds).wf(),
    decreases cmds.len(),
{
    if cmds.len() > 0 {
        lemma_run_preserves_wf(state, cmds.drop_last());
        lemma_step_preserves_wf(state.run(cmds.drop_last()), cmds.last());
    }
}

/// Running the first `k + 1` commands is running the first `k` of them and
/// then the command at place `k`.
pub proof fn lemma_run_one_more(state: AppStateView, cmds: Seq<TodoCommandView>, k: int)
    requires
        0 <= k < cmds.len(),
    ensures
        state.run(cmds.take(k + 1)) == state.run(cmds.take(k)).step(cmds[k]),
{
    assert(cmds.take(k + 1).drop_last() =~= cmds.take(k));
}

/// The pending count never drifts: along any sequence of commands that starts
/// in a well-formed state, the list that answers each command reports exactly
/// the number of items that are not completed in the state at that instant.
/// That number is never above the id counter, so it fits wherever the id
/// counter fits.
pub proof fn lemma_pending_count_never_drifts(
    state: AppStateView,
    cmds: Seq<TodoCommandView>,
    k: int,
)
    requires
        state.wf(),
        0 <= k < cmds.len(),
    ensures
        state.run(cmds.take(k)).reply(cmds[k]).items == state.run(cmds.take(k + 1)).todos,
        state.run(cmds.take(k)).reply(cmds[k]).pending_count == state.run(
            cmds.take(k + 1),
        ).todos.filter(is_pending()).len(),
        state.run(cmds.take(k)).reply(cmds[k]).pending_count <= state.run(
            cmds.take(k + 1),
        ).next_id,
{
    lemma_run_one_more(state, cmds, k);
    lemma_run_preserves_wf(state, cmds.take(k + 1));
    let after = state.run(cmds.take(k + 1));
    lemma_growing_ids_bound_len(after.todos, after.next_id);
}

/// Holds of the commands that add an item.
pub open spec fn is_add() -> spec_fn(TodoCommandView) -> bool {
    |cmd: TodoCommandView| cmd is Add
}

/// The id counter moves on by one for each `Add`, and by nothing else.
pub proof fn lemma_next_id_counts_adds(state: AppStateView, cmds: Seq<TodoCommandView>)
    ensures
        state.run(cmds).next_id == state.next_id + cmds.filter(is_add()).len(),
        state.run(cmds).counter == state.counter,
    decreases cmds.len(),
{
    reveal(Seq::filter);
    if cmds.len() > 0 {
        lemma_next_id_counts_adds(state, cmds.drop_last());
    }
}

/// The id counter never moves back.
pub proof fn lemma_next_id_never_decreases(
    state: AppStateView,
    cmds: Seq<TodoCommandView>,
    i: int,
    j: int,
)
    requires
        0 <= i <= j <= cmds.len(),
    ensures
        state.run(cmds.take(i)).next_id <= state.run(cmds.take(j)).next_id,
    decreases j - i,
{
    if i < j {
        lemma_next_id_never_decreases(state, cmds, i, j - 1);
        lemma_run_one_more(state, cmds, j - 1);
    }
}

/// The id that the command at place `k` of `cmds` gives to its item, if that
/// command is an `Add`: the id counter as the commands before it left it.
pub open spec fn assigned_id(state: AppStateView, cmds: Seq<TodoCommandView>, k: int) -> nat {
    state.run(cmds.take(k)).next_id
}

/// Ids are never reused: of two `Add`s in a sequence of commands, whatever
/// stands between them, the later one assigns the larger id. Every assigned
/// id is the id of the item that the `Add` appends, and is larger than the id
/// of every item that a well-formed state held at the start.
pub proof fn lemma_ids_are_never_reused(
    state: AppStateView,
    cmds: Seq<TodoCommandView>,
    i: int,
    j: int,
)
    requires
        0 <= i < j < cmds.len(),
        cmds[i] is Add,
        cmds[j] is Add,
    ensures
        assigned_id(state, cmds, i) < assigned_id(state, cmds, j),
        state.run(cmds.take(j + 1)).todos.last().id == assigned_id(state, cmds, j),
        state.wf() ==> forall|n: int|
            0 <= n < state.todos.len() ==> (#[trigger] state.todos[n]).id < assigned_id(
                state,
                cmds,
                i,
            ),
{
    lemma_run_one_more(state, cmds, i);
    lemma_run_one_more(state, cmds, j);
    lemma_next_id_never_decreases(state, cmds, i + 1, j);
    lemma_next_id_never_decreases(state, cmds, 0, i);
    assert(cmds.take(0) =~= Seq::empty());
}

/// A `Toggle` or a `Delete` of an id that no item has changes nothing, and is
/// answered like any other command, with the list as it is.
pub proof fn lemma_unknown_id_changes_nothing(state: AppStateView, id: nat)
    requires
        !has_id(state.todos, id),
    ensures
        state.step(TodoCommandView::Toggle { id }) == state,
        state.step(TodoCommandView::Delete { id }) == state,
        state.reply(TodoCommandView::Toggle { id }) == list_of(state.todos),
        state.reply(TodoCommandView::Delete { id }) == list_of(state.todos),
{
    assert(toggled(state.todos, id) =~= state.todos);
    lemma_filter_keeps_all(state.todos, has_other_id(id));
}

/// Holds of the commands that may change the state.
pub open spec fn is_not_get_all() -> spec_fn(TodoCommandView) -> bool {
    |cmd: TodoCommandView| !(cmd is GetAll)
}

/// `GetAll` changes nothing: the state after it is the state before it, and
/// any number of them anywhere among other commands leads to the state that
/// those other commands lead to alone.
pub proof fn lemma_get_all_changes_nothing(state: AppStateView, cmds: Seq<TodoCommandView>)
    ensures
        state.step(TodoCommandView::GetAll) == state,
        state.reply(TodoCommandView::GetAll) == list_of(state.todos),
        state.run(cmds) == state.run(cmds.filter(is_not_get_all())),
    decreases cmds.len(),
{
    reveal(Seq::filter);
    if cmds.len() > 0 {
        lemma_get_all_changes_nothing(state, cmds.drop_last());
        if !(cmds.last() is GetAll) {
            let kept = cmds.drop_last().filter(is_not_get_all());
            assert(kept.push(cmds.last()).drop_last() =~= kept);
        }
    }
}

/// In whatever order a number of `Add`s reach a well-formed state, each of
/// them adds one item, and no two items of the resulting list share an id.
pub proof fn lemma_adds_never_collide(state: AppStateView, cmds: Seq<TodoCommandView>)
    requires
        state.wf(),
        forall|k: int| 0 <= k < cmds.len() ==> (#[trigger] cmds[k]) is Add,
    ensures
        state.run(cmds).todos.len() == state.todos.len() + cmds.len(),
        forall|i: int, j: int|
            0 <= i < j < state.run(cmds).todos.len() ==> (#[trigger] state.run(cmds).todos[i]).id != (
            #[trigger] state.run(cmds).todos[j]).id,
    decreases cmds.len(),
{
    lemma_run_preserves_wf(state, cmds);
    if cmds.len() > 0 {
        let before = cmds.drop_last();
        assert forall|k: int| 0 <= k < before.len() implies (#[trigger] before[k]) is Add by {
            assert(before[k] == cmds[k]);
        }
        lemma_adds_never_collide(state, before);
    }
}

} // verus!
