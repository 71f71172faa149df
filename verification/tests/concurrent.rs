use std::collections::BTreeSet;
use std::sync::Arc;

use hub::{can_handle, handle_todo_command, AppState, TodoCommand};
use tokio::sync::Mutex;

#[test]
fn concurrent_adds_produce_one_item_each_with_distinct_ids() {
    let callers: usize = 64;
    let runtime = tokio::runtime::Builder::new_multi_thread()
        .worker_threads(4)
        .build()
        .expect("a runtime");
    let state = Arc::new(Mutex::new(AppState::new()));
    runtime.block_on(async {
        let mut tasks = tokio::task::JoinSet::new();
        for caller in 0..callers {
            let state = state.clone();
            tasks.spawn(async move {
                let cmd = TodoCommand::Add { text: format!("item {}", caller) };
                let mut guard = state.lock().await;
                assert!(can_handle(&guard, &cmd));
                let list = handle_todo_command(&mut guard, cmd);
                list.items.last().expect("the new item").id
            });
        }
        let mut assigned = BTreeSet::new();
        while let Some(id) = tasks.join_next().await {
            assert!(assigned.insert(id.expect("the task ran")));
        }
        assert_eq!(assigned.len(), callers);
    });
    let state = runtime.block_on(async { state.lock().await.todos.iter().map(|t| t.id).collect::<Vec<u32>>() });
    assert_eq!(state.len(), callers);
    let distinct: BTreeSet<u32> = state.iter().copied().collect();
    assert_eq!(distinct.len(), callers);
    assert_eq!(state, (1..=callers as u32).collect::<Vec<u32>>());
}
