use hub::actors::{FirstActor, OwnedTask};
use hub::{AppState, BigBool, SmallBool, SmallText};

#[test]
fn new_actor_owns_a_listener_and_a_timer() {
    let actor = FirstActor::new();
    let tasks = actor.owned_tasks();
    assert_eq!(tasks.len(), 2);
    assert!(matches!(tasks[0], OwnedTask::DartListener));
    match &tasks[1] {
        OwnedTask::Timer { period_secs, text } => {
            assert_eq!(*period_secs, 3);
            assert_eq!(text, "From an owned task");
        }
        OwnedTask::DartListener => panic!("the second task is the timer"),
    }
    assert!(actor.app_state().is_none());
}

#[test]
fn with_app_state_stores_the_state_and_keeps_the_tasks() {
    let mut state = AppState::new();
    state.next_id = 42;
    state.counter = 5;
    let actor = FirstActor::new().with_app_state(state);
    let held = actor.app_state().as_ref().expect("the state was given");
    assert_eq!(held.next_id, 42);
    assert_eq!(held.counter, 5);
    assert!(held.todos.is_empty());
    assert_eq!(actor.owned_tasks().len(), 2);
}

#[test]
fn notify_sends_out_seven() {
    let mut actor = FirstActor::new();
    let sent = actor.notify(SmallText { text: "hello".to_string() });
    assert_eq!(sent.number, 7);
    let sent = actor.notify(SmallText { text: String::new() });
    assert_eq!(sent.number, 7);
    assert!(actor.app_state().is_none());
    assert_eq!(actor.owned_tasks().len(), 2);
}

#[test]
fn handle_sends_the_message_back_and_answers_false() {
    let mut actor = FirstActor::new();
    let (sent, answer) = actor.handle(BigBool { member: true, nested: SmallBool(false) });
    assert!(sent.member);
    assert!(!sent.nested.0);
    assert!(!answer);
    let (sent, answer) = actor.handle(BigBool { member: false, nested: SmallBool(true) });
    assert!(!sent.member);
    assert!(sent.nested.0);
    assert!(!answer);
}
