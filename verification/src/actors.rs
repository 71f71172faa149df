//! The first actor: what it owns, and what it decides on each message.
//!
//! An actor takes its messages one at a time, in the order in which they
//! arrive. The program that embeds the hub runs the actor's background tasks
//! and delivers its messages; the actor says which tasks there are, and what
//! is sent out for each message.

use vstd::prelude::*;
use crate::signals::{BigBool, SmallNumber, SmallText};
use crate::state::AppState;

verus! {

/// A background task that an actor owns. It lives as long as the actor does.
pub enum OwnedTask {
    /// Takes each `SmallText` that comes in from outside and hands it to the
    /// actor, one at a time and in the order received.
    DartListener,
    /// Every `period_secs` seconds, hands the actor a `SmallText` with `text`.
    Timer { period_secs: u64, text: String },
}

/// What an `OwnedTask` stands for.
pub enum OwnedTaskView {
    DartListener,
    Timer { period_secs: nat, text: Seq<char> },
}

impl View for OwnedTask {
    type V = OwnedTaskView;

    open spec fn view(&self) -> OwnedTaskView {
        match *self {
            OwnedTask::DartListener => OwnedTaskView::DartListener,
            OwnedTask::Timer { period_secs, text } => OwnedTaskView::Timer {
                period_secs: period_secs as nat,
                text: text@,
            },
        }
    }
}

/// The views of a sequence of tasks, in the same order.
pub open spec fn tasks_view(tasks: Seq<OwnedTask>) -> Seq<OwnedTaskView> {
    tasks.map_values(|task: OwnedTask| task@)
}

/// The tasks of a new actor: a listener, and a timer that fires every three
/// seconds.
pub open spec fn initial_tasks() -> Seq<OwnedTaskView> {
    seq![
        OwnedTaskView::DartListener,
        OwnedTaskView::Timer { period_secs: 3, text: "From an owned task"@ },
    ]
}

/// The first actor.
pub struct FirstActor {
    owned_tasks: Vec<OwnedTask>,
    app_state: Option<AppState>,
}

impl FirstActor {
    /// The background tasks that the actor owns.
    pub closed spec fn tasks(&self) -> Seq<OwnedTaskView> {
        tasks_view(self.owned_tasks@)
    }

    /// The state that the actor was given, if any.
    pub closed spec fn state(&self) -> Option<AppState> {
        self.app_state
    }

    /// A new actor. It owns its two background tasks from the start and has
    /// no state yet.
    pub fn new() -> (actor: FirstActor)
        ensures
            actor.tasks() == initial_tasks(),
            actor.state() is None,
    {
        let mut owned_tasks: Vec<OwnedTask> = Vec::new();
        owned_tasks.push(OwnedTask::DartListener);
        owned_tasks.push(OwnedTask::Timer { period_secs: 3, text: "From an owned task".to_owned() });
        assert(tasks_view(owned_tasks@) =~= initial_tasks());
        FirstActor { owned_tasks, app_state: None }
    }

    /// The same actor, holding `app_state`.
    pub fn with_app_state(self, app_state: AppState) -> (actor: FirstActor)
        ensures
            actor.state() == Some(app_state),
            actor.tasks() == self.tasks(),
    {
        let mut actor = self;
        actor.app_state = Some(app_state);
        actor
    }

    /// The background tasks, for the program that runs them.
    pub fn owned_tasks(&self) -> (tasks: &Vec<OwnedTask>)
        ensures
            tasks_view(tasks@) == self.tasks(),
    {
        &self.owned_tasks
    }

    /// The state that the actor holds, if it was given one.
    pub fn app_state(&self) -> (state: &Option<AppState>)
        ensures
            *state == self.state(),
    {
        &self.app_state
    }

    /// A notification: the actor answers nobody, and sends out the number 7.
    pub fn notify(&mut self, msg: SmallText) -> (sent: SmallNumber)
        ensures
            sent.number == 7,
            *final(self) == *old(self),
    {
        SmallNumber { number: 7 }
    }

    /// A request that wants a boolean back: the actor sends the message out
    /// again as it came, and always answers, with `false`.
    pub fn handle(&mut self, msg: BigBool) -> (out: (BigBool, bool))
        ensures
            out.0 == msg,
            out.1 == false,
            *final(self) == *old(self),
    {
        (msg, false)
    }
}

} // verus!
