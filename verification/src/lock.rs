//! The two tasks side by side on one connection.
//!
//! The connection takes one request at a time: a second one would time out. The
//! tasks share a lock for that reason. Here it is shown to be enough.

use vstd::prelude::*;

use crate::buttons::{
    button_lock_moves, button_requests_under_lock, Button, ButtonOutcome, ButtonStage,
};
use crate::display::{display_lock_moves, display_requests_under_lock, DisplayStage};

verus! {

/// How far the two tasks have come.
pub struct Tasks {
    pub display: DisplayStage,
    pub buttons: ButtonStage,
}

/// One of the tasks has its action done.
pub enum TaskStep {
    /// The display task goes on to the stage `after`.
    Display { after: DisplayStage },
    /// The button task's action ends in `outcome`.
    Buttons { outcome: ButtonOutcome },
}

impl Tasks {
    /// Both tasks at their start.
    pub open spec fn start() -> Tasks {
        Tasks { display: DisplayStage::Lock, buttons: ButtonStage::Poll(Button::Left) }
    }

    /// Whether the step can happen: it is one of the task's own, and where it
    /// takes the lock the other task does not hold it.
    pub open spec fn permits(self, step: TaskStep) -> bool {
        match step {
            TaskStep::Display { after } => {
                &&& self.display.followed_by(after)
                &&& self.display.spec_action() is Lock ==> !self.buttons.holds_lock()
            },
            TaskStep::Buttons { outcome } => {
                &&& self.buttons.accepts(outcome)
                &&& self.buttons.spec_action() is Lock ==> !self.display.holds_lock()
            },
        }
    }

    /// How far the tasks have come after the step.
    pub open spec fn after(self, step: TaskStep) -> Tasks {
        match step {
            TaskStep::Display { after } => Tasks { display: after, ..self },
            TaskStep::Buttons { outcome } => Tasks { buttons: self.buttons.next(outcome), ..self },
        }
    }

    /// Whether at most one of the tasks holds the lock.
    pub open spec fn exclusive(self) -> bool {
        !(self.display.holds_lock() && self.buttons.holds_lock())
    }

    /// Whether the display task has a request at the phone.
    pub open spec fn display_requests(self) -> bool {
        self.display.spec_action().is_request()
    }

    /// Whether the button task has a request at the phone.
    pub open spec fn buttons_request(self) -> bool {
        self.buttons.spec_action().is_request()
    }
}

/// How far the tasks have come after `steps`, taken from the start in order.
pub open spec fn tasks_after(steps: Seq<TaskStep>) -> Tasks
    decreases steps.len(),
{
    if steps.len() == 0 {
        Tasks::start()
    } else {
        tasks_after(steps.drop_last()).after(steps.last())
    }
}

/// Whether each of `steps` can happen once the ones before it have.
pub open spec fn possible(steps: Seq<TaskStep>) -> bool
    decreases steps.len(),
{
    steps.len() == 0 || {
        &&& possible(steps.drop_last())
        &&& tasks_after(steps.drop_last()).permits(steps.last())
    }
}

/// A step that can happen leaves at most one task with the lock.
pub proof fn exclusion_kept(tasks: Tasks, step: TaskStep)
    requires
        tasks.exclusive(),
        tasks.permits(step),
    ensures
        tasks.after(step).exclusive(),
{
    match step {
        TaskStep::Display { after } => {
            display_lock_moves(tasks.display, after);
        },
        TaskStep::Buttons { outcome } => {
            button_lock_moves(tasks.buttons, outcome);
        },
    }
}

/// Whatever the two tasks do, and in whatever order their actions end, at most
/// one of them holds the lock.
pub proof fn lock_is_exclusive(steps: Seq<TaskStep>)
    requires
        possible(steps),
    ensures
        tasks_after(steps).exclusive(),
        ({
            let Tasks { display, buttons } = tasks_after(steps);
            display != DisplayStage::Lock && display != DisplayStage::Sleep ==> !(
            buttons is ReadState || buttons is Write || buttons is Unlock)
        }),
    decreases steps.len(),
{
    if steps.len() > 0 {
        lock_is_exclusive(steps.drop_last());
        exclusion_kept(tasks_after(steps.drop_last()), steps.last());
    }
}

/// Whatever the two tasks do, and in whatever order their actions end, the
/// phone never has a request of each at once.
pub proof fn one_request_at_a_time(steps: Seq<TaskStep>)
    requires
        possible(steps),
    ensures
        !(tasks_after(steps).display_requests() && tasks_after(steps).buttons_request()),
        ({
            let display = tasks_after(steps).display.spec_action();
            let buttons = tasks_after(steps).buttons.spec_action();
            !((display is Find || display is Read || display is ReadByUuid) && (
            buttons is ReadByUuid || buttons is Write))
        }),
{
    lock_is_exclusive(steps);
    display_requests_under_lock(tasks_after(steps).display);
    button_requests_under_lock(tasks_after(steps).buttons);
}

/// The tasks never block each other for good: however they have come to where
/// they are, one of them can go on.
pub proof fn no_deadlock(steps: Seq<TaskStep>)
    requires
        possible(steps),
    ensures
        exists|step: TaskStep| #[trigger] tasks_after(steps).permits(step),
{
    let tasks = tasks_after(steps);
    lock_is_exclusive(steps);
    let after = next_display(tasks.display);
    let outcome = some_outcome(tasks.buttons);
    if tasks.buttons.holds_lock() {
        assert(tasks.permits(TaskStep::Buttons { outcome }));
    } else {
        assert(tasks.permits(TaskStep::Display { after }));
    }
}

/// The stage that follows a stage of the display task.
proof fn next_display(stage: DisplayStage) -> (after: DisplayStage)
    ensures
        stage.followed_by(after),
{
    match stage {
        DisplayStage::Lock => DisplayStage::FindTitle,
        DisplayStage::FindTitle => DisplayStage::ReadTitle,
        DisplayStage::ReadTitle => DisplayStage::FindDuration,
        DisplayStage::FindDuration => DisplayStage::ReadDuration,
        DisplayStage::ReadDuration => DisplayStage::FindPosition,
        DisplayStage::FindPosition => DisplayStage::ReadPosition,
        DisplayStage::ReadPosition => DisplayStage::ReadState,
        DisplayStage::ReadState => DisplayStage::Draw,
        DisplayStage::Draw => DisplayStage::Unlock,
        DisplayStage::Unlock => DisplayStage::Sleep,
        DisplayStage::Sleep => DisplayStage::Lock,
    }
}

/// A way in which the action of a stage of the button task can end.
proof fn some_outcome(stage: ButtonStage) -> (outcome: ButtonOutcome)
    ensures
        stage.accepts(outcome),
{
    match stage {
        ButtonStage::Poll(_) => ButtonOutcome::Level(false),
        ButtonStage::ReadState => ButtonOutcome::State(false),
        _ => ButtonOutcome::Done,
    }
}

} // verus!
