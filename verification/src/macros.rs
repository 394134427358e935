//! Macro definitions and the bookkeeping of a running macro task: how often
//! a macro runs, and how a task decides after each iteration whether to go
//! on, start its count over, or finish.

use vstd::prelude::*;

use crate::windowsystem::MouseButton;

verus! {

/// How pressing the trigger key again, releasing it, and mode changes affect
/// a running macro.
#[derive(Copy, Clone, Debug, Eq, PartialEq, Structural)]
pub enum ActivationType {
    /// Run once.
    Singular,
    /// Run a fixed number of times; re-pressing restarts the count.
    Repeat(u32),
    /// Run until the key is released.
    HoldToRepeat,
    /// Run until the key is pressed again.
    Toggle,
}

/// One opaque action a macro step performs. The session only decides when a
/// step runs, never how.
#[derive(Debug, Eq, PartialEq)]
pub enum Action {
    MouseClick(MouseButton),
    KeyPress(String),
    RunCommand(String),
    Delay,
    DebugPrint(String),
    DbusMethodCall {
        destination: String,
        path: String,
        interface: String,
        method: String,
        arguments: Option<Vec<String>>,
    },
}

/// A control signal sent to a running macro task.
#[derive(Copy, Clone, Debug, Eq, PartialEq, Structural)]
pub enum MacroSignal {
    Stop,
    ResetCount,
}

/// One step of a macro: an action plus how long the step lasts.
#[derive(Debug, Eq, PartialEq)]
pub struct Step {
    pub action: Action,
    pub duration: u64,
}

/// A macro bound to a G-key: its activation behavior, an optional theme to
/// show while it runs, and its ordered steps.
#[derive(Debug, Eq, PartialEq)]
pub struct Macro {
    pub activation_type: ActivationType,
    pub theme: Option<String>,
    pub steps: Vec<Step>,
}

/// Two actions with the same content. Argument lists are compared element
/// by element.
pub open spec fn action_like(a: Action, b: Action) -> bool {
    match (a, b) {
        (Action::MouseClick(x), Action::MouseClick(y)) => x == y,
        (Action::KeyPress(x), Action::KeyPress(y)) => x == y,
        (Action::RunCommand(x), Action::RunCommand(y)) => x == y,
        (Action::Delay, Action::Delay) => true,
        (Action::DebugPrint(x), Action::DebugPrint(y)) => x == y,
        (
            Action::DbusMethodCall {
                destination: da,
                path: pa,
                interface: ia,
                method: ma,
                arguments: aa,
            },
            Action::DbusMethodCall {
                destination: db,
                path: pb,
                interface: ib,
                method: mb,
                arguments: ab,
            },
        ) => {
            &&& da == db
            &&& pa == pb
            &&& ia == ib
            &&& ma == mb
            &&& match (aa, ab) {
                (Some(va), Some(vb)) => va@ == vb@,
                (None, None) => true,
                _ => false,
            }
        },
        _ => false,
    }
}

/// Two steps with the same action content and duration.
pub open spec fn step_like(a: Step, b: Step) -> bool {
    action_like(a.action, b.action) && a.duration == b.duration
}

/// Two macros that behave the same: same activation, theme, and steps.
pub open spec fn macro_like(a: Macro, b: Macro) -> bool {
    &&& a.activation_type == b.activation_type
    &&& a.theme == b.theme
    &&& a.steps@.len() == b.steps@.len()
    &&& forall|i: int| 0 <= i < a.steps@.len() ==> step_like(#[trigger] a.steps@[i], b.steps@[i])
}

fn clone_string_vec(v: &Vec<String>) -> (r: Vec<String>)
    ensures
        r@ == v@,
{
    let mut r: Vec<String> = Vec::new();
    let mut i: usize = 0;
    while i < v.len()
        invariant
            i <= v@.len(),
            r@ == v@.take(i as int),
        decreases v@.len() - i,
    {
        r.push(v[i].clone());
        assert(r@ =~= v@.take(i as int + 1));
        i = i + 1;
    }
    assert(r@ =~= v@);
    r
}

impl Clone for Action {
    fn clone(&self) -> (r: Action)
        ensures
            action_like(r, *self),
    {
        match self {
            Action::MouseClick(button) => Action::MouseClick(*button),
            Action::KeyPress(key_combo) => Action::KeyPress(key_combo.clone()),
            Action::RunCommand(command) => Action::RunCommand(command.clone()),
            Action::Delay => Action::Delay,
            Action::DebugPrint(message) => Action::DebugPrint(message.clone()),
            Action::DbusMethodCall { destination, path, interface, method, arguments } => {
                let cloned_arguments = match arguments {
                    Some(list) => Some(clone_string_vec(list)),
                    None => None,
                };
                Action::DbusMethodCall {
                    destination: destination.clone(),
                    path: path.clone(),
                    interface: interface.clone(),
                    method: method.clone(),
                    arguments: cloned_arguments,
                }
            },
        }
    }
}

impl Clone for Step {
    fn clone(&self) -> (r: Step)
        ensures
            step_like(r, *self),
    {
        Step { action: self.action.clone(), duration: self.duration }
    }
}

impl Clone for Macro {
    fn clone(&self) -> (r: Macro)
        ensures
            macro_like(r, *self),
    {
        let mut steps: Vec<Step> = Vec::new();
        let mut i: usize = 0;
        while i < self.steps.len()
            invariant
                i <= self.steps@.len(),
                steps@.len() == i,
                forall|j: int| 0 <= j < i ==> step_like(#[trigger] steps@[j], self.steps@[j]),
            decreases self.steps@.len() - i,
        {
            steps.push(self.steps[i].clone());
            i = i + 1;
        }
        let theme = match &self.theme {
            Some(name) => Some(name.clone()),
            None => None,
        };
        Macro { activation_type: self.activation_type, theme, steps }
    }
}

impl Macro {
    /// A single-step, run-once macro wrapping one action.
    pub fn from_action(action: Action) -> (m: Macro)
        ensures
            m.activation_type == ActivationType::Singular,
            m.theme is None,
            m.steps@.len() == 1,
            m.steps@[0].action == action,
            m.steps@[0].duration == 5u64,
    {
        let mut steps: Vec<Step> = Vec::new();
        steps.push(Step { action, duration: 5 });
        Macro { activation_type: ActivationType::Singular, theme: None, steps }
    }

    /// How many times this macro runs on its own: `None` for the kinds that
    /// run until a stop signal.
    pub open spec fn spec_execution_count(self) -> Option<u32> {
        match self.activation_type {
            ActivationType::Singular => Some(1u32),
            ActivationType::Repeat(count) => Some(count),
            ActivationType::HoldToRepeat => None,
            ActivationType::Toggle => None,
        }
    }

    pub fn execution_count(&self) -> (count: Option<u32>)
        ensures
            count == self.spec_execution_count(),
    {
        match self.activation_type {
            ActivationType::Singular => Some(1),
            ActivationType::Repeat(count) => Some(count),
            ActivationType::HoldToRepeat => None,
            ActivationType::Toggle => None,
        }
    }
}

/// Whether a macro task runs another iteration, and with how many left.
#[derive(Copy, Clone, Debug, Eq, PartialEq, Structural)]
pub enum MacroTaskStatus {
    /// Run another iteration; the remaining count after this decision.
    Continue(Option<u32>),
    /// Set the shared finished flag and exit.
    Finished,
}

/// What a macro task does after completing one full step sequence, given the
/// signal (if any) found on its channel: a stop signal or a disconnected
/// channel finishes the task; a reset starts the remaining count over at the
/// macro's full execution count; otherwise one iteration is consumed, and
/// the task finishes when none remain. Cancellation is only ever observed
/// here, between iterations, never in the middle of a step.
pub fn macro_task_step(
    remaining: Option<u32>,
    signal: Option<MacroSignal>,
    disconnected: bool,
    execution_count: Option<u32>,
) -> (status: MacroTaskStatus)
    ensures
        (disconnected || signal == Some(MacroSignal::Stop)) ==> status
            == MacroTaskStatus::Finished,
        (!disconnected && signal == Some(MacroSignal::ResetCount)) ==> status
            == MacroTaskStatus::Continue(execution_count),
        (!disconnected && (signal is None)) ==> status == match remaining {
            Some(count) => if count <= 1 {
                MacroTaskStatus::Finished
            } else {
                MacroTaskStatus::Continue(Some((count - 1) as u32))
            },
            None => MacroTaskStatus::Continue(None),
        },
{
    if disconnected {
        return MacroTaskStatus::Finished;
    }
    match signal {
        Some(MacroSignal::Stop) => MacroTaskStatus::Finished,
        Some(MacroSignal::ResetCount) => MacroTaskStatus::Continue(execution_count),
        None => match remaining {
            Some(count) => {
                if count <= 1 {
                    MacroTaskStatus::Finished
                } else {
                    MacroTaskStatus::Continue(Some(count - 1))
                }
            },
            None => MacroTaskStatus::Continue(None),
        },
    }
}

} // verus!
