//! Data shared with the window-system collaborator: the synthetic-input
//! requests the session emits and the active-window description it is told
//! about. Talking to the actual display server is not the session's job.

use vstd::prelude::*;

verus! {

/// A mouse button a macro step may click.
#[derive(Copy, Clone, Debug, PartialEq, Eq, Structural)]
pub enum MouseButton {
    Left,
    Middle,
    Right,
}

/// Why a window system backend is unavailable.
#[derive(Debug, PartialEq, Eq, Clone, Copy, Structural)]
pub enum WindowSystemError {
    NotSupported,
    NotDetected,
}

/// A request to the window-system worker.
pub enum WindowSystemSignal {
    Shutdown,
    SendClick(MouseButton),
    SendKeyCombo(String),
}

/// What is known about the currently focused window.
#[derive(Clone, Debug)]
pub struct ActiveWindowInfo {
    pub title: Option<String>,
    pub executable: Option<String>,
    pub class: Option<String>,
    pub class_name: Option<String>,
}

} // verus!
