use vstd::prelude::*;

verus! {

/// An event that the browser engine's delegates report to the browser node,
/// which turns each into one signal of the game engine.
#[derive(Debug, PartialEq, Eq)]
pub enum SignalEvent {
    UrlChanged(String),
    PageTitleChanged(Option<String>),
    LoadStatusChanged(String),
    CursorChanged(String),
    NewFrameReady,
    HistoryChanged(Vec<String>, usize),
    FocusChanged(bool),
    StatusTextChanged(Option<String>),
    FaviconChanged,
    Closed,
    Crashed(String),
    FullscreenStateChanged(bool),
    ConsoleMessage(String, String),
    NavigationRequested(String),
    PermissionRequested(String),
    AuthenticationRequested(String),
    DialogAlert(String),
    DialogConfirm(String),
    DialogPrompt(String, String),
    FilePickerRequest(Vec<String>, bool),
    SelectElementRequest(Vec<String>),
    ColorPickerRequest(i64),
    ContextMenuRequest(i64, i64, Vec<String>),
}

/// The kind of embedder control (a dialog or a picker) that the page opened
/// and that waits for the user's answer. A context menu carries the number
/// of its items.
#[derive(Debug, Clone, Copy, PartialEq, Eq, Structural)]
pub enum PendingControl {
    Alert,
    Confirm,
    Prompt,
    FilePicker,
    SelectElement,
    ColorPicker,
    ContextMenu(usize),
}

/// The state that the browser engine's delegates share with the browser
/// node: the events not yet turned into signals, in the order they came,
/// whether a new frame waits to be painted, and the control that waits for
/// an answer.
pub struct SharedState {
    pub events: Vec<SignalEvent>,
    pub frame_ready: bool,
    pub pending_control: Option<PendingControl>,
}

impl SharedState {
    /// A state with no event queued, no frame waiting and no pending control.
    pub fn new() -> (state: SharedState)
        ensures
            state.events@ == Seq::<SignalEvent>::empty(),
            !state.frame_ready,
            state.pending_control is None,
    {
        SharedState { events: Vec::new(), frame_ready: false, pending_control: None }
    }

    /// `self` is `old` with `event` queued after the events already there,
    /// and nothing else changed.
    pub open spec fn is_old_with_event(self, old: SharedState, event: SignalEvent) -> bool {
        &&& self.events@ == old.events@.push(event)
        &&& self.frame_ready == old.frame_ready
        &&& self.pending_control == old.pending_control
    }

    /// Queues `event` after the events already queued.
    pub fn push_event(&mut self, event: SignalEvent)
        ensures
            final(self).is_old_with_event(*old(self), event),
    {
        self.events.push(event);
    }

    /// Reports whether a new frame waits to be painted, and clears the flag.
    pub fn take_frame_ready(&mut self) -> (was_ready: bool)
        ensures
            was_ready == old(self).frame_ready,
            !final(self).frame_ready,
            final(self).events@ == old(self).events@,
            final(self).pending_control == old(self).pending_control,
    {
        let was_ready = self.frame_ready;
        self.frame_ready = false;
        was_ready
    }
}

/// The waker that the browser engine calls when its event loop has work;
/// the browser node spins that loop once per game frame anyway, so waking
/// does nothing.
pub struct BrowserWaker;

impl BrowserWaker {
    /// Does nothing: the next game frame spins the engine's event loop.
    pub fn wake(&self) {
    }
}

} // verus!
