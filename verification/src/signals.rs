use vstd::prelude::*;
use crate::shared::{SharedState, SignalEvent};

verus! {

/// The signals that the browser node emits, one for each kind of event.
#[derive(Debug, Clone, Copy, PartialEq, Eq, Structural)]
pub enum SignalKind {
    UrlChanged,
    PageTitleChanged,
    LoadStatusChanged,
    CursorChanged,
    NewFrameReady,
    HistoryChanged,
    FocusChanged,
    StatusTextChanged,
    FaviconChanged,
    WebviewClosed,
    Crashed,
    FullscreenStateChanged,
    ConsoleMessage,
    NavigationRequested,
    PermissionRequested,
    AuthenticationRequested,
    DialogAlert,
    DialogConfirm,
    DialogPrompt,
    FilePickerRequest,
    SelectElementRequest,
    ColorPickerRequest,
    ContextMenuRequest,
}

/// The name under which the game engine knows each signal.
pub open spec fn signal_name(kind: SignalKind) -> Seq<char> {
    match kind {
        SignalKind::UrlChanged => "url_changed"@,
        SignalKind::PageTitleChanged => "page_title_changed"@,
        SignalKind::LoadStatusChanged => "load_status_changed"@,
        SignalKind::CursorChanged => "cursor_changed"@,
        SignalKind::NewFrameReady => "new_frame_ready"@,
        SignalKind::HistoryChanged => "history_changed"@,
        SignalKind::FocusChanged => "focus_changed"@,
        SignalKind::StatusTextChanged => "status_text_changed"@,
        SignalKind::FaviconChanged => "favicon_changed"@,
        SignalKind::WebviewClosed => "webview_closed"@,
        SignalKind::Crashed => "crashed"@,
        SignalKind::FullscreenStateChanged => "fullscreen_state_changed"@,
        SignalKind::ConsoleMessage => "console_message"@,
        SignalKind::NavigationRequested => "navigation_requested"@,
        SignalKind::PermissionRequested => "permission_requested"@,
        SignalKind::AuthenticationRequested => "authentication_requested"@,
        SignalKind::DialogAlert => "dialog_alert"@,
        SignalKind::DialogConfirm => "dialog_confirm"@,
        SignalKind::DialogPrompt => "dialog_prompt"@,
        SignalKind::FilePickerRequest => "file_picker_request"@,
        SignalKind::SelectElementRequest => "select_element_request"@,
        SignalKind::ColorPickerRequest => "color_picker_request"@,
        SignalKind::ContextMenuRequest => "context_menu_request"@,
    }
}

impl SignalKind {
    /// The name under which the game engine knows this signal.
    pub fn name(&self) -> (name: &'static str)
        ensures
            name@ == signal_name(*self),
    {
        match self {
            SignalKind::UrlChanged => "url_changed",
            SignalKind::PageTitleChanged => "page_title_changed",
            SignalKind::LoadStatusChanged => "load_status_changed",
            SignalKind::CursorChanged => "cursor_changed",
            SignalKind::NewFrameReady => "new_frame_ready",
            SignalKind::HistoryChanged => "history_changed",
            SignalKind::FocusChanged => "focus_changed",
            SignalKind::StatusTextChanged => "status_text_changed",
            SignalKind::FaviconChanged => "favicon_changed",
            SignalKind::WebviewClosed => "webview_closed",
            SignalKind::Crashed => "crashed",
            SignalKind::FullscreenStateChanged => "fullscreen_state_changed",
            SignalKind::ConsoleMessage => "console_message",
            SignalKind::NavigationRequested => "navigation_requested",
            SignalKind::PermissionRequested => "permission_requested",
            SignalKind::AuthenticationRequested => "authentication_requested",
            SignalKind::DialogAlert => "dialog_alert",
            SignalKind::DialogConfirm => "dialog_confirm",
            SignalKind::DialogPrompt => "dialog_prompt",
            SignalKind::FilePickerRequest => "file_picker_request",
            SignalKind::SelectElementRequest => "select_element_request",
            SignalKind::ColorPickerRequest => "color_picker_request",
            SignalKind::ContextMenuRequest => "context_menu_request",
        }
    }
}

/// One argument of an emitted signal.
#[derive(Debug, PartialEq, Eq)]
pub enum SignalArg {
    Text(String),
    Flag(bool),
    Integer(i64),
    TextList(Vec<String>),
}

/// The value of a signal argument.
pub enum ArgValue {
    Text(Seq<char>),
    Flag(bool),
    Integer(int),
    TextList(Seq<Seq<char>>),
}

/// The texts of a list of strings.
pub open spec fn texts(list: Seq<String>) -> Seq<Seq<char>> {
    list.map_values(|s: String| s@)
}

impl View for SignalArg {
    type V = ArgValue;

    open spec fn view(&self) -> ArgValue {
        match self {
            SignalArg::Text(s) => ArgValue::Text(s@),
            SignalArg::Flag(b) => ArgValue::Flag(*b),
            SignalArg::Integer(i) => ArgValue::Integer(*i as int),
            SignalArg::TextList(l) => ArgValue::TextList(texts(l@)),
        }
    }
}

/// A signal to emit: its kind and its arguments, in order.
#[derive(Debug, PartialEq, Eq)]
pub struct Emission {
    pub kind: SignalKind,
    pub args: Vec<SignalArg>,
}

/// The value of an emission: the signal and the values of its arguments.
pub struct EmissionValue {
    pub kind: SignalKind,
    pub args: Seq<ArgValue>,
}

impl View for Emission {
    type V = EmissionValue;

    open spec fn view(&self) -> EmissionValue {
        EmissionValue { kind: self.kind, args: self.args@.map_values(|a: SignalArg| a@) }
    }
}

/// The text of an optional string, empty where there is none.
pub open spec fn text_or_empty(s: Option<String>) -> Seq<char> {
    match s {
        Some(s) => s@,
        None => Seq::empty(),
    }
}

/// The signal that an event becomes: a missing page title or status text is
/// emitted as the empty text, and the current history index as a 64-bit
/// integer.
pub open spec fn emission_of(event: SignalEvent) -> EmissionValue {
    match event {
        SignalEvent::UrlChanged(u) => EmissionValue {
            kind: SignalKind::UrlChanged,
            args: seq![ArgValue::Text(u@)],
        },
        SignalEvent::PageTitleChanged(t) => EmissionValue {
            kind: SignalKind::PageTitleChanged,
            args: seq![ArgValue::Text(text_or_empty(t))],
        },
        SignalEvent::LoadStatusChanged(s) => EmissionValue {
            kind: SignalKind::LoadStatusChanged,
            args: seq![ArgValue::Text(s@)],
        },
        SignalEvent::CursorChanged(c) => EmissionValue {
            kind: SignalKind::CursorChanged,
            args: seq![ArgValue::Text(c@)],
        },
        SignalEvent::NewFrameReady => EmissionValue {
            kind: SignalKind::NewFrameReady,
            args: Seq::empty(),
        },
        SignalEvent::HistoryChanged(entries, current) => EmissionValue {
            kind: SignalKind::HistoryChanged,
            args: seq![ArgValue::TextList(texts(entries@)), ArgValue::Integer((current as i64) as int)],
        },
        SignalEvent::FocusChanged(f) => EmissionValue {
            kind: SignalKind::FocusChanged,
            args: seq![ArgValue::Flag(f)],
        },
        SignalEvent::StatusTextChanged(s) => EmissionValue {
            kind: SignalKind::StatusTextChanged,
            args: seq![ArgValue::Text(text_or_empty(s))],
        },
        SignalEvent::FaviconChanged => EmissionValue {
            kind: SignalKind::FaviconChanged,
            args: Seq::empty(),
        },
        SignalEvent::Closed => EmissionValue { kind: SignalKind::WebviewClosed, args: Seq::empty() },
        SignalEvent::Crashed(r) => EmissionValue {
            kind: SignalKind::Crashed,
            args: seq![ArgValue::Text(r@)],
        },
        SignalEvent::FullscreenStateChanged(fs) => EmissionValue {
            kind: SignalKind::FullscreenStateChanged,
            args: seq![ArgValue::Flag(fs)],
        },
        SignalEvent::ConsoleMessage(level, message) => EmissionValue {
            kind: SignalKind::ConsoleMessage,
            args: seq![ArgValue::Text(level@), ArgValue::Text(message@)],
        },
        SignalEvent::NavigationRequested(u) => EmissionValue {
            kind: SignalKind::NavigationRequested,
            args: seq![ArgValue::Text(u@)],
        },
        SignalEvent::PermissionRequested(f) => EmissionValue {
            kind: SignalKind::PermissionRequested,
            args: seq![ArgValue::Text(f@)],
        },
        SignalEvent::AuthenticationRequested(r) => EmissionValue {
            kind: SignalKind::AuthenticationRequested,
            args: seq![ArgValue::Text(r@)],
        },
        SignalEvent::DialogAlert(m) => EmissionValue {
            kind: SignalKind::DialogAlert,
            args: seq![ArgValue::Text(m@)],
        },
        SignalEvent::DialogConfirm(m) => EmissionValue {
            kind: SignalKind::DialogConfirm,
            args: seq![ArgValue::Text(m@)],
        },
        SignalEvent::DialogPrompt(m, d) => EmissionValue {
            kind: SignalKind::DialogPrompt,
            args: seq![ArgValue::Text(m@), ArgValue::Text(d@)],
        },
        SignalEvent::FilePickerRequest(patterns, multiple) => EmissionValue {
            kind: SignalKind::FilePickerRequest,
            args: seq![ArgValue::TextList(texts(patterns@)), ArgValue::Flag(multiple)],
        },
        SignalEvent::SelectElementRequest(options) => EmissionValue {
            kind: SignalKind::SelectElementRequest,
            args: seq![ArgValue::TextList(texts(options@))],
        },
        SignalEvent::ColorPickerRequest(color) => EmissionValue {
            kind: SignalKind::ColorPickerRequest,
            args: seq![ArgValue::Integer(color as int)],
        },
        SignalEvent::ContextMenuRequest(x, y, items) => EmissionValue {
            kind: SignalKind::ContextMenuRequest,
            args: seq![ArgValue::Integer(x as int), ArgValue::Integer(y as int), ArgValue::TextList(texts(items@))],
        },
    }
}

/// The signals that a queue of events becomes, in the queue's order.
pub open spec fn emissions_of(events: Seq<SignalEvent>) -> Seq<EmissionValue> {
    events.map_values(|e: SignalEvent| emission_of(e))
}

/// The values of a list of emissions.
pub open spec fn emission_values(emissions: Seq<Emission>) -> Seq<EmissionValue> {
    emissions.map_values(|em: Emission| em@)
}

fn text_arg(s: String) -> (arg: SignalArg)
    ensures
        arg@ == ArgValue::Text(s@),
{
    SignalArg::Text(s)
}

/// The text of an optional string, empty where there is none.
pub fn optional_text(s: Option<String>) -> (text: String)
    ensures
        text@ == text_or_empty(s),
{
    match s {
        Some(s) => s,
        None => String::new(),
    }
}

impl SignalEvent {
    /// The signal that this event becomes.
    pub fn into_emission(self) -> (emission: Emission)
        ensures
            emission@ == emission_of(self),
    {
        let ghost event = self;
        let mut args: Vec<SignalArg> = Vec::new();
        let kind = match self {
            SignalEvent::UrlChanged(u) => {
                args.push(text_arg(u));
                SignalKind::UrlChanged
            },
            SignalEvent::PageTitleChanged(t) => {
                args.push(text_arg(optional_text(t)));
                SignalKind::PageTitleChanged
            },
            SignalEvent::LoadStatusChanged(s) => {
                args.push(text_arg(s));
                SignalKind::LoadStatusChanged
            },
            SignalEvent::CursorChanged(c) => {
                args.push(text_arg(c));
                SignalKind::CursorChanged
            },
            SignalEvent::NewFrameReady => SignalKind::NewFrameReady,
            SignalEvent::HistoryChanged(entries, current) => {
                args.push(SignalArg::TextList(entries));
                args.push(SignalArg::Integer(current as i64));
                SignalKind::HistoryChanged
            },
            SignalEvent::FocusChanged(f) => {
                args.push(SignalArg::Flag(f));
                SignalKind::FocusChanged
            },
            SignalEvent::StatusTextChanged(s) => {
                args.push(text_arg(optional_text(s)));
                SignalKind::StatusTextChanged
            },
            SignalEvent::FaviconChanged => SignalKind::FaviconChanged,
            SignalEvent::Closed => SignalKind::WebviewClosed,
            SignalEvent::Crashed(r) => {
                args.push(text_arg(r));
                SignalKind::Crashed
            },
            SignalEvent::FullscreenStateChanged(fs) => {
                args.push(SignalArg::Flag(fs));
                SignalKind::FullscreenStateChanged
            },
            SignalEvent::ConsoleMessage(level, message) => {
                args.push(text_arg(level));
                args.push(text_arg(message));
                SignalKind::ConsoleMessage
            },
            SignalEvent::NavigationRequested(u) => {
                args.push(text_arg(u));
                SignalKind::NavigationRequested
            },
            SignalEvent::PermissionRequested(f) => {
                args.push(text_arg(f));
                SignalKind::PermissionRequested
            },
            SignalEvent::AuthenticationRequested(r) => {
                args.push(text_arg(r));
                SignalKind::AuthenticationRequested
            },
            SignalEvent::DialogAlert(m) => {
                args.push(text_arg(m));
                SignalKind::DialogAlert
            },
            SignalEvent::DialogConfirm(m) => {
                args.push(text_arg(m));
                SignalKind::DialogConfirm
            },
            SignalEvent::DialogPrompt(m, d) => {
                args.push(text_arg(m));
                args.push(text_arg(d));
                SignalKind::DialogPrompt
            },
            SignalEvent::FilePickerRequest(patterns, multiple) => {
                args.push(SignalArg::TextList(patterns));
                args.push(SignalArg::Flag(multiple));
                SignalKind::FilePickerRequest
            },
            SignalEvent::SelectElementRequest(options) => {
                args.push(SignalArg::TextList(options));
                SignalKind::SelectElementRequest
            },
            SignalEvent::ColorPickerRequest(color) => {
                args.push(SignalArg::Integer(color));
                SignalKind::ColorPickerRequest
            },
            SignalEvent::ContextMenuRequest(x, y, items) => {
                args.push(SignalArg::Integer(x));
                args.push(SignalArg::Integer(y));
                args.push(SignalArg::TextList(items));
                SignalKind::ContextMenuRequest
            },
        };
        let emission = Emission { kind, args };
        assert(emission@.args =~= emission_of(event).args);
        emission
    }
}

impl SharedState {
    /// Takes every queued event, in the order they came, and turns each into
    /// the signal to emit; the queue is left empty.
    pub fn drain_signals(&mut self) -> (emissions: Vec<Emission>)
        ensures
            emission_values(emissions@) == emissions_of(old(self).events@),
            emissions@.len() == old(self).events@.len(),
            forall|i: int|
                0 <= i < emissions@.len() ==> #[trigger] emissions@[i]@ == emission_of(old(self).events@[i]),
            final(self).events@ == Seq::<SignalEvent>::empty(),
            final(self).frame_ready == old(self).frame_ready,
            final(self).pending_control == old(self).pending_control,
    {
        let mut events: Vec<SignalEvent> = Vec::new();
        std::mem::swap(&mut events, &mut self.events);
        let ghost taken = events@;
        let mut emissions: Vec<Emission> = Vec::new();
        for event in it: events
            invariant
                it.seq() == taken,
                emission_values(emissions@) =~= emissions_of(taken.take(it.index() as int)),
        {
            let ghost i = it.index();
            assert(event == taken[i as int]);
            let ghost before = emissions@;
            emissions.push(event.into_emission());
            proof {
                assert(taken.take(i + 1) =~= taken.take(i as int).push(taken[i as int]));
                assert(emission_values(emissions@) =~= emission_values(before).push(
                    emission_of(taken[i as int]),
                ));
                assert(emissions_of(taken.take(i + 1)) =~= emissions_of(taken.take(i as int)).push(
                    emission_of(taken[i as int]),
                ));
            }
        }
        assert(taken.take(taken.len() as int) =~= taken);
        assert(emission_values(emissions@).len() == emissions@.len());
        assert forall|i: int| 0 <= i < emissions@.len() implies #[trigger] emissions@[i]@ == emission_of(taken[i]) by {
            assert(emission_values(emissions@)[i] == emissions@[i]@);
            assert(emissions_of(taken)[i] == emission_of(taken[i]));
        }
        emissions
    }
}

} // verus!

verus! {

/// An event reported after the events already queued comes out of the next
/// drain as its own signal, after theirs.
pub proof fn lemma_report_then_drain(queued: Seq<SignalEvent>, event: SignalEvent)
    ensures
        emissions_of(queued.push(event)) == emissions_of(queued).push(emission_of(event)),
{
    assert(emissions_of(queued.push(event)) =~= emissions_of(queued).push(emission_of(event)));
}

/// Distinct signals have distinct names, so no two kinds of event reach
/// the same signal of the game engine.
pub proof fn lemma_signal_names_distinct(a: SignalKind, b: SignalKind)
    requires
        a != b,
    ensures
        signal_name(a) != signal_name(b),
{
    reveal_strlit("url_changed");
    reveal_strlit("page_title_changed");
    reveal_strlit("load_status_changed");
    reveal_strlit("cursor_changed");
    reveal_strlit("new_frame_ready");
    reveal_strlit("history_changed");
    reveal_strlit("focus_changed");
    reveal_strlit("status_text_changed");
    reveal_strlit("favicon_changed");
    reveal_strlit("webview_closed");
    reveal_strlit("crashed");
    reveal_strlit("fullscreen_state_changed");
    reveal_strlit("console_message");
    reveal_strlit("navigation_requested");
    reveal_strlit("permission_requested");
    reveal_strlit("authentication_requested");
    reveal_strlit("dialog_alert");
    reveal_strlit("dialog_confirm");
    reveal_strlit("dialog_prompt");
    reveal_strlit("file_picker_request");
    reveal_strlit("select_element_request");
    reveal_strlit("color_picker_request");
    reveal_strlit("context_menu_request");
    if signal_name(a) == signal_name(b) {
        assert(signal_name(a).len() == signal_name(b).len());
        assert(signal_name(a)[0] == signal_name(b)[0]);
        assert(signal_name(a)[1] == signal_name(b)[1]);
        assert(signal_name(a)[2] == signal_name(b)[2]);
        assert(signal_name(a)[5] == signal_name(b)[5]);
        assert(signal_name(a)[7] == signal_name(b)[7]);
    }
}

} // verus!

verus! {

/// Each signal carries the name that the browser node declares for it.
pub proof fn lemma_signal_names()
    ensures
        signal_name(SignalKind::UrlChanged) == "url_changed"@,
        signal_name(SignalKind::PageTitleChanged) == "page_title_changed"@,
        signal_name(SignalKind::LoadStatusChanged) == "load_status_changed"@,
        signal_name(SignalKind::CursorChanged) == "cursor_changed"@,
        signal_name(SignalKind::NewFrameReady) == "new_frame_ready"@,
        signal_name(SignalKind::HistoryChanged) == "history_changed"@,
        signal_name(SignalKind::FocusChanged) == "focus_changed"@,
        signal_name(SignalKind::StatusTextChanged) == "status_text_changed"@,
        signal_name(SignalKind::FaviconChanged) == "favicon_changed"@,
        signal_name(SignalKind::WebviewClosed) == "webview_closed"@,
        signal_name(SignalKind::Crashed) == "crashed"@,
        signal_name(SignalKind::FullscreenStateChanged) == "fullscreen_state_changed"@,
        signal_name(SignalKind::ConsoleMessage) == "console_message"@,
        signal_name(SignalKind::NavigationRequested) == "navigation_requested"@,
        signal_name(SignalKind::PermissionRequested) == "permission_requested"@,
        signal_name(SignalKind::AuthenticationRequested) == "authentication_requested"@,
        signal_name(SignalKind::DialogAlert) == "dialog_alert"@,
        signal_name(SignalKind::DialogConfirm) == "dialog_confirm"@,
        signal_name(SignalKind::DialogPrompt) == "dialog_prompt"@,
        signal_name(SignalKind::FilePickerRequest) == "file_picker_request"@,
        signal_name(SignalKind::SelectElementRequest) == "select_element_request"@,
        signal_name(SignalKind::ColorPickerRequest) == "color_picker_request"@,
        signal_name(SignalKind::ContextMenuRequest) == "context_menu_request"@,
{
}

/// Each event becomes the signal of the same name as the event, carrying
/// the event's own values in the declared order: a permission request with
/// feature `f` becomes `permission_requested` with the text `f`, a missing
/// page title or status text becomes the empty text, the history index is
/// emitted as a 64-bit integer, and the closing of the web view becomes
/// `webview_closed`.
pub proof fn lemma_each_event_reaches_its_signal()
    ensures
        forall|u: String|
            #[trigger] emission_of(SignalEvent::UrlChanged(u)).kind == SignalKind::UrlChanged
                && emission_of(SignalEvent::UrlChanged(u)).args == seq![ArgValue::Text(u@)],
        forall|t: String|
            #[trigger] emission_of(SignalEvent::PageTitleChanged(Some(t))).kind == SignalKind::PageTitleChanged
                && emission_of(SignalEvent::PageTitleChanged(Some(t))).args == seq![ArgValue::Text(t@)],
        emission_of(SignalEvent::PageTitleChanged(None)).kind == SignalKind::PageTitleChanged,
        emission_of(SignalEvent::PageTitleChanged(None)).args == seq![ArgValue::Text(Seq::<char>::empty())],
        forall|st: String|
            #[trigger] emission_of(SignalEvent::LoadStatusChanged(st)).kind == SignalKind::LoadStatusChanged
                && emission_of(SignalEvent::LoadStatusChanged(st)).args == seq![ArgValue::Text(st@)],
        forall|c: String|
            #[trigger] emission_of(SignalEvent::CursorChanged(c)).kind == SignalKind::CursorChanged
                && emission_of(SignalEvent::CursorChanged(c)).args == seq![ArgValue::Text(c@)],
        emission_of(SignalEvent::NewFrameReady).kind == SignalKind::NewFrameReady,
        emission_of(SignalEvent::NewFrameReady).args == Seq::<ArgValue>::empty(),
        forall|entries: Vec<String>, current: usize|
            #[trigger] emission_of(SignalEvent::HistoryChanged(entries, current)).kind == SignalKind::HistoryChanged
                && emission_of(SignalEvent::HistoryChanged(entries, current)).args == seq![ArgValue::TextList(texts(entries@)), ArgValue::Integer((current as i64) as int)],
        forall|f: bool|
            #[trigger] emission_of(SignalEvent::FocusChanged(f)).kind == SignalKind::FocusChanged
                && emission_of(SignalEvent::FocusChanged(f)).args == seq![ArgValue::Flag(f)],
        forall|t: String|
            #[trigger] emission_of(SignalEvent::StatusTextChanged(Some(t))).kind == SignalKind::StatusTextChanged
                && emission_of(SignalEvent::StatusTextChanged(Some(t))).args == seq![ArgValue::Text(t@)],
        emission_of(SignalEvent::StatusTextChanged(None)).kind == SignalKind::StatusTextChanged,
        emission_of(SignalEvent::StatusTextChanged(None)).args == seq![ArgValue::Text(Seq::<char>::empty())],
        emission_of(SignalEvent::FaviconChanged).kind == SignalKind::FaviconChanged,
        emission_of(SignalEvent::FaviconChanged).args == Seq::<ArgValue>::empty(),
        emission_of(SignalEvent::Closed).kind == SignalKind::WebviewClosed,
        emission_of(SignalEvent::Closed).args == Seq::<ArgValue>::empty(),
        forall|r: String|
            #[trigger] emission_of(SignalEvent::Crashed(r)).kind == SignalKind::Crashed
                && emission_of(SignalEvent::Crashed(r)).args == seq![ArgValue::Text(r@)],
        forall|fs: bool|
            #[trigger] emission_of(SignalEvent::FullscreenStateChanged(fs)).kind == SignalKind::FullscreenStateChanged
                && emission_of(SignalEvent::FullscreenStateChanged(fs)).args == seq![ArgValue::Flag(fs)],
        forall|level: String, message: String|
            #[trigger] emission_of(SignalEvent::ConsoleMessage(level, message)).kind == SignalKind::ConsoleMessage
                && emission_of(SignalEvent::ConsoleMessage(level, message)).args == seq![ArgValue::Text(level@), ArgValue::Text(message@)],
        forall|u: String|
            #[trigger] emission_of(SignalEvent::NavigationRequested(u)).kind == SignalKind::NavigationRequested
                && emission_of(SignalEvent::NavigationRequested(u)).args == seq![ArgValue::Text(u@)],
        forall|f: String|
            #[trigger] emission_of(SignalEvent::PermissionRequested(f)).kind == SignalKind::PermissionRequested
                && emission_of(SignalEvent::PermissionRequested(f)).args == seq![ArgValue::Text(f@)],
        forall|r: String|
            #[trigger] emission_of(SignalEvent::AuthenticationRequested(r)).kind == SignalKind::AuthenticationRequested
                && emission_of(SignalEvent::AuthenticationRequested(r)).args == seq![ArgValue::Text(r@)],
        forall|m: String|
            #[trigger] emission_of(SignalEvent::DialogAlert(m)).kind == SignalKind::DialogAlert
                && emission_of(SignalEvent::DialogAlert(m)).args == seq![ArgValue::Text(m@)],
        forall|m: String|
            #[trigger] emission_of(SignalEvent::DialogConfirm(m)).kind == SignalKind::DialogConfirm
                && emission_of(SignalEvent::DialogConfirm(m)).args == seq![ArgValue::Text(m@)],
        forall|m: String, d: String|
            #[trigger] emission_of(SignalEvent::DialogPrompt(m, d)).kind == SignalKind::DialogPrompt
                && emission_of(SignalEvent::DialogPrompt(m, d)).args == seq![ArgValue::Text(m@), ArgValue::Text(d@)],
        forall|patterns: Vec<String>, multiple: bool|
            #[trigger] emission_of(SignalEvent::FilePickerRequest(patterns, multiple)).kind == SignalKind::FilePickerRequest
                && emission_of(SignalEvent::FilePickerRequest(patterns, multiple)).args == seq![ArgValue::TextList(texts(patterns@)), ArgValue::Flag(multiple)],
        forall|options: Vec<String>|
            #[trigger] emission_of(SignalEvent::SelectElementRequest(options)).kind == SignalKind::SelectElementRequest
                && emission_of(SignalEvent::SelectElementRequest(options)).args == seq![ArgValue::TextList(texts(options@))],
        forall|color: i64|
            #[trigger] emission_of(SignalEvent::ColorPickerRequest(color)).kind == SignalKind::ColorPickerRequest
                && emission_of(SignalEvent::ColorPickerRequest(color)).args == seq![ArgValue::Integer(color as int)],
        forall|x: i64, y: i64, items: Vec<String>|
            #[trigger] emission_of(SignalEvent::ContextMenuRequest(x, y, items)).kind == SignalKind::ContextMenuRequest
                && emission_of(SignalEvent::ContextMenuRequest(x, y, items)).args == seq![ArgValue::Integer(x as int), ArgValue::Integer(y as int), ArgValue::TextList(texts(items@))],
{
}

/// Whenever an event is drained, the name of the signal it is emitted under
/// is the one declared for that kind of event; in particular a permission
/// request is emitted as `permission_requested` with its feature, and never
/// under another name.
pub proof fn lemma_permission_request_is_emitted_as_such(feature: String)
    ensures
        signal_name(emission_of(SignalEvent::PermissionRequested(feature)).kind) == "permission_requested"@,
        emission_of(SignalEvent::PermissionRequested(feature)).args == seq![ArgValue::Text(feature@)],
{
}

} // verus!
