use web_servo::controls::ControlReply;
use web_servo::delegate::{decide, EngineRequest, RequestDecision};
use web_servo::shared::{BrowserWaker, PendingControl, SharedState, SignalEvent};
use web_servo::signals::{Emission, SignalArg, SignalKind};

fn text(s: &str) -> SignalArg {
    SignalArg::Text(s.to_string())
}

#[test]
fn new_state_is_empty() {
    let state = SharedState::new();
    assert!(state.events.is_empty());
    assert!(!state.frame_ready);
    assert_eq!(state.pending_control, None);
}

#[test]
fn drain_keeps_report_order_and_empties_queue() {
    let mut state = SharedState::new();
    state.notify_url_changed("https://example.com/".to_string());
    state.notify_page_title_changed(Some("Example".to_string()));
    state.notify_focus_changed(true);
    let emissions = state.drain_signals();
    assert_eq!(
        emissions,
        vec![
            Emission { kind: SignalKind::UrlChanged, args: vec![text("https://example.com/")] },
            Emission { kind: SignalKind::PageTitleChanged, args: vec![text("Example")] },
            Emission { kind: SignalKind::FocusChanged, args: vec![SignalArg::Flag(true)] },
        ]
    );
    assert!(state.events.is_empty());
    assert!(state.drain_signals().is_empty());
}

#[test]
fn missing_title_and_status_become_empty_text() {
    let mut state = SharedState::new();
    state.notify_page_title_changed(None);
    state.notify_status_text_changed(None);
    state.notify_status_text_changed(Some("Loading".to_string()));
    let emissions = state.drain_signals();
    assert_eq!(emissions[0], Emission { kind: SignalKind::PageTitleChanged, args: vec![text("")] });
    assert_eq!(emissions[1], Emission { kind: SignalKind::StatusTextChanged, args: vec![text("")] });
    assert_eq!(emissions[2], Emission { kind: SignalKind::StatusTextChanged, args: vec![text("Loading")] });
}

#[test]
fn history_is_emitted_with_list_and_index() {
    let mut state = SharedState::new();
    state.notify_history_changed(vec!["a:1".to_string(), "b:2".to_string()], 1);
    let emissions = state.drain_signals();
    assert_eq!(
        emissions,
        vec![Emission {
            kind: SignalKind::HistoryChanged,
            args: vec![
                SignalArg::TextList(vec!["a:1".to_string(), "b:2".to_string()]),
                SignalArg::Integer(1),
            ],
        }]
    );
}

#[test]
fn events_without_arguments_and_closed_signal_name() {
    let mut state = SharedState::new();
    state.notify_favicon_changed();
    state.notify_closed();
    let emissions = state.drain_signals();
    assert_eq!(emissions[0], Emission { kind: SignalKind::FaviconChanged, args: vec![] });
    assert_eq!(emissions[1], Emission { kind: SignalKind::WebviewClosed, args: vec![] });
    assert_eq!(emissions[1].kind.name(), "webview_closed");
}

#[test]
fn every_delegate_report_becomes_its_signal() {
    let mut state = SharedState::new();
    state.notify_load_status_changed("Complete".to_string());
    state.notify_cursor_changed("Pointer".to_string());
    state.notify_crashed("out of memory".to_string());
    state.notify_fullscreen_state_changed(false);
    state.show_console_message("Warn".to_string(), "careful".to_string());
    let emissions = state.drain_signals();
    let names: Vec<&str> = emissions.iter().map(|e| e.kind.name()).collect();
    assert_eq!(
        names,
        vec!["load_status_changed", "cursor_changed", "crashed", "fullscreen_state_changed", "console_message"]
    );
    assert_eq!(emissions[4].args, vec![text("Warn"), text("careful")]);
    assert_eq!(emissions[3].args, vec![SignalArg::Flag(false)]);
}

#[test]
fn dialog_events_become_dialog_signals() {
    let mut state = SharedState::new();
    state.push_event(SignalEvent::DialogPrompt("Name?".to_string(), "anon".to_string()));
    state.push_event(SignalEvent::FilePickerRequest(vec!["*.png".to_string()], true));
    state.push_event(SignalEvent::ColorPickerRequest(0x112233));
    state.push_event(SignalEvent::ContextMenuRequest(10, 20, vec!["Copy".to_string()]));
    let emissions = state.drain_signals();
    assert_eq!(emissions[0], Emission { kind: SignalKind::DialogPrompt, args: vec![text("Name?"), text("anon")] });
    assert_eq!(
        emissions[1],
        Emission {
            kind: SignalKind::FilePickerRequest,
            args: vec![SignalArg::TextList(vec!["*.png".to_string()]), SignalArg::Flag(true)],
        }
    );
    assert_eq!(emissions[2].args, vec![SignalArg::Integer(0x112233)]);
    assert_eq!(
        emissions[3].args,
        vec![SignalArg::Integer(10), SignalArg::Integer(20), SignalArg::TextList(vec!["Copy".to_string()])]
    );
    assert_eq!(emissions[3].kind.name(), "context_menu_request");
}

#[test]
fn new_frame_sets_flag_once() {
    let mut state = SharedState::new();
    assert!(!state.take_frame_ready());
    state.notify_new_frame_ready();
    assert_eq!(state.events, vec![SignalEvent::NewFrameReady]);
    assert!(state.take_frame_ready());
    assert!(!state.take_frame_ready());
    assert_eq!(state.drain_signals(), vec![Emission { kind: SignalKind::NewFrameReady, args: vec![] }]);
}

#[test]
fn navigation_is_reported_and_allowed() {
    let mut state = SharedState::new();
    assert_eq!(state.request_navigation(Some("https://a.test/".to_string())), RequestDecision::Allow);
    assert_eq!(state.request_navigation(None), RequestDecision::Allow);
    assert_eq!(
        state.events,
        vec![
            SignalEvent::NavigationRequested("https://a.test/".to_string()),
            SignalEvent::NavigationRequested(String::new()),
        ]
    );
}

#[test]
fn permission_is_reported_and_denied() {
    let mut state = SharedState::new();
    assert_eq!(state.request_permission("Camera".to_string()), RequestDecision::Deny);
    assert_eq!(state.events, vec![SignalEvent::PermissionRequested("Camera".to_string())]);
}

#[test]
fn authentication_reports_realm_or_empty() {
    let mut state = SharedState::new();
    state.request_authentication(Some("intranet".to_string()));
    state.request_authentication(None);
    assert_eq!(
        state.events,
        vec![
            SignalEvent::AuthenticationRequested("intranet".to_string()),
            SignalEvent::AuthenticationRequested(String::new()),
        ]
    );
}

#[test]
fn policy_allows_only_navigation_and_unload() {
    assert_eq!(decide(EngineRequest::Navigation), RequestDecision::Allow);
    assert_eq!(decide(EngineRequest::Unload), RequestDecision::Allow);
    assert_eq!(decide(EngineRequest::Permission), RequestDecision::Deny);
    assert_eq!(decide(EngineRequest::ProtocolHandler), RequestDecision::Deny);
    assert_eq!(decide(EngineRequest::DevtoolsConnection), RequestDecision::Deny);
}

#[test]
fn reports_keep_frame_flag_and_pending_control() {
    let mut state = SharedState::new();
    state.pending_control = Some(PendingControl::Alert);
    state.notify_new_frame_ready();
    state.notify_url_changed("x:y".to_string());
    assert!(state.frame_ready);
    assert_eq!(state.pending_control, Some(PendingControl::Alert));
    state.drain_signals();
    assert!(state.frame_ready);
    assert_eq!(state.respond_alert(), ControlReply::Confirm);
}

#[test]
fn signal_names_are_distinct() {
    let kinds = [
        SignalKind::UrlChanged,
        SignalKind::PageTitleChanged,
        SignalKind::LoadStatusChanged,
        SignalKind::CursorChanged,
        SignalKind::NewFrameReady,
        SignalKind::HistoryChanged,
        SignalKind::FocusChanged,
        SignalKind::StatusTextChanged,
        SignalKind::FaviconChanged,
        SignalKind::WebviewClosed,
        SignalKind::Crashed,
        SignalKind::FullscreenStateChanged,
        SignalKind::ConsoleMessage,
        SignalKind::NavigationRequested,
        SignalKind::PermissionRequested,
        SignalKind::AuthenticationRequested,
        SignalKind::DialogAlert,
        SignalKind::DialogConfirm,
        SignalKind::DialogPrompt,
        SignalKind::FilePickerRequest,
        SignalKind::SelectElementRequest,
        SignalKind::ColorPickerRequest,
        SignalKind::ContextMenuRequest,
    ];
    for (i, a) in kinds.iter().enumerate() {
        for b in kinds.iter().skip(i + 1) {
            assert_ne!(a.name(), b.name());
        }
    }
}

#[test]
fn waker_does_nothing() {
    let waker = BrowserWaker;
    waker.wake();
}

#[test]
fn optional_text_defaults_to_empty() {
    assert_eq!(web_servo::signals::optional_text(None), "");
    assert_eq!(web_servo::signals::optional_text(Some("t".to_string())), "t");
}
