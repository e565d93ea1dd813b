use vstd::prelude::*;
use crate::shared::{SharedState, SignalEvent};
use crate::signals::optional_text;

verus! {

/// What the browser answers to a request of the browser engine.
#[derive(Debug, Clone, Copy, PartialEq, Eq, Structural)]
pub enum RequestDecision {
    Allow,
    Deny,
}

/// The requests of the browser engine that wait for an allow or a deny.
#[derive(Debug, Clone, Copy, PartialEq, Eq, Structural)]
pub enum EngineRequest {
    /// The page navigates to another address.
    Navigation,
    /// The page asks for a permission (camera, notifications, ...).
    Permission,
    /// The page may be unloaded.
    Unload,
    /// The page registers a protocol handler.
    ProtocolHandler,
    /// A developer-tools client wants to connect.
    DevtoolsConnection,
}

/// The browser's policy: navigation and unloading are allowed, every other
/// request is denied.
pub open spec fn policy(request: EngineRequest) -> RequestDecision {
    match request {
        EngineRequest::Navigation | EngineRequest::Unload => RequestDecision::Allow,
        _ => RequestDecision::Deny,
    }
}

/// The answer that the browser gives to a request of the browser engine.
pub fn decide(request: EngineRequest) -> (decision: RequestDecision)
    ensures
        decision == policy(request),
{
    match request {
        EngineRequest::Navigation | EngineRequest::Unload => RequestDecision::Allow,
        _ => RequestDecision::Deny,
    }
}

impl SharedState {
    /// The page's address changed to `url`.
    pub fn notify_url_changed(&mut self, url: String)
        ensures
            final(self).is_old_with_event(*old(self), SignalEvent::UrlChanged(url)),
    {
        self.push_event(SignalEvent::UrlChanged(url));
    }

    /// The page's title changed; `None` when the page has none.
    pub fn notify_page_title_changed(&mut self, title: Option<String>)
        ensures
            final(self).is_old_with_event(*old(self), SignalEvent::PageTitleChanged(title)),
    {
        self.push_event(SignalEvent::PageTitleChanged(title));
    }

    /// The page's load status changed; `status` names the new status.
    pub fn notify_load_status_changed(&mut self, status: String)
        ensures
            final(self).is_old_with_event(*old(self), SignalEvent::LoadStatusChanged(status)),
    {
        self.push_event(SignalEvent::LoadStatusChanged(status));
    }

    /// The cursor over the page changed; `cursor` names the new cursor.
    pub fn notify_cursor_changed(&mut self, cursor: String)
        ensures
            final(self).is_old_with_event(*old(self), SignalEvent::CursorChanged(cursor)),
    {
        self.push_event(SignalEvent::CursorChanged(cursor));
    }

    /// A new frame was rendered: it waits to be painted, and the event is
    /// queued.
    pub fn notify_new_frame_ready(&mut self)
        ensures
            final(self).frame_ready,
            final(self).events@ == old(self).events@.push(SignalEvent::NewFrameReady),
            final(self).pending_control == old(self).pending_control,
    {
        self.frame_ready = true;
        self.events.push(SignalEvent::NewFrameReady);
    }

    /// The session history changed to `entries`, `current` being the index of
    /// the page shown.
    pub fn notify_history_changed(&mut self, entries: Vec<String>, current: usize)
        ensures
            final(self).is_old_with_event(*old(self), SignalEvent::HistoryChanged(entries, current)),
    {
        self.push_event(SignalEvent::HistoryChanged(entries, current));
    }

    /// The page gained or lost the focus.
    pub fn notify_focus_changed(&mut self, focused: bool)
        ensures
            final(self).is_old_with_event(*old(self), SignalEvent::FocusChanged(focused)),
    {
        self.push_event(SignalEvent::FocusChanged(focused));
    }

    /// The status text changed; `None` when there is none.
    pub fn notify_status_text_changed(&mut self, status: Option<String>)
        ensures
            final(self).is_old_with_event(*old(self), SignalEvent::StatusTextChanged(status)),
    {
        self.push_event(SignalEvent::StatusTextChanged(status));
    }

    /// The page's icon changed.
    pub fn notify_favicon_changed(&mut self)
        ensures
            final(self).is_old_with_event(*old(self), SignalEvent::FaviconChanged),
    {
        self.push_event(SignalEvent::FaviconChanged);
    }

    /// The web view was closed.
    pub fn notify_closed(&mut self)
        ensures
            final(self).is_old_with_event(*old(self), SignalEvent::Closed),
    {
        self.push_event(SignalEvent::Closed);
    }

    /// The web view crashed for `reason`.
    pub fn notify_crashed(&mut self, reason: String)
        ensures
            final(self).is_old_with_event(*old(self), SignalEvent::Crashed(reason)),
    {
        self.push_event(SignalEvent::Crashed(reason));
    }

    /// The page entered or left full screen.
    pub fn notify_fullscreen_state_changed(&mut self, fullscreen: bool)
        ensures
            final(self).is_old_with_event(*old(self), SignalEvent::FullscreenStateChanged(fullscreen)),
    {
        self.push_event(SignalEvent::FullscreenStateChanged(fullscreen));
    }

    /// The page's script logged `message` at `level`.
    pub fn show_console_message(&mut self, level: String, message: String)
        ensures
            final(self).is_old_with_event(*old(self), SignalEvent::ConsoleMessage(level, message)),
    {
        self.push_event(SignalEvent::ConsoleMessage(level, message));
    }

    /// The page asks to navigate to `url` (`None` when the request carries
    /// no address): the request is reported, with the empty text for a
    /// missing address, and allowed.
    pub fn request_navigation(&mut self, url: Option<String>) -> (decision: RequestDecision)
        ensures
            final(self).events@.len() == old(self).events@.len() + 1,
            final(self).events@.drop_last() == old(self).events@,
            final(self).events@.last() matches SignalEvent::NavigationRequested(u)
                && u@ == crate::signals::text_or_empty(url),
            final(self).frame_ready == old(self).frame_ready,
            final(self).pending_control == old(self).pending_control,
            decision == policy(EngineRequest::Navigation),
            decision == RequestDecision::Allow,
    {
        let url = optional_text(url);
        self.push_event(SignalEvent::NavigationRequested(url));
        decide(EngineRequest::Navigation)
    }

    /// The page asks for the permission named `feature`: the request is
    /// reported and denied.
    pub fn request_permission(&mut self, feature: String) -> (decision: RequestDecision)
        ensures
            final(self).is_old_with_event(*old(self), SignalEvent::PermissionRequested(feature)),
            decision == policy(EngineRequest::Permission),
            decision == RequestDecision::Deny,
    {
        self.push_event(SignalEvent::PermissionRequested(feature));
        decide(EngineRequest::Permission)
    }

    /// The page asks for credentials for `realm` (`None` when it names none):
    /// the request is reported, with the empty text for a missing realm; it
    /// is neither allowed nor denied here.
    pub fn request_authentication(&mut self, realm: Option<String>)
        ensures
            final(self).events@.len() == old(self).events@.len() + 1,
            final(self).events@.drop_last() == old(self).events@,
            final(self).events@.last() matches SignalEvent::AuthenticationRequested(r)
                && r@ == crate::signals::text_or_empty(realm),
            final(self).frame_ready == old(self).frame_ready,
            final(self).pending_control == old(self).pending_control,
    {
        let realm = optional_text(realm);
        self.push_event(SignalEvent::AuthenticationRequested(realm));
    }
}

/// Navigation and unloading are allowed; permissions, protocol handlers
/// and developer-tools connections are denied.
pub proof fn lemma_policy_allows_navigation_and_unload_only(request: EngineRequest)
    ensures
        policy(request) == RequestDecision::Allow <==> (request == EngineRequest::Navigation
            || request == EngineRequest::Unload),
        policy(EngineRequest::Navigation) == RequestDecision::Allow,
        policy(EngineRequest::Unload) == RequestDecision::Allow,
        policy(EngineRequest::Permission) == RequestDecision::Deny,
        policy(EngineRequest::ProtocolHandler) == RequestDecision::Deny,
        policy(EngineRequest::DevtoolsConnection) == RequestDecision::Deny,
{
}

} // verus!
