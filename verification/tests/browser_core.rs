use web_servo::browser::{
    clamp_dimension, read_back_size, BrowserCore, ButtonAction, CompositionState, KeyState, MouseButton,
    WebViewCommand, INITIAL_VIEWPORT_HEIGHT, INITIAL_VIEWPORT_WIDTH,
};
use web_servo::input_map::MappedKey;

fn started() -> BrowserCore {
    let mut core = BrowserCore::new();
    core.mark_started();
    core
}

#[test]
fn new_core_waits_with_blank_page() {
    let core = BrowserCore::new();
    assert_eq!(core.initial_url, "about:blank");
    assert!(!core.started);
    assert_eq!((core.tex_width, core.tex_height), (1, 1));
}

#[test]
fn start_uses_configured_or_blank() {
    let mut core = BrowserCore::new();
    core.initial_url = "https://example.com".to_string();
    assert_eq!(core.start_url(), Some("https://example.com/".to_string()));
    core.initial_url = "not a url".to_string();
    assert_eq!(core.start_url(), Some("about:blank".to_string()));
}

#[test]
fn mark_started_takes_initial_viewport() {
    let mut core = BrowserCore::new();
    assert_eq!(core.mark_started(), (800, 600));
    assert_eq!((INITIAL_VIEWPORT_WIDTH, INITIAL_VIEWPORT_HEIGHT), (800, 600));
    assert!(core.started);
    assert_eq!((core.tex_width, core.tex_height), (800, 600));
}

#[test]
fn frame_of_new_size_recreates_image() {
    let mut core = started();
    assert!(!core.accept_frame(800, 600));
    assert!(core.accept_frame(1024, 600));
    assert_eq!((core.tex_width, core.tex_height), (1024, 600));
    assert!(core.accept_frame(1024, 768));
    assert!(!core.accept_frame(1024, 768));
}

#[test]
fn read_back_size_keeps_bit_pattern() {
    assert_eq!(read_back_size(800, 600), (800, 600));
    assert_eq!(read_back_size(u32::MAX, 1), (-1, 1));
}

#[test]
fn load_url_parses_and_normalizes() {
    let core = started();
    assert_eq!(
        core.load_url("HTTPS://Example.com/a/../b"),
        Some(WebViewCommand::Load("https://example.com/b".to_string()))
    );
    assert_eq!(core.load_url("no scheme here"), None);
    assert_eq!(BrowserCore::new().load_url("https://example.com/"), None);
}

#[test]
fn load_command_needs_start_and_address() {
    let core = started();
    assert_eq!(core.load_command(Some("x:y".to_string())), Some(WebViewCommand::Load("x:y".to_string())));
    assert_eq!(core.load_command(None), None);
    assert_eq!(BrowserCore::new().load_command(Some("x:y".to_string())), None);
}

#[test]
fn commands_need_a_running_view() {
    let idle = BrowserCore::new();
    assert_eq!(idle.reload(), None);
    assert_eq!(idle.go_back(true), None);
    assert_eq!(idle.go_forward(true), None);
    assert_eq!(idle.resize(10, 10), None);
    assert_eq!(idle.evaluate_javascript("1".to_string()), None);
    assert_eq!(idle.focus(), None);
    assert_eq!(idle.blur(), None);
    assert_eq!(idle.send_mouse_click(0, true), None);
    assert_eq!(idle.send_key(65, true), None);
    assert!(idle.send_text("hi".to_string()).is_empty());
}

#[test]
fn navigation_commands() {
    let core = started();
    assert_eq!(core.reload(), Some(WebViewCommand::Reload));
    assert_eq!(core.go_back(true), Some(WebViewCommand::GoBack(1)));
    assert_eq!(core.go_back(false), None);
    assert_eq!(core.go_forward(true), Some(WebViewCommand::GoForward(1)));
    assert_eq!(core.go_forward(false), None);
    assert_eq!(core.focus(), Some(WebViewCommand::Focus));
    assert_eq!(core.blur(), Some(WebViewCommand::Blur));
    assert_eq!(
        core.evaluate_javascript("1 + 1".to_string()),
        Some(WebViewCommand::EvaluateJavascript("1 + 1".to_string()))
    );
}

#[test]
fn resize_raises_to_one_pixel() {
    let core = started();
    assert_eq!(core.resize(640, 480), Some(WebViewCommand::Resize { width: 640, height: 480 }));
    assert_eq!(core.resize(0, -5), Some(WebViewCommand::Resize { width: 1, height: 1 }));
    assert_eq!(clamp_dimension(i32::MIN), 1);
    assert_eq!(clamp_dimension(i32::MAX), i32::MAX as u32);
}

#[test]
fn mouse_buttons_by_index() {
    let core = started();
    assert_eq!(
        core.send_mouse_click(0, true),
        Some(WebViewCommand::MouseButton { button: MouseButton::Left, action: ButtonAction::Down })
    );
    assert_eq!(
        core.send_mouse_click(1, false),
        Some(WebViewCommand::MouseButton { button: MouseButton::Middle, action: ButtonAction::Up })
    );
    assert_eq!(
        core.send_mouse_click(2, true),
        Some(WebViewCommand::MouseButton { button: MouseButton::Right, action: ButtonAction::Down })
    );
    assert_eq!(core.send_mouse_click(3, true), None);
    assert_eq!(core.send_mouse_click(-1, true), None);
}

#[test]
fn keys_are_mapped_with_state() {
    let core = started();
    assert_eq!(
        core.send_key(65, true),
        Some(WebViewCommand::Key { key: MappedKey::Character('a'), state: KeyState::Down })
    );
    assert_eq!(
        core.send_key(4194305, false),
        Some(WebViewCommand::Key { key: MappedKey::Backspace, state: KeyState::Up })
    );
}

#[test]
fn text_is_composed_then_ended() {
    let core = started();
    assert_eq!(
        core.send_text("héllo".to_string()),
        vec![
            WebViewCommand::Ime { composition: CompositionState::Update, text: "héllo".to_string() },
            WebViewCommand::Ime { composition: CompositionState::End, text: "héllo".to_string() },
        ]
    );
}
