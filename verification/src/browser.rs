use vstd::prelude::*;
use crate::input_map::{key_for_code, map_key, MappedKey};

verus! {

/// The text of the address that the URL parser makes of `input` (its
/// serialization), or none where the parser refuses `input`.
pub uninterp spec fn parsed_url(input: Seq<char>) -> Option<Seq<char>>;

/// Parses `input` with `url::Url::parse` and gives back the parsed
/// address's serialization (`String::from` of the `Url`), or `None` where
/// the parser returns an error. Trusted: the result is `parsed_url` of the
/// input, which holds because the parser's result depends on its input
/// alone; what the parser accepts and how it normalizes is not stated.
#[verifier::external_body]
fn parse_url(input: &str) -> (parsed: Option<String>)
    ensures
        match parsed {
            Some(text) => parsed_url(input@) == Some(text@),
            None => parsed_url(input@) is None,
        },
{
    match url::Url::parse(input) {
        Ok(parsed) => Some(String::from(parsed)),
        Err(_) => None,
    }
}

/// The address loaded when the configured one is refused.
pub open spec fn blank_page() -> Seq<char> {
    "about:blank"@
}

/// Width of the viewport that the browser starts with.
pub const INITIAL_VIEWPORT_WIDTH: u32 = 800;

/// Height of the viewport that the browser starts with.
pub const INITIAL_VIEWPORT_HEIGHT: u32 = 600;

/// A mouse button that the page receives.
#[derive(Debug, Clone, Copy, PartialEq, Eq, Structural)]
pub enum MouseButton {
    Left,
    Middle,
    Right,
}

/// Whether a mouse button goes down or up.
#[derive(Debug, Clone, Copy, PartialEq, Eq, Structural)]
pub enum ButtonAction {
    Down,
    Up,
}

/// Whether a key goes down or up.
#[derive(Debug, Clone, Copy, PartialEq, Eq, Structural)]
pub enum KeyState {
    Down,
    Up,
}

/// The stage of an input-method composition.
#[derive(Debug, Clone, Copy, PartialEq, Eq, Structural)]
pub enum CompositionState {
    Update,
    End,
}

/// What the browser node asks of its web view.
#[derive(Debug, PartialEq, Eq)]
pub enum WebViewCommand {
    /// Load the page at this (parsed) address.
    Load(String),
    Reload,
    /// Go back this many steps in the session history.
    GoBack(usize),
    /// Go forward this many steps in the session history.
    GoForward(usize),
    /// Resize the rendering context and the web view to this many pixels.
    Resize { width: u32, height: u32 },
    /// Run this script in the page; its result is only logged.
    EvaluateJavascript(String),
    Focus,
    Blur,
    /// Press or release a mouse button at the pointer's position.
    MouseButton { button: MouseButton, action: ButtonAction },
    /// Press or release a key.
    Key { key: MappedKey, state: KeyState },
    /// An input-method composition step carrying this text.
    Ime { composition: CompositionState, text: String },
}

/// The mouse button that an engine button index stands for: 0 the left,
/// 1 the middle, 2 the right button; no other index stands for a button.
pub open spec fn button_for_index(index: i32) -> Option<MouseButton> {
    if index == 0 {
        Some(MouseButton::Left)
    } else if index == 1 {
        Some(MouseButton::Middle)
    } else if index == 2 {
        Some(MouseButton::Right)
    } else {
        None
    }
}

/// A requested viewport dimension, raised to at least one pixel.
pub open spec fn viewport_dimension(requested: i32) -> u32 {
    if requested < 1 {
        1
    } else {
        requested as u32
    }
}

/// Raises a requested viewport dimension to at least one pixel.
pub fn clamp_dimension(requested: i32) -> (dimension: u32)
    ensures
        dimension == viewport_dimension(requested),
        dimension >= 1,
{
    if requested < 1 {
        1
    } else {
        requested as u32
    }
}

/// The size of the rectangle read back from a rendering context of
/// `width` by `height` pixels, in the signed coordinates of the read-back
/// call (the 32-bit patterns of the sizes).
pub fn read_back_size(width: u32, height: u32) -> (size: (i32, i32))
    ensures
        size.0 == width as i32,
        size.1 == height as i32,
{
    (width as i32, height as i32)
}

/// The decisions of the browser node: its configured start address,
/// whether its web view runs, and the size of the texture that shows it.
pub struct BrowserCore {
    pub initial_url: String,
    pub started: bool,
    pub tex_width: u32,
    pub tex_height: u32,
}

impl BrowserCore {
    /// A browser node not yet started, configured to start at
    /// `about:blank`, showing a one-pixel texture.
    pub fn new() -> (core: BrowserCore)
        ensures
            core.initial_url@ == blank_page(),
            !core.started,
            core.tex_width == 1,
            core.tex_height == 1,
    {
        BrowserCore {
            initial_url: "about:blank".to_owned(),
            started: false,
            tex_width: 1,
            tex_height: 1,
        }
    }

    /// The address to start at: the configured one where the URL parser
    /// accepts it, `about:blank` otherwise; `None` only where the parser
    /// refuses `about:blank` too.
    pub fn start_url(&self) -> (url: Option<String>)
        ensures
            match url {
                Some(u) => {
                    ||| parsed_url(self.initial_url@) == Some(u@)
                    ||| (parsed_url(self.initial_url@) is None && parsed_url(blank_page()) == Some(u@))
                },
                None => parsed_url(self.initial_url@) is None && parsed_url(blank_page()) is None,
            },
    {
        match parse_url(self.initial_url.as_str()) {
            Some(u) => Some(u),
            None => parse_url("about:blank"),
        }
    }

    /// The web view runs: the texture takes the initial viewport's size,
    /// which is given back.
    pub fn mark_started(&mut self) -> (viewport: (u32, u32))
        ensures
            final(self).started,
            final(self).initial_url == old(self).initial_url,
            viewport == (INITIAL_VIEWPORT_WIDTH, INITIAL_VIEWPORT_HEIGHT),
            final(self).tex_width == INITIAL_VIEWPORT_WIDTH,
            final(self).tex_height == INITIAL_VIEWPORT_HEIGHT,
    {
        self.started = true;
        self.tex_width = INITIAL_VIEWPORT_WIDTH;
        self.tex_height = INITIAL_VIEWPORT_HEIGHT;
        (INITIAL_VIEWPORT_WIDTH, INITIAL_VIEWPORT_HEIGHT)
    }

    /// A frame of `width` by `height` pixels was read back: the texture
    /// takes that size, and the answer says whether its image must be
    /// created anew (the size changed).
    pub fn accept_frame(&mut self, width: u32, height: u32) -> (recreate: bool)
        ensures
            recreate == (width != old(self).tex_width || height != old(self).tex_height),
            final(self).tex_width == width,
            final(self).tex_height == height,
            final(self).started == old(self).started,
            final(self).initial_url == old(self).initial_url,
    {
        let recreate = width != self.tex_width || height != self.tex_height;
        self.tex_width = width;
        self.tex_height = height;
        recreate
    }

    /// Load the page at `url` where the web view runs and the URL parser
    /// accepts `url`.
    pub fn load_url(&self, url: &str) -> (command: Option<WebViewCommand>)
        ensures
            match command {
                Some(c) => self.started && (c matches WebViewCommand::Load(u)
                    && parsed_url(url@) == Some(u@)),
                None => !self.started || parsed_url(url@) is None,
            },
    {
        let parsed = parse_url(url);
        self.load_command(parsed)
    }

    /// Load the page at the parsed address `parsed`, where the web view runs
    /// and the address was accepted (`parsed` is `Some`).
    pub fn load_command(&self, parsed: Option<String>) -> (command: Option<WebViewCommand>)
        ensures
            command == (if self.started && parsed is Some {
                Some(WebViewCommand::Load(parsed->0))
            } else {
                None
            }),
    {
        if self.started {
            match parsed {
                Some(u) => Some(WebViewCommand::Load(u)),
                None => None,
            }
        } else {
            None
        }
    }

    /// Reload the page, where the web view runs.
    pub fn reload(&self) -> (command: Option<WebViewCommand>)
        ensures
            command == (if self.started { Some(WebViewCommand::Reload) } else { None }),
    {
        if self.started {
            Some(WebViewCommand::Reload)
        } else {
            None
        }
    }

    /// Go back one step, where the web view runs and its history allows it.
    pub fn go_back(&self, can_go_back: bool) -> (command: Option<WebViewCommand>)
        ensures
            command == (if self.started && can_go_back { Some(WebViewCommand::GoBack(1)) } else { None }),
    {
        if self.started && can_go_back {
            Some(WebViewCommand::GoBack(1))
        } else {
            None
        }
    }

    /// Go forward one step, where the web view runs and its history allows
    /// it.
    pub fn go_forward(&self, can_go_forward: bool) -> (command: Option<WebViewCommand>)
        ensures
            command == (if self.started && can_go_forward {
                Some(WebViewCommand::GoForward(1))
            } else {
                None
            }),
    {
        if self.started && can_go_forward {
            Some(WebViewCommand::GoForward(1))
        } else {
            None
        }
    }

    /// Resize the viewport to the requested size, each dimension raised to
    /// at least one pixel, where the web view runs.
    pub fn resize(&self, width: i32, height: i32) -> (command: Option<WebViewCommand>)
        ensures
            command == (if self.started {
                Some(WebViewCommand::Resize {
                    width: viewport_dimension(width),
                    height: viewport_dimension(height),
                })
            } else {
                None
            }),
    {
        let w = clamp_dimension(width);
        let h = clamp_dimension(height);
        if self.started {
            Some(WebViewCommand::Resize { width: w, height: h })
        } else {
            None
        }
    }

    /// Run `script` in the page, where the web view runs.
    pub fn evaluate_javascript(&self, script: String) -> (command: Option<WebViewCommand>)
        ensures
            command == (if self.started { Some(WebViewCommand::EvaluateJavascript(script)) } else { None }),
    {
        if self.started {
            Some(WebViewCommand::EvaluateJavascript(script))
        } else {
            None
        }
    }

    /// Give the page the focus, where the web view runs.
    pub fn focus(&self) -> (command: Option<WebViewCommand>)
        ensures
            command == (if self.started { Some(WebViewCommand::Focus) } else { None }),
    {
        if self.started {
            Some(WebViewCommand::Focus)
        } else {
            None
        }
    }

    /// Take the focus from the page, where the web view runs.
    pub fn blur(&self) -> (command: Option<WebViewCommand>)
        ensures
            command == (if self.started { Some(WebViewCommand::Blur) } else { None }),
    {
        if self.started {
            Some(WebViewCommand::Blur)
        } else {
            None
        }
    }

    /// Press (`pressed`) or release the mouse button with engine index
    /// `button`, where the web view runs and the index stands for a button.
    pub fn send_mouse_click(&self, button: i32, pressed: bool) -> (command: Option<WebViewCommand>)
        ensures
            command == (if self.started && button_for_index(button) is Some {
                Some(WebViewCommand::MouseButton {
                    button: button_for_index(button)->0,
                    action: if pressed { ButtonAction::Down } else { ButtonAction::Up },
                })
            } else {
                None
            }),
    {
        if !self.started {
            return None;
        }
        let b = if button == 0 {
            MouseButton::Left
        } else if button == 1 {
            MouseButton::Middle
        } else if button == 2 {
            MouseButton::Right
        } else {
            return None;
        };
        let action = if pressed {
            ButtonAction::Down
        } else {
            ButtonAction::Up
        };
        Some(WebViewCommand::MouseButton { button: b, action })
    }

    /// Press (`pressed`) or release the key with engine code `keycode`,
    /// where the web view runs.
    pub fn send_key(&self, keycode: i32, pressed: bool) -> (command: Option<WebViewCommand>)
        ensures
            command == (if self.started {
                Some(WebViewCommand::Key {
                    key: key_for_code(keycode),
                    state: if pressed { KeyState::Down } else { KeyState::Up },
                })
            } else {
                None
            }),
    {
        if self.started {
            let key = map_key(keycode);
            let state = if pressed {
                KeyState::Down
            } else {
                KeyState::Up
            };
            Some(WebViewCommand::Key { key, state })
        } else {
            None
        }
    }

    /// Enter `text` through the input method, where the web view runs: a
    /// composition update carrying the text, then the composition's end
    /// carrying it again.
    pub fn send_text(&self, text: String) -> (commands: Vec<WebViewCommand>)
        ensures
            self.started ==> commands@ == seq![
                WebViewCommand::Ime { composition: CompositionState::Update, text },
                WebViewCommand::Ime { composition: CompositionState::End, text },
            ],
            !self.started ==> commands@ == Seq::<WebViewCommand>::empty(),
    {
        let mut commands: Vec<WebViewCommand> = Vec::new();
        if self.started {
            let update_text = text.clone();
            commands.push(WebViewCommand::Ime { composition: CompositionState::Update, text: update_text });
            commands.push(WebViewCommand::Ime { composition: CompositionState::End, text });
        }
        commands
    }
}

/// Button index 0 is the left button, 1 the middle one, 2 the right one,
/// and every other index, negative ones included, stands for no button.
pub proof fn lemma_button_indices(index: i32)
    ensures
        button_for_index(0) == Some(MouseButton::Left),
        button_for_index(1) == Some(MouseButton::Middle),
        button_for_index(2) == Some(MouseButton::Right),
        (index < 0 || index > 2) ==> button_for_index(index) is None,
{
}

/// A viewport dimension is never below one pixel, and a requested size of
/// at least one pixel is kept as it is.
pub proof fn lemma_viewport_dimension(requested: i32)
    ensures
        viewport_dimension(requested) >= 1,
        requested >= 1 ==> viewport_dimension(requested) as int == requested as int,
        requested < 1 ==> viewport_dimension(requested) == 1,
{
}

/// The page loaded when the configured address is refused is
/// `about:blank`.
pub proof fn lemma_blank_page()
    ensures
        blank_page() == "about:blank"@,
{
}

} // verus!
