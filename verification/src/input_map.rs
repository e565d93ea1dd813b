use vstd::prelude::*;

verus! {

/// A key as the browser engine receives it: a printable character, or one
/// of the named keys that the engine's key codes translate to.
#[derive(Debug, Clone, Copy, PartialEq, Eq, Structural)]
pub enum MappedKey {
    Character(char),
    Backspace,
    Tab,
    Enter,
    Shift,
    Control,
    Alt,
    Escape,
    ArrowLeft,
    ArrowUp,
    ArrowRight,
    ArrowDown,
    Home,
    End,
    PageUp,
    PageDown,
    Delete,
}

/// Engine key code of the Backspace key; the named keys follow it.
pub const KEY_BACKSPACE: i32 = 4194305;
pub const KEY_TAB: i32 = 4194306;
pub const KEY_ENTER: i32 = 4194307;
pub const KEY_SHIFT: i32 = 4194308;
pub const KEY_CONTROL: i32 = 4194309;
pub const KEY_ALT: i32 = 4194310;
pub const KEY_ESCAPE: i32 = 4194311;
pub const KEY_LEFT: i32 = 4194318;
pub const KEY_UP: i32 = 4194319;
pub const KEY_RIGHT: i32 = 4194320;
pub const KEY_DOWN: i32 = 4194321;
pub const KEY_HOME: i32 = 4194322;
pub const KEY_END: i32 = 4194323;
pub const KEY_PAGE_UP: i32 = 4194324;
pub const KEY_PAGE_DOWN: i32 = 4194325;
pub const KEY_DELETE: i32 = 4194337;

/// The key that an engine key code stands for: the codes of `A`..`Z`
/// give the lower-case letter, the codes of `0`..`9` give the digit, the
/// named codes give their key, and every other code gives a space.
pub open spec fn key_for_code(code: i32) -> MappedKey {
    if 65 <= code <= 90 {
        MappedKey::Character((code + 32) as char)
    } else if 48 <= code <= 57 {
        MappedKey::Character(code as char)
    } else if code == KEY_BACKSPACE {
        MappedKey::Backspace
    } else if code == KEY_TAB {
        MappedKey::Tab
    } else if code == KEY_ENTER {
        MappedKey::Enter
    } else if code == KEY_SHIFT {
        MappedKey::Shift
    } else if code == KEY_CONTROL {
        MappedKey::Control
    } else if code == KEY_ALT {
        MappedKey::Alt
    } else if code == KEY_ESCAPE {
        MappedKey::Escape
    } else if code == KEY_LEFT {
        MappedKey::ArrowLeft
    } else if code == KEY_UP {
        MappedKey::ArrowUp
    } else if code == KEY_RIGHT {
        MappedKey::ArrowRight
    } else if code == KEY_DOWN {
        MappedKey::ArrowDown
    } else if code == KEY_HOME {
        MappedKey::Home
    } else if code == KEY_END {
        MappedKey::End
    } else if code == KEY_PAGE_UP {
        MappedKey::PageUp
    } else if code == KEY_PAGE_DOWN {
        MappedKey::PageDown
    } else if code == KEY_DELETE {
        MappedKey::Delete
    } else {
        MappedKey::Character(' ')
    }
}

/// Whether `code` is none of the codes that stand for a key: not the code
/// of a letter `A`..`Z`, of a digit `0`..`9`, nor of a named key.
pub open spec fn is_unmapped_code(code: i32) -> bool {
    &&& !(48 <= code <= 57)
    &&& !(65 <= code <= 90)
    &&& code != KEY_BACKSPACE
    &&& code != KEY_TAB
    &&& code != KEY_ENTER
    &&& code != KEY_SHIFT
    &&& code != KEY_CONTROL
    &&& code != KEY_ALT
    &&& code != KEY_ESCAPE
    &&& code != KEY_LEFT
    &&& code != KEY_UP
    &&& code != KEY_RIGHT
    &&& code != KEY_DOWN
    &&& code != KEY_HOME
    &&& code != KEY_END
    &&& code != KEY_PAGE_UP
    &&& code != KEY_PAGE_DOWN
    &&& code != KEY_DELETE
}

/// Translates an engine key code into the key the browser receives.
pub fn map_key(code: i32) -> (key: MappedKey)
    ensures
        key == key_for_code(code),
        65 <= code <= 90 ==> key == MappedKey::Character((code + 32) as char),
        48 <= code <= 57 ==> key == MappedKey::Character(code as char),
        is_unmapped_code(code) ==> key == MappedKey::Character(' '),
{
    if 65 <= code && code <= 90 {
        let byte: u8 = (code + 32) as u8;
        MappedKey::Character(byte as char)
    } else if 48 <= code && code <= 57 {
        let byte: u8 = code as u8;
        MappedKey::Character(byte as char)
    } else if code == KEY_BACKSPACE {
        MappedKey::Backspace
    } else if code == KEY_TAB {
        MappedKey::Tab
    } else if code == KEY_ENTER {
        MappedKey::Enter
    } else if code == KEY_SHIFT {
        MappedKey::Shift
    } else if code == KEY_CONTROL {
        MappedKey::Control
    } else if code == KEY_ALT {
        MappedKey::Alt
    } else if code == KEY_ESCAPE {
        MappedKey::Escape
    } else if code == KEY_LEFT {
        MappedKey::ArrowLeft
    } else if code == KEY_UP {
        MappedKey::ArrowUp
    } else if code == KEY_RIGHT {
        MappedKey::ArrowRight
    } else if code == KEY_DOWN {
        MappedKey::ArrowDown
    } else if code == KEY_HOME {
        MappedKey::Home
    } else if code == KEY_END {
        MappedKey::End
    } else if code == KEY_PAGE_UP {
        MappedKey::PageUp
    } else if code == KEY_PAGE_DOWN {
        MappedKey::PageDown
    } else if code == KEY_DELETE {
        MappedKey::Delete
    } else {
        MappedKey::Character(' ')
    }
}

/// Every code that stands for no key (the space bar's code 32 among them)
/// gives a space character.
pub proof fn lemma_unmapped_codes_give_space(code: i32)
    requires
        is_unmapped_code(code),
    ensures
        key_for_code(code) == MappedKey::Character(' '),
{
}

/// A letter code gives the lower-case letter 32 code points above it, a
/// digit code gives the digit itself; both are characters, never a space.
pub proof fn lemma_letters_and_digits(code: i32)
    requires
        48 <= code <= 57 || 65 <= code <= 90,
    ensures
        key_for_code(code) matches MappedKey::Character(c) && c != ' '
            && (65 <= code <= 90 ==> c as int == code + 32 && 'a' <= c <= 'z')
            && (48 <= code <= 57 ==> c as int == code && '0' <= c <= '9'),
{
}

/// Each named key's code gives that key.
pub proof fn lemma_named_codes()
    ensures
        key_for_code(KEY_BACKSPACE) == MappedKey::Backspace,
        key_for_code(KEY_TAB) == MappedKey::Tab,
        key_for_code(KEY_ENTER) == MappedKey::Enter,
        key_for_code(KEY_SHIFT) == MappedKey::Shift,
        key_for_code(KEY_CONTROL) == MappedKey::Control,
        key_for_code(KEY_ALT) == MappedKey::Alt,
        key_for_code(KEY_ESCAPE) == MappedKey::Escape,
        key_for_code(KEY_LEFT) == MappedKey::ArrowLeft,
        key_for_code(KEY_UP) == MappedKey::ArrowUp,
        key_for_code(KEY_RIGHT) == MappedKey::ArrowRight,
        key_for_code(KEY_DOWN) == MappedKey::ArrowDown,
        key_for_code(KEY_HOME) == MappedKey::Home,
        key_for_code(KEY_END) == MappedKey::End,
        key_for_code(KEY_PAGE_UP) == MappedKey::PageUp,
        key_for_code(KEY_PAGE_DOWN) == MappedKey::PageDown,
        key_for_code(KEY_DELETE) == MappedKey::Delete,
{
}

} // verus!
