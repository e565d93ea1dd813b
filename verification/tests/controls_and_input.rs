use web_servo::controls::{color_channels, ControlReply};
use web_servo::input_map::{map_key, MappedKey};
use web_servo::shared::{PendingControl, SharedState};

fn with_control(control: PendingControl) -> SharedState {
    let mut state = SharedState::new();
    state.pending_control = Some(control);
    state
}

#[test]
fn alert_is_confirmed_and_taken() {
    let mut state = with_control(PendingControl::Alert);
    assert_eq!(state.respond_alert(), ControlReply::Confirm);
    assert_eq!(state.pending_control, None);
    assert_eq!(state.respond_alert(), ControlReply::Ignore);
}

#[test]
fn mismatched_answer_still_takes_control() {
    let mut state = with_control(PendingControl::Prompt);
    assert_eq!(state.respond_alert(), ControlReply::Ignore);
    assert_eq!(state.pending_control, None);
}

#[test]
fn confirm_accepts_or_dismisses() {
    let mut state = with_control(PendingControl::Confirm);
    assert_eq!(state.respond_confirm(true), ControlReply::Confirm);
    let mut state = with_control(PendingControl::Confirm);
    assert_eq!(state.respond_confirm(false), ControlReply::Dismiss);
}

#[test]
fn prompt_gets_value() {
    let mut state = with_control(PendingControl::Prompt);
    assert_eq!(
        state.respond_prompt("Ada".to_string(), true),
        ControlReply::AnswerPrompt { value: "Ada".to_string(), confirm: true }
    );
    let mut state = with_control(PendingControl::Prompt);
    assert_eq!(
        state.respond_prompt("x".to_string(), false),
        ControlReply::AnswerPrompt { value: "x".to_string(), confirm: false }
    );
}

#[test]
fn file_picker_submits_or_dismisses() {
    let mut state = with_control(PendingControl::FilePicker);
    assert_eq!(
        state.respond_file_picker(vec!["/tmp/a.png".to_string()]),
        ControlReply::SubmitFiles(vec!["/tmp/a.png".to_string()])
    );
    let mut state = with_control(PendingControl::FilePicker);
    assert_eq!(state.respond_file_picker_dismiss(), ControlReply::Dismiss);
    let mut state = with_control(PendingControl::Alert);
    assert_eq!(state.respond_file_picker_dismiss(), ControlReply::Ignore);
}

#[test]
fn select_negative_index_selects_none() {
    let mut state = with_control(PendingControl::SelectElement);
    assert_eq!(state.respond_select(2), ControlReply::SubmitSelection(Some(2)));
    let mut state = with_control(PendingControl::SelectElement);
    assert_eq!(state.respond_select(-1), ControlReply::SubmitSelection(None));
    let mut state = with_control(PendingControl::SelectElement);
    assert_eq!(state.respond_select(0), ControlReply::SubmitSelection(Some(0)));
}

#[test]
fn color_is_split_into_channels() {
    assert_eq!(color_channels(0x12_34_56), (0x12, 0x34, 0x56));
    assert_eq!(color_channels(0x7F_FF_00_80), (0xFF, 0x00, 0x80));
    assert_eq!(color_channels(-1), (0xFF, 0xFF, 0xFF));
    let mut state = with_control(PendingControl::ColorPicker);
    assert_eq!(
        state.respond_color_picker(0xFF8000),
        ControlReply::SubmitColor { red: 0xFF, green: 0x80, blue: 0x00 }
    );
}

#[test]
fn context_menu_selects_existing_item_only() {
    let mut state = with_control(PendingControl::ContextMenu(3));
    assert_eq!(state.respond_context_menu(2), ControlReply::SelectMenuItem(2));
    let mut state = with_control(PendingControl::ContextMenu(3));
    assert_eq!(state.respond_context_menu(3), ControlReply::Dismiss);
    let mut state = with_control(PendingControl::ContextMenu(3));
    assert_eq!(state.respond_context_menu(-1), ControlReply::Dismiss);
    let mut state = SharedState::new();
    assert_eq!(state.respond_context_menu(0), ControlReply::Ignore);
}

#[test]
fn letters_map_to_lower_case() {
    assert_eq!(map_key(65), MappedKey::Character('a'));
    assert_eq!(map_key(90), MappedKey::Character('z'));
    assert_eq!(map_key(77), MappedKey::Character('m'));
}

#[test]
fn digits_map_to_themselves() {
    assert_eq!(map_key(48), MappedKey::Character('0'));
    assert_eq!(map_key(57), MappedKey::Character('9'));
}

#[test]
fn named_keys_map() {
    assert_eq!(map_key(4194305), MappedKey::Backspace);
    assert_eq!(map_key(4194306), MappedKey::Tab);
    assert_eq!(map_key(4194307), MappedKey::Enter);
    assert_eq!(map_key(4194308), MappedKey::Shift);
    assert_eq!(map_key(4194309), MappedKey::Control);
    assert_eq!(map_key(4194310), MappedKey::Alt);
    assert_eq!(map_key(4194311), MappedKey::Escape);
    assert_eq!(map_key(4194318), MappedKey::ArrowLeft);
    assert_eq!(map_key(4194319), MappedKey::ArrowUp);
    assert_eq!(map_key(4194320), MappedKey::ArrowRight);
    assert_eq!(map_key(4194321), MappedKey::ArrowDown);
    assert_eq!(map_key(4194322), MappedKey::Home);
    assert_eq!(map_key(4194323), MappedKey::End);
    assert_eq!(map_key(4194324), MappedKey::PageUp);
    assert_eq!(map_key(4194325), MappedKey::PageDown);
    assert_eq!(map_key(4194337), MappedKey::Delete);
}

#[test]
fn unknown_codes_map_to_space() {
    assert_eq!(map_key(64), MappedKey::Character(' '));
    assert_eq!(map_key(91), MappedKey::Character(' '));
    assert_eq!(map_key(97), MappedKey::Character(' '));
    assert_eq!(map_key(4194312), MappedKey::Character(' '));
    assert_eq!(map_key(-1), MappedKey::Character(' '));
    assert_eq!(map_key(i32::MAX), MappedKey::Character(' '));
}
