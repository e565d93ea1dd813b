use vstd::prelude::*;
use crate::shared::{PendingControl, SharedState};

verus! {

/// What the browser does with the control that waited for an answer.
#[derive(Debug, PartialEq, Eq)]
pub enum ControlReply {
    /// No control of the answered kind was pending: nothing is answered.
    Ignore,
    /// Confirm the dialog.
    Confirm,
    /// Dismiss the dialog, picker or menu.
    Dismiss,
    /// Set the prompt's value to `value`, then confirm it (or dismiss it).
    AnswerPrompt { value: String, confirm: bool },
    /// Select these paths in the file picker, then submit it.
    SubmitFiles(Vec<String>),
    /// Select this option (or none) of the select element, then submit it.
    SubmitSelection(Option<usize>),
    /// Select this color in the color picker, then submit it.
    SubmitColor { red: u8, green: u8, blue: u8 },
    /// Select the context menu's item at this index.
    SelectMenuItem(usize),
}

/// The red channel of a color packed as `0xRRGGBB`: bits 16 to 23 of its
/// 32-bit pattern.
pub open spec fn red_of(color: i32) -> int {
    ((color as u32) as int / 0x1_0000) % 0x100
}

/// The green channel of a color packed as `0xRRGGBB`: bits 8 to 15.
pub open spec fn green_of(color: i32) -> int {
    ((color as u32) as int / 0x100) % 0x100
}

/// The blue channel of a color packed as `0xRRGGBB`: bits 0 to 7.
pub open spec fn blue_of(color: i32) -> int {
    (color as u32) as int % 0x100
}

/// Splits a color packed as `0xRRGGBB` into its red, green and blue bytes;
/// the bits above the red byte are ignored.
pub fn color_channels(color: i32) -> (rgb: (u8, u8, u8))
    ensures
        rgb.0 as int == red_of(color),
        rgb.1 as int == green_of(color),
        rgb.2 as int == blue_of(color),
{
    let r: u8 = ((color >> 16u32) & 0xFF) as u8;
    let g: u8 = ((color >> 8u32) & 0xFF) as u8;
    let b: u8 = (color & 0xFF) as u8;
    assert(((color >> 16u32) & 0xFF) as u8 == (((color as u32) >> 16u32) & 0xFFu32) as u8) by (bit_vector);
    assert(((color >> 8u32) & 0xFF) as u8 == (((color as u32) >> 8u32) & 0xFFu32) as u8) by (bit_vector);
    assert((color & 0xFF) as u8 == ((color as u32) & 0xFFu32) as u8) by (bit_vector);
    let u: u32 = color as u32;
    assert((((u >> 16u32) & 0xFFu32) as u8) as u32 == (u / 0x1_0000u32) % 0x100u32) by (bit_vector);
    assert((((u >> 8u32) & 0xFFu32) as u8) as u32 == (u / 0x100u32) % 0x100u32) by (bit_vector);
    assert(((u & 0xFFu32) as u8) as u32 == u % 0x100u32) by (bit_vector);
    (r, g, b)
}

/// The option of a select element that an answered index picks: a
/// negative index picks none.
pub open spec fn selection_for(index: i32) -> Option<usize> {
    if index >= 0 {
        Some(index as usize)
    } else {
        None
    }
}

/// What a context menu with `item_count` items does with the answered
/// index: an index of an item selects it, any other index dismisses the
/// menu.
pub open spec fn menu_reply(item_count: usize, action_index: i32) -> ControlReply {
    if 0 <= action_index && action_index < item_count {
        ControlReply::SelectMenuItem(action_index as usize)
    } else {
        ControlReply::Dismiss
    }
}

impl SharedState {
    /// `self` is `old` with the pending control taken away.
    pub open spec fn is_old_without_control(self, old: SharedState) -> bool {
        &&& self.pending_control is None
        &&& self.events@ == old.events@
        &&& self.frame_ready == old.frame_ready
    }

    /// Takes the pending control, whatever its kind.
    pub fn take_pending_control(&mut self) -> (control: Option<PendingControl>)
        ensures
            control == old(self).pending_control,
            final(self).is_old_without_control(*old(self)),
    {
        let control = self.pending_control;
        self.pending_control = None;
        control
    }

    /// The user closed an alert: a pending alert is confirmed. The pending
    /// control is taken whatever its kind.
    pub fn respond_alert(&mut self) -> (reply: ControlReply)
        ensures
            final(self).is_old_without_control(*old(self)),
            reply == (if old(self).pending_control == Some(PendingControl::Alert) {
                ControlReply::Confirm
            } else {
                ControlReply::Ignore
            }),
    {
        match self.take_pending_control() {
            Some(PendingControl::Alert) => ControlReply::Confirm,
            _ => ControlReply::Ignore,
        }
    }

    /// The user answered a confirmation dialog: a pending one is confirmed
    /// when `accepted`, dismissed otherwise. The pending control is taken
    /// whatever its kind.
    pub fn respond_confirm(&mut self, accepted: bool) -> (reply: ControlReply)
        ensures
            final(self).is_old_without_control(*old(self)),
            reply == (if old(self).pending_control == Some(PendingControl::Confirm) {
                if accepted { ControlReply::Confirm } else { ControlReply::Dismiss }
            } else {
                ControlReply::Ignore
            }),
    {
        match self.take_pending_control() {
            Some(PendingControl::Confirm) => {
                if accepted {
                    ControlReply::Confirm
                } else {
                    ControlReply::Dismiss
                }
            },
            _ => ControlReply::Ignore,
        }
    }

    /// The user answered a prompt with `value`: a pending prompt gets the
    /// value, then is confirmed when `accepted`, dismissed otherwise. The
    /// pending control is taken whatever its kind.
    pub fn respond_prompt(&mut self, value: String, accepted: bool) -> (reply: ControlReply)
        ensures
            final(self).is_old_without_control(*old(self)),
            reply == (if old(self).pending_control == Some(PendingControl::Prompt) {
                ControlReply::AnswerPrompt { value, confirm: accepted }
            } else {
                ControlReply::Ignore
            }),
    {
        match self.take_pending_control() {
            Some(PendingControl::Prompt) => ControlReply::AnswerPrompt { value, confirm: accepted },
            _ => ControlReply::Ignore,
        }
    }

    /// The user chose `paths` in a file picker: a pending picker gets them
    /// and is submitted. The pending control is taken whatever its kind.
    pub fn respond_file_picker(&mut self, paths: Vec<String>) -> (reply: ControlReply)
        ensures
            final(self).is_old_without_control(*old(self)),
            reply == (if old(self).pending_control == Some(PendingControl::FilePicker) {
                ControlReply::SubmitFiles(paths)
            } else {
                ControlReply::Ignore
            }),
    {
        match self.take_pending_control() {
            Some(PendingControl::FilePicker) => ControlReply::SubmitFiles(paths),
            _ => ControlReply::Ignore,
        }
    }

    /// The user closed a file picker without choosing: a pending picker is
    /// dismissed. The pending control is taken whatever its kind.
    pub fn respond_file_picker_dismiss(&mut self) -> (reply: ControlReply)
        ensures
            final(self).is_old_without_control(*old(self)),
            reply == (if old(self).pending_control == Some(PendingControl::FilePicker) {
                ControlReply::Dismiss
            } else {
                ControlReply::Ignore
            }),
    {
        match self.take_pending_control() {
            Some(PendingControl::FilePicker) => ControlReply::Dismiss,
            _ => ControlReply::Ignore,
        }
    }

    /// The user picked the option at `index` of a select element (a negative
    /// index picks none): a pending select element gets the choice and is
    /// submitted. The pending control is taken whatever its kind.
    pub fn respond_select(&mut self, index: i32) -> (reply: ControlReply)
        ensures
            final(self).is_old_without_control(*old(self)),
            reply == (if old(self).pending_control == Some(PendingControl::SelectElement) {
                ControlReply::SubmitSelection(selection_for(index))
            } else {
                ControlReply::Ignore
            }),
            old(self).pending_control == Some(PendingControl::SelectElement) && index >= 0
                ==> reply == ControlReply::SubmitSelection(Some(index as usize)),
            old(self).pending_control == Some(PendingControl::SelectElement) && index < 0
                ==> reply == ControlReply::SubmitSelection(None),
    {
        match self.take_pending_control() {
            Some(PendingControl::SelectElement) => {
                if index >= 0 {
                    ControlReply::SubmitSelection(Some(index as usize))
                } else {
                    ControlReply::SubmitSelection(None)
                }
            },
            _ => ControlReply::Ignore,
        }
    }

    /// The user picked `color`, packed as `0xRRGGBB`: a pending color picker
    /// gets its channels and is submitted. The pending control is taken
    /// whatever its kind.
    pub fn respond_color_picker(&mut self, color: i32) -> (reply: ControlReply)
        ensures
            final(self).is_old_without_control(*old(self)),
            old(self).pending_control == Some(PendingControl::ColorPicker) ==> (reply matches
                ControlReply::SubmitColor { red, green, blue }
                && red as int == red_of(color)
                && green as int == green_of(color)
                && blue as int == blue_of(color)),
            old(self).pending_control != Some(PendingControl::ColorPicker) ==> reply == ControlReply::Ignore,
    {
        match self.take_pending_control() {
            Some(PendingControl::ColorPicker) => {
                let (red, green, blue) = color_channels(color);
                ControlReply::SubmitColor { red, green, blue }
            },
            _ => ControlReply::Ignore,
        }
    }

    /// The user picked the context menu's action at `action_index`: a
    /// pending menu selects that item when there is one, and is dismissed
    /// otherwise. The pending control is taken whatever its kind.
    pub fn respond_context_menu(&mut self, action_index: i32) -> (reply: ControlReply)
        ensures
            final(self).is_old_without_control(*old(self)),
            match old(self).pending_control {
                Some(PendingControl::ContextMenu(item_count)) => reply == menu_reply(item_count, action_index),
                _ => reply == ControlReply::Ignore,
            },
            old(self).pending_control matches Some(PendingControl::ContextMenu(n))
                && 0 <= action_index && action_index < n
                ==> reply == ControlReply::SelectMenuItem(action_index as usize),
            old(self).pending_control matches Some(PendingControl::ContextMenu(n))
                && (action_index < 0 || action_index >= n)
                ==> reply == ControlReply::Dismiss,
    {
        match self.take_pending_control() {
            Some(PendingControl::ContextMenu(item_count)) => {
                if action_index >= 0 {
                    let index = action_index as usize;
                    if index < item_count {
                        ControlReply::SelectMenuItem(index)
                    } else {
                        ControlReply::Dismiss
                    }
                } else {
                    ControlReply::Dismiss
                }
            },
            _ => ControlReply::Ignore,
        }
    }
}

/// Every non-negative index picks the option at that index, the first
/// (index 0) included; only a negative index picks none.
pub proof fn lemma_selection_picks_index(index: i32)
    ensures
        index >= 0 ==> selection_for(index) == Some(index as usize),
        index >= 0 ==> selection_for(index).unwrap() as int == index as int,
        index < 0 ==> selection_for(index) is None,
{
}

/// In a menu of `item_count` items, every index of an item (the first,
/// index 0, included) selects that very item; an index outside the menu
/// dismisses it.
pub proof fn lemma_menu_selects_existing_items(item_count: usize, action_index: i32)
    ensures
        0 <= action_index < item_count ==> menu_reply(item_count, action_index)
            == ControlReply::SelectMenuItem(action_index as usize),
        0 <= action_index < item_count ==> (menu_reply(item_count, action_index)
            matches ControlReply::SelectMenuItem(i) && i as int == action_index as int),
        (action_index < 0 || action_index >= item_count) ==> menu_reply(item_count, action_index)
            == ControlReply::Dismiss,
{
}

} // verus!
