//! The floating dialogs over the terminal. Only one is shown at a time: opening one closes the
//! rest, so the window holds at most one open dialog.
use vstd::prelude::*;
use crate::keybind::Dialog;
use crate::toggles::InputFocus;

verus! {

/// The dialog shown, if any, and where input goes.
#[derive(Clone, Copy, Debug, PartialEq, Eq, Structural)]
pub struct Overlays {
    pub open: Option<Dialog>,
    pub focus: InputFocus,
}

impl Overlays {
    /// Opens `dialog`, closing whichever was open, and sends input to it.
    pub fn open_dialog(&mut self, dialog: Dialog)
        ensures
            final(self).open == Some(dialog),
            final(self).focus == InputFocus::Picker,
    {
        self.close_all();
        self.open = Some(dialog);
        self.focus = InputFocus::Picker;
    }

    /// Closes whichever dialog is open; reports whether one was.
    pub fn close_all(&mut self) -> (r: bool)
        ensures
            r == old(self).open is Some,
            final(self).open is None,
            final(self).focus == old(self).focus,
    {
        let was_open = self.open.is_some();
        self.open = None;
        was_open
    }

    /// The session picker's binding: closes the picker when it is open, sending input back to
    /// the terminal; otherwise opens it.
    pub fn toggle_session_picker(&mut self)
        ensures
            old(self).open == Some(Dialog::SessionPicker) ==> final(self).open is None
                && final(self).focus == InputFocus::Terminal,
            old(self).open != Some(Dialog::SessionPicker) ==> final(self).open == Some(
                Dialog::SessionPicker,
            ) && final(self).focus == InputFocus::Picker,
    {
        if self.open == Some(Dialog::SessionPicker) {
            self.open = None;
            self.focus = InputFocus::Terminal;
        } else {
            self.open_dialog(Dialog::SessionPicker);
        }
    }
}

} // verus!
