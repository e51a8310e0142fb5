//! The window that takes the text of a new snippet. Drawing is left to the
//! caller; this module decides what each frame's input does to the window.

use crate::text::text_of;
use vstd::prelude::*;

verus! {

/// The window for new text: what its text box holds.
pub struct AddWindowState {
    text_buffer: String,
}

/// What the user did in one frame: the text box as it now reads, and whether
/// saving or closing was asked for.
#[derive(Debug, Clone)]
pub struct AddWindowInput {
    pub text: String,
    pub save_triggered: bool,
    pub close_triggered: bool,
}

impl AddWindowInput {
    /// The frame ends the session: saving or closing was asked for.
    pub open spec fn ends_session(self) -> bool {
        self.save_triggered || self.close_triggered
    }

    /// The frame asks for text to be stored: saving was asked for and there is
    /// text to save.
    pub open spec fn saves(self) -> bool {
        self.save_triggered && self.text@.len() > 0
    }

    /// What the frame hands back: the text when it is to be stored, the empty
    /// text when the session ends without storing, which stands for a
    /// cancellation, and nothing while the user is still writing.
    pub open spec fn entered(self) -> Option<Seq<char>> {
        if self.saves() {
            Some(self.text@)
        } else if self.ends_session() {
            Some(Seq::empty())
        } else {
            None
        }
    }

    /// What the text box holds after the frame: nothing once the session has
    /// ended, and otherwise what the user has written so far.
    pub open spec fn buffer_after(self) -> Seq<char> {
        if self.ends_session() {
            Seq::empty()
        } else {
            self.text@
        }
    }
}

impl View for AddWindowState {
    type V = Seq<char>;

    /// The text in the text box.
    closed spec fn view(&self) -> Seq<char> {
        self.text_buffer@
    }
}

impl AddWindowState {
    /// A window with an empty text box.
    pub fn new() -> (state: Self)
        ensures
            state@ == Seq::<char>::empty(),
    {
        Self { text_buffer: String::new() }
    }

    /// One frame of the window: hands back the text to store, or the empty
    /// text for a cancellation, or nothing while the user is still writing.
    pub fn show(&mut self, input: AddWindowInput) -> (entered: Option<String>)
        ensures
            text_of(entered) == input.entered(),
            final(self)@ == input.buffer_after(),
    {
        if input.save_triggered && !input.text.as_str().is_empty() {
            self.text_buffer = String::new();
            Some(input.text)
        } else if input.save_triggered || input.close_triggered {
            self.text_buffer = String::new();
            Some(String::new())
        } else {
            self.text_buffer = input.text;
            None
        }
    }

    /// The text in the text box.
    pub fn text_buffer(&self) -> (text: &str)
        ensures
            text@ == self@,
    {
        self.text_buffer.as_str()
    }
}

impl Default for AddWindowState {
    /// A window with an empty text box.
    fn default() -> (state: Self)
        ensures
            state@ == Seq::<char>::empty(),
    {
        Self::new()
    }
}

} // verus!
