//! The coordinator: it keeps exactly one window mode active, lets a hotkey
//! override whatever mode is current, and turns what a window hands back into
//! the one thing the outside world has to do next.

use crate::hotkeys::HotkeyEvent;
use crate::storage::file_ops::{
    models, saved_snippet, FileStorage, FileTimes, PendingSave, Snippet, StorageError,
};
use crate::storage::names::{file_name_of, is_fresh_id};
use crate::storage::order::is_newest_first;
use crate::ui::add_window::{AddWindowInput, AddWindowState};
use crate::ui::get_window::{GetWindowInput, GetWindowModel, GetWindowState};
use vstd::prelude::*;

verus! {

/// Which window, if any, is up.
#[derive(Debug, Clone, Copy, PartialEq, Eq, Structural)]
pub enum AppMode {
    /// No window is up.
    Hidden,
    /// The window for new text is up.
    AddingSnippet,
    /// The window for finding text is up.
    GettingSnippet,
}

impl Default for AppMode {
    /// No window is up to begin with.
    fn default() -> (mode: Self)
        ensures
            mode == AppMode::Hidden,
    {
        AppMode::Hidden
    }
}

/// What is left for the caller to do after a step of the coordinator.
#[derive(Debug, Clone)]
pub enum AppAction {
    /// Nothing.
    Nothing,
    /// Write the file of this save, then report back with `finish_save`.
    Save(PendingSave),
    /// Put this text on the clipboard.
    Copy(String),
}

/// What one frame brought from the window that was up.
#[derive(Debug, Clone)]
pub enum FrameInput {
    /// No window was drawn.
    Hidden,
    /// The window for new text was drawn.
    Adding(AddWindowInput),
    /// The window for finding text was drawn, with `query` in its query box.
    Getting { query: String, input: GetWindowInput },
}

/// The coordinator: the mode, the two windows, the snippets in the order in
/// which they are listed, and the store they come from.
pub struct TrinketApp {
    mode: AppMode,
    add_window: AddWindowState,
    get_window: GetWindowState,
    snippets: Vec<Snippet>,
    storage: FileStorage,
}

/// The coordinator as mathematical values.
pub struct TrinketModel {
    pub mode: AppMode,
    pub add_text: Seq<char>,
    pub get_window: GetWindowModel,
    pub snippets: Seq<Snippet>,
    pub storage: FileStorage,
}

impl TrinketModel {
    /// The coordinator after a hotkey event, or after none: `Add` brings up
    /// the window for new text, `Get` brings up a freshly opened window for
    /// finding text, whatever the mode was.
    pub open spec fn after_hotkey(self, event: Option<HotkeyEvent>) -> TrinketModel {
        match event {
            None => self,
            Some(HotkeyEvent::Add) => TrinketModel { mode: AppMode::AddingSnippet, ..self },
            Some(HotkeyEvent::Get) => TrinketModel {
                mode: AppMode::GettingSnippet,
                get_window: GetWindowModel::initial(),
                ..self
            },
        }
    }

    /// The coordinator after a frame of the window for new text. The frame
    /// counts only while that window is up; the mode falls back to `Hidden`
    /// when the frame ends the session.
    pub open spec fn after_add_frame(self, input: AddWindowInput) -> TrinketModel {
        if self.mode == AppMode::AddingSnippet {
            TrinketModel {
                mode: if input.ends_session() {
                    AppMode::Hidden
                } else {
                    AppMode::AddingSnippet
                },
                add_text: input.buffer_after(),
                ..self
            }
        } else {
            self
        }
    }

    /// A frame of the window for new text asks for a save.
    pub open spec fn add_frame_saves(self, input: AddWindowInput) -> bool {
        self.mode == AppMode::AddingSnippet && input.saves()
    }

    /// The coordinator after the first half of a frame of the window for
    /// finding text, which counts only while that window is up.
    pub open spec fn after_get_frame_begin(self, query: Seq<char>) -> TrinketModel {
        if self.mode == AppMode::GettingSnippet {
            TrinketModel { get_window: self.get_window.begun(query, self.snippets), ..self }
        } else {
            self
        }
    }

    /// What the second half of a frame of the window for finding text hands
    /// back, if that window is up.
    pub open spec fn get_frame_picked(self, input: GetWindowInput) -> Option<Seq<char>> {
        if self.mode == AppMode::GettingSnippet {
            self.get_window.picked(input, self.snippets)
        } else {
            None
        }
    }

    /// The coordinator after the second half of a frame of the window for
    /// finding text: the mode falls back to `Hidden` when the frame hands
    /// anything back.
    pub open spec fn after_get_frame_end(self, input: GetWindowInput) -> TrinketModel {
        if self.mode == AppMode::GettingSnippet {
            TrinketModel {
                mode: if self.get_frame_picked(input) is Some {
                    AppMode::Hidden
                } else {
                    AppMode::GettingSnippet
                },
                get_window: self.get_window.after_input(input, self.snippets),
                ..self
            }
        } else {
            self
        }
    }

    /// The coordinator once the window of the frame has had its input. Input
    /// from a window that is not up is ignored.
    pub open spec fn after_frame(self, frame: FrameInput) -> TrinketModel {
        match frame {
            FrameInput::Hidden => self,
            FrameInput::Adding(input) => self.after_add_frame(input),
            FrameInput::Getting { query, input } => self.after_get_frame_begin(
                query@,
            ).after_get_frame_end(input),
        }
    }

    /// The coordinator with `snippet` put first in its list.
    pub open spec fn with_saved(self, snippet: Snippet) -> TrinketModel {
        TrinketModel { snippets: seq![snippet] + self.snippets, ..self }
    }

    /// The highlight of the window for finding text is on its list, and every
    /// row of that list stands for a snippet of the coordinator's list.
    pub open spec fn well_formed(self) -> bool {
        &&& self.get_window.selection_in_range()
        &&& self.get_window.rows_are_below(self.snippets.len())
    }
}

/// A hotkey always wins over the current mode: after `Add` the window for new
/// text is up, after `Get` a freshly opened window for finding text is up, and
/// without an event nothing changes. The list of snippets is never touched.
pub proof fn lemma_hotkey_wins(app: TrinketModel, event: Option<HotkeyEvent>)
    ensures
        event == Some(HotkeyEvent::Add) ==> app.after_hotkey(event).mode == AppMode::AddingSnippet,
        event == Some(HotkeyEvent::Get) ==> app.after_hotkey(event).mode == AppMode::GettingSnippet
            && app.after_hotkey(event).get_window == GetWindowModel::initial(),
        event is None ==> app.after_hotkey(event) == app,
        app.after_hotkey(event).snippets == app.snippets,
        app.well_formed() ==> app.after_hotkey(event).well_formed(),
{
}

/// No window's input brings up a window: a frame leaves the mode as it is or
/// takes the window down, and while no window is up it changes nothing. Only
/// a hotkey leads out of `Hidden`.
pub proof fn lemma_only_hotkeys_open_windows(app: TrinketModel, frame: FrameInput)
    ensures
        app.after_frame(frame).mode == app.mode || app.after_frame(frame).mode == AppMode::Hidden,
        app.mode == AppMode::Hidden ==> app.after_frame(frame) == app,
        app.after_frame(frame).snippets == app.snippets,
{
}

/// A frame of the window for new text asks for a save only when saving was
/// asked for with text to save. A cancellation, be it a close or a save
/// without text, takes the window down and asks for nothing. No frame of this
/// window changes the list of snippets.
pub proof fn lemma_cancel_stores_nothing(app: TrinketModel, input: AddWindowInput)
    requires
        app.mode == AppMode::AddingSnippet,
    ensures
        app.add_frame_saves(input) <==> input.save_triggered && input.text@.len() > 0,
        input.ends_session() ==> app.after_add_frame(input).mode == AppMode::Hidden,
        !input.ends_session() ==> app.after_add_frame(input).mode == AppMode::AddingSnippet,
        app.after_add_frame(input).snippets == app.snippets,
        app.well_formed() ==> app.after_add_frame(input).well_formed(),
{
}

/// With no rows on screen, a click or enter in the window for finding text
/// does nothing at all: nothing is picked, nothing changes, and the window
/// stays up until escape takes it down, which picks the empty text.
pub proof fn lemma_select_on_empty_list_does_nothing(app: TrinketModel, input: GetWindowInput)
    requires
        app.mode == AppMode::GettingSnippet,
        app.well_formed(),
        app.get_window.filtered.len() == 0,
    ensures
        !input.escape ==> app.get_frame_picked(input) is None && app.after_get_frame_end(input)
            == app,
        input.escape ==> app.get_frame_picked(input) == Some(Seq::<char>::empty())
            && app.after_get_frame_end(input).mode == AppMode::Hidden,
        app.after_get_frame_end(input).mode == AppMode::Hidden <==> input.escape,
{
}

/// The two halves of a frame of the window for finding text keep the
/// coordinator well formed and leave the list of snippets alone.
pub proof fn lemma_get_frame_keeps_well_formed(
    app: TrinketModel,
    query: Seq<char>,
    input: GetWindowInput,
)
    requires
        app.well_formed(),
        app.snippets.len() <= usize::MAX,
    ensures
        app.after_get_frame_begin(query).well_formed(),
        app.after_get_frame_end(input).well_formed(),
        app.after_get_frame_begin(query).snippets == app.snippets,
        app.after_get_frame_end(input).snippets == app.snippets,
{
    crate::ui::get_window::lemma_refreshed_rows_are_positions(
        app.get_window,
        query,
        app.snippets,
    );
}

/// `snippet` was created no earlier than the first snippet of `list`, if
/// there is one.
pub open spec fn is_as_new_as_first(snippet: Snippet, list: Seq<Snippet>) -> bool {
    list.len() > 0 ==> snippet.created >= list[0].created
}

/// Putting a saved snippet first keeps the coordinator well formed. The list
/// stays newest first if the saved snippet is at least as new as the one that
/// was first.
pub proof fn lemma_saved_snippet_goes_first(app: TrinketModel, snippet: Snippet)
    requires
        app.well_formed(),
    ensures
        app.with_saved(snippet).well_formed(),
        app.with_saved(snippet).snippets.first() == snippet,
        is_newest_first(models(app.snippets)) && is_as_new_as_first(snippet, app.snippets)
            ==> is_newest_first(models(app.with_saved(snippet).snippets)),
{
    if is_newest_first(models(app.snippets)) && is_as_new_as_first(snippet, app.snippets) {
        let list = models(app.snippets);
        crate::storage::order::lemma_newer_snippet_goes_first(list, snippet@);
        assert(models(app.with_saved(snippet).snippets) =~= seq![snippet@] + list);
    }
}

impl AppAction {
    /// The action asks for nothing.
    pub open spec fn is_nothing(self) -> bool {
        self is Nothing
    }

    /// The action asks to store `text` under a freshly drawn identifier, in
    /// the file named after it.
    pub open spec fn saves(self, text: Seq<char>) -> bool {
        self matches AppAction::Save(pending) && pending.content@ == text && is_fresh_id(
            pending.id@,
        ) && pending.file_name@ == file_name_of(pending.id@)
    }

    /// The action asks to put `text` on the clipboard.
    pub open spec fn copies(self, text: Seq<char>) -> bool {
        self matches AppAction::Copy(copied) && copied@ == text
    }

    /// The action that follows from what the window for finding text handed
    /// back: text that is not empty goes to the clipboard, and a dismissal,
    /// which comes as the empty text, leaves nothing to do.
    pub open spec fn follows_pick(self, picked: Option<Seq<char>>) -> bool {
        match picked {
            Some(text) if text.len() > 0 => self.copies(text),
            _ => self.is_nothing(),
        }
    }
}

impl View for TrinketApp {
    type V = TrinketModel;

    closed spec fn view(&self) -> TrinketModel {
        TrinketModel {
            mode: self.mode,
            add_text: self.add_window@,
            get_window: self.get_window@,
            snippets: self.snippets@,
            storage: self.storage,
        }
    }
}

impl TrinketApp {
    /// A coordinator over `storage` with no window up, given what loading the
    /// stored snippets brought: a failed load starts with an empty list.
    pub fn new(storage: FileStorage, loaded: Result<Vec<Snippet>, StorageError>) -> (app: Self)
        ensures
            app@.mode == AppMode::Hidden,
            app@.add_text == Seq::<char>::empty(),
            app@.get_window == GetWindowModel::initial(),
            app@.storage == storage,
            loaded matches Ok(snippets) ==> app@.snippets == snippets@,
            loaded is Err ==> app@.snippets == Seq::<Snippet>::empty(),
            app@.well_formed(),
    {
        let snippets = match loaded {
            Ok(snippets) => snippets,
            Err(_) => Vec::new(),
        };
        Self {
            mode: AppMode::Hidden,
            add_window: AddWindowState::new(),
            get_window: GetWindowState::new(),
            snippets,
            storage,
        }
    }

    /// One tick: at most one hotkey event, then the input of the window that
    /// is up once the event has been honoured. A caller that has to draw the
    /// window before it knows the input goes through the same steps one by
    /// one: `handle_hotkey`, then `add_frame`, or `begin_get_frame` and
    /// `end_get_frame`.
    pub fn update(&mut self, event: Option<HotkeyEvent>, frame: FrameInput) -> (action: AppAction)
        ensures
            final(self)@ == old(self)@.after_hotkey(event).after_frame(frame),
            match frame {
                FrameInput::Hidden => action.is_nothing(),
                FrameInput::Adding(input) => if old(self)@.after_hotkey(event).add_frame_saves(
                    input,
                ) {
                    action.saves(input.text@)
                } else {
                    action.is_nothing()
                },
                FrameInput::Getting { query, input } => action.follows_pick(
                    old(self)@.after_hotkey(event).after_get_frame_begin(query@).get_frame_picked(
                        input,
                    ),
                ),
            },
            old(self)@.well_formed() ==> final(self)@.well_formed(),
    {
        self.handle_hotkey(event);
        match frame {
            FrameInput::Hidden => AppAction::Nothing,
            FrameInput::Adding(input) => self.add_frame(input),
            FrameInput::Getting { query, input } => {
                self.begin_get_frame(query.as_str());
                self.end_get_frame(&input)
            },
        }
    }

    /// Honours a hotkey event: it overrides the mode, and `Get` also resets
    /// the window for finding text.
    pub fn handle_hotkey(&mut self, event: Option<HotkeyEvent>)
        ensures
            final(self)@ == old(self)@.after_hotkey(event),
            event == Some(HotkeyEvent::Add) ==> final(self)@.mode == AppMode::AddingSnippet,
            event == Some(HotkeyEvent::Get) ==> final(self)@.mode == AppMode::GettingSnippet,
            old(self)@.well_formed() ==> final(self)@.well_formed(),
    {
        match event {
            None => {},
            Some(HotkeyEvent::Add) => {
                self.mode = AppMode::AddingSnippet;
            },
            Some(HotkeyEvent::Get) => {
                self.mode = AppMode::GettingSnippet;
                self.get_window.reset();
            },
        }
    }

    /// One frame of the window for new text. Text to be stored comes back as
    /// a save to carry out; a cancellation leaves nothing to do. Either way
    /// the window goes down.
    pub fn add_frame(&mut self, input: AddWindowInput) -> (action: AppAction)
        ensures
            final(self)@ == old(self)@.after_add_frame(input),
            if old(self)@.add_frame_saves(input) {
                action.saves(input.text@)
            } else {
                action.is_nothing()
            },
            old(self)@.well_formed() ==> final(self)@.well_formed(),
    {
        match self.mode {
            AppMode::AddingSnippet => {
                match self.add_window.show(input) {
                    Some(content) => {
                        self.mode = AppMode::Hidden;
                        if !content.as_str().is_empty() {
                            AppAction::Save(self.storage.prepare_save(content.as_str()))
                        } else {
                            AppAction::Nothing
                        }
                    },
                    None => AppAction::Nothing,
                }
            },
            _ => AppAction::Nothing,
        }
    }

    /// The first half of a frame of the window for finding text: takes over
    /// the query and computes the rows. Says whether the query box should be
    /// given the keyboard focus.
    pub fn begin_get_frame(&mut self, query: &str) -> (focus: bool)
        ensures
            final(self)@ == old(self)@.after_get_frame_begin(query@),
            focus == (old(self)@.mode == AppMode::GettingSnippet
                && old(self)@.get_window.first_frame),
            old(self)@.well_formed() ==> final(self)@.well_formed(),
    {
        match self.mode {
            AppMode::GettingSnippet => self.get_window.begin_frame(query, self.snippets.as_slice()),
            _ => false,
        }
    }

    /// The second half of a frame of the window for finding text. A picked
    /// text that is not empty goes to the clipboard; when anything is handed
    /// back, the window goes down.
    pub fn end_get_frame(&mut self, input: &GetWindowInput) -> (action: AppAction)
        ensures
            final(self)@ == old(self)@.after_get_frame_end(*input),
            action.follows_pick(old(self)@.get_frame_picked(*input)),
            old(self)@.well_formed() ==> final(self)@.well_formed(),
    {
        match self.mode {
            AppMode::GettingSnippet => {
                match self.get_window.handle_input(input, self.snippets.as_slice()) {
                    Some(content) => {
                        self.mode = AppMode::Hidden;
                        if !content.as_str().is_empty() {
                            AppAction::Copy(content)
                        } else {
                            AppAction::Nothing
                        }
                    },
                    None => AppAction::Nothing,
                }
            },
            _ => AppAction::Nothing,
        }
    }

    /// Takes in how the write of a save went. A snippet that reached the disk
    /// is put first in the list; a failed write leaves the list as it was and
    /// hands the error back. The mode is not touched.
    pub fn finish_save(
        &mut self,
        pending: PendingSave,
        written: Result<FileTimes, StorageError>,
    ) -> (outcome: Result<(), StorageError>)
        ensures
            written matches Err(e) ==> outcome == Err::<(), StorageError>(e) && final(self)@ == old(
                self,
            )@,
            written matches Ok(times) ==> outcome is Ok && final(self)@ == old(self)@.with_saved(
                final(self)@.snippets.first(),
            ) && final(self)@.snippets.first()@ == saved_snippet(pending, times),
            old(self)@.well_formed() ==> final(self)@.well_formed(),
    {
        match self.storage.save_snippet(pending, written) {
            Ok(snippet) => {
                let ghost first = snippet;
                self.snippets.insert(0, snippet);
                assert(self.snippets@ =~= seq![first] + old(self).snippets@);
                Ok(())
            },
            Err(e) => Err(e),
        }
    }

    /// Which window is up.
    pub fn mode(&self) -> (mode: AppMode)
        ensures
            mode == self@.mode,
    {
        self.mode
    }

    /// The snippets, in the order in which they are listed and searched.
    pub fn snippets(&self) -> (snippets: &Vec<Snippet>)
        ensures
            snippets@ == self@.snippets,
    {
        &self.snippets
    }

    /// The window for new text.
    pub fn add_window(&self) -> (window: &AddWindowState)
        ensures
            window@ == self@.add_text,
    {
        &self.add_window
    }

    /// The window for finding text.
    pub fn get_window(&self) -> (window: &GetWindowState)
        ensures
            window@ == self@.get_window,
    {
        &self.get_window
    }

    /// The store that the snippets come from and go to.
    pub fn storage(&self) -> (storage: &FileStorage)
        ensures
            *storage == self@.storage,
    {
        &self.storage
    }
}

} // verus!
