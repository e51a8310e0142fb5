//! The window that filters the stored snippets by a query and lets the user
//! pick one. Drawing is left to the caller; this module decides what each
//! frame's input does to the window.

use crate::storage::file_ops::Snippet;
use crate::storage::indexer::{lemma_search_results_are_the_hits, search_results, SearchIndex};
use crate::text::text_of;
use vstd::prelude::*;

verus! {

/// The window for finding text: what is typed into its query box, which
/// snippets its rows stand for, which row is highlighted, and whether the
/// query box still waits for the keyboard focus.
pub struct GetWindowState {
    search_query: String,
    filtered_indices: Vec<usize>,
    selected_index: usize,
    first_frame: bool,
}

/// What the user did in one frame once the rows were on screen.
///
/// `clicked_row` counts rows of the list as drawn, not snippets.
#[derive(Debug, Clone, Copy)]
pub struct GetWindowInput {
    pub clicked_row: Option<usize>,
    pub arrow_up: bool,
    pub arrow_down: bool,
    pub enter: bool,
    pub escape: bool,
}

/// The window as mathematical values: the query, the snippet positions that
/// the rows stand for, the highlighted row, and whether the query box still
/// waits for the keyboard focus.
pub struct GetWindowModel {
    pub query: Seq<char>,
    pub filtered: Seq<usize>,
    pub selected: usize,
    pub first_frame: bool,
}

impl GetWindowModel {
    /// A freshly opened window: nothing typed, nothing listed, focus wanted.
    pub open spec fn initial() -> GetWindowModel {
        GetWindowModel {
            query: Seq::empty(),
            filtered: Seq::empty(),
            selected: 0,
            first_frame: true,
        }
    }

    /// The highlighted row is a row of the list, or row 0 of an empty list.
    pub open spec fn selection_in_range(self) -> bool {
        self.selected == 0 || self.selected < self.filtered.len()
    }

    /// Every row stands for one of the first `count` snippets.
    pub open spec fn rows_are_below(self, count: nat) -> bool {
        forall|row: int| 0 <= row < self.filtered.len() ==> self.filtered[row] < count
    }

    /// The largest row that may be highlighted in a list of `rows` rows.
    pub open spec fn last_row(rows: nat) -> nat {
        if rows == 0 {
            0
        } else {
            (rows - 1) as nat
        }
    }

    /// The window after its rows were computed anew from `snippets`: the rows
    /// are the hits for the query, and a highlight that fell off the end moves
    /// to the last row.
    pub open spec fn refreshed(self, snippets: Seq<Snippet>) -> GetWindowModel {
        let filtered = search_results(self.query, snippets);
        GetWindowModel {
            filtered,
            selected: if self.selected >= filtered.len() {
                Self::last_row(filtered.len()) as usize
            } else {
                self.selected
            },
            ..self
        }
    }

    /// The window at the start of a frame in which the query box reads
    /// `query`.
    pub open spec fn begun(self, query: Seq<char>, snippets: Seq<Snippet>) -> GetWindowModel {
        GetWindowModel { query, first_frame: false, ..self }.refreshed(snippets)
    }

    /// Row `row` is on screen and stands for a snippet of `snippets`.
    pub open spec fn row_is_live(self, row: usize, snippets: Seq<Snippet>) -> bool {
        row < self.filtered.len() && self.filtered[row as int] < snippets.len()
    }

    /// The text of the snippet behind a live row.
    pub open spec fn row_content(self, row: usize, snippets: Seq<Snippet>) -> Seq<char> {
        snippets[self.filtered[row as int] as int].content@
    }

    /// The click of this frame landed on a live row.
    pub open spec fn click_lands(self, input: GetWindowInput, snippets: Seq<Snippet>) -> bool {
        input.clicked_row is Some && self.row_is_live(input.clicked_row->0, snippets)
    }

    /// The highlighted row once the frame's input is applied: a click on a
    /// live row moves the highlight there, then the up key moves it one row up
    /// unless it is on the first row, then the down key moves it one row down
    /// unless it is on the last.
    pub open spec fn selected_after(self, input: GetWindowInput, snippets: Seq<Snippet>) -> usize {
        let clicked = if self.click_lands(input, snippets) {
            input.clicked_row->0
        } else {
            self.selected
        };
        let raised = if input.arrow_up && clicked > 0 {
            (clicked - 1) as usize
        } else {
            clicked
        };
        if input.arrow_down && raised + 1 < self.filtered.len() {
            (raised + 1) as usize
        } else {
            raised
        }
    }

    /// The window once the frame's input is applied.
    pub open spec fn after_input(
        self,
        input: GetWindowInput,
        snippets: Seq<Snippet>,
    ) -> GetWindowModel {
        GetWindowModel { selected: self.selected_after(input, snippets), ..self }
    }

    /// What the frame hands back. Escape yields the empty text, which stands
    /// for a dismissal. Otherwise enter yields the text behind the highlighted
    /// row, if that row is live; otherwise a click on a live row yields the
    /// text behind it; otherwise nothing is handed back.
    pub open spec fn picked(self, input: GetWindowInput, snippets: Seq<Snippet>) -> Option<
        Seq<char>,
    > {
        let selected = self.selected_after(input, snippets);
        if input.escape {
            Some(Seq::empty())
        } else if input.enter && self.row_is_live(selected, snippets) {
            Some(self.row_content(selected, snippets))
        } else if self.click_lands(input, snippets) {
            Some(self.row_content(input.clicked_row->0, snippets))
        } else {
            None
        }
    }
}

impl View for GetWindowState {
    type V = GetWindowModel;

    closed spec fn view(&self) -> GetWindowModel {
        GetWindowModel {
            query: self.search_query@,
            filtered: self.filtered_indices@,
            selected: self.selected_index,
            first_frame: self.first_frame,
        }
    }
}

/// A freshly opened window has its highlight on row 0.
pub proof fn lemma_initial_selection_in_range()
    ensures
        GetWindowModel::initial().selection_in_range(),
{
}

/// Computing the rows anew always leaves the highlight on a row of the list,
/// whatever the query.
pub proof fn lemma_refreshed_selection_in_range(
    window: GetWindowModel,
    query: Seq<char>,
    snippets: Seq<Snippet>,
)
    ensures
        window.refreshed(snippets).selection_in_range(),
        window.begun(query, snippets).selection_in_range(),
{
}

/// The rows computed from a list of snippets stand for snippets of that list,
/// whatever the query.
pub proof fn lemma_refreshed_rows_are_positions(
    window: GetWindowModel,
    query: Seq<char>,
    snippets: Seq<Snippet>,
)
    requires
        snippets.len() <= usize::MAX,
    ensures
        window.refreshed(snippets).rows_are_below(snippets.len()),
        window.begun(query, snippets).rows_are_below(snippets.len()),
{
    lemma_search_results_are_the_hits(window.query, snippets);
    lemma_search_results_are_the_hits(query, snippets);
}

/// No click and no key moves the highlight off the list.
pub proof fn lemma_input_keeps_selection_in_range(
    window: GetWindowModel,
    input: GetWindowInput,
    snippets: Seq<Snippet>,
)
    requires
        window.selection_in_range(),
    ensures
        window.after_input(input, snippets).selection_in_range(),
{
}

/// With no rows on screen, neither a click nor enter picks anything, and no
/// input changes the window: only escape hands something back, and what it
/// hands back is the empty text.
pub proof fn lemma_nothing_to_pick_from_empty_list(
    window: GetWindowModel,
    input: GetWindowInput,
    snippets: Seq<Snippet>,
)
    requires
        window.filtered.len() == 0,
        window.selection_in_range(),
    ensures
        window.after_input(input, snippets) == window,
        !input.escape ==> window.picked(input, snippets) is None,
        input.escape ==> window.picked(input, snippets) == Some(Seq::<char>::empty()),
{
}

/// Whatever a frame hands back without escape is the text of one of the
/// snippets behind the rows on screen.
pub proof fn lemma_picked_is_on_screen(
    window: GetWindowModel,
    input: GetWindowInput,
    snippets: Seq<Snippet>,
)
    requires
        !input.escape,
        window.picked(input, snippets) is Some,
    ensures
        exists|row: int|
            0 <= row < window.filtered.len() && window.filtered[row] < snippets.len()
                && window.picked(input, snippets) == Some(
                #[trigger] snippets[window.filtered[row] as int].content@,
            ),
{
}

impl GetWindowState {
    /// The highlight never leaves the list.
    #[verifier::type_invariant]
    spec fn highlight_is_on_the_list(self) -> bool {
        self.selected_index == 0 || self.selected_index < self.filtered_indices.len()
    }

    /// A freshly opened window.
    pub fn new() -> (state: Self)
        ensures
            state@ == GetWindowModel::initial(),
    {
        Self {
            search_query: String::new(),
            filtered_indices: Vec::new(),
            selected_index: 0,
            first_frame: true,
        }
    }

    /// One whole frame: the query box reads `query`, the rows are computed
    /// for it, and then `input` is applied to those rows. A caller that draws
    /// the rows before it knows the input calls the two halves in turn,
    /// `begin_frame` and `handle_input`.
    pub fn show(
        &mut self,
        query: &str,
        input: &GetWindowInput,
        snippets: &[Snippet],
    ) -> (picked: Option<String>)
        ensures
            final(self)@ == old(self)@.begun(query@, snippets@).after_input(*input, snippets@),
            text_of(picked) == old(self)@.begun(query@, snippets@).picked(*input, snippets@),
            final(self)@.selection_in_range(),
            final(self)@.rows_are_below(snippets@.len()),
    {
        self.begin_frame(query, snippets);
        self.handle_input(input, snippets)
    }

    /// The first half of a frame. Takes over the text of the query box,
    /// computes the rows for it, and says whether the query box should be
    /// given the keyboard focus, which it is once after each reset.
    pub fn begin_frame(&mut self, query: &str, snippets: &[Snippet]) -> (focus: bool)
        ensures
            final(self)@ == old(self)@.begun(query@, snippets@),
            focus == old(self)@.first_frame,
            final(self)@.selection_in_range(),
            final(self)@.rows_are_below(snippets@.len()),
    {
        proof {
            use_type_invariant(&*self);
        }
        let focus = self.first_frame;
        self.first_frame = false;
        self.search_query = query.to_owned();
        self.update_filtered_results(snippets);
        focus
    }

    /// The second half of a frame: applies the click and the keys to the rows
    /// that `begin_frame` computed.
    pub fn handle_input(&mut self, input: &GetWindowInput, snippets: &[Snippet]) -> (picked:
        Option<String>)
        ensures
            final(self)@ == old(self)@.after_input(*input, snippets@),
            text_of(picked) == old(self)@.picked(*input, snippets@),
            final(self)@.selection_in_range(),
    {
        proof {
            use_type_invariant(&*self);
        }
        let mut picked: Option<String> = None;
        if let Some(row) = input.clicked_row {
            if row < self.filtered_indices.len() {
                let snippet_index = self.filtered_indices[row];
                if snippet_index < snippets.len() {
                    self.selected_index = row;
                    picked = Some(snippets[snippet_index].content.clone());
                }
            }
        }
        if input.arrow_up && self.selected_index > 0 {
            self.selected_index -= 1;
        }
        if input.arrow_down && self.filtered_indices.len() > 0 && self.selected_index
            < self.filtered_indices.len() - 1 {
            self.selected_index += 1;
        }
        if input.enter && self.selected_index < self.filtered_indices.len() {
            let snippet_index = self.filtered_indices[self.selected_index];
            if snippet_index < snippets.len() {
                picked = Some(snippets[snippet_index].content.clone());
            }
        }
        if input.escape {
            picked = Some(String::new());
        }
        picked
    }

    /// Computes the rows anew: the hits for the current query among
    /// `snippets`. A highlight beyond the last row moves to the last row.
    pub fn update_filtered_results(&mut self, snippets: &[Snippet])
        ensures
            final(self)@ == old(self)@.refreshed(snippets@),
            final(self)@.selection_in_range(),
            final(self)@.rows_are_below(snippets@.len()),
    {
        proof {
            use_type_invariant(&*self);
        }
        let filtered = SearchIndex::new().search(self.search_query.as_str(), snippets);
        if self.selected_index >= filtered.len() {
            self.selected_index = if filtered.len() == 0 {
                0
            } else {
                filtered.len() - 1
            };
        }
        self.filtered_indices = filtered;
    }

    /// Back to a freshly opened window.
    pub fn reset(&mut self)
        ensures
            final(self)@ == GetWindowModel::initial(),
    {
        self.selected_index = 0;
        self.filtered_indices = Vec::new();
        self.search_query = String::new();
        self.first_frame = true;
    }

    /// The text in the query box.
    pub fn search_query(&self) -> (query: &str)
        ensures
            query@ == self@.query,
    {
        self.search_query.as_str()
    }

    /// The snippet positions that the rows stand for, first row first.
    pub fn filtered_indices(&self) -> (rows: &Vec<usize>)
        ensures
            rows@ == self@.filtered,
    {
        &self.filtered_indices
    }

    /// The highlighted row, which is a row of the list unless the list is
    /// empty.
    pub fn selected_index(&self) -> (row: usize)
        ensures
            row == self@.selected,
            self@.selection_in_range(),
    {
        proof {
            use_type_invariant(self);
        }
        self.selected_index
    }

    /// Whether the query box still waits to be given the keyboard focus.
    pub fn first_frame(&self) -> (waiting: bool)
        ensures
            waiting == self@.first_frame,
    {
        self.first_frame
    }
}

impl Default for GetWindowState {
    /// An empty window that does not ask for the keyboard focus.
    fn default() -> (state: Self)
        ensures
            state@ == (GetWindowModel { first_frame: false, ..GetWindowModel::initial() }),
    {
        Self {
            search_query: String::new(),
            filtered_indices: Vec::new(),
            selected_index: 0,
            first_frame: false,
        }
    }
}

} // verus!
