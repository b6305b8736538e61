//! The commit-type selector: a query that filters the vocabulary, a
//! highlighted row among the entries it keeps, and the transitions that key
//! presses cause.

use vstd::prelude::*;
use crate::error::GczError;
use crate::key::{check_interrupt, is_interrupt, KeyCode, KeyPress};
use crate::text::char_to_string;
use crate::vocabulary::{
    decorate, filter_type_by_input, filtered_indices, vocabulary, with_glyph, CommitType,
};

verus! {

/// The selector as a mathematical value: the query typed so far and the
/// position of the highlighted row among the entries that the query keeps.
pub struct SelectorView {
    pub query: Seq<char>,
    pub selected: nat,
}

impl SelectorView {
    /// The positions in the vocabulary of the entries on show.
    pub open spec fn candidates(self) -> Seq<int> {
        filtered_indices(self.query)
    }

    /// The highlighted row is one of the rows on show; with no row on show
    /// it is row 0.
    pub open spec fn wf(self) -> bool {
        self.selected < self.candidates().len() || self.selected == 0
    }

    /// The selector before any key was pressed.
    pub open spec fn initial() -> SelectorView {
        SelectorView { query: Seq::empty(), selected: 0 }
    }

    /// The highlight one row up; from the first row it goes to the last.
    pub open spec fn up(self) -> SelectorView {
        let rows = self.candidates().len();
        SelectorView {
            query: self.query,
            selected: if self.selected > 0 {
                (self.selected - 1) as nat
            } else if rows > 0 {
                (rows - 1) as nat
            } else {
                0
            },
        }
    }

    /// The highlight one row down; from the last row it goes to the first.
    pub open spec fn down(self) -> SelectorView {
        let rows = self.candidates().len();
        SelectorView {
            query: self.query,
            selected: if self.selected + 1 < rows {
                self.selected + 1
            } else {
                0
            },
        }
    }

    /// The query with `c` at its end and the highlight on the first row.
    pub open spec fn typed(self, c: char) -> SelectorView {
        SelectorView { query: self.query.push(c), selected: 0 }
    }

    /// The query without its last character and the highlight on the first
    /// row.
    pub open spec fn erased(self) -> SelectorView {
        SelectorView {
            query: if self.query.len() > 0 {
                self.query.drop_last()
            } else {
                self.query
            },
            selected: 0,
        }
    }

    /// The empty query and the highlight on the first row.
    pub open spec fn cleared(self) -> SelectorView {
        SelectorView { query: Seq::empty(), selected: 0 }
    }

    /// The entry under the highlight, if any row is on show.
    pub open spec fn chosen(self) -> Option<CommitType> {
        if self.selected < self.candidates().len() {
            Some(vocabulary()[self.candidates()[self.selected as int]])
        } else {
            None
        }
    }

    /// The selector after a key press that neither confirms nor interrupts.
    pub open spec fn after_key(self, code: KeyCode) -> SelectorView {
        match code {
            KeyCode::Up => self.up(),
            KeyCode::Down => self.down(),
            KeyCode::Char(c) => self.typed(c),
            KeyCode::Backspace => self.erased(),
            KeyCode::Esc => self.cleared(),
            _ => self,
        }
    }
}

/// Every key press leaves the highlight on a row on show, or on row 0 where
/// none is on show.
pub proof fn law_keys_keep_highlight_on_a_row(view: SelectorView, code: KeyCode)
    requires
        view.wf(),
    ensures
        view.after_key(code).wf(),
{
}

/// Up and Down go round: Up from the first row leads to the last, Down from
/// the last to the first, and each undoes the other wherever a row is on
/// show.
pub proof fn law_highlight_goes_round(view: SelectorView)
    requires
        view.wf(),
        view.candidates().len() > 0,
    ensures
        view.selected == 0 ==> view.up().selected == view.candidates().len() - 1,
        view.selected == view.candidates().len() - 1 ==> view.down().selected == 0,
        view.up().down() == view,
        view.down().up() == view,
{
}

/// How an entry is shown in the list: with its glyph in front where
/// decoration is on, by its name alone where it is off.
pub open spec fn shown_name(entry: CommitType, use_emoji: bool) -> Seq<char> {
    if use_emoji {
        with_glyph(entry)
    } else {
        entry.name@
    }
}

/// The text of a row: a pointer in front of the highlighted entry, two
/// spaces in front of any other.
pub open spec fn row_label(entry: CommitType, use_emoji: bool, highlighted: bool) -> Seq<char> {
    if highlighted {
        "❯ "@ + shown_name(entry, use_emoji)
    } else {
        "  "@ + shown_name(entry, use_emoji)
    }
}

/// The line above the list: the prompt and the query typed so far.
pub open spec fn prompt_line(query: Seq<char>) -> Seq<char> {
    "Select a commit type: "@ + query
}

/// One row of the list as it is to be drawn.
#[derive(Debug, PartialEq, Eq)]
pub struct Row {
    pub label: String,
    pub highlighted: bool,
}

/// All that one redraw of the selector puts on the terminal.
#[derive(Debug, PartialEq, Eq)]
pub struct Screen {
    pub prompt: String,
    pub rows: Vec<Row>,
}

/// The selector while the user is filtering.
pub struct Selector {
    query: String,
    selected_index: usize,
}

impl View for Selector {
    type V = SelectorView;

    closed spec fn view(&self) -> SelectorView {
        SelectorView { query: self.query@, selected: self.selected_index as nat }
    }
}

impl Selector {
    #[verifier::type_invariant]
    spec fn highlight_on_a_row(self) -> bool {
        self@.wf()
    }

    /// A selector with an empty query and the first row highlighted.
    pub fn new() -> (selector: Selector)
        ensures
            selector@ == SelectorView::initial(),
    {
        Selector { query: String::new(), selected_index: 0 }
    }

    /// The query typed so far.
    pub fn query(&self) -> (query: &str)
        ensures
            query@ == self@.query,
    {
        self.query.as_str()
    }

    /// The position of the highlighted row.
    pub fn selected_index(&self) -> (index: usize)
        ensures
            index == self@.selected,
            self@.wf(),
    {
        proof {
            use_type_invariant(self);
        }
        self.selected_index
    }

    /// Moves the highlight one row up, from the first row to the last.
    pub fn move_up(&mut self)
        ensures
            final(self)@ == old(self)@.up(),
            final(self)@.wf(),
            old(self)@.selected == 0 && old(self)@.candidates().len() > 0 ==> final(self)@.selected
                == old(self)@.candidates().len() - 1,
    {
        proof {
            use_type_invariant(&*self);
        }
        let rows = filter_type_by_input(self.query.as_str()).len();
        if self.selected_index > 0 {
            self.selected_index = self.selected_index - 1;
        } else if rows > 0 {
            self.selected_index = rows - 1;
        }
    }

    /// Moves the highlight one row down, from the last row to the first.
    pub fn move_down(&mut self)
        ensures
            final(self)@ == old(self)@.down(),
            final(self)@.wf(),
            old(self)@.selected + 1 == old(self)@.candidates().len() ==> final(self)@.selected == 0,
    {
        proof {
            use_type_invariant(&*self);
        }
        let rows = filter_type_by_input(self.query.as_str()).len();
        if rows > 0 && self.selected_index < rows - 1 {
            self.selected_index = self.selected_index + 1;
        } else {
            self.selected_index = 0;
        }
    }

    /// Puts `c` at the end of the query and highlights the first row.
    pub fn push_char(&mut self, c: char)
        ensures
            final(self)@ == old(self)@.typed(c),
            final(self)@.wf(),
    {
        let mut query = self.query.clone();
        query.append(char_to_string(c).as_str());
        assert(query@ =~= self.query@.push(c));
        self.selected_index = 0;
        self.query = query;
    }

    /// Takes the last character off the query, if it has one, and highlights
    /// the first row.
    pub fn backspace(&mut self)
        ensures
            final(self)@ == old(self)@.erased(),
            final(self)@.wf(),
    {
        self.selected_index = 0;
        let length = self.query.as_str().unicode_len();
        if length > 0 {
            let shorter = String::from_str(self.query.as_str().substring_char(0, length - 1));
            assert(shorter@ =~= self.query@.drop_last());
            self.query = shorter;
        }
    }

    /// Empties the query and highlights the first row.
    pub fn clear(&mut self)
        ensures
            final(self)@ == old(self)@.cleared(),
            final(self)@.wf(),
    {
        self.selected_index = 0;
        self.query = String::new();
    }

    /// The name of the entry under the highlight; `None` while the query
    /// keeps no entry.
    pub fn confirm(&self) -> (name: Option<String>)
        ensures
            match self@.chosen() {
                Some(entry) => name matches Some(text) && text@ == entry.name@,
                None => name is None,
            },
            self@.chosen() is Some <==> self@.candidates().len() > 0,
    {
        proof {
            use_type_invariant(self);
        }
        let filtered = filter_type_by_input(self.query.as_str());
        if filtered.len() > 0 {
            Some(String::from_str(filtered[self.selected_index].1.name))
        } else {
            None
        }
    }

    /// Applies one key press. An interrupt combination ends the selection
    /// with `UserInterrupt`. Enter ends it with the name of the highlighted
    /// entry, or does nothing while no entry is on show. Every other press
    /// changes the selector as its key says and asks for the next press.
    pub fn handle_key(&mut self, key: &KeyPress) -> (step: Result<Option<String>, GczError>)
        ensures
            final(self)@.wf(),
            is_interrupt(*key) ==> step == Err::<Option<String>, GczError>(GczError::UserInterrupt)
                && final(self)@ == old(self)@,
            !is_interrupt(*key) && key.code == KeyCode::Enter ==> final(self)@ == old(self)@
                && match old(self)@.chosen() {
                Some(entry) => step matches Ok(Some(name)) && name@ == entry.name@,
                None => step == Ok::<Option<String>, GczError>(None),
            },
            !is_interrupt(*key) && key.code != KeyCode::Enter ==> step == Ok::<
                Option<String>,
                GczError,
            >(None) && final(self)@ == old(self)@.after_key(key.code),
    {
        proof {
            use_type_invariant(&*self);
        }
        if check_interrupt(key) {
            return Err(GczError::UserInterrupt);
        }
        match key.code {
            KeyCode::Enter => {
                return Ok(self.confirm());
            },
            KeyCode::Up => self.move_up(),
            KeyCode::Down => self.move_down(),
            KeyCode::Char(c) => self.push_char(c),
            KeyCode::Backspace => self.backspace(),
            KeyCode::Esc => self.clear(),
            _ => {},
        }
        Ok(None)
    }

    /// What one redraw shows: the prompt with the query, then one row for
    /// each entry that the query keeps, in vocabulary order, with the
    /// highlighted row marked.
    pub fn render(&self, use_emoji: bool) -> (screen: Screen)
        ensures
            screen.prompt@ == prompt_line(self@.query),
            screen.rows@.len() == self@.candidates().len(),
            forall|k: int|
                0 <= k < screen.rows@.len() ==> {
                    &&& (#[trigger] screen.rows@[k]).highlighted == (k == self@.selected)
                    &&& screen.rows@[k].label@ == row_label(
                        vocabulary()[self@.candidates()[k]],
                        use_emoji,
                        k == self@.selected,
                    )
                },
    {
        let mut prompt = String::from_str("Select a commit type: ");
        prompt.append(self.query.as_str());
        let filtered = filter_type_by_input(self.query.as_str());
        let mut rows: Vec<Row> = Vec::new();
        let mut k: usize = 0;
        while k < filtered.len()
            invariant
                k <= filtered.len(),
                filtered@.len() == self@.candidates().len(),
                forall|j: int|
                    0 <= j < filtered@.len() ==> {
                        &&& (#[trigger] filtered@[j]).0 == self@.candidates()[j]
                        &&& filtered@[j].1 == vocabulary()[filtered@[j].0 as int]
                    },
                rows@.len() == k,
                forall|j: int|
                    0 <= j < k ==> {
                        &&& (#[trigger] rows@[j]).highlighted == (j == self@.selected)
                        &&& rows@[j].label@ == row_label(
                            vocabulary()[self@.candidates()[j]],
                            use_emoji,
                            j == self@.selected,
                        )
                    },
            decreases filtered.len() - k,
        {
            let entry = filtered[k].1;
            let highlighted = k == self.selected_index;
            let mut label = if highlighted {
                String::from_str("❯ ")
            } else {
                String::from_str("  ")
            };
            if use_emoji {
                label.append(decorate(&entry).as_str());
            } else {
                label.append(entry.name);
            }
            rows.push(Row { label, highlighted });
            k += 1;
        }
        Screen { prompt, rows }
    }
}

} // verus!
