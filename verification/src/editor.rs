//! The single-line editor: a buffer of grapheme clusters with a cursor
//! between them, and the transitions that key presses cause.

use vstd::prelude::*;
use crate::error::GczError;
use crate::grapheme::{display_width, grapheme_clusters, split_graphemes, str_width, text_before};
use crate::key::{check_interrupt, is_interrupt, KeyCode, KeyPress};
use crate::text::char_to_string;

verus! {

/// The buffer as a mathematical value: the clusters in order and the number
/// of clusters in front of the cursor.
pub struct EditView {
    pub graphemes: Seq<Seq<char>>,
    pub cursor: nat,
}

impl EditView {
    /// The cursor stands between clusters, or at either end.
    pub open spec fn wf(self) -> bool {
        self.cursor <= self.graphemes.len()
    }

    /// The line that the buffer holds.
    pub open spec fn text(self) -> Seq<char> {
        self.graphemes.flatten()
    }

    /// The text in front of the cursor.
    pub open spec fn before_cursor(self) -> Seq<char> {
        text_before(self.graphemes, self.cursor as int)
    }

    /// The terminal column at which the cursor is shown.
    pub open spec fn column(self) -> nat {
        display_width(self.before_cursor())
    }

    /// The buffer with no text.
    pub open spec fn empty() -> EditView {
        EditView { graphemes: Seq::empty(), cursor: 0 }
    }

    /// One cluster put in at the cursor, which then stands behind it.
    pub open spec fn insert(self, grapheme: Seq<char>) -> EditView {
        EditView {
            graphemes: self.graphemes.insert(self.cursor as int, grapheme),
            cursor: self.cursor + 1,
        }
    }

    /// The cluster in front of the cursor taken out, if there is one.
    pub open spec fn backspace(self) -> EditView {
        if self.cursor > 0 {
            EditView {
                graphemes: self.graphemes.remove(self.cursor - 1),
                cursor: (self.cursor - 1) as nat,
            }
        } else {
            self
        }
    }

    /// The cluster behind the cursor taken out, if there is one.
    pub open spec fn delete(self) -> EditView {
        if self.cursor < self.graphemes.len() {
            EditView { graphemes: self.graphemes.remove(self.cursor as int), cursor: self.cursor }
        } else {
            self
        }
    }

    /// The cursor one cluster to the left, unless it is at the start.
    pub open spec fn left(self) -> EditView {
        if self.cursor > 0 {
            EditView { graphemes: self.graphemes, cursor: (self.cursor - 1) as nat }
        } else {
            self
        }
    }

    /// The cursor one cluster to the right, unless it is at the end.
    pub open spec fn right(self) -> EditView {
        if self.cursor < self.graphemes.len() {
            EditView { graphemes: self.graphemes, cursor: self.cursor + 1 }
        } else {
            self
        }
    }

    /// The cursor at the start of the line.
    pub open spec fn home(self) -> EditView {
        EditView { graphemes: self.graphemes, cursor: 0 }
    }

    /// The cursor at the end of the line.
    pub open spec fn end(self) -> EditView {
        EditView { graphemes: self.graphemes, cursor: self.graphemes.len() }
    }

    /// The buffer after a key press that neither submits nor interrupts.
    pub open spec fn after_key(self, code: KeyCode) -> EditView {
        match code {
            KeyCode::Char(c) => self.insert(seq![c]),
            KeyCode::Backspace => self.backspace(),
            KeyCode::Delete => self.delete(),
            KeyCode::Left => self.left(),
            KeyCode::Right => self.right(),
            KeyCode::Home => self.home(),
            KeyCode::End => self.end(),
            _ => self,
        }
    }
}

/// One step of editing.
pub enum Edit {
    Insert(Seq<char>),
    Backspace,
    Delete,
    Left,
    Right,
    Home,
    End,
}

/// A change to a plain string, counted in characters: at position `at`,
/// `removed` characters leave and `inserted` takes their place.
pub struct Splice {
    pub at: int,
    pub removed: int,
    pub inserted: Seq<char>,
}

/// `text` after the change `change`.
pub open spec fn splice(text: Seq<char>, change: Splice) -> Seq<char> {
    text.subrange(0, change.at) + change.inserted + text.subrange(
        change.at + change.removed,
        text.len() as int,
    )
}

impl EditView {
    /// The number of characters in front of the cursor.
    pub open spec fn offset(self) -> int {
        self.before_cursor().len() as int
    }

    /// The buffer after one step.
    pub open spec fn apply(self, edit: Edit) -> EditView {
        match edit {
            Edit::Insert(grapheme) => self.insert(grapheme),
            Edit::Backspace => self.backspace(),
            Edit::Delete => self.delete(),
            Edit::Left => self.left(),
            Edit::Right => self.right(),
            Edit::Home => self.home(),
            Edit::End => self.end(),
        }
    }

    /// The buffer after the steps `edits`, first to last.
    pub open spec fn apply_all(self, edits: Seq<Edit>) -> EditView
        decreases edits.len(),
    {
        if edits.len() == 0 {
            self
        } else {
            self.apply_all(edits.drop_last()).apply(edits.last())
        }
    }

    /// What one step does to the line, read as a plain string.
    pub open spec fn as_splice(self, edit: Edit) -> Splice {
        match edit {
            Edit::Insert(grapheme) => Splice { at: self.offset(), removed: 0, inserted: grapheme },
            Edit::Backspace => if self.cursor > 0 {
                let gone = self.graphemes[self.cursor - 1];
                Splice {
                    at: self.offset() - gone.len(),
                    removed: gone.len() as int,
                    inserted: Seq::empty(),
                }
            } else {
                Splice { at: self.offset(), removed: 0, inserted: Seq::empty() }
            },
            Edit::Delete => if self.cursor < self.graphemes.len() {
                let gone = self.graphemes[self.cursor as int];
                Splice { at: self.offset(), removed: gone.len() as int, inserted: Seq::empty() }
            } else {
                Splice { at: self.offset(), removed: 0, inserted: Seq::empty() }
            },
            _ => Splice { at: self.offset(), removed: 0, inserted: Seq::empty() },
        }
    }

    /// The plain string that results when each of `edits` is carried out on
    /// the line's text by splicing characters.
    pub open spec fn replay(self, edits: Seq<Edit>) -> Seq<char>
        decreases edits.len(),
    {
        if edits.len() == 0 {
            self.text()
        } else {
            splice(
                self.replay(edits.drop_last()),
                self.apply_all(edits.drop_last()).as_splice(edits.last()),
            )
        }
    }
}

/// A line is the text in front of the cursor followed by the text behind it.
pub proof fn lemma_split_at_cursor(view: EditView)
    requires
        view.wf(),
    ensures
        view.before_cursor() == view.graphemes.take(view.cursor as int).flatten(),
        view.text() == view.before_cursor() + view.graphemes.skip(view.cursor as int).flatten(),
        0 <= view.offset() <= view.text().len(),
{
    let head = view.graphemes.take(view.cursor as int);
    let tail = view.graphemes.skip(view.cursor as int);
    assert(view.graphemes =~= head + tail);
    vstd::seq_lib::lemma_flatten_concat(head, tail);
    if view.cursor == view.graphemes.len() {
        assert(head =~= view.graphemes);
    }
}

/// Every step keeps the cursor inside the line.
pub proof fn law_edits_keep_cursor_in_line(view: EditView, edit: Edit)
    requires
        view.wf(),
    ensures
        view.apply(edit).wf(),
{
}

/// Every step changes the text as its splice changes a plain string.
pub proof fn law_edit_is_splice(view: EditView, edit: Edit)
    requires
        view.wf(),
    ensures
        view.apply(edit).text() == splice(view.text(), view.as_splice(edit)),
{
    let units = view.graphemes;
    let at = view.cursor as int;
    let head = units.take(at);
    let tail = units.skip(at);
    let text = view.text();
    lemma_split_at_cursor(view);
    assert(text.subrange(0, view.offset()) =~= head.flatten());
    assert(text.subrange(view.offset(), text.len() as int) =~= tail.flatten());
    match edit {
        Edit::Insert(grapheme) => {
            assert(units.insert(at, grapheme) =~= head.push(grapheme) + tail);
            vstd::seq_lib::lemma_flatten_concat(head.push(grapheme), tail);
            head.lemma_flatten_push(grapheme);
        },
        Edit::Backspace => {
            if at > 0 {
                let gone = units[at - 1];
                let front = units.take(at - 1);
                assert(head =~= front.push(gone));
                front.lemma_flatten_push(gone);
                assert(units.remove(at - 1) =~= front + tail);
                vstd::seq_lib::lemma_flatten_concat(front, tail);
                assert(text.subrange(0, view.offset() - gone.len()) =~= front.flatten());
                assert(view.apply(edit).text() =~= splice(text, view.as_splice(edit)));
            } else {
                assert(text =~= splice(text, view.as_splice(edit)));
            }
        },
        Edit::Delete => {
            if at < units.len() {
                let gone = units[at];
                let back = units.skip(at + 1);
                assert(tail =~= seq![gone] + back);
                vstd::seq_lib::lemma_flatten_concat(seq![gone], back);
                seq![gone].lemma_flatten_singleton();
                assert(units.remove(at) =~= head + back);
                vstd::seq_lib::lemma_flatten_concat(head, back);
                assert(text.subrange(view.offset() + gone.len(), text.len() as int)
                    =~= back.flatten());
                assert(view.apply(edit).text() =~= splice(text, view.as_splice(edit)));
            } else {
                assert(text =~= splice(text, view.as_splice(edit)));
            }
        },
        _ => {
            assert(text =~= splice(text, view.as_splice(edit)));
        },
    }
}

/// Editing by clusters and editing a plain string by characters agree: after
/// any steps, from any line, the buffer holds what splicing the same
/// changes into the line's text gives. This holds of the empty line in
/// particular.
pub proof fn law_round_trip(start: EditView, edits: Seq<Edit>)
    requires
        start.wf(),
    ensures
        start.apply_all(edits).wf(),
        start.apply_all(edits).text() == start.replay(edits),
    decreases edits.len(),
{
    if edits.len() > 0 {
        law_round_trip(start, edits.drop_last());
        law_edit_is_splice(start.apply_all(edits.drop_last()), edits.last());
    }
}

/// A cluster that was put in stays whole: it is one unit of the line,
/// Backspace behind it or Delete in front of it takes all of it out, and
/// Left and Right step over all of it.
pub proof fn law_cluster_stays_whole(view: EditView, grapheme: Seq<char>)
    requires
        view.wf(),
    ensures
        view.insert(grapheme).graphemes[view.cursor as int] == grapheme,
        view.insert(grapheme).before_cursor() == view.before_cursor() + grapheme,
        view.insert(grapheme).backspace() == view,
        view.insert(grapheme).left().delete() == view,
        view.insert(grapheme).left().before_cursor() == view.before_cursor(),
        view.insert(grapheme).left().right() == view.insert(grapheme),
{
    let units = view.graphemes;
    let at = view.cursor as int;
    let grown = view.insert(grapheme);
    assert(grown.graphemes.remove(at) =~= units);
    assert(grown.graphemes.take(at) =~= units.take(at));
    assert(grown.graphemes.take(at + 1) =~= units.take(at).push(grapheme));
    units.take(at).lemma_flatten_push(grapheme);
    lemma_split_at_cursor(view);
    lemma_split_at_cursor(grown);
    lemma_split_at_cursor(grown.left());
}

/// The text of the first `count` of `units`, put together; of all of them
/// where there are fewer.
pub fn concat_units(units: &Vec<String>, count: usize) -> (text: String)
    ensures
        text@ == text_before(units.deep_view(), count as int),
{
    let ghost texts = units.deep_view();
    let end = if count < units.len() {
        count
    } else {
        units.len()
    };
    let mut text = String::new();
    let mut k: usize = 0;
    proof {
        assert(texts.take(0) =~= Seq::<Seq<char>>::empty());
    }
    while k < end
        invariant
            texts == units.deep_view(),
            k <= end <= units.len(),
            text@ == texts.take(k as int).flatten(),
        decreases end - k,
    {
        proof {
            crate::grapheme::lemma_take_one_more(texts, k as int);
        }
        text.append(units[k].as_str());
        k += 1;
    }
    proof {
        assert(texts.take(texts.len() as int) =~= texts);
    }
    text
}

/// An editable line: grapheme clusters and a cursor between them.
pub struct EditBuffer {
    graphemes: Vec<String>,
    cursor: usize,
}

impl View for EditBuffer {
    type V = EditView;

    closed spec fn view(&self) -> EditView {
        EditView { graphemes: self.graphemes.deep_view(), cursor: self.cursor as nat }
    }
}

impl EditBuffer {
    #[verifier::type_invariant]
    spec fn cursor_in_line(self) -> bool {
        self.cursor <= self.graphemes.len()
    }

    /// Hands out the clusters and the cursor, leaving an empty line behind.
    fn take_line(&mut self) -> (line: (Vec<String>, usize))
        ensures
            line.0 == old(self).graphemes,
            line.1 == old(self).cursor,
            line.1 <= line.0.len(),
            final(self).graphemes@.len() == 0,
            final(self).cursor == 0,
    {
        proof {
            use_type_invariant(&*self);
        }
        let cursor = self.cursor;
        let mut graphemes: Vec<String> = Vec::new();
        self.cursor = 0;
        std::mem::swap(&mut self.graphemes, &mut graphemes);
        (graphemes, cursor)
    }

    /// Makes `graphemes` and `cursor` the line.
    fn put_line(&mut self, graphemes: Vec<String>, cursor: usize)
        requires
            cursor <= graphemes.len(),
        ensures
            final(self).graphemes == graphemes,
            final(self).cursor == cursor,
    {
        self.cursor = 0;
        self.graphemes = graphemes;
        self.cursor = cursor;
    }

    /// An empty line.
    pub fn empty() -> (buffer: EditBuffer)
        ensures
            buffer@ == EditView::empty(),
    {
        let buffer = EditBuffer { graphemes: Vec::new(), cursor: 0 };
        assert(buffer@.graphemes =~= Seq::<Seq<char>>::empty());
        buffer
    }

    /// A line that holds `seed`, split into its grapheme clusters, with the
    /// cursor at its end.
    pub fn new(seed: &str) -> (buffer: EditBuffer)
        ensures
            buffer@.graphemes == grapheme_clusters(seed@),
            buffer@.cursor == buffer@.graphemes.len(),
            buffer@.text() == seed@,
            buffer@.wf(),
    {
        let graphemes = split_graphemes(seed);
        let cursor = graphemes.len();
        EditBuffer { graphemes, cursor }
    }

    /// The number of clusters in the line.
    pub fn len(&self) -> (count: usize)
        ensures
            count == self@.graphemes.len(),
            self@.wf(),
    {
        proof {
            use_type_invariant(self);
        }
        self.graphemes.len()
    }

    /// The number of clusters in front of the cursor.
    pub fn cursor(&self) -> (cursor: usize)
        ensures
            cursor == self@.cursor,
            self@.wf(),
    {
        proof {
            use_type_invariant(self);
        }
        self.cursor
    }

    /// The line as one string.
    pub fn text(&self) -> (text: String)
        ensures
            text@ == self@.text(),
    {
        concat_units(&self.graphemes, self.graphemes.len())
    }

    /// The terminal column at which the cursor belongs: the display width of
    /// the text in front of it.
    pub fn cursor_column(&self) -> (column: usize)
        ensures
            column == self@.column(),
    {
        let front = concat_units(&self.graphemes, self.cursor);
        str_width(front.as_str())
    }

    /// Puts `grapheme` in at the cursor as one cluster and moves the cursor
    /// behind it.
    pub fn insert(&mut self, grapheme: String)
        ensures
            final(self)@ == old(self)@.insert(grapheme@),
            final(self)@.wf(),
    {
        let (mut graphemes, cursor) = self.take_line();
        let ghost before = graphemes.deep_view();
        graphemes.insert(cursor, grapheme);
        assert(graphemes.deep_view() =~= before.insert(cursor as int, grapheme@));
        assert(cursor < graphemes.len());
        self.put_line(graphemes, cursor + 1);
    }

    /// Takes out the cluster in front of the cursor. At the start of the
    /// line nothing changes.
    pub fn backspace(&mut self)
        ensures
            final(self)@ == old(self)@.backspace(),
            final(self)@.wf(),
    {
        proof {
            use_type_invariant(&*self);
        }
        if self.cursor > 0 {
            let (mut graphemes, cursor) = self.take_line();
            let ghost before = graphemes.deep_view();
            graphemes.remove(cursor - 1);
            assert(graphemes.deep_view() =~= before.remove(cursor - 1));
            self.put_line(graphemes, cursor - 1);
        }
    }

    /// Takes out the cluster behind the cursor. At the end of the line
    /// nothing changes.
    pub fn delete(&mut self)
        ensures
            final(self)@ == old(self)@.delete(),
            final(self)@.wf(),
    {
        proof {
            use_type_invariant(&*self);
        }
        if self.cursor < self.graphemes.len() {
            let (mut graphemes, cursor) = self.take_line();
            let ghost before = graphemes.deep_view();
            graphemes.remove(cursor);
            assert(graphemes.deep_view() =~= before.remove(cursor as int));
            self.put_line(graphemes, cursor);
        }
    }

    /// Moves the cursor one cluster to the left, unless it is at the start.
    pub fn move_left(&mut self)
        ensures
            final(self)@ == old(self)@.left(),
            final(self)@.wf(),
    {
        proof {
            use_type_invariant(&*self);
        }
        if self.cursor > 0 {
            self.cursor = self.cursor - 1;
        }
    }

    /// Moves the cursor one cluster to the right, unless it is at the end.
    pub fn move_right(&mut self)
        ensures
            final(self)@ == old(self)@.right(),
            final(self)@.wf(),
    {
        proof {
            use_type_invariant(&*self);
        }
        if self.cursor < self.graphemes.len() {
            self.cursor = self.cursor + 1;
        }
    }

    /// Moves the cursor to the start of the line.
    pub fn move_home(&mut self)
        ensures
            final(self)@ == old(self)@.home(),
            final(self)@.wf(),
    {
        self.cursor = 0;
    }

    /// Moves the cursor to the end of the line.
    pub fn move_end(&mut self)
        ensures
            final(self)@ == old(self)@.end(),
            final(self)@.wf(),
    {
        self.cursor = self.graphemes.len();
    }

    /// Applies one key press. An interrupt combination ends the editing with
    /// `UserInterrupt` and Enter ends it with the line; both leave the buffer
    /// as it is. Every other press changes the buffer as its key says and
    /// asks for the next press.
    pub fn handle_key(&mut self, key: &KeyPress) -> (step: Result<Option<String>, GczError>)
        ensures
            final(self)@.wf(),
            is_interrupt(*key) ==> step == Err::<Option<String>, GczError>(GczError::UserInterrupt)
                && final(self)@ == old(self)@,
            !is_interrupt(*key) && key.code == KeyCode::Enter ==> final(self)@ == old(self)@ && (
            step matches Ok(Some(line)) && line@ == old(self)@.text()),
            !is_interrupt(*key) && key.code != KeyCode::Enter ==> step == Ok::<
                Option<String>,
                GczError,
            >(None) && final(self)@ == old(self)@.after_key(key.code),
    {
        proof {
            use_type_invariant(&*self);
        }
        if check_interrupt(key) {
            return Err(GczError::UserInterrupt);
        }
        match key.code {
            KeyCode::Enter => {
                return Ok(Some(self.text()));
            },
            KeyCode::Char(c) => self.insert(char_to_string(c)),
            KeyCode::Backspace => self.backspace(),
            KeyCode::Delete => self.delete(),
            KeyCode::Left => self.move_left(),
            KeyCode::Right => self.move_right(),
            KeyCode::Home => self.move_home(),
            KeyCode::End => self.move_end(),
            _ => {},
        }
        Ok(None)
    }
}

} // verus!
