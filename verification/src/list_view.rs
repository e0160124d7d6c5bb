//! The filtered list: which source items match the pattern, which of them
//! is selected, and which slice of them the viewport shows.

use vstd::prelude::*;
use vstd::string::StringExecFns;
use crate::fuzzy::{fuzzy_match, fuzzy_matches};

verus! {

/// The texts of a list of names.
pub open spec fn texts(names: Seq<String>) -> Seq<Seq<char>> {
    names.map_values(|name: String| name@)
}

/// The positions of the `true` entries, in increasing order.
pub open spec fn indices_of_true(flags: Seq<bool>) -> Seq<int>
    decreases flags.len(),
{
    if flags.len() == 0 {
        Seq::empty()
    } else {
        let before = indices_of_true(flags.drop_last());
        if flags.last() {
            before.push(flags.len() - 1)
        } else {
            before
        }
    }
}

/// For each name, whether `pattern` matches it.
pub open spec fn match_flags(names: Seq<Seq<char>>, pattern: Seq<char>) -> Seq<bool> {
    names.map_values(|name: Seq<char>| fuzzy_matches(pattern, name))
}

/// The indices of the names that `pattern` matches, in source order.
pub open spec fn matching_indices(names: Seq<Seq<char>>, pattern: Seq<char>) -> Seq<int> {
    indices_of_true(match_flags(names, pattern))
}

/// `indices` picks positions out of `0..source_len`, each at most once, in
/// increasing order.
pub open spec fn is_ordered_subset(indices: Seq<int>, source_len: nat) -> bool {
    &&& forall|k: int| 0 <= k < indices.len() ==> 0 <= #[trigger] indices[k] < source_len
    &&& forall|j: int, k: int|
        0 <= j < k < indices.len() ==> #[trigger] indices[j] < #[trigger] indices[k]
}

/// The selection pulled back onto the list: the last position where it lay
/// beyond it, position 0 where the list is empty.
pub open spec fn clamped_selection(selection: nat, total: nat) -> nat {
    if total == 0 {
        0
    } else if selection >= total {
        (total - 1) as nat
    } else {
        selection
    }
}

/// The scroll offset that keeps `selection` in a viewport of `viewport`
/// rows over `total` items, starting from the offset `scroll`. Later rules
/// override earlier ones: scroll down to the selection, scroll up to it,
/// then show everything if it fits, else stop at the last full page.
pub open spec fn scroll_after(selection: nat, scroll: nat, viewport: nat, total: nat) -> nat {
    let down = if selection >= scroll + viewport && viewport > 0 {
        (selection - viewport + 1) as nat
    } else {
        scroll
    };
    let up = if selection < down {
        selection
    } else {
        down
    };
    if total <= viewport {
        0
    } else if up > total - viewport {
        (total - viewport) as nat
    } else {
        up
    }
}

/// The mathematical value of a [`FilteredListView`].
#[verifier::ext_equal]
pub ghost struct ListModel {
    pub source_len: nat,
    pub pattern: Seq<char>,
    pub matches: Seq<int>,
    pub selection: nat,
    pub scroll: nat,
    pub viewport_height: nat,
}

impl ListModel {
    /// The matches are a selection of the source in source order, and the
    /// selection lies on one of them, or is 0 where there is none.
    pub open spec fn wf(self) -> bool {
        &&& is_ordered_subset(self.matches, self.source_len)
        &&& self.selection == clamped_selection(self.selection, self.matches.len())
    }

    /// The list over `source_len` items before any filtering: everything
    /// matches, the first item is selected, nothing is scrolled.
    pub open spec fn unfiltered(source_len: nat) -> ListModel {
        ListModel {
            source_len,
            pattern: Seq::empty(),
            matches: Seq::new(source_len, |i: int| i),
            selection: 0,
            scroll: 0,
            viewport_height: 0,
        }
    }

    /// The list after its source was replaced by one of `source_len` items:
    /// every item is a match and the first one is selected. The scroll
    /// offset, the viewport and the pattern of the last computation stay as
    /// they were; the next scroll adjustment and the next computation of
    /// the matches bring them in line.
    pub open spec fn reloaded(self, source_len: nat) -> ListModel {
        ListModel {
            source_len,
            pattern: self.pattern,
            matches: Seq::new(source_len, |i: int| i),
            selection: 0,
            scroll: self.scroll,
            viewport_height: self.viewport_height,
        }
    }

    /// The list after the matches were computed anew for `pattern` over
    /// `names` and the selection was clamped onto them.
    pub open spec fn refiltered(self, names: Seq<Seq<char>>, pattern: Seq<char>) -> ListModel {
        let matches = matching_indices(names, pattern);
        ListModel {
            source_len: names.len(),
            pattern,
            matches,
            selection: clamped_selection(self.selection, matches.len()),
            scroll: self.scroll,
            viewport_height: self.viewport_height,
        }
    }

    /// The list after the scroll window was fitted to a viewport of
    /// `viewport` rows.
    pub open spec fn scrolled(self, viewport: nat) -> ListModel {
        ListModel {
            source_len: self.source_len,
            pattern: self.pattern,
            matches: self.matches,
            selection: self.selection,
            scroll: scroll_after(self.selection, self.scroll, viewport, self.matches.len()),
            viewport_height: viewport,
        }
    }

    /// The list with the selection at `selection`.
    pub open spec fn selecting(self, selection: nat) -> ListModel {
        ListModel {
            source_len: self.source_len,
            pattern: self.pattern,
            matches: self.matches,
            selection,
            scroll: self.scroll,
            viewport_height: self.viewport_height,
        }
    }

    /// One step down, stopping at the last match.
    pub open spec fn moved_down(self) -> ListModel {
        if self.selection + 1 < self.matches.len() {
            self.selecting(self.selection + 1)
        } else {
            self
        }
    }

    /// One step up, stopping at the first match.
    pub open spec fn moved_up(self) -> ListModel {
        if self.selection > 0 {
            self.selecting((self.selection - 1) as nat)
        } else {
            self
        }
    }

    /// The first position past the visible slice.
    pub open spec fn visible_end(self) -> nat {
        if self.scroll + self.viewport_height < self.matches.len() {
            self.scroll + self.viewport_height
        } else {
            self.matches.len()
        }
    }

    /// The first visible position; equal to `visible_end` where nothing is
    /// visible.
    pub open spec fn visible_start(self) -> nat {
        if self.scroll < self.visible_end() {
            self.scroll
        } else {
            self.visible_end()
        }
    }
}

/// What `indices_of_true` holds: exactly the positions of the `true`
/// entries, each once, in increasing order.
pub proof fn lemma_indices_of_true(flags: Seq<bool>)
    ensures
        is_ordered_subset(indices_of_true(flags), flags.len()),
        forall|i: int|
            0 <= i < flags.len() ==> (indices_of_true(flags).contains(i) <==> #[trigger] flags[i]),
    decreases flags.len(),
{
    let found = indices_of_true(flags);
    if flags.len() > 0 {
        let head = flags.drop_last();
        let before = indices_of_true(head);
        lemma_indices_of_true(head);
        let last = flags.len() - 1;
        assert forall|i: int| 0 <= i < flags.len() implies (found.contains(i)
            <==> #[trigger] flags[i]) by {
            if i < last {
                assert(head[i] == flags[i]);
                if before.contains(i) {
                    let k = choose|k: int| 0 <= k < before.len() && before[k] == i;
                    assert(found[k] == i);
                }
                if found.contains(i) {
                    let k = choose|k: int| 0 <= k < found.len() && found[k] == i;
                    assert(before[k] == i);
                }
            } else {
                if flags.last() {
                    assert(found[found.len() - 1] == i);
                } else if found.contains(i) {
                    let k = choose|k: int| 0 <= k < found.len() && found[k] == i;
                    assert(before[k] < head.len());
                }
            }
        }
    }
}

/// What `matching_indices` holds: exactly the indices of the names that the
/// pattern matches, each once, in increasing order.
pub proof fn lemma_matching_indices(names: Seq<Seq<char>>, pattern: Seq<char>)
    ensures
        is_ordered_subset(matching_indices(names, pattern), names.len()),
        forall|i: int|
            0 <= i < names.len() ==> (matching_indices(names, pattern).contains(i)
                <==> fuzzy_matches(pattern, #[trigger] names[i])),
{
    let flags = match_flags(names, pattern);
    lemma_indices_of_true(flags);
    assert forall|i: int| 0 <= i < names.len() implies (matching_indices(names, pattern).contains(
        i,
    ) <==> fuzzy_matches(pattern, #[trigger] names[i])) by {
        assert(flags[i] == fuzzy_matches(pattern, names[i]));
    }
}

/// Where every entry is `true`, the positions are `0..flags.len()`.
pub proof fn lemma_indices_of_all_true(flags: Seq<bool>)
    requires
        forall|i: int| 0 <= i < flags.len() ==> flags[i],
    ensures
        indices_of_true(flags) == Seq::new(flags.len(), |i: int| i),
    decreases flags.len(),
{
    if flags.len() > 0 {
        lemma_indices_of_all_true(flags.drop_last());
    }
    assert(indices_of_true(flags) =~= Seq::new(flags.len(), |i: int| i));
}

/// An empty pattern keeps every item: the matches are `0..names.len()`.
pub proof fn lemma_empty_pattern_matches_all(names: Seq<Seq<char>>)
    ensures
        matching_indices(names, Seq::empty()) == Seq::new(names.len(), |i: int| i),
{
    lemma_indices_of_all_true(match_flags(names, Seq::empty()));
}

/// Wherever the scroll offset stood before, fitting the window leaves the
/// selection visible and the window inside the list: with more items than
/// rows (and at least one row) the selection lies in the window and the
/// window ends no later than the list; with no more items than rows nothing
/// is scrolled.
pub proof fn lemma_scroll_window(selection: nat, scroll: nat, viewport: nat, total: nat)
    requires
        selection == clamped_selection(selection, total),
    ensures
        total > viewport ==> scroll_after(selection, scroll, viewport, total) <= total - viewport,
        total > viewport ==> scroll_after(selection, scroll, viewport, total) <= selection,
        total > viewport && viewport > 0 ==> selection < scroll_after(
            selection,
            scroll,
            viewport,
            total,
        ) + viewport,
        total <= viewport ==> scroll_after(selection, scroll, viewport, total) == 0,
{
}

/// With nothing matched there is nothing to move to: the selection stays at
/// its resting place whichever way it is moved.
pub proof fn lemma_moves_do_nothing_when_empty(list: ListModel)
    requires
        list.wf(),
        list.matches.len() == 0,
    ensures
        list.moved_down() == list,
        list.moved_up() == list,
{
}

/// Computing the matches and clamping the selection twice in a row, with
/// the same names and the same pattern, gives what doing it once gives.
pub proof fn lemma_refilter_idempotent(list: ListModel, names: Seq<Seq<char>>, pattern: Seq<char>)
    ensures
        list.refiltered(names, pattern).refiltered(names, pattern) == list.refiltered(
            names,
            pattern,
        ),
        list.refiltered(names, pattern).wf(),
{
    lemma_matching_indices(names, pattern);
}

/// The filtered, scrolling view of a list of `source_len` items.
pub struct FilteredListView {
    source_len: usize,
    pattern: String,
    matches: Vec<usize>,
    selection: usize,
    scroll: usize,
    viewport_height: usize,
}

impl View for FilteredListView {
    type V = ListModel;

    closed spec fn view(&self) -> ListModel {
        ListModel {
            source_len: self.source_len as nat,
            pattern: self.pattern@,
            matches: self.matches@.map_values(|i: usize| i as int),
            selection: self.selection as nat,
            scroll: self.scroll as nat,
            viewport_height: self.viewport_height as nat,
        }
    }
}

impl FilteredListView {
    /// The invariant of the view, see [`ListModel::wf`].
    pub open spec fn wf(&self) -> bool {
        self@.wf()
    }

    /// The indices `0..source_len`, in order.
    fn all_indices(source_len: usize) -> (indices: Vec<usize>)
        ensures
            indices@.map_values(|i: usize| i as int) == Seq::new(source_len as nat, |i: int| i),
    {
        let mut indices: Vec<usize> = Vec::new();
        let mut i: usize = 0;
        while i < source_len
            invariant
                i <= source_len,
                indices@.len() == i,
                forall|k: int| 0 <= k < i ==> indices@[k] == k,
            decreases source_len - i,
        {
            indices.push(i);
            i = i + 1;
        }
        assert(indices@.map_values(|i: usize| i as int) =~= Seq::new(
            source_len as nat,
            |i: int| i,
        ));
        indices
    }

    /// The view of a source of `source_len` items with no filter set.
    pub fn new(source_len: usize) -> (list: FilteredListView)
        ensures
            list@ == ListModel::unfiltered(source_len as nat),
            list.wf(),
    {
        let list = FilteredListView {
            source_len,
            pattern: String::new(),
            matches: Self::all_indices(source_len),
            selection: 0,
            scroll: 0,
            viewport_height: 0,
        };
        assert(list@.pattern =~= Seq::empty());
        list
    }

    /// Replaces the source by one of `source_len` items: every item becomes
    /// a match and the first one is selected. The scroll offset is left for
    /// the next scroll adjustment, the recorded pattern for the next
    /// computation of the matches.
    pub fn reload(&mut self, source_len: usize)
        ensures
            final(self)@ == old(self)@.reloaded(source_len as nat),
            final(self).wf(),
    {
        self.source_len = source_len;
        self.matches = Self::all_indices(source_len);
        self.selection = 0;
    }

    /// Checks the invariant at run time, for callers that Verus does not
    /// see.
    pub fn is_consistent(&self) -> (ok: bool)
        ensures
            ok == self.wf(),
    {
        let total = self.matches.len();
        let mut k: usize = 0;
        while k < total
            invariant
                k <= total,
                total == self.matches.len(),
                forall|i: int| 0 <= i < k ==> self.matches@[i] < self.source_len,
                forall|i: int, j: int| 0 <= i < j < k ==> self.matches@[i] < self.matches@[j],
            decreases total - k,
        {
            if self.matches[k] >= self.source_len {
                assert(!(self@.matches[k as int] < self@.source_len));
                return false;
            }
            if k > 0 && self.matches[k - 1] >= self.matches[k] {
                assert(!(self@.matches[k - 1] < self@.matches[k as int]));
                return false;
            }
            k = k + 1;
        }
        assert(is_ordered_subset(self@.matches, self@.source_len));
        if total == 0 {
            self.selection == 0
        } else {
            self.selection < total
        }
    }

    /// The position of the selected item among the matches.
    pub fn selection(&self) -> (selection: usize)
        ensures
            selection == self@.selection,
    {
        self.selection
    }

    /// The position of the first visible match.
    pub fn scroll(&self) -> (scroll: usize)
        ensures
            scroll == self@.scroll,
    {
        self.scroll
    }

    /// The number of rows of the viewport at the last scroll adjustment.
    pub fn viewport_height(&self) -> (rows: usize)
        ensures
            rows == self@.viewport_height,
    {
        self.viewport_height
    }

    /// The number of items of the source.
    pub fn source_len(&self) -> (len: usize)
        ensures
            len == self@.source_len,
    {
        self.source_len
    }

    /// The number of matches.
    pub fn len(&self) -> (len: usize)
        ensures
            len == self@.matches.len(),
    {
        self.matches.len()
    }

    pub fn is_empty(&self) -> (empty: bool)
        ensures
            empty == (self@.matches.len() == 0),
    {
        self.matches.len() == 0
    }

    /// The pattern that the matches were last computed for.
    pub fn pattern(&self) -> (pattern: &String)
        ensures
            pattern@ == self@.pattern,
    {
        &self.pattern
    }

    /// The source index of the match at `position`.
    pub fn source_index(&self, position: usize) -> (index: usize)
        requires
            position < self@.matches.len(),
        ensures
            index == self@.matches[position as int],
    {
        self.matches[position]
    }

    /// The source index of the selected item, if there is one.
    pub fn selected_source_index(&self) -> (index: Option<usize>)
        requires
            self.wf(),
        ensures
            match index {
                None => self@.matches.len() == 0,
                Some(i) => self@.matches.len() > 0 && i == self@.matches[self@.selection as int],
            },
    {
        if self.matches.len() == 0 {
            None
        } else {
            Some(self.matches[self.selection])
        }
    }

    /// Computes the matches anew for `pattern` over `names` and clamps the
    /// selection onto them.
    pub fn recompute(&mut self, names: &Vec<String>, pattern: &str)
        ensures
            final(self)@ == old(self)@.refiltered(texts(names@), pattern@),
            final(self).wf(),
    {
        let mut matches: Vec<usize> = Vec::new();
        let mut i: usize = 0;
        assert(match_flags(texts(names@).take(0), pattern@) =~= Seq::empty());
        while i < names.len()
            invariant
                i <= names.len(),
                matches@.map_values(|k: usize| k as int) == matching_indices(
                    texts(names@).take(i as int),
                    pattern@,
                ),
            decreases names.len() - i,
        {
            proof {
                let seen = match_flags(texts(names@).take(i + 1), pattern@);
                assert(seen.drop_last() =~= match_flags(texts(names@).take(i as int), pattern@));
                assert(seen.last() == fuzzy_matches(pattern@, names@[i as int]@));
            }
            let ghost before = matches@.map_values(|k: usize| k as int);
            if fuzzy_match(pattern, names[i].as_str()) {
                matches.push(i);
                assert(matches@.map_values(|k: usize| k as int) =~= before.push(i as int));
            }
            i = i + 1;
        }
        assert(texts(names@).take(names.len() as int) =~= texts(names@));
        proof {
            lemma_matching_indices(texts(names@), pattern@);
        }
        self.source_len = names.len();
        self.pattern = String::from_str(pattern);
        self.matches = matches;
        if self.matches.len() == 0 {
            self.selection = 0;
        } else if self.selection >= self.matches.len() {
            self.selection = self.matches.len() - 1;
        }
    }

    /// Computes the matches anew where that is due: while the user is
    /// filtering, and whenever `pattern` differs from the pattern of the
    /// last computation. Says whether it did.
    pub fn refresh(&mut self, names: &Vec<String>, pattern: &str, filtering: bool) -> (recomputed:
        bool)
        ensures
            recomputed == (filtering || pattern@ != old(self)@.pattern),
            final(self)@ == if recomputed {
                old(self)@.refiltered(texts(names@), pattern@)
            } else {
                old(self)@
            },
            recomputed ==> final(self).wf(),
    {
        let wanted = String::from_str(pattern);
        if filtering || wanted != self.pattern {
            self.recompute(names, pattern);
            true
        } else {
            false
        }
    }

    /// Fits the scroll window to a viewport of `viewport_height` rows so
    /// that the selection is visible.
    pub fn adjust_scroll(&mut self, viewport_height: usize)
        requires
            old(self).wf(),
        ensures
            final(self)@ == old(self)@.scrolled(viewport_height as nat),
            final(self).wf(),
            final(self)@.matches.len() <= viewport_height ==> final(self)@.scroll == 0,
            final(self)@.matches.len() > viewport_height ==> final(self)@.scroll
                <= final(self)@.selection && final(self)@.scroll + viewport_height
                <= final(self)@.matches.len(),
            final(self)@.matches.len() > viewport_height > 0 ==> final(self)@.selection
                < final(self)@.scroll + viewport_height,
    {
        proof {
            lemma_scroll_window(
                self@.selection,
                self@.scroll,
                viewport_height as nat,
                self@.matches.len(),
            );
        }
        let total = self.matches.len();
        let selection = self.selection;
        if viewport_height > 0 && selection >= self.scroll && selection - self.scroll
            >= viewport_height {
            self.scroll = selection - viewport_height + 1;
        }
        if selection < self.scroll {
            self.scroll = selection;
        }
        if total <= viewport_height {
            self.scroll = 0;
        } else if self.scroll > total - viewport_height {
            self.scroll = total - viewport_height;
        }
        self.viewport_height = viewport_height;
    }

    /// Moves the selection one match down; at the last match it stays.
    pub fn move_down(&mut self)
        requires
            old(self).wf(),
        ensures
            final(self)@ == old(self)@.moved_down(),
            final(self).wf(),
    {
        if self.matches.len() > 0 && self.selection < self.matches.len() - 1 {
            self.selection = self.selection + 1;
        }
    }

    /// Moves the selection one match up; at the first match it stays.
    pub fn move_up(&mut self)
        requires
            old(self).wf(),
        ensures
            final(self)@ == old(self)@.moved_up(),
            final(self).wf(),
    {
        if self.selection > 0 {
            self.selection = self.selection - 1;
        }
    }

    /// The positions `start..end` of the matches that the viewport shows.
    pub fn visible_range(&self) -> (range: (usize, usize))
        ensures
            range.0 == self@.visible_start(),
            range.1 == self@.visible_end(),
    {
        let total = self.matches.len();
        let end = if self.scroll < total && self.viewport_height < total - self.scroll {
            self.scroll + self.viewport_height
        } else {
            total
        };
        let start = if self.scroll < end {
            self.scroll
        } else {
            end
        };
        (start, end)
    }
}

} // verus!
