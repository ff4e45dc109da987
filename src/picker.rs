//! The windowed selection engine.
//!
//! A `Picker` tracks two cursors over a list of `total_items` entries shown in
//! a viewport of `height + 1` rows: the absolute selection (an index into the
//! whole list) and the relative selection (the viewport row that carries the
//! highlight). The first visible entry, the offset, is derived from the two.
use vstd::prelude::*;
use vstd::arithmetic::div_mod::{
    lemma_add_mod_noop_right, lemma_mod_add_multiples_vanish, lemma_mod_pos_bound, lemma_mod_self_0,
    lemma_small_mod,
};
use crate::input::Input;

verus! {

/// The cursors after one step towards the end of a list of `n` entries, from
/// absolute selection `s` and relative selection `r`, in a viewport of
/// `h + 1` rows. Wrapping round to the first entry pins the window to the top.
pub open spec fn advance(s: usize, r: usize, n: usize, h: usize) -> (usize, usize)
    recommends
        n > 0,
{
    let sel = ((s + 1) % (n as int)) as usize;
    let rel = if sel == 0 {
        0
    } else if r < h {
        (r + 1) as usize
    } else {
        h
    };
    (sel, rel)
}

/// The cursors after one step towards the start of a list of `n` entries.
/// Wrapping round to the last entry pins the window to the bottom.
pub open spec fn retreat(s: usize, r: usize, n: usize, h: usize) -> (usize, usize)
    recommends
        n > 0,
{
    let sel = ((s + n - 1) % (n as int)) as usize;
    let rel = if sel == n - 1 {
        h
    } else if r > 0 {
        (r - 1) as usize
    } else {
        0
    };
    (sel, rel)
}

/// The cursors after `select_next`: an inverted list steps towards its start.
pub open spec fn next_cursors(inverted: bool, s: usize, r: usize, n: usize, h: usize) -> (usize, usize) {
    if inverted {
        retreat(s, r, n, h)
    } else {
        advance(s, r, n, h)
    }
}

/// The cursors after `select_prev`: an inverted list steps towards its end.
pub open spec fn prev_cursors(inverted: bool, s: usize, r: usize, n: usize, h: usize) -> (usize, usize) {
    if inverted {
        advance(s, r, n, h)
    } else {
        retreat(s, r, n, h)
    }
}

/// The first visible entry: the absolute selection less the relative one,
/// at least zero, an unset cursor counting as zero.
pub open spec fn offset_of(selected: Option<usize>, relative: Option<usize>) -> usize {
    let s = selected.unwrap_or(0);
    let r = relative.unwrap_or(0);
    if s >= r {
        (s - r) as usize
    } else {
        0
    }
}

/// Stepping on from the last entry of a list of `n` entries wraps round to
/// the first entry and pins the window to the top, whatever the relative
/// selection was and whatever the height.
pub proof fn lemma_wrap_forward(n: usize, r: usize, h: usize)
    requires
        n > 0,
    ensures
        next_cursors(false, (n - 1) as usize, r, n, h) == (0usize, 0usize),
{
    lemma_mod_self_0(n as int);
}

/// Stepping back from the first entry of a list of `n` entries wraps round to
/// the last entry and pins the window to the bottom.
pub proof fn lemma_wrap_backward(n: usize, r: usize, h: usize)
    requires
        n > 0,
    ensures
        prev_cursors(false, 0, r, n, h) == ((n - 1) as usize, h),
{
    lemma_small_mod((n - 1) as nat, n as nat);
}

/// After a step in either direction, in either orientation, the absolute
/// selection lies in the list.
pub proof fn lemma_selection_in_list(inverted: bool, s: usize, r: usize, n: usize, h: usize)
    requires
        n > 0,
    ensures
        next_cursors(inverted, s, r, n, h).0 < n,
        prev_cursors(inverted, s, r, n, h).0 < n,
{
    lemma_mod_pos_bound(s + 1, n as int);
    lemma_mod_pos_bound(s + n - 1, n as int);
}

/// After a step towards the end of the list the relative selection lies in
/// the window of `h + 1` rows; after a step towards its start it does too,
/// provided that before the step it lay at most one row below the window.
pub proof fn lemma_relative_in_window(s: usize, r: usize, n: usize, h: usize)
    requires
        n > 0,
    ensures
        next_cursors(false, s, r, n, h).1 <= h,
        prev_cursors(true, s, r, n, h).1 <= h,
        r <= h + 1 ==> next_cursors(true, s, r, n, h).1 <= h,
        r <= h + 1 ==> prev_cursors(false, s, r, n, h).1 <= h,
{
}

/// In the uninverted orientation the window is pinned to the extremities:
/// after a step on, the highlight is on the top row exactly when the first
/// entry is selected (or the window has a single row); after a step back
/// taken with the highlight inside the window, the highlight is on the
/// bottom row exactly when the last entry is selected (or the window has a
/// single row).
pub proof fn lemma_window_pinned(s: usize, r: usize, n: usize, h: usize)
    requires
        n > 0,
    ensures
        ({
            let (sel, rel) = next_cursors(false, s, r, n, h);
            rel == 0 <==> (sel == 0 || h == 0)
        }),
        r <= h ==> ({
            let (sel, rel) = prev_cursors(false, s, r, n, h);
            rel == h <==> (sel == n - 1 || h == 0)
        }),
{
}

/// When both cursors are set and the relative one does not exceed the
/// absolute one, the offset is their difference; in any case the offset does
/// not exceed the absolute selection.
pub proof fn lemma_offset_consistent(selected: Option<usize>, relative: Option<usize>)
    ensures
        offset_of(selected, relative) <= selected.unwrap_or(0),
        selected is Some && relative is Some && relative.unwrap() <= selected.unwrap()
            ==> offset_of(selected, relative) == selected.unwrap() - relative.unwrap(),
{
}

/// Flipping the orientation swaps next and previous: a step to the next
/// entry of an inverted picker moves the cursors as a step to the previous
/// entry of the same picker uninverted, and the other way round.
pub proof fn lemma_inversion_swaps(inverted: bool, s: usize, r: usize, n: usize, h: usize)
    ensures
        next_cursors(!inverted, s, r, n, h) == prev_cursors(inverted, s, r, n, h),
        prev_cursors(!inverted, s, r, n, h) == next_cursors(inverted, s, r, n, h),
{
}

/// A selectable list shown through a window of bounded height.
pub struct Picker {
    /// The absolute selection: an index into the whole list.
    pub selected: Option<usize>,
    /// The relative selection: the highlighted row of the window.
    pub relative_selected: Option<usize>,
    /// Whether the list is shown from bottom to top, which swaps the meaning
    /// of next and previous.
    pub inverted: bool,
    /// The query box that filters the list.
    pub input: Input,
}

impl Default for Picker {
    fn default() -> (r: Picker)
        ensures
            r.selected is None,
            r.relative_selected is None,
            !r.inverted,
            r.input.text() == Seq::<char>::empty(),
    {
        Picker::new()
    }
}

impl Picker {
    /// A picker with nothing selected, not inverted, and an empty query.
    pub fn new() -> (r: Picker)
        ensures
            r.selected is None,
            r.relative_selected is None,
            !r.inverted,
            r.input.text() == Seq::<char>::empty(),
    {
        Picker {
            selected: None,
            relative_selected: None,
            inverted: false,
            input: Input::new(String::new()),
        }
    }

    /// The index of the first visible entry.
    pub fn offset(&self) -> (r: usize)
        ensures
            r == offset_of(self.selected, self.relative_selected),
    {
        let s = self.selected.unwrap_or(0);
        let r = self.relative_selected.unwrap_or(0);
        s.saturating_sub(r)
    }

    /// The same picker with the inversion flag flipped.
    pub fn inverted(self) -> (r: Picker)
        ensures
            r.selected == self.selected,
            r.relative_selected == self.relative_selected,
            r.inverted == !self.inverted,
            r.input == self.input,
    {
        let mut p = self;
        p.inverted = !p.inverted;
        p
    }

    /// Puts both cursors back on the first entry.
    pub fn reset_selection(&mut self)
        ensures
            final(self).selected == Some(0usize),
            final(self).relative_selected == Some(0usize),
            final(self).inverted == old(self).inverted,
            final(self).input == old(self).input,
    {
        self.selected = Some(0);
        self.relative_selected = Some(0);
    }

    /// Empties the query box; the cursors are left as they are.
    pub fn reset_input(&mut self)
        ensures
            final(self).selected == old(self).selected,
            final(self).relative_selected == old(self).relative_selected,
            final(self).inverted == old(self).inverted,
            final(self).input.text() == Seq::<char>::empty(),
            final(self).input.cursor() == 0,
    {
        self.input.reset();
    }

    /// The absolute selection.
    pub fn selected(&self) -> (r: Option<usize>)
        ensures
            r == self.selected,
    {
        self.selected
    }

    /// Sets the absolute selection, unchecked.
    pub fn select(&mut self, index: Option<usize>)
        ensures
            final(self).selected == index,
            final(self).relative_selected == old(self).relative_selected,
            final(self).inverted == old(self).inverted,
            final(self).input == old(self).input,
    {
        self.selected = index;
    }

    /// The relative selection.
    pub fn relative_selected(&self) -> (r: Option<usize>)
        ensures
            r == self.relative_selected,
    {
        self.relative_selected
    }

    /// Sets the relative selection, unchecked.
    pub fn relative_select(&mut self, index: Option<usize>)
        ensures
            final(self).selected == old(self).selected,
            final(self).relative_selected == index,
            final(self).inverted == old(self).inverted,
            final(self).input == old(self).input,
    {
        self.relative_selected = index;
    }

    /// Moves the highlight to the next entry as the list is shown: towards
    /// the end of the list, or towards its start when the list is inverted,
    /// wrapping round at either extremity. `total_items` is the current length
    /// of the list and `height + 1` the number of rows of the window. An empty
    /// list leaves both cursors as they are.
    pub fn select_next(&mut self, total_items: usize, height: usize)
        ensures
            total_items == 0 ==> final(self).selected == old(self).selected
                && final(self).relative_selected == old(self).relative_selected,
            total_items > 0 ==> ({
                let (s, r) = next_cursors(
                    old(self).inverted,
                    old(self).selected.unwrap_or(0),
                    old(self).relative_selected.unwrap_or(0),
                    total_items,
                    height,
                );
                final(self).selected == Some(s) && final(self).relative_selected == Some(r)
            }),
            final(self).inverted == old(self).inverted,
            final(self).input == old(self).input,
    {
        if total_items == 0 {
            return;
        }
        if self.inverted {
            self.step_back(total_items, height);
        } else {
            self.step_forward(total_items, height);
        }
    }

    /// Moves the highlight to the previous entry as the list is shown: towards
    /// the start of the list, or towards its end when the list is inverted,
    /// wrapping round at either extremity. An empty list leaves both cursors
    /// as they are.
    pub fn select_prev(&mut self, total_items: usize, height: usize)
        ensures
            total_items == 0 ==> final(self).selected == old(self).selected
                && final(self).relative_selected == old(self).relative_selected,
            total_items > 0 ==> ({
                let (s, r) = prev_cursors(
                    old(self).inverted,
                    old(self).selected.unwrap_or(0),
                    old(self).relative_selected.unwrap_or(0),
                    total_items,
                    height,
                );
                final(self).selected == Some(s) && final(self).relative_selected == Some(r)
            }),
            final(self).inverted == old(self).inverted,
            final(self).input == old(self).input,
    {
        if total_items == 0 {
            return;
        }
        if self.inverted {
            self.step_forward(total_items, height);
        } else {
            self.step_back(total_items, height);
        }
    }

    /// Moves the selection one entry on, whatever the orientation: towards
    /// the end of the list, or round to its start.
    fn step_forward(&mut self, total_items: usize, height: usize)
        requires
            total_items > 0,
        ensures
            ({
                let (s, r) = advance(
                    old(self).selected.unwrap_or(0),
                    old(self).relative_selected.unwrap_or(0),
                    total_items,
                    height,
                );
                final(self).selected == Some(s) && final(self).relative_selected == Some(r)
            }),
            final(self).inverted == old(self).inverted,
            final(self).input == old(self).input,
    {
        let s = self.selected.unwrap_or(0);
        let r = self.relative_selected.unwrap_or(0);
        let t = s % total_items;
        let next = if t + 1 == total_items {
            0
        } else {
            t + 1
        };
        proof {
            let n = total_items as int;
            lemma_add_mod_noop_right(1, s as int, n);
            if t + 1 == total_items {
                lemma_mod_self_0(n);
            } else {
                lemma_small_mod((t + 1) as nat, n as nat);
            }
        }
        self.selected = Some(next);
        self.relative_selected = Some(
            if r < height {
                r + 1
            } else {
                height
            },
        );
        if next == 0 {
            self.relative_selected = Some(0);
        }
    }

    /// Moves the selection one entry back, whatever the orientation: towards
    /// the start of the list, or round to its end.
    fn step_back(&mut self, total_items: usize, height: usize)
        requires
            total_items > 0,
        ensures
            ({
                let (s, r) = retreat(
                    old(self).selected.unwrap_or(0),
                    old(self).relative_selected.unwrap_or(0),
                    total_items,
                    height,
                );
                final(self).selected == Some(s) && final(self).relative_selected == Some(r)
            }),
            final(self).inverted == old(self).inverted,
            final(self).input == old(self).input,
    {
        let s = self.selected.unwrap_or(0);
        let r = self.relative_selected.unwrap_or(0);
        let t = s % total_items;
        let prev = if t == 0 {
            total_items - 1
        } else {
            t - 1
        };
        proof {
            let n = total_items as int;
            lemma_add_mod_noop_right(n - 1, s as int, n);
            if t == 0 {
                lemma_small_mod((n - 1) as nat, n as nat);
            } else {
                lemma_mod_add_multiples_vanish(t - 1, n);
                lemma_small_mod((t - 1) as nat, n as nat);
            }
        }
        self.selected = Some(prev);
        self.relative_selected = Some(r.saturating_sub(1));
        if prev == total_items - 1 {
            self.relative_selected = Some(height);
        }
    }
}

} // verus!
