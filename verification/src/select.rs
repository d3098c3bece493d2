use vstd::prelude::*;

use crate::errors::ConvitError;

verus! {

/// The navigation operations a caller may request on the active list.
#[derive(Debug, Clone, Copy, PartialEq, Eq, Structural)]
pub enum NavigateOp {
    Next,
    Previous,
    Unselect,
    First,
    Last,
}

/// A cursor over an ordered, fixed sequence of catalog entries. The
/// backing sequence is set once at construction and never resized;
/// navigation only moves `selected` and records `last_selected`.
pub struct SelectableList<T> {
    /// The backing sequence of entries, in catalog order.
    pub items: Vec<T>,
    /// The entry the cursor rests on, if any.
    pub selected: Option<usize>,
    /// The index recorded by the latest deselection, where navigation
    /// resumes after `Unselect`.
    pub last_selected: Option<usize>,
}

/// Index one step forward from `i` with wrap-around at `len`.
pub open spec fn next_index(i: int, len: int) -> int {
    if i + 1 < len {
        i + 1
    } else {
        0
    }
}

/// Index one step backward from `i` with wrap-around at `len`.
pub open spec fn prev_index(i: int, len: int) -> int {
    if i == 0 {
        len - 1
    } else {
        i - 1
    }
}

/// Where navigation resumes when nothing is selected: the recorded
/// `last_selected`, or index 0 when none was ever recorded.
pub open spec fn resume_index(last: Option<usize>) -> usize {
    match last {
        Some(j) => j,
        None => 0,
    }
}

impl<T> SelectableList<T> {
    /// Both cursor fields stay inside the backing sequence.
    pub open spec fn wf(self) -> bool {
        &&& (self.selected is Some ==> (self.selected->0 as int) < self.items@.len())
        &&& (self.last_selected is Some ==> (self.last_selected->0 as int) < self.items@.len())
    }

    /// The index selected after one `Next` from this state.
    pub open spec fn next_target(self) -> usize {
        match self.selected {
            Some(i) => next_index(i as int, self.items@.len() as int) as usize,
            None => resume_index(self.last_selected),
        }
    }

    /// The index selected after one `Previous` from this state.
    pub open spec fn prev_target(self) -> usize {
        match self.selected {
            Some(i) => prev_index(i as int, self.items@.len() as int) as usize,
            None => resume_index(self.last_selected),
        }
    }

    /// What `last_selected` holds after one `Unselect` from this state:
    /// the current selection when there is one, else the old record.
    pub open spec fn unselect_record(self) -> Option<usize> {
        if self.selected is Some {
            self.selected
        } else {
            self.last_selected
        }
    }

    pub fn new(items: Vec<T>) -> (r: Self)
        ensures
            r.items@ == items@,
            r.selected is None,
            r.last_selected is None,
            r.wf(),
    {
        SelectableList { items, selected: None, last_selected: None }
    }

    pub fn len(&self) -> (n: usize)
        ensures
            n == self.items@.len(),
    {
        self.items.len()
    }

    /// The index the cursor rests on, if any.
    pub fn selected_index(&self) -> (r: Option<usize>)
        ensures
            r == self.selected,
    {
        self.selected
    }

    /// Advance the cursor one entry forward, wrapping past the end; from
    /// a deselected state, resume at `last_selected` or index 0. Fails
    /// only on an empty backing sequence.
    pub fn next(&mut self) -> (r: Result<(), ConvitError>)
        requires
            old(self).wf(),
        ensures
            nav_rel(*old(self), *final(self), NavigateOp::Next, r),
            final(self).wf(),
    {
        let len = self.items.len();
        if len == 0 {
            return Err(ConvitError::EmptyList);
        }
        let target: usize = match self.selected {
            Some(i) => if i + 1 < len {
                i + 1
            } else {
                0
            },
            None => match self.last_selected {
                Some(j) => j,
                None => 0,
            },
        };
        self.selected = Some(target);
        Ok(())
    }

    /// Move the cursor one entry backward, wrapping past the start; from
    /// a deselected state, resume at `last_selected` or index 0. Fails
    /// only on an empty backing sequence.
    pub fn previous(&mut self) -> (r: Result<(), ConvitError>)
        requires
            old(self).wf(),
        ensures
            nav_rel(*old(self), *final(self), NavigateOp::Previous, r),
            final(self).wf(),
    {
        let len = self.items.len();
        if len == 0 {
            return Err(ConvitError::EmptyList);
        }
        let target: usize = match self.selected {
            Some(i) => if i == 0 {
                len - 1
            } else {
                i - 1
            },
            None => match self.last_selected {
                Some(j) => j,
                None => 0,
            },
        };
        self.selected = Some(target);
        Ok(())
    }

    /// Drop the selection, recording it in `last_selected` so that the
    /// next navigation resumes there. Fails only on an empty backing
    /// sequence.
    pub fn unselect(&mut self) -> (r: Result<(), ConvitError>)
        requires
            old(self).wf(),
        ensures
            nav_rel(*old(self), *final(self), NavigateOp::Unselect, r),
            final(self).wf(),
    {
        if self.items.len() == 0 {
            return Err(ConvitError::EmptyList);
        }
        if self.selected.is_some() {
            self.last_selected = self.selected;
        }
        self.selected = None;
        Ok(())
    }

    /// Jump the cursor to index 0. Fails only on an empty backing sequence.
    pub fn select_first(&mut self) -> (r: Result<(), ConvitError>)
        requires
            old(self).wf(),
        ensures
            nav_rel(*old(self), *final(self), NavigateOp::First, r),
            final(self).wf(),
    {
        if self.items.len() == 0 {
            return Err(ConvitError::EmptyList);
        }
        self.selected = Some(0);
        Ok(())
    }

    /// Jump the cursor to the last index. Fails only on an empty backing
    /// sequence.
    pub fn select_last(&mut self) -> (r: Result<(), ConvitError>)
        requires
            old(self).wf(),
        ensures
            nav_rel(*old(self), *final(self), NavigateOp::Last, r),
            final(self).wf(),
    {
        let len = self.items.len();
        if len == 0 {
            return Err(ConvitError::EmptyList);
        }
        self.selected = Some(len - 1);
        Ok(())
    }

    /// Apply one navigation operation to this list.
    pub fn apply(&mut self, op: NavigateOp) -> (r: Result<(), ConvitError>)
        requires
            old(self).wf(),
        ensures
            nav_rel(*old(self), *final(self), op, r),
            final(self).wf(),
    {
        match op {
            NavigateOp::Next => self.next(),
            NavigateOp::Previous => self.previous(),
            NavigateOp::Unselect => self.unselect(),
            NavigateOp::First => self.select_first(),
            NavigateOp::Last => self.select_last(),
        }
    }
}

/// Exactly how one navigation operation takes a list from `pre` to `post`
/// and what it returns: on an empty backing sequence every operation fails
/// with `EmptyList` and changes nothing; otherwise it succeeds, the
/// backing sequence is untouched, and the cursor fields move as the
/// operation prescribes.
pub open spec fn nav_rel<T>(
    pre: SelectableList<T>,
    post: SelectableList<T>,
    op: NavigateOp,
    r: Result<(), ConvitError>,
) -> bool {
    &&& post.items@ == pre.items@
    &&& (pre.items@.len() == 0 ==> {
        &&& r == Err::<(), ConvitError>(ConvitError::EmptyList)
        &&& post.selected == pre.selected
        &&& post.last_selected == pre.last_selected
    })
    &&& (pre.items@.len() > 0 ==> {
        &&& r == Ok::<(), ConvitError>(())
        &&& (match op {
            NavigateOp::Next => {
                &&& post.selected == Some(pre.next_target())
                &&& post.last_selected == pre.last_selected
            },
            NavigateOp::Previous => {
                &&& post.selected == Some(pre.prev_target())
                &&& post.last_selected == pre.last_selected
            },
            NavigateOp::Unselect => {
                &&& post.selected is None
                &&& post.last_selected == pre.unselect_record()
            },
            NavigateOp::First => {
                &&& post.selected == Some(0usize)
                &&& post.last_selected == pre.last_selected
            },
            NavigateOp::Last => {
                &&& post.selected == Some((pre.items@.len() - 1) as usize)
                &&& post.last_selected == pre.last_selected
            },
        })
    })
}

/// The state after one successful `next()`: exactly what `nav_rel`
/// prescribes for `NavigateOp::Next` on a non-empty list.
pub open spec fn after_next<T>(l: SelectableList<T>) -> SelectableList<T> {
    SelectableList { items: l.items, selected: Some(l.next_target()), last_selected: l.last_selected }
}

/// The state after one successful `previous()`: exactly what `nav_rel`
/// prescribes for `NavigateOp::Previous` on a non-empty list.
pub open spec fn after_previous<T>(l: SelectableList<T>) -> SelectableList<T> {
    SelectableList { items: l.items, selected: Some(l.prev_target()), last_selected: l.last_selected }
}

/// The state after `k` successful `next()` steps.
pub open spec fn after_nexts<T>(l: SelectableList<T>, k: nat) -> SelectableList<T>
    decreases k,
{
    if k == 0 {
        l
    } else {
        after_next(after_nexts(l, (k - 1) as nat))
    }
}

/// The selection index reached from `i` by `k` successive forward steps
/// over a list of length `len`.
pub open spec fn nexts_from(i: int, len: int, k: nat) -> int
    decreases k,
{
    if k == 0 {
        i
    } else {
        next_index(nexts_from(i, len, (k - 1) as nat), len)
    }
}

/// `k` forward steps from `i` land on `i + k`, reduced once past the end:
/// the closed form of `nexts_from` while `k` stays within one lap.
proof fn lemma_nexts_from_closed_form(i: int, len: int, k: nat)
    requires
        0 <= i < len,
        k <= len,
    ensures
        nexts_from(i, len, k) == if i + k < len {
            i + k
        } else {
            i + k - len
        },
    decreases k,
{
    if k > 0 {
        lemma_nexts_from_closed_form(i, len, (k - 1) as nat);
    }
}

/// A backing sequence is the view of a `Vec`, so its length fits a
/// `usize` and index arithmetic on it never truncates.
proof fn lemma_len_fits<T>(l: SelectableList<T>)
    ensures
        l.items@.len() <= usize::MAX,
{
    broadcast use vstd::std_specs::vec::group_vec_axioms;

    assert(vstd::std_specs::vec::spec_vec_len(&l.items) == l.items@.len());
}

/// Repeated `next()` steps keep the backing sequence and the deselection
/// record, keep the list well formed, and move the selection along
/// `nexts_from`.
proof fn lemma_after_nexts_props<T>(l: SelectableList<T>, k: nat)
    requires
        l.wf(),
        l.selected is Some,
    ensures
        after_nexts(l, k).items == l.items,
        after_nexts(l, k).last_selected == l.last_selected,
        after_nexts(l, k).selected is Some,
        after_nexts(l, k).selected->0 as int == nexts_from(
            l.selected->0 as int,
            l.items@.len() as int,
            k,
        ),
        0 <= nexts_from(l.selected->0 as int, l.items@.len() as int, k) < l.items@.len(),
        after_nexts(l, k).wf(),
    decreases k,
{
    lemma_len_fits(l);
    if k > 0 {
        lemma_after_nexts_props(l, (k - 1) as nat);
        let m = after_nexts(l, (k - 1) as nat);
        let i = l.selected->0 as int;
        let len = l.items@.len() as int;
        assert(after_nexts(l, k) == after_next(m));
        assert(nexts_from(i, len, k) == next_index(nexts_from(i, len, (k - 1) as nat), len));
        assert(m.next_target() == next_index(m.selected->0 as int, len) as usize);
    }
}

/// Cyclic navigation: from any selected state of a non-empty list of
/// length `n`, `n` successful `next()` steps return the selection to
/// where it started, with the backing sequence and the deselection
/// record untouched.
pub proof fn lemma_next_full_cycle<T>(l: SelectableList<T>)
    requires
        l.wf(),
        l.selected is Some,
    ensures
        after_nexts(l, l.items@.len() as nat).selected == l.selected,
        after_nexts(l, l.items@.len() as nat).items == l.items,
        after_nexts(l, l.items@.len() as nat).last_selected == l.last_selected,
{
    let len = l.items@.len() as int;
    lemma_after_nexts_props(l, len as nat);
    lemma_nexts_from_closed_form(l.selected->0 as int, len, len as nat);
}

/// One `previous()` undoes one `next()`, on either side of the wrap
/// boundary, and both steps keep the index inside `[0, len)`.
pub proof fn lemma_previous_undoes_next(i: int, len: int)
    requires
        0 <= i < len,
    ensures
        prev_index(next_index(i, len), len) == i,
        0 <= next_index(i, len) < len,
        0 <= prev_index(i, len) < len,
{
}

/// At the list level: from any selected state, one successful `next()`
/// followed by one successful `previous()` restores the whole state.
pub proof fn lemma_previous_undoes_next_list<T>(l: SelectableList<T>)
    requires
        l.wf(),
        l.selected is Some,
    ensures
        after_previous(after_next(l)).selected == l.selected,
        after_previous(after_next(l)).items == l.items,
        after_previous(after_next(l)).last_selected == l.last_selected,
{
    lemma_len_fits(l);
    lemma_previous_undoes_next(l.selected->0 as int, l.items@.len() as int);
}

/// After `Unselect`, the next `Next` resumes at the index that was
/// selected when the deselection happened, or at index 0 when nothing was
/// ever selected.
pub proof fn lemma_unselect_then_next_resumes<T>(
    pre: SelectableList<T>,
    mid: SelectableList<T>,
    fin: SelectableList<T>,
)
    requires
        pre.wf(),
        pre.items@.len() > 0,
        nav_rel(pre, mid, NavigateOp::Unselect, Ok::<(), ConvitError>(())),
        nav_rel(mid, fin, NavigateOp::Next, Ok::<(), ConvitError>(())),
    ensures
        pre.selected is Some ==> fin.selected == pre.selected,
        pre.selected is None && pre.last_selected is None ==> fin.selected == Some(0usize),
{
}

} // verus!
