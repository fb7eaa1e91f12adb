//! The history of lines entered, each non-empty value recorded once.

use vstd::prelude::*;
use vstd::string::*;

use crate::text::str_eq;

verus! {

/// Lines entered, in the order in which they were first entered.
#[derive(Debug)]
pub struct History {
    entries: Vec<String>,
}

impl View for History {
    type V = Seq<Seq<char>>;

    closed spec fn view(&self) -> Seq<Seq<char>> {
        self.entries@.map_values(|s: String| s@)
    }
}

/// No entry is empty, and no value is recorded twice.
pub open spec fn history_wf(h: Seq<Seq<char>>) -> bool {
    &&& forall|i: int| 0 <= i < h.len() ==> #[trigger] h[i].len() > 0
    &&& forall|i: int, j: int| 0 <= i < j < h.len() ==> h[i] != h[j]
}

/// Whether entering `line` adds it: it is non-empty and not yet recorded.
pub open spec fn is_new_entry(h: Seq<Seq<char>>, line: Seq<char>) -> bool {
    line.len() > 0 && !h.contains(line)
}

/// The history after `line` is entered.
pub open spec fn recorded(h: Seq<Seq<char>>, line: Seq<char>) -> Seq<Seq<char>> {
    if is_new_entry(h, line) {
        h.push(line)
    } else {
        h
    }
}

impl History {
    /// An empty history.
    pub fn new() -> (r: History)
        ensures
            r@ == Seq::<Seq<char>>::empty(),
    {
        let r = History { entries: Vec::new() };
        assert(r@ =~= Seq::<Seq<char>>::empty());
        r
    }

    /// The number of entries.
    pub fn len(&self) -> (r: usize)
        ensures
            r == self@.len(),
    {
        self.entries.len()
    }

    /// The entry at `i`.
    pub fn get(&self, i: usize) -> (r: &str)
        requires
            i < self@.len(),
        ensures
            r@ == self@[i as int],
    {
        self.entries[i].as_str()
    }

    /// Records an entered line unless it is empty or already recorded, and
    /// says whether it was added.
    pub fn record(&mut self, line: &str) -> (added: bool)
        requires
            history_wf(old(self)@),
        ensures
            added == is_new_entry(old(self)@, line@),
            final(self)@ == recorded(old(self)@, line@),
            history_wf(final(self)@),
    {
        if line.unicode_len() == 0 {
            return false;
        }
        let mut i: usize = 0;
        while i < self.entries.len()
            invariant
                i <= self@.len(),
                self@.len() == self.entries@.len(),
                self@ == old(self)@,
                history_wf(self@),
                forall|j: int| 0 <= j < i ==> self@[j] != line@,
            decreases self@.len() - i,
        {
            if str_eq(self.entries[i].as_str(), line) {
                assert(self@[i as int] == line@);
                return false;
            }
            i = i + 1;
        }
        let ghost before = self@;
        self.entries.push(String::from_str(line));
        assert(self@ =~= before.push(line@));
        assert(!before.contains(line@));
        true
    }
}

/// Entering the same line twice in a row records it at most once: the second
/// entry changes nothing, and no value ever stands twice in the history.
pub proof fn lemma_record_twice(h: Seq<Seq<char>>, line: Seq<char>)
    requires
        history_wf(h),
    ensures
        recorded(recorded(h, line), line) == recorded(h, line),
        history_wf(recorded(recorded(h, line), line)),
{
    if is_new_entry(h, line) {
        assert(recorded(h, line).last() == line);
        assert(recorded(h, line).contains(line));
    }
    assert forall|i: int, j: int|
        0 <= i < j < recorded(h, line).len() implies recorded(h, line)[i] != recorded(
        h,
        line,
    )[j] by {
        if is_new_entry(h, line) && j == h.len() {
            assert(h.contains(h[i]));
        }
    }
}

} // verus!
