use vstd::prelude::*;

verus! {

/// The titles of the tabs and the position of the selected one.
#[derive(Debug)]
pub struct TabsState<'a> {
    pub titles: Vec<&'a str>,
    pub index: usize,
}

impl<'a> TabsState<'a> {
    /// The selection points at one of the titles.
    pub open spec fn wf(&self) -> bool {
        self.index < self.titles@.len()
    }

    /// The position that follows `index` among `len` tabs, wrapping to the first.
    pub open spec fn spec_next(index: int, len: int) -> int {
        (index + 1) % len
    }

    /// The position that precedes `index` among `len` tabs, wrapping to the last.
    pub open spec fn spec_previous(index: int, len: int) -> int {
        if index > 0 {
            index - 1
        } else {
            len - 1
        }
    }

    /// A tab bar with the first title selected.
    pub fn new(titles: Vec<&'a str>) -> (tabs: Self)
        ensures
            tabs.titles == titles,
            tabs.index == 0,
            titles@.len() > 0 ==> tabs.wf(),
    {
        Self { titles, index: 0 }
    }

    /// Selects the tab to the right, wrapping from the last to the first.
    pub fn next(&mut self)
        requires
            old(self).titles@.len() > 0,
            old(self).index < usize::MAX,
        ensures
            final(self).titles == old(self).titles,
            final(self).index == Self::spec_next(
                old(self).index as int,
                old(self).titles@.len() as int,
            ),
            old(self).index + 1 < old(self).titles@.len() ==> final(self).index == old(self).index
                + 1,
            old(self).index + 1 == old(self).titles@.len() ==> final(self).index == 0,
            final(self).wf(),
    {
        let len: usize = self.titles.len();
        proof {
            let i = self.index as int;
            if i + 1 < len {
                vstd::arithmetic::div_mod::lemma_small_mod((i + 1) as nat, len as nat);
            } else if i + 1 == len {
                vstd::arithmetic::div_mod::lemma_mod_self_0(len as int);
            }
        }
        self.index = (self.index + 1) % len;
    }

    /// Selects the tab to the left, wrapping from the first to the last.
    pub fn previous(&mut self)
        requires
            old(self).titles@.len() > 0,
        ensures
            final(self).titles == old(self).titles,
            final(self).index == Self::spec_previous(
                old(self).index as int,
                old(self).titles@.len() as int,
            ),
            old(self).wf() ==> final(self).wf(),
    {
        if self.index > 0 {
            self.index -= 1;
        } else {
            self.index = self.titles.len() - 1;
        }
    }
}

/// Stepping right and then left returns to the tab one started from.
pub proof fn lemma_next_then_previous(index: int, len: int)
    requires
        0 <= index < len,
    ensures
        TabsState::spec_previous(TabsState::spec_next(index, len), len) == index,
{
    if index + 1 < len {
        assert((index + 1) % len == index + 1) by (nonlinear_arith)
            requires
                0 <= index + 1 < len,
        ;
    } else {
        assert((index + 1) % len == 0) by (nonlinear_arith)
            requires
                index + 1 == len,
                len > 0,
        ;
    }
}

/// Stepping left and then right returns to the tab one started from.
pub proof fn lemma_previous_then_next(index: int, len: int)
    requires
        0 <= index < len,
    ensures
        TabsState::spec_next(TabsState::spec_previous(index, len), len) == index,
{
    if index > 0 {
        assert((index - 1 + 1) % len == index) by (nonlinear_arith)
            requires
                0 <= index < len,
        ;
    } else {
        assert((len - 1 + 1) % len == 0) by (nonlinear_arith)
            requires
                len > 0,
        ;
    }
}

} // verus!
