//! The highlighted candidate and its page, for a list the daemon pages:
//! the panel shows `page_size` cells per page from index 0, and the engine
//! only tells it which absolute index is highlighted. A "page" is a fixed
//! run of cells.
//!
//! Horizontal: `Down` / `PageDown` step a page, `Right` / `Next` a cell.
//! Vertical: the arrows turn — `Up` / `Down` step a cell, `Left` / `Right`
//! a page. A step past either end is refused (the highlight stays).

use vstd::prelude::*;

verus! {

/// The six directions a key or the panel can move the highlight in, plus
/// the two cell steps the panel's own buttons send.
#[derive(Clone, Copy, Debug, PartialEq, Eq, Structural)]
pub enum CandidateNavigation {
    Up,
    Down,
    Left,
    Right,
    PageUp,
    PageDown,
    PreviousCandidate,
    NextCandidate,
}

/// The page that holds `selected`.
pub open spec fn page_of(selected: nat, page_size: nat) -> nat
    recommends
        page_size >= 1,
{
    selected / page_size
}

/// How many pages `count` cells fill (the last one may be short).
pub open spec fn page_count_of(count: nat, page_size: nat) -> nat
    recommends
        page_size >= 1,
{
    ((count + page_size - 1) / (page_size as int)) as nat
}

/// A column has no cell beside a cell, so the horizontal arrows page and
/// the vertical ones step a cell; the panel's buttons are unchanged.
pub open spec fn column_direction_of(direction: CandidateNavigation) -> CandidateNavigation {
    match direction {
        CandidateNavigation::Up => CandidateNavigation::PreviousCandidate,
        CandidateNavigation::Down => CandidateNavigation::NextCandidate,
        CandidateNavigation::Left => CandidateNavigation::PageUp,
        CandidateNavigation::Right => CandidateNavigation::PageDown,
        other => other,
    }
}

/// The direction as the list is drawn: turned for a column.
pub open spec fn effective_direction(
    direction: CandidateNavigation,
    vertical: bool,
) -> CandidateNavigation {
    if vertical {
        column_direction_of(direction)
    } else {
        direction
    }
}

/// The keys that step one cell forward: `Next`, and `Right` across or
/// `Down` in a column.
pub open spec fn cell_forward(direction: CandidateNavigation, vertical: bool) -> bool {
    direction is NextCandidate || (!vertical && direction is Right) || (vertical
        && direction is Down)
}

/// The keys that step one cell back: `Previous`, and `Left` across or `Up`
/// in a column.
pub open spec fn cell_back(direction: CandidateNavigation, vertical: bool) -> bool {
    direction is PreviousCandidate || (!vertical && direction is Left) || (vertical
        && direction is Up)
}

/// Where `direction` moves the highlight from `selected`, `None` when the
/// step is refused (an empty list, or past either end).
pub open spec fn target_of(
    count: nat,
    page_size: nat,
    selected: nat,
    direction: CandidateNavigation,
) -> Option<nat> {
    if count == 0 {
        None
    } else {
        match direction {
            CandidateNavigation::Right | CandidateNavigation::NextCandidate => {
                if selected + 1 < count {
                    Some((selected + 1) as nat)
                } else {
                    None
                }
            },
            CandidateNavigation::Left | CandidateNavigation::PreviousCandidate => {
                if selected >= 1 {
                    Some((selected - 1) as nat)
                } else {
                    None
                }
            },
            CandidateNavigation::Down | CandidateNavigation::PageDown => {
                if page_of(selected, page_size) + 1 < page_count_of(count, page_size) {
                    if selected + page_size <= count - 1 {
                        Some((selected + page_size) as nat)
                    } else {
                        Some((count - 1) as nat)
                    }
                } else {
                    None
                }
            },
            CandidateNavigation::Up | CandidateNavigation::PageUp => {
                if page_of(selected, page_size) >= 1 {
                    Some((selected - page_size) as nat)
                } else {
                    None
                }
            },
        }
    }
}

/// The absolute index the `slot`-th position of the page holding
/// `selected` addresses, `None` past the page or past the list's end.
pub open spec fn slot_index_of(count: nat, page_size: nat, selected: nat, slot: nat) -> Option<
    nat,
> {
    if slot >= page_size {
        None
    } else if page_of(selected, page_size) * page_size + slot < count {
        Some(page_of(selected, page_size) * page_size + slot)
    } else {
        None
    }
}

#[derive(Clone, Debug, PartialEq, Eq, Structural)]
pub struct LookupSelection {
    count: usize,
    page_size: usize,
    selected: usize,
}

impl LookupSelection {
    /// The page size is at least one, and the highlight is a cell of the
    /// list (index 0 for an empty list).
    pub closed spec fn well_formed(self) -> bool {
        &&& self.page_size >= 1
        &&& (self.count > 0 ==> self.selected < self.count)
        &&& (self.count == 0 ==> self.selected == 0)
    }

    pub closed spec fn spec_count(self) -> nat {
        self.count as nat
    }

    pub closed spec fn spec_page_size(self) -> nat {
        self.page_size as nat
    }

    pub closed spec fn spec_selected(self) -> nat {
        self.selected as nat
    }

    /// A list of `count` cells, `page_size` per page (at least one), the
    /// first cell highlighted.
    pub fn new(count: usize, page_size: usize) -> (selection: Self)
        ensures
            selection.well_formed(),
            selection.spec_count() == count,
            selection.spec_page_size() == if page_size >= 1 {
                page_size as nat
            } else {
                1
            },
            selection.spec_selected() == 0,
    {
        let page_size = if page_size >= 1 {
            page_size
        } else {
            1
        };
        LookupSelection { count, page_size, selected: 0 }
    }

    /// The highlighted absolute index, `None` for an empty list.
    pub fn selected_index(&self) -> (index: Option<usize>)
        requires
            self.well_formed(),
        ensures
            index == if self.spec_count() > 0 {
                Some(self.spec_selected() as usize)
            } else {
                None::<usize>
            },
            index matches Some(i) ==> i < self.spec_count(),
    {
        if self.count > 0 {
            Some(self.selected)
        } else {
            None
        }
    }

    pub fn current_page(&self) -> (page: usize)
        requires
            self.well_formed(),
        ensures
            page == page_of(self.spec_selected(), self.spec_page_size()),
    {
        self.selected / self.page_size
    }

    fn page_count(&self) -> (pages: usize)
        requires
            self.well_formed(),
        ensures
            pages == page_count_of(self.spec_count(), self.spec_page_size()),
    {
        let full = self.count / self.page_size;
        if self.count % self.page_size == 0 {
            proof {
                lemma_page_count_exact(self.count as nat, self.page_size as nat);
            }
            full
        } else {
            proof {
                lemma_page_count_partial(self.count as nat, self.page_size as nat);
            }
            full + 1
        }
    }

    /// The absolute index the `slot`-th key on the current page addresses,
    /// `None` past the end of a short last page.
    pub fn candidate_index_for_key_slot(&self, slot: usize) -> (index: Option<usize>)
        requires
            self.well_formed(),
        ensures
            index == match slot_index_of(
                self.spec_count(),
                self.spec_page_size(),
                self.spec_selected(),
                slot as nat,
            ) {
                Some(i) => Some(i as usize),
                None => None::<usize>,
            },
            index matches Some(i) ==> i < self.spec_count(),
            ({
                let first = self.spec_selected() / self.spec_page_size() * self.spec_page_size();
                index == if slot < self.spec_page_size() && first + slot < self.spec_count() {
                    Some((first + slot) as usize)
                } else {
                    None::<usize>
                }
            }),
    {
        if slot >= self.page_size {
            return None;
        }
        let page = self.current_page();
        proof {
            lemma_page_start_le(self.selected as nat, self.page_size as nat);
        }
        let start = page * self.page_size;
        if slot < self.count - start {
            Some(start + slot)
        } else {
            None
        }
    }

    /// The absolute index of the `position`-th cell on the current page —
    /// what the panel reports for a click.
    pub fn candidate_index_on_page(&self, position: usize) -> (index: Option<usize>)
        requires
            self.well_formed(),
        ensures
            index == match slot_index_of(
                self.spec_count(),
                self.spec_page_size(),
                self.spec_selected(),
                position as nat,
            ) {
                Some(i) => Some(i as usize),
                None => None::<usize>,
            },
            index matches Some(i) ==> i < self.spec_count(),
    {
        self.candidate_index_for_key_slot(position)
    }

    /// Highlights `index` when it is a cell of the list; otherwise nothing
    /// changes.
    pub fn select(&mut self, index: usize)
        requires
            old(self).well_formed(),
        ensures
            final(self).well_formed(),
            final(self).spec_count() == old(self).spec_count(),
            final(self).spec_page_size() == old(self).spec_page_size(),
            final(self).spec_selected() == if index < old(self).spec_count() {
                index as nat
            } else {
                old(self).spec_selected()
            },
    {
        if index < self.count {
            self.selected = index;
        }
    }

    /// Answers whether the highlight moved. `vertical` = the panel draws the
    /// list as a column.
    pub fn navigate(&mut self, direction: CandidateNavigation, vertical: bool) -> (moved: bool)
        requires
            old(self).well_formed(),
        ensures
            final(self).well_formed(),
            final(self).spec_count() == old(self).spec_count(),
            final(self).spec_page_size() == old(self).spec_page_size(),
            match target_of(
                old(self).spec_count(),
                old(self).spec_page_size(),
                old(self).spec_selected(),
                effective_direction(direction, vertical),
            ) {
                Some(t) => moved && final(self).spec_selected() == t,
                None => !moved && final(self).spec_selected() == old(self).spec_selected(),
            },
            ({
                let count = old(self).spec_count();
                let size = old(self).spec_page_size();
                let selected = old(self).spec_selected();
                let page_down = direction is PageDown || (!vertical && direction is Down) || (
                vertical && direction is Right);
                let page_up = direction is PageUp || (!vertical && direction is Up) || (vertical
                    && direction is Left);
                &&& page_down && count > 0 && selected / size + 1 < (count + size - 1) / (size as int) ==> moved
                    && final(self).spec_selected() == if selected + size <= count - 1 {
                    selected + size
                } else {
                    (count - 1) as nat
                }
                &&& page_down && !(selected / size + 1 < (count + size - 1) / (size as int)) ==> !moved
                &&& page_up && count > 0 && selected / size >= 1 ==> moved
                    && final(self).spec_selected() == selected - size
                &&& page_up && selected / size == 0 ==> !moved
                &&& cell_forward(direction, vertical) ==> (if count > 0 && selected + 1 < count {
                    moved && final(self).spec_selected() == selected + 1
                } else {
                    !moved && final(self).spec_selected() == selected
                })
                &&& cell_back(direction, vertical) ==> (if count > 0 && selected >= 1 {
                    moved && final(self).spec_selected() == selected - 1
                } else {
                    !moved && final(self).spec_selected() == selected
                })
            }),
    {
        let direction = if vertical {
            Self::column_direction(direction)
        } else {
            direction
        };
        proof {
            lemma_target_in_range(
                self.count as nat,
                self.page_size as nat,
                self.selected as nat,
                direction,
            );
            if self.count > 0 {
                lemma_page_down_reaches_the_next_page(
                    self.count as nat,
                    self.page_size as nat,
                    self.selected as nat,
                );
            }
        }
        match self.target(direction) {
            Some(target) => {
                self.selected = target;
                true
            },
            None => false,
        }
    }

    fn column_direction(direction: CandidateNavigation) -> (turned: CandidateNavigation)
        ensures
            turned == column_direction_of(direction),
    {
        match direction {
            CandidateNavigation::Up => CandidateNavigation::PreviousCandidate,
            CandidateNavigation::Down => CandidateNavigation::NextCandidate,
            CandidateNavigation::Left => CandidateNavigation::PageUp,
            CandidateNavigation::Right => CandidateNavigation::PageDown,
            other => other,
        }
    }

    fn target(&self, direction: CandidateNavigation) -> (target: Option<usize>)
        requires
            self.well_formed(),
        ensures
            target == match target_of(
                self.spec_count(),
                self.spec_page_size(),
                self.spec_selected(),
                direction,
            ) {
                Some(t) => Some(t as usize),
                None => None::<usize>,
            },
            target matches Some(t) ==> t < self.spec_count(),
    {
        proof {
            lemma_target_in_range(
                self.count as nat,
                self.page_size as nat,
                self.selected as nat,
                direction,
            );
        }
        if self.count == 0 {
            return None;
        }
        match direction {
            CandidateNavigation::Right | CandidateNavigation::NextCandidate => {
                if self.selected + 1 < self.count {
                    Some(self.selected + 1)
                } else {
                    None
                }
            },
            CandidateNavigation::Left | CandidateNavigation::PreviousCandidate => {
                if self.selected >= 1 {
                    Some(self.selected - 1)
                } else {
                    None
                }
            },
            CandidateNavigation::Down | CandidateNavigation::PageDown => {
                let next_page = self.current_page() + 1;
                if next_page < self.page_count() {
                    if self.count - 1 - self.selected >= self.page_size {
                        Some(self.selected + self.page_size)
                    } else {
                        Some(self.count - 1)
                    }
                } else {
                    None
                }
            },
            CandidateNavigation::Up | CandidateNavigation::PageUp => {
                if self.current_page() >= 1 {
                    proof {
                        lemma_page_start_le(self.selected as nat, self.page_size as nat);
                        lemma_page_one_le(self.selected as nat, self.page_size as nat);
                    }
                    Some(self.selected - self.page_size)
                } else {
                    None
                }
            },
        }
    }
}

/// A selection's numbers are machine sizes.
/// What every selection the library hands out keeps (`new` makes it,
/// `select` and `navigate` keep it): at least one cell per page, and the
/// highlight is a cell of the list, cell 0 of an empty one. So from any
/// sequence of calls, `selected_index` is `None` exactly for an empty
/// list, names a cell otherwise, and `current_page` is the highlight's
/// page.
pub proof fn lemma_highlight_is_a_cell(selection: LookupSelection)
    requires
        selection.well_formed(),
    ensures
        selection.spec_page_size() >= 1,
        selection.spec_count() == 0 ==> selection.spec_selected() == 0,
        selection.spec_count() > 0 ==> selection.spec_selected() < selection.spec_count(),
{
}

/// A page step forward from any page but the last always moves, onto the
/// cell one page on or, past the end of a short last page, its last cell;
/// from the last page it is refused. A page step back from any page but
/// the first moves exactly one page back.
pub proof fn lemma_page_down_reaches_the_next_page(count: nat, page_size: nat, selected: nat)
    requires
        page_size >= 1,
        selected < count,
    ensures
        selected / page_size + 1 < (count + page_size - 1) / (page_size as int) ==> target_of(
            count,
            page_size,
            selected,
            CandidateNavigation::PageDown,
        ) == Some(
            if selected + page_size <= count - 1 {
                (selected + page_size) as nat
            } else {
                (count - 1) as nat
            },
        ),
        !(selected / page_size + 1 < (count + page_size - 1) / (page_size as int)) ==> target_of(
            count,
            page_size,
            selected,
            CandidateNavigation::PageDown,
        ) is None,
        selected / page_size >= 1 ==> selected >= page_size && target_of(
            count,
            page_size,
            selected,
            CandidateNavigation::PageUp,
        ) == Some((selected - page_size) as nat),
{
    if selected / page_size >= 1 {
        lemma_page_one_le(selected, page_size);
    }
}

pub proof fn lemma_sizes(selection: LookupSelection)
    ensures
        selection.spec_count() <= usize::MAX,
        selection.spec_page_size() <= usize::MAX,
        selection.spec_selected() <= usize::MAX,
{
}

proof fn lemma_page_count_exact(count: nat, page_size: nat)
    requires
        page_size >= 1,
        count % page_size == 0,
    ensures
        page_count_of(count, page_size) == count / page_size,
{
    let q = count / page_size;
    assert(count == q * page_size) by (nonlinear_arith)
        requires
            page_size >= 1,
            count % page_size == 0,
            q == count / page_size,
    ;
    assert((count + page_size - 1) / (page_size as int) == q) by (nonlinear_arith)
        requires
            page_size >= 1,
            count == q * page_size,
    ;
}

proof fn lemma_page_count_partial(count: nat, page_size: nat)
    requires
        page_size >= 1,
        count % page_size != 0,
    ensures
        page_count_of(count, page_size) == count / page_size + 1,
        count / page_size < count,
{
    let q = count / page_size;
    let r = count % page_size;
    assert(count == q * page_size + r && 0 < r < page_size) by (nonlinear_arith)
        requires
            page_size >= 1,
            r != 0,
            q == count / page_size,
            r == count % page_size,
    ;
    assert((count + page_size - 1) / (page_size as int) == q + 1) by (nonlinear_arith)
        requires
            page_size >= 1,
            count == q * page_size + r,
            0 < r < page_size,
    ;
    assert(q < count) by (nonlinear_arith)
        requires
            page_size >= 1,
            count == q * page_size + r,
            0 < r,
    ;
}

/// The first cell of a page is no later than any cell on it.
proof fn lemma_page_start_le(selected: nat, page_size: nat)
    requires
        page_size >= 1,
    ensures
        page_of(selected, page_size) * page_size <= selected,
        selected < page_of(selected, page_size) * page_size + page_size,
{
    let p = selected / page_size;
    assert(p * page_size <= selected && selected < p * page_size + page_size) by (nonlinear_arith)
        requires
            page_size >= 1,
            p == selected / page_size,
    ;
}

proof fn lemma_page_one_le(selected: nat, page_size: nat)
    requires
        page_size >= 1,
        page_of(selected, page_size) >= 1,
    ensures
        selected >= page_size,
{
    let p = selected / page_size;
    lemma_page_start_le(selected, page_size);
    assert(p * page_size >= page_size) by (nonlinear_arith)
        requires
            p >= 1,
            page_size >= 1,
    ;
}

proof fn lemma_next_page_start(page: nat, page_size: nat)
    ensures
        (page + 1) * page_size == page * page_size + page_size,
{
    assert((page + 1) * page_size == page * page_size + page_size) by (nonlinear_arith);
}

/// `index` lies on page `page` exactly when it is in that page's run.
proof fn lemma_page_of_run(index: nat, page: nat, page_size: nat)
    requires
        page_size >= 1,
        page * page_size <= index < page * page_size + page_size,
    ensures
        page_of(index, page_size) == page,
{
    assert(index / page_size == page) by (nonlinear_arith)
        requires
            page_size >= 1,
            page * page_size <= index < page * page_size + page_size,
    ;
}

/// The last cell lies on the last page.
proof fn lemma_last_page(count: nat, page_size: nat)
    requires
        page_size >= 1,
        count >= 1,
    ensures
        page_of((count - 1) as nat, page_size) + 1 == page_count_of(count, page_size),
{
    let last = (count - 1) as nat;
    let p = last / page_size;
    lemma_page_start_le(last, page_size);
    assert((count + page_size - 1) / (page_size as int) == p + 1) by (nonlinear_arith)
        requires
            page_size >= 1,
            p * page_size <= last < p * page_size + page_size,
            last == count - 1,
    ;
}

/// Every move the highlight makes lands on a cell of the list.
pub proof fn lemma_target_in_range(
    count: nat,
    page_size: nat,
    selected: nat,
    direction: CandidateNavigation,
)
    requires
        page_size >= 1,
        count > 0 ==> selected < count,
    ensures
        target_of(count, page_size, selected, direction) matches Some(t) ==> t < count,
{
    if page_of(selected, page_size) >= 1 {
        lemma_page_one_le(selected, page_size);
    }
}

/// A step past either end is refused: no cell before the first, no cell
/// after the last, no page before the first or after the last.
pub proof fn lemma_ends_are_refused(count: nat, page_size: nat, selected: nat)
    requires
        page_size >= 1,
        count > 0,
        selected < count,
    ensures
        selected == 0 ==> target_of(count, page_size, selected, CandidateNavigation::Left)
            is None,
        selected == 0 ==> target_of(
            count,
            page_size,
            selected,
            CandidateNavigation::PreviousCandidate,
        ) is None,
        selected + 1 == count ==> target_of(
            count,
            page_size,
            selected,
            CandidateNavigation::NextCandidate,
        ) is None,
        page_of(selected, page_size) == 0 ==> target_of(
            count,
            page_size,
            selected,
            CandidateNavigation::PageUp,
        ) is None,
        page_of(selected, page_size) + 1 == page_count_of(count, page_size) ==> target_of(
            count,
            page_size,
            selected,
            CandidateNavigation::PageDown,
        ) is None,
{
}

/// A cell step forward and one back return to the same cell.
pub proof fn lemma_next_then_previous(count: nat, page_size: nat, selected: nat)
    requires
        page_size >= 1,
        selected < count,
    ensures
        target_of(count, page_size, selected, CandidateNavigation::NextCandidate) matches Some(
            t,
        ) ==> target_of(count, page_size, t, CandidateNavigation::PreviousCandidate) == Some(
            selected,
        ),
{
}

/// A page step moves to the next (or previous) page, never further: the
/// highlight lands on the page beside the one it left.
pub proof fn lemma_page_steps_move_one_page(count: nat, page_size: nat, selected: nat)
    requires
        page_size >= 1,
        selected < count,
    ensures
        target_of(count, page_size, selected, CandidateNavigation::PageDown) matches Some(t)
            ==> page_of(t, page_size) == page_of(selected, page_size) + 1,
        target_of(count, page_size, selected, CandidateNavigation::PageUp) matches Some(t)
            ==> page_of(t, page_size) + 1 == page_of(selected, page_size),
{
    let p = page_of(selected, page_size);
    lemma_page_start_le(selected, page_size);
    lemma_next_page_start(p, page_size);
    if let Some(t) = target_of(count, page_size, selected, CandidateNavigation::PageDown) {
        if selected + page_size <= count - 1 {
            lemma_page_of_run(t, p + 1, page_size);
        } else {
            let last = (count - 1) as nat;
            lemma_last_page(count, page_size);
            assert(page_of(last, page_size) == p + 1) by {
                lemma_page_start_le(last, page_size);
                let q = page_of(last, page_size);
                assert(q <= p + 1) by (nonlinear_arith)
                    requires
                        q * page_size <= last,
                        last < selected + page_size,
                        selected < p * page_size + page_size,
                        page_size >= 1,
                ;
            }
        }
    }
    if let Some(t) = target_of(count, page_size, selected, CandidateNavigation::PageUp) {
        assert(p >= 1);
        lemma_page_one_le(selected, page_size);
        assert((p - 1) * page_size <= t < (p - 1) * page_size + page_size) by (nonlinear_arith)
            requires
                p * page_size <= selected < p * page_size + page_size,
                t == selected - page_size,
                p >= 1,
        ;
        lemma_page_of_run(t, (p - 1) as nat, page_size);
    }
}

/// A page back and a page forward return to the same cell; a page forward
/// and a page back do too unless the forward step was clamped to the last
/// cell of a short last page.
pub proof fn lemma_page_round_trips(count: nat, page_size: nat, selected: nat)
    requires
        page_size >= 1,
        selected < count,
    ensures
        target_of(count, page_size, selected, CandidateNavigation::PageUp) matches Some(t)
            ==> target_of(count, page_size, t, CandidateNavigation::PageDown) == Some(selected),
        selected + page_size < count ==> (target_of(
            count,
            page_size,
            selected,
            CandidateNavigation::PageDown,
        ) matches Some(t) && target_of(count, page_size, t, CandidateNavigation::PageUp) == Some(
            selected,
        )),
{
    lemma_page_steps_move_one_page(count, page_size, selected);
    lemma_page_start_le(selected, page_size);
    let p = page_of(selected, page_size);
    lemma_next_page_start(p, page_size);
    if let Some(t) = target_of(count, page_size, selected, CandidateNavigation::PageUp) {
        lemma_last_page(count, page_size);
        lemma_page_start_le((count - 1) as nat, page_size);
        assert(page_of((count - 1) as nat, page_size) >= p) by {
            let q = page_of((count - 1) as nat, page_size);
            assert(q >= p) by (nonlinear_arith)
                requires
                    (count - 1) < q * page_size + page_size,
                    p * page_size <= selected,
                    selected <= count - 1,
                    page_size >= 1,
            ;
        }
        lemma_page_one_le(selected, page_size);
    }
    if selected + page_size < count {
        lemma_page_of_run(
            (selected + page_size) as nat,
            p + 1,
            page_size,
        );
        lemma_last_page(count, page_size);
        lemma_page_start_le((count - 1) as nat, page_size);
        let q = page_of((count - 1) as nat, page_size);
        assert(q >= p + 1) by (nonlinear_arith)
            requires
                (count - 1) < q * page_size + page_size,
                (p + 1) * page_size <= selected + page_size,
                selected + page_size <= count - 1,
                page_size >= 1,
        ;
    }
}

/// The panel's own buttons (page and cell steps) read the same whether
/// the list is drawn as a row or as a column.
pub proof fn lemma_panel_buttons_ignore_orientation(direction: CandidateNavigation)
    requires
        direction == CandidateNavigation::PageUp || direction == CandidateNavigation::PageDown
            || direction == CandidateNavigation::PreviousCandidate || direction
            == CandidateNavigation::NextCandidate,
    ensures
        effective_direction(direction, true) == effective_direction(direction, false),
{
}

/// A slot key addresses a cell on the page the highlight is on.
pub proof fn lemma_slot_is_on_current_page(count: nat, page_size: nat, selected: nat, slot: nat)
    requires
        page_size >= 1,
    ensures
        slot_index_of(count, page_size, selected, slot) matches Some(i) ==> i < count && page_of(
            i,
            page_size,
        ) == page_of(selected, page_size),
{
    if let Some(i) = slot_index_of(count, page_size, selected, slot) {
        lemma_page_of_run(i, page_of(selected, page_size), page_size);
    }
}

} // verus!
