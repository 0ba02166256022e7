//! Vertical page flow and page-break decisions.
//!
//! Boxes flow top to bottom down the content area of a page.  When the
//! next box does not fit in the remaining height, exactly one page break
//! is emitted and the box is placed at the top of the new page — even a
//! box taller than a whole page is placed after a single break and
//! overflows, matching best-effort flow layout.  A box that fits the
//! remaining height exactly is a fit, not an overflow.

use vstd::prelude::*;

use crate::error::Error;
use crate::measure::HEIGHT_CEILING;

verus! {

/// The paginator's state machine.
#[derive(Debug, Clone, Copy, PartialEq, Eq, Structural)]
pub enum FlowState {
    /// Accepting boxes at the current cursor.
    Flowing,
    /// The current page cannot hold the next box; a break is emitted.
    PageFull,
    /// The document is closed; placement is refused.
    Closed,
}

/// The flow cursor: how many pages have been opened and how much of the
/// current page's content height is used.
#[derive(Debug, Clone, Copy, PartialEq, Eq, Structural)]
pub struct Paginator {
    /// Height of a page's content area.
    pub content_height: u32,
    /// Used height on the current page.
    pub cursor: u64,
    /// Number of pages opened so far; at least 1.
    pub pages: u128,
    /// Current state.
    pub state: FlowState,
}

/// The pages opened and the final cursor after flowing `heights` down
/// pages of content height `cap`, starting from a fresh first page.
pub open spec fn flow_fold(heights: Seq<int>, cap: int) -> (int, int)
    decreases heights.len(),
{
    if heights.len() == 0 {
        (1, 0)
    } else {
        let prev = flow_fold(heights.drop_last(), cap);
        if prev.1 + heights.last() > cap {
            (prev.0 + 1, heights.last())
        } else {
            (prev.0, prev.1 + heights.last())
        }
    }
}

/// The zero-based page index the `i`-th box lands on.
pub open spec fn spec_page_of(heights: Seq<int>, cap: int, i: int) -> int {
    flow_fold(heights.take(i + 1), cap).0 - 1
}

/// The vertical offset within its page's content area where the `i`-th
/// box starts.
pub open spec fn spec_y_of(heights: Seq<int>, cap: int, i: int) -> int {
    flow_fold(heights.take(i + 1), cap).1 - heights[i]
}

impl Paginator {
    /// The cursor never runs far beyond a page: it is bounded by the
    /// content height or by the measurement ceiling of a single box.
    pub open spec fn wf(self) -> bool {
        &&& self.pages >= 1
        &&& self.cursor <= self.content_height || self.cursor <= HEIGHT_CEILING
    }

    /// A fresh paginator: one open page, cursor at the top, flowing.
    pub fn new(content_height: u32) -> (p: Paginator)
        ensures
            p.wf(),
            p.content_height == content_height,
            p.cursor == 0,
            p.pages == 1,
            p.state == FlowState::Flowing,
    {
        Paginator { content_height, cursor: 0, pages: 1, state: FlowState::Flowing }
    }

    /// Place a box of measured height `h`.
    ///
    /// Returns the zero-based page index and the vertical offset within
    /// that page's content area where the box starts.  If the box
    /// overflows the remaining height, exactly one page break is taken
    /// first; if it fits exactly, none.  Fails with `DocumentClosedError`
    /// if and only if the paginator is closed; the paginator is then
    /// unchanged.
    pub fn place_box(&mut self, h: u64) -> (r: Result<(u128, u64), Error>)
        requires
            old(self).wf(),
            h <= HEIGHT_CEILING,
            old(self).pages < 0xffff_ffff_ffff_ffff_ffff_ffff_ffff_ffff,
        ensures
            final(self).wf(),
            final(self).content_height == old(self).content_height,
            match r {
                Ok(py) => {
                    &&& old(self).state != FlowState::Closed
                    &&& final(self).state == FlowState::Flowing
                    &&& if old(self).cursor + h > old(self).content_height {
                        &&& final(self).pages == old(self).pages + 1
                        &&& final(self).cursor == h
                        &&& py.1 == 0
                    } else {
                        &&& final(self).pages == old(self).pages
                        &&& final(self).cursor == old(self).cursor + h
                        &&& py.1 == old(self).cursor
                    }
                    &&& py.0 == final(self).pages - 1
                },
                Err(e) => {
                    &&& e == Error::DocumentClosedError
                    &&& old(self).state == FlowState::Closed
                    &&& *final(self) == *old(self)
                },
            },
    {
        match self.state {
            FlowState::Closed => Err(Error::DocumentClosedError),
            _ => {
                if self.cursor + h > self.content_height as u64 {
                    self.state = FlowState::PageFull;
                    self.pages = self.pages + 1;
                    self.cursor = h;
                    self.state = FlowState::Flowing;
                    Ok((self.pages - 1, 0))
                } else {
                    let y = self.cursor;
                    self.cursor = self.cursor + h;
                    self.state = FlowState::Flowing;
                    Ok((self.pages - 1, y))
                }
            },
        }
    }

    /// Close the paginator: no further placement is permitted.
    pub fn close(&mut self)
        ensures
            *final(self) == (Paginator { state: FlowState::Closed, ..*old(self) }),
    {
        self.state = FlowState::Closed;
    }
}

/// Flow a run of measured box heights down pages of the given content
/// height.  Returns the zero-based page index of every box and the
/// number of pages opened; both are exactly the mathematical fold of the
/// heights, so the outcome is a pure function of the inputs.
pub fn paginate_all(heights: &Vec<u64>, content_height: u32) -> (r: (Vec<u64>, Vec<u64>, u128))
    requires
        forall|i: int| 0 <= i < heights@.len() ==> #[trigger] heights@[i] <= HEIGHT_CEILING,
    ensures
        r.0@.len() == heights@.len(),
        r.1@.len() == heights@.len(),
        r.2 == flow_fold(heights@.map_values(|h: u64| h as int), content_height as int).0,
        forall|i: int|
            0 <= i < heights@.len() ==> #[trigger] r.0@[i] == spec_page_of(
                heights@.map_values(|h: u64| h as int),
                content_height as int,
                i,
            ),
        forall|i: int|
            0 <= i < heights@.len() ==> #[trigger] r.1@[i] == spec_y_of(
                heights@.map_values(|h: u64| h as int),
                content_height as int,
                i,
            ),
{
    let ghost hs = heights@.map_values(|h: u64| h as int);
    let mut pager = Paginator::new(content_height);
    let mut assignment: Vec<u64> = Vec::new();
    let mut offsets: Vec<u64> = Vec::new();
    let mut i: usize = 0;
    while i < heights.len()
        invariant
            i <= heights@.len(),
            hs == heights@.map_values(|h: u64| h as int),
            hs.len() == heights@.len(),
            forall|k: int| 0 <= k < heights@.len() ==> #[trigger] heights@[k] <= HEIGHT_CEILING,
            pager.wf(),
            pager.state == FlowState::Flowing,
            pager.content_height == content_height,
            pager.pages as int == flow_fold(hs.take(i as int), content_height as int).0,
            pager.cursor as int == flow_fold(hs.take(i as int), content_height as int).1,
            pager.pages <= 1 + i,
            assignment@.len() == i,
            offsets@.len() == i,
            forall|k: int|
                0 <= k < i ==> #[trigger] assignment@[k] == spec_page_of(
                    hs,
                    content_height as int,
                    k,
                ),
            forall|k: int|
                0 <= k < i ==> #[trigger] offsets@[k] == spec_y_of(hs, content_height as int, k),
        decreases heights@.len() - i,
    {
        proof {
            assert(hs.take(i as int) =~= hs.take(i + 1).drop_last());
            assert(hs.take(i + 1).last() == hs[i as int]);
        }
        let r = pager.place_box(heights[i]);
        let (page, y) = match r {
            Ok(py) => py,
            Err(_) => {
                // Unreachable: the paginator is never closed here.
                (0, 0)
            },
        };
        assignment.push(page as u64);
        offsets.push(y);
        i = i + 1;
    }
    proof {
        assert(hs.take(hs.len() as int) =~= hs);
    }
    (assignment, offsets, pager.pages)
}

/// Pagination is deterministic: an identical sequence of placed box
/// heights and identical page geometry always produce the same page
/// count and the same page assignment for every box.
pub proof fn lemma_pagination_deterministic(
    heights: Seq<int>,
    cap: int,
    r1: (int, int),
    r2: (int, int),
)
    requires
        r1 == flow_fold(heights, cap),
        r2 == flow_fold(heights, cap),
    ensures
        r1 == r2,
        forall|i: int| spec_page_of(heights, cap, i) == spec_page_of(heights, cap, i),
{
}

/// The page-break trigger: appending a box that exceeds the remaining
/// content height opens exactly one new page before the box is placed,
/// and a box that fits the remaining height — exactly or with room to
/// spare — opens none.
pub proof fn lemma_page_break_trigger(heights: Seq<int>, cap: int, h: int)
    ensures
        flow_fold(heights, cap).1 + h > cap ==> flow_fold(heights.push(h), cap).0 == flow_fold(
            heights,
            cap,
        ).0 + 1,
        flow_fold(heights, cap).1 + h <= cap ==> flow_fold(heights.push(h), cap).0 == flow_fold(
            heights,
            cap,
        ).0,
{
    assert(heights.push(h).drop_last() =~= heights);
    assert(heights.push(h).last() == h);
}

} // verus!
