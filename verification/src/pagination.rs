//! The page-navigation bar of a listing: which page numbers to show, where to
//! put an ellipsis, and where "previous" and "next" lead.
//!
//! Callers number pages from zero; the bar numbers them from one.

use vstd::prelude::*;

verus! {

/// One cell of the navigation bar.
#[derive(Clone, Copy, Debug, PartialEq, Eq, Structural)]
pub enum PaginationNode {
    /// A run of pages that is not shown.
    Ellipsis,
    /// The page being shown.
    Current(usize),
    /// Another page.
    Page(usize),
}

/// The navigation bar of one page of a listing. Page numbers start at one.
#[derive(Clone, Debug, PartialEq, Eq)]
pub struct PaginationBar {
    /// The page before the current one, if there is one.
    pub prev: Option<usize>,
    /// The page after the current one, if there is one.
    pub next: Option<usize>,
    /// The cells of the bar, from left to right.
    pub pages: Vec<PaginationNode>,
}

/// Number of pages needed for `total` entries at `per_page` entries a page:
/// the quotient rounded up, and one where there is no entry at all.
pub open spec fn spec_max_page(total: int, per_page: int) -> int {
    let full = total / per_page;
    let pages = if total % per_page == 0 { full } else { full + 1 };
    if pages < 1 { 1 } else { pages }
}

/// The cell for `page` in a bar whose current page is `current`.
pub open spec fn spec_page_node(page: int, current: int) -> PaginationNode {
    if page == current {
        PaginationNode::Current(page as usize)
    } else {
        PaginationNode::Page(page as usize)
    }
}

/// First page of the window around `current`; page one is never part of it.
pub open spec fn window_first(current: int) -> int {
    if current - 2 > 2 { current - 2 } else { 2 }
}

/// Last page of the window around `current`.
pub open spec fn window_last(max: int, current: int) -> int {
    if max < current + 2 { max } else { current + 2 }
}

/// Number of pages in the window around `current`.
pub open spec fn window_len(max: int, current: int) -> nat {
    let first = window_first(current);
    let last = window_last(max, current);
    if last >= first { (last - first + 1) as nat } else { 0 }
}

/// The cells of the bar for `max` pages with `current` shown, both counted
/// from one: page one; an ellipsis if the window starts after page two; the
/// window; an ellipsis if more than one page lies between the window and the
/// last page; the last page if the window does not reach it.
pub open spec fn spec_pages(max: int, current: int) -> Seq<PaginationNode> {
    let first = seq![spec_page_node(1, current)];
    let lead = if current > 4 { seq![PaginationNode::Ellipsis] } else { Seq::empty() };
    let window = Seq::new(
        window_len(max, current),
        |i: int| spec_page_node(window_first(current) + i, current),
    );
    let gap = if current + 3 < max { seq![PaginationNode::Ellipsis] } else { Seq::empty() };
    let last = if current + 2 < max { seq![spec_page_node(max, current)] } else { Seq::empty() };
    first + lead + window + gap + last
}

/// "Previous" in a bar whose current page, counted from one, is `current`.
pub open spec fn spec_prev(current: int) -> Option<usize> {
    if current > 1 { Some((current - 1) as usize) } else { None }
}

/// "Next" in a bar of `max` pages whose current page, counted from one, is
/// `current`.
pub open spec fn spec_next(max: int, current: int) -> Option<usize> {
    if current < max { Some((current + 1) as usize) } else { None }
}

impl PaginationBar {
    /// The bar for the zero-based page `current` of `total` entries, as a
    /// mathematical value.
    pub open spec fn spec_build(total: int, per_page: int, current: int) -> (
        Option<usize>,
        Option<usize>,
        Seq<PaginationNode>,
    ) {
        let max = spec_max_page(total, per_page);
        (spec_prev(current + 1), spec_next(max, current + 1), spec_pages(max, current + 1))
    }

    /// The bar as a mathematical value: previous, next, cells.
    pub open spec fn view(&self) -> (Option<usize>, Option<usize>, Seq<PaginationNode>) {
        (self.prev, self.next, self.pages@)
    }
}

/// The page, counted from zero as clients ask for pages, that page number
/// `page` of a bar stands for. Page numbers start at one, so zero stands for
/// none.
pub open spec fn spec_page_link(page: usize) -> Option<usize> {
    if page >= 1 {
        Some((page - 1) as usize)
    } else {
        None
    }
}

/// The page, counted from zero as clients ask for pages, that page number
/// `page` of a bar stands for.
pub fn page_link(page: usize) -> (link: Option<usize>)
    ensures
        link == spec_page_link(page),
{
    page.checked_sub(1)
}

impl PaginationNode {
    /// The page, counted from zero, that the cell leads to; an ellipsis
    /// leads nowhere.
    pub open spec fn spec_link(&self) -> Option<usize> {
        match self {
            PaginationNode::Ellipsis => None,
            PaginationNode::Current(page) => spec_page_link(*page),
            PaginationNode::Page(page) => spec_page_link(*page),
        }
    }

    /// The page, counted from zero, that the cell leads to.
    pub fn link(&self) -> (link: Option<usize>)
        ensures
            link == self.spec_link(),
    {
        match self {
            PaginationNode::Ellipsis => None,
            PaginationNode::Current(page) => page_link(*page),
            PaginationNode::Page(page) => page_link(*page),
        }
    }
}

/// Number of pages needed for `total` entries at `per_page` entries a page.
pub fn max_page(total: usize, per_page: usize) -> (max: usize)
    requires
        per_page > 0,
    ensures
        max == spec_max_page(total as int, per_page as int),
        max >= 1,
        total > 0 ==> max <= total,
{
    let full: usize = total / per_page;
    let rest: usize = total % per_page;
    proof {
        vstd::arithmetic::div_mod::lemma_fundamental_div_mod(total as int, per_page as int);
        vstd::arithmetic::mul::lemma_mul_inequality(1, per_page as int, full as int);
        assert(per_page * full >= full) by (nonlinear_arith)
            requires
                per_page >= 1,
                full >= 0,
        ;
    }
    let pages: usize = if rest == 0 { full } else { full + 1 };
    if pages < 1 { 1 } else { pages }
}

/// The cell for `page` in a bar whose current page is `current`.
pub fn is_current(page: usize, current: usize) -> (node: PaginationNode)
    ensures
        node == spec_page_node(page as int, current as int),
{
    if page == current {
        PaginationNode::Current(page)
    } else {
        PaginationNode::Page(page)
    }
}

/// Builds the navigation bar for the zero-based page `current` of a listing
/// of `total` entries, shown `per_page` at a time.
pub fn build_pagination(total: usize, per_page: usize, current: usize) -> (bar: PaginationBar)
    requires
        per_page > 0,
        current < usize::MAX,
    ensures
        bar@ == PaginationBar::spec_build(total as int, per_page as int, current as int),
{
    let max: usize = max_page(total, per_page);
    let current: usize = current + 1;
    let prev: Option<usize> = if current > 1 { Some(current - 1) } else { None };
    let next: Option<usize> = if current < max { Some(current + 1) } else { None };
    let mut pages: Vec<PaginationNode> = Vec::new();
    pages.push(is_current(1, current));
    if current > 4 {
        pages.push(PaginationNode::Ellipsis);
    }
    let ghost head = pages@;
    let first: usize = if current > 4 { current - 2 } else { 2 };
    // The window ends at `current + 2` unless the last page comes first.
    let last: usize = if max < 2 || max - 2 < current { max } else { current + 2 };
    let len: usize = if last >= first { last - first + 1 } else { 0 };
    let mut i: usize = 0;
    while i < len
        invariant
            i <= len <= 5,
            len == window_len(max as int, current as int),
            first == window_first(current as int),
            first + len <= usize::MAX + 1,
            pages@.len() == head.len() + i,
            pages@.subrange(0, head.len() as int) == head,
            forall|k: int|
                0 <= k < i ==> #[trigger] pages@[head.len() + k] == spec_page_node(
                    first + k,
                    current as int,
                ),
        decreases len - i,
    {
        pages.push(is_current(first + i, current));
        i = i + 1;
    }
    let ghost window = Seq::new(
        window_len(max as int, current as int),
        |i: int| spec_page_node(window_first(current as int) + i, current as int),
    );
    assert(pages@ == head + window) by {
        assert forall|j: int| 0 <= j < pages@.len() implies pages@[j] == (head + window)[j] by {
            if j < head.len() {
                assert(pages@.subrange(0, head.len() as int)[j] == head[j]);
            } else {
                let k = j - head.len();
                assert(pages@[head.len() + k] == spec_page_node(first + k, current as int));
            }
        }
    }
    if max >= 3 && current < max - 3 {
        pages.push(PaginationNode::Ellipsis);
    }
    if max >= 2 && current < max - 2 {
        pages.push(is_current(max, current));
    }
    assert(pages@ == spec_pages(max as int, current as int));
    PaginationBar { prev, next, pages }
}

/// The page count is the quotient rounded up: the pages hold every entry, and
/// one page fewer would not. Without entries there is still one page.
pub proof fn lemma_max_page_is_ceiling(total: int, per_page: int)
    requires
        total >= 0,
        per_page > 0,
    ensures
        spec_max_page(total, per_page) >= 1,
        spec_max_page(total, per_page) * per_page >= total,
        total > 0 ==> (spec_max_page(total, per_page) - 1) * per_page < total,
        total == 0 ==> spec_max_page(total, per_page) == 1,
{
    let full = total / per_page;
    let rest = total % per_page;
    vstd::arithmetic::div_mod::lemma_fundamental_div_mod(total, per_page);
    vstd::arithmetic::div_mod::lemma_div_pos_is_pos(total, per_page);
    assert((full + 1) * per_page == full * per_page + per_page) by (nonlinear_arith);
    assert((full - 1) * per_page == full * per_page - per_page) by (nonlinear_arith);
    assert(per_page * full == full * per_page) by (nonlinear_arith);
    if total == 0 {
        assert(full == 0) by (nonlinear_arith)
            requires
                per_page * full + rest == 0,
                0 <= rest < per_page,
                full >= 0,
        ;
    }
}

/// A listing that fits on one page has a bar of one cell, the current page,
/// and leads nowhere.
pub proof fn lemma_single_page(total: int, per_page: int)
    requires
        0 <= total <= per_page,
        per_page > 0,
    ensures
        PaginationBar::spec_build(total, per_page, 0) == (
            None::<usize>,
            None::<usize>,
            seq![PaginationNode::Current(1)],
        ),
{
    lemma_max_page_is_ceiling(total, per_page);
    let max = spec_max_page(total, per_page);
    if max > 1 {
        assert((max - 1) * per_page >= per_page) by (nonlinear_arith)
            requires
                max - 1 >= 1,
                per_page > 0,
        ;
    }
    assert(max == 1);
    assert(spec_pages(1, 1) =~= seq![PaginationNode::Current(1)]);
}

/// The page number that a cell shows; an ellipsis shows none.
pub open spec fn node_number(node: PaginationNode) -> Option<int> {
    match node {
        PaginationNode::Ellipsis => None,
        PaginationNode::Current(page) => Some(page as int),
        PaginationNode::Page(page) => Some(page as int),
    }
}

/// A bar begins with page one, has at most nine cells, shows page numbers
/// between one and the last page in rising order, and marks as current the
/// current page and no other. The current page is in the bar whenever it is
/// one of the pages.
pub proof fn lemma_bar_is_ordered(max: int, current: int)
    requires
        1 <= max <= usize::MAX,
        1 <= current <= usize::MAX,
    ensures
        1 <= spec_pages(max, current).len() <= 9,
        spec_pages(max, current)[0] == spec_page_node(1, current),
        forall|i: int|
            0 <= i < spec_pages(max, current).len() ==> (match node_number(
                #[trigger] spec_pages(max, current)[i],
            ) {
                Some(page) => 1 <= page <= max,
                None => true,
            }),
        forall|i: int, j: int|
            0 <= i < j < spec_pages(max, current).len() ==> (match (
                node_number(#[trigger] spec_pages(max, current)[i]),
                node_number(#[trigger] spec_pages(max, current)[j]),
            ) {
                (Some(left), Some(right)) => left < right,
                _ => true,
            }),
        forall|i: int|
            0 <= i < spec_pages(max, current).len() ==> (#[trigger] spec_pages(max, current)[i]
                is Current <==> node_number(spec_pages(max, current)[i]) == Some(current)),
        current <= max ==> spec_pages(max, current).contains(
            PaginationNode::Current(current as usize),
        ),
{
    let pages = spec_pages(max, current);
    let first = seq![spec_page_node(1, current)];
    let lead = if current > 4 {
        seq![PaginationNode::Ellipsis]
    } else {
        Seq::empty()
    };
    let low = window_first(current);
    let window = Seq::new(window_len(max, current), |i: int| spec_page_node(low + i, current));
    let gap = if current + 3 < max {
        seq![PaginationNode::Ellipsis]
    } else {
        Seq::empty()
    };
    let last = if current + 2 < max {
        seq![spec_page_node(max, current)]
    } else {
        Seq::empty()
    };
    let before = first.len() + lead.len();
    let shown = before + window.len();
    assert(pages == first + lead + window + gap + last);
    assert(pages.len() == shown + gap.len() + last.len());
    // What each position of the bar holds.
    assert forall|i: int| 0 <= i < pages.len() implies #[trigger] pages[i] == (if i == 0 {
        spec_page_node(1, current)
    } else if i < before {
        PaginationNode::Ellipsis
    } else if i < shown {
        spec_page_node(low + (i - before), current)
    } else if i < shown + gap.len() {
        PaginationNode::Ellipsis
    } else {
        spec_page_node(max, current)
    }) by {
        if i >= before && i < shown {
            assert(window[i - before] == spec_page_node(low + (i - before), current));
        }
    }
    if current <= max {
        if current == 1 {
            assert(pages[0] == PaginationNode::Current(1));
        } else {
            let at = before + (current - low);
            assert(pages[at] == PaginationNode::Current(current as usize));
        }
    }
}

} // verus!
