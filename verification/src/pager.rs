//! Reading a listing page by page.
//!
//! A listing is asked for in pages of [`PAGE_SIZE`] items, the first at offset 0.
//! Every page says how many items it holds and how many the whole listing has.
//! The pager collects the items, moves the offset on by what each page says it
//! holds, and is done when the offset has reached the total or a page says that
//! it is empty. The state depends on the pages alone, so a request that failed
//! can be sent again from the offset it was made for.

use vstd::prelude::*;

use crate::types::PaginationResponse;

verus! {

/// The number of items that is asked for with every page.
pub const PAGE_SIZE: usize = 50;

/// What a page of a listing holds.
pub struct PageView<T> {
    pub content: Seq<T>,
    pub size: nat,
    pub total: nat,
}

impl<T> View for PaginationResponse<Vec<T>> {
    type V = PageView<T>;

    open spec fn view(&self) -> PageView<T> {
        PageView { content: self.content@, size: self.size as nat, total: self.total as nat }
    }
}

/// What a [`Pager`] holds.
pub struct PagerView<T> {
    /// The offset of the next page.
    pub offset: nat,
    /// The size of the listing, as the last page gave it.
    pub total: nat,
    /// The items of the pages so far.
    pub items: Seq<T>,
    /// A page said that it was empty.
    pub stopped: bool,
}

/// The pager before the first page: nothing is known of the listing yet.
pub open spec fn pager_start<T>() -> PagerView<T> {
    PagerView { offset: 0, total: usize::MAX as nat, items: Seq::empty(), stopped: false }
}

/// The pager has another page to ask for.
pub open spec fn wants_more<T>(pager: PagerView<T>) -> bool {
    !pager.stopped && pager.offset < pager.total
}

/// The pager after one more page.
pub open spec fn accepted<T>(pager: PagerView<T>, page: PageView<T>) -> PagerView<T> {
    PagerView {
        offset: if page.size == 0 {
            pager.offset
        } else {
            pager.offset + page.size
        },
        total: page.total,
        items: pager.items + page.content,
        stopped: page.size == 0,
    }
}

/// The pager after the first `n` answers of a server, each taken only while
/// the pager still asks.
pub open spec fn fed_upto<T>(pages: Seq<PageView<T>>, n: int) -> PagerView<T>
    decreases n,
{
    if n <= 0 {
        pager_start()
    } else {
        let before = fed_upto(pages, n - 1);
        if wants_more(before) {
            accepted(before, pages[n - 1])
        } else {
            before
        }
    }
}

/// The number of items that the first `n` pages say they hold.
pub open spec fn sizes_upto<T>(pages: Seq<PageView<T>>, n: int) -> nat
    decreases n,
{
    if n <= 0 {
        0
    } else {
        sizes_upto(pages, n - 1) + pages[n - 1].size
    }
}

/// The answers of a server that lists `total` items faithfully: every page
/// holds as many items as it says, gives the same total, stays within the
/// listing, and is empty only when the listing is exhausted.
pub open spec fn faithful<T>(pages: Seq<PageView<T>>, total: nat) -> bool {
    forall|k: int|
        0 <= k < pages.len() ==> {
            &&& (#[trigger] pages[k]).content.len() == pages[k].size
            &&& pages[k].total == total
            &&& sizes_upto(pages, k) + pages[k].size <= total
            &&& pages[k].size == 0 ==> sizes_upto(pages, k) == total
        }
}

/// The progress of one listing.
#[derive(Debug)]
pub struct Pager<T> {
    offset: usize,
    total: usize,
    items: Vec<T>,
    stopped: bool,
}

impl<T> View for Pager<T> {
    type V = PagerView<T>;

    closed spec fn view(&self) -> PagerView<T> {
        PagerView {
            offset: self.offset as nat,
            total: self.total as nat,
            items: self.items@,
            stopped: self.stopped,
        }
    }
}

impl<T> Pager<T> {
    /// A pager that has seen no page yet.
    pub fn new() -> (pager: Self)
        ensures
            pager@ == pager_start::<T>(),
    {
        Pager { offset: 0, total: usize::MAX, items: Vec::new(), stopped: false }
    }

    /// The offset of the page to ask for next, or `None` when the listing is
    /// complete.
    pub fn next_offset(&self) -> (next: Option<usize>)
        ensures
            next == (if wants_more(self@) {
                Some(self@.offset as usize)
            } else {
                None
            }),
            self@.offset <= usize::MAX,
    {
        if !self.stopped && self.offset < self.total {
            Some(self.offset)
        } else {
            None
        }
    }

    /// Whether the listing is complete.
    pub fn is_done(&self) -> (done: bool)
        ensures
            done == !wants_more(self@),
    {
        self.stopped || self.offset >= self.total
    }

    /// Whether the offset can move on by what `page` says it holds.
    pub fn fits(&self, page: &PaginationResponse<Vec<T>>) -> (ok: bool)
        ensures
            ok == (self@.offset + page@.size <= usize::MAX),
    {
        page.size <= usize::MAX - self.offset
    }

    /// Takes the next page in.
    pub fn accept(&mut self, page: PaginationResponse<Vec<T>>)
        requires
            old(self)@.offset + page@.size <= usize::MAX,
        ensures
            final(self)@ == accepted(old(self)@, page@),
    {
        let mut page = page;
        self.total = page.total;
        self.items.append(&mut page.content);
        if page.size == 0 {
            self.stopped = true;
        } else {
            self.stopped = false;
            self.offset = self.offset + page.size;
        }
    }

    /// The number of items collected so far.
    pub fn collected(&self) -> (n: usize)
        ensures
            n == self@.items.len(),
    {
        self.items.len()
    }

    /// The items collected, in the order of the listing.
    pub fn into_items(self) -> (items: Vec<T>)
        ensures
            items@ == self@.items,
    {
        self.items
    }
}

/// Every page either ends the listing or moves the offset forward, so a
/// listing whose total stays the same is read with finitely many requests.
pub proof fn lemma_page_makes_progress<T>(pager: PagerView<T>, page: PageView<T>)
    requires
        wants_more(pager),
    ensures
        accepted(pager, page).total == page.total,
        !wants_more(accepted(pager, page)) || accepted(pager, page).offset > pager.offset,
        page.size == 0 ==> !wants_more(accepted(pager, page)),
{
}

/// A page that says it is empty ends the listing at once. If items were still
/// missing then, fewer than the total have been collected.
pub proof fn lemma_empty_page_ends_listing<T>(pager: PagerView<T>, page: PageView<T>)
    requires
        pager.items.len() == pager.offset,
        page.size == 0,
        page.content.len() == 0,
        pager.offset < page.total,
    ensures
        !wants_more(accepted(pager, page)),
        accepted(pager, page).items == pager.items,
        accepted(pager, page).items.len() < page.total,
{
    assert(accepted(pager, page).items =~= pager.items);
}

proof fn lemma_faithful_run<T>(pages: Seq<PageView<T>>, total: nat, n: int)
    requires
        faithful(pages, total),
        0 <= n <= pages.len(),
    ensures
        fed_upto(pages, n).items.len() == fed_upto(pages, n).offset,
        n > 0 ==> fed_upto(pages, n).total == total,
        n > 0 ==> fed_upto(pages, n).offset <= total,
        fed_upto(pages, n).stopped ==> fed_upto(pages, n).offset == total,
        wants_more(fed_upto(pages, n)) ==> fed_upto(pages, n).offset == sizes_upto(pages, n),
        n > 0 && wants_more(fed_upto(pages, n)) ==> wants_more(fed_upto(pages, n - 1)),
    decreases n,
{
    if n > 0 {
        lemma_faithful_run(pages, total, n - 1);
        let before = fed_upto(pages, n - 1);
        if wants_more(before) {
            let page = pages[n - 1];
            assert(page.content.len() == page.size);
        }
    }
}

/// Against a server that lists `total` items faithfully, the pager ends with
/// exactly `total` items, having asked for no page beyond the listing.
pub proof fn lemma_faithful_listing_is_complete<T>(pages: Seq<PageView<T>>, total: nat)
    requires
        faithful(pages, total),
        !wants_more(fed_upto(pages, pages.len() as int)),
    ensures
        fed_upto(pages, pages.len() as int).items.len() == total,
        fed_upto(pages, pages.len() as int).offset == total,
{
    lemma_faithful_run(pages, total, pages.len() as int);
}

/// While the pager still asks, it holds exactly the items of the pages so far.
pub proof fn lemma_items_are_the_pages<T>(pages: Seq<PageView<T>>, n: int)
    requires
        0 < n <= pages.len(),
        wants_more(fed_upto(pages, n - 1)),
    ensures
        fed_upto(pages, n).items == fed_upto(pages, n - 1).items + pages[n - 1].content,
{
}

} // verus!
