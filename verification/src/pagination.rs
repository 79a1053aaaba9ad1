//! The paginated-listing enumerator over a remote collection resource.
//!
//! Pages are requested starting at index zero; the items of each returned
//! page are appended in order, the index advances, and enumeration stops
//! only when a page comes back with zero items. No other termination
//! signal is consulted, and nothing may filter items between the fetch and
//! the emptiness check, or enumeration would stop early. The request
//! itself is I/O and lives with the caller, which feeds every page it
//! receives to [`PageFetcher::accept_page`] unchanged.

use vstd::prelude::*;
use vstd::seq_lib::lemma_flatten_concat;

verus! {

/// The state of one enumeration of a paginated remote collection:
/// the items collected so far, in arrival order, and the index of the next
/// page to request.
pub struct PageFetcher<T> {
    items: Vec<T>,
    next_page: u32,
    finished: bool,
    pages: Ghost<Seq<Seq<T>>>,
}

impl<T> PageFetcher<T> {
    /// The items collected so far, across pages, in arrival order.
    pub closed spec fn items_view(&self) -> Seq<T> {
        self.items@
    }

    /// The pages accepted so far, in arrival order, the final empty page
    /// included if one arrived.
    pub closed spec fn pages_view(&self) -> Seq<Seq<T>> {
        self.pages@
    }

    /// Has a page with zero items arrived, ending the enumeration?
    pub closed spec fn is_finished(&self) -> bool {
        self.finished
    }

    /// The index of the next page to request.
    pub closed spec fn page_index(&self) -> u32 {
        self.next_page
    }

    /// The collected items are exactly the accepted pages, concatenated in
    /// order.
    pub open spec fn wf(&self) -> bool {
        self.items_view() == self.pages_view().flatten()
    }

    /// Start an enumeration: nothing collected, the first request is for
    /// page zero.
    pub fn new() -> (r: PageFetcher<T>)
        ensures
            r.wf(),
            r.items_view() == Seq::<T>::empty(),
            r.pages_view() == Seq::<Seq<T>>::empty(),
            !r.is_finished(),
            r.page_index() == 0,
    {
        let r = PageFetcher {
            items: Vec::new(),
            next_page: 0,
            finished: false,
            pages: Ghost(Seq::empty()),
        };
        proof {
            assert(r.pages@.flatten() =~= Seq::<T>::empty());
        }
        r
    }

    /// The index of the page to request next, or `None` once an empty page
    /// has ended the enumeration.
    pub fn next_request(&self) -> (r: Option<u32>)
        ensures
            r == if self.is_finished() {
                Option::<u32>::None
            } else {
                Option::Some(self.page_index())
            },
    {
        if self.finished {
            None
        } else {
            Some(self.next_page)
        }
    }

    /// Accept one returned page, unfiltered: append its items in order and
    /// advance, or stop if it holds zero items.
    pub fn accept_page(&mut self, page: Vec<T>)
        requires
            !old(self).is_finished(),
            old(self).wf(),
            old(self).page_index() < u32::MAX,
        ensures
            final(self).wf(),
            final(self).pages_view() == old(self).pages_view().push(page@),
            final(self).items_view() == old(self).items_view() + page@,
            final(self).is_finished() == (page@.len() == 0),
            final(self).page_index() == if page@.len() == 0 {
                old(self).page_index() as int
            } else {
                old(self).page_index() + 1
            },
    {
        proof {
            old(self).pages@.lemma_flatten_push(page@);
        }
        let ghost pages0 = self.pages@;
        let ghost page_arrived = page@;
        let mut buf = page;
        if buf.len() == 0 {
            self.finished = true;
        } else {
            self.items.append(&mut buf);
            self.next_page = self.next_page + 1;
        }
        self.pages = Ghost(pages0.push(page_arrived));
        proof {
            assert(self.items@ =~= old(self).items@ + page_arrived);
            assert(self.items_view() =~= self.pages_view().flatten());
        }
    }

    /// Hand the collected items out, ending the enumeration.
    pub fn into_items(self) -> (r: Vec<T>)
        ensures
            r@ == self.items_view(),
    {
        self.items
    }
}

/// The total item count of a run of equally full pages.
pub proof fn lemma_full_pages_item_count<T>(pages: Seq<Seq<T>>, page_size: nat)
    requires
        forall|i: int| 0 <= i < pages.len() ==> (#[trigger] pages[i]).len() == page_size,
    ensures
        pages.flatten().len() == pages.len() * page_size,
    decreases pages.len(),
{
    if pages.len() == 0 {
        assert(pages.flatten() =~= Seq::<T>::empty());
    } else {
        lemma_full_pages_item_count(pages.drop_first(), page_size);
        assert(pages.flatten() == pages.first() + pages.drop_first().flatten());
        assert((pages.len() - 1) * page_size + page_size == pages.len() * page_size)
            by (nonlinear_arith);
    }
}

/// Law: an enumeration that accepted some number of pages each holding
/// `page_size` items and then one empty page collected exactly that number
/// times `page_size` items.
pub proof fn lemma_pagination_count<T>(fetcher: PageFetcher<T>, page_size: nat)
    requires
        fetcher.wf(),
        fetcher.pages_view().len() > 0,
        fetcher.pages_view().last().len() == 0,
        forall|i: int|
            0 <= i < fetcher.pages_view().len() - 1 ==> (#[trigger] fetcher.pages_view()[i]).len()
                == page_size,
    ensures
        fetcher.items_view().len() == (fetcher.pages_view().len() - 1) * page_size,
{
    let pages = fetcher.pages_view();
    let full = pages.drop_last();
    let single = seq![pages.last()];
    lemma_flatten_concat(full, single);
    assert(full + single =~= pages);
    single.lemma_flatten_singleton();
    lemma_full_pages_item_count(full, page_size);
}

} // verus!
