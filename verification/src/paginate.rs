//! The pagination aggregator: a paged list operation is called at a fixed
//! page size and increasing offsets until a short page (strictly fewer items
//! than requested) signals the end of the collection; the pages' items are
//! concatenated in order. The caller performs each fetch and feeds the page
//! back in. If the collaborator never returns a short page the aggregation
//! never finishes; that is the collaborator's contract, not guarded here.

use vstd::prelude::*;

use crate::object::Obj;

verus! {

/// The uniform page size every aggregated list request asks for.
pub const PAGE_SIZE: u32 = 50;

/// The state of one aggregation: what arrived so far and where the next
/// fetch starts.
pub struct Aggregator {
    /// All items received, in arrival order.
    pub items: Vec<Obj>,
    /// The offset the next fetch will ask for.
    pub offset: u32,
    /// How many pages have been absorbed.
    pub calls: u32,
    /// Whether a short page has ended the aggregation.
    pub done: bool,
}

/// All pages' items, concatenated in page order.
pub open spec fn flatten_pages(pages: Seq<Seq<Obj>>) -> Seq<Obj>
    decreases pages.len(),
{
    if pages.len() == 0 {
        Seq::empty()
    } else {
        pages[0] + flatten_pages(pages.drop_first())
    }
}

/// The aggregator state reached from (`items`, `calls`, `done`) after
/// absorbing `pages` in order, stopping at the first short page.
pub open spec fn feed(
    items: Seq<Obj>,
    calls: int,
    done: bool,
    pages: Seq<Seq<Obj>>,
) -> (Seq<Obj>, int, bool)
    decreases pages.len(),
{
    if pages.len() == 0 || done {
        (items, calls, done)
    } else {
        feed(items + pages[0], calls + 1, pages[0].len() < PAGE_SIZE, pages.drop_first())
    }
}

impl Aggregator {
    /// A fresh aggregation: nothing fetched, next fetch at offset zero.
    pub fn new() -> (r: Aggregator)
        ensures
            r.items@ == Seq::<Obj>::empty(),
            r.offset == 0,
            r.calls == 0,
            !r.done,
    {
        Aggregator { items: Vec::new(), offset: 0, calls: 0, done: false }
    }

    /// Absorbs one fetched page: its items are appended in order, the next
    /// offset advances by one page, and a short page ends the aggregation.
    pub fn absorb(&mut self, page: Vec<Obj>)
        requires
            !old(self).done,
            old(self).offset + PAGE_SIZE <= u32::MAX,
            old(self).calls + 1 <= u32::MAX,
        ensures
            final(self).items@ == old(self).items@ + page@,
            final(self).offset == old(self).offset + PAGE_SIZE,
            final(self).calls == old(self).calls + 1,
            final(self).done == (page@.len() < PAGE_SIZE),
    {
        let mut page = page;
        let short = page.len() < PAGE_SIZE as usize;
        self.items.append(&mut page);
        self.offset = self.offset + PAGE_SIZE;
        self.calls = self.calls + 1;
        self.done = short;
    }
}

/// The aggregation law: over any page sequence whose last page alone is
/// short, a fresh aggregation absorbs every page exactly once and ends done,
/// holding all items in their original order.
pub proof fn lemma_aggregation(pages: Seq<Seq<Obj>>)
    requires
        pages.len() > 0,
        forall|i: int| 0 <= i < pages.len() - 1 ==> #[trigger] pages[i].len() == PAGE_SIZE,
        pages[pages.len() - 1].len() < PAGE_SIZE,
    ensures
        feed(Seq::empty(), 0, false, pages).0 == flatten_pages(pages),
        feed(Seq::empty(), 0, false, pages).1 == pages.len(),
        feed(Seq::empty(), 0, false, pages).2,
    decreases pages.len(),
{
    lemma_feed_general(Seq::empty(), 0, pages);
}

/// Generalisation of the aggregation law over a partially filled state.
proof fn lemma_feed_general(items: Seq<Obj>, calls: int, pages: Seq<Seq<Obj>>)
    requires
        pages.len() > 0,
        forall|i: int| 0 <= i < pages.len() - 1 ==> #[trigger] pages[i].len() == PAGE_SIZE,
        pages[pages.len() - 1].len() < PAGE_SIZE,
    ensures
        feed(items, calls, false, pages).0 == items + flatten_pages(pages),
        feed(items, calls, false, pages).1 == calls + pages.len(),
        feed(items, calls, false, pages).2,
    decreases pages.len(),
{
    if pages.len() == 1 {
        assert(feed(items + pages[0], calls + 1, pages[0].len() < PAGE_SIZE, pages.drop_first())
            == (items + pages[0], calls + 1, pages[0].len() < PAGE_SIZE));
        assert(flatten_pages(pages.drop_first()) =~= Seq::<Obj>::empty());
        assert(items + flatten_pages(pages) =~= items + pages[0]);
    } else {
        assert(pages[0].len() == PAGE_SIZE);
        assert(pages.drop_first()[pages.drop_first().len() - 1] == pages[pages.len() - 1]);
        assert(forall|i: int|
            0 <= i < pages.drop_first().len() - 1 ==> #[trigger] pages.drop_first()[i].len()
                == PAGE_SIZE);
        lemma_feed_general(items + pages[0], calls + 1, pages.drop_first());
        assert(items + pages[0] + flatten_pages(pages.drop_first()) =~= items + flatten_pages(
            pages,
        ));
    }
}

} // verus!
