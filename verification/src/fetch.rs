//! The paged catalog refresh, as a pure plan.
//!
//! The remote hands out the catalog in fixed-size pages ordered by name.
//! The plan decides, from what has arrived so far, which page to ask for
//! next and when the refresh is over; the caller performs the network call
//! and the mandatory inter-page delay. The delay is a hard design rule of
//! the remote's rate limit, not a tunable default, so it is part of the
//! plan's contract.

use vstd::prelude::*;

use crate::catalog::CatalogEntry;

verus! {

/// Entries requested per page.
pub const CATALOG_PAGE_SIZE: usize = 60;

/// Mandatory delay, in time units, between one page and the next.
pub const INTER_PAGE_DELAY_UNITS: u64 = 5;

/// One page request: ask for up to `page_size` entries starting at `offset`.
#[derive(Clone, Copy, Debug, PartialEq, Eq, Structural)]
pub struct PageRequest {
    pub offset: usize,
    pub page_size: usize,
}

/// Where the refresh stands.
#[derive(Clone, Copy, Debug, PartialEq, Eq, Structural)]
pub enum FetchPhase {
    /// More pages may follow.
    Active,
    /// A page came back empty: the catalog is exhausted.
    Complete,
    /// A page request failed; what arrived before is kept, but the refresh
    /// did not finish.
    Aborted,
}

/// What to do after recording a page.
#[derive(Clone, Copy, Debug, PartialEq, Eq, Structural)]
pub enum PageDisposition {
    /// Wait the mandatory delay, then issue the next request.
    DelayThenContinue { units: u64 },
    /// The refresh is over; no further request may be issued.
    Finished,
}

/// The accumulated state of one refresh.
pub struct FetchPlan {
    entries: Vec<CatalogEntry>,
    phase: FetchPhase,
}

impl FetchPlan {
    /// Every entry that has arrived, in arrival order.
    pub closed spec fn view_entries(&self) -> Seq<CatalogEntry> {
        self.entries@
    }

    pub closed spec fn spec_phase(&self) -> FetchPhase {
        self.phase
    }

    /// A fresh refresh: nothing fetched, first page pending.
    pub fn new() -> (p: Self)
        ensures
            p.view_entries() == Seq::<CatalogEntry>::empty(),
            p.spec_phase() == FetchPhase::Active,
    {
        let p = FetchPlan { entries: Vec::new(), phase: FetchPhase::Active };
        proof {
            assert(p.entries@ =~= Seq::<CatalogEntry>::empty());
        }
        p
    }

    /// The next page to ask for: the offset advances by exactly the count
    /// that has actually arrived. Once the refresh is over there is no next
    /// request.
    pub fn next_request(&self) -> (r: Option<PageRequest>)
        ensures
            match r {
                Some(pr) => self.spec_phase() == FetchPhase::Active && pr.offset
                    == self.view_entries().len() && pr.page_size == CATALOG_PAGE_SIZE,
                None => self.spec_phase() != FetchPhase::Active,
            },
    {
        match self.phase {
            FetchPhase::Active => Some(
                PageRequest { offset: self.entries.len(), page_size: CATALOG_PAGE_SIZE },
            ),
            _ => None,
        }
    }

    /// Record a page that arrived. An empty page terminates the refresh;
    /// a non-empty one is appended whole and the mandatory inter-page delay
    /// is imposed before the next request.
    pub fn record_page(&mut self, page: Vec<CatalogEntry>) -> (r: PageDisposition)
        requires
            old(self).spec_phase() == FetchPhase::Active,
        ensures
            page@.len() == 0 ==> final(self).view_entries() == old(self).view_entries()
                && final(self).spec_phase() == FetchPhase::Complete
                && r == PageDisposition::Finished,
            page@.len() > 0 ==> final(self).view_entries() == old(self).view_entries() + page@
                && final(self).spec_phase() == FetchPhase::Active
                && r == (PageDisposition::DelayThenContinue { units: INTER_PAGE_DELAY_UNITS }),
    {
        if page.len() == 0 {
            self.phase = FetchPhase::Complete;
            PageDisposition::Finished
        } else {
            let mut incoming = page;
            self.entries.append(&mut incoming);
            PageDisposition::DelayThenContinue { units: INTER_PAGE_DELAY_UNITS }
        }
    }

    /// Record that a page request failed. What arrived before is kept, but
    /// the refresh ends without completing.
    pub fn record_failure(&mut self)
        requires
            old(self).spec_phase() == FetchPhase::Active,
        ensures
            final(self).view_entries() == old(self).view_entries(),
            final(self).spec_phase() == FetchPhase::Aborted,
    {
        self.phase = FetchPhase::Aborted;
    }

    /// Where the refresh stands.
    pub fn phase(&self) -> (r: FetchPhase)
        ensures
            r == self.spec_phase(),
    {
        self.phase
    }

    /// Number of entries that have arrived.
    pub fn len(&self) -> (r: usize)
        ensures
            r == self.view_entries().len(),
    {
        self.entries.len()
    }

    /// Surrender the fetched entries.
    pub fn into_entries(self) -> (r: Vec<CatalogEntry>)
        ensures
            r@ == self.view_entries(),
    {
        self.entries
    }
}

} // verus!
