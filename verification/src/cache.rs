//! A lazily-computed, error-retrying cache cell around a fallible
//! fetch. A success, once stored, is returned forever without another
//! fetch; an empty cell or a stored failure makes the next access
//! invoke the fetcher once more, so a query keeps retrying exactly as
//! long as it keeps failing.
use vstd::prelude::*;

verus! {

/// A collaborator query failed. The failing output or stage is
/// recovered from locally where possible (for instance by dropping
/// the offending output from a listing); nothing is retried within
/// one access.
#[derive(Clone, Copy, PartialEq, Eq, Structural, Debug)]
pub struct FetchError;

/// One cache cell. It starts empty; each access either returns the
/// retained success or stores the outcome of one fresh fetch.
#[derive(Clone, Copy)]
pub struct StaleTolerantCache<T: Copy> {
    cell: Option<Result<T, FetchError>>,
}

impl<T: Copy> StaleTolerantCache<T> {
    /// What the cell holds: nothing yet, a retained success, or the
    /// failure of the latest fetch.
    pub closed spec fn entry(self) -> Option<Result<T, FetchError>> {
        self.cell
    }

    /// Whether the cell holds a success that accesses will keep
    /// returning without fetching again.
    pub open spec fn holds_success(self) -> bool {
        self.entry() matches Some(Ok(_))
    }

    /// A fresh, empty cell: the first access will fetch.
    pub fn empty() -> (r: Self)
        ensures
            r.entry() is None,
    {
        StaleTolerantCache { cell: None }
    }

    /// The cell's current content, without fetching.
    pub fn cached(&self) -> (r: Option<Result<T, FetchError>>)
        ensures
            r == self.entry(),
    {
        self.cell
    }

    /// Returns the cached value. A retained success is returned as it
    /// is, with no fetch and no change to the cell. Otherwise the
    /// fetcher is invoked exactly once and its outcome — success or
    /// failure — is stored and returned; a stored failure is thereby
    /// replaced, so a later access may succeed once the underlying
    /// condition clears.
    pub fn get_or_fetch<F: FnOnce() -> Result<T, FetchError>>(&mut self, fetcher: F) -> (r:
        Result<T, FetchError>)
        requires
            call_requires(fetcher, ()),
        ensures
            final(self).entry() == Some(r),
            old(self).holds_success() ==> *final(self) == *old(self)
                && old(self).entry() == Some(r),
            !old(self).holds_success() ==> call_ensures(fetcher, (), r),
    {
        match self.cell {
            Some(Ok(value)) => Ok(value),
            _ => {
                let outcome = fetcher();
                self.cell = Some(outcome);
                outcome
            },
        }
    }
}

} // verus!
