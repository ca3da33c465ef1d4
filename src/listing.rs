use vstd::prelude::*;
use crate::error::CatalogError;

verus! {

/// One page of a paginated metastore listing: its items and, unless it is
/// the last page, the token that asks for the next one.
#[derive(Debug)]
pub struct ListingPage<T> {
    pub items: Vec<T>,
    pub next_token: Option<String>,
}

/// Follows a paginated listing one page at a time. The listing is complete
/// once a page without a next token has been accepted; only then does it
/// hand out its items.
#[derive(Debug)]
pub struct PageCursor<T> {
    pub items: Vec<T>,
    pub started: bool,
    pub complete: bool,
}

impl<T> PageCursor<T> {
    pub fn new() -> (r: Self)
        ensures
            r.items@.len() == 0,
            !r.started,
            !r.complete,
    {
        PageCursor { items: Vec::new(), started: false, complete: false }
    }

    pub fn is_complete(&self) -> (r: bool)
        ensures
            r == self.complete,
    {
        self.complete
    }

    /// Takes in the next page and returns the token of the page to ask for
    /// after it, or `None` when the listing is complete.
    pub fn accept(&mut self, page: ListingPage<T>) -> (r: Option<String>)
        requires
            !old(self).complete,
        ensures
            final(self).items@ == old(self).items@ + page.items@,
            final(self).started,
            final(self).complete == page.next_token is None,
            r == page.next_token,
    {
        let ListingPage { mut items, next_token } = page;
        self.items.append(&mut items);
        self.started = true;
        self.complete = next_token.is_none();
        next_token
    }

    /// The failure of a listing whose next page could not be fetched: the
    /// listing is unavailable when not even its first page came, and
    /// partial otherwise.
    pub fn interrupted(self, cause: CatalogError) -> (r: CatalogError)
        ensures
            !self.started ==> r == cause,
            self.started ==> r == CatalogError::PartialListing,
    {
        if self.started {
            CatalogError::PartialListing
        } else {
            cause
        }
    }

    /// All items of a complete listing, in listing order; a listing that
    /// stopped before its last page is a failure.
    pub fn finish(self) -> (r: Result<Vec<T>, CatalogError>)
        ensures
            self.complete ==> (r matches Ok(v) && v@ == self.items@),
            !self.complete ==> r == Err::<Vec<T>, CatalogError>(CatalogError::PartialListing),
    {
        if self.complete {
            Ok(self.items)
        } else {
            Err(CatalogError::PartialListing)
        }
    }
}

} // verus!
