//! Pagination parameters for listing requests.

use vstd::prelude::*;

verus! {

/// How many rows a page holds when the caller does not say.
pub const DEFAULT_PAGE_LIMIT: u32 = 20;

/// A page window over a listing: `limit` rows starting at row `page * limit`.
/// Both fields are optional; `limit` defaults to 20 and `page` to 0.
#[derive(Debug, Clone, Copy)]
pub struct Pagination {
    pub limit: Option<u32>,
    pub page: Option<u32>,
}

impl Pagination {
    /// The effective page size.
    pub open spec fn spec_limit(&self) -> u32 {
        match self.limit {
            Some(l) => l,
            None => DEFAULT_PAGE_LIMIT,
        }
    }

    /// The effective zero-based page number.
    pub open spec fn spec_page(&self) -> u32 {
        match self.page {
            Some(p) => p,
            None => 0u32,
        }
    }

    /// The row offset of the window: `page * limit`, as a mathematical integer.
    pub open spec fn spec_offset(&self) -> int {
        self.spec_page() * self.spec_limit()
    }

    pub fn limit(&self) -> (r: u32)
        ensures
            r == self.spec_limit(),
    {
        match self.limit {
            Some(l) => l,
            None => DEFAULT_PAGE_LIMIT,
        }
    }

    pub fn page(&self) -> (r: u32)
        ensures
            r == self.spec_page(),
    {
        match self.page {
            Some(p) => p,
            None => 0u32,
        }
    }

    /// The window as `[limit, offset]`, the shape the SQL layer binds.
    pub fn params(&self) -> (r: [u32; 2])
        requires
            self.spec_offset() <= u32::MAX,
        ensures
            r[0] == self.spec_limit(),
            r[1] == self.spec_offset(),
    {
        let limit = self.limit();
        let page = self.page() * limit;
        [limit, page]
    }

    /// The row offset of the window, widened so it can never overflow.
    pub fn offset_u64(&self) -> (r: u64)
        ensures
            r == self.spec_offset(),
    {
        let p = self.page() as u64;
        let l = self.limit() as u64;
        proof {
            assert(p * l <= 0xffff_ffffu64 * 0xffff_ffffu64) by (nonlinear_arith)
                requires
                    p <= 0xffff_ffffu64,
                    l <= 0xffff_ffffu64,
            ;
        }
        p * l
    }
}

} // verus!
