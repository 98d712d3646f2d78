//! Pagination: query options with their defaults and the offset
//! computation.

use vstd::prelude::*;

verus! {

/// The optional query parameters of the list operation. `page` is 1-based
/// and defaults to 1; `limit` defaults to 10. No upper bound is enforced:
/// caller-supplied values are trusted.
pub struct FilterOptions {
    pub page: Option<u32>,
    pub limit: Option<u32>,
}

/// The page after applying the default.
pub open spec fn spec_page(opts: FilterOptions) -> int {
    match opts.page {
        Option::Some(p) => p as int,
        Option::None => 1,
    }
}

/// The limit after applying the default.
pub open spec fn spec_limit(opts: FilterOptions) -> int {
    match opts.limit {
        Option::Some(l) => l as int,
        Option::None => 10,
    }
}

/// The number of rows to skip: `(page - 1) * limit`.
pub open spec fn spec_offset(opts: FilterOptions) -> int {
    (spec_page(opts) - 1) * spec_limit(opts)
}

/// Resolve the query options to the pair `(offset, limit)`. Offsets and
/// limits are never negative; the offset is exactly `(page - 1) * limit`.
pub fn resolve(opts: &FilterOptions) -> (r: (u64, u64))
    requires
        spec_page(*opts) >= 1,
    ensures
        r.0 == spec_offset(*opts),
        r.1 == spec_limit(*opts),
{
    let page: u64 = match opts.page {
        Option::Some(p) => p as u64,
        Option::None => 1,
    };
    let limit: u64 = match opts.limit {
        Option::Some(l) => l as u64,
        Option::None => 10,
    };
    proof {
        assert((page - 1) * limit <= 0xFFFF_FFFFu64 * 0xFFFF_FFFFu64) by (nonlinear_arith)
            requires
                1 <= page <= 0x1_0000_0000u64,
                limit <= 0xFFFF_FFFFu64,
        ;
    }
    ((page - 1) * limit, limit)
}

} // verus!
