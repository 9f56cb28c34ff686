//! The query layer: pagination over the record store.
//!
//! Pages are 1-based and the page size defaults to 10; a missing page
//! defaults to 1. A page or limit of zero is clamped to 1 rather than
//! rejected. Bounds past the end of the list give an empty page, never an
//! error, and the reply always reports the length of the page it carries.

use vstd::prelude::*;
use vstd::string::StringExecFns;

use crate::ip::{Ip, QueryOptions};
use crate::record_store::{page_of, RecordStore};
use crate::response::IpListResponse;

verus! {

/// The page a caller asked for: 1 when left out, and never 0.
pub open spec fn page_from(opts: QueryOptions) -> int {
    match opts.page {
        Some(p) => if p == 0 {
            1
        } else {
            p as int
        },
        None => 1,
    }
}

/// The page size a caller asked for: 10 when left out, and never 0.
pub open spec fn limit_from(opts: QueryOptions) -> int {
    match opts.limit {
        Some(l) => if l == 0 {
            1
        } else {
            l as int
        },
        None => 10,
    }
}

/// Resolve the optional pagination parameters to a concrete page and
/// limit, applying the defaults and clamping zeroes up to 1.
pub fn resolve_pagination(opts: &QueryOptions) -> (pl: (usize, usize))
    ensures
        pl.0 == page_from(*opts),
        pl.1 == limit_from(*opts),
        pl.0 >= 1,
        pl.1 >= 1,
{
    let page: usize = match opts.page {
        Some(p) => if p == 0 {
            1
        } else {
            p
        },
        None => 1,
    };
    let limit: usize = match opts.limit {
        Some(l) => if l == 0 {
            1
        } else {
            l
        },
        None => 10,
    };
    (page, limit)
}

/// The records of the 1-based page `page` of size `limit`, in insertion
/// order: records `(page - 1) * limit` up to but not including
/// `page * limit`, clipped to the list; a page past the end is empty.
pub fn paginate(store: &RecordStore, page: usize, limit: usize) -> (r: Vec<Ip>)
    requires
        page >= 1,
        limit >= 1,
    ensures
        r@ == page_of(store@, (page - 1) * limit, limit as int),
{
    let n = store.len();
    match (page - 1).checked_mul(limit) {
        Some(offset) => store.list(offset, limit),
        None => {
            proof {
                assert((page - 1) * limit > usize::MAX >= store@.len());
                assert(page_of(store@, (page - 1) * limit, limit as int) =~= Seq::<Ip>::empty());
            }
            Vec::new()
        },
    }
}

/// The whole listing request in one step: resolve the options, take the
/// page, and wrap it in a success reply whose `results` field is the
/// length of the page returned.
pub fn list_page(store: &RecordStore, opts: &QueryOptions) -> (r: IpListResponse)
    ensures
        r.status@ == "success"@,
        r.ips@ == page_of(store@, (page_from(*opts) - 1) * limit_from(*opts), limit_from(*opts)),
        r.results == r.ips@.len(),
{
    let (page, limit) = resolve_pagination(opts);
    let ips = paginate(store, page, limit);
    let n = ips.len();
    IpListResponse { status: String::from_str("success"), results: n, ips }
}

} // verus!
