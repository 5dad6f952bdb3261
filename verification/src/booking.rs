//! The computed parts of the booking endpoints: pagination of the list
//! query and the not-found message. The booking rows themselves carry a
//! monetary amount and live with the store code.

use vstd::prelude::*;

use crate::schema::FilterOptions;
use crate::text::{dec_rep, i32_to_dec};

verus! {

/// The page requested, defaulting to the first.
pub open spec fn requested_page(opts: FilterOptions) -> int {
    match opts.page {
        Some(p) => p as int,
        None => 1,
    }
}

/// The page size requested, defaulting to ten rows.
pub open spec fn requested_limit(opts: FilterOptions) -> int {
    match opts.limit {
        Some(l) => l as int,
        None => 10,
    }
}

/// The limit and offset of the booking list query: `limit` rows,
/// skipping the pages before the requested one. A page of zero and an
/// offset beyond `usize` do not denote a query.
pub fn pagination(opts: &FilterOptions) -> (r: Option<(usize, usize)>)
    ensures
        r matches Some(p) ==> {
            &&& p.0 == requested_limit(*opts)
            &&& p.1 == (requested_page(*opts) - 1) * requested_limit(*opts)
        },
        r is None <==> (requested_page(*opts) < 1 || (requested_page(*opts) - 1) * requested_limit(
            *opts,
        ) > usize::MAX),
{
    let limit: usize = match opts.limit {
        Some(l) => l,
        None => 10,
    };
    let page: usize = match opts.page {
        Some(p) => p,
        None => 1,
    };
    if page < 1 {
        return None;
    }
    match (page - 1).checked_mul(limit) {
        Some(offset) => Some((limit, offset)),
        None => None,
    }
}

/// The message of the booking not-found rejection.
pub fn booking_not_found_message(id: i32) -> (r: String)
    ensures
        r@ == "Booking with ID: "@ + dec_rep(id as int) + " not found"@,
{
    let mut s = "Booking with ID: ".to_owned();
    let num = i32_to_dec(id);
    s.append(num.as_str());
    s.append(" not found");
    proof {
        assert(s@ =~= "Booking with ID: "@ + dec_rep(id as int) + " not found"@);
    }
    s
}

} // verus!
