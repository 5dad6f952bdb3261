//! The request bodies the auth endpoints parse, and the list-endpoint
//! query options.

use vstd::prelude::*;

verus! {

/// Query options of the booking list endpoint.
pub struct FilterOptions {
    pub page: Option<usize>,
    pub limit: Option<usize>,
}

impl Default for FilterOptions {
    fn default() -> (r: Self)
        ensures
            r.page is None,
            r.limit is None,
    {
        FilterOptions { page: None, limit: None }
    }
}

/// The body of a registration request. All fields are required; the
/// password arrives in plaintext and is hashed before it is stored.
pub struct RegisterGuestSchema {
    pub first_name: String,
    pub last_name: String,
    pub email_address: String,
    pub password: String,
    pub phone_number: String,
}

/// The body of a login request.
pub struct LoginGuestSchema {
    pub email_address: String,
    pub password: String,
}

} // verus!
