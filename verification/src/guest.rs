//! Guest records and their response projections. Timestamps are held
//! as epoch seconds; the store supplies them on insert.

use vstd::prelude::*;

verus! {

/// A guest identity record as the store holds it. `password` is the
/// PHC-encoded hash, never the plaintext, and must never cross the
/// trust boundary in a response.
#[derive(Debug)]
pub struct Guest {
    pub id: i32,
    pub first_name: String,
    pub last_name: String,
    pub email_address: String,
    pub password: String,
    pub verified: bool,
    pub phone_number: String,
    pub created_at: Option<i64>,
    pub updated_at: Option<i64>,
}

/// The row a successful registration inserts: the guest's fields with
/// the email already normalized and the password already hashed. The
/// store assigns `id`, `verified` and the timestamps.
#[derive(Debug)]
pub struct NewGuest {
    pub first_name: String,
    pub last_name: String,
    pub email_address: String,
    pub password: String,
    pub phone_number: String,
}

/// A guest as responses show it: every field but the password hash.
pub struct FilteredGuest {
    pub id: i32,
    pub first_name: String,
    pub last_name: String,
    pub email_address: String,
    pub verified: bool,
    pub phone_number: String,
    pub created_at: i64,
    pub updated_at: i64,
}

pub struct GuestData {
    pub guest: FilteredGuest,
}

/// The `{status: "success", data: {guest}}` envelope of the endpoints
/// that answer with a guest.
pub struct GuestResponse {
    pub status: String,
    pub data: GuestData,
}

/// The projection `filter_guest_record` computes.
pub open spec fn filtered_of(g: Guest) -> FilteredGuest {
    FilteredGuest {
        id: g.id,
        first_name: g.first_name,
        last_name: g.last_name,
        email_address: g.email_address,
        verified: g.verified,
        phone_number: g.phone_number,
        created_at: g.created_at.unwrap(),
        updated_at: g.updated_at.unwrap(),
    }
}

/// Projects a guest record to what a response may show: everything but
/// the password hash.
pub fn filter_guest_record(guest: &Guest) -> (r: FilteredGuest)
    requires
        guest.created_at is Some,
        guest.updated_at is Some,
    ensures
        r == filtered_of(*guest),
{
    FilteredGuest {
        id: guest.id,
        first_name: guest.first_name.clone(),
        last_name: guest.last_name.clone(),
        email_address: guest.email_address.clone(),
        verified: guest.verified,
        phone_number: guest.phone_number.clone(),
        created_at: match guest.created_at {
            Some(t) => t,
            None => 0,
        },
        updated_at: match guest.updated_at {
            Some(t) => t,
            None => 0,
        },
    }
}

/// The success envelope around a filtered guest, as registration and
/// the profile endpoint answer it.
pub fn guest_response(guest: &Guest) -> (r: GuestResponse)
    requires
        guest.created_at is Some,
        guest.updated_at is Some,
    ensures
        r.status@ == "success"@,
        r.data.guest == filtered_of(*guest),
{
    GuestResponse {
        status: "success".to_owned(),
        data: GuestData { guest: filter_guest_record(guest) },
    }
}

} // verus!
