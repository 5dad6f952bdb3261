use local_hotel::booking::{booking_not_found_message, pagination};
use local_hotel::envelope::{health_check_response, not_found_response};
use local_hotel::schema::FilterOptions;

#[test]
fn pagination_defaults() {
    let opts = FilterOptions::default();
    assert_eq!(pagination(&opts), Some((10, 0)));
}

#[test]
fn pagination_computes_offset() {
    let opts = FilterOptions { page: Some(3), limit: Some(25) };
    assert_eq!(pagination(&opts), Some((25, 50)));
    let first = FilterOptions { page: Some(1), limit: Some(7) };
    assert_eq!(pagination(&first), Some((7, 0)));
}

#[test]
fn pagination_rejects_page_zero_and_overflow() {
    let zero = FilterOptions { page: Some(0), limit: Some(10) };
    assert_eq!(pagination(&zero), None);
    let huge = FilterOptions { page: Some(usize::MAX), limit: Some(usize::MAX) };
    assert_eq!(pagination(&huge), None);
}

#[test]
fn not_found_message_carries_the_id() {
    assert_eq!(booking_not_found_message(17), "Booking with ID: 17 not found");
    assert_eq!(booking_not_found_message(-3), "Booking with ID: -3 not found");
}

#[test]
fn constant_bodies() {
    let health = health_check_response();
    assert_eq!(health.status, "success");
    assert_eq!(health.message, "Local Hotel API is alive and well");
    let missing = not_found_response();
    assert_eq!(missing.status, "fail");
    assert_eq!(missing.message, "Content not found");
}
