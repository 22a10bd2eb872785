//! The front of house of a restaurant: seating guests.

use vstd::prelude::*;

verus! {

/// Puts a party on the waiting list for a table.
pub fn add_to_waitlist() {
}

/// Seats a party by way of the waiting list, reached first by its absolute
/// path and then by its imported name.
pub fn eat_at_restaurant() {
    crate::restaurant::add_to_waitlist();
    add_to_waitlist();
}

} // verus!
