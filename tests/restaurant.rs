use vvscode::restaurant::{add_to_waitlist, eat_at_restaurant};

#[test]
fn seating_a_party_returns() {
    add_to_waitlist();
    eat_at_restaurant();
}
