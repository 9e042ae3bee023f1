//! A restaurant split into front of house and back of house: seating and
//! order-taking up front, cooking in the back. Mostly an exercise in
//! laying out modules; the one piece of data is the breakfast.

use vstd::prelude::*;
use vstd::string::StringExecFns;

verus! {

/// Puts a party on the waiting list.
pub fn add_to_waitlist() {
}

/// Seats a waiting party at a table.
pub fn seat_at_table() {
}

/// Cooks whatever was ordered.
pub fn cook_order() {
}

/// Cooks the order that was taken down wrong, again.
pub fn _fix_incorrect_order() {
    cook_order();
}

/// Takes an order down.
fn take_order() {
}

/// Carries the order out.
fn serve_order() {
}

/// Settles the bill.
fn take_payment() {
}

/// One visit, front to back: get seated, order a summer breakfast with the
/// toast changed at the table, and pay.
pub fn eat_at_restaurant() {
    add_to_waitlist();
    seat_at_table();

    let mut meal = Breakfast::summer("Rye");
    meal.toast = String::from_str("Wheat");

    take_order();
    cook_order();
    serve_order();
    take_payment();
}

/// A breakfast: the customer picks the toast, the kitchen picks the
/// seasonal fruit.
pub struct Breakfast {
    pub toast: String,
    seasonal_fruit: String,
}

impl Breakfast {
    /// The customer's choice of toast.
    pub closed spec fn spec_toast(&self) -> Seq<char> {
        self.toast@
    }

    /// The fruit the kitchen chose.
    pub closed spec fn spec_fruit(&self) -> Seq<char> {
        self.seasonal_fruit@
    }

    /// The summer breakfast: the customer's toast with peaches.
    pub fn summer(toast: &str) -> (b: Breakfast)
        ensures
            b.spec_toast() == toast@,
            b.spec_fruit() == "peaches"@,
    {
        Breakfast { toast: String::from_str(toast), seasonal_fruit: String::from_str("peaches") }
    }
}

} // verus!
