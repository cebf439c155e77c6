//! A breakfast with a public and a private field, appetizers, and a kitchen
//! that only the restaurant itself can reach.

mod kitchen;

use vstd::prelude::*;

verus! {

/// A breakfast: the toast is chosen by the guest, the fruit by the season.
pub struct Breakfast {
    pub toast: String,
    seasonal_fruit: String,
}

impl Breakfast {
    /// The toast of this breakfast.
    pub closed spec fn toast_view(&self) -> Seq<char> {
        self.toast@
    }

    /// The fruit of this breakfast.
    pub closed spec fn fruit_view(&self) -> Seq<char> {
        self.seasonal_fruit@
    }

    /// A summer breakfast with the given toast and peaches.
    pub fn summer(toast: &str) -> (b: Breakfast)
        ensures
            b.toast_view() == toast@,
            b.fruit_view() == "桃子"@,
    {
        Breakfast { toast: String::from_str(toast), seasonal_fruit: String::from_str("桃子") }
    }

    /// The seasonal fruit.
    pub fn fruit(&self) -> (r: &str)
        ensures
            r@ == self.fruit_view(),
    {
        self.seasonal_fruit.as_str()
    }
}

/// The appetizers on offer.
pub enum Appetizer {
    Soup,
    Salad,
    Bread,
}

/// Serves what the kitchen prepares.
pub fn serve() -> (r: String)
    ensures
        r@ == kitchen::meal_text(),
{
    kitchen::prepare_meal()
}

} // verus!
