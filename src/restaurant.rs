//! A restaurant's menu types: appetizers, and a breakfast whose toast the
//! customer picks while the kitchen keeps the seasonal fruit to itself.

use vstd::prelude::*;
use vstd::string::StringExecFns;

verus! {

/// An appetizer on the menu.
#[derive(Clone, Copy, Debug, PartialEq, Eq, Structural)]
pub enum Appetizer {
    Soup,
    Salad,
}

/// A breakfast: the customer chooses the toast; the fruit comes with the
/// season and cannot be changed from outside.
pub struct Breakfast {
    pub toast: String,
    seasonal_fruit: String,
}

impl Breakfast {
    /// The toast of this breakfast.
    pub closed spec fn toast_chars(&self) -> Seq<char> {
        self.toast@
    }

    /// The fruit that comes with this breakfast.
    pub closed spec fn fruit_chars(&self) -> Seq<char> {
        self.seasonal_fruit@
    }

    /// The summer breakfast: the given toast, with peaches.
    pub fn summer(toast: &str) -> (meal: Breakfast)
        ensures
            meal.toast_chars() == toast@,
            meal.fruit_chars() == "peaches"@,
    {
        Breakfast { toast: String::from_str(toast), seasonal_fruit: String::from_str("peaches") }
    }

    /// Reads the fruit that comes with this breakfast.
    pub fn seasonal_fruit(&self) -> (fruit: &str)
        ensures
            fruit@ == self.fruit_chars(),
    {
        self.seasonal_fruit.as_str()
    }

    /// The sentence a customer says to order this breakfast:
    /// "I'd like <toast> toast please".
    pub fn order_line(&self) -> (line: String)
        ensures
            line@ == "I'd like "@ + self.toast_chars() + " toast please"@,
    {
        let line = String::from_str("I'd like ");
        let line = line.concat(self.toast.as_str());
        line.concat(" toast please")
    }
}

} // verus!
