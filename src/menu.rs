use vstd::prelude::*;

verus! {

/// The dishes on the menu.
#[derive(Debug, Clone, Copy, PartialEq, Eq, Hash, Structural)]
pub enum Dish {
    ThaiChicken,
    Tofu,
    FriedRice,
}

/// Surcharge added for each item of a takeaway order.
pub const TAKEAWAY_FEE: u32 = 1;

/// The unit price of a dish.
pub open spec fn price_of(dish: Dish) -> nat {
    match dish {
        Dish::ThaiChicken => 20,
        Dish::Tofu => 15,
        Dish::FriedRice => 12,
    }
}

impl Dish {
    /// The unit price of this dish.
    pub fn price(&self) -> (r: u32)
        ensures
            r == price_of(*self),
    {
        match self {
            Dish::ThaiChicken => 20,
            Dish::Tofu => 15,
            Dish::FriedRice => 12,
        }
    }
}

} // verus!
