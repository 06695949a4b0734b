//! Order taking for a small restaurant: a fixed menu, orders priced from it,
//! and a directory of customers with their favorite orders.

pub mod directory;
pub mod menu;
pub mod order;
pub mod prompt;
pub mod text;
