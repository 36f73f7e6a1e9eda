//! One module per instruction: the accounts it takes, the constraints they
//! must meet, and what the instruction does to them.

pub mod initialize;
pub mod list;
pub mod buy;
pub mod delist;
pub mod make_offer;
pub mod accept_offer;
pub mod close_offer;
pub mod reject_offer;
pub mod withdraw_fee;
