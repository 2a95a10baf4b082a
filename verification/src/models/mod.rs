//! The records of the system and the values that clients send and receive.

pub mod products;
pub mod profiles;
pub mod reports;
pub mod users;

pub use products::StageEnum;
pub use users::RoleEnum;
