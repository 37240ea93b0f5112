//! The exchange service: its errors and the decisions it takes between the
//! requests it makes to the database and to exmo.

pub mod error;
pub mod orders;
pub mod refresh;
pub mod sell;
