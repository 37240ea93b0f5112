//! The exmo exchange's client: its errors, the requests it writes (signed
//! where they are private) and the reading of exmo's replies.

pub mod error;
pub mod request;
pub mod sign;
