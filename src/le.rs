//! Low Energy controller parameters.
pub mod advertiser;
