//! Request building, response interpretation and webhook handling for the
//! Paydunya and Peach Payments APM connectors, with their contracts proved by
//! Verus.

pub mod accessors;
pub mod domain;
pub mod laws;
pub mod outside;
pub mod paydunya;
pub mod peach;
pub mod text;
