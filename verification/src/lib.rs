//! A small authenticated web core: login with username and password against
//! a credential store, a session carried in a tamper-evident cookie, and a
//! profile served only to a resolvable session.
//!
//! The adaptive password hashing and the cookie sealing come from outside
//! crates behind trusted contracts; every decision around them is verified.

pub mod codec;
pub mod gate;
pub mod password;
pub mod session;
pub mod store;
