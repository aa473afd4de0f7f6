//! A checksum engine for textual wallet output descriptors, together with the
//! boundary contract of the address-validator callbacks that a wallet polls
//! whenever it derives a new address.

pub mod checksum;
pub mod validator;
