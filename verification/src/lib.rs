//! Rainbow tables for MD5: chain generation, table construction and lookup,
//! with the behaviour of every function stated as a contract and proved.

pub mod digest;
pub mod error;
pub mod hex;
pub mod laws;
pub mod race;
pub mod seeds;
pub mod table;
pub mod utils;

pub use hex::decode_hex;
pub use table::Rainbow;
