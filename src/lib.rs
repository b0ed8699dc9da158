//! Pluggable block-validity engines for a toy hash-linked header chain.
pub mod hashing;
pub mod header;
pub mod pow;
pub mod poa;
pub mod even_only;
pub mod alternating;
pub mod forking;
pub mod driver;
pub mod chain;
