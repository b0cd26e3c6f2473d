//! Addresses of the parties a token contract deals with: user accounts and
//! contract packages.
//!
//! An [`Address`] holds the hash of an account or of a contract package. It
//! is ordered, compared and rendered as text by its bytes, stands for a
//! storage [`Key`], and travels in that key's binary form.
//!
//! The hashes, the key and the error are plain values of this library that
//! hold what the types of the same names in `casper_types` hold. Rendering,
//! encoding and decoding are done by `casper_types` itself, behind the few
//! functions of [`hash`] and [`key`] whose documentation starts with
//! "Trusted"; everything else is proved, and [`laws`] states what holds of
//! every address.

pub mod address;
pub mod error;
pub mod hash;
pub mod key;
pub mod laws;

pub use address::Address;
pub use error::Error;
pub use hash::{AccountHash, ContractPackageHash, HashAddr};
pub use key::Key;
