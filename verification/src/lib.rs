//! Extraction pipeline for purchase-receipt emails.
//!
//! The library turns saved receipt emails into purchase records and renders
//! them as CSV bytes.  The decision logic — recognising the purchaser cell,
//! filtering genuine line-item rows, tolerant price parsing, per-row and
//! per-file failure isolation — is verified.  HTML parsing, CSS-selector
//! matching, MIME splitting, currency parsing and CSV encoding are done by
//! outside crates behind small trusted wrappers.

pub mod records;
pub mod price;
pub mod dom;
pub mod extract;
pub mod mail;
pub mod csvout;
