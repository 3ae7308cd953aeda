//! Word-value scoring library.
//!
//! Assigns a numeric value to words by summing per-character weights drawn
//! from a fixed table (digits `0`-`9`, letters `a`-`z`, case-insensitive),
//! and renders scored sessions or the weight table itself as plain text,
//! styled text lines, or JSON.

pub mod controller;
pub mod format;
pub mod jsonout;
pub mod options;
pub mod scoring;
pub mod table;
