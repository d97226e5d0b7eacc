//! Pager for a live-channel search endpoint: follows continuation cursors,
//! turns each raw result object into a typed record, keeps the records whose
//! title mentions the keyword, and renders one output line per match.
//!
//! The network call, the environment lookup and the JSON parse live outside
//! this crate; everything here works on plain values and is verified.

pub mod config;
pub mod driver;
pub mod json;
pub mod output;
pub mod page;
pub mod record;
pub mod text;

use vstd::prelude::*;

verus! {

} // verus!
