//! A terminal stock-ticker library: the verified core of a quote dashboard.
//!
//! The library normalizes the irregular JSON shape of a remote chart feed
//! into a canonical immutable quote record with derived analytics, maps
//! fetch failures into a single error taxonomy, and drives the keyboard-
//! navigable dashboard as a state machine. The transport that issues the
//! request, the decoding of the response bytes, the terminal drawing, and
//! all floating-point arithmetic live outside the library; prices cross its
//! boundary as IEEE-754 bit patterns.

use vstd::prelude::*;

pub mod error;
pub mod feed;
pub mod fetch;
pub mod price;
pub mod quote;
pub mod series;
pub mod ui;

pub use error::QuoteError;
pub use quote::StockQuote;

verus! {

/// A ticker symbol.
pub type Symbol = String;

} // verus!
