//! The canonical quote record and its builder.
//!
//! A stock quote is immutable once built: the builder reads the first chart
//! result and the first quote series of a validated feed and derives the
//! analytics. Prices stand as IEEE-754 bit patterns (see the price module);
//! the percent change over the previous close is a ratio of two such
//! prices, floating-point arithmetic, and is therefore derived by the
//! caller that formats the record, never stored here.

use vstd::prelude::*;

use crate::feed::Chart;

verus! {

/// The canonical, immutable quote record consumed by the dashboard.
#[derive(Debug)]
pub struct StockQuote {
    pub symbol: String,
    pub high: u64,
    pub low: u64,
    pub open: u64,
    pub price: u64,
    pub previous_close: u64,
    pub price_points: Vec<u64>,
}

impl StockQuote {
    /// Build the canonical record from a validated feed: the symbol and the
    /// two metadata prices are copied, the high and low are the NaN-seeded
    /// folds of their correspondingly-named normalized series, the open is
    /// the first normalized open sample (the zero encoding when that series
    /// is empty), and the price points are the normalized open series
    /// verbatim.
    pub fn from_chart(chart: &Chart) -> (q: StockQuote)
        requires
            chart.well_formed(),
        ensures
            q.symbol@ == chart.spec_meta().symbol@,
            q.high == chart.spec_high(),
            q.low == chart.spec_low(),
            q.open == chart.spec_open(),
            q.price == chart.spec_meta().regular_market_price,
            q.previous_close == chart.spec_meta().previous_close,
            q.price_points@ == chart.spec_points(),
    {
        StockQuote {
            symbol: chart.symbol().clone(),
            high: chart.high(),
            low: chart.low(),
            open: chart.open(),
            price: chart.price(),
            previous_close: chart.previous_close(),
            price_points: chart.price_points(),
        }
    }
}

} // verus!
