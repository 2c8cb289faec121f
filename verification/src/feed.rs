//! The provider's response envelope, as plain values.
//!
//! The envelope mirrors the remote chart feed: a chart holds one or more
//! results plus an optional provider-level error payload; a result pairs the
//! session metadata with the indicators; the indicators hold one or more
//! quote series nodes, each with four ragged numeric lists. A feed is
//! constructed once per fetch from the decoded response body, read by the
//! quote builder, and never mutated. Prices stand as IEEE-754 bit patterns
//! (see the price module).

use vstd::prelude::*;

use crate::price::{px_fold_max, px_fold_min, px_max, px_min};
use crate::series::{series_nums, series_ok, yahoo_nums, SeriesElem};

verus! {

/// Session metadata of one chart result.
#[derive(Debug)]
pub struct Meta {
    pub currency: String,
    pub symbol: String,
    pub timezone: String,
    pub regular_market_price: u64,
    pub previous_close: u64,
    pub exchange_name: String,
}

/// One quote series node: the four ragged numeric lists of a session.
#[derive(Debug)]
pub struct Quote {
    pub open: Vec<SeriesElem>,
    pub high: Vec<SeriesElem>,
    pub low: Vec<SeriesElem>,
    pub close: Vec<SeriesElem>,
}

/// The indicators of one chart result.
#[derive(Debug)]
pub struct Indicators {
    pub quote: Vec<Quote>,
}

/// One chart result: metadata plus indicators.
#[derive(Debug)]
pub struct ChartResult {
    pub meta: Meta,
    pub indicators: Indicators,
}

/// The whole decoded envelope: the chart results and the provider-level
/// error payload, already rendered as text where present.
#[derive(Debug)]
pub struct Chart {
    pub result: Vec<ChartResult>,
    pub error: Option<String>,
}

/// Whether all four ragged lists of a series node are acceptable.
pub open spec fn quote_ok(q: Quote) -> bool {
    &&& series_ok(q.open@)
    &&& series_ok(q.high@)
    &&& series_ok(q.low@)
    &&& series_ok(q.close@)
}

impl Chart {
    /// Whether the envelope holds a first result with a first quote series;
    /// the builder reads those two unconditionally.
    pub open spec fn has_data(self) -> bool {
        self.result@.len() >= 1 && self.result@[0].indicators.quote@.len() >= 1
    }

    /// The first result's metadata.
    pub open spec fn spec_meta(self) -> Meta {
        self.result@[0].meta
    }

    /// The first result's first quote series.
    pub open spec fn spec_quote(self) -> Quote {
        self.result@[0].indicators.quote@[0]
    }

    /// Whether the envelope is fit for the builder: the first result and
    /// series exist and every ragged list of that series is acceptable.
    pub open spec fn well_formed(self) -> bool {
        self.has_data() && quote_ok(self.spec_quote())
    }

    /// The session high: the NaN-seeded maximum of the normalized
    /// high-labelled series.
    pub open spec fn spec_high(self) -> u64 {
        px_fold_max(series_nums(self.spec_quote().high@))
    }

    /// The session low: the NaN-seeded minimum of the normalized
    /// low-labelled series.
    pub open spec fn spec_low(self) -> u64 {
        px_fold_min(series_nums(self.spec_quote().low@))
    }

    /// The time-ordered normalized open-price samples.
    pub open spec fn spec_points(self) -> Seq<u64> {
        series_nums(self.spec_quote().open@)
    }

    /// The session open: the first normalized open sample, or the zero
    /// encoding when the series is empty.
    pub open spec fn spec_open(self) -> u64 {
        if self.spec_points().len() == 0 {
            0
        } else {
            self.spec_points()[0]
        }
    }

    /// The first result's metadata.
    pub fn meta(&self) -> (r: &Meta)
        requires
            self.has_data(),
        ensures
            *r == self.spec_meta(),
    {
        &self.result[0].meta
    }

    /// The first result's first quote series.
    pub fn quote(&self) -> (r: &Quote)
        requires
            self.has_data(),
        ensures
            *r == self.spec_quote(),
    {
        &self.result[0].indicators.quote[0]
    }

    /// The ticker symbol of the session.
    pub fn symbol(&self) -> (r: &String)
        requires
            self.has_data(),
        ensures
            r@ == self.spec_meta().symbol@,
    {
        &self.meta().symbol
    }

    /// The session high (a price bit pattern).
    pub fn high(&self) -> (r: u64)
        requires
            self.has_data(),
            series_ok(self.spec_quote().high@),
        ensures
            r == self.spec_high(),
    {
        let nums = yahoo_nums(&self.quote().high).unwrap();
        px_max(&nums)
    }

    /// The session low (a price bit pattern).
    pub fn low(&self) -> (r: u64)
        requires
            self.has_data(),
            series_ok(self.spec_quote().low@),
        ensures
            r == self.spec_low(),
    {
        let nums = yahoo_nums(&self.quote().low).unwrap();
        px_min(&nums)
    }

    /// The session open (a price bit pattern): the first open sample, or
    /// the zero encoding when the open series is empty.
    pub fn open(&self) -> (r: u64)
        requires
            self.has_data(),
            series_ok(self.spec_quote().open@),
        ensures
            r == self.spec_open(),
    {
        let nums = yahoo_nums(&self.quote().open).unwrap();
        if nums.len() == 0 {
            0
        } else {
            nums[0]
        }
    }

    /// The current regular-market price (a price bit pattern).
    pub fn price(&self) -> (r: u64)
        requires
            self.has_data(),
        ensures
            r == self.spec_meta().regular_market_price,
    {
        self.meta().regular_market_price
    }

    /// The prior session close (a price bit pattern).
    pub fn previous_close(&self) -> (r: u64)
        requires
            self.has_data(),
        ensures
            r == self.spec_meta().previous_close,
    {
        self.meta().previous_close
    }

    /// The time-ordered normalized open-price samples, used for charting.
    pub fn price_points(&self) -> (r: Vec<u64>)
        requires
            self.has_data(),
            series_ok(self.spec_quote().open@),
        ensures
            r@ == self.spec_points(),
    {
        yahoo_nums(&self.quote().open).unwrap()
    }
}

} // verus!
