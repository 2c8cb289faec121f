//! The decision core of the quote fetcher.
//!
//! The transport — issuing the request, TLS, timeouts — is an external
//! collaborator that hands over either a failure or the decoded response
//! envelope. Everything the fetcher decides from there is here: the
//! endpoint address for a symbol, and the mapping of a decoded envelope to
//! the canonical quote or to a typed failure.

use vstd::prelude::*;
use vstd::string::StringExecFns;

use crate::error::{ErrorKind, QuoteError};
use crate::feed::Chart;
use crate::quote::StockQuote;
use crate::series::{norm_err_text, series_ok, yahoo_nums, NormError};

verus! {

/// The fixed provider endpoint, path-templated with the ticker symbol and
/// carrying the fixed query parameters of a single-day intraday request.
pub fn quote_url(symbol: &str) -> (r: String)
    requires
        symbol@.len() >= 1,
    ensures
        r@ == "https://query1.finance.yahoo.com/v8/finance/chart/"@ + symbol@
            + "?region=US&lang=en-US&includePrePost=true&interval=2m&range=1d&corsDomain=finance.yahoo.com&.tsrc=finance"@,
{
    let mut url = String::from_str("https://query1.finance.yahoo.com/v8/finance/chart/");
    url.append(symbol);
    url.append(
        "?region=US&lang=en-US&includePrePost=true&interval=2m&range=1d&corsDomain=finance.yahoo.com&.tsrc=finance",
    );
    url
}

/// The rejection of the first unacceptable ragged list of the first quote
/// series, in field order: open, high, low, close.
pub open spec fn feed_norm_err(c: Chart) -> NormError {
    let q = c.spec_quote();
    if !series_ok(q.open@) {
        crate::series::series_err(q.open@)
    } else if !series_ok(q.high@) {
        crate::series::series_err(q.high@)
    } else if !series_ok(q.low@) {
        crate::series::series_err(q.low@)
    } else {
        crate::series::series_err(q.close@)
    }
}

/// Turn a decoded response envelope into the canonical quote, or into the
/// typed failure the envelope calls for.
///
/// A provider-level error payload wins over everything else and never
/// reaches the builder: it surfaces as a missing-data failure carrying the
/// payload, with the symbol attached and no chained cause. An envelope
/// without a first chart result or first quote series, and one whose series
/// hold unacceptable elements, are parse failures. Only a clean envelope
/// yields the built quote.
pub fn quote_from_feed(symbol: &str, chart: &Chart) -> (r: Result<StockQuote, QuoteError>)
    ensures
        r is Ok <==> chart.error is None && chart.well_formed(),
        r matches Ok(q) ==> {
            &&& q.symbol@ == chart.spec_meta().symbol@
            &&& q.high == chart.spec_high()
            &&& q.low == chart.spec_low()
            &&& q.open == chart.spec_open()
            &&& q.price == chart.spec_meta().regular_market_price
            &&& q.previous_close == chart.spec_meta().previous_close
            &&& q.price_points@ == chart.spec_points()
        },
        r matches Err(e) ==> e.symbol@ == symbol@,
        chart.error matches Some(m) ==> (r matches Err(e) && {
            &&& e.kind == ErrorKind::MissingData
            &&& e.message@ == "Missing Data"@
            &&& e.detail matches Some(d) && d@ == m@
        }),
        chart.error is None && !chart.has_data() ==> (r matches Err(e) && {
            &&& e.kind == ErrorKind::ParseFailure
            &&& e.message@ == "Parse Failure"@
            &&& e.detail matches Some(d) && d@ == "empty chart result"@
        }),
        chart.error is None && chart.has_data() && !chart.well_formed() ==> (r matches Err(e)
            && {
            &&& e.kind == ErrorKind::ParseFailure
            &&& e.message@ == "Parse Failure"@
            &&& e.detail matches Some(d) && d@ == norm_err_text(feed_norm_err(*chart))
        }),
{
    if let Some(m) = &chart.error {
        return Err(QuoteError::missing_data(symbol, m.clone()));
    }
    if chart.result.len() == 0 {
        return Err(QuoteError::parse_failure(symbol, String::from_str("empty chart result")));
    }
    if chart.result[0].indicators.quote.len() == 0 {
        return Err(QuoteError::parse_failure(symbol, String::from_str("empty chart result")));
    }
    let q = chart.quote();
    if let Err(e) = yahoo_nums(&q.open) {
        return Err(QuoteError::parse_failure(symbol, e.message()));
    }
    if let Err(e) = yahoo_nums(&q.high) {
        return Err(QuoteError::parse_failure(symbol, e.message()));
    }
    if let Err(e) = yahoo_nums(&q.low) {
        return Err(QuoteError::parse_failure(symbol, e.message()));
    }
    if let Err(e) = yahoo_nums(&q.close) {
        return Err(QuoteError::parse_failure(symbol, e.message()));
    }
    Ok(StockQuote::from_chart(chart))
}

} // verus!
