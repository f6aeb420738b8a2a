//! The query side: the reply to a request on the local channel, and the
//! client's choice of which value to show.
use vstd::prelude::*;
use crate::decimal::{format_mean, mean_text};
use crate::window::{kept, price_total, PriceWindow};

verus! {

/// The reply to a request: the mean price of the window that ends at `now`,
/// with two digits after the point. The request's bytes are not read.
pub fn respond(request: &[u8], window: &PriceWindow, now: u64, window_seconds: u64) -> (r: Vec<u8>)
    ensures
        r@ == mean_text(
            (
                price_total(kept(window@, now, window_seconds)),
                kept(window@, now, window_seconds).len(),
            ),
        ),
{
    let mean = window.average_within(now, window_seconds);
    format_mean(&mean)
}

/// Whether the client shows the portfolio value rather than the price: in
/// portfolio mode it alternates, the price in even minutes of the hour and
/// the portfolio value in odd ones.
pub fn shows_portfolio_value(portfolio_mode: bool, now_seconds: u64) -> (r: bool)
    ensures
        r == (portfolio_mode && (now_seconds / 60) % 60 % 2 == 1),
{
    portfolio_mode && (now_seconds / 60) % 60 % 2 == 1
}

} // verus!
