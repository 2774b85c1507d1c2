//! Statistics over the day's integer price series: the price at the
//! current wall-clock hour and the stable minimum and maximum.

use vstd::prelude::*;
use crate::model::HourlyPrice;
use crate::text::{cheapest_line, now_line, priciest_line};
use crate::text::{render_cheapest_line, render_now_line, render_priciest_line};

verus! {

/// `i` is the index of the first occurrence of the smallest price.
pub open spec fn is_stable_min(s: Seq<u64>, i: int) -> bool {
    &&& 0 <= i < s.len()
    &&& forall|j: int| 0 <= j < s.len() ==> s[i] <= #[trigger] s[j]
    &&& forall|j: int| 0 <= j < i ==> #[trigger] s[j] > s[i]
}

/// `i` is the index of the first occurrence of the largest price.
pub open spec fn is_stable_max(s: Seq<u64>, i: int) -> bool {
    &&& 0 <= i < s.len()
    &&& forall|j: int| 0 <= j < s.len() ==> s[i] >= #[trigger] s[j]
    &&& forall|j: int| 0 <= j < i ==> #[trigger] s[j] < s[i]
}

/// The bare price values of the series, in order.
pub fn price_values(series: &Vec<HourlyPrice>) -> (r: Vec<u64>)
    ensures
        r@.len() == series@.len(),
        forall|i: int| 0 <= i < series@.len() ==> r@[i] == #[trigger] series@[i].price,
{
    let n = series.len();
    let mut r: Vec<u64> = Vec::new();
    let mut i: usize = 0;
    while i < n
        invariant
            i <= n,
            n == series.len(),
            r@.len() == i,
            forall|j: int| 0 <= j < i ==> r@[j] == #[trigger] series@[j].price,
        decreases n - i,
    {
        r.push(series[i].price);
        i += 1;
    }
    r
}

/// The index of the smallest price; on a tie the smaller index wins.
pub fn min_index(prices: &Vec<u64>) -> (r: usize)
    requires
        prices.len() > 0,
    ensures
        is_stable_min(prices@, r as int),
{
    let mut best: usize = 0;
    let mut i: usize = 1;
    while i < prices.len()
        invariant
            best < i,
            i <= prices.len(),
            forall|j: int| 0 <= j < i ==> prices@[best as int] <= #[trigger] prices@[j],
            forall|j: int| 0 <= j < best ==> #[trigger] prices@[j] > prices@[best as int],
        decreases prices.len() - i,
    {
        if prices[i] < prices[best] {
            best = i;
        }
        i += 1;
    }
    best
}

/// The index of the largest price; on a tie the smaller index wins.
pub fn max_index(prices: &Vec<u64>) -> (r: usize)
    requires
        prices.len() > 0,
    ensures
        is_stable_max(prices@, r as int),
{
    let mut best: usize = 0;
    let mut i: usize = 1;
    while i < prices.len()
        invariant
            best < i,
            i <= prices.len(),
            forall|j: int| 0 <= j < i ==> prices@[best as int] >= #[trigger] prices@[j],
            forall|j: int| 0 <= j < best ==> #[trigger] prices@[j] < prices@[best as int],
        decreases prices.len() - i,
    {
        if prices[i] > prices[best] {
            best = i;
        }
        i += 1;
    }
    best
}

/// The price at the current wall-clock hour.  The series is assumed
/// complete up to that hour; a shorter series is a caller error.
pub fn current_price(prices: &Vec<u64>, hour: usize) -> (r: u64)
    requires
        hour < prices.len(),
    ensures
        r == prices@[hour as int],
{
    prices[hour]
}

/// The price at the current wall-clock hour, or nothing when the series
/// is too short to contain that hour: the condition that is fatal for the
/// dashboard, surfaced as an absent value.
pub fn try_current_price(prices: &Vec<u64>, hour: usize) -> (r: Option<u64>)
    ensures
        hour < prices.len() ==> r == Some(prices@[hour as int]),
        hour >= prices.len() ==> r is None,
{
    if hour < prices.len() {
        Some(prices[hour])
    } else {
        None
    }
}

/// Builds the three console summary lines: current price, cheapest
/// one-hour window, most expensive one-hour window.
pub fn summary_lines(prices: &Vec<u64>, hour: usize) -> (r: (String, String, String))
    requires
        hour < prices.len(),
    ensures
        r.0@ == now_line(prices@[hour as int]),
        (exists|i: int| is_stable_min(prices@, i) && r.1@ == cheapest_line(i, prices@[i])),
        (exists|i: int| is_stable_max(prices@, i) && r.2@ == priciest_line(i, prices@[i])),
{
    let now = render_now_line(current_price(prices, hour));
    let lo = min_index(prices);
    let cheapest = render_cheapest_line(lo, current_price(prices, lo));
    let hi = max_index(prices);
    let priciest = render_priciest_line(hi, current_price(prices, hi));
    proof {
        assert(is_stable_min(prices@, lo as int) && cheapest@ == cheapest_line(
            lo as int,
            prices@[lo as int],
        ));
        assert(is_stable_max(prices@, hi as int) && priciest@ == priciest_line(
            hi as int,
            prices@[hi as int],
        ));
    }
    (now, cheapest, priciest)
}

} // verus!
