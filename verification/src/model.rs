//! Data model for one day of hourly electricity prices.
//!
//! A `PriceDocument` is one record of the remote collection: a set of hour
//! slots, each holding either a year-to-price mapping or a bare placeholder
//! integer that carries no price data.  Fractional prices are held in fixed
//! point, as ten-thousandths of the currency unit, so that the scaling to
//! integer sub-units (hundredths) is exact integer arithmetic.

use vstd::prelude::*;

verus! {

/// A fractional price held in fixed point: `ten_thousandths` counts
/// 1/10000 of the currency unit, so a stored value of 4590 means 0.4590.
#[derive(Clone, Copy, Debug)]
pub struct FracPrice {
    pub ten_thousandths: u64,
}

/// One year's price inside an hour slot's mapping.
#[derive(Clone, Copy, Debug)]
pub struct YearPrice {
    pub year: u32,
    pub price: FracPrice,
}

/// The value of one hour slot: either a mapping from year to fractional
/// price, or a placeholder integer with no price data.
#[derive(Clone, Debug)]
pub enum KloValue {
    PriceMap(Vec<YearPrice>),
    Placeholder(i32),
}

/// One hour slot of a document, keyed by the hour number the slot key
/// "klo HH" denotes.
#[derive(Clone, Debug)]
pub struct SlotEntry {
    pub hour: u8,
    pub value: KloValue,
}

/// One record of the remote collection.
#[derive(Clone, Debug)]
pub struct PriceDocument {
    pub slots: Vec<SlotEntry>,
}

/// One entry of the extracted series: a zero-padded hour label "00".."23"
/// and the integer price in sub-units (hundredths of the currency unit).
#[derive(Clone, Debug)]
pub struct HourlyPrice {
    pub label: String,
    pub price: u64,
}

/// The integer sub-unit price of a fractional price: the fractional value
/// times 100, truncated towards zero.  In fixed point this is exact:
/// floor((t / 10000) * 100) == t / 100.
pub open spec fn subunits_spec(f: FracPrice) -> u64 {
    f.ten_thousandths / 100
}

/// The value of the slot for hour `h`: the first entry with that hour
/// number, if any.
pub open spec fn slot_lookup(slots: Seq<SlotEntry>, h: int) -> Option<KloValue>
    decreases slots.len(),
{
    if slots.len() == 0 {
        None
    } else if slots[0].hour == h {
        Some(slots[0].value)
    } else {
        slot_lookup(slots.drop_first(), h)
    }
}

/// The fractional price recorded for `year`: the first entry with that
/// year, if any.
pub open spec fn year_lookup(entries: Seq<YearPrice>, year: int) -> Option<FracPrice>
    decreases entries.len(),
{
    if entries.len() == 0 {
        None
    } else if entries[0].year == year {
        Some(entries[0].price)
    } else {
        year_lookup(entries.drop_first(), year)
    }
}

/// The sub-unit price that document `doc` yields for hour `h` and the
/// target year: present exactly when the slot holds the mapping variant
/// and the mapping contains the year.
pub open spec fn hour_entry(doc: PriceDocument, year: u32, h: int) -> Option<u64> {
    match slot_lookup(doc.slots@, h) {
        Some(KloValue::PriceMap(m)) => match year_lookup(m@, year as int) {
            Some(f) => Some(subunits_spec(f)),
            None => None,
        },
        _ => None,
    }
}

/// Converts a fractional price to its integer sub-unit value.
pub fn to_subunits(f: FracPrice) -> (r: u64)
    ensures
        r == subunits_spec(f),
{
    f.ten_thousandths / 100
}

/// The sub-unit value is the fractional price times 100, truncated
/// towards zero.  With the fractional value held as `t` ten-thousandths
/// of the currency unit, the sub-unit value `r = t / 100` is pinned by
/// `100 * r <= t < 100 * (r + 1)`, which says exactly that `r` is
/// floor((t / 10000) * 100); for example 0.4590 (t = 4590) gives 45.
pub proof fn lemma_subunits_is_floor(f: FracPrice)
    ensures
        100 * subunits_spec(f) <= f.ten_thousandths,
        f.ten_thousandths < 100 * (subunits_spec(f) + 1),
{
}

} // verus!
