//! Flattening fetched price documents into the ordered hourly series.
//!
//! The remote store hands back documents in store-defined order.  The first
//! record is always stale and is dropped; if more than one record remains
//! after that, one further stale record is dropped.  Each remaining document
//! is scanned hour by hour, 00 first, and every hour whose slot carries the
//! target year's price contributes one labelled entry; hours with a
//! placeholder slot or no slot are skipped silently.

use vstd::prelude::*;
use crate::model::{FracPrice, HourlyPrice, KloValue, PriceDocument, SlotEntry, YearPrice};
use crate::model::{hour_entry, slot_lookup, subunits_spec, year_lookup};
use crate::model::to_subunits;
use crate::text::{hour_label, label_of, lemma_label_injective};

verus! {

/// The labelled sub-unit prices that one document yields for hours
/// `0 .. n`, in ascending hour order.
pub open spec fn doc_series_upto(doc: PriceDocument, year: u32, n: int) -> Seq<(Seq<char>, u64)>
    decreases n,
{
    if n <= 0 {
        Seq::empty()
    } else {
        let here = match hour_entry(doc, year, n - 1) {
            Some(p) => seq![(label_of(n - 1), p)],
            None => Seq::empty(),
        };
        doc_series_upto(doc, year, n - 1) + here
    }
}

/// The labelled sub-unit prices that one document yields for the full day.
pub open spec fn doc_series(doc: PriceDocument, year: u32) -> Seq<(Seq<char>, u64)> {
    doc_series_upto(doc, year, 24)
}

/// The concatenation of every document's day series, in document order.
pub open spec fn all_series(docs: Seq<PriceDocument>, year: u32) -> Seq<(Seq<char>, u64)>
    decreases docs.len(),
{
    if docs.len() == 0 {
        Seq::empty()
    } else {
        doc_series(docs[0], year) + all_series(docs.drop_first(), year)
    }
}

/// The label and price pairs of an extracted series.
pub open spec fn series_view(s: Seq<HourlyPrice>) -> Seq<(Seq<char>, u64)> {
    s.map_values(|h: HourlyPrice| (h.label@, h.price))
}

/// The documents kept for extraction: the first record is always dropped,
/// and when more than one record remains after that, a second one is
/// dropped as well.
pub open spec fn retained(docs: Seq<PriceDocument>) -> Seq<PriceDocument> {
    if docs.len() <= 2 {
        docs.skip(1)
    } else {
        docs.skip(2)
    }
}

/// Looks up the year-to-price mapping of the slot for `hour`, if that slot
/// exists and holds the mapping variant.
pub fn slot_prices<'a>(doc: &'a PriceDocument, hour: u8) -> (r: Option<&'a Vec<YearPrice>>)
    ensures
        (match slot_lookup(doc.slots@, hour as int) {
            Some(KloValue::PriceMap(m)) => r matches Some(v) && v@ == m@,
            _ => r is None,
        }),
{
    let n = doc.slots.len();
    let mut i: usize = 0;
    proof {
        assert(doc.slots@.skip(0) =~= doc.slots@);
    }
    while i < n
        invariant
            i <= n,
            n == doc.slots.len(),
            slot_lookup(doc.slots@, hour as int) == slot_lookup(
                doc.slots@.skip(i as int),
                hour as int,
            ),
        decreases n - i,
    {
        proof {
            assert(doc.slots@.skip(i as int)[0] == doc.slots@[i as int]);
            assert(doc.slots@.skip(i as int).drop_first() =~= doc.slots@.skip(i as int + 1));
        }
        let entry = &doc.slots[i];
        if entry.hour == hour {
            match &entry.value {
                KloValue::PriceMap(m) => {
                    return Some(m);
                },
                KloValue::Placeholder(_) => {
                    return None;
                },
            }
        }
        i += 1;
    }
    proof {
        assert(doc.slots@.skip(n as int) =~= Seq::<SlotEntry>::empty());
    }
    None
}

/// Looks up the fractional price recorded for `year`.
pub fn year_price(entries: &Vec<YearPrice>, year: u32) -> (r: Option<FracPrice>)
    ensures
        r == year_lookup(entries@, year as int),
{
    let n = entries.len();
    let mut i: usize = 0;
    proof {
        assert(entries@.skip(0) =~= entries@);
    }
    while i < n
        invariant
            i <= n,
            n == entries.len(),
            year_lookup(entries@, year as int) == year_lookup(
                entries@.skip(i as int),
                year as int,
            ),
        decreases n - i,
    {
        proof {
            assert(entries@.skip(i as int)[0] == entries@[i as int]);
            assert(entries@.skip(i as int).drop_first() =~= entries@.skip(i as int + 1));
        }
        let entry = &entries[i];
        if entry.year == year {
            return Some(entry.price);
        }
        i += 1;
    }
    proof {
        assert(entries@.skip(n as int) =~= Seq::<YearPrice>::empty());
    }
    None
}

/// The sub-unit price a document yields for one hour and the target year,
/// if the hour's slot carries it.
pub fn hour_price(doc: &PriceDocument, hour: u8, year: u32) -> (r: Option<u64>)
    ensures
        r == hour_entry(*doc, year, hour as int),
{
    match slot_prices(doc, hour) {
        Some(m) => match year_price(m, year) {
            Some(f) => Some(to_subunits(f)),
            None => None,
        },
        None => None,
    }
}

/// Appends to `out` every labelled entry that `doc` yields for the target
/// year, hours in ascending order.
pub fn extract_into(doc: &PriceDocument, year: u32, out: &mut Vec<HourlyPrice>)
    ensures
        series_view(final(out)@) == series_view(old(out)@) + doc_series(*doc, year),
{
    let mut h: u8 = 0;
    while h < 24
        invariant
            h <= 24,
            series_view(out@) == series_view(old(out)@) + doc_series_upto(*doc, year, h as int),
        decreases 24 - h,
    {
        match hour_price(doc, h, year) {
            Some(p) => {
                let ghost prev = out@;
                let label = hour_label(h);
                let ghost lab = label@;
                out.push(HourlyPrice { label, price: p });
                proof {
                    assert(out@.last().label@ == lab);
                    assert(out@.last().price == p);
                    assert(forall|j: int| 0 <= j < prev.len() ==> out@[j] == prev[j]);
                    assert forall|j: int| 0 <= j < out@.len() implies #[trigger] series_view(
                        out@,
                    )[j] == (series_view(prev) + seq![(label_of(h as int), p)])[j] by {
                        assert(series_view(out@)[j] == (out@[j].label@, out@[j].price));
                        if j < prev.len() {
                            assert(series_view(prev)[j] == (prev[j].label@, prev[j].price));
                        }
                    }
                    assert(series_view(out@) =~~= series_view(prev) + seq![
                        (label_of(h as int), p),
                    ]);
                    assert(series_view(out@) =~~= series_view(old(out)@) + doc_series_upto(
                        *doc,
                        year,
                        h as int + 1,
                    ));
                }
            },
            None => {
                proof {
                    assert(series_view(out@) =~~= series_view(old(out)@) + doc_series_upto(
                        *doc,
                        year,
                        h as int + 1,
                    ));
                }
            },
        }
        h += 1;
    }
}

/// Extracts the full series of the given documents, preserving document
/// order and, within a document, hour order.
pub fn extract_series(docs: &Vec<PriceDocument>, year: u32) -> (r: Vec<HourlyPrice>)
    ensures
        series_view(r@) == all_series(docs@, year),
{
    let n = docs.len();
    let mut r: Vec<HourlyPrice> = Vec::new();
    let mut i: usize = 0;
    proof {
        assert(docs@.skip(0) =~= docs@);
        assert(series_view(r@) + all_series(docs@.skip(0), year) =~~= all_series(docs@, year));
    }
    while i < n
        invariant
            i <= n,
            n == docs.len(),
            series_view(r@) + all_series(docs@.skip(i as int), year) == all_series(docs@, year),
        decreases n - i,
    {
        proof {
            assert(docs@.skip(i as int)[0] == docs@[i as int]);
            assert(docs@.skip(i as int).drop_first() =~= docs@.skip(i as int + 1));
        }
        let ghost prev = r@;
        extract_into(&docs[i], year, &mut r);
        proof {
            assert(series_view(r@) + all_series(docs@.skip(i as int + 1), year) =~~= all_series(
                docs@,
                year,
            ));
        }
        i += 1;
    }
    proof {
        assert(docs@.skip(n as int) =~= Seq::<PriceDocument>::empty());
        assert(series_view(r@) =~~= all_series(docs@, year));
    }
    r
}

/// Drops the leading stale records: always the first, and one more when
/// more than one record remains after the first drop.
pub fn discard_stale(docs: Vec<PriceDocument>) -> (r: Vec<PriceDocument>)
    requires
        docs.len() >= 1,
    ensures
        r@ == retained(docs@),
{
    let mut kept = docs;
    kept.remove(0);
    proof {
        assert(kept@ =~= docs@.skip(1));
    }
    if kept.len() > 1 {
        kept.remove(0);
        proof {
            assert(kept@ =~= docs@.skip(2));
        }
    }
    kept
}

proof fn lemma_doc_series_upto_complete(doc: PriceDocument, year: u32, n: int)
    requires
        0 <= n <= 24,
        forall|h: int| 0 <= h < n ==> (#[trigger] hour_entry(doc, year, h)) is Some,
    ensures
        doc_series_upto(doc, year, n).len() == n,
        forall|h: int|
            0 <= h < n ==> #[trigger] doc_series_upto(doc, year, n)[h] == (
                label_of(h),
                hour_entry(doc, year, h).unwrap(),
            ),
    decreases n,
{
    if n > 0 {
        lemma_doc_series_upto_complete(doc, year, n - 1);
        let prev = doc_series_upto(doc, year, n - 1);
        let cur = doc_series_upto(doc, year, n);
        assert(hour_entry(doc, year, n - 1) is Some);
        assert(cur == prev + seq![(label_of(n - 1), hour_entry(doc, year, n - 1).unwrap())]);
        assert(forall|h: int| 0 <= h < n - 1 ==> cur[h] == prev[h]);
        assert(cur[n - 1] == (label_of(n - 1), hour_entry(doc, year, n - 1).unwrap()));
    }
}

/// A document that carries the target year's price for every hour of the
/// day yields exactly 24 entries, in ascending hour order, labelled "00"
/// up to "23", each holding that hour's sub-unit price.
pub proof fn lemma_complete_document_extracts_all_hours(doc: PriceDocument, year: u32)
    requires
        forall|h: int| 0 <= h < 24 ==> (#[trigger] hour_entry(doc, year, h)) is Some,
    ensures
        doc_series(doc, year).len() == 24,
        forall|h: int|
            0 <= h < 24 ==> #[trigger] doc_series(doc, year)[h] == (
                label_of(h),
                hour_entry(doc, year, h).unwrap(),
            ),
{
    lemma_doc_series_upto_complete(doc, year, 24);
}

proof fn lemma_doc_series_upto_excludes(doc: PriceDocument, year: u32, h: int, n: int)
    requires
        0 <= h < 24,
        0 <= n <= 24,
        hour_entry(doc, year, h) is None,
    ensures
        forall|i: int|
            0 <= i < doc_series_upto(doc, year, n).len() ==> (#[trigger] doc_series_upto(
                doc,
                year,
                n,
            )[i]).0 != label_of(h),
    decreases n,
{
    if n > 0 {
        lemma_doc_series_upto_excludes(doc, year, h, n - 1);
        let prev = doc_series_upto(doc, year, n - 1);
        let cur = doc_series_upto(doc, year, n);
        if n - 1 != h {
            lemma_label_injective(n - 1, h);
        }
        assert forall|i: int| 0 <= i < cur.len() implies (#[trigger] cur[i]).0 != label_of(
            h,
        ) by {
            if i < prev.len() {
                assert(cur[i] == prev[i]);
            } else {
                assert(hour_entry(doc, year, n - 1) is Some);
                assert(cur[i].0 == label_of(n - 1));
            }
        }
    }
}

/// An hour whose slot holds the placeholder variant contributes no entry
/// to the extracted series: no entry carries that hour's label.
pub proof fn lemma_placeholder_hour_excluded(doc: PriceDocument, year: u32, h: int, k: i32)
    requires
        0 <= h < 24,
        slot_lookup(doc.slots@, h) == Some(KloValue::Placeholder(k)),
    ensures
        forall|i: int|
            0 <= i < doc_series(doc, year).len() ==> (#[trigger] doc_series(doc, year)[i]).0
                != label_of(h),
{
    assert(hour_entry(doc, year, h) is None);
    lemma_doc_series_upto_excludes(doc, year, h, 24);
}

/// Builds the day's series from the fetched documents: drops the stale
/// leading records and extracts every remaining document in order.
pub fn series_from_documents(docs: Vec<PriceDocument>, year: u32) -> (r: Vec<HourlyPrice>)
    requires
        docs.len() >= 1,
    ensures
        series_view(r@) == all_series(retained(docs@), year),
{
    let kept = discard_stale(docs);
    extract_series(&kept, year)
}

} // verus!
