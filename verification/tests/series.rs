use hinta_nyt::fetch::{discard_stale, extract_series, hour_price, series_from_documents, slot_prices, year_price};
use hinta_nyt::model::{to_subunits, FracPrice, HourlyPrice, KloValue, PriceDocument, SlotEntry, YearPrice};

const YEAR: u32 = 2025;

fn price_slot(hour: u8, year: u32, ten_thousandths: u64) -> SlotEntry {
    SlotEntry {
        hour,
        value: KloValue::PriceMap(vec![YearPrice {
            year,
            price: FracPrice { ten_thousandths },
        }]),
    }
}

/// A document with the target year's price in every hour slot; slot `h`
/// holds `h` sub-units, i.e. `h * 100` ten-thousandths.
fn full_document() -> PriceDocument {
    let mut slots = Vec::new();
    let mut h: u8 = 0;
    while h < 24 {
        slots.push(price_slot(h, YEAR, (h as u64) * 100));
        h += 1;
    }
    PriceDocument { slots }
}

fn labels(series: &[HourlyPrice]) -> Vec<String> {
    series.iter().map(|e| e.label.clone()).collect()
}

#[test]
fn complete_document_yields_all_24_hours_in_order() {
    let doc = full_document();
    let series = extract_series(&vec![doc], YEAR);
    assert_eq!(series.len(), 24);
    for (i, entry) in series.iter().enumerate() {
        assert_eq!(entry.label, format!("{:02}", i));
        assert_eq!(entry.price, i as u64);
    }
}

#[test]
fn placeholder_slot_is_skipped_without_error() {
    let mut doc = full_document();
    doc.slots[5] = SlotEntry {
        hour: 5,
        value: KloValue::Placeholder(7),
    };
    let series = extract_series(&vec![doc], YEAR);
    assert_eq!(series.len(), 23);
    assert!(!labels(&series).contains(&String::from("05")));
    assert!(labels(&series).contains(&String::from("04")));
    assert!(labels(&series).contains(&String::from("06")));
}

#[test]
fn missing_slot_and_missing_year_are_skipped() {
    let mut doc = full_document();
    doc.slots.remove(10);
    doc.slots[3] = price_slot(3, 1999, 5000);
    let series = extract_series(&vec![doc], YEAR);
    assert_eq!(series.len(), 22);
    let l = labels(&series);
    assert!(!l.contains(&String::from("10")));
    assert!(!l.contains(&String::from("03")));
}

#[test]
fn slot_lookup_returns_first_matching_slot() {
    let doc = PriceDocument {
        slots: vec![price_slot(4, YEAR, 1000), price_slot(4, YEAR, 2000)],
    };
    let m = slot_prices(&doc, 4).expect("slot 4 must be found");
    assert_eq!(m.len(), 1);
    assert_eq!(m[0].price.ten_thousandths, 1000);
    assert!(slot_prices(&doc, 5).is_none());
}

#[test]
fn placeholder_slot_lookup_is_none() {
    let doc = PriceDocument {
        slots: vec![SlotEntry {
            hour: 2,
            value: KloValue::Placeholder(0),
        }],
    };
    assert!(slot_prices(&doc, 2).is_none());
}

#[test]
fn year_lookup_finds_the_target_year() {
    let entries = vec![
        YearPrice { year: 2024, price: FracPrice { ten_thousandths: 111 } },
        YearPrice { year: 2025, price: FracPrice { ten_thousandths: 222 } },
    ];
    let found = year_price(&entries, 2025).expect("2025 must be found");
    assert_eq!(found.ten_thousandths, 222);
    assert!(year_price(&entries, 2026).is_none());
}

#[test]
fn hour_price_scales_to_subunits() {
    let doc = PriceDocument { slots: vec![price_slot(7, YEAR, 4590)] };
    assert_eq!(hour_price(&doc, 7, YEAR), Some(45));
    assert_eq!(hour_price(&doc, 8, YEAR), None);
}

#[test]
fn subunits_truncate_towards_zero() {
    assert_eq!(to_subunits(FracPrice { ten_thousandths: 4590 }), 45);
    assert_eq!(to_subunits(FracPrice { ten_thousandths: 4599 }), 45);
    assert_eq!(to_subunits(FracPrice { ten_thousandths: 4600 }), 46);
    assert_eq!(to_subunits(FracPrice { ten_thousandths: 99 }), 0);
    assert_eq!(to_subunits(FracPrice { ten_thousandths: 0 }), 0);
}

#[test]
fn first_record_is_always_discarded() {
    let d0 = PriceDocument { slots: vec![price_slot(0, YEAR, 100)] };
    let kept = discard_stale(vec![d0]);
    assert_eq!(kept.len(), 0);
}

#[test]
fn second_record_is_kept_when_it_is_the_only_remainder() {
    let d0 = PriceDocument { slots: vec![price_slot(0, YEAR, 100)] };
    let d1 = PriceDocument { slots: vec![price_slot(1, YEAR, 200)] };
    let kept = discard_stale(vec![d0, d1]);
    assert_eq!(kept.len(), 1);
    assert_eq!(kept[0].slots[0].hour, 1);
}

#[test]
fn only_third_and_fourth_records_contribute_in_order() {
    let d0 = PriceDocument { slots: vec![price_slot(0, YEAR, 100)] };
    let d1 = PriceDocument { slots: vec![price_slot(1, YEAR, 200)] };
    let d2 = PriceDocument { slots: vec![price_slot(2, YEAR, 300)] };
    let d3 = PriceDocument { slots: vec![price_slot(3, YEAR, 400)] };
    let series = series_from_documents(vec![d0, d1, d2, d3], YEAR);
    assert_eq!(series.len(), 2);
    assert_eq!(series[0].label, "02");
    assert_eq!(series[0].price, 3);
    assert_eq!(series[1].label, "03");
    assert_eq!(series[1].price, 4);
}

#[test]
fn document_order_then_hour_order_is_preserved() {
    let d2 = PriceDocument {
        slots: vec![price_slot(9, YEAR, 900), price_slot(1, YEAR, 100)],
    };
    let d3 = PriceDocument { slots: vec![price_slot(0, YEAR, 0)] };
    let series = extract_series(&vec![d2, d3], YEAR);
    assert_eq!(labels(&series), vec!["01", "09", "00"]);
}
