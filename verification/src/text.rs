//! Verified text building for the dashboard: decimal rendering of prices,
//! zero-padded hour labels, and the three console summary lines.

use vstd::prelude::*;
use vstd::string::StringExecFns;

verus! {

/// The character for one decimal digit.
pub open spec fn digit_char(d: int) -> char {
    if d == 0 {
        '0'
    } else if d == 1 {
        '1'
    } else if d == 2 {
        '2'
    } else if d == 3 {
        '3'
    } else if d == 4 {
        '4'
    } else if d == 5 {
        '5'
    } else if d == 6 {
        '6'
    } else if d == 7 {
        '7'
    } else if d == 8 {
        '8'
    } else {
        '9'
    }
}

/// The decimal rendering of a non-negative integer, most significant
/// digit first, with no leading zeroes except for zero itself.
pub open spec fn dec_str(n: int) -> Seq<char>
    decreases n,
{
    if n < 10 {
        seq![digit_char(n)]
    } else {
        dec_str(n / 10).push(digit_char(n % 10))
    }
}

/// The zero-padded two-character hour label, "00" for hour 0 up to "23"
/// for hour 23.
pub open spec fn label_of(h: int) -> Seq<char> {
    seq![digit_char(h / 10), digit_char(h % 10)]
}

/// Distinct hours have distinct labels.
pub proof fn lemma_label_injective(a: int, b: int)
    requires
        0 <= a < 24,
        0 <= b < 24,
        a != b,
    ensures
        label_of(a) != label_of(b),
{
    if label_of(a) == label_of(b) {
        assert(label_of(a)[0] == label_of(b)[0]);
        assert(label_of(a)[1] == label_of(b)[1]);
        assert(a == 10 * (a / 10) + a % 10);
        assert(b == 10 * (b / 10) + b % 10);
        assert(false);
    }
}

fn digit_str(d: u64) -> (r: &'static str)
    requires
        d < 10,
    ensures
        r@ == seq![digit_char(d as int)],
{
    if d == 0 {
        proof {
            reveal_strlit("0");
            assert("0"@ =~= seq![digit_char(0)]);
        }
        "0"
    } else if d == 1 {
        proof {
            reveal_strlit("1");
            assert("1"@ =~= seq![digit_char(1)]);
        }
        "1"
    } else if d == 2 {
        proof {
            reveal_strlit("2");
            assert("2"@ =~= seq![digit_char(2)]);
        }
        "2"
    } else if d == 3 {
        proof {
            reveal_strlit("3");
            assert("3"@ =~= seq![digit_char(3)]);
        }
        "3"
    } else if d == 4 {
        proof {
            reveal_strlit("4");
            assert("4"@ =~= seq![digit_char(4)]);
        }
        "4"
    } else if d == 5 {
        proof {
            reveal_strlit("5");
            assert("5"@ =~= seq![digit_char(5)]);
        }
        "5"
    } else if d == 6 {
        proof {
            reveal_strlit("6");
            assert("6"@ =~= seq![digit_char(6)]);
        }
        "6"
    } else if d == 7 {
        proof {
            reveal_strlit("7");
            assert("7"@ =~= seq![digit_char(7)]);
        }
        "7"
    } else if d == 8 {
        proof {
            reveal_strlit("8");
            assert("8"@ =~= seq![digit_char(8)]);
        }
        "8"
    } else {
        proof {
            reveal_strlit("9");
            assert("9"@ =~= seq![digit_char(9)]);
        }
        "9"
    }
}

/// Renders an integer in decimal.
pub fn u64_to_dec(n: u64) -> (r: String)
    ensures
        r@ == dec_str(n as int),
    decreases n,
{
    if n < 10 {
        let r = String::from_str(digit_str(n));
        proof {
            assert(r@ =~= dec_str(n as int));
        }
        r
    } else {
        let mut r = u64_to_dec(n / 10);
        r.append(digit_str(n % 10));
        proof {
            assert(r@ =~= dec_str(n as int));
        }
        r
    }
}

/// Renders the zero-padded hour label for an hour of the day.
pub fn hour_label(h: u8) -> (r: String)
    requires
        h < 24,
    ensures
        r@ == label_of(h as int),
{
    let tens: u64 = (h / 10) as u64;
    let ones: u64 = (h % 10) as u64;
    let mut r = String::from_str(digit_str(tens));
    r.append(digit_str(ones));
    proof {
        assert(r@ =~= label_of(h as int));
    }
    r
}

/// The summary line for the price of the current hour.
pub open spec fn now_line(p: u64) -> Seq<char> {
    "Hinta nyt: "@ + dec_str(p as int) + " c/kWh"@
}

/// The summary line for the cheapest one-hour window starting at hour `i`.
pub open spec fn cheapest_line(i: int, p: u64) -> Seq<char> {
    "Halvin tunti "@ + dec_str(i) + "-"@ + dec_str(i + 1) + ": "@ + dec_str(p as int)
        + " c/kWh"@
}

/// The summary line for the most expensive one-hour window starting at
/// hour `i`.
pub open spec fn priciest_line(i: int, p: u64) -> Seq<char> {
    "Kallein tunti "@ + dec_str(i) + "-"@ + dec_str(i + 1) + ": "@ + dec_str(p as int)
        + " c/kWh"@
}

/// Builds the current-price summary line.
pub fn render_now_line(p: u64) -> (r: String)
    ensures
        r@ == now_line(p),
{
    let mut r = String::from_str("Hinta nyt: ");
    let d = u64_to_dec(p);
    r.append(d.as_str());
    r.append(" c/kWh");
    proof {
        assert(r@ =~= now_line(p));
    }
    r
}

fn render_window_line(prefix: &str, i: usize, p: u64) -> (r: String)
    requires
        i < usize::MAX,
    ensures
        r@ == prefix@ + dec_str(i as int) + "-"@ + dec_str(i as int + 1) + ": "@
            + dec_str(p as int) + " c/kWh"@,
{
    let mut r = String::from_str(prefix);
    let start = u64_to_dec(i as u64);
    r.append(start.as_str());
    r.append("-");
    let next = u64_to_dec((i as u64) + 1);
    r.append(next.as_str());
    r.append(": ");
    let d = u64_to_dec(p);
    r.append(d.as_str());
    r.append(" c/kWh");
    proof {
        assert(r@ =~= prefix@ + dec_str(i as int) + "-"@ + dec_str(i as int + 1) + ": "@
            + dec_str(p as int) + " c/kWh"@);
    }
    r
}

/// Builds the cheapest-hour summary line.
pub fn render_cheapest_line(i: usize, p: u64) -> (r: String)
    requires
        i < usize::MAX,
    ensures
        r@ == cheapest_line(i as int, p),
{
    render_window_line("Halvin tunti ", i, p)
}

/// Builds the most-expensive-hour summary line.
pub fn render_priciest_line(i: usize, p: u64) -> (r: String)
    requires
        i < usize::MAX,
    ensures
        r@ == priciest_line(i as int, p),
{
    render_window_line("Kallein tunti ", i, p)
}

} // verus!
