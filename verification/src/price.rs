//! Tolerant parsing of locale-formatted currency text.
//!
//! A price fragment such as `"$12.99"` becomes a [`Price`].  Any text the
//! currency parser cannot read — or would overflow on — degrades silently
//! to the zero amount: a malformed price must never abort extraction of
//! the rest of the row.

use vstd::prelude::*;
use crate::records::{Price, PriceView};

verus! {

/// Whether the character is a decimal digit, as the currency parser
/// classifies one.
pub open spec fn is_currency_digit(c: char) -> bool {
    48 <= c as u32 && c as u32 <= 57
}

/// One step of the currency parser's scan.  The state is the number of
/// characters taken into the digit accumulator so far, the number taken
/// since the last decimal separator (`.` or `,`), and whether a separator
/// was seen.  A leading minus before any accumulated character marks the
/// sign; any other character that is neither a digit nor a minus is read
/// as a currency symbol and skipped.
pub open spec fn currency_scan_step(st: (int, int, bool), c: char) -> (int, int, bool) {
    if c == '-' && st.0 == 0 {
        st
    } else if c == '.' || c == ',' {
        (st.0, 0, true)
    } else if !is_currency_digit(c) && c != '-' {
        st
    } else {
        (st.0 + 1, st.1 + 1, st.2)
    }
}

/// The currency parser's scan state after reading the whole text.
pub open spec fn currency_scan_state(text: Seq<char>) -> (int, int, bool)
    decreases text.len(),
{
    if text.len() == 0 {
        (0, 0, false)
    } else {
        currency_scan_step(currency_scan_state(text.drop_last()), text.last())
    }
}

/// Whether the currency parser stays within its arithmetic bounds on this
/// text.  To adjust the decimal point it raises ten to the power of the
/// final digit-streak length minus two in 32-bit arithmetic, which stays
/// in range only while that exponent is at most nine: texts with more
/// than eleven accumulated characters after the last separator are out of
/// bounds and take the zero fallback instead of being handed to it.
pub open spec fn currency_text_safe(text: Seq<char>) -> bool {
    let st = currency_scan_state(text);
    !st.2 || st.1 <= 11
}

/// Whether the currency parser stays within its arithmetic bounds on this
/// text (the executable check of [`currency_text_safe`]).
fn currency_text_within_bounds(text: &str) -> (r: bool)
    ensures
        r == currency_text_safe(text@),
{
    let n = text.unicode_len();
    let mut pushed: usize = 0;
    let mut streak: usize = 0;
    let mut seen: bool = false;
    proof {
        assert(text@.take(0) =~= Seq::<char>::empty());
    }
    let mut i: usize = 0;
    while i < n
        invariant
            n == text@.len(),
            0 <= i <= n,
            pushed <= i,
            streak <= i,
            (pushed as int, streak as int, seen) == currency_scan_state(text@.take(i as int)),
        decreases n - i,
    {
        proof {
            assert(text@.take(i + 1).drop_last() =~= text@.take(i as int));
            assert(text@.take(i + 1).last() == text@[i as int]);
        }
        let c = text.get_char(i);
        let d = c as u32;
        if c == '-' && pushed == 0 {
        } else if c == '.' || c == ',' {
            streak = 0;
            seen = true;
        } else if !(48 <= d && d <= 57) && c != '-' {
        } else {
            pushed += 1;
            streak += 1;
        }
        i += 1;
    }
    proof {
        assert(text@.take(n as int) =~= text@);
    }
    !seen || streak <= 11
}

/// What the currency parser makes of an in-bounds text fragment: `None`
/// when the text is rejected, otherwise the amount in minor units as a
/// signed decimal numeral together with the canonical rendering.  Both
/// depend on the text alone.
pub uninterp spec fn currency_scan_of(text: Seq<char>) -> Option<(Seq<char>, Seq<char>)>;

/// Relies on `currency::Currency::from_str`, on `num::BigInt::to_str_radix`
/// for the parsed amount of coin, and on `Currency`'s `Display` rendering:
/// all three depend on the input text alone.  The parser's decimal
/// adjustment raises ten to a power of the final digit-streak length in
/// 32-bit arithmetic, so texts out of [`currency_text_safe`]'s bounds are
/// excluded here and handled by the caller's zero fallback.
#[verifier::external_body]
fn currency_scan(text: &str) -> (r: Option<(String, String)>)
    requires
        currency_text_safe(text@),
    ensures
        match r {
            Some(p) => currency_scan_of(text@) == Some((p.0@, p.1@)),
            None => currency_scan_of(text@) is None,
        },
{
    match currency::Currency::from_str(text) {
        Ok(c) => Some((c.value().to_str_radix(10), c.to_string())),
        Err(_) => None,
    }
}

/// The price that a text fragment denotes: the parsed amount, or the zero
/// amount (zero minor units, shown as `"0.00"`) when the text is out of
/// the parser's bounds or the parser rejects it.
pub open spec fn price_of_text(text: Seq<char>) -> PriceView {
    if !currency_text_safe(text) {
        PriceView { amount_digits: "0"@, text: "0.00"@ }
    } else {
        match currency_scan_of(text) {
            Some(p) => PriceView { amount_digits: p.0, text: p.1 },
            None => PriceView { amount_digits: "0"@, text: "0.00"@ },
        }
    }
}

/// Converts a currency text fragment into an exact decimal amount,
/// tolerant of parse failure.
pub struct PriceParser {
}

impl PriceParser {
    /// Parses a currency text fragment.  On any parse failure — including
    /// a fraction too long for the parser's arithmetic — the zero amount
    /// is returned rather than an error.
    pub fn parse(text: &str) -> (r: Price)
        ensures
            r@ == price_of_text(text@),
    {
        if currency_text_within_bounds(text) {
            match currency_scan(text) {
                Some(p) => Price { amount_digits: p.0, text: p.1 },
                None => Price {
                    amount_digits: String::from_str("0"),
                    text: String::from_str("0.00"),
                },
            }
        } else {
            Price { amount_digits: String::from_str("0"), text: String::from_str("0.00") }
        }
    }
}

} // verus!
