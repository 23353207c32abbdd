//! The value types that the pipeline produces.

use vstd::prelude::*;

verus! {

/// A monetary amount, held as plain values: the amount in minor units
/// (cents), written as a signed decimal numeral, and the canonical
/// currency rendering used when the amount is shown.
pub struct Price {
    /// The amount in minor units, as a signed decimal numeral ("1299").
    pub amount_digits: String,
    /// The canonical rendering with its currency symbol ("$12.99").
    pub text: String,
}

/// The mathematical view of a [`Price`].
pub struct PriceView {
    pub amount_digits: Seq<char>,
    pub text: Seq<char>,
}

impl View for Price {
    type V = PriceView;

    open spec fn view(&self) -> PriceView {
        PriceView { amount_digits: self.amount_digits@, text: self.text@ }
    }
}

impl DeepView for Price {
    type V = PriceView;

    open spec fn deep_view(&self) -> PriceView {
        self.view()
    }
}

impl Clone for Price {
    fn clone(&self) -> (r: Self)
        ensures
            r@ == self@,
    {
        Price { amount_digits: self.amount_digits.clone(), text: self.text.clone() }
    }
}

/// One purchased item, extracted from one table row of one receipt email.
pub struct Purchase {
    /// Display name of the purchased item.
    pub name: String,
    /// Account identifier shared by every record of the same email.
    pub purchaser: String,
    /// The price, with a zero fallback when the source text was unreadable.
    pub price: Price,
}

/// The mathematical view of a [`Purchase`].
pub struct PurchaseView {
    pub name: Seq<char>,
    pub purchaser: Seq<char>,
    pub price: PriceView,
}

impl View for Purchase {
    type V = PurchaseView;

    open spec fn view(&self) -> PurchaseView {
        PurchaseView { name: self.name@, purchaser: self.purchaser@, price: self.price@ }
    }
}

impl DeepView for Purchase {
    type V = PurchaseView;

    open spec fn deep_view(&self) -> PurchaseView {
        self.view()
    }
}

impl Clone for Purchase {
    fn clone(&self) -> (r: Self)
        ensures
            r@ == self@,
    {
        Purchase {
            name: self.name.clone(),
            purchaser: self.purchaser.clone(),
            price: self.price.clone(),
        }
    }
}

} // verus!
