//! Products and the values that describe them.

use vstd::prelude::*;

verus! {

/// An amount of money per unit.
///
/// The ledger stores prices and hands them back, but never calculates with
/// them. A price is therefore kept as the 64 bits of the double-precision
/// number it stands for, and callers convert at the boundary.
#[derive(Clone, Copy, Debug, PartialEq, Eq, Structural)]
pub struct Price {
    pub bits: u64,
}

impl Price {
    /// The bit pattern of positive zero.
    pub open spec fn spec_zero() -> Price {
        Price { bits: 0 }
    }

    /// The price of something that costs nothing.
    #[verifier::when_used_as_spec(spec_zero)]
    pub fn zero() -> (price: Price)
        ensures
            price == Price::spec_zero(),
    {
        Price { bits: 0 }
    }
}

/// A named, priced, stocked catalogue entry.
#[derive(Debug, PartialEq, Eq)]
pub struct Product {
    /// The name under which the product is filed.
    pub name: String,
    pub description: String,
    pub price: Price,
    /// Units in stock.
    pub quantity: u32,
}

/// What a [`Product`] is, mathematically.
pub struct ProductView {
    pub name: Seq<char>,
    pub description: Seq<char>,
    pub price: Price,
    pub quantity: nat,
}

impl View for Product {
    type V = ProductView;

    open spec fn view(&self) -> ProductView {
        ProductView {
            name: self.name@,
            description: self.description@,
            price: self.price,
            quantity: self.quantity as nat,
        }
    }
}

impl Clone for Product {
    fn clone(&self) -> (copy: Product)
        ensures
            copy == *self,
    {
        Product {
            name: self.name.clone(),
            description: self.description.clone(),
            price: self.price,
            quantity: self.quantity,
        }
    }
}

/// The values of a run of products, in the same order.
pub open spec fn views(products: Seq<Product>) -> Seq<ProductView> {
    Seq::new(products.len(), |i: int| products[i]@)
}

} // verus!
