//! Why a sale can be turned down.

use vstd::prelude::*;

verus! {

/// Why a sale was turned down.
#[derive(Clone, Copy, Debug, PartialEq, Eq, Structural)]
pub enum SellError {
    /// Nothing is filed under the requested name.
    NotFound,
    /// Fewer units are in stock than were asked for.
    InsufficientStock,
}

impl SellError {
    /// The reason in words.
    pub open spec fn message_text(self) -> Seq<char> {
        match self {
            SellError::NotFound => "Product not found"@,
            SellError::InsufficientStock => "Not enough stock"@,
        }
    }

    /// The reason in words, as shown to a customer.
    pub fn message(self) -> (text: &'static str)
        ensures
            text@ == self.message_text(),
    {
        match self {
            SellError::NotFound => "Product not found",
            SellError::InsufficientStock => "Not enough stock",
        }
    }
}

} // verus!
