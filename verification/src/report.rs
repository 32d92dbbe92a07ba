//! The stock report as text: a header line, then one line per product.

use vstd::prelude::*;
use vstd::string::StringExecFns;
use crate::product::{Product, ProductView};

verus! {

/// The ten digits, in order.
pub open spec fn digits() -> Seq<char> {
    seq!['0', '1', '2', '3', '4', '5', '6', '7', '8', '9']
}

/// A number written in base ten, without leading zeros.
pub open spec fn decimal(n: nat) -> Seq<char>
    decreases n,
{
    if n < 10 {
        seq![digits()[n as int]]
    } else {
        decimal(n / 10).push(digits()[(n % 10) as int])
    }
}

/// The line that opens a report.
pub open spec fn report_header() -> Seq<char> {
    "Inventory Report:"@
}

/// The line of a report that shows one product. The ledger does not
/// calculate with prices, so the price comes as the text to be shown.
pub open spec fn report_line(product: ProductView, price: Seq<char>) -> Seq<char> {
    "Product: "@ + product.name + ", Description: "@ + product.description + ", Price: $"@
        + price + ", Quantity: "@ + decimal(product.quantity)
}

/// One digit as text.
fn digit_text(d: u32) -> (text: &'static str)
    requires
        d < 10,
    ensures
        text@ == seq![digits()[d as int]],
{
    let text = match d {
        0 => "0",
        1 => "1",
        2 => "2",
        3 => "3",
        4 => "4",
        5 => "5",
        6 => "6",
        7 => "7",
        8 => "8",
        _ => "9",
    };
    proof {
        reveal_strlit("0");
        reveal_strlit("1");
        reveal_strlit("2");
        reveal_strlit("3");
        reveal_strlit("4");
        reveal_strlit("5");
        reveal_strlit("6");
        reveal_strlit("7");
        reveal_strlit("8");
        reveal_strlit("9");
    }
    text
}

/// Writes a number in base ten.
pub fn decimal_text(n: u32) -> (text: String)
    ensures
        text@ == decimal(n as nat),
    decreases n,
{
    if n < 10 {
        digit_text(n).to_owned()
    } else {
        let mut text = decimal_text(n / 10);
        text.append(digit_text(n % 10));
        text
    }
}

/// Writes the line that opens a report.
pub fn header_text() -> (line: String)
    ensures
        line@ == report_header(),
{
    "Inventory Report:".to_owned()
}

/// Writes the line of a report that shows `product`, with `price` as the
/// text of its price.
pub fn line_text(product: &Product, price: &str) -> (line: String)
    ensures
        line@ == report_line(product@, price@),
{
    let mut line = "Product: ".to_owned();
    line.append(product.name.as_str());
    line.append(", Description: ");
    line.append(product.description.as_str());
    line.append(", Price: $");
    line.append(price);
    line.append(", Quantity: ");
    line.append(decimal_text(product.quantity).as_str());
    line
}

} // verus!
