//! What holds of the operations, whatever the catalogue: stated over the
//! model, so that each law speaks of every inventory at once.

use vstd::prelude::*;
use crate::catalogue::{
    after_purchase, after_sale, catalogue_of, is_catalogue, is_listing,
    lemma_rows_spell_catalogue, opening_entry, sale_outcome, stock, with_product, Catalogue,
};
use crate::error::SellError;
use crate::product::{Price, ProductView};

verus! {

/// Filing a product, a sale and a delivery each turn a catalogue into a
/// catalogue.
pub proof fn law_operations_keep_catalogue(
    c: Catalogue,
    product: ProductView,
    name: Seq<char>,
    quantity: nat,
)
    requires
        is_catalogue(c),
    ensures
        is_catalogue(with_product(c, product)),
        is_catalogue(after_sale(c, name, quantity)),
        is_catalogue(after_purchase(c, name, quantity)),
{
}

/// A product that has been filed stands in the catalogue as it was filed,
/// and the entries under other names are as they were.
pub proof fn law_filed_product_is_stored(c: Catalogue, product: ProductView)
    ensures
        with_product(c, product).contains_key(product.name),
        with_product(c, product)[product.name] == product,
        forall|other: Seq<char>|
            other != product.name ==> with_product(c, product).contains_key(other)
                == c.contains_key(other),
        forall|other: Seq<char>|
            other != product.name && c.contains_key(other) ==> with_product(c, product)[other]
                == c[other],
{
}

/// The last product filed under a name is the one that stays: filing a
/// second product under the name of the first leaves no trace of the first.
pub proof fn law_last_filed_wins(c: Catalogue, first: ProductView, second: ProductView)
    requires
        first.name == second.name,
    ensures
        with_product(with_product(c, first), second) == with_product(c, second),
{
}

/// Every listing made after a product was filed shows that product in
/// exactly one row, with the name, description, price and quantity it was
/// filed with.
pub proof fn law_filed_product_is_listed(
    c: Catalogue,
    product: ProductView,
    rows: Seq<ProductView>,
)
    requires
        is_listing(rows, with_product(c, product)),
    ensures
        exists|i: int| 0 <= i < rows.len() && rows[i] == product,
        forall|i: int| 0 <= i < rows.len() && rows[i].name == product.name ==> rows[i] == product,
        forall|i: int, j: int|
            0 <= i < rows.len() && 0 <= j < rows.len() && rows[i].name == product.name
                && rows[j].name == product.name ==> i == j,
{
    assert(with_product(c, product).contains_key(product.name));
    assert forall|i: int, j: int|
        0 <= i < rows.len() && 0 <= j < rows.len() && rows[i].name == product.name
            && rows[j].name == product.name implies i == j by {
        assert(i < j ==> rows[i].name != rows[j].name);
        assert(j < i ==> rows[j].name != rows[i].name);
    }
}

/// A listing spells out the catalogue it lists, and has as many rows as
/// the catalogue has entries.
pub proof fn law_listing_spells_catalogue(rows: Seq<ProductView>, c: Catalogue)
    requires
        is_listing(rows, c),
    ensures
        c == catalogue_of(rows),
        is_catalogue(c),
        c.len() == rows.len(),
{
    assert forall|name: Seq<char>| catalogue_of(rows).contains_key(name) implies c.contains_key(
        name,
    ) && c[name] == catalogue_of(rows)[name] by {
        let k = choose|k: int| 0 <= k < rows.len() && rows[k].name == name;
        assert(c.contains_key(rows[k].name));
    }
    lemma_rows_spell_catalogue(rows);
}

/// A request for a product that is not filed is turned down as not found,
/// and the catalogue stays as it is.
pub proof fn law_sale_of_unknown_product(c: Catalogue, name: Seq<char>, quantity: nat)
    requires
        !c.contains_key(name),
    ensures
        sale_outcome(c, name, quantity) == Err::<Price, SellError>(SellError::NotFound),
        after_sale(c, name, quantity) == c,
{
}

/// A request for more units than are in stock is turned down for want of
/// stock, and the catalogue stays as it is.
pub proof fn law_sale_beyond_stock(c: Catalogue, name: Seq<char>, quantity: nat)
    requires
        c.contains_key(name),
        quantity > c[name].quantity,
    ensures
        sale_outcome(c, name, quantity) == Err::<Price, SellError>(SellError::InsufficientStock),
        after_sale(c, name, quantity) == c,
{
}

/// A request that was turned down can be made again with the same result:
/// nothing has changed, so the same reason comes back.
pub proof fn law_refused_sale_repeats(c: Catalogue, name: Seq<char>, quantity: nat)
    requires
        sale_outcome(c, name, quantity) is Err,
    ensures
        after_sale(c, name, quantity) == c,
        sale_outcome(after_sale(c, name, quantity), name, quantity) == sale_outcome(
            c,
            name,
            quantity,
        ),
        after_sale(after_sale(c, name, quantity), name, quantity) == c,
{
}

/// A request for no more units than are in stock goes through at the
/// product's unit price. The stock goes down by exactly the units sold; the
/// product's name, description and price, and every other entry, stay as
/// they are.
pub proof fn law_sale_within_stock(c: Catalogue, name: Seq<char>, quantity: nat)
    requires
        c.contains_key(name),
        quantity <= c[name].quantity,
    ensures
        sale_outcome(c, name, quantity) == Ok::<Price, SellError>(c[name].price),
        after_sale(c, name, quantity).dom() == c.dom(),
        after_sale(c, name, quantity)[name].quantity == c[name].quantity - quantity,
        after_sale(c, name, quantity)[name].name == c[name].name,
        after_sale(c, name, quantity)[name].description == c[name].description,
        after_sale(c, name, quantity)[name].price == c[name].price,
        forall|other: Seq<char>|
            other != name && c.contains_key(other) ==> after_sale(c, name, quantity)[other]
                == c[other],
{
}

/// After a sale that went through, a request for one unit more than what is
/// left is turned down for want of stock.
pub proof fn law_sale_then_one_too_many(c: Catalogue, name: Seq<char>, quantity: nat)
    requires
        c.contains_key(name),
        quantity <= c[name].quantity,
    ensures
        sale_outcome(
            after_sale(c, name, quantity),
            name,
            stock(after_sale(c, name, quantity), name) + 1,
        ) == Err::<Price, SellError>(SellError::InsufficientStock),
        stock(after_sale(c, name, quantity), name) == c[name].quantity - quantity,
{
}

/// A delivery for a name that is not filed opens an entry under that name
/// with the delivered units, a price of zero and no description. The other
/// entries stay as they are.
pub proof fn law_purchase_of_unknown_product(c: Catalogue, name: Seq<char>, quantity: nat)
    requires
        !c.contains_key(name),
    ensures
        after_purchase(c, name, quantity) == c.insert(name, opening_entry(name, quantity)),
        after_purchase(c, name, quantity)[name].name == name,
        after_purchase(c, name, quantity)[name].description == Seq::<char>::empty(),
        after_purchase(c, name, quantity)[name].price == Price::spec_zero(),
        after_purchase(c, name, quantity)[name].quantity == quantity,
        forall|other: Seq<char>|
            c.contains_key(other) ==> after_purchase(c, name, quantity).contains_key(other)
                && after_purchase(c, name, quantity)[other] == c[other],
{
}

/// A delivery for a filed product raises its stock by exactly the units
/// delivered. The product's name, description and price, and every other
/// entry, stay as they are.
pub proof fn law_purchase_of_known_product(c: Catalogue, name: Seq<char>, quantity: nat)
    requires
        c.contains_key(name),
    ensures
        after_purchase(c, name, quantity).dom() == c.dom(),
        after_purchase(c, name, quantity)[name].quantity == c[name].quantity + quantity,
        after_purchase(c, name, quantity)[name].name == c[name].name,
        after_purchase(c, name, quantity)[name].description == c[name].description,
        after_purchase(c, name, quantity)[name].price == c[name].price,
        forall|other: Seq<char>|
            other != name && c.contains_key(other) ==> after_purchase(c, name, quantity)[other]
                == c[other],
{
}

} // verus!
