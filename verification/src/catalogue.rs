//! The mathematical model of the ledger: a catalogue maps each product name
//! to the product filed under it, and every operation is a function from the
//! catalogue before to the catalogue after.

use vstd::prelude::*;
use crate::error::SellError;
use crate::product::{Price, ProductView};

verus! {

/// Products by name.
pub type Catalogue = Map<Seq<char>, ProductView>;

/// Every entry is filed under its own name, and there are finitely many.
pub open spec fn is_catalogue(c: Catalogue) -> bool {
    &&& c.dom().finite()
    &&& forall|name: Seq<char>| #[trigger] c.contains_key(name) ==> c[name].name == name
}

/// Units of `name` in stock; none where the name is not filed.
pub open spec fn stock(c: Catalogue, name: Seq<char>) -> nat {
    if c.contains_key(name) {
        c[name].quantity
    } else {
        0
    }
}

/// The catalogue once `product` has been filed: it takes the place of
/// whatever stood under its name.
pub open spec fn with_product(c: Catalogue, product: ProductView) -> Catalogue {
    c.insert(product.name, product)
}

/// The answer to a request for `quantity` units of `name`: the unit price
/// of the product where the sale goes through, the reason where it does not.
pub open spec fn sale_outcome(c: Catalogue, name: Seq<char>, quantity: nat) -> Result<
    Price,
    SellError,
> {
    if !c.contains_key(name) {
        Err(SellError::NotFound)
    } else if c[name].quantity < quantity {
        Err(SellError::InsufficientStock)
    } else {
        Ok(c[name].price)
    }
}

/// The catalogue after a request for `quantity` units of `name`: the stock
/// of that product goes down by `quantity` where the sale goes through, and
/// nothing changes where it does not.
pub open spec fn after_sale(c: Catalogue, name: Seq<char>, quantity: nat) -> Catalogue {
    if sale_outcome(c, name, quantity) is Ok {
        c.insert(name, ProductView { quantity: (c[name].quantity - quantity) as nat, ..c[name] })
    } else {
        c
    }
}

/// The entry that a delivery opens for a name that was not filed: no
/// description, a price of zero, and the delivered units as stock.
pub open spec fn opening_entry(name: Seq<char>, quantity: nat) -> ProductView {
    ProductView { name, description: Seq::empty(), price: Price::spec_zero(), quantity }
}

/// The catalogue after a delivery of `quantity` units of `name`: the stock
/// of a filed product goes up by `quantity`, and a name that was not filed
/// gets its opening entry.
pub open spec fn after_purchase(c: Catalogue, name: Seq<char>, quantity: nat) -> Catalogue {
    if c.contains_key(name) {
        c.insert(name, ProductView { quantity: c[name].quantity + quantity, ..c[name] })
    } else {
        c.insert(name, opening_entry(name, quantity))
    }
}

/// A delivery of `quantity` units of `name` can be booked: the stock
/// afterwards can still be counted in 32 bits.
pub open spec fn purchase_fits(c: Catalogue, name: Seq<char>, quantity: nat) -> bool {
    stock(c, name) + quantity <= u32::MAX
}

/// No two rows carry the same name.
pub open spec fn distinct_names(rows: Seq<ProductView>) -> bool {
    forall|i: int, j: int| 0 <= i < j < rows.len() ==> rows[i].name != rows[j].name
}

/// The catalogue that a run of rows spells out.
pub open spec fn catalogue_of(rows: Seq<ProductView>) -> Catalogue {
    Map::new(
        |name: Seq<char>| exists|i: int| 0 <= i < rows.len() && rows[i].name == name,
        |name: Seq<char>| rows[choose|i: int| 0 <= i < rows.len() && rows[i].name == name],
    )
}

/// `rows` lists the catalogue: each entry once, as it stands, and nothing else.
pub open spec fn is_listing(rows: Seq<ProductView>, c: Catalogue) -> bool {
    &&& distinct_names(rows)
    &&& forall|i: int|
        0 <= i < rows.len() ==> c.contains_key(#[trigger] rows[i].name) && c[rows[i].name]
            == rows[i]
    &&& forall|name: Seq<char>| #[trigger]
        c.contains_key(name) ==> exists|i: int| 0 <= i < rows.len() && rows[i].name == name
}

/// A row with a name of its own stands in the catalogue under that name.
pub proof fn lemma_row_is_filed(rows: Seq<ProductView>, i: int)
    requires
        distinct_names(rows),
        0 <= i < rows.len(),
    ensures
        catalogue_of(rows).contains_key(rows[i].name),
        catalogue_of(rows)[rows[i].name] == rows[i],
{
}

/// Replacing a row by one of the same name replaces the entry under that name.
pub proof fn lemma_replace_row(rows: Seq<ProductView>, i: int, row: ProductView)
    requires
        distinct_names(rows),
        0 <= i < rows.len(),
        row.name == rows[i].name,
    ensures
        distinct_names(rows.update(i, row)),
        catalogue_of(rows.update(i, row)) == catalogue_of(rows).insert(row.name, row),
{
    let after = rows.update(i, row);
    let expected = catalogue_of(rows).insert(row.name, row);
    assert forall|name: Seq<char>| catalogue_of(after).contains_key(name) implies
        expected.contains_key(name) && catalogue_of(after)[name] == expected[name] by {
        let k = choose|k: int| 0 <= k < after.len() && after[k].name == name;
        assert(after[k].name == rows[k].name);
    }
    assert forall|name: Seq<char>| expected.contains_key(name) implies catalogue_of(
        after,
    ).contains_key(name) by {
        if name == row.name {
            assert(after[i].name == name);
        } else {
            let k = choose|k: int| 0 <= k < rows.len() && rows[k].name == name;
            assert(after[k].name == name);
        }
    }
}

/// Appending a row whose name is new files it under that name.
pub proof fn lemma_append_row(rows: Seq<ProductView>, row: ProductView)
    requires
        distinct_names(rows),
        !catalogue_of(rows).contains_key(row.name),
    ensures
        distinct_names(rows.push(row)),
        catalogue_of(rows.push(row)) == catalogue_of(rows).insert(row.name, row),
{
    let after = rows.push(row);
    let expected = catalogue_of(rows).insert(row.name, row);
    assert forall|name: Seq<char>| catalogue_of(after).contains_key(name) implies
        expected.contains_key(name) && catalogue_of(after)[name] == expected[name] by {
        let k = choose|k: int| 0 <= k < after.len() && after[k].name == name;
        assert(k < rows.len() ==> after[k] == rows[k]);
    }
    assert forall|name: Seq<char>| expected.contains_key(name) implies catalogue_of(
        after,
    ).contains_key(name) by {
        if name == row.name {
            assert(after[rows.len() as int].name == name);
        } else {
            let k = choose|k: int| 0 <= k < rows.len() && rows[k].name == name;
            assert(after[k].name == name);
        }
    }
}

/// A run of rows spells out a catalogue, with no more entries than rows,
/// and with as many where no two rows carry the same name.
pub proof fn lemma_rows_spell_catalogue(rows: Seq<ProductView>)
    ensures
        is_catalogue(catalogue_of(rows)),
        catalogue_of(rows).len() <= rows.len(),
        distinct_names(rows) ==> catalogue_of(rows).len() == rows.len(),
    decreases rows.len(),
{
    let names = catalogue_of(rows).dom();
    if rows.len() == 0 {
        assert(names =~= Set::empty());
    } else {
        let front = rows.drop_last();
        let last = rows.last();
        lemma_rows_spell_catalogue(front);
        assert forall|name: Seq<char>| names.contains(name) implies catalogue_of(
            front,
        ).dom().insert(last.name).contains(name) by {
            if name != last.name {
                let k = choose|k: int| 0 <= k < rows.len() && rows[k].name == name;
                assert(front[k].name == name);
            }
        }
        assert(names =~= catalogue_of(front).dom().insert(last.name));
    }
}

} // verus!
