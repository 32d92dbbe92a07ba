//! The ledger itself: the products on hand, and the operations on them.

use vstd::prelude::*;
use crate::catalogue::{
    after_purchase, after_sale, catalogue_of, distinct_names, is_catalogue, is_listing,
    lemma_append_row, lemma_replace_row, lemma_row_is_filed, lemma_rows_spell_catalogue,
    purchase_fits, sale_outcome, with_product, Catalogue,
};
use crate::error::SellError;
use crate::product::{views, Price, Product};
use crate::text::same_text;

verus! {

/// The products on hand, each filed under its name.
pub struct Inventory {
    products: Vec<Product>,
}

impl View for Inventory {
    type V = Catalogue;

    closed spec fn view(&self) -> Catalogue {
        catalogue_of(views(self.products@))
    }
}

impl Inventory {
    #[verifier::type_invariant]
    spec fn filed_once(&self) -> bool {
        distinct_names(views(self.products@))
    }

    /// What an inventory holds is a catalogue: finitely many entries, each
    /// filed under its own name.
    pub proof fn lemma_view_is_catalogue(self)
        ensures
            is_catalogue(self@),
    {
        lemma_rows_spell_catalogue(views(self.products@));
    }

    /// An inventory with nothing in it.
    pub fn new() -> (inventory: Inventory)
        ensures
            inventory@ == Catalogue::empty(),
    {
        Inventory { products: Vec::new() }
    }

    /// Where the product called `name` stands, if it is filed.
    fn position(&self, name: &str) -> (at: Option<usize>)
        ensures
            match at {
                Some(i) => i < self.products.len() && self.products[i as int].name@ == name@,
                None => !self@.contains_key(name@),
            },
    {
        let n: usize = self.products.len();
        let mut i: usize = 0;
        while i < n
            invariant
                i <= n,
                n == self.products.len(),
                forall|j: int| 0 <= j < i ==> self.products[j].name@ != name@,
            decreases n - i,
        {
            if same_text(self.products[i].name.as_str(), name) {
                return Some(i);
            }
            i += 1;
        }
        proof {
            if self@.contains_key(name@) {
                let rows = views(self.products@);
                let k = choose|k: int| 0 <= k < rows.len() && rows[k].name == name@;
                assert(self.products[k].name@ == name@);
            }
        }
        None
    }

    /// The number of products on file.
    pub fn len(&self) -> (count: usize)
        ensures
            count == self@.len(),
    {
        proof {
            use_type_invariant(self);
            lemma_rows_spell_catalogue(views(self.products@));
        }
        self.products.len()
    }

    /// Looks up the product filed under `name`.
    pub fn get(&self, name: &str) -> (found: Option<&Product>)
        ensures
            match found {
                Some(product) => self@.contains_key(name@) && product@ == self@[name@],
                None => !self@.contains_key(name@),
            },
    {
        match self.position(name) {
            Some(i) => {
                proof {
                    use_type_invariant(self);
                    lemma_row_is_filed(views(self.products@), i as int);
                }
                Some(&self.products[i])
            },
            None => None,
        }
    }

    /// Puts `products` in place of the list that is held, and hands that one out.
    ///
    /// Every change to the list is made on a list that was taken out this
    /// way and is put back when it is whole again, so that the inventory
    /// never holds a list in which a name occurs twice.
    fn exchange(&mut self, products: Vec<Product>) -> (held: Vec<Product>)
        requires
            distinct_names(views(products@)),
        ensures
            held == old(self).products,
            final(self).products == products,
    {
        let mut other = products;
        core::mem::swap(&mut self.products, &mut other);
        other
    }

    /// Files `product` under its name, in place of whatever stood there.
    pub fn add_product(&mut self, product: Product)
        ensures
            final(self)@ == with_product(old(self)@, product@),
    {
        proof {
            use_type_invariant(&*self);
        }
        let at = self.position(product.name.as_str());
        let mut products = self.exchange(Vec::new());
        let ghost before = views(products@);
        match at {
            Some(i) => {
                proof {
                    lemma_replace_row(before, i as int, product@);
                }
                products[i] = product;
            },
            None => {
                proof {
                    lemma_append_row(before, product@);
                }
                products.push(product);
            },
        }
        assert(views(products@) =~= match at {
            Some(i) => before.update(i as int, product@),
            None => before.push(product@),
        });
        self.exchange(products);
    }

    /// Sells `quantity` units of the product called `name`.
    ///
    /// The sale goes through where the product is filed and has that many
    /// units in stock: the stock goes down by `quantity`, and the product's
    /// unit price comes back, from which the caller works out the amount due.
    /// Otherwise nothing changes and the reason comes back.
    pub fn sell_product(&mut self, name: &str, quantity: u32) -> (outcome: Result<Price, SellError>)
        ensures
            outcome == sale_outcome(old(self)@, name@, quantity as nat),
            final(self)@ == after_sale(old(self)@, name@, quantity as nat),
    {
        proof {
            use_type_invariant(&*self);
        }
        match self.position(name) {
            Some(i) => {
                proof {
                    lemma_row_is_filed(views(self.products@), i as int);
                }
                if self.products[i].quantity >= quantity {
                    let price = self.products[i].price;
                    let mut products = self.exchange(Vec::new());
                    let ghost before = views(products@);
                    products[i].quantity = products[i].quantity - quantity;
                    proof {
                        lemma_replace_row(before, i as int, products[i as int]@);
                        assert(views(products@) =~= before.update(i as int, products[i as int]@));
                    }
                    self.exchange(products);
                    Ok(price)
                } else {
                    Err(SellError::InsufficientStock)
                }
            },
            None => Err(SellError::NotFound),
        }
    }

    /// Tells whether a delivery of `quantity` units of `name` can be booked:
    /// the stock afterwards has to fit the counter.
    pub fn has_room_for(&self, name: &str, quantity: u32) -> (fits: bool)
        ensures
            fits == purchase_fits(self@, name@, quantity as nat),
    {
        match self.get(name) {
            Some(product) => quantity <= u32::MAX - product.quantity,
            None => true,
        }
    }

    /// Books a delivery of `quantity` units of the product called `name`.
    ///
    /// The stock of a filed product goes up by `quantity`; a name that is
    /// not filed gets an entry with no description, a price of zero and
    /// `quantity` units. The unit cost is taken down nowhere: neither the
    /// price nor anything else depends on it.
    #[allow(unused_variables)]
    pub fn purchase_product(&mut self, name: &str, quantity: u32, cost: Price)
        requires
            purchase_fits(old(self)@, name@, quantity as nat),
        ensures
            final(self)@ == after_purchase(old(self)@, name@, quantity as nat),
    {
        proof {
            use_type_invariant(&*self);
        }
        match self.position(name) {
            Some(i) => {
                proof {
                    lemma_row_is_filed(views(self.products@), i as int);
                }
                let mut products = self.exchange(Vec::new());
                let ghost before = views(products@);
                products[i].quantity = products[i].quantity + quantity;
                proof {
                    lemma_replace_row(before, i as int, products[i as int]@);
                    assert(views(products@) =~= before.update(i as int, products[i as int]@));
                }
                self.exchange(products);
            },
            None => {
                let product = Product {
                    name: name.to_owned(),
                    description: String::new(),
                    price: Price::zero(),
                    quantity,
                };
                self.add_product(product);
            },
        }
    }

    /// Lists every product on hand, each once, as it stands.
    pub fn generate_report(&self) -> (rows: Vec<Product>)
        ensures
            is_listing(views(rows@), self@),
            rows.len() == self@.len(),
    {
        proof {
            use_type_invariant(self);
        }
        let n: usize = self.products.len();
        let mut rows: Vec<Product> = Vec::new();
        let mut i: usize = 0;
        while i < n
            invariant
                i <= n,
                n == self.products.len(),
                rows@ == self.products@.subrange(0, i as int),
            decreases n - i,
        {
            rows.push(self.products[i].clone());
            i += 1;
        }
        proof {
            assert(rows@ =~= self.products@);
            lemma_rows_spell_catalogue(views(rows@));
        }
        rows
    }
}

} // verus!
