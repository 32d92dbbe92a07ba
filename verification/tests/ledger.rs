use inventory::error::SellError;
use inventory::ledger::Inventory;
use inventory::product::{Price, Product};

fn price(amount: f64) -> Price {
    Price { bits: amount.to_bits() }
}

fn amount(price: Price) -> f64 {
    f64::from_bits(price.bits)
}

fn product(name: &str, description: &str, unit: f64, quantity: u32) -> Product {
    Product {
        name: name.to_string(),
        description: description.to_string(),
        price: price(unit),
        quantity,
    }
}

fn stocked() -> Inventory {
    let mut inventory = Inventory::new();
    inventory.add_product(product("Widget", "A small widget", 10.0, 100));
    inventory.add_product(product("Gadget", "A cool gadget", 20.0, 50));
    inventory
}

fn sorted_rows(inventory: &Inventory) -> Vec<Product> {
    let mut rows = inventory.generate_report();
    rows.sort_by(|a, b| a.name.cmp(&b.name));
    rows
}

#[test]
fn new_inventory_is_empty() {
    let inventory = Inventory::new();
    assert_eq!(inventory.len(), 0);
    assert!(inventory.generate_report().is_empty());
    assert_eq!(inventory.get("Widget"), None);
}

#[test]
fn added_product_is_found_as_stored() {
    let inventory = stocked();
    assert_eq!(inventory.len(), 2);
    assert_eq!(inventory.get("Widget"), Some(&product("Widget", "A small widget", 10.0, 100)));
    assert_eq!(inventory.get("Gadget"), Some(&product("Gadget", "A cool gadget", 20.0, 50)));
    assert_eq!(inventory.get("widget"), None);
}

#[test]
fn added_product_is_listed_once_as_stored() {
    let inventory = stocked();
    assert_eq!(
        sorted_rows(&inventory),
        vec![
            product("Gadget", "A cool gadget", 20.0, 50),
            product("Widget", "A small widget", 10.0, 100),
        ]
    );
}

#[test]
fn adding_under_a_filed_name_replaces_the_entry() {
    let mut inventory = stocked();
    inventory.add_product(product("Widget", "A large widget", 12.5, 7));
    assert_eq!(inventory.len(), 2);
    assert_eq!(inventory.get("Widget"), Some(&product("Widget", "A large widget", 12.5, 7)));
    assert_eq!(
        sorted_rows(&inventory),
        vec![
            product("Gadget", "A cool gadget", 20.0, 50),
            product("Widget", "A large widget", 12.5, 7),
        ]
    );
}

#[test]
fn selling_an_unknown_product_is_not_found() {
    let mut inventory = stocked();
    let before = sorted_rows(&inventory);
    assert_eq!(inventory.sell_product("Gizmo", 1), Err(SellError::NotFound));
    assert_eq!(inventory.sell_product("Gizmo", 0), Err(SellError::NotFound));
    assert_eq!(sorted_rows(&inventory), before);
}

#[test]
fn selling_from_an_empty_inventory_is_not_found() {
    let mut inventory = Inventory::new();
    assert_eq!(inventory.sell_product("Widget", 1), Err(SellError::NotFound));
    assert_eq!(inventory.len(), 0);
}

#[test]
fn selling_more_than_stock_is_refused_and_changes_nothing() {
    let mut inventory = stocked();
    let before = sorted_rows(&inventory);
    assert_eq!(inventory.sell_product("Widget", 101), Err(SellError::InsufficientStock));
    assert_eq!(sorted_rows(&inventory), before);
    assert_eq!(inventory.sell_product("Widget", 101), Err(SellError::InsufficientStock));
    assert_eq!(sorted_rows(&inventory), before);
    assert_eq!(inventory.sell_product("Widget", u32::MAX), Err(SellError::InsufficientStock));
    assert_eq!(sorted_rows(&inventory), before);
}

#[test]
fn selling_within_stock_takes_exactly_the_units_sold() {
    let mut inventory = stocked();
    let sold = inventory.sell_product("Widget", 30);
    assert_eq!(sold, Ok(price(10.0)));
    assert_eq!(inventory.get("Widget"), Some(&product("Widget", "A small widget", 10.0, 70)));
    assert_eq!(inventory.get("Gadget"), Some(&product("Gadget", "A cool gadget", 20.0, 50)));
    assert_eq!(inventory.sell_product("Widget", 71), Err(SellError::InsufficientStock));
    assert_eq!(inventory.get("Widget").map(|p| p.quantity), Some(70));
}

#[test]
fn selling_the_whole_stock_leaves_none() {
    let mut inventory = stocked();
    assert_eq!(inventory.sell_product("Gadget", 50), Ok(price(20.0)));
    assert_eq!(inventory.get("Gadget").map(|p| p.quantity), Some(0));
    assert_eq!(inventory.len(), 2);
    assert_eq!(inventory.sell_product("Gadget", 1), Err(SellError::InsufficientStock));
    assert_eq!(inventory.sell_product("Gadget", 0), Ok(price(20.0)));
}

#[test]
fn selling_nothing_succeeds_with_a_total_of_zero() {
    let mut inventory = stocked();
    let before = sorted_rows(&inventory);
    let unit = inventory.sell_product("Widget", 0).unwrap();
    assert_eq!(amount(unit) * f64::from(0u32), 0.0);
    assert_eq!(sorted_rows(&inventory), before);
}

#[test]
fn purchase_of_an_unknown_product_opens_an_entry() {
    let mut inventory = stocked();
    inventory.purchase_product("Gizmo", 12, price(3.5));
    assert_eq!(inventory.len(), 3);
    let opened = inventory.get("Gizmo").unwrap();
    assert_eq!(opened.name, "Gizmo");
    assert_eq!(opened.description, "");
    assert_eq!(amount(opened.price), 0.0);
    assert_eq!(opened.price, Price::zero());
    assert_eq!(opened.quantity, 12);
    assert_eq!(inventory.get("Widget"), Some(&product("Widget", "A small widget", 10.0, 100)));
}

#[test]
fn purchase_does_not_depend_on_the_cost() {
    let mut cheap = stocked();
    let mut dear = stocked();
    cheap.purchase_product("Gizmo", 4, price(0.0));
    dear.purchase_product("Gizmo", 4, price(1.0e9));
    cheap.purchase_product("Widget", 4, price(0.0));
    dear.purchase_product("Widget", 4, price(f64::NAN));
    assert_eq!(sorted_rows(&cheap), sorted_rows(&dear));
}

#[test]
fn purchase_of_a_filed_product_raises_its_stock_only() {
    let mut inventory = stocked();
    inventory.purchase_product("Gadget", 25, price(150.0));
    assert_eq!(inventory.len(), 2);
    assert_eq!(inventory.get("Gadget"), Some(&product("Gadget", "A cool gadget", 20.0, 75)));
    assert_eq!(inventory.get("Widget"), Some(&product("Widget", "A small widget", 10.0, 100)));
}

#[test]
fn purchase_of_no_units_of_an_unknown_product_still_opens_an_entry() {
    let mut inventory = Inventory::new();
    inventory.purchase_product("Gizmo", 0, price(1.0));
    assert_eq!(inventory.get("Gizmo"), Some(&product("Gizmo", "", 0.0, 0)));
}

#[test]
fn room_for_a_delivery_ends_at_the_counter_limit() {
    let mut inventory = Inventory::new();
    inventory.add_product(product("Bolt", "", 0.25, u32::MAX - 5));
    assert!(inventory.has_room_for("Bolt", 0));
    assert!(inventory.has_room_for("Bolt", 5));
    assert!(!inventory.has_room_for("Bolt", 6));
    assert!(!inventory.has_room_for("Bolt", u32::MAX));
    assert!(inventory.has_room_for("Nut", u32::MAX));
    inventory.purchase_product("Bolt", 5, price(0.1));
    assert_eq!(inventory.get("Bolt").map(|p| p.quantity), Some(u32::MAX));
    assert!(!inventory.has_room_for("Bolt", 1));
    inventory.purchase_product("Nut", u32::MAX, price(0.1));
    assert_eq!(inventory.get("Nut").map(|p| p.quantity), Some(u32::MAX));
}

#[test]
fn names_are_told_apart_character_by_character() {
    let mut inventory = Inventory::new();
    inventory.add_product(product("", "nameless", 1.0, 1));
    inventory.add_product(product("Caf\u{e9}", "accented", 2.0, 2));
    inventory.add_product(product("Cafe", "plain", 3.0, 3));
    inventory.add_product(product("Cafe ", "trailing blank", 4.0, 4));
    assert_eq!(inventory.len(), 4);
    assert_eq!(inventory.sell_product("", 1), Ok(price(1.0)));
    assert_eq!(inventory.sell_product("Caf\u{e9}", 1), Ok(price(2.0)));
    assert_eq!(inventory.sell_product("Cafe", 1), Ok(price(3.0)));
    assert_eq!(inventory.sell_product("Cafe ", 1), Ok(price(4.0)));
    assert_eq!(inventory.sell_product("Caf", 1), Err(SellError::NotFound));
    assert_eq!(inventory.get("Cafe").map(|p| p.quantity), Some(2));
}

#[test]
fn clone_of_a_product_is_equal_to_it() {
    let widget = product("Widget", "A small widget", 10.0, 100);
    assert_eq!(widget.clone(), widget);
}

#[test]
fn sale_errors_read_as_they_should() {
    assert_eq!(SellError::NotFound.message(), "Product not found");
    assert_eq!(SellError::InsufficientStock.message(), "Not enough stock");
}

#[test]
fn demonstration_run() {
    let mut inventory = stocked();

    let unit = inventory.sell_product("Widget", 5).unwrap();
    assert_eq!(amount(unit) * f64::from(5u32), 50.0);
    assert_eq!(inventory.get("Widget").map(|p| p.quantity), Some(95));

    assert!(inventory.has_room_for("Gadget", 10));
    inventory.purchase_product("Gadget", 10, price(150.0));
    let gadget = inventory.get("Gadget").unwrap();
    assert_eq!(gadget.quantity, 60);
    assert_eq!(amount(gadget.price), 20.0);

    let rows = sorted_rows(&inventory);
    assert_eq!(rows.len(), 2);
    assert_eq!(rows[0], product("Gadget", "A cool gadget", 20.0, 60));
    assert_eq!(rows[1], product("Widget", "A small widget", 10.0, 95));
}
