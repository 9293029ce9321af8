//! The shared state lesson: a store's configuration, a manager passed along
//! with each request, and an inventory that requests add products to.
use vstd::prelude::*;
use crate::text::join2;

verus! {

/// The configuration of the store.
#[derive(Debug, Clone, PartialEq, Eq)]
pub struct StoreConfig {
    pub name: String,
    pub location: String,
    pub opening_year: u16,
}

/// A product of the inventory.
#[derive(Debug, Clone, PartialEq, Eq)]
pub struct Product {
    pub id: u32,
    pub name: String,
    pub quantity: u32,
}

/// The manager on whose behalf products are added.
#[derive(Debug, Clone, PartialEq, Eq)]
pub struct ManagerInfo {
    pub name: String,
}

impl Product {
    /// A copy of the product, field for field.
    pub fn duplicate(&self) -> (r: Product)
        ensures
            r == *self,
    {
        Product { id: self.id, name: self.name.clone(), quantity: self.quantity }
    }
}

impl StoreConfig {
    /// A copy of the configuration, field for field.
    pub fn duplicate(&self) -> (r: StoreConfig)
        ensures
            r == *self,
    {
        StoreConfig {
            name: self.name.clone(),
            location: self.location.clone(),
            opening_year: self.opening_year,
        }
    }
}

/// The inventory: the products, in the order they were added.
#[derive(Debug)]
pub struct Database {
    inventory: Vec<Product>,
}

impl View for Database {
    type V = Seq<Product>;

    closed spec fn view(&self) -> Seq<Product> {
        self.inventory@
    }
}

impl Database {
    /// An empty inventory.
    pub fn new() -> (r: Database)
        ensures
            r@ == Seq::<Product>::empty(),
    {
        Database { inventory: Vec::new() }
    }

    /// Adds a product after those already there.
    pub fn add_items(&mut self, product: Product)
        ensures
            final(self)@ == old(self)@.push(product),
    {
        self.inventory.push(product);
    }

    /// All the products, in the order they were added.
    pub fn get_all_items(&self) -> (r: Vec<Product>)
        ensures
            r@ == self@,
    {
        let mut out: Vec<Product> = Vec::new();
        let n = self.inventory.len();
        for i in 0..n
            invariant
                n == self.inventory@.len(),
                out@ == self.inventory@.subrange(0, i as int),
        {
            out.push(self.inventory[i].duplicate());
        }
        assert(self.inventory@.subrange(0, n as int) == self.inventory@);
        out
    }
}

/// The store's configuration, as the info handler answers it.
pub fn store_info(config: &StoreConfig) -> (r: StoreConfig)
    ensures
        r == *config,
{
    config.duplicate()
}

/// Adds the product to the inventory and answers 201 with the manager's name.
pub fn add_product(db: &mut Database, manager: &ManagerInfo, payload: Product) -> (r: (u16, String))
    ensures
        final(db)@ == old(db)@.push(payload),
        r.0 == 201,
        r.1@ == "Created by "@ + manager.name@,
{
    db.add_items(payload);
    (201, join2("Created by ", manager.name.as_str()))
}

/// The products, as the listing handler answers them.
pub fn list_product(db: &Database) -> (r: Vec<Product>)
    ensures
        r@ == db@,
{
    db.get_all_items()
}

/// The inventory after adding `added`, one by one, to `items`.
pub open spec fn after_adds(items: Seq<Product>, added: Seq<Product>) -> Seq<Product>
    decreases added.len(),
{
    if added.len() == 0 {
        items
    } else {
        after_adds(items, added.drop_last()).push(added.last())
    }
}

/// Whatever was added is listed, after what was there, in the order it was added.
pub proof fn law_listing_keeps_additions(items: Seq<Product>, added: Seq<Product>)
    ensures
        after_adds(items, added) == items + added,
    decreases added.len(),
{
    if added.len() > 0 {
        law_listing_keeps_additions(items, added.drop_last());
        assert(items + added =~= (items + added.drop_last()).push(added.last()));
    }
}

} // verus!
