//! A purchased lot and the record that the store keeps of it.

use crate::category::classify;
use crate::category::get_category;
use crate::category::Category;
use crate::record::record_view;
use crate::record::Record;
use crate::record::RecordView;
use vstd::prelude::*;

verus! {

/// One purchased lot. Nothing changes a lot once the catalog holds it.
#[derive(Debug)]
pub struct Products {
    pub name: String,
    /// The price of one unit, in yoctoNEAR.
    pub price: u128,
    pub category: Category,
    pub quantity: i16,
    /// The time of the purchase as the buyer gave it.
    pub date_bought: u64,
}

/// A lot as mathematical values.
pub struct Lot {
    pub name: Seq<char>,
    pub price: u128,
    pub category: Category,
    pub quantity: i16,
    pub date_bought: u64,
}

impl View for Products {
    type V = Lot;

    open spec fn view(&self) -> Lot {
        Lot {
            name: self.name@,
            price: self.price,
            category: self.category,
            quantity: self.quantity,
            date_bought: self.date_bought,
        }
    }
}

impl Clone for Products {
    fn clone(&self) -> (copy: Self)
        ensures
            copy@ == self@,
    {
        Products {
            name: self.name.clone(),
            price: self.price,
            category: self.category,
            quantity: self.quantity,
            date_bought: self.date_bought,
        }
    }
}

/// The record that the store keeps of a lot: its fields in the order of the
/// persisted layout, the category by its tag.
pub open spec fn record_of(lot: Lot) -> RecordView {
    (lot.name, lot.price, lot.category.tag_of(), lot.quantity, lot.date_bought)
}

/// The lot that a record describes. A record whose tag stands for no category
/// describes none.
pub open spec fn lot_of(record: RecordView) -> Option<Lot> {
    match Category::of_tag(record.2) {
        Some(category) => Some(
            Lot {
                name: record.0,
                price: record.1,
                category,
                quantity: record.3,
                date_bought: record.4,
            },
        ),
        None => None,
    }
}

/// The lot that was bought with the given arguments: each kept as it came,
/// but for the category, which the label names.
pub open spec fn bought(
    name: Seq<char>,
    price: u128,
    label: Seq<char>,
    quantity: i16,
    date: u64,
) -> Lot {
    Lot { name, price, category: classify(label), quantity, date_bought: date }
}

impl Products {
    /// The record to store for this lot.
    pub fn into_record(self) -> (record: Record)
        ensures
            record_view(record) == record_of(self@),
            lot_of(record_view(record)) == Some(self@),
    {
        let tag: u8 = self.category.tag();
        (self.name, self.price, tag, self.quantity, self.date_bought)
    }

    /// The lot that a stored record describes, if its tag stands for a
    /// category.
    pub fn from_record(record: Record) -> (product: Option<Products>)
        ensures
            match product {
                Some(p) => lot_of(record_view(record)) == Some(p@),
                None => lot_of(record_view(record)) is None,
            },
    {
        match Category::from_tag(record.2) {
            Some(category) => Some(
                Products {
                    name: record.0,
                    price: record.1,
                    category,
                    quantity: record.3,
                    date_bought: record.4,
                },
            ),
            None => None,
        }
    }
}

/// The record to store for a purchase: the lot that the arguments describe,
/// each kept as it came, but for the category, which the label names.
pub fn new_record(
    name: String,
    price: u128,
    category: String,
    quantity: i16,
    date: u64,
) -> (record: Record)
    ensures
        record_view(record) == record_of(bought(name@, price, category@, quantity, date)),
        lot_of(record_view(record)) == Some(bought(name@, price, category@, quantity, date)),
{
    let pr = Products {
        name: name,
        price: price,
        category: get_category(category),
        quantity: quantity,
        date_bought: date,
    };
    pr.into_record()
}

/// A lot goes into its record and comes out of it whole: name, price,
/// quantity and date as the purchase gave them, the category as the label
/// names it.
pub proof fn lemma_record_keeps_the_lot(
    name: Seq<char>,
    price: u128,
    label: Seq<char>,
    quantity: i16,
    date: u64,
)
    ensures
        lot_of(record_of(bought(name, price, label, quantity, date))) == Some(
            bought(name, price, label, quantity, date),
        ),
        bought(name, price, label, quantity, date).name == name,
        bought(name, price, label, quantity, date).price == price,
        bought(name, price, label, quantity, date).category == classify(label),
        bought(name, price, label, quantity, date).quantity == quantity,
        bought(name, price, label, quantity, date).date_bought == date,
{
}

/// One NEAR in yoctoNEAR: ten to the twenty-fourth.
pub fn one_near() -> (r: u128)
    ensures
        r == 1_000_000_000_000_000_000_000_000u128,
{
    1_000_000_000_000_000_000_000_000u128
}

} // verus!
