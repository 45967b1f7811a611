//! The arithmetic and the decision of a sale.

use crate::product::lot_of;
use crate::product::Lot;
use crate::product::Products;
use crate::record::RecordView;
use vstd::prelude::*;

verus! {

/// Why a sale was refused.
#[derive(Clone, Copy, Debug, PartialEq, Eq, Structural)]
pub enum SellError {
    /// The catalog holds no lot under the id.
    ProductNotFound,
    /// The price of the lot times the widened quantity does not fit in 128
    /// bits.
    CostOverflow,
    /// The deposit attached to the call is less than the total cost.
    InsufficientDeposit,
    /// The store holds a record under the id, but its tag stands for no
    /// category, so that it describes no lot.
    UnreadableRecord,
}

/// A quantity as the 128-bit unsigned multiplier that sign extension makes of
/// it: itself where it is not negative, and `2^128 + quantity` where it is.
pub open spec fn widen(quantity: i16) -> nat {
    if quantity >= 0 {
        quantity as nat
    } else {
        (0x1_0000_0000_0000_0000_0000_0000_0000_0000 + quantity) as nat
    }
}

/// The unit price times the widened quantity, as a mathematical integer.
pub open spec fn total_cost(price: u128, quantity: i16) -> nat {
    price as nat * widen(quantity)
}

/// What a sale of `quantity` units comes to, given what the catalog holds
/// under the id and the deposit that came with the call: the amount to pay
/// out, or the reason for which nothing is paid.
pub open spec fn sale(found: Option<Lot>, quantity: i16, deposit: u128) -> Result<u128, SellError> {
    match found {
        None => Err(SellError::ProductNotFound),
        Some(lot) => if total_cost(lot.price, quantity) > u128::MAX {
            Err(SellError::CostOverflow)
        } else if deposit < total_cost(lot.price, quantity) {
            Err(SellError::InsufficientDeposit)
        } else {
            Ok(total_cost(lot.price, quantity) as u128)
        },
    }
}

/// What a sale comes to, given what a lookup in the store found under the
/// id: with no record found it is refused as `ProductNotFound`, with a record
/// that describes no lot as `UnreadableRecord`, and else it is the sale from
/// the lot that the record describes.
pub open spec fn sale_of(
    found: Option<RecordView>,
    quantity: i16,
    deposit: u128,
) -> Result<u128, SellError> {
    match found {
        None => Err(SellError::ProductNotFound),
        Some(record) => match lot_of(record) {
            Some(lot) => sale(Some(lot), quantity, deposit),
            None => Err(SellError::UnreadableRecord),
        },
    }
}

/// What a sale comes to with the largest deposit there is: the total cost,
/// or the refusal that no deposit lifts.
pub open spec fn best_sale(found: Option<RecordView>, quantity: i16) -> Result<u128, SellError> {
    sale_of(found, quantity, u128::MAX)
}

/// Sign-extends a quantity to 128 bits.
pub fn widen_quantity(quantity: i16) -> (w: u128)
    ensures
        w == widen(quantity),
{
    let w: u128 = #[verifier::truncate] (quantity as u128);
    assert(quantity >= 0 ==> quantity as u128 == quantity) by (bit_vector);
    assert(quantity < 0 ==> quantity as u128 == 0x1_0000_0000_0000_0000_0000_0000_0000_0000
        + quantity) by (bit_vector);
    w
}

/// The lot behind a looked-up product, if there is one.
pub open spec fn lot_behind(found: Option<&Products>) -> Option<Lot> {
    match found {
        Some(product) => Some(product@),
        None => None,
    }
}

/// Decides a sale from what the catalog holds under the id, the quantity asked
/// for and the deposit attached: the amount to pay out, or the reason for
/// which nothing is paid. The amount is the total cost, whatever the deposit
/// exceeds it by.
pub fn settle(found: Option<&Products>, quantity: i16, deposit: u128) -> (r: Result<u128, SellError>)
    ensures
        r == sale(lot_behind(found), quantity, deposit),
{
    match found {
        None => Err(SellError::ProductNotFound),
        Some(product) => {
            match product.price.checked_mul(widen_quantity(quantity)) {
                None => Err(SellError::CostOverflow),
                Some(cost) => {
                    if deposit < cost {
                        Err(SellError::InsufficientDeposit)
                    } else {
                        Ok(cost)
                    }
                },
            }
        },
    }
}

/// A sale that goes through pays out the unit price times the widened
/// quantity, whatever the deposit exceeds it by.
pub proof fn lemma_sale_pays_total_cost(lot: Lot, quantity: i16, deposit: u128)
    requires
        sale(Some(lot), quantity, deposit) is Ok,
    ensures
        sale(Some(lot), quantity, deposit)->Ok_0 == lot.price * widen(quantity),
        sale(Some(lot), quantity, deposit)->Ok_0 <= deposit,
{
}

/// A sale from an id under which the catalog holds nothing is refused as
/// `ProductNotFound`, whatever the quantity and the deposit.
pub proof fn lemma_sale_of_missing_lot(quantity: i16, deposit: u128)
    ensures
        sale(None, quantity, deposit) is Err,
        sale(None, quantity, deposit)->Err_0 == SellError::ProductNotFound,
        sale_of(None, quantity, deposit) is Err,
        sale_of(None, quantity, deposit)->Err_0 == SellError::ProductNotFound,
{
}

/// The deposit decides a sale from a lot: it goes through exactly when the
/// deposit is at least the total cost. So a deposit of one less than the total
/// cost is refused as `InsufficientDeposit`, and a deposit of exactly the
/// total cost is accepted. The one total cost left out is `2^128`: one less
/// is then the largest deposit there is, and the sale is refused because the
/// cost does not fit.
pub proof fn lemma_deposit_threshold(lot: Lot, quantity: i16, deposit: u128)
    requires
        total_cost(lot.price, quantity) != 0x1_0000_0000_0000_0000_0000_0000_0000_0000,
    ensures
        sale(Some(lot), quantity, deposit) is Ok <==> deposit >= total_cost(lot.price, quantity),
        deposit == total_cost(lot.price, quantity) - 1
            ==> sale(Some(lot), quantity, deposit) is Err
            && sale(Some(lot), quantity, deposit)->Err_0 == SellError::InsufficientDeposit,
        deposit == total_cost(lot.price, quantity)
            ==> sale(Some(lot), quantity, deposit) is Ok
            && sale(Some(lot), quantity, deposit)->Ok_0 == deposit,
{
}

/// The deposit decides nothing of a sale but whether it covers the cost: the
/// sale goes through, for the cost that the largest deposit would pay,
/// exactly when no refusal stands whatever the deposit and the deposit is at
/// least that cost; a refusal that stands whatever the deposit is the
/// refusal; and else the refusal is `InsufficientDeposit`.
pub proof fn lemma_deposit_only_covers(found: Option<RecordView>, quantity: i16, deposit: u128)
    ensures
        best_sale(found, quantity) is Err ==> sale_of(found, quantity, deposit) == best_sale(
            found,
            quantity,
        ),
        best_sale(found, quantity) is Ok && deposit >= best_sale(found, quantity)->Ok_0
            ==> sale_of(found, quantity, deposit) == best_sale(found, quantity),
        best_sale(found, quantity) is Ok && deposit < best_sale(found, quantity)->Ok_0
            ==> sale_of(found, quantity, deposit) is Err
            && sale_of(found, quantity, deposit)->Err_0 == SellError::InsufficientDeposit,
{
}

/// A sale consumes nothing: what went through once goes through again from
/// the same record, for the same amount, with any deposit that covers it.
pub proof fn lemma_sale_repeats(found: Option<RecordView>, quantity: i16, first: u128, next: u128)
    requires
        sale_of(found, quantity, first) is Ok,
        next >= sale_of(found, quantity, first)->Ok_0,
    ensures
        sale_of(found, quantity, next) == sale_of(found, quantity, first),
{
}

impl SellError {
    /// The text with which the host is told of the refusal.
    pub open spec fn text(self) -> Seq<char> {
        match self {
            SellError::ProductNotFound => "The product id does not exist"@,
            SellError::CostOverflow => "attempt to multiply with overflow"@,
            SellError::InsufficientDeposit => "attached deposit not enough"@,
            SellError::UnreadableRecord => "Cannot deserialize value with Borsh"@,
        }
    }

    /// The text with which the host is told of the refusal.
    pub fn message(&self) -> (m: String)
        ensures
            m@ == self.text(),
    {
        match self {
            SellError::ProductNotFound => "The product id does not exist".to_owned(),
            SellError::CostOverflow => "attempt to multiply with overflow".to_owned(),
            SellError::InsufficientDeposit => "attached deposit not enough".to_owned(),
            SellError::UnreadableRecord => "Cannot deserialize value with Borsh".to_owned(),
        }
    }
}

} // verus!
