//! The supermarket's two operations, buying a lot and selling from one, as
//! the decisions that the contract makes on each call.
//!
//! The catalog lies in the host's storage, and value moves by the host's
//! transfers. Both are the contract's to carry out. The rules here say which
//! record is to be written under which id, and what is to be paid to whom and
//! replied, from what the contract read in the store.

use crate::category::classify;
use crate::host::attached_deposit;
use crate::host::random_seed;
use crate::host::signer_account_id;
use crate::product::bought;
use crate::product::lot_of;
use crate::product::new_record;
use crate::product::record_of;
use crate::product::Products;
use crate::record::found_view;
use crate::record::record_view;
use crate::record::Record;
use crate::record::RecordView;
use crate::sale::best_sale;
use crate::sale::sale_of;
use crate::sale::settle;
use crate::sale::total_cost;
use crate::sale::SellError;
use near_sdk::AccountId;
use vstd::prelude::*;

verus! {

/// The byte under which the catalog is rooted in the host's storage: the
/// letter `p`.
pub const CATALOG_PREFIX: u8 = 0x70;

/// What a purchase has the contract do: write the record into the catalog
/// under the id, in place of what stands there.
#[derive(Debug)]
pub struct Purchase {
    pub id: u8,
    pub record: Record,
}

/// What a sale that goes through has the contract do: transfer the amount to
/// the recipient, and reply to the caller. Nothing is written to the catalog.
#[derive(Debug)]
pub struct Sold {
    pub recipient: AccountId,
    /// The amount to transfer, in yoctoNEAR.
    pub amount: u128,
    pub reply: String,
}

/// Whether `result` is what a sale that came to `outcome` has the contract
/// do for `signer`: pay the amount to the signer and reply `ok`, or refuse
/// for the same reason.
pub open spec fn sold_as(
    outcome: Result<u128, SellError>,
    signer: AccountId,
    result: Result<Sold, SellError>,
) -> bool {
    match outcome {
        Ok(amount) => result is Ok && result->Ok_0.recipient == signer
            && result->Ok_0.amount == amount && result->Ok_0.reply@ == "ok"@,
        Err(e) => result is Err && result->Err_0 == e,
    }
}

/// The rules of the supermarket: what each of its two operations has the
/// contract write, pay and reply. It holds nothing itself; the catalog is
/// the contract's, in the host's storage.
pub struct Supermaket {}

impl Supermaket {
    /// Buys a lot: the record of the lot that the arguments describe is to be
    /// written under the first byte of the block's random seed.
    pub fn buy(
        name: String,
        price: u128,
        category: String,
        quantity: i16,
        date: u64,
    ) -> (purchase: Purchase)
        ensures
            record_view(purchase.record) == record_of(
                bought(name@, price, category@, quantity, date),
            ),
    {
        let random = random_seed();
        Supermaket::buy_with_seed(random.as_slice(), name, price, category, quantity, date)
    }

    /// Buys a lot with the given seed: the record of the lot that the
    /// arguments describe is to be written under the first byte of the seed.
    pub fn buy_with_seed(
        seed: &[u8],
        name: String,
        price: u128,
        category: String,
        quantity: i16,
        date: u64,
    ) -> (purchase: Purchase)
        requires
            seed@.len() >= 1,
        ensures
            purchase.id == seed@[0],
            record_view(purchase.record) == record_of(
                bought(name@, price, category@, quantity, date),
            ),
    {
        Purchase { id: seed[0], record: new_record(name, price, category, quantity, date) }
    }

    /// Sells `quantity` units from what the store holds under the id asked
    /// for, to the signer of the call and against the deposit attached to
    /// it. The result is the one that `sell_with` gives for that signer and
    /// deposit. Whatever they are: a refusal that no deposit lifts is the
    /// result; a sale that goes through pays exactly the total cost and
    /// replies `ok`; the only other refusal is `InsufficientDeposit`; and a
    /// sale that costs nothing goes through.
    pub fn sell(found: Option<Record>, quantity: i16) -> (result: Result<Sold, SellError>)
        ensures
            exists|signer: AccountId, deposit: u128| #[trigger]
                sold_as(sale_of(found_view(found), quantity, deposit), signer, result),
            best_sale(found_view(found), quantity) is Err ==> result is Err
                && result->Err_0 == best_sale(found_view(found), quantity)->Err_0,
            best_sale(found_view(found), quantity) is Ok && result is Err
                ==> result->Err_0 == SellError::InsufficientDeposit,
            result is Ok ==> result->Ok_0.amount == best_sale(found_view(found), quantity)->Ok_0
                && result->Ok_0.reply@ == "ok"@,
            best_sale(found_view(found), quantity) is Ok
                && best_sale(found_view(found), quantity)->Ok_0 == 0 ==> result is Ok,
    {
        let current_user = signer_account_id();
        let deposit = attached_deposit();
        Supermaket::sell_with(found, quantity, current_user, deposit)
    }

    /// Sells `quantity` units from what the store holds under the id asked
    /// for, to `signer` and against `deposit`. Where the record describes a
    /// lot and the deposit covers the total cost, exactly that cost is to be
    /// paid to `signer` and the reply is `ok`; else nothing is to be paid and
    /// the result is the reason.
    pub fn sell_with(
        found: Option<Record>,
        quantity: i16,
        signer: AccountId,
        deposit: u128,
    ) -> (result: Result<Sold, SellError>)
        ensures
            sold_as(sale_of(found_view(found), quantity, deposit), signer, result),
    {
        let outcome = match found {
            None => settle(None, quantity, deposit),
            Some(record) => match Products::from_record(record) {
                Some(product) => settle(Some(&product), quantity, deposit),
                None => Err(SellError::UnreadableRecord),
            },
        };
        match outcome {
            Ok(total_cost) => Ok(
                Sold { recipient: signer, amount: total_cost, reply: "ok".to_owned() },
            ),
            Err(e) => Err(e),
        }
    }
}

/// The catalog after the contract has carried out a purchase: the record
/// stands under the id, in place of what stood there, and every other id
/// holds what it held.
pub open spec fn after_purchase(
    catalog: Map<u8, RecordView>,
    id: u8,
    record: RecordView,
) -> Map<u8, RecordView> {
    catalog.insert(id, record)
}

/// A purchase carried out on an empty catalog leaves one entry: it stands
/// under the first byte of the seed and describes the lot bought, with name,
/// price, quantity and date as given and the category that the label names.
pub proof fn lemma_first_purchase(
    seed: Seq<u8>,
    name: Seq<char>,
    price: u128,
    label: Seq<char>,
    quantity: i16,
    date: u64,
)
    requires
        seed.len() >= 1,
    ensures
        ({
            let after = after_purchase(
                Map::empty(),
                seed[0],
                record_of(bought(name, price, label, quantity, date)),
            );
            &&& after.dom().finite()
            &&& after.len() == 1
            &&& after.dom() == set![seed[0]]
            &&& lot_of(after[seed[0]]) == Some(bought(name, price, label, quantity, date))
            &&& lot_of(after[seed[0]])->0.name == name
            &&& lot_of(after[seed[0]])->0.price == price
            &&& lot_of(after[seed[0]])->0.category == classify(label)
            &&& lot_of(after[seed[0]])->0.quantity == quantity
            &&& lot_of(after[seed[0]])->0.date_bought == date
        }),
{
    let after = after_purchase(
        Map::empty(),
        seed[0],
        record_of(bought(name, price, label, quantity, date)),
    );
    assert(after.dom() =~= set![seed[0]]);
}

/// Two purchases whose seeds begin with the same byte go under one id, and
/// the second takes the place of the first: the catalog is as if the first
/// had not been made. Carried out on an empty catalog they leave one entry,
/// the second.
pub proof fn lemma_purchase_overwrites(
    catalog: Map<u8, RecordView>,
    first_seed: Seq<u8>,
    first: RecordView,
    second_seed: Seq<u8>,
    second: RecordView,
)
    requires
        first_seed.len() >= 1,
        second_seed.len() >= 1,
        first_seed[0] == second_seed[0],
    ensures
        ({
            let after = after_purchase(
                after_purchase(catalog, first_seed[0], first),
                second_seed[0],
                second,
            );
            &&& after == after_purchase(catalog, second_seed[0], second)
            &&& after[second_seed[0]] == second
            &&& catalog == Map::<u8, RecordView>::empty() ==> after.len() == 1
        }),
{
    let after = after_purchase(
        after_purchase(catalog, first_seed[0], first),
        second_seed[0],
        second,
    );
    assert(after =~= after_purchase(catalog, second_seed[0], second));
    if catalog == Map::<u8, RecordView>::empty() {
        assert(after.dom() =~= set![second_seed[0]]);
    }
}

/// No purchase removes an entry or changes one under another id.
pub proof fn lemma_purchase_keeps_others(
    catalog: Map<u8, RecordView>,
    id: u8,
    record: RecordView,
    other: u8,
)
    requires
        catalog.contains_key(other),
    ensures
        after_purchase(catalog, id, record).contains_key(other),
        other != id ==> after_purchase(catalog, id, record)[other] == catalog[other],
{
}

/// A sale from the record that a purchase wrote is the sale from the lot
/// bought: it goes through exactly when the deposit covers the price times
/// the widened quantity, for exactly that amount.
pub proof fn lemma_sale_of_purchased_lot(
    name: Seq<char>,
    price: u128,
    label: Seq<char>,
    bought_quantity: i16,
    date: u64,
    quantity: i16,
    deposit: u128,
)
    requires
        total_cost(price, quantity) <= u128::MAX,
    ensures
        ({
            let outcome = sale_of(
                Some(record_of(bought(name, price, label, bought_quantity, date))),
                quantity,
                deposit,
            );
            &&& outcome is Ok <==> deposit >= total_cost(price, quantity)
            &&& outcome is Ok ==> outcome->Ok_0 == total_cost(price, quantity)
            &&& outcome is Err ==> outcome->Err_0 == SellError::InsufficientDeposit
        }),
{
}

} // verus!
