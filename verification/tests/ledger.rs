use near_sdk::collections::UnorderedMap;
use near_sdk::mock::MockAction;
use near_sdk::test_utils::get_created_receipts;
use near_sdk::test_utils::VMContextBuilder;
use near_sdk::AccountId;
use near_sdk::NearToken;
use near_sdk::Promise;
use supermarket::market::CATALOG_PREFIX;
use supermarket::one_near;
use supermarket::record::Record;
use supermarket::Category;
use supermarket::Products;
use supermarket::SellError;
use supermarket::Supermaket;

fn get_context(predecessor: AccountId) -> VMContextBuilder {
    let mut builder = VMContextBuilder::new();
    builder.predecessor_account_id(predecessor);
    builder
}

fn start(builder: &VMContextBuilder) {
    let storage = near_sdk::mock::with_mocked_blockchain(|b| b.take_storage());
    near_sdk::env::set_blockchain_interface(near_sdk::MockedBlockchain::new(
        builder.build(),
        near_sdk::test_vm_config(),
        near_sdk::RuntimeFeesConfig::test(),
        Vec::new(),
        storage,
        Default::default(),
        None,
    ));
}

fn seed_with(first: u8) -> [u8; 32] {
    let mut seed = [0u8; 32];
    seed[0] = first;
    seed[1] = 0xee;
    seed
}

fn account(name: &str) -> AccountId {
    name.parse().unwrap()
}

fn transfers() -> Vec<(AccountId, u128)> {
    let mut found = Vec::new();
    for receipt in get_created_receipts() {
        for action in receipt.actions.iter() {
            if let MockAction::Transfer { deposit, .. } = action {
                found.push((receipt.receiver_id.clone(), deposit.as_yoctonear()));
            }
        }
    }
    found
}

/// The contract as the host runs it: the store, and the two entry points
/// that carry out what the library decides.
struct App {
    products: UnorderedMap<u8, Record>,
}

impl App {
    fn default() -> App {
        App { products: UnorderedMap::new(vec![CATALOG_PREFIX]) }
    }

    fn buy(&mut self, name: String, price: u128, category: String, quantity: i16, date: u64) {
        let purchase = Supermaket::buy(name, price, category, quantity, date);
        self.products.insert(&purchase.id, &purchase.record);
    }

    fn sell(&mut self, product_id: u8, quantity: i16) -> Result<String, SellError> {
        let sold = Supermaket::sell(self.products.get(&product_id), quantity)?;
        Promise::new(sold.recipient).transfer(NearToken::from_yoctonear(sold.amount)).detach();
        Ok(sold.reply)
    }

    fn get(&self, product_id: u8) -> Option<Products> {
        self.products.get(&product_id).and_then(Products::from_record)
    }

    fn ids(&self) -> Vec<u8> {
        self.products.keys().collect()
    }
}

fn tissue(app: &mut App, date: u64) {
    app.buy("tissue".to_string(), one_near(), "toileteries".to_string(), 5, date);
}

#[test]
pub fn buy() {
    let mut app = App::default();
    app.buy(
        "tissue".to_string(),
        one_near(),
        "toileteries".to_string(),
        5,
        near_sdk::env::block_timestamp(),
    );

    assert_eq!(app.products.len(), 1)
}

#[test]
pub fn sell() {
    let user = account("tevin.testnet");
    let mut _context = get_context(user.clone());
    let bal = one_near() * 10;
    _context.attached_deposit(NearToken::from_yoctonear(bal));
    _context.account_balance(NearToken::from_yoctonear(bal));
    start(&_context);

    let mut app = App::default();
    app.buy(
        "tissue".to_string(),
        one_near(),
        "toileteries".to_string(),
        5,
        near_sdk::env::block_timestamp(),
    );
    assert_eq!(app.products.len(), 1);

    let tmp = app.products.keys_as_vector().get(0);

    let result = app.sell(tmp.unwrap(), 1);

    assert_eq!(Ok("ok".to_string()), result)
}

#[test]
fn single_buy_stores_the_lot_as_given() {
    let mut builder = VMContextBuilder::new();
    builder.random_seed(seed_with(0x5a)).block_timestamp(1_700_000_000_000_000_000);
    start(&builder);
    let date = near_sdk::env::block_timestamp();
    assert_eq!(date, 1_700_000_000_000_000_000);

    let mut app = App::default();
    assert_eq!(app.products.len(), 0);
    tissue(&mut app, date);

    assert_eq!(app.products.len(), 1);
    assert_eq!(app.ids(), vec![0x5a]);
    let lot = app.get(0x5a).unwrap();
    assert_eq!(lot.name, "tissue");
    assert_eq!(lot.price, 1_000_000_000_000_000_000_000_000);
    assert_eq!(lot.category, Category::Toiletries);
    assert_eq!(lot.quantity, 5);
    assert_eq!(lot.date_bought, date);
    assert!(app.get(0x5b).is_none());
    assert!(app.get(0xee).is_none());
    assert!(transfers().is_empty());
}

#[test]
fn buy_takes_the_first_byte_of_the_block_seed() {
    let mut builder = VMContextBuilder::new();
    builder.random_seed(seed_with(200));
    start(&builder);
    let first = Supermaket::buy("tissue".to_string(), 1, "snacks".to_string(), 5, 1);
    assert_eq!(first.id, 200);
    assert_eq!(first.record, ("tissue".to_string(), 1, 4, 5, 1));

    builder.random_seed(seed_with(0));
    start(&builder);
    let second = Supermaket::buy("tissue".to_string(), 1, "snacks".to_string(), 5, 2);
    assert_eq!(second.id, 0);
    assert_eq!(second.record, ("tissue".to_string(), 1, 4, 5, 2));
}

#[test]
fn two_buys_under_different_ids_leave_two_lots() {
    let mut builder = VMContextBuilder::new();
    builder.random_seed(seed_with(200));
    start(&builder);
    let mut app = App::default();
    tissue(&mut app, 1);
    builder.random_seed(seed_with(0));
    start(&builder);
    tissue(&mut app, 2);
    let mut ids = app.ids();
    ids.sort();
    assert_eq!(ids, vec![0, 200]);
    assert_eq!(app.products.len(), 2);
    assert_eq!(app.get(200).unwrap().date_bought, 1);
    assert_eq!(app.get(0).unwrap().date_bought, 2);
}

#[test]
fn buy_ignores_an_attached_deposit() {
    let mut builder = VMContextBuilder::new();
    builder.attached_deposit(NearToken::from_yoctonear(77)).random_seed(seed_with(3));
    start(&builder);
    let mut app = App::default();
    tissue(&mut app, 0);
    assert_eq!(app.products.len(), 1);
    assert!(transfers().is_empty());
}

#[test]
fn buy_then_sell_exact() {
    let mut builder = VMContextBuilder::new();
    builder
        .random_seed(seed_with(9))
        .signer_account_id(account("tevin.testnet"))
        .attached_deposit(NearToken::from_yoctonear(10 * one_near()))
        .account_balance(NearToken::from_yoctonear(10 * one_near()));
    start(&builder);
    let mut app = App::default();
    tissue(&mut app, 0);

    let reply = app.sell(9, 1);

    assert_eq!(reply, Ok("ok".to_string()));
    assert_eq!(transfers(), vec![(account("tevin.testnet"), 1_000_000_000_000_000_000_000_000)]);
    assert_eq!(get_created_receipts().len(), 1);
}

#[test]
fn sell_reads_signer_and_deposit_from_the_host() {
    let mut builder = VMContextBuilder::new();
    builder
        .signer_account_id(account("tevin.testnet"))
        .attached_deposit(NearToken::from_yoctonear(1000));
    start(&builder);
    let record = ("rice".to_string(), 250u128, 0u8, 2i16, 10u64);

    let sold = Supermaket::sell(Some(record.clone()), 4).unwrap();
    assert_eq!(sold.recipient, account("tevin.testnet"));
    assert_eq!(sold.amount, 1000);
    assert_eq!(sold.reply, "ok");

    let refused = Supermaket::sell(Some(record.clone()), 5).unwrap_err();
    assert_eq!(refused, SellError::InsufficientDeposit);

    builder.signer_account_id(account("carol.near")).attached_deposit(NearToken::from_yoctonear(1250));
    start(&builder);
    let sold = Supermaket::sell(Some(record), 5).unwrap();
    assert_eq!(sold.recipient, account("carol.near"));
    assert_eq!(sold.amount, 1250);
}

#[test]
fn sell_missing_id() {
    let mut builder = VMContextBuilder::new();
    builder.attached_deposit(NearToken::from_yoctonear(5 * one_near()));
    start(&builder);
    let mut app = App::default();

    let reply = app.sell(0, 1);

    assert_eq!(reply, Err(SellError::ProductNotFound));
    assert_eq!(reply.unwrap_err().message(), "The product id does not exist");
    assert!(get_created_receipts().is_empty());
    assert_eq!(app.products.len(), 0);
}

#[test]
fn sell_underpaid() {
    let mut builder = VMContextBuilder::new();
    builder.random_seed(seed_with(17)).attached_deposit(NearToken::from_yoctonear(one_near()));
    start(&builder);
    let mut app = App::default();
    tissue(&mut app, 0);

    let reply = app.sell(17, 2);

    assert_eq!(reply, Err(SellError::InsufficientDeposit));
    assert_eq!(reply.unwrap_err().message(), "attached deposit not enough");
    assert!(get_created_receipts().is_empty());
    assert_eq!(app.products.len(), 1);
}

#[test]
fn unknown_category_is_stored_as_others() {
    let mut builder = VMContextBuilder::new();
    builder.random_seed(seed_with(1));
    start(&builder);
    let mut app = App::default();

    app.buy("x".to_string(), 1, "beverages".to_string(), 1, 0);

    let lot = app.get(1).unwrap();
    assert_eq!(lot.category, Category::Others);
    assert_eq!(lot.name, "x");
    assert_eq!(lot.price, 1);
    assert_eq!(lot.quantity, 1);
    assert_eq!(lot.date_bought, 0);
}

#[test]
fn excess_deposit_is_not_refunded() {
    let mut builder = VMContextBuilder::new();
    builder
        .random_seed(seed_with(33))
        .signer_account_id(account("tevin.testnet"))
        .attached_deposit(NearToken::from_yoctonear(5 * one_near()));
    start(&builder);
    let mut app = App::default();
    tissue(&mut app, 0);

    let reply = app.sell(33, 1);

    assert_eq!(reply, Ok("ok".to_string()));
    assert_eq!(transfers(), vec![(account("tevin.testnet"), 1_000_000_000_000_000_000_000_000)]);
}

#[test]
fn deposit_of_one_less_than_the_cost_is_refused() {
    let mut builder = VMContextBuilder::new();
    builder
        .random_seed(seed_with(4))
        .signer_account_id(account("tevin.testnet"))
        .attached_deposit(NearToken::from_yoctonear(3 * one_near() - 1));
    start(&builder);
    let mut app = App::default();
    tissue(&mut app, 0);
    assert_eq!(app.sell(4, 3), Err(SellError::InsufficientDeposit));
    assert!(transfers().is_empty());

    builder.attached_deposit(NearToken::from_yoctonear(3 * one_near()));
    start(&builder);
    assert_eq!(app.sell(4, 3), Ok("ok".to_string()));
    assert_eq!(transfers(), vec![(account("tevin.testnet"), 3_000_000_000_000_000_000_000_000)]);
}

#[test]
fn selling_again_from_the_same_lot_succeeds() {
    let mut builder = VMContextBuilder::new();
    builder
        .random_seed(seed_with(8))
        .signer_account_id(account("tevin.testnet"))
        .attached_deposit(NearToken::from_yoctonear(5 * one_near()));
    start(&builder);
    let mut app = App::default();
    tissue(&mut app, 0);

    for _ in 0..3 {
        assert_eq!(app.sell(8, 5), Ok("ok".to_string()));
    }

    let paid = transfers();
    assert_eq!(paid.len(), 3);
    for (to, amount) in paid {
        assert_eq!(to, account("tevin.testnet"));
        assert_eq!(amount, 5_000_000_000_000_000_000_000_000);
    }
    assert_eq!(app.products.len(), 1);
    assert_eq!(app.get(8).unwrap().quantity, 5);
}

#[test]
fn second_buy_under_the_same_id_overwrites() {
    let mut builder = VMContextBuilder::new();
    builder.random_seed(seed_with(42));
    start(&builder);
    let mut app = App::default();
    app.buy("rice".to_string(), 7, "food".to_string(), 2, 10);
    let mut other = seed_with(42);
    other[31] = 1;
    builder.random_seed(other);
    start(&builder);
    app.buy("soap".to_string(), 9, "house_hold".to_string(), 4, 20);

    assert_eq!(app.products.len(), 1);
    assert_eq!(app.ids(), vec![42]);
    let lot = app.get(42).unwrap();
    assert_eq!(lot.name, "soap");
    assert_eq!(lot.price, 9);
    assert_eq!(lot.category, Category::Household);
    assert_eq!(lot.quantity, 4);
    assert_eq!(lot.date_bought, 20);
}

#[test]
fn stored_record_has_the_persisted_layout() {
    let mut app = App::default();
    let purchase =
        Supermaket::buy_with_seed(&[5], "ab".to_string(), 258, "toileteries".to_string(), -2, 3);
    app.products.insert(&purchase.id, &purchase.record);
    let raw = near_sdk::env::storage_read(&[b'p', b'v', 0, 0, 0, 0, 0, 0, 0, 0]).unwrap();
    let mut expected = vec![2, 0, 0, 0, b'a', b'b', 2, 1];
    expected.extend_from_slice(&[0u8; 14]);
    expected.push(7);
    expected.extend_from_slice(&[0xfe, 0xff]);
    expected.extend_from_slice(&[3, 0, 0, 0, 0, 0, 0, 0]);
    assert_eq!(raw, expected);
    assert_eq!(near_sdk::env::storage_read(&[b'p', b'k', 0, 0, 0, 0, 0, 0, 0, 0]), Some(vec![5]));
}
