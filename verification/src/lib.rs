//! A supermarket ledger that runs as a contract on a NEAR host: lots that were
//! bought are kept in a persistent catalog under one-byte ids, and a sale pays
//! the price of a lot out to the signer of the call.
//!
//! - `category`: the nine categories and the labels that name them.
//! - `record`: the tuple that the store keeps of a lot.
//! - `product`: a lot, the record written for a purchase, and the lot read
//!   from a record.
//! - `sale`: what a sale costs and when it is refused.
//! - `market`: `buy` and `sell`, and what becomes of the catalog.
//! - `host`: the calls into `near_sdk`, whose contracts are believed and not
//!   proved; everything else is proved against them.
//!
//! The catalog lies in the host's storage, and value moves by the host's
//! transfers: reading, writing and paying are the contract's part. The
//! library decides what is written and what is paid.

pub mod category;
pub mod host;
pub mod market;
pub mod product;
pub mod record;
pub mod sale;

pub use crate::category::get_category;
pub use crate::category::Category;
pub use crate::market::Purchase;
pub use crate::market::Sold;
pub use crate::market::Supermaket;
pub use crate::product::one_near;
pub use crate::product::Products;
pub use crate::sale::settle;
pub use crate::sale::widen_quantity;
pub use crate::sale::SellError;
