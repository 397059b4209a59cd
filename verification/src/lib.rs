//! Core of a dollar-cost-averaging (DCA) order book: the rules that decide
//! whether a new recurring order may be admitted for a user, the per-user
//! allocator that mints its identifier, and the computation of the user's
//! next persisted state. All of it is pure: the surrounding host loads the
//! user's current orders and counter, supplies the deposit evidence, and
//! persists whatever this core hands back — or nothing, on a rejection.

pub mod asset;
pub mod config;
pub mod create;
pub mod deposit;
pub mod errors;
pub mod laws;
pub mod order;

pub use asset::{Asset, AssetDescriptor};
pub use config::UserConfig;
pub use create::{create_dca_order, CreationAck};
pub use deposit::{Coin, DepositProof};
pub use errors::CreateError;
pub use order::{CreateDcaOrder, Order};
