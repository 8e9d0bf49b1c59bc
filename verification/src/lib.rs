//! A covered-call option protocol over non-fungible assets.
//!
//! A writer deposits an underlying asset into a custodial vault, mints an
//! option token granting the right to the asset's upside above a strike
//! price, and a permissionless, time-boxed ascending auction determines
//! settlement.  The two verified components are the vault / entitlement
//! engine (`vault`), which custodies assets and grants time-bounded
//! exclusive claims over them, and the auction / settlement engine
//! (`execute`), which runs the option lifecycle: mint, bid, reclaim or
//! settle, burn and claim.
//!
//! The crate models principals as plain address strings, times as `u64`
//! timestamps, and monetary amounts as `u128` values in a single
//! settlement currency.  Persistent chain storage becomes an explicit,
//! verified repository abstraction (`repo`); the surrounding runtime, the
//! token registries and the bank are external collaborators that receive
//! the payments and transfers the verified operations return.  Every
//! operation validates all of its preconditions before writing anything,
//! so a failure returns a structured error and leaves every component
//! unchanged; the global lifecycle laws are stated and proved in `laws`.

pub mod addr;
pub mod denom;
pub mod errors;
pub mod execute;
pub mod laws;
pub mod msg;
pub mod query;
pub mod repo;
pub mod state;
pub mod types;
pub mod vault;
