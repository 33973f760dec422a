//! Permission and state-machine core of an access-controlled fungible ledger.
//!
//! One asset, one ledger. Every mutating operation passes a fixed pipeline of
//! guards (authentication, role membership, pause switch, block list) before
//! it touches a balance, and a rejected operation leaves the state as it was.

pub mod address;
pub mod auth;
pub mod blocklist;
pub mod error;
pub mod laws;
pub mod ledger;
pub mod operation;
pub mod pause;
pub mod roles;
pub mod state;
pub mod supply;
pub mod token;

pub use address::Address;
pub use auth::Authentication;
pub use blocklist::BlockList;
pub use error::TokenError;
pub use ledger::Ledger;
pub use operation::{Guards, Operation};
pub use pause::PauseSwitch;
pub use roles::{Role, RoleRegistry};
pub use token::IDRX;
