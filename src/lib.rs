//! An ICS20-style token bridge: channel handshake checks, a per-channel
//! balance ledger, voucher denomination parsing, and the packet life cycle
//! (receive, deferred reply, acknowledgement and timeout).

mod assoc;
pub mod allow;
pub mod amount;
pub mod channels;
pub mod contract;
pub mod denom;
pub mod error;
pub mod ledger;
pub mod response;
pub mod text;
pub mod types;

pub use amount::Amount;
pub use contract::Contract;
pub use error::Error;
