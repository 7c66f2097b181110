//! A threshold-signature price oracle core.
//!
//! A registry of authorized signers co-attests price observations. A report
//! is committed to its feed only when enough registered signers
//! cryptographically endorse it: the report fields are canonically encoded
//! (`abi`, `report`), hashed in two stages, each signature recovers a signer
//! address (`crypto`), and the matches against the registry are tallied
//! against the quorum threshold (`update_price`). Registry management
//! (`initialize_oracle`, `add_oracle`, `update_admin`) gates every mutation
//! on the admin's authority. The `sdk`, `client` and `consumer` modules hold
//! the wire formats and read-side decisions of the surrounding programs.

pub mod abi;
pub mod add_oracle;
pub mod bytes;
pub mod client;
pub mod constants;
pub mod consumer;
pub mod crypto;
pub mod errors;
pub mod initialize_oracle;
pub mod oracle_state;
pub mod price_feed;
pub mod report;
pub mod sdk;
pub mod update_admin;
pub mod update_price;

pub use crate::add_oracle::handler as add_oracle;
pub use crate::initialize_oracle::handler as initialize_oracle;
pub use crate::update_admin::handler as update_admin;
pub use crate::update_price::handler as update_price;
