//! A multi-token ledger in the "single contract, many token identifiers"
//! style: one deployable unit tracks balances, spending allowances, and
//! operator permissions for an unbounded set of token identifiers, each
//! identifier behaving as an independently fungible asset.
//!
//! The crate is organised as a core ledger plus optional capabilities
//! layered on top of it:
//!
//! - [`erc6909::Erc6909`] — the core ledger: balances, allowances,
//!   operator flags, and the four mutating operations.
//! - [`token_supply::Erc6909Supply`] — wraps the core ledger and keeps a
//!   per-identifier running total of minted-minus-burned amount.
//! - [`metadata_uri::Erc6909MetadataUri`] — an arbitrary-length byte
//!   string per identifier.
//! - [`enumerable::Erc6909Enumerable`] — an append-only, duplicate-free
//!   list of every identifier ever recorded.
//! - [`composite_token::MyToken`] — the deployable unit: holds one
//!   instance of each component and dispatches every operation, keeping
//!   multi-component operations all-or-nothing.

pub mod address;
pub mod composite_token;
pub mod enumerable;
pub mod erc6909;
pub mod error;
pub mod metadata_uri;
pub mod table;
pub mod token_supply;
pub mod traits;
pub mod u256;

pub use address::Address;
pub use composite_token::MyToken;
pub use enumerable::Erc6909Enumerable;
pub use erc6909::Erc6909;
pub use error::Error;
pub use metadata_uri::Erc6909MetadataUri;
pub use token_supply::Erc6909Supply;
pub use traits::{
    IErc6909, IErc6909Burnable, IErc6909Enumerable, IErc6909MetadataUri, IErc6909Mintable,
    IErc6909Supply,
};
pub use u256::U256;
