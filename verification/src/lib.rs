//! Configuration schema builder for an NFT collection wizard.
//!
//! The library turns a sequence of already-solicited operator answers into a
//! validated, strongly-typed configuration: collection metadata, the NFT
//! field/behaviour set, a supply policy, a minting strategy, a royalty policy
//! and a list of marketplace listings.  Soliciting the answers (terminal
//! prompts) is left to an outer driver; everything here is pure logic over
//! plain values, with its behaviour stated in contracts.

pub mod catalogs;
pub mod error;
pub mod validators;
pub mod nft;
pub mod royalties;
pub mod collection;
pub mod listings;
pub mod schema;
