//! The rules of an NFT marketplace: listing an NFT into a vault, delisting it,
//! and buying it with a platform fee and reward tokens for both parties.
//!
//! Every instruction is modelled as a plan: the exact cross-program calls it
//! issues, in order, with their accounts, amounts and signer seeds. The plans,
//! the fee arithmetic and the seeds are verified here. The program that runs
//! on chain performs the calls of a plan as [`run::PlanRun`] directs: in order,
//! stopping at the first one that fails.
pub mod accounts;
pub mod cpi;
pub mod events;
pub mod instructions;
pub mod keys;
pub mod laws;
pub mod plan_laws;
pub mod run;
pub mod state;

pub use accounts::{ListingAccount, MarketplaceAccount, MintInfo, TokenAccountInfo};
pub use cpi::{Cpi, CpiModel};
pub use events::{DelistEvent, InitializeEvent, ListEvent, PurchaseEvent};
pub use instructions::delist::Delist;
pub use instructions::list::{collection_is_verified, Collection, List, ListBumps, MetadataInfo};
pub use instructions::purchase::Purchase;
pub use keys::Pubkey;
pub use run::{PlanRun, Step};
pub use state::{Listing, Marketplace};
