//! A ledger of unique creatures ("kitties"): minting, breeding, transfer and
//! sale, each guarded by a stake reserved from the actor's balance.

pub mod genome;
pub mod host;
pub mod laws;
pub mod memory;
pub mod pallet;
pub mod state;

pub use genome::Kitty;
pub use host::{AccountId, Balance, Config, InsufficientBalance, KittyIndex};
pub use memory::MemoryHost;
pub use pallet::Pallet;
pub use state::{Error, Event};
