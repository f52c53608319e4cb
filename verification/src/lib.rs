//! Entangles two single-supply assets so that the holder of one can exchange it
//! for the other through a program-owned escrow vault.

pub mod address;
pub mod authority;
pub mod creation;
pub mod error;
pub mod key;
pub mod laws;
pub mod ledger;
pub mod state;
pub mod store;
pub mod swap;
pub mod validation;
pub mod vault;

pub use crate::authority::{update_entangler, UpdateEntangler};
pub use crate::creation::{create_entangler, CreateEntangler};
pub use crate::error::EntanglerError;
pub use crate::state::XNFTentangler;
pub use crate::swap::{swap_xnft, SwapxNFT};
