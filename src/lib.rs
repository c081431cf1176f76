//! A guard protocol for token mints: an evaluation context whose account cursor
//! hands out auxiliary accounts to guards in order, and a memo guard that claims
//! the minter's account and records two notes after the mint.
pub mod context;
pub mod guard_type;
pub mod instruction;
pub mod memo;
pub mod pubkey;

pub use context::{EvaluationContext, GuardError, IndexKey};
pub use guard_type::GuardType;
pub use instruction::{AccountMeta, Instruction};
pub use memo::Memo;
pub use pubkey::Pubkey;
