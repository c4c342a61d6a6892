pub mod constants;
pub mod error;
pub mod pda;
pub mod state;
pub mod ledger;
pub mod instructions;
pub mod laws;
pub mod instruction;
