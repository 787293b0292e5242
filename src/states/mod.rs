pub mod bonding_curve;
pub mod program_state;
pub mod token_info;
pub mod transaction;

pub use bonding_curve::BondingCurve;
pub use program_state::ProgramState;
pub use token_info::TokenInfo;
pub use transaction::{Transaction, TransactionType};
