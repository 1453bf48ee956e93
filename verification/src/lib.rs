//! A constant-product automated market maker: pool settings, liquidity
//! deposits and withdrawals, swaps and vested liquidity positions.
//!
//! Each instruction is a verified function from the accounts it reads (as
//! plain values) and its arguments to the token movements it asks the token
//! programs for, or to the error with which it refuses. The validation, the
//! initial liquidity, deposit pricing and vesting are stated and proved here;
//! swap and withdrawal pricing come from the constant-product curve, whose
//! answer the functions here take as an argument.
pub mod constants;
pub mod errors;
pub mod pubkey;
pub mod state;
pub mod token;
pub mod instructions;
pub mod program;

pub use constants::{MINIMUM_LIQUIDITY, VIRTUAL_ASSETS, VIRTUAL_SHARES};
pub use errors::AmmError;
pub use pubkey::Pubkey;
pub use state::{Config, Position};
pub use instructions::config_action::ConfigAction;
pub use instructions::deposit::{Deposit, DepositPlan, deposit};
pub use instructions::initialize::{
    Initialize, InitializeBumps, InitializePlan, initialize, integer_sqrt,
};
pub use instructions::liquidity_action::LiquidityAction;
pub use instructions::swap::{LiquidityPair, Swap, SwapAmounts, SwapPlan, swap};
pub use instructions::update_config::{GovernedConfig, UpdateConfig};
pub use instructions::withdraw::{Withdraw, WithdrawPlan, withdraw};
pub use token::{
    AccountRole, BurnPlan, MintState, MintToPlan, TokenAccountState, TokenProgram, TransferPlan,
};
