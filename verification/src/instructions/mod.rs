pub mod config_action;
pub mod deposit;
pub mod initialize;
pub mod liquidity_action;
pub mod pool_guards;
pub mod swap;
pub mod update_config;
pub mod withdraw;
