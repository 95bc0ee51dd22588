//! Quoting-and-broadcast engine for constant-product AMM trading.
//!
//! The crate has three pillars:
//!
//! * `amm_calc` — the constant-product pricing curve and slippage
//!   adjustment, pure integer arithmetic with exact contracts;
//! * `builder` — assembly of a signed transaction from a payer, an
//!   ordered instruction list, an optional priority fee and an optional
//!   tip payment, with the instruction ordering proved;
//! * `trading_endpoint` — the multi-provider broadcast orchestrator:
//!   one tailored transaction per configured provider, with the
//!   skip/fail tip policies and the batch error aggregation proved.
//!
//! Venue-specific instruction payload layouts live in the `*_types`
//! modules; provider configuration lives in `swqos`.

pub mod amm_calc;

pub mod boopfun_types;

pub mod builder;

pub mod meteora_dbc_types;

pub mod moonit_types;

pub mod quoting;

pub mod raydium_bonk_types;

pub mod solana_api;

pub mod swqos;

pub mod trading_endpoint;

pub mod types;
