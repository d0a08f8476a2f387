//! Verified arithmetic, lending-reserve rules and instruction builders of a
//! family of DeFi protocol adapters.
pub mod uint;
pub mod error;
pub mod math;
pub mod rate;
pub mod decimal;
pub mod pubkey;
pub mod last_update;
pub mod reserve;
pub mod lending_obligation;
pub mod pack;
pub mod reserve_layout;
pub mod obligation_layout;
pub mod refresh;
pub mod adapter_common;
pub mod adapter_francium;
pub mod adapter_solend;
pub mod adapter_friktion;
pub mod adapter_larix;
pub mod adapter_genopets_staking;
pub mod adapter_orca;
pub mod adapter_marinade;
pub mod adapter_nft_finance;
pub mod adapter_raydium;
pub mod raydium_price;
pub mod adapter_saber;
pub mod adapter_tulip;
pub mod adapter_lifinity;
pub mod adapter_jupiter;
pub mod adapter_lido;
