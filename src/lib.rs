//! A registry of certificates: a platform singleton, certificate records with
//! their verification and ownership lifecycle, transfer receipts, and the
//! deterministic addresses at which each record is stored.

pub mod address;
pub mod create_nft;
pub mod errors;
pub mod initialize;
pub mod pubkey;
pub mod states;
pub mod transfer_nft;
pub mod update_platform_settings;
pub mod verify_nft;
