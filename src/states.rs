use vstd::prelude::*;
use crate::pubkey::Pubkey;

verus! {

/// Largest title, in characters.
pub const MAX_TITLE_LEN: usize = 64;

/// Largest description, in characters.
pub const MAX_DESCRIPTION_LEN: usize = 512;

/// Largest metadata URI, in characters (the stored record's capacity).
pub const MAX_IPFS_URI_LEN: usize = 256;

/// Largest issuer name, in characters.
pub const MAX_ISSUER_NAME_LEN: usize = 64;

/// Largest recipient name, in characters.
pub const MAX_RECIPIENT_NAME_LEN: usize = 64;

/// Fee per transfer that a freshly initialized registry charges.
pub const DEFAULT_PLATFORM_FEE: u64 = 5;

/// The registry singleton: global counter and platform configuration.
#[derive(Clone, Copy, Debug)]
pub struct ProgramState {
    pub initialized: bool,
    pub certificate_count: u64,
    pub platform_fee: u64,
    pub platform_address: Pubkey,
}

impl ProgramState {
    /// The storage of the singleton before Initialize has run: all zero.
    pub fn zeroed() -> (r: ProgramState)
        ensures
            !r.initialized,
            r.certificate_count == 0,
            r.platform_fee == 0,
            r.platform_address.bytes@ == seq![0u8; 32],
    {
        ProgramState {
            initialized: false,
            certificate_count: 0,
            platform_fee: 0,
            platform_address: Pubkey { bytes: [0u8; 32] },
        }
    }
}

/// One minted certificate.
#[derive(Clone, Debug)]
pub struct CertificateNFT {
    pub certificate_id: u64,
    pub creator: Pubkey,
    pub title: String,
    pub description: String,
    pub ipfs_uri: String,
    pub issuer_name: String,
    pub recipient_name: String,
    pub issue_date: i64,
    pub owner: Pubkey,
    pub status_verify: bool,
    pub transfer_count: u8,
    pub is_active: bool,
}

impl CertificateNFT {
    /// The storage of a certificate record before CreateCertificate fills it.
    pub fn zeroed() -> (r: CertificateNFT)
        ensures
            r.certificate_id == 0,
            r.title@.len() == 0,
            r.description@.len() == 0,
            r.ipfs_uri@.len() == 0,
            r.issuer_name@.len() == 0,
            r.recipient_name@.len() == 0,
            r.issue_date == 0,
            r.creator.bytes@ == seq![0u8; 32],
            r.owner.bytes@ == seq![0u8; 32],
            !r.status_verify,
            r.transfer_count == 0,
            !r.is_active,
    {
        CertificateNFT {
            certificate_id: 0,
            creator: Pubkey { bytes: [0u8; 32] },
            title: String::new(),
            description: String::new(),
            ipfs_uri: String::new(),
            issuer_name: String::new(),
            recipient_name: String::new(),
            issue_date: 0,
            owner: Pubkey { bytes: [0u8; 32] },
            status_verify: false,
            transfer_count: 0,
            is_active: false,
        }
    }
}

/// The receipt that a completed transfer leaves behind.
#[derive(Clone, Copy, Debug)]
pub struct Transaction {
    pub certificate_id: u64,
    /// The owner before the transfer, who authorized it and paid the fee.
    pub owner: Pubkey,
    pub amount: u64,
    pub timestamp: u64,
    pub credited: bool,
}

impl Transaction {
    /// The storage of a receipt before TransferCertificate fills it.
    pub fn zeroed() -> (r: Transaction)
        ensures
            r.certificate_id == 0,
            r.owner.bytes@ == seq![0u8; 32],
            r.amount == 0,
            r.timestamp == 0,
            !r.credited,
    {
        Transaction {
            certificate_id: 0,
            owner: Pubkey { bytes: [0u8; 32] },
            amount: 0,
            timestamp: 0,
            credited: false,
        }
    }
}

} // verus!
