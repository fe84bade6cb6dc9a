use vstd::prelude::*;

verus! {

/// Every named condition on which an operation of the registry fails.
#[derive(Clone, Copy, Debug, PartialEq, Eq, Structural)]
pub enum ErrorCode {
    AlreadyInitialized,
    TitleTooLong,
    DescTooLong,
    IssuerNameTooLong,
    RecipientNameTooLong,
    EmptyRequiredField,
    InvalidIpfsUri,
    InvalidCertificateId,
    AlreadyVerified,
    UnauthorizedVerifier,
    UnauthorizedUpdater,
    InactiveCertificate,
    NotCertificateOwner,
    SameOwner,
    CertificateNotVerified,
    InvalidPlatformAccount,
    NumericalOverflow,
    InvalidPlatformFee,
    /// The payer's balance does not cover the platform fee.
    InsufficientFunds,
}

impl ErrorCode {
    /// The human-readable message of each condition.
    pub fn message(&self) -> (r: &'static str) {
        match self {
            ErrorCode::AlreadyInitialized => "The program has already initialized",
            ErrorCode::TitleTooLong => "Maximum character is 64",
            ErrorCode::DescTooLong => "Maximum character is 512",
            ErrorCode::IssuerNameTooLong => "Maximum character is 64",
            ErrorCode::RecipientNameTooLong => "Maximum character is 64",
            ErrorCode::EmptyRequiredField => "Required field cannot be empty",
            ErrorCode::InvalidIpfsUri => "Invalid IPFS URI format",
            ErrorCode::InvalidCertificateId => "Invalid certificate ID",
            ErrorCode::AlreadyVerified => "Certificate already verified",
            ErrorCode::UnauthorizedVerifier => "Unauthorized verifier",
            ErrorCode::UnauthorizedUpdater => "Unauthorized updater",
            ErrorCode::InactiveCertificate => "Certificate is inactive",
            ErrorCode::NotCertificateOwner => "Signer is not the certificate owner",
            ErrorCode::SameOwner => "New owner is the same as current owner",
            ErrorCode::CertificateNotVerified => "Certificate has not been verified",
            ErrorCode::InvalidPlatformAccount => "Invalid platform account",
            ErrorCode::NumericalOverflow => "Numerical overflow occurred",
            ErrorCode::InvalidPlatformFee => "Invalid Platform Fee",
            ErrorCode::InsufficientFunds => "Insufficient funds for the platform fee",
        }
    }
}

} // verus!
