use vstd::prelude::*;
use crate::errors::ErrorCode;
use crate::pubkey::Pubkey;
use crate::states::{CertificateNFT, ProgramState};

verus! {

/// What VerifyCertificate reads and writes: the registry, the certificate and
/// the caller who vouches for it.
#[derive(Clone, Debug)]
pub struct VerifyNFTCtx {
    pub program_state: ProgramState,
    pub cert_nft: CertificateNFT,
    pub verifier: Pubkey,
}

/// Whether `verifier` may verify `cert`: its creator or the platform authority.
pub open spec fn may_verify(state: ProgramState, cert: CertificateNFT, verifier: Pubkey) -> bool {
    cert.creator.bytes@ == verifier.bytes@ || state.platform_address.bytes@ == verifier.bytes@
}

/// The first check that fails for a verification, in the order they are
/// made; `None` when it goes through.
pub open spec fn verify_nft_error(ctx: VerifyNFTCtx, certificate_id: u64) -> Option<ErrorCode> {
    if ctx.cert_nft.certificate_id != certificate_id {
        Some(ErrorCode::InvalidCertificateId)
    } else if ctx.cert_nft.status_verify {
        Some(ErrorCode::AlreadyVerified)
    } else if !may_verify(ctx.program_state, ctx.cert_nft, ctx.verifier) {
        Some(ErrorCode::UnauthorizedVerifier)
    } else if !ctx.cert_nft.is_active {
        Some(ErrorCode::InactiveCertificate)
    } else {
        None
    }
}

/// How a call of VerifyCertificate on `pre` that returned `r` left `post`:
/// on success only the certificate's verified flag changes, to true.
pub open spec fn verify_nft_outcome(
    pre: VerifyNFTCtx,
    post: VerifyNFTCtx,
    certificate_id: u64,
    r: Result<(), ErrorCode>,
) -> bool {
    match r {
        Ok(()) => verify_nft_error(pre, certificate_id) is None
            && post == (VerifyNFTCtx {
                cert_nft: CertificateNFT { status_verify: true, ..pre.cert_nft },
                ..pre
            }),
        Err(e) => verify_nft_error(pre, certificate_id) == Some(e) && post == pre,
    }
}

/// VerifyCertificate: the creator or the platform authority marks an active,
/// not yet verified certificate as verified.
pub fn verify_nft(ctx: &mut VerifyNFTCtx, certificate_id: u64) -> (r: Result<(), ErrorCode>)
    ensures
        verify_nft_outcome(*old(ctx), *final(ctx), certificate_id, r),
{
    if ctx.cert_nft.certificate_id != certificate_id {
        return Err(ErrorCode::InvalidCertificateId);
    }
    if ctx.cert_nft.status_verify {
        return Err(ErrorCode::AlreadyVerified);
    }
    if !ctx.cert_nft.creator.same_as(&ctx.verifier) {
        if !ctx.program_state.platform_address.same_as(&ctx.verifier) {
            return Err(ErrorCode::UnauthorizedVerifier);
        }
    }
    if !ctx.cert_nft.is_active {
        return Err(ErrorCode::InactiveCertificate);
    }
    ctx.cert_nft.status_verify = true;
    Ok(())
}

/// Verifying a verified certificate fails with `AlreadyVerified`, and the flag
/// stays true; no call of VerifyCertificate ever clears it.
pub proof fn lemma_verified_stays_verified(
    pre: VerifyNFTCtx,
    post: VerifyNFTCtx,
    certificate_id: u64,
    r: Result<(), ErrorCode>,
)
    requires
        verify_nft_outcome(pre, post, certificate_id, r),
    ensures
        pre.cert_nft.status_verify && pre.cert_nft.certificate_id == certificate_id
            ==> r == Err::<(), ErrorCode>(ErrorCode::AlreadyVerified),
        pre.cert_nft.status_verify ==> post.cert_nft.status_verify,
        r is Ok ==> post.cert_nft.status_verify,
{
}

} // verus!
