use vstd::prelude::*;
use crate::errors::ErrorCode;
use crate::pubkey::Pubkey;
use crate::states::{CertificateNFT, ProgramState, Transaction};

verus! {

/// What TransferCertificate reads and writes: the registry, the certificate,
/// the paying owner's and the platform's balances, and the receipt being
/// created. Where `owner` and `platform_account` are the same identity, the two
/// balances are two views of that one account.
#[derive(Clone, Debug)]
pub struct TransferNFTCtx {
    pub program_state: ProgramState,
    pub cert_nft: CertificateNFT,
    /// The caller, who claims to own the certificate.
    pub owner: Pubkey,
    pub owner_lamports: u64,
    /// The account that is to receive the fee.
    pub platform_account: Pubkey,
    pub platform_lamports: u64,
    pub transaction: Transaction,
}

/// The first check on the request that fails, in the order they are made:
/// every check but the one on the certificate's transfer count.
pub open spec fn transfer_request_error(ctx: TransferNFTCtx, certificate_id: u64, new_owner: Pubkey) -> Option<ErrorCode> {
    let fee = ctx.program_state.platform_fee;
    if ctx.cert_nft.certificate_id != certificate_id {
        Some(ErrorCode::InvalidCertificateId)
    } else if ctx.cert_nft.owner.bytes@ != ctx.owner.bytes@ {
        Some(ErrorCode::NotCertificateOwner)
    } else if !ctx.cert_nft.is_active {
        Some(ErrorCode::InactiveCertificate)
    } else if new_owner.bytes@ == ctx.owner.bytes@ {
        Some(ErrorCode::SameOwner)
    } else if ctx.platform_account.bytes@ != ctx.program_state.platform_address.bytes@ {
        Some(ErrorCode::InvalidPlatformAccount)
    } else if fee > 0 && ctx.owner_lamports < fee {
        Some(ErrorCode::InsufficientFunds)
    } else if fee_moves(ctx) && ctx.platform_lamports + fee > u64::MAX {
        Some(ErrorCode::NumericalOverflow)
    } else {
        None
    }
}

/// The first check that fails for a transfer; `None` when it goes through.
pub open spec fn transfer_nft_error(ctx: TransferNFTCtx, certificate_id: u64, new_owner: Pubkey) -> Option<ErrorCode> {
    if transfer_request_error(ctx, certificate_id, new_owner) is Some {
        transfer_request_error(ctx, certificate_id, new_owner)
    } else if ctx.cert_nft.transfer_count == u8::MAX {
        Some(ErrorCode::NumericalOverflow)
    } else {
        None
    }
}

/// Whether the fee changes any balance: it is positive and payer and
/// platform are distinct accounts.
pub open spec fn fee_moves(ctx: TransferNFTCtx) -> bool {
    ctx.program_state.platform_fee > 0 && ctx.owner.bytes@ != ctx.platform_account.bytes@
}

/// The state after a successful transfer of `pre`'s certificate to `new_owner`
/// at time `unix_timestamp`.
pub open spec fn transferred(
    pre: TransferNFTCtx,
    post: TransferNFTCtx,
    certificate_id: u64,
    new_owner: Pubkey,
    unix_timestamp: i64,
) -> bool {
    let fee = pre.program_state.platform_fee;
    &&& post.program_state == pre.program_state
    &&& post.owner == pre.owner
    &&& post.platform_account == pre.platform_account
    &&& post.owner_lamports == (if fee_moves(pre) { (pre.owner_lamports - fee) as u64 } else { pre.owner_lamports })
    &&& post.platform_lamports == (if fee_moves(pre) { (pre.platform_lamports + fee) as u64 } else { pre.platform_lamports })
    &&& post.cert_nft == (CertificateNFT {
        owner: new_owner,
        transfer_count: (pre.cert_nft.transfer_count + 1) as u8,
        ..pre.cert_nft
    })
    &&& post.transaction == (Transaction {
        certificate_id,
        owner: pre.cert_nft.owner,
        amount: fee,
        timestamp: unix_timestamp as u64,
        credited: true,
    })
}

/// How a call of TransferCertificate on `pre` that returned `r` left `post`.
pub open spec fn transfer_nft_outcome(
    pre: TransferNFTCtx,
    post: TransferNFTCtx,
    certificate_id: u64,
    new_owner: Pubkey,
    unix_timestamp: i64,
    r: Result<(), ErrorCode>,
) -> bool {
    match r {
        Ok(()) => transfer_nft_error(pre, certificate_id, new_owner) is None
            && transferred(pre, post, certificate_id, new_owner, unix_timestamp),
        Err(e) => transfer_nft_error(pre, certificate_id, new_owner) == Some(e) && post == pre,
    }
}

/// TransferCertificate: the caller hands certificate `certificate_id` to
/// `new_owner`, paying the platform fee; a receipt records the transfer. All
/// of it happens, or on an error nothing changes.
pub fn transfer_nft(ctx: &mut TransferNFTCtx, certificate_id: u64, new_owner: Pubkey, unix_timestamp: i64) -> (r: Result<(), ErrorCode>)
    ensures
        transfer_nft_outcome(*old(ctx), *final(ctx), certificate_id, new_owner, unix_timestamp, r),
{
    if ctx.cert_nft.certificate_id != certificate_id {
        return Err(ErrorCode::InvalidCertificateId);
    }
    if !ctx.cert_nft.owner.same_as(&ctx.owner) {
        return Err(ErrorCode::NotCertificateOwner);
    }
    if !ctx.cert_nft.is_active {
        return Err(ErrorCode::InactiveCertificate);
    }
    if new_owner.same_as(&ctx.owner) {
        return Err(ErrorCode::SameOwner);
    }
    if !ctx.platform_account.same_as(&ctx.program_state.platform_address) {
        return Err(ErrorCode::InvalidPlatformAccount);
    }
    let fee_amount = ctx.program_state.platform_fee;
    let self_payment = ctx.owner.same_as(&ctx.platform_account);
    if fee_amount > 0 && ctx.owner_lamports < fee_amount {
        return Err(ErrorCode::InsufficientFunds);
    }
    if fee_amount > 0 && !self_payment && ctx.platform_lamports > u64::MAX - fee_amount {
        return Err(ErrorCode::NumericalOverflow);
    }
    if ctx.cert_nft.transfer_count == u8::MAX {
        return Err(ErrorCode::NumericalOverflow);
    }
    if fee_amount > 0 && !self_payment {
        ctx.owner_lamports = ctx.owner_lamports - fee_amount;
        ctx.platform_lamports = ctx.platform_lamports + fee_amount;
    }
    let previous_owner = ctx.cert_nft.owner;
    ctx.cert_nft.owner = new_owner;
    ctx.cert_nft.transfer_count = ctx.cert_nft.transfer_count + 1;
    ctx.transaction = Transaction {
        certificate_id,
        owner: previous_owner,
        amount: fee_amount,
        timestamp: unix_timestamp as u64,
        credited: true,
    };
    Ok(())
}

/// A transfer to the caller itself fails with `SameOwner` once the certificate
/// is found and owned by the caller; no fee moves and the transfer count stays.
pub proof fn lemma_transfer_to_self_rejected(
    pre: TransferNFTCtx,
    post: TransferNFTCtx,
    certificate_id: u64,
    new_owner: Pubkey,
    unix_timestamp: i64,
    r: Result<(), ErrorCode>,
)
    requires
        transfer_nft_outcome(pre, post, certificate_id, new_owner, unix_timestamp, r),
        pre.cert_nft.certificate_id == certificate_id,
        pre.cert_nft.owner.bytes@ == pre.owner.bytes@,
        pre.cert_nft.is_active,
        new_owner.bytes@ == pre.owner.bytes@,
    ensures
        r == Err::<(), ErrorCode>(ErrorCode::SameOwner),
        post.owner_lamports == pre.owner_lamports,
        post.platform_lamports == pre.platform_lamports,
        post.cert_nft.transfer_count == pre.cert_nft.transfer_count,
        post.cert_nft.owner == pre.cert_nft.owner,
{
}

/// A transfer by a caller who does not own the certificate fails with
/// `NotCertificateOwner` and changes nothing at all.
pub proof fn lemma_transfer_by_non_owner_rejected(
    pre: TransferNFTCtx,
    post: TransferNFTCtx,
    certificate_id: u64,
    new_owner: Pubkey,
    unix_timestamp: i64,
    r: Result<(), ErrorCode>,
)
    requires
        transfer_nft_outcome(pre, post, certificate_id, new_owner, unix_timestamp, r),
        pre.cert_nft.certificate_id == certificate_id,
        pre.cert_nft.owner.bytes@ != pre.owner.bytes@,
    ensures
        r == Err::<(), ErrorCode>(ErrorCode::NotCertificateOwner),
        post == pre,
{
}

/// A successful transfer debits the fee from the old owner and credits it to
/// the platform, hands the certificate to the new owner, counts one more
/// transfer, and fills exactly one receipt, credited, for the fee in effect.
pub proof fn lemma_successful_transfer(
    pre: TransferNFTCtx,
    post: TransferNFTCtx,
    certificate_id: u64,
    new_owner: Pubkey,
    unix_timestamp: i64,
)
    requires
        transfer_nft_outcome(pre, post, certificate_id, new_owner, unix_timestamp, Ok(())),
    ensures
        pre.owner.bytes@ != pre.platform_account.bytes@ ==> {
            &&& post.owner_lamports == pre.owner_lamports - pre.program_state.platform_fee
            &&& post.platform_lamports == pre.platform_lamports + pre.program_state.platform_fee
        },
        post.cert_nft.owner == new_owner,
        post.cert_nft.transfer_count == pre.cert_nft.transfer_count + 1,
        post.transaction.credited,
        post.transaction.amount == pre.program_state.platform_fee,
        post.transaction.certificate_id == certificate_id,
        post.transaction.owner == pre.cert_nft.owner,
        post.program_state == pre.program_state,
{
}

/// Once a certificate has been transferred 255 times, every further transfer
/// fails and leaves it as it was; where nothing else is wrong with the request,
/// the error is `NumericalOverflow`.
pub proof fn lemma_transfer_count_saturated(
    pre: TransferNFTCtx,
    post: TransferNFTCtx,
    certificate_id: u64,
    new_owner: Pubkey,
    unix_timestamp: i64,
    r: Result<(), ErrorCode>,
)
    requires
        transfer_nft_outcome(pre, post, certificate_id, new_owner, unix_timestamp, r),
        pre.cert_nft.transfer_count == 255,
    ensures
        r is Err,
        post == pre,
        transfer_request_error(pre, certificate_id, new_owner) is None
            ==> r == Err::<(), ErrorCode>(ErrorCode::NumericalOverflow),
{
}

} // verus!
