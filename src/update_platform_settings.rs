use vstd::prelude::*;
use crate::errors::ErrorCode;
use crate::pubkey::Pubkey;
use crate::states::ProgramState;
use crate::transfer_nft::{transfer_nft_outcome, TransferNFTCtx};

verus! {

/// Largest fee per transfer that the platform accepts: one coin, in its
/// smallest unit.
pub const MAX_PLATFORM_FEE: u64 = 1_000_000_000;

/// What UpdatePlatformSettings reads and writes: the registry and the caller.
#[derive(Clone, Copy, Debug)]
pub struct UpdatePlatformSettingsCtx {
    pub program_state: ProgramState,
    pub authority: Pubkey,
}

/// The first check that fails for a new fee; `None` when it is taken.
pub open spec fn update_platform_settings_error(ctx: UpdatePlatformSettingsCtx, new_platform_fee: u64) -> Option<ErrorCode> {
    if ctx.authority.bytes@ != ctx.program_state.platform_address.bytes@ {
        Some(ErrorCode::UnauthorizedUpdater)
    } else if new_platform_fee > MAX_PLATFORM_FEE {
        Some(ErrorCode::InvalidPlatformFee)
    } else {
        None
    }
}

/// How a call of UpdatePlatformSettings on `pre` that returned `r` left
/// `post`: on success only the fee changes.
pub open spec fn update_platform_settings_outcome(
    pre: UpdatePlatformSettingsCtx,
    post: UpdatePlatformSettingsCtx,
    new_platform_fee: u64,
    r: Result<(), ErrorCode>,
) -> bool {
    match r {
        Ok(()) => update_platform_settings_error(pre, new_platform_fee) is None
            && post == (UpdatePlatformSettingsCtx {
                program_state: ProgramState { platform_fee: new_platform_fee, ..pre.program_state },
                ..pre
            }),
        Err(e) => update_platform_settings_error(pre, new_platform_fee) == Some(e) && post == pre,
    }
}

/// UpdatePlatformSettings: the platform authority sets the fee per transfer.
pub fn update_platform_settings(ctx: &mut UpdatePlatformSettingsCtx, new_platform_fee: u64) -> (r: Result<(), ErrorCode>)
    ensures
        update_platform_settings_outcome(*old(ctx), *final(ctx), new_platform_fee, r),
{
    if !ctx.authority.same_as(&ctx.program_state.platform_address) {
        return Err(ErrorCode::UnauthorizedUpdater);
    }
    if new_platform_fee > MAX_PLATFORM_FEE {
        return Err(ErrorCode::InvalidPlatformFee);
    }
    ctx.program_state.platform_fee = new_platform_fee;
    Ok(())
}

/// A caller other than the platform authority cannot change the fee; the
/// authority, with a fee in range, sets it, and every later transfer against
/// the updated registry charges and records exactly that fee.
pub proof fn lemma_fee_update(
    pre: UpdatePlatformSettingsCtx,
    post: UpdatePlatformSettingsCtx,
    new_platform_fee: u64,
    r: Result<(), ErrorCode>,
    transfer_pre: TransferNFTCtx,
    transfer_post: TransferNFTCtx,
    certificate_id: u64,
    new_owner: Pubkey,
    unix_timestamp: i64,
)
    requires
        update_platform_settings_outcome(pre, post, new_platform_fee, r),
        transfer_pre.program_state == post.program_state,
        transfer_nft_outcome(transfer_pre, transfer_post, certificate_id, new_owner, unix_timestamp, Ok(())),
    ensures
        pre.authority.bytes@ != pre.program_state.platform_address.bytes@
            ==> r == Err::<(), ErrorCode>(ErrorCode::UnauthorizedUpdater)
            && post.program_state.platform_fee == pre.program_state.platform_fee,
        pre.authority.bytes@ == pre.program_state.platform_address.bytes@ && new_platform_fee <= MAX_PLATFORM_FEE
            ==> r is Ok && post.program_state.platform_fee == new_platform_fee,
        r is Ok ==> transfer_post.transaction.amount == new_platform_fee,
        r is Ok && transfer_pre.owner.bytes@ != transfer_pre.platform_account.bytes@
            ==> transfer_post.owner_lamports == transfer_pre.owner_lamports - new_platform_fee,
{
}

} // verus!
