use vstd::prelude::*;
use crate::errors::ErrorCode;
use crate::pubkey::Pubkey;
use crate::states::{ProgramState, DEFAULT_PLATFORM_FEE};

verus! {

/// What Initialize reads and writes: the registry singleton and the caller,
/// who becomes the platform authority.
#[derive(Clone, Copy, Debug)]
pub struct InitializeCtx {
    pub program_state: ProgramState,
    pub owner: Pubkey,
}

/// The registry as Initialize sets it up for `owner`.
pub open spec fn initial_state(owner: Pubkey) -> ProgramState {
    ProgramState {
        initialized: true,
        certificate_count: 0,
        platform_fee: DEFAULT_PLATFORM_FEE,
        platform_address: owner,
    }
}

/// How a call of Initialize on `pre` that returned `r` left `post`.
pub open spec fn initialize_outcome(pre: InitializeCtx, post: InitializeCtx, r: Result<(), ErrorCode>) -> bool {
    match r {
        Ok(()) => !pre.program_state.initialized
            && post == (InitializeCtx { program_state: initial_state(pre.owner), ..pre }),
        Err(e) => pre.program_state.initialized && e == ErrorCode::AlreadyInitialized && post == pre,
    }
}

/// Initialize: sets up the registry once, with no certificates, the default
/// fee and the caller as platform authority.
pub fn initialize(ctx: &mut InitializeCtx) -> (r: Result<(), ErrorCode>)
    ensures
        initialize_outcome(*old(ctx), *final(ctx), r),
{
    if ctx.program_state.initialized {
        return Err(ErrorCode::AlreadyInitialized);
    }
    ctx.program_state.certificate_count = 0;
    ctx.program_state.platform_fee = DEFAULT_PLATFORM_FEE;
    ctx.program_state.platform_address = ctx.owner;
    ctx.program_state.initialized = true;
    Ok(())
}

/// Initializing twice: the first call sets the registry up, the second, by
/// any caller, fails with `AlreadyInitialized` and leaves it as the first
/// call made it.
pub proof fn lemma_initialize_once(
    first_pre: InitializeCtx,
    first_post: InitializeCtx,
    first_r: Result<(), ErrorCode>,
    second_pre: InitializeCtx,
    second_post: InitializeCtx,
    second_r: Result<(), ErrorCode>,
)
    requires
        !first_pre.program_state.initialized,
        initialize_outcome(first_pre, first_post, first_r),
        second_pre.program_state == first_post.program_state,
        initialize_outcome(second_pre, second_post, second_r),
    ensures
        first_r is Ok,
        first_post.program_state == initial_state(first_pre.owner),
        second_r == Err::<(), ErrorCode>(ErrorCode::AlreadyInitialized),
        second_post.program_state == first_post.program_state,
{
}

} // verus!
