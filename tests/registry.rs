use cernft::create_nft::{create_nft, has_prefix, is_valid_ipfs_uri, CreateNFTCtx};
use cernft::errors::ErrorCode;
use cernft::initialize::{initialize, InitializeCtx};
use cernft::pubkey::Pubkey;
use cernft::states::{CertificateNFT, ProgramState, Transaction};
use cernft::transfer_nft::{transfer_nft, TransferNFTCtx};
use cernft::update_platform_settings::{update_platform_settings, UpdatePlatformSettingsCtx, MAX_PLATFORM_FEE};
use cernft::verify_nft::{verify_nft, VerifyNFTCtx};

fn key(b: u8) -> Pubkey {
    Pubkey::new_from_array([b; 32])
}

fn initialized(authority: Pubkey) -> ProgramState {
    let mut ctx = InitializeCtx { program_state: ProgramState::zeroed(), owner: authority };
    initialize(&mut ctx).unwrap();
    ctx.program_state
}

fn create(
    state: ProgramState,
    creator: Pubkey,
    title: &str,
    description: &str,
    uri: &str,
    issuer: &str,
    recipient: &str,
) -> (CreateNFTCtx, Result<(), ErrorCode>) {
    let mut ctx = CreateNFTCtx { program_state: state, cert_nft: CertificateNFT::zeroed(), creator };
    let r = create_nft(
        &mut ctx,
        title.to_string(),
        description.to_string(),
        uri.to_string(),
        issuer.to_string(),
        recipient.to_string(),
        1_700_000_000,
    );
    (ctx, r)
}

fn simple_cert(state: ProgramState, creator: Pubkey) -> (ProgramState, CertificateNFT) {
    let (ctx, r) = create(state, creator, "Course", "Completed", "ipfs://abc", "Uni", "Ann");
    r.unwrap();
    (ctx.program_state, ctx.cert_nft)
}

fn transfer_ctx(state: ProgramState, cert: CertificateNFT, owner: Pubkey, platform: Pubkey) -> TransferNFTCtx {
    TransferNFTCtx {
        program_state: state,
        cert_nft: cert,
        owner,
        owner_lamports: 1_000,
        platform_account: platform,
        platform_lamports: 10,
        transaction: Transaction::zeroed(),
    }
}

fn same_cert(a: &CertificateNFT, b: &CertificateNFT) -> bool {
    a.certificate_id == b.certificate_id
        && a.creator == b.creator
        && a.title == b.title
        && a.description == b.description
        && a.ipfs_uri == b.ipfs_uri
        && a.issuer_name == b.issuer_name
        && a.recipient_name == b.recipient_name
        && a.issue_date == b.issue_date
        && a.owner == b.owner
        && a.status_verify == b.status_verify
        && a.transfer_count == b.transfer_count
        && a.is_active == b.is_active
}

#[test]
fn initialize_sets_defaults() {
    let state = initialized(key(9));
    assert!(state.initialized);
    assert_eq!(state.certificate_count, 0);
    assert_eq!(state.platform_fee, 5);
    assert!(state.platform_address == key(9));
}

#[test]
fn initialize_twice_fails() {
    let mut ctx = InitializeCtx { program_state: ProgramState::zeroed(), owner: key(9) };
    assert_eq!(initialize(&mut ctx), Ok(()));
    let after_first = ctx.program_state;
    ctx.owner = key(3);
    assert_eq!(initialize(&mut ctx), Err(ErrorCode::AlreadyInitialized));
    assert!(ctx.program_state.platform_address == after_first.platform_address);
    assert_eq!(ctx.program_state.platform_fee, after_first.platform_fee);
    assert_eq!(ctx.program_state.certificate_count, after_first.certificate_count);
    assert!(ctx.program_state.initialized);
}

#[test]
fn field_caps_accept_at_cap() {
    let state = initialized(key(9));
    let (ctx, r) = create(state, key(1), &"t".repeat(64), &"d".repeat(512), "ipfs://x", &"i".repeat(64), &"r".repeat(64));
    assert_eq!(r, Ok(()));
    assert_eq!(ctx.cert_nft.title.len(), 64);
}

#[test]
fn title_one_over_cap_rejected() {
    let state = initialized(key(9));
    let (ctx, r) = create(state, key(1), &"t".repeat(65), "d", "ipfs://x", "i", "r");
    assert_eq!(r, Err(ErrorCode::TitleTooLong));
    assert_eq!(ctx.program_state.certificate_count, 0);
}

#[test]
fn description_one_over_cap_rejected() {
    let state = initialized(key(9));
    let (_, r) = create(state, key(1), "t", &"d".repeat(513), "ipfs://x", "i", "r");
    assert_eq!(r, Err(ErrorCode::DescTooLong));
}

#[test]
fn issuer_one_over_cap_rejected() {
    let state = initialized(key(9));
    let (_, r) = create(state, key(1), "t", "d", "ipfs://x", &"i".repeat(65), "r");
    assert_eq!(r, Err(ErrorCode::IssuerNameTooLong));
}

#[test]
fn recipient_one_over_cap_rejected() {
    let state = initialized(key(9));
    let (_, r) = create(state, key(1), "t", "d", "ipfs://x", "i", &"r".repeat(65));
    assert_eq!(r, Err(ErrorCode::RecipientNameTooLong));
}

#[test]
fn caps_count_characters() {
    let state = initialized(key(9));
    let (_, r) = create(state, key(1), &"é".repeat(64), "d", "ipfs://x", "i", "r");
    assert_eq!(r, Ok(()));
}

#[test]
fn title_checked_before_description() {
    let state = initialized(key(9));
    let (_, r) = create(state, key(1), &"t".repeat(65), &"d".repeat(513), "http://x", "i", "r");
    assert_eq!(r, Err(ErrorCode::TitleTooLong));
}

#[test]
fn ipfs_uri_prefixes() {
    assert!(is_valid_ipfs_uri("ipfs://QmHash"));
    assert!(is_valid_ipfs_uri("https://ipfs.io/ipfs/QmHash"));
    assert!(is_valid_ipfs_uri("ipfs://"));
    assert!(!is_valid_ipfs_uri("ipfs:/QmHash"));
    assert!(!is_valid_ipfs_uri("https://ipfs.io/QmHash"));
    assert!(!is_valid_ipfs_uri("http://ipfs.io/ipfs/QmHash"));
    assert!(!is_valid_ipfs_uri(""));
    assert!(!is_valid_ipfs_uri("IPFS://QmHash"));
    assert!(has_prefix("abc", ""));
    assert!(!has_prefix("ab", "abc"));
}

#[test]
fn invalid_ipfs_uri_rejected() {
    let state = initialized(key(9));
    let (ctx, r) = create(state, key(1), "t", "d", "https://example.com/x", "i", "r");
    assert_eq!(r, Err(ErrorCode::InvalidIpfsUri));
    assert_eq!(ctx.program_state.certificate_count, 0);
    let (_, r) = create(state, key(1), "t", "d", "https://ipfs.io/ipfs/abc", "i", "r");
    assert_eq!(r, Ok(()));
}

#[test]
fn create_fills_record() {
    let state = initialized(key(9));
    let (ctx, r) = create(state, key(1), "Title", "Desc", "ipfs://cid", "Issuer", "Recipient");
    assert_eq!(r, Ok(()));
    let c = &ctx.cert_nft;
    assert_eq!(c.certificate_id, 1);
    assert!(c.creator == key(1));
    assert!(c.owner == key(1));
    assert_eq!(c.title, "Title");
    assert_eq!(c.description, "Desc");
    assert_eq!(c.ipfs_uri, "ipfs://cid");
    assert_eq!(c.issuer_name, "Issuer");
    assert_eq!(c.recipient_name, "Recipient");
    assert_eq!(c.issue_date, 1_700_000_000);
    assert!(!c.status_verify);
    assert_eq!(c.transfer_count, 0);
    assert!(c.is_active);
    assert_eq!(ctx.program_state.certificate_count, 1);
}

#[test]
fn successive_ids_increase_by_one() {
    let mut state = initialized(key(9));
    for expected in 1..=5u64 {
        let (s, c) = simple_cert(state, key(1));
        assert_eq!(c.certificate_id, expected);
        assert_eq!(s.certificate_count, expected);
        state = s;
    }
    let (ctx, r) = create(state, key(1), "t", "d", "bad", "i", "r");
    assert!(r.is_err());
    let (_, c) = simple_cert(ctx.program_state, key(1));
    assert_eq!(c.certificate_id, 6);
}

#[test]
fn counter_overflow_rejected() {
    let mut state = initialized(key(9));
    state.certificate_count = u64::MAX;
    let (ctx, r) = create(state, key(1), "t", "d", "ipfs://x", "i", "r");
    assert_eq!(r, Err(ErrorCode::NumericalOverflow));
    assert_eq!(ctx.program_state.certificate_count, u64::MAX);
}

#[test]
fn verify_by_creator_and_authority() {
    let state = initialized(key(9));
    let (state, cert) = simple_cert(state, key(1));
    let mut ctx = VerifyNFTCtx { program_state: state, cert_nft: cert.clone(), verifier: key(1) };
    assert_eq!(verify_nft(&mut ctx, 1), Ok(()));
    assert!(ctx.cert_nft.status_verify);
    let mut ctx = VerifyNFTCtx { program_state: state, cert_nft: cert, verifier: key(9) };
    assert_eq!(verify_nft(&mut ctx, 1), Ok(()));
    assert!(ctx.cert_nft.status_verify);
}

#[test]
fn verify_twice_fails() {
    let state = initialized(key(9));
    let (state, cert) = simple_cert(state, key(1));
    let mut ctx = VerifyNFTCtx { program_state: state, cert_nft: cert, verifier: key(1) };
    assert_eq!(verify_nft(&mut ctx, 1), Ok(()));
    assert_eq!(verify_nft(&mut ctx, 1), Err(ErrorCode::AlreadyVerified));
    assert!(ctx.cert_nft.status_verify);
}

#[test]
fn verify_errors() {
    let state = initialized(key(9));
    let (state, cert) = simple_cert(state, key(1));
    let mut ctx = VerifyNFTCtx { program_state: state, cert_nft: cert.clone(), verifier: key(1) };
    assert_eq!(verify_nft(&mut ctx, 2), Err(ErrorCode::InvalidCertificateId));
    let mut ctx = VerifyNFTCtx { program_state: state, cert_nft: cert.clone(), verifier: key(4) };
    assert_eq!(verify_nft(&mut ctx, 1), Err(ErrorCode::UnauthorizedVerifier));
    assert!(!ctx.cert_nft.status_verify);
    let mut inactive = cert;
    inactive.is_active = false;
    let mut ctx = VerifyNFTCtx { program_state: state, cert_nft: inactive, verifier: key(1) };
    assert_eq!(verify_nft(&mut ctx, 1), Err(ErrorCode::InactiveCertificate));
}

#[test]
fn successful_transfer_moves_fee_and_ownership() {
    let state = initialized(key(9));
    let (state, cert) = simple_cert(state, key(1));
    let mut ctx = transfer_ctx(state, cert, key(1), key(9));
    assert_eq!(transfer_nft(&mut ctx, 1, key(2), 1_700_000_100), Ok(()));
    assert_eq!(ctx.owner_lamports, 995);
    assert_eq!(ctx.platform_lamports, 15);
    assert!(ctx.cert_nft.owner == key(2));
    assert!(ctx.cert_nft.creator == key(1));
    assert_eq!(ctx.cert_nft.transfer_count, 1);
    assert_eq!(ctx.transaction.certificate_id, 1);
    assert!(ctx.transaction.owner == key(1));
    assert_eq!(ctx.transaction.amount, 5);
    assert_eq!(ctx.transaction.timestamp, 1_700_000_100);
    assert!(ctx.transaction.credited);
}

#[test]
fn unverified_certificate_can_be_transferred() {
    let state = initialized(key(9));
    let (state, cert) = simple_cert(state, key(1));
    assert!(!cert.status_verify);
    let mut ctx = transfer_ctx(state, cert, key(1), key(9));
    assert_eq!(transfer_nft(&mut ctx, 1, key(2), 0), Ok(()));
}

#[test]
fn transfer_to_self_rejected() {
    let state = initialized(key(9));
    let (state, cert) = simple_cert(state, key(1));
    let mut ctx = transfer_ctx(state, cert, key(1), key(9));
    assert_eq!(transfer_nft(&mut ctx, 1, key(1), 0), Err(ErrorCode::SameOwner));
    assert_eq!(ctx.owner_lamports, 1_000);
    assert_eq!(ctx.platform_lamports, 10);
    assert_eq!(ctx.cert_nft.transfer_count, 0);
    assert!(!ctx.transaction.credited);
}

#[test]
fn transfer_by_non_owner_changes_nothing() {
    let state = initialized(key(9));
    let (state, cert) = simple_cert(state, key(1));
    let mut ctx = transfer_ctx(state, cert.clone(), key(3), key(9));
    assert_eq!(transfer_nft(&mut ctx, 1, key(2), 0), Err(ErrorCode::NotCertificateOwner));
    assert!(same_cert(&ctx.cert_nft, &cert));
    assert_eq!(ctx.owner_lamports, 1_000);
    assert_eq!(ctx.platform_lamports, 10);
    assert_eq!(ctx.program_state.platform_fee, 5);
    assert_eq!(ctx.program_state.certificate_count, 1);
    assert!(!ctx.transaction.credited);
    assert_eq!(ctx.transaction.amount, 0);
}

#[test]
fn transfer_other_errors() {
    let state = initialized(key(9));
    let (state, cert) = simple_cert(state, key(1));
    let mut ctx = transfer_ctx(state, cert.clone(), key(1), key(9));
    assert_eq!(transfer_nft(&mut ctx, 7, key(2), 0), Err(ErrorCode::InvalidCertificateId));
    let mut ctx = transfer_ctx(state, cert.clone(), key(1), key(8));
    assert_eq!(transfer_nft(&mut ctx, 1, key(2), 0), Err(ErrorCode::InvalidPlatformAccount));
    let mut ctx = transfer_ctx(state, cert.clone(), key(1), key(9));
    ctx.owner_lamports = 4;
    assert_eq!(transfer_nft(&mut ctx, 1, key(2), 0), Err(ErrorCode::InsufficientFunds));
    assert!(ctx.cert_nft.owner == key(1));
    let mut ctx = transfer_ctx(state, cert.clone(), key(1), key(9));
    ctx.platform_lamports = u64::MAX - 2;
    assert_eq!(transfer_nft(&mut ctx, 1, key(2), 0), Err(ErrorCode::NumericalOverflow));
    let mut inactive = cert;
    inactive.is_active = false;
    let mut ctx = transfer_ctx(state, inactive, key(1), key(9));
    assert_eq!(transfer_nft(&mut ctx, 1, key(2), 0), Err(ErrorCode::InactiveCertificate));
}

#[test]
fn transfer_by_platform_authority_keeps_balance() {
    let state = initialized(key(9));
    let (state, cert) = simple_cert(state, key(9));
    let mut ctx = transfer_ctx(state, cert, key(9), key(9));
    ctx.platform_lamports = 1_000;
    assert_eq!(transfer_nft(&mut ctx, 1, key(2), 0), Ok(()));
    assert_eq!(ctx.owner_lamports, 1_000);
    assert_eq!(ctx.platform_lamports, 1_000);
    assert_eq!(ctx.transaction.amount, 5);
}

#[test]
fn zero_fee_transfer_moves_nothing() {
    let mut state = initialized(key(9));
    state.platform_fee = 0;
    let (state, cert) = simple_cert(state, key(1));
    let mut ctx = transfer_ctx(state, cert, key(1), key(9));
    ctx.owner_lamports = 0;
    assert_eq!(transfer_nft(&mut ctx, 1, key(2), 0), Ok(()));
    assert_eq!(ctx.owner_lamports, 0);
    assert_eq!(ctx.platform_lamports, 10);
    assert_eq!(ctx.transaction.amount, 0);
}

#[test]
fn transfer_count_overflows_after_255() {
    let state = initialized(key(9));
    let (state, mut cert) = simple_cert(state, key(1));
    let mut holder = key(1);
    for n in 0..255u32 {
        let next = if n % 2 == 0 { key(2) } else { key(1) };
        let mut ctx = transfer_ctx(state, cert, holder, key(9));
        assert_eq!(transfer_nft(&mut ctx, 1, next, 0), Ok(()));
        cert = ctx.cert_nft;
        holder = next;
    }
    assert_eq!(cert.transfer_count, 255);
    let other = if holder == key(1) { key(2) } else { key(1) };
    let mut ctx = transfer_ctx(state, cert.clone(), holder, key(9));
    assert_eq!(transfer_nft(&mut ctx, 1, other, 0), Err(ErrorCode::NumericalOverflow));
    assert!(ctx.cert_nft.owner == holder);
    assert_eq!(ctx.cert_nft.transfer_count, 255);
    assert_eq!(ctx.owner_lamports, 1_000);
    assert_eq!(ctx.platform_lamports, 10);
}

#[test]
fn update_fee_by_non_authority_rejected() {
    let state = initialized(key(9));
    let mut ctx = UpdatePlatformSettingsCtx { program_state: state, authority: key(1) };
    assert_eq!(update_platform_settings(&mut ctx, 50), Err(ErrorCode::UnauthorizedUpdater));
    assert_eq!(ctx.program_state.platform_fee, 5);
}

#[test]
fn update_fee_out_of_range_rejected() {
    let state = initialized(key(9));
    let mut ctx = UpdatePlatformSettingsCtx { program_state: state, authority: key(9) };
    assert_eq!(update_platform_settings(&mut ctx, MAX_PLATFORM_FEE + 1), Err(ErrorCode::InvalidPlatformFee));
    assert_eq!(ctx.program_state.platform_fee, 5);
    assert_eq!(update_platform_settings(&mut ctx, MAX_PLATFORM_FEE), Ok(()));
    assert_eq!(ctx.program_state.platform_fee, MAX_PLATFORM_FEE);
}

#[test]
fn updated_fee_applies_to_later_transfers() {
    let state = initialized(key(9));
    let mut ctx = UpdatePlatformSettingsCtx { program_state: state, authority: key(9) };
    assert_eq!(update_platform_settings(&mut ctx, 50), Ok(()));
    assert_eq!(ctx.program_state.platform_fee, 50);
    assert_eq!(ctx.program_state.certificate_count, 0);
    let (state, cert) = simple_cert(ctx.program_state, key(1));
    let mut t = transfer_ctx(state, cert, key(1), key(9));
    assert_eq!(transfer_nft(&mut t, 1, key(2), 0), Ok(()));
    assert_eq!(t.owner_lamports, 950);
    assert_eq!(t.platform_lamports, 60);
    assert_eq!(t.transaction.amount, 50);
}

#[test]
fn error_messages() {
    assert_eq!(ErrorCode::AlreadyInitialized.message(), "The program has already initialized");
    assert_eq!(ErrorCode::SameOwner.message(), "New owner is the same as current owner");
    assert_eq!(ErrorCode::NumericalOverflow.message(), "Numerical overflow occurred");
}

#[test]
fn ipfs_uri_cap() {
    let state = initialized(key(9));
    let at_cap = format!("ipfs://{}", "a".repeat(249));
    assert_eq!(at_cap.len(), 256);
    let (_, r) = create(state, key(1), "t", "d", &at_cap, "i", "r");
    assert_eq!(r, Ok(()));
    let over = format!("ipfs://{}", "a".repeat(250));
    let (ctx, r) = create(state, key(1), "t", "d", &over, "i", "r");
    assert_eq!(r, Err(ErrorCode::InvalidIpfsUri));
    assert_eq!(ctx.program_state.certificate_count, 0);
}
