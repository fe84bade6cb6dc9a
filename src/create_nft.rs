use vstd::prelude::*;
use crate::errors::ErrorCode;
use crate::pubkey::Pubkey;
use crate::states::{
    CertificateNFT, ProgramState, MAX_DESCRIPTION_LEN, MAX_IPFS_URI_LEN, MAX_ISSUER_NAME_LEN,
    MAX_RECIPIENT_NAME_LEN, MAX_TITLE_LEN,
};

verus! {

/// What CreateCertificate reads and writes: the registry, the record being
/// created, and the caller who becomes creator and first owner.
#[derive(Clone, Debug)]
pub struct CreateNFTCtx {
    pub program_state: ProgramState,
    pub cert_nft: CertificateNFT,
    pub creator: Pubkey,
}

/// Whether `s` begins with `prefix`.
pub open spec fn starts_with(s: Seq<char>, prefix: Seq<char>) -> bool {
    prefix.len() <= s.len() && s.subrange(0, prefix.len() as int) == prefix
}

/// The URI scheme of content-addressed metadata.
pub open spec fn ipfs_scheme() -> Seq<char> {
    seq!['i', 'p', 'f', 's', ':', '/', '/']
}

/// The public gateway prefix of content-addressed metadata.
pub open spec fn ipfs_gateway() -> Seq<char> {
    seq![
        'h', 't', 't', 'p', 's', ':', '/', '/', 'i', 'p', 'f', 's', '.', 'i', 'o', '/', 'i', 'p',
        'f', 's', '/',
    ]
}

/// Whether a metadata URI has one of the two accepted prefixes.
pub open spec fn is_ipfs_uri(uri: Seq<char>) -> bool {
    starts_with(uri, ipfs_scheme()) || starts_with(uri, ipfs_gateway())
}

/// Whether a metadata URI is accepted: an accepted prefix, and short enough
/// for the record to hold.
pub open spec fn is_storable_ipfs_uri(uri: Seq<char>) -> bool {
    is_ipfs_uri(uri) && uri.len() <= MAX_IPFS_URI_LEN
}

/// The first check that fails for a new certificate, in the order they are
/// made; `None` when it can be created.
pub open spec fn create_nft_error(
    certificate_count: u64,
    title: Seq<char>,
    description: Seq<char>,
    ipfs_uri: Seq<char>,
    issuer_name: Seq<char>,
    recipient_name: Seq<char>,
) -> Option<ErrorCode> {
    if title.len() > MAX_TITLE_LEN {
        Some(ErrorCode::TitleTooLong)
    } else if description.len() > MAX_DESCRIPTION_LEN {
        Some(ErrorCode::DescTooLong)
    } else if issuer_name.len() > MAX_ISSUER_NAME_LEN {
        Some(ErrorCode::IssuerNameTooLong)
    } else if recipient_name.len() > MAX_RECIPIENT_NAME_LEN {
        Some(ErrorCode::RecipientNameTooLong)
    } else if !is_storable_ipfs_uri(ipfs_uri) {
        Some(ErrorCode::InvalidIpfsUri)
    } else if certificate_count == u64::MAX {
        Some(ErrorCode::NumericalOverflow)
    } else {
        None
    }
}

/// The state after creating a certificate at time `unix_timestamp`: the
/// counter is one higher and the new record carries that value as its id.
pub open spec fn created(
    pre: CreateNFTCtx,
    post: CreateNFTCtx,
    title: String,
    description: String,
    ipfs_uri: String,
    issuer_name: String,
    recipient_name: String,
    unix_timestamp: i64,
) -> bool {
    let id = (pre.program_state.certificate_count + 1) as u64;
    &&& post.program_state == (ProgramState { certificate_count: id, ..pre.program_state })
    &&& post.creator == pre.creator
    &&& post.cert_nft == (CertificateNFT {
        certificate_id: id,
        creator: pre.creator,
        title,
        description,
        ipfs_uri,
        issuer_name,
        recipient_name,
        issue_date: unix_timestamp,
        owner: pre.creator,
        status_verify: false,
        transfer_count: 0,
        is_active: true,
    })
}

/// How a call of CreateCertificate on `pre` that returned `r` left `post`.
pub open spec fn create_nft_outcome(
    pre: CreateNFTCtx,
    post: CreateNFTCtx,
    title: String,
    description: String,
    ipfs_uri: String,
    issuer_name: String,
    recipient_name: String,
    unix_timestamp: i64,
    r: Result<(), ErrorCode>,
) -> bool {
    let err = create_nft_error(
        pre.program_state.certificate_count,
        title@,
        description@,
        ipfs_uri@,
        issuer_name@,
        recipient_name@,
    );
    match r {
        Ok(()) => err is None && created(
            pre,
            post,
            title,
            description,
            ipfs_uri,
            issuer_name,
            recipient_name,
            unix_timestamp,
        ),
        Err(e) => err == Some(e) && post == pre,
    }
}

/// Whether `s` begins with `prefix`, compared character by character.
pub fn has_prefix(s: &str, prefix: &str) -> (r: bool)
    ensures
        r == starts_with(s@, prefix@),
{
    let n = s.unicode_len();
    let m = prefix.unicode_len();
    if m > n {
        return false;
    }
    let mut i: usize = 0;
    while i < m
        invariant
            m == prefix@.len(),
            n == s@.len(),
            m <= n,
            i <= m,
            forall|j: int| 0 <= j < i ==> s@[j] == prefix@[j],
        decreases m - i,
    {
        if s.get_char(i) != prefix.get_char(i) {
            assert(s@.subrange(0, m as int)[i as int] != prefix@[i as int]);
            return false;
        }
        i = i + 1;
    }
    assert(s@.subrange(0, m as int) =~= prefix@);
    true
}

/// Whether a metadata URI starts with `ipfs://` or `https://ipfs.io/ipfs/`.
pub fn is_valid_ipfs_uri(uri: &str) -> (r: bool)
    ensures
        r == is_ipfs_uri(uri@),
{
    proof {
        reveal_strlit("ipfs://");
        reveal_strlit("https://ipfs.io/ipfs/");
    }
    assert("ipfs://"@ =~= ipfs_scheme());
    assert("https://ipfs.io/ipfs/"@ =~= ipfs_gateway());
    has_prefix(uri, "ipfs://") || has_prefix(uri, "https://ipfs.io/ipfs/")
}

/// CreateCertificate: validates the fields, advances the registry's counter
/// and fills the new record, whose id is the advanced counter. On an error
/// nothing changes.
pub fn create_nft(
    ctx: &mut CreateNFTCtx,
    title: String,
    description: String,
    ipfs_uri: String,
    issuer_name: String,
    recipient_name: String,
    unix_timestamp: i64,
) -> (r: Result<(), ErrorCode>)
    ensures
        create_nft_outcome(
            *old(ctx),
            *final(ctx),
            title,
            description,
            ipfs_uri,
            issuer_name,
            recipient_name,
            unix_timestamp,
            r,
        ),
{
    if title.as_str().unicode_len() > MAX_TITLE_LEN {
        return Err(ErrorCode::TitleTooLong);
    }
    if description.as_str().unicode_len() > MAX_DESCRIPTION_LEN {
        return Err(ErrorCode::DescTooLong);
    }
    if issuer_name.as_str().unicode_len() > MAX_ISSUER_NAME_LEN {
        return Err(ErrorCode::IssuerNameTooLong);
    }
    if recipient_name.as_str().unicode_len() > MAX_RECIPIENT_NAME_LEN {
        return Err(ErrorCode::RecipientNameTooLong);
    }
    if !is_valid_ipfs_uri(ipfs_uri.as_str()) || ipfs_uri.as_str().unicode_len() > MAX_IPFS_URI_LEN {
        return Err(ErrorCode::InvalidIpfsUri);
    }
    let certificate_id = match ctx.program_state.certificate_count.checked_add(1) {
        Some(next) => next,
        None => return Err(ErrorCode::NumericalOverflow),
    };
    ctx.program_state.certificate_count = certificate_id;
    let creator = ctx.creator;
    ctx.cert_nft = CertificateNFT {
        certificate_id,
        creator,
        title,
        description,
        ipfs_uri,
        issuer_name,
        recipient_name,
        issue_date: unix_timestamp,
        owner: creator,
        status_verify: false,
        transfer_count: 0,
        is_active: true,
    };
    Ok(())
}

/// Each text field is accepted up to its cap and refused, with its own error,
/// one character beyond it.
pub proof fn lemma_field_caps(
    certificate_count: u64,
    title: Seq<char>,
    description: Seq<char>,
    ipfs_uri: Seq<char>,
    issuer_name: Seq<char>,
    recipient_name: Seq<char>,
)
    ensures
        ({
            &&& title.len() <= MAX_TITLE_LEN
            &&& description.len() <= MAX_DESCRIPTION_LEN
            &&& issuer_name.len() <= MAX_ISSUER_NAME_LEN
            &&& recipient_name.len() <= MAX_RECIPIENT_NAME_LEN
            &&& is_ipfs_uri(ipfs_uri)
            &&& ipfs_uri.len() <= MAX_IPFS_URI_LEN
            &&& certificate_count < u64::MAX
        }) ==> create_nft_error(certificate_count, title, description, ipfs_uri, issuer_name, recipient_name) is None,
        title.len() == MAX_TITLE_LEN + 1
            ==> create_nft_error(certificate_count, title, description, ipfs_uri, issuer_name, recipient_name)
            == Some(ErrorCode::TitleTooLong),
        title.len() <= MAX_TITLE_LEN && description.len() == MAX_DESCRIPTION_LEN + 1
            ==> create_nft_error(certificate_count, title, description, ipfs_uri, issuer_name, recipient_name)
            == Some(ErrorCode::DescTooLong),
        title.len() <= MAX_TITLE_LEN && description.len() <= MAX_DESCRIPTION_LEN
            && issuer_name.len() == MAX_ISSUER_NAME_LEN + 1
            ==> create_nft_error(certificate_count, title, description, ipfs_uri, issuer_name, recipient_name)
            == Some(ErrorCode::IssuerNameTooLong),
        title.len() <= MAX_TITLE_LEN && description.len() <= MAX_DESCRIPTION_LEN
            && issuer_name.len() <= MAX_ISSUER_NAME_LEN && recipient_name.len() == MAX_RECIPIENT_NAME_LEN + 1
            ==> create_nft_error(certificate_count, title, description, ipfs_uri, issuer_name, recipient_name)
            == Some(ErrorCode::RecipientNameTooLong),
        title.len() <= MAX_TITLE_LEN && description.len() <= MAX_DESCRIPTION_LEN
            && issuer_name.len() <= MAX_ISSUER_NAME_LEN && recipient_name.len() <= MAX_RECIPIENT_NAME_LEN
            && ipfs_uri.len() == MAX_IPFS_URI_LEN + 1
            ==> create_nft_error(certificate_count, title, description, ipfs_uri, issuer_name, recipient_name)
            == Some(ErrorCode::InvalidIpfsUri),
{
}

/// A metadata URI without one of the two accepted prefixes is always refused;
/// with either of them, within its cap and with every other field within its
/// cap, it is accepted.
pub proof fn lemma_ipfs_uri_prefixes(
    certificate_count: u64,
    title: Seq<char>,
    description: Seq<char>,
    ipfs_uri: Seq<char>,
    issuer_name: Seq<char>,
    recipient_name: Seq<char>,
    rest: Seq<char>,
)
    ensures
        !is_ipfs_uri(ipfs_uri) ==> create_nft_error(
            certificate_count,
            title,
            description,
            ipfs_uri,
            issuer_name,
            recipient_name,
        ) is Some,
        is_ipfs_uri(ipfs_scheme() + rest),
        is_ipfs_uri(ipfs_gateway() + rest),
        ({
            &&& title.len() <= MAX_TITLE_LEN
            &&& description.len() <= MAX_DESCRIPTION_LEN
            &&& issuer_name.len() <= MAX_ISSUER_NAME_LEN
            &&& recipient_name.len() <= MAX_RECIPIENT_NAME_LEN
        }) ==> {
            &&& !is_ipfs_uri(ipfs_uri) ==> create_nft_error(
                certificate_count,
                title,
                description,
                ipfs_uri,
                issuer_name,
                recipient_name,
            ) == Some(ErrorCode::InvalidIpfsUri)
            &&& certificate_count < u64::MAX && is_ipfs_uri(ipfs_uri) && ipfs_uri.len() <= MAX_IPFS_URI_LEN
                ==> create_nft_error(
                certificate_count,
                title,
                description,
                ipfs_uri,
                issuer_name,
                recipient_name,
            ) is None
        },
{
    assert((ipfs_scheme() + rest).subrange(0, ipfs_scheme().len() as int) =~= ipfs_scheme());
    assert((ipfs_gateway() + rest).subrange(0, ipfs_gateway().len() as int) =~= ipfs_gateway());
}

/// Every call of CreateCertificate advances the counter by one when it
/// succeeds and not at all when it fails, and a new certificate's id is the
/// advanced counter.
pub proof fn lemma_create_advances_counter(
    pre: CreateNFTCtx,
    post: CreateNFTCtx,
    title: String,
    description: String,
    ipfs_uri: String,
    issuer_name: String,
    recipient_name: String,
    unix_timestamp: i64,
    r: Result<(), ErrorCode>,
)
    requires
        create_nft_outcome(
            pre,
            post,
            title,
            description,
            ipfs_uri,
            issuer_name,
            recipient_name,
            unix_timestamp,
            r,
        ),
    ensures
        r is Ok ==> post.program_state.certificate_count == pre.program_state.certificate_count + 1,
        r is Ok ==> post.cert_nft.certificate_id == post.program_state.certificate_count,
        r is Err ==> post.program_state.certificate_count == pre.program_state.certificate_count,
{
}

/// Two successive successful creations get ids that follow each other, and
/// on a fresh registry the first id is 1: ids start at 1, with no gap and no
/// reuse.
pub proof fn lemma_successive_ids(
    first_pre: CreateNFTCtx,
    first_post: CreateNFTCtx,
    second_pre: CreateNFTCtx,
    second_post: CreateNFTCtx,
    title: String,
    description: String,
    ipfs_uri: String,
    issuer_name: String,
    recipient_name: String,
    unix_timestamp: i64,
    next_title: String,
    next_description: String,
    next_ipfs_uri: String,
    next_issuer_name: String,
    next_recipient_name: String,
    next_unix_timestamp: i64,
)
    requires
        create_nft_outcome(
            first_pre,
            first_post,
            title,
            description,
            ipfs_uri,
            issuer_name,
            recipient_name,
            unix_timestamp,
            Ok(()),
        ),
        second_pre.program_state == first_post.program_state,
        create_nft_outcome(
            second_pre,
            second_post,
            next_title,
            next_description,
            next_ipfs_uri,
            next_issuer_name,
            next_recipient_name,
            next_unix_timestamp,
            Ok(()),
        ),
    ensures
        second_post.cert_nft.certificate_id == first_post.cert_nft.certificate_id + 1,
        first_pre.program_state.certificate_count == 0 ==> first_post.cert_nft.certificate_id == 1,
        first_post.cert_nft.certificate_id >= 1,
{
}

} // verus!
