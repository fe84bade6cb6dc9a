use vstd::prelude::*;
use crate::pubkey::Pubkey;

verus! {

/// The address that the host derives for a tuple of seeds under a program, with
/// the bump byte that made it valid; `None` where no bump gives one.
pub uninterp spec fn program_address(seeds: Seq<Seq<u8>>, program_id: Seq<u8>) -> Option<(Seq<u8>, u8)>;

/// An address lookup's result, with the address as its bytes.
pub open spec fn found_view(r: Option<(Pubkey, u8)>) -> Option<(Seq<u8>, u8)> {
    match r {
        Some((a, bump)) => Some((a.bytes@, bump)),
        None => None,
    }
}

/// Relies on anchor_lang's `Pubkey::try_find_program_address`: it hashes the
/// seeds, a bump byte and the program id, and returns the first off-curve
/// result; the outcome depends on the seeds and the program id alone.
#[verifier::external_body]
fn find_program_address(seeds: &Vec<Vec<u8>>, program_id: &Pubkey) -> (r: Option<(Pubkey, u8)>)
    ensures
        found_view(r) == program_address(seeds.deep_view(), program_id.bytes@),
{
    let refs: Vec<&[u8]> = seeds.iter().map(Vec::as_slice).collect();
    let program = anchor_lang::prelude::Pubkey::new_from_array(program_id.bytes);
    match anchor_lang::prelude::Pubkey::try_find_program_address(&refs, &program) {
        Some((a, bump)) => Some((Pubkey { bytes: a.to_bytes() }, bump)),
        None => None,
    }
}

/// The tag of the registry singleton's address.
pub open spec fn program_state_tag() -> Seq<u8> {
    seq![112u8, 114, 111, 103, 114, 97, 109, 95, 115, 116, 97, 116, 101]
}

/// The tag of a certificate record's address.
pub open spec fn certificate_tag() -> Seq<u8> {
    seq![99u8, 101, 114, 116, 105, 102, 105, 99, 97, 116, 101, 95, 110, 102, 116]
}

/// The tag of a transfer receipt's address.
pub open spec fn transaction_tag() -> Seq<u8> {
    seq![116u8, 114, 97, 110, 115, 97, 99, 116, 105, 111, 110]
}

/// The eight bytes of `x`, least significant first.
pub open spec fn le_bytes(x: u64) -> Seq<u8> {
    seq![
        (x & 0xff) as u8,
        ((x >> 8u64) & 0xff) as u8,
        ((x >> 16u64) & 0xff) as u8,
        ((x >> 24u64) & 0xff) as u8,
        ((x >> 32u64) & 0xff) as u8,
        ((x >> 40u64) & 0xff) as u8,
        ((x >> 48u64) & 0xff) as u8,
        ((x >> 56u64) & 0xff) as u8,
    ]
}

/// Seeds of the registry singleton: its tag alone.
pub open spec fn program_state_seeds_of() -> Seq<Seq<u8>> {
    seq![program_state_tag()]
}

/// Seeds of certificate `id`: its tag and the id's bytes.
pub open spec fn certificate_seeds_of(id: u64) -> Seq<Seq<u8>> {
    seq![certificate_tag(), le_bytes(id)]
}

/// Seeds of a receipt: its tag, the certificate id, the paying owner and the
/// certificate's transfer count before the transfer.
pub open spec fn transaction_seeds_of(id: u64, owner: Seq<u8>, transfer_count: u8) -> Seq<Seq<u8>> {
    seq![transaction_tag(), le_bytes(id), owner, seq![transfer_count]]
}

fn u64_to_le_bytes(x: u64) -> (r: Vec<u8>)
    ensures
        r@ == le_bytes(x),
{
    let r = vec![
        (x & 0xff) as u8,
        ((x >> 8u64) & 0xff) as u8,
        ((x >> 16u64) & 0xff) as u8,
        ((x >> 24u64) & 0xff) as u8,
        ((x >> 32u64) & 0xff) as u8,
        ((x >> 40u64) & 0xff) as u8,
        ((x >> 48u64) & 0xff) as u8,
        ((x >> 56u64) & 0xff) as u8,
    ];
    assert(r@ =~= le_bytes(x));
    r
}

fn pubkey_bytes(key: &Pubkey) -> (r: Vec<u8>)
    ensures
        r@ == key.bytes@,
{
    let mut r: Vec<u8> = Vec::new();
    let mut i: usize = 0;
    while i < 32
        invariant
            i <= 32,
            key.bytes@.len() == 32,
            r@ == key.bytes@.subrange(0, i as int),
        decreases 32 - i,
    {
        r.push(key.bytes[i]);
        i = i + 1;
    }
    assert(r@ =~= key.bytes@);
    r
}

pub fn program_state_seeds() -> (r: Vec<Vec<u8>>)
    ensures
        r.deep_view() == program_state_seeds_of(),
{
    let tag: Vec<u8> = vec![112u8, 114, 111, 103, 114, 97, 109, 95, 115, 116, 97, 116, 101];
    assert(tag@ =~= program_state_tag());
    let r = vec![tag];
    assert(r.deep_view().len() == 1 && r.deep_view()[0] == r@[0]@);
    assert(r.deep_view() =~= program_state_seeds_of());
    r
}

pub fn certificate_seeds(id: u64) -> (r: Vec<Vec<u8>>)
    ensures
        r.deep_view() == certificate_seeds_of(id),
{
    let tag: Vec<u8> = vec![99u8, 101, 114, 116, 105, 102, 105, 99, 97, 116, 101, 95, 110, 102, 116];
    assert(tag@ =~= certificate_tag());
    let id_bytes = u64_to_le_bytes(id);
    let r = vec![tag, id_bytes];
    assert(r.deep_view().len() == 2 && r.deep_view()[0] == r@[0]@ && r.deep_view()[1] == r@[1]@);
    assert(r.deep_view() =~= certificate_seeds_of(id));
    r
}

pub fn transaction_seeds(id: u64, owner: &Pubkey, transfer_count: u8) -> (r: Vec<Vec<u8>>)
    ensures
        r.deep_view() == transaction_seeds_of(id, owner.bytes@, transfer_count),
{
    let tag: Vec<u8> = vec![116u8, 114, 97, 110, 115, 97, 99, 116, 105, 111, 110];
    let owner_bytes = pubkey_bytes(owner);
    assert(tag@ =~= transaction_tag());
    let id_bytes = u64_to_le_bytes(id);
    let count_bytes = vec![transfer_count];
    assert(count_bytes@ =~= seq![transfer_count]);
    let r = vec![tag, id_bytes, owner_bytes, count_bytes];
    assert(r.deep_view().len() == 4 && r.deep_view()[0] == r@[0]@ && r.deep_view()[1] == r@[1]@
        && r.deep_view()[2] == r@[2]@ && r.deep_view()[3] == r@[3]@);
    assert(r.deep_view() =~= transaction_seeds_of(id, owner.bytes@, transfer_count));
    r
}

/// Where the registry singleton lives under `program_id`.
pub fn program_state_address(program_id: &Pubkey) -> (r: Option<(Pubkey, u8)>)
    ensures
        found_view(r) == program_address(program_state_seeds_of(), program_id.bytes@),
{
    find_program_address(&program_state_seeds(), program_id)
}

/// Where certificate `id` lives under `program_id`.
pub fn certificate_address(program_id: &Pubkey, id: u64) -> (r: Option<(Pubkey, u8)>)
    ensures
        found_view(r) == program_address(certificate_seeds_of(id), program_id.bytes@),
{
    find_program_address(&certificate_seeds(id), program_id)
}

/// Where the receipt of a transfer of certificate `id`, paid by `owner` while
/// the certificate's transfer count was `transfer_count`, lives under `program_id`.
pub fn transaction_address(program_id: &Pubkey, id: u64, owner: &Pubkey, transfer_count: u8) -> (r: Option<(Pubkey, u8)>)
    ensures
        found_view(r) == program_address(
            transaction_seeds_of(id, owner.bytes@, transfer_count),
            program_id.bytes@,
        ),
{
    find_program_address(&transaction_seeds(id, owner, transfer_count), program_id)
}

/// Distinct certificate ids give distinct seed tuples, so the addresses they
/// are looked up at never share their seeds.
pub proof fn lemma_certificate_seeds_distinct(a: u64, b: u64)
    requires
        a != b,
    ensures
        certificate_seeds_of(a) != certificate_seeds_of(b),
{
    if certificate_seeds_of(a) == certificate_seeds_of(b) {
        assert(certificate_seeds_of(a)[1] == le_bytes(a));
        assert(certificate_seeds_of(b)[1] == le_bytes(b));
        lemma_le_bytes_injective(a, b);
    }
}

/// Two integers with the same eight bytes are equal.
pub proof fn lemma_le_bytes_injective(a: u64, b: u64)
    requires
        le_bytes(a) == le_bytes(b),
    ensures
        a == b,
{
    assert(le_bytes(a)[0] == le_bytes(b)[0]);
    assert(le_bytes(a)[1] == le_bytes(b)[1]);
    assert(le_bytes(a)[2] == le_bytes(b)[2]);
    assert(le_bytes(a)[3] == le_bytes(b)[3]);
    assert(le_bytes(a)[4] == le_bytes(b)[4]);
    assert(le_bytes(a)[5] == le_bytes(b)[5]);
    assert(le_bytes(a)[6] == le_bytes(b)[6]);
    assert(le_bytes(a)[7] == le_bytes(b)[7]);
    assert(a == b) by (bit_vector)
        requires
            (a & 0xff) as u8 == (b & 0xff) as u8,
            ((a >> 8u64) & 0xff) as u8 == ((b >> 8u64) & 0xff) as u8,
            ((a >> 16u64) & 0xff) as u8 == ((b >> 16u64) & 0xff) as u8,
            ((a >> 24u64) & 0xff) as u8 == ((b >> 24u64) & 0xff) as u8,
            ((a >> 32u64) & 0xff) as u8 == ((b >> 32u64) & 0xff) as u8,
            ((a >> 40u64) & 0xff) as u8 == ((b >> 40u64) & 0xff) as u8,
            ((a >> 48u64) & 0xff) as u8 == ((b >> 48u64) & 0xff) as u8,
            ((a >> 56u64) & 0xff) as u8 == ((b >> 56u64) & 0xff) as u8,
    ;
}

} // verus!
