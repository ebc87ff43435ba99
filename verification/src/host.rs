//! The values of the contract host that the library keeps: byte strings and lists.
//!
//! A host value is immutable: every operation that changes one hands back a new
//! handle, so two handles to the same bytes or the same list never disturb each
//! other. Each call below is metered by the host, which stops the whole invocation
//! when the metering limit is reached.
//!
//! Lists are made and filled by the functions below alone, so that every entry of one
//! has the form that its type says, and no list is longer than a `u32` counts.
use vstd::prelude::*;

verus! {

/// `soroban_sdk::Env`, the handle through which host values are made.
#[verifier::external_type_specification]
#[verifier::external_body]
pub struct ExEnv(soroban_sdk::Env);

/// `soroban_sdk::Bytes`, a string of bytes held by the host.
#[verifier::external_type_specification]
#[verifier::external_body]
pub struct ExBytes(soroban_sdk::Bytes);

/// `soroban_sdk::BytesN`, a string of bytes of a fixed length held by the host.
#[verifier::external_type_specification]
#[verifier::external_body]
pub struct ExBytesN<const N: usize>(soroban_sdk::BytesN<N>);

/// `soroban_sdk::Vec`, a list held by the host.
#[verifier::external_type_specification]
#[verifier::external_body]
#[verifier::reject_recursive_types(T)]
pub struct ExVec<T>(soroban_sdk::Vec<T>);

/// The bytes that a host byte string holds.
pub uninterp spec fn bytes_held(bytes: soroban_sdk::Bytes) -> Seq<u8>;

/// `soroban_sdk::Bytes::len`: the number of bytes held.
#[verifier::external_body]
pub(crate) fn bytes_len(bytes: &soroban_sdk::Bytes) -> (n: u32)
    ensures
        n as nat == bytes_held(*bytes).len(),
{
    bytes.len()
}

/// `soroban_sdk::Bytes::is_empty`: whether no byte is held.
#[verifier::external_body]
pub(crate) fn bytes_is_empty(bytes: &soroban_sdk::Bytes) -> (empty: bool)
    ensures
        empty == (bytes_held(*bytes).len() == 0),
{
    bytes.is_empty()
}

/// `soroban_sdk::Bytes::clone`: a second handle to the same bytes.
#[verifier::external_body]
pub(crate) fn bytes_clone(bytes: &soroban_sdk::Bytes) -> (copy: soroban_sdk::Bytes)
    ensures
        bytes_held(copy) == bytes_held(*bytes),
{
    bytes.clone()
}

/// The entries that a host list of bids holds: the bidder's address text and the
/// proposal hash of each, in order.
pub uninterp spec fn bids_held(
    list: soroban_sdk::Vec<(soroban_sdk::BytesN<56>, soroban_sdk::Bytes)>,
) -> Seq<(Seq<u8>, Seq<u8>)>;

/// `soroban_sdk::Vec::new`: a list of bids that holds nothing.
#[verifier::external_body]
pub(crate) fn bids_new(env: &soroban_sdk::Env) -> (list: soroban_sdk::Vec<
    (soroban_sdk::BytesN<56>, soroban_sdk::Bytes),
>)
    ensures
        bids_held(list) == Seq::<(Seq<u8>, Seq<u8>)>::empty(),
{
    soroban_sdk::Vec::new(env)
}

/// `soroban_sdk::Vec::push_back`: the entry is put behind all others. The address
/// text and the hash are copied into the list's own host first.
#[verifier::external_body]
pub(crate) fn bids_push_back(
    list: &mut soroban_sdk::Vec<(soroban_sdk::BytesN<56>, soroban_sdk::Bytes)>,
    strkey: &[u8; 56],
    hash: &soroban_sdk::Bytes,
)
    requires
        bids_held(*old(list)).len() < u32::MAX,
    ensures
        bids_held(*final(list)) == bids_held(*old(list)).push((strkey@, bytes_held(*hash))),
{
    let env = list.env().clone();
    let key = soroban_sdk::BytesN::from_array(&env, strkey);
    let copy = soroban_sdk::Bytes::from_slice(&env, &hash.to_alloc_vec());
    list.push_back((key, copy));
}

/// `soroban_sdk::Vec::len`: the number of entries held.
#[verifier::external_body]
pub(crate) fn bids_len(
    list: &soroban_sdk::Vec<(soroban_sdk::BytesN<56>, soroban_sdk::Bytes)>,
) -> (n: u32)
    ensures
        n as nat == bids_held(*list).len(),
{
    list.len()
}

/// `soroban_sdk::Vec::get`: the entry at a position, or nothing past the end.
#[verifier::external_body]
pub(crate) fn bids_get(
    list: &soroban_sdk::Vec<(soroban_sdk::BytesN<56>, soroban_sdk::Bytes)>,
    i: u32,
) -> (entry: Option<([u8; 56], soroban_sdk::Bytes)>)
    ensures
        entry is Some <==> i < bids_held(*list).len(),
        entry matches Some((strkey, hash)) ==> (strkey@, bytes_held(hash)) == bids_held(
            *list,
        )[i as int],
{
    match list.get(i) {
        Some((key, hash)) => Some((key.to_array(), hash)),
        None => None,
    }
}

/// `soroban_sdk::Vec::clone`: a second handle to the same entries.
#[verifier::external_body]
pub(crate) fn bids_clone(
    list: &soroban_sdk::Vec<(soroban_sdk::BytesN<56>, soroban_sdk::Bytes)>,
) -> (copy: soroban_sdk::Vec<(soroban_sdk::BytesN<56>, soroban_sdk::Bytes)>)
    ensures
        bids_held(copy) == bids_held(*list),
{
    list.clone()
}

/// The entries that a host list of badge metadata holds: the number of the tier and the
/// URI of each, in order.
pub uninterp spec fn badges_held(
    list: soroban_sdk::Vec<(u32, soroban_sdk::Bytes)>,
) -> Seq<(u32, Seq<u8>)>;

/// `soroban_sdk::Vec::new`: a list of badge metadata that holds nothing.
#[verifier::external_body]
pub(crate) fn badges_new(env: &soroban_sdk::Env) -> (list: soroban_sdk::Vec<
    (u32, soroban_sdk::Bytes),
>)
    ensures
        badges_held(list) == Seq::<(u32, Seq<u8>)>::empty(),
{
    soroban_sdk::Vec::new(env)
}

/// `soroban_sdk::Vec::push_back`: the entry is put behind all others. The URI is copied
/// into the list's own host first.
#[verifier::external_body]
pub(crate) fn badges_push_back(
    list: &mut soroban_sdk::Vec<(u32, soroban_sdk::Bytes)>,
    tier: u32,
    uri: &soroban_sdk::Bytes,
)
    requires
        badges_held(*old(list)).len() < u32::MAX,
    ensures
        badges_held(*final(list)) == badges_held(*old(list)).push((tier, bytes_held(*uri))),
{
    let copy = soroban_sdk::Bytes::from_slice(list.env(), &uri.to_alloc_vec());
    list.push_back((tier, copy));
}

/// `soroban_sdk::Vec::set`: the entry takes the place of the one at a position that the
/// list has. The URI is copied into the list's own host first.
#[verifier::external_body]
pub(crate) fn badges_set(
    list: &mut soroban_sdk::Vec<(u32, soroban_sdk::Bytes)>,
    i: u32,
    tier: u32,
    uri: &soroban_sdk::Bytes,
)
    requires
        i < badges_held(*old(list)).len(),
    ensures
        badges_held(*final(list)) == badges_held(*old(list)).update(
            i as int,
            (tier, bytes_held(*uri)),
        ),
{
    let copy = soroban_sdk::Bytes::from_slice(list.env(), &uri.to_alloc_vec());
    list.set(i, (tier, copy));
}

/// `soroban_sdk::Vec::len`: the number of entries held.
#[verifier::external_body]
pub(crate) fn badges_len(list: &soroban_sdk::Vec<(u32, soroban_sdk::Bytes)>) -> (n: u32)
    ensures
        n as nat == badges_held(*list).len(),
{
    list.len()
}

/// `soroban_sdk::Vec::get`: the entry at a position, or nothing past the end.
#[verifier::external_body]
pub(crate) fn badges_get(
    list: &soroban_sdk::Vec<(u32, soroban_sdk::Bytes)>,
    i: u32,
) -> (entry: Option<(u32, soroban_sdk::Bytes)>)
    ensures
        entry is Some <==> i < badges_held(*list).len(),
        entry matches Some((tier, uri)) ==> (tier, bytes_held(uri)) == badges_held(
            *list,
        )[i as int],
{
    list.get(i)
}

/// `soroban_sdk::Vec::clone`: a second handle to the same entries.
#[verifier::external_body]
pub(crate) fn badges_clone(list: &soroban_sdk::Vec<(u32, soroban_sdk::Bytes)>) -> (copy:
    soroban_sdk::Vec<(u32, soroban_sdk::Bytes)>)
    ensures
        badges_held(copy) == badges_held(*list),
{
    list.clone()
}

} // verus!
