//! Accounts derived from a pallet identifier, as the runtime's `AccountIdConversion` computes them:
//! the bytes `"modl" ++ pallet_id ++ encoded sub-seed`, zero-padded (or truncated) to 32 bytes.
use vstd::prelude::*;
use vstd::array::{spec_array_fill_for_copy_type, spec_array_update};
use frame_support::sp_runtime::traits::AccountIdConversion;
use frame_support::sp_runtime::AccountId32;
use frame_support::PalletId;
use crate::support::AccountId;

verus! {

/// `b"modl"`: the type identifier of a pallet identifier.
pub open spec fn modl() -> Seq<u8> {
    seq![109u8, 111u8, 100u8, 108u8]
}

/// The SCALE encoding of a `u32`: its four bytes, least significant first.
pub open spec fn u32_le(x: u32) -> Seq<u8> {
    seq![
        (x & 0xff) as u8,
        ((x >> 8u32) & 0xff) as u8,
        ((x >> 16u32) & 0xff) as u8,
        ((x >> 24u32) & 0xff) as u8,
    ]
}

/// A string of fewer than 64 ASCII characters, whose SCALE encoding is one length byte followed
/// by one byte per character.
pub open spec fn short_ascii(s: Seq<char>) -> bool {
    s.len() < 64 && forall|i: int| 0 <= i < s.len() ==> (s[i] as u32) < 128
}

/// The SCALE encoding of the sub-seed `(prefix, index)` for a short ASCII `prefix`: the compact
/// length (`len * 4`), the characters' bytes, and the index.
pub open spec fn sub_seed(prefix: Seq<char>, index: u32) -> Seq<u8> {
    seq![(prefix.len() * 4) as u8] + prefix.map_values(|c: char| c as u8) + u32_le(index)
}

/// The 32 bytes of an account decoded from `seed` followed by zeros: the seed's first 32 bytes,
/// zero-padded when it is shorter.
pub open spec fn account_bytes(seed: Seq<u8>) -> Seq<u8> {
    if seed.len() >= 32 {
        seed.take(32)
    } else {
        seed + Seq::new((32 - seed.len()) as nat, |i: int| 0u8)
    }
}

/// The first `n` bytes of `bytes` in an account whose other bytes are zero.
pub open spec fn account_prefix(bytes: Seq<u8>, n: nat) -> AccountId
    decreases n,
{
    if n == 0 {
        spec_array_fill_for_copy_type::<u8, 32>(0u8)
    } else {
        spec_array_update(account_prefix(bytes, (n - 1) as nat), n - 1, bytes[n - 1])
    }
}

/// The account whose 32 bytes are `bytes`.
pub open spec fn account_of(bytes: Seq<u8>) -> AccountId {
    account_prefix(bytes, 32)
}

/// An account is its bytes: two accounts with the same bytes are the same.
pub proof fn lemma_account_by_bytes(a: AccountId, b: AccountId)
    requires
        a@ == b@,
    ensures
        a == b,
{
    broadcast use vstd::array::group_array_axioms;
    assert(a =~= b);
}

/// `account_prefix` holds the first `n` bytes.
proof fn lemma_account_prefix(bytes: Seq<u8>, n: nat)
    requires
        bytes.len() == 32,
        n <= 32,
    ensures
        forall|i: int| 0 <= i < n ==> #[trigger] account_prefix(bytes, n)@[i] == bytes[i],
    decreases n,
{
    broadcast use vstd::array::group_array_axioms;
    if n > 0 {
        lemma_account_prefix(bytes, (n - 1) as nat);
        let prev = account_prefix(bytes, (n - 1) as nat);
        assert(account_prefix(bytes, n) == spec_array_update(prev, n - 1, bytes[n - 1]));
        assert(account_prefix(bytes, n)@ == prev@.update(n - 1, bytes[n - 1]));
        assert forall|i: int| 0 <= i < n implies #[trigger] account_prefix(bytes, n)@[i] == bytes[i] by {
            if i < n - 1 {
                assert(prev@[i] == bytes[i]);
            }
        }
    }
}

/// The account built from 32 bytes has exactly those bytes.
pub proof fn lemma_account_of(bytes: Seq<u8>)
    requires
        bytes.len() == 32,
    ensures
        account_of(bytes)@ == bytes,
{
    lemma_account_prefix(bytes, 32);
    assert(account_of(bytes)@ =~= bytes);
}

/// Different `u32`s have different encodings.
pub proof fn lemma_u32_le_injective(x: u32, y: u32)
    requires
        u32_le(x) == u32_le(y),
    ensures
        x == y,
{
    assert(u32_le(x)[0] == u32_le(y)[0] && u32_le(x)[1] == u32_le(y)[1] && u32_le(x)[2] == u32_le(y)[2]
        && u32_le(x)[3] == u32_le(y)[3]);
    assert(x == y) by (bit_vector)
        requires
            (x & 0xff) as u8 == (y & 0xff) as u8,
            ((x >> 8u32) & 0xff) as u8 == ((y >> 8u32) & 0xff) as u8,
            ((x >> 16u32) & 0xff) as u8 == ((y >> 16u32) & 0xff) as u8,
            ((x >> 24u32) & 0xff) as u8 == ((y >> 24u32) & 0xff) as u8,
    ;
}

/// Calls `into_sub_account_truncating` of frame_support's `PalletId(pallet_id)` with the sub-seed
/// `(prefix, index)` and returns the 32-byte account it yields. As sp-runtime's source shows, the
/// account is decoded from `"modl" ++ pallet_id ++ encode((prefix, index))` followed by zeros. The
/// contract states those bytes for a prefix of fewer than 64 ASCII characters; for other prefixes
/// (longer length prefixes, multi-byte characters) it states nothing.
#[verifier::external_body]
pub(crate) fn into_sub_account_truncating(pallet_id: [u8; 8], prefix: &str, index: u32) -> (r: AccountId)
    ensures
        short_ascii(prefix@) ==> r@ == account_bytes(modl() + pallet_id@ + sub_seed(prefix@, index)),
{
    let account: AccountId32 = PalletId(pallet_id).into_sub_account_truncating((prefix, index));
    account.into()
}

/// Calls `into_account_truncating` of frame_support's `PalletId(pallet_id)` and returns the 32-byte
/// account it yields. As sp-runtime's source shows, it is the sub-account of the empty seed `()`:
/// the bytes `"modl" ++ pallet_id` followed by zeros.
#[verifier::external_body]
pub(crate) fn into_account_truncating(pallet_id: [u8; 8]) -> (r: AccountId)
    ensures
        r@ == account_bytes(modl() + pallet_id@),
{
    let account: AccountId32 = PalletId(pallet_id).into_account_truncating();
    account.into()
}

} // verus!
