//! Core types for the author-reward-destination inherent: its identifier, its error, and the data
//! a block author provides.
use vstd::prelude::*;
use frame_support::inherent::InherentData;
use frame_support::sp_runtime::AccountId32;
use parity_scale_codec::Decode;
use crate::support::AccountId;

verus! {

/// An inherent's identifier: eight bytes.
pub type InherentIdentifier = [u8; 8];

/// The identifier of the `set_author_reward_dest` inherent (`b"authrdst"`).
pub const INHERENT_IDENTIFIER: InherentIdentifier = [97, 117, 116, 104, 114, 100, 115, 116];

/// The type of the inherent: the account that receives the author's rewards.
pub type InherentType = AccountId;

#[verifier::external_type_specification]
#[verifier::external_body]
pub struct ExInherentData(InherentData);

/// The entries that an `InherentData` holds: encoded values by identifier.
pub uninterp spec fn inherent_entries(data: InherentData) -> Map<Seq<u8>, Seq<u8>>;

/// What decoding an account from `bytes` gives: its first 32 bytes, or a failure when there are
/// fewer.
pub open spec fn decoded_account(bytes: Seq<u8>, account: AccountId) -> bool {
    bytes.len() >= 32 && account@ == bytes.take(32)
}

/// Whether `data` holds a decodable account under `identifier`.
pub open spec fn holds_account(data: InherentData, identifier: InherentIdentifier) -> bool {
    inherent_entries(data).contains_key(identifier@) && inherent_entries(data)[identifier@].len()
        >= 32
}

/// Calls `InherentData::get_data::<AccountId32>(identifier)` and converts the account found. As
/// sp_inherents' source shows, the result is `Ok(None)` when no entry has the identifier, and
/// otherwise the account decoded from the entry: its first 32 bytes, or a decoding error when the
/// entry is shorter.
#[verifier::external_body]
pub(crate) fn get_account_data(data: &InherentData, identifier: InherentIdentifier) -> (r: Result<
    Option<AccountId>,
    (),
>)
    ensures
        match r {
            Ok(None) => !inherent_entries(*data).contains_key(identifier@),
            Ok(Some(account)) => inherent_entries(*data).contains_key(identifier@)
                && decoded_account(inherent_entries(*data)[identifier@], account),
            Err(()) => inherent_entries(*data).contains_key(identifier@)
                && inherent_entries(*data)[identifier@].len() < 32,
        },
{
    match data.get_data::<AccountId32>(&identifier) {
        Ok(Some(account)) => Ok(Some(account.into())),
        Ok(None) => Ok(None),
        Err(_) => Err(()),
    }
}

/// Calls the SCALE `Decode` of a value without fields (`()`) on `bytes`. As parity-scale-codec's
/// source shows, it reads nothing and always succeeds.
#[verifier::external_body]
fn decode_unit(bytes: &[u8]) -> (ok: bool)
    ensures
        ok,
{
    let mut input = bytes;
    <() as Decode>::decode(&mut input).is_ok()
}

/// Errors that can occur while checking the `set_author_reward_dest` inherent.
#[derive(Clone, Copy, Debug, PartialEq, Eq)]
pub struct InherentError;

impl InherentError {
    /// The error is fatal: the block is invalid.
    pub fn is_fatal_error(&self) -> (r: bool)
        ensures
            r,
    {
        true
    }

    /// The message the error displays.
    pub fn message(&self) -> (r: String)
        ensures
            r@ == "Error for author reward destination inherent"@,
    {
        broadcast use vstd::string::to_string_from_display_ensures_for_str;
        "Error for author reward destination inherent".to_string()
    }

    /// The error decoded from `data`, when `id` is this inherent's identifier.
    pub fn try_from(id: &InherentIdentifier, data: &[u8]) -> (r: Option<Self>)
        ensures
            r == if *id == INHERENT_IDENTIFIER {
                Some(InherentError)
            } else {
                None
            },
    {
        if crate::support::bytes8_eq(id, &INHERENT_IDENTIFIER) {
            if decode_unit(data) {
                Some(InherentError)
            } else {
                None
            }
        } else {
            None
        }
    }
}

/// Provides the author-reward-destination inherent data of a block.
#[derive(Clone, Copy, Debug, PartialEq, Eq)]
pub struct InherentDataProvider {
    author_reward_dest: InherentType,
}

impl InherentDataProvider {
    /// The account that the provider puts into the block.
    pub closed spec fn dest_spec(&self) -> InherentType {
        self.author_reward_dest
    }

    /// A provider of `dest` as the author reward destination.
    pub fn new(dest: InherentType) -> (r: Self)
        ensures
            r.dest_spec() == dest,
    {
        InherentDataProvider { author_reward_dest: dest }
    }

    /// The account that the provider puts into the block.
    pub fn dest(&self) -> (r: &InherentType)
        ensures
            *r == self.dest_spec(),
    {
        &self.author_reward_dest
    }
}

} // verus!
