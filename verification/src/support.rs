//! Types shared by the pallets: accounts, origins, dispatch errors and transfer requests.
use vstd::prelude::*;

verus! {

/// A 32-byte account identifier, as used by the runtime (`AccountId32`).
pub type AccountId = [u8; 32];

/// Identifier of an asset held by the assets pallet.
pub type AssetId = u32;

/// A balance of the native token or of an asset.
pub type Balance = u128;

/// A relay-chain block number.
pub type RelayChainBlockNumber = u32;

/// Compares two accounts byte by byte.
pub fn account_eq(a: &AccountId, b: &AccountId) -> (r: bool)
    ensures
        r == (*a == *b),
{
    let mut i: usize = 0;
    while i < 32
        invariant
            0 <= i <= 32,
            forall|j: int| 0 <= j < i ==> a[j] == b[j],
        decreases 32 - i,
    {
        if a[i] != b[i] {
            return false;
        }
        i = i + 1;
    }
    proof {
        broadcast use vstd::array::group_array_axioms;
        assert(*a =~= *b);
    }
    true
}


/// Compares two 8-byte identifiers byte by byte.
pub fn bytes8_eq(a: &[u8; 8], b: &[u8; 8]) -> (r: bool)
    ensures
        r == (*a == *b),
{
    let mut i: usize = 0;
    while i < 8
        invariant
            0 <= i <= 8,
            forall|j: int| 0 <= j < i ==> a[j] == b[j],
        decreases 8 - i,
    {
        if a[i] != b[i] {
            return false;
        }
        i = i + 1;
    }
    proof {
        broadcast use vstd::array::group_array_axioms;
        assert(*a =~= *b);
    }
    true
}

/// Who dispatched a call.
#[derive(Clone, Copy, Debug, PartialEq, Eq)]
pub enum Origin {
    /// The root (governance) origin.
    Root,
    /// A call signed by an account.
    Signed(AccountId),
    /// An unsigned call, such as an inherent.
    Unsigned,
}

/// Arithmetic failures that abort a call.
#[derive(Clone, Copy, Debug, PartialEq, Eq)]
pub enum ArithmeticError {
    Underflow,
    Overflow,
    DivisionByZero,
}

/// Failures reported by the token pallets that move funds.
#[derive(Clone, Copy, Debug, PartialEq, Eq)]
pub enum TokenError {
    FundsUnavailable,
    OnlyProvider,
    BelowMinimum,
    CannotCreate,
    UnknownAsset,
    Frozen,
    Unsupported,
    CannotCreateHold,
    NotExpendable,
    Blocked,
}

/// Why a call failed; `E` is the error type of the pallet that was called.
#[derive(Clone, Copy, Debug, PartialEq, Eq)]
pub enum DispatchError<E> {
    /// The origin is not of the kind the call needs.
    BadOrigin,
    /// An arithmetic operation failed.
    Arithmetic(ArithmeticError),
    /// A token pallet refused to move funds.
    Token(TokenError),
    /// An error of the pallet itself.
    Module(E),
    /// Any other failure reported by the runtime.
    Other,
}

/// How much of the source account a transfer may consume.
#[derive(Clone, Copy, Debug, PartialEq, Eq)]
pub enum Preservation {
    /// The source account may be reaped.
    Expendable,
    /// The source account must keep a provider reference alive.
    Protect,
    /// The source account must stay above the existential deposit.
    Preserve,
}

/// A transfer of `amount` units of `asset` from `source` to `dest`, to be made by the assets pallet.
#[derive(Clone, Copy, Debug, PartialEq, Eq)]
pub struct AssetTransfer {
    pub asset: AssetId,
    pub source: AccountId,
    pub dest: AccountId,
    pub amount: Balance,
    pub preservation: Preservation,
}

/// A transfer of `amount` native tokens from `source` to `dest`, to be made by the balances pallet.
#[derive(Clone, Copy, Debug, PartialEq, Eq)]
pub struct NativeTransfer {
    pub source: AccountId,
    pub dest: AccountId,
    pub amount: Balance,
    pub preservation: Preservation,
}

/// A credit of `amount` native tokens resolved into `account`.
#[derive(Clone, Copy, Debug, PartialEq, Eq)]
pub struct Payout {
    pub account: AccountId,
    pub amount: Balance,
}

/// The account that signed `origin`, if it is signed.
pub open spec fn signer(origin: Origin) -> Option<AccountId> {
    match origin {
        Origin::Signed(who) => Some(who),
        _ => None,
    }
}

/// Succeeds with the signer of `origin`; fails with `BadOrigin` on any other origin.
pub fn ensure_signed<E>(origin: Origin) -> (r: Result<AccountId, DispatchError<E>>)
    ensures
        r == match signer(origin) {
            Some(who) => Ok(who),
            None => Err(DispatchError::<E>::BadOrigin),
        },
{
    match origin {
        Origin::Signed(who) => Ok(who),
        _ => Err(DispatchError::BadOrigin),
    }
}

/// Succeeds on the unsigned origin; fails with `BadOrigin` on any other origin.
pub fn ensure_none<E>(origin: Origin) -> (r: Result<(), DispatchError<E>>)
    ensures
        r == if origin == Origin::Unsigned {
            Ok(())
        } else {
            Err(DispatchError::<E>::BadOrigin)
        },
{
    match origin {
        Origin::Unsigned => Ok(()),
        _ => Err(DispatchError::BadOrigin),
    }
}

} // verus!
