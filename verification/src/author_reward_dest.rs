//! The author-reward-destination pallet: the author of a block provides, through a mandatory
//! inherent, the account that receives the block's rewards (tips and part of the fees).
use vstd::prelude::*;
use frame_support::inherent::InherentData;
use crate::inherent::{
    decoded_account, get_account_data, holds_account, inherent_entries, InherentError,
    INHERENT_IDENTIFIER,
};
use crate::support::{ensure_none, AccountId, DispatchError, Origin};

verus! {

/// A block number of the chain.
pub type BlockNumber = u32;

/// Errors of the pallet.
#[derive(Clone, Copy, Debug, PartialEq, Eq)]
pub enum Error {
    /// The inherent set author reward dest has already been submitted.
    AlreadySet,
}

/// The result of a call of this pallet.
pub type DispatchResult = Result<(), DispatchError<Error>>;

/// Why a block's inherent data does not yield the author reward destination.
#[derive(Clone, Copy, Debug, PartialEq, Eq)]
pub enum InherentDataError {
    /// The data holds no entry under this inherent's identifier.
    NotProvided,
    /// The entry is too short to hold an account.
    NotCorrectlyEncoded,
}

/// The calls of the pallet.
#[derive(Clone, Copy, Debug, PartialEq, Eq)]
pub enum Call {
    /// Set the author reward destination for the block.
    SetAuthorRewardDest { dest: AccountId },
}

/// What `set_author_reward_dest` does to the stored author: the new value, or the error.
pub open spec fn set_author_reward_dest_step(
    author: Option<AccountId>,
    origin: Origin,
    dest: AccountId,
) -> Result<Option<AccountId>, DispatchError<Error>> {
    if origin != Origin::Unsigned {
        Err(DispatchError::BadOrigin)
    } else if author is Some {
        Err(DispatchError::Module(Error::AlreadySet))
    } else {
        Ok(Some(dest))
    }
}

/// The pallet: the author reward destination of the current block, once set.
pub struct Pallet {
    author: Option<AccountId>,
}

impl View for Pallet {
    type V = Option<AccountId>;

    closed spec fn view(&self) -> Option<AccountId> {
        self.author
    }
}

impl Pallet {
    /// The pallet at the start of a block: no author reward destination yet.
    pub fn new() -> (r: Self)
        ensures
            r@ == None::<AccountId>,
    {
        Pallet { author: None }
    }

    /// Sets the author reward destination of the block; only as an unsigned (inherent) call, and
    /// only once per block.
    pub fn set_author_reward_dest(&mut self, origin: Origin, dest: AccountId) -> (r: DispatchResult)
        ensures
            match set_author_reward_dest_step(old(self)@, origin, dest) {
                Ok(author) => r == Ok::<(), DispatchError<Error>>(()) && final(self)@ == author,
                Err(e) => r == Err::<(), DispatchError<Error>>(e) && final(self)@ == old(self)@,
            },
    {
        ensure_none(origin)?;
        if self.author.is_some() {
            return Err(DispatchError::Module(Error::AlreadySet));
        }
        self.author = Some(dest);
        Ok(())
    }

    /// The author reward destination of the block. It is set after the inherents and cleared by
    /// `on_finalize`.
    pub fn author(&self) -> (r: Option<AccountId>)
        ensures
            r == self@,
    {
        self.author
    }

    /// Ends the block: the author reward destination, which the mandatory inherent must have
    /// set, is cleared so that it never reaches storage.
    pub fn on_finalize(&mut self, _n: BlockNumber)
        requires
            old(self)@ is Some,
        ensures
            final(self)@ == None::<AccountId>,
    {
        self.author = None;
    }

    /// The inherent call that the block author's data asks for: setting the account stored under
    /// this inherent's identifier as the reward destination. The data must hold that account.
    pub fn create_inherent(data: &InherentData) -> (r: Option<Call>)
        requires
            holds_account(*data, INHERENT_IDENTIFIER),
        ensures
            match r {
                Some(Call::SetAuthorRewardDest { dest }) => decoded_account(
                    inherent_entries(*data)[INHERENT_IDENTIFIER@],
                    dest,
                ),
                None => false,
            },
    {
        match get_account_data(data, INHERENT_IDENTIFIER) {
            Ok(Some(dest)) => Some(Call::SetAuthorRewardDest { dest }),
            _ => None,
        }
    }

    /// The inherent call that the block author's data asks for, or why the data cannot give it:
    /// no entry under this inherent's identifier, or an entry too short to hold an account.
    pub fn try_create_inherent(data: &InherentData) -> (r: Result<Call, InherentDataError>)
        ensures
            match r {
                Ok(Call::SetAuthorRewardDest { dest }) => holds_account(*data, INHERENT_IDENTIFIER)
                    && decoded_account(inherent_entries(*data)[INHERENT_IDENTIFIER@], dest),
                Err(InherentDataError::NotProvided) => !inherent_entries(*data).contains_key(
                    INHERENT_IDENTIFIER@,
                ),
                Err(InherentDataError::NotCorrectlyEncoded) => inherent_entries(*data).contains_key(
                    INHERENT_IDENTIFIER@,
                ) && !holds_account(*data, INHERENT_IDENTIFIER),
            },
    {
        match get_account_data(data, INHERENT_IDENTIFIER) {
            Err(()) => Err(InherentDataError::NotCorrectlyEncoded),
            Ok(None) => Err(InherentDataError::NotProvided),
            Ok(Some(_)) => match Self::create_inherent(data) {
                Some(call) => Ok(call),
                None => Err(InherentDataError::NotProvided),
            },
        }
    }

    /// Checks an inherent call against the block's data: every call is accepted.
    pub fn check_inherent(_call: &Call, _data: &InherentData) -> (r: Result<(), InherentError>)
        ensures
            r == Ok::<(), InherentError>(()),
    {
        Ok(())
    }

    /// Whether `call` is this pallet's inherent: every call of the pallet is.
    pub fn is_inherent(call: &Call) -> (r: bool)
        ensures
            r == (*call is SetAuthorRewardDest),
    {
        match call {
            Call::SetAuthorRewardDest { .. } => true,
        }
    }
}

impl Call {
    /// Dispatches the call to `pallet` with `origin`.
    pub fn dispatch_bypass_filter(self, pallet: &mut Pallet, origin: Origin) -> (r: DispatchResult)
        ensures
            match self {
                Call::SetAuthorRewardDest { dest } => match set_author_reward_dest_step(
                    old(pallet)@,
                    origin,
                    dest,
                ) {
                    Ok(author) => r == Ok::<(), DispatchError<Error>>(()) && final(pallet)@ == author,
                    Err(e) => r == Err::<(), DispatchError<Error>>(e) && final(pallet)@ == old(
                        pallet,
                    )@,
                },
            },
    {
        match self {
            Call::SetAuthorRewardDest { dest } => pallet.set_author_reward_dest(origin, dest),
        }
    }
}

/// The destination is set at most once per block: once set, a second inherent is refused with
/// `AlreadySet` and the first destination stays.
pub proof fn lemma_author_set_once(author: Option<AccountId>, dest: AccountId, other: AccountId)
    requires
        set_author_reward_dest_step(author, Origin::Unsigned, dest) is Ok,
    ensures
        set_author_reward_dest_step(author, Origin::Unsigned, dest)->Ok_0 == Some(dest),
        set_author_reward_dest_step(Some(dest), Origin::Unsigned, other) == Err::<
            Option<AccountId>,
            DispatchError<Error>,
        >(DispatchError::Module(Error::AlreadySet)),
{
}

/// Only the unsigned (inherent) origin may set the destination.
pub proof fn lemma_only_inherent_sets_author(author: Option<AccountId>, origin: Origin, dest: AccountId)
    requires
        origin != Origin::Unsigned,
    ensures
        set_author_reward_dest_step(author, origin, dest) == Err::<
            Option<AccountId>,
            DispatchError<Error>,
        >(DispatchError::BadOrigin),
{
}

} // verus!
