use vstd::prelude::*;

use crate::call::{MultisigCall, OpaqueCall, Timepoint};

verus! {

/// Number of signatories of a vault, which is also the number of approvals
/// that a transfer needs.
pub const THRESHOLD: u16 = 2;

/// What the runtime provides to the pallet.
pub trait Config {
    type AccountId;

    type BlockNumber;

    /// Whether the registry holds `account` as a legal officer.
    spec fn is_officer(account: &Self::AccountId) -> bool;

    /// Asks the legal officer registry about `account`.
    fn is_legal_officer(account: &Self::AccountId) -> (r: bool)
        ensures
            r == Self::is_officer(account),
    ;
}

/// Why the pallet refuses a request or an approval.
#[derive(Clone, Copy, Debug, PartialEq, Eq, Structural)]
pub enum Error {
    /// The set of signatories is not of size two, or (on request) does not hold
    /// legal officers only.
    InvalidSignatories,
    /// The transfer initiator is a legal officer.
    WrongInitiator,
}

/// The pallet emits no event of its own.
#[derive(Clone, Copy, Debug, PartialEq, Eq, Structural)]
pub struct Event;

pub struct Pallet<T> {
    pub marker: core::marker::PhantomData<T>,
}

impl<T: Config> Pallet<T> {
    /// Both signatories of a request are legal officers, and there are two.
    pub open spec fn valid_legal_officers(legal_officers: Seq<T::AccountId>) -> bool {
        &&& legal_officers.len() == 2
        &&& T::is_officer(&legal_officers[0])
        &&& T::is_officer(&legal_officers[1])
    }

    /// The outcome of a transfer request by `who`.
    pub open spec fn request_outcome(
        who: T::AccountId,
        legal_officers: Vec<T::AccountId>,
        call_hash: [u8; 32],
        max_weight: u64,
    ) -> Result<MultisigCall<T::AccountId, T::BlockNumber>, Error> {
        if !Self::valid_legal_officers(legal_officers@) {
            Err(Error::InvalidSignatories)
        } else if T::is_officer(&who) {
            Err(Error::WrongInitiator)
        } else {
            Ok(
                MultisigCall::ApproveAsMulti {
                    threshold: THRESHOLD,
                    other_signatories: legal_officers,
                    maybe_timepoint: None,
                    call_hash,
                    max_weight,
                },
            )
        }
    }

    /// `c` is the call that approves, with the full payload `call`, the
    /// transfer registered at `timepoint` for `other_signatories`.
    pub open spec fn is_approval(
        c: MultisigCall<T::AccountId, T::BlockNumber>,
        other_signatories: Vec<T::AccountId>,
        call: Seq<u8>,
        timepoint: Timepoint<T::BlockNumber>,
        max_weight: u64,
    ) -> bool {
        c matches MultisigCall::AsMulti {
            threshold,
            other_signatories: s,
            maybe_timepoint,
            call: payload,
            store_call,
            max_weight: w,
        } && threshold == THRESHOLD && s == other_signatories && maybe_timepoint == Some(timepoint)
            && payload@ == call && !store_call && w == max_weight
    }

    /// Creates a vault transfer requested by `who`, which must not be a legal
    /// officer, to be approved by the two legal officers `legal_officers`.
    /// Returns the multisig call that registers the transfer by its hash,
    /// with the first approval given by `who`.
    pub fn request_call(
        who: &T::AccountId,
        legal_officers: Vec<T::AccountId>,
        call_hash: [u8; 32],
        max_weight: u64,
    ) -> (r: Result<MultisigCall<T::AccountId, T::BlockNumber>, Error>)
        ensures
            r == Self::request_outcome(*who, legal_officers, call_hash, max_weight),
            r is Ok <==> (Self::valid_legal_officers(legal_officers@) && !T::is_officer(who)),
            legal_officers.len() != 2 ==> r == Err::<
                MultisigCall<T::AccountId, T::BlockNumber>,
                Error,
            >(Error::InvalidSignatories),
    {
        if legal_officers.len() != 2 || !T::is_legal_officer(&legal_officers[0])
            || !T::is_legal_officer(&legal_officers[1]) {
            Err(Error::InvalidSignatories)
        } else if T::is_legal_officer(who) {
            Err(Error::WrongInitiator)
        } else {
            Ok(Self::dispatch_create_multi(legal_officers, call_hash, max_weight))
        }
    }

    /// Approves a vault transfer: the full call goes to the multisig engine,
    /// which matches it against the hash registered at `timepoint`.
    pub fn approve_call(
        other_signatories: Vec<T::AccountId>,
        call: OpaqueCall,
        timepoint: Timepoint<T::BlockNumber>,
        max_weight: u64,
    ) -> (r: Result<MultisigCall<T::AccountId, T::BlockNumber>, Error>)
        ensures
            other_signatories.len() != 2 ==> r == Err::<
                MultisigCall<T::AccountId, T::BlockNumber>,
                Error,
            >(Error::InvalidSignatories),
            other_signatories.len() == 2 ==> r is Ok && Self::is_approval(
                r->Ok_0,
                other_signatories,
                call@,
                timepoint,
                max_weight,
            ),
    {
        if other_signatories.len() != 2 {
            Err(Error::InvalidSignatories)
        } else {
            Ok(Self::dispatch_as_multi(other_signatories, call, timepoint, max_weight))
        }
    }

    /// A request by a non-officer for two legal officers and an approval
    /// that names the same two signatories build the two halves of one
    /// two-of-two operation: the same threshold and signatories, the first
    /// with no timepoint and the call hash, the second with the timepoint of
    /// the registration and the payload unchanged, so that the engine hashes
    /// what the approver supplied.
    pub proof fn lemma_request_then_approve(
        who: T::AccountId,
        legal_officers: Vec<T::AccountId>,
        call_hash: [u8; 32],
        request_weight: u64,
        approval: MultisigCall<T::AccountId, T::BlockNumber>,
        payload: Seq<u8>,
        timepoint: Timepoint<T::BlockNumber>,
        approval_weight: u64,
    )
        requires
            Self::valid_legal_officers(legal_officers@),
            !T::is_officer(&who),
            Self::is_approval(approval, legal_officers, payload, timepoint, approval_weight),
        ensures
            Self::request_outcome(who, legal_officers, call_hash, request_weight) matches Ok(
                MultisigCall::ApproveAsMulti {
                    threshold: t1,
                    other_signatories: s1,
                    maybe_timepoint: None,
                    call_hash: h,
                    ..
                },
            ) && approval matches MultisigCall::AsMulti {
                threshold: t2,
                other_signatories: s2,
                maybe_timepoint: Some(tp),
                call: p,
                ..
            } && t1 == THRESHOLD && t2 == THRESHOLD && s1 == s2 && s1 == legal_officers && h
                == call_hash && tp == timepoint && p@ == payload,
    {
    }

    fn dispatch_create_multi(
        legal_officers: Vec<T::AccountId>,
        call_hash: [u8; 32],
        max_weight: u64,
    ) -> (r: MultisigCall<T::AccountId, T::BlockNumber>)
        ensures
            r == (MultisigCall::<T::AccountId, T::BlockNumber>::ApproveAsMulti {
                threshold: THRESHOLD,
                other_signatories: legal_officers,
                maybe_timepoint: None,
                call_hash,
                max_weight,
            }),
    {
        MultisigCall::ApproveAsMulti {
            threshold: THRESHOLD,
            other_signatories: legal_officers,
            maybe_timepoint: None,
            call_hash,
            max_weight,
        }
    }

    fn dispatch_as_multi(
        other_signatories: Vec<T::AccountId>,
        call: OpaqueCall,
        timepoint: Timepoint<T::BlockNumber>,
        max_weight: u64,
    ) -> (r: MultisigCall<T::AccountId, T::BlockNumber>)
        ensures
            Self::is_approval(r, other_signatories, call@, timepoint, max_weight),
    {
        let bytes = call.into_encoded();
        MultisigCall::AsMulti {
            threshold: THRESHOLD,
            other_signatories,
            maybe_timepoint: Some(timepoint),
            call: bytes,
            store_call: false,
            max_weight,
        }
    }

}

} // verus!
