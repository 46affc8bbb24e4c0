use vstd::prelude::*;

verus! {

/// A position on the chain (block height and index of the extrinsic in the
/// block) that tells apart pending multisig operations with one call hash.
#[derive(Clone, Copy, Debug, PartialEq, Eq)]
pub struct Timepoint<B> {
    pub height: B,
    pub index: u32,
}

/// A call kept in its encoded form until it must be matched and dispatched.
#[derive(Clone, Debug)]
pub struct OpaqueCall {
    encoded: Vec<u8>,
}

impl OpaqueCall {
    pub closed spec fn view(&self) -> Seq<u8> {
        self.encoded@
    }

    /// Wraps the encoded bytes of a call.
    pub fn from_encoded(encoded: Vec<u8>) -> (r: OpaqueCall)
        ensures
            r@ == encoded@,
    {
        OpaqueCall { encoded }
    }

    /// The encoded bytes of the call.
    pub fn encoded(&self) -> (r: &[u8])
        ensures
            r@ == self@,
    {
        self.encoded.as_slice()
    }

    /// Gives up the wrapper for the encoded bytes of the call.
    pub fn into_encoded(self) -> (r: Vec<u8>)
        ensures
            r@ == self@,
    {
        self.encoded
    }

    /// The length of the encoded call.
    pub fn encoded_len(&self) -> (r: usize)
        ensures
            r == self@.len(),
    {
        self.encoded.len()
    }
}

/// A call of the multisig engine, built by the policy and dispatched by the
/// runtime under the origin of the account that made the request or the
/// approval.
#[derive(Clone, Debug)]
pub enum MultisigCall<A, B> {
    /// Registers a pending operation by its call hash, approved by the origin.
    ApproveAsMulti {
        threshold: u16,
        other_signatories: Vec<A>,
        maybe_timepoint: Option<Timepoint<B>>,
        call_hash: [u8; 32],
        max_weight: u64,
    },
    /// Approves a pending operation with its full call, which the engine
    /// hashes and matches; the last approval executes it.
    AsMulti {
        threshold: u16,
        other_signatories: Vec<A>,
        maybe_timepoint: Option<Timepoint<B>>,
        call: Vec<u8>,
        store_call: bool,
        max_weight: u64,
    },
}

} // verus!
