//! Commitment requests, their digest and their authentication.

use vstd::prelude::*;
use vstd::bytes::{spec_u64_to_le_bytes, u64_to_le_bytes};
use vstd::slice::slice_to_vec;
use crate::error::Error;
use crate::primitives::{
    append_bytes, keccak256, keccak256_of, recover_address, recovered_address, Address,
    Signature, SignatureView,
};

verus! {

/// The hash of every transaction of a list, in order.
pub open spec fn tx_hashes(txs: Seq<Seq<u8>>) -> Seq<Seq<u8>> {
    txs.map_values(|tx: Seq<u8>| keccak256_of(tx))
}

/// The bytes that a request's digest is the hash of: the transaction hashes
/// one after the other, then the target slot as eight little-endian bytes.
pub open spec fn preimage_of(hashes: Seq<Seq<u8>>, slot: u64) -> Seq<u8> {
    hashes.flatten() + spec_u64_to_le_bytes(slot)
}

/// The digest of a request with the given slot and transactions.
pub open spec fn request_digest(slot: u64, txs: Seq<Seq<u8>>) -> Seq<u8> {
    keccak256_of(preimage_of(tx_hashes(txs), slot))
}

/// Writes out the bytes that a request's digest is the hash of, from the
/// hashes of its transactions and its target slot.
pub fn digest_preimage(hashes: &Vec<[u8; 32]>, slot: u64) -> (data: Vec<u8>)
    ensures
        data@ == preimage_of(hashes@.map_values(|hash: [u8; 32]| hash@), slot),
{
    let ghost parts = hashes@.map_values(|hash: [u8; 32]| hash@);
    let mut data: Vec<u8> = Vec::new();
    let mut i: usize = 0;
    while i < hashes.len()
        invariant
            i <= hashes.len(),
            parts == hashes@.map_values(|hash: [u8; 32]| hash@),
            data@ == parts.take(i as int).flatten(),
        decreases hashes.len() - i,
    {
        append_bytes(&mut data, hashes[i].as_slice());
        proof {
            assert(parts.take(i + 1) =~= parts.take(i as int).push(parts[i as int]));
            parts.take(i as int).lemma_flatten_push(parts[i as int]);
        }
        i = i + 1;
    }
    assert(parts.take(hashes.len() as int) =~= parts);
    let slot_bytes = u64_to_le_bytes(slot);
    append_bytes(&mut data, slot_bytes.as_slice());
    data
}

/// Decides whether the address that a signature recovered to authenticates
/// the address that the caller claimed: it does when it is that address.
pub fn check_signer(claimed: &Address, recovered: Option<Address>) -> (result: Result<
    Address,
    Error,
>)
    ensures
        match result {
            Ok(signer) => recovered == Some(signer) && signer@ == claimed@,
            Err(e) => e == Error::InvalidSignature && (recovered matches Some(other) ==> other@
                != claimed@),
        },
{
    match recovered {
        Some(signer) => {
            if signer.same_as(claimed) {
                Ok(signer)
            } else {
                Err(Error::InvalidSignature)
            }
        },
        None => Err(Error::InvalidSignature),
    }
}

/// An inclusion request as mathematics.
pub struct InclusionRequestView {
    /// The target slot.
    pub slot: u64,
    /// The transactions, each as the bytes of its envelope.
    pub txs: Seq<Seq<u8>>,
    /// The caller's signature, once the request is authenticated.
    pub signature: Option<SignatureView>,
    /// The authenticated signer, once the request is authenticated.
    pub signer: Option<Seq<u8>>,
}

impl InclusionRequestView {
    /// The digest of the request. It covers the slot and the transactions,
    /// and neither the signature nor the signer.
    pub open spec fn digest(self) -> Seq<u8> {
        request_digest(self.slot, self.txs)
    }

    /// The address that a signature recovers to over this request's digest.
    pub open spec fn recovers(self, signature: SignatureView) -> Option<Seq<u8>> {
        recovered_address(signature.r, signature.s, signature.y_parity, self.digest())
    }

    /// The request is unsigned, or it carries a signature together with the
    /// address which that signature recovers to over the request's digest.
    pub open spec fn well_formed(self) -> bool {
        match self.signer {
            Some(signer) => self.signature is Some && self.recovers(self.signature.unwrap())
                == Some(signer),
            None => self.signature is None,
        }
    }

    /// The same request with the marks of a successful authentication.
    pub open spec fn signed_by(self, signature: SignatureView, signer: Seq<u8>) -> Self {
        InclusionRequestView {
            slot: self.slot,
            txs: self.txs,
            signature: Some(signature),
            signer: Some(signer),
        }
    }
}

/// The digest of a request is the same before and after authentication: it
/// covers neither the signature nor the signer.
pub proof fn lemma_digest_ignores_authentication(
    request: InclusionRequestView,
    signature: SignatureView,
    signer: Seq<u8>,
)
    ensures
        request.signed_by(signature, signer).digest() == request.digest(),
{
}

/// A request that was authenticated for an address is well formed: its
/// signer is the address that its signature recovers to over its digest.
pub proof fn lemma_authenticated_is_well_formed(
    request: InclusionRequestView,
    signature: SignatureView,
)
    requires
        request.recovers(signature) is Some,
    ensures
        request.signed_by(signature, request.recovers(signature).unwrap()).well_formed(),
{
}

/// A caller's request that transactions be included at a target slot.
///
/// A request is either unsigned or authenticated. Authentication sets the
/// signature and the signer together, and nothing else sets either.
#[derive(Debug, PartialEq, Eq)]
pub struct InclusionRequest {
    slot: u64,
    txs: Vec<Vec<u8>>,
    signature: Option<Signature>,
    signer: Option<Address>,
}

impl View for InclusionRequest {
    type V = InclusionRequestView;

    closed spec fn view(&self) -> InclusionRequestView {
        InclusionRequestView {
            slot: self.slot,
            txs: self.txs@.map_values(|tx: Vec<u8>| tx@),
            signature: match self.signature {
                Some(s) => Some(s@),
                None => None,
            },
            signer: match self.signer {
                Some(a) => Some(a@),
                None => None,
            },
        }
    }
}

impl InclusionRequest {
    #[verifier::type_invariant]
    spec fn inv(&self) -> bool {
        self@.well_formed()
    }

    /// Makes an unsigned request for the given slot and transactions, each
    /// transaction being its signed, encoded envelope.
    pub fn new(slot: u64, txs: Vec<Vec<u8>>) -> (request: InclusionRequest)
        ensures
            request@ == (InclusionRequestView {
                slot,
                txs: txs@.map_values(|tx: Vec<u8>| tx@),
                signature: None,
                signer: None,
            }),
    {
        InclusionRequest { slot, txs, signature: None, signer: None }
    }

    /// Returns the target slot.
    pub fn slot(&self) -> (slot: u64)
        ensures
            slot == self@.slot,
    {
        self.slot
    }

    /// Returns the transactions.
    pub fn txs(&self) -> (txs: &Vec<Vec<u8>>)
        ensures
            txs@.map_values(|tx: Vec<u8>| tx@) == self@.txs,
    {
        &self.txs
    }

    /// Returns the signature, if the request is authenticated.
    pub fn signature(&self) -> (signature: Option<Signature>)
        ensures
            self@.well_formed(),
            match signature {
                Some(s) => self@.signature == Some(s@),
                None => self@.signature is None,
            },
    {
        proof {
            use_type_invariant(self);
        }
        self.signature
    }

    /// Returns the authenticated signer: the address that the request's
    /// signature recovers to over the request's digest.
    pub fn signer(&self) -> (signer: Option<Address>)
        ensures
            self@.well_formed(),
            match signer {
                Some(a) => self@.signer == Some(a@),
                None => self@.signer is None,
            },
    {
        proof {
            use_type_invariant(self);
        }
        self.signer
    }

    /// Computes the digest of the request.
    pub fn digest(&self) -> (digest: [u8; 32])
        ensures
            digest@ == self@.digest(),
    {
        let ghost expected = tx_hashes(self@.txs);
        let mut hashes: Vec<[u8; 32]> = Vec::new();
        let mut i: usize = 0;
        while i < self.txs.len()
            invariant
                i <= self.txs.len(),
                expected == tx_hashes(self@.txs),
                hashes@.len() == i,
                forall|j: int| 0 <= j < i ==> (#[trigger] hashes@[j])@ == expected[j],
            decreases self.txs.len() - i,
        {
            hashes.push(keccak256(self.txs[i].as_slice()));
            i = i + 1;
        }
        assert(hashes@.map_values(|hash: [u8; 32]| hash@) =~= expected);
        let data = digest_preimage(&hashes, self.slot);
        keccak256(data.as_slice())
    }

    /// Authenticates the request for a claimed address.
    ///
    /// The signature must recover, over the digest of this request, to the
    /// claimed address. Then the request is returned with the signature and
    /// with the recovered address as its signer. In every other case the
    /// request is refused as `InvalidSignature`.
    pub fn authenticate(self, claimed: &Address, signature: Signature) -> (result: Result<
        InclusionRequest,
        Error,
    >)
        ensures
            match result {
                Ok(request) => self@.recovers(signature@) == Some(claimed@) && request@
                    == self@.signed_by(signature@, self@.recovers(signature@).unwrap()),
                Err(e) => self@.recovers(signature@) != Some(claimed@) && e
                    == Error::InvalidSignature,
            },
    {
        let digest = self.digest();
        match check_signer(claimed, recover_address(&signature, &digest)) {
            Ok(signer) => Ok(
                InclusionRequest {
                    slot: self.slot,
                    txs: self.txs,
                    signature: Some(signature),
                    signer: Some(signer),
                },
            ),
            Err(e) => Err(e),
        }
    }
}

impl Clone for InclusionRequest {
    fn clone(&self) -> (copy: InclusionRequest)
        ensures
            copy@ == self@,
    {
        proof {
            use_type_invariant(self);
        }
        let mut txs: Vec<Vec<u8>> = Vec::new();
        let mut i: usize = 0;
        while i < self.txs.len()
            invariant
                i <= self.txs.len(),
                txs@.len() == i,
                forall|j: int| 0 <= j < i ==> (#[trigger] txs@[j])@ == self.txs@[j]@,
            decreases self.txs.len() - i,
        {
            txs.push(slice_to_vec(self.txs[i].as_slice()));
            i = i + 1;
        }
        assert(txs@.map_values(|tx: Vec<u8>| tx@) =~= self.txs@.map_values(|tx: Vec<u8>| tx@));
        InclusionRequest { slot: self.slot, txs, signature: self.signature, signer: self.signer }
    }
}

/// A request for a commitment, by kind.
#[derive(Debug, Clone, PartialEq, Eq)]
pub enum CommitmentRequest {
    /// A request that transactions be included.
    Inclusion(InclusionRequest),
}

/// The backend's signed promise to honour an inclusion request.
#[derive(Debug, Clone, PartialEq, Eq)]
pub struct InclusionCommitment {
    /// The request that the commitment answers.
    pub request: InclusionRequest,
    /// The backend's signature over the commitment.
    pub signature: Signature,
}

/// A signed commitment, by kind.
#[derive(Debug, Clone, PartialEq, Eq)]
pub enum SignedCommitment {
    /// A commitment to include transactions.
    Inclusion(InclusionCommitment),
}

impl From<SignedCommitment> for InclusionCommitment {
    /// Unwraps the inclusion commitment.
    fn from(signed: SignedCommitment) -> (commitment: InclusionCommitment) {
        match signed {
            SignedCommitment::Inclusion(commitment) => commitment,
        }
    }
}

impl vstd::std_specs::convert::FromSpecImpl<SignedCommitment> for InclusionCommitment {
    open spec fn obeys_from_spec() -> bool {
        true
    }

    open spec fn from_spec(signed: SignedCommitment) -> InclusionCommitment {
        match signed {
            SignedCommitment::Inclusion(commitment) => commitment,
        }
    }
}

} // verus!
