//! Who pays and who signs: signing keys, signatures, account addresses and
//! epochs.

use crate::crypto::{
    ed25519_public, ed25519_refusal, ed25519_signature, public_of, sha256, sha256_digest,
    sign_with, verify_with,
};
use crate::wire::{parse_fixed, put_bytes, take_fixed, DataError};
use vstd::prelude::*;
use vstd::slice::slice_subrange;

verus! {

/// The number of bytes in the hash that identifies an account.
pub const ADDRESS_HASH_LEN: usize = 20;

/// An era of the ledger. It selects the key under which payloads are
/// encrypted.
#[derive(Clone, Copy, Debug, PartialEq, Eq, Structural)]
pub struct Epoch(pub u64);

/// An Ed25519 public key.
#[derive(Clone, Copy, Debug, PartialEq, Eq)]
pub struct PublicKey {
    pub bytes: [u8; 32],
}

impl View for PublicKey {
    type V = Seq<u8>;

    open spec fn view(&self) -> Seq<u8> {
        self.bytes@
    }
}

/// An Ed25519 signature.
#[derive(Clone, Copy, Debug, PartialEq, Eq)]
pub struct Signature {
    pub bytes: [u8; 64],
}

impl View for Signature {
    type V = Seq<u8>;

    open spec fn view(&self) -> Seq<u8> {
        self.bytes@
    }
}

/// A secret signing key together with its public key.
#[derive(Clone, Debug)]
pub struct Keypair {
    pub secret: [u8; 32],
    pub public: PublicKey,
}

impl Keypair {
    /// The key pair that belongs to a secret key.
    pub fn from_secret(secret: [u8; 32]) -> (keypair: Keypair)
        ensures
            keypair.secret@ == secret@,
            keypair.public@ == ed25519_public(secret@),
    {
        let public = PublicKey { bytes: public_of(&secret) };
        Keypair { secret, public }
    }
}

/// Why a signature was not accepted.
#[derive(Clone, Debug, PartialEq, Eq)]
pub enum VerifySigError {
    /// The verifier refused the signature; its own words are kept.
    SigError(String),
    /// There is no signed data to check the signature against.
    MissingData,
}

/// The message of a refused signature: a fixed lead, then the verifier's
/// words.
pub open spec fn refusal_message(cause: Seq<char>) -> Seq<char> {
    "Signature verification failed: "@ + cause
}

/// `<[&str]>::concat`: the two strings, one after the other.
#[verifier::external_body]
fn joined(head: &str, tail: &str) -> (whole: String)
    ensures
        whole@ == head@ + tail@,
{
    [head, tail].concat()
}

impl VerifySigError {
    /// The error in words.
    pub open spec fn spec_message(self) -> Seq<char> {
        match self {
            VerifySigError::SigError(cause) => refusal_message(cause@),
            VerifySigError::MissingData => "Transaction doesn't have any data with a signature"@,
        }
    }

    /// The error in words.
    pub fn message(&self) -> (text: String)
        ensures
            text@ == self.spec_message(),
    {
        match self {
            VerifySigError::SigError(cause) => joined(
                "Signature verification failed: ",
                cause.as_str(),
            ),
            VerifySigError::MissingData => "Transaction doesn't have any data with a signature".to_owned(),
        }
    }
}

/// Signs `data` with the secret key of `keypair`.
pub fn sign(keypair: &Keypair, data: &[u8]) -> (signature: Signature)
    ensures
        signature@ == ed25519_signature(keypair.secret@, data@),
{
    Signature { bytes: sign_with(&keypair.secret, data) }
}

/// Checks that `sig` is a signature of `data` under `pk`.
pub fn verify_signature_raw(pk: &PublicKey, data: &[u8], sig: &Signature) -> (verdict: Result<
    (),
    VerifySigError,
>)
    ensures
        verdict.is_ok() == ed25519_refusal(pk@, data@, sig@).is_none(),
        verdict matches Err(e) ==> e matches VerifySigError::SigError(cause)
            && ed25519_refusal(pk@, data@, sig@) == Some(cause@),
{
    match verify_with(&pk.bytes, data, &sig.bytes) {
        Ok(()) => Ok(()),
        Err(cause) => Err(VerifySigError::SigError(cause)),
    }
}

/// The identity of an account: one that was established on the ledger, or
/// the implicit account of a public key.
#[derive(Clone, Copy, Debug, PartialEq, Eq)]
pub enum Address {
    Established([u8; 20]),
    Implicit([u8; 20]),
}

/// What an address holds.
pub struct AddressView {
    pub implicit: bool,
    pub hash: Seq<u8>,
}

impl View for Address {
    type V = AddressView;

    open spec fn view(&self) -> AddressView {
        match *self {
            Address::Established(hash) => AddressView { implicit: false, hash: hash@ },
            Address::Implicit(hash) => AddressView { implicit: true, hash: hash@ },
        }
    }
}

impl AddressView {
    /// The hash has the length of an address hash.
    pub open spec fn well_formed(self) -> bool {
        self.hash.len() == ADDRESS_HASH_LEN
    }

    /// The address of the implicit account of a public key: the first bytes
    /// of the SHA-256 digest of the key.
    pub open spec fn of_public_key(pk: Seq<u8>) -> AddressView {
        AddressView { implicit: true, hash: sha256_digest(pk).subrange(0, ADDRESS_HASH_LEN as int) }
    }

    /// The encoding: a byte that tells the kind, then the hash.
    pub open spec fn wire(self) -> Seq<u8> {
        seq![if self.implicit { 1u8 } else { 0u8 }] + self.hash
    }

    /// Reads an address from the front of `input`.
    pub open spec fn parse(input: Seq<u8>) -> Result<(AddressView, Seq<u8>), DataError> {
        if input.len() < 1 {
            Err(DataError::UnexpectedEnd)
        } else if input[0] > 1 {
            Err(DataError::Malformed)
        } else {
            match parse_fixed(input.subrange(1, input.len() as int), ADDRESS_HASH_LEN as nat) {
                None => Err(DataError::UnexpectedEnd),
                Some((hash, rest)) => Ok((AddressView { implicit: input[0] == 1, hash }, rest)),
            }
        }
    }

    /// An address is read back from its encoding, whatever follows it.
    pub proof fn lemma_parse_wire(self, rest: Seq<u8>)
        requires
            self.well_formed(),
        ensures
            Self::parse(self.wire() + rest) == Ok::<_, DataError>((self, rest)),
    {
        let input = self.wire() + rest;
        assert(input.subrange(1, input.len() as int) == self.hash + rest);
        crate::wire::lemma_parse_fixed(self.hash, rest);
    }
}

impl Address {
    /// The address of the implicit account of `pk`.
    pub fn from_public_key(pk: &PublicKey) -> (address: Address)
        ensures
            address@ == AddressView::of_public_key(pk@),
    {
        let digest = sha256(pk.bytes.as_slice());
        let mut hash: [u8; 20] = [0u8; 20];
        let mut i: usize = 0;
        while i < 20
            invariant
                i <= 20,
                forall|j: int| 0 <= j < i ==> hash@[j] == digest@[j],
            decreases 20 - i,
        {
            hash[i] = digest[i];
            i += 1;
        }
        assert(hash@ == digest@.subrange(0, 20));
        Address::Implicit(hash)
    }

    /// The hash that identifies the account.
    pub fn hash(&self) -> (hash: &[u8; 20])
        ensures
            hash@ == self@.hash,
    {
        match self {
            Address::Established(hash) => hash,
            Address::Implicit(hash) => hash,
        }
    }

    /// Appends the encoding of the address.
    pub fn serialize(&self, out: &mut Vec<u8>)
        ensures
            final(out)@ == old(out)@ + self@.wire(),
    {
        match self {
            Address::Established(hash) => {
                out.push(0u8);
                put_bytes(out, hash.as_slice());
            },
            Address::Implicit(hash) => {
                out.push(1u8);
                put_bytes(out, hash.as_slice());
            },
        }
        assert(out@ == old(out)@ + (seq![if self@.implicit { 1u8 } else { 0u8 }] + self@.hash));
    }

    /// Reads an address from the front of `input`, and hands back what
    /// follows it.
    pub fn deserialize<'a>(input: &'a [u8]) -> (read: Result<(Address, &'a [u8]), DataError>)
        ensures
            match read {
                Ok((address, rest)) => AddressView::parse(input@) == Ok::<_, DataError>(
                    (address@, rest@),
                ),
                Err(e) => AddressView::parse(input@) == Err::<(AddressView, Seq<u8>), _>(e),
            },
    {
        if input.len() < 1 {
            return Err(DataError::UnexpectedEnd);
        }
        let kind: u8 = input[0];
        if kind > 1 {
            return Err(DataError::Malformed);
        }
        match take_fixed::<20>(slice_subrange(input, 1, input.len())) {
            None => Err(DataError::UnexpectedEnd),
            Some((hash, rest)) => {
                if kind == 1 {
                    Ok((Address::Implicit(hash), rest))
                } else {
                    Ok((Address::Established(hash), rest))
                }
            },
        }
    }
}

/// The hash of the account of the native token.
pub const XAN_HASH: [u8; 20] = [0x78, 0x61, 0x6e, 0, 0, 0, 0, 0, 0, 0, 0, 0, 0, 0, 0, 0, 0, 0, 0, 0];

/// The address of the native token.
pub fn xan() -> (address: Address)
    ensures
        address == Address::Established(XAN_HASH),
{
    Address::Established(XAN_HASH)
}

} // verus!
