//! Wrapper transactions: an encrypted inner transaction, a commitment to its
//! plaintext, and the fee and gas metadata that stay in the clear.
//!
//! A wrapper is not authentic by itself. The checks on the ciphertext and on
//! the commitment only look at the payload and the hash; what binds a
//! wrapper to its author is the signature of the envelope that carries it.

use crate::crypto::{ed25519_refusal, ed25519_signature, sha256, sha256_digest};
use crate::envelope::{SignedTxData, SignedTxDataView, Tx, TxView};
use crate::gas::{Amount, GasLimit};
use crate::identity::{
    refusal_message, verify_signature_raw, Address, AddressView, Epoch, Keypair, PublicKey,
    VerifySigError,
};
use crate::crypto::network_key;
use crate::payload::{
    lookup_encryption_key, sealed_outcome, DecryptionKey, EncryptedTx, EncryptedTxView,
    EncryptionKey, SEED_LEN,
};
use crate::wire::{
    frame, parse_fixed, parse_frame, parse_word, put_bytes, put_frame, put_word, same_bytes,
    take_fixed, take_frame, take_word, word, DataError,
};
use vstd::prelude::*;

verus! {

/// The number of bytes in a public key.
pub const PUBLIC_KEY_LEN: usize = 32;

/// The number of bytes in the commitment to the plaintext.
pub const HASH_LEN: usize = 32;

/// Errors relating to decrypting a wrapper tx and its encrypted payload from
/// a Tx type
#[derive(Clone, Debug, PartialEq, Eq)]
pub enum DecryptionErr {
    DecryptedHash,
    InvalidTx,
    InvalidWrapperTx,
    Unsigned,
    SigError(String),
}

/// What a decryption error holds.
pub enum DecryptionErrView {
    DecryptedHash,
    InvalidTx,
    InvalidWrapperTx,
    Unsigned,
    SigError(Seq<char>),
}

impl View for DecryptionErr {
    type V = DecryptionErrView;

    open spec fn view(&self) -> DecryptionErrView {
        match self {
            DecryptionErr::DecryptedHash => DecryptionErrView::DecryptedHash,
            DecryptionErr::InvalidTx => DecryptionErrView::InvalidTx,
            DecryptionErr::InvalidWrapperTx => DecryptionErrView::InvalidWrapperTx,
            DecryptionErr::Unsigned => DecryptionErrView::Unsigned,
            DecryptionErr::SigError(why) => DecryptionErrView::SigError(why@),
        }
    }
}

impl DecryptionErrView {
    /// The error in words.
    pub open spec fn message(self) -> Seq<char> {
        match self {
            DecryptionErrView::DecryptedHash => "The hash of the decrypted tx does not match the hash commitment"@,
            DecryptionErrView::InvalidTx => "The decryption did not produce a valid Tx"@,
            DecryptionErrView::InvalidWrapperTx => "The given Tx data did not contain a valid WrapperTx"@,
            DecryptionErrView::Unsigned => "Expected a valid signed WrapperTx data"@,
            DecryptionErrView::SigError(why) => why,
        }
    }
}

impl DecryptionErr {
    /// The error in words.
    pub fn message(&self) -> (text: String)
        ensures
            text@ == self@.message(),
    {
        match self {
            DecryptionErr::DecryptedHash => "The hash of the decrypted tx does not match the hash commitment".to_owned(),
            DecryptionErr::InvalidTx => "The decryption did not produce a valid Tx".to_owned(),
            DecryptionErr::InvalidWrapperTx => "The given Tx data did not contain a valid WrapperTx".to_owned(),
            DecryptionErr::Unsigned => "Expected a valid signed WrapperTx data".to_owned(),
            DecryptionErr::SigError(why) => why.clone(),
        }
    }
}

/// A tx data type to update an account's validity predicate
#[derive(Clone, Debug, PartialEq, Eq)]
pub struct UpdateVp {
    /// An address of the account
    pub addr: Address,
    /// The new VP code
    pub vp_code: Vec<u8>,
}

/// A fee is an amount of a specified token
#[derive(Clone, Copy, Debug, PartialEq, Eq)]
pub struct Fee {
    pub amount: Amount,
    pub token: Address,
}

/// What a fee holds.
pub struct FeeView {
    pub amount: u64,
    pub token: AddressView,
}

impl View for Fee {
    type V = FeeView;

    open spec fn view(&self) -> FeeView {
        FeeView { amount: self.amount.micro, token: self.token@ }
    }
}

impl FeeView {
    /// The token is a well-formed address.
    pub open spec fn well_formed(self) -> bool {
        self.token.well_formed()
    }

    /// The canonical binary form: the amount as an integer, then the token.
    pub open spec fn wire(self) -> Seq<u8> {
        word(self.amount) + self.token.wire()
    }

    /// Reads a fee from the front of `input`.
    pub open spec fn parse(input: Seq<u8>) -> Result<(FeeView, Seq<u8>), DataError> {
        match parse_word(input) {
            None => Err(DataError::UnexpectedEnd),
            Some((amount, after_amount)) => match AddressView::parse(after_amount) {
                Err(e) => Err(e),
                Ok((token, rest)) => Ok((FeeView { amount, token }, rest)),
            },
        }
    }
}

impl Fee {
    /// Appends the canonical binary form.
    pub fn serialize(&self, out: &mut Vec<u8>)
        ensures
            final(out)@ == old(out)@ + self@.wire(),
    {
        put_word(out, self.amount.micro);
        self.token.serialize(out);
        assert(out@ == old(out)@ + (word(self@.amount) + self@.token.wire()));
    }

    /// Reads a fee from the front of `input`, and hands back what follows
    /// it.
    pub fn deserialize<'a>(input: &'a [u8]) -> (read: Result<(Fee, &'a [u8]), DataError>)
        ensures
            match read {
                Ok((fee, rest)) => FeeView::parse(input@) == Ok::<_, DataError>((fee@, rest@)),
                Err(e) => FeeView::parse(input@) == Err::<(FeeView, Seq<u8>), _>(e),
            },
    {
        let (amount, after_amount) = match take_word(input) {
            Some(taken) => taken,
            None => { return Err(DataError::UnexpectedEnd); },
        };
        match Address::deserialize(after_amount) {
            Ok((token, rest)) => Ok((Fee { amount: Amount { micro: amount }, token }, rest)),
            Err(e) => Err(e),
        }
    }
}

/// A transaction with an encrypted payload as well as some non-encrypted
/// metadata for inclusion and / or verification purposes
#[derive(Clone, Debug)]
pub struct WrapperTx {
    /// The fee to be payed for including the tx
    pub fee: Fee,
    /// Used to determine an implicit account of the fee payer
    pub pk: PublicKey,
    /// The epoch in which the tx is to be submitted. This determines which
    /// decryption key will be used
    pub epoch: Epoch,
    /// Max amount of gas that can be used when executing the inner tx
    pub gas_limit: GasLimit,
    /// the encrypted payload
    pub inner_tx: EncryptedTx,
    /// sha-2 hash of the inner transaction acting as a commitment the
    /// contents of the encrypted payload
    pub tx_hash: [u8; 32],
}

/// What a wrapper transaction holds.
pub struct WrapperTxView {
    pub fee: FeeView,
    pub pk: Seq<u8>,
    pub epoch: u64,
    pub gas_limit: GasLimit,
    pub inner_tx: EncryptedTxView,
    pub tx_hash: Seq<u8>,
}

impl View for WrapperTx {
    type V = WrapperTxView;

    open spec fn view(&self) -> WrapperTxView {
        WrapperTxView {
            fee: self.fee@,
            pk: self.pk@,
            epoch: self.epoch.0,
            gas_limit: self.gas_limit,
            inner_tx: self.inner_tx@,
            tx_hash: self.tx_hash@,
        }
    }
}

/// The view of what construction gives.
pub open spec fn created_outcome(wrapper: Option<WrapperTx>) -> Option<WrapperTxView> {
    match wrapper {
        None => None,
        Some(w) => Some(w@),
    }
}

/// The view of what decryption gives.
pub open spec fn tx_outcome(outcome: Result<Tx, DecryptionErr>) -> Result<
    TxView,
    DecryptionErrView,
> {
    match outcome {
        Ok(tx) => Ok(tx@),
        Err(e) => Err(e@),
    }
}

/// The view of what reading an envelope gives.
pub open spec fn wrapper_outcome(outcome: Result<WrapperTx, DecryptionErr>) -> Result<
    WrapperTxView,
    DecryptionErrView,
> {
    match outcome {
        Ok(wrapper) => Ok(wrapper@),
        Err(e) => Err(e@),
    }
}

impl WrapperTxView {
    /// Every part has the shape its type gives it.
    pub open spec fn well_formed(self) -> bool {
        &&& self.fee.well_formed()
        &&& self.pk.len() == PUBLIC_KEY_LEN
        &&& self.inner_tx.well_formed()
        &&& self.tx_hash.len() == HASH_LEN
    }

    /// The gas value fits in 64 bits and each part of the payload in its
    /// frame.
    pub open spec fn encodable(self) -> bool {
        self.gas_limit.fits() && self.inner_tx.encodable()
    }

    /// The canonical binary form: the fee, the frame of the public key, the
    /// epoch, the gas limit, the payload and the commitment, in that order.
    pub open spec fn wire(self) -> Seq<u8> {
        self.fee.wire() + frame(self.pk) + word(self.epoch) + self.gas_limit.wire()
            + self.inner_tx.wire() + self.tx_hash
    }

    /// Reads a wrapper from the front of `input`.
    pub open spec fn parse(input: Seq<u8>) -> Result<(WrapperTxView, Seq<u8>), DataError> {
        match FeeView::parse(input) {
            Err(e) => Err(e),
            Ok((fee, after_fee)) => match parse_frame(after_fee) {
                None => Err(DataError::UnexpectedEnd),
                Some((pk, after_pk)) => if pk.len() != PUBLIC_KEY_LEN {
                    Err(DataError::Malformed)
                } else {
                    match parse_word(after_pk) {
                        None => Err(DataError::UnexpectedEnd),
                        Some((epoch, after_epoch)) => match GasLimit::parse(after_epoch) {
                            Err(e) => Err(e),
                            Ok((gas_limit, after_gas)) => match EncryptedTxView::parse(after_gas) {
                                Err(e) => Err(e),
                                Ok((inner_tx, after_inner)) => match parse_fixed(
                                    after_inner,
                                    HASH_LEN as nat,
                                ) {
                                    None => Err(DataError::UnexpectedEnd),
                                    Some((tx_hash, rest)) => Ok(
                                        (
                                            WrapperTxView {
                                                fee,
                                                pk,
                                                epoch,
                                                gas_limit,
                                                inner_tx,
                                                tx_hash,
                                            },
                                            rest,
                                        ),
                                    ),
                                },
                            },
                        },
                    }
                },
            },
        }
    }

    /// Reads a wrapper from the whole of `input`.
    pub open spec fn parse_all(input: Seq<u8>) -> Result<WrapperTxView, DataError> {
        match Self::parse(input) {
            Err(e) => Err(e),
            Ok((wrapper, rest)) => if rest.len() == 0 {
                Ok(wrapper)
            } else {
                Err(DataError::TrailingBytes)
            },
        }
    }

    /// The wrapper that construction gives when encryption draws its
    /// randomness from `seed`: the metadata as given, the encoding of `tx`
    /// encrypted under `key` as the payload, and the digest of that encoding
    /// as the commitment. There is none where encryption gives no payload.
    pub open spec fn created(
        fee: FeeView,
        pk: Seq<u8>,
        epoch: u64,
        gas_limit: GasLimit,
        tx: TxView,
        key: Seq<u8>,
        seed: Seq<u8>,
    ) -> Option<WrapperTxView> {
        match EncryptedTxView::sealed(tx.wire(), key, seed) {
            None => None,
            Some(inner_tx) => Some(
                WrapperTxView {
                    fee,
                    pk,
                    epoch,
                    gas_limit,
                    inner_tx,
                    tx_hash: sha256_digest(tx.wire()),
                },
            ),
        }
    }

    /// Whether the payload passes the validity check of the encryption
    /// scheme. The commitment plays no part in it.
    pub open spec fn validate_ciphertext(self) -> bool {
        self.inner_tx.valid()
    }

    /// What becomes of opened bytes: they must hash to the commitment, and
    /// then be the encoding of a transaction.
    pub open spec fn accept_opened(commitment: Seq<u8>, digest: Seq<u8>, opened: Seq<u8>) -> Result<
        TxView,
        DecryptionErrView,
    > {
        if digest != commitment {
            Err(DecryptionErrView::DecryptedHash)
        } else {
            match TxView::parse_all(opened) {
                Ok(tx) => Ok(tx),
                Err(_) => Err(DecryptionErrView::InvalidTx),
            }
        }
    }

    /// What decryption under `key` gives. A payload that does not open has
    /// no plaintext to match the commitment.
    pub open spec fn decrypt(self, key: Seq<u8>) -> Result<TxView, DecryptionErrView> {
        match self.inner_tx.opening(key) {
            None => Err(DecryptionErrView::DecryptedHash),
            Some(opened) => Self::accept_opened(self.tx_hash, sha256_digest(opened), opened),
        }
    }

    /// The envelope that is signed: no code, and the wrapper as its data.
    pub open spec fn unsigned_envelope(self) -> TxView {
        TxView { code: Seq::empty(), data: Some(self.wire()) }
    }

    /// The bytes that the signature covers: the encoding of the unsigned
    /// envelope, which holds the whole of the wrapper.
    pub open spec fn signed_message(self) -> Seq<u8> {
        self.unsigned_envelope().wire()
    }

    /// The envelope that travels: no code, and as its data the wrapper
    /// together with the signature `sig`.
    pub open spec fn signed_envelope(self, sig: Seq<u8>) -> TxView {
        TxView {
            code: Seq::empty(),
            data: Some(SignedTxDataView { data: Some(self.wire()), sig }.wire()),
        }
    }

    /// What reading an envelope gives. In this order: the data of the
    /// envelope must be signed data that holds inner data; the inner data
    /// must start with a wrapper; and the signature must be accepted for the
    /// wrapper's own public key and the envelope with the inner data put
    /// back.
    pub open spec fn from_envelope(tx: TxView) -> Result<WrapperTxView, DecryptionErrView> {
        match tx.data {
            None => Err(DecryptionErrView::Unsigned),
            Some(signed_bytes) => match SignedTxDataView::parse_all(signed_bytes) {
                Err(_) => Err(DecryptionErrView::Unsigned),
                Ok(signed) => match signed.data {
                    None => Err(DecryptionErrView::Unsigned),
                    Some(inner) => match Self::parse(inner) {
                        Err(_) => Err(DecryptionErrView::InvalidWrapperTx),
                        Ok((wrapper, _)) => match ed25519_refusal(
                            wrapper.pk,
                            (TxView { code: tx.code, data: Some(inner) }).wire(),
                            signed.sig,
                        ) {
                            None => Ok(wrapper),
                            Some(cause) => Err(
                                DecryptionErrView::SigError(refusal_message(cause)),
                            ),
                        },
                    },
                },
            },
        }
    }
}

impl WrapperTx {
    /// Create a new wrapper tx from unencrypted tx, the personal keypair,
    /// and the metadata surrounding the inclusion of the tx. This method
    /// commits to the transaction and encrypts it under the key that
    /// `lookup_encryption_key` gives for `epoch`, with a fresh seed. `None`
    /// where the encryption scheme fails.
    pub fn new(fee: Fee, keypair: &Keypair, epoch: Epoch, gas_limit: GasLimit, tx: Tx) -> (wrapper:
        Option<WrapperTx>)
        ensures
            exists|seed: Seq<u8>|
                seed.len() == SEED_LEN && #[trigger] WrapperTxView::created(
                    fee@,
                    keypair.public@,
                    epoch.0,
                    gas_limit,
                    tx@,
                    network_key(epoch.0),
                    seed,
                ) == created_outcome(wrapper),
    {
        let pubkey = lookup_encryption_key(epoch);
        WrapperTx::new_with_key(fee, keypair, epoch, gas_limit, tx, &pubkey)
    }

    /// As `new`, for a caller that has looked up the encryption key of the
    /// epoch itself.
    pub fn new_with_key(
        fee: Fee,
        keypair: &Keypair,
        epoch: Epoch,
        gas_limit: GasLimit,
        tx: Tx,
        pubkey: &EncryptionKey,
    ) -> (wrapper: Option<WrapperTx>)
        ensures
            exists|seed: Seq<u8>|
                seed.len() == SEED_LEN && #[trigger] WrapperTxView::created(
                    fee@,
                    keypair.public@,
                    epoch.0,
                    gas_limit,
                    tx@,
                    pubkey@,
                    seed,
                ) == created_outcome(wrapper),
    {
        let plain = tx.to_bytes();
        let sealed = EncryptedTx::encrypt(plain.as_slice(), pubkey);
        let ghost seed = choose|seed: Seq<u8>|
            seed.len() == SEED_LEN && #[trigger] EncryptedTxView::sealed(plain@, pubkey@, seed)
                == sealed_outcome(sealed);
        let tx_hash = sha256(plain.as_slice());
        let wrapper = WrapperTx::assemble(fee, keypair.public, epoch, gas_limit, sealed, tx_hash);
        assert(WrapperTxView::created(
            fee@,
            keypair.public@,
            epoch.0,
            gas_limit,
            tx@,
            pubkey@,
            seed,
        ) == created_outcome(wrapper));
        wrapper
    }

    /// The wrapper of the given parts, where there is a payload.
    pub fn assemble(
        fee: Fee,
        pk: PublicKey,
        epoch: Epoch,
        gas_limit: GasLimit,
        sealed: Option<EncryptedTx>,
        tx_hash: [u8; 32],
    ) -> (wrapper: Option<WrapperTx>)
        ensures
            wrapper.is_some() == sealed.is_some(),
            wrapper matches Some(w) ==> w.fee == fee && w.pk == pk && w.epoch == epoch
                && w.gas_limit == gas_limit && Some(w.inner_tx) == sealed && w.tx_hash == tx_hash,
    {
        match sealed {
            None => None,
            Some(inner_tx) => Some(WrapperTx { fee, pk, epoch, gas_limit, inner_tx, tx_hash }),
        }
    }

    /// Get the address of the implicit account associated with the public
    /// key
    pub fn fee_payer(&self) -> (payer: Address)
        ensures
            payer@ == AddressView::of_public_key(self@.pk),
    {
        Address::from_public_key(&self.pk)
    }

    /// A validity check on the ciphertext.
    pub fn validate_ciphertext(&self) -> (ok: bool)
        ensures
            ok == self@.validate_ciphertext(),
    {
        self.inner_tx.validate()
    }

    /// Decrypt the wrapped transaction.
    ///
    /// Will fail if the inner transaction does match the hash commitment or
    /// we are unable to recover a valid Tx from the decoded byte stream.
    pub fn decrypt(&self, privkey: &DecryptionKey) -> (outcome: Result<Tx, DecryptionErr>)
        ensures
            tx_outcome(outcome) == self@.decrypt(privkey@),
    {
        match self.inner_tx.decrypt(privkey) {
            None => Err(DecryptionErr::DecryptedHash),
            Some(opened) => {
                let digest = sha256(opened.as_slice());
                WrapperTx::accept_opened(&self.tx_hash, &digest, opened.as_slice())
            },
        }
    }

    /// Decides what becomes of opened bytes, given their digest and the
    /// commitment.
    pub fn accept_opened(commitment: &[u8; 32], digest: &[u8; 32], opened: &[u8]) -> (outcome:
        Result<Tx, DecryptionErr>)
        ensures
            tx_outcome(outcome) == WrapperTxView::accept_opened(commitment@, digest@, opened@),
    {
        if !same_bytes(digest.as_slice(), commitment.as_slice()) {
            Err(DecryptionErr::DecryptedHash)
        } else {
            match Tx::try_from_slice(opened) {
                Ok(tx) => Ok(tx),
                Err(_) => Err(DecryptionErr::InvalidTx),
            }
        }
    }

    /// Tests `encodable` at run time.
    pub fn is_encodable(&self) -> (ok: bool)
        ensures
            ok == self@.encodable(),
    {
        self.gas_limit.is_representable() && self.inner_tx.is_encodable()
    }

    /// Appends the canonical binary form. A wrapper that is not encodable is
    /// refused, and nothing is written.
    pub fn serialize(&self, out: &mut Vec<u8>) -> (written: Result<(), DataError>)
        ensures
            written.is_ok() == self@.encodable(),
            written.is_ok() ==> final(out)@ == old(out)@ + self@.wire(),
            written matches Err(e) ==> e == DataError::TooLong && final(out)@ == old(out)@,
    {
        if !self.is_encodable() {
            return Err(DataError::TooLong);
        }
        self.fee.serialize(out);
        put_frame(out, self.pk.bytes.as_slice());
        put_word(out, self.epoch.0);
        let _ = self.gas_limit.serialize(out);
        let _ = self.inner_tx.serialize(out);
        put_bytes(out, self.tx_hash.as_slice());
        assert(out@ == old(out)@ + (self@.fee.wire() + frame(self@.pk) + word(self@.epoch)
            + self@.gas_limit.wire() + self@.inner_tx.wire() + self@.tx_hash));
        Ok(())
    }

    /// The canonical binary form.
    pub fn try_to_vec(&self) -> (bytes: Result<Vec<u8>, DataError>)
        ensures
            bytes.is_ok() == self@.encodable(),
            bytes matches Ok(b) ==> b@ == self@.wire(),
            bytes matches Err(e) ==> e == DataError::TooLong,
    {
        let mut out: Vec<u8> = Vec::new();
        match self.serialize(&mut out) {
            Ok(()) => {
                assert(Seq::<u8>::empty() + self@.wire() == self@.wire());
                Ok(out)
            },
            Err(e) => Err(e),
        }
    }

    /// Reads a wrapper from the front of `input`, and hands back what
    /// follows it.
    pub fn deserialize<'a>(input: &'a [u8]) -> (read: Result<(WrapperTx, &'a [u8]), DataError>)
        ensures
            match read {
                Ok((wrapper, rest)) => WrapperTxView::parse(input@) == Ok::<_, DataError>(
                    (wrapper@, rest@),
                ),
                Err(e) => WrapperTxView::parse(input@) == Err::<(WrapperTxView, Seq<u8>), _>(e),
            },
    {
        let (fee, after_fee) = match Fee::deserialize(input) {
            Ok(read) => read,
            Err(e) => { return Err(e); },
        };
        let (pk_bytes, after_pk) = match take_frame(after_fee) {
            Some(taken) => taken,
            None => { return Err(DataError::UnexpectedEnd); },
        };
        if pk_bytes.len() != 32 {
            return Err(DataError::Malformed);
        }
        let pk = match take_fixed::<32>(pk_bytes.as_slice()) {
            Some((bytes, _)) => PublicKey { bytes },
            None => { return Err(DataError::Malformed); },
        };
        assert(pk@ == pk_bytes@);
        let (epoch, after_epoch) = match take_word(after_pk) {
            Some(taken) => taken,
            None => { return Err(DataError::UnexpectedEnd); },
        };
        let (gas_limit, after_gas) = match GasLimit::deserialize(after_epoch) {
            Ok(read) => read,
            Err(e) => { return Err(e); },
        };
        let (inner_tx, after_inner) = match EncryptedTx::deserialize(after_gas) {
            Ok(read) => read,
            Err(e) => { return Err(e); },
        };
        let (tx_hash, rest) = match take_fixed::<32>(after_inner) {
            Some(taken) => taken,
            None => { return Err(DataError::UnexpectedEnd); },
        };
        Ok((WrapperTx { fee, pk, epoch: Epoch(epoch), gas_limit, inner_tx, tx_hash }, rest))
    }

    /// Reads a wrapper from the whole of `input`.
    pub fn try_from_slice(input: &[u8]) -> (read: Result<WrapperTx, DataError>)
        ensures
            match read {
                Ok(wrapper) => WrapperTxView::parse_all(input@) == Ok::<_, DataError>(wrapper@),
                Err(e) => WrapperTxView::parse_all(input@) == Err::<WrapperTxView, _>(e),
            },
    {
        match WrapperTx::deserialize(input) {
            Err(e) => Err(e),
            Ok((wrapper, rest)) => {
                if rest.len() == 0 {
                    Ok(wrapper)
                } else {
                    Err(DataError::TrailingBytes)
                }
            },
        }
    }

    /// Sign the wrapper transaction and convert to a normal Tx type
    pub fn sign(&self, keypair: &Keypair) -> (signed: Tx)
        requires
            self@.encodable(),
        ensures
            signed@ == self@.signed_envelope(
                ed25519_signature(keypair.secret@, self@.signed_message()),
            ),
    {
        let mut data: Vec<u8> = Vec::new();
        let _ = self.serialize(&mut data);
        assert(data@ == self@.wire());
        Tx::new(Vec::new(), Some(data)).sign(keypair)
    }

    /// Settles what reading an envelope gives once the signature has been
    /// checked: the wrapper where it was accepted, and the verifier's
    /// message where it was not.
    pub fn conclude(wrapper: WrapperTx, verdict: Result<(), VerifySigError>) -> (outcome: Result<
        WrapperTx,
        DecryptionErr,
    >)
        ensures
            verdict.is_ok() ==> outcome == Ok::<_, DecryptionErr>(wrapper),
            verdict matches Err(e) ==> outcome matches Err(DecryptionErr::SigError(why))
                && why@ == e.spec_message(),
    {
        match verdict {
            Ok(()) => Ok(wrapper),
            Err(e) => Err(DecryptionErr::SigError(e.message())),
        }
    }

    /// We only accept the conversion of a Tx to a Wrapper Tx if
    /// 1. The Tx data deserializes to a WrapperTx type
    /// 2. The wrapper tx is signed
    /// 3. The signature is valid
    pub fn try_from(tx: Tx) -> (outcome: Result<WrapperTx, DecryptionErr>)
        ensures
            wrapper_outcome(outcome) == WrapperTxView::from_envelope(tx@),
    {
        let signed = match &tx.data {
            None => { return Err(DecryptionErr::Unsigned); },
            Some(signed_bytes) => match SignedTxData::try_from_slice(signed_bytes.as_slice()) {
                Ok(signed) => signed,
                Err(_) => { return Err(DecryptionErr::Unsigned); },
            },
        };
        let inner = match signed.data {
            Some(inner) => inner,
            None => { return Err(DecryptionErr::Unsigned); },
        };
        let wrapper = match WrapperTx::deserialize(inner.as_slice()) {
            Ok((wrapper, _)) => wrapper,
            Err(_) => { return Err(DecryptionErr::InvalidWrapperTx); },
        };
        let unsigned = Tx { code: tx.code, data: Some(inner) };
        let message = unsigned.to_bytes();
        let verdict = verify_signature_raw(&wrapper.pk, message.as_slice(), &signed.sig);
        WrapperTx::conclude(wrapper, verdict)
    }
}

} // verus!
