//! What holds of wrapper transactions across their operations: the wire
//! form is read back unchanged, the local checks look at the payload and
//! the commitment only, and the signed bytes hold the whole wrapper.

use crate::crypto::{ed25519_refusal, sha256_digest};
use crate::envelope::{SignedTxDataView, TxView};
use crate::identity::refusal_message;
use crate::payload::EncryptedTxView;
use crate::wire::{
    frame, lemma_parse_fixed, lemma_parse_frame, lemma_parse_word, word, DataError,
};
use crate::wrapper::{DecryptionErrView, FeeView, WrapperTxView};
use vstd::bytes::{lemma_auto_spec_u32_to_from_le_bytes, lemma_auto_spec_u64_to_from_le_bytes};
use vstd::prelude::*;

verus! {

impl FeeView {
    /// A fee is read back from its canonical binary form, whatever follows
    /// it.
    pub proof fn lemma_parse_wire(self, rest: Seq<u8>)
        requires
            self.well_formed(),
        ensures
            Self::parse(self.wire() + rest) == Ok::<_, DataError>((self, rest)),
    {
        let after_amount = self.token.wire() + rest;
        assert(self.wire() + rest == word(self.amount) + after_amount);
        lemma_parse_word(self.amount, after_amount);
        self.token.lemma_parse_wire(rest);
    }
}

impl WrapperTxView {
    /// The canonical binary form of a wrapper is far shorter than what a
    /// length of 64 bits can count.
    pub proof fn lemma_wire_len(self)
        requires
            self.well_formed(),
            self.encodable(),
        ensures
            self.wire().len() == 125 + self.inner_tx.nonce.len() + self.inner_tx.ciphertext.len()
                + self.inner_tx.auth_tag.len(),
            self.wire().len() <= u64::MAX,
    {
        lemma_auto_spec_u32_to_from_le_bytes();
        lemma_auto_spec_u64_to_from_le_bytes();
    }

    /// A wrapper is read back from its canonical binary form, whatever
    /// follows it.
    pub proof fn lemma_parse_wire(self, rest: Seq<u8>)
        requires
            self.well_formed(),
            self.encodable(),
        ensures
            Self::parse(self.wire() + rest) == Ok::<_, DataError>((self, rest)),
    {
        let after_inner = self.tx_hash + rest;
        let after_gas = self.inner_tx.wire() + after_inner;
        let after_epoch = self.gas_limit.wire() + after_gas;
        let after_pk = word(self.epoch) + after_epoch;
        let after_fee = frame(self.pk) + after_pk;
        assert(self.wire() + rest == self.fee.wire() + after_fee);
        self.fee.lemma_parse_wire(after_fee);
        lemma_parse_frame(self.pk, after_pk);
        lemma_parse_word(self.epoch, after_epoch);
        self.gas_limit.lemma_parse_wire(after_gas);
        self.inner_tx.lemma_parse_wire(after_inner);
        lemma_parse_fixed(self.tx_hash, rest);
    }

    /// Writing a wrapper and reading it again gives the same wrapper, which
    /// therefore passes the same checks and decrypts to the same
    /// transaction under every key.
    pub proof fn lemma_round_trip(self)
        requires
            self.well_formed(),
            self.encodable(),
        ensures
            Self::parse_all(self.wire()) == Ok::<_, DataError>(self),
            Self::parse_all(self.wire()).unwrap().validate_ciphertext()
                == self.validate_ciphertext(),
            forall|key: Seq<u8>|
                Self::parse_all(self.wire()).unwrap().decrypt(key) == #[trigger] self.decrypt(key),
    {
        self.lemma_parse_wire(Seq::empty());
        assert(self.wire() + Seq::<u8>::empty() == self.wire());
    }

    /// Two wrappers with the same canonical binary form are the same
    /// wrapper.
    pub proof fn lemma_wire_is_injective(self, other: WrapperTxView)
        requires
            self.well_formed(),
            self.encodable(),
            other.well_formed(),
            other.encodable(),
            self.wire() == other.wire(),
        ensures
            self == other,
    {
        self.lemma_round_trip();
        other.lemma_round_trip();
    }

    /// Where the payload of a wrapper opens under a key to the encoding of
    /// the transaction that the wrapper commits to, decryption under that
    /// key gives that transaction.
    pub proof fn lemma_decrypt_recovers_committed_tx(self, tx: TxView, key: Seq<u8>)
        requires
            tx.well_formed(),
            self.tx_hash == sha256_digest(tx.wire()),
            self.inner_tx.opening(key) == Some(tx.wire()),
        ensures
            self.decrypt(key) == Ok::<_, DecryptionErrView>(tx),
    {
        tx.lemma_round_trip();
    }

    /// A wrapper whose commitment was replaced by anything but the digest of
    /// what its payload opens to passes the check on the ciphertext exactly
    /// as before, and its decryption fails on the commitment.
    pub proof fn lemma_commitment_integrity(self, corrupted: Seq<u8>, key: Seq<u8>)
        requires
            self.inner_tx.opening(key) matches Some(opened) && corrupted != sha256_digest(opened),
        ensures
            (WrapperTxView { tx_hash: corrupted, ..self }).validate_ciphertext()
                == self.validate_ciphertext(),
            (WrapperTxView { tx_hash: corrupted, ..self }).decrypt(key) == Err::<TxView, _>(
                DecryptionErrView::DecryptedHash,
            ),
    {
    }

    /// Neither local check detects a consistent replacement: put any valid
    /// payload in place of the payload, and the digest of what it opens to
    /// in place of the commitment, and the wrapper passes the check on the
    /// ciphertext and decrypts to the replacement.
    pub proof fn lemma_consistent_replacement_passes(
        self,
        payload: EncryptedTxView,
        opened: Seq<u8>,
        key: Seq<u8>,
    )
        requires
            payload.valid(),
            payload.opening(key) == Some(opened),
            TxView::parse_all(opened).is_ok(),
        ensures
            (WrapperTxView {
                inner_tx: payload,
                tx_hash: sha256_digest(opened),
                ..self
            }).validate_ciphertext(),
            (WrapperTxView { inner_tx: payload, tx_hash: sha256_digest(opened), ..self }).decrypt(
                key,
            ) == Ok::<_, DecryptionErrView>(TxView::parse_all(opened).unwrap()),
    {
    }

    /// The bytes that a signature covers hold the whole wrapper: two
    /// wrappers that differ anywhere give different bytes to sign. A
    /// signature made for one is therefore checked against other bytes once
    /// any field has been replaced.
    pub proof fn lemma_signed_message_binds_wrapper(self, other: WrapperTxView)
        requires
            self.well_formed(),
            self.encodable(),
            other.well_formed(),
            other.encodable(),
            self != other,
        ensures
            self.signed_message() != other.signed_message(),
    {
        self.lemma_wire_len();
        other.lemma_wire_len();
        self.unsigned_envelope().lemma_round_trip();
        other.unsigned_envelope().lemma_round_trip();
        if self.signed_message() == other.signed_message() {
            assert(self.unsigned_envelope() == other.unsigned_envelope());
            assert(self.wire() == other.wire());
            self.lemma_wire_is_injective(other);
        }
    }

    /// Reading the envelope that carries a wrapper and a signature gives the
    /// wrapper back exactly where the verifier accepts the signature for the
    /// wrapper's own public key and the bytes that hold the whole wrapper,
    /// and otherwise fails with the verifier's message.
    pub proof fn lemma_read_signed_envelope(self, sig: Seq<u8>)
        requires
            self.well_formed(),
            self.encodable(),
            sig.len() == 64,
        ensures
            Self::from_envelope(self.signed_envelope(sig)) == match ed25519_refusal(
                self.pk,
                self.signed_message(),
                sig,
            ) {
                None => Ok::<_, DecryptionErrView>(self),
                Some(cause) => Err(DecryptionErrView::SigError(refusal_message(cause))),
            },
    {
        self.lemma_wire_len();
        let signed = SignedTxDataView { data: Some(self.wire()), sig };
        signed.lemma_round_trip();
        self.lemma_parse_wire(Seq::empty());
        assert(self.wire() + Seq::<u8>::empty() == self.wire());
    }
}

} // verus!
