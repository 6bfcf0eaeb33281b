//! Encrypted payloads: the ciphertext that hides an inner transaction, the
//! keys that seal and open it, and its two wire forms.

use crate::crypto::{
    check_sealed, fresh_seed, g1_encoding, g2_encoding, generator_key, network_key, open_sealed,
    recode_g1, recode_g2, seal_with, sealed_check, sealed_opening, sealing,
};
use crate::identity::Epoch;
use crate::wire::{
    frame, lemma_frame_of_parse, lemma_parse_frame, parse_frame, put_frame, same_bytes,
    spec_option_view, take_frame, DataError,
};
use vstd::prelude::*;
use vstd::slice::slice_to_vec;

verus! {

/// The number of random bytes that one encryption draws.
pub const SEED_LEN: usize = 32;

/// Tests whether `bytes` are the encoding of a point of the first pairing
/// group. Bytes that decode to a point but are not what that point is
/// encoded as, such as an encoding with bytes behind it, are no encoding.
pub fn is_g1_encoding(bytes: &[u8]) -> (ok: bool)
    ensures
        ok == g1_encoding(bytes@),
{
    match recode_g1(bytes) {
        Some(canonical) => same_bytes(canonical.as_slice(), bytes),
        None => false,
    }
}

/// Tests whether `bytes` are the encoding of a point of the second pairing
/// group.
pub fn is_g2_encoding(bytes: &[u8]) -> (ok: bool)
    ensures
        ok == g2_encoding(bytes@),
{
    match recode_g2(bytes) {
        Some(canonical) => same_bytes(canonical.as_slice(), bytes),
        None => false,
    }
}

/// A key under which payloads are encrypted: a point of the first pairing
/// group, held in its encoding.
#[derive(Debug, PartialEq, Eq)]
pub struct EncryptionKey {
    bytes: Vec<u8>,
}

impl View for EncryptionKey {
    type V = Seq<u8>;

    closed spec fn view(&self) -> Seq<u8> {
        self.bytes@
    }
}

impl EncryptionKey {
    #[verifier::type_invariant]
    spec fn holds_encodings(self) -> bool {
        g1_encoding(self.bytes@)
    }

    /// The key that `bytes` encode, if they encode one.
    pub fn from_bytes(bytes: &[u8]) -> (key: Option<EncryptionKey>)
        ensures
            key.is_some() == g1_encoding(bytes@),
            key matches Some(k) ==> k@ == bytes@,
    {
        if is_g1_encoding(bytes) {
            Some(EncryptionKey { bytes: slice_to_vec(bytes) })
        } else {
            None
        }
    }

    /// The encoding of the key.
    pub fn as_bytes(&self) -> (bytes: &[u8])
        ensures
            bytes@ == self@,
            g1_encoding(bytes@),
    {
        proof {
            use_type_invariant(self);
        }
        self.bytes.as_slice()
    }
}

impl Clone for EncryptionKey {
    fn clone(&self) -> (copy: EncryptionKey)
        ensures
            copy@ == self@,
    {
        proof {
            use_type_invariant(self);
        }
        EncryptionKey { bytes: slice_to_vec(self.bytes.as_slice()) }
    }
}

/// A key that opens encrypted payloads: a point of the second pairing group,
/// held in its encoding.
#[derive(Debug, PartialEq, Eq)]
pub struct DecryptionKey {
    bytes: Vec<u8>,
}

impl View for DecryptionKey {
    type V = Seq<u8>;

    closed spec fn view(&self) -> Seq<u8> {
        self.bytes@
    }
}

impl DecryptionKey {
    #[verifier::type_invariant]
    spec fn holds_encodings(self) -> bool {
        g2_encoding(self.bytes@)
    }

    /// The key that `bytes` encode, if they encode one.
    pub fn from_bytes(bytes: &[u8]) -> (key: Option<DecryptionKey>)
        ensures
            key.is_some() == g2_encoding(bytes@),
            key matches Some(k) ==> k@ == bytes@,
    {
        if is_g2_encoding(bytes) {
            Some(DecryptionKey { bytes: slice_to_vec(bytes) })
        } else {
            None
        }
    }

    /// The encoding of the key.
    pub fn as_bytes(&self) -> (bytes: &[u8])
        ensures
            bytes@ == self@,
            g2_encoding(bytes@),
    {
        proof {
            use_type_invariant(self);
        }
        self.bytes.as_slice()
    }
}

impl Clone for DecryptionKey {
    fn clone(&self) -> (copy: DecryptionKey)
        ensures
            copy@ == self@,
    {
        proof {
            use_type_invariant(self);
        }
        DecryptionKey { bytes: slice_to_vec(self.bytes.as_slice()) }
    }
}

/// The key under which payloads are encrypted in `epoch`.
///
/// Every epoch has the same key for now: the generator of the first pairing
/// group.
pub fn lookup_encryption_key(epoch: Epoch) -> (key: EncryptionKey)
    ensures
        key@ == network_key(epoch.0),
{
    EncryptionKey { bytes: generator_key(epoch.0) }
}

/// An encrypted payload. The nonce and the authentication tag are curve
/// points, held in their encodings. A point has one encoding, so two
/// payloads are equal exactly where their points and encrypted bytes are.
#[derive(Debug, PartialEq, Eq)]
pub struct EncryptedTx {
    nonce: Vec<u8>,
    ciphertext: Vec<u8>,
    auth_tag: Vec<u8>,
}

/// What an encrypted payload holds.
pub struct EncryptedTxView {
    pub nonce: Seq<u8>,
    pub ciphertext: Seq<u8>,
    pub auth_tag: Seq<u8>,
}

impl View for EncryptedTx {
    type V = EncryptedTxView;

    closed spec fn view(&self) -> EncryptedTxView {
        EncryptedTxView {
            nonce: self.nonce@,
            ciphertext: self.ciphertext@,
            auth_tag: self.auth_tag@,
        }
    }
}

/// The view of what encryption gives.
pub open spec fn sealed_outcome(sealed: Option<EncryptedTx>) -> Option<EncryptedTxView> {
    match sealed {
        None => None,
        Some(payload) => Some(payload@),
    }
}

impl EncryptedTxView {
    /// The nonce and the authentication tag are encodings of curve points.
    pub open spec fn well_formed(self) -> bool {
        g1_encoding(self.nonce) && g2_encoding(self.auth_tag)
    }

    /// Each part is short enough for its frame.
    pub open spec fn encodable(self) -> bool {
        &&& self.nonce.len() <= u32::MAX
        &&& self.ciphertext.len() <= u32::MAX
        &&& self.auth_tag.len() <= u32::MAX
    }

    /// What encrypting `message` under `key` gives when the randomness of
    /// the scheme comes from `seed`: the payload of the three parts that
    /// the scheme gives, where it gives any and its nonce and
    /// authentication tag are encodings of curve points.
    pub open spec fn sealed(message: Seq<u8>, key: Seq<u8>, seed: Seq<u8>) -> Option<
        EncryptedTxView,
    > {
        match sealing(message, key, seed) {
            None => None,
            Some((nonce, ciphertext, auth_tag)) => {
                let payload = EncryptedTxView { nonce, ciphertext, auth_tag };
                if payload.well_formed() {
                    Some(payload)
                } else {
                    None
                }
            },
        }
    }

    /// Whether the payload passes the validity check of the scheme.
    pub open spec fn valid(self) -> bool {
        sealed_check(self.nonce, self.ciphertext, self.auth_tag)
    }

    /// What the payload decrypts to under `key`, if it does.
    pub open spec fn opening(self, key: Seq<u8>) -> Option<Seq<u8>> {
        sealed_opening(self.nonce, self.ciphertext, self.auth_tag, key)
    }

    /// The canonical binary form: the frames of the nonce, of the ciphertext
    /// and of the authentication tag, in that order.
    pub open spec fn wire(self) -> Seq<u8> {
        frame(self.nonce) + frame(self.ciphertext) + frame(self.auth_tag)
    }

    /// Reads a payload from the front of `input`: three frames, of which the
    /// first and the last must be encodings of curve points.
    pub open spec fn parse(input: Seq<u8>) -> Result<(EncryptedTxView, Seq<u8>), DataError> {
        match parse_frame(input) {
            None => Err(DataError::UnexpectedEnd),
            Some((nonce, after_nonce)) => match parse_frame(after_nonce) {
                None => Err(DataError::UnexpectedEnd),
                Some((ciphertext, after_ciphertext)) => match parse_frame(after_ciphertext) {
                    None => Err(DataError::UnexpectedEnd),
                    Some((auth_tag, rest)) => {
                        let payload = EncryptedTxView { nonce, ciphertext, auth_tag };
                        if payload.well_formed() {
                            Ok((payload, rest))
                        } else {
                            Err(DataError::Malformed)
                        }
                    },
                },
            },
        }
    }

    /// Reads a payload from the whole of `input`.
    pub open spec fn parse_all(input: Seq<u8>) -> Result<EncryptedTxView, DataError> {
        match Self::parse(input) {
            Err(e) => Err(e),
            Ok((payload, rest)) => if rest.len() == 0 {
                Ok(payload)
            } else {
                Err(DataError::TrailingBytes)
            },
        }
    }

    /// A payload is read back from its canonical binary form, whatever
    /// follows it.
    pub proof fn lemma_parse_wire(self, rest: Seq<u8>)
        requires
            self.well_formed(),
            self.encodable(),
        ensures
            Self::parse(self.wire() + rest) == Ok::<_, DataError>((self, rest)),
    {
        let after_nonce = frame(self.ciphertext) + frame(self.auth_tag) + rest;
        let after_ciphertext = frame(self.auth_tag) + rest;
        assert(self.wire() + rest == frame(self.nonce) + after_nonce);
        assert(after_nonce == frame(self.ciphertext) + after_ciphertext);
        lemma_parse_frame(self.nonce, after_nonce);
        lemma_parse_frame(self.ciphertext, after_ciphertext);
        lemma_parse_frame(self.auth_tag, rest);
    }

    /// The binary form is canonical: an input that is read as a payload is
    /// the canonical binary form of that payload, followed by the rest. No
    /// two byte strings are read as the same payload.
    pub proof fn lemma_wire_of_parse(input: Seq<u8>)
        requires
            Self::parse(input).is_ok(),
        ensures
            input == Self::parse(input).unwrap().0.wire() + Self::parse(input).unwrap().1,
            Self::parse(input).unwrap().0.well_formed(),
            Self::parse(input).unwrap().0.encodable(),
    {
        let (nonce, after_nonce) = parse_frame(input).unwrap();
        let (ciphertext, after_ciphertext) = parse_frame(after_nonce).unwrap();
        let (auth_tag, rest) = parse_frame(after_ciphertext).unwrap();
        lemma_frame_of_parse(input);
        lemma_frame_of_parse(after_nonce);
        lemma_frame_of_parse(after_ciphertext);
        assert(input == frame(nonce) + frame(ciphertext) + frame(auth_tag) + rest);
    }

    /// Writing a payload in either wire form and reading it again gives the
    /// same payload, which therefore opens to the same plaintext under every
    /// key. The opaque form of text interfaces holds the canonical binary
    /// form as its one field, so one statement covers both.
    pub proof fn lemma_round_trip(self)
        requires
            self.well_formed(),
            self.encodable(),
        ensures
            Self::parse_all(self.wire()) == Ok::<_, DataError>(self),
            forall|key: Seq<u8>|
                Self::parse_all(self.wire()).unwrap().opening(key) == #[trigger] self.opening(key),
    {
        self.lemma_parse_wire(Seq::empty());
        assert(self.wire() + Seq::<u8>::empty() == self.wire());
    }
}

impl EncryptedTx {
    #[verifier::type_invariant]
    spec fn holds_encodings(self) -> bool {
        g1_encoding(self.nonce@) && g2_encoding(self.auth_tag@)
    }

    /// A payload of the three given parts, where the nonce and the
    /// authentication tag are encodings of curve points.
    pub fn from_parts(nonce: Vec<u8>, ciphertext: Vec<u8>, auth_tag: Vec<u8>) -> (payload: Result<
        EncryptedTx,
        DataError,
    >)
        ensures
            payload.is_ok() == (g1_encoding(nonce@) && g2_encoding(auth_tag@)),
            payload matches Ok(p) ==> p@ == (EncryptedTxView {
                nonce: nonce@,
                ciphertext: ciphertext@,
                auth_tag: auth_tag@,
            }),
            payload matches Err(e) ==> e == DataError::Malformed,
    {
        if is_g1_encoding(nonce.as_slice()) && is_g2_encoding(auth_tag.as_slice()) {
            Ok(EncryptedTx { nonce, ciphertext, auth_tag })
        } else {
            Err(DataError::Malformed)
        }
    }

    /// The encoded nonce.
    pub fn nonce(&self) -> (bytes: &[u8])
        ensures
            bytes@ == self@.nonce,
    {
        self.nonce.as_slice()
    }

    /// The encrypted bytes.
    pub fn ciphertext(&self) -> (bytes: &[u8])
        ensures
            bytes@ == self@.ciphertext,
    {
        self.ciphertext.as_slice()
    }

    /// The encoded authentication tag.
    pub fn auth_tag(&self) -> (bytes: &[u8])
        ensures
            bytes@ == self@.auth_tag,
    {
        self.auth_tag.as_slice()
    }

    /// Encrypts a message to give a new ciphertext. Every call draws a fresh
    /// seed, so two calls on one message differ: the result is what
    /// `encrypt_with_seed` gives for this message, this key and some seed.
    /// `None` where the encryption scheme fails.
    pub fn encrypt(msg: &[u8], pubkey: &EncryptionKey) -> (sealed: Option<EncryptedTx>)
        ensures
            exists|seed: Seq<u8>|
                seed.len() == SEED_LEN && #[trigger] EncryptedTxView::sealed(msg@, pubkey@, seed)
                    == sealed_outcome(sealed),
    {
        let seed = fresh_seed();
        let sealed = EncryptedTx::encrypt_with_seed(msg, pubkey, &seed);
        assert(seed@.len() == SEED_LEN);
        assert(EncryptedTxView::sealed(msg@, pubkey@, seed@) == sealed_outcome(sealed));
        sealed
    }

    /// Encrypts a message with the randomness that `seed` fixes: the same
    /// message, key and seed give the same ciphertext. `None` where the
    /// encryption scheme fails.
    pub fn encrypt_with_seed(msg: &[u8], pubkey: &EncryptionKey, seed: &[u8; 32]) -> (sealed:
        Option<EncryptedTx>)
        ensures
            sealed_outcome(sealed) == EncryptedTxView::sealed(msg@, pubkey@, seed@),
    {
        match seal_with(msg, pubkey.as_bytes(), seed) {
            None => None,
            Some((nonce, ciphertext, auth_tag)) => {
                match EncryptedTx::from_parts(nonce, ciphertext, auth_tag) {
                    Ok(payload) => Some(payload),
                    Err(_) => None,
                }
            },
        }
    }

    /// Decrypts the payload and returns the message as raw bytes, or `None`
    /// where the payload does not open under `privkey`.
    pub fn decrypt(&self, privkey: &DecryptionKey) -> (plain: Option<Vec<u8>>)
        ensures
            spec_option_view(plain) == self@.opening(privkey@),
            plain.is_some() ==> self@.valid(),
    {
        proof {
            use_type_invariant(self);
        }
        open_sealed(
            self.nonce.as_slice(),
            self.ciphertext.as_slice(),
            self.auth_tag.as_slice(),
            privkey.as_bytes(),
        )
    }

    /// A validity check on the ciphertext. It needs no key, and says nothing
    /// of what the payload decrypts to nor of who made it.
    pub fn validate(&self) -> (ok: bool)
        ensures
            ok == self@.valid(),
    {
        proof {
            use_type_invariant(self);
        }
        check_sealed(self.nonce.as_slice(), self.ciphertext.as_slice(), self.auth_tag.as_slice())
    }

    /// Tests `encodable` at run time.
    pub fn is_encodable(&self) -> (ok: bool)
        ensures
            ok == self@.encodable(),
    {
        self.nonce.len() <= 0xffff_ffff && self.ciphertext.len() <= 0xffff_ffff
            && self.auth_tag.len() <= 0xffff_ffff
    }

    /// Appends the canonical binary form. A payload with a part too long
    /// for its frame is refused, and nothing is written.
    pub fn serialize(&self, out: &mut Vec<u8>) -> (written: Result<(), DataError>)
        ensures
            written.is_ok() == self@.encodable(),
            written.is_ok() ==> final(out)@ == old(out)@ + self@.wire(),
            written matches Err(e) ==> e == DataError::TooLong && final(out)@ == old(out)@,
    {
        if !self.is_encodable() {
            return Err(DataError::TooLong);
        }
        put_frame(out, self.nonce.as_slice());
        put_frame(out, self.ciphertext.as_slice());
        put_frame(out, self.auth_tag.as_slice());
        assert(out@ == old(out)@ + (frame(self.nonce@) + frame(self.ciphertext@) + frame(
            self.auth_tag@,
        )));
        Ok(())
    }

    /// The canonical binary form.
    pub fn try_to_vec(&self) -> (bytes: Result<Vec<u8>, DataError>)
        ensures
            bytes.is_ok() == self@.encodable(),
            bytes matches Ok(b) ==> b@ == self@.wire(),
            bytes matches Err(e) ==> e == DataError::TooLong,
    {
        let mut out: Vec<u8> = Vec::new();
        match self.serialize(&mut out) {
            Ok(()) => {
                assert(Seq::<u8>::empty() + self@.wire() == self@.wire());
                Ok(out)
            },
            Err(e) => Err(e),
        }
    }

    /// Reads a payload from the front of `input`, and hands back what
    /// follows it.
    pub fn deserialize<'a>(input: &'a [u8]) -> (read: Result<(EncryptedTx, &'a [u8]), DataError>)
        ensures
            match read {
                Ok((payload, rest)) => EncryptedTxView::parse(input@) == Ok::<_, DataError>(
                    (payload@, rest@),
                ),
                Err(e) => EncryptedTxView::parse(input@) == Err::<(EncryptedTxView, Seq<u8>), _>(
                    e,
                ),
            },
    {
        let (nonce, after_nonce) = match take_frame(input) {
            Some(taken) => taken,
            None => { return Err(DataError::UnexpectedEnd); },
        };
        let (ciphertext, after_ciphertext) = match take_frame(after_nonce) {
            Some(taken) => taken,
            None => { return Err(DataError::UnexpectedEnd); },
        };
        let (auth_tag, rest) = match take_frame(after_ciphertext) {
            Some(taken) => taken,
            None => { return Err(DataError::UnexpectedEnd); },
        };
        match EncryptedTx::from_parts(nonce, ciphertext, auth_tag) {
            Ok(payload) => Ok((payload, rest)),
            Err(e) => Err(e),
        }
    }

    /// Reads a payload from the whole of `input`.
    pub fn try_from_slice(input: &[u8]) -> (read: Result<EncryptedTx, DataError>)
        ensures
            match read {
                Ok(payload) => EncryptedTxView::parse_all(input@) == Ok::<_, DataError>(payload@),
                Err(e) => EncryptedTxView::parse_all(input@) == Err::<EncryptedTxView, _>(e),
            },
    {
        match EncryptedTx::deserialize(input) {
            Err(e) => Err(e),
            Ok((payload, rest)) => {
                if rest.len() == 0 {
                    Ok(payload)
                } else {
                    Err(DataError::TrailingBytes)
                }
            },
        }
    }
}

impl Clone for EncryptedTx {
    fn clone(&self) -> (copy: EncryptedTx)
        ensures
            copy@ == self@,
    {
        proof {
            use_type_invariant(self);
        }
        EncryptedTx {
            nonce: slice_to_vec(self.nonce.as_slice()),
            ciphertext: slice_to_vec(self.ciphertext.as_slice()),
            auth_tag: slice_to_vec(self.auth_tag.as_slice()),
        }
    }
}

/// An encrypted payload as one opaque blob, for text interfaces: the blob is
/// the canonical binary form.
#[derive(Clone, Debug, PartialEq, Eq)]
pub struct SerializedCiphertext {
    pub payload: Vec<u8>,
}

impl SerializedCiphertext {
    /// The blob of an encrypted payload.
    pub fn try_from_encrypted(tx: &EncryptedTx) -> (blob: Result<SerializedCiphertext, DataError>)
        ensures
            blob.is_ok() == tx@.encodable(),
            blob matches Ok(b) ==> b.payload@ == tx@.wire(),
            blob matches Err(e) ==> e == DataError::TooLong,
    {
        match tx.try_to_vec() {
            Ok(payload) => Ok(SerializedCiphertext { payload }),
            Err(e) => Err(e),
        }
    }

    /// The encrypted payload that the blob holds.
    pub fn try_into_encrypted(&self) -> (tx: Result<EncryptedTx, DataError>)
        ensures
            match tx {
                Ok(payload) => EncryptedTxView::parse_all(self.payload@) == Ok::<_, DataError>(
                    payload@,
                ),
                Err(e) => EncryptedTxView::parse_all(self.payload@) == Err::<EncryptedTxView, _>(
                    e,
                ),
            },
    {
        EncryptedTx::try_from_slice(self.payload.as_slice())
    }
}

} // verus!
