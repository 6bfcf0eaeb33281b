//! The outer envelope in which transactions travel, and the signed data it
//! carries once it has been signed.

use crate::crypto::{ed25519_refusal, ed25519_signature};
use crate::identity::{sign, verify_signature_raw, Keypair, PublicKey, Signature, VerifySigError};
use crate::wire::{
    frame, lemma_parse_frame, lemma_parse_long_frame, lemma_parse_optional_frame, long_frame,
    optional_frame, parse_frame, parse_long_frame, parse_optional_frame, put_frame,
    put_long_frame, put_optional_frame, spec_option_view, take_fixed, take_frame,
    take_long_frame, take_optional_frame, DataError,
};
use vstd::prelude::*;
use vstd::slice::slice_to_vec;

verus! {

/// The number of bytes in a signature.
pub const SIGNATURE_LEN: usize = 64;

/// A transaction as it travels: code to run, and the data for it.
#[derive(Clone, Debug, PartialEq, Eq)]
pub struct Tx {
    pub code: Vec<u8>,
    pub data: Option<Vec<u8>>,
}

/// What a transaction holds.
pub struct TxView {
    pub code: Seq<u8>,
    pub data: Option<Seq<u8>>,
}

impl View for Tx {
    type V = TxView;

    open spec fn view(&self) -> TxView {
        TxView { code: self.code@, data: spec_option_view(self.data) }
    }
}

/// Data together with a signature over the transaction that held it.
#[derive(Clone, Debug, PartialEq, Eq)]
pub struct SignedTxData {
    pub data: Option<Vec<u8>>,
    pub sig: Signature,
}

/// What signed data holds.
pub struct SignedTxDataView {
    pub data: Option<Seq<u8>>,
    pub sig: Seq<u8>,
}

impl View for SignedTxData {
    type V = SignedTxDataView;

    open spec fn view(&self) -> SignedTxDataView {
        SignedTxDataView { data: spec_option_view(self.data), sig: self.sig@ }
    }
}

impl SignedTxDataView {
    /// The signature has the length of a signature.
    pub open spec fn well_formed(self) -> bool {
        self.sig.len() == SIGNATURE_LEN
    }

    /// The encoding: the optional data, then the frame of the signature.
    pub open spec fn wire(self) -> Seq<u8> {
        optional_frame(self.data) + frame(self.sig)
    }

    /// Reads signed data from the front of `input`.
    pub open spec fn parse(input: Seq<u8>) -> Result<(SignedTxDataView, Seq<u8>), DataError> {
        match parse_optional_frame(input) {
            Err(e) => Err(e),
            Ok((data, after_data)) => match parse_frame(after_data) {
                None => Err(DataError::UnexpectedEnd),
                Some((sig, rest)) => if sig.len() == SIGNATURE_LEN {
                    Ok((SignedTxDataView { data, sig }, rest))
                } else {
                    Err(DataError::Malformed)
                },
            },
        }
    }

    /// Reads signed data from the whole of `input`.
    pub open spec fn parse_all(input: Seq<u8>) -> Result<SignedTxDataView, DataError> {
        match Self::parse(input) {
            Err(e) => Err(e),
            Ok((signed, rest)) => if rest.len() == 0 {
                Ok(signed)
            } else {
                Err(DataError::TrailingBytes)
            },
        }
    }

    /// Signed data is read back from its encoding.
    pub proof fn lemma_round_trip(self)
        requires
            self.well_formed(),
            self.data matches Some(d) ==> d.len() <= u64::MAX,
        ensures
            Self::parse_all(self.wire()) == Ok::<_, DataError>(self),
    {
        lemma_parse_optional_frame(self.data, frame(self.sig));
        lemma_parse_frame(self.sig, Seq::empty());
        assert(frame(self.sig) + Seq::<u8>::empty() == frame(self.sig));
    }
}

impl SignedTxData {
    /// The encoding of the signed data.
    pub fn to_bytes(&self) -> (bytes: Vec<u8>)
        ensures
            bytes@ == self@.wire(),
    {
        let mut out: Vec<u8> = Vec::new();
        put_optional_frame(&mut out, &self.data);
        put_frame(&mut out, self.sig.bytes.as_slice());
        assert(out@ == optional_frame(self@.data) + frame(self@.sig));
        out
    }

    /// Reads signed data from the whole of `input`.
    pub fn try_from_slice(input: &[u8]) -> (read: Result<SignedTxData, DataError>)
        ensures
            match read {
                Ok(signed) => SignedTxDataView::parse_all(input@) == Ok::<_, DataError>(signed@),
                Err(e) => SignedTxDataView::parse_all(input@) == Err::<SignedTxDataView, _>(e),
            },
    {
        let (data, after_data) = match take_optional_frame(input) {
            Ok(taken) => taken,
            Err(e) => { return Err(e); },
        };
        let (sig, rest) = match take_frame(after_data) {
            Some(taken) => taken,
            None => { return Err(DataError::UnexpectedEnd); },
        };
        if sig.len() != 64 {
            return Err(DataError::Malformed);
        }
        let bytes = match take_fixed::<64>(sig.as_slice()) {
            Some((bytes, _)) => bytes,
            None => { return Err(DataError::Malformed); },
        };
        assert(bytes@ == sig@);
        if rest.len() != 0 {
            return Err(DataError::TrailingBytes);
        }
        Ok(SignedTxData { data, sig: Signature { bytes } })
    }
}

impl TxView {
    /// The code and the data are short enough to be held in memory.
    pub open spec fn well_formed(self) -> bool {
        &&& self.code.len() <= u64::MAX
        &&& self.data matches Some(d) ==> d.len() <= u64::MAX
    }

    /// The encoding: the long frame of the code, then the optional data.
    pub open spec fn wire(self) -> Seq<u8> {
        long_frame(self.code) + optional_frame(self.data)
    }

    /// Reads a transaction from the front of `input`.
    pub open spec fn parse(input: Seq<u8>) -> Result<(TxView, Seq<u8>), DataError> {
        match parse_long_frame(input) {
            None => Err(DataError::UnexpectedEnd),
            Some((code, after_code)) => match parse_optional_frame(after_code) {
                Err(e) => Err(e),
                Ok((data, rest)) => Ok((TxView { code, data }, rest)),
            },
        }
    }

    /// Reads a transaction from the whole of `input`.
    pub open spec fn parse_all(input: Seq<u8>) -> Result<TxView, DataError> {
        match Self::parse(input) {
            Err(e) => Err(e),
            Ok((tx, rest)) => if rest.len() == 0 {
                Ok(tx)
            } else {
                Err(DataError::TrailingBytes)
            },
        }
    }

    /// The transaction with its data replaced by signed data: the data it
    /// had, and a signature under `secret` over the encoding it had.
    pub open spec fn signed_with(self, secret: Seq<u8>) -> TxView {
        TxView {
            code: self.code,
            data: Some(
                SignedTxDataView {
                    data: self.data,
                    sig: ed25519_signature(secret, self.wire()),
                }.wire(),
            ),
        }
    }

    /// A transaction is read back from its encoding.
    pub proof fn lemma_round_trip(self)
        requires
            self.well_formed(),
        ensures
            Self::parse_all(self.wire()) == Ok::<_, DataError>(self),
    {
        lemma_parse_long_frame(self.code, optional_frame(self.data));
        lemma_parse_optional_frame(self.data, Seq::empty());
        assert(optional_frame(self.data) + Seq::<u8>::empty() == optional_frame(self.data));
    }
}

impl Tx {
    /// A transaction of the given code and data.
    pub fn new(code: Vec<u8>, data: Option<Vec<u8>>) -> (tx: Tx)
        ensures
            tx.code@ == code@,
            tx.data == data,
    {
        Tx { code, data }
    }

    /// The encoding of the transaction.
    pub fn to_bytes(&self) -> (bytes: Vec<u8>)
        ensures
            bytes@ == self@.wire(),
    {
        let mut out: Vec<u8> = Vec::new();
        put_long_frame(&mut out, self.code.as_slice());
        put_optional_frame(&mut out, &self.data);
        assert(out@ == long_frame(self@.code) + optional_frame(self@.data));
        out
    }

    /// Reads a transaction from the whole of `input`.
    pub fn try_from_slice(input: &[u8]) -> (read: Result<Tx, DataError>)
        ensures
            match read {
                Ok(tx) => TxView::parse_all(input@) == Ok::<_, DataError>(tx@),
                Err(e) => TxView::parse_all(input@) == Err::<TxView, _>(e),
            },
    {
        let (code, after_code) = match take_long_frame(input) {
            Some(taken) => taken,
            None => { return Err(DataError::UnexpectedEnd); },
        };
        let (data, rest) = match take_optional_frame(after_code) {
            Ok(taken) => taken,
            Err(e) => { return Err(e); },
        };
        if rest.len() != 0 {
            return Err(DataError::TrailingBytes);
        }
        Ok(Tx { code, data })
    }

    /// Signs the transaction: the signature covers the encoding of the
    /// transaction as it is, and the data becomes the signed data.
    pub fn sign(self, keypair: &Keypair) -> (signed: Tx)
        ensures
            signed@ == self@.signed_with(keypair.secret@),
    {
        let to_sign = self.to_bytes();
        let sig = sign(keypair, to_sign.as_slice());
        let signed = SignedTxData { data: self.data, sig };
        Tx { code: self.code, data: Some(signed.to_bytes()) }
    }
}

/// What `verify_tx_sig` decides: the data of `tx` must be signed data, and
/// the signature is checked against the transaction with the data that was
/// signed put back.
pub open spec fn tx_sig_refusal(pk: Seq<u8>, tx: TxView, sig: Seq<u8>) -> Option<Option<Seq<char>>> {
    match tx.data {
        None => None,
        Some(data) => match SignedTxDataView::parse_all(data) {
            Err(_) => None,
            Ok(signed) => Some(
                ed25519_refusal(pk, (TxView { code: tx.code, data: signed.data }).wire(), sig),
            ),
        },
    }
}

/// Checks `sig` against a signed transaction and the public key `pk`.
pub fn verify_tx_sig(pk: &PublicKey, tx: &Tx, sig: &Signature) -> (verdict: Result<
    (),
    VerifySigError,
>)
    ensures
        match verdict {
            Ok(()) => tx_sig_refusal(pk@, tx@, sig@) == Some(None::<Seq<char>>),
            Err(VerifySigError::MissingData) => tx_sig_refusal(pk@, tx@, sig@).is_none(),
            Err(VerifySigError::SigError(cause)) => tx_sig_refusal(pk@, tx@, sig@) == Some(
                Some(cause@),
            ),
        },
{
    let data = match &tx.data {
        Some(data) => data,
        None => { return Err(VerifySigError::MissingData); },
    };
    let signed = match SignedTxData::try_from_slice(data.as_slice()) {
        Ok(signed) => signed,
        Err(_) => { return Err(VerifySigError::MissingData); },
    };
    let unsigned = Tx { code: slice_to_vec(tx.code.as_slice()), data: signed.data };
    let message = unsigned.to_bytes();
    verify_signature_raw(pk, message.as_slice(), sig)
}

} // verus!
