use ark_bls12_381::G2Affine;
use ark_ec::AffineRepr;
use ark_serialize::CanonicalSerialize;
use rand::RngCore;
use sha2::{Digest, Sha256};
use wrapper_tx::envelope::{verify_tx_sig, SignedTxData, Tx};
use wrapper_tx::gas::{Amount, GasLimit};
use wrapper_tx::identity::{xan, Address, Epoch, Keypair, Signature, VerifySigError};
use wrapper_tx::payload::{lookup_encryption_key, DecryptionKey, EncryptedTx};
use wrapper_tx::wire::DataError;
use wrapper_tx::wrapper::{DecryptionErr, Fee, UpdateVp, WrapperTx};

fn gen_keypair() -> Keypair {
    let mut secret = [0u8; 32];
    rand::thread_rng().fill_bytes(&mut secret);
    Keypair::from_secret(secret)
}

/// The trivial private key: the generator of the second group.
fn trivial_privkey() -> DecryptionKey {
    let mut bytes = Vec::new();
    G2Affine::generator().serialize_compressed(&mut bytes).expect("Test failed");
    DecryptionKey::from_bytes(&bytes).expect("Test failed")
}

fn sample_tx() -> Tx {
    Tx::new(
        "wasm code".as_bytes().to_owned(),
        Some("transaction data".as_bytes().to_owned()),
    )
}

fn sample_wrapper(keypair: &Keypair) -> WrapperTx {
    WrapperTx::new(
        Fee { amount: 10.into(), token: xan() },
        keypair,
        Epoch(0),
        0.into(),
        sample_tx(),
    )
    .expect("Test failed")
}

fn digest_of(bytes: &[u8]) -> [u8; 32] {
    let digest = Sha256::digest(bytes);
    let mut hash_bytes = [0u8; 32];
    hash_bytes.copy_from_slice(&digest);
    hash_bytes
}

/// We test that when we feed in a Tx and then decrypt it again
/// that we get what we started with.
#[test]
fn test_encryption_round_trip() {
    let keypair = gen_keypair();
    let tx = Tx::new(
        "wasm code".as_bytes().to_owned(),
        Some("transaction data".as_bytes().to_owned()),
    );

    let wrapper = WrapperTx::new(
        Fee { amount: 10.into(), token: xan() },
        &keypair,
        Epoch(0),
        0.into(),
        tx.clone(),
    )
    .expect("Test failed");
    assert!(wrapper.validate_ciphertext());
    let privkey = trivial_privkey();
    let decrypted = wrapper.decrypt(&privkey).expect("Test failed");
    assert_eq!(tx, decrypted);
}

/// We test that when we try to decrpyt a tx and it
/// does not match the commitment, an error is returned
#[test]
fn test_decryption_invalid_hash() {
    let tx = Tx::new(
        "wasm code".as_bytes().to_owned(),
        Some("transaction data".as_bytes().to_owned()),
    );

    let mut wrapper = WrapperTx::new(
        Fee { amount: 10.into(), token: xan() },
        &gen_keypair(),
        Epoch(0),
        0.into(),
        tx,
    )
    .expect("Test failed");
    // give a incorrect commitment to the decrypted contents of the tx
    wrapper.tx_hash = [0u8; 32];
    assert!(wrapper.validate_ciphertext());
    let privkey = trivial_privkey();
    let err = wrapper.decrypt(&privkey).expect_err("Test failed");
    assert_eq!(err, DecryptionErr::DecryptedHash);
}

/// We check that even if the encrypted payload and has of its
/// contents are correctly changed, we detect fraudulent activity
/// via the signature.
#[test]
fn test_malleability_attack_detection() {
    let pubkey = lookup_encryption_key(Epoch(0));
    let keypair = gen_keypair();
    // The intendend tx
    let tx = Tx::new(
        "wasm code".as_bytes().to_owned(),
        Some("transaction data".as_bytes().to_owned()),
    );
    // the signed tx
    let mut tx = WrapperTx::new(
        Fee { amount: 10.into(), token: xan() },
        &keypair,
        Epoch(0),
        0.into(),
        tx,
    )
    .expect("Test failed")
    .sign(&keypair);

    // we now try to alter the inner tx maliciously
    let mut wrapper = WrapperTx::try_from(tx.clone()).expect("Test failed");
    let mut signed_tx_data =
        SignedTxData::try_from_slice(&tx.data.unwrap()[..]).expect("Test failed");

    // malicious transaction
    let malicious = Tx::new("Give me all the money".as_bytes().to_owned(), None);

    // We replace the inner tx with a malicious one
    wrapper.inner_tx =
        EncryptedTx::encrypt(&malicious.to_bytes(), &pubkey).expect("Test failed");

    // We change the commitment appropriately
    let digest = Sha256::digest(&malicious.to_bytes());
    let mut hash_bytes = [0u8; 32];
    hash_bytes.copy_from_slice(&digest);
    wrapper.tx_hash = hash_bytes;

    // we check ciphertext validity still passes
    assert!(wrapper.validate_ciphertext());
    // we check that decryption still succeeds
    let decrypted = wrapper.decrypt(&trivial_privkey()).expect("Test failed");
    assert_eq!(decrypted, malicious);

    // we substitute in the modified wrapper
    signed_tx_data.data = Some(wrapper.try_to_vec().expect("Test failed"));
    tx.data = Some(signed_tx_data.to_bytes());

    // check that the signature is not valid
    verify_tx_sig(&keypair.public, &tx, &signed_tx_data.sig).expect_err("Test failed");
    // check that the try from method also fails
    let err = WrapperTx::try_from(tx).expect_err("Test failed");
    assert_eq!(
        err,
        DecryptionErr::SigError("Signature verification failed: signature error".into())
    );
}

#[test]
fn a_new_wrapper_holds_what_it_was_given() {
    let keypair = gen_keypair();
    let wrapper = WrapperTx::new(
        Fee { amount: 10.into(), token: xan() },
        &keypair,
        Epoch(3),
        1_500_000.into(),
        sample_tx(),
    )
    .unwrap();
    assert_eq!(wrapper.fee, Fee { amount: Amount::from(10u64), token: xan() });
    assert_eq!(wrapper.pk, keypair.public);
    assert_eq!(wrapper.epoch, Epoch(3));
    assert_eq!(wrapper.gas_limit, GasLimit { multiplier: 2 });
    assert_eq!(wrapper.tx_hash, digest_of(&sample_tx().to_bytes()));
    assert_ne!(wrapper.inner_tx.ciphertext(), &sample_tx().to_bytes()[..]);
}

#[test]
fn the_encryption_key_can_be_handed_in() {
    let keypair = gen_keypair();
    let key = lookup_encryption_key(Epoch(0));
    let wrapper = WrapperTx::new_with_key(
        Fee { amount: 10.into(), token: xan() },
        &keypair,
        Epoch(0),
        0.into(),
        sample_tx(),
        &key,
    )
    .unwrap();
    assert_eq!(wrapper.pk, keypair.public);
    assert_eq!(wrapper.tx_hash, digest_of(&sample_tx().to_bytes()));
    assert!(wrapper.validate_ciphertext());
    assert_eq!(wrapper.decrypt(&trivial_privkey()), Ok(sample_tx()));
}

#[test]
fn a_wrapper_needs_a_payload() {
    let keypair = gen_keypair();
    let none = WrapperTx::assemble(
        Fee { amount: 1.into(), token: xan() },
        keypair.public,
        Epoch(0),
        0.into(),
        None,
        [0u8; 32],
    );
    assert!(none.is_none());
    let payload = EncryptedTx::encrypt(b"x", &lookup_encryption_key(Epoch(0))).unwrap();
    let some = WrapperTx::assemble(
        Fee { amount: 1.into(), token: xan() },
        keypair.public,
        Epoch(9),
        GasLimit { multiplier: 4 },
        Some(payload.clone()),
        [8u8; 32],
    )
    .unwrap();
    assert_eq!(some.inner_tx, payload);
    assert_eq!(some.tx_hash, [8u8; 32]);
    assert_eq!(some.epoch, Epoch(9));
    assert_eq!(some.gas_limit, GasLimit { multiplier: 4 });
}

#[test]
fn the_fee_payer_is_the_implicit_account_of_the_key() {
    let keypair = gen_keypair();
    let wrapper = sample_wrapper(&keypair);
    let payer = wrapper.fee_payer();
    assert_eq!(payer, Address::from_public_key(&keypair.public));
    let digest = digest_of(&keypair.public.bytes);
    let mut hash = [0u8; 20];
    hash.copy_from_slice(&digest[..20]);
    assert_eq!(payer, Address::Implicit(hash));
}

#[test]
fn the_commitment_is_compared_before_the_bytes_are_read() {
    let tx = sample_tx();
    let bytes = tx.to_bytes();
    let digest = digest_of(&bytes);
    assert_eq!(WrapperTx::accept_opened(&digest, &digest, &bytes), Ok(tx));
    let mut other = digest;
    other[31] ^= 1;
    assert_eq!(
        WrapperTx::accept_opened(&other, &digest, &bytes),
        Err(DecryptionErr::DecryptedHash)
    );
    // bytes that are no transaction, with a commitment that matches them
    let junk = [1u8, 2, 3];
    let junk_digest = digest_of(&junk);
    assert_eq!(
        WrapperTx::accept_opened(&junk_digest, &junk_digest, &junk),
        Err(DecryptionErr::InvalidTx)
    );
    // and with one that does not: the commitment is what fails
    assert_eq!(
        WrapperTx::accept_opened(&digest, &junk_digest, &junk),
        Err(DecryptionErr::DecryptedHash)
    );
}

#[test]
fn decrypting_what_is_no_transaction_fails() {
    let keypair = gen_keypair();
    let mut wrapper = sample_wrapper(&keypair);
    let junk = b"not a transaction";
    wrapper.inner_tx = EncryptedTx::encrypt(junk, &lookup_encryption_key(Epoch(0))).unwrap();
    wrapper.tx_hash = digest_of(junk);
    assert!(wrapper.validate_ciphertext());
    assert_eq!(wrapper.decrypt(&trivial_privkey()), Err(DecryptionErr::InvalidTx));
}

#[test]
fn a_payload_that_does_not_open_fails_on_the_commitment() {
    let keypair = gen_keypair();
    let wrapper = sample_wrapper(&keypair);
    let mut doubled = Vec::new();
    (G2Affine::generator() + G2Affine::generator())
        .serialize_compressed(&mut doubled)
        .unwrap();
    let wrong = DecryptionKey::from_bytes(&doubled).unwrap();
    assert_eq!(wrapper.decrypt(&wrong), Err(DecryptionErr::DecryptedHash));
}

#[test]
fn wrappers_are_read_back_from_their_binary_form() {
    let keypair = gen_keypair();
    let mut wrapper = sample_wrapper(&keypair);
    wrapper.gas_limit = GasLimit { multiplier: 12 };
    wrapper.epoch = Epoch(77);
    assert!(wrapper.is_encodable());
    let bytes = wrapper.try_to_vec().unwrap();
    let read = WrapperTx::try_from_slice(&bytes).unwrap();
    assert_eq!(read.fee, wrapper.fee);
    assert_eq!(read.pk, wrapper.pk);
    assert_eq!(read.epoch, wrapper.epoch);
    assert_eq!(read.gas_limit, wrapper.gas_limit);
    assert_eq!(read.inner_tx, wrapper.inner_tx);
    assert_eq!(read.tx_hash, wrapper.tx_hash);
    assert_eq!(read.try_to_vec().unwrap(), bytes);
    assert!(read.validate_ciphertext());
    assert_eq!(read.decrypt(&trivial_privkey()), Ok(sample_tx()));
}

#[test]
fn binary_form_has_the_fields_in_order() {
    let keypair = gen_keypair();
    let mut wrapper = sample_wrapper(&keypair);
    wrapper.gas_limit = GasLimit { multiplier: 2 };
    wrapper.epoch = Epoch(5);
    let bytes = wrapper.try_to_vec().unwrap();
    let mut expected = Vec::new();
    wrapper.fee.serialize(&mut expected);
    expected.extend_from_slice(&borsh::BorshSerialize::try_to_vec(&keypair.public.bytes.to_vec()).unwrap());
    expected.extend_from_slice(&5u64.to_le_bytes());
    expected.extend_from_slice(&2_000_000u64.to_le_bytes());
    expected.extend_from_slice(&wrapper.inner_tx.try_to_vec().unwrap());
    expected.extend_from_slice(&wrapper.tx_hash);
    assert_eq!(bytes, expected);
    assert_eq!(
        bytes.len(),
        125 + 48 + wrapper.inner_tx.ciphertext().len() + 96
    );
}

#[test]
fn reading_a_wrapper_reports_what_is_wrong() {
    let keypair = gen_keypair();
    let wrapper = sample_wrapper(&keypair);
    let bytes = wrapper.try_to_vec().unwrap();
    for cut in [0usize, 8, 29, 33, 65, 73, 81, 90, bytes.len() - 1] {
        assert!(matches!(
            WrapperTx::try_from_slice(&bytes[..cut]),
            Err(DataError::UnexpectedEnd)
        ));
    }
    let mut longer = bytes.clone();
    longer.push(0);
    assert!(matches!(WrapperTx::try_from_slice(&longer), Err(DataError::TrailingBytes)));
    let (_, rest) = WrapperTx::deserialize(&longer).unwrap();
    assert_eq!(rest, &[0u8][..]);
    // a token of no known kind
    let mut bad_token = bytes.clone();
    bad_token[8] = 9;
    assert!(matches!(WrapperTx::try_from_slice(&bad_token), Err(DataError::Malformed)));
    // a public key of another length
    let mut bad_key = bytes.clone();
    bad_key[29] = 31;
    assert!(matches!(WrapperTx::try_from_slice(&bad_key), Err(DataError::Malformed)));
    // a nonce that is no point
    let mut bad_nonce = bytes.clone();
    for b in bad_nonce[85..133].iter_mut() {
        *b = 0;
    }
    assert!(matches!(WrapperTx::try_from_slice(&bad_nonce), Err(DataError::Malformed)));
}

#[test]
fn a_wrapper_beyond_the_encoding_is_refused() {
    let keypair = gen_keypair();
    let mut wrapper = sample_wrapper(&keypair);
    wrapper.gas_limit = GasLimit::from(u64::MAX);
    assert!(!wrapper.is_encodable());
    let mut out = vec![1u8];
    assert_eq!(wrapper.serialize(&mut out), Err(DataError::TooLong));
    assert_eq!(out, vec![1u8]);
    assert!(matches!(wrapper.try_to_vec(), Err(DataError::TooLong)));
}

#[test]
fn signing_then_reading_gives_the_wrapper_back() {
    let keypair = gen_keypair();
    let wrapper = sample_wrapper(&keypair);
    let tx = wrapper.sign(&keypair);
    assert!(tx.code.is_empty());
    let signed = SignedTxData::try_from_slice(&tx.data.clone().unwrap()).unwrap();
    assert_eq!(signed.data, Some(wrapper.try_to_vec().unwrap()));
    assert_eq!(verify_tx_sig(&keypair.public, &tx, &signed.sig), Ok(()));
    let read = WrapperTx::try_from(tx).expect("Test failed");
    assert_eq!(read.try_to_vec().unwrap(), wrapper.try_to_vec().unwrap());
    assert_eq!(read.decrypt(&trivial_privkey()), Ok(sample_tx()));
}

#[test]
fn a_wrapper_signed_by_another_key_is_refused() {
    let author = gen_keypair();
    let other = gen_keypair();
    let tx = sample_wrapper(&author).sign(&other);
    assert_eq!(
        WrapperTx::try_from(tx).expect_err("Test failed"),
        DecryptionErr::SigError("Signature verification failed: signature error".into())
    );
}

#[test]
fn envelopes_without_signed_data_are_unsigned() {
    let keypair = gen_keypair();
    let wrapper = sample_wrapper(&keypair);
    // no data at all
    let err = WrapperTx::try_from(Tx::new(vec![], None)).expect_err("Test failed");
    assert_eq!(err, DecryptionErr::Unsigned);
    // data that is no signed data: the bare wrapper
    let bare = Tx::new(vec![], Some(wrapper.try_to_vec().unwrap()));
    assert_eq!(WrapperTx::try_from(bare).expect_err("Test failed"), DecryptionErr::Unsigned);
    // signed data that holds no inner data
    let empty = SignedTxData { data: None, sig: Signature { bytes: [0u8; 64] } };
    let tx = Tx::new(vec![], Some(empty.to_bytes()));
    assert_eq!(WrapperTx::try_from(tx).expect_err("Test failed"), DecryptionErr::Unsigned);
    // signed data followed by more bytes
    let mut signed = wrapper.sign(&keypair).data.unwrap();
    signed.push(0);
    let tx = Tx::new(vec![], Some(signed));
    assert_eq!(WrapperTx::try_from(tx).expect_err("Test failed"), DecryptionErr::Unsigned);
}

#[test]
fn signed_data_that_holds_no_wrapper_is_refused() {
    let keypair = gen_keypair();
    let tx = Tx::new(vec![], Some(vec![1, 2, 3])).sign(&keypair);
    assert_eq!(
        WrapperTx::try_from(tx).expect_err("Test failed"),
        DecryptionErr::InvalidWrapperTx
    );
    // a transaction that is signed but holds something else
    let tx = sample_tx().sign(&keypair);
    assert_eq!(
        WrapperTx::try_from(tx).expect_err("Test failed"),
        DecryptionErr::InvalidWrapperTx
    );
}

#[test]
fn the_code_of_the_envelope_is_signed_too() {
    let keypair = gen_keypair();
    let mut tx = sample_wrapper(&keypair).sign(&keypair);
    tx.code = vec![1];
    assert_eq!(
        WrapperTx::try_from(tx).expect_err("Test failed"),
        DecryptionErr::SigError("Signature verification failed: signature error".into())
    );
}

#[test]
fn bytes_behind_the_wrapper_are_signed_too() {
    let keypair = gen_keypair();
    let wrapper = sample_wrapper(&keypair);
    let mut data = wrapper.try_to_vec().unwrap();
    data.extend_from_slice(&[1, 2, 3]);
    // signed with the extra bytes: read, and the bytes ignored
    let tx = Tx::new(vec![], Some(data)).sign(&keypair);
    let read = WrapperTx::try_from(tx).expect("Test failed");
    assert_eq!(read.try_to_vec().unwrap(), wrapper.try_to_vec().unwrap());
    // added after signing: the signature no longer matches
    let tx = wrapper.sign(&keypair);
    let mut signed = SignedTxData::try_from_slice(&tx.data.clone().unwrap()).unwrap();
    let mut inner = signed.data.unwrap();
    inner.push(0);
    signed.data = Some(inner);
    let tampered = Tx::new(vec![], Some(signed.to_bytes()));
    assert_eq!(
        WrapperTx::try_from(tampered).expect_err("Test failed"),
        DecryptionErr::SigError("Signature verification failed: signature error".into())
    );
}

#[test]
fn the_outcome_follows_the_verdict() {
    let keypair = gen_keypair();
    let wrapper = sample_wrapper(&keypair);
    let bytes = wrapper.try_to_vec().unwrap();
    let kept = WrapperTx::conclude(wrapper.clone(), Ok(())).expect("Test failed");
    assert_eq!(kept.try_to_vec().unwrap(), bytes);
    let refused = WrapperTx::conclude(
        wrapper.clone(),
        Err(VerifySigError::SigError("signature error".to_owned())),
    );
    assert_eq!(
        refused.expect_err("Test failed"),
        DecryptionErr::SigError("Signature verification failed: signature error".into())
    );
    let missing = WrapperTx::conclude(wrapper, Err(VerifySigError::MissingData));
    assert_eq!(
        missing.expect_err("Test failed"),
        DecryptionErr::SigError("Transaction doesn't have any data with a signature".into())
    );
}

#[test]
fn errors_have_their_messages() {
    assert_eq!(
        DecryptionErr::DecryptedHash.message(),
        "The hash of the decrypted tx does not match the hash commitment"
    );
    assert_eq!(DecryptionErr::InvalidTx.message(), "The decryption did not produce a valid Tx");
    assert_eq!(
        DecryptionErr::InvalidWrapperTx.message(),
        "The given Tx data did not contain a valid WrapperTx"
    );
    assert_eq!(DecryptionErr::Unsigned.message(), "Expected a valid signed WrapperTx data");
    assert_eq!(DecryptionErr::SigError("why".to_owned()).message(), "why");
}

#[test]
fn update_vp_is_a_plain_value() {
    let update = UpdateVp { addr: xan(), vp_code: vec![1, 2, 3] };
    assert_eq!(update.clone(), update);
    assert_eq!(update.addr, xan());
    assert_eq!(update.vp_code, vec![1, 2, 3]);
}
