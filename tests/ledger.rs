use mynachain::codec::encode_tx;
use mynachain::crypto::extract_public_key;
use mynachain::{
    AccountId, Authentication, Event, Module, SignedData, Tx, TxCreateAccount, TxError, TxMint,
    TxSend, TxVote, TxWrite, MAX_VOTE_BALANCE_PER_TERM,
};

fn blake2_256(data: &[u8]) -> AccountId {
    <sp_core::Blake2Hasher as sp_core::Hasher>::hash(data).0
}

fn passing() -> Authentication {
    Authentication { trusted: true, key_readable: true, signature_valid: true }
}

fn signed(tbs: Tx, id: AccountId) -> SignedData {
    SignedData { tbs, signature: vec![0u8; 256], id }
}

fn register(m: &mut Module, cert: &[u8]) -> AccountId {
    let tx = signed(Tx::CreateAccount(TxCreateAccount { cert: cert.to_vec(), nonce: 0 }), [0u8; 32]);
    assert_eq!(m.dispatch(&tx, &passing()), Ok(()));
    blake2_256(cert)
}

fn mint(m: &mut Module, id: AccountId, amount: u64, nonce: u64) -> Result<(), TxError> {
    m.dispatch(&signed(Tx::Mint(TxMint { amount, nonce }), id), &passing())
}

fn send(m: &mut Module, from: AccountId, to: AccountId, amount: u64, nonce: u64) -> Result<(), TxError> {
    m.dispatch(&signed(Tx::Send(TxSend { to, amount, nonce }), from), &passing())
}

fn vote(m: &mut Module, id: AccountId, amount: u64, nonce: u64) -> Result<(), TxError> {
    m.dispatch(&signed(Tx::Vote(TxVote { amount, nonce }), id), &passing())
}

fn jpki_roots() -> Vec<Vec<u8>> {
    vec![myna::test_vector::CA_JPKI_AUTH_01.to_vec()]
}

#[test]
fn it_works_for_default_value() {
    let m = Module::new(Vec::new());
    assert_eq!(m.account_count(), 0);
    assert_eq!(m.block_number(), 0);
    assert_eq!(m.votes_cum(0), 0);
    assert!(m.events().is_empty());
}

#[test]
fn register_mint_and_send_scenario() {
    let mut m = Module::new(jpki_roots());
    let a = register(&mut m, b"certificate of A");
    assert_eq!(a, blake2_256(b"certificate of A"));
    assert_eq!(m.balance(a), 0);
    assert_eq!(m.events(), &vec![Event::AccountAdd(a)]);

    assert_eq!(mint(&mut m, a, 100, 0), Ok(()));
    assert_eq!(m.balance(a), 100);

    let b = blake2_256(b"certificate of B");
    assert_eq!(send(&mut m, a, b, 150, 1), Err(TxError::AccountNotFound));
    assert_eq!(m.balance(a), 100);

    let b = register(&mut m, b"certificate of B");
    assert_eq!(send(&mut m, a, b, 60, 1), Ok(()));
    assert_eq!(m.balance(a), 40);
    assert_eq!(m.balance(b), 60);
    assert_eq!(m.events().last(), Some(&Event::Transferred(a, b, 60)));
    assert_eq!(m.account(a).map(|acc| acc.nonce), Some(2));
}

#[test]
fn term_boundary_carries_votes_forward() {
    let mut m = Module::new(Vec::new());
    let a = register(&mut m, b"voter");
    m.on_initialize(3);
    assert_eq!(vote(&mut m, a, 70, 0), Ok(()));
    assert_eq!(m.votes_cum(1), 70);
    assert_eq!(m.votes_cum(2), 0);
    m.on_initialize(10);
    assert_eq!(m.term_number(), 1);
    assert_eq!(m.votes_cum(1), 70);
    assert_eq!(m.votes_cum(2), 70);
    assert_eq!(m.compute_balance(a), Ok(70));
}

#[test]
fn non_boundary_block_carries_nothing() {
    let mut m = Module::new(Vec::new());
    let a = register(&mut m, b"voter");
    assert_eq!(vote(&mut m, a, 5, 0), Ok(()));
    m.on_initialize(7);
    assert_eq!(m.block_number(), 7);
    assert_eq!(m.votes_cum(2), 0);
}

#[test]
fn same_certificate_registers_once() {
    let mut m = Module::new(Vec::new());
    assert_eq!(m.insert_account(b"cert".to_vec()), Ok(()));
    assert_eq!(m.insert_account(b"cert".to_vec()), Err(TxError::AccountAlreadyExists));
    assert_eq!(m.account_count(), 1);
    let tx = signed(Tx::CreateAccount(TxCreateAccount { cert: b"cert".to_vec(), nonce: 0 }), [0u8; 32]);
    assert_eq!(m.dispatch(&tx, &passing()), Err(TxError::AccountAlreadyExists));
}

#[test]
fn enumeration_follows_registration_order() {
    let mut m = Module::new(Vec::new());
    let a = register(&mut m, b"first");
    let b = register(&mut m, b"second");
    assert_eq!(m.account_enum(0), Some(a));
    assert_eq!(m.account_enum(1), Some(b));
    assert_eq!(m.account_enum(2), None);
}

#[test]
fn bad_signature_changes_nothing() {
    let mut m = Module::new(Vec::new());
    let a = register(&mut m, b"owner");
    assert_eq!(mint(&mut m, a, 10, 0), Ok(()));
    let forged = Authentication { trusted: false, key_readable: true, signature_valid: false };
    let b = register(&mut m, b"other");
    let txs = vec![
        signed(Tx::Send(TxSend { to: b, amount: 5, nonce: 1 }), a),
        signed(Tx::Mint(TxMint { amount: 5, nonce: 1 }), a),
        signed(Tx::Vote(TxVote { amount: 5, nonce: 1 }), a),
        signed(Tx::Write(TxWrite { data: vec![1], nonce: 1 }), a),
    ];
    for tx in &txs {
        assert_eq!(m.dispatch(tx, &forged), Err(TxError::BadSignature));
    }
    assert_eq!(m.balance(a), 10);
    assert_eq!(m.balance(b), 0);
    assert_eq!(m.votes_cum(1), 0);
    assert_eq!(m.account(a).map(|acc| acc.nonce), Some(1));
}

#[test]
fn unreadable_key_is_malformed() {
    let mut m = Module::new(Vec::new());
    let a = register(&mut m, b"owner");
    let auth = Authentication { trusted: false, key_readable: false, signature_valid: false };
    let tx = signed(Tx::Mint(TxMint { amount: 1, nonce: 0 }), a);
    assert_eq!(m.dispatch(&tx, &auth), Err(TxError::MalformedCertificate));
    let create = signed(Tx::CreateAccount(TxCreateAccount { cert: vec![9], nonce: 0 }), [0u8; 32]);
    let auth = Authentication { trusted: true, key_readable: false, signature_valid: false };
    assert_eq!(m.dispatch(&create, &auth), Err(TxError::MalformedCertificate));
}

#[test]
fn vote_cap_is_enforced() {
    let mut m = Module::new(Vec::new());
    let a = register(&mut m, b"voter");
    assert_eq!(vote(&mut m, a, 6000, 0), Ok(()));
    assert_eq!(vote(&mut m, a, 4000, 1), Ok(()));
    assert_eq!(m.votes_cum(1), MAX_VOTE_BALANCE_PER_TERM);
    assert_eq!(vote(&mut m, a, 1, 2), Err(TxError::VoteCapExceeded));
    assert_eq!(vote(&mut m, a, u64::MAX, 2), Err(TxError::Overflow));
    assert_eq!(m.votes_cum(1), 10000);
    assert_eq!(m.events().last(), Some(&Event::Voted(a, 4000)));
}

#[test]
fn balances_never_wrap() {
    let mut m = Module::new(Vec::new());
    let a = register(&mut m, b"rich");
    let b = register(&mut m, b"poor");
    assert_eq!(mint(&mut m, a, u64::MAX, 0), Ok(()));
    assert_eq!(mint(&mut m, a, 1, 1), Err(TxError::Overflow));
    assert_eq!(m.balance(a), u64::MAX);
    assert_eq!(send(&mut m, b, a, 1, 0), Err(TxError::Underflow));
    assert_eq!(mint(&mut m, b, 1, 0), Ok(()));
    assert_eq!(send(&mut m, b, a, 1, 1), Err(TxError::Overflow));
    assert_eq!(m.balance(b), 1);
    assert_eq!(m.transfer(a, b, 5), Ok(()));
    assert_eq!(m.balance(b), 6);
}

#[test]
fn sends_conserve_the_total() {
    let mut m = Module::new(Vec::new());
    let a = register(&mut m, b"a");
    let b = register(&mut m, b"b");
    let c = register(&mut m, b"c");
    assert_eq!(mint(&mut m, a, 500, 0), Ok(()));
    let total = |m: &Module| m.balance(a) + m.balance(b) + m.balance(c);
    assert_eq!(total(&m), 500);
    assert_eq!(send(&mut m, a, b, 200, 1), Ok(()));
    assert_eq!(send(&mut m, b, c, 50, 0), Ok(()));
    assert_eq!(send(&mut m, c, c, 20, 0), Ok(()));
    assert_eq!(send(&mut m, c, a, 999, 1), Err(TxError::Underflow));
    assert_eq!(total(&m), 500);
    assert_eq!((m.balance(a), m.balance(b), m.balance(c)), (300, 150, 50));
}

#[test]
fn nonces_must_match() {
    let mut m = Module::new(Vec::new());
    let a = register(&mut m, b"a");
    assert_eq!(mint(&mut m, a, 1, 1), Err(TxError::StaleOrFutureNonce));
    assert_eq!(mint(&mut m, a, 1, 0), Ok(()));
    assert_eq!(mint(&mut m, a, 1, 0), Err(TxError::StaleOrFutureNonce));
    assert_eq!(m.balance(a), 1);
    let create = signed(Tx::CreateAccount(TxCreateAccount { cert: vec![1], nonce: 3 }), [0u8; 32]);
    assert_eq!(m.dispatch(&create, &passing()), Err(TxError::NonceMustBeZero));
    assert_eq!(m.increment_nonce(a), Ok(()));
    assert_eq!(m.account(a).map(|acc| acc.nonce), Some(2));
    assert_eq!(m.increment_nonce([7u8; 32]), Err(TxError::AccountNotFound));
}

#[test]
fn untrusted_certificate_is_rejected() {
    let mut m = Module::new(Vec::new());
    let create = signed(Tx::CreateAccount(TxCreateAccount { cert: vec![1], nonce: 0 }), [0u8; 32]);
    let auth = Authentication { trusted: false, key_readable: true, signature_valid: true };
    assert_eq!(m.dispatch(&create, &auth), Err(TxError::InvalidCertificate));
    assert_eq!(m.account_count(), 0);
}

#[test]
fn write_overwrites_data() {
    let mut m = Module::new(Vec::new());
    let a = register(&mut m, b"writer");
    let tx = signed(Tx::Write(TxWrite { data: vec![1, 2, 3], nonce: 0 }), a);
    assert_eq!(m.dispatch(&tx, &passing()), Ok(()));
    assert_eq!(m.account(a).map(|acc| acc.data.clone()), Some(vec![1, 2, 3]));
    assert_eq!(m.events().last(), Some(&Event::Written(a)));
}

#[test]
fn other_is_a_no_op() {
    let mut m = Module::new(Vec::new());
    assert_eq!(m.go(&signed(Tx::Other, [0u8; 32])), Ok(()));
    assert_eq!(Tx::default(), Tx::Other);
    assert!(m.events().is_empty());
}

#[test]
fn effective_balance_overflow_is_reported() {
    let mut m = Module::new(Vec::new());
    let a = register(&mut m, b"a");
    assert_eq!(mint(&mut m, a, u64::MAX, 0), Ok(()));
    assert_eq!(vote(&mut m, a, 1, 1), Ok(()));
    m.on_initialize(10);
    assert_eq!(m.compute_balance(a), Err(TxError::Overflow));
    assert_eq!(m.compute_balance([1u8; 32]), Err(TxError::AccountNotFound));
}

#[test]
fn account_id_is_the_blake2_digest() {
    let mut m = Module::new(Vec::new());
    let cert = b"some certificate bytes".to_vec();
    assert_eq!(m.insert_account(cert.clone()), Ok(()));
    let expected = <sp_core::Blake2Hasher as sp_core::Hasher>::hash(&cert).0;
    assert_eq!(m.account_enum(0), Some(expected));
    assert_ne!(expected[..], cert[..expected.len().min(cert.len())]);
}

#[test]
fn encoding_matches_scale() {
    let create = Tx::CreateAccount(TxCreateAccount { cert: vec![1, 2, 3, 4, 5, 6, 7, 8], nonce: 0 });
    let mut expected = vec![0u8, 32, 1, 2, 3, 4, 5, 6, 7, 8];
    expected.extend_from_slice(&[0u8; 8]);
    assert_eq!(encode_tx(&create), expected);

    let mint = Tx::Mint(TxMint { amount: 0x0102, nonce: 1 });
    assert_eq!(encode_tx(&mint), vec![2, 0x02, 0x01, 0, 0, 0, 0, 0, 0, 1, 0, 0, 0, 0, 0, 0, 0]);

    let long = Tx::Write(TxWrite { data: vec![7u8; 64], nonce: 0 });
    let encoded = encode_tx(&long);
    assert_eq!(&encoded[..3], &[4u8, 0x01, 0x01]);
    assert_eq!(encoded.len(), 1 + 2 + 64 + 8);

    let send = Tx::Send(TxSend { to: [9u8; 32], amount: 1, nonce: 2 });
    let encoded = encode_tx(&send);
    assert_eq!(encoded[0], 1);
    assert_eq!(&encoded[1..33], &[9u8; 32]);
    assert_eq!(encode_tx(&Tx::Other), vec![5]);
}

#[test]
fn jpki_certificate_chains_to_its_root() {
    let tbs = TxCreateAccount { cert: myna::test_vector::CERT_DER.to_vec(), nonce: 0 };
    assert_eq!(tbs.check_ca(&jpki_roots()), Ok(()));
    assert_eq!(tbs.check_ca(&Vec::new()), Err(TxError::InvalidCertificate));
    let not_a_ca = vec![myna::test_vector::CERT_DER.to_vec()];
    assert_eq!(tbs.check_ca(&not_a_ca), Err(TxError::InvalidCertificate));
    let garbage = TxCreateAccount { cert: vec![1, 2, 3], nonce: 0 };
    assert_eq!(garbage.check_ca(&jpki_roots()), Err(TxError::InvalidCertificate));
}

#[test]
fn public_key_is_read_from_certificates_only() {
    assert!(extract_public_key(myna::test_vector::CERT_DER).is_ok());
    assert!(matches!(extract_public_key(&[0u8; 34]), Err(TxError::MalformedCertificate)));
}

#[test]
fn forged_registration_is_rejected_by_the_real_checks() {
    let mut m = Module::new(jpki_roots());
    let tx = signed(
        Tx::CreateAccount(TxCreateAccount { cert: myna::test_vector::CERT_DER.to_vec(), nonce: 0 }),
        [0u8; 32],
    );
    let auth = m.authenticate(&tx);
    assert_eq!(auth, Authentication { trusted: true, key_readable: true, signature_valid: false });
    let key = extract_public_key(myna::test_vector::CERT_DER).ok().unwrap();
    assert_eq!(tx.verify(key), Err(TxError::BadSignature));
    assert_eq!(m.go(&tx), Err(TxError::BadSignature));
    assert_eq!(m.account_count(), 0);
}

#[test]
fn unregistered_signer_is_not_found() {
    let mut m = Module::new(jpki_roots());
    let tx = signed(Tx::Mint(TxMint { amount: 1, nonce: 0 }), [3u8; 32]);
    assert_eq!(m.authenticate(&tx), Authentication { trusted: false, key_readable: false, signature_valid: false });
    assert_eq!(m.go(&tx), Err(TxError::AccountNotFound));
    assert_eq!(m.ensure_rsa_signed(&tx, &passing()), Err(TxError::AccountNotFound));
}
