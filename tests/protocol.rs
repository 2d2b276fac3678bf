use ipi_account::{
    Account, AccountRef, Canonical, Error, GuaranteeSigned, GuarantorSigned, Identity, Metadata,
    Signer, Verifier,
};

fn payload(guarantor: AccountRef, bytes: &[u8]) -> Metadata<Vec<u8>> {
    Metadata { guarantor, payload: bytes.to_vec() }
}

fn endorsed(a: &Account, b: &Account, bytes: &[u8]) -> GuarantorSigned<Vec<u8>> {
    let inner = GuaranteeSigned::sign(a, payload(b.account_ref(), bytes)).unwrap();
    GuarantorSigned::sign(b, inner).unwrap()
}

#[test]
fn scenario_two_party_chain() {
    let a = Account::generate();
    let b = Account::generate();
    let c = Account::generate();
    let d = payload(b.account_ref(), b"claim");
    let g1 = GuaranteeSigned::sign(&a, d).unwrap();
    let g2 = GuarantorSigned::sign(&b, g1).unwrap();
    assert_eq!(g2.verify(None), Ok(()));
    assert_eq!(g2.verify(Some(c.account_ref())), Err(Error::GuarantorMismatch));
    assert_eq!(g2.verify(Some(b.account_ref())), Ok(()));
}

#[test]
fn guarantee_round_trip() {
    let a = Account::generate();
    let b = Account::generate();
    for bytes in [&b""[..], &b"x"[..], &[0u8, 255, 7, 7][..]] {
        let g = GuaranteeSigned::sign(&a, payload(b.account_ref(), bytes)).unwrap();
        assert_eq!(g.verify(None), Ok(()));
        assert_eq!(g.verify(Some(b.account_ref())), Ok(()));
        assert_eq!(g.guarantee.account, a.account_ref());
    }
}

#[test]
fn guarantor_round_trip() {
    let a = Account::generate();
    let b = Account::generate();
    let g = endorsed(&a, &b, b"record");
    assert_eq!(g.verify(None), Ok(()));
    assert_eq!(g.guarantor.account, b.account_ref());
    assert_eq!(g.data.guarantee.account, a.account_ref());
}

#[test]
fn guarantor_binding() {
    let a = Account::generate();
    let b = Account::generate();
    let g = GuaranteeSigned::sign(&a, payload(a.account_ref(), b"self-endorsed")).unwrap();
    assert!(matches!(
        GuarantorSigned::sign(&b, g.clone()),
        Err(Error::GuarantorMismatch)
    ));
    let ok = GuarantorSigned::sign(&a, g).unwrap();
    assert_eq!(ok.verify(None), Ok(()));
}

#[test]
fn tampered_payload_is_rejected() {
    let a = Account::generate();
    let b = Account::generate();
    let mut g = endorsed(&a, &b, b"amount=10");
    g.data.data.payload[7] = b'9';
    assert_eq!(g.verify(None), Err(Error::SignatureInvalid));
}

#[test]
fn swapped_outer_identity_is_rejected() {
    let a = Account::generate();
    let b = Account::generate();
    let c = Account::generate();
    let mut g = endorsed(&a, &b, b"data");
    g.guarantor = c.sign(&g.data);
    assert_eq!(g.verify(None), Err(Error::GuarantorMismatch));
}

#[test]
fn swapped_inner_identity_is_rejected() {
    let a = Account::generate();
    let b = Account::generate();
    let mut g = endorsed(&a, &b, b"data");
    g.data.guarantee = a.sign(&payload(b.account_ref(), b"other data"));
    assert_eq!(g.verify(None), Err(Error::SignatureInvalid));
}

#[test]
fn forged_outer_signature_is_rejected() {
    let a = Account::generate();
    let b = Account::generate();
    let mut g = endorsed(&a, &b, b"data");
    g.guarantor.signature[0] ^= 1;
    assert_eq!(g.verify(None), Err(Error::SignatureInvalid));
}

#[test]
fn expected_guarantor_filter() {
    let a = Account::generate();
    let b = Account::generate();
    let g = endorsed(&a, &b, b"data");
    assert_eq!(g.verify(Some(a.account_ref())), Err(Error::GuarantorMismatch));
    assert_eq!(g.verify(Some(b.account_ref())), Ok(()));
    let inner = g.data.clone();
    assert_eq!(inner.verify(Some(a.account_ref())), Err(Error::GuarantorMismatch));
    assert_eq!(inner.verify(None), Ok(()));
}

#[test]
fn filter_is_not_applied_without_expectation() {
    let a = Account::generate();
    let b = Account::generate();
    let mut g = endorsed(&a, &b, b"data");
    g.guarantor.signature[5] ^= 0x80;
    assert_eq!(g.verify(None), Err(Error::SignatureInvalid));
    assert_eq!(g.verify(Some(a.account_ref())), Err(Error::SignatureInvalid));
}

#[test]
fn canonical_bytes_are_deterministic() {
    let b = Account::generate();
    let d1 = payload(b.account_ref(), b"same");
    let d2 = payload(b.account_ref(), b"same");
    assert_eq!(d1.canonical_bytes(), d1.canonical_bytes());
    assert_eq!(d1.canonical_bytes(), d2.canonical_bytes());
}

#[test]
fn canonical_bytes_layout() {
    let r = AccountRef { public_key: [3u8; 32] };
    let d = payload(r, &[9, 8]);
    let mut expected = vec![3u8; 32];
    expected.extend_from_slice(&[9, 8]);
    assert_eq!(d.canonical_bytes(), expected);

    let id = Identity { account: r, signature: [5u8; 64] };
    let g = GuaranteeSigned { guarantee: id, data: d };
    let mut expected = vec![3u8; 32];
    expected.extend_from_slice(&[5u8; 64]);
    expected.extend_from_slice(&[3u8; 32]);
    expected.extend_from_slice(&[9, 8]);
    assert_eq!(g.canonical_bytes(), expected);
    assert_eq!(vec![1u8, 2].canonical_bytes(), vec![1u8, 2]);
}

#[test]
fn signing_is_deterministic_and_binds_the_data() {
    let a = Account::generate();
    let d = payload(a.account_ref(), b"abc");
    let s1 = a.sign(&d);
    let s2 = a.sign(&d);
    assert_eq!(s1, s2);
    let other = a.sign(&payload(a.account_ref(), b"abd"));
    assert_ne!(s1.signature, other.signature);
    assert_eq!(s1.verify(&d), Ok(()));
    assert_eq!(other.verify(&d), Err(Error::SignatureInvalid));
}

#[test]
fn generated_accounts_differ() {
    let a = Account::generate();
    let b = Account::generate();
    assert_ne!(a.account_ref(), b.account_ref());
    assert_ne!(a.account_ref().public_key, [0u8; 32]);
}

#[test]
fn verification_through_reference_and_box() {
    let a = Account::generate();
    let b = Account::generate();
    let g = endorsed(&a, &b, b"data");
    let by_ref: &GuarantorSigned<Vec<u8>> = &g;
    assert_eq!(Verifier::verify(&by_ref, None), Ok(()));
    let boxed = Box::new(g.clone());
    assert_eq!(boxed.verify(Some(a.account_ref())), Err(Error::GuarantorMismatch));
    assert_eq!(Verifier::verify(&boxed, None), Ok(()));
}

#[test]
fn archived_identity_round_trip() {
    let a = Account::generate();
    let d = payload(a.account_ref(), b"archived");
    let id = a.sign(&d);
    let bytes = id.canonical_bytes();
    assert_eq!(bytes.len(), 96);
    assert_eq!(Identity::from_archived(&bytes), Ok(id));
    let message = d.canonical_bytes();
    assert_eq!(Identity::verify_encoded(&bytes, &message), Ok(()));
    assert_eq!(id.verify_archived(&message), Ok(()));
    assert_eq!(Identity::verify_encoded(&bytes, b"something else"), Err(Error::SignatureInvalid));
}

#[test]
fn archived_identity_layout_rejected() {
    assert_eq!(Identity::from_archived(&[0u8; 95]), Err(Error::LayoutInvalid));
    assert_eq!(Identity::from_archived(&[0u8; 97]), Err(Error::LayoutInvalid));
    assert_eq!(Identity::from_archived(&[]), Err(Error::LayoutInvalid));
    assert_eq!(Identity::verify_encoded(&[1u8; 10], b"m"), Err(Error::LayoutInvalid));
}

#[test]
fn invalid_public_key_verifies_nothing() {
    let a = Account::generate();
    let d = payload(a.account_ref(), b"k");
    let mut id = a.sign(&d);
    id.account = AccountRef { public_key: [0xffu8; 32] };
    assert_eq!(id.verify(&d), Err(Error::SignatureInvalid));
}

#[test]
fn integer_payload_encoding() {
    assert_eq!(0x0102u64.canonical_bytes(), vec![2u8, 1, 0, 0, 0, 0, 0, 0]);
    assert_eq!(u64::MAX.canonical_bytes(), vec![255u8; 8]);
    assert_eq!(0u64.canonical_bytes(), vec![0u8; 8]);
    assert_eq!(
        0x0807060504030201u64.canonical_bytes(),
        vec![1u8, 2, 3, 4, 5, 6, 7, 8]
    );
}

#[test]
fn integer_payload_chain() {
    let a = Account::generate();
    let b = Account::generate();
    let d = Metadata { guarantor: b.account_ref(), payload: 42u64 };
    let g1 = GuaranteeSigned::sign(&a, d).unwrap();
    let mut g2 = GuarantorSigned::sign(&b, g1).unwrap();
    assert_eq!(g2.verify(None), Ok(()));
    g2.data.data.payload = 43;
    assert_eq!(g2.verify(None), Err(Error::SignatureInvalid));
}

#[test]
fn archived_records_round_trip() {
    let a = Account::generate();
    let b = Account::generate();
    let g = endorsed(&a, &b, b"stored record");
    let bytes = g.canonical_bytes();
    assert_eq!(bytes.len(), 96 + 96 + 32 + 13);
    let back = GuarantorSigned::<Vec<u8>>::from_archived(&bytes).unwrap();
    assert_eq!(back, g);
    assert_eq!(back.verify(Some(b.account_ref())), Ok(()));

    let inner_bytes = g.data.canonical_bytes();
    let inner = GuaranteeSigned::<Vec<u8>>::from_archived(&inner_bytes).unwrap();
    assert_eq!(inner, g.data);
    assert_eq!(inner.verify(None), Ok(()));
}

#[test]
fn archived_records_layout_rejected() {
    assert_eq!(
        GuaranteeSigned::<Vec<u8>>::from_archived(&[0u8; 127]),
        Err(Error::LayoutInvalid)
    );
    assert_eq!(
        GuarantorSigned::<Vec<u8>>::from_archived(&[0u8; 223]),
        Err(Error::LayoutInvalid)
    );
    let empty = GuaranteeSigned::<Vec<u8>>::from_archived(&[7u8; 128]).unwrap();
    assert!(empty.data.payload.is_empty());
    assert_eq!(empty.data.guarantor.public_key, [7u8; 32]);
}

#[test]
fn archived_record_tampering_detected() {
    let a = Account::generate();
    let b = Account::generate();
    let g = endorsed(&a, &b, b"stored record");
    let mut bytes = g.canonical_bytes();
    let last = bytes.len() - 1;
    bytes[last] ^= 1;
    let back = GuarantorSigned::<Vec<u8>>::from_archived(&bytes).unwrap();
    assert_eq!(back.verify(None), Err(Error::SignatureInvalid));
}
