use elliptic_curve::ecdsa::{ECDSASignature, SignError, ECDSA};
use elliptic_curve::{EllipticCurve, Natural, Point};

fn num(v: u64) -> Natural {
    Natural::from_u64(v)
}

fn setup_ecdsa() -> ECDSA {
    let curve = EllipticCurve { a: num(2), b: num(2), p: num(17) };
    let generator = Point::Coordinate(num(5), num(1));
    let order = num(19);
    ECDSA::new(curve, generator, order)
}

#[test]
fn test_keygen() {
    let ecdsa = setup_ecdsa();
    let keypair = ecdsa.generate_keypair();
    assert!(num(0).lt(&keypair.private_key));
    assert!(keypair.private_key.lt(&ecdsa.order));
    assert!(ecdsa.curve.is_on_curve(&keypair.public_key));
}

#[test]
fn test_sign_verify() {
    let ecdsa = setup_ecdsa();
    // A fixed key and nonce sequence make the outcome deterministic: on a group
    // of 19 points some random draws also verify an unrelated digest.
    let keypair = ecdsa.keypair_from_private_key(num(7));
    let message = b"test message";
    let nonces = vec![num(7), num(1)];
    let signature = ecdsa.sign_with_nonces(message, &keypair.private_key, &nonces).unwrap();
    assert!(ecdsa.verify(message, &signature, &keypair.public_key));
    let wrong_message = b"wrong message";
    assert!(!ecdsa.verify(wrong_message, &signature, &keypair.public_key));
}

#[test]
fn signing_skips_degenerate_nonces() {
    let ecdsa = setup_ecdsa();
    let sig = ecdsa.sign_with_nonces(b"test message", &num(7), &vec![num(7), num(12), num(10)]);
    assert_eq!(sig, Ok(ECDSASignature { r: num(7), s: num(12) }));
    let failed = ecdsa.sign_with_nonces(b"test message", &num(7), &vec![num(7), num(12)]);
    assert_eq!(failed, Err(SignError::SignatureGenerationFailure));
    let keypair = ecdsa.keypair_from_private_key(num(7));
    assert_eq!(keypair.public_key, Point::Coordinate(num(0), num(6)));
}

#[test]
fn test_invalid_signature() {
    let ecdsa = setup_ecdsa();
    let keypair = ecdsa.generate_keypair();
    let message = b"test";
    let invalid_sig = ECDSASignature { r: num(0), s: num(1) };
    assert!(!ecdsa.verify(message, &invalid_sig, &keypair.public_key));
}

#[test]
fn public_key_of_fixed_private_key() {
    let ecdsa = setup_ecdsa();
    assert_eq!(ecdsa.generate_public_key(&num(7)), Point::Coordinate(num(0), num(6)));
}

#[test]
fn fixed_nonce_signature_is_exact() {
    let ecdsa = setup_ecdsa();
    // sha256("test message") read big-endian is 14 modulo 19.
    let sig = ecdsa.sign_with_nonce(&num(14), &num(7), &num(1)).unwrap();
    assert_eq!(sig, ECDSASignature { r: num(5), s: num(11) });
    let sig = ecdsa.sign_with_nonce(&num(14), &num(7), &num(10)).unwrap();
    assert_eq!(sig, ECDSASignature { r: num(7), s: num(12) });
    // 7 * G has x = 0, so r would be 0.
    assert!(ecdsa.sign_with_nonce(&num(14), &num(7), &num(7)).is_none());
}

#[test]
fn fixed_nonce_signature_verifies_message() {
    let ecdsa = setup_ecdsa();
    let public_key = ecdsa.generate_public_key(&num(7));
    let sig = ecdsa.sign_with_nonce(&num(14), &num(7), &num(1)).unwrap();
    assert!(ecdsa.verify(b"test message", &sig, &public_key));
    assert!(ecdsa.verify_hash(&num(14), &sig, &public_key));
    assert!(!ecdsa.verify(b"wrong message", &sig, &public_key));
    assert!(!ecdsa.verify_hash(&num(17), &sig, &public_key));
}

#[test]
fn tampered_signature_fails() {
    let ecdsa = setup_ecdsa();
    let public_key = ecdsa.generate_public_key(&num(7));
    let sig = ecdsa.sign_with_nonce(&num(14), &num(7), &num(1)).unwrap();
    let bad_r = ECDSASignature { r: num(6), s: sig.s.clone() };
    assert!(!ecdsa.verify(b"test message", &bad_r, &public_key));
    let bad_s = ECDSASignature { r: sig.r.clone(), s: num(12) };
    assert!(!ecdsa.verify(b"test message", &bad_s, &public_key));
}

#[test]
fn out_of_range_signatures_fail() {
    let ecdsa = setup_ecdsa();
    let public_key = ecdsa.generate_public_key(&num(7));
    for (r, s) in [(0, 1), (19, 1), (25, 3), (5, 0), (5, 19), (5, 30)] {
        let sig = ECDSASignature { r: num(r), s: num(s) };
        assert!(!ecdsa.verify(b"test message", &sig, &public_key));
    }
}

#[test]
fn random_signatures_verify() {
    let ecdsa = setup_ecdsa();
    for _ in 0..20 {
        let keypair = ecdsa.generate_keypair();
        for message in [&b"test message"[..], &b"Hello, ECDSA!"[..], &b""[..]] {
            let sig = ecdsa.sign(message, &keypair.private_key).unwrap();
            assert!(num(0).lt(&sig.r) && sig.r.lt(&ecdsa.order));
            assert!(num(0).lt(&sig.s) && sig.s.lt(&ecdsa.order));
            assert!(ecdsa.verify(message, &sig, &keypair.public_key));
        }
    }
}
