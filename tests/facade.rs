use multi_aead::{Aead, Error, Mode};

const MODES: [Mode; 3] = [Mode::AesGcm128, Mode::AesGcm256, Mode::ChaCha20Poly1305];

fn key_for(a: &Aead, fill: u8) -> Vec<u8> {
    vec![fill; a.get_nk()]
}

fn nonce_for(a: &Aead, fill: u8) -> Vec<u8> {
    vec![fill; a.get_nn()]
}

fn hex(s: &str) -> Vec<u8> {
    (0..s.len())
        .step_by(2)
        .map(|i| u8::from_str_radix(&s[i..i + 2], 16).unwrap())
        .collect()
}

#[test]
fn end_to_end_chacha20_poly1305() {
    let a = Aead::new(Mode::ChaCha20Poly1305);
    let key = vec![0u8; 32];
    let nonce = vec![0u8; 12];
    let aad: Vec<u8> = Vec::new();
    let mut ct = a.seal(&key, &nonce, &aad, b"hello").unwrap();
    assert_eq!(a.open(&key, &nonce, &aad, &ct).unwrap(), b"hello".to_vec());
    let last = ct.len() - 1;
    ct[last] ^= 0x01;
    assert_eq!(a.open(&key, &nonce, &aad, &ct), Err(Error::OpenError));
}

#[test]
fn round_trip_every_mode() {
    for m in MODES {
        let a = Aead::new(m);
        let key = key_for(&a, 7);
        let nonce = nonce_for(&a, 9);
        for len in [0usize, 1, 15, 16, 17, 64, 1000] {
            let plain: Vec<u8> = (0..len).map(|i| (i * 31 % 251) as u8).collect();
            let aad = b"header".to_vec();
            let ct = a.seal(&key, &nonce, &aad, &plain).unwrap();
            assert_eq!(ct.len(), plain.len() + 16);
            assert_eq!(a.open(&key, &nonce, &aad, &ct).unwrap(), plain);
        }
    }
}

#[test]
fn ciphertext_differs_from_plaintext() {
    for m in MODES {
        let a = Aead::new(m);
        let plain = vec![0u8; 32];
        let ct = a.seal(&key_for(&a, 1), &nonce_for(&a, 2), b"", &plain).unwrap();
        assert_ne!(&ct[..32], &plain[..]);
    }
}

#[test]
fn flipping_any_ciphertext_byte_fails() {
    for m in MODES {
        let a = Aead::new(m);
        let key = key_for(&a, 3);
        let nonce = nonce_for(&a, 4);
        let ct = a.seal(&key, &nonce, b"aad", b"attack at dawn").unwrap();
        for i in 0..ct.len() {
            let mut bad = ct.clone();
            bad[i] ^= 0x80;
            assert_eq!(a.open(&key, &nonce, b"aad", &bad), Err(Error::OpenError));
        }
    }
}

#[test]
fn flipping_aad_byte_fails() {
    for m in MODES {
        let a = Aead::new(m);
        let key = key_for(&a, 3);
        let nonce = nonce_for(&a, 4);
        let aad = b"associated".to_vec();
        let ct = a.seal(&key, &nonce, &aad, b"payload").unwrap();
        for i in 0..aad.len() {
            let mut bad = aad.clone();
            bad[i] ^= 0x01;
            assert_eq!(a.open(&key, &nonce, &bad, &ct), Err(Error::OpenError));
        }
    }
}

#[test]
fn other_key_or_nonce_fails() {
    for m in MODES {
        let a = Aead::new(m);
        let key = key_for(&a, 3);
        let nonce = nonce_for(&a, 4);
        let ct = a.seal(&key, &nonce, b"", b"payload").unwrap();
        assert_eq!(
            a.open(&key_for(&a, 5), &nonce, b"", &ct),
            Err(Error::OpenError)
        );
        assert_eq!(
            a.open(&key, &nonce_for(&a, 5), b"", &ct),
            Err(Error::OpenError)
        );
    }
}

#[test]
fn truncated_ciphertext_fails() {
    for m in MODES {
        let a = Aead::new(m);
        let key = key_for(&a, 3);
        let nonce = nonce_for(&a, 4);
        let ct = a.seal(&key, &nonce, b"", b"payload").unwrap();
        assert_eq!(
            a.open(&key, &nonce, b"", &ct[..ct.len() - 1]),
            Err(Error::OpenError)
        );
        assert_eq!(a.open(&key, &nonce, b"", &ct[..10]), Err(Error::OpenError));
        assert_eq!(a.open(&key, &nonce, b"", b""), Err(Error::OpenError));
    }
}

#[test]
fn wrong_key_length_is_invalid_config() {
    for m in MODES {
        let a = Aead::new(m);
        let nonce = nonce_for(&a, 0);
        let short = vec![0u8; a.get_nk() - 1];
        let long = vec![0u8; a.get_nk() + 1];
        assert_eq!(a.seal(&short, &nonce, b"", b"x"), Err(Error::InvalidConfig));
        assert_eq!(a.seal(&long, &nonce, b"", b"x"), Err(Error::InvalidConfig));
        assert_eq!(
            a.open(&short, &nonce, b"", &[0u8; 20]),
            Err(Error::InvalidConfig)
        );
    }
}

#[test]
fn wrong_nonce_length_is_invalid_nonce() {
    for m in MODES {
        let a = Aead::new(m);
        let key = key_for(&a, 0);
        assert_eq!(a.seal(&key, &[0u8; 11], b"", b"x"), Err(Error::InvalidNonce));
        assert_eq!(a.seal(&key, &[0u8; 16], b"", b"x"), Err(Error::InvalidNonce));
        assert_eq!(
            a.open(&key, &[0u8; 24], b"", &[0u8; 20]),
            Err(Error::InvalidNonce)
        );
    }
}

#[test]
fn key_length_is_checked_before_nonce_length() {
    let a = Aead::new(Mode::AesGcm128);
    assert_eq!(a.seal(&[0u8; 32], &[0u8; 8], b"", b"x"), Err(Error::InvalidConfig));
    assert_eq!(a.open(&[0u8; 32], &[0u8; 8], b"", b"x"), Err(Error::InvalidConfig));
}

#[test]
fn lengths_per_mode() {
    let expected = [(Mode::AesGcm128, 16), (Mode::AesGcm256, 32), (Mode::ChaCha20Poly1305, 32)];
    for (m, nk) in expected {
        let a = Aead::new(m);
        let b = Aead::new(m);
        for _ in 0..3 {
            assert_eq!(a.get_nk(), nk);
            assert_eq!(a.get_nn(), 12);
            assert_eq!(b.get_nk(), nk);
            assert_eq!(b.get_nn(), 12);
        }
    }
}

#[test]
fn repeated_tampered_open_fails_alike() {
    for m in MODES {
        let a = Aead::new(m);
        let key = key_for(&a, 6);
        let nonce = nonce_for(&a, 6);
        let mut ct = a.seal(&key, &nonce, b"aad", b"data").unwrap();
        ct[0] ^= 0xff;
        let first = a.open(&key, &nonce, b"aad", &ct);
        let second = a.open(&key, &nonce, b"aad", &ct);
        assert_eq!(first, Err(Error::OpenError));
        assert_eq!(first, second);
    }
}

#[test]
fn seal_is_deterministic() {
    for m in MODES {
        let a = Aead::new(m);
        let b = Aead::new(m);
        let key = key_for(&a, 8);
        let nonce = nonce_for(&a, 8);
        let first = a.seal(&key, &nonce, b"aad", b"same input").unwrap();
        let second = a.seal(&key, &nonce, b"aad", b"same input").unwrap();
        let third = b.seal(&key, &nonce, b"aad", b"same input").unwrap();
        assert_eq!(first, second);
        assert_eq!(first, third);
    }
}

#[test]
fn aes128_gcm_known_answers() {
    let a = Aead::new(Mode::AesGcm128);
    let key = vec![0u8; 16];
    let nonce = vec![0u8; 12];
    let empty = a.seal(&key, &nonce, b"", b"").unwrap();
    assert_eq!(empty, hex("58e2fccefa7e3061367f1d57a4e7455a"));
    let block = a.seal(&key, &nonce, b"", &[0u8; 16]).unwrap();
    assert_eq!(
        block,
        hex("0388dace60b6a392f328c2b971b2fe78ab6e47d42cec13bdf53a67b21257bddf")
    );
    assert_eq!(a.open(&key, &nonce, b"", &block).unwrap(), vec![0u8; 16]);
}

#[test]
fn aes256_gcm_known_answers() {
    let a = Aead::new(Mode::AesGcm256);
    let key = vec![0u8; 32];
    let nonce = vec![0u8; 12];
    let empty = a.seal(&key, &nonce, b"", b"").unwrap();
    assert_eq!(empty, hex("530f8afbc74536b9a963b4f1c4cb738b"));
    let block = a.seal(&key, &nonce, b"", &[0u8; 16]).unwrap();
    assert_eq!(
        block,
        hex("cea7403d4d606b6e074ec5d3baf39d18d0d1c8a799996bf0265b98b5d48ab919")
    );
}

#[test]
fn modes_give_different_ciphertexts() {
    let key = vec![0u8; 32];
    let nonce = vec![0u8; 12];
    let a = Aead::new(Mode::AesGcm256).seal(&key, &nonce, b"", b"hello").unwrap();
    let c = Aead::new(Mode::ChaCha20Poly1305).seal(&key, &nonce, b"", b"hello").unwrap();
    assert_ne!(a, c);
    assert_eq!(
        Aead::new(Mode::ChaCha20Poly1305).open(&key, &nonce, b"", &a),
        Err(Error::OpenError)
    );
}
