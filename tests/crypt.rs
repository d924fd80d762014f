use chacha_file::cli::{parse_args, Destination, Invocation};
use chacha_file::codec::{decode, encode};
use chacha_file::engine::StreamEngine;
use chacha_file::error::CryptError;
use chacha_file::key::MasterKey;
use chacha_file::nonce::generate_nonce;
use chacha_file::ops::{decrypt, encrypt, encrypt_with_nonce, process, Command};
use chacha_file::replace::temp_file_name;

fn zero_key() -> MasterKey {
    MasterKey::from_bytes(&[0u8; 32]).unwrap()
}

fn counting_key() -> MasterKey {
    let bytes: Vec<u8> = (0u8..32).collect();
    MasterKey::from_bytes(&bytes).unwrap()
}

fn args(words: &[&str]) -> Vec<String> {
    words.iter().map(|w| w.to_string()).collect()
}

const ZERO_KEYSTREAM_START: [u8; 16] = [
    0x76, 0xb8, 0xe0, 0xad, 0xa0, 0xf1, 0x3d, 0x90, 0x40, 0x5d, 0x6a, 0xe5, 0x53, 0x86, 0xbd, 0x28,
];

#[test]
fn round_trip_various_plaintexts() {
    let key = counting_key();
    let long: Vec<u8> = (0..1000u32).map(|i| (i * 7 % 251) as u8).collect();
    let cases: Vec<Vec<u8>> = vec![vec![], b"a".to_vec(), b"hello world".to_vec(), vec![0u8; 64], vec![0xffu8; 65], long];
    for p in cases {
        let c = encrypt(&key, &p).unwrap();
        assert_eq!(decrypt(&key, &c), Ok(p));
    }
}

#[test]
fn round_trip_through_process() {
    let key = zero_key();
    let p = b"some file contents".to_vec();
    let c = process(Command::Encrypt, &key, &p).unwrap();
    assert_eq!(process(Command::Decrypt, &key, &c), Ok(p));
}

#[test]
fn nonces_are_pairwise_distinct() {
    let key = zero_key();
    let mut seen: Vec<Vec<u8>> = Vec::new();
    for _ in 0..2000 {
        let c = encrypt(&key, b"x").unwrap();
        let n = c[0..12].to_vec();
        assert!(!seen.contains(&n));
        seen.push(n);
    }
}

#[test]
fn generated_nonces_are_twelve_bytes_and_differ() {
    let a = generate_nonce().unwrap();
    let b = generate_nonce().unwrap();
    assert_eq!(a.len(), 12);
    assert_eq!(b.len(), 12);
    assert_ne!(a, b);
}

#[test]
fn ciphertext_is_twelve_bytes_longer() {
    let key = counting_key();
    for n in [0usize, 1, 5, 63, 64, 65, 4096] {
        let p = vec![0x5au8; n];
        assert_eq!(encrypt(&key, &p).unwrap().len(), n + 12);
    }
}

#[test]
fn short_input_is_a_framing_error() {
    let key = zero_key();
    for n in 0..12usize {
        assert_eq!(decrypt(&key, &vec![1u8; n]), Err(CryptError::Framing));
    }
    assert_eq!(decrypt(&key, &vec![1u8; 12]), Ok(vec![]));
}

#[test]
fn ten_byte_file_does_not_decrypt() {
    let key = zero_key();
    assert_eq!(decrypt(&key, &[7u8; 10]), Err(CryptError::Framing));
    assert_eq!(process(Command::Decrypt, &key, &[7u8; 10]), Err(CryptError::Framing));
}

#[test]
fn key_must_be_thirty_two_bytes() {
    for n in [0usize, 1, 16, 31, 33, 64] {
        assert!(matches!(MasterKey::from_bytes(&vec![0u8; n]), Err(CryptError::KeyLength)));
    }
    let key = MasterKey::from_bytes(&[9u8; 32]).unwrap();
    assert_eq!(key.as_bytes(), &[9u8; 32][..]);
}

#[test]
fn hello_under_zero_key() {
    let key = zero_key();
    let c = encrypt(&key, b"hello").unwrap();
    assert_eq!(c.len(), 17);
    let engine = StreamEngine::new(&[0u8; 32], &c[0..12]).unwrap();
    let mut keystream = vec![0u8; 5];
    engine.transform(&mut keystream);
    let recovered: Vec<u8> = c[12..].iter().zip(keystream.iter()).map(|(a, b)| a ^ b).collect();
    assert_eq!(recovered, b"hello".to_vec());
}

#[test]
fn zero_key_and_nonce_keystream() {
    let engine = StreamEngine::new(&[0u8; 32], &[0u8; 12]).unwrap();
    let mut buf = vec![0u8; 16];
    engine.transform(&mut buf);
    assert_eq!(buf, ZERO_KEYSTREAM_START.to_vec());
    engine.transform(&mut buf);
    assert_eq!(buf, vec![0u8; 16]);
}

#[test]
fn encrypt_with_given_nonce_is_exact() {
    let c = encrypt_with_nonce(&zero_key(), &[0u8; 12], &[0u8; 16]).unwrap();
    let mut expected = vec![0u8; 12];
    expected.extend_from_slice(&ZERO_KEYSTREAM_START);
    assert_eq!(c, expected);
}

#[test]
fn encrypt_with_wrong_nonce_width() {
    let key = zero_key();
    assert_eq!(encrypt_with_nonce(&key, &[0u8; 11], b"abc"), Err(CryptError::NonceLength));
    assert_eq!(encrypt_with_nonce(&key, &[0u8; 13], b"abc"), Err(CryptError::NonceLength));
}

#[test]
fn engine_checks_widths() {
    assert!(matches!(StreamEngine::new(&[0u8; 31], &[0u8; 12]), Err(CryptError::KeyLength)));
    assert!(matches!(StreamEngine::new(&[0u8; 33], &[0u8; 11]), Err(CryptError::KeyLength)));
    assert!(matches!(StreamEngine::new(&[0u8; 32], &[0u8; 11]), Err(CryptError::NonceLength)));
    assert!(StreamEngine::new(&[0u8; 32], &[0u8; 12]).is_ok());
}

#[test]
fn different_nonces_give_different_ciphertexts() {
    let key = zero_key();
    let a = encrypt_with_nonce(&key, &[0u8; 12], &[0u8; 32]).unwrap();
    let b = encrypt_with_nonce(&key, &[1u8; 12], &[0u8; 32]).unwrap();
    assert_ne!(a[12..], b[12..]);
}

#[test]
fn tampered_ciphertext_decrypts_silently() {
    let key = counting_key();
    let mut c = encrypt(&key, b"attack at dawn").unwrap();
    c[12] ^= 1;
    let p = decrypt(&key, &c).unwrap();
    assert_eq!(p.len(), 14);
    assert_eq!(p[0], b'a' ^ 1);
    assert_eq!(&p[1..], &b"attack at dawn"[1..]);
}

#[test]
fn encode_and_decode() {
    let framed = encode(&[3u8; 12], b"xyz");
    assert_eq!(framed.len(), 15);
    assert_eq!(&framed[0..12], &[3u8; 12]);
    assert_eq!(&framed[12..], b"xyz");
    assert_eq!(decode(&framed), Ok((vec![3u8; 12], b"xyz".to_vec())));
    assert_eq!(decode(&[0u8; 12]), Ok((vec![0u8; 12], vec![])));
    assert_eq!(decode(&[0u8; 11]), Err(CryptError::Framing));
}

#[test]
fn arguments_too_few() {
    assert_eq!(parse_args(&args(&["c"])), Err(CryptError::Usage));
    assert_eq!(parse_args(&args(&["c", "encrypt"])), Err(CryptError::Usage));
}

#[test]
fn arguments_wrong_count() {
    assert_eq!(parse_args(&args(&["c", "encrypt", "a"])), Err(CryptError::Arguments));
    assert_eq!(parse_args(&args(&["c", "encrypt", "a", "b", "d"])), Err(CryptError::Arguments));
}

#[test]
fn arguments_unknown_command() {
    assert_eq!(parse_args(&args(&["c", "scramble", "a", "b"])), Err(CryptError::UnknownCommand));
}

#[test]
fn arguments_separate_and_overwrite() {
    assert_eq!(
        parse_args(&args(&["c", "encrypt", "in.bin", "out.bin"])),
        Ok(Invocation {
            command: Command::Encrypt,
            input_path: "in.bin".to_string(),
            destination: Destination::SeparateFile("out.bin".to_string()),
        })
    );
    assert_eq!(
        parse_args(&args(&["c", "decrypt", "-over", "f.bin"])),
        Ok(Invocation {
            command: Command::Decrypt,
            input_path: "f.bin".to_string(),
            destination: Destination::OverwriteInPlace,
        })
    );
}

#[test]
fn temp_name_is_a_sibling() {
    assert_eq!(temp_file_name("data.bin"), "data.bin.tmp");
    assert_eq!(temp_file_name(""), ".tmp");
}
