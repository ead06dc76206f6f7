use sol_instructions::address::{parse_address, Address};
use sol_instructions::encoding::{decode_base58, decode_base64, encode_base58, encode_base64};
use sol_instructions::error::{Field, ServiceError};
use sol_instructions::keys::{from_secret_bytes, generate, is_valid_public_key, sign, verify_signature};

#[test]
fn base64_known_value() {
    assert_eq!(encode_base64(b"hello"), "aGVsbG8=");
    assert_eq!(decode_base64("aGVsbG8="), Some(b"hello".to_vec()));
}

#[test]
fn base58_known_value() {
    assert_eq!(encode_base58(&[0, 0, 0x28, 0x7f, 0xb4, 0xcd]), "11233QC4");
    assert_eq!(decode_base58("11233QC4"), Some(vec![0, 0, 0x28, 0x7f, 0xb4, 0xcd]));
}

#[test]
fn base64_round_trip_edge_lengths() {
    for n in [0usize, 1, 2, 3, 32, 64] {
        let x: Vec<u8> = (0..n).map(|i| (i * 37 + 5) as u8).collect();
        assert_eq!(decode_base64(&encode_base64(&x)), Some(x));
    }
}

#[test]
fn base58_round_trip_edge_lengths() {
    for n in [0usize, 1, 2, 32, 64] {
        let x: Vec<u8> = (0..n).map(|i| (i * 91 + 3) as u8).collect();
        assert_eq!(decode_base58(&encode_base58(&x)), Some(x.clone()));
        let zeros = vec![0u8; n];
        assert_eq!(decode_base58(&encode_base58(&zeros)), Some(zeros));
    }
}

#[test]
fn decoders_reject_bad_text() {
    assert_eq!(decode_base58("0OIl"), None);
    assert_eq!(decode_base64("aGVsbG8"), None);
    assert_eq!(decode_base64("a$=="), None);
}

#[test]
fn address_parses_and_prints_back() {
    let text = "TokenkegQfeZyiNwAJbNbGKPFXCWuBvf9Ss623VQ5DA";
    let a = parse_address(text, Field::Mint).unwrap();
    assert_eq!(a.bytes[0], 6);
    assert_eq!(a.bytes[31], 169);
    assert_eq!(a.to_text(), text);
    let zero = Address { bytes: [0u8; 32] };
    assert_eq!(zero.to_text(), "11111111111111111111111111111111");
}

#[test]
fn address_rejections_name_the_field() {
    assert_eq!(parse_address("not-base58!", Field::To), Err(ServiceError::InvalidAddress(Field::To)));
    // valid base58, but only 3 bytes
    assert_eq!(parse_address("11233QC4", Field::Owner), Err(ServiceError::InvalidAddress(Field::Owner)));
    // 45 characters
    let long = "1".repeat(45);
    assert_eq!(parse_address(&long, Field::Mint), Err(ServiceError::InvalidAddress(Field::Mint)));
    assert_eq!(parse_address("", Field::From), Err(ServiceError::InvalidAddress(Field::From)));
}

#[test]
fn generated_keypair_signs_and_verifies() {
    let kp = generate();
    let again = from_secret_bytes(&kp.bytes).expect("generated bytes are a key pair");
    assert_eq!(again.bytes, kp.bytes);
    let public = kp.public();
    assert!(is_valid_public_key(&public));
    let sig = sign(&kp, "hello");
    assert_eq!(sig, sign(&kp, "hello"));
    assert!(sig[63] < 32);
    assert!(verify_signature(&public, "hello", &sig));
    assert!(!verify_signature(&public, "hellp", &sig));
}

#[test]
fn generate_twice_differs() {
    let a = generate();
    let b = generate();
    assert_ne!(a.bytes, b.bytes);
}

#[test]
fn secret_bytes_must_be_consistent() {
    let kp = generate();
    assert!(from_secret_bytes(&kp.bytes[..63]).is_none());
    let mut longer = kp.bytes.to_vec();
    longer.push(0);
    assert!(from_secret_bytes(&longer).is_none());
    let mut wrong = kp.bytes;
    wrong[40] ^= 1;
    assert!(from_secret_bytes(&wrong).is_none());
    let other = generate();
    let mut mixed = kp.bytes;
    mixed[32..].copy_from_slice(&other.bytes[32..]);
    assert!(from_secret_bytes(&mixed).is_none());
}

#[test]
fn error_messages_and_classes() {
    assert_eq!(ServiceError::MissingField.message(), "Missing required fields");
    assert_eq!(ServiceError::InvalidAddress(Field::MintAuthority).message(), "Invalid mintAuthority pubkey");
    assert_eq!(ServiceError::InvalidAddress(Field::Pubkey).message(), "Invalid pubkey");
    assert_eq!(ServiceError::DomainRuleViolation(Field::Lamports).message(), "Lamports must be greater than zero");
    assert_eq!(ServiceError::ConstructionFailure("bad id".to_string()).message(), "bad id");
    assert!(ServiceError::InvalidKeyMaterial.is_input_error());
    assert!(!ServiceError::ConstructionFailure(String::new()).is_input_error());
    assert_eq!(Field::MintAuthority.name(), "mintAuthority");
}
