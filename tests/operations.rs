use sol_instructions::address::{parse_address, Address};
use sol_instructions::encoding::{decode_base64, encode_base58, encode_base64};
use sol_instructions::error::{Field, ServiceError};
use sol_instructions::handlers::{
    keypair_handler, message_sign_handler, message_verify_handler, send_sol_handler, send_token_handler,
    token_create_handler, token_mint_handler,
};
use sol_instructions::instructions::{
    build_mint_init, build_mint_to, build_native_transfer, build_token_transfer, RENT_SYSVAR_ID, SYSTEM_PROGRAM_ID,
    TOKEN_PROGRAM_ID,
};

const TOKEN_PROGRAM_TEXT: &str = "TokenkegQfeZyiNwAJbNbGKPFXCWuBvf9Ss623VQ5DA";

fn addr(fill: u8) -> Address {
    Address { bytes: [fill; 32] }
}

#[test]
fn program_ids_match_the_network() {
    assert_eq!(TOKEN_PROGRAM_ID, spl_token::id().to_bytes());
    assert_eq!(RENT_SYSVAR_ID, solana_program::sysvar::rent::id().to_bytes());
    assert_eq!(SYSTEM_PROGRAM_ID, solana_program::system_program::id().to_bytes());
}

#[test]
fn native_transfer_zero_rejected_one_accepted() {
    let (from, to) = (addr(1), addr(2));
    assert_eq!(
        build_native_transfer(&from, &to, 0).unwrap_err(),
        ServiceError::DomainRuleViolation(Field::Lamports)
    );
    let p = build_native_transfer(&from, &to, 1).unwrap();
    assert_eq!(p.program_id.bytes, SYSTEM_PROGRAM_ID);
    assert_eq!(p.accounts.len(), 2);
    assert_eq!((p.accounts[0].address.bytes, p.accounts[0].is_signer, p.accounts[0].is_writable), (from.bytes, true, true));
    assert_eq!((p.accounts[1].address.bytes, p.accounts[1].is_signer, p.accounts[1].is_writable), (to.bytes, false, true));
    assert_eq!(p.data, vec![2, 0, 0, 0, 1, 0, 0, 0, 0, 0, 0, 0]);
}

#[test]
fn mint_init_layout() {
    let (mint, auth) = (addr(3), addr(4));
    let p = build_mint_init(&mint, &auth, 9).unwrap();
    assert_eq!(p.program_id.bytes, TOKEN_PROGRAM_ID);
    assert_eq!(p.accounts.len(), 2);
    assert_eq!((p.accounts[0].address.bytes, p.accounts[0].is_signer, p.accounts[0].is_writable), (mint.bytes, false, true));
    assert_eq!((p.accounts[1].address.bytes, p.accounts[1].is_signer, p.accounts[1].is_writable), (RENT_SYSVAR_ID, false, false));
    let mut data = vec![0u8, 9];
    data.extend_from_slice(&auth.bytes);
    data.push(0);
    assert_eq!(p.data, data);
}

#[test]
fn mint_to_and_transfer_layout() {
    let (a, b, c) = (addr(5), addr(6), addr(7));
    let p = build_mint_to(&a, &b, &c, 0x0102).unwrap();
    assert_eq!(p.data, vec![7, 2, 1, 0, 0, 0, 0, 0, 0]);
    let flags: Vec<_> = p.accounts.iter().map(|m| (m.address.bytes, m.is_signer, m.is_writable)).collect();
    assert_eq!(flags, vec![(a.bytes, false, true), (b.bytes, false, true), (c.bytes, true, false)]);
    let t = build_token_transfer(&a, &b, &c, u64::MAX).unwrap();
    assert_eq!(t.data, vec![3, 255, 255, 255, 255, 255, 255, 255, 255]);
    let flags: Vec<_> = t.accounts.iter().map(|m| (m.address.bytes, m.is_signer, m.is_writable)).collect();
    assert_eq!(flags, vec![(a.bytes, false, true), (b.bytes, false, true), (c.bytes, true, false)]);
    assert_eq!(t.program_id.bytes, TOKEN_PROGRAM_ID);
}

#[test]
fn token_create_handler_outcomes() {
    let mint = addr(8).to_text();
    let auth = addr(9).to_text();
    let r = token_create_handler(Some(&mint), Some(&auth), Some(6));
    assert!(r.success && r.error.is_none());
    let d = r.data.unwrap();
    assert_eq!(d.program_id, TOKEN_PROGRAM_TEXT);
    assert_eq!(d.accounts.len(), 2);
    assert_eq!(d.accounts[0].pubkey, mint);
    assert!(!d.accounts[0].is_signer && d.accounts[0].is_writable);
    assert_eq!(d.accounts[1].pubkey, "SysvarRent111111111111111111111111111111111");
    let mut data = vec![0u8, 6];
    data.extend_from_slice(&[9u8; 32]);
    data.push(0);
    assert_eq!(decode_base64(&d.instruction_data), Some(data));

    let r = token_create_handler(Some(&mint), Some(&auth), Some(256));
    assert!(!r.success && r.data.is_none());
    assert_eq!(r.error.as_deref(), Some("Decimals must be between 0 and 255"));
    let r = token_create_handler(Some(&mint), None, Some(6));
    assert_eq!(r.error.as_deref(), Some("Missing required fields"));
    let r = token_create_handler(Some("bad"), Some("worse"), Some(6));
    assert_eq!(r.error.as_deref(), Some("Invalid mint pubkey"));
    let r = token_create_handler(Some(&mint), Some("worse"), Some(6));
    assert_eq!(r.error.as_deref(), Some("Invalid mintAuthority pubkey"));
}

#[test]
fn token_mint_handler_outcomes() {
    let (m, d, a) = (addr(10).to_text(), addr(11).to_text(), addr(12).to_text());
    let r = token_mint_handler(Some(&m), Some(&d), Some(&a), Some(0));
    assert!(r.success);
    let data = r.data.unwrap();
    let flags: Vec<_> = data.accounts.iter().map(|x| (x.pubkey.clone(), x.is_signer, x.is_writable)).collect();
    assert_eq!(flags, vec![(m.clone(), false, true), (d.clone(), false, true), (a.clone(), true, false)]);
    assert_eq!(data.instruction_data, encode_base64(&[7, 0, 0, 0, 0, 0, 0, 0, 0]));
    assert_eq!(token_mint_handler(Some(&m), Some("x"), Some("y"), Some(1)).error.as_deref(), Some("Invalid destination pubkey"));
    assert_eq!(token_mint_handler(Some(&m), Some(&d), Some("y"), Some(1)).error.as_deref(), Some("Invalid authority pubkey"));
    assert_eq!(token_mint_handler(Some(&m), Some(&d), Some(&a), None).error.as_deref(), Some("Missing required fields"));
}

#[test]
fn send_sol_handler_outcomes() {
    let (f, t) = (addr(13).to_text(), addr(14).to_text());
    let r = send_sol_handler(Some(&f), Some(&t), Some(1));
    assert!(r.success);
    let d = r.data.unwrap();
    assert_eq!(d.program_id, "11111111111111111111111111111111");
    assert_eq!(d.accounts, vec![f.clone(), t.clone()]);
    assert_eq!(d.instruction_data, encode_base64(&[2, 0, 0, 0, 1, 0, 0, 0, 0, 0, 0, 0]));
    let r = send_sol_handler(Some(&f), Some(&t), Some(0));
    assert_eq!(r.error.as_deref(), Some("Lamports must be greater than zero"));
    assert_eq!(send_sol_handler(Some("?"), Some(&t), Some(0)).error.as_deref(), Some("Invalid from pubkey"));
    assert_eq!(send_sol_handler(Some(&f), Some("?"), Some(5)).error.as_deref(), Some("Invalid to pubkey"));
    assert_eq!(send_sol_handler(None, None, None).error.as_deref(), Some("Missing required fields"));
}

#[test]
fn send_token_handler_outcomes() {
    let (d, m, o) = (addr(15).to_text(), addr(16).to_text(), addr(17).to_text());
    let r = send_token_handler(Some(&d), Some(&m), Some(&o), Some(42));
    assert!(r.success);
    let data = r.data.unwrap();
    let flags: Vec<_> = data.accounts.iter().map(|x| (x.pubkey.clone(), x.isSigner)).collect();
    assert_eq!(flags, vec![(o.clone(), false), (d.clone(), false), (o.clone(), true)]);
    assert_eq!(data.program_id, TOKEN_PROGRAM_TEXT);
    assert_eq!(data.instruction_data, encode_base64(&[3, 42, 0, 0, 0, 0, 0, 0, 0]));
    assert_eq!(send_token_handler(Some("bad"), Some(&m), Some(&o), Some(1)).error.as_deref(), Some("Invalid destination pubkey"));
    assert_eq!(send_token_handler(Some(&d), Some("bad"), Some(&o), Some(1)).error.as_deref(), Some("Invalid mint pubkey"));
    assert_eq!(send_token_handler(Some(&d), Some(&m), Some("bad"), Some(1)).error.as_deref(), Some("Invalid owner pubkey"));
}

#[test]
fn keypair_handler_gives_usable_secret() {
    let r = keypair_handler();
    assert!(r.success && r.error.is_none());
    let d = r.data.unwrap();
    assert!(parse_address(&d.pubkey, Field::Pubkey).is_ok());
    let again = keypair_handler().data.unwrap();
    assert_ne!(d.secret, again.secret);
}

#[test]
fn sign_then_verify_hello() {
    let kp = keypair_handler().data.unwrap();
    let s = message_sign_handler(Some("hello"), Some(&kp.secret));
    assert!(s.success);
    let sd = s.data.unwrap();
    assert_eq!(sd.pubkey, kp.pubkey);
    assert_eq!(sd.message, "hello");
    assert_eq!(decode_base64(&sd.signature).unwrap().len(), 64);
    let v = message_verify_handler(Some("hello"), Some(&sd.signature), Some(&sd.pubkey));
    assert!(v.success);
    let vd = v.data.unwrap();
    assert!(vd.valid);
    assert_eq!(vd.message, "hello");
    assert_eq!(vd.pubkey, kp.pubkey);
}

#[test]
fn other_message_is_invalid_not_error() {
    let kp = keypair_handler().data.unwrap();
    let sd = message_sign_handler(Some("hello"), Some(&kp.secret)).data.unwrap();
    for other in ["hellO", "", "hello ", "goodbye"] {
        let v = message_verify_handler(Some(other), Some(&sd.signature), Some(&sd.pubkey));
        assert!(v.success && v.error.is_none());
        assert!(!v.data.unwrap().valid);
    }
}

#[test]
fn sign_rejections() {
    assert_eq!(message_sign_handler(Some("m"), Some("0OIl")).error.as_deref(), Some("Invalid base58 secret key"));
    let short = encode_base58(&[1u8; 32]);
    assert_eq!(message_sign_handler(Some("m"), Some(&short)).error.as_deref(), Some("Invalid secret key bytes"));
    assert_eq!(message_sign_handler(None, Some(&short)).error.as_deref(), Some("Missing required fields"));
}

#[test]
fn verify_rejections() {
    let kp = keypair_handler().data.unwrap();
    let sd = message_sign_handler(Some("hi"), Some(&kp.secret)).data.unwrap();
    let sig = decode_base64(&sd.signature).unwrap();
    let msg = "Signature must be 64 bytes";
    for n in [0usize, 1, 63, 65, 128] {
        let mut b = sig.clone();
        b.resize(n, 7);
        let v = message_verify_handler(Some("hi"), Some(&encode_base64(&b)), Some(&kp.pubkey));
        assert!(!v.success && v.data.is_none());
        assert_eq!(v.error.as_deref(), Some(msg));
    }
    let mut high = sig.clone();
    high[63] |= 0x80;
    let v = message_verify_handler(Some("hi"), Some(&encode_base64(&high)), Some(&kp.pubkey));
    assert!(v.success && v.error.is_none());
    assert!(!v.data.unwrap().valid);
    let v = message_verify_handler(Some("hello"), Some("AAAA"), Some(&"1".repeat(32)));
    assert_eq!(v.error.as_deref(), Some(msg));
    let v = message_verify_handler(Some("hello"), Some(""), Some(&"1".repeat(32)));
    assert!(!v.success && v.data.is_none());
    assert_eq!(v.error.as_deref(), Some(msg));
    let v = message_verify_handler(Some("hi"), Some("***"), Some(&kp.pubkey));
    assert_eq!(v.error.as_deref(), Some("Invalid base64 signature"));
    let v = message_verify_handler(Some("hi"), Some(&sd.signature), Some("nope"));
    assert_eq!(v.error.as_deref(), Some("Invalid pubkey"));
    let v = message_verify_handler(Some("hi"), None, Some(&kp.pubkey));
    assert_eq!(v.error.as_deref(), Some("Missing required fields"));
}

#[test]
fn verify_rejects_non_curve_key() {
    let mut bad = None;
    for i in 0u8..=255 {
        let mut b = [0u8; 32];
        b[0] = i;
        b[31] = 0x7f;
        if ed25519_dalek::PublicKey::from_bytes(&b).is_err() {
            bad = Some(b);
            break;
        }
    }
    let bad = Address { bytes: bad.expect("some y has no curve point") };
    let kp = keypair_handler().data.unwrap();
    let sd = message_sign_handler(Some("hi"), Some(&kp.secret)).data.unwrap();
    let v = message_verify_handler(Some("hi"), Some(&sd.signature), Some(&bad.to_text()));
    assert_eq!(v.error.as_deref(), Some("Invalid public key bytes for ed25519"));
    let mut high = decode_base64(&sd.signature).unwrap();
    high[63] |= 0xe0;
    let v = message_verify_handler(Some("hi"), Some(&encode_base64(&high)), Some(&bad.to_text()));
    assert_eq!(v.error.as_deref(), Some("Invalid public key bytes for ed25519"));
}
