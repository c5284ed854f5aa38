use fileprotect::container::{decrypt, open_container, seal_container, seal_with_fresh_salt};
use fileprotect::kdf::{default_params, derive_with_params, KdfParams};
use fileprotect::ProtectError;

fn light() -> KdfParams {
    KdfParams { m_cost: 64, t_cost: 1, p_cost: 1 }
}

fn b64_value(c: u8) -> u8 {
    match c {
        b'A'..=b'Z' => c - b'A',
        b'a'..=b'z' => c - b'a' + 26,
        b'0'..=b'9' => c - b'0' + 52,
        b'+' => 62,
        _ => 63,
    }
}

fn b64_symbol(v: u8) -> char {
    let table = b"ABCDEFGHIJKLMNOPQRSTUVWXYZabcdefghijklmnopqrstuvwxyz0123456789+/";
    table[v as usize] as char
}

fn decode_plain(text: &str) -> Vec<u8> {
    let syms: Vec<u8> = text.bytes().filter(|c| *c != b'=').map(b64_value).collect();
    let mut out = Vec::new();
    let mut acc: u32 = 0;
    let mut bits = 0;
    for s in syms {
        acc = (acc << 6) | s as u32;
        bits += 6;
        if bits >= 8 {
            bits -= 8;
            out.push((acc >> bits) as u8);
            acc &= (1 << bits) - 1;
        }
    }
    out
}

fn encode_plain(bytes: &[u8]) -> String {
    let mut out = String::new();
    for chunk in bytes.chunks(3) {
        let b0 = chunk[0];
        let b1 = if chunk.len() > 1 { chunk[1] } else { 0 };
        let b2 = if chunk.len() > 2 { chunk[2] } else { 0 };
        out.push(b64_symbol(b0 >> 2));
        out.push(b64_symbol(((b0 & 3) << 4) | (b1 >> 4)));
        out.push(if chunk.len() > 1 { b64_symbol(((b1 & 15) << 2) | (b2 >> 6)) } else { '=' });
        out.push(if chunk.len() > 2 { b64_symbol(b2 & 63) } else { '=' });
    }
    out
}

#[test]
fn scenario_correct_horse() {
    let c = seal_with_fresh_salt(light(), b"correct horse", b"attack at dawn").unwrap();
    assert_eq!(open_container(light(), b"correct horse", &c), Ok(b"attack at dawn".to_vec()));
    assert_eq!(open_container(light(), b"wrong horse", &c), Err(ProtectError::Authentication));
}

#[test]
fn round_trip_light_costs() {
    let salt = [7u8; 16];
    for text in [&b""[..], b"x", b"attack at dawn", &[0u8, 255, 10, 13, 32][..]] {
        let c = seal_container(light(), b"pw", &salt, text).unwrap();
        assert_eq!(open_container(light(), b"pw", &c), Ok(text.to_vec()));
    }
}

#[test]
fn round_trip_empty_password() {
    let c = seal_container(light(), b"", &[1u8; 16], b"payload").unwrap();
    assert_eq!(open_container(light(), b"", &c), Ok(b"payload".to_vec()));
}

#[test]
fn wrong_password_is_authentication_error() {
    let c = seal_container(light(), b"first", &[3u8; 16], b"secret data").unwrap();
    assert_eq!(open_container(light(), b"second", &c), Err(ProtectError::Authentication));
    assert_eq!(open_container(light(), b"firs", &c), Err(ProtectError::Authentication));
}

#[test]
fn any_flipped_bit_is_detected() {
    let c = seal_container(light(), b"pw", &[9u8; 16], b"hello").unwrap();
    let bytes = decode_plain(&c);
    assert_eq!(bytes.len(), 16 + 5 + 16);
    for i in 0..bytes.len() {
        for bit in 0..8 {
            let mut changed = bytes.clone();
            changed[i] ^= 1 << bit;
            let text = encode_plain(&changed);
            assert_eq!(open_container(light(), b"pw", &text), Err(ProtectError::Authentication));
        }
    }
}

#[test]
fn fresh_salt_per_encryption() {
    let a = seal_with_fresh_salt(light(), b"pw", b"same text").unwrap();
    let b = seal_with_fresh_salt(light(), b"pw", b"same text").unwrap();
    assert_ne!(a, b);
    assert_ne!(decode_plain(&a)[..16], decode_plain(&b)[..16]);
}

#[test]
fn non_base64_is_format_error() {
    assert_eq!(decrypt(b"pw", "not base64!"), Err(ProtectError::Format));
    assert_eq!(decrypt(b"pw", "AAAA AAAA"), Err(ProtectError::Format));
    assert_eq!(open_container(light(), b"pw", "\u{e9}AAA"), Err(ProtectError::Format));
}

#[test]
fn short_container_is_format_error() {
    assert_eq!(decrypt(b"pw", ""), Err(ProtectError::Format));
    let thirty_one = encode_plain(&[0u8; 31]);
    assert_eq!(decrypt(b"pw", &thirty_one), Err(ProtectError::Format));
    let sixteen = encode_plain(&[5u8; 16]);
    assert_eq!(decrypt(b"pw", &sixteen), Err(ProtectError::Format));
}

#[test]
fn minimal_container_with_bad_tag_is_authentication_error() {
    let text = encode_plain(&[0u8; 32]);
    assert_eq!(open_container(light(), b"pw", &text), Err(ProtectError::Authentication));
}

#[test]
fn container_layout() {
    let salt = [0u8; 16];
    let c = seal_container(light(), b"pw", &salt, b"abcd").unwrap();
    assert_eq!(c.len(), 4 * ((16 + 4 + 16 + 2) / 3));
    assert!(c.starts_with("AAAAAAAAAAAAAAAAAAAA"));
    let bytes = decode_plain(&c);
    assert_eq!(encode_plain(&bytes), c);
    assert_eq!(&bytes[..16], &salt[..]);
    assert_eq!(bytes.len(), 16 + 4 + 16);
    assert_ne!(&bytes[16..20], b"abcd");
}

#[test]
fn sealing_is_deterministic_for_a_given_salt() {
    let a = seal_container(light(), b"pw", &[2u8; 16], b"text").unwrap();
    let b = seal_container(light(), b"pw", &[2u8; 16], b"text").unwrap();
    let c = seal_container(light(), b"pw", &[4u8; 16], b"text").unwrap();
    assert_eq!(a, b);
    assert_ne!(a, c);
}

#[test]
fn derive_is_deterministic() {
    let k1 = derive_with_params(light(), b"password", &[1u8; 16]).unwrap();
    let k2 = derive_with_params(light(), b"password", &[1u8; 16]).unwrap();
    assert_eq!(k1, k2);
    assert_eq!(k1.len(), 32);
    let k3 = derive_with_params(light(), b"password", &[2u8; 16]).unwrap();
    assert_ne!(k1, k3);
    let k4 = derive_with_params(light(), b"passwore", &[1u8; 16]).unwrap();
    assert_ne!(k1, k4);
}

#[test]
fn fixed_profile_costs() {
    let p = default_params();
    assert_eq!((p.m_cost, p.t_cost, p.p_cost), (262144, 8, 4));
}

#[test]
fn invalid_costs_are_kdf_error() {
    let bad = [
        KdfParams { m_cost: 7, t_cost: 1, p_cost: 1 },
        KdfParams { m_cost: 64, t_cost: 0, p_cost: 1 },
        KdfParams { m_cost: 64, t_cost: 1, p_cost: 0 },
        KdfParams { m_cost: 64, t_cost: 1, p_cost: 9 },
        KdfParams { m_cost: 0x1000_0000, t_cost: 1, p_cost: 1 },
    ];
    for p in bad {
        assert_eq!(derive_with_params(p, b"pw", &[0u8; 16]), Err(ProtectError::Kdf));
        assert_eq!(seal_container(p, b"pw", &[0u8; 16], b"x"), Err(ProtectError::Kdf));
    }
}

#[test]
fn short_salt_is_kdf_error() {
    assert_eq!(derive_with_params(light(), b"pw", &[0u8; 7]), Err(ProtectError::Kdf));
    assert!(derive_with_params(light(), b"pw", &[0u8; 8]).is_ok());
}

#[test]
fn fresh_salt_round_trip() {
    let c = seal_with_fresh_salt(light(), b"pw", b"fresh").unwrap();
    assert_eq!(decode_plain(&c).len(), 16 + 5 + 16);
    assert_eq!(open_container(light(), b"pw", &c), Ok(b"fresh".to_vec()));
}
