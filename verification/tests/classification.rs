//! Wrapper round trips, template classification, and generation.

use bpscripts::{
    Pubkey, PubkeyHash, PubkeyScript, PubkeyScriptType, RedeemScript, Script, ScriptGenerationError,
    ScriptHash, SigScript, TapScript, WPubkeyHash, WScriptHash, WitnessScript, LockScript,
};

fn hex(s: &str) -> Vec<u8> {
    let chars: Vec<u32> = s.chars().map(|c| c.to_digit(16).expect("hex digit")).collect();
    chars.chunks(2).map(|p| (p[0] * 16 + p[1]) as u8).collect()
}

const KEY_A: &str = "0279be667ef9dcbbac55a06295ce870b07029bfcdb2dce28d959f2815b16f81798";

#[test]
fn lock_script_round_trip() {
    let bytes = vec![0x51u8, 0x93, 0x00];
    let s = LockScript::from_inner(Script::new(bytes.clone()));
    assert_eq!(s.into_inner().into_bytes(), bytes);
}

#[test]
fn pubkey_script_round_trip() {
    let bytes = vec![0x00u8, 0x14, 0xff];
    let s = PubkeyScript::from_inner(Script::new(bytes.clone()));
    assert_eq!(s.into_inner().into_bytes(), bytes);
}

#[test]
fn sig_script_round_trip() {
    let bytes: Vec<u8> = Vec::new();
    let s = SigScript::from_inner(Script::new(bytes.clone()));
    assert_eq!(s.into_inner().into_bytes(), bytes);
}

#[test]
fn witness_script_round_trip() {
    let bytes = vec![0xacu8];
    let s = WitnessScript::from_inner(Script::new(bytes.clone()));
    assert_eq!(s.into_inner().into_bytes(), bytes);
}

#[test]
fn redeem_script_round_trip() {
    let bytes = vec![0x6au8, 0x01, 0x42];
    let s = RedeemScript::from_inner(Script::new(bytes.clone()));
    assert_eq!(s.into_inner().into_bytes(), bytes);
}

#[test]
fn tap_script_round_trip() {
    let bytes = vec![0x20u8];
    let s = TapScript::from_inner(Script::new(bytes.clone()));
    assert_eq!(s.into_inner().into_bytes(), bytes);
}

#[test]
fn classify_p2pk_compressed() {
    let key = hex(KEY_A);
    let mut b = vec![0x21u8];
    b.extend_from_slice(&key);
    b.push(0xac);
    match PubkeyScriptType::classify(&Script::new(b)) {
        PubkeyScriptType::P2PK(k) => assert_eq!(k.as_bytes(), &key),
        _ => panic!("expected pay-to-pubkey"),
    }
}

#[test]
fn classify_p2pkh() {
    let h: Vec<u8> = (0u8..20).collect();
    let mut b = vec![0x76u8, 0xa9, 0x14];
    b.extend_from_slice(&h);
    b.push(0x88);
    b.push(0xac);
    match PubkeyScriptType::classify(&Script::new(b)) {
        PubkeyScriptType::P2PKH(got) => assert_eq!(got.as_bytes(), &h),
        _ => panic!("expected pay-to-pubkey-hash"),
    }
}

#[test]
fn classify_p2sh() {
    let h: Vec<u8> = (10u8..30).collect();
    let mut b = vec![0xa9u8, 0x14];
    b.extend_from_slice(&h);
    b.push(0x87);
    match PubkeyScriptType::classify(&Script::new(b)) {
        PubkeyScriptType::P2SH(got) => assert_eq!(got.as_bytes(), &h),
        _ => panic!("expected pay-to-script-hash"),
    }
}

#[test]
fn classify_p2wpkh() {
    let h: Vec<u8> = (0u8..20).collect();
    let mut b = vec![0x00u8, 0x14];
    b.extend_from_slice(&h);
    match PubkeyScriptType::classify(&Script::new(b)) {
        PubkeyScriptType::P2WPKH(got) => assert_eq!(got.as_bytes(), &h),
        _ => panic!("expected pay-to-witness-pubkey-hash"),
    }
}

#[test]
fn classify_p2wsh() {
    let h: Vec<u8> = (0u8..32).collect();
    let mut b = vec![0x00u8, 0x20];
    b.extend_from_slice(&h);
    match PubkeyScriptType::classify(&Script::new(b)) {
        PubkeyScriptType::P2WSH(got) => assert_eq!(got.as_bytes(), &h),
        _ => panic!("expected pay-to-witness-script-hash"),
    }
}

#[test]
fn classify_p2tr() {
    let k: Vec<u8> = (0u8..32).collect();
    let mut b = vec![0x51u8, 0x20];
    b.extend_from_slice(&k);
    match PubkeyScriptType::classify(&Script::new(b)) {
        PubkeyScriptType::P2TR(got) => assert_eq!(got.as_bytes(), &k),
        _ => panic!("expected pay-to-taproot"),
    }
}

#[test]
fn classify_null_data_short() {
    let data = vec![0xdeu8, 0xad, 0xbe, 0xef];
    let mut b = vec![0x6au8, 0x04];
    b.extend_from_slice(&data);
    match PubkeyScriptType::classify(&Script::new(b)) {
        PubkeyScriptType::P2OR(got) => assert_eq!(got, data),
        _ => panic!("expected null-data"),
    }
}

#[test]
fn classify_null_data_empty() {
    let b = vec![0x6au8, 0x00];
    match PubkeyScriptType::classify(&Script::new(b)) {
        PubkeyScriptType::P2OR(got) => assert_eq!(got, Vec::<u8>::new()),
        _ => panic!("expected null-data"),
    }
}

#[test]
fn classify_null_data_pushdata() {
    let data: Vec<u8> = (0u8..100).collect();
    let mut b = vec![0x6au8, 0x4c, 100];
    b.extend_from_slice(&data);
    match PubkeyScriptType::classify(&Script::new(b)) {
        PubkeyScriptType::P2OR(got) => assert_eq!(got, data),
        _ => panic!("expected null-data"),
    }
}

#[test]
fn classify_custom_fallback() {
    let bytes = vec![0x51u8, 0x51, 0x93];
    match PubkeyScriptType::classify(&Script::new(bytes.clone())) {
        PubkeyScriptType::P2S(s) => assert_eq!(s.into_inner().into_bytes(), bytes),
        _ => panic!("expected custom fallback"),
    }
}

#[test]
fn classify_is_total_on_junk() {
    // A bare OP_RETURN, a truncated push, and an empty script all classify
    // without failing.
    for bytes in [vec![0x6au8], vec![0x4cu8], Vec::<u8>::new()] {
        match PubkeyScriptType::classify(&Script::new(bytes.clone())) {
            PubkeyScriptType::P2S(s) => assert_eq!(s.into_inner().into_bytes(), bytes),
            _ => panic!("junk must fall back to the custom variant"),
        }
    }
}

#[test]
fn generate_classify_round_trip_p2pkh() {
    let h: Vec<u8> = (0u8..20).collect();
    let t = PubkeyScriptType::P2PKH(PubkeyHash::from_bytes(h.clone()));
    let script = t.generate().expect("generation is defined");
    match PubkeyScriptType::classify(script.as_inner()) {
        PubkeyScriptType::P2PKH(got) => assert_eq!(got.as_bytes(), &h),
        _ => panic!("round trip must classify as pay-to-pubkey-hash"),
    }
}

#[test]
fn generate_classify_round_trip_p2pk() {
    let key = hex(KEY_A);
    let t = PubkeyScriptType::P2PK(Pubkey::from_bytes(key.clone()));
    let script = t.generate().expect("generation is defined");
    assert_eq!(script.as_inner().as_bytes()[0], 0x21);
    match PubkeyScriptType::classify(script.as_inner()) {
        PubkeyScriptType::P2PK(got) => assert_eq!(got.as_bytes(), &key),
        _ => panic!("round trip must classify as pay-to-pubkey"),
    }
}

#[test]
fn generate_classify_round_trip_p2sh() {
    let h: Vec<u8> = (5u8..25).collect();
    let t = PubkeyScriptType::P2SH(ScriptHash::from_bytes(h.clone()));
    let script = t.generate().expect("generation is defined");
    assert_eq!(script.as_inner().as_bytes(), &vec![
        0xa9u8, 0x14, 5, 6, 7, 8, 9, 10, 11, 12, 13, 14, 15, 16, 17, 18, 19, 20, 21, 22, 23, 24,
        0x87,
    ]);
    match PubkeyScriptType::classify(script.as_inner()) {
        PubkeyScriptType::P2SH(got) => assert_eq!(got.as_bytes(), &h),
        _ => panic!("round trip must classify as pay-to-script-hash"),
    }
}

#[test]
fn generate_classify_round_trip_segwit() {
    let h20: Vec<u8> = (0u8..20).collect();
    let h32: Vec<u8> = (0u8..32).collect();
    let t = PubkeyScriptType::P2WPKH(WPubkeyHash::from_bytes(h20.clone()));
    let script = t.generate().expect("generation is defined");
    match PubkeyScriptType::classify(script.as_inner()) {
        PubkeyScriptType::P2WPKH(got) => assert_eq!(got.as_bytes(), &h20),
        _ => panic!("round trip must classify as pay-to-witness-pubkey-hash"),
    }
    let t = PubkeyScriptType::P2WSH(WScriptHash::from_bytes(h32.clone()));
    let script = t.generate().expect("generation is defined");
    match PubkeyScriptType::classify(script.as_inner()) {
        PubkeyScriptType::P2WSH(got) => assert_eq!(got.as_bytes(), &h32),
        _ => panic!("round trip must classify as pay-to-witness-script-hash"),
    }
}

#[test]
fn generate_classify_round_trip_null_data() {
    let data: Vec<u8> = (0u8..200).collect();
    let t = PubkeyScriptType::P2OR(data.clone());
    let script = t.generate().expect("generation is defined");
    assert_eq!(script.as_inner().as_bytes()[0], 0x6a);
    assert_eq!(script.as_inner().as_bytes()[1], 0x4c);
    match PubkeyScriptType::classify(script.as_inner()) {
        PubkeyScriptType::P2OR(got) => assert_eq!(got, data),
        _ => panic!("round trip must classify as null-data"),
    }
}

#[test]
fn classify_null_data_pushdata2() {
    let data: Vec<u8> = (0..300u16).map(|i| (i % 251) as u8).collect();
    // 300 = 44 + 1 * 256, little-endian length 44, 1.
    let mut b = vec![0x6au8, 0x4d, 44, 1];
    b.extend_from_slice(&data);
    match PubkeyScriptType::classify(&Script::new(b)) {
        PubkeyScriptType::P2OR(got) => assert_eq!(got, data),
        _ => panic!("expected null-data"),
    }
}

#[test]
fn generate_classify_round_trip_null_data_long() {
    // A two-byte length push.
    let data: Vec<u8> = (0..300u16).map(|i| (i % 251) as u8).collect();
    let t = PubkeyScriptType::P2OR(data.clone());
    let script = t.generate().expect("generation is defined");
    assert_eq!(script.as_inner().as_bytes()[..4], [0x6au8, 0x4d, 44, 1]);
    match PubkeyScriptType::classify(script.as_inner()) {
        PubkeyScriptType::P2OR(got) => assert_eq!(got, data),
        _ => panic!("round trip must classify as null-data"),
    }
    // A four-byte length push: 70000 = 112 + 17 * 256 + 1 * 65536.
    let data: Vec<u8> = (0..70000u32).map(|i| (i % 251) as u8).collect();
    let t = PubkeyScriptType::P2OR(data.clone());
    let script = t.generate().expect("generation is defined");
    assert_eq!(script.as_inner().as_bytes()[..6], [0x6au8, 0x4e, 112, 17, 1, 0]);
    match PubkeyScriptType::classify(script.as_inner()) {
        PubkeyScriptType::P2OR(got) => assert_eq!(got, data),
        _ => panic!("round trip must classify as null-data"),
    }
}

#[test]
fn generate_p2tr_is_unsupported() {
    let t = PubkeyScriptType::P2TR(Pubkey::from_bytes((0u8..32).collect()));
    match t.generate() {
        Err(e) => assert_eq!(e, ScriptGenerationError::UnsupportedGeneration),
        Ok(_) => panic!("taproot generation must be reported as unsupported"),
    }
}
