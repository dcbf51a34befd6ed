//! Hash-verified resolution and public-key introspection, run against the
//! real bitcoin and miniscript collaborators.

use bpscripts::{
    KeyMap, LockScript, LockScriptParseError, Pubkey, PubkeyHash, PubkeyScriptSource,
    PubkeyScriptType, RedeemScript, Script, ScriptHash, ScriptSourceError, SigScript, TapScript,
    WPubkeyHash, WScriptHash, WitnessScript,
};

fn hex(s: &str) -> Vec<u8> {
    let chars: Vec<u32> = s.chars().map(|c| c.to_digit(16).expect("hex digit")).collect();
    chars.chunks(2).map(|p| (p[0] * 16 + p[1]) as u8).collect()
}

// Three compressed points on the secp256k1 curve.
const KEY_A: &str = "0279be667ef9dcbbac55a06295ce870b07029bfcdb2dce28d959f2815b16f81798";
const KEY_B: &str = "02c6047f9441ed7d6d3045406e95c07cd85c778e4b8cef3ca7abac09b95c709ee5";
const KEY_C: &str = "02f9308a019258c31049344f85f89d5229b531c845836f99b08601f113bce036f9";
const KEY_A_UNCOMPRESSED: &str = "0479be667ef9dcbbac55a06295ce870b07029bfcdb2dce28d959f2815b16f81798483ada7726a3c4655da4fbfc0e1108a8fd17b448a68554199c47d08ffb10d4b8";

fn hash160(b: &[u8]) -> Vec<u8> {
    let d = <bitcoin::hashes::hash160::Hash as bitcoin::hashes::Hash>::hash(b);
    <bitcoin::hashes::hash160::Hash as bitcoin::hashes::Hash>::into_inner(d).to_vec()
}

fn sha256(b: &[u8]) -> Vec<u8> {
    let d = <bitcoin::hashes::sha256::Hash as bitcoin::hashes::Hash>::hash(b);
    <bitcoin::hashes::sha256::Hash as bitcoin::hashes::Hash>::into_inner(d).to_vec()
}

/// A 2-of-2 multisignature lock script over the given compressed keys.
fn multisig_2_of_2(a: &[u8], b: &[u8]) -> Vec<u8> {
    let mut s = vec![0x52u8, 0x21];
    s.extend_from_slice(a);
    s.push(0x21);
    s.extend_from_slice(b);
    s.push(0x52);
    s.push(0xae);
    s
}

/// A pay-to-pubkey-hash pattern over the given 20-byte hash, which parses
/// as a policy tree with a single hashed-key leaf.
fn pkh_script(h: &[u8]) -> Vec<u8> {
    let mut s = vec![0x76u8, 0xa9, 0x14];
    s.extend_from_slice(h);
    s.push(0x88);
    s.push(0xac);
    s
}

#[test]
fn resolve_p2pkh_succeeds_on_matching_key() {
    let key = hex(KEY_A);
    let commitment = hash160(&key);
    let t = PubkeyScriptType::P2PKH(PubkeyHash::from_bytes(commitment));
    match t.resolve_key(&Pubkey::from_bytes(key.clone())) {
        Ok(PubkeyScriptSource::P2PKH(k)) => assert_eq!(k.as_bytes(), &key),
        _ => panic!("resolution must succeed with the matching pre-image"),
    }
}

#[test]
fn resolve_p2pkh_fails_on_wrong_key() {
    let key = hex(KEY_A);
    let other = hex(KEY_B);
    let t = PubkeyScriptType::P2PKH(PubkeyHash::from_bytes(hash160(&other)));
    match t.resolve_key(&Pubkey::from_bytes(key)) {
        Err(ScriptSourceError::HashMismatch) => {}
        _ => panic!("resolution must fail on a hash mismatch"),
    }
}

#[test]
fn resolve_p2wpkh_checks_hash160() {
    let key = hex(KEY_B);
    let t = PubkeyScriptType::P2WPKH(WPubkeyHash::from_bytes(hash160(&key)));
    match t.resolve_key(&Pubkey::from_bytes(key.clone())) {
        Ok(PubkeyScriptSource::P2WPKH(k)) => assert_eq!(k.as_bytes(), &key),
        _ => panic!("resolution must succeed with the matching pre-image"),
    }
}

#[test]
fn resolve_p2sh_checks_hash160_of_script() {
    let inner = vec![0x51u8];
    let lock = LockScript::from_inner(Script::new(inner.clone()));
    let t = PubkeyScriptType::P2SH(ScriptHash::from_bytes(hash160(&inner)));
    match t.resolve_script(&lock) {
        Ok(PubkeyScriptSource::P2SH(l)) => assert_eq!(l.into_inner().into_bytes(), inner),
        _ => panic!("resolution must succeed with the matching pre-image"),
    }
    let mut wrong = hash160(&inner);
    wrong[0] ^= 1;
    let t = PubkeyScriptType::P2SH(ScriptHash::from_bytes(wrong));
    assert!(matches!(t.resolve_script(&lock), Err(ScriptSourceError::HashMismatch)));
}

#[test]
fn resolve_p2wsh_checks_sha256_of_script() {
    let inner = vec![0x51u8, 0x93];
    let lock = LockScript::from_inner(Script::new(inner.clone()));
    let t = PubkeyScriptType::P2WSH(WScriptHash::from_bytes(sha256(&inner)));
    match t.resolve_script(&lock) {
        Ok(PubkeyScriptSource::P2WSH(l)) => assert_eq!(l.into_inner().into_bytes(), inner),
        _ => panic!("resolution must succeed with the matching pre-image"),
    }
}

#[test]
fn resolve_plain_relabels_custom_script() {
    let bytes = vec![0x51u8, 0x93];
    let t = PubkeyScriptType::classify(&Script::new(bytes.clone()));
    match t.resolve_plain() {
        PubkeyScriptSource::P2S(l) => assert_eq!(l.into_inner().into_bytes(), bytes),
        _ => panic!("a custom script is itself the lock script"),
    }
}

#[test]
fn redeem_script_resolution() {
    let candidate = Script::new(multisig_2_of_2(&hex(KEY_A), &hex(KEY_B)));
    let commitment = ScriptHash::from_bytes(hash160(candidate.as_bytes()));
    let r = RedeemScript::resolve(&candidate, &commitment).expect("hash matches");
    assert_eq!(r.into_inner().into_bytes(), candidate.as_bytes().clone());
    let bad = ScriptHash::from_bytes((0u8..20).collect());
    assert!(matches!(
        RedeemScript::resolve(&candidate, &bad),
        Err(ScriptSourceError::HashMismatch)
    ));
}

#[test]
fn witness_script_resolution() {
    let candidate = Script::new(vec![0x51u8]);
    let commitment = WScriptHash::from_bytes(sha256(candidate.as_bytes()));
    let w = WitnessScript::resolve(&candidate, &commitment).expect("hash matches");
    assert_eq!(w.into_inner().into_bytes(), vec![0x51u8]);
}

#[test]
fn sig_script_last_push_walks_instructions() {
    // Two pushes: the trailing one wins.
    let sig = SigScript::from_inner(Script::new(vec![0x01u8, 0xab, 0x02, 0xcd, 0xef]));
    assert_eq!(sig.last_push(), Some(vec![0xcdu8, 0xef]));
    // An explicit two-byte-length push.
    let sig = SigScript::from_inner(Script::new(vec![0x4du8, 0x02, 0x00, 0xaa, 0xbb]));
    assert_eq!(sig.last_push(), Some(vec![0xaau8, 0xbb]));
    // A non-push opcode alone carries no push.
    let sig = SigScript::from_inner(Script::new(vec![0xacu8]));
    assert_eq!(sig.last_push(), None);
    // A push length running past the end is malformed.
    let sig = SigScript::from_inner(Script::new(vec![0x4cu8]));
    assert_eq!(sig.last_push(), None);
}

#[test]
fn redeem_script_from_sig_script() {
    let redeem = vec![0x51u8, 0x93];
    let mut sig_bytes = vec![0x01u8, 0x00, 0x02];
    sig_bytes.extend_from_slice(&redeem);
    let sig = SigScript::from_inner(Script::new(sig_bytes));
    let commitment = ScriptHash::from_bytes(hash160(&redeem));
    let r = RedeemScript::from_sig_script(&sig, &commitment).expect("hash matches");
    assert_eq!(r.into_inner().into_bytes(), redeem);
    // A wrong commitment is a hash mismatch, not a missing push.
    let bad = ScriptHash::from_bytes((0u8..20).collect());
    assert!(matches!(
        RedeemScript::from_sig_script(&sig, &bad),
        Err(ScriptSourceError::HashMismatch)
    ));
    // A pushless unlocking script has nothing to resolve.
    let pushless = SigScript::from_inner(Script::new(vec![0xacu8]));
    assert!(matches!(
        RedeemScript::from_sig_script(&pushless, &commitment),
        Err(ScriptSourceError::NoTrailingPush)
    ));
}

#[test]
fn extract_pubkeys_from_multisig_in_order() {
    let a = hex(KEY_A);
    let b = hex(KEY_B);
    let lock = LockScript::from_inner(Script::new(multisig_2_of_2(&a, &b)));
    let keys = lock.extract_pubkeys().expect("all leaves are plain keys");
    assert_eq!(keys.len(), 2);
    assert_eq!(keys[0].as_bytes(), &a);
    assert_eq!(keys[1].as_bytes(), &b);
}

#[test]
fn extract_pubkeys_fails_on_hashed_key() {
    let h: Vec<u8> = hash160(&hex(KEY_A));
    let lock = LockScript::from_inner(Script::new(pkh_script(&h)));
    match lock.extract_pubkeys() {
        Err(LockScriptParseError::PubkeyHash(got)) => assert_eq!(got.as_bytes(), &h),
        _ => panic!("a hashed-key leaf must fail extraction with that hash"),
    }
}

#[test]
fn extract_pubkeys_propagates_parse_failure() {
    let lock = LockScript::from_inner(Script::new(vec![0x6au8]));
    match lock.extract_pubkeys() {
        Err(LockScriptParseError::Miniscript(_)) => {}
        _ => panic!("junk bytes must fail with the parser's error"),
    }
}

#[test]
fn replace_pubkeys_identity_returns_same_bytes() {
    let script = multisig_2_of_2(&hex(KEY_A), &hex(KEY_B));
    let lock = LockScript::from_inner(Script::new(script.clone()));
    let map = KeyMap::new();
    let out = lock.replace_pubkeys(&map).expect("the script parses");
    assert_eq!(out.into_inner().into_bytes(), script);
}

#[test]
fn replace_pubkeys_targeted_replacement() {
    let a = hex(KEY_A);
    let b = hex(KEY_B);
    let c = hex(KEY_C);
    let lock = LockScript::from_inner(Script::new(multisig_2_of_2(&a, &b)));
    let mut map = KeyMap::new();
    assert!(map.add(&Pubkey::from_bytes(a.clone()), &Pubkey::from_bytes(c.clone())));
    let out = lock.replace_pubkeys(&map).expect("the script parses");
    // The result differs from the original only in the replaced key's push.
    assert_eq!(out.as_inner().as_bytes().clone(), multisig_2_of_2(&c, &b));
    let keys = out.extract_pubkeys().expect("all leaves are plain keys");
    assert_eq!(keys.len(), 2);
    assert_eq!(keys[0].as_bytes(), &c);
    assert_eq!(keys[1].as_bytes(), &b);
}

#[test]
fn replace_pubkeys_keeps_unmatched_keys() {
    let a = hex(KEY_A);
    let b = hex(KEY_B);
    let c = hex(KEY_C);
    let lock = LockScript::from_inner(Script::new(multisig_2_of_2(&a, &b)));
    let mut map = KeyMap::new();
    // A key that appears nowhere in the script changes nothing.
    assert!(map.add(&Pubkey::from_bytes(c.clone()), &Pubkey::from_bytes(c)));
    let out = lock.replace_pubkeys(&map).expect("the script parses");
    assert_eq!(out.into_inner().into_bytes(), multisig_2_of_2(&a, &b));
}

#[test]
fn replace_pubkeys_propagates_parse_failure() {
    let lock = LockScript::from_inner(Script::new(vec![0x00u8, 0x14, 0xff]));
    match lock.replace_pubkeys(&KeyMap::new()) {
        Err(LockScriptParseError::Miniscript(_)) => {}
        _ => panic!("junk bytes must fail with the parser's error"),
    }
}

#[test]
fn key_map_rejects_invalid_replacement() {
    let a = hex(KEY_A);
    // 33 bytes that are not a valid curve point.
    let mut bad = vec![0x02u8];
    bad.extend_from_slice(&[0xffu8; 32]);
    let mut map = KeyMap::new();
    assert!(!map.add(&Pubkey::from_bytes(a.clone()), &Pubkey::from_bytes(bad)));
    // A valid but uncompressed key is rejected too: only compressed
    // replacements re-serialize byte-for-byte in every tree position.
    let uncompressed = hex(KEY_A_UNCOMPRESSED);
    assert!(!map.add(&Pubkey::from_bytes(a), &Pubkey::from_bytes(uncompressed)));
}

#[test]
fn resolve_taproot_is_reported_unsupported() {
    let t = PubkeyScriptType::P2TR(Pubkey::from_bytes((0u8..32).collect()));
    let internal = Pubkey::from_bytes(hex(KEY_A));
    let leaf = TapScript::from_inner(Script::new(vec![0x51u8]));
    assert!(matches!(
        t.resolve_taproot(&internal, &leaf),
        Err(ScriptSourceError::UnsupportedTaproot)
    ));
}

#[test]
fn canonical_key_push_detection() {
    // A 65-byte push with the uncompressed prefix is canonical.
    let mut good = vec![0x41u8, 0x04];
    good.extend_from_slice(&[0u8; 64]);
    good.push(0xac);
    assert!(Script::new(good).has_canonical_key_pushes());
    // The same push hybrid-prefixed is not.
    let mut bad = vec![0x41u8, 0x06];
    bad.extend_from_slice(&[0u8; 64]);
    bad.push(0xac);
    assert!(!Script::new(bad).has_canonical_key_pushes());
    // Pushes of other lengths are unconstrained.
    assert!(Script::new(vec![0x01u8, 0x06, 0xac]).has_canonical_key_pushes());
}
