//! Classification of an output locking script by the canonical on-chain
//! template it matches, and generation of canonical bytes from a
//! classification.
//!
//! Classification is total: a byte sequence matching no template falls into
//! the custom fallback variant carrying the original bytes unchanged.  The
//! templates are mutually exclusive by construction, so exactly one variant
//! applies to any byte sequence.

use vstd::prelude::*;
use crate::bytes::{append_bytes, sub_bytes};
use crate::keys::{PubkeyHash, Pubkey, ScriptHash, WPubkeyHash, WScriptHash};
use crate::script::{PubkeyScript, Script};

verus! {

/// Opcode: duplicate the top stack item.
pub const OP_DUP: u8 = 0x76;

/// Opcode: hash the top stack item with SHA-256 then RIPEMD-160.
pub const OP_HASH160: u8 = 0xa9;

/// Opcode: check the top two stack items for equality.
pub const OP_EQUAL: u8 = 0x87;

/// Opcode: check equality and fail the script on mismatch.
pub const OP_EQUALVERIFY: u8 = 0x88;

/// Opcode: check a signature against a public key.
pub const OP_CHECKSIG: u8 = 0xac;

/// Opcode: mark an output as unspendable, carrying data.
pub const OP_RETURN: u8 = 0x6a;

/// Opcode: push the next 20 bytes.
pub const OP_PUSHBYTES_20: u8 = 0x14;

/// Opcode: push the next 32 bytes.
pub const OP_PUSHBYTES_32: u8 = 0x20;

/// Opcode: push the next 33 bytes.
pub const OP_PUSHBYTES_33: u8 = 0x21;

/// Opcode: push the next 65 bytes.
pub const OP_PUSHBYTES_65: u8 = 0x41;

/// Opcode: push the number of bytes given by the next byte.
pub const OP_PUSHDATA1: u8 = 0x4c;

/// Opcode: push the number of bytes given by the next two bytes,
/// little-endian.
pub const OP_PUSHDATA2: u8 = 0x4d;

/// Opcode: push the number of bytes given by the next four bytes,
/// little-endian.
pub const OP_PUSHDATA4: u8 = 0x4e;

/// Opcode: push an empty array; also the version byte of a version-0
/// witness program.
pub const OP_0: u8 = 0x00;

/// Opcode: push the number 1; also the version byte of a version-1
/// (taproot) witness program.
pub const OP_1: u8 = 0x51;

/// Pay-to-pubkey: a push of a 33- or 65-byte serialized key, then
/// `OP_CHECKSIG`.
pub open spec fn is_p2pk(b: Seq<u8>) -> bool {
    ||| (b.len() == 35 && b[0] == OP_PUSHBYTES_33 && b[34] == OP_CHECKSIG)
    ||| (b.len() == 67 && b[0] == OP_PUSHBYTES_65 && b[66] == OP_CHECKSIG)
}

/// The key pushed by a pay-to-pubkey script.
pub open spec fn p2pk_key(b: Seq<u8>) -> Seq<u8> {
    b.subrange(1, b.len() - 1)
}

/// Pay-to-pubkey-hash: `OP_DUP OP_HASH160 <20 bytes> OP_EQUALVERIFY
/// OP_CHECKSIG`.
pub open spec fn is_p2pkh(b: Seq<u8>) -> bool {
    b.len() == 25 && b[0] == OP_DUP && b[1] == OP_HASH160 && b[2] == OP_PUSHBYTES_20 && b[23]
        == OP_EQUALVERIFY && b[24] == OP_CHECKSIG
}

/// The key hash committed by a pay-to-pubkey-hash script.
pub open spec fn p2pkh_hash(b: Seq<u8>) -> Seq<u8> {
    b.subrange(3, 23)
}

/// Pay-to-script-hash: `OP_HASH160 <20 bytes> OP_EQUAL`.
pub open spec fn is_p2sh(b: Seq<u8>) -> bool {
    b.len() == 23 && b[0] == OP_HASH160 && b[1] == OP_PUSHBYTES_20 && b[22] == OP_EQUAL
}

/// The script hash committed by a pay-to-script-hash script.
pub open spec fn p2sh_hash(b: Seq<u8>) -> Seq<u8> {
    b.subrange(2, 22)
}

/// Pay-to-witness-pubkey-hash: version byte 0, then a push of a 20-byte
/// witness program.
pub open spec fn is_p2wpkh(b: Seq<u8>) -> bool {
    b.len() == 22 && b[0] == OP_0 && b[1] == OP_PUSHBYTES_20
}

/// The witness program of a pay-to-witness-pubkey-hash script.
pub open spec fn p2wpkh_program(b: Seq<u8>) -> Seq<u8> {
    b.subrange(2, 22)
}

/// Pay-to-witness-script-hash: version byte 0, then a push of a 32-byte
/// witness program.
pub open spec fn is_p2wsh(b: Seq<u8>) -> bool {
    b.len() == 34 && b[0] == OP_0 && b[1] == OP_PUSHBYTES_32
}

/// The witness program of a pay-to-witness-script-hash script.
pub open spec fn p2wsh_program(b: Seq<u8>) -> Seq<u8> {
    b.subrange(2, 34)
}

/// Pay-to-taproot: version byte 1, then a push of a 32-byte output key.
pub open spec fn is_p2tr(b: Seq<u8>) -> bool {
    b.len() == 34 && b[0] == OP_1 && b[1] == OP_PUSHBYTES_32
}

/// The output key of a pay-to-taproot script.
pub open spec fn p2tr_key(b: Seq<u8>) -> Seq<u8> {
    b.subrange(2, 34)
}

/// Null-data: `OP_RETURN` followed by one minimally-encoded push of the
/// attached data — a direct push for up to 75 bytes, `OP_PUSHDATA1` for 76
/// to 255, `OP_PUSHDATA2` for 256 to 65535, `OP_PUSHDATA4` beyond, up to
/// the four-byte length field's limit.
pub open spec fn is_null_data(b: Seq<u8>) -> bool {
    ||| (b.len() >= 2 && b[0] == OP_RETURN && b[1] as int == b.len() - 2 && b.len() - 2 <= 75)
    ||| (b.len() >= 3 && b[0] == OP_RETURN && b[1] == OP_PUSHDATA1 && b[2] as int == b.len() - 3
        && 76 <= b.len() - 3 <= 255)
    ||| (b.len() >= 4 && b[0] == OP_RETURN && b[1] == OP_PUSHDATA2 && b[2] as int + 256 * (
    b[3] as int) == b.len() - 4 && 256 <= b.len() - 4 <= 65535)
    ||| (b.len() >= 6 && b[0] == OP_RETURN && b[1] == OP_PUSHDATA4 && b[2] as int + 256 * (
    b[3] as int) + 65536 * (b[4] as int) + 16777216 * (b[5] as int) == b.len() - 6 && 65536
        <= b.len() - 6 <= 4294967295)
}

/// The data pushed by a null-data script.
pub open spec fn null_data_payload(b: Seq<u8>) -> Seq<u8> {
    if b.len() >= 2 && b[1] as int == b.len() - 2 && b.len() - 2 <= 75 {
        b.subrange(2, b.len() as int)
    } else if b.len() >= 3 && b[1] == OP_PUSHDATA1 {
        b.subrange(3, b.len() as int)
    } else if b.len() >= 4 && b[1] == OP_PUSHDATA2 {
        b.subrange(4, b.len() as int)
    } else {
        b.subrange(6, b.len() as int)
    }
}

/// True when the byte sequence matches none of the canonical templates, so
/// classification falls back to the custom variant.
pub open spec fn matches_no_template(b: Seq<u8>) -> bool {
    &&& !is_p2pk(b)
    &&& !is_p2pkh(b)
    &&& !is_p2sh(b)
    &&& !is_p2wpkh(b)
    &&& !is_p2wsh(b)
    &&& !is_p2tr(b)
    &&& !is_null_data(b)
}

/// An output locking script classified by the on-chain pattern it matches.
/// Each variant carries only the minimal committed data; the fallback
/// variant carries the full unclassified script.
pub enum PubkeyScriptType {
    /// Custom script matching no canonical template, carried unchanged.
    P2S(PubkeyScript),
    /// Pay-to-pubkey, carrying the serialized key.
    P2PK(Pubkey),
    /// Pay-to-pubkey-hash, carrying the 20-byte key hash.
    P2PKH(PubkeyHash),
    /// Pay-to-script-hash, carrying the 20-byte script hash.
    P2SH(ScriptHash),
    /// Null-data, carrying the attached raw bytes.
    P2OR(Vec<u8>),
    /// Pay-to-witness-pubkey-hash, carrying the 20-byte witness program.
    P2WPKH(WPubkeyHash),
    /// Pay-to-witness-script-hash, carrying the 32-byte witness program.
    P2WSH(WScriptHash),
    /// Pay-to-taproot, carrying the 32-byte output key.
    P2TR(Pubkey),
}

/// The classification relation: `t` is the classification of the byte
/// sequence `b`.
pub open spec fn classifies_as(t: PubkeyScriptType, b: Seq<u8>) -> bool {
    match t {
        PubkeyScriptType::P2S(s) => matches_no_template(b) && s@ == b,
        PubkeyScriptType::P2PK(k) => is_p2pk(b) && k@ == p2pk_key(b),
        PubkeyScriptType::P2PKH(h) => is_p2pkh(b) && h@ == p2pkh_hash(b),
        PubkeyScriptType::P2SH(h) => is_p2sh(b) && h@ == p2sh_hash(b),
        PubkeyScriptType::P2OR(d) => is_null_data(b) && d@ == null_data_payload(b),
        PubkeyScriptType::P2WPKH(h) => is_p2wpkh(b) && h@ == p2wpkh_program(b),
        PubkeyScriptType::P2WSH(h) => is_p2wsh(b) && h@ == p2wsh_program(b),
        PubkeyScriptType::P2TR(k) => is_p2tr(b) && k@ == p2tr_key(b),
    }
}

/// Both classifications are the same variant and carry the same data.
pub open spec fn same_classification(t1: PubkeyScriptType, t2: PubkeyScriptType) -> bool {
    match (t1, t2) {
        (PubkeyScriptType::P2S(a), PubkeyScriptType::P2S(b)) => a@ == b@,
        (PubkeyScriptType::P2PK(a), PubkeyScriptType::P2PK(b)) => a@ == b@,
        (PubkeyScriptType::P2PKH(a), PubkeyScriptType::P2PKH(b)) => a@ == b@,
        (PubkeyScriptType::P2SH(a), PubkeyScriptType::P2SH(b)) => a@ == b@,
        (PubkeyScriptType::P2OR(a), PubkeyScriptType::P2OR(b)) => a@ == b@,
        (PubkeyScriptType::P2WPKH(a), PubkeyScriptType::P2WPKH(b)) => a@ == b@,
        (PubkeyScriptType::P2WSH(a), PubkeyScriptType::P2WSH(b)) => a@ == b@,
        (PubkeyScriptType::P2TR(a), PubkeyScriptType::P2TR(b)) => a@ == b@,
        _ => false,
    }
}

/// The canonical bytes generated from a classification.  Generation is not
/// defined for the taproot variant.
pub open spec fn generated(t: PubkeyScriptType) -> Seq<u8>
    recommends
        !(t is P2TR),
{
    match t {
        PubkeyScriptType::P2S(s) => s@,
        PubkeyScriptType::P2PK(k) => seq![k@.len() as u8] + k@ + seq![OP_CHECKSIG],
        PubkeyScriptType::P2PKH(h) => seq![OP_DUP, OP_HASH160, OP_PUSHBYTES_20] + h@ + seq![
            OP_EQUALVERIFY,
            OP_CHECKSIG,
        ],
        PubkeyScriptType::P2SH(h) => seq![OP_HASH160, OP_PUSHBYTES_20] + h@ + seq![OP_EQUAL],
        PubkeyScriptType::P2OR(d) => if d@.len() <= 75 {
            seq![OP_RETURN, d@.len() as u8] + d@
        } else if d@.len() <= 255 {
            seq![OP_RETURN, OP_PUSHDATA1, d@.len() as u8] + d@
        } else if d@.len() <= 65535 {
            seq![OP_RETURN, OP_PUSHDATA2, (d@.len() % 256) as u8, (d@.len() / 256 % 256) as u8]
                + d@
        } else {
            seq![
                OP_RETURN,
                OP_PUSHDATA4,
                (d@.len() % 256) as u8,
                (d@.len() / 256 % 256) as u8,
                (d@.len() / 256 / 256 % 256) as u8,
                (d@.len() / 256 / 256 / 256) as u8,
            ] + d@
        },
        PubkeyScriptType::P2WPKH(h) => seq![OP_0, OP_PUSHBYTES_20] + h@,
        PubkeyScriptType::P2WSH(h) => seq![OP_0, OP_PUSHBYTES_32] + h@,
        PubkeyScriptType::P2TR(_) => Seq::empty(),
    }
}

/// Generating canonical bytes for a pay-to-taproot output is not defined by
/// this design; the attempt is reported explicitly.
#[derive(Debug, PartialEq, Eq, Structural)]
pub enum ScriptGenerationError {
    /// The variant has no canonical byte template here.
    UnsupportedGeneration,
}

impl PubkeyScriptType {
    /// The carried data is well formed: hashes have their fixed lengths, a
    /// carried key has a serialized-key length, and null data fits in one
    /// minimally-encoded push.
    pub open spec fn wf(&self) -> bool {
        match self {
            PubkeyScriptType::P2S(_) => true,
            PubkeyScriptType::P2PK(k) => k.wf(),
            PubkeyScriptType::P2PKH(h) => h.wf(),
            PubkeyScriptType::P2SH(h) => h.wf(),
            PubkeyScriptType::P2OR(d) => d@.len() <= 4294967295,
            PubkeyScriptType::P2WPKH(h) => h.wf(),
            PubkeyScriptType::P2WSH(h) => h.wf(),
            PubkeyScriptType::P2TR(_) => true,
        }
    }

    /// Classifies a script against the canonical templates, in a fixed
    /// priority order.  Total: every byte sequence classifies, and a
    /// sequence matching no template falls back to the custom variant with
    /// its bytes unchanged.
    pub fn classify(script: &Script) -> (r: Self)
        ensures
            classifies_as(r, script@),
            r.wf(),
    {
        let b = script.as_bytes();
        let n = b.len();
        if (n == 35 && b[0] == OP_PUSHBYTES_33 && b[34] == OP_CHECKSIG) || (n == 67 && b[0]
            == OP_PUSHBYTES_65 && b[66] == OP_CHECKSIG) {
            PubkeyScriptType::P2PK(Pubkey::from_bytes(sub_bytes(b, 1, n - 1)))
        } else if n == 25 && b[0] == OP_DUP && b[1] == OP_HASH160 && b[2] == OP_PUSHBYTES_20
            && b[23] == OP_EQUALVERIFY && b[24] == OP_CHECKSIG {
            PubkeyScriptType::P2PKH(PubkeyHash::from_bytes(sub_bytes(b, 3, 23)))
        } else if n == 23 && b[0] == OP_HASH160 && b[1] == OP_PUSHBYTES_20 && b[22] == OP_EQUAL {
            PubkeyScriptType::P2SH(ScriptHash::from_bytes(sub_bytes(b, 2, 22)))
        } else if n == 22 && b[0] == OP_0 && b[1] == OP_PUSHBYTES_20 {
            PubkeyScriptType::P2WPKH(WPubkeyHash::from_bytes(sub_bytes(b, 2, 22)))
        } else if n == 34 && b[0] == OP_0 && b[1] == OP_PUSHBYTES_32 {
            PubkeyScriptType::P2WSH(WScriptHash::from_bytes(sub_bytes(b, 2, 34)))
        } else if n == 34 && b[0] == OP_1 && b[1] == OP_PUSHBYTES_32 {
            PubkeyScriptType::P2TR(Pubkey::from_bytes(sub_bytes(b, 2, 34)))
        } else if n >= 2 && b[0] == OP_RETURN && b[1] as usize == n - 2 && n - 2 <= 75 {
            PubkeyScriptType::P2OR(sub_bytes(b, 2, n))
        } else if n >= 3 && b[0] == OP_RETURN && b[1] == OP_PUSHDATA1 && b[2] as usize == n - 3
            && 76 <= n - 3 && n - 3 <= 255 {
            PubkeyScriptType::P2OR(sub_bytes(b, 3, n))
        } else if n >= 4 && b[0] == OP_RETURN && b[1] == OP_PUSHDATA2 && b[2] as usize + 256 * (
        b[3] as usize) == n - 4 && 256 <= n - 4 && n - 4 <= 65535 {
            PubkeyScriptType::P2OR(sub_bytes(b, 4, n))
        } else if n >= 6 && b[0] == OP_RETURN && b[1] == OP_PUSHDATA4 && b[2] as u64 + 256 * (
        b[3] as u64) + 65536 * (b[4] as u64) + 16777216 * (b[5] as u64) == (n - 6) as u64 && 65536
            <= n - 6 {
            PubkeyScriptType::P2OR(sub_bytes(b, 6, n))
        } else {
            proof {
                assert(b@.subrange(0, n as int) =~= b@);
            }
            PubkeyScriptType::P2S(PubkeyScript::from_inner(Script::new(sub_bytes(b, 0, n))))
        }
    }

    /// Expands a classification back into canonical script bytes.  Succeeds
    /// for every variant but pay-to-taproot, whose generation is reported
    /// as unsupported; the custom fallback passes its bytes through
    /// unchanged.
    pub fn generate(&self) -> (r: Result<PubkeyScript, ScriptGenerationError>)
        requires
            self.wf(),
        ensures
            r is Ok <==> !(self is P2TR),
            r matches Ok(p) ==> p@ == generated(*self),
            r matches Err(e) ==> e == ScriptGenerationError::UnsupportedGeneration,
    {
        match self {
            PubkeyScriptType::P2S(s) => {
                Ok(PubkeyScript::from_inner(Script::new(s.as_inner().to_bytes())))
            },
            PubkeyScriptType::P2PK(k) => {
                let kb = k.as_bytes();
                let mut v: Vec<u8> = Vec::new();
                v.push(kb.len() as u8);
                append_bytes(&mut v, kb);
                v.push(OP_CHECKSIG);
                proof {
                    assert(v@ =~= generated(*self));
                }
                Ok(PubkeyScript::from_inner(Script::new(v)))
            },
            PubkeyScriptType::P2PKH(h) => {
                let mut v: Vec<u8> = Vec::new();
                v.push(OP_DUP);
                v.push(OP_HASH160);
                v.push(OP_PUSHBYTES_20);
                append_bytes(&mut v, h.as_bytes());
                v.push(OP_EQUALVERIFY);
                v.push(OP_CHECKSIG);
                proof {
                    assert(v@ =~= generated(*self));
                }
                Ok(PubkeyScript::from_inner(Script::new(v)))
            },
            PubkeyScriptType::P2SH(h) => {
                let mut v: Vec<u8> = Vec::new();
                v.push(OP_HASH160);
                v.push(OP_PUSHBYTES_20);
                append_bytes(&mut v, h.as_bytes());
                v.push(OP_EQUAL);
                proof {
                    assert(v@ =~= generated(*self));
                }
                Ok(PubkeyScript::from_inner(Script::new(v)))
            },
            PubkeyScriptType::P2OR(d) => {
                let n = d.len();
                let mut v: Vec<u8> = Vec::new();
                v.push(OP_RETURN);
                if n <= 75 {
                    v.push(n as u8);
                } else if n <= 255 {
                    v.push(OP_PUSHDATA1);
                    v.push(n as u8);
                } else if n <= 65535 {
                    v.push(OP_PUSHDATA2);
                    v.push((n % 256) as u8);
                    v.push((n / 256 % 256) as u8);
                } else {
                    v.push(OP_PUSHDATA4);
                    v.push((n % 256) as u8);
                    v.push((n / 256 % 256) as u8);
                    v.push((n / 256 / 256 % 256) as u8);
                    v.push((n / 256 / 256 / 256) as u8);
                }
                append_bytes(&mut v, d);
                proof {
                    assert(v@ =~= generated(*self));
                }
                Ok(PubkeyScript::from_inner(Script::new(v)))
            },
            PubkeyScriptType::P2WPKH(h) => {
                let mut v: Vec<u8> = Vec::new();
                v.push(OP_0);
                v.push(OP_PUSHBYTES_20);
                append_bytes(&mut v, h.as_bytes());
                proof {
                    assert(v@ =~= generated(*self));
                }
                Ok(PubkeyScript::from_inner(Script::new(v)))
            },
            PubkeyScriptType::P2WSH(h) => {
                let mut v: Vec<u8> = Vec::new();
                v.push(OP_0);
                v.push(OP_PUSHBYTES_32);
                append_bytes(&mut v, h.as_bytes());
                proof {
                    assert(v@ =~= generated(*self));
                }
                Ok(PubkeyScript::from_inner(Script::new(v)))
            },
            PubkeyScriptType::P2TR(_) => Err(ScriptGenerationError::UnsupportedGeneration),
        }
    }
}

/// The canonical templates are mutually exclusive: a byte sequence matches
/// at most one of them, whatever its content.
pub proof fn lemma_templates_mutually_exclusive(b: Seq<u8>)
    ensures
        is_p2pk(b) ==> !is_p2pkh(b) && !is_p2sh(b) && !is_p2wpkh(b) && !is_p2wsh(b) && !is_p2tr(b)
            && !is_null_data(b),
        is_p2pkh(b) ==> !is_p2sh(b) && !is_p2wpkh(b) && !is_p2wsh(b) && !is_p2tr(b)
            && !is_null_data(b),
        is_p2sh(b) ==> !is_p2wpkh(b) && !is_p2wsh(b) && !is_p2tr(b) && !is_null_data(b),
        is_p2wpkh(b) ==> !is_p2wsh(b) && !is_p2tr(b) && !is_null_data(b),
        is_p2wsh(b) ==> !is_p2tr(b) && !is_null_data(b),
        is_p2tr(b) ==> !is_null_data(b),
{
}

/// Classification is a function of the bytes: two classifications of the
/// same byte sequence are the same variant carrying the same data.
pub proof fn lemma_classification_unique(t1: PubkeyScriptType, t2: PubkeyScriptType, b: Seq<u8>)
    requires
        classifies_as(t1, b),
        classifies_as(t2, b),
    ensures
        same_classification(t1, t2),
{
    lemma_templates_mutually_exclusive(b);
}

/// Classifying the bytes generated from a supported classification gives
/// that classification back: the same variant, carrying the same data.
/// Excluded are the taproot variant, whose generation is undefined, and a
/// custom fallback whose carried bytes happen to match some canonical
/// template (those bytes pass through generation unchanged and then
/// classify as that template).
pub proof fn lemma_classification_inverts_generation(t: PubkeyScriptType)
    requires
        t.wf(),
        !(t is P2TR),
        t matches PubkeyScriptType::P2S(s) ==> matches_no_template(s@),
    ensures
        classifies_as(t, generated(t)),
{
    match t {
        PubkeyScriptType::P2S(_) => {
        },
        PubkeyScriptType::P2PK(k) => {
            let b = generated(t);
            assert(b[0] == k@.len() as u8);
            assert(b[b.len() - 1] == OP_CHECKSIG);
            assert(p2pk_key(b) =~= k@);
        },
        PubkeyScriptType::P2PKH(h) => {
            let b = generated(t);
            assert(b[23] == OP_EQUALVERIFY && b[24] == OP_CHECKSIG);
            assert(p2pkh_hash(b) =~= h@);
        },
        PubkeyScriptType::P2SH(h) => {
            let b = generated(t);
            assert(b[22] == OP_EQUAL);
            assert(p2sh_hash(b) =~= h@);
        },
        PubkeyScriptType::P2OR(d) => {
            let b = generated(t);
            let n = d@.len() as int;
            if n <= 75 {
                assert(b[1] as int == b.len() - 2);
                assert(null_data_payload(b) =~= d@);
            } else if n <= 255 {
                assert(b[1] == OP_PUSHDATA1 && b[2] as int == b.len() - 3);
                assert(null_data_payload(b) =~= d@);
            } else if n <= 65535 {
                assert(b[2] as int + 256 * (b[3] as int) == n);
                assert(is_null_data(b));
                assert(null_data_payload(b) =~= d@);
            } else {
                assert(b[2] as int + 256 * (b[3] as int) + 65536 * (b[4] as int) + 16777216 * (
                b[5] as int) == n);
                assert(is_null_data(b));
                assert(null_data_payload(b) =~= d@);
            }
        },
        PubkeyScriptType::P2WPKH(h) => {
            let b = generated(t);
            assert(p2wpkh_program(b) =~= h@);
        },
        PubkeyScriptType::P2WSH(h) => {
            let b = generated(t);
            assert(p2wsh_program(b) =~= h@);
        },
        PubkeyScriptType::P2TR(_) => {
        },
    }
}

} // verus!
