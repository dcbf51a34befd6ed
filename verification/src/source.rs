//! Hash-verified resolution of a classified output script into its source:
//! the resolved content standing behind each hash commitment.
//!
//! An outer script commits only to a hash of the nested content.  Recovering
//! the content therefore goes through an explicit fallible constructor: the
//! caller supplies the candidate pre-image, the appropriate hash of the
//! candidate is recomputed, and the resolution succeeds exactly when it
//! equals the committed hash.  Construction through these checks is the one
//! way to obtain a resolved value.

use vstd::prelude::*;
use crate::bytes::{bytes_eq, sub_bytes};
use crate::classify::PubkeyScriptType;
use crate::keys::{Pubkey, ScriptHash, WScriptHash};
use crate::script::{LockScript, RedeemScript, Script, SigScript, TapScript, WitnessScript};

verus! {

/// The byte count announced by a two-byte little-endian push-length field
/// standing after position `i`.
pub open spec fn pushdata2_len(b: Seq<u8>, i: int) -> int {
    b[i + 1] as int + 256 * (b[i + 2] as int)
}

/// The byte count announced by a four-byte little-endian push-length field
/// standing after position `i`.
pub open spec fn pushdata4_len(b: Seq<u8>, i: int) -> int {
    b[i + 1] as int + 256 * (b[i + 2] as int) + 65536 * (b[i + 3] as int) + 16777216 * (b[i
        + 4] as int)
}

/// The instruction standing at position `i` of a script: `None` when the
/// script is malformed there (a push running past the end), otherwise the
/// position after the instruction, paired with the pushed data when the
/// instruction is a push.  An opcode from 1 to 75 pushes that many
/// following bytes; the three explicit push opcodes carry a one-, two- or
/// four-byte little-endian length; opcode 0 pushes an empty array; every
/// other opcode stands alone.
pub open spec fn instr_at(b: Seq<u8>, i: int) -> Option<(int, Option<Seq<u8>>)> {
    if !(0 <= i < b.len()) {
        None
    } else {
        let op = b[i] as int;
        if op == 0 {
            Some(((i + 1) as int, Some(Seq::<u8>::empty())))
        } else if 1 <= op <= 75 {
            if i + 1 + op <= b.len() {
                Some(((i + 1 + op) as int, Some(b.subrange(i + 1, i + 1 + op))))
            } else {
                None
            }
        } else if op == 76 {
            if i + 2 <= b.len() && i + 2 + (b[i + 1] as int) <= b.len() {
                Some(
                    ((i + 2 + (b[i + 1] as int)) as int, Some(
                        b.subrange(i + 2, i + 2 + (b[i + 1] as int)),
                    )),
                )
            } else {
                None
            }
        } else if op == 77 {
            if i + 3 <= b.len() && i + 3 + pushdata2_len(b, i) <= b.len() {
                Some(
                    ((i + 3 + pushdata2_len(b, i)) as int, Some(
                        b.subrange(i + 3, i + 3 + pushdata2_len(b, i)),
                    )),
                )
            } else {
                None
            }
        } else if op == 78 {
            if i + 5 <= b.len() && i + 5 + pushdata4_len(b, i) <= b.len() {
                Some(
                    ((i + 5 + pushdata4_len(b, i)) as int, Some(
                        b.subrange(i + 5, i + 5 + pushdata4_len(b, i)),
                    )),
                )
            } else {
                None
            }
        } else {
            Some(((i + 1) as int, None))
        }
    }
}

/// The data of the last push at or after position `i`, starting from the
/// last push seen so far: `None` when the script is malformed from `i` on,
/// otherwise the final push's data, or the carried value when no further
/// push stands there.
pub open spec fn last_push_from(b: Seq<u8>, i: int, cur: Option<Seq<u8>>) -> Option<
    Option<Seq<u8>>,
>
    decreases b.len() - i,
{
    if !(0 <= i <= b.len()) {
        None
    } else if i == b.len() {
        Some(cur)
    } else {
        match instr_at(b, i) {
            None => None,
            Some((j, d)) => last_push_from(
                b,
                j,
                match d {
                    Some(data) => Some(data),
                    None => cur,
                },
            ),
        }
    }
}

/// The 20-byte digest RIPEMD-160 of SHA-256 of the input bytes, as a
/// function of the bytes alone.
pub uninterp spec fn hash160_of(b: Seq<u8>) -> Seq<u8>;

/// The 32-byte digest SHA-256 of the input bytes, as a function of the
/// bytes alone.
pub uninterp spec fn sha256_of(b: Seq<u8>) -> Seq<u8>;

/// Relies on `bitcoin::hashes::hash160::Hash::hash`: the 20-byte
/// RIPEMD-160-of-SHA-256 digest of the input, depending on the input bytes
/// alone.
#[verifier::external_body]
fn hash160(b: &Vec<u8>) -> (r: Vec<u8>)
    ensures
        r@ == hash160_of(b@),
        r@.len() == 20,
{
    let d = <bitcoin::hashes::hash160::Hash as bitcoin::hashes::Hash>::hash(b);
    <bitcoin::hashes::hash160::Hash as bitcoin::hashes::Hash>::into_inner(d).to_vec()
}

/// Relies on `bitcoin::hashes::sha256::Hash::hash`: the 32-byte SHA-256
/// digest of the input, depending on the input bytes alone.
#[verifier::external_body]
fn sha256(b: &Vec<u8>) -> (r: Vec<u8>)
    ensures
        r@ == sha256_of(b@),
        r@.len() == 32,
{
    let d = <bitcoin::hashes::sha256::Hash as bitcoin::hashes::Hash>::hash(b);
    <bitcoin::hashes::sha256::Hash as bitcoin::hashes::Hash>::into_inner(d).to_vec()
}

/// A candidate pre-image's hash does not equal the commitment being
/// resolved.  Recoverable: the caller may supply another candidate or treat
/// the script as unresolved.
#[derive(Debug, PartialEq, Eq, Structural)]
pub enum ScriptSourceError {
    /// The recomputed hash of the candidate differs from the committed hash.
    HashMismatch,
    /// The unlocking script is malformed, or ends without a pushed script
    /// that could stand behind the commitment.
    NoTrailingPush,
    /// Checking a pay-to-taproot commitment is a key-tweak computation,
    /// not a hash comparison, and is not defined by this design.
    UnsupportedTaproot,
}

/// An output script classification carrying the resolved content behind
/// each hash commitment, rather than only the hash.
pub enum PubkeyScriptSource {
    /// Custom script: the script is itself the innermost lock script.
    P2S(LockScript),
    /// Pay-to-pubkey: the key was already carried in full.
    P2PK(Pubkey),
    /// Pay-to-pubkey-hash: the key whose hash the script commits to.
    P2PKH(Pubkey),
    /// Pay-to-script-hash: the lock script whose hash the script commits to.
    P2SH(LockScript),
    /// Null-data: the attached raw bytes, already carried in full.
    P2OR(Vec<u8>),
    /// Pay-to-witness-pubkey-hash: the key whose hash is the witness program.
    P2WPKH(Pubkey),
    /// Pay-to-witness-script-hash: the lock script whose hash is the
    /// witness program.
    P2WSH(LockScript),
    /// Pay-to-taproot: the output key together with a revealed leaf script.
    P2TR(Pubkey, TapScript),
}

impl PubkeyScriptType {
    /// Resolves a key-hash commitment with a candidate key.  Succeeds
    /// exactly when the 160-bit hash of the candidate's bytes equals the
    /// committed hash; the resolved source then carries the candidate
    /// exactly.
    pub fn resolve_key(&self, candidate: &Pubkey) -> (r: Result<
        PubkeyScriptSource,
        ScriptSourceError,
    >)
        requires
            self is P2PKH || self is P2WPKH,
        ensures
            r is Ok <==> (self matches PubkeyScriptType::P2PKH(h) && hash160_of(candidate@) == h@)
                || (self matches PubkeyScriptType::P2WPKH(h) && hash160_of(candidate@) == h@),
            r matches Ok(s) ==> ((self is P2PKH ==> (s matches PubkeyScriptSource::P2PKH(k)
                && k@ == candidate@)) && (self is P2WPKH ==> (s matches
            PubkeyScriptSource::P2WPKH(k) && k@ == candidate@))),
            r matches Err(e) ==> e == ScriptSourceError::HashMismatch,
    {
        let digest = hash160(candidate.as_bytes());
        match self {
            PubkeyScriptType::P2PKH(h) => {
                if bytes_eq(&digest, h.as_bytes()) {
                    Ok(PubkeyScriptSource::P2PKH(Pubkey::from_bytes(candidate.to_bytes())))
                } else {
                    Err(ScriptSourceError::HashMismatch)
                }
            },
            PubkeyScriptType::P2WPKH(h) => {
                if bytes_eq(&digest, h.as_bytes()) {
                    Ok(PubkeyScriptSource::P2WPKH(Pubkey::from_bytes(candidate.to_bytes())))
                } else {
                    Err(ScriptSourceError::HashMismatch)
                }
            },
            _ => {
                proof {
                    assert(false);
                }
                Err(ScriptSourceError::HashMismatch)
            },
        }
    }

    /// Resolves a script-hash commitment with a candidate lock script.  For
    /// a pay-to-script-hash commitment the 160-bit hash of the candidate's
    /// bytes is checked; for a pay-to-witness-script-hash commitment its
    /// SHA-256 digest is checked.  Succeeds exactly on equality; the
    /// resolved source then carries the candidate exactly.
    pub fn resolve_script(&self, candidate: &LockScript) -> (r: Result<
        PubkeyScriptSource,
        ScriptSourceError,
    >)
        requires
            self is P2SH || self is P2WSH,
        ensures
            r is Ok <==> (self matches PubkeyScriptType::P2SH(h) && hash160_of(candidate@) == h@)
                || (self matches PubkeyScriptType::P2WSH(h) && sha256_of(candidate@) == h@),
            r matches Ok(s) ==> ((self is P2SH ==> (s matches PubkeyScriptSource::P2SH(l)
                && l@ == candidate@)) && (self is P2WSH ==> (s matches
            PubkeyScriptSource::P2WSH(l) && l@ == candidate@))),
            r matches Err(e) ==> e == ScriptSourceError::HashMismatch,
    {
        match self {
            PubkeyScriptType::P2SH(h) => {
                let digest = hash160(candidate.as_inner().as_bytes());
                if bytes_eq(&digest, h.as_bytes()) {
                    Ok(
                        PubkeyScriptSource::P2SH(
                            LockScript::from_inner(Script::new(candidate.as_inner().to_bytes())),
                        ),
                    )
                } else {
                    Err(ScriptSourceError::HashMismatch)
                }
            },
            PubkeyScriptType::P2WSH(h) => {
                let digest = sha256(candidate.as_inner().as_bytes());
                if bytes_eq(&digest, h.as_bytes()) {
                    Ok(
                        PubkeyScriptSource::P2WSH(
                            LockScript::from_inner(Script::new(candidate.as_inner().to_bytes())),
                        ),
                    )
                } else {
                    Err(ScriptSourceError::HashMismatch)
                }
            },
            _ => {
                proof {
                    assert(false);
                }
                Err(ScriptSourceError::HashMismatch)
            },
        }
    }

    /// Resolving a pay-to-taproot commitment against a candidate internal
    /// key and leaf script would require the taproot output-key tweak
    /// check, which is a key computation rather than a hash comparison and
    /// is not defined by this design.  The attempt is reported explicitly
    /// rather than silently accepted or wrongly checked, mirroring the
    /// unsupported taproot generation path.
    pub fn resolve_taproot(&self, _internal_key: &Pubkey, _leaf: &TapScript) -> (r: Result<
        PubkeyScriptSource,
        ScriptSourceError,
    >)
        requires
            self is P2TR,
        ensures
            r matches Err(e) && e == ScriptSourceError::UnsupportedTaproot,
    {
        Err(ScriptSourceError::UnsupportedTaproot)
    }

    /// Relabels a variant that already carries its full data.  A custom
    /// script is itself the innermost lock script; a pay-to-pubkey key and
    /// null-data bytes pass through unchanged.  This conversion cannot
    /// fail.
    pub fn resolve_plain(&self) -> (r: PubkeyScriptSource)
        requires
            self is P2S || self is P2PK || self is P2OR,
        ensures
            self matches PubkeyScriptType::P2S(s) ==> (r matches PubkeyScriptSource::P2S(l) && l@
                == s@),
            self matches PubkeyScriptType::P2PK(k) ==> (r matches PubkeyScriptSource::P2PK(k2)
                && k2@ == k@),
            self matches PubkeyScriptType::P2OR(d) ==> (r matches PubkeyScriptSource::P2OR(d2)
                && d2@ == d@),
    {
        match self {
            PubkeyScriptType::P2S(s) => {
                PubkeyScriptSource::P2S(LockScript::from_inner(Script::new(s.as_inner().to_bytes())))
            },
            PubkeyScriptType::P2PK(k) => {
                PubkeyScriptSource::P2PK(Pubkey::from_bytes(k.to_bytes()))
            },
            PubkeyScriptType::P2OR(d) => {
                PubkeyScriptSource::P2OR(sub_bytes(d, 0, d.len()))
            },
            _ => {
                proof {
                    assert(false);
                }
                PubkeyScriptSource::P2OR(Vec::new())
            },
        }
    }
}

impl RedeemScript {
    /// Accepts a candidate script as the redeem script standing behind a
    /// pay-to-script-hash commitment.  Succeeds exactly when the 160-bit
    /// hash of the candidate's bytes equals the commitment; the accepted
    /// redeem script then holds the candidate's bytes exactly.
    pub fn resolve(candidate: &Script, commitment: &ScriptHash) -> (r: Result<
        RedeemScript,
        ScriptSourceError,
    >)
        ensures
            r is Ok <==> hash160_of(candidate@) == commitment@,
            r matches Ok(s) ==> s@ == candidate@,
            r matches Err(e) ==> e == ScriptSourceError::HashMismatch,
    {
        let digest = hash160(candidate.as_bytes());
        if bytes_eq(&digest, commitment.as_bytes()) {
            Ok(RedeemScript::from_inner(Script::new(candidate.to_bytes())))
        } else {
            Err(ScriptSourceError::HashMismatch)
        }
    }
}

impl WitnessScript {
    /// Accepts a candidate script as the witness script standing behind a
    /// pay-to-witness-script-hash commitment.  Succeeds exactly when the
    /// SHA-256 digest of the candidate's bytes equals the witness program;
    /// the accepted witness script then holds the candidate's bytes
    /// exactly.
    pub fn resolve(candidate: &Script, commitment: &WScriptHash) -> (r: Result<
        WitnessScript,
        ScriptSourceError,
    >)
        ensures
            r is Ok <==> sha256_of(candidate@) == commitment@,
            r matches Ok(s) ==> s@ == candidate@,
            r matches Err(e) ==> e == ScriptSourceError::HashMismatch,
    {
        let digest = sha256(candidate.as_bytes());
        if bytes_eq(&digest, commitment.as_bytes()) {
            Ok(WitnessScript::from_inner(Script::new(candidate.to_bytes())))
        } else {
            Err(ScriptSourceError::HashMismatch)
        }
    }
}

/// Every push of 65 bytes standing at or after position `i` begins with
/// the uncompressed-key prefix 0x04.  In the scripts this library parses,
/// a 65-byte push can only be a serialized public key; a 65-byte key in
/// the rarer hybrid encodings (prefix 0x06 or 0x07) parses as a key but
/// re-serializes 0x04-prefixed, so byte-exact re-encoding can only be
/// promised of scripts that this predicate accepts.  A script that is
/// malformed from `i` on constrains nothing (it does not parse at all).
pub open spec fn pushes_canonical_from(b: Seq<u8>, i: int) -> bool
    decreases b.len() - i,
{
    if !(0 <= i <= b.len()) {
        true
    } else if i == b.len() {
        true
    } else {
        match instr_at(b, i) {
            None => true,
            Some((j, d)) => (match d {
                Some(data) => data.len() == 65 ==> data[0] == 0x04,
                None => true,
            }) && pushes_canonical_from(b, j),
        }
    }
}

/// Every 65-byte push of the whole script begins with 0x04.
pub open spec fn key_pushes_canonical(b: Seq<u8>) -> bool {
    pushes_canonical_from(b, 0)
}

/// Walking one instruction forward keeps the canonical-pushes predicate in
/// step.
proof fn lemma_canonical_step(b: Seq<u8>, i: int, j: int, d: Option<Seq<u8>>)
    requires
        0 <= i < b.len(),
        instr_at(b, i) == Some((j, d)),
    ensures
        pushes_canonical_from(b, i) == ((match d {
            Some(data) => data.len() == 65 ==> data[0] == 0x04,
            None => true,
        }) && pushes_canonical_from(b, j)),
{
}

impl Script {
    /// Whether every 65-byte push of the script begins with the
    /// uncompressed-key prefix 0x04: the scripts for which byte-exact
    /// policy re-encoding is promised.
    pub fn has_canonical_key_pushes(&self) -> (r: bool)
        ensures
            r == key_pushes_canonical(self@),
    {
        let b = self.as_bytes();
        let n = b.len();
        let mut i: usize = 0;
        while i < n
            invariant
                b@ == self@,
                n == b@.len(),
                i <= n,
                key_pushes_canonical(b@) == pushes_canonical_from(b@, i as int),
            decreases n - i,
        {
            let ghost i0 = i as int;
            let op = b[i];
            if op == 0 {
                i = i + 1;
                proof {
                    lemma_canonical_step(b@, i0, i as int, Some(Seq::<u8>::empty()));
                }
            } else if op >= 1 && op <= 75 {
                let l = op as usize;
                if n - i < 1 + l {
                    proof {
                        assert(instr_at(b@, i0) is None);
                    }
                    return true;
                }
                if l == 65 && b[i + 1] != 0x04 {
                    proof {
                        lemma_canonical_step(
                            b@,
                            i0,
                            i0 + 1 + l,
                            Some(b@.subrange(i0 + 1, i0 + 1 + l)),
                        );
                    }
                    return false;
                }
                proof {
                    lemma_canonical_step(b@, i0, i0 + 1 + l, Some(b@.subrange(i0 + 1, i0 + 1 + l)));
                }
                i = i + 1 + l;
            } else if op == 76 {
                if n - i < 2 {
                    proof {
                        assert(instr_at(b@, i0) is None);
                    }
                    return true;
                }
                let l = b[i + 1] as usize;
                if n - i - 2 < l {
                    proof {
                        assert(instr_at(b@, i0) is None);
                    }
                    return true;
                }
                if l == 65 && b[i + 2] != 0x04 {
                    proof {
                        lemma_canonical_step(
                            b@,
                            i0,
                            i0 + 2 + l,
                            Some(b@.subrange(i0 + 2, i0 + 2 + l)),
                        );
                    }
                    return false;
                }
                proof {
                    lemma_canonical_step(b@, i0, i0 + 2 + l, Some(b@.subrange(i0 + 2, i0 + 2 + l)));
                }
                i = i + 2 + l;
            } else if op == 77 {
                if n - i < 3 {
                    proof {
                        assert(instr_at(b@, i0) is None);
                    }
                    return true;
                }
                let l = b[i + 1] as usize + 256 * (b[i + 2] as usize);
                if n - i - 3 < l {
                    proof {
                        assert(instr_at(b@, i0) is None);
                    }
                    return true;
                }
                if l == 65 && b[i + 3] != 0x04 {
                    proof {
                        lemma_canonical_step(
                            b@,
                            i0,
                            i0 + 3 + l,
                            Some(b@.subrange(i0 + 3, i0 + 3 + l)),
                        );
                    }
                    return false;
                }
                proof {
                    lemma_canonical_step(b@, i0, i0 + 3 + l, Some(b@.subrange(i0 + 3, i0 + 3 + l)));
                }
                i = i + 3 + l;
            } else if op == 78 {
                if n - i < 5 {
                    proof {
                        assert(instr_at(b@, i0) is None);
                    }
                    return true;
                }
                let l64: u64 = b[i + 1] as u64 + 256 * (b[i + 2] as u64) + 65536 * (b[i
                    + 3] as u64) + 16777216 * (b[i + 4] as u64);
                if ((n - i - 5) as u64) < l64 {
                    proof {
                        assert(instr_at(b@, i0) is None);
                    }
                    return true;
                }
                let l = l64 as usize;
                if l == 65 && b[i + 5] != 0x04 {
                    proof {
                        lemma_canonical_step(
                            b@,
                            i0,
                            i0 + 5 + l,
                            Some(b@.subrange(i0 + 5, i0 + 5 + l)),
                        );
                    }
                    return false;
                }
                proof {
                    lemma_canonical_step(b@, i0, i0 + 5 + l, Some(b@.subrange(i0 + 5, i0 + 5 + l)));
                }
                i = i + 5 + l;
            } else {
                i = i + 1;
                proof {
                    lemma_canonical_step(b@, i0, i as int, Option::<Seq<u8>>::None);
                }
            }
        }
        true
    }
}

/// Walking one instruction forward keeps the last-push computation in
/// step: from position `i` with instruction ending at `j`, the result from
/// `i` is the result from `j`, with the carried push updated when the
/// instruction pushed data.
proof fn lemma_last_push_step(b: Seq<u8>, i: int, cur: Option<Seq<u8>>, j: int, d: Option<Seq<u8>>)
    requires
        0 <= i < b.len(),
        instr_at(b, i) == Some((j, d)),
    ensures
        last_push_from(b, i, cur) == last_push_from(
            b,
            j,
            match d {
                Some(data) => Some(data),
                None => cur,
            },
        ),
{
}

impl SigScript {
    /// The data of the last push of the unlocking script, walking its
    /// instructions from the front: `None` when the script is malformed or
    /// holds no push at all.
    pub fn last_push(&self) -> (r: Option<Vec<u8>>)
        ensures
            r is Some <==> (last_push_from(self@, 0, Option::<Seq<u8>>::None) matches Some(c)
                && c is Some),
            r matches Some(v) ==> last_push_from(self@, 0, Option::<Seq<u8>>::None) == Some(
                Some(v@),
            ),
    {
        let b = self.as_inner().as_bytes();
        let n = b.len();
        let mut cur: Option<Vec<u8>> = None;
        let ghost mut gcur: Option<Seq<u8>> = Option::<Seq<u8>>::None;
        let mut i: usize = 0;
        while i < n
            invariant
                b@ == self@,
                n == b@.len(),
                i <= n,
                cur is Some <==> gcur is Some,
                cur matches Some(v) ==> gcur == Some(v@),
                last_push_from(b@, 0, Option::<Seq<u8>>::None) == last_push_from(
                    b@,
                    i as int,
                    gcur,
                ),
            decreases n - i,
        {
            let ghost i0 = i as int;
            let ghost g0 = gcur;
            let op = b[i];
            if op == 0 {
                cur = Some(Vec::new());
                i = i + 1;
                proof {
                    gcur = Some(Seq::<u8>::empty());
                    lemma_last_push_step(b@, i0, g0, i as int, gcur);
                }
            } else if op >= 1 && op <= 75 {
                let l = op as usize;
                if n - i < 1 + l {
                    proof {
                        assert(instr_at(b@, i0) is None);
                    }
                    return None;
                }
                cur = Some(sub_bytes(b, i + 1, i + 1 + l));
                i = i + 1 + l;
                proof {
                    gcur = Some(b@.subrange(i0 + 1, i as int));
                    lemma_last_push_step(b@, i0, g0, i as int, gcur);
                }
            } else if op == 76 {
                if n - i < 2 {
                    proof {
                        assert(instr_at(b@, i0) is None);
                    }
                    return None;
                }
                let l = b[i + 1] as usize;
                if n - i - 2 < l {
                    proof {
                        assert(instr_at(b@, i0) is None);
                    }
                    return None;
                }
                cur = Some(sub_bytes(b, i + 2, i + 2 + l));
                i = i + 2 + l;
                proof {
                    gcur = Some(b@.subrange(i0 + 2, i as int));
                    lemma_last_push_step(b@, i0, g0, i as int, gcur);
                }
            } else if op == 77 {
                if n - i < 3 {
                    proof {
                        assert(instr_at(b@, i0) is None);
                    }
                    return None;
                }
                let l = b[i + 1] as usize + 256 * (b[i + 2] as usize);
                if n - i - 3 < l {
                    proof {
                        assert(instr_at(b@, i0) is None);
                    }
                    return None;
                }
                cur = Some(sub_bytes(b, i + 3, i + 3 + l));
                i = i + 3 + l;
                proof {
                    gcur = Some(b@.subrange(i0 + 3, i as int));
                    lemma_last_push_step(b@, i0, g0, i as int, gcur);
                }
            } else if op == 78 {
                if n - i < 5 {
                    proof {
                        assert(instr_at(b@, i0) is None);
                    }
                    return None;
                }
                let l64: u64 = b[i + 1] as u64 + 256 * (b[i + 2] as u64) + 65536 * (b[i
                    + 3] as u64) + 16777216 * (b[i + 4] as u64);
                if ((n - i - 5) as u64) < l64 {
                    proof {
                        assert(instr_at(b@, i0) is None);
                    }
                    return None;
                }
                let l = l64 as usize;
                cur = Some(sub_bytes(b, i + 5, i + 5 + l));
                i = i + 5 + l;
                proof {
                    gcur = Some(b@.subrange(i0 + 5, i as int));
                    lemma_last_push_step(b@, i0, g0, i as int, gcur);
                }
            } else {
                i = i + 1;
                proof {
                    lemma_last_push_step(b@, i0, g0, i as int, Option::<Seq<u8>>::None);
                }
            }
        }
        proof {
            assert(last_push_from(b@, n as int, gcur) == Some(gcur));
        }
        cur
    }
}

impl RedeemScript {
    /// Resolves the redeem script revealed by a pay-to-script-hash input:
    /// the unlocking script's trailing push is accepted as the redeem
    /// script exactly when its 160-bit hash equals the output's committed
    /// script hash.
    pub fn from_sig_script(sig: &SigScript, commitment: &ScriptHash) -> (r: Result<
        RedeemScript,
        ScriptSourceError,
    >)
        ensures
            r is Ok <==> (last_push_from(sig@, 0, Option::<Seq<u8>>::None) matches Some(c)
                && c matches Some(d) && hash160_of(d) == commitment@),
            r matches Ok(s) ==> last_push_from(sig@, 0, Option::<Seq<u8>>::None) == Some(
                Some(s@),
            ) && hash160_of(s@) == commitment@,
            r matches Err(e) ==> (e == ScriptSourceError::NoTrailingPush <==> !(last_push_from(
                sig@,
                0,
                Option::<Seq<u8>>::None,
            ) matches Some(c) && c is Some)),
    {
        match sig.last_push() {
            Some(d) => RedeemScript::resolve(&Script::new(d), commitment),
            None => Err(ScriptSourceError::NoTrailingPush),
        }
    }
}

} // verus!
