//! Public-key introspection of a lock script: enumerating the plain public
//! keys of its policy-expression tree, and substituting keys leaf by leaf.
//!
//! Parsing script bytes into the tree, listing its key-bearing leaves,
//! rebuilding it with replaced keys and re-encoding it are delegated to the
//! miniscript collaborator behind trusted wrappers; the leaf-level
//! decisions — collecting keys, failing on a hash-only leaf, choosing each
//! replacement — are this module's own, verified logic.

use miniscript::miniscript::iter::PkPkh;
use vstd::prelude::*;
use crate::bytes::bytes_eq;
use crate::script::{LockScript, Script};
use crate::source::key_pushes_canonical;

verus! {

/// The miniscript parse error, declared so the library's error type can
/// carry it verbatim.
#[verifier::external_type_specification]
#[verifier::external_body]
pub struct ExMiniscriptError(miniscript::Error);

/// The policy tree of a lock script, over serialized keys in the version-0
/// witness context, held opaquely: its contents are spoken of only through
/// [`ms_leaves`] and [`ms_script`].
#[verifier::external_body]
pub struct Policy {
    ms: miniscript::Miniscript<bitcoin::PublicKey, miniscript::Segwitv0>,
}

/// What script bytes parse to: `None` when they are not a valid policy
/// expression, otherwise the depth-first sequence of key-bearing leaves of
/// the tree, each either a plain serialized key (`true`, key bytes) or a
/// key-hash commitment (`false`, 20 hash bytes).
pub uninterp spec fn policy_of(b: Seq<u8>) -> Option<Seq<(bool, Seq<u8>)>>;

/// The depth-first sequence of key-bearing leaves a policy tree holds,
/// tagged and serialized as in [`policy_of`].
pub uninterp spec fn ms_leaves(m: Policy) -> Seq<(bool, Seq<u8>)>;

/// The canonical script encoding of a policy tree.
pub uninterp spec fn ms_script(m: Policy) -> Seq<u8>;

/// Whether the bytes parse as a public key: the compressed and
/// uncompressed SEC forms, and also the rare hybrid forms (prefix 0x06 or
/// 0x07), which parse but re-serialize 0x04-prefixed — which is why the
/// replacement table demands more than this predicate alone.
pub uninterp spec fn is_pubkey(b: Seq<u8>) -> bool;

/// One key-bearing leaf of a policy tree: a plain serialized key, or a
/// 20-byte hash standing for a key that the script does not reveal.
pub enum KeyOrHash {
    /// A plain public key, in full.
    Plain(crate::keys::Pubkey),
    /// A hash commitment to an unrevealed public key.
    Hashed(crate::keys::PubkeyHash),
}

impl View for KeyOrHash {
    type V = (bool, Seq<u8>);

    open spec fn view(&self) -> (bool, Seq<u8>) {
        match self {
            KeyOrHash::Plain(k) => (true, k@),
            KeyOrHash::Hashed(h) => (false, h@),
        }
    }
}

/// The replacement a table assigns to the key bytes `k`: the second half of
/// the first pair whose first half equals `k`, or `k` itself when no pair
/// matches ("no change").
pub open spec fn mapped_key(m: Seq<(Seq<u8>, Seq<u8>)>, k: Seq<u8>) -> Seq<u8>
    decreases m.len(),
{
    if m.len() == 0 {
        k
    } else if m[0].0 == k {
        m[0].1
    } else {
        mapped_key(m.drop_first(), k)
    }
}

/// Every plain-key leaf passed through the table; hash leaves unchanged.
pub open spec fn leaves_replaced(
    leaves: Seq<(bool, Seq<u8>)>,
    m: Seq<(Seq<u8>, Seq<u8>)>,
) -> Seq<(bool, Seq<u8>)> {
    leaves.map(
        |i: int, l: (bool, Seq<u8>)|
            if l.0 {
                (true, mapped_key(m, l.1))
            } else {
                l
            },
    )
}

/// A mapping that changes nothing — an empty table — keeps every leaf as
/// it stands.
pub proof fn lemma_empty_map_keeps_leaves(
    leaves: Seq<(bool, Seq<u8>)>,
    m: Seq<(Seq<u8>, Seq<u8>)>,
)
    requires
        m.len() == 0,
    ensures
        leaves_replaced(leaves, m) == leaves,
{
    assert forall|i: int| 0 <= i < leaves.len() implies leaves_replaced(leaves, m)[i]
        == leaves[i] by {
        if leaves[i].0 {
            assert(mapped_key(m, leaves[i].1) == leaves[i].1);
        }
    }
    assert(leaves_replaced(leaves, m) =~= leaves);
}

/// Substitution touches only the key bytes of plain-key leaves: the
/// replaced sequence has the same length, and each leaf keeps its tag, so
/// a tree whose leaves were all plain keys still has only plain-key leaves
/// after substitution.
pub proof fn lemma_leaves_replaced_keep_shape(
    leaves: Seq<(bool, Seq<u8>)>,
    m: Seq<(Seq<u8>, Seq<u8>)>,
)
    ensures
        leaves_replaced(leaves, m).len() == leaves.len(),
        forall|i: int| 0 <= i < leaves.len() ==> leaves_replaced(leaves, m)[i].0 == leaves[i].0,
{
    assert forall|i: int| 0 <= i < leaves.len() implies leaves_replaced(leaves, m)[i].0
        == leaves[i].0 by {
        if !leaves[i].0 {
            assert(leaves_replaced(leaves, m)[i] == leaves[i]);
        }
    }
}

/// All leaves standing before position `j` are plain keys.
pub open spec fn all_plain_before(l: Seq<(bool, Seq<u8>)>, j: int) -> bool {
    forall|i: int| 0 <= i < j ==> l[i].0
}

/// A finite, ordered replacement table for public keys: the mapping of the
/// substitution operation, written down as data.  The first pair whose key
/// matches decides the replacement; a key matching no pair is left
/// unchanged, so an empty table is the identity mapping.  The intended use
/// is to enumerate a script's keys (for instance with `extract_pubkeys`)
/// and enter a replacement for each key to change.  Every replacement
/// value is checked on entry to be a valid, compressed serialized public
/// key (33 bytes), so the table can never put an invalid key into a
/// script, and a key written into a tree re-serializes exactly as the
/// table holds it.
pub struct KeyMap {
    pairs: Vec<(crate::keys::Pubkey, crate::keys::Pubkey)>,
}

impl View for KeyMap {
    type V = Seq<(Seq<u8>, Seq<u8>)>;

    closed spec fn view(&self) -> Seq<(Seq<u8>, Seq<u8>)> {
        self.pairs@.map(|i: int, p: (crate::keys::Pubkey, crate::keys::Pubkey)| (p.0@, p.1@))
    }
}

impl KeyMap {
    /// Every replacement value in the table is a valid, compressed
    /// serialized key.
    #[verifier::type_invariant]
    spec fn wf(&self) -> bool {
        forall|i: int|
            0 <= i < self@.len() ==> is_pubkey(self@[i].1) && self@[i].1.len() == 33
    }

    /// An empty table: every key is left unchanged.
    pub fn new() -> (r: Self)
        ensures
            r@.len() == 0,
    {
        KeyMap { pairs: Vec::new() }
    }

    /// Appends a replacement pair.  The pair is accepted exactly when the
    /// replacement bytes are a valid, compressed serialized public key (33
    /// bytes); otherwise the table is left as it stands.  Only compressed
    /// replacements are accepted because an uncompressed or hybrid key
    /// would not re-serialize byte-for-byte in every position of a
    /// version-0 witness tree.
    pub fn add(&mut self, key: &crate::keys::Pubkey, replacement: &crate::keys::Pubkey) -> (r: bool)
        ensures
            r == (is_pubkey(replacement@) && replacement@.len() == 33),
            r ==> final(self)@ == old(self)@.push((key@, replacement@)),
            !r ==> final(self)@ == old(self)@,
    {
        proof {
            use_type_invariant(&*self);
        }
        let ok = replacement.as_bytes().len() == 33 && check_pubkey(replacement.as_bytes());
        if ok {
            let mut pairs: Vec<(crate::keys::Pubkey, crate::keys::Pubkey)> = Vec::new();
            core::mem::swap(&mut pairs, &mut self.pairs);
            pairs.push(
                (crate::keys::Pubkey::from_bytes(key.to_bytes()), crate::keys::Pubkey::from_bytes(
                    replacement.to_bytes(),
                )),
            );
            proof {
                assert(pairs@.map(
                    |i: int, p: (crate::keys::Pubkey, crate::keys::Pubkey)| (p.0@, p.1@),
                ) =~= old(self)@.push((key@, replacement@)));
            }
            core::mem::swap(&mut pairs, &mut self.pairs);
        }
        ok
    }

    /// Looks key bytes up in the table: the first matching pair's
    /// replacement, or the key itself when no pair matches.
    pub fn apply(&self, key: &Vec<u8>) -> (r: Vec<u8>)
        ensures
            r@ == mapped_key(self@, key@),
    {
        let n = self.pairs.len();
        let mut i: usize = 0;
        proof {
            assert(self@.skip(0) =~= self@);
        }
        while i < n
            invariant
                n == self.pairs@.len(),
                n == self@.len(),
                i <= n,
                mapped_key(self@, key@) == mapped_key(self@.skip(i as int), key@),
            decreases n - i,
        {
            let p = &self.pairs[i];
            if bytes_eq(p.0.as_bytes(), key) {
                proof {
                    assert(self@.skip(i as int)[0] == (p.0@, p.1@));
                }
                return p.1.to_bytes();
            }
            proof {
                assert(self@.skip(i as int)[0] == (p.0@, p.1@));
                assert(self@.skip(i as int).drop_first() =~= self@.skip(i as int + 1));
            }
            i += 1;
        }
        proof {
            assert(self@.skip(n as int) =~= Seq::<(Seq<u8>, Seq<u8>)>::empty());
        }
        crate::bytes::sub_bytes(key, 0, key.len())
    }
}

/// Relies on `bitcoin::PublicKey::from_slice`: whether the bytes are a
/// valid SEC-encoded public key, a function of the bytes alone.
#[verifier::external_body]
fn check_pubkey(b: &Vec<u8>) -> (r: bool)
    ensures
        r == is_pubkey(b@),
{
    bitcoin::PublicKey::from_slice(b).is_ok()
}

/// Relies on `Miniscript::parse_insane` in the version-0 witness context:
/// parses script bytes into the policy tree.  Parsing accepts only
/// minimally-encoded pushes, so a parsed tree re-encodes to exactly the
/// input bytes — except that a 65-byte key in the rare hybrid encodings
/// (prefix 0x06 or 0x07) parses but re-serializes 0x04-prefixed, so the
/// byte-exact round trip is promised only of scripts whose 65-byte pushes
/// all begin 0x04 ([`key_pushes_canonical`]).  Every plain-key leaf
/// carries a key the parser itself deserialized, hence valid key bytes.
#[verifier::external_body]
fn ms_parse(b: &Vec<u8>) -> (r: Result<Policy, miniscript::Error>)
    ensures
        r is Ok <==> policy_of(b@) is Some,
        r matches Ok(m) ==> policy_of(b@) == Some(ms_leaves(m)) && (key_pushes_canonical(b@)
            ==> ms_script(m) == b@) && (forall|i: int|
            0 <= i < ms_leaves(m).len() && ms_leaves(m)[i].0 ==> is_pubkey(ms_leaves(m)[i].1)),
{
    let script = bitcoin::blockdata::script::Script::from(b.clone());
    miniscript::Miniscript::<bitcoin::PublicKey, miniscript::Segwitv0>::parse_insane(&script).map(
        |ms| Policy { ms },
    )
}

/// Relies on `Miniscript::iter_pk_pkh`: the key-bearing leaves of the
/// tree, in depth-first order, each converted to the library's leaf type.
#[verifier::external_body]
fn ms_items(m: &Policy) -> (r: Vec<KeyOrHash>)
    ensures
        r@.len() == ms_leaves(*m).len(),
        forall|i: int| 0 <= i < r@.len() ==> r@[i]@ == ms_leaves(*m)[i],
{
    m.ms.iter_pk_pkh().map(|item| match item {
        PkPkh::PlainPubkey(pk) => KeyOrHash::Plain(crate::keys::Pubkey::from_bytes(pk.to_bytes())),
        PkPkh::HashedPubkey(h) => KeyOrHash::Hashed(crate::keys::PubkeyHash::from_bytes(
            <bitcoin::hashes::hash160::Hash as bitcoin::hashes::Hash>::into_inner(h).to_vec(),
        )),
    }).collect()
}

/// Relies on `Miniscript::translate_pk`: rebuilds the tree with every
/// plain-key leaf passed through the table and every hash leaf kept.  The
/// structure is preserved, so a rebuild that changes no key returns the
/// original tree, with the same encoding.  The table's replacements are
/// compressed keys (its type invariant), so each written leaf
/// re-serializes exactly as the table holds it.  The rebuilt tree's
/// encoding parses back to the same leaf sequence: replacements never grow
/// a node, single-key leaves stay compressed — every `Policy` arises from
/// parsing, which rejects uncompressed single-key leaves in this context —
/// and multi-signature leaves are accepted in any encoding on re-parse.
#[verifier::external_body]
fn ms_translate(m: &Policy, map: &KeyMap) -> (r: Policy)
    requires
        forall|i: int|
            0 <= i < ms_leaves(*m).len() && ms_leaves(*m)[i].0 ==> is_pubkey(ms_leaves(*m)[i].1),
    ensures
        ms_leaves(r) == leaves_replaced(ms_leaves(*m), map@),
        leaves_replaced(ms_leaves(*m), map@) == ms_leaves(*m) ==> ms_script(r) == ms_script(*m),
        policy_of(ms_script(r)) == Some(ms_leaves(r)),
{
    let res: Result<_, ()> = miniscript::TranslatePk::translate_pk(
        &m.ms,
        |pk: &bitcoin::PublicKey| Ok(
            bitcoin::PublicKey::from_slice(&map.apply(&pk.to_bytes())).expect("valid key bytes"),
        ),
        |h: &bitcoin::hashes::hash160::Hash| Ok(*h),
    );
    Policy { ms: res.unwrap() }
}

/// Relies on `Miniscript::encode`: the canonical script bytes of the tree.
#[verifier::external_body]
fn ms_encode(m: &Policy) -> (r: Vec<u8>)
    ensures
        r@ == ms_script(*m),
{
    m.ms.encode().to_bytes()
}

/// Extraction or substitution failed: the bytes are not a valid policy
/// expression, or a leaf commits to a key only by hash.
#[derive(Debug)]
pub enum LockScriptParseError {
    /// A leaf commits to a public key only through this hash; the key
    /// cannot be recovered from the script alone.
    PubkeyHash(crate::keys::PubkeyHash),
    /// The bytes are not a valid policy expression; the parser's error is
    /// carried verbatim.
    Miniscript(miniscript::Error),
}

impl From<miniscript::Error> for LockScriptParseError {
    fn from(e: miniscript::Error) -> Self {
        LockScriptParseError::Miniscript(e)
    }
}

impl vstd::std_specs::convert::FromSpecImpl<miniscript::Error> for LockScriptParseError {
    open spec fn obeys_from_spec() -> bool {
        true
    }

    open spec fn from_spec(e: miniscript::Error) -> Self {
        LockScriptParseError::Miniscript(e)
    }
}

impl LockScript {
    /// Enumerates the plain public keys of the lock script's policy tree,
    /// in depth-first order of first appearance, duplicates kept.  Fails
    /// with the parser's error when the bytes are not a policy expression,
    /// and with the first hash-only leaf when one stands in the tree: a
    /// hash alone cannot recover its key.
    pub fn extract_pubkeys(&self) -> (r: Result<Vec<crate::keys::Pubkey>, LockScriptParseError>)
        ensures
            r is Ok <==> (policy_of(self@) matches Some(l) && all_plain_before(l, l.len() as int)),
            r matches Ok(keys) ==> (policy_of(self@) matches Some(l) && keys@.len() == l.len() && (
            forall|i: int| 0 <= i < l.len() ==> keys@[i]@ == l[i].1)),
            r matches Err(e) ==> (e is Miniscript <==> policy_of(self@) is None),
            r matches Err(e) ==> (policy_of(self@) matches Some(l) ==> (e matches
            LockScriptParseError::PubkeyHash(h) && (exists|j: int|
                0 <= j < l.len() && !l[j].0 && all_plain_before(l, j) && h@ == l[j].1))),
    {
        let m = match ms_parse(self.as_inner().as_bytes()) {
            Ok(m) => m,
            Err(e) => {
                return Err(LockScriptParseError::Miniscript(e));
            },
        };
        let items = ms_items(&m);
        let ghost l = ms_leaves(m);
        let n = items.len();
        let mut keys: Vec<crate::keys::Pubkey> = Vec::new();
        let mut i: usize = 0;
        while i < n
            invariant
                n == items@.len(),
                n == l.len(),
                policy_of(self@) == Some(l),
                forall|t: int| 0 <= t < n ==> items@[t]@ == l[t],
                i <= n,
                all_plain_before(l, i as int),
                keys@.len() == i,
                forall|t: int| 0 <= t < i ==> keys@[t]@ == l[t].1,
            decreases n - i,
        {
            match &items[i] {
                KeyOrHash::Plain(k) => {
                    keys.push(crate::keys::Pubkey::from_bytes(k.to_bytes()));
                },
                KeyOrHash::Hashed(h) => {
                    let err_hash = crate::keys::PubkeyHash::from_bytes(h.to_bytes());
                    proof {
                        assert(items@[i as int]@ == l[i as int]);
                        assert(!l[i as int].0);
                        assert(all_plain_before(l, i as int));
                        assert(err_hash@ == l[i as int].1);
                        assert(exists|j: int|
                            0 <= j < l.len() && !l[j].0 && all_plain_before(l, j) && err_hash@
                                == l[j].1);
                    }
                    return Err(LockScriptParseError::PubkeyHash(err_hash));
                },
            }
            i += 1;
        }
        Ok(keys)
    }

    /// Rewrites the lock script, passing every plain public key of its
    /// policy tree through the replacement table and leaving hash leaves
    /// untouched, then re-encodes the tree as a new lock script.  Fails
    /// exactly when the bytes are not a policy expression; the table itself
    /// can never fail, since leaving a key unchanged is always allowed.
    /// The result parses to exactly the replaced leaf sequence.  A table
    /// that changes no key of the tree — the empty table in particular —
    /// gives back byte-identical script content, for scripts whose 65-byte
    /// key pushes are canonically 0x04-prefixed (a hybrid-encoded key
    /// re-serializes differently even untouched).
    pub fn replace_pubkeys(&self, map: &KeyMap) -> (r: Result<LockScript, LockScriptParseError>)
        ensures
            r is Ok <==> policy_of(self@) is Some,
            r matches Err(e) ==> e is Miniscript,
            r matches Ok(s) ==> (policy_of(self@) matches Some(l) ==> (key_pushes_canonical(self@)
                && leaves_replaced(l, map@) == l ==> s@ == self@)),
            r matches Ok(s) ==> (map@.len() == 0 && key_pushes_canonical(self@) ==> s@ == self@),
            r matches Ok(s) ==> (policy_of(self@) matches Some(l) ==> policy_of(s@) == Some(
                leaves_replaced(l, map@),
            )),
    {
        let m = match ms_parse(self.as_inner().as_bytes()) {
            Ok(m) => m,
            Err(e) => {
                return Err(LockScriptParseError::Miniscript(e));
            },
        };
        let t = ms_translate(&m, map);
        let out = ms_encode(&t);
        proof {
            if map@.len() == 0 {
                lemma_empty_map_keeps_leaves(ms_leaves(m), map@);
            }
        }
        Ok(LockScript::from_inner(Script::new(out)))
    }
}

} // verus!
