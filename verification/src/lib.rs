//! Typed Bitcoin script wrappers, classification of output locking scripts,
//! hash-verified resolution of nested script commitments, and public-key
//! introspection of lock scripts through the miniscript policy parser.

mod bytes;
mod classify;
mod keys;
mod policy;
mod script;
mod source;

pub use classify::{
    classifies_as, generated, is_null_data, is_p2pk, is_p2pkh, is_p2sh, is_p2tr, is_p2wpkh,
    is_p2wsh, lemma_classification_inverts_generation, lemma_classification_unique,
    lemma_templates_mutually_exclusive, matches_no_template, null_data_payload, p2pk_key,
    p2pkh_hash, p2sh_hash, p2tr_key, p2wpkh_program, p2wsh_program, same_classification,
    PubkeyScriptType, ScriptGenerationError,
};
pub use keys::{PubkeyHash, Pubkey, ScriptHash, WPubkeyHash, WScriptHash};
pub use policy::{
    all_plain_before, is_pubkey, leaves_replaced, lemma_empty_map_keeps_leaves,
    lemma_leaves_replaced_keep_shape, mapped_key, ms_leaves, ms_script, policy_of, KeyMap,
    KeyOrHash, LockScriptParseError, Policy,
};
pub use source::{
    hash160_of, instr_at, key_pushes_canonical, last_push_from, pushdata2_len, pushdata4_len,
    pushes_canonical_from, sha256_of, PubkeyScriptSource, ScriptSourceError,
};
pub use script::{
    LockScript, PubkeyScript, RedeemScript, Script, SigScript, TapScript, WitnessScript,
};
