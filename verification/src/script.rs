//! The raw script type and the six typed wrappers naming the logical
//! positions a script can occupy in Bitcoin's nesting hierarchy.
//!
//! A script committed into an outer script is only represented there by a
//! hash, while the inner layer carries the full content.  The wrappers keep
//! those layers apart at the type level: crossing from one layer to another
//! always goes through an explicit conversion and never mutates in place.

use vstd::prelude::*;

verus! {

/// A raw Bitcoin script: an opaque ordered sequence of bytes.  No semantics
/// is attached here; equality of scripts is byte-exact equality.
pub struct Script {
    bytes: Vec<u8>,
}

impl View for Script {
    type V = Seq<u8>;

    closed spec fn view(&self) -> Seq<u8> {
        self.bytes@
    }
}

impl Script {
    /// Wraps raw bytes as a script, without loss or change.
    pub fn new(bytes: Vec<u8>) -> (r: Self)
        ensures
            r@ == bytes@,
    {
        Script { bytes }
    }

    /// The script's bytes, borrowed.
    pub fn as_bytes(&self) -> (r: &Vec<u8>)
        ensures
            r@ == self@,
    {
        &self.bytes
    }

    /// The script's bytes, as an owned copy.
    pub fn to_bytes(&self) -> (r: Vec<u8>)
        ensures
            r@ == self@,
    {
        crate::bytes::sub_bytes(&self.bytes, 0, self.bytes.len())
    }

    /// The script's bytes, surrendered.
    pub fn into_bytes(self) -> (r: Vec<u8>)
        ensures
            r@ == self@,
    {
        self.bytes
    }
}

/// The deepest nested layer of the hierarchy: a script that commits to no
/// further script or key hashes.
pub struct LockScript {
    script: Script,
}

/// The content of the `scriptPubKey` slot of a transaction output.
pub struct PubkeyScript {
    script: Script,
}

/// The content of the `scriptSig` slot of a transaction input.
pub struct SigScript {
    script: Script,
}

/// A script revealed inside a segregated-witness field of an input.
pub struct WitnessScript {
    script: Script,
}

/// A nested script revealed to satisfy a script-hash commitment.
pub struct RedeemScript {
    script: Script,
}

/// A leaf script revealed inside a taproot witness.
pub struct TapScript {
    script: Script,
}

impl View for LockScript {
    type V = Seq<u8>;

    closed spec fn view(&self) -> Seq<u8> {
        self.script@
    }
}

impl LockScript {
    /// Tags a raw script as a lock script; the bytes are kept unchanged.
    pub fn from_inner(script: Script) -> (r: Self)
        ensures
            r@ == script@,
    {
        LockScript { script }
    }

    /// Removes the tag; the bytes come back unchanged.
    pub fn into_inner(self) -> (r: Script)
        ensures
            r@ == self@,
    {
        self.script
    }

    /// The underlying script, borrowed.
    pub fn as_inner(&self) -> (r: &Script)
        ensures
            r@ == self@,
    {
        &self.script
    }
}

impl View for PubkeyScript {
    type V = Seq<u8>;

    closed spec fn view(&self) -> Seq<u8> {
        self.script@
    }
}

impl PubkeyScript {
    /// Tags a raw script as an output locking script; the bytes are kept unchanged.
    pub fn from_inner(script: Script) -> (r: Self)
        ensures
            r@ == script@,
    {
        PubkeyScript { script }
    }

    /// Removes the tag; the bytes come back unchanged.
    pub fn into_inner(self) -> (r: Script)
        ensures
            r@ == self@,
    {
        self.script
    }

    /// The underlying script, borrowed.
    pub fn as_inner(&self) -> (r: &Script)
        ensures
            r@ == self@,
    {
        &self.script
    }
}

impl View for SigScript {
    type V = Seq<u8>;

    closed spec fn view(&self) -> Seq<u8> {
        self.script@
    }
}

impl SigScript {
    /// Tags a raw script as an input unlocking script; the bytes are kept unchanged.
    pub fn from_inner(script: Script) -> (r: Self)
        ensures
            r@ == script@,
    {
        SigScript { script }
    }

    /// Removes the tag; the bytes come back unchanged.
    pub fn into_inner(self) -> (r: Script)
        ensures
            r@ == self@,
    {
        self.script
    }

    /// The underlying script, borrowed.
    pub fn as_inner(&self) -> (r: &Script)
        ensures
            r@ == self@,
    {
        &self.script
    }
}

impl View for WitnessScript {
    type V = Seq<u8>;

    closed spec fn view(&self) -> Seq<u8> {
        self.script@
    }
}

impl WitnessScript {
    /// Tags a raw script as a witness script; the bytes are kept unchanged.
    pub fn from_inner(script: Script) -> (r: Self)
        ensures
            r@ == script@,
    {
        WitnessScript { script }
    }

    /// Removes the tag; the bytes come back unchanged.
    pub fn into_inner(self) -> (r: Script)
        ensures
            r@ == self@,
    {
        self.script
    }

    /// The underlying script, borrowed.
    pub fn as_inner(&self) -> (r: &Script)
        ensures
            r@ == self@,
    {
        &self.script
    }
}

impl View for RedeemScript {
    type V = Seq<u8>;

    closed spec fn view(&self) -> Seq<u8> {
        self.script@
    }
}

impl RedeemScript {
    /// Tags a raw script as a redeem script; the bytes are kept unchanged.
    pub fn from_inner(script: Script) -> (r: Self)
        ensures
            r@ == script@,
    {
        RedeemScript { script }
    }

    /// Removes the tag; the bytes come back unchanged.
    pub fn into_inner(self) -> (r: Script)
        ensures
            r@ == self@,
    {
        self.script
    }

    /// The underlying script, borrowed.
    pub fn as_inner(&self) -> (r: &Script)
        ensures
            r@ == self@,
    {
        &self.script
    }
}

impl View for TapScript {
    type V = Seq<u8>;

    closed spec fn view(&self) -> Seq<u8> {
        self.script@
    }
}

impl TapScript {
    /// Tags a raw script as a taproot leaf script; the bytes are kept unchanged.
    pub fn from_inner(script: Script) -> (r: Self)
        ensures
            r@ == script@,
    {
        TapScript { script }
    }

    /// Removes the tag; the bytes come back unchanged.
    pub fn into_inner(self) -> (r: Script)
        ensures
            r@ == self@,
    {
        self.script
    }

    /// The underlying script, borrowed.
    pub fn as_inner(&self) -> (r: &Script)
        ensures
            r@ == self@,
    {
        &self.script
    }
}

} // verus!
