//! Plain-value models of the cryptographic data that scripts commit to: a
//! serialized public key and the four hash commitments.  Each type owns its
//! bytes; equality is byte-exact.

use vstd::prelude::*;

verus! {

/// A serialized elliptic-curve public key: 33 bytes (compressed) or 65
/// bytes (uncompressed) in SEC encoding.  The bytes are carried as they
/// stand; whether they denote a point on the curve is not decided here.
pub struct Pubkey {
    bytes: Vec<u8>,
}

impl View for Pubkey {
    type V = Seq<u8>;

    closed spec fn view(&self) -> Seq<u8> {
        self.bytes@
    }
}

impl Pubkey {
    /// A well-formed serialized key has the length of one of the two SEC forms.
    pub open spec fn wf(&self) -> bool {
        self@.len() == 33 || self@.len() == 65
    }

    /// Wraps serialized key bytes, unchanged.
    pub fn from_bytes(bytes: Vec<u8>) -> (r: Self)
        ensures
            r@ == bytes@,
    {
        Pubkey { bytes }
    }

    /// The key's bytes, borrowed.
    pub fn as_bytes(&self) -> (r: &Vec<u8>)
        ensures
            r@ == self@,
    {
        &self.bytes
    }

    /// The key's bytes, as an owned copy.
    pub fn to_bytes(&self) -> (r: Vec<u8>)
        ensures
            r@ == self@,
    {
        crate::bytes::sub_bytes(&self.bytes, 0, self.bytes.len())
    }
}

/// A 20-byte commitment to a public key: RIPEMD-160 of SHA-256 of the
/// serialized key.
#[derive(Debug)]
pub struct PubkeyHash {
    bytes: Vec<u8>,
}

/// A 20-byte commitment to a script: RIPEMD-160 of SHA-256 of the script bytes.
pub struct ScriptHash {
    bytes: Vec<u8>,
}

/// The 20-byte witness program of a version-0 pay-to-witness-public-key-hash
/// output: RIPEMD-160 of SHA-256 of the serialized key.
pub struct WPubkeyHash {
    bytes: Vec<u8>,
}

/// The 32-byte witness program of a version-0 pay-to-witness-script-hash
/// output: SHA-256 of the script bytes.
pub struct WScriptHash {
    bytes: Vec<u8>,
}

impl View for PubkeyHash {
    type V = Seq<u8>;

    closed spec fn view(&self) -> Seq<u8> {
        self.bytes@
    }
}

impl PubkeyHash {
    /// A well-formed value holds exactly 20 bytes.
    pub open spec fn wf(&self) -> bool {
        self@.len() == 20
    }

    /// Wraps hash bytes, unchanged.
    pub fn from_bytes(bytes: Vec<u8>) -> (r: Self)
        ensures
            r@ == bytes@,
    {
        PubkeyHash { bytes }
    }

    /// The hash's bytes, borrowed.
    pub fn as_bytes(&self) -> (r: &Vec<u8>)
        ensures
            r@ == self@,
    {
        &self.bytes
    }

    /// The hash's bytes, as an owned copy.
    pub fn to_bytes(&self) -> (r: Vec<u8>)
        ensures
            r@ == self@,
    {
        crate::bytes::sub_bytes(&self.bytes, 0, self.bytes.len())
    }
}

impl View for ScriptHash {
    type V = Seq<u8>;

    closed spec fn view(&self) -> Seq<u8> {
        self.bytes@
    }
}

impl ScriptHash {
    /// A well-formed value holds exactly 20 bytes.
    pub open spec fn wf(&self) -> bool {
        self@.len() == 20
    }

    /// Wraps hash bytes, unchanged.
    pub fn from_bytes(bytes: Vec<u8>) -> (r: Self)
        ensures
            r@ == bytes@,
    {
        ScriptHash { bytes }
    }

    /// The hash's bytes, borrowed.
    pub fn as_bytes(&self) -> (r: &Vec<u8>)
        ensures
            r@ == self@,
    {
        &self.bytes
    }

    /// The hash's bytes, as an owned copy.
    pub fn to_bytes(&self) -> (r: Vec<u8>)
        ensures
            r@ == self@,
    {
        crate::bytes::sub_bytes(&self.bytes, 0, self.bytes.len())
    }
}

impl View for WPubkeyHash {
    type V = Seq<u8>;

    closed spec fn view(&self) -> Seq<u8> {
        self.bytes@
    }
}

impl WPubkeyHash {
    /// A well-formed value holds exactly 20 bytes.
    pub open spec fn wf(&self) -> bool {
        self@.len() == 20
    }

    /// Wraps hash bytes, unchanged.
    pub fn from_bytes(bytes: Vec<u8>) -> (r: Self)
        ensures
            r@ == bytes@,
    {
        WPubkeyHash { bytes }
    }

    /// The hash's bytes, borrowed.
    pub fn as_bytes(&self) -> (r: &Vec<u8>)
        ensures
            r@ == self@,
    {
        &self.bytes
    }

    /// The hash's bytes, as an owned copy.
    pub fn to_bytes(&self) -> (r: Vec<u8>)
        ensures
            r@ == self@,
    {
        crate::bytes::sub_bytes(&self.bytes, 0, self.bytes.len())
    }
}

impl View for WScriptHash {
    type V = Seq<u8>;

    closed spec fn view(&self) -> Seq<u8> {
        self.bytes@
    }
}

impl WScriptHash {
    /// A well-formed value holds exactly 32 bytes.
    pub open spec fn wf(&self) -> bool {
        self@.len() == 32
    }

    /// Wraps hash bytes, unchanged.
    pub fn from_bytes(bytes: Vec<u8>) -> (r: Self)
        ensures
            r@ == bytes@,
    {
        WScriptHash { bytes }
    }

    /// The hash's bytes, borrowed.
    pub fn as_bytes(&self) -> (r: &Vec<u8>)
        ensures
            r@ == self@,
    {
        &self.bytes
    }

    /// The hash's bytes, as an owned copy.
    pub fn to_bytes(&self) -> (r: Vec<u8>)
        ensures
            r@ == self@,
    {
        crate::bytes::sub_bytes(&self.bytes, 0, self.bytes.len())
    }
}

} // verus!
