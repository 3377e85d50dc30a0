//! Secure key-store signing operations.
//!
//! A signer owns a P-256 key identified by an application tag and offers
//! sign and verify operations over byte strings.  The key material and the
//! signatures here are fabricated deterministically from the tag and the
//! data: they model the key-store interface and its validation rules, not
//! a cryptographic primitive, and must not be relied on for security.

use vstd::prelude::*;

use crate::error::Error;
use crate::error::Subsystem;
use crate::text::dec_u64;
use crate::text::spec_dec;

verus! {

/// Elliptic-curve algorithm for key-store operations.
#[derive(Clone, Copy, Debug, PartialEq, Eq, Hash, Structural)]
pub enum Algorithm {
    /// NIST P-256 (secp256r1), the only supported algorithm.
    P256,
}

impl Default for Algorithm {
    /// The only algorithm there is.
    fn default() -> (r: Algorithm)
        ensures
            r == Algorithm::P256,
    {
        Algorithm::P256
    }
}

/// Display name of an algorithm.
pub open spec fn spec_algorithm_name(a: Algorithm) -> Seq<char> {
    match a {
        Algorithm::P256 => "P-256 (secp256r1)"@,
    }
}

impl Algorithm {
    /// Human-readable display name.
    pub fn name(&self) -> (r: String)
        ensures
            r@ == spec_algorithm_name(*self),
    {
        match self {
            Algorithm::P256 => "P-256 (secp256r1)".to_owned(),
        }
    }
}

/// Access-control requirements for key usage.
#[derive(Clone, Copy, Debug, PartialEq, Eq, Hash, Structural)]
pub enum AccessControl {
    /// Key can be used without additional authentication.
    Open,
    /// Requires the device passcode.
    DevicePasscode,
    /// Requires biometric authentication.
    Biometric,
    /// Requires biometric authentication or the passcode.
    BiometricOrPasscode,
}

impl Default for AccessControl {
    /// No additional authentication.
    fn default() -> (r: AccessControl)
        ensures
            r == AccessControl::Open,
    {
        AccessControl::Open
    }
}

/// Display name of an access-control requirement.
pub open spec fn spec_access_control_name(a: AccessControl) -> Seq<char> {
    match a {
        AccessControl::Open => "None"@,
        AccessControl::DevicePasscode => "Device Passcode"@,
        AccessControl::Biometric => "Biometric"@,
        AccessControl::BiometricOrPasscode => "Biometric or Passcode"@,
    }
}

impl AccessControl {
    /// Human-readable display name.
    pub fn name(&self) -> (r: String)
        ensures
            r@ == spec_access_control_name(*self),
    {
        match self {
            AccessControl::Open => "None".to_owned(),
            AccessControl::DevicePasscode => "Device Passcode".to_owned(),
            AccessControl::Biometric => "Biometric".to_owned(),
            AccessControl::BiometricOrPasscode => "Biometric or Passcode".to_owned(),
        }
    }
}

/// Configuration for creating a key.
#[derive(Clone, Debug)]
pub struct KeyConfig {
    /// Application tag identifying the key.
    pub tag: String,
    /// Algorithm to use; only P-256 is supported.
    pub algorithm: Algorithm,
    /// Access-control requirement.
    pub access_control: AccessControl,
    /// Human-readable label for the key.
    pub label: Option<String>,
}

impl KeyConfig {
    /// A configuration with default settings: P-256, no access control,
    /// no label.
    pub fn new(tag: &str) -> (r: KeyConfig)
        ensures
            r.tag@ == tag@,
            r.algorithm == Algorithm::P256,
            r.access_control == AccessControl::Open,
            r.label is None,
    {
        KeyConfig {
            tag: tag.to_owned(),
            algorithm: Algorithm::P256,
            access_control: AccessControl::Open,
            label: None,
        }
    }

    /// Set the access-control requirement.
    pub fn with_access_control(self, access_control: AccessControl) -> (r: KeyConfig)
        ensures
            r.tag == self.tag,
            r.algorithm == self.algorithm,
            r.access_control == access_control,
            r.label == self.label,
    {
        KeyConfig { access_control, ..self }
    }

    /// Set a human-readable label.
    pub fn with_label(self, label: &str) -> (r: KeyConfig)
        ensures
            r.tag == self.tag,
            r.algorithm == self.algorithm,
            r.access_control == self.access_control,
            r.label matches Some(l) && l@ == label@,
    {
        KeyConfig { label: Some(label.to_owned()), ..self }
    }
}

/// A P-256 signature in DER encoding: between 64 and 72 bytes.
#[derive(Clone, Debug, PartialEq, Eq)]
pub struct Signature {
    bytes: Vec<u8>,
}

impl Signature {
    /// The signature bytes, as seen by specifications.
    pub closed spec fn spec_bytes(&self) -> Seq<u8> {
        self.bytes@
    }

    /// Create a signature from raw bytes.
    ///
    /// Fails with invalid input exactly when the length is outside the
    /// 64 to 72 bytes of a DER-encoded P-256 signature.
    pub fn from_bytes(bytes: Vec<u8>) -> (r: Result<Signature, Error>)
        ensures
            bytes@.len() == 0 ==> (r matches Err(e) && e matches Error::InvalidInput { reason }
                && reason@ == "signature cannot be empty"@),
            0 < bytes@.len() && !(64 <= bytes@.len() <= 72) ==> (r matches Err(e) && e matches
                Error::InvalidInput { reason } && reason@ == "invalid P-256 signature length: "@
                + spec_dec(bytes@.len() as nat) + " (expected 64-72)"@),
            64 <= bytes@.len() <= 72 ==> (r matches Ok(s) && s.spec_bytes() == bytes@),
    {
        let len = bytes.len();
        if len == 0 {
            return Err(Error::invalid_input("signature cannot be empty"));
        }
        if len < 64 || len > 72 {
            let mut reason = "invalid P-256 signature length: ".to_owned();
            reason.append(dec_u64(len as u64).as_str());
            reason.append(" (expected 64-72)");
            proof {
                assert(reason@ =~= "invalid P-256 signature length: "@ + spec_dec(
                    bytes@.len() as nat,
                ) + " (expected 64-72)"@);
            }
            return Err(Error::invalid_input(reason.as_str()));
        }
        Ok(Signature { bytes })
    }

    /// Get the raw signature bytes.
    pub fn as_bytes(&self) -> (r: &[u8])
        ensures
            r@ == self.spec_bytes(),
    {
        self.bytes.as_slice()
    }

    /// Get the signature length.
    pub fn len(&self) -> (r: usize)
        ensures
            r == self.spec_bytes().len(),
    {
        self.bytes.len()
    }

    /// Check if the signature is empty; false for every signature that
    /// passed validation.
    pub fn is_empty(&self) -> (r: bool)
        ensures
            r == (self.spec_bytes().len() == 0),
    {
        self.bytes.is_empty()
    }
}

/// Public key of a key pair, in uncompressed point format: a 0x04 marker
/// followed by the 32-byte X and Y coordinates.
#[derive(Clone, Debug, PartialEq, Eq)]
pub struct PublicKey {
    bytes: Vec<u8>,
}

impl PublicKey {
    /// The key bytes, as seen by specifications.
    pub closed spec fn spec_bytes(&self) -> Seq<u8> {
        self.bytes@
    }

    /// A validated key: 65 bytes starting with the 0x04 marker.
    pub open spec fn wf(&self) -> bool {
        self.spec_bytes().len() == 65 && self.spec_bytes()[0] == 4u8
    }

    /// Create a public key from raw bytes.
    ///
    /// Fails with invalid input exactly when the length is not the 65
    /// bytes of an uncompressed P-256 point or the marker byte is wrong.
    pub fn from_bytes(bytes: Vec<u8>) -> (r: Result<PublicKey, Error>)
        ensures
            bytes@.len() != 65 ==> (r matches Err(e) && e matches Error::InvalidInput { reason }
                && reason@ == "invalid P-256 public key length: "@ + spec_dec(bytes@.len() as nat)
                + " (expected 65)"@),
            bytes@.len() == 65 && bytes@[0] != 4u8 ==> (r matches Err(e) && e matches
                Error::InvalidInput { reason } && reason@
                == "public key must be in uncompressed point format (0x04 prefix)"@),
            bytes@.len() == 65 && bytes@[0] == 4u8 ==> (r matches Ok(k) && k.spec_bytes() == bytes@
                && k.wf()),
    {
        let len = bytes.len();
        if len != 65 {
            let mut reason = "invalid P-256 public key length: ".to_owned();
            reason.append(dec_u64(len as u64).as_str());
            reason.append(" (expected 65)");
            proof {
                assert(reason@ =~= "invalid P-256 public key length: "@ + spec_dec(
                    bytes@.len() as nat,
                ) + " (expected 65)"@);
            }
            return Err(Error::invalid_input(reason.as_str()));
        }
        if *vstd::slice::slice_index_get(bytes.as_slice(), 0) != 4u8 {
            return Err(Error::invalid_input(
                "public key must be in uncompressed point format (0x04 prefix)",
            ));
        }
        Ok(PublicKey { bytes })
    }

    /// Get the raw public key bytes.
    pub fn as_bytes(&self) -> (r: &[u8])
        ensures
            r@ == self.spec_bytes(),
    {
        self.bytes.as_slice()
    }

    /// The X coordinate of the public key point.
    pub fn x(&self) -> (r: &[u8])
        requires
            self.wf(),
        ensures
            r@ == self.spec_bytes().subrange(1, 33),
    {
        vstd::slice::slice_subrange(self.bytes.as_slice(), 1, 33)
    }

    /// The Y coordinate of the public key point.
    pub fn y(&self) -> (r: &[u8])
        requires
            self.wf(),
        ensures
            r@ == self.spec_bytes().subrange(33, 65),
    {
        vstd::slice::slice_subrange(self.bytes.as_slice(), 33, 65)
    }
}

/// The wrapping byte sum of a byte string: the seed from which stub key
/// and signature material is fabricated.
pub open spec fn spec_byte_sum(bytes: Seq<u8>) -> u8
    decreases bytes.len(),
{
    if bytes.len() == 0 {
        0u8
    } else {
        ((spec_byte_sum(bytes.drop_last()) + bytes.last()) % 256) as u8
    }
}

/// The seed fabricated from a key tag: the wrapping byte sum of its
/// UTF-8 encoding.
pub open spec fn spec_tag_seed(tag: Seq<char>) -> u8 {
    spec_byte_sum(vstd::utf8::encode_utf8(tag))
}

fn byte_sum(bytes: &[u8]) -> (r: u8)
    ensures
        r == spec_byte_sum(bytes@),
{
    let n = bytes.len();
    let mut acc: u8 = 0;
    let mut i: usize = 0;
    while i < n
        invariant
            i <= n,
            n == bytes@.len(),
            acc == spec_byte_sum(bytes@.take(i as int)),
        decreases n - i,
    {
        let b = *vstd::slice::slice_index_get(bytes, i);
        acc = ((acc as u16 + b as u16) % 256) as u8;
        i = i + 1;
        proof {
            assert(bytes@.take(i as int).drop_last() =~= bytes@.take(i - 1));
        }
    }
    proof {
        assert(bytes@.take(n as int) =~= bytes@);
    }
    acc
}

fn bytes_eq(a: &[u8], b: &[u8]) -> (r: bool)
    ensures
        r == (a@ == b@),
{
    let n = a.len();
    if n != b.len() {
        return false;
    }
    let mut i: usize = 0;
    while i < n
        invariant
            i <= n,
            n == a@.len(),
            n == b@.len(),
            forall|j: int| 0 <= j < i ==> a@[j] == b@[j],
        decreases n - i,
    {
        if *vstd::slice::slice_index_get(a, i) != *vstd::slice::slice_index_get(b, i) {
            return false;
        }
        i = i + 1;
    }
    proof {
        assert(a@ =~= b@);
    }
    true
}

/// The fabricated public key for a tag seed: the 0x04 marker, the seed,
/// 31 zero bytes of X coordinate, and 32 one bytes of Y coordinate.
pub open spec fn spec_stub_public_key(seed: u8) -> Seq<u8> {
    Seq::new(
        65,
        |i: int|
            if i == 0 {
                4u8
            } else if i == 1 {
                seed
            } else if i < 33 {
                0u8
            } else {
                1u8
            },
    )
}

/// The fabricated DER signature for a data seed and a tag seed: a DER
/// sequence of two 32-byte integers, one filled with each seed.
pub open spec fn spec_stub_signature(data_seed: u8, tag_seed: u8) -> Seq<u8> {
    Seq::new(
        70,
        |i: int|
            if i == 0 {
                0x30u8
            } else if i == 1 {
                0x44u8
            } else if i == 2 || i == 36 {
                0x02u8
            } else if i == 3 || i == 37 {
                0x20u8
            } else if i < 36 {
                data_seed
            } else {
                tag_seed
            },
    )
}

/// Key-store signer for P-256 signing operations.
///
/// The signer is confined to the context that created it; it is not
/// shared between threads.
#[derive(Debug)]
pub struct SecureEnclaveSigner {
    tag: String,
    public_key: PublicKey,
}

impl SecureEnclaveSigner {
    /// The key tag, as seen by specifications.
    pub closed spec fn spec_tag(&self) -> Seq<char> {
        self.tag@
    }

    /// The public key, as seen by specifications.
    pub closed spec fn spec_public_key(&self) -> PublicKey {
        self.public_key
    }

    /// Check if secure key-store hardware is present.  This build does
    /// not target a platform with one, so the probe reports `false`.
    pub fn is_available() -> (r: bool)
        ensures
            !r,
    {
        crate::ffi::security::is_secure_enclave_available()
    }

    /// Create a new key under `config`.
    ///
    /// Gated on availability: with no secure key store present — as on
    /// this build, whose probe reports `false` — every request reports
    /// the subsystem as not available.  On a platform with the key store,
    /// [`make_signer`](Self::make_signer) takes over: an empty tag is
    /// rejected as invalid input and any other tag yields a signer.
    pub fn create(config: KeyConfig) -> (r: Result<SecureEnclaveSigner, Error>)
        ensures
            r matches Err(e) && e matches Error::NotAvailable { subsystem } && subsystem
                == Subsystem::SecureEnclave,
    {
        if !Self::is_available() {
            return Err(Error::not_available(Subsystem::SecureEnclave));
        }
        Self::make_signer(config)
    }

    /// Fabricate a signer for `config`, with no availability gate.
    ///
    /// Fails with invalid input exactly when the tag is empty.  The key
    /// material is fabricated deterministically from the tag; see the
    /// module notes.
    fn make_signer(config: KeyConfig) -> (r: Result<SecureEnclaveSigner, Error>)
        ensures
            config.tag@.len() == 0 ==> (r matches Err(e) && e matches Error::InvalidInput {
                reason,
            } && reason@ == "key tag cannot be empty"@),
            config.tag@.len() > 0 ==> (r matches Ok(s) && s.spec_tag() == config.tag@
                && s.spec_public_key().spec_bytes() == spec_stub_public_key(
                spec_tag_seed(config.tag@),
            ) && s.spec_public_key().wf()),
    {
        if config.tag.as_str().is_empty() {
            return Err(Error::invalid_input("key tag cannot be empty"));
        }
        let tag_hash = byte_sum(config.tag.as_str().as_bytes());
        let mut public_key_bytes: Vec<u8> = Vec::new();
        public_key_bytes.push(0x04);
        public_key_bytes.push(tag_hash);
        let mut i: usize = 0;
        while i < 31
            invariant
                i <= 31,
                public_key_bytes@.len() == 2 + i,
                public_key_bytes@[0] == 4u8,
                public_key_bytes@[1] == spec_tag_seed(config.tag@),
                forall|j: int| 2 <= j < 2 + i ==> public_key_bytes@[j] == 0u8,
            decreases 31 - i,
        {
            public_key_bytes.push(0);
            i = i + 1;
        }
        let mut k: usize = 0;
        while k < 32
            invariant
                k <= 32,
                public_key_bytes@.len() == 33 + k,
                public_key_bytes@[0] == 4u8,
                public_key_bytes@[1] == spec_tag_seed(config.tag@),
                forall|j: int| 2 <= j < 33 ==> public_key_bytes@[j] == 0u8,
                forall|j: int| 33 <= j < 33 + k ==> public_key_bytes@[j] == 1u8,
            decreases 32 - k,
        {
            public_key_bytes.push(1);
            k = k + 1;
        }
        proof {
            assert(public_key_bytes@ =~= spec_stub_public_key(
                spec_tag_seed(config.tag@),
            ));
        }
        let public_key = match PublicKey::from_bytes(public_key_bytes) {
            Ok(public_key) => public_key,
            Err(e) => {
                return Err(e);
            },
        };
        Ok(SecureEnclaveSigner { tag: config.tag, public_key })
    }

    /// Load an existing key by tag.
    ///
    /// Gated on availability: with no secure key store present — as on
    /// this build — every request reports the subsystem as not
    /// available.  On a platform with the key store, an empty tag is
    /// rejected as invalid input, and any other tag is reported as not
    /// found, since this signer holds no persistent store.
    pub fn load(tag: &str) -> (r: Result<SecureEnclaveSigner, Error>)
        ensures
            r matches Err(e) && e matches Error::NotAvailable { subsystem } && subsystem
                == Subsystem::SecureEnclave,
    {
        if !Self::is_available() {
            return Err(Error::not_available(Subsystem::SecureEnclave));
        }
        if tag.is_empty() {
            return Err(Error::invalid_input("key tag cannot be empty"));
        }
        let mut resource = "key with tag '".to_owned();
        resource.append(tag);
        resource.append("'");
        proof {
            assert(resource@ =~= "key with tag '"@ + tag@ + "'"@);
        }
        Err(Error::not_found(resource.as_str()))
    }

    /// Delete the key.  Consumes the signer, so the key cannot be used
    /// afterwards; always succeeds.
    pub fn delete(self) -> (r: Result<(), Error>)
        ensures
            r matches Ok(_),
    {
        let _ = self.tag;
        Ok(())
    }

    /// Get the public key.
    pub fn public_key(&self) -> (r: &PublicKey)
        ensures
            r == self.spec_public_key(),
    {
        &self.public_key
    }

    /// Get the key tag.
    pub fn tag(&self) -> (r: &str)
        ensures
            r@ == self.spec_tag(),
    {
        self.tag.as_str()
    }

    /// Sign `data` with the key.
    ///
    /// Fails with invalid input exactly when `data` is empty.  The
    /// signature is fabricated deterministically from the data and the
    /// tag; see the module notes.
    pub fn sign(&self, data: &[u8]) -> (r: Result<Signature, Error>)
        ensures
            data@.len() == 0 ==> (r matches Err(e) && e matches Error::InvalidInput { reason }
                && reason@ == "cannot sign empty data"@),
            data@.len() > 0 ==> (r matches Ok(s) && s.spec_bytes() == spec_stub_signature(
                spec_byte_sum(data@),
                spec_tag_seed(self.spec_tag()),
            )),
    {
        if data.is_empty() {
            return Err(Error::invalid_input("cannot sign empty data"));
        }
        let r_seed = byte_sum(data);
        let s_seed = byte_sum(self.tag.as_str().as_bytes());
        let mut sig_bytes: Vec<u8> = Vec::new();
        sig_bytes.push(0x30);
        sig_bytes.push(0x44);
        sig_bytes.push(0x02);
        sig_bytes.push(0x20);
        let mut i: usize = 0;
        while i < 32
            invariant
                i <= 32,
                sig_bytes@.len() == 4 + i,
                sig_bytes@[0] == 0x30u8,
                sig_bytes@[1] == 0x44u8,
                sig_bytes@[2] == 0x02u8,
                sig_bytes@[3] == 0x20u8,
                r_seed == spec_byte_sum(data@),
                forall|j: int| 4 <= j < 4 + i ==> sig_bytes@[j] == spec_byte_sum(data@),
            decreases 32 - i,
        {
            sig_bytes.push(r_seed);
            i = i + 1;
        }
        sig_bytes.push(0x02);
        sig_bytes.push(0x20);
        let mut k: usize = 0;
        while k < 32
            invariant
                k <= 32,
                sig_bytes@.len() == 38 + k,
                sig_bytes@[0] == 0x30u8,
                sig_bytes@[1] == 0x44u8,
                sig_bytes@[2] == 0x02u8,
                sig_bytes@[3] == 0x20u8,
                sig_bytes@[36] == 0x02u8,
                sig_bytes@[37] == 0x20u8,
                s_seed == spec_tag_seed(self.spec_tag()),
                forall|j: int| 4 <= j < 36 ==> sig_bytes@[j] == spec_byte_sum(data@),
                forall|j: int| 38 <= j < 38 + k ==> sig_bytes@[j] == spec_tag_seed(
                    self.spec_tag(),
                ),
            decreases 32 - k,
        {
            sig_bytes.push(s_seed);
            k = k + 1;
        }
        proof {
            assert(sig_bytes@ =~= spec_stub_signature(
                spec_byte_sum(data@),
                spec_tag_seed(self.spec_tag()),
            ));
        }
        Signature::from_bytes(sig_bytes)
    }

    /// Verify a signature against `data`.
    ///
    /// Fails with invalid input exactly when `data` is empty; otherwise
    /// reports whether the signature is the one this signer produces for
    /// `data`.
    pub fn verify(&self, data: &[u8], signature: &Signature) -> (r: Result<bool, Error>)
        ensures
            data@.len() == 0 ==> (r matches Err(e) && e matches Error::InvalidInput { reason }
                && reason@ == "cannot verify empty data"@),
            data@.len() > 0 ==> (r matches Ok(valid) && valid == (signature.spec_bytes()
                == spec_stub_signature(
                spec_byte_sum(data@),
                spec_tag_seed(self.spec_tag()),
            ))),
    {
        if data.is_empty() {
            return Err(Error::invalid_input("cannot verify empty data"));
        }
        let expected = match self.sign(data) {
            Ok(expected) => expected,
            Err(e) => {
                return Err(e);
            },
        };
        Ok(bytes_eq(expected.as_bytes(), signature.as_bytes()))
    }
}

/// Check if the secure key store is available; same answer as
/// [`SecureEnclaveSigner::is_available`].
pub fn is_available() -> (r: bool)
    ensures
        !r,
{
    SecureEnclaveSigner::is_available()
}

} // verus!
