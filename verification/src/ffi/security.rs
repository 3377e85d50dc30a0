//! Status codes and key attributes of the platform security layer.

use vstd::prelude::*;

verus! {

/// Known status codes of the security layer.
#[derive(Clone, Copy, Debug, PartialEq, Eq, Structural)]
pub enum SecError {
    /// No error.
    Success,
    /// The specified item could not be found.
    ItemNotFound,
    /// The specified item already exists.
    DuplicateItem,
    /// User interaction is required but not allowed.
    InteractionNotAllowed,
    /// Authentication failed.
    AuthFailed,
    /// Invalid key reference.
    InvalidKey,
    /// The operation was cancelled by the user.
    UserCanceled,
}

/// The platform status code of each known error.
pub open spec fn spec_sec_error_code(e: SecError) -> int {
    match e {
        SecError::Success => 0,
        SecError::ItemNotFound => -25300,
        SecError::DuplicateItem => -25299,
        SecError::InteractionNotAllowed => -25308,
        SecError::AuthFailed => -25293,
        SecError::InvalidKey => -67712,
        SecError::UserCanceled => -128,
    }
}

/// The known error for a raw status code, if any.
pub open spec fn spec_sec_error_from(status: i32) -> Option<SecError> {
    if status == 0 {
        Some(SecError::Success)
    } else if status == -25300 {
        Some(SecError::ItemNotFound)
    } else if status == -25299 {
        Some(SecError::DuplicateItem)
    } else if status == -25308 {
        Some(SecError::InteractionNotAllowed)
    } else if status == -25293 {
        Some(SecError::AuthFailed)
    } else if status == -67712 {
        Some(SecError::InvalidKey)
    } else if status == -128 {
        Some(SecError::UserCanceled)
    } else {
        None
    }
}

impl SecError {
    /// Create from a raw platform status code; `None` for a code the
    /// library does not know.
    pub fn from_os_status(status: i32) -> (r: Option<SecError>)
        ensures
            r == spec_sec_error_from(status),
    {
        if status == 0 {
            Some(SecError::Success)
        } else if status == -25300 {
            Some(SecError::ItemNotFound)
        } else if status == -25299 {
            Some(SecError::DuplicateItem)
        } else if status == -25308 {
            Some(SecError::InteractionNotAllowed)
        } else if status == -25293 {
            Some(SecError::AuthFailed)
        } else if status == -67712 {
            Some(SecError::InvalidKey)
        } else if status == -128 {
            Some(SecError::UserCanceled)
        } else {
            None
        }
    }

    /// The raw platform status code of this error.
    pub fn code(&self) -> (r: i32)
        ensures
            r == spec_sec_error_code(*self),
    {
        match self {
            SecError::Success => 0,
            SecError::ItemNotFound => -25300,
            SecError::DuplicateItem => -25299,
            SecError::InteractionNotAllowed => -25308,
            SecError::AuthFailed => -25293,
            SecError::InvalidKey => -67712,
            SecError::UserCanceled => -128,
        }
    }
}

/// Key attributes for secure key-store operations.
#[derive(Clone, Debug)]
pub struct KeyAttributes {
    /// Application tag (identifier).
    pub tag: String,
    /// Human-readable label.
    pub label: Option<String>,
    /// Whether the key can be used for signing.
    pub can_sign: bool,
    /// Whether the key can be used for encryption.
    pub can_encrypt: bool,
    /// Whether the private key is extractable; always false for keys held
    /// in the secure key store.
    pub extractable: bool,
}

impl Default for KeyAttributes {
    /// Attributes of a signing-only, non-extractable key with no tag.
    fn default() -> (r: KeyAttributes)
        ensures
            r.tag@.len() == 0,
            r.label is None,
            r.can_sign,
            !r.can_encrypt,
            !r.extractable,
    {
        KeyAttributes {
            tag: String::new(),
            label: None,
            can_sign: true,
            can_encrypt: false,
            extractable: false,
        }
    }
}

/// Check if secure key-store hardware is present.  This build does not
/// target a platform with one, so the probe reports `false`.
pub fn is_secure_enclave_available() -> (r: bool)
    ensures
        !r,
{
    false
}

} // verus!
