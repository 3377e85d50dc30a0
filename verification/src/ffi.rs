//! Boundary to the platform's native service layer.
//!
//! Everything the rest of the library learns about platform services passes
//! through the types here: a registry of service entries, an owned handle
//! with an exactly-once release discipline, and a typed view of a service's
//! property store.  The live platform lookup itself is I/O performed by the
//! embedding program, which presents its findings as a
//! [`iokit::ServiceRegistry`] value; the logic that searches, owns,
//! queries and releases is in this module and is verified.

pub mod iokit;
pub mod security;
