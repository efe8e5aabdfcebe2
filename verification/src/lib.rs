//! Serialization of the requested-authentication-context element of
//! federated-identity request messages.
//!
//! The element's markup must be byte-exact: attribute presence and order,
//! the choice between class-reference and declaration-reference children,
//! and the comparison mode's string form all affect interoperability with
//! identity providers that parse the markup strictly. Every serializer here
//! therefore carries a contract that pins the produced text down to the
//! character.
use vstd::prelude::*;

pub mod class_ref;
pub mod comparison;
pub mod decl_ref;
pub mod requested;
pub mod xml_markup;

pub use class_ref::AuthnContextClassRef;
pub use comparison::AuthnContextComparison;
pub use comparison::UnknownComparisonValue;
pub use decl_ref::AuthnContextDeclRef;
pub use requested::RequestedAuthnContext;

verus! {

/// A failure of serialization. Writing rejected by the underlying writer is
/// a `WriteError`; an accumulated byte buffer that is not valid UTF-8 is an
/// `EncodingError`. The serializers in this crate write fixed tag names to
/// in-memory buffers and append only UTF-8 text, and their contracts prove
/// that they always return `Ok`; the type is the error shape of the
/// `to_xml` entry points.
#[derive(Clone, Copy, Debug, Hash, Eq, PartialEq, Ord, PartialOrd)]
pub enum SerializationError {
    WriteError,
    EncodingError,
}

} // verus!
