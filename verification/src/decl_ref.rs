//! The declaration-reference child element.
use vstd::prelude::*;
use vstd::string::StringExecFns;
use crate::xml_markup::end_tag_chars;
use crate::xml_markup::start_tag_chars;
use crate::xml_markup::write_end_tag;
use crate::xml_markup::write_start_tag;
use crate::SerializationError;

verus! {

/// A reference to a custom authentication-context declaration, carried as
/// optional element text.
#[derive(Clone, Debug, Hash, Eq, PartialEq, Ord, PartialOrd)]
pub struct AuthnContextDeclRef {
    pub value: Option<String>,
}

/// The markup of one declaration reference: the element around its text
/// when a value is present, and nothing at all — not an empty-bodied
/// element — when it is absent.
pub open spec fn decl_ref_xml(d: AuthnContextDeclRef) -> Seq<char> {
    match d.value {
        Some(v) => start_tag_chars("saml2:AuthnContextDeclRef"@) + v@ + end_tag_chars(
            "saml2:AuthnContextDeclRef"@,
        ),
        None => Seq::empty(),
    }
}

/// Law: a declaration reference without a value contributes nothing to the
/// output; callers treat the empty text as "omit this child".
pub proof fn lemma_absent_value_contributes_nothing(d: AuthnContextDeclRef)
    requires
        d.value is None,
    ensures
        decl_ref_xml(d) == Seq::<char>::empty(),
{
}

impl AuthnContextDeclRef {
    /// The qualified element name of a declaration reference.
    pub fn name() -> (r: &'static str)
        ensures
            r@ == "saml2:AuthnContextDeclRef"@,
    {
        "saml2:AuthnContextDeclRef"
    }

    /// Serializes this declaration reference. The text is exactly
    /// `decl_ref_xml(*self)`: the value between start and end tag when
    /// present (written as raw text content, with no escaping of reserved
    /// characters beyond what the text writer guarantees), and the empty
    /// string when absent.
    pub fn to_xml(&self) -> (r: Result<String, SerializationError>)
        ensures
            r is Ok,
            r->Ok_0@ == decl_ref_xml(*self),
    {
        match &self.value {
            Some(value) => {
                let mut out = write_start_tag(Self::name());
                out.append(value.as_str());
                let end = write_end_tag(Self::name());
                out.append(end.as_str());
                Ok(out)
            },
            None => Ok(String::new()),
        }
    }
}

} // verus!
