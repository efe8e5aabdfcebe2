//! The class-reference child element.
use vstd::prelude::*;
use vstd::string::StringExecFns;
use crate::xml_markup::end_tag_chars;
use crate::xml_markup::start_tag_chars;
use crate::xml_markup::write_end_tag;
use crate::xml_markup::write_start_tag;
use crate::SerializationError;

verus! {

/// A reference to a standard authentication-context class, carried as
/// optional element text.
#[derive(Clone, Debug, Hash, Eq, PartialEq, Ord, PartialOrd)]
pub struct AuthnContextClassRef {
    pub value: Option<String>,
}

/// The markup of one class reference: the element around its text when a
/// value is present, and nothing at all when it is absent.
pub open spec fn class_ref_xml(c: AuthnContextClassRef) -> Seq<char> {
    match c.value {
        Some(v) => start_tag_chars("saml2:AuthnContextClassRef"@) + v@ + end_tag_chars(
            "saml2:AuthnContextClassRef"@,
        ),
        None => Seq::empty(),
    }
}

impl AuthnContextClassRef {
    /// The qualified element name of a class reference.
    pub fn name() -> (r: &'static str)
        ensures
            r@ == "saml2:AuthnContextClassRef"@,
    {
        "saml2:AuthnContextClassRef"
    }

    /// Serializes this class reference. The text is exactly
    /// `class_ref_xml(*self)`: the value between start and end tag when
    /// present (written as raw text content), and the empty string when
    /// absent.
    pub fn to_xml(&self) -> (r: Result<String, SerializationError>)
        ensures
            r is Ok,
            r->Ok_0@ == class_ref_xml(*self),
    {
        match &self.value {
            Some(value) => {
                let mut out = write_start_tag(Self::name());
                out.append(value.as_str());
                let end = write_end_tag(Self::name());
                out.append(end.as_str());
                Ok(out)
            },
            None => Ok(String::new()),
        }
    }
}

} // verus!
