//! The root requested-authentication-context element.
use vstd::prelude::*;
use vstd::string::StringExecFns;
use crate::class_ref::class_ref_xml;
use crate::class_ref::AuthnContextClassRef;
use crate::comparison::comparison_chars;
use crate::comparison::AuthnContextComparison;
use crate::decl_ref::decl_ref_xml;
use crate::decl_ref::AuthnContextDeclRef;
use crate::xml_markup::attr_chars;
use crate::xml_markup::end_tag_chars;
use crate::xml_markup::start_tag_chars;
use crate::xml_markup::write_end_tag;
use crate::xml_markup::write_start_tag_attr;
use crate::xml_markup::write_start_tag_attr2;
use crate::SerializationError;

verus! {

/// The requested authentication context: an optional ordered list of
/// class references or an optional ordered list of declaration references
/// (class references take precedence when both are present), plus an
/// optional comparison mode.
#[derive(Clone, Debug, Hash, Eq, PartialEq, Ord, PartialOrd)]
pub struct RequestedAuthnContext {
    pub authn_context_class_refs: Option<Vec<AuthnContextClassRef>>,
    pub authn_context_decl_refs: Option<Vec<AuthnContextDeclRef>>,
    pub comparison: Option<AuthnContextComparison>,
}

/// The markup of a list of class references, each serialized in list order.
pub open spec fn class_refs_xml(s: Seq<AuthnContextClassRef>) -> Seq<char>
    decreases s.len(),
{
    if s.len() == 0 {
        Seq::empty()
    } else {
        class_refs_xml(s.drop_last()) + class_ref_xml(s.last())
    }
}

/// The markup of a list of declaration references, each serialized in list
/// order.
pub open spec fn decl_refs_xml(s: Seq<AuthnContextDeclRef>) -> Seq<char>
    decreases s.len(),
{
    if s.len() == 0 {
        Seq::empty()
    } else {
        decl_refs_xml(s.drop_last()) + decl_ref_xml(s.last())
    }
}

/// The children of the root element. A strict else-if: a present class-
/// reference list — even an empty one — is emitted and a declaration-
/// reference list beside it is silently dropped, the two being mutually
/// exclusive alternatives by protocol convention.
pub open spec fn children_chars(rc: RequestedAuthnContext) -> Seq<char> {
    match rc.authn_context_class_refs {
        Some(class_refs) => class_refs_xml(class_refs@),
        None => match rc.authn_context_decl_refs {
            Some(decl_refs) => decl_refs_xml(decl_refs@),
            None => Seq::empty(),
        },
    }
}

/// The start tag of the root element: the fixed qualified name, the fixed
/// namespace-declaration attribute, and then — exactly when a comparison
/// mode is present — the `Comparison` attribute with the mode's canonical
/// lowercase string, in that order.
pub open spec fn open_tag_chars(cmp: Option<AuthnContextComparison>) -> Seq<char> {
    let base = "saml2p:RequestedAuthnContext"@ + attr_chars(
        "xmlns:saml2"@,
        "urn:oasis:names:tc:SAML:2.0:assertion"@,
    );
    match cmp {
        Some(c) => start_tag_chars(base + attr_chars("Comparison"@, comparison_chars(c))),
        None => start_tag_chars(base),
    }
}

/// The whole markup of a requested authentication context: start tag,
/// children, matching end tag.
pub open spec fn requested_xml(rc: RequestedAuthnContext) -> Seq<char> {
    open_tag_chars(rc.comparison) + children_chars(rc) + end_tag_chars(
        "saml2p:RequestedAuthnContext"@,
    )
}

/// Law: when no comparison mode is set, the output's start tag is the fixed
/// attribute-free form — it carries the namespace declaration and nothing
/// else, so the `Comparison` attribute is omitted entirely.
pub proof fn lemma_no_comparison_omits_attribute(rc: RequestedAuthnContext)
    requires
        rc.comparison is None,
    ensures
        requested_xml(rc) == start_tag_chars(
            "saml2p:RequestedAuthnContext"@ + attr_chars(
                "xmlns:saml2"@,
                "urn:oasis:names:tc:SAML:2.0:assertion"@,
            ),
        ) + children_chars(rc) + end_tag_chars("saml2p:RequestedAuthnContext"@),
{
}

/// Law: a present class-reference list takes precedence — the children of
/// the output are its items alone, whatever the declaration-reference list
/// holds. With `Some` of an empty list, that means no children at all.
pub proof fn lemma_class_refs_take_precedence(rc: RequestedAuthnContext)
    requires
        rc.authn_context_class_refs is Some,
    ensures
        children_chars(rc) == class_refs_xml(rc.authn_context_class_refs->Some_0@),
        rc.authn_context_class_refs->Some_0@.len() == 0 ==> children_chars(rc)
            == Seq::<char>::empty(),
{
}

proof fn lemma_class_refs_xml_step(s: Seq<AuthnContextClassRef>, i: int)
    requires
        0 <= i < s.len(),
    ensures
        class_refs_xml(s.take(i + 1)) == class_refs_xml(s.take(i)) + class_ref_xml(s[i]),
{
    assert(s.take(i + 1).drop_last() =~= s.take(i));
    assert(s.take(i + 1).last() == s[i]);
}

proof fn lemma_decl_refs_xml_step(s: Seq<AuthnContextDeclRef>, i: int)
    requires
        0 <= i < s.len(),
    ensures
        decl_refs_xml(s.take(i + 1)) == decl_refs_xml(s.take(i)) + decl_ref_xml(s[i]),
{
    assert(s.take(i + 1).drop_last() =~= s.take(i));
    assert(s.take(i + 1).last() == s[i]);
}

impl RequestedAuthnContext {
    /// The qualified element name of the root element.
    pub fn name() -> (r: &'static str)
        ensures
            r@ == "saml2p:RequestedAuthnContext"@,
    {
        "saml2p:RequestedAuthnContext"
    }

    /// Serializes this requested authentication context. The text is exactly
    /// `requested_xml(*self)`: the start tag with the namespace declaration
    /// and, when present, the `Comparison` attribute; then the class
    /// references in list order, or else the declaration references in list
    /// order, or no children; then the end tag. Serialization of the fixed
    /// tag names into an in-memory buffer cannot fail, so the result is
    /// always `Ok`.
    pub fn to_xml(&self) -> (r: Result<String, SerializationError>)
        ensures
            r is Ok,
            r->Ok_0@ == requested_xml(*self),
    {
        let mut out = match &self.comparison {
            Some(comparison) => {
                let comparison_text = comparison.to_string();
                write_start_tag_attr2(
                    Self::name(),
                    "xmlns:saml2",
                    "urn:oasis:names:tc:SAML:2.0:assertion",
                    "Comparison",
                    comparison_text.as_str(),
                )
            },
            None => write_start_tag_attr(
                Self::name(),
                "xmlns:saml2",
                "urn:oasis:names:tc:SAML:2.0:assertion",
            ),
        };
        if let Some(class_refs) = &self.authn_context_class_refs {
            let n = class_refs.len();
            let mut i: usize = 0;
            while i < n
                invariant
                    0 <= i <= n,
                    n == class_refs@.len(),
                    out@ == open_tag_chars(self.comparison) + class_refs_xml(
                        class_refs@.take(i as int),
                    ),
                decreases n - i,
            {
                let item = &class_refs[i];
                let child = item.to_xml().unwrap();
                out.append(child.as_str());
                proof {
                    lemma_class_refs_xml_step(class_refs@, i as int);
                }
                i = i + 1;
            }
            proof {
                assert(class_refs@.take(n as int) =~= class_refs@);
            }
        } else if let Some(decl_refs) = &self.authn_context_decl_refs {
            let n = decl_refs.len();
            let mut i: usize = 0;
            while i < n
                invariant
                    0 <= i <= n,
                    n == decl_refs@.len(),
                    out@ == open_tag_chars(self.comparison) + decl_refs_xml(
                        decl_refs@.take(i as int),
                    ),
                decreases n - i,
            {
                let item = &decl_refs[i];
                let child = item.to_xml().unwrap();
                out.append(child.as_str());
                proof {
                    lemma_decl_refs_xml_step(decl_refs@, i as int);
                }
                i = i + 1;
            }
            proof {
                assert(decl_refs@.take(n as int) =~= decl_refs@);
            }
        }
        let end = write_end_tag(Self::name());
        out.append(end.as_str());
        Ok(out)
    }
}

} // verus!
