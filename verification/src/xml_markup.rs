//! Markup fragments for XML tags, written through `quick_xml`.
//!
//! The serializers in this crate assemble their output from the exact
//! character sequences these functions return. Each trusted function
//! states, character for character, what `quick_xml`'s writer puts into
//! the buffer, so everything built on top is verified against the precise
//! wire form.
use vstd::prelude::*;

verus! {

/// The characters of a start tag whose content (name followed by any
/// attributes) is `content`: `<content>`.
pub open spec fn start_tag_chars(content: Seq<char>) -> Seq<char> {
    seq!['<'] + content + seq!['>']
}

/// The characters one attribute adds to a start tag's content:
/// a space, the key, `="`, the value written as given, `"`.
pub open spec fn attr_chars(key: Seq<char>, value: Seq<char>) -> Seq<char> {
    seq![' '] + key + seq!['=', '"'] + value + seq!['"']
}

/// The characters of an end tag: `</name>`.
pub open spec fn end_tag_chars(name: Seq<char>) -> Seq<char> {
    seq!['<', '/'] + name + seq!['>']
}

/// Relies on `quick_xml::Writer::write_event` with `Event::Start`: a writer
/// made by `Writer::new` (no indentation) writes `<`, the element content
/// built by `BytesStart::new(name)`, and `>` to the underlying buffer, which
/// for a `Vec<u8>` is an infallible append. The buffer is the concatenation
/// of the given strings, so it is valid UTF-8.
#[verifier::external_body]
pub(crate) fn write_start_tag(name: &str) -> (r: String)
    ensures
        r@ == start_tag_chars(name@),
{
    let root = quick_xml::events::BytesStart::new(name);
    let mut buf: Vec<u8> = Vec::new();
    let mut writer = quick_xml::Writer::new(&mut buf);
    let _ = writer.write_event(quick_xml::events::Event::Start(root));
    String::from_utf8(buf).unwrap_or_default()
}

/// Relies on `quick_xml::events::BytesStart::push_attribute` and
/// `Writer::write_event` with `Event::Start`: pushing a prebuilt
/// `Attribute` appends a space, the key, `="`, the value exactly as given,
/// and `"` to the element content (`quick_xml` escapes a value only when it
/// converts one from a plain string pair, which this call does not use), and
/// the writer then emits `<`, that content, `>`.
#[verifier::external_body]
pub(crate) fn write_start_tag_attr(name: &str, key: &str, value: &str) -> (r: String)
    ensures
        r@ == start_tag_chars(name@ + attr_chars(key@, value@)),
{
    let mut root = quick_xml::events::BytesStart::new(name);
    root.push_attribute(quick_xml::events::attributes::Attribute {
        key: quick_xml::name::QName(key),
        value: std::borrow::Cow::Borrowed(value),
    });
    let mut buf: Vec<u8> = Vec::new();
    let mut writer = quick_xml::Writer::new(&mut buf);
    let _ = writer.write_event(quick_xml::events::Event::Start(root));
    String::from_utf8(buf).unwrap_or_default()
}

/// Relies on the same `quick_xml` behaviour as `write_start_tag_attr`, with
/// two attributes pushed in order: the element content is the name, then one
/// ` key="value"` group per attribute, in the order pushed.
#[verifier::external_body]
pub(crate) fn write_start_tag_attr2(
    name: &str,
    key1: &str,
    value1: &str,
    key2: &str,
    value2: &str,
) -> (r: String)
    ensures
        r@ == start_tag_chars(name@ + attr_chars(key1@, value1@) + attr_chars(key2@, value2@)),
{
    let mut root = quick_xml::events::BytesStart::new(name);
    root.push_attribute(quick_xml::events::attributes::Attribute {
        key: quick_xml::name::QName(key1),
        value: std::borrow::Cow::Borrowed(value1),
    });
    root.push_attribute(quick_xml::events::attributes::Attribute {
        key: quick_xml::name::QName(key2),
        value: std::borrow::Cow::Borrowed(value2),
    });
    let mut buf: Vec<u8> = Vec::new();
    let mut writer = quick_xml::Writer::new(&mut buf);
    let _ = writer.write_event(quick_xml::events::Event::Start(root));
    String::from_utf8(buf).unwrap_or_default()
}

/// Relies on `quick_xml::Writer::write_event` with `Event::End`: a writer
/// made by `Writer::new` writes `</`, the name given to `BytesEnd::new`,
/// and `>` to the underlying buffer.
#[verifier::external_body]
pub(crate) fn write_end_tag(name: &str) -> (r: String)
    ensures
        r@ == end_tag_chars(name@),
{
    let root = quick_xml::events::BytesEnd::new(name);
    let mut buf: Vec<u8> = Vec::new();
    let mut writer = quick_xml::Writer::new(&mut buf);
    let _ = writer.write_event(quick_xml::events::Event::End(root));
    String::from_utf8(buf).unwrap_or_default()
}

} // verus!
