//! The boundary to `html_builder`, which writes every tag and escapes every
//! piece of text of the document.
//!
//! Nothing in this file is proved: each function states what the calls it
//! wraps do. A buffer of `html_builder` collects its text in a `String`, and
//! writing to a `String` never fails, so the writes through `write_str`
//! below succeed.

use html_builder::Buffer;
use std::borrow::Cow;
use std::fmt::Write;
use vstd::prelude::*;
use crate::escape::escape_text;

verus! {

/// `std::fmt::Error`, by which a sink says that it refused a write. It
/// holds nothing.
#[verifier::external_type_specification]
#[verifier::external_body]
pub struct ExFmtError(std::fmt::Error);

/// A start tag with `attr_part` behind the tag's name, a line break, the
/// content, an end tag and a line break.
pub open spec fn tagged_text(tag: Seq<char>, attr_part: Seq<char>, inner: Seq<char>) -> Seq<char> {
    seq!['<'] + tag + attr_part + seq!['>', '\n'] + inner + seq!['<', '/'] + tag + seq!['>', '\n']
}

/// A start tag with `attr_part` behind the tag's name, and a line break.
pub open spec fn start_tag_text(tag: Seq<char>, attr_part: Seq<char>) -> Seq<char> {
    seq!['<'] + tag + attr_part + seq!['>', '\n']
}

/// Writes `s` into a fresh `html_builder::Buffer` with `write_str` and takes
/// the buffer's text with `finish`. A buffer escapes what is written into it
/// as `html_escape::encode_text` does: `&`, `<` and `>` become entities, and
/// nothing else changes. The write ends in the buffer's `String` and succeeds.
#[verifier::external_body]
pub(crate) fn escaped_text(s: &str) -> (r: Result<String, std::fmt::Error>)
    ensures
        r is Ok,
        r matches Ok(t) ==> t@ == escape_text(s@),
{
    let mut buf = Buffer::new();
    buf.write_str(s)?;
    Ok(buf.finish())
}

/// Opens the element `tag` with `Node::child` in a fresh buffer, switches
/// its escaping off with `Node::raw`, writes `inner` into it with
/// `write_str`, which ends the start tag first, and takes the text with
/// `Buffer::finish`, which closes the element. At the buffer's top level
/// nothing is indented. The write ends in the buffer's `String` and succeeds.
#[verifier::external_body]
pub(crate) fn element_text(tag: &str, inner: &str) -> (r: Result<String, std::fmt::Error>)
    ensures
        r is Ok,
        r matches Ok(t) ==> t@ == tagged_text(tag@, Seq::empty(), inner@),
{
    let mut buf = Buffer::new();
    let mut node = buf.child(Cow::Owned(tag.to_owned())).raw();
    node.write_str(inner)?;
    Ok(buf.finish())
}

/// As [`element_text`], with one call of `Node::attr` on the open element:
/// `attr` writes a space and then `attrs` as it stands.
#[verifier::external_body]
pub(crate) fn element_text_with(tag: &str, attrs: &str, inner: &str) -> (r: Result<
    String,
    std::fmt::Error,
>)
    ensures
        r is Ok,
        r matches Ok(t) ==> t@ == tagged_text(tag@, seq![' '] + attrs@, inner@),
{
    let mut buf = Buffer::new();
    let mut node = buf.child(Cow::Owned(tag.to_owned())).attr(attrs).raw();
    node.write_str(inner)?;
    Ok(buf.finish())
}

/// Opens the void element `tag` with `Node::void_child` in a fresh buffer
/// and takes the text with `Buffer::finish`, which ends the start tag.
#[verifier::external_body]
pub(crate) fn void_text(tag: &str) -> (t: String)
    ensures
        t@ == start_tag_text(tag@, Seq::empty()),
{
    let mut buf = Buffer::new();
    buf.void_child(Cow::Owned(tag.to_owned()));
    buf.finish()
}

/// As [`void_text`], with one call of `Void::attr` on the open element:
/// `attr` writes a space and then `attrs` as it stands.
#[verifier::external_body]
pub(crate) fn void_text_with(tag: &str, attrs: &str) -> (t: String)
    ensures
        t@ == start_tag_text(tag@, seq![' '] + attrs@),
{
    let mut buf = Buffer::new();
    buf.void_child(Cow::Owned(tag.to_owned())).attr(attrs);
    buf.finish()
}

/// The lower-case form of a string, as `str::to_lowercase` gives it.
pub uninterp spec fn lowercase(s: Seq<char>) -> Seq<char>;

/// `str::to_lowercase` returns the lower-case form of the string it is
/// called on, which depends on that string alone.
pub assume_specification[ str::to_lowercase ](s: &str) -> (r: String)
    ensures
        r@ == lowercase(s@),
;

} // verus!
