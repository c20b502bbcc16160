//! Writing a markup tree out as text.

use vstd::prelude::*;
use crate::escape::{escape_text, escape_value, escape_value_string};
use crate::markup::{Attribute, AttributeView, Markup, MarkupNode};
use crate::writer::{
    element_text, element_text_with, escaped_text, start_tag_text, tagged_text, void_text,
    void_text_with,
};

verus! {

/// Why a document could not be written out.
#[derive(Debug, Clone, Copy, PartialEq, Eq, Structural)]
pub enum RenderError {
    /// The sink that takes the markup refused a write.
    Write,
}

impl RenderError {
    /// A sentence for the user.
    pub fn message(&self) -> (s: String)
        ensures
            s@ == "the markup could not be written"@,
    {
        "the markup could not be written".to_owned()
    }
}

/// What became of one write: the text that was written, or the failure of
/// the sink, which ends the rendering.
pub fn written(outcome: Result<String, std::fmt::Error>) -> (r: Result<String, RenderError>)
    ensures
        match outcome {
            Ok(t) => r == Ok::<String, RenderError>(t),
            Err(_) => r == Err::<String, RenderError>(RenderError::Write),
        },
{
    match outcome {
        Ok(t) => Ok(t),
        Err(_) => Err(RenderError::Write),
    }
}

/// One attribute as it stands in a start tag: the name, and the escaped
/// value between double quotes.
pub open spec fn attribute_text(a: AttributeView) -> Seq<char> {
    a.name + seq!['=', '"'] + escape_value(a.value) + seq!['"']
}

/// The attributes of a start tag, with one space between two of them.
pub open spec fn attributes_text(attrs: Seq<AttributeView>) -> Seq<char>
    decreases attrs.len(),
{
    if attrs.len() == 0 {
        Seq::empty()
    } else if attrs.len() == 1 {
        attribute_text(attrs[0])
    } else {
        attributes_text(attrs.drop_last()) + seq![' '] + attribute_text(attrs.last())
    }
}

/// What stands between the tag's name and `>` in a start tag.
pub open spec fn attr_part(attrs: Seq<AttributeView>) -> Seq<char> {
    if attrs.len() == 0 {
        Seq::empty()
    } else {
        seq![' '] + attributes_text(attrs)
    }
}

/// The text of a markup tree. An element is its start tag, a line break, its
/// children one after the other, and its end tag with a line break; a void
/// element is its start tag and a line break; text from data is escaped;
/// raw text stands as it is.
pub open spec fn markup_text(m: Markup) -> Seq<char>
    decreases m,
{
    match m {
        Markup::Element { tag, attrs, children } => tagged_text(
            tag,
            attr_part(attrs),
            children_text(children),
        ),
        Markup::Void { tag, attrs } => start_tag_text(tag, attr_part(attrs)),
        Markup::Text(s) => escape_text(s),
        Markup::Raw(s) => s,
    }
}

/// The texts of a sequence of trees, one after the other.
pub open spec fn children_text(ms: Seq<Markup>) -> Seq<char>
    decreases ms,
{
    if ms.len() == 0 {
        Seq::empty()
    } else {
        children_text(ms.drop_last()) + markup_text(ms.last())
    }
}

/// Writes the attributes of a start tag, with one space between two of them.
pub fn attributes_string(attrs: &Vec<Attribute>) -> (s: String)
    ensures
        s@ == attributes_text(attrs.deep_view()),
{
    let mut s = String::new();
    let mut i: usize = 0;
    let ghost all = attrs.deep_view();
    while i < attrs.len()
        invariant
            i <= attrs.len(),
            all == attrs.deep_view(),
            s@ == attributes_text(all.take(i as int)),
        decreases attrs.len() - i,
    {
        proof {
            reveal_strlit(" ");
            reveal_strlit("=\"");
            reveal_strlit("\"");
        }
        if i > 0 {
            s.append(" ");
        }
        s.append(attrs[i].name.as_str());
        s.append("=\"");
        s.append(escape_value_string(attrs[i].value.as_str()).as_str());
        s.append("\"");
        assert(all.take(i as int + 1).drop_last() =~= all.take(i as int));
        i = i + 1;
    }
    assert(all.take(i as int) =~= all);
    s
}

/// Writes a markup tree out as text.
///
/// A write that its sink refuses ends the rendering with
/// [`RenderError::Write`], and nothing of what was written so far is handed
/// out. The text is collected in memory, where no write is refused: every
/// tree is written out.
pub fn serialize(node: &MarkupNode) -> (r: Result<String, RenderError>)
    ensures
        r is Ok,
        r matches Ok(s) ==> s@ == markup_text(node@),
    decreases node,
{
    match node {
        MarkupNode::Element { tag, attrs, children } => {
            let mut inner = String::new();
            let mut i: usize = 0;
            let ghost kids = node@.children();
            while i < children.len()
                invariant
                    i <= children.len(),
                    node == (MarkupNode::Element { tag: *tag, attrs: *attrs, children: *children }),
                    kids == node@.children(),
                    kids.len() == children.len(),
                    inner@ == children_text(kids.take(i as int)),
                decreases children.len() - i,
            {
                let part = match serialize(&children[i]) {
                    Ok(part) => part,
                    Err(e) => {
                        return Err(e);
                    },
                };
                inner.append(part.as_str());
                assert(kids.take(i as int + 1).drop_last() =~= kids.take(i as int));
                i = i + 1;
            }
            assert(kids.take(i as int) =~= kids);
            if attrs.len() == 0 {
                written(element_text(tag.as_str(), inner.as_str()))
            } else {
                let attr_text = attributes_string(attrs);
                written(element_text_with(tag.as_str(), attr_text.as_str(), inner.as_str()))
            }
        },
        MarkupNode::Void { tag, attrs } => {
            if attrs.len() == 0 {
                Ok(void_text(tag.as_str()))
            } else {
                let attr_text = attributes_string(attrs);
                Ok(void_text_with(tag.as_str(), attr_text.as_str()))
            }
        },
        MarkupNode::Text(s) => written(escaped_text(s.as_str())),
        MarkupNode::Raw(s) => Ok(s.clone()),
    }
}

} // verus!
