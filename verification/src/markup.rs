//! The markup tree that the builders produce, and its mathematical model.
//!
//! [`MarkupNode`] is the executable tree; [`Markup`] is what it stands for in
//! contracts. Every builder of this crate states its result as an equation
//! between the view of the node it returns and a `Markup` value.

use vstd::prelude::*;

verus! {

/// One attribute of an element: a name and the value written between
/// double quotes behind it.
#[derive(Clone, Debug, PartialEq, Eq)]
pub struct Attribute {
    pub name: String,
    pub value: String,
}

/// The model of an [`Attribute`].
pub struct AttributeView {
    pub name: Seq<char>,
    pub value: Seq<char>,
}

impl View for Attribute {
    type V = AttributeView;

    open spec fn view(&self) -> AttributeView {
        AttributeView { name: self.name@, value: self.value@ }
    }
}

impl DeepView for Attribute {
    type V = AttributeView;

    open spec fn deep_view(&self) -> AttributeView {
        self@
    }
}

/// The model of a markup tree.
pub enum Markup {
    /// An element with a start tag, children in order, and an end tag.
    Element { tag: Seq<char>, attrs: Seq<AttributeView>, children: Seq<Markup> },
    /// An element that has a start tag only and can hold nothing.
    Void { tag: Seq<char>, attrs: Seq<AttributeView> },
    /// Text that comes from data: escaped when the tree is written out.
    Text(Seq<char>),
    /// Text authored by this crate: written out as it stands.
    Raw(Seq<char>),
}

/// A node of the markup tree.
#[derive(Debug, PartialEq, Eq)]
pub enum MarkupNode {
    Element { tag: String, attrs: Vec<Attribute>, children: Vec<MarkupNode> },
    Void { tag: String, attrs: Vec<Attribute> },
    Text(String),
    Raw(String),
}

impl View for MarkupNode {
    type V = Markup;

    open spec fn view(&self) -> Markup
        decreases self,
    {
        match self {
            MarkupNode::Element { tag, attrs, children } => Markup::Element {
                tag: tag@,
                attrs: attrs.deep_view(),
                children: Seq::new(
                    children.len() as nat,
                    |i: int|
                        if 0 <= i < children.len() {
                            children[i]@
                        } else {
                            Markup::Raw(Seq::empty())
                        },
                ),
            },
            MarkupNode::Void { tag, attrs } => Markup::Void { tag: tag@, attrs: attrs.deep_view() },
            MarkupNode::Text(s) => Markup::Text(s@),
            MarkupNode::Raw(s) => Markup::Raw(s@),
        }
    }
}

impl DeepView for MarkupNode {
    type V = Markup;

    open spec fn deep_view(&self) -> Markup {
        self@
    }
}

/// The attribute `name="value"`.
pub open spec fn attribute(name: Seq<char>, value: Seq<char>) -> AttributeView {
    AttributeView { name, value }
}

/// An element without attributes.
pub open spec fn plain(tag: Seq<char>, children: Seq<Markup>) -> Markup {
    Markup::Element { tag, attrs: Seq::empty(), children }
}

/// An element with attributes.
pub open spec fn element(tag: Seq<char>, attrs: Seq<AttributeView>, children: Seq<Markup>) -> Markup {
    Markup::Element { tag, attrs, children }
}

/// The value of the first attribute named `name`, if there is one.
pub open spec fn find_attr(attrs: Seq<AttributeView>, name: Seq<char>) -> Option<Seq<char>>
    decreases attrs.len(),
{
    if attrs.len() == 0 {
        None
    } else if attrs[0].name == name {
        Some(attrs[0].value)
    } else {
        find_attr(attrs.skip(1), name)
    }
}

impl Markup {
    /// The children of an element; a node of another kind has none.
    pub open spec fn children(self) -> Seq<Markup> {
        match self {
            Markup::Element { children, .. } => children,
            _ => Seq::empty(),
        }
    }

    /// The attributes of an element, void or not; text has none.
    pub open spec fn attrs(self) -> Seq<AttributeView> {
        match self {
            Markup::Element { attrs, .. } => attrs,
            Markup::Void { attrs, .. } => attrs,
            _ => Seq::empty(),
        }
    }

    /// The value of the node's attribute `name`, if it has one.
    pub open spec fn attr_value(self, name: Seq<char>) -> Option<Seq<char>> {
        find_attr(self.attrs(), name)
    }

    /// Whether every element of the tree sets each of its attributes once:
    /// no two attributes of one element have the same name.
    pub open spec fn well_formed(self) -> bool
        decreases self,
    {
        match self {
            Markup::Element { attrs, children, .. } => {
                &&& distinct_names(attrs)
                &&& forall|i: int| 0 <= i < children.len() ==> (#[trigger] children[i]).well_formed()
            },
            Markup::Void { attrs, .. } => distinct_names(attrs),
            _ => true,
        }
    }
}

/// Whether no two of the attributes have the same name.
pub open spec fn distinct_names(attrs: Seq<AttributeView>) -> bool {
    forall|i: int, j: int| 0 <= i < j < attrs.len() ==> attrs[i].name != attrs[j].name
}

impl Attribute {
    /// The attribute `name="value"`.
    pub fn new(name: &str, value: &str) -> (a: Attribute)
        ensures
            a@ == attribute(name@, value@),
    {
        Attribute { name: name.to_owned(), value: value.to_owned() }
    }

    /// The attribute `name="value"`, for a value that was computed.
    pub fn with_value(name: &str, value: String) -> (a: Attribute)
        ensures
            a@ == attribute(name@, value@),
    {
        Attribute { name: name.to_owned(), value }
    }
}

impl MarkupNode {
    /// An element with the given attributes and children.
    pub fn element(tag: &str, attrs: Vec<Attribute>, children: Vec<MarkupNode>) -> (n: MarkupNode)
        ensures
            n@ == element(tag@, attrs.deep_view(), children.deep_view()),
    {
        let n = MarkupNode::Element { tag: tag.to_owned(), attrs, children };
        assert(n@.children() =~= children.deep_view());
        n
    }

    /// An element without attributes.
    pub fn plain(tag: &str, children: Vec<MarkupNode>) -> (n: MarkupNode)
        ensures
            n@ == plain(tag@, children.deep_view()),
    {
        let attrs: Vec<Attribute> = Vec::new();
        assert(attrs.deep_view() =~= Seq::<AttributeView>::empty());
        MarkupNode::element(tag, attrs, children)
    }

    /// An element that holds nothing and has no end tag.
    pub fn void(tag: &str, attrs: Vec<Attribute>) -> (n: MarkupNode)
        ensures
            n@ == (Markup::Void { tag: tag@, attrs: attrs.deep_view() }),
    {
        MarkupNode::Void { tag: tag.to_owned(), attrs }
    }

    /// Text that comes from data.
    pub fn text(s: &str) -> (n: MarkupNode)
        ensures
            n@ == Markup::Text(s@),
    {
        MarkupNode::Text(s.to_owned())
    }

    /// Text that comes from data, already owned.
    pub fn text_owned(s: String) -> (n: MarkupNode)
        ensures
            n@ == Markup::Text(s@),
    {
        MarkupNode::Text(s)
    }

    /// Text authored by this crate, written out unescaped.
    pub fn raw(s: &str) -> (n: MarkupNode)
        ensures
            n@ == Markup::Raw(s@),
    {
        MarkupNode::Raw(s.to_owned())
    }

    /// Looks up the value of the attribute `name`.
    pub fn attr(&self, name: &str) -> (value: Option<&str>)
        ensures
            match value {
                Some(v) => self@.attr_value(name@) == Some(v@),
                None => self@.attr_value(name@) is None,
            },
    {
        match self {
            MarkupNode::Element { attrs, .. } => lookup(attrs, name),
            MarkupNode::Void { attrs, .. } => lookup(attrs, name),
            _ => None,
        }
    }
}

/// Looks up the value of the first attribute named `name`.
pub fn lookup<'a>(attrs: &'a Vec<Attribute>, name: &str) -> (value: Option<&'a str>)
    ensures
        match value {
            Some(v) => find_attr(attrs.deep_view(), name@) == Some(v@),
            None => find_attr(attrs.deep_view(), name@) is None,
        },
{
    let ghost all = attrs.deep_view();
    let wanted = name.to_owned();
    let mut i: usize = 0;
    assert(all.skip(0) =~= all);
    while i < attrs.len()
        invariant
            i <= attrs.len(),
            all == attrs.deep_view(),
            wanted@ == name@,
            find_attr(all, name@) == find_attr(all.skip(i as int), name@),
        decreases attrs.len() - i,
    {
        assert(all.skip(i as int).skip(1) =~= all.skip(i as int + 1));
        if attrs[i].name == wanted {
            return Some(attrs[i].value.as_str());
        }
        i = i + 1;
    }
    None
}

} // verus!
