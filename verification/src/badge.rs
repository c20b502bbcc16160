//! The badge that shows a count beside a title or inside a sentence.

use vstd::prelude::*;
use crate::markup::{attribute, element, Attribute, Markup, MarkupNode};
use crate::text::{decimal, decimal_string};

verus! {

/// A badge that shows `count` as a decimal numeral.
pub open spec fn badge(class: Seq<char>, count: nat) -> Markup {
    element("span"@, seq![attribute("class"@, class)], seq![Markup::Text(decimal(count))])
}

/// A badge sets its one attribute once.
pub proof fn lemma_badge_well_formed(class: Seq<char>, count: nat)
    ensures
        badge(class, count).well_formed(),
{
    reveal_with_fuel(Markup::well_formed, 2);
}

/// Builds a badge that shows `count`.
pub fn build_badge(class: &str, count: usize) -> (n: MarkupNode)
    ensures
        n@ == badge(class@, count as nat),
{
    let attrs = vec![Attribute::new("class", class)];
    let children = vec![MarkupNode::text_owned(decimal_string(count))];
    proof {
        assert(attrs.deep_view() =~= seq![attribute("class"@, class@)]);
        assert(children.deep_view() =~= seq![Markup::Text(decimal(count as nat))]);
    }
    MarkupNode::element("span", attrs, children)
}

} // verus!
