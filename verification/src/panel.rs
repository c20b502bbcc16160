//! The resource panels: one per category, with one collapsible item per
//! resource.

use vstd::prelude::*;
use crate::keys::{accordion_id, accordion_id_of, category_key, key_of, panel_id, panel_id_of};
use crate::markup::{attribute, element, find_attr, plain, Attribute, Markup, MarkupNode};
use crate::model::{Resource, ResourceView};
use crate::serialize::{children_text, markup_text};
use crate::escape::{
    escape_text, has_tag_delimiter, lemma_escape_round_trip, lemma_escaped_ampersands,
    starts_entity, unescape_text,
};
use crate::writer::tagged_text;

verus! {

/// The identifier of the heading of the resource with the token `safename`.
pub open spec fn heading_id(safename: Seq<char>) -> Seq<char> {
    "heading-"@ + safename
}

/// The identifier of the collapsible body of the resource with the token
/// `safename`.
pub open spec fn collapse_id(safename: Seq<char>) -> Seq<char> {
    "collapse-"@ + safename
}

/// The selector by which a toggle finds the body that it opens.
pub open spec fn collapse_target(safename: Seq<char>) -> Seq<char> {
    "#collapse-"@ + safename
}

/// The classes of a toggle: those of a flagged resource stand out.
pub open spec fn toggle_class(is_error: bool) -> Seq<char> {
    if is_error {
        "accordion-button collapsed p-2 bg-danger text-white"@
    } else {
        "accordion-button collapsed p-2"@
    }
}

/// The toggle of a resource, labelled with its name.
pub open spec fn toggle(resource: ResourceView) -> Markup {
    element(
        "button"@,
        seq![
            attribute("class"@, toggle_class(resource.is_error)),
            attribute("type"@, "button"@),
            attribute("data-bs-toggle"@, "collapse"@),
            attribute("data-bs-target"@, collapse_target(resource.safename)),
            attribute("aria-expanded"@, "false"@),
            attribute("aria-controls"@, collapse_id(resource.safename)),
        ],
        seq![Markup::Text(resource.name)],
    )
}

/// The heading of a resource's item, which holds its toggle.
pub open spec fn item_heading(resource: ResourceView) -> Markup {
    element(
        "h2"@,
        seq![
            attribute("class"@, "accordion-header"@),
            attribute("id"@, heading_id(resource.safename)),
        ],
        seq![toggle(resource)],
    )
}

/// The detail text of a resource in a preformatted block, as it stands.
pub open spec fn detail_block(raw: Seq<char>) -> Markup {
    element(
        "div"@,
        seq![attribute("class"@, "accordion-body fs-6"@)],
        seq![plain("pre"@, seq![Markup::Text(raw)])],
    )
}

/// The body of a resource's item: collapsed at first, around the detail.
pub open spec fn item_body(key: Seq<char>, resource: ResourceView) -> Markup {
    element(
        "div"@,
        seq![
            attribute("id"@, collapse_id(resource.safename)),
            attribute("class"@, "accordion-collapse collapse"@),
            attribute("aria-labelledby"@, heading_id(resource.safename)),
            attribute("data-bs-parents"@, accordion_id(key)),
        ],
        seq![detail_block(resource.raw)],
    )
}

/// The item of one resource: its heading and its body.
pub open spec fn accordion_item(key: Seq<char>, resource: ResourceView) -> Markup {
    element(
        "div"@,
        seq![attribute("class"@, "accordion-item"@)],
        seq![item_heading(resource), item_body(key, resource)],
    )
}

/// The items of the resources, in the order of the resources.
pub open spec fn accordion_items(key: Seq<char>, resources: Seq<ResourceView>) -> Seq<Markup> {
    resources.map_values(|r: ResourceView| accordion_item(key, r))
}

/// The panel of the category with the title `title` and the key `key`.
pub open spec fn keyed_resource_panel(
    title: Seq<char>,
    key: Seq<char>,
    resources: Seq<ResourceView>,
) -> Markup {
    element(
        "data"@,
        seq![attribute("id"@, panel_id(key))],
        seq![
            plain("h1"@, seq![Markup::Text(title)]),
            element(
                "div"@,
                seq![attribute("class"@, "accordion"@), attribute("id"@, accordion_id(key))],
                accordion_items(key, resources),
            ),
        ],
    )
}

/// The panel of the category with the title `title`, under the title's key.
pub open spec fn resource_panel(title: Seq<char>, resources: Seq<ResourceView>) -> Markup {
    keyed_resource_panel(title, category_key(title), resources)
}

/// Escaping round trip: the detail of a resource stands in its block as
/// escaped text between the tags of `pre`. What a parser reads out of that
/// text is the detail, character for character: nothing in it can be taken
/// for a tag, and every `&` in it starts one of the entities that the
/// escaping writes, whatever the detail holds.
pub proof fn lemma_detail_round_trip(raw: Seq<char>)
    ensures
        markup_text(plain("pre"@, seq![Markup::Text(raw)])) == tagged_text(
            "pre"@,
            Seq::empty(),
            escape_text(raw),
        ),
        unescape_text(escape_text(raw)) == raw,
        !has_tag_delimiter(escape_text(raw)),
        forall|i: int|
            0 <= i < escape_text(raw).len() && escape_text(raw)[i] == '&' ==> starts_entity(
                escape_text(raw),
                i,
            ),
{
    lemma_escape_round_trip(raw);
    lemma_escaped_ampersands(raw);
    let kids = seq![Markup::Text(raw)];
    assert(children_text(kids) =~= escape_text(raw)) by {
        reveal_with_fuel(children_text, 2);
    }
}

/// Resources with different tokens get different identifiers: the headings
/// and the bodies of their items can be told apart within the document.
pub proof fn lemma_item_ids_differ(a: Seq<char>, b: Seq<char>)
    requires
        a != b,
    ensures
        heading_id(a) != heading_id(b),
        collapse_id(a) != collapse_id(b),
        collapse_target(a) != collapse_target(b),
{
    assert(heading_id(a).skip("heading-"@.len() as int) =~= a);
    assert(heading_id(b).skip("heading-"@.len() as int) =~= b);
    assert(collapse_id(a).skip("collapse-"@.len() as int) =~= a);
    assert(collapse_id(b).skip("collapse-"@.len() as int) =~= b);
    assert(collapse_target(a).skip("#collapse-"@.len() as int) =~= a);
    assert(collapse_target(b).skip("#collapse-"@.len() as int) =~= b);
}

/// The wiring of an item: the toggle of a resource opens the body of that
/// resource, which it finds by the body's identifier behind a `#`, and
/// names that body as what it controls; the body names the heading of the
/// resource as its label.
pub proof fn lemma_toggle_targets_body(key: Seq<char>, resource: ResourceView)
    ensures
        item_body(key, resource).attr_value("id"@) == Some(collapse_id(resource.safename)),
        item_heading(resource).attr_value("id"@) == Some(heading_id(resource.safename)),
        toggle(resource).attr_value("data-bs-target"@) == Some(
            seq!['#'] + collapse_id(resource.safename),
        ),
        toggle(resource).attr_value("aria-controls"@) == Some(collapse_id(resource.safename)),
        item_body(key, resource).attr_value("aria-labelledby"@) == Some(
            heading_id(resource.safename),
        ),
{
    reveal_strlit("class");
    reveal_strlit("type");
    reveal_strlit("id");
    reveal_strlit("data-bs-toggle");
    reveal_strlit("data-bs-target");
    reveal_strlit("aria-expanded");
    reveal_strlit("aria-controls");
    reveal_strlit("aria-labelledby");
    reveal_strlit("#collapse-");
    reveal_strlit("collapse-");
    assert("class"@.len() == 5 && "type"@.len() == 4 && "id"@.len() == 2);
    assert("data-bs-toggle"@.len() == 14 && "data-bs-target"@.len() == 14);
    assert("aria-expanded"@.len() == 13 && "aria-controls"@.len() == 13);
    assert("aria-labelledby"@.len() == 15);
    assert("data-bs-toggle"@[9] == 'o' && "data-bs-target"@[9] == 'a');
    assert("aria-expanded"@[5] == 'e' && "aria-controls"@[5] == 'c');
    assert("#collapse-"@ =~= seq!['#'] + "collapse-"@);
    assert(collapse_target(resource.safename) =~= seq!['#'] + collapse_id(resource.safename));
    let t = toggle(resource).attrs();
    assert(t.skip(1)[0] == t[1] && t.skip(1).skip(1)[0] == t[2]);
    assert(t.skip(1).skip(1).skip(1)[0] == t[3]);
    assert(t.skip(1).skip(1).skip(1).skip(1)[0] == t[4]);
    assert(t.skip(1).skip(1).skip(1).skip(1).skip(1)[0] == t[5]);
    let h = item_heading(resource).attrs();
    assert(h.skip(1)[0] == h[1]);
    let b = item_body(key, resource).attrs();
    assert(b.skip(1)[0] == b[1] && b.skip(1).skip(1)[0] == b[2]);
    reveal_with_fuel(find_attr, 7);
}

/// Two resources with different tokens have items with different
/// identifiers: within one panel no heading and no body is named twice.
pub proof fn lemma_items_have_their_own_ids(
    key: Seq<char>,
    resources: Seq<ResourceView>,
    i: int,
    j: int,
)
    requires
        0 <= i < resources.len(),
        0 <= j < resources.len(),
        resources[i].safename != resources[j].safename,
    ensures
        accordion_items(key, resources)[i].children()[0].attr_value("id"@)
            != accordion_items(key, resources)[j].children()[0].attr_value("id"@),
        accordion_items(key, resources)[i].children()[1].attr_value("id"@)
            != accordion_items(key, resources)[j].children()[1].attr_value("id"@),
{
    lemma_toggle_targets_body(key, resources[i]);
    lemma_toggle_targets_body(key, resources[j]);
    lemma_item_ids_differ(resources[i].safename, resources[j].safename);
}

/// The item of a resource sets each attribute of each of its elements once.
pub proof fn lemma_accordion_item_well_formed(key: Seq<char>, resource: ResourceView)
    ensures
        accordion_item(key, resource).well_formed(),
{
    reveal_with_fuel(Markup::well_formed, 4);
    reveal_strlit("class");
    reveal_strlit("type");
    reveal_strlit("data-bs-toggle");
    reveal_strlit("data-bs-target");
    reveal_strlit("aria-expanded");
    reveal_strlit("aria-controls");
    reveal_strlit("id");
    reveal_strlit("aria-labelledby");
    reveal_strlit("data-bs-parents");
    assert("class"@.len() == 5 && "type"@.len() == 4 && "id"@.len() == 2);
    assert("data-bs-toggle"@.len() == 14 && "data-bs-target"@.len() == 14);
    assert("aria-expanded"@.len() == 13 && "aria-controls"@.len() == 13);
    assert("aria-labelledby"@.len() == 15 && "data-bs-parents"@.len() == 15);
    assert("data-bs-toggle"@[9] == 'o' && "data-bs-target"@[9] == 'a');
    assert("aria-expanded"@[5] == 'e' && "aria-controls"@[5] == 'c');
    assert("aria-labelledby"@[0] == 'a' && "data-bs-parents"@[0] == 'd');
    assert(toggle(resource).well_formed());
    assert(item_heading(resource).well_formed());
    assert(item_body(key, resource).well_formed());
}

/// A resource panel sets each attribute of each of its elements once.
pub proof fn lemma_resource_panel_well_formed(
    title: Seq<char>,
    key: Seq<char>,
    resources: Seq<ResourceView>,
)
    ensures
        keyed_resource_panel(title, key, resources).well_formed(),
        resource_panel(title, resources).well_formed(),
{
    reveal_with_fuel(Markup::well_formed, 3);
    reveal_strlit("class");
    reveal_strlit("id");
    assert("class"@.len() == 5 && "id"@.len() == 2);
    assert forall|k: Seq<char>| #![trigger accordion_items(k, resources)]
        element(
            "div"@,
            seq![attribute("class"@, "accordion"@), attribute("id"@, accordion_id(k))],
            accordion_items(k, resources),
        ).well_formed() by {
        assert forall|i: int| 0 <= i < accordion_items(k, resources).len() implies (
        #[trigger] accordion_items(k, resources)[i]).well_formed() by {
            lemma_accordion_item_well_formed(k, resources[i]);
        }
    }
}

/// Builds the toggle of a resource.
pub fn build_toggle(resource: &Resource) -> (n: MarkupNode)
    ensures
        n@ == toggle(resource@),
{
    let class = if resource.is_error {
        "accordion-button collapsed p-2 bg-danger text-white"
    } else {
        "accordion-button collapsed p-2"
    };
    let safename = resource.safename.as_str();
    let attrs = vec![
        Attribute::new("class", class),
        Attribute::new("type", "button"),
        Attribute::new("data-bs-toggle", "collapse"),
        Attribute::with_value("data-bs-target", "#collapse-".to_owned().concat(safename)),
        Attribute::new("aria-expanded", "false"),
        Attribute::with_value("aria-controls", "collapse-".to_owned().concat(safename)),
    ];
    let label = vec![MarkupNode::text(resource.name.as_str())];
    proof {
        assert(attrs.deep_view() =~= seq![
            attribute("class"@, toggle_class(resource.is_error)),
            attribute("type"@, "button"@),
            attribute("data-bs-toggle"@, "collapse"@),
            attribute("data-bs-target"@, collapse_target(resource.safename@)),
            attribute("aria-expanded"@, "false"@),
            attribute("aria-controls"@, collapse_id(resource.safename@)),
        ]);
        assert(label.deep_view() =~= seq![Markup::Text(resource.name@)]);
    }
    MarkupNode::element("button", attrs, label)
}

/// Builds the heading of a resource's item.
pub fn build_item_heading(resource: &Resource) -> (n: MarkupNode)
    ensures
        n@ == item_heading(resource@),
{
    let attrs = vec![
        Attribute::new("class", "accordion-header"),
        Attribute::with_value("id", "heading-".to_owned().concat(resource.safename.as_str())),
    ];
    let children = vec![build_toggle(resource)];
    proof {
        assert(attrs.deep_view() =~= seq![
            attribute("class"@, "accordion-header"@),
            attribute("id"@, heading_id(resource.safename@)),
        ]);
        assert(children.deep_view() =~= seq![toggle(resource@)]);
    }
    MarkupNode::element("h2", attrs, children)
}

/// Builds the preformatted block around a resource's detail text.
pub fn build_detail_block(raw: &str) -> (n: MarkupNode)
    ensures
        n@ == detail_block(raw@),
{
    let text = vec![MarkupNode::text(raw)];
    assert(text.deep_view() =~= seq![Markup::Text(raw@)]);
    let pre = vec![MarkupNode::plain("pre", text)];
    assert(pre.deep_view() =~= seq![plain("pre"@, seq![Markup::Text(raw@)])]);
    let attrs = vec![Attribute::new("class", "accordion-body fs-6")];
    assert(attrs.deep_view() =~= seq![attribute("class"@, "accordion-body fs-6"@)]);
    MarkupNode::element("div", attrs, pre)
}

/// Builds the collapsible body of a resource's item.
pub fn build_item_body(key: &str, resource: &Resource) -> (n: MarkupNode)
    ensures
        n@ == item_body(key@, resource@),
{
    let safename = resource.safename.as_str();
    let attrs = vec![
        Attribute::with_value("id", "collapse-".to_owned().concat(safename)),
        Attribute::new("class", "accordion-collapse collapse"),
        Attribute::with_value("aria-labelledby", "heading-".to_owned().concat(safename)),
        Attribute::with_value("data-bs-parents", accordion_id_of(key)),
    ];
    let children = vec![build_detail_block(resource.raw.as_str())];
    proof {
        assert(attrs.deep_view() =~= seq![
            attribute("id"@, collapse_id(resource.safename@)),
            attribute("class"@, "accordion-collapse collapse"@),
            attribute("aria-labelledby"@, heading_id(resource.safename@)),
            attribute("data-bs-parents"@, accordion_id(key@)),
        ]);
        assert(children.deep_view() =~= seq![detail_block(resource.raw@)]);
    }
    MarkupNode::element("div", attrs, children)
}

/// Builds the item of one resource.
pub fn build_accordion_item(key: &str, resource: &Resource) -> (n: MarkupNode)
    ensures
        n@ == accordion_item(key@, resource@),
{
    let attrs = vec![Attribute::new("class", "accordion-item")];
    let children = vec![build_item_heading(resource), build_item_body(key, resource)];
    proof {
        assert(attrs.deep_view() =~= seq![attribute("class"@, "accordion-item"@)]);
        assert(children.deep_view() =~= seq![item_heading(resource@), item_body(key@, resource@)]);
    }
    MarkupNode::element("div", attrs, children)
}

/// Builds the panel of a category whose key is given: a heading with the
/// title, and an accordion with one item per resource, in the order of the
/// resources. The key names the panel and its accordion.
pub fn build_keyed_resource_panel(title: &str, key: &str, resources: &Vec<Resource>) -> (panel:
    MarkupNode)
    ensures
        panel@ == keyed_resource_panel(title@, key@, resources.deep_view()),
{
    let ghost all = resources.deep_view();
    let mut items: Vec<MarkupNode> = Vec::new();
    let mut i: usize = 0;
    while i < resources.len()
        invariant
            i <= resources.len(),
            all == resources.deep_view(),
            items.deep_view() == accordion_items(key@, all).take(i as int),
        decreases resources.len() - i,
    {
        let item = build_accordion_item(key, &resources[i]);
        let ghost before = items.deep_view();
        items.push(item);
        proof {
            assert(items.deep_view() =~= before.push(item@));
        }
        i = i + 1;
    }
    assert(items.deep_view() =~= accordion_items(key@, all));
    let accordion_attrs = vec![
        Attribute::new("class", "accordion"),
        Attribute::with_value("id", accordion_id_of(key)),
    ];
    let heading = vec![MarkupNode::text(title)];
    let attrs = vec![Attribute::with_value("id", panel_id_of(key))];
    proof {
        assert(accordion_attrs.deep_view() =~= seq![
            attribute("class"@, "accordion"@),
            attribute("id"@, accordion_id(key@)),
        ]);
        assert(heading.deep_view() =~= seq![Markup::Text(title@)]);
        assert(attrs.deep_view() =~= seq![attribute("id"@, panel_id(key@))]);
    }
    let children = vec![
        MarkupNode::plain("h1", heading),
        MarkupNode::element("div", accordion_attrs, items),
    ];
    assert(children.deep_view() =~= seq![
        plain("h1"@, seq![Markup::Text(title@)]),
        element(
            "div"@,
            seq![attribute("class"@, "accordion"@), attribute("id"@, accordion_id(key@))],
            accordion_items(key@, all),
        ),
    ]);
    MarkupNode::element("data", attrs, children)
}

/// Builds the panel of the category with the title `title`. The panel is
/// found under the title's key, the title in lower case.
pub fn build_resource_panel(title: &str, resources: &Vec<Resource>) -> (panel: MarkupNode)
    ensures
        panel@ == resource_panel(title@, resources.deep_view()),
{
    let key = key_of(title);
    build_keyed_resource_panel(title, key.as_str(), resources)
}

} // verus!
