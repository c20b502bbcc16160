//! The navigation index: the list of links that select a panel.

use vstd::prelude::*;
use crate::badge::{badge, build_badge, lemma_badge_well_formed};
use crate::keys::{category_key, key_of, select_action, select_action_of, summary_key};
use crate::markup::{attribute, element, Attribute, Markup, MarkupNode};
use crate::model::{count_errors, error_count, Category, CategoryView};
use crate::serialize::markup_text;
use crate::text::{decimal, lemma_decimal_is_plain};

verus! {

/// The entry that shows the panel with the key `key`: a link labelled with
/// `title`, and behind the label a badge with `errors` where that is not 0.
pub open spec fn nav_entry(title: Seq<char>, key: Seq<char>, errors: nat) -> Markup {
    element(
        "a"@,
        seq![
            attribute("href"@, "#"@),
            attribute("v-on:click"@, select_action(key)),
            attribute("class"@, "list-group-item list-group-item-action"@),
        ],
        if errors > 0 {
            seq![Markup::Text(title), badge("badge bg-danger float-right"@, errors)]
        } else {
            seq![Markup::Text(title)]
        },
    )
}

/// The entry of a category, with the number of its flagged resources.
pub open spec fn category_entry(category: CategoryView) -> Markup {
    nav_entry(category.title, category_key(category.title), error_count(category.resources))
}

/// The entry of the summary, which never has a badge.
pub open spec fn summary_entry() -> Markup {
    nav_entry("Summary"@, summary_key(), 0)
}

/// The link to the project's home, which opens in a new tab.
pub open spec fn project_link() -> Markup {
    element(
        "a"@,
        seq![
            attribute("href"@, "https://github.com/elmiko/camgi.rs"@),
            attribute("class"@, "list-group-item list-group-item-action text-center"@),
            attribute("target"@, "_blank"@),
        ],
        seq![
            Markup::Void {
                tag: "img"@,
                attrs: seq![
                    attribute("src"@, "https://github.com/favicon.ico"@),
                    attribute("alt"@, "GitHub logo"@),
                    attribute("title"@, "Found a bug or issue? Visit this project's git repo."@),
                ],
            },
        ],
    )
}

/// The entries of the categories, in the order of the categories.
pub open spec fn category_entries(categories: Seq<CategoryView>) -> Seq<Markup> {
    categories.map_values(|c: CategoryView| category_entry(c))
}

/// The navigation index: the summary's entry first, then the categories in
/// the order given, and the project link last.
pub open spec fn nav_index(categories: Seq<CategoryView>) -> Markup {
    element(
        "div"@,
        seq![attribute("class"@, "list-group"@)],
        seq![summary_entry()] + category_entries(categories) + seq![project_link()],
    )
}

/// The order of the index: the summary's entry stands first, the entry of
/// category `i` at place `i + 1`, and the project link last.
pub proof fn lemma_nav_index_order(categories: Seq<CategoryView>)
    ensures
        nav_index(categories).children().len() == categories.len() + 2,
        nav_index(categories).children().first() == summary_entry(),
        nav_index(categories).children().last() == project_link(),
        forall|i: int|
            0 <= i < categories.len() ==> #[trigger] nav_index(categories).children()[i + 1]
                == category_entry(categories[i]),
{
}

/// Badge suppression: the entry of a category without flagged resources is
/// its label and nothing else, so it holds no badge. The entry of a category
/// with `n > 0` flagged resources holds, behind the label, one badge, and
/// what the badge shows is the decimal numeral of `n`, which is written out
/// as it stands.
pub proof fn lemma_badge_suppression(category: CategoryView)
    ensures
        error_count(category.resources) == 0 ==> category_entry(category).children() == seq![
            Markup::Text(category.title),
        ],
        error_count(category.resources) > 0 ==> category_entry(category).children() == seq![
            Markup::Text(category.title),
            badge("badge bg-danger float-right"@, error_count(category.resources)),
        ],
        badge("badge bg-danger float-right"@, error_count(category.resources)).children() == seq![
            Markup::Text(decimal(error_count(category.resources))),
        ],
        markup_text(Markup::Text(decimal(error_count(category.resources)))) == decimal(
            error_count(category.resources),
        ),
{
    lemma_decimal_is_plain(error_count(category.resources));
}

/// The navigation index sets each attribute of each of its elements once.
pub proof fn lemma_nav_index_well_formed(categories: Seq<CategoryView>)
    ensures
        nav_index(categories).well_formed(),
{
    reveal_with_fuel(Markup::well_formed, 2);
    reveal_strlit("href");
    reveal_strlit("v-on:click");
    reveal_strlit("class");
    reveal_strlit("target");
    reveal_strlit("src");
    reveal_strlit("alt");
    reveal_strlit("title");
    assert("href"@.len() == 4 && "v-on:click"@.len() == 10 && "class"@.len() == 5);
    assert("target"@.len() == 6 && "title"@.len() == 5);
    assert("src"@[0] == 's' && "alt"@[0] == 'a');
    assert forall|title: Seq<char>, key: Seq<char>, errors: nat| (#[trigger] nav_entry(
        title,
        key,
        errors,
    )).well_formed() by {
        lemma_badge_well_formed("badge bg-danger float-right"@, errors);
    }
    let entries = nav_index(categories).children();
    assert forall|i: int| 0 <= i < entries.len() implies (#[trigger] entries[i]).well_formed() by {
        if 1 <= i <= categories.len() {
            assert(entries[i] == category_entry(categories[i - 1]));
        }
    }
}

/// Builds the entry that shows the panel with the key `key`.
pub fn build_nav_entry(title: &str, key: &str, errors: usize) -> (entry: MarkupNode)
    ensures
        entry@ == nav_entry(title@, key@, errors as nat),
{
    let attrs = vec![
        Attribute::new("href", "#"),
        Attribute::with_value("v-on:click", select_action_of(key)),
        Attribute::new("class", "list-group-item list-group-item-action"),
    ];
    assert(attrs.deep_view() =~= seq![
        attribute("href"@, "#"@),
        attribute("v-on:click"@, select_action(key@)),
        attribute("class"@, "list-group-item list-group-item-action"@),
    ]);
    let children = if errors > 0 {
        let children = vec![
            MarkupNode::text(title),
            build_badge("badge bg-danger float-right", errors),
        ];
        assert(children.deep_view() =~= seq![
            Markup::Text(title@),
            badge("badge bg-danger float-right"@, errors as nat),
        ]);
        children
    } else {
        let children = vec![MarkupNode::text(title)];
        assert(children.deep_view() =~= seq![Markup::Text(title@)]);
        children
    };
    MarkupNode::element("a", attrs, children)
}

/// Builds the entry of a category.
pub fn build_category_entry(category: &Category) -> (entry: MarkupNode)
    ensures
        entry@ == category_entry(category@),
{
    let key = key_of(category.title);
    build_nav_entry(category.title, key.as_str(), count_errors(category.resources))
}

/// Builds the link to the project's home.
pub fn build_project_link() -> (link: MarkupNode)
    ensures
        link@ == project_link(),
{
    let image_attrs = vec![
        Attribute::new("src", "https://github.com/favicon.ico"),
        Attribute::new("alt", "GitHub logo"),
        Attribute::new("title", "Found a bug or issue? Visit this project's git repo."),
    ];
    assert(image_attrs.deep_view() =~= seq![
        attribute("src"@, "https://github.com/favicon.ico"@),
        attribute("alt"@, "GitHub logo"@),
        attribute("title"@, "Found a bug or issue? Visit this project's git repo."@),
    ]);
    let attrs = vec![
        Attribute::new("href", "https://github.com/elmiko/camgi.rs"),
        Attribute::new("class", "list-group-item list-group-item-action text-center"),
        Attribute::new("target", "_blank"),
    ];
    assert(attrs.deep_view() =~= seq![
        attribute("href"@, "https://github.com/elmiko/camgi.rs"@),
        attribute("class"@, "list-group-item list-group-item-action text-center"@),
        attribute("target"@, "_blank"@),
    ]);
    let children = vec![MarkupNode::void("img", image_attrs)];
    assert(children.deep_view() =~= seq![
        Markup::Void { tag: "img"@, attrs: image_attrs.deep_view() },
    ]);
    MarkupNode::element("a", attrs, children)
}

/// Builds the navigation index: the summary's entry, one entry per
/// category in the order given, each with a badge where the category has
/// flagged resources, and the project link at the end.
pub fn build_nav_index(categories: &Vec<Category>) -> (index: MarkupNode)
    ensures
        index@ == nav_index(categories.deep_view()),
{
    let ghost all = categories.deep_view();
    let mut entries: Vec<MarkupNode> = Vec::new();
    entries.push(build_nav_entry("Summary", "summary", 0));
    let mut i: usize = 0;
    while i < categories.len()
        invariant
            i <= categories.len(),
            all == categories.deep_view(),
            entries.deep_view() == seq![summary_entry()] + category_entries(all).take(i as int),
        decreases categories.len() - i,
    {
        let entry = build_category_entry(&categories[i]);
        let ghost before = entries.deep_view();
        entries.push(entry);
        proof {
            assert(entries.deep_view() =~= before.push(entry@));
        }
        i = i + 1;
    }
    let link = build_project_link();
    let ghost before = entries.deep_view();
    entries.push(link);
    let attrs = vec![Attribute::new("class", "list-group")];
    proof {
        assert(entries.deep_view() =~= before.push(link@));
        assert(entries.deep_view() =~= seq![summary_entry()] + category_entries(all) + seq![
            project_link(),
        ]);
        assert(attrs.deep_view() =~= seq![attribute("class"@, "list-group"@)]);
    }
    MarkupNode::element("div", attrs, entries)
}

} // verus!
