//! The document: a head, and a body with the navigation, the content
//! column, every panel and the scripts.

use vstd::prelude::*;
use crate::assets::{INDEX_SCRIPT, INDEX_STYLE};
use crate::keys::{category_key, panel_id, select_action, summary_key};
use crate::markup::{attribute, element, find_attr, plain, Attribute, Markup, MarkupNode};
use crate::model::{Category, CategoryView, ReportModel, ReportModelView, ResourceView};
use crate::nav::{
    build_nav_index, category_entry, lemma_nav_index_well_formed, nav_index, summary_entry,
};
use crate::panel::{build_resource_panel, lemma_resource_panel_well_formed, resource_panel};
use crate::summary::{build_summary_panel, lemma_summary_panel_well_formed, summary_panel};

verus! {

/// The link to the stylesheet that the page is laid out with.
pub open spec fn stylesheet_link() -> Markup {
    Markup::Void {
        tag: "link"@,
        attrs: seq![
            attribute(
                "href"@,
                "https://cdn.jsdelivr.net/npm/bootstrap@5.0.0-beta3/dist/css/bootstrap.min.css"@,
            ),
            attribute("rel"@, "stylesheet"@),
            attribute(
                "integrity"@,
                "sha384-eOJMYsd53ii+scO/bJGFsiCZc+5NDVN2yr8+0RDqr0Ql0h+rP48ckxlpbzKgwra6"@,
            ),
            attribute("crossorigin"@, "anonymous"@),
        ],
    }
}

/// The head of the document: the title, the character encoding, the
/// stylesheet and the page's own style block.
pub open spec fn head_markup(title: Seq<char>) -> Markup {
    plain(
        "head"@,
        seq![
            plain("title"@, seq![Markup::Text(title)]),
            Markup::Void { tag: "meta"@, attrs: seq![attribute("charset"@, "utf-8"@)] },
            stylesheet_link(),
            plain("style"@, seq![Markup::Raw(INDEX_STYLE@)]),
        ],
    )
}

/// The categories of a report, in their fixed order.
pub open spec fn categories(model: ReportModelView) -> Seq<CategoryView> {
    seq![
        CategoryView { title: "Nodes"@, resources: model.nodes },
        CategoryView { title: "Machines"@, resources: model.machines },
        CategoryView { title: "MachineSets"@, resources: model.machinesets },
    ]
}

/// The column that holds the navigation index.
pub open spec fn nav_column(model: ReportModelView) -> Markup {
    element(
        "div"@,
        seq![attribute("class"@, "col-2"@), attribute("id"@, "nav-col"@)],
        seq![nav_index(categories(model))],
    )
}

/// The column that shows the chosen panel. What it shows is set by the
/// page's script when the page is viewed.
pub open spec fn content_column() -> Markup {
    element(
        "div"@,
        seq![attribute("class"@, "col-10 bg-white rounded"@)],
        seq![
            element(
                "div"@,
                seq![attribute("id"@, "main-content"@), attribute("class"@, "overflow-auto"@)],
                seq![element("span"@, seq![attribute("v-html"@, "content"@)], Seq::empty())],
            ),
        ],
    )
}

/// The element that the page's script takes over: one row of two columns.
pub open spec fn app_root(model: ReportModelView) -> Markup {
    element(
        "div"@,
        seq![attribute("id"@, "app"@), attribute("class"@, "container-fluid"@)],
        seq![
            element(
                "div"@,
                seq![attribute("class"@, "row mt-2"@)],
                seq![nav_column(model), content_column()],
            ),
        ],
    )
}

/// The library that lays out and animates the page.
pub open spec fn layout_script() -> Markup {
    element(
        "script"@,
        seq![
            attribute(
                "src"@,
                "https://cdn.jsdelivr.net/npm/bootstrap@5.0.0-beta3/dist/js/bootstrap.bundle.min.js"@,
            ),
            attribute(
                "integrity"@,
                "sha384-JEW9xMcG8R+pH31jmWH6WWP0WintQrMb4s7ZOdauHnUtxwoG2vI5DkLtS3qm9Ekf"@,
            ),
            attribute("crossorigin"@, "anonymous"@),
        ],
        Seq::empty(),
    )
}

/// The library that the page's script is written for.
pub open spec fn reactivity_script() -> Markup {
    element(
        "script"@,
        seq![attribute("src"@, "https://cdn.jsdelivr.net/npm/vue@2/dist/vue.js"@)],
        Seq::empty(),
    )
}

/// The page's own script.
pub open spec fn page_script() -> Markup {
    plain("script"@, seq![Markup::Raw(INDEX_SCRIPT@)])
}

/// The body of the document: the navigation and the content column, then
/// the summary panel and one panel per category, then the scripts.
pub open spec fn body_markup(model: ReportModelView) -> Markup {
    element(
        "body"@,
        seq![attribute("class"@, "bg-secondary"@)],
        seq![
            app_root(model),
            summary_panel(model),
            resource_panel("Nodes"@, model.nodes),
            resource_panel("Machines"@, model.machines),
            resource_panel("MachineSets"@, model.machinesets),
            layout_script(),
            reactivity_script(),
            page_script(),
        ],
    )
}

/// The whole document.
pub open spec fn document_markup(model: ReportModelView) -> Markup {
    element(
        "html"@,
        seq![attribute("lang"@, "en"@)],
        seq![head_markup(model.title), body_markup(model)],
    )
}

/// Key consistency: the navigation entry of a category and the panel of
/// that category go by one key, the category's title in lower case. The
/// entry's action selects that key, and the identifier of the panel is made
/// from it.
pub proof fn lemma_key_consistency(title: Seq<char>, resources: Seq<ResourceView>)
    ensures
        category_entry(CategoryView { title, resources }).attr_value("v-on:click"@) == Some(
            select_action(category_key(title)),
        ),
        resource_panel(title, resources).attr_value("id"@) == Some(panel_id(category_key(title))),
{
    reveal_strlit("href");
    reveal_strlit("v-on:click");
    let entry = category_entry(CategoryView { title, resources });
    assert(entry.attrs()[0].name.len() != "v-on:click"@.len());
    reveal_with_fuel(find_attr, 3);
}

/// The summary's entry and the summary panel go by one key as well.
pub proof fn lemma_summary_key_consistency(model: ReportModelView)
    ensures
        summary_entry().attr_value("v-on:click"@) == Some(select_action(summary_key())),
        summary_panel(model).attr_value("id"@) == Some(panel_id(summary_key())),
{
    reveal_strlit("href");
    reveal_strlit("v-on:click");
    let entry = summary_entry();
    assert(entry.attrs()[0].name.len() != "v-on:click"@.len());
    reveal_with_fuel(find_attr, 3);
}

/// In the document, the panel of category `i` stands behind the app and the
/// summary panel, and goes by the key that the category's entry in the
/// navigation selects.
pub proof fn lemma_document_key_consistency(model: ReportModelView, i: int)
    requires
        0 <= i < categories(model).len(),
    ensures
        nav_index(categories(model)).children()[i + 1].attr_value("v-on:click"@) == Some(
            select_action(category_key(categories(model)[i].title)),
        ),
        body_markup(model).children()[i + 2].attr_value("id"@) == Some(
            panel_id(category_key(categories(model)[i].title)),
        ),
{
    let c = categories(model)[i];
    lemma_key_consistency(c.title, c.resources);
}

/// The document sets each attribute of each of its elements once.
pub proof fn lemma_document_well_formed(model: ReportModelView)
    ensures
        document_markup(model).well_formed(),
{
    reveal_with_fuel(Markup::well_formed, 3);
    reveal_strlit("href");
    reveal_strlit("rel");
    reveal_strlit("integrity");
    reveal_strlit("crossorigin");
    reveal_strlit("class");
    reveal_strlit("id");
    reveal_strlit("src");
    assert("href"@.len() == 4 && "rel"@.len() == 3 && "integrity"@.len() == 9);
    assert("crossorigin"@.len() == 11 && "src"@.len() == 3);
    assert("class"@.len() == 5 && "id"@.len() == 2);
    assert(stylesheet_link().well_formed());
    assert(head_markup(model.title).well_formed());
    lemma_nav_index_well_formed(categories(model));
    assert(nav_column(model).well_formed());
    assert(content_column().well_formed());
    assert(app_root(model).well_formed());
    lemma_summary_panel_well_formed(model);
    lemma_resource_panel_well_formed("Nodes"@, category_key("Nodes"@), model.nodes);
    lemma_resource_panel_well_formed("Machines"@, category_key("Machines"@), model.machines);
    lemma_resource_panel_well_formed("MachineSets"@, category_key("MachineSets"@), model.machinesets);
    assert(layout_script().well_formed());
    assert(body_markup(model).well_formed());
}

/// Builds the link to the stylesheet.
pub fn build_stylesheet_link() -> (n: MarkupNode)
    ensures
        n@ == stylesheet_link(),
{
    let attrs = vec![
        Attribute::new(
            "href",
            "https://cdn.jsdelivr.net/npm/bootstrap@5.0.0-beta3/dist/css/bootstrap.min.css",
        ),
        Attribute::new("rel", "stylesheet"),
        Attribute::new(
            "integrity",
            "sha384-eOJMYsd53ii+scO/bJGFsiCZc+5NDVN2yr8+0RDqr0Ql0h+rP48ckxlpbzKgwra6",
        ),
        Attribute::new("crossorigin", "anonymous"),
    ];
    assert(attrs.deep_view() =~= stylesheet_link().attrs());
    MarkupNode::void("link", attrs)
}

/// Builds the head of the document.
pub fn build_head(title: &str) -> (head: MarkupNode)
    ensures
        head@ == head_markup(title@),
{
    let title_text = vec![MarkupNode::text(title)];
    assert(title_text.deep_view() =~= seq![Markup::Text(title@)]);
    let charset = vec![Attribute::new("charset", "utf-8")];
    assert(charset.deep_view() =~= seq![attribute("charset"@, "utf-8"@)]);
    let style = vec![MarkupNode::raw(INDEX_STYLE)];
    assert(style.deep_view() =~= seq![Markup::Raw(INDEX_STYLE@)]);
    let children = vec![
        MarkupNode::plain("title", title_text),
        MarkupNode::void("meta", charset),
        build_stylesheet_link(),
        MarkupNode::plain("style", style),
    ];
    assert(children.deep_view() =~= head_markup(title@).children());
    MarkupNode::plain("head", children)
}

/// Builds the column that holds the navigation index.
pub fn build_nav_column(model: &ReportModel) -> (n: MarkupNode)
    ensures
        n@ == nav_column(model@),
{
    let groups = vec![
        Category { title: "Nodes", resources: &model.nodes },
        Category { title: "Machines", resources: &model.machines },
        Category { title: "MachineSets", resources: &model.machinesets },
    ];
    assert(groups.deep_view() =~= categories(model@));
    let attrs = vec![Attribute::new("class", "col-2"), Attribute::new("id", "nav-col")];
    assert(attrs.deep_view() =~= seq![attribute("class"@, "col-2"@), attribute("id"@, "nav-col"@)]);
    let children = vec![build_nav_index(&groups)];
    assert(children.deep_view() =~= seq![nav_index(categories(model@))]);
    MarkupNode::element("div", attrs, children)
}

/// Builds the column that shows the chosen panel.
pub fn build_content_column() -> (n: MarkupNode)
    ensures
        n@ == content_column(),
{
    let span_attrs = vec![Attribute::new("v-html", "content")];
    assert(span_attrs.deep_view() =~= seq![attribute("v-html"@, "content"@)]);
    let nothing: Vec<MarkupNode> = Vec::new();
    assert(nothing.deep_view() =~= Seq::<Markup>::empty());
    let mount = vec![MarkupNode::element("span", span_attrs, nothing)];
    assert(mount.deep_view() =~= seq![
        element("span"@, seq![attribute("v-html"@, "content"@)], Seq::empty()),
    ]);
    let mount_attrs = vec![
        Attribute::new("id", "main-content"),
        Attribute::new("class", "overflow-auto"),
    ];
    assert(mount_attrs.deep_view() =~= seq![
        attribute("id"@, "main-content"@),
        attribute("class"@, "overflow-auto"@),
    ]);
    let children = vec![MarkupNode::element("div", mount_attrs, mount)];
    assert(children.deep_view() =~= content_column().children());
    let attrs = vec![Attribute::new("class", "col-10 bg-white rounded")];
    assert(attrs.deep_view() =~= seq![attribute("class"@, "col-10 bg-white rounded"@)]);
    MarkupNode::element("div", attrs, children)
}

/// Builds the element that the page's script takes over.
pub fn build_app_root(model: &ReportModel) -> (n: MarkupNode)
    ensures
        n@ == app_root(model@),
{
    let columns = vec![build_nav_column(model), build_content_column()];
    assert(columns.deep_view() =~= seq![nav_column(model@), content_column()]);
    let row_attrs = vec![Attribute::new("class", "row mt-2")];
    assert(row_attrs.deep_view() =~= seq![attribute("class"@, "row mt-2"@)]);
    let row = vec![MarkupNode::element("div", row_attrs, columns)];
    assert(row.deep_view() =~= app_root(model@).children());
    let attrs = vec![Attribute::new("id", "app"), Attribute::new("class", "container-fluid")];
    assert(attrs.deep_view() =~= seq![
        attribute("id"@, "app"@),
        attribute("class"@, "container-fluid"@),
    ]);
    MarkupNode::element("div", attrs, row)
}

/// Builds the reference to the layout library.
pub fn build_layout_script() -> (n: MarkupNode)
    ensures
        n@ == layout_script(),
{
    let attrs = vec![
        Attribute::new(
            "src",
            "https://cdn.jsdelivr.net/npm/bootstrap@5.0.0-beta3/dist/js/bootstrap.bundle.min.js",
        ),
        Attribute::new(
            "integrity",
            "sha384-JEW9xMcG8R+pH31jmWH6WWP0WintQrMb4s7ZOdauHnUtxwoG2vI5DkLtS3qm9Ekf",
        ),
        Attribute::new("crossorigin", "anonymous"),
    ];
    assert(attrs.deep_view() =~= layout_script().attrs());
    let nothing: Vec<MarkupNode> = Vec::new();
    assert(nothing.deep_view() =~= Seq::<Markup>::empty());
    MarkupNode::element("script", attrs, nothing)
}

/// Builds the reference to the reactivity library.
pub fn build_reactivity_script() -> (n: MarkupNode)
    ensures
        n@ == reactivity_script(),
{
    let attrs = vec![Attribute::new("src", "https://cdn.jsdelivr.net/npm/vue@2/dist/vue.js")];
    assert(attrs.deep_view() =~= reactivity_script().attrs());
    let nothing: Vec<MarkupNode> = Vec::new();
    assert(nothing.deep_view() =~= Seq::<Markup>::empty());
    MarkupNode::element("script", attrs, nothing)
}

/// Builds the page's own script.
pub fn build_page_script() -> (n: MarkupNode)
    ensures
        n@ == page_script(),
{
    let body = vec![MarkupNode::raw(INDEX_SCRIPT)];
    assert(body.deep_view() =~= seq![Markup::Raw(INDEX_SCRIPT@)]);
    MarkupNode::plain("script", body)
}

/// Builds the body of the document. Every panel stands in it at once; the
/// page's script chooses which one is seen.
pub fn build_body(model: &ReportModel) -> (body: MarkupNode)
    ensures
        body@ == body_markup(model@),
{
    let children = vec![
        build_app_root(model),
        build_summary_panel(model),
        build_resource_panel("Nodes", &model.nodes),
        build_resource_panel("Machines", &model.machines),
        build_resource_panel("MachineSets", &model.machinesets),
        build_layout_script(),
        build_reactivity_script(),
        build_page_script(),
    ];
    assert(children.deep_view() =~= body_markup(model@).children());
    let attrs = vec![Attribute::new("class", "bg-secondary")];
    assert(attrs.deep_view() =~= seq![attribute("class"@, "bg-secondary"@)]);
    MarkupNode::element("body", attrs, children)
}

/// Assembles the document of a report. The result depends on the model
/// alone, and the model is left as it is.
pub fn assemble(model: &ReportModel) -> (doc: MarkupNode)
    ensures
        doc@ == document_markup(model@),
        doc@.well_formed(),
{
    proof {
        lemma_document_well_formed(model@);
    }
    let children = vec![build_head(model.title.as_str()), build_body(model)];
    assert(children.deep_view() =~= seq![head_markup(model@.title), body_markup(model@)]);
    let attrs = vec![Attribute::new("lang", "en")];
    assert(attrs.deep_view() =~= seq![attribute("lang"@, "en"@)]);
    MarkupNode::element("html", attrs, children)
}

} // verus!
