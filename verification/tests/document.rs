use camgi::assets::{INDEX_SCRIPT, INDEX_STYLE};
use camgi::html::Html;
use camgi::markup::MarkupNode;
use camgi::model::{ReportModel, Resource};
use camgi::page::{assemble, build_body, build_head};
use camgi::serialize::serialize;

fn kids(node: &MarkupNode) -> &Vec<MarkupNode> {
    match node {
        MarkupNode::Element { children, .. } => children,
        _ => panic!("not an element"),
    }
}

fn tag_of(node: &MarkupNode) -> &str {
    match node {
        MarkupNode::Element { tag, .. } => tag.as_str(),
        MarkupNode::Void { tag, .. } => tag.as_str(),
        _ => panic!("not an element"),
    }
}

fn text_of(node: &MarkupNode) -> &str {
    match node {
        MarkupNode::Text(s) => s.as_str(),
        _ => panic!("not a text"),
    }
}

/// Whether some element of the tree sets one attribute twice.
fn sets_an_attribute_twice(node: &MarkupNode) -> bool {
    let (attrs, children) = match node {
        MarkupNode::Element { attrs, children, .. } => (attrs, Some(children)),
        MarkupNode::Void { attrs, .. } => (attrs, None),
        _ => return false,
    };
    for (i, a) in attrs.iter().enumerate() {
        if attrs[..i].iter().any(|b| b.name == a.name) {
            return true;
        }
    }
    children.map_or(false, |c| c.iter().any(sets_an_attribute_twice))
}

fn scenario() -> ReportModel {
    ReportModel {
        title: "Report".to_string(),
        cluster_version: "4.10.0".to_string(),
        nodes: vec![
            Resource::new("A", "a", false, "node A is fine"),
            Resource::new("B", "b", true, "node B is <NotReady>"),
        ],
        machines: Vec::new(),
        machinesets: Vec::new(),
    }
}

#[test]
fn head_has_title_encoding_stylesheet_and_style() {
    let head = build_head("Report");
    assert_eq!(tag_of(&head), "head");
    let parts = kids(&head);
    let tags: Vec<&str> = parts.iter().map(tag_of).collect();
    assert_eq!(tags, vec!["title", "meta", "link", "style"]);
    assert_eq!(text_of(&kids(&parts[0])[0]), "Report");
    assert_eq!(parts[1].attr("charset"), Some("utf-8"));
    assert_eq!(parts[2].attr("rel"), Some("stylesheet"));
    assert!(matches!(&kids(&parts[3])[0], MarkupNode::Raw(s) if s == INDEX_STYLE));
}

#[test]
fn head_is_written_out() {
    let markup = serialize(&build_head("a < b")).unwrap();
    assert!(markup.starts_with("<head>\n<title>\na &lt; b</title>\n<meta charset=\"utf-8\">\n<link href="));
    assert!(markup.ends_with(&format!("<style>\n{}</style>\n</head>\n", INDEX_STYLE)));
}

#[test]
fn body_holds_the_app_the_panels_and_the_scripts() {
    let body = build_body(&scenario());
    assert_eq!(tag_of(&body), "body");
    assert_eq!(body.attr("class"), Some("bg-secondary"));
    let parts = kids(&body);
    let tags: Vec<&str> = parts.iter().map(tag_of).collect();
    assert_eq!(tags, vec!["div", "data", "data", "data", "data", "script", "script", "script"]);
    assert_eq!(parts[0].attr("id"), Some("app"));
    let ids: Vec<Option<&str>> = parts[1..5].iter().map(|p| p.attr("id")).collect();
    assert_eq!(
        ids,
        vec![Some("summary-data"), Some("nodes-data"), Some("machines-data"), Some("machinesets-data")]
    );
    assert!(parts[5].attr("src").unwrap().ends_with("bootstrap.bundle.min.js"));
    assert!(parts[6].attr("src").unwrap().ends_with("vue.js"));
    assert_eq!(parts[7].attr("src"), None);
    assert!(matches!(&kids(&parts[7])[0], MarkupNode::Raw(s) if s == INDEX_SCRIPT));
}

#[test]
fn app_has_a_navigation_column_and_a_content_column() {
    let body = build_body(&scenario());
    let row = &kids(&kids(&body)[0])[0];
    assert_eq!(row.attr("class"), Some("row mt-2"));
    let columns = kids(row);
    assert_eq!(columns.len(), 2);
    assert_eq!(columns[0].attr("id"), Some("nav-col"));
    assert_eq!(kids(&columns[0])[0].attr("class"), Some("list-group"));
    assert_eq!(columns[1].attr("class"), Some("col-10 bg-white rounded"));
    let mount = &kids(&columns[1])[0];
    assert_eq!(mount.attr("id"), Some("main-content"));
    assert_eq!(kids(mount).len(), 1);
    assert_eq!(kids(mount)[0].attr("v-html"), Some("content"));
    assert!(kids(&kids(mount)[0]).is_empty());
}

#[test]
fn scenario_navigation_has_a_badge_for_nodes_only() {
    let body = build_body(&scenario());
    let index = &kids(&kids(&kids(&kids(&body)[0])[0])[0])[0];
    let entries = kids(index);
    assert_eq!(entries.len(), 5);
    assert_eq!(text_of(&kids(&entries[1])[0]), "Nodes");
    assert_eq!(kids(&entries[1]).len(), 2);
    assert_eq!(text_of(&kids(&kids(&entries[1])[1])[0]), "1");
    assert_eq!(text_of(&kids(&entries[2])[0]), "Machines");
    assert_eq!(kids(&entries[2]).len(), 1);
    assert_eq!(text_of(&kids(&entries[3])[0]), "MachineSets");
    assert_eq!(kids(&entries[3]).len(), 1);
}

#[test]
fn scenario_summary_lists_the_failed_node() {
    let body = build_body(&scenario());
    let summary = &kids(&body)[1];
    let sections = kids(&kids(summary)[2]);
    assert_eq!(text_of(&kids(&sections[2])[0]), "2 Nodes");
    let nodes = kids(&sections[3]);
    assert_eq!(text_of(&kids(&nodes[1])[0]), "1");
    let table_body = kids(&nodes[3]).last().unwrap();
    assert_eq!(kids(table_body).len(), 1);
    let row = &kids(table_body)[0];
    assert_eq!(kids(row).len(), 1);
    assert_eq!(text_of(&kids(&kids(row)[0])[0]), "B");
    assert_eq!(text_of(&kids(&sections[5])[0]), "All Machines in Running phase");
}

#[test]
fn document_is_html_with_head_and_body() {
    let doc = assemble(&scenario());
    assert_eq!(tag_of(&doc), "html");
    assert_eq!(doc.attr("lang"), Some("en"));
    let tags: Vec<&str> = kids(&doc).iter().map(tag_of).collect();
    assert_eq!(tags, vec!["head", "body"]);
}

#[test]
fn no_element_of_the_document_sets_an_attribute_twice() {
    assert!(!sets_an_attribute_twice(&assemble(&scenario())));
}

#[test]
fn rendering_leaves_the_document_in_reach() {
    let html = Html::from(scenario()).unwrap();
    assert_eq!(tag_of(html.tree()), "html");
    let text = serialize(html.tree()).unwrap();
    assert_eq!(html.render(), text);
}

#[test]
fn rendered_text_starts_and_ends_with_the_root() {
    let text = Html::from(scenario()).unwrap().render();
    assert!(text.starts_with("<html lang=\"en\">\n<head>\n<title>\nReport</title>\n"));
    assert!(text.ends_with(&format!("<script>\n{}</script>\n</body>\n</html>\n", INDEX_SCRIPT)));
}

#[test]
fn rendered_text_holds_every_panel_at_once() {
    let text = Html::from(scenario()).unwrap().render();
    for id in ["summary-data", "nodes-data", "machines-data", "machinesets-data"] {
        assert_eq!(text.matches(&format!("<data id=\"{}\">", id)).count(), 1);
    }
    assert_eq!(text.matches("<div id=\"main-content\" class=\"overflow-auto\">").count(), 1);
}

#[test]
fn rendered_text_escapes_the_detail_and_not_the_script() {
    let text = Html::from(scenario()).unwrap().render();
    assert!(text.contains("<pre>\nnode B is &lt;NotReady&gt;</pre>\n"));
    assert!(!text.contains("<NotReady>"));
    assert!(text.contains(INDEX_SCRIPT));
    assert!(text.contains(INDEX_STYLE));
}

#[test]
fn rendering_twice_gives_the_same_bytes() {
    let model = scenario();
    let first = Html::from(model.clone()).unwrap().render();
    let second = Html::from(model).unwrap().render();
    assert_eq!(first.as_bytes(), second.as_bytes());
}

#[test]
fn assembling_twice_gives_the_same_tree_and_leaves_the_model() {
    let model = scenario();
    let before = model.clone();
    let first = assemble(&model);
    let second = assemble(&model);
    assert_eq!(first, second);
    assert_eq!(model, before);
}

#[test]
fn scenario_report() {
    let text = Html::from(scenario()).unwrap().render();
    // the summary: two nodes, one of them failed and listed by name
    assert!(text.contains("<dt class=\"text-light bg-secondary ps-1 mb-1\">\n2 Nodes</dt>\n"));
    assert!(text.contains(
        "<dd>\nThe following<span class=\"badge bg-danger\">\n1</span>\n\
         Nodes do not have a true Ready condition\
         <table class=\"table table-sm table-striped font-monospace\">\n\
         <tbody>\n<tr>\n<th scope=\"col\">\nB</th>\n</tr>\n</tbody>\n</table>\n</dd>\n"
    ));
    // the summary: no machine is listed
    assert!(text.contains("0 Machines</dt>\n<dd>\nAll Machines in Running phase</dd>\n"));
    // the navigation: a badge beside the nodes, none beside the machines
    assert!(text.contains(
        "class=\"list-group-item list-group-item-action\">\n\
         Nodes<span class=\"badge bg-danger float-right\">\n1</span>\n</a>\n"
    ));
    assert!(text.contains(
        "class=\"list-group-item list-group-item-action\">\nMachines</a>\n"
    ));
    assert_eq!(text.matches("badge bg-danger float-right").count(), 1);
}

#[test]
fn rendering_depends_on_the_model() {
    let mut other = scenario();
    other.nodes[0].is_error = true;
    let first = Html::from(scenario()).unwrap().render();
    let second = Html::from(other).unwrap().render();
    assert_ne!(first, second);
}

#[test]
fn empty_model_renders() {
    let model = ReportModel {
        title: String::new(),
        cluster_version: String::new(),
        nodes: Vec::new(),
        machines: Vec::new(),
        machinesets: Vec::new(),
    };
    let text = Html::from(model).unwrap().render();
    assert!(text.contains("<title>\n</title>\n"));
    assert!(text.contains("0 Nodes</dt>"));
    assert!(text.contains("All nodes ready</dd>"));
    assert!(!text.contains("badge"));
}

#[test]
fn script_selects_panels_by_the_identifier_that_the_panels_carry() {
    assert!(INDEX_SCRIPT.contains("changeContent"));
    assert!(INDEX_SCRIPT.contains("key + '-data'"));
    assert!(INDEX_SCRIPT.contains("this.changeContent('summary')"));
    assert!(INDEX_STYLE.contains("display: none"));
}
