use camgi::keys::{accordion_id_of, key_of, panel_id_of, select_action_of};
use camgi::markup::MarkupNode;
use camgi::model::{count_errors, Category, Resource};
use camgi::nav::{build_category_entry, build_nav_entry, build_nav_index, build_project_link};
use camgi::panel::build_resource_panel;
use camgi::serialize::serialize;

fn kids(node: &MarkupNode) -> &Vec<MarkupNode> {
    match node {
        MarkupNode::Element { children, .. } => children,
        _ => panic!("not an element"),
    }
}

fn name_of(node: &MarkupNode) -> &str {
    match node {
        MarkupNode::Element { tag, .. } => tag.as_str(),
        MarkupNode::Void { tag, .. } => tag.as_str(),
        _ => panic!("not an element"),
    }
}

fn label(node: &MarkupNode) -> &str {
    match &kids(node)[0] {
        MarkupNode::Text(s) => s.as_str(),
        _ => panic!("an entry starts with its label"),
    }
}

/// What the badge of an entry shows, if the entry has one.
fn badge_of(entry: &MarkupNode) -> Option<String> {
    let spans: Vec<&MarkupNode> = kids(entry)
        .iter()
        .filter(|c| matches!(c, MarkupNode::Element { tag, .. } if tag == "span"))
        .collect();
    assert!(spans.len() <= 1);
    spans.first().map(|span| match &kids(span)[0] {
        MarkupNode::Text(s) => s.clone(),
        _ => panic!("a badge holds text"),
    })
}

fn resources(flags: &[bool]) -> Vec<Resource> {
    flags
        .iter()
        .enumerate()
        .map(|(i, e)| Resource::new(&format!("r{}", i), &format!("r-{}", i), *e, "detail"))
        .collect()
}

#[test]
fn lower_case_key_of_a_title() {
    assert_eq!(key_of("Nodes"), "nodes");
    assert_eq!(key_of("MachineSets"), "machinesets");
    assert_eq!(key_of("already lower"), "already lower");
    assert_eq!(key_of("ÉTAT"), "état");
}

#[test]
fn identifiers_are_made_from_the_key() {
    assert_eq!(panel_id_of("nodes"), "nodes-data");
    assert_eq!(accordion_id_of("nodes"), "nodes-accordion");
    assert_eq!(select_action_of("nodes"), "changeContent('nodes')");
}

#[test]
fn entry_without_errors_has_no_badge() {
    let entry = build_nav_entry("Machines", "machines", 0);
    assert_eq!(kids(&entry).len(), 1);
    assert_eq!(label(&entry), "Machines");
    assert_eq!(badge_of(&entry), None);
    assert!(!serialize(&entry).unwrap().contains("badge"));
}

#[test]
fn entry_with_errors_has_a_badge_with_their_number() {
    let entry = build_nav_entry("Nodes", "nodes", 3);
    assert_eq!(kids(&entry).len(), 2);
    assert_eq!(label(&entry), "Nodes");
    assert_eq!(badge_of(&entry), Some("3".to_string()));
    assert_eq!(kids(&entry)[1].attr("class"), Some("badge bg-danger float-right"));
}

#[test]
fn badge_shows_a_number_of_several_digits_exactly() {
    let entry = build_nav_entry("Nodes", "nodes", 1024);
    assert_eq!(badge_of(&entry), Some("1024".to_string()));
}

#[test]
fn entry_is_written_out_with_its_action() {
    let entry = build_nav_entry("Nodes", "nodes", 1);
    assert_eq!(
        serialize(&entry).unwrap(),
        "<a href=\"#\" v-on:click=\"changeContent('nodes')\" \
         class=\"list-group-item list-group-item-action\">\n\
         Nodes<span class=\"badge bg-danger float-right\">\n1</span>\n</a>\n"
    );
}

#[test]
fn category_entry_counts_the_flagged_resources() {
    let rs = resources(&[false, true, true, false, true]);
    assert_eq!(count_errors(&rs), 3);
    let entry = build_category_entry(&Category { title: "Machines", resources: &rs });
    assert_eq!(badge_of(&entry), Some("3".to_string()));
    assert_eq!(entry.attr("v-on:click"), Some("changeContent('machines')"));
}

#[test]
fn category_without_flagged_resources_has_no_badge() {
    let rs = resources(&[false, false]);
    assert_eq!(count_errors(&rs), 0);
    let entry = build_category_entry(&Category { title: "Machines", resources: &rs });
    assert_eq!(badge_of(&entry), None);
}

#[test]
fn empty_category_has_no_badge() {
    let rs = resources(&[]);
    let entry = build_category_entry(&Category { title: "MachineSets", resources: &rs });
    assert_eq!(badge_of(&entry), None);
    assert_eq!(kids(&entry).len(), 1);
}

#[test]
fn entry_and_panel_go_by_the_same_key() {
    for title in ["Nodes", "Machines", "MachineSets", "Cluster Operators"] {
        let rs = resources(&[true, false]);
        let entry = build_category_entry(&Category { title, resources: &rs });
        let panel = build_resource_panel(title, &rs);
        let key = title.to_lowercase();
        assert_eq!(entry.attr("v-on:click"), Some(format!("changeContent('{}')", key).as_str()));
        assert_eq!(panel.attr("id"), Some(format!("{}-data", key).as_str()));
    }
}

#[test]
fn index_starts_with_the_summary_and_ends_with_the_project_link() {
    let nodes = resources(&[true]);
    let machines = resources(&[]);
    let index = build_nav_index(&vec![
        Category { title: "Nodes", resources: &nodes },
        Category { title: "Machines", resources: &machines },
    ]);
    assert_eq!(index.attr("class"), Some("list-group"));
    let entries = kids(&index);
    assert_eq!(entries.len(), 4);
    assert_eq!(label(&entries[0]), "Summary");
    assert_eq!(entries[0].attr("v-on:click"), Some("changeContent('summary')"));
    assert_eq!(badge_of(&entries[0]), None);
    assert_eq!(label(&entries[1]), "Nodes");
    assert_eq!(badge_of(&entries[1]), Some("1".to_string()));
    assert_eq!(label(&entries[2]), "Machines");
    assert_eq!(badge_of(&entries[2]), None);
    assert_eq!(entries[3].attr("target"), Some("_blank"));
    assert_eq!(name_of(&kids(&entries[3])[0]), "img");
}

#[test]
fn index_keeps_the_order_of_the_categories() {
    let none = resources(&[]);
    let index = build_nav_index(&vec![
        Category { title: "Zeta", resources: &none },
        Category { title: "Alpha", resources: &none },
        Category { title: "Mid", resources: &none },
    ]);
    let labels: Vec<&str> = kids(&index)[1..4].iter().map(label).collect();
    assert_eq!(labels, vec!["Zeta", "Alpha", "Mid"]);
}

#[test]
fn index_without_categories_has_its_two_fixed_entries() {
    let index = build_nav_index(&Vec::new());
    assert_eq!(kids(&index).len(), 2);
    assert_eq!(label(&kids(&index)[0]), "Summary");
    assert_eq!(kids(&index)[1].attr("target"), Some("_blank"));
}

#[test]
fn project_link_holds_an_image() {
    let link = build_project_link();
    assert_eq!(name_of(&link), "a");
    let image = &kids(&link)[0];
    assert!(matches!(image, MarkupNode::Void { .. }));
    assert_eq!(image.attr("alt"), Some("GitHub logo"));
}

#[test]
fn a_title_with_markup_characters_is_escaped_in_the_label() {
    let entry = build_nav_entry("A&B", "a&b", 0);
    assert!(serialize(&entry).unwrap().contains("\nA&amp;B</a>"));
}
