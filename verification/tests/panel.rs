use camgi::markup::MarkupNode;
use camgi::model::Resource;
use camgi::panel::{
    build_accordion_item, build_detail_block, build_keyed_resource_panel, build_resource_panel,
    build_toggle,
};
use camgi::serialize::serialize;

fn kids(node: &MarkupNode) -> &Vec<MarkupNode> {
    match node {
        MarkupNode::Element { children, .. } => children,
        _ => panic!("not an element"),
    }
}

fn tag_of(node: &MarkupNode) -> &str {
    match node {
        MarkupNode::Element { tag, .. } => tag.as_str(),
        MarkupNode::Void { tag, .. } => tag.as_str(),
        _ => panic!("not an element"),
    }
}

fn text_of(node: &MarkupNode) -> &str {
    match node {
        MarkupNode::Text(s) => s.as_str(),
        _ => panic!("not a text"),
    }
}

/// The text between the tags of the `pre` element of a written detail block.
fn pre_content(markup: &str) -> &str {
    let start = markup.find("<pre>\n").unwrap() + "<pre>\n".len();
    let end = markup.rfind("</pre>\n").unwrap();
    &markup[start..end]
}

#[test]
fn panel_has_a_heading_and_an_accordion() {
    let rs = vec![Resource::new("worker-0", "worker-0", false, "kind: Node")];
    let panel = build_resource_panel("Nodes", &rs);
    assert_eq!(tag_of(&panel), "data");
    assert_eq!(panel.attr("id"), Some("nodes-data"));
    let parts = kids(&panel);
    assert_eq!(parts.len(), 2);
    assert_eq!(tag_of(&parts[0]), "h1");
    assert_eq!(text_of(&kids(&parts[0])[0]), "Nodes");
    assert_eq!(parts[1].attr("class"), Some("accordion"));
    assert_eq!(parts[1].attr("id"), Some("nodes-accordion"));
    assert_eq!(kids(&parts[1]).len(), 1);
}

#[test]
fn panel_of_no_resources_has_an_empty_accordion() {
    let panel = build_resource_panel("MachineSets", &Vec::new());
    assert_eq!(panel.attr("id"), Some("machinesets-data"));
    assert_eq!(kids(&kids(&panel)[1]).len(), 0);
}

#[test]
fn items_keep_the_order_of_the_resources() {
    let rs = vec![
        Resource::new("c", "s-c", false, ""),
        Resource::new("a", "s-a", true, ""),
        Resource::new("b", "s-b", false, ""),
    ];
    let panel = build_resource_panel("Machines", &rs);
    let names: Vec<&str> = kids(&kids(&panel)[1])
        .iter()
        .map(|item| text_of(&kids(&kids(&kids(item)[0])[0])[0]))
        .collect();
    assert_eq!(names, vec!["c", "a", "b"]);
}

#[test]
fn keyed_panel_uses_the_key_it_is_given() {
    let rs = vec![Resource::new("n", "n", false, "")];
    let panel = build_keyed_resource_panel("Nodes", "the-key", &rs);
    assert_eq!(panel.attr("id"), Some("the-key-data"));
    assert_eq!(kids(&panel)[1].attr("id"), Some("the-key-accordion"));
    let body = &kids(&kids(&kids(&panel)[1])[0])[1];
    assert_eq!(body.attr("data-bs-parents"), Some("the-key-accordion"));
}

#[test]
fn toggle_of_a_flagged_resource_stands_out() {
    let flagged = build_toggle(&Resource::new("n1", "n1", true, ""));
    let fine = build_toggle(&Resource::new("n2", "n2", false, ""));
    assert_eq!(
        flagged.attr("class"),
        Some("accordion-button collapsed p-2 bg-danger text-white")
    );
    assert_eq!(fine.attr("class"), Some("accordion-button collapsed p-2"));
}

#[test]
fn toggle_is_labelled_with_the_name_and_wired_by_the_safename() {
    let toggle = build_toggle(&Resource::new("Worker #1", "worker-1", false, ""));
    assert_eq!(tag_of(&toggle), "button");
    assert_eq!(text_of(&kids(&toggle)[0]), "Worker #1");
    assert_eq!(toggle.attr("data-bs-target"), Some("#collapse-worker-1"));
    assert_eq!(toggle.attr("aria-controls"), Some("collapse-worker-1"));
    assert_eq!(toggle.attr("aria-expanded"), Some("false"));
    assert_eq!(toggle.attr("type"), Some("button"));
}

#[test]
fn item_links_heading_and_body() {
    let item = build_accordion_item("nodes", &Resource::new("n", "safe-n", false, "raw text"));
    assert_eq!(item.attr("class"), Some("accordion-item"));
    let heading = &kids(&item)[0];
    let body = &kids(&item)[1];
    assert_eq!(tag_of(heading), "h2");
    assert_eq!(heading.attr("id"), Some("heading-safe-n"));
    assert_eq!(body.attr("id"), Some("collapse-safe-n"));
    assert_eq!(body.attr("aria-labelledby"), Some("heading-safe-n"));
    assert_eq!(body.attr("class"), Some("accordion-collapse collapse"));
    let block = &kids(body)[0];
    assert_eq!(block.attr("class"), Some("accordion-body fs-6"));
    let pre = &kids(block)[0];
    assert_eq!(tag_of(pre), "pre");
    assert_eq!(text_of(&kids(pre)[0]), "raw text");
}

#[test]
fn items_of_different_resources_have_different_identifiers() {
    let rs = vec![
        Resource::new("same name", "same-name-1", false, ""),
        Resource::new("same name", "same-name-2", false, ""),
    ];
    let panel = build_resource_panel("Nodes", &rs);
    let items = kids(&kids(&panel)[1]);
    assert_ne!(kids(&items[0])[0].attr("id"), kids(&items[1])[0].attr("id"));
    assert_ne!(kids(&items[0])[1].attr("id"), kids(&items[1])[1].attr("id"));
}

#[test]
fn detail_is_kept_verbatim_in_the_tree() {
    let raw = "line 1\n  line 2 <tag> & more\n";
    let block = build_detail_block(raw);
    assert_eq!(text_of(&kids(&kids(&block)[0])[0]), raw);
}

#[test]
fn detail_with_markup_is_escaped_when_written() {
    let block = build_detail_block("<script>alert(1 && 2)</script>");
    let markup = serialize(&block).unwrap();
    assert_eq!(
        markup,
        "<div class=\"accordion-body fs-6\">\n<pre>\n\
         &lt;script&gt;alert(1 &amp;&amp; 2)&lt;/script&gt;</pre>\n</div>\n"
    );
}

#[test]
fn escaped_detail_is_read_back_unchanged() {
    let raws = [
        "<b>bold</b> & <i>italic</i>",
        "a < b > c && d",
        "&amp; is already an entity, &lt; too",
        "no markup at all",
        "",
        "tabs\tand\nnewlines\r\n",
        "unicode: é ü ✓ <ñ>",
        "&&&&<<<<>>>>",
        "&#x27; &quot; \" '",
    ];
    for raw in raws {
        let markup = serialize(&build_detail_block(raw)).unwrap();
        let content = pre_content(&markup);
        assert!(!content.contains('<'));
        assert!(!content.contains('>'));
        assert_eq!(html_escape::decode_html_entities(content), raw);
    }
}

#[test]
fn name_with_markup_is_escaped_when_written() {
    let toggle = build_toggle(&Resource::new("<node>", "node", false, ""));
    assert!(serialize(&toggle).unwrap().ends_with(">\n&lt;node&gt;</button>\n"));
}
