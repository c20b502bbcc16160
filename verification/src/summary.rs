//! The summary panel: the cluster's version, how many resources of each
//! kind there are, and which of them are flagged.

use vstd::prelude::*;
use crate::badge::{badge, build_badge, lemma_badge_well_formed};
use crate::keys::{panel_id, panel_id_of, summary_key};
use crate::markup::{attribute, element, plain, Attribute, Markup, MarkupNode};
use crate::model::{collect_error_names, error_names, ReportModel, ReportModelView};
use crate::table::{build_table, lemma_table_well_formed, table_markup};
use crate::text::{decimal, decimal_string};

verus! {

/// The title of one section of the summary.
pub open spec fn section_title(title: Seq<char>) -> Markup {
    element(
        "dt"@,
        seq![attribute("class"@, "text-light bg-secondary ps-1 mb-1"@)],
        seq![Markup::Text(title)],
    )
}

/// A count and, behind it, what was counted, as a section's title has them.
pub open spec fn count_heading(count: nat, counted: Seq<char>) -> Seq<char> {
    decimal(count) + counted
}

/// What a section says of the health of its resources. With flagged
/// resources: a sentence around a badge with their number, and their names
/// in a table of one column. Without: the one sentence `healthy`.
pub open spec fn health_report(
    flagged: Seq<Seq<char>>,
    healthy: Seq<char>,
    complaint: Seq<char>,
) -> Markup {
    plain(
        "dd"@,
        if flagged.len() > 0 {
            seq![
                Markup::Text("The following"@),
                badge("badge bg-danger"@, flagged.len()),
                Markup::Text(complaint),
                table_markup(Seq::empty(), flagged, 1),
            ]
        } else {
            seq![Markup::Text(healthy)]
        },
    )
}

/// The cluster section's content: the version in a table of one row.
pub open spec fn version_report(version: Seq<char>) -> Markup {
    plain("dd"@, seq![table_markup(Seq::empty(), seq!["OpenShift Version"@, version], 2)])
}

/// The sections of the summary, in their fixed order: cluster, nodes,
/// machines, machine sets.
pub open spec fn summary_sections(model: ReportModelView) -> Seq<Markup> {
    seq![
        section_title("Cluster"@),
        version_report(model.cluster_version),
        section_title(count_heading(model.nodes.len(), " Nodes"@)),
        health_report(
            error_names(model.nodes),
            "All nodes ready"@,
            "Nodes do not have a true Ready condition"@,
        ),
        section_title(count_heading(model.machines.len(), " Machines"@)),
        health_report(
            error_names(model.machines),
            "All Machines in Running phase"@,
            "Machines not in Running phase"@,
        ),
        section_title(count_heading(model.machinesets.len(), " MachineSets"@)),
    ]
}

/// The summary panel.
pub open spec fn summary_panel(model: ReportModelView) -> Markup {
    element(
        "data"@,
        seq![attribute("id"@, panel_id(summary_key()))],
        seq![
            plain("h1"@, seq![Markup::Text("Summary"@)]),
            Markup::Void { tag: "hr"@, attrs: Seq::empty() },
            plain("dl"@, summary_sections(model)),
        ],
    )
}

/// The summary panel sets each attribute of each of its elements once.
pub proof fn lemma_summary_panel_well_formed(model: ReportModelView)
    ensures
        summary_panel(model).well_formed(),
{
    reveal_with_fuel(Markup::well_formed, 3);
    assert forall|title: Seq<char>| (#[trigger] section_title(title)).well_formed() by {}
    assert forall|flagged: Seq<Seq<char>>, healthy: Seq<char>, complaint: Seq<char>|
        (#[trigger] health_report(flagged, healthy, complaint)).well_formed() by {
        lemma_badge_well_formed("badge bg-danger"@, flagged.len());
        lemma_table_well_formed(Seq::empty(), flagged, 1);
    }
    assert(version_report(model.cluster_version).well_formed()) by {
        lemma_table_well_formed(Seq::empty(), seq!["OpenShift Version"@, model.cluster_version], 2);
    }
}

/// Builds the title of one section of the summary.
pub fn build_section_title(title: String) -> (n: MarkupNode)
    ensures
        n@ == section_title(title@),
{
    let attrs = vec![Attribute::new("class", "text-light bg-secondary ps-1 mb-1")];
    let children = vec![MarkupNode::text_owned(title)];
    proof {
        assert(attrs.deep_view() =~= seq![attribute("class"@, "text-light bg-secondary ps-1 mb-1"@)]);
        assert(children.deep_view() =~= seq![Markup::Text(title@)]);
    }
    MarkupNode::element("dt", attrs, children)
}

/// Builds the title of a section that counts resources.
pub fn build_count_title(count: usize, counted: &str) -> (n: MarkupNode)
    ensures
        n@ == section_title(count_heading(count as nat, counted@)),
{
    build_section_title(decimal_string(count).concat(counted))
}

/// Builds what a section says of the health of its resources, from the
/// names of those that are flagged.
pub fn build_health_report(flagged: &Vec<&str>, healthy: &str, complaint: &str) -> (n: MarkupNode)
    ensures
        n@ == health_report(flagged.deep_view(), healthy@, complaint@),
{
    let children = if flagged.len() > 0 {
        let empty: Vec<&str> = Vec::new();
        let children = vec![
            MarkupNode::text("The following"),
            build_badge("badge bg-danger", flagged.len()),
            MarkupNode::text(complaint),
            build_table(&empty, flagged, 1),
        ];
        assert(children.deep_view() =~= seq![
            Markup::Text("The following"@),
            badge("badge bg-danger"@, flagged.len() as nat),
            Markup::Text(complaint@),
            table_markup(Seq::empty(), flagged.deep_view(), 1),
        ]);
        children
    } else {
        let children = vec![MarkupNode::text(healthy)];
        assert(children.deep_view() =~= seq![Markup::Text(healthy@)]);
        children
    };
    MarkupNode::plain("dd", children)
}

/// Builds the cluster section's content.
pub fn build_version_report(version: &str) -> (n: MarkupNode)
    ensures
        n@ == version_report(version@),
{
    let empty: Vec<&str> = Vec::new();
    let cells = vec!["OpenShift Version", version];
    proof {
        assert(cells.deep_view() =~= seq!["OpenShift Version"@, version@]);
    }
    let children = vec![build_table(&empty, &cells, 2)];
    assert(children.deep_view() =~= seq![
        table_markup(Seq::empty(), seq!["OpenShift Version"@, version@], 2),
    ]);
    MarkupNode::plain("dd", children)
}

/// Builds the summary panel: a heading, then the sections for the cluster,
/// the nodes, the machines and the machine sets, in this order. A section
/// on nodes or machines lists the flagged ones by name, or says that there
/// are none; the section on machine sets is its title alone.
pub fn build_summary_panel(model: &ReportModel) -> (panel: MarkupNode)
    ensures
        panel@ == summary_panel(model@),
{
    let flagged_nodes = collect_error_names(&model.nodes);
    let flagged_machines = collect_error_names(&model.machines);
    let sections = vec![
        build_section_title("Cluster".to_owned()),
        build_version_report(model.cluster_version.as_str()),
        build_count_title(model.nodes.len(), " Nodes"),
        build_health_report(
            &flagged_nodes,
            "All nodes ready",
            "Nodes do not have a true Ready condition",
        ),
        build_count_title(model.machines.len(), " Machines"),
        build_health_report(
            &flagged_machines,
            "All Machines in Running phase",
            "Machines not in Running phase",
        ),
        build_count_title(model.machinesets.len(), " MachineSets"),
    ];
    assert(sections.deep_view() =~= summary_sections(model@));
    let heading = vec![MarkupNode::text("Summary")];
    assert(heading.deep_view() =~= seq![Markup::Text("Summary"@)]);
    let no_attrs: Vec<Attribute> = Vec::new();
    assert(no_attrs.deep_view() =~= Seq::<crate::markup::AttributeView>::empty());
    let children = vec![
        MarkupNode::plain("h1", heading),
        MarkupNode::void("hr", no_attrs),
        MarkupNode::plain("dl", sections),
    ];
    assert(children.deep_view() =~= seq![
        plain("h1"@, seq![Markup::Text("Summary"@)]),
        Markup::Void { tag: "hr"@, attrs: Seq::empty() },
        plain("dl"@, summary_sections(model@)),
    ]);
    let attrs = vec![Attribute::with_value("id", panel_id_of("summary"))];
    assert(attrs.deep_view() =~= seq![attribute("id"@, panel_id(summary_key()))]);
    MarkupNode::element("data", attrs, children)
}

} // verus!
