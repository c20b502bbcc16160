//! The snapshot of a cluster that a report is rendered from.

use vstd::prelude::*;

verus! {

/// A cluster object as the report shows it.
#[derive(Clone, Debug, PartialEq, Eq)]
pub struct Resource {
    /// The display name; two resources may share one.
    pub name: String,
    /// A token derived from the name that is safe inside an identifier and
    /// belongs to this resource alone within one report.
    pub safename: String,
    /// Whether the resource is in a state that the report flags.
    pub is_error: bool,
    /// The full detail text, shown verbatim.
    pub raw: String,
}

/// The model of a [`Resource`].
pub struct ResourceView {
    pub name: Seq<char>,
    pub safename: Seq<char>,
    pub is_error: bool,
    pub raw: Seq<char>,
}

impl View for Resource {
    type V = ResourceView;

    open spec fn view(&self) -> ResourceView {
        ResourceView {
            name: self.name@,
            safename: self.safename@,
            is_error: self.is_error,
            raw: self.raw@,
        }
    }
}

impl DeepView for Resource {
    type V = ResourceView;

    open spec fn deep_view(&self) -> ResourceView {
        self@
    }
}

impl Resource {
    /// A resource with the given name, token, state and detail.
    pub fn new(name: &str, safename: &str, is_error: bool, raw: &str) -> (r: Resource)
        ensures
            r@ == (ResourceView { name: name@, safename: safename@, is_error, raw: raw@ }),
    {
        Resource {
            name: name.to_owned(),
            safename: safename.to_owned(),
            is_error,
            raw: raw.to_owned(),
        }
    }

    /// The display name.
    pub fn name(&self) -> (s: &str)
        ensures
            s@ == self@.name,
    {
        self.name.as_str()
    }

    /// The token that names the resource inside identifiers.
    pub fn safename(&self) -> (s: &str)
        ensures
            s@ == self@.safename,
    {
        self.safename.as_str()
    }

    /// Whether the resource is flagged.
    pub fn is_error(&self) -> (flagged: bool)
        ensures
            flagged == self@.is_error,
    {
        self.is_error
    }

    /// The detail text.
    pub fn raw(&self) -> (s: &str)
        ensures
            s@ == self@.raw,
    {
        self.raw.as_str()
    }
}

/// A named group of resources of one kind.
#[derive(Clone, Copy, Debug)]
pub struct Category<'a> {
    pub title: &'a str,
    pub resources: &'a Vec<Resource>,
}

/// The model of a [`Category`].
pub struct CategoryView {
    pub title: Seq<char>,
    pub resources: Seq<ResourceView>,
}

impl<'a> View for Category<'a> {
    type V = CategoryView;

    open spec fn view(&self) -> CategoryView {
        CategoryView { title: self.title@, resources: self.resources.deep_view() }
    }
}

impl<'a> DeepView for Category<'a> {
    type V = CategoryView;

    open spec fn deep_view(&self) -> CategoryView {
        self@
    }
}

/// Everything a report is rendered from. Rendering reads it and changes
/// nothing in it.
#[derive(Clone, Debug, PartialEq, Eq)]
pub struct ReportModel {
    pub title: String,
    pub cluster_version: String,
    pub nodes: Vec<Resource>,
    pub machines: Vec<Resource>,
    pub machinesets: Vec<Resource>,
}

/// The model of a [`ReportModel`].
pub struct ReportModelView {
    pub title: Seq<char>,
    pub cluster_version: Seq<char>,
    pub nodes: Seq<ResourceView>,
    pub machines: Seq<ResourceView>,
    pub machinesets: Seq<ResourceView>,
}

impl View for ReportModel {
    type V = ReportModelView;

    open spec fn view(&self) -> ReportModelView {
        ReportModelView {
            title: self.title@,
            cluster_version: self.cluster_version@,
            nodes: self.nodes.deep_view(),
            machines: self.machines.deep_view(),
            machinesets: self.machinesets.deep_view(),
        }
    }
}

/// The resources that are flagged, in their order.
pub open spec fn errors(resources: Seq<ResourceView>) -> Seq<ResourceView> {
    resources.filter(|r: ResourceView| r.is_error)
}

/// How many resources are flagged.
pub open spec fn error_count(resources: Seq<ResourceView>) -> nat {
    errors(resources).len()
}

/// The names of the resources that are flagged, in their order.
pub open spec fn error_names(resources: Seq<ResourceView>) -> Seq<Seq<char>> {
    errors(resources).map_values(|r: ResourceView| r.name)
}

/// Counts the resources that are flagged.
pub fn count_errors(resources: &Vec<Resource>) -> (n: usize)
    ensures
        n == error_count(resources.deep_view()),
{
    let ghost all = resources.deep_view();
    let mut n: usize = 0;
    let mut i: usize = 0;
    while i < resources.len()
        invariant
            i <= resources.len(),
            all == resources.deep_view(),
            n == error_count(all.take(i as int)),
            n <= i,
        decreases resources.len() - i,
    {
        proof {
            reveal(Seq::filter);
            assert(all.take(i as int + 1).drop_last() =~= all.take(i as int));
        }
        if resources[i].is_error {
            n = n + 1;
        }
        i = i + 1;
    }
    assert(all.take(i as int) =~= all);
    n
}

/// Collects the names of the resources that are flagged, in their order.
pub fn collect_error_names<'a>(resources: &'a Vec<Resource>) -> (names: Vec<&'a str>)
    ensures
        names.deep_view() == error_names(resources.deep_view()),
{
    let ghost all = resources.deep_view();
    let mut names: Vec<&'a str> = Vec::new();
    let mut i: usize = 0;
    assert(names.deep_view() =~= error_names(all.take(0))) by {
        reveal(Seq::filter);
    }
    while i < resources.len()
        invariant
            i <= resources.len(),
            all == resources.deep_view(),
            names.deep_view() == error_names(all.take(i as int)),
        decreases resources.len() - i,
    {
        let ghost before = names.deep_view();
        if resources[i].is_error {
            names.push(resources[i].name.as_str());
        }
        proof {
            reveal(Seq::filter);
            assert(all.take(i as int + 1).drop_last() =~= all.take(i as int));
            if resources[i as int].is_error {
                assert(names.deep_view() =~= before.push(resources[i as int].name@));
            }
        }
        i = i + 1;
    }
    assert(all.take(i as int) =~= all);
    names
}

} // verus!
