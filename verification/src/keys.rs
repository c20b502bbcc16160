//! The keys by which the page's script finds the panel that a navigation
//! entry stands for.

use vstd::prelude::*;
use crate::writer::lowercase;

verus! {

/// The key of the category with the title `title`: the title in lower case.
pub open spec fn category_key(title: Seq<char>) -> Seq<char> {
    lowercase(title)
}

/// The key of the summary panel.
pub open spec fn summary_key() -> Seq<char> {
    "summary"@
}

/// The identifier of the panel with the key `key`.
pub open spec fn panel_id(key: Seq<char>) -> Seq<char> {
    key + "-data"@
}

/// The identifier of the accordion inside the panel with the key `key`.
pub open spec fn accordion_id(key: Seq<char>) -> Seq<char> {
    key + "-accordion"@
}

/// The action of a navigation entry that shows the panel with the key `key`.
pub open spec fn select_action(key: Seq<char>) -> Seq<char> {
    "changeContent('"@ + key + "')"@
}

/// Computes the key of the category with the title `title`.
pub fn key_of(title: &str) -> (key: String)
    ensures
        key@ == category_key(title@),
{
    title.to_lowercase()
}

/// Computes the identifier of the panel with the key `key`.
pub fn panel_id_of(key: &str) -> (id: String)
    ensures
        id@ == panel_id(key@),
{
    key.to_owned().concat("-data")
}

/// Computes the identifier of the accordion in the panel with the key `key`.
pub fn accordion_id_of(key: &str) -> (id: String)
    ensures
        id@ == accordion_id(key@),
{
    key.to_owned().concat("-accordion")
}

/// Computes the action that shows the panel with the key `key`.
pub fn select_action_of(key: &str) -> (action: String)
    ensures
        action@ == select_action(key@),
{
    "changeContent('".to_owned().concat(key).concat("')")
}

} // verus!
