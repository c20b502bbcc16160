//! Renders a snapshot of a cluster as one self-contained page: a navigation
//! index, a summary, and one panel per kind of resource, with a script that
//! switches between the panels without loading anything.
//!
//! The [`page`] module assembles the document as a tree of [`markup`] nodes
//! from a [`model`]; [`serialize`] writes a tree out as text; [`html`] holds
//! both steps behind one type. Each builder states which tree it builds, and
//! the serializer states which text it writes.

pub mod assets;
pub mod badge;
pub mod escape;
pub mod html;
pub mod keys;
pub mod markup;
pub mod model;
pub mod nav;
pub mod page;
pub mod panel;
pub mod serialize;
pub mod summary;
pub mod table;
pub mod text;
pub mod writer;
