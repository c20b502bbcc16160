//! A rendered report.

use vstd::prelude::*;
use crate::markup::{Markup, MarkupNode};
use crate::model::{ReportModel, ReportModelView};
use crate::page::{assemble, document_markup};
use crate::serialize::{markup_text, serialize, RenderError};

verus! {

/// A report that has been assembled and written out: the document, and the
/// text that it is handed out as.
pub struct Html {
    doc: MarkupNode,
    text: String,
}

impl Html {
    #[verifier::type_invariant]
    spec fn text_is_of_document(&self) -> bool {
        self.text@ == markup_text(self.doc@)
    }

    /// The document of the report.
    pub closed spec fn document(&self) -> Markup {
        self.doc@
    }

    /// The text of the report.
    pub closed spec fn text(&self) -> Seq<char> {
        self.text@
    }

    /// Whether `self` is the report of `model`: its document is the one
    /// assembled from the model, and its text is that document written out.
    pub open spec fn renders(&self, model: ReportModelView) -> bool {
        &&& self.document() == document_markup(model)
        &&& self.text() == markup_text(document_markup(model))
    }

    /// Renders the report of `model`.
    ///
    /// The document is assembled from the model and written out at once.
    /// A write that is refused would end the rendering with the error and
    /// nothing else; the text is collected in memory, so every model is
    /// rendered.
    pub fn from(model: ReportModel) -> (r: Result<Html, RenderError>)
        ensures
            r is Ok,
            r matches Ok(html) ==> html.renders(model@) && html.document().well_formed(),
    {
        let doc = assemble(&model);
        match serialize(&doc) {
            Ok(text) => Ok(Html { doc, text }),
            Err(e) => Err(e),
        }
    }

    /// Hands out the text of the report.
    pub fn render(self) -> (s: String)
        ensures
            s@ == self.text(),
            s@ == markup_text(self.document()),
    {
        proof {
            use_type_invariant(&self);
        }
        self.text
    }

    /// The document that the text was written from.
    pub fn tree(&self) -> (doc: &MarkupNode)
        ensures
            doc@ == self.document(),
    {
        &self.doc
    }
}

/// Rendering is a function of the model: two reports of one model have the
/// same text, character for character.
pub proof fn lemma_render_is_deterministic(a: Html, b: Html, model: ReportModelView)
    requires
        a.renders(model),
        b.renders(model),
    ensures
        a.text() == b.text(),
        a.document() == b.document(),
{
}

} // verus!
