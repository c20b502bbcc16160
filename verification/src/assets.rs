//! The two fixed texts that every report carries inside itself.

use vstd::prelude::*;

verus! {

/// The style block of the page. The panels are kept out of sight: the page's
/// script copies the chosen one into the content column.
pub const INDEX_STYLE: &'static str =
    "data {\n  display: none;\n}\n\n#main-content {\n  height: 97vh;\n}\n\n#main-content pre {\n  white-space: pre-wrap;\n}\n";

/// The script of the page. `changeContent` takes the key of a panel and
/// shows the panel with the identifier `<key>-data` in the content column.
/// The summary is shown first.
pub const INDEX_SCRIPT: &'static str =
    "var app = new Vue({\n  el: '#app',\n  data: {\n    content: ''\n  },\n  methods: {\n    changeContent: function (key) {\n      var panel = document.getElementById(key + '-data')\n      if (panel !== null) {\n        this.content = panel.innerHTML\n      }\n    }\n  },\n  mounted: function () {\n    this.changeContent('summary')\n  }\n})\n";

} // verus!
