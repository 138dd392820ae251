//! The RapiDoc page: an HTML page that loads the RapiDoc viewer on a
//! document.

use vstd::prelude::*;
use crate::text::{replace_first, replace_first_in};

verus! {

/// The page, with a placeholder in double braces where each setting goes.
pub const TEMPLATE: &'static str = r###"
<!DOCTYPE html>
<html>
  <head>
    <meta charset="utf-8" />
    <meta name="viewport" content="width=device-width, initial-scale=1.0" />
    <meta name="description" content="{{description}}" />
    <title>{{title}}</title>
    <script type="module" src="{{js_url}}"></script>
  </head>
  <body>
    <rapi-doc spec-url="{{spec_url}}"> </rapi-doc>
  </body>
</html>
"###;

/// The settings of a RapiDoc page.
#[derive(Clone, Debug)]
pub struct RapiDoc {
    description: String,
    title: String,
    js_url: String,
    spec_url: String,
}

/// The mathematical value of a `RapiDoc`.
pub ghost struct RapiDocView {
    pub description: Seq<char>,
    pub title: Seq<char>,
    pub js_url: Seq<char>,
    pub spec_url: Seq<char>,
}

impl View for RapiDoc {
    type V = RapiDocView;

    closed spec fn view(&self) -> RapiDocView {
        RapiDocView {
            description: self.description@,
            title: self.title@,
            js_url: self.js_url@,
            spec_url: self.spec_url@,
        }
    }
}

/// The page for the given settings: the template with the first occurrence
/// of each placeholder replaced by its setting, one placeholder after the
/// other: the description, the title, the script and the document.
pub open spec fn page(settings: RapiDocView) -> Seq<char> {
    let described = replace_first(TEMPLATE@, "{{description}}"@, settings.description);
    let titled = replace_first(described, "{{title}}"@, settings.title);
    let scripted = replace_first(titled, "{{js_url}}"@, settings.js_url);
    replace_first(scripted, "{{spec_url}}"@, settings.spec_url)
}

impl RapiDoc {
    /// The settings of a page on the document at `spec_url`, titled and
    /// described as `RapiDoc`, with the viewer's script from unpkg.
    pub fn new(spec_url: &str) -> (r: RapiDoc)
        ensures
            r@ == (RapiDocView {
                description: "RapiDoc"@,
                title: "RapiDoc"@,
                js_url: "https://unpkg.com/rapidoc/dist/rapidoc-min.js"@,
                spec_url: spec_url@,
            }),
    {
        RapiDoc {
            description: "RapiDoc".to_owned(),
            title: "RapiDoc".to_owned(),
            js_url: "https://unpkg.com/rapidoc/dist/rapidoc-min.js".to_owned(),
            spec_url: spec_url.to_owned(),
        }
    }

    /// The page as HTML.
    pub fn as_html(&self) -> (r: String)
        ensures
            r@ == page(self@),
    {
        let described = replace_first_in(TEMPLATE, "{{description}}", self.description.as_str());
        let titled = replace_first_in(described.as_str(), "{{title}}", self.title.as_str());
        let scripted = replace_first_in(titled.as_str(), "{{js_url}}", self.js_url.as_str());
        replace_first_in(scripted.as_str(), "{{spec_url}}", self.spec_url.as_str())
    }
}

} // verus!
