//! The page responder: one route, one template, one context entry.
//!
//! The template set is loaded once at startup (outside this library, since
//! loading reads the file system) and handed in already built. Each request
//! renders the template `"index.html"` with the context `"name"` -> `"ben"`
//! and maps the outcome to a response.

use vstd::prelude::*;
use vstd::string::StringExecFns;

verus! {

/// A declaration of tera's template-set type, so that a loaded set can
/// stand in fields and signatures. Its values are opaque here.
#[verifier::external_type_specification]
#[verifier::external_body]
pub struct ExTera(tera::Tera);

/// A declaration of tera's error type, so that a render outcome can carry
/// it. Its values are opaque here; the responder never inspects them.
#[verifier::external_type_specification]
#[verifier::external_body]
pub struct ExTeraError(tera::Error);

/// The render context: the key/value data passed into a render call.
/// The page responder only ever passes a single entry.
pub struct RenderContext {
    pub key: String,
    pub value: String,
}

/// Builds the per-request context: the key `"name"` mapped to `"ben"`.
pub fn index_context() -> (c: RenderContext)
    ensures
        c.key@ == "name"@,
        c.value@ == "ben"@,
{
    let mut key = String::new();
    key.append("name");
    let mut value = String::new();
    value.append("ben");
    proof {
        assert(key@ =~= "name"@);
        assert(value@ =~= "ben"@);
    }
    RenderContext { key, value }
}

/// One HTTP response of the page responder: a status code, an optional
/// content type, and a body.
pub struct PageResponse {
    pub status: u16,
    pub content_type: Option<String>,
    pub body: String,
}

impl PageResponse {
    /// The success shape: status 200, content type `text/html`, and the
    /// given body, byte for byte.
    pub open spec fn is_ok_html(self, body: Seq<char>) -> bool {
        &&& self.status == 200u16
        &&& self.content_type matches Some(c) && c@ == "text/html"@
        &&& self.body@ == body
    }

    /// The failure shape: status 501, no content type, an empty body.
    pub open spec fn is_not_implemented(self) -> bool {
        &&& self.status == 501u16
        &&& self.content_type is None
        &&& self.body@ == Seq::<char>::empty()
    }

    /// Every response the responder can produce: a full success page or
    /// the fixed failure response.
    pub open spec fn is_page_outcome(self) -> bool {
        self.is_ok_html(self.body@) || self.is_not_implemented()
    }
}

/// The success response for rendered markup: 200, `text/html`, the markup
/// unchanged.
pub fn ok_html(markup: String) -> (r: PageResponse)
    ensures
        r.is_ok_html(markup@),
{
    let mut content_type = String::new();
    content_type.append("text/html");
    proof {
        assert(content_type@ =~= "text/html"@);
    }
    PageResponse { status: 200, content_type: Some(content_type), body: markup }
}

/// The failure response: 501, no content type, an empty body.
pub fn not_implemented() -> (r: PageResponse)
    ensures
        r.is_not_implemented(),
{
    PageResponse { status: 501, content_type: None, body: String::new() }
}

/// Maps a render outcome to the response: success gives the full page,
/// and every failure, whatever its cause, gives the same 501 response.
pub fn response_for(outcome: Result<String, tera::Error>) -> (r: PageResponse)
    ensures
        outcome matches Ok(markup) ==> r.is_ok_html(markup@),
        outcome is Err ==> r.is_not_implemented(),
{
    match outcome {
        Ok(markup) => ok_html(markup),
        Err(_) => not_implemented(),
    }
}

/// Relies on tera::Context::new, tera::Context::insert and
/// tera::Tera::render: renders the named template with a context holding
/// the single given entry. The output depends on the loaded templates
/// (which may call tera's built-in functions such as `now`), so nothing is
/// promised of it.
#[verifier::external_body]
fn render_with_entry(
    templates: &tera::Tera,
    name: &str,
    context: &RenderContext,
) -> Result<String, tera::Error> {
    let mut tera_context = tera::Context::new();
    tera_context.insert(context.key.as_str(), context.value.as_str());
    templates.render(name, &tera_context)
}

/// The immutable template set, built once at startup and only read after,
/// together with the one route served over it.
pub struct TemplateSet {
    templates: tera::Tera,
}

impl TemplateSet {
    /// Wraps an already-loaded template set.
    pub fn new(templates: tera::Tera) -> (r: TemplateSet) {
        TemplateSet { templates }
    }

    /// Handles the one route: renders `"index.html"` with the context
    /// `"name"` -> `"ben"`. Success returns the rendered markup as a 200
    /// `text/html` page; any render failure returns the 501 response.
    pub fn handle_request(&self) -> (r: PageResponse)
        ensures
            r.is_page_outcome(),
    {
        let context = index_context();
        let outcome = render_with_entry(&self.templates, "index.html", &context);
        response_for(outcome)
    }
}

} // verus!
