//! The handlers: what the site answers for every request.
//!
//! The caller owning the sockets and the file system routes a request first;
//! for an asset route it reads the file's bytes and hands them in, and the
//! index template resource is handed in as loaded at startup.  Everything
//! decided here is stated in the contracts.

use vstd::prelude::*;

use crate::response::HttpResponse;
use crate::response::asset_response;
use crate::response::content_type_of;
use crate::response::hello_response;
use crate::response::html_type;
use crate::response::not_found_response;
use crate::response::plain_type;
use crate::router::Route;
use crate::router::RouteModel;
use crate::router::RouterConfig;
use crate::router::route;
use crate::router::route_model;
use crate::template::TemplateError;
use crate::template::render_template;
use crate::template::spec_render;
use crate::template::tag_opens_at;
use crate::template::lemma_rendered_page_contains_value;
use crate::text::append_bytes;
use crate::text::ascii_bytes;
use crate::text::contains_seq;
use crate::text::lemma_prefix_starts_with;
use crate::text::literal_bytes;
use crate::text::starts_with;

verus! {

/// The value substituted for `name` on the index page.
pub open spec fn world_text() -> Seq<u8> {
    ascii_bytes("world"@)
}

/// The page view context: a display name, and a counter that no current
/// template reads.
#[derive(Debug)]
pub struct PageContext {
    /// The display name substituted into the index template.
    pub name: Vec<u8>,
    /// An extra numeric field; always zero today.
    pub counter: u64,
}

impl PageContext {
    /// A fresh per-request context: the fixed name and a zero counter.
    pub fn new() -> (c: PageContext)
        ensures
            c.name@ == world_text(),
            c.counter == 0,
    {
        proof {
            reveal_strlit("world");
        }
        PageContext { name: literal_bytes("world"), counter: 0 }
    }
}

/// The prefix of every render-failure body.
pub open spec fn render_error_prefix() -> Seq<u8> {
    ascii_bytes("Failed to render template. Error: "@)
}

/// The description a render error shows in a failure body.
pub open spec fn error_text(e: TemplateError) -> Seq<u8> {
    match e {
        TemplateError::Missing => ascii_bytes("the template resource is missing"@),
        TemplateError::UnclosedTag => ascii_bytes("a tag is not closed"@),
        TemplateError::UnknownField => ascii_bytes("a tag names an unknown field"@),
    }
}

impl TemplateError {
    /// The error's description, as it appears in a failure body.
    pub fn describe(&self) -> (r: Vec<u8>)
        ensures
            r@ == error_text(*self),
    {
        proof {
            reveal_strlit("the template resource is missing");
            reveal_strlit("a tag is not closed");
            reveal_strlit("a tag names an unknown field");
        }
        match self {
            TemplateError::Missing => literal_bytes("the template resource is missing"),
            TemplateError::UnclosedTag => literal_bytes("a tag is not closed"),
            TemplateError::UnknownField => literal_bytes("a tag names an unknown field"),
        }
    }
}

/// The failure answer of the index page: 500 with a diagnostic body.
fn render_failure_response(e: TemplateError) -> (r: HttpResponse)
    ensures
        r.status == 500,
        r.content_type@ == plain_type(),
        r.body@ == render_error_prefix() + error_text(e),
{
    proof {
        reveal_strlit("Failed to render template. Error: ");
        reveal_strlit("text/plain; charset=utf-8");
    }
    let mut body = literal_bytes("Failed to render template. Error: ");
    let detail = e.describe();
    append_bytes(&mut body, &detail);
    HttpResponse {
        status: 500,
        content_type: literal_bytes("text/plain; charset=utf-8"),
        body,
    }
}

/// Renders the index page for `ctx`: 200 with the rendered HTML, or 500
/// with a diagnostic body when the template resource is absent or malformed.
pub fn index_response(ctx: &PageContext, template: Option<&Vec<u8>>) -> (r: HttpResponse)
    ensures
        template matches Some(t) ==> (spec_render(t@, ctx.name@) matches Ok(o) ==> r.status == 200
            && r.content_type@ == html_type() && r.body@ == o),
        template matches Some(t) ==> (spec_render(t@, ctx.name@) matches Err(e) ==> r.status == 500
            && r.content_type@ == plain_type() && r.body@ == render_error_prefix()
            + error_text(e)),
        template is None ==> r.status == 500 && r.content_type@ == plain_type() && r.body@
            == render_error_prefix() + error_text(TemplateError::Missing),
        r.status == 200 || r.status == 500,
        r.status == 500 ==> starts_with(r.body@, render_error_prefix()),
{
    proof {
        reveal_strlit("text/html; charset=utf-8");
    }
    let r = match template {
        None => render_failure_response(TemplateError::Missing),
        Some(t) => match render_template(t, &ctx.name) {
            Ok(html) => HttpResponse {
                status: 200,
                content_type: literal_bytes("text/html; charset=utf-8"),
                body: html,
            },
            Err(e) => render_failure_response(e),
        },
    };
    proof {
        if r.status == 500 {
            lemma_prefix_starts_with(render_error_prefix(), error_text(TemplateError::Missing));
            lemma_prefix_starts_with(render_error_prefix(), error_text(TemplateError::UnclosedTag));
            lemma_prefix_starts_with(
                render_error_prefix(),
                error_text(TemplateError::UnknownField),
            );
        }
    }
    r
}

/// Answers one request end to end, as the routing table directs.
///
/// `template` is the index template resource, as loaded at startup; for a
/// request the router sends to an asset, `file` is that file's content, or
/// `None` when there is no such file.
pub fn handle(
    config: &RouterConfig,
    method: &Vec<u8>,
    path: &Vec<u8>,
    template: Option<&Vec<u8>>,
    file: Option<Vec<u8>>,
) -> (r: HttpResponse)
    ensures
        ({
            let m = route_model(config.mount@, config.api_hello, method@, path@);
            &&& m is Index ==> (template matches Some(t) ==> (spec_render(t@, world_text())
                matches Ok(o) ==> r.status == 200 && r.content_type@ == html_type() && r.body@
                == o))
            &&& m is Index ==> (template matches Some(t) ==> (spec_render(t@, world_text())
                matches Err(e) ==> r.status == 500 && r.body@ == render_error_prefix()
                + error_text(e)))
            &&& m is Index && template is None ==> r.status == 500 && r.body@
                == render_error_prefix() + error_text(TemplateError::Missing)
            &&& m is Index && r.status == 500 ==> starts_with(r.body@, render_error_prefix())
            &&& m is Index ==> (template matches Some(t) ==> (spec_render(t@, world_text()) is Ok
                && (exists|j: int| #[trigger] tag_opens_at(t@, j)) ==> r.status == 200
                && contains_seq(r.body@, world_text())))
            &&& m is ApiHello ==> r.status == 200 && r.content_type@ == plain_type() && r.body@
                == ascii_bytes("Hello!"@)
            &&& m matches RouteModel::Asset { rel } ==> ((file matches Some(bytes) ==> r.status
                == 200 && r.body@ == bytes@ && r.content_type@ == content_type_of(rel)) && (
            file is None ==> r.status == 404 && r.body@.len() == 0))
            &&& m is NotFound ==> r.status == 404 && r.body@.len() == 0
            &&& !(m is Index) ==> r.status != 500
        }),
{
    let decision = route(config, method, path);
    match decision {
        Route::Index => {
            let ctx = PageContext::new();
            let r = index_response(&ctx, template);
            proof {
                if template is Some {
                    let t = template->Some_0;
                    if spec_render(t@, world_text()) is Ok && (exists|j: int|
                        #[trigger] tag_opens_at(t@, j)) {
                        lemma_rendered_page_contains_value(t@, world_text());
                    }
                }
            }
            r
        },
        Route::ApiHello => hello_response(),
        Route::Asset { rel } => asset_response(&rel, file),
        Route::NotFound => not_found_response(),
    }
}

} // verus!
