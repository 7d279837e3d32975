use vstd::prelude::*;

use crate::hbs;
use crate::renderer::Renderer;
use crate::response::HttpResponse;
use crate::response::ResponseView;
use crate::routes::Route;
use crate::routes::dispatch;
use crate::routes::route_of;

verus! {

/// The body served for the about page, for every request method.
pub open spec fn about_body() -> Seq<char> {
    "This is Mary Yang's research study project."@
}

/// The body served for every path outside the recognized set. The
/// status stays at 200 with it, not 404 — a deliberate quirk of this
/// site, so it is part of the contract rather than silently corrected.
pub open spec fn not_found_body() -> Seq<char> {
    "404: page not found"@
}

/// The body served when the home template fails to render: the failure
/// becomes an explicit server-error response instead of tearing down
/// the request's task.
pub open spec fn render_error_body() -> Seq<char> {
    "500: internal server error"@
}

/// The fixed, ordered contents of the home page's render context.
pub open spec fn genre_names() -> Seq<Seq<char>> {
    seq!["rock"@, "blues"@, "metal"@]
}

/// The outcome the template engine gives for the home page: the "home"
/// template rendered with "genres" bound to the fixed genre list.
pub open spec fn home_body(templates: Map<Seq<char>, Seq<char>>) -> Option<Seq<char>> {
    hbs::rendered(templates, "home"@, "genres"@, genre_names())
}

/// The home page's response: the rendered body with status 200, or the
/// server-error response when rendering fails.
pub open spec fn home_response(templates: Map<Seq<char>, Seq<char>>) -> ResponseView {
    match home_body(templates) {
        Some(body) => ResponseView { status: 200, body },
        None => ResponseView { status: 500, body: render_error_body() },
    }
}

/// The response for a given registry state and request path: the one
/// handler picked by the path alone.
pub open spec fn response_of(templates: Map<Seq<char>, Seq<char>>, path: Seq<char>) -> ResponseView {
    match route_of(path) {
        Route::Home => home_response(templates),
        Route::About => ResponseView { status: 200, body: about_body() },
        Route::NotFound => ResponseView { status: 200, body: not_found_body() },
    }
}

/// Handler for "/about": a fixed body, no inputs consulted, no failure.
pub fn about_page() -> (resp: HttpResponse)
    ensures
        resp@.status == 200,
        resp@.body == about_body(),
{
    HttpResponse { status: 200, body: "This is Mary Yang's research study project.".to_owned() }
}

/// Handler for every unrecognized path: a fixed body with status 200.
pub fn not_found() -> (resp: HttpResponse)
    ensures
        resp@.status == 200,
        resp@.body == not_found_body(),
{
    HttpResponse { status: 200, body: "404: page not found".to_owned() }
}

/// The hardened answer to a failure the handlers cannot recover from:
/// a fixed server-error body under status 500.
pub fn server_error() -> (resp: HttpResponse)
    ensures
        resp@.status == 500,
        resp@.body == render_error_body(),
{
    HttpResponse { status: 500, body: "500: internal server error".to_owned() }
}

/// Handler for "/": renders the "home" template with the fixed genre
/// list "rock", "blues", "metal". A render failure is converted into a
/// server-error response rather than propagated, so one broken render
/// never takes the server down.
pub fn home_page(renderer: &Renderer) -> (resp: HttpResponse)
    ensures
        resp@ == home_response(renderer.templates()),
{
    let mut items: Vec<String> = Vec::new();
    items.push("rock".to_owned());
    items.push("blues".to_owned());
    items.push("metal".to_owned());
    proof {
        assert(items.deep_view() =~= genre_names());
    }
    match renderer.render_list("home", "genres", &items) {
        Ok(body) => HttpResponse { status: 200, body },
        Err(_) => server_error(),
    }
}

/// Dispatches a request to exactly one handler by its path alone —
/// method, headers and body play no part — and returns that handler's
/// response.
pub fn router(renderer: &Renderer, path: &str) -> (resp: HttpResponse)
    ensures
        resp@ == response_of(renderer.templates(), path@),
{
    match dispatch(path) {
        Route::Home => home_page(renderer),
        Route::About => about_page(),
        Route::NotFound => not_found(),
    }
}

/// For every path outside the recognized set the response body is
/// exactly the not-found text, whatever the registry holds, and the
/// status stays at 200, the site's deliberate quirk.
pub proof fn lemma_unmatched_path_not_found(
    templates: Map<Seq<char>, Seq<char>>,
    path: Seq<char>,
)
    requires
        path != "/"@,
        path != "/about"@,
    ensures
        response_of(templates, path).body == not_found_body(),
        response_of(templates, path).status == 200,
{
}

/// The about route's response is the fixed about text with status 200,
/// whatever the registry holds; the router never reads the request
/// method, so this holds for every method alike.
pub proof fn lemma_about_response(templates: Map<Seq<char>, Seq<char>>)
    ensures
        response_of(templates, "/about"@) == (ResponseView { status: 200, body: about_body() }),
{
    reveal_strlit("/");
    reveal_strlit("/about");
    assert("/"@.len() == 1);
    assert("/about"@.len() == 6);
    assert("/about"@ != "/"@);
}

/// The home route's response is exactly the home handler's: the
/// rendered body with status 200 when the engine succeeds, the fixed
/// server-error response otherwise.
pub proof fn lemma_home_route(templates: Map<Seq<char>, Seq<char>>)
    ensures
        response_of(templates, "/"@) == home_response(templates),
{
}

/// Repeated requests against an unchanged registry are byte-identical:
/// the response is a function of the registry contents and the path
/// alone, so two responses to the same path agree exactly.
pub proof fn lemma_repeat_request_identical(
    templates: Map<Seq<char>, Seq<char>>,
    path: Seq<char>,
    first: ResponseView,
    second: ResponseView,
)
    requires
        first == response_of(templates, path),
        second == response_of(templates, path),
    ensures
        first.body == second.body,
        first.status == second.status,
{
}

} // verus!
