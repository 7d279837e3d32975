use genre_server::pages::about_page;
use genre_server::pages::home_page;
use genre_server::pages::not_found;
use genre_server::pages::router;
use genre_server::renderer::Renderer;
use genre_server::renderer::TemplateFault;
use genre_server::renderer::handlebars;
use genre_server::routes::Route;
use genre_server::routes::dispatch;

const HOME_TPL: &str = "<html><body><ul>{{#each genres}}<li>{{this}}</li>{{/each}}</ul></body></html>";
const STYLES_TPL: &str = "body { color: black; }";
const NAVBAR_TPL: &str = "<nav><a href=\"/\">home</a><a href=\"/about\">about</a></nav>";

fn site_renderer() -> Renderer {
    handlebars(HOME_TPL, STYLES_TPL, NAVBAR_TPL).unwrap()
}

#[test]
fn dispatch_recognizes_home() {
    assert_eq!(dispatch("/"), Route::Home);
}

#[test]
fn dispatch_recognizes_about() {
    assert_eq!(dispatch("/about"), Route::About);
}

#[test]
fn dispatch_defaults_to_not_found() {
    assert_eq!(dispatch(""), Route::NotFound);
    assert_eq!(dispatch("/nope"), Route::NotFound);
    assert_eq!(dispatch("/about/"), Route::NotFound);
    assert_eq!(dispatch("/About"), Route::NotFound);
    assert_eq!(dispatch("//"), Route::NotFound);
    assert_eq!(dispatch("about"), Route::NotFound);
}

#[test]
fn about_page_fixed_body() {
    let resp = about_page();
    assert_eq!(resp.status, 200);
    assert_eq!(resp.body, "This is Mary Yang's research study project.");
}

#[test]
fn not_found_fixed_body() {
    let resp = not_found();
    assert_eq!(resp.status, 200);
    assert_eq!(resp.body, "404: page not found");
}

#[test]
fn startup_registers_all_three_templates() {
    let renderer = site_renderer();
    assert!(renderer.contains_template("home"));
    assert!(renderer.contains_template("styles"));
    assert!(renderer.contains_template("navbar"));
    assert!(!renderer.contains_template("nope"));
}

#[test]
fn startup_fails_fast_on_bad_home_template() {
    let broken = "{{#each genres}}<li>{{this}}</li>";
    match handlebars(broken, STYLES_TPL, NAVBAR_TPL) {
        Err(fault) => assert_eq!(fault, TemplateFault::Home),
        Ok(_) => panic!("a broken template was accepted"),
    }
}

#[test]
fn startup_fails_fast_on_bad_styles_template() {
    let broken = "{{#if x}}no closing tag";
    match handlebars(HOME_TPL, broken, NAVBAR_TPL) {
        Err(fault) => assert_eq!(fault, TemplateFault::Styles),
        Ok(_) => panic!("a broken template was accepted"),
    }
}

#[test]
fn startup_fails_fast_on_bad_navbar_template() {
    let broken = "{{#with x}}never closed";
    match handlebars(HOME_TPL, STYLES_TPL, broken) {
        Err(fault) => assert_eq!(fault, TemplateFault::Navbar),
        Ok(_) => panic!("a broken template was accepted"),
    }
}

#[test]
fn home_renders_genres_in_order() {
    let renderer = site_renderer();
    let resp = home_page(&renderer);
    assert_eq!(resp.status, 200);
    let rock = resp.body.find("rock").expect("rock missing");
    let blues = resp.body.find("blues").expect("blues missing");
    let metal = resp.body.find("metal").expect("metal missing");
    assert!(rock < blues && blues < metal);
    assert!(!resp.body.contains("{{"));
    assert!(!resp.body.contains("}}"));
}

#[test]
fn home_render_is_real_output_not_template_source() {
    let renderer = site_renderer();
    let resp = home_page(&renderer);
    assert_ne!(resp.body, HOME_TPL);
    assert_eq!(
        resp.body,
        "<html><body><ul><li>rock</li><li>blues</li><li>metal</li></ul></body></html>"
    );
}

#[test]
fn repeated_home_requests_are_byte_identical() {
    let renderer = site_renderer();
    let first = router(&renderer, "/");
    for _ in 0..50 {
        let next = router(&renderer, "/");
        assert_eq!(next.status, 200);
        assert_eq!(next.body, first.body);
    }
}

#[test]
fn render_failure_becomes_server_error_response() {
    // The reference to a partial that was never registered compiles but
    // fails at render time; the handler must answer with a 500 response
    // instead of tearing the request down.
    let renderer = handlebars("{{> nothere}}", STYLES_TPL, NAVBAR_TPL).unwrap();
    let resp = home_page(&renderer);
    assert_eq!(resp.status, 500);
    assert_eq!(resp.body, "500: internal server error");
}

#[test]
fn render_list_unknown_template_fails() {
    let renderer = site_renderer();
    let items = vec!["rock".to_string()];
    assert!(renderer.render_list("missing", "genres", &items).is_err());
}

#[test]
fn cold_start_scenario() {
    let renderer = site_renderer();

    let home = router(&renderer, "/");
    assert_eq!(home.status, 200);
    assert!(home.body.contains("rock"));
    assert!(home.body.contains("blues"));
    assert!(home.body.contains("metal"));

    let about = router(&renderer, "/about");
    assert_eq!(about.status, 200);
    assert_eq!(about.body, "This is Mary Yang's research study project.");

    let nope = router(&renderer, "/nope");
    assert_eq!(nope.status, 200);
    assert_eq!(nope.body, "404: page not found");
}
