use vstd::prelude::*;

use crate::hbs;

verus! {

/// Which of the three site templates failed to load, reported in the
/// order they are registered.
#[derive(Clone, Copy, Debug, PartialEq, Eq)]
pub enum TemplateFault {
    Home,
    Styles,
    Navbar,
}

/// A render call failed inside the template engine.
#[derive(Clone, Copy, Debug, PartialEq, Eq)]
pub struct RenderFault;

/// The template renderer: owns the compiled template registry, shared
/// read-only across all request handlers for the life of the process.
pub struct Renderer {
    hbs: handlebars::Handlebars<'static>,
}

impl Renderer {
    /// The registry's contents: template name to the source it was
    /// registered from.
    pub closed spec fn templates(&self) -> Map<Seq<char>, Seq<char>> {
        hbs::template_sources(self.hbs)
    }

    /// Whether a template of the given name is registered.
    pub fn contains_template(&self, name: &str) -> (r: bool)
        ensures
            r == self.templates().contains_key(name@),
    {
        hbs::hbs_has_template(&self.hbs, name)
    }

    /// Renders the named template against a context that binds `key` to
    /// the ordered list `items`. The outcome is a function of the
    /// registry contents and the arguments alone; a name with no
    /// registered template always fails.
    pub fn render_list(&self, name: &str, key: &str, items: &Vec<String>) -> (r: Result<
        String,
        RenderFault,
    >)
        ensures
            r is Ok <==> hbs::rendered(self.templates(), name@, key@, items.deep_view()) is Some,
            r matches Ok(out) ==> Some(out@) == hbs::rendered(
                self.templates(),
                name@,
                key@,
                items.deep_view(),
            ),
            !self.templates().contains_key(name@) ==> r is Err,
    {
        match hbs::hbs_render_list(&self.hbs, name, key, items) {
            Ok(out) => Ok(out),
            Err(_) => Err(RenderFault),
        }
    }
}

/// The registry contents after a successful start: exactly the three
/// site templates, each under its name.
pub open spec fn full_registry(
    home_src: Seq<char>,
    styles_src: Seq<char>,
    navbar_src: Seq<char>,
) -> Map<Seq<char>, Seq<char>> {
    Map::<Seq<char>, Seq<char>>::empty().insert("home"@, home_src).insert(
        "styles"@,
        styles_src,
    ).insert("navbar"@, navbar_src)
}

/// Every template a handler references exists in the registry after a
/// successful start: in particular "home", the one template the home
/// handler renders, is present with exactly the source handed in.
pub proof fn lemma_startup_registry_serves_home(
    home_src: Seq<char>,
    styles_src: Seq<char>,
    navbar_src: Seq<char>,
)
    ensures
        full_registry(home_src, styles_src, navbar_src).contains_key("home"@),
        full_registry(home_src, styles_src, navbar_src)["home"@] == home_src,
{
    reveal_strlit("home");
    reveal_strlit("styles");
    reveal_strlit("navbar");
    assert("home"@.len() == 4);
    assert("styles"@.len() == 6);
    assert("navbar"@.len() == 6);
}

/// Builds the renderer for the site, registering its three templates —
/// "home", "styles", "navbar", in that order — from the sources handed
/// in. It fails fast on the first template the engine rejects, so no
/// partial registry ever escapes: the caller must refuse to serve on
/// an error.
pub fn handlebars(home_src: &str, styles_src: &str, navbar_src: &str) -> (r: Result<
    Renderer,
    TemplateFault,
>)
    ensures
        r is Ok <==> hbs::template_compiles(home_src@) && hbs::template_compiles(styles_src@)
            && hbs::template_compiles(navbar_src@),
        r matches Ok(rend) ==> rend.templates() == full_registry(
            home_src@,
            styles_src@,
            navbar_src@,
        ),
        !hbs::template_compiles(home_src@) ==> r == Err::<Renderer, TemplateFault>(
            TemplateFault::Home,
        ),
        hbs::template_compiles(home_src@) && !hbs::template_compiles(styles_src@) ==> r
            == Err::<Renderer, TemplateFault>(TemplateFault::Styles),
        hbs::template_compiles(home_src@) && hbs::template_compiles(styles_src@)
            && !hbs::template_compiles(navbar_src@) ==> r == Err::<Renderer, TemplateFault>(
            TemplateFault::Navbar,
        ),
{
    let mut reg = hbs::hbs_new();
    match hbs::hbs_register_string(&mut reg, "home", home_src) {
        Ok(_) => {},
        Err(_) => {
            return Err(TemplateFault::Home);
        },
    }
    match hbs::hbs_register_string(&mut reg, "styles", styles_src) {
        Ok(_) => {},
        Err(_) => {
            return Err(TemplateFault::Styles);
        },
    }
    match hbs::hbs_register_string(&mut reg, "navbar", navbar_src) {
        Ok(_) => {},
        Err(_) => {
            return Err(TemplateFault::Navbar);
        },
    }
    Ok(Renderer { hbs: reg })
}

} // verus!
