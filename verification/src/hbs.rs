use vstd::prelude::*;

verus! {

#[verifier::external_type_specification]
#[verifier::external_body]
pub struct ExHandlebars<'reg>(handlebars::Handlebars<'reg>);

#[verifier::external_type_specification]
#[verifier::external_body]
pub struct ExTemplateError(handlebars::TemplateError);

#[verifier::external_type_specification]
#[verifier::external_body]
pub struct ExRenderError(handlebars::RenderError);

/// What the registry holds: a map from template name to the template
/// source it was registered from.
pub uninterp spec fn template_sources(h: handlebars::Handlebars<'static>) -> Map<
    Seq<char>,
    Seq<char>,
>;

/// Whether the template engine accepts a template source: registration
/// parses the source, and acceptance depends on the source text alone.
pub uninterp spec fn template_compiles(src: Seq<char>) -> bool;

/// The outcome of rendering a named template against a context that
/// binds one key to an ordered list of strings: `None` when the engine
/// reports an error, `Some` of the output text otherwise. For a
/// registry filled from strings the outcome depends on these arguments
/// alone.
pub uninterp spec fn rendered(
    templates: Map<Seq<char>, Seq<char>>,
    name: Seq<char>,
    key: Seq<char>,
    items: Seq<Seq<char>>,
) -> Option<Seq<char>>;

/// A registry with no templates at all.
pub open spec fn no_templates() -> Map<Seq<char>, Seq<char>> {
    Map::empty()
}

/// Relies on handlebars::Handlebars::new: a fresh registry holds no
/// templates (it registers only built-in helpers).
#[verifier::external_body]
pub(crate) fn hbs_new() -> (r: handlebars::Handlebars<'static>)
    ensures
        template_sources(r) == no_templates(),
{
    handlebars::Handlebars::new()
}

/// Relies on handlebars::Handlebars::register_template_string: it
/// compiles the source, stores the template under the name on success
/// (overwriting any previous template of that name), and leaves the
/// registry unchanged on failure; whether the source compiles depends
/// on the source text alone.
#[verifier::external_body]
pub(crate) fn hbs_register_string(
    h: &mut handlebars::Handlebars<'static>,
    name: &str,
    src: &str,
) -> (r: Result<(), handlebars::TemplateError>)
    ensures
        r is Ok <==> template_compiles(src@),
        r is Ok ==> template_sources(*final(h)) == template_sources(*old(h)).insert(name@, src@),
        r is Err ==> template_sources(*final(h)) == template_sources(*old(h)),
{
    h.register_template_string(name, src)
}

/// Relies on handlebars::Handlebars::has_template: it reports whether a
/// template of that name is registered.
#[verifier::external_body]
pub(crate) fn hbs_has_template(h: &handlebars::Handlebars<'static>, name: &str) -> (r: bool)
    ensures
        r == template_sources(*h).contains_key(name@),
{
    h.has_template(name)
}

/// Relies on handlebars::Handlebars::render, handed a context built
/// with serde_json that binds `key` to the list `items`: the outcome is
/// a function of the registered template sources, the name and the
/// context, and a name with no registered template is reported as an
/// error.
#[verifier::external_body]
pub(crate) fn hbs_render_list(
    h: &handlebars::Handlebars<'static>,
    name: &str,
    key: &str,
    items: &Vec<String>,
) -> (r: Result<String, handlebars::RenderError>)
    ensures
        r is Ok <==> rendered(template_sources(*h), name@, key@, items.deep_view()) is Some,
        r matches Ok(out) ==> Some(out@) == rendered(
            template_sources(*h),
            name@,
            key@,
            items.deep_view(),
        ),
        !template_sources(*h).contains_key(name@) ==> r is Err,
{
    let values: Vec<serde_json::Value> =
        items.iter().map(|s| serde_json::Value::String(s.clone())).collect();
    let mut data = serde_json::Map::new();
    data.insert(key.to_string(), serde_json::Value::Array(values));
    h.render(name, &serde_json::Value::Object(data))
}

} // verus!
