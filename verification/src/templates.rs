//! The template set: the names the service renders by, the fixed template
//! sources, and the trusted calls into the `handlebars` engine. The registry
//! is built once, before serving, and read-only afterwards.
use vstd::prelude::*;
use vstd::map::*;

verus! {

/// The templates this service renders.
pub enum TemplateName {
    Base,
    Home,
    Error,
    NewPost,
    PostList,
}

impl TemplateName {
    /// The registry key of this template.
    pub open spec fn name_spec(&self) -> Seq<char> {
        match self {
            TemplateName::Base => "base"@,
            TemplateName::Home => "home"@,
            TemplateName::Error => "error"@,
            TemplateName::NewPost => "new_post"@,
            TemplateName::PostList => "post_list"@,
        }
    }

    /// The registry key of this template.
    pub fn name(&self) -> (r: &'static str)
        ensures
            r@ == self.name_spec(),
    {
        match self {
            TemplateName::Base => "base",
            TemplateName::Home => "home",
            TemplateName::Error => "error",
            TemplateName::NewPost => "new_post",
            TemplateName::PostList => "post_list",
        }
    }
}

#[verifier::external_type_specification]
#[verifier::external_body]
pub struct ExHandlebars<'a>(handlebars::Handlebars<'a>);

/// The engine's registry type, with the one lifetime this crate uses.
pub type Engine = handlebars::Handlebars<'static>;

/// A name for the templates a `handlebars::Handlebars` registry holds:
/// template name to template source, as `register_template_string` filled
/// them in.
pub uninterp spec fn registered(h: Engine) -> Map<Seq<char>, Seq<char>>;

/// A name for what `handlebars::Handlebars::render` produces: the rendered
/// text, or nothing when rendering fails (an unregistered name, an error
/// raised during rendering). For a registry built by `Handlebars::new` with
/// its default settings, a function of the registered templates, the
/// template name and the string-to-string data alone.
pub uninterp spec fn hb_render_of(
    templates: Map<Seq<char>, Seq<char>>,
    name: Seq<char>,
    ctx: Seq<(Seq<char>, Seq<char>)>,
) -> Option<Seq<char>>;

/// The key-value pairs of a flat string context, as mathematical values.
pub open spec fn ctx_view(s: Seq<(String, String)>) -> Seq<(Seq<char>, Seq<char>)> {
    Seq::new(s.len(), |i: int| (s[i].0@, s[i].1@))
}

/// A template map with nothing registered.
pub open spec fn empty_templates() -> Map<Seq<char>, Seq<char>> {
    Map::empty()
}

/// Relies on `handlebars::Handlebars::new`: a registry holding no templates,
/// with the engine's default settings.
#[verifier::external_body]
fn hb_new() -> (h: Engine)
    ensures
        registered(h) == empty_templates(),
{
    handlebars::Handlebars::new()
}

/// A name for whether `Handlebars::register_template_string` accepts a
/// template source: registration succeeds exactly when the source compiles,
/// and for a registry built by `Handlebars::new` with its default settings
/// that is a function of the source text alone.
pub uninterp spec fn hb_compiles(src: Seq<char>) -> bool;

/// Relies on `Handlebars::register_template_string`: exactly when the source
/// compiles it is registered under the name; on a syntax error nothing is
/// registered and the registry is unchanged.
#[verifier::external_body]
fn hb_register(h: &mut Engine, name: &str, src: &str) -> (r: bool)
    ensures
        r == hb_compiles(src@),
        r ==> registered(*final(h)) == registered(*old(h)).insert(name@, src@),
        !r ==> registered(*final(h)) == registered(*old(h)),
{
    h.register_template_string(name, src).is_ok()
}

/// Relies on `Handlebars::render`: renders the named template with a flat
/// string-to-string context, or fails.
#[verifier::external_body]
fn hb_render(h: &Engine, name: &str, ctx: &Vec<(String, String)>) -> (r: Option<String>)
    ensures
        match r {
            Option::Some(s) => hb_render_of(registered(*h), name@, ctx_view(ctx@)) == Some(s@),
            Option::None => hb_render_of(registered(*h), name@, ctx_view(ctx@)) is None,
        },
{
    let data: std::collections::BTreeMap<String, String> = ctx.iter().cloned().collect();
    h.render(name, &data).ok()
}

pub const BASE_SRC: &'static str = "<!DOCTYPE html><html><head><title>quiet.</title></head><body>{{{content}}}</body></html>";

pub const HOME_SRC: &'static str = "<!DOCTYPE html><html><head><title>{{title}}</title></head><body><h1>{{title}}</h1><ul>{{{posts}}}</ul></body></html>";

pub const ERROR_SRC: &'static str = "<!DOCTYPE html><html><head><title>{{title}}</title></head><body><h1>{{http_error}}</h1><p>{{error_message}}</p></body></html>";

pub const NEW_POST_SRC: &'static str = "<!DOCTYPE html><html><head><title>{{title}}</title></head><body><form method=\"post\" action=\"/post\"><textarea name=\"text\"></textarea><input type=\"submit\" value=\"post\"></form></body></html>";

pub const POST_LIST_SRC: &'static str = "<li class=\"post\">{{text}} {{link}}</li>";

/// The templates the registry holds once built: the five fixed sources of
/// this service under their names.
pub open spec fn template_map() -> Map<Seq<char>, Seq<char>> {
    map![
        "base"@ => BASE_SRC@,
        "home"@ => HOME_SRC@,
        "error"@ => ERROR_SRC@,
        "new_post"@ => NEW_POST_SRC@,
        "post_list"@ => POST_LIST_SRC@,
    ]
}

/// The compiled template set, built once at startup and shared read-only by
/// every request. The engine is private: every registry in the program is
/// built by `build_registry`, with the engine's default settings.
pub struct Registry {
    hb: Engine,
}

impl Registry {
    /// The templates this registry holds.
    pub closed spec fn map(&self) -> Map<Seq<char>, Seq<char>> {
        registered(self.hb)
    }

    /// Render a registered template with a flat string-to-string context.
    pub fn render(&self, name: &str, ctx: &Vec<(String, String)>) -> (r: Option<String>)
        ensures
            match r {
                Option::Some(s) => hb_render_of(self.map(), name@, ctx_view(ctx@)) == Some(s@),
                Option::None => hb_render_of(self.map(), name@, ctx_view(ctx@)) is None,
            },
    {
        hb_render(&self.hb, name, ctx)
    }
}

/// Compile the service's five templates into a registry: it succeeds exactly
/// when every one of the five fixed sources compiles, and then holds exactly
/// those templates under their names. The sources do compile, so at run time
/// this does not fail; nothing downstream relies on that.
pub fn build_registry() -> (r: Option<Registry>)
    ensures
        (r is Some) <==> (hb_compiles(BASE_SRC@) && hb_compiles(HOME_SRC@) && hb_compiles(
            ERROR_SRC@,
        ) && hb_compiles(NEW_POST_SRC@) && hb_compiles(POST_LIST_SRC@)),
        r matches Some(reg) ==> reg.map() == template_map(),
{
    let mut hb = hb_new();
    if !hb_register(&mut hb, TemplateName::Base.name(), BASE_SRC) {
        return None;
    }
    if !hb_register(&mut hb, TemplateName::Home.name(), HOME_SRC) {
        return None;
    }
    if !hb_register(&mut hb, TemplateName::Error.name(), ERROR_SRC) {
        return None;
    }
    if !hb_register(&mut hb, TemplateName::NewPost.name(), NEW_POST_SRC) {
        return None;
    }
    if !hb_register(&mut hb, TemplateName::PostList.name(), POST_LIST_SRC) {
        return None;
    }
    proof {
        assert(registered(hb) =~= template_map());
    }
    Some(Registry { hb })
}

} // verus!
