use vstd::prelude::*;

use handlebars::{
    Context, Handlebars, Helper, HelperResult, JsonRender, Output as HbOutput, RenderContext,
    RenderErrorReason,
};

use crate::error::MdmgError;

verus! {

/// The body of a named template, immutable once loaded.
#[derive(Debug, Default, PartialEq)]
pub struct Template {
    body: String,
}

/// The render context: the single `identify` value that parameterises a
/// template.
#[derive(Debug, Default)]
pub struct MdmgCtx {
    pub identify: String,
}

impl View for Template {
    type V = Seq<char>;

    closed spec fn view(&self) -> Seq<char> {
        self.body@
    }
}

impl Template {
    pub fn new(body: &str) -> (r: Self)
        ensures
            r@ == body@,
    {
        Template { body: String::from_str(body) }
    }

    /// The template's body text.
    pub fn body(&self) -> (r: &str)
        ensures
            r@ == self@,
    {
        self.body.as_str()
    }
}

impl MdmgCtx {
    pub fn new(identify: &str) -> (r: Self)
        ensures
            r.identify@ == identify@,
    {
        MdmgCtx { identify: String::from_str(identify) }
    }
}

/// The environment pairs as sequences of characters.
pub open spec fn env_view(env: Seq<(String, String)>) -> Seq<(Seq<char>, Seq<char>)> {
    env.map_values(|p: (String, String)| (p.0@, p.1@))
}

/// The value of the first pair whose key equals `name`, if any.
pub open spec fn env_lookup_spec(entries: Seq<(Seq<char>, Seq<char>)>, name: Seq<char>) -> Option<
    Seq<char>,
>
    decreases entries.len(),
{
    if entries.len() == 0 {
        Option::None
    } else if entries[0].0 == name {
        Option::Some(entries[0].1)
    } else {
        env_lookup_spec(entries.skip(1), name)
    }
}

/// Looks `name` up in an environment snapshot, first match wins.
pub fn env_lookup(env: &Vec<(String, String)>, name: &str) -> (r: Option<String>)
    ensures
        match r {
            Option::Some(v) => env_lookup_spec(env_view(env@), name@) == Option::Some(v@),
            Option::None => env_lookup_spec(env_view(env@), name@) is None,
        },
{
    let ghost entries = env_view(env@);
    let name_string = String::from_str(name);
    let mut i: usize = 0;
    proof {
        assert(entries.skip(0) =~= entries);
    }
    while i < env.len()
        invariant
            i <= env@.len(),
            entries == env_view(env@),
            entries.len() == env@.len(),
            name_string@ == name@,
            env_lookup_spec(entries, name@) == env_lookup_spec(entries.skip(i as int), name@),
        decreases env@.len() - i,
    {
        proof {
            assert(entries.skip(i as int)[0] == entries[i as int]);
            assert(entries.skip(i as int).skip(1) =~= entries.skip(i + 1));
        }
        if env[i].0 == name_string {
            let value = env[i].1.clone();
            return Some(value);
        }
        i = i + 1;
    }
    proof {
        assert(entries.skip(env@.len() as int) =~= Seq::<(Seq<char>, Seq<char>)>::empty());
    }
    None
}

/// Declares handlebars's registry type, so that the wrappers below can pass
/// one around; its inside stays opaque.
#[verifier::external_type_specification]
#[verifier::external_body]
pub struct ExHandlebars<'a>(Handlebars<'a>);

/// Relies on handlebars::Handlebars::new: a fresh registry with no templates
/// registered.
#[verifier::external_body]
fn hb_new() -> Handlebars<'static> {
    Handlebars::new()
}

/// Relies on handlebars::Handlebars::register_helper: makes `pascal_case`
/// available to templates; the helper converts its first parameter with
/// `Inflector::to_pascal_case` through this library's own wrapper.
#[verifier::external_body]
fn hb_register_pascal_case(hb: &mut Handlebars<'static>) {
    hb.register_helper(
        "pascal_case",
        Box::new(
            |h: &Helper, _: &Handlebars, _: &Context, _: &mut RenderContext, out: &mut dyn HbOutput| -> HelperResult {
                let target = h.param(0).ok_or_else(
                    || RenderErrorReason::Other("Param 0 is required for pascal_case_decorator.".to_string()),
                )?.value().render();
                out.write(crate::case::to_pascal_case(&target).as_str())?;
                Ok(())
            },
        ),
    );
}

/// Relies on handlebars::Handlebars::register_helper: makes `camel_case`
/// available to templates; the helper converts its first parameter with
/// `Inflector::to_camel_case` through this library's own wrapper.
#[verifier::external_body]
fn hb_register_camel_case(hb: &mut Handlebars<'static>) {
    hb.register_helper(
        "camel_case",
        Box::new(
            |h: &Helper, _: &Handlebars, _: &Context, _: &mut RenderContext, out: &mut dyn HbOutput| -> HelperResult {
                let target = h.param(0).ok_or_else(
                    || RenderErrorReason::Other("Param 0 is required for camel_case_decorator.".to_string()),
                )?.value().render();
                out.write(crate::case::to_camel_case(&target).as_str())?;
                Ok(())
            },
        ),
    );
}

/// Relies on handlebars::Handlebars::register_helper: makes `kebab_case`
/// available to templates; the helper converts its first parameter with
/// `Inflector::to_kebab_case` through this library's own wrapper.
#[verifier::external_body]
fn hb_register_kebab_case(hb: &mut Handlebars<'static>) {
    hb.register_helper(
        "kebab_case",
        Box::new(
            |h: &Helper, _: &Handlebars, _: &Context, _: &mut RenderContext, out: &mut dyn HbOutput| -> HelperResult {
                let target = h.param(0).ok_or_else(
                    || RenderErrorReason::Other("Param 0 is required for kebab_case_decorator.".to_string()),
                )?.value().render();
                out.write(crate::case::to_kebab_case(&target).as_str())?;
                Ok(())
            },
        ),
    );
}

/// Relies on handlebars::Handlebars::register_helper: makes `snake_case`
/// available to templates; the helper converts its first parameter with
/// `Inflector::to_snake_case` through this library's own wrapper.
#[verifier::external_body]
fn hb_register_snake_case(hb: &mut Handlebars<'static>) {
    hb.register_helper(
        "snake_case",
        Box::new(
            |h: &Helper, _: &Handlebars, _: &Context, _: &mut RenderContext, out: &mut dyn HbOutput| -> HelperResult {
                let target = h.param(0).ok_or_else(
                    || RenderErrorReason::Other("Param 0 is required for snake_case_decorator.".to_string()),
                )?.value().render();
                out.write(crate::case::to_snake_case(&target).as_str())?;
                Ok(())
            },
        ),
    );
}

/// Relies on handlebars::Handlebars::register_helper: makes `env` available to
/// templates; the helper resolves its first parameter in the given environment
/// snapshot through this library's `env_lookup`, and fails the render when the
/// variable is absent.
#[verifier::external_body]
fn hb_register_env(hb: &mut Handlebars<'static>, env: &Vec<(String, String)>) {
    let env = env.clone();
    hb.register_helper(
        "env",
        Box::new(move |h: &Helper, _: &Handlebars, _: &Context, _: &mut RenderContext, out: &mut dyn HbOutput| -> HelperResult {
            let target = h.param(0).ok_or_else(|| RenderErrorReason::Other("Param 0 is required for env_decorator.".to_string()))?.value().render();
            match crate::template::env_lookup(&env, target.as_str()) {
                Some(value) => { out.write(value.as_str())?; Ok(()) },
                None => Err(RenderErrorReason::Other(format!("env({}) is not defined.", target)).into()),
            }
        }),
    );
}

/// Relies on handlebars::Handlebars::render_template: expands the template
/// body with `identify` bound in the data context; a template error is
/// reported with handlebars's own description as the reason.
#[verifier::external_body]
fn hb_render_template(hb: &Handlebars<'static>, template_body: &str, identify: &str) -> (r:
    Result<String, MdmgError>)
    ensures
        r matches Err(e) ==> e matches MdmgError::TempalteRenderError { reason: _ },
{
    let mut data = std::collections::BTreeMap::new();
    data.insert("identify", identify);
    hb.render_template(template_body, &data).map_err(
        |e| MdmgError::TempalteRenderError { reason: e.to_string() },
    )
}

/// The outcome of expanding a template body with handlebars, with the casing
/// and environment helpers registered, `identify` bound in the data context
/// and environment lookups answered from the given snapshot: the rendered
/// text, or the description of the failure when the template syntax is
/// invalid, a helper misses its parameter, or a required environment variable
/// is absent from the snapshot.  The outcome is a function of these three
/// arguments alone.
pub uninterp spec fn rendered_of(
    body: Seq<char>,
    identify: Seq<char>,
    env: Seq<(Seq<char>, Seq<char>)>,
) -> Result<Seq<char>, Seq<char>>;

/// Relies on handlebars::Handlebars::render_template, on a registry that the
/// wrappers above configure the same way on every call: the outcome depends
/// on the template body, the identify value and the environment snapshot
/// alone, and a failure is reported with handlebars's own description.
#[verifier::external_body]
fn hb_render(template_body: &str, identify: &str, env: &Vec<(String, String)>) -> (r: Result<
    String,
    MdmgError,
>)
    ensures
        r is Ok <==> rendered_of(template_body@, identify@, env_view(env@)) is Ok,
        r matches Ok(out) ==> out@ == rendered_of(
            template_body@,
            identify@,
            env_view(env@),
        )->Ok_0,
        r matches Err(e) ==> (e matches MdmgError::TempalteRenderError { reason } && reason@
            == rendered_of(template_body@, identify@, env_view(env@))->Err_0),
{
    let mut hb = hb_new();
    hb_register_pascal_case(&mut hb);
    hb_register_camel_case(&mut hb);
    hb_register_kebab_case(&mut hb);
    hb_register_snake_case(&mut hb);
    hb_register_env(&mut hb, env);
    hb_render_template(&hb, template_body, identify)
}

/// Expands a template body with the `identify` context and the casing and
/// environment helpers: the result is exactly the rendered outcome of the
/// body, the identify value and the environment snapshot, and a failure is a
/// `TempalteRenderError` carrying the renderer's reason.
pub fn render(template: Template, ctx: &MdmgCtx, env: &Vec<(String, String)>) -> (r: Result<
    String,
    MdmgError,
>)
    ensures
        r is Ok <==> rendered_of(template@, ctx.identify@, env_view(env@)) is Ok,
        r matches Ok(out) ==> out@ == rendered_of(template@, ctx.identify@, env_view(env@))->Ok_0,
        r matches Err(e) ==> (e matches MdmgError::TempalteRenderError { reason } && reason@
            == rendered_of(template@, ctx.identify@, env_view(env@))->Err_0),
{
    hb_render(template.body(), ctx.identify.as_str(), env)
}

} // verus!
