use vstd::prelude::*;
use handlebars::{Context, Handlebars, Helper, HelperResult, JsonRender, Output, RenderContext};

verus! {

/// What the templating engine produces for a template string rendered
/// against a JSON data context: `Ok` holds the rendered text, `Err` says
/// only that the render fails. The engine is always a fresh handlebars
/// instance configured with the `upper` and `lower` helpers, and both the
/// engine and the JSON parser are deterministic in their text inputs, so
/// whether the render succeeds, and the successful text, are functions of
/// the two strings alone. The engine's failure message is not: it can
/// depend on the order in which an argument table is walked, so no name
/// covers it.
pub uninterp spec fn rendered(tpl: Seq<char>, ctx: Seq<char>) -> Result<Seq<char>, ()>;

#[verifier::external_type_specification]
#[verifier::external_body]
pub struct ExHandlebars<'reg>(Handlebars<'reg>);

/// Build the templating engine the generator always uses. Relies on
/// handlebars::Handlebars::new, set_strict_mode and register_helper:
/// strict mode makes a direct reference to a field the document does not
/// hold a render failure (a missing field handed to a helper as an
/// argument instead reads as a missing value and renders empty), and the
/// `upper` and `lower` helpers write the uppercased or lowercased
/// rendering of their single argument in place (an omitted argument reads
/// as the empty string). The configuration is always the same, so whether
/// a render with this engine succeeds, and what a successful render
/// yields, are functions of the template and data texts alone.
#[verifier::external_body]
pub fn bars() -> Handlebars<'static> {
    let mut hb = Handlebars::new();
    hb.set_strict_mode(true);
    hb.register_helper("upper", Box::new(|h: &Helper, _: &Handlebars, _: &Context,
            _: &mut RenderContext, o: &mut dyn Output| -> HelperResult {
        Ok(o.write(&h.param(0).map(|p| p.value().render()).unwrap_or_default().to_uppercase())?)
    }));
    hb.register_helper("lower", Box::new(|h: &Helper, _: &Handlebars, _: &Context,
            _: &mut RenderContext, o: &mut dyn Output| -> HelperResult {
        Ok(o.write(&h.param(0).map(|p| p.value().render()).unwrap_or_default().to_lowercase())?)
    }));
    hb
}

/// Relies on handlebars::Handlebars::render_template, which renders a
/// template string against a `serde_json::Value` data context obtained
/// with serde_json::from_str, and reports a message identifying the
/// failure otherwise. The engine is the fixed one `bars` builds; whether
/// the call succeeds, and the successful text, depend on the two text
/// inputs alone, while the failure message may vary between calls and is
/// promised nothing.
#[verifier::external_body]
fn render_text(tpl: &str, ctx: &str) -> (r: Result<String, String>)
    ensures
        r is Ok <==> rendered(tpl@, ctx@) is Ok,
        r matches Ok(s) ==> s@ == rendered(tpl@, ctx@)->Ok_0,
{
    let hb = bars();
    let data: serde_json::Value = serde_json::from_str(ctx).map_err(|e| e.to_string())?;
    hb.render_template(tpl, &data).map_err(|e| e.to_string())
}

/// Render one template string against the JSON form of the specification
/// document, through a fresh engine carrying the `upper` and `lower`
/// helpers.
pub fn render_template(tpl: &str, ctx: &str) -> (r: Result<String, String>)
    ensures
        r is Ok <==> rendered(tpl@, ctx@) is Ok,
        r matches Ok(s) ==> s@ == rendered(tpl@, ctx@)->Ok_0,
{
    render_text(tpl, ctx)
}

} // verus!
