//! The template engine: double-brace placeholders filled from a context.

use vstd::prelude::*;
use vstd::string::*;
use crate::context::{ContextMap, ContextValue, RenderContext};
use crate::error::Error;

verus! {

/// `handlebars::RenderError`, the engine's error, carried through as it is.
#[verifier::external_type_specification]
#[verifier::external_body]
pub struct ExRenderError(handlebars::RenderError);

/// The text that the engine renders `template` to with the variables
/// `values`, wherever it renders it; `None` where it never does. The engine
/// is in strict mode: it does not render a template that refers to a
/// variable that `values` does not have.
pub uninterp spec fn rendered(template: Seq<char>, values: ContextMap) -> Option<Seq<char>>;

/// Whether two opening braces stand side by side somewhere in `t`. Every
/// placeholder, block, comment and escape of the engine needs such a pair.
pub open spec fn has_tag_opener(t: Seq<char>) -> bool {
    exists|i: int| 0 <= i < t.len() - 1 && #[trigger] t[i] == '{' && t[i + 1] == '{'
}

/// Calls `handlebars::Handlebars::render_template` on a fresh registry in
/// strict mode, with the context as a JSON object: a text as a JSON string,
/// the marker for "no value" as JSON null.
///
/// Trusted: the text of a rendering that succeeds depends on the template
/// and on the map of the context alone. Whether a template with tags is
/// rendered does not: the engine's parser gives up on nested tags where the
/// thread has little stack left. A template without two adjacent opening
/// braces is plain text to the engine's grammar and comes back unchanged.
///
/// Set aside, as running out of memory is: a call made with less than
/// 64 KiB of stack left, or in a process that has set the parser's limit of
/// calls. There the engine may refuse plain text too.
#[verifier::external_body]
pub(crate) fn render_template(
    template: &str,
    context: &RenderContext,
) -> (r: Result<String, handlebars::RenderError>)
    ensures
        r matches Ok(s) ==> rendered(template@, context@) == Some(s@),
        r is Err ==> has_tag_opener(template@),
        r matches Ok(s) ==> s@ == template@ || has_tag_opener(template@),
{
    let mut data = serde_json::Map::new();
    for e in context.entries.iter() {
        data.insert(e.key.clone(), match &e.value {
            ContextValue::Text(s) => serde_json::Value::String(s.clone()),
            ContextValue::Missing => serde_json::Value::Null,
        });
    }
    let mut engine = handlebars::Handlebars::new();
    engine.set_strict_mode(true);
    engine.render_template(template, &serde_json::Value::Object(data))
}

/// The render error that names `template`, with the reason that is given.
pub fn render_error(template: &str, reason: String) -> (r: Error)
    ensures
        r matches Error::Render { template: t, reason: text } && t@ == template@ && text@
            == reason@,
{
    Error::Render { template: String::from_str(template), reason }
}

/// Renders `template` with the variables of `context`.
///
/// The text of a rendering that succeeds is the engine's. A template without
/// two adjacent opening braces always renders, and to itself. Any other
/// template may be refused: for malformed syntax, for a variable that the
/// context does not have, or because the engine's parser ran out of room.
/// A refusal is a `Render` error that names the template.
///
/// A variable that holds the marker for "no value" renders as nothing. What
/// a placeholder in two braces stands for is escaped for markup; one in
/// three braces is not.
pub fn render(template: &str, context: &RenderContext) -> (r: Result<String, Error>)
    ensures
        r matches Ok(s) ==> rendered(template@, context@) == Some(s@),
        r matches Err(e) ==> (e matches Error::Render { template: t, .. } && t@ == template@
            && has_tag_opener(template@)),
        !has_tag_opener(template@) ==> (r matches Ok(s) && s@ == template@),
{
    match render_template(template, context) {
        Ok(text) => Ok(text),
        Err(e) => Err(render_error(template, e.to_string())),
    }
}

} // verus!
