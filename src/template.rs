//! Named-placeholder templates: `{name}` is replaced by the value bound to
//! `name`.
use vstd::prelude::*;

verus! {

/// One placeholder binding: the text that replaces `{name}`.
#[derive(Debug, PartialEq, Eq)]
pub struct Binding {
    pub name: String,
    pub value: String,
}

/// Why a template could not be resolved; each carries the engine's message.
#[derive(Debug, PartialEq, Eq)]
pub enum TemplateError {
    /// A placeholder names a key that has no binding.
    MissingBinding(String),
    /// The template is not well formed (an unmatched or stray brace).
    Malformed(String),
}

/// The bindings as (name, value) pairs of text.
pub open spec fn bindings_view(b: Seq<Binding>) -> Seq<(Seq<char>, Seq<char>)> {
    b.map_values(|x: Binding| (x.name@, x.value@))
}

/// Whether the text holds a brace, the only characters a template treats
/// specially.
pub open spec fn has_brace(t: Seq<char>) -> bool {
    exists|i: int| 0 <= i < t.len() && (t[i] == '{' || t[i] == '}')
}

/// What the template engine produces for a template and a list of bindings,
/// or `None` where it reports an error.
pub uninterp spec fn engine_output(
    template: Seq<char>,
    bindings: Seq<(Seq<char>, Seq<char>)>,
) -> Option<Seq<char>>;

/// Relies on `strfmt::strfmt` over a `HashMap<String, String>` built from the
/// bindings: its result depends on the template and the bindings alone, and a
/// template without braces comes back unchanged. Its `KeyError` becomes
/// `MissingBinding`, its other errors `Malformed`.
#[verifier::external_body]
fn strfmt_render(template: &str, bindings: &Vec<Binding>) -> (r: Result<String, TemplateError>)
    ensures
        r is Ok <==> engine_output(template@, bindings_view(bindings@)) is Some,
        r is Ok ==> engine_output(template@, bindings_view(bindings@)) == Some(r->Ok_0@),
        !has_brace(template@) ==> r is Ok && r->Ok_0@ == template@,
{
    let map: std::collections::HashMap<String, String> = bindings.iter().map(
        |b| (b.name.clone(), b.value.clone()),
    ).collect();
    match strfmt::strfmt(template, &map) {
        Ok(s) => Ok(s),
        Err(strfmt::FmtError::KeyError(m)) => Err(TemplateError::MissingBinding(m)),
        Err(strfmt::FmtError::Invalid(m)) => Err(TemplateError::Malformed(m)),
        Err(strfmt::FmtError::TypeError(m)) => Err(TemplateError::Malformed(m)),
    }
}

/// Resolves `template` against `bindings`. Every binding is an opaque
/// string: numbers are turned into text by the caller, so a numeric format
/// specifier in a template (`{total:.2}`) applies to that text, not to a
/// number.
pub fn render(template: &str, bindings: &Vec<Binding>) -> (r: Result<String, TemplateError>)
    ensures
        r is Ok <==> engine_output(template@, bindings_view(bindings@)) is Some,
        r is Ok ==> engine_output(template@, bindings_view(bindings@)) == Some(r->Ok_0@),
        !has_brace(template@) ==> r is Ok && r->Ok_0@ == template@,
{
    strfmt_render(template, bindings)
}

} // verus!
