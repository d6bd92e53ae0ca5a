//! Command templates, which are rendered by the mustache crate.

use crate::error::MirakcError;
use crate::tag::{has_no_tag, plain_template};
use crate::text::decimal;
use vstd::prelude::*;

verus! {

/// The builder of the variables of a mustache template.
#[verifier::external_type_specification]
#[verifier::external_body]
pub struct ExMapBuilder(mustache::MapBuilder);

/// The variables of a mustache template.
#[verifier::external_type_specification]
#[verifier::external_body]
pub struct ExData(mustache::Data);

/// What compiling or rendering a mustache template fails with.
#[verifier::external_type_specification]
#[verifier::external_body]
pub struct ExError(mustache::Error);

/// What encoding a variable of a mustache template fails with.
#[verifier::external_type_specification]
#[verifier::external_body]
pub struct ExEncoderError(mustache::EncoderError);

/// The texts that a builder holds, by name.
pub uninterp spec fn builder_vars(builder: mustache::MapBuilder) -> Map<Seq<char>, Seq<char>>;

/// The texts that variables hold, by name.
pub uninterp spec fn data_vars(data: mustache::Data) -> Map<Seq<char>, Seq<char>>;

/// No variables at all.
pub open spec fn no_vars() -> Map<Seq<char>, Seq<char>> {
    Map::empty()
}

/// The text that a template renders to with variables, if it is well-formed.
pub uninterp spec fn mustache_text(
    template: Seq<char>,
    vars: Map<Seq<char>, Seq<char>>,
) -> Option<Seq<char>>;

/// `MapBuilder::new`: the builder holds nothing.
#[verifier::external_body]
fn new_builder() -> (builder: mustache::MapBuilder)
    ensures
        builder_vars(builder) == no_vars(),
{
    mustache::MapBuilder::new()
}

/// `MapBuilder::insert_str`: the builder holds the text under the name, instead of what it held
/// there.
#[verifier::external_body]
fn insert_str(builder: mustache::MapBuilder, name: &str, text: &str) -> (filled:
    mustache::MapBuilder)
    ensures
        builder_vars(filled) == builder_vars(builder).insert(name@, text@),
{
    builder.insert_str(name, text)
}

/// `MapBuilder::insert` of a 64-bit number: it is encoded as its decimal notation, which never
/// fails.
#[verifier::external_body]
fn insert_number(builder: mustache::MapBuilder, name: &str, number: u64) -> (filled: Result<
    mustache::MapBuilder,
    mustache::EncoderError,
>)
    ensures
        filled matches Ok(filled) && builder_vars(filled) == builder_vars(builder).insert(
            name@,
            decimal(number as nat),
        ),
{
    builder.insert(name, &number)
}

/// `MapBuilder::build`: the variables are those that the builder holds.
#[verifier::external_body]
fn build(builder: mustache::MapBuilder) -> (data: mustache::Data)
    ensures
        data_vars(data) == builder_vars(builder),
{
    builder.build()
}

/// `compile_str` and `Template::render_data_to_string`: the text depends on the template and the
/// variables alone, since the template loads no partial, and a template without tags renders to
/// itself. They panic on a tag that writes the variables as a whole.
#[verifier::external_body]
fn render_data(template: &str, data: &mustache::Data) -> (text: Result<String, mustache::Error>)
    requires
        plain_template(template@, data_vars(*data).dom()),
    ensures
        match text {
            Ok(text) => mustache_text(template@, data_vars(*data)) == Some(text@),
            Err(_) => mustache_text(template@, data_vars(*data)) is None,
        },
        has_no_tag(template@) ==> (text matches Ok(text) && text@ == template@),
{
    mustache::compile_str(template)?.render_data_to_string(data)
}

/// The variables of a command template.
pub struct TemplateVars {
    data: mustache::Data,
}

impl View for TemplateVars {
    type V = Map<Seq<char>, Seq<char>>;

    closed spec fn view(&self) -> Map<Seq<char>, Seq<char>> {
        data_vars(self.data)
    }
}

/// Collects the variables of a command template.
pub struct TemplateVarsBuilder {
    builder: mustache::MapBuilder,
}

impl View for TemplateVarsBuilder {
    type V = Map<Seq<char>, Seq<char>>;

    closed spec fn view(&self) -> Map<Seq<char>, Seq<char>> {
        builder_vars(self.builder)
    }
}

impl TemplateVarsBuilder {
    /// No variables.
    pub fn new() -> (vars: TemplateVarsBuilder)
        ensures
            vars@ == no_vars(),
    {
        TemplateVarsBuilder { builder: new_builder() }
    }

    /// Adds a variable that holds a text.
    pub fn with_text(self, name: &str, text: &str) -> (vars: TemplateVarsBuilder)
        ensures
            vars@ == self@.insert(name@, text@),
    {
        TemplateVarsBuilder { builder: insert_str(self.builder, name, text) }
    }

    /// Adds a variable that holds a number.
    pub fn with_number(self, name: &str, number: u64) -> (vars: Result<
        TemplateVarsBuilder,
        MirakcError,
    >)
        ensures
            vars matches Ok(vars) && vars@ == self@.insert(name@, decimal(number as nat)),
    {
        match insert_number(self.builder, name, number) {
            Ok(builder) => Ok(TemplateVarsBuilder { builder }),
            Err(_) => Err(MirakcError::InvalidTemplateValue),
        }
    }

    /// Completes the variables.
    pub fn build(self) -> (vars: TemplateVars)
        ensures
            vars@ == self@,
    {
        TemplateVars { data: build(self.builder) }
    }
}

/// What a template renders to, or the error that it is not well-formed.
pub open spec fn rendered(template: Seq<char>, vars: Map<Seq<char>, Seq<char>>) -> Result<
    Seq<char>,
    MirakcError,
> {
    match mustache_text(template, vars) {
        Some(text) => Ok(text),
        None => Err(MirakcError::InvalidTemplate),
    }
}

/// Renders a template.
pub fn render(template: &str, vars: &TemplateVars) -> (text: Result<String, MirakcError>)
    requires
        plain_template(template@, vars@.dom()),
    ensures
        match rendered(template@, vars@) {
            Ok(expected) => text matches Ok(text) && text@ == expected,
            Err(error) => text == Err::<String, MirakcError>(error),
        },
        has_no_tag(template@) ==> rendered(template@, vars@) == Ok::<Seq<char>, MirakcError>(
            template@,
        ),
{
    match render_data(template, &vars.data) {
        Ok(text) => Ok(text),
        Err(_) => Err(MirakcError::InvalidTemplate),
    }
}

/// A template that mustache renders renders to that text, and one that it refuses is invalid.
pub proof fn rendering_is_that_of_mustache(
    template: Seq<char>,
    vars: Map<Seq<char>, Seq<char>>,
    text: Seq<char>,
)
    ensures
        mustache_text(template, vars) == Some(text) <==> rendered(template, vars) == Ok::<
            _,
            MirakcError,
        >(text),
        mustache_text(template, vars) is None <==> rendered(template, vars) == Err::<
            Seq<char>,
            MirakcError,
        >(MirakcError::InvalidTemplate),
        no_vars() == Map::<Seq<char>, Seq<char>>::empty(),
{
}

} // verus!
