//! The pipeline of commands that a stream is filtered with.

use crate::error::MirakcError;
use crate::tag::plain_template;
use crate::template::{render, rendered, TemplateVars};
use vstd::prelude::*;

verus! {

/// The characters of the commands of a pipeline.
pub open spec fn command_texts(commands: Seq<String>) -> Seq<Seq<char>> {
    commands.map_values(|command: String| command@)
}

/// The commands with that of a filter at the end, or the error that it cannot be rendered. A
/// filter that renders to nothing is left out.
pub open spec fn with_filter(
    commands: Seq<Seq<char>>,
    filter: Result<Seq<char>, MirakcError>,
) -> Result<Seq<Seq<char>>, MirakcError> {
    match filter {
        Ok(text) => Ok(
            if text.len() == 0 {
                commands
            } else {
                commands.push(text)
            },
        ),
        Err(error) => Err(error),
    }
}

/// The characters of a rendered text.
pub open spec fn rendering_view(text: Result<String, MirakcError>) -> Result<
    Seq<char>,
    MirakcError,
> {
    match text {
        Ok(text) => Ok(text@),
        Err(error) => Err(error),
    }
}

/// Adds the command of a rendered filter, unless it is empty.
pub fn append_filter(commands: &mut Vec<String>, filter: Result<String, MirakcError>) -> (result:
    Result<(), MirakcError>)
    ensures
        match with_filter(command_texts(old(commands)@), rendering_view(filter)) {
            Ok(texts) => result is Ok && command_texts(final(commands)@) == texts,
            Err(error) => result == Err::<(), MirakcError>(error) && final(commands)@ == old(
                commands,
            )@,
        },
{
    match filter {
        Ok(filter) => {
            if !filter.as_str().is_empty() {
                commands.push(filter);
                proof {
                    assert(command_texts(commands@) =~= command_texts(old(commands)@).push(
                        filter@,
                    ));
                }
            }
            Ok(())
        },
        Err(error) => Err(error),
    }
}

/// Puts a pipeline together, whose filters are all rendered with the same variables.
pub struct FilterPipelineBuilder {
    pub vars: TemplateVars,
    pub filters: Vec<String>,
}

impl FilterPipelineBuilder {
    /// A pipeline without filters.
    pub fn new(vars: TemplateVars) -> (builder: FilterPipelineBuilder)
        ensures
            builder.vars == vars,
            command_texts(builder.filters@) == Seq::<Seq<char>>::empty(),
    {
        let builder = FilterPipelineBuilder { vars, filters: Vec::new() };
        proof {
            assert(command_texts(builder.filters@) =~= Seq::<Seq<char>>::empty());
        }
        builder
    }

    /// Adds the filter that extracts a service.
    pub fn add_service_filter(&mut self, template: &str) -> (result: Result<(), MirakcError>)
        requires
            plain_template(template@, old(self).vars@.dom()),
        ensures
            final(self).vars == old(self).vars,
            match with_filter(
                command_texts(old(self).filters@),
                rendered(template@, old(self).vars@),
            ) {
                Ok(commands) => result is Ok && command_texts(final(self).filters@) == commands,
                Err(error) => result == Err::<(), MirakcError>(error) && final(self).filters@
                    == old(self).filters@,
            },
    {
        append_filter(&mut self.filters, render(template, &self.vars))
    }

    /// Adds the filter that decodes a stream.
    pub fn add_decode_filter(&mut self, template: &str) -> (result: Result<(), MirakcError>)
        requires
            plain_template(template@, old(self).vars@.dom()),
        ensures
            final(self).vars == old(self).vars,
            match with_filter(
                command_texts(old(self).filters@),
                rendered(template@, old(self).vars@),
            ) {
                Ok(commands) => result is Ok && command_texts(final(self).filters@) == commands,
                Err(error) => result == Err::<(), MirakcError>(error) && final(self).filters@
                    == old(self).filters@,
            },
    {
        append_filter(&mut self.filters, render(template, &self.vars))
    }

    /// Gives the commands, in the order in which they were added.
    pub fn build(self) -> (commands: Vec<String>)
        ensures
            commands == self.filters,
    {
        self.filters
    }
}

/// A filter comes behind the commands before it, which stay as they are. One that renders to nothing
/// adds nothing, and one that cannot be rendered ends the pipeline with its error.
pub proof fn filters_come_behind_what_is_there(
    commands: Seq<Seq<char>>,
    text: Seq<char>,
    error: MirakcError,
)
    ensures
        text.len() > 0 ==> with_filter(commands, Ok(text)) == Ok::<_, MirakcError>(
            commands + seq![text],
        ),
        text.len() == 0 ==> with_filter(commands, Ok(text)) == Ok::<_, MirakcError>(commands),
        with_filter(commands, Err(error)) == Err::<Seq<Seq<char>>, _>(error),
{
    assert(commands.push(text) =~= commands + seq![text]);
}

/// The texts of commands and renderings are their characters.
pub proof fn texts_are_the_characters(
    commands: Seq<String>,
    i: int,
    text: String,
    error: MirakcError,
)
    ensures
        command_texts(commands).len() == commands.len(),
        0 <= i < commands.len() ==> command_texts(commands)[i] == commands[i]@,
        rendering_view(Ok(text)) == Ok::<_, MirakcError>(text@),
        rendering_view(Err(error)) == Err::<Seq<char>, _>(error),
{
}

/// A rendered filter is added behind the commands, which stay as they are. Nothing is added if it is
/// empty or could not be rendered, and only the latter is an error.
pub proof fn filter_is_added_behind_the_commands(
    commands: &mut Vec<String>,
    filter: Result<String, MirakcError>,
    result: Result<(), MirakcError>,
    i: int,
)
    requires
        call_ensures(append_filter, (commands, filter), result),
    ensures
        filter matches Err(error) ==> result == Err::<(), _>(error) && final(commands)@ == old(
            commands,
        )@,
        filter matches Ok(text) ==> {
            &&& result is Ok
            &&& final(commands)@.len() == old(commands)@.len() + if text@.len() > 0 {
                1int
            } else {
                0int
            }
            &&& text@.len() > 0 ==> final(commands)@.last()@ == text@
            &&& 0 <= i < old(commands)@.len() ==> final(commands)@[i]@ == old(commands)@[i]@
        },
{
    if let Ok(text) = filter {
        let before = command_texts(old(commands)@);
        let after = command_texts(final(commands)@);
        assert(after == if text@.len() == 0 {
            before
        } else {
            before.push(text@)
        });
        assert(before.len() == old(commands)@.len() && after.len() == final(commands)@.len());
        if text@.len() > 0 {
            assert(after.last() == text@);
            assert(after[final(commands)@.len() - 1] == final(commands)@.last()@);
        }
        if 0 <= i < before.len() {
            assert(before[i] == old(commands)@[i]@);
            assert(after[i] == before[i]);
            assert(after[i] == final(commands)@[i]@);
        }
    }
}

} // verus!
