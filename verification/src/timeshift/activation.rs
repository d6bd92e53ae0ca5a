//! How a recorder is activated: a tuner is asked for a stream, and the stream is piped into the
//! commands that filter and record it.

use crate::config::{Config, TimeshiftConfig};
use crate::epg::{EpgChannel, EpgService, EpgServiceView};
use crate::error::MirakcError;
use crate::filter::{
    command_texts, rendering_view, with_filter, FilterPipelineBuilder,
};
use crate::tag::{is_plain_template, names_of, plain_template};
use crate::template::{no_vars, render, rendered, TemplateVars, TemplateVarsBuilder};
use crate::text::decimal;
use crate::timeshift::recorder::TimeshiftRecorderSession;
use crate::timeshift::source::{make_recorder_stream_id, recorder_stream_id};
use vstd::prelude::*;

verus! {

/// A recorder that is to be activated.
#[derive(Debug)]
pub struct TimeshiftActivation {
    pub name: String,
    pub config: TimeshiftConfig,
    pub service: EpgService,
}

/// What an activation is made of.
#[verifier::ext_equal]
pub struct TimeshiftActivationView {
    pub name: Seq<char>,
    pub config: TimeshiftConfig,
    pub service: EpgServiceView,
}

impl View for TimeshiftActivation {
    type V = TimeshiftActivationView;

    open spec fn view(&self) -> TimeshiftActivationView {
        TimeshiftActivationView {
            name: self.name@,
            config: self.config,
            service: self.service@,
        }
    }
}

/// What a tuner is asked for.
#[derive(Debug)]
pub struct StreamRequest {
    pub channel: EpgChannel,
    pub user_name: String,
    pub priority: i32,
}

/// The variables of the filters.
pub open spec fn filter_vars(service: EpgServiceView) -> Map<Seq<char>, Seq<char>> {
    no_vars().insert("channel_name"@, service.channel.name).insert(
        "channel_type"@,
        service.channel.channel_type.spec_name(),
    ).insert("channel"@, service.channel.channel).insert("sid"@, decimal(service.sid as nat))
}

/// The variables of the command that records.
pub open spec fn record_vars(activation: TimeshiftActivationView) -> Map<Seq<char>, Seq<char>> {
    no_vars().insert("name"@, activation.name).insert(
        "sid"@,
        decimal(activation.service.sid as nat),
    ).insert("file"@, activation.config.file@).insert(
        "chunk_size"@,
        decimal(activation.config.chunk_size as nat),
    ).insert("num_chunks"@, decimal(activation.config.num_chunks as nat))
}

/// The commands of the filters and, at the end, the command that records.
pub open spec fn completed(
    filters: Seq<Seq<char>>,
    record_command: Result<Seq<char>, MirakcError>,
) -> Result<Seq<Seq<char>>, MirakcError> {
    match record_command {
        Ok(command) => Ok(filters.push(command)),
        Err(error) => Err(error),
    }
}

/// The commands that a stream is piped into: the filter which extracts the service, the filter
/// which decodes it unless the stream is decoded already, and the command which records it.
pub open spec fn pipeline_of(
    activation: TimeshiftActivationView,
    service_filter: Seq<char>,
    decode_filter: Seq<char>,
    record_command: Seq<char>,
    decoded: bool,
) -> Result<Seq<Seq<char>>, MirakcError> {
    let vars = filter_vars(activation.service);
    match with_filter(Seq::empty(), rendered(service_filter, vars)) {
        Ok(extracting) => match (if decoded {
            Ok(extracting)
        } else {
            with_filter(extracting, rendered(decode_filter, vars))
        }) {
            Ok(filters) => completed(filters, rendered(record_command, record_vars(activation))),
            Err(error) => Err(error),
        },
        Err(error) => Err(error),
    }
}

/// The characters of a pipeline.
pub open spec fn pipeline_view(commands: Result<Vec<String>, MirakcError>) -> Result<
    Seq<Seq<char>>,
    MirakcError,
> {
    match commands {
        Ok(commands) => Ok(command_texts(commands@)),
        Err(error) => Err(error),
    }
}

/// Adds the command that records at the end of the filters.
pub fn complete_pipeline(
    filters: Vec<String>,
    record_command: Result<String, MirakcError>,
) -> (commands: Result<Vec<String>, MirakcError>)
    ensures
        pipeline_view(commands) == completed(
            command_texts(filters@),
            rendering_view(record_command),
        ),
{
    let mut filters = filters;
    match record_command {
        Ok(command) => {
            let ghost before = filters@;
            filters.push(command);
            proof {
                assert(command_texts(filters@) =~= command_texts(before).push(command@));
            }
            Ok(filters)
        },
        Err(error) => Err(error),
    }
}

/// The names of the variables of the filters.
pub open spec fn filter_names() -> Set<Seq<char>> {
    set!["channel_name"@, "channel_type"@, "channel"@, "sid"@]
}

/// The names of the variables of the command that records.
pub open spec fn record_names() -> Set<Seq<char>> {
    set!["name"@, "sid"@, "file"@, "chunk_size"@, "num_chunks"@]
}

/// The templates of the commands that a stream is piped into are plain. That of the decode filter
/// is not looked at if the stream is decoded.
pub open spec fn templates_are_plain(config: Config, decoded: bool) -> bool {
    &&& plain_template(config.filters.service_filter@, filter_names())
    &&& !decoded ==> plain_template(config.filters.decode_filter@, filter_names())
    &&& plain_template(config.recorder.record_service_command@, record_names())
}

/// Tells whether the templates of the commands that a stream is piped into are plain.
pub fn has_plain_templates(config: &Config, decoded: bool) -> (plain: bool)
    ensures
        plain == templates_are_plain(*config, decoded),
{
    let filter_vars: Vec<String> = vec![
        "channel_name".to_owned(),
        "channel_type".to_owned(),
        "channel".to_owned(),
        "sid".to_owned(),
    ];
    let record_vars: Vec<String> = vec![
        "name".to_owned(),
        "sid".to_owned(),
        "file".to_owned(),
        "chunk_size".to_owned(),
        "num_chunks".to_owned(),
    ];
    proof {
        assert(filter_vars@[0]@ == "channel_name"@ && filter_vars@[1]@ == "channel_type"@);
        assert(filter_vars@[2]@ == "channel"@ && filter_vars@[3]@ == "sid"@);
        assert(names_of(filter_vars@) =~= filter_names());
        assert(record_vars@[0]@ == "name"@ && record_vars@[1]@ == "sid"@);
        assert(record_vars@[2]@ == "file"@ && record_vars@[3]@ == "chunk_size"@);
        assert(record_vars@[4]@ == "num_chunks"@);
        assert(names_of(record_vars@) =~= record_names());
    }
    is_plain_template(config.filters.service_filter.as_str(), &filter_vars) && (decoded
        || is_plain_template(config.filters.decode_filter.as_str(), &filter_vars))
        && is_plain_template(config.recorder.record_service_command.as_str(), &record_vars)
}

/// How far an activation has come. While the pipeline is being spawned, the activation owns the
/// trigger that stops the tuner's stream when it is dropped.
pub enum ActivationState<S> {
    Tuning,
    Spawning(S),
    Finished,
}

/// What happened to an activation.
pub enum ActivationEvent<S> {
    /// The tuner streams, and the stream stops when the trigger is dropped.
    Tuned { decoded: bool, stop_trigger: S },
    /// The tuner does not stream.
    TuningFailed,
    /// The pipeline runs.
    Spawned,
    /// The pipeline does not run.
    SpawnFailed,
}

/// What to do next for an activation.
pub enum ActivationAction<S> {
    /// Spawn a pipeline of commands and pipe the stream into it.
    Spawn(Vec<String>),
    /// Nothing is left to do: the recorder is active, or it could not be activated.
    Finish(Result<S, MirakcError>),
}

impl<S> ActivationState<S> {
    /// An event that can happen in this state.
    pub open spec fn expects(self, event: ActivationEvent<S>) -> bool {
        match self {
            ActivationState::Tuning => event is Tuned || event is TuningFailed,
            ActivationState::Spawning(_) => event is Spawned || event is SpawnFailed,
            ActivationState::Finished => false,
        }
    }
}

/// Goes on once the commands are known: the pipeline is spawned, or the stream is stopped because
/// a command cannot be rendered.
pub fn after_tuning<S>(stop_trigger: S, commands: Result<Vec<String>, MirakcError>) -> (next: (
    ActivationState<S>,
    ActivationAction<S>,
))
    ensures
        match commands {
            Ok(commands) => next == (
                ActivationState::Spawning(stop_trigger),
                ActivationAction::<S>::Spawn(commands),
            ),
            Err(error) => next == (
                ActivationState::<S>::Finished,
                ActivationAction::<S>::Finish(Err(error)),
            ),
        },
{
    match commands {
        Ok(commands) => (
            ActivationState::Spawning(stop_trigger),
            ActivationAction::Spawn(commands),
        ),
        Err(error) => (ActivationState::Finished, ActivationAction::Finish(Err(error))),
    }
}

impl TimeshiftActivation {
    /// What the tuner is asked for first.
    pub fn stream_request(&self) -> (request: StreamRequest)
        ensures
            request.channel@ == self@.service.channel,
            request.user_name@ == recorder_stream_id(self@.name),
            request.priority == self.config.priority,
    {
        StreamRequest {
            channel: self.service.channel.clone(),
            user_name: make_recorder_stream_id(self.name.as_str()),
            priority: self.config.priority,
        }
    }

    fn make_filter_vars(&self) -> (vars: Result<TemplateVars, MirakcError>)
        ensures
            vars matches Ok(vars) && vars@ == filter_vars(self@.service),
    {
        let channel = &self.service.channel;
        let builder = TemplateVarsBuilder::new().with_text(
            "channel_name",
            channel.name.as_str(),
        ).with_text("channel_type", channel.channel_type.name()).with_text(
            "channel",
            channel.channel.as_str(),
        );
        match builder.with_number("sid", self.service.sid as u64) {
            Ok(builder) => Ok(builder.build()),
            Err(error) => Err(error),
        }
    }

    fn make_record_vars(&self) -> (vars: Result<TemplateVars, MirakcError>)
        ensures
            vars matches Ok(vars) && vars@ == record_vars(self@),
    {
        let builder = TemplateVarsBuilder::new().with_text("name", self.name.as_str());
        let builder = match builder.with_number("sid", self.service.sid as u64) {
            Ok(builder) => builder,
            Err(error) => {
                return Err(error);
            },
        };
        let builder = builder.with_text("file", self.config.file.as_str());
        let builder = match builder.with_number("chunk_size", self.config.chunk_size as u64) {
            Ok(builder) => builder,
            Err(error) => {
                return Err(error);
            },
        };
        match builder.with_number("num_chunks", self.config.num_chunks as u64) {
            Ok(builder) => Ok(builder.build()),
            Err(error) => Err(error),
        }
    }

    /// The commands that a stream of the service is piped into.
    ///
    /// The stream is always decoded before it is recorded, so that it can be read from any
    /// position in a record: only a stream that starts with PAT packets can be decoded.
    pub fn make_pipeline(&self, config: &Config, decoded: bool) -> (commands: Result<
        Vec<String>,
        MirakcError,
    >)
        requires
            templates_are_plain(*config, decoded),
        ensures
            pipeline_view(commands) == pipeline_of(
                self@,
                config.filters.service_filter@,
                config.filters.decode_filter@,
                config.recorder.record_service_command@,
                decoded,
            ),
    {
        proof {
            assert(filter_vars(self@.service).dom() =~= filter_names());
            assert(record_vars(self@).dom() =~= record_names());
        }
        let vars = match self.make_filter_vars() {
            Ok(vars) => vars,
            Err(error) => {
                return Err(error);
            },
        };
        let mut builder = FilterPipelineBuilder::new(vars);
        match builder.add_service_filter(config.filters.service_filter.as_str()) {
            Ok(_) => {},
            Err(error) => {
                return Err(error);
            },
        }
        if !decoded {
            match builder.add_decode_filter(config.filters.decode_filter.as_str()) {
                Ok(_) => {},
                Err(error) => {
                    return Err(error);
                },
            }
        }
        let filters = builder.build();
        let vars = match self.make_record_vars() {
            Ok(vars) => vars,
            Err(error) => {
                return Err(error);
            },
        };
        complete_pipeline(
            filters,
            render(config.recorder.record_service_command.as_str(), &vars),
        )
    }

    /// Takes an event of the activation in, and tells what to do next.
    pub fn step<S>(
        &self,
        config: &Config,
        state: ActivationState<S>,
        event: ActivationEvent<S>,
    ) -> (next: (ActivationState<S>, ActivationAction<S>))
        requires
            state.expects(event),
            event matches ActivationEvent::Tuned { decoded, .. } ==> templates_are_plain(
                *config,
                decoded,
            ),
        ensures
            match event {
                ActivationEvent::Tuned { decoded, stop_trigger } => match pipeline_of(
                    self@,
                    config.filters.service_filter@,
                    config.filters.decode_filter@,
                    config.recorder.record_service_command@,
                    decoded,
                ) {
                    Ok(pipeline) => {
                        &&& next.0 == ActivationState::Spawning(stop_trigger)
                        &&& next.1 matches ActivationAction::Spawn(commands)
                        &&& command_texts(commands@) == pipeline
                    },
                    Err(error) => next == (
                        ActivationState::<S>::Finished,
                        ActivationAction::<S>::Finish(Err(error)),
                    ),
                },
                ActivationEvent::TuningFailed => next == (
                    ActivationState::<S>::Finished,
                    ActivationAction::<S>::Finish(Err(MirakcError::TunerUnavailable)),
                ),
                ActivationEvent::Spawned => next == (
                    ActivationState::<S>::Finished,
                    ActivationAction::Finish(Ok(state->Spawning_0)),
                ),
                ActivationEvent::SpawnFailed => next == (
                    ActivationState::<S>::Finished,
                    ActivationAction::<S>::Finish(Err(MirakcError::PipelineFailed)),
                ),
            },
    {
        match event {
            ActivationEvent::Tuned { decoded, stop_trigger } => {
                let commands = self.make_pipeline(config, decoded);
                after_tuning(stop_trigger, commands)
            },
            ActivationEvent::TuningFailed => (
                ActivationState::Finished,
                ActivationAction::Finish(Err(MirakcError::TunerUnavailable)),
            ),
            ActivationEvent::Spawned => match state {
                ActivationState::Spawning(stop_trigger) => (
                    ActivationState::Finished,
                    ActivationAction::Finish(Ok(stop_trigger)),
                ),
                _ => (
                    ActivationState::Finished,
                    ActivationAction::Finish(Err(MirakcError::PipelineFailed)),
                ),
            },
            ActivationEvent::SpawnFailed => (
                ActivationState::Finished,
                ActivationAction::Finish(Err(MirakcError::PipelineFailed)),
            ),
        }
    }
}

/// The session that an activation leads to.
pub open spec fn session_of<S>(outcome: Result<S, MirakcError>) -> TimeshiftRecorderSession<S> {
    match outcome {
        Ok(stop_trigger) => TimeshiftRecorderSession::Active(stop_trigger),
        Err(_) => TimeshiftRecorderSession::Inactive,
    }
}

/// Gives the session that an activation leads to.
pub fn make_session<S>(outcome: Result<S, MirakcError>) -> (session: TimeshiftRecorderSession<S>)
    ensures
        session == session_of(outcome),
{
    match outcome {
        Ok(stop_trigger) => TimeshiftRecorderSession::Active(stop_trigger),
        Err(_) => TimeshiftRecorderSession::Inactive,
    }
}

/// A decoded stream is not decoded again: whether there is a decode filter makes no difference.
pub proof fn decoded_stream_skips_decode_filter(
    activation: TimeshiftActivationView,
    service_filter: Seq<char>,
    decode_filter1: Seq<char>,
    decode_filter2: Seq<char>,
    record_command: Seq<char>,
)
    ensures
        pipeline_of(activation, service_filter, decode_filter1, record_command, true)
            == pipeline_of(activation, service_filter, decode_filter2, record_command, true),
{
}

/// A stream is always decoded before it is recorded: unless it is decoded already, the decode
/// filter comes right before the command that records.
pub proof fn scrambled_stream_is_decoded_before_it_is_recorded(
    activation: TimeshiftActivationView,
    service_filter: Seq<char>,
    decode_filter: Seq<char>,
    record_command: Seq<char>,
)
    ensures
        pipeline_of(activation, service_filter, decode_filter, record_command, false) matches Ok(
            commands,
        ) ==> {
            &&& rendered(decode_filter, filter_vars(activation.service)) matches Ok(decode)
            &&& decode.len() > 0 ==> commands.len() >= 2 && commands[commands.len() - 2] == decode
        },
{
}

/// Whatever the filters, a pipeline ends with the command that records, and has at most the two
/// filters before it.
pub proof fn pipeline_ends_with_record_command(
    activation: TimeshiftActivationView,
    service_filter: Seq<char>,
    decode_filter: Seq<char>,
    record_command: Seq<char>,
    decoded: bool,
)
    ensures
        pipeline_of(activation, service_filter, decode_filter, record_command, decoded) matches Ok(
            commands,
        ) ==> {
            &&& 1 <= commands.len() <= 3
            &&& decoded ==> commands.len() <= 2
            &&& rendered(record_command, record_vars(activation)) == Ok::<_, MirakcError>(
                commands.last(),
            )
        },
{
}

/// The filters are told the channel and the service that is recorded, and nothing else.
pub proof fn filters_are_told_channel_and_service(service: EpgServiceView)
    ensures
        filter_vars(service)["channel_name"@] == service.channel.name,
        filter_vars(service)["channel_type"@] == service.channel.channel_type.spec_name(),
        filter_vars(service)["channel"@] == service.channel.channel,
        filter_vars(service)["sid"@] == decimal(service.sid as nat),
        forall|name: Seq<char>|
            #[trigger] filter_vars(service).contains_key(name) <==> name == "channel_name"@ || name
                == "channel_type"@ || name == "channel"@ || name == "sid"@,
        forall|name: Seq<char>|
            #[trigger] filter_names().contains(name) <==> name == "channel_name"@ || name
                == "channel_type"@ || name == "channel"@ || name == "sid"@,
{
    reveal_strlit("channel_name");
    reveal_strlit("channel_type");
    reveal_strlit("channel");
    reveal_strlit("sid");
    assert("channel_name"@.len() == 12 && "channel_type"@.len() == 12);
    assert("channel"@.len() == 7 && "sid"@.len() == 3);
    assert("channel_name"@[8] != "channel_type"@[8]);
}

/// The command that records is told the recorder, the service, and the file and the ring of the
/// recorder, and nothing else.
pub proof fn record_command_is_told_recorder_and_ring(activation: TimeshiftActivationView)
    ensures
        record_vars(activation)["name"@] == activation.name,
        record_vars(activation)["sid"@] == decimal(activation.service.sid as nat),
        record_vars(activation)["file"@] == activation.config.file@,
        record_vars(activation)["chunk_size"@] == decimal(activation.config.chunk_size as nat),
        record_vars(activation)["num_chunks"@] == decimal(activation.config.num_chunks as nat),
        forall|name: Seq<char>|
            #[trigger] record_vars(activation).contains_key(name) <==> name == "name"@ || name
                == "sid"@ || name == "file"@ || name == "chunk_size"@ || name == "num_chunks"@,
        forall|name: Seq<char>|
            #[trigger] record_names().contains(name) <==> name == "name"@ || name == "sid"@ || name
                == "file"@ || name == "chunk_size"@ || name == "num_chunks"@,
{
    reveal_strlit("name");
    reveal_strlit("sid");
    reveal_strlit("file");
    reveal_strlit("chunk_size");
    reveal_strlit("num_chunks");
    assert("name"@.len() == 4 && "sid"@.len() == 3 && "file"@.len() == 4);
    assert("chunk_size"@.len() == 10 && "num_chunks"@.len() == 10);
    assert("name"@[0] != "file"@[0]);
    assert("chunk_size"@[0] != "num_chunks"@[0]);
}

/// A pipeline is made of the service filter, the decode filter unless the stream is decoded, and the
/// command that records, in this order and without the filters that render to nothing. It fails with
/// the error of the first of them that cannot be rendered, and does not fail otherwise.
pub proof fn pipeline_is_made_of_its_commands(
    activation: TimeshiftActivationView,
    service_filter: Seq<char>,
    decode_filter: Seq<char>,
    record_command: Seq<char>,
    decoded: bool,
)
    ensures
        ({
            let pipeline = pipeline_of(
                activation,
                service_filter,
                decode_filter,
                record_command,
                decoded,
            );
            let service = rendered(service_filter, filter_vars(activation.service));
            let decode = rendered(decode_filter, filter_vars(activation.service));
            let record = rendered(record_command, record_vars(activation));
            let unless_empty = |text: Seq<char>| if text.len() > 0 {
                seq![text]
            } else {
                Seq::<Seq<char>>::empty()
            };
            match (service, decode, record) {
                (Err(error), _, _) => pipeline == Err::<Seq<Seq<char>>, _>(error),
                (Ok(_), Err(error), _) if !decoded => pipeline == Err::<Seq<Seq<char>>, _>(error),
                (Ok(_), _, Err(error)) => pipeline == Err::<Seq<Seq<char>>, _>(error),
                (Ok(service), _, Ok(record)) => pipeline == Ok::<_, MirakcError>(
                    unless_empty(service) + (if decoded {
                        Seq::empty()
                    } else {
                        unless_empty(decode->Ok_0)
                    }) + seq![record],
                ),
            }
        }),
{
    let service = rendered(service_filter, filter_vars(activation.service));
    let decode = rendered(decode_filter, filter_vars(activation.service));
    let record = rendered(record_command, record_vars(activation));
    let pipeline = pipeline_of(activation, service_filter, decode_filter, record_command, decoded);
    if let (Ok(service), Ok(record)) = (service, record) {
        if decoded || decode is Ok {
            let unless_empty = |text: Seq<char>| if text.len() > 0 {
                seq![text]
            } else {
                Seq::<Seq<char>>::empty()
            };
            let expected = unless_empty(service) + (if decoded {
                Seq::empty()
            } else {
                unless_empty(decode->Ok_0)
            }) + seq![record];
            assert(pipeline->Ok_0 =~= expected);
        }
    }
}

/// A successful activation makes the session active and hands it the trigger, and a failed one makes
/// it inactive.
pub proof fn session_owns_the_trigger<S>(stop_trigger: S, error: MirakcError)
    ensures
        session_of(Ok::<S, MirakcError>(stop_trigger)) == TimeshiftRecorderSession::Active(
            stop_trigger,
        ),
        session_of(Err::<S, MirakcError>(error)) == TimeshiftRecorderSession::<S>::Inactive,
{
}

/// What an activation is made of leaves nothing out.
pub proof fn activation_view_leaves_nothing_out(activation: TimeshiftActivation)
    ensures
        activation@.name == activation.name@,
        activation@.config == activation.config,
        activation@.service == activation.service@,
{
}

/// The tuner is asked for the channel of the service, on behalf of the recorder and with its
/// priority.
pub proof fn tuner_is_asked_for_the_channel(
    activation: TimeshiftActivation,
    request: StreamRequest,
)
    requires
        call_ensures(TimeshiftActivation::stream_request, (&activation,), request),
    ensures
        request.channel@ == activation.service.channel@,
        request.user_name@ == "timeshift("@ + activation.name@ + ")"@,
        request.priority == activation.config.priority,
{
}

/// An activation spawns the pipeline of its commands once the tuner streams, and ends with the
/// trigger of the stream once the pipeline runs. It ends with an error, and without the trigger, if
/// the tuner does not stream, a command cannot be rendered, or the pipeline does not run.
pub proof fn activation_succeeds_once_the_pipeline_runs<S>(
    activation: TimeshiftActivation,
    config: Config,
    state: ActivationState<S>,
    event: ActivationEvent<S>,
    next: (ActivationState<S>, ActivationAction<S>),
)
    requires
        state.expects(event),
        call_ensures(
            TimeshiftActivation::step::<S>,
            (&activation, &config, state, event),
            next,
        ),
    ensures
        next.1 matches ActivationAction::Spawn(commands) ==> {
            &&& event matches ActivationEvent::Tuned { stop_trigger, .. }
            &&& next.0 == ActivationState::Spawning(stop_trigger)
        },
        next.1 matches ActivationAction::Finish(outcome) ==> {
            &&& next.0 is Finished
            &&& outcome is Ok <==> event is Spawned
            &&& outcome matches Ok(trigger) ==> state == ActivationState::Spawning(trigger)
            &&& event is TuningFailed ==> outcome == Err::<S, _>(MirakcError::TunerUnavailable)
            &&& event is SpawnFailed ==> outcome == Err::<S, _>(MirakcError::PipelineFailed)
        },
        event matches ActivationEvent::Tuned { decoded, .. } ==> match pipeline_of(
            activation@,
            config.filters.service_filter@,
            config.filters.decode_filter@,
            config.recorder.record_service_command@,
            decoded,
        ) {
            Ok(pipeline) => next.1 matches ActivationAction::Spawn(commands) && command_texts(
                commands@,
            ) == pipeline,
            Err(error) => next.1 == ActivationAction::<S>::Finish(Err(error)),
        },
{
}

/// A state expects exactly what its action can come to.
pub proof fn activation_expects_what_it_waits_for<S>(
    stop_trigger: S,
    event: ActivationEvent<S>,
)
    ensures
        ActivationState::<S>::Tuning.expects(event) <==> event is Tuned || event is TuningFailed,
        ActivationState::Spawning(stop_trigger).expects(event) <==> event is Spawned || event
            is SpawnFailed,
        !ActivationState::<S>::Finished.expects(event),
{
}

/// The commands that an activation makes are those of its pipeline, and fail with its error.
pub proof fn commands_are_those_of_the_pipeline(
    activation: TimeshiftActivation,
    config: Config,
    decoded: bool,
    commands: Result<Vec<String>, MirakcError>,
    i: int,
)
    requires
        call_ensures(
            TimeshiftActivation::make_pipeline,
            (&activation, &config, decoded),
            commands,
        ),
    ensures
        match pipeline_of(
            activation@,
            config.filters.service_filter@,
            config.filters.decode_filter@,
            config.recorder.record_service_command@,
            decoded,
        ) {
            Ok(pipeline) => commands matches Ok(commands) && commands@.len() == pipeline.len() && (0
                <= i < commands@.len() ==> commands@[i]@ == pipeline[i]),
            Err(error) => commands == Err::<Vec<String>, _>(error),
        },
{
    if let Ok(list) = commands {
        assert(command_texts(list@).len() == list@.len());
        if 0 <= i < list@.len() {
            assert(command_texts(list@)[i] == list@[i]@);
        }
    }
}

/// The command that records is added at the end, or its error is the outcome. An activation that has
/// its commands goes on with them and keeps the trigger, and one that has none ends with the error.
pub proof fn commands_decide_how_an_activation_goes_on<S>(
    filters: Vec<String>,
    command: Result<String, MirakcError>,
    completed_commands: Result<Vec<String>, MirakcError>,
    stop_trigger: S,
    next: (ActivationState<S>, ActivationAction<S>),
    outcome: Result<S, MirakcError>,
    session: TimeshiftRecorderSession<S>,
)
    requires
        call_ensures(complete_pipeline, (filters, command), completed_commands),
        call_ensures(after_tuning::<S>, (stop_trigger, completed_commands), next),
        call_ensures(make_session::<S>, (outcome,), session),
    ensures
        command matches Err(error) ==> completed_commands == Err::<Vec<String>, _>(error),
        command matches Ok(text) ==> completed_commands is Ok && command_texts(
            completed_commands->Ok_0@,
        ) == command_texts(filters@).push(text@),
        completed_commands matches Ok(commands) ==> next == (
            ActivationState::Spawning(stop_trigger),
            ActivationAction::<S>::Spawn(commands),
        ),
        completed_commands matches Err(error) ==> next == (
            ActivationState::<S>::Finished,
            ActivationAction::<S>::Finish(Err(error)),
        ),
        outcome matches Ok(trigger) ==> session == TimeshiftRecorderSession::Active(trigger),
        outcome is Err ==> session == TimeshiftRecorderSession::<S>::Inactive,
{
}

} // verus!
