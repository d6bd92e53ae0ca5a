//! On-air programs: how those of another server are followed.

use crate::config::RemoteOnairProgramTrackerConfig;
use crate::epg::{EpgGenre, EpgProgram};
use crate::models::{EventQuad, MirakurunProgramId, MirakurunServiceId, ServiceTriple};
use crate::text::same_text;
use crate::time::JstTime;
use std::sync::Arc;
use vstd::prelude::*;

verus! {

/// A program as the web API describes it.
///
/// The properties from `video` on are not used but for telling whether they agree with the guide.
/// They are kept as JSON, with the keys of every object in order.
#[derive(Debug)]
pub struct MirakurunProgram {
    pub id: MirakurunProgramId,
    pub event_id: u16,
    pub service_id: u16,
    pub transport_stream_id: u16,
    pub network_id: u16,
    pub start_at: Option<JstTime>,
    /// The duration in milliseconds.
    pub duration: Option<i64>,
    pub is_free: bool,
    pub name: Option<String>,
    pub description: Option<String>,
    pub extended: Option<Vec<(String, String)>>,
    pub genres: Option<Vec<EpgGenre>>,
    pub video: Option<String>,
    pub audio: Option<String>,
    pub audios: Option<String>,
    pub series: Option<String>,
    pub related_items: Option<String>,
}

impl MirakurunProgram {
    /// The event of the program.
    pub open spec fn spec_quad(self) -> EventQuad {
        EventQuad {
            nid: self.network_id,
            tsid: self.transport_stream_id,
            sid: self.service_id,
            eid: self.event_id,
        }
    }

    /// Gives the event of the program.
    pub fn quad(&self) -> (quad: EventQuad)
        ensures
            quad == self.spec_quad(),
    {
        EventQuad::from(
            (self.network_id, self.transport_stream_id, self.service_id, self.event_id),
        )
    }

    /// The service of the program.
    pub open spec fn spec_triple(self) -> ServiceTriple {
        ServiceTriple {
            nid: self.network_id,
            tsid: self.transport_stream_id,
            sid: self.service_id,
        }
    }

    /// Gives the service of the program.
    pub fn triple(&self) -> (triple: ServiceTriple)
        ensures
            triple == self.spec_triple(),
    {
        ServiceTriple::from((self.network_id, self.transport_stream_id, self.service_id))
    }
}

/// The on-air programs of a service, as the web API describes them.
#[derive(Debug)]
pub struct WebOnairProgram {
    pub service_id: MirakurunServiceId,
    pub current: Option<MirakurunProgram>,
    pub next: Option<MirakurunProgram>,
}

impl WebOnairProgram {
    /// There is neither a current program nor a next one.
    pub open spec fn spec_is_empty(self) -> bool {
        self.current is None && self.next is None
    }

    /// The service of the current program, or of the next one if there is no current program.
    pub open spec fn spec_service_triple(self) -> ServiceTriple
        recommends
            !self.spec_is_empty(),
    {
        match self.current {
            Some(program) => program.spec_triple(),
            None => self.next->0.spec_triple(),
        }
    }

    /// Tells whether there is neither a current program nor a next one.
    pub fn is_empty(&self) -> (empty: bool)
        ensures
            empty == self.spec_is_empty(),
    {
        self.current.is_none() && self.next.is_none()
    }

    /// Gives the service of the programs.
    pub fn service_triple(&self) -> (triple: ServiceTriple)
        requires
            !self.spec_is_empty(),
        ensures
            triple == self.spec_service_triple(),
    {
        match (&self.current, &self.next) {
            (Some(program), _) => program.triple(),
            (None, Some(program)) => program.triple(),
            (None, None) => ServiceTriple::from((0, 0, 0)),
        }
    }
}

/// The on-air programs of a service have changed.
#[derive(Debug)]
pub struct OnairProgramChanged {
    pub service_triple: ServiceTriple,
    pub current: Option<Arc<EpgProgram>>,
    pub next: Option<Arc<EpgProgram>>,
}

impl OnairProgramChanged {
    /// The identifier of the service.
    pub open spec fn spec_service_id(self) -> MirakurunServiceId {
        MirakurunServiceId {
            value: (self.service_triple.nid * 100_000 + self.service_triple.sid) as u64,
        }
    }

    /// Gives the identifier of the service.
    pub fn service_id(&self) -> (id: MirakurunServiceId)
        ensures
            id == self.spec_service_id(),
    {
        MirakurunServiceId::from((self.service_triple.nid, self.service_triple.sid))
    }
}

/// The program of the guide that a program of the web API stands for. What the web API does not
/// tell in full comes from the guide, or is missing if the guide does not know the program.
pub open spec fn converted_program(
    program: MirakurunProgram,
    guide: Option<EpgProgram>,
) -> EpgProgram {
    EpgProgram {
        quad: program.spec_quad(),
        start_at: program.start_at,
        duration: program.duration,
        scrambled: !program.is_free,
        name: program.name,
        description: program.description,
        extended: program.extended,
        genres: program.genres,
        video: match guide {
            Some(guide) => guide.video,
            None => None,
        },
        audios: match guide {
            Some(guide) => guide.audios,
            None => None,
        },
        series: match guide {
            Some(guide) => guide.series,
            None => None,
        },
        event_group: match guide {
            Some(guide) => guide.event_group,
            None => None,
        },
    }
}

/// A program that may be missing, converted.
pub open spec fn converted(
    program: Option<MirakurunProgram>,
    guide: Option<EpgProgram>,
) -> Option<Arc<EpgProgram>> {
    match program {
        Some(program) => Some(Arc::new(converted_program(program, guide))),
        None => None,
    }
}

/// Converts a program of the web API, with what the guide knows of it.
pub fn convert_program(program: Option<MirakurunProgram>, guide: Option<EpgProgram>) -> (result:
    Option<Arc<EpgProgram>>)
    ensures
        result == converted(program, guide),
{
    let program = match program {
        Some(program) => program,
        None => {
            return None;
        },
    };
    let quad = program.quad();
    let mut converted = EpgProgram::new(quad);
    converted.start_at = program.start_at;
    converted.duration = program.duration;
    converted.scrambled = !program.is_free;
    converted.name = program.name;
    converted.description = program.description;
    converted.extended = program.extended;
    converted.genres = program.genres;
    match guide {
        Some(guide) => {
            converted.video = guide.video;
            converted.audios = guide.audios;
            converted.series = guide.series;
            converted.event_group = guide.event_group;
        },
        None => {},
    }
    Some(Arc::new(converted))
}

/// The properties in which a program of the web API differs from the guide. What the web API
/// tells of them is lost.
#[derive(Clone, Copy, Debug, PartialEq, Eq, Structural)]
pub struct LostProperties {
    pub video: bool,
    pub audios: bool,
    pub series: bool,
    pub event_group: bool,
}

/// Two texts that may be missing hold different characters, or only one is missing.
pub open spec fn texts_differ(a: Option<String>, b: Option<String>) -> bool {
    match (a, b) {
        (Some(a), Some(b)) => a@ != b@,
        (None, None) => false,
        _ => true,
    }
}

fn differ(a: &Option<String>, b: &Option<String>) -> (different: bool)
    ensures
        different == texts_differ(*a, *b),
{
    match (a, b) {
        (Some(a), Some(b)) => !same_text(a.as_str(), b.as_str()),
        (None, None) => false,
        _ => true,
    }
}

/// Compares a program with the same program of the guide, as the web API would describe it.
pub fn lost_properties(program: &MirakurunProgram, check: &MirakurunProgram) -> (lost:
    LostProperties)
    ensures
        lost.video == texts_differ(program.video, check.video),
        lost.audios == (texts_differ(program.audio, check.audio) || texts_differ(
            program.audios,
            check.audios,
        )),
        lost.series == texts_differ(program.series, check.series),
        lost.event_group == texts_differ(program.related_items, check.related_items),
{
    LostProperties {
        video: differ(&program.video, &check.video),
        audios: differ(&program.audio, &check.audio) || differ(&program.audios, &check.audios),
        series: differ(&program.series, &check.series),
        event_group: differ(&program.related_items, &check.related_items),
    }
}

/// On-air programs that are to be announced, once the guide has been asked for them.
#[derive(Debug)]
pub struct Emission {
    pub service_triple: ServiceTriple,
    pub current: Option<MirakurunProgram>,
    pub next: Option<MirakurunProgram>,
}

/// The event that the guide is asked for.
pub open spec fn asked_quad(program: Option<MirakurunProgram>) -> Option<EventQuad> {
    match program {
        Some(program) => Some(program.spec_quad()),
        None => None,
    }
}

impl Emission {
    /// The event that the guide is asked for on account of the current program.
    pub fn current_quad(&self) -> (quad: Option<EventQuad>)
        ensures
            quad == asked_quad(self.current),
    {
        match &self.current {
            Some(program) => Some(program.quad()),
            None => None,
        }
    }

    /// The event that the guide is asked for on account of the next program.
    pub fn next_quad(&self) -> (quad: Option<EventQuad>)
        ensures
            quad == asked_quad(self.next),
    {
        match &self.next {
            Some(program) => Some(program.quad()),
            None => None,
        }
    }

    /// The announcement, with what the guide knows of the two programs.
    pub fn complete(self, current: Option<EpgProgram>, next: Option<EpgProgram>) -> (change:
        OnairProgramChanged)
        ensures
            change == (OnairProgramChanged {
                service_triple: self.service_triple,
                current: converted(self.current, current),
                next: converted(self.next, next),
            }),
    {
        OnairProgramChanged {
            service_triple: self.service_triple,
            current: convert_program(self.current, current),
            next: convert_program(self.next, next),
        }
    }
}

/// What is to be announced of on-air programs: nothing if the service is not followed, or if
/// there is no program, since the transport stream of the service is then unknown.
pub open spec fn emission_of(
    config: RemoteOnairProgramTrackerConfig,
    onair_program: WebOnairProgram,
) -> Option<Emission> {
    if config.follows(onair_program.service_id) && !onair_program.spec_is_empty() {
        Some(
            Emission {
                service_triple: onair_program.spec_service_triple(),
                current: onair_program.current,
                next: onair_program.next,
            },
        )
    } else {
        None
    }
}

/// What is to be announced of a list of on-air programs, in its order.
pub open spec fn emissions_of(
    config: RemoteOnairProgramTrackerConfig,
    onair_programs: Seq<WebOnairProgram>,
) -> Seq<Emission>
    decreases onair_programs.len(),
{
    if onair_programs.len() == 0 {
        Seq::empty()
    } else {
        let earlier = emissions_of(config, onair_programs.drop_last());
        match emission_of(config, onair_programs.last()) {
            Some(emission) => earlier.push(emission),
            None => earlier,
        }
    }
}

/// What a tracker of another server is made of.
#[derive(Debug)]
pub struct Inner<E, M> {
    pub name: String,
    pub config: Arc<RemoteOnairProgramTrackerConfig>,
    pub epg: E,
    pub emitter: M,
}

/// A tracker that follows the on-air programs of another server. `E` is the address of the guide,
/// and `M` the emitter of the announcements.
#[derive(Debug)]
pub struct RemoteTracker<E, M>(pub Arc<Inner<E, M>>);

impl<E, M> RemoteTracker<E, M> {
    /// A tracker with a name.
    pub fn new(
        name: String,
        config: Arc<RemoteOnairProgramTrackerConfig>,
        epg: E,
        emitter: M,
    ) -> (tracker: RemoteTracker<E, M>)
        ensures
            *tracker.0 == (Inner { name, config, epg, emitter }),
    {
        RemoteTracker(Arc::new(Inner { name, config, epg, emitter }))
    }
}

impl<E, M> Inner<E, M> {
    /// Decides what is to be announced of on-air programs.
    pub fn emission(&self, onair_program: WebOnairProgram) -> (emission: Option<Emission>)
        ensures
            emission == emission_of(*self.config, onair_program),
    {
        if !self.config.matches(onair_program.service_id) {
            return None;
        }
        if onair_program.is_empty() {
            return None;
        }
        Some(
            Emission {
                service_triple: onair_program.service_triple(),
                current: onair_program.current,
                next: onair_program.next,
            },
        )
    }

    /// Decides what is to be announced when the tracker starts.
    pub fn initial_emissions(&self, onair_programs: Vec<WebOnairProgram>) -> (emissions: Vec<
        Emission,
    >)
        ensures
            emissions@ == emissions_of(*self.config, onair_programs@),
    {
        let ghost all = onair_programs@;
        let ghost mut done: int = 0;
        let mut rest = onair_programs;
        let mut emissions: Vec<Emission> = Vec::new();
        proof {
            assert(all.take(0) =~= Seq::empty());
            assert(all.skip(0) =~= all);
        }
        while rest.len() > 0
            invariant
                0 <= done <= all.len(),
                rest@ == all.skip(done),
                emissions@ == emissions_of(*self.config, all.take(done)),
            decreases rest.len(),
        {
            let onair_program = rest.remove(0);
            proof {
                assert(rest@ =~= all.skip(done + 1));
                assert(all.take(done + 1).drop_last() =~= all.take(done));
                assert(all.take(done + 1).last() == all[done]);
                done = done + 1;
            }
            match self.emission(onair_program) {
                Some(emission) => {
                    emissions.push(emission);
                },
                None => {},
            }
        }
        proof {
            assert(all.take(done) =~= all);
        }
        emissions
    }
}

/// The name of the event that announces a change of the on-air programs of a service.
pub open spec fn onair_event_name() -> Seq<char> {
    "onair.program-changed"@
}

/// What a tracker does with the event source of the other server.
#[derive(Clone, Copy, Debug, PartialEq, Eq, Structural)]
pub enum TrackerState {
    /// It waits for the next event.
    Listening,
    /// It parses the data of a message.
    Parsing,
    /// It fetches the on-air programs of a service.
    Fetching,
    /// The event source has ended.
    Finished,
}

/// What happened to a tracker.
pub enum TrackerEvent {
    /// The event source has been opened.
    Opened,
    /// A message came from the event source.
    Message { event: String, data: String },
    /// The event source failed.
    Failed,
    /// The event source has ended.
    Ended,
    /// The data of a message names a service, or it cannot be parsed.
    Parsed(Option<MirakurunServiceId>),
    /// The on-air programs came, or they cannot be fetched.
    Fetched(Option<WebOnairProgram>),
}

/// What a tracker has to do next.
pub enum TrackerAction {
    /// Wait for the next event of the event source.
    Listen,
    /// Parse the data of a message.
    Parse(String),
    /// Fetch the on-air programs of a service.
    Fetch(MirakurunServiceId),
    /// Announce on-air programs if they are followed, and wait for the next event.
    Emit(WebOnairProgram),
    /// Close the event source, and wait for its end.
    Close,
    /// Nothing is left to do.
    Finish,
}

impl TrackerState {
    /// An event that can happen in this state.
    pub open spec fn expects(self, event: TrackerEvent) -> bool {
        match self {
            TrackerState::Listening => event is Opened || event is Message || event is Failed
                || event is Ended,
            TrackerState::Parsing => event is Parsed,
            TrackerState::Fetching => event is Fetched,
            TrackerState::Finished => false,
        }
    }

    /// The state that follows an event.
    pub open spec fn after(self, event: TrackerEvent) -> TrackerState {
        match event {
            TrackerEvent::Opened => TrackerState::Listening,
            TrackerEvent::Message { event, .. } => if event@ == onair_event_name() {
                TrackerState::Parsing
            } else {
                TrackerState::Listening
            },
            TrackerEvent::Failed => TrackerState::Listening,
            TrackerEvent::Ended => TrackerState::Finished,
            TrackerEvent::Parsed(Some(_)) => TrackerState::Fetching,
            TrackerEvent::Parsed(None) => TrackerState::Listening,
            TrackerEvent::Fetched(_) => TrackerState::Listening,
        }
    }

    /// Takes an event in: moves to the state that follows it and tells what to do next.
    pub fn handle(&mut self, event: TrackerEvent) -> (action: TrackerAction)
        requires
            old(self).expects(event),
        ensures
            *final(self) == old(self).after(event),
            action == tracker_action(event),
    {
        match event {
            TrackerEvent::Opened => TrackerAction::Listen,
            TrackerEvent::Message { event, data } => {
                if same_text(event.as_str(), "onair.program-changed") {
                    *self = TrackerState::Parsing;
                    TrackerAction::Parse(data)
                } else {
                    TrackerAction::Listen
                }
            },
            TrackerEvent::Failed => TrackerAction::Close,
            TrackerEvent::Ended => {
                *self = TrackerState::Finished;
                TrackerAction::Finish
            },
            TrackerEvent::Parsed(Some(service_id)) => {
                *self = TrackerState::Fetching;
                TrackerAction::Fetch(service_id)
            },
            TrackerEvent::Parsed(None) => {
                *self = TrackerState::Listening;
                TrackerAction::Listen
            },
            TrackerEvent::Fetched(Some(onair_program)) => {
                *self = TrackerState::Listening;
                TrackerAction::Emit(onair_program)
            },
            TrackerEvent::Fetched(None) => {
                *self = TrackerState::Listening;
                TrackerAction::Listen
            },
        }
    }
}

/// What to do after an event. Messages other than those on changes of on-air programs are
/// ignored, and what cannot be parsed or fetched is skipped.
pub open spec fn tracker_action(event: TrackerEvent) -> TrackerAction {
    match event {
        TrackerEvent::Opened => TrackerAction::Listen,
        TrackerEvent::Message { event, data } => if event@ == onair_event_name() {
            TrackerAction::Parse(data)
        } else {
            TrackerAction::Listen
        },
        TrackerEvent::Failed => TrackerAction::Close,
        TrackerEvent::Ended => TrackerAction::Finish,
        TrackerEvent::Parsed(Some(service_id)) => TrackerAction::Fetch(service_id),
        TrackerEvent::Parsed(None) => TrackerAction::Listen,
        TrackerEvent::Fetched(Some(onair_program)) => TrackerAction::Emit(onair_program),
        TrackerEvent::Fetched(None) => TrackerAction::Listen,
    }
}

/// The events can happen one after another, starting in `state`.
pub open spec fn possible_events(state: TrackerState, events: Seq<TrackerEvent>) -> bool
    decreases events.len(),
{
    events.len() > 0 ==> {
        &&& state.expects(events[0])
        &&& possible_events(state.after(events[0]), events.drop_first())
    }
}

/// On-air programs are announced only on account of a message that announced their change: two
/// events earlier came such a message, and then the service that its data names.
pub proof fn announcements_follow_messages(events: Seq<TrackerEvent>, i: int)
    requires
        possible_events(TrackerState::Listening, events),
        0 <= i < events.len(),
        tracker_action(events[i]) is Emit,
    ensures
        i >= 2,
        events[i - 1] matches TrackerEvent::Parsed(Some(_)),
        events[i - 2] matches TrackerEvent::Message { event, .. } && event@ == onair_event_name(),
{
    lemma_announced(TrackerState::Listening, events, i);
}

proof fn lemma_announced(state: TrackerState, events: Seq<TrackerEvent>, i: int)
    requires
        possible_events(state, events),
        0 <= i < events.len(),
    ensures
        events[i] is Fetched ==> (if i == 0 {
            state is Fetching
        } else {
            events[i - 1] matches TrackerEvent::Parsed(Some(_))
        }),
        events[i] is Parsed ==> (if i == 0 {
            state is Parsing
        } else {
            events[i - 1] matches TrackerEvent::Message { event, .. } && event@
                == onair_event_name()
        }),
        events[i] is Fetched && i >= 1 ==> (if i == 1 {
            state is Parsing
        } else {
            events[i - 2] matches TrackerEvent::Message { event, .. } && event@
                == onair_event_name()
        }),
    decreases events.len(),
{
    if i > 0 {
        let rest = events.drop_first();
        lemma_announced(state.after(events[0]), rest, i - 1);
        assert(rest[i - 1] == events[i]);
        if i >= 2 {
            assert(rest[i - 2] == events[i - 1]);
        }
        if i >= 3 {
            assert(rest[i - 3] == events[i - 2]);
        }
        if i == 1 {
            assert(rest[0] == events[1]);
        }
    }
}

/// A service that is not followed is never announced, and neither is one without programs.
pub proof fn only_followed_programs_are_announced(
    config: RemoteOnairProgramTrackerConfig,
    onair_programs: Seq<WebOnairProgram>,
    k: int,
)
    requires
        0 <= k < emissions_of(config, onair_programs).len(),
    ensures
        exists|i: int|
            0 <= i < onair_programs.len() && config.follows(
                (#[trigger] onair_programs[i]).service_id,
            ) && emission_of(config, onair_programs[i]) == Some(
                emissions_of(config, onair_programs)[k],
            ),
    decreases onair_programs.len(),
{
    let earlier = onair_programs.drop_last();
    if k < emissions_of(config, earlier).len() {
        only_followed_programs_are_announced(config, earlier, k);
        let i = choose|i: int|
            0 <= i < earlier.len() && config.follows((#[trigger] earlier[i]).service_id)
                && emission_of(config, earlier[i]) == Some(emissions_of(config, earlier)[k]);
        assert(onair_programs[i] == earlier[i]);
    } else {
        assert(onair_programs[onair_programs.len() - 1] == onair_programs.last());
    }
}

/// Every followed service with a program is announced when the tracker starts.
pub proof fn all_followed_programs_are_announced(
    config: RemoteOnairProgramTrackerConfig,
    onair_programs: Seq<WebOnairProgram>,
    i: int,
)
    requires
        0 <= i < onair_programs.len(),
        config.follows(onair_programs[i].service_id),
        !onair_programs[i].spec_is_empty(),
    ensures
        exists|k: int|
            0 <= k < emissions_of(config, onair_programs).len() && emission_of(
                config,
                onair_programs[i],
            ) == Some(#[trigger] emissions_of(config, onair_programs)[k]),
    decreases onair_programs.len(),
{
    let earlier = onair_programs.drop_last();
    let emissions = emissions_of(config, onair_programs);
    if i < onair_programs.len() - 1 {
        assert(earlier[i] == onair_programs[i]);
        all_followed_programs_are_announced(config, earlier, i);
        let k = choose|k: int|
            0 <= k < emissions_of(config, earlier).len() && emission_of(config, earlier[i]) == Some(
                #[trigger] emissions_of(config, earlier)[k],
            );
        assert(emissions[k] == emissions_of(config, earlier)[k]);
    } else {
        assert(emissions[emissions.len() - 1] == emissions.last());
    }
}

/// The state after all the events.
pub open spec fn state_after_events(state: TrackerState, events: Seq<TrackerEvent>) -> TrackerState
    decreases events.len(),
{
    if events.len() == 0 {
        state
    } else {
        state_after_events(state.after(events[0]), events.drop_first())
    }
}

/// The on-air programs that are handed on to be announced, in order.
pub open spec fn handed_on(events: Seq<TrackerEvent>) -> Seq<WebOnairProgram>
    decreases events.len(),
{
    if events.len() == 0 {
        Seq::empty()
    } else {
        let rest = handed_on(events.drop_first());
        match tracker_action(events[0]) {
            TrackerAction::Emit(onair_program) => seq![onair_program] + rest,
            _ => rest,
        }
    }
}

/// The events of a message that is taken in and leads to nothing: its data cannot be parsed, or the
/// on-air programs of the service that it names cannot be fetched.
pub open spec fn failed_message(events: Seq<TrackerEvent>) -> bool {
    &&& events.len() == 2 || events.len() == 3
    &&& events[0] matches TrackerEvent::Message { event, .. } && event@ == onair_event_name()
    &&& if events.len() == 2 {
        events[1] matches TrackerEvent::Parsed(None)
    } else {
        (events[1] matches TrackerEvent::Parsed(Some(_))) && (events[2]
            matches TrackerEvent::Fetched(None))
    }
}

/// A message that cannot be parsed or fetched changes no announcement: the tracker goes on as if it
/// had not come.
pub proof fn failed_messages_change_no_announcement(
    before: Seq<TrackerEvent>,
    failed: Seq<TrackerEvent>,
    after: Seq<TrackerEvent>,
)
    requires
        possible_events(TrackerState::Listening, before + failed + after),
        failed_message(failed),
    ensures
        possible_events(TrackerState::Listening, before + after),
        handed_on(before + failed + after) == handed_on(before + after),
        state_after_events(TrackerState::Listening, before + failed + after) == state_after_events(
            TrackerState::Listening,
            before + after,
        ),
{
    lemma_failed_message(TrackerState::Listening, before, failed, after);
}

proof fn lemma_failed_message(
    state: TrackerState,
    before: Seq<TrackerEvent>,
    failed: Seq<TrackerEvent>,
    after: Seq<TrackerEvent>,
)
    requires
        possible_events(state, before + failed + after),
        failed_message(failed),
    ensures
        possible_events(state, before + after),
        handed_on(before + failed + after) == handed_on(before + after),
        state_after_events(state, before + failed + after) == state_after_events(
            state,
            before + after,
        ),
    decreases before.len(),
{
    let all = before + failed + after;
    if before.len() == 0 {
        reveal_with_fuel(possible_events, 4);
        reveal_with_fuel(handed_on, 4);
        reveal_with_fuel(state_after_events, 4);
        assert(before + after =~= after);
        let rest1 = all.drop_first();
        let rest2 = rest1.drop_first();
        assert(all[0] == failed[0]);
        assert(rest1[0] == failed[1]);
        if failed.len() == 2 {
            assert(rest2 =~= after);
        } else {
            assert(rest2[0] == failed[2]);
            assert(rest2.drop_first() =~= after);
        }
        assert(state is Listening);
    } else {
        assert(all.drop_first() =~= before.drop_first() + failed + after);
        assert((before + after).drop_first() =~= before.drop_first() + after);
        assert(all[0] == before[0] && (before + after)[0] == before[0]);
        lemma_failed_message(state.after(before[0]), before.drop_first(), failed, after);
    }
}

/// What the web API tells of a program is kept, whether or not the guide knows the program. The
/// video, the audios, the series and the event group are those of the guide, or missing if the guide
/// does not know the program.
pub proof fn conversion_keeps_what_the_web_api_tells(
    program: MirakurunProgram,
    guide: Option<EpgProgram>,
)
    ensures
        converted(None, guide) is None,
        converted(Some(program), guide) matches Some(result) && {
            &&& result.quad.nid == program.network_id
            &&& result.quad.tsid == program.transport_stream_id
            &&& result.quad.sid == program.service_id
            &&& result.quad.eid == program.event_id
            &&& result.start_at == program.start_at
            &&& result.duration == program.duration
            &&& result.scrambled <==> !program.is_free
            &&& result.name == program.name
            &&& result.description == program.description
            &&& result.extended == program.extended
            &&& result.genres == program.genres
            &&& guide is None ==> result.video is None && result.audios is None && result.series
                is None && result.event_group is None
            &&& guide matches Some(guide) ==> result.video == guide.video && result.audios
                == guide.audios && result.series == guide.series && result.event_group
                == guide.event_group
        },
{
}

/// Conversions of a program with different guides differ in nothing but the video, the audios, the
/// series and the event group.
pub proof fn guide_changes_its_own_properties_alone(
    program: MirakurunProgram,
    guide1: Option<EpgProgram>,
    guide2: Option<EpgProgram>,
)
    ensures
        ({
            let a = converted(Some(program), guide1)->0;
            let b = converted(Some(program), guide2)->0;
            *a == (EpgProgram {
                video: a.video,
                audios: a.audios,
                series: a.series,
                event_group: a.event_group,
                ..*b
            })
        }),
{
}

/// On-air programs are announced exactly if their service is followed and there is a program. The
/// service is that of the current program, or of the next one without a current program, and the
/// programs are announced as they are.
pub proof fn announcement_is_of_the_programs(
    config: RemoteOnairProgramTrackerConfig,
    onair_program: WebOnairProgram,
)
    ensures
        emission_of(config, onair_program) is Some <==> config.follows(onair_program.service_id)
            && (onair_program.current is Some || onair_program.next is Some),
        emission_of(config, onair_program) matches Some(emission) ==> {
            &&& emission.current == onair_program.current
            &&& emission.next == onair_program.next
            &&& {
                let program = match onair_program.current {
                    Some(program) => program,
                    None => onair_program.next->0,
                };
                &&& emission.service_triple.nid == program.network_id
                &&& emission.service_triple.tsid == program.transport_stream_id
                &&& emission.service_triple.sid == program.service_id
            }
        },
        onair_program.spec_is_empty() <==> onair_program.current is None && onair_program.next
            is None,
{
}

/// The guide is asked for the event of a program.
pub proof fn guide_is_asked_for_the_event(program: MirakurunProgram)
    ensures
        asked_quad(None) is None,
        asked_quad(Some(program)) matches Some(quad) && quad.nid == program.network_id && quad.tsid
            == program.transport_stream_id && quad.sid == program.service_id && quad.eid
            == program.event_id,
{
}

/// The programs that are announced at the start come one after another, each on its own account:
/// those of two lists in a row are those of the first and then those of the second.
pub proof fn programs_are_announced_in_order(
    config: RemoteOnairProgramTrackerConfig,
    first: Seq<WebOnairProgram>,
    second: Seq<WebOnairProgram>,
    onair_program: WebOnairProgram,
)
    ensures
        emissions_of(config, first + second) == emissions_of(config, first) + emissions_of(
            config,
            second,
        ),
        emissions_of(config, seq![onair_program]) == match emission_of(config, onair_program) {
            Some(emission) => seq![emission],
            None => Seq::empty(),
        },
    decreases second.len(),
{
    let one = seq![onair_program];
    assert(one.drop_last() =~= Seq::empty());
    assert(emissions_of(config, one.drop_last()) =~= Seq::<Emission>::empty());
    if second.len() == 0 {
        assert(first + second =~= first);
        assert(emissions_of(config, first) + emissions_of(config, second) =~= emissions_of(
            config,
            first,
        ));
    } else {
        let rest = second.drop_last();
        programs_are_announced_in_order(config, first, rest, onair_program);
        assert((first + second).drop_last() =~= first + rest);
        assert((first + second).last() == second.last());
        assert(emissions_of(config, first + second) =~= emissions_of(config, first) + emissions_of(
            config,
            second,
        ));
    }
}

/// Texts differ unless both are missing or both hold the same characters.
pub proof fn texts_differ_unless_the_same(a: Option<String>, b: Option<String>)
    ensures
        texts_differ(a, b) == texts_differ(b, a),
        !texts_differ(a, b) <==> (a is None && b is None) || (a matches Some(x) && b matches Some(y)
            && x@ == y@),
{
}

/// A tracker parses the data of a message on a change, fetches the service that it names, and hands
/// on the programs that were fetched, all as they are. It ignores every other message, waits on
/// after anything that fails, and ends when the event source ends. A failed event source is closed.
pub proof fn tracker_acts_on_what_it_gets(
    state: TrackerState,
    event: String,
    data: String,
    service_id: MirakurunServiceId,
    onair_program: WebOnairProgram,
)
    ensures
        ({
            let message = TrackerEvent::Message { event, data };
            if event@ == "onair.program-changed"@ {
                tracker_action(message) == TrackerAction::Parse(data) && state.after(message)
                    is Parsing
            } else {
                tracker_action(message) is Listen && state.after(message) is Listening
            }
        }),
        tracker_action(TrackerEvent::Parsed(Some(service_id))) == TrackerAction::Fetch(service_id),
        state.after(TrackerEvent::Parsed(Some(service_id))) is Fetching,
        tracker_action(TrackerEvent::Fetched(Some(onair_program))) == TrackerAction::Emit(
            onair_program,
        ),
        state.after(TrackerEvent::Fetched(Some(onair_program))) is Listening,
        tracker_action(TrackerEvent::Parsed(None)) is Listen,
        state.after(TrackerEvent::Parsed(None)) is Listening,
        tracker_action(TrackerEvent::Fetched(None)) is Listen,
        state.after(TrackerEvent::Fetched(None)) is Listening,
        tracker_action(TrackerEvent::Opened) is Listen,
        state.after(TrackerEvent::Opened) is Listening,
        tracker_action(TrackerEvent::Failed) is Close,
        state.after(TrackerEvent::Failed) is Listening,
        tracker_action(TrackerEvent::Ended) is Finish,
        state.after(TrackerEvent::Ended) is Finished,
{
}

/// The identifier of an announced service holds the network and the service of its triple.
pub proof fn announced_service_is_that_of_the_triple(change: OnairProgramChanged)
    ensures
        change.spec_service_id().value == change.service_triple.nid * 100_000
            + change.service_triple.sid,
{
}

/// An announcement names the service, and tells of the current program and of the next one what the
/// web API tells of each, supplemented by what the guide knows of that very program.
pub proof fn announcement_tells_of_each_program_its_own(
    emission: Emission,
    current: Option<EpgProgram>,
    next: Option<EpgProgram>,
    change: OnairProgramChanged,
)
    requires
        call_ensures(Emission::complete, (emission, current, next), change),
    ensures
        change.service_triple == emission.service_triple,
        change.current is Some <==> emission.current is Some,
        change.next is Some <==> emission.next is Some,
        change.current matches Some(program) ==> {
            &&& program.name == emission.current->0.name
            &&& program.start_at == emission.current->0.start_at
            &&& program.quad.eid == emission.current->0.event_id
            &&& program.video == match current {
                Some(guide) => guide.video,
                None => None,
            }
        },
        change.next matches Some(program) ==> {
            &&& program.name == emission.next->0.name
            &&& program.start_at == emission.next->0.start_at
            &&& program.quad.eid == emission.next->0.event_id
            &&& program.video == match next {
                Some(guide) => guide.video,
                None => None,
            }
        },
{
}

/// The properties that are lost are those in which the web API and the guide differ, each on its own
/// account. The audios are one property, whether they differ in the main one or in the list.
pub proof fn lost_properties_are_those_that_differ(
    program: MirakurunProgram,
    check: MirakurunProgram,
    lost: LostProperties,
)
    requires
        call_ensures(lost_properties, (&program, &check), lost),
    ensures
        lost.video <==> texts_differ(program.video, check.video),
        lost.audios <==> texts_differ(program.audio, check.audio) || texts_differ(
            program.audios,
            check.audios,
        ),
        lost.series <==> texts_differ(program.series, check.series),
        lost.event_group <==> texts_differ(program.related_items, check.related_items),
{
}

/// A tracker is made of what it is given, and decides with its own configuration.
pub proof fn tracker_decides_with_its_configuration<E, M>(
    name: String,
    config: Arc<RemoteOnairProgramTrackerConfig>,
    epg: E,
    emitter: M,
    tracker: RemoteTracker<E, M>,
    onair_program: WebOnairProgram,
    emission: Option<Emission>,
)
    requires
        call_ensures(RemoteTracker::<E, M>::new, (name, config, epg, emitter), tracker),
        call_ensures(Inner::<E, M>::emission, (&*tracker.0, onair_program), emission),
    ensures
        tracker.0.name == name,
        tracker.0.config == config,
        tracker.0.epg == epg,
        tracker.0.emitter == emitter,
        emission is Some <==> config.follows(onair_program.service_id) && (onair_program.current
            is Some || onair_program.next is Some),
        emission matches Some(emission) ==> emission.current == onair_program.current
            && emission.next == onair_program.next,
{
}

/// A tracker that takes an event in parses the data of messages on changes alone, fetches the service
/// that was parsed, and hands on what was fetched.
pub proof fn tracker_follows_changes_alone(
    state: &mut TrackerState,
    event: TrackerEvent,
    action: TrackerAction,
)
    requires
        old(state).expects(event),
        call_ensures(TrackerState::handle, (state, event), action),
    ensures
        event matches TrackerEvent::Message { event, data } ==> if event@
            == "onair.program-changed"@ {
            action == TrackerAction::Parse(data) && *final(state) is Parsing
        } else {
            action is Listen && *final(state) is Listening
        },
        event matches TrackerEvent::Parsed(Some(id)) ==> action == TrackerAction::Fetch(id)
            && *final(state) is Fetching,
        event matches TrackerEvent::Fetched(Some(onair_program)) ==> action == TrackerAction::Emit(
            onair_program,
        ) && *final(state) is Listening,
        event matches TrackerEvent::Parsed(None) ==> action is Listen && *final(state)
            is Listening,
        event matches TrackerEvent::Fetched(None) ==> action is Listen && *final(state)
            is Listening,
        event is Opened ==> action is Listen && *final(state) is Listening,
        event is Failed ==> action is Close && *final(state) is Listening,
        event is Ended ==> action is Finish && *final(state) is Finished,
{
}

/// A converted program tells what the web API tells, whether or not the guide knows the program, and
/// has its video, audios, series and event group from the guide.
pub proof fn converted_program_tells_what_the_web_api_tells(
    program: MirakurunProgram,
    guide: Option<EpgProgram>,
    result: Option<Arc<EpgProgram>>,
)
    requires
        call_ensures(convert_program, (Some(program), guide), result),
    ensures
        result matches Some(result) && {
            &&& result.quad.nid == program.network_id
            &&& result.quad.tsid == program.transport_stream_id
            &&& result.quad.sid == program.service_id
            &&& result.quad.eid == program.event_id
            &&& result.start_at == program.start_at
            &&& result.duration == program.duration
            &&& result.scrambled <==> !program.is_free
            &&& result.name == program.name
            &&& result.description == program.description
            &&& result.extended == program.extended
            &&& result.genres == program.genres
            &&& guide is None ==> result.video is None && result.audios is None && result.series
                is None && result.event_group is None
            &&& guide matches Some(guide) ==> result.video == guide.video && result.audios
                == guide.audios && result.series == guide.series && result.event_group
                == guide.event_group
        },
{
    conversion_keeps_what_the_web_api_tells(program, guide);
}

/// The guide is asked for the two programs of an announcement, each by its own event.
pub proof fn guide_is_asked_for_each_program(
    emission: Emission,
    current: Option<EventQuad>,
    next: Option<EventQuad>,
)
    requires
        call_ensures(Emission::current_quad, (&emission,), current),
        call_ensures(Emission::next_quad, (&emission,), next),
    ensures
        current is Some <==> emission.current is Some,
        next is Some <==> emission.next is Some,
        current matches Some(quad) ==> quad.nid == emission.current->0.network_id && quad.tsid
            == emission.current->0.transport_stream_id && quad.sid
            == emission.current->0.service_id && quad.eid == emission.current->0.event_id,
        next matches Some(quad) ==> quad.nid == emission.next->0.network_id && quad.tsid
            == emission.next->0.transport_stream_id && quad.sid == emission.next->0.service_id
            && quad.eid == emission.next->0.event_id,
{
}

/// What a tracker announces at its start is what each of the programs calls for, in their order.
pub proof fn tracker_starts_with_what_is_on_air<E, M>(
    tracker: Inner<E, M>,
    onair_programs: Vec<WebOnairProgram>,
    emissions: Vec<Emission>,
    i: int,
)
    requires
        call_ensures(Inner::<E, M>::initial_emissions, (&tracker, onair_programs), emissions),
    ensures
        0 <= i < emissions@.len() ==> exists|k: int|
            0 <= k < onair_programs@.len() && tracker.config.follows(
                (#[trigger] onair_programs@[k]).service_id,
            ) && emissions@[i].current == onair_programs@[k].current && emissions@[i].next
                == onair_programs@[k].next,
        0 <= i < onair_programs@.len() && tracker.config.follows(onair_programs@[i].service_id) && (
        onair_programs@[i].current is Some || onair_programs@[i].next is Some) ==> exists|k: int|
            0 <= k < emissions@.len() && (#[trigger] emissions@[k]).current
                == onair_programs@[i].current && emissions@[k].next == onair_programs@[i].next,
{
    let config = *tracker.config;
    if 0 <= i < emissions@.len() {
        only_followed_programs_are_announced(config, onair_programs@, i);
    }
    if 0 <= i < onair_programs@.len() && config.follows(onair_programs@[i].service_id) && (
    onair_programs@[i].current is Some || onair_programs@[i].next is Some) {
        all_followed_programs_are_announced(config, onair_programs@, i);
    }
}

} // verus!
