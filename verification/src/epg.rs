//! Services and programs of the electronic program guide.

use crate::models::{ChannelType, EventQuad, ServiceTriple};
use crate::time::JstTime;
use vstd::prelude::*;

verus! {

/// A channel to tune to.
#[derive(Debug)]
pub struct EpgChannel {
    pub name: String,
    pub channel_type: ChannelType,
    pub channel: String,
    pub extra_args: String,
    pub services: Vec<u16>,
    pub excluded_services: Vec<u16>,
}

/// What a channel is made of.
#[verifier::ext_equal]
pub struct EpgChannelView {
    pub name: Seq<char>,
    pub channel_type: ChannelType,
    pub channel: Seq<char>,
    pub extra_args: Seq<char>,
    pub services: Seq<u16>,
    pub excluded_services: Seq<u16>,
}

impl View for EpgChannel {
    type V = EpgChannelView;

    open spec fn view(&self) -> EpgChannelView {
        EpgChannelView {
            name: self.name@,
            channel_type: self.channel_type,
            channel: self.channel@,
            extra_args: self.extra_args@,
            services: self.services@,
            excluded_services: self.excluded_services@,
        }
    }
}

impl Clone for EpgChannel {
    fn clone(&self) -> (channel: EpgChannel)
        ensures
            channel@ == self@,
    {
        EpgChannel {
            name: self.name.clone(),
            channel_type: self.channel_type,
            channel: self.channel.clone(),
            extra_args: self.extra_args.clone(),
            services: copied_list(&self.services),
            excluded_services: copied_list(&self.excluded_services),
        }
    }
}

/// A broadcast service and the channel that carries it.
#[derive(Debug)]
pub struct EpgService {
    pub nid: u16,
    pub tsid: u16,
    pub sid: u16,
    pub service_type: u16,
    pub logo_id: i16,
    pub remote_control_key_id: u16,
    pub name: String,
    pub channel: EpgChannel,
}

/// What a service is made of.
#[verifier::ext_equal]
pub struct EpgServiceView {
    pub nid: u16,
    pub tsid: u16,
    pub sid: u16,
    pub service_type: u16,
    pub logo_id: i16,
    pub remote_control_key_id: u16,
    pub name: Seq<char>,
    pub channel: EpgChannelView,
}

impl View for EpgService {
    type V = EpgServiceView;

    open spec fn view(&self) -> EpgServiceView {
        EpgServiceView {
            nid: self.nid,
            tsid: self.tsid,
            sid: self.sid,
            service_type: self.service_type,
            logo_id: self.logo_id,
            remote_control_key_id: self.remote_control_key_id,
            name: self.name@,
            channel: self.channel@,
        }
    }
}

impl Clone for EpgService {
    fn clone(&self) -> (service: EpgService)
        ensures
            service@ == self@,
    {
        EpgService {
            nid: self.nid,
            tsid: self.tsid,
            sid: self.sid,
            service_type: self.service_type,
            logo_id: self.logo_id,
            remote_control_key_id: self.remote_control_key_id,
            name: self.name.clone(),
            channel: self.channel.clone(),
        }
    }
}

/// The services that are available, each under its triple.
pub struct EpgServices {
    pub entries: Vec<(ServiceTriple, EpgService)>,
}

/// The service listed under a triple: the first one, if there are several.
pub open spec fn service_of(
    entries: Seq<(ServiceTriple, EpgService)>,
    triple: ServiceTriple,
) -> Option<EpgServiceView>
    decreases entries.len(),
{
    if entries.len() == 0 {
        None
    } else if entries[0].0 == triple {
        Some(entries[0].1@)
    } else {
        service_of(entries.drop_first(), triple)
    }
}

impl EpgServices {
    /// The service that is available under a triple, if any.
    pub open spec fn service(self, triple: ServiceTriple) -> Option<EpgServiceView> {
        service_of(self.entries@, triple)
    }

    /// Finds the service that is available under a triple.
    pub fn get(&self, triple: ServiceTriple) -> (service: Option<&EpgService>)
        ensures
            match service {
                Some(found) => self.service(triple) == Some(found@),
                None => self.service(triple) is None,
            },
    {
        let mut i: usize = 0;
        proof {
            assert(self.entries@.skip(0) =~= self.entries@);
        }
        while i < self.entries.len()
            invariant
                i <= self.entries.len(),
                service_of(self.entries@.skip(i as int), triple) == self.service(triple),
            decreases self.entries.len() - i,
        {
            proof {
                assert(self.entries@.skip(i as int).drop_first() =~= self.entries@.skip(i + 1));
            }
            if self.entries[i].0 == triple {
                return Some(&self.entries[i].1);
            }
            i += 1;
        }
        None
    }
}

/// The genre of a program.
#[derive(Clone, Copy, Debug, PartialEq, Eq, Structural)]
pub struct EpgGenre {
    pub lv1: u8,
    pub lv2: u8,
    pub un1: u8,
    pub un2: u8,
}

/// The video component of a program.
#[derive(Clone, Copy, Debug, PartialEq, Eq, Structural)]
pub struct EpgVideoInfo {
    pub stream_content: u8,
    pub component_type: u8,
}

/// An audio component of a program.
#[derive(Clone, Copy, Debug, PartialEq, Eq, Structural)]
pub struct EpgAudioInfo {
    pub component_type: u8,
    pub component_tag: u8,
    pub is_main: bool,
    pub sampling_rate: u32,
}

/// The series that a program belongs to.
#[derive(Clone, Copy, Debug, PartialEq, Eq, Structural)]
pub struct EpgSeriesInfo {
    pub series_id: u16,
    pub repeat_label: u8,
    pub program_pattern: u8,
    pub episode_number: u16,
    pub last_episode_number: u16,
}

/// The events that a program shares, relays or moves.
#[derive(Debug)]
pub struct EpgEventGroup {
    pub group_type: u8,
    pub events: Vec<EventQuad>,
}

/// A program of the guide.
#[derive(Debug)]
pub struct EpgProgram {
    pub quad: EventQuad,
    pub start_at: Option<JstTime>,
    /// The duration in milliseconds.
    pub duration: Option<i64>,
    pub scrambled: bool,
    pub name: Option<String>,
    pub description: Option<String>,
    /// The further items of the description, in the order in which they are broadcast.
    pub extended: Option<Vec<(String, String)>>,
    pub genres: Option<Vec<EpgGenre>>,
    pub video: Option<EpgVideoInfo>,
    pub audios: Option<Vec<EpgAudioInfo>>,
    pub series: Option<EpgSeriesInfo>,
    pub event_group: Option<EpgEventGroup>,
}

/// What a program is made of.
#[verifier::ext_equal]
pub struct EpgProgramView {
    pub quad: EventQuad,
    pub start_at: Option<JstTime>,
    pub duration: Option<i64>,
    pub scrambled: bool,
    pub name: Option<Seq<char>>,
    pub description: Option<Seq<char>>,
    pub extended: Option<Seq<(Seq<char>, Seq<char>)>>,
    pub genres: Option<Seq<EpgGenre>>,
    pub video: Option<EpgVideoInfo>,
    pub audios: Option<Seq<EpgAudioInfo>>,
    pub series: Option<EpgSeriesInfo>,
    pub event_group: Option<(u8, Seq<EventQuad>)>,
}

/// The characters of a text that may be missing.
pub open spec fn text_view(text: Option<String>) -> Option<Seq<char>> {
    match text {
        Some(text) => Some(text@),
        None => None,
    }
}

/// The elements of a list that may be missing.
pub open spec fn list_view<A>(list: Option<Vec<A>>) -> Option<Seq<A>> {
    match list {
        Some(list) => Some(list@),
        None => None,
    }
}

/// The characters of the items of an extended description.
pub open spec fn items_view(items: Seq<(String, String)>) -> Seq<(Seq<char>, Seq<char>)> {
    items.map_values(|item: (String, String)| (item.0@, item.1@))
}

impl View for EpgProgram {
    type V = EpgProgramView;

    open spec fn view(&self) -> EpgProgramView {
        EpgProgramView {
            quad: self.quad,
            start_at: self.start_at,
            duration: self.duration,
            scrambled: self.scrambled,
            name: text_view(self.name),
            description: text_view(self.description),
            extended: match self.extended {
                Some(items) => Some(items_view(items@)),
                None => None,
            },
            genres: list_view(self.genres),
            video: self.video,
            audios: list_view(self.audios),
            series: self.series,
            event_group: match self.event_group {
                Some(group) => Some((group.group_type, group.events@)),
                None => None,
            },
        }
    }
}

fn copied_list<A: Copy>(list: &Vec<A>) -> (copy: Vec<A>)
    ensures
        copy@ == list@,
{
    let mut copy: Vec<A> = Vec::new();
    let mut i: usize = 0;
    while i < list.len()
        invariant
            i <= list.len(),
            copy@ == list@.take(i as int),
        decreases list.len() - i,
    {
        copy.push(list[i]);
        i += 1;
        proof {
            assert(list@.take(i as int) =~= list@.take(i - 1).push(list@[i - 1]));
        }
    }
    proof {
        assert(list@.take(i as int) =~= list@);
    }
    copy
}

fn copied_text(text: &Option<String>) -> (copy: Option<String>)
    ensures
        text_view(copy) == text_view(*text),
{
    match text {
        Some(text) => Some(text.clone()),
        None => None,
    }
}

fn copied_items(items: &Vec<(String, String)>) -> (copy: Vec<(String, String)>)
    ensures
        items_view(copy@) == items_view(items@),
{
    let mut copy: Vec<(String, String)> = Vec::new();
    let mut i: usize = 0;
    while i < items.len()
        invariant
            i <= items.len(),
            copy@.len() == i,
            forall|j: int|
                0 <= j < i ==> (#[trigger] copy@[j]).0@ == items@[j].0@ && copy@[j].1@
                    == items@[j].1@,
        decreases items.len() - i,
    {
        copy.push((items[i].0.clone(), items[i].1.clone()));
        i += 1;
    }
    proof {
        assert(items_view(copy@) =~= items_view(items@));
    }
    copy
}

impl Clone for EpgProgram {
    fn clone(&self) -> (program: EpgProgram)
        ensures
            program@ == self@,
    {
        EpgProgram {
            quad: self.quad,
            start_at: self.start_at,
            duration: self.duration,
            scrambled: self.scrambled,
            name: copied_text(&self.name),
            description: copied_text(&self.description),
            extended: match &self.extended {
                Some(items) => Some(copied_items(items)),
                None => None,
            },
            genres: match &self.genres {
                Some(genres) => Some(copied_list(genres)),
                None => None,
            },
            video: self.video,
            audios: match &self.audios {
                Some(audios) => Some(copied_list(audios)),
                None => None,
            },
            series: self.series,
            event_group: match &self.event_group {
                Some(group) => Some(
                    EpgEventGroup {
                        group_type: group.group_type,
                        events: copied_list(&group.events),
                    },
                ),
                None => None,
            },
        }
    }
}

/// An event of the event information table, as it is broadcast with a service.
#[derive(Debug)]
pub struct EitEvent {
    pub event_id: u16,
    pub start_at: Option<JstTime>,
    /// The duration in milliseconds.
    pub duration: Option<i64>,
    pub scrambled: bool,
    pub name: Option<String>,
    pub description: Option<String>,
    pub extended: Option<Vec<(String, String)>>,
    pub genres: Option<Vec<EpgGenre>>,
    pub video: Option<EpgVideoInfo>,
    pub audios: Option<Vec<EpgAudioInfo>>,
    pub series: Option<EpgSeriesInfo>,
    pub event_group: Option<EpgEventGroup>,
}

/// A program of which only the event is known.
pub open spec fn empty_program(quad: EventQuad) -> EpgProgram {
    EpgProgram {
        quad,
        start_at: None,
        duration: None,
        scrambled: false,
        name: None,
        description: None,
        extended: None,
        genres: None,
        video: None,
        audios: None,
        series: None,
        event_group: None,
    }
}

/// The program that an event describes.
pub open spec fn program_of_event(quad: EventQuad, event: EitEvent) -> EpgProgram {
    EpgProgram {
        quad,
        start_at: event.start_at,
        duration: event.duration,
        scrambled: event.scrambled,
        name: event.name,
        description: event.description,
        extended: event.extended,
        genres: event.genres,
        video: event.video,
        audios: event.audios,
        series: event.series,
        event_group: event.event_group,
    }
}

impl EpgProgram {
    /// A program of which only the event is known.
    pub fn new(quad: EventQuad) -> (program: EpgProgram)
        ensures
            program == empty_program(quad),
    {
        EpgProgram {
            quad,
            start_at: None,
            duration: None,
            scrambled: false,
            name: None,
            description: None,
            extended: None,
            genres: None,
            video: None,
            audios: None,
            series: None,
            event_group: None,
        }
    }

    /// Replaces what is known of the program by what an event tells of it.
    pub fn update(&mut self, event: EitEvent)
        ensures
            *final(self) == program_of_event(old(self).quad, event),
    {
        self.start_at = event.start_at;
        self.duration = event.duration;
        self.scrambled = event.scrambled;
        self.name = event.name;
        self.description = event.description;
        self.extended = event.extended;
        self.genres = event.genres;
        self.video = event.video;
        self.audios = event.audios;
        self.series = event.series;
        self.event_group = event.event_group;
    }
}

/// The text is the same: both are missing, or both hold the same characters.
pub open spec fn same_optional_text(a: Option<String>, b: Option<String>) -> bool {
    match (a, b) {
        (Some(a), Some(b)) => a@ == b@,
        (None, None) => true,
        _ => false,
    }
}

/// The list is the same: both are missing, or both hold the same elements.
pub open spec fn same_optional_list<A>(a: Option<Vec<A>>, b: Option<Vec<A>>) -> bool {
    match (a, b) {
        (Some(a), Some(b)) => a@ == b@,
        (None, None) => true,
        _ => false,
    }
}

/// What a channel is made of leaves nothing out: two channels that agree in it agree in all.
pub proof fn channel_view_leaves_nothing_out(a: EpgChannel, b: EpgChannel)
    requires
        a@ == b@,
    ensures
        a.name@ == b.name@,
        a.channel_type == b.channel_type,
        a.channel@ == b.channel@,
        a.extra_args@ == b.extra_args@,
        a.services@ == b.services@,
        a.excluded_services@ == b.excluded_services@,
{
}

/// What a service is made of leaves nothing out.
pub proof fn service_view_leaves_nothing_out(a: EpgService, b: EpgService)
    requires
        a@ == b@,
    ensures
        a.nid == b.nid,
        a.tsid == b.tsid,
        a.sid == b.sid,
        a.service_type == b.service_type,
        a.logo_id == b.logo_id,
        a.remote_control_key_id == b.remote_control_key_id,
        a.name@ == b.name@,
        a.channel@ == b.channel@,
        a@.nid == a.nid && a@.tsid == a.tsid && a@.sid == a.sid,
        a@.name == a.name@ && a@.channel == a.channel@,
        a@.channel.name == a.channel.name@ && a@.channel.channel == a.channel.channel@,
        a@.channel.channel_type == a.channel.channel_type,
{
}

/// What a program is made of leaves nothing out.
pub proof fn program_view_leaves_nothing_out(a: EpgProgram, b: EpgProgram)
    requires
        a@ == b@,
    ensures
        a.quad == b.quad,
        a.start_at == b.start_at,
        a.duration == b.duration,
        a.scrambled == b.scrambled,
        same_optional_text(a.name, b.name),
        same_optional_text(a.description, b.description),
        match (a.extended, b.extended) {
            (Some(a), Some(b)) => a@.len() == b@.len() && forall|i: int|
                0 <= i < a@.len() ==> (#[trigger] a@[i]).0@ == b@[i].0@ && a@[i].1@ == b@[i].1@,
            (None, None) => true,
            _ => false,
        },
        same_optional_list(a.genres, b.genres),
        a.video == b.video,
        same_optional_list(a.audios, b.audios),
        a.series == b.series,
        match (a.event_group, b.event_group) {
            (Some(a), Some(b)) => a.group_type == b.group_type && a.events@ == b.events@,
            (None, None) => true,
            _ => false,
        },
{
    if let (Some(x), Some(y)) = (a.extended, b.extended) {
        assert(items_view(x@) == items_view(y@));
        assert(items_view(x@).len() == x@.len() && items_view(y@).len() == y@.len());
        assert forall|i: int| 0 <= i < x@.len() implies (#[trigger] x@[i]).0@ == y@[i].0@
            && x@[i].1@ == y@[i].1@ by {
            assert(items_view(x@)[i] == items_view(y@)[i]);
        }
    }
}

/// A program tells of an event all that is broadcast of it, and nothing else.
pub proof fn program_tells_what_is_broadcast(quad: EventQuad, event: EitEvent)
    ensures
        ({
            let program = program_of_event(quad, event);
            &&& program.quad == quad
            &&& program.start_at == event.start_at
            &&& program.duration == event.duration
            &&& program.scrambled == event.scrambled
            &&& program.name == event.name
            &&& program.description == event.description
            &&& program.extended == event.extended
            &&& program.genres == event.genres
            &&& program.video == event.video
            &&& program.audios == event.audios
            &&& program.series == event.series
            &&& program.event_group == event.event_group
        }),
        ({
            let program = empty_program(quad);
            &&& program.quad == quad
            &&& program.start_at is None && program.duration is None && !program.scrambled
            &&& program.name is None && program.description is None && program.extended is None
            &&& program.genres is None && program.video is None && program.audios is None
            &&& program.series is None && program.event_group is None
        }),
{
}

/// A service that is found is listed under its triple, behind no other of that triple, and none is
/// found only if none is listed.
pub proof fn service_is_found_where_it_is_listed(services: EpgServices, triple: ServiceTriple)
    ensures
        match services.service(triple) {
            Some(service) => exists|i: int|
                0 <= i < services.entries@.len() && (#[trigger] services.entries@[i]).0 == triple
                    && services.entries@[i].1@ == service && forall|j: int|
                    0 <= j < i ==> (#[trigger] services.entries@[j]).0 != triple,
            None => forall|i: int|
                0 <= i < services.entries@.len() ==> (#[trigger] services.entries@[i]).0 != triple,
        },
{
    lemma_service_of(services.entries@, triple);
}

proof fn lemma_service_of(entries: Seq<(ServiceTriple, EpgService)>, triple: ServiceTriple)
    ensures
        match service_of(entries, triple) {
            Some(service) => exists|i: int|
                0 <= i < entries.len() && (#[trigger] entries[i]).0 == triple && entries[i].1@
                    == service && forall|j: int|
                    0 <= j < i ==> (#[trigger] entries[j]).0 != triple,
            None => forall|i: int|
                0 <= i < entries.len() ==> (#[trigger] entries[i]).0 != triple,
        },
    decreases entries.len(),
{
    if entries.len() > 0 && entries[0].0 != triple {
        let rest = entries.drop_first();
        lemma_service_of(rest, triple);
        match service_of(rest, triple) {
            Some(service) => {
                let i = choose|i: int|
                    0 <= i < rest.len() && (#[trigger] rest[i]).0 == triple && rest[i].1@ == service
                        && forall|j: int| 0 <= j < i ==> (#[trigger] rest[j]).0 != triple;
                assert(entries[i + 1] == rest[i]);
                assert forall|j: int| 0 <= j < i + 1 implies (#[trigger] entries[j]).0
                    != triple by {
                    if j > 0 {
                        assert(rest[j - 1] == entries[j]);
                    }
                }
            },
            None => {
                assert forall|i: int| 0 <= i < entries.len() implies (#[trigger] entries[i]).0
                    != triple by {
                    if i > 0 {
                        assert(rest[i - 1] == entries[i]);
                    }
                }
            },
        }
    }
}

/// A program that is updated tells of its event all that is broadcast of it, and a new one nothing.
pub proof fn updated_program_tells_what_is_broadcast(
    quad: EventQuad,
    fresh: EpgProgram,
    program: &mut EpgProgram,
    event: EitEvent,
)
    requires
        call_ensures(EpgProgram::new, (quad,), fresh),
        call_ensures(EpgProgram::update, (program, event), ()),
    ensures
        fresh.quad == quad && fresh.name is None && fresh.start_at is None && fresh.duration is None,
        fresh.description is None && fresh.extended is None && fresh.genres is None,
        fresh.video is None && fresh.audios is None && fresh.series is None,
        fresh.event_group is None && !fresh.scrambled,
        final(program).quad == old(program).quad,
        final(program).start_at == event.start_at,
        final(program).duration == event.duration,
        final(program).scrambled == event.scrambled,
        final(program).name == event.name,
        final(program).description == event.description,
        final(program).extended == event.extended,
        final(program).genres == event.genres,
        final(program).video == event.video,
        final(program).audios == event.audios,
        final(program).series == event.series,
        final(program).event_group == event.event_group,
{
}

/// A copy of a program tells all that the program tells.
pub proof fn copied_program_tells_the_same(program: EpgProgram, copy: EpgProgram)
    requires
        call_ensures(<EpgProgram as Clone>::clone, (&program,), copy),
    ensures
        copy.quad == program.quad,
        copy.start_at == program.start_at,
        copy.duration == program.duration,
        copy.scrambled == program.scrambled,
        same_optional_text(copy.name, program.name),
        same_optional_text(copy.description, program.description),
        copy.extended is Some <==> program.extended is Some,
        same_optional_list(copy.genres, program.genres),
        copy.video == program.video,
        same_optional_list(copy.audios, program.audios),
        copy.series == program.series,
        copy.event_group is Some <==> program.event_group is Some,
{
    program_view_leaves_nothing_out(copy, program);
}

/// A copy of a service is that service, on its channel.
pub proof fn copied_service_is_the_same(service: EpgService, copy: EpgService)
    requires
        call_ensures(<EpgService as Clone>::clone, (&service,), copy),
    ensures
        copy.nid == service.nid && copy.tsid == service.tsid && copy.sid == service.sid,
        copy.service_type == service.service_type,
        copy.logo_id == service.logo_id,
        copy.remote_control_key_id == service.remote_control_key_id,
        copy.name@ == service.name@,
        copy.channel.name@ == service.channel.name@,
        copy.channel.channel_type == service.channel.channel_type,
        copy.channel.channel@ == service.channel.channel@,
        copy.channel.extra_args@ == service.channel.extra_args@,
        copy.channel.services@ == service.channel.services@,
        copy.channel.excluded_services@ == service.channel.excluded_services@,
{
    service_view_leaves_nothing_out(copy, service);
    channel_view_leaves_nothing_out(copy.channel, service.channel);
}

} // verus!
