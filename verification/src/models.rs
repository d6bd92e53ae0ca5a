//! Identifiers of the broadcast services, programs and records.

use vstd::prelude::*;
use vstd::std_specs::convert::FromSpec;

verus! {

/// A broadcast service: the original network, the transport stream and the service in it.
#[derive(Clone, Copy, Debug, PartialEq, Eq, Hash, Structural)]
pub struct ServiceTriple {
    pub nid: u16,
    pub tsid: u16,
    pub sid: u16,
}

impl From<(u16, u16, u16)> for ServiceTriple {
    fn from(triple: (u16, u16, u16)) -> (service: ServiceTriple) {
        ServiceTriple { nid: triple.0, tsid: triple.1, sid: triple.2 }
    }
}

impl vstd::std_specs::convert::FromSpecImpl<(u16, u16, u16)> for ServiceTriple {
    open spec fn obeys_from_spec() -> bool {
        true
    }

    open spec fn from_spec(triple: (u16, u16, u16)) -> ServiceTriple {
        ServiceTriple { nid: triple.0, tsid: triple.1, sid: triple.2 }
    }
}

/// A broadcast event: a service and the event in it.
#[derive(Clone, Copy, Debug, PartialEq, Eq, Hash, Structural)]
pub struct EventQuad {
    pub nid: u16,
    pub tsid: u16,
    pub sid: u16,
    pub eid: u16,
}

impl EventQuad {
    /// The event `eid` of a service.
    pub fn new(nid: u16, tsid: u16, sid: u16, eid: u16) -> (quad: EventQuad)
        ensures
            quad == (EventQuad { nid, tsid, sid, eid }),
    {
        EventQuad { nid, tsid, sid, eid }
    }
}

impl From<(u16, u16, u16, u16)> for EventQuad {
    fn from(quad: (u16, u16, u16, u16)) -> (event: EventQuad) {
        EventQuad { nid: quad.0, tsid: quad.1, sid: quad.2, eid: quad.3 }
    }
}

impl vstd::std_specs::convert::FromSpecImpl<(u16, u16, u16, u16)> for EventQuad {
    open spec fn obeys_from_spec() -> bool {
        true
    }

    open spec fn from_spec(quad: (u16, u16, u16, u16)) -> EventQuad {
        EventQuad { nid: quad.0, tsid: quad.1, sid: quad.2, eid: quad.3 }
    }
}

/// A service as clients of the web API name it: one number made of the network and the service.
#[derive(Clone, Copy, Debug, PartialEq, Eq, Hash, Structural)]
pub struct MirakurunServiceId {
    pub value: u64,
}

impl From<(u16, u16)> for MirakurunServiceId {
    fn from(pair: (u16, u16)) -> (id: MirakurunServiceId) {
        MirakurunServiceId { value: pair.0 as u64 * 100_000 + pair.1 as u64 }
    }
}

impl vstd::std_specs::convert::FromSpecImpl<(u16, u16)> for MirakurunServiceId {
    open spec fn obeys_from_spec() -> bool {
        true
    }

    open spec fn from_spec(pair: (u16, u16)) -> MirakurunServiceId {
        MirakurunServiceId { value: (pair.0 * 100_000 + pair.1) as u64 }
    }
}

/// Two services have the same identifier only if both the network and the service agree.
pub proof fn service_ids_are_distinct(pair1: (u16, u16), pair2: (u16, u16))
    ensures
        <MirakurunServiceId as FromSpec<(u16, u16)>>::from_spec(pair1)
            == <MirakurunServiceId as FromSpec<(u16, u16)>>::from_spec(pair2) ==> pair1 == pair2,
{
}

/// A program as clients of the web API name it.
#[derive(Clone, Copy, Debug, PartialEq, Eq, Hash, Structural)]
pub struct MirakurunProgramId {
    pub value: u64,
}

/// A record of a timeshift recorder, named by the second in which it started.
#[derive(Clone, Copy, Debug, PartialEq, Eq, Hash, Structural)]
pub struct TimeshiftRecordId {
    pub value: i64,
}

impl From<i64> for TimeshiftRecordId {
    fn from(value: i64) -> (id: TimeshiftRecordId) {
        TimeshiftRecordId { value }
    }
}

impl vstd::std_specs::convert::FromSpecImpl<i64> for TimeshiftRecordId {
    open spec fn obeys_from_spec() -> bool {
        true
    }

    open spec fn from_spec(value: i64) -> TimeshiftRecordId {
        TimeshiftRecordId { value }
    }
}

/// The kind of a broadcast channel.
#[derive(Clone, Copy, Debug, PartialEq, Eq, Hash, Structural)]
pub enum ChannelType {
    GR,
    BS,
    CS,
    SKY,
}

impl ChannelType {
    /// The name of the kind, as it appears in commands.
    pub open spec fn spec_name(self) -> Seq<char> {
        match self {
            ChannelType::GR => "GR"@,
            ChannelType::BS => "BS"@,
            ChannelType::CS => "CS"@,
            ChannelType::SKY => "SKY"@,
        }
    }

    /// Gives the name of the kind.
    pub fn name(&self) -> (name: &'static str)
        ensures
            name@ == self.spec_name(),
    {
        match self {
            ChannelType::GR => "GR",
            ChannelType::BS => "BS",
            ChannelType::CS => "CS",
            ChannelType::SKY => "SKY",
        }
    }
}

/// A service identifier holds the network and the service, from which both can be read.
pub proof fn service_id_tells_network_and_service(pair: (u16, u16))
    ensures
        <MirakurunServiceId as FromSpec<(u16, u16)>>::obeys_from_spec(),
        ({
            let id = <MirakurunServiceId as FromSpec<(u16, u16)>>::from_spec(pair);
            &&& id.value == pair.0 * 100_000 + pair.1
            &&& id.value / 100_000 == pair.0
            &&& id.value % 100_000 == pair.1
        }),
{
}

/// Triples, quads and record identifiers hold what they are made from.
pub proof fn identifiers_hold_what_they_are_made_from(
    triple: (u16, u16, u16),
    quad: (u16, u16, u16, u16),
    value: i64,
)
    ensures
        <ServiceTriple as FromSpec<(u16, u16, u16)>>::obeys_from_spec(),
        <EventQuad as FromSpec<(u16, u16, u16, u16)>>::obeys_from_spec(),
        <TimeshiftRecordId as FromSpec<i64>>::obeys_from_spec(),
        ({
            let service = <ServiceTriple as FromSpec<(u16, u16, u16)>>::from_spec(triple);
            (service.nid, service.tsid, service.sid) == triple
        }),
        ({
            let event = <EventQuad as FromSpec<(u16, u16, u16, u16)>>::from_spec(quad);
            (event.nid, event.tsid, event.sid, event.eid) == quad
        }),
        <TimeshiftRecordId as FromSpec<i64>>::from_spec(value).value == value,
{
}

/// The kinds of channels have different names.
pub proof fn channel_types_have_different_names(a: ChannelType, b: ChannelType)
    requires
        a.spec_name() == b.spec_name(),
    ensures
        a == b,
{
    reveal_strlit("GR");
    reveal_strlit("BS");
    reveal_strlit("CS");
    reveal_strlit("SKY");
    assert("GR"@[0] == 'G' && "BS"@[0] == 'B' && "CS"@[0] == 'C' && "SKY"@[0] == 'S');
}

} // verus!
