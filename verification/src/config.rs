//! The configuration that the recorders, the trackers and the event feed are run with.

use crate::models::{MirakurunServiceId, ServiceTriple};
use std::collections::HashSet;
use vstd::prelude::*;

verus! {

/// The configuration of a timeshift recorder.
///
/// A recorder writes a ring of `num_chunks` chunks of `chunk_size` bytes each. The
/// `num_reserves` chunks ahead of the one that is being written are never offered to clients.
#[derive(Debug)]
pub struct TimeshiftConfig {
    pub service_triple: ServiceTriple,
    pub file: String,
    pub chunk_size: usize,
    pub num_chunks: usize,
    pub num_reserves: usize,
    pub priority: i32,
}

impl Clone for TimeshiftConfig {
    fn clone(&self) -> (config: TimeshiftConfig)
        ensures
            config == *self,
    {
        TimeshiftConfig {
            service_triple: self.service_triple,
            file: self.file.clone(),
            chunk_size: self.chunk_size,
            num_chunks: self.num_chunks,
            num_reserves: self.num_reserves,
            priority: self.priority,
        }
    }
}

impl TimeshiftConfig {
    /// The number of chunks that are offered to clients.
    pub open spec fn spec_max_chunks(self) -> int {
        self.num_chunks - self.num_reserves
    }

    /// The size of the ring in bytes.
    pub open spec fn spec_max_file_size(self) -> int {
        self.chunk_size * self.num_chunks
    }

    /// The ring is not smaller than its reserve, its chunks are not empty, and its size fits in
    /// 64 bits.
    pub open spec fn valid(self) -> bool {
        &&& self.num_reserves <= self.num_chunks
        &&& self.chunk_size > 0
        &&& self.spec_max_file_size() <= u64::MAX
    }

    /// Tells whether the configuration is valid.
    pub fn is_valid(&self) -> (valid: bool)
        ensures
            valid == self.valid(),
    {
        if self.num_reserves > self.num_chunks || self.chunk_size == 0 {
            return false;
        }
        let size: u128 = self.chunk_size as u128;
        let count: u128 = self.num_chunks as u128;
        proof {
            assert(size * count <= 0xffff_ffff_ffff_ffffu128 * 0xffff_ffff_ffff_ffffu128)
                by (nonlinear_arith)
                requires
                    size <= 0xffff_ffff_ffff_ffffu128,
                    count <= 0xffff_ffff_ffff_ffffu128,
            ;
        }
        size * count <= u64::MAX as u128
    }

    /// Gives the number of chunks that are offered to clients.
    pub fn max_chunks(&self) -> (count: usize)
        requires
            self.num_reserves <= self.num_chunks,
        ensures
            count == self.spec_max_chunks(),
    {
        self.num_chunks - self.num_reserves
    }

    /// Gives the size of the ring in bytes.
    pub fn max_file_size(&self) -> (size: u64)
        requires
            self.spec_max_file_size() <= u64::MAX,
        ensures
            size == self.spec_max_file_size(),
    {
        self.chunk_size as u64 * self.num_chunks as u64
    }
}

/// The commands that filter a stream, as templates.
#[derive(Debug)]
pub struct FiltersConfig {
    pub service_filter: String,
    pub decode_filter: String,
}

/// The command that records a service, as a template.
#[derive(Debug)]
pub struct RecorderConfig {
    pub record_service_command: String,
}

/// The configuration of the recorders.
#[derive(Debug)]
pub struct Config {
    /// The timeshift recorders by name.
    pub timeshift: Vec<(String, TimeshiftConfig)>,
    pub filters: FiltersConfig,
    pub recorder: RecorderConfig,
}

/// The configuration of a tracker that follows another server.
#[derive(Debug)]
pub struct RemoteOnairProgramTrackerConfig {
    pub url: String,
    /// The identifiers of the services to follow. All are followed if it is empty.
    pub services: HashSet<u64>,
    /// The identifiers of the services not to follow.
    pub excluded_services: HashSet<u64>,
}

impl RemoteOnairProgramTrackerConfig {
    /// A service is followed if it is listed, or nothing is, and it is not excluded.
    pub open spec fn follows(self, service_id: MirakurunServiceId) -> bool {
        &&& self.services@.is_empty() || self.services@.contains(service_id.value)
        &&& !self.excluded_services@.contains(service_id.value)
    }

    /// Tells whether a service is followed.
    pub fn matches(&self, service_id: MirakurunServiceId) -> (followed: bool)
        ensures
            followed == self.follows(service_id),
    {
        broadcast use vstd::std_specs::hash::group_hash_axioms;

        if !self.services.is_empty() {
            if !self.services.contains(&service_id.value) {
                return false;
            }
        }
        if !self.excluded_services.is_empty() {
            if self.excluded_services.contains(&service_id.value) {
                return false;
            }
        }
        true
    }
}

/// The chunks that are offered and the reserve make up the ring, which holds all of its chunks.
pub proof fn ring_is_made_of_its_chunks(config: TimeshiftConfig)
    ensures
        config.spec_max_chunks() + config.num_reserves == config.num_chunks,
        config.spec_max_file_size() == config.chunk_size * config.num_chunks,
        config.valid() <==> config.num_reserves <= config.num_chunks && config.chunk_size > 0
            && config.chunk_size * config.num_chunks <= u64::MAX,
{
}

/// An excluded service is never followed. Of the others, all are followed if none is listed, and
/// exactly the listed ones otherwise.
pub proof fn listed_services_are_followed_unless_excluded(
    config: RemoteOnairProgramTrackerConfig,
    service_id: MirakurunServiceId,
)
    ensures
        config.excluded_services@.contains(service_id.value) ==> !config.follows(service_id),
        !config.excluded_services@.contains(service_id.value) && (forall|id: u64|
            !#[trigger] config.services@.contains(id)) ==> config.follows(service_id),
        !config.excluded_services@.contains(service_id.value) && (exists|id: u64|
            #[trigger] config.services@.contains(id)) ==> (config.follows(service_id)
            <==> config.services@.contains(service_id.value)),
{
    if forall|id: u64| !#[trigger] config.services@.contains(id) {
        assert(config.services@ =~= Set::<u64>::empty());
    } else {
        assert(!config.services@.is_empty());
    }
}

/// The configuration is asked for a service as it is: the answer is that of the listed and the
/// excluded services.
pub proof fn services_match_as_they_are_followed(
    config: RemoteOnairProgramTrackerConfig,
    service_id: MirakurunServiceId,
    followed: bool,
)
    requires
        call_ensures(RemoteOnairProgramTrackerConfig::matches, (&config, service_id), followed),
    ensures
        followed <==> !config.excluded_services@.contains(service_id.value) && (
        config.services@.contains(service_id.value) || forall|id: u64|
            !#[trigger] config.services@.contains(id)),
{
    listed_services_are_followed_unless_excluded(config, service_id);
}

} // verus!
