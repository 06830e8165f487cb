//! The always-on process: which channels it serves and which services it runs.
use crate::agent::schedule::Schedule;
use vstd::prelude::*;

verus! {

/// Background work on a schedule.
pub struct MaintenanceService<M> {
    pub schedule: Schedule,
    pub maintenance: M,
}

/// The channels and services of the process. Every service has its own schedule and its
/// own circuit breaker.
pub struct Gateway<C, M> {
    pub channels: Vec<C>,
    pub services: Vec<MaintenanceService<M>>,
}

impl<C, M> Gateway<C, M> {
    pub fn new() -> (r: Self)
        ensures
            r.channels@.len() == 0,
            r.services@.len() == 0,
    {
        Gateway { channels: Vec::new(), services: Vec::new() }
    }

    /// Serves one more channel.
    pub fn add_channel(self, channel: C) -> (r: Self)
        ensures
            r.channels@ == self.channels@.push(channel),
            r.services == self.services,
    {
        let mut r = self;
        r.channels.push(channel);
        r
    }

    /// Runs one more service.
    pub fn with_maintenance(self, service: MaintenanceService<M>) -> (r: Self)
        ensures
            r.services@ == self.services@.push(service),
            r.channels == self.channels,
    {
        let mut r = self;
        r.services.push(service);
        r
    }
}

} // verus!
