use vstd::prelude::*;

verus! {

/// Earliest timestamp that an events request may name.
pub const EVENTS_EPOCH: i64 = 1719784800;

/// Largest number of latest events that a listener may ask for.
pub const MAX_LATEST: u16 = 1000;

#[derive(Debug, Clone, Copy, PartialEq, Eq, Structural)]
pub enum EventLevel {
    Info,
    Notice,
    Warning,
    Critical,
}

#[derive(Debug, Clone, Copy, PartialEq, Eq, Structural)]
pub enum EventType {
    InvalidLogins,
    IpBlacklisted,
    IpBlacklistRemoved,
    JwksRotated,
    NewUserRegistered,
    NewRauthyAdmin,
    NewRauthyVersion,
    PossibleBruteForce,
    RauthyStarted,
    RauthyHealthy,
    RauthyUnhealthy,
    SecretsMigrated,
    UserEmailChange,
    UserPasswordReset,
    Test,
}

/// Parameters of a request to listen to events.
#[derive(Debug)]
pub struct EventsListenParams {
    pub latest: Option<u16>,
    pub level: Option<EventLevel>,
}

/// A request for the events of a time range.
#[derive(Debug)]
pub struct EventsRequest {
    pub from: i64,
    pub until: Option<i64>,
    pub level: EventLevel,
    pub typ: Option<EventType>,
}

impl EventsListenParams {
    /// True when `latest`, if given, is at most `MAX_LATEST`.
    pub fn validate(&self) -> (r: bool)
        ensures
            r == (self.latest is None || self.latest->0 <= MAX_LATEST),
    {
        match self.latest {
            Some(n) => n <= MAX_LATEST,
            None => true,
        }
    }
}

impl EventsRequest {
    /// True when `from` and `until`, if given, are not before `EVENTS_EPOCH`.
    pub fn validate(&self) -> (r: bool)
        ensures
            r == (self.from >= EVENTS_EPOCH && (self.until is None || self.until->0
                >= EVENTS_EPOCH)),
    {
        self.from >= EVENTS_EPOCH && match self.until {
            Some(u) => u >= EVENTS_EPOCH,
            None => true,
        }
    }
}

} // verus!
