//! The process around the passes: its configuration, and when it runs a
//! pass, sleeps, or stops.

use vstd::prelude::*;
use crate::decimal::{decimal_of, parse_trimmed_decimal, trim};
use crate::reconcile::{Pass, Request, Session, begin};
use crate::wire::SyncError;

verus! {

/// Where the two services are, who logs in to the sink, and how long to wait
/// between passes. Built once at startup and never changed. The credentials
/// themselves never enter it: whoever builds the requests holds them.
pub struct EndpointConfig {
    pub source_url: String,
    pub sink_url: String,
    pub sink_username: String,
    pub interval_secs: u64,
}

impl EndpointConfig {
    /// Builds the configuration from the values that were found, and whether
    /// the sink's password was found. Every value is required, and the
    /// interval must be a whole number of seconds, between optional whitespace.
    pub fn from_values(
        source_url: Option<String>,
        sink_url: Option<String>,
        sink_username: Option<String>,
        sink_password_found: bool,
        interval: Option<Vec<u8>>,
    ) -> (r: Result<EndpointConfig, SyncError>)
        ensures
            r is Ok <==> source_url is Some && sink_url is Some && sink_username is Some
                && sink_password_found && interval is Some && decimal_of(
                trim(interval->Some_0@),
                u64::MAX,
            ) is Some,
            r is Err ==> r->Err_0 == SyncError::ConfigurationInvalid,
            r is Ok ==> ({
                let c = r->Ok_0;
                &&& source_url == Some(c.source_url)
                &&& sink_url == Some(c.sink_url)
                &&& sink_username == Some(c.sink_username)
                &&& decimal_of(trim(interval->Some_0@), u64::MAX) == Some(c.interval_secs)
            }),
    {
        if !sink_password_found {
            return Err(SyncError::ConfigurationInvalid);
        }
        match (source_url, sink_url, sink_username, interval) {
            (Some(source_url), Some(sink_url), Some(sink_username), Some(interval)) => match parse_trimmed_decimal(interval.as_slice(), u64::MAX) {
                Some(interval_secs) => Ok(
                    EndpointConfig {
                        source_url,
                        sink_url,
                        sink_username,
                        interval_secs,
                    },
                ),
                None => Err(SyncError::ConfigurationInvalid),
            },
            _ => Err(SyncError::ConfigurationInvalid),
        }
    }
}

/// What the process does next.
#[derive(Clone, Copy, Debug, PartialEq, Eq, Structural)]
pub enum Directive {
    RunPass,
    Sleep(u64),
    Exit,
}

/// Runs passes one after another, with a sleep of `interval_secs` between
/// them, and carries the sink session from each pass to the next.
#[derive(Clone, Copy, Debug, PartialEq, Eq, Structural)]
pub struct Scheduler {
    pub interval_secs: u64,
    pub session: Session,
    pub stopping: bool,
}

impl Scheduler {
    /// A scheduler that holds no session yet.
    pub fn new(interval_secs: u64) -> (r: Scheduler)
        ensures
            r == (Scheduler { interval_secs, session: Session::Absent, stopping: false }),
    {
        Scheduler { interval_secs, session: Session::Absent, stopping: false }
    }

    /// What to do on waking: run a pass, unless a shutdown was asked for.
    pub fn wake(&self) -> (r: Directive)
        ensures
            r == (if self.stopping {
                Directive::Exit
            } else {
                Directive::RunPass
            }),
    {
        if self.stopping {
            Directive::Exit
        } else {
            Directive::RunPass
        }
    }

    /// Starts a pass with the session that the last pass left.
    pub fn begin_pass(&self) -> (r: (Pass, Request))
        ensures
            r.0 == begin(self.session),
            r.1 == Request::FetchSource,
    {
        Pass::start(self.session)
    }

    /// Takes the session back from a finished pass. Whatever the pass's
    /// outcome, the next step is to sleep out the interval; only a shutdown
    /// ends the process.
    pub fn end_pass(&mut self, pass: &Pass) -> (r: Directive)
        ensures
            final(self).interval_secs == old(self).interval_secs,
            final(self).stopping == old(self).stopping,
            final(self).session == (if old(self).stopping {
                Session::Absent
            } else {
                pass.session
            }),
            r == (if old(self).stopping {
                Directive::Exit
            } else {
                Directive::Sleep(old(self).interval_secs)
            }),
    {
        if self.stopping {
            self.session = Session::Absent;
            Directive::Exit
        } else {
            self.session = pass.session;
            Directive::Sleep(self.interval_secs)
        }
    }

    /// Records a request to shut down and lets the session go.
    pub fn shutdown(&mut self)
        ensures
            final(self).stopping,
            final(self).session == Session::Absent,
            final(self).interval_secs == old(self).interval_secs,
    {
        self.stopping = true;
        self.session = Session::Absent;
    }
}

} // verus!
