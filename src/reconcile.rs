//! One reconciliation pass as a state machine: it asks for requests to be
//! made, is handed back what they answered, and ends in an outcome.

use vstd::prelude::*;
use crate::wire::{
    Reply, SyncError, interpret_login_reply, is_rejection, interpret_preferences_reply,
    interpret_source_reply, interpret_write_reply, login_outcome, preferences_outcome,
    source_outcome, write_outcome,
};

verus! {

/// Whether the sink has given this process a session that it still trusts.
#[derive(Clone, Copy, Debug, PartialEq, Eq, Structural)]
pub enum Session {
    Absent,
    Active,
}

/// A request that the pass needs made.
#[derive(Clone, Copy, Debug, PartialEq, Eq, Structural)]
pub enum Request {
    /// Ask the port source for the forwarded port.
    FetchSource,
    /// Log in to the sink.
    Login,
    /// Read the sink's preferences.
    FetchPreferences,
    /// Write the sink's listening port.
    SetListeningPort(u16),
}

/// How a pass ended.
#[derive(Clone, Copy, Debug, PartialEq, Eq, Structural)]
pub enum SyncOutcome {
    /// The sink already listened on the forwarded port.
    Synchronized(u16),
    /// The sink's listening port was changed from `old` to `new`.
    Updated { old: u16, new: u16 },
    SourceUnavailable(SyncError),
    AuthenticationFailed(SyncError),
    SinkUnavailable(SyncError),
}

/// What an answered request means, once decoded.
#[derive(Clone, Copy, Debug, PartialEq, Eq, Structural)]
pub enum Event {
    /// A port was read.
    Port(u16),
    /// A login or a write was accepted.
    Accepted,
    /// The request failed.
    Failed(SyncError),
}

/// Where a pass stands. `source` is the port that the source reported in
/// this pass, `old` the port that the sink reported in this pass.
#[derive(Clone, Copy, Debug, PartialEq, Eq, Structural)]
pub enum Stage {
    FetchSource,
    Authenticate { source: u16 },
    FetchSink { source: u16 },
    Write { source: u16, old: u16 },
    Done(SyncOutcome),
}

/// What the pass asks for next.
#[derive(Clone, Copy, Debug, PartialEq, Eq, Structural)]
pub enum Step {
    Send(Request),
    Finished(SyncOutcome),
}

/// One reconciliation pass. `relogged` records that the pass has already
/// logged in again after the sink rejected its session.
#[derive(Clone, Copy, Debug, PartialEq, Eq, Structural)]
pub struct Pass {
    pub stage: Stage,
    pub session: Session,
    pub relogged: bool,
}

pub open spec fn port_event(r: Result<u16, SyncError>) -> Event {
    match r {
        Ok(p) => Event::Port(p),
        Err(e) => Event::Failed(e),
    }
}

pub open spec fn unit_event(r: Result<(), SyncError>) -> Event {
    match r {
        Ok(()) => Event::Accepted,
        Err(e) => Event::Failed(e),
    }
}

/// Whether the sink answered that the session is not (or no longer) accepted.
pub open spec fn rejected(reply: Reply) -> bool {
    reply matches Reply::Answered { status, .. } && is_rejection(status)
}

/// What a reply means at the given stage. A write that the sink rejects for
/// want of a session is told apart, so that the session can be dropped.
pub open spec fn decode(stage: Stage, reply: Reply) -> Event {
    match stage {
        Stage::FetchSource => port_event(source_outcome(reply)),
        Stage::Authenticate { .. } => unit_event(login_outcome(reply)),
        Stage::FetchSink { .. } => port_event(preferences_outcome(reply)),
        Stage::Write { .. } => if rejected(reply) {
            Event::Failed(SyncError::SinkUnauthorized)
        } else {
            unit_event(write_outcome(reply))
        },
        Stage::Done(_) => Event::Accepted,
    }
}

pub open spec fn finish(p: Pass, session: Session, outcome: SyncOutcome) -> (Pass, Step) {
    (Pass { stage: Stage::Done(outcome), session, relogged: p.relogged }, Step::Finished(outcome))
}

/// The stage that follows a session that is ready for use.
pub open spec fn after_session(p: Pass, source: u16) -> (Pass, Step) {
    (
        Pass { stage: Stage::FetchSink { source }, session: Session::Active, relogged: p.relogged },
        Step::Send(Request::FetchPreferences),
    )
}

/// A pass starts by asking the source; it logs in only where it holds no
/// session; it logs in again once, and only once, when the sink rejects the
/// session on a read; it writes only when the two ports differ.
pub open spec fn advance(p: Pass, ev: Event) -> (Pass, Step) {
    match p.stage {
        Stage::FetchSource => match ev {
            Event::Port(source) => if p.session == Session::Active {
                after_session(p, source)
            } else {
                (
                    Pass { stage: Stage::Authenticate { source }, ..p },
                    Step::Send(Request::Login),
                )
            },
            Event::Failed(e) => finish(p, p.session, SyncOutcome::SourceUnavailable(e)),
            Event::Accepted => finish(
                p,
                p.session,
                SyncOutcome::SourceUnavailable(SyncError::SourceMalformed),
            ),
        },
        Stage::Authenticate { source } => match ev {
            Event::Accepted => after_session(p, source),
            Event::Failed(e) => finish(p, Session::Absent, SyncOutcome::AuthenticationFailed(e)),
            Event::Port(_) => finish(
                p,
                Session::Absent,
                SyncOutcome::AuthenticationFailed(SyncError::InvalidCredentials),
            ),
        },
        Stage::FetchSink { source } => match ev {
            Event::Port(old) => if old == source {
                finish(p, p.session, SyncOutcome::Synchronized(source))
            } else {
                (
                    Pass { stage: Stage::Write { source, old }, ..p },
                    Step::Send(Request::SetListeningPort(source)),
                )
            },
            Event::Failed(e) => if e == SyncError::SinkUnauthorized && !p.relogged {
                (
                    Pass {
                        stage: Stage::Authenticate { source },
                        session: Session::Absent,
                        relogged: true,
                    },
                    Step::Send(Request::Login),
                )
            } else if e == SyncError::SinkUnauthorized {
                finish(p, Session::Absent, SyncOutcome::SinkUnavailable(e))
            } else {
                finish(p, p.session, SyncOutcome::SinkUnavailable(e))
            },
            Event::Accepted => finish(
                p,
                p.session,
                SyncOutcome::SinkUnavailable(SyncError::SinkFieldMissing),
            ),
        },
        Stage::Write { source, old } => match ev {
            Event::Accepted => finish(p, p.session, SyncOutcome::Updated { old, new: source }),
            Event::Failed(e) => if e == SyncError::SinkUnauthorized {
                finish(p, Session::Absent, SyncOutcome::SinkUnavailable(SyncError::SinkWriteFailed))
            } else {
                finish(p, p.session, SyncOutcome::SinkUnavailable(SyncError::SinkWriteFailed))
            },
            Event::Port(_) => finish(
                p,
                p.session,
                SyncOutcome::SinkUnavailable(SyncError::SinkWriteFailed),
            ),
        },
        Stage::Done(outcome) => (p, Step::Finished(outcome)),
    }
}

/// A fresh pass that holds `session`.
pub open spec fn begin(session: Session) -> Pass {
    Pass { stage: Stage::FetchSource, session, relogged: false }
}

impl Pass {
    /// Starts a pass with the session that the previous pass left; its first
    /// request is always to the port source.
    pub fn start(session: Session) -> (r: (Pass, Request))
        ensures
            r.0 == begin(session),
            r.1 == Request::FetchSource,
    {
        (Pass { stage: Stage::FetchSource, session, relogged: false }, Request::FetchSource)
    }

    /// Moves the pass on by a decoded event.
    pub fn handle(&mut self, ev: Event) -> (r: Step)
        ensures
            (*final(self), r) == advance(*old(self), ev),
    {
        let p = *self;
        let (next, step) = match p.stage {
            Stage::FetchSource => match ev {
                Event::Port(source) => if p.session == Session::Active {
                    Pass::ready(p, source)
                } else {
                    (
                        Pass { stage: Stage::Authenticate { source }, ..p },
                        Step::Send(Request::Login),
                    )
                },
                Event::Failed(e) => Pass::end(p, p.session, SyncOutcome::SourceUnavailable(e)),
                Event::Accepted => Pass::end(
                    p,
                    p.session,
                    SyncOutcome::SourceUnavailable(SyncError::SourceMalformed),
                ),
            },
            Stage::Authenticate { source } => match ev {
                Event::Accepted => Pass::ready(p, source),
                Event::Failed(e) => Pass::end(
                    p,
                    Session::Absent,
                    SyncOutcome::AuthenticationFailed(e),
                ),
                Event::Port(_) => Pass::end(
                    p,
                    Session::Absent,
                    SyncOutcome::AuthenticationFailed(SyncError::InvalidCredentials),
                ),
            },
            Stage::FetchSink { source } => match ev {
                Event::Port(old) => if old == source {
                    Pass::end(p, p.session, SyncOutcome::Synchronized(source))
                } else {
                    (
                        Pass { stage: Stage::Write { source, old }, ..p },
                        Step::Send(Request::SetListeningPort(source)),
                    )
                },
                Event::Failed(e) => if e == SyncError::SinkUnauthorized && !p.relogged {
                    (
                        Pass {
                            stage: Stage::Authenticate { source },
                            session: Session::Absent,
                            relogged: true,
                        },
                        Step::Send(Request::Login),
                    )
                } else if e == SyncError::SinkUnauthorized {
                    Pass::end(p, Session::Absent, SyncOutcome::SinkUnavailable(e))
                } else {
                    Pass::end(p, p.session, SyncOutcome::SinkUnavailable(e))
                },
                Event::Accepted => Pass::end(
                    p,
                    p.session,
                    SyncOutcome::SinkUnavailable(SyncError::SinkFieldMissing),
                ),
            },
            Stage::Write { source, old } => match ev {
                Event::Accepted => Pass::end(p, p.session, SyncOutcome::Updated { old, new: source }),
                Event::Failed(e) => if e == SyncError::SinkUnauthorized {
                    Pass::end(
                        p,
                        Session::Absent,
                        SyncOutcome::SinkUnavailable(SyncError::SinkWriteFailed),
                    )
                } else {
                    Pass::end(p, p.session, SyncOutcome::SinkUnavailable(SyncError::SinkWriteFailed))
                },
                Event::Port(_) => Pass::end(
                    p,
                    p.session,
                    SyncOutcome::SinkUnavailable(SyncError::SinkWriteFailed),
                ),
            },
            Stage::Done(outcome) => (p, Step::Finished(outcome)),
        };
        *self = next;
        step
    }

    fn end(p: Pass, session: Session, outcome: SyncOutcome) -> (r: (Pass, Step))
        ensures
            r == finish(p, session, outcome),
    {
        (Pass { stage: Stage::Done(outcome), session, relogged: p.relogged }, Step::Finished(outcome))
    }

    fn ready(p: Pass, source: u16) -> (r: (Pass, Step))
        ensures
            r == after_session(p, source),
    {
        (
            Pass { stage: Stage::FetchSink { source }, session: Session::Active, relogged: p.relogged },
            Step::Send(Request::FetchPreferences),
        )
    }

    /// Moves the pass on by the reply to the request it last asked for.
    pub fn step(&mut self, reply: &Reply) -> (r: Step)
        ensures
            (*final(self), r) == advance(*old(self), decode(old(self).stage, *reply)),
    {
        let ev = match self.stage {
            Stage::FetchSource => match interpret_source_reply(reply) {
                Ok(p) => Event::Port(p),
                Err(e) => Event::Failed(e),
            },
            Stage::Authenticate { .. } => match interpret_login_reply(reply) {
                Ok(()) => Event::Accepted,
                Err(e) => Event::Failed(e),
            },
            Stage::FetchSink { .. } => match interpret_preferences_reply(reply) {
                Ok(p) => Event::Port(p),
                Err(e) => Event::Failed(e),
            },
            Stage::Write { .. } => match reply {
                Reply::Answered { status, .. } if *status == 401 || *status == 403 => {
                    Event::Failed(SyncError::SinkUnauthorized)
                },
                _ => match interpret_write_reply(reply) {
                    Ok(()) => Event::Accepted,
                    Err(e) => Event::Failed(e),
                },
            },
            Stage::Done(_) => Event::Accepted,
        };
        self.handle(ev)
    }
}

} // verus!
