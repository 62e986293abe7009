//! A model of the two remote services, and what passes run against it do.

use vstd::prelude::*;
use crate::wire::SyncError;
use crate::reconcile::{
    Event, Pass, Request, Session, Stage, Step, SyncOutcome, advance, begin, port_event,
};

verus! {

/// The remote side as a pass sees it: what the source reports, the sink's
/// listening port, whether the sink still honours this process's cookie, how
/// the sink answers a login, and a record of the logins and writes it has
/// received.
pub struct World {
    pub source: Result<u16, SyncError>,
    pub sink_port: u16,
    pub cookie_valid: bool,
    pub login: Result<(), SyncError>,
    pub logins: nat,
    pub writes: Seq<u16>,
}

/// How the world answers one request, and what it is like afterwards.
pub open spec fn respond(w: World, req: Request) -> (World, Event) {
    match req {
        Request::FetchSource => (w, port_event(w.source)),
        Request::Login => match w.login {
            Ok(()) => (World { logins: w.logins + 1, cookie_valid: true, ..w }, Event::Accepted),
            Err(e) => (World { logins: w.logins + 1, ..w }, Event::Failed(e)),
        },
        Request::FetchPreferences => if w.cookie_valid {
            (w, Event::Port(w.sink_port))
        } else {
            (w, Event::Failed(SyncError::SinkUnauthorized))
        },
        Request::SetListeningPort(x) => if w.cookie_valid {
            (World { sink_port: x, writes: w.writes.push(x), ..w }, Event::Accepted)
        } else {
            (World { writes: w.writes.push(x), ..w }, Event::Failed(SyncError::SinkWriteFailed))
        },
    }
}

/// Runs `p` against `w`, starting with the request `req`, for at most `fuel`
/// requests.
pub open spec fn run(p: Pass, w: World, req: Request, fuel: nat) -> (Pass, World)
    decreases fuel,
{
    if fuel == 0 {
        (p, w)
    } else {
        let (w2, ev) = respond(w, req);
        let (p2, step) = advance(p, ev);
        match step {
            Step::Send(next) => run(p2, w2, next, (fuel - 1) as nat),
            Step::Finished(_) => (p2, w2),
        }
    }
}

/// A whole pass that starts with `session`: no pass makes more than six
/// requests.
pub open spec fn pass_run(session: Session, w: World) -> (Pass, World) {
    run(begin(session), w, Request::FetchSource, 8)
}

/// The sink's state after a write of `x`.
pub open spec fn after_write(w: World, x: u16) -> World {
    respond(w, Request::SetListeningPort(x)).0
}

/// When the source reports `p` and the sink listens on another port `q`, a
/// pass writes `p` once, and only once, and the sink then listens on `p`;
/// whatever session the pass starts with and whether the sink still
/// honours it.
pub proof fn law_mismatch_writes_once(session: Session, w: World, p: u16, q: u16)
    requires
        p != q,
        w.source == Ok::<u16, SyncError>(p),
        w.sink_port == q,
        w.login == Ok::<(), SyncError>(()),
    ensures
        pass_run(session, w).1.writes == w.writes.push(p),
        pass_run(session, w).1.sink_port == p,
        pass_run(session, w).0.stage == Stage::Done(SyncOutcome::Updated { old: q, new: p }),
        pass_run(session, w).0.session == Session::Active,
{
    reveal_with_fuel(run, 9);
}

/// When the source reports `p` and the sink already listens on `p`, a pass
/// writes nothing.
pub proof fn law_match_writes_nothing(session: Session, w: World, p: u16)
    requires
        w.source == Ok::<u16, SyncError>(p),
        w.sink_port == p,
        w.login == Ok::<(), SyncError>(()),
    ensures
        pass_run(session, w).1.writes == w.writes,
        pass_run(session, w).1.sink_port == p,
        pass_run(session, w).0.stage == Stage::Done(SyncOutcome::Synchronized(p)),
{
    reveal_with_fuel(run, 9);
}

/// Writing the same port twice leaves the sink as writing it once does.
pub proof fn law_write_idempotent(w: World, x: u16)
    ensures
        after_write(after_write(w, x), x).sink_port == after_write(w, x).sink_port,
        after_write(after_write(w, x), x).cookie_valid == after_write(w, x).cookie_valid,
{
}

/// `n` passes in a row, each against what the previous one left.
pub open spec fn passes(session: Session, w: World, n: nat) -> (Session, World)
    decreases n,
{
    if n == 0 {
        (session, w)
    } else {
        let (pass, w2) = pass_run(session, w);
        passes(pass.session, w2, (n - 1) as nat)
    }
}

/// A pass whose source fails ends there, and leaves its session and the
/// sink as they were.
pub proof fn law_source_failure_leaves_no_trace(session: Session, w: World)
    requires
        w.source is Err,
    ensures
        pass_run(session, w).1 == w,
        pass_run(session, w).0.session == session,
        pass_run(session, w).0.stage == Stage::Done(
            SyncOutcome::SourceUnavailable(w.source->Err_0),
        ),
{
    reveal_with_fuel(run, 2);
}

proof fn lemma_failing_passes(session: Session, w: World, n: nat)
    requires
        w.source is Err,
    ensures
        passes(session, w, n) == (session, w),
    decreases n,
{
    if n > 0 {
        law_source_failure_leaves_no_trace(session, w);
        lemma_failing_passes(session, w, (n - 1) as nat);
    }
}

/// After `n` passes in which the source could not be reached, a pass in
/// which it reports `p` again brings the sink to `p`, exactly as if the
/// failed passes had not happened.
pub proof fn law_recovery(session: Session, w: World, n: nat, p: u16)
    requires
        w.source == Err::<u16, SyncError>(SyncError::SourceUnreachable),
        w.login == Ok::<(), SyncError>(()),
    ensures
        passes(session, w, n) == (session, w),
        pass_run(passes(session, w, n).0, World { source: Ok(p), ..passes(session, w, n).1 }).1.sink_port
            == p,
        pass_run(passes(session, w, n).0, World { source: Ok(p), ..passes(session, w, n).1 }).0.stage
            == (if w.sink_port == p {
            Stage::Done(SyncOutcome::Synchronized(p))
        } else {
            Stage::Done(SyncOutcome::Updated { old: w.sink_port, new: p })
        }),
{
    lemma_failing_passes(session, w, n);
    let w2 = World { source: Ok(p), ..w };
    if w.sink_port == p {
        law_match_writes_nothing(session, w2, p);
    } else {
        law_mismatch_writes_once(session, w2, p, w.sink_port);
    }
}

/// Two passes in a row that start without a session log in once between
/// them: the second reuses the session of the first.
pub proof fn law_session_reuse(w: World, p: u16)
    requires
        w.source == Ok::<u16, SyncError>(p),
        w.login == Ok::<(), SyncError>(()),
    ensures
        passes(Session::Absent, w, 2).1.logins == w.logins + 1,
{
    reveal_with_fuel(run, 9);
    reveal_with_fuel(passes, 3);
}

} // verus!
