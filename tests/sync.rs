use qbitun::decimal::parse_trimmed_decimal;
use qbitun::reconcile::{Event, Pass, Request, Session, Stage, Step, SyncOutcome};
use qbitun::schedule::{Directive, EndpointConfig, Scheduler};
use qbitun::wire::{
    interpret_login_reply, interpret_preferences_reply, interpret_source_reply,
    interpret_write_reply, listen_port_payload, parse_source_body, sink_port_from, source_port_from, Reply, SyncError,
};

fn answered(status: u16, body: &str) -> Reply {
    Reply::Answered { status, body: body.as_bytes().to_vec() }
}

/// A port source and a sink that answer requests as the real services do.
struct Remote {
    source: Option<u16>,
    sink_port: u16,
    cookie_valid: bool,
    login_status: u16,
    logins: usize,
    writes: Vec<u16>,
}

impl Remote {
    fn new(source: u16, sink_port: u16) -> Remote {
        Remote { source: Some(source), sink_port, cookie_valid: false, login_status: 200, logins: 0, writes: vec![] }
    }

    fn answer(&mut self, req: Request) -> Reply {
        match req {
            Request::FetchSource => match self.source {
                Some(p) => answered(200, &format!("{{\"port\":{}}}", p)),
                None => Reply::Unreachable,
            },
            Request::Login => {
                self.logins += 1;
                if self.login_status == 200 {
                    self.cookie_valid = true;
                    answered(200, "Ok.")
                } else {
                    answered(self.login_status, "Fails.")
                }
            }
            Request::FetchPreferences => {
                if self.cookie_valid {
                    answered(200, &format!("{{\"listen_port\":{},\"upnp\":false}}", self.sink_port))
                } else {
                    answered(403, "Forbidden")
                }
            }
            Request::SetListeningPort(p) => {
                self.writes.push(p);
                if self.cookie_valid {
                    self.sink_port = p;
                    answered(200, "")
                } else {
                    answered(403, "Forbidden")
                }
            }
        }
    }
}

fn run_pass(scheduler: &mut Scheduler, remote: &mut Remote) -> (SyncOutcome, Directive) {
    assert_eq!(scheduler.wake(), Directive::RunPass);
    let (mut pass, mut req) = scheduler.begin_pass();
    let mut steps = 0;
    let outcome = loop {
        steps += 1;
        assert!(steps <= 6);
        let reply = remote.answer(req);
        match pass.step(&reply) {
            Step::Send(next) => req = next,
            Step::Finished(outcome) => break outcome,
        }
    };
    let directive = scheduler.end_pass(&pass);
    (outcome, directive)
}

#[test]
fn plain_text_body_parses() {
    assert_eq!(parse_source_body(b"51413\n"), Ok(51413));
    assert_eq!(parse_source_body(b"  8080\r\n"), Ok(8080));
    assert_eq!(parse_source_body(b"0"), Ok(0));
    assert_eq!(parse_source_body(b"65535"), Ok(65535));
}

#[test]
fn json_body_parses() {
    assert_eq!(parse_source_body(b"{\"port\": 51413}"), Ok(51413));
    assert_eq!(parse_source_body(b"{\"port\":1,\"other\":\"x\"}"), Ok(1));
}

#[test]
fn malformed_bodies_are_rejected() {
    assert_eq!(parse_source_body(b"not-a-port"), Err(SyncError::SourceMalformed));
    assert_eq!(parse_source_body(b"70000"), Err(SyncError::SourceMalformed));
    assert_eq!(parse_source_body(b"{\"port\": 70000}"), Err(SyncError::SourceMalformed));
    assert_eq!(parse_source_body(b""), Err(SyncError::SourceMalformed));
    assert_eq!(parse_source_body(b"  \n"), Err(SyncError::SourceMalformed));
    assert_eq!(parse_source_body(b"12 34"), Err(SyncError::SourceMalformed));
    assert_eq!(parse_source_body(b"{\"port\": -1}"), Err(SyncError::SourceMalformed));
    assert_eq!(parse_source_body(b"{\"other\": 5}"), Err(SyncError::SourceMalformed));
}

#[test]
fn source_port_from_decided_field() {
    assert_eq!(source_port_from(Some(51413), b"ignored"), Ok(51413));
    assert_eq!(source_port_from(Some(65536), b"80"), Err(SyncError::SourceMalformed));
    assert_eq!(source_port_from(None, b" 80 "), Ok(80));
    assert_eq!(source_port_from(None, b"+80"), Err(SyncError::SourceMalformed));
}

#[test]
fn source_reply_statuses() {
    assert_eq!(interpret_source_reply(&Reply::Unreachable), Err(SyncError::SourceUnreachable));
    assert_eq!(interpret_source_reply(&answered(401, "")), Err(SyncError::SourceUnauthorized));
    assert_eq!(interpret_source_reply(&answered(403, "51413")), Err(SyncError::SourceUnauthorized));
    assert_eq!(interpret_source_reply(&answered(500, "51413")), Err(SyncError::SourceUnreachable));
    assert_eq!(interpret_source_reply(&answered(200, "51413")), Ok(51413));
}

#[test]
fn login_forbidden_is_account_locked() {
    assert_eq!(interpret_login_reply(&answered(403, "Ok.")), Err(SyncError::AccountLocked));
}

#[test]
fn login_without_marker_is_invalid_credentials() {
    assert_eq!(interpret_login_reply(&answered(200, "Fails.")), Err(SyncError::InvalidCredentials));
    assert_eq!(interpret_login_reply(&answered(401, "Ok.")), Err(SyncError::InvalidCredentials));
    assert_eq!(interpret_login_reply(&answered(200, "Ok")), Err(SyncError::InvalidCredentials));
    assert_eq!(interpret_login_reply(&answered(200, "Ok.")), Ok(()));
    assert_eq!(interpret_login_reply(&Reply::Unreachable), Err(SyncError::SinkUnreachable));
}

#[test]
fn preferences_replies() {
    assert_eq!(interpret_preferences_reply(&answered(200, "{\"listen_port\": 12345, \"dht\": true}")), Ok(12345));
    assert_eq!(interpret_preferences_reply(&answered(200, "{\"dht\": true}")), Err(SyncError::SinkFieldMissing));
    assert_eq!(interpret_preferences_reply(&answered(200, "{\"listen_port\": 99999}")), Err(SyncError::SinkFieldMissing));
    assert_eq!(interpret_preferences_reply(&answered(403, "")), Err(SyncError::SinkUnauthorized));
    assert_eq!(interpret_preferences_reply(&answered(502, "")), Err(SyncError::SinkUnreachable));
    assert_eq!(interpret_preferences_reply(&Reply::Unreachable), Err(SyncError::SinkUnreachable));
    assert_eq!(sink_port_from(Some(7)), Ok(7));
    assert_eq!(sink_port_from(None), Err(SyncError::SinkFieldMissing));
}

#[test]
fn write_replies() {
    assert_eq!(interpret_write_reply(&answered(200, "")), Ok(()));
    assert_eq!(interpret_write_reply(&answered(400, "")), Err(SyncError::SinkWriteFailed));
    assert_eq!(interpret_write_reply(&Reply::Unreachable), Err(SyncError::SinkWriteFailed));
    assert_eq!(interpret_write_reply(&answered(403, "")), Err(SyncError::SinkWriteFailed));
}

#[test]
fn mismatch_writes_source_port_once() {
    let mut scheduler = Scheduler::new(60);
    let mut remote = Remote::new(40000, 12345);
    let (outcome, directive) = run_pass(&mut scheduler, &mut remote);
    assert_eq!(outcome, SyncOutcome::Updated { old: 12345, new: 40000 });
    assert_eq!(remote.writes, vec![40000]);
    assert_eq!(remote.sink_port, 40000);
    assert_eq!(directive, Directive::Sleep(60));
}

#[test]
fn match_writes_nothing() {
    let mut scheduler = Scheduler::new(60);
    let mut remote = Remote::new(40000, 40000);
    let (outcome, _) = run_pass(&mut scheduler, &mut remote);
    assert_eq!(outcome, SyncOutcome::Synchronized(40000));
    assert!(remote.writes.is_empty());
}

#[test]
fn writing_twice_equals_writing_once() {
    let mut once = Remote::new(1, 2);
    once.cookie_valid = true;
    let mut twice = Remote::new(1, 2);
    twice.cookie_valid = true;
    once.answer(Request::SetListeningPort(9000));
    twice.answer(Request::SetListeningPort(9000));
    twice.answer(Request::SetListeningPort(9000));
    assert_eq!(once.sink_port, twice.sink_port);
    assert_eq!(twice.sink_port, 9000);
}

#[test]
fn auth_failures_do_not_stop_the_process() {
    for status in [403u16, 204] {
        let mut scheduler = Scheduler::new(30);
        let mut remote = Remote::new(5, 6);
        remote.login_status = status;
        let (outcome, directive) = run_pass(&mut scheduler, &mut remote);
        let kind = if status == 403 { SyncError::AccountLocked } else { SyncError::InvalidCredentials };
        assert_eq!(outcome, SyncOutcome::AuthenticationFailed(kind));
        assert_eq!(directive, Directive::Sleep(30));
        assert_eq!(scheduler.session, Session::Absent);
        assert_eq!(scheduler.wake(), Directive::RunPass);
    }
}

#[test]
fn recovers_after_unreachable_source() {
    let mut scheduler = Scheduler::new(10);
    let mut remote = Remote::new(0, 1000);
    remote.source = None;
    for _ in 0..3 {
        let (outcome, directive) = run_pass(&mut scheduler, &mut remote);
        assert_eq!(outcome, SyncOutcome::SourceUnavailable(SyncError::SourceUnreachable));
        assert_eq!(directive, Directive::Sleep(10));
    }
    assert_eq!(remote.logins, 0);
    remote.source = Some(2000);
    let (outcome, _) = run_pass(&mut scheduler, &mut remote);
    assert_eq!(outcome, SyncOutcome::Updated { old: 1000, new: 2000 });
    assert_eq!(remote.sink_port, 2000);
}

#[test]
fn session_is_reused_across_passes() {
    let mut scheduler = Scheduler::new(10);
    let mut remote = Remote::new(3000, 3000);
    run_pass(&mut scheduler, &mut remote);
    run_pass(&mut scheduler, &mut remote);
    assert_eq!(remote.logins, 1);
}

#[test]
fn expired_session_logs_in_again_once() {
    let mut scheduler = Scheduler::new(10);
    let mut remote = Remote::new(3000, 3000);
    run_pass(&mut scheduler, &mut remote);
    remote.cookie_valid = false;
    let (outcome, _) = run_pass(&mut scheduler, &mut remote);
    assert_eq!(outcome, SyncOutcome::Synchronized(3000));
    assert_eq!(remote.logins, 2);
}

#[test]
fn rejected_session_gives_up_after_one_retry() {
    let (mut pass, req) = Pass::start(Session::Active);
    assert_eq!(req, Request::FetchSource);
    assert_eq!(pass.step(&answered(200, "4000")), Step::Send(Request::FetchPreferences));
    assert_eq!(pass.step(&answered(403, "")), Step::Send(Request::Login));
    assert_eq!(pass.step(&answered(200, "Ok.")), Step::Send(Request::FetchPreferences));
    let last = pass.step(&answered(403, ""));
    assert_eq!(last, Step::Finished(SyncOutcome::SinkUnavailable(SyncError::SinkUnauthorized)));
    assert_eq!(pass.session, Session::Absent);
}

#[test]
fn failed_write_is_reported() {
    let (mut pass, _) = Pass::start(Session::Active);
    assert_eq!(pass.handle(Event::Port(10)), Step::Send(Request::FetchPreferences));
    assert_eq!(pass.handle(Event::Port(11)), Step::Send(Request::SetListeningPort(10)));
    let last = pass.handle(Event::Failed(SyncError::SinkWriteFailed));
    assert_eq!(last, Step::Finished(SyncOutcome::SinkUnavailable(SyncError::SinkWriteFailed)));
    assert_eq!(pass.stage, Stage::Done(SyncOutcome::SinkUnavailable(SyncError::SinkWriteFailed)));
}

#[test]
fn end_to_end_two_passes() {
    let config = EndpointConfig::from_values(
        Some("http://gluetun:8000".to_string()),
        Some("http://qbittorrent:8080".to_string()),
        Some("admin".to_string()),
        true,
        Some(b"300".to_vec()),
    )
    .unwrap();
    assert_eq!(config.interval_secs, 300);
    let mut scheduler = Scheduler::new(config.interval_secs);
    let mut remote = Remote::new(55000, 12345);
    let (first, directive) = run_pass(&mut scheduler, &mut remote);
    assert_eq!(remote.logins, 1);
    assert_eq!(first, SyncOutcome::Updated { old: 12345, new: 55000 });
    assert_eq!(directive, Directive::Sleep(300));
    let (second, _) = run_pass(&mut scheduler, &mut remote);
    assert_eq!(second, SyncOutcome::Synchronized(55000));
    assert_eq!(remote.writes, vec![55000]);
    assert_eq!(remote.logins, 1);
}

#[test]
fn configuration_requires_every_value() {
    let ok = |interval: &[u8]| {
        EndpointConfig::from_values(
            Some("a".to_string()),
            Some("b".to_string()),
            Some("c".to_string()),
            true,
            Some(interval.to_vec()),
        )
    };
    assert_eq!(ok(b" 45\n").map(|c| c.interval_secs), Ok(45));
    assert!(matches!(ok(b"abc"), Err(SyncError::ConfigurationInvalid)));
    assert!(matches!(ok(b"-5"), Err(SyncError::ConfigurationInvalid)));
    let missing = EndpointConfig::from_values(None, Some("b".to_string()), Some("c".to_string()), true, Some(b"1".to_vec()));
    assert!(matches!(missing, Err(SyncError::ConfigurationInvalid)));
    let no_password = EndpointConfig::from_values(
        Some("a".to_string()),
        Some("b".to_string()),
        Some("c".to_string()),
        false,
        Some(b"1".to_vec()),
    );
    assert!(matches!(no_password, Err(SyncError::ConfigurationInvalid)));
}

#[test]
fn shutdown_ends_the_loop() {
    let mut scheduler = Scheduler::new(300);
    let mut remote = Remote::new(1, 1);
    run_pass(&mut scheduler, &mut remote);
    assert_eq!(scheduler.session, Session::Active);
    let (mut pass, req) = scheduler.begin_pass();
    scheduler.shutdown();
    assert_eq!(scheduler.session, Session::Absent);
    let reply = remote.answer(req);
    pass.step(&reply);
    assert!(matches!(pass.stage, Stage::FetchSink { .. }));
    pass.step(&remote.answer(Request::FetchPreferences));
    assert_eq!(scheduler.end_pass(&pass), Directive::Exit);
    assert_eq!(scheduler.session, Session::Absent);
    assert_eq!(scheduler.wake(), Directive::Exit);
}

#[test]
fn decimal_bounds() {
    assert_eq!(parse_trimmed_decimal(b"18446744073709551615", u64::MAX), Some(u64::MAX));
    assert_eq!(parse_trimmed_decimal(b"18446744073709551616", u64::MAX), None);
    assert_eq!(parse_trimmed_decimal(b"99999999999999999999999", u64::MAX), None);
    assert_eq!(parse_trimmed_decimal(b"65536", 65535), None);
    assert_eq!(parse_trimmed_decimal(b"\t007 ", 65535), Some(7));
    assert_eq!(parse_trimmed_decimal(b"", 65535), None);
}

#[test]
fn error_names() {
    assert_eq!(SyncError::AccountLocked.name(), "AccountLocked");
    assert_eq!(SyncError::SourceMalformed.name(), "SourceMalformed");
}

#[test]
fn payload_encodes_the_port() {
    assert_eq!(listen_port_payload(55000), b"{\"listen_port\":55000}".to_vec());
    assert_eq!(listen_port_payload(0), b"{\"listen_port\":0}".to_vec());
    assert_eq!(listen_port_payload(65535), b"{\"listen_port\":65535}".to_vec());
    assert_eq!(listen_port_payload(10), b"{\"listen_port\":10}".to_vec());
}

#[test]
fn every_error_kind_has_its_name() {
    let kinds = [
        (SyncError::SourceUnreachable, "SourceUnreachable"),
        (SyncError::SourceMalformed, "SourceMalformed"),
        (SyncError::SourceUnauthorized, "SourceUnauthorized"),
        (SyncError::InvalidCredentials, "InvalidCredentials"),
        (SyncError::AccountLocked, "AccountLocked"),
        (SyncError::SinkUnreachable, "SinkUnreachable"),
        (SyncError::SinkUnauthorized, "SinkUnauthorized"),
        (SyncError::SinkFieldMissing, "SinkFieldMissing"),
        (SyncError::SinkWriteFailed, "SinkWriteFailed"),
        (SyncError::ConfigurationInvalid, "ConfigurationInvalid"),
    ];
    for (kind, name) in kinds {
        assert_eq!(kind.name(), name);
    }
}

#[test]
fn unanswered_write_is_a_failed_write() {
    let (mut pass, _) = Pass::start(Session::Active);
    pass.step(&answered(200, "4000"));
    assert_eq!(pass.step(&answered(200, "{\"listen_port\":3000}")), Step::Send(Request::SetListeningPort(4000)));
    let last = pass.step(&Reply::Unreachable);
    assert_eq!(last, Step::Finished(SyncOutcome::SinkUnavailable(SyncError::SinkWriteFailed)));
    assert_eq!(pass.session, Session::Active);
}

#[test]
fn rejected_write_drops_the_session() {
    let (mut pass, _) = Pass::start(Session::Active);
    pass.step(&answered(200, "4000"));
    pass.step(&answered(200, "{\"listen_port\":3000}"));
    let last = pass.step(&answered(403, "Forbidden"));
    assert_eq!(last, Step::Finished(SyncOutcome::SinkUnavailable(SyncError::SinkWriteFailed)));
    assert_eq!(pass.session, Session::Absent);
}
