use wget::outcome::{exit_code, ErrorKind, Mode, Outcome};
use wget::pipeline::{Event, Phase, Pipeline};

#[test]
fn save_mode_success_run() {
    let mut p = Pipeline::new(Mode::Save, "http://host/file.bin");
    assert_eq!(p.phase, Phase::Fetching);
    p.step(Event::Response { status: 200 });
    assert_eq!(p.phase, Phase::Streaming);
    p.step(Event::BodyDone { bytes: 42 });
    assert_eq!(p.phase, Phase::Writing { bytes: 42 });
    p.step(Event::WriteDone);
    assert_eq!(
        p.phase,
        Phase::Finished { outcome: Outcome::Saved { bytes: 42 } }
    );
    assert!(p.is_finished());
    assert_eq!(exit_code(&Outcome::Saved { bytes: 42 }), 0);
}

#[test]
fn print_mode_success_run() {
    let mut p = Pipeline::new(Mode::Print, "http://host/page.html");
    p.step(Event::Response { status: 204 });
    assert_eq!(p.phase, Phase::Decoding);
    p.step(Event::TextDone);
    assert_eq!(p.phase, Phase::Finished { outcome: Outcome::Printed });
    assert_eq!(exit_code(&Outcome::Printed), 0);
}

#[test]
fn non_success_status_fails_both_modes() {
    for mode in [Mode::Print, Mode::Save] {
        for status in [199, 300, 301, 404, 500] {
            let mut p = Pipeline::new(mode, "http://host/file.bin");
            p.step(Event::Response { status });
            assert_eq!(
                p.phase,
                Phase::Finished {
                    outcome: Outcome::Failure { kind: ErrorKind::RequestFailed }
                }
            );
            assert_ne!(
                exit_code(&Outcome::Failure { kind: ErrorKind::RequestFailed }),
                0
            );
        }
    }
}

#[test]
fn dropped_stream_discards_partial_body() {
    let mut p = Pipeline::new(Mode::Save, "http://host/file.bin");
    p.step(Event::Response { status: 200 });
    p.step(Event::BodyFailed);
    assert_eq!(
        p.phase,
        Phase::Finished { outcome: Outcome::Failure { kind: ErrorKind::Network } }
    );
}

#[test]
fn unreachable_host_fails_as_network() {
    for mode in [Mode::Print, Mode::Save] {
        let mut p = Pipeline::new(mode, "http://unreachable.invalid/");
        p.step(Event::TransportFailed);
        let outcome = Outcome::Failure { kind: ErrorKind::Network };
        assert_eq!(p.phase, Phase::Finished { outcome });
        assert_ne!(exit_code(&outcome), 0);
    }
}

#[test]
fn write_failure_is_storage() {
    let mut p = Pipeline::new(Mode::Save, "http://host/file.bin");
    p.step(Event::Response { status: 200 });
    p.step(Event::BodyDone { bytes: 7 });
    p.step(Event::WriteFailed);
    assert_eq!(
        p.phase,
        Phase::Finished { outcome: Outcome::Failure { kind: ErrorKind::Storage } }
    );
}

#[test]
fn text_failure_is_network() {
    let mut p = Pipeline::new(Mode::Print, "http://host/page.html");
    p.step(Event::Response { status: 200 });
    p.step(Event::TextFailed);
    assert_eq!(
        p.phase,
        Phase::Finished { outcome: Outcome::Failure { kind: ErrorKind::Network } }
    );
}

#[test]
fn malformed_url_fails_fast() {
    let p = Pipeline::new(Mode::Print, "not a url");
    assert_eq!(
        p.phase,
        Phase::Finished {
            outcome: Outcome::Failure { kind: ErrorKind::InvalidInput }
        }
    );
    assert!(p.is_finished());
}

#[test]
fn finished_run_ignores_events() {
    let mut p = Pipeline::new(Mode::Save, "http://host/file.bin");
    p.step(Event::Response { status: 503 });
    let terminal = p.phase;
    p.step(Event::Response { status: 200 });
    p.step(Event::BodyDone { bytes: 1 });
    p.step(Event::WriteDone);
    assert_eq!(p.phase, terminal);
}
