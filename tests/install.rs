use highs_fetch::{download_highs, Action, Event, FailureKind, FetchError, Phase};

const TARGET: &str = "x86_64-unknown-linux-gnu";
const URL: &str = "https://github.com/JuliaBinaryWrappers/HiGHS_jll.jl/releases/download/HiGHS-v1.11.0%2B1/HiGHS.v1.11.0.x86_64-linux-gnu-cxx11.tar.gz";

fn failed(cause: &str) -> Event {
    Event::Failed { cause: cause.to_string() }
}

fn error(kind: FailureKind, cause: &str) -> FetchError {
    FetchError { kind, cause: cause.to_string() }
}

#[test]
fn disabled_bundling_does_nothing() {
    for exists in [false, true] {
        let (mut f, a) = download_highs(TARGET, false, exists);
        assert_eq!(a, Action::Finish);
        assert_eq!(f.phase, Phase::Disabled);
        assert_eq!(f.step(Event::Done), Action::Finish);
        assert_eq!(f.step(failed("x")), Action::Finish);
        assert_eq!(f.phase, Phase::Disabled);
    }
}

#[test]
fn existing_install_is_left_alone() {
    let (mut f, a) = download_highs(TARGET, true, true);
    assert_eq!(a, Action::Finish);
    assert_eq!(f.phase, Phase::Present);
    for e in [Event::Done, failed("no network"), Event::Done] {
        assert_eq!(f.step(e), Action::Finish);
        assert_eq!(f.phase, Phase::Present);
    }
}

#[test]
fn successful_install_runs_every_step_once() {
    let (mut f, a) = download_highs(TARGET, true, false);
    assert_eq!(f.url, URL);
    assert_eq!(a, Action::CreateDir);
    assert_eq!(
        f.step(Event::Done),
        Action::Request { url: URL.to_string(), timeout_secs: 300 }
    );
    assert_eq!(f.step(Event::Done), Action::Stage);
    assert_eq!(f.step(Event::Done), Action::Unpack);
    assert_eq!(f.step(Event::Done), Action::Discard);
    assert_eq!(f.phase, Phase::Discarding { failure: None });
    assert_eq!(f.step(Event::Done), Action::Finish);
    assert_eq!(f.phase, Phase::Installed);
    assert_eq!(f.step(Event::Done), Action::Finish);
    assert_eq!(f.phase, Phase::Installed);
}

#[test]
fn failed_request_aborts_without_staging() {
    let (mut f, _) = download_highs(TARGET, true, false);
    f.step(Event::Done);
    let a = f.step(failed("status code 404"));
    let e = error(FailureKind::Network, "status code 404");
    assert_eq!(a, Action::Abort { error: e.copied() });
    assert_eq!(f.phase, Phase::Failed { error: e.copied() });
    assert_eq!(f.step(Event::Done), Action::Abort { error: e.copied() });
    assert_eq!(f.phase, Phase::Failed { error: e });
}

#[test]
fn failed_directory_creation_aborts() {
    let (mut f, _) = download_highs(TARGET, true, false);
    let a = f.step(failed("permission denied"));
    assert_eq!(a, Action::Abort { error: error(FailureKind::Filesystem, "permission denied") });
}

#[test]
fn failed_staging_discards_then_aborts() {
    let (mut f, _) = download_highs(TARGET, true, false);
    f.step(Event::Done);
    f.step(Event::Done);
    assert_eq!(f.step(failed("disk full")), Action::Discard);
    let e = error(FailureKind::Filesystem, "disk full");
    assert_eq!(f.phase, Phase::Discarding { failure: Some(e.copied()) });
    assert_eq!(f.step(Event::Done), Action::Abort { error: e });
}

#[test]
fn failed_unpack_discards_then_aborts() {
    let (mut f, _) = download_highs(TARGET, true, false);
    f.step(Event::Done);
    f.step(Event::Done);
    f.step(Event::Done);
    assert_eq!(f.step(failed("invalid gzip header")), Action::Discard);
    // a failure to remove the temporary file does not change the outcome
    let a = f.step(failed("busy"));
    assert_eq!(a, Action::Abort { error: error(FailureKind::Archive, "invalid gzip header") });
}

#[test]
fn unsupported_target_still_installs_default_package() {
    let (f, a) = download_highs("riscv64gc-unknown-linux-gnu", true, false);
    assert_eq!(a, Action::CreateDir);
    assert!(f.url.ends_with("/HiGHS.v1.11.0.x86_64-linux-gnu.tar.gz"));
}

#[test]
fn action_repeats_current_request() {
    let (mut f, _) = download_highs(TARGET, true, false);
    f.step(Event::Done);
    assert_eq!(f.action(), Action::Request { url: URL.to_string(), timeout_secs: 300 });
}
