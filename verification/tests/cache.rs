use showfeed::cache::Action;
use showfeed::cache::Cache;
use showfeed::cache::Event;
use showfeed::cache::Lookup;
use showfeed::cache::StartupAction;
use showfeed::cache::plan_startup;
use showfeed::errors::Error;
use showfeed::upstream::search_url;
use showfeed::upstream::seasons_url;
use showfeed::upstream::show_url;

#[test]
fn lookup_hit_serves_cached_bytes() {
    let (state, action) = Lookup::start();
    assert!(matches!(action, Action::Probe));
    let (state, action) = state.step(Event::Probed(Some(true)));
    assert!(matches!(action, Action::Read));
    let (_state, action) = state.step(Event::ReadDone(Some("cached body".to_string())));
    match action {
        Action::Return(Ok(contents)) => assert_eq!(contents, "cached body"),
        _ => panic!("a successful read must end the lookup with the cached bytes"),
    }
}

#[test]
fn lookup_miss_fetches_and_writes() {
    let (state, _) = Lookup::start();
    let (state, action) = state.step(Event::Probed(Some(false)));
    assert!(matches!(action, Action::Fetch));
    let (state, action) = state.step(Event::Fetched(Ok("fresh body".to_string())));
    match &action {
        Action::Write(body) => assert_eq!(body, "fresh body"),
        _ => panic!("a fetched body must be written back"),
    }
    let (_state, action) = state.step(Event::Written(true));
    match action {
        Action::Return(Ok(contents)) => assert_eq!(contents, "fresh body"),
        _ => panic!("a completed miss must serve the fetched bytes"),
    }
}

#[test]
fn failed_write_still_serves_fetched_bytes() {
    let (state, _) = Lookup::start();
    let (state, _) = state.step(Event::Probed(Some(false)));
    let (state, _) = state.step(Event::Fetched(Ok("fresh body".to_string())));
    let (_state, action) = state.step(Event::Written(false));
    match action {
        Action::Return(Ok(contents)) => assert_eq!(contents, "fresh body"),
        _ => panic!("a failed cache write must not fail the request"),
    }
}

#[test]
fn probe_error_is_a_miss() {
    let (state, _) = Lookup::start();
    let (_state, action) = state.step(Event::Probed(None));
    assert!(matches!(action, Action::Fetch));
}

#[test]
fn read_error_falls_through_to_fetch() {
    let (state, _) = Lookup::start();
    let (state, _) = state.step(Event::Probed(Some(true)));
    let (_state, action) = state.step(Event::ReadDone(None));
    assert!(matches!(action, Action::Fetch));
}

#[test]
fn fetch_error_fails_the_lookup() {
    let (state, _) = Lookup::start();
    let (state, _) = state.step(Event::Probed(Some(false)));
    let (_state, action) = state.step(Event::Fetched(Err(Error::Client(
        "upstream unreachable".to_string(),
    ))));
    match action {
        Action::Return(Err(Error::Client(message))) => {
            assert_eq!(message, "upstream unreachable")
        }
        _ => panic!("a fetch failure must fail the lookup with the upstream error"),
    }
}

#[test]
fn cache_file_path() {
    let cache = Cache::new("/var/cache/shows".to_string());
    assert_eq!(cache.file(42), "/var/cache/shows/42");
    assert_eq!(cache.file(0), "/var/cache/shows/0");
}

#[test]
fn startup_creates_directory_only_when_absent() {
    assert_eq!(plan_startup(false), StartupAction::CreateDir);
    assert_eq!(plan_startup(true), StartupAction::UseExisting);
}

#[test]
fn upstream_urls() {
    assert_eq!(show_url(618), "https://api.tvmaze.com/shows/618");
    assert_eq!(seasons_url(618), "https://api.tvmaze.com/shows/618/seasons");
    assert_eq!(search_url("doctor who"), "https://api.tvmaze.com/search/shows?q=doctor who");
}

#[test]
fn error_message_text() {
    let err = Error::Io("permission denied".to_string());
    assert_eq!(err.message(), "permission denied");
    let copy = err.dup();
    assert_eq!(copy.message(), "permission denied");
}
