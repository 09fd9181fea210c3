use update_check::orchestrator::{
    Action, Event, Phase, UpdateConfig, UpdateDescriptor, UpdateError, UpdateOrchestrator,
    UpdateOutcome,
};

fn config() -> UpdateConfig {
    UpdateConfig {
        check_url: String::from("https://updates.example.test/version"),
        default_version: String::from("5.2"),
    }
}

fn descriptor(version: &str) -> UpdateDescriptor {
    UpdateDescriptor {
        version: String::from(version),
        url: String::from("https://updates.example.test/latest"),
    }
}

#[test]
fn start_commands_the_metadata_fetch() {
    let orchestrator = UpdateOrchestrator::new(config());
    assert!(matches!(orchestrator.phase, Phase::Start));
    let (orchestrator, action) = orchestrator.start();
    match action {
        Action::FetchMetadata { url } => {
            assert_eq!(url, "https://updates.example.test/version")
        }
        _ => panic!("expected a metadata fetch"),
    }
    assert!(matches!(orchestrator.phase, Phase::AwaitMetadata));
}

#[test]
fn newer_version_runs_the_whole_download() {
    let (orchestrator, _) = UpdateOrchestrator::new(config()).start();

    let (orchestrator, action) =
        orchestrator.step(Event::MetadataFetched(Ok(descriptor("6.0"))));
    assert!(matches!(action, Action::ReadMarker));

    let (orchestrator, action) =
        orchestrator.step(Event::MarkerRead(Ok(Some(String::from("5.2")))));
    match action {
        Action::ResolveRedirect { url } => {
            assert_eq!(url, "https://updates.example.test/latest")
        }
        _ => panic!("expected redirect resolution"),
    }

    let final_url = "https://cdn.example.test/files/app-v6.zip?sig=abc";
    let (orchestrator, action) =
        orchestrator.step(Event::RedirectResolved(Ok(String::from(final_url))));
    match action {
        Action::DownloadBody { url } => assert_eq!(url, final_url),
        _ => panic!("expected the body download"),
    }

    let (orchestrator, action) = orchestrator.step(Event::BodyComplete(Ok(())));
    match action {
        Action::WriteArtifact { filename } => assert_eq!(filename, "app-v6.zip"),
        _ => panic!("expected the artifact write"),
    }

    let (orchestrator, action) = orchestrator.step(Event::ArtifactWritten(Ok(())));
    match action {
        Action::PersistMarker { value } => assert_eq!(value, "6.0"),
        _ => panic!("expected the marker persist"),
    }

    let (orchestrator, action) = orchestrator.step(Event::MarkerPersisted(Ok(())));
    assert!(matches!(action, Action::Done));
    match orchestrator.phase {
        Phase::Finished(UpdateOutcome::Downloaded { version, filename }) => {
            assert_eq!(version, "6.0");
            assert_eq!(filename, "app-v6.zip");
        }
        _ => panic!("expected a downloaded outcome"),
    }
}

#[test]
fn same_version_is_up_to_date_and_stops() {
    let (orchestrator, _) = UpdateOrchestrator::new(config()).start();
    let (orchestrator, action) =
        orchestrator.step(Event::MetadataFetched(Ok(descriptor("5.2"))));
    assert!(matches!(action, Action::ReadMarker));

    let (orchestrator, action) =
        orchestrator.step(Event::MarkerRead(Ok(Some(String::from("5.2")))));
    assert!(matches!(action, Action::Done));
    match &orchestrator.phase {
        Phase::Finished(UpdateOutcome::UpToDate { local_version }) => {
            assert_eq!(local_version, "5.2")
        }
        _ => panic!("expected an up-to-date outcome"),
    }
    // A finished run accepts nothing further: no network call beyond the
    // metadata fetch, no file beyond the existing marker is touched.
    assert!(!orchestrator.accepts_event(&Event::RedirectResolved(Ok(String::from("x")))));
    assert!(!orchestrator.accepts_event(&Event::BodyComplete(Ok(()))));
    assert!(!orchestrator.accepts_event(&Event::MarkerPersisted(Ok(()))));
}

#[test]
fn metadata_decode_failure_ends_the_run_without_writes() {
    let (orchestrator, _) = UpdateOrchestrator::new(config()).start();
    let (orchestrator, action) = orchestrator.step(Event::MetadataFetched(Err(
        UpdateError::Decode(String::from("body was not the expected JSON")),
    )));
    // The only commanded action is the terminal one: the marker file is
    // never written, so it stays byte-for-byte unchanged.
    assert!(matches!(action, Action::Done));
    assert!(matches!(orchestrator.phase, Phase::Failed(UpdateError::Decode(_))));
    assert!(!orchestrator.accepts_event(&Event::MarkerRead(Ok(None))));
}

#[test]
fn missing_marker_synthesizes_the_default() {
    let (orchestrator, _) = UpdateOrchestrator::new(config()).start();
    let (orchestrator, _) =
        orchestrator.step(Event::MetadataFetched(Ok(descriptor("6.0"))));
    let (orchestrator, action) = orchestrator.step(Event::MarkerRead(Ok(None)));
    match action {
        Action::WriteDefaultMarker { value } => assert_eq!(value, "5.2"),
        _ => panic!("expected the default marker write"),
    }
    let (_, action) = orchestrator.step(Event::DefaultWritten(Ok(())));
    // "6.0" is newer than the synthesized "5.2", so the download begins.
    assert!(matches!(action, Action::ResolveRedirect { .. }));
}

#[test]
fn transport_failure_mid_stream_is_fatal() {
    let (orchestrator, _) = UpdateOrchestrator::new(config()).start();
    let (orchestrator, _) =
        orchestrator.step(Event::MetadataFetched(Ok(descriptor("6.0"))));
    let (orchestrator, _) =
        orchestrator.step(Event::MarkerRead(Ok(Some(String::from("5.2")))));
    let (orchestrator, _) = orchestrator.step(Event::RedirectResolved(Ok(String::from(
        "https://cdn.example.test/app.zip",
    ))));
    let (orchestrator, action) = orchestrator.step(Event::BodyComplete(Err(
        UpdateError::Transport(String::from("connection reset")),
    )));
    assert!(matches!(action, Action::Done));
    assert!(matches!(orchestrator.phase, Phase::Failed(UpdateError::Transport(_))));
}

#[test]
fn filesystem_failure_leaves_marker_unpersisted() {
    let (orchestrator, _) = UpdateOrchestrator::new(config()).start();
    let (orchestrator, _) =
        orchestrator.step(Event::MetadataFetched(Ok(descriptor("6.0"))));
    let (orchestrator, _) =
        orchestrator.step(Event::MarkerRead(Ok(Some(String::from("5.2")))));
    let (orchestrator, _) = orchestrator.step(Event::RedirectResolved(Ok(String::from(
        "https://cdn.example.test/app.zip",
    ))));
    let (orchestrator, _) = orchestrator.step(Event::BodyComplete(Ok(())));
    let (orchestrator, action) = orchestrator.step(Event::ArtifactWritten(Err(
        UpdateError::Filesystem(String::from("permission denied")),
    )));
    // The artifact write failed, so no marker persist is ever commanded: the
    // marker stays at the previous version and the next run re-offers the
    // same update.
    assert!(matches!(action, Action::Done));
    assert!(matches!(orchestrator.phase, Phase::Failed(UpdateError::Filesystem(_))));
    assert!(!orchestrator.accepts_event(&Event::MarkerPersisted(Ok(()))));
}
