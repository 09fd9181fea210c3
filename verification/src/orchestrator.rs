//! The end-to-end check-and-maybe-download run as a state machine. The
//! machine makes every decision; the surrounding program performs the
//! commanded filesystem and network actions and reports each result back as
//! an event. The run is linear: fetch metadata, read (or default) the local
//! marker, compare, and — only when the remote version is newer — resolve
//! redirects, stream the body, write the artifact, and persist the new
//! version. Any failed action terminates the run at once.

use vstd::prelude::*;
use crate::version::{version_newer, compare_versions};
use crate::filename::{resolved_filename, extract_filename_from_url};

verus! {

/// Fixed configuration injected at construction: the metadata endpoint and
/// the default version synthesized on a fresh machine.
pub struct UpdateConfig {
    pub check_url: String,
    pub default_version: String,
}

/// The remote descriptor naming the latest version and its download URL.
pub struct UpdateDescriptor {
    pub version: String,
    pub url: String,
}

/// Why a run failed. Every failure is fatal for the run; the detail string
/// carries the underlying cause for the presentation layer.
pub enum UpdateError {
    /// Network unreachable, redirect limit exceeded, or a mid-stream abort.
    Transport(String),
    /// The metadata body was not valid JSON of the expected shape.
    Decode(String),
    /// A directory, marker, or artifact could not be created or written.
    Filesystem(String),
}

/// How a completed run ended.
pub enum UpdateOutcome {
    /// The local version is already the latest one.
    UpToDate { local_version: String },
    /// A newer version was downloaded and persisted.
    Downloaded { version: String, filename: String },
}

/// Where the run stands: which action's result it is waiting for.
pub enum Phase {
    Start,
    AwaitMetadata,
    AwaitMarker { descriptor: UpdateDescriptor },
    AwaitDefaultWrite { descriptor: UpdateDescriptor, local: String },
    AwaitRedirect { descriptor: UpdateDescriptor, local: String },
    AwaitBody { descriptor: UpdateDescriptor, filename: String },
    AwaitArtifactWrite { descriptor: UpdateDescriptor, filename: String },
    AwaitPersist { descriptor: UpdateDescriptor, filename: String },
    Finished(UpdateOutcome),
    Failed(UpdateError),
}

/// The result of one commanded action, reported back to the machine.
pub enum Event {
    MetadataFetched(Result<UpdateDescriptor, UpdateError>),
    MarkerRead(Result<Option<String>, UpdateError>),
    DefaultWritten(Result<(), UpdateError>),
    RedirectResolved(Result<String, UpdateError>),
    BodyComplete(Result<(), UpdateError>),
    ArtifactWritten(Result<(), UpdateError>),
    MarkerPersisted(Result<(), UpdateError>),
}

/// What the surrounding program must do next.
pub enum Action {
    /// GET the metadata endpoint and decode the descriptor.
    FetchMetadata { url: String },
    /// Read the marker file, `None` if it does not exist.
    ReadMarker,
    /// Create the marker's directory and write `value` as the marker.
    WriteDefaultMarker { value: String },
    /// GET `url` following at most ten redirects and report the final URL.
    ResolveRedirect { url: String },
    /// Stream the body of `url` chunk by chunk, reporting progress.
    DownloadBody { url: String },
    /// Write the accumulated body to `filename` in the working directory.
    WriteArtifact { filename: String },
    /// Overwrite the marker with `value`.
    PersistMarker { value: String },
    /// The run is over; the phase holds the outcome or the error.
    Done,
}

/// True of the actions that write to the filesystem.
pub open spec fn action_writes_file(a: Action) -> bool {
    a is WriteDefaultMarker || a is WriteArtifact || a is PersistMarker
}

/// True of the actions that write the version marker.
pub open spec fn action_writes_marker(a: Action) -> bool {
    a is WriteDefaultMarker || a is PersistMarker
}

/// True of the actions that issue a network request.
pub open spec fn action_requests_network(a: Action) -> bool {
    a is FetchMetadata || a is ResolveRedirect || a is DownloadBody
}

/// Which event a phase is waiting for. Finished and failed runs accept none.
pub open spec fn accepts(phase: Phase, event: Event) -> bool {
    match (phase, event) {
        (Phase::AwaitMetadata, Event::MetadataFetched(_)) => true,
        (Phase::AwaitMarker { .. }, Event::MarkerRead(_)) => true,
        (Phase::AwaitDefaultWrite { .. }, Event::DefaultWritten(_)) => true,
        (Phase::AwaitRedirect { .. }, Event::RedirectResolved(_)) => true,
        (Phase::AwaitBody { .. }, Event::BodyComplete(_)) => true,
        (Phase::AwaitArtifactWrite { .. }, Event::ArtifactWritten(_)) => true,
        (Phase::AwaitPersist { .. }, Event::MarkerPersisted(_)) => true,
        _ => false,
    }
}

/// A failed action puts the run in the failed phase and ends it.
pub open spec fn failed_step(config: UpdateConfig, e: UpdateError, post: UpdateOrchestrator, act: Action) -> bool {
    &&& post.config == config
    &&& post.phase == Phase::Failed(e)
    &&& act == Action::Done
}

/// The decision once a local version is at hand: when the remote version is
/// newer, start resolving redirects from the descriptor's URL; otherwise the
/// run finishes up to date with the local version, and nothing is downloaded
/// or written.
pub open spec fn compare_step(
    config: UpdateConfig,
    d: UpdateDescriptor,
    local: String,
    post: UpdateOrchestrator,
    act: Action,
) -> bool {
    &&& post.config == config
    &&& if version_newer(d.version@, local@) {
        &&& post.phase == (Phase::AwaitRedirect { descriptor: d, local })
        &&& act == (Action::ResolveRedirect { url: d.url })
    } else {
        &&& post.phase == (Phase::Finished(UpdateOutcome::UpToDate { local_version: local }))
        &&& act == Action::Done
    }
}

/// The whole transition relation: what one event does to the run and which
/// action it commands next.
pub open spec fn step_spec(
    pre: UpdateOrchestrator,
    event: Event,
    post: UpdateOrchestrator,
    act: Action,
) -> bool {
    match (pre.phase, event) {
        (Phase::AwaitMetadata, Event::MetadataFetched(res)) => match res {
            Ok(d) => {
                &&& post.config == pre.config
                &&& post.phase == (Phase::AwaitMarker { descriptor: d })
                &&& act == Action::ReadMarker
            },
            Err(e) => failed_step(pre.config, e, post, act),
        },
        (Phase::AwaitMarker { descriptor: d }, Event::MarkerRead(res)) => match res {
            Ok(Some(local)) => compare_step(pre.config, d, local, post, act),
            Ok(None) => {
                &&& post.config == pre.config
                &&& post.phase == (Phase::AwaitDefaultWrite {
                    descriptor: d,
                    local: pre.config.default_version,
                })
                &&& act == (Action::WriteDefaultMarker { value: pre.config.default_version })
            },
            Err(e) => failed_step(pre.config, e, post, act),
        },
        (Phase::AwaitDefaultWrite { descriptor: d, local }, Event::DefaultWritten(res)) => match res {
            Ok(_) => compare_step(pre.config, d, local, post, act),
            Err(e) => failed_step(pre.config, e, post, act),
        },
        (Phase::AwaitRedirect { descriptor: d, local: _ }, Event::RedirectResolved(res)) => match res {
            Ok(final_url) => {
                &&& post.config == pre.config
                &&& (match post.phase {
                    Phase::AwaitBody { descriptor: d2, filename } => {
                        &&& d2 == d
                        &&& filename@ == resolved_filename(final_url@)
                    },
                    _ => false,
                })
                &&& act == (Action::DownloadBody { url: final_url })
            },
            Err(e) => failed_step(pre.config, e, post, act),
        },
        (Phase::AwaitBody { descriptor: d, filename }, Event::BodyComplete(res)) => match res {
            Ok(_) => {
                &&& post.config == pre.config
                &&& post.phase == (Phase::AwaitArtifactWrite { descriptor: d, filename })
                &&& act == (Action::WriteArtifact { filename })
            },
            Err(e) => failed_step(pre.config, e, post, act),
        },
        (Phase::AwaitArtifactWrite { descriptor: d, filename }, Event::ArtifactWritten(res)) => match res {
            Ok(_) => {
                &&& post.config == pre.config
                &&& post.phase == (Phase::AwaitPersist { descriptor: d, filename })
                &&& act == (Action::PersistMarker { value: d.version })
            },
            Err(e) => failed_step(pre.config, e, post, act),
        },
        (Phase::AwaitPersist { descriptor: d, filename }, Event::MarkerPersisted(res)) => match res {
            Ok(_) => {
                &&& post.config == pre.config
                &&& post.phase == (Phase::Finished(UpdateOutcome::Downloaded {
                    version: d.version,
                    filename,
                }))
                &&& act == Action::Done
            },
            Err(e) => failed_step(pre.config, e, post, act),
        },
        _ => false,
    }
}

/// A run that has finished or failed.
pub open spec fn is_terminal(phase: Phase) -> bool {
    phase is Finished || phase is Failed
}

/// Law: a finished or failed run accepts no further event — nothing more is
/// fetched or written after a terminal phase is reached.
pub proof fn lemma_terminal_accepts_nothing(phase: Phase, event: Event)
    requires
        is_terminal(phase),
    ensures
        !accepts(phase, event),
{
}

/// Law: the marker is only ever written on the machine's command, and the
/// machine commands a marker write only to synthesize the default when no
/// marker existed, or to persist the remote version once the artifact write
/// has succeeded — never before a successful download.
pub proof fn lemma_marker_write_discipline(
    pre: UpdateOrchestrator,
    event: Event,
    post: UpdateOrchestrator,
    act: Action,
)
    requires
        step_spec(pre, event, post, act),
        action_writes_marker(act),
    ensures
        act is WriteDefaultMarker ==> pre.phase is AwaitMarker && event == Event::MarkerRead(
            Ok(None::<String>),
        ),
        act is PersistMarker ==> pre.phase is AwaitArtifactWrite && (event matches
        Event::ArtifactWritten(res) && res is Ok),
{
}

/// Law: when the remote descriptor names a version newer than the local
/// marker, the run resolves redirects from the descriptor's URL, downloads
/// from the final URL reached, writes the artifact under the filename
/// resolved from that final URL, persists the remote version — only after the
/// artifact write succeeded — and finishes with a downloaded outcome naming
/// that version and filename.
pub proof fn lemma_newer_version_downloads(
    o0: UpdateOrchestrator,
    d: UpdateDescriptor,
    local: String,
    final_url: String,
    o1: UpdateOrchestrator,
    a1: Action,
    o2: UpdateOrchestrator,
    a2: Action,
    o3: UpdateOrchestrator,
    a3: Action,
    o4: UpdateOrchestrator,
    a4: Action,
    o5: UpdateOrchestrator,
    a5: Action,
    o6: UpdateOrchestrator,
    a6: Action,
)
    requires
        o0.phase is AwaitMetadata,
        version_newer(d.version@, local@),
        step_spec(o0, Event::MetadataFetched(Ok(d)), o1, a1),
        step_spec(o1, Event::MarkerRead(Ok(Some(local))), o2, a2),
        step_spec(o2, Event::RedirectResolved(Ok(final_url)), o3, a3),
        step_spec(o3, Event::BodyComplete(Ok(())), o4, a4),
        step_spec(o4, Event::ArtifactWritten(Ok(())), o5, a5),
        step_spec(o5, Event::MarkerPersisted(Ok(())), o6, a6),
    ensures
        a1 == Action::ReadMarker,
        a2 == (Action::ResolveRedirect { url: d.url }),
        a3 == (Action::DownloadBody { url: final_url }),
        a4 matches Action::WriteArtifact { filename } && filename@ == resolved_filename(
            final_url@,
        ),
        a5 == (Action::PersistMarker { value: d.version }),
        a6 == Action::Done,
        o6.phase matches Phase::Finished(UpdateOutcome::Downloaded { version, filename })
            && version == d.version && filename@ == resolved_filename(final_url@),
{
}

/// Law: when the remote version is not newer than the existing local marker,
/// the run finishes up to date with the local version right after the marker
/// is read: no network request beyond the metadata fetch is commanded, no
/// file is written, and no further event is accepted.
pub proof fn lemma_up_to_date_run(
    o0: UpdateOrchestrator,
    d: UpdateDescriptor,
    local: String,
    o1: UpdateOrchestrator,
    a1: Action,
    o2: UpdateOrchestrator,
    a2: Action,
)
    requires
        o0.phase is AwaitMetadata,
        !version_newer(d.version@, local@),
        step_spec(o0, Event::MetadataFetched(Ok(d)), o1, a1),
        step_spec(o1, Event::MarkerRead(Ok(Some(local))), o2, a2),
    ensures
        a1 == Action::ReadMarker,
        a2 == Action::Done,
        !action_requests_network(a1) && !action_requests_network(a2),
        !action_writes_file(a1) && !action_writes_file(a2),
        o2.phase == Phase::Finished(UpdateOutcome::UpToDate { local_version: local }),
        forall|e: Event| !accepts(o2.phase, e),
{
}

/// Law: a failed metadata fetch ends the run at once: the only commanded
/// action is the terminal one, so nothing is downloaded, nothing is written,
/// and the marker file is left byte-for-byte unchanged.
pub proof fn lemma_metadata_failure_writes_nothing(
    o0: UpdateOrchestrator,
    err: UpdateError,
    o1: UpdateOrchestrator,
    a1: Action,
)
    requires
        o0.phase is AwaitMetadata,
        step_spec(o0, Event::MetadataFetched(Err(err)), o1, a1),
    ensures
        a1 == Action::Done,
        !action_writes_file(a1),
        !action_requests_network(a1),
        o1.phase == Phase::Failed(err),
        forall|e: Event| !accepts(o1.phase, e),
{
}

/// One update run: the injected configuration and where the run stands.
pub struct UpdateOrchestrator {
    pub config: UpdateConfig,
    pub phase: Phase,
}

impl UpdateOrchestrator {
    pub fn new(config: UpdateConfig) -> (o: UpdateOrchestrator)
        ensures
            o.config == config,
            o.phase is Start,
    {
        UpdateOrchestrator { config, phase: Phase::Start }
    }

    /// Begin the run: the one metadata fetch is commanded, and the machine
    /// waits for its result.
    pub fn start(self) -> (r: (UpdateOrchestrator, Action))
        requires
            self.phase is Start,
        ensures
            r.0.config == self.config,
            r.0.phase is AwaitMetadata,
            r.1 == (Action::FetchMetadata { url: self.config.check_url }),
    {
        let url = self.config.check_url.clone();
        (
            UpdateOrchestrator { config: self.config, phase: Phase::AwaitMetadata },
            Action::FetchMetadata { url },
        )
    }

    /// Whether the machine is waiting for exactly this event.
    pub fn accepts_event(&self, event: &Event) -> (b: bool)
        ensures
            b == accepts(self.phase, *event),
    {
        match (&self.phase, event) {
            (Phase::AwaitMetadata, Event::MetadataFetched(_)) => true,
            (Phase::AwaitMarker { .. }, Event::MarkerRead(_)) => true,
            (Phase::AwaitDefaultWrite { .. }, Event::DefaultWritten(_)) => true,
            (Phase::AwaitRedirect { .. }, Event::RedirectResolved(_)) => true,
            (Phase::AwaitBody { .. }, Event::BodyComplete(_)) => true,
            (Phase::AwaitArtifactWrite { .. }, Event::ArtifactWritten(_)) => true,
            (Phase::AwaitPersist { .. }, Event::MarkerPersisted(_)) => true,
            _ => false,
        }
    }

    /// Feed the result of the last commanded action into the machine and get
    /// the next command.
    pub fn step(self, event: Event) -> (r: (UpdateOrchestrator, Action))
        requires
            accepts(self.phase, event),
        ensures
            step_spec(self, event, r.0, r.1),
    {
        let UpdateOrchestrator { config, phase } = self;
        match (phase, event) {
            (Phase::AwaitMetadata, Event::MetadataFetched(res)) => match res {
                Ok(d) => (
                    UpdateOrchestrator { config, phase: Phase::AwaitMarker { descriptor: d } },
                    Action::ReadMarker,
                ),
                Err(e) => (
                    UpdateOrchestrator { config, phase: Phase::Failed(e) },
                    Action::Done,
                ),
            },
            (Phase::AwaitMarker { descriptor }, Event::MarkerRead(res)) => match res {
                Ok(Some(local)) => Self::decide(config, descriptor, local),
                Ok(None) => {
                    let value = config.default_version.clone();
                    let local = config.default_version.clone();
                    (
                        UpdateOrchestrator {
                            config,
                            phase: Phase::AwaitDefaultWrite { descriptor, local },
                        },
                        Action::WriteDefaultMarker { value },
                    )
                },
                Err(e) => (
                    UpdateOrchestrator { config, phase: Phase::Failed(e) },
                    Action::Done,
                ),
            },
            (Phase::AwaitDefaultWrite { descriptor, local }, Event::DefaultWritten(res)) => match res {
                Ok(_) => Self::decide(config, descriptor, local),
                Err(e) => (
                    UpdateOrchestrator { config, phase: Phase::Failed(e) },
                    Action::Done,
                ),
            },
            (Phase::AwaitRedirect { descriptor, local: _ }, Event::RedirectResolved(res)) => match res {
                Ok(final_url) => {
                    let filename = extract_filename_from_url(final_url.as_str());
                    (
                        UpdateOrchestrator {
                            config,
                            phase: Phase::AwaitBody { descriptor, filename },
                        },
                        Action::DownloadBody { url: final_url },
                    )
                },
                Err(e) => (
                    UpdateOrchestrator { config, phase: Phase::Failed(e) },
                    Action::Done,
                ),
            },
            (Phase::AwaitBody { descriptor, filename }, Event::BodyComplete(res)) => match res {
                Ok(_) => {
                    let name = filename.clone();
                    (
                        UpdateOrchestrator {
                            config,
                            phase: Phase::AwaitArtifactWrite { descriptor, filename },
                        },
                        Action::WriteArtifact { filename: name },
                    )
                },
                Err(e) => (
                    UpdateOrchestrator { config, phase: Phase::Failed(e) },
                    Action::Done,
                ),
            },
            (Phase::AwaitArtifactWrite { descriptor, filename }, Event::ArtifactWritten(res)) => match res {
                Ok(_) => {
                    let value = descriptor.version.clone();
                    (
                        UpdateOrchestrator {
                            config,
                            phase: Phase::AwaitPersist { descriptor, filename },
                        },
                        Action::PersistMarker { value },
                    )
                },
                Err(e) => (
                    UpdateOrchestrator { config, phase: Phase::Failed(e) },
                    Action::Done,
                ),
            },
            (Phase::AwaitPersist { descriptor, filename }, Event::MarkerPersisted(res)) => match res {
                Ok(_) => (
                    UpdateOrchestrator {
                        config,
                        phase: Phase::Finished(UpdateOutcome::Downloaded {
                            version: descriptor.version,
                            filename,
                        }),
                    },
                    Action::Done,
                ),
                Err(e) => (
                    UpdateOrchestrator { config, phase: Phase::Failed(e) },
                    Action::Done,
                ),
            },
            _ => {
                proof {
                    assert(false);
                }
                vstd::pervasive::unreached()
            },
        }
    }

    /// Compare the remote version against the local one and decide whether a
    /// download begins or the run is already up to date.
    fn decide(config: UpdateConfig, descriptor: UpdateDescriptor, local: String) -> (r: (
        UpdateOrchestrator,
        Action,
    ))
        ensures
            compare_step(config, descriptor, local, r.0, r.1),
    {
        let newer = compare_versions(descriptor.version.as_str(), local.as_str());
        if newer {
            let url = descriptor.url.clone();
            (
                UpdateOrchestrator {
                    config,
                    phase: Phase::AwaitRedirect { descriptor, local },
                },
                Action::ResolveRedirect { url },
            )
        } else {
            (
                UpdateOrchestrator {
                    config,
                    phase: Phase::Finished(UpdateOutcome::UpToDate { local_version: local }),
                },
                Action::Done,
            )
        }
    }
}

} // verus!
