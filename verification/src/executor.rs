//! Getting one target: the artifact is built or fetched as its source
//! says, then uploaded where that is due, and handed out. Each step is
//! taken outside; this module decides what step comes next.

use crate::error::Failure;
use crate::error::ResolveError;
use crate::project::ide::OutputPath;
use crate::source::CiRunSource;
use crate::source::ExternalSource;
use crate::source::GetTargetJob;
use crate::source::ReleaseSource;
use crate::source::Source;
use vstd::prelude::*;
use vstd::string::*;

verus! {

/// Where the getting of a target stands.
#[derive(Debug)]
pub enum GetState {
    /// The artifact is being built; `upload` tells whether it is to be
    /// uploaded afterwards.
    Building { destination: OutputPath, upload: bool },
    /// The artifact is being fetched from an external source.
    Fetching { destination: OutputPath },
    /// The artifact at `artifact` is being uploaded.
    Uploading { artifact: String },
    /// The artifact is at `artifact`.
    Done { artifact: String },
    /// The operation has failed.
    Failed(Failure),
}

/// The first step of getting a target.
#[derive(Debug)]
pub enum FirstStep<I> {
    /// Build the artifact from the inputs.
    BuildLocally { input: I, destination: OutputPath },
    /// Fetch the artifact from its origin.
    FetchExternal { source: ExternalSource, destination: OutputPath },
    /// Give up with the failure.
    Abort(Failure),
}

/// A later step of getting a target.
#[derive(Debug)]
pub enum NextStep {
    /// Upload the artifact at `artifact` to the CI provider.
    Upload { artifact: String },
    /// Hand the artifact at `artifact` out.
    Return { artifact: String },
    /// Give up with the failure.
    Abort(Failure),
    /// The event is not one that the state waits for: nothing to do.
    Ignore,
}

/// What happened outside.
#[derive(Debug)]
pub enum GetEvent {
    /// The build has ended: with the place of the artifact or with what
    /// the builder reported.
    Built(Result<String, String>),
    /// The download has ended.
    Fetched(Result<String, String>),
    /// The upload has ended.
    Uploaded(Result<(), String>),
}

/// How an artifact is fetched from an external source.
#[derive(Debug)]
pub enum FetchStep {
    /// The artifact is at the given place already, and may stay there.
    InPlace(String),
    /// Copy the artifact from one place to another.
    Mirror { from: String, to: String },
    /// Get the artifact of the CI run through the cache, then bring the
    /// entry to the destination.
    FromCache { run: CiRunSource, destination: OutputPath },
    /// Download the asset of the release and unpack it at the given place.
    DownloadAsset { asset: ReleaseSource, to: String },
}

/// How something that is on disk at `at` comes to its destination: it may
/// stay where it is unless the destination is required to be elsewhere.
pub open spec fn brought(destination: OutputPath, at: Seq<char>, step: FetchStep) -> bool {
    match destination {
        OutputPath::Required(required) if required@ != at => {
            &&& step matches FetchStep::Mirror { from, to }
            &&& from@ == at
            &&& to@ == required@
        },
        _ => step matches FetchStep::InPlace(place) && place@ == at,
    }
}

/// Decides how something that is on disk at `at` comes to its destination.
pub fn bring(destination: &OutputPath, at: &str) -> (step: FetchStep)
    ensures
        brought(*destination, at@, step),
{
    if destination.is_honoured_by(at) {
        FetchStep::InPlace(String::from_str(at))
    } else {
        FetchStep::Mirror { from: String::from_str(at), to: destination.place(None, at) }
    }
}

/// How an artifact is fetched from an external source to a destination;
/// `fallback` is the place for a download whose destination is left open.
///
/// What is on disk stays there or is copied. An artifact of a CI run goes
/// through the cache. An asset of a release is downloaded and unpacked at
/// the required or suggested place, or else at the fallback.
pub open spec fn fetched(
    source: ExternalSource,
    destination: OutputPath,
    fallback: Seq<char>,
    step: FetchStep,
) -> bool {
    match source {
        ExternalSource::LocalFile(path) => brought(destination, path@, step),
        ExternalSource::CiRun(run) => step == (FetchStep::FromCache { run, destination }),
        ExternalSource::Release(release) => {
            &&& step matches FetchStep::DownloadAsset { asset, to }
            &&& asset == release
            &&& to@ == destination.placed(None, fallback)
        },
    }
}

/// Decides how an artifact is fetched from an external source.
pub fn fetch_external(source: ExternalSource, destination: OutputPath, fallback: &str) -> (step:
    FetchStep)
    ensures
        fetched(source, destination, fallback@, step),
{
    match source {
        ExternalSource::LocalFile(path) => bring(&destination, path.as_str()),
        ExternalSource::CiRun(run) => FetchStep::FromCache { run, destination },
        ExternalSource::Release(release) => FetchStep::DownloadAsset {
            to: destination.place(None, fallback),
            asset: release,
        },
    }
}

/// Whether an artifact is to be uploaded once it is there: only one that
/// was built here, and only inside the CI provider's environment.
pub open spec fn upload_is_due<I>(source: Source<I>, in_ci: bool) -> bool {
    source is BuildLocally && in_ci
}

/// Decides whether an artifact is to be uploaded.
pub fn should_upload<I>(source: &Source<I>, in_ci: bool) -> (due: bool)
    ensures
        due == upload_is_due(*source, in_ci),
{
    source.is_build() && in_ci
}

/// The state and the first step for a resolved job, or for a resolution
/// that failed.
pub open spec fn begun<I>(resolved: Result<GetTargetJob<I>, ResolveError>, in_ci: bool) -> (
    GetState,
    FirstStep<I>,
) {
    match resolved {
        Err(e) => (GetState::Failed(Failure::Resolve(e)), FirstStep::Abort(Failure::Resolve(e))),
        Ok(job) => match job.source {
            Source::BuildLocally(input) => (
                GetState::Building { destination: job.destination, upload: in_ci },
                FirstStep::BuildLocally { input, destination: job.destination },
            ),
            Source::External(source) => (
                GetState::Fetching { destination: job.destination },
                FirstStep::FetchExternal { source, destination: job.destination },
            ),
        },
    }
}

/// What the arrival of an artifact at `actual` leads to under a
/// destination policy: where the policy is honoured, on to the upload if
/// one is due and else to the end; where it is not, to a failure.
pub open spec fn arrived(destination: OutputPath, actual: String, upload: bool) -> (
    GetState,
    NextStep,
) {
    match destination {
        OutputPath::Required(required) if required@ != actual@ => (
            GetState::Failed(Failure::Misplaced { required, actual }),
            NextStep::Abort(Failure::Misplaced { required, actual }),
        ),
        _ => if upload {
            (GetState::Uploading { artifact: actual }, NextStep::Upload { artifact: actual })
        } else {
            (GetState::Done { artifact: actual }, NextStep::Return { artifact: actual })
        },
    }
}

impl GetState {
    /// The state and the step that follow an event.
    ///
    /// A finished build or download leads on when the artifact is where the
    /// policy wants it: to the upload where it is due, else to the end. A
    /// finished upload leads to the end. Any failure ends the operation.
    /// An event that the state does not wait for changes nothing.
    pub open spec fn after(self, event: GetEvent) -> (GetState, NextStep) {
        match (self, event) {
            (GetState::Building { destination, upload }, GetEvent::Built(Ok(actual))) => arrived(
                destination,
                actual,
                upload,
            ),
            (GetState::Building { .. }, GetEvent::Built(Err(report))) => (
                GetState::Failed(Failure::Build(report)),
                NextStep::Abort(Failure::Build(report)),
            ),
            (GetState::Fetching { destination }, GetEvent::Fetched(Ok(actual))) => arrived(
                destination,
                actual,
                false,
            ),
            (GetState::Fetching { .. }, GetEvent::Fetched(Err(report))) => (
                GetState::Failed(Failure::Fetch(report)),
                NextStep::Abort(Failure::Fetch(report)),
            ),
            (GetState::Uploading { artifact }, GetEvent::Uploaded(Ok(_))) => (
                GetState::Done { artifact },
                NextStep::Return { artifact },
            ),
            (GetState::Uploading { .. }, GetEvent::Uploaded(Err(report))) => (
                GetState::Failed(Failure::Upload(report)),
                NextStep::Abort(Failure::Upload(report)),
            ),
            (state, _) => (state, NextStep::Ignore),
        }
    }

    /// Whether the operation has ended.
    pub open spec fn is_terminal(self) -> bool {
        self is Done || self is Failed
    }

    /// Starts getting a target: dispatches on the source of the job. A
    /// resolution that failed ends the operation at once.
    pub fn begin<I>(resolved: Result<GetTargetJob<I>, ResolveError>, in_ci: bool) -> (started: (
        GetState,
        FirstStep<I>,
    ))
        ensures
            started == begun(resolved, in_ci),
            resolved matches Ok(job) ==> (started.0 matches GetState::Building { upload, .. }
                && upload) == upload_is_due(job.source, in_ci),
    {
        match resolved {
            Err(e) => (GetState::Failed(Failure::Resolve(e)), FirstStep::Abort(Failure::Resolve(e))),
            Ok(job) => {
                let upload = should_upload(&job.source, in_ci);
                let GetTargetJob { source, destination } = job;
                match source {
                    Source::BuildLocally(input) => (
                        GetState::Building { destination: destination.clone(), upload },
                        FirstStep::BuildLocally { input, destination },
                    ),
                    Source::External(source) => (
                        GetState::Fetching { destination: destination.clone() },
                        FirstStep::FetchExternal { source, destination },
                    ),
                }
            },
        }
    }

    /// Takes the arrival of an artifact in.
    fn arrive(destination: OutputPath, actual: String, upload: bool) -> (next: (GetState, NextStep))
        ensures
            next == arrived(destination, actual, upload),
    {
        if !destination.is_honoured_by(actual.as_str()) {
            match destination {
                OutputPath::Required(required) => (
                    GetState::Failed(
                        Failure::Misplaced { required: required.clone(), actual: actual.clone() },
                    ),
                    NextStep::Abort(Failure::Misplaced { required, actual }),
                ),
                _ => (GetState::Done { artifact: actual.clone() }, NextStep::Return { artifact: actual }),
            }
        } else if upload {
            (GetState::Uploading { artifact: actual.clone() }, NextStep::Upload { artifact: actual })
        } else {
            (GetState::Done { artifact: actual.clone() }, NextStep::Return { artifact: actual })
        }
    }

    /// Takes an event in and says what to do next.
    pub fn on(self, event: GetEvent) -> (next: (GetState, NextStep))
        ensures
            next == self.after(event),
    {
        match self {
            GetState::Building { destination, upload } => match event {
                GetEvent::Built(Ok(actual)) => Self::arrive(destination, actual, upload),
                GetEvent::Built(Err(report)) => (
                    GetState::Failed(Failure::Build(report.clone())),
                    NextStep::Abort(Failure::Build(report)),
                ),
                _ => (GetState::Building { destination, upload }, NextStep::Ignore),
            },
            GetState::Fetching { destination } => match event {
                GetEvent::Fetched(Ok(actual)) => Self::arrive(destination, actual, false),
                GetEvent::Fetched(Err(report)) => (
                    GetState::Failed(Failure::Fetch(report.clone())),
                    NextStep::Abort(Failure::Fetch(report)),
                ),
                _ => (GetState::Fetching { destination }, NextStep::Ignore),
            },
            GetState::Uploading { artifact } => match event {
                GetEvent::Uploaded(Ok(_)) => (
                    GetState::Done { artifact: artifact.clone() },
                    NextStep::Return { artifact },
                ),
                GetEvent::Uploaded(Err(report)) => (
                    GetState::Failed(Failure::Upload(report.clone())),
                    NextStep::Abort(Failure::Upload(report)),
                ),
                _ => (GetState::Uploading { artifact }, NextStep::Ignore),
            },
            state => (state, NextStep::Ignore),
        }
    }

    /// Whether the operation has ended.
    pub fn terminal(&self) -> (ended: bool)
        ensures
            ended == self.is_terminal(),
    {
        match self {
            GetState::Done { .. } => true,
            GetState::Failed(_) => true,
            _ => false,
        }
    }
}

/// The state that a run reaches from `state` when the events come in one
/// after the other.
pub open spec fn state_after(state: GetState, events: Seq<GetEvent>) -> GetState
    decreases events.len(),
{
    if events.len() == 0 {
        state
    } else {
        state_after(state.after(events[0]).0, events.drop_first())
    }
}

/// How many uploads a run from `state` asks for when the events come in one
/// after the other.
pub open spec fn uploads_after(state: GetState, events: Seq<GetEvent>) -> nat
    decreases events.len(),
{
    if events.len() == 0 {
        0
    } else {
        let (next, step) = state.after(events[0]);
        (if step is Upload {
            1nat
        } else {
            0nat
        }) + uploads_after(next, events.drop_first())
    }
}

/// From a state other than that of a build which still owes its upload, no
/// upload is ever asked for.
pub proof fn lemma_no_upload_unless_owed(state: GetState, events: Seq<GetEvent>)
    requires
        !(state matches GetState::Building { upload, .. } && upload),
    ensures
        uploads_after(state, events) == 0,
    decreases events.len(),
{
    if events.len() > 0 {
        let (next, step) = state.after(events[0]);
        lemma_no_upload_unless_owed(next, events.drop_first());
    }
}

/// Upload gating. Whatever happens outside, getting a target asks for an
/// upload at most once, and only for an artifact that was built here while
/// running inside the CI provider's environment: a fetched artifact is
/// never uploaded, and nothing is uploaded outside that environment. The
/// upload is asked for exactly when such a build ends with its artifact in
/// place, as the first thing that happens.
pub proof fn lemma_upload_gating<I>(job: GetTargetJob<I>, in_ci: bool, events: Seq<GetEvent>)
    ensures
        uploads_after(begun(Ok(job), in_ci).0, events) <= 1,
        uploads_after(begun(Ok(job), in_ci).0, events) == 1 ==> job.source is BuildLocally && in_ci,
        job.source is External ==> uploads_after(begun(Ok(job), in_ci).0, events) == 0,
        !in_ci ==> uploads_after(begun(Ok(job), in_ci).0, events) == 0,
        !(begun(Ok(job), in_ci).1 is Abort),
        job.source is BuildLocally && in_ci && events.len() > 0 && (events[0] matches GetEvent::Built(
            Ok(actual),
        ) && job.destination.honoured_by(actual@)) ==> uploads_after(
            begun(Ok(job), in_ci).0,
            events,
        ) == 1,
    decreases events.len(),
{
    let start = begun(Ok(job), in_ci).0;
    if job.source is BuildLocally && in_ci {
        lemma_uploads_of_owing_build(start, events);
    } else {
        lemma_no_upload_unless_owed(start, events);
    }
}

/// A build that owes its upload asks for it at most once: when the
/// artifact arrives in place.
pub proof fn lemma_uploads_of_owing_build(state: GetState, events: Seq<GetEvent>)
    requires
        state matches GetState::Building { upload, .. } && upload,
    ensures
        uploads_after(state, events) <= 1,
        events.len() > 0 && (events[0] matches GetEvent::Built(Ok(actual)) && (
        state matches GetState::Building { destination, .. } && destination.honoured_by(actual@)))
            ==> uploads_after(state, events) == 1,
    decreases events.len(),
{
    if events.len() > 0 {
        let (next, step) = state.after(events[0]);
        if next matches GetState::Building { upload, .. } && upload {
            lemma_uploads_of_owing_build(next, events.drop_first());
            assert(!(events[0] matches GetEvent::Built(Ok(_))));
        } else {
            lemma_no_upload_unless_owed(next, events.drop_first());
        }
    }
}

/// Destination policy. When getting a target with a required destination
/// ends well, the artifact is exactly there.
pub proof fn lemma_required_destination<I>(
    job: GetTargetJob<I>,
    in_ci: bool,
    events: Seq<GetEvent>,
)
    requires
        job.destination is Required,
    ensures
        state_after(begun(Ok(job), in_ci).0, events) matches GetState::Done { artifact }
            ==> artifact@ == job.destination->Required_0@,
{
    lemma_destination_kept(begun(Ok(job), in_ci).0, events, job.destination->Required_0@);
}

/// Whether a state can only end well with the artifact at `place`.
pub open spec fn bound_to(state: GetState, place: Seq<char>) -> bool {
    match state {
        GetState::Building { destination, .. } => destination matches OutputPath::Required(p)
            && p@ == place,
        GetState::Fetching { destination } => destination matches OutputPath::Required(p) && p@
            == place,
        GetState::Uploading { artifact } => artifact@ == place,
        GetState::Done { artifact } => artifact@ == place,
        GetState::Failed(_) => true,
    }
}

/// A state that is bound to a place stays so.
pub proof fn lemma_destination_kept(state: GetState, events: Seq<GetEvent>, place: Seq<char>)
    requires
        bound_to(state, place),
    ensures
        bound_to(state_after(state, events), place),
    decreases events.len(),
{
    if events.len() > 0 {
        lemma_destination_kept(state.after(events[0]).0, events.drop_first(), place);
    }
}

/// A failed upload fails the whole operation: when the upload that was due
/// fails, getting the target has failed with it, and whatever comes later
/// does not make it report success.
pub proof fn lemma_failed_upload_fails_get(artifact: String, report: String, events: Seq<GetEvent>)
    ensures
        ({
            let uploading = GetState::Uploading { artifact };
            let (failed, step) = uploading.after(GetEvent::Uploaded(Err(report)));
            &&& failed == GetState::Failed(Failure::Upload(report))
            &&& step == NextStep::Abort(Failure::Upload(report))
            &&& state_after(failed, events) == failed
            &&& !(state_after(failed, events) is Done)
        }),
{
    lemma_failure_is_final(Failure::Upload(report), events);
}

/// Failures are final: once getting a target has failed, it stays failed
/// with the same failure, and never reports success.
pub proof fn lemma_failure_is_final(failure: Failure, events: Seq<GetEvent>)
    ensures
        state_after(GetState::Failed(failure), events) == GetState::Failed(failure),
    decreases events.len(),
{
    if events.len() > 0 {
        lemma_failure_is_final(failure, events.drop_first());
    }
}

} // verus!
