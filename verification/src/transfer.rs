//! The transfer executor, modeled as a state machine.
//!
//! A transfer plan pairs the selected strategy with its validated locators.
//! The machine turns the plan into a linear sequence of actions (network
//! requests, file reads and writes); the unverified shell performs each
//! action and hands the machine the resulting event. Exactly one of the
//! three strategy branches runs per invocation, to completion or failure,
//! with no partial fallback between branches.
//!
//! Known limitation: a download creates (truncates) the destination file
//! before the first chunk arrives, so a failure mid-stream can leave a
//! partial file behind.

use vstd::prelude::*;

use crate::error::{ErrorView, OutcomeView, TransferError, TransferOutcome};
use crate::locator::{
    classify_endpoint, spec_classify, ClassificationView, EndpointClassification, LocatorView,
    RemoteLocator,
};
use crate::strategy::{spec_select_strategy, TransferStrategy};

verus! {

/// Mathematical image of a [`TransferPlan`].
#[verifier::ext_equal]
pub enum PlanView {
    RemoteToRemote { source: LocatorView, destination: LocatorView },
    UploadLocalToRemote { source: Seq<char>, destination: LocatorView },
    DownloadRemoteToLocal { source: LocatorView, destination: Seq<char> },
}

/// The selected strategy together with its validated locators. Derived only
/// from a pair of descriptors by [`plan_transfer`].
#[derive(Debug, PartialEq, Eq)]
pub enum TransferPlan {
    RemoteToRemote { source: RemoteLocator, destination: RemoteLocator },
    UploadLocalToRemote { source: String, destination: RemoteLocator },
    DownloadRemoteToLocal { source: RemoteLocator, destination: String },
}

impl View for TransferPlan {
    type V = PlanView;

    open spec fn view(&self) -> PlanView {
        match self {
            TransferPlan::RemoteToRemote { source, destination } => PlanView::RemoteToRemote {
                source: source@,
                destination: destination@,
            },
            TransferPlan::UploadLocalToRemote { source, destination } => PlanView::UploadLocalToRemote {
                source: source@,
                destination: destination@,
            },
            TransferPlan::DownloadRemoteToLocal { source, destination } => PlanView::DownloadRemoteToLocal {
                source: source@,
                destination: destination@,
            },
        }
    }
}

/// The strategy a plan carries out.
pub open spec fn spec_plan_strategy(p: PlanView) -> TransferStrategy {
    match p {
        PlanView::RemoteToRemote { .. } => TransferStrategy::RemoteToRemote,
        PlanView::UploadLocalToRemote { .. } => TransferStrategy::UploadLocalToRemote,
        PlanView::DownloadRemoteToLocal { .. } => TransferStrategy::DownloadRemoteToLocal,
    }
}

impl TransferPlan {
    /// The strategy this plan carries out.
    pub fn strategy(&self) -> (s: TransferStrategy)
        ensures
            s == spec_plan_strategy(self@),
    {
        match self {
            TransferPlan::RemoteToRemote { .. } => TransferStrategy::RemoteToRemote,
            TransferPlan::UploadLocalToRemote { .. } => TransferStrategy::UploadLocalToRemote,
            TransferPlan::DownloadRemoteToLocal { .. } => TransferStrategy::DownloadRemoteToLocal,
        }
    }
}

/// What resolving a pair of descriptors yields: the classification of each
/// side, then the strategy table of the selector, with the locators carried
/// along. The source is classified first, as its errors are reported first.
pub open spec fn spec_plan(source: Seq<char>, destination: Seq<char>) -> Result<
    PlanView,
    ErrorView,
> {
    match spec_classify(source) {
        Err(e) => Err(e),
        Ok(sc) => match spec_classify(destination) {
            Err(e) => Err(e),
            Ok(dc) => match (sc, dc) {
                (ClassificationView::Remote(a), ClassificationView::Remote(b)) => Ok(
                    PlanView::RemoteToRemote { source: a, destination: b },
                ),
                (ClassificationView::Local(p), ClassificationView::Remote(b)) => Ok(
                    PlanView::UploadLocalToRemote { source: p, destination: b },
                ),
                (ClassificationView::Remote(a), ClassificationView::Local(p)) => Ok(
                    PlanView::DownloadRemoteToLocal { source: a, destination: p },
                ),
                (ClassificationView::Local(_), ClassificationView::Local(_)) => Err(
                    ErrorView::NoRemoteEndpoint,
                ),
            },
        },
    }
}

/// The result of [`plan_transfer`], abstracted to views.
pub open spec fn plan_result_view(r: Result<TransferPlan, TransferError>) -> Result<
    PlanView,
    ErrorView,
> {
    match r {
        Ok(p) => Ok(p@),
        Err(e) => Err(e@),
    }
}

/// Resolves a pair of endpoint descriptors into a transfer plan: classifies
/// both sides, then selects the strategy, rejecting a pair of two local
/// paths. No I/O is implied until the plan's machine is run.
pub fn plan_transfer(source: &str, destination: &str) -> (r: Result<TransferPlan, TransferError>)
    ensures
        plan_result_view(r) == spec_plan(source@, destination@),
{
    let sc = match classify_endpoint(source) {
        Ok(c) => c,
        Err(e) => {
            return Err(e);
        },
    };
    let dc = match classify_endpoint(destination) {
        Ok(c) => c,
        Err(e) => {
            return Err(e);
        },
    };
    match (sc, dc) {
        (EndpointClassification::Remote(a), EndpointClassification::Remote(b)) => Ok(
            TransferPlan::RemoteToRemote { source: a, destination: b },
        ),
        (EndpointClassification::Local(p), EndpointClassification::Remote(b)) => Ok(
            TransferPlan::UploadLocalToRemote { source: p, destination: b },
        ),
        (EndpointClassification::Remote(a), EndpointClassification::Local(p)) => Ok(
            TransferPlan::DownloadRemoteToLocal { source: a, destination: p },
        ),
        (EndpointClassification::Local(_), EndpointClassification::Local(_)) => Err(
            TransferError::NoRemoteEndpoint,
        ),
    }
}

/// Law: where both descriptors classify, the plan's strategy is exactly what
/// the selection table gives for (source-is-remote, destination-is-remote),
/// and the plan fails exactly where the table rejects the pair.
pub proof fn lemma_plan_follows_selection(source: Seq<char>, destination: Seq<char>)
    requires
        spec_classify(source) is Ok,
        spec_classify(destination) is Ok,
    ensures
        ({
            let sc = spec_classify(source)->Ok_0;
            let dc = spec_classify(destination)->Ok_0;
            match spec_select_strategy(sc is Remote, dc is Remote) {
                Ok(strategy) => spec_plan(source, destination) matches Ok(p)
                    && spec_plan_strategy(p) == strategy,
                Err(e) => spec_plan(source, destination) == Err::<PlanView, ErrorView>(e),
            }
        }),
{
}

/// Mathematical image of a [`CopyRequest`].
#[verifier::ext_equal]
pub struct CopyRequestView {
    pub copy_source: Seq<char>,
    pub bucket: Seq<char>,
    pub key: Seq<char>,
}

/// A single server-side copy request: the fully qualified source
/// (`bucket/key`) and the destination bucket and key.
#[derive(Debug, PartialEq, Eq)]
pub struct CopyRequest {
    pub copy_source: String,
    pub bucket: String,
    pub key: String,
}

impl View for CopyRequest {
    type V = CopyRequestView;

    open spec fn view(&self) -> CopyRequestView {
        CopyRequestView { copy_source: self.copy_source@, bucket: self.bucket@, key: self.key@ }
    }
}

/// Mathematical image of a [`PutRequest`].
#[verifier::ext_equal]
pub struct PutRequestView {
    pub bucket: Seq<char>,
    pub key: Seq<char>,
    pub body: Seq<u8>,
}

/// A single write ("put") request: the destination bucket and key, and the
/// whole object as its body.
#[derive(Debug, PartialEq, Eq)]
pub struct PutRequest {
    pub bucket: String,
    pub key: String,
    pub body: Vec<u8>,
}

impl View for PutRequest {
    type V = PutRequestView;

    open spec fn view(&self) -> PutRequestView {
        PutRequestView { bucket: self.bucket@, key: self.key@, body: self.body@ }
    }
}

/// Mathematical image of a [`GetRequest`].
#[verifier::ext_equal]
pub struct GetRequestView {
    pub bucket: Seq<char>,
    pub key: Seq<char>,
}

/// A single read ("get") request to the source bucket and key.
#[derive(Debug, PartialEq, Eq)]
pub struct GetRequest {
    pub bucket: String,
    pub key: String,
}

impl View for GetRequest {
    type V = GetRequestView;

    open spec fn view(&self) -> GetRequestView {
        GetRequestView { bucket: self.bucket@, key: self.key@ }
    }
}

/// Mathematical image of a [`Phase`].
#[verifier::ext_equal]
pub enum PhaseView {
    Copying,
    ReadingLocal,
    Uploading,
    Fetching,
    CreatingLocal,
    Pulling,
    Writing,
    Complete(OutcomeView),
}

/// Where the machine stands: which action is outstanding, or the terminal
/// outcome.
#[derive(Debug, PartialEq, Eq)]
pub enum Phase {
    /// The server-side copy request is outstanding.
    Copying,
    /// The whole local source file is being read into memory.
    ReadingLocal,
    /// The write ("put") request is outstanding.
    Uploading,
    /// The read ("get") request is outstanding.
    Fetching,
    /// The local destination file is being created (truncating any prior
    /// content).
    CreatingLocal,
    /// The next chunk of the response body is being pulled.
    Pulling,
    /// The last pulled chunk is being appended to the destination file.
    Writing,
    /// The transfer ended with this outcome.
    Complete(TransferOutcome),
}

impl View for Phase {
    type V = PhaseView;

    open spec fn view(&self) -> PhaseView {
        match self {
            Phase::Copying => PhaseView::Copying,
            Phase::ReadingLocal => PhaseView::ReadingLocal,
            Phase::Uploading => PhaseView::Uploading,
            Phase::Fetching => PhaseView::Fetching,
            Phase::CreatingLocal => PhaseView::CreatingLocal,
            Phase::Pulling => PhaseView::Pulling,
            Phase::Writing => PhaseView::Writing,
            Phase::Complete(o) => PhaseView::Complete(o@),
        }
    }
}

/// Mathematical image of an [`Event`].
#[verifier::ext_equal]
pub enum EventView {
    RemoteDone,
    RemoteFailed(Seq<char>),
    LocalReadDone(Seq<u8>),
    LocalDone,
    LocalFailed(Seq<char>),
    ChunkArrived(Seq<u8>),
    BodyFinished,
}

/// What the shell reports back after performing an action.
#[derive(Debug, PartialEq, Eq)]
pub enum Event {
    /// The outstanding network request succeeded.
    RemoteDone,
    /// The outstanding network request failed, with the service's error
    /// rendered as text.
    RemoteFailed(String),
    /// The local source file was read in full; these are its bytes.
    LocalReadDone(Vec<u8>),
    /// The local file operation (create, or append one chunk) succeeded.
    LocalDone,
    /// The local file operation failed, with the filesystem error rendered
    /// as text.
    LocalFailed(String),
    /// The next chunk of the response body arrived.
    ChunkArrived(Vec<u8>),
    /// The response body is exhausted.
    BodyFinished,
}

impl View for Event {
    type V = EventView;

    open spec fn view(&self) -> EventView {
        match self {
            Event::RemoteDone => EventView::RemoteDone,
            Event::RemoteFailed(cause) => EventView::RemoteFailed(cause@),
            Event::LocalReadDone(bytes) => EventView::LocalReadDone(bytes@),
            Event::LocalDone => EventView::LocalDone,
            Event::LocalFailed(cause) => EventView::LocalFailed(cause@),
            Event::ChunkArrived(bytes) => EventView::ChunkArrived(bytes@),
            Event::BodyFinished => EventView::BodyFinished,
        }
    }
}

/// Mathematical image of an [`Action`].
#[verifier::ext_equal]
pub enum ActionView {
    SendCopy(CopyRequestView),
    ReadLocalFile(Seq<char>),
    SendPut(PutRequestView),
    SendGet(GetRequestView),
    CreateLocalFile(Seq<char>),
    PullChunk,
    WriteChunk(Seq<u8>),
    Report(OutcomeView),
    Ignore,
}

/// What the shell is asked to do next.
#[derive(Debug, PartialEq, Eq)]
pub enum Action {
    /// Issue this server-side copy request.
    SendCopy(CopyRequest),
    /// Read this local file in full.
    ReadLocalFile(String),
    /// Issue this write ("put") request.
    SendPut(PutRequest),
    /// Issue this read ("get") request.
    SendGet(GetRequest),
    /// Create (or truncate) this local file.
    CreateLocalFile(String),
    /// Pull the next chunk of the response body.
    PullChunk,
    /// Append these bytes to the destination file.
    WriteChunk(Vec<u8>),
    /// The transfer is over; report this outcome and stop.
    Report(TransferOutcome),
    /// The event does not apply to the current phase; do nothing.
    Ignore,
}

impl View for Action {
    type V = ActionView;

    open spec fn view(&self) -> ActionView {
        match self {
            Action::SendCopy(req) => ActionView::SendCopy(req@),
            Action::ReadLocalFile(path) => ActionView::ReadLocalFile(path@),
            Action::SendPut(req) => ActionView::SendPut(req@),
            Action::SendGet(req) => ActionView::SendGet(req@),
            Action::CreateLocalFile(path) => ActionView::CreateLocalFile(path@),
            Action::PullChunk => ActionView::PullChunk,
            Action::WriteChunk(bytes) => ActionView::WriteChunk(bytes@),
            Action::Report(outcome) => ActionView::Report(outcome@),
            Action::Ignore => ActionView::Ignore,
        }
    }
}

/// The copy request a remote-to-remote plan issues: the source locator,
/// qualified as `bucket/key`, copied to the destination bucket and key.
pub open spec fn spec_copy_request(source: LocatorView, destination: LocatorView) -> CopyRequestView {
    CopyRequestView {
        copy_source: source.bucket + seq!['/'] + source.key,
        bucket: destination.bucket,
        key: destination.key,
    }
}

/// The phase a fresh machine starts in, by strategy.
pub open spec fn spec_initial_phase(plan: PlanView) -> PhaseView {
    match plan {
        PlanView::RemoteToRemote { .. } => PhaseView::Copying,
        PlanView::UploadLocalToRemote { .. } => PhaseView::ReadingLocal,
        PlanView::DownloadRemoteToLocal { .. } => PhaseView::Fetching,
    }
}

/// The first action of each strategy: the copy request, the full read of the
/// local source, or the get request.
pub open spec fn spec_initial_action(plan: PlanView) -> ActionView {
    match plan {
        PlanView::RemoteToRemote { source, destination } => ActionView::SendCopy(
            spec_copy_request(source, destination),
        ),
        PlanView::UploadLocalToRemote { source, .. } => ActionView::ReadLocalFile(source),
        PlanView::DownloadRemoteToLocal { source, .. } => ActionView::SendGet(
            GetRequestView { bucket: source.bucket, key: source.key },
        ),
    }
}

/// A terminal step: the machine completes with `outcome` and asks the shell
/// to report it.
pub open spec fn spec_complete(outcome: OutcomeView) -> (PhaseView, ActionView) {
    (PhaseView::Complete(outcome), ActionView::Report(outcome))
}

/// The transition table of the executor. Every transition either advances
/// the single branch the plan selects or completes the machine; an event
/// that does not apply to the current phase changes nothing.
pub open spec fn spec_step(plan: PlanView, phase: PhaseView, event: EventView) -> (
    PhaseView,
    ActionView,
) {
    match (plan, phase, event) {
        // Remote-to-remote: one copy request, then done.
        (PlanView::RemoteToRemote { .. }, PhaseView::Copying, EventView::RemoteDone) => spec_complete(
            OutcomeView::Copied,
        ),
        (
            PlanView::RemoteToRemote { .. },
            PhaseView::Copying,
            EventView::RemoteFailed(cause),
        ) => spec_complete(OutcomeView::Failed(ErrorView::RemoteCopyFailed(cause))),
        // Upload: read the whole source, then one put request with its bytes.
        (
            PlanView::UploadLocalToRemote { destination, .. },
            PhaseView::ReadingLocal,
            EventView::LocalReadDone(bytes),
        ) => (
            PhaseView::Uploading,
            ActionView::SendPut(
                PutRequestView { bucket: destination.bucket, key: destination.key, body: bytes },
            ),
        ),
        (
            PlanView::UploadLocalToRemote { .. },
            PhaseView::ReadingLocal,
            EventView::LocalFailed(cause),
        ) => spec_complete(OutcomeView::Failed(ErrorView::LocalReadFailed(cause))),
        (
            PlanView::UploadLocalToRemote { .. },
            PhaseView::Uploading,
            EventView::RemoteDone,
        ) => spec_complete(OutcomeView::Uploaded),
        (
            PlanView::UploadLocalToRemote { .. },
            PhaseView::Uploading,
            EventView::RemoteFailed(cause),
        ) => spec_complete(OutcomeView::Failed(ErrorView::RemoteWriteFailed(cause))),
        // Download: one get request, create the destination, then stream
        // each arriving chunk to it until the body is exhausted.
        (
            PlanView::DownloadRemoteToLocal { destination, .. },
            PhaseView::Fetching,
            EventView::RemoteDone,
        ) => (PhaseView::CreatingLocal, ActionView::CreateLocalFile(destination)),
        (
            PlanView::DownloadRemoteToLocal { .. },
            PhaseView::Fetching,
            EventView::RemoteFailed(cause),
        ) => spec_complete(OutcomeView::Failed(ErrorView::RemoteReadFailed(cause))),
        (
            PlanView::DownloadRemoteToLocal { .. },
            PhaseView::CreatingLocal,
            EventView::LocalDone,
        ) => (PhaseView::Pulling, ActionView::PullChunk),
        (
            PlanView::DownloadRemoteToLocal { .. },
            PhaseView::CreatingLocal,
            EventView::LocalFailed(cause),
        ) => spec_complete(OutcomeView::Failed(ErrorView::LocalWriteFailed(cause))),
        (
            PlanView::DownloadRemoteToLocal { .. },
            PhaseView::Pulling,
            EventView::ChunkArrived(bytes),
        ) => (PhaseView::Writing, ActionView::WriteChunk(bytes)),
        (
            PlanView::DownloadRemoteToLocal { .. },
            PhaseView::Pulling,
            EventView::BodyFinished,
        ) => spec_complete(OutcomeView::Downloaded),
        (
            PlanView::DownloadRemoteToLocal { .. },
            PhaseView::Pulling,
            EventView::RemoteFailed(cause),
        ) => spec_complete(OutcomeView::Failed(ErrorView::RemoteReadFailed(cause))),
        (
            PlanView::DownloadRemoteToLocal { .. },
            PhaseView::Writing,
            EventView::LocalDone,
        ) => (PhaseView::Pulling, ActionView::PullChunk),
        (
            PlanView::DownloadRemoteToLocal { .. },
            PhaseView::Writing,
            EventView::LocalFailed(cause),
        ) => spec_complete(OutcomeView::Failed(ErrorView::LocalWriteFailed(cause))),
        _ => (phase, ActionView::Ignore),
    }
}

/// One transfer in flight: the plan and the current phase.
pub struct TransferMachine {
    pub plan: TransferPlan,
    pub phase: Phase,
}

impl TransferMachine {
    /// The machine never leaves the branch its plan selects: each strategy
    /// passes only through its own phases.
    pub open spec fn wf(self) -> bool {
        match self.plan@ {
            PlanView::RemoteToRemote { .. } => self.phase@ is Copying || self.phase@ is Complete,
            PlanView::UploadLocalToRemote { .. } => self.phase@ is ReadingLocal || self.phase@
                is Uploading || self.phase@ is Complete,
            PlanView::DownloadRemoteToLocal { .. } => self.phase@ is Fetching || self.phase@
                is CreatingLocal || self.phase@ is Pulling || self.phase@ is Writing || self.phase@
                is Complete,
        }
    }

    /// Starts a machine for the given plan, in the first phase of the plan's
    /// strategy.
    pub fn new(plan: TransferPlan) -> (m: Self)
        ensures
            m.plan@ == plan@,
            m.phase@ == spec_initial_phase(plan@),
            m.wf(),
    {
        let phase = match &plan {
            TransferPlan::RemoteToRemote { .. } => Phase::Copying,
            TransferPlan::UploadLocalToRemote { .. } => Phase::ReadingLocal,
            TransferPlan::DownloadRemoteToLocal { .. } => Phase::Fetching,
        };
        TransferMachine { plan, phase }
    }

    /// The first action of the transfer, determined by the plan alone.
    pub fn initial_action(&self) -> (a: Action)
        ensures
            a@ == spec_initial_action(self.plan@),
    {
        match &self.plan {
            TransferPlan::RemoteToRemote { source, destination } => {
                let mut copy_source = source.bucket.clone();
                copy_source.append("/");
                copy_source.append(source.key.as_str());
                proof {
                    reveal_strlit("/");
                    assert(copy_source@ =~= source.bucket@ + seq!['/'] + source.key@);
                }
                Action::SendCopy(
                    CopyRequest {
                        copy_source,
                        bucket: destination.bucket.clone(),
                        key: destination.key.clone(),
                    },
                )
            },
            TransferPlan::UploadLocalToRemote { source, .. } => Action::ReadLocalFile(
                source.clone(),
            ),
            TransferPlan::DownloadRemoteToLocal { source, .. } => Action::SendGet(
                GetRequest { bucket: source.bucket.clone(), key: source.key.clone() },
            ),
        }
    }

    /// True once the transfer has ended, in success or failure.
    pub fn is_complete(&self) -> (r: bool)
        ensures
            r == (self.phase@ is Complete),
    {
        matches!(self.phase, Phase::Complete(_))
    }

    /// Feeds the machine the event the last action produced; the machine
    /// moves per the transition table and returns the next action.
    pub fn step(&mut self, event: Event) -> (a: Action)
        ensures
            final(self).plan@ == old(self).plan@,
            (final(self).phase@, a@) == spec_step(old(self).plan@, old(self).phase@, event@),
            old(self).wf() ==> final(self).wf(),
    {
        let taken: Option<(Phase, Action)> = match (&self.plan, &self.phase, event) {
            (TransferPlan::RemoteToRemote { .. }, Phase::Copying, Event::RemoteDone) => Some(
                complete_with(TransferOutcome::Copied),
            ),
            (TransferPlan::RemoteToRemote { .. }, Phase::Copying, Event::RemoteFailed(cause)) => Some(
                complete_with(TransferOutcome::Failed(TransferError::RemoteCopyFailed(cause))),
            ),
            (
                TransferPlan::UploadLocalToRemote { destination, .. },
                Phase::ReadingLocal,
                Event::LocalReadDone(bytes),
            ) => Some(
                (
                    Phase::Uploading,
                    Action::SendPut(
                        PutRequest {
                            bucket: destination.bucket.clone(),
                            key: destination.key.clone(),
                            body: bytes,
                        },
                    ),
                ),
            ),
            (
                TransferPlan::UploadLocalToRemote { .. },
                Phase::ReadingLocal,
                Event::LocalFailed(cause),
            ) => Some(complete_with(TransferOutcome::Failed(TransferError::LocalReadFailed(cause)))),
            (TransferPlan::UploadLocalToRemote { .. }, Phase::Uploading, Event::RemoteDone) => Some(
                complete_with(TransferOutcome::Uploaded),
            ),
            (
                TransferPlan::UploadLocalToRemote { .. },
                Phase::Uploading,
                Event::RemoteFailed(cause),
            ) => Some(
                complete_with(TransferOutcome::Failed(TransferError::RemoteWriteFailed(cause))),
            ),
            (
                TransferPlan::DownloadRemoteToLocal { destination, .. },
                Phase::Fetching,
                Event::RemoteDone,
            ) => Some((Phase::CreatingLocal, Action::CreateLocalFile(destination.clone()))),
            (
                TransferPlan::DownloadRemoteToLocal { .. },
                Phase::Fetching,
                Event::RemoteFailed(cause),
            ) => Some(
                complete_with(TransferOutcome::Failed(TransferError::RemoteReadFailed(cause))),
            ),
            (
                TransferPlan::DownloadRemoteToLocal { .. },
                Phase::CreatingLocal,
                Event::LocalDone,
            ) => Some((Phase::Pulling, Action::PullChunk)),
            (
                TransferPlan::DownloadRemoteToLocal { .. },
                Phase::CreatingLocal,
                Event::LocalFailed(cause),
            ) => Some(
                complete_with(TransferOutcome::Failed(TransferError::LocalWriteFailed(cause))),
            ),
            (
                TransferPlan::DownloadRemoteToLocal { .. },
                Phase::Pulling,
                Event::ChunkArrived(bytes),
            ) => Some((Phase::Writing, Action::WriteChunk(bytes))),
            (
                TransferPlan::DownloadRemoteToLocal { .. },
                Phase::Pulling,
                Event::BodyFinished,
            ) => Some(complete_with(TransferOutcome::Downloaded)),
            (
                TransferPlan::DownloadRemoteToLocal { .. },
                Phase::Pulling,
                Event::RemoteFailed(cause),
            ) => Some(
                complete_with(TransferOutcome::Failed(TransferError::RemoteReadFailed(cause))),
            ),
            (TransferPlan::DownloadRemoteToLocal { .. }, Phase::Writing, Event::LocalDone) => Some(
                (Phase::Pulling, Action::PullChunk),
            ),
            (
                TransferPlan::DownloadRemoteToLocal { .. },
                Phase::Writing,
                Event::LocalFailed(cause),
            ) => Some(
                complete_with(TransferOutcome::Failed(TransferError::LocalWriteFailed(cause))),
            ),
            _ => None,
        };
        match taken {
            Some((phase, action)) => {
                self.phase = phase;
                action
            },
            None => Action::Ignore,
        }
    }
}

/// The machine run as a pure function: the phase reached after a sequence
/// of events, and every action handed out along the way, in order.
pub open spec fn spec_run(plan: PlanView, phase: PhaseView, events: Seq<EventView>) -> (
    PhaseView,
    Seq<ActionView>,
)
    decreases events.len(),
{
    if events.len() == 0 {
        (phase, Seq::empty())
    } else {
        let first = spec_step(plan, phase, events[0]);
        let rest = spec_run(plan, first.0, events.skip(1));
        (rest.0, seq![first.1] + rest.1)
    }
}

/// The payloads of the write actions in a run, in order.
pub open spec fn spec_written(actions: Seq<ActionView>) -> Seq<Seq<u8>>
    decreases actions.len(),
{
    if actions.len() == 0 {
        Seq::empty()
    } else {
        let rest = spec_written(actions.skip(1));
        match actions[0] {
            ActionView::WriteChunk(bytes) => seq![bytes] + rest,
            _ => rest,
        }
    }
}

/// The events a download's response body delivers from the pulling phase
/// on: each chunk arrives and its write succeeds, and the body then ends.
pub open spec fn spec_stream_events(chunks: Seq<Seq<u8>>) -> Seq<EventView>
    decreases chunks.len(),
{
    if chunks.len() == 0 {
        seq![EventView::BodyFinished]
    } else {
        seq![EventView::ChunkArrived(chunks[0]), EventView::LocalDone] + spec_stream_events(
            chunks.skip(1),
        )
    }
}

/// What one leading action contributes to the writes of a run.
proof fn lemma_written_cons(head: ActionView, rest: Seq<ActionView>)
    ensures
        head matches ActionView::WriteChunk(bytes) ==> spec_written(seq![head] + rest) == seq![
            bytes,
        ] + spec_written(rest),
        !(head is WriteChunk) ==> spec_written(seq![head] + rest) == spec_written(rest),
{
    let s = seq![head] + rest;
    assert(s[0] == head);
    assert(s.skip(1) =~= rest);
}

/// Law: a download machine standing at the pulling phase writes exactly the
/// arriving chunks, in arrival order, and completes as `Downloaded`.
pub proof fn lemma_download_writes_chunks_in_order(plan: PlanView, chunks: Seq<Seq<u8>>)
    requires
        plan is DownloadRemoteToLocal,
    ensures
        ({
            let r = spec_run(plan, PhaseView::Pulling, spec_stream_events(chunks));
            r.0 == PhaseView::Complete(OutcomeView::Downloaded) && spec_written(r.1) == chunks
        }),
    decreases chunks.len(),
{
    let events = spec_stream_events(chunks);
    let r = spec_run(plan, PhaseView::Pulling, events);
    if chunks.len() == 0 {
        let first = spec_step(plan, PhaseView::Pulling, events[0]);
        assert(first == spec_complete(OutcomeView::Downloaded));
        assert(events.skip(1) =~= Seq::<EventView>::empty());
        let rest = spec_run(plan, first.0, events.skip(1));
        assert(rest == (first.0, Seq::<ActionView>::empty()));
        assert(r == (first.0, seq![first.1] + rest.1));
        lemma_written_cons(first.1, Seq::<ActionView>::empty());
        assert(spec_written(Seq::<ActionView>::empty()) =~= Seq::<Seq<u8>>::empty());
        assert(spec_written(r.1) =~= chunks);
    } else {
        lemma_download_writes_chunks_in_order(plan, chunks.skip(1));
        let tail_events = spec_stream_events(chunks.skip(1));
        let after_pull = spec_run(plan, PhaseView::Pulling, tail_events);

        // The first event writes the first chunk.
        assert(events[0] == EventView::ChunkArrived(chunks[0]));
        let first = spec_step(plan, PhaseView::Pulling, events[0]);
        assert(first == (PhaseView::Writing, ActionView::WriteChunk(chunks[0])));

        // The second event acknowledges the write and pulls again.
        let events1 = events.skip(1);
        assert(events1[0] == EventView::LocalDone);
        let second = spec_step(plan, PhaseView::Writing, events1[0]);
        assert(second == (PhaseView::Pulling, ActionView::PullChunk));
        assert(events1.skip(1) =~= tail_events);

        // Unfold the run across those two steps.
        let after_write = spec_run(plan, PhaseView::Writing, events1);
        assert(r == (after_write.0, seq![first.1] + after_write.1));
        assert(spec_run(plan, PhaseView::Pulling, events1.skip(1)) == after_pull);
        assert(after_write == (after_pull.0, seq![second.1] + after_pull.1));

        lemma_written_cons(second.1, after_pull.1);
        lemma_written_cons(first.1, after_write.1);
        assert(spec_written(r.1) =~= seq![chunks[0]] + spec_written(after_pull.1));
        assert(spec_written(r.1) =~= chunks);
    }
}

/// The terminal step, built twice over: once stored in the phase, once
/// handed out for reporting.
fn complete_with(outcome: TransferOutcome) -> (r: (Phase, Action))
    ensures
        (r.0@, r.1@) == spec_complete(outcome@),
{
    let stored = outcome.duplicate();
    (Phase::Complete(stored), Action::Report(outcome))
}

} // verus!
