//! The closed set of failures a single invocation can end with, and the
//! success/failure outcome of a transfer.

use vstd::prelude::*;

verus! {

/// Mathematical image of a [`TransferError`]: the same variants, with every
/// carried cause abstracted to its character sequence.
#[verifier::ext_equal]
pub enum ErrorView {
    MalformedRemoteLocator,
    NoRemoteEndpoint,
    RemoteCopyFailed(Seq<char>),
    RemoteWriteFailed(Seq<char>),
    RemoteReadFailed(Seq<char>),
    LocalReadFailed(Seq<char>),
    LocalWriteFailed(Seq<char>),
}

/// A failure of one invocation. Every error aborts the invocation; none is
/// retried or recovered internally.
#[derive(Debug, PartialEq, Eq)]
pub enum TransferError {
    /// The descriptor carries the remote scheme prefix but lacks a valid
    /// non-empty `bucket/key` split.
    MalformedRemoteLocator,
    /// Both endpoints are local; at least one side must be remote.
    NoRemoteEndpoint,
    /// The storage service rejected or failed a server-side copy request.
    RemoteCopyFailed(String),
    /// The storage service rejected or failed a write ("put") request.
    RemoteWriteFailed(String),
    /// The storage service rejected or failed a read ("get") request.
    RemoteReadFailed(String),
    /// The filesystem failed while opening or reading the local source.
    LocalReadFailed(String),
    /// The filesystem failed while creating or writing the local destination.
    LocalWriteFailed(String),
}

impl View for TransferError {
    type V = ErrorView;

    open spec fn view(&self) -> ErrorView {
        match self {
            TransferError::MalformedRemoteLocator => ErrorView::MalformedRemoteLocator,
            TransferError::NoRemoteEndpoint => ErrorView::NoRemoteEndpoint,
            TransferError::RemoteCopyFailed(cause) => ErrorView::RemoteCopyFailed(cause@),
            TransferError::RemoteWriteFailed(cause) => ErrorView::RemoteWriteFailed(cause@),
            TransferError::RemoteReadFailed(cause) => ErrorView::RemoteReadFailed(cause@),
            TransferError::LocalReadFailed(cause) => ErrorView::LocalReadFailed(cause@),
            TransferError::LocalWriteFailed(cause) => ErrorView::LocalWriteFailed(cause@),
        }
    }
}

/// The human-readable message for an error, as a character sequence.
pub open spec fn spec_message(e: ErrorView) -> Seq<char> {
    match e {
        ErrorView::MalformedRemoteLocator => "malformed remote locator: expected 's3://bucket/key' with non-empty bucket and key"@,
        ErrorView::NoRemoteEndpoint => "at least one of source or destination must be an 's3://' path"@,
        ErrorView::RemoteCopyFailed(cause) => "remote copy failed: "@ + cause,
        ErrorView::RemoteWriteFailed(cause) => "remote write failed: "@ + cause,
        ErrorView::RemoteReadFailed(cause) => "remote read failed: "@ + cause,
        ErrorView::LocalReadFailed(cause) => "local read failed: "@ + cause,
        ErrorView::LocalWriteFailed(cause) => "local write failed: "@ + cause,
    }
}

impl TransferError {
    /// A second value with the same content, for an error that is both
    /// stored and reported.
    pub fn duplicate(&self) -> (r: Self)
        ensures
            r@ == self@,
    {
        match self {
            TransferError::MalformedRemoteLocator => TransferError::MalformedRemoteLocator,
            TransferError::NoRemoteEndpoint => TransferError::NoRemoteEndpoint,
            TransferError::RemoteCopyFailed(cause) => TransferError::RemoteCopyFailed(cause.clone()),
            TransferError::RemoteWriteFailed(cause) => TransferError::RemoteWriteFailed(cause.clone()),
            TransferError::RemoteReadFailed(cause) => TransferError::RemoteReadFailed(cause.clone()),
            TransferError::LocalReadFailed(cause) => TransferError::LocalReadFailed(cause.clone()),
            TransferError::LocalWriteFailed(cause) => TransferError::LocalWriteFailed(cause.clone()),
        }
    }

    /// Renders the error for the user; the underlying cause, where there is
    /// one, is surfaced unmodified.
    pub fn message(&self) -> (r: String)
        ensures
            r@ == spec_message(self@),
    {
        match self {
            TransferError::MalformedRemoteLocator => String::from_str(
                "malformed remote locator: expected 's3://bucket/key' with non-empty bucket and key",
            ),
            TransferError::NoRemoteEndpoint => String::from_str(
                "at least one of source or destination must be an 's3://' path",
            ),
            TransferError::RemoteCopyFailed(cause) => String::from_str("remote copy failed: ").concat(
                cause.as_str(),
            ),
            TransferError::RemoteWriteFailed(cause) => String::from_str("remote write failed: ").concat(
                cause.as_str(),
            ),
            TransferError::RemoteReadFailed(cause) => String::from_str("remote read failed: ").concat(
                cause.as_str(),
            ),
            TransferError::LocalReadFailed(cause) => String::from_str("local read failed: ").concat(
                cause.as_str(),
            ),
            TransferError::LocalWriteFailed(cause) => String::from_str("local write failed: ").concat(
                cause.as_str(),
            ),
        }
    }
}

/// Mathematical image of a [`TransferOutcome`].
#[verifier::ext_equal]
pub enum OutcomeView {
    Copied,
    Uploaded,
    Downloaded,
    Failed(ErrorView),
}

/// How one transfer invocation ended: one success marker per strategy, or a
/// typed failure. Reported to the user and converted to a process exit code.
#[derive(Debug, PartialEq, Eq)]
pub enum TransferOutcome {
    Copied,
    Uploaded,
    Downloaded,
    Failed(TransferError),
}

impl View for TransferOutcome {
    type V = OutcomeView;

    open spec fn view(&self) -> OutcomeView {
        match self {
            TransferOutcome::Copied => OutcomeView::Copied,
            TransferOutcome::Uploaded => OutcomeView::Uploaded,
            TransferOutcome::Downloaded => OutcomeView::Downloaded,
            TransferOutcome::Failed(e) => OutcomeView::Failed(e@),
        }
    }
}

impl TransferOutcome {
    /// A second value with the same content, for an outcome that is both
    /// stored and reported.
    pub fn duplicate(&self) -> (r: Self)
        ensures
            r@ == self@,
    {
        match self {
            TransferOutcome::Copied => TransferOutcome::Copied,
            TransferOutcome::Uploaded => TransferOutcome::Uploaded,
            TransferOutcome::Downloaded => TransferOutcome::Downloaded,
            TransferOutcome::Failed(e) => TransferOutcome::Failed(e.duplicate()),
        }
    }

    /// True exactly when the transfer succeeded.
    pub fn is_success(&self) -> (r: bool)
        ensures
            r == !(self@ is Failed),
    {
        match self {
            TransferOutcome::Failed(_) => false,
            _ => true,
        }
    }

    /// The process exit code the dispatcher reports: 0 on success, 1 on any
    /// failure.
    pub fn exit_code(&self) -> (r: i32)
        ensures
            self@ is Failed ==> r == 1,
            !(self@ is Failed) ==> r == 0,
    {
        if self.is_success() {
            0
        } else {
            1
        }
    }
}

} // verus!
