//! Transfer strategy selection: which of the three transfer mechanisms a
//! pair of classified endpoints calls for.

use vstd::prelude::*;

use crate::error::{ErrorView, TransferError};
use crate::locator::EndpointClassification;

verus! {

/// The chosen transfer direction/mechanism for a pair of locators. Derived
/// deterministically from the two endpoint classifications; never
/// constructed directly by a caller.
#[derive(Clone, Copy, Debug, PartialEq, Eq, Structural)]
pub enum TransferStrategy {
    RemoteToRemote,
    UploadLocalToRemote,
    DownloadRemoteToLocal,
}

/// The selection table: a pure function of (source-is-remote,
/// destination-is-remote). Both endpoints local is the one rejected pair.
pub open spec fn spec_select_strategy(source_is_remote: bool, destination_is_remote: bool) -> Result<
    TransferStrategy,
    ErrorView,
> {
    match (source_is_remote, destination_is_remote) {
        (true, true) => Ok(TransferStrategy::RemoteToRemote),
        (false, true) => Ok(TransferStrategy::UploadLocalToRemote),
        (true, false) => Ok(TransferStrategy::DownloadRemoteToLocal),
        (false, false) => Err(ErrorView::NoRemoteEndpoint),
    }
}

/// The result of [`select_strategy`], abstracted to the selection table's
/// result type.
pub open spec fn strategy_result_view(r: Result<TransferStrategy, TransferError>) -> Result<
    TransferStrategy,
    ErrorView,
> {
    match r {
        Ok(s) => Ok(s),
        Err(e) => Err(e@),
    }
}

/// Selects the transfer strategy for a classified (source, destination)
/// pair, or rejects the pair when neither side references the storage
/// service.
pub fn select_strategy(
    source: &EndpointClassification,
    destination: &EndpointClassification,
) -> (r: Result<TransferStrategy, TransferError>)
    ensures
        strategy_result_view(r) == spec_select_strategy(
            source@ is Remote,
            destination@ is Remote,
        ),
{
    match (source, destination) {
        (EndpointClassification::Remote(_), EndpointClassification::Remote(_)) => Ok(
            TransferStrategy::RemoteToRemote,
        ),
        (EndpointClassification::Local(_), EndpointClassification::Remote(_)) => Ok(
            TransferStrategy::UploadLocalToRemote,
        ),
        (EndpointClassification::Remote(_), EndpointClassification::Local(_)) => Ok(
            TransferStrategy::DownloadRemoteToLocal,
        ),
        (EndpointClassification::Local(_), EndpointClassification::Local(_)) => Err(
            TransferError::NoRemoteEndpoint,
        ),
    }
}

/// Law: strategy selection depends only on whether each side is remote, and
/// matches the selection table exactly for all four boolean combinations;
/// the (local, local) pair is rejected with `NoRemoteEndpoint`.
pub proof fn lemma_strategy_selection_table(source_is_remote: bool, destination_is_remote: bool)
    ensures
        source_is_remote && destination_is_remote ==> spec_select_strategy(
            source_is_remote,
            destination_is_remote,
        ) == Ok::<TransferStrategy, ErrorView>(TransferStrategy::RemoteToRemote),
        !source_is_remote && destination_is_remote ==> spec_select_strategy(
            source_is_remote,
            destination_is_remote,
        ) == Ok::<TransferStrategy, ErrorView>(TransferStrategy::UploadLocalToRemote),
        source_is_remote && !destination_is_remote ==> spec_select_strategy(
            source_is_remote,
            destination_is_remote,
        ) == Ok::<TransferStrategy, ErrorView>(TransferStrategy::DownloadRemoteToLocal),
        !source_is_remote && !destination_is_remote ==> spec_select_strategy(
            source_is_remote,
            destination_is_remote,
        ) == Err::<TransferStrategy, ErrorView>(ErrorView::NoRemoteEndpoint),
{
}

} // verus!
