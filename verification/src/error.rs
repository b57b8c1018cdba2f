use vstd::prelude::*;
use crate::Split;

verus! {

/// Everything that can go wrong while building or driving a loader.
///
/// `DatasetDrained` doubles as the internal end-of-epoch signal that the
/// worker holding the sentinel ticket emits; it is never returned to a
/// caller of the loader itself.
#[derive(Debug, PartialEq, Eq)]
pub enum DfDataloaderError {
    /// No progress was made within the retry budget of bounded waits.
    TimeoutError,
    /// A batch was requested before any epoch was started.
    ChannelsNotInitializedError,
    /// A split is smaller than the batch size requested for it.
    DatasetTooSmall { split: Split, dataset_size: usize, batch_size: usize },
    /// Internal control signal: the epoch's ticket queue is exhausted.
    DatasetDrained,
    /// A worker delivered an order tag that is out of the epoch's range,
    /// already consumed, or already staged: a protocol violation.
    OrderTagViolation { tag: usize },
    /// Padded payload lengths disagree within one batch.
    ShapeMismatch { expected: usize, actual: usize },
    /// A channel send failed; expected only while the consumer detaches.
    SendError(String),
    /// Joining the worker pool failed.
    ThreadJoinError(String),
    /// Key regeneration was attempted while another holder of the sample
    /// source still exists.
    OwnershipConflict,
    /// An error of the sample source, passed through unchanged.
    DatasetError(String),
}

impl DfDataloaderError {
    /// A short description of the error kind.
    pub fn message(&self) -> &'static str {
        match self {
            DfDataloaderError::TimeoutError => "Dataloading Timeout",
            DfDataloaderError::ChannelsNotInitializedError => {
                "Channels not initialized. Have you already called start_epoch()?"
            },
            DfDataloaderError::DatasetTooSmall { .. } => {
                "Dataset size smaller than batch size. Try increasing the dataset sampling factor or decreasing the batch size."
            },
            DfDataloaderError::DatasetDrained => "Dataset Drained",
            DfDataloaderError::OrderTagViolation { .. } => {
                "Received an order tag that was already consumed or staged"
            },
            DfDataloaderError::ShapeMismatch { .. } => "Padded sample shapes do not match",
            DfDataloaderError::SendError(_) => "Multithreading Send Error",
            DfDataloaderError::ThreadJoinError(_) => "Thread Join Error",
            DfDataloaderError::OwnershipConflict => "Could not regain ownership over dataset",
            DfDataloaderError::DatasetError(_) => "DF Dataset Error",
        }
    }
}

/// Decides what a joined worker pool's result means for the caller: a send
/// error is the expected consequence of the consumer detaching its channel
/// end during shutdown and is swallowed; every other error propagates.
pub fn worker_shutdown_outcome(r: Result<(), DfDataloaderError>) -> (out: Result<
    (),
    DfDataloaderError,
>)
    ensures
        match r {
            Ok(()) => out == Ok::<(), DfDataloaderError>(()),
            Err(e) => match e {
                DfDataloaderError::SendError(_) => out == Ok::<(), DfDataloaderError>(()),
                _ => out == Err::<(), DfDataloaderError>(e),
            },
        },
{
    match r {
        Ok(()) => Ok(()),
        Err(DfDataloaderError::SendError(_)) => Ok(()),
        Err(e) => Err(e),
    }
}

} // verus!
