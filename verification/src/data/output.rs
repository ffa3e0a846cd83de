//! Decisions that an OBS output makes before and after it asks libobs to act.
use vstd::prelude::*;

use crate::enums::ObsOutputStopSignal;
use crate::utils::error::ObsError;

verus! {

/// The message of the error reported when an output that is not running is
/// stopped or paused.
pub open spec fn spec_not_active_message() -> Seq<char> {
    "Output is not active."@
}

/// An output that is running cannot be started again, nor have its encoders or
/// settings replaced: that is `OutputAlreadyActive`.
pub fn ensure_output_inactive(active: bool) -> (r: Result<(), ObsError>)
    ensures
        active ==> r == Err::<(), ObsError>(ObsError::OutputAlreadyActive),
        !active ==> r == Ok::<(), ObsError>(()),
{
    if active {
        Err(ObsError::OutputAlreadyActive)
    } else {
        Ok(())
    }
}

/// Only a running output can be stopped.
pub fn ensure_output_active_for_stop(active: bool) -> (r: Result<(), ObsError>)
    ensures
        active ==> r == Ok::<(), ObsError>(()),
        !active ==> (r matches Err(ObsError::OutputStopFailure(Some(m)))
            && m@ == spec_not_active_message()),
{
    if active {
        Ok(())
    } else {
        Err(ObsError::OutputStopFailure(Some("Output is not active.".to_owned())))
    }
}

/// Only a running output can be paused or resumed.
pub fn ensure_output_active_for_pause(active: bool) -> (r: Result<(), ObsError>)
    ensures
        active ==> r == Ok::<(), ObsError>(()),
        !active ==> (r matches Err(ObsError::OutputPauseFailure(Some(m)))
            && m@ == spec_not_active_message()),
{
    if active {
        Ok(())
    } else {
        Err(ObsError::OutputPauseFailure(Some("Output is not active.".to_owned())))
    }
}

/// The outcome of stopping an output, from the signal that libobs sent: any
/// reason other than success is an `OutputStopFailure` with the reason's text.
pub fn stop_signal_outcome(signal: ObsOutputStopSignal) -> (r: Result<(), ObsError>)
    ensures
        signal == ObsOutputStopSignal::Success ==> r == Ok::<(), ObsError>(()),
        signal != ObsOutputStopSignal::Success ==> (r matches Err(
            ObsError::OutputStopFailure(Some(m)),
        ) && m@ == signal.spec_text()),
{
    if signal == ObsOutputStopSignal::Success {
        Ok(())
    } else {
        Err(ObsError::OutputStopFailure(Some(signal.to_string())))
    }
}

/// The steps of saving a replay buffer that can fail, in the order in which
/// they are taken.
#[derive(Clone, Copy, Debug, PartialEq, Eq, Structural)]
pub enum SaveBufferStep {
    /// Getting the procedure handler of the output.
    ProcHandler,
    /// Calling its `save` procedure.
    Save,
    /// Calling its `get_last_replay` procedure.
    GetLastReplay,
    /// Reading the `path` of the last replay.
    ReadPath,
}

/// The message reported when a step of saving a replay buffer fails.
pub open spec fn spec_save_buffer_message(step: SaveBufferStep) -> Seq<char> {
    match step {
        SaveBufferStep::ProcHandler => "Failed to get proc handler."@,
        SaveBufferStep::Save => "Failed to call proc handler."@,
        SaveBufferStep::GetLastReplay => "Failed to call get_last_replay."@,
        SaveBufferStep::ReadPath => "Failed to get path from last replay."@,
    }
}

/// The error reported when a step of saving a replay buffer fails:
/// `OutputSaveBufferFailure` with the step's message.
pub fn save_buffer_failure(step: SaveBufferStep) -> (r: ObsError)
    ensures
        r matches ObsError::OutputSaveBufferFailure(m) && m@ == spec_save_buffer_message(step),
{
    let m = match step {
        SaveBufferStep::ProcHandler => "Failed to get proc handler.",
        SaveBufferStep::Save => "Failed to call proc handler.",
        SaveBufferStep::GetLastReplay => "Failed to call get_last_replay.",
        SaveBufferStep::ReadPath => "Failed to get path from last replay.",
    };
    ObsError::OutputSaveBufferFailure(m.to_owned())
}

} // verus!
