//! Decisions of the OBS context: resetting the video context and finding the
//! objects it keeps by name.
use vstd::prelude::*;

use crate::data::video::{ObsVideoInfo, ObsVideoSettings};
use crate::enums::ObsResetVideoStatus;
use crate::utils::error::ObsError;
use crate::utils::text::str_eq;

verus! {

/// The status that a value returned by `obs_reset_video` stands for; values
/// without a status count as a failure.
pub open spec fn spec_reset_status(raw: i32) -> ObsResetVideoStatus {
    match ObsResetVideoStatus::spec_from_raw(raw) {
        Some(s) => s,
        None => ObsResetVideoStatus::Failure,
    }
}

/// Reads the value that `obs_reset_video` returned.
pub fn reset_status(raw: i32) -> (r: ObsResetVideoStatus)
    ensures
        r == spec_reset_status(raw),
{
    match ObsResetVideoStatus::from_raw(raw) {
        Some(s) => s,
        None => ObsResetVideoStatus::Failure,
    }
}

/// The outcome of a video reset: success, or `ResetVideoFailure` with the status.
pub fn reset_video_outcome(raw: i32) -> (r: Result<(), ObsError>)
    ensures
        spec_reset_status(raw) == ObsResetVideoStatus::Success ==> r == Ok::<(), ObsError>(()),
        spec_reset_status(raw) != ObsResetVideoStatus::Success ==> r == Err::<(), ObsError>(
            ObsError::ResetVideoFailure(spec_reset_status(raw)),
        ),
{
    let status = reset_status(raw);
    if status == ObsResetVideoStatus::Success {
        Ok(())
    } else {
        Err(ObsError::ResetVideoFailure(status))
    }
}

/// Whether any output reported that it is active; an output whose state
/// could not be read counts as inactive.
pub open spec fn spec_any_active(states: Seq<Result<bool, ObsError>>) -> bool {
    exists|i: int| 0 <= i < states.len() && #[trigger] states[i] == Ok::<bool, ObsError>(true)
}

/// Returns whether any output reported that it is active.
pub fn any_output_active(states: &Vec<Result<bool, ObsError>>) -> (r: bool)
    ensures
        r == spec_any_active(states@),
{
    let mut i: usize = 0;
    while i < states.len()
        invariant
            i <= states@.len(),
            forall|k: int| 0 <= k < i ==> states@[k] != Ok::<bool, ObsError>(true),
        decreases states@.len() - i,
    {
        match &states[i] {
            Ok(true) => {
                assert(states@[i as int] == Ok::<bool, ObsError>(true));
                return true;
            },
            _ => {},
        }
        i = i + 1;
    }
    false
}

/// Whether the video context may be reset to `next`: the graphics module
/// cannot change while the context lives, and no output may be active.
pub fn check_video_reset(
    current: &ObsVideoInfo,
    next: &ObsVideoInfo,
    output_states: &Vec<Result<bool, ObsError>>,
) -> (r: Result<(), ObsError>)
    ensures
        current@.graphics_module.spec_module_name() != next@.graphics_module.spec_module_name()
            ==> r == Err::<(), ObsError>(ObsError::ResetVideoFailureGraphicsModule),
        current@.graphics_module.spec_module_name() == next@.graphics_module.spec_module_name()
            && spec_any_active(output_states@) ==> r == Err::<(), ObsError>(
            ObsError::ResetVideoFailureOutputActive,
        ),
        current@.graphics_module.spec_module_name() == next@.graphics_module.spec_module_name()
            && !spec_any_active(output_states@) ==> r == Ok::<(), ObsError>(()),
{
    if !str_eq(current.graphics_module(), next.graphics_module()) {
        return Err(ObsError::ResetVideoFailureGraphicsModule);
    }
    if any_output_active(output_states) {
        return Err(ObsError::ResetVideoFailureOutputActive);
    }
    Ok(())
}

/// The video settings that the OBS context runs with: those of its start, then
/// those of the last reset that libobs accepted.
#[derive(Debug)]
pub struct ObsVideoContext {
    info: ObsVideoInfo,
}

impl View for ObsVideoContext {
    type V = ObsVideoSettings;

    closed spec fn view(&self) -> ObsVideoSettings {
        self.info@
    }
}

impl ObsVideoContext {
    /// The context started with `info`.
    pub fn new(info: ObsVideoInfo) -> (r: Self)
        ensures
            r@ == info@,
    {
        ObsVideoContext { info }
    }

    /// The settings the context runs with.
    pub fn info(&self) -> (r: &ObsVideoInfo)
        ensures
            r@ == self@,
    {
        &self.info
    }

    /// Whether the video context may be reset to `next`: the checks of
    /// `check_video_reset` against the current settings.
    pub fn check_reset(&self, next: &ObsVideoInfo, output_states: &Vec<Result<bool, ObsError>>) -> (r:
        Result<(), ObsError>)
        ensures
            self@.graphics_module.spec_module_name() != next@.graphics_module.spec_module_name()
                ==> r == Err::<(), ObsError>(ObsError::ResetVideoFailureGraphicsModule),
            self@.graphics_module.spec_module_name() == next@.graphics_module.spec_module_name()
                && spec_any_active(output_states@) ==> r == Err::<(), ObsError>(
                ObsError::ResetVideoFailureOutputActive,
            ),
            self@.graphics_module.spec_module_name() == next@.graphics_module.spec_module_name()
                && !spec_any_active(output_states@) ==> r == Ok::<(), ObsError>(()),
    {
        check_video_reset(&self.info, next, output_states)
    }

    /// Completes a reset to `next` with the value that `obs_reset_video`
    /// returned: on success the context keeps `next`, otherwise it keeps its
    /// settings and reports `ResetVideoFailure` with the status.
    pub fn complete_reset(&mut self, next: ObsVideoInfo, raw: i32) -> (r: Result<(), ObsError>)
        ensures
            spec_reset_status(raw) == ObsResetVideoStatus::Success ==> r == Ok::<(), ObsError>(())
                && final(self)@ == next@,
            spec_reset_status(raw) != ObsResetVideoStatus::Success ==> r == Err::<(), ObsError>(
                ObsError::ResetVideoFailure(spec_reset_status(raw)),
            ) && final(self)@ == old(self)@,
    {
        let r = reset_video_outcome(raw);
        if r.is_ok() {
            self.info = next;
        }
        r
    }
}

/// OBS can only run once per process: a second start is a `ThreadFailure`.
pub fn ensure_single_context(already_running: bool) -> (r: Result<(), ObsError>)
    ensures
        already_running ==> r == Err::<(), ObsError>(ObsError::ThreadFailure),
        !already_running ==> r == Ok::<(), ObsError>(()),
{
    if already_running {
        Err(ObsError::ThreadFailure)
    } else {
        Ok(())
    }
}

/// The position of the first name equal to `name`, as the context looks up
/// outputs, filters and scenes.
pub fn find_by_name(names: &Vec<String>, name: &str) -> (r: Option<usize>)
    ensures
        r matches Some(i) ==> i < names@.len() && names@[i as int]@ == name@ && forall|k: int|
            0 <= k < i ==> #[trigger] names@[k]@ != name@,
        r is None ==> forall|k: int| 0 <= k < names@.len() ==> #[trigger] names@[k]@ != name@,
{
    let mut i: usize = 0;
    while i < names.len()
        invariant
            i <= names@.len(),
            forall|k: int| 0 <= k < i ==> #[trigger] names@[k]@ != name@,
        decreases names@.len() - i,
    {
        if str_eq(names[i].as_str(), name) {
            return Some(i);
        }
        i = i + 1;
    }
    None
}

/// The output to update, or `OutputNotFound` when no output has the name.
pub fn output_to_update(names: &Vec<String>, name: &str) -> (r: Result<usize, ObsError>)
    ensures
        r matches Ok(i) ==> i < names@.len() && names@[i as int]@ == name@ && forall|k: int|
            0 <= k < i ==> #[trigger] names@[k]@ != name@,
        r is Err ==> r == Err::<usize, ObsError>(ObsError::OutputNotFound) && forall|k: int|
            0 <= k < names@.len() ==> #[trigger] names@[k]@ != name@,
{
    match find_by_name(names, name) {
        Some(i) => Ok(i),
        None => Err(ObsError::OutputNotFound),
    }
}

} // verus!
