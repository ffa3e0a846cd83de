//! Checks whether an installed OBS fits the wrapper, and prepares the updater.
pub mod options;
pub mod progress;
pub mod updater;
pub mod version;

pub use options::{ObsBootstrapperOptions, GITHUB_REPO};

use vstd::prelude::*;

use crate::utils::error::ObsError;
use version::{should_update, spec_should_update};

verus! {

/// A trait for bootstrapping OBS Studio: whether a usable OBS is installed, and
/// whether a newer one should be downloaded.
pub trait ObsBootstrap {
    fn is_valid_installation() -> Result<bool, ObsError>;

    fn is_update_available() -> Result<bool, ObsError>;
}

/// Reports the progress of the bootstrapper on the console.
#[derive(Debug)]
pub struct ObsBootstrapConsoleHandler;

impl Default for ObsBootstrapConsoleHandler {
    fn default() -> (r: Self) {
        ObsBootstrapConsoleHandler
    }
}

/// An installation is valid when a version of OBS could be read from it.
pub fn is_valid_installation(installed: &Option<String>) -> (r: bool)
    ensures
        r == installed.is_some(),
{
    installed.is_some()
}

/// An update is available when no OBS is installed, or when the installed one
/// should be replaced; an installed version that is not `major.minor.patch`
/// gives `InvalidVersionString`.
pub fn is_update_available(installed: &Option<String>) -> (r: Result<bool, ObsError>)
    ensures
        installed is None ==> r == Ok::<bool, ObsError>(true),
        installed matches Some(v) ==> {
            &&& spec_should_update(v@) matches Some(b) ==> r == Ok::<bool, ObsError>(b)
            &&& spec_should_update(v@) is None ==> (r matches Err(
                ObsError::InvalidVersionString(m),
            ) && m@ == v@)
        },
{
    match installed {
        None => Ok(true),
        Some(v) => should_update(v.as_str()),
    }
}

/// The check that the bootstrapper makes before it downloads OBS: with updates
/// switched on, whether an update is available; otherwise OBS is only
/// installed when required, that is when there is no valid installation. A
/// result of `true` means that OBS is downloaded, `false` that nothing is.
pub fn bootstrap_check(options: &ObsBootstrapperOptions, installed: &Option<String>) -> (r: Result<
    bool,
    ObsError,
>)
    ensures
        !options.spec_update() ==> r == Ok::<bool, ObsError>(installed is None),
        options.spec_update() && installed is None ==> r == Ok::<bool, ObsError>(true),
        options.spec_update() ==> (installed matches Some(v) ==> {
            &&& spec_should_update(v@) matches Some(b) ==> r == Ok::<bool, ObsError>(b)
            &&& spec_should_update(v@) is None ==> (r matches Err(
                ObsError::InvalidVersionString(m),
            ) && m@ == v@)
        }),
{
    if options.get_update() {
        is_update_available(installed)
    } else {
        Ok(!is_valid_installation(installed))
    }
}

} // verus!
