//! Options of the OBS bootstrapper.
use vstd::prelude::*;

verus! {

/// The GitHub repository from which OBS builds are downloaded by default.
pub const GITHUB_REPO: &'static str = "sshcrack/libobs-builds";

/// Options of the OBS bootstrapper: where to download OBS from, and whether an
/// installed OBS should be updated.
#[derive(Debug, Clone)]
pub struct ObsBootstrapperOptions {
    repository: String,
    update: bool,
}

impl ObsBootstrapperOptions {
    /// The repository that OBS is downloaded from.
    pub closed spec fn spec_repository(&self) -> Seq<char> {
        self.repository@
    }

    /// Whether an installed OBS is checked for updates.
    pub closed spec fn spec_update(&self) -> bool {
        self.update
    }

    /// Options with the default repository and updates switched on.
    pub fn new() -> (r: Self)
        ensures
            r.spec_repository() == GITHUB_REPO@,
            r.spec_update(),
    {
        ObsBootstrapperOptions { repository: GITHUB_REPO.to_owned(), update: true }
    }

    /// Sets the repository that OBS is downloaded from.
    pub fn set_repository(self, repository: &str) -> (r: Self)
        ensures
            r.spec_repository() == repository@,
            r.spec_update() == self.spec_update(),
    {
        let mut s = self;
        s.repository = repository.to_owned();
        s
    }

    /// Returns the repository that OBS is downloaded from.
    pub fn get_repository(&self) -> (r: &str)
        ensures
            r@ == self.spec_repository(),
    {
        self.repository.as_str()
    }

    /// `true` if the updater should check for updates and download them if available.
    /// `false` if the updater should not check for updates and only install OBS if required.
    pub fn set_update(self, update: bool) -> (r: Self)
        ensures
            r.spec_repository() == self.spec_repository(),
            r.spec_update() == update,
    {
        let mut s = self;
        s.update = update;
        s
    }

    /// Returns whether an installed OBS is checked for updates.
    pub fn get_update(&self) -> (r: bool)
        ensures
            r == self.spec_update(),
    {
        self.update
    }
}

impl Default for ObsBootstrapperOptions {
    fn default() -> (r: Self)
        ensures
            r.spec_repository() == GITHUB_REPO@,
            r.spec_update(),
    {
        ObsBootstrapperOptions::new()
    }
}

/// OBS builds are downloaded from `sshcrack/libobs-builds` unless another
/// repository is set.
pub proof fn lemma_default_repository()
    ensures
        GITHUB_REPO@ == "sshcrack/libobs-builds"@,
{
}

} // verus!
