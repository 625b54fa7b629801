use crate::git::{decimal, decimal_text};
use vstd::prelude::*;

verus! {

/// Commits kept by each shallow clone, unless configured otherwise.
pub const DEFAULT_HISTORY_DEPTH: u64 = 50;

/// Seconds between two polls, unless configured otherwise.
pub const DEFAULT_UPDATE_INTERVAL: u64 = 150;

/// Seconds in one notification window, unless configured otherwise.
pub const DEFAULT_THROTTLE_INTERVAL: u64 = 5;

/// Notifications allowed per window, unless configured otherwise.
pub const DEFAULT_MAX_NOTIFICATIONS: u64 = 5;

/// The settings of one run.
pub struct Args {
    /// One descriptor per repository: its url, commit subpath and branch.
    pub repos: Vec<String>,
    pub history_depth: u64,
    pub update_interval: u64,
    pub throttle_interval: u64,
    pub max_notifications: u64,
}

/// Hands out a fresh directory name under a temporary directory for each
/// clone.
pub struct RepoTempPath {
    tmp_dir: String,
    idx: u64,
}

impl View for RepoTempPath {
    /// The temporary directory and the number of the next name.
    type V = (Seq<char>, nat);

    closed spec fn view(&self) -> (Seq<char>, nat) {
        (self.tmp_dir@, self.idx as nat)
    }
}

/// The `idx`-th directory name under `tmp_dir`.
pub open spec fn numbered_path(tmp_dir: Seq<char>, idx: nat) -> Seq<char> {
    tmp_dir + "/git-notifier/"@ + decimal(idx)
}

impl RepoTempPath {
    pub fn init(tmp_dir: String) -> (r: Self)
        ensures
            r@ == (tmp_dir@, 0nat),
    {
        RepoTempPath { tmp_dir, idx: 0 }
    }

    /// The next name: the temporary directory, `/git-notifier/`, and a
    /// number that grows by one with each call.
    pub fn new_path(&mut self) -> (r: String)
        requires
            old(self)@.1 < u64::MAX,
        ensures
            r@ == numbered_path(old(self)@.0, old(self)@.1),
            final(self)@ == (old(self)@.0, old(self)@.1 + 1),
    {
        let mut path = String::new();
        path.append(self.tmp_dir.as_str());
        path.append("/git-notifier/");
        let digits = decimal_text(self.idx);
        path.append(digits.as_str());
        self.idx = self.idx + 1;
        path
    }
}

} // verus!
