//! Watches git repositories for new commits and rate-limits the
//! notifications about them: the change detector and repository state
//! machine (`repo`), the fixed-window throttle (`throttle`), the git
//! command lines (`git`), notification text (`notify`) and run settings
//! (`config`).
pub mod config;
pub mod git;
pub mod notify;
pub mod pagure;
pub mod repo;
pub mod throttle;
