//! The run's configuration, as plain values.
use vstd::prelude::*;
use crate::status::{level_from_name, level_of, lower_of, OutputLevel};
use crate::text::owned;

verus! {

/// Where the project is synced and built on the remote host, unless configured.
pub open spec fn default_remote_path_text() -> Seq<char> {
    "~/remotebuild-cache"@
}

/// What one remote build needs to know.
pub struct Config {
    /// SSH host, e.g. `user@host` or `host`.
    pub host: String,
    /// Remote directory the project is synced to and built in.
    pub remote_path: String,
    /// Command run on the remote host, inside `remote_path`.
    pub build_command: String,
    /// Paths, relative to `remote_path`, copied back after the build.
    pub artifacts: Vec<String>,
    /// Extra exclusion patterns for the push.
    pub exclude_patterns: Vec<String>,
    /// Whether version control decides which files are pushed.
    pub git_aware: bool,
    /// Output tier name.
    pub output: String,
}

impl Config {
    /// The tier named by `output`, in any letter case; unknown names are minimal.
    pub fn output_level(&self) -> (r: OutputLevel)
        ensures
            r == level_of(lower_of(self.output@)),
    {
        level_from_name(self.output.as_str())
    }
}

/// The remote path used when the configuration names none.
pub fn default_remote_path() -> (r: String)
    ensures
        r@ == default_remote_path_text(),
{
    proof {
        reveal_strlit("~/remotebuild-cache");
    }
    owned("~/remotebuild-cache")
}

/// Version-control awareness is on unless the configuration turns it off.
pub fn default_true() -> (r: bool)
    ensures
        r,
{
    true
}

} // verus!
