use vstd::prelude::*;

verus! {

/// What the command line asked for.
#[derive(Debug)]
pub struct ZohaArgs {
    /// Override location of config file.
    pub cfg_file: Option<String>,
    /// Listen for the keys that toggle the window.
    pub keypress_grabber: bool,
    /// List keys accepted by keypress grabber.
    pub list_key_grabber_keys: bool,
    /// Signal a running instance to toggle visibility and exit.
    pub signal: bool,
    /// List monitors and exit.
    pub list_monitors: bool,
    /// Do not print hints.
    pub quiet: bool,
    /// Sanitize configuration, print any errors and exit.
    pub dry_run: bool,
}

} // verus!
