//! The decisions behind command-line handling: which file to open and how
//! many folders of its path to display. Actual argument parsing is the
//! caller's business; this module turns the parsed flags into the settings
//! the viewer runs with.

use vstd::prelude::*;

verus! {

/// The settings extracted from the command line.
pub struct Args {
    pub file_path: Option<String>,
    pub displayed_folders: Option<u32>,
}

impl Args {
    /// Combines the parsed command-line flags: asking for absolute paths
    /// means displaying as many folders as can be counted (one is kept in
    /// reserve because a later step adds one to this value and must not
    /// overflow); otherwise the explicit folder count, if any, is used.
    pub fn from_flags(file_path: Option<String>, absolute: bool, folder_count: Option<u32>) -> (r:
        Args)
        ensures
            r.file_path == file_path,
            r.displayed_folders == (if absolute {
                Some((u32::MAX - 1) as u32)
            } else {
                folder_count
            }),
    {
        let displayed_folders = if absolute {
            Some(u32::MAX - 1)
        } else {
            folder_count
        };
        Args { file_path, displayed_folders }
    }
}

} // verus!
