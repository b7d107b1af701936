//! What is said over the control socket about playlists, the blacklist and the outputs.

use vstd::prelude::*;

verus! {

/// A command on the playlists.
#[derive(Debug)]
#[allow(inconsistent_fields)]
pub enum PlaylistCommand {
    Create { name: String },
    Delete { name: String },
    Add { name: String, path: String },
    Remove { name: String, path: String },
    Load { name: Option<String> },
    List,
}

/// A command on the blacklist.
#[derive(Debug)]
pub enum BlacklistCommand {
    Add { path: String },
    Remove { path: String },
    List,
}

/// What is reported of one output.
#[derive(Debug)]
pub struct OutputInfo {
    pub name: String,
    pub width: u32,
    pub height: u32,
    pub current_wallpaper: Option<String>,
}

} // verus!
