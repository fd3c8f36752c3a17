//! What the About view shows.

use vstd::prelude::*;

verus! {

/// The data of the About view.
#[derive(Debug)]
pub struct AboutView {
    pub app_version: String,
    pub build_date: String,
    pub commit_hash: Option<String>,
}

impl AboutView {
    pub fn new(app_version: String, build_date: String, commit_hash: Option<String>) -> (view:
        Self)
        ensures
            view.app_version == app_version,
            view.build_date == build_date,
            view.commit_hash == commit_hash,
    {
        AboutView { app_version, build_date, commit_hash }
    }
}

} // verus!
