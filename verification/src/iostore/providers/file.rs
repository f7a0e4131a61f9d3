//! IoStore .ucas file provider using a folder

use vstd::prelude::*;

verus! {

/// File provider from a folder; the files are opened next to the library, by the
/// application, under `folder`.
#[derive(Debug, Clone, PartialEq, Eq, Hash)]
pub struct IoStoreFileProvider {
    /// The folder of the container files
    pub folder: String,
}

impl IoStoreFileProvider {
    /// Create a new `IoStoreFileProvider` instance
    pub fn new(folder: String) -> (r: Self)
        ensures r.folder == folder,
    {
        IoStoreFileProvider { folder }
    }
}

} // verus!
