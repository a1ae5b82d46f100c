//! What the surrounding process performs on the library's behalf: writing a
//! file it names, or running a command line it has computed. The library
//! decides paths, contents and arguments; the host only carries them out.

use vstd::prelude::*;

verus! {

/// One file to create with the given full content.
#[derive(Debug)]
pub struct FileWrite {
    pub path: String,
    pub content: String,
}

impl FileWrite {
    pub fn new(path: String, content: String) -> (r: FileWrite)
        ensures
            r.path == path,
            r.content == content,
    {
        FileWrite { path, content }
    }
}

} // verus!
