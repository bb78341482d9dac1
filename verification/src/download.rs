//! One remote-file-to-local-file fetch job: a filename, the server prefix
//! it is fetched from, and the local directory it is persisted under. The
//! derived local and server paths are plain string concatenations. Opening
//! connections and writing files is the application's work; whether a local
//! copy already exists is answered here through a trusted filesystem probe.

use vstd::prelude::*;
use vstd::string::StringExecFns;

verus! {

/// The abstract value of a fetch job: its three path components.
pub ghost struct DownloadModel {
    pub filename: Seq<char>,
    pub server: Seq<char>,
    pub localpath: Seq<char>,
}

/// One remote-to-local fetch job.
pub struct Download {
    pub filename: String,
    pub server: String,
    pub localpath: String,
}

impl View for Download {
    type V = DownloadModel;

    open spec fn view(&self) -> DownloadModel {
        DownloadModel { filename: self.filename@, server: self.server@, localpath: self.localpath@ }
    }
}

impl Download {
    /// A job that fetches `filename` from under `server` and persists it
    /// under `localpath`.
    pub fn new(filename: String, server: String, localpath: String) -> (r: Download)
        ensures
            r@.filename == filename@,
            r@.server == server@,
            r@.localpath == localpath@,
    {
        Download { filename, server, localpath }
    }

    /// The path the file is persisted under: the local directory followed
    /// by the filename.
    pub fn localfile(&self) -> (r: Option<String>)
        ensures
            match r {
                Option::Some(s) => s@ == self@.localpath + self@.filename,
                Option::None => false,
            },
    {
        Option::Some(self.localpath.clone().concat(self.filename.as_str()))
    }

    /// The remote path the file is fetched from: the server prefix followed
    /// by the filename.
    pub fn serverfile(&self) -> (r: Option<String>)
        ensures
            match r {
                Option::Some(s) => s@ == self@.server + self@.filename,
                Option::None => false,
            },
    {
        Option::Some(self.server.clone().concat(self.filename.as_str()))
    }

    /// Whether a local copy already exists. A pure filesystem probe with no
    /// side effects; the answer depends on the machine's disk, so nothing
    /// more is promised of it.
    pub fn is_local(&self) -> (r: Option<bool>)
        ensures
            r is Some,
    {
        match self.localfile() {
            Option::Some(p) => Option::Some(path_exists(p.as_str())),
            Option::None => Option::None,
        }
    }
}

/// Relies on std::path::Path::exists: asks the filesystem whether a path
/// points at an existing entity; the answer depends on the machine's disk.
#[verifier::external_body]
fn path_exists(p: &str) -> (r: bool)
{
    std::path::Path::new(p).exists()
}

} // verus!
