//! The local-filesystem resource repository: its description and handle.
//! Reading a resource goes through the backend client; the call itself
//! crosses the foreign-function boundary outside this library, and its
//! response is interpreted by `crate::cfs`.

use vstd::prelude::*;

use crate::cfs::{Cfs, CfsError};

verus! {

/// Where resources live when no directory is configured.
pub const DEFAULT_REPO_DIR_PATH: &'static str = "/opt/confidential-containers/kbs/repository";

/// Describes a local-filesystem repository: its directory, if configured.
pub struct LocalFsRepoDesc {
    pub dir_path: Option<String>,
}

impl Default for LocalFsRepoDesc {
    /// The default description points at the fixed repository directory.
    fn default() -> (d: Self)
        ensures
            d.dir_path matches Some(p) && p@ == DEFAULT_REPO_DIR_PATH@,
    {
        LocalFsRepoDesc { dir_path: Some(String::from_str(DEFAULT_REPO_DIR_PATH)) }
    }
}

/// A three-part resource address: repository name, type, tag.
pub struct ResourceDesc {
    pub repository_name: String,
    pub resource_type: String,
    pub resource_tag: String,
}

/// A local-filesystem repository handle.
pub struct LocalFs {
    pub repo_dir_path: String,
    pub cfsi: Cfs,
}

impl LocalFs {
    /// A repository over the described directory, or the fixed default
    /// directory when none is configured.
    pub fn new(repo_desc: &LocalFsRepoDesc) -> (r: Result<LocalFs, CfsError>)
        ensures
            r matches Ok(l) && l.cfsi.info@ == "local fs"@ && match repo_desc.dir_path {
                Some(p) => l.repo_dir_path == p,
                None => l.repo_dir_path@ == DEFAULT_REPO_DIR_PATH@,
            },
    {
        let repo_dir = match &repo_desc.dir_path {
            Some(p) => p.clone(),
            None => String::from_str(DEFAULT_REPO_DIR_PATH),
        };
        let cfsi = match Cfs::new(String::from_str("local fs")) {
            Ok(c) => c,
            Err(e) => {
                return Err(e);
            },
        };
        Ok(LocalFs { repo_dir_path: repo_dir, cfsi })
    }
}

} // verus!
