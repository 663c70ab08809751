//! The data that the self-update pipeline exchanges: the published
//! manifest, its per-platform entries, and the progress events of a
//! download. The pipeline itself — fetching, hashing, installing — is an
//! external collaborator; this module only gives its values a home.

use vstd::prelude::*;

verus! {

/// A published release: version, notes, date, and one entry per platform.
#[derive(Debug)]
pub struct UpdateManifest {
    pub version: String,
    pub notes: String,
    pub pub_date: String,
    pub platforms: Platforms,
}

/// The per-platform entries of a release.
#[derive(Debug)]
pub struct Platforms {
    pub windows_x86_64: Option<PlatformInfo>,
}

/// Where one platform's artifact lives and what it should hash to.
#[derive(Debug)]
pub struct PlatformInfo {
    pub url: String,
    pub sha256: Option<String>,
}

/// One step of a download-and-install run, as reported to the interface.
#[derive(Debug)]
pub enum UpdateEvent {
    Started { content_length: Option<u64> },
    Progress { chunk_length: u64, downloaded: u64, total: u64, percent: u8 },
    Finished,
    Installing,
    Error { message: String },
}

} // verus!
