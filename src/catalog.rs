use vstd::prelude::*;

verus! {

/// The reply of the authentication service to a successful login.
#[derive(Debug, Clone)]
pub struct LoginResponse {
    pub token: String,
    pub username: String,
}

/// An error body returned by the catalog service.
#[derive(Debug, Clone)]
pub struct ErrorResponse {
    error: String,
    message: String,
}

impl ErrorResponse {
    pub fn new(error: String, message: String) -> (r: ErrorResponse)
        ensures
            r.error_view() == error@,
            r.message_view() == message@,
    {
        ErrorResponse { error, message }
    }

    pub closed spec fn error_view(&self) -> Seq<char> {
        self.error@
    }

    pub closed spec fn message_view(&self) -> Seq<char> {
        self.message@
    }

    /// The short error code given by the service.
    pub fn error(&self) -> (r: &String)
        ensures
            r@ == self.error_view(),
    {
        &self.error
    }

    /// The human-readable explanation given by the service.
    pub fn message(&self) -> (r: &String)
        ensures
            r@ == self.message_view(),
    {
        &self.message
    }
}

/// The catalog's description of one mod.
#[derive(Debug, Clone)]
pub struct ModResponse {
    /// Number of downloads.
    pub downloads_count: u64,
    /// The latest release available for download.
    pub latest_release: Option<ModRelease>,
    /// The mod's machine-readable identifier.
    pub name: String,
    /// The username of the mod's author.
    pub owner: String,
    /// Every release of the mod available for download.
    pub releases: Vec<ModRelease>,
    /// A short description.
    pub summary: String,
    /// The mod's human-readable name.
    pub title: String,
    /// A simple tag describing the mod.
    pub category: Option<String>,
    /// The relative path to the mod's thumbnail, on the assets host.
    pub thumbnail: Option<String>,
}

/// One downloadable release of a mod.
#[derive(Debug, Clone)]
pub struct ModRelease {
    /// Server-relative download path (it starts with "/download"); the
    /// route requires authentication.
    pub download_url: String,
    /// The file name of the release, normally "{name}_{version}.zip".
    pub file_name: String,
    /// ISO 8601 date of the release.
    pub released_at: String,
    /// The version of the release.
    pub version: String,
    /// The SHA-1 digest of the release's file, as published.
    pub sha1: String,
}

/// The metadata a mod declares about itself.
#[derive(Debug, Clone)]
pub struct ModInfo {
    /// The machine-readable name of the mod.
    pub name: String,
    /// The version of the mod.
    pub version: String,
    /// The human-readable name of the mod.
    pub title: String,
    /// The author of the mod.
    pub author: String,
    /// The game version the mod is compatible with.
    pub factorio_version: String,
    /// The mods this mod depends on.
    pub dependencies: Option<Vec<String>>,
}

/// `i` is the position of the first release in `releases` whose version is
/// exactly `version`.
pub open spec fn is_first_match(releases: Seq<ModRelease>, version: Seq<char>, i: int) -> bool {
    &&& 0 <= i < releases.len()
    &&& releases[i].version@ == version
    &&& forall|j: int| 0 <= j < i ==> releases[j].version@ != version
}

/// Some release in `releases` has exactly the version `version`.
pub open spec fn has_release(releases: Seq<ModRelease>, version: Seq<char>) -> bool {
    exists|i: int| 0 <= i < releases.len() && releases[i].version@ == version
}

/// The position of the first release whose version equals `version`
/// exactly, if there is one. No other version is ever taken in its place.
pub fn find_release(releases: &Vec<ModRelease>, version: &String) -> (r: Option<usize>)
    ensures
        match r {
            Some(i) => is_first_match(releases@, version@, i as int),
            None => !has_release(releases@, version@),
        },
{
    let mut i: usize = 0;
    while i < releases.len()
        invariant
            0 <= i <= releases@.len(),
            forall|j: int| 0 <= j < i ==> releases@[j].version@ != version@,
        decreases releases@.len() - i,
    {
        if releases[i].version == *version {
            return Some(i);
        }
        i = i + 1;
    }
    None
}

} // verus!
