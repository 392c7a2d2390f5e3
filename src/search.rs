use vstd::prelude::*;

verus! {

/// What the search service reports of a package.
pub struct CrateInfo {
    pub version: String,
    pub description: Option<String>,
    pub downloads: usize,
    pub license: Option<String>,
    pub crate_size: Option<usize>,
    pub repository: Option<String>,
    pub documentation: Option<String>,
    pub homepage: Option<String>,
    /// The time of the last update, in seconds since the Unix epoch.
    pub updated_at: i64,
    pub dependencies: usize,
    pub dev_dependencies: usize,
    pub build_dependencies: usize,
}

/// `base` and `tail` joined by a slash.
pub fn join_url(base: &str, tail: &str) -> (r: String)
    ensures
        r@ == base@ + seq!['/'] + tail@,
{
    let mut url = base.to_owned();
    crate::util::push_char(&mut url, '/');
    url.append(tail);
    url
}

/// A search answered with a client error: the package does not exist, which
/// is no failure.
pub fn is_not_found(status: u16) -> (r: bool)
    ensures
        r == (400 <= status < 500),
{
    400 <= status && status < 500
}

} // verus!
