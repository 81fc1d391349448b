//! The request for a repository's releases, and the name of its cache file.
use vstd::prelude::*;
use crate::numfmt::{decimal, decimal_text};

verus! {

/// The user agent sent with every request.
pub const USER_AGENT: &'static str = "ghrs";

/// Releases asked for when only the latest is wanted, and otherwise.
pub const LATEST_PAGE_SIZE: u64 = 1;

pub const DEFAULT_PAGE_SIZE: u64 = 5;

pub open spec fn page_size(latest: bool) -> nat {
    if latest { 1 } else { 5 }
}

/// The repository identifier `{user}/{repo}`.
pub open spec fn repo_id_text(user: Seq<char>, repo: Seq<char>) -> Seq<char> {
    user + "/"@ + repo
}

/// The address of the releases listing of a repository.
pub open spec fn releases_url_text(user: Seq<char>, repo: Seq<char>, latest: bool) -> Seq<char> {
    "https://api.github.com/repos/"@ + repo_id_text(user, repo) + "/releases?per_page="@ + decimal(
        page_size(latest),
    )
}

/// Each `/` of the identifier made a `.`.
pub open spec fn dotted(s: Seq<char>) -> Seq<char> {
    s.map_values(|c: char| if c == '/' { '.' } else { c })
}

/// The cache file name of a repository: its identifier with `/` made `.`,
/// then the suffix `.cache`.
pub open spec fn cache_name_text(user: Seq<char>, repo: Seq<char>) -> Seq<char> {
    dotted(repo_id_text(user, repo)) + ".cache"@
}

/// How many releases to ask for.
pub fn per_page(latest: bool) -> (r: u64)
    ensures
        r == page_size(latest),
{
    if latest {
        LATEST_PAGE_SIZE
    } else {
        DEFAULT_PAGE_SIZE
    }
}

/// The repository identifier `{user}/{repo}`.
pub fn repo_id(user: &str, repo: &str) -> (r: String)
    ensures
        r@ == repo_id_text(user@, repo@),
{
    let mut out = String::from_str(user);
    out.append("/");
    out.append(repo);
    out
}

/// The address of the releases listing, asking for one release when `latest`
/// is set and for a page of five otherwise.
pub fn releases_url(user: &str, repo: &str, latest: bool) -> (r: String)
    ensures
        r@ == releases_url_text(user@, repo@, latest),
{
    let mut out = String::from_str("https://api.github.com/repos/");
    let id = repo_id(user, repo);
    out.append(id.as_str());
    out.append("/releases?per_page=");
    let n = decimal_text(per_page(latest));
    out.append(n.as_str());
    out
}

/// The name of the file that caches the listing of `{user}/{repo}`.
pub fn cache_file_name(user: &str, repo: &str) -> (r: String)
    ensures
        r@ == cache_name_text(user@, repo@),
{
    let id = repo_id(user, repo);
    let s = id.as_str();
    let n = s.unicode_len();
    let mut out = String::new();
    let mut i: usize = 0;
    while i < n
        invariant
            n == s@.len(),
            s@ == repo_id_text(user@, repo@),
            i <= n,
            out@ == dotted(s@.take(i as int)),
        decreases n - i,
    {
        let c = s.get_char(i);
        if c == '/' {
            proof {
                reveal_strlit(".");
            }
            out.append(".");
        } else {
            out.append(s.substring_char(i, i + 1));
        }
        assert(out@ =~= dotted(s@.take(i + 1)));
        i = i + 1;
    }
    assert(s@.take(n as int) =~= s@);
    out.append(".cache");
    out
}

} // verus!
