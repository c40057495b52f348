//! The resolution request, the candidate file locations derived from a
//! formula name, and the query / content URL shapes built over them.

use vstd::prelude::*;

verus! {

/// A request to resolve one formula at one version. Both strings are
/// non-empty; the first character of the name doubles as the bucket key of
/// the bucketed candidate path.
pub struct ResolutionRequest {
    pub name: String,
    pub version: String,
}

impl ResolutionRequest {
    /// Both fields are non-empty.
    pub open spec fn wf(self) -> bool {
        self.name@.len() > 0 && self.version@.len() > 0
    }

    pub fn new(name: String, version: String) -> (r: ResolutionRequest)
        requires
            name@.len() > 0,
            version@.len() > 0,
        ensures
            r.wf(),
            r.name == name,
            r.version == version,
    {
        ResolutionRequest { name, version }
    }
}

/// The commit-message fragment that announces `version`'s bottle for `name`.
/// Matching on this conventional wording is a deliberate low-cost heuristic
/// in lieu of structured release metadata; it breaks if the upstream message
/// format changes, and it is not strengthened beyond plain containment.
pub open spec fn match_text(name: Seq<char>, version: Seq<char>) -> Seq<char> {
    name + ": update "@ + version + " bottle"@
}

/// Builds the message fragment a publishing commit is expected to contain.
pub fn commit_message(name: &str, version: &str) -> (r: String)
    ensures
        r@ == match_text(name@, version@),
{
    let mut s = name.to_owned();
    s.append(": update ");
    s.append(version);
    s.append(" bottle");
    s
}

/// The bucketed candidate location: the name's first character stands as its
/// own directory under the formula tree.
pub open spec fn bucketed_path_of(name: Seq<char>) -> Seq<char> {
    "/Formula/"@ + seq![name[0]] + "/"@ + name + ".rb"@
}

/// The flat candidate location: the definition file sits directly in the
/// formula tree.
pub open spec fn flat_path_of(name: Seq<char>) -> Seq<char> {
    "/Formula/"@ + name + ".rb"@
}

/// The ordered candidate list. The order is part of the contract: the
/// bucketed form is tried first, the flat form second.
pub open spec fn candidate_paths_of(name: Seq<char>) -> Seq<Seq<char>> {
    seq![bucketed_path_of(name), flat_path_of(name)]
}

/// Builds the candidate file locations for `name`, in search order:
/// bucketed form first, flat form second.
pub fn get_file_path(name: &str) -> (r: Vec<String>)
    requires
        name@.len() > 0,
    ensures
        r@.len() == 2,
        r@[0]@ == bucketed_path_of(name@),
        r@[1]@ == flat_path_of(name@),
        r@.map_values(|p: String| p@) == candidate_paths_of(name@),
{
    let first = name.substring_char(0, 1);
    let mut bucketed = String::from_str("/Formula/");
    bucketed.append(first);
    bucketed.append("/");
    bucketed.append(name);
    bucketed.append(".rb");
    let mut flat = String::from_str("/Formula/");
    flat.append(name);
    flat.append(".rb");
    let mut r: Vec<String> = Vec::new();
    r.push(bucketed);
    r.push(flat);
    proof {
        assert(name@.subrange(0, 1) =~= seq![name@[0]]);
        assert(r@[0]@ =~= bucketed_path_of(name@));
        assert(r@[1]@ =~= flat_path_of(name@));
        assert(r@.map_values(|p: String| p@) =~~= candidate_paths_of(name@));
    }
    r
}

/// The history query URL for one candidate path, asking for the largest page
/// the API serves in a single call.
pub open spec fn commits_url_of(path: Seq<char>) -> Seq<char> {
    "https://api.github.com/repos/Homebrew/homebrew-core/commits?path="@ + path
        + "&per_page=100"@
}

/// Builds the history query URL for one candidate path.
pub fn format_gh_api_commits_url(file_path: &str) -> (r: String)
    ensures
        r@ == commits_url_of(file_path@),
{
    let mut s = String::from_str(
        "https://api.github.com/repos/Homebrew/homebrew-core/commits?path=",
    );
    s.append(file_path);
    s.append("&per_page=100");
    s
}

/// The raw-content URL of one file at one commit.
pub open spec fn raw_file_url_of(commit: Seq<char>, path: Seq<char>) -> Seq<char> {
    "https://raw.githubusercontent.com/Homebrew/homebrew-core/"@ + commit + path
}

/// Builds the raw-content URL of `file_path` at `commit`.
pub fn format_gh_api_raw_file_url(commit: &str, file_path: &str) -> (r: String)
    ensures
        r@ == raw_file_url_of(commit@, file_path@),
{
    let mut s = String::from_str("https://raw.githubusercontent.com/Homebrew/homebrew-core/");
    s.append(commit);
    s.append(file_path);
    s
}

/// The fixed client identifier sent with every request.
pub fn user_agent() -> (r: String)
    ensures
        r@ == "BrewVer/0.1"@,
{
    String::from_str("BrewVer/0.1")
}

/// The value of the authorization header carrying a bearer `token`.
pub fn bearer_header_value(token: &str) -> (r: String)
    ensures
        r@ == "Bearer "@ + token@,
{
    let mut s = String::from_str("Bearer ");
    s.append(token);
    s
}

/// Law: for every non-empty name the candidate list is non-empty and holds
/// exactly the bucketed form followed by the flat form, and in the bucketed
/// form the name's first character stands as a path segment of its own,
/// enclosed by separators, directly after the formula directory.
pub proof fn lemma_candidate_paths_form(name: Seq<char>)
    requires
        name.len() > 0,
    ensures
        candidate_paths_of(name).len() > 0,
        candidate_paths_of(name)[0] == bucketed_path_of(name),
        candidate_paths_of(name)[1] == flat_path_of(name),
        bucketed_path_of(name)[8] == '/',
        bucketed_path_of(name)[9] == name[0],
        bucketed_path_of(name)[10] == '/',
{
    reveal_strlit("/Formula/");
    reveal_strlit("/");
    assert(bucketed_path_of(name)[8] == "/Formula/"@[8]);
    assert(bucketed_path_of(name)[9] == name[0]);
    assert(bucketed_path_of(name)[10] == "/"@[0]);
}

} // verus!
