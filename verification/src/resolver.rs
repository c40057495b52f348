//! The revision resolver: a step machine that walks the candidate paths in
//! order, judges one history page per step, and either produces the resolved
//! commit and content URL or exhausts its candidates.
//!
//! The surrounding binary owns the network: it asks [`Resolver::next_query`]
//! what to fetch, performs the GET, and hands the body back to
//! [`Resolver::on_history_page`]. Every decision — which path, which commit,
//! which URL, when to stop — is taken here.
//!
//! Each candidate path is searched through a single history page, requested
//! at the largest size the API serves; no further pages are walked. A
//! publishing commit that lies beyond that first page therefore resolves as
//! `NotFound` — a deliberate scope limit, not an oversight.

use vstd::prelude::*;

use crate::history::CommitRecord;
use crate::history::is_first_match;
use crate::history::page_has_match;
use crate::history::parse_history;
use crate::history::parsed_history;
use crate::history::views_of;
use crate::request::ResolutionRequest;
use crate::request::candidate_paths_of;
use crate::request::commits_url_of;
use crate::request::format_gh_api_commits_url;
use crate::request::format_gh_api_raw_file_url;
use crate::request::get_file_path;
use crate::request::raw_file_url_of;

verus! {

/// A fully resolved release: the publishing commit, the candidate path that
/// held the definition file, and the raw-content URL derived from both.
pub struct ResolutionResult {
    pub commit_id: String,
    pub source_path: String,
    pub content_url: String,
}

/// The terminal failures of a run. Only `NotFound` and `Protocol` are decided
/// here; `Transport` and `Staging` stand for failures the surrounding binary
/// meets while fetching or staging, so that one kind reaches the user.
pub enum ResolveError {
    NotFound { name: String, version: String },
    Transport,
    Protocol,
    Staging,
}

/// The text shown for each error kind.
pub open spec fn describe_spec(e: ResolveError) -> Seq<char> {
    match e {
        ResolveError::NotFound { name, version } => "no matching commit: "@ + name@ + "@"@
            + version@,
        ResolveError::Transport => "network transfer failed"@,
        ResolveError::Protocol => "unexpected response shape"@,
        ResolveError::Staging => "could not stage the artifact"@,
    }
}

impl ResolveError {
    /// A human-readable message for this error kind.
    pub fn describe(&self) -> (r: String)
        ensures
            r@ == describe_spec(*self),
    {
        match self {
            ResolveError::NotFound { name, version } => {
                let mut s = String::from_str("no matching commit: ");
                s.append(name.as_str());
                s.append("@");
                s.append(version.as_str());
                s
            },
            ResolveError::Transport => String::from_str("network transfer failed"),
            ResolveError::Protocol => String::from_str("unexpected response shape"),
            ResolveError::Staging => String::from_str("could not stage the artifact"),
        }
    }
}

/// One history query the caller is asked to perform: the candidate path under
/// search and the page URL to GET.
pub struct HistoryQuery {
    pub path: String,
    pub url: String,
}

/// The judgement of one history page.
pub enum PageOutcome {
    /// The page held a matching commit; the search is over.
    Found(ResolutionResult),
    /// A well-formed page without a matching commit; the search moves to the
    /// next candidate path.
    NoMatch,
    /// The body was not a JSON array: a protocol violation, terminal.
    Malformed,
}

/// The resolver's state: the request, the ordered candidate paths, and the
/// position of the next candidate to query.
pub struct Resolver {
    pub request: ResolutionRequest,
    pub paths: Vec<String>,
    pub next_index: usize,
}

impl Resolver {
    /// The request is well-formed, the paths are exactly the candidate list
    /// of the requested name, and the position is within bounds.
    pub open spec fn wf(self) -> bool {
        &&& self.request.wf()
        &&& self.paths@.map_values(|p: String| p@) == candidate_paths_of(self.request.name@)
        &&& self.next_index <= self.paths@.len()
    }

    /// Every candidate has been tried without success.
    pub open spec fn exhausted(self) -> bool {
        self.next_index >= self.paths@.len()
    }

    /// The candidate path the next query will search, if one is left.
    pub open spec fn spec_next_query(self) -> Option<Seq<char>> {
        if self.exhausted() {
            None
        } else {
            Some(self.paths@[self.next_index as int]@)
        }
    }

    /// Starts a search at the first candidate path.
    pub fn new(request: ResolutionRequest) -> (r: Resolver)
        requires
            request.wf(),
        ensures
            r.wf(),
            r.request == request,
            r.next_index == 0,
            !r.exhausted(),
    {
        let paths = get_file_path(request.name.as_str());
        Resolver { request, paths, next_index: 0 }
    }

    /// The next history query to perform, or nothing once the candidates are
    /// exhausted — after which the search ends in `NotFound`.
    pub fn next_query(&self) -> (q: Option<HistoryQuery>)
        requires
            self.wf(),
        ensures
            match q {
                Some(hq) => {
                    &&& self.spec_next_query() == Some(hq.path@)
                    &&& hq.url@ == commits_url_of(hq.path@)
                },
                None => self.spec_next_query() is None,
            },
    {
        if self.next_index >= self.paths.len() {
            return None;
        }
        let path = self.paths[self.next_index].clone();
        let url = format_gh_api_commits_url(path.as_str());
        Some(HistoryQuery { path, url })
    }

    /// Judges the history page fetched for the pending candidate path: the
    /// first record whose message announces the requested bottle resolves the
    /// search; a matchless page moves it to the next candidate; a body that
    /// is not a JSON array ends it as a protocol violation.
    pub fn on_history_page(&mut self, body: &str) -> (out: PageOutcome)
        requires
            old(self).wf(),
            !old(self).exhausted(),
        ensures
            final(self).wf(),
            final(self).request == old(self).request,
            final(self).paths@ == old(self).paths@,
            ({
                let path = old(self).paths@[old(self).next_index as int]@;
                let name = old(self).request.name@;
                let version = old(self).request.version@;
                match parsed_history(body@) {
                    None => {
                        &&& out is Malformed
                        &&& final(self).next_index == old(self).next_index
                    },
                    Some(records) => {
                        if page_has_match(records, name, version) {
                            &&& final(self).exhausted()
                            &&& out matches PageOutcome::Found(res) && (exists|i: int|
                                #[trigger] is_first_match(records, name, version, i)
                                    && res.commit_id@ == records[i].0 && res.source_path@ == path
                                    && res.content_url@ == raw_file_url_of(records[i].0, path))
                        } else {
                            &&& out is NoMatch
                            &&& final(self).next_index == old(self).next_index + 1
                        }
                    },
                }
            }),
    {
        let records: Vec<CommitRecord> = match parse_history(body) {
            Some(records) => records,
            None => {
                return PageOutcome::Malformed;
            },
        };
        let found = crate::history::find_first_match(
            &records,
            self.request.name.as_str(),
            self.request.version.as_str(),
        );
        match found {
            Some(i) => {
                let sha = records[i].sha.clone();
                let path = self.paths[self.next_index].clone();
                let url = format_gh_api_raw_file_url(sha.as_str(), path.as_str());
                self.next_index = self.paths.len();
                assert(views_of(records@)[i as int].0 == records@[i as int].sha@);
                PageOutcome::Found(
                    ResolutionResult { commit_id: sha, source_path: path, content_url: url },
                )
            },
            None => {
                // Learning the vector's length tells the verifier the index
                // cannot overflow when it advances.
                let _count: usize = self.paths.len();
                self.next_index = self.next_index + 1;
                PageOutcome::NoMatch
            },
        }
    }

    /// The error reported when every candidate path was searched in vain.
    pub fn not_found(&self) -> (e: ResolveError)
        ensures
            e matches ResolveError::NotFound { name, version } && name@ == self.request.name@
                && version@ == self.request.version@,
    {
        ResolveError::NotFound {
            name: self.request.name.clone(),
            version: self.request.version.clone(),
        }
    }
}

/// Law: a resolver whose candidates are exhausted — as they are immediately
/// after a page yields a match — issues no further history query.
pub proof fn lemma_exhausted_issues_no_query(r: Resolver)
    requires
        r.exhausted(),
    ensures
        r.spec_next_query() is None,
{
}

} // verus!
