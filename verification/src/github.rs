//! The hosting service: repository coordinates, the API client's requests,
//! and the pull request that a git reference belongs to.

pub mod metadata;

use vstd::prelude::*;
use vstd::string::*;

use crate::boundary::{join_url, joined_url};
use crate::decimal::{decimal_string, decimal_text};
use crate::error::{CommentError, FindPrError, RepoUrlError};
use crate::pr_ref::{pr_number_from_ref, pr_number_of, NamedPr};
use crate::text::{chars_of, ends_with, has_suffix, same_text, text_option};

verus! {

/// What the resolver reads of a repository's web URL.
pub struct RepoUrl {
    /// The URL as it is written.
    pub text: String,
    /// The host, if the URL has one.
    pub host: Option<String>,
    /// The path split at `/`, if the URL has such a path.
    pub path_segments: Option<Vec<String>>,
    /// The query string, if there is one.
    pub query: Option<String>,
    /// The fragment, if there is one.
    pub fragment: Option<String>,
}

/// The mathematical content of a `RepoUrl`.
pub struct RepoUrlView {
    pub text: Seq<char>,
    pub host: Option<Seq<char>>,
    pub path_segments: Option<Seq<Seq<char>>>,
    pub query: Option<Seq<char>>,
    pub fragment: Option<Seq<char>>,
}

impl View for RepoUrl {
    type V = RepoUrlView;

    open spec fn view(&self) -> RepoUrlView {
        RepoUrlView {
            text: self.text@,
            host: text_option(self.host),
            path_segments: match self.path_segments {
                Some(v) => Some(Seq::new(v@.len(), |i: int| v@[i]@)),
                None => None,
            },
            query: text_option(self.query),
            fragment: text_option(self.fragment),
        }
    }
}

/// Where a repository lives: the API's base URL, the organization and the
/// repository's name.
#[derive(Debug, Clone, PartialEq, Eq, PartialOrd, Ord, Hash)]
pub struct RepoInfo {
    pub api_url: String,
    pub org: String,
    pub name: String,
}

/// The mathematical content of a `RepoInfo`.
pub struct RepoInfoView {
    pub api_url: Seq<char>,
    pub org: Seq<char>,
    pub name: Seq<char>,
}

impl View for RepoInfo {
    type V = RepoInfoView;

    open spec fn view(&self) -> RepoInfoView {
        RepoInfoView { api_url: self.api_url@, org: self.org@, name: self.name@ }
    }
}

/// A text that can serve as a base URL ends in a path separator.
pub open spec fn is_base_url(url: Seq<char>) -> bool {
    url.len() > 0 && url.last() == '/'
}

impl RepoInfoView {
    /// The API URL is a base URL, and neither name is empty.
    pub open spec fn wf(&self) -> bool {
        &&& is_base_url(self.api_url)
        &&& self.org.len() > 0
        &&& self.name.len() > 0
    }
}

impl RepoInfo {
    /// The API URL is a base URL, and neither name is empty.
    pub open spec fn wf(&self) -> bool {
        self@.wf()
    }
}

/// The API root of the public hosting service.
pub const DEFAULT_GITHUB_API_URL: &'static str = "https://api.github.com/";

/// The API root of the public hosting service.
pub open spec fn default_api_url() -> Seq<char> {
    DEFAULT_GITHUB_API_URL@
}

/// The host of the public hosting service.
pub open spec fn public_host() -> Seq<char> {
    "github.com"@
}

/// Where the API of an enterprise installation lives below its origin.
pub open spec fn enterprise_api_path() -> Seq<char> {
    "/api/v3/"@
}

/// The ending that a repository's path segment may carry.
pub open spec fn git_suffix() -> Seq<char> {
    ".git"@
}

/// The repository's name: its path segment without a trailing `.git`.
pub open spec fn repo_name_of(segment: Seq<char>) -> Seq<char> {
    if ends_with(segment, git_suffix()) {
        segment.subrange(0, segment.len() - git_suffix().len())
    } else {
        segment
    }
}

/// The API base URL of an enterprise installation, from what joining the
/// enterprise API path to the repository's URL gave: the joined URL,
/// provided there is one and it ends with that path.
pub open spec fn enterprise_api_url_of(joined: Option<Seq<char>>) -> Option<Seq<char>> {
    match joined {
        Some(url) => if ends_with(url, enterprise_api_path()) {
            Some(url)
        } else {
            None
        },
        None => None,
    }
}

/// The API base URL for a repository on `host` whose URL is written `text`:
/// the public API root for the public host, and for any other host what
/// joining the enterprise API path to the URL gives.
pub open spec fn api_url_of(host: Seq<char>, text: Seq<char>) -> Option<Seq<char>> {
    if host == public_host() {
        Some(default_api_url())
    } else {
        enterprise_api_url_of(joined_url(text, enterprise_api_path()))
    }
}

/// The coordinates that a repository URL yields, or why it yields none.
pub open spec fn repo_info_of(url: RepoUrlView) -> Result<RepoInfoView, RepoUrlError> {
    if url.query is Some || url.fragment is Some {
        Err(RepoUrlError::QueryOrFragment)
    } else if url.path_segments is None {
        Err(RepoUrlError::NotHierarchical)
    } else {
        let segments = url.path_segments->0;
        if segments.len() != 2 || segments[0].len() == 0 || repo_name_of(segments[1]).len() == 0 {
            Err(RepoUrlError::PathSegments)
        } else if url.host is None {
            Err(RepoUrlError::NoHost)
        } else {
            match api_url_of(url.host->0, url.text) {
                Some(api_url) => Ok(
                    RepoInfoView { api_url, org: segments[0], name: repo_name_of(segments[1]) },
                ),
                None => Err(RepoUrlError::ApiUrl),
            }
        }
    }
}

/// A URL that ends with the enterprise API path is a base URL.
pub proof fn lemma_enterprise_api_url_is_base(joined: Option<Seq<char>>)
    ensures
        enterprise_api_url_of(joined) matches Some(url) ==> is_base_url(url),
{
    reveal_strlit("/api/v3/");
    if let Some(url) = enterprise_api_url_of(joined) {
        let path = enterprise_api_path();
        let tail = url.subrange(url.len() - path.len(), url.len() as int);
        assert(tail[path.len() - 1] == url.last());
    }
}

/// Whatever coordinates a repository URL yields are well-formed.
pub proof fn lemma_repo_info_is_well_formed(url: RepoUrlView)
    ensures
        repo_info_of(url) matches Ok(info) ==> info.wf(),
{
    reveal_strlit("https://api.github.com/");
    lemma_enterprise_api_url_is_base(joined_url(url.text, enterprise_api_path()));
}

/// A repository on the public host, if its URL yields coordinates at all,
/// has the public API root as its API base.
pub proof fn lemma_public_host_has_public_api(url: RepoUrlView)
    requires
        url.host == Some(public_host()),
    ensures
        repo_info_of(url) matches Ok(info) ==> info.api_url == default_api_url(),
{
}

/// A URL with a query string, with a fragment, or with another number of
/// path segments than two yields no coordinates.
pub proof fn lemma_repo_url_refused(url: RepoUrlView)
    requires
        url.query is Some || url.fragment is Some || url.path_segments is None
            || url.path_segments->0.len() != 2,
    ensures
        repo_info_of(url) is Err,
{
}

/// The repository's name in `segment`.
pub fn repo_name(segment: &str) -> (name: String)
    ensures
        name@ == repo_name_of(segment@),
{
    let chars = chars_of(segment);
    let tail = chars_of(".git");
    if has_suffix(&chars, &tail) {
        segment.substring_char(0, chars.len() - tail.len()).to_owned()
    } else {
        segment.to_owned()
    }
}

/// The API base URL of an enterprise installation, from the outcome of
/// joining the enterprise API path to the repository's URL: the joined URL
/// if the join gave one that ends with that path, and none otherwise.
pub fn enterprise_api_url(joined: Result<String, url::ParseError>) -> (r: Option<String>)
    ensures
        text_option(r) == enterprise_api_url_of(
            match joined {
                Ok(url) => Some(url@),
                Err(_) => None,
            },
        ),
        r matches Some(url) ==> joined == Ok::<String, url::ParseError>(url),
{
    match joined {
        Ok(url) => {
            let chars = chars_of(url.as_str());
            let path = chars_of("/api/v3/");
            if has_suffix(&chars, &path) {
                Some(url)
            } else {
                None
            }
        },
        Err(_) => None,
    }
}

/// The API base URL for a repository on `host` whose URL is written `text`.
fn api_url_for(host: &str, text: &str) -> (r: Option<String>)
    ensures
        text_option(r) == api_url_of(host@, text@),
{
    if same_text(host, "github.com") {
        Some(DEFAULT_GITHUB_API_URL.to_owned())
    } else {
        enterprise_api_url(join_url(text, "/api/v3/"))
    }
}

/// Reads the repository's coordinates from its web URL.
///
/// A URL with a query string or a fragment is refused, and so is one whose
/// path is not exactly an organization and a repository name, both
/// non-empty, or that has no host. The public host maps to the public API
/// root; any other host maps to the enterprise API path below the URL's
/// origin. A trailing `.git` of the repository name is dropped.
pub fn get_repo_info_from_url(url: RepoUrl) -> (r: Result<RepoInfo, RepoUrlError>)
    ensures
        match r {
            Ok(info) => repo_info_of(url@) == Ok::<RepoInfoView, RepoUrlError>(info@),
            Err(e) => repo_info_of(url@) == Err::<RepoInfoView, RepoUrlError>(e),
        },
        r matches Ok(info) ==> info.wf(),
        url@.query is Some || url@.fragment is Some ==> r is Err,
        url@.path_segments matches Some(segments) && segments.len() != 2 ==> r is Err,
{
    proof {
        lemma_repo_info_is_well_formed(url@);
    }
    if url.query.is_some() || url.fragment.is_some() {
        return Err(RepoUrlError::QueryOrFragment);
    }
    let segments = match &url.path_segments {
        Some(segments) => segments,
        None => {
            return Err(RepoUrlError::NotHierarchical);
        },
    };
    if segments.len() != 2 {
        return Err(RepoUrlError::PathSegments);
    }
    let org = segments[0].clone();
    let name = repo_name(segments[1].as_str());
    if org.as_str().unicode_len() == 0 || name.as_str().unicode_len() == 0 {
        return Err(RepoUrlError::PathSegments);
    }
    let host = match &url.host {
        Some(host) => host,
        None => {
            return Err(RepoUrlError::NoHost);
        },
    };
    match api_url_for(host.as_str(), url.text.as_str()) {
        Some(api_url) => Ok(RepoInfo { api_url, org, name }),
        None => Err(RepoUrlError::ApiUrl),
    }
}

/// What stands in place of the hidden part of a token.
pub open spec fn token_mask() -> Seq<char> {
    "************"@
}

/// A token as it may be shown: of one longer than eight characters the
/// first two and the last two with the mask between them, of any other
/// the mask alone.
pub open spec fn masked(token: Seq<char>) -> Seq<char> {
    if token.len() > 8 {
        token.take(2) + token_mask() + token.skip(token.len() - 2)
    } else {
        token_mask()
    }
}

/// What is shown of a token tells no more of it than its first two and its
/// last two characters, and nothing at all of a token of eight characters
/// or fewer.
pub proof fn lemma_mask_hides_the_middle(a: Seq<char>, b: Seq<char>)
    ensures
        a.len() <= 8 && b.len() <= 8 ==> masked(a) == masked(b),
        a.len() > 8 && b.len() > 8 && a.take(2) == b.take(2) && a.skip(a.len() - 2) == b.skip(
            b.len() - 2,
        ) ==> masked(a) == masked(b),
        masked(a).len() <= 4 + token_mask().len(),
{
}

/// Replaces `token` by what may be shown of it, and hands it back.
pub fn mask_token(token: &mut String) -> (res: &mut String)
    ensures
        res@ == masked(old(token)@),
        *final(token) == *final(res),
{
    let n = token.as_str().unicode_len();
    let mut shown = String::new();
    if n > 8 {
        shown.append(token.as_str().substring_char(0, 2));
        shown.append("************");
        shown.append(token.as_str().substring_char(n - 2, n));
        assert(shown@ =~= masked(token@));
    } else {
        shown.append("************");
        assert(shown@ =~= masked(token@));
    }
    *token = shown;
    token
}

/// The client of the hosting service's API: where the API lives, and the
/// token that authorizes its requests.
pub struct GithubAPI {
    pub base_url: String,
    pub token: String,
}

/// The mathematical content of a `GithubAPI`.
pub struct GithubAPIView {
    pub base_url: Seq<char>,
    pub token: Seq<char>,
}

impl View for GithubAPI {
    type V = GithubAPIView;

    open spec fn view(&self) -> GithubAPIView {
        GithubAPIView { base_url: self.base_url@, token: self.token@ }
    }
}

/// The method of a request to the API.
#[derive(Clone, Copy, Debug, PartialEq, Eq, Structural)]
pub enum HttpMethod {
    Get,
    Post,
    Patch,
}

/// The body of the request that creates or replaces a comment.
#[derive(Debug, Clone, Eq, PartialEq, Ord, PartialOrd, Hash)]
pub struct CommentCreateRequest {
    pub body: String,
}

impl View for CommentCreateRequest {
    type V = Seq<char>;

    /// The text of the comment.
    open spec fn view(&self) -> Seq<char> {
        self.body@
    }
}

/// What the listing of pull requests tells of one of them: its number and
/// the reference of its head.
#[derive(Debug, Clone, Eq, PartialEq, Ord, PartialOrd, Hash)]
pub struct PullRequestSummary {
    pub number: u64,
    pub head_commit_ref: String,
}

/// The mathematical content of a `PullRequestSummary`.
pub struct PullRequestSummaryView {
    pub number: u64,
    pub head_commit_ref: Seq<char>,
}

impl View for PullRequestSummary {
    type V = PullRequestSummaryView;

    open spec fn view(&self) -> PullRequestSummaryView {
        PullRequestSummaryView { number: self.number, head_commit_ref: self.head_commit_ref@ }
    }
}

/// A request to the API, ready to be sent: the method, the full URL, the
/// two headers, and the body if there is one.
///
/// The authorization header holds the token in the clear, so a request has
/// no `Debug` form.
#[derive(Clone, Eq, PartialEq)]
pub struct ApiRequest {
    pub method: HttpMethod,
    pub url: String,
    pub authorization: String,
    pub accept: String,
    pub body: Option<CommentCreateRequest>,
}

/// The mathematical content of an `ApiRequest`.
pub struct ApiRequestView {
    pub method: HttpMethod,
    pub url: Seq<char>,
    pub authorization: Seq<char>,
    pub accept: Seq<char>,
    pub body: Option<Seq<char>>,
}

impl View for ApiRequest {
    type V = ApiRequestView;

    open spec fn view(&self) -> ApiRequestView {
        ApiRequestView {
            method: self.method,
            url: self.url@,
            authorization: self.authorization@,
            accept: self.accept@,
            body: match self.body {
                Some(b) => Some(b@),
                None => None,
            },
        }
    }
}

impl ApiRequest {
    /// The same request with the comment text `body` as its body.
    pub fn with_body(self, body: String) -> (r: ApiRequest)
        ensures
            r@ == (ApiRequestView { body: Some(body@), ..self@ }),
    {
        ApiRequest {
            method: self.method,
            url: self.url,
            authorization: self.authorization,
            accept: self.accept,
            body: Some(CommentCreateRequest { body }),
        }
    }
}

/// The media type that every request accepts.
pub open spec fn accept_header() -> Seq<char> {
    "application/vnd.github.v3+json"@
}

/// The value of the header that authorizes a request with `token`.
pub open spec fn authorization_header(token: Seq<char>) -> Seq<char> {
    "token "@ + token
}

/// The request of the client `api` with `method` to the full URL `url`,
/// with the comment text `body` as its body if there is one.
pub open spec fn request_of(
    api: GithubAPIView,
    method: HttpMethod,
    url: Seq<char>,
    body: Option<Seq<char>>,
) -> ApiRequestView {
    ApiRequestView {
        method,
        url,
        authorization: authorization_header(api.token),
        accept: accept_header(),
        body,
    }
}

/// The request of the client `api` with `method` to `path` below the API's
/// base, if the path can be joined to the base.
pub open spec fn request_below_base(
    api: GithubAPIView,
    method: HttpMethod,
    path: Seq<char>,
    body: Option<Seq<char>>,
) -> Option<ApiRequestView> {
    match joined_url(api.base_url, path) {
        Some(url) => Some(request_of(api, method, url, body)),
        None => None,
    }
}

/// The path, below the API's base, that lists the open pull requests of a
/// repository, the most recently updated first.
pub open spec fn pulls_path_of(owner: Seq<char>, name: Seq<char>) -> Seq<char> {
    "repos/"@ + owner + "/"@ + name + "/pulls?state=open&sort=updated&direction=desc"@
}

/// The path, below the API's base, of the comments of an issue or pull
/// request.
pub open spec fn issue_comments_path_of(owner: Seq<char>, name: Seq<char>, issue: nat) -> Seq<
    char,
> {
    "repos/"@ + owner + "/"@ + name + "/issues/"@ + decimal_text(issue) + "/comments"@
}

/// The path that lists the open pull requests of a repository.
pub fn pulls_path(repo_owner: &str, repo_name: &str) -> (path: String)
    ensures
        path@ == pulls_path_of(repo_owner@, repo_name@),
{
    let mut path = "repos/".to_owned();
    path.append(repo_owner);
    path.append("/");
    path.append(repo_name);
    path.append("/pulls?state=open&sort=updated&direction=desc");
    assert(path@ =~= pulls_path_of(repo_owner@, repo_name@));
    path
}

/// The path of the comments of an issue or pull request.
pub fn issue_comments_path(repo_owner: &str, repo_name: &str, issue_number: u64) -> (path: String)
    ensures
        path@ == issue_comments_path_of(repo_owner@, repo_name@, issue_number as nat),
{
    let mut path = "repos/".to_owned();
    path.append(repo_owner);
    path.append("/");
    path.append(repo_name);
    path.append("/issues/");
    path.append(decimal_string(issue_number).as_str());
    path.append("/comments");
    assert(path@ =~= issue_comments_path_of(repo_owner@, repo_name@, issue_number as nat));
    path
}

/// The status by which the API says that a comment was created.
pub const STATUS_CREATED: u16 = 201;

/// `i` is the first pull request of the listing whose head is `git_ref`.
pub open spec fn is_first_with_head(
    prs: Seq<PullRequestSummary>,
    git_ref: Seq<char>,
    i: int,
) -> bool {
    &&& 0 <= i < prs.len()
    &&& prs[i]@.head_commit_ref == git_ref
    &&& forall|j: int| 0 <= j < i ==> (#[trigger] prs[j])@.head_commit_ref != git_ref
}

/// No pull request of the listing has `git_ref` as its head.
pub open spec fn none_with_head(prs: Seq<PullRequestSummary>, git_ref: Seq<char>) -> bool {
    forall|j: int| 0 <= j < prs.len() ==> (#[trigger] prs[j])@.head_commit_ref != git_ref
}

/// How the search for a reference's pull request goes on after the
/// reference itself was read.
#[derive(Clone, Eq, PartialEq)]
pub enum FindPrStep {
    /// The reference names the pull request: nothing is asked of the
    /// remote.
    Found(u64),
    /// The search ends without a pull request, and nothing is asked of the
    /// remote.
    Failed(FindPrError),
    /// The open pull requests have to be listed with this request; the
    /// answer goes to `pr_from_listing`.
    List(ApiRequest),
}

/// How the search for the pull request of `git_ref` begins: a pull-request
/// reference settles it, and any other reference asks for the listing of
/// the open pull requests, if the request for it can be formed.
pub open spec fn find_pr_step_of(
    api: GithubAPIView,
    owner: Seq<char>,
    name: Seq<char>,
    git_ref: Seq<char>,
    step: FindPrStep,
) -> bool {
    match pr_number_of(git_ref) {
        NamedPr::Number(n) => step == FindPrStep::Found(n),
        NamedPr::OutOfRange => step == FindPrStep::Failed(FindPrError::NumberOutOfRange),
        NamedPr::NotNamed => match request_below_base(
            api,
            HttpMethod::Get,
            pulls_path_of(owner, name),
            None,
        ) {
            Some(request) => step matches FindPrStep::List(r) && r@ == request,
            None => step == FindPrStep::Failed(FindPrError::RequestUrl),
        },
    }
}

impl GithubAPI {
    /// How the client is shown in diagnostics, with the token masked.
    pub open spec fn debug_text(&self) -> Seq<char> {
        "GithubAPI { base_url: '"@ + self.base_url@ + "',  token: '"@ + masked(self.token@)
            + "' }"@
    }

    /// The client as it may be shown in diagnostics: the token never
    /// appears but masked.
    pub fn to_debug_string(&self) -> (s: String)
        ensures
            s@ == self.debug_text(),
    {
        let mut token = self.token.clone();
        let mut s = "GithubAPI { base_url: '".to_owned();
        s.append(self.base_url.as_str());
        s.append("',  token: '");
        s.append(mask_token(&mut token).as_str());
        s.append("' }");
        s
    }

    /// The request with `method` and without a body to the full URL
    /// `full_url`, authorized by this client's token.
    pub fn request_to(&self, method: HttpMethod, full_url: String) -> (r: ApiRequest)
        ensures
            r@ == request_of(self@, method, full_url@, None),
            r.url == full_url,
    {
        let mut authorization = "token ".to_owned();
        authorization.append(self.token.as_str());
        ApiRequest {
            method,
            url: full_url,
            authorization,
            accept: "application/vnd.github.v3+json".to_owned(),
            body: None,
        }
    }

    /// The request with `method` to `url`, which is resolved against the
    /// API's base URL. There is none where `url` cannot be joined to the
    /// base.
    pub fn request(&self, method: HttpMethod, url: &str) -> (r: Option<ApiRequest>)
        ensures
            match r {
                Some(request) => request_below_base(self@, method, url@, None) == Some(request@),
                None => request_below_base(self@, method, url@, None) is None,
            },
    {
        match join_url(self.base_url.as_str(), url) {
            Ok(full_url) => Some(self.request_to(method, full_url)),
            Err(_) => None,
        }
    }

    /// Begins the search for the pull request of `git_ref`.
    ///
    /// A pull-request reference names its number, and the search is done
    /// without a request; a number beyond 64 bits is refused. For any other
    /// reference the open pull requests of the repository have to be
    /// listed.
    pub fn find_pr_for_ref(&self, repo_owner: &str, repo_name: &str, git_ref: &str) -> (r:
        FindPrStep)
        ensures
            find_pr_step_of(self@, repo_owner@, repo_name@, git_ref@, r),
            pr_number_of(git_ref@) != NamedPr::NotNamed ==> !(r is List),
    {
        match pr_number_from_ref(git_ref) {
            NamedPr::Number(n) => FindPrStep::Found(n),
            NamedPr::OutOfRange => FindPrStep::Failed(FindPrError::NumberOutOfRange),
            NamedPr::NotNamed => {
                let path = pulls_path(repo_owner, repo_name);
                match self.request(HttpMethod::Get, path.as_str()) {
                    Some(request) => FindPrStep::List(request),
                    None => FindPrStep::Failed(FindPrError::RequestUrl),
                }
            },
        }
    }

    /// The request that publishes `comment` on an issue or pull request.
    /// There is none where the path cannot be joined to the API's base.
    pub fn comment(
        &self,
        repo_owner: &str,
        repo_name: &str,
        issue_number: u64,
        comment: String,
    ) -> (r: Result<ApiRequest, CommentError>)
        ensures
            match request_below_base(
                self@,
                HttpMethod::Post,
                issue_comments_path_of(repo_owner@, repo_name@, issue_number as nat),
                Some(comment@),
            ) {
                Some(request) => r matches Ok(sent) && sent@ == request,
                None => r == Err::<ApiRequest, CommentError>(CommentError::RequestUrl),
            },
    {
        let path = issue_comments_path(repo_owner, repo_name, issue_number);
        match self.request(HttpMethod::Post, path.as_str()) {
            Some(request) => Ok(request.with_body(comment)),
            None => Err(CommentError::RequestUrl),
        }
    }
}

/// The number of the first pull request of `prs` whose head is exactly
/// `git_ref`, if there is one.
pub fn first_pr_with_head(prs: &Vec<PullRequestSummary>, git_ref: &str) -> (r: Option<u64>)
    ensures
        match r {
            Some(n) => exists|i: int| is_first_with_head(prs@, git_ref@, i) && prs@[i].number == n,
            None => none_with_head(prs@, git_ref@),
        },
{
    let mut i: usize = 0;
    while i < prs.len()
        invariant
            i <= prs.len(),
            forall|j: int| 0 <= j < i ==> (#[trigger] prs@[j])@.head_commit_ref != git_ref@,
        decreases prs.len() - i,
    {
        if same_text(prs[i].head_commit_ref.as_str(), git_ref) {
            let number = prs[i].number;
            assert(is_first_with_head(prs@, git_ref@, i as int) && prs@[i as int].number == number);
            return Some(number);
        }
        i += 1;
    }
    None
}

/// Ends the search for the pull request of `git_ref` with the answer to the
/// listing request: the number of the first listed pull request whose head
/// is exactly `git_ref`. A failed listing is reported with its cause.
pub fn pr_from_listing(git_ref: &str, listing: Result<Vec<PullRequestSummary>, String>) -> (r:
    Result<u64, FindPrError>)
    ensures
        match listing {
            Err(cause) => r == Err::<u64, FindPrError>(FindPrError::Transport(cause)),
            Ok(prs) => match r {
                Ok(n) => exists|i: int|
                    is_first_with_head(prs@, git_ref@, i) && prs@[i].number == n,
                Err(e) => e == FindPrError::NoMatchingPr && none_with_head(prs@, git_ref@),
            },
        },
{
    match listing {
        Err(cause) => Err(FindPrError::Transport(cause)),
        Ok(prs) => match first_pr_with_head(&prs, git_ref) {
            Some(n) => Ok(n),
            None => Err(FindPrError::NoMatchingPr),
        },
    }
}

/// What became of a comment that was sent: `outcome` is the status and the
/// raw response, or the cause for which no answer came. Only the status
/// that signals creation is a success.
pub fn comment_outcome(outcome: Result<(u16, String), String>) -> (r: Result<(), CommentError>)
    ensures
        match outcome {
            Ok((status, response)) => if status == STATUS_CREATED {
                r is Ok
            } else {
                r == Err::<(), CommentError>(CommentError::UnexpectedStatus { status, response })
            },
            Err(cause) => r == Err::<(), CommentError>(CommentError::Transport(cause)),
        },
{
    match outcome {
        Ok((status, response)) => {
            if status == STATUS_CREATED {
                Ok(())
            } else {
                Err(CommentError::UnexpectedStatus { status, response })
            }
        },
        Err(cause) => Err(CommentError::Transport(cause)),
    }
}

} // verus!
