//! Publishing a comment: whether it is posted as a new comment or replaces
//! the one that was published before, by the overwrite mode, and the
//! requests that do either.

use vstd::prelude::*;
use vstd::string::*;

use crate::boundary::json_of_string;
use crate::decimal::{decimal_string, decimal_text};
use crate::error::{CommentError, MetadataError};
use crate::github::metadata::{
    commit_ref_extracted, embedded, prefix_text, HtmlCommentMetadataHandler,
};
use crate::github::{
    issue_comments_path, issue_comments_path_of, request_below_base, ApiRequest, ApiRequestView,
    GithubAPI, GithubAPIView, HttpMethod,
};
use crate::text::{contains, occurs_at, same_text};

verus! {

/// What happens to the comment that was published before.
#[derive(Clone, Copy, Debug, PartialEq, Eq, Structural)]
pub enum CommentOverwriteMode {
    /// Existing comments are not looked at: the comment is always new.
    Never,
    /// The comment that was published before is always replaced.
    Always,
    /// The comment that was published before is replaced only if it was
    /// made for the same commit.
    OnSameCommit,
}

impl Default for CommentOverwriteMode {
    fn default() -> (mode: CommentOverwriteMode)
        ensures
            mode == CommentOverwriteMode::Always,
    {
        CommentOverwriteMode::Always
    }
}

impl CommentOverwriteMode {
    /// The name by which the mode is chosen.
    pub open spec fn name_text(&self) -> Seq<char> {
        match self {
            CommentOverwriteMode::Never => "Never"@,
            CommentOverwriteMode::Always => "Always"@,
            CommentOverwriteMode::OnSameCommit => "OnSameCommit"@,
        }
    }

    /// The mode whose name is `name`, letter for letter.
    pub open spec fn named(name: Seq<char>) -> Option<CommentOverwriteMode> {
        if name == "Never"@ {
            Some(CommentOverwriteMode::Never)
        } else if name == "Always"@ {
            Some(CommentOverwriteMode::Always)
        } else if name == "OnSameCommit"@ {
            Some(CommentOverwriteMode::OnSameCommit)
        } else {
            None
        }
    }

    /// The name by which the mode is chosen.
    pub fn name(&self) -> (r: &'static str)
        ensures
            r@ == self.name_text(),
    {
        match self {
            CommentOverwriteMode::Never => "Never",
            CommentOverwriteMode::Always => "Always",
            CommentOverwriteMode::OnSameCommit => "OnSameCommit",
        }
    }

    /// The mode whose name is `name`; `None` for any other text.
    pub fn from_name(name: &str) -> (r: Option<CommentOverwriteMode>)
        ensures
            r == Self::named(name@),
    {
        if same_text(name, "Never") {
            Some(CommentOverwriteMode::Never)
        } else if same_text(name, "Always") {
            Some(CommentOverwriteMode::Always)
        } else if same_text(name, "OnSameCommit") {
            Some(CommentOverwriteMode::OnSameCommit)
        } else {
            None
        }
    }

    /// Whether the existing comments go into the decision.
    pub open spec fn spec_reads_comments(&self) -> bool {
        *self != CommentOverwriteMode::Never
    }

    /// Whether the existing comments have to be listed before publishing.
    pub fn reads_comments(&self) -> (r: bool)
        ensures
            r == self.spec_reads_comments(),
    {
        match self {
            CommentOverwriteMode::Never => false,
            _ => true,
        }
    }
}

/// Every mode is found again under its name.
pub proof fn lemma_mode_names_round_trip(mode: CommentOverwriteMode)
    ensures
        CommentOverwriteMode::named(mode.name_text()) == Some(mode),
{
    reveal_strlit("Never");
    reveal_strlit("Always");
    reveal_strlit("OnSameCommit");
    assert("Never"@.len() == 5);
    assert("Always"@.len() == 6);
    assert("OnSameCommit"@.len() == 12);
}

/// A comment as the remote lists it.
#[derive(Debug, Clone, Eq, PartialEq)]
pub struct ExistingComment {
    pub id: u64,
    pub body: String,
}

/// The mathematical content of an `ExistingComment`.
pub struct ExistingCommentView {
    pub id: u64,
    pub body: Seq<char>,
}

impl View for ExistingComment {
    type V = ExistingCommentView;

    open spec fn view(&self) -> ExistingCommentView {
        ExistingCommentView { id: self.id, body: self.body@ }
    }
}

/// The comment that was published before: its identifier, and the commit
/// reference that its metadata records, if one can be read from it.
#[derive(Debug, Clone, Eq, PartialEq)]
pub struct PriorComment {
    pub id: u64,
    pub commit_ref: Option<String>,
}

/// The mathematical content of a `PriorComment`.
pub struct PriorCommentView {
    pub id: u64,
    pub commit_ref: Option<Seq<char>>,
}

impl View for PriorComment {
    type V = PriorCommentView;

    open spec fn view(&self) -> PriorCommentView {
        PriorCommentView {
            id: self.id,
            commit_ref: match self.commit_ref {
                Some(c) => Some(c@),
                None => None,
            },
        }
    }
}

/// Where the new comment goes.
#[derive(Clone, Copy, Debug, PartialEq, Eq, Structural)]
pub enum PublishTarget {
    /// A new comment is created.
    Create,
    /// The comment with this identifier gets a new body.
    Replace(u64),
}

/// A comment bears the marker of `id` if the prefix marker stands in it.
pub open spec fn bears_marker(body: Seq<char>, id: Seq<char>) -> bool {
    contains(body, prefix_text(id))
}

/// The commit reference that the metadata of `body` records, if one can be
/// read from it.
pub open spec fn stored_commit_ref_of(body: Seq<char>, id: Seq<char>) -> Option<Seq<char>> {
    match commit_ref_extracted(body, id) {
        Some(Ok(commit_ref)) => Some(commit_ref),
        _ => None,
    }
}

/// The comment of `comments`, which lists the oldest first, that was
/// published before: the last that bears the marker of `id`.
pub open spec fn prior_of(comments: Seq<ExistingComment>, id: Seq<char>) -> Option<
    PriorCommentView,
>
    decreases comments.len(),
{
    if comments.len() == 0 {
        None
    } else if bears_marker(comments.last()@.body, id) {
        Some(
            PriorCommentView {
                id: comments.last()@.id,
                commit_ref: stored_commit_ref_of(comments.last()@.body, id),
            },
        )
    } else {
        prior_of(comments.drop_last(), id)
    }
}

/// Where the new comment goes, by the mode, the comment that was published
/// before and the commit that the new comment is made for.
pub open spec fn target_of(
    mode: CommentOverwriteMode,
    prior: Option<PriorCommentView>,
    current_commit_ref: Seq<char>,
) -> PublishTarget {
    match mode {
        CommentOverwriteMode::Never => PublishTarget::Create,
        CommentOverwriteMode::Always => match prior {
            Some(p) => PublishTarget::Replace(p.id),
            None => PublishTarget::Create,
        },
        CommentOverwriteMode::OnSameCommit => match prior {
            Some(p) => if p.commit_ref == Some(current_commit_ref) {
                PublishTarget::Replace(p.id)
            } else {
                PublishTarget::Create
            },
            None => PublishTarget::Create,
        },
    }
}

/// In the mode `OnSameCommit`, a comment that was published before for the
/// current commit is replaced; one that was published for another commit,
/// or whose commit cannot be read, stays, and a new comment is created.
pub proof fn lemma_on_same_commit(prior: PriorCommentView, current_commit_ref: Seq<char>)
    ensures
        prior.commit_ref == Some(current_commit_ref) ==> target_of(
            CommentOverwriteMode::OnSameCommit,
            Some(prior),
            current_commit_ref,
        ) == PublishTarget::Replace(prior.id),
        prior.commit_ref != Some(current_commit_ref) ==> target_of(
            CommentOverwriteMode::OnSameCommit,
            Some(prior),
            current_commit_ref,
        ) == PublishTarget::Create,
{
}

/// In the mode `Never` the comment is new whatever was published before,
/// and in every mode it is new where nothing was.
pub proof fn lemma_new_comment(
    mode: CommentOverwriteMode,
    prior: Option<PriorCommentView>,
    current_commit_ref: Seq<char>,
)
    ensures
        target_of(CommentOverwriteMode::Never, prior, current_commit_ref) == PublishTarget::Create,
        target_of(mode, None, current_commit_ref) == PublishTarget::Create,
{
}

/// A comment that was published with metadata under `id` is found again:
/// while it is the last comment, it is the one that was published before,
/// and the mode `Always` replaces it.
pub proof fn lemma_published_comment_is_found(
    comments: Seq<ExistingComment>,
    published: ExistingComment,
    id: Seq<char>,
    comment_text: Seq<char>,
    json: Seq<char>,
    current_commit_ref: Seq<char>,
)
    requires
        published@.body == embedded(comment_text, id, json),
    ensures
        prior_of(comments.push(published), id) matches Some(p) && p.id == published@.id,
        target_of(
            CommentOverwriteMode::Always,
            prior_of(comments.push(published), id),
            current_commit_ref,
        ) == PublishTarget::Replace(published@.id),
{
    let prefix = prefix_text(id);
    let body = published@.body;
    let at = comment_text.len() as int;
    assert(body.subrange(at, at + prefix.len()) =~= prefix);
    assert(occurs_at(body, prefix, at));
    assert(comments.push(published).last() == published);
}

/// The comment of `comments`, which lists the oldest first, that was
/// published before with the marker of `handler`.
pub fn find_prior_comment(
    handler: &HtmlCommentMetadataHandler,
    comments: &Vec<ExistingComment>,
) -> (r: Option<PriorComment>)
    ensures
        match r {
            Some(p) => prior_of(comments@, handler@) == Some(p@),
            None => prior_of(comments@, handler@) is None,
        },
{
    let mut i: usize = comments.len();
    assert(comments@.take(i as int) =~= comments@);
    while i > 0
        invariant
            i <= comments.len(),
            prior_of(comments@, handler@) == prior_of(
                comments@.take(i as int),
                handler@,
            ),
        decreases i,
    {
        let ghost upto = comments@.take(i as int);
        assert(upto.last() == comments@[i - 1]);
        assert(upto.drop_last() =~= comments@.take(i - 1));
        let comment = &comments[i - 1];
        match handler.get_commit_ref_from_comment(comment.body.as_str()) {
            Some(Ok(commit_ref)) => {
                return Some(PriorComment { id: comment.id, commit_ref: Some(commit_ref) });
            },
            Some(Err(_)) => {
                return Some(PriorComment { id: comment.id, commit_ref: None });
            },
            None => {},
        }
        i -= 1;
    }
    assert(comments@.take(0) =~= Seq::<ExistingComment>::empty());
    None
}

/// Decides where the new comment goes.
///
/// `Never` always creates a comment. `Always` replaces the comment that
/// was published before, if there is one. `OnSameCommit` replaces it only
/// if the commit reference that it records is `current_commit_ref`.
pub fn choose_target(
    mode: CommentOverwriteMode,
    prior: &Option<PriorComment>,
    current_commit_ref: &str,
) -> (r: PublishTarget)
    ensures
        r == target_of(
            mode,
            match *prior {
                Some(p) => Some(p@),
                None => None,
            },
            current_commit_ref@,
        ),
        mode == CommentOverwriteMode::Never || *prior is None ==> r == PublishTarget::Create,
{
    match mode {
        CommentOverwriteMode::Never => PublishTarget::Create,
        CommentOverwriteMode::Always => match prior {
            Some(p) => PublishTarget::Replace(p.id),
            None => PublishTarget::Create,
        },
        CommentOverwriteMode::OnSameCommit => match prior {
            Some(p) => match &p.commit_ref {
                Some(stored) => if same_text(stored.as_str(), current_commit_ref) {
                    PublishTarget::Replace(p.id)
                } else {
                    PublishTarget::Create
                },
                None => PublishTarget::Create,
            },
            None => PublishTarget::Create,
        },
    }
}

/// What is to be published, and where.
#[derive(Debug, Clone, Eq, PartialEq)]
pub struct PublishPlan {
    pub target: PublishTarget,
    /// The comment's text with the metadata appended.
    pub body: String,
}

/// The mathematical content of a `PublishPlan`.
pub struct PublishPlanView {
    pub target: PublishTarget,
    pub body: Seq<char>,
}

impl View for PublishPlan {
    type V = PublishPlanView;

    open spec fn view(&self) -> PublishPlanView {
        PublishPlanView { target: self.target, body: self.body@ }
    }
}

/// The plan for publishing `comment_text` for the commit
/// `current_commit_ref` beside the comments that exist: the text with the
/// commit reference appended as metadata, to the target that the mode
/// chooses. There is none where the reference cannot be written as JSON.
pub open spec fn plan_of(
    id: Seq<char>,
    mode: CommentOverwriteMode,
    comments: Seq<ExistingComment>,
    comment_text: Seq<char>,
    current_commit_ref: Seq<char>,
) -> Option<PublishPlanView> {
    match json_of_string(current_commit_ref) {
        Some(json) => Some(
            PublishPlanView {
                target: target_of(mode, prior_of(comments, id), current_commit_ref),
                body: embedded(comment_text, id, json),
            },
        ),
        None => None,
    }
}

/// Plans the publication of `comment_text` for the commit
/// `current_commit_ref`.
///
/// The body is the text with the commit reference appended as metadata, a
/// JSON string between the markers of `handler`. The target follows from
/// the mode and from `comments`, the comments that exist, the oldest
/// first; in the mode `Never` they are not looked at. The plan fails only
/// where the commit reference cannot be written as JSON.
pub fn plan_publish(
    handler: &HtmlCommentMetadataHandler,
    mode: CommentOverwriteMode,
    comments: &Vec<ExistingComment>,
    comment_text: &str,
    current_commit_ref: &str,
) -> (r: Result<PublishPlan, MetadataError>)
    ensures
        match plan_of(handler@, mode, comments@, comment_text@, current_commit_ref@) {
            Some(plan) => r matches Ok(p) && p@ == plan,
            None => r == Err::<PublishPlan, MetadataError>(MetadataError::Encode),
        },
        mode == CommentOverwriteMode::Never ==> (r matches Ok(p) ==> p.target
            == PublishTarget::Create),
{
    let body = match handler.add_commit_ref_to_comment(comment_text, current_commit_ref) {
        Ok(body) => body,
        Err(e) => {
            return Err(e);
        },
    };
    let prior = if mode.reads_comments() {
        find_prior_comment(handler, comments)
    } else {
        None
    };
    let target = choose_target(mode, &prior, current_commit_ref);
    Ok(PublishPlan { target, body })
}

/// The path, below the API's base, of the comment with the identifier
/// `comment_id`.
pub open spec fn comment_path_of(owner: Seq<char>, name: Seq<char>, comment_id: nat) -> Seq<char> {
    "repos/"@ + owner + "/"@ + name + "/issues/comments/"@ + decimal_text(comment_id)
}

/// The path of the comment with the identifier `comment_id`.
pub fn comment_path(repo_owner: &str, repo_name: &str, comment_id: u64) -> (path: String)
    ensures
        path@ == comment_path_of(repo_owner@, repo_name@, comment_id as nat),
{
    let mut path = "repos/".to_owned();
    path.append(repo_owner);
    path.append("/");
    path.append(repo_name);
    path.append("/issues/comments/");
    path.append(decimal_string(comment_id).as_str());
    assert(path@ =~= comment_path_of(repo_owner@, repo_name@, comment_id as nat));
    path
}

/// The status by which the API says that a comment was replaced.
pub const STATUS_OK: u16 = 200;

/// The status that signals success for a comment that went to `target`.
pub open spec fn success_status(target: PublishTarget) -> u16 {
    match target {
        PublishTarget::Create => crate::github::STATUS_CREATED,
        PublishTarget::Replace(_) => STATUS_OK,
    }
}

/// The request that carries out `plan`: a post to the comments of the issue
/// for a new comment, a patch of the comment that is replaced.
pub open spec fn publish_request_of(
    api: GithubAPIView,
    owner: Seq<char>,
    name: Seq<char>,
    issue: nat,
    plan: PublishPlanView,
) -> Option<ApiRequestView> {
    match plan.target {
        PublishTarget::Create => request_below_base(
            api,
            HttpMethod::Post,
            issue_comments_path_of(owner, name, issue),
            Some(plan.body),
        ),
        PublishTarget::Replace(comment_id) => request_below_base(
            api,
            HttpMethod::Patch,
            comment_path_of(owner, name, comment_id as nat),
            Some(plan.body),
        ),
    }
}

impl GithubAPI {
    /// The request that lists the comments of an issue or pull request.
    /// There is none where the path cannot be joined to the API's base.
    pub fn list_comments(&self, repo_owner: &str, repo_name: &str, issue_number: u64) -> (r: Option<
        ApiRequest,
    >)
        ensures
            match r {
                Some(request) => request_below_base(
                    self@,
                    HttpMethod::Get,
                    issue_comments_path_of(repo_owner@, repo_name@, issue_number as nat),
                    None,
                ) == Some(request@),
                None => request_below_base(
                    self@,
                    HttpMethod::Get,
                    issue_comments_path_of(repo_owner@, repo_name@, issue_number as nat),
                    None,
                ) is None,
            },
    {
        let path = issue_comments_path(repo_owner, repo_name, issue_number);
        self.request(HttpMethod::Get, path.as_str())
    }

    /// The request that carries out `plan` on an issue or pull request: a
    /// new comment is posted to the issue's comments, and a comment that is
    /// replaced gets its new body by a patch.
    pub fn publish(
        &self,
        repo_owner: &str,
        repo_name: &str,
        issue_number: u64,
        plan: PublishPlan,
    ) -> (r: Result<ApiRequest, CommentError>)
        ensures
            match publish_request_of(self@, repo_owner@, repo_name@, issue_number as nat, plan@) {
                Some(request) => r matches Ok(sent) && sent@ == request,
                None => r == Err::<ApiRequest, CommentError>(CommentError::RequestUrl),
            },
    {
        match plan.target {
            PublishTarget::Create => self.comment(repo_owner, repo_name, issue_number, plan.body),
            PublishTarget::Replace(comment_id) => {
                let path = comment_path(repo_owner, repo_name, comment_id);
                match self.request(HttpMethod::Patch, path.as_str()) {
                    Some(request) => Ok(request.with_body(plan.body)),
                    None => Err(CommentError::RequestUrl),
                }
            },
        }
    }
}

/// What became of a comment that was sent to `target`: `outcome` is the
/// status and the raw response, or the cause for which no answer came.
/// Only the status that signals success for the target is a success.
pub fn publish_outcome(target: PublishTarget, outcome: Result<(u16, String), String>) -> (r: Result<
    (),
    CommentError,
>)
    ensures
        match outcome {
            Ok((status, response)) => if status == success_status(target) {
                r is Ok
            } else {
                r == Err::<(), CommentError>(CommentError::UnexpectedStatus { status, response })
            },
            Err(cause) => r == Err::<(), CommentError>(CommentError::Transport(cause)),
        },
{
    let expected = match target {
        PublishTarget::Create => crate::github::STATUS_CREATED,
        PublishTarget::Replace(_) => STATUS_OK,
    };
    match outcome {
        Ok((status, response)) => {
            if status == expected {
                Ok(())
            } else {
                Err(CommentError::UnexpectedStatus { status, response })
            }
        },
        Err(cause) => Err(CommentError::Transport(cause)),
    }
}

} // verus!
