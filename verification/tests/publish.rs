use github_pr_commentator::error::{CommentError, ErrorKind, MetadataError};
use github_pr_commentator::github::metadata::HtmlCommentMetadataHandler;
use github_pr_commentator::github::{CommentCreateRequest, GithubAPI, HttpMethod};
use github_pr_commentator::publish::{
    choose_target, comment_path, find_prior_comment, plan_publish, publish_outcome,
    CommentOverwriteMode, ExistingComment, PriorComment, PublishPlan, PublishTarget, STATUS_OK,
};

fn handler() -> HtmlCommentMetadataHandler {
    HtmlCommentMetadataHandler { metadata_id: "bot:".to_owned() }
}

fn existing(id: u64, body: &str) -> ExistingComment {
    ExistingComment { id, body: body.to_owned() }
}

fn prior(id: u64, commit_ref: Option<&str>) -> Option<PriorComment> {
    Some(PriorComment { id, commit_ref: commit_ref.map(str::to_owned) })
}

fn api() -> GithubAPI {
    GithubAPI { base_url: "https://api.github.com/".to_owned(), token: "0123456789".to_owned() }
}

#[test]
fn modes_have_their_names() {
    assert_eq!(CommentOverwriteMode::Never.name(), "Never");
    assert_eq!(CommentOverwriteMode::Always.name(), "Always");
    assert_eq!(CommentOverwriteMode::OnSameCommit.name(), "OnSameCommit");
    for mode in [
        CommentOverwriteMode::Never,
        CommentOverwriteMode::Always,
        CommentOverwriteMode::OnSameCommit,
    ] {
        assert_eq!(CommentOverwriteMode::from_name(mode.name()), Some(mode));
    }
    for other in ["", "never", "ALWAYS", "Always ", "OnSameCommi", "onsamecommit", "Sometimes"] {
        assert_eq!(CommentOverwriteMode::from_name(other), None, "{:?}", other);
    }
    assert_eq!(CommentOverwriteMode::default(), CommentOverwriteMode::Always);
}

#[test]
fn only_never_skips_the_existing_comments() {
    assert!(!CommentOverwriteMode::Never.reads_comments());
    assert!(CommentOverwriteMode::Always.reads_comments());
    assert!(CommentOverwriteMode::OnSameCommit.reads_comments());
}

#[test]
fn never_always_creates() {
    for p in [None, prior(4, None), prior(4, Some("abc")), prior(4, Some("other"))] {
        assert_eq!(choose_target(CommentOverwriteMode::Never, &p, "abc"), PublishTarget::Create);
    }
}

#[test]
fn always_replaces_what_was_published_before() {
    let mode = CommentOverwriteMode::Always;
    assert_eq!(choose_target(mode, &None, "abc"), PublishTarget::Create);
    assert_eq!(choose_target(mode, &prior(4, None), "abc"), PublishTarget::Replace(4));
    assert_eq!(choose_target(mode, &prior(5, Some("abc")), "abc"), PublishTarget::Replace(5));
    assert_eq!(choose_target(mode, &prior(6, Some("other")), "abc"), PublishTarget::Replace(6));
}

#[test]
fn on_same_commit_replaces_only_for_the_same_commit() {
    let mode = CommentOverwriteMode::OnSameCommit;
    assert_eq!(choose_target(mode, &prior(5, Some("abc")), "abc"), PublishTarget::Replace(5));
    assert_eq!(choose_target(mode, &prior(5, Some("abd")), "abc"), PublishTarget::Create);
    assert_eq!(choose_target(mode, &prior(5, Some("ABC")), "abc"), PublishTarget::Create);
    assert_eq!(choose_target(mode, &prior(5, Some("abc ")), "abc"), PublishTarget::Create);
    assert_eq!(choose_target(mode, &prior(5, Some("")), "abc"), PublishTarget::Create);
    assert_eq!(choose_target(mode, &prior(5, None), "abc"), PublishTarget::Create);
    assert_eq!(choose_target(mode, &None, "abc"), PublishTarget::Create);
    assert_eq!(choose_target(mode, &prior(5, Some("")), ""), PublishTarget::Replace(5));
}

#[test]
fn stored_commit_ref_is_the_json_string_between_the_markers() {
    let h = handler();
    let stored = |body: &str| find_prior_comment(&h, &vec![existing(1, body)]);
    assert_eq!(stored("text\n\n<!-- bot:\"abc123\" -->"), prior(1, Some("abc123")));
    assert_eq!(
        stored("text\n\n<!-- bot:\"refs/heads/a\\\"b\\u00e9\" -->"),
        prior(1, Some("refs/heads/a\"b\u{e9}"))
    );
    // The text between the markers is not the commit reference itself.
    assert_ne!(stored("text\n\n<!-- bot:\"abc\" -->"), prior(1, Some("\"abc\"")));
    assert_eq!(stored("text\n\n<!-- bot:abc123 -->"), prior(1, None));
    assert_eq!(stored("text\n\n<!-- bot:[1,2] -->"), prior(1, None));
    assert_eq!(stored("text\n\n<!-- bot:\"abc123\""), prior(1, None));
    assert_eq!(stored("text"), None);
}

#[test]
fn prior_comment_is_the_last_that_bears_the_marker() {
    let h = handler();
    let comments = vec![
        existing(1, "first\n\n<!-- bot:\"c1\" -->"),
        existing(2, "a human wrote this"),
        existing(3, "second\n\n<!-- bot:\"c2\" -->"),
        existing(4, "another marker\n\n<!-- other:\"c3\" -->"),
    ];
    assert_eq!(find_prior_comment(&h, &comments), prior(3, Some("c2")));
    assert_eq!(find_prior_comment(&h, &comments[..2].to_vec()), prior(1, Some("c1")));
    assert_eq!(find_prior_comment(&h, &comments[1..2].to_vec()), None);
    assert_eq!(find_prior_comment(&h, &Vec::new()), None);
}

#[test]
fn prior_comment_with_unreadable_metadata_records_no_commit() {
    let h = handler();
    let comments = vec![
        existing(1, "first\n\n<!-- bot:\"c1\" -->"),
        existing(2, "broken\n\n<!-- bot:{\"commit\":1} -->"),
    ];
    assert_eq!(find_prior_comment(&h, &comments), prior(2, None));
    let unfinished = vec![existing(9, "cut\n\n<!-- bot:\"c1\"")];
    assert_eq!(find_prior_comment(&h, &unfinished), prior(9, None));
}

#[test]
fn plan_embeds_the_commit_as_a_json_string() {
    let h = handler();
    let plan = plan_publish(&h, CommentOverwriteMode::Never, &Vec::new(), "Report", "abc123");
    assert_eq!(
        plan,
        Ok(PublishPlan {
            target: PublishTarget::Create,
            body: "Report\n\n<!-- bot:\"abc123\" -->".to_owned(),
        })
    );
    let quoted =
        plan_publish(&h, CommentOverwriteMode::Never, &Vec::new(), "Report", "a\"b\\c").unwrap();
    assert_eq!(quoted.body, "Report\n\n<!-- bot:\"a\\\"b\\\\c\" -->");
    assert_eq!(h.get_commit_ref_from_comment(&quoted.body), Some(Ok("a\"b\\c".to_owned())));
    assert_eq!(MetadataError::Encode.kind(), ErrorKind::SerializationFailure);
    assert_eq!(MetadataError::Decode.kind(), ErrorKind::SerializationFailure);
}

#[test]
fn plan_follows_the_mode() {
    let h = handler();
    let comments = vec![
        existing(11, "old\n\n<!-- bot:\"c1\" -->"),
        existing(12, "newer\n\n<!-- bot:\"c2\" -->"),
        existing(13, "unrelated"),
    ];
    let target =
        |mode, commit: &str| plan_publish(&h, mode, &comments, "new", commit).unwrap().target;
    assert_eq!(target(CommentOverwriteMode::Never, "c2"), PublishTarget::Create);
    assert_eq!(target(CommentOverwriteMode::Always, "c2"), PublishTarget::Replace(12));
    assert_eq!(target(CommentOverwriteMode::Always, "c9"), PublishTarget::Replace(12));
    assert_eq!(target(CommentOverwriteMode::OnSameCommit, "c2"), PublishTarget::Replace(12));
    // Only the last marked comment is looked at, not an older one for the same commit.
    assert_eq!(target(CommentOverwriteMode::OnSameCommit, "c1"), PublishTarget::Create);
    assert_eq!(target(CommentOverwriteMode::OnSameCommit, "c9"), PublishTarget::Create);
}

#[test]
fn published_comment_is_found_again_and_replaced_on_the_same_commit() {
    let h = handler();
    let first = plan_publish(&h, CommentOverwriteMode::OnSameCommit, &Vec::new(), "v1", "sha-1")
        .unwrap();
    assert_eq!(first.target, PublishTarget::Create);
    let comments = vec![existing(77, &first.body)];
    let same = plan_publish(&h, CommentOverwriteMode::OnSameCommit, &comments, "v2", "sha-1");
    assert_eq!(same.unwrap().target, PublishTarget::Replace(77));
    let differing = plan_publish(&h, CommentOverwriteMode::OnSameCommit, &comments, "v2", "sha-2");
    assert_eq!(differing.unwrap().target, PublishTarget::Create);
}

#[test]
fn comments_are_listed_from_the_issue() {
    let request = api().list_comments("org", "repo", 15).expect("a request");
    assert_eq!(request.method, HttpMethod::Get);
    assert_eq!(request.url, "https://api.github.com/repos/org/repo/issues/15/comments");
    assert_eq!(request.authorization, "token 0123456789");
    assert_eq!(request.body, None);
    let broken = GithubAPI { base_url: "nowhere".to_owned(), token: String::new() };
    assert!(broken.list_comments("org", "repo", 15).is_none());
}

#[test]
fn publish_posts_a_new_comment_and_patches_a_replaced_one() {
    let create = PublishPlan { target: PublishTarget::Create, body: "b1".to_owned() };
    let request = api().publish("org", "repo", 15, create).ok().expect("a request");
    assert_eq!(request.method, HttpMethod::Post);
    assert_eq!(request.url, "https://api.github.com/repos/org/repo/issues/15/comments");
    assert_eq!(request.body, Some(CommentCreateRequest { body: "b1".to_owned() }));

    let replace = PublishPlan { target: PublishTarget::Replace(4096), body: "b2".to_owned() };
    let request = api().publish("org", "repo", 15, replace.clone()).ok().expect("a request");
    assert_eq!(request.method, HttpMethod::Patch);
    assert_eq!(request.url, "https://api.github.com/repos/org/repo/issues/comments/4096");
    assert_eq!(request.authorization, "token 0123456789");
    assert_eq!(request.accept, "application/vnd.github.v3+json");
    assert_eq!(request.body, Some(CommentCreateRequest { body: "b2".to_owned() }));

    let broken = GithubAPI { base_url: "nowhere".to_owned(), token: String::new() };
    assert!(broken.publish("org", "repo", 15, replace) == Err(CommentError::RequestUrl));
}

#[test]
fn success_status_depends_on_the_target() {
    assert_eq!(STATUS_OK, 200);
    assert_eq!(publish_outcome(PublishTarget::Create, Ok((201, String::new()))), Ok(()));
    assert_eq!(publish_outcome(PublishTarget::Replace(1), Ok((200, String::new()))), Ok(()));
    assert_eq!(
        publish_outcome(PublishTarget::Create, Ok((200, "r".to_owned()))),
        Err(CommentError::UnexpectedStatus { status: 200, response: "r".to_owned() })
    );
    assert_eq!(
        publish_outcome(PublishTarget::Replace(1), Ok((201, "r".to_owned()))),
        Err(CommentError::UnexpectedStatus { status: 201, response: "r".to_owned() })
    );
    assert_eq!(
        publish_outcome(PublishTarget::Replace(1), Err("refused".to_owned())),
        Err(CommentError::Transport("refused".to_owned()))
    );
}

#[test]
fn comment_path_names_the_comment() {
    assert_eq!(comment_path("org", "repo", 4096), "repos/org/repo/issues/comments/4096");
    assert_eq!(comment_path("o", "r", u64::MAX), "repos/o/r/issues/comments/18446744073709551615");
}
