use github_pr_commentator::config::{
    choose_comment_source, choose_overwrite_mode, resolve_repo_info, CommentSourceChoice,
    ConfigError,
};
use github_pr_commentator::error::ErrorKind;
use github_pr_commentator::github::RepoInfo;
use github_pr_commentator::publish::CommentOverwriteMode;

fn info(api_url: &str, org: &str, name: &str) -> RepoInfo {
    RepoInfo { api_url: api_url.to_owned(), org: org.to_owned(), name: name.to_owned() }
}

fn text(s: &str) -> Option<String> {
    Some(s.to_owned())
}

#[test]
fn coordinates_come_from_the_url_when_nothing_else_is_given() {
    let from_url = info("https://ghe/api/v3/", "org", "repo");
    assert_eq!(resolve_repo_info(Some(from_url.clone()), None, None, None), Ok(from_url));
}

#[test]
fn given_values_go_before_the_url() {
    let from_url = info("https://ghe/api/v3/", "org", "repo");
    assert_eq!(
        resolve_repo_info(Some(from_url.clone()), text("https://other/"), None, None),
        Ok(info("https://other/", "org", "repo"))
    );
    assert_eq!(
        resolve_repo_info(Some(from_url.clone()), None, text("team"), None),
        Ok(info("https://ghe/api/v3/", "team", "repo"))
    );
    assert_eq!(
        resolve_repo_info(Some(from_url), text("https://other/"), text("team"), text("tool")),
        Ok(info("https://other/", "team", "tool"))
    );
}

#[test]
fn api_url_falls_back_on_the_public_root() {
    assert_eq!(
        resolve_repo_info(None, None, text("team"), text("tool")),
        Ok(info("https://api.github.com/", "team", "tool"))
    );
}

#[test]
fn missing_or_empty_names_are_refused() {
    assert_eq!(
        resolve_repo_info(None, None, text("team"), None),
        Err(ConfigError::MissingRepoName)
    );
    assert_eq!(
        resolve_repo_info(None, None, text("team"), text("")),
        Err(ConfigError::MissingRepoName)
    );
    assert_eq!(
        resolve_repo_info(None, None, None, text("tool")),
        Err(ConfigError::MissingOrganization)
    );
    assert_eq!(
        resolve_repo_info(Some(info("https://x/", "org", "repo")), None, text(""), None),
        Err(ConfigError::MissingOrganization)
    );
    // The repository name is looked at first.
    assert_eq!(resolve_repo_info(None, None, None, None), Err(ConfigError::MissingRepoName));
    assert_eq!(ConfigError::MissingRepoName.kind(), ErrorKind::InvalidInput);
}

#[test]
fn api_url_that_is_no_base_is_refused() {
    assert_eq!(
        resolve_repo_info(None, text("https://ghe/api/v3"), text("team"), text("tool")),
        Err(ConfigError::ApiUrlNotBase)
    );
    assert_eq!(
        resolve_repo_info(None, text(""), text("team"), text("tool")),
        Err(ConfigError::ApiUrlNotBase)
    );
    assert_eq!(
        resolve_repo_info(Some(info("https://ghe/api", "o", "r")), None, None, None),
        Err(ConfigError::ApiUrlNotBase)
    );
}

#[test]
fn comment_goes_before_file_and_file_before_stdin() {
    assert_eq!(
        choose_comment_source(text("hello"), text("file.md"), true),
        Ok(CommentSourceChoice::Text("hello".to_owned()))
    );
    assert_eq!(
        choose_comment_source(None, text("file.md"), true),
        Ok(CommentSourceChoice::File("file.md".to_owned()))
    );
    assert_eq!(choose_comment_source(None, None, true), Ok(CommentSourceChoice::Stdin));
    assert_eq!(choose_comment_source(None, None, false), Err(ConfigError::NoCommentSource));
    assert_eq!(
        choose_comment_source(text(""), None, false),
        Ok(CommentSourceChoice::Text(String::new()))
    );
}

#[test]
fn overwrite_mode_defaults_to_always() {
    assert_eq!(choose_overwrite_mode(None), Ok(CommentOverwriteMode::Always));
    assert_eq!(choose_overwrite_mode(Some("Never")), Ok(CommentOverwriteMode::Never));
    assert_eq!(choose_overwrite_mode(Some("Always")), Ok(CommentOverwriteMode::Always));
    assert_eq!(choose_overwrite_mode(Some("OnSameCommit")), Ok(CommentOverwriteMode::OnSameCommit));
    assert_eq!(choose_overwrite_mode(Some("never")), Err(ConfigError::UnknownOverwriteMode));
    assert_eq!(choose_overwrite_mode(Some("")), Err(ConfigError::UnknownOverwriteMode));
}
