//! What an invocation asks for, settled from the values it was given: the
//! repository's coordinates, where the comment's text comes from, and the
//! overwrite mode.

use vstd::prelude::*;
use vstd::string::*;

use crate::error::ErrorKind;
use crate::github::{
    default_api_url, is_base_url, RepoInfo, RepoInfoView, DEFAULT_GITHUB_API_URL,
};
use crate::publish::CommentOverwriteMode;
use crate::text::{chars_of, text_option};

verus! {

/// Why the given values do not settle an invocation.
#[derive(Clone, Copy, Debug, PartialEq, Eq, Structural)]
pub enum ConfigError {
    /// No repository name was given, by itself or in a repository URL, or
    /// an empty one.
    MissingRepoName,
    /// No organization was given, by itself or in a repository URL, or an
    /// empty one.
    MissingOrganization,
    /// The API URL does not end in a path separator.
    ApiUrlNotBase,
    /// The overwrite mode is none of the three.
    UnknownOverwriteMode,
    /// Neither a comment nor a file was given, and standard input was not
    /// allowed.
    NoCommentSource,
}

impl ConfigError {
    pub open spec fn spec_kind(&self) -> ErrorKind {
        ErrorKind::InvalidInput
    }

    /// The kind of this failure: always invalid input.
    pub fn kind(&self) -> (k: ErrorKind)
        ensures
            k == self.spec_kind(),
    {
        ErrorKind::InvalidInput
    }
}

/// `given` if there is one, else `fallback`.
pub open spec fn given_or(given: Option<Seq<char>>, fallback: Option<Seq<char>>) -> Option<
    Seq<char>,
> {
    match given {
        Some(_) => given,
        None => fallback,
    }
}

/// The coordinates that the given values settle: each value that was given
/// by itself goes before what the repository URL yielded, and the API URL
/// falls back on the public API root.
pub open spec fn resolved_repo_info(
    from_url: Option<RepoInfoView>,
    api_url: Option<Seq<char>>,
    org: Option<Seq<char>>,
    name: Option<Seq<char>>,
) -> Result<RepoInfoView, ConfigError> {
    let name = given_or(
        name,
        match from_url {
            Some(info) => Some(info.name),
            None => None,
        },
    );
    let org = given_or(
        org,
        match from_url {
            Some(info) => Some(info.org),
            None => None,
        },
    );
    let api_url = given_or(
        given_or(
            api_url,
            match from_url {
                Some(info) => Some(info.api_url),
                None => None,
            },
        ),
        Some(default_api_url()),
    )->0;
    if name is None || name->0.len() == 0 {
        Err(ConfigError::MissingRepoName)
    } else if org is None || org->0.len() == 0 {
        Err(ConfigError::MissingOrganization)
    } else if !is_base_url(api_url) {
        Err(ConfigError::ApiUrlNotBase)
    } else {
        Ok(RepoInfoView { api_url, org: org->0, name: name->0 })
    }
}

/// The view of what a repository URL yielded, if one was given.
pub open spec fn info_option(info: Option<RepoInfo>) -> Option<RepoInfoView> {
    match info {
        Some(i) => Some(i@),
        None => None,
    }
}

/// Settles the repository's coordinates from what a repository URL yielded
/// and from the values that were given by themselves, which go first.
/// Coordinates that come out are well-formed.
pub fn resolve_repo_info(
    from_url: Option<RepoInfo>,
    api_url: Option<String>,
    org: Option<String>,
    name: Option<String>,
) -> (r: Result<RepoInfo, ConfigError>)
    ensures
        match r {
            Ok(info) => resolved_repo_info(
                info_option(from_url),
                text_option(api_url),
                text_option(org),
                text_option(name),
            ) == Ok::<RepoInfoView, ConfigError>(info@),
            Err(e) => resolved_repo_info(
                info_option(from_url),
                text_option(api_url),
                text_option(org),
                text_option(name),
            ) == Err::<RepoInfoView, ConfigError>(e),
        },
        r matches Ok(info) ==> info.wf(),
{
    let (url_api, url_org, url_name) = match from_url {
        Some(info) => (Some(info.api_url), Some(info.org), Some(info.name)),
        None => (None, None, None),
    };
    let name = match name {
        Some(n) => Some(n),
        None => url_name,
    };
    let org = match org {
        Some(o) => Some(o),
        None => url_org,
    };
    let api_url = match api_url {
        Some(a) => a,
        None => match url_api {
            Some(a) => a,
            None => DEFAULT_GITHUB_API_URL.to_owned(),
        },
    };
    let name = match name {
        Some(n) => n,
        None => {
            return Err(ConfigError::MissingRepoName);
        },
    };
    if name.as_str().unicode_len() == 0 {
        return Err(ConfigError::MissingRepoName);
    }
    let org = match org {
        Some(o) => o,
        None => {
            return Err(ConfigError::MissingOrganization);
        },
    };
    if org.as_str().unicode_len() == 0 {
        return Err(ConfigError::MissingOrganization);
    }
    let chars = chars_of(api_url.as_str());
    if chars.len() == 0 || chars[chars.len() - 1] != '/' {
        return Err(ConfigError::ApiUrlNotBase);
    }
    Ok(RepoInfo { api_url, org, name })
}

/// Where the text of the comment comes from.
#[derive(Debug, Clone, PartialEq, Eq)]
pub enum CommentSourceChoice {
    /// The text was given itself.
    Text(String),
    /// The text is read from the file of this name.
    File(String),
    /// The text is read from standard input.
    Stdin,
}

/// Chooses where the text of the comment comes from: a comment that was
/// given goes before a file, and a file before standard input, which is
/// read only if that was allowed.
pub fn choose_comment_source(
    comment: Option<String>,
    comment_file: Option<String>,
    use_stdin: bool,
) -> (r: Result<CommentSourceChoice, ConfigError>)
    ensures
        r == match (comment, comment_file) {
            (Some(text), _) => Ok::<CommentSourceChoice, ConfigError>(
                CommentSourceChoice::Text(text),
            ),
            (None, Some(file)) => Ok(CommentSourceChoice::File(file)),
            (None, None) => if use_stdin {
                Ok(CommentSourceChoice::Stdin)
            } else {
                Err(ConfigError::NoCommentSource)
            },
        },
{
    match comment {
        Some(text) => Ok(CommentSourceChoice::Text(text)),
        None => match comment_file {
            Some(file) => Ok(CommentSourceChoice::File(file)),
            None => if use_stdin {
                Ok(CommentSourceChoice::Stdin)
            } else {
                Err(ConfigError::NoCommentSource)
            },
        },
    }
}

/// The overwrite mode that was asked for: the mode of the given name, and
/// `Always` where none was given. A name that is none of the three is
/// refused.
pub fn choose_overwrite_mode(name: Option<&str>) -> (r: Result<CommentOverwriteMode, ConfigError>)
    ensures
        r == match name {
            None => Ok::<CommentOverwriteMode, ConfigError>(CommentOverwriteMode::Always),
            Some(n) => match CommentOverwriteMode::named(n@) {
                Some(mode) => Ok(mode),
                None => Err(ConfigError::UnknownOverwriteMode),
            },
        },
{
    match name {
        None => Ok(CommentOverwriteMode::default()),
        Some(n) => match CommentOverwriteMode::from_name(n) {
            Some(mode) => Ok(mode),
            None => Err(ConfigError::UnknownOverwriteMode),
        },
    }
}

} // verus!
