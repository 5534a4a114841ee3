//! The GitLab hosting service: its errors as the git host layer reports them
//! and the checks it makes before it runs the GitLab CLI.

use vstd::prelude::*;
use vstd::std_specs::convert::FromSpecImpl;

use crate::detection::ProviderKind;
use crate::glab::{CreatePrRequest, GlabCli, GlabCliError};
use crate::text::{
    ascii_lowercase, ascii_lowercase_chars, chars_of, contains_chars, contains_seq, copy_string,
    same_chars,
};

verus! {

/// Failures of a git hosting service.
#[derive(Debug)]
pub enum GitHostError {
    Repository(String),
    AuthFailed(String),
    CliNotInstalled { provider: ProviderKind },
    InsufficientPermissions(String),
    RepoNotFoundOrNoAccess(String),
    NotAGitRepository(String),
    PullRequest(String),
    UnexpectedOutput(String),
}

/// The GitLab hosting service, driven through the GitLab CLI.
#[derive(Debug, Clone, Copy)]
pub struct GitLabProvider {
    pub glab_cli: GlabCli,
}

/// The host error for a failed `glab` command, from its message: `403` or
/// `forbidden` mean missing permissions, `404` or `not found` a missing or
/// hidden repository, `not a git repository` a directory outside git; any
/// other failure is a pull request failure. Case is ignored (ASCII).
pub open spec fn command_failure_error(msg: String) -> GitHostError {
    let lower = ascii_lowercase(msg@);
    if contains_seq(lower, "403"@) || contains_seq(lower, "forbidden"@) {
        GitHostError::InsufficientPermissions(msg)
    } else if contains_seq(lower, "404"@) || contains_seq(lower, "not found"@) {
        GitHostError::RepoNotFoundOrNoAccess(msg)
    } else if contains_seq(lower, "not a git repository"@) {
        GitHostError::NotAGitRepository(msg)
    } else {
        GitHostError::PullRequest(msg)
    }
}

/// The host error for a GitLab CLI error.
pub open spec fn host_error_of(error: GlabCliError) -> GitHostError {
    match error {
        GlabCliError::AuthFailed(msg) => GitHostError::AuthFailed(msg),
        GlabCliError::NotAvailable => GitHostError::CliNotInstalled { provider: ProviderKind::GitLab },
        GlabCliError::CommandFailed(msg) => command_failure_error(msg),
        GlabCliError::UnexpectedOutput(msg) => GitHostError::UnexpectedOutput(msg),
    }
}

impl From<GlabCliError> for GitHostError {
    fn from(error: GlabCliError) -> (r: Self) {
        match error {
            GlabCliError::AuthFailed(msg) => GitHostError::AuthFailed(msg),
            GlabCliError::NotAvailable => GitHostError::CliNotInstalled { provider: ProviderKind::GitLab },
            GlabCliError::CommandFailed(msg) => {
                let cs = chars_of(msg.as_str());
                let lower = ascii_lowercase_chars(&cs);
                if contains_chars(&lower, &chars_of("403")) || contains_chars(&lower, &chars_of("forbidden")) {
                    GitHostError::InsufficientPermissions(msg)
                } else if contains_chars(&lower, &chars_of("404")) || contains_chars(
                    &lower,
                    &chars_of("not found"),
                ) {
                    GitHostError::RepoNotFoundOrNoAccess(msg)
                } else if contains_chars(&lower, &chars_of("not a git repository")) {
                    GitHostError::NotAGitRepository(msg)
                } else {
                    GitHostError::PullRequest(msg)
                }
            },
            GlabCliError::UnexpectedOutput(msg) => GitHostError::UnexpectedOutput(msg),
        }
    }
}

impl FromSpecImpl<GlabCliError> for GitHostError {
    open spec fn obeys_from_spec() -> bool {
        true
    }

    open spec fn from_spec(error: GlabCliError) -> GitHostError {
        host_error_of(error)
    }
}

/// The message for a merge request whose head branch lives in another repository.
pub open spec fn cross_fork_message() -> Seq<char> {
    "Cross-fork merge requests are not supported for GitLab"@
}

impl GitLabProvider {
    pub fn new() -> (r: Result<Self, GitHostError>)
        ensures
            r is Ok,
    {
        Ok(GitLabProvider { glab_cli: GlabCli::new() })
    }

    /// GitLab merge requests are opened from the same repository only: a
    /// request whose head repository differs from the remote is refused.
    pub fn check_same_repository(request: &CreatePrRequest, remote_url: &str) -> (r: Result<
        (),
        GitHostError,
    >)
        ensures
            match request.head_repo_url {
                Some(head) if head@ != remote_url@ => r matches Err(GitHostError::PullRequest(m))
                    && m@ == cross_fork_message(),
                _ => r is Ok,
            },
    {
        if let Some(head_url) = &request.head_repo_url {
            let h = chars_of(head_url.as_str());
            let u = chars_of(remote_url);
            if !same_chars(&h, &u) {
                return Err(
                    GitHostError::PullRequest(
                        copy_string("Cross-fork merge requests are not supported for GitLab"),
                    ),
                );
            }
        }
        Ok(())
    }

    pub fn provider_kind(&self) -> (kind: ProviderKind)
        ensures
            kind == ProviderKind::GitLab,
    {
        ProviderKind::GitLab
    }
}


/// The message a CLI error carries, if any.
pub open spec fn cli_error_message(e: GlabCliError) -> Option<String> {
    match e {
        GlabCliError::NotAvailable => None,
        GlabCliError::CommandFailed(m) => Some(m),
        GlabCliError::AuthFailed(m) => Some(m),
        GlabCliError::UnexpectedOutput(m) => Some(m),
    }
}

/// The message a host error carries, if any.
pub open spec fn host_error_message(e: GitHostError) -> Option<String> {
    match e {
        GitHostError::Repository(m) => Some(m),
        GitHostError::AuthFailed(m) => Some(m),
        GitHostError::CliNotInstalled { .. } => None,
        GitHostError::InsufficientPermissions(m) => Some(m),
        GitHostError::RepoNotFoundOrNoAccess(m) => Some(m),
        GitHostError::NotAGitRepository(m) => Some(m),
        GitHostError::PullRequest(m) => Some(m),
        GitHostError::UnexpectedOutput(m) => Some(m),
    }
}

/// Turning a CLI error into a host error keeps its message, and a missing
/// CLI is reported as the GitLab CLI not being installed.
pub proof fn law_host_error_keeps_message(e: GlabCliError)
    ensures
        host_error_message(host_error_of(e)) == cli_error_message(e),
        e is NotAvailable <==> host_error_of(e) == (GitHostError::CliNotInstalled {
            provider: ProviderKind::GitLab,
        }),
{
}

} // verus!
