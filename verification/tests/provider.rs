use git_host::detection::ProviderKind;
use git_host::glab::{CreatePrRequest, GlabCliError};
use git_host::provider::{GitHostError, GitLabProvider};

#[test]
fn provider_is_gitlab() {
    let p = GitLabProvider::new().unwrap();
    assert_eq!(p.provider_kind(), ProviderKind::GitLab);
}

#[test]
fn cli_errors_map_to_host_errors() {
    assert!(matches!(
        GitHostError::from(GlabCliError::NotAvailable),
        GitHostError::CliNotInstalled { provider: ProviderKind::GitLab }
    ));
    assert!(matches!(
        GitHostError::from(GlabCliError::AuthFailed("a".to_string())),
        GitHostError::AuthFailed(m) if m == "a"
    ));
    assert!(matches!(
        GitHostError::from(GlabCliError::CommandFailed("HTTP 403 Forbidden".to_string())),
        GitHostError::InsufficientPermissions(m) if m == "HTTP 403 Forbidden"
    ));
    assert!(matches!(
        GitHostError::from(GlabCliError::CommandFailed("Project Not Found".to_string())),
        GitHostError::RepoNotFoundOrNoAccess(_)
    ));
    assert!(matches!(
        GitHostError::from(GlabCliError::CommandFailed("fatal: NOT A GIT REPOSITORY".to_string())),
        GitHostError::NotAGitRepository(_)
    ));
    assert!(matches!(
        GitHostError::from(GlabCliError::CommandFailed("timeout".to_string())),
        GitHostError::PullRequest(m) if m == "timeout"
    ));
    assert!(matches!(
        GitHostError::from(GlabCliError::UnexpectedOutput("x".to_string())),
        GitHostError::UnexpectedOutput(m) if m == "x"
    ));
}

#[test]
fn cross_fork_requests_are_refused() {
    let mut request = CreatePrRequest {
        title: "t".to_string(),
        body: None,
        head_branch: "h".to_string(),
        base_branch: "b".to_string(),
        draft: None,
        head_repo_url: None,
    };
    assert!(GitLabProvider::check_same_repository(&request, "git@gitlab.com:o/r.git").is_ok());
    request.head_repo_url = Some("git@gitlab.com:o/r.git".to_string());
    assert!(GitLabProvider::check_same_repository(&request, "git@gitlab.com:o/r.git").is_ok());
    request.head_repo_url = Some("git@gitlab.com:fork/r.git".to_string());
    match GitLabProvider::check_same_repository(&request, "git@gitlab.com:o/r.git") {
        Err(GitHostError::PullRequest(m)) => {
            assert_eq!(m, "Cross-fork merge requests are not supported for GitLab")
        }
        other => panic!("unexpected {:?}", other),
    }
}
