use git_host::detection::{
    detect_provider_from_pr_url, detect_provider_from_pr_url_with_custom_gitlab_domains,
    detect_provider_from_url, detect_provider_from_url_with_custom_gitlab_domains, ProviderKind,
};

#[test]
fn test_github_com_https() {
    assert_eq!(detect_provider_from_url("https://github.com/owner/repo"), ProviderKind::GitHub);
    assert_eq!(detect_provider_from_url("https://github.com/owner/repo.git"), ProviderKind::GitHub);
}

#[test]
fn test_github_com_ssh() {
    assert_eq!(detect_provider_from_url("git@github.com:owner/repo.git"), ProviderKind::GitHub);
}

#[test]
fn test_github_enterprise() {
    assert_eq!(
        detect_provider_from_url("https://github.company.com/owner/repo"),
        ProviderKind::GitHub
    );
    assert_eq!(
        detect_provider_from_url("https://github.acme.corp/team/project"),
        ProviderKind::GitHub
    );
    assert_eq!(
        detect_provider_from_url("git@github.internal.io:org/repo.git"),
        ProviderKind::GitHub
    );
}

#[test]
fn test_azure_devops_https() {
    assert_eq!(
        detect_provider_from_url("https://dev.azure.com/org/project/_git/repo"),
        ProviderKind::AzureDevOps
    );
}

#[test]
fn test_azure_devops_ssh() {
    assert_eq!(
        detect_provider_from_url("git@ssh.dev.azure.com:v3/org/project/repo"),
        ProviderKind::AzureDevOps
    );
}

#[test]
fn test_azure_devops_legacy_visualstudio() {
    assert_eq!(
        detect_provider_from_url("https://org.visualstudio.com/project/_git/repo"),
        ProviderKind::AzureDevOps
    );
}

#[test]
fn test_azure_devops_git_path() {
    assert_eq!(
        detect_provider_from_url("https://custom.domain.com/org/project/_git/repo"),
        ProviderKind::AzureDevOps
    );
}

#[test]
fn test_gitlab_com_https() {
    assert_eq!(detect_provider_from_url("https://gitlab.com/owner/repo"), ProviderKind::GitLab);
    assert_eq!(detect_provider_from_url("https://gitlab.com/owner/repo.git"), ProviderKind::GitLab);
}

#[test]
fn test_gitlab_com_ssh() {
    assert_eq!(detect_provider_from_url("git@gitlab.com:owner/repo.git"), ProviderKind::GitLab);
}

#[test]
fn test_gitlab_self_hosted_with_custom_domain() {
    let domains = vec!["gitlab.mycompany.com".to_string()];
    assert_eq!(
        detect_provider_from_url_with_custom_gitlab_domains(
            "https://gitlab.mycompany.com/team/project",
            &domains
        ),
        ProviderKind::GitLab
    );
    assert_eq!(
        detect_provider_from_url_with_custom_gitlab_domains(
            "git@gitlab.mycompany.com:team/project.git",
            &domains
        ),
        ProviderKind::GitLab
    );
}

#[test]
fn test_gitlab_self_hosted_with_url_prefix() {
    let domains = vec!["https://gitlab.mycompany.com".to_string()];
    assert_eq!(
        detect_provider_from_url_with_custom_gitlab_domains(
            "https://gitlab.mycompany.com/team/project",
            &domains
        ),
        ProviderKind::GitLab
    );
}

#[test]
fn test_unknown_provider() {
    assert_eq!(detect_provider_from_url("https://bitbucket.org/owner/repo"), ProviderKind::Unknown);
    assert_eq!(
        detect_provider_from_url("https://custom-git.example.com/owner/repo"),
        ProviderKind::Unknown
    );
}

#[test]
fn test_pr_url_github() {
    assert_eq!(
        detect_provider_from_pr_url("https://github.com/owner/repo/pull/123"),
        ProviderKind::GitHub
    );
    assert_eq!(
        detect_provider_from_pr_url("https://github.company.com/owner/repo/pull/456"),
        ProviderKind::GitHub
    );
}

#[test]
fn test_pr_url_azure() {
    assert_eq!(
        detect_provider_from_pr_url("https://dev.azure.com/org/project/_git/repo/pullrequest/123"),
        ProviderKind::AzureDevOps
    );
    assert_eq!(
        detect_provider_from_pr_url("https://org.visualstudio.com/project/_git/repo/pullrequest/456"),
        ProviderKind::AzureDevOps
    );
}

#[test]
fn test_pr_url_gitlab() {
    assert_eq!(
        detect_provider_from_pr_url("https://gitlab.com/owner/repo/-/merge_requests/123"),
        ProviderKind::GitLab
    );
}

#[test]
fn test_mr_url_gitlab_self_hosted() {
    let domains = vec!["gitlab.mycompany.com".to_string()];
    assert_eq!(
        detect_provider_from_pr_url_with_custom_gitlab_domains(
            "https://gitlab.mycompany.com/team/project/-/merge_requests/42",
            &domains
        ),
        ProviderKind::GitLab
    );
}

#[test]
fn detection_ignores_case() {
    assert_eq!(detect_provider_from_url("HTTPS://GitHub.COM/Owner/Repo"), ProviderKind::GitHub);
    assert_eq!(detect_provider_from_url("https://GITLAB.com/o/r"), ProviderKind::GitLab);
    let domains = vec!["GitLab.MyCompany.com".to_string()];
    assert_eq!(
        detect_provider_from_url_with_custom_gitlab_domains("https://gitlab.mycompany.COM/t/p", &domains),
        ProviderKind::GitLab
    );
}

#[test]
fn azure_wins_over_github_enterprise() {
    assert_eq!(
        detect_provider_from_url("https://github.example.com/org/project/_git/repo"),
        ProviderKind::AzureDevOps
    );
    assert_eq!(
        detect_provider_from_url("https://dev.azure.com/github.tools/_git/repo"),
        ProviderKind::AzureDevOps
    );
}

#[test]
fn github_com_wins_over_everything() {
    let domains = vec!["github.com".to_string()];
    assert_eq!(
        detect_provider_from_url_with_custom_gitlab_domains("https://github.com/o/_git/r", &domains),
        ProviderKind::GitHub
    );
}

#[test]
fn custom_domains_only_add_gitlab() {
    let domains = vec!["github.internal.io".to_string()];
    assert_eq!(detect_provider_from_url("https://github.internal.io/o/r"), ProviderKind::GitHub);
    assert_eq!(
        detect_provider_from_url_with_custom_gitlab_domains("https://github.internal.io/o/r", &domains),
        ProviderKind::GitLab
    );
    let http = vec!["http://git.corp".to_string()];
    assert_eq!(
        detect_provider_from_url_with_custom_gitlab_domains("git@git.corp:o/r.git", &http),
        ProviderKind::GitLab
    );
    let other = vec!["git.corp".to_string()];
    assert_eq!(
        detect_provider_from_url_with_custom_gitlab_domains("https://example.org/o/r", &other),
        ProviderKind::Unknown
    );
}

#[test]
fn pr_url_without_marker_follows_repository_rules() {
    assert_eq!(detect_provider_from_pr_url("https://bitbucket.org/o/r/pull/1"), ProviderKind::Unknown);
    assert_eq!(detect_provider_from_pr_url("https://example.org/o/r/-/merge_requests/3"), ProviderKind::GitLab);
    assert_eq!(detect_provider_from_pr_url("https://gitlab.com/o/r"), ProviderKind::GitLab);
    assert_eq!(detect_provider_from_pr_url("https://example.org/o/r"), ProviderKind::Unknown);
}
