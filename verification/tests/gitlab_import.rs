use git_host::external::Timestamp;
use git_host::gitlab_import::{
    access_token_from_lookup, build_gitlab_error_response, gitlab_base_url, import_project_path,
    issue_to_import, issues_page_url, issues_to_import, next_issues_page,
    parse_project_path_from_reference, project_to_import, project_url, projects_search_url,
    GitLabIssue, GitLabProject, TokenLookup,
};

#[test]
fn base_url_defaults_and_trims() {
    assert_eq!(gitlab_base_url(None), "https://gitlab.com");
    assert_eq!(gitlab_base_url(Some("https://git.corp//".to_string())), "https://git.corp");
}

#[test]
fn project_path_from_reference() {
    let base = "https://gitlab.com";
    assert_eq!(parse_project_path_from_reference(base, "  group/sub/proj "), "group/sub/proj");
    assert_eq!(parse_project_path_from_reference(base, "/group/proj"), "group/proj");
    assert_eq!(
        parse_project_path_from_reference(base, "https://gitlab.com/group/sub/proj/-/issues/4"),
        "group/sub/proj"
    );
    assert_eq!(
        parse_project_path_from_reference(base, "https://gitlab.com//group//proj/"),
        "group/proj"
    );
    assert_eq!(
        parse_project_path_from_reference(base, "https://other.host/group/proj"),
        "https://other.host/group/proj"
    );
    assert_eq!(parse_project_path_from_reference(base, "https://gitlab.com/-/x"), "https://gitlab.com/-/x");
    assert_eq!(parse_project_path_from_reference(base, " // "), "");
}

#[test]
fn blank_reference_is_refused() {
    let e = import_project_path("https://gitlab.com", "  /  ").unwrap_err();
    assert_eq!(e.status, 400);
    assert_eq!(e.message, "GitLab project path is required");
    assert_eq!(import_project_path("https://gitlab.com", "a/b").unwrap(), "a/b");
}

#[test]
fn error_answers() {
    let e = build_gitlab_error_response(401, "nope", "loading project");
    assert_eq!(e.status, 403);
    assert_eq!(
        e.message,
        "GitLab authorization failed while loading project. Reconnect GitLab with scope read_api (and read_user/openid/email)."
    );
    let e = build_gitlab_error_response(404, "", "loading issues");
    assert_eq!(e.status, 404);
    assert_eq!(e.message, "GitLab project not found or not accessible");
    let e = build_gitlab_error_response(500, "  line one\nline two\n", "searching projects");
    assert_eq!(e.status, 502);
    assert_eq!(
        e.message,
        "GitLab API error while searching projects (status 500 Internal Server Error): line one line two"
    );
    let e = build_gitlab_error_response(599, "   ", "loading issues");
    assert_eq!(e.message, "GitLab API error while loading issues (status 599 <unknown status code>)");
    let long = "x".repeat(400);
    let e = build_gitlab_error_response(502, &long, "a");
    assert_eq!(e.message, format!("GitLab API error while a (status 502 Bad Gateway): {}", "x".repeat(300)));
}

#[test]
fn api_urls() {
    assert_eq!(
        project_url("https://gitlab.com", "group/sub proj"),
        "https://gitlab.com/api/v4/projects/group%2Fsub%20proj"
    );
    assert_eq!(
        issues_page_url("https://gitlab.com", 42, false, 1),
        "https://gitlab.com/api/v4/projects/42/issues?state=opened&per_page=100&page=1"
    );
    assert_eq!(
        issues_page_url("https://gitlab.com", 42, true, 3),
        "https://gitlab.com/api/v4/projects/42/issues?state=all&per_page=100&page=3"
    );
    assert_eq!(
        projects_search_url("https://gitlab.com", "  "),
        "https://gitlab.com/api/v4/projects?membership=true&simple=true&per_page=100&order_by=last_activity_at&sort=desc"
    );
    assert_eq!(
        projects_search_url("https://gitlab.com", " my app "),
        "https://gitlab.com/api/v4/projects?membership=true&simple=true&per_page=100&order_by=last_activity_at&sort=desc&search=my%20app"
    );
}

#[test]
fn pagination() {
    assert_eq!(next_issues_page(Some("2".to_string())), Some(2));
    assert_eq!(next_issues_page(Some("0".to_string())), None);
    assert_eq!(next_issues_page(Some("".to_string())), None);
    assert_eq!(next_issues_page(Some("x".to_string())), None);
    assert_eq!(next_issues_page(Some("+7".to_string())), Some(7));
    assert_eq!(next_issues_page(Some("3000000000".to_string())), None);
    assert_eq!(next_issues_page(None), None);
}

#[test]
fn token_lookup_answers() {
    assert_eq!(access_token_from_lookup(TokenLookup::Found("tok".to_string())).unwrap(), "tok");
    let e = access_token_from_lookup(TokenLookup::LoadFailed).unwrap_err();
    assert_eq!((e.status, e.message.as_str()), (500, "failed to load GitLab account"));
    let e = access_token_from_lookup(TokenLookup::NotLinked).unwrap_err();
    assert_eq!(
        (e.status, e.message.as_str()),
        (400, "GitLab account is not linked. Please sign in with GitLab first.")
    );
    let e = access_token_from_lookup(TokenLookup::TokenMissing).unwrap_err();
    assert_eq!(
        (e.status, e.message.as_str()),
        (400, "GitLab account token is missing. Please re-authenticate.")
    );
    let e = access_token_from_lookup(TokenLookup::DecryptFailed).unwrap_err();
    assert_eq!((e.status, e.message.as_str()), (400, "Invalid GitLab token state. Please sign in again."));
}

fn issue(state: &str, description: Option<&str>, web_url: Option<&str>) -> GitLabIssue {
    GitLabIssue {
        iid: 12,
        title: "Fix it".to_string(),
        description: description.map(String::from),
        state: state.to_string(),
        web_url: web_url.map(String::from),
        created_at: "2024-01-02T03:04:05+01:00".to_string(),
    }
}

#[test]
fn issues_are_converted() {
    let now = Timestamp { secs: 1, nanos: 2 };
    let i = issue_to_import(&issue("CLOSED", Some("Details"), Some("https://gitlab.com/o/r/-/issues/12")), now);
    assert_eq!(i.status_name, "Done");
    assert_eq!(i.title, "#12 Fix it");
    assert_eq!(
        i.description.as_deref(),
        Some("Details\n\nImported from GitLab issue: https://gitlab.com/o/r/-/issues/12")
    );
    assert_eq!(i.created_at, Timestamp { secs: 1704161045, nanos: 0 });
    let i = issue_to_import(&issue("opened", Some(""), Some("https://u")), now);
    assert_eq!(i.status_name, "To do");
    assert_eq!(i.description.as_deref(), Some("Imported from GitLab issue: https://u"));
    let i = issue_to_import(&issue("opened", None, None), now);
    assert_eq!(i.description, None);
    let mut bad = issue("opened", Some("d"), None);
    bad.created_at = "soon".to_string();
    let all = issues_to_import(&vec![bad, issue("closed", None, None)], now);
    assert_eq!(all.len(), 2);
    assert_eq!(all[0].description.as_deref(), Some("d"));
    assert_eq!(all[0].created_at, now);
    assert_eq!(all[1].status_name, "Done");
}

#[test]
fn projects_are_converted() {
    let now = Timestamp { secs: 7, nanos: 0 };
    let p = GitLabProject {
        id: 1,
        name: "Proj".to_string(),
        web_url: None,
        created_at: Some("1970-01-01T00:01:00Z".to_string()),
    };
    let i = project_to_import(&p, now);
    assert_eq!(i.name, "Proj");
    assert_eq!(i.color, "217 91% 60%");
    assert_eq!(i.created_at, Timestamp { secs: 60, nanos: 0 });
    let p = GitLabProject { id: 1, name: "P".to_string(), web_url: None, created_at: None };
    assert_eq!(project_to_import(&p, now).created_at, now);
}

#[test]
fn transport_answers() {
    let e = git_host::gitlab_import::unreachable_api_response();
    assert_eq!((e.status, e.message.as_str()), (502, "failed to reach GitLab API"));
    let e = git_host::gitlab_import::invalid_api_response("loading issues");
    assert_eq!((e.status, e.message.as_str()), (502, "Invalid GitLab response while loading issues"));
}
